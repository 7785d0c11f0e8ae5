//! The vocabulary with which the managers describe what must happen outside
//! the library: paths, process command lines, operations on the file system
//! and the processes, and the messages shown to the user. A manager is a state
//! machine: it is handed the outcome of the last operation and answers with the
//! next step. Each type has a view that the contracts speak of.
use vstd::prelude::*;
use crate::text::owned;

verus! {

// ---------------------------------------------------------------------------
// Paths
// ---------------------------------------------------------------------------

/// A path as the list of its segments, joined one after the other.
#[derive(Debug)]
pub struct PathSpec {
    pub segments: Vec<String>,
}

impl View for PathSpec {
    type V = Seq<Seq<char>>;

    open spec fn view(&self) -> Seq<Seq<char>> {
        self.segments.deep_view()
    }
}

/// A copy of `v`.
pub fn copy_strings(v: &Vec<String>) -> (r: Vec<String>)
    ensures
        r.deep_view() == v.deep_view(),
{
    let mut r: Vec<String> = Vec::new();
    let mut i: usize = 0;
    while i < v.len()
        invariant
            i <= v.len(),
            r.len() == i,
            forall|j: int| 0 <= j < i ==> #[trigger] r@[j]@ == v@[j]@,
        decreases v.len() - i,
    {
        r.push(v[i].clone());
        i = i + 1;
    }
    proof {
        assert(r.deep_view() =~= v.deep_view());
    }
    r
}

impl PathSpec {
    /// The path made of the one segment `s`.
    pub fn single(s: &str) -> (p: PathSpec)
        ensures
            p@ == seq![s@],
    {
        let mut segments: Vec<String> = Vec::new();
        segments.push(owned(s));
        let p = PathSpec { segments };
        proof {
            assert(p@ =~= seq![s@]);
        }
        p
    }

    /// The path made of the one segment `s`.
    pub fn from_string(s: String) -> (p: PathSpec)
        ensures
            p@ == seq![s@],
    {
        let mut segments: Vec<String> = Vec::new();
        segments.push(s);
        let p = PathSpec { segments };
        proof {
            assert(p@ =~= seq![s@]);
        }
        p
    }

    /// A copy of this path.
    pub fn duplicate(&self) -> (p: PathSpec)
        ensures
            p@ == self@,
    {
        PathSpec { segments: copy_strings(&self.segments) }
    }

    /// This path with one more segment at its end.
    pub fn join(&self, seg: &str) -> (p: PathSpec)
        ensures
            p@ == self@.push(seg@),
    {
        let mut segments = copy_strings(&self.segments);
        segments.push(owned(seg));
        let p = PathSpec { segments };
        proof {
            assert(p@ =~= self@.push(seg@));
        }
        p
    }

    /// This path with one more segment at its end.
    pub fn join_string(&self, seg: String) -> (p: PathSpec)
        ensures
            p@ == self@.push(seg@),
    {
        let mut segments = copy_strings(&self.segments);
        segments.push(seg);
        let p = PathSpec { segments };
        proof {
            assert(p@ =~= self@.push(seg@));
        }
        p
    }
}

// ---------------------------------------------------------------------------
// Process command lines
// ---------------------------------------------------------------------------

/// Where a standard stream of a started process goes.
#[derive(Clone, Copy, Debug, PartialEq, Eq, Structural)]
pub enum StdioMode {
    Inherit,
    Null,
}

/// One argument of a command line.
#[derive(Debug)]
pub enum CommandArg {
    /// The text itself.
    Text(String),
    /// A path, written as the platform writes it.
    Path(PathSpec),
    /// The text followed by a path written as the platform writes it.
    Prefixed(String, PathSpec),
}

/// The view of a `CommandArg`.
pub enum ArgView {
    Text(Seq<char>),
    Path(Seq<Seq<char>>),
    Prefixed(Seq<char>, Seq<Seq<char>>),
}

impl View for CommandArg {
    type V = ArgView;

    open spec fn view(&self) -> ArgView {
        match self {
            CommandArg::Text(t) => ArgView::Text(t@),
            CommandArg::Path(p) => ArgView::Path(p@),
            CommandArg::Prefixed(t, p) => ArgView::Prefixed(t@, p@),
        }
    }
}

/// A text argument.
pub fn text_arg(s: &str) -> (a: CommandArg)
    ensures
        a@ == ArgView::Text(s@),
{
    CommandArg::Text(owned(s))
}

/// A process to start: the program, its arguments, its working directory,
/// where its output goes and, where it is set, the `PATH` it sees, written as
/// its pieces one after the other.
#[derive(Debug)]
pub struct ProcessCommand {
    pub program: PathSpec,
    pub args: Vec<CommandArg>,
    pub current_dir: Option<PathSpec>,
    pub stdout: StdioMode,
    pub stderr: StdioMode,
    pub path_env: Option<Vec<CommandArg>>,
}

/// The view of a `ProcessCommand`.
pub struct CommandView {
    pub program: Seq<Seq<char>>,
    pub args: Seq<ArgView>,
    pub current_dir: Option<Seq<Seq<char>>>,
    pub stdout: StdioMode,
    pub stderr: StdioMode,
    pub path_env: Option<Seq<ArgView>>,
}

/// The view of an optional path.
pub open spec fn opt_path_view(p: Option<PathSpec>) -> Option<Seq<Seq<char>>> {
    match p {
        Some(q) => Some(q@),
        None => None,
    }
}

/// The view of an optional string.
pub open spec fn opt_text_view(s: Option<String>) -> Option<Seq<char>> {
    match s {
        Some(t) => Some(t@),
        None => None,
    }
}

impl View for ProcessCommand {
    type V = CommandView;

    open spec fn view(&self) -> CommandView {
        CommandView {
            program: self.program@,
            args: self.args@.map_values(|a: CommandArg| a@),
            current_dir: opt_path_view(self.current_dir),
            stdout: self.stdout,
            stderr: self.stderr,
            path_env: match self.path_env {
                Some(v) => Some(v@.map_values(|a: CommandArg| a@)),
                None => None,
            },
        }
    }
}

/// A command view with inherited streams and no other setting.
pub open spec fn plain_command(program: Seq<Seq<char>>, args: Seq<ArgView>) -> CommandView {
    CommandView {
        program,
        args,
        current_dir: None,
        stdout: StdioMode::Inherit,
        stderr: StdioMode::Inherit,
        path_env: None,
    }
}

/// A command view with inherited streams, run in `dir`.
pub open spec fn command_in(
    program: Seq<Seq<char>>,
    args: Seq<ArgView>,
    dir: Seq<Seq<char>>,
) -> CommandView {
    CommandView { current_dir: Some(dir), ..plain_command(program, args) }
}

/// A command that starts `program` with `args`, streams inherited.
pub fn new_command(program: PathSpec, args: Vec<CommandArg>) -> (c: ProcessCommand)
    ensures
        c@ == plain_command(program@, args@.map_values(|a: CommandArg| a@)),
{
    ProcessCommand {
        program,
        args,
        current_dir: None,
        stdout: StdioMode::Inherit,
        stderr: StdioMode::Inherit,
        path_env: None,
    }
}

// ---------------------------------------------------------------------------
// Operations, outcomes and steps
// ---------------------------------------------------------------------------

/// The two generations of the tool. `Classic` keeps its files in
/// `.php-connects` and always uses the programs it installed; `Current` keeps
/// them in `.pconnect` and may use the system's programs instead.
#[derive(Clone, Copy, Debug, PartialEq, Eq, Structural)]
pub enum Edition {
    Classic,
    Current,
}

/// The services that the managers start and stop.
#[derive(Clone, Copy, Debug, PartialEq, Eq, Structural)]
pub enum Service {
    PostgreSql,
    MySql,
    Php,
    Frontend,
}

/// What to do when an operation on the file system fails.
#[derive(Debug)]
pub enum OnFailure {
    /// Go on as if it had succeeded (a read then gives the empty text).
    Ignore,
    /// Stop the program with this message.
    Abort(String),
    /// Stop the program with the error itself.
    Unwrap,
    /// Report the failure as `Outcome::Failed`.
    Report,
}

/// The view of an `OnFailure`.
pub enum FailureView {
    Ignore,
    Abort(Seq<char>),
    Unwrap,
    Report,
}

impl View for OnFailure {
    type V = FailureView;

    open spec fn view(&self) -> FailureView {
        match self {
            OnFailure::Ignore => FailureView::Ignore,
            OnFailure::Abort(m) => FailureView::Abort(m@),
            OnFailure::Unwrap => FailureView::Unwrap,
            OnFailure::Report => FailureView::Report,
        }
    }
}

/// An abort with the message `m`.
pub fn abort_with(m: &str) -> (f: OnFailure)
    ensures
        f@ == FailureView::Abort(m@),
{
    OnFailure::Abort(owned(m))
}

/// How a command is run to its end.
#[derive(Clone, Copy, Debug, PartialEq, Eq, Structural)]
pub enum RunMode {
    /// Its streams are inherited (`status`).
    Status,
    /// Its output is collected and dropped (`output`).
    Output,
}

/// One operation outside the library, and the outcome it reports back.
#[derive(Debug)]
pub enum Op {
    /// Whether the path exists: `Outcome::Exists`.
    CheckExists(PathSpec),
    /// Whether the path is a directory: `Outcome::Exists`.
    CheckIsDir(PathSpec),
    /// The value of an environment variable: `Outcome::Text`; when it is unset,
    /// the empty text (`Ignore`) or the program stops.
    ReadEnv(String, OnFailure),
    /// The current directory: `Outcome::Text`.
    CurrentDir,
    /// Creates the directory and its parents: `Outcome::Ack`.
    CreateDirAll(PathSpec, OnFailure),
    /// Writes the text to the file: `Outcome::Ack`.
    WriteFile(PathSpec, String, OnFailure),
    /// The content of the file: `Outcome::Text`.
    ReadFile(PathSpec, OnFailure),
    /// Removes the file: `Outcome::Ack`.
    RemoveFile(PathSpec, OnFailure),
    /// Removes the directory and what it holds: `Outcome::Ack`.
    RemoveDirAll(PathSpec, OnFailure),
    /// Runs the command to its end: `Outcome::Finished`.
    Run(ProcessCommand, RunMode),
    /// Starts the command and lets it run: `Outcome::Spawned`.
    Spawn(ProcessCommand),
    /// Waits this many seconds: `Outcome::Ack`.
    Sleep(u64),
    /// Writes the bytes to the file: `Outcome::Ack`.
    WriteBytes(PathSpec, Vec<u8>, OnFailure),
    /// Creates the parent directory of the path and its parents, where the
    /// path has a parent: `Outcome::Ack`.
    CreateParentDirAll(PathSpec, OnFailure),
    /// The names of the entries of the directory, in the order the system
    /// lists them: `Outcome::Listing`.
    ListDir(PathSpec),
    /// Appends the text to the file: `Outcome::Ack`.
    AppendFile(PathSpec, String, OnFailure),
    /// Moves the first path to the second: `Outcome::Ack`.
    Rename(PathSpec, PathSpec, OnFailure),
    /// The value of the user's environment variable in the registry, the
    /// empty text where it is unset: `Outcome::Text`.
    ReadUserEnv(String),
    /// Sets the user's environment variable in the registry to the written
    /// argument: `Outcome::Ack`.
    SetUserEnv(String, CommandArg, OnFailure),
    /// Downloads the URL, sending the user agent where there is one:
    /// `Outcome::Fetched`.
    Fetch(String, Option<String>),
    /// Nothing more is to be done.
    Halt,
    /// The program stops with this message.
    Abort(String),
}

/// The view of an `Op`.
pub enum OpView {
    CheckExists(Seq<Seq<char>>),
    CheckIsDir(Seq<Seq<char>>),
    ReadEnv(Seq<char>, FailureView),
    CurrentDir,
    CreateDirAll(Seq<Seq<char>>, FailureView),
    WriteFile(Seq<Seq<char>>, Seq<char>, FailureView),
    ReadFile(Seq<Seq<char>>, FailureView),
    RemoveFile(Seq<Seq<char>>, FailureView),
    RemoveDirAll(Seq<Seq<char>>, FailureView),
    Run(CommandView, RunMode),
    Spawn(CommandView),
    Sleep(u64),
    WriteBytes(Seq<Seq<char>>, Seq<u8>, FailureView),
    CreateParentDirAll(Seq<Seq<char>>, FailureView),
    ListDir(Seq<Seq<char>>),
    AppendFile(Seq<Seq<char>>, Seq<char>, FailureView),
    Rename(Seq<Seq<char>>, Seq<Seq<char>>, FailureView),
    ReadUserEnv(Seq<char>),
    SetUserEnv(Seq<char>, ArgView, FailureView),
    Fetch(Seq<char>, Option<Seq<char>>),
    Halt,
    Abort(Seq<char>),
}

impl View for Op {
    type V = OpView;

    open spec fn view(&self) -> OpView {
        match self {
            Op::CheckExists(p) => OpView::CheckExists(p@),
            Op::CheckIsDir(p) => OpView::CheckIsDir(p@),
            Op::ReadEnv(n, f) => OpView::ReadEnv(n@, f@),
            Op::CurrentDir => OpView::CurrentDir,
            Op::CreateDirAll(p, f) => OpView::CreateDirAll(p@, f@),
            Op::WriteFile(p, t, f) => OpView::WriteFile(p@, t@, f@),
            Op::ReadFile(p, f) => OpView::ReadFile(p@, f@),
            Op::RemoveFile(p, f) => OpView::RemoveFile(p@, f@),
            Op::RemoveDirAll(p, f) => OpView::RemoveDirAll(p@, f@),
            Op::Run(c, m) => OpView::Run(c@, *m),
            Op::Spawn(c) => OpView::Spawn(c@),
            Op::Sleep(s) => OpView::Sleep(*s),
            Op::WriteBytes(p, b, f) => OpView::WriteBytes(p@, b@, f@),
            Op::CreateParentDirAll(p, f) => OpView::CreateParentDirAll(p@, f@),
            Op::ListDir(p) => OpView::ListDir(p@),
            Op::AppendFile(p, t, f) => OpView::AppendFile(p@, t@, f@),
            Op::Rename(a, b, f) => OpView::Rename(a@, b@, f@),
            Op::ReadUserEnv(n) => OpView::ReadUserEnv(n@),
            Op::SetUserEnv(n, v, f) => OpView::SetUserEnv(n@, v@, f@),
            Op::Fetch(u, a) => OpView::Fetch(u@, opt_text_view(*a)),
            Op::Halt => OpView::Halt,
            Op::Abort(m) => OpView::Abort(m@),
        }
    }
}

/// What an operation reported.
#[derive(Debug)]
pub enum Outcome {
    /// The first event of every manager.
    Begin,
    Exists(bool),
    Text(String),
    /// The command ran to its end and succeeded or not, or it could not be run.
    Finished(Result<bool, String>),
    /// The process id of the started command, or why it could not start.
    Spawned(Result<u32, String>),
    /// The entry names of a directory, or why it could not be read.
    Listing(Result<Vec<String>, String>),
    /// The status code and body of a download, or why it failed.
    Fetched(Result<(u16, Vec<u8>), FetchFailure>),
    /// An operation with `OnFailure::Report` failed, for this reason.
    Failed(String),
    Ack,
}

/// Why a download failed.
#[derive(Debug)]
pub enum FetchFailure {
    /// The request could not be sent or answered.
    Connect(String),
    /// The body of the answer, whose status code is given, could not be read.
    Body(u16, String),
}

/// The view of an `Outcome`.
pub enum OutcomeView {
    Begin,
    Exists(bool),
    Text(Seq<char>),
    Finished(Result<bool, Seq<char>>),
    Spawned(Result<u32, Seq<char>>),
    Listing(Result<Seq<Seq<char>>, Seq<char>>),
    Fetched(Result<(u16, Seq<u8>), FetchFailureView>),
    Failed(Seq<char>),
    Ack,
}

/// The view of a `FetchFailure`.
pub enum FetchFailureView {
    Connect(Seq<char>),
    Body(u16, Seq<char>),
}

impl View for Outcome {
    type V = OutcomeView;

    open spec fn view(&self) -> OutcomeView {
        match self {
            Outcome::Begin => OutcomeView::Begin,
            Outcome::Exists(b) => OutcomeView::Exists(*b),
            Outcome::Text(t) => OutcomeView::Text(t@),
            Outcome::Finished(Ok(b)) => OutcomeView::Finished(Ok(*b)),
            Outcome::Finished(Err(e)) => OutcomeView::Finished(Err(e@)),
            Outcome::Spawned(Ok(p)) => OutcomeView::Spawned(Ok(*p)),
            Outcome::Spawned(Err(e)) => OutcomeView::Spawned(Err(e@)),
            Outcome::Listing(Ok(v)) => OutcomeView::Listing(Ok(v.deep_view())),
            Outcome::Listing(Err(e)) => OutcomeView::Listing(Err(e@)),
            Outcome::Fetched(Ok((c, b))) => OutcomeView::Fetched(Ok((*c, b@))),
            Outcome::Fetched(Err(FetchFailure::Connect(e))) => OutcomeView::Fetched(Err(FetchFailureView::Connect(e@))),
            Outcome::Fetched(Err(FetchFailure::Body(c, e))) => OutcomeView::Fetched(Err(FetchFailureView::Body(*c, e@))),
            Outcome::Failed(e) => OutcomeView::Failed(e@),
            Outcome::Ack => OutcomeView::Ack,
        }
    }
}

/// A message shown to the user.
#[derive(Debug)]
pub enum Notice {
    AlreadyRunning(Service),
    /// The program of the service is not where it was looked for.
    BinaryMissing(Service, PathSpec),
    /// The service's local data directory is being initialized.
    InitializingData(Service),
    /// Initializing the local data failed.
    InitFailed(Service, String),
    /// The service is being started on this port.
    Starting(Service, u16),
    /// The service runs with this process id.
    Started(Service, u32),
    StartFailed(Service, String),
    /// The project database (named) is being created.
    CreatingDatabase(Service, String),
    /// The project database (named) is ready.
    DatabaseReady(Service, String),
    /// The frontend's dependencies are missing in this directory and are installed.
    InstallingDependencies(String),
    DependenciesInstalled,
    DependenciesFailed,
    /// The service was stopped.
    Stopped(Service),
    /// No running process of the service was found.
    NotRunning(Service),
    /// The service's process (id as read) is being stopped.
    Stopping(Service, String),
    StopFailed(Service, String),
    /// The program (name, version) is installed already.
    AlreadyInstalled(String, String),
    /// The program (name, version) is being downloaded.
    Downloading(String, String),
    /// The downloaded archive is being extracted.
    Extracting,
    /// The program (name, version) was installed at this path.
    Installed(String, String, PathSpec),
    /// A program needed to finish an installation is missing here.
    ProgramMissing(PathSpec),
    /// The installed service's data is being initialized.
    InitializingInstallation(Service),
    /// The installed service's data was initialized, or not.
    InstallationInitialized(Service, bool),
    /// Bun's files are moved out of this folder.
    OrganizingBun(String),
    DownloadingComposer,
    ComposerInstalled,
    /// The local domain of the project (named) was registered.
    DomainRegistered(String),
    /// The development shell opens.
    ShellOpening,
    /// The folder of the new project (named) exists already.
    ProjectExists(String),
    /// The project (named) is being created.
    CreatingProject(String),
    InstallingLaravel,
    /// `composer.phar` was not found.
    ComposerMissing,
    /// Composer could not be run, for this reason.
    ComposerFailed(String),
    CleaningBoilerplate,
    BackendSimplified,
    GeneratingFrontend,
    /// Bun could not be run, for this reason.
    BunFailed(String),
    InstallingVueDependencies,
    /// The backend has no `.env`.
    EnvMissing,
    AdjustingEnv,
    /// The project (named) was created.
    ProjectCreated(String),
    InstallerStarting,
    /// The tool is downloaded from this URL.
    InstallerDownloading(String),
    Organizing,
    /// A file of the tool was moved to this name.
    Moved(String),
    TempRemoved,
    ConfiguringEnv,
    RunningInstall,
    /// The tool's own installation succeeded, or not.
    InstallerFinished(bool),
    /// The installation stops for this reason.
    Fatal(String),
}

/// The view of a `Notice`.
pub enum NoticeView {
    AlreadyRunning(Service),
    BinaryMissing(Service, Seq<Seq<char>>),
    InitializingData(Service),
    InitFailed(Service, Seq<char>),
    Starting(Service, u16),
    Started(Service, u32),
    StartFailed(Service, Seq<char>),
    CreatingDatabase(Service, Seq<char>),
    DatabaseReady(Service, Seq<char>),
    InstallingDependencies(Seq<char>),
    DependenciesInstalled,
    DependenciesFailed,
    Stopped(Service),
    NotRunning(Service),
    Stopping(Service, Seq<char>),
    StopFailed(Service, Seq<char>),
    AlreadyInstalled(Seq<char>, Seq<char>),
    Downloading(Seq<char>, Seq<char>),
    Extracting,
    Installed(Seq<char>, Seq<char>, Seq<Seq<char>>),
    ProgramMissing(Seq<Seq<char>>),
    InitializingInstallation(Service),
    InstallationInitialized(Service, bool),
    OrganizingBun(Seq<char>),
    DownloadingComposer,
    ComposerInstalled,
    DomainRegistered(Seq<char>),
    ShellOpening,
    ProjectExists(Seq<char>),
    CreatingProject(Seq<char>),
    InstallingLaravel,
    ComposerMissing,
    ComposerFailed(Seq<char>),
    CleaningBoilerplate,
    BackendSimplified,
    GeneratingFrontend,
    BunFailed(Seq<char>),
    InstallingVueDependencies,
    EnvMissing,
    AdjustingEnv,
    ProjectCreated(Seq<char>),
    InstallerStarting,
    InstallerDownloading(Seq<char>),
    Organizing,
    Moved(Seq<char>),
    TempRemoved,
    ConfiguringEnv,
    RunningInstall,
    InstallerFinished(bool),
    Fatal(Seq<char>),
}

impl View for Notice {
    type V = NoticeView;

    open spec fn view(&self) -> NoticeView {
        match self {
            Notice::AlreadyRunning(s) => NoticeView::AlreadyRunning(*s),
            Notice::BinaryMissing(s, p) => NoticeView::BinaryMissing(*s, p@),
            Notice::InitializingData(s) => NoticeView::InitializingData(*s),
            Notice::InitFailed(s, e) => NoticeView::InitFailed(*s, e@),
            Notice::Starting(s, p) => NoticeView::Starting(*s, *p),
            Notice::Started(s, p) => NoticeView::Started(*s, *p),
            Notice::StartFailed(s, e) => NoticeView::StartFailed(*s, e@),
            Notice::CreatingDatabase(s, d) => NoticeView::CreatingDatabase(*s, d@),
            Notice::DatabaseReady(s, d) => NoticeView::DatabaseReady(*s, d@),
            Notice::InstallingDependencies(d) => NoticeView::InstallingDependencies(d@),
            Notice::DependenciesInstalled => NoticeView::DependenciesInstalled,
            Notice::DependenciesFailed => NoticeView::DependenciesFailed,
            Notice::Stopped(s) => NoticeView::Stopped(*s),
            Notice::NotRunning(s) => NoticeView::NotRunning(*s),
            Notice::Stopping(s, p) => NoticeView::Stopping(*s, p@),
            Notice::StopFailed(s, e) => NoticeView::StopFailed(*s, e@),
            Notice::AlreadyInstalled(n, v) => NoticeView::AlreadyInstalled(n@, v@),
            Notice::Downloading(n, v) => NoticeView::Downloading(n@, v@),
            Notice::Extracting => NoticeView::Extracting,
            Notice::Installed(n, v, p) => NoticeView::Installed(n@, v@, p@),
            Notice::ProgramMissing(p) => NoticeView::ProgramMissing(p@),
            Notice::InitializingInstallation(s) => NoticeView::InitializingInstallation(*s),
            Notice::InstallationInitialized(s, b) => NoticeView::InstallationInitialized(*s, *b),
            Notice::OrganizingBun(d) => NoticeView::OrganizingBun(d@),
            Notice::DownloadingComposer => NoticeView::DownloadingComposer,
            Notice::ComposerInstalled => NoticeView::ComposerInstalled,
            Notice::DomainRegistered(n) => NoticeView::DomainRegistered(n@),
            Notice::ShellOpening => NoticeView::ShellOpening,
            Notice::ProjectExists(n) => NoticeView::ProjectExists(n@),
            Notice::CreatingProject(n) => NoticeView::CreatingProject(n@),
            Notice::InstallingLaravel => NoticeView::InstallingLaravel,
            Notice::ComposerMissing => NoticeView::ComposerMissing,
            Notice::ComposerFailed(e) => NoticeView::ComposerFailed(e@),
            Notice::CleaningBoilerplate => NoticeView::CleaningBoilerplate,
            Notice::BackendSimplified => NoticeView::BackendSimplified,
            Notice::GeneratingFrontend => NoticeView::GeneratingFrontend,
            Notice::BunFailed(e) => NoticeView::BunFailed(e@),
            Notice::InstallingVueDependencies => NoticeView::InstallingVueDependencies,
            Notice::EnvMissing => NoticeView::EnvMissing,
            Notice::AdjustingEnv => NoticeView::AdjustingEnv,
            Notice::ProjectCreated(n) => NoticeView::ProjectCreated(n@),
            Notice::InstallerStarting => NoticeView::InstallerStarting,
            Notice::InstallerDownloading(u) => NoticeView::InstallerDownloading(u@),
            Notice::Organizing => NoticeView::Organizing,
            Notice::Moved(n) => NoticeView::Moved(n@),
            Notice::TempRemoved => NoticeView::TempRemoved,
            Notice::ConfiguringEnv => NoticeView::ConfiguringEnv,
            Notice::RunningInstall => NoticeView::RunningInstall,
            Notice::InstallerFinished(b) => NoticeView::InstallerFinished(*b),
            Notice::Fatal(e) => NoticeView::Fatal(e@),
        }
    }
}

/// The next step of a manager: messages to show first, then one operation.
#[derive(Debug)]
pub struct Step {
    pub notes: Vec<Notice>,
    pub op: Op,
}

/// The view of a `Step`.
pub struct StepView {
    pub notes: Seq<NoticeView>,
    pub op: OpView,
}

impl View for Step {
    type V = StepView;

    open spec fn view(&self) -> StepView {
        StepView { notes: self.notes@.map_values(|n: Notice| n@), op: self.op@ }
    }
}

/// A step that shows nothing.
pub open spec fn quiet_view(op: OpView) -> StepView {
    StepView { notes: seq![], op }
}

/// A step that shows one message.
pub open spec fn noted_view(n: NoticeView, op: OpView) -> StepView {
    StepView { notes: seq![n], op }
}

/// The step `st` with `notes` shown before its own messages.
pub open spec fn after_notes(notes: Seq<NoticeView>, st: StepView) -> StepView {
    StepView { notes: notes + st.notes, op: st.op }
}

/// The views of the messages `v`.
pub open spec fn notice_views(v: Seq<Notice>) -> Seq<NoticeView> {
    v.map_values(|n: Notice| n@)
}

/// The step `st` with `notes` shown before its own messages.
pub fn prepend_notes(notes: Vec<Notice>, st: Step) -> (r: Step)
    ensures
        r@ == after_notes(notice_views(notes@), st@),
{
    let mut all = notes;
    let mut more = st.notes;
    let ghost a = notice_views(all@);
    let ghost b = notice_views(more@);
    all.append(&mut more);
    proof {
        assert(notice_views(all@) =~= a + b);
    }
    Step { notes: all, op: st.op }
}

/// No message.
pub fn no_notes() -> (v: Vec<Notice>)
    ensures
        notice_views(v@) == Seq::<NoticeView>::empty(),
{
    let v: Vec<Notice> = Vec::new();
    proof {
        assert(notice_views(v@) =~= Seq::<NoticeView>::empty());
    }
    v
}

/// One message.
pub fn one_note(n: Notice) -> (v: Vec<Notice>)
    ensures
        notice_views(v@) == seq![n@],
{
    let mut v: Vec<Notice> = Vec::new();
    v.push(n);
    proof {
        assert(notice_views(v@) =~= seq![n@]);
    }
    v
}

/// A step without messages.
pub fn quiet(op: Op) -> (s: Step)
    ensures
        s@ == (StepView { notes: seq![], op: op@ }),
{
    let s = Step { notes: Vec::new(), op };
    proof {
        assert(s@.notes =~= Seq::<NoticeView>::empty());
    }
    s
}

/// A step with one message.
pub fn noted(n: Notice, op: Op) -> (s: Step)
    ensures
        s@ == (StepView { notes: seq![n@], op: op@ }),
{
    let mut notes: Vec<Notice> = Vec::new();
    notes.push(n);
    let s = Step { notes, op };
    proof {
        assert(s@.notes =~= seq![n@]);
    }
    s
}

/// A step with two messages.
pub fn noted2(n1: Notice, n2: Notice, op: Op) -> (s: Step)
    ensures
        s@ == (StepView { notes: seq![n1@, n2@], op: op@ }),
{
    let mut notes: Vec<Notice> = Vec::new();
    notes.push(n1);
    notes.push(n2);
    let s = Step { notes, op };
    proof {
        assert(s@.notes =~= seq![n1@, n2@]);
    }
    s
}

} // verus!
