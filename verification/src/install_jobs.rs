//! The jobs that installing the programs is made of: downloading and
//! extracting an archive (and initializing the data of a database server
//! afterwards), enabling PHP's extensions, fetching Composer, and moving Bun's
//! files out of the folder its archive puts them in.
use vstd::prelude::*;
use crate::archive::{
    enclosed_shape, entry_views, mangled_shape, plain_name, read_for, read_for_extraction, read_for_extraction_exec,
    well_named, zip_contents, zip_error_text, zip_reads, EntryView, NameRule, ZipEntry,
};
use crate::effects::{
    ArgView, CommandArg, CommandView, Edition, FailureView, FetchFailure, FetchFailureView, Notice,
    NoticeView, OnFailure, Op, OpView, Outcome, OutcomeView, PathSpec, RunMode, Service, Step,
    StdioMode, StepView, new_command, noted, noted_view, plain_command, quiet, quiet_view, text_arg,
};
use crate::text::{
    concat2, concat3, contains_str, ends_with_str, owned, replace_all, replace_seq, seq_contains,
    seq_ends_with,
};

verus! {

// ---------------------------------------------------------------------------
// Programs
// ---------------------------------------------------------------------------

/// The programs that the tool installs.
#[derive(Clone, Copy, Debug, PartialEq, Eq, Structural)]
pub enum Program {
    Php,
    PostgreSql,
    MySql,
    Bun,
}

/// The name under which a program is installed.
pub open spec fn program_name(p: Program) -> Seq<char> {
    match p {
        Program::Php => "php"@,
        Program::PostgreSql => "postgres"@,
        Program::MySql => "mysql"@,
        Program::Bun => "bun"@,
    }
}

/// The name under which a program is installed.
pub fn program_name_exec(p: Program) -> (s: String)
    ensures
        s@ == program_name(p),
{
    match p {
        Program::Php => owned("php"),
        Program::PostgreSql => owned("postgres"),
        Program::MySql => owned("mysql"),
        Program::Bun => owned("bun"),
    }
}

/// The folder of a program's version under the installation folder `base`.
pub open spec fn program_dir(base: Seq<Seq<char>>, p: Program, version: Seq<char>) -> Seq<Seq<char>> {
    base.push(program_name(p) + "-"@ + version)
}

/// The folder of a program's version under the installation folder `base`.
pub fn program_dir_exec(base: &PathSpec, p: Program, version: &str) -> (d: PathSpec)
    ensures
        d@ == program_dir(base@, p, version@),
{
    let name = program_name_exec(p);
    base.join_string(concat3(&name, "-", version))
}

// ---------------------------------------------------------------------------
// Extraction plan
// ---------------------------------------------------------------------------

/// The operations that extract one entry into `root`. The current generation
/// skips macOS metadata and entries whose name is not safe, and extracts to
/// the entry's enclosed name; the classic one extracts every entry to its
/// mangled name. A name ending in `/` is a directory.
pub open spec fn entry_ops(edition: Edition, root: Seq<Seq<char>>, e: EntryView) -> Seq<OpView> {
    match edition {
        Edition::Current => if seq_contains(e.name, "__MACOSX"@) {
            seq![]
        } else {
            match e.enclosed_name {
                None => seq![],
                Some(p) => if seq_ends_with(e.name, "/"@) {
                    seq![OpView::CreateDirAll(root.push(p), FailureView::Unwrap)]
                } else {
                    seq![
                        OpView::CreateParentDirAll(root.push(p), FailureView::Ignore),
                        OpView::WriteBytes(root.push(p), e.contents, FailureView::Unwrap),
                    ]
                },
            }
        },
        Edition::Classic => if seq_ends_with(e.name, "/"@) {
            seq![OpView::CreateDirAll(root.push(e.mangled_name), FailureView::Unwrap)]
        } else {
            seq![
                OpView::CreateParentDirAll(root.push(e.mangled_name), FailureView::Unwrap),
                OpView::WriteBytes(root.push(e.mangled_name), e.contents, FailureView::Unwrap),
            ]
        },
    }
}

/// The operations that extract the entries `es`, in order, into `root`.
pub open spec fn extraction_plan(edition: Edition, root: Seq<Seq<char>>, es: Seq<EntryView>) -> Seq<OpView>
    decreases es.len(),
{
    if es.len() == 0 {
        seq![]
    } else {
        extraction_plan(edition, root, es.drop_last()) + entry_ops(edition, root, es.last())
    }
}

/// The views of the operations `v`.
pub open spec fn op_views(v: Seq<Op>) -> Seq<OpView> {
    v.map_values(|o: Op| o@)
}

fn push_op(ops: &mut Vec<Op>, op: Op)
    ensures
        op_views(final(ops)@) == op_views(old(ops)@).push(op@),
{
    ops.push(op);
    proof {
        assert(op_views(final(ops)@) =~= op_views(old(ops)@).push(op@));
    }
}

fn copy_bytes(b: &Vec<u8>) -> (r: Vec<u8>)
    ensures
        r@ == b@,
{
    let mut r: Vec<u8> = Vec::new();
    let mut i: usize = 0;
    while i < b.len()
        invariant
            i <= b.len(),
            r@ == b@.take(i as int),
        decreases b.len() - i,
    {
        r.push(b[i]);
        proof {
            assert(r@ =~= b@.take(i + 1));
        }
        i = i + 1;
    }
    proof {
        assert(b@.take(b.len() as int) =~= b@);
    }
    r
}

fn copy_string(s: &String) -> (r: String)
    ensures
        r@ == s@,
{
    s.clone()
}

fn push_entry_ops(edition: Edition, root: &PathSpec, e: &ZipEntry, ops: &mut Vec<Op>)
    ensures
        op_views(final(ops)@) == op_views(old(ops)@) + entry_ops(edition, root@, e@),
{
    let ghost before = op_views(ops@);
    let dir = ends_with_str(&e.name, "/");
    match edition {
        Edition::Current => {
            if contains_str(&e.name, "__MACOSX") {
                assert(op_views(ops@) =~= before + entry_ops(edition, root@, e@));
                return;
            }
            match &e.enclosed_name {
                None => {
                    assert(op_views(ops@) =~= before + entry_ops(edition, root@, e@));
                },
                Some(p) => {
                    if dir {
                        push_op(ops, Op::CreateDirAll(root.join(p), OnFailure::Unwrap));
                    } else {
                        push_op(ops, Op::CreateParentDirAll(root.join(p), OnFailure::Ignore));
                        push_op(ops, Op::WriteBytes(root.join(p), copy_bytes(&e.contents), OnFailure::Unwrap));
                    }
                    assert(op_views(ops@) =~= before + entry_ops(edition, root@, e@));
                },
            }
        },
        Edition::Classic => {
            if dir {
                push_op(ops, Op::CreateDirAll(root.join(&e.mangled_name), OnFailure::Unwrap));
            } else {
                push_op(ops, Op::CreateParentDirAll(root.join(&e.mangled_name), OnFailure::Unwrap));
                push_op(
                    ops,
                    Op::WriteBytes(root.join(&e.mangled_name), copy_bytes(&e.contents), OnFailure::Unwrap),
                );
            }
            assert(op_views(ops@) =~= before + entry_ops(edition, root@, e@));
        },
    }
}

/// The operations that extract `entries`, in order, into `root`.
pub fn extraction_ops(edition: Edition, root: &PathSpec, entries: &Vec<ZipEntry>) -> (ops: Vec<Op>)
    ensures
        op_views(ops@) == extraction_plan(edition, root@, entry_views(entries@)),
{
    let mut ops: Vec<Op> = Vec::new();
    let mut i: usize = 0;
    assert(op_views(ops@) =~= Seq::<OpView>::empty());
    while i < entries.len()
        invariant
            i <= entries.len(),
            op_views(ops@) == extraction_plan(edition, root@, entry_views(entries@).take(i as int)),
        decreases entries.len() - i,
    {
        push_entry_ops(edition, root, &entries[i], &mut ops);
        proof {
            let es = entry_views(entries@).take(i + 1);
            assert(es.drop_last() =~= entry_views(entries@).take(i as int));
            assert(es.last() == entries@[i as int]@);
        }
        i = i + 1;
    }
    proof {
        assert(entry_views(entries@).take(entries.len() as int) =~= entry_views(entries@));
    }
    ops
}

// ---------------------------------------------------------------------------
// Downloading and extracting
// ---------------------------------------------------------------------------

/// Where a download and extraction stands.
#[derive(Clone, Copy, Debug, PartialEq, Eq, Structural)]
pub enum ExtractStage {
    Start,
    AwaitExists,
    AwaitFetch,
    Extracting,
    PgAwaitBin,
    PgAwaitInitdb,
    PgAwaitData,
    PgAwaitRun,
    MyAwaitBin,
    MyAwaitRun,
    Done,
}

/// The download of a program's archive and its extraction into the program's
/// folder under `base`, with what follows it: the current generation
/// initializes an installed PostgreSQL, the classic one an installed MySQL.
pub struct ExtractJob {
    pub stage: ExtractStage,
    pub edition: Edition,
    pub program: Program,
    pub version: String,
    pub url: String,
    pub base: PathSpec,
    /// The extraction operations not done yet.
    pub queue: Vec<Op>,
    /// Whether PostgreSQL's programs are in `bin` (else in `pgsql/bin`).
    pub pg_bin_top: bool,
}

/// The view of an `ExtractJob`.
pub struct ExtractView {
    pub stage: ExtractStage,
    pub edition: Edition,
    pub program: Program,
    pub version: Seq<char>,
    pub url: Seq<char>,
    pub base: Seq<Seq<char>>,
    pub queue: Seq<OpView>,
    pub pg_bin_top: bool,
}

impl View for ExtractJob {
    type V = ExtractView;

    open spec fn view(&self) -> ExtractView {
        ExtractView {
            stage: self.stage,
            edition: self.edition,
            program: self.program,
            version: self.version@,
            url: self.url@,
            base: self.base@,
            queue: op_views(self.queue@),
            pg_bin_top: self.pg_bin_top,
        }
    }
}

/// The directory of PostgreSQL's programs in an installation.
pub open spec fn installed_pg_bin(dir: Seq<Seq<char>>, top: bool) -> Seq<Seq<char>> {
    if top {
        dir.push("bin"@)
    } else {
        dir.push("pgsql"@).push("bin"@)
    }
}

/// `initdb` on the installation's own `data` directory.
pub open spec fn install_initdb_command(dir: Seq<Seq<char>>, top: bool) -> CommandView {
    plain_command(
        installed_pg_bin(dir, top).push("initdb.exe"@),
        seq![
            ArgView::Text("-D"@),
            ArgView::Path(dir.push("data"@)),
            ArgView::Text("-U"@),
            ArgView::Text("postgres"@),
            ArgView::Text("--auth=trust"@),
        ],
    )
}

/// `mysqld --initialize-insecure` on the installation's own `data` directory.
pub open spec fn mysqld_initialize_command(dir: Seq<Seq<char>>) -> CommandView {
    plain_command(
        dir.push("bin"@).push("mysqld.exe"@),
        seq![
            ArgView::Text("--initialize-insecure"@),
            ArgView::Prefixed("--basedir="@, dir),
            ArgView::Prefixed("--datadir="@, dir.push("data"@)),
        ],
    )
}

/// What follows the extraction: for the current generation's PostgreSQL, a
/// look for its programs; for the classic generation, the report of the
/// installation and, for MySQL, a look for `mysqld`.
pub open spec fn after_extraction(s: ExtractView) -> (ExtractView, StepView) {
    let dir = program_dir(s.base, s.program, s.version);
    match s.edition {
        Edition::Current => if s.program == Program::PostgreSql {
            (
                ExtractView { stage: ExtractStage::PgAwaitBin, ..s },
                quiet_view(OpView::CheckExists(dir.push("bin"@))),
            )
        } else {
            (ExtractView { stage: ExtractStage::Done, ..s }, quiet_view(OpView::Halt))
        },
        Edition::Classic => {
            let installed = NoticeView::Installed(program_name(s.program), s.version, dir);
            if s.program == Program::MySql {
                (
                    ExtractView { stage: ExtractStage::MyAwaitBin, ..s },
                    noted_view(installed, OpView::CheckExists(dir.push("bin"@).push("mysqld.exe"@))),
                )
            } else {
                (ExtractView { stage: ExtractStage::Done, ..s }, noted_view(installed, OpView::Halt))
            }
        },
    }
}

/// The next extraction operation, or what follows the extraction, with
/// `notes` shown first.
pub open spec fn extraction_next(s: ExtractView, notes: Seq<NoticeView>) -> (ExtractView, StepView) {
    if s.queue.len() > 0 {
        (
            ExtractView { stage: ExtractStage::Extracting, queue: s.queue.drop_first(), ..s },
            StepView { notes, op: s.queue[0] },
        )
    } else {
        let (n, st) = after_extraction(s);
        (n, StepView { notes: notes + st.notes, op: st.op })
    }
}

/// The message with which a failed download stops the program.
pub open spec fn fetch_abort(edition: Edition, p: Program, f: FetchFailureView) -> Seq<char> {
    match (edition, f) {
        (Edition::Current, FetchFailureView::Connect(e)) => "Erro ao conectar: "@ + e,
        (Edition::Current, FetchFailureView::Body(_, e)) => "Erro nos bytes: "@ + e,
        (Edition::Classic, FetchFailureView::Connect(e)) => "Falha ao baixar "@ + program_name(p) + ": "@ + e,
        (Edition::Classic, FetchFailureView::Body(_, e)) => "Falha ao ler bytes do "@ + program_name(p) + ": "@ + e,
    }
}

/// The message with which an unreadable archive stops the program, before
/// the error's text.
pub open spec fn zip_abort_prefix(edition: Edition) -> Seq<char> {
    match edition {
        Edition::Current => "Erro no ZIP: "@,
        Edition::Classic => "Falha ao abrir ZIP: "@,
    }
}

/// The user agent that the download sends.
pub open spec fn download_agent(edition: Edition) -> Option<Seq<char>> {
    match edition {
        Edition::Current => Some("Mozilla/5.0"@),
        Edition::Classic => None,
    }
}

/// What a download and extraction does next, for every outcome but a
/// successful download.
pub open spec fn extract_transition(s: ExtractView, ev: OutcomeView) -> (ExtractView, StepView) {
    let dir = program_dir(s.base, s.program, s.version);
    let done = ExtractView { stage: ExtractStage::Done, ..s };
    match (s.stage, ev) {
        (ExtractStage::Start, OutcomeView::Begin) => (
            ExtractView { stage: ExtractStage::AwaitExists, ..s },
            quiet_view(OpView::CheckExists(dir)),
        ),
        (ExtractStage::AwaitExists, OutcomeView::Exists(true)) => (
            done,
            noted_view(NoticeView::AlreadyInstalled(program_name(s.program), s.version), OpView::Halt),
        ),
        (ExtractStage::AwaitExists, OutcomeView::Exists(false)) => (
            ExtractView { stage: ExtractStage::AwaitFetch, ..s },
            noted_view(
                NoticeView::Downloading(program_name(s.program), s.version),
                OpView::Fetch(s.url, download_agent(s.edition)),
            ),
        ),
        (ExtractStage::AwaitFetch, OutcomeView::Fetched(Err(f))) => (
            done,
            quiet_view(OpView::Abort(fetch_abort(s.edition, s.program, f))),
        ),
        (ExtractStage::Extracting, OutcomeView::Ack) => extraction_next(s, seq![]),
        (ExtractStage::PgAwaitBin, OutcomeView::Exists(top)) => (
            ExtractView { stage: ExtractStage::PgAwaitInitdb, pg_bin_top: top, ..s },
            quiet_view(OpView::CheckExists(installed_pg_bin(dir, top).push("initdb.exe"@))),
        ),
        (ExtractStage::PgAwaitInitdb, OutcomeView::Exists(false)) => (done, quiet_view(OpView::Halt)),
        (ExtractStage::PgAwaitInitdb, OutcomeView::Exists(true)) => (
            ExtractView { stage: ExtractStage::PgAwaitData, ..s },
            quiet_view(OpView::CheckExists(dir.push("data"@))),
        ),
        (ExtractStage::PgAwaitData, OutcomeView::Exists(true)) => (done, quiet_view(OpView::Halt)),
        (ExtractStage::PgAwaitData, OutcomeView::Exists(false)) => (
            ExtractView { stage: ExtractStage::PgAwaitRun, ..s },
            noted_view(
                NoticeView::InitializingInstallation(Service::PostgreSql),
                OpView::Run(install_initdb_command(dir, s.pg_bin_top), RunMode::Status),
            ),
        ),
        (ExtractStage::PgAwaitRun, OutcomeView::Finished(_)) => (done, quiet_view(OpView::Halt)),
        (ExtractStage::MyAwaitBin, OutcomeView::Exists(false)) => (
            done,
            noted_view(NoticeView::ProgramMissing(dir.push("bin"@).push("mysqld.exe"@)), OpView::Halt),
        ),
        (ExtractStage::MyAwaitBin, OutcomeView::Exists(true)) => (
            ExtractView { stage: ExtractStage::MyAwaitRun, ..s },
            noted_view(
                NoticeView::InitializingInstallation(Service::MySql),
                OpView::Run(mysqld_initialize_command(dir), RunMode::Status),
            ),
        ),
        (ExtractStage::MyAwaitRun, OutcomeView::Finished(r)) => (
            done,
            noted_view(
                NoticeView::InstallationInitialized(Service::MySql, r == Ok::<bool, Seq<char>>(true)),
                OpView::Halt,
            ),
        ),
        _ => (done, quiet_view(OpView::Halt)),
    }
}

/// What is said when the extraction begins.
pub open spec fn extraction_notes(edition: Edition) -> Seq<NoticeView> {
    if edition == Edition::Classic { seq![NoticeView::Extracting] } else { seq![] }
}

/// Which entries an edition's extraction passes over: the current one passes
/// over macOS metadata and entries without a safe name, the classic one none.
pub open spec fn rule_of(edition: Edition) -> NameRule {
    match edition {
        Edition::Current => NameRule::SafeNames,
        Edition::Classic => NameRule::StoredNames,
    }
}

fn rule_of_exec(edition: Edition) -> (r: NameRule)
    ensures
        r == rule_of(edition),
{
    match edition {
        Edition::Current => NameRule::SafeNames,
        Edition::Classic => NameRule::StoredNames,
    }
}

/// What follows the entries read where reading stopped at an entry: for a
/// file whose contents could not be read, its folder and the file itself,
/// left empty, are made as for any file; then the program stops with
/// `message`.
pub open spec fn stop_ops(
    edition: Edition,
    root: Seq<Seq<char>>,
    stop: Option<Option<EntryView>>,
    message: Seq<char>,
) -> Seq<OpView> {
    match stop {
        None => seq![],
        Some(f) => match f {
            None => seq![OpView::Abort(message)],
            Some(h) => entry_ops(edition, root, h).push(OpView::Abort(message)),
        },
    }
}

/// The extraction of the entries `es`, read out of an archive for the
/// edition's extraction, followed by what `stop_ops` gives.
pub open spec fn plan_of_read(
    s: ExtractView,
    es: Seq<EntryView>,
    stop: Option<Option<EntryView>>,
    message: Seq<char>,
) -> Seq<OpView> {
    let root = program_dir(s.base, s.program, s.version);
    extraction_plan(s.edition, root, es) + stop_ops(s.edition, root, stop, message)
}

/// A step of a download and extraction: a successful download that opens as
/// a zip archive has its entries extracted in order (the classic generation
/// says so first); only the contents of the files extracted are read. At
/// the first entry that cannot be opened, or file whose contents cannot be
/// read (after that file is made, empty), the program stops with the
/// archive's error after the edition's prefix. A download that does not open
/// as an archive stops the program at once in the same way. Every other
/// outcome goes by `extract_transition`.
pub open spec fn extract_step(s: ExtractView, ev: OutcomeView, n: ExtractView, st: StepView) -> bool {
    match (s.stage, ev) {
        (ExtractStage::AwaitFetch, OutcomeView::Fetched(Ok((_, bytes)))) => {
            let notes = extraction_notes(s.edition);
            if zip_contents(bytes) is Some {
                exists|es: Seq<EntryView>, stop: Option<Option<EntryView>>, t: Seq<char>| {
                    &&& read_for_extraction(rule_of(s.edition), bytes, es, stop)
                    &&& (n, st) == extraction_next(
                        ExtractView {
                            queue: #[trigger] plan_of_read(s, es, stop, zip_abort_prefix(s.edition) + t),
                            ..s
                        },
                        notes,
                    )
                }
            } else {
                exists|t: Seq<char>| {
                    &&& n == ExtractView { stage: ExtractStage::Done, ..s }
                    &&& st == StepView { notes, op: OpView::Abort(#[trigger] (zip_abort_prefix(s.edition) + t)) }
                }
            }
        },
        _ => (n, st) == extract_transition(s, ev),
    }
}

proof fn lemma_fetch_read(
    s: ExtractView,
    code: u16,
    b: Seq<u8>,
    es: Seq<EntryView>,
    stop: Option<Option<EntryView>>,
    t: Seq<char>,
    n: ExtractView,
    st: StepView,
)
    requires
        s.stage == ExtractStage::AwaitFetch,
        read_for_extraction(rule_of(s.edition), b, es, stop),
        (n, st) == extraction_next(
            ExtractView { queue: plan_of_read(s, es, stop, zip_abort_prefix(s.edition) + t), ..s },
            extraction_notes(s.edition),
        ),
    ensures
        extract_step(s, OutcomeView::Fetched(Ok((code, b))), n, st),
{
    let ev = OutcomeView::Fetched(Ok((code, b)));
    assert(ev matches OutcomeView::Fetched(Ok((_, bb))) && bb == b);
    assert(plan_of_read(s, es, stop, zip_abort_prefix(s.edition) + t)
        == plan_of_read(s, es, stop, zip_abort_prefix(s.edition) + t));
}

proof fn lemma_fetch_unreadable(s: ExtractView, code: u16, b: Seq<u8>, t: Seq<char>, n: ExtractView, st: StepView)
    requires
        s.stage == ExtractStage::AwaitFetch,
        zip_contents(b) is None,
        n == (ExtractView { stage: ExtractStage::Done, ..s }),
        st == (StepView { notes: extraction_notes(s.edition), op: OpView::Abort(zip_abort_prefix(s.edition) + t) }),
    ensures
        extract_step(s, OutcomeView::Fetched(Ok((code, b))), n, st),
{
}

/// The download of `program` of `version` from `url` into its folder under
/// `base`, and its extraction, before the first step.
pub fn download_and_extract(edition: Edition, program: Program, url: String, version: &str, base: &PathSpec) -> (j: ExtractJob)
    ensures
        j@ == (ExtractView {
            stage: ExtractStage::Start,
            edition,
            program,
            version: version@,
            url: url@,
            base: base@,
            queue: seq![],
            pg_bin_top: false,
        }),
{
    let j = ExtractJob {
        stage: ExtractStage::Start,
        edition,
        program,
        version: owned(version),
        url,
        base: base.duplicate(),
        queue: Vec::new(),
        pg_bin_top: false,
    };
    proof {
        assert(j@.queue =~= Seq::<OpView>::empty());
    }
    j
}

impl ExtractJob {
    fn dir(&self) -> (d: PathSpec)
        ensures
            d@ == program_dir(self.base@, self.program, self.version@),
    {
        program_dir_exec(&self.base, self.program, &self.version)
    }

    fn finish(&mut self, st: Step) -> (r: Step)
        ensures
            final(self)@ == (ExtractView { stage: ExtractStage::Done, ..old(self)@ }),
            r == st,
    {
        self.stage = ExtractStage::Done;
        st
    }

    fn after(&mut self) -> (st: Step)
        ensures
            (final(self)@, st@) == after_extraction(old(self)@),
    {
        let dir = self.dir();
        match self.edition {
            Edition::Current => {
                if self.program == Program::PostgreSql {
                    self.stage = ExtractStage::PgAwaitBin;
                    quiet(Op::CheckExists(dir.join("bin")))
                } else {
                    self.stage = ExtractStage::Done;
                    quiet(Op::Halt)
                }
            },
            Edition::Classic => {
                let installed = Notice::Installed(program_name_exec(self.program), copy_string(&self.version), dir.duplicate());
                if self.program == Program::MySql {
                    self.stage = ExtractStage::MyAwaitBin;
                    noted(installed, Op::CheckExists(dir.join("bin").join("mysqld.exe")))
                } else {
                    self.stage = ExtractStage::Done;
                    noted(installed, Op::Halt)
                }
            },
        }
    }

    fn next(&mut self, notes: Vec<Notice>) -> (st: Step)
        ensures
            (final(self)@, st@) == extraction_next(old(self)@, notes@.map_values(|n: Notice| n@)),
    {
        if self.queue.len() > 0 {
            let op = self.queue.remove(0);
            self.stage = ExtractStage::Extracting;
            proof {
                assert(op_views(self.queue@) =~= op_views(old(self).queue@).drop_first());
            }
            Step { notes, op }
        } else {
            let st = self.after();
            let mut all = notes;
            let mut more = st.notes;
            let ghost a = all@.map_values(|n: Notice| n@);
            let ghost b = more@.map_values(|n: Notice| n@);
            all.append(&mut more);
            proof {
                assert(all@.map_values(|n: Notice| n@) =~= a + b);
            }
            Step { notes: all, op: st.op }
        }
    }

    fn initdb(&self) -> (c: crate::effects::ProcessCommand)
        ensures
            c@ == install_initdb_command(program_dir(self.base@, self.program, self.version@), self.pg_bin_top),
    {
        let dir = self.dir();
        let bin = if self.pg_bin_top { dir.join("bin") } else { dir.join("pgsql").join("bin") };
        let mut args: Vec<CommandArg> = Vec::new();
        args.push(text_arg("-D"));
        args.push(CommandArg::Path(dir.join("data")));
        args.push(text_arg("-U"));
        args.push(text_arg("postgres"));
        args.push(text_arg("--auth=trust"));
        let c = new_command(bin.join("initdb.exe"), args);
        proof {
            assert(c@.args =~= install_initdb_command(program_dir(self.base@, self.program, self.version@), self.pg_bin_top).args);
        }
        c
    }

    fn mysqld(&self) -> (c: crate::effects::ProcessCommand)
        ensures
            c@ == mysqld_initialize_command(program_dir(self.base@, self.program, self.version@)),
    {
        let dir = self.dir();
        let mut args: Vec<CommandArg> = Vec::new();
        args.push(text_arg("--initialize-insecure"));
        args.push(CommandArg::Prefixed(owned("--basedir="), dir.duplicate()));
        args.push(CommandArg::Prefixed(owned("--datadir="), dir.join("data")));
        let c = new_command(dir.join("bin").join("mysqld.exe"), args);
        proof {
            assert(c@.args =~= mysqld_initialize_command(program_dir(self.base@, self.program, self.version@)).args);
        }
        c
    }

    fn fetched(&mut self, code: u16, bytes: Vec<u8>) -> (st: Step)
        requires
            old(self).stage == ExtractStage::AwaitFetch,
        ensures
            extract_step(old(self)@, OutcomeView::Fetched(Ok((code, bytes@))), final(self)@, st@),
    {
        let ghost b = bytes@;
        let mut notes: Vec<Notice> = Vec::new();
        if self.edition == Edition::Classic {
            notes.push(Notice::Extracting);
        }
        let ghost nv = notes@.map_values(|n: Notice| n@);
        let ghost want = extraction_notes(self.edition);
        proof {
            assert(nv =~= want);
        }
        let prefix = match self.edition {
            Edition::Current => "Erro no ZIP: ",
            Edition::Classic => "Falha ao abrir ZIP: ",
        };
        match read_for_extraction_exec(rule_of_exec(self.edition), bytes) {
            Ok((entries, stop)) => {
                let dir = self.dir();
                let mut ops = extraction_ops(self.edition, &dir, &entries);
                let ghost plan = op_views(ops@);
                let ghost mut t: Seq<char> = seq![];
                match stop {
                    None => {
                        proof {
                            assert(op_views(ops@) =~= plan + Seq::<OpView>::empty());
                        }
                    },
                    Some((header, e)) => {
                        let text = zip_error_text(&e);
                        proof {
                            t = text@;
                        }
                        match header {
                            None => {},
                            Some(h) => {
                                push_entry_ops(self.edition, &dir, &h, &mut ops);
                            },
                        }
                        push_op(&mut ops, Op::Abort(concat2(prefix, &text)));
                    },
                }
                self.queue = ops;
                proof {
                    let s0 = old(self)@;
                    let es = entry_views(entries@);
                    let sv = crate::archive::stop_view(stop);
                    assert(self@.queue =~= plan_of_read(s0, es, sv, zip_abort_prefix(s0.edition) + t));
                    assert(self@ == ExtractView {
                        queue: plan_of_read(s0, es, sv, zip_abort_prefix(s0.edition) + t),
                        ..s0
                    });
                }
                let st = self.next(notes);
                proof {
                    lemma_fetch_read(old(self)@, code, b, entry_views(entries@), crate::archive::stop_view(stop), t, self@, st@);
                }
                st
            },
            Err(e) => {
                let t = zip_error_text(&e);
                let msg = concat2(prefix, &t);
                self.stage = ExtractStage::Done;
                let st = Step { notes, op: Op::Abort(msg) };
                proof {
                    lemma_fetch_unreadable(old(self)@, code, b, t@, self@, st@);
                }
                st
            },
        }
    }

    /// The next step, given the outcome of the last one.
    pub fn step(&mut self, ev: Outcome) -> (st: Step)
        ensures
            extract_step(old(self)@, ev@, final(self)@, st@),
    {
        let dir = self.dir();
        match (self.stage, ev) {
            (ExtractStage::Start, Outcome::Begin) => {
                self.stage = ExtractStage::AwaitExists;
                quiet(Op::CheckExists(dir))
            },
            (ExtractStage::AwaitExists, Outcome::Exists(present)) => {
                if present {
                    self.stage = ExtractStage::Done;
                    noted(Notice::AlreadyInstalled(program_name_exec(self.program), copy_string(&self.version)), Op::Halt)
                } else {
                    self.stage = ExtractStage::AwaitFetch;
                    let agent = match self.edition {
                        Edition::Current => Some(owned("Mozilla/5.0")),
                        Edition::Classic => None,
                    };
                    noted(
                        Notice::Downloading(program_name_exec(self.program), copy_string(&self.version)),
                        Op::Fetch(copy_string(&self.url), agent),
                    )
                }
            },
            (ExtractStage::AwaitFetch, Outcome::Fetched(r)) => {
                match r {
                    Ok((code, bytes)) => self.fetched(code, bytes),
                    Err(f) => {
                        let msg = match (self.edition, f) {
                            (Edition::Current, FetchFailure::Connect(e)) => concat2("Erro ao conectar: ", &e),
                            (Edition::Current, FetchFailure::Body(_, e)) => concat2("Erro nos bytes: ", &e),
                            (Edition::Classic, FetchFailure::Connect(e)) => {
                                let n = program_name_exec(self.program);
                                let mut m = concat2("Falha ao baixar ", &n);
                                m.append(": ");
                                m.append(&e);
                                m
                            },
                            (Edition::Classic, FetchFailure::Body(_, e)) => {
                                let n = program_name_exec(self.program);
                                let mut m = concat2("Falha ao ler bytes do ", &n);
                                m.append(": ");
                                m.append(&e);
                                m
                            },
                        };
                        self.finish(quiet(Op::Abort(msg)))
                    },
                }
            },
            (ExtractStage::Extracting, Outcome::Ack) => {
                let none: Vec<Notice> = Vec::new();
                assert(none@.map_values(|n: Notice| n@) =~= Seq::<NoticeView>::empty());
                self.next(none)
            },
            (ExtractStage::PgAwaitBin, Outcome::Exists(top)) => {
                self.pg_bin_top = top;
                self.stage = ExtractStage::PgAwaitInitdb;
                let bin = if top { dir.join("bin") } else { dir.join("pgsql").join("bin") };
                quiet(Op::CheckExists(bin.join("initdb.exe")))
            },
            (ExtractStage::PgAwaitInitdb, Outcome::Exists(found)) => {
                if found {
                    self.stage = ExtractStage::PgAwaitData;
                    quiet(Op::CheckExists(dir.join("data")))
                } else {
                    self.finish(quiet(Op::Halt))
                }
            },
            (ExtractStage::PgAwaitData, Outcome::Exists(present)) => {
                if present {
                    self.finish(quiet(Op::Halt))
                } else {
                    self.stage = ExtractStage::PgAwaitRun;
                    noted(Notice::InitializingInstallation(Service::PostgreSql), Op::Run(self.initdb(), RunMode::Status))
                }
            },
            (ExtractStage::PgAwaitRun, Outcome::Finished(_)) => self.finish(quiet(Op::Halt)),
            (ExtractStage::MyAwaitBin, Outcome::Exists(found)) => {
                if found {
                    self.stage = ExtractStage::MyAwaitRun;
                    noted(Notice::InitializingInstallation(Service::MySql), Op::Run(self.mysqld(), RunMode::Status))
                } else {
                    self.finish(noted(Notice::ProgramMissing(dir.join("bin").join("mysqld.exe")), Op::Halt))
                }
            },
            (ExtractStage::MyAwaitRun, Outcome::Finished(r)) => {
                let ok = match r {
                    Ok(true) => true,
                    _ => false,
                };
                self.finish(noted(Notice::InstallationInitialized(Service::MySql, ok), Op::Halt))
            },
            _ => self.finish(quiet(Op::Halt)),
        }
    }
}

} // verus!

verus! {

// ---------------------------------------------------------------------------
// PHP's configuration
// ---------------------------------------------------------------------------

/// `php.ini` made from `php.ini-development`: the extension directory and
/// the extensions curl, mbstring, openssl, pdo_pgsql, pgsql, fileinfo and
/// pdo_sqlite enabled.
pub open spec fn php_ini_content(dev: Seq<char>) -> Seq<char> {
    let s1 = replace_seq(dev, ";extension_dir = \"ext\""@, "extension_dir = \"ext\""@);
    let s2 = replace_seq(s1, ";extension=curl"@, "extension=curl"@);
    let s3 = replace_seq(s2, ";extension=mbstring"@, "extension=mbstring"@);
    let s4 = replace_seq(s3, ";extension=openssl"@, "extension=openssl"@);
    let s5 = replace_seq(s4, ";extension=pdo_pgsql"@, "extension=pdo_pgsql"@);
    let s6 = replace_seq(s5, ";extension=pgsql"@, "extension=pgsql"@);
    let s7 = replace_seq(s6, ";extension=fileinfo"@, "extension=fileinfo"@);
    replace_seq(s7, ";extension=pdo_sqlite"@, "extension=pdo_sqlite"@)
}

/// The text of `php.ini` made from the text of `php.ini-development`.
pub fn php_ini_from_development(dev: &str) -> (r: String)
    ensures
        r@ == php_ini_content(dev@),
{
    let s1 = replace_all(dev, ";extension_dir = \"ext\"", "extension_dir = \"ext\"");
    let s2 = replace_all(&s1, ";extension=curl", "extension=curl");
    let s3 = replace_all(&s2, ";extension=mbstring", "extension=mbstring");
    let s4 = replace_all(&s3, ";extension=openssl", "extension=openssl");
    let s5 = replace_all(&s4, ";extension=pdo_pgsql", "extension=pdo_pgsql");
    let s6 = replace_all(&s5, ";extension=pgsql", "extension=pgsql");
    let s7 = replace_all(&s6, ";extension=fileinfo", "extension=fileinfo");
    replace_all(&s7, ";extension=pdo_sqlite", "extension=pdo_sqlite")
}

/// Where the writing of `php.ini` stands.
#[derive(Clone, Copy, Debug, PartialEq, Eq, Structural)]
pub enum PhpIniStage {
    Start,
    AwaitDev,
    AwaitReal,
    AwaitRead,
    AwaitWrite,
    Done,
}

/// The writing of `php.ini` in the PHP folder, from `php.ini-development`,
/// where the latter exists and the former does not.
pub struct PhpIniJob {
    pub stage: PhpIniStage,
    pub php_dir: PathSpec,
}

/// The view of a `PhpIniJob`.
pub struct PhpIniView {
    pub stage: PhpIniStage,
    pub php_dir: Seq<Seq<char>>,
}

impl View for PhpIniJob {
    type V = PhpIniView;

    open spec fn view(&self) -> PhpIniView {
        PhpIniView { stage: self.stage, php_dir: self.php_dir@ }
    }
}

/// What the writing of `php.ini` does next. It stops as soon as
/// `php.ini-development` is missing, `php.ini` exists, or the former cannot
/// be read.
pub open spec fn php_ini_transition(s: PhpIniView, ev: OutcomeView) -> (PhpIniView, StepView) {
    let dev = s.php_dir.push("php.ini-development"@);
    let ini = s.php_dir.push("php.ini"@);
    let done = PhpIniView { stage: PhpIniStage::Done, ..s };
    match (s.stage, ev) {
        (PhpIniStage::Start, OutcomeView::Begin) => (
            PhpIniView { stage: PhpIniStage::AwaitDev, ..s },
            quiet_view(OpView::CheckExists(dev)),
        ),
        (PhpIniStage::AwaitDev, OutcomeView::Exists(true)) => (
            PhpIniView { stage: PhpIniStage::AwaitReal, ..s },
            quiet_view(OpView::CheckExists(ini)),
        ),
        (PhpIniStage::AwaitReal, OutcomeView::Exists(false)) => (
            PhpIniView { stage: PhpIniStage::AwaitRead, ..s },
            quiet_view(OpView::ReadFile(dev, FailureView::Report)),
        ),
        (PhpIniStage::AwaitRead, OutcomeView::Text(t)) => (
            PhpIniView { stage: PhpIniStage::AwaitWrite, ..s },
            quiet_view(OpView::WriteFile(ini, php_ini_content(t), FailureView::Unwrap)),
        ),
        _ => (done, quiet_view(OpView::Halt)),
    }
}

/// The writing of `php.ini` in `php_dir`, before its first step.
pub fn configure_php(php_dir: &PathSpec) -> (j: PhpIniJob)
    ensures
        j@ == (PhpIniView { stage: PhpIniStage::Start, php_dir: php_dir@ }),
{
    PhpIniJob { stage: PhpIniStage::Start, php_dir: php_dir.duplicate() }
}

impl PhpIniJob {
    /// The next step, given the outcome of the last one.
    pub fn step(&mut self, ev: Outcome) -> (st: Step)
        ensures
            (final(self)@, st@) == php_ini_transition(old(self)@, ev@),
    {
        let dev = self.php_dir.join("php.ini-development");
        let ini = self.php_dir.join("php.ini");
        match (self.stage, ev) {
            (PhpIniStage::Start, Outcome::Begin) => {
                self.stage = PhpIniStage::AwaitDev;
                quiet(Op::CheckExists(dev))
            },
            (PhpIniStage::AwaitDev, Outcome::Exists(true)) => {
                self.stage = PhpIniStage::AwaitReal;
                quiet(Op::CheckExists(ini))
            },
            (PhpIniStage::AwaitReal, Outcome::Exists(false)) => {
                self.stage = PhpIniStage::AwaitRead;
                quiet(Op::ReadFile(dev, OnFailure::Report))
            },
            (PhpIniStage::AwaitRead, Outcome::Text(t)) => {
                self.stage = PhpIniStage::AwaitWrite;
                quiet(Op::WriteFile(ini, php_ini_from_development(&t), OnFailure::Unwrap))
            },
            _ => {
                self.stage = PhpIniStage::Done;
                quiet(Op::Halt)
            },
        }
    }
}

// ---------------------------------------------------------------------------
// Composer
// ---------------------------------------------------------------------------

/// Where the download of Composer stands.
#[derive(Clone, Copy, Debug, PartialEq, Eq, Structural)]
pub enum ComposerStage {
    Start,
    AwaitExists,
    AwaitFetch,
    AwaitWrite,
    AwaitEmptyFile,
    Done,
}

/// The download of `composer.phar` into the PHP folder, where it is missing.
pub struct ComposerJob {
    pub stage: ComposerStage,
    pub php_dir: PathSpec,
    /// Why the body of the answer could not be read, once it could not.
    pub failure: String,
}

/// The view of a `ComposerJob`.
pub struct ComposerView {
    pub stage: ComposerStage,
    pub php_dir: Seq<Seq<char>>,
    pub failure: Seq<char>,
}

impl View for ComposerJob {
    type V = ComposerView;

    open spec fn view(&self) -> ComposerView {
        ComposerView { stage: self.stage, php_dir: self.php_dir@, failure: self.failure@ }
    }
}

/// Where Composer is downloaded from.
pub open spec fn composer_url() -> Seq<char> {
    "https://getcomposer.org/composer.phar"@
}

/// What the download of Composer does next. An answer whose status is not
/// a success is dropped; so is a request that fails. Where the answer is a
/// success but its body cannot be read, `composer.phar` is created empty
/// first and then the program stops.
pub open spec fn composer_transition(s: ComposerView, ev: OutcomeView) -> (ComposerView, StepView) {
    let target = s.php_dir.push("composer.phar"@);
    let done = ComposerView { stage: ComposerStage::Done, ..s };
    match (s.stage, ev) {
        (ComposerStage::Start, OutcomeView::Begin) => (
            ComposerView { stage: ComposerStage::AwaitExists, ..s },
            quiet_view(OpView::CheckExists(target)),
        ),
        (ComposerStage::AwaitExists, OutcomeView::Exists(false)) => (
            ComposerView { stage: ComposerStage::AwaitFetch, ..s },
            noted_view(NoticeView::DownloadingComposer, OpView::Fetch(composer_url(), Some("Mozilla/5.0"@))),
        ),
        (ComposerStage::AwaitFetch, OutcomeView::Fetched(Ok((code, body)))) => if 200 <= code < 300 {
            (
                ComposerView { stage: ComposerStage::AwaitWrite, ..s },
                quiet_view(OpView::WriteBytes(target, body, FailureView::Unwrap)),
            )
        } else {
            (done, quiet_view(OpView::Halt))
        },
        (ComposerStage::AwaitFetch, OutcomeView::Fetched(Err(FetchFailureView::Body(code, e)))) => if 200 <= code < 300 {
            (
                ComposerView { stage: ComposerStage::AwaitEmptyFile, failure: e, ..s },
                quiet_view(OpView::WriteBytes(target, seq![], FailureView::Unwrap)),
            )
        } else {
            (done, quiet_view(OpView::Halt))
        },
        (ComposerStage::AwaitEmptyFile, OutcomeView::Ack) => (
            done,
            quiet_view(OpView::Abort("Falha ao ler o Composer: "@ + s.failure)),
        ),
        (ComposerStage::AwaitWrite, OutcomeView::Ack) => (
            done,
            noted_view(NoticeView::ComposerInstalled, OpView::Halt),
        ),
        _ => (done, quiet_view(OpView::Halt)),
    }
}

/// The download of Composer into `php_dir`, before its first step.
pub fn download_composer(php_dir: &PathSpec) -> (j: ComposerJob)
    ensures
        j@ == (ComposerView { stage: ComposerStage::Start, php_dir: php_dir@, failure: seq![] }),
{
    let failure = String::new();
    proof {
        assert(failure@ =~= Seq::<char>::empty());
    }
    ComposerJob { stage: ComposerStage::Start, php_dir: php_dir.duplicate(), failure }
}

impl ComposerJob {
    /// The next step, given the outcome of the last one.
    pub fn step(&mut self, ev: Outcome) -> (st: Step)
        ensures
            (final(self)@, st@) == composer_transition(old(self)@, ev@),
    {
        let target = self.php_dir.join("composer.phar");
        match (self.stage, ev) {
            (ComposerStage::Start, Outcome::Begin) => {
                self.stage = ComposerStage::AwaitExists;
                quiet(Op::CheckExists(target))
            },
            (ComposerStage::AwaitExists, Outcome::Exists(false)) => {
                self.stage = ComposerStage::AwaitFetch;
                noted(
                    Notice::DownloadingComposer,
                    Op::Fetch(owned("https://getcomposer.org/composer.phar"), Some(owned("Mozilla/5.0"))),
                )
            },
            (ComposerStage::AwaitFetch, Outcome::Fetched(Ok((code, body)))) => {
                if 200 <= code && code < 300 {
                    self.stage = ComposerStage::AwaitWrite;
                    quiet(Op::WriteBytes(target, body, OnFailure::Unwrap))
                } else {
                    self.stage = ComposerStage::Done;
                    quiet(Op::Halt)
                }
            },
            (ComposerStage::AwaitFetch, Outcome::Fetched(Err(FetchFailure::Body(code, e)))) => {
                if 200 <= code && code < 300 {
                    self.stage = ComposerStage::AwaitEmptyFile;
                    self.failure = e;
                    let nothing: Vec<u8> = Vec::new();
                    proof {
                        assert(nothing@ =~= Seq::<u8>::empty());
                    }
                    quiet(Op::WriteBytes(target, nothing, OnFailure::Unwrap))
                } else {
                    self.stage = ComposerStage::Done;
                    quiet(Op::Halt)
                }
            },
            (ComposerStage::AwaitEmptyFile, Outcome::Ack) => {
                self.stage = ComposerStage::Done;
                quiet(Op::Abort(concat2("Falha ao ler o Composer: ", &self.failure)))
            },
            (ComposerStage::AwaitWrite, Outcome::Ack) => {
                self.stage = ComposerStage::Done;
                noted(Notice::ComposerInstalled, Op::Halt)
            },
            _ => {
                self.stage = ComposerStage::Done;
                quiet(Op::Halt)
            },
        }
    }
}

// ---------------------------------------------------------------------------
// Bun's folder
// ---------------------------------------------------------------------------

/// Where the moving of Bun's files stands.
#[derive(Clone, Copy, Debug, PartialEq, Eq, Structural)]
pub enum BunFixStage {
    Start,
    AwaitList,
    AwaitIsDir,
    AwaitSubList,
    AwaitTargetCheck,
    AwaitTargetRemove,
    AwaitRename,
    AwaitRemoveSub,
    Done,
}

/// The moving of the files in every folder inside Bun's folder up into Bun's
/// folder, replacing files of the same name, and the removal of those folders.
pub struct BunFixJob {
    pub stage: BunFixStage,
    pub dir: PathSpec,
    /// The entries of Bun's folder.
    pub entries: Vec<String>,
    pub index: usize,
    /// The entries of the folder being emptied.
    pub subs: Vec<String>,
    pub sub_index: usize,
}

/// The view of a `BunFixJob`.
pub struct BunFixView {
    pub stage: BunFixStage,
    pub dir: Seq<Seq<char>>,
    pub entries: Seq<Seq<char>>,
    pub index: int,
    pub subs: Seq<Seq<char>>,
    pub sub_index: int,
}

impl View for BunFixJob {
    type V = BunFixView;

    open spec fn view(&self) -> BunFixView {
        BunFixView {
            stage: self.stage,
            dir: self.dir@,
            entries: self.entries.deep_view(),
            index: self.index as int,
            subs: self.subs.deep_view(),
            sub_index: self.sub_index as int,
        }
    }
}

/// The indices are in range for the stage.
pub open spec fn bun_fix_wf(s: BunFixView) -> bool {
    &&& 0 <= s.index
    &&& 0 <= s.sub_index
    &&& (s.stage == BunFixStage::AwaitIsDir || s.stage == BunFixStage::AwaitSubList
        || s.stage == BunFixStage::AwaitTargetCheck || s.stage == BunFixStage::AwaitTargetRemove
        || s.stage == BunFixStage::AwaitRename || s.stage == BunFixStage::AwaitRemoveSub)
        ==> s.index < s.entries.len()
    &&& (s.stage == BunFixStage::AwaitTargetCheck || s.stage == BunFixStage::AwaitTargetRemove
        || s.stage == BunFixStage::AwaitRename) ==> s.sub_index < s.subs.len()
}

/// The folder being emptied.
pub open spec fn bun_fix_sub(s: BunFixView) -> Seq<Seq<char>> {
    s.dir.push(s.entries[s.index])
}

/// Looks at the entry `index` of Bun's folder, or ends.
pub open spec fn bun_fix_next_entry(s: BunFixView) -> (BunFixView, StepView) {
    if s.index < s.entries.len() {
        (
            BunFixView { stage: BunFixStage::AwaitIsDir, ..s },
            quiet_view(OpView::CheckIsDir(s.dir.push(s.entries[s.index]))),
        )
    } else {
        (BunFixView { stage: BunFixStage::Done, ..s }, quiet_view(OpView::Halt))
    }
}

/// Looks at the entry `sub_index` of the folder being emptied, or removes the
/// folder.
pub open spec fn bun_fix_next_sub(s: BunFixView) -> (BunFixView, StepView) {
    if s.sub_index < s.subs.len() {
        (
            BunFixView { stage: BunFixStage::AwaitTargetCheck, ..s },
            quiet_view(OpView::CheckExists(s.dir.push(s.subs[s.sub_index]))),
        )
    } else {
        (
            BunFixView { stage: BunFixStage::AwaitRemoveSub, ..s },
            quiet_view(OpView::RemoveDirAll(bun_fix_sub(s), FailureView::Ignore)),
        )
    }
}

/// The move of the current entry of the folder being emptied.
pub open spec fn bun_fix_rename(s: BunFixView) -> StepView {
    quiet_view(
        OpView::Rename(
            bun_fix_sub(s).push(s.subs[s.sub_index]),
            s.dir.push(s.subs[s.sub_index]),
            FailureView::Ignore,
        ),
    )
}

/// What the moving of Bun's files does next. A folder that cannot be listed
/// is passed over (Bun's folder) or removed as it is (a folder inside it).
pub open spec fn bun_fix_transition(s: BunFixView, ev: OutcomeView) -> (BunFixView, StepView) {
    let done = BunFixView { stage: BunFixStage::Done, ..s };
    match (s.stage, ev) {
        (BunFixStage::Start, OutcomeView::Begin) => (
            BunFixView { stage: BunFixStage::AwaitList, ..s },
            quiet_view(OpView::ListDir(s.dir)),
        ),
        (BunFixStage::AwaitList, OutcomeView::Listing(Ok(names))) => bun_fix_next_entry(
            BunFixView { entries: names, index: 0, ..s },
        ),
        (BunFixStage::AwaitIsDir, OutcomeView::Exists(false)) => bun_fix_next_entry(
            BunFixView { index: s.index + 1, ..s },
        ),
        (BunFixStage::AwaitIsDir, OutcomeView::Exists(true)) => (
            BunFixView { stage: BunFixStage::AwaitSubList, ..s },
            noted_view(NoticeView::OrganizingBun(s.entries[s.index]), OpView::ListDir(bun_fix_sub(s))),
        ),
        (BunFixStage::AwaitSubList, OutcomeView::Listing(Err(_))) => (
            BunFixView { stage: BunFixStage::AwaitRemoveSub, ..s },
            quiet_view(OpView::RemoveDirAll(bun_fix_sub(s), FailureView::Ignore)),
        ),
        (BunFixStage::AwaitSubList, OutcomeView::Listing(Ok(names))) => bun_fix_next_sub(
            BunFixView { subs: names, sub_index: 0, ..s },
        ),
        (BunFixStage::AwaitTargetCheck, OutcomeView::Exists(true)) => (
            BunFixView { stage: BunFixStage::AwaitTargetRemove, ..s },
            quiet_view(OpView::RemoveFile(s.dir.push(s.subs[s.sub_index]), FailureView::Ignore)),
        ),
        (BunFixStage::AwaitTargetCheck, OutcomeView::Exists(false)) => (
            BunFixView { stage: BunFixStage::AwaitRename, ..s },
            bun_fix_rename(s),
        ),
        (BunFixStage::AwaitTargetRemove, OutcomeView::Ack) => (
            BunFixView { stage: BunFixStage::AwaitRename, ..s },
            bun_fix_rename(s),
        ),
        (BunFixStage::AwaitRename, OutcomeView::Ack) => bun_fix_next_sub(
            BunFixView { sub_index: s.sub_index + 1, ..s },
        ),
        (BunFixStage::AwaitRemoveSub, OutcomeView::Ack) => bun_fix_next_entry(
            BunFixView { index: s.index + 1, ..s },
        ),
        _ => (done, quiet_view(OpView::Halt)),
    }
}

/// The moving of the files of Bun of `version` under `base`, before its
/// first step.
pub fn fix_bun_structure(version: &str, base: &PathSpec) -> (j: BunFixJob)
    ensures
        j@ == (BunFixView {
            stage: BunFixStage::Start,
            dir: program_dir(base@, Program::Bun, version@),
            entries: seq![],
            index: 0,
            subs: seq![],
            sub_index: 0,
        }),
        bun_fix_wf(j@),
{
    let j = BunFixJob {
        stage: BunFixStage::Start,
        dir: program_dir_exec(base, Program::Bun, version),
        entries: Vec::new(),
        index: 0,
        subs: Vec::new(),
        sub_index: 0,
    };
    proof {
        assert(j@.entries =~= Seq::<Seq<char>>::empty());
        assert(j@.subs =~= Seq::<Seq<char>>::empty());
    }
    j
}

impl BunFixJob {
    fn next_entry(&mut self) -> (st: Step)
        requires
            old(self).index <= old(self).entries.len(),
            bun_fix_wf(old(self)@) || old(self).stage != BunFixStage::AwaitTargetCheck,
            old(self).sub_index as int >= 0,
        ensures
            (final(self)@, st@) == bun_fix_next_entry(old(self)@),
            bun_fix_wf(final(self)@),
    {
        if self.index < self.entries.len() {
            self.stage = BunFixStage::AwaitIsDir;
            quiet(Op::CheckIsDir(self.dir.join(&self.entries[self.index])))
        } else {
            self.stage = BunFixStage::Done;
            quiet(Op::Halt)
        }
    }

    fn sub(&self) -> (p: PathSpec)
        requires
            self.index < self.entries.len(),
        ensures
            p@ == bun_fix_sub(self@),
    {
        self.dir.join(&self.entries[self.index])
    }

    fn next_sub(&mut self) -> (st: Step)
        requires
            old(self).index < old(self).entries.len(),
            old(self).sub_index <= old(self).subs.len(),
        ensures
            (final(self)@, st@) == bun_fix_next_sub(old(self)@),
            bun_fix_wf(final(self)@),
    {
        if self.sub_index < self.subs.len() {
            self.stage = BunFixStage::AwaitTargetCheck;
            quiet(Op::CheckExists(self.dir.join(&self.subs[self.sub_index])))
        } else {
            self.stage = BunFixStage::AwaitRemoveSub;
            quiet(Op::RemoveDirAll(self.sub(), OnFailure::Ignore))
        }
    }

    fn rename(&self) -> (st: Step)
        requires
            bun_fix_wf(self@),
            self.index < self.entries.len(),
            self.sub_index < self.subs.len(),
        ensures
            st@ == bun_fix_rename(self@),
    {
        let from = self.sub().join(&self.subs[self.sub_index]);
        let to = self.dir.join(&self.subs[self.sub_index]);
        quiet(Op::Rename(from, to, OnFailure::Ignore))
    }

    /// The next step, given the outcome of the last one.
    pub fn step(&mut self, ev: Outcome) -> (st: Step)
        requires
            bun_fix_wf(old(self)@),
        ensures
            (final(self)@, st@) == bun_fix_transition(old(self)@, ev@),
            bun_fix_wf(final(self)@),
    {
        match (self.stage, ev) {
            (BunFixStage::Start, Outcome::Begin) => {
                self.stage = BunFixStage::AwaitList;
                quiet(Op::ListDir(self.dir.duplicate()))
            },
            (BunFixStage::AwaitList, Outcome::Listing(Ok(names))) => {
                self.entries = names;
                self.index = 0;
                self.next_entry()
            },
            (BunFixStage::AwaitIsDir, Outcome::Exists(is_dir)) => {
                if is_dir {
                    self.stage = BunFixStage::AwaitSubList;
                    let name = self.entries[self.index].clone();
                    noted(Notice::OrganizingBun(name), Op::ListDir(self.sub()))
                } else {
                    assert(self@.entries.len() == self.entries.len());
                    self.index = self.index + 1;
                    self.next_entry()
                }
            },
            (BunFixStage::AwaitSubList, Outcome::Listing(r)) => {
                match r {
                    Err(_) => {
                        self.stage = BunFixStage::AwaitRemoveSub;
                        quiet(Op::RemoveDirAll(self.sub(), OnFailure::Ignore))
                    },
                    Ok(names) => {
                        self.subs = names;
                        self.sub_index = 0;
                        self.next_sub()
                    },
                }
            },
            (BunFixStage::AwaitTargetCheck, Outcome::Exists(present)) => {
                if present {
                    self.stage = BunFixStage::AwaitTargetRemove;
                    quiet(Op::RemoveFile(self.dir.join(&self.subs[self.sub_index]), OnFailure::Ignore))
                } else {
                    self.stage = BunFixStage::AwaitRename;
                    self.rename()
                }
            },
            (BunFixStage::AwaitTargetRemove, Outcome::Ack) => {
                self.stage = BunFixStage::AwaitRename;
                self.rename()
            },
            (BunFixStage::AwaitRename, Outcome::Ack) => {
                assert(self@.subs.len() == self.subs.len());
                self.sub_index = self.sub_index + 1;
                self.next_sub()
            },
            (BunFixStage::AwaitRemoveSub, Outcome::Ack) => {
                assert(self@.entries.len() == self.entries.len());
                self.index = self.index + 1;
                self.next_entry()
            },
            _ => {
                self.stage = BunFixStage::Done;
                quiet(Op::Halt)
            },
        }
    }
}

} // verus!

verus! {

// ---------------------------------------------------------------------------
// Jobs in sequence
// ---------------------------------------------------------------------------

/// One job of an installation.
pub enum InstallJob {
    Extract(ExtractJob),
    PhpIni(PhpIniJob),
    Composer(ComposerJob),
    BunFix(BunFixJob),
}

/// The view of an `InstallJob`.
pub enum JobView {
    Extract(ExtractView),
    PhpIni(PhpIniView),
    Composer(ComposerView),
    BunFix(BunFixView),
}

impl View for InstallJob {
    type V = JobView;

    open spec fn view(&self) -> JobView {
        match self {
            InstallJob::Extract(j) => JobView::Extract(j@),
            InstallJob::PhpIni(j) => JobView::PhpIni(j@),
            InstallJob::Composer(j) => JobView::Composer(j@),
            InstallJob::BunFix(j) => JobView::BunFix(j@),
        }
    }
}

/// The job's indices are in range.
pub open spec fn job_wf(j: JobView) -> bool {
    match j {
        JobView::BunFix(b) => bun_fix_wf(b),
        _ => true,
    }
}

/// `n` and `st` are what the job `j` does next, given the outcome `ev`.
pub open spec fn job_step(j: JobView, ev: OutcomeView, n: JobView, st: StepView) -> bool {
    match j {
        JobView::Extract(e) => n matches JobView::Extract(e2) && extract_step(e, ev, e2, st),
        JobView::PhpIni(p) => (n, st) == (
            JobView::PhpIni(php_ini_transition(p, ev).0),
            php_ini_transition(p, ev).1,
        ),
        JobView::Composer(c) => (n, st) == (
            JobView::Composer(composer_transition(c, ev).0),
            composer_transition(c, ev).1,
        ),
        JobView::BunFix(b) => (n, st) == (
            JobView::BunFix(bun_fix_transition(b, ev).0),
            bun_fix_transition(b, ev).1,
        ),
    }
}

impl InstallJob {
    /// The next step of the job, given the outcome of its last one.
    pub fn step(&mut self, ev: Outcome) -> (st: Step)
        requires
            job_wf(old(self)@),
        ensures
            job_step(old(self)@, ev@, final(self)@, st@),
            job_wf(final(self)@),
    {
        match self {
            InstallJob::Extract(j) => j.step(ev),
            InstallJob::PhpIni(j) => j.step(ev),
            InstallJob::Composer(j) => j.step(ev),
            InstallJob::BunFix(j) => j.step(ev),
        }
    }
}

/// Where an installation stands.
#[derive(Clone, Copy, Debug, PartialEq, Eq, Structural)]
pub enum InstallStage {
    Start,
    AwaitHome,
    AwaitBase,
    AwaitCreate,
    Running,
    Done,
}

/// The programs an installation installs, each with its version.
pub struct InstallSettings {
    pub edition: Edition,
    pub php: Option<String>,
    pub postgresql: Option<String>,
    pub mysql: Option<String>,
    pub bun: Option<String>,
}

/// The view of `InstallSettings`.
pub struct SettingsView {
    pub edition: Edition,
    pub php: Option<Seq<char>>,
    pub postgresql: Option<Seq<char>>,
    pub mysql: Option<Seq<char>>,
    pub bun: Option<Seq<char>>,
}

impl View for InstallSettings {
    type V = SettingsView;

    open spec fn view(&self) -> SettingsView {
        SettingsView {
            edition: self.edition,
            php: crate::effects::opt_text_view(self.php),
            postgresql: crate::effects::opt_text_view(self.postgresql),
            mysql: crate::effects::opt_text_view(self.mysql),
            bun: crate::effects::opt_text_view(self.bun),
        }
    }
}

/// Where an edition downloads a program of a version from.
pub open spec fn download_url(edition: Edition, p: Program, v: Seq<char>) -> Seq<char> {
    match (edition, p) {
        (Edition::Current, Program::Php) =>
            "https://downloads.php.net/~windows/releases/archives/php-"@ + v + "-nts-Win32-vs17-x64.zip"@,
        (Edition::Current, Program::Bun) =>
            "https://github.com/oven-sh/bun/releases/download/bun-v"@ + v + "/bun-windows-x64-baseline.zip"@,
        (Edition::Classic, Program::Php) =>
            "https://windows.php.net/downloads/releases/archives/php-"@ + v + "-Win32-vs16-x64.zip"@,
        (Edition::Classic, Program::Bun) =>
            "https://github.com/oven-sh/bun/releases/download/bun-v"@ + v + "/bun-windows-x64.zip"@,
        (_, Program::PostgreSql) =>
            "https://get.enterprisedb.com/postgresql/postgresql-"@ + v + "-1-windows-x64-binaries.zip"@,
        (_, Program::MySql) =>
            "https://dev.mysql.com/get/Downloads/MySQL-8.0/mysql-"@ + v + "-winx64.zip"@,
    }
}

/// Where an edition downloads a program of a version from.
pub fn download_url_exec(edition: Edition, p: Program, v: &str) -> (u: String)
    ensures
        u@ == download_url(edition, p, v@),
{
    match (edition, p) {
        (Edition::Current, Program::Php) =>
            concat3("https://downloads.php.net/~windows/releases/archives/php-", v, "-nts-Win32-vs17-x64.zip"),
        (Edition::Current, Program::Bun) =>
            concat3("https://github.com/oven-sh/bun/releases/download/bun-v", v, "/bun-windows-x64-baseline.zip"),
        (Edition::Classic, Program::Php) =>
            concat3("https://windows.php.net/downloads/releases/archives/php-", v, "-Win32-vs16-x64.zip"),
        (Edition::Classic, Program::Bun) =>
            concat3("https://github.com/oven-sh/bun/releases/download/bun-v", v, "/bun-windows-x64.zip"),
        (_, Program::PostgreSql) =>
            concat3("https://get.enterprisedb.com/postgresql/postgresql-", v, "-1-windows-x64-binaries.zip"),
        (_, Program::MySql) =>
            concat3("https://dev.mysql.com/get/Downloads/MySQL-8.0/mysql-", v, "-winx64.zip"),
    }
}

/// A download and extraction job before its first step.
pub open spec fn extract_job(edition: Edition, p: Program, v: Seq<char>, base: Seq<Seq<char>>) -> JobView {
    JobView::Extract(ExtractView {
        stage: ExtractStage::Start,
        edition,
        program: p,
        version: v,
        url: download_url(edition, p, v),
        base,
        queue: seq![],
        pg_bin_top: false,
    })
}

/// The jobs of an installation into `base`, in order: PHP (with its
/// configuration and Composer in the current generation), PostgreSQL, MySQL,
/// and Bun (with the moving of its files in the current generation); each
/// only where the settings name it.
pub open spec fn install_plan(s: SettingsView, base: Seq<Seq<char>>) -> Seq<JobView> {
    let current = s.edition == Edition::Current;
    let php = match s.php {
        Some(v) => if current {
            let dir = program_dir(base, Program::Php, v);
            seq![
                extract_job(s.edition, Program::Php, v, base),
                JobView::PhpIni(PhpIniView { stage: PhpIniStage::Start, php_dir: dir }),
                JobView::Composer(ComposerView { stage: ComposerStage::Start, php_dir: dir, failure: seq![] }),
            ]
        } else {
            seq![extract_job(s.edition, Program::Php, v, base)]
        },
        None => seq![],
    };
    let pg = match s.postgresql {
        Some(v) => seq![extract_job(s.edition, Program::PostgreSql, v, base)],
        None => seq![],
    };
    let my = match s.mysql {
        Some(v) => seq![extract_job(s.edition, Program::MySql, v, base)],
        None => seq![],
    };
    let bun = match s.bun {
        Some(v) => if current {
            seq![
                extract_job(s.edition, Program::Bun, v, base),
                JobView::BunFix(BunFixView {
                    stage: BunFixStage::Start,
                    dir: program_dir(base, Program::Bun, v),
                    entries: seq![],
                    index: 0,
                    subs: seq![],
                    sub_index: 0,
                }),
            ]
        } else {
            seq![extract_job(s.edition, Program::Bun, v, base)]
        },
        None => seq![],
    };
    php + pg + my + bun
}

/// The views of the jobs `v`.
pub open spec fn job_views(v: Seq<InstallJob>) -> Seq<JobView> {
    v.map_values(|j: InstallJob| j@)
}

fn push_job(jobs: &mut Vec<InstallJob>, j: InstallJob)
    ensures
        job_views(final(jobs)@) == job_views(old(jobs)@).push(j@),
{
    jobs.push(j);
    proof {
        assert(job_views(final(jobs)@) =~= job_views(old(jobs)@).push(j@));
    }
}

fn extract_for(edition: Edition, p: Program, v: &String, base: &PathSpec) -> (j: InstallJob)
    ensures
        j@ == extract_job(edition, p, v@, base@),
{
    let url = download_url_exec(edition, p, v);
    InstallJob::Extract(download_and_extract(edition, p, url, v, base))
}

/// The jobs of an installation into `base`.
pub fn plan_installation(s: &InstallSettings, base: &PathSpec) -> (jobs: Vec<InstallJob>)
    ensures
        job_views(jobs@) == install_plan(s@, base@),
        forall|i: int| 0 <= i < jobs@.len() ==> job_wf(#[trigger] job_views(jobs@)[i]),
{
    let current = s.edition == Edition::Current;
    let mut jobs: Vec<InstallJob> = Vec::new();
    let ghost sv = s@;
    let ghost b = base@;
    if let Some(v) = &s.php {
        push_job(&mut jobs, extract_for(s.edition, Program::Php, v, base));
        if current {
            let dir = program_dir_exec(base, Program::Php, v);
            push_job(&mut jobs, InstallJob::PhpIni(configure_php(&dir)));
            push_job(&mut jobs, InstallJob::Composer(download_composer(&dir)));
        }
    }
    let ghost after_php = job_views(jobs@);
    if let Some(v) = &s.postgresql {
        push_job(&mut jobs, extract_for(s.edition, Program::PostgreSql, v, base));
    }
    let ghost after_pg = job_views(jobs@);
    if let Some(v) = &s.mysql {
        push_job(&mut jobs, extract_for(s.edition, Program::MySql, v, base));
    }
    let ghost after_my = job_views(jobs@);
    if let Some(v) = &s.bun {
        push_job(&mut jobs, extract_for(s.edition, Program::Bun, v, base));
        if current {
            push_job(&mut jobs, InstallJob::BunFix(fix_bun_structure(v, base)));
        }
    }
    proof {
        assert(job_views(jobs@) =~= install_plan(sv, b));
    }
    jobs
}

/// An installation: its settings, the home directory it learned, the job it
/// is running and the jobs still to run.
pub struct InstallAll {
    pub stage: InstallStage,
    pub settings: InstallSettings,
    pub home: String,
    pub current: Option<InstallJob>,
    pub pending: Vec<InstallJob>,
}

/// The view of an `InstallAll`.
pub struct InstallView {
    pub stage: InstallStage,
    pub settings: SettingsView,
    pub home: Seq<char>,
    pub current: Option<JobView>,
    pub pending: Seq<JobView>,
}

impl View for InstallAll {
    type V = InstallView;

    open spec fn view(&self) -> InstallView {
        InstallView {
            stage: self.stage,
            settings: self.settings@,
            home: self.home@,
            current: match self.current {
                Some(j) => Some(j@),
                None => None,
            },
            pending: job_views(self.pending@),
        }
    }
}

/// Every job is well formed.
pub open spec fn install_wf(s: InstallView) -> bool {
    &&& (s.current matches Some(j) ==> job_wf(j))
    &&& forall|i: int| 0 <= i < s.pending.len() ==> job_wf(#[trigger] s.pending[i])
}

/// The folder the installation installs into.
pub open spec fn install_base(edition: Edition, home: Seq<char>) -> Seq<Seq<char>> {
    match edition {
        Edition::Current => seq![home, ".pconnect"@],
        Edition::Classic => seq![home, ".php-connects"@],
    }
}

/// The first job is started, with `notes` shown first; with no job, the
/// installation ends.
pub open spec fn install_advance(s: InstallView, notes: Seq<NoticeView>, n: InstallView, st: StepView) -> bool {
    if s.pending.len() == 0 {
        &&& n == InstallView { stage: InstallStage::Done, current: None, ..s }
        &&& st == StepView { notes, op: OpView::Halt }
    } else {
        exists|j: JobView, st1: StepView| {
            &&& #[trigger] job_step(s.pending[0], OutcomeView::Begin, j, st1)
            &&& n == InstallView {
                stage: InstallStage::Running,
                current: Some(j),
                pending: s.pending.drop_first(),
                ..s
            }
            &&& st == StepView { notes: notes + st1.notes, op: st1.op }
        }
    }
}

/// What an installation does next, given the outcome `ev`: it finds the home
/// directory and makes sure the installation folder exists, then runs its
/// jobs one after the other, each from its start to its halt.
pub open spec fn install_step(s: InstallView, ev: OutcomeView, n: InstallView, st: StepView) -> bool {
    let base = install_base(s.settings.edition, s.home);
    let done = InstallView { stage: InstallStage::Done, ..s };
    let plan = install_plan(s.settings, base);
    match (s.stage, ev) {
        (InstallStage::Start, OutcomeView::Begin) => {
            &&& n == InstallView { stage: InstallStage::AwaitHome, ..s }
            &&& st == quiet_view(
                OpView::ReadEnv(
                    "USERPROFILE"@,
                    FailureView::Abort(
                        if s.settings.edition == Edition::Current {
                            "❌ Erro: USERPROFILE não encontrado"@
                        } else {
                            "Não foi possível encontrar a pasta do usuário."@
                        },
                    ),
                ),
            )
        },
        (InstallStage::AwaitHome, OutcomeView::Text(h)) => {
            &&& n == InstallView { stage: InstallStage::AwaitBase, home: h, ..s }
            &&& st == quiet_view(OpView::CheckExists(install_base(s.settings.edition, h)))
        },
        (InstallStage::AwaitBase, OutcomeView::Exists(false)) => {
            &&& n == InstallView { stage: InstallStage::AwaitCreate, ..s }
            &&& st == quiet_view(
                OpView::CreateDirAll(
                    base,
                    if s.settings.edition == Edition::Current {
                        FailureView::Ignore
                    } else {
                        FailureView::Unwrap
                    },
                ),
            )
        },
        (InstallStage::AwaitBase, OutcomeView::Exists(true)) =>
            install_advance(InstallView { pending: plan, current: None, ..s }, seq![], n, st),
        (InstallStage::AwaitCreate, OutcomeView::Ack) =>
            install_advance(InstallView { pending: plan, current: None, ..s }, seq![], n, st),
        (InstallStage::Running, _) => match s.current {
            Some(j) => exists|j2: JobView, st1: StepView| {
                &&& #[trigger] job_step(j, ev, j2, st1)
                &&& if st1.op == OpView::Halt {
                    install_advance(InstallView { current: None, ..s }, st1.notes, n, st)
                } else {
                    &&& n == InstallView { current: Some(j2), ..s }
                    &&& st == st1
                }
            },
            None => n == done && st == quiet_view(OpView::Halt),
        },
        _ => n == done && st == quiet_view(OpView::Halt),
    }
}

fn home_folder(edition: Edition, home: &str) -> (p: PathSpec)
    ensures
        p@ == install_base(edition, home@),
{
    let p = match edition {
        Edition::Current => PathSpec::single(home).join(".pconnect"),
        Edition::Classic => PathSpec::single(home).join(".php-connects"),
    };
    proof {
        assert(p@ =~= install_base(edition, home@));
    }
    p
}

fn is_halt(op: &Op) -> (b: bool)
    ensures
        b == (op@ == OpView::Halt),
{
    match op {
        Op::Halt => true,
        _ => false,
    }
}

/// An installation with the given settings, before its first step.
pub fn install_with(settings: InstallSettings) -> (m: InstallAll)
    ensures
        m@ == (InstallView {
            stage: InstallStage::Start,
            settings: settings@,
            home: seq![],
            current: None,
            pending: seq![],
        }),
        install_wf(m@),
{
    let m = InstallAll { stage: InstallStage::Start, settings, home: String::new(), current: None, pending: Vec::new() };
    proof {
        assert(m@.pending =~= Seq::<JobView>::empty());
    }
    m
}

impl InstallAll {
    fn advance(&mut self, notes: Vec<Notice>) -> (st: Step)
        requires
            install_wf(old(self)@),
            old(self).current.is_none(),
        ensures
            install_advance(old(self)@, notes@.map_values(|n: Notice| n@), final(self)@, st@),
            install_wf(final(self)@),
    {
        if self.pending.len() == 0 {
            self.stage = InstallStage::Done;
            return Step { notes, op: Op::Halt };
        }
        let mut job = self.pending.remove(0);
        proof {
            assert(job_views(self.pending@) =~= job_views(old(self).pending@).drop_first());
            assert(job@ == old(self)@.pending[0]);
        }
        let st1 = job.step(Outcome::Begin);
        let ghost j = job@;
        let ghost v1 = st1@;
        let mut all = notes;
        let mut more = st1.notes;
        let ghost a = all@.map_values(|n: Notice| n@);
        let ghost b = more@.map_values(|n: Notice| n@);
        all.append(&mut more);
        self.current = Some(job);
        self.stage = InstallStage::Running;
        let st = Step { notes: all, op: st1.op };
        proof {
            assert(all@.map_values(|n: Notice| n@) =~= a + b);
            assert(job_step(old(self)@.pending[0], OutcomeView::Begin, j, v1));
            assert(install_wf(self@)) by {
                assert forall|i: int| 0 <= i < self@.pending.len() implies job_wf(#[trigger] self@.pending[i]) by {
                    assert(self@.pending[i] == old(self)@.pending[i + 1]);
                }
            }
        }
        st
    }

    /// The next step, given the outcome of the last one.
    pub fn step(&mut self, ev: Outcome) -> (st: Step)
        requires
            install_wf(old(self)@),
        ensures
            install_step(old(self)@, ev@, final(self)@, st@),
            install_wf(final(self)@),
    {
        let edition = self.settings.edition;
        match (self.stage, ev) {
            (InstallStage::Start, Outcome::Begin) => {
                self.stage = InstallStage::AwaitHome;
                let msg = match edition {
                    Edition::Current => "❌ Erro: USERPROFILE não encontrado",
                    Edition::Classic => "Não foi possível encontrar a pasta do usuário.",
                };
                quiet(Op::ReadEnv(owned("USERPROFILE"), OnFailure::Abort(owned(msg))))
            },
            (InstallStage::AwaitHome, Outcome::Text(h)) => {
                let base = home_folder(edition, &h);
                self.home = h;
                self.stage = InstallStage::AwaitBase;
                quiet(Op::CheckExists(base))
            },
            (InstallStage::AwaitBase, Outcome::Exists(present)) => {
                if present {
                    let base = home_folder(edition, &self.home);
                    self.pending = plan_installation(&self.settings, &base);
                    self.current = None;
                    let none: Vec<Notice> = Vec::new();
                    assert(none@.map_values(|n: Notice| n@) =~= Seq::<NoticeView>::empty());
                    self.advance(none)
                } else {
                    self.stage = InstallStage::AwaitCreate;
                    let on_failure = match edition {
                        Edition::Current => OnFailure::Ignore,
                        Edition::Classic => OnFailure::Unwrap,
                    };
                    quiet(Op::CreateDirAll(home_folder(edition, &self.home), on_failure))
                }
            },
            (InstallStage::AwaitCreate, Outcome::Ack) => {
                let base = home_folder(edition, &self.home);
                self.pending = plan_installation(&self.settings, &base);
                self.current = None;
                let none: Vec<Notice> = Vec::new();
                assert(none@.map_values(|n: Notice| n@) =~= Seq::<NoticeView>::empty());
                self.advance(none)
            },
            (InstallStage::Running, ev) => {
                match self.current.take() {
                    Some(mut job) => {
                        let ghost j0 = job@;
                        let st1 = job.step(ev);
                        if is_halt(&st1.op) {
                            let ghost v1 = st1@;
                            let ghost j2 = job@;
                            let st = self.advance(st1.notes);
                            proof {
                                assert(job_step(j0, ev@, j2, v1));
                            }
                            st
                        } else {
                            self.current = Some(job);
                            st1
                        }
                    },
                    None => {
                        self.stage = InstallStage::Done;
                        quiet(Op::Halt)
                    },
                }
            },
            _ => {
                self.stage = InstallStage::Done;
                quiet(Op::Halt)
            },
        }
    }
}

// ---------------------------------------------------------------------------
// Laws
// ---------------------------------------------------------------------------

/// A download and extraction first looks for the program's folder; where it
/// exists the program is installed already, and the job says so and
/// downloads nothing.
pub proof fn installed_program_not_downloaded(
    s: ExtractView,
    n1: ExtractView,
    st1: StepView,
    n2: ExtractView,
    st2: StepView,
)
    requires
        s.stage == ExtractStage::Start,
        extract_step(s, OutcomeView::Begin, n1, st1),
        extract_step(n1, OutcomeView::Exists(true), n2, st2),
    ensures
        st1.op == OpView::CheckExists(program_dir(s.base, s.program, s.version)),
        n2.stage == ExtractStage::Done,
        st2 == noted_view(NoticeView::AlreadyInstalled(program_name(s.program), s.version), OpView::Halt),
{
}

/// `op` extracts the entry `e` into `root`: it makes a folder, makes the
/// parent folder of a file, or writes the entry's contents, at the path that
/// the edition gives the entry under `root`. The current generation does so
/// only for an entry whose name is safe and that is no macOS metadata, at its
/// enclosed name, which holds no NUL and neither begins at the root nor by
/// going up; the classic one at its mangled name.
pub open spec fn extracts_entry(edition: Edition, root: Seq<Seq<char>>, e: EntryView, op: OpView) -> bool {
    let target = match edition {
        Edition::Current => e.enclosed_name,
        Edition::Classic => Some(e.mangled_name),
    };
    &&& (edition == Edition::Classic || !seq_contains(e.name, "__MACOSX"@))
    &&& target matches Some(t)
    &&& (edition == Edition::Current ==> t == e.name && enclosed_shape(t))
    &&& (edition == Edition::Classic ==> mangled_shape(t))
    &&& match op {
        OpView::CreateDirAll(p, _) => p == root.push(t),
        OpView::CreateParentDirAll(p, _) => p == root.push(t),
        OpView::WriteBytes(p, c, _) => p == root.push(t) && c == e.contents,
        _ => false,
    }
}

proof fn lemma_entry_ops_extract(edition: Edition, root: Seq<Seq<char>>, e: EntryView)
    requires
        well_named(e),
    ensures
        forall|k: int| 0 <= k < entry_ops(edition, root, e).len()
            ==> extracts_entry(edition, root, e, #[trigger] entry_ops(edition, root, e)[k]),
{
}

/// Extraction stays in the program's folder: every operation of an
/// extraction plan for entries read out of an archive extracts one of those
/// entries into the folder, at the path the edition gives it there, and
/// writes nothing but that entry's contents.
pub proof fn extraction_stays_in_folder(edition: Edition, root: Seq<Seq<char>>, es: Seq<EntryView>)
    requires
        forall|i: int| 0 <= i < es.len() ==> well_named(#[trigger] es[i]),
    ensures
        forall|k: int| #![trigger extraction_plan(edition, root, es)[k]]
            0 <= k < extraction_plan(edition, root, es).len() ==> exists|i: int|
            #![trigger es[i]]
            0 <= i < es.len() && extracts_entry(edition, root, es[i], extraction_plan(edition, root, es)[k]),
    decreases es.len(),
{
    if es.len() > 0 {
        let prefix = es.drop_last();
        let plan = extraction_plan(edition, root, es);
        let front = extraction_plan(edition, root, prefix);
        let last_ops = entry_ops(edition, root, es.last());
        assert forall|i: int| 0 <= i < prefix.len() implies well_named(#[trigger] prefix[i]) by {
            assert(prefix[i] == es[i]);
        }
        extraction_stays_in_folder(edition, root, prefix);
        assert(well_named(es[es.len() - 1]));
        lemma_entry_ops_extract(edition, root, es.last());
        assert(plan == front + last_ops);
        assert forall|k: int| #![trigger plan[k]] 0 <= k < plan.len() implies exists|i: int|
            #![trigger es[i]]
            0 <= i < es.len() && extracts_entry(edition, root, es[i], plan[k]) by {
            if k < front.len() {
                assert(plan[k] == front[k]);
                let i = choose|i: int| #![trigger prefix[i]] 0 <= i < prefix.len() && extracts_entry(edition, root, prefix[i], front[k]);
                assert(prefix[i] == es[i]);
            } else {
                assert(plan[k] == last_ops[k - front.len()]);
                assert(extracts_entry(edition, root, es.last(), last_ops[k - front.len()]));
                assert(es[es.len() - 1] == es.last());
            }
        }
    }
}

/// The folder a job of an installation works in.
pub open spec fn job_folder(j: JobView) -> Seq<Seq<char>> {
    match j {
        JobView::Extract(e) => program_dir(e.base, e.program, e.version),
        JobView::PhpIni(p) => p.php_dir,
        JobView::Composer(c) => c.php_dir,
        JobView::BunFix(b) => b.dir,
    }
}

/// Everything an installation installs goes into its own folder under the
/// installation folder: every job of the plan works in a program's folder
/// `base/<program>-<version>`.
pub proof fn installation_stays_in_base(s: SettingsView, base: Seq<Seq<char>>)
    ensures
        forall|i: int| #![trigger install_plan(s, base)[i]]
            0 <= i < install_plan(s, base).len() ==> {
                let dir = job_folder(install_plan(s, base)[i]);
                &&& dir.len() == base.len() + 1
                &&& dir.subrange(0, base.len() as int) == base
            },
{
    let plan = install_plan(s, base);
    assert forall|i: int| #![trigger plan[i]] 0 <= i < plan.len() implies {
        let dir = job_folder(plan[i]);
        &&& dir.len() == base.len() + 1
        &&& dir.subrange(0, base.len() as int) == base
    } by {
        let j = plan[i];
        assert(job_folder(j).len() == base.len() + 1);
        assert(job_folder(j).subrange(0, base.len() as int) =~= base);
    }
}

/// A successful download that reads as a zip archive is extracted: the job
/// goes on with the extraction of all the archive's entries, in order, and
/// does not stop with an error at this step. A download that does not open
/// as an archive stops the program at once.
pub proof fn readable_download_is_extracted(s: ExtractView, code: u16, bytes: Seq<u8>, n: ExtractView, st: StepView)
    requires
        s.stage == ExtractStage::AwaitFetch,
        extract_step(s, OutcomeView::Fetched(Ok((code, bytes))), n, st),
    ensures
        zip_reads(bytes) ==> !(st.op is Abort),
        zip_reads(bytes) ==> exists|es: Seq<EntryView>| {
            &&& #[trigger] read_for_extraction(rule_of(s.edition), bytes, es, None)
            &&& (n, st) == extraction_next(
                ExtractView { queue: extraction_plan(s.edition, program_dir(s.base, s.program, s.version), es), ..s },
                extraction_notes(s.edition),
            )
        },
        zip_contents(bytes) is None ==> st.op is Abort && n.stage == ExtractStage::Done,
{
    let ev = OutcomeView::Fetched(Ok((code, bytes)));
    assert(ev matches OutcomeView::Fetched(Ok((_, bb))) && bb == bytes);
    if zip_contents(bytes) is Some {
        let (es, stop, t) = choose|es: Seq<EntryView>, stop: Option<Option<EntryView>>, t: Seq<char>| {
            &&& read_for_extraction(rule_of(s.edition), bytes, es, stop)
            &&& (n, st) == extraction_next(
                ExtractView {
                    queue: #[trigger] plan_of_read(s, es, stop, zip_abort_prefix(s.edition) + t),
                    ..s
                },
                extraction_notes(s.edition),
            )
        };
        let stored = zip_contents(bytes)->0;
        let root = program_dir(s.base, s.program, s.version);
        let plan = extraction_plan(s.edition, root, es);
        if zip_reads(bytes) {
            if es.len() < stored.len() {
                assert(crate::archive::entry_reads(stored[es.len() as int]));
            }
            assert(stop is None);
            assert(plan_of_read(s, es, stop, zip_abort_prefix(s.edition) + t) =~= plan);
            assert forall|i: int| 0 <= i < es.len() implies well_named(#[trigger] es[i]) by {
                assert(read_for(rule_of(s.edition), es[i], stored[i]));
            }
            extraction_stays_in_folder(s.edition, root, es);
            if plan.len() > 0 {
                let i = choose|i: int| #![trigger es[i]] 0 <= i < es.len() && extracts_entry(s.edition, root, es[i], plan[0]);
                assert(!(plan[0] is Abort));
            }
        }
    }
}

/// `op` is a stop, or makes or writes a path directly inside `root`.
pub open spec fn writes_inside(op: OpView, root: Seq<Seq<char>>) -> bool {
    match op {
        OpView::CreateDirAll(p, _) => p.len() == root.len() + 1 && p.subrange(0, root.len() as int) == root,
        OpView::CreateParentDirAll(p, _) => p.len() == root.len() + 1 && p.subrange(0, root.len() as int) == root,
        OpView::WriteBytes(p, _, _) => p.len() == root.len() + 1 && p.subrange(0, root.len() as int) == root,
        OpView::Abort(_) => true,
        _ => false,
    }
}

proof fn lemma_extracts_inside(edition: Edition, root: Seq<Seq<char>>, e: EntryView, op: OpView)
    requires
        extracts_entry(edition, root, e, op),
    ensures
        writes_inside(op, root),
{
    let t = match edition {
        Edition::Current => e.enclosed_name->0,
        Edition::Classic => e.mangled_name,
    };
    assert(root.push(t).subrange(0, root.len() as int) =~= root);
}

/// A second download and extraction of a program, after a first one whose
/// download opened as an archive, downloads nothing: everything the first
/// one's extraction makes or writes lies directly inside the program's
/// folder, and that folder is the path the second job looks for first; where
/// it finds it, the second job says the program is installed and stops
/// without downloading.
pub proof fn second_download_finds_first(
    first: ExtractView,
    code: u16,
    bytes: Seq<u8>,
    n1: ExtractView,
    st1: StepView,
    second: ExtractView,
    n2: ExtractView,
    st2: StepView,
    n3: ExtractView,
    st3: StepView,
)
    requires
        first.stage == ExtractStage::AwaitFetch,
        zip_contents(bytes) is Some,
        extract_step(first, OutcomeView::Fetched(Ok((code, bytes))), n1, st1),
        second.stage == ExtractStage::Start,
        second.base == first.base,
        second.program == first.program,
        second.version == first.version,
        extract_step(second, OutcomeView::Begin, n2, st2),
        extract_step(n2, OutcomeView::Exists(true), n3, st3),
    ensures
        exists|es: Seq<EntryView>, stop: Option<Option<EntryView>>, t: Seq<char>| {
            &&& read_for_extraction(rule_of(first.edition), bytes, es, stop)
            &&& (n1, st1) == extraction_next(
                ExtractView { queue: #[trigger] plan_of_read(first, es, stop, zip_abort_prefix(first.edition) + t), ..first },
                extraction_notes(first.edition),
            )
            &&& forall|k: int| 0 <= k < plan_of_read(first, es, stop, zip_abort_prefix(first.edition) + t).len()
                ==> writes_inside(
                    #[trigger] plan_of_read(first, es, stop, zip_abort_prefix(first.edition) + t)[k],
                    program_dir(first.base, first.program, first.version),
                )
        },
        st2.op == OpView::CheckExists(program_dir(first.base, first.program, first.version)),
        n3.stage == ExtractStage::Done,
        !(st3.op is Fetch),
{
    let ev = OutcomeView::Fetched(Ok((code, bytes)));
    assert(ev matches OutcomeView::Fetched(Ok((_, bb))) && bb == bytes);
    let (es, stop, t) = choose|es: Seq<EntryView>, stop: Option<Option<EntryView>>, t: Seq<char>| {
        &&& read_for_extraction(rule_of(first.edition), bytes, es, stop)
        &&& (n1, st1) == extraction_next(
            ExtractView {
                queue: #[trigger] plan_of_read(first, es, stop, zip_abort_prefix(first.edition) + t),
                ..first
            },
            extraction_notes(first.edition),
        )
    };
    let root = program_dir(first.base, first.program, first.version);
    let stored = zip_contents(bytes)->0;
    let plan = extraction_plan(first.edition, root, es);
    let tail = stop_ops(first.edition, root, stop, zip_abort_prefix(first.edition) + t);
    let q = plan_of_read(first, es, stop, zip_abort_prefix(first.edition) + t);
    assert(q == plan + tail);
    assert forall|i: int| 0 <= i < es.len() implies well_named(#[trigger] es[i]) by {
        assert(read_for(rule_of(first.edition), es[i], stored[i]));
    }
    extraction_stays_in_folder(first.edition, root, es);
    if let Some(Some(h)) = stop {
        assert(well_named(h));
        lemma_entry_ops_extract(first.edition, root, h);
    }
    assert forall|k: int| 0 <= k < q.len() implies writes_inside(#[trigger] q[k], root) by {
        if k < plan.len() {
            assert(q[k] == plan[k]);
            let i = choose|i: int| #![trigger es[i]] 0 <= i < es.len() && extracts_entry(first.edition, root, es[i], plan[k]);
            lemma_extracts_inside(first.edition, root, es[i], plan[k]);
        } else {
            assert(q[k] == tail[k - plan.len()]);
            if let Some(Some(h)) = stop {
                let ops = entry_ops(first.edition, root, h);
                if k - plan.len() < ops.len() {
                    assert(tail[k - plan.len()] == ops[k - plan.len()]);
                    lemma_extracts_inside(first.edition, root, h, ops[k - plan.len()]);
                }
            }
        }
    }
}

/// The current edition extracts every entry with a plain name that is no
/// macOS metadata: a folder is made, and a file written with its contents,
/// at that very name inside the program's folder.
pub proof fn plain_entries_are_extracted(root: Seq<Seq<char>>, e: EntryView)
    requires
        well_named(e),
        plain_name(e.name),
        !seq_contains(e.name, "__MACOSX"@),
    ensures
        seq_ends_with(e.name, "/"@) ==> entry_ops(Edition::Current, root, e)
            == seq![OpView::CreateDirAll(root.push(e.name), FailureView::Unwrap)],
        !seq_ends_with(e.name, "/"@) ==> entry_ops(Edition::Current, root, e) == seq![
            OpView::CreateParentDirAll(root.push(e.name), FailureView::Ignore),
            OpView::WriteBytes(root.push(e.name), e.contents, FailureView::Unwrap),
        ],
{
}

/// A fresh PostgreSQL installation gets its data initialized, and an
/// initialized one is left alone: once the extracted installation's
/// `initdb.exe` is found, its `data` folder is looked for; where the folder
/// is missing, `initdb.exe` is run on it with the user `postgres` and trust
/// authentication (and this is said), and where it exists the job ends
/// without running anything.
pub proof fn fresh_postgres_is_initialized(
    s: ExtractView,
    s1: ExtractView,
    st1: StepView,
    present: bool,
    n: ExtractView,
    st: StepView,
)
    requires
        s.program == Program::PostgreSql,
        s.stage == ExtractStage::PgAwaitInitdb,
        extract_step(s, OutcomeView::Exists(true), s1, st1),
        extract_step(s1, OutcomeView::Exists(present), n, st),
    ensures
        ({
            let dir = s.base.push("postgres-"@ + s.version);
            let bin = if s.pg_bin_top { dir.push("bin"@) } else { dir.push("pgsql"@).push("bin"@) };
            &&& st1.op == OpView::CheckExists(dir.push("data"@))
            &&& !present ==> st == (StepView {
                notes: seq![NoticeView::InitializingInstallation(Service::PostgreSql)],
                op: OpView::Run(
                    CommandView {
                        program: bin.push("initdb.exe"@),
                        args: seq![
                            ArgView::Text("-D"@),
                            ArgView::Path(dir.push("data"@)),
                            ArgView::Text("-U"@),
                            ArgView::Text("postgres"@),
                            ArgView::Text("--auth=trust"@),
                        ],
                        current_dir: None,
                        stdout: StdioMode::Inherit,
                        stderr: StdioMode::Inherit,
                        path_env: None,
                    },
                    RunMode::Status,
                ),
            })
            &&& present ==> n.stage == ExtractStage::Done && st.op == OpView::Halt
        }),
{
    reveal_strlit("postgres");
    reveal_strlit("-");
    reveal_strlit("postgres-");
    assert(program_name(Program::PostgreSql) + "-"@ + s.version =~= "postgres-"@ + s.version);
}

} // verus!
