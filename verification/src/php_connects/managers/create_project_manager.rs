//! Creating a new project: its folder and `pconnect.cfg.toml`, a Laravel
//! backend (made through Composer, then stripped of its own frontend files),
//! a Vue frontend made with Bun, and a backend `.env` set for PostgreSQL.
use vstd::prelude::*;
use crate::effects::{
    ArgView, CommandArg, CommandView, FailureView, Notice, NoticeView, OnFailure, Op, OpView,
    Outcome, OutcomeView, PathSpec, ProcessCommand, RunMode, Service, StdioMode, Step, StepView, abort_with,
    after_notes, command_in, new_command, no_notes, notice_views, noted, noted_view, one_note,
    plain_command, prepend_notes, quiet, quiet_view, text_arg,
};
use crate::locate::{get_global_bin, global_bin_search, locate_transition, locate_wf, Locate, LocateView};
use crate::text::{concat3, owned, replace_all, replace_seq, to_lowercase, unicode_lowercase};
use crate::pconnect_tool::configs::pconnect_cfg::GlobalConfig;

verus! {

// ---------------------------------------------------------------------------
// Contents
// ---------------------------------------------------------------------------

/// The `pconnect.cfg.toml` of a new project whose lowercased name is `lname`.
pub open spec fn local_toml(lname: Seq<char>) -> Seq<char> {
    "[ports]\n    php_port = 8000\n    laravel_port = 8001\n    postgresql_port = 5432\n    vue_port = 5173\n\n    [paths]\n    backend_dir = \"./backend\"\n    frontend_dir = \"./frontend\"\n\n    [postgresql]\n    db = \""@
        + lname
        + "_db\"\n    host = \"localhost\"\n    user = \"postgres\"\n    pass = \"admin\"\n    "@
}

/// The `pconnect.cfg.toml` of a new project whose lowercased name is `lname`.
pub fn local_toml_exec(lname: &str) -> (t: String)
    ensures
        t@ == local_toml(lname@),
{
    concat3(
        "[ports]\n    php_port = 8000\n    laravel_port = 8001\n    postgresql_port = 5432\n    vue_port = 5173\n\n    [paths]\n    backend_dir = \"./backend\"\n    frontend_dir = \"./frontend\"\n\n    [postgresql]\n    db = \"",
        lname,
        "_db\"\n    host = \"localhost\"\n    user = \"postgres\"\n    pass = \"admin\"\n    ",
    )
}

/// The backend's `.env` set for the local PostgreSQL: connection, host, port,
/// user and password, and the database `laravel` replaced by `<lname>_db`,
/// the database of the project's configuration.
pub open spec fn env_content(env: Seq<char>, lname: Seq<char>) -> Seq<char> {
    let s1 = replace_seq(env, "DB_CONNECTION=sqlite"@, "DB_CONNECTION=pgsql"@);
    let s2 = replace_seq(s1, "# DB_HOST=127.0.0.1"@, "DB_HOST=127.0.0.1"@);
    let s3 = replace_seq(s2, "DB_PORT=3306"@, "DB_PORT=5432"@);
    let s4 = replace_seq(s3, "DB_DATABASE=laravel"@, "DB_DATABASE="@ + lname + "_db"@);
    let s5 = replace_seq(s4, "DB_USERNAME=root"@, "DB_USERNAME=postgres"@);
    replace_seq(s5, "DB_PASSWORD="@, "DB_PASSWORD=admin"@)
}

/// The backend's `.env` set for the local PostgreSQL.
pub fn env_content_exec(env: &str, lname: &str) -> (r: String)
    ensures
        r@ == env_content(env@, lname@),
{
    let s1 = replace_all(env, "DB_CONNECTION=sqlite", "DB_CONNECTION=pgsql");
    let s2 = replace_all(&s1, "# DB_HOST=127.0.0.1", "DB_HOST=127.0.0.1");
    let s3 = replace_all(&s2, "DB_PORT=3306", "DB_PORT=5432");
    let db = concat3("DB_DATABASE=", lname, "_db");
    let s4 = replace_all(&s3, "DB_DATABASE=laravel", &db);
    let s5 = replace_all(&s4, "DB_USERNAME=root", "DB_USERNAME=postgres");
    replace_all(&s5, "DB_PASSWORD=", "DB_PASSWORD=admin")
}

/// The route file that replaces Laravel's welcome page.
pub open spec fn clean_route() -> Seq<char> {
    "<?php\n\nuse Illuminate\\Support\\Facades\\Route;\n\nRoute::get('/', fn() => ['status' => 'PConnect API Online']);"@
}

/// The backend files that belong to the separate frontend, removed from it.
pub open spec fn boilerplate_item(i: int) -> Seq<char> {
    if i == 0 { "package.json"@ }
    else if i == 1 { "vite.config.js"@ }
    else if i == 2 { "resources/css"@ }
    else if i == 3 { "resources/js"@ }
    else { "resources/views/welcome.blade.php"@ }
}

fn boilerplate_item_exec(i: usize) -> (s: &'static str)
    ensures
        s@ == boilerplate_item(i as int),
{
    if i == 0 { "package.json" }
    else if i == 1 { "vite.config.js" }
    else if i == 2 { "resources/css" }
    else if i == 3 { "resources/js" }
    else { "resources/views/welcome.blade.php" }
}

// ---------------------------------------------------------------------------
// The creation
// ---------------------------------------------------------------------------

/// Where a creation stands.
#[derive(Clone, Copy, Debug, PartialEq, Eq, Structural)]
pub enum CreateStage {
    Start,
    AwaitCwd,
    AwaitRootCheck,
    AwaitMkdir,
    AwaitToml,
    AwaitHome,
    SearchPhp,
    SearchComposer,
    AwaitPhpCheck,
    AwaitComposerCheck,
    AwaitComposerRun,
    AwaitCleanIsDir,
    AwaitCleanRemove,
    AwaitRoute,
    SearchBun,
    AwaitVite,
    AwaitVueInstall,
    AwaitEnvCheck,
    AwaitEnvRead,
    AwaitEnvWrite,
    Done,
}

/// A creation of a project.
pub struct ProjectCreation {
    pub stage: CreateStage,
    pub name: String,
    /// The name lowercased.
    pub lname: String,
    pub php_version: String,
    pub bun_version: String,
    pub cwd: String,
    pub home: String,
    pub search: Locate,
    pub php_bin: PathSpec,
    pub composer: PathSpec,
    pub bun_bin: PathSpec,
    pub clean_index: usize,
}

/// The view of a `ProjectCreation`.
pub struct CreateView {
    pub stage: CreateStage,
    pub name: Seq<char>,
    pub lname: Seq<char>,
    pub php_version: Seq<char>,
    pub bun_version: Seq<char>,
    pub cwd: Seq<char>,
    pub home: Seq<char>,
    pub search: LocateView,
    pub php_bin: Seq<Seq<char>>,
    pub composer: Seq<Seq<char>>,
    pub bun_bin: Seq<Seq<char>>,
    pub clean_index: int,
}

impl View for ProjectCreation {
    type V = CreateView;

    open spec fn view(&self) -> CreateView {
        CreateView {
            stage: self.stage,
            name: self.name@,
            lname: self.lname@,
            php_version: self.php_version@,
            bun_version: self.bun_version@,
            cwd: self.cwd@,
            home: self.home@,
            search: self.search@,
            php_bin: self.php_bin@,
            composer: self.composer@,
            bun_bin: self.bun_bin@,
            clean_index: self.clean_index as int,
        }
    }
}

/// The search is well formed and the cleaning index in range.
pub open spec fn create_wf(s: CreateView) -> bool {
    &&& locate_wf(s.search)
    &&& 0 <= s.clean_index <= 5
    &&& (s.stage == CreateStage::AwaitCleanIsDir || s.stage == CreateStage::AwaitCleanRemove) ==> s.clean_index < 5
}

/// The project's folder.
pub open spec fn project_root(s: CreateView) -> Seq<Seq<char>> {
    seq![s.cwd, s.name]
}

/// The backend's folder.
pub open spec fn backend_dir(s: CreateView) -> Seq<Seq<char>> {
    project_root(s).push("backend"@)
}

/// The frontend's folder.
pub open spec fn frontend_dir(s: CreateView) -> Seq<Seq<char>> {
    project_root(s).push("frontend"@)
}

/// Composer's `create-project` of the Laravel skeleton into the backend.
pub open spec fn laravel_command(s: CreateView) -> CommandView {
    plain_command(
        s.php_bin,
        seq![
            ArgView::Path(s.composer),
            ArgView::Text("create-project"@),
            ArgView::Text("laravel/laravel"@),
            ArgView::Path(backend_dir(s)),
            ArgView::Text("--quiet"@),
        ],
    )
}

/// `bun create vite frontend --template vue`, in the project's folder.
pub open spec fn vite_command(s: CreateView) -> CommandView {
    command_in(
        s.bun_bin,
        seq![
            ArgView::Text("create"@),
            ArgView::Text("vite"@),
            ArgView::Text("frontend"@),
            ArgView::Text("--template"@),
            ArgView::Text("vue"@),
        ],
        project_root(s),
    )
}

/// `bun install`, in the frontend's folder.
pub open spec fn vue_install_command(s: CreateView) -> CommandView {
    command_in(s.bun_bin, seq![ArgView::Text("install"@)], frontend_dir(s))
}

/// The cleaning of the backend begins, after `notes`.
pub open spec fn clean_begin(s: CreateView, notes: Seq<NoticeView>) -> (CreateView, StepView) {
    (
        CreateView { stage: CreateStage::AwaitCleanIsDir, clean_index: 0, ..s },
        StepView {
            notes: notes.push(NoticeView::CleaningBoilerplate),
            op: OpView::CheckIsDir(backend_dir(s).push(boilerplate_item(0))),
        },
    )
}

/// The next backend file is looked at, or the route file written.
pub open spec fn clean_next(s: CreateView) -> (CreateView, StepView) {
    if s.clean_index < 5 {
        (
            CreateView { stage: CreateStage::AwaitCleanIsDir, ..s },
            quiet_view(OpView::CheckIsDir(backend_dir(s).push(boilerplate_item(s.clean_index)))),
        )
    } else {
        (
            CreateView { stage: CreateStage::AwaitRoute, ..s },
            quiet_view(OpView::WriteFile(backend_dir(s).push("routes/web.php"@), clean_route(), FailureView::Ignore)),
        )
    }
}

/// The search for an executable of the program `name` of `version`.
pub open spec fn program_search(s: CreateView, name: Seq<char>, version: Seq<char>, exe: Seq<char>) -> LocateView {
    global_bin_search(s.home, name, version, exe)
}

/// The frontend's generation begins, after `notes`: Bun is looked for.
pub open spec fn frontend_begin(s: CreateView, notes: Seq<NoticeView>) -> (CreateView, StepView) {
    let (l, st) = locate_transition(program_search(s, "bun"@, s.bun_version, "bun.exe"@), OutcomeView::Begin);
    (
        CreateView { stage: CreateStage::SearchBun, search: l, ..s },
        after_notes(notes.push(NoticeView::GeneratingFrontend), st),
    )
}

/// The `.env` is looked for, after `notes`.
pub open spec fn env_begin(s: CreateView, notes: Seq<NoticeView>) -> (CreateView, StepView) {
    (
        CreateView { stage: CreateStage::AwaitEnvCheck, ..s },
        StepView { notes, op: OpView::CheckExists(backend_dir(s).push(".env"@)) },
    )
}

/// The creation ends, after `notes`.
pub open spec fn create_finish(s: CreateView, notes: Seq<NoticeView>) -> (CreateView, StepView) {
    (
        CreateView { stage: CreateStage::Done, ..s },
        StepView { notes: notes.push(NoticeView::ProjectCreated(s.name)), op: OpView::Halt },
    )
}

/// What a creation does next, given the outcome `ev` of its last operation.
/// A missing PHP or Composer, a failing Composer or a failing Bun is reported
/// and the creation goes on with the next part; an outcome that does not fit
/// the stage ends it.
pub open spec fn create_transition(s: CreateView, ev: OutcomeView) -> (CreateView, StepView) {
    let root = project_root(s);
    let done = CreateView { stage: CreateStage::Done, ..s };
    match (s.stage, ev) {
        (CreateStage::Start, OutcomeView::Begin) => (
            CreateView { stage: CreateStage::AwaitCwd, ..s },
            quiet_view(OpView::CurrentDir),
        ),
        (CreateStage::AwaitCwd, OutcomeView::Text(c)) => (
            CreateView { stage: CreateStage::AwaitRootCheck, cwd: c, ..s },
            quiet_view(OpView::CheckExists(seq![c, s.name])),
        ),
        (CreateStage::AwaitRootCheck, OutcomeView::Exists(true)) => (
            done,
            noted_view(NoticeView::ProjectExists(s.name), OpView::Halt),
        ),
        (CreateStage::AwaitRootCheck, OutcomeView::Exists(false)) => (
            CreateView { stage: CreateStage::AwaitMkdir, ..s },
            noted_view(
                NoticeView::CreatingProject(s.name),
                OpView::CreateDirAll(root, FailureView::Abort("Falha ao criar pasta do projeto"@)),
            ),
        ),
        (CreateStage::AwaitMkdir, OutcomeView::Ack) => (
            CreateView { stage: CreateStage::AwaitToml, ..s },
            quiet_view(
                OpView::WriteFile(
                    root.push("pconnect.cfg.toml"@),
                    local_toml(s.lname),
                    FailureView::Abort("❌ Erro ao criar o arquivo pconnect.cfg.toml"@),
                ),
            ),
        ),
        (CreateStage::AwaitToml, OutcomeView::Ack) => (
            CreateView { stage: CreateStage::AwaitHome, ..s },
            noted_view(
                NoticeView::InstallingLaravel,
                OpView::ReadEnv("USERPROFILE"@, FailureView::Abort("USERPROFILE não encontrado"@)),
            ),
        ),
        (CreateStage::AwaitHome, OutcomeView::Text(h)) => {
            let s1 = CreateView { home: h, ..s };
            let (l, st) = locate_transition(program_search(s1, "php"@, s.php_version, "php.exe"@), OutcomeView::Begin);
            (CreateView { stage: CreateStage::SearchPhp, search: l, ..s1 }, st)
        },
        (CreateStage::SearchPhp, _) => {
            let (l, st) = locate_transition(s.search, ev);
            if st.op == OpView::Halt {
                let s1 = CreateView { php_bin: l.result, ..s };
                let (l2, st2) = locate_transition(
                    program_search(s1, "php"@, s.php_version, "composer.phar"@),
                    OutcomeView::Begin,
                );
                (CreateView { stage: CreateStage::SearchComposer, search: l2, ..s1 }, after_notes(st.notes, st2))
            } else {
                (CreateView { search: l, ..s }, st)
            }
        },
        (CreateStage::SearchComposer, _) => {
            let (l, st) = locate_transition(s.search, ev);
            if st.op == OpView::Halt {
                (
                    CreateView { stage: CreateStage::AwaitPhpCheck, composer: l.result, search: l, ..s },
                    StepView { notes: st.notes, op: OpView::CheckExists(s.php_bin) },
                )
            } else {
                (CreateView { search: l, ..s }, st)
            }
        },
        (CreateStage::AwaitPhpCheck, OutcomeView::Exists(false)) => clean_begin(
            s,
            seq![NoticeView::BinaryMissing(Service::Php, s.php_bin)],
        ),
        (CreateStage::AwaitPhpCheck, OutcomeView::Exists(true)) => (
            CreateView { stage: CreateStage::AwaitComposerCheck, ..s },
            quiet_view(OpView::CheckExists(s.composer)),
        ),
        (CreateStage::AwaitComposerCheck, OutcomeView::Exists(false)) => clean_begin(
            s,
            seq![NoticeView::ComposerMissing],
        ),
        (CreateStage::AwaitComposerCheck, OutcomeView::Exists(true)) => (
            CreateView { stage: CreateStage::AwaitComposerRun, ..s },
            quiet_view(OpView::Run(laravel_command(s), RunMode::Status)),
        ),
        (CreateStage::AwaitComposerRun, OutcomeView::Finished(Err(e))) => clean_begin(
            s,
            seq![NoticeView::ComposerFailed(e)],
        ),
        (CreateStage::AwaitComposerRun, OutcomeView::Finished(Ok(_))) => clean_begin(s, seq![]),
        (CreateStage::AwaitCleanIsDir, OutcomeView::Exists(is_dir)) => {
            let item = backend_dir(s).push(boilerplate_item(s.clean_index));
            (
                CreateView { stage: CreateStage::AwaitCleanRemove, ..s },
                quiet_view(if is_dir { OpView::RemoveDirAll(item, FailureView::Ignore) } else { OpView::RemoveFile(item, FailureView::Ignore) }),
            )
        },
        (CreateStage::AwaitCleanRemove, OutcomeView::Ack) => clean_next(
            CreateView { clean_index: s.clean_index + 1, ..s },
        ),
        (CreateStage::AwaitRoute, OutcomeView::Ack) => frontend_begin(s, seq![NoticeView::BackendSimplified]),
        (CreateStage::SearchBun, _) => {
            let (l, st) = locate_transition(s.search, ev);
            if st.op == OpView::Halt {
                let s1 = CreateView { stage: CreateStage::AwaitVite, bun_bin: l.result, search: l, ..s };
                (s1, StepView { notes: st.notes, op: OpView::Run(vite_command(s1), RunMode::Status) })
            } else {
                (CreateView { search: l, ..s }, st)
            }
        },
        (CreateStage::AwaitVite, OutcomeView::Finished(Err(e))) => env_begin(s, seq![NoticeView::BunFailed(e)]),
        (CreateStage::AwaitVite, OutcomeView::Finished(Ok(_))) => (
            CreateView { stage: CreateStage::AwaitVueInstall, ..s },
            noted_view(NoticeView::InstallingVueDependencies, OpView::Run(vue_install_command(s), RunMode::Status)),
        ),
        (CreateStage::AwaitVueInstall, OutcomeView::Finished(_)) => env_begin(s, seq![]),
        (CreateStage::AwaitEnvCheck, OutcomeView::Exists(false)) => create_finish(s, seq![NoticeView::EnvMissing]),
        (CreateStage::AwaitEnvCheck, OutcomeView::Exists(true)) => (
            CreateView { stage: CreateStage::AwaitEnvRead, ..s },
            noted_view(NoticeView::AdjustingEnv, OpView::ReadFile(backend_dir(s).push(".env"@), FailureView::Ignore)),
        ),
        (CreateStage::AwaitEnvRead, OutcomeView::Text(t)) => (
            CreateView { stage: CreateStage::AwaitEnvWrite, ..s },
            quiet_view(
                OpView::WriteFile(
                    backend_dir(s).push(".env"@),
                    env_content(t, s.lname),
                    FailureView::Abort("Falha ao salvar .env"@),
                ),
            ),
        ),
        (CreateStage::AwaitEnvWrite, OutcomeView::Ack) => create_finish(s, seq![]),
        _ => (done, quiet_view(OpView::Halt)),
    }
}

fn copy_string(s: &String) -> (r: String)
    ensures
        r@ == s@,
{
    s.clone()
}

fn is_halt(op: &Op) -> (b: bool)
    ensures
        b == (op@ == OpView::Halt),
{
    match op {
        Op::Halt => true,
        _ => false,
    }
}

/// The creation of the project `name` in the current directory, with the PHP
/// and Bun versions of the global configuration, before its first step.
pub fn create_project(name: &str, global: &GlobalConfig) -> (m: ProjectCreation)
    ensures
        m@.stage == CreateStage::Start,
        m@.name == name@,
        m@.lname == unicode_lowercase(name@),
        m@.php_version == global.versions.php_version@,
        m@.bun_version == global.versions.bun_version@,
        m@.cwd == Seq::<char>::empty(),
        m@.home == Seq::<char>::empty(),
        m@.clean_index == 0,
        create_wf(m@),
{
    let empty = PathSpec::single("");
    ProjectCreation {
        stage: CreateStage::Start,
        name: owned(name),
        lname: to_lowercase(name),
        php_version: copy_string(&global.versions.php_version),
        bun_version: copy_string(&global.versions.bun_version),
        cwd: String::new(),
        home: String::new(),
        search: get_global_bin("", "php", "", "php.exe"),
        php_bin: empty.duplicate(),
        composer: empty.duplicate(),
        bun_bin: empty,
        clean_index: 0,
    }
}

impl ProjectCreation {
    fn root(&self) -> (p: PathSpec)
        ensures
            p@ == project_root(self@),
    {
        let p = PathSpec::single(&self.cwd).join(&self.name);
        proof {
            assert(p@ =~= project_root(self@));
        }
        p
    }

    fn backend(&self) -> (p: PathSpec)
        ensures
            p@ == backend_dir(self@),
    {
        self.root().join("backend")
    }

    fn laravel(&self) -> (c: ProcessCommand)
        ensures
            c@ == laravel_command(self@),
    {
        let mut args: Vec<CommandArg> = Vec::new();
        args.push(CommandArg::Path(self.composer.duplicate()));
        args.push(text_arg("create-project"));
        args.push(text_arg("laravel/laravel"));
        args.push(CommandArg::Path(self.backend()));
        args.push(text_arg("--quiet"));
        let c = new_command(self.php_bin.duplicate(), args);
        proof {
            assert(c@.args =~= laravel_command(self@).args);
        }
        c
    }

    fn vite(&self) -> (c: ProcessCommand)
        ensures
            c@ == vite_command(self@),
    {
        let mut args: Vec<CommandArg> = Vec::new();
        args.push(text_arg("create"));
        args.push(text_arg("vite"));
        args.push(text_arg("frontend"));
        args.push(text_arg("--template"));
        args.push(text_arg("vue"));
        let mut c = new_command(self.bun_bin.duplicate(), args);
        c.current_dir = Some(self.root());
        proof {
            assert(c@.args =~= vite_command(self@).args);
        }
        c
    }

    fn vue_install(&self) -> (c: ProcessCommand)
        ensures
            c@ == vue_install_command(self@),
    {
        let mut args: Vec<CommandArg> = Vec::new();
        args.push(text_arg("install"));
        let mut c = new_command(self.bun_bin.duplicate(), args);
        c.current_dir = Some(self.root().join("frontend"));
        proof {
            assert(c@.args =~= vue_install_command(self@).args);
        }
        c
    }

    fn clean_begin(&mut self, notes: Vec<Notice>) -> (st: Step)
        requires
            create_wf(old(self)@),
        ensures
            (final(self)@, st@) == clean_begin(old(self)@, notice_views(notes@)),
            create_wf(final(self)@),
    {
        let mut notes = notes;
        let ghost before = notice_views(notes@);
        notes.push(Notice::CleaningBoilerplate);
        proof {
            assert(notice_views(notes@) =~= before.push(NoticeView::CleaningBoilerplate));
        }
        self.stage = CreateStage::AwaitCleanIsDir;
        self.clean_index = 0;
        Step { notes, op: Op::CheckIsDir(self.backend().join(boilerplate_item_exec(0))) }
    }

    fn clean_next(&mut self) -> (st: Step)
        requires
            create_wf(CreateView { stage: CreateStage::Start, ..old(self)@ }),
        ensures
            (final(self)@, st@) == clean_next(old(self)@),
            create_wf(final(self)@),
    {
        if self.clean_index < 5 {
            self.stage = CreateStage::AwaitCleanIsDir;
            quiet(Op::CheckIsDir(self.backend().join(boilerplate_item_exec(self.clean_index))))
        } else {
            self.stage = CreateStage::AwaitRoute;
            quiet(
                Op::WriteFile(
                    self.backend().join("routes/web.php"),
                    owned("<?php\n\nuse Illuminate\\Support\\Facades\\Route;\n\nRoute::get('/', fn() => ['status' => 'PConnect API Online']);"),
                    OnFailure::Ignore,
                ),
            )
        }
    }

    fn frontend_begin(&mut self, notes: Vec<Notice>) -> (st: Step)
        requires
            create_wf(old(self)@),
        ensures
            (final(self)@, st@) == frontend_begin(old(self)@, notice_views(notes@)),
            create_wf(final(self)@),
    {
        let mut notes = notes;
        let ghost before = notice_views(notes@);
        notes.push(Notice::GeneratingFrontend);
        proof {
            assert(notice_views(notes@) =~= before.push(NoticeView::GeneratingFrontend));
        }
        self.search = get_global_bin(&self.home, "bun", &self.bun_version, "bun.exe");
        let st = self.search.step(Outcome::Begin);
        self.stage = CreateStage::SearchBun;
        prepend_notes(notes, st)
    }

    fn env_begin(&mut self, notes: Vec<Notice>) -> (st: Step)
        ensures
            (final(self)@, st@) == env_begin(old(self)@, notice_views(notes@)),
    {
        self.stage = CreateStage::AwaitEnvCheck;
        Step { notes, op: Op::CheckExists(self.backend().join(".env")) }
    }

    fn finish(&mut self, notes: Vec<Notice>) -> (st: Step)
        ensures
            (final(self)@, st@) == create_finish(old(self)@, notice_views(notes@)),
    {
        let mut notes = notes;
        let ghost before = notice_views(notes@);
        notes.push(Notice::ProjectCreated(copy_string(&self.name)));
        proof {
            assert(notice_views(notes@) =~= before.push(NoticeView::ProjectCreated(self.name@)));
        }
        self.stage = CreateStage::Done;
        Step { notes, op: Op::Halt }
    }

    /// The next step, given the outcome of the last one.
    pub fn step(&mut self, ev: Outcome) -> (st: Step)
        requires
            create_wf(old(self)@),
        ensures
            (final(self)@, st@) == create_transition(old(self)@, ev@),
            create_wf(final(self)@),
    {
        match (self.stage, ev) {
            (CreateStage::Start, Outcome::Begin) => {
                self.stage = CreateStage::AwaitCwd;
                quiet(Op::CurrentDir)
            },
            (CreateStage::AwaitCwd, Outcome::Text(c)) => {
                self.cwd = c;
                self.stage = CreateStage::AwaitRootCheck;
                quiet(Op::CheckExists(self.root()))
            },
            (CreateStage::AwaitRootCheck, Outcome::Exists(present)) => {
                if present {
                    self.stage = CreateStage::Done;
                    noted(Notice::ProjectExists(copy_string(&self.name)), Op::Halt)
                } else {
                    self.stage = CreateStage::AwaitMkdir;
                    noted(
                        Notice::CreatingProject(copy_string(&self.name)),
                        Op::CreateDirAll(self.root(), abort_with("Falha ao criar pasta do projeto")),
                    )
                }
            },
            (CreateStage::AwaitMkdir, Outcome::Ack) => {
                self.stage = CreateStage::AwaitToml;
                quiet(
                    Op::WriteFile(
                        self.root().join("pconnect.cfg.toml"),
                        local_toml_exec(&self.lname),
                        abort_with("❌ Erro ao criar o arquivo pconnect.cfg.toml"),
                    ),
                )
            },
            (CreateStage::AwaitToml, Outcome::Ack) => {
                self.stage = CreateStage::AwaitHome;
                noted(
                    Notice::InstallingLaravel,
                    Op::ReadEnv(owned("USERPROFILE"), abort_with("USERPROFILE não encontrado")),
                )
            },
            (CreateStage::AwaitHome, Outcome::Text(h)) => {
                self.home = h;
                self.search = get_global_bin(&self.home, "php", &self.php_version, "php.exe");
                self.stage = CreateStage::SearchPhp;
                self.search.step(Outcome::Begin)
            },
            (CreateStage::SearchPhp, ev) => {
                let st = self.search.step(ev);
                if is_halt(&st.op) {
                    self.php_bin = self.search.result.duplicate();
                    self.search = get_global_bin(&self.home, "php", &self.php_version, "composer.phar");
                    self.stage = CreateStage::SearchComposer;
                    let st2 = self.search.step(Outcome::Begin);
                    prepend_notes(st.notes, st2)
                } else {
                    st
                }
            },
            (CreateStage::SearchComposer, ev) => {
                let st = self.search.step(ev);
                if is_halt(&st.op) {
                    self.composer = self.search.result.duplicate();
                    self.stage = CreateStage::AwaitPhpCheck;
                    Step { notes: st.notes, op: Op::CheckExists(self.php_bin.duplicate()) }
                } else {
                    st
                }
            },
            (CreateStage::AwaitPhpCheck, Outcome::Exists(found)) => {
                if found {
                    self.stage = CreateStage::AwaitComposerCheck;
                    quiet(Op::CheckExists(self.composer.duplicate()))
                } else {
                    let n = one_note(Notice::BinaryMissing(Service::Php, self.php_bin.duplicate()));
                    self.clean_begin(n)
                }
            },
            (CreateStage::AwaitComposerCheck, Outcome::Exists(found)) => {
                if found {
                    self.stage = CreateStage::AwaitComposerRun;
                    quiet(Op::Run(self.laravel(), RunMode::Status))
                } else {
                    self.clean_begin(one_note(Notice::ComposerMissing))
                }
            },
            (CreateStage::AwaitComposerRun, Outcome::Finished(r)) => {
                match r {
                    Err(e) => self.clean_begin(one_note(Notice::ComposerFailed(e))),
                    Ok(_) => self.clean_begin(no_notes()),
                }
            },
            (CreateStage::AwaitCleanIsDir, Outcome::Exists(is_dir)) => {
                let item = self.backend().join(boilerplate_item_exec(self.clean_index));
                self.stage = CreateStage::AwaitCleanRemove;
                if is_dir {
                    quiet(Op::RemoveDirAll(item, OnFailure::Ignore))
                } else {
                    quiet(Op::RemoveFile(item, OnFailure::Ignore))
                }
            },
            (CreateStage::AwaitCleanRemove, Outcome::Ack) => {
                self.clean_index = self.clean_index + 1;
                self.clean_next()
            },
            (CreateStage::AwaitRoute, Outcome::Ack) => self.frontend_begin(one_note(Notice::BackendSimplified)),
            (CreateStage::SearchBun, ev) => {
                let st = self.search.step(ev);
                if is_halt(&st.op) {
                    self.bun_bin = self.search.result.duplicate();
                    self.stage = CreateStage::AwaitVite;
                    Step { notes: st.notes, op: Op::Run(self.vite(), RunMode::Status) }
                } else {
                    st
                }
            },
            (CreateStage::AwaitVite, Outcome::Finished(r)) => {
                match r {
                    Err(e) => self.env_begin(one_note(Notice::BunFailed(e))),
                    Ok(_) => {
                        self.stage = CreateStage::AwaitVueInstall;
                        noted(Notice::InstallingVueDependencies, Op::Run(self.vue_install(), RunMode::Status))
                    },
                }
            },
            (CreateStage::AwaitVueInstall, Outcome::Finished(_)) => self.env_begin(no_notes()),
            (CreateStage::AwaitEnvCheck, Outcome::Exists(present)) => {
                if present {
                    self.stage = CreateStage::AwaitEnvRead;
                    noted(Notice::AdjustingEnv, Op::ReadFile(self.backend().join(".env"), OnFailure::Ignore))
                } else {
                    self.finish(one_note(Notice::EnvMissing))
                }
            },
            (CreateStage::AwaitEnvRead, Outcome::Text(t)) => {
                self.stage = CreateStage::AwaitEnvWrite;
                quiet(
                    Op::WriteFile(
                        self.backend().join(".env"),
                        env_content_exec(&t, &self.lname),
                        abort_with("Falha ao salvar .env"),
                    ),
                )
            },
            (CreateStage::AwaitEnvWrite, Outcome::Ack) => self.finish(no_notes()),
            _ => {
                self.stage = CreateStage::Done;
                quiet(Op::Halt)
            },
        }
    }
}

// ---------------------------------------------------------------------------
// Laws
// ---------------------------------------------------------------------------

/// A creation never touches an existing project: it looks for the project's
/// folder in the current directory first, and where the folder exists it
/// says so and creates nothing.
pub proof fn existing_project_untouched(s: CreateView, cwd: Seq<char>)
    requires
        s.stage == CreateStage::Start,
    ensures
        ({
            let (s1, st1) = create_transition(s, OutcomeView::Begin);
            let (s2, st2) = create_transition(s1, OutcomeView::Text(cwd));
            &&& st1.op == OpView::CurrentDir
            &&& st2.op == OpView::CheckExists(seq![cwd, s.name])
            &&& create_transition(s2, OutcomeView::Exists(true)).1
                == noted_view(NoticeView::ProjectExists(s.name), OpView::Halt)
            &&& create_transition(s2, OutcomeView::Exists(true)).0.stage == CreateStage::Done
        }),
{
}

/// Laravel lands in the project's backend folder, the folder that is cleaned
/// afterwards: once PHP and Composer are found, Composer's `create-project`
/// of `laravel/laravel` runs with `<current directory>/<name>/backend` as its
/// target, and however Composer ends, the cleaning of the boilerplate looks
/// into that same folder.
pub proof fn laravel_lands_in_backend(s: CreateView, r: Result<bool, Seq<char>>)
    requires
        s.stage == CreateStage::AwaitComposerCheck,
    ensures
        ({
            let backend = seq![s.cwd, s.name, "backend"@];
            let (s1, st1) = create_transition(s, OutcomeView::Exists(true));
            &&& st1.op == OpView::Run(
                CommandView {
                    program: s.php_bin,
                    args: seq![
                        ArgView::Path(s.composer),
                        ArgView::Text("create-project"@),
                        ArgView::Text("laravel/laravel"@),
                        ArgView::Path(backend),
                        ArgView::Text("--quiet"@),
                    ],
                    current_dir: None,
                    stdout: StdioMode::Inherit,
                    stderr: StdioMode::Inherit,
                    path_env: None,
                },
                RunMode::Status,
            )
            &&& create_transition(s1, OutcomeView::Finished(r)).1.op
                == OpView::CheckIsDir(backend.push(boilerplate_item(0)))
        }),
{
    assert(backend_dir(s) =~= seq![s.cwd, s.name, "backend"@]);
}

} // verus!
