//! Starting and stopping the frontend development server (Vue and Vite, run
//! by Bun). Missing dependencies are installed before the server starts.
use vstd::prelude::*;
use crate::effects::{
    ArgView, CommandArg, CommandView, FailureView, Notice, NoticeView, Op, OpView,
    Edition, Outcome, OutcomeView, PathSpec, ProcessCommand, RunMode, Service, Step, StepView, abort_with,
    command_in, new_command, noted, noted2, noted_view, quiet, quiet_view, text_arg,
};
use crate::text::{concat2, decimal, decimal_string, owned};
use crate::pid_stop::{pid_written, stop_after_reading, stop_initial, stop_service, taskkill_command, ServiceStop, StopStyle};
use crate::text::trim_keeps_decimal;
use crate::pconnect_tool::configs::pconnect_cfg::{GlobalConfig, ProjectConfig};
use crate::install_jobs::{bun_fix_rename, install_base, program_dir, program_name, BunFixView, Program};

verus! {

/// The pid file of the frontend server.
pub open spec fn bun_pid_file(edition: Edition) -> Seq<Seq<char>> {
    match edition {
        Edition::Classic => seq![".bun.pid"@],
        Edition::Current => seq![".pconnect_bun.pid"@],
    }
}

/// Where the installed Bun of `version` is, under the home directory. The
/// classic edition keeps the archive's own folder `bun-windows-x64`; the
/// current one moves Bun's files up into the version's folder when it
/// installs Bun, so `bun.exe` lies directly there.
pub open spec fn installed_bun(edition: Edition, home: Seq<char>, version: Seq<char>) -> Seq<Seq<char>> {
    match edition {
        Edition::Classic => seq![home, ".php-connects"@, "bun-"@ + version, "bun-windows-x64"@, "bun.exe"@],
        Edition::Current => seq![home, ".pconnect"@, "bun-"@ + version, "bun.exe"@],
    }
}

/// The Bun that runs the frontend: the installed one when the tool installs
/// Bun itself, else `bun` of the system.
pub open spec fn bun_program(edition: Edition, own: bool, home: Seq<char>, version: Seq<char>) -> Seq<Seq<char>> {
    if own {
        installed_bun(edition, home, version)
    } else {
        seq!["bun"@]
    }
}

/// `bun install`, run in the frontend directory.
pub open spec fn bun_install_command(bun: Seq<Seq<char>>, frontend: Seq<char>) -> CommandView {
    command_in(bun, seq![ArgView::Text("install"@)], seq![frontend])
}

/// `bun run dev --port <port>`, run in the frontend directory.
pub open spec fn bun_dev_command(bun: Seq<Seq<char>>, frontend: Seq<char>, port: u16) -> CommandView {
    command_in(
        bun,
        seq![
            ArgView::Text("run"@),
            ArgView::Text("dev"@),
            ArgView::Text("--port"@),
            ArgView::Text(decimal(port as nat)),
        ],
        seq![frontend],
    )
}

/// Where a start of the frontend stands.
#[derive(Clone, Copy, Debug, PartialEq, Eq, Structural)]
pub enum VueStage {
    Start,
    AwaitPidCheck,
    AwaitHome,
    AwaitBinCheck,
    AwaitModules,
    AwaitInstall,
    AwaitSpawn,
    AwaitPidWrite,
    Done,
}

/// A start of the frontend server.
pub struct VueRun {
    pub stage: VueStage,
    pub edition: Edition,
    /// Whether the tool uses the Bun it installed.
    pub own_bun: bool,
    pub version: String,
    pub frontend_dir: String,
    pub port: u16,
    pub home: String,
    pub pid: u32,
}

/// The view of a `VueRun`.
pub struct VueRunView {
    pub stage: VueStage,
    pub edition: Edition,
    pub own_bun: bool,
    pub version: Seq<char>,
    pub frontend_dir: Seq<char>,
    pub port: u16,
    pub home: Seq<char>,
    pub pid: u32,
}

impl View for VueRun {
    type V = VueRunView;

    open spec fn view(&self) -> VueRunView {
        VueRunView {
            stage: self.stage,
            edition: self.edition,
            own_bun: self.own_bun,
            version: self.version@,
            frontend_dir: self.frontend_dir@,
            port: self.port,
            home: self.home@,
            pid: self.pid,
        }
    }
}

/// The step that starts the development server, with `notes` shown first.
pub open spec fn vue_spawn_step(s: VueRunView, notes: Seq<NoticeView>) -> StepView {
    StepView {
        notes,
        op: OpView::Spawn(
            bun_dev_command(bun_program(s.edition, s.own_bun, s.home, s.version), s.frontend_dir, s.port),
        ),
    }
}

/// The step that checks for the frontend's dependencies.
pub open spec fn vue_modules_step(s: VueRunView) -> StepView {
    quiet_view(OpView::CheckExists(seq![s.frontend_dir, "node_modules"@]))
}

/// What a start of the frontend does next, given the outcome `ev` of its last
/// operation. An outcome that does not fit the stage ends it.
pub open spec fn vue_transition(s: VueRunView, ev: OutcomeView) -> (VueRunView, StepView) {
    let svc = Service::Frontend;
    let bun = bun_program(s.edition, s.own_bun, s.home, s.version);
    let done = VueRunView { stage: VueStage::Done, ..s };
    match (s.stage, ev) {
        (VueStage::Start, OutcomeView::Begin) => (
            VueRunView { stage: VueStage::AwaitPidCheck, ..s },
            quiet_view(OpView::CheckExists(bun_pid_file(s.edition))),
        ),
        (VueStage::AwaitPidCheck, OutcomeView::Exists(true)) => (
            done,
            noted_view(NoticeView::AlreadyRunning(svc), OpView::Halt),
        ),
        (VueStage::AwaitPidCheck, OutcomeView::Exists(false)) => if s.own_bun {
            (
                VueRunView { stage: VueStage::AwaitHome, ..s },
                quiet_view(
                    OpView::ReadEnv(
                        "USERPROFILE"@,
                        FailureView::Abort("❌ Erro: USERPROFILE não encontrado"@),
                    ),
                ),
            )
        } else {
            (VueRunView { stage: VueStage::AwaitModules, ..s }, vue_modules_step(s))
        },
        (VueStage::AwaitHome, OutcomeView::Text(h)) => (
            VueRunView { stage: VueStage::AwaitBinCheck, home: h, ..s },
            quiet_view(OpView::CheckExists(installed_bun(s.edition, h, s.version))),
        ),
        (VueStage::AwaitBinCheck, OutcomeView::Exists(false)) => (
            done,
            noted_view(NoticeView::BinaryMissing(svc, bun), OpView::Halt),
        ),
        (VueStage::AwaitBinCheck, OutcomeView::Exists(true)) => (
            VueRunView { stage: VueStage::AwaitModules, ..s },
            vue_modules_step(s),
        ),
        (VueStage::AwaitModules, OutcomeView::Exists(true)) => (
            VueRunView { stage: VueStage::AwaitSpawn, ..s },
            vue_spawn_step(s, seq![NoticeView::Starting(svc, s.port)]),
        ),
        (VueStage::AwaitModules, OutcomeView::Exists(false)) => (
            VueRunView { stage: VueStage::AwaitInstall, ..s },
            noted_view(
                NoticeView::InstallingDependencies(s.frontend_dir),
                OpView::Run(bun_install_command(bun, s.frontend_dir), RunMode::Status),
            ),
        ),
        (VueStage::AwaitInstall, OutcomeView::Finished(Ok(true))) => (
            VueRunView { stage: VueStage::AwaitSpawn, ..s },
            vue_spawn_step(
                s,
                if s.edition == Edition::Current {
                    seq![NoticeView::DependenciesInstalled, NoticeView::Starting(svc, s.port)]
                } else {
                    seq![NoticeView::Starting(svc, s.port)]
                },
            ),
        ),
        (VueStage::AwaitInstall, OutcomeView::Finished(Ok(false))) => (
            done,
            noted_view(NoticeView::DependenciesFailed, OpView::Halt),
        ),
        (VueStage::AwaitInstall, OutcomeView::Finished(Err(e))) => if s.edition == Edition::Current {
            (done, noted_view(NoticeView::DependenciesFailed, OpView::Halt))
        } else {
            (done, quiet_view(OpView::Abort("Falha ao executar bun install: "@ + e)))
        },
        (VueStage::AwaitSpawn, OutcomeView::Spawned(Err(e))) => (
            done,
            noted_view(NoticeView::StartFailed(svc, e), OpView::Halt),
        ),
        (VueStage::AwaitSpawn, OutcomeView::Spawned(Ok(pid))) => (
            VueRunView { stage: VueStage::AwaitPidWrite, pid, ..s },
            quiet_view(
                OpView::WriteFile(
                    bun_pid_file(s.edition),
                    decimal(pid as nat),
                    FailureView::Abort("Não foi possível salvar o PID do Bun"@),
                ),
            ),
        ),
        (VueStage::AwaitPidWrite, OutcomeView::Ack) => (
            done,
            noted_view(NoticeView::Started(svc, s.pid), OpView::Halt),
        ),
        _ => (done, quiet_view(OpView::Halt)),
    }
}

fn pid_file(edition: Edition) -> (p: PathSpec)
    ensures
        p@ == bun_pid_file(edition),
{
    match edition {
        Edition::Classic => PathSpec::single(".bun.pid"),
        Edition::Current => PathSpec::single(".pconnect_bun.pid"),
    }
}

/// Where the installed Bun of `version` is, given the home directory.
pub fn installed_bun_path(edition: Edition, home: &str, version: &str) -> (p: PathSpec)
    ensures
        p@ == installed_bun(edition, home@, version@),
{
    let p = match edition {
        Edition::Classic => PathSpec::single(home)
            .join(".php-connects")
            .join_string(concat2("bun-", version))
            .join("bun-windows-x64")
            .join("bun.exe"),
        Edition::Current => PathSpec::single(home)
            .join(".pconnect")
            .join_string(concat2("bun-", version))
            .join("bun.exe"),
    };
    proof {
        assert(p@ =~= installed_bun(edition, home@, version@));
    }
    p
}

/// The Bun of the current generation: `bun` of the system when the tool does
/// not install Bun, else the installed one under `home`.
pub fn get_bun_executable(global: &GlobalConfig, home: &str) -> (p: PathSpec)
    ensures
        p@ == bun_program(Edition::Current, global.installations.bun_install, home@, global.versions.bun_version@),
{
    if !global.installations.bun_install {
        return PathSpec::single("bun");
    }
    installed_bun_path(Edition::Current, home, &global.versions.bun_version)
}

fn copy_string(s: &String) -> (r: String)
    ensures
        r@ == s@,
{
    s.clone()
}

impl VueRun {
    fn bun(&self) -> (p: PathSpec)
        ensures
            p@ == bun_program(self.edition, self.own_bun, self.home@, self.version@),
    {
        if self.own_bun {
            installed_bun_path(self.edition, &self.home, &self.version)
        } else {
            PathSpec::single("bun")
        }
    }

    fn frontend(&self) -> (p: PathSpec)
        ensures
            p@ == seq![self.frontend_dir@],
    {
        PathSpec::single(&self.frontend_dir)
    }

    fn dev_command(&self) -> (c: ProcessCommand)
        ensures
            c@ == bun_dev_command(
                bun_program(self.edition, self.own_bun, self.home@, self.version@),
                self.frontend_dir@,
                self.port,
            ),
    {
        let mut args: Vec<CommandArg> = Vec::new();
        args.push(text_arg("run"));
        args.push(text_arg("dev"));
        args.push(text_arg("--port"));
        args.push(CommandArg::Text(decimal_string(self.port as u32)));
        let mut c = new_command(self.bun(), args);
        c.current_dir = Some(self.frontend());
        proof {
            assert(c@.args =~= bun_dev_command(
                bun_program(self.edition, self.own_bun, self.home@, self.version@),
                self.frontend_dir@,
                self.port,
            ).args);
        }
        c
    }

    fn install_command(&self) -> (c: ProcessCommand)
        ensures
            c@ == bun_install_command(
                bun_program(self.edition, self.own_bun, self.home@, self.version@),
                self.frontend_dir@,
            ),
    {
        let mut args: Vec<CommandArg> = Vec::new();
        args.push(text_arg("install"));
        let mut c = new_command(self.bun(), args);
        c.current_dir = Some(self.frontend());
        proof {
            assert(c@.args =~= seq![ArgView::Text("install"@)]);
        }
        c
    }

    fn modules_check(&self) -> (s: Step)
        ensures
            s@ == vue_modules_step(self@),
    {
        let p = self.frontend().join("node_modules");
        proof {
            assert(p@ =~= seq![self.frontend_dir@, "node_modules"@]);
        }
        quiet(Op::CheckExists(p))
    }

    /// The next step, given the outcome of the last one.
    pub fn step(&mut self, ev: Outcome) -> (s: Step)
        ensures
            (final(self)@, s@) == vue_transition(old(self)@, ev@),
    {
        let svc = Service::Frontend;
        match (self.stage, ev) {
            (VueStage::Start, Outcome::Begin) => {
                self.stage = VueStage::AwaitPidCheck;
                quiet(Op::CheckExists(pid_file(self.edition)))
            },
            (VueStage::AwaitPidCheck, Outcome::Exists(running)) => {
                if running {
                    self.stage = VueStage::Done;
                    noted(Notice::AlreadyRunning(svc), Op::Halt)
                } else if self.own_bun {
                    self.stage = VueStage::AwaitHome;
                    quiet(Op::ReadEnv(owned("USERPROFILE"), abort_with("❌ Erro: USERPROFILE não encontrado")))
                } else {
                    self.stage = VueStage::AwaitModules;
                    self.modules_check()
                }
            },
            (VueStage::AwaitHome, Outcome::Text(h)) => {
                self.home = h;
                self.stage = VueStage::AwaitBinCheck;
                quiet(Op::CheckExists(installed_bun_path(self.edition, &self.home, &self.version)))
            },
            (VueStage::AwaitBinCheck, Outcome::Exists(found)) => {
                if found {
                    self.stage = VueStage::AwaitModules;
                    self.modules_check()
                } else {
                    self.stage = VueStage::Done;
                    noted(Notice::BinaryMissing(svc, self.bun()), Op::Halt)
                }
            },
            (VueStage::AwaitModules, Outcome::Exists(present)) => {
                if present {
                    self.stage = VueStage::AwaitSpawn;
                    noted(Notice::Starting(svc, self.port), Op::Spawn(self.dev_command()))
                } else {
                    self.stage = VueStage::AwaitInstall;
                    noted(
                        Notice::InstallingDependencies(copy_string(&self.frontend_dir)),
                        Op::Run(self.install_command(), RunMode::Status),
                    )
                }
            },
            (VueStage::AwaitInstall, Outcome::Finished(r)) => {
                match r {
                    Ok(true) => {
                        self.stage = VueStage::AwaitSpawn;
                        if self.edition == Edition::Current {
                            noted2(
                                Notice::DependenciesInstalled,
                                Notice::Starting(svc, self.port),
                                Op::Spawn(self.dev_command()),
                            )
                        } else {
                            noted(Notice::Starting(svc, self.port), Op::Spawn(self.dev_command()))
                        }
                    },
                    Ok(false) => {
                        self.stage = VueStage::Done;
                        noted(Notice::DependenciesFailed, Op::Halt)
                    },
                    Err(e) => {
                        self.stage = VueStage::Done;
                        if self.edition == Edition::Current {
                            noted(Notice::DependenciesFailed, Op::Halt)
                        } else {
                            quiet(Op::Abort(concat2("Falha ao executar bun install: ", &e)))
                        }
                    },
                }
            },
            (VueStage::AwaitSpawn, Outcome::Spawned(r)) => {
                match r {
                    Err(e) => {
                        self.stage = VueStage::Done;
                        noted(Notice::StartFailed(svc, e), Op::Halt)
                    },
                    Ok(pid) => {
                        self.pid = pid;
                        self.stage = VueStage::AwaitPidWrite;
                        quiet(
                            Op::WriteFile(
                                pid_file(self.edition),
                                decimal_string(pid),
                                abort_with("Não foi possível salvar o PID do Bun"),
                            ),
                        )
                    },
                }
            },
            (VueStage::AwaitPidWrite, Outcome::Ack) => {
                self.stage = VueStage::Done;
                noted(Notice::Started(svc, self.pid), Op::Halt)
            },
            _ => {
                self.stage = VueStage::Done;
                quiet(Op::Halt)
            },
        }
    }
}

/// A start of the frontend server before its first step.
pub fn frontend_run(edition: Edition, own_bun: bool, version: &str, frontend_dir: &str, port: u16) -> (m: VueRun)
    ensures
        m@ == (VueRunView {
            stage: VueStage::Start,
            edition,
            own_bun,
            version: version@,
            frontend_dir: frontend_dir@,
            port,
            home: seq![],
            pid: 0,
        }),
{
    VueRun {
        stage: VueStage::Start,
        edition,
        own_bun,
        version: owned(version),
        frontend_dir: owned(frontend_dir),
        port,
        home: String::new(),
        pid: 0,
    }
}

/// A start of the frontend server of the current generation, before its
/// first step: the project's frontend directory and `vue_port`, and the Bun
/// version and installation choice of the global configuration.
pub fn run_vue(project: &ProjectConfig, global: &GlobalConfig) -> (m: VueRun)
    ensures
        m@ == (VueRunView {
            stage: VueStage::Start,
            edition: Edition::Current,
            own_bun: global.installations.bun_install,
            version: global.versions.bun_version@,
            frontend_dir: project.paths.frontend_dir@,
            port: project.ports.vue_port,
            home: seq![],
            pid: 0,
        }),
{
    VueRun {
        stage: VueStage::Start,
        edition: Edition::Current,
        own_bun: global.installations.bun_install,
        version: copy_string(&global.versions.bun_version),
        frontend_dir: copy_string(&project.paths.frontend_dir),
        port: project.ports.vue_port,
        home: String::new(),
        pid: 0,
    }
}

/// A stop of the frontend server of the given generation.
pub fn stop_frontend(edition: Edition) -> (m: ServiceStop)
    ensures
        m@ == stop_initial(Service::Frontend, bun_pid_file(edition), StopStyle::Quiet),
{
    stop_service(Service::Frontend, pid_file(edition), StopStyle::Quiet)
}

/// A stop of the frontend server of the current generation.
pub fn stop_vue() -> (m: ServiceStop)
    ensures
        m@ == stop_initial(Service::Frontend, bun_pid_file(Edition::Current), StopStyle::Quiet),
{
    stop_frontend(Edition::Current)
}

// ---------------------------------------------------------------------------
// Laws
// ---------------------------------------------------------------------------

/// A start of the frontend first looks for the pid file; where it exists the
/// frontend runs already, and the start says so and does nothing more.
pub proof fn vue_running_server_not_restarted(s: VueRunView)
    requires
        s.stage == VueStage::Start,
    ensures
        ({
            let (s1, st1) = vue_transition(s, OutcomeView::Begin);
            &&& st1.op == OpView::CheckExists(bun_pid_file(s.edition))
            &&& vue_transition(s1, OutcomeView::Exists(true)) == (
                VueRunView { stage: VueStage::Done, ..s },
                noted_view(NoticeView::AlreadyRunning(Service::Frontend), OpView::Halt),
            )
        }),
{
}

/// The started server's process id is written to the pid file, and the stop
/// that reads that file back kills that very process.
pub proof fn vue_stop_ends_started_server(s: VueRunView, pid: u32)
    requires
        s.stage == VueStage::AwaitSpawn,
    ensures
        pid_written(vue_transition(s, OutcomeView::Spawned(Ok(pid))).1.op, bun_pid_file(s.edition), decimal(pid as nat)),
        stop_after_reading(Service::Frontend, bun_pid_file(s.edition), StopStyle::Quiet, decimal(pid as nat)).1.op
            == OpView::Run(taskkill_command(decimal(pid as nat)), RunMode::Output),
{
    trim_keeps_decimal(pid as nat);
}

/// The current edition finds Bun where installing it puts it: when the
/// moving of Bun's files (in the version's folder of the installation
/// folder) moves `bun.exe` up, it moves it to the very path of the installed
/// Bun that the frontend runs.
pub proof fn installed_bun_is_where_the_move_puts_it(s: BunFixView, home: Seq<char>, version: Seq<char>)
    requires
        s.dir == program_dir(install_base(Edition::Current, home), Program::Bun, version),
        0 <= s.sub_index < s.subs.len(),
        s.subs[s.sub_index] == "bun.exe"@,
    ensures
        bun_fix_rename(s).op matches OpView::Rename(_, to, _) && to == installed_bun(Edition::Current, home, version),
{
    reveal_strlit("bun");
    reveal_strlit("-");
    reveal_strlit("bun-");
    assert(program_name(Program::Bun) + "-"@ + version =~= "bun-"@ + version);
    assert(s.dir.push("bun.exe"@) =~= installed_bun(Edition::Current, home, version));
}

/// The frontend runs in its own folder, where its dependencies are: the dev
/// server (`bun run dev --port <port>`) is started with the configured
/// frontend folder as its working directory, whether the dependencies were
/// there already or were first installed by `bun install`, which runs in
/// that same folder with the same Bun.
pub proof fn frontend_runs_in_its_folder(s: VueRunView)
    requires
        s.stage == VueStage::AwaitModules,
    ensures
        ({
            let bun = bun_program(s.edition, s.own_bun, s.home, s.version);
            let dev = seq![
                ArgView::Text("run"@),
                ArgView::Text("dev"@),
                ArgView::Text("--port"@),
                ArgView::Text(decimal(s.port as nat)),
            ];
            let (s1, st1) = vue_transition(s, OutcomeView::Exists(false));
            &&& vue_transition(s, OutcomeView::Exists(true)).1.op matches OpView::Spawn(c)
                && c.program == bun && c.args == dev && c.current_dir == Some(seq![s.frontend_dir])
            &&& st1.op matches OpView::Run(c, RunMode::Status)
                && c.program == bun && c.args == seq![ArgView::Text("install"@)]
                && c.current_dir == Some(seq![s.frontend_dir])
            &&& vue_transition(s1, OutcomeView::Finished(Ok(true))).1.op matches OpView::Spawn(c)
                && c.program == bun && c.args == dev && c.current_dir == Some(seq![s.frontend_dir])
        }),
{
}

} // verus!
