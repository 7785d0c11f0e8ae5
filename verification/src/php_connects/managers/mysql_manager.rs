//! Starting and stopping the project's MySQL server. Its data lives in
//! `.cache/mysql` under the project directory; the first run initializes it
//! and, once the server is up, sets the root password and creates the
//! project database.
use vstd::prelude::*;
use crate::effects::{
    ArgView, CommandArg, CommandView, FailureView, Notice, NoticeView, OnFailure, Op, OpView,
    Outcome, OutcomeView, PathSpec, ProcessCommand, RunMode, Service, StdioMode, Step, StepView,
    abort_with, new_command, noted, noted2, noted_view, plain_command, quiet, quiet_view, text_arg,
};
use crate::text::{concat2, decimal, decimal_string, owned};
use crate::pid_stop::{stop_after_reading, stop_initial, stop_service, taskkill_command, ServiceStop, StopStyle};
use crate::text::trim_keeps_decimal;
use crate::php_connects::configs::php_connects_cfg::Config;

verus! {

/// The file that holds the process id of the running server.
pub open spec fn mysql_pid_file() -> Seq<Seq<char>> {
    seq![".pconnect_mysql.pid"@]
}

/// The folder of MySQL's programs: the installed MySQL's `bin` where the
/// tool installs MySQL, else nothing (the system's programs are used).
pub open spec fn mysql_bin_dir(own: bool, home: Seq<char>, version: Seq<char>) -> Seq<Seq<char>> {
    if own {
        seq![home, ".php-connects"@, "mysql-"@ + version, "bin"@]
    } else {
        seq![]
    }
}

/// The server program.
pub open spec fn mysqld_program(own: bool, home: Seq<char>, version: Seq<char>) -> Seq<Seq<char>> {
    mysql_bin_dir(own, home, version).push("mysqld.exe"@)
}

/// The client program, beside the server program.
pub open spec fn mysql_client_program(own: bool, home: Seq<char>, version: Seq<char>) -> Seq<Seq<char>> {
    mysql_bin_dir(own, home, version).push("mysql.exe"@)
}

/// The project's data directory under the directory `cwd`.
pub open spec fn mysql_data_dir(cwd: Seq<char>) -> Seq<Seq<char>> {
    seq![cwd, ".cache"@, "mysql"@]
}

/// The command that initializes the data directory, root without password.
pub open spec fn mysql_init_command(bin: Seq<Seq<char>>, data: Seq<Seq<char>>) -> CommandView {
    plain_command(bin, seq![ArgView::Text("--initialize-insecure"@), ArgView::Prefixed("--datadir="@, data)])
}

/// The command that starts the server on `port`, its output discarded.
pub open spec fn mysql_server_command(bin: Seq<Seq<char>>, data: Seq<Seq<char>>, port: u16) -> CommandView {
    CommandView {
        stdout: StdioMode::Null,
        ..plain_command(
            bin,
            seq![
                ArgView::Prefixed("--datadir="@, data),
                ArgView::Text("--port="@ + decimal(port as nat)),
                ArgView::Text("--console"@),
            ],
        )
    }
}

/// The SQL that sets root's password and creates the database.
pub open spec fn mysql_setup_sql(pass: Seq<char>, db: Seq<char>) -> Seq<char> {
    "ALTER USER 'root'@'localhost' IDENTIFIED BY '"@ + pass + "'; CREATE DATABASE IF NOT EXISTS "@ + db
        + "; FLUSH PRIVILEGES;"@
}

/// The client command that runs `mysql_setup_sql`.
pub open spec fn mysql_client_command(client: Seq<Seq<char>>, port: u16, pass: Seq<char>, db: Seq<char>) -> CommandView {
    plain_command(
        client,
        seq![
            ArgView::Text("--port"@),
            ArgView::Text(decimal(port as nat)),
            ArgView::Text("-u"@),
            ArgView::Text("root"@),
            ArgView::Text("--skip-password"@),
            ArgView::Text("-e"@),
            ArgView::Text(mysql_setup_sql(pass, db)),
        ],
    )
}

/// Where a start of the server stands.
#[derive(Clone, Copy, Debug, PartialEq, Eq, Structural)]
pub enum MySqlStage {
    Start,
    AwaitPidCheck,
    AwaitHome,
    AwaitCwd,
    AwaitDataCheck,
    AwaitExeCheck,
    AwaitCreateDir,
    AwaitInit,
    AwaitSpawn,
    AwaitPidWrite,
    AwaitSleep,
    AwaitSetup,
    Done,
}

/// A start of the server.
pub struct MySqlRun {
    pub stage: MySqlStage,
    /// Whether the tool uses the MySQL it installed.
    pub own: bool,
    pub version: String,
    pub port: u16,
    pub db: String,
    pub pass: String,
    pub home: String,
    pub cwd: String,
    pub first_run: bool,
    pub pid: u32,
}

/// The view of a `MySqlRun`.
pub struct MySqlView {
    pub stage: MySqlStage,
    pub own: bool,
    pub version: Seq<char>,
    pub port: u16,
    pub db: Seq<char>,
    pub pass: Seq<char>,
    pub home: Seq<char>,
    pub cwd: Seq<char>,
    pub first_run: bool,
    pub pid: u32,
}

impl View for MySqlRun {
    type V = MySqlView;

    open spec fn view(&self) -> MySqlView {
        MySqlView {
            stage: self.stage,
            own: self.own,
            version: self.version@,
            port: self.port,
            db: self.db@,
            pass: self.pass@,
            home: self.home@,
            cwd: self.cwd@,
            first_run: self.first_run,
            pid: self.pid,
        }
    }
}

/// The server is started: on a first run after initializing the data
/// directory, else at once.
pub open spec fn mysql_proceed(s: MySqlView) -> (MySqlView, StepView) {
    let bin = mysqld_program(s.own, s.home, s.version);
    let data = mysql_data_dir(s.cwd);
    if s.first_run {
        (
            MySqlView { stage: MySqlStage::AwaitCreateDir, ..s },
            noted_view(NoticeView::InitializingData(Service::MySql), OpView::CreateDirAll(data, FailureView::Unwrap)),
        )
    } else {
        (
            MySqlView { stage: MySqlStage::AwaitSpawn, ..s },
            noted_view(NoticeView::Starting(Service::MySql, s.port), OpView::Spawn(mysql_server_command(bin, data, s.port))),
        )
    }
}

/// What a start of the server does next, given the outcome `ev` of its last
/// operation. An outcome that does not fit the stage ends it.
pub open spec fn mysql_transition(s: MySqlView, ev: OutcomeView) -> (MySqlView, StepView) {
    let svc = Service::MySql;
    let bin = mysqld_program(s.own, s.home, s.version);
    let data = mysql_data_dir(s.cwd);
    let done = MySqlView { stage: MySqlStage::Done, ..s };
    match (s.stage, ev) {
        (MySqlStage::Start, OutcomeView::Begin) => (
            MySqlView { stage: MySqlStage::AwaitPidCheck, ..s },
            quiet_view(OpView::CheckExists(mysql_pid_file())),
        ),
        (MySqlStage::AwaitPidCheck, OutcomeView::Exists(true)) => (
            done,
            noted_view(NoticeView::AlreadyRunning(svc), OpView::Halt),
        ),
        (MySqlStage::AwaitPidCheck, OutcomeView::Exists(false)) => if s.own {
            (
                MySqlView { stage: MySqlStage::AwaitHome, ..s },
                quiet_view(OpView::ReadEnv("USERPROFILE"@, FailureView::Abort("❌ Erro: USERPROFILE não encontrado"@))),
            )
        } else {
            (MySqlView { stage: MySqlStage::AwaitCwd, ..s }, quiet_view(OpView::CurrentDir))
        },
        (MySqlStage::AwaitHome, OutcomeView::Text(h)) => (
            MySqlView { stage: MySqlStage::AwaitCwd, home: h, ..s },
            quiet_view(OpView::CurrentDir),
        ),
        (MySqlStage::AwaitCwd, OutcomeView::Text(c)) => (
            MySqlView { stage: MySqlStage::AwaitDataCheck, cwd: c, ..s },
            quiet_view(OpView::CheckExists(mysql_data_dir(c))),
        ),
        (MySqlStage::AwaitDataCheck, OutcomeView::Exists(d)) => {
            let s1 = MySqlView { first_run: !d, ..s };
            if s.own {
                (MySqlView { stage: MySqlStage::AwaitExeCheck, ..s1 }, quiet_view(OpView::CheckExists(bin)))
            } else {
                mysql_proceed(s1)
            }
        },
        (MySqlStage::AwaitExeCheck, OutcomeView::Exists(false)) => (
            done,
            noted_view(NoticeView::BinaryMissing(svc, bin), OpView::Halt),
        ),
        (MySqlStage::AwaitExeCheck, OutcomeView::Exists(true)) => mysql_proceed(s),
        (MySqlStage::AwaitCreateDir, OutcomeView::Ack) => (
            MySqlView { stage: MySqlStage::AwaitInit, ..s },
            quiet_view(OpView::Run(mysql_init_command(bin, data), RunMode::Output)),
        ),
        (MySqlStage::AwaitInit, OutcomeView::Finished(Err(e))) => (
            done,
            noted_view(NoticeView::InitFailed(svc, e), OpView::Halt),
        ),
        (MySqlStage::AwaitInit, OutcomeView::Finished(Ok(_))) => (
            MySqlView { stage: MySqlStage::AwaitSpawn, ..s },
            noted_view(NoticeView::Starting(svc, s.port), OpView::Spawn(mysql_server_command(bin, data, s.port))),
        ),
        (MySqlStage::AwaitSpawn, OutcomeView::Spawned(Err(e))) => (
            done,
            noted_view(NoticeView::StartFailed(svc, e), OpView::Halt),
        ),
        (MySqlStage::AwaitSpawn, OutcomeView::Spawned(Ok(pid))) => (
            MySqlView { stage: MySqlStage::AwaitPidWrite, pid, ..s },
            quiet_view(OpView::WriteFile(mysql_pid_file(), decimal(pid as nat), FailureView::Ignore)),
        ),
        (MySqlStage::AwaitPidWrite, OutcomeView::Ack) => if s.first_run {
            (
                MySqlView { stage: MySqlStage::AwaitSleep, ..s },
                StepView {
                    notes: seq![NoticeView::Started(svc, s.pid), NoticeView::CreatingDatabase(svc, s.db)],
                    op: OpView::Sleep(5),
                },
            )
        } else {
            (done, noted_view(NoticeView::Started(svc, s.pid), OpView::Halt))
        },
        (MySqlStage::AwaitSleep, OutcomeView::Ack) => (
            MySqlView { stage: MySqlStage::AwaitSetup, ..s },
            quiet_view(
                OpView::Run(
                    mysql_client_command(mysql_client_program(s.own, s.home, s.version), s.port, s.pass, s.db),
                    RunMode::Status,
                ),
            ),
        ),
        (MySqlStage::AwaitSetup, OutcomeView::Finished(_)) => (
            done,
            noted_view(NoticeView::DatabaseReady(svc, s.db), OpView::Halt),
        ),
        _ => (done, quiet_view(OpView::Halt)),
    }
}

fn pid_file() -> (p: PathSpec)
    ensures
        p@ == mysql_pid_file(),
{
    PathSpec::single(".pconnect_mysql.pid")
}

fn copy_string(s: &String) -> (r: String)
    ensures
        r@ == s@,
{
    s.clone()
}

/// The folder of MySQL's programs.
pub fn get_mysql_bin_dir(own: bool, home: &str, version: &str) -> (p: PathSpec)
    ensures
        p@ == mysql_bin_dir(own, home@, version@),
{
    let p = if own {
        PathSpec::single(home).join(".php-connects").join_string(concat2("mysql-", version)).join("bin")
    } else {
        PathSpec { segments: Vec::new() }
    };
    proof {
        assert(p@ =~= mysql_bin_dir(own, home@, version@));
    }
    p
}

/// The MySQL server program: `mysqld.exe` of the system unless the tool
/// installs MySQL, else the installed one under `home`.
pub fn get_mysql_bin(own: bool, home: &str, version: &str) -> (p: PathSpec)
    ensures
        p@ == mysqld_program(own, home@, version@),
{
    get_mysql_bin_dir(own, home, version).join("mysqld.exe")
}

/// The SQL that sets root's password and creates the database `db`.
pub fn mysql_setup_sql_exec(pass: &str, db: &str) -> (s: String)
    ensures
        s@ == mysql_setup_sql(pass@, db@),
{
    let mut s = owned("ALTER USER 'root'@'localhost' IDENTIFIED BY '");
    s.append(pass);
    s.append("'; CREATE DATABASE IF NOT EXISTS ");
    s.append(db);
    s.append("; FLUSH PRIVILEGES;");
    s
}

impl MySqlRun {
    fn bin(&self) -> (p: PathSpec)
        ensures
            p@ == mysqld_program(self.own, self.home@, self.version@),
    {
        get_mysql_bin(self.own, &self.home, &self.version)
    }

    fn data(&self) -> (p: PathSpec)
        ensures
            p@ == mysql_data_dir(self.cwd@),
    {
        let p = PathSpec::single(&self.cwd).join(".cache").join("mysql");
        proof {
            assert(p@ =~= mysql_data_dir(self.cwd@));
        }
        p
    }

    fn server(&self) -> (c: ProcessCommand)
        ensures
            c@ == mysql_server_command(mysqld_program(self.own, self.home@, self.version@), mysql_data_dir(self.cwd@), self.port),
    {
        let mut args: Vec<CommandArg> = Vec::new();
        args.push(CommandArg::Prefixed(owned("--datadir="), self.data()));
        args.push(CommandArg::Text(concat2("--port=", &decimal_string(self.port as u32))));
        args.push(text_arg("--console"));
        let mut c = new_command(self.bin(), args);
        c.stdout = StdioMode::Null;
        proof {
            assert(c@.args =~= mysql_server_command(mysqld_program(self.own, self.home@, self.version@), mysql_data_dir(self.cwd@), self.port).args);
        }
        c
    }

    fn init(&self) -> (c: ProcessCommand)
        ensures
            c@ == mysql_init_command(mysqld_program(self.own, self.home@, self.version@), mysql_data_dir(self.cwd@)),
    {
        let mut args: Vec<CommandArg> = Vec::new();
        args.push(text_arg("--initialize-insecure"));
        args.push(CommandArg::Prefixed(owned("--datadir="), self.data()));
        let c = new_command(self.bin(), args);
        proof {
            assert(c@.args =~= mysql_init_command(mysqld_program(self.own, self.home@, self.version@), mysql_data_dir(self.cwd@)).args);
        }
        c
    }

    fn client(&self) -> (c: ProcessCommand)
        ensures
            c@ == mysql_client_command(mysql_client_program(self.own, self.home@, self.version@), self.port, self.pass@, self.db@),
    {
        let mut args: Vec<CommandArg> = Vec::new();
        args.push(text_arg("--port"));
        args.push(CommandArg::Text(decimal_string(self.port as u32)));
        args.push(text_arg("-u"));
        args.push(text_arg("root"));
        args.push(text_arg("--skip-password"));
        args.push(text_arg("-e"));
        args.push(CommandArg::Text(mysql_setup_sql_exec(&self.pass, &self.db)));
        let c = new_command(get_mysql_bin_dir(self.own, &self.home, &self.version).join("mysql.exe"), args);
        proof {
            assert(c@.args =~= mysql_client_command(mysql_client_program(self.own, self.home@, self.version@), self.port, self.pass@, self.db@).args);
        }
        c
    }

    fn proceed(&mut self) -> (st: Step)
        ensures
            (final(self)@, st@) == mysql_proceed(old(self)@),
    {
        if self.first_run {
            self.stage = MySqlStage::AwaitCreateDir;
            noted(Notice::InitializingData(Service::MySql), Op::CreateDirAll(self.data(), OnFailure::Unwrap))
        } else {
            self.stage = MySqlStage::AwaitSpawn;
            noted(Notice::Starting(Service::MySql, self.port), Op::Spawn(self.server()))
        }
    }

    /// The next step, given the outcome of the last one.
    pub fn step(&mut self, ev: Outcome) -> (st: Step)
        ensures
            (final(self)@, st@) == mysql_transition(old(self)@, ev@),
    {
        let svc = Service::MySql;
        match (self.stage, ev) {
            (MySqlStage::Start, Outcome::Begin) => {
                self.stage = MySqlStage::AwaitPidCheck;
                quiet(Op::CheckExists(pid_file()))
            },
            (MySqlStage::AwaitPidCheck, Outcome::Exists(running)) => {
                if running {
                    self.stage = MySqlStage::Done;
                    noted(Notice::AlreadyRunning(svc), Op::Halt)
                } else if self.own {
                    self.stage = MySqlStage::AwaitHome;
                    quiet(Op::ReadEnv(owned("USERPROFILE"), abort_with("❌ Erro: USERPROFILE não encontrado")))
                } else {
                    self.stage = MySqlStage::AwaitCwd;
                    quiet(Op::CurrentDir)
                }
            },
            (MySqlStage::AwaitHome, Outcome::Text(h)) => {
                self.home = h;
                self.stage = MySqlStage::AwaitCwd;
                quiet(Op::CurrentDir)
            },
            (MySqlStage::AwaitCwd, Outcome::Text(c)) => {
                self.cwd = c;
                self.stage = MySqlStage::AwaitDataCheck;
                quiet(Op::CheckExists(self.data()))
            },
            (MySqlStage::AwaitDataCheck, Outcome::Exists(d)) => {
                self.first_run = !d;
                if self.own {
                    self.stage = MySqlStage::AwaitExeCheck;
                    quiet(Op::CheckExists(self.bin()))
                } else {
                    self.proceed()
                }
            },
            (MySqlStage::AwaitExeCheck, Outcome::Exists(found)) => {
                if found {
                    self.proceed()
                } else {
                    self.stage = MySqlStage::Done;
                    noted(Notice::BinaryMissing(svc, self.bin()), Op::Halt)
                }
            },
            (MySqlStage::AwaitCreateDir, Outcome::Ack) => {
                self.stage = MySqlStage::AwaitInit;
                quiet(Op::Run(self.init(), RunMode::Output))
            },
            (MySqlStage::AwaitInit, Outcome::Finished(r)) => {
                match r {
                    Err(e) => {
                        self.stage = MySqlStage::Done;
                        noted(Notice::InitFailed(svc, e), Op::Halt)
                    },
                    Ok(_) => {
                        self.stage = MySqlStage::AwaitSpawn;
                        noted(Notice::Starting(svc, self.port), Op::Spawn(self.server()))
                    },
                }
            },
            (MySqlStage::AwaitSpawn, Outcome::Spawned(r)) => {
                match r {
                    Err(e) => {
                        self.stage = MySqlStage::Done;
                        noted(Notice::StartFailed(svc, e), Op::Halt)
                    },
                    Ok(pid) => {
                        self.pid = pid;
                        self.stage = MySqlStage::AwaitPidWrite;
                        quiet(Op::WriteFile(pid_file(), decimal_string(pid), OnFailure::Ignore))
                    },
                }
            },
            (MySqlStage::AwaitPidWrite, Outcome::Ack) => {
                if self.first_run {
                    self.stage = MySqlStage::AwaitSleep;
                    noted2(Notice::Started(svc, self.pid), Notice::CreatingDatabase(svc, copy_string(&self.db)), Op::Sleep(5))
                } else {
                    self.stage = MySqlStage::Done;
                    noted(Notice::Started(svc, self.pid), Op::Halt)
                }
            },
            (MySqlStage::AwaitSleep, Outcome::Ack) => {
                self.stage = MySqlStage::AwaitSetup;
                quiet(Op::Run(self.client(), RunMode::Status))
            },
            (MySqlStage::AwaitSetup, Outcome::Finished(_)) => {
                self.stage = MySqlStage::Done;
                noted(Notice::DatabaseReady(svc, copy_string(&self.db)), Op::Halt)
            },
            _ => {
                self.stage = MySqlStage::Done;
                quiet(Op::Halt)
            },
        }
    }
}

/// A start of the project's MySQL server, before its first step: the port,
/// database and password of the configuration, the MySQL version it names,
/// and whether the tool uses the MySQL it installed.
pub fn run_mysql(config: &Config, mysql_install: bool) -> (m: MySqlRun)
    ensures
        m@ == (MySqlView {
            stage: MySqlStage::Start,
            own: mysql_install,
            version: config.versions.mysql_version@,
            port: config.ports.mysql_port,
            db: config.mysql.db@,
            pass: config.mysql.pass@,
            home: seq![],
            cwd: seq![],
            first_run: false,
            pid: 0,
        }),
{
    MySqlRun {
        stage: MySqlStage::Start,
        own: mysql_install,
        version: copy_string(&config.versions.mysql_version),
        port: config.ports.mysql_port,
        db: copy_string(&config.mysql.db),
        pass: copy_string(&config.mysql.pass),
        home: String::new(),
        cwd: String::new(),
        first_run: false,
        pid: 0,
    }
}

/// A stop of the project's MySQL server.
pub fn stop_mysql() -> (m: ServiceStop)
    ensures
        m@ == stop_initial(Service::MySql, mysql_pid_file(), StopStyle::Quiet),
{
    stop_service(Service::MySql, pid_file(), StopStyle::Quiet)
}

// ---------------------------------------------------------------------------
// Laws
// ---------------------------------------------------------------------------

/// A start of the server first looks for the pid file; where it exists a
/// server runs already, and the start says so and does nothing more.
pub proof fn mysql_running_server_not_restarted(s: MySqlView)
    requires
        s.stage == MySqlStage::Start,
    ensures
        ({
            let (s1, st1) = mysql_transition(s, OutcomeView::Begin);
            &&& st1.op == OpView::CheckExists(mysql_pid_file())
            &&& mysql_transition(s1, OutcomeView::Exists(true)) == (
                MySqlView { stage: MySqlStage::Done, ..s },
                noted_view(NoticeView::AlreadyRunning(Service::MySql), OpView::Halt),
            )
        }),
{
}

/// The started server's process id is written to the pid file, and the stop
/// that reads that file back kills that very process.
pub proof fn mysql_stop_ends_started_server(s: MySqlView, pid: u32)
    requires
        s.stage == MySqlStage::AwaitSpawn,
    ensures
        mysql_transition(s, OutcomeView::Spawned(Ok(pid))).1.op
            == OpView::WriteFile(mysql_pid_file(), decimal(pid as nat), FailureView::Ignore),
        stop_after_reading(Service::MySql, mysql_pid_file(), StopStyle::Quiet, decimal(pid as nat)).1.op
            == OpView::Run(taskkill_command(decimal(pid as nat)), RunMode::Output),
{
    trim_keeps_decimal(pid as nat);
}

/// The stages in which a start initializes the data directory or sets up
/// the database.
pub open spec fn mysql_setup_stage(stage: MySqlStage) -> bool {
    ||| stage == MySqlStage::AwaitCreateDir
    ||| stage == MySqlStage::AwaitInit
    ||| stage == MySqlStage::AwaitSleep
    ||| stage == MySqlStage::AwaitSetup
}

/// The data directory is initialized, and the database set up, only on a
/// first run: whether the run is a first one is decided once, by the check
/// for the data directory, and no step leads into initialization or database
/// setup on a run that is not.
pub proof fn mysql_setup_only_on_first_run(s: MySqlView, ev: OutcomeView)
    requires
        mysql_setup_stage(s.stage) ==> s.first_run,
    ensures
        ({
            let n = mysql_transition(s, ev).0;
            &&& mysql_setup_stage(n.stage) ==> n.first_run
            &&& s.stage != MySqlStage::AwaitDataCheck ==> n.first_run == s.first_run
            &&& s.stage == MySqlStage::AwaitDataCheck
                ==> (ev matches OutcomeView::Exists(d) ==> n.first_run == !d)
        }),
{
}

} // verus!
