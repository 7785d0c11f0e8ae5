//! Starting and stopping the project's PostgreSQL server. Its data lives in
//! `.cache/postgresql` under the project directory; the first run initializes
//! the cluster and, once the server is up, creates the project database.
use vstd::prelude::*;
use crate::effects::{ArgView, CommandArg, CommandView, FailureView, Notice, NoticeView, OnFailure, Op, OpView, Outcome, OutcomeView, PathSpec, ProcessCommand, RunMode, Service, StdioMode, Step, StepView, abort_with, new_command, noted, noted2, plain_command, quiet, text_arg, quiet_view, noted_view};
use crate::text::{concat2, decimal, decimal_string, owned};
use crate::pconnect_tool::configs::pconnect_cfg::{GlobalConfig, ProjectConfig};
use crate::pid_stop::{stop_after_reading, stop_initial, stop_service, taskkill_command, ServiceStop, StopStyle};
use crate::text::trim_keeps_decimal;

verus! {

// ---------------------------------------------------------------------------
// Paths and command lines
// ---------------------------------------------------------------------------

/// The file that holds the process id of the running server.
pub open spec fn pg_pid_file() -> Seq<Seq<char>> {
    seq![".pconnect_postgresql.pid"@]
}

/// Where the tool installs PostgreSQL of a version.
pub open spec fn pg_base_dir(home: Seq<char>, version: Seq<char>) -> Seq<Seq<char>> {
    seq![home, ".pconnect"@, "postgres-"@ + version]
}

/// The directory of PostgreSQL's programs: `pgsql/bin` where the installation
/// has a `pgsql` folder, else `bin`.
pub open spec fn pg_bin_dir(home: Seq<char>, version: Seq<char>, pgsql: bool) -> Seq<Seq<char>> {
    if pgsql {
        pg_base_dir(home, version).push("pgsql"@).push("bin"@)
    } else {
        pg_base_dir(home, version).push("bin"@)
    }
}

/// The project's data directory under the directory `cwd`.
pub open spec fn pg_data_dir(cwd: Seq<char>) -> Seq<Seq<char>> {
    seq![cwd, ".cache"@, "postgresql"@]
}

/// The command that initializes the cluster in `data`.
pub open spec fn pg_initdb_command(bin: Seq<Seq<char>>, data: Seq<Seq<char>>) -> CommandView {
    plain_command(
        bin.push("initdb.exe"@),
        seq![
            ArgView::Text("-D"@),
            ArgView::Path(data),
            ArgView::Text("-U"@),
            ArgView::Text("postgres"@),
            ArgView::Text("--auth=trust"@),
        ],
    )
}

/// The command that starts the server on `port`, its output discarded.
pub open spec fn pg_server_command(
    bin: Seq<Seq<char>>,
    data: Seq<Seq<char>>,
    port: u16,
) -> CommandView {
    CommandView {
        stdout: StdioMode::Null,
        stderr: StdioMode::Null,
        ..plain_command(
            bin.push("postgres.exe"@),
            seq![
                ArgView::Text("-D"@),
                ArgView::Path(data),
                ArgView::Text("-p"@),
                ArgView::Text(decimal(port as nat)),
            ],
        )
    }
}

/// The SQL that sets the password of `postgres` and creates the database.
pub open spec fn pg_setup_sql(pass: Seq<char>, db: Seq<char>) -> Seq<char> {
    "ALTER USER postgres WITH PASSWORD '"@ + pass + "'; CREATE DATABASE "@ + db + ";"@
}

/// The `psql` command that runs `pg_setup_sql`.
pub open spec fn pg_psql_command(
    bin: Seq<Seq<char>>,
    port: u16,
    pass: Seq<char>,
    db: Seq<char>,
) -> CommandView {
    plain_command(
        bin.push("psql.exe"@),
        seq![
            ArgView::Text("-p"@),
            ArgView::Text(decimal(port as nat)),
            ArgView::Text("-U"@),
            ArgView::Text("postgres"@),
            ArgView::Text("-d"@),
            ArgView::Text("postgres"@),
            ArgView::Text("-c"@),
            ArgView::Text(pg_setup_sql(pass, db)),
        ],
    )
}

fn pid_file() -> (p: PathSpec)
    ensures
        p@ == pg_pid_file(),
{
    PathSpec::single(".pconnect_postgresql.pid")
}

/// Where the tool installs PostgreSQL of `version`, given the home directory.
pub fn postgres_base_dir(home: &str, version: &str) -> (p: PathSpec)
    ensures
        p@ == pg_base_dir(home@, version@),
{
    let p = PathSpec::single(home).join(".pconnect").join_string(concat2("postgres-", version));
    proof {
        assert(p@ =~= pg_base_dir(home@, version@));
    }
    p
}

/// The directory of PostgreSQL's programs, given whether the installation has
/// a `pgsql` folder.
pub fn get_postgresql_bin_dir(home: &str, version: &str, pgsql_exists: bool) -> (p: PathSpec)
    ensures
        p@ == pg_bin_dir(home@, version@, pgsql_exists),
{
    let base = postgres_base_dir(home, version);
    if pgsql_exists {
        base.join("pgsql").join("bin")
    } else {
        base.join("bin")
    }
}

fn data_dir(cwd: &str) -> (p: PathSpec)
    ensures
        p@ == pg_data_dir(cwd@),
{
    let p = PathSpec::single(cwd).join(".cache").join("postgresql");
    proof {
        assert(p@ =~= pg_data_dir(cwd@));
    }
    p
}

fn initdb_command(bin: &PathSpec, data: &PathSpec) -> (c: ProcessCommand)
    ensures
        c@ == pg_initdb_command(bin@, data@),
{
    let mut args: Vec<CommandArg> = Vec::new();
    args.push(text_arg("-D"));
    args.push(CommandArg::Path(data.duplicate()));
    args.push(text_arg("-U"));
    args.push(text_arg("postgres"));
    args.push(text_arg("--auth=trust"));
    let c = new_command(bin.join("initdb.exe"), args);
    proof {
        assert(c@.args =~= pg_initdb_command(bin@, data@).args);
    }
    c
}

fn server_command(bin: &PathSpec, data: &PathSpec, port: u16) -> (c: ProcessCommand)
    ensures
        c@ == pg_server_command(bin@, data@, port),
{
    let mut args: Vec<CommandArg> = Vec::new();
    args.push(text_arg("-D"));
    args.push(CommandArg::Path(data.duplicate()));
    args.push(text_arg("-p"));
    args.push(CommandArg::Text(decimal_string(port as u32)));
    let mut c = new_command(bin.join("postgres.exe"), args);
    c.stdout = StdioMode::Null;
    c.stderr = StdioMode::Null;
    proof {
        assert(c@.args =~= pg_server_command(bin@, data@, port).args);
    }
    c
}

/// The SQL that sets the password of `postgres` and creates the database `db`.
pub fn setup_sql(pass: &str, db: &str) -> (s: String)
    ensures
        s@ == pg_setup_sql(pass@, db@),
{
    let mut s = owned("ALTER USER postgres WITH PASSWORD '");
    s.append(pass);
    s.append("'; CREATE DATABASE ");
    s.append(db);
    s.append(";");
    s
}

fn psql_command(bin: &PathSpec, port: u16, pass: &str, db: &str) -> (c: ProcessCommand)
    ensures
        c@ == pg_psql_command(bin@, port, pass@, db@),
{
    let mut args: Vec<CommandArg> = Vec::new();
    args.push(text_arg("-p"));
    args.push(CommandArg::Text(decimal_string(port as u32)));
    args.push(text_arg("-U"));
    args.push(text_arg("postgres"));
    args.push(text_arg("-d"));
    args.push(text_arg("postgres"));
    args.push(text_arg("-c"));
    args.push(CommandArg::Text(setup_sql(pass, db)));
    let c = new_command(bin.join("psql.exe"), args);
    proof {
        assert(c@.args =~= pg_psql_command(bin@, port, pass@, db@).args);
    }
    c
}

// ---------------------------------------------------------------------------
// Starting the server
// ---------------------------------------------------------------------------

/// Where a start of the server stands.
#[derive(Clone, Copy, Debug, PartialEq, Eq, Structural)]
pub enum PgRunStage {
    Start,
    AwaitPidCheck,
    AwaitHome,
    AwaitPgsqlCheck,
    AwaitCwd,
    AwaitDataCheck,
    AwaitExeCheck,
    AwaitCreateDir,
    AwaitInit,
    AwaitSpawn,
    AwaitPidWrite,
    AwaitSleep,
    AwaitSetup,
    Done,
}

/// A start of the server: the settings it was made with and what it has
/// learned so far.
pub struct PostgresRun {
    pub stage: PgRunStage,
    pub port: u16,
    pub version: String,
    pub db: String,
    pub pass: String,
    pub home: String,
    pub pgsql: bool,
    pub cwd: String,
    pub first_run: bool,
    pub pid: u32,
}

/// The view of a `PostgresRun`.
pub struct PgRunView {
    pub stage: PgRunStage,
    pub port: u16,
    pub version: Seq<char>,
    pub db: Seq<char>,
    pub pass: Seq<char>,
    pub home: Seq<char>,
    pub pgsql: bool,
    pub cwd: Seq<char>,
    pub first_run: bool,
    pub pid: u32,
}

impl View for PostgresRun {
    type V = PgRunView;

    open spec fn view(&self) -> PgRunView {
        PgRunView {
            stage: self.stage,
            port: self.port,
            version: self.version@,
            db: self.db@,
            pass: self.pass@,
            home: self.home@,
            pgsql: self.pgsql,
            cwd: self.cwd@,
            first_run: self.first_run,
            pid: self.pid,
        }
    }
}

/// What a start of the server does next, given the outcome `ev` of its last
/// operation. An outcome that does not fit the stage ends it.
pub open spec fn pg_transition(s: PgRunView, ev: OutcomeView) -> (PgRunView, StepView) {
    let bin = pg_bin_dir(s.home, s.version, s.pgsql);
    let data = pg_data_dir(s.cwd);
    let svc = Service::PostgreSql;
    let done = PgRunView { stage: PgRunStage::Done, ..s };
    match (s.stage, ev) {
        (PgRunStage::Start, OutcomeView::Begin) => (
            PgRunView { stage: PgRunStage::AwaitPidCheck, ..s },
            quiet_view(OpView::CheckExists(pg_pid_file())),
        ),
        (PgRunStage::AwaitPidCheck, OutcomeView::Exists(true)) => (
            done,
            noted_view(NoticeView::AlreadyRunning(svc), OpView::Halt),
        ),
        (PgRunStage::AwaitPidCheck, OutcomeView::Exists(false)) => (
            PgRunView { stage: PgRunStage::AwaitHome, ..s },
            quiet_view(
                OpView::ReadEnv(
                    "USERPROFILE"@,
                    FailureView::Abort("❌ USERPROFILE não encontrado"@),
                ),
            ),
        ),
        (PgRunStage::AwaitHome, OutcomeView::Text(h)) => (
            PgRunView { stage: PgRunStage::AwaitPgsqlCheck, home: h, ..s },
            quiet_view(OpView::CheckExists(pg_base_dir(h, s.version).push("pgsql"@))),
        ),
        (PgRunStage::AwaitPgsqlCheck, OutcomeView::Exists(b)) => (
            PgRunView { stage: PgRunStage::AwaitCwd, pgsql: b, ..s },
            quiet_view(OpView::CurrentDir),
        ),
        (PgRunStage::AwaitCwd, OutcomeView::Text(c)) => (
            PgRunView { stage: PgRunStage::AwaitDataCheck, cwd: c, ..s },
            quiet_view(OpView::CheckExists(pg_data_dir(c))),
        ),
        (PgRunStage::AwaitDataCheck, OutcomeView::Exists(d)) => (
            PgRunView { stage: PgRunStage::AwaitExeCheck, first_run: !d, ..s },
            quiet_view(OpView::CheckExists(bin.push("postgres.exe"@))),
        ),
        (PgRunStage::AwaitExeCheck, OutcomeView::Exists(false)) => (
            done,
            noted_view(NoticeView::BinaryMissing(svc, bin.push("postgres.exe"@)), OpView::Halt),
        ),
        (PgRunStage::AwaitExeCheck, OutcomeView::Exists(true)) => if s.first_run {
            (
                PgRunView { stage: PgRunStage::AwaitCreateDir, ..s },
                noted_view(
                    NoticeView::InitializingData(svc),
                    OpView::CreateDirAll(data, FailureView::Unwrap),
                ),
            )
        } else {
            (
                PgRunView { stage: PgRunStage::AwaitSpawn, ..s },
                noted_view(
                    NoticeView::Starting(svc, s.port),
                    OpView::Spawn(pg_server_command(bin, data, s.port)),
                ),
            )
        },
        (PgRunStage::AwaitCreateDir, OutcomeView::Ack) => (
            PgRunView { stage: PgRunStage::AwaitInit, ..s },
            quiet_view(OpView::Run(pg_initdb_command(bin, data), RunMode::Output)),
        ),
        (PgRunStage::AwaitInit, OutcomeView::Finished(Err(e))) => (
            done,
            noted_view(NoticeView::InitFailed(svc, e), OpView::Halt),
        ),
        (PgRunStage::AwaitInit, OutcomeView::Finished(Ok(_))) => (
            PgRunView { stage: PgRunStage::AwaitSpawn, ..s },
            noted_view(
                NoticeView::Starting(svc, s.port),
                OpView::Spawn(pg_server_command(bin, data, s.port)),
            ),
        ),
        (PgRunStage::AwaitSpawn, OutcomeView::Spawned(Err(e))) => (
            done,
            noted_view(NoticeView::StartFailed(svc, e), OpView::Halt),
        ),
        (PgRunStage::AwaitSpawn, OutcomeView::Spawned(Ok(pid))) => (
            PgRunView { stage: PgRunStage::AwaitPidWrite, pid, ..s },
            quiet_view(OpView::WriteFile(pg_pid_file(), decimal(pid as nat), FailureView::Ignore)),
        ),
        (PgRunStage::AwaitPidWrite, OutcomeView::Ack) => if s.first_run {
            (
                PgRunView { stage: PgRunStage::AwaitSleep, ..s },
                StepView {
                    notes: seq![
                        NoticeView::Started(svc, s.pid),
                        NoticeView::CreatingDatabase(svc, s.db),
                    ],
                    op: OpView::Sleep(4),
                },
            )
        } else {
            (done, noted_view(NoticeView::Started(svc, s.pid), OpView::Halt))
        },
        (PgRunStage::AwaitSleep, OutcomeView::Ack) => (
            PgRunView { stage: PgRunStage::AwaitSetup, ..s },
            quiet_view(OpView::Run(pg_psql_command(bin, s.port, s.pass, s.db), RunMode::Status)),
        ),
        (PgRunStage::AwaitSetup, OutcomeView::Finished(_)) => (
            done,
            noted_view(NoticeView::DatabaseReady(svc, s.db), OpView::Halt),
        ),
        _ => (done, quiet_view(OpView::Halt)),
    }
}

/// A start of the project's PostgreSQL server, before its first step. The
/// server listens on the project's `postgresql_port`, runs the PostgreSQL
/// version of the global configuration and, on its first run, gets the
/// project's database and password.
pub fn run_postgresql(project: &ProjectConfig, global: &GlobalConfig) -> (m: PostgresRun)
    ensures
        m@ == (PgRunView {
            stage: PgRunStage::Start,
            port: project.ports.postgresql_port,
            version: global.versions.postgresql_version@,
            db: project.postgresql.db@,
            pass: project.postgresql.pass@,
            home: seq![],
            pgsql: false,
            cwd: seq![],
            first_run: false,
            pid: 0,
        }),
{
    PostgresRun {
        stage: PgRunStage::Start,
        port: project.ports.postgresql_port,
        version: project_string(&global.versions.postgresql_version),
        db: project_string(&project.postgresql.db),
        pass: project_string(&project.postgresql.pass),
        home: String::new(),
        pgsql: false,
        cwd: String::new(),
        first_run: false,
        pid: 0,
    }
}

fn project_string(s: &String) -> (r: String)
    ensures
        r@ == s@,
{
    s.clone()
}

impl PostgresRun {
    fn finish(&mut self) -> (s: Step)
        ensures
            final(self)@ == (PgRunView { stage: PgRunStage::Done, ..old(self)@ }),
            s@ == quiet_view(OpView::Halt),
    {
        self.stage = PgRunStage::Done;
        quiet(Op::Halt)
    }

    fn server(&self) -> (c: ProcessCommand)
        ensures
            c@ == pg_server_command(
                pg_bin_dir(self.home@, self.version@, self.pgsql),
                pg_data_dir(self.cwd@),
                self.port,
            ),
    {
        let bin = get_postgresql_bin_dir(&self.home, &self.version, self.pgsql);
        server_command(&bin, &data_dir(&self.cwd), self.port)
    }

    /// The next step, given the outcome of the last one.
    pub fn step(&mut self, ev: Outcome) -> (s: Step)
        ensures
            (final(self)@, s@) == pg_transition(old(self)@, ev@),
    {
        let svc = Service::PostgreSql;
        match (self.stage, ev) {
            (PgRunStage::Start, Outcome::Begin) => {
                self.stage = PgRunStage::AwaitPidCheck;
                quiet(Op::CheckExists(pid_file()))
            },
            (PgRunStage::AwaitPidCheck, Outcome::Exists(running)) => {
                if running {
                    self.stage = PgRunStage::Done;
                    noted(Notice::AlreadyRunning(svc), Op::Halt)
                } else {
                    self.stage = PgRunStage::AwaitHome;
                    quiet(Op::ReadEnv(owned("USERPROFILE"), abort_with("❌ USERPROFILE não encontrado")))
                }
            },
            (PgRunStage::AwaitHome, Outcome::Text(h)) => {
                let check = postgres_base_dir(&h, &self.version).join("pgsql");
                self.home = h;
                self.stage = PgRunStage::AwaitPgsqlCheck;
                quiet(Op::CheckExists(check))
            },
            (PgRunStage::AwaitPgsqlCheck, Outcome::Exists(b)) => {
                self.pgsql = b;
                self.stage = PgRunStage::AwaitCwd;
                quiet(Op::CurrentDir)
            },
            (PgRunStage::AwaitCwd, Outcome::Text(c)) => {
                let check = data_dir(&c);
                self.cwd = c;
                self.stage = PgRunStage::AwaitDataCheck;
                quiet(Op::CheckExists(check))
            },
            (PgRunStage::AwaitDataCheck, Outcome::Exists(d)) => {
                self.first_run = !d;
                self.stage = PgRunStage::AwaitExeCheck;
                let bin = get_postgresql_bin_dir(&self.home, &self.version, self.pgsql);
                quiet(Op::CheckExists(bin.join("postgres.exe")))
            },
            (PgRunStage::AwaitExeCheck, Outcome::Exists(found)) => {
                if !found {
                    self.stage = PgRunStage::Done;
                    let bin = get_postgresql_bin_dir(&self.home, &self.version, self.pgsql);
                    noted(Notice::BinaryMissing(svc, bin.join("postgres.exe")), Op::Halt)
                } else if self.first_run {
                    self.stage = PgRunStage::AwaitCreateDir;
                    noted(
                        Notice::InitializingData(svc),
                        Op::CreateDirAll(data_dir(&self.cwd), OnFailure::Unwrap),
                    )
                } else {
                    self.stage = PgRunStage::AwaitSpawn;
                    noted(Notice::Starting(svc, self.port), Op::Spawn(self.server()))
                }
            },
            (PgRunStage::AwaitCreateDir, Outcome::Ack) => {
                self.stage = PgRunStage::AwaitInit;
                let bin = get_postgresql_bin_dir(&self.home, &self.version, self.pgsql);
                quiet(Op::Run(initdb_command(&bin, &data_dir(&self.cwd)), RunMode::Output))
            },
            (PgRunStage::AwaitInit, Outcome::Finished(r)) => {
                match r {
                    Err(e) => {
                        self.stage = PgRunStage::Done;
                        noted(Notice::InitFailed(svc, e), Op::Halt)
                    },
                    Ok(_) => {
                        self.stage = PgRunStage::AwaitSpawn;
                        noted(Notice::Starting(svc, self.port), Op::Spawn(self.server()))
                    },
                }
            },
            (PgRunStage::AwaitSpawn, Outcome::Spawned(r)) => {
                match r {
                    Err(e) => {
                        self.stage = PgRunStage::Done;
                        noted(Notice::StartFailed(svc, e), Op::Halt)
                    },
                    Ok(pid) => {
                        self.pid = pid;
                        self.stage = PgRunStage::AwaitPidWrite;
                        quiet(Op::WriteFile(pid_file(), decimal_string(pid), OnFailure::Ignore))
                    },
                }
            },
            (PgRunStage::AwaitPidWrite, Outcome::Ack) => {
                if self.first_run {
                    self.stage = PgRunStage::AwaitSleep;
                    noted2(
                        Notice::Started(svc, self.pid),
                        Notice::CreatingDatabase(svc, project_string(&self.db)),
                        Op::Sleep(4),
                    )
                } else {
                    self.stage = PgRunStage::Done;
                    noted(Notice::Started(svc, self.pid), Op::Halt)
                }
            },
            (PgRunStage::AwaitSleep, Outcome::Ack) => {
                self.stage = PgRunStage::AwaitSetup;
                let bin = get_postgresql_bin_dir(&self.home, &self.version, self.pgsql);
                quiet(Op::Run(psql_command(&bin, self.port, &self.pass, &self.db), RunMode::Status))
            },
            (PgRunStage::AwaitSetup, Outcome::Finished(_)) => {
                self.stage = PgRunStage::Done;
                noted(Notice::DatabaseReady(svc, project_string(&self.db)), Op::Halt)
            },
            _ => self.finish(),
        }
    }
}

// ---------------------------------------------------------------------------
// Stopping the server
// ---------------------------------------------------------------------------

/// A stop of the project's PostgreSQL server: the process named in its pid
/// file is killed with its children and the file removed.
pub fn stop_postgresql() -> (m: ServiceStop)
    ensures
        m@ == stop_initial(
            Service::PostgreSql,
            pg_pid_file(),
            StopStyle::Quiet,
        ),
{
    stop_service(Service::PostgreSql, pid_file(), StopStyle::Quiet)
}

// ---------------------------------------------------------------------------
// Laws
// ---------------------------------------------------------------------------

/// A start of the server first looks for the pid file; where it exists a
/// server runs already, and the start says so and does nothing more.
pub proof fn pg_running_server_not_restarted(s: PgRunView)
    requires
        s.stage == PgRunStage::Start,
    ensures
        ({
            let (s1, st1) = pg_transition(s, OutcomeView::Begin);
            &&& st1.op == OpView::CheckExists(pg_pid_file())
            &&& pg_transition(s1, OutcomeView::Exists(true)) == (
                PgRunView { stage: PgRunStage::Done, ..s },
                noted_view(NoticeView::AlreadyRunning(Service::PostgreSql), OpView::Halt),
            )
        }),
{
}

/// The started server's process id is written to the pid file, and the stop
/// that reads that file back kills that very process.
pub proof fn pg_stop_ends_started_server(s: PgRunView, pid: u32)
    requires
        s.stage == PgRunStage::AwaitSpawn,
    ensures
        pg_transition(s, OutcomeView::Spawned(Ok(pid))).1.op
            == OpView::WriteFile(pg_pid_file(), decimal(pid as nat), FailureView::Ignore),
        stop_after_reading(Service::PostgreSql, pg_pid_file(), StopStyle::Quiet, decimal(pid as nat)).1.op
            == OpView::Run(taskkill_command(decimal(pid as nat)), RunMode::Output),
{
    trim_keeps_decimal(pid as nat);
}

/// The stages in which a start initializes the data directory or creates
/// the database.
pub open spec fn pg_setup_stage(stage: PgRunStage) -> bool {
    ||| stage == PgRunStage::AwaitCreateDir
    ||| stage == PgRunStage::AwaitInit
    ||| stage == PgRunStage::AwaitSleep
    ||| stage == PgRunStage::AwaitSetup
}

/// The data directory is initialized, and the database created, only on a
/// first run: whether the run is a first one is decided once, by the check
/// for the data directory, and no step leads into initialization or database
/// creation on a run that is not.
pub proof fn pg_setup_only_on_first_run(s: PgRunView, ev: OutcomeView)
    requires
        pg_setup_stage(s.stage) ==> s.first_run,
    ensures
        ({
            let n = pg_transition(s, ev).0;
            &&& pg_setup_stage(n.stage) ==> n.first_run
            &&& s.stage != PgRunStage::AwaitDataCheck ==> n.first_run == s.first_run
            &&& s.stage == PgRunStage::AwaitDataCheck
                ==> (ev matches OutcomeView::Exists(d) ==> n.first_run == !d)
        }),
{
}

} // verus!
