use pconnect::effects::{CommandArg, Edition, Notice, OnFailure, Op, Outcome, PathSpec, RunMode, Service, StdioMode};
use pconnect::pconnect_tool::configs::pconnect_cfg::{
    GlobalConfig, Installations, Paths, PostgreSQL, Ports, ProjectConfig, Versions,
};
use pconnect::pconnect_tool::managers::bun_manager::{frontend_run, run_vue, stop_vue};
use pconnect::pconnect_tool::managers::postgresql_manager::{
    get_postgresql_bin_dir, run_postgresql, setup_sql, stop_postgresql,
};
use pconnect::php_connects::managers::php_manager::{run_php, stop_php};
use pconnect::pid_stop::{stop_service, StopStyle};

fn segs(p: &PathSpec) -> Vec<String> {
    p.segments.clone()
}

fn texts(args: &[CommandArg]) -> Vec<String> {
    args.iter()
        .map(|a| match a {
            CommandArg::Text(t) => t.clone(),
            CommandArg::Path(p) => format!("<{}>", p.segments.join("/")),
            CommandArg::Prefixed(t, p) => format!("{}<{}>", t, p.segments.join("/")),
        })
        .collect()
}

fn global() -> GlobalConfig {
    GlobalConfig {
        versions: Versions {
            bun_version: "1.1.0".to_string(),
            php_version: "8.3.4".to_string(),
            postgresql_version: "16.2".to_string(),
        },
        installations: Installations {
            bun_install: true,
            vue_install: true,
            laravel_install: true,
            php_install: true,
            postgresql_install: true,
        },
    }
}

fn project() -> ProjectConfig {
    ProjectConfig {
        ports: Ports { php_port: 8000, laravel_port: 8001, postgresql_port: 5432, vue_port: 5173 },
        paths: Paths { backend_dir: "./backend".to_string(), frontend_dir: "./frontend".to_string() },
        postgresql: PostgreSQL {
            db: "loja_db".to_string(),
            host: "localhost".to_string(),
            user: "postgres".to_string(),
            pass: "admin".to_string(),
        },
    }
}

#[test]
fn postgresql_bin_dir_follows_layout() {
    assert_eq!(segs(&get_postgresql_bin_dir("C:/U", "16.2", true)), vec!["C:/U", ".pconnect", "postgres-16.2", "pgsql", "bin"]);
    assert_eq!(segs(&get_postgresql_bin_dir("C:/U", "16.2", false)), vec!["C:/U", ".pconnect", "postgres-16.2", "bin"]);
}

#[test]
fn postgresql_setup_sql_text() {
    assert_eq!(setup_sql("admin", "loja_db"), "ALTER USER postgres WITH PASSWORD 'admin'; CREATE DATABASE loja_db;");
}

#[test]
fn postgresql_first_run_initializes_and_creates_database() {
    let mut m = run_postgresql(&project(), &global());
    let st = m.step(Outcome::Begin);
    assert!(matches!(&st.op, Op::CheckExists(p) if segs(p) == vec![".pconnect_postgresql.pid"]));
    let st = m.step(Outcome::Exists(false));
    assert!(matches!(&st.op, Op::ReadEnv(n, OnFailure::Abort(_)) if n == "USERPROFILE"));
    let st = m.step(Outcome::Text("C:/U".to_string()));
    assert!(matches!(&st.op, Op::CheckExists(p) if segs(p) == vec!["C:/U", ".pconnect", "postgres-16.2", "pgsql"]));
    let st = m.step(Outcome::Exists(true));
    assert!(matches!(st.op, Op::CurrentDir));
    let st = m.step(Outcome::Text("D:/proj".to_string()));
    assert!(matches!(&st.op, Op::CheckExists(p) if segs(p) == vec!["D:/proj", ".cache", "postgresql"]));
    let st = m.step(Outcome::Exists(false));
    assert!(matches!(&st.op, Op::CheckExists(p)
        if segs(p) == vec!["C:/U", ".pconnect", "postgres-16.2", "pgsql", "bin", "postgres.exe"]));
    let st = m.step(Outcome::Exists(true));
    assert!(matches!(st.notes[0], Notice::InitializingData(Service::PostgreSql)));
    assert!(matches!(&st.op, Op::CreateDirAll(p, OnFailure::Unwrap) if segs(p) == vec!["D:/proj", ".cache", "postgresql"]));
    let st = m.step(Outcome::Ack);
    match &st.op {
        Op::Run(c, RunMode::Output) => {
            assert_eq!(segs(&c.program).last().unwrap(), "initdb.exe");
            assert_eq!(texts(&c.args), vec!["-D", "<D:/proj/.cache/postgresql>", "-U", "postgres", "--auth=trust"]);
        },
        other => panic!("unexpected {:?}", other),
    }
    let st = m.step(Outcome::Finished(Ok(true)));
    assert!(matches!(st.notes[0], Notice::Starting(Service::PostgreSql, 5432)));
    match &st.op {
        Op::Spawn(c) => {
            assert_eq!(segs(&c.program).last().unwrap(), "postgres.exe");
            assert_eq!(texts(&c.args), vec!["-D", "<D:/proj/.cache/postgresql>", "-p", "5432"]);
            assert_eq!(c.stdout, StdioMode::Null);
            assert_eq!(c.stderr, StdioMode::Null);
        },
        other => panic!("unexpected {:?}", other),
    }
    let st = m.step(Outcome::Spawned(Ok(4242)));
    assert!(matches!(&st.op, Op::WriteFile(p, c, OnFailure::Ignore)
        if segs(p) == vec![".pconnect_postgresql.pid"] && c == "4242"));
    let st = m.step(Outcome::Ack);
    assert!(matches!(st.notes[0], Notice::Started(Service::PostgreSql, 4242)));
    assert!(matches!(&st.notes[1], Notice::CreatingDatabase(Service::PostgreSql, d) if d == "loja_db"));
    assert!(matches!(st.op, Op::Sleep(4)));
    let st = m.step(Outcome::Ack);
    match &st.op {
        Op::Run(c, RunMode::Status) => {
            assert_eq!(segs(&c.program).last().unwrap(), "psql.exe");
            assert_eq!(texts(&c.args)[7], "ALTER USER postgres WITH PASSWORD 'admin'; CREATE DATABASE loja_db;");
        },
        other => panic!("unexpected {:?}", other),
    }
    let st = m.step(Outcome::Finished(Ok(true)));
    assert!(matches!(&st.notes[0], Notice::DatabaseReady(Service::PostgreSql, d) if d == "loja_db"));
    assert!(matches!(st.op, Op::Halt));
}

#[test]
fn postgresql_running_server_not_restarted() {
    let mut m = run_postgresql(&project(), &global());
    m.step(Outcome::Begin);
    let st = m.step(Outcome::Exists(true));
    assert!(matches!(st.notes[0], Notice::AlreadyRunning(Service::PostgreSql)));
    assert!(matches!(st.op, Op::Halt));
}

#[test]
fn postgresql_second_run_skips_initialization() {
    let mut m = run_postgresql(&project(), &global());
    m.step(Outcome::Begin);
    m.step(Outcome::Exists(false));
    m.step(Outcome::Text("C:/U".to_string()));
    m.step(Outcome::Exists(false));
    m.step(Outcome::Text("D:/proj".to_string()));
    m.step(Outcome::Exists(true));
    let st = m.step(Outcome::Exists(true));
    assert!(matches!(&st.op, Op::Spawn(c) if segs(&c.program) == vec!["C:/U", ".pconnect", "postgres-16.2", "bin", "postgres.exe"]));
    m.step(Outcome::Spawned(Ok(7)));
    let st = m.step(Outcome::Ack);
    assert!(matches!(st.notes[0], Notice::Started(Service::PostgreSql, 7)));
    assert!(matches!(st.op, Op::Halt));
}

#[test]
fn postgresql_missing_binary_stops() {
    let mut m = run_postgresql(&project(), &global());
    m.step(Outcome::Begin);
    m.step(Outcome::Exists(false));
    m.step(Outcome::Text("C:/U".to_string()));
    m.step(Outcome::Exists(false));
    m.step(Outcome::Text("D:/proj".to_string()));
    m.step(Outcome::Exists(true));
    let st = m.step(Outcome::Exists(false));
    assert!(matches!(&st.notes[0], Notice::BinaryMissing(Service::PostgreSql, _)));
    assert!(matches!(st.op, Op::Halt));
}

#[test]
fn stop_kills_the_recorded_pid_and_removes_the_file() {
    let mut m = stop_postgresql();
    let st = m.step(Outcome::Begin);
    assert!(matches!(&st.op, Op::CheckExists(p) if segs(p) == vec![".pconnect_postgresql.pid"]));
    let st = m.step(Outcome::Exists(true));
    assert!(matches!(&st.op, Op::ReadFile(_, OnFailure::Ignore)));
    let st = m.step(Outcome::Text(" 4242\r\n".to_string()));
    match &st.op {
        Op::Run(c, RunMode::Output) => {
            assert_eq!(segs(&c.program), vec!["taskkill"]);
            assert_eq!(texts(&c.args), vec!["/F", "/PID", "4242", "/T"]);
        },
        other => panic!("unexpected {:?}", other),
    }
    let st = m.step(Outcome::Finished(Err("taskkill missing".to_string())));
    assert!(matches!(&st.op, Op::RemoveFile(p, OnFailure::Ignore) if segs(p) == vec![".pconnect_postgresql.pid"]));
    let st = m.step(Outcome::Ack);
    assert!(matches!(st.notes[0], Notice::Stopped(Service::PostgreSql)));
    assert!(matches!(st.op, Op::Halt));
}

#[test]
fn quiet_stop_without_pid_file_says_nothing() {
    let mut m = stop_postgresql();
    m.step(Outcome::Begin);
    let st = m.step(Outcome::Exists(false));
    assert!(st.notes.is_empty());
    assert!(matches!(st.op, Op::Halt));
}

#[test]
fn verbose_stop_reports_failure_and_removes_file() {
    let mut m = stop_php();
    m.step(Outcome::Begin);
    let st = m.step(Outcome::Exists(true));
    assert!(matches!(&st.op, Op::ReadFile(_, OnFailure::Abort(msg)) if msg == "Erro ao ler o arquivo de PID"));
    let st = m.step(Outcome::Text("99\n".to_string()));
    assert!(matches!(&st.notes[0], Notice::Stopping(Service::Php, pid) if pid == "99"));
    let st = m.step(Outcome::Finished(Err("denied".to_string())));
    assert!(matches!(&st.notes[0], Notice::StopFailed(Service::Php, e) if e == "denied"));
    assert!(matches!(&st.op, Op::RemoveFile(p, OnFailure::Ignore) if p.segments == vec!["php.pid"]));
    let st = m.step(Outcome::Ack);
    assert!(st.notes.is_empty());
    assert!(matches!(st.op, Op::Halt));

    let mut m = stop_php();
    m.step(Outcome::Begin);
    let st = m.step(Outcome::Exists(false));
    assert!(matches!(st.notes[0], Notice::NotRunning(Service::Php)));
}

#[test]
fn php_start_writes_pid_that_stop_kills() {
    let mut m = run_php(PathSpec::single("php"), 8000, "./backend/public");
    let st = m.step(Outcome::Begin);
    let pid_file = match &st.op {
        Op::CheckExists(p) => segs(p),
        other => panic!("unexpected {:?}", other),
    };
    let st = m.step(Outcome::Exists(false));
    match &st.op {
        Op::Spawn(c) => assert_eq!(texts(&c.args), vec!["-S", "localhost:8000", "-t", "./backend/public"]),
        other => panic!("unexpected {:?}", other),
    }
    let st = m.step(Outcome::Spawned(Ok(31337)));
    let written = match &st.op {
        Op::WriteFile(p, c, _) => {
            assert_eq!(segs(p), pid_file);
            c.clone()
        },
        other => panic!("unexpected {:?}", other),
    };
    let mut s = stop_php();
    let st = s.step(Outcome::Begin);
    assert!(matches!(&st.op, Op::CheckExists(p) if segs(p) == pid_file));
    s.step(Outcome::Exists(true));
    let st = s.step(Outcome::Text(written));
    match &st.op {
        Op::Run(c, _) => assert_eq!(texts(&c.args), vec!["/F", "/PID", "31337", "/T"]),
        other => panic!("unexpected {:?}", other),
    }
}

#[test]
fn frontend_installs_dependencies_then_starts() {
    let mut m = run_vue(&project(), &global());
    let st = m.step(Outcome::Begin);
    assert!(matches!(&st.op, Op::CheckExists(p) if segs(p) == vec![".pconnect_bun.pid"]));
    let st = m.step(Outcome::Exists(false));
    assert!(matches!(&st.op, Op::ReadEnv(n, _) if n == "USERPROFILE"));
    let st = m.step(Outcome::Text("C:/U".to_string()));
    assert!(matches!(&st.op, Op::CheckExists(p)
        if segs(p) == vec!["C:/U", ".pconnect", "bun-1.1.0", "bun.exe"]));
    let st = m.step(Outcome::Exists(true));
    assert!(matches!(&st.op, Op::CheckExists(p) if segs(p) == vec!["./frontend", "node_modules"]));
    let st = m.step(Outcome::Exists(false));
    assert!(matches!(&st.notes[0], Notice::InstallingDependencies(d) if d == "./frontend"));
    match &st.op {
        Op::Run(c, RunMode::Status) => {
            assert_eq!(texts(&c.args), vec!["install"]);
            assert_eq!(segs(c.current_dir.as_ref().unwrap()), vec!["./frontend"]);
        },
        other => panic!("unexpected {:?}", other),
    }
    let st = m.step(Outcome::Finished(Ok(true)));
    assert!(matches!(st.notes[0], Notice::DependenciesInstalled));
    match &st.op {
        Op::Spawn(c) => assert_eq!(texts(&c.args), vec!["run", "dev", "--port", "5173"]),
        other => panic!("unexpected {:?}", other),
    }
    let st = m.step(Outcome::Spawned(Ok(55)));
    assert!(matches!(&st.op, Op::WriteFile(p, c, OnFailure::Abort(_)) if segs(p) == vec![".pconnect_bun.pid"] && c == "55"));
    let st = m.step(Outcome::Ack);
    assert!(matches!(st.notes[0], Notice::Started(Service::Frontend, 55)));
}

#[test]
fn frontend_with_system_bun_skips_home() {
    let mut m = frontend_run(Edition::Classic, false, "1.0", "web", 3000);
    let st = m.step(Outcome::Begin);
    assert!(matches!(&st.op, Op::CheckExists(p) if segs(p) == vec![".bun.pid"]));
    let st = m.step(Outcome::Exists(false));
    assert!(matches!(&st.op, Op::CheckExists(p) if segs(p) == vec!["web", "node_modules"]));
    let st = m.step(Outcome::Exists(true));
    match &st.op {
        Op::Spawn(c) => {
            assert_eq!(segs(&c.program), vec!["bun"]);
            assert_eq!(texts(&c.args), vec!["run", "dev", "--port", "3000"]);
        },
        other => panic!("unexpected {:?}", other),
    }
}

#[test]
fn frontend_failed_install_stops() {
    let mut m = frontend_run(Edition::Current, false, "1.0", "web", 3000);
    m.step(Outcome::Begin);
    m.step(Outcome::Exists(false));
    m.step(Outcome::Exists(false));
    let st = m.step(Outcome::Finished(Ok(false)));
    assert!(matches!(st.notes[0], Notice::DependenciesFailed));
    assert!(matches!(st.op, Op::Halt));
}

#[test]
fn stop_vue_uses_frontend_pid_file() {
    let mut m = stop_vue();
    let st = m.step(Outcome::Begin);
    assert!(matches!(&st.op, Op::CheckExists(p) if segs(p) == vec![".pconnect_bun.pid"]));
}

#[test]
fn unexpected_outcome_ends_a_stop() {
    let mut m = stop_service(Service::MySql, PathSpec::single("x.pid"), StopStyle::Quiet);
    let st = m.step(Outcome::Ack);
    assert!(matches!(st.op, Op::Halt));
    let st = m.step(Outcome::Begin);
    assert!(matches!(st.op, Op::Halt));
}

#[test]
fn php_and_frontend_not_restarted() {
    let mut m = run_php(PathSpec::single("php"), 8000, "public");
    m.step(Outcome::Begin);
    let st = m.step(Outcome::Exists(true));
    assert!(matches!(st.notes[0], Notice::AlreadyRunning(Service::Php)));
    assert!(matches!(st.op, Op::Halt));

    let mut m = frontend_run(Edition::Current, true, "1.1.0", "web", 5173);
    m.step(Outcome::Begin);
    let st = m.step(Outcome::Exists(true));
    assert!(matches!(st.notes[0], Notice::AlreadyRunning(Service::Frontend)));
    assert!(matches!(st.op, Op::Halt));
}
