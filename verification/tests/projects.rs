use std::io::Write;
use pconnect::effects::{Notice, OnFailure, Op, Outcome, PathSpec, RunMode, Service};
use pconnect::locate::{find_subfolder_bin, get_global_bin};
use pconnect::pconnect_install::{installed_name_exec, run_install, setup_env_variables};
use pconnect::pconnect_tool::configs::pconnect_cfg::{GlobalConfig, Installations, Versions as GlobalVersions};
use pconnect::php_connects::configs::php_connects_cfg::{
    validate_versions, Config, Mysql, Paths, Ports, Project, Stack, VersionError, Versions,
};
use pconnect::php_connects::hosts::{hosts_entry_exec, needs_registration, register_local_domain};
use pconnect::php_connects::managers::create_project_manager::{create_project, env_content_exec, local_toml_exec};
use pconnect::php_connects::managers::mysql_manager::{get_mysql_bin, mysql_setup_sql_exec, run_mysql, stop_mysql};
use pconnect::php_connects::managers::run_manager::{orchestrator_shutdown, orchestrator_startup, ServiceTask};

fn segs(p: &PathSpec) -> Vec<String> {
    p.segments.clone()
}

fn config(php: &str, laravel: &str) -> Config {
    Config {
        project: Project { name: "loja".to_string(), edition: "fullstack".to_string() },
        stack: Stack { frontend: "vue".to_string(), backend: "laravel".to_string(), database: "mysql".to_string() },
        ports: Ports { php_port: 8000, laravel_port: 8001, mysql_port: 3307, vue_port: 5173 },
        paths: Paths { backend_dir: "./backend".to_string(), frontend_dir: "./frontend".to_string() },
        versions: Versions {
            bun_version: "1.1.0".to_string(),
            vue_version: "3".to_string(),
            laravel_version: laravel.to_string(),
            php_version: php.to_string(),
            mysql_version: "8.0.36".to_string(),
        },
        mysql: Mysql {
            db: "loja_db".to_string(),
            host: "localhost".to_string(),
            user: "root".to_string(),
            pass: "secret".to_string(),
        },
    }
}

fn global() -> GlobalConfig {
    GlobalConfig {
        versions: GlobalVersions {
            bun_version: "1.1.0".to_string(),
            php_version: "8.3.4".to_string(),
            postgresql_version: "16.2".to_string(),
        },
        installations: Installations {
            bun_install: true,
            vue_install: true,
            laravel_install: true,
            php_install: true,
            postgresql_install: true,
        },
    }
}

#[test]
fn versions_accepted_and_refused() {
    assert_eq!(validate_versions(&config("8.5.4", "13")), Ok(()));
    assert_eq!(validate_versions(&config("9.0", "13.1")), Ok(()));
    assert_eq!(validate_versions(&config("8.4.0", "13")), Err(VersionError::PhpTooOld));
    assert_eq!(validate_versions(&config("8.5.4", "12")), Err(VersionError::LaravelTooOld));
    assert_eq!(validate_versions(&config("8.5.4", "100")), Ok(()));
    assert_eq!(validate_versions(&config("10.0", "13")), Ok(()));
}

#[test]
fn versions_compare_part_by_part_as_numbers() {
    assert_eq!(validate_versions(&config("10.0.0", "13")), Ok(()));
    assert_eq!(validate_versions(&config("8.5.4", "9")), Err(VersionError::LaravelTooOld));
    assert_eq!(validate_versions(&config("8.5.10", "13")), Ok(()));
    assert_eq!(validate_versions(&config("8.5", "13")), Err(VersionError::PhpTooOld));
    assert_eq!(validate_versions(&config("8.5.4-rc1", "13.0.0")), Ok(()));
    assert_eq!(validate_versions(&config("8.5.3", "13")), Err(VersionError::PhpTooOld));
    assert_eq!(validate_versions(&config("99999999999999999999.0", "13")), Ok(()));
    assert_eq!(validate_versions(&config("", "13")), Err(VersionError::PhpTooOld));
}

#[test]
fn local_toml_names_database_after_project() {
    let t = local_toml_exec("loja");
    assert!(t.starts_with("[ports]\n    php_port = 8000\n"));
    assert!(t.contains("db = \"loja_db\""));
    assert!(t.contains("postgresql_port = 5432"));
    assert!(t.contains("pass = \"admin\""));
}

#[test]
fn env_content_points_laravel_at_postgresql() {
    let env = "DB_CONNECTION=sqlite\n# DB_HOST=127.0.0.1\nDB_PORT=3306\nDB_DATABASE=laravel\nDB_USERNAME=root\nDB_PASSWORD=\n";
    assert_eq!(
        env_content_exec(env, "loja"),
        "DB_CONNECTION=pgsql\nDB_HOST=127.0.0.1\nDB_PORT=5432\nDB_DATABASE=loja_db\nDB_USERNAME=postgres\nDB_PASSWORD=admin\n"
    );
    let other = "APP_NAME=Laravel\n";
    assert_eq!(env_content_exec(other, "loja"), other);
}

#[test]
fn hosts_registration_appends_once() {
    assert_eq!(hosts_entry_exec("loja"), "\n127.0.0.1  loja.local");
    let hosts = "127.0.0.1 localhost";
    assert!(needs_registration(hosts, "loja"));
    let after = format!("{}{}", hosts, hosts_entry_exec("loja"));
    assert!(!needs_registration(&after, "loja"));

    let mut m = register_local_domain("loja");
    let st = m.step(Outcome::Begin);
    assert!(matches!(&st.op, Op::AppendFile(p, t, OnFailure::Abort(_))
        if segs(p) == vec!["C:\\Windows\\System32\\drivers\\etc\\hosts"] && t.is_empty()));
    let st = m.step(Outcome::Ack);
    assert!(matches!(&st.op, Op::ReadFile(p, OnFailure::Ignore) if segs(p) == vec!["C:\\Windows\\System32\\drivers\\etc\\hosts"]));
    let st = m.step(Outcome::Text(hosts.to_string()));
    assert!(matches!(&st.op, Op::AppendFile(_, line, _) if line == "\n127.0.0.1  loja.local"));
    let st = m.step(Outcome::Ack);
    assert!(matches!(&st.notes[0], Notice::DomainRegistered(n) if n == "loja"));

    let mut m = register_local_domain("loja");
    m.step(Outcome::Begin);
    m.step(Outcome::Ack);
    let st = m.step(Outcome::Text(after));
    assert!(matches!(st.op, Op::Halt));
    assert!(st.notes.is_empty());
}

#[test]
fn create_project_refuses_existing_folder() {
    let mut m = create_project("Loja", &global());
    let st = m.step(Outcome::Begin);
    assert!(matches!(st.op, Op::CurrentDir));
    let st = m.step(Outcome::Text("D:/w".to_string()));
    assert!(matches!(&st.op, Op::CheckExists(p) if segs(p) == vec!["D:/w", "Loja"]));
    let st = m.step(Outcome::Exists(true));
    assert!(matches!(&st.notes[0], Notice::ProjectExists(n) if n == "Loja"));
    assert!(matches!(st.op, Op::Halt));
}

#[test]
fn create_project_writes_folder_and_config() {
    let mut m = create_project("Loja", &global());
    m.step(Outcome::Begin);
    m.step(Outcome::Text("D:/w".to_string()));
    let st = m.step(Outcome::Exists(false));
    assert!(matches!(&st.notes[0], Notice::CreatingProject(n) if n == "Loja"));
    assert!(matches!(&st.op, Op::CreateDirAll(p, OnFailure::Abort(_)) if segs(p) == vec!["D:/w", "Loja"]));
    let st = m.step(Outcome::Ack);
    match &st.op {
        Op::WriteFile(p, t, _) => {
            assert_eq!(segs(p), vec!["D:/w", "Loja", "pconnect.cfg.toml"]);
            assert_eq!(*t, local_toml_exec("loja"));
        },
        other => panic!("unexpected {:?}", other),
    }
}

#[test]
fn mysql_paths_and_sql() {
    assert_eq!(segs(&get_mysql_bin(true, "C:/U", "8.0.36")), vec!["C:/U", ".php-connects", "mysql-8.0.36", "bin", "mysqld.exe"]);
    assert_eq!(segs(&get_mysql_bin(false, "C:/U", "8.0.36")), vec!["mysqld.exe"]);
    assert_eq!(
        mysql_setup_sql_exec("secret", "loja_db"),
        "ALTER USER 'root'@'localhost' IDENTIFIED BY 'secret'; CREATE DATABASE IF NOT EXISTS loja_db; FLUSH PRIVILEGES;"
    );
}

#[test]
fn mysql_first_run_with_system_binaries() {
    let mut m = run_mysql(&config("8.5.4", "13"), false);
    let st = m.step(Outcome::Begin);
    assert!(matches!(&st.op, Op::CheckExists(p) if segs(p) == vec![".pconnect_mysql.pid"]));
    let st = m.step(Outcome::Exists(false));
    assert!(matches!(st.op, Op::CurrentDir));
    let st = m.step(Outcome::Text("D:/p".to_string()));
    assert!(matches!(&st.op, Op::CheckExists(p) if segs(p) == vec!["D:/p", ".cache", "mysql"]));
    let st = m.step(Outcome::Exists(false));
    assert!(matches!(st.notes[0], Notice::InitializingData(Service::MySql)));
    let st = m.step(Outcome::Ack);
    assert!(matches!(&st.op, Op::Run(_, RunMode::Output)));
    let st = m.step(Outcome::Finished(Ok(true)));
    assert!(matches!(st.notes[0], Notice::Starting(Service::MySql, 3307)));
    let st = m.step(Outcome::Spawned(Ok(12)));
    assert!(matches!(&st.op, Op::WriteFile(_, c, _) if c == "12"));
    let st = m.step(Outcome::Ack);
    assert!(matches!(st.op, Op::Sleep(5)));
    let st = m.step(Outcome::Ack);
    assert!(matches!(&st.op, Op::Run(c, RunMode::Status) if segs(&c.program) == vec!["mysql.exe"]));
}

#[test]
fn mysql_stop_is_quiet() {
    let mut m = stop_mysql();
    let st = m.step(Outcome::Begin);
    assert!(matches!(&st.op, Op::CheckExists(p) if segs(p) == vec![".pconnect_mysql.pid"]));
}

#[test]
fn orchestrator_starts_database_first_and_stops_all() {
    assert_eq!(orchestrator_startup(), vec![ServiceTask::RunPostgreSql, ServiceTask::RunPhp, ServiceTask::RunFrontend]);
    assert_eq!(orchestrator_shutdown(), vec![ServiceTask::StopPostgreSql, ServiceTask::StopPhp, ServiceTask::StopFrontend]);
}

#[test]
fn global_bin_found_directly() {
    let mut m = get_global_bin("C:/U", "php", "8.3.4", "php.exe");
    let st = m.step(Outcome::Begin);
    assert!(matches!(&st.op, Op::CheckExists(p) if segs(p) == vec!["C:/U", ".pconnect", "php-8.3.4", "php.exe"]));
    let st = m.step(Outcome::Exists(true));
    assert!(matches!(st.op, Op::Halt));
    assert_eq!(segs(&m.result), vec!["C:/U", ".pconnect", "php-8.3.4", "php.exe"]);
}

#[test]
fn global_bin_found_in_subfolder() {
    let mut m = get_global_bin("C:/U", "postgres", "16.2", "psql.exe");
    m.step(Outcome::Begin);
    let st = m.step(Outcome::Exists(false));
    assert!(matches!(&st.op, Op::CheckExists(p) if segs(p) == vec!["C:/U", ".pconnect", "postgres-16.2", "pgsql", "bin", "psql.exe"]));
    let st = m.step(Outcome::Exists(false));
    assert!(matches!(&st.op, Op::ListDir(_)));
    m.step(Outcome::Listing(Ok(vec!["x".to_string()])));
    let st = m.step(Outcome::Exists(true));
    assert!(matches!(&st.op, Op::CheckExists(p) if segs(p) == vec!["C:/U", ".pconnect", "postgres-16.2", "x", "psql.exe"]));
    let st = m.step(Outcome::Exists(false));
    assert!(matches!(&st.op, Op::CheckExists(p) if segs(p) == vec!["C:/U", ".pconnect", "postgres-16.2", "x", "bin", "psql.exe"]));
    m.step(Outcome::Exists(true));
    assert_eq!(segs(&m.result), vec!["C:/U", ".pconnect", "postgres-16.2", "x", "bin", "psql.exe"]);
}

#[test]
fn subfolder_search_defaults_to_missing_base() {
    let mut m = find_subfolder_bin(&PathSpec::single("B"), "bin");
    let st = m.step(Outcome::Begin);
    assert!(matches!(&st.op, Op::CheckExists(p) if segs(p) == vec!["B"]));
    m.step(Outcome::Exists(false));
    assert_eq!(segs(&m.result), vec!["B"]);
}

#[test]
fn installer_names_and_path() {
    assert_eq!(installed_name_exec("pconnect_tool-x86_64.exe"), "pconnect.exe");
    assert_eq!(installed_name_exec("pconnect.exe"), "pconnect.exe");
    assert_eq!(installed_name_exec("pconnect_global.cfg.toml"), "pconnect_global.cfg.toml");
    assert_eq!(setup_env_variables("C:\\bin"), Some("C:\\bin;%PCONNECT%".to_string()));
    assert_eq!(setup_env_variables("C:\\bin;%PCONNECT%"), None);
    assert_eq!(setup_env_variables(""), Some(";%PCONNECT%".to_string()));
}

#[test]
fn installer_runs_to_the_tool_install() {
    let mut m = run_install();
    let st = m.step(Outcome::Begin);
    assert!(matches!(st.notes[0], Notice::InstallerStarting));
    assert!(matches!(&st.op, Op::ReadEnv(n, OnFailure::Report) if n == "USERPROFILE"));
    let st = m.step(Outcome::Text("C:/U".to_string()));
    assert!(matches!(&st.op, Op::CheckExists(p) if segs(p) == vec!["C:/U", ".pconnect"]));
    let st = m.step(Outcome::Exists(true));
    assert!(matches!(&st.op, Op::Fetch(u, Some(a))
        if u == "https://github.com/OsPrimatas/PConnect/releases/latest/download/pconnect_tool.zip" && a == "PConnect-Installer"));
    let mut w = zip::ZipWriter::new(std::io::Cursor::new(Vec::new()));
    w.add_directory("pconnect_tool/", zip::write::SimpleFileOptions::default()).unwrap();
    let bytes = w.finish().unwrap().into_inner();
    let st = m.step(Outcome::Fetched(Ok((200, bytes))));
    assert!(matches!(st.notes[0], Notice::Extracting));
    assert!(matches!(&st.op, Op::CreateDirAll(p, OnFailure::Report) if segs(p) == vec!["C:/U", ".pconnect", "pconnect_tool/"]));
    let st = m.step(Outcome::Ack);
    assert!(matches!(st.notes[0], Notice::Organizing));
    assert!(matches!(&st.op, Op::CheckIsDir(p) if segs(p) == vec!["C:/U", ".pconnect", "pconnect_tool"]));
    let st = m.step(Outcome::Exists(true));
    assert!(matches!(&st.op, Op::ListDir(_)));
    let st = m.step(Outcome::Listing(Ok(vec!["pconnect_tool-v2.exe".to_string()])));
    assert!(matches!(&st.op, Op::CheckExists(p) if segs(p) == vec!["C:/U", ".pconnect", "pconnect.exe"]));
    let st = m.step(Outcome::Exists(true));
    assert!(matches!(&st.op, Op::RemoveFile(_, OnFailure::Report)));
    let st = m.step(Outcome::Ack);
    assert!(matches!(&st.op, Op::Rename(from, to, _)
        if segs(from) == vec!["C:/U", ".pconnect", "pconnect_tool", "pconnect_tool-v2.exe"]
            && segs(to) == vec!["C:/U", ".pconnect", "pconnect.exe"]));
    let st = m.step(Outcome::Ack);
    assert!(matches!(&st.notes[0], Notice::Moved(n) if n == "pconnect.exe"));
    assert!(matches!(&st.op, Op::RemoveDirAll(_, _)));
    let st = m.step(Outcome::Ack);
    assert!(matches!(st.notes[0], Notice::TempRemoved));
    let st = m.step(Outcome::Exists(true));
    assert!(matches!(&st.op, Op::SetUserEnv(n, _, _) if n == "PCONNECT"));
    let st = m.step(Outcome::Ack);
    assert!(matches!(&st.op, Op::ReadUserEnv(n) if n == "Path"));
    let st = m.step(Outcome::Text("C:\\x".to_string()));
    assert!(matches!(&st.op, Op::SetUserEnv(n, pconnect::effects::CommandArg::Text(v), _) if n == "Path" && v == "C:\\x;%PCONNECT%"));
    let st = m.step(Outcome::Ack);
    assert!(matches!(st.notes[0], Notice::RunningInstall));
    assert!(matches!(&st.op, Op::Run(_, RunMode::Status)));
    let st = m.step(Outcome::Finished(Ok(true)));
    assert!(matches!(st.notes[0], Notice::InstallerFinished(true)));
    assert!(matches!(st.op, Op::Halt));
}

#[test]
fn installer_stops_on_unreadable_archive() {
    let mut m = run_install();
    m.step(Outcome::Begin);
    m.step(Outcome::Text("C:/U".to_string()));
    m.step(Outcome::Exists(true));
    let st = m.step(Outcome::Fetched(Ok((200, b"nope".to_vec()))));
    assert!(matches!(st.op, Op::Halt));
    assert!(matches!(st.notes.last().unwrap(), Notice::Fatal(_)));
}

#[test]
fn mysql_second_run_reuses_data() {
    let mut m = run_mysql(&config("8.5.4", "13"), true);
    m.step(Outcome::Begin);
    let st = m.step(Outcome::Exists(false));
    assert!(matches!(&st.op, Op::ReadEnv(n, _) if n == "USERPROFILE"));
    m.step(Outcome::Text("C:/U".to_string()));
    m.step(Outcome::Text("D:/p".to_string()));
    let st = m.step(Outcome::Exists(true));
    assert!(matches!(&st.op, Op::CheckExists(p)
        if segs(p) == vec!["C:/U", ".php-connects", "mysql-8.0.36", "bin", "mysqld.exe"]));
    let st = m.step(Outcome::Exists(true));
    assert!(matches!(st.notes[0], Notice::Starting(Service::MySql, 3307)));
    assert!(matches!(&st.op, Op::Spawn(_)));
    m.step(Outcome::Spawned(Ok(8)));
    let st = m.step(Outcome::Ack);
    assert!(matches!(st.notes[0], Notice::Started(Service::MySql, 8)));
    assert!(matches!(st.op, Op::Halt));
}

#[test]
fn mysql_running_server_not_restarted() {
    let mut m = run_mysql(&config("8.5.4", "13"), true);
    m.step(Outcome::Begin);
    let st = m.step(Outcome::Exists(true));
    assert!(matches!(st.notes[0], Notice::AlreadyRunning(Service::MySql)));
    assert!(matches!(st.op, Op::Halt));
}

#[test]
fn installer_writes_readable_entries_then_fails() {
    let mut w = zip::ZipWriter::new(std::io::Cursor::new(Vec::new()));
    let options = zip::write::SimpleFileOptions::default().compression_method(zip::CompressionMethod::Stored);
    w.start_file("pconnect_tool/a.toml", options).unwrap();
    w.write_all(b"alpha").unwrap();
    w.start_file("pconnect_tool/b.exe", options).unwrap();
    w.write_all(b"omega").unwrap();
    let mut bytes = w.finish().unwrap().into_inner();
    let at = bytes.windows(5).position(|x| x == b"omega").unwrap();
    bytes[at] ^= 0x20;

    let mut m = run_install();
    m.step(Outcome::Begin);
    m.step(Outcome::Text("C:/U".to_string()));
    m.step(Outcome::Exists(true));
    let st = m.step(Outcome::Fetched(Ok((200, bytes))));
    assert!(matches!(&st.op, Op::CreateParentDirAll(_, _)));
    let st = m.step(Outcome::Ack);
    assert!(matches!(&st.op, Op::WriteBytes(_, b, _) if b == b"alpha"));
    let st = m.step(Outcome::Ack);
    assert!(matches!(&st.op, Op::CreateParentDirAll(p, _) if p.segments.last().unwrap() == "pconnect_tool/b.exe"));
    let st = m.step(Outcome::Ack);
    assert!(matches!(&st.op, Op::WriteBytes(_, b, _) if b.is_empty()));
    let st = m.step(Outcome::Ack);
    assert!(matches!(st.notes.last().unwrap(), Notice::Fatal(_)));
    assert!(matches!(st.op, Op::Halt));
}
