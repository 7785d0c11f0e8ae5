use std::io::{Cursor, Write};

use pconnect::archive::{read_archive, read_for_extraction_exec, NameRule};
use pconnect::effects::{Edition, FetchFailure, Notice, OnFailure, Op, Outcome, PathSpec, RunMode, Service};
use pconnect::install_jobs::{
    configure_php, download_and_extract, download_composer, download_url_exec, extraction_ops,
    fix_bun_structure, install_with, php_ini_from_development, plan_installation, program_dir_exec,
    InstallJob, InstallSettings, Program,
};
use pconnect::pconnect_tool::configs::pconnect_cfg::{GlobalConfig, Installations, Versions};
use pconnect::pconnect_tool::managers::download_manager::install_all;
use zip::write::SimpleFileOptions;
use zip::ZipWriter;

fn segs(p: &PathSpec) -> Vec<String> {
    p.segments.clone()
}

fn zip_of(entries: &[(&str, Option<&[u8]>)]) -> Vec<u8> {
    let mut w = ZipWriter::new(Cursor::new(Vec::new()));
    for (name, contents) in entries {
        match contents {
            Some(bytes) => {
                w.start_file(*name, SimpleFileOptions::default()).unwrap();
                w.write_all(bytes).unwrap();
            },
            None => {
                w.add_directory(*name, SimpleFileOptions::default()).unwrap();
            },
        }
    }
    w.finish().unwrap().into_inner()
}

#[test]
fn download_urls_per_edition() {
    assert_eq!(
        download_url_exec(Edition::Current, Program::Php, "8.3.4"),
        "https://downloads.php.net/~windows/releases/archives/php-8.3.4-nts-Win32-vs17-x64.zip"
    );
    assert_eq!(
        download_url_exec(Edition::Classic, Program::Php, "8.3.4"),
        "https://windows.php.net/downloads/releases/archives/php-8.3.4-Win32-vs16-x64.zip"
    );
    assert_eq!(
        download_url_exec(Edition::Current, Program::Bun, "1.1.0"),
        "https://github.com/oven-sh/bun/releases/download/bun-v1.1.0/bun-windows-x64-baseline.zip"
    );
    assert_eq!(
        download_url_exec(Edition::Classic, Program::Bun, "1.1.0"),
        "https://github.com/oven-sh/bun/releases/download/bun-v1.1.0/bun-windows-x64.zip"
    );
    assert_eq!(
        download_url_exec(Edition::Current, Program::PostgreSql, "16.2"),
        "https://get.enterprisedb.com/postgresql/postgresql-16.2-1-windows-x64-binaries.zip"
    );
    assert_eq!(
        download_url_exec(Edition::Classic, Program::MySql, "8.0.36"),
        "https://dev.mysql.com/get/Downloads/MySQL-8.0/mysql-8.0.36-winx64.zip"
    );
}

#[test]
fn program_dirs_are_named_by_version() {
    let base = PathSpec::single("C:/U").join(".pconnect");
    assert_eq!(segs(&program_dir_exec(&base, Program::PostgreSql, "16.2")), vec!["C:/U", ".pconnect", "postgres-16.2"]);
    assert_eq!(segs(&program_dir_exec(&base, Program::Bun, "1.1.0")), vec!["C:/U", ".pconnect", "bun-1.1.0"]);
}

#[test]
fn read_archive_reads_every_entry_in_order() {
    let bytes = zip_of(&[("dir/", None), ("dir/a.txt", Some(b"alpha")), ("b.bin", Some(&[0u8, 1, 2, 255]))]);
    let entries = read_archive(bytes).unwrap();
    assert_eq!(entries.len(), 3);
    assert_eq!(entries[0].name, "dir/");
    assert_eq!(entries[1].name, "dir/a.txt");
    assert_eq!(entries[1].contents, b"alpha".to_vec());
    assert_eq!(entries[1].enclosed_name.as_deref(), Some("dir/a.txt"));
    assert_eq!(entries[2].contents, vec![0u8, 1, 2, 255]);
}

#[test]
fn read_archive_refuses_garbage() {
    assert!(read_archive(b"not a zip at all".to_vec()).is_err());
    assert!(read_archive(Vec::new()).is_err());
}

#[test]
fn unsafe_entry_has_no_enclosed_name() {
    let bytes = zip_of(&[("../evil.txt", Some(b"x"))]);
    let entries = read_archive(bytes).unwrap();
    assert_eq!(entries[0].name, "../evil.txt");
    assert!(entries[0].enclosed_name.is_none());
}

#[test]
fn current_extraction_skips_metadata_and_unsafe_names() {
    let bytes = zip_of(&[
        ("__MACOSX/._a", Some(b"meta")),
        ("../evil.txt", Some(b"x")),
        ("pkg/", None),
        ("pkg/php.exe", Some(b"MZ")),
    ]);
    let entries = read_archive(bytes).unwrap();
    let root = PathSpec::single("R");
    let ops = extraction_ops(Edition::Current, &root, &entries);
    assert_eq!(ops.len(), 3);
    assert!(matches!(&ops[0], Op::CreateDirAll(p, OnFailure::Unwrap) if segs(p) == vec!["R", "pkg/"]));
    assert!(matches!(&ops[1], Op::CreateParentDirAll(p, OnFailure::Ignore) if segs(p) == vec!["R", "pkg/php.exe"]));
    assert!(matches!(&ops[2], Op::WriteBytes(p, b, OnFailure::Unwrap) if segs(p) == vec!["R", "pkg/php.exe"] && b == b"MZ"));
}

#[test]
fn classic_extraction_keeps_every_entry() {
    let bytes = zip_of(&[("a/", None), ("a/b.txt", Some(b"b"))]);
    let entries = read_archive(bytes).unwrap();
    let ops = extraction_ops(Edition::Classic, &PathSpec::single("R"), &entries);
    assert_eq!(ops.len(), 3);
    assert!(matches!(&ops[0], Op::CreateDirAll(_, OnFailure::Unwrap)));
    assert!(matches!(&ops[2], Op::WriteBytes(_, b, _) if b == b"b"));
}

#[test]
fn download_and_extract_runs_the_plan() {
    let base = PathSpec::single("B");
    let url = download_url_exec(Edition::Current, Program::Php, "8.3.4");
    let mut job = download_and_extract(Edition::Current, Program::Php, url.clone(), "8.3.4", &base);
    let st = job.step(Outcome::Begin);
    assert!(matches!(&st.op, Op::CheckExists(p) if segs(p) == vec!["B", "php-8.3.4"]));
    let st = job.step(Outcome::Exists(false));
    assert!(matches!(&st.notes[0], Notice::Downloading(n, v) if n == "php" && v == "8.3.4"));
    assert!(matches!(&st.op, Op::Fetch(u, Some(agent)) if *u == url && agent == "Mozilla/5.0"));
    let bytes = zip_of(&[("php.exe", Some(b"MZ"))]);
    let st = job.step(Outcome::Fetched(Ok((200, bytes))));
    assert!(matches!(&st.op, Op::CreateParentDirAll(p, _) if segs(p) == vec!["B", "php-8.3.4", "php.exe"]));
    let st = job.step(Outcome::Ack);
    assert!(matches!(&st.op, Op::WriteBytes(p, b, _) if segs(p) == vec!["B", "php-8.3.4", "php.exe"] && b == b"MZ"));
    let st = job.step(Outcome::Ack);
    assert!(matches!(st.op, Op::Halt));
}

#[test]
fn installed_program_is_not_downloaded_again() {
    let base = PathSpec::single("B");
    let mut job = download_and_extract(Edition::Classic, Program::MySql, "u".to_string(), "8.0.36", &base);
    job.step(Outcome::Begin);
    let st = job.step(Outcome::Exists(true));
    assert!(matches!(&st.notes[0], Notice::AlreadyInstalled(n, v) if n == "mysql" && v == "8.0.36"));
    assert!(matches!(st.op, Op::Halt));
}

#[test]
fn unreadable_archive_stops_with_message() {
    let base = PathSpec::single("B");
    let mut job = download_and_extract(Edition::Current, Program::Bun, "u".to_string(), "1.1.0", &base);
    job.step(Outcome::Begin);
    job.step(Outcome::Exists(false));
    let st = job.step(Outcome::Fetched(Ok((200, b"garbage".to_vec()))));
    assert!(matches!(&st.op, Op::Abort(m) if m.starts_with("Erro no ZIP: ")));
}

#[test]
fn failed_download_stops_with_message() {
    let base = PathSpec::single("B");
    let mut job = download_and_extract(Edition::Classic, Program::Php, "u".to_string(), "8.3.4", &base);
    job.step(Outcome::Begin);
    job.step(Outcome::Exists(false));
    let st = job.step(Outcome::Fetched(Err(FetchFailure::Connect("timeout".to_string()))));
    assert!(matches!(&st.op, Op::Abort(m) if m == "Falha ao baixar php: timeout"));
}

#[test]
fn classic_mysql_is_initialized_after_extraction() {
    let base = PathSpec::single("B");
    let mut job = download_and_extract(Edition::Classic, Program::MySql, "u".to_string(), "8.0.36", &base);
    job.step(Outcome::Begin);
    job.step(Outcome::Exists(false));
    let st = job.step(Outcome::Fetched(Ok((200, zip_of(&[])))));
    assert!(matches!(st.notes[0], Notice::Extracting));
    assert!(matches!(&st.notes[1], Notice::Installed(n, v, _) if n == "mysql" && v == "8.0.36"));
    assert!(matches!(&st.op, Op::CheckExists(p) if segs(p) == vec!["B", "mysql-8.0.36", "bin", "mysqld.exe"]));
    let st = job.step(Outcome::Exists(true));
    assert!(matches!(st.notes[0], Notice::InitializingInstallation(Service::MySql)));
    assert!(matches!(&st.op, Op::Run(_, RunMode::Status)));
    let st = job.step(Outcome::Finished(Ok(true)));
    assert!(matches!(st.notes[0], Notice::InstallationInitialized(Service::MySql, true)));
}

#[test]
fn php_ini_enables_extensions() {
    let dev = ";extension_dir = \"ext\"\n;extension=curl\n;extension=pgsql\n;extension=pdo_pgsql\n;extension=gd\n";
    assert_eq!(
        php_ini_from_development(dev),
        "extension_dir = \"ext\"\nextension=curl\nextension=pgsql\nextension=pdo_pgsql\n;extension=gd\n"
    );
}

#[test]
fn php_ini_written_only_when_missing() {
    let dir = PathSpec::single("P");
    let mut job = configure_php(&dir);
    let st = job.step(Outcome::Begin);
    assert!(matches!(&st.op, Op::CheckExists(p) if segs(p) == vec!["P", "php.ini-development"]));
    let st = job.step(Outcome::Exists(true));
    assert!(matches!(&st.op, Op::CheckExists(p) if segs(p) == vec!["P", "php.ini"]));
    let st = job.step(Outcome::Exists(true));
    assert!(matches!(st.op, Op::Halt));

    let mut job = configure_php(&dir);
    job.step(Outcome::Begin);
    job.step(Outcome::Exists(true));
    job.step(Outcome::Exists(false));
    let st = job.step(Outcome::Text(";extension=curl".to_string()));
    assert!(matches!(&st.op, Op::WriteFile(p, t, OnFailure::Unwrap) if segs(p) == vec!["P", "php.ini"] && t == "extension=curl"));
}

#[test]
fn composer_written_only_on_success() {
    let dir = PathSpec::single("P");
    let mut job = download_composer(&dir);
    job.step(Outcome::Begin);
    let st = job.step(Outcome::Exists(false));
    assert!(matches!(&st.op, Op::Fetch(u, _) if u == "https://getcomposer.org/composer.phar"));
    let st = job.step(Outcome::Fetched(Ok((200, b"phar".to_vec()))));
    assert!(matches!(&st.op, Op::WriteBytes(p, b, _) if segs(p) == vec!["P", "composer.phar"] && b == b"phar"));
    let st = job.step(Outcome::Ack);
    assert!(matches!(st.notes[0], Notice::ComposerInstalled));

    let mut job = download_composer(&dir);
    job.step(Outcome::Begin);
    job.step(Outcome::Exists(false));
    let st = job.step(Outcome::Fetched(Ok((404, Vec::new()))));
    assert!(matches!(st.op, Op::Halt));
}

#[test]
fn bun_files_move_up_one_folder() {
    let mut job = fix_bun_structure("1.1.0", &PathSpec::single("B"));
    let st = job.step(Outcome::Begin);
    assert!(matches!(&st.op, Op::ListDir(p) if segs(p) == vec!["B", "bun-1.1.0"]));
    let st = job.step(Outcome::Listing(Ok(vec!["bun-windows-x64-baseline".to_string()])));
    assert!(matches!(&st.op, Op::CheckIsDir(_)));
    let st = job.step(Outcome::Exists(true));
    assert!(matches!(&st.op, Op::ListDir(p) if segs(p) == vec!["B", "bun-1.1.0", "bun-windows-x64-baseline"]));
    let st = job.step(Outcome::Listing(Ok(vec!["bun.exe".to_string()])));
    assert!(matches!(&st.op, Op::CheckExists(p) if segs(p) == vec!["B", "bun-1.1.0", "bun.exe"]));
    let st = job.step(Outcome::Exists(false));
    assert!(matches!(&st.op, Op::Rename(from, to, _)
        if segs(from) == vec!["B", "bun-1.1.0", "bun-windows-x64-baseline", "bun.exe"]
            && segs(to) == vec!["B", "bun-1.1.0", "bun.exe"]));
    let st = job.step(Outcome::Ack);
    assert!(matches!(&st.op, Op::RemoveDirAll(p, _) if segs(p) == vec!["B", "bun-1.1.0", "bun-windows-x64-baseline"]));
    let st = job.step(Outcome::Ack);
    assert!(matches!(st.op, Op::Halt));
}

#[test]
fn plan_installation_orders_jobs() {
    let settings = InstallSettings {
        edition: Edition::Current,
        php: Some("8.3.4".to_string()),
        postgresql: None,
        mysql: None,
        bun: Some("1.1.0".to_string()),
    };
    let jobs = plan_installation(&settings, &PathSpec::single("B"));
    assert_eq!(jobs.len(), 5);
    assert!(matches!(jobs[0], InstallJob::Extract(_)));
    assert!(matches!(jobs[1], InstallJob::PhpIni(_)));
    assert!(matches!(jobs[2], InstallJob::Composer(_)));
    assert!(matches!(jobs[3], InstallJob::Extract(_)));
    assert!(matches!(jobs[4], InstallJob::BunFix(_)));
}

#[test]
fn install_all_asks_home_then_runs_jobs() {
    let global = GlobalConfig {
        versions: Versions {
            bun_version: "1.1.0".to_string(),
            php_version: "8.3.4".to_string(),
            postgresql_version: "16.2".to_string(),
        },
        installations: Installations {
            bun_install: false,
            vue_install: false,
            laravel_install: false,
            php_install: false,
            postgresql_install: true,
        },
    };
    let mut m = install_all(&global);
    let st = m.step(Outcome::Begin);
    assert!(matches!(&st.op, Op::ReadEnv(n, _) if n == "USERPROFILE"));
    let st = m.step(Outcome::Text("C:/U".to_string()));
    assert!(matches!(&st.op, Op::CheckExists(p) if segs(p) == vec!["C:/U", ".pconnect"]));
    let st = m.step(Outcome::Exists(true));
    assert!(matches!(&st.op, Op::CheckExists(p) if segs(p) == vec!["C:/U", ".pconnect", "postgres-16.2"]));
    let st = m.step(Outcome::Exists(true));
    assert!(matches!(&st.notes[0], Notice::AlreadyInstalled(n, _) if n == "postgres"));
    assert!(matches!(st.op, Op::Halt));
}

#[test]
fn empty_installation_ends_at_once() {
    let settings = InstallSettings { edition: Edition::Classic, php: None, postgresql: None, mysql: None, bun: None };
    let mut m = install_with(settings);
    m.step(Outcome::Begin);
    m.step(Outcome::Text("H".to_string()));
    let st = m.step(Outcome::Exists(false));
    assert!(matches!(&st.op, Op::CreateDirAll(p, OnFailure::Unwrap) if segs(p) == vec!["H", ".php-connects"]));
    let st = m.step(Outcome::Ack);
    assert!(matches!(st.op, Op::Halt));
}

#[test]
fn installation_jobs_work_under_base() {
    let settings = InstallSettings {
        edition: Edition::Classic,
        php: Some("8.3.4".to_string()),
        postgresql: Some("16.2".to_string()),
        mysql: Some("8.0.36".to_string()),
        bun: Some("1.1.0".to_string()),
    };
    let jobs = plan_installation(&settings, &PathSpec::single("H").join(".php-connects"));
    assert_eq!(jobs.len(), 4);
    for j in &jobs {
        match j {
            InstallJob::Extract(e) => assert_eq!(segs(&e.base), vec!["H", ".php-connects"]),
            _ => panic!("the classic edition only downloads and extracts"),
        }
    }
}

fn stored_zip(entries: &[(&str, &[u8])]) -> Vec<u8> {
    let mut w = ZipWriter::new(Cursor::new(Vec::new()));
    let options = SimpleFileOptions::default().compression_method(zip::CompressionMethod::Stored);
    for (name, bytes) in entries {
        w.start_file(*name, options).unwrap();
        w.write_all(bytes).unwrap();
    }
    w.finish().unwrap().into_inner()
}

fn corrupt(bytes: &mut Vec<u8>, needle: &[u8]) {
    let at = bytes.windows(needle.len()).position(|w| w == needle).unwrap();
    bytes[at] ^= 0x20;
}

#[test]
fn unreadable_entry_stops_after_earlier_entries() {
    let mut bytes = stored_zip(&[("a.txt", b"hello"), ("b.txt", b"world"), ("c.txt", b"later")]);
    corrupt(&mut bytes, b"world");
    assert!(read_archive(bytes.clone()).is_err());
    let (entries, stop) = read_for_extraction_exec(NameRule::SafeNames, bytes.clone()).unwrap();
    assert_eq!(entries.len(), 1);
    assert_eq!(entries[0].name, "a.txt");
    let (header, _) = stop.unwrap();
    assert_eq!(header.unwrap().name, "b.txt");

    let base = PathSpec::single("B");
    let mut job = download_and_extract(Edition::Current, Program::Php, "u".to_string(), "8.3.4", &base);
    job.step(Outcome::Begin);
    job.step(Outcome::Exists(false));
    let st = job.step(Outcome::Fetched(Ok((200, bytes))));
    assert!(matches!(&st.op, Op::CreateParentDirAll(p, _) if segs(p) == vec!["B", "php-8.3.4", "a.txt"]));
    let st = job.step(Outcome::Ack);
    assert!(matches!(&st.op, Op::WriteBytes(_, b, _) if b == b"hello"));
    let st = job.step(Outcome::Ack);
    assert!(matches!(&st.op, Op::CreateParentDirAll(p, _) if segs(p) == vec!["B", "php-8.3.4", "b.txt"]));
    let st = job.step(Outcome::Ack);
    assert!(matches!(&st.op, Op::WriteBytes(p, b, _) if segs(p) == vec!["B", "php-8.3.4", "b.txt"] && b.is_empty()));
    let st = job.step(Outcome::Ack);
    assert!(matches!(&st.op, Op::Abort(m) if m.starts_with("Erro no ZIP: ")));
}

#[test]
fn unreadable_skipped_entry_does_not_stop_extraction() {
    let mut bytes = stored_zip(&[("__MACOSX/._a", b"broken"), ("a.txt", b"hello")]);
    corrupt(&mut bytes, b"broken");
    assert!(read_archive(bytes.clone()).is_err());
    let (entries, stop) = read_for_extraction_exec(NameRule::SafeNames, bytes.clone()).unwrap();
    assert_eq!(entries.len(), 2);
    assert!(stop.is_none());
    assert!(entries[0].contents.is_empty());
    assert_eq!(entries[1].contents, b"hello".to_vec());

    let base = PathSpec::single("B");
    let mut job = download_and_extract(Edition::Current, Program::Php, "u".to_string(), "8.3.4", &base);
    job.step(Outcome::Begin);
    job.step(Outcome::Exists(false));
    let st = job.step(Outcome::Fetched(Ok((200, bytes))));
    assert!(matches!(&st.op, Op::CreateParentDirAll(p, _) if segs(p) == vec!["B", "php-8.3.4", "a.txt"]));
    job.step(Outcome::Ack);
    let st = job.step(Outcome::Ack);
    assert!(matches!(st.op, Op::Halt));
}

#[test]
fn climbing_name_has_no_enclosed_name() {
    let bytes = zip_of(&[("a/../../x", Some(b"x")), ("a/../y", Some(b"y"))]);
    let (entries, stop) = read_for_extraction_exec(NameRule::SafeNames, bytes).unwrap();
    assert!(stop.is_none());
    assert!(entries[0].enclosed_name.is_none());
    assert_eq!(entries[1].enclosed_name.as_deref(), Some("a/../y"));
}

#[test]
fn read_for_extraction_reads_complete_archive() {
    let bytes = stored_zip(&[("a.txt", b"hello"), ("b.txt", b"world")]);
    let (entries, stop) = read_for_extraction_exec(NameRule::StoredNames, bytes).unwrap();
    assert_eq!(entries.len(), 2);
    assert_eq!(entries[1].contents, b"world".to_vec());
    assert!(stop.is_none());
    assert!(read_for_extraction_exec(NameRule::StoredNames, b"junk".to_vec()).is_err());
}

#[test]
fn composer_body_failure_leaves_empty_file() {
    let dir = PathSpec::single("P");
    let mut job = download_composer(&dir);
    job.step(Outcome::Begin);
    job.step(Outcome::Exists(false));
    let st = job.step(Outcome::Fetched(Err(FetchFailure::Body(200, "reset".to_string()))));
    assert!(matches!(&st.op, Op::WriteBytes(p, b, OnFailure::Unwrap) if segs(p) == vec!["P", "composer.phar"] && b.is_empty()));
    let st = job.step(Outcome::Ack);
    assert!(matches!(&st.op, Op::Abort(m) if m == "Falha ao ler o Composer: reset"));

    let mut job = download_composer(&dir);
    job.step(Outcome::Begin);
    job.step(Outcome::Exists(false));
    let st = job.step(Outcome::Fetched(Err(FetchFailure::Body(500, "reset".to_string()))));
    assert!(matches!(st.op, Op::Halt));
}

#[test]
fn mangled_names_keep_only_normal_pieces() {
    let bytes = zip_of(&[("../x/./y.txt", Some(b"y")), ("/abs/z.txt", Some(b"z")), ("ok/w.txt", Some(b"w"))]);
    let (entries, stop) = read_for_extraction_exec(NameRule::StoredNames, bytes.clone()).unwrap();
    assert!(stop.is_none());
    assert_eq!(entries[0].mangled_name, "x/y.txt");
    assert_eq!(entries[1].mangled_name, "abs/z.txt");
    assert_eq!(entries[2].mangled_name, "ok/w.txt");
    assert!(entries[0].enclosed_name.is_none());
    assert!(entries[1].enclosed_name.is_none());
    assert_eq!(entries[2].enclosed_name.as_deref(), Some("ok/w.txt"));

    let ops = extraction_ops(Edition::Classic, &PathSpec::single("R"), &entries);
    assert!(matches!(&ops[1], Op::WriteBytes(p, b, _) if segs(p) == vec!["R", "x/y.txt"] && b == b"y"));
    assert!(matches!(&ops[3], Op::WriteBytes(p, _, _) if segs(p) == vec!["R", "abs/z.txt"]));
}
