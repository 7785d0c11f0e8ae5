use pconnect::text::{
    concat2, concat3, contains_str, decimal_string, ends_with_str, replace_all,
    same_text, starts_with_str, trim_white_space,
};

#[test]
fn decimal_string_writes_numbers() {
    assert_eq!(decimal_string(0), "0");
    assert_eq!(decimal_string(7), "7");
    assert_eq!(decimal_string(10), "10");
    assert_eq!(decimal_string(5432), "5432");
    assert_eq!(decimal_string(u32::MAX), "4294967295");
}

#[test]
fn decimal_string_reads_back_through_trim() {
    for n in [0u32, 9, 42, 31337, 4294967295] {
        let written = decimal_string(n);
        assert_eq!(trim_white_space(&written), written);
        assert_eq!(trim_white_space(&written).parse::<u32>().unwrap(), n);
    }
}

#[test]
fn trim_white_space_drops_both_ends() {
    assert_eq!(trim_white_space("  1234\r\n"), "1234");
    assert_eq!(trim_white_space("\t a b \u{3000}"), "a b");
    assert_eq!(trim_white_space(""), "");
    assert_eq!(trim_white_space("   "), "");
    assert_eq!(trim_white_space("x"), "x");
}

#[test]
fn trim_white_space_matches_std() {
    for s in ["  a ", "\u{a0}b\u{2029}", "\u{85}c\u{85}", "no-space", " \n\t "] {
        assert_eq!(trim_white_space(s), s.trim());
    }
}

#[test]
fn replace_all_replaces_every_occurrence() {
    assert_eq!(replace_all("a-b-c", "-", "+"), "a+b+c");
    assert_eq!(replace_all("aaa", "aa", "b"), "ba");
    assert_eq!(replace_all("DB_PASSWORD=", "DB_PASSWORD=", "DB_PASSWORD=admin"), "DB_PASSWORD=admin");
    assert_eq!(replace_all("abc", "x", "y"), "abc");
}

#[test]
fn replace_all_matches_std_on_empty_pattern() {
    assert_eq!(replace_all("ab", "", "-"), "ab".replace("", "-"));
    assert_eq!(replace_all("", "", "-"), "-");
}

#[test]
fn replace_all_without_match_keeps_text() {
    let env = "APP_NAME=Laravel\nAPP_ENV=local\n";
    assert_eq!(replace_all(env, "DB_PORT=3306", "DB_PORT=5432"), env);
}

#[test]
fn contains_starts_ends() {
    assert!(contains_str("C:\\a\\%PCONNECT%", "%PCONNECT%"));
    assert!(!contains_str("abc", "abd"));
    assert!(contains_str("abc", ""));
    assert!(starts_with_str("pconnect_tool-v1.exe", "pconnect_tool"));
    assert!(!starts_with_str("pconnect.exe", "pconnect_tool"));
    assert!(ends_with_str("pconnect_tool-v1.exe", ".exe"));
    assert!(!ends_with_str("exe", ".exe"));
}

#[test]
fn concat_and_same_text() {
    assert_eq!(concat2("postgres-", "16.2"), "postgres-16.2");
    assert_eq!(concat3("a", "b", "c"), "abc");
    assert!(same_text("bin", "bin"));
    assert!(!same_text("bin", "Bin"));
}
