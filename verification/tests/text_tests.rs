use service_gen::text::{
    after_first_str, contains_str, eq_ignore_ascii_case, file_name_of, join, lines_of, parse_u16,
    parse_u32, replace_char_str, split_whitespace, starts_with_str, str_eq, to_wide_nul,
    trim_start_str, trim_str, u16_to_decimal, u32_to_decimal,
};

#[test]
fn split_whitespace_drops_empty_runs() {
    assert_eq!(
        split_whitespace("  -Xmx512m\t-Xms256m \u{3000} -Dx=1  "),
        vec!["-Xmx512m".to_string(), "-Xms256m".to_string(), "-Dx=1".to_string()]
    );
    assert!(split_whitespace("").is_empty());
    assert!(split_whitespace(" \n\t ").is_empty());
}

#[test]
fn join_puts_separator_between_items() {
    let items = vec!["a".to_string(), "b c".to_string(), "d".to_string()];
    assert_eq!(join(&items, " "), "a b c d");
    assert_eq!(join(&Vec::new(), " "), "");
    assert_eq!(join(&vec!["only".to_string()], ":"), "only");
}

#[test]
fn split_whitespace_undoes_join_of_words() {
    let words = vec!["-Xmx1g".to_string(), "-ea".to_string(), "-Dfile.encoding=UTF-8".to_string()];
    assert_eq!(split_whitespace(&join(&words, " ")), words);
}

#[test]
fn trim_uses_unicode_whitespace() {
    assert_eq!(trim_str("\u{a0}\t STATE : 4 RUNNING \r"), "STATE : 4 RUNNING");
    assert_eq!(trim_start_str("   x  "), "x  ");
    assert_eq!(trim_str("   "), "");
}

#[test]
fn lines_follow_str_lines() {
    let s = "a\r\nb\n\nc\r";
    let expected: Vec<String> = s.lines().map(String::from).collect();
    assert_eq!(lines_of(s), expected);
    assert_eq!(lines_of("x\n"), vec!["x".to_string()]);
    assert!(lines_of("").is_empty());
    assert_eq!(lines_of("\n"), vec!["".to_string()]);
}

#[test]
fn searching_and_comparing() {
    assert!(starts_with_str("STATE   : 4", "STATE"));
    assert!(!starts_with_str("STAT", "STATE"));
    assert!(contains_str("4  运行中", "运行中"));
    assert!(!contains_str("1  已停止", "运行中"));
    assert!(contains_str("abc", ""));
    assert_eq!(after_first_str("STATE : 4 : RUNNING", ':'), " 4 : RUNNING");
    assert_eq!(after_first_str("no colon", ':'), "");
    assert!(str_eq("a", "a"));
    assert!(!str_eq("a", "ab"));
    assert!(eq_ignore_ascii_case("AuToMaTiC", "automatic"));
    assert!(!eq_ignore_ascii_case("automatic ", "automatic"));
    assert_eq!(replace_char_str("lib\\x\\a.jar", '\\', '/'), "lib/x/a.jar");
}

#[test]
fn decimal_numbers_round_trip() {
    assert_eq!(u32_to_decimal(0), "0");
    assert_eq!(u32_to_decimal(30), "30");
    assert_eq!(u32_to_decimal(4294967295), "4294967295");
    assert_eq!(u16_to_decimal(5005), "5005");
    for n in [0u32, 7, 10, 99, 100, 65535, 123456789, u32::MAX] {
        assert_eq!(parse_u32(&u32_to_decimal(n)), Some(n));
    }
}

#[test]
fn parsing_follows_from_str() {
    for s in ["", "+", "-1", "+5", "007", "65535", "65536", "1 ", " 1", "x", "99999999999"] {
        assert_eq!(parse_u16(s), s.parse::<u16>().ok(), "u16 {:?}", s);
        assert_eq!(parse_u32(s), s.parse::<u32>().ok(), "u32 {:?}", s);
    }
    assert_eq!(parse_u32("4294967295"), Some(u32::MAX));
    assert_eq!(parse_u32("4294967296"), None);
}

#[test]
fn wide_strings_are_utf16_with_terminator() {
    assert_eq!(to_wide_nul("ab"), vec![0x61, 0x62, 0]);
    assert_eq!(to_wide_nul(""), vec![0]);
    let s = "服务😀";
    let mut expected: Vec<u16> = s.encode_utf16().collect();
    expected.push(0);
    assert_eq!(to_wide_nul(s), expected);
}

#[test]
fn file_names_of_windows_paths() {
    assert_eq!(file_name_of("C:\\apps\\demo.jar"), Some("demo.jar".to_string()));
    assert_eq!(file_name_of("apps/demo.jar"), Some("demo.jar".to_string()));
    assert_eq!(file_name_of("demo.jar"), Some("demo.jar".to_string()));
    assert_eq!(file_name_of("C:demo.jar"), Some("demo.jar".to_string()));
    assert_eq!(file_name_of("apps/lib/"), Some("lib".to_string()));
    assert_eq!(file_name_of("apps/demo.jar/."), Some("demo.jar".to_string()));
    assert_eq!(file_name_of("apps/.."), None);
    assert_eq!(file_name_of("/"), None);
    assert_eq!(file_name_of(""), None);
    assert_eq!(file_name_of("C:"), None);
    assert_eq!(file_name_of("."), None);
}

#[test]
fn file_names_after_path_prefixes() {
    assert_eq!(file_name_of("\\\\server\\share"), None);
    assert_eq!(file_name_of("\\\\server\\share\\"), None);
    assert_eq!(file_name_of("\\\\server\\share\\apps\\demo.jar"), Some("demo.jar".to_string()));
    assert_eq!(file_name_of("//server/share/demo.jar"), Some("demo.jar".to_string()));
    assert_eq!(file_name_of("\\\\server"), Some("server".to_string()));
    assert_eq!(file_name_of("\\\\?\\C:\\apps\\demo.jar"), Some("demo.jar".to_string()));
    assert_eq!(file_name_of("\\\\?\\C:\\"), None);
    assert_eq!(file_name_of("\\\\?\\C:\\apps\\."), None);
    assert_eq!(file_name_of("\\\\?\\C:\\apps/demo.jar"), Some("apps/demo.jar".to_string()));
    assert_eq!(file_name_of("\\\\?\\UNC\\server\\share"), None);
    assert_eq!(file_name_of("\\\\?\\UNC\\server\\share\\demo.jar"), Some("demo.jar".to_string()));
    assert_eq!(file_name_of("\\\\?\\pictures"), None);
    assert_eq!(file_name_of("\\\\?\\pictures\\demo.jar"), Some("demo.jar".to_string()));
    assert_eq!(file_name_of("\\\\.\\COM1"), None);
    assert_eq!(file_name_of("\\\\.\\pipe\\name"), Some("name".to_string()));
}
