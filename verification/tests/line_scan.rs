use state_bridge::line_scan::process_line;

const SYSCALL_PATTERN: &str = r#"(?m)(open|openat|stat|access|execve)\(.*?"([^"]+)"#;

#[test]
fn open_call_yields_its_path() {
    let line = r#"open("/etc/ld.so.cache", O_RDONLY|O_CLOEXEC) = 3"#;
    let found = process_line(line, SYSCALL_PATTERN).expect("line should match");
    assert_eq!(found.file, "/etc/ld.so.cache");
    assert_eq!(found.line, line);
}

#[test]
fn openat_call_yields_its_path() {
    let line = r#"openat(AT_FDCWD, "/usr/lib/libc.so.6", O_RDONLY) = 4"#;
    let found = process_line(line, SYSCALL_PATTERN).expect("line should match");
    assert_eq!(found.file, "/usr/lib/libc.so.6");
    assert_eq!(found.line, line);
}

#[test]
fn unrelated_call_yields_nothing() {
    let line = r#"write(1, "hello", 5) = 5"#;
    assert!(process_line(line, SYSCALL_PATTERN).is_none());
}

#[test]
fn line_without_quoted_path_yields_nothing() {
    let line = "stat() = -1 EFAULT";
    assert!(process_line(line, SYSCALL_PATTERN).is_none());
}

#[test]
fn invalid_pattern_yields_nothing() {
    let line = r#"open("/etc/passwd", O_RDONLY) = 3"#;
    assert!(process_line(line, "(").is_none());
}

#[test]
fn agrees_with_the_regex_engine() {
    let line = r#"access("/etc/ld.so.preload", R_OK) = -1"#;
    let re = regex::Regex::new(SYSCALL_PATTERN).unwrap();
    let expected = re.captures(line).unwrap().get(2).unwrap().as_str();
    let found = process_line(line, SYSCALL_PATTERN).expect("line should match");
    assert_eq!(found.file, expected);
}
