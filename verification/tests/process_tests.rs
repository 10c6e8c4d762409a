use ffit::errors::CtlError;
use ffit::process::{
    forceful_of, is_running, judge_pid_content, parse_pid_bytes, pid_from_bytes, process_exists,
    read_pid, remove_pid_file, running_given, send_signal, trim_bytes, Signal,
    PID_FILE_READ_LIMIT,
};

fn own_pid() -> i32 {
    nix::unistd::getpid().as_raw()
}

fn temp_path(tag: &str) -> String {
    format!("/tmp/ffit-test-{}-{}.pid", own_pid(), tag)
}

fn write_file(path: &str, content: &[u8]) {
    let rt = tokio::runtime::Runtime::new().unwrap();
    rt.block_on(tokio::fs::write(path, content)).expect("write test file");
}

#[test]
fn test_parse_pid_values() {
    assert_eq!(parse_pid_bytes(&b"123\n".to_vec()), Some(123));
    assert_eq!(parse_pid_bytes(&b"  42  ".to_vec()), Some(42));
    assert_eq!(parse_pid_bytes(&b"-7".to_vec()), Some(-7));
    assert_eq!(parse_pid_bytes(&b"+8".to_vec()), Some(8));
    assert_eq!(parse_pid_bytes(&b"0".to_vec()), Some(0));
    assert_eq!(parse_pid_bytes(&b"".to_vec()), None);
    assert_eq!(parse_pid_bytes(&b"   ".to_vec()), None);
    assert_eq!(parse_pid_bytes(&b"abc".to_vec()), None);
    assert_eq!(parse_pid_bytes(&b"12a".to_vec()), None);
    assert_eq!(parse_pid_bytes(&b"1 2".to_vec()), None);
    assert_eq!(parse_pid_bytes(&b"+-3".to_vec()), None);
    assert_eq!(parse_pid_bytes(&b"2147483647".to_vec()), Some(i32::MAX));
    assert_eq!(parse_pid_bytes(&b"2147483648".to_vec()), None);
    assert_eq!(parse_pid_bytes(&b"-2147483648".to_vec()), Some(i32::MIN));
    assert_eq!(parse_pid_bytes(&b"-2147483649".to_vec()), None);
    assert_eq!(parse_pid_bytes(&b"99999999999999999999".to_vec()), None);
}

#[test]
fn test_read_pid_parses_file() {
    let path = temp_path("read");
    write_file(&path, b"123\n");
    assert_eq!(read_pid(&path).unwrap(), 123);
    remove_pid_file(&path);
}

#[test]
fn test_read_pid_invalid_content() {
    let path = temp_path("invalid");
    write_file(&path, b"not-a-pid\n");
    match read_pid(&path) {
        // The error carries the trimmed content.
        Err(CtlError::InvalidPid(s)) => assert_eq!(s, "not-a-pid"),
        other => panic!("expected InvalidPid, got {:?}", other),
    }
    remove_pid_file(&path);
}

#[test]
fn test_read_pid_overlong_content_rejected() {
    // Content past the read limit is rejected whole, never parsed from
    // a truncated prefix.
    let path = temp_path("overlong");
    let mut content = vec![b' '; PID_FILE_READ_LIMIT];
    content.extend_from_slice(b"12345678\n");
    write_file(&path, &content);
    match read_pid(&path) {
        Err(CtlError::InvalidPid(_)) => {},
        other => panic!("expected InvalidPid for over-long content, got {:?}", other),
    }
    remove_pid_file(&path);
}

#[test]
fn test_pid_from_bytes_mapping() {
    assert_eq!(pid_from_bytes(&b" 314 \n".to_vec()).unwrap(), 314);
    match pid_from_bytes(&b"  bogus  ".to_vec()) {
        Err(CtlError::InvalidPid(s)) => assert_eq!(s, "bogus"),
        other => panic!("expected InvalidPid, got {:?}", other),
    }
}

#[test]
fn test_trim_bytes_exact() {
    assert_eq!(trim_bytes(&b"  12\t\n".to_vec()), b"12".to_vec());
    assert_eq!(trim_bytes(&b"\r\n \t".to_vec()), Vec::<u8>::new());
    assert_eq!(trim_bytes(&b"a b".to_vec()), b"a b".to_vec());
}

#[test]
fn test_running_given_combination() {
    assert!(running_given(Some(1), true));
    assert!(!running_given(Some(1), false));
    assert!(!running_given(None, false));
}

#[test]
fn test_read_pid_missing_file() {
    let path = temp_path("missing");
    match read_pid(&path) {
        Err(CtlError::DaemonNotRunning) => {},
        other => panic!("expected DaemonNotRunning, got {:?}", other),
    }
}

#[test]
fn test_remove_pid_file_removes() {
    let path = temp_path("remove");
    write_file(&path, b"1\n");
    assert!(std::path::Path::new(&path).exists());
    remove_pid_file(&path);
    assert!(!std::path::Path::new(&path).exists());
    // Removing an absent file is quietly accepted.
    remove_pid_file(&path);
}

#[test]
fn test_process_exists_probe() {
    assert!(process_exists(own_pid()));
    assert!(!process_exists(999_999_999));
}

#[test]
fn test_is_running_combinations() {
    let path = temp_path("isrunning");

    // PID file naming this live process: running.
    write_file(&path, format!("{}\n", own_pid()).as_bytes());
    assert!(is_running(&path));

    // PID file naming no live process: not running, despite the file.
    write_file(&path, b"999999999\n");
    assert!(!is_running(&path));

    // Unparseable content: not running.
    write_file(&path, b"garbage\n");
    assert!(!is_running(&path));

    remove_pid_file(&path);
    // Absent file: not running.
    assert!(!is_running(&path));
}

#[test]
fn test_send_signal_to_vanished_process() {
    match send_signal(999_999_999, Signal::Term) {
        Err(CtlError::SignalFailed(_)) => {},
        other => panic!("expected SignalFailed, got {:?}", other),
    }
}

#[test]
fn test_parse_pid_agrees_with_int_parsing() {
    // On trimmed ASCII content, parsing the PID file agrees with the
    // standard integer parse of the trimmed text.
    let cases = [
        "123", " 123 ", "\t42\n", "007", "+0", "-0", "  +8  ", "-7", "0",
        "2147483647", "2147483648", "-2147483648", "-2147483649",
        "99999999999999999999", "", "   ", "abc", "12a", "a12", "1 2",
        "+-3", "-+3", "--1", "++1", "+", "-", "12.5", "0x10", " 123\r\n",
    ];
    for case in cases {
        let expected = case.trim().parse::<i32>().ok();
        let actual = parse_pid_bytes(&case.as_bytes().to_vec());
        assert_eq!(actual, expected, "content {:?}", case);
    }
}

#[test]
fn test_judge_pid_content_limit() {
    // Within the limit the judgment is the parse itself.
    assert_eq!(judge_pid_content(&b"123\n".to_vec()).unwrap(), 123);
    // Exactly at the limit still parses.
    let mut at_limit = vec![b' '; PID_FILE_READ_LIMIT - 2];
    at_limit.extend_from_slice(b"77");
    assert_eq!(judge_pid_content(&at_limit).unwrap(), 77);
    // One byte past the limit is invalid, even though the content would
    // parse.
    let mut past_limit = vec![b' '; PID_FILE_READ_LIMIT - 1];
    past_limit.extend_from_slice(b"77");
    match judge_pid_content(&past_limit) {
        Err(CtlError::InvalidPid(_)) => {},
        other => panic!("expected InvalidPid past the limit, got {:?}", other),
    }
}

#[test]
fn test_forceful_of_mapping() {
    // The graceful request is never delivered forcefully, nor the other
    // way round.
    assert!(!forceful_of(Signal::Term));
    assert!(forceful_of(Signal::Kill));
}
