use simnation::journal::{
    connected_message, log_line, log_stamp, lost_connection_message, pulse_message,
    service_start_message, signed_decimal_text, stamped_log_line, waiting_message,
};

#[test]
fn fixed_messages() {
    assert_eq!(service_start_message(), "SERVICE START: Shared Memory Listener Initialized.");
    assert_eq!(connected_message(), "SUCCESS: Connected to Shared Memory and SDK is ACTIVE.");
    assert_eq!(
        waiting_message(),
        "WAITING: Memory block found, but SDK is not sending data yet."
    );
}

#[test]
fn lost_connection_carries_error_code() {
    assert_eq!(
        lost_connection_message(2),
        "LOST CONNECTION: Mapping vanished (WinErr 2). Waiting for game..."
    );
    assert_eq!(
        lost_connection_message(1450),
        "LOST CONNECTION: Mapping vanished (WinErr 1450). Waiting for game..."
    );
}

#[test]
fn signed_numbers() {
    assert_eq!(signed_decimal_text(0), "0");
    assert_eq!(signed_decimal_text(12), "12");
    assert_eq!(signed_decimal_text(-1), "-1");
    assert_eq!(signed_decimal_text(i32::MIN), "-2147483648");
    assert_eq!(signed_decimal_text(i32::MAX), "2147483647");
}

#[test]
fn pulse_line() {
    assert_eq!(
        pulse_message("88.2", 12, "150.5"),
        "DATA PULSE -> Speed: 88.2 | Gear: 12 | GPS Dist: 150.5km"
    );
    assert_eq!(
        pulse_message("0.0", -1, "0.0"),
        "DATA PULSE -> Speed: 0.0 | Gear: -1 | GPS Dist: 0.0km"
    );
}

#[test]
fn log_lines() {
    assert_eq!(
        log_line("2024-01-02 03:04:05", "hello"),
        "[2024-01-02 03:04:05] hello\n"
    );
}

fn shaped(s: &str) -> bool {
    let c: Vec<char> = s.chars().collect();
    let n = c.len();
    n >= 19
        && c[n - 15] == '-'
        && c[n - 12] == '-'
        && c[n - 9] == ' '
        && c[n - 6] == ':'
        && c[n - 3] == ':'
        && [14, 13, 11, 10, 8, 7, 5, 4, 2, 1].iter().all(|k| c[n - k].is_ascii_digit())
}

#[test]
fn stamps_have_the_log_shape() {
    let s = log_stamp();
    assert!(shaped(&s), "{}", s);
    let line = stamped_log_line("ping");
    assert!(line.starts_with('['));
    assert!(line.ends_with("] ping\n"));
    assert!(shaped(&line[1..line.len() - "] ping\n".len()]));
}
