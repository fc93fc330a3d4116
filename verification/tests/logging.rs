use goldberg_drop::logging::{log_line, timestamp};

#[test]
fn timestamps_are_zero_padded() {
    assert_eq!(timestamp(2025, 3, 7, 9, 5, 2, 42), "2025-03-07 09:05:02.042");
    assert_eq!(timestamp(12345, 12, 31, 23, 59, 59, 999), "12345-12-31 23:59:59.999");
}

#[test]
fn log_lines_pad_the_level() {
    assert_eq!(
        log_line("2025-03-07 09:05:02.042", "INFO", Some("goldberg_drop::app"), Some(12), "hello"),
        "2025-03-07 09:05:02.042 [INFO ] goldberg_drop::app:12: hello\n"
    );
    assert_eq!(log_line("t", "DEBUG", None, None, "x"), "t [DEBUG] ?:0: x\n");
}
