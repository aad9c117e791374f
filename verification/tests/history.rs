use sentinel::history::{history_key, HISTORY_PARTITION, HISTORY_SHOWN};

#[test]
fn key_is_time_colon_sender() {
    assert_eq!(history_key(1700000000, "abc123"), "1700000000:abc123");
    assert_eq!(history_key(0, "x"), "0:x");
    assert_eq!(history_key(7, ""), "7:");
    assert_eq!(history_key(10, "a:b"), "10:a:b");
    assert_eq!(history_key(u64::MAX, "n"), "18446744073709551615:n");
    assert_eq!(history_key(1234567890, "node"), format!("{}:{}", 1234567890u64, "node"));
}

#[test]
fn keys_of_equal_width_sort_by_time() {
    assert!(history_key(1700000000, "a") < history_key(1700000001, "a"));
    assert!(history_key(1699999999, "z") < history_key(1700000000, "a"));
}

#[test]
fn partition_and_window() {
    assert_eq!(HISTORY_PARTITION, "messages");
    assert_eq!(HISTORY_SHOWN, 10);
}
