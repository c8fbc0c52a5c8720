use render_baby::log_buffer::LogBuffer;

#[test]
fn log_lines_accumulate() {
    let mut b = LogBuffer::new();
    assert_eq!(b.get_logs(), "");
    let l = LogBuffer::format_line("INFO", "started");
    assert_eq!(l, "[INFO] started\n");
    b.push_line(&l);
    b.push_line(&LogBuffer::format_line("WARN", "slow"));
    assert_eq!(b.get_logs(), "[INFO] started\n[WARN] slow\n");
}

#[test]
fn recorded_lines_come_in_order_and_reading_changes_nothing() {
    let mut b = LogBuffer::new();
    assert_eq!(b.record("INFO", "a"), "[INFO] a\n");
    b.record("ERROR", "b");
    let first = b.get_logs();
    let second = b.get_logs();
    assert_eq!(first, "[INFO] a\n[ERROR] b\n");
    assert_eq!(first, second);
}
