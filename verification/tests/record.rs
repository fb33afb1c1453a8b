use dnetd::pidfile::{render_pid, RECORD_LEN};

#[test]
fn record_len_is_fixed() {
    assert_eq!(render_pid(0).len(), RECORD_LEN);
    assert_eq!(render_pid(1).len(), RECORD_LEN);
    assert_eq!(render_pid(u32::MAX).len(), RECORD_LEN);
}

#[test]
fn renders_zero() {
    assert_eq!(
        render_pid(0),
        vec![b'0', b'\n', 0, 0, 0, 0, 0, 0, 0, 0, 0, 0]
    );
}

#[test]
fn renders_typical_pid() {
    let record = render_pid(1234);
    assert_eq!(&record[..5], b"1234\n");
    assert!(record[5..].iter().all(|&b| b == 0));
}

#[test]
fn renders_largest_pid() {
    let record = render_pid(u32::MAX);
    assert_eq!(&record[..11], b"4294967295\n");
    assert_eq!(record[11], 0);
}

#[test]
fn renders_single_trailing_digit() {
    let record = render_pid(907);
    assert_eq!(&record[..4], b"907\n");
    assert!(record[4..].iter().all(|&b| b == 0));
}
