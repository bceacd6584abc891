use aurisd::bluez::{disconnected_args, profile_busy, AudioTransports};

#[test]
fn only_a_pending_or_active_a2dp_transport_counts_as_streaming() {
    // As read live: sep2/fd0 is the local A2DP source endpoint's UUID.
    let fd0 = "/org/bluez/hci0/dev_BC_80_4E_01_02_03/sep2/fd0";
    let mut t = AudioTransports::new();
    t.add(fd0, Some("0000110a-0000-1000-8000-00805f9b34fb"), Some("idle"));
    // An HFP transport, active, is not A2DP.
    t.add("/org/bluez/hci0/dev_BC_80_4E_01_02_03/fd1", Some("0000111e-0000-1000-8000-00805f9b34fb"), Some("active"));
    assert!(!t.active());
    // The hands-free transport is visible, with its UUID and path.
    assert!(t.hands_free());
    assert_eq!(
        t.hands_free_detail(),
        "/org/bluez/hci0/dev_BC_80_4E_01_02_03/fd1 0000111e-0000-1000-8000-00805f9b34fb streaming"
    );
    assert!(t
        .describe()
        .contains("sep2/fd0 0000110a-0000-1000-8000-00805f9b34fb idle"));
    t.changed(fd0, Some("pending"));
    assert!(t.active());
    t.changed(fd0, None);
    assert!(t.active());
    t.changed(fd0, Some("active"));
    assert!(t.active());
    t.changed(fd0, Some("idle"));
    assert!(!t.active());
    t.changed(fd0, Some("active"));
    t.remove(fd0);
    assert!(!t.active());
    // A state change for a transport never added is ignored.
    t.changed(fd0, Some("active"));
    assert!(!t.active());
}

#[test]
fn disconnected_signal_arguments_are_read_with_an_optional_message() {
    assert_eq!(
        disconnected_args(
            Some("org.bluez.Reason.Remote".to_owned()),
            Some("Connection terminated by remote host".to_owned())
        ),
        Some((
            "org.bluez.Reason.Remote".to_owned(),
            "Connection terminated by remote host".to_owned()
        ))
    );
    assert_eq!(
        disconnected_args(Some("org.bluez.Reason.Local".to_owned()), None),
        Some(("org.bluez.Reason.Local".to_owned(), String::new()))
    );
    assert_eq!(disconnected_args(None, None), None);
}

#[test]
fn busy_and_in_progress_connects_are_retryable() {
    // As logged live: "Bluetooth operation in progress: br-connection-busy".
    assert!(profile_busy(true, "br-connection-busy"));
    assert!(profile_busy(false, "br-connection-busy"));
    assert!(!profile_busy(false, "br-connection-refused"));
    assert!(!profile_busy(false, ""));
}
