use supipi::error::SupipiError;

#[test]
fn no_keyboard_message() {
    assert_eq!(SupipiError::NoKeyboard.message(), "No suitable KB USB KB keyboard found");
}

#[test]
fn io_message_carries_the_detail() {
    let e = SupipiError::Io(String::from("Permission denied (os error 13)"));
    assert_eq!(e.message(), "IO error: Permission denied (os error 13)");
}

#[test]
fn signal_message_carries_the_detail() {
    let e = SupipiError::Signal(String::from("Ctrl-C error: Ctrl-C signal handler already registered"));
    assert_eq!(e.message(), "Signal error: Ctrl-C error: Ctrl-C signal handler already registered");
}

#[test]
fn empty_detail_leaves_the_label() {
    assert_eq!(SupipiError::Io(String::new()).message(), "IO error: ");
    assert_eq!(SupipiError::Signal(String::new()).message(), "Signal error: ");
}
