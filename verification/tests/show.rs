use puppetbots::show::{ShowAction, ShowState};

#[test]
fn register_creates_puppet_at_start_position() {
    let mut s = ShowState::new();
    assert!(s.is_readable(1, b"R\x01alice"));
    assert_eq!(s.handle_message(1, b"R\x01alice").unwrap(), ShowAction::Registered);
    assert_eq!(s.handle_message(2, b"R\x02bob").unwrap(), ShowAction::Registered);
    assert_eq!(s.handle_message(3, b"R\x00admin").unwrap(), ShowAction::Registered);
    let p = s.puppets();
    assert_eq!(p[&1].position, vec![105, 105]);
    assert_eq!(p[&1].name, "alice");
    assert!(p[&1].connected);
    assert!(!p[&1].action);
    assert_eq!(p[&2].position, vec![180, 105]);
    assert_eq!(p[&0].position, vec![0, 0]);
}

#[test]
fn show_refusals() {
    let mut s = ShowState::new();
    s.handle_message(1, b"R\x01alice").unwrap();
    assert_eq!(
        s.handle_message(2, b"R\x01eve").unwrap_err().message,
        "There is already a controller connected. Please try again later!"
    );
    assert_eq!(s.handle_message(2, b"R\x05eve").unwrap_err().message, "Unknown role");
    assert_eq!(
        s.handle_message(2, b"SPOS\x01\x02").unwrap_err().message,
        "Disconnected. Please refresh and try again."
    );
    assert_eq!(s.handle_message(1, b"X").unwrap_err().message, "Unknown command");
    assert!(!s.is_readable(2, b"R\x02\xff"));
    assert!(s.is_readable(2, b"R\x01\xff"));
    assert!(!s.is_readable(1, b"SPOS\x01"));
    assert!(!s.is_readable(1, b"SPO"));
}

#[test]
fn move_updates_only_own_puppet() {
    let mut s = ShowState::new();
    s.handle_message(1, b"R\x01alice").unwrap();
    s.handle_message(2, b"R\x02bob").unwrap();
    assert_eq!(s.handle_message(1, b"SPOS\x0a\x14").unwrap(), ShowAction::Moved);
    assert_eq!(s.puppets()[&1].position, vec![10, 20]);
    assert_eq!(s.puppets()[&2].position, vec![180, 105]);
    assert_eq!(s.handle_message(1, b"SFOO").unwrap(), ShowAction::Ignored);
    assert_eq!(s.puppets()[&1].position, vec![10, 20]);
}

#[test]
fn close_removes_puppet_and_frees_role() {
    let mut s = ShowState::new();
    s.handle_message(1, b"R\x01alice").unwrap();
    s.disconnect(1);
    assert!(s.puppets().is_empty());
    assert_eq!(s.handle_message(4, b"R\x01carol").unwrap(), ShowAction::Registered);
    assert_eq!(s.puppets()[&1].name, "carol");
}
