use gptsh::progress::Spinner;
use gptsh::util::{get_current_dir_with_tilde, get_username, Config};

#[test]
fn spinner_cycles_through_its_frames() {
    let mut s = Spinner::new();
    let frames: Vec<Option<char>> = (0..5).map(|_| s.tick(false)).collect();
    assert_eq!(frames, vec![Some('/'), Some('-'), Some('\\'), Some('|'), Some('/')]);
}

#[test]
fn spinner_is_silent_after_stop() {
    let mut s = Spinner::new();
    assert_eq!(s.tick(false), Some('/'));
    assert_eq!(s.tick(true), None);
    assert_eq!(s.tick(false), None);
    assert_eq!(s.tick(false), None);
    assert!(s.stopped);
}

#[test]
fn home_is_shown_as_tilde() {
    assert_eq!(get_current_dir_with_tilde("/home/ann/src", "/home/ann"), "~/src");
    assert_eq!(get_current_dir_with_tilde("/home/ann", "/home/ann"), "~");
    assert_eq!(get_current_dir_with_tilde("/tmp", "/home/ann"), "/tmp");
}

#[test]
fn username_falls_back() {
    assert_eq!(get_username(Some("ann".to_string())), "ann");
    assert_eq!(get_username(None), "Unknown User");
}

#[test]
fn config_context() {
    assert_eq!(Config::default().context_text(), "");
    assert_eq!(Config { context: Some("ctx".to_string()) }.context_text(), "ctx");
}
