use raclettui::events::{
    button_code_from_evdev, key_code_from_keysym, ButtonCode, KeyCode, KeyEvent, WindowEventQueue,
};

#[test]
fn queue_drains_in_push_order() {
    let mut q: WindowEventQueue<u32> = WindowEventQueue::new();
    assert!(q.is_empty());
    q.push(1);
    q.push(2);
    q.push(3);
    assert!(!q.is_empty());
    assert_eq!(q.drain(), vec![1, 2, 3]);
    assert!(q.is_empty());
    assert_eq!(q.drain(), Vec::<u32>::new());
    q.push(4);
    assert_eq!(q.drain(), vec![4]);
}

#[test]
fn queue_holds_key_events() {
    let mut q = WindowEventQueue::new();
    let e = KeyEvent { code: KeyCode::Char('q'), value: 1, shift: false, alt: false, ctrl: true };
    q.push(e.clone());
    assert_eq!(q.drain(), vec![e]);
}

#[test]
fn evdev_buttons() {
    assert_eq!(button_code_from_evdev(272), ButtonCode::Left);
    assert_eq!(button_code_from_evdev(273), ButtonCode::Right);
    assert_eq!(button_code_from_evdev(274), ButtonCode::Middle);
    assert_eq!(button_code_from_evdev(275), ButtonCode::Unknown);
    assert_eq!(button_code_from_evdev(0), ButtonCode::Unknown);
}

#[test]
fn named_keysyms() {
    assert_eq!(key_code_from_keysym(0xff08, 0x08), Some(KeyCode::Backspace));
    assert_eq!(key_code_from_keysym(0xff0d, 0x0d), Some(KeyCode::Enter));
    assert_eq!(key_code_from_keysym(0xff09, 0x09), Some(KeyCode::Tab));
    assert_eq!(key_code_from_keysym(0xff1b, 0x1b), Some(KeyCode::Esc));
    assert_eq!(key_code_from_keysym(0xffff, 0x7f), Some(KeyCode::Delete));
    assert_eq!(key_code_from_keysym(0xff51, 0), Some(KeyCode::Left));
    assert_eq!(key_code_from_keysym(0xff52, 0), Some(KeyCode::Up));
    assert_eq!(key_code_from_keysym(0xff53, 0), Some(KeyCode::Right));
    assert_eq!(key_code_from_keysym(0xff54, 0), Some(KeyCode::Down));
    assert_eq!(key_code_from_keysym(0xff50, 0), Some(KeyCode::Home));
    assert_eq!(key_code_from_keysym(0xff57, 0), Some(KeyCode::End));
    assert_eq!(key_code_from_keysym(0xff55, 0), Some(KeyCode::PageUp));
    assert_eq!(key_code_from_keysym(0xff56, 0), Some(KeyCode::PageDown));
}

#[test]
fn function_keysyms() {
    assert_eq!(key_code_from_keysym(0xffbe, 0), Some(KeyCode::F(1)));
    assert_eq!(key_code_from_keysym(0xffc3, 0), Some(KeyCode::F(6)));
    assert_eq!(key_code_from_keysym(0xffc9, 0), Some(KeyCode::F(12)));
    assert_eq!(key_code_from_keysym(0xffca, 0), Some(KeyCode::Unidentified));
}

#[test]
fn character_keysyms() {
    assert_eq!(key_code_from_keysym(0x61, 0x61), Some(KeyCode::Char('a')));
    assert_eq!(key_code_from_keysym(0xffb1, 0x31), Some(KeyCode::Char('1')));
    assert_eq!(key_code_from_keysym(0x1000394, 0x394), Some(KeyCode::Char('Δ')));
    assert_eq!(key_code_from_keysym(0xffe1, 0), Some(KeyCode::Unidentified));
}

#[test]
fn keysym_with_invalid_unicode() {
    assert_eq!(key_code_from_keysym(0x100d800, 0xD800), None);
    assert_eq!(key_code_from_keysym(0x1234, 0x110000), None);
}


