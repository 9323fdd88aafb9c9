use native_tools::hotkeys::{HotkeyCombo, KeyDecision, KeyListener};

fn combo(keys: &[&str]) -> HotkeyCombo {
    HotkeyCombo {
        keys: keys.iter().map(|k| k.to_string()).collect(),
    }
}

fn press(l: &mut KeyListener, k: &str) -> KeyDecision {
    l.on_key_press(&k.to_string())
}

fn release(l: &mut KeyListener, k: &str) -> KeyDecision {
    l.on_key_release(&k.to_string())
}

const REPORT_PASS: KeyDecision = KeyDecision {
    report: true,
    pass_through: true,
    mask_start_menu: false,
};

#[test]
fn exact_hotkey_is_blocked() {
    let mut l = KeyListener::new();
    l.register_hotkeys(vec![combo(&["ControlLeft", "Space"])]);
    assert_eq!(l.hotkey_count(), 1);
    assert_eq!(press(&mut l, "ControlLeft"), REPORT_PASS);
    assert!(!l.should_block());
    let d = press(&mut l, "Space");
    assert!(d.report);
    assert!(!d.pass_through);
    assert!(!d.mask_start_menu);
    assert!(l.should_block());
    assert_eq!(release(&mut l, "Space"), REPORT_PASS);
    assert!(!l.should_block());
}

#[test]
fn extra_held_key_does_not_match() {
    let mut l = KeyListener::new();
    l.register_hotkeys(vec![combo(&["ShiftLeft", "KeyA"])]);
    press(&mut l, "ShiftLeft");
    press(&mut l, "AltGr");
    assert!(press(&mut l, "KeyA").pass_through);
    assert!(!l.should_block());
    // Repeated presses of a held key do not count twice.
    release(&mut l, "AltGr");
    let d = press(&mut l, "KeyA");
    assert!(!d.pass_through);
}

#[test]
fn empty_hotkey_never_blocks() {
    let mut l = KeyListener::new();
    l.register_hotkeys(vec![combo(&[])]);
    assert!(!l.should_block());
    assert!(press(&mut l, "KeyQ").pass_through);
}

#[test]
fn windows_key_hotkey_masks_start_menu() {
    let mut l = KeyListener::new();
    l.register_hotkeys(vec![combo(&["MetaLeft"])]);
    let d = press(&mut l, "MetaLeft");
    assert_eq!(
        d,
        KeyDecision {
            report: true,
            pass_through: false,
            mask_start_menu: true
        }
    );
}

#[test]
fn fn_key_is_held_as_function() {
    let mut l = KeyListener::new();
    l.register_hotkeys(vec![combo(&["Function"])]);
    let d = press(&mut l, "Unknown(179)");
    assert!(d.report);
    assert!(!d.pass_through);
    assert!(l.should_block());
    release(&mut l, "Unknown(179)");
    assert!(!l.should_block());
}

#[test]
fn fn_key_held_back_when_a_hotkey_uses_it() {
    let mut l = KeyListener::new();
    l.register_hotkeys(vec![combo(&["Function", "Space"])]);
    // Not a full match, but a hotkey uses Fn, so Fn itself is held back.
    let d = press(&mut l, "Unknown(179)");
    assert!(d.report && !d.pass_through);
    l.register_hotkeys(vec![combo(&["KeyX", "KeyY"])]);
    release(&mut l, "Unknown(179)");
    assert!(press(&mut l, "Unknown(179)").pass_through);
}

#[test]
fn copy_shortcut_is_not_reported() {
    let mut l = KeyListener::new();
    assert_eq!(press(&mut l, "MetaLeft"), REPORT_PASS);
    let d = press(&mut l, "KeyC");
    assert_eq!(
        d,
        KeyDecision {
            report: false,
            pass_through: true,
            mask_start_menu: false
        }
    );
    assert_eq!(release(&mut l, "MetaLeft"), REPORT_PASS);
    // The copy is still in progress: the C release stays unreported.
    assert!(!release(&mut l, "KeyC").report);
    // Now C is an ordinary key again.
    assert_eq!(press(&mut l, "KeyC"), REPORT_PASS);
    assert_eq!(release(&mut l, "KeyC"), REPORT_PASS);
}

#[test]
fn ctrl_c_is_a_copy_too() {
    let mut l = KeyListener::new();
    press(&mut l, "ControlRight");
    assert!(!press(&mut l, "KeyC").report);
    assert!(!release(&mut l, "KeyC").report);
    assert_eq!(release(&mut l, "ControlRight"), REPORT_PASS);
}
