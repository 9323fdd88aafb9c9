//! Global hotkey bookkeeping: which keys are held, whether they make up a
//! registered hotkey exactly, and which events to report or hold back.
//!
//! Keys are named as the keyboard hook names them (`"KeyA"`, `"MetaLeft"`,
//! `"Unknown(179)"`); the hook feeds each press and release in and acts on the
//! decision that comes back.

use vstd::prelude::*;

verus! {

/// One hotkey: the names of the keys that make it up.
#[derive(Debug)]
pub struct HotkeyCombo {
    pub keys: Vec<String>,
}

/// What to do with one key event.
#[derive(Debug, Clone, Copy, PartialEq, Eq, Structural)]
pub struct KeyDecision {
    /// Report the event to the listener's consumer.
    pub report: bool,
    /// Let the event reach the system.
    pub pass_through: bool,
    /// The event is held back while the Windows key is down: inject a key with
    /// no function first, so that the system does not open its Start menu.
    pub mask_start_menu: bool,
}

/// The names of `v`'s strings.
pub open spec fn names(v: Seq<String>) -> Seq<Seq<char>> {
    v.map_values(|s: String| s@)
}

/// The key names of each hotkey.
pub open spec fn combos(v: Seq<HotkeyCombo>) -> Seq<Seq<Seq<char>>> {
    v.map_values(|h: HotkeyCombo| names(h.keys@))
}

/// The name under which a key is held: the Fn key, which the hook reports as
/// an unknown key with code 179, is held as `"Function"`.
pub open spec fn normalized(name: Seq<char>) -> Seq<char> {
    if name == "Unknown(179)"@ {
        "Function"@
    } else {
        name
    }
}

/// Keeps every name but `gone`.
pub open spec fn other_than(gone: Seq<char>) -> spec_fn(Seq<char>) -> bool {
    |k: Seq<char>| k != gone
}

pub open spec fn is_meta(name: Seq<char>) -> bool {
    name == "MetaLeft"@ || name == "MetaRight"@
}

pub open spec fn is_control(name: Seq<char>) -> bool {
    name == "ControlLeft"@ || name == "ControlRight"@
}

/// The held keys are exactly one of the registered, non-empty hotkeys: each of
/// its keys is held, and as many keys are held as it has.
pub open spec fn blocks(registered: Seq<Seq<Seq<char>>>, pressed: Seq<Seq<char>>) -> bool {
    exists|i: int|
        0 <= i < registered.len() && #[trigger] registered[i].len() > 0 && registered[i].len()
            == pressed.len() && forall|j: int|
            0 <= j < registered[i].len() ==> pressed.contains(#[trigger] registered[i][j])
}

/// Some registered hotkey uses the Fn key.
pub open spec fn uses_function(registered: Seq<Seq<Seq<char>>>) -> bool {
    exists|i: int| 0 <= i < registered.len() && #[trigger] registered[i].contains("Function"@)
}

fn is_named(s: &String, name: &str) -> (r: bool)
    ensures
        r == (s@ == name@),
{
    *s == name.to_owned()
}

fn contains_name(v: &Vec<String>, name: &String) -> (r: bool)
    ensures
        r == names(v@).contains(name@),
{
    let mut i: usize = 0;
    while i < v.len()
        invariant
            i <= v@.len(),
            forall|j: int| 0 <= j < i ==> v@[j]@ != name@,
        decreases v@.len() - i,
    {
        if v[i] == *name {
            assert(names(v@)[i as int] == name@);
            return true;
        }
        i += 1;
    }
    assert(!names(v@).contains(name@)) by {
        if names(v@).contains(name@) {
            let k = choose|k: int| 0 <= k < names(v@).len() && names(v@)[k] == name@;
            assert(v@[k]@ == name@);
        }
    }
    false
}

/// The state of the keyboard hook.
pub struct KeyListener {
    registered: Vec<HotkeyCombo>,
    pressed: Vec<String>,
    cmd_pressed: bool,
    ctrl_pressed: bool,
    copy_in_progress: bool,
}

impl KeyListener {
    /// The registered hotkeys.
    pub closed spec fn registered(&self) -> Seq<Seq<Seq<char>>> {
        combos(self.registered@)
    }

    /// The names of the keys held, in the order they were pressed.
    pub closed spec fn pressed(&self) -> Seq<Seq<char>> {
        names(self.pressed@)
    }

    pub closed spec fn cmd_held(&self) -> bool {
        self.cmd_pressed
    }

    pub closed spec fn ctrl_held(&self) -> bool {
        self.ctrl_pressed
    }

    /// A copy shortcut (Cmd+C or Ctrl+C) has been pressed and its C key not yet
    /// released.
    pub closed spec fn copying(&self) -> bool {
        self.copy_in_progress
    }

    /// No hotkeys, no keys held.
    pub fn new() -> (l: Self)
        ensures
            l.registered().len() == 0,
            l.pressed().len() == 0,
            !l.cmd_held(),
            !l.ctrl_held(),
            !l.copying(),
    {
        KeyListener {
            registered: Vec::new(),
            pressed: Vec::new(),
            cmd_pressed: false,
            ctrl_pressed: false,
            copy_in_progress: false,
        }
    }

    /// Replaces the registered hotkeys.
    pub fn register_hotkeys(&mut self, hotkeys: Vec<HotkeyCombo>)
        ensures
            final(self).registered() == combos(hotkeys@),
            final(self).pressed() == old(self).pressed(),
            final(self).cmd_held() == old(self).cmd_held(),
            final(self).ctrl_held() == old(self).ctrl_held(),
            final(self).copying() == old(self).copying(),
    {
        self.registered = hotkeys;
    }

    /// The number of registered hotkeys.
    pub fn hotkey_count(&self) -> (n: usize)
        ensures
            n == self.registered().len(),
    {
        self.registered.len()
    }

    /// Whether the held keys are exactly one of the registered hotkeys.
    pub fn should_block(&self) -> (r: bool)
        ensures
            r == blocks(self.registered(), self.pressed()),
    {
        let ghost reg = self.registered();
        let ghost held = self.pressed();
        let mut i: usize = 0;
        while i < self.registered.len()
            invariant
                i <= self.registered@.len(),
                reg == self.registered(),
                held == self.pressed(),
                forall|k: int|
                    0 <= k < i ==> !(#[trigger] reg[k].len() > 0 && reg[k].len() == held.len()
                        && forall|j: int| 0 <= j < reg[k].len() ==> held.contains(#[trigger] reg[k][j])),
            decreases self.registered@.len() - i,
        {
            let keys = &self.registered[i].keys;
            assert(reg[i as int] == names(keys@));
            let mut all_pressed = true;
            let mut j: usize = 0;
            while j < keys.len()
                invariant
                    j <= keys@.len(),
                    i < self.registered@.len(),
                    reg.len() == self.registered@.len(),
                    reg[i as int] == names(keys@),
                    held == names(self.pressed@),
                    all_pressed == forall|m: int| 0 <= m < j ==> held.contains(#[trigger] reg[i as int][m]),
                decreases keys@.len() - j,
            {
                assert(reg[i as int][j as int] == keys@[j as int]@);
                if !contains_name(&self.pressed, &keys[j]) {
                    all_pressed = false;
                }
                j += 1;
            }
            if all_pressed && keys.len() > 0 && keys.len() == self.pressed.len() {
                assert(reg[i as int].len() == keys@.len());
                assert(held.len() == self.pressed@.len());
                assert(blocks(reg, held));
                return true;
            }
            i += 1;
        }
        false
    }

    fn uses_function_key(&self) -> (r: bool)
        ensures
            r == uses_function(self.registered()),
    {
        let ghost reg = self.registered();
        let function = "Function".to_owned();
        let mut i: usize = 0;
        while i < self.registered.len()
            invariant
                i <= self.registered@.len(),
                reg == self.registered(),
                function@ == "Function"@,
                forall|k: int| 0 <= k < i ==> !(#[trigger] reg[k]).contains("Function"@),
            decreases self.registered@.len() - i,
        {
            if contains_name(&self.registered[i].keys, &function) {
                assert(reg[i as int] == names(self.registered@[i as int].keys@));
                assert(reg[i as int].contains("Function"@));
                return true;
            }
            i += 1;
        }
        false
    }

    /// A key was pressed. A C pressed while Cmd or Ctrl is held starts a copy:
    /// it passes to the system unreported and changes nothing else. Any other
    /// key is held (once, under its normalized name), updates the modifier
    /// flags, and is reported; it is held back from the system when the held
    /// keys now make up a registered hotkey exactly, or when it is the Fn key
    /// and a hotkey uses Fn.
    pub fn on_key_press(&mut self, key_name: &String) -> (d: KeyDecision)
        ensures
            final(self).registered() == old(self).registered(),
            ({
                let name = key_name@;
                if name == "KeyC"@ && (old(self).cmd_held() || old(self).ctrl_held()) {
                    &&& final(self).copying()
                    &&& final(self).pressed() == old(self).pressed()
                    &&& final(self).cmd_held() == old(self).cmd_held()
                    &&& final(self).ctrl_held() == old(self).ctrl_held()
                    &&& d == KeyDecision {
                        report: false,
                        pass_through: true,
                        mask_start_menu: false,
                    }
                } else {
                    let held = if old(self).pressed().contains(normalized(name)) {
                        old(self).pressed()
                    } else {
                        old(self).pressed().push(normalized(name))
                    };
                    let block = blocks(old(self).registered(), held);
                    &&& final(self).pressed() == held
                    &&& final(self).cmd_held() == (old(self).cmd_held() || is_meta(name))
                    &&& final(self).ctrl_held() == (old(self).ctrl_held() || is_control(name))
                    &&& final(self).copying() == old(self).copying()
                    &&& d.report
                    &&& d.pass_through == !(block || (name == "Unknown(179)"@ && uses_function(
                        old(self).registered(),
                    )))
                    &&& d.mask_start_menu == (block && (final(self).cmd_held() || held.contains(
                        "MetaLeft"@,
                    ) || held.contains("MetaRight"@)))
                }
            }),
    {
        if is_named(key_name, "KeyC") && (self.cmd_pressed || self.ctrl_pressed) {
            self.copy_in_progress = true;
            return KeyDecision { report: false, pass_through: true, mask_start_menu: false };
        }
        let is_fn = is_named(key_name, "Unknown(179)");
        let key = if is_fn {
            "Function".to_owned()
        } else {
            key_name.clone()
        };
        if !contains_name(&self.pressed, &key) {
            self.pressed.push(key);
            assert(names(self.pressed@) =~= names(old(self).pressed@).push(normalized(key_name@)));
        }
        if is_named(key_name, "MetaLeft") || is_named(key_name, "MetaRight") {
            self.cmd_pressed = true;
        }
        if is_named(key_name, "ControlLeft") || is_named(key_name, "ControlRight") {
            self.ctrl_pressed = true;
        }
        if self.should_block() {
            let meta_held = self.cmd_pressed || contains_name(&self.pressed, &"MetaLeft".to_owned())
                || contains_name(&self.pressed, &"MetaRight".to_owned());
            KeyDecision { report: true, pass_through: false, mask_start_menu: meta_held }
        } else if is_fn && self.uses_function_key() {
            KeyDecision { report: true, pass_through: false, mask_start_menu: false }
        } else {
            KeyDecision { report: true, pass_through: true, mask_start_menu: false }
        }
    }

    /// A key was released. It is no longer held (under its normalized name).
    /// The release of C during a copy, or while Cmd or Ctrl is held, ends the
    /// copy and passes unreported; any other release updates the modifier flags
    /// and is reported. Releases always reach the system.
    pub fn on_key_release(&mut self, key_name: &String) -> (d: KeyDecision)
        ensures
            final(self).registered() == old(self).registered(),
            final(self).pressed() == old(self).pressed().filter(other_than(normalized(key_name@))),
            ({
                let name = key_name@;
                if name == "KeyC"@ && (old(self).copying() || old(self).cmd_held()
                    || old(self).ctrl_held()) {
                    &&& !final(self).copying()
                    &&& final(self).cmd_held() == old(self).cmd_held()
                    &&& final(self).ctrl_held() == old(self).ctrl_held()
                    &&& d == KeyDecision {
                        report: false,
                        pass_through: true,
                        mask_start_menu: false,
                    }
                } else {
                    &&& final(self).copying() == old(self).copying()
                    &&& final(self).cmd_held() == (old(self).cmd_held() && !is_meta(name))
                    &&& final(self).ctrl_held() == (old(self).ctrl_held() && !is_control(name))
                    &&& d == KeyDecision { report: true, pass_through: true, mask_start_menu: false }
                }
            }),
    {
        let key = if is_named(key_name, "Unknown(179)") {
            "Function".to_owned()
        } else {
            key_name.clone()
        };
        let ghost gone = normalized(key_name@);
        let ghost before = names(self.pressed@);
        let mut kept: Vec<String> = Vec::new();
        let mut i: usize = 0;
        while i < self.pressed.len()
            invariant
                i <= self.pressed@.len(),
                key@ == gone,
                before == names(self.pressed@),
                names(kept@) == before.subrange(0, i as int).filter(other_than(gone)),
            decreases self.pressed@.len() - i,
        {
            let ghost prefix = before.subrange(0, i as int + 1);
            assert(prefix.drop_last() =~= before.subrange(0, i as int));
            assert(prefix.last() == self.pressed@[i as int]@);
            reveal(Seq::filter);
            assert(prefix.filter(other_than(gone)) == (if other_than(gone)(prefix.last()) {
                prefix.drop_last().filter(other_than(gone)).push(prefix.last())
            } else {
                prefix.drop_last().filter(other_than(gone))
            }));
            if !(self.pressed[i] == key) {
                let ghost old_kept = names(kept@);
                kept.push(self.pressed[i].clone());
                assert(names(kept@) =~= old_kept.push(before[i as int]));
            }
            assert(names(kept@) == prefix.filter(other_than(gone)));
            i += 1;
        }
        assert(before.subrange(0, before.len() as int) =~= before);
        self.pressed = kept;
        if is_named(key_name, "KeyC") && (self.copy_in_progress || self.cmd_pressed
            || self.ctrl_pressed) {
            self.copy_in_progress = false;
            return KeyDecision { report: false, pass_through: true, mask_start_menu: false };
        }
        if is_named(key_name, "MetaLeft") || is_named(key_name, "MetaRight") {
            self.cmd_pressed = false;
        }
        if is_named(key_name, "ControlLeft") || is_named(key_name, "ControlRight") {
            self.ctrl_pressed = false;
        }
        KeyDecision { report: true, pass_through: true, mask_start_menu: false }
    }
}

} // verus!
