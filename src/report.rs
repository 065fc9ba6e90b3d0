//! The per-frame report accumulator and the report it produces.
use vstd::prelude::*;

use crate::mapping::{CONSUMER_UNASSIGNED, KEY_ERROR_UNDEFINED, KEY_NO_EVENT, KeyboardAction, Mapping};

verus! {

/// Number of keyboard usages one report can carry.
pub const KEY_CAPACITY: usize = 26;

/// Mouse button bits of `KeypadReport::mouse_buttons`.
pub const MOUSE_LEFT_BIT: u8 = 1;

pub const MOUSE_RIGHT_BIT: u8 = 2;

pub const MOUSE_SCROLL_BIT: u8 = 4;

/// What the host is told about one frame.
#[derive(Clone, Copy, Debug)]
pub struct KeypadReport {
    pub mouse_buttons: u8,
    pub wheel: i8,
    pub joy_buttons: u8,
    pub x: u16,
    pub y: u16,
    pub modifier: u8,
    pub keycodes: [u8; KEY_CAPACITY],
    pub consumer_keycode: u16,
}

/// The contents of a `Report`.
pub struct ReportModel {
    /// Keyboard usages in the order they were added.
    pub keys: Seq<u8>,
    pub mouse_left: bool,
    pub mouse_right: bool,
    pub mouse_scroll: bool,
    pub joystick: bool,
    pub consumer: u16,
    /// Keyboard usages that found the report full.
    pub dropped_keys: u32,
    /// Consumer usages that found one already recorded.
    pub consumer_conflicts: u32,
}

/// One more occurrence of a diagnostic, stopping at the counter's limit.
pub open spec fn bump(n: u32) -> u32 {
    if n < u32::MAX {
        (n + 1) as u32
    } else {
        n
    }
}

pub open spec fn empty_report() -> ReportModel {
    ReportModel {
        keys: Seq::empty(),
        mouse_left: false,
        mouse_right: false,
        mouse_scroll: false,
        joystick: false,
        consumer: CONSUMER_UNASSIGNED,
        dropped_keys: 0,
        consumer_conflicts: 0,
    }
}

/// Whether the binding carries a keyboard usage.
pub open spec fn sends_key(m: Mapping) -> bool {
    m.button > KEY_ERROR_UNDEFINED
}

/// Adding a binding: its keyboard usage is appended while there is room and
/// counted as dropped otherwise; the first consumer usage is kept and any
/// later one counted as a conflict; mouse and joystick actions set their flag.
pub open spec fn add_spec(r: ReportModel, m: Mapping) -> ReportModel {
    let key = sends_key(m);
    let consumer = m.consumer_button != CONSUMER_UNASSIGNED;
    ReportModel {
        keys: if key && r.keys.len() < KEY_CAPACITY {
            r.keys.push(m.button)
        } else {
            r.keys
        },
        mouse_left: r.mouse_left || m.action is MouseLeftButton,
        mouse_right: r.mouse_right || m.action is MouseRightButton,
        mouse_scroll: r.mouse_scroll || m.action is MouseScrollButton,
        joystick: r.joystick || m.action is JoystickButton,
        consumer: if consumer && r.consumer == CONSUMER_UNASSIGNED {
            m.consumer_button
        } else {
            r.consumer
        },
        dropped_keys: if key && r.keys.len() >= KEY_CAPACITY {
            bump(r.dropped_keys)
        } else {
            r.dropped_keys
        },
        consumer_conflicts: if consumer && r.consumer != CONSUMER_UNASSIGNED {
            bump(r.consumer_conflicts)
        } else {
            r.consumer_conflicts
        },
    }
}

/// The report after adding `ms` in order to an empty one.
pub open spec fn accumulate(ms: Seq<Mapping>) -> ReportModel
    decreases ms.len(),
{
    if ms.len() == 0 {
        empty_report()
    } else {
        add_spec(accumulate(ms.drop_last()), ms.last())
    }
}

/// The keycode array: the usages in order, then `KEY_NO_EVENT`.
pub open spec fn padded_keys(keys: Seq<u8>) -> Seq<u8> {
    Seq::new(KEY_CAPACITY as nat, |i: int| if i < keys.len() { keys[i] } else { KEY_NO_EVENT })
}

/// The mouse button bitmask: the bits of the buttons held.
pub open spec fn mouse_mask(r: ReportModel) -> u8 {
    ((if r.mouse_left { MOUSE_LEFT_BIT } else { 0 }) + (if r.mouse_right {
        MOUSE_RIGHT_BIT
    } else {
        0
    }) + (if r.mouse_scroll { MOUSE_SCROLL_BIT } else { 0 })) as u8
}

/// `k` carries the buttons, codes and usages of `r`.
pub open spec fn carries(k: KeypadReport, r: ReportModel) -> bool {
    &&& k.keycodes@ == padded_keys(r.keys)
    &&& k.mouse_buttons == mouse_mask(r)
    &&& k.joy_buttons == (if r.joystick { 1u8 } else { 0u8 })
    &&& k.consumer_keycode == r.consumer
    &&& k.modifier == 0
}

/// Collects the bindings resolved in one frame.
pub struct Report {
    keycodes: [u8; KEY_CAPACITY],
    key_count: usize,
    mouse_buttons: [bool; 3],
    joystick_button: bool,
    consumer_code: u16,
    dropped_keys: u32,
    consumer_conflicts: u32,
}

impl View for Report {
    type V = ReportModel;

    closed spec fn view(&self) -> ReportModel {
        ReportModel {
            keys: self.keycodes@.take(self.key_count as int),
            mouse_left: self.mouse_buttons[0],
            mouse_right: self.mouse_buttons[1],
            mouse_scroll: self.mouse_buttons[2],
            joystick: self.joystick_button,
            consumer: self.consumer_code,
            dropped_keys: self.dropped_keys,
            consumer_conflicts: self.consumer_conflicts,
        }
    }
}

impl Report {
    /// The usages fill the front of the array, and the rest is unused.
    pub closed spec fn inv(&self) -> bool {
        &&& self.key_count <= KEY_CAPACITY
        &&& forall|i: int|
            self.key_count <= i < KEY_CAPACITY ==> self.keycodes[i] == KEY_NO_EVENT
    }

    /// An empty report.
    pub fn new() -> (r: Report)
        ensures
            r.inv(),
            r@ == empty_report(),
    {
        let r = Report {
            keycodes: [KEY_NO_EVENT; KEY_CAPACITY],
            key_count: 0,
            mouse_buttons: [false; 3],
            joystick_button: false,
            consumer_code: CONSUMER_UNASSIGNED,
            dropped_keys: 0,
            consumer_conflicts: 0,
        };
        assert(r@.keys =~= Seq::<u8>::empty());
        r
    }

    /// Adds what one resolved binding contributes.
    pub fn add_mapping(&mut self, mapping: Mapping)
        requires
            old(self).inv(),
        ensures
            final(self).inv(),
            final(self)@ == add_spec(old(self)@, mapping),
    {
        if mapping.button > KEY_ERROR_UNDEFINED {
            if self.key_count < KEY_CAPACITY {
                self.keycodes[self.key_count] = mapping.button;
                self.key_count = self.key_count + 1;
            } else if self.dropped_keys < u32::MAX {
                self.dropped_keys = self.dropped_keys + 1;
            }
        }
        let consumer = mapping.consumer_button;
        if consumer != CONSUMER_UNASSIGNED {
            if self.consumer_code == CONSUMER_UNASSIGNED {
                self.consumer_code = consumer;
            } else if self.consumer_conflicts < u32::MAX {
                self.consumer_conflicts = self.consumer_conflicts + 1;
            }
        }
        match mapping.action {
            KeyboardAction::MouseLeftButton => {
                self.mouse_buttons[0] = true;
            },
            KeyboardAction::MouseRightButton => {
                self.mouse_buttons[1] = true;
            },
            KeyboardAction::MouseScrollButton => {
                self.mouse_buttons[2] = true;
            },
            KeyboardAction::JoystickButton => {
                self.joystick_button = true;
            },
            _ => {},
        }
        assert(final(self)@.keys =~= add_spec(old(self)@, mapping).keys);
    }

    /// Keyboard usages that found the report full so far.
    pub fn dropped_keys(&self) -> (r: u32)
        ensures
            r == self@.dropped_keys,
    {
        self.dropped_keys
    }

    /// Consumer usages that found one already recorded so far.
    pub fn consumer_conflicts(&self) -> (r: u32)
        ensures
            r == self@.consumer_conflicts,
    {
        self.consumer_conflicts
    }

    /// Packs the report; position and wheel are left at zero.
    pub fn finalize(&self) -> (r: KeypadReport)
        requires
            self.inv(),
        ensures
            carries(r, self@),
            r.x == 0,
            r.y == 0,
            r.wheel == 0,
    {
        let mut mouse_buttons: u8 = 0;
        if self.mouse_buttons[0] {
            mouse_buttons = mouse_buttons + MOUSE_LEFT_BIT;
        }
        if self.mouse_buttons[1] {
            mouse_buttons = mouse_buttons + MOUSE_RIGHT_BIT;
        }
        if self.mouse_buttons[2] {
            mouse_buttons = mouse_buttons + MOUSE_SCROLL_BIT;
        }
        let joy_buttons: u8 = if self.joystick_button { 1 } else { 0 };
        let r = KeypadReport {
            mouse_buttons,
            wheel: 0,
            joy_buttons,
            x: 0,
            y: 0,
            modifier: 0,
            keycodes: self.keycodes,
            consumer_keycode: self.consumer_code,
        };
        assert(r.keycodes@ =~= padded_keys(self@.keys));
        r
    }
}

/// However many bindings carrying a keyboard usage are added, the report
/// holds the first `KEY_CAPACITY` of them in order and counts each of the
/// others as dropped.
pub proof fn lemma_key_capacity(ms: Seq<Mapping>)
    requires
        forall|i: int| 0 <= i < ms.len() ==> sends_key(#[trigger] ms[i]),
        ms.len() <= u32::MAX,
    ensures
        accumulate(ms).keys.len() == if ms.len() < KEY_CAPACITY {
            ms.len() as int
        } else {
            KEY_CAPACITY as int
        },
        forall|i: int|
            0 <= i < accumulate(ms).keys.len() ==> #[trigger] accumulate(ms).keys[i]
                == ms[i].button,
        accumulate(ms).dropped_keys == if ms.len() < KEY_CAPACITY {
            0
        } else {
            ms.len() - KEY_CAPACITY
        },
    decreases ms.len(),
{
    if ms.len() > 0 {
        let prefix = ms.drop_last();
        assert forall|i: int| 0 <= i < prefix.len() implies sends_key(#[trigger] prefix[i]) by {
            assert(prefix[i] == ms[i]);
        }
        lemma_key_capacity(prefix);
        assert(sends_key(ms[ms.len() - 1]));
    }
}

} // verus!
