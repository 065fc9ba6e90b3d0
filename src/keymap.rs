//! The layered keymap and the per-frame resolution of inputs into a report.
use vstd::prelude::*;

use crate::mapping::{collapse, collapse_mapping, KeyboardAction, Layer, Mapping, LAYER_COUNT};
use crate::report::{accumulate, add_spec, carries, KeypadReport, Report};
use crate::stick::{
    axis_from, axis_value, horizontal_direction, position, stick_directions, stick_position,
    vertical_direction, StickCalibration, DIRECTION_COUNT, ROTATION_ONE,
};

verus! {

/// Number of digital keys.
pub const KEY_COUNT: usize = 21;

/// Number of scanned controls: the keys, then the joystick button, then the
/// scroll button.
pub const CONTROL_COUNT: usize = 23;

/// Scan position of the joystick button.
pub const JOY_BUTTON_CONTROL: usize = 21;

/// Everything read from the hardware for one frame, sampled before any
/// binding is resolved.
#[derive(Clone, Copy, Debug)]
pub struct FrameInput {
    pub keys: [bool; KEY_COUNT],
    pub joy_button: bool,
    pub scroll_button: bool,
    /// Phase A and phase B of the rotary encoder.
    pub rotary_a: bool,
    pub rotary_b: bool,
    /// Raw stick samples.
    pub joy_x: u16,
    pub joy_y: u16,
}

/// The binding tables of every control on every layer, and the stick's
/// calibration.
#[derive(Clone, Copy, Debug)]
pub struct Keymap {
    pub key_mappings: [[Mapping; LAYER_COUNT]; KEY_COUNT],
    pub joy_button_mappings: [Mapping; LAYER_COUNT],
    pub scroll_button_mappings: [Mapping; LAYER_COUNT],
    /// Bindings pressed by the stick while it emulates keys, one row per
    /// direction.
    pub wasd_mappings: [[Mapping; LAYER_COUNT]; DIRECTION_COUNT],
    pub stick: StickCalibration,
}

/// State kept from one frame to the next.
#[derive(Clone, Copy, Debug, PartialEq, Eq, Structural)]
pub struct KeymapState {
    /// Whether the stick emulates direction keys instead of reporting a position.
    pub wasd_mode: bool,
    /// The layer that frames start on.
    pub stored_layer: Layer,
    /// The layer in effect for the latest frame.
    pub current_layer: Layer,
    /// Phase A of the rotary encoder in the latest frame.
    pub rotary_prev: bool,
}

/// Counts of the conditions a frame recovered from.
#[derive(Clone, Copy, Debug, PartialEq, Eq, Structural)]
pub struct Diagnostics {
    /// Keyboard usages left out because the report was full.
    pub dropped_keys: u32,
    /// Consumer usages left out because one was already recorded.
    pub consumer_conflicts: u32,
    /// Layer changes left out because an earlier control already changed it.
    pub layer_conflicts: u32,
    /// Mode changes left out because an earlier control already changed it.
    pub mode_conflicts: u32,
}

/// The outcome of one frame.
#[derive(Clone, Copy, Debug)]
pub struct Frame {
    pub report: KeypadReport,
    pub diagnostics: Diagnostics,
}

/// The bindings of the control at scan position `c`.
pub open spec fn control_table(km: Keymap, c: int) -> Seq<Mapping> {
    if c < KEY_COUNT {
        km.key_mappings[c]@
    } else if c == JOY_BUTTON_CONTROL {
        km.joy_button_mappings@
    } else {
        km.scroll_button_mappings@
    }
}

/// Whether the control at scan position `c` is actuated.
pub open spec fn control_pressed(input: FrameInput, c: int) -> bool {
    if c < KEY_COUNT {
        input.keys[c]
    } else if c == JOY_BUTTON_CONTROL {
        input.joy_button
    } else {
        input.scroll_button
    }
}

/// The bindings of the actuated controls among the first `n`, in scan
/// order, resolved on `layer`.
pub open spec fn resolved_controls(km: Keymap, input: FrameInput, layer: Layer, n: int) -> Seq<
    Mapping,
>
    decreases n,
{
    if n <= 0 {
        Seq::empty()
    } else {
        let prev = resolved_controls(km, input, layer, n - 1);
        if control_pressed(input, n - 1) {
            prev.push(collapse(control_table(km, n - 1), layer.spec_index() as int))
        } else {
            prev
        }
    }
}

/// The layer changes among `ms`, in order.
pub open spec fn layer_requests(ms: Seq<Mapping>) -> Seq<KeyboardAction>
    decreases ms.len(),
{
    if ms.len() == 0 {
        Seq::empty()
    } else {
        let prev = layer_requests(ms.drop_last());
        if ms.last().action.spec_is_layer_change() {
            prev.push(ms.last().action)
        } else {
            prev
        }
    }
}

/// The mode changes among `ms`, in order.
pub open spec fn mode_requests(ms: Seq<Mapping>) -> Seq<KeyboardAction>
    decreases ms.len(),
{
    if ms.len() == 0 {
        Seq::empty()
    } else {
        let prev = mode_requests(ms.drop_last());
        if ms.last().action.spec_is_mode_change() {
            prev.push(ms.last().action)
        } else {
            prev
        }
    }
}

/// The layer a layer change switches to.
pub open spec fn target_layer(a: KeyboardAction) -> Layer {
    match a {
        KeyboardAction::LayerMomentary(l) => l,
        KeyboardAction::LayerSet(l) => l,
        _ => Layer::Zero,
    }
}

/// The stick mode after a mode change.
pub open spec fn apply_mode(a: KeyboardAction, wasd_mode: bool) -> bool {
    match a {
        KeyboardAction::WasdModeOff => false,
        KeyboardAction::WasdModeOn => true,
        KeyboardAction::WasdModeToggle => !wasd_mode,
        _ => wasd_mode,
    }
}

/// The bindings that can change state this frame: those of the actuated
/// controls, resolved on the stored layer.
pub open spec fn state_bindings(s: KeymapState, km: Keymap, input: FrameInput) -> Seq<Mapping> {
    resolved_controls(km, input, s.stored_layer, CONTROL_COUNT as int)
}

/// The state after a frame. The frame starts on the stored layer; the first
/// layer change in scan order applies (a set one also becomes the stored
/// layer) and the first mode change applies; later ones are left out.
pub open spec fn next_state(s: KeymapState, km: Keymap, input: FrameInput) -> KeymapState {
    let ms = state_bindings(s, km, input);
    let lr = layer_requests(ms);
    let mr = mode_requests(ms);
    KeymapState {
        wasd_mode: if mr.len() > 0 {
            apply_mode(mr[0], s.wasd_mode)
        } else {
            s.wasd_mode
        },
        stored_layer: if lr.len() > 0 && lr[0] is LayerSet {
            target_layer(lr[0])
        } else {
            s.stored_layer
        },
        current_layer: if lr.len() > 0 {
            target_layer(lr[0])
        } else {
            s.stored_layer
        },
        rotary_prev: input.rotary_a,
    }
}

/// The direction bindings the stick presses on `layer`: vertical first,
/// then horizontal.
pub open spec fn direction_bindings(km: Keymap, input: FrameInput, layer: Layer) -> Seq<Mapping> {
    let pos = position(km.stick, input.joy_x, input.joy_y);
    let v = match vertical_direction(km.stick, pos.1) {
        Some(d) => seq![collapse(km.wasd_mappings[d as int]@, layer.spec_index() as int)],
        None => Seq::empty(),
    };
    let h = match horizontal_direction(km.stick, pos.0) {
        Some(d) => seq![collapse(km.wasd_mappings[d as int]@, layer.spec_index() as int)],
        None => Seq::empty(),
    };
    v + h
}

/// The bindings a frame emits, in priority order, once its state is settled:
/// the stick's directions while it emulates keys, then the actuated controls
/// in scan order.
pub open spec fn emissions(next: KeymapState, km: Keymap, input: FrameInput) -> Seq<Mapping> {
    let d = if next.wasd_mode {
        direction_bindings(km, input, next.current_layer)
    } else {
        Seq::empty()
    };
    d + resolved_controls(km, input, next.current_layer, CONTROL_COUNT as int)
}

/// One wheel step when phase A has changed since the last frame: down when
/// phase B then differs from phase A, up otherwise.
pub open spec fn wheel_step(s: KeymapState, input: FrameInput) -> i8 {
    if input.rotary_a != s.rotary_prev {
        if input.rotary_b != input.rotary_a {
            -1i8
        } else {
            1i8
        }
    } else {
        0i8
    }
}

/// Requests left out when only the first of `n` applies.
pub open spec fn left_out(n: nat) -> u32 {
    if n > 0 {
        (n - 1) as u32
    } else {
        0
    }
}

/// The report of a frame, and what it recovered from.
pub open spec fn frame_holds(f: Frame, s: KeymapState, km: Keymap, input: FrameInput) -> bool {
    let next = next_state(s, km, input);
    let model = accumulate(emissions(next, km, input));
    let pos = position(km.stick, input.joy_x, input.joy_y);
    let ms = state_bindings(s, km, input);
    &&& carries(f.report, model)
    &&& f.report.x == (if next.wasd_mode { 0 } else { axis_value(pos.0) })
    &&& f.report.y == (if next.wasd_mode { 0 } else { axis_value(pos.1) })
    &&& f.report.wheel == wheel_step(s, input)
    &&& f.diagnostics == Diagnostics {
        dropped_keys: model.dropped_keys,
        consumer_conflicts: model.consumer_conflicts,
        layer_conflicts: left_out(layer_requests(ms).len()),
        mode_conflicts: left_out(mode_requests(ms).len()),
    }
}

proof fn lemma_requests_push(ms: Seq<Mapping>, m: Mapping)
    ensures
        layer_requests(ms.push(m)) == if m.action.spec_is_layer_change() {
            layer_requests(ms).push(m.action)
        } else {
            layer_requests(ms)
        },
        mode_requests(ms.push(m)) == if m.action.spec_is_mode_change() {
            mode_requests(ms).push(m.action)
        } else {
            mode_requests(ms)
        },
{
    assert(ms.push(m).drop_last() =~= ms);
}

proof fn lemma_accumulate_push(ms: Seq<Mapping>, m: Mapping)
    ensures
        accumulate(ms.push(m)) == add_spec(accumulate(ms), m),
{
    assert(ms.push(m).drop_last() =~= ms);
}

proof fn lemma_requests_len(ms: Seq<Mapping>)
    ensures
        layer_requests(ms).len() <= ms.len(),
        mode_requests(ms).len() <= ms.len(),
    decreases ms.len(),
{
    if ms.len() > 0 {
        lemma_requests_len(ms.drop_last());
    }
}

proof fn lemma_resolved_len(km: Keymap, input: FrameInput, layer: Layer, n: int)
    ensures
        resolved_controls(km, input, layer, n).len() <= if n < 0 {
            0
        } else {
            n
        },
    decreases n,
{
    if n > 0 {
        lemma_resolved_len(km, input, layer, n - 1);
    }
}

proof fn lemma_first_layer_request(ms: Seq<Mapping>)
    ensures
        layer_requests(ms).len() == 0 <==> forall|j: int|
            0 <= j < ms.len() ==> !(#[trigger] ms[j].action.spec_is_layer_change()),
        layer_requests(ms).len() > 0 ==> exists|i: int|
            0 <= i < ms.len() && ms[i].action == layer_requests(ms)[0]
                && ms[i].action.spec_is_layer_change() && forall|j: int|
                0 <= j < i ==> !(#[trigger] ms[j].action.spec_is_layer_change()),
    decreases ms.len(),
{
    if ms.len() > 0 {
        let prefix = ms.drop_last();
        lemma_first_layer_request(prefix);
        assert(forall|j: int| 0 <= j < prefix.len() ==> prefix[j] == ms[j]);
        if layer_requests(prefix).len() > 0 {
            let i = choose|i: int|
                0 <= i < prefix.len() && prefix[i].action == layer_requests(prefix)[0]
                    && prefix[i].action.spec_is_layer_change() && forall|
                    j: int,
                | 0 <= j < i ==> !(#[trigger] prefix[j].action.spec_is_layer_change());
            assert(ms[i].action == layer_requests(ms)[0]);
        } else if ms.last().action.spec_is_layer_change() {
            assert(ms[ms.len() - 1].action == layer_requests(ms)[0]);
        }
    }
}

proof fn lemma_first_mode_request(ms: Seq<Mapping>)
    ensures
        mode_requests(ms).len() == 0 <==> forall|j: int|
            0 <= j < ms.len() ==> !(#[trigger] ms[j].action.spec_is_mode_change()),
        mode_requests(ms).len() > 0 ==> exists|i: int|
            0 <= i < ms.len() && ms[i].action == mode_requests(ms)[0]
                && ms[i].action.spec_is_mode_change() && forall|j: int|
                0 <= j < i ==> !(#[trigger] ms[j].action.spec_is_mode_change()),
    decreases ms.len(),
{
    if ms.len() > 0 {
        let prefix = ms.drop_last();
        lemma_first_mode_request(prefix);
        assert(forall|j: int| 0 <= j < prefix.len() ==> prefix[j] == ms[j]);
        if mode_requests(prefix).len() > 0 {
            let i = choose|i: int|
                0 <= i < prefix.len() && prefix[i].action == mode_requests(prefix)[0]
                    && prefix[i].action.spec_is_mode_change() && forall|
                    j: int,
                | 0 <= j < i ==> !(#[trigger] prefix[j].action.spec_is_mode_change());
            assert(ms[i].action == mode_requests(ms)[0]);
        } else if ms.last().action.spec_is_mode_change() {
            assert(ms[ms.len() - 1].action == mode_requests(ms)[0]);
        }
    }
}

/// However many actuated controls ask for a layer change in one frame, only
/// the first of them in scan order takes effect: the frame's layer is that
/// one's target, and the stored layer changes only if that one is a set.
pub proof fn lemma_first_layer_change_wins(s: KeymapState, km: Keymap, input: FrameInput, i: int)
    requires
        0 <= i < state_bindings(s, km, input).len(),
        state_bindings(s, km, input)[i].action.spec_is_layer_change(),
        forall|j: int|
            0 <= j < i ==> !(#[trigger] state_bindings(s, km, input)[j].action.spec_is_layer_change()),
    ensures
        next_state(s, km, input).current_layer == target_layer(
            state_bindings(s, km, input)[i].action,
        ),
        next_state(s, km, input).stored_layer == if state_bindings(
            s,
            km,
            input,
        )[i].action is LayerSet {
            target_layer(state_bindings(s, km, input)[i].action)
        } else {
            s.stored_layer
        },
{
    let ms = state_bindings(s, km, input);
    lemma_first_layer_request(ms);
    assert(ms[i].action.spec_is_layer_change());
    assert(layer_requests(ms).len() > 0);
    let k = choose|k: int|
        0 <= k < ms.len() && ms[k].action == layer_requests(ms)[0]
            && ms[k].action.spec_is_layer_change() && forall|j: int|
            0 <= j < k ==> !(#[trigger] ms[j].action.spec_is_layer_change());
    if i < k {
        assert(!ms[i].action.spec_is_layer_change());
    } else if k < i {
        assert(!ms[k].action.spec_is_layer_change());
    }
    assert(layer_requests(ms)[0] == ms[i].action);
}

/// However many actuated controls ask for a mode change in one frame, only
/// the first of them in scan order takes effect.
pub proof fn lemma_first_mode_change_wins(s: KeymapState, km: Keymap, input: FrameInput, i: int)
    requires
        0 <= i < state_bindings(s, km, input).len(),
        state_bindings(s, km, input)[i].action.spec_is_mode_change(),
        forall|j: int|
            0 <= j < i ==> !(#[trigger] state_bindings(s, km, input)[j].action.spec_is_mode_change()),
    ensures
        next_state(s, km, input).wasd_mode == apply_mode(
            state_bindings(s, km, input)[i].action,
            s.wasd_mode,
        ),
{
    let ms = state_bindings(s, km, input);
    lemma_first_mode_request(ms);
    assert(ms[i].action.spec_is_mode_change());
    assert(mode_requests(ms).len() > 0);
    let k = choose|k: int|
        0 <= k < ms.len() && ms[k].action == mode_requests(ms)[0]
            && ms[k].action.spec_is_mode_change() && forall|j: int|
            0 <= j < k ==> !(#[trigger] ms[j].action.spec_is_mode_change());
    if i < k {
        assert(!ms[i].action.spec_is_mode_change());
    } else if k < i {
        assert(!ms[k].action.spec_is_mode_change());
    }
    assert(mode_requests(ms)[0] == ms[i].action);
}

/// A frame in which no actuated control asks for a layer change runs on the
/// stored layer and keeps it; one in which none asks for a mode change keeps
/// the mode.
pub proof fn lemma_no_request_keeps_state(s: KeymapState, km: Keymap, input: FrameInput)
    ensures
        (forall|j: int|
            0 <= j < state_bindings(s, km, input).len() ==> !(#[trigger] state_bindings(
                s,
                km,
                input,
            )[j].action.spec_is_layer_change())) ==> next_state(s, km, input).current_layer
            == s.stored_layer && next_state(s, km, input).stored_layer == s.stored_layer,
        (forall|j: int|
            0 <= j < state_bindings(s, km, input).len() ==> !(#[trigger] state_bindings(
                s,
                km,
                input,
            )[j].action.spec_is_mode_change())) ==> next_state(s, km, input).wasd_mode
            == s.wasd_mode,
{
    let ms = state_bindings(s, km, input);
    lemma_first_layer_request(ms);
    lemma_first_mode_request(ms);
}

/// A momentary layer change lasts one frame: when it is the frame's layer
/// change, the stored layer is kept, and a next frame that asks for no layer
/// change is back on the layer stored before.
pub proof fn lemma_momentary_does_not_persist(
    s: KeymapState,
    km: Keymap,
    first: FrameInput,
    second: FrameInput,
)
    requires
        layer_requests(state_bindings(s, km, first)).len() > 0,
        layer_requests(state_bindings(s, km, first))[0] is LayerMomentary,
        layer_requests(state_bindings(next_state(s, km, first), km, second)).len() == 0,
    ensures
        next_state(s, km, first).stored_layer == s.stored_layer,
        next_state(next_state(s, km, first), km, second).current_layer == s.stored_layer,
{
}

/// A rise of phase A while phase B is high is one step up in that frame's
/// report, and with phase A still high the next frame reports no step.
pub proof fn lemma_rotary_single_step(
    s: KeymapState,
    km: Keymap,
    first: FrameInput,
    second: FrameInput,
)
    requires
        !s.rotary_prev,
        first.rotary_a,
        first.rotary_b,
        second.rotary_a,
    ensures
        wheel_step(s, first) == 1,
        wheel_step(next_state(s, km, first), second) == 0,
{
}

/// Keyboard usages of the default keymap.
pub const KEY_A: u8 = 0x04;

pub const KEY_C: u8 = 0x06;

pub const KEY_D: u8 = 0x07;

pub const KEY_E: u8 = 0x08;

pub const KEY_F: u8 = 0x09;

pub const KEY_G: u8 = 0x0a;

pub const KEY_Q: u8 = 0x14;

pub const KEY_R: u8 = 0x15;

pub const KEY_S: u8 = 0x16;

pub const KEY_V: u8 = 0x19;

pub const KEY_W: u8 = 0x1a;

pub const KEY_X: u8 = 0x1b;

pub const KEY_Z: u8 = 0x1d;

pub const KEY_1: u8 = 0x1e;

pub const KEY_2: u8 = 0x1f;

pub const KEY_3: u8 = 0x20;

pub const KEY_4: u8 = 0x21;

pub const KEY_5: u8 = 0x22;

pub const KEY_6: u8 = 0x23;

pub const KEY_7: u8 = 0x24;

pub const KEY_8: u8 = 0x25;

pub const KEY_ESCAPE: u8 = 0x29;

pub const KEY_TAB: u8 = 0x2b;

pub const KEY_SPACE: u8 = 0x2c;

pub const KEY_F1: u8 = 0x3a;

pub const KEY_F2: u8 = 0x3b;

pub const KEY_F3: u8 = 0x3c;

pub const KEY_F4: u8 = 0x3d;

/// Consumer usages of the default keymap.
pub const CONSUMER_PLAY_PAUSE: u16 = 0xcd;

pub const CONSUMER_MUTE: u16 = 0xe2;

pub const CONSUMER_VOLUME_UP: u16 = 0xe9;

pub const CONSUMER_VOLUME_DOWN: u16 = 0xea;

/// Stick calibration of the default keymap.
pub const DEFAULT_CENTER: u16 = 512;

pub const DEFAULT_DEADZONE: u16 = 64;

/// Bindings of one control: `base` on layer zero, the rest transparent.
fn base_only(base: Mapping) -> (r: [Mapping; LAYER_COUNT])
    ensures
        r@[0] == base,
        forall|l: int| 1 <= l < LAYER_COUNT ==> (#[trigger] r@[l]).action is Transparent,
{
    let t = Mapping::transparent();
    [base, t, t, t]
}

/// Bindings of one control on each layer.
fn layered(l0: Mapping, l1: Mapping, l2: Mapping, l3: Mapping) -> (r: [Mapping; LAYER_COUNT])
    ensures
        r@ == seq![l0, l1, l2, l3],
{
    let r = [l0, l1, l2, l3];
    assert(r@ =~= seq![l0, l1, l2, l3]);
    r
}

impl Keymap {
    /// The keymap the keypad starts with. Layer zero types, and its last key
    /// switches to layer one and back. Layer one holds function keys, media
    /// keys and the stick mode toggle; there the space key gives layer two,
    /// with more number keys, while held. The stick emulates W, S, A and D.
    pub fn default() -> (r: Keymap)
        ensures
            forall|c: int|
                0 <= c < CONTROL_COUNT ==> !(#[trigger] control_table(r, c)[0].action is Transparent),
            forall|d: int|
                0 <= d < DIRECTION_COUNT ==> !(#[trigger] r.wasd_mappings[d]@[0].action is Transparent),
            r.stick == (StickCalibration {
                x_center: DEFAULT_CENTER,
                y_center: DEFAULT_CENTER,
                rotation_deg: 0,
                cos_q14: ROTATION_ONE as i32,
                sin_q14: 0,
                x_deadzone: DEFAULT_DEADZONE,
                y_deadzone: DEFAULT_DEADZONE,
            }),
    {
        let t = Mapping::transparent();
        let key_mappings = [
            layered(Mapping::key(KEY_ESCAPE), Mapping::action(KeyboardAction::WasdModeToggle), t, t),
            layered(Mapping::key(KEY_1), Mapping::key(KEY_F1), Mapping::key(KEY_5), t),
            layered(Mapping::key(KEY_2), Mapping::key(KEY_F2), Mapping::key(KEY_6), t),
            layered(Mapping::key(KEY_3), Mapping::key(KEY_F3), Mapping::key(KEY_7), t),
            layered(Mapping::key(KEY_4), Mapping::key(KEY_F4), Mapping::key(KEY_8), t),
            layered(Mapping::key(KEY_TAB), Mapping::consumer(CONSUMER_MUTE), t, t),
            layered(Mapping::key(KEY_Q), Mapping::consumer(CONSUMER_VOLUME_UP), t, t),
            layered(Mapping::key(KEY_W), Mapping::consumer(CONSUMER_VOLUME_DOWN), t, t),
            layered(Mapping::key(KEY_E), Mapping::consumer(CONSUMER_PLAY_PAUSE), t, t),
            base_only(Mapping::key(KEY_R)),
            base_only(Mapping::key(KEY_A)),
            base_only(Mapping::key(KEY_S)),
            base_only(Mapping::key(KEY_D)),
            base_only(Mapping::key(KEY_F)),
            base_only(Mapping::key(KEY_G)),
            base_only(Mapping::key(KEY_Z)),
            base_only(Mapping::key(KEY_X)),
            base_only(Mapping::key(KEY_C)),
            base_only(Mapping::key(KEY_V)),
            layered(
                Mapping::key(KEY_SPACE),
                Mapping::action(KeyboardAction::LayerMomentary(Layer::Two)),
                t,
                t,
            ),
            layered(
                Mapping::action(KeyboardAction::LayerSet(Layer::One)),
                Mapping::action(KeyboardAction::LayerSet(Layer::Zero)),
                t,
                t,
            ),
        ];
        let wasd_mappings = [
            base_only(Mapping::key(KEY_W)),
            base_only(Mapping::key(KEY_S)),
            base_only(Mapping::key(KEY_A)),
            base_only(Mapping::key(KEY_D)),
        ];
        let r = Keymap {
            key_mappings,
            joy_button_mappings: base_only(Mapping::action(KeyboardAction::JoystickButton)),
            scroll_button_mappings: base_only(Mapping::action(KeyboardAction::MouseScrollButton)),
            wasd_mappings,
            stick: StickCalibration {
                x_center: DEFAULT_CENTER,
                y_center: DEFAULT_CENTER,
                rotation_deg: 0,
                cos_q14: ROTATION_ONE as i32,
                sin_q14: 0,
                x_deadzone: DEFAULT_DEADZONE,
                y_deadzone: DEFAULT_DEADZONE,
            },
        };
        r
    }

    /// The bindings of the control at scan position `c`.
    pub fn control_table(&self, c: usize) -> (r: &[Mapping; LAYER_COUNT])
        requires
            c < CONTROL_COUNT,
        ensures
            r@ == control_table(*self, c as int),
    {
        if c < KEY_COUNT {
            &self.key_mappings[c]
        } else if c == JOY_BUTTON_CONTROL {
            &self.joy_button_mappings
        } else {
            &self.scroll_button_mappings
        }
    }
}

impl FrameInput {
    /// Whether the control at scan position `c` is actuated.
    pub fn control_pressed(&self, c: usize) -> (r: bool)
        requires
            c < CONTROL_COUNT,
        ensures
            r == control_pressed(*self, c as int),
    {
        if c < KEY_COUNT {
            self.keys[c]
        } else if c == JOY_BUTTON_CONTROL {
            self.joy_button
        } else {
            self.scroll_button
        }
    }
}

impl KeymapState {
    /// The state at power-up: layer zero, the stick reporting its position.
    pub fn default() -> (r: KeymapState)
        ensures
            r == (KeymapState {
                wasd_mode: false,
                stored_layer: Layer::Zero,
                current_layer: Layer::Zero,
                rotary_prev: false,
            }),
    {
        KeymapState {
            wasd_mode: false,
            stored_layer: Layer::Zero,
            current_layer: Layer::Zero,
            rotary_prev: false,
        }
    }

    /// Settles the layer and mode for a frame: the bindings of the actuated
    /// controls on the stored layer are scanned, and the first layer change
    /// and the first mode change among them apply. Returns how many of each
    /// were left out.
    fn settle(&mut self, input: &FrameInput, keymap: &Keymap) -> (r: (u32, u32))
        ensures
            final(self).wasd_mode == next_state(*old(self), *keymap, *input).wasd_mode,
            final(self).stored_layer == next_state(*old(self), *keymap, *input).stored_layer,
            final(self).current_layer == next_state(*old(self), *keymap, *input).current_layer,
            final(self).rotary_prev == old(self).rotary_prev,
            r.0 == left_out(layer_requests(state_bindings(*old(self), *keymap, *input)).len()),
            r.1 == left_out(mode_requests(state_bindings(*old(self), *keymap, *input)).len()),
    {
        let base = self.stored_layer;
        let wasd_before = self.wasd_mode;
        self.current_layer = base;
        let mut layer_changed = false;
        let mut mode_changed = false;
        let mut layer_conflicts: u32 = 0;
        let mut mode_conflicts: u32 = 0;
        let mut c: usize = 0;
        while c < CONTROL_COUNT
            invariant
                c <= CONTROL_COUNT,
                self.rotary_prev == old(self).rotary_prev,
                base == old(self).stored_layer,
                wasd_before == old(self).wasd_mode,
                ({
                    let lr = layer_requests(resolved_controls(*keymap, *input, base, c as int));
                    &&& layer_changed == (lr.len() > 0)
                    &&& layer_conflicts == left_out(lr.len())
                    &&& lr.len() <= c
                    &&& self.current_layer == (if lr.len() > 0 {
                        target_layer(lr[0])
                    } else {
                        base
                    })
                    &&& self.stored_layer == (if lr.len() > 0 && lr[0] is LayerSet {
                        target_layer(lr[0])
                    } else {
                        base
                    })
                }),
                ({
                    let mr = mode_requests(resolved_controls(*keymap, *input, base, c as int));
                    &&& mode_changed == (mr.len() > 0)
                    &&& mode_conflicts == left_out(mr.len())
                    &&& mr.len() <= c
                    &&& self.wasd_mode == (if mr.len() > 0 {
                        apply_mode(mr[0], wasd_before)
                    } else {
                        wasd_before
                    })
                }),
            decreases CONTROL_COUNT - c,
        {
            let ghost prev = resolved_controls(*keymap, *input, base, c as int);
            proof {
                lemma_requests_len(prev);
                lemma_resolved_len(*keymap, *input, base, c as int);
            }
            if input.control_pressed(c) {
                let m = collapse_mapping(keymap.control_table(c), base);
                proof {
                    lemma_requests_push(prev, m);
                }
                match m.action {
                    KeyboardAction::LayerMomentary(l) => {
                        if layer_changed {
                            layer_conflicts = layer_conflicts + 1;
                        } else {
                            self.current_layer = l;
                            layer_changed = true;
                        }
                    },
                    KeyboardAction::LayerSet(l) => {
                        if layer_changed {
                            layer_conflicts = layer_conflicts + 1;
                        } else {
                            self.current_layer = l;
                            self.stored_layer = l;
                            layer_changed = true;
                        }
                    },
                    KeyboardAction::WasdModeOff => {
                        if mode_changed {
                            mode_conflicts = mode_conflicts + 1;
                        } else {
                            self.wasd_mode = false;
                            mode_changed = true;
                        }
                    },
                    KeyboardAction::WasdModeOn => {
                        if mode_changed {
                            mode_conflicts = mode_conflicts + 1;
                        } else {
                            self.wasd_mode = true;
                            mode_changed = true;
                        }
                    },
                    KeyboardAction::WasdModeToggle => {
                        if mode_changed {
                            mode_conflicts = mode_conflicts + 1;
                        } else {
                            self.wasd_mode = !wasd_before;
                            mode_changed = true;
                        }
                    },
                    _ => {},
                }
            }
            c = c + 1;
        }
        (layer_conflicts, mode_conflicts)
    }

    /// Runs one frame: settles the layer and mode, then resolves and collects
    /// the bindings in priority order, and decodes the rotary encoder.
    pub fn update(&mut self, input: &FrameInput, keymap: &Keymap) -> (r: Frame)
        ensures
            *final(self) == next_state(*old(self), *keymap, *input),
            frame_holds(r, *old(self), *keymap, *input),
    {
        let ghost start = *self;
        let (layer_conflicts, mode_conflicts) = self.settle(input, keymap);
        let layer = self.current_layer;
        let ghost next = next_state(start, *keymap, *input);

        let mut report = Report::new();
        let (pos_x, pos_y) = stick_position(&keymap.stick, input.joy_x, input.joy_y);
        let ghost directions = if next.wasd_mode {
            direction_bindings(*keymap, *input, layer)
        } else {
            Seq::empty()
        };
        if self.wasd_mode {
            let (vertical, horizontal) = stick_directions(&keymap.stick, pos_x, pos_y);
            let ghost v_part = match vertical {
                Some(d) => seq![collapse(keymap.wasd_mappings[d as int]@, layer.spec_index() as int)],
                None => Seq::<Mapping>::empty(),
            };
            match vertical {
                Some(d) => {
                    let m = collapse_mapping(&keymap.wasd_mappings[d], layer);
                    proof {
                        lemma_accumulate_push(Seq::empty(), m);
                        assert(Seq::<Mapping>::empty().push(m) =~= v_part);
                    }
                    report.add_mapping(m);
                },
                None => {},
            }
            match horizontal {
                Some(d) => {
                    let m = collapse_mapping(&keymap.wasd_mappings[d], layer);
                    proof {
                        lemma_accumulate_push(v_part, m);
                        assert(v_part.push(m) =~= directions);
                    }
                    report.add_mapping(m);
                },
                None => {
                    assert(v_part =~= directions);
                },
            }
        }
        assert(report@ == accumulate(directions));

        let mut c: usize = 0;
        while c < CONTROL_COUNT
            invariant
                c <= CONTROL_COUNT,
                report.inv(),
                report@ == accumulate(
                    directions + resolved_controls(*keymap, *input, layer, c as int),
                ),
            decreases CONTROL_COUNT - c,
        {
            let ghost prev = directions + resolved_controls(*keymap, *input, layer, c as int);
            if input.control_pressed(c) {
                let m = collapse_mapping(keymap.control_table(c), layer);
                proof {
                    lemma_accumulate_push(prev, m);
                    assert(prev.push(m) =~= directions + resolved_controls(
                        *keymap,
                        *input,
                        layer,
                        c + 1,
                    ));
                }
                report.add_mapping(m);
            }
            c = c + 1;
        }

        let mut out = report.finalize();
        if !self.wasd_mode {
            out.x = axis_from(pos_x);
            out.y = axis_from(pos_y);
        }
        if input.rotary_a != self.rotary_prev {
            out.wheel = if input.rotary_b != input.rotary_a {
                -1
            } else {
                1
            };
        }
        self.rotary_prev = input.rotary_a;
        Frame {
            report: out,
            diagnostics: Diagnostics {
                dropped_keys: report.dropped_keys(),
                consumer_conflicts: report.consumer_conflicts(),
                layer_conflicts,
                mode_conflicts,
            },
        }
    }
}

} // verus!
