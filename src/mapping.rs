//! Bindings of a control on each layer, and the transparency walk that
//! resolves them.
use vstd::prelude::*;

verus! {

/// Number of layers in every mapping table.
pub const LAYER_COUNT: usize = 4;

/// Keyboard usage "no event"; also marks an unused keycode slot.
pub const KEY_NO_EVENT: u8 = 0;

/// Highest keyboard usage that is an error code rather than a key.
pub const KEY_ERROR_UNDEFINED: u8 = 3;

/// Consumer usage "unassigned".
pub const CONSUMER_UNASSIGNED: u16 = 0;

/// One of the mapping layers; layer zero is the default.
#[derive(Clone, Copy, Debug, PartialEq, Eq, Structural)]
pub enum Layer {
    Zero,
    One,
    Two,
    Three,
}

impl Layer {
    pub open spec fn spec_index(self) -> nat {
        match self {
            Layer::Zero => 0,
            Layer::One => 1,
            Layer::Two => 2,
            Layer::Three => 3,
        }
    }

    /// Position of the layer in a mapping table.
    pub fn index(self) -> (r: usize)
        ensures
            r == self.spec_index(),
            r < LAYER_COUNT,
    {
        match self {
            Layer::Zero => 0,
            Layer::One => 1,
            Layer::Two => 2,
            Layer::Three => 3,
        }
    }
}

/// What a binding does besides sending a keyboard or consumer code.
#[derive(Clone, Copy, Debug, PartialEq, Eq, Structural)]
pub enum KeyboardAction {
    NoAction,
    /// Defer to the binding on the next lower layer.
    Transparent,
    MouseLeftButton,
    MouseRightButton,
    MouseScrollButton,
    JoystickButton,
    /// Switch to the layer for this frame only.
    LayerMomentary(Layer),
    /// Switch to the layer and keep it as the new default.
    LayerSet(Layer),
    WasdModeOff,
    WasdModeOn,
    WasdModeToggle,
}

impl KeyboardAction {
    pub open spec fn spec_is_layer_change(self) -> bool {
        self is LayerMomentary || self is LayerSet
    }

    pub open spec fn spec_is_mode_change(self) -> bool {
        self is WasdModeOff || self is WasdModeOn || self is WasdModeToggle
    }

    /// Whether the action changes the layer.
    pub fn is_layer_change(self) -> (r: bool)
        ensures
            r == self.spec_is_layer_change(),
    {
        matches!(self, KeyboardAction::LayerMomentary(_) | KeyboardAction::LayerSet(_))
    }

    /// Whether the action changes the stick emulation mode.
    pub fn is_mode_change(self) -> (r: bool)
        ensures
            r == self.spec_is_mode_change(),
    {
        matches!(
            self,
            KeyboardAction::WasdModeOff | KeyboardAction::WasdModeOn | KeyboardAction::WasdModeToggle
        )
    }
}

/// The binding of one control on one layer.
#[derive(Clone, Copy, Debug, PartialEq, Eq, Structural)]
pub struct Mapping {
    /// Keyboard usage sent while the control is held; codes up to
    /// `KEY_ERROR_UNDEFINED` send nothing.
    pub button: u8,
    /// Consumer usage sent while the control is held, or `CONSUMER_UNASSIGNED`.
    pub consumer_button: u16,
    pub action: KeyboardAction,
}

impl Mapping {
    /// A binding that does nothing.
    pub fn none() -> (r: Mapping)
        ensures
            r == (Mapping {
                button: KEY_NO_EVENT,
                consumer_button: CONSUMER_UNASSIGNED,
                action: KeyboardAction::NoAction,
            }),
    {
        Mapping { button: KEY_NO_EVENT, consumer_button: CONSUMER_UNASSIGNED, action: KeyboardAction::NoAction }
    }

    /// A binding that defers to the layer below.
    pub fn transparent() -> (r: Mapping)
        ensures
            r == (Mapping {
                button: KEY_NO_EVENT,
                consumer_button: CONSUMER_UNASSIGNED,
                action: KeyboardAction::Transparent,
            }),
    {
        Mapping {
            button: KEY_NO_EVENT,
            consumer_button: CONSUMER_UNASSIGNED,
            action: KeyboardAction::Transparent,
        }
    }

    /// A binding that sends a keyboard usage.
    pub fn key(code: u8) -> (r: Mapping)
        ensures
            r == (Mapping {
                button: code,
                consumer_button: CONSUMER_UNASSIGNED,
                action: KeyboardAction::NoAction,
            }),
    {
        Mapping { button: code, consumer_button: CONSUMER_UNASSIGNED, action: KeyboardAction::NoAction }
    }

    /// A binding that sends a consumer usage.
    pub fn consumer(code: u16) -> (r: Mapping)
        ensures
            r == (Mapping { button: KEY_NO_EVENT, consumer_button: code, action: KeyboardAction::NoAction }),
    {
        Mapping { button: KEY_NO_EVENT, consumer_button: code, action: KeyboardAction::NoAction }
    }

    /// A binding that performs an action and sends no code.
    pub fn action(action: KeyboardAction) -> (r: Mapping)
        ensures
            r == (Mapping { button: KEY_NO_EVENT, consumer_button: CONSUMER_UNASSIGNED, action }),
    {
        Mapping { button: KEY_NO_EVENT, consumer_button: CONSUMER_UNASSIGNED, action }
    }

    pub open spec fn spec_affects_state(self) -> bool {
        self.action.spec_is_layer_change() || self.action.spec_is_mode_change()
    }

    /// Whether the binding changes the layer or the stick mode, and so must be
    /// settled before any code of the frame is emitted.
    pub fn affects_state(&self) -> (r: bool)
        ensures
            r == self.spec_affects_state(),
    {
        self.action.is_layer_change() || self.action.is_mode_change()
    }
}

/// The binding that applies on `layer`: walking down from `layer` past
/// transparent bindings, stopping at layer zero whatever it holds.
pub open spec fn collapse(table: Seq<Mapping>, layer: int) -> Mapping
    decreases layer,
{
    if layer <= 0 {
        table[0]
    } else if table[layer].action is Transparent {
        collapse(table, layer - 1)
    } else {
        table[layer]
    }
}

/// Resolves a control's bindings at `layer`.
pub fn collapse_mapping(table: &[Mapping; LAYER_COUNT], layer: Layer) -> (r: Mapping)
    ensures
        r == collapse(table@, layer.spec_index() as int),
{
    let mut i: usize = layer.index();
    while i > 0 && table[i].action == KeyboardAction::Transparent
        invariant
            i < LAYER_COUNT,
            collapse(table@, layer.spec_index() as int) == collapse(table@, i as int),
        decreases i,
    {
        i = i - 1;
    }
    table[i]
}

/// A transparent binding resolves to what the nearest lower layer that is
/// not transparent resolves to, or to layer zero's binding when every layer
/// down to one is transparent; the walk ends at layer zero even if that
/// binding is itself transparent.
pub proof fn lemma_collapse_nearest_opaque(table: Seq<Mapping>, layer: int)
    requires
        table.len() == LAYER_COUNT,
        0 <= layer < LAYER_COUNT,
    ensures
        exists|k: int|
            0 <= k <= layer && collapse(table, layer) == table[k] && (k == 0
                || !(table[k].action is Transparent)) && (forall|j: int|
                k < j <= layer ==> (#[trigger] table[j]).action is Transparent),
    decreases layer,
{
    if layer == 0 {
        assert(collapse(table, layer) == table[0]);
    } else if table[layer].action is Transparent {
        lemma_collapse_nearest_opaque(table, layer - 1);
        let k = choose|k: int|
            0 <= k <= layer - 1 && collapse(table, layer - 1) == table[k] && (k == 0
                || !(table[k].action is Transparent)) && (forall|j: int|
                k < j <= layer - 1 ==> (#[trigger] table[j]).action is Transparent);
        assert(forall|j: int| k < j <= layer ==> (#[trigger] table[j]).action is Transparent);
    } else {
        assert(forall|j: int| layer < j <= layer ==> (#[trigger] table[j]).action is Transparent);
    }
}

} // verus!
