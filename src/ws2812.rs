//! Colour buffer and pulse train of a WS2812 LED strip.
//!
//! Colours are corrected when they are written: scaled to the power budget,
//! gamma corrected, put in the strip's channel order (green, red, blue) and
//! bit-reversed, so that sending each stored byte most significant bit first
//! puts it on the wire least significant bit first.
use vstd::prelude::*;

verus! {

/// Number of LEDs on the strip.
pub const LED_COUNT: usize = 24;

/// Channels per LED.
pub const CHANNEL_COUNT: usize = 3;

/// Pulses sent for the whole strip: eight per channel of each LED.
pub const WIRE_BIT_COUNT: usize = 576;

/// The channel level that full brightness is scaled to, to stay within the
/// strip's power budget.
pub const MAX_COLOR_VALUE: u8 = 150;

/// High and low times of a one bit and of a zero bit, in nanoseconds.
pub const T1H_NS: u32 = 750;

pub const T1L_NS: u32 = 275;

pub const T0H_NS: u32 = 275;

pub const T0L_NS: u32 = 750;

/// Time the line is held low after the last bit, which latches the colours.
pub const RESET_US: u32 = 300;

/// Perceptual gamma correction of an 8-bit level.
pub const GAMMA_TABLE: [u8; 256] = [
    0, 0, 0, 0, 0, 0, 0, 0, 0, 0, 0, 0, 0, 0, 0, 0, 0, 0, 0, 0, 0, 0, 0, 0, 1, 1, 1, 1, 1, 1, 1, 1,
    1, 1, 1, 1, 2, 2, 2, 2, 2, 2, 2, 2, 3, 3, 3, 3, 3, 3, 4, 4, 4, 4, 5, 5, 5, 5, 5, 6, 6, 6, 6, 7,
    7, 7, 8, 8, 8, 9, 9, 9, 10, 10, 10, 11, 11, 11, 12, 12, 13, 13, 13, 14, 14, 15, 15, 16, 16, 17,
    17, 18, 18, 19, 19, 20, 20, 21, 21, 22, 22, 23, 24, 24, 25, 25, 26, 27, 27, 28, 29, 29, 30, 31,
    31, 32, 33, 34, 34, 35, 36, 37, 38, 38, 39, 40, 41, 42, 42, 43, 44, 45, 46, 47, 48, 49, 50, 51,
    52, 53, 54, 55, 56, 57, 58, 59, 60, 61, 62, 63, 64, 65, 66, 68, 69, 70, 71, 72, 73, 75, 76, 77,
    78, 80, 81, 82, 84, 85, 86, 88, 89, 90, 92, 93, 94, 96, 97, 99, 100, 102, 103, 105, 106, 108,
    109, 111, 112, 114, 115, 117, 119, 120, 122, 124, 125, 127, 129, 130, 132, 134, 136, 137, 139,
    141, 143, 145, 146, 148, 150, 152, 154, 156, 158, 160, 162, 164, 166, 168, 170, 172, 174, 176,
    178, 180, 182, 184, 186, 188, 191, 193, 195, 197, 199, 202, 204, 206, 209, 211, 213, 215, 218,
    220, 223, 225, 227, 230, 232, 235, 237, 240, 242, 245, 247, 250, 252, 255,
];

/// The time the line spends high, then low, for one bit.
#[derive(Clone, Copy, Debug, PartialEq, Eq, Structural)]
pub struct Pulse {
    pub high_ns: u32,
    pub low_ns: u32,
}

/// The pulse that sends `bit`.
pub open spec fn pulse_for(bit: bool) -> Pulse {
    if bit {
        Pulse { high_ns: T1H_NS, low_ns: T1L_NS }
    } else {
        Pulse { high_ns: T0H_NS, low_ns: T0L_NS }
    }
}

/// A channel level scaled to the power budget.
pub open spec fn budget_scaled(c: u8) -> int {
    c * MAX_COLOR_VALUE / 255
}

/// The gamma-corrected level.
pub open spec fn gamma(level: int) -> u8 {
    GAMMA_TABLE@[level]
}

/// The byte with its bits in the opposite order.
pub open spec fn reversed(b: u8) -> u8 {
    ((b & 0x01) << 7u8) | ((b & 0x02) << 5u8) | ((b & 0x04) << 3u8) | ((b & 0x08) << 1u8) | ((b
        & 0x10) >> 1u8) | ((b & 0x20) >> 3u8) | ((b & 0x40) >> 5u8) | ((b & 0x80) >> 7u8)
}

/// What is stored for a gamma-corrected level.
pub open spec fn encoded(level: int) -> u8 {
    reversed(gamma(level))
}

/// The stored bytes of a red, green, blue colour, in the strip's order.
pub open spec fn wire_color(rgb: Seq<u8>) -> Seq<u8> {
    seq![
        encoded(budget_scaled(rgb[1])),
        encoded(budget_scaled(rgb[0])),
        encoded(budget_scaled(rgb[2])),
    ]
}

/// Bit `j` of a byte counted from the most significant.
pub open spec fn msb_bit(b: u8, j: int) -> bool {
    (b >> ((7 - j) as u8)) & 1u8 == 1u8
}

/// Bit `k` of the pulse train: the stored bytes LED by LED, channel by
/// channel, each most significant bit first.
pub open spec fn wire_bit(colors: Seq<Seq<u8>>, k: int) -> bool {
    msb_bit(colors[k / 24][(k / 8) % 3], k % 8)
}

/// Full white is stored as the budget ceiling put through gamma correction,
/// on every channel, and that byte is not full scale: full white never
/// reaches 255 on the wire.
pub proof fn lemma_white_is_budget_ceiling()
    ensures
        wire_color(seq![255u8, 255u8, 255u8]) == seq![
            encoded(MAX_COLOR_VALUE as int),
            encoded(MAX_COLOR_VALUE as int),
            encoded(MAX_COLOR_VALUE as int),
        ],
        gamma(MAX_COLOR_VALUE as int) == 64,
        encoded(MAX_COLOR_VALUE as int) == 2,
{
    assert(wire_color(seq![255u8, 255u8, 255u8]) =~= seq![
        encoded(MAX_COLOR_VALUE as int),
        encoded(MAX_COLOR_VALUE as int),
        encoded(MAX_COLOR_VALUE as int),
    ]);
    assert(reversed(64u8) == 2u8) by (bit_vector);
}

/// Reverses the order of the bits of a byte.
pub fn reverse_bits(b: u8) -> (r: u8)
    ensures
        r == reversed(b),
        forall|j: u8| j < 8 ==> #[trigger] ((r >> j) & 1u8) == (b >> (7 - j) as u8) & 1u8,
{
    let r = ((b & 0x01) << 7u8) | ((b & 0x02) << 5u8) | ((b & 0x04) << 3u8) | ((b & 0x08) << 1u8)
        | ((b & 0x10) >> 1u8) | ((b & 0x20) >> 3u8) | ((b & 0x40) >> 5u8) | ((b & 0x80) >> 7u8);
    assert(forall|j: u8| j < 8 ==> #[trigger] ((r >> j) & 1u8) == (b >> (7 - j) as u8) & 1u8)
        by (bit_vector)
        requires
            r == ((b & 0x01) << 7u8) | ((b & 0x02) << 5u8) | ((b & 0x04) << 3u8) | ((b & 0x08)
                << 1u8) | ((b & 0x10) >> 1u8) | ((b & 0x20) >> 3u8) | ((b & 0x40) >> 5u8) | ((b
                & 0x80) >> 7u8),
    ;
    r
}

/// The stored byte for one channel of a colour.
fn encode_channel(c: u8) -> (r: u8)
    ensures
        r == encoded(budget_scaled(c)),
{
    let level: u32 = (c as u32) * (MAX_COLOR_VALUE as u32) / 255;
    reverse_bits(GAMMA_TABLE[level as usize])
}

/// The colour buffer of the strip.
pub struct WS2812 {
    colors: [[u8; CHANNEL_COUNT]; LED_COUNT],
}

impl View for WS2812 {
    type V = Seq<Seq<u8>>;

    /// The stored bytes of each LED.
    closed spec fn view(&self) -> Seq<Seq<u8>> {
        self.colors@.map_values(|c: [u8; CHANNEL_COUNT]| c@)
    }
}

impl WS2812 {
    /// A strip with every LED at full white, within the power budget.
    pub fn new() -> (r: WS2812)
        ensures
            r@.len() == LED_COUNT,
            forall|i: int| 0 <= i < LED_COUNT ==> #[trigger] r@[i] == wire_color(seq![255u8, 255u8, 255u8]),
    {
        let white = encode_channel(255);
        let r = WS2812 { colors: [[white; CHANNEL_COUNT]; LED_COUNT] };
        assert forall|i: int| 0 <= i < LED_COUNT implies #[trigger] r@[i] == wire_color(
            seq![255u8, 255u8, 255u8],
        ) by {
            assert(r@[i] =~= wire_color(seq![255u8, 255u8, 255u8]));
        }
        r
    }

    /// Stores the corrected colour of LED `index` for the next transmission.
    pub fn set_color(&mut self, index: usize, color: [u8; CHANNEL_COUNT])
        requires
            index < LED_COUNT,
        ensures
            final(self)@ == old(self)@.update(index as int, wire_color(color@)),
    {
        let stored = [encode_channel(color[1]), encode_channel(color[0]), encode_channel(color[2])];
        self.colors[index] = stored;
        assert(stored@ =~= wire_color(color@));
        assert(final(self)@ =~= old(self)@.update(index as int, wire_color(color@)));
    }

    /// The pulse train that sends the whole buffer; after it the line is to
    /// be held low for `RESET_US`.
    pub fn show(&self) -> (r: [Pulse; WIRE_BIT_COUNT])
        ensures
            forall|k: int| 0 <= k < WIRE_BIT_COUNT ==> #[trigger] r@[k] == pulse_for(wire_bit(self@, k)),
    {
        let mut pulses = [Pulse { high_ns: T0H_NS, low_ns: T0L_NS }; WIRE_BIT_COUNT];
        let mut k: usize = 0;
        while k < WIRE_BIT_COUNT
            invariant
                k <= WIRE_BIT_COUNT,
                forall|m: int| 0 <= m < k ==> #[trigger] pulses@[m] == pulse_for(wire_bit(self@, m)),
            decreases WIRE_BIT_COUNT - k,
        {
            let byte = self.colors[k / 24][(k / 8) % 3];
            let j = k % 8;
            let bit = (byte >> (7 - j) as u8) & 1u8 == 1u8;
            pulses[k] = if bit {
                Pulse { high_ns: T1H_NS, low_ns: T1L_NS }
            } else {
                Pulse { high_ns: T0H_NS, low_ns: T0L_NS }
            };
            k = k + 1;
        }
        pulses
    }
}

} // verus!
