use padtarust::ws2812::{
    reverse_bits, GAMMA_TABLE, MAX_COLOR_VALUE, T0H_NS, T0L_NS, T1H_NS, T1L_NS, WIRE_BIT_COUNT,
};
use padtarust::{Pulse, WS2812};

fn pulses_of(byte: u8) -> Vec<Pulse> {
    (0..8)
        .map(|j| {
            if (byte >> (7 - j)) & 1 == 1 {
                Pulse { high_ns: T1H_NS, low_ns: T1L_NS }
            } else {
                Pulse { high_ns: T0H_NS, low_ns: T0L_NS }
            }
        })
        .collect()
}

fn led_pulses(strip: &WS2812, index: usize) -> Vec<Pulse> {
    strip.show()[index * 24..(index + 1) * 24].to_vec()
}

#[test]
fn full_white_goes_out_as_gamma_of_budget_ceiling() {
    let mut strip = WS2812::new();
    strip.set_color(3, [255, 255, 255]);
    let ceiling = reverse_bits(GAMMA_TABLE[MAX_COLOR_VALUE as usize]);
    let expected: Vec<Pulse> = [ceiling; 3].iter().flat_map(|&b| pulses_of(b)).collect();
    assert_eq!(led_pulses(&strip, 3), expected);
    assert_ne!(ceiling, 255);
    assert_eq!(GAMMA_TABLE[MAX_COLOR_VALUE as usize], 64);
    assert_eq!(ceiling, 2);
}

#[test]
fn new_strip_is_full_white() {
    let fresh = WS2812::new();
    let mut white = WS2812::new();
    for i in 0..24 {
        white.set_color(i, [255, 255, 255]);
    }
    assert_eq!(fresh.show(), white.show());
}

#[test]
fn channels_go_out_green_red_blue() {
    let mut strip = WS2812::new();
    strip.set_color(0, [255, 0, 0]);
    let red = led_pulses(&strip, 0);
    assert_eq!(red[..8].to_vec(), pulses_of(0));
    assert_eq!(red[8..16].to_vec(), pulses_of(2));
    assert_eq!(red[16..].to_vec(), pulses_of(0));
    strip.set_color(23, [0, 0, 255]);
    let blue = led_pulses(&strip, 23);
    assert_eq!(blue[..16].to_vec(), [pulses_of(0), pulses_of(0)].concat());
    assert_eq!(blue[16..].to_vec(), pulses_of(2));
}

#[test]
fn channel_is_scaled_then_gamma_corrected() {
    let mut strip = WS2812::new();
    strip.set_color(1, [200, 100, 128]);
    // 100 scales to 58, 200 to 117, 128 to 75
    let expected: Vec<Pulse> = [GAMMA_TABLE[58], GAMMA_TABLE[117], GAMMA_TABLE[75]]
        .iter()
        .flat_map(|&g| pulses_of(reverse_bits(g)))
        .collect();
    assert_eq!(GAMMA_TABLE[117], 34);
    assert_eq!(led_pulses(&strip, 1), expected);
}

#[test]
fn other_leds_keep_their_colour() {
    let mut strip = WS2812::new();
    let before = strip.show();
    strip.set_color(5, [0, 0, 0]);
    let after = strip.show();
    assert_eq!(after.len(), WIRE_BIT_COUNT);
    assert_eq!(before[..5 * 24], after[..5 * 24]);
    assert_eq!(before[6 * 24..], after[6 * 24..]);
    assert_eq!(led_pulses(&strip, 5), [pulses_of(0), pulses_of(0), pulses_of(0)].concat());
}

#[test]
fn bits_are_reversed() {
    assert_eq!(reverse_bits(0b0000_0001), 0b1000_0000);
    assert_eq!(reverse_bits(0b1100_1010), 0b0101_0011);
    assert_eq!(reverse_bits(0), 0);
    assert_eq!(reverse_bits(0xff), 0xff);
    for b in 0..=255u8 {
        assert_eq!(reverse_bits(b), b.reverse_bits());
    }
}
