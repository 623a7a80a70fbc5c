use xiao_sense::color::{Color, PinLevel};

const ALL: [Color; 8] = [
    Color::Off,
    Color::Red,
    Color::Green,
    Color::Yellow,
    Color::Blue,
    Color::Magenta,
    Color::Cyan,
    Color::White,
];

#[test]
fn bits_follow_the_weight_table() {
    for (i, c) in ALL.iter().enumerate() {
        assert_eq!(c.bits(), i as u8);
    }
}

#[test]
fn from_bits_inverts_bits() {
    for c in ALL {
        assert_eq!(Color::from_bits(c.bits()), c);
    }
}

#[test]
fn from_bits_ignores_high_bits() {
    assert_eq!(Color::from_bits(8), Color::Off);
    assert_eq!(Color::from_bits(9), Color::Red);
    assert_eq!(Color::from_bits(0xFE), Color::Cyan);
    assert_eq!(Color::from_bits(0xFF), Color::White);
}

#[test]
fn channel_flags() {
    assert!(Color::Yellow.red_active());
    assert!(Color::Yellow.green_active());
    assert!(!Color::Yellow.blue_active());
    assert!(!Color::Cyan.red_active());
    assert!(Color::Magenta.blue_active());
    assert!(!Color::Off.red_active() && !Color::Off.green_active() && !Color::Off.blue_active());
    assert!(Color::White.red_active() && Color::White.green_active() && Color::White.blue_active());
}

#[test]
fn primaries_mix_to_white() {
    assert_eq!(Color::Red | Color::Green | Color::Blue, Color::White);
    assert_eq!(Color::Red | Color::Green, Color::Yellow);
    assert_eq!(Color::Red | Color::Blue, Color::Magenta);
    assert_eq!(Color::Green | Color::Blue, Color::Cyan);
}

#[test]
fn mixing_is_commutative_and_idempotent() {
    for c in ALL {
        assert_eq!(c | c, c);
        assert_eq!(c | Color::Off, c);
        assert_eq!(c | Color::White, Color::White);
        for d in ALL {
            assert_eq!(c | d, d | c);
            for e in ALL {
                assert_eq!((c | d) | e, c | (d | e));
            }
        }
    }
}

#[test]
fn leds_are_active_low() {
    let l = Color::Cyan.led_levels();
    assert_eq!(l.red, PinLevel::High);
    assert_eq!(l.green, PinLevel::Low);
    assert_eq!(l.blue, PinLevel::Low);
    let off = Color::Off.led_levels();
    assert_eq!((off.red, off.green, off.blue), (PinLevel::High, PinLevel::High, PinLevel::High));
    let white = Color::White.led_levels();
    assert_eq!((white.red, white.green, white.blue), (PinLevel::Low, PinLevel::Low, PinLevel::Low));
}

#[test]
fn boot_blink_sequence() {
    let seq: Vec<Color> = (1..=8u8).map(Color::from_bits).collect();
    assert_eq!(
        seq,
        vec![
            Color::Red,
            Color::Green,
            Color::Yellow,
            Color::Blue,
            Color::Magenta,
            Color::Cyan,
            Color::White,
            Color::Off,
        ]
    );
}
