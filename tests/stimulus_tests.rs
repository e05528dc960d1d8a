use letter_trainer::{
    azimuth_of, brightness_of, color_of, hex_of, hsb_of_hex, hsb_of_rgb, octaves_of, parse_hex,
    saturation_of, stimulus_of, volume_of, Hsb, Ratio, Rgb,
};

fn letters() -> Vec<char> {
    ('a'..='z').collect()
}

fn value(r: Ratio) -> f64 {
    r.num as f64 / r.den as f64
}

fn frequency(letter: char) -> f64 {
    220.0 * 2f64.powf(value(octaves_of(letter)))
}

#[test]
fn every_letter_has_well_formed_color_and_ranges() {
    for c in letters() {
        let hex = hex_of(color_of(c));
        assert_eq!(hex.len(), 7);
        assert_eq!(hex[0], b'#');
        assert!(hex[1..].iter().all(|b| b.is_ascii_hexdigit()));
        let h = hsb_of_hex(&hex);
        assert!(h.hue.den > 0 && h.hue.num < h.hue.den, "{}", c);
        assert!(h.saturation.den > 0 && h.saturation.num <= h.saturation.den);
        assert!(h.brightness.den > 0 && h.brightness.num <= h.brightness.den);
        assert_eq!(h, hsb_of_rgb(color_of(c)));
    }
}

#[test]
fn table_matches_known_entries() {
    let text = |c: char| String::from_utf8(hex_of(color_of(c))).unwrap();
    assert_eq!(text('a'), "#FFA3E2");
    assert_eq!(text('f'), "#FF24D3");
    assert_eq!(text('r'), "#FF0000");
    assert_eq!(text('z'), "#7898D9");
    assert_eq!(color_of('?'), Rgb { red: 255, green: 255, blue: 255 });
    assert_eq!(color_of('A'), Rgb { red: 255, green: 255, blue: 255 });
}

#[test]
fn frequency_stays_in_three_octaves_and_rises_with_brightness() {
    for c in letters() {
        let f = frequency(c);
        assert!((220.0..=1760.0).contains(&f), "{} {}", c, f);
        let o = octaves_of(c);
        assert!(o.num <= 3 * o.den);
    }
    for a in letters() {
        for b in letters() {
            if value(brightness_of(a)) < value(brightness_of(b)) {
                assert!(frequency(a) < frequency(b));
            }
        }
    }
    // Full brightness gives three octaves above the base.
    assert_eq!(octaves_of('r'), Ratio { num: 765, den: 255 });
    assert!((frequency('r') - 1760.0).abs() < 1e-9);
    // 0x9005B3: brightness 0xB3 / 255.
    assert_eq!(octaves_of('m'), Ratio { num: 3 * 0xB3, den: 255 });
}

#[test]
fn volume_equals_saturation() {
    for c in letters() {
        assert_eq!(volume_of(c), saturation_of(c));
        assert_eq!(volume_of(c), hsb_of_rgb(color_of(c)).saturation);
    }
}

#[test]
fn azimuth_is_evenly_spaced_and_distinct() {
    let all = letters();
    for (i, c) in all.iter().enumerate() {
        assert_eq!(azimuth_of(*c), Ratio { num: i as u32, den: 26 });
    }
    for w in all.windows(2) {
        assert_eq!(azimuth_of(w[1]).num - azimuth_of(w[0]).num, 1);
    }
    assert_eq!((azimuth_of('z').num + 1) % 26, azimuth_of('a').num);
    for a in &all {
        for b in &all {
            if a != b {
                assert!(!azimuth_of(*a).value_eq(&azimuth_of(*b)));
            }
        }
    }
    assert_eq!(azimuth_of('C'), azimuth_of('c'));
}

#[test]
fn pure_red_converts_exactly() {
    let h = hsb_of_hex(b"#FF0000");
    assert_eq!(h.hue.num, 0);
    assert_eq!(h.saturation, Ratio { num: 255, den: 255 });
    assert_eq!(h.brightness, Ratio { num: 255, den: 255 });
}

#[test]
fn color_of_b_golden_value() {
    let h = hsb_of_hex(b"#6699FF");
    // 220 degrees of 360.
    assert_eq!(h.hue, Ratio { num: 561, den: 918 });
    assert!(h.hue.value_eq(&Ratio { num: 220, den: 360 }));
    assert!((value(h.hue) - 0.6111).abs() < 1e-4);
    assert_eq!(h.saturation, Ratio { num: 153, den: 255 });
    assert!((value(h.saturation) - 0.6).abs() < 1e-12);
    assert_eq!(h.brightness, Ratio { num: 255, den: 255 });
    assert_eq!(h, hsb_of_rgb(color_of('b')));
}

#[test]
fn hue_sectors() {
    // Green maximum.
    let g = hsb_of_rgb(Rgb { red: 0, green: 255, blue: 0 });
    assert!(g.hue.value_eq(&Ratio { num: 1, den: 3 }));
    // Blue maximum.
    let b = hsb_of_rgb(Rgb { red: 0, green: 0, blue: 255 });
    assert!(b.hue.value_eq(&Ratio { num: 2, den: 3 }));
    // Red maximum with blue above green wraps below 360 degrees: 330 degrees.
    let m = hsb_of_rgb(Rgb { red: 255, green: 0, blue: 128 });
    assert_eq!(m.hue, Ratio { num: 6 * 255 - 128, den: 6 * 255 });
    // Magenta: red and blue share the maximum, 300 degrees.
    let p = hsb_of_rgb(Rgb { red: 255, green: 0, blue: 255 });
    assert!(p.hue.value_eq(&Ratio { num: 5, den: 6 }));
}

#[test]
fn grey_and_black_are_achromatic() {
    let grey = hsb_of_rgb(Rgb { red: 128, green: 128, blue: 128 });
    assert_eq!(grey.hue.num, 0);
    assert_eq!(grey.saturation.num, 0);
    assert_eq!(grey.brightness, Ratio { num: 128, den: 255 });
    let black = hsb_of_rgb(Rgb { red: 0, green: 0, blue: 0 });
    assert_eq!(black.saturation, Ratio { num: 0, den: 1 });
    assert_eq!(black.brightness.num, 0);
}

#[test]
fn malformed_length_falls_back() {
    let fallback = Hsb {
        hue: Ratio { num: 0, den: 1 },
        saturation: Ratio { num: 0, den: 1 },
        brightness: Ratio { num: 1, den: 1 },
    };
    assert_eq!(hsb_of_hex(b"#FFF"), fallback);
    assert_eq!(hsb_of_hex(b""), fallback);
    assert_eq!(hsb_of_hex(b"#FF00000"), fallback);
    assert_eq!(parse_hex(b"12345"), None);
}

#[test]
fn parse_details() {
    assert_eq!(parse_hex(b"##ff8000"), Some(Rgb { red: 255, green: 128, blue: 0 }));
    assert_eq!(parse_hex(b"1a2B3c"), Some(Rgb { red: 0x1A, green: 0x2B, blue: 0x3C }));
    assert_eq!(parse_hex(b"#zz0000"), Some(Rgb { red: 255, green: 0, blue: 0 }));
    assert_eq!(parse_hex(b"#+f0000"), Some(Rgb { red: 15, green: 0, blue: 0 }));
    for c in letters() {
        assert_eq!(parse_hex(&hex_of(color_of(c))), Some(color_of(c)));
    }
}

#[test]
fn stimulus_gathers_the_parameters() {
    let s = stimulus_of('b');
    assert_eq!(s.letter, 'b');
    assert_eq!(s.color, Rgb { red: 0x66, green: 0x99, blue: 0xFF });
    assert_eq!(s.hex, b"#6699FF".to_vec());
    assert_eq!(s.octaves, Ratio { num: 765, den: 255 });
    assert_eq!(s.volume, Ratio { num: 153, den: 255 });
    assert_eq!(s.azimuth, Ratio { num: 1, den: 26 });
}
