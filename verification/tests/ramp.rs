use shade::{convert, generate, log_argument, ColorFactor, GammaRamp, RampError, GAMMA_MULT, UNIT};

fn natural_log(x: u32) -> u64 {
    ((x as f64).ln() * 1e14).round() as u64
}

fn model(temp: u32) -> ColorFactor {
    let log: u64 = match log_argument(temp) {
        Some(x) => natural_log(x),
        None => 0,
    };
    convert(temp, log)
}

fn factor(red: u64, green: u64, blue: u64) -> ColorFactor {
    ColorFactor::new(red, green, blue).expect("factor in range")
}

fn ramp(size: i32, factor: &ColorFactor) -> GammaRamp {
    generate(size, factor).expect("positive size")
}

fn ascending(entries: &[u16]) -> bool {
    entries.windows(2).all(|pair| pair[0] <= pair[1])
}

#[test]
fn brightest_value_is_sixteen_bits() {
    assert_eq!(GAMMA_MULT, 65535);
    assert_eq!(GAMMA_MULT, u16::MAX as u64);
}

#[test]
fn size_zero_is_invalid() {
    let white = factor(UNIT, UNIT, UNIT);
    assert_eq!(generate(0, &white).err(), Some(RampError::InvalidSize));
    assert_eq!(generate(0, &model(6500)).err(), Some(RampError::InvalidSize));
}

#[test]
fn negative_sizes_are_invalid() {
    let white = factor(UNIT, UNIT, UNIT);
    assert_eq!(generate(-1, &white).err(), Some(RampError::InvalidSize));
    assert_eq!(generate(-256, &white).err(), Some(RampError::InvalidSize));
    assert_eq!(generate(i32::MIN, &white).err(), Some(RampError::InvalidSize));
}

#[test]
fn size_one_is_a_single_dark_entry() {
    let table = ramp(1, &factor(UNIT, UNIT / 2, 0));
    assert_eq!(table.size(), 1);
    assert_eq!(table.red(), &vec![0u16]);
    assert_eq!(table.green(), &vec![0u16]);
    assert_eq!(table.blue(), &vec![0u16]);
}

#[test]
fn full_factor_spreads_the_range_evenly() {
    let table = ramp(4, &factor(UNIT, UNIT, UNIT));
    assert_eq!(table.size(), 4);
    assert_eq!(table.red(), &vec![0u16, 16384, 32768, 49151]);
    assert_eq!(table.green(), &vec![0u16, 16384, 32768, 49151]);
    assert_eq!(table.blue(), &vec![0u16, 16384, 32768, 49151]);
}

#[test]
fn a_half_is_rounded_up() {
    // 65535 / 2 is 32767.5
    let table = ramp(2, &factor(UNIT, UNIT, UNIT));
    assert_eq!(table.red(), &vec![0u16, 32768]);
    // 65535 * 3 / 6 / 2 is 16383.75, 65535 / 3 is 21845
    assert_eq!(ramp(6, &factor(UNIT / 2, 0, 0)).red()[3], 16384);
    assert_eq!(ramp(3, &factor(UNIT, 0, 0)).red(), &vec![0u16, 21845, 43690]);
}

#[test]
fn each_channel_has_its_own_factor() {
    let table = ramp(8, &factor(UNIT / 2, UNIT / 3, 0));
    assert_eq!(table.red(), &vec![0u16, 4096, 8192, 12288, 16384, 20480, 24576, 28672]);
    assert_eq!(table.green(), &vec![0u16, 2731, 5461, 8192, 10922, 13653, 16384, 19114]);
    assert_eq!(table.blue(), &vec![0u16; 8]);
}

#[test]
fn smallest_factor_rounds_to_nothing() {
    let table = ramp(4, &factor(1, 1, 1));
    assert_eq!(table.red(), &vec![0u16; 4]);
}

#[test]
fn top_entry_stays_below_the_brightest_value() {
    let white = factor(UNIT, UNIT, UNIT);
    assert_eq!(ramp(256, &white).red()[255], 65279);
    assert_eq!(ramp(1024, &white).red()[1023], 65471);
    assert_eq!(ramp(65536, &white).red()[65535], 65534);
}

#[test]
fn night_ramp_has_the_expected_entries() {
    let night = convert(4500, 824_275_634_571_448);
    let table = ramp(256, &night);
    assert_eq!((table.red()[128], table.green()[128], table.blue()[128]), (32768, 28806, 24160));
    assert_eq!((table.red()[255], table.green()[255], table.blue()[255]), (65279, 57387, 48131));
    let small = ramp(4, &night);
    assert_eq!((small.red()[3], small.green()[3], small.blue()[3]), (49151, 43209, 36240));
}

#[test]
fn generating_twice_gives_the_same_ramp() {
    let night = model(4500);
    let first = ramp(1024, &night);
    let second = ramp(1024, &night);
    assert_eq!(first.size(), second.size());
    assert_eq!(first.red(), second.red());
    assert_eq!(first.green(), second.green());
    assert_eq!(first.blue(), second.blue());
    assert_eq!(generate(0, &night).err(), generate(0, &night).err());
}

#[test]
fn every_channel_has_as_many_entries_as_asked_for() {
    let sizes: [i32; 6] = [1, 2, 3, 256, 1024, 4096];
    for size in sizes {
        let table = ramp(size, &model(5000));
        assert_eq!(table.size(), size as usize);
        assert_eq!(table.red().len(), size as usize);
        assert_eq!(table.green().len(), size as usize);
        assert_eq!(table.blue().len(), size as usize);
    }
}

#[test]
fn no_channel_ever_falls() {
    let sizes: [i32; 5] = [1, 2, 255, 256, 1024];
    let temps: [u32; 8] = [700, 701, 1000, 4500, 6499, 6500, 9000, 10_000];
    for size in sizes {
        for temp in temps {
            let table = ramp(size, &model(temp));
            assert!(ascending(table.red()));
            assert!(ascending(table.green()));
            assert!(ascending(table.blue()));
        }
    }
    let odd = ramp(1000, &factor(1, UNIT - 1, UNIT / 7));
    assert!(ascending(odd.red()));
    assert!(ascending(odd.green()));
    assert!(ascending(odd.blue()));
}

#[test]
fn every_entry_starts_dark() {
    let sizes: [i32; 4] = [1, 2, 256, 1024];
    for size in sizes {
        let table = ramp(size, &model(6500));
        assert_eq!(table.red()[0], 0);
        assert_eq!(table.green()[0], 0);
        assert_eq!(table.blue()[0], 0);
    }
}

#[test]
fn ramps_agree_with_the_floating_point_formula() {
    let sizes: [i32; 2] = [256, 1024];
    let mut temp: u32 = 700;
    while temp <= 10_000 {
        let tint = model(temp);
        let floats: [f64; 3] = [
            tint.red() as f64 / UNIT as f64,
            tint.green() as f64 / UNIT as f64,
            tint.blue() as f64 / UNIT as f64,
        ];
        for size in sizes {
            let table = ramp(size, &tint);
            let channels: [&Vec<u16>; 3] = [table.red(), table.green(), table.blue()];
            for (entries, multiplier) in channels.iter().zip(floats.iter()) {
                for (i, value) in entries.iter().enumerate() {
                    let base: f64 = 65535.0 * i as f64 / size as f64;
                    let expected: u16 = (base * multiplier + 0.5) as u16;
                    assert_eq!(*value, expected);
                }
            }
        }
        temp += 100;
    }
}
