use dec2flt::dec2flt::common::Fp;
use dec2flt::dec2flt::float::from_parts;
use dec2flt::dec2flt::lemire::compute_float;
use dec2flt::dec2flt::parse::parse_number;
use dec2flt::dec2flt::parse_float;
use dec2flt::dec2flt::rounding::round_ratio;
use dec2flt::dec2flt::slow::parse_long_mantissa;
use dec2flt::{Binary32, Binary64};

struct Stream(u64);

impl Stream {
    fn next(&mut self) -> u64 {
        self.0 = self.0.wrapping_mul(6364136223846793005).wrapping_add(1442695040888963407);
        self.0 ^ (self.0 >> 31)
    }

    fn digits(&mut self, count: usize) -> String {
        let mut s = String::new();
        s.push((b'1' + (self.next() % 9) as u8) as char);
        for _ in 1..count {
            s.push((b'0' + (self.next() % 10) as u8) as char);
        }
        s
    }
}

#[test]
fn numbers_beyond_the_table() {
    let zero = Fp { mantissa: 0, power2: 0 };
    assert_eq!(compute_float::<Binary64>(-343, u64::MAX), zero);
    assert_eq!(compute_float::<Binary64>(-5000, 1), zero);
    assert_eq!(compute_float::<Binary64>(309, 1), Fp { mantissa: 0, power2: 0x7FF });
    assert_eq!(compute_float::<Binary64>(5000, 7), Fp { mantissa: 0, power2: 0x7FF });
    assert_eq!(compute_float::<Binary64>(309, 0), zero);
    assert_eq!(compute_float::<Binary32>(-66, u64::MAX), zero);
    assert_eq!(compute_float::<Binary32>(39, 1), Fp { mantissa: 0, power2: 0xFF });
    // what the standard library makes of the same numbers
    assert_eq!("18446744073709551615e-343".parse::<f64>().unwrap(), 0.0);
    assert_eq!("1e309".parse::<f64>().unwrap(), f64::INFINITY);
    assert_eq!("18446744073709551615e-66".parse::<f32>().unwrap(), 0.0);
    assert_eq!("1e39".parse::<f32>().unwrap(), f32::INFINITY);
    assert_eq!(parse_float::<Binary64>("18446744073709551615e-343").unwrap().to_bits(), 0);
    assert_eq!(parse_float::<Binary64>("1e309").unwrap().to_bits(), 0x7FF0_0000_0000_0000);
    assert_eq!(parse_float::<Binary32>("18446744073709551615e-66").unwrap().to_bits(), 0);
    assert_eq!(parse_float::<Binary32>("1e39").unwrap().to_bits(), 0x7F80_0000);
}

#[test]
fn an_undoubted_approximation_is_the_nearest_value() {
    let mut rng = Stream(0x0F1E_2D3C_4B5A_6978);
    let mut undoubted = 0;
    for _ in 0..20000 {
        let w = rng.next() % 10_000_000_000_000_000_000;
        let q = (rng.next() % 760) as i64 - 380;
        let s = format!("{}e{}", w, q);
        let double = compute_float::<Binary64>(q, w);
        if double.power2 >= 0 {
            let expected: f64 = s.parse().unwrap();
            let value: Binary64 = from_parts(double, false);
            assert_eq!(value.to_bits(), expected.to_bits(), "{}", s);
            undoubted += 1;
        }
        let single = compute_float::<Binary32>(q, w);
        if single.power2 >= 0 {
            let expected: f32 = s.parse().unwrap();
            let value: Binary32 = from_parts(single, false);
            assert_eq!(value.to_bits() as u32, expected.to_bits(), "{}", s);
            undoubted += 1;
        }
    }
    assert!(undoubted > 39000);
}

#[test]
fn a_long_literal_lies_between_two_short_ones() {
    let mut rng = Stream(0x5EED_5EED_5EED_5EED);
    let mut agreed = 0;
    for _ in 0..5000 {
        let head = rng.digits(19);
        let extra = 1 + (rng.next() % 60) as usize;
        let tail = rng.digits(extra);
        let e = (rng.next() % 700) as i64 - 370;
        let s = format!("{}{}e{}", head, tail, e);
        let (n, len) = parse_number(s.as_bytes()).unwrap();
        assert_eq!(len, s.len());
        assert!(n.many_digits);
        assert_eq!(n.mantissa.to_string(), head);
        assert_eq!(n.exponent, e + tail.len() as i64);
        let below = compute_float::<Binary64>(n.exponent, n.mantissa);
        let above = compute_float::<Binary64>(n.exponent, n.mantissa + 1);
        let expected: f64 = s.parse().unwrap();
        if below.power2 >= 0 && below == above {
            let value: Binary64 = from_parts(below, false);
            assert_eq!(value.to_bits(), expected.to_bits(), "{}", s);
            agreed += 1;
        }
        assert_eq!(parse_float::<Binary64>(&s).unwrap().to_bits(), expected.to_bits(), "{}", s);
    }
    assert!(agreed > 4500);
}

#[test]
fn the_slow_path_on_short_literals() {
    let mut rng = Stream(0x0123_4567_0123_4567);
    for _ in 0..1500 {
        let count = 1 + (rng.next() % 38) as usize;
        let digits = rng.digits(count);
        let e = (rng.next() % 700) as i64 - 370;
        let s = format!("{}e{}", digits, e);
        let expected: f64 = s.parse().unwrap();
        let value: Binary64 = from_parts(parse_long_mantissa::<Binary64>(s.as_bytes()), false);
        assert_eq!(value.to_bits(), expected.to_bits(), "{}", s);
        let expected: f32 = s.parse().unwrap();
        let value: Binary32 = from_parts(parse_long_mantissa::<Binary32>(s.as_bytes()), false);
        assert_eq!(value.to_bits() as u32, expected.to_bits(), "{}", s);
    }
    // the largest finite number with 38 digits, and the next literal above it
    let s = "17976931348623157081452742373170435679e271";
    assert_eq!(s.len(), 38 + 4);
    let value: Binary64 = from_parts(parse_long_mantissa::<Binary64>(s.as_bytes()), false);
    assert_eq!(value.to_bits(), 0x7FEF_FFFF_FFFF_FFFF);
    let value: Binary64 = from_parts(parse_long_mantissa::<Binary64>(b"17976931348623158079372897140530341508e271"), false);
    assert_eq!(value.to_bits(), 0x7FF0_0000_0000_0000);
}

#[test]
fn the_slow_path_on_longer_literals() {
    let mut rng = Stream(0x0BAD_CAFE_0BAD_CAFE);
    for _ in 0..300 {
        let count = 39 + (rng.next() % 340) as usize;
        let digits = rng.digits(count);
        let e = (rng.next() % 480) as i64 - 330 - count as i64;
        let s = format!("{}e{}", digits, e);
        let expected: f64 = s.parse().unwrap();
        let value: Binary64 = from_parts(parse_long_mantissa::<Binary64>(s.as_bytes()), false);
        assert_eq!(value.to_bits(), expected.to_bits(), "{}", s);
    }
}

#[test]
fn rounding_keeps_the_order() {
    let mut rng = Stream(0x7777_1234_7777_1234);
    for _ in 0..2000 {
        let den = 1 + (rng.next() % 1_000_000_007) as u128;
        let num = (rng.next() as u128) << (rng.next() % 40);
        let step = (rng.next() % 1000) as u128;
        let lower = round_ratio::<Binary64>(num, den);
        let upper = round_ratio::<Binary64>(num + step, den);
        assert!((lower.power2, lower.mantissa) <= (upper.power2, upper.mantissa));
        let lower = round_ratio::<Binary32>(num, den);
        let upper = round_ratio::<Binary32>(num + step, den);
        assert!((lower.power2, lower.mantissa) <= (upper.power2, upper.mantissa));
    }
    assert_eq!(round_ratio::<Binary64>(3, 2), Fp { mantissa: 1 << 51, power2: 0x3FF });
    assert_eq!(round_ratio::<Binary64>(0, 5), Fp { mantissa: 0, power2: 0 });
}

#[test]
fn a_minus_sign_negates() {
    let inputs = ["0", "1", "2.5e-3", "1e400", "1e-400", "9007199254740993", "inf", "nan", "infinity", "4.9e-324", "123456789012345678901234567890"];
    for s in inputs {
        let plain = parse_float::<Binary64>(s).unwrap().to_bits();
        let negative = parse_float::<Binary64>(&format!("-{}", s)).unwrap().to_bits();
        let positive = parse_float::<Binary64>(&format!("+{}", s)).unwrap().to_bits();
        assert_eq!(plain >> 63, 0, "{}", s);
        assert_eq!(negative, plain ^ (1 << 63), "{}", s);
        assert_eq!(positive, plain, "{}", s);
        let plain = parse_float::<Binary32>(s).unwrap().to_bits();
        let negative = parse_float::<Binary32>(&format!("-{}", s)).unwrap().to_bits();
        assert_eq!(plain >> 31, 0, "{}", s);
        assert_eq!(negative, plain ^ (1 << 31), "{}", s);
    }
    assert!(parse_float::<Binary64>("--1").is_err());
    assert!(parse_float::<Binary64>("-+1").is_err());
}

#[test]
fn exponents_beyond_every_format() {
    assert_eq!(parse_float::<Binary64>("1e70000").unwrap().to_bits(), 0x7FF0_0000_0000_0000);
    assert_eq!(parse_float::<Binary64>("1e-70000").unwrap().to_bits(), 0);
    assert_eq!(parse_float::<Binary64>("-1e-70000").unwrap().to_bits(), 0x8000_0000_0000_0000);
    assert_eq!(parse_float::<Binary64>("1e999999999999999999999999").unwrap().to_bits(), 0x7FF0_0000_0000_0000);
    assert_eq!(parse_float::<Binary64>("1e-999999999999999999999999").unwrap().to_bits(), 0);
    assert_eq!(parse_float::<Binary64>("0e999999999999999999999999").unwrap().to_bits(), 0);
    assert_eq!(parse_float::<Binary64>("0.000e-999999999999999999999999").unwrap().to_bits(), 0);
    assert_eq!(parse_float::<Binary32>("7e655360").unwrap().to_bits(), 0x7F80_0000);
    assert_eq!(parse_float::<Binary32>("7e-655360").unwrap().to_bits(), 0);
    // many zeros after the point, which the exponent makes up for
    let s = format!("0.{}1e50001", "0".repeat(50000));
    assert_eq!(parse_float::<Binary64>(&s).unwrap().to_bits(), 1.0f64.to_bits());
    let s = format!("1{}e-50000", "0".repeat(50000));
    assert_eq!(parse_float::<Binary64>(&s).unwrap().to_bits(), 1.0f64.to_bits());
    let s = format!("0.{}1e999999", "0".repeat(59000));
    assert_eq!(parse_float::<Binary64>(&s).unwrap().to_bits(), 0x7FF0_0000_0000_0000);
    let s = format!("1{}e-999999", "0".repeat(59000));
    assert_eq!(parse_float::<Binary64>(&s).unwrap().to_bits(), 0);
}

#[test]
fn an_exponent_of_many_digits_that_the_digits_make_up_for() {
    let zeros = "0".repeat(700000);
    let s = format!(".{}1e700001", zeros);
    assert_eq!(s.len(), 700009);
    assert_eq!(parse_float::<Binary64>(&s).unwrap().to_bits(), 1.0f64.to_bits());
    assert_eq!(parse_float::<Binary32>(&s).unwrap().to_bits(), 1.0f32.to_bits());
    let value: Binary64 = from_parts(parse_long_mantissa::<Binary64>(s.as_bytes()), false);
    assert_eq!(value.to_bits(), 1.0f64.to_bits());
    let s = format!("-0.{}15e700001", zeros);
    assert_eq!(parse_float::<Binary64>(&s).unwrap().to_bits(), (-1.5f64).to_bits());
    let s = format!("25{}e-700001", zeros);
    assert_eq!(parse_float::<Binary64>(&s).unwrap().to_bits(), 2.5f64.to_bits());
    let value: Binary64 = from_parts(parse_long_mantissa::<Binary64>(s.as_bytes()), false);
    assert_eq!(value.to_bits(), 2.5f64.to_bits());
    let s = format!("0.{}9007199254740993e700016", zeros);
    assert_eq!(parse_float::<Binary64>(&s).unwrap().to_bits(), 0x4340_0000_0000_0000);
    let s = format!("0.{}1e700310", zeros);
    assert_eq!(parse_float::<Binary64>(&s).unwrap().to_bits(), 0x7FF0_0000_0000_0000);
    let s = format!("1{}e-700325", zeros);
    assert_eq!(parse_float::<Binary64>(&s).unwrap().to_bits(), 0);
    let (n, len) = parse_number(format!(".{}1e700001", zeros).as_bytes()).unwrap();
    assert_eq!((n.mantissa, n.exponent, len), (1, 0, 700009));
}

#[test]
fn the_slow_path_on_literals_that_the_decimal_cannot_hold() {
    let mut rng = Stream(0x1357_9BDF_0246_8ACE);
    for round in 0..120 {
        let count = 769 + (rng.next() % 2500) as usize;
        let digits = rng.digits(count);
        let point = (rng.next() % 640) as i64 - 328;
        let s = format!("{}e{}", digits, point - count as i64);
        let expected: f64 = s.parse().unwrap();
        let value: Binary64 = from_parts(parse_long_mantissa::<Binary64>(s.as_bytes()), false);
        assert_eq!(value.to_bits(), expected.to_bits(), "round {}", round);
        let expected: f32 = s.parse().unwrap();
        let value: Binary32 = from_parts(parse_long_mantissa::<Binary32>(s.as_bytes()), false);
        assert_eq!(value.to_bits() as u32, expected.to_bits(), "round {}", round);
    }
    // halfway between two values, with digits that the decimal drops
    let half = "0.500000000000000166533453693773481063544750213623046875";
    let above = format!("{}{}1", half, "0".repeat(1000));
    assert_eq!(parse_float::<Binary64>(half).unwrap().to_bits(), 0x3FE0_0000_0000_0002);
    assert_eq!(parse_float::<Binary64>(&above).unwrap().to_bits(), 0x3FE0_0000_0000_0002);
    let tie = "0.50000000000000005551115123125782702118158340454101562500";
    let above = format!("{}{}1", tie, "0".repeat(1000));
    assert_eq!(parse_float::<Binary64>(tie).unwrap().to_bits(), 0x3FE0_0000_0000_0000);
    assert_eq!(parse_float::<Binary64>(&above).unwrap().to_bits(), 0x3FE0_0000_0000_0001);
}
