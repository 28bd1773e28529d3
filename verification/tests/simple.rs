use dec2flt::dec2flt::parse_float;
use dec2flt::{Binary32, Binary64, FloatErrorKind, ParseFloatError};

fn parse_f64(s: &str) -> Result<f64, ParseFloatError> {
    parse_float::<Binary64>(s).map(|v| f64::from_bits(v.to_bits()))
}

fn parse_f32(s: &str) -> Result<f32, ParseFloatError> {
    parse_float::<Binary32>(s).map(|v| f32::from_bits(v.to_bits()))
}

fn bits64(s: &str) -> u64 {
    parse_float::<Binary64>(s).unwrap().to_bits()
}

fn bits32(s: &str) -> u32 {
    parse_float::<Binary32>(s).unwrap().to_bits()
}

#[test]
pub fn test_parse() {
    assert_eq!(parse_f64("1.2345e22").unwrap(), 1.2345e22);
    assert_eq!(parse_f64("1.2345e30").unwrap(), 1.2345e30);
    assert_eq!(parse_f64("9007199254740992.0").unwrap(), 9007199254740992.0);
    assert_eq!(parse_f64("9007199254740993.0").unwrap(), 9007199254740993.0);
    assert_eq!(parse_f64("8.988465674311580536566680e307").unwrap(), 8.988465674311580536566680e307);
    assert_eq!(parse_f64("8.442911973260991817129021e-309").unwrap(), 8.442911973260991817129021e-309);

    // Handle largest subnormal float.
    assert_eq!(parse_f64("2.225073858507201e-308").unwrap(), 2.225073858507201e-308);

    // Handle smallest normal float.
    assert_eq!(parse_f64("2.2250738585072014e-308").unwrap(), 2.2250738585072014e-308);

    // Handle largest normal float.
    assert_eq!(parse_f64("1.7976931348623157e+308").unwrap(), 1.7976931348623157e+308);

    // Handle literal infinities, but those seemingly well-handled.
    assert_eq!(parse_f64("1.8e+308").unwrap(), f64::INFINITY);

    // Handle debugging issues from huge-pow10 stalling.
    assert_eq!(parse_f64("18293e304").unwrap(), f64::INFINITY);
    assert_eq!(parse_f64("18294e304").unwrap(), f64::INFINITY);

    // Handle errors from rand-f64.
    assert_eq!(parse_f64("1931716584395492135994702176489828092381050353408077242878204528120199139939481194323196451544219842047651625146822916259264650699531105941226839770229443539950385549852181010472089599837804959638240722480117275160194670960071081546721577526042972609436090537318014304143692826510933").unwrap(), 1.9317165843954923e+282);
    assert_eq!(parse_f32("2.973339841440518e-46").unwrap(), 2.973339841440518e-46);
    assert_eq!(parse_f32("1.0511814862426301e-45").unwrap(), 1e-45);
    assert_eq!(parse_f32("7.015488112949493e-46").unwrap(), 1e-45);
    assert_eq!(parse_f32("2.47032822920623272e-324").unwrap(), 0.0);
    assert_eq!(parse_f64("2.47032822920623272e-324").unwrap(), 0.0);
    assert_eq!(parse_f64("2.470328229206232721e-324").unwrap(), 5e-324);
}

#[test]
fn scenarios_yield_the_stated_bits() {
    assert_eq!(bits64("1.2345e22"), 0x4484E9CA52EB182A);
    assert_eq!(bits64("1.2345e30"), 0x462F29C4EEB155E5);
    assert_eq!(bits64("9007199254740992.0"), 0x4340000000000000);
    assert_eq!(bits64("9007199254740993.0"), 0x4340000000000000);
    assert_eq!(bits64("8.988465674311580536566680e307"), 0x7FE0000000000000);
    assert_eq!(bits64("8.442911973260991817129021e-309"), 0x0006123400000001);
    assert_eq!(bits64("2.47032822920623272e-324"), 0x0000000000000000);
    assert_eq!(bits64("2.470328229206232721e-324"), 0x0000000000000001);
    assert_eq!(bits64("1.8e+308"), 0x7FF0000000000000);
}

#[test]
fn empty_and_invalid_strings_are_told_apart() {
    assert_eq!(parse_float::<Binary64>("").unwrap_err().kind, FloatErrorKind::Empty);
    assert_eq!(parse_float::<Binary32>("").unwrap_err().kind, FloatErrorKind::Empty);
    for s in ["a.12", ".", "+", "-", "e5", "1e", "1e+", "1e-", "1..2", "1.2.3", "--1", "+-1", "1 ", " 1", "1.0\n", "0x10", "1,5", "in", "na", "infi", "infinit", "infinityy", "nanx", "1f"] {
        assert_eq!(parse_float::<Binary64>(s).unwrap_err().kind, FloatErrorKind::Invalid, "{:?}", s);
        assert_eq!(parse_float::<Binary32>(s).unwrap_err().kind, FloatErrorKind::Invalid, "{:?}", s);
    }
}

#[test]
fn error_descriptions() {
    let empty = parse_float::<Binary64>("").unwrap_err();
    assert_eq!(empty.__description(), "cannot parse float from empty string");
    let invalid = parse_float::<Binary64>("a.12").unwrap_err();
    assert_eq!(invalid.__description(), "invalid float literal");
    assert_eq!(dec2flt::dec2flt::pfe_empty(), empty);
    assert_eq!(dec2flt::dec2flt::pfe_invalid(), invalid);
}

#[test]
fn a_byte_past_the_literal_is_rejected() {
    for s in ["1", "1.5", "1e5", "-2.5e-3", "inf", "nan", ".5", "5."] {
        assert!(parse_float::<Binary64>(s).is_ok(), "{:?}", s);
        for c in [' ', '\t', '\n', 'x', '_', '/', ':', '\0'] {
            let longer = format!("{}{}", s, c);
            assert_eq!(parse_float::<Binary64>(&longer).unwrap_err().kind, FloatErrorKind::Invalid, "{:?}", longer);
            let shifted = format!("{}{}", c, s);
            assert_eq!(parse_float::<Binary64>(&shifted).unwrap_err().kind, FloatErrorKind::Invalid, "{:?}", shifted);
        }
    }
}

#[test]
fn grammar_corners() {
    assert_eq!(parse_f64("5.").unwrap(), 5.0);
    assert_eq!(parse_f64(".5").unwrap(), 0.5);
    assert_eq!(parse_f64("+.5e1").unwrap(), 5.0);
    assert_eq!(parse_f64("-5.e-1").unwrap(), -0.5);
    assert_eq!(parse_f64("1E2").unwrap(), 100.0);
    assert_eq!(parse_f64("1e+2").unwrap(), 100.0);
    assert_eq!(parse_f64("0").unwrap(), 0.0);
    assert_eq!(bits64("-0"), 0x8000_0000_0000_0000);
    assert_eq!(bits64("-0.0e10"), 0x8000_0000_0000_0000);
    assert_eq!(parse_f64("000123.4500").unwrap(), 123.45);
    assert_eq!(parse_f64("0.000000000000000000000000000000000000001").unwrap(), 1e-39);
    assert_eq!(parse_f64("1e0000000000000000000000000000000000000000000005").unwrap(), 1e5);
    assert_eq!(parse_f64("1e99999999999999999999").unwrap(), f64::INFINITY);
    assert_eq!(parse_f64("1e-99999999999999999999").unwrap(), 0.0);
    assert_eq!(parse_f64("0e99999999999999999999").unwrap(), 0.0);
}

#[test]
fn specials_in_every_case() {
    let words = ["inf", "infinity", "nan"];
    for word in words {
        let n = word.len();
        for mask in 0..(1u32 << n) {
            let s: String = word
                .chars()
                .enumerate()
                .map(|(i, c)| if mask & (1 << i) != 0 { c.to_ascii_uppercase() } else { c })
                .collect();
            let plain = parse_float::<Binary64>(&s).unwrap().to_bits();
            let plus = parse_float::<Binary64>(&format!("+{}", s)).unwrap().to_bits();
            let minus = parse_float::<Binary64>(&format!("-{}", s)).unwrap().to_bits();
            let single = parse_float::<Binary32>(&s).unwrap().to_bits();
            let single_minus = parse_float::<Binary32>(&format!("-{}", s)).unwrap().to_bits();
            if word == "nan" {
                assert_eq!(plain, 0x7FF8_0000_0000_0000);
                assert_eq!(plus, 0x7FF8_0000_0000_0000);
                assert_eq!(minus, 0xFFF8_0000_0000_0000);
                assert_eq!(single, 0x7FC0_0000);
                assert_eq!(single_minus, 0xFFC0_0000);
                assert!(f64::from_bits(plain).is_nan());
            } else {
                assert_eq!(f64::from_bits(plain), f64::INFINITY);
                assert_eq!(f64::from_bits(plus), f64::INFINITY);
                assert_eq!(f64::from_bits(minus), f64::NEG_INFINITY);
                assert_eq!(f32::from_bits(single), f32::INFINITY);
                assert_eq!(f32::from_bits(single_minus), f32::NEG_INFINITY);
            }
        }
    }
}

#[test]
fn subnormal_boundary() {
    assert_eq!(bits64("2.2250738585072009e-308"), 0x000F_FFFF_FFFF_FFFF);
    assert_eq!(bits64("2.2250738585072014e-308"), 0x0010_0000_0000_0000);
    assert_eq!(bits64("2.2250738585072011e-308"), 0x000F_FFFF_FFFF_FFFF);
    assert_eq!(bits64("2.2250738585072012e-308"), 0x0010_0000_0000_0000);
    assert_eq!(bits64("4.9406564584124654e-324"), 0x0000_0000_0000_0001);
    assert_eq!(bits64("1.7976931348623157e308"), 0x7FEF_FFFF_FFFF_FFFF);
    assert_eq!(bits64("1.7976931348623158e308"), 0x7FEF_FFFF_FFFF_FFFF);
    assert_eq!(bits64("1.7976931348623159e308"), 0x7FF0_0000_0000_0000);
    assert_eq!(bits32("1.17549435e-38"), 0x0080_0000);
    assert_eq!(bits32("1.17549421e-38"), 0x007F_FFFF);
    assert_eq!(bits32("1e-45"), 0x0000_0001);
    assert_eq!(bits32("3.4028235e38"), 0x7F7F_FFFF);
    assert_eq!(bits32("3.4028236e38"), 0x7F80_0000);
}

#[test]
fn a_minus_sign_sets_the_sign_bit() {
    for s in ["0", "1", "1.5", "1.2345e22", "1.2345e30", "9007199254740993", "8.988465674311580536566680e307", "2.470328229206232721e-324", "1e400", "1e-400", "inf", "nan", "123456789012345678901234567890", "0.1"] {
        let plain = bits64(s);
        let minus = bits64(&format!("-{}", s));
        let plus = bits64(&format!("+{}", s));
        assert_eq!(minus, plain | (1 << 63), "{}", s);
        assert_eq!(plus, plain, "{}", s);
        let single = bits32(s);
        let single_minus = bits32(&format!("-{}", s));
        assert_eq!(single_minus, single | (1 << 31), "{}", s);
    }
}

struct Lcg(u64);

impl Lcg {
    fn next(&mut self) -> u64 {
        self.0 = self.0.wrapping_mul(6364136223846793005).wrapping_add(1442695040888963407);
        self.0 ^ (self.0 >> 29)
    }
}

#[test]
fn shortest_form_round_trips() {
    let mut rng = Lcg(0x1234_5678_9ABC_DEF0);
    let mut values: Vec<f64> = vec![1.0, 0.1, 0.3, 1e22, 1e23, 5e-324, 2.2250738585072014e-308, 1.7976931348623157e308, 123456.789, 9007199254740993.0];
    for _ in 0..20000 {
        let v = f64::from_bits(rng.next());
        if v.is_finite() && v != 0.0 {
            values.push(v);
        }
    }
    for v in values {
        let shortest = format!("{:e}", v);
        assert_eq!(bits64(&shortest), v.to_bits(), "{}", shortest);
        let plain = format!("{}", v);
        assert_eq!(bits64(&plain), v.to_bits(), "{}", plain);
    }
    for _ in 0..20000 {
        let v = f32::from_bits(rng.next() as u32);
        if v.is_finite() && v != 0.0 {
            let shortest = format!("{:e}", v);
            assert_eq!(bits32(&shortest), v.to_bits(), "{}", shortest);
        }
    }
}

#[test]
fn agrees_with_the_standard_library() {
    let mut rng = Lcg(0xDEAD_BEEF_0BAD_F00D);
    for round in 0..30000 {
        let digits = 1 + (rng.next() % 40) as usize;
        let mut s = String::new();
        if rng.next() % 4 == 0 {
            s.push('-');
        }
        let point = (rng.next() % (digits as u64 + 1)) as usize;
        for i in 0..digits {
            if i == point && rng.next() % 2 == 0 {
                s.push('.');
            }
            s.push((b'0' + (rng.next() % 10) as u8) as char);
        }
        if rng.next() % 3 != 0 {
            let range = if round % 2 == 0 { 700 } else { 60 };
            let e = (rng.next() % range) as i64 - (range as i64) / 2;
            s.push_str(&format!("e{}", e));
        }
        let expected: f64 = s.parse().unwrap();
        assert_eq!(bits64(&s), expected.to_bits(), "{}", s);
        let single: f32 = s.parse().unwrap();
        assert_eq!(bits32(&s), single.to_bits(), "{}", s);
    }
}

#[test]
fn halfway_cases_with_long_tails() {
    // 2^53 + 1 is halfway between two doubles: the digits that follow decide.
    let base = "9007199254740993";
    let zeros = "0".repeat(900);
    assert_eq!(parse_f64(&format!("{}.{}", base, zeros)).unwrap(), 9007199254740992.0);
    assert_eq!(parse_f64(&format!("{}.{}1", base, zeros)).unwrap(), 9007199254740994.0);
    assert_eq!(parse_f64(&format!("9007199254740992.{}1", "9".repeat(900))).unwrap(), 9007199254740992.0);
    assert_eq!(parse_f64(&format!("9007199254740995.{}", zeros)).unwrap(), 9007199254740996.0);
    assert_eq!(parse_f64(&format!("9007199254740994.{}1", "9".repeat(900))).unwrap(), 9007199254740994.0);
    // the smallest subnormal, halved
    let tiny = "2.4703282292062327208051354532898093838949758648537228634821961522195786716352634231758589104167297713831e-324";
    let expected: f64 = tiny.parse().unwrap();
    assert_eq!(parse_f64(tiny).unwrap().to_bits(), expected.to_bits());
}
