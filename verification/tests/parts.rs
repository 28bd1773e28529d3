use dec2flt::dec2flt::common::{is_8digits, parse_digits, AsciiStr, ByteSlice, Fp};
use dec2flt::dec2flt::decimal::{number_of_digits_decimal_left_shift, parse_decimal, Decimal};
use dec2flt::dec2flt::float::{from_parts, RawFloat};
use dec2flt::dec2flt::lemire::{compute_float, compute_product_approx, full_multiplication, power};
use dec2flt::dec2flt::number::{pow10_wide, Number};
use dec2flt::dec2flt::parse::{parse_inf_nan, parse_number, parse_scientific, scan_literal, skip_digits};
use dec2flt::dec2flt::rounding::round_ratio;
use dec2flt::dec2flt::slow::{get_shift, parse_long_mantissa};
use dec2flt::dec2flt::table::power_of_five;
use dec2flt::{Binary32, Binary64};

fn digits_of(d: &Decimal) -> String {
    d.digits[..d.num_digits].iter().map(|&x| (b'0' + x) as char).collect()
}

fn decimal(digits: &str, point: i32) -> Decimal {
    let mut d = Decimal::new();
    for (i, c) in digits.bytes().enumerate() {
        d.digits[i] = c - b'0';
    }
    d.num_digits = digits.len();
    d.decimal_point = point;
    d
}

#[test]
fn lexer_reads_the_parts_of_a_literal() {
    let (n, len) = parse_number(b"-12.345e-6xyz").unwrap();
    assert_eq!(n, Number { exponent: -9, mantissa: 12345, negative: true, many_digits: false });
    assert_eq!(len, 10);
    let (n, len) = parse_number(b"+0007.50").unwrap();
    assert_eq!(n, Number { exponent: -2, mantissa: 750, negative: false, many_digits: false });
    assert_eq!(len, 8);
    let (n, len) = parse_number(b"1e").unwrap();
    assert_eq!(n, Number { exponent: 0, mantissa: 1, negative: false, many_digits: false });
    assert_eq!(len, 1);
    let (n, len) = parse_number(b"1e+").unwrap();
    assert_eq!((n.mantissa, n.exponent, len), (1, 0, 1));
    let (n, len) = parse_number(b"1.e5.").unwrap();
    assert_eq!((n.mantissa, n.exponent, len), (1, 5, 4));
    assert!(parse_number(b"").is_none());
    assert!(parse_number(b".").is_none());
    assert!(parse_number(b"-").is_none());
    assert!(parse_number(b"e5").is_none());
    assert!(parse_number(b"inf").is_none());
}

#[test]
fn lexer_cuts_the_significand_at_nineteen_digits() {
    let (n, _) = parse_number(b"1234567890123456789").unwrap();
    assert_eq!(n, Number { exponent: 0, mantissa: 1234567890123456789, negative: false, many_digits: false });
    let (n, _) = parse_number(b"12345678901234567890").unwrap();
    assert_eq!(n, Number { exponent: 1, mantissa: 1234567890123456789, negative: false, many_digits: false });
    let (n, _) = parse_number(b"12345678901234567891").unwrap();
    assert_eq!(n, Number { exponent: 1, mantissa: 1234567890123456789, negative: false, many_digits: true });
    let (n, _) = parse_number(b"1234567890123456789.0001e3").unwrap();
    assert_eq!(n, Number { exponent: 3, mantissa: 1234567890123456789, negative: false, many_digits: true });
    let (n, _) = parse_number(b"0.00000000000000000000012345678901234567890123").unwrap();
    assert_eq!(n, Number { exponent: -40, mantissa: 1234567890123456789, negative: false, many_digits: true });
    let (n, _) = parse_number(b"10000000000000000000000").unwrap();
    assert_eq!(n, Number { exponent: 4, mantissa: 1000000000000000000, negative: false, many_digits: false });
    let (n, _) = parse_number(b"18446744073709551616").unwrap();
    assert_eq!(n, Number { exponent: 1, mantissa: 1844674407370955161, negative: false, many_digits: true });
}

#[test]
fn exponent_stops_to_grow() {
    assert_eq!(parse_scientific(b"e65535", 0), (65535, 6));
    assert_eq!(parse_scientific(b"e65536", 0), (65536, 6));
    assert_eq!(parse_scientific(b"e655360", 0), (655360, 7));
    assert_eq!(parse_scientific(b"E-123456789", 0), (-123456789, 11));
    assert_eq!(parse_scientific(b"1e5", 1), (5, 3));
    assert_eq!(parse_scientific(b"1e", 1), (0, 1));
    assert_eq!(parse_scientific(b"1x5", 1), (0, 1));
    // the sum grows up to 2^70, and no further
    assert_eq!(parse_scientific(b"e1180591620717411303423", 0), (1180591620717411303423, 23));
    assert_eq!(parse_scientific(b"e1180591620717411303424", 0), (1180591620717411303424, 23));
    assert_eq!(parse_scientific(b"e11805916207174113034245", 0), (1180591620717411303424, 24));
    assert_eq!(parse_scientific(b"e-11805916207174113034245", 0), (-1180591620717411303424, 25));
    assert_eq!(parse_scientific(b"e99999999999999999999999", 0), (9999999999999999999999, 24));
    let (n, _) = parse_number(b"123e-99999999").unwrap();
    assert_eq!(n.exponent, -99999999);
    let (n, _) = parse_number(b"123e99999999999999999999").unwrap();
    assert_eq!(n.exponent, i64::MAX);
    let (n, _) = parse_number(b"123e-99999999999999999999").unwrap();
    assert_eq!(n.exponent, i64::MIN);
}

#[test]
fn scanner_positions() {
    let span = scan_literal(b"-12.5e3 ");
    assert!(span.negative);
    assert_eq!((span.int_start, span.int_end, span.frac_start, span.frac_end, span.exponent, span.end), (1, 3, 4, 5, 3, 7));
    let span = scan_literal(b"abc");
    assert_eq!((span.int_start, span.int_end, span.frac_start, span.frac_end, span.exponent, span.end), (0, 0, 0, 0, 0, 0));
    assert_eq!(skip_digits(b"12a4", 0), 2);
    assert_eq!(skip_digits(b"12a4", 2), 2);
    assert_eq!(skip_digits(b"12a4", 3), 4);
}

#[test]
fn specials_are_whole_words() {
    assert_eq!(parse_inf_nan::<Binary64>(b"inf").unwrap().to_bits(), 0x7FF0_0000_0000_0000);
    assert_eq!(parse_inf_nan::<Binary64>(b"-InFiNiTy").unwrap().to_bits(), 0xFFF0_0000_0000_0000);
    assert_eq!(parse_inf_nan::<Binary32>(b"+NaN").unwrap().to_bits(), 0x7FC0_0000);
    assert_eq!(parse_inf_nan::<Binary32>(b"-nan").unwrap().to_bits(), 0xFFC0_0000);
    assert!(parse_inf_nan::<Binary64>(b"infinit").is_none());
    assert!(parse_inf_nan::<Binary64>(b"inf ").is_none());
    assert!(parse_inf_nan::<Binary64>(b"nan0").is_none());
    assert!(parse_inf_nan::<Binary64>(b"").is_none());
    assert!(parse_inf_nan::<Binary64>(b"+").is_none());
    assert!(parse_inf_nan::<Binary64>(b"iNF\x00").is_none());
    assert!(parse_inf_nan::<Binary64>(b"\x49\x4e\x46").is_some());
    assert!(parse_inf_nan::<Binary64>(b"knf").is_none());
}

#[test]
fn fast_path_conditions() {
    let n = Number { exponent: 22, mantissa: 12345, negative: false, many_digits: false };
    assert!(n.is_fast_path::<Binary64>());
    assert_eq!(f64::from_bits(n.try_fast_path::<Binary64>().unwrap().to_bits()), 12345e22);
    let n = Number { exponent: -22, mantissa: 1 << 53, negative: true, many_digits: false };
    assert_eq!(f64::from_bits(n.try_fast_path::<Binary64>().unwrap().to_bits()), -9007199254740992e-22);
    let n = Number { exponent: 0, mantissa: (1 << 53) + 1, negative: false, many_digits: false };
    assert!(!n.is_fast_path::<Binary64>());
    assert!(n.try_fast_path::<Binary64>().is_none());
    let n = Number { exponent: -23, mantissa: 1, negative: false, many_digits: false };
    assert!(n.try_fast_path::<Binary64>().is_none());
    let n = Number { exponent: 38, mantissa: 1, negative: false, many_digits: false };
    assert!(n.try_fast_path::<Binary64>().is_none());
    let n = Number { exponent: 1, mantissa: 1, negative: false, many_digits: true };
    assert!(n.try_fast_path::<Binary64>().is_none());
    // disguised: the significand takes the rest of the exponent
    let n = Number { exponent: 37, mantissa: 9, negative: false, many_digits: false };
    assert!(n.is_fast_path::<Binary64>());
    assert_eq!(f64::from_bits(n.try_fast_path::<Binary64>().unwrap().to_bits()), 9e37);
    let n = Number { exponent: 37, mantissa: 10, negative: false, many_digits: false };
    assert!(n.is_fast_path::<Binary64>());
    assert!(n.try_fast_path::<Binary64>().is_none());
    let n = Number { exponent: 23, mantissa: 900719925474099, negative: false, many_digits: false };
    assert_eq!(f64::from_bits(n.try_fast_path::<Binary64>().unwrap().to_bits()), 900719925474099e23);
    let n = Number { exponent: 23, mantissa: 900719925474100, negative: false, many_digits: false };
    assert!(n.try_fast_path::<Binary64>().is_none());
    let n = Number { exponent: 17, mantissa: 1, negative: false, many_digits: false };
    assert_eq!(f32::from_bits(n.try_fast_path::<Binary32>().unwrap().to_bits()), 1e17);
    let n = Number { exponent: 11, mantissa: 1 << 24, negative: false, many_digits: false };
    assert!(n.try_fast_path::<Binary32>().is_none());
    let n = Number { exponent: -10, mantissa: 1 << 24, negative: false, many_digits: false };
    assert_eq!(f32::from_bits(n.try_fast_path::<Binary32>().unwrap().to_bits()), 16777216e-10);
    let n = Number { exponent: 0, mantissa: 0, negative: true, many_digits: false };
    assert_eq!(n.try_fast_path::<Binary64>().unwrap().to_bits(), 0x8000_0000_0000_0000);
}

#[test]
fn fast_path_rounds_as_the_hardware_does() {
    let mut state: u64 = 0x9E37_79B9_7F4A_7C15;
    for _ in 0..20000 {
        state = state.wrapping_mul(6364136223846793005).wrapping_add(1442695040888963407);
        let mantissa = (state >> 11) % ((1 << 53) + 1);
        let exponent = ((state >> 3) % 45) as i64 - 22;
        let n = Number { exponent, mantissa, negative: false, many_digits: false };
        let expected = if exponent < 0 {
            mantissa as f64 / 10f64.powi(-exponent as i32)
        } else {
            mantissa as f64 * 10f64.powi(exponent as i32)
        };
        assert_eq!(n.try_fast_path::<Binary64>().unwrap().to_bits(), expected.to_bits(), "{}e{}", mantissa, exponent);
        let small = mantissa % ((1 << 24) + 1);
        let e32 = ((state >> 5) % 21) as i64 - 10;
        let n = Number { exponent: e32, mantissa: small, negative: true, many_digits: false };
        let expected = if e32 < 0 {
            -(small as f32) / 10f32.powi(-e32 as i32)
        } else {
            -(small as f32) * 10f32.powi(e32 as i32)
        };
        assert_eq!(n.try_fast_path::<Binary32>().unwrap().to_bits(), expected.to_bits(), "{}e{}", small, e32);
    }
}

#[test]
fn rounding_of_ratios() {
    // 1/3 in binary64: 0x3FD5555555555555
    let fp = round_ratio::<Binary64>(1, 3);
    assert_eq!(fp, Fp { mantissa: 0x5_5555_5555_5555, power2: 0x3FD });
    // 2/3 rounds up in the last place
    let fp = round_ratio::<Binary64>(2, 3);
    assert_eq!(fp, Fp { mantissa: 0x5_5555_5555_5555, power2: 0x3FE });
    assert_eq!(round_ratio::<Binary64>(0, 7), Fp { mantissa: 0, power2: 0 });
    assert_eq!(round_ratio::<Binary64>(1, 1), Fp { mantissa: 0, power2: 0x3FF });
    // ties go to the even significand
    assert_eq!(round_ratio::<Binary64>((1 << 53) + 1, 1), Fp { mantissa: 0, power2: 0x434 });
    assert_eq!(round_ratio::<Binary64>((1 << 53) + 3, 1), Fp { mantissa: 2, power2: 0x434 });
    assert_eq!(round_ratio::<Binary64>((1 << 54) - 1, 1), Fp { mantissa: 0, power2: 0x435 });
    assert_eq!(round_ratio::<Binary32>(1, 10), Fp { mantissa: 0x4CCCCD, power2: 0x7B });
    assert_eq!(round_ratio::<Binary32>((1 << 24) + 1, 1), Fp { mantissa: 0, power2: 0x97 });
    assert_eq!(pow10_wide(22), 10_000_000_000_000_000_000_000);
    assert_eq!(pow10_wide(0), 1);
    assert_eq!(pow10_wide(16), 10_000_000_000_000_000);
}

#[test]
fn encoding_of_the_parts() {
    let v: Binary64 = from_parts(Fp { mantissa: 1, power2: 0x3FF }, true);
    assert_eq!(v.to_bits(), 0xBFF0_0000_0000_0001);
    let v: Binary32 = from_parts(Fp { mantissa: 0x40_0000, power2: 0xFF }, false);
    assert_eq!(v.to_bits(), 0x7FC0_0000);
    assert_eq!(Binary32::from_u64_bits(0x1_2345_6789).to_bits(), 0x2345_6789);
    assert_eq!(Binary64::from_u64_bits(0x1_2345_6789).to_u64_bits(), 0x1_2345_6789);
    assert_eq!(Binary32::from_bits(7).to_u64_bits(), 7);
    assert_eq!(Binary64::from_bits(7).to_bits(), 7);
}

#[test]
fn eisel_lemire_values() {
    assert_eq!(compute_float::<Binary64>(0, 0), Fp { mantissa: 0, power2: 0 });
    assert_eq!(compute_float::<Binary64>(-343, 1), Fp { mantissa: 0, power2: 0 });
    assert_eq!(compute_float::<Binary64>(309, 1), Fp { mantissa: 0, power2: 0x7FF });
    assert_eq!(compute_float::<Binary32>(39, 1), Fp { mantissa: 0, power2: 0xFF });
    assert_eq!(compute_float::<Binary32>(-66, 1), Fp { mantissa: 0, power2: 0 });
    assert_eq!(compute_float::<Binary64>(0, 1), Fp { mantissa: 0, power2: 0x3FF });
    assert_eq!(compute_float::<Binary64>(0, 9007199254740993), Fp { mantissa: 0, power2: 0x434 });
    assert_eq!(compute_float::<Binary64>(0, 9007199254740995), Fp { mantissa: 2, power2: 0x434 });
    assert_eq!(compute_float::<Binary64>(22, 12345), Fp { mantissa: 0x9_8763_7A37_FAFF, power2: 0x455 });
    assert_eq!(compute_float::<Binary64>(18, 12345), Fp { mantissa: 0x4_E9CA_52EB_182A, power2: 0x448 });
    assert_eq!(compute_float::<Binary64>(-324, 5), Fp { mantissa: 1, power2: 0 });
    assert_eq!(compute_float::<Binary64>(308, 18), Fp { mantissa: 0, power2: 0x7FF });
    assert_eq!(compute_float::<Binary64>(-324, 22250738585072014), Fp { mantissa: 0, power2: 1 });
    assert_eq!(power(0), 63);
    assert_eq!(power(1), 66);
    assert_eq!(power(-1), 59);
    assert_eq!(power(308), 1086);
    assert_eq!(power(-342), -1074);
    assert_eq!(full_multiplication(u64::MAX, u64::MAX), (1, u64::MAX - 1));
    assert_eq!(full_multiplication(1 << 32, 1 << 32), (0, 1));
    assert_eq!(power_of_five(0), (0x8000_0000_0000_0000, 0));
    assert_eq!(power_of_five(-342), (0xeef453d6923bd65a, 0x113faa2906a13b3f));
    assert_eq!(power_of_five(1), (0xa000_0000_0000_0000, 0));
    assert_eq!(power_of_five(-1), (0xcccc_cccc_cccc_cccc, 0xcccc_cccc_cccc_cccd));
    assert_eq!(compute_product_approx(0, 1 << 63, 55), (0, 1 << 62));
    assert_eq!(compute_product_approx(1, 1 << 63, 55), (0, 0x5000_0000_0000_0000));
}

#[test]
fn paths_agree() {
    let inputs = ["1", "0.5", "1.2345e22", "12345678901234567", "9007199254740992", "4503599627370497.5", "1e-7", "3.1415926535897932", "2.5e-8", "123456789e13", "0.000001", "7e22"];
    for s in inputs {
        let (n, len) = parse_number(s.as_bytes()).unwrap();
        assert_eq!(len, s.len());
        let slow = parse_long_mantissa::<Binary64>(s.as_bytes());
        let approx = compute_float::<Binary64>(n.exponent, n.mantissa);
        assert_eq!(approx, slow, "{}", s);
        if let Some(fast) = n.try_fast_path::<Binary64>() {
            let joined: Binary64 = from_parts(slow, n.negative);
            assert_eq!(fast, joined, "{}", s);
        }
        let slow = parse_long_mantissa::<Binary32>(s.as_bytes());
        let approx = compute_float::<Binary32>(n.exponent, n.mantissa);
        assert_eq!(approx, slow, "{}", s);
        if let Some(fast) = n.try_fast_path::<Binary32>() {
            let joined: Binary32 = from_parts(slow, n.negative);
            assert_eq!(fast, joined, "{}", s);
        }
    }
}

#[test]
fn paths_agree_on_random_numbers() {
    let mut state: u64 = 0x0123_4567_89AB_CDEF;
    let mut checked = 0;
    for _ in 0..20000 {
        state = state.wrapping_mul(6364136223846793005).wrapping_add(1442695040888963407);
        let mantissa = (state >> 7) % 10_000_000_000_000_000_000;
        let exponent = ((state >> 2) % 700) as i64 - 360;
        let s = format!("{}e{}", mantissa, exponent);
        let slow = parse_long_mantissa::<Binary64>(s.as_bytes());
        let approx = compute_float::<Binary64>(exponent, mantissa);
        if approx.power2 >= 0 {
            assert_eq!(approx, slow, "{}", s);
            checked += 1;
        }
        let expected: f64 = s.parse().unwrap();
        let joined: Binary64 = from_parts(slow, false);
        assert_eq!(joined.to_bits(), expected.to_bits(), "{}", s);
    }
    assert!(checked > 19000);
}

#[test]
fn slow_path_values() {
    assert_eq!(parse_long_mantissa::<Binary64>(b"0"), Fp { mantissa: 0, power2: 0 });
    assert_eq!(parse_long_mantissa::<Binary64>(b"1e-400"), Fp { mantissa: 0, power2: 0 });
    assert_eq!(parse_long_mantissa::<Binary64>(b"1e400"), Fp { mantissa: 0, power2: 0x7FF });
    assert_eq!(parse_long_mantissa::<Binary64>(b"1e309"), Fp { mantissa: 0, power2: 0x7FF });
    assert_eq!(parse_long_mantissa::<Binary64>(b"1"), Fp { mantissa: 0, power2: 0x3FF });
    assert_eq!(parse_long_mantissa::<Binary64>(b"-1.5"), Fp { mantissa: 1 << 51, power2: 0x3FF });
    assert_eq!(parse_long_mantissa::<Binary64>(b"9007199254740993"), Fp { mantissa: 0, power2: 0x434 });
    assert_eq!(parse_long_mantissa::<Binary64>(b"9007199254740993.00000000000000000001"), Fp { mantissa: 1, power2: 0x434 });
    assert_eq!(parse_long_mantissa::<Binary64>(b"5e-324"), Fp { mantissa: 1, power2: 0 });
    assert_eq!(parse_long_mantissa::<Binary64>(b"2.2250738585072014e-308"), Fp { mantissa: 0, power2: 1 });
    assert_eq!(parse_long_mantissa::<Binary64>(b"1.7976931348623159e308"), Fp { mantissa: 0, power2: 0x7FF });
    assert_eq!(parse_long_mantissa::<Binary32>(b"16777217"), Fp { mantissa: 0, power2: 0x97 });
    assert_eq!(parse_long_mantissa::<Binary32>(b"16777219"), Fp { mantissa: 2, power2: 0x97 });
    assert_eq!(parse_long_mantissa::<Binary32>(b"1e-45"), Fp { mantissa: 1, power2: 0 });
    assert_eq!(parse_long_mantissa::<Binary32>(b"1e39"), Fp { mantissa: 0, power2: 0xFF });
    assert_eq!(get_shift(0), 0);
    assert_eq!(get_shift(1), 3);
    assert_eq!(get_shift(18), 59);
    assert_eq!(get_shift(19), 60);
    assert_eq!(get_shift(1000), 60);
}

#[test]
fn decimal_from_a_literal() {
    let d = parse_decimal(b"-0012.3400e2");
    assert_eq!((digits_of(&d).as_str(), d.decimal_point, d.truncated), ("1234", 4, false));
    let d = parse_decimal(b"0.00012");
    assert_eq!((digits_of(&d).as_str(), d.decimal_point, d.truncated), ("12", -3, false));
    let d = parse_decimal(b"1000");
    assert_eq!((digits_of(&d).as_str(), d.decimal_point, d.truncated), ("1", 4, false));
    let d = parse_decimal(b"0.0e5");
    assert_eq!((d.num_digits, d.decimal_point, d.truncated), (0, 4, false));
    let long = format!("1{}5", "0".repeat(767));
    let d = parse_decimal(long.as_bytes());
    assert_eq!((d.num_digits, d.decimal_point, d.truncated), (1, 769, true));
    let long = format!("{}", "7".repeat(800));
    let d = parse_decimal(long.as_bytes());
    assert_eq!((d.num_digits, d.decimal_point, d.truncated), (768, 800, true));
    let long = format!("1{}", "0".repeat(900));
    let d = parse_decimal(long.as_bytes());
    assert_eq!((digits_of(&d).as_str(), d.decimal_point, d.truncated), ("1", 901, false));
    let d = parse_decimal(b"1e999999");
    assert_eq!(d.decimal_point, 999_999 + 1);
    // the decimal point is kept within its limit
    let d = parse_decimal(b"1e999999999999");
    assert_eq!(d.decimal_point, 0x3FFF_FFFF);
    let d = parse_decimal(b"1e-999999999999");
    assert_eq!(d.decimal_point, -0x3FFF_FFFF);
}

#[test]
fn decimal_shifts() {
    let mut d = decimal("1", 1);
    d.left_shift(10);
    assert_eq!((digits_of(&d).as_str(), d.decimal_point), ("1024", 4));
    d.right_shift(10);
    assert_eq!((digits_of(&d).as_str(), d.decimal_point), ("1", 1));
    d.right_shift(3);
    assert_eq!((digits_of(&d).as_str(), d.decimal_point), ("125", 0));
    d.left_shift(60);
    assert_eq!((digits_of(&d).as_str(), d.decimal_point), ("144115188075855872", 18));
    d.right_shift(57);
    assert_eq!((digits_of(&d).as_str(), d.decimal_point), ("1", 1));
    let mut d = decimal("5", 0);
    d.left_shift(1);
    assert_eq!((digits_of(&d).as_str(), d.decimal_point), ("1", 1));
    let mut d = decimal("49", 0);
    d.left_shift(1);
    assert_eq!((digits_of(&d).as_str(), d.decimal_point), ("98", 0));
    let mut d = decimal("625", 3);
    d.left_shift(4);
    assert_eq!((digits_of(&d).as_str(), d.decimal_point), ("1", 5));
    let mut d = decimal("624", 3);
    assert_eq!(number_of_digits_decimal_left_shift(&d, 4), 1);
    d.left_shift(4);
    assert_eq!((digits_of(&d).as_str(), d.decimal_point), ("9984", 4));
    let mut d = decimal("3", 1);
    d.right_shift(0);
    assert_eq!((digits_of(&d).as_str(), d.decimal_point), ("3", 1));
    d.left_shift(0);
    assert_eq!((digits_of(&d).as_str(), d.decimal_point), ("3", 1));
    let mut d = Decimal::new();
    d.left_shift(7);
    d.right_shift(7);
    assert_eq!((d.num_digits, d.decimal_point), (0, 0));
    // the decimal point leaves the range
    let mut d = decimal("1", -2040);
    d.right_shift(60);
    assert_eq!((d.num_digits, d.decimal_point, d.truncated), (0, 0, false));
    // digits fall off the end
    let mut d = decimal(&"9".repeat(768), 0);
    d.right_shift(1);
    assert_eq!(d.num_digits, 768);
    assert!(d.truncated);
    assert_eq!(&digits_of(&d)[..5], "49999");
    let mut d = decimal(&"9".repeat(768), 0);
    d.left_shift(4);
    assert_eq!((d.num_digits, d.decimal_point, d.truncated), (768, 2, true));
    assert_eq!(&digits_of(&d)[..5], "15999");
}

#[test]
fn decimal_shifts_agree_with_big_integers() {
    // 7^k, shifted left and right, against the same done with u128
    let mut value: u128 = 7;
    for _ in 0..20 {
        for shift in [1usize, 2, 3, 13, 29, 59, 60] {
            let text = value.to_string();
            let mut d = decimal(&text, text.len() as i32);
            d.left_shift(shift);
            let expected = (value << shift).to_string();
            let trimmed = expected.trim_end_matches('0');
            assert_eq!(digits_of(&d), trimmed);
            assert_eq!(d.decimal_point as usize, expected.len());
            assert_eq!(number_of_digits_decimal_left_shift(&decimal(&text, 0), shift), expected.len() - text.len());
            d.right_shift(shift);
            assert_eq!(digits_of(&d), text.trim_end_matches('0'));
            assert_eq!(d.decimal_point as usize, text.len());
        }
        value *= 7;
    }
}

#[test]
fn decimal_rounding() {
    assert_eq!(decimal("15", 1).round(), 2);
    assert_eq!(decimal("25", 1).round(), 2);
    assert_eq!(decimal("35", 1).round(), 4);
    assert_eq!(decimal("251", 1).round(), 3);
    assert_eq!(decimal("249", 1).round(), 2);
    assert_eq!(decimal("5", 0).round(), 0);
    assert_eq!(decimal("51", 0).round(), 1);
    assert_eq!(decimal("5", -1).round(), 0);
    assert_eq!(decimal("12", 5).round(), 12000);
    assert_eq!(decimal("1", 19).round(), u64::MAX);
    assert_eq!(decimal("999999999999999999", 18).round(), 999999999999999999);
    assert_eq!(Decimal::new().round(), 0);
    let mut d = decimal("25", 1);
    d.truncated = true;
    assert_eq!(d.round(), 3);
    let mut d = decimal("5", 0);
    d.truncated = true;
    assert_eq!(d.round(), 1);
    let mut d = decimal("1200", 2);
    d.trim();
    assert_eq!(digits_of(&d), "12");
    assert_eq!(d.round(), 12);
}

#[test]
fn cursor_over_bytes() {
    let bytes = b"12ab";
    let mut s = AsciiStr::new(bytes);
    let start = s;
    assert!(!s.is_empty());
    assert_eq!(s.first(), b'1');
    assert!(s.first_is(b'1'));
    assert!(s.first_either(b'0', b'1'));
    assert!(!s.first_either(b'0', b'2'));
    assert!(s.check_first(b'1'));
    assert!(!s.check_first(b'2'));
    assert!(s.check_first_either(b'x', b'1'));
    assert!(s.check_first_digit());
    assert!(s.check_len(4));
    assert!(!s.check_len(5));
    assert!(s.try_read_u64().is_none());
    let sum = s.parse_digits(0u64, |acc, d| acc * 10 + d as u64);
    assert_eq!(sum, 12);
    assert_eq!(s.offset_from(&start), 2);
    assert_eq!(start.offset_from(&s), -2);
    assert!(!s.check_first_digit());
    assert!(s.step().check_first(b'b'));
    assert!(s.step().is_empty());
    assert!(!s.check_first(b'b'));
    assert!(!s.check_first_either(b'a', b'b'));
    assert!(!s.check_first_digit());
    assert!(s.check_len(0));
    let mut t = AsciiStr::new(b"0123456789");
    assert_eq!(t.try_read_u64(), Some(0x3736_3534_3332_3130));
    assert_eq!(t.read_u64(), 0x3736_3534_3332_3130);
    assert_eq!(t.step_by(2).read_u64(), 0x3938_3736_3534_3332);
    assert!(t.step_by(8).is_empty());
}

#[test]
fn byte_slice_operations() {
    let s: &[u8] = b"--+x12";
    assert_eq!(s.get_at(3), b'x');
    assert_eq!(s.get_first(), b'-');
    assert!(s.check_first(b'-'));
    assert!(!s.check_first(b'+'));
    assert!(s.check_first2(b'+', b'-'));
    assert!(!s.check_first2(b'+', b'x'));
    assert_eq!(s.advance(2), b"+x12");
    assert_eq!(s.skip_chars(b'-'), b"+x12");
    assert_eq!(s.skip_chars(b'+'), b"--+x12");
    assert_eq!(s.skip_chars2(b'-', b'+'), b"x12");
    let empty: &[u8] = b"";
    assert!(!empty.check_first(b'-'));
    assert!(!empty.check_first2(b'-', b'+'));
    assert_eq!(empty.skip_chars(b'-'), b"");
    let word: &[u8] = b"NaN!";
    assert!(word.eq_ignore_case(b"nan"));
    assert!(word.eq_ignore_case(b"NAN"));
    assert!(!word.eq_ignore_case(b"nam"));
    assert!(!word.eq_ignore_case(b"nan1"));
    assert!(word.eq_ignore_case(b""));
    let mut buffer = [0u8; 10];
    buffer[8] = 0xAA;
    buffer[..].write_u64(0x0102_0304_0506_0708);
    assert_eq!(buffer, [8, 7, 6, 5, 4, 3, 2, 1, 0xAA, 0]);
    assert_eq!(buffer[..].read_u64(), 0x0102_0304_0506_0708);
    assert_eq!(buffer[1..].read_u64(), 0xAA01_0203_0405_0607);
}

#[test]
fn eight_digits_at_once() {
    assert!(is_8digits(0x3030_3030_3030_3030));
    assert!(is_8digits(0x3939_3939_3939_3939));
    assert!(is_8digits(0x3736_3534_3332_3130));
    assert!(!is_8digits(0x3A30_3030_3030_3030));
    assert!(!is_8digits(0x3030_3030_3030_302F));
    assert!(!is_8digits(0x3030_3030_2E30_3030));
    assert!(!is_8digits(0));
    assert!(!is_8digits(u64::MAX));
    assert!(!is_8digits(0x3030_3030_B030_3030));
    let mut s: &[u8] = b"0420x7";
    let sum = parse_digits(&mut s, 0u32, |acc, d| acc * 10 + d as u32);
    assert_eq!(sum, 420);
    assert_eq!(s, b"x7");
    let count = parse_digits(&mut s, 0u32, |acc, _| acc + 1);
    assert_eq!(count, 0);
    assert_eq!(s, b"x7");
    let mut all: &[u8] = b"99";
    assert_eq!(parse_digits(&mut all, 1u32, |acc, d| acc * d as u32), 81);
    assert!(all.is_empty());
}

#[test]
fn zero_pow2_is_a_bare_exponent() {
    assert_eq!(Fp::zero_pow2(0), Fp { mantissa: 0, power2: 0 });
    assert_eq!(Fp::zero_pow2(-1), Fp { mantissa: 0, power2: -1 });
    assert_eq!(Fp::zero_pow2(0x7FF), Fp { mantissa: 0, power2: 0x7FF });
}
