use yun_lib::interpreter::number::Number;

fn num(x: f64) -> Number {
    Number::from_bits(x.to_bits())
}

fn val(n: Number) -> f64 {
    f64::from_bits(n.to_bits())
}

#[test]
fn arithmetic_agrees_with_hardware() {
    let samples = [0.0, -0.0, 1.0, -1.0, 0.1, 0.2, 0.3, 1e308, -1e308, 1e-320, 45.67, 123.0, 3.5, 1e21, 7.0];
    for a in samples {
        for b in samples {
            assert_eq!(val(num(a).plus(&num(b))).to_bits(), (a + b).to_bits(), "{} + {}", a, b);
            assert_eq!(val(num(a).minus(&num(b))).to_bits(), (a - b).to_bits(), "{} - {}", a, b);
            assert_eq!(val(num(a).times(&num(b))).to_bits(), (a * b).to_bits(), "{} * {}", a, b);
            let q = val(num(a).divided_by(&num(b)));
            if (a / b).is_nan() {
                assert!(q.is_nan());
            } else {
                assert_eq!(q.to_bits(), (a / b).to_bits(), "{} / {}", a, b);
            }
            assert_eq!(num(a).equals(&num(b)), a == b);
            assert_eq!(num(a).less_than(&num(b)), a < b);
        }
    }
}

#[test]
fn nan_is_unordered_and_unequal() {
    let nan = num(f64::NAN);
    assert!(nan.is_nan());
    assert!(!nan.equals(&nan));
    assert!(!nan.less_than(&num(1.0)));
    assert!(!num(1.0).less_than(&nan));
    assert!(!num(f64::INFINITY).is_nan());
}

#[test]
fn negation_flips_the_sign() {
    assert_eq!(val(num(1.5).negated()), -1.5);
    assert_eq!(val(num(-0.0).negated()).to_bits(), 0.0f64.to_bits());
    assert_eq!(val(num(0.0).negated()).to_bits(), (-0.0f64).to_bits());
}

#[test]
fn parse_reads_decimal_literals() {
    for text in ["0", "1", "123", "45.67", "0.1", "3.14159", "100000000000000000000000", "0.000001", "9007199254740993"] {
        let expected: f64 = text.parse().unwrap();
        assert_eq!(val(Number::parse(text).unwrap()).to_bits(), expected.to_bits(), "{}", text);
    }
    assert!(Number::parse("abc").is_none());
    assert!(Number::parse("").is_none());
}

#[test]
fn numbers_are_written_as_the_host_writes_them() {
    let samples = [
        0.0, -0.0, 1.0, -1.0, 55.0, 6.0, 123.0, 45.67, 0.1, 0.2, 0.30000000000000004, 1e21, 1e22, 1e-7,
        1.5e-10, 123456789.125, 1e300, 5e-324, 1.7976931348623157e308, 100.0, 10.0, 1000000.0, 0.5,
        2.5, -3.75, 1234.5678, 9007199254740993.0, 0.1 + 0.7, 1.0 / 3.0, 2.0 / 3.0,
        5.684341886080802e-14, 6.189700196426902e26, 6.617444900424222e-24, 1113178120592002.25,
        -5.684341886080802e-14, 2.2250738585072014e-308, 4.9406564584124654e-324, 9.5, 9500.0,
        0.3, 2.9999999999999996, 1e23, 8.41e21, 2.0f64.powi(-44), 2.0f64.powi(89), 2.0f64.powi(-77),
    ];
    for x in samples {
        assert_eq!(num(x).to_string(), format!("{}", x), "{:e}", x);
    }
    assert_eq!(num(f64::NAN).to_string(), "NaN");
    assert_eq!(num(f64::INFINITY).to_string(), "inf");
    assert_eq!(num(f64::NEG_INFINITY).to_string(), "-inf");
}

#[test]
fn truncation_saturates() {
    assert_eq!(num(3.9).to_index(), 3);
    assert_eq!(num(-1.0).to_index(), 0);
    assert_eq!(num(f64::NAN).to_index(), 0);
    assert_eq!(num(1e30).to_index(), u64::MAX);
    assert_eq!(num(65.7).to_i32(), 65);
    assert_eq!(num(-65.7).to_i32(), -65);
    assert_eq!(num(1e30).to_i32(), i32::MAX);
    assert_eq!(num(-1e30).to_i32(), i32::MIN);
    assert_eq!(val(Number::from_count(1_000_000)), 1_000_000.0);
    assert_eq!(num(0.0).to_index(), 0);
    assert_eq!(num(-0.0).to_index(), 0);
    assert_eq!(num(-0.5).to_index(), 0);
    assert_eq!(num(f64::NEG_INFINITY).to_index(), 0);
    assert_eq!(num(18446744073709551616.0).to_index(), u64::MAX);
    assert_eq!(num(f64::INFINITY).to_index(), u64::MAX);
    assert_eq!(num(18446744073709549568.0).to_index(), 18446744073709549568);
    assert_eq!(num(f64::NAN).to_i32(), 0);
    assert_eq!(num(-0.0).to_i32(), 0);
    assert_eq!(num(2147483648.0).to_i32(), i32::MAX);
    assert_eq!(num(2147483647.0).to_i32(), i32::MAX);
    assert_eq!(num(-2147483648.0).to_i32(), i32::MIN);
    assert_eq!(num(-2147483647.0).to_i32(), -2147483647);
    assert_eq!(num(f64::INFINITY).to_i32(), i32::MAX);
    assert_eq!(num(f64::NEG_INFINITY).to_i32(), i32::MIN);
}

#[test]
fn plain_numerals_always_parse() {
    for text in ["0", "007", "7.", "1.50", "0.0", "18446744073709551616", "0.00000000000000000000000000001"] {
        let expected: f64 = text.parse().unwrap();
        assert_eq!(val(Number::parse(text).unwrap()).to_bits(), expected.to_bits(), "{}", text);
    }
    assert!(Number::parse("1.2.3").is_none());
    assert!(Number::parse(".").is_none());
}

#[test]
fn one_digit_is_enough_for_a_digit() {
    for x in [8.0f64, 9.0, 1.0, 0.5, 80.0] {
        let one = num(x).scientific(1);
        assert!(one.contains('E'), "{}", one);
        let mantissa = one.split('E').next().unwrap();
        assert_eq!(mantissa.chars().filter(|c| c.is_ascii_digit() && *c != '0').count(), 1, "{}", one);
        assert_eq!(num(x).to_string(), format!("{}", x));
    }
    assert!(num(8.0).scientific(1).starts_with('8'));
    assert!(num(9.0).scientific(17).starts_with('9'));
}

#[test]
fn the_shorter_numeral_above_is_found() {
    assert_eq!(num(2.0f64.powi(-44)).to_string(), "0.00000000000005684341886080802");
    assert_eq!(num(2.0f64.powi(89)).to_string(), "618970019642690200000000000");
    let mut x = 1.0f64;
    for _ in 0..44 {
        x = x / 2.0;
    }
    assert_eq!(num(x).to_string(), "0.00000000000005684341886080802");
}

#[test]
fn powers_of_two_are_written_as_the_host_writes_them() {
    let mut exponent = -1074;
    while exponent <= 1023 {
        let x = 2.0f64.powi(exponent);
        assert_eq!(num(x).to_string(), format!("{}", x), "2^{}", exponent);
        exponent += 11;
    }
    for exponent in [-1074, -1022, -77, -44, -1, 0, 1, 52, 53, 89, 1023] {
        let x = 2.0f64.powi(exponent);
        assert_eq!(num(-x).to_string(), format!("{}", -x), "-2^{}", exponent);
    }
}

#[test]
fn any_number_is_written_as_the_host_writes_it() {
    let mut state: u64 = 0x9E37_79B9_7F4A_7C15;
    let mut checked = 0;
    while checked < 400 {
        state = state.wrapping_mul(6364136223846793005).wrapping_add(1442695040888963407);
        let bits = state ^ (state >> 29);
        let x = f64::from_bits(bits);
        if x.is_finite() {
            assert_eq!(num(x).to_string(), format!("{}", x), "{:#018x}", bits);
            checked += 1;
        }
    }
    let mut k = 1u64;
    while k < 2000 {
        let x = (k as f64) / 1000.0;
        assert_eq!(num(x).to_string(), format!("{}", x), "{}/1000", k);
        let y = (k as f64) * 0.1;
        assert_eq!(num(y).to_string(), format!("{}", y), "{}*0.1", k);
        k += 7;
    }
}
