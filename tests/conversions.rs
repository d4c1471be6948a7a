use procsys::error::MetricError;
use procsys::utils::{convert_hex_to_u64, convert_str_to_i64, convert_str_to_u64, convert_to_bytes};

#[test]
fn bytes_by_unit() {
    assert_eq!(convert_to_bytes(7, "B").unwrap(), Some(7));
    assert_eq!(convert_to_bytes(3, "kB").unwrap(), Some(3072));
    assert_eq!(convert_to_bytes(3, "KiB").unwrap(), Some(3072));
    assert_eq!(convert_to_bytes(2, "MB").unwrap(), Some(2 * 1024 * 1024));
    assert_eq!(convert_to_bytes(2, "giB").unwrap(), Some(2 * 1024 * 1024 * 1024));
    assert!(matches!(convert_to_bytes(2, "TB"), Err(MetricError::ByteConvertError(u)) if u == "TB"));
}

#[test]
fn decimal_limits() {
    assert_eq!(convert_str_to_u64("18446744073709551615").unwrap(), u64::MAX);
    assert!(convert_str_to_u64("18446744073709551616").is_err());
    assert_eq!(convert_str_to_u64("+42").unwrap(), 42);
    assert!(convert_str_to_u64("-1").is_err());
    assert!(convert_str_to_u64("").is_err());
    assert!(convert_str_to_u64("+").is_err());
    assert_eq!(convert_str_to_i64("-9223372036854775808").unwrap(), i64::MIN);
    assert_eq!(convert_str_to_i64("9223372036854775807").unwrap(), i64::MAX);
    assert!(convert_str_to_i64("9223372036854775808").is_err());
    assert!(convert_str_to_i64("-9223372036854775809").is_err());
    assert_eq!(convert_str_to_i64("-12").unwrap(), -12);
    assert!(matches!(convert_str_to_i64("1 2"), Err(MetricError::ParseIntError(v, _)) if v == "1 2"));
}

#[test]
fn hexadecimal_values() {
    assert_eq!(convert_hex_to_u64("0x10").unwrap(), 16);
    assert_eq!(convert_hex_to_u64("ff").unwrap(), 255);
    assert_eq!(convert_hex_to_u64("0xFFFFFFFFFFFFFFFF").unwrap(), u64::MAX);
    assert!(convert_hex_to_u64("0x1FFFFFFFFFFFFFFFF").is_err());
    assert!(convert_hex_to_u64("0x").is_err());
    assert!(convert_hex_to_u64("0xg").is_err());
}

#[test]
fn error_messages() {
    assert_eq!(MetricError::ProcessNotFound(42).message(), "process (pid=42) not found");
    assert_eq!(MetricError::ByteConvertError("TB".to_string()).message(), "invalid unit: TB");
    assert_eq!(
        MetricError::InvalidFieldNumberError("swaps".to_string(), 3, "a b c".to_string()).message(),
        "invalid swaps fields number 3: \"a b c\""
    );
    assert_eq!(
        MetricError::ParseIntError("cpu family".to_string(), "six".to_string()).message(),
        "cpu family parse \"six\" int error"
    );
    assert_eq!(
        MetricError::ParseFloatError("cpu mhz".to_string(), "x".to_string()).message(),
        "cpu mhz parse \"x\" float error"
    );
}
