use sys_error::decimal::{i32_to_string, u32_to_string};
use sys_error::SysError;

#[test]
fn test_sys_error() {
    let err = SysError::last();
    assert_eq!(err.is_err(), false);
}

#[test]
fn code_round_trip() {
    let codes: [i32; 7] = [0, 1, -1, 2, 5, i32::MAX, i32::MIN];
    for v in codes {
        assert_eq!(SysError::from_code(v).to_code(), v);
    }
}

#[test]
fn zero_is_ok() {
    assert_eq!(SysError::from_code(0).is_ok(), true);
    assert_eq!(SysError::from_code(0).is_err(), false);
}

#[test]
fn nonzero_is_err() {
    let codes: [i32; 4] = [1, -1, i32::MAX, i32::MIN];
    for v in codes {
        assert!(SysError::from_code(v).is_err());
        assert!(!SysError::from_code(v).is_ok());
    }
}

#[test]
fn map_or_ok_state_substitutes() {
    let ok = SysError::from_code(0);
    match ok.map_or(42u32) {
        Ok(v) => assert_eq!(v, 42u32),
        Err(_) => panic!("expected success"),
    }
}

#[test]
fn map_or_err_state_propagates() {
    let err = SysError::from_code(9);
    match err.map_or(42u32) {
        Ok(_) => panic!("expected failure"),
        Err(e) => {
            assert_eq!(e.to_code(), 9);
            assert!(e == err);
        }
    }
}

#[test]
fn equality_on_code() {
    assert!(SysError::from_code(5) == SysError::from_code(5));
    assert!(SysError::from_code(5) != SysError::from_code(6));
}

#[test]
fn describe_is_deterministic() {
    let e = SysError::from_code(0);
    assert_eq!(e.to_str(), e.to_str());
    assert!(!e.to_str().is_empty());
}

#[test]
fn describe_distinguishes_codes() {
    assert_ne!(SysError::from_code(2).to_str(), SysError::from_code(0).to_str());
}

#[test]
fn debug_shows_code_and_reason() {
    let e = SysError::from_code(2);
    let msg = e.to_str();
    let dbg = e.debug_str();
    assert!(dbg.contains("2"));
    assert!(dbg.contains(msg.as_str()));
    assert!(msg.contains("No such file"));
    assert_eq!(dbg, format!("SysError {{ Code=2, Reason=\"{}\" }}", msg));
}

#[test]
fn debug_of_negative_code() {
    let e = SysError::from_code(-7);
    let dbg = e.debug_str();
    assert!(dbg.starts_with("SysError { Code=-7, Reason=\""));
    assert!(dbg.ends_with("\" }"));
}

#[test]
fn decimal_rendering() {
    assert_eq!(i32_to_string(0), "0");
    assert_eq!(i32_to_string(7), "7");
    assert_eq!(i32_to_string(10), "10");
    assert_eq!(i32_to_string(42), "42");
    assert_eq!(i32_to_string(-1), "-1");
    assert_eq!(i32_to_string(-120), "-120");
    assert_eq!(i32_to_string(i32::MAX), "2147483647");
    assert_eq!(i32_to_string(i32::MIN), "-2147483648");
    assert_eq!(u32_to_string(0), "0");
    assert_eq!(u32_to_string(100), "100");
    assert_eq!(u32_to_string(u32::MAX), "4294967295");
}

#[test]
fn default_is_success() {
    let e: SysError = Default::default();
    assert!(e.is_ok());
    assert_eq!(e.to_code(), 0);
}

#[test]
fn from_integer_trait() {
    let e = SysError::from(13);
    assert!(e.is_err());
    assert_eq!(e.to_code(), 13);
}
