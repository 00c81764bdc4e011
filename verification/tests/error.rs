use winkit::{call_outcome, Error};

#[test]
fn error_round_trip() {
    let e = Error::from_raw(1400);
    assert_eq!(e.as_raw(), 1400);
}

#[test]
fn hresult_of_ordinary_code() {
    // 5 (access denied) gains the failure bit and the window-system facility.
    let e = Error::from_raw(5);
    assert_eq!(e.into_hresult(), 0x8007_0005u32 as i32);
}

#[test]
fn hresult_of_failure_code_passes_through() {
    let e = Error::from_raw(0x8000_4005);
    assert_eq!(e.into_hresult(), 0x8000_4005u32 as i32);
}

#[test]
fn hresult_keeps_low_sixteen_bits_only() {
    let e = Error::from_raw(0x0012_0034);
    assert_eq!(e.into_hresult(), 0x8007_0034u32 as i32);
}

#[test]
fn call_outcome_zero_is_failure() {
    assert_eq!(call_outcome(0, 55), Err(Error::from_raw(55)));
}

#[test]
fn call_outcome_nonzero_is_success() {
    assert_eq!(call_outcome(1, 55), Ok(()));
    assert_eq!(call_outcome(-1, 55), Ok(()));
}
