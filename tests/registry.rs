use microbit_pins::registry::{ClaimError, PinRegistry};

#[test]
fn fresh_registry_has_nothing_claimed() {
    let reg = PinRegistry::new();
    for p in 0..60 {
        assert!(!reg.is_claimed(p));
    }
}

#[test]
fn claim_hands_out_physical_pin() {
    let mut reg = PinRegistry::new();
    assert_eq!(reg.claim(14), Ok(1));
    assert!(reg.is_claimed(1));
    assert!(!reg.is_claimed(14));
}

#[test]
fn second_claim_is_refused() {
    let mut reg = PinRegistry::new();
    assert_eq!(reg.claim(20), Ok(32));
    assert_eq!(reg.claim(20), Err(ClaimError::AlreadyClaimed));
    assert!(reg.is_claimed(32));
}

#[test]
fn reserved_and_out_of_range_claims_fail() {
    let mut reg = PinRegistry::new();
    assert_eq!(reg.claim(17), Err(ClaimError::InvalidPin));
    assert_eq!(reg.claim(18), Err(ClaimError::InvalidPin));
    assert_eq!(reg.claim(21), Err(ClaimError::InvalidPin));
    for p in 0..48 {
        assert!(!reg.is_claimed(p));
    }
}

#[test]
fn display_pins_claim_once_each() {
    let mut reg = PinRegistry::new();
    assert_eq!(reg.claim(14), Ok(1));
    assert_eq!(reg.claim(15), Ok(13));
    assert_eq!(reg.claim(2), Ok(4));
    assert_eq!(reg.claim(13), Ok(17));
    assert_eq!(reg.claim(12), Ok(12));
    assert_eq!(reg.claim(13), Err(ClaimError::AlreadyClaimed));
}
