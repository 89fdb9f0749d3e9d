use perp_cycle::qty::is_nonzero_qty;

#[test]
fn zero_representations_are_zero() {
    assert!(!is_nonzero_qty("0"));
    assert!(!is_nonzero_qty("0.0"));
    assert!(!is_nonzero_qty("0.000000"));
    assert!(!is_nonzero_qty(""));
    assert!(!is_nonzero_qty("abc"));
}

#[test]
fn small_and_negative_quantities_are_nonzero() {
    assert!(is_nonzero_qty("0.0000001"));
    assert!(is_nonzero_qty("-5"));
}

#[test]
fn sign_agnostic_magnitude() {
    assert!(is_nonzero_qty("+5"));
    assert!(is_nonzero_qty("-0.5"));
    assert!(!is_nonzero_qty("-0.0"));
    assert!(!is_nonzero_qty("+0"));
}

#[test]
fn epsilon_boundary() {
    // Exactly 1e-12 does not exceed the epsilon.
    assert!(!is_nonzero_qty("0.000000000001"));
    // Just above it does.
    assert!(is_nonzero_qty("0.000000000002"));
    assert!(is_nonzero_qty("0.0000000000010000001"));
    // Strictly below it does not.
    assert!(!is_nonzero_qty("0.0000000000001"));
    assert!(!is_nonzero_qty("0.00000000000009999"));
}

#[test]
fn whitespace_is_trimmed() {
    assert!(is_nonzero_qty("  100.0  "));
    assert!(!is_nonzero_qty("  0.0\t"));
    assert!(!is_nonzero_qty("   "));
}

#[test]
fn malformed_numbers_are_zero() {
    assert!(!is_nonzero_qty("."));
    assert!(!is_nonzero_qty("+"));
    assert!(!is_nonzero_qty("-"));
    assert!(!is_nonzero_qty("1.2.3"));
    assert!(!is_nonzero_qty("1a"));
    assert!(!is_nonzero_qty("--5"));
}

#[test]
fn dot_forms_parse() {
    assert!(is_nonzero_qty("5."));
    assert!(is_nonzero_qty(".5"));
    assert!(!is_nonzero_qty(".0"));
    assert!(!is_nonzero_qty("0."));
}
