//! Bond amount validation bounds.

use credence_bond::validate_bond_amount;
use credence_bond::MAX_BOND_AMOUNT;
use credence_bond::MIN_BOND_AMOUNT;

#[test]
fn test_validate_bond_amount_valid() {
    assert!(validate_bond_amount(MIN_BOND_AMOUNT));
    assert!(validate_bond_amount(MAX_BOND_AMOUNT));
    assert!(validate_bond_amount((MIN_BOND_AMOUNT + MAX_BOND_AMOUNT) / 2));
}

#[test]
fn test_validate_bond_amount_below_minimum() {
    assert!(!validate_bond_amount(MIN_BOND_AMOUNT - 1));
}

#[test]
fn test_validate_bond_amount_zero() {
    assert!(!validate_bond_amount(0));
}

#[test]
fn test_validate_bond_amount_negative() {
    assert!(!validate_bond_amount(-1));
}

#[test]
fn test_validate_bond_amount_above_maximum() {
    assert!(!validate_bond_amount(MAX_BOND_AMOUNT + 1));
}
