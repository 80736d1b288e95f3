use nif_check::checksum::is_nif_valid_local;

#[test]
fn sequential_digits_are_valid() {
    // 1*9 + 2*8 + 3*7 + 4*6 + 5*5 + 6*4 + 7*3 + 8*2 = 156; 156 mod 11 = 2; check digit 9.
    assert!(is_nif_valid_local("123456789"));
}

#[test]
fn wrong_check_digit_is_invalid() {
    assert!(!is_nif_valid_local("123456780"));
    assert!(!is_nif_valid_local("123456788"));
}

#[test]
fn prefix_45_is_accepted() {
    // 4*9 + 5*8 + 1*7 + 2*6 + 3*5 + 4*4 + 5*3 + 6*2 = 153; 153 mod 11 = 10; check digit 1.
    assert!(!is_nif_valid_local("451234567"));
    assert!(is_nif_valid_local("451234561"));
}

#[test]
fn other_prefixes_with_four_or_zero_are_rejected() {
    // 4*9 = 36; 36 mod 11 = 3; check digit 8, right, but "40" is no allowed prefix.
    assert!(!is_nif_valid_local("400000008"));
    // Check digit 0 is right for an all-zero number, but 0 is no allowed first digit.
    assert!(!is_nif_valid_local("000000000"));
    assert!(!is_nif_valid_local("012345678"));
}

#[test]
fn remainder_zero_or_one_gives_check_digit_zero() {
    // 5*9 = 45; 45 mod 11 = 1.
    assert!(is_nif_valid_local("500000000"));
    assert!(!is_nif_valid_local("500000001"));
    // 1*9 + 1*2 = 11; 11 mod 11 = 0.
    assert!(is_nif_valid_local("100000010"));
    assert!(!is_nif_valid_local("100000011"));
}

#[test]
fn every_allowed_first_digit() {
    // For first digit d and zeros after it the sum is 9*d.
    assert!(is_nif_valid_local("100000002"));
    assert!(is_nif_valid_local("200000004"));
    assert!(is_nif_valid_local("300000006"));
    assert!(is_nif_valid_local("600000001"));
    assert!(is_nif_valid_local("700000003"));
    assert!(is_nif_valid_local("800000005"));
    assert!(is_nif_valid_local("900000007"));
}

#[test]
fn strings_that_are_not_nine_digits_are_invalid() {
    assert!(!is_nif_valid_local(""));
    assert!(!is_nif_valid_local("12345678"));
    assert!(!is_nif_valid_local("1234567890"));
    assert!(!is_nif_valid_local("12345678a"));
    assert!(!is_nif_valid_local(" 23456789"));
    assert!(!is_nif_valid_local("-23456789"));
    assert!(!is_nif_valid_local("１２３４５６７８９"));
    assert!(!is_nif_valid_local("1234567é"));
}

#[test]
fn validation_gives_the_same_answer_each_time() {
    for nif in ["123456789", "451234567", "500000000", "abc"] {
        let first = is_nif_valid_local(nif);
        let second = is_nif_valid_local(nif);
        let copy = String::from(nif);
        assert_eq!(first, second);
        assert_eq!(first, is_nif_valid_local(copy.as_str()));
    }
}
