use kapi::nonce::{gen_nonce, nonce_from_secs};
use kapi::strutil::u64_to_dec_string;

#[test]
fn nonce_scales_seconds_to_nanoseconds() {
    assert_eq!(nonce_from_secs(0), 0);
    assert_eq!(nonce_from_secs(2), 2_000_000_000);
    assert_eq!(nonce_from_secs(1_616_492_376), 1_616_492_376_000_000_000);
}

#[test]
fn nonce_saturates_instead_of_wrapping() {
    assert_eq!(nonce_from_secs(u64::MAX), u64::MAX);
    assert_eq!(nonce_from_secs(u64::MAX / 1_000_000_000 + 1), u64::MAX);
}

#[test]
fn nonce_is_monotone_below_saturation() {
    let mut prev = nonce_from_secs(0);
    for s in 1u64..1000 {
        let next = nonce_from_secs(s);
        assert!(next > prev);
        prev = next;
    }
}

#[test]
fn generated_nonce_is_time_scaled() {
    let n1 = gen_nonce();
    let n2 = gen_nonce();
    // the clock only moves forward during a test run
    assert!(n2 >= n1);
    assert!(n1 > 0);
    assert_eq!(n1 % 1_000_000_000, 0);
}

#[test]
fn decimal_formatting_matches_std() {
    assert_eq!(u64_to_dec_string(0), "0");
    assert_eq!(u64_to_dec_string(7), "7");
    assert_eq!(u64_to_dec_string(1_616_492_376_594), "1616492376594");
    assert_eq!(u64_to_dec_string(u64::MAX), u64::MAX.to_string());
}
