//! The nonce generator: a per-request token derived from the wall clock at
//! nanosecond scale, strictly increasing as long as the clock moves forward.
use vstd::prelude::*;

verus! {

/// Nanoseconds per second: the scale between the clock's seconds and the
/// nonce value.
pub const NONCE_SCALE: u64 = 1000000000;

/// Relies on std's `SystemTime::now` and `SystemTime::duration_since`
/// (`Duration::as_secs` reads the result): the wall clock's whole seconds
/// since the Unix epoch, or 0 when the clock reads before the epoch. Nothing
/// can be promised of a clock reading.
#[verifier::external_body]
fn now_unix_secs() -> u64 {
    match std::time::SystemTime::now().duration_since(std::time::UNIX_EPOCH) {
        Ok(d) => d.as_secs(),
        Err(_) => 0,
    }
}

/// The nonce derived from a clock reading of `s` seconds: `s` at nanosecond
/// scale, saturating at `u64::MAX` (which the clock will not reach for
/// centuries).
pub open spec fn nonce_of_secs(s: u64) -> u64 {
    if s as int * NONCE_SCALE as int <= u64::MAX as int {
        (s as int * NONCE_SCALE as int) as u64
    } else {
        u64::MAX
    }
}

/// The pure part of the generator: scale a seconds reading to a nonce.
pub fn nonce_from_secs(secs: u64) -> (r: u64)
    ensures
        r == nonce_of_secs(secs),
{
    match secs.checked_mul(NONCE_SCALE) {
        Some(v) => v,
        None => u64::MAX,
    }
}

/// A fresh nonce from the current wall-clock time: seconds since the epoch at
/// nanosecond scale. Successive calls grow strictly as long as the clock has
/// advanced by at least one second between them (`lemma_nonce_monotonic`);
/// the clock's own behaviour is outside what can be proved.
pub fn gen_nonce() -> (r: u64)
    ensures
        exists|s: u64| r == nonce_of_secs(s),
{
    let secs = now_unix_secs();
    let r = nonce_from_secs(secs);
    proof {
        assert(r == nonce_of_secs(secs));
    }
    r
}

/// A later clock reading gives a strictly larger nonce, as long as the later
/// reading is still below the saturation point (the year 2554).
pub proof fn lemma_nonce_monotonic(s1: u64, s2: u64)
    requires
        s1 < s2,
        s2 as int * NONCE_SCALE as int <= u64::MAX as int,
    ensures
        nonce_of_secs(s1) < nonce_of_secs(s2),
{
    assert(((s1 as int) * (NONCE_SCALE as int)) < ((s2 as int) * (NONCE_SCALE as int)))
        by (nonlinear_arith)
        requires
            s1 < s2,
    ;
}

} // verus!
