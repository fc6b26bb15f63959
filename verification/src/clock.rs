use vstd::prelude::*;

verus! {

/// An instant in UTC, as seconds and nanoseconds since the Unix epoch: the
/// plain values that `chrono::DateTime<Utc>` is built from and read back as.
#[derive(Clone, Copy, Debug, PartialEq, Eq, Structural)]
pub struct Timestamp {
    pub secs: i64,
    pub nanos: u32,
}

/// Calls `chrono::Utc::now`, which reads the system clock, and hands back its
/// seconds and nanoseconds since the epoch. Nothing is claimed of the instant:
/// it depends on when it is called.
#[verifier::external_body]
pub fn now() -> Timestamp {
    let t = chrono::Utc::now();
    Timestamp { secs: t.timestamp(), nanos: t.timestamp_subsec_nanos() }
}


/// `a / b` as Rust computes it for a positive `b`: rounded toward zero.
pub open spec fn div_toward_zero(a: int, b: int) -> int {
    if a >= 0 {
        a / b
    } else {
        -((-a) / b)
    }
}

/// `a % b` as Rust computes it for a positive `b`: with the sign of `a`.
pub open spec fn rem_toward_zero(a: int, b: int) -> int {
    a - b * div_toward_zero(a, b)
}

/// How long a pet has been alive, in whole days and the hours past them,
/// given the whole seconds elapsed since its birth (the info panel's
/// "Alive for D day(s), H hour(s)").
pub fn age_in_days_and_hours(elapsed_secs: i64) -> (age: (i64, i64))
    ensures
        age.0 == div_toward_zero(elapsed_secs as int, 86400),
        age.1 == rem_toward_zero(div_toward_zero(elapsed_secs as int, 3600), 24),
{
    let days = elapsed_secs / 86400;
    let hours = elapsed_secs / 3600;
    (days, hours % 24)
}


/// Law: for a pet born in the past, its age in whole days and the hours past
/// them account for the elapsed seconds: the days and hours it has fully
/// lived fit in them, the next hour does not, and the hours stay in 0..24.
pub proof fn age_accounts_for_elapsed_time(e: int)
    requires
        e >= 0,
    ensures
        ({
            let days = div_toward_zero(e, 86400);
            let hours = rem_toward_zero(div_toward_zero(e, 3600), 24);
            &&& 0 <= hours < 24
            &&& 0 <= days
            &&& days * 86400 + hours * 3600 <= e < days * 86400 + hours * 3600 + 3600
        }),
{
    let h = e / 3600;
    let d = e / 86400;
    assert(h / 24 == d) by (nonlinear_arith)
        requires
            h == e / 3600,
            d == e / 86400,
            e >= 0,
    ;
    assert(0 <= h % 24 < 24 && h == (h / 24) * 24 + h % 24) by (nonlinear_arith)
        requires
            h >= 0,
    ;
    assert(h * 3600 <= e < h * 3600 + 3600) by (nonlinear_arith)
        requires
            h == e / 3600,
            e >= 0,
    ;
    assert(d >= 0) by (nonlinear_arith)
        requires
            d == e / 86400,
            e >= 0,
    ;
}

} // verus!
