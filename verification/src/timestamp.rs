use vstd::prelude::*;

verus! {

/// The current UTC time as an LTFS timestamp: `chrono::Utc::now()` written
/// as `%Y-%m-%dT%H:%M:%S%.9f` followed by `Z`.  It reads the clock: only
/// the closing `Z` is stated of the result.
#[verifier::external_body]
pub fn get_current_ltfs_timestamp() -> (s: String)
    ensures
        s@.len() > 0 && s@.last() == 'Z',
{
    format!("{}Z", chrono::Utc::now().format("%Y-%m-%dT%H:%M:%S%.9f"))
}

/// The current time in RFC 3339 form (`chrono::Utc::now().to_rfc3339()`).
/// It reads the clock, so nothing is stated of it.
#[verifier::external_body]
pub(crate) fn now_rfc3339() -> String {
    chrono::Utc::now().to_rfc3339()
}

/// The LTFS text of the instant `secs` seconds and `nanos` nanoseconds
/// after the Unix epoch (UTC): `%Y-%m-%dT%H:%M:%S%.9f` followed by `Z`.
pub uninterp spec fn ltfs_time_text(secs: i64, nanos: u32) -> Seq<char>;

/// The largest distance from the epoch, in seconds, taken here: about
/// 253,000 years, inside chrono's date range.
pub const LTFS_TIME_SPAN: i64 = 8_000_000_000_000;

/// `chrono::DateTime::<Utc>::from_timestamp(secs, nanos)` written as
/// `%Y-%m-%dT%H:%M:%S%.9f` and `Z`; `None` where chrono has no such
/// instant.  chrono has one for every `nanos` below 10^9 and `secs` within
/// `LTFS_TIME_SPAN` of the epoch (its dates reach 262,143 years either
/// way); the text is named, and its closing `Z` stated, with the nine zero
/// digits that `%.9f` writes for a whole second.
#[verifier::external_body]
fn ltfs_text_of(secs: i64, nanos: u32) -> (r: Option<String>)
    ensures
        nanos < 1_000_000_000 && -LTFS_TIME_SPAN <= secs <= LTFS_TIME_SPAN ==> r is Some,
        r matches Some(s) ==> s@ == ltfs_time_text(secs, nanos) && s@.len() > 0 && s@.last() == 'Z',
        nanos == 0 ==> (r matches Some(s) ==> s@.len() >= 11 && s@.subrange(s@.len() - 11, s@.len() as int)
            == ".000000000Z"@),
{
    chrono::DateTime::from_timestamp(secs, nanos).map(|d| format!("{}Z", d.format("%Y-%m-%dT%H:%M:%S%.9f")))
}

/// The LTFS timestamp of an instant, given as whole seconds and
/// nanoseconds from the Unix epoch: `2023-01-01T00:00:00.000000000Z`.
pub fn format_ltfs_timestamp(secs: i64, nanos: u32) -> (s: String)
    requires
        nanos < 1_000_000_000,
        -LTFS_TIME_SPAN <= secs <= LTFS_TIME_SPAN,
    ensures
        s@ == ltfs_time_text(secs, nanos),
        s@.last() == 'Z',
        nanos == 0 ==> s@.len() >= 11 && s@.subrange(s@.len() - 11, s@.len() as int) == ".000000000Z"@,
{
    match ltfs_text_of(secs, nanos) {
        Some(s) => s,
        None => String::new(),
    }
}

/// The LTFS timestamp of a file system time, which the caller gives as
/// its seconds and nanoseconds from the Unix epoch (negative seconds
/// before it).
pub fn system_time_to_ltfs_timestamp(secs: i64, nanos: u32) -> (s: String)
    requires
        nanos < 1_000_000_000,
        -LTFS_TIME_SPAN <= secs <= LTFS_TIME_SPAN,
    ensures
        s@ == ltfs_time_text(secs, nanos),
        s@.last() == 'Z',
{
    format_ltfs_timestamp(secs, nanos)
}

/// The instant `secs` seconds after the Unix epoch written as
/// `%Y-%m-%dT%H:%M:%SZ`: its LTFS text without the nine fraction digits.
pub open spec fn utc_seconds_text(secs: i64) -> Seq<char> {
    let t = ltfs_time_text(secs, 0);
    t.subrange(0, t.len() - 11) + "Z"@
}

/// The instant `secs` seconds after the Unix epoch written as
/// `%Y-%m-%dT%H:%M:%SZ`.
pub(crate) fn utc_seconds_text_of(secs: i64) -> (s: String)
    requires
        -LTFS_TIME_SPAN <= secs <= LTFS_TIME_SPAN,
    ensures
        s@ == utc_seconds_text(secs),
{
    let full = format_ltfs_timestamp(secs, 0);
    let cs = crate::text::str_to_chars(full.as_str());
    let n = cs.len() - 11;
    let mut v: Vec<char> = Vec::new();
    let mut i: usize = 0;
    while i < n
        invariant
            i <= n <= cs@.len(),
            v@ == cs@.subrange(0, i as int),
        decreases n - i,
    {
        v.push(cs[i]);
        i = i + 1;
        assert(v@ =~= cs@.subrange(0, i as int));
    }
    v.push('Z');
    proof {
        reveal_strlit("Z");
        assert(v@ =~= cs@.subrange(0, n as int) + "Z"@);
    }
    crate::text::chars_to_string(&v)
}

} // verus!
