use vstd::prelude::*;

verus! {

/// A moment as the host's clock reports it: seconds and nanoseconds since the
/// Unix epoch, and the local offset from UTC in seconds.
#[derive(Clone, Copy, Debug, PartialEq, Eq, Structural)]
pub struct LocalStamp {
    pub unix_secs: i64,
    pub nanos: u32,
    pub utc_offset_secs: i32,
}

/// What chrono's strftime-style formatting yields for a template at a moment
/// in a fixed UTC offset; `None` where the template or the moment is refused.
pub uninterp spec fn rendered(template: Seq<char>, unix_secs: int, nanos: int, utc_offset_secs: int) -> Option<Seq<char>>;

/// The rendering of `template` at `now`.
pub open spec fn render_at(template: Seq<char>, now: LocalStamp) -> Option<Seq<char>> {
    rendered(template, now.unix_secs as int, now.nanos as int, now.utc_offset_secs as int)
}

/// Relies on chrono's `FixedOffset::east_opt`, `DateTime::from_timestamp`,
/// `with_timezone` and `DelayedFormat::write_to`: the text depends on the
/// template and the moment alone, and an invalid template gives an error
/// rather than a panic.
#[verifier::external_body]
pub(crate) fn render(template: &str, now: &LocalStamp) -> (r: Option<String>)
    ensures
        r matches Some(s) ==> rendered(template@, now.unix_secs as int, now.nanos as int, now.utc_offset_secs as int) == Some(s@),
        r is None ==> rendered(template@, now.unix_secs as int, now.nanos as int, now.utc_offset_secs as int) is None,
{
    let offset = match chrono::FixedOffset::east_opt(now.utc_offset_secs) {
        Some(o) => o,
        None => return None,
    };
    let moment = match chrono::DateTime::from_timestamp(now.unix_secs, now.nanos) {
        Some(m) => m,
        None => return None,
    };
    let mut out = String::new();
    match moment.with_timezone(&offset).format(template).write_to(&mut out) {
        Ok(()) => Some(out),
        Err(_) => None,
    }
}

} // verus!
