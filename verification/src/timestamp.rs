//! Timestamps in RFC 3339 form and their short display.

use vstd::prelude::*;

verus! {

/// Whether chrono's `DateTime::parse_from_rfc3339` accepts `text`.
pub uninterp spec fn is_rfc3339(text: Seq<char>) -> bool;

/// What chrono's `DateTime::format` displays under `pattern` for the date
/// and time that `DateTime::parse_from_rfc3339` reads from `text`, in the
/// offset that `text` itself gives.
pub uninterp spec fn reformatted(text: Seq<char>, pattern: Seq<char>) -> Seq<char>;

/// Month, day, time of day and milliseconds: `MM-DD HH:MM:SS.mmm`.
pub open spec fn short_pattern() -> Seq<char> {
    "%m-%d %T%.3f"@
}

/// The shape `MM-DD HH:MM:SS.mmm`: eighteen characters, all of them digits
/// but for the five that part the fields.
pub open spec fn is_short_display(shown: Seq<char>) -> bool {
    &&& shown.len() == 18
    &&& shown[2] == '-'
    &&& shown[5] == ' '
    &&& shown[8] == ':'
    &&& shown[11] == ':'
    &&& shown[14] == '.'
    &&& forall|i: int|
        0 <= i < 18 && i != 2 && i != 5 && i != 8 && i != 11 && i != 14 ==> '0' <= (
        #[trigger] shown[i]) <= '9'
}

/// The short display of a timestamp, where it is one.
pub open spec fn short_time_spec(text: Seq<char>) -> Option<Seq<char>> {
    if is_rfc3339(text) {
        Some(reformatted(text, short_pattern()))
    } else {
        None
    }
}

/// Parses `text` with chrono's `DateTime::parse_from_rfc3339` and writes the
/// result with `DateTime::format` under `pattern`, through the `write_to` of
/// what `format` returns, so that an error of the display comes back as
/// `None` and nothing panics.
///
/// The contract claims: `Some` comes back only for a text that parses; for
/// such a text and [`short_pattern`] it always comes back, since that
/// pattern holds only items chrono knows and a `DateTime` has every field
/// they ask for; what comes back is what the two names say; and under
/// [`short_pattern`] it has the shape [`is_short_display`], since chrono
/// writes `%m`, `%d` and the three fields of `%T` with two digits each and
/// `%.3f` as a point and three digits.
#[verifier::external_body]
fn reformat(text: &str, pattern: &str) -> (r: Option<String>)
    ensures
        r is Some ==> is_rfc3339(text@),
        is_rfc3339(text@) && pattern@ == short_pattern() ==> r is Some,
        r matches Some(shown) ==> shown@ == reformatted(text@, pattern@),
        r matches Some(shown) ==> pattern@ == short_pattern() ==> is_short_display(shown@),
{
    match chrono::DateTime::parse_from_rfc3339(text) {
        Ok(instant) => {
            let mut shown = String::new();
            match instant.format(pattern).write_to(&mut shown) {
                Ok(()) => Some(shown),
                Err(_) => None,
            }
        },
        Err(_) => None,
    }
}

/// The short display of `text` where it is an RFC 3339 timestamp, `None`
/// where it is not.
pub fn short_time(text: &str) -> (r: Option<String>)
    ensures
        r is Some <==> short_time_spec(text@) is Some,
        r matches Some(shown) ==> Some(shown@) == short_time_spec(text@) && is_short_display(
            shown@,
        ),
{
    reformat(text, "%m-%d %T%.3f")
}

} // verus!
