use vstd::prelude::*;

use crate::paths::{join_path, path_join};

verus! {

/// Nanoseconds in one second.
pub const NANOS_PER_SECOND: i128 = 1_000_000_000;

/// The instant, in nanoseconds since the Unix epoch, that `time` parses out of
/// an RFC 3339 text; `None` where the text is no RFC 3339 timestamp.
pub uninterp spec fn rfc3339_instant(text: Seq<char>) -> Option<i128>;

/// The RFC 3339 text that `time` writes for an instant given in nanoseconds
/// since the Unix epoch; `None` where the instant cannot be represented or
/// formatted.
pub uninterp spec fn rfc3339_text(nanos: i128) -> Option<Seq<char>>;

/// Relies on `time::OffsetDateTime::parse` with the `Rfc3339` description and
/// on `OffsetDateTime::unix_timestamp_nanos`: the parsed instant depends on
/// the text alone.
#[verifier::external_body]
fn parse_rfc3339(text: &str) -> (r: Option<i128>)
    ensures
        r == rfc3339_instant(text@),
{
    time::OffsetDateTime::parse(text, &time::format_description::well_known::Rfc3339)
        .ok()
        .map(|t| t.unix_timestamp_nanos())
}

/// Relies on `time::OffsetDateTime::from_unix_timestamp_nanos` and on
/// `OffsetDateTime::format` with the `Rfc3339` description: the text depends
/// on the instant alone.
#[verifier::external_body]
fn format_rfc3339(nanos: i128) -> (r: Option<String>)
    ensures
        r matches Some(s) ==> rfc3339_text(nanos) == Some(s@),
        r is None ==> rfc3339_text(nanos) is None,
{
    time::OffsetDateTime::from_unix_timestamp_nanos(nanos)
        .ok()
        .and_then(|t| t.format(&time::format_description::well_known::Rfc3339).ok())
}

/// A marker stamped at `stamp` is still fresh at `now`: the stamp is not in
/// the future and the whole seconds elapsed since it are fewer than
/// `max_age_s`.
pub open spec fn fresh(stamp: int, now: int, max_age_s: int) -> bool {
    stamp <= now && (now - stamp) / (NANOS_PER_SECOND as int) < max_age_s
}

/// Whether a marker whose parsed stamp is `stamp` keeps its base valid.
pub open spec fn stamp_ok(stamp: Option<i128>, now: i128, max_age_s: i64) -> bool {
    match stamp {
        Some(t) => fresh(t as int, now as int, max_age_s as int),
        None => false,
    }
}

/// Whether a base whose marker file reads `contents` (`None`: unreadable or
/// missing) is valid at `now`.
pub open spec fn marker_ok(contents: Option<Seq<char>>, now: i128, max_age_s: i64) -> bool {
    match contents {
        Some(text) => stamp_ok(rfc3339_instant(text), now, max_age_s),
        None => false,
    }
}

/// Name of the marker file: in a scratch directory it declares the directory
/// fit to become a base; in a base it holds the time of promotion.
pub open spec fn marker_name() -> Seq<char> {
    seq!['.', 'a', 's', '_', 'b', 'a', 's', 'e']
}

/// A base for overlays: a directory, named by its path.
pub struct Base(pub String);

impl View for Base {
    type V = Seq<char>;

    open spec fn view(&self) -> Seq<char> {
        self.0@
    }
}

impl Base {
    /// Name of the marker file (see `marker_name`).
    pub fn as_base_filename() -> (r: &'static str)
        ensures
            r@ == marker_name(),
    {
        let name = ".as_base";
        proof {
            reveal_strlit(".as_base");
        }
        assert(name@ =~= marker_name());
        name
    }

    /// Path of this base's marker file.
    pub fn as_base_file(&self) -> (r: String)
        ensures
            r@ == path_join(self@, marker_name()),
    {
        join_path(self.0.as_str(), Base::as_base_filename())
    }

    /// A copy of this base.
    pub fn duplicate(&self) -> (r: Base)
        ensures
            r@ == self@,
    {
        Base(self.0.clone())
    }
}

/// Whether a marker stamped at `stamp` (`None`: no parsable stamp) keeps its
/// base valid at `now`.
pub fn stamp_valid(stamp: Option<i128>, now: i128, max_age_s: i64) -> (r: bool)
    ensures
        r == stamp_ok(stamp, now, max_age_s),
{
    match stamp {
        None => false,
        Some(t) => {
            if t > now {
                false
            } else {
                match now.checked_sub(t) {
                    None => {
                        assert((now - t) / (NANOS_PER_SECOND as int) > i64::MAX) by (nonlinear_arith)
                            requires
                                now - t > i128::MAX,
                        ;
                        false
                    },
                    Some(age) => {
                        if max_age_s <= 0 {
                            false
                        } else {
                            let whole = (age as u128) / (NANOS_PER_SECOND as u128);
                            whole < max_age_s as u128
                        }
                    },
                }
            }
        },
    }
}

/// Whether a base whose marker file reads `contents` (`None`: the file could
/// not be read) is valid at `now`.
pub fn marker_valid(contents: Option<&str>, now: i128, max_age_s: i64) -> (r: bool)
    ensures
        r == marker_ok(
            match contents {
                Some(s) => Some(s@),
                None => None,
            },
            now,
            max_age_s,
        ),
{
    match contents {
        None => false,
        Some(text) => stamp_valid(parse_rfc3339(text), now, max_age_s),
    }
}

/// The marker text recording `now` as a promotion time.
pub fn marker_text(now: i128) -> (r: Option<String>)
    ensures
        r matches Some(s) ==> rfc3339_text(now) == Some(s@),
        r is None ==> rfc3339_text(now) is None,
{
    format_rfc3339(now)
}

/// A marker stamped exactly `max_age_s` seconds before `now` is no longer
/// valid: the age must stay strictly below the limit.
pub proof fn lemma_marker_at_limit_invalid(now: i128, max_age_s: i64)
    requires
        now as int - max_age_s as int * NANOS_PER_SECOND as int >= i128::MIN,
    ensures
        ({
            let stamp = (now as int - max_age_s as int * NANOS_PER_SECOND as int) as i128;
            !stamp_ok(Some(stamp), now, max_age_s)
        }),
{
    let m = max_age_s as int;
    assert((m * 1_000_000_000) / 1_000_000_000 == m) by (nonlinear_arith);
}

/// A marker stamped in the future never makes its base valid.
pub proof fn lemma_future_marker_invalid(stamp: i128, now: i128, max_age_s: i64)
    requires
        stamp > now,
    ensures
        !stamp_ok(Some(stamp), now, max_age_s),
{
}

} // verus!
