use vstd::prelude::*;

use crate::marker::marker_ok;
use crate::overlays::{after_mount, after_reap, reaped};
use crate::registry::users;

verus! {

/// After a mount, an overlay volume is recorded under the base it is layered
/// on, and a bind-mounted volume (not yet recorded before) is recorded under
/// none.
pub proof fn lemma_mount_outcome(
    reg: Map<Seq<char>, Seq<char>>,
    volume: Seq<char>,
    lower: Option<Seq<char>>,
)
    requires
        !reg.contains_key(volume),
    ensures
        match lower {
            Some(b) => users(after_mount(reg, volume, lower), b).contains(volume),
            None => !after_mount(reg, volume, lower).contains_key(volume),
        },
{
}

/// Mounting a volume and then unmounting it leaves the registry as it was,
/// without that volume.
pub proof fn lemma_mount_unmount_round_trip(
    reg: Map<Seq<char>, Seq<char>>,
    volume: Seq<char>,
    lower: Option<Seq<char>>,
)
    requires
        !reg.contains_key(volume),
    ensures
        after_mount(reg, volume, lower).remove(volume) == reg,
        !after_mount(reg, volume, lower).remove(volume).contains_key(volume),
{
    assert(after_mount(reg, volume, lower).remove(volume) =~= reg);
}

/// The reaper never removes a base that a live volume uses.
pub proof fn lemma_reap_spares_used_bases(
    reg: Map<Seq<char>, Seq<char>>,
    base: Seq<char>,
    marker: Option<Seq<char>>,
    now: i128,
    max_age_s: i64,
    volume: Seq<char>,
)
    requires
        users(reg, base).contains(volume),
    ensures
        !reaped(reg, base, marker, now, max_age_s),
{
}

/// Every base that a reap leaves in place is valid or used by a live volume.
pub proof fn lemma_reap_leaves_only_valid_or_used(
    reg: Map<Seq<char>, Seq<char>>,
    listing: Seq<(Seq<char>, Option<Seq<char>>)>,
    now: i128,
    max_age_s: i64,
)
    ensures
        forall|k: int|
            0 <= k < after_reap(reg, listing, now, max_age_s).len() ==> {
                let e = #[trigger] after_reap(reg, listing, now, max_age_s)[k];
                !marker_ok(e.1, now, max_age_s) ==> !users(reg, e.0).is_empty()
            },
    decreases listing.len(),
{
    if listing.len() > 0 {
        lemma_reap_leaves_only_valid_or_used(reg, listing.drop_last(), now, max_age_s);
        let rest = after_reap(reg, listing.drop_last(), now, max_age_s);
        let kept = after_reap(reg, listing, now, max_age_s);
        assert forall|k: int| 0 <= k < kept.len() implies {
            let e = #[trigger] kept[k];
            !marker_ok(e.1, now, max_age_s) ==> !users(reg, e.0).is_empty()
        } by {
            if k < rest.len() {
                assert(kept[k] == rest[k]);
            }
        }
    }
}

/// Reaping twice in a row, with no mount or unmount between, removes no more
/// than reaping once.
pub proof fn lemma_reap_idempotent(
    reg: Map<Seq<char>, Seq<char>>,
    listing: Seq<(Seq<char>, Option<Seq<char>>)>,
    now: i128,
    max_age_s: i64,
)
    ensures
        after_reap(reg, after_reap(reg, listing, now, max_age_s), now, max_age_s) == after_reap(
            reg,
            listing,
            now,
            max_age_s,
        ),
    decreases listing.len(),
{
    if listing.len() > 0 {
        let rest = after_reap(reg, listing.drop_last(), now, max_age_s);
        lemma_reap_idempotent(reg, listing.drop_last(), now, max_age_s);
        let e = listing.last();
        if !reaped(reg, e.0, e.1, now, max_age_s) {
            assert(rest.push(e).drop_last() =~= rest);
        }
    }
}

} // verus!
