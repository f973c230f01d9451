//! Laws relating the queries on a desktop snapshot.
use vstd::prelude::*;
use crate::desktop::{displays_in, scale_of, target_of, targets_of, window_lookup, Entry};
use crate::targets::{Display, Target, Window};

verus! {

/// What identifies a target to a caller: whether it is a display, its id and
/// its title.
pub open spec fn identity(t: Target) -> (bool, u32, Seq<char>) {
    match t {
        Target::Window(w) => (false, w.id, w.title@),
        Target::Display(d) => (true, d.id, d.title@),
    }
}

/// What identifies a display to a caller: its id and its title.
pub open spec fn display_identity(d: Display) -> (u32, Seq<char>) {
    (d.id, d.title@)
}

/// Every display that the display-only view lists is a display target of the
/// listing, and every display target of the listing is in the view.
pub proof fn lemma_displays_are_the_display_targets(ts: Seq<Target>)
    ensures
        forall|d: Display| #[trigger] displays_in(ts).contains(d) <==> ts.contains(Target::Display(d)),
    decreases ts.len(),
{
    if ts.len() > 0 {
        let rest = ts.drop_last();
        lemma_displays_are_the_display_targets(rest);
        assert(ts =~= rest.push(ts.last()));
        let r = displays_in(rest);
        assert forall|d: Display| #[trigger] displays_in(ts).contains(d) <==> ts.contains(
            Target::Display(d),
        ) by {
            if ts.contains(Target::Display(d)) {
                let j = choose|j: int| 0 <= j < ts.len() && ts[j] == Target::Display(d);
                if j < ts.len() - 1 {
                    assert(rest[j] == Target::Display(d));
                    assert(rest.contains(Target::Display(d)));
                    assert(displays_in(rest).contains(d));
                    let k = choose|k: int| 0 <= k < r.len() && r[k] == d;
                    match ts.last() {
                        Target::Display(e) => assert(r.push(e)[k] == d),
                        Target::Window(_) => {},
                    }
                } else {
                    assert(r.push(d)[r.len() as int] == d);
                }
            }
            if displays_in(ts).contains(d) {
                let k = choose|k: int| 0 <= k < displays_in(ts).len() && displays_in(ts)[k] == d;
                if k < r.len() {
                    match ts.last() {
                        Target::Display(e) => assert(r.push(e)[k] == r[k]),
                        Target::Window(_) => {},
                    }
                    assert(r.contains(d));
                    let j = choose|j: int| 0 <= j < rest.len() && rest[j] == Target::Display(d);
                    assert(ts[j] == Target::Display(d));
                } else {
                    assert(ts[ts.len() - 1] == Target::Display(d));
                }
            }
        }
    }
}

/// The display-only view keeps the relative order of the listing: the view
/// of two listings one after the other is the view of the first, then that
/// of the second.
pub proof fn lemma_displays_keep_order(a: Seq<Target>, b: Seq<Target>)
    ensures
        displays_in(a + b) == displays_in(a) + displays_in(b),
    decreases b.len(),
{
    if b.len() == 0 {
        assert(a + b =~= a);
        assert(displays_in(a) + displays_in(b) =~= displays_in(a));
    } else {
        lemma_displays_keep_order(a, b.drop_last());
        assert((a + b).drop_last() =~= a + b.drop_last());
        assert((a + b).last() == b.last());
        match b.last() {
            Target::Display(d) => {
                assert(displays_in(a) + displays_in(b) =~= (displays_in(a) + displays_in(
                    b.drop_last(),
                )).push(d));
            },
            Target::Window(_) => {},
        }
    }
}

/// Two listings that report the same targets, up to native handles and
/// metrics, give enumerations that agree in kind, id and title at every
/// position, and display-only views that agree in id and title at every
/// position.
pub proof fn lemma_same_listing_same_targets(a: Seq<Entry>, b: Seq<Entry>)
    requires
        a.len() == b.len(),
        forall|i: int| 0 <= i < a.len() ==> identity(target_of(a[i])) == identity(target_of(b[i])),
    ensures
        targets_of(a).map_values(|t: Target| identity(t)) == targets_of(b).map_values(
            |t: Target| identity(t),
        ),
        displays_in(targets_of(a)).map_values(|d: Display| display_identity(d))
            == displays_in(targets_of(b)).map_values(|d: Display| display_identity(d)),
    decreases a.len(),
{
    assert(targets_of(a).map_values(|t: Target| identity(t)) =~= targets_of(b).map_values(
        |t: Target| identity(t),
    ));
    if a.len() > 0 {
        let a0 = a.drop_last();
        let b0 = b.drop_last();
        lemma_same_listing_same_targets(a0, b0);
        assert(targets_of(a).drop_last() =~= targets_of(a0));
        assert(targets_of(b).drop_last() =~= targets_of(b0));
        let la = target_of(a.last());
        let lb = target_of(b.last());
        assert(identity(la) == identity(lb));
        let ra = displays_in(targets_of(a0));
        let rb = displays_in(targets_of(b0));
        match (la, lb) {
            (Target::Display(da), Target::Display(db)) => {
                assert(displays_in(targets_of(a)) == ra.push(da));
                assert(displays_in(targets_of(b)) == rb.push(db));
                assert(ra.push(da).map_values(|d: Display| display_identity(d)) =~= ra.map_values(
                    |d: Display| display_identity(d),
                ).push(display_identity(da)));
                assert(rb.push(db).map_values(|d: Display| display_identity(d)) =~= rb.map_values(
                    |d: Display| display_identity(d),
                ).push(display_identity(db)));
            },
            (Target::Window(_), Target::Window(_)) => {
                assert(displays_in(targets_of(a)) == ra);
                assert(displays_in(targets_of(b)) == rb);
            },
            _ => {},
        }
    }
}

/// A window's scale factor is that of the display containing it, not one of
/// its own.
pub proof fn lemma_window_scale_is_its_display_scale(entries: Seq<Entry>, w: Window, d: Display)
    requires
        window_lookup(entries, w.id) matches Some(info) && info.display_id == d.id,
    ensures
        scale_of(entries, Target::Window(w)) == scale_of(entries, Target::Display(d)),
{
}

} // verus!
