//! Precedence: which of the celebrations that meet on one day is kept, and
//! which of the others are commemorated.
//!
//! The table of precedence, in short:
//!  1. Easter, the Triduum, Christmas, Pentecost
//!  2. Sundays of the first class
//!  3. Ash Wednesday and the ferias of Holy Week
//!  4. Feasts of the first class
//!  5. Feasts of the Lord of the second class
//!  6. Sundays of the second class
//!  7. Feasts of the second class
//!  8. Privileged ferias
//!  9. Feasts of the third class
//! 10. Ferias of Advent from 17 to 23 December
//! 11. Ordinary ferias and the fourth class

use crate::types::{celebration_views, Celebration, CelebrationRank, CelebrationView};
use vstd::prelude::*;

verus! {

/// Whether `a` takes precedence over `b`: by the lower precedence number,
/// and among equals by the higher rank.
pub open spec fn outranks(a: CelebrationView, b: CelebrationView) -> bool {
    a.precedence < b.precedence || (a.precedence == b.precedence && a.rank.value()
        < b.rank.value())
}

/// The place at which `c` joins a list already in order of precedence:
/// behind every celebration that it does not outrank, so that among equals
/// the one that came first stays first.
pub open spec fn insertion_point(sorted: Seq<CelebrationView>, c: CelebrationView) -> int
    decreases sorted.len(),
{
    if sorted.len() > 0 && outranks(c, sorted.last()) {
        insertion_point(sorted.drop_last(), c)
    } else {
        sorted.len() as int
    }
}

/// The celebrations of `s` in order of precedence, the highest first; those
/// of equal precedence and rank keep the order they have in `s`.
pub open spec fn by_precedence(s: Seq<CelebrationView>) -> Seq<CelebrationView>
    decreases s.len(),
{
    if s.len() == 0 {
        Seq::empty()
    } else {
        let sorted = by_precedence(s.drop_last());
        sorted.insert(insertion_point(sorted, s.last()), s.last())
    }
}

/// The celebrations of `s` that are commemorated when they are not kept:
/// all but those of the rank of an ordinary feria, in their order.
pub open spec fn commemorated(s: Seq<CelebrationView>) -> Seq<CelebrationView>
    decreases s.len(),
{
    if s.len() == 0 {
        Seq::empty()
    } else if s.last().rank == CelebrationRank::Feria {
        commemorated(s.drop_last())
    } else {
        commemorated(s.drop_last()).push(s.last())
    }
}

/// The celebration kept on a day and the celebrations commemorated, given
/// the celebration of the temporal cycle and those of the sanctoral cycle.
///
/// All of them are put in order of precedence, the temporal one counting as
/// the first among equals. The first is kept; of the rest, all are
/// commemorated but ordinary ferias.
pub open spec fn resolve(temporal: CelebrationView, sanctoral: Seq<CelebrationView>) -> (
    CelebrationView,
    Seq<CelebrationView>,
) {
    let sorted = by_precedence(seq![temporal] + sanctoral);
    (sorted[0], commemorated(sorted.skip(1)))
}

/// Whether no celebration of `s` is outranked by one that stands behind it.
pub open spec fn in_order(s: Seq<CelebrationView>) -> bool {
    forall|i: int, j: int| 0 <= i < j < s.len() ==> !outranks(s[j], s[i])
}

/// Where a celebration joins a list: every celebration before the place is
/// not outranked by it, every one from the place on is.
pub proof fn lemma_insertion_point(sorted: Seq<CelebrationView>, c: CelebrationView)
    ensures
        0 <= insertion_point(sorted, c) <= sorted.len(),
        forall|j: int| insertion_point(sorted, c) <= j < sorted.len() ==> outranks(c, sorted[j]),
        insertion_point(sorted, c) > 0 ==> !outranks(c, sorted[insertion_point(sorted, c) - 1]),
    decreases sorted.len(),
{
    if sorted.len() > 0 && outranks(c, sorted.last()) {
        let rest = sorted.drop_last();
        lemma_insertion_point(rest, c);
        let p = insertion_point(sorted, c);
        assert forall|j: int| p <= j < sorted.len() implies outranks(c, sorted[j]) by {
            if j < rest.len() {
                assert(sorted[j] == rest[j]);
            }
        }
        if p > 0 {
            assert(sorted[p - 1] == rest[p - 1]);
        }
    }
}

/// Ordering by precedence keeps every celebration, each as often as it
/// occurs, and leaves none outranked by a later one.
pub proof fn lemma_by_precedence(s: Seq<CelebrationView>)
    ensures
        by_precedence(s).len() == s.len(),
        by_precedence(s).to_multiset() == s.to_multiset(),
        in_order(by_precedence(s)),
    decreases s.len(),
{
    if s.len() == 0 {
        assert(s =~= Seq::empty());
    } else {
        let rest = s.drop_last();
        let c = s.last();
        lemma_by_precedence(rest);
        let sorted = by_precedence(rest);
        let p = insertion_point(sorted, c);
        lemma_insertion_point(sorted, c);
        let out = sorted.insert(p, c);
        assert(out == by_precedence(s));
        // The same celebrations.
        assert(s =~= rest.push(c));
        vstd::seq_lib::to_multiset_build(rest, c);
        vstd::seq_lib::to_multiset_insert(sorted, p, c);
        // In order.
        assert forall|i: int, j: int| 0 <= i < j < out.len() implies !outranks(out[j], out[i]) by {
            if j == p {
                // `c` behind an earlier one: it does not outrank the one
                // just before it, and that one is not outranked by those
                // before it.
                assert(out[i] == sorted[i]);
                if outranks(c, sorted[i]) {
                    assert(!outranks(c, sorted[p - 1]));
                    assert(!outranks(sorted[p - 1], sorted[i]) || i == p - 1);
                }
            } else if i == p {
                assert(out[j] == sorted[j - 1]);
                assert(outranks(c, sorted[j - 1]));
            } else {
                let a = if i < p {
                    i
                } else {
                    i - 1
                };
                let b = if j < p {
                    j
                } else {
                    j - 1
                };
                assert(out[i] == sorted[a] && out[j] == sorted[b]);
            }
        }
    }
}

/// Whether `a` and `b` stand at the same place in the order of precedence:
/// neither outranks the other.
pub open spec fn same_standing(a: CelebrationView, b: CelebrationView) -> bool {
    a.precedence == b.precedence && a.rank.value() == b.rank.value()
}

/// The celebrations of `s` that stand where `c` stands, in their order.
pub open spec fn peers(s: Seq<CelebrationView>, c: CelebrationView) -> Seq<CelebrationView>
    decreases s.len(),
{
    if s.len() == 0 {
        Seq::empty()
    } else if same_standing(s.last(), c) {
        peers(s.drop_last(), c).push(s.last())
    } else {
        peers(s.drop_last(), c)
    }
}

/// What a celebration that joins a list does to the peers of `c`: nothing
/// if it is no peer of `c`; and if it is one and no peer stands behind the
/// place where it joins, it becomes the last of them.
proof fn lemma_peers_joined(
    sorted: Seq<CelebrationView>,
    p: int,
    x: CelebrationView,
    c: CelebrationView,
)
    requires
        0 <= p <= sorted.len(),
        same_standing(x, c) ==> forall|j: int|
            p <= j < sorted.len() ==> !same_standing(#[trigger] sorted[j], c),
    ensures
        peers(sorted.insert(p, x), c) == if same_standing(x, c) {
            peers(sorted, c).push(x)
        } else {
            peers(sorted, c)
        },
    decreases sorted.len() - p,
{
    let joined = sorted.insert(p, x);
    if p == sorted.len() {
        assert(joined =~= sorted.push(x));
        assert(joined.drop_last() =~= sorted);
    } else {
        let rest = sorted.drop_last();
        assert(joined.drop_last() =~= rest.insert(p, x));
        assert(joined.last() == sorted.last());
        assert forall|j: int| p <= j < rest.len() implies rest[j] == sorted[j] by {}
        lemma_peers_joined(rest, p, x, c);
        if same_standing(x, c) {
            assert(!same_standing(sorted[sorted.len() - 1], c));
        }
    }
}

/// Ordering by precedence is stable: the celebrations that stand at the
/// same place keep the order in which they were given.
pub proof fn lemma_by_precedence_stable(s: Seq<CelebrationView>, c: CelebrationView)
    ensures
        peers(by_precedence(s), c) == peers(s, c),
    decreases s.len(),
{
    if s.len() > 0 {
        let rest = s.drop_last();
        let x = s.last();
        let sorted = by_precedence(rest);
        let p = insertion_point(sorted, x);
        lemma_by_precedence_stable(rest, c);
        lemma_insertion_point(sorted, x);
        lemma_peers_joined(sorted, p, x, c);
    }
}

/// No ordinary feria is commemorated, and every commemoration is one of the
/// celebrations given.
pub proof fn lemma_commemorated(s: Seq<CelebrationView>)
    ensures
        forall|i: int|
            0 <= i < commemorated(s).len() ==> (#[trigger] commemorated(s)[i]).rank
                != CelebrationRank::Feria && s.contains(commemorated(s)[i]),
        commemorated(s).len() <= s.len(),
    decreases s.len(),
{
    if s.len() > 0 {
        let rest = s.drop_last();
        lemma_commemorated(rest);
        assert forall|i: int| 0 <= i < commemorated(s).len() implies (#[trigger] commemorated(
            s,
        )[i]).rank != CelebrationRank::Feria && s.contains(commemorated(s)[i]) by {
            if i < commemorated(rest).len() {
                let c = commemorated(rest)[i];
                assert(rest.contains(c));
                let k = choose|k: int| 0 <= k < rest.len() && rest[k] == c;
                assert(s[k] == c);
            } else {
                assert(commemorated(s)[i] == s[s.len() - 1]);
            }
        }
    }
}

/// The views of a sequence of borrowed celebrations, in order.
spec fn borrowed_views(s: Seq<&Celebration>) -> Seq<CelebrationView> {
    s.map_values(|c: &Celebration| c@)
}

/// Whether `a` takes precedence over `b`.
pub fn takes_precedence(a: &Celebration, b: &Celebration) -> (r: bool)
    ensures
        r == outranks(a@, b@),
{
    a.precedence < b.precedence || (a.precedence == b.precedence && a.rank.precedence_value()
        < b.rank.precedence_value())
}

/// The celebration kept on a day and the celebrations commemorated, given
/// the celebration of the temporal cycle and those of the sanctoral cycle
/// that fall on the day.
pub fn resolve_precedence(
    temporal_celebration: &Celebration,
    sanctoral_celebrations: &[Celebration],
) -> (r: (Celebration, Vec<Celebration>))
    ensures
        (r.0@, celebration_views(r.1@)) == resolve(
            temporal_celebration@,
            celebration_views(sanctoral_celebrations@),
        ),
{
    let ghost given = celebration_views(sanctoral_celebrations@);
    let ghost first = seq![temporal_celebration@];
    let mut all: Vec<&Celebration> = Vec::new();
    all.push(temporal_celebration);
    proof {
        assert(given.take(0) =~= Seq::empty());
        assert(first + given.take(0) =~= first);
        assert(first.drop_last() =~= Seq::empty());
        assert(by_precedence(first.drop_last()) =~= Seq::empty());
        assert(by_precedence(first) =~= first);
        assert(borrowed_views(all@) =~= first);
    }

    // Each celebration takes its place behind those it does not outrank.
    let mut i: usize = 0;
    while i < sanctoral_celebrations.len()
        invariant
            i <= sanctoral_celebrations@.len(),
            given == celebration_views(sanctoral_celebrations@),
            first == seq![temporal_celebration@],
            all@.len() == i + 1,
            borrowed_views(all@) == by_precedence(first + given.take(i as int)),
        decreases sanctoral_celebrations@.len() - i,
    {
        let c = &sanctoral_celebrations[i];
        let ghost sorted = borrowed_views(all@);
        let mut pos: usize = all.len();
        proof {
            assert(sorted.take(pos as int) =~= sorted);
        }
        while pos > 0 && takes_precedence(c, all[pos - 1])
            invariant
                pos <= all@.len(),
                sorted == borrowed_views(all@),
                insertion_point(sorted, c@) == insertion_point(sorted.take(pos as int), c@),
            decreases pos,
        {
            proof {
                let part = sorted.take(pos as int);
                assert(part.last() == all@[pos - 1]@);
                assert(part.drop_last() =~= sorted.take(pos - 1));
            }
            pos -= 1;
        }
        proof {
            let part = sorted.take(pos as int);
            if pos > 0 {
                assert(part.last() == all@[pos - 1]@);
            }
            assert(insertion_point(sorted, c@) == pos);
            let before = first + given.take(i as int);
            let now = first + given.take(i + 1);
            assert(now.last() == c@);
            assert(now.drop_last() =~= before);
            assert(borrowed_views(all@.insert(pos as int, c)) =~= sorted.insert(pos as int, c@));
        }
        all.insert(pos, c);
        i += 1;
    }

    let ghost sorted = borrowed_views(all@);
    proof {
        assert(given.take(i as int) =~= given);
    }
    let winner = all[0].clone();
    let mut commemorations: Vec<Celebration> = Vec::new();
    proof {
        assert(sorted.subrange(1, 1) =~= Seq::empty());
        assert(celebration_views(commemorations@) =~= Seq::empty());
    }

    // Those that lose are commemorated, but for ordinary ferias. A feast of
    // the first class that loses is commemorated too, not transferred.
    let mut k: usize = 1;
    while k < all.len()
        invariant
            1 <= k <= all@.len(),
            sorted == borrowed_views(all@),
            celebration_views(commemorations@) == commemorated(sorted.subrange(1, k as int)),
        decreases all@.len() - k,
    {
        let c = all[k];
        let ghost before = celebration_views(commemorations@);
        proof {
            let part = sorted.subrange(1, k + 1);
            assert(part.last() == c@);
            assert(part.drop_last() =~= sorted.subrange(1, k as int));
        }
        match c.rank {
            CelebrationRank::ClassI => {
                commemorations.push(c.clone());
            },
            CelebrationRank::ClassII | CelebrationRank::ClassIII
            | CelebrationRank::FeriaPrivileged => {
                commemorations.push(c.clone());
            },
            CelebrationRank::ClassIV => {
                commemorations.push(c.clone());
            },
            CelebrationRank::Feria => {},
        }
        proof {
            if c.rank != CelebrationRank::Feria {
                assert(celebration_views(commemorations@) =~= before.push(c@));
            }
        }
        k += 1;
    }
    proof {
        assert(sorted.subrange(1, k as int) =~= sorted.skip(1));
    }
    (winner, commemorations)
}

/// A celebration of the first class of the temporal cycle that meets one of
/// the third class of the sanctoral cycle is kept, and the other is
/// commemorated, unless the other has the lower precedence number.
pub proof fn lemma_first_class_keeps_its_day(temporal: CelebrationView, saint: CelebrationView)
    requires
        temporal.rank == CelebrationRank::ClassI,
        saint.rank == CelebrationRank::ClassIII,
        temporal.precedence <= saint.precedence,
    ensures
        resolve(temporal, seq![saint]) == (temporal, seq![saint]),
{
    lemma_resolve_pair(temporal, saint);
}

/// An ordinary feria that gives way to a feast of the third class leaves no
/// trace: the feast is kept and nothing is commemorated.
pub proof fn lemma_feria_is_dropped(temporal: CelebrationView, saint: CelebrationView)
    requires
        temporal.rank == CelebrationRank::Feria,
        saint.rank == CelebrationRank::ClassIII,
        saint.precedence <= temporal.precedence,
    ensures
        resolve(temporal, seq![saint]) == (saint, Seq::<CelebrationView>::empty()),
{
    lemma_resolve_pair(temporal, saint);
}

/// What is kept and what is commemorated when one celebration of the
/// sanctoral cycle meets that of the temporal cycle: the sanctoral one is
/// kept if it outranks the other, else the temporal one; the other is
/// commemorated unless it is an ordinary feria.
pub proof fn lemma_resolve_pair(temporal: CelebrationView, saint: CelebrationView)
    ensures
        resolve(temporal, seq![saint]) == if outranks(saint, temporal) {
            (saint, commemorated(seq![temporal]))
        } else {
            (temporal, commemorated(seq![saint]))
        },
        commemorated(seq![temporal]) == if temporal.rank == CelebrationRank::Feria {
            Seq::<CelebrationView>::empty()
        } else {
            seq![temporal]
        },
        commemorated(seq![saint]) == if saint.rank == CelebrationRank::Feria {
            Seq::<CelebrationView>::empty()
        } else {
            seq![saint]
        },
{
    let one = seq![temporal];
    let both = seq![temporal] + seq![saint];
    assert(one.drop_last() =~= Seq::empty());
    assert(by_precedence(one.drop_last()) =~= Seq::empty());
    assert(by_precedence(one) =~= one);
    assert(both.drop_last() =~= one);
    assert(both.last() == saint);
    assert(one.last() == temporal);
    assert(insertion_point(one.drop_last(), saint) == 0);
    let sorted = by_precedence(both);
    if outranks(saint, temporal) {
        assert(insertion_point(one, saint) == 0);
        assert(sorted =~= seq![saint, temporal]);
        assert(sorted.skip(1) =~= seq![temporal]);
    } else {
        assert(insertion_point(one, saint) == 1);
        assert(sorted =~= seq![temporal, saint]);
        assert(sorted.skip(1) =~= seq![saint]);
    }
    lemma_commemorated_one(temporal);
    lemma_commemorated_one(saint);
}

/// Of a single celebration, it is commemorated unless it is an ordinary
/// feria.
proof fn lemma_commemorated_one(c: CelebrationView)
    ensures
        commemorated(seq![c]) == if c.rank == CelebrationRank::Feria {
            Seq::<CelebrationView>::empty()
        } else {
            seq![c]
        },
{
    let s = seq![c];
    assert(s.drop_last() =~= Seq::empty());
    assert(commemorated(s.drop_last()) =~= Seq::empty());
    if c.rank != CelebrationRank::Feria {
        assert(commemorated(s) =~= seq![c]);
    }
}

/// The celebration kept is one of those that met, and none of them
/// outranks it; the commemorations are among them too, and none of them is
/// an ordinary feria.
pub proof fn lemma_resolve(temporal: CelebrationView, sanctoral: Seq<CelebrationView>)
    ensures
        ({
            let all = seq![temporal] + sanctoral;
            let (kept, commemorations) = resolve(temporal, sanctoral);
            &&& all.contains(kept)
            &&& forall|i: int| 0 <= i < all.len() ==> !outranks(#[trigger] all[i], kept)
            &&& forall|i: int|
                0 <= i < commemorations.len() ==> (#[trigger] commemorations[i]).rank
                    != CelebrationRank::Feria && all.contains(commemorations[i])
            &&& commemorations.len() < all.len()
        }),
{
    let all = seq![temporal] + sanctoral;
    let sorted = by_precedence(all);
    let (kept, commemorations) = resolve(temporal, sanctoral);
    lemma_by_precedence(all);
    lemma_commemorated(sorted.skip(1));
    lemma_same_members(sorted, all);
    assert(sorted[0] == kept);
    assert(sorted.contains(kept));
    assert forall|i: int| 0 <= i < all.len() implies !outranks(#[trigger] all[i], kept) by {
        assert(all.contains(all[i]));
        assert(sorted.contains(all[i]));
        let j = choose|j: int| 0 <= j < sorted.len() && sorted[j] == all[i];
        if j > 0 {
            assert(!outranks(sorted[j], sorted[0]));
        }
    }
    assert forall|i: int| 0 <= i < commemorations.len() implies (#[trigger] commemorations[i]).rank
        != CelebrationRank::Feria && all.contains(commemorations[i]) by {
        let c = commemorations[i];
        assert(sorted.skip(1).contains(c));
        let j = choose|j: int| 0 <= j < sorted.skip(1).len() && sorted.skip(1)[j] == c;
        assert(sorted[j + 1] == c);
        assert(sorted.contains(c));
    }
}

/// Two sequences that hold the same elements equally often have the same
/// members.
proof fn lemma_same_members(a: Seq<CelebrationView>, b: Seq<CelebrationView>)
    requires
        a.to_multiset() == b.to_multiset(),
    ensures
        forall|x: CelebrationView| a.contains(x) <==> b.contains(x),
{
    a.to_multiset_ensures();
    b.to_multiset_ensures();
    assert forall|x: CelebrationView| a.contains(x) <==> b.contains(x) by {
        assert(a.contains(x) <==> a.to_multiset().count(x) > 0);
        assert(b.contains(x) <==> b.to_multiset().count(x) > 0);
    }
}

} // verus!
