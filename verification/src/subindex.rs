//! Sub-index values and sets of them.
//!
//! A pollutant's sub-index is either a whole number or absent. The overall
//! index of a reading is the greatest sub-index that is present.

use vstd::prelude::*;
use vstd::string::*;

verus! {

/// The highest value of a sub-index that any table gives.
pub const INDEX_MAX: i32 = 500;

/// A sub-index as a mathematical integer, or absent.
pub open spec fn widen(index: Option<i32>) -> Option<int> {
    match index {
        Some(v) => Some(v as int),
        None => None,
    }
}

/// The greater of two sub-indices; an absent one gives way to the other.
pub open spec fn higher(a: Option<int>, b: Option<int>) -> Option<int> {
    match (a, b) {
        (Some(x), Some(y)) => if x >= y {
            Some(x)
        } else {
            Some(y)
        },
        (Some(x), None) => Some(x),
        (None, _) => b,
    }
}

/// The greatest sub-index present in `slots`, absent if none is.
pub open spec fn max_present(slots: Seq<Option<int>>) -> Option<int>
    decreases slots.len(),
{
    if slots.len() == 0 {
        None
    } else {
        higher(max_present(slots.drop_last()), slots.last())
    }
}

/// Whether `m` is the greatest sub-index present in `slots`: it occurs
/// there, and no slot holds a greater one.
pub open spec fn is_greatest(slots: Seq<Option<int>>, m: int) -> bool {
    &&& exists|i: int| 0 <= i < slots.len() && #[trigger] slots[i] == Some(m)
    &&& forall|i: int|
        0 <= i < slots.len() && (#[trigger] slots[i]) is Some ==> slots[i]->0 <= m
}

/// The overall index is the maximum over the sub-indices that are present,
/// and it is absent only when every sub-index is.
pub proof fn lemma_max_present(slots: Seq<Option<int>>)
    ensures
        max_present(slots) is None <==> forall|i: int|
            0 <= i < slots.len() ==> (#[trigger] slots[i]) is None,
        max_present(slots) matches Some(m) ==> is_greatest(slots, m),
    decreases slots.len(),
{
    if slots.len() > 0 {
        let front = slots.drop_last();
        lemma_max_present(front);
        assert(forall|i: int| 0 <= i < front.len() ==> front[i] == slots[i]);
        match max_present(slots) {
            Some(m) => {
                if slots.last() == Some(m) {
                    assert(slots[slots.len() - 1] == Some(m));
                } else {
                    let i = choose|i: int| 0 <= i < front.len() && #[trigger] front[i] == Some(m);
                    assert(slots[i] == Some(m));
                }
                assert forall|i: int|
                    0 <= i < slots.len() && (#[trigger] slots[i]) is Some implies slots[i]->0
                    <= m by {
                    if i < front.len() {
                        assert(front[i] is Some);
                    }
                }
            },
            None => {
                assert forall|i: int| 0 <= i < slots.len() implies (#[trigger] slots[i]) is None by {
                    if i < front.len() {
                        assert(front[i] is None);
                    }
                }
            },
        }
        if forall|i: int| 0 <= i < slots.len() ==> (#[trigger] slots[i]) is None {
            assert(slots[slots.len() - 1] is None);
            assert forall|i: int| 0 <= i < front.len() implies (#[trigger] front[i]) is None by {
                assert(slots[i] is None);
            }
        }
    }
}

/// The greater of two sub-indices; an absent one gives way to the other.
pub fn higher_of(a: Option<i32>, b: Option<i32>) -> (r: Option<i32>)
    ensures
        widen(r) == higher(widen(a), widen(b)),
{
    match (a, b) {
        (Some(x), Some(y)) => if x >= y {
            Some(x)
        } else {
            Some(y)
        },
        (Some(x), None) => Some(x),
        (None, _) => b,
    }
}

/// Appending a slot raises the maximum to the new sub-index if that is
/// greater.
pub proof fn lemma_max_present_push(slots: Seq<Option<int>>, last: Option<int>)
    ensures
        max_present(slots.push(last)) == higher(max_present(slots), last),
{
    assert(slots.push(last).drop_last() =~= slots);
}

/// The greatest of six sub-indices that is present.
pub fn highest_of_six(
    a: Option<i32>,
    b: Option<i32>,
    c: Option<i32>,
    d: Option<i32>,
    e: Option<i32>,
    f: Option<i32>,
) -> (max: Option<i32>)
    ensures
        widen(max) == max_present(
            seq![widen(a), widen(b), widen(c), widen(d), widen(e), widen(f)],
        ),
{
    proof {
        let s0 = Seq::<Option<int>>::empty();
        let s1 = s0.push(widen(a));
        let s2 = s1.push(widen(b));
        let s3 = s2.push(widen(c));
        let s4 = s3.push(widen(d));
        let s5 = s4.push(widen(e));
        let s6 = s5.push(widen(f));
        lemma_max_present_push(s0, widen(a));
        lemma_max_present_push(s1, widen(b));
        lemma_max_present_push(s2, widen(c));
        lemma_max_present_push(s3, widen(d));
        lemma_max_present_push(s4, widen(e));
        lemma_max_present_push(s5, widen(f));
        assert(s6 =~= seq![widen(a), widen(b), widen(c), widen(d), widen(e), widen(f)]);
    }
    let m = higher_of(None, a);
    let m = higher_of(m, b);
    let m = higher_of(m, c);
    let m = higher_of(m, d);
    let m = higher_of(m, e);
    higher_of(m, f)
}

/// The names of the six pollutants, in the order of the slots.
pub open spec fn pollutant_names() -> Seq<Seq<char>> {
    seq!["PM2.5"@, "PM10"@, "SO2"@, "NO2"@, "CO"@, "O3"@]
}

/// The names of the slots whose sub-index is exactly `m`, in slot order.
pub open spec fn tied_names(slots: Seq<Option<int>>, names: Seq<Seq<char>>, m: int) -> Seq<
    Seq<char>,
>
    decreases slots.len(),
{
    if slots.len() == 0 {
        Seq::empty()
    } else {
        let before = tied_names(slots.drop_last(), names, m);
        if slots.last() == Some(m) {
            before.push(names[slots.len() - 1])
        } else {
            before
        }
    }
}

/// What a vector of strings holds, as character sequences.
pub open spec fn texts(strings: Seq<String>) -> Seq<Seq<char>> {
    Seq::new(strings.len(), |i: int| strings[i]@)
}

/// Appending a slot appends its name if the slot holds `m`.
pub proof fn lemma_tied_names_push(
    slots: Seq<Option<int>>,
    names: Seq<Seq<char>>,
    m: int,
    last: Option<int>,
)
    ensures
        tied_names(slots.push(last), names, m) == if last == Some(m) {
            tied_names(slots, names, m).push(names[slots.len() as int])
        } else {
            tied_names(slots, names, m)
        },
{
    assert(slots.push(last).drop_last() =~= slots);
}

/// Appends `name` to `out` if `slot` holds `m`.
fn push_if_tied(out: &mut Vec<String>, slot: Option<i32>, m: i32, name: &str)
    ensures
        texts(final(out)@) == if widen(slot) == Some(m as int) {
            texts(old(out)@).push(name@)
        } else {
            texts(old(out)@)
        },
{
    if let Some(v) = slot {
        if v == m {
            out.push(String::from_str(name));
            assert(texts(out@) =~= texts(old(out)@).push(name@));
        }
    }
}

/// The names of those of six sub-indices that are exactly `m`, in the
/// order PM2.5, PM10, SO2, NO2, CO, O3.
pub fn names_tied_at(
    a: Option<i32>,
    b: Option<i32>,
    c: Option<i32>,
    d: Option<i32>,
    e: Option<i32>,
    f: Option<i32>,
    m: i32,
) -> (names: Vec<String>)
    ensures
        texts(names@) == tied_names(
            seq![widen(a), widen(b), widen(c), widen(d), widen(e), widen(f)],
            pollutant_names(),
            m as int,
        ),
{
    let mut out: Vec<String> = Vec::new();
    assert(texts(out@) =~= Seq::<Seq<char>>::empty());
    push_if_tied(&mut out, a, m, "PM2.5");
    push_if_tied(&mut out, b, m, "PM10");
    push_if_tied(&mut out, c, m, "SO2");
    push_if_tied(&mut out, d, m, "NO2");
    push_if_tied(&mut out, e, m, "CO");
    push_if_tied(&mut out, f, m, "O3");
    proof {
        let names = pollutant_names();
        let s0 = Seq::<Option<int>>::empty();
        let s1 = s0.push(widen(a));
        let s2 = s1.push(widen(b));
        let s3 = s2.push(widen(c));
        let s4 = s3.push(widen(d));
        let s5 = s4.push(widen(e));
        let s6 = s5.push(widen(f));
        lemma_tied_names_push(s0, names, m as int, widen(a));
        lemma_tied_names_push(s1, names, m as int, widen(b));
        lemma_tied_names_push(s2, names, m as int, widen(c));
        lemma_tied_names_push(s3, names, m as int, widen(d));
        lemma_tied_names_push(s4, names, m as int, widen(e));
        lemma_tied_names_push(s5, names, m as int, widen(f));
        assert(s6 =~= seq![widen(a), widen(b), widen(c), widen(d), widen(e), widen(f)]);
    }
    out
}

/// No two pollutants have the same name.
pub proof fn lemma_pollutant_names_distinct()
    ensures
        pollutant_names().len() == 6,
        pollutant_names().no_duplicates(),
{
    reveal_strlit("PM2.5");
    reveal_strlit("PM10");
    reveal_strlit("SO2");
    reveal_strlit("NO2");
    reveal_strlit("CO");
    reveal_strlit("O3");
    let names = pollutant_names();
    assert(names[0][2] != names[1][2]);
    assert(names[0][0] != names[2][0]);
    assert(names[0][0] != names[3][0]);
    assert(names[0][0] != names[4][0]);
    assert(names[0][0] != names[5][0]);
    assert(names[1][0] != names[2][0]);
    assert(names[1][0] != names[3][0]);
    assert(names[1][0] != names[4][0]);
    assert(names[1][0] != names[5][0]);
    assert(names[2][0] != names[3][0]);
    assert(names[2][0] != names[4][0]);
    assert(names[2][0] != names[5][0]);
    assert(names[3][0] != names[4][0]);
    assert(names[3][0] != names[5][0]);
    assert(names[4][0] != names[5][0]);
}

/// A name is among the tied names exactly when it is the name of a slot
/// that holds `m`.
pub proof fn lemma_tied_names(slots: Seq<Option<int>>, names: Seq<Seq<char>>, m: int)
    ensures
        forall|n: Seq<char>| #[trigger]
            tied_names(slots, names, m).contains(n) <==> exists|j: int|
                0 <= j < slots.len() && #[trigger] names[j] == n && slots[j] == Some(m),
    decreases slots.len(),
{
    let tied = tied_names(slots, names, m);
    if slots.len() == 0 {
        assert forall|n: Seq<char>| !#[trigger] tied.contains(n) by {}
    } else {
        let front = slots.drop_last();
        let before = tied_names(front, names, m);
        let last = slots.len() - 1;
        lemma_tied_names(front, names, m);
        assert forall|n: Seq<char>| #[trigger]
            tied.contains(n) <==> exists|j: int|
                0 <= j < slots.len() && #[trigger] names[j] == n && slots[j] == Some(m) by {
            if tied.contains(n) {
                let p = choose|p: int| 0 <= p < tied.len() && tied[p] == n;
                if slots.last() == Some(m) && p == before.len() {
                    assert(names[last] == n && slots[last] == Some(m));
                } else {
                    assert(before[p] == n);
                    assert(before.contains(n));
                    let j = choose|j: int|
                        0 <= j < front.len() && #[trigger] names[j] == n && front[j] == Some(m);
                    assert(names[j] == n && slots[j] == Some(m));
                }
            }
            if exists|j: int|
                0 <= j < slots.len() && #[trigger] names[j] == n && slots[j] == Some(m) {
                let j = choose|j: int|
                    0 <= j < slots.len() && #[trigger] names[j] == n && slots[j] == Some(m);
                if j == last {
                    assert(tied == before.push(names[last]));
                    assert(tied[before.len() as int] == n);
                } else {
                    assert(names[j] == n && front[j] == Some(m));
                    assert(before.contains(n));
                    let p = choose|p: int| 0 <= p < before.len() && before[p] == n;
                    assert(tied[p] == n);
                }
            }
        }
    }
}

/// Among six slots, a pollutant is named exactly when its own slot holds
/// `m`: every pollutant tied at `m` is named, and no other.
pub proof fn lemma_tied_pollutants(slots: Seq<Option<int>>, m: int, i: int)
    requires
        slots.len() == 6,
        0 <= i < 6,
    ensures
        tied_names(slots, pollutant_names(), m).contains(pollutant_names()[i]) <==> slots[i]
            == Some(m),
{
    let names = pollutant_names();
    lemma_pollutant_names_distinct();
    lemma_tied_names(slots, names, m);
    if tied_names(slots, names, m).contains(names[i]) {
        let j = choose|j: int|
            0 <= j < slots.len() && #[trigger] names[j] == names[i] && slots[j] == Some(m);
        assert(j == i);
    }
    if slots[i] == Some(m) {
        assert(names[i] == names[i] && slots[i] == Some(m));
    }
}

} // verus!
