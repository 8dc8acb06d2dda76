//! The comparison of a collection with its snapshot: whether it changed, and
//! by which records the two differ.

use vstd::prelude::*;
use vstd::std_specs::cmp::PartialEqSpec;

verus! {

/// Some record of `records` compares equal to `x`.
pub open spec fn occurs<T: PartialEq>(records: Seq<T>, x: T) -> bool {
    exists|j: int| 0 <= j < records.len() && #[trigger] records[j].eq_spec(&x)
}

/// The two collections have the same length and agree at every index.
pub open spec fn unchanged<T: PartialEq>(cached: Seq<T>, current: Seq<T>) -> bool {
    &&& cached.len() == current.len()
    &&& forall|i: int| 0 <= i < current.len() ==> #[trigger] current[i].eq_spec(&cached[i])
}

/// The records of `records` that do not occur in `other`, in their order.
pub open spec fn missing_from<T: PartialEq>(records: Seq<T>, other: Seq<T>) -> Seq<T> {
    records.filter(|x: T| !occurs(other, x))
}

/// The records that occur in exactly one of the two collections: first those
/// only in `current`, then those only in `cached`.
pub open spec fn symmetric_difference<T: PartialEq>(cached: Seq<T>, current: Seq<T>) -> Seq<T> {
    missing_from(current, cached) + missing_from(cached, current)
}

/// Filtering one more record keeps it exactly when the predicate holds of it.
proof fn lemma_filter_step<T>(s: Seq<T>, pred: spec_fn(T) -> bool, i: int)
    requires
        0 <= i < s.len(),
    ensures
        s.take(i + 1).filter(pred) == if pred(s[i]) {
            s.take(i).filter(pred).push(s[i])
        } else {
            s.take(i).filter(pred)
        },
{
    reveal(Seq::filter);
    assert(s.take(i + 1).drop_last() == s.take(i));
}

/// Whether some record of `records` compares equal to `x`.
fn contains<T: PartialEq>(records: &Vec<T>, x: &T) -> (found: bool)
    ensures
        T::obeys_eq_spec() ==> found == occurs(records@, *x),
{
    let mut j: usize = 0;
    while j < records.len()
        invariant
            j <= records.len(),
            T::obeys_eq_spec() ==> forall|k: int| 0 <= k < j ==> !#[trigger] records[k].eq_spec(x),
        decreases records.len() - j,
    {
        if records[j] == *x {
            return true;
        }
        j += 1;
    }
    false
}

/// Whether the current collection differs from the cached one: in length, or
/// at some index.
///
/// What is said of records that compare equal holds of a record type whose
/// `==` is the equality that its specification states.
pub fn changed<T: PartialEq>(cached: &Vec<T>, current: &Vec<T>) -> (verdict: bool)
    ensures
        cached.len() != current.len() ==> verdict,
        T::obeys_eq_spec() ==> verdict == !unchanged(cached@, current@),
        T::obeys_eq_spec() && cached.len() == current.len() && (forall|i: int|
            0 <= i < current.len() ==> #[trigger] current[i].eq_spec(&cached[i])) ==> !verdict,
{
    if current.len() != cached.len() {
        return true;
    }
    let mut i: usize = 0;
    while i < current.len()
        invariant
            current.len() == cached.len(),
            i <= current.len(),
            T::obeys_eq_spec() ==> forall|k: int|
                0 <= k < i ==> #[trigger] current[k].eq_spec(&cached[k]),
        decreases current.len() - i,
    {
        if current[i] != cached[i] {
            return true;
        }
        i += 1;
    }
    false
}

/// For each record of `records`, whether it is absent from `other`.
fn absent_flags<T: PartialEq>(records: &Vec<T>, other: &Vec<T>) -> (flags: Vec<bool>)
    ensures
        flags.len() == records.len(),
        T::obeys_eq_spec() ==> forall|i: int|
            0 <= i < records.len() ==> flags[i] == !occurs(other@, #[trigger] records[i]),
{
    let mut flags: Vec<bool> = Vec::new();
    let mut i: usize = 0;
    while i < records.len()
        invariant
            i <= records.len(),
            flags.len() == i,
            T::obeys_eq_spec() ==> forall|k: int|
                0 <= k < i ==> flags[k] == !occurs(other@, #[trigger] records[k]),
        decreases records.len() - i,
    {
        let found = contains(other, &records[i]);
        flags.push(!found);
        i += 1;
    }
    flags
}

/// Moves the flagged records of `records` to the end of `delta`: where the
/// flags tell which records are absent from `other`, those are the records
/// that are moved.
fn take_flagged<T: PartialEq>(
    delta: &mut Vec<T>,
    records: Vec<T>,
    flags: &Vec<bool>,
    Ghost(other): Ghost<Seq<T>>,
)
    requires
        flags.len() == records.len(),
    ensures
        (forall|i: int|
            0 <= i < records.len() ==> flags[i] == !occurs(other, #[trigger] records[i]))
            ==> final(delta)@ == old(delta)@ + missing_from(records@, other),
{
    let ghost pred = |x: T| !occurs(other, x);
    let ghost before = delta@;
    let mut i: usize = 0;
    for x in it: records
        invariant
            it.seq() == records@,
            i == it.index(),
            flags.len() == records.len(),
            pred == |x: T| !occurs(other, x),
            (forall|k: int|
                0 <= k < records.len() ==> flags[k] == !occurs(other, #[trigger] records[k]))
                ==> delta@ == before + records@.take(i as int).filter(pred),
    {
        proof {
            lemma_filter_step(records@, pred, i as int);
        }
        if flags[i] {
            delta.push(x);
        }
        i += 1;
    }
    assert(records@.take(records.len() as int) == records@);
}

/// The records that occur in exactly one of the two collections.
pub fn difference<T: PartialEq>(cached: Vec<T>, current: Vec<T>) -> (delta: Vec<T>)
    ensures
        T::obeys_eq_spec() ==> delta@ == symmetric_difference(cached@, current@),
{
    let new_flags = absent_flags(&current, &cached);
    let old_flags = absent_flags(&cached, &current);
    let mut delta: Vec<T> = Vec::new();
    let ghost cached_records = cached@;
    let ghost current_records = current@;
    take_flagged(&mut delta, current, &new_flags, Ghost(cached_records));
    take_flagged(&mut delta, cached, &old_flags, Ghost(current_records));
    delta
}

/// Compares the two collections: `None` when nothing changed, else the
/// records that occur in exactly one of them.
pub fn compare<T: PartialEq>(cached: Vec<T>, current: Vec<T>) -> (delta: Option<Vec<T>>)
    ensures
        cached.len() != current.len() ==> delta is Some,
        T::obeys_eq_spec() ==> (delta is None <==> unchanged(cached@, current@)),
        T::obeys_eq_spec() ==> (delta matches Some(records) ==> records@ == symmetric_difference(
            cached@,
            current@,
        )),
{
    if changed(&cached, &current) {
        Some(difference(cached, current))
    } else {
        None
    }
}

/// Comparing the same two collections again gives the same verdict and the
/// same records, in the same order and so also as a set, for a record type
/// whose `==` is the equality that its specification states.
pub proof fn lemma_compare_is_deterministic<T: PartialEq>(
    cached: Vec<T>,
    current: Vec<T>,
    first: Option<Vec<T>>,
    second: Option<Vec<T>>,
    first_verdict: bool,
    second_verdict: bool,
)
    requires
        T::obeys_eq_spec(),
        call_ensures(compare::<T>, (cached, current), first),
        call_ensures(compare::<T>, (cached, current), second),
        call_ensures(changed::<T>, (&cached, &current), first_verdict),
        call_ensures(changed::<T>, (&cached, &current), second_verdict),
    ensures
        first_verdict == second_verdict,
        first is Some <==> second is Some,
        first is Some <==> first_verdict,
        first matches Some(a) ==> second matches Some(b) && a@ == b@ && a@.to_set() == b@.to_set(),
{
}

/// The difference holds a record exactly when one collection holds it and no
/// record of the other compares equal to it.
pub proof fn lemma_difference_holds_what_one_side_lacks<T: PartialEq>(
    cached: Seq<T>,
    current: Seq<T>,
    x: T,
)
    ensures
        symmetric_difference(cached, current).contains(x) <==> (current.contains(x) && !occurs(
            cached,
            x,
        )) || (cached.contains(x) && !occurs(current, x)),
{
    let only_new = missing_from(current, cached);
    let only_old = missing_from(cached, current);
    let new_pred = |y: T| !occurs(cached, y);
    let old_pred = |y: T| !occurs(current, y);
    if symmetric_difference(cached, current).contains(x) {
        let i = choose|i: int|
            0 <= i < (only_new + only_old).len() && (only_new + only_old)[i] == x;
        if i < only_new.len() {
            current.lemma_filter_pred(new_pred, i);
            current.lemma_filter_contains_rev(new_pred, x);
        } else {
            cached.lemma_filter_pred(old_pred, i - only_new.len());
            cached.lemma_filter_contains_rev(old_pred, x);
        }
    }
    if current.contains(x) && !occurs(cached, x) {
        let i = choose|i: int| 0 <= i < current.len() && current[i] == x;
        current.lemma_filter_contains(new_pred, i);
        let j = choose|j: int| 0 <= j < only_new.len() && only_new[j] == x;
        assert((only_new + only_old)[j] == x);
    }
    if cached.contains(x) && !occurs(current, x) {
        let i = choose|i: int| 0 <= i < cached.len() && cached[i] == x;
        cached.lemma_filter_contains(old_pred, i);
        let j = choose|j: int| 0 <= j < only_old.len() && only_old[j] == x;
        assert((only_new + only_old)[only_new.len() + j] == x);
    }
}

/// Where equality is symmetric, collections that count as unchanged differ
/// in no record.
pub proof fn lemma_unchanged_has_empty_difference<T: PartialEq>(cached: Seq<T>, current: Seq<T>)
    requires
        unchanged(cached, current),
        forall|a: T, b: T| #[trigger] a.eq_spec(&b) ==> b.eq_spec(&a),
    ensures
        symmetric_difference(cached, current) == Seq::<T>::empty(),
{
    let new_pred = |y: T| !occurs(cached, y);
    let old_pred = |y: T| !occurs(current, y);
    assert forall|i: int| 0 <= i < current.len() implies !new_pred(#[trigger] current[i]) by {
        assert(current[i].eq_spec(&cached[i]));
    }
    assert forall|i: int| 0 <= i < cached.len() implies !old_pred(#[trigger] cached[i]) by {
        assert(current[i].eq_spec(&cached[i]));
    }
    current.lemma_all_neg_filter_empty(new_pred);
    cached.lemma_all_neg_filter_empty(old_pred);
}

} // verus!
