//! Legend realignment: the eight fixed permutations from the order in which legends are
//! written to the order in which they are displayed.
use vstd::prelude::*;

use vstd::set_lib::{lemma_map_size, set_int_range, lemma_int_range};

use crate::bounded::Alignment;
use crate::error::Error;
use crate::model::Legend;

verus! {

/// The number of legend slots on a key.
pub const NUM_LEGENDS: usize = 12;

/// For each alignment, the display slot of each written slot.
pub open spec fn mapping_row(a: int) -> Seq<int> {
    if a == 0 {
        seq![0, 6, 2, 8, 9, 11, 3, 5, 1, 4, 7, 10]
    } else if a == 1 {
        seq![1, 7, 0, 2, 9, 11, 4, 3, 5, 6, 8, 10]
    } else if a == 2 {
        seq![3, 0, 5, 1, 9, 11, 2, 6, 4, 7, 8, 10]
    } else if a == 3 {
        seq![4, 0, 1, 2, 9, 11, 3, 5, 6, 7, 8, 10]
    } else if a == 4 {
        seq![0, 6, 2, 8, 10, 9, 3, 5, 1, 4, 7, 11]
    } else if a == 5 {
        seq![1, 7, 0, 2, 10, 3, 4, 5, 6, 8, 9, 11]
    } else if a == 6 {
        seq![3, 0, 5, 1, 10, 2, 6, 7, 4, 8, 9, 11]
    } else {
        seq![4, 0, 1, 2, 10, 3, 5, 6, 7, 8, 9, 11]
    }
}

/// For each alignment, the written slot shown in each display slot.
pub open spec fn source_row(a: int) -> Seq<int> {
    if a == 0 {
        seq![0, 8, 2, 6, 9, 7, 1, 10, 3, 4, 11, 5]
    } else if a == 1 {
        seq![2, 0, 3, 7, 6, 8, 9, 1, 10, 4, 11, 5]
    } else if a == 2 {
        seq![1, 3, 6, 0, 8, 2, 7, 9, 10, 4, 11, 5]
    } else if a == 3 {
        seq![1, 2, 3, 6, 0, 7, 8, 9, 10, 4, 11, 5]
    } else if a == 4 {
        seq![0, 8, 2, 6, 9, 7, 1, 10, 3, 5, 4, 11]
    } else if a == 5 {
        seq![2, 0, 3, 5, 6, 7, 8, 1, 9, 10, 4, 11]
    } else if a == 6 {
        seq![1, 3, 5, 0, 8, 2, 6, 7, 9, 10, 4, 11]
    } else {
        seq![1, 2, 3, 5, 0, 6, 7, 8, 9, 10, 4, 11]
    }
}

/// The display slot of written slot `i` under alignment `a`.
pub open spec fn display_slot(a: int, i: int) -> int {
    mapping_row(a)[i]
}

/// The written slot shown in display slot `k` under alignment `a`.
pub open spec fn source_slot(a: int, k: int) -> int {
    source_row(a)[k]
}

/// The slots `s` (written order) rearranged into display order under alignment `a`.
pub open spec fn realigned<T>(s: Seq<Option<T>>, a: int) -> Seq<Option<T>> {
    Seq::new(NUM_LEGENDS as nat, |k: int| s[source_slot(a, k)])
}

proof fn lemma_slot_cases(i: int)
    requires
        0 <= i < 12,
    ensures
        i == 0 || i == 1 || i == 2 || i == 3 || i == 4 || i == 5 || i == 6 || i == 7 || i == 8
            || i == 9 || i == 10 || i == 11,
{
}

/// Each alignment's table is a permutation of the slots, and the source table undoes it.
pub proof fn lemma_tables_inverse(a: int)
    requires
        0 <= a <= 7,
    ensures
        forall|i: int|
            0 <= i < 12 ==> 0 <= #[trigger] display_slot(a, i) < 12 && source_slot(
                a,
                display_slot(a, i),
            ) == i,
        forall|k: int|
            0 <= k < 12 ==> 0 <= #[trigger] source_slot(a, k) < 12 && display_slot(
                a,
                source_slot(a, k),
            ) == k,
{
    assert forall|i: int| 0 <= i < 12 implies 0 <= #[trigger] display_slot(a, i) < 12
        && source_slot(a, display_slot(a, i)) == i by {
        lemma_slot_cases(i);
        assert(a == 0 || a == 1 || a == 2 || a == 3 || a == 4 || a == 5 || a == 6 || a == 7);
    }
    assert forall|k: int| 0 <= k < 12 implies 0 <= #[trigger] source_slot(a, k) < 12
        && display_slot(a, source_slot(a, k)) == k by {
        lemma_slot_cases(k);
        assert(a == 0 || a == 1 || a == 2 || a == 3 || a == 4 || a == 5 || a == 6 || a == 7);
    }
}

/// The display slot of written slot `i` under alignment `a`.
fn display_slot_of(a: usize, i: usize) -> (r: usize)
    requires
        a <= 7,
        i < NUM_LEGENDS,
    ensures
        r == display_slot(a as int, i as int),
        r < NUM_LEGENDS,
{
    let row: [usize; 12] = if a == 0 {
        [0, 6, 2, 8, 9, 11, 3, 5, 1, 4, 7, 10]
    } else if a == 1 {
        [1, 7, 0, 2, 9, 11, 4, 3, 5, 6, 8, 10]
    } else if a == 2 {
        [3, 0, 5, 1, 9, 11, 2, 6, 4, 7, 8, 10]
    } else if a == 3 {
        [4, 0, 1, 2, 9, 11, 3, 5, 6, 7, 8, 10]
    } else if a == 4 {
        [0, 6, 2, 8, 10, 9, 3, 5, 1, 4, 7, 11]
    } else if a == 5 {
        [1, 7, 0, 2, 10, 3, 4, 5, 6, 8, 9, 11]
    } else if a == 6 {
        [3, 0, 5, 1, 10, 2, 6, 7, 4, 8, 9, 11]
    } else {
        [4, 0, 1, 2, 10, 3, 5, 6, 7, 8, 9, 11]
    };
    proof {
        lemma_slot_cases(i as int);
        lemma_tables_inverse(a as int);
    }
    row[i]
}

/// Moves each written legend slot to its display slot under `alignment`.
pub fn realign_legends(values: [Option<Legend>; 12], alignment: Alignment) -> (r: [Option<
    Legend,
>; 12])
    ensures
        r@ == realigned(values@, alignment@ as int),
{
    let a = alignment.value();
    let mut values = values;
    let ghost v0 = values@;
    let mut out: [Option<Legend>; 12] = [
        None,
        None,
        None,
        None,
        None,
        None,
        None,
        None,
        None,
        None,
        None,
        None,
    ];
    proof {
        lemma_tables_inverse(a as int);
    }
    let mut i: usize = 0;
    while i < NUM_LEGENDS
        invariant
            a <= 7,
            i <= NUM_LEGENDS,
            forall|j: int| i <= j < NUM_LEGENDS ==> values@[j] == v0[j],
            forall|j: int| 0 <= j < i ==> out@[#[trigger] display_slot(a as int, j)] == v0[j],
            forall|j: int|
                0 <= j < NUM_LEGENDS ==> 0 <= #[trigger] display_slot(a as int, j) < 12
                    && source_slot(a as int, display_slot(a as int, j)) == j,
        decreases NUM_LEGENDS - i,
    {
        let t = display_slot_of(a, i);
        let mut moved: Option<Legend> = None;
        core::mem::swap(&mut moved, &mut values[i]);
        out[t] = moved;
        i = i + 1;
    }
    proof {
        assert forall|k: int| 0 <= k < NUM_LEGENDS implies out@[k] == realigned(v0, a as int)[k] by {
            let j = source_slot(a as int, k);
            assert(display_slot(a as int, j) == k);
        }
        assert(out@ =~= realigned(v0, a as int));
    }
    out
}

/// Moves each written legend slot to its display slot under alignment `alignment`, which
/// must lie in `0..=7`.
pub fn realign(slots: [Option<Legend>; 12], alignment: usize) -> (r: Result<
    [Option<Legend>; 12],
    Error,
>)
    ensures
        alignment <= 7 ==> r is Ok && r->Ok_0@ == realigned(slots@, alignment as int),
        alignment > 7 ==> r == Err::<[Option<Legend>; 12], Error>(Error::Alignment(alignment)),
{
    match Alignment::new(alignment) {
        Ok(a) => Ok(realign_legends(slots, a)),
        Err(_) => Err(Error::Alignment(alignment)),
    }
}

/// The slots of `s` that hold a value.
pub open spec fn populated<T>(s: Seq<Option<T>>) -> Set<int> {
    set_int_range(0, NUM_LEGENDS as int).filter(|i: int| s[i] is Some)
}

/// Realignment is a bijection on the populated slots: two populated slots never land on
/// the same display slot, each lands where the table puts it, and as many display slots
/// are populated as written slots were.
pub proof fn lemma_realign_bijective<T>(s: Seq<Option<T>>, a: int)
    requires
        s.len() == NUM_LEGENDS,
        0 <= a <= 7,
    ensures
        forall|i: int, j: int|
            0 <= i < NUM_LEGENDS && 0 <= j < NUM_LEGENDS && i != j && s[i] is Some && s[j] is Some
                ==> display_slot(a, i) != display_slot(a, j),
        forall|i: int|
            0 <= i < NUM_LEGENDS ==> #[trigger] realigned(s, a)[display_slot(a, i)] == s[i],
        populated(realigned(s, a)).len() == populated(s).len(),
        populated(realigned(s, a)).finite(),
{
    lemma_tables_inverse(a);
    let r = realigned(s, a);
    let f = |i: int| display_slot(a, i);
    lemma_int_range(0, NUM_LEGENDS as int);
    set_int_range(0, NUM_LEGENDS as int).lemma_len_filter(|i: int| s[i] is Some);
    assert(populated(s).map(f) =~= populated(r)) by {
        assert forall|k: int| populated(r).contains(k) implies populated(s).map(f).contains(k) by {
            let j = source_slot(a, k);
            assert(populated(s).contains(j));
            assert(f(j) == k);
        }
    }
    assert(vstd::relations::injective_on(f, populated(s)));
    lemma_map_size(populated(s), populated(r), f);
}

} // verus!
