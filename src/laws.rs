//! Properties that hold of every layout: what overlays, row changes and reading as a whole
//! guarantee.
use vstd::prelude::*;

use crate::align::NUM_LEGENDS;
use crate::error::{outcome_is, Error};
use crate::json::JsonValue;
use crate::layout::{
    keyboard_of, layout_keys, lemma_run_to_prefix, run_row, run_to, starts, ElementView,
};
use crate::model::Keyboard;
use crate::overlay::OverlayView;
use crate::props::{advanced_row, applied, CursorView};
use crate::units::UNIT;

verus! {

/// An overlay that sets no centre of rotation moves the running position by its `x` and
/// `y` (exactly, where the sums stay within `i64`) and keeps the centre of rotation; the
/// keys emitted before it in a row stay as they were.
pub proof fn lemma_offset_overlay(c: CursorView, row: Seq<ElementView>, o: OverlayView)
    requires
        o.rx is None && o.ry is None,
        o.x is Some && o.y is Some,
        i64::MIN <= c.x + o.x->0 <= i64::MAX,
        i64::MIN <= c.y + o.y->0 <= i64::MAX,
    ensures
        applied(c, o).x == c.x + o.x->0,
        applied(c, o).y == c.y + o.y->0,
        applied(c, o).rx == c.rx && applied(c, o).ry == c.ry,
        run_row(c, row.push(ElementView::Props(o))).1 == run_row(c, row).1,
        run_row(c, row.push(ElementView::Props(o))).0 == applied(run_row(c, row).0, o),
{
    let r = row.push(ElementView::Props(o));
    assert(r.drop_last() == row);
}

/// What comes after an element cannot change the keys before it: two layouts that agree on
/// every row before row `r` and on the first `e` elements of row `r` emit the same keys up
/// to there, and those keys start the keys of each layout.
pub proof fn lemma_earlier_keys_unaffected(
    rows1: Seq<Seq<ElementView>>,
    rows2: Seq<Seq<ElementView>>,
    r: int,
    e: int,
)
    requires
        0 <= r < rows1.len() && r < rows2.len(),
        0 <= e <= rows1[r].len() && e <= rows2[r].len(),
        rows1.subrange(0, r) == rows2.subrange(0, r),
        rows1[r].subrange(0, e) == rows2[r].subrange(0, e),
    ensures
        run_to(rows1, r, e) == run_to(rows2, r, e),
        starts(run_to(rows1, r, e).1, layout_keys(rows1)),
        starts(run_to(rows2, r, e).1, layout_keys(rows2)),
        forall|i: int|
            0 <= i < run_to(rows1, r, e).1.len() ==> #[trigger] layout_keys(rows1)[i]
                == layout_keys(rows2)[i],
{
    lemma_run_to_prefix(rows1, r, e);
    lemma_run_to_prefix(rows2, r, e);
    let ks = run_to(rows1, r, e).1;
    assert forall|i: int| 0 <= i < ks.len() implies #[trigger] layout_keys(rows1)[i]
        == layout_keys(rows2)[i] by {
        assert(layout_keys(rows1).subrange(0, ks.len() as int)[i] == layout_keys(rows1)[i]);
        assert(layout_keys(rows2).subrange(0, ks.len() as int)[i] == layout_keys(rows2)[i]);
    }
}

/// A secondary font size sets the first slot to the fallback size and all others to
/// itself; a later overlay with only a fallback size then sets every slot to it, whatever
/// was there before.
pub proof fn lemma_font_size_replacement(c: CursorView, o1: OverlayView, o2: OverlayView)
    requires
        o1.f is Some && o1.f2 is Some && o1.fa is None,
        o2.f is Some && o2.f2 is None && o2.fa is None,
    ensures
        applied(c, o1).fa.len() == NUM_LEGENDS,
        applied(c, o1).fa[0] == o1.f->0,
        forall|i: int| 1 <= i < NUM_LEGENDS ==> applied(c, o1).fa[i] == o1.f2->0,
        applied(applied(c, o1), o2).fa == Seq::new(NUM_LEGENDS as nat, |i: int| o2.f->0),
{
}

/// Moving to the next row puts the running X position at the centre of rotation's X and
/// moves down exactly one unit (where that stays within `i64`), whatever the row held; the
/// persistent properties stay as they were.
pub proof fn lemma_advance_row(c: CursorView)
    requires
        c.y + UNIT <= i64::MAX,
    ensures
        advanced_row(c).x == c.rx,
        advanced_row(c).y == c.y + UNIT,
        advanced_row(c).r == c.r && advanced_row(c).rx == c.rx && advanced_row(c).ry == c.ry,
        advanced_row(c).g == c.g && advanced_row(c).sm == c.sm && advanced_row(c).sb == c.sb
            && advanced_row(c).st == c.st,
        advanced_row(c).c == c.c && advanced_row(c).t == c.t && advanced_row(c).ta == c.ta,
        advanced_row(c).a == c.a && advanced_row(c).p == c.p && advanced_row(c).f == c.f
            && advanced_row(c).fa == c.fa,
{
}

/// Reading the same document twice gives the same outcome: equal keyboards, or equal
/// errors.
pub proof fn lemma_reading_deterministic(doc: JsonValue, r1: Result<Keyboard, Error>, r2: Result<Keyboard, Error>)
    requires
        outcome_is(r1, keyboard_of(doc), |k: Keyboard| k@),
        outcome_is(r2, keyboard_of(doc), |k: Keyboard| k@),
    ensures
        r1 is Ok <==> r2 is Ok,
        r1 is Ok ==> r1->Ok_0@ == r2->Ok_0@,
        r1 is Err ==> r1->Err_0@ == r2->Err_0@,
{
}

} // verus!
