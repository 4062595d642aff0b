//! The shape of a layout document, and the walk over its rows that yields the keys.
use vstd::prelude::*;

use crate::error::{outcome_is, Error, ErrorView, JsonError};
use crate::json::JsonValue;
use crate::meta::{empty_meta_obj, meta_obj_of, metadata_from, KleMetadata, MetaObjView};
use crate::model::{Key, KeyView, Keyboard, KeyboardView, Metadata};
use crate::overlay::{overlay_of, KlePropsObject, OverlayView};
use crate::props::{
    advanced_key, advanced_row, applied, emitted, initial_cursor, CursorView, KleProps,
};

verus! {

/// One element of a row: a property overlay or a key's legend text.
#[derive(Debug, Clone)]
pub enum KleLegendsOrProps {
    Props(KlePropsObject),
    Legend(String),
}

/// What a row element holds.
pub enum ElementView {
    Props(OverlayView),
    Legend(Seq<char>),
}

impl View for KleLegendsOrProps {
    type V = ElementView;

    open spec fn view(&self) -> ElementView {
        match self {
            KleLegendsOrProps::Props(o) => ElementView::Props(o@),
            KleLegendsOrProps::Legend(s) => ElementView::Legend(s@),
        }
    }
}

/// The values that `f` reads from each of `items`; the first item that fails fails them all.
pub open spec fn all_of<T>(items: Seq<JsonValue>, f: spec_fn(JsonValue) -> Result<T, ErrorView>) -> Result<Seq<T>, ErrorView>
    decreases items.len(),
{
    if items.len() == 0 {
        Ok(seq![])
    } else {
        match all_of(items.drop_last(), f) {
            Err(e) => Err(e),
            Ok(xs) => match f(items.last()) {
                Err(e) => Err(e),
                Ok(x) => Ok(xs.push(x)),
            },
        }
    }
}

/// Once the items before `i` are read, an item that fails fails them all with its error.
proof fn lemma_all_of_err<T>(items: Seq<JsonValue>, f: spec_fn(JsonValue) -> Result<T, ErrorView>, i: int)
    requires
        0 <= i < items.len(),
        all_of(items.subrange(0, i), f) is Ok,
        f(items[i]) is Err,
    ensures
        all_of(items, f) == Err::<Seq<T>, ErrorView>(f(items[i])->Err_0),
    decreases items.len() - i,
{
    let p = items.subrange(0, i + 1);
    assert(p.drop_last() == items.subrange(0, i));
    lemma_all_of_err_extends(items, f, i + 1);
}

proof fn lemma_all_of_err_extends<T>(items: Seq<JsonValue>, f: spec_fn(JsonValue) -> Result<T, ErrorView>, k: int)
    requires
        0 < k <= items.len(),
        all_of(items.subrange(0, k), f) is Err,
    ensures
        all_of(items, f) == all_of(items.subrange(0, k), f),
    decreases items.len() - k,
{
    if k < items.len() {
        let p = items.subrange(0, k + 1);
        assert(p.drop_last() == items.subrange(0, k));
        lemma_all_of_err_extends(items, f, k + 1);
    } else {
        assert(items.subrange(0, k) == items);
    }
}

/// A row element: a string is a key's legend text, an object a property overlay.
pub open spec fn element_of(v: JsonValue) -> Result<ElementView, ErrorView> {
    match v {
        JsonValue::Str(s) => Ok(ElementView::Legend(s@)),
        JsonValue::Object(fs) => match overlay_of(fs@) {
            Ok(o) => Ok(ElementView::Props(o)),
            Err(e) => Err(e),
        },
        _ => Err(ErrorView::InvalidType),
    }
}

/// A row: an array of row elements.
pub open spec fn row_of(v: JsonValue) -> Result<Seq<ElementView>, ErrorView> {
    match v {
        JsonValue::Array(items) => all_of(items@, |e: JsonValue| element_of(e)),
        _ => Err(ErrorView::InvalidType),
    }
}

/// What a parsed document holds: its metadata object and its rows.
pub struct DocumentView {
    pub meta: MetaObjView,
    pub rows: Seq<Seq<ElementView>>,
}

/// The document that a JSON value describes: an array whose first element may be a
/// metadata object, with rows after it. An empty array has no metadata and no rows.
pub open spec fn document_of(v: JsonValue) -> Result<DocumentView, ErrorView> {
    match v {
        JsonValue::Array(items) => if items@.len() == 0 {
            Ok(DocumentView { meta: empty_meta_obj(), rows: seq![] })
        } else {
            match items@[0] {
                JsonValue::Object(fs) => match meta_obj_of(fs@) {
                    Err(e) => Err(e),
                    Ok(m) => match all_of(items@.drop_first(), |r: JsonValue| row_of(r)) {
                        Err(e) => Err(e),
                        Ok(rows) => Ok(DocumentView { meta: m, rows }),
                    },
                },
                JsonValue::Array(_) => match all_of(items@, |r: JsonValue| row_of(r)) {
                    Err(e) => Err(e),
                    Ok(rows) => Ok(DocumentView { meta: empty_meta_obj(), rows }),
                },
                _ => Err(ErrorView::InvalidType),
            }
        },
        _ => Err(ErrorView::InvalidType),
    }
}

/// A parsed document: its metadata object and its rows.
#[derive(Debug, Clone)]
pub struct KleKeyboard {
    /// The metadata object, or one that sets nothing.
    pub meta: KleMetadata,
    /// The rows, in document order.
    pub layout: Vec<Vec<KleLegendsOrProps>>,
}

/// The view of each element of a row.
pub open spec fn row_view(r: Vec<KleLegendsOrProps>) -> Seq<ElementView> {
    r@.map_values(|e: KleLegendsOrProps| e@)
}

/// The view of each row.
pub open spec fn rows_view(rows: Seq<Vec<KleLegendsOrProps>>) -> Seq<Seq<ElementView>> {
    rows.map_values(|r: Vec<KleLegendsOrProps>| row_view(r))
}

impl View for KleKeyboard {
    type V = DocumentView;

    open spec fn view(&self) -> DocumentView {
        DocumentView { meta: self.meta@, rows: rows_view(self.layout@) }
    }
}

/// Reads one row element.
fn read_element(v: &JsonValue) -> (r: Result<KleLegendsOrProps, Error>)
    ensures
        outcome_is(r, element_of(*v), |e: KleLegendsOrProps| e@),
{
    match v {
        JsonValue::Str(s) => Ok(KleLegendsOrProps::Legend(s.clone())),
        JsonValue::Object(fs) => match KlePropsObject::from_json(fs) {
            Ok(o) => Ok(KleLegendsOrProps::Props(o)),
            Err(e) => Err(e),
        },
        _ => Err(Error::Json(JsonError::InvalidType)),
    }
}

/// Reads one row.
fn read_row(v: &JsonValue) -> (r: Result<Vec<KleLegendsOrProps>, Error>)
    ensures
        outcome_is(r, row_of(*v), |x: Vec<KleLegendsOrProps>| row_view(x)),
{
    let items = match v {
        JsonValue::Array(items) => items,
        _ => return Err(Error::Json(JsonError::InvalidType)),
    };
    let ghost f = |e: JsonValue| element_of(e);
    let mut out: Vec<KleLegendsOrProps> = Vec::new();
    let mut i: usize = 0;
    assert(items@.subrange(0, 0) =~= Seq::<JsonValue>::empty());
    assert(row_view(out) =~= Seq::<ElementView>::empty());
    while i < items.len()
        invariant
            *v == JsonValue::Array(*items),
            f == (|e: JsonValue| element_of(e)),
            i <= items@.len(),
            all_of(items@.subrange(0, i as int), f) == Ok::<Seq<ElementView>, ErrorView>(
                row_view(out),
            ),
        decreases items@.len() - i,
    {
        let ghost next = items@.subrange(0, i + 1);
        assert(next.drop_last() == items@.subrange(0, i as int));
        assert(next.last() == items@[i as int]);
        match read_element(&items[i]) {
            Ok(e) => {
                let ghost before = out;
                out.push(e);
                assert(row_view(out) =~= row_view(before).push(e@));
            },
            Err(e) => {
                proof {
                    lemma_all_of_err(items@, f, i as int);
                }
                return Err(e);
            },
        }
        i = i + 1;
    }
    assert(items@.subrange(0, items@.len() as int) == items@);
    Ok(out)
}

/// Reads the rows `items[start..]`.
fn read_rows(items: &Vec<JsonValue>, start: usize) -> (r: Result<Vec<Vec<KleLegendsOrProps>>, Error>)
    requires
        start <= items@.len(),
    ensures
        outcome_is(
            r,
            all_of(items@.subrange(start as int, items@.len() as int), |r: JsonValue| row_of(r)),
            |x: Vec<Vec<KleLegendsOrProps>>| rows_view(x@),
        ),
{
    let ghost f = |r: JsonValue| row_of(r);
    let ghost all = items@.subrange(start as int, items@.len() as int);
    let mut out: Vec<Vec<KleLegendsOrProps>> = Vec::new();
    let mut i: usize = start;
    assert(all.subrange(0, 0) =~= Seq::<JsonValue>::empty());
    assert(rows_view(out@) =~= Seq::<Seq<ElementView>>::empty());
    while i < items.len()
        invariant
            f == (|r: JsonValue| row_of(r)),
            all == items@.subrange(start as int, items@.len() as int),
            start <= i <= items@.len(),
            all_of(all.subrange(0, i - start), f) == Ok::<Seq<Seq<ElementView>>, ErrorView>(
                rows_view(out@),
            ),
        decreases items@.len() - i,
    {
        let ghost k = i - start;
        let ghost next = all.subrange(0, k + 1);
        assert(next.drop_last() == all.subrange(0, k));
        assert(next.last() == items@[i as int]);
        match read_row(&items[i]) {
            Ok(row) => {
                let ghost before = out@;
                out.push(row);
                assert(rows_view(out@) =~= rows_view(before).push(row_view(row)));
            },
            Err(e) => {
                proof {
                    assert(all[k] == items@[i as int]);
                    lemma_all_of_err(all, f, k);
                }
                return Err(e);
            },
        }
        i = i + 1;
    }
    assert(all.subrange(0, all.len() as int) == all);
    Ok(out)
}

impl KleKeyboard {
    /// Reads a document: an array whose first element may be a metadata object, with rows
    /// (arrays of legend strings and overlay objects) after it.
    pub fn from_json(doc: &JsonValue) -> (r: Result<KleKeyboard, Error>)
        ensures
            outcome_is(r, document_of(*doc), |k: KleKeyboard| k@),
    {
        let items = match doc {
            JsonValue::Array(items) => items,
            _ => return Err(Error::Json(JsonError::InvalidType)),
        };
        if items.len() == 0 {
            let meta = KleMetadata::default();
            let layout: Vec<Vec<KleLegendsOrProps>> = Vec::new();
            assert(rows_view(layout@) =~= Seq::<Seq<ElementView>>::empty());
            return Ok(KleKeyboard { meta, layout });
        }
        match &items[0] {
            JsonValue::Object(fs) => {
                let meta = match KleMetadata::from_json(fs) {
                    Ok(m) => m,
                    Err(e) => return Err(e),
                };
                let layout = match read_rows(items, 1) {
                    Ok(rows) => rows,
                    Err(e) => return Err(e),
                };
                assert(items@.subrange(1, items@.len() as int) == items@.drop_first());
                Ok(KleKeyboard { meta, layout })
            },
            JsonValue::Array(_) => {
                let layout = match read_rows(items, 0) {
                    Ok(rows) => rows,
                    Err(e) => {
                        assert(items@.subrange(0, items@.len() as int) == items@);
                        return Err(e);
                    },
                };
                assert(items@.subrange(0, items@.len() as int) == items@);
                Ok(KleKeyboard { meta: KleMetadata::default(), layout })
            },
            _ => Err(Error::Json(JsonError::InvalidType)),
        }
    }
}

/// The cursor after the elements of `row`, starting from `c`, and the keys they emit.
pub open spec fn run_row(c: CursorView, row: Seq<ElementView>) -> (CursorView, Seq<KeyView>)
    decreases row.len(),
{
    if row.len() == 0 {
        (c, seq![])
    } else {
        let (c1, ks) = run_row(c, row.drop_last());
        match row.last() {
            ElementView::Props(o) => (applied(c1, o), ks),
            ElementView::Legend(s) => (advanced_key(c1), ks.push(emitted(c1, s))),
        }
    }
}

/// The cursor after the rows `rows`, starting from `c`, and the keys they emit. Each row
/// after the first starts with the cursor moved to the next row.
pub open spec fn run_rows(c: CursorView, rows: Seq<Seq<ElementView>>) -> (CursorView, Seq<KeyView>)
    decreases rows.len(),
{
    if rows.len() == 0 {
        (c, seq![])
    } else {
        let (c1, ks) = run_rows(c, rows.drop_last());
        let c2 = if rows.len() > 1 {
            advanced_row(c1)
        } else {
            c1
        };
        let (c3, ks2) = run_row(c2, rows.last());
        (c3, ks + ks2)
    }
}

/// The keys of a layout with rows `rows`, in document order.
pub open spec fn layout_keys(rows: Seq<Seq<ElementView>>) -> Seq<KeyView> {
    run_rows(initial_cursor(), rows).1
}

/// The keyboard that a JSON document describes.
pub open spec fn keyboard_of(doc: JsonValue) -> Result<KeyboardView, ErrorView> {
    match document_of(doc) {
        Ok(d) => Ok(KeyboardView { metadata: metadata_from(d.meta), keys: layout_keys(d.rows) }),
        Err(e) => Err(e),
    }
}

/// The view of each key.
pub open spec fn keys_view(keys: Seq<Key>) -> Seq<KeyView> {
    keys.map_values(|k: Key| k@)
}

/// Applies one row element to the cursor; a legend emits its key into `keys`.
fn step(state: &mut KleProps, keys: &mut Vec<Key>, e: &KleLegendsOrProps)
    ensures
        match e@ {
            ElementView::Props(o) => final(state)@ == applied(old(state)@, o) && keys_view(
                final(keys)@,
            ) == keys_view(old(keys)@),
            ElementView::Legend(s) => final(state)@ == advanced_key(old(state)@) && keys_view(
                final(keys)@,
            ) == keys_view(old(keys)@).push(emitted(old(state)@, s)),
        },
{
    match e {
        KleLegendsOrProps::Props(o) => {
            state.apply(o);
        },
        KleLegendsOrProps::Legend(s) => {
            let key = state.build_key(s.as_str());
            state.next_key();
            let ghost before = keys@;
            keys.push(key);
            assert(keys_view(keys@) =~= keys_view(before).push(key@));
        },
    }
}

/// The keys of the rows `layout`, in document order.
pub fn collect_keys(layout: &Vec<Vec<KleLegendsOrProps>>) -> (r: Vec<Key>)
    ensures
        keys_view(r@) == layout_keys(rows_view(layout@)),
{
    let ghost rows = rows_view(layout@);
    let mut state = KleProps::default();
    let mut keys: Vec<Key> = Vec::new();
    let mut r: usize = 0;
    assert(rows.subrange(0, 0) =~= Seq::<Seq<ElementView>>::empty());
    assert(keys_view(keys@) =~= Seq::<KeyView>::empty());
    while r < layout.len()
        invariant
            rows == rows_view(layout@),
            r <= layout@.len(),
            run_rows(initial_cursor(), rows.subrange(0, r as int)) == (state@, keys_view(keys@)),
        decreases layout@.len() - r,
    {
        let ghost c1 = state@;
        let ghost ks1 = keys_view(keys@);
        if r > 0 {
            state.next_line();
        }
        let ghost c2 = state@;
        let row = &layout[r];
        let ghost rv = row_view(*row);
        assert(rv == rows[r as int]);
        let mut e: usize = 0;
        assert(rv.subrange(0, 0) =~= Seq::<ElementView>::empty());
        assert(ks1 + Seq::<KeyView>::empty() =~= ks1);
        while e < row.len()
            invariant
                rv == row_view(*row),
                e <= row@.len(),
                ({
                    let (cs, kk) = run_row(c2, rv.subrange(0, e as int));
                    state@ == cs && keys_view(keys@) == ks1 + kk
                }),
            decreases row@.len() - e,
        {
            let ghost pre = rv.subrange(0, e as int);
            let ghost next = rv.subrange(0, e + 1);
            assert(next.drop_last() == pre);
            assert(next.last() == row@[e as int]@);
            step(&mut state, &mut keys, &row[e]);
            proof {
                let (cs, kk) = run_row(c2, pre);
                match row@[e as int]@ {
                    ElementView::Props(o) => {},
                    ElementView::Legend(s) => {
                        assert(ks1 + kk.push(emitted(cs, s)) =~= (ks1 + kk).push(emitted(cs, s)));
                    },
                }
            }
            e = e + 1;
        }
        proof {
            let sub = rows.subrange(0, r + 1);
            assert(sub.drop_last() == rows.subrange(0, r as int));
            assert(sub.last() == rv);
            assert(rv.subrange(0, rv.len() as int) == rv);
        }
        r = r + 1;
    }
    assert(rows.subrange(0, rows.len() as int) == rows);
    keys
}

impl Keyboard {
    /// Reads a keyboard from a JSON document: its metadata (defaults where the document
    /// has none) and its keys, in document order.
    pub fn from_json(doc: &JsonValue) -> (r: Result<Keyboard, Error>)
        ensures
            outcome_is(r, keyboard_of(*doc), |k: Keyboard| k@),
    {
        match KleKeyboard::from_json(doc) {
            Ok(kle) => {
                let keys = collect_keys(&kle.layout);
                let metadata = Metadata::from_kle(kle.meta);
                let r = Keyboard { metadata, keys };
                assert(r@.keys == keys_view(keys@));
                Ok(r)
            },
            Err(e) => Err(e),
        }
    }
}

/// `a` is the start of `b`.
pub open spec fn starts(a: Seq<KeyView>, b: Seq<KeyView>) -> bool {
    a.len() <= b.len() && b.subrange(0, a.len() as int) == a
}

proof fn lemma_starts_trans(a: Seq<KeyView>, b: Seq<KeyView>, c: Seq<KeyView>)
    requires
        starts(a, b),
        starts(b, c),
    ensures
        starts(a, c),
{
    assert(c.subrange(0, a.len() as int) =~= b.subrange(0, a.len() as int));
}

/// The keys of the first `e` elements of a row start the keys of the whole row.
proof fn lemma_run_row_prefix(c: CursorView, row: Seq<ElementView>, e: int)
    requires
        0 <= e <= row.len(),
    ensures
        starts(run_row(c, row.subrange(0, e)).1, run_row(c, row).1),
    decreases row.len(),
{
    if e == row.len() {
        assert(row.subrange(0, e) == row);
        assert(run_row(c, row).1.subrange(0, run_row(c, row).1.len() as int) =~= run_row(c, row).1);
    } else {
        lemma_run_row_prefix(c, row.drop_last(), e);
        assert(row.drop_last().subrange(0, e) == row.subrange(0, e));
        let ks = run_row(c, row.drop_last()).1;
        assert(starts(ks, run_row(c, row).1)) by {
            assert(run_row(c, row).1.subrange(0, ks.len() as int) =~= ks);
        }
        lemma_starts_trans(run_row(c, row.subrange(0, e)).1, ks, run_row(c, row).1);
    }
}

/// The keys of the first `r` rows start the keys of all of them.
proof fn lemma_run_rows_prefix(c: CursorView, rows: Seq<Seq<ElementView>>, r: int)
    requires
        0 <= r <= rows.len(),
    ensures
        starts(run_rows(c, rows.subrange(0, r)).1, run_rows(c, rows).1),
    decreases rows.len(),
{
    let all = run_rows(c, rows).1;
    if r == rows.len() {
        assert(rows.subrange(0, r) == rows);
        assert(all.subrange(0, all.len() as int) =~= all);
    } else {
        lemma_run_rows_prefix(c, rows.drop_last(), r);
        assert(rows.drop_last().subrange(0, r) == rows.subrange(0, r));
        let ks = run_rows(c, rows.drop_last()).1;
        assert(starts(ks, all)) by {
            assert(all.subrange(0, ks.len() as int) =~= ks);
        }
        lemma_starts_trans(run_rows(c, rows.subrange(0, r)).1, ks, all);
    }
}

/// The cursor and the keys after the rows before `r` and the first `e` elements of row `r`.
pub open spec fn run_to(rows: Seq<Seq<ElementView>>, r: int, e: int) -> (CursorView, Seq<KeyView>) {
    let (c1, ks1) = run_rows(initial_cursor(), rows.subrange(0, r));
    let c2 = if r > 0 {
        advanced_row(c1)
    } else {
        c1
    };
    let (c3, ks2) = run_row(c2, rows[r].subrange(0, e));
    (c3, ks1 + ks2)
}

/// The keys emitted before element `e` of row `r` start the keys of the whole layout.
pub proof fn lemma_run_to_prefix(rows: Seq<Seq<ElementView>>, r: int, e: int)
    requires
        0 <= r < rows.len(),
        0 <= e <= rows[r].len(),
    ensures
        starts(run_to(rows, r, e).1, layout_keys(rows)),
{
    let (c1, ks1) = run_rows(initial_cursor(), rows.subrange(0, r));
    let c2 = if r > 0 {
        advanced_row(c1)
    } else {
        c1
    };
    let sub = rows.subrange(0, r + 1);
    assert(sub.drop_last() == rows.subrange(0, r));
    assert(sub.last() == rows[r]);
    lemma_run_row_prefix(c2, rows[r], e);
    let kr = run_row(c2, rows[r]).1;
    let ke = run_row(c2, rows[r].subrange(0, e)).1;
    assert(starts(ks1 + ke, ks1 + kr)) by {
        assert((ks1 + kr).subrange(0, (ks1 + ke).len() as int) =~= ks1 + ke);
    }
    lemma_run_rows_prefix(initial_cursor(), rows, r + 1);
    lemma_starts_trans(ks1 + ke, ks1 + kr, layout_keys(rows));
}

/// A walk over the rows of a layout that yields its keys one at a time.
pub struct KleLayoutIterator {
    state: KleProps,
    rows: Vec<Vec<KleLegendsOrProps>>,
    row: usize,
    elem: usize,
    produced: Ghost<Seq<KeyView>>,
}

impl KleLayoutIterator {
    /// All the keys of the layout, in document order.
    pub closed spec fn keys(&self) -> Seq<KeyView> {
        layout_keys(rows_view(self.rows@))
    }

    /// The keys yielded so far.
    pub closed spec fn produced(&self) -> Seq<KeyView> {
        self.produced@
    }

    /// The walk's position agrees with what it has yielded.
    pub closed spec fn wf(&self) -> bool {
        let rows = rows_view(self.rows@);
        if self.row < rows.len() {
            &&& self.elem <= rows[self.row as int].len()
            &&& run_to(rows, self.row as int, self.elem as int) == (self.state@, self.produced@)
        } else {
            self.produced@ == layout_keys(rows)
        }
    }

    /// A walk over `layout` from its start.
    pub fn new(layout: Vec<Vec<KleLegendsOrProps>>) -> (r: KleLayoutIterator)
        ensures
            r.wf(),
            r.keys() == layout_keys(rows_view(layout@)),
            r.produced() == Seq::<KeyView>::empty(),
    {
        let r = KleLayoutIterator {
            state: KleProps::default(),
            rows: layout,
            row: 0,
            elem: 0,
            produced: Ghost(Seq::empty()),
        };
        proof {
            let rows = rows_view(r.rows@);
            assert(rows.subrange(0, 0) =~= Seq::<Seq<ElementView>>::empty());
            if rows.len() > 0 {
                assert(rows[0].subrange(0, 0) =~= Seq::<ElementView>::empty());
                assert(Seq::<KeyView>::empty() + Seq::<KeyView>::empty() =~= Seq::<KeyView>::empty());
            }
        }
        r
    }

    /// The next key of the layout, or `None` once all have been yielded.
    pub fn next(&mut self) -> (r: Option<Key>)
        requires
            old(self).wf(),
        ensures
            final(self).wf(),
            final(self).keys() == old(self).keys(),
            match r {
                Some(k) => {
                    &&& old(self).produced().len() < old(self).keys().len()
                    &&& k@ == old(self).keys()[old(self).produced().len() as int]
                    &&& final(self).produced() == old(self).produced().push(k@)
                },
                None => {
                    &&& final(self).produced() == old(self).produced()
                    &&& old(self).produced() == old(self).keys()
                },
            },
    {
        let ghost rows = rows_view(self.rows@);
        let ghost start = self.produced@;
        loop
            invariant
                rows == rows_view(self.rows@),
                rows == rows_view(old(self).rows@),
                start == old(self).produced@,
                self.wf(),
                self.produced@ == start,
            decreases self.rows@.len() - self.row, rows[self.row as int].len() - self.elem,
        {
            if self.row >= self.rows.len() {
                return None;
            }
            let r = self.row;
            let e = self.elem;
            let ghost rv = rows[r as int];
            assert(rv == row_view(self.rows@[r as int]));
            if e < self.rows[r].len() {
                let ghost pre = rv.subrange(0, e as int);
                let ghost next = rv.subrange(0, e + 1);
                assert(next.drop_last() == pre);
                assert(next.last() == self.rows@[r as int]@[e as int]@);
                match &self.rows[r][e] {
                    KleLegendsOrProps::Props(o) => {
                        self.state.apply(o);
                        self.elem = e + 1;
                    },
                    KleLegendsOrProps::Legend(s) => {
                        let key = self.state.build_key(s.as_str());
                        self.state.next_key();
                        self.elem = e + 1;
                        proof {
                            let (c1, ks1) = run_rows(initial_cursor(), rows.subrange(0, r as int));
                            let c2 = if r > 0 { advanced_row(c1) } else { c1 };
                            let (cs, kk) = run_row(c2, pre);
                            assert(ks1 + kk.push(key@) =~= (ks1 + kk).push(key@));
                            self.produced@ = self.produced@.push(key@);
                            lemma_run_to_prefix(rows, r as int, e + 1);
                            let all = layout_keys(rows);
                            assert(all.subrange(0, self.produced@.len() as int)[start.len() as int]
                                == all[start.len() as int]);
                        }
                        return Some(key);
                    },
                }
            } else if r + 1 < self.rows.len() {
                self.state.next_line();
                self.row = r + 1;
                self.elem = 0;
                proof {
                    let sub = rows.subrange(0, r + 1);
                    assert(sub.drop_last() == rows.subrange(0, r as int));
                    assert(sub.last() == rv);
                    assert(rv.subrange(0, rv.len() as int) == rv);
                    assert(rows[r + 1].subrange(0, 0) =~= Seq::<ElementView>::empty());
                    let ks = run_rows(initial_cursor(), rows.subrange(0, r + 1)).1;
                    assert(ks + Seq::<KeyView>::empty() =~= ks);
                }
            } else {
                self.row = r + 1;
                proof {
                    let sub = rows.subrange(0, r + 1);
                    assert(sub.drop_last() == rows.subrange(0, r as int));
                    assert(sub.last() == rv);
                    assert(rv.subrange(0, rv.len() as int) == rv);
                    assert(sub == rows);
                }
            }
        }
    }
}

/// The keys of a layout document, yielded one at a time.
pub struct KeyIterator(KleLayoutIterator);

impl KeyIterator {
    /// All the keys of the layout, in document order.
    pub closed spec fn keys(&self) -> Seq<KeyView> {
        self.0.keys()
    }

    /// The keys yielded so far.
    pub closed spec fn produced(&self) -> Seq<KeyView> {
        self.0.produced()
    }

    /// The iterator is ready for its next call.
    pub closed spec fn wf(&self) -> bool {
        self.0.wf()
    }

    /// Reads a layout document for its keys alone; its metadata is checked, not kept.
    pub fn from_json(doc: &JsonValue) -> (r: Result<KeyIterator, Error>)
        ensures
            match r {
                Ok(it) => {
                    &&& document_of(*doc) is Ok
                    &&& it.wf()
                    &&& it.keys() == layout_keys(document_of(*doc)->Ok_0.rows)
                    &&& it.produced() == Seq::<KeyView>::empty()
                },
                Err(e) => document_of(*doc) is Err && e@ == document_of(*doc)->Err_0,
            },
    {
        match KleKeyboard::from_json(doc) {
            Ok(kle) => Ok(KeyIterator(KleLayoutIterator::new(kle.layout))),
            Err(e) => Err(e),
        }
    }

    /// The next key of the layout, or `None` once all have been yielded.
    pub fn next(&mut self) -> (r: Option<Key>)
        requires
            old(self).wf(),
        ensures
            final(self).wf(),
            final(self).keys() == old(self).keys(),
            match r {
                Some(k) => {
                    &&& old(self).produced().len() < old(self).keys().len()
                    &&& k@ == old(self).keys()[old(self).produced().len() as int]
                    &&& final(self).produced() == old(self).produced().push(k@)
                },
                None => {
                    &&& final(self).produced() == old(self).produced()
                    &&& old(self).produced() == old(self).keys()
                },
            },
    {
        self.0.next()
    }
}

} // verus!
