//! JSON values as the decoder hands them over, and the reading of typed fields from them.
use vstd::prelude::*;

use crate::bounded::{Alignment, FontSize};
use crate::color::{
    color_from_str, colors_of, colors_ok, css_rgba, first_bad_line, parse_color_list, Color,
};
use crate::error::{outcome_is, Error, ErrorView, JsonError};
use crate::text::lines;
use crate::units::{saturate, units_from_int, UNIT};

verus! {

/// A JSON value. Numbers are whole (`Int`) or fixed-point millionths (`Fixed`, see
/// [`crate::units`]); an object keeps its members in document order.
#[derive(Debug)]
pub enum JsonValue {
    Null,
    Bool(bool),
    Int(i64),
    Fixed(i64),
    Str(String),
    Array(Vec<JsonValue>),
    Object(Vec<(String, JsonValue)>),
}

/// The index of the first member of `fs` at or after `i` whose key is `name`, or
/// `fs.len()` if there is none.
pub open spec fn key_index(fs: Seq<(String, JsonValue)>, name: Seq<char>, i: int) -> int
    decreases fs.len() - i,
{
    if i >= fs.len() {
        fs.len() as int
    } else if fs[i].0@ == name {
        i
    } else {
        key_index(fs, name, i + 1)
    }
}

/// The value of the first member of `fs` whose key is `name`.
pub open spec fn field_of(fs: Seq<(String, JsonValue)>, name: Seq<char>) -> Option<JsonValue> {
    let k = key_index(fs, name, 0);
    if 0 <= k < fs.len() {
        Some(fs[k].1)
    } else {
        None
    }
}

/// The value of the first member of `fs` whose key is `name`.
pub fn get_field<'a>(fs: &'a Vec<(String, JsonValue)>, name: &str) -> (r: Option<&'a JsonValue>)
    ensures
        opt(r) == field_of(fs@, name@),
{
    let key = name.to_owned();
    let mut i: usize = 0;
    while i < fs.len()
        invariant
            key@ == name@,
            i <= fs@.len(),
            key_index(fs@, name@, 0) == key_index(fs@, name@, i as int),
        decreases fs@.len() - i,
    {
        if fs[i].0 == key {
            return Some(&fs[i].1);
        }
        i = i + 1;
    }
    None
}

/// The value that an optional reference points to.
pub open spec fn opt(o: Option<&JsonValue>) -> Option<JsonValue> {
    match o {
        Some(v) => Some(*v),
        None => None,
    }
}

/// The value of a number field, as a fixed-point value; absent and `null` give `None`.
pub open spec fn units_of(v: Option<JsonValue>) -> Result<Option<i64>, ErrorView> {
    match v {
        None | Some(JsonValue::Null) => Ok(None),
        Some(JsonValue::Int(n)) => Ok(Some(saturate(n * UNIT))),
        Some(JsonValue::Fixed(m)) => Ok(Some(m)),
        Some(_) => Err(ErrorView::InvalidType),
    }
}

/// Reads a number field as a fixed-point value.
pub fn read_units(v: Option<&JsonValue>) -> (r: Result<Option<i64>, Error>)
    ensures
        outcome_is(r, units_of(opt(v)), |x: Option<i64>| x),
{
    match v {
        None | Some(JsonValue::Null) => Ok(None),
        Some(JsonValue::Int(n)) => Ok(Some(units_from_int(*n))),
        Some(JsonValue::Fixed(m)) => Ok(Some(*m)),
        Some(_) => Err(Error::Json(JsonError::InvalidType)),
    }
}

/// The value of a boolean field; absent and `null` give `None`.
pub open spec fn bool_of(v: Option<JsonValue>) -> Result<Option<bool>, ErrorView> {
    match v {
        None | Some(JsonValue::Null) => Ok(None),
        Some(JsonValue::Bool(b)) => Ok(Some(b)),
        Some(_) => Err(ErrorView::InvalidType),
    }
}

/// Reads a boolean field.
pub fn read_bool(v: Option<&JsonValue>) -> (r: Result<Option<bool>, Error>)
    ensures
        outcome_is(r, bool_of(opt(v)), |x: Option<bool>| x),
{
    match v {
        None | Some(JsonValue::Null) => Ok(None),
        Some(JsonValue::Bool(b)) => Ok(Some(*b)),
        Some(_) => Err(Error::Json(JsonError::InvalidType)),
    }
}

/// The view of an optional text.
pub open spec fn text_view(o: Option<String>) -> Option<Seq<char>> {
    match o {
        Some(s) => Some(s@),
        None => None,
    }
}

/// The value of a string field; absent and `null` give `None`.
pub open spec fn text_of(v: Option<JsonValue>) -> Result<Option<Seq<char>>, ErrorView> {
    match v {
        None | Some(JsonValue::Null) => Ok(None),
        Some(JsonValue::Str(s)) => Ok(Some(s@)),
        Some(_) => Err(ErrorView::InvalidType),
    }
}

/// Reads a string field.
pub fn read_text(v: Option<&JsonValue>) -> (r: Result<Option<String>, Error>)
    ensures
        outcome_is(r, text_of(opt(v)), |x: Option<String>| text_view(x)),
{
    match v {
        None | Some(JsonValue::Null) => Ok(None),
        Some(JsonValue::Str(s)) => Ok(Some(s.clone())),
        Some(_) => Err(Error::Json(JsonError::InvalidType)),
    }
}

/// The value of a colour field, a CSS colour literal; absent and `null` give `None`.
pub open spec fn color_of(v: Option<JsonValue>) -> Result<Option<Color>, ErrorView> {
    match v {
        None | Some(JsonValue::Null) => Ok(None),
        Some(JsonValue::Str(s)) => match css_rgba(s@) {
            Some(c) => Ok(Some(c)),
            None => Err(ErrorView::InvalidColor(s@)),
        },
        Some(_) => Err(ErrorView::InvalidType),
    }
}

/// Reads a colour field.
pub fn read_color(v: Option<&JsonValue>) -> (r: Result<Option<Color>, Error>)
    ensures
        outcome_is(r, color_of(opt(v)), |x: Option<Color>| x),
{
    match v {
        None | Some(JsonValue::Null) => Ok(None),
        Some(JsonValue::Str(s)) => match color_from_str(s.as_str()) {
            Ok(c) => Ok(Some(c)),
            Err(e) => Err(Error::Json(e)),
        },
        Some(_) => Err(Error::Json(JsonError::InvalidType)),
    }
}

/// The value of a colour list field: one CSS colour literal per line, where a blank line
/// gives no colour; absent and `null` give `None`.
pub open spec fn color_list_of(v: Option<JsonValue>) -> Result<Option<Seq<Option<Color>>>, ErrorView> {
    match v {
        None | Some(JsonValue::Null) => Ok(None),
        Some(JsonValue::Str(s)) => if colors_ok(lines(s@)) {
            Ok(Some(colors_of(lines(s@))))
        } else {
            Err(ErrorView::InvalidColor(first_bad_line(lines(s@))))
        },
        Some(_) => Err(ErrorView::InvalidType),
    }
}

/// Reads a colour list field.
pub fn read_color_list(v: Option<&JsonValue>) -> (r: Result<Option<Vec<Option<Color>>>, Error>)
    ensures
        outcome_is(
            r,
            color_list_of(opt(v)),
            |x: Option<Vec<Option<Color>>>|
                match x {
                    Some(l) => Some(l@),
                    None => None,
                },
        ),
{
    match v {
        None | Some(JsonValue::Null) => Ok(None),
        Some(JsonValue::Str(s)) => match parse_color_list(s.as_str()) {
            Ok(l) => Ok(Some(l)),
            Err(e) => {
                proof {
                    match e {
                        JsonError::InvalidColor(_) => {},
                        _ => {},
                    }
                }
                Err(Error::Json(e))
            },
        },
        Some(_) => Err(Error::Json(JsonError::InvalidType)),
    }
}

/// The value of one whole number in `0..=max`.
pub open spec fn bounded_item(v: JsonValue, max: usize) -> Result<nat, ErrorView> {
    match v {
        JsonValue::Int(n) => if 0 <= n <= max {
            Ok(n as nat)
        } else {
            Err(ErrorView::OutOfRange(n, max))
        },
        _ => Err(ErrorView::InvalidType),
    }
}

/// The value of a font size field, a whole number in `0..=9`; absent and `null` give
/// `None`.
pub open spec fn font_size_of(v: Option<JsonValue>) -> Result<Option<nat>, ErrorView> {
    match v {
        None | Some(JsonValue::Null) => Ok(None),
        Some(w) => match bounded_item(w, 9) {
            Ok(n) => Ok(Some(n)),
            Err(e) => Err(e),
        },
    }
}

/// The view of an optional bounded value.
pub open spec fn bounded_view<const MAX: usize, const DEF: usize>(
    o: Option<crate::bounded::BoundedUsize<MAX, DEF>>,
) -> Option<nat> {
    match o {
        Some(b) => Some(b@),
        None => None,
    }
}

/// Reads one whole number in `0..=9` as a font size.
fn read_font_size_item(v: &JsonValue) -> (r: Result<FontSize, Error>)
    ensures
        outcome_is(r, bounded_item(*v, 9), |x: FontSize| x@),
{
    match v {
        JsonValue::Int(n) => {
            if 0 <= *n && *n <= 9 {
                match FontSize::new(*n as usize) {
                    Ok(f) => Ok(f),
                    Err(_) => Err(Error::Json(JsonError::OutOfRange { value: *n, max: 9 })),
                }
            } else {
                Err(Error::Json(JsonError::OutOfRange { value: *n, max: 9 }))
            }
        },
        _ => Err(Error::Json(JsonError::InvalidType)),
    }
}

/// Reads a font size field.
pub fn read_font_size(v: Option<&JsonValue>) -> (r: Result<Option<FontSize>, Error>)
    ensures
        outcome_is(r, font_size_of(opt(v)), |x: Option<FontSize>| bounded_view(x)),
{
    match v {
        None | Some(JsonValue::Null) => Ok(None),
        Some(w) => match read_font_size_item(w) {
            Ok(f) => Ok(Some(f)),
            Err(e) => Err(e),
        },
    }
}

/// The value of an alignment field, a whole number in `0..=7`; absent and `null` give
/// `None`. A number above 7 is an alignment error.
pub open spec fn alignment_of(v: Option<JsonValue>) -> Result<Option<nat>, ErrorView> {
    match v {
        None | Some(JsonValue::Null) => Ok(None),
        Some(JsonValue::Int(n)) => if n < 0 {
            Err(ErrorView::OutOfRange(n, 7))
        } else if n > 7 {
            Err(ErrorView::Alignment(n as usize))
        } else {
            Ok(Some(n as nat))
        },
        Some(_) => Err(ErrorView::InvalidType),
    }
}

/// Reads an alignment field.
pub fn read_alignment(v: Option<&JsonValue>) -> (r: Result<Option<Alignment>, Error>)
    ensures
        outcome_is(r, alignment_of(opt(v)), |x: Option<Alignment>| bounded_view(x)),
{
    match v {
        None | Some(JsonValue::Null) => Ok(None),
        Some(JsonValue::Int(n)) => {
            if *n < 0 {
                Err(Error::Json(JsonError::OutOfRange { value: *n, max: 7 }))
            } else if *n > 7 {
                Err(Error::Alignment(*n as usize))
            } else {
                match Alignment::new(*n as usize) {
                    Ok(a) => Ok(Some(a)),
                    Err(_) => Err(Error::Alignment(*n as usize)),
                }
            }
        },
        Some(_) => Err(Error::Json(JsonError::InvalidType)),
    }
}

/// The values of an array of font sizes; the first item that is not one fails them all.
pub open spec fn font_sizes_of(items: Seq<JsonValue>) -> Result<Seq<nat>, ErrorView>
    decreases items.len(),
{
    if items.len() == 0 {
        Ok(seq![])
    } else {
        match font_sizes_of(items.drop_last()) {
            Err(e) => Err(e),
            Ok(xs) => match bounded_item(items.last(), 9) {
                Err(e) => Err(e),
                Ok(x) => Ok(xs.push(x)),
            },
        }
    }
}

/// The value of a font size array field; absent and `null` give `None`.
pub open spec fn font_size_list_of(v: Option<JsonValue>) -> Result<Option<Seq<nat>>, ErrorView> {
    match v {
        None | Some(JsonValue::Null) => Ok(None),
        Some(JsonValue::Array(items)) => match font_sizes_of(items@) {
            Ok(xs) => Ok(Some(xs)),
            Err(e) => Err(e),
        },
        Some(_) => Err(ErrorView::InvalidType),
    }
}

/// The values of a sequence of font sizes.
pub open spec fn sizes_view(s: Seq<FontSize>) -> Seq<nat> {
    s.map_values(|f: FontSize| f@)
}

/// Reads a font size array field.
pub fn read_font_size_list(v: Option<&JsonValue>) -> (r: Result<Option<Vec<FontSize>>, Error>)
    ensures
        outcome_is(
            r,
            font_size_list_of(opt(v)),
            |x: Option<Vec<FontSize>>|
                match x {
                    Some(l) => Some(sizes_view(l@)),
                    None => None,
                },
        ),
{
    match v {
        None | Some(JsonValue::Null) => Ok(None),
        Some(JsonValue::Array(items)) => {
            let mut out: Vec<FontSize> = Vec::new();
            let mut i: usize = 0;
            assert(items@.subrange(0, 0) =~= Seq::<JsonValue>::empty());
            assert(sizes_view(out@) =~= Seq::<nat>::empty());
            while i < items.len()
                invariant
                    opt(v) == Some(JsonValue::Array(*items)),
                    i <= items@.len(),
                    font_sizes_of(items@.subrange(0, i as int)) == Ok::<Seq<nat>, ErrorView>(
                        sizes_view(out@),
                    ),
                decreases items@.len() - i,
            {
                let ghost pre = items@.subrange(0, i as int);
                let ghost next = items@.subrange(0, i + 1);
                assert(next.drop_last() == pre);
                assert(next.last() == items@[i as int]);
                match read_font_size_item(&items[i]) {
                    Ok(f) => {
                        assert(bounded_item(items@[i as int], 9) == Ok::<nat, ErrorView>(f@));
                        assert(font_sizes_of(next) == Ok::<Seq<nat>, ErrorView>(sizes_view(out@).push(f@)));
                        let ghost before = out@;
                        out.push(f);
                        assert(sizes_view(out@) =~= sizes_view(before).push(f@));
                    },
                    Err(e) => {
                        proof {
                            assert(bounded_item(items@[i as int], 9) == Err::<nat, ErrorView>(e@));
                            lemma_font_sizes_err(items@, i as int);
                            assert(font_sizes_of(items@) == Err::<Seq<nat>, ErrorView>(e@));
                            assert(font_size_list_of(opt(v)) == Err::<Option<Seq<nat>>, ErrorView>(
                                e@,
                            ));
                        }
                        return Err(e);
                    },
                }
                i = i + 1;
            }
            assert(items@.subrange(0, items@.len() as int) == items@);
            Ok(Some(out))
        },
        Some(_) => Err(Error::Json(JsonError::InvalidType)),
    }
}

/// An item that fails fails the whole array, with its own error, once the items before it
/// are read.
proof fn lemma_font_sizes_err(items: Seq<JsonValue>, i: int)
    requires
        0 <= i < items.len(),
        font_sizes_of(items.subrange(0, i)) is Ok,
        bounded_item(items[i], 9) is Err,
    ensures
        font_sizes_of(items) == Err::<Seq<nat>, ErrorView>(bounded_item(items[i], 9)->Err_0),
    decreases items.len() - i,
{
    let p = items.subrange(0, i + 1);
    assert(p.drop_last() == items.subrange(0, i));
    if i + 1 < items.len() {
        lemma_font_sizes_err_extends(items, i + 1);
    } else {
        assert(p == items);
    }
}

/// Once a prefix fails, every longer prefix fails with the same error.
proof fn lemma_font_sizes_err_extends(items: Seq<JsonValue>, k: int)
    requires
        0 < k <= items.len(),
        font_sizes_of(items.subrange(0, k)) is Err,
    ensures
        font_sizes_of(items) == font_sizes_of(items.subrange(0, k)),
    decreases items.len() - k,
{
    if k < items.len() {
        let p = items.subrange(0, k + 1);
        assert(p.drop_last() == items.subrange(0, k));
        lemma_font_sizes_err_extends(items, k + 1);
    } else {
        assert(items.subrange(0, k) == items);
    }
}

} // verus!
