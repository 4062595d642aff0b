//! Colours: the default colours of a layout and the reading of CSS colour literals.
use vstd::prelude::*;

use crate::error::JsonError;
use crate::text::{lines, split_lines};

verus! {

/// Declares `rgb::Rgba`, the pixel type of the `rgb` crate: four public components `r`,
/// `g`, `b`, `a`, which Verus reads as they stand.
#[verifier::external_type_specification]
#[verifier::reject_recursive_types(T)]
#[verifier::reject_recursive_types(A)]
pub struct ExRgba<T, A>(rgb::Rgba<T, A>);

/// Relies on `rgb::Rgba`'s derived `Clone`, which the derived `Clone` of the layout types
/// calls; nothing is claimed of its result.
pub assume_specification<T: Clone, A: Clone>[ <rgb::Rgba<T, A> as Clone>::clone ](
    c: &rgb::Rgba<T, A>,
) -> rgb::Rgba<T, A>;

/// An 8-bit RGBA colour.
pub type Color = rgb::RGBA8;

/// The colour with the given components.
pub open spec fn rgba(r: u8, g: u8, b: u8, a: u8) -> Color {
    Color { r, g, b, a }
}

/// The default background colour, `#EEEEEE`.
pub open spec fn background_default() -> Color {
    rgba(0xEE, 0xEE, 0xEE, 0xFF)
}

/// The default key colour, `#CCCCCC`.
pub open spec fn key_default() -> Color {
    rgba(0xCC, 0xCC, 0xCC, 0xFF)
}

/// The default legend colour, `#000000`.
pub open spec fn legend_default() -> Color {
    rgba(0x00, 0x00, 0x00, 0xFF)
}

/// The default background colour, `#EEEEEE`.
pub fn background_color() -> (c: Color)
    ensures
        c == background_default(),
{
    Color { r: 0xEE, g: 0xEE, b: 0xEE, a: 0xFF }
}

/// The default key colour, `#CCCCCC`.
pub fn key_color() -> (c: Color)
    ensures
        c == key_default(),
{
    Color { r: 0xCC, g: 0xCC, b: 0xCC, a: 0xFF }
}

/// The default legend colour, `#000000`.
pub fn legend_color() -> (c: Color)
    ensures
        c == legend_default(),
{
    Color { r: 0x00, g: 0x00, b: 0x00, a: 0xFF }
}

/// The colour that a CSS colour literal denotes, rounded to 8 bits per component, or
/// `None` where the literal does not parse.
pub uninterp spec fn css_rgba(s: Seq<char>) -> Option<Color>;

/// Relies on `csscolorparser::parse` to read a CSS colour literal (named colours, hex,
/// `rgb()`, `hsl()`, `hwb()`, with optional alpha), and on its `Color::to_rgba8` to round
/// the result to 8 bits per component. Both depend on the text alone.
#[verifier::external_body]
fn parse_css(s: &str) -> (r: Option<Color>)
    ensures
        r == css_rgba(s@),
{
    csscolorparser::parse(s).ok().map(|c| {
        let [r, g, b, a] = c.to_rgba8();
        Color { r, g, b, a }
    })
}

/// `e` reports that the colour literal `s` does not parse.
pub open spec fn is_color_error(e: JsonError, s: Seq<char>) -> bool {
    match e {
        JsonError::InvalidColor(t) => t@ == s,
        _ => false,
    }
}

/// Reads a CSS colour literal.
pub fn color_from_str(s: &str) -> (r: Result<Color, JsonError>)
    ensures
        css_rgba(s@) is Some ==> r == Ok::<Color, JsonError>(css_rgba(s@)->0),
        css_rgba(s@) is None ==> r is Err && is_color_error(r->Err_0, s@),
{
    match parse_css(s) {
        Some(c) => Ok(c),
        None => Err(JsonError::InvalidColor(s.to_owned())),
    }
}

/// The slot colour that one line of a colour list gives: `Some(None)` for a blank line,
/// `Some(Some(c))` for a literal that parses, `None` for one that does not.
pub open spec fn slot_color(l: Seq<char>) -> Option<Option<Color>> {
    if l.len() == 0 {
        Some(None)
    } else {
        match css_rgba(l) {
            Some(c) => Some(Some(c)),
            None => None,
        }
    }
}

/// Every line of `ls` is blank or a colour literal that parses.
pub open spec fn colors_ok(ls: Seq<Seq<char>>) -> bool {
    forall|i: int| 0 <= i < ls.len() ==> (#[trigger] slot_color(ls[i])) is Some
}

/// The slot colours of the lines `ls`, one for each line.
pub open spec fn colors_of(ls: Seq<Seq<char>>) -> Seq<Option<Color>> {
    Seq::new(ls.len(), |i: int| slot_color(ls[i]).unwrap_or(None))
}

/// The first line of `ls` that is neither blank nor a colour literal (empty if there is none).
pub open spec fn first_bad_line(ls: Seq<Seq<char>>) -> Seq<char>
    decreases ls.len(),
{
    if ls.len() == 0 {
        seq![]
    } else if slot_color(ls[0]) is None {
        ls[0]
    } else {
        first_bad_line(ls.drop_first())
    }
}

proof fn lemma_first_bad_line(ls: Seq<Seq<char>>, i: int)
    requires
        0 <= i < ls.len(),
        slot_color(ls[i]) is None,
        forall|j: int| 0 <= j < i ==> (#[trigger] slot_color(ls[j])) is Some,
    ensures
        first_bad_line(ls) == ls[i],
    decreases i,
{
    if i > 0 {
        let rest = ls.drop_first();
        assert forall|j: int| 0 <= j < i - 1 implies (#[trigger] slot_color(rest[j])) is Some by {
            assert(rest[j] == ls[j + 1]);
        }
        lemma_first_bad_line(rest, i - 1);
    }
}

/// Reads a colour list: one colour literal per line, where a blank line gives no colour.
pub fn parse_color_list(s: &str) -> (r: Result<Vec<Option<Color>>, JsonError>)
    ensures
        r is Ok <==> colors_ok(lines(s@)),
        r is Ok ==> r->Ok_0@ == colors_of(lines(s@)),
        r is Err ==> is_color_error(r->Err_0, first_bad_line(lines(s@))),
{
    let ls = split_lines(s);
    let ghost spec_ls = lines(s@);
    let mut out: Vec<Option<Color>> = Vec::new();
    let mut i: usize = 0;
    while i < ls.len()
        invariant
            spec_ls == lines(s@),
            ls@.len() == spec_ls.len(),
            forall|j: int| 0 <= j < ls@.len() ==> #[trigger] ls@[j]@ == spec_ls[j],
            i <= ls@.len(),
            out@ == colors_of(spec_ls).subrange(0, i as int),
            forall|j: int| 0 <= j < i ==> (#[trigger] slot_color(spec_ls[j])) is Some,
        decreases ls@.len() - i,
    {
        let l = ls[i].as_str();
        assert(l@ == spec_ls[i as int]);
        if l.is_empty() {
            out.push(None);
        } else {
            match color_from_str(l) {
                Ok(c) => out.push(Some(c)),
                Err(e) => {
                    proof {
                        let k = i as int;
                        assert(slot_color(spec_ls[k]) is None);
                        assert(!colors_ok(spec_ls));
                        lemma_first_bad_line(spec_ls, k);
                    }
                    return Err(e);
                },
            }
        }
        assert(out@ =~= colors_of(spec_ls).subrange(0, i + 1));
        i = i + 1;
    }
    assert(out@ =~= colors_of(spec_ls));
    Ok(out)
}

} // verus!
