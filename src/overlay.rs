//! Property overlays: the objects between the legends of a row.
use vstd::prelude::*;

use crate::bounded::{Alignment, FontSize};
use crate::color::Color;
use crate::error::{outcome_is, Error, ErrorView};
use crate::json::{
    alignment_of, bool_of, bounded_view, color_list_of, color_of, field_of, font_size_list_of,
    font_size_of, get_field, read_alignment, read_bool, read_color, read_color_list,
    read_font_size, read_font_size_list, read_text, read_units, sizes_view, text_of, text_view,
    units_of, JsonValue,
};

verus! {

/// A property overlay: an object between the legends of a row that changes the keys after it.
/// Lengths and angles are fixed-point values (see [`crate::units`]).
#[derive(Debug, Clone)]
pub struct KlePropsObject {
    /// Added to the X cursor.
    pub x: Option<i64>,
    /// Added to the Y cursor.
    pub y: Option<i64>,
    /// Width of the next key.
    pub w: Option<i64>,
    /// Height of the next key.
    pub h: Option<i64>,
    /// Relative X position of the second part of the next key.
    pub x2: Option<i64>,
    /// Relative Y position of the second part of the next key.
    pub y2: Option<i64>,
    /// Width of the second part of the next key.
    pub w2: Option<i64>,
    /// Height of the second part of the next key.
    pub h2: Option<i64>,
    /// Rotation angle, in degrees.
    pub r: Option<i64>,
    /// X coordinate of the centre of rotation.
    pub rx: Option<i64>,
    /// Y coordinate of the centre of rotation.
    pub ry: Option<i64>,
    /// Whether the next key is stepped.
    pub l: Option<bool>,
    /// Whether the next key is a homing key.
    pub n: Option<bool>,
    /// Whether the next key is a decal.
    pub d: Option<bool>,
    /// Whether keys are ghosted.
    pub g: Option<bool>,
    /// Switch mount.
    pub sm: Option<String>,
    /// Switch brand.
    pub sb: Option<String>,
    /// Switch type.
    pub st: Option<String>,
    /// Key colour.
    pub c: Option<Color>,
    /// Legend colours, one per line; the first is also the fallback.
    pub t: Option<Vec<Option<Color>>>,
    /// Legend alignment.
    pub a: Option<Alignment>,
    /// Keycap profile.
    pub p: Option<String>,
    /// Fallback font size.
    pub f: Option<FontSize>,
    /// Font size of all legends but the first.
    pub f2: Option<FontSize>,
    /// Font size of each legend.
    pub fa: Option<Vec<FontSize>>,
}

/// What a [`KlePropsObject`] holds, with texts as characters and bounded numbers as `nat`.
pub struct OverlayView {
    pub x: Option<i64>,
    pub y: Option<i64>,
    pub w: Option<i64>,
    pub h: Option<i64>,
    pub x2: Option<i64>,
    pub y2: Option<i64>,
    pub w2: Option<i64>,
    pub h2: Option<i64>,
    pub r: Option<i64>,
    pub rx: Option<i64>,
    pub ry: Option<i64>,
    pub l: Option<bool>,
    pub n: Option<bool>,
    pub d: Option<bool>,
    pub g: Option<bool>,
    pub sm: Option<Seq<char>>,
    pub sb: Option<Seq<char>>,
    pub st: Option<Seq<char>>,
    pub c: Option<Color>,
    pub t: Option<Seq<Option<Color>>>,
    pub a: Option<nat>,
    pub p: Option<Seq<char>>,
    pub f: Option<nat>,
    pub f2: Option<nat>,
    pub fa: Option<Seq<nat>>,
}

impl View for KlePropsObject {
    type V = OverlayView;

    open spec fn view(&self) -> OverlayView {
        OverlayView {
            x: self.x,
            y: self.y,
            w: self.w,
            h: self.h,
            x2: self.x2,
            y2: self.y2,
            w2: self.w2,
            h2: self.h2,
            r: self.r,
            rx: self.rx,
            ry: self.ry,
            l: self.l,
            n: self.n,
            d: self.d,
            g: self.g,
            sm: text_view(self.sm),
            sb: text_view(self.sb),
            st: text_view(self.st),
            c: self.c,
            t: match self.t { Some(l) => Some(l@), None => None },
            a: bounded_view(self.a),
            p: text_view(self.p),
            f: bounded_view(self.f),
            f2: bounded_view(self.f2),
            fa: match self.fa { Some(l) => Some(sizes_view(l@)), None => None },
        }
    }
}

impl Default for KlePropsObject {
    /// An overlay that sets nothing.
    fn default() -> (r: KlePropsObject)
        ensures
            r.x is None,
            r.y is None,
            r.w is None,
            r.h is None,
            r.x2 is None,
            r.y2 is None,
            r.w2 is None,
            r.h2 is None,
            r.r is None,
            r.rx is None,
            r.ry is None,
            r.l is None,
            r.n is None,
            r.d is None,
            r.g is None,
            r.sm is None,
            r.sb is None,
            r.st is None,
            r.c is None,
            r.t is None,
            r.a is None,
            r.p is None,
            r.f is None,
            r.f2 is None,
            r.fa is None,
    {
        KlePropsObject {
            x: None,
            y: None,
            w: None,
            h: None,
            x2: None,
            y2: None,
            w2: None,
            h2: None,
            r: None,
            rx: None,
            ry: None,
            l: None,
            n: None,
            d: None,
            g: None,
            sm: None,
            sb: None,
            st: None,
            c: None,
            t: None,
            a: None,
            p: None,
            f: None,
            f2: None,
            fa: None,
        }
    }
}

/// The overlay that the members `fs` of an object describe. Members are read in the order
/// of [`KlePropsObject`]'s fields, and the first that fails gives the error; unknown members
/// are ignored.
pub open spec fn overlay_of(fs: Seq<(String, JsonValue)>) -> Result<OverlayView, ErrorView> {
    let x = units_of(field_of(fs, "x"@));
    let y = units_of(field_of(fs, "y"@));
    let w = units_of(field_of(fs, "w"@));
    let h = units_of(field_of(fs, "h"@));
    let x2 = units_of(field_of(fs, "x2"@));
    let y2 = units_of(field_of(fs, "y2"@));
    let w2 = units_of(field_of(fs, "w2"@));
    let h2 = units_of(field_of(fs, "h2"@));
    let r = units_of(field_of(fs, "r"@));
    let rx = units_of(field_of(fs, "rx"@));
    let ry = units_of(field_of(fs, "ry"@));
    let l = bool_of(field_of(fs, "l"@));
    let n = bool_of(field_of(fs, "n"@));
    let d = bool_of(field_of(fs, "d"@));
    let g = bool_of(field_of(fs, "g"@));
    let sm = text_of(field_of(fs, "sm"@));
    let sb = text_of(field_of(fs, "sb"@));
    let st = text_of(field_of(fs, "st"@));
    let c = color_of(field_of(fs, "c"@));
    let t = color_list_of(field_of(fs, "t"@));
    let a = alignment_of(field_of(fs, "a"@));
    let p = text_of(field_of(fs, "p"@));
    let f = font_size_of(field_of(fs, "f"@));
    let f2 = font_size_of(field_of(fs, "f2"@));
    let fa = font_size_list_of(field_of(fs, "fa"@));
    if x is Err {
        Err(x->Err_0)
    } else if y is Err {
        Err(y->Err_0)
    } else if w is Err {
        Err(w->Err_0)
    } else if h is Err {
        Err(h->Err_0)
    } else if x2 is Err {
        Err(x2->Err_0)
    } else if y2 is Err {
        Err(y2->Err_0)
    } else if w2 is Err {
        Err(w2->Err_0)
    } else if h2 is Err {
        Err(h2->Err_0)
    } else if r is Err {
        Err(r->Err_0)
    } else if rx is Err {
        Err(rx->Err_0)
    } else if ry is Err {
        Err(ry->Err_0)
    } else if l is Err {
        Err(l->Err_0)
    } else if n is Err {
        Err(n->Err_0)
    } else if d is Err {
        Err(d->Err_0)
    } else if g is Err {
        Err(g->Err_0)
    } else if sm is Err {
        Err(sm->Err_0)
    } else if sb is Err {
        Err(sb->Err_0)
    } else if st is Err {
        Err(st->Err_0)
    } else if c is Err {
        Err(c->Err_0)
    } else if t is Err {
        Err(t->Err_0)
    } else if a is Err {
        Err(a->Err_0)
    } else if p is Err {
        Err(p->Err_0)
    } else if f is Err {
        Err(f->Err_0)
    } else if f2 is Err {
        Err(f2->Err_0)
    } else if fa is Err {
        Err(fa->Err_0)
    } else {
        Ok(OverlayView {
            x: x->Ok_0,
            y: y->Ok_0,
            w: w->Ok_0,
            h: h->Ok_0,
            x2: x2->Ok_0,
            y2: y2->Ok_0,
            w2: w2->Ok_0,
            h2: h2->Ok_0,
            r: r->Ok_0,
            rx: rx->Ok_0,
            ry: ry->Ok_0,
            l: l->Ok_0,
            n: n->Ok_0,
            d: d->Ok_0,
            g: g->Ok_0,
            sm: sm->Ok_0,
            sb: sb->Ok_0,
            st: st->Ok_0,
            c: c->Ok_0,
            t: t->Ok_0,
            a: a->Ok_0,
            p: p->Ok_0,
            f: f->Ok_0,
            f2: f2->Ok_0,
            fa: fa->Ok_0,
        })
    }
}

impl KlePropsObject {
    /// Reads an overlay from the members of a JSON object.
    pub fn from_json(fs: &Vec<(String, JsonValue)>) -> (r: Result<KlePropsObject, Error>)
        ensures
            outcome_is(r, overlay_of(fs@), |o: KlePropsObject| o@),
    {
        let x = match read_units(get_field(fs, "x")) {
            Ok(v) => v,
            Err(e) => return Err(e),
        };
        let y = match read_units(get_field(fs, "y")) {
            Ok(v) => v,
            Err(e) => return Err(e),
        };
        let w = match read_units(get_field(fs, "w")) {
            Ok(v) => v,
            Err(e) => return Err(e),
        };
        let h = match read_units(get_field(fs, "h")) {
            Ok(v) => v,
            Err(e) => return Err(e),
        };
        let x2 = match read_units(get_field(fs, "x2")) {
            Ok(v) => v,
            Err(e) => return Err(e),
        };
        let y2 = match read_units(get_field(fs, "y2")) {
            Ok(v) => v,
            Err(e) => return Err(e),
        };
        let w2 = match read_units(get_field(fs, "w2")) {
            Ok(v) => v,
            Err(e) => return Err(e),
        };
        let h2 = match read_units(get_field(fs, "h2")) {
            Ok(v) => v,
            Err(e) => return Err(e),
        };
        let r = match read_units(get_field(fs, "r")) {
            Ok(v) => v,
            Err(e) => return Err(e),
        };
        let rx = match read_units(get_field(fs, "rx")) {
            Ok(v) => v,
            Err(e) => return Err(e),
        };
        let ry = match read_units(get_field(fs, "ry")) {
            Ok(v) => v,
            Err(e) => return Err(e),
        };
        let l = match read_bool(get_field(fs, "l")) {
            Ok(v) => v,
            Err(e) => return Err(e),
        };
        let n = match read_bool(get_field(fs, "n")) {
            Ok(v) => v,
            Err(e) => return Err(e),
        };
        let d = match read_bool(get_field(fs, "d")) {
            Ok(v) => v,
            Err(e) => return Err(e),
        };
        let g = match read_bool(get_field(fs, "g")) {
            Ok(v) => v,
            Err(e) => return Err(e),
        };
        let sm = match read_text(get_field(fs, "sm")) {
            Ok(v) => v,
            Err(e) => return Err(e),
        };
        let sb = match read_text(get_field(fs, "sb")) {
            Ok(v) => v,
            Err(e) => return Err(e),
        };
        let st = match read_text(get_field(fs, "st")) {
            Ok(v) => v,
            Err(e) => return Err(e),
        };
        let c = match read_color(get_field(fs, "c")) {
            Ok(v) => v,
            Err(e) => return Err(e),
        };
        let t = match read_color_list(get_field(fs, "t")) {
            Ok(v) => v,
            Err(e) => return Err(e),
        };
        let a = match read_alignment(get_field(fs, "a")) {
            Ok(v) => v,
            Err(e) => return Err(e),
        };
        let p = match read_text(get_field(fs, "p")) {
            Ok(v) => v,
            Err(e) => return Err(e),
        };
        let f = match read_font_size(get_field(fs, "f")) {
            Ok(v) => v,
            Err(e) => return Err(e),
        };
        let f2 = match read_font_size(get_field(fs, "f2")) {
            Ok(v) => v,
            Err(e) => return Err(e),
        };
        let fa = match read_font_size_list(get_field(fs, "fa")) {
            Ok(v) => v,
            Err(e) => return Err(e),
        };
        Ok(KlePropsObject {
            x,
            y,
            w,
            h,
            x2,
            y2,
            w2,
            h2,
            r,
            rx,
            ry,
            l,
            n,
            d,
            g,
            sm,
            sb,
            st,
            c,
            t,
            a,
            p,
            f,
            f2,
            fa,
        })
    }
}

} // verus!
