//! The property cursor: the state that carries key properties from one key of a layout to
//! the next, and the building of keys from it.
use vstd::prelude::*;

use crate::align::{lemma_tables_inverse, realign_legends, realigned, NUM_LEGENDS};
use crate::bounded::{Alignment, FontSize};
use crate::color::{key_color, key_default, legend_color, legend_default, Color};
use crate::model::{slot_view, slots_view, Key, KeyView, Legend, LegendView, Switch, SwitchView};
use crate::overlay::{KlePropsObject, OverlayView};
use crate::text::{lines, split_lines};
use crate::units::{add_units, saturate, UNIT};

verus! {

broadcast use vstd::array::group_array_axioms;

/// The property cursor. Lengths and angles are fixed-point values (see [`crate::units`]).
///
/// The per-key properties (`w` to `d`) fall back to their defaults after each key; `x` and
/// `y` are the running position; the others persist until an overlay changes them.
#[derive(Debug, Clone)]
pub struct KleProps {
    /// The X position of the next key.
    pub x: i64,
    /// The Y position of the next key.
    pub y: i64,
    /// The width of the next key.
    pub w: i64,
    /// The height of the next key.
    pub h: i64,
    /// The relative X position of the second part of the next key.
    pub x2: i64,
    /// The relative Y position of the second part of the next key.
    pub y2: i64,
    /// The width of the second part of the next key.
    pub w2: i64,
    /// The height of the second part of the next key.
    pub h2: i64,
    /// Whether the next key is stepped.
    pub l: bool,
    /// Whether the next key is a homing key.
    pub n: bool,
    /// Whether the next key is a decal.
    pub d: bool,
    /// The rotation angle, in degrees.
    pub r: i64,
    /// The X coordinate of the centre of rotation.
    pub rx: i64,
    /// The Y coordinate of the centre of rotation.
    pub ry: i64,
    /// Whether keys are ghosted.
    pub g: bool,
    /// The switch mount.
    pub sm: String,
    /// The switch brand.
    pub sb: String,
    /// The switch type.
    pub st: String,
    /// The key colour.
    pub c: Color,
    /// The fallback legend colour.
    pub t: Color,
    /// The colour of each legend slot.
    pub ta: [Color; 12],
    /// The legend alignment.
    pub a: Alignment,
    /// The keycap profile.
    pub p: String,
    /// The fallback font size.
    pub f: FontSize,
    /// The font size of each legend slot.
    pub fa: [FontSize; 12],
}

/// What a [`KleProps`] holds, with texts as characters and bounded numbers as `nat`.
pub struct CursorView {
    pub x: i64,
    pub y: i64,
    pub w: i64,
    pub h: i64,
    pub x2: i64,
    pub y2: i64,
    pub w2: i64,
    pub h2: i64,
    pub l: bool,
    pub n: bool,
    pub d: bool,
    pub r: i64,
    pub rx: i64,
    pub ry: i64,
    pub g: bool,
    pub sm: Seq<char>,
    pub sb: Seq<char>,
    pub st: Seq<char>,
    pub c: Color,
    pub t: Color,
    pub ta: Seq<Color>,
    pub a: nat,
    pub p: Seq<char>,
    pub f: nat,
    pub fa: Seq<nat>,
}

impl View for KleProps {
    type V = CursorView;

    open spec fn view(&self) -> CursorView {
        CursorView {
            x: self.x,
            y: self.y,
            w: self.w,
            h: self.h,
            x2: self.x2,
            y2: self.y2,
            w2: self.w2,
            h2: self.h2,
            l: self.l,
            n: self.n,
            d: self.d,
            r: self.r,
            rx: self.rx,
            ry: self.ry,
            g: self.g,
            sm: self.sm@,
            sb: self.sb@,
            st: self.st@,
            c: self.c,
            t: self.t,
            ta: self.ta@,
            a: self.a@,
            p: self.p@,
            f: self.f@,
            fa: self.fa@.map_values(|s: FontSize| s@),
        }
    }
}

/// The cursor before the first key: at the origin, with every property at its default.
pub open spec fn initial_cursor() -> CursorView {
    CursorView {
        x: 0,
        y: 0,
        w: UNIT,
        h: UNIT,
        x2: 0,
        y2: 0,
        w2: UNIT,
        h2: UNIT,
        l: false,
        n: false,
        d: false,
        r: 0,
        rx: 0,
        ry: 0,
        g: false,
        sm: seq![],
        sb: seq![],
        st: seq![],
        c: key_default(),
        t: legend_default(),
        ta: Seq::new(NUM_LEGENDS as nat, |i: int| legend_default()),
        a: 4,
        p: seq![],
        f: 3,
        fa: Seq::new(NUM_LEGENDS as nat, |i: int| 3nat),
    }
}

/// The value in `o`, or `d`.
pub open spec fn or_else<T>(o: Option<T>, d: T) -> T {
    match o {
        Some(v) => v,
        None => d,
    }
}

/// The font size of each slot after an overlay, with `f` the new fallback size: from the
/// overlay's array (a missing or zero entry takes `f`); else `f` then the secondary size;
/// else `f` everywhere where the overlay sets it; else unchanged.
pub open spec fn font_sizes_after(c: CursorView, o: OverlayView, f: nat) -> Seq<nat> {
    match o.fa {
        Some(fa) => Seq::new(
            NUM_LEGENDS as nat,
            |i: int| if i < fa.len() && fa[i] > 0 { fa[i] } else { f },
        ),
        None => match o.f2 {
            Some(f2) => Seq::new(NUM_LEGENDS as nat, |i: int| if i == 0 { f } else { f2 }),
            None => if o.f is Some {
                Seq::new(NUM_LEGENDS as nat, |i: int| f)
            } else {
                c.fa
            },
        },
    }
}

/// The fallback legend colour after an overlay: the first entry of its colour list, if it
/// has one, else the previous fallback.
pub open spec fn fallback_color_after(c: CursorView, o: OverlayView) -> Color {
    match o.t {
        Some(t) => if t.len() > 0 && t[0] is Some {
            t[0]->0
        } else {
            c.t
        },
        None => c.t,
    }
}

/// The colour of each legend slot after an overlay, with `t` the new fallback colour.
pub open spec fn legend_colors_after(c: CursorView, o: OverlayView, t: Color) -> Seq<Color> {
    match o.t {
        Some(ta) => Seq::new(
            NUM_LEGENDS as nat,
            |i: int| if i < ta.len() && ta[i] is Some { ta[i]->0 } else { t },
        ),
        None => c.ta,
    }
}

/// The cursor after the overlay `o`.
///
/// Setting `rx` or `ry` moves the running position to the centre of rotation before `x`
/// and `y` are added; sizes are replaced (or reset), never added; the second rectangle
/// defaults to the first; the persistent properties keep their values where `o` is silent.
pub open spec fn applied(c: CursorView, o: OverlayView) -> CursorView {
    let f = or_else(o.f, c.f);
    let t = fallback_color_after(c, o);
    let anchored = o.rx is Some || o.ry is Some;
    let rx = or_else(o.rx, c.rx);
    let ry = or_else(o.ry, c.ry);
    let bx = if anchored { rx } else { c.x };
    let by = if anchored { ry } else { c.y };
    CursorView {
        x: saturate(bx + or_else(o.x, 0)),
        y: saturate(by + or_else(o.y, 0)),
        w: or_else(o.w, UNIT),
        h: or_else(o.h, UNIT),
        x2: or_else(o.x2, 0),
        y2: or_else(o.y2, 0),
        w2: or_else(o.w2, or_else(o.w, UNIT)),
        h2: or_else(o.h2, or_else(o.h, UNIT)),
        l: or_else(o.l, false),
        n: or_else(o.n, false),
        d: or_else(o.d, false),
        r: or_else(o.r, c.r),
        rx,
        ry,
        g: or_else(o.g, c.g),
        sm: or_else(o.sm, c.sm),
        sb: or_else(o.sb, c.sb),
        st: or_else(o.st, c.st),
        c: or_else(o.c, c.c),
        t,
        ta: legend_colors_after(c, o, t),
        a: or_else(o.a, c.a),
        p: or_else(o.p, c.p),
        f,
        fa: font_sizes_after(c, o, f),
    }
}

/// The cursor after a key: moved right by the key's width, per-key properties reset.
pub open spec fn advanced_key(c: CursorView) -> CursorView {
    CursorView {
        x: saturate(c.x + c.w),
        w: UNIT,
        h: UNIT,
        x2: 0,
        y2: 0,
        w2: UNIT,
        h2: UNIT,
        l: false,
        n: false,
        d: false,
        ..c
    }
}

/// The cursor at the start of the next row: as after a key, then back to the centre of
/// rotation's X and down one unit.
pub open spec fn advanced_row(c: CursorView) -> CursorView {
    let k = advanced_key(c);
    CursorView { x: c.rx, y: saturate(c.y + UNIT), ..k }
}

/// The legend slots, in written order, that the lines `ls` give under the cursor `c`: a
/// line that is missing or empty gives no legend.
pub open spec fn written_slots(c: CursorView, ls: Seq<Seq<char>>) -> Seq<Option<LegendView>> {
    Seq::new(
        NUM_LEGENDS as nat,
        |i: int|
            if i < ls.len() && ls[i].len() > 0 {
                Some(LegendView { text: ls[i], size: c.fa[i], color: c.ta[i] })
            } else {
                None
            },
    )
}

/// The key that the legend text `blob` gives under the cursor `c`.
pub open spec fn emitted(c: CursorView, blob: Seq<char>) -> KeyView {
    KeyView {
        legends: realigned(written_slots(c, lines(blob)), c.a as int),
        color: c.c,
        x: c.x,
        y: c.y,
        width: c.w,
        height: c.h,
        x2: c.x2,
        y2: c.y2,
        width2: c.w2,
        height2: c.h2,
        rotation: c.r,
        rx: c.rx,
        ry: c.ry,
        profile: c.p,
        switch: SwitchView { mount: c.sm, brand: c.sb, typ: c.st },
        ghosted: c.g,
        stepped: c.l,
        homing: c.n,
        decal: c.d,
    }
}

/// The value in `o`, or 0.
fn or_zero(o: Option<i64>) -> (r: i64)
    ensures
        r == or_else(o, 0),
{
    match o {
        Some(v) => v,
        None => 0,
    }
}

/// The value in `o`, or `false`.
fn or_false(o: Option<bool>) -> (r: bool)
    ensures
        r == or_else(o, false),
{
    match o {
        Some(v) => v,
        None => false,
    }
}

impl Default for KleProps {
    /// The cursor before the first key.
    fn default() -> (r: KleProps)
        ensures
            r@ == initial_cursor(),
    {
        let f = FontSize::default_value();
        let lc = legend_color();
        let r = KleProps {
            x: 0,
            y: 0,
            w: UNIT,
            h: UNIT,
            x2: 0,
            y2: 0,
            w2: UNIT,
            h2: UNIT,
            l: false,
            n: false,
            d: false,
            r: 0,
            rx: 0,
            ry: 0,
            g: false,
            sm: String::new(),
            sb: String::new(),
            st: String::new(),
            c: key_color(),
            t: lc,
            ta: [lc, lc, lc, lc, lc, lc, lc, lc, lc, lc, lc, lc],
            a: Alignment::default_value(),
            p: String::new(),
            f,
            fa: [f; 12],
        };
        assert(r@.ta =~= initial_cursor().ta);
        assert(r@.fa =~= initial_cursor().fa);
        r
    }
}

impl KleProps {
    /// The font size of each slot after the overlay `props`, with `f` the new fallback.
    fn font_sizes_for(&self, props: &KlePropsObject, f: FontSize) -> (r: [FontSize; 12])
        ensures
            r@.map_values(|s: FontSize| s@) == font_sizes_after(self@, props@, f@),
    {
        let ghost o = props@;
        let r: [FontSize; 12] = match &props.fa {
            Some(list) => {
                let mut out: [FontSize; 12] = [f; 12];
                let mut i: usize = 0;
                while i < NUM_LEGENDS
                    invariant
                        i <= NUM_LEGENDS,
                        forall|j: int|
                            0 <= j < i ==> (#[trigger] out@[j])@ == (if j < list@.len() && list@[j]@
                                > 0 {
                                list@[j]@
                            } else {
                                f@
                            }),
                        forall|j: int| i <= j < NUM_LEGENDS ==> #[trigger] out@[j] == f,
                    decreases NUM_LEGENDS - i,
                {
                    if i < list.len() && list[i].value() > 0 {
                        out[i] = list[i];
                    }
                    i = i + 1;
                }
                assert(o.fa == Some(list@.map_values(|s: FontSize| s@)));
                out
            },
            None => match props.f2 {
                Some(f2) => {
                    let mut out: [FontSize; 12] = [f2; 12];
                    out[0] = f;
                    out
                },
                None => if props.f.is_some() {
                    [f; 12]
                } else {
                    self.fa
                },
            },
        };
        assert(r@.map_values(|s: FontSize| s@) =~= font_sizes_after(self@, o, f@));
        r
    }

    /// The fallback legend colour and the colour of each slot after the overlay `props`.
    fn legend_colors_for(&self, props: &KlePropsObject) -> (r: (Color, [Color; 12]))
        ensures
            r.0 == fallback_color_after(self@, props@),
            r.1@ == legend_colors_after(self@, props@, r.0),
    {
        let ghost o = props@;
        let t = match &props.t {
            Some(list) => if list.len() > 0 {
                match list[0] {
                    Some(first) => first,
                    None => self.t,
                }
            } else {
                self.t
            },
            None => self.t,
        };
        let ta: [Color; 12] = match &props.t {
            Some(list) => {
                let mut out: [Color; 12] = [t; 12];
                let mut i: usize = 0;
                while i < NUM_LEGENDS
                    invariant
                        i <= NUM_LEGENDS,
                        forall|j: int|
                            0 <= j < i ==> #[trigger] out@[j] == (if j < list@.len() && list@[j] is Some {
                                list@[j]->0
                            } else {
                                t
                            }),
                        forall|j: int| i <= j < NUM_LEGENDS ==> #[trigger] out@[j] == t,
                    decreases NUM_LEGENDS - i,
                {
                    if i < list.len() {
                        match list[i] {
                            Some(col) => {
                                out[i] = col;
                            },
                            None => {},
                        }
                    }
                    i = i + 1;
                }
                out
            },
            None => self.ta,
        };
        assert(ta@ =~= legend_colors_after(self@, o, t));
        (t, ta)
    }

    /// Applies the overlay `props` to the cursor.
    pub fn update(&mut self, props: KlePropsObject)
        ensures
            final(self)@ == applied(old(self)@, props@),
    {
        self.apply(&props);
    }

    /// Applies the overlay `props` to the cursor.
    pub fn apply(&mut self, props: &KlePropsObject)
        ensures
            final(self)@ == applied(old(self)@, props@),
    {
        let ghost c0 = self@;
        let ghost o = props@;
        let ghost target = applied(c0, o);
        let f = match props.f {
            Some(f) => f,
            None => self.f,
        };
        let fa = self.font_sizes_for(props, f);
        let (t, ta) = self.legend_colors_for(props);
        let anchored = props.rx.is_some() || props.ry.is_some();
        let rx = match props.rx {
            Some(v) => v,
            None => self.rx,
        };
        let ry = match props.ry {
            Some(v) => v,
            None => self.ry,
        };
        let bx = if anchored { rx } else { self.x };
        let by = if anchored { ry } else { self.y };
        let x = add_units(bx, or_zero(props.x));
        let y = add_units(by, or_zero(props.y));
        let w = match props.w { Some(v) => v, None => UNIT };
        let h = match props.h { Some(v) => v, None => UNIT };
        let w2 = match props.w2 { Some(v) => v, None => w };
        let h2 = match props.h2 { Some(v) => v, None => h };
        let r = match props.r { Some(v) => v, None => self.r };
        let g = match props.g { Some(v) => v, None => self.g };
        let c = match props.c { Some(v) => v, None => self.c };
        let a = match props.a { Some(v) => v, None => self.a };
        let sm = match &props.sm {
            Some(v) => v.clone(),
            None => self.sm.clone(),
        };
        let sb = match &props.sb {
            Some(v) => v.clone(),
            None => self.sb.clone(),
        };
        let st = match &props.st {
            Some(v) => v.clone(),
            None => self.st.clone(),
        };
        let p = match &props.p {
            Some(v) => v.clone(),
            None => self.p.clone(),
        };
        *self = KleProps {
            x,
            y,
            w,
            h,
            x2: or_zero(props.x2),
            y2: or_zero(props.y2),
            w2,
            h2,
            l: or_false(props.l),
            n: or_false(props.n),
            d: or_false(props.d),
            r,
            rx,
            ry,
            g,
            sm,
            sb,
            st,
            c,
            t,
            ta,
            a,
            p,
            f,
            fa,
        };
        // Field by field: the solver finds the whole equality slowly on its own.
        proof {
            assert(self@.x == target.x);
            assert(self@.y == target.y);
            assert(self@.w2 == target.w2);
            assert(self@.sm == target.sm);
            assert(self@.ta == target.ta);
            assert(self@.fa == target.fa);
            assert(self@.a == target.a);
        }
    }

    /// Moves past a key: right by its width, with the per-key properties reset.
    pub fn next_key(&mut self)
        ensures
            final(self)@ == advanced_key(old(self)@),
    {
        self.x = add_units(self.x, self.w);
        self.w = UNIT;
        self.h = UNIT;
        self.x2 = 0;
        self.y2 = 0;
        self.w2 = UNIT;
        self.h2 = UNIT;
        self.l = false;
        self.n = false;
        self.d = false;
    }

    /// Moves to the start of the next row: past the current key, then to the centre of
    /// rotation's X and down one unit.
    pub fn next_line(&mut self)
        ensures
            final(self)@ == advanced_row(old(self)@),
    {
        let y = self.y;
        self.next_key();
        self.x = self.rx;
        self.y = add_units(y, UNIT);
    }

    /// The key that the legend text `legends` gives at the cursor: its lines fill the
    /// legend slots in written order (an empty line leaves its slot empty, lines past the
    /// twelfth are dropped), then move to display order under the cursor's alignment.
    pub fn build_key(&self, legends: &str) -> (r: Key)
        ensures
            r@ == emitted(self@, legends@),
    {
        let ls = split_lines(legends);
        let ghost spec_ls = lines(legends@);
        let mut written: [Option<Legend>; 12] = [
            None,
            None,
            None,
            None,
            None,
            None,
            None,
            None,
            None,
            None,
            None,
            None,
        ];
        let mut i: usize = 0;
        while i < NUM_LEGENDS
            invariant
                i <= NUM_LEGENDS,
                ls@.len() == spec_ls.len(),
                forall|j: int| 0 <= j < ls@.len() ==> #[trigger] ls@[j]@ == spec_ls[j],
                forall|j: int|
                    0 <= j < i ==> slot_view(#[trigger] written@[j]) == written_slots(
                        self@,
                        spec_ls,
                    )[j],
                forall|j: int| i <= j < NUM_LEGENDS ==> #[trigger] written@[j] is None,
            decreases NUM_LEGENDS - i,
        {
            if i < ls.len() && !ls[i].as_str().is_empty() {
                let size = self.fa[i].value();
                written[i] = Some(Legend { text: ls[i].clone(), size, color: self.ta[i] });
                assert(self@.fa[i as int] == self.fa@[i as int]@);
            }
            assert(slot_view(written@[i as int]) == written_slots(self@, spec_ls)[i as int]);
            i = i + 1;
        }
        let av = self.a.value();
        let ghost wv = slots_view(written@);
        assert(wv =~= written_slots(self@, spec_ls));
        let out = realign_legends(written, self.a);
        proof {
            lemma_tables_inverse(self.a@ as int);
            assert(slots_view(out@) =~= realigned(wv, self.a@ as int));
        }
        Key {
            legends: out,
            color: self.c,
            x: self.x,
            y: self.y,
            width: self.w,
            height: self.h,
            x2: self.x2,
            y2: self.y2,
            width2: self.w2,
            height2: self.h2,
            rotation: self.r,
            rx: self.rx,
            ry: self.ry,
            profile: self.p.clone(),
            ghosted: self.g,
            switch: Switch { mount: self.sm.clone(), brand: self.sb.clone(), typ: self.st.clone() },
            stepped: self.l,
            homing: self.n,
            decal: self.d,
        }
    }
}

} // verus!
