//! The keyboard layout model: keys, legends, switches and layout metadata.
use vstd::prelude::*;

use crate::align::NUM_LEGENDS;
use crate::color::{
    background_color, background_default, key_color, key_default, legend_color, legend_default,
    Color,
};
use crate::units::UNIT;

verus! {

/// A single legend: one piece of text on a keycap.
#[derive(Debug, Clone)]
pub struct Legend {
    /// The legend's text.
    pub text: String,
    /// The legend size, in KLE's font size unit.
    pub size: usize,
    /// The legend colour.
    pub color: Color,
}

/// What a [`Legend`] holds, with its text as characters.
pub struct LegendView {
    pub text: Seq<char>,
    pub size: nat,
    pub color: Color,
}

impl View for Legend {
    type V = LegendView;

    open spec fn view(&self) -> LegendView {
        LegendView { text: self.text@, size: self.size as nat, color: self.color }
    }
}

/// The view of a legend slot.
pub open spec fn slot_view(o: Option<Legend>) -> Option<LegendView> {
    match o {
        Some(l) => Some(l@),
        None => None,
    }
}

/// The view of each legend slot.
pub open spec fn slots_view(s: Seq<Option<Legend>>) -> Seq<Option<LegendView>> {
    s.map_values(|o: Option<Legend>| slot_view(o))
}

impl Default for Legend {
    fn default() -> (r: Legend)
        ensures
            r@ == (LegendView { text: seq![], size: 3, color: legend_default() }),
    {
        Legend { text: String::new(), size: 3, color: legend_color() }
    }
}

/// A key switch.
#[derive(Debug, Clone)]
pub struct Switch {
    /// The switch mount, typically `"cherry"` or `"alps"`.
    pub mount: String,
    /// The switch brand; KLE writes brand names in lower case.
    pub brand: String,
    /// The switch type: a part number or a colour, depending on the brand.
    pub typ: String,
}

/// What a [`Switch`] holds, with its texts as characters.
pub struct SwitchView {
    pub mount: Seq<char>,
    pub brand: Seq<char>,
    pub typ: Seq<char>,
}

impl View for Switch {
    type V = SwitchView;

    open spec fn view(&self) -> SwitchView {
        SwitchView { mount: self.mount@, brand: self.brand@, typ: self.typ@ }
    }
}

impl Default for Switch {
    fn default() -> (r: Switch)
        ensures
            r@ == (SwitchView { mount: seq![], brand: seq![], typ: seq![] }),
    {
        Switch { mount: String::new(), brand: String::new(), typ: String::new() }
    }
}

/// A single key. Lengths and angles are fixed-point values (see [`crate::units`]).
#[derive(Debug, Clone)]
pub struct Key {
    /// The key's legends, in display order: left to right, top to bottom on a 4×3 grid.
    /// A legend that is empty in the layout is `None`.
    pub legends: [Option<Legend>; 12],
    /// The colour of the key.
    pub color: Color,
    /// The X position of the key, in keyboard units.
    pub x: i64,
    /// The Y position of the key, in keyboard units.
    pub y: i64,
    /// The width of the key.
    pub width: i64,
    /// The height of the key.
    pub height: i64,
    /// The relative X position of the second part of a stepped or L-shaped key.
    pub x2: i64,
    /// The relative Y position of the second part of a stepped or L-shaped key.
    pub y2: i64,
    /// The width of the second part of a stepped or L-shaped key.
    pub width2: i64,
    /// The height of the second part of a stepped or L-shaped key.
    pub height2: i64,
    /// The rotation of the key, in degrees.
    pub rotation: i64,
    /// The X coordinate of the centre of rotation.
    pub rx: i64,
    /// The Y coordinate of the centre of rotation.
    pub ry: i64,
    /// The keycap profile.
    pub profile: String,
    /// The key switch.
    pub switch: Switch,
    /// Whether the key is ghosted.
    pub ghosted: bool,
    /// Whether the key is stepped.
    pub stepped: bool,
    /// Whether this is a homing key.
    pub homing: bool,
    /// Whether this is a decal.
    pub decal: bool,
}

/// What a [`Key`] holds, with its texts as characters.
pub struct KeyView {
    pub legends: Seq<Option<LegendView>>,
    pub color: Color,
    pub x: i64,
    pub y: i64,
    pub width: i64,
    pub height: i64,
    pub x2: i64,
    pub y2: i64,
    pub width2: i64,
    pub height2: i64,
    pub rotation: i64,
    pub rx: i64,
    pub ry: i64,
    pub profile: Seq<char>,
    pub switch: SwitchView,
    pub ghosted: bool,
    pub stepped: bool,
    pub homing: bool,
    pub decal: bool,
}

impl View for Key {
    type V = KeyView;

    open spec fn view(&self) -> KeyView {
        KeyView {
            legends: slots_view(self.legends@),
            color: self.color,
            x: self.x,
            y: self.y,
            width: self.width,
            height: self.height,
            x2: self.x2,
            y2: self.y2,
            width2: self.width2,
            height2: self.height2,
            rotation: self.rotation,
            rx: self.rx,
            ry: self.ry,
            profile: self.profile@,
            switch: self.switch@,
            ghosted: self.ghosted,
            stepped: self.stepped,
            homing: self.homing,
            decal: self.decal,
        }
    }
}

/// Twelve empty legend slots.
pub fn no_legends() -> (r: [Option<Legend>; 12])
    ensures
        forall|i: int| 0 <= i < NUM_LEGENDS ==> #[trigger] r@[i] is None,
{
    [None, None, None, None, None, None, None, None, None, None, None, None]
}

impl Default for Key {
    /// A one-unit key at the origin, with no legends and default colours.
    fn default() -> (r: Key)
        ensures
            forall|i: int| 0 <= i < NUM_LEGENDS ==> #[trigger] r.legends@[i] is None,
            r.color == key_default(),
            r.x == 0 && r.y == 0 && r.x2 == 0 && r.y2 == 0,
            r.width == UNIT && r.height == UNIT && r.width2 == UNIT && r.height2 == UNIT,
            r.rotation == 0 && r.rx == 0 && r.ry == 0,
            r.profile@ == Seq::<char>::empty(),
            r.switch@ == (SwitchView { mount: seq![], brand: seq![], typ: seq![] }),
            !r.ghosted && !r.stepped && !r.homing && !r.decal,
    {
        Key {
            legends: no_legends(),
            color: key_color(),
            x: 0,
            y: 0,
            width: UNIT,
            height: UNIT,
            x2: 0,
            y2: 0,
            width2: UNIT,
            height2: UNIT,
            rotation: 0,
            rx: 0,
            ry: 0,
            profile: String::new(),
            switch: Switch::default(),
            ghosted: false,
            stepped: false,
            homing: false,
            decal: false,
        }
    }
}

/// The background style of a layout.
#[derive(Debug, Clone)]
pub struct Background {
    /// The name of the background, as KLE's menu shows it (`"Carbon fibre 1"`).
    pub name: String,
    /// The CSS style of the background.
    pub style: String,
}

/// What a [`Background`] holds, with its texts as characters.
pub struct BackgroundView {
    pub name: Seq<char>,
    pub style: Seq<char>,
}

impl View for Background {
    type V = BackgroundView;

    open spec fn view(&self) -> BackgroundView {
        BackgroundView { name: self.name@, style: self.style@ }
    }
}

impl Default for Background {
    fn default() -> (r: Background)
        ensures
            r@ == (BackgroundView { name: seq![], style: seq![] }),
    {
        Background { name: String::new(), style: String::new() }
    }
}

/// The metadata of a layout.
#[derive(Debug, Clone)]
pub struct Metadata {
    /// The background colour.
    pub background_color: Color,
    /// The background style.
    pub background: Background,
    /// The corner radii of the background, in CSS `border-radius` syntax.
    pub radii: String,
    /// The name of the layout.
    pub name: String,
    /// The author of the layout.
    pub author: String,
    /// The default switch of the layout; keys may override it.
    pub switch: Switch,
    /// Whether the switches are plate mounted.
    pub plate_mount: bool,
    /// Whether the switches are PCB mounted.
    pub pcb_mount: bool,
    /// Notes on the layout, in GitHub-flavoured Markdown.
    pub notes: String,
}

/// What a [`Metadata`] holds, with its texts as characters.
pub struct MetadataView {
    pub background_color: Color,
    pub background: BackgroundView,
    pub radii: Seq<char>,
    pub name: Seq<char>,
    pub author: Seq<char>,
    pub switch: SwitchView,
    pub plate_mount: bool,
    pub pcb_mount: bool,
    pub notes: Seq<char>,
}

impl View for Metadata {
    type V = MetadataView;

    open spec fn view(&self) -> MetadataView {
        MetadataView {
            background_color: self.background_color,
            background: self.background@,
            radii: self.radii@,
            name: self.name@,
            author: self.author@,
            switch: self.switch@,
            plate_mount: self.plate_mount,
            pcb_mount: self.pcb_mount,
            notes: self.notes@,
        }
    }
}

/// The metadata of a layout that sets none of its fields.
pub open spec fn default_metadata() -> MetadataView {
    MetadataView {
        background_color: background_default(),
        background: BackgroundView { name: seq![], style: seq![] },
        radii: seq![],
        name: seq![],
        author: seq![],
        switch: SwitchView { mount: seq![], brand: seq![], typ: seq![] },
        plate_mount: false,
        pcb_mount: false,
        notes: seq![],
    }
}

impl Default for Metadata {
    fn default() -> (r: Metadata)
        ensures
            r@ == default_metadata(),
    {
        Metadata {
            background_color: background_color(),
            background: Background::default(),
            radii: String::new(),
            name: String::new(),
            author: String::new(),
            switch: Switch::default(),
            plate_mount: false,
            pcb_mount: false,
            notes: String::new(),
        }
    }
}

/// A keyboard layout: its metadata and its keys, in document order.
#[derive(Debug, Clone)]
pub struct Keyboard {
    /// The layout's metadata.
    pub metadata: Metadata,
    /// The layout's keys.
    pub keys: Vec<Key>,
}

/// What a [`Keyboard`] holds.
pub struct KeyboardView {
    pub metadata: MetadataView,
    pub keys: Seq<KeyView>,
}

impl View for Keyboard {
    type V = KeyboardView;

    open spec fn view(&self) -> KeyboardView {
        KeyboardView {
            metadata: self.metadata@,
            keys: self.keys@.map_values(|k: Key| k@),
        }
    }
}

} // verus!
