//! The metadata object that may open a layout document.
use vstd::prelude::*;

use crate::color::{background_color, Color};
use crate::error::{outcome_is, Error, ErrorView, JsonError};
use crate::json::{
    bool_of, color_of, field_of, get_field, opt, read_bool, read_color, read_text, text_of,
    text_view, JsonValue,
};
use crate::model::{
    default_metadata, Background, BackgroundView, Metadata, MetadataView, Switch, SwitchView,
};

verus! {

/// The background member of a metadata object, as written.
#[derive(Debug, Clone)]
pub struct KleBackground {
    /// The background's name.
    pub name: Option<String>,
    /// The background's CSS style.
    pub style: Option<String>,
}

/// What a [`KleBackground`] holds, with its texts as characters.
pub struct BackgroundObjView {
    pub name: Option<Seq<char>>,
    pub style: Option<Seq<char>>,
}

impl View for KleBackground {
    type V = BackgroundObjView;

    open spec fn view(&self) -> BackgroundObjView {
        BackgroundObjView { name: text_view(self.name), style: text_view(self.style) }
    }
}

impl Default for KleBackground {
    fn default() -> (r: KleBackground)
        ensures
            r.name is None && r.style is None,
    {
        KleBackground { name: None, style: None }
    }
}

/// The value of the background member; absent and `null` give `None`.
pub open spec fn background_obj_of(v: Option<JsonValue>) -> Result<Option<BackgroundObjView>, ErrorView> {
    match v {
        None | Some(JsonValue::Null) => Ok(None),
        Some(JsonValue::Object(fs)) => {
            let name = text_of(field_of(fs@, "name"@));
            let style = text_of(field_of(fs@, "style"@));
            if name is Err {
                Err(name->Err_0)
            } else if style is Err {
                Err(style->Err_0)
            } else {
                Ok(Some(BackgroundObjView { name: name->Ok_0, style: style->Ok_0 }))
            }
        },
        Some(_) => Err(ErrorView::InvalidType),
    }
}

/// Reads the background member.
pub fn read_background(v: Option<&JsonValue>) -> (r: Result<Option<KleBackground>, Error>)
    ensures
        outcome_is(
            r,
            background_obj_of(opt(v)),
            |x: Option<KleBackground>|
                match x {
                    Some(b) => Some(b@),
                    None => None,
                },
        ),
{
    match v {
        None | Some(JsonValue::Null) => Ok(None),
        Some(JsonValue::Object(fs)) => {
            let name = match read_text(get_field(fs, "name")) {
                Ok(v) => v,
                Err(e) => return Err(e),
            };
            let style = match read_text(get_field(fs, "style")) {
                Ok(v) => v,
                Err(e) => return Err(e),
            };
            Ok(Some(KleBackground { name, style }))
        },
        Some(_) => Err(Error::Json(JsonError::InvalidType)),
    }
}

/// A metadata object, as written: each member that it sets.
#[derive(Debug, Clone)]
pub struct KleMetadata {
    /// The author.
    pub author: Option<String>,
    /// The background colour.
    pub backcolor: Option<Color>,
    /// The background style.
    pub background: Option<KleBackground>,
    /// The layout's name.
    pub name: Option<String>,
    /// Notes on the layout.
    pub notes: Option<String>,
    /// The background's corner radii.
    pub radii: Option<String>,
    /// The default switch mount (member `switchMount`).
    pub switch_mount: Option<String>,
    /// The default switch brand (member `switchBrand`).
    pub switch_brand: Option<String>,
    /// The default switch type (member `switchType`).
    pub switch_type: Option<String>,
    /// Custom CSS; read, but not kept in the model.
    pub css: Option<String>,
    /// Whether the switches are PCB mounted.
    pub pcb: Option<bool>,
    /// Whether the switches are plate mounted.
    pub plate: Option<bool>,
}

/// What a [`KleMetadata`] holds, with its texts as characters.
pub struct MetaObjView {
    pub author: Option<Seq<char>>,
    pub backcolor: Option<Color>,
    pub background: Option<BackgroundObjView>,
    pub name: Option<Seq<char>>,
    pub notes: Option<Seq<char>>,
    pub radii: Option<Seq<char>>,
    pub switch_mount: Option<Seq<char>>,
    pub switch_brand: Option<Seq<char>>,
    pub switch_type: Option<Seq<char>>,
    pub css: Option<Seq<char>>,
    pub pcb: Option<bool>,
    pub plate: Option<bool>,
}

impl View for KleMetadata {
    type V = MetaObjView;

    open spec fn view(&self) -> MetaObjView {
        MetaObjView {
            author: text_view(self.author),
            backcolor: self.backcolor,
            background: match self.background {
                Some(b) => Some(b@),
                None => None,
            },
            name: text_view(self.name),
            notes: text_view(self.notes),
            radii: text_view(self.radii),
            switch_mount: text_view(self.switch_mount),
            switch_brand: text_view(self.switch_brand),
            switch_type: text_view(self.switch_type),
            css: text_view(self.css),
            pcb: self.pcb,
            plate: self.plate,
        }
    }
}

/// The metadata object that sets nothing.
pub open spec fn empty_meta_obj() -> MetaObjView {
    MetaObjView {
        author: None,
        backcolor: None,
        background: None,
        name: None,
        notes: None,
        radii: None,
        switch_mount: None,
        switch_brand: None,
        switch_type: None,
        css: None,
        pcb: None,
        plate: None,
    }
}

impl Default for KleMetadata {
    fn default() -> (r: KleMetadata)
        ensures
            r@ == empty_meta_obj(),
    {
        KleMetadata {
            author: None,
            backcolor: None,
            background: None,
            name: None,
            notes: None,
            radii: None,
            switch_mount: None,
            switch_brand: None,
            switch_type: None,
            css: None,
            pcb: None,
            plate: None,
        }
    }
}

/// The metadata object that the members `fs` describe. Members are read in the order of
/// [`KleMetadata`]'s fields, and the first that fails gives the error; unknown members are
/// ignored.
pub open spec fn meta_obj_of(fs: Seq<(String, JsonValue)>) -> Result<MetaObjView, ErrorView> {
    let author = text_of(field_of(fs, "author"@));
    let backcolor = color_of(field_of(fs, "backcolor"@));
    let background = background_obj_of(field_of(fs, "background"@));
    let name = text_of(field_of(fs, "name"@));
    let notes = text_of(field_of(fs, "notes"@));
    let radii = text_of(field_of(fs, "radii"@));
    let switch_mount = text_of(field_of(fs, "switchMount"@));
    let switch_brand = text_of(field_of(fs, "switchBrand"@));
    let switch_type = text_of(field_of(fs, "switchType"@));
    let css = text_of(field_of(fs, "css"@));
    let pcb = bool_of(field_of(fs, "pcb"@));
    let plate = bool_of(field_of(fs, "plate"@));
    if author is Err {
        Err(author->Err_0)
    } else if backcolor is Err {
        Err(backcolor->Err_0)
    } else if background is Err {
        Err(background->Err_0)
    } else if name is Err {
        Err(name->Err_0)
    } else if notes is Err {
        Err(notes->Err_0)
    } else if radii is Err {
        Err(radii->Err_0)
    } else if switch_mount is Err {
        Err(switch_mount->Err_0)
    } else if switch_brand is Err {
        Err(switch_brand->Err_0)
    } else if switch_type is Err {
        Err(switch_type->Err_0)
    } else if css is Err {
        Err(css->Err_0)
    } else if pcb is Err {
        Err(pcb->Err_0)
    } else if plate is Err {
        Err(plate->Err_0)
    } else {
        Ok(
            MetaObjView {
                author: author->Ok_0,
                backcolor: backcolor->Ok_0,
                background: background->Ok_0,
                name: name->Ok_0,
                notes: notes->Ok_0,
                radii: radii->Ok_0,
                switch_mount: switch_mount->Ok_0,
                switch_brand: switch_brand->Ok_0,
                switch_type: switch_type->Ok_0,
                css: css->Ok_0,
                pcb: pcb->Ok_0,
                plate: plate->Ok_0,
            },
        )
    }
}

impl KleMetadata {
    /// Reads a metadata object from the members of a JSON object.
    pub fn from_json(fs: &Vec<(String, JsonValue)>) -> (r: Result<KleMetadata, Error>)
        ensures
            outcome_is(r, meta_obj_of(fs@), |m: KleMetadata| m@),
    {
        let author = match read_text(get_field(fs, "author")) {
            Ok(v) => v,
            Err(e) => return Err(e),
        };
        let backcolor = match read_color(get_field(fs, "backcolor")) {
            Ok(v) => v,
            Err(e) => return Err(e),
        };
        let background = match read_background(get_field(fs, "background")) {
            Ok(v) => v,
            Err(e) => return Err(e),
        };
        let name = match read_text(get_field(fs, "name")) {
            Ok(v) => v,
            Err(e) => return Err(e),
        };
        let notes = match read_text(get_field(fs, "notes")) {
            Ok(v) => v,
            Err(e) => return Err(e),
        };
        let radii = match read_text(get_field(fs, "radii")) {
            Ok(v) => v,
            Err(e) => return Err(e),
        };
        let switch_mount = match read_text(get_field(fs, "switchMount")) {
            Ok(v) => v,
            Err(e) => return Err(e),
        };
        let switch_brand = match read_text(get_field(fs, "switchBrand")) {
            Ok(v) => v,
            Err(e) => return Err(e),
        };
        let switch_type = match read_text(get_field(fs, "switchType")) {
            Ok(v) => v,
            Err(e) => return Err(e),
        };
        let css = match read_text(get_field(fs, "css")) {
            Ok(v) => v,
            Err(e) => return Err(e),
        };
        let pcb = match read_bool(get_field(fs, "pcb")) {
            Ok(v) => v,
            Err(e) => return Err(e),
        };
        let plate = match read_bool(get_field(fs, "plate")) {
            Ok(v) => v,
            Err(e) => return Err(e),
        };
        Ok(
            KleMetadata {
                author,
                backcolor,
                background,
                name,
                notes,
                radii,
                switch_mount,
                switch_brand,
                switch_type,
                css,
                pcb,
                plate,
            },
        )
    }
}

/// The text in `o`, or the empty text.
pub open spec fn text_or_empty(o: Option<Seq<char>>) -> Seq<char> {
    match o {
        Some(t) => t,
        None => seq![],
    }
}

/// The background style that a background member gives: each part it sets, else empty.
pub open spec fn background_from(b: BackgroundObjView) -> BackgroundView {
    BackgroundView { name: text_or_empty(b.name), style: text_or_empty(b.style) }
}

/// The layout metadata that a metadata object gives: each field it sets, else its default.
pub open spec fn metadata_from(m: MetaObjView) -> MetadataView {
    let d = default_metadata();
    MetadataView {
        background_color: match m.backcolor {
            Some(c) => c,
            None => d.background_color,
        },
        background: match m.background {
            Some(b) => background_from(b),
            None => d.background,
        },
        radii: text_or_empty(m.radii),
        name: text_or_empty(m.name),
        author: text_or_empty(m.author),
        switch: SwitchView {
            mount: text_or_empty(m.switch_mount),
            brand: text_or_empty(m.switch_brand),
            typ: text_or_empty(m.switch_type),
        },
        plate_mount: match m.plate {
            Some(b) => b,
            None => false,
        },
        pcb_mount: match m.pcb {
            Some(b) => b,
            None => false,
        },
        notes: text_or_empty(m.notes),
    }
}

/// The text in `o`, or the empty text.
fn string_or_empty(o: Option<String>) -> (r: String)
    ensures
        r@ == text_or_empty(text_view(o)),
{
    match o {
        Some(s) => s,
        None => String::new(),
    }
}

impl From<KleBackground> for Background {
    /// As [`Background::from_kle`].
    fn from(value: KleBackground) -> (r: Background)
        ensures
            r@ == background_from(value@),
    {
        Background::from_kle(value)
    }
}

impl vstd::std_specs::convert::FromSpecImpl<KleBackground> for Background {
    /// `from_spec` would have to return a `Background` whose strings are built from the
    /// argument's texts, which a spec function cannot do; `from` states its result over
    /// views instead (`r@ == background_from(value@)`).
    open spec fn obeys_from_spec() -> bool {
        false
    }

    open spec fn from_spec(v: KleBackground) -> Background {
        vstd::pervasive::arbitrary()
    }
}

impl Background {
    /// The background style that a background member gives.
    pub fn from_kle(value: KleBackground) -> (r: Background)
        ensures
            r@ == background_from(value@),
    {
        Background { name: string_or_empty(value.name), style: string_or_empty(value.style) }
    }
}

impl Metadata {
    /// The layout metadata that a metadata object gives.
    pub fn from_kle(value: KleMetadata) -> (r: Metadata)
        ensures
            r@ == metadata_from(value@),
    {
        let background = match value.background {
            Some(b) => Background::from_kle(b),
            None => Background::default(),
        };
        Metadata {
            background_color: match value.backcolor {
                Some(c) => c,
                None => background_color(),
            },
            background,
            radii: string_or_empty(value.radii),
            name: string_or_empty(value.name),
            author: string_or_empty(value.author),
            switch: Switch {
                mount: string_or_empty(value.switch_mount),
                brand: string_or_empty(value.switch_brand),
                typ: string_or_empty(value.switch_type),
            },
            plate_mount: match value.plate {
                Some(b) => b,
                None => false,
            },
            pcb_mount: match value.pcb {
                Some(b) => b,
                None => false,
            },
            notes: string_or_empty(value.notes),
        }
    }
}

impl From<KleMetadata> for Metadata {
    /// As [`Metadata::from_kle`].
    fn from(value: KleMetadata) -> (r: Metadata)
        ensures
            r@ == metadata_from(value@),
    {
        Metadata::from_kle(value)
    }
}

impl vstd::std_specs::convert::FromSpecImpl<KleMetadata> for Metadata {
    /// `from_spec` would have to return a `Metadata` whose strings are built from the
    /// argument's texts, which a spec function cannot do; `from` states its result over
    /// views instead (`r@ == metadata_from(value@)`).
    open spec fn obeys_from_spec() -> bool {
        false
    }

    open spec fn from_spec(v: KleMetadata) -> Metadata {
        vstd::pervasive::arbitrary()
    }
}

} // verus!
