//! Reading keyboard layouts exported by the Keyboard Layout Editor (KLE) into a typed model.
//!
//! A KLE document is a JSON array: an optional metadata object, then rows, each an array
//! of legend strings and property overlay objects. [`Keyboard::from_json`] reads such a
//! document, already decoded into a [`JsonValue`], into its metadata and its keys;
//! [`KeyIterator`] yields the keys one at a time. Lengths and angles are fixed-point
//! values, in millionths of a keyboard unit or of a degree (see [`units`]).
use vstd::prelude::*;

pub mod align;
pub mod bounded;
pub mod color;
pub mod error;
pub mod json;
pub mod laws;
pub mod layout;
pub mod meta;
pub mod model;
pub mod overlay;
pub mod props;
pub mod text;
pub mod units;

pub use align::{realign, realign_legends, NUM_LEGENDS};
pub use bounded::{Alignment, BoundedUsize, BoundsError, FontSize};
pub use color::{background_color, color_from_str, key_color, legend_color, parse_color_list, Color};
pub use error::{Error, JsonError};
pub use json::JsonValue;
pub use layout::{collect_keys, KeyIterator, KleKeyboard, KleLayoutIterator, KleLegendsOrProps};
pub use meta::{KleBackground, KleMetadata};
pub use model::{Background, Key, Keyboard, Legend, Metadata, Switch};
pub use overlay::KlePropsObject;
pub use props::KleProps;
pub use units::UNIT;

verus! {

} // verus!
