//! Result rows for a launcher's script filter, and the JSON document that
//! carries them.
//!
//! An [`Item`] is built from its title with chained setters; an [`Output`]
//! lists items in order and renders the document, in which every field that
//! was never set is left out.
use vstd::prelude::*;

pub mod cargo;
pub mod env;
pub mod item;
pub mod json;
pub mod laws;

pub use item::{is_default, Icon, Item, Kind, ModifierData, ModifierKey, Output, Text};

verus! {

/// The document that lists `items`, in their order.
pub fn output(items: Vec<Item>) -> (r: String)
    ensures
        r@ == item::output_json(items@.map_values(|i: Item| i@)),
{
    Output::new().items(items).to_json()
}

} // verus!
