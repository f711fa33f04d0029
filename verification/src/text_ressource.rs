//! A built-in plain-text resource: its payload is the text itself,
//! persisted under the `txt` extension. The capability work — reading
//! the data file into text, writing the text out — is the driver's; the
//! value here is the text the capability produced or must persist.

use vstd::prelude::*;

use crate::traits::{ReadableRessource, RessourceType, WritableRessource};

verus! {

/// A resource whose payload is a text.
#[derive(Debug)]
pub struct TextRessource {
    pub content: String,
}

impl TextRessource {
    /// Wraps a text as a resource payload.
    pub fn new(content: String) -> (r: TextRessource)
        ensures
            r.content@ == content@,
    {
        TextRessource { content }
    }
}

impl RessourceType for TextRessource {
    open spec fn spec_id() -> Seq<char> {
        "core/text"@
    }

    fn id() -> (r: &'static str) {
        "core/text"
    }
}

impl ReadableRessource for TextRessource {

}

impl WritableRessource for TextRessource {
    open spec fn spec_data_extension() -> Seq<char> {
        "txt"@
    }

    fn data_extension() -> (r: &'static str) {
        "txt"
    }
}

} // verus!
