//! Rich-message contents as plain data: a title, a colour, an optional
//! description and image, and a list of titled sections. The transport layer
//! turns these into the platform's own message builders.

use vstd::prelude::*;

verus! {

/// One titled block of text inside an embed.
#[derive(Clone, Debug)]
pub struct EmbedSection {
    pub title: String,
    pub content: String,
}

impl EmbedSection {
    /// The section as the (name, value, inline) triple the platform's field
    /// builder takes; sections are never inline.
    pub fn to_field(&self) -> (r: (String, String, bool))
        ensures
            r.0@ == self.title@,
            r.1@ == self.content@,
            !r.2,
    {
        (self.title.clone(), self.content.clone(), false)
    }
}

/// A rich message: title, colour (a 24-bit red-green-blue value), optional
/// description and image link, and its sections.
#[derive(Clone, Debug)]
pub struct Embed {
    pub title: String,
    pub colour: u32,
    pub description: Option<String>,
    pub image: Option<String>,
    pub sections: Vec<EmbedSection>,
}

} // verus!
