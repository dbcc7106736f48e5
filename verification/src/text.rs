//! The text elements of a toast.

use vstd::prelude::*;

verus! {

/// Where a text element is placed in the rendered toast.
#[derive(Debug, Clone, Copy, PartialEq, Eq)]
pub enum TextPlacement {
    /// The text is rendered as the attribution line at the bottom of the toast.
    Attribution,
}

/// The serialized token for a text placement.
pub open spec fn spec_text_placement_str(p: TextPlacement) -> Seq<char> {
    match p {
        TextPlacement::Attribution => "attribution"@,
    }
}

impl TextPlacement {
    /// The schema token this placement serializes to.
    pub fn as_str(&self) -> (r: &'static str)
        ensures
            r@ == spec_text_placement_str(*self),
    {
        match self {
            TextPlacement::Attribution => "attribution",
        }
    }
}

/// A text element in a toast.
///
/// Its position (1 to 3) is supplied by the containing toast at
/// serialization time, not stored here.
#[derive(Debug, Clone)]
pub struct Text {
    /// The text content.
    pub content: String,
    /// Where the text is placed; absent means the default body position.
    pub placement: Option<TextPlacement>,
}

impl Text {
    /// Create a new text element with the default placement.
    pub fn new(content: &str) -> (r: Text)
        ensures
            r.content@ == content@,
            r.placement is None,
    {
        Text { content: String::from_str(content), placement: None }
    }

    /// Set the placement of the text.
    pub fn with_placement(self, placement: TextPlacement) -> (r: Text)
        ensures
            r.content == self.content,
            r.placement == Some(placement),
    {
        Text { placement: Some(placement), ..self }
    }
}

} // verus!
