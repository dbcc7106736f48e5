//! The input elements of a toast.

use vstd::prelude::*;

verus! {

/// The type of an input field.
#[derive(Debug, Clone, Copy, PartialEq, Eq)]
pub enum InputType {
    /// A free-text input field.
    Text,
    /// A selection input field.
    Selection,
}

/// The serialized token for an input type.
pub open spec fn spec_input_type_str(t: InputType) -> Seq<char> {
    match t {
        InputType::Text => "text"@,
        InputType::Selection => "selection"@,
    }
}

impl InputType {
    /// The schema token this input type serializes to.
    pub fn as_str(&self) -> (r: &'static str)
        ensures
            r@ == spec_input_type_str(*self),
    {
        match self {
            InputType::Text => "text",
            InputType::Selection => "selection",
        }
    }
}

/// Specifies an input field shown in a toast.
#[derive(Debug, Clone)]
pub struct Input {
    /// The id of the input, reported back with the submitted value.
    pub id: String,
    /// The type of the input.
    pub typ: InputType,
    /// The placeholder shown while the input is empty.
    pub place_holder: Option<String>,
    /// The title shown above the input.
    pub title: Option<String>,
    /// The default value (or default selection id) of the input.
    pub default_input: Option<String>,
}

impl Input {
    /// Create a new input element.
    pub fn new(id: &str, typ: InputType) -> (r: Input)
        ensures
            r.id@ == id@,
            r.typ == typ,
            r.place_holder is None,
            r.title is None,
            r.default_input is None,
    {
        Input {
            id: String::from_str(id),
            typ,
            place_holder: None,
            title: None,
            default_input: None,
        }
    }

    /// Set the placeholder content of the input.
    pub fn with_placeholder(self, content: &str) -> (r: Input)
        ensures
            r.place_holder matches Some(p) && p@ == content@,
            r.id == self.id,
            r.typ == self.typ,
            r.title == self.title,
            r.default_input == self.default_input,
    {
        Input { place_holder: Some(String::from_str(content)), ..self }
    }

    /// Set the title of the input.
    pub fn with_title(self, title: &str) -> (r: Input)
        ensures
            r.title matches Some(t) && t@ == title@,
            r.id == self.id,
            r.typ == self.typ,
            r.place_holder == self.place_holder,
            r.default_input == self.default_input,
    {
        Input { title: Some(String::from_str(title)), ..self }
    }

    /// Set the default value of the input.
    pub fn with_default_input(self, default_input: &str) -> (r: Input)
        ensures
            r.default_input matches Some(d) && d@ == default_input@,
            r.id == self.id,
            r.typ == self.typ,
            r.place_holder == self.place_holder,
            r.title == self.title,
    {
        Input { default_input: Some(String::from_str(default_input)), ..self }
    }
}

/// A selectable entry of a selection input field.
#[derive(Debug, Clone)]
pub struct Selection {
    /// The id of the selection, reported back as the input's value when chosen.
    pub id: String,
    /// The label the selection is displayed with.
    pub content: String,
}

impl Selection {
    /// Create a new selection.
    pub fn new(id: &str, content: &str) -> (r: Selection)
        ensures
            r.id@ == id@,
            r.content@ == content@,
    {
        Selection { id: String::from_str(id), content: String::from_str(content) }
    }
}

} // verus!
