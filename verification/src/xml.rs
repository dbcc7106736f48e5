//! An in-memory element tree, the shape of the document the notification
//! platform consumes.
//!
//! The serializer produces this tree; the platform-facing caller walks it
//! and mirrors it into the platform's own document type.

use vstd::prelude::*;

verus! {

/// One element of the document: a name, attributes in emission order,
/// optional inner text, and child elements in document order.
#[derive(Debug)]
pub struct Element {
    /// The element's name.
    pub name: String,
    /// The element's attributes, as (name, value) pairs in emission order.
    pub attrs: Vec<(String, String)>,
    /// The element's inner text, if any.
    pub text: Option<String>,
    /// The element's children, in document order.
    pub children: Vec<Element>,
}

/// The attribute pairs of `attrs`, as sequences of characters.
pub open spec fn attr_views(attrs: Seq<(String, String)>) -> Seq<(Seq<char>, Seq<char>)> {
    attrs.map_values(|p: (String, String)| (p.0@, p.1@))
}

/// The attribute pairs of `e`, as sequences of characters.
pub open spec fn attrs_of(e: Element) -> Seq<(Seq<char>, Seq<char>)> {
    attr_views(e.attrs@)
}

impl Element {
    /// Create an element with the given name and nothing else.
    pub fn new(name: &str) -> (e: Element)
        ensures
            e.name@ == name@,
            attrs_of(e) == Seq::<(Seq<char>, Seq<char>)>::empty(),
            e.text is None,
            e.children@.len() == 0,
    {
        let e = Element {
            name: String::from_str(name),
            attrs: Vec::new(),
            text: None,
            children: Vec::new(),
        };
        proof {
            assert(attrs_of(e) =~= Seq::<(Seq<char>, Seq<char>)>::empty());
        }
        e
    }

    /// Append the attribute `name="value"`.
    pub fn set_attribute(&mut self, name: &str, value: String)
        ensures
            attrs_of(*final(self)) == attrs_of(*old(self)).push((name@, value@)),
            final(self).name == old(self).name,
            final(self).text == old(self).text,
            final(self).children == old(self).children,
    {
        self.attrs.push((String::from_str(name), value));
        proof {
            assert(attrs_of(*self) =~= attrs_of(*old(self)).push((name@, value@)));
        }
    }

    /// Set the inner text.
    pub fn set_text(&mut self, text: String)
        ensures
            final(self).text == Some(text),
            final(self).name == old(self).name,
            final(self).attrs == old(self).attrs,
            final(self).children == old(self).children,
    {
        self.text = Some(text);
    }

    /// Append a child element.
    pub fn append_child(&mut self, child: Element)
        ensures
            final(self).children@ == old(self).children@.push(child),
            final(self).name == old(self).name,
            final(self).attrs == old(self).attrs,
            final(self).text == old(self).text,
    {
        self.children.push(child);
    }
}

} // verus!
