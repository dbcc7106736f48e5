//! The header element of a toast.

use vstd::prelude::*;

use crate::action::ActivationType;

verus! {

/// A custom header that groups notifications in the notification shade.
#[derive(Debug, Clone)]
pub struct Header {
    /// The id of the header: toasts with the same header id are grouped together.
    pub id: String,
    /// The title displayed for the group.
    pub title: String,
    /// An argument string delivered back to the application when the header is clicked.
    pub arguments: String,
    /// How the application is activated when the header is clicked.
    pub activation_type: Option<ActivationType>,
}

impl Header {
    /// Create a new header.
    pub fn new(id: &str, title: &str, arguments: &str) -> (r: Header)
        ensures
            r.id@ == id@,
            r.title@ == title@,
            r.arguments@ == arguments@,
            r.activation_type is None,
    {
        Header {
            id: String::from_str(id),
            title: String::from_str(title),
            arguments: String::from_str(arguments),
            activation_type: None,
        }
    }

    /// Set the activation type of the header.
    pub fn with_activation_type(self, activation_type: ActivationType) -> (r: Header)
        ensures
            r == (Header { activation_type: Some(activation_type), ..self }),
    {
        Header { activation_type: Some(activation_type), ..self }
    }
}

} // verus!
