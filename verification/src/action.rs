//! The action (button) elements of a toast.

use vstd::prelude::*;

verus! {

/// The type of activation that is used when the user interacts with a specific action.
#[derive(Debug, Clone, Copy, PartialEq, Eq)]
pub enum ActivationType {
    /// Default value. The foreground app is launched.
    Foreground,
    /// The corresponding background task is triggered without interrupting the user.
    Background,
    /// Launch a different app using protocol activation.
    Protocol,
}

/// The serialized token for an activation type.
pub open spec fn spec_activation_type_str(t: ActivationType) -> Seq<char> {
    match t {
        ActivationType::Foreground => "foreground"@,
        ActivationType::Background => "background"@,
        ActivationType::Protocol => "protocol"@,
    }
}

impl ActivationType {
    /// The schema token this activation type serializes to.
    pub fn as_str(&self) -> (r: &'static str)
        ensures
            r@ == spec_activation_type_str(*self),
    {
        match self {
            ActivationType::Foreground => "foreground",
            ActivationType::Background => "background",
            ActivationType::Protocol => "protocol",
        }
    }
}

/// The location of the action.
#[derive(Debug, Clone, Copy, PartialEq, Eq)]
pub enum ActionPlacement {
    /// The action becomes a context menu action added to the toast notification's
    /// context menu rather than a traditional toast button.
    ContextMenu,
}

/// The serialized token for an action placement.
pub open spec fn spec_action_placement_str(p: ActionPlacement) -> Seq<char> {
    match p {
        ActionPlacement::ContextMenu => "contextMenu"@,
    }
}

impl ActionPlacement {
    /// The schema token this placement serializes to.
    pub fn as_str(&self) -> (r: &'static str)
        ensures
            r@ == spec_action_placement_str(*self),
    {
        match self {
            ActionPlacement::ContextMenu => "contextMenu",
        }
    }
}

/// The visual style of an action button.
#[derive(Debug, Clone, Copy, PartialEq, Eq)]
pub enum HintButtonStyle {
    /// The button is styled as a success button.
    Success,
    /// The button is styled as a critical button.
    Critical,
}

/// The serialized token for a button style.
pub open spec fn spec_button_style_str(s: HintButtonStyle) -> Seq<char> {
    match s {
        HintButtonStyle::Success => "Success"@,
        HintButtonStyle::Critical => "Critical"@,
    }
}

impl HintButtonStyle {
    /// The schema token this button style serializes to.
    pub fn as_str(&self) -> (r: &'static str)
        ensures
            r@ == spec_button_style_str(*self),
    {
        match self {
            HintButtonStyle::Success => "Success",
            HintButtonStyle::Critical => "Critical",
        }
    }
}

/// Specifies a button shown in a toast.
#[derive(Debug, Clone)]
pub struct Action {
    /// The label of the button.
    pub content: String,
    /// An argument string delivered back to the application when the button is pressed.
    pub arguments: String,
    /// An opaque type string delivered back to the application.
    pub typ: String,
    /// How the application is activated when the button is pressed.
    pub activation_type: Option<ActivationType>,
    /// Where the button is placed; absent means a regular toast button.
    pub placement: Option<ActionPlacement>,
    /// The id of the input element this action is associated with.
    pub input_id: Option<String>,
    /// The visual style of the button.
    pub button_style: Option<HintButtonStyle>,
}

impl Action {
    /// Create a new action.
    ///
    /// `arguments` is an argument string that is passed back to the
    /// application to identify the action the user chose; `typ` is an
    /// opaque type string passed back alongside it.
    pub fn new(content: &str, arguments: &str, typ: &str) -> (r: Action)
        ensures
            r.content@ == content@,
            r.arguments@ == arguments@,
            r.typ@ == typ@,
            r.activation_type is None,
            r.placement is None,
            r.input_id is None,
            r.button_style is None,
    {
        Action {
            content: String::from_str(content),
            arguments: String::from_str(arguments),
            typ: String::from_str(typ),
            activation_type: None,
            placement: None,
            input_id: None,
            button_style: None,
        }
    }

    /// Set the activation type of the action.
    pub fn with_activation_type(self, activation_type: ActivationType) -> (r: Action)
        ensures
            r == (Action { activation_type: Some(activation_type), ..self }),
    {
        Action { activation_type: Some(activation_type), ..self }
    }

    /// Set the placement of the action.
    pub fn with_placement(self, placement: ActionPlacement) -> (r: Action)
        ensures
            r == (Action { placement: Some(placement), ..self }),
    {
        Action { placement: Some(placement), ..self }
    }

    /// Set the style of the action button.
    ///
    /// Takes effect only when the owning toast enables button styles.
    pub fn with_button_style(self, button_style: HintButtonStyle) -> (r: Action)
        ensures
            r == (Action { button_style: Some(button_style), ..self }),
    {
        Action { button_style: Some(button_style), ..self }
    }

    /// Associate the action with the input element whose id is `input_id`.
    pub fn with_input_id(self, input_id: &str) -> (r: Action)
        ensures
            r.input_id matches Some(id) && id@ == input_id@,
            r.content == self.content,
            r.arguments == self.arguments,
            r.typ == self.typ,
            r.activation_type == self.activation_type,
            r.placement == self.placement,
            r.button_style == self.button_style,
    {
        Action { input_id: Some(String::from_str(input_id)), ..self }
    }
}

} // verus!
