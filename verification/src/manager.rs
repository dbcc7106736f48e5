//! Translation of the platform's asynchronous notification events into
//! structured, application-consumable values.
//!
//! The platform raises at most one of three mutually exclusive events per
//! shown notification — activated, dismissed, failed — on a thread of its
//! own, at an arbitrary later time. Each translation here is a pure
//! function from the plain values extracted from the event payload (plus
//! the pre-captured notification tag) to a domain result; every field of
//! the payload may be absent.

use vstd::prelude::*;

use crate::WinToastError;

verus! {

/// An action that was activated by the user, as delivered to the
/// activation callback.
#[derive(Debug, Clone)]
pub struct ActivatedAction {
    /// The tag of the originating toast, if one was set.
    pub tag: Option<String>,
    /// The argument string of the button that was pressed.
    pub arg: String,
    /// The values submitted for the input fields, as (input id, value)
    /// pairs in payload order; only non-empty ids with non-empty string
    /// values are kept.
    pub values: Vec<(String, String)>,
    /// The input id this activation is scoped to. It is supplied by the
    /// caller that registered the callback, not derived from the event.
    pub input_id: Option<String>,
}

/// The dismissal of a toast, as delivered to the dismissal callback.
#[derive(Debug, Clone)]
pub struct ToastDismissed {
    /// The tag of the originating toast, if one was set.
    pub tag: Option<String>,
    /// Why the toast is no longer being shown.
    pub reason: DismissalReason,
}

/// Why a toast notification is no longer being shown.
#[derive(Debug, Clone, Copy, PartialEq, Eq)]
pub enum DismissalReason {
    /// The user dismissed the toast notification.
    UserCanceled,
    /// The application explicitly hid the toast notification.
    ApplicationHidden,
    /// The toast notification had been shown for the maximum allowed time
    /// and was faded out: about seven seconds, or twenty-five for a
    /// long-duration toast.
    TimedOut,
}

/// The platform's reason code for a dismissal by the user.
pub const DISMISSAL_CODE_USER_CANCELED: i32 = 0;

/// The platform's reason code for a dismissal by the application.
pub const DISMISSAL_CODE_APPLICATION_HIDDEN: i32 = 1;

/// The platform's reason code for a dismissal by timeout.
pub const DISMISSAL_CODE_TIMED_OUT: i32 = 2;

/// The dismissal reason a platform reason code stands for, if any.
pub open spec fn spec_dismissal_of(code: i32) -> Option<DismissalReason> {
    if code == DISMISSAL_CODE_USER_CANCELED {
        Some(DismissalReason::UserCanceled)
    } else if code == DISMISSAL_CODE_APPLICATION_HIDDEN {
        Some(DismissalReason::ApplicationHidden)
    } else if code == DISMISSAL_CODE_TIMED_OUT {
        Some(DismissalReason::TimedOut)
    } else {
        None
    }
}

impl DismissalReason {
    /// Translate the platform's reason code; a code outside the three
    /// recognized values is refused.
    pub fn from_code(code: i32) -> (r: Result<DismissalReason, WinToastError>)
        ensures
            match r {
                Ok(reason) => spec_dismissal_of(code) == Some(reason),
                Err(e) => spec_dismissal_of(code) is None && e
                    == WinToastError::InvalidDismissalReason,
            },
    {
        if code == DISMISSAL_CODE_USER_CANCELED {
            Ok(DismissalReason::UserCanceled)
        } else if code == DISMISSAL_CODE_APPLICATION_HIDDEN {
            Ok(DismissalReason::ApplicationHidden)
        } else if code == DISMISSAL_CODE_TIMED_OUT {
            Ok(DismissalReason::TimedOut)
        } else {
            Err(WinToastError::InvalidDismissalReason)
        }
    }
}

/// The failure of a toast to display, as delivered to the failure callback.
#[derive(Debug)]
pub struct ToastFailed {
    /// The tag of the originating toast, if one was set.
    pub tag: Option<String>,
    /// The error encountered.
    pub error: WinToastError,
}

/// Whether a submitted-values entry is kept: both its id and its string
/// value must be non-empty (an absent value means the payload entry held
/// no string).
pub open spec fn keep_entry(p: (String, Option<String>)) -> bool {
    &&& p.0@.len() > 0
    &&& p.1 matches Some(v) && v@.len() > 0
}

/// The submitted-values entries that are kept, in payload order.
pub open spec fn spec_kept_values(entries: Seq<(String, Option<String>)>) -> Seq<(String, String)>
    decreases entries.len(),
{
    if entries.len() == 0 {
        Seq::empty()
    } else {
        let prefix = spec_kept_values(entries.drop_last());
        let p = entries.last();
        if keep_entry(p) {
            prefix.push((p.0, p.1->0))
        } else {
            prefix
        }
    }
}

fn collect_user_input(user_input: &Vec<(String, Option<String>)>) -> (r: Vec<(String, String)>)
    ensures
        r@ == spec_kept_values(user_input@),
{
    let mut values: Vec<(String, String)> = Vec::new();
    for k in 0..user_input.len()
        invariant
            values@ == spec_kept_values(user_input@.take(k as int)),
    {
        let entry = &user_input[k];
        if !entry.0.as_str().is_empty() {
            if let Some(v) = &entry.1 {
                if !v.as_str().is_empty() {
                    values.push((entry.0.clone(), v.clone()));
                }
            }
        }
        proof {
            assert(user_input@.take(k + 1).drop_last() =~= user_input@.take(k as int));
            assert(user_input@.take(k + 1).last() == user_input@[k as int]);
        }
    }
    proof {
        assert(user_input@.take(user_input@.len() as int) =~= user_input@);
    }
    values
}

/// Translate an activation event.
///
/// An absent or empty argument string means the toast body itself was
/// clicked rather than a button: no action is reported. Otherwise the
/// submitted input values are filtered ([`keep_entry`]) and delivered
/// together with the argument; the caller-supplied `input_id` context is
/// carried through unchanged.
pub fn get_activated_action(
    tag: Option<String>,
    arguments: Option<String>,
    user_input: Vec<(String, Option<String>)>,
    input_id: Option<String>,
) -> (r: Option<ActivatedAction>)
    ensures
        match r {
            Some(act) => {
                &&& arguments matches Some(a) && a@.len() > 0 && act.arg == a
                &&& act.tag == tag
                &&& act.input_id == input_id
                &&& act.values@ == spec_kept_values(user_input@)
            },
            None => !(arguments matches Some(a) && a@.len() > 0),
        },
{
    match arguments {
        Some(a) => {
            if a.as_str().is_empty() {
                None
            } else {
                let values = collect_user_input(&user_input);
                Some(ActivatedAction { tag, arg: a, values, input_id })
            }
        },
        None => None,
    }
}

/// Translate a dismissal event.
///
/// An absent reason code, or one outside the three recognized values, is
/// an [`WinToastError::InvalidDismissalReason`] failure — no silent
/// default.
pub fn get_dismissal_reason(tag: Option<String>, reason_code: Option<i32>) -> (r: Result<
    ToastDismissed,
    WinToastError,
>)
    ensures
        match r {
            Ok(d) => {
                &&& reason_code matches Some(c) && spec_dismissal_of(c) == Some(d.reason)
                &&& d.tag == tag
            },
            Err(e) => {
                &&& e == WinToastError::InvalidDismissalReason
                &&& (reason_code matches Some(c) ==> spec_dismissal_of(c) is None)
            },
        },
{
    match reason_code {
        Some(code) => match DismissalReason::from_code(code) {
            Ok(reason) => Ok(ToastDismissed { tag, reason }),
            Err(e) => Err(e),
        },
        None => Err(WinToastError::InvalidDismissalReason),
    }
}

/// Translate a failure event.
///
/// A failing error code (negative, as the platform reports failures) is
/// wrapped as [`WinToastError::Os`]; an absent code, or one that reports
/// no actual error condition, falls back to [`WinToastError::Unknown`].
/// This translation never itself fails; it only classifies.
pub fn get_failed_error(tag: Option<String>, error_code: Option<i32>) -> (r: ToastFailed)
    ensures
        r.tag == tag,
        r.error == (match error_code {
            Some(c) => if c < 0 {
                WinToastError::Os(c)
            } else {
                WinToastError::Unknown
            },
            None => WinToastError::Unknown,
        }),
{
    let error = match error_code {
        Some(c) => {
            if c < 0 {
                WinToastError::Os(c)
            } else {
                WinToastError::Unknown
            }
        },
        None => WinToastError::Unknown,
    };
    ToastFailed { tag, error }
}

} // verus!
