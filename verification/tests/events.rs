//! Tests of the event translation layer.

use winrt_toast_reborn::manager::{
    get_activated_action, get_dismissal_reason, get_failed_error, DISMISSAL_CODE_APPLICATION_HIDDEN,
    DISMISSAL_CODE_TIMED_OUT, DISMISSAL_CODE_USER_CANCELED,
};
use winrt_toast_reborn::serialize::toast_document;
use winrt_toast_reborn::{Action, DismissalReason, Text, TextPlacement, Toast, WinToastError};

#[test]
fn activation_with_empty_argument_is_no_action() {
    let r = get_activated_action(Some(String::from("t")), Some(String::new()), Vec::new(), None);
    assert!(r.is_none());
}

#[test]
fn activation_with_absent_argument_is_no_action() {
    let r = get_activated_action(Some(String::from("t")), None, Vec::new(), None);
    assert!(r.is_none());
}

#[test]
fn activation_filters_empty_submitted_values() {
    let user_input = vec![
        (String::from("note"), Some(String::new())),
        (String::from("response"), Some(String::from("yes"))),
    ];
    let act = get_activated_action(
        Some(String::from("t")),
        Some(String::from("send")),
        user_input,
        Some(String::from("response")),
    )
    .expect("a non-empty argument must produce an action");
    assert_eq!(act.arg, "send");
    assert_eq!(act.tag.as_deref(), Some("t"));
    assert_eq!(act.input_id.as_deref(), Some("response"));
    assert_eq!(act.values, vec![(String::from("response"), String::from("yes"))]);
}

#[test]
fn activation_filters_empty_keys_and_absent_values() {
    let user_input = vec![
        (String::new(), Some(String::from("kept out: empty id"))),
        (String::from("malformed"), None),
        (String::from("a"), Some(String::from("1"))),
        (String::from("b"), Some(String::from("2"))),
    ];
    let act = get_activated_action(None, Some(String::from("go")), user_input, None).unwrap();
    assert_eq!(
        act.values,
        vec![(String::from("a"), String::from("1")), (String::from("b"), String::from("2"))]
    );
}

#[test]
fn dismissal_codes_map_one_to_one() {
    let d = get_dismissal_reason(Some(String::from("t")), Some(DISMISSAL_CODE_USER_CANCELED))
        .expect("code 0 is recognized");
    assert_eq!(d.reason, DismissalReason::UserCanceled);
    assert_eq!(d.tag.as_deref(), Some("t"));

    let d = get_dismissal_reason(None, Some(DISMISSAL_CODE_APPLICATION_HIDDEN)).unwrap();
    assert_eq!(d.reason, DismissalReason::ApplicationHidden);

    let d = get_dismissal_reason(None, Some(DISMISSAL_CODE_TIMED_OUT)).unwrap();
    assert_eq!(d.reason, DismissalReason::TimedOut);
}

#[test]
fn unrecognized_dismissal_code_is_refused() {
    let r = get_dismissal_reason(None, Some(3));
    assert!(matches!(r, Err(WinToastError::InvalidDismissalReason)));
    let r = get_dismissal_reason(None, Some(-1));
    assert!(matches!(r, Err(WinToastError::InvalidDismissalReason)));
}

#[test]
fn absent_dismissal_reason_is_refused() {
    let r = get_dismissal_reason(Some(String::from("t")), None);
    assert!(matches!(r, Err(WinToastError::InvalidDismissalReason)));
}

#[test]
fn from_code_matches_translation() {
    assert_eq!(DismissalReason::from_code(0).unwrap(), DismissalReason::UserCanceled);
    assert_eq!(DismissalReason::from_code(1).unwrap(), DismissalReason::ApplicationHidden);
    assert_eq!(DismissalReason::from_code(2).unwrap(), DismissalReason::TimedOut);
    assert!(matches!(
        DismissalReason::from_code(42),
        Err(WinToastError::InvalidDismissalReason)
    ));
}

#[test]
fn failure_with_failing_code_is_os_error() {
    let f = get_failed_error(Some(String::from("t")), Some(-2147023728));
    assert_eq!(f.tag.as_deref(), Some("t"));
    assert!(matches!(f.error, WinToastError::Os(-2147023728)));
}

#[test]
fn failure_with_success_code_is_unknown() {
    let f = get_failed_error(None, Some(0));
    assert!(matches!(f.error, WinToastError::Unknown));
}

#[test]
fn failure_with_absent_code_is_unknown() {
    let f = get_failed_error(None, None);
    assert!(matches!(f.error, WinToastError::Unknown));
}

#[test]
fn end_to_end_activation_reports_exact_argument() {
    // Build the toast as an application would, serialize it, and then
    // translate the activation the platform would raise for the "Yes"
    // button: the reported argument is exactly the button's, and there
    // are no submitted values since no input was configured.
    let mut toast = Toast::new();
    toast.text1(Text::new("Title"));
    toast.text2(Text::new("Body"));
    toast.text3(Text::new("Via SMS").with_placement(TextPlacement::Attribution));
    toast.action(Action::new("Yes", "yes", ""));
    toast.action(Action::new("No", "no", ""));

    let doc = toast_document(&toast);
    let actions = &doc.children[1];
    assert_eq!(actions.children.len(), 2);
    let yes_args: Vec<&str> = actions
        .children
        .iter()
        .map(|c| c.attrs.iter().find(|(n, _)| n == "arguments").map(|(_, v)| v.as_str()).unwrap())
        .collect();
    assert_eq!(yes_args, vec!["yes", "no"]);

    let act = get_activated_action(toast.tag.clone(), Some(String::from("yes")), Vec::new(), None)
        .expect("the pressed button has a non-empty argument");
    assert_eq!(act.arg, "yes");
    assert!(act.values.is_empty());
    assert!(act.tag.is_none());
}
