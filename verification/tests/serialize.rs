//! Tests of the serializer: the fixed element order, the attribute
//! tables, and the positional ids.

use winrt_toast_reborn::audio::{LoopingSound, Sound};
use winrt_toast_reborn::image::ImagePlacement;
use winrt_toast_reborn::input::InputType;
use winrt_toast_reborn::serialize::toast_document;
use winrt_toast_reborn::xml::Element;
use winrt_toast_reborn::{
    Action, Audio, Header, Image, Input, Scenario, Selection, Text, TextPlacement, Toast,
    ToastDuration,
};

fn attr<'a>(e: &'a Element, name: &str) -> Option<&'a str> {
    e.attrs.iter().find(|(n, _)| n == name).map(|(_, v)| v.as_str())
}

fn child_names(e: &Element) -> Vec<&str> {
    e.children.iter().map(|c| c.name.as_str()).collect()
}

#[test]
fn minimal_toast_document() {
    let toast = Toast::new();
    let doc = toast_document(&toast);
    assert_eq!(doc.name, "toast");
    assert!(doc.attrs.is_empty());
    assert_eq!(child_names(&doc), vec!["visual"]);
    let visual = &doc.children[0];
    assert!(visual.attrs.is_empty());
    assert_eq!(child_names(visual), vec!["binding"]);
    let binding = &visual.children[0];
    assert_eq!(binding.attrs, vec![(String::from("template"), String::from("ToastGeneric"))]);
    assert!(binding.children.is_empty());
}

#[test]
fn three_texts_in_order() {
    let mut toast = Toast::new();
    toast.text1(Text::new("Title"));
    toast.text2(Text::new("Body"));
    toast.text3(Text::new("Via SMS").with_placement(TextPlacement::Attribution));
    let doc = toast_document(&toast);

    let binding = &doc.children[0].children[0];
    assert_eq!(child_names(binding), vec!["text", "text", "text"]);
    let ids: Vec<&str> = binding.children.iter().map(|c| attr(c, "id").unwrap()).collect();
    assert_eq!(ids, vec!["1", "2", "3"]);
    assert_eq!(binding.children[0].text.as_deref(), Some("Title"));
    assert_eq!(binding.children[1].text.as_deref(), Some("Body"));
    assert_eq!(binding.children[2].text.as_deref(), Some("Via SMS"));
    // The placement attribute appears only where it was set.
    assert_eq!(attr(&binding.children[0], "placement"), None);
    assert_eq!(attr(&binding.children[1], "placement"), None);
    assert_eq!(attr(&binding.children[2], "placement"), Some("attribution"));
    // Exactly one attribute on the first two, two on the third.
    assert_eq!(binding.children[0].attrs.len(), 1);
    assert_eq!(binding.children[1].attrs.len(), 1);
    assert_eq!(binding.children[2].attrs.len(), 2);
}

#[test]
fn skipped_text_slots_do_not_shift_ids() {
    let mut toast = Toast::new();
    toast.text3(Text::new("Only third"));
    let doc = toast_document(&toast);
    let binding = &doc.children[0].children[0];
    assert_eq!(binding.children.len(), 1);
    assert_eq!(attr(&binding.children[0], "id"), Some("3"));
}

#[test]
fn images_round_trip() {
    let mut toast = Toast::new();
    toast.image(12, Image::new(String::from("b")));
    toast.image(3, Image::new(String::from("a")).with_placement(ImagePlacement::Hero));
    toast.image(200, Image::new(String::from("c")));
    let doc = toast_document(&toast);

    let binding = &doc.children[0].children[0];
    assert_eq!(child_names(binding), vec!["image", "image", "image"]);
    let ids: Vec<&str> = binding.children.iter().map(|c| attr(c, "id").unwrap()).collect();
    assert_eq!(ids, vec!["3", "12", "200"]);
    let srcs: Vec<&str> = binding.children.iter().map(|c| attr(c, "src").unwrap()).collect();
    assert_eq!(srcs, vec!["a", "b", "c"]);
    assert_eq!(attr(&binding.children[0], "placement"), Some("hero"));
    assert_eq!(attr(&binding.children[1], "placement"), None);
}

#[test]
fn images_follow_texts() {
    let mut toast = Toast::new();
    toast.text1(Text::new("Title"));
    toast.image(1, Image::new(String::from("a")));
    let doc = toast_document(&toast);
    let binding = &doc.children[0].children[0];
    assert_eq!(child_names(binding), vec!["text", "image"]);
}

#[test]
fn audio_looping_sound_src() {
    let mut toast = Toast::new();
    toast.audio(Audio::new(Sound::Looping(LoopingSound::Alarm2)).with_looping());
    let doc = toast_document(&toast);
    assert_eq!(child_names(&doc), vec!["visual", "audio"]);
    let audio = &doc.children[1];
    assert_eq!(attr(audio, "src"), Some("ms-winsoundevent:Notification.Looping.Alarm2"));
    assert_eq!(attr(audio, "loop"), Some("true"));
    assert_eq!(attr(audio, "silent"), Some("false"));
}

#[test]
fn audio_named_sound_src() {
    let mut toast = Toast::new();
    toast.audio(Audio::new(Sound::Reminder));
    let doc = toast_document(&toast);
    let audio = &doc.children[1];
    assert_eq!(attr(audio, "src"), Some("ms-winsoundevent:Notification.Reminder"));
    assert_eq!(attr(audio, "loop"), Some("false"));
    assert_eq!(attr(audio, "silent"), Some("false"));
}

#[test]
fn audio_no_sound_forces_silent() {
    let mut toast = Toast::new();
    // The explicit flag stays false; selecting no sound must force it.
    toast.audio(Audio::new(Sound::NoSound));
    let doc = toast_document(&toast);
    let audio = &doc.children[1];
    assert_eq!(attr(audio, "src"), None);
    assert_eq!(attr(audio, "silent"), Some("true"));
    assert_eq!(attr(audio, "loop"), Some("false"));
}

#[test]
fn toast_root_attributes() {
    let mut toast = Toast::new();
    toast.scenario(Scenario::IncomingCall);
    toast.launch("action=view");
    toast.duration(ToastDuration::Short);
    toast.use_button_style(true);
    let doc = toast_document(&toast);
    assert_eq!(
        doc.attrs,
        vec![
            (String::from("scenario"), String::from("incomingCall")),
            (String::from("launch"), String::from("action=view")),
            (String::from("duration"), String::from("short")),
            (String::from("useButtonStyle"), String::from("true")),
        ]
    );
}

#[test]
fn header_comes_first() {
    let mut toast = Toast::new();
    toast.header(Header::new("sports", "Sports news", "openSports"));
    toast.audio(Audio::new(Sound::Default));
    let doc = toast_document(&toast);
    assert_eq!(child_names(&doc), vec!["header", "visual", "audio"]);
    let header = &doc.children[0];
    assert_eq!(attr(header, "id"), Some("sports"));
    assert_eq!(attr(header, "title"), Some("Sports news"));
    assert_eq!(attr(header, "arguments"), Some("openSports"));
    assert_eq!(attr(header, "activationType"), None);
}

#[test]
fn actions_element_present_iff_input_or_actions() {
    let mut with_action = Toast::new();
    with_action.action(Action::new("Yes", "yes", ""));
    let doc = toast_document(&with_action);
    assert_eq!(child_names(&doc), vec!["visual", "actions"]);

    let mut with_input = Toast::new();
    with_input.input(Input::new("response", InputType::Text));
    let doc = toast_document(&with_input);
    assert_eq!(child_names(&doc), vec!["visual", "actions"]);

    let empty = Toast::new();
    let doc = toast_document(&empty);
    assert_eq!(child_names(&doc), vec!["visual"]);
}

#[test]
fn input_selections_and_actions() {
    let mut toast = Toast::new();
    toast.input(
        Input::new("response", InputType::Selection)
            .with_title("Select option")
            .with_default_input("yes"),
    );
    toast.selection(Selection::new("yes", "Yes"));
    toast.selection(Selection::new("no", "No"));
    toast.action(Action::new("Send", "send_response", "").with_input_id("response"));
    let doc = toast_document(&toast);

    let actions = &doc.children[1];
    assert_eq!(actions.name, "actions");
    assert_eq!(child_names(actions), vec!["input", "action"]);

    let input = &actions.children[0];
    assert_eq!(
        input.attrs,
        vec![
            (String::from("id"), String::from("response")),
            (String::from("type"), String::from("selection")),
            (String::from("title"), String::from("Select option")),
            (String::from("defaultInput"), String::from("yes")),
        ]
    );
    assert_eq!(child_names(input), vec!["selection", "selection"]);
    assert_eq!(
        input.children[0].attrs,
        vec![(String::from("id"), String::from("yes")), (String::from("content"), String::from("Yes"))]
    );
    assert_eq!(
        input.children[1].attrs,
        vec![(String::from("id"), String::from("no")), (String::from("content"), String::from("No"))]
    );

    let action = &actions.children[1];
    assert_eq!(
        action.attrs,
        vec![
            (String::from("content"), String::from("Send")),
            (String::from("arguments"), String::from("send_response")),
            (String::from("type"), String::from("")),
            (String::from("hint-inputId"), String::from("response")),
        ]
    );
}
