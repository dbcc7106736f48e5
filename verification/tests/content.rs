//! Tests of the content model: constructors, fluent setters, and the
//! validation of local image paths.

use winrt_toast_reborn::action::{ActionPlacement, ActivationType, HintButtonStyle};
use winrt_toast_reborn::audio::{LoopingSound, Sound};
use winrt_toast_reborn::decimal::u8_decimal;
use winrt_toast_reborn::image::{ImageHintCrop, ImagePlacement};
use winrt_toast_reborn::input::InputType;
use winrt_toast_reborn::{
    Action, Audio, Header, Image, Input, Scenario, Selection, Text, TextPlacement, Toast,
    ToastDuration, WinToastError,
};

#[test]
fn text_builder() {
    let t = Text::new("Hello");
    assert_eq!(t.content, "Hello");
    assert!(t.placement.is_none());

    let t = Text::new("Via SMS").with_placement(TextPlacement::Attribution);
    assert_eq!(t.content, "Via SMS");
    assert_eq!(t.placement, Some(TextPlacement::Attribution));
    assert_eq!(TextPlacement::Attribution.as_str(), "attribution");
}

#[test]
fn action_builder() {
    let a = Action::new("Send", "send_response", "t");
    assert_eq!(a.content, "Send");
    assert_eq!(a.arguments, "send_response");
    assert_eq!(a.typ, "t");
    assert!(a.activation_type.is_none());
    assert!(a.placement.is_none());
    assert!(a.input_id.is_none());
    assert!(a.button_style.is_none());

    let a = a
        .with_activation_type(ActivationType::Background)
        .with_placement(ActionPlacement::ContextMenu)
        .with_button_style(HintButtonStyle::Critical)
        .with_input_id("response");
    assert_eq!(a.activation_type, Some(ActivationType::Background));
    assert_eq!(a.placement, Some(ActionPlacement::ContextMenu));
    assert_eq!(a.button_style, Some(HintButtonStyle::Critical));
    assert_eq!(a.input_id.as_deref(), Some("response"));
}

#[test]
fn enumeration_tokens() {
    assert_eq!(ActivationType::Foreground.as_str(), "foreground");
    assert_eq!(ActivationType::Background.as_str(), "background");
    assert_eq!(ActivationType::Protocol.as_str(), "protocol");
    assert_eq!(ActionPlacement::ContextMenu.as_str(), "contextMenu");
    assert_eq!(HintButtonStyle::Success.as_str(), "Success");
    assert_eq!(HintButtonStyle::Critical.as_str(), "Critical");
    assert_eq!(InputType::Text.as_str(), "text");
    assert_eq!(InputType::Selection.as_str(), "selection");
    assert_eq!(ImagePlacement::Hero.as_str(), "hero");
    assert_eq!(ImagePlacement::AppLogoOverride.as_str(), "appLogoOverride");
    assert_eq!(ImageHintCrop::Circle.as_str(), "circle");
    assert_eq!(ToastDuration::Short.as_str(), "short");
    assert_eq!(ToastDuration::Long.as_str(), "long");
    assert_eq!(Scenario::Reminder.as_str(), "reminder");
    assert_eq!(Scenario::Alarm.as_str(), "alarm");
    assert_eq!(Scenario::IncomingCall.as_str(), "incomingCall");
    assert_eq!(Scenario::Urgent.as_str(), "urgent");
}

#[test]
fn sound_tokens() {
    assert_eq!(Sound::Default.as_str(), "Default");
    assert_eq!(Sound::IM.as_str(), "IM");
    assert_eq!(Sound::Mail.as_str(), "Mail");
    assert_eq!(Sound::Reminder.as_str(), "Reminder");
    assert_eq!(Sound::SMS.as_str(), "SMS");
    assert_eq!(Sound::Looping(LoopingSound::Alarm10).as_str(), "Alarm10");
    assert_eq!(Sound::Looping(LoopingSound::Call3).as_str(), "Call3");
    assert_eq!(Sound::NoSound.as_str(), "");
}

#[test]
fn audio_builder() {
    let a = Audio::new(Sound::Mail);
    assert_eq!(a.src, Sound::Mail);
    assert!(!a.looping);
    assert!(!a.silent);

    let a = Audio::new(Sound::Looping(LoopingSound::Call)).with_looping().with_silent();
    assert!(a.looping);
    assert!(a.silent);
}

#[test]
fn input_builder() {
    let i = Input::new("response", InputType::Selection)
        .with_placeholder("Pick one")
        .with_title("Select option")
        .with_default_input("yes");
    assert_eq!(i.id, "response");
    assert_eq!(i.typ, InputType::Selection);
    assert_eq!(i.place_holder.as_deref(), Some("Pick one"));
    assert_eq!(i.title.as_deref(), Some("Select option"));
    assert_eq!(i.default_input.as_deref(), Some("yes"));

    let s = Selection::new("yes", "Yes");
    assert_eq!(s.id, "yes");
    assert_eq!(s.content, "Yes");
}

#[test]
fn header_builder() {
    let h = Header::new("sports", "Sports news", "openSports")
        .with_activation_type(ActivationType::Foreground);
    assert_eq!(h.id, "sports");
    assert_eq!(h.title, "Sports news");
    assert_eq!(h.arguments, "openSports");
    assert_eq!(h.activation_type, Some(ActivationType::Foreground));
}

#[test]
fn image_from_source() {
    let img = Image::new(String::from("https://example.com/a.png"))
        .with_placement(ImagePlacement::Hero)
        .with_hint_crop(ImageHintCrop::Circle);
    assert_eq!(img.src, "https://example.com/a.png");
    assert_eq!(img.placement, Some(ImagePlacement::Hero));
    assert_eq!(img.hint_crop, Some(ImageHintCrop::Circle));
}

#[test]
fn image_local_relative_path_is_rejected() {
    let r = Image::new_local("relative/hero.jpg");
    assert!(matches!(r, Err(WinToastError::InvalidPath)));
}

#[test]
fn image_local_absolute_path_becomes_file_url() {
    let img = Image::new_local("/media/hero image.jpg").expect("absolute path must convert");
    assert_eq!(img.src, "file:///media/hero%20image.jpg");
    assert!(img.placement.is_none());
    assert!(img.hint_crop.is_none());
}

#[test]
fn toast_builder_fields() {
    let mut toast = Toast::new();
    toast.text1(Text::new("Title"));
    toast.text2(Text::new("Body"));
    toast.text3(Text::new("Via SMS").with_placement(TextPlacement::Attribution));
    toast.tag("tag-1");
    toast.group("group-1");
    toast.remote_id("remote-1");
    toast.duration(ToastDuration::Long);
    toast.scenario(Scenario::Reminder);
    toast.launch("action=open");
    toast.use_button_style(true);
    toast.expires_in(3600);

    assert_eq!(toast.text1.as_ref().unwrap().content, "Title");
    assert_eq!(toast.text2.as_ref().unwrap().content, "Body");
    assert_eq!(toast.text3.as_ref().unwrap().content, "Via SMS");
    assert_eq!(toast.tag.as_deref(), Some("tag-1"));
    assert_eq!(toast.group.as_deref(), Some("group-1"));
    assert_eq!(toast.remote_id.as_deref(), Some("remote-1"));
    assert_eq!(toast.duration, Some(ToastDuration::Long));
    assert_eq!(toast.scenario, Some(Scenario::Reminder));
    assert_eq!(toast.launch.as_deref(), Some("action=open"));
    assert_eq!(toast.use_button_style, Some(true));
    assert_eq!(toast.expires_in_seconds, Some(3600));
}

#[test]
fn toast_images_keep_slot_id_order() {
    let mut toast = Toast::new();
    toast.image(3, Image::new(String::from("c")));
    toast.image(1, Image::new(String::from("a")));
    toast.image(2, Image::new(String::from("b")));

    let ids: Vec<u8> = toast.images.iter().map(|(id, _)| *id).collect();
    assert_eq!(ids, vec![1, 2, 3]);
    let srcs: Vec<&str> = toast.images.iter().map(|(_, img)| img.src.as_str()).collect();
    assert_eq!(srcs, vec!["a", "b", "c"]);
}

#[test]
fn toast_image_replaces_equal_slot_id() {
    let mut toast = Toast::new();
    toast.image(2, Image::new(String::from("old")));
    toast.image(2, Image::new(String::from("new")));
    assert_eq!(toast.images.len(), 1);
    assert_eq!(toast.images[0].0, 2);
    assert_eq!(toast.images[0].1.src, "new");
}

#[test]
fn decimal_rendering() {
    assert_eq!(u8_decimal(0), "0");
    assert_eq!(u8_decimal(9), "9");
    assert_eq!(u8_decimal(10), "10");
    assert_eq!(u8_decimal(99), "99");
    assert_eq!(u8_decimal(100), "100");
    assert_eq!(u8_decimal(255), "255");
}

#[test]
fn error_messages() {
    assert_eq!(WinToastError::Os(-1).message(), "Windows API error");
    assert_eq!(WinToastError::Io(String::from("gone")).message(), "IO error");
    assert_eq!(WinToastError::InvalidPath.message(), "The given path is not absolute");
    assert_eq!(
        WinToastError::InvalidDismissalReason.message(),
        "The dismissal reason from OS is unknown"
    );
    assert_eq!(WinToastError::Unknown.message(), "Unknown error");
}
