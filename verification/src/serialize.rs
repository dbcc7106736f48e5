//! The serializer: a deterministic mapping from a populated [`Toast`] to
//! the element tree the notification platform consumes.
//!
//! The document has a fixed shape, not reorderable by the caller:
//!
//! ```text
//! toast[scenario?, launch?, duration?, useButtonStyle?]
//!   header?
//!   visual
//!     binding[template="ToastGeneric"]
//!       text(id=1)?  text(id=2)?  text(id=3)?
//!       image(id=slot)*          (one per registered slot, in slot-id order)
//!   audio?
//!   actions                      (present iff an input or an action is present)
//!     input?
//!       selection*               (in insertion order)
//!     action*                    (in insertion order)
//! ```
//!
//! The attribute names and enumerated tokens below are part of the wire
//! contract with the platform and must match it exactly; absent optional
//! fields omit their attribute entirely.

use vstd::prelude::*;

use crate::action::Action;
use crate::action::spec_activation_type_str;
use crate::action::spec_action_placement_str;
use crate::action::spec_button_style_str;
use crate::audio::Audio;
use crate::audio::Sound;
use crate::audio::spec_looping_sound_str;
use crate::audio::spec_sound_str;
use crate::decimal::spec_u8_decimal;
use crate::decimal::u8_decimal;
use crate::header::Header;
use crate::image::Image;
use crate::image::spec_hint_crop_str;
use crate::image::spec_image_placement_str;
use crate::input::Input;
use crate::input::Selection;
use crate::input::spec_input_type_str;
use crate::text::Text;
use crate::text::spec_text_placement_str;
use crate::toast::Toast;
use crate::toast::spec_duration_str;
use crate::toast::spec_scenario_str;
use crate::xml::Element;
use crate::xml::attrs_of;

verus! {

/// The serialized token for a boolean attribute value.
pub open spec fn spec_bool_str(b: bool) -> Seq<char> {
    if b {
        "true"@
    } else {
        "false"@
    }
}

fn bool_str(b: bool) -> (r: &'static str)
    ensures
        r@ == spec_bool_str(b),
{
    if b {
        "true"
    } else {
        "false"
    }
}

/// The attributes of a serialized `text` element at position `idx`.
pub open spec fn text_attr_views(t: Text, idx: int) -> Seq<(Seq<char>, Seq<char>)> {
    seq![("id"@, spec_u8_decimal(idx))] + (match t.placement {
        Some(p) => seq![("placement"@, spec_text_placement_str(p))],
        None => Seq::<(Seq<char>, Seq<char>)>::empty(),
    })
}

/// Whether `e` is the serialization of text `t` at position `idx`.
pub open spec fn is_text_el(e: Element, t: Text, idx: int) -> bool {
    &&& e.name@ == "text"@
    &&& attrs_of(e) == text_attr_views(t, idx)
    &&& e.text matches Some(c) && c@ == t.content@
    &&& e.children@.len() == 0
}

/// The attributes of a serialized `image` element at slot `id`.
pub open spec fn image_attr_views(img: Image, id: int) -> Seq<(Seq<char>, Seq<char>)> {
    seq![("id"@, spec_u8_decimal(id)), ("src"@, img.src@)] + (match img.placement {
        Some(p) => seq![("placement"@, spec_image_placement_str(p))],
        None => Seq::<(Seq<char>, Seq<char>)>::empty(),
    }) + (match img.hint_crop {
        Some(c) => seq![("hint-crop"@, spec_hint_crop_str(c))],
        None => Seq::<(Seq<char>, Seq<char>)>::empty(),
    })
}

/// Whether `e` is the serialization of image `img` at slot `id`.
pub open spec fn is_image_el(e: Element, img: Image, id: int) -> bool {
    &&& e.name@ == "image"@
    &&& attrs_of(e) == image_attr_views(img, id)
    &&& e.text is None
    &&& e.children@.len() == 0
}

/// The attributes of a serialized `action` element.
pub open spec fn action_attr_views(a: Action) -> Seq<(Seq<char>, Seq<char>)> {
    seq![("content"@, a.content@), ("arguments"@, a.arguments@), ("type"@, a.typ@)] + (
    match a.activation_type {
        Some(t) => seq![("activationType"@, spec_activation_type_str(t))],
        None => Seq::<(Seq<char>, Seq<char>)>::empty(),
    }) + (match a.placement {
        Some(p) => seq![("placement"@, spec_action_placement_str(p))],
        None => Seq::<(Seq<char>, Seq<char>)>::empty(),
    }) + (match a.button_style {
        Some(s) => seq![("hint-buttonStyle"@, spec_button_style_str(s))],
        None => Seq::<(Seq<char>, Seq<char>)>::empty(),
    }) + (match a.input_id {
        Some(id) => seq![("hint-inputId"@, id@)],
        None => Seq::<(Seq<char>, Seq<char>)>::empty(),
    })
}

/// Whether `e` is the serialization of action `a`.
pub open spec fn is_action_el(e: Element, a: Action) -> bool {
    &&& e.name@ == "action"@
    &&& attrs_of(e) == action_attr_views(a)
    &&& e.text is None
    &&& e.children@.len() == 0
}

/// The `src` attribute value of a serialized `audio` element; meaningful
/// only when the sound is not [`Sound::NoSound`].
pub open spec fn audio_src_view(s: Sound) -> Seq<char> {
    match s {
        Sound::Looping(l) => "ms-winsoundevent:Notification.Looping."@ + spec_looping_sound_str(l),
        _ => "ms-winsoundevent:Notification."@ + spec_sound_str(s),
    }
}

/// The attributes of a serialized `audio` element. Selecting
/// [`Sound::NoSound`] omits `src` and forces `silent` to `"true"`.
pub open spec fn audio_attr_views(a: Audio) -> Seq<(Seq<char>, Seq<char>)> {
    (match a.src {
        Sound::NoSound => Seq::<(Seq<char>, Seq<char>)>::empty(),
        _ => seq![("src"@, audio_src_view(a.src))],
    }) + seq![
        ("loop"@, spec_bool_str(a.looping)),
        ("silent"@, spec_bool_str(a.src is NoSound || a.silent)),
    ]
}

/// Whether `e` is the serialization of audio `a`.
pub open spec fn is_audio_el(e: Element, a: Audio) -> bool {
    &&& e.name@ == "audio"@
    &&& attrs_of(e) == audio_attr_views(a)
    &&& e.text is None
    &&& e.children@.len() == 0
}

/// The attributes of a serialized `header` element.
pub open spec fn header_attr_views(h: Header) -> Seq<(Seq<char>, Seq<char>)> {
    seq![("id"@, h.id@), ("title"@, h.title@), ("arguments"@, h.arguments@)] + (
    match h.activation_type {
        Some(t) => seq![("activationType"@, spec_activation_type_str(t))],
        None => Seq::<(Seq<char>, Seq<char>)>::empty(),
    })
}

/// Whether `e` is the serialization of header `h`.
pub open spec fn is_header_el(e: Element, h: Header) -> bool {
    &&& e.name@ == "header"@
    &&& attrs_of(e) == header_attr_views(h)
    &&& e.text is None
    &&& e.children@.len() == 0
}

/// The attributes of a serialized `selection` element.
pub open spec fn selection_attr_views(s: Selection) -> Seq<(Seq<char>, Seq<char>)> {
    seq![("id"@, s.id@), ("content"@, s.content@)]
}

/// Whether `e` is the serialization of selection `s`.
pub open spec fn is_selection_el(e: Element, s: Selection) -> bool {
    &&& e.name@ == "selection"@
    &&& attrs_of(e) == selection_attr_views(s)
    &&& e.text is None
    &&& e.children@.len() == 0
}

/// The attributes of a serialized `input` element.
pub open spec fn input_attr_views(i: Input) -> Seq<(Seq<char>, Seq<char>)> {
    seq![("id"@, i.id@), ("type"@, spec_input_type_str(i.typ))] + (match i.place_holder {
        Some(p) => seq![("placeHolderContent"@, p@)],
        None => Seq::<(Seq<char>, Seq<char>)>::empty(),
    }) + (match i.title {
        Some(t) => seq![("title"@, t@)],
        None => Seq::<(Seq<char>, Seq<char>)>::empty(),
    }) + (match i.default_input {
        Some(d) => seq![("defaultInput"@, d@)],
        None => Seq::<(Seq<char>, Seq<char>)>::empty(),
    })
}

/// Whether `e` is the serialization of input `i` with selections `sels`
/// as its children, in insertion order.
pub open spec fn is_input_el(e: Element, i: Input, sels: Seq<Selection>) -> bool {
    &&& e.name@ == "input"@
    &&& attrs_of(e) == input_attr_views(i)
    &&& e.text is None
    &&& e.children@.len() == sels.len()
    &&& forall|k: int|
        0 <= k < sels.len() ==> is_selection_el(#[trigger] e.children@[k], sels[k])
}

/// The text slots of `t` that are set, with their positions, in position
/// order.
pub open spec fn text_slots(t: Toast) -> Seq<(Text, int)> {
    (match t.text1 {
        Some(x) => seq![(x, 1int)],
        None => Seq::<(Text, int)>::empty(),
    }) + (match t.text2 {
        Some(x) => seq![(x, 2int)],
        None => Seq::<(Text, int)>::empty(),
    }) + (match t.text3 {
        Some(x) => seq![(x, 3int)],
        None => Seq::<(Text, int)>::empty(),
    })
}

/// Whether `e` is the serialized `binding` element of `t`: its children
/// are the set text slots at positions 1 to 3, in order, followed by one
/// `image` element per registered image slot, in the stored slot order.
pub open spec fn is_binding_el(e: Element, t: Toast) -> bool {
    let texts = text_slots(t);
    let imgs = t.images@;
    &&& e.name@ == "binding"@
    &&& attrs_of(e) == seq![("template"@, "ToastGeneric"@)]
    &&& e.text is None
    &&& e.children@.len() == texts.len() + imgs.len()
    &&& forall|k: int|
        0 <= k < texts.len() ==> is_text_el(#[trigger] e.children@[k], texts[k].0, texts[k].1)
    &&& forall|k: int|
        0 <= k < imgs.len() ==> is_image_el(
            e.children@[texts.len() + k],
            (#[trigger] imgs[k]).1,
            imgs[k].0 as int,
        )
}

/// Whether `e` is the serialized `visual` element of `t`.
pub open spec fn is_visual_el(e: Element, t: Toast) -> bool {
    &&& e.name@ == "visual"@
    &&& attrs_of(e) == Seq::<(Seq<char>, Seq<char>)>::empty()
    &&& e.text is None
    &&& e.children@.len() == 1
    &&& is_binding_el(e.children@[0], t)
}

/// Whether the document of `t` carries an `actions` element at all.
pub open spec fn spec_has_actions_el(t: Toast) -> bool {
    t.input is Some || t.actions@.len() > 0
}

/// Whether `e` is the serialized `actions` element of `t`: the input
/// element, if any, followed by one `action` element per action, in
/// insertion order.
pub open spec fn is_actions_el(e: Element, t: Toast) -> bool {
    let ni: int = if t.input is Some {
        1
    } else {
        0
    };
    &&& e.name@ == "actions"@
    &&& attrs_of(e) == Seq::<(Seq<char>, Seq<char>)>::empty()
    &&& e.text is None
    &&& e.children@.len() == ni + t.actions@.len()
    &&& (t.input matches Some(i) ==> is_input_el(e.children@[0], i, t.selections@))
    &&& forall|k: int|
        0 <= k < t.actions@.len() ==> is_action_el(e.children@[ni + k], #[trigger] t.actions@[k])
}

/// The attributes of the serialized `toast` root element.
pub open spec fn toast_attr_views(t: Toast) -> Seq<(Seq<char>, Seq<char>)> {
    (match t.scenario {
        Some(s) => seq![("scenario"@, spec_scenario_str(s))],
        None => Seq::<(Seq<char>, Seq<char>)>::empty(),
    }) + (match t.launch {
        Some(l) => seq![("launch"@, l@)],
        None => Seq::<(Seq<char>, Seq<char>)>::empty(),
    }) + (match t.duration {
        Some(d) => seq![("duration"@, spec_duration_str(d))],
        None => Seq::<(Seq<char>, Seq<char>)>::empty(),
    }) + (match t.use_button_style {
        Some(b) => seq![("useButtonStyle"@, spec_bool_str(b))],
        None => Seq::<(Seq<char>, Seq<char>)>::empty(),
    })
}

/// Whether `doc` is the complete serialized document of `t`: the `toast`
/// root with its attributes, then the optional `header`, the `visual`
/// with its `binding`, the optional `audio`, and the `actions` element
/// exactly when an input or an action is present.
pub open spec fn is_toast_document(doc: Element, t: Toast) -> bool {
    let nh: int = if t.header is Some {
        1
    } else {
        0
    };
    let na: int = if t.audio is Some {
        1
    } else {
        0
    };
    let nact: int = if spec_has_actions_el(t) {
        1
    } else {
        0
    };
    &&& doc.name@ == "toast"@
    &&& attrs_of(doc) == toast_attr_views(t)
    &&& doc.text is None
    &&& doc.children@.len() == nh + 1 + na + nact
    &&& (t.header matches Some(h) ==> is_header_el(doc.children@[0], h))
    &&& is_visual_el(doc.children@[nh], t)
    &&& (t.audio matches Some(a) ==> is_audio_el(doc.children@[nh + 1], a))
    &&& (spec_has_actions_el(t) ==> is_actions_el(doc.children@[nh + 1 + na], t))
}

fn text_element(t: &Text, idx: u8) -> (e: Element)
    ensures
        is_text_el(e, *t, idx as int),
{
    let mut e = Element::new("text");
    e.set_attribute("id", u8_decimal(idx));
    if let Some(p) = &t.placement {
        e.set_attribute("placement", String::from_str(p.as_str()));
    }
    e.set_text(t.content.clone());
    proof {
        assert(attrs_of(e) =~= text_attr_views(*t, idx as int));
    }
    e
}

fn image_element(img: &Image, id: u8) -> (e: Element)
    ensures
        is_image_el(e, *img, id as int),
{
    let mut e = Element::new("image");
    e.set_attribute("id", u8_decimal(id));
    e.set_attribute("src", img.src.clone());
    if let Some(p) = &img.placement {
        e.set_attribute("placement", String::from_str(p.as_str()));
    }
    if let Some(c) = &img.hint_crop {
        e.set_attribute("hint-crop", String::from_str(c.as_str()));
    }
    proof {
        assert(attrs_of(e) =~= image_attr_views(*img, id as int));
    }
    e
}

fn action_element(a: &Action) -> (e: Element)
    ensures
        is_action_el(e, *a),
{
    let mut e = Element::new("action");
    e.set_attribute("content", a.content.clone());
    e.set_attribute("arguments", a.arguments.clone());
    e.set_attribute("type", a.typ.clone());
    if let Some(t) = &a.activation_type {
        e.set_attribute("activationType", String::from_str(t.as_str()));
    }
    if let Some(p) = &a.placement {
        e.set_attribute("placement", String::from_str(p.as_str()));
    }
    if let Some(s) = &a.button_style {
        e.set_attribute("hint-buttonStyle", String::from_str(s.as_str()));
    }
    if let Some(id) = &a.input_id {
        e.set_attribute("hint-inputId", id.clone());
    }
    proof {
        assert(attrs_of(e) =~= action_attr_views(*a));
    }
    e
}

fn audio_element(a: &Audio) -> (e: Element)
    ensures
        is_audio_el(e, *a),
{
    let mut e = Element::new("audio");
    let mut silent = a.silent;
    match a.src {
        Sound::NoSound => {
            silent = true;
        },
        Sound::Looping(l) => {
            let mut src = String::from_str("ms-winsoundevent:Notification.Looping.");
            src.append(l.as_str());
            e.set_attribute("src", src);
        },
        _ => {
            let mut src = String::from_str("ms-winsoundevent:Notification.");
            src.append(a.src.as_str());
            e.set_attribute("src", src);
        },
    }
    e.set_attribute("loop", String::from_str(bool_str(a.looping)));
    e.set_attribute("silent", String::from_str(bool_str(silent)));
    proof {
        assert(attrs_of(e) =~= audio_attr_views(*a));
    }
    e
}

fn header_element(h: &Header) -> (e: Element)
    ensures
        is_header_el(e, *h),
{
    let mut e = Element::new("header");
    e.set_attribute("id", h.id.clone());
    e.set_attribute("title", h.title.clone());
    e.set_attribute("arguments", h.arguments.clone());
    if let Some(t) = &h.activation_type {
        e.set_attribute("activationType", String::from_str(t.as_str()));
    }
    proof {
        assert(attrs_of(e) =~= header_attr_views(*h));
    }
    e
}

fn selection_element(s: &Selection) -> (e: Element)
    ensures
        is_selection_el(e, *s),
{
    let mut e = Element::new("selection");
    e.set_attribute("id", s.id.clone());
    e.set_attribute("content", s.content.clone());
    proof {
        assert(attrs_of(e) =~= selection_attr_views(*s));
    }
    e
}

#[verifier::loop_isolation(false)]
fn input_element(i: &Input, selections: &Vec<Selection>) -> (e: Element)
    ensures
        is_input_el(e, *i, selections@),
{
    let mut e = Element::new("input");
    e.set_attribute("id", i.id.clone());
    e.set_attribute("type", String::from_str(i.typ.as_str()));
    if let Some(p) = &i.place_holder {
        e.set_attribute("placeHolderContent", p.clone());
    }
    if let Some(t) = &i.title {
        e.set_attribute("title", t.clone());
    }
    if let Some(d) = &i.default_input {
        e.set_attribute("defaultInput", d.clone());
    }
    proof {
        assert(attrs_of(e) =~= input_attr_views(*i));
    }
    let ghost fixed = e;
    for k in 0..selections.len()
        invariant
            e.name == fixed.name,
            e.attrs == fixed.attrs,
            e.text == fixed.text,
            e.children@.len() == k,
            forall|j: int|
                0 <= j < k ==> is_selection_el(#[trigger] e.children@[j], selections@[j]),
    {
        e.append_child(selection_element(&selections[k]));
    }
    e
}

#[verifier::loop_isolation(false)]
fn actions_element(t: &Toast) -> (e: Element)
    ensures
        is_actions_el(e, *t),
{
    let mut e = Element::new("actions");
    if let Some(i) = &t.input {
        e.append_child(input_element(i, &t.selections));
    }
    let ghost ni: int = if t.input is Some {
        1
    } else {
        0
    };
    for k in 0..t.actions.len()
        invariant
            e.name@ == "actions"@,
            attrs_of(e) == Seq::<(Seq<char>, Seq<char>)>::empty(),
            e.text is None,
            e.children@.len() == ni + k,
            t.input matches Some(i) ==> is_input_el(e.children@[0], i, t.selections@),
            forall|j: int|
                0 <= j < k ==> is_action_el(e.children@[ni + j], #[trigger] t.actions@[j]),
    {
        e.append_child(action_element(&t.actions[k]));
    }
    e
}

#[verifier::loop_isolation(false)]
fn binding_element(t: &Toast) -> (e: Element)
    ensures
        is_binding_el(e, *t),
{
    let mut e = Element::new("binding");
    e.set_attribute("template", String::from_str("ToastGeneric"));
    proof {
        assert(attrs_of(e) =~= seq![("template"@, "ToastGeneric"@)]);
    }
    if let Some(x) = &t.text1 {
        e.append_child(text_element(x, 1));
    }
    if let Some(x) = &t.text2 {
        e.append_child(text_element(x, 2));
    }
    if let Some(x) = &t.text3 {
        e.append_child(text_element(x, 3));
    }
    let ghost texts = text_slots(*t);
    proof {
        assert(e.children@.len() == texts.len());
        assert forall|k: int|
            0 <= k < texts.len() implies is_text_el(
            #[trigger] e.children@[k],
            texts[k].0,
            texts[k].1,
        ) by {
            assert(texts == (match t.text1 {
                Some(x) => seq![(x, 1int)],
                None => Seq::<(Text, int)>::empty(),
            }) + (match t.text2 {
                Some(x) => seq![(x, 2int)],
                None => Seq::<(Text, int)>::empty(),
            }) + (match t.text3 {
                Some(x) => seq![(x, 3int)],
                None => Seq::<(Text, int)>::empty(),
            }));
        }
    }
    let ghost base: int = texts.len() as int;
    for k in 0..t.images.len()
        invariant
            e.name@ == "binding"@,
            attrs_of(e) == seq![("template"@, "ToastGeneric"@)],
            e.text is None,
            e.children@.len() == base + k,
            forall|j: int|
                0 <= j < base ==> is_text_el(#[trigger] e.children@[j], texts[j].0, texts[j].1),
            forall|j: int|
                0 <= j < k ==> is_image_el(
                    e.children@[base + j],
                    (#[trigger] t.images@[j]).1,
                    t.images@[j].0 as int,
                ),
    {
        let slot = &t.images[k];
        e.append_child(image_element(&slot.1, slot.0));
    }
    e
}

fn visual_element(t: &Toast) -> (e: Element)
    ensures
        is_visual_el(e, *t),
{
    let mut e = Element::new("visual");
    e.append_child(binding_element(t));
    e
}

/// The attributes a serialized text element carries, spelled out: the
/// positional id always, and the placement exactly when the text sets one.
pub open spec fn text_el_attrs_exact(e: Element, t: Text, idx: int) -> bool {
    &&& (t.placement is None ==> attrs_of(e) == seq![("id"@, spec_u8_decimal(idx))])
    &&& (t.placement matches Some(p) ==> attrs_of(e) == seq![
        ("id"@, spec_u8_decimal(idx)),
        ("placement"@, spec_text_placement_str(p)),
    ])
}

/// For any toast with all three text slots set, the serialized binding
/// holds exactly three text elements, at positions 1, 2 and 3 in that
/// order, before any image element; each carries a placement attribute
/// exactly when its text slot sets one.
pub proof fn lemma_three_texts(t: Toast, doc: Element)
    requires
        is_toast_document(doc, t),
        t.text1 is Some,
        t.text2 is Some,
        t.text3 is Some,
    ensures
        ({
            let nh: int = if t.header is Some {
                1
            } else {
                0
            };
            let binding = doc.children@[nh].children@[0];
            &&& binding.children@.len() == 3 + t.images@.len()
            &&& is_text_el(binding.children@[0], t.text1->0, 1)
            &&& is_text_el(binding.children@[1], t.text2->0, 2)
            &&& is_text_el(binding.children@[2], t.text3->0, 3)
            &&& text_el_attrs_exact(binding.children@[0], t.text1->0, 1)
            &&& text_el_attrs_exact(binding.children@[1], t.text2->0, 2)
            &&& text_el_attrs_exact(binding.children@[2], t.text3->0, 3)
        }),
{
    let nh: int = if t.header is Some {
        1
    } else {
        0
    };
    let binding = doc.children@[nh].children@[0];
    let texts = text_slots(t);
    assert(texts =~= seq![(t.text1->0, 1int), (t.text2->0, 2int), (t.text3->0, 3int)]);
    assert(is_text_el(binding.children@[0], texts[0].0, texts[0].1));
    assert(is_text_el(binding.children@[1], texts[1].0, texts[1].1));
    assert(is_text_el(binding.children@[2], texts[2].0, texts[2].1));
    lemma_text_attrs_exact(binding.children@[0], t.text1->0, 1);
    lemma_text_attrs_exact(binding.children@[1], t.text2->0, 2);
    lemma_text_attrs_exact(binding.children@[2], t.text3->0, 3);
}

/// [`text_attr_views`] carries the placement attribute exactly when the
/// text sets one.
proof fn lemma_text_attrs_exact(e: Element, t: Text, idx: int)
    requires
        attrs_of(e) == text_attr_views(t, idx),
    ensures
        text_el_attrs_exact(e, t, idx),
{
    match t.placement {
        Some(p) => {
            assert(text_attr_views(t, idx) =~= seq![
                ("id"@, spec_u8_decimal(idx)),
                ("placement"@, spec_text_placement_str(p)),
            ]);
        },
        None => {
            assert(text_attr_views(t, idx) =~= seq![("id"@, spec_u8_decimal(idx))]);
        },
    }
}

/// For any audio element built from a looping sound, the serialized `src`
/// attribute is `ms-winsoundevent:Notification.Looping.<Name>`; for a
/// non-looping named sound it is `ms-winsoundevent:Notification.<Name>`;
/// for no sound there is no `src` attribute and `silent` is `"true"`
/// whatever the explicit silent flag.
pub proof fn lemma_audio_serialization(a: Audio, e: Element)
    requires
        is_audio_el(e, a),
    ensures
        a.src matches Sound::Looping(l) ==> attrs_of(e) == seq![
            ("src"@, "ms-winsoundevent:Notification.Looping."@ + spec_looping_sound_str(l)),
            ("loop"@, spec_bool_str(a.looping)),
            ("silent"@, spec_bool_str(a.silent)),
        ],
        !(a.src is Looping) && !(a.src is NoSound) ==> attrs_of(e) == seq![
            ("src"@, "ms-winsoundevent:Notification."@ + spec_sound_str(a.src)),
            ("loop"@, spec_bool_str(a.looping)),
            ("silent"@, spec_bool_str(a.silent)),
        ],
        a.src is NoSound ==> attrs_of(e) == seq![
            ("loop"@, spec_bool_str(a.looping)),
            ("silent"@, "true"@),
        ],
{
    match a.src {
        Sound::NoSound => {
            assert(audio_attr_views(a) =~= seq![
                ("loop"@, spec_bool_str(a.looping)),
                ("silent"@, "true"@),
            ]);
        },
        Sound::Looping(l) => {
            assert(audio_attr_views(a) =~= seq![
                ("src"@, "ms-winsoundevent:Notification.Looping."@ + spec_looping_sound_str(l)),
                ("loop"@, spec_bool_str(a.looping)),
                ("silent"@, spec_bool_str(a.silent)),
            ]);
        },
        _ => {
            assert(audio_attr_views(a) =~= seq![
                ("src"@, "ms-winsoundevent:Notification."@ + spec_sound_str(a.src)),
                ("loop"@, spec_bool_str(a.looping)),
                ("silent"@, spec_bool_str(a.silent)),
            ]);
        },
    }
}

/// For any well-formed toast, the serialized binding holds, after its text
/// elements, exactly one image element per registered slot, in slot-id
/// order, each carrying its own slot id as its positional attribute — no
/// duplicates, no drops.
pub proof fn lemma_images_round_trip(t: Toast, doc: Element)
    requires
        t.wf(),
        is_toast_document(doc, t),
    ensures
        ({
            let nh: int = if t.header is Some {
                1
            } else {
                0
            };
            let binding = doc.children@[nh].children@[0];
            let nt = text_slots(t).len() as int;
            &&& binding.children@.len() == nt + t.images@.len()
            &&& forall|j: int|
                0 <= j < t.images@.len() ==> is_image_el(
                    binding.children@[nt + j],
                    (#[trigger] t.images@[j]).1,
                    t.images@[j].0 as int,
                )
            &&& forall|i: int, j: int|
                0 <= i < j < t.images@.len() ==> (#[trigger] t.images@[i]).0 < (
                #[trigger] t.images@[j]).0
            &&& forall|i: int, j: int|
                0 <= i < j < t.images@.len() ==> spec_u8_decimal((#[trigger] t.images@[i]).0 as int)
                    != spec_u8_decimal((#[trigger] t.images@[j]).0 as int)
        }),
{
    assert forall|i: int, j: int| 0 <= i < j < t.images@.len() implies spec_u8_decimal(
        (#[trigger] t.images@[i]).0 as int,
    ) != spec_u8_decimal((#[trigger] t.images@[j]).0 as int) by {
        if spec_u8_decimal(t.images@[i].0 as int) == spec_u8_decimal(t.images@[j].0 as int) {
            crate::decimal::lemma_u8_decimal_injective(
                t.images@[i].0 as int,
                t.images@[j].0 as int,
            );
        }
    }
}

/// Serialize `toast` into the document tree the platform consumes.
///
/// This is a pure transformation: it neither mutates nor retains the toast.
pub fn toast_document(toast: &Toast) -> (doc: Element)
    ensures
        is_toast_document(doc, *toast),
{
    let mut doc = Element::new("toast");
    if let Some(s) = &toast.scenario {
        doc.set_attribute("scenario", String::from_str(s.as_str()));
    }
    if let Some(l) = &toast.launch {
        doc.set_attribute("launch", l.clone());
    }
    if let Some(d) = &toast.duration {
        doc.set_attribute("duration", String::from_str(d.as_str()));
    }
    if let Some(b) = &toast.use_button_style {
        doc.set_attribute("useButtonStyle", String::from_str(bool_str(*b)));
    }
    proof {
        assert(attrs_of(doc) =~= toast_attr_views(*toast));
    }
    if let Some(h) = &toast.header {
        doc.append_child(header_element(h));
    }
    doc.append_child(visual_element(toast));
    if let Some(a) = &toast.audio {
        doc.append_child(audio_element(a));
    }
    if toast.input.is_some() || toast.actions.len() > 0 {
        doc.append_child(actions_element(toast));
    }
    doc
}

} // verus!
