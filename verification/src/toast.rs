//! The toast document root: the aggregate of all content elements.

use vstd::prelude::*;

use crate::action::Action;
use crate::audio::Audio;
use crate::header::Header;
use crate::image::Image;
use crate::input::Input;
use crate::input::Selection;
use crate::text::Text;

verus! {

/// How long the toast stays on screen.
#[derive(Debug, Clone, Copy, PartialEq, Eq)]
pub enum ToastDuration {
    /// The toast is shown for about seven seconds.
    Short,
    /// The toast is shown for about twenty-five seconds.
    Long,
}

/// The serialized token for a duration.
pub open spec fn spec_duration_str(d: ToastDuration) -> Seq<char> {
    match d {
        ToastDuration::Short => "short"@,
        ToastDuration::Long => "long"@,
    }
}

impl ToastDuration {
    /// The schema token this duration serializes to.
    pub fn as_str(&self) -> (r: &'static str)
        ensures
            r@ == spec_duration_str(*self),
    {
        match self {
            ToastDuration::Short => "short",
            ToastDuration::Long => "long",
        }
    }
}

/// The scenario the toast is used for, which adjusts how the platform
/// presents it.
#[derive(Debug, Clone, Copy, PartialEq, Eq)]
pub enum Scenario {
    /// A reminder notification.
    Reminder,
    /// An alarm notification.
    Alarm,
    /// An incoming-call notification.
    IncomingCall,
    /// An important notification.
    Urgent,
}

/// The serialized token for a scenario.
pub open spec fn spec_scenario_str(s: Scenario) -> Seq<char> {
    match s {
        Scenario::Reminder => "reminder"@,
        Scenario::Alarm => "alarm"@,
        Scenario::IncomingCall => "incomingCall"@,
        Scenario::Urgent => "urgent"@,
    }
}

impl Scenario {
    /// The schema token this scenario serializes to.
    pub fn as_str(&self) -> (r: &'static str)
        ensures
            r@ == spec_scenario_str(*self),
    {
        match self {
            Scenario::Reminder => "reminder",
            Scenario::Alarm => "alarm",
            Scenario::IncomingCall => "incomingCall",
            Scenario::Urgent => "urgent",
        }
    }
}

/// Whether the image slots are strictly increasing by slot id, so that
/// each slot id is unique and iteration is in slot-id order.
pub open spec fn images_sorted(s: Seq<(u8, Image)>) -> bool {
    forall|i: int, j: int|
        0 <= i < j < s.len() ==> (#[trigger] s[i]).0 < (#[trigger] s[j]).0
}

/// Whether some image slot of `s` has slot id `id`.
pub open spec fn has_image_id(s: Seq<(u8, Image)>, id: u8) -> bool {
    exists|k: int| 0 <= k < s.len() && (#[trigger] s[k]).0 == id
}

/// The image slots of `s` with `img` placed at slot `id`: an existing slot
/// with the same id is replaced, otherwise the new slot is inserted at its
/// position in slot-id order.
pub open spec fn spec_insert_image(s: Seq<(u8, Image)>, id: u8, img: Image) -> Seq<(u8, Image)>
    decreases s.len(),
{
    if s.len() == 0 {
        seq![(id, img)]
    } else if s[0].0 < id {
        seq![s[0]] + spec_insert_image(s.drop_first(), id, img)
    } else if s[0].0 == id {
        seq![(id, img)] + s.drop_first()
    } else {
        seq![(id, img)] + s
    }
}

/// A toast notification document, populated by its builder methods and
/// consumed by the serializer.
#[derive(Debug, Clone)]
pub struct Toast {
    /// The first text slot, rendered as the title line.
    pub text1: Option<Text>,
    /// The second text slot, rendered as the body line.
    pub text2: Option<Text>,
    /// The third text slot, rendered as a further body line or, with the
    /// attribution placement, as the attribution line.
    pub text3: Option<Text>,
    /// The image slots, strictly increasing by slot id.
    pub images: Vec<(u8, Image)>,
    /// The audio element, if any.
    pub audio: Option<Audio>,
    /// The header element, if any.
    pub header: Option<Header>,
    /// The input element, if any.
    pub input: Option<Input>,
    /// The selections of the input element, in insertion order.
    pub selections: Vec<Selection>,
    /// The action buttons, in insertion order.
    pub actions: Vec<Action>,
    /// The correlation tag used to address this notification later.
    pub tag: Option<String>,
    /// The group this notification belongs to.
    pub group: Option<String>,
    /// An opaque id that correlates this notification with a remote service.
    pub remote_id: Option<String>,
    /// How long the toast stays on screen.
    pub duration: Option<ToastDuration>,
    /// The scenario the toast is used for.
    pub scenario: Option<Scenario>,
    /// The argument string delivered when the toast body itself is clicked.
    pub launch: Option<String>,
    /// Whether action buttons use their style hints.
    pub use_button_style: Option<bool>,
    /// How many seconds from the moment the toast is shown it expires.
    pub expires_in_seconds: Option<u64>,
}

impl Toast {
    /// The toast's structural invariant: image slots are strictly
    /// increasing by slot id.
    pub open spec fn wf(self) -> bool {
        images_sorted(self.images@)
    }

    /// Create an empty toast.
    pub fn new() -> (r: Toast)
        ensures
            r.text1 is None,
            r.text2 is None,
            r.text3 is None,
            r.images@.len() == 0,
            r.audio is None,
            r.header is None,
            r.input is None,
            r.selections@.len() == 0,
            r.actions@.len() == 0,
            r.tag is None,
            r.group is None,
            r.remote_id is None,
            r.duration is None,
            r.scenario is None,
            r.launch is None,
            r.use_button_style is None,
            r.expires_in_seconds is None,
            r.wf(),
    {
        Toast {
            text1: None,
            text2: None,
            text3: None,
            images: Vec::new(),
            audio: None,
            header: None,
            input: None,
            selections: Vec::new(),
            actions: Vec::new(),
            tag: None,
            group: None,
            remote_id: None,
            duration: None,
            scenario: None,
            launch: None,
            use_button_style: None,
            expires_in_seconds: None,
        }
    }

    /// Set the first text slot.
    pub fn text1(&mut self, text: Text)
        ensures
            *final(self) == (Toast { text1: Some(text), ..*old(self) }),
    {
        self.text1 = Some(text);
    }

    /// Set the second text slot.
    pub fn text2(&mut self, text: Text)
        ensures
            *final(self) == (Toast { text2: Some(text), ..*old(self) }),
    {
        self.text2 = Some(text);
    }

    /// Set the third text slot.
    pub fn text3(&mut self, text: Text)
        ensures
            *final(self) == (Toast { text3: Some(text), ..*old(self) }),
    {
        self.text3 = Some(text);
    }

    /// Place `image` at slot `id`.
    ///
    /// An image already registered at the same slot id is replaced;
    /// otherwise the slot is added at its position in slot-id order.
    pub fn image(&mut self, id: u8, image: Image)
        requires
            old(self).wf(),
        ensures
            final(self).images@ == spec_insert_image(old(self).images@, id, image),
            final(self).wf(),
            final(self).images@.len() == old(self).images@.len() + (if has_image_id(
                old(self).images@,
                id,
            ) {
                0int
            } else {
                1int
            }),
            *final(self) == (Toast { images: final(self).images, ..*old(self) }),
    {
        let ghost s = self.images@;
        let mut i: usize = 0;
        while i < self.images.len() && self.images[i].0 < id
            invariant
                0 <= i <= self.images@.len(),
                self.images@ == s,
                forall|k: int| 0 <= k < i ==> (#[trigger] s[k]).0 < id,
            decreases self.images@.len() - i,
        {
            i = i + 1;
        }
        if i < self.images.len() && self.images[i].0 == id {
            self.images.set(i, (id, image));
            proof {
                lemma_insert_image_at(s, id, image, i as int);
                assert(images_sorted(self.images@)) by {
                    assert forall|p: int, q: int|
                        0 <= p < q < self.images@.len() implies (#[trigger] self.images@[p]).0 < (
                    #[trigger] self.images@[q]).0 by {
                        assert(s[p].0 < s[q].0);
                    }
                }
            }
        } else {
            self.images.insert(i, (id, image));
            proof {
                lemma_insert_image_at(s, id, image, i as int);
                assert(!has_image_id(s, id)) by {
                    assert forall|k: int| 0 <= k < s.len() implies (#[trigger] s[k]).0 != id by {
                        if k < i {
                            assert(s[k].0 < id);
                        } else if i < s.len() {
                            assert(s[i as int].0 > id);
                            if k > i {
                                assert(s[i as int].0 < s[k].0);
                            }
                        }
                    }
                }
                assert(images_sorted(self.images@)) by {
                    assert forall|p: int, q: int|
                        0 <= p < q < self.images@.len() implies (#[trigger] self.images@[p]).0 < (
                    #[trigger] self.images@[q]).0 by {
                        let v = self.images@;
                        assert(v == s.insert(i as int, (id, image)));
                        if p < i && q < i {
                            assert(s[p].0 < s[q].0);
                        } else if p < i && q == i {
                            assert(s[p].0 < id);
                        } else if p < i && q > i {
                            assert(s[p].0 < s[q - 1].0);
                        } else if p == i {
                            assert(id < s[q - 1].0);
                        } else {
                            assert(s[p - 1].0 < s[q - 1].0);
                        }
                    }
                }
            }
        }
    }

    /// Set the audio element.
    pub fn audio(&mut self, audio: Audio)
        ensures
            *final(self) == (Toast { audio: Some(audio), ..*old(self) }),
    {
        self.audio = Some(audio);
    }

    /// Set the header element.
    pub fn header(&mut self, header: Header)
        ensures
            *final(self) == (Toast { header: Some(header), ..*old(self) }),
    {
        self.header = Some(header);
    }

    /// Set the input element.
    pub fn input(&mut self, input: Input)
        ensures
            *final(self) == (Toast { input: Some(input), ..*old(self) }),
    {
        self.input = Some(input);
    }

    /// Append a selection for the input element.
    pub fn selection(&mut self, selection: Selection)
        ensures
            final(self).selections@ == old(self).selections@.push(selection),
            *final(self) == (Toast { selections: final(self).selections, ..*old(self) }),
    {
        self.selections.push(selection);
    }

    /// Append an action button.
    pub fn action(&mut self, action: Action)
        ensures
            final(self).actions@ == old(self).actions@.push(action),
            *final(self) == (Toast { actions: final(self).actions, ..*old(self) }),
    {
        self.actions.push(action);
    }

    /// Set the correlation tag.
    pub fn tag(&mut self, tag: &str)
        ensures
            final(self).tag matches Some(t) && t@ == tag@,
            *final(self) == (Toast { tag: final(self).tag, ..*old(self) }),
    {
        self.tag = Some(String::from_str(tag));
    }

    /// Set the group.
    pub fn group(&mut self, group: &str)
        ensures
            final(self).group matches Some(g) && g@ == group@,
            *final(self) == (Toast { group: final(self).group, ..*old(self) }),
    {
        self.group = Some(String::from_str(group));
    }

    /// Set the remote id.
    pub fn remote_id(&mut self, remote_id: &str)
        ensures
            final(self).remote_id matches Some(rid) && rid@ == remote_id@,
            *final(self) == (Toast { remote_id: final(self).remote_id, ..*old(self) }),
    {
        self.remote_id = Some(String::from_str(remote_id));
    }

    /// Set how long the toast stays on screen.
    pub fn duration(&mut self, duration: ToastDuration)
        ensures
            *final(self) == (Toast { duration: Some(duration), ..*old(self) }),
    {
        self.duration = Some(duration);
    }

    /// Set the scenario.
    pub fn scenario(&mut self, scenario: Scenario)
        ensures
            *final(self) == (Toast { scenario: Some(scenario), ..*old(self) }),
    {
        self.scenario = Some(scenario);
    }

    /// Set the argument string delivered when the toast body is clicked.
    pub fn launch(&mut self, launch: &str)
        ensures
            final(self).launch matches Some(l) && l@ == launch@,
            *final(self) == (Toast { launch: final(self).launch, ..*old(self) }),
    {
        self.launch = Some(String::from_str(launch));
    }

    /// Enable or disable the style hints of the action buttons.
    pub fn use_button_style(&mut self, enabled: bool)
        ensures
            *final(self) == (Toast { use_button_style: Some(enabled), ..*old(self) }),
    {
        self.use_button_style = Some(enabled);
    }

    /// Let the notification expire the given number of seconds after it is
    /// shown.
    pub fn expires_in(&mut self, seconds: u64)
        ensures
            *final(self) == (Toast { expires_in_seconds: Some(seconds), ..*old(self) }),
    {
        self.expires_in_seconds = Some(seconds);
    }
}

/// Splitting off the head of a slot sequence splits [`has_image_id`].
proof fn lemma_has_image_id_cons(h: (u8, Image), rest: Seq<(u8, Image)>, x: u8)
    ensures
        has_image_id(seq![h] + rest, x) <==> (h.0 == x || has_image_id(rest, x)),
{
    let s = seq![h] + rest;
    if h.0 == x {
        assert(s[0].0 == x);
    }
    if has_image_id(rest, x) {
        let k = choose|k: int| 0 <= k < rest.len() && (#[trigger] rest[k]).0 == x;
        assert(s[k + 1].0 == x);
    }
    if has_image_id(s, x) {
        let k = choose|k: int| 0 <= k < s.len() && (#[trigger] s[k]).0 == x;
        if k > 0 {
            assert(rest[k - 1].0 == x);
        }
    }
}

/// Placing an image neither drops a registered slot id nor adds any id
/// but the one placed: the slot ids after [`spec_insert_image`] are the
/// slot ids before, together with the id of the placed image.
pub proof fn lemma_insert_image_ids(s: Seq<(u8, Image)>, id: u8, img: Image, x: u8)
    ensures
        has_image_id(spec_insert_image(s, id, img), x) <==> (has_image_id(s, x) || x == id),
    decreases s.len(),
{
    let res = spec_insert_image(s, id, img);
    if s.len() == 0 {
        assert(res == seq![(id, img)]);
        if has_image_id(res, x) {
            let k = choose|k: int| 0 <= k < res.len() && (#[trigger] res[k]).0 == x;
            assert(k == 0);
        }
        if x == id {
            assert(res[0].0 == x);
        }
        assert(!has_image_id(s, x));
    } else if s[0].0 < id {
        lemma_insert_image_ids(s.drop_first(), id, img, x);
        lemma_has_image_id_cons(s[0], spec_insert_image(s.drop_first(), id, img), x);
        lemma_has_image_id_cons(s[0], s.drop_first(), x);
        assert(seq![s[0]] + s.drop_first() =~= s);
    } else if s[0].0 == id {
        lemma_has_image_id_cons((id, img), s.drop_first(), x);
        lemma_has_image_id_cons(s[0], s.drop_first(), x);
        assert(seq![s[0]] + s.drop_first() =~= s);
    } else {
        lemma_has_image_id_cons((id, img), s, x);
    }
}

/// Relates [`spec_insert_image`] to the position `pos` where the scan for
/// the slot id stops: up to `pos` all slot ids are below `id`, and at `pos`,
/// if it exists, the slot id is at least `id`. The insertion then either
/// replaces the slot at `pos` or makes room there.
proof fn lemma_insert_image_at(s: Seq<(u8, Image)>, id: u8, img: Image, pos: int)
    requires
        images_sorted(s),
        0 <= pos <= s.len(),
        forall|k: int| 0 <= k < pos ==> (#[trigger] s[k]).0 < id,
        pos < s.len() ==> s[pos].0 >= id,
    ensures
        spec_insert_image(s, id, img) == if pos < s.len() && s[pos].0 == id {
            s.update(pos, (id, img))
        } else {
            s.insert(pos, (id, img))
        },
    decreases s.len(),
{
    if s.len() == 0 {
        assert(spec_insert_image(s, id, img) =~= s.insert(0, (id, img)));
    } else if s[0].0 < id {
        assert(pos > 0);
        let rest = s.drop_first();
        assert(images_sorted(rest)) by {
            assert forall|p: int, q: int|
                0 <= p < q < rest.len() implies (#[trigger] rest[p]).0 < (#[trigger] rest[q]).0 by {
                assert(s[p + 1].0 < s[q + 1].0);
            }
        }
        assert(forall|k: int| 0 <= k < pos - 1 ==> (#[trigger] rest[k]).0 < id) by {
            assert(forall|k: int| 0 <= k < pos - 1 ==> rest[k] == s[k + 1]);
        }
        lemma_insert_image_at(rest, id, img, pos - 1);
        if pos < s.len() && s[pos].0 == id {
            assert(spec_insert_image(s, id, img) =~= s.update(pos, (id, img)));
        } else {
            assert(spec_insert_image(s, id, img) =~= s.insert(pos, (id, img)));
        }
    } else if s[0].0 == id {
        assert(pos == 0);
        assert(spec_insert_image(s, id, img) =~= s.update(0, (id, img)));
    } else {
        assert(pos == 0);
        assert(spec_insert_image(s, id, img) =~= s.insert(0, (id, img)));
    }
}

} // verus!
