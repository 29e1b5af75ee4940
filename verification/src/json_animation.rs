//! The user's own animation, read from a JSON file.
use vstd::prelude::*;
use rand::seq::SliceRandom;
use crate::frame::ActivityFrame;

verus! {

/// One frame of a custom animation, each field optional in the file.
#[derive(Clone, Debug)]
pub struct CustomAnimation {
    pub details: Option<String>,
    pub state: Option<String>,
    pub large_image_text: Option<String>,
    pub large_image_key: Option<String>,
    pub small_image_text: Option<String>,
    pub small_image_key: Option<String>,
}

/// The content of a custom animation file.
#[derive(Debug)]
pub struct CustomAnimations {
    /// Whether to play the frames in a random order.
    pub randomize: Option<bool>,
    pub animations: Vec<CustomAnimation>,
}

/// The text of `value`, or `default` when there is none.
pub open spec fn text_or(value: Option<String>, default: Seq<char>) -> Seq<char> {
    match value {
        Some(s) => s@,
        None => default,
    }
}

/// The name of the custom animation file when the environment gives none.
pub open spec fn default_custom_file_name() -> Seq<char> {
    "custom_animation"@
}

/// `frame` is what the custom animation `animation` shows: its details and state
/// (or the words `custom_animation_details` and `custom_animation_state` where the
/// file gives none), counting from `started_time`, with no picture or button.
pub open spec fn custom_frame(frame: ActivityFrame, animation: CustomAnimation, started_time: i64) -> bool {
    &&& frame.details@ == text_or(animation.details, "custom_animation_details"@)
    &&& frame.state@ == text_or(animation.state, "custom_animation_state"@)
    &&& frame.large_image is None
    &&& frame.button is None
    &&& frame.start_timestamp == Some(started_time)
}

/// `SliceRandom::shuffle` with the thread-local generator `rand::rng()`:
/// reorders the items at random. The contract states that the same items
/// remain; which order comes out rests on chance and is not stated.
#[verifier::external_body]
fn shuffle(items: &mut Vec<CustomAnimation>)
    ensures
        final(items)@.to_multiset() == old(items)@.to_multiset(),
{
    items.shuffle(&mut rand::rng());
}

fn text_or_default(value: &Option<String>, default: &str) -> (s: String)
    ensures
        s@ == text_or(*value, default@),
{
    match value {
        Some(v) => v.clone(),
        None => String::from_str(default),
    }
}

impl CustomAnimations {
    /// The frames in the order in which they play: shuffled when the file asks
    /// for it (`randomize` is `true`), else as in the file.
    pub fn playlist(self) -> (list: Vec<CustomAnimation>)
        ensures
            list@.to_multiset() == self.animations@.to_multiset(),
            self.randomize != Some(true) ==> list@ == self.animations@,
    {
        let mut list = self.animations;
        let randomize = match self.randomize {
            Some(b) => b,
            None => false,
        };
        if randomize {
            shuffle(&mut list);
        }
        list
    }
}

impl CustomAnimation {
    /// What this frame shows when it plays in a session started at `started_time`.
    pub fn frame(&self, started_time: i64) -> (frame: ActivityFrame)
        ensures
            custom_frame(frame, *self, started_time),
            self.details matches Some(d) ==> frame.details@ == d@,
            self.details is None ==> frame.details@ == "custom_animation_details"@,
            self.state matches Some(s) ==> frame.state@ == s@,
            self.state is None ==> frame.state@ == "custom_animation_state"@,
    {
        let state = text_or_default(&self.state, "custom_animation_state");
        let details = text_or_default(&self.details, "custom_animation_details");
        ActivityFrame {
            details,
            state,
            large_image: None,
            button: None,
            start_timestamp: Some(started_time),
        }
    }
}

/// The path of the custom animation file: the name that the environment gives
/// (`custom_animation` when it gives none) followed by `.json`.
pub fn custom_animation_path(name: Option<&str>) -> (path: String)
    ensures
        path@ == (match name {
            Some(n) => n@,
            None => default_custom_file_name(),
        }) + ".json"@,
{
    let mut path = match name {
        Some(n) => String::from_str(n),
        None => String::from_str("custom_animation"),
    };
    path.append(".json");
    path
}

/// The details line of a custom frame comes from the frame's details field
/// alone (the words `custom_animation_details` when it has none), and its state
/// line from the state field alone (`custom_animation_state` when it has none).
pub proof fn lemma_custom_frame_fields(frame: ActivityFrame, animation: CustomAnimation, started_time: i64)
    requires
        custom_frame(frame, animation, started_time),
    ensures
        animation.details matches Some(d) ==> frame.details@ == d@,
        animation.details is None ==> frame.details@ == "custom_animation_details"@,
        animation.state matches Some(s) ==> frame.state@ == s@,
        animation.state is None ==> frame.state@ == "custom_animation_state"@,
        frame.start_timestamp == Some(started_time),
{
}

} // verus!
