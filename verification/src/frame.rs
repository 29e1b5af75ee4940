//! What one rich-presence update shows, as plain values.
//!
//! The program hands these to Discord; which client library sends them is
//! no concern of the frames themselves.
use vstd::prelude::*;

verus! {

/// The large picture of an activity: an asset key and its hover text.
pub struct LargeImage {
    pub key: String,
    pub text: String,
}

/// A button under the activity: its label and the address it opens.
pub struct ActivityButton {
    pub label: String,
    pub url: String,
}

/// One rich-presence update.
pub struct ActivityFrame {
    /// The first line under the application name.
    pub details: String,
    /// The second line.
    pub state: String,
    pub large_image: Option<LargeImage>,
    pub button: Option<ActivityButton>,
    /// Seconds since the Unix epoch from which Discord counts the elapsed time.
    pub start_timestamp: Option<i64>,
}

/// The state line of the animations that run until they are stopped.
pub open spec fn endless_loop_text() -> Seq<char> {
    "In an endless loop"@
}

/// `frame` shows exactly `details` and `state`, with no picture, button or clock.
pub open spec fn plain_frame(frame: ActivityFrame, details: Seq<char>, state: Seq<char>) -> bool {
    &&& frame.details@ == details
    &&& frame.state@ == state
    &&& frame.large_image is None
    &&& frame.button is None
    &&& frame.start_timestamp is None
}

/// `frame` shows the program's picture (asset `dota` with an empty hover
/// text) and its button to the project page, and counts from `started_time`.
pub open spec fn branded_frame(
    frame: ActivityFrame,
    details: Seq<char>,
    state: Seq<char>,
    started_time: i64,
) -> bool {
    &&& frame.details@ == details
    &&& frame.state@ == state
    &&& frame.large_image matches Some(image) && image.key@ == "dota"@ && image.text@ == ""@
    &&& frame.button matches Some(button) && button.label@ == "Create You Animation by koliy82"@
        && button.url@ == "https://github.com/koliy82/rust_rpc"@
    &&& frame.start_timestamp == Some(started_time)
}

/// A frame with only the two text lines.
pub fn plain(details: String, state: String) -> (frame: ActivityFrame)
    ensures
        plain_frame(frame, details@, state@),
{
    ActivityFrame { details, state, large_image: None, button: None, start_timestamp: None }
}

/// A frame with the program's picture, button and clock.
pub fn branded(details: String, state: String, started_time: i64) -> (frame: ActivityFrame)
    ensures
        branded_frame(frame, details@, state@, started_time),
{
    ActivityFrame {
        details,
        state,
        large_image: Some(
            LargeImage { key: String::from_str("dota"), text: String::from_str("") },
        ),
        button: Some(
            ActivityButton {
                label: String::from_str("Create You Animation by koliy82"),
                url: String::from_str("https://github.com/koliy82/rust_rpc"),
            },
        ),
        start_timestamp: Some(started_time),
    }
}

/// What the client shows as soon as it has connected to Discord.
pub fn startup_frame(started_time: i64) -> (frame: ActivityFrame)
    ensures
        branded_frame(
            frame,
            "Program is started"@,
            "Click start to load animation"@,
            started_time,
        ),
{
    branded(
        String::from_str("Program is started"),
        String::from_str("Click start to load animation"),
        started_time,
    )
}

} // verus!
