//! The two fixed animations that play from start to end without being asked
//! whether they are still wanted, each frame shown for five seconds.
use vstd::prelude::*;
use ringbuffer::AllocRingBuffer;
use ringbuffer::RingBuffer;
use crate::frame::{plain, plain_frame, ActivityFrame};
use crate::text::{int_text, push_int};

verus! {

#[verifier::external_type_specification]
#[verifier::external_body]
#[verifier::reject_recursive_types(T)]
pub struct ExAllocRingBuffer<T>(AllocRingBuffer<T>);

/// The items that a ring buffer of bar heights holds, oldest first.
pub uninterp spec fn ring_items(buffer: AllocRingBuffer<u8>) -> Seq<u8>;

/// `AllocRingBuffer::from(Vec)`: makes a buffer whose capacity is the length
/// of `items` and enqueues them in order, so that it holds exactly `items`,
/// oldest first. It panics on an empty vector (capacity zero).
#[verifier::external_body]
fn ring_from_vec(items: Vec<u8>) -> (buffer: AllocRingBuffer<u8>)
    requires
        items.len() > 0,
    ensures
        ring_items(buffer) == items@,
{
    AllocRingBuffer::from(items)
}

/// `RingBuffer::to_vec`: the items of the buffer, oldest first.
#[verifier::external_body]
fn ring_to_vec(buffer: &AllocRingBuffer<u8>) -> (items: Vec<u8>)
    ensures
        items@ == ring_items(*buffer),
{
    buffer.to_vec()
}

/// How long each frame of these animations stays, in seconds.
pub const FRAME_SECONDS: u64 = 5;

/// The block character of height `level` (1 to 8 eighths).
pub open spec fn bar_glyph(level: int) -> char {
    if level <= 1 {
        '\u{2581}'
    } else if level == 2 {
        '\u{2582}'
    } else if level == 3 {
        '\u{2583}'
    } else if level == 4 {
        '\u{2584}'
    } else if level == 5 {
        '\u{2585}'
    } else if level == 6 {
        '\u{2586}'
    } else if level == 7 {
        '\u{2587}'
    } else {
        '\u{2588}'
    }
}

/// The heights of the loading bar: up from one eighth to full and down again.
pub open spec fn loading_levels() -> Seq<u8> {
    seq![1u8, 2, 3, 4, 5, 6, 7, 8, 7, 6, 5, 4, 3, 1]
}

/// The number of frames of the loading bar.
pub const LOADING_LEN: usize = 14;

/// The state line of the countdown: the whole loading bar, spaced.
pub open spec fn level_bar_text() -> Seq<char> {
    "\u{2581} \u{2582} \u{2583} \u{2584} \u{2585} \u{2586} \u{2587} \u{2588} \u{2587} \u{2586} \u{2585} \u{2584} \u{2583} \u{2581}"@
}

/// The details line of step `i` of the countdown: `"{i} - 7 = {i - 7}"`.
pub open spec fn countdown_text(i: int) -> Seq<char> {
    int_text(i) + " - 7 = "@ + int_text(i - 7)
}

/// The number of frames of the countdown from 1000 by sevens while above zero.
pub const COUNTDOWN_LEN: usize = 143;

/// Which animation an id selects.
#[derive(Clone, Copy, Debug, PartialEq, Eq, Structural)]
pub enum Animations {
    DeadInside,
    Loading,
}

/// The animation that `id` selects: 2 is the loading bar, every other id the countdown.
pub open spec fn animation_for(id: i32) -> Animations {
    if id == 2 {
        Animations::Loading
    } else {
        Animations::DeadInside
    }
}

/// The character of height `level`.
pub fn glyph(level: u8) -> (c: char)
    ensures
        c == bar_glyph(level as int),
{
    if level <= 1 {
        '\u{2581}'
    } else if level == 2 {
        '\u{2582}'
    } else if level == 3 {
        '\u{2583}'
    } else if level == 4 {
        '\u{2584}'
    } else if level == 5 {
        '\u{2585}'
    } else if level == 6 {
        '\u{2586}'
    } else if level == 7 {
        '\u{2587}'
    } else {
        '\u{2588}'
    }
}

/// The heights of the loading bar, in order.
pub fn loading_levels_vec() -> (v: Vec<u8>)
    ensures
        v@ == loading_levels(),
{
    let v: Vec<u8> = vec![1u8, 2, 3, 4, 5, 6, 7, 8, 7, 6, 5, 4, 3, 1];
    assert(v@ =~= loading_levels());
    v
}

impl From<i32> for Animations {
    fn from(id: i32) -> (r: Self) {
        if id == 2 {
            Animations::Loading
        } else {
            Animations::DeadInside
        }
    }
}

impl vstd::std_specs::convert::FromSpecImpl<i32> for Animations {
    open spec fn obeys_from_spec() -> bool {
        true
    }

    open spec fn from_spec(id: i32) -> Self {
        animation_for(id)
    }
}

impl Animations {
    /// The frames that the animation selected by `animation_id` shows, in order.
    pub fn run(animation_id: i32) -> (frames: Vec<ActivityFrame>)
        ensures
            animation_for(animation_id) == Animations::DeadInside ==> is_countdown(frames@),
            animation_for(animation_id) == Animations::Loading ==> is_loading(frames@),
    {
        match Animations::from(animation_id) {
            Animations::DeadInside => dead_inside(),
            Animations::Loading => loading(),
        }
    }
}

/// `frames` is the countdown: from 1000 by sevens while above zero, each
/// frame with its subtraction as details and the loading bar as state.
pub open spec fn is_countdown(frames: Seq<ActivityFrame>) -> bool {
    &&& frames.len() == COUNTDOWN_LEN
    &&& forall|k: int|
        0 <= k < frames.len() ==> plain_frame(
            #[trigger] frames[k],
            countdown_text(1000 - 7 * k),
            level_bar_text(),
        )
}

/// `frames` is the loading bar: one frame per height, each with that block and
/// the word `load` as state and `Loading...` as details.
pub open spec fn is_loading(frames: Seq<ActivityFrame>) -> bool {
    &&& frames.len() == LOADING_LEN
    &&& forall|k: int|
        0 <= k < frames.len() ==> plain_frame(
            #[trigger] frames[k],
            "Loading..."@,
            seq![bar_glyph(loading_levels()[k] as int)] + " load"@,
        )
}

/// The details line of step `i` of the countdown.
pub fn countdown_details(i: i32) -> (s: String)
    ensures
        s@ == countdown_text(i as int),
{
    let mut s = String::new();
    push_int(&mut s, i as i64);
    s.append(" - 7 = ");
    push_int(&mut s, (i as i64) - 7);
    assert(s@ =~= countdown_text(i as int));
    s
}

/// The countdown "1000 - 7", as frames.
fn dead_inside() -> (frames: Vec<ActivityFrame>)
    ensures
        is_countdown(frames@),
{
    let mut frames: Vec<ActivityFrame> = Vec::new();
    let mut i: i32 = 1000;
    while i > 0
        invariant
            i == 1000 - 7 * frames.len(),
            frames.len() <= COUNTDOWN_LEN,
            forall|k: int|
                0 <= k < frames.len() ==> plain_frame(
                    #[trigger] frames@[k],
                    countdown_text(1000 - 7 * k),
                    level_bar_text(),
                ),
        decreases i + 7,
    {
        let details = countdown_details(i);
        let state = String::from_str(
            "\u{2581} \u{2582} \u{2583} \u{2584} \u{2585} \u{2586} \u{2587} \u{2588} \u{2587} \u{2586} \u{2585} \u{2584} \u{2583} \u{2581}",
        );
        frames.push(plain(details, state));
        i -= 7;
    }
    frames
}

/// The loading bar, as frames, read back from a ring buffer of its heights.
fn loading() -> (frames: Vec<ActivityFrame>)
    ensures
        is_loading(frames@),
{
    let buffer = ring_from_vec(loading_levels_vec());
    let levels = ring_to_vec(&buffer);
    let mut frames: Vec<ActivityFrame> = Vec::new();
    let n = levels.len();
    for k in 0..n
        invariant
            n == levels@.len(),
            levels@ == loading_levels(),
            frames.len() == k,
            forall|j: int|
                0 <= j < k ==> plain_frame(
                    #[trigger] frames@[j],
                    "Loading..."@,
                    seq![bar_glyph(loading_levels()[j] as int)] + " load"@,
                ),
    {
        let mut state = String::new();
        state.append(glyph_str(levels[k]));
        state.append(" load");
        frames.push(plain(String::from_str("Loading..."), state));
    }
    frames
}

/// The block character of height `level`, as text.
pub fn glyph_str(level: u8) -> (s: &'static str)
    ensures
        s@ == seq![bar_glyph(level as int)],
{
    proof {
        reveal_strlit("\u{2581}");
        reveal_strlit("\u{2582}");
        reveal_strlit("\u{2583}");
        reveal_strlit("\u{2584}");
        reveal_strlit("\u{2585}");
        reveal_strlit("\u{2586}");
        reveal_strlit("\u{2587}");
        reveal_strlit("\u{2588}");
    }
    if level <= 1 {
        "\u{2581}"
    } else if level == 2 {
        "\u{2582}"
    } else if level == 3 {
        "\u{2583}"
    } else if level == 4 {
        "\u{2584}"
    } else if level == 5 {
        "\u{2585}"
    } else if level == 6 {
        "\u{2586}"
    } else if level == 7 {
        "\u{2587}"
    } else {
        "\u{2588}"
    }
}

} // verus!
