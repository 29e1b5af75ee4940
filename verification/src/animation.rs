//! A running animation: the handle that stops it, and the decisions of its
//! loop, step by step.
//!
//! The loop itself waits (for Discord, for the interval), so the program
//! drives it: it asks [`Player::needs_alive_check`], asks the handle
//! [`Animation::alive_check`] when needed (clearing the activity when the
//! answer is no), hands the answer to [`Player::step`], shows the frame that
//! comes back and sleeps for the interval.
use vstd::prelude::*;
use std::sync::Arc;
use tokio_util::sync::CancellationToken;
use crate::animations::{bar_glyph, glyph_str, loading_levels, loading_levels_vec, LOADING_LEN};
use crate::frame::{branded, branded_frame, endless_loop_text, plain, plain_frame, ActivityFrame};
use crate::json_animation::{custom_frame, CustomAnimation, CustomAnimations};
use crate::text::{int_text, push_int, u64_from_text, parse_u64};

verus! {

#[verifier::external_type_specification]
#[verifier::external_body]
pub struct ExCancellationToken(CancellationToken);

/// `CancellationToken::new`: a token in the non-cancelled state. Its state is
/// shared by its clones and changes under them, so no contract speaks of it.
#[verifier::external_body]
fn token_new() -> CancellationToken {
    CancellationToken::new()
}

/// `CancellationToken::cancel`: cancels the token and every clone of it.
/// Nothing is stated: the state it changes is shared, not a value.
#[verifier::external_body]
fn token_cancel(token: &CancellationToken) {
    token.cancel()
}

/// `CancellationToken::is_cancelled`: whether the token has been cancelled.
/// Its answer depends on what other tasks did; nothing is stated of it.
#[verifier::external_body]
fn token_is_cancelled(token: &CancellationToken) -> bool {
    token.is_cancelled()
}

/// `Arc::clone`: another pointer to the same token, so the clone is the same
/// value as the original.
#[verifier::external_body]
fn token_share(token: &Arc<CancellationToken>) -> (r: Arc<CancellationToken>)
    ensures
        r == *token,
{
    Arc::clone(token)
}

/// Whether an animation is still wanted, given whether its token was cancelled.
pub fn alive_from_cancelled(cancelled: bool) -> (alive: bool)
    ensures
        alive == !cancelled,
{
    !cancelled
}

/// The handle of one animation: cloned into the task that plays it, kept by
/// the client to stop it.
#[derive(Clone)]
pub struct Animation {
    token: Arc<CancellationToken>,
}

impl Animation {
    /// A handle of an animation that is not stopped.
    pub fn new() -> Animation {
        Animation { token: Arc::new(token_new()) }
    }

    /// Another handle of the same animation: stopping either stops both.
    pub fn share(&self) -> (r: Animation)
        ensures
            r == *self,
    {
        Animation { token: token_share(&self.token) }
    }

    /// Asks the animation (and every clone of this handle) to stop.
    pub fn stop(&self) {
        token_cancel(&self.token);
    }

    /// Whether the animation is still wanted: `false` once it was stopped.
    /// The caller clears the Discord activity when the answer is `false`.
    pub fn alive_check(&self) -> bool {
        alive_from_cancelled(token_is_cancelled(&self.token))
    }
}

/// The animation that an id starts.
#[derive(Clone, Copy, Debug, PartialEq, Eq, Structural)]
pub enum AnimationKind {
    /// Id 1: the countdown "1000 - 7".
    DeadInside,
    /// Id 2: the growing loading bar.
    Loading,
    /// Id 3: the frames of the custom animation file.
    JsonCustom,
    /// Any other id: nothing plays, an error is logged.
    Unknown,
}

/// The animation that `id` starts.
pub open spec fn kind_for(id: i32) -> AnimationKind {
    if id == 1 {
        AnimationKind::DeadInside
    } else if id == 2 {
        AnimationKind::Loading
    } else if id == 3 {
        AnimationKind::JsonCustom
    } else {
        AnimationKind::Unknown
    }
}

/// The animation that `animation_id` starts.
pub fn animation_kind(animation_id: i32) -> (kind: AnimationKind)
    ensures
        kind == kind_for(animation_id),
{
    if animation_id == 1 {
        AnimationKind::DeadInside
    } else if animation_id == 2 {
        AnimationKind::Loading
    } else if animation_id == 3 {
        AnimationKind::JsonCustom
    } else {
        AnimationKind::Unknown
    }
}

/// The seconds between two frames when the environment gives no interval.
pub const DEFAULT_INTERVAL_SECONDS: u64 = 5;

/// The seconds between two frames: the value of `INTERVAL_SECONDS` read as a
/// `u64`, or 5 when it is not set. A value that is not a `u64` makes the
/// program panic, so it is left out here.
pub fn interval_seconds(setting: Option<&str>) -> (seconds: u64)
    requires
        setting matches Some(s) ==> u64_from_text(s@) is Some,
    ensures
        seconds == match setting {
            Some(s) => u64_from_text(s@).unwrap(),
            None => DEFAULT_INTERVAL_SECONDS,
        },
{
    match setting {
        Some(s) => match parse_u64(s) {
            Some(v) => v,
            None => DEFAULT_INTERVAL_SECONDS,
        },
        None => DEFAULT_INTERVAL_SECONDS,
    }
}

/// The details line of step `i` of the "Dead Inside" countdown.
pub open spec fn dead_inside_text(i: int) -> Seq<char> {
    "Dead Inside 1000-7: "@ + int_text(i) + " - 7 = "@ + int_text(i - 7)
}

/// The first `n` blocks of the loading bar, as text.
pub open spec fn loading_prefix(n: int) -> Seq<char> {
    Seq::new(n as nat, |k: int| bar_glyph(loading_levels()[k] as int))
}

/// The countdown, stepped with "still wanted" each time, is at `1000 - 7 * k`
/// after `k` frames, and asks again exactly while `k < 143`: it shows 143
/// frames, the last for `6 - 7 = -1`, and then ends.
pub proof fn lemma_countdown_length(k: nat)
    requires
        k <= 143,
    ensures
        (Player::DeadInside { i: (1000 - 7 * k) as i32 }).spec_needs_alive_check() <==> k < 143,
        k == 142 ==> dead_inside_text(1000 - 7 * k) == dead_inside_text(6),
{
}

/// The custom animation asks whether it is still wanted before every frame of
/// its playlist, the last one included, and only there: at position `next`
/// it asks exactly when `next` is a position of the playlist.
pub proof fn lemma_custom_checks_before_every_frame(
    playlist: Vec<CustomAnimation>,
    next: usize,
    started_time: i64,
)
    ensures
        (Player::JsonCustom { playlist, next, started_time }).spec_needs_alive_check() <==> 0
            <= next < playlist@.len(),
{
}

/// The state of an animation's loop between two of its steps.
pub enum Player {
    /// The countdown is at `i`.
    DeadInside { i: i32 },
    /// The loading bar has shown `next` blocks, which `shown` holds.
    Loading { next: usize, shown: String },
    /// The custom animation plays `playlist` and is at position `next` of it.
    JsonCustom { playlist: Vec<CustomAnimation>, next: usize, started_time: i64 },
    /// The connection notice, repeated while the animation is wanted.
    StartedConnection { started_time: i64 },
    /// The loop has ended.
    Finished,
}

/// What one step of the loop does.
pub enum Step {
    /// Show the frame, then sleep for the interval.
    Show(ActivityFrame),
    /// Nothing to show and no sleep; step again.
    Idle,
    /// The loop has ended.
    Finished,
}

impl Player {
    /// The state is one that the loop can reach.
    pub open spec fn wf(self) -> bool {
        match self {
            Player::DeadInside { i } => i <= 1000,
            Player::Loading { next, shown } => next <= LOADING_LEN && shown@ == loading_prefix(
                next as int,
            ),
            Player::JsonCustom { playlist, next, .. } => next <= playlist.len(),
            _ => true,
        }
    }

    /// The next step asks whether the animation is still wanted.
    pub open spec fn spec_needs_alive_check(self) -> bool {
        match self {
            Player::DeadInside { i } => i > 0,
            Player::Loading { next, .. } => next < LOADING_LEN,
            Player::JsonCustom { playlist, next, .. } => next < playlist.len(),
            Player::StartedConnection { .. } => true,
            Player::Finished => false,
        }
    }

    /// The "Dead Inside" countdown from 1000.
    pub fn dead_inside() -> (p: Player)
        ensures
            p == (Player::DeadInside { i: 1000 }),
            p.wf(),
    {
        Player::DeadInside { i: 1000 }
    }

    /// The loading bar, with no block shown yet.
    pub fn loading() -> (p: Player)
        ensures
            p matches Player::Loading { next, .. } && next == 0,
            p.wf(),
    {
        let shown = String::new();
        assert(shown@ =~= loading_prefix(0));
        Player::Loading { next: 0, shown }
    }

    /// The custom animation `animations` (shuffled when it asks for it), from its first frame.
    pub fn json_custom(animations: CustomAnimations, started_time: i64) -> (p: Player)
        ensures
            p matches Player::JsonCustom { playlist, next, started_time: t } && next == 0
                && t == started_time
                && playlist@.to_multiset() == animations.animations@.to_multiset()
                && (animations.randomize != Some(true) ==> playlist@ == animations.animations@),
            p.wf(),
    {
        Player::JsonCustom { playlist: animations.playlist(), next: 0, started_time }
    }

    /// The notice that the client is connected.
    pub fn started_connection(started_time: i64) -> (p: Player)
        ensures
            p == (Player::StartedConnection { started_time }),
    {
        Player::StartedConnection { started_time }
    }

    /// The loop of an animation that plays nothing.
    pub fn finished() -> (p: Player)
        ensures
            p == Player::Finished,
    {
        Player::Finished
    }

    /// Whether the next step needs to know if the animation is still wanted.
    pub fn needs_alive_check(&self) -> (r: bool)
        ensures
            r == self.spec_needs_alive_check(),
            self matches Player::JsonCustom { playlist, next, .. } ==> (r <==> next
                < playlist.len()),
            self matches Player::DeadInside { i } ==> (r <==> i > 0),
            self matches Player::Loading { next, .. } ==> (r <==> next < LOADING_LEN),
            self is StartedConnection ==> r,
            self is Finished ==> !r,
    {
        match self {
            Player::DeadInside { i } => *i > 0,
            Player::Loading { next, .. } => *next < LOADING_LEN,
            Player::JsonCustom { playlist, next, .. } => *next < playlist.len(),
            Player::StartedConnection { .. } => true,
            Player::Finished => false,
        }
    }

    /// One step of the loop. `alive` is the answer of the alive check, given
    /// exactly when [`Player::needs_alive_check`] asks for it.
    ///
    /// - The countdown shows `Dead Inside 1000-7: {i} - 7 = {i - 7}` while `i`
    ///   is above zero and the animation is wanted, then goes down by seven.
    /// - The loading bar ends as soon as the animation is still wanted; while
    ///   it is not, it grows by one block per step and ends after the last one.
    /// - The custom animation, when the animation is still wanted, goes back to
    ///   its first frame without showing anything; when it is not, it shows the
    ///   next frame. After the last frame it starts over.
    /// - The connection notice repeats while the animation is wanted.
    pub fn step(&mut self, alive: Option<bool>) -> (step: Step)
        requires
            old(self).wf(),
            alive is Some <==> old(self).spec_needs_alive_check(),
        ensures
            final(self).wf(),
            match *old(self) {
                Player::DeadInside { i } => if i > 0 && alive == Some(true) {
                    &&& *final(self) == (Player::DeadInside { i: (i - 7) as i32 })
                    &&& step matches Step::Show(f) && plain_frame(
                        f,
                        dead_inside_text(i as int),
                        endless_loop_text(),
                    )
                } else {
                    *final(self) == Player::Finished && step is Finished
                },
                Player::Loading { next, shown } => if next < LOADING_LEN && alive == Some(false) {
                    &&& *final(self) matches Player::Loading { next: n2, shown: s2 } && n2 == next + 1
                        && s2@ == shown@.push(bar_glyph(loading_levels()[next as int] as int))
                    &&& step matches Step::Show(f) && plain_frame(
                        f,
                        loading_prefix(next + 1),
                        endless_loop_text(),
                    )
                } else {
                    *final(self) == Player::Finished && step is Finished
                },
                Player::JsonCustom { playlist, next, started_time } => {
                    &&& *final(self) matches Player::JsonCustom {
                        playlist: p2,
                        next: n2,
                        started_time: t2,
                    } && p2@ == playlist@ && t2 == started_time && (if next < playlist.len()
                        && alive == Some(false) {
                        n2 == next + 1
                    } else {
                        n2 == 0
                    })
                    &&& if next < playlist.len() && alive == Some(false) {
                        step matches Step::Show(f) && custom_frame(
                            f,
                            playlist[next as int],
                            started_time,
                        )
                    } else {
                        step is Idle
                    }
                },
                Player::StartedConnection { started_time } => if alive == Some(true) {
                    &&& *final(self) == *old(self)
                    &&& step matches Step::Show(f) && branded_frame(
                        f,
                        "Click tray to load animation"@,
                        "Click tray to load animation"@,
                        started_time,
                    )
                } else {
                    *final(self) == Player::Finished && step is Finished
                },
                Player::Finished => *final(self) == Player::Finished && step is Finished,
            },
    {
        let mut current = Player::Finished;
        std::mem::swap(&mut current, self);
        match current {
            Player::DeadInside { i } => {
                if i > 0 && alive == Some(true) {
                    let mut details = String::from_str("Dead Inside 1000-7: ");
                    push_int(&mut details, i as i64);
                    details.append(" - 7 = ");
                    push_int(&mut details, (i as i64) - 7);
                    assert(details@ =~= dead_inside_text(i as int));
                    *self = Player::DeadInside { i: i - 7 };
                    Step::Show(plain(details, String::from_str("In an endless loop")))
                } else {
                    Step::Finished
                }
            },
            Player::Loading { next, shown } => {
                if next < LOADING_LEN && alive == Some(false) {
                    let levels = loading_levels_vec();
                    let mut shown = shown;
                    shown.append(glyph_str(levels[next]));
                    assert(shown@ =~= loading_prefix(next + 1));
                    let details = shown.clone();
                    *self = Player::Loading { next: next + 1, shown };
                    Step::Show(plain(details, String::from_str("In an endless loop")))
                } else {
                    Step::Finished
                }
            },
            Player::JsonCustom { playlist, next, started_time } => {
                if next < playlist.len() && alive == Some(false) {
                    let frame = playlist[next].frame(started_time);
                    *self = Player::JsonCustom { playlist, next: next + 1, started_time };
                    Step::Show(frame)
                } else {
                    *self = Player::JsonCustom { playlist, next: 0, started_time };
                    Step::Idle
                }
            },
            Player::StartedConnection { started_time } => {
                if alive == Some(true) {
                    *self = Player::StartedConnection { started_time };
                    Step::Show(
                        branded(
                            String::from_str("Click tray to load animation"),
                            String::from_str("Click tray to load animation"),
                            started_time,
                        ),
                    )
                } else {
                    Step::Finished
                }
            },
            Player::Finished => Step::Finished,
        }
    }
}

} // verus!
