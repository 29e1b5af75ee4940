//! The client's bookkeeping of the animation it plays.
//!
//! The connection to Discord itself (handshake, updates, the task that plays
//! an animation) belongs to the program; the client here decides which
//! animation runs and stops the one it replaces.
use vstd::prelude::*;
use crate::animation::{animation_kind, kind_for, Animation, AnimationKind};
use crate::frame::{branded_frame, startup_frame, ActivityFrame};

verus! {

/// The animation that the program is to play next.
pub struct Launch {
    /// The handle that stops it; the client keeps a clone.
    pub animation: Animation,
    pub kind: AnimationKind,
    /// When the client started, for the clock of the frames.
    pub started_time: i64,
}

/// A client of one Discord application.
pub struct Client {
    app_id: i64,
    animation: Option<Animation>,
    /// When the client started, in seconds since the Unix epoch.
    pub started_time: i64,
}

impl Client {
    /// The Discord application the client speaks for.
    pub closed spec fn spec_app_id(&self) -> i64 {
        self.app_id
    }

    /// When the client started.
    pub closed spec fn spec_started_time(&self) -> i64 {
        self.started_time
    }

    /// The handle of the animation that plays, if any.
    pub closed spec fn spec_animation(&self) -> Option<Animation> {
        self.animation
    }

    /// An animation is playing (started and not stopped since).
    pub open spec fn has_animation(&self) -> bool {
        self.spec_animation() is Some
    }

    /// A client of application `app_id` that started at `started_time`, with no animation.
    pub fn new(app_id: i64, started_time: i64) -> (client: Client)
        ensures
            client.spec_app_id() == app_id,
            client.spec_started_time() == started_time,
            client.spec_animation() is None,
    {
        Client { app_id, animation: None, started_time }
    }

    /// The Discord application the client speaks for.
    pub fn app_id(&self) -> (id: i64)
        ensures
            id == self.spec_app_id(),
    {
        self.app_id
    }

    /// Whether an animation is playing.
    pub fn is_animating(&self) -> (r: bool)
        ensures
            r == self.has_animation(),
    {
        self.animation.is_some()
    }

    /// What the client shows once connected.
    pub fn startup_frame(&self) -> (frame: ActivityFrame)
        ensures
            branded_frame(
                frame,
                "Program is started"@,
                "Click start to load animation"@,
                self.spec_started_time(),
            ),
    {
        startup_frame(self.started_time)
    }

    /// Stops the animation that plays, if any, and starts the one that
    /// `animation_id` selects; the program plays what comes back.
    pub fn start_animation(&mut self, animation_id: i32) -> (launch: Launch)
        ensures
            final(self).spec_animation() == Some(launch.animation),
            final(self).spec_app_id() == old(self).spec_app_id(),
            final(self).spec_started_time() == old(self).spec_started_time(),
            launch.kind == kind_for(animation_id),
            launch.started_time == old(self).spec_started_time(),
    {
        if let Some(animation) = &self.animation {
            animation.stop();
        }
        let animation = Animation::new();
        let handle = animation.share();
        self.animation = Some(animation);
        Launch { animation: handle, kind: animation_kind(animation_id), started_time: self.started_time }
    }

    /// Stops the animation that plays, if any.
    pub fn stop_animation(&mut self)
        ensures
            final(self).spec_animation() is None,
            final(self).spec_app_id() == old(self).spec_app_id(),
            final(self).spec_started_time() == old(self).spec_started_time(),
    {
        if let Some(animation) = &self.animation {
            animation.stop();
            self.animation = None;
        }
    }
}

} // verus!
