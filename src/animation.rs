//! The player's sprite animation: which frame of the texture atlas to show,
//! stepped by a repeating timer whose period depends on the state.

use bevy::time::{Timer, TimerMode};
use std::time::Duration;
use vstd::prelude::*;

verus! {

#[verifier::external_type_specification]
#[verifier::external_body]
pub struct ExTimer(Timer);

/// Number of idle frames.
pub const IDLE_FRAMES: usize = 2;

/// Milliseconds each idle frame is shown.
pub const IDLE_INTERVAL_MS: u64 = 500;

/// Number of walking frames.
pub const WALKING_FRAMES: usize = 6;

/// Milliseconds each walking frame is shown.
pub const WALKING_INTERVAL_MS: u64 = 50;

/// Index in the texture atlas of the first walking frame.
pub const WALKING_ATLAS_START: usize = 6;

/// Relies on `Timer::new` with `TimerMode::Repeating`: a timer that
/// finishes each time `millis` milliseconds have accumulated.
#[verifier::external_body]
fn repeating_timer(millis: u64) -> Timer {
    Timer::new(Duration::from_millis(millis), TimerMode::Repeating)
}

/// Relies on `Timer::tick`: advances the timer by `delta`. It does not
/// panic: the elapsed time saturates and the period division is checked.
#[verifier::external_body]
fn tick_timer(timer: &mut Timer, delta: Duration)
    no_unwind
{
    timer.tick(delta);
}

/// Relies on `Timer::is_finished`: whether the last tick reached the period.
#[verifier::external_body]
fn timer_is_finished(timer: &Timer) -> bool {
    timer.is_finished()
}

#[derive(PartialEq, Eq, Structural, Clone, Copy, Debug)]
pub enum PlayerAnimationState {
    Idling,
    Walking,
}

/// The number of frames of a state.
pub open spec fn frame_count(state: PlayerAnimationState) -> nat {
    match state {
        PlayerAnimationState::Idling => IDLE_FRAMES as nat,
        PlayerAnimationState::Walking => WALKING_FRAMES as nat,
    }
}

/// The position in the atlas of `frame` of `state`: idle frames from the
/// start of the atlas, walking ones from `WALKING_ATLAS_START`.
pub open spec fn atlas_index(state: PlayerAnimationState, frame: nat) -> int {
    match state {
        PlayerAnimationState::Idling => frame as int,
        PlayerAnimationState::Walking => WALKING_ATLAS_START + frame,
    }
}

/// The state of the animation and the frame shown.
pub struct AnimationView {
    pub state: PlayerAnimationState,
    pub frame: nat,
}

/// Tracks the player's animation state; tied to the texture atlas in use.
pub struct PlayerAnimation {
    timer: Timer,
    frame: usize,
    state: PlayerAnimationState,
}

impl View for PlayerAnimation {
    type V = AnimationView;

    closed spec fn view(&self) -> AnimationView {
        AnimationView { state: self.state, frame: self.frame as nat }
    }
}

impl PlayerAnimation {
    #[verifier::type_invariant]
    closed spec fn frame_in_range(self) -> bool {
        self.frame < frame_count(self.state)
    }

    fn idling() -> (a: Self)
        ensures
            a@ == (AnimationView { state: PlayerAnimationState::Idling, frame: 0 }),
    {
        PlayerAnimation {
            timer: repeating_timer(IDLE_INTERVAL_MS),
            frame: 0,
            state: PlayerAnimationState::Idling,
        }
    }

    fn walking() -> (a: Self)
        ensures
            a@ == (AnimationView { state: PlayerAnimationState::Walking, frame: 0 }),
    {
        PlayerAnimation {
            timer: repeating_timer(WALKING_INTERVAL_MS),
            frame: 0,
            state: PlayerAnimationState::Walking,
        }
    }

    /// A fresh idle animation at its first frame.
    pub fn new() -> (a: Self)
        ensures
            a@ == (AnimationView { state: PlayerAnimationState::Idling, frame: 0 }),
    {
        Self::idling()
    }

    /// Moves to the state's next frame, wrapping around, when `finished`
    /// (the timer completed a period); otherwise keeps the frame.
    pub fn advance_frame(&mut self, finished: bool)
        ensures
            final(self)@.frame < frame_count(final(self)@.state),
            final(self)@.state == old(self)@.state,
            final(self)@.frame == if finished {
                (old(self)@.frame + 1) % frame_count(old(self)@.state)
            } else {
                old(self)@.frame
            },
    {
        proof {
            use_type_invariant(&*self);
        }
        if finished {
            let count = match self.state {
                PlayerAnimationState::Idling => IDLE_FRAMES,
                PlayerAnimationState::Walking => WALKING_FRAMES,
            };
            self.frame = (self.frame + 1) % count;
        }
    }

    /// Advances the timer by `delta` and, if it completed a period, moves to
    /// the next frame.
    pub fn update_timer(&mut self, delta: Duration)
        ensures
            final(self)@.frame < frame_count(final(self)@.state),
            final(self)@.state == old(self)@.state,
            final(self)@.frame == old(self)@.frame || final(self)@.frame == (old(self)@.frame + 1)
                % frame_count(old(self)@.state),
    {
        proof {
            use_type_invariant(&*self);
        }
        tick_timer(&mut self.timer, delta);
        let finished = timer_is_finished(&self.timer);
        self.advance_frame(finished);
    }

    /// Switches to `state`, from its first frame and a fresh timer, if it
    /// differs from the current one.
    pub fn update_state(&mut self, state: PlayerAnimationState)
        ensures
            old(self)@.state == state ==> final(self)@ == old(self)@,
            old(self)@.state != state ==> final(self)@ == (AnimationView { state, frame: 0 }),
    {
        if self.state != state {
            match state {
                PlayerAnimationState::Idling => *self = Self::idling(),
                PlayerAnimationState::Walking => *self = Self::walking(),
            }
        }
    }

    /// Whether the frame changed at the last timer update.
    pub fn changed(&self) -> bool {
        timer_is_finished(&self.timer)
    }

    /// The index in the texture atlas of the frame shown.
    pub fn get_atlas_index(&self) -> (i: usize)
        ensures
            i == atlas_index(self@.state, self@.frame),
    {
        proof {
            use_type_invariant(self);
        }
        match self.state {
            PlayerAnimationState::Idling => self.frame,
            PlayerAnimationState::Walking => WALKING_ATLAS_START + self.frame,
        }
    }
}

} // verus!
