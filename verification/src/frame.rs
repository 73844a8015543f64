//! The frame driver: what one frame does to the engine, and what it draws.
//!
//! The caller owns the window and the clock. Once per frame it hands over the
//! key events that came in and the time, and gets back what to show.

use vstd::prelude::*;
use crate::input::{Input, KeyEvent};
use crate::ray_caster::{line_coordinates, projected, Line, RayCaster};

verus! {

/// What a frame shows.
pub enum Frame {
    /// The first-person view: one line for each screen column, from the
    /// leftmost to the rightmost.
    FirstPerson(Vec<Line>),
    /// The landscape view, which is drawn elsewhere.
    Landscape,
}

/// The state that lasts from frame to frame: the world, the input, and when
/// the last frame started.
pub struct Engine {
    caster: RayCaster,
    input: Input,
    last_frame: i64,
}

impl Engine {
    /// The world.
    pub closed spec fn spec_caster(&self) -> RayCaster {
        self.caster
    }

    /// The input.
    pub closed spec fn spec_input(&self) -> Input {
        self.input
    }

    /// When the last frame started, in seconds on the caller's clock,
    /// fixed-point.
    pub closed spec fn spec_last_frame(&self) -> i64 {
        self.last_frame
    }

    /// The world is well formed, and the clock has not run backwards past
    /// its start.
    pub open spec fn wf(&self) -> bool {
        self.spec_caster().wf() && self.spec_last_frame() >= 0
    }

    /// The input of the frame that takes in `events`.
    pub open spec fn frame_input(&self, events: Seq<KeyEvent>) -> Input {
        self.spec_input().after_all(events)
    }

    /// Whether the frame that takes in `events` at the time `now` can be run:
    /// the clock has not run backwards, and if the frame turns the player, the
    /// new facing angle can be stored.
    pub open spec fn frame_fits(&self, events: Seq<KeyEvent>, now: int) -> bool {
        &&& self.spec_last_frame() <= now
        &&& self.frame_input(events).view_mode ==> i64::MIN <= self.spec_caster().next_angle(
            self.frame_input(events).keys_spec(),
            now - self.spec_last_frame(),
        ) <= i64::MAX
    }

    /// An engine around a world, with no key held, showing the landscape
    /// view, whose first frame starts at `now`.
    pub fn new(caster: RayCaster, now: i64) -> (engine: Engine)
        requires
            caster.wf(),
            now >= 0,
        ensures
            engine.wf(),
            engine.spec_caster() == caster,
            engine.spec_input() == Input::idle(),
            engine.spec_last_frame() == now,
    {
        Engine { caster, input: Input::new(), last_frame: now }
    }

    /// The world.
    pub fn caster(&self) -> (caster: &RayCaster)
        ensures
            *caster == self.spec_caster(),
    {
        &self.caster
    }

    /// The input.
    pub fn input(&self) -> (input: Input)
        ensures
            input == self.spec_input(),
    {
        self.input
    }

    /// When the last frame started.
    pub fn last_frame(&self) -> (at: i64)
        ensures
            at == self.spec_last_frame(),
    {
        self.last_frame
    }

    /// Whether the frame that takes in `events` at the time `now` can be run.
    pub fn can_run(&self, events: &Vec<KeyEvent>, now: i64) -> (fits: bool)
        requires
            self.wf(),
        ensures
            fits == self.frame_fits(events@, now as int),
    {
        if now < self.last_frame {
            return false;
        }
        let mut input = self.input;
        input.drain(events);
        if !input.view_mode {
            return true;
        }
        let keys = input.keys();
        self.caster.turn_fits(keys.as_slice(), now - self.last_frame)
    }

    /// Runs one frame. Takes in the events, in order. The time step of the
    /// frame is the time since the last frame started, and `now` is then
    /// kept as the start of this one. In the first-person view the player is
    /// moved by the input over that time step, one ray is cast for each
    /// column, and the lines for those rays are returned. In the landscape
    /// view the world is left as it is.
    pub fn frame(&mut self, events: &Vec<KeyEvent>, now: i64) -> (shown: Frame)
        requires
            old(self).wf(),
            old(self).frame_fits(events@, now as int),
        ensures
            final(self).wf(),
            final(self).spec_input() == old(self).frame_input(events@),
            final(self).spec_last_frame() == now,
            final(self).spec_caster().spec_config() == old(self).spec_caster().spec_config(),
            final(self).spec_caster().spec_map() == old(self).spec_caster().spec_map(),
            !final(self).spec_input().view_mode ==> shown is Landscape && final(self).spec_caster()
                == old(self).spec_caster(),
            final(self).spec_input().view_mode ==> {
                let keys = final(self).spec_input().keys_spec();
                let dt = now - old(self).spec_last_frame();
                let before = old(self).spec_caster();
                let after = final(self).spec_caster();
                &&& after.spec_player().angle == before.next_angle(keys, dt)
                &&& (after.spec_player().x as int, after.spec_player().y as int)
                    == before.next_position(keys, dt)
                &&& shown matches Frame::FirstPerson(lines)
                &&& lines@.len() == after.spec_config().columns
                &&& forall|i: int|
                    0 <= i < lines@.len() ==> line_coordinates(#[trigger] lines@[i]) == projected(
                        i,
                        after.column_result(i).0,
                        after.spec_config().columns as int,
                        after.spec_config().depth as int,
                    )
            },
    {
        self.input.drain(events);
        let elapsed_time: i64 = now - self.last_frame;
        self.last_frame = now;
        if self.input.view_mode {
            let keys = self.input.keys();
            self.caster.handle_input(keys.as_slice(), elapsed_time);
            let ray_results = self.caster.ray_cast();
            let lines = self.caster.render(&ray_results);
            Frame::FirstPerson(lines)
        } else {
            Frame::Landscape
        }
    }
}

} // verus!
