//! The per-frame state machine around the camera.
//!
//! The event loop itself polls the window and talks to the GPU; everything
//! it decides is here. `App` owns the camera, the projection and the
//! running flag; `handle_event` folds one input event into that state, and
//! `frame_step` advances the camera by one frame's worth of motion. The
//! shell around it converts raw window events into `Event` values, and the
//! exact position, facing and projection back into its own number format.

use vstd::prelude::*;
use crate::camera::{Camera, Direction};
use crate::projection::ProjectionManager;
use crate::scalar::Vec3;

verus! {

/// Initial window width in pixels.
pub const WINDOW_WIDTH: u32 = 1024;

/// Initial window height in pixels.
pub const WINDOW_HEIGHT: u32 = 768;

/// Movement speed: three world units per second, in fixed-point steps.
pub const MOVE_SPEED: i64 = 3145728;

/// One input or window event, as the core sees it: a key edge for one
/// logical direction, a window resize, or the quit signal (escape key or
/// window close).
#[derive(Clone, Copy, Debug, PartialEq, Eq, Structural)]
pub enum Event {
    Key(Direction, bool),
    Resize(u32, u32),
    Quit,
}

/// The logical direction of a movement key, by its lowercase character:
/// `w` forward, `s` backward, `a` strafe left, `d` strafe right.
pub open spec fn key_direction(key: char) -> Option<Direction> {
    if key == 'w' {
        Some(Direction::Up)
    } else if key == 's' {
        Some(Direction::Down)
    } else if key == 'a' {
        Some(Direction::Left)
    } else if key == 'd' {
        Some(Direction::Right)
    } else {
        None
    }
}

/// The fixed key mapping: `w`/`s` move forward/backward, `a`/`d` strafe;
/// every other key moves nothing.
pub fn direction_for_key(key: char) -> (dir: Option<Direction>)
    ensures
        dir == key_direction(key),
{
    if key == 'w' {
        Some(Direction::Up)
    } else if key == 's' {
        Some(Direction::Down)
    } else if key == 'a' {
        Some(Direction::Left)
    } else if key == 'd' {
        Some(Direction::Right)
    } else {
        None
    }
}

/// The whole state the frame loop owns: camera, projection, and whether
/// the loop is still running.
#[derive(Clone, Copy, Debug, PartialEq, Eq, Structural)]
pub struct App {
    pub camera: Camera,
    pub projection: ProjectionManager,
    pub running: bool,
}

impl App {
    /// The state `new` returns: a fresh camera, the projection for the
    /// initial window size, and the loop running.
    pub open spec fn new_spec(width: u32, height: u32, eye: Vec3, target: Vec3) -> App {
        App {
            camera: Camera::new_spec(eye, target),
            projection: ProjectionManager::for_aspect(width, height),
            running: true,
        }
    }

    /// Start the application state for a window of the given size, with
    /// the camera at `eye` looking at `target`.
    pub fn new(width: u32, height: u32, eye: Vec3, target: Vec3) -> (a: App)
        requires
            width >= 1,
            height >= 1,
            Vec3::sub_fits(target, eye),
        ensures
            a == App::new_spec(width, height, eye, target),
    {
        App {
            camera: Camera::new(eye, target),
            projection: ProjectionManager::new(width, height),
            running: true,
        }
    }

    /// `self` after one event. A key edge only touches the input flags; a
    /// resize only recomputes the projection (a degenerate size with a
    /// zero side is ignored); quit only clears the running flag.
    pub open spec fn handled(self, event: Event) -> App {
        match event {
            Event::Key(dir, held) => App { camera: self.camera.prep_spec(dir, held), ..self },
            Event::Resize(width, height) => if width >= 1 && height >= 1 {
                App { projection: ProjectionManager::for_aspect(width, height), ..self }
            } else {
                self
            },
            Event::Quit => App { running: false, ..self },
        }
    }

    /// Fold one event into the state. A resize never moves the camera or
    /// changes its input flags, a key edge never changes the projection,
    /// and only quit changes the running flag.
    pub fn handle_event(&mut self, event: Event)
        ensures
            *final(self) == (*old(self)).handled(event),
            final(self).camera.pos == old(self).camera.pos,
            final(self).camera.front == old(self).camera.front,
            event matches Event::Resize(..) ==> final(self).camera == old(self).camera,
            event matches Event::Key(..) ==> final(self).projection == old(self).projection,
    {
        match event {
            Event::Key(dir, held) => self.camera.prep_move(dir, held),
            Event::Resize(width, height) => {
                if width >= 1 && height >= 1 {
                    self.projection.recompute(width, height);
                }
            },
            Event::Quit => self.running = false,
        }
    }

    /// `self` after the whole event queue, folded in order.
    pub open spec fn handled_all(self, events: Seq<Event>) -> App
        decreases events.len(),
    {
        if events.len() == 0 {
            self
        } else {
            self.handled(events[0]).handled_all(events.skip(1))
        }
    }

    /// Drain one frame's pending events into the state, in the order the
    /// window reported them.
    pub fn handle_events(&mut self, events: &Vec<Event>)
        ensures
            *final(self) == (*old(self)).handled_all(events@),
    {
        let ghost start: App = *self;
        let mut i: usize = 0;
        while i < events.len()
            invariant
                i <= events@.len(),
                *self == start.handled_all(events@.take(i as int)),
            decreases events@.len() - i,
        {
            proof {
                assert(events@.take(i as int).push(events@[i as int]) =~= events@.take(
                    i + 1,
                ));
                lemma_handled_all_push(start, events@.take(i as int), events@[i as int]);
            }
            let event = events[i];
            self.handle_event(event);
            i = i + 1;
        }
        proof {
            assert(events@.take(events@.len() as int) =~= events@);
        }
    }

    /// Advance one frame: while running, move the camera by `speed`
    /// fixed-point steps (the per-second speed times the elapsed seconds)
    /// along its current movement direction. The projection and the
    /// running flag are untouched; after quit the whole state is frozen.
    pub fn frame_step(&mut self, speed: i64)
        requires
            old(self).running ==> (*old(self)).camera.move_fits(speed as int),
        ensures
            old(self).running ==> *final(self) == (App {
                camera: (*old(self)).camera.moved_spec(speed as int),
                ..(*old(self))
            }),
            !old(self).running ==> (*final(self) == *old(self)),
    {
        if self.running {
            self.camera.move_at(speed);
        }
    }
}

/// Law: no event ever moves the camera or turns it — a whole event queue
/// (key edges, resizes, quit) leaves position and facing offset exactly
/// where they were; only `frame_step` translates the camera.
pub proof fn lemma_events_never_move_the_camera(a: App, events: Seq<Event>)
    ensures
        a.handled_all(events).camera.pos == a.camera.pos,
        a.handled_all(events).camera.front == a.camera.front,
    decreases events.len(),
{
    if events.len() > 0 {
        lemma_events_never_move_the_camera(a.handled(events[0]), events.skip(1));
    }
}

/// Folding one more event onto a handled queue equals handling the queue
/// and then that event.
proof fn lemma_handled_all_push(a: App, events: Seq<Event>, event: Event)
    ensures
        a.handled_all(events.push(event)) == a.handled_all(events).handled(event),
    decreases events.len(),
{
    let snoc = events.push(event);
    assert(snoc.len() == events.len() + 1);
    assert(a.handled_all(snoc) == a.handled(snoc[0]).handled_all(snoc.skip(1)));
    if events.len() == 0 {
        assert(snoc[0] == event);
        assert(snoc.skip(1) =~= Seq::<Event>::empty());
        assert(a.handled(event).handled_all(Seq::<Event>::empty()) == a.handled(event));
        assert(a.handled_all(events) == a);
    } else {
        assert(snoc[0] == events[0]);
        assert(snoc.skip(1) =~= events.skip(1).push(event));
        lemma_handled_all_push(a.handled(events[0]), events.skip(1), event);
        assert(a.handled_all(events) == a.handled(events[0]).handled_all(events.skip(1)));
    }
}

} // verus!
