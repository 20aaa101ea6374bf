//! Input handling: which keys move the camera, the movement intents that
//! they hold, and what each window event asks the application to do.

use vstd::prelude::*;

verus! {

/// The keys that the scene reacts to; every other key is `Other`.
#[derive(Clone, Copy, Debug, PartialEq, Eq, Structural)]
pub enum Key {
    W,
    A,
    S,
    D,
    Space,
    ShiftLeft,
    Escape,
    Other,
}

/// A direction that the camera can be asked to move in.
#[derive(Clone, Copy, Debug, PartialEq, Eq, Structural)]
pub enum Movement {
    Forward,
    Backward,
    Left,
    Right,
    Up,
    Down,
}

/// The movement that a key asks for, if any.
pub open spec fn movement_of(key: Key) -> Option<Movement> {
    match key {
        Key::W => Some(Movement::Forward),
        Key::S => Some(Movement::Backward),
        Key::A => Some(Movement::Left),
        Key::D => Some(Movement::Right),
        Key::Space => Some(Movement::Up),
        Key::ShiftLeft => Some(Movement::Down),
        _ => None,
    }
}

/// The movement that a key asks for: W, S, A and D move forward, back, left
/// and right; space moves up and left shift moves down.
pub fn movement_for_key(key: Key) -> (r: Option<Movement>)
    ensures
        r == movement_of(key),
{
    match key {
        Key::W => Some(Movement::Forward),
        Key::S => Some(Movement::Backward),
        Key::A => Some(Movement::Left),
        Key::D => Some(Movement::Right),
        Key::Space => Some(Movement::Up),
        Key::ShiftLeft => Some(Movement::Down),
        _ => None,
    }
}

/// Which movement keys are held down. Each flag stays set from the press of
/// its key until the release.
#[derive(Clone, Copy, Debug, PartialEq, Eq, Structural)]
pub struct MovementIntents {
    pub forward: bool,
    pub backward: bool,
    pub left: bool,
    pub right: bool,
    pub up: bool,
    pub down: bool,
}

/// `1` when only the positive direction is held, `-1` when only the
/// negative one is, `0` otherwise.
pub open spec fn axis_of(positive: bool, negative: bool) -> int {
    (if positive { 1int } else { 0int }) - (if negative { 1int } else { 0int })
}

fn axis(positive: bool, negative: bool) -> (r: i8)
    ensures
        r == axis_of(positive, negative),
{
    let p: i8 = if positive { 1 } else { 0 };
    let n: i8 = if negative { 1 } else { 0 };
    p - n
}

impl MovementIntents {
    /// The flag that holds `m`.
    pub open spec fn holds(self, m: Movement) -> bool {
        match m {
            Movement::Forward => self.forward,
            Movement::Backward => self.backward,
            Movement::Left => self.left,
            Movement::Right => self.right,
            Movement::Up => self.up,
            Movement::Down => self.down,
        }
    }

    /// These intents with the flag of `m` set to `held` and the others kept.
    pub open spec fn with(self, m: Movement, held: bool) -> MovementIntents {
        match m {
            Movement::Forward => MovementIntents { forward: held, ..self },
            Movement::Backward => MovementIntents { backward: held, ..self },
            Movement::Left => MovementIntents { left: held, ..self },
            Movement::Right => MovementIntents { right: held, ..self },
            Movement::Up => MovementIntents { up: held, ..self },
            Movement::Down => MovementIntents { down: held, ..self },
        }
    }

    /// No key held.
    pub fn new() -> (r: MovementIntents)
        ensures
            forall|m: Movement| !r.holds(m),
    {
        MovementIntents {
            forward: false,
            backward: false,
            left: false,
            right: false,
            up: false,
            down: false,
        }
    }

    /// Records a press (`pressed`) or release of `key`. Returns whether the
    /// key is a movement key; any other key leaves the intents unchanged.
    pub fn handle_key(&mut self, key: Key, pressed: bool) -> (r: bool)
        ensures
            r == movement_of(key).is_some(),
            *final(self) == (match movement_of(key) {
                Some(m) => old(self).with(m, pressed),
                None => *old(self),
            }),
    {
        match movement_for_key(key) {
            Some(Movement::Forward) => self.forward = pressed,
            Some(Movement::Backward) => self.backward = pressed,
            Some(Movement::Left) => self.left = pressed,
            Some(Movement::Right) => self.right = pressed,
            Some(Movement::Up) => self.up = pressed,
            Some(Movement::Down) => self.down = pressed,
            None => return false,
        }
        true
    }

    /// Forward minus backward.
    pub fn forward_axis(&self) -> (r: i8)
        ensures
            r == axis_of(self.forward, self.backward),
    {
        axis(self.forward, self.backward)
    }

    /// Right minus left.
    pub fn right_axis(&self) -> (r: i8)
        ensures
            r == axis_of(self.right, self.left),
    {
        axis(self.right, self.left)
    }

    /// Up minus down.
    pub fn up_axis(&self) -> (r: i8)
        ensures
            r == axis_of(self.up, self.down),
    {
        axis(self.up, self.down)
    }
}

/// A window event, reduced to what the scene reacts to.
#[derive(Clone, Copy, Debug, PartialEq, Eq, Structural)]
pub enum WindowInput {
    /// A key was pressed (`pressed`) or released.
    Key { key: Key, pressed: bool },
    /// The mouse wheel turned.
    Scroll,
    /// A mouse button was pressed or released; `left` for the left button.
    MouseButton { left: bool, pressed: bool },
    /// The window is asked to close.
    CloseRequested,
    /// The window took a new size.
    Resized { width: u32, height: u32 },
    /// The window is ready for a new frame.
    RedrawRequested,
    /// Anything else.
    Other,
}

/// What the application does after an event.
#[derive(Clone, Copy, Debug, PartialEq, Eq, Structural)]
pub enum EventAction {
    /// The input state took the event; nothing else to do.
    Handled,
    /// Feed the wheel movement to the camera controller.
    ApplyScroll,
    /// Leave the event loop.
    Exit,
    /// Resize the surface and what depends on its size.
    Resize { width: u32, height: u32 },
    /// Advance the scene by the elapsed time and draw a frame.
    Redraw,
    /// Nothing to do.
    Ignore,
}

/// The input state that lives across events: the movement keys held and
/// whether the left mouse button is down (pointer motion turns the camera
/// only then).
#[derive(Clone, Copy, Debug, PartialEq, Eq, Structural)]
pub struct InputState {
    pub intents: MovementIntents,
    pub mouse_pressed: bool,
}

impl InputState {
    /// The state after `e`.
    pub open spec fn after(self, e: WindowInput) -> InputState {
        match e {
            WindowInput::Key { key, pressed } => match movement_of(key) {
                Some(m) => InputState { intents: self.intents.with(m, pressed), ..self },
                None => self,
            },
            WindowInput::MouseButton { left: true, pressed } => InputState {
                mouse_pressed: pressed,
                ..self
            },
            _ => self,
        }
    }

    /// What the application is asked to do after `e`. Movement keys and the
    /// left mouse button are taken by the input state; of the events it does
    /// not take, a close request and a press of Escape end the program.
    pub open spec fn action_for(e: WindowInput) -> EventAction {
        match e {
            WindowInput::Key { key, pressed } => if movement_of(key).is_some() {
                EventAction::Handled
            } else if key == Key::Escape && pressed {
                EventAction::Exit
            } else {
                EventAction::Ignore
            },
            WindowInput::Scroll => EventAction::ApplyScroll,
            WindowInput::MouseButton { left, pressed } => if left {
                EventAction::Handled
            } else {
                EventAction::Ignore
            },
            WindowInput::CloseRequested => EventAction::Exit,
            WindowInput::Resized { width, height } => EventAction::Resize { width, height },
            WindowInput::RedrawRequested => EventAction::Redraw,
            WindowInput::Other => EventAction::Ignore,
        }
    }

    /// No key held, mouse button up.
    pub fn new() -> (r: InputState)
        ensures
            forall|m: Movement| !r.intents.holds(m),
            !r.mouse_pressed,
    {
        InputState { intents: MovementIntents::new(), mouse_pressed: false }
    }

    /// Takes one window event and says what the application should do.
    pub fn on_window_event(&mut self, e: WindowInput) -> (r: EventAction)
        ensures
            *final(self) == old(self).after(e),
            r == Self::action_for(e),
    {
        match e {
            WindowInput::Key { key, pressed } => {
                if self.intents.handle_key(key, pressed) {
                    EventAction::Handled
                } else if key == Key::Escape && pressed {
                    EventAction::Exit
                } else {
                    EventAction::Ignore
                }
            },
            WindowInput::Scroll => EventAction::ApplyScroll,
            WindowInput::MouseButton { left, pressed } => {
                if left {
                    self.mouse_pressed = pressed;
                    EventAction::Handled
                } else {
                    EventAction::Ignore
                }
            },
            WindowInput::CloseRequested => EventAction::Exit,
            WindowInput::Resized { width, height } => EventAction::Resize { width, height },
            WindowInput::RedrawRequested => EventAction::Redraw,
            WindowInput::Other => EventAction::Ignore,
        }
    }

    /// Whether pointer motion should turn the camera now.
    pub fn accepts_mouse_motion(&self) -> (r: bool)
        ensures
            r == self.mouse_pressed,
    {
        self.mouse_pressed
    }
}

} // verus!
