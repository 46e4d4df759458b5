//! The fly camera's input handling: which window and device events move or
//! turn the camera. The movement itself is floating-point vector arithmetic
//! done by the caller; this module decides what to do.

use vstd::prelude::*;

verus! {

/// A mouse button.
#[derive(Clone, Copy, Debug, PartialEq, Eq, Structural)]
pub enum MouseButton {
    Left,
    Right,
    Middle,
    Other,
}

/// Whether a button or key went down or up.
#[derive(Clone, Copy, Debug, PartialEq, Eq, Structural)]
pub enum ElementState {
    Pressed,
    Released,
}

/// The keys the camera listens to; every other key is `Other`.
#[derive(Clone, Copy, Debug, PartialEq, Eq, Structural)]
pub enum Key {
    W,
    S,
    A,
    D,
    Q,
    E,
    Other,
}

/// An input event, as far as the camera cares.
#[derive(Clone, Copy, Debug, PartialEq, Eq, Structural)]
pub enum CameraInput {
    /// A window's mouse button event.
    MouseButton(MouseButton, ElementState),
    /// Raw mouse motion from the device.
    MouseMotion,
    /// A raw key event from the device, with the key if it has a virtual code.
    Key(ElementState, Option<Key>),
    /// Anything else.
    Other,
}

/// A direction the camera moves in.
#[derive(Clone, Copy, Debug, PartialEq, Eq, Structural)]
pub enum Direction {
    Forward,
    Backward,
    Left,
    Right,
    Up,
    Down,
}

/// What the camera does in response to an event.
#[derive(Clone, Copy, Debug, PartialEq, Eq, Structural)]
pub enum CameraAction {
    Nothing,
    /// Turn by the mouse motion (scaled by the caller).
    Rotate,
    /// Move a fixed step in a direction.
    Move(Direction),
}

/// The direction a key moves the camera in: W/S forward and back, A/D left
/// and right, E up and Q down.
pub open spec fn key_direction(k: Key) -> Option<Direction> {
    match k {
        Key::W => Some(Direction::Forward),
        Key::S => Some(Direction::Backward),
        Key::A => Some(Direction::Left),
        Key::D => Some(Direction::Right),
        Key::Q => Some(Direction::Down),
        Key::E => Some(Direction::Up),
        Key::Other => None,
    }
}

/// Whether the right mouse button is held after the event.
pub open spec fn right_button_after(pressed: bool, input: CameraInput) -> bool {
    match input {
        CameraInput::MouseButton(MouseButton::Right, ElementState::Pressed) => true,
        CameraInput::MouseButton(MouseButton::Right, ElementState::Released) => false,
        _ => pressed,
    }
}

/// What the camera does on the event, with the right button held or not
/// before it.
pub open spec fn action_for(pressed: bool, input: CameraInput) -> CameraAction {
    match input {
        CameraInput::MouseMotion => if pressed { CameraAction::Rotate } else { CameraAction::Nothing },
        CameraInput::Key(ElementState::Pressed, Some(k)) => match key_direction(k) {
            Some(d) => CameraAction::Move(d),
            None => CameraAction::Nothing,
        },
        _ => CameraAction::Nothing,
    }
}

/// Handles an input event: tracks the right mouse button (the camera turns
/// with the mouse only while it is held) and maps pressed movement keys to
/// moves.
pub fn handle_input(right_button_pressed: &mut bool, input: CameraInput) -> (r: CameraAction)
    ensures
        *final(right_button_pressed) == right_button_after(*old(right_button_pressed), input),
        r == action_for(*old(right_button_pressed), input),
{
    match input {
        CameraInput::MouseButton(MouseButton::Right, ElementState::Pressed) => {
            *right_button_pressed = true;
            CameraAction::Nothing
        },
        CameraInput::MouseButton(MouseButton::Right, ElementState::Released) => {
            *right_button_pressed = false;
            CameraAction::Nothing
        },
        CameraInput::MouseMotion => {
            if *right_button_pressed {
                CameraAction::Rotate
            } else {
                CameraAction::Nothing
            }
        },
        CameraInput::Key(ElementState::Pressed, Some(k)) => match k {
            Key::W => CameraAction::Move(Direction::Forward),
            Key::S => CameraAction::Move(Direction::Backward),
            Key::A => CameraAction::Move(Direction::Left),
            Key::D => CameraAction::Move(Direction::Right),
            Key::Q => CameraAction::Move(Direction::Down),
            Key::E => CameraAction::Move(Direction::Up),
            Key::Other => CameraAction::Nothing,
        },
        _ => CameraAction::Nothing,
    }
}

/// A camera basis vector.
#[derive(Clone, Copy, Debug, PartialEq, Eq, Structural)]
pub enum Axis {
    /// Where the camera looks.
    Front,
    /// The camera's right.
    Right,
    /// The world's up, independent of where the camera looks.
    WorldUp,
}

/// The vector a move goes along and whether it goes with (+1) or against (-1)
/// it.
pub open spec fn direction_axis_spec(d: Direction) -> (Axis, i8) {
    match d {
        Direction::Forward => (Axis::Front, 1i8),
        Direction::Backward => (Axis::Front, -1i8),
        Direction::Left => (Axis::Right, -1i8),
        Direction::Right => (Axis::Right, 1i8),
        Direction::Up => (Axis::WorldUp, 1i8),
        Direction::Down => (Axis::WorldUp, -1i8),
    }
}

/// The vector a move goes along and its sense.
pub fn direction_axis(d: Direction) -> (r: (Axis, i8))
    ensures
        r == direction_axis_spec(d),
{
    match d {
        Direction::Forward => (Axis::Front, 1),
        Direction::Backward => (Axis::Front, -1),
        Direction::Left => (Axis::Right, -1),
        Direction::Right => (Axis::Right, 1),
        Direction::Up => (Axis::WorldUp, 1),
        Direction::Down => (Axis::WorldUp, -1),
    }
}

/// Whether two keys are an opposite pair: W and S, A and D, E and Q.
pub open spec fn opposite_keys(a: Key, b: Key) -> bool {
    ||| (a == Key::W && b == Key::S)
    ||| (a == Key::A && b == Key::D)
    ||| (a == Key::E && b == Key::Q)
}

/// Opposite keys undo each other: pressing one and then the other moves the
/// camera along the same vector in opposite senses.
pub proof fn lemma_opposite_keys_cancel(a: Key, b: Key)
    requires
        opposite_keys(a, b),
    ensures
        action_for(false, CameraInput::Key(ElementState::Pressed, Some(a))) matches CameraAction::Move(
            da,
        ) && action_for(false, CameraInput::Key(ElementState::Pressed, Some(b))) matches CameraAction::Move(db)
            && direction_axis_spec(da).0 == direction_axis_spec(db).0 && direction_axis_spec(da).1
            + direction_axis_spec(db).1 == 0,
{
}

/// The camera turns with the mouse only while the right button is held: after
/// a right-button release no motion turns it until the next right-button
/// press.
pub proof fn lemma_turn_only_while_held(pressed: bool)
    ensures
        !right_button_after(
            pressed,
            CameraInput::MouseButton(MouseButton::Right, ElementState::Released),
        ),
        action_for(false, CameraInput::MouseMotion) == CameraAction::Nothing,
        right_button_after(
            pressed,
            CameraInput::MouseButton(MouseButton::Right, ElementState::Pressed),
        ),
        action_for(true, CameraInput::MouseMotion) == CameraAction::Rotate,
{
}

} // verus!
