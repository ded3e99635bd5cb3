use vstd::prelude::*;

use crate::collection::Manipulation;

verus! {

/// What a button reports.
#[derive(PartialEq, Eq, Structural, Copy, Clone, Debug)]
pub enum ButtonEvent {
    Pressed(ButtonId),
}

/// Which move a button stands for, with its ring, row or column.
#[derive(PartialEq, Eq, Structural, Copy, Clone, Debug)]
pub enum ButtonId {
    HorizontalLeft(u8),
    HorizontalRight(u8),
    VerticalUp(u8),
    VerticalDown(u8),
    RotateClockwise(u8),
    RotateAnticlockwise(u8),
}

/// A pointer event as a button sees it: a move tells whether the pointer is
/// now over the button.
#[derive(PartialEq, Eq, Structural, Copy, Clone, Debug)]
pub enum PointerEvent {
    Moved { inside: bool },
    Pressed,
    Released,
}

/// Which picture a button shows.
#[derive(PartialEq, Eq, Structural, Copy, Clone, Debug)]
pub enum ButtonLook {
    Idle,
    Hover,
    Pressed,
}

/// The hover and press state of a button.
#[derive(PartialEq, Eq, Structural, Copy, Clone, Debug)]
pub struct ButtonState {
    pub id: ButtonId,
    pub hovered: bool,
    pub pressed: bool,
}

impl ButtonId {
    /// The move the button stands for.
    pub open spec fn manipulation_spec(self) -> Manipulation {
        match self {
            ButtonId::HorizontalLeft(i) => Manipulation::SlideLeft(i),
            ButtonId::HorizontalRight(i) => Manipulation::SlideRight(i),
            ButtonId::VerticalUp(i) => Manipulation::SlideUp(i),
            ButtonId::VerticalDown(i) => Manipulation::SlideDown(i),
            ButtonId::RotateClockwise(i) => Manipulation::RotateClockwise(i),
            ButtonId::RotateAnticlockwise(i) => Manipulation::RotateAnticlockwise(i),
        }
    }

    /// The move the button stands for.
    pub fn manipulation(&self) -> (r: Manipulation)
        ensures
            r == self.manipulation_spec(),
    {
        match *self {
            ButtonId::HorizontalLeft(i) => Manipulation::SlideLeft(i),
            ButtonId::HorizontalRight(i) => Manipulation::SlideRight(i),
            ButtonId::VerticalUp(i) => Manipulation::SlideUp(i),
            ButtonId::VerticalDown(i) => Manipulation::SlideDown(i),
            ButtonId::RotateClockwise(i) => Manipulation::RotateClockwise(i),
            ButtonId::RotateAnticlockwise(i) => Manipulation::RotateAnticlockwise(i),
        }
    }

    /// Whether the button turns a ring.
    pub fn is_rotational(&self) -> (r: bool)
        ensures
            r == (self is RotateClockwise || self is RotateAnticlockwise),
    {
        match *self {
            ButtonId::RotateClockwise(_) | ButtonId::RotateAnticlockwise(_) => true,
            _ => false,
        }
    }
}

impl ButtonState {
    /// The state after `event`.
    pub open spec fn next(self, event: PointerEvent) -> ButtonState {
        match event {
            PointerEvent::Moved { inside } => ButtonState {
                hovered: inside,
                pressed: self.pressed && inside,
                ..self
            },
            PointerEvent::Pressed => if self.hovered {
                ButtonState { pressed: true, ..self }
            } else {
                self
            },
            PointerEvent::Released => ButtonState { pressed: false, ..self },
        }
    }

    /// A press over the button that was not pressed yet reports it.
    pub open spec fn reports(self, event: PointerEvent) -> bool {
        event is Pressed && self.hovered && !self.pressed
    }

    /// A button at rest.
    pub fn new(id: ButtonId) -> (r: Self)
        ensures
            r == (ButtonState { id, hovered: false, pressed: false }),
    {
        ButtonState { id, hovered: false, pressed: false }
    }

    pub fn id(&self) -> (r: ButtonId)
        ensures
            r == self.id,
    {
        self.id
    }

    /// Follows a pointer event; a press over the button that was not yet
    /// pressed adds a `Pressed` event to `new_events`.
    pub fn handle_event(&mut self, event: &PointerEvent, new_events: &mut Vec<ButtonEvent>)
        ensures
            *final(self) == old(self).next(*event),
            final(new_events)@ == if old(self).reports(*event) {
                old(new_events)@.push(ButtonEvent::Pressed(old(self).id))
            } else {
                old(new_events)@
            },
    {
        match *event {
            PointerEvent::Moved { inside } => {
                self.hovered = inside;
                if !self.hovered {
                    self.pressed = false;
                }
            },
            PointerEvent::Pressed => {
                if self.hovered {
                    if !self.pressed {
                        new_events.push(ButtonEvent::Pressed(self.id));
                    }
                    self.pressed = true;
                }
            },
            PointerEvent::Released => {
                self.pressed = false;
            },
        }
    }

    /// The picture to show; `render_hovered` shows every button as hovered.
    pub fn look(&self, render_hovered: bool) -> (r: ButtonLook)
        ensures
            r == if self.hovered || render_hovered {
                ButtonLook::Hover
            } else if self.pressed {
                ButtonLook::Pressed
            } else {
                ButtonLook::Idle
            },
    {
        if self.hovered || render_hovered {
            ButtonLook::Hover
        } else if self.pressed {
            ButtonLook::Pressed
        } else {
            ButtonLook::Idle
        }
    }
}

} // verus!
