//! Input as the windowing layer reports it, and what becomes of it: what
//! the main loop does about an event, and what the UI toolkit is told.
//!
//! `C` is the type of pointer coordinates and scroll distances, which are
//! carried through untouched.

use vstd::prelude::*;

verus! {

/// The number of the escape key.
pub const KEY_ESCAPE: i32 = 256;

/// A button of a pointing device, as the UI toolkit tells them apart.
#[derive(Clone, Copy, Debug, PartialEq, Eq, Hash, Structural)]
pub enum PointerButton {
    /// The primary button, usually the left one.
    Primary,
    /// The secondary button, usually the right one.
    Secondary,
    /// The middle button, usually the wheel.
    Middle,
    /// The first extra button, usually "back".
    Extra1,
    /// The second extra button, usually "forward".
    Extra2,
}

/// What the windowing layer reports. Keys come by number, buttons by number
/// from 1 on.
#[derive(Clone, Copy, Debug, PartialEq)]
pub enum Event<C> {
    KeyPress(i32),
    KeyRelease(i32),
    WindowResize(u32, u32),
    MouseMove(C, C),
    MousePress(i32),
    MouseRelease(i32),
    MouseScroll(C, C),
}

/// What the main loop does about an event, apart from handing it to the UI.
#[derive(Clone, Copy, Debug, PartialEq, Eq, Structural)]
pub enum LoopCommand {
    /// Nothing.
    Continue,
    /// Leave the loop.
    Quit,
    /// Fit the viewport to the new size of the framebuffer.
    SetViewport,
}

/// What the UI toolkit is told of the pointer.
#[derive(Clone, Copy, Debug, PartialEq)]
pub enum PointerEvent<C> {
    /// The pointer is now at these coordinates.
    Moved(C, C),
    /// The wheel was turned by this many lines, horizontally and vertically.
    Wheel(C, C),
    /// A button went down or came up while the pointer was at `x`, `y`.
    Button { x: C, y: C, button: PointerButton, pressed: bool },
}

/// What the UI does about an event.
#[derive(Clone, Copy, Debug, PartialEq)]
pub enum Reaction<C> {
    /// Nothing.
    Ignore,
    /// Take the new size of the framebuffer as the size of the screen.
    Resize(u32, u32),
    /// Put this into the input queue of the UI toolkit.
    Forward(PointerEvent<C>),
}

/// What the UI remembers of the input: where the pointer was last seen, and
/// how large the framebuffer is.
#[derive(Clone, Copy, Debug, PartialEq)]
pub struct UiInput<C> {
    pub mouse_x: C,
    pub mouse_y: C,
    pub width: u32,
    pub height: u32,
}

/// The button with number `raw`. A number that the windowing layer has no
/// button for stands for the primary button.
pub open spec fn button_of(raw: i32) -> PointerButton {
    if raw == 2 {
        PointerButton::Secondary
    } else if raw == 3 {
        PointerButton::Middle
    } else if raw == 4 {
        PointerButton::Extra1
    } else if raw == 5 {
        PointerButton::Extra2
    } else {
        PointerButton::Primary
    }
}

/// What the main loop does about `event`: the escape key ends it, a new
/// framebuffer size calls for a new viewport.
pub open spec fn command_of<C>(event: Event<C>) -> LoopCommand {
    match event {
        Event::KeyPress(key) => if key == KEY_ESCAPE {
            LoopCommand::Quit
        } else {
            LoopCommand::Continue
        },
        Event::WindowResize(_, _) => LoopCommand::SetViewport,
        _ => LoopCommand::Continue,
    }
}

impl<C> UiInput<C> {
    /// What is remembered after `event`: a move of the pointer changes its
    /// position, a resize the size of the framebuffer.
    pub open spec fn after(self, event: Event<C>) -> UiInput<C> {
        match event {
            Event::WindowResize(w, h) => UiInput { width: w, height: h, ..self },
            Event::MouseMove(x, y) => UiInput { mouse_x: x, mouse_y: y, ..self },
            _ => self,
        }
    }

    /// What the UI does about `event`. Keys are not its business. A button
    /// is reported at the place where the pointer was last seen.
    pub open spec fn reaction(self, event: Event<C>) -> Reaction<C> {
        match event {
            Event::WindowResize(w, h) => Reaction::Resize(w, h),
            Event::MouseMove(x, y) => Reaction::Forward(PointerEvent::Moved(x, y)),
            Event::MouseScroll(x, y) => Reaction::Forward(PointerEvent::Wheel(x, y)),
            Event::MousePress(raw) => Reaction::Forward(
                PointerEvent::Button {
                    x: self.mouse_x,
                    y: self.mouse_y,
                    button: button_of(raw),
                    pressed: true,
                },
            ),
            Event::MouseRelease(raw) => Reaction::Forward(
                PointerEvent::Button {
                    x: self.mouse_x,
                    y: self.mouse_y,
                    button: button_of(raw),
                    pressed: false,
                },
            ),
            _ => Reaction::Ignore,
        }
    }
}

impl<C: Copy> UiInput<C> {
    /// The state before the first event: the pointer at `x`, `y`, the
    /// framebuffer `width` by `height`.
    pub fn new(x: C, y: C, width: u32, height: u32) -> (input: Self)
        ensures
            input == (UiInput { mouse_x: x, mouse_y: y, width, height }),
    {
        Self { mouse_x: x, mouse_y: y, width, height }
    }

    /// Takes note of `event` and says what the UI does about it.
    pub fn handle_event(&mut self, event: &Event<C>) -> (reaction: Reaction<C>)
        ensures
            *final(self) == old(self).after(*event),
            reaction == old(self).reaction(*event),
    {
        match *event {
            Event::WindowResize(w, h) => {
                self.width = w;
                self.height = h;
                Reaction::Resize(w, h)
            },
            Event::MouseMove(x, y) => {
                self.mouse_x = x;
                self.mouse_y = y;
                Reaction::Forward(PointerEvent::Moved(x, y))
            },
            Event::MouseScroll(x, y) => Reaction::Forward(PointerEvent::Wheel(x, y)),
            Event::MousePress(btn) => Reaction::Forward(self.mouse_press_event(btn, true)),
            Event::MouseRelease(btn) => Reaction::Forward(self.mouse_press_event(btn, false)),
            _ => Reaction::Ignore,
        }
    }

    /// The report of button `raw` going down or coming up.
    fn mouse_press_event(&self, raw: i32, pressed: bool) -> (event: PointerEvent<C>)
        ensures
            event == (PointerEvent::Button {
                x: self.mouse_x,
                y: self.mouse_y,
                button: button_of(raw),
                pressed,
            }),
    {
        PointerEvent::Button {
            x: self.mouse_x,
            y: self.mouse_y,
            button: mouse_button(raw),
            pressed,
        }
    }
}

/// Tells which button has number `raw`.
pub fn mouse_button(raw: i32) -> (button: PointerButton)
    ensures
        button == button_of(raw),
{
    match raw {
        2 => PointerButton::Secondary,
        3 => PointerButton::Middle,
        4 => PointerButton::Extra1,
        5 => PointerButton::Extra2,
        _ => PointerButton::Primary,
    }
}

/// Tells what the main loop does about `event`.
pub fn loop_command<C>(event: &Event<C>) -> (command: LoopCommand)
    ensures
        command == command_of(*event),
{
    match event {
        Event::KeyPress(key) => if *key == KEY_ESCAPE {
            LoopCommand::Quit
        } else {
            LoopCommand::Continue
        },
        Event::WindowResize(_, _) => LoopCommand::SetViewport,
        _ => LoopCommand::Continue,
    }
}

} // verus!
