//! The mirroring loop's state and its two decision steps: dispatching one
//! window event (pointer, key, close), and absorbing one fresh capture.
//! The surrounding loop performs the outside work — polling the window,
//! running device commands, resizing and drawing — and feeds the results
//! back in as plain values.

use vstd::prelude::*;
use crate::capture::Capture;
use crate::gesture::{classify_spec, classify_release, DeviceCommand, GestureStart};
use crate::keymap::{key_code, key_code_spec, key_triggers_refresh, Key};
use crate::scale::{window_of_device, Scale};

verus! {

/// Whether a pointer button went down or up.
#[derive(Clone, Copy, Debug, PartialEq, Eq, Structural)]
pub enum ButtonState {
    Pressed,
    Released,
}

/// Which pointer button; only the left one drives gestures.
#[derive(Clone, Copy, Debug, PartialEq, Eq, Structural)]
pub enum ButtonKind {
    Left,
    Other,
}

/// One input event handed in by the window layer.
#[derive(Clone, Copy, Debug, PartialEq, Eq, Structural)]
pub enum Event {
    /// The window was closed; the loop must stop.
    Close,
    /// The pointer moved to a window position.
    PointerMove { x: i64, y: i64 },
    /// A pointer button changed state.
    PointerButton { state: ButtonState, button: ButtonKind },
    /// A key went down.
    KeyPress { key: Key },
}

/// The whole state the mirroring loop owns between iterations.
pub struct Session {
    /// The fixed display scale.
    pub scale: Scale,
    /// True when the mirrored image is stale and must be re-captured.
    pub refresh: bool,
    /// False once the window was closed.
    pub running: bool,
    /// Last seen pointer position, updated on every move; never reset.
    pub pointer_x: i64,
    /// Last seen pointer position, updated on every move; never reset.
    pub pointer_y: i64,
    /// The open gesture, if a press is waiting for its release.
    pub gesture: Option<GestureStart>,
    /// The most recent capture, if any refresh has completed.
    pub frame: Option<Capture>,
}

impl Session {
    /// The session's invariant: a valid scale, and a well-formed capture
    /// whenever one is held.
    pub open spec fn wf(self) -> bool {
        &&& self.scale.wf()
        &&& self.frame matches Some(c) ==> c.wf()
    }

    /// A fresh session: stale (so the first iteration captures), running,
    /// pointer at the origin, no open gesture, no capture yet.
    pub fn new(scale: Scale) -> (s: Session)
        requires
            scale.wf(),
        ensures
            s == (Session {
                scale,
                refresh: true,
                running: true,
                pointer_x: 0i64,
                pointer_y: 0i64,
                gesture: None,
                frame: None,
            }),
            s.wf(),
    {
        Session {
            scale,
            refresh: true,
            running: true,
            pointer_x: 0,
            pointer_y: 0,
            gesture: None,
            frame: None,
        }
    }

    /// True when the next iteration must refresh before drawing.
    pub fn needs_refresh(&self) -> (r: bool)
        ensures
            r == self.refresh,
    {
        self.refresh
    }

    /// False once a close event arrived; the loop then terminates.
    pub fn is_running(&self) -> (r: bool)
        ensures
            r == self.running,
    {
        self.running
    }
}

/// The state after one event. A close stops the loop; a move tracks the
/// pointer; a left press opens a gesture at the pointer; a left release
/// closes the open gesture (if any) and marks the image stale; a key in
/// the table marks it stale too. Everything else changes nothing.
pub open spec fn step_state(s: Session, e: Event, now_ms: u64) -> Session {
    match e {
        Event::Close => Session { running: false, ..s },
        Event::PointerMove { x, y } => Session { pointer_x: x, pointer_y: y, ..s },
        Event::PointerButton { state, button } => if button is Left {
            if state is Pressed {
                Session {
                    gesture: Some(GestureStart { x: s.pointer_x, y: s.pointer_y, at_ms: now_ms }),
                    ..s
                }
            } else if s.gesture is Some {
                Session { gesture: None, refresh: true, ..s }
            } else {
                s
            }
        } else {
            s
        },
        Event::KeyPress { key } => if key_triggers_refresh(key) {
            Session { refresh: true, ..s }
        } else {
            s
        },
    }
}

/// The device command one event issues: a left release with an open gesture
/// issues that gesture's classification; a key in the table issues its key
/// code; nothing else issues anything. A release with no prior press is a
/// no-op.
pub open spec fn step_command(s: Session, e: Event, now_ms: u64) -> Option<DeviceCommand> {
    match e {
        Event::PointerButton { state, button } => if button is Left && state is Released {
            match s.gesture {
                Some(g) => Some(
                    classify_spec(g, s.pointer_x as int, s.pointer_y as int, now_ms as int, s.scale),
                ),
                None => None,
            }
        } else {
            None
        },
        Event::KeyPress { key } => match key_code_spec(key) {
            Some(code) => Some(DeviceCommand::Key { code }),
            None => None,
        },
        _ => None,
    }
}

/// The state after one refresh: the capture is stored and the stale flag
/// cleared; nothing else moves.
pub open spec fn refresh_state(s: Session, cap: Capture) -> Session {
    Session { refresh: false, frame: Some(cap), ..s }
}

impl Session {
    /// Dispatches one window event, returning the device command it issues,
    /// if any. `now_ms` is the loop's monotonic clock reading for this
    /// event, used to time swipes.
    pub fn handle_event(&mut self, e: Event, now_ms: u64) -> (cmd: Option<DeviceCommand>)
        requires
            old(self).wf(),
        ensures
            *final(self) == step_state(*old(self), e, now_ms),
            cmd == step_command(*old(self), e, now_ms),
            final(self).wf(),
    {
        match e {
            Event::Close => {
                self.running = false;
                None
            },
            Event::PointerMove { x, y } => {
                self.pointer_x = x;
                self.pointer_y = y;
                None
            },
            Event::PointerButton { state, button } => match button {
                ButtonKind::Left => match state {
                    ButtonState::Pressed => {
                        self.gesture = Some(
                            GestureStart { x: self.pointer_x, y: self.pointer_y, at_ms: now_ms },
                        );
                        None
                    },
                    ButtonState::Released => match self.gesture {
                        Some(g) => {
                            let cmd = classify_release(
                                &g,
                                self.pointer_x,
                                self.pointer_y,
                                now_ms,
                                &self.scale,
                            );
                            self.gesture = None;
                            self.refresh = true;
                            Some(cmd)
                        },
                        None => None,
                    },
                },
                ButtonKind::Other => None,
            },
            Event::KeyPress { key } => {
                if !matches!(key, Key::Other) {
                    self.refresh = true;
                }
                match key_code(&key) {
                    Some(code) => Some(DeviceCommand::Key { code }),
                    None => None,
                }
            },
        }
    }

    /// The tail of the refresh step, after the outside work is done (the
    /// device was captured and the pulled image decoded): stores the fresh
    /// capture, clears the stale flag, and returns the window dimensions
    /// the capture calls for under the display scale.
    pub fn apply_capture(&mut self, cap: Capture) -> (dims: (u32, u32))
        requires
            old(self).wf(),
            cap.wf(),
        ensures
            *final(self) == refresh_state(*old(self), cap),
            final(self).wf(),
            dims.0 == window_of_device(
                cap.width as int,
                old(self).scale.num as int,
                old(self).scale.den as int,
            ),
            dims.1 == window_of_device(
                cap.height as int,
                old(self).scale.num as int,
                old(self).scale.den as int,
            ),
    {
        let w = self.scale.to_window(cap.width);
        let h = self.scale.to_window(cap.height);
        self.frame = Some(cap);
        self.refresh = false;
        (w, h)
    }
}

/// Refresh idempotence: an unchanged device hands back the same capture, and
/// absorbing that capture twice in a row (no gesture in between) leaves
/// exactly the state one refresh leaves; in particular the stored capture
/// and the scale, and with them the window dimensions the refresh step
/// returns, are identical after the two runs.
pub proof fn lemma_refresh_idempotent(s: Session, cap: Capture)
    ensures
        refresh_state(refresh_state(s, cap), cap) == refresh_state(s, cap),
        refresh_state(s, cap).frame == Some(cap),
        refresh_state(s, cap).scale == s.scale,
{
}

} // verus!
