use vstd::prelude::*;
use crate::input_mapper::{RKey, RMouseButton};

verus! {

/// Milliseconds that the event loop waits in `WaitUntil` mode.
pub const WAIT_TIME_MS: u64 = 1000;

/// Milliseconds that the event loop sleeps between polls.
pub const POLL_SLEEP_TIME_MS: u64 = 5;

/// How the event loop waits for its next turn.
#[derive(Clone, Copy, Debug, PartialEq, Eq, Structural)]
pub enum Mode {
    Wait,
    WaitUntil,
    Poll,
}

/// The events of the window that the program reacts to.
#[derive(Clone, Copy, Debug, PartialEq, Eq, Structural)]
pub enum RWindowEvent {
    CloseRequested,
    KeyboardInput { key: RKey, pressed: bool, repeat: bool },
    CursorMoved,
    MouseInput { button: RMouseButton, pressed: bool },
    MouseWheel { in_lines: bool },
    RedrawRequested,
    Resized { width: u32, height: u32 },
    Other,
}

/// What is to be done with the cursor.
#[derive(Clone, Copy, Debug, PartialEq, Eq, Structural)]
pub enum RCursorGrab {
    /// Confine the cursor to the window and put it in the middle.
    Confine,
    /// Let the cursor go.
    Release,
    /// Put the cursor in the middle.
    Center,
}

/// A size in pixels.
#[derive(Clone, Copy, Debug, PartialEq, Eq, Structural)]
pub struct RSize {
    pub width: u32,
    pub height: u32,
}

/// What the program does about a window event, besides changing its own
/// state.
#[derive(Clone, Copy, Debug, PartialEq, Eq, Structural)]
pub struct RWindowReaction {
    /// The event goes to the input handler.
    pub forward_input: bool,
    /// The cursor is grabbed, let go or centred.
    pub grab: Option<RCursorGrab>,
    /// A frame is rendered.
    pub render: bool,
    /// The canvas takes the window's new size.
    pub resize: Option<RSize>,
}

/// How the event loop is told to go on.
#[derive(Clone, Copy, Debug, PartialEq, Eq, Structural)]
pub enum RControlFlow {
    /// Wait for the next event.
    Wait,
    /// Wait for the next event, for at most this many milliseconds.
    WaitUntil { millis: u64 },
    /// Sleep for this many milliseconds, then go on at once.
    Poll { sleep_millis: u64 },
}

/// What the program does before the event loop waits.
#[derive(Clone, Copy, Debug, PartialEq, Eq, Structural)]
pub struct RWaitPlan {
    /// The scene is updated and the input cache cleaned.
    pub update: bool,
    /// A redraw of the window is asked for.
    pub redraw: bool,
    /// How the loop goes on; nothing where the loop keeps what it was told.
    pub flow: Option<RControlFlow>,
    /// The loop ends.
    pub exit: bool,
}

/// The state of the program's event loop.
#[derive(Clone, Copy, Debug, PartialEq, Eq, Structural)]
pub struct ControlFlowApp {
    pub mode: Mode,
    pub request_redraw: bool,
    pub wait_cancelled: bool,
    pub close_requested: bool,
}

/// A reaction that does nothing.
pub open spec fn no_reaction() -> RWindowReaction {
    RWindowReaction { forward_input: false, grab: None, render: false, resize: None }
}

impl ControlFlowApp {
    /// The state in which the program starts: polling, and redrawing.
    pub open spec fn initial() -> ControlFlowApp {
        ControlFlowApp {
            mode: Mode::Poll,
            request_redraw: true,
            wait_cancelled: false,
            close_requested: false,
        }
    }

    /// The state after a key event. Once the scene exists every key event
    /// asks for a redraw. Pressing F1, F2 or F3 picks the mode, pressing the
    /// space bar turns redrawing on or off, pressing escape asks to close.
    pub open spec fn after_key(self, key: RKey, pressed: bool, ready: bool) -> ControlFlowApp {
        let seen = ControlFlowApp { request_redraw: ready || self.request_redraw, ..self };
        if !pressed {
            seen
        } else {
            match key {
                RKey::F1 => ControlFlowApp { mode: Mode::Wait, ..seen },
                RKey::F2 => ControlFlowApp { mode: Mode::WaitUntil, ..seen },
                RKey::F3 => ControlFlowApp { mode: Mode::Poll, ..seen },
                RKey::Space => ControlFlowApp { request_redraw: !seen.request_redraw, ..seen },
                RKey::Escape => ControlFlowApp { close_requested: true, ..seen },
                _ => seen,
            }
        }
    }

    /// What the left alt key does to the cursor, where there is a window:
    /// its first press confines the cursor, its release lets the cursor go,
    /// and while it is held the cursor is kept in the middle.
    pub open spec fn grab_for(key: RKey, pressed: bool, repeat: bool, window: bool) -> Option<
        RCursorGrab,
    > {
        if key != RKey::AltLeft || !window {
            None
        } else if pressed && !repeat {
            Some(RCursorGrab::Confine)
        } else if !pressed {
            Some(RCursorGrab::Release)
        } else {
            Some(RCursorGrab::Center)
        }
    }

    /// The state after a window event. `ready` says that the scene exists.
    pub open spec fn after_event(self, event: RWindowEvent, ready: bool) -> ControlFlowApp {
        match event {
            RWindowEvent::CloseRequested => ControlFlowApp { close_requested: true, ..self },
            RWindowEvent::KeyboardInput { key, pressed, repeat } => self.after_key(
                key,
                pressed,
                ready,
            ),
            RWindowEvent::CursorMoved | RWindowEvent::MouseInput { .. } | RWindowEvent::MouseWheel { .. } => ControlFlowApp {
                request_redraw: ready || self.request_redraw,
                ..self
            },
            _ => self,
        }
    }

    /// What the program does about a window event. `window` says that
    /// there is a window, `ready` that the scene exists.
    pub open spec fn reaction(event: RWindowEvent, window: bool, ready: bool) -> RWindowReaction {
        match event {
            RWindowEvent::KeyboardInput { key, pressed, repeat } => RWindowReaction {
                forward_input: ready,
                grab: Self::grab_for(key, pressed, repeat, window),
                ..no_reaction()
            },
            RWindowEvent::CursorMoved | RWindowEvent::MouseInput { .. } | RWindowEvent::MouseWheel { .. } => RWindowReaction {
                forward_input: ready,
                ..no_reaction()
            },
            RWindowEvent::RedrawRequested => RWindowReaction { render: ready, ..no_reaction() },
            RWindowEvent::Resized { width, height } => RWindowReaction {
                resize: if ready {
                    Some(RSize { width, height })
                } else {
                    None
                },
                ..no_reaction()
            },
            _ => no_reaction(),
        }
    }

    /// The plan for the time before the loop waits. The scene is updated
    /// and the window redrawn where redrawing is on, the wait was not cut
    /// short and nobody asked to close.
    pub open spec fn wait_plan(self, ready: bool) -> RWaitPlan {
        let redraw = self.request_redraw && !self.wait_cancelled && !self.close_requested;
        RWaitPlan {
            update: redraw && ready,
            redraw,
            flow: match self.mode {
                Mode::Wait => Some(RControlFlow::Wait),
                Mode::WaitUntil => if self.wait_cancelled {
                    None
                } else {
                    Some(RControlFlow::WaitUntil { millis: WAIT_TIME_MS })
                },
                Mode::Poll => Some(RControlFlow::Poll { sleep_millis: POLL_SLEEP_TIME_MS }),
            },
            exit: self.close_requested,
        }
    }

    /// The state after the plan was made: in `Wait` mode one redraw is
    /// enough.
    pub open spec fn after_wait(self) -> ControlFlowApp {
        if self.mode == Mode::Wait {
            ControlFlowApp { request_redraw: false, ..self }
        } else {
            self
        }
    }

    /// Takes note of why the loop woke up: a wait that was cut short
    /// counts only in `WaitUntil` mode.
    pub fn new_events(&mut self, wait_was_cancelled: bool)
        ensures
            *final(self) == (ControlFlowApp {
                wait_cancelled: wait_was_cancelled && old(self).mode == Mode::WaitUntil,
                ..*old(self)
            }),
    {
        self.wait_cancelled = wait_was_cancelled && self.mode == Mode::WaitUntil;
    }

    /// Takes a window event and says what is to be done about it.
    pub fn window_event(&mut self, event: RWindowEvent, window: bool, ready: bool) -> (r:
        RWindowReaction)
        ensures
            *final(self) == old(self).after_event(event, ready),
            r == Self::reaction(event, window, ready),
    {
        let nothing = RWindowReaction { forward_input: false, grab: None, render: false, resize: None };
        match event {
            RWindowEvent::CloseRequested => {
                self.close_requested = true;
                nothing
            },
            RWindowEvent::KeyboardInput { key, pressed, repeat } => {
                if ready {
                    self.request_redraw = true;
                }
                let mut grab: Option<RCursorGrab> = None;
                match key {
                    RKey::F1 => {
                        if pressed {
                            self.mode = Mode::Wait;
                        }
                    },
                    RKey::F2 => {
                        if pressed {
                            self.mode = Mode::WaitUntil;
                        }
                    },
                    RKey::F3 => {
                        if pressed {
                            self.mode = Mode::Poll;
                        }
                    },
                    RKey::Space => {
                        if pressed {
                            self.request_redraw = !self.request_redraw;
                        }
                    },
                    RKey::Escape => {
                        if pressed {
                            self.close_requested = true;
                        }
                    },
                    RKey::AltLeft => {
                        if window {
                            if pressed && !repeat {
                                grab = Some(RCursorGrab::Confine);
                            } else if !pressed {
                                grab = Some(RCursorGrab::Release);
                            } else {
                                grab = Some(RCursorGrab::Center);
                            }
                        }
                    },
                    _ => {},
                }
                RWindowReaction { forward_input: ready, grab, render: false, resize: None }
            },
            RWindowEvent::CursorMoved => {
                if ready {
                    self.request_redraw = true;
                }
                RWindowReaction { forward_input: ready, grab: None, render: false, resize: None }
            },
            RWindowEvent::MouseInput { button, pressed } => {
                if ready {
                    self.request_redraw = true;
                }
                RWindowReaction { forward_input: ready, grab: None, render: false, resize: None }
            },
            RWindowEvent::MouseWheel { in_lines } => {
                if ready {
                    self.request_redraw = true;
                }
                RWindowReaction { forward_input: ready, grab: None, render: false, resize: None }
            },
            RWindowEvent::RedrawRequested => RWindowReaction {
                forward_input: false,
                grab: None,
                render: ready,
                resize: None,
            },
            RWindowEvent::Resized { width, height } => RWindowReaction {
                forward_input: false,
                grab: None,
                render: false,
                resize: if ready {
                    Some(RSize { width, height })
                } else {
                    None
                },
            },
            RWindowEvent::Other => nothing,
        }
    }

    /// Takes note of a frame that could not be drawn for want of memory:
    /// the program closes.
    pub fn out_of_memory(&mut self)
        ensures
            *final(self) == (ControlFlowApp { close_requested: true, ..*old(self) }),
    {
        self.close_requested = true;
    }

    /// Plans the time before the loop waits.
    pub fn about_to_wait(&mut self, ready: bool) -> (plan: RWaitPlan)
        ensures
            plan == old(self).wait_plan(ready),
            *final(self) == old(self).after_wait(),
    {
        let redraw = self.request_redraw && !self.wait_cancelled && !self.close_requested;
        let flow = match self.mode {
            Mode::Wait => {
                self.request_redraw = false;
                Some(RControlFlow::Wait)
            },
            Mode::WaitUntil => {
                if self.wait_cancelled {
                    None
                } else {
                    Some(RControlFlow::WaitUntil { millis: WAIT_TIME_MS })
                }
            },
            Mode::Poll => Some(RControlFlow::Poll { sleep_millis: POLL_SLEEP_TIME_MS }),
        };
        RWaitPlan { update: redraw && ready, redraw, flow, exit: self.close_requested }
    }
}

impl Default for ControlFlowApp {
    fn default() -> (s: ControlFlowApp)
        ensures
            s == ControlFlowApp::initial(),
    {
        ControlFlowApp {
            mode: Mode::Poll,
            request_redraw: true,
            wait_cancelled: false,
            close_requested: false,
        }
    }
}

/// Once the program was asked to close it stays so, whatever happens in
/// the window, and the next plan ends the loop without a redraw.
pub proof fn lemma_close_is_final(state: ControlFlowApp, event: RWindowEvent, ready: bool)
    requires
        state.close_requested,
    ensures
        state.after_event(event, ready).close_requested,
        state.after_wait().close_requested,
        state.wait_plan(ready).exit,
        !state.wait_plan(ready).redraw,
        !state.wait_plan(ready).update,
{
}

} // verus!
