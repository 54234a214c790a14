use vstd::prelude::*;

use crate::math::Point;
use crate::util::RuntimeException;

verus! {

/// An input event of the window, as far as the event loop tells events apart.
#[derive(Debug, Clone, Copy, PartialEq, Eq, Structural)]
pub enum WindowEvent {
    Quit,
    KeyDown(i32),
    MouseButtonDown(i32, Point),
    MouseMotion(Point),
    Other,
}

/// A user callback to invoke, with its arguments. The `Commands` variants receive the
/// command context, the others do not.
#[derive(Debug, Clone, Copy, PartialEq, Eq, Structural)]
pub enum Hook {
    KeyDown(i32),
    KeyDownNoCommands(i32),
    MouseButtonDown(i32, Point),
    MouseButtonDownNoCommands(i32, Point),
    MouseMotion(Point),
    MouseMotionNoCommands(Point),
}

/// Which event callbacks a window has registered.
#[derive(Debug, Clone, Copy, PartialEq, Eq, Structural)]
pub struct RegisteredHooks {
    pub key_down: bool,
    pub key_down_no_commands: bool,
    pub mouse_button_down: bool,
    pub mouse_button_down_no_commands: bool,
    pub mouse_motion: bool,
    pub mouse_motion_no_commands: bool,
}

/// `first` followed by `second`, each present only when its flag is set.
pub open spec fn hooks_if(a: bool, first: Hook, b: bool, second: Hook) -> Seq<Hook> {
    (if a {
        seq![first]
    } else {
        Seq::empty()
    }) + (if b {
        seq![second]
    } else {
        Seq::empty()
    })
}

/// The callbacks an event triggers, in the order they run: the one with the command
/// context first, then the one without.
pub open spec fn triggered_hooks(event: WindowEvent, hooks: RegisteredHooks) -> Seq<Hook> {
    match event {
        WindowEvent::KeyDown(key) => hooks_if(
            hooks.key_down,
            Hook::KeyDown(key),
            hooks.key_down_no_commands,
            Hook::KeyDownNoCommands(key),
        ),
        WindowEvent::MouseButtonDown(button, at) => hooks_if(
            hooks.mouse_button_down,
            Hook::MouseButtonDown(button, at),
            hooks.mouse_button_down_no_commands,
            Hook::MouseButtonDownNoCommands(button, at),
        ),
        WindowEvent::MouseMotion(at) => hooks_if(
            hooks.mouse_motion,
            Hook::MouseMotion(at),
            hooks.mouse_motion_no_commands,
            Hook::MouseMotionNoCommands(at),
        ),
        _ => Seq::empty(),
    }
}

/// The calls `hooks_if` lists: `first` exactly when its flag is set, `second` exactly
/// when its own flag is set, nothing else, and `first` ahead of `second`.
pub proof fn lemma_hooks_if(a: bool, first: Hook, b: bool, second: Hook)
    requires
        first != second,
    ensures
        hooks_if(a, first, b, second).contains(first) <==> a,
        hooks_if(a, first, b, second).contains(second) <==> b,
        forall|h: Hook| #[trigger] hooks_if(a, first, b, second).contains(h) ==> h == first || h == second,
        hooks_if(a, first, b, second).len() == (if a { 1int } else { 0 }) + (if b { 1int } else { 0 }),
        a && b ==> hooks_if(a, first, b, second) == seq![first, second],
{
    let s = hooks_if(a, first, b, second);
    if a {
        assert(s[0] == first);
    }
    if b {
        assert(s[s.len() - 1] == second);
    }
    if a && b {
        assert(s =~= seq![first, second]);
    }
}

/// Every callback that is registered for an event runs when it comes, and only those:
/// for a key press, a click or a motion, the callback with the command context is
/// called exactly when it is registered, and the one without it exactly when that one
/// is registered, each regardless of the other; both run, the one with the context
/// first, when both are registered. A quit request or any other event calls nothing.
pub proof fn law_event_hooks(event: WindowEvent, hooks: RegisteredHooks)
    ensures
        forall|key: i32|
            event == WindowEvent::KeyDown(key) ==> {
                &&& (triggered_hooks(event, hooks).contains(Hook::KeyDown(key)) <==> hooks.key_down)
                &&& (triggered_hooks(event, hooks).contains(Hook::KeyDownNoCommands(key))
                    <==> hooks.key_down_no_commands)
                &&& (hooks.key_down && hooks.key_down_no_commands ==> triggered_hooks(event, hooks)
                    == seq![Hook::KeyDown(key), Hook::KeyDownNoCommands(key)])
            },
        forall|button: i32, at: Point|
            event == WindowEvent::MouseButtonDown(button, at) ==> {
                &&& (triggered_hooks(event, hooks).contains(Hook::MouseButtonDown(button, at))
                    <==> hooks.mouse_button_down)
                &&& (triggered_hooks(event, hooks).contains(Hook::MouseButtonDownNoCommands(button, at))
                    <==> hooks.mouse_button_down_no_commands)
                &&& (hooks.mouse_button_down && hooks.mouse_button_down_no_commands ==> triggered_hooks(
                    event,
                    hooks,
                ) == seq![Hook::MouseButtonDown(button, at), Hook::MouseButtonDownNoCommands(button, at)])
            },
        forall|at: Point|
            event == WindowEvent::MouseMotion(at) ==> {
                &&& (triggered_hooks(event, hooks).contains(Hook::MouseMotion(at)) <==> hooks.mouse_motion)
                &&& (triggered_hooks(event, hooks).contains(Hook::MouseMotionNoCommands(at))
                    <==> hooks.mouse_motion_no_commands)
                &&& (hooks.mouse_motion && hooks.mouse_motion_no_commands ==> triggered_hooks(event, hooks)
                    == seq![Hook::MouseMotion(at), Hook::MouseMotionNoCommands(at)])
            },
        event == WindowEvent::Quit || event == WindowEvent::Other ==> triggered_hooks(event, hooks).len()
            == 0,
{
    match event {
        WindowEvent::KeyDown(key) => {
            lemma_hooks_if(
                hooks.key_down,
                Hook::KeyDown(key),
                hooks.key_down_no_commands,
                Hook::KeyDownNoCommands(key),
            );
        },
        WindowEvent::MouseButtonDown(button, at) => {
            lemma_hooks_if(
                hooks.mouse_button_down,
                Hook::MouseButtonDown(button, at),
                hooks.mouse_button_down_no_commands,
                Hook::MouseButtonDownNoCommands(button, at),
            );
        },
        WindowEvent::MouseMotion(at) => {
            lemma_hooks_if(
                hooks.mouse_motion,
                Hook::MouseMotion(at),
                hooks.mouse_motion_no_commands,
                Hook::MouseMotionNoCommands(at),
            );
        },
        _ => {},
    }
}

fn push_hooks_if(out: &mut Vec<Hook>, a: bool, first: Hook, b: bool, second: Hook)
    ensures
        final(out)@ == old(out)@ + hooks_if(a, first, b, second),
{
    let ghost start = out@;
    if a {
        out.push(first);
    }
    if b {
        out.push(second);
    }
    assert(out@ =~= start + hooks_if(a, first, b, second));
}

/// The state of a window's main loop: whether it keeps running, and the errors the
/// callbacks have returned so far.
pub struct EventLoop {
    pub running: bool,
    pub errors: Vec<RuntimeException>,
}

impl EventLoop {
    /// A loop that is running and has seen no error.
    pub fn start() -> (l: Self)
        ensures
            l.running,
            l.errors@.len() == 0,
    {
        EventLoop { running: true, errors: Vec::new() }
    }

    /// Handles one event: a quit request stops the loop; the result lists the callbacks
    /// to invoke for the event, in order.
    pub fn handle_event(&mut self, event: WindowEvent, hooks: RegisteredHooks) -> (calls: Vec<Hook>)
        ensures
            final(self).running == (old(self).running && event != WindowEvent::Quit),
            final(self).errors@ == old(self).errors@,
            calls@ == triggered_hooks(event, hooks),
            forall|key: i32|
                event == WindowEvent::KeyDown(key) ==> {
                    &&& (calls@.contains(Hook::KeyDown(key)) <==> hooks.key_down)
                    &&& (calls@.contains(Hook::KeyDownNoCommands(key)) <==> hooks.key_down_no_commands)
                },
            forall|button: i32, at: Point|
                event == WindowEvent::MouseButtonDown(button, at) ==> {
                    &&& (calls@.contains(Hook::MouseButtonDown(button, at)) <==> hooks.mouse_button_down)
                    &&& (calls@.contains(Hook::MouseButtonDownNoCommands(button, at))
                        <==> hooks.mouse_button_down_no_commands)
                },
            forall|at: Point|
                event == WindowEvent::MouseMotion(at) ==> {
                    &&& (calls@.contains(Hook::MouseMotion(at)) <==> hooks.mouse_motion)
                    &&& (calls@.contains(Hook::MouseMotionNoCommands(at)) <==> hooks.mouse_motion_no_commands)
                },
            event == WindowEvent::Quit || event == WindowEvent::Other ==> calls@.len() == 0,
    {
        let mut calls: Vec<Hook> = Vec::new();
        match event {
            WindowEvent::Quit => {
                self.running = false;
            },
            WindowEvent::KeyDown(key) => {
                push_hooks_if(
                    &mut calls,
                    hooks.key_down,
                    Hook::KeyDown(key),
                    hooks.key_down_no_commands,
                    Hook::KeyDownNoCommands(key),
                );
            },
            WindowEvent::MouseButtonDown(button, at) => {
                push_hooks_if(
                    &mut calls,
                    hooks.mouse_button_down,
                    Hook::MouseButtonDown(button, at),
                    hooks.mouse_button_down_no_commands,
                    Hook::MouseButtonDownNoCommands(button, at),
                );
            },
            WindowEvent::MouseMotion(at) => {
                push_hooks_if(
                    &mut calls,
                    hooks.mouse_motion,
                    Hook::MouseMotion(at),
                    hooks.mouse_motion_no_commands,
                    Hook::MouseMotionNoCommands(at),
                );
            },
            WindowEvent::Other => {},
        }
        assert(calls@ =~= triggered_hooks(event, hooks));
        proof {
            law_event_hooks(event, hooks);
        }
        calls
    }

    /// Records the outcome of a callback: an error is kept, success leaves the loop as
    /// it is.
    pub fn record(&mut self, outcome: Result<(), RuntimeException>)
        ensures
            final(self).running == old(self).running,
            match outcome {
                Ok(()) => final(self).errors@ == old(self).errors@,
                Err(e) => final(self).errors@ == old(self).errors@.push(e),
            },
    {
        if let Err(e) = outcome {
            self.errors.push(e);
        }
    }

    /// The error that ends the program at the end of a frame: the first one recorded, if
    /// any.
    pub fn fatal_error(&self) -> (e: Option<&RuntimeException>)
        ensures
            self.errors@.len() == 0 ==> e is None,
            self.errors@.len() > 0 ==> e == Some(&self.errors@[0]),
    {
        if self.errors.len() > 0 {
            Some(&self.errors[0])
        } else {
            None
        }
    }
}

} // verus!
