//! The callback that is told of state changes.

use vstd::prelude::*;
use crate::event::CursorState;

verus! {

/// Something that takes a state record and the name of an event, and may be
/// moved to another thread.
trait StateSink: Send {
    /// Whether the two may be handed over.
    spec fn accepts(&self, state: &CursorState, event: &str) -> bool;

    /// What the sink promises of a call with the two.
    spec fn promises(&self, state: &CursorState, event: &str) -> bool;

    fn notify(&self, state: &CursorState, event: &str)
        requires
            self.accepts(state, event),
        ensures
            self.promises(state, event),
    ;
}

impl<F: Fn(&CursorState, &str) + Send> StateSink for F {
    spec fn accepts(&self, state: &CursorState, event: &str) -> bool {
        call_requires(*self, (state, event))
    }

    spec fn promises(&self, state: &CursorState, event: &str) -> bool {
        call_ensures(*self, (state, event), ())
    }

    fn notify(&self, state: &CursorState, event: &str) {
        self(state, event)
    }
}

/// A registered callback for state changes.
pub struct CursorCallback {
    sink: Box<dyn StateSink>,
}

impl CursorCallback {
    #[verifier::type_invariant]
    spec fn takes_every_state(self) -> bool {
        forall|state: &CursorState, event: &str| #[trigger] self.sink.accepts(state, event)
    }

    /// What the registered function promises of a call with `state` and
    /// `event`: its own postcondition.
    pub closed spec fn promises(&self, state: &CursorState, event: &str) -> bool {
        self.sink.promises(state, event)
    }

    /// Registers `callback`, which must be callable on every state and
    /// every name.
    pub fn new<F>(callback: F) -> (registered: Self) where F: Fn(&CursorState, &str) + Send + 'static
        requires
            forall|state: &CursorState, event: &str| call_requires(callback, (state, event)),
        ensures
            forall|state: &CursorState, event: &str|
                #[trigger] registered.promises(state, event) == call_ensures(
                    callback,
                    (state, event),
                    (),
                ),
    {
        CursorCallback { sink: Box::new(callback) }
    }

    /// Calls the callback with `state` and the name `event`.
    pub fn call(&self, state: &CursorState, event: &str)
        ensures
            self.promises(state, event),
    {
        proof {
            use_type_invariant(self);
        }
        self.sink.notify(state, event);
    }
}

} // verus!
