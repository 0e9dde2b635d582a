//! The dispatcher: six ordered handler lists and the decisions of the loop
//! that feeds them.
//!
//! The loop alternates waiting, fetching and running handlers, all of which
//! may suspend; the caller does that work. After each piece of it the caller
//! hands the outcome to [`EventHandler::step`] (or one of its shorthands) and
//! performs the [`Action`] that comes back.
use vstd::prelude::*;

use crate::event::{Event, Kind};

verus! {

/// Period of the timer that paces polling of the event source.
pub const TICK_PERIOD_MS: u64 = 50;

/// Where the loop stands.
#[derive(Clone, Copy, Debug, PartialEq, Eq, Structural)]
pub enum Phase {
    /// Waiting for the next tick.
    Idle,
    /// Waiting for the event source to answer one poll.
    Fetching,
    /// Running the handler `index` of the list for `kind`.
    Dispatching { kind: Kind, index: usize },
    /// A handler failed; the loop is over.
    Terminated,
}

/// What the caller reports back.
#[derive(Debug, PartialEq, Eq)]
pub enum Input<E> {
    /// The timer ticked.
    Tick,
    /// The poll ended: with the kind of the event it produced, or with none
    /// (no event was ready, or the source failed).
    Fetched(Option<Kind>),
    /// The handler that was running returned this outcome.
    Handled(Result<(), E>),
}

/// What the caller does next.
#[derive(Debug, PartialEq, Eq)]
pub enum Action<E> {
    /// Wait for the next tick.
    WaitTick,
    /// Poll the event source once.
    Fetch,
    /// Run handler `index` of the list for `kind` on the current event.
    Invoke { kind: Kind, index: usize },
    /// End the loop with this failure.
    Stop(E),
}

/// The dispatcher. Its handler lists are fixed when it is made: registration
/// order is dispatch order.
pub struct EventHandler<FG, FL, K, M, P, R> {
    focus_gained: Vec<FG>,
    focus_lost: Vec<FL>,
    key: Vec<K>,
    mouse: Vec<M>,
    paste: Vec<P>,
    resize: Vec<R>,
    phase: Phase,
}

impl<FG, FL, K, M, P, R> EventHandler<FG, FL, K, M, P, R> {
    pub closed spec fn spec_focus_gained(&self) -> Seq<FG> {
        self.focus_gained@
    }

    pub closed spec fn spec_focus_lost(&self) -> Seq<FL> {
        self.focus_lost@
    }

    pub closed spec fn spec_key(&self) -> Seq<K> {
        self.key@
    }

    pub closed spec fn spec_mouse(&self) -> Seq<M> {
        self.mouse@
    }

    pub closed spec fn spec_paste(&self) -> Seq<P> {
        self.paste@
    }

    pub closed spec fn spec_resize(&self) -> Seq<R> {
        self.resize@
    }

    pub closed spec fn spec_phase(&self) -> Phase {
        self.phase
    }

    /// Number of handlers registered for `kind`.
    pub open spec fn count_of(&self, kind: Kind) -> nat {
        match kind {
            Kind::FocusGained => self.spec_focus_gained().len(),
            Kind::FocusLost => self.spec_focus_lost().len(),
            Kind::Key => self.spec_key().len(),
            Kind::Mouse => self.spec_mouse().len(),
            Kind::Paste => self.spec_paste().len(),
            Kind::Resize => self.spec_resize().len(),
        }
    }

    /// A dispatch in progress names an existing handler.
    pub open spec fn phase_fits(&self, phase: Phase) -> bool {
        match phase {
            Phase::Dispatching { kind, index } => index < self.count_of(kind),
            _ => true,
        }
    }

    #[verifier::type_invariant]
    closed spec fn inv(&self) -> bool {
        self.phase_fits(self.phase)
    }

    /// The phase and action that follow `input` in `phase`, or `None` where
    /// `phase` does not expect that input.
    pub open spec fn transition<E>(&self, phase: Phase, input: Input<E>) -> Option<(Phase, Action<E>)> {
        match (phase, input) {
            (Phase::Idle, Input::Tick) => Some((Phase::Fetching, Action::Fetch)),
            (Phase::Fetching, Input::Fetched(None)) => Some((Phase::Idle, Action::WaitTick)),
            (Phase::Fetching, Input::Fetched(Some(kind))) => {
                if self.count_of(kind) > 0 {
                    Some((Phase::Dispatching { kind, index: 0 }, Action::Invoke { kind, index: 0 }))
                } else {
                    Some((Phase::Idle, Action::WaitTick))
                }
            },
            (Phase::Dispatching { kind, index }, Input::Handled(Ok(()))) => {
                if index + 1 < self.count_of(kind) {
                    Some(
                        (
                            Phase::Dispatching { kind, index: (index + 1) as usize },
                            Action::Invoke { kind, index: (index + 1) as usize },
                        ),
                    )
                } else {
                    Some((Phase::Idle, Action::WaitTick))
                }
            },
            (Phase::Dispatching { .. }, Input::Handled(Err(e))) => Some(
                (Phase::Terminated, Action::Stop(e)),
            ),
            _ => None,
        }
    }

    /// Feeds `inputs` one by one from `phase`, up to the first one that is not
    /// expected: the phase reached and the actions produced.
    pub open spec fn run<E>(&self, phase: Phase, inputs: Seq<Input<E>>) -> (Phase, Seq<Action<E>>)
        decreases inputs.len(),
    {
        if inputs.len() == 0 {
            (phase, Seq::empty())
        } else {
            match self.transition(phase, inputs[0]) {
                None => (phase, Seq::empty()),
                Some((next, action)) => {
                    let (last, rest) = self.run(next, inputs.drop_first());
                    (last, seq![action] + rest)
                },
            }
        }
    }

    /// Makes a dispatcher from one ordered handler list per event kind, each
    /// possibly empty. It starts waiting for a tick.
    pub fn new(
        focus_gained: Vec<FG>,
        focus_lost: Vec<FL>,
        key: Vec<K>,
        mouse: Vec<M>,
        paste: Vec<P>,
        resize: Vec<R>,
    ) -> (h: Self)
        ensures
            h.spec_focus_gained() == focus_gained@,
            h.spec_focus_lost() == focus_lost@,
            h.spec_key() == key@,
            h.spec_mouse() == mouse@,
            h.spec_paste() == paste@,
            h.spec_resize() == resize@,
            h.spec_phase() == Phase::Idle,
            forall|k: Kind| h.count_of(k) <= usize::MAX,
    {
        proof {
            assert(focus_gained.len() == focus_gained@.len());
            assert(focus_lost.len() == focus_lost@.len());
            assert(key.len() == key@.len());
            assert(mouse.len() == mouse@.len());
            assert(paste.len() == paste@.len());
            assert(resize.len() == resize@.len());
        }
        EventHandler { focus_gained, focus_lost, key, mouse, paste, resize, phase: Phase::Idle }
    }

    pub fn focus_gained(&self) -> (r: &Vec<FG>)
        ensures
            r@ == self.spec_focus_gained(),
    {
        &self.focus_gained
    }

    pub fn focus_lost(&self) -> (r: &Vec<FL>)
        ensures
            r@ == self.spec_focus_lost(),
    {
        &self.focus_lost
    }

    pub fn key(&self) -> (r: &Vec<K>)
        ensures
            r@ == self.spec_key(),
    {
        &self.key
    }

    pub fn mouse(&self) -> (r: &Vec<M>)
        ensures
            r@ == self.spec_mouse(),
    {
        &self.mouse
    }

    pub fn paste(&self) -> (r: &Vec<P>)
        ensures
            r@ == self.spec_paste(),
    {
        &self.paste
    }

    pub fn resize(&self) -> (r: &Vec<R>)
        ensures
            r@ == self.spec_resize(),
    {
        &self.resize
    }

    pub fn phase(&self) -> (r: Phase)
        ensures
            r == self.spec_phase(),
    {
        self.phase
    }

    /// Number of handlers registered for `kind`.
    pub fn count(&self, kind: Kind) -> (n: usize)
        ensures
            n == self.count_of(kind),
    {
        match kind {
            Kind::FocusGained => self.focus_gained.len(),
            Kind::FocusLost => self.focus_lost.len(),
            Kind::Key => self.key.len(),
            Kind::Mouse => self.mouse.len(),
            Kind::Paste => self.paste.len(),
            Kind::Resize => self.resize.len(),
        }
    }
    /// Whether the current phase expects `input`.
    pub fn accepts<E>(&self, input: &Input<E>) -> (r: bool)
        ensures
            r == self.transition(self.spec_phase(), *input).is_some(),
    {
        match (self.phase, input) {
            (Phase::Idle, Input::Tick) => true,
            (Phase::Fetching, Input::Fetched(_)) => true,
            (Phase::Dispatching { .. }, Input::Handled(_)) => true,
            _ => false,
        }
    }

    /// Takes one step of the loop: moves to the next phase and returns what
    /// the caller does next. A failure is handed back as it came.
    pub fn step<E>(&mut self, input: Input<E>) -> (r: Action<E>)
        requires
            old(self).transition(old(self).spec_phase(), input).is_some(),
        ensures
            old(self).transition(old(self).spec_phase(), input) == Some((final(self).spec_phase(), r)),
            final(self).spec_focus_gained() == old(self).spec_focus_gained(),
            final(self).spec_focus_lost() == old(self).spec_focus_lost(),
            final(self).spec_key() == old(self).spec_key(),
            final(self).spec_mouse() == old(self).spec_mouse(),
            final(self).spec_paste() == old(self).spec_paste(),
            final(self).spec_resize() == old(self).spec_resize(),
    {
        proof {
            use_type_invariant(&*self);
        }
        match input {
            Input::Tick => {
                self.phase = Phase::Fetching;
                Action::Fetch
            },
            Input::Fetched(None) => {
                self.phase = Phase::Idle;
                Action::WaitTick
            },
            Input::Fetched(Some(kind)) => {
                if self.count(kind) > 0 {
                    self.phase = Phase::Dispatching { kind, index: 0 };
                    Action::Invoke { kind, index: 0 }
                } else {
                    self.phase = Phase::Idle;
                    Action::WaitTick
                }
            },
            Input::Handled(Ok(())) => {
                match self.phase {
                    Phase::Dispatching { kind, index } => {
                        let n = self.count(kind);
                        let next = index + 1;
                        if next < n {
                            self.phase = Phase::Dispatching { kind, index: next };
                            Action::Invoke { kind, index: next }
                        } else {
                            self.phase = Phase::Idle;
                            Action::WaitTick
                        }
                    },
                    _ => Action::WaitTick,
                }
            },
            Input::Handled(Err(e)) => {
                self.phase = Phase::Terminated;
                Action::Stop(e)
            },
        }
    }

    /// Routes `event`, which the poll has just produced: the first handler
    /// for its kind runs next, or, with none registered, the loop waits for
    /// the next tick.
    pub fn on_event<KE, ME, E>(&mut self, event: &Event<KE, ME>) -> (r: Action<E>)
        requires
            old(self).spec_phase() == Phase::Fetching,
        ensures
            old(self).transition(Phase::Fetching, Input::<E>::Fetched(Some(event.kind_of())))
                == Some((final(self).spec_phase(), r)),
            final(self).spec_focus_gained() == old(self).spec_focus_gained(),
            final(self).spec_focus_lost() == old(self).spec_focus_lost(),
            final(self).spec_key() == old(self).spec_key(),
            final(self).spec_mouse() == old(self).spec_mouse(),
            final(self).spec_paste() == old(self).spec_paste(),
            final(self).spec_resize() == old(self).spec_resize(),
    {
        let kind = event.kind();
        self.step(Input::Fetched(Some(kind)))
    }

    /// Takes the answer of one poll of the event source: an event, no event
    /// (`None`), or a failure of the source. Only an event is routed; the
    /// other two wait for the next tick alike.
    pub fn on_fetch<KE, ME, SE, E>(&mut self, fetched: &Option<Result<Event<KE, ME>, SE>>) -> (r: Action<E>)
        requires
            old(self).spec_phase() == Phase::Fetching,
        ensures
            old(self).transition(Phase::Fetching, Input::<E>::Fetched(fetched_kind(*fetched)))
                == Some((final(self).spec_phase(), r)),
            final(self).spec_focus_gained() == old(self).spec_focus_gained(),
            final(self).spec_focus_lost() == old(self).spec_focus_lost(),
            final(self).spec_key() == old(self).spec_key(),
            final(self).spec_mouse() == old(self).spec_mouse(),
            final(self).spec_paste() == old(self).spec_paste(),
            final(self).spec_resize() == old(self).spec_resize(),
    {
        match fetched {
            Some(Ok(event)) => self.on_event(event),
            _ => self.step(Input::Fetched(None)),
        }
    }
}

/// The kind of event that a poll produced, if it produced one.
pub open spec fn fetched_kind<KE, ME, SE>(fetched: Option<Result<Event<KE, ME>, SE>>) -> Option<Kind> {
    match fetched {
        Some(Ok(event)) => Some(event.kind_of()),
        _ => None,
    }
}

} // verus!
