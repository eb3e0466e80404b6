use crate::control::action::{after, apply, Action, ActionKind, Reducer, ReducerError};
use crate::control::state::State;
use vstd::prelude::*;

verus! {

/// What the store made of one item taken from the action queue.
#[derive(Debug)]
pub enum Step<E> {
    /// The action was reduced and its result is now the session. `state` is a
    /// snapshot of it, and `effects` are the effects registered for the
    /// action's kind, in the order of their registration: each is to be run
    /// once with the snapshot.
    Committed { state: State, effects: Vec<E> },
    /// The action was refused and the session is as it was.
    Rejected { error: ReducerError },
    /// The action queue is closed: the store has stopped and consumes nothing
    /// any more.
    Closed,
}

/// The effects registered for each kind of action.
struct Registry<E> {
    start_order: Vec<E>,
    add_item: Vec<E>,
    finalize: Vec<E>,
    cancel: Vec<E>,
    arrived: Vec<E>,
    help: Vec<E>,
}

impl<E> Registry<E> {
    spec fn of(&self, kind: ActionKind) -> Seq<E> {
        match kind {
            ActionKind::StartOrder => self.start_order@,
            ActionKind::AddItem => self.add_item@,
            ActionKind::Finalize => self.finalize@,
            ActionKind::Cancel => self.cancel@,
            ActionKind::Arrived => self.arrived@,
            ActionKind::Help => self.help@,
        }
    }
}

/// The single owner of the session: it applies the actions one after the
/// other, each to the state that the one before left, and says which effects
/// are due after a commit.
///
/// An effect is any value of type `E`; the store keeps and hands out effects,
/// it does not run them.
///
/// Once the action queue is closed the store has stopped: it says so, and
/// the session stays as last committed for good.
pub struct Store<E> {
    state: State,
    effects: Registry<E>,
    stopped: bool,
}

impl<E> Store<E> {
    /// The session as last committed.
    pub closed spec fn state(&self) -> State {
        self.state
    }

    /// The effects registered for a kind of action, in the order of their
    /// registration.
    pub closed spec fn effects(&self, kind: ActionKind) -> Seq<E> {
        self.effects.of(kind)
    }

    /// Whether the store has stopped consuming actions.
    pub closed spec fn stopped(&self) -> bool {
        self.stopped
    }
}

impl<E: Copy> Store<E> {
    /// A store that owns the given session and has no effects registered.
    pub fn new(state: State) -> (store: Store<E>)
        ensures
            store.state() == state,
            !store.stopped(),
            forall|kind: ActionKind| #[trigger] store.effects(kind) == Seq::<E>::empty(),
    {
        Store {
            stopped: false,
            state,
            effects: Registry {
                start_order: Vec::new(),
                add_item: Vec::new(),
                finalize: Vec::new(),
                cancel: Vec::new(),
                arrived: Vec::new(),
                help: Vec::new(),
            },
        }
    }

    /// Whether the store has stopped consuming actions: the snapshots that it
    /// hands out from then on are those of the last commit before it stopped.
    pub fn has_stopped(&self) -> (stopped: bool)
        ensures
            stopped == self.stopped(),
    {
        self.stopped
    }

    /// A snapshot of the session as last committed.
    pub fn get_state_snapshot(&self) -> (snapshot: State)
        ensures
            snapshot@ == self.state()@,
            snapshot.listing() == self.state().listing(),
    {
        self.state.clone()
    }

    /// Registers an effect for a kind of action, behind those registered for
    /// it before. The session and the effects of the other kinds stay as they
    /// are.
    pub fn register_effect(&mut self, effect: E, for_action: ActionKind)
        ensures
            final(self).state() == old(self).state(),
            final(self).stopped() == old(self).stopped(),
            final(self).effects(for_action) == old(self).effects(for_action).push(effect),
            forall|kind: ActionKind|
                kind != for_action ==> #[trigger] final(self).effects(kind) == old(self).effects(
                    kind,
                ),
    {
        match for_action {
            ActionKind::StartOrder => self.effects.start_order.push(effect),
            ActionKind::AddItem => self.effects.add_item.push(effect),
            ActionKind::Finalize => self.effects.finalize.push(effect),
            ActionKind::Cancel => self.effects.cancel.push(effect),
            ActionKind::Arrived => self.effects.arrived.push(effect),
            ActionKind::Help => self.effects.help.push(effect),
        }
    }

    /// The effects registered for a kind of action.
    pub fn registered(&self, kind: ActionKind) -> (effects: Vec<E>)
        ensures
            effects@ == self.effects(kind),
    {
        let source = match kind {
            ActionKind::StartOrder => &self.effects.start_order,
            ActionKind::AddItem => &self.effects.add_item,
            ActionKind::Finalize => &self.effects.finalize,
            ActionKind::Cancel => &self.effects.cancel,
            ActionKind::Arrived => &self.effects.arrived,
            ActionKind::Help => &self.effects.help,
        };
        let mut effects: Vec<E> = Vec::new();
        let mut i: usize = 0;
        while i < source.len()
            invariant
                i <= source.len(),
                effects@ == source@.subrange(0, i as int),
            decreases source.len() - i,
        {
            effects.push(source[i]);
            i += 1;
        }
        effects
    }

    /// Handles what the action queue handed over: an action, or `None` once
    /// the queue is closed.
    ///
    /// An action is reduced against the session as last committed. If the
    /// reduction succeeds, its result replaces the session, and the step names
    /// the effects registered for the action's kind together with a snapshot
    /// for them. If it fails, the session stays untouched and the step carries
    /// the error. The registered effects never change.
    ///
    /// Asking for help is accepted in every phase: the session keeps its phase
    /// and its order lines, and the effects registered for help are due.
    ///
    /// With `None` the store stops. A store that has stopped stays so: it
    /// answers `Closed` to whatever it is handed and changes nothing.
    pub fn listen(&mut self, received: Option<Action>) -> (step: Step<E>)
        ensures
            forall|kind: ActionKind|
                #[trigger] final(self).effects(kind) == old(self).effects(kind),
            final(self).stopped() == (old(self).stopped() || received is None),
            if final(self).stopped() {
                step is Closed && final(self).state() == old(self).state()
            } else {
                &&& final(self).state()@ == after(received->Some_0@, old(self).state()@)
                &&& match apply(received->Some_0@, old(self).state()@) {
                    Ok(next) => {
                        &&& final(self).state()@ == next
                        &&& step matches Step::Committed { state, effects }
                        &&& state@ == next
                        &&& state.listing() == final(self).state().listing()
                        &&& effects@ == old(self).effects(received->Some_0@.kind())
                    },
                    Err(refusal) => {
                        &&& final(self).state() == old(self).state()
                        &&& step matches Step::Rejected { error }
                        &&& error@ == refusal
                    },
                }
            },
            !final(self).stopped() && received->Some_0@ is Help ==> {
                &&& final(self).state()@ == old(self).state()@
                &&& step matches Step::Committed { state, effects }
                &&& state@ == old(self).state()@
                &&& effects@ == old(self).effects(ActionKind::Help)
            },
    {
        if self.stopped {
            return Step::Closed;
        }
        match received {
            None => {
                self.stopped = true;
                Step::Closed
            },
            Some(action) => {
                let snapshot = self.state.clone();
                match action.reduce(snapshot) {
                    Ok(next) => {
                        let state = next.clone();
                        let effects = self.registered(action.kind());
                        self.state = next;
                        Step::Committed { state, effects }
                    },
                    Err(error) => Step::Rejected { error },
                }
            },
        }
    }
}

} // verus!
