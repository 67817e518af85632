//! A machine of five states that exercises both ways of changing state:
//! the transition (`->`), which exits the old state and enters the new one,
//! and the change of state (`->>`), which delivers no event.
//!
//! ```text
//! $S0  |<| exit("S0")   |transit| -> $S1   |change| ->> $S1
//! $S1  |>| enter("S1")  |<| exit("S1")   |transit| -> $S2   |change| ->> $S2
//! $S2  |>| enter("S2") -> $S3   |<| exit("S2")   |transit| -> $S3   |change| ->> $S3
//! $S3  |>| enter("S3")  |<| exit("S3")   |transit| -> $S4   |change| ->> $S4
//! $S4  |>| enter("S4") ->> $S0   |<| exit("S4")
//! ```

use crate::runtime::{
    CallbackManager, TransitionInfo, TransitionKind, TransitionView, name_views, notices_for,
};
use vstd::prelude::*;

verus! {

/// The states of the machine.
#[derive(Copy, Clone, Debug, PartialEq, Eq, Structural)]
pub enum TransitionState {
    S0,
    S1,
    S2,
    S3,
    S4,
}

/// The events that the machine handles.
#[derive(Copy, Clone, Debug, PartialEq, Eq, Structural)]
pub enum FrameMessage {
    Enter,
    Exit,
    Transit,
    Change,
}

/// The name of a state.
pub open spec fn state_name(state: TransitionState) -> Seq<char> {
    match state {
        TransitionState::S0 => "S0"@,
        TransitionState::S1 => "S1"@,
        TransitionState::S2 => "S2"@,
        TransitionState::S3 => "S3"@,
        TransitionState::S4 => "S4"@,
    }
}

/// The line that a hook logs for a change of state.
pub open spec fn hook_line(
    kind: TransitionKind,
    old_state: TransitionState,
    new_state: TransitionState,
) -> Seq<char> {
    state_name(old_state) + (match kind {
        TransitionKind::Transition => "->"@,
        TransitionKind::ChangeState => "->>"@,
    }) + state_name(new_state)
}

/// The machine as contracts see it.
pub ghost struct TransitionModel {
    pub state: TransitionState,
    pub enters: Seq<Seq<char>>,
    pub exits: Seq<Seq<char>>,
    pub hooks: Seq<Seq<char>>,
    pub observers: nat,
    pub pending: Seq<(nat, TransitionView)>,
}

impl TransitionModel {
    /// After the exit handler of the current state.
    pub open spec fn exited(self) -> TransitionModel {
        TransitionModel { exits: self.exits.push(state_name(self.state)), ..self }
    }

    /// After the dispatcher was reassigned to `target`, the hook was called
    /// and the observers were given notice.
    pub open spec fn switched(
        self,
        kind: TransitionKind,
        target: TransitionState,
    ) -> TransitionModel {
        TransitionModel {
            state: target,
            hooks: self.hooks.push(hook_line(kind, self.state, target)),
            pending: self.pending + notices_for(
                self.observers,
                TransitionView {
                    kind,
                    old_state: state_name(self.state),
                    new_state: state_name(target),
                },
            ),
            ..self
        }
    }

    /// After the action `enter` of the current state.
    pub open spec fn logged_enter(self) -> TransitionModel {
        TransitionModel { enters: self.enters.push(state_name(self.state)), ..self }
    }

    /// After a transition to a state whose enter handler changes no state.
    pub open spec fn moved(self, target: TransitionState) -> TransitionModel {
        self.exited().switched(TransitionKind::Transition, target).logged_enter()
    }

    /// After the enter event to the current state: `S0` does not handle
    /// it, `S2` goes on to `S3` by a transition and `S4` to `S0` by a change
    /// of state.
    pub open spec fn entered(self) -> TransitionModel {
        match self.state {
            TransitionState::S0 => self,
            TransitionState::S2 => self.logged_enter().moved(TransitionState::S3),
            TransitionState::S4 => self.logged_enter().switched(
                TransitionKind::ChangeState,
                TransitionState::S0,
            ),
            _ => self.logged_enter(),
        }
    }

    /// After a transition to `target`: the exit handler of the old state,
    /// the reassignment, then the enter handler of the new state.
    pub open spec fn transitioned(self, target: TransitionState) -> TransitionModel {
        self.exited().switched(TransitionKind::Transition, target).entered()
    }

    /// After the event `transit`.
    pub open spec fn transited(self) -> TransitionModel {
        match self.state {
            TransitionState::S0 => self.transitioned(TransitionState::S1),
            TransitionState::S1 => self.transitioned(TransitionState::S2),
            TransitionState::S2 => self.transitioned(TransitionState::S3),
            TransitionState::S3 => self.transitioned(TransitionState::S4),
            TransitionState::S4 => self,
        }
    }

    /// After the event `change`.
    pub open spec fn changed(self) -> TransitionModel {
        match self.state {
            TransitionState::S0 => self.switched(TransitionKind::ChangeState, TransitionState::S1),
            TransitionState::S1 => self.switched(TransitionKind::ChangeState, TransitionState::S2),
            TransitionState::S2 => self.switched(TransitionKind::ChangeState, TransitionState::S3),
            TransitionState::S3 => self.switched(TransitionKind::ChangeState, TransitionState::S4),
            TransitionState::S4 => self,
        }
    }

    /// After the event `message`.
    pub open spec fn handled(self, message: FrameMessage) -> TransitionModel {
        match message {
            FrameMessage::Enter => self.entered(),
            FrameMessage::Exit => self.exited(),
            FrameMessage::Transit => self.transited(),
            FrameMessage::Change => self.changed(),
        }
    }
}

/// A change of state delivers no event: whatever the state, the event
/// `change` leaves the logs of the enter and exit actions as they were.
pub proof fn lemma_change_state_has_no_effects(m: TransitionModel)
    ensures
        m.changed().enters == m.enters,
        m.changed().exits == m.exits,
        m.state != TransitionState::S4 ==> m.changed().state != m.state,
{
}

/// A transition exits the old state and enters the state that the
/// dispatcher was reassigned to: the exit action logs the state that the
/// machine was in, the hook the two states, and the enter action of every
/// state that has one the target.
pub proof fn lemma_transition_order(m: TransitionModel, target: TransitionState)
    ensures
        m.transitioned(target).exits.len() >= m.exits.len() + 1,
        m.transitioned(target).exits[m.exits.len() as int] == state_name(m.state),
        target != TransitionState::S0 ==> m.transitioned(target).enters.len() >= m.enters.len()
            + 1 && m.transitioned(target).enters[m.enters.len() as int] == state_name(target),
        m.transitioned(target).hooks[m.hooks.len() as int] == hook_line(
            TransitionKind::Transition,
            m.state,
            target,
        ),
{
}

/// How deep the handling of an enter event can nest.
pub open spec fn enter_depth(state: TransitionState) -> nat {
    match state {
        TransitionState::S2 => 2,
        _ => 0,
    }
}

/// How deep the handling of an event can nest.
pub open spec fn depth(state: TransitionState, message: FrameMessage) -> nat {
    match message {
        FrameMessage::Enter => enter_depth(state),
        FrameMessage::Exit => 0,
        FrameMessage::Change => 0,
        FrameMessage::Transit => match state {
            TransitionState::S0 => 2,
            TransitionState::S1 => 4,
            TransitionState::S2 => 2,
            TransitionState::S3 => 2,
            TransitionState::S4 => 0,
        },
    }
}

/// The machine.
#[derive(Debug)]
pub struct Transition {
    pub state: TransitionState,
    pub callback_manager: CallbackManager,
    pub enters: Vec<std::string::String>,
    pub exits: Vec<std::string::String>,
    pub hooks: Vec<std::string::String>,
}

impl View for Transition {
    type V = TransitionModel;

    open spec fn view(&self) -> TransitionModel {
        TransitionModel {
            state: self.state,
            enters: name_views(self.enters@),
            exits: name_views(self.exits@),
            hooks: name_views(self.hooks@),
            observers: self.callback_manager.observers(),
            pending: self.callback_manager.pending(),
        }
    }
}

/// The name of `state`.
pub fn name_of(state: TransitionState) -> (name: std::string::String)
    ensures
        name@ == state_name(state),
{
    match state {
        TransitionState::S0 => std::string::String::from_str("S0"),
        TransitionState::S1 => std::string::String::from_str("S1"),
        TransitionState::S2 => std::string::String::from_str("S2"),
        TransitionState::S3 => std::string::String::from_str("S3"),
        TransitionState::S4 => std::string::String::from_str("S4"),
    }
}

impl Transition {
    /// The machine in its first state, `S0`, with empty logs and without
    /// observers.
    pub fn new() -> (machine: Transition)
        ensures
            machine@ == (TransitionModel {
                state: TransitionState::S0,
                enters: Seq::empty(),
                exits: Seq::empty(),
                hooks: Seq::empty(),
                observers: 0,
                pending: Seq::empty(),
            }),
    {
        let machine = Transition {
            state: TransitionState::S0,
            callback_manager: CallbackManager::new(),
            enters: Vec::new(),
            exits: Vec::new(),
            hooks: Vec::new(),
        };
        assert(name_views(machine.enters@) =~= Seq::empty());
        assert(name_views(machine.exits@) =~= Seq::empty());
        assert(name_views(machine.hooks@) =~= Seq::empty());
        machine
    }

    /// The action `enter`: logs the state that was entered.
    pub fn enter(&mut self, state: std::string::String)
        ensures
            final(self)@ == (TransitionModel { enters: old(self)@.enters.push(state@), ..old(self)@ }),
    {
        let ghost before = self.enters@;
        self.enters.push(state);
        assert(name_views(self.enters@) =~= name_views(before).push(state@));
    }

    /// The action `exit`: logs the state that was left.
    pub fn exit(&mut self, state: std::string::String)
        ensures
            final(self)@ == (TransitionModel { exits: old(self)@.exits.push(state@), ..old(self)@ }),
    {
        let ghost before = self.exits@;
        self.exits.push(state);
        assert(name_views(self.exits@) =~= name_views(before).push(state@));
    }

    /// Empties the three logs.
    pub fn clear_all(&mut self)
        ensures
            final(self)@ == (TransitionModel {
                enters: Seq::empty(),
                exits: Seq::empty(),
                hooks: Seq::empty(),
                ..old(self)@
            }),
    {
        self.enters.clear();
        self.exits.clear();
        self.hooks.clear();
        assert(name_views(self.enters@) =~= Seq::empty());
        assert(name_views(self.exits@) =~= Seq::empty());
        assert(name_views(self.hooks@) =~= Seq::empty());
    }

    /// Called after each transition: logs `old->new`.
    pub fn transition_hook(&mut self, old_state: TransitionState, new_state: TransitionState)
        ensures
            final(self)@ == (TransitionModel {
                hooks: old(self)@.hooks.push(
                    hook_line(TransitionKind::Transition, old_state, new_state),
                ),
                ..old(self)@
            }),
    {
        let mut line = name_of(old_state);
        line.append("->");
        line.append(name_of(new_state).as_str());
        let ghost before = self.hooks@;
        self.hooks.push(line);
        assert(name_views(self.hooks@) =~= name_views(before).push(line@));
    }

    /// Called after each change of state: logs `old->>new`.
    pub fn change_state_hook(&mut self, old_state: TransitionState, new_state: TransitionState)
        ensures
            final(self)@ == (TransitionModel {
                hooks: old(self)@.hooks.push(
                    hook_line(TransitionKind::ChangeState, old_state, new_state),
                ),
                ..old(self)@
            }),
    {
        let mut line = name_of(old_state);
        line.append("->>");
        line.append(name_of(new_state).as_str());
        let ghost before = self.hooks@;
        self.hooks.push(line);
        assert(name_views(self.hooks@) =~= name_views(before).push(line@));
    }

    /// The observers of the machine's changes of state.
    pub fn callback_manager(&mut self) -> (manager: &mut CallbackManager)
        ensures
            *manager == old(self).callback_manager,
            *final(self) == (Transition { callback_manager: *final(manager), ..*old(self) }),
    {
        &mut self.callback_manager
    }

    /// Registers an observer of the machine's changes of state and returns
    /// its number.
    pub fn add_transition_callback(&mut self) -> (id: Option<usize>)
        ensures
            old(self)@.observers < usize::MAX ==> id == Some(old(self)@.observers as usize)
                && final(self)@ == (TransitionModel {
                observers: old(self)@.observers + 1,
                ..old(self)@
            }),
            old(self)@.observers >= usize::MAX ==> id is None && final(self)@ == old(self)@,
    {
        self.callback_manager.add_transition_callback()
    }

    /// The event `transit`.
    pub fn transit(&mut self)
        ensures
            final(self)@ == old(self)@.transited(),
    {
        self.handle_event(FrameMessage::Transit);
    }

    /// The event `change`.
    pub fn change(&mut self)
        ensures
            final(self)@ == old(self)@.changed(),
    {
        self.handle_event(FrameMessage::Change);
    }

    /// Reassigns the dispatcher, calls the hook and gives notice.
    fn switch(&mut self, kind: TransitionKind, target: TransitionState)
        ensures
            final(self)@ == old(self)@.switched(kind, target),
    {
        let old_state = self.state;
        self.state = target;
        match kind {
            TransitionKind::Transition => self.transition_hook(old_state, target),
            TransitionKind::ChangeState => self.change_state_hook(old_state, target),
        }
        let info = TransitionInfo {
            kind,
            old_state: name_of(old_state),
            new_state: name_of(target),
        };
        self.callback_manager.call_transition_callbacks(&info);
    }

    /// The change of state to `target`: no event is delivered.
    fn change_state(&mut self, target: TransitionState)
        ensures
            final(self)@ == old(self)@.switched(TransitionKind::ChangeState, target),
    {
        self.switch(TransitionKind::ChangeState, target);
    }

    /// The transition to `target`: the exit event to the current state,
    /// the reassignment, then the enter event to the new state.
    fn transition(&mut self, target: TransitionState)
        ensures
            final(self)@ == old(self)@.transitioned(target),
        decreases 1 + enter_depth(target),
    {
        self.handle_event(FrameMessage::Exit);
        self.switch(TransitionKind::Transition, target);
        self.handle_event(FrameMessage::Enter);
    }

    /// Delivers `message` to the current state.
    fn handle_event(&mut self, message: FrameMessage)
        ensures
            final(self)@ == old(self)@.handled(message),
        decreases depth(old(self).state, message),
    {
        let state = self.state;
        match message {
            FrameMessage::Exit => self.exit(name_of(state)),
            FrameMessage::Enter => match state {
                TransitionState::S0 => {},
                TransitionState::S2 => {
                    self.enter(name_of(state));
                    self.transition(TransitionState::S3);
                },
                TransitionState::S4 => {
                    self.enter(name_of(state));
                    self.change_state(TransitionState::S0);
                },
                _ => self.enter(name_of(state)),
            },
            FrameMessage::Transit => match state {
                TransitionState::S0 => self.transition(TransitionState::S1),
                TransitionState::S1 => self.transition(TransitionState::S2),
                TransitionState::S2 => self.transition(TransitionState::S3),
                TransitionState::S3 => self.transition(TransitionState::S4),
                TransitionState::S4 => {},
            },
            FrameMessage::Change => match state {
                TransitionState::S0 => self.change_state(TransitionState::S1),
                TransitionState::S1 => self.change_state(TransitionState::S2),
                TransitionState::S2 => self.change_state(TransitionState::S3),
                TransitionState::S3 => self.change_state(TransitionState::S4),
                TransitionState::S4 => {},
            },
        }
    }
}

} // verus!
