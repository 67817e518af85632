//! A machine whose states have variables of their own.
//!
//! ```text
//! $Init  |>| -> $A
//! $A     var x = 0            |X| x = x + 1   |Y| -> $B   |Z| -> $B
//! $B     var y = 10, z = 100  |X| -> $A   |Y| y = y + 1   |Z| z = z + 1
//! ```
//!
//! A state's variables are made anew from their initializers each time the
//! state is entered by a transition.

use crate::runtime::{Environment, Value, ValueView};
use crate::text::same_text;
use vstd::prelude::*;

verus! {

/// The states of the machine.
#[derive(Copy, Clone, Debug, PartialEq, Eq, Structural)]
pub enum StateVarsState {
    Init,
    A,
    B,
}

/// The variables of state `A`.
#[derive(Copy, Clone, Debug, PartialEq, Eq, Structural)]
pub struct AStateVars {
    pub x: u32,
}

/// The context of state `A`.
#[derive(Copy, Clone, Debug, PartialEq, Eq, Structural)]
pub struct AStateContext {
    pub state_vars: AStateVars,
}

/// The variables of state `B`.
#[derive(Copy, Clone, Debug, PartialEq, Eq, Structural)]
pub struct BStateVars {
    pub y: u32,
    pub z: u32,
}

/// The context of state `B`.
#[derive(Copy, Clone, Debug, PartialEq, Eq, Structural)]
pub struct BStateContext {
    pub state_vars: BStateVars,
}

/// The context of the current state.
#[derive(Copy, Clone, Debug, PartialEq, Eq, Structural)]
pub enum StateVarsStateContext {
    Init,
    A(AStateContext),
    B(BStateContext),
}

/// The context that a transition to `A` makes: `x` is 0.
pub open spec fn fresh_a() -> StateVarsStateContext {
    StateVarsStateContext::A(AStateContext { state_vars: AStateVars { x: 0 } })
}

/// The context that a transition to `B` makes: `y` is 10 and `z` is 100.
pub open spec fn fresh_b() -> StateVarsStateContext {
    StateVarsStateContext::B(BStateContext { state_vars: BStateVars { y: 10, z: 100 } })
}

impl StateVarsStateContext {
    /// The context of state `A`.
    pub fn a_context(&self) -> (context: &AStateContext)
        requires
            self is A,
        ensures
            *context == self->A_0,
    {
        match self {
            StateVarsStateContext::A(context) => context,
            _ => vstd::pervasive::unreached(),
        }
    }

    /// The context of state `B`.
    pub fn b_context(&self) -> (context: &BStateContext)
        requires
            self is B,
        ensures
            *context == self->B_0,
    {
        match self {
            StateVarsStateContext::B(context) => context,
            _ => vstd::pervasive::unreached(),
        }
    }

    /// The state that this is the context of.
    pub open spec fn state(&self) -> StateVarsState {
        match self {
            StateVarsStateContext::Init => StateVarsState::Init,
            StateVarsStateContext::A(_) => StateVarsState::A,
            StateVarsStateContext::B(_) => StateVarsState::B,
        }
    }
}

impl StateVarsStateContext {
    /// The variables of the current state, by name.
    pub open spec fn bindings(&self) -> Map<Seq<char>, ValueView> {
        match self {
            StateVarsStateContext::Init => Map::empty(),
            StateVarsStateContext::A(context) => Map::empty().insert(
                "x"@,
                ValueView::Int(context.state_vars.x as int),
            ),
            StateVarsStateContext::B(context) => Map::empty().insert(
                "y"@,
                ValueView::Int(context.state_vars.y as int),
            ).insert("z"@, ValueView::Int(context.state_vars.z as int)),
        }
    }
}

impl Environment for StateVarsStateContext {
    fn is_empty(&self) -> (b: bool)
        ensures
            b == (self is Init),
    {
        match self {
            StateVarsStateContext::Init => true,
            _ => false,
        }
    }

    fn lookup(&self, name: &str) -> (found: Option<Value>)
        ensures
            found.is_some() == self.bindings().contains_key(name@),
            found matches Some(v) ==> self.bindings()[name@] == v@,
    {
        proof {
            reveal_strlit("x");
            reveal_strlit("y");
            reveal_strlit("z");
            assert("y"@[0] != "z"@[0]);
        }
        match self {
            StateVarsStateContext::Init => None,
            StateVarsStateContext::A(context) => {
                if same_text(name, "x") {
                    Some(Value::Int(context.state_vars.x as i64))
                } else {
                    None
                }
            },
            StateVarsStateContext::B(context) => {
                if same_text(name, "y") {
                    Some(Value::Int(context.state_vars.y as i64))
                } else if same_text(name, "z") {
                    Some(Value::Int(context.state_vars.z as i64))
                } else {
                    None
                }
            },
        }
    }
}

/// The machine.
#[derive(Copy, Clone, Debug)]
pub struct StateVars {
    pub state: StateVarsState,
    pub state_context: StateVarsStateContext,
}

impl StateVars {
    /// The context is that of the current state.
    pub open spec fn wf(&self) -> bool {
        self.state_context.state() == self.state
    }

    /// The machine after its first state, `Init`, was entered: it is in
    /// state `A`, with `x` at 0.
    pub fn new() -> (machine: StateVars)
        ensures
            machine.wf(),
            machine.state == StateVarsState::A,
            machine.state_context == fresh_a(),
    {
        let mut machine = StateVars {
            state: StateVarsState::Init,
            state_context: StateVarsStateContext::Init,
        };
        machine.transition_to_a();
        machine
    }

    /// The machine itself: the current state and its variables.
    pub fn state(&self) -> (info: &StateVars)
        ensures
            *info == *self,
    {
        self
    }

    /// The variables of the current state.
    pub fn variables(&self) -> (environment: &StateVarsStateContext)
        ensures
            *environment == self.state_context,
    {
        &self.state_context
    }

    fn transition_to_a(&mut self)
        ensures
            final(self).state == StateVarsState::A,
            final(self).state_context == fresh_a(),
    {
        self.state = StateVarsState::A;
        self.state_context = StateVarsStateContext::A(
            AStateContext { state_vars: AStateVars { x: 0 } },
        );
    }

    fn transition_to_b(&mut self)
        ensures
            final(self).state == StateVarsState::B,
            final(self).state_context == fresh_b(),
    {
        self.state = StateVarsState::B;
        self.state_context = StateVarsStateContext::B(
            BStateContext { state_vars: BStateVars { y: 10, z: 100 } },
        );
    }

    /// The event `X`: counts `x` up in `A`; from `B`, a transition to `A`,
    /// which makes `x` anew.
    pub fn x(&mut self)
        requires
            old(self).wf(),
            old(self).state_context matches StateVarsStateContext::A(c) ==> c.state_vars.x
                < u32::MAX,
        ensures
            final(self).wf(),
            match old(self).state_context {
                StateVarsStateContext::Init => *final(self) == *old(self),
                StateVarsStateContext::A(c) => final(self).state_context
                    == StateVarsStateContext::A(
                    AStateContext { state_vars: AStateVars { x: (c.state_vars.x + 1) as u32 } },
                ),
                StateVarsStateContext::B(_) => final(self).state_context == fresh_a(),
            },
    {
        match self.state_context {
            StateVarsStateContext::Init => {},
            StateVarsStateContext::A(context) => {
                self.state_context = StateVarsStateContext::A(
                    AStateContext { state_vars: AStateVars { x: context.state_vars.x + 1 } },
                );
            },
            StateVarsStateContext::B(_) => self.transition_to_a(),
        }
    }

    /// The event `Y`: counts `y` up in `B`; from `A`, a transition to `B`,
    /// which makes `y` and `z` anew.
    pub fn y(&mut self)
        requires
            old(self).wf(),
            old(self).state_context matches StateVarsStateContext::B(c) ==> c.state_vars.y
                < u32::MAX,
        ensures
            final(self).wf(),
            match old(self).state_context {
                StateVarsStateContext::Init => *final(self) == *old(self),
                StateVarsStateContext::A(_) => final(self).state_context == fresh_b(),
                StateVarsStateContext::B(c) => final(self).state_context
                    == StateVarsStateContext::B(
                    BStateContext {
                        state_vars: BStateVars {
                            y: (c.state_vars.y + 1) as u32,
                            z: c.state_vars.z,
                        },
                    },
                ),
            },
    {
        match self.state_context {
            StateVarsStateContext::Init => {},
            StateVarsStateContext::A(_) => self.transition_to_b(),
            StateVarsStateContext::B(context) => {
                self.state_context = StateVarsStateContext::B(
                    BStateContext {
                        state_vars: BStateVars {
                            y: context.state_vars.y + 1,
                            z: context.state_vars.z,
                        },
                    },
                );
            },
        }
    }

    /// The event `Z`: counts `z` up in `B`; from `A`, a transition to `B`,
    /// which makes `y` and `z` anew.
    pub fn z(&mut self)
        requires
            old(self).wf(),
            old(self).state_context matches StateVarsStateContext::B(c) ==> c.state_vars.z
                < u32::MAX,
        ensures
            final(self).wf(),
            match old(self).state_context {
                StateVarsStateContext::Init => *final(self) == *old(self),
                StateVarsStateContext::A(_) => final(self).state_context == fresh_b(),
                StateVarsStateContext::B(c) => final(self).state_context
                    == StateVarsStateContext::B(
                    BStateContext {
                        state_vars: BStateVars {
                            y: c.state_vars.y,
                            z: (c.state_vars.z + 1) as u32,
                        },
                    },
                ),
            },
    {
        match self.state_context {
            StateVarsStateContext::Init => {},
            StateVarsStateContext::A(_) => self.transition_to_b(),
            StateVarsStateContext::B(context) => {
                self.state_context = StateVarsStateContext::B(
                    BStateContext {
                        state_vars: BStateVars {
                            y: context.state_vars.y,
                            z: context.state_vars.z + 1,
                        },
                    },
                );
            },
        }
    }
}

} // verus!
