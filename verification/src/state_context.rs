//! A machine that uses what a state context carries together: state
//! parameters, state variables, event parameters, handler variables and
//! return values.
//!
//! ```text
//! $Init        var x = 0
//!   |>|            -> (3, 5) $Foo
//!   |LogState|     log("x", x)
//!   |Inc|          x = x + 1  log("x", x)  ^(x)
//! $Foo         var x = 0
//!   |>| [a, b]     log("a", a)  log("b", b)  x = a * b  log("x", x)
//!   |<| [c]        log("c", c)  x = x + c  log("x", x)
//!   |LogState|     log("x", x)
//!   |Inc|          x = x + 1  log("x", x)  ^(x)
//!   |Next| [arg]   var tmp = arg * 10   (10) -> (tmp) $Bar(x)
//!   |Change| [arg] var tmp = x + arg    ->> $Bar(tmp)
//! $Bar [y]     var z = 0
//!   |>| [a]        log("a", a)  log("y", y)  z = a + y  log("z", z)
//!   |LogState|     log("y", y)  log("z", z)
//!   |Inc|          z = z + 1  log("z", z)  ^(z)
//!   |Change| [arg] var tmp = y + z + arg  log("tmp", tmp)  ->> $Init
//! ```
//!
//! The arguments of a transition are evaluated before the exit handler
//! runs: `Next` passes to `Bar` the `x` that `Foo` had when the event came.

use crate::runtime::name_views;
use crate::text::{signed_decimal, signed_decimal_of};
use vstd::prelude::*;

verus! {

/// The states of the machine.
#[derive(Copy, Clone, Debug, PartialEq, Eq, Structural)]
pub enum StateContextSmState {
    Init,
    Foo,
    Bar,
}

/// The context of the current state: its parameters and variables.
#[derive(Copy, Clone, Debug, PartialEq, Eq, Structural)]
pub enum StateContext {
    Init { x: i32 },
    Foo { x: i32 },
    Bar { y: i32, z: i32 },
}

impl StateContext {
    /// The state that this is the context of.
    pub open spec fn state(&self) -> StateContextSmState {
        match self {
            StateContext::Init { .. } => StateContextSmState::Init,
            StateContext::Foo { .. } => StateContextSmState::Foo,
            StateContext::Bar { .. } => StateContextSmState::Bar,
        }
    }
}

/// Whether `v` is a value of the machine's integers.
pub open spec fn fits(v: int) -> bool {
    i32::MIN <= v <= i32::MAX
}

/// The line that `log` writes.
pub open spec fn tape_line(name: Seq<char>, val: int) -> Seq<char> {
    name + "="@ + signed_decimal(val)
}

/// The machine.
#[derive(Debug)]
pub struct StateContextSm {
    pub state: StateContextSmState,
    pub state_context: StateContext,
    pub tape: Vec<std::string::String>,
}

impl StateContextSm {
    /// The context is that of the current state.
    pub open spec fn wf(&self) -> bool {
        self.state_context.state() == self.state
    }

    /// The lines of the tape.
    pub open spec fn lines(&self) -> Seq<Seq<char>> {
        name_views(self.tape@)
    }

    /// The action `log`: writes `name=val` to the tape.
    pub fn log(&mut self, name: std::string::String, val: i32)
        ensures
            final(self).state == old(self).state,
            final(self).state_context == old(self).state_context,
            final(self).lines() == old(self).lines().push(tape_line(name@, val as int)),
    {
        let mut line = name;
        line.append("=");
        line.append(signed_decimal_of(val).as_str());
        let ghost before = self.tape@;
        self.tape.push(line);
        assert(name_views(self.tape@) =~= name_views(before).push(line@));
    }

    fn log_named(&mut self, name: &str, val: i32)
        ensures
            final(self).state == old(self).state,
            final(self).state_context == old(self).state_context,
            final(self).lines() == old(self).lines().push(tape_line(name@, val as int)),
    {
        self.log(std::string::String::from_str(name), val);
    }

    /// The machine after its first state was entered: `Init` goes on to
    /// `Foo` with the enter arguments 3 and 5.
    pub fn new() -> (machine: StateContextSm)
        ensures
            machine.wf(),
            machine.state_context == (StateContext::Foo { x: 15 }),
            machine.lines() == seq![
                tape_line("a"@, 3),
                tape_line("b"@, 5),
                tape_line("x"@, 15),
            ],
    {
        let mut machine = StateContextSm {
            state: StateContextSmState::Init,
            state_context: StateContext::Init { x: 0 },
            tape: Vec::new(),
        };
        assert(machine.lines() =~= Seq::empty());
        machine.enter_foo(3, 5);
        assert(machine.lines() =~= seq![
            tape_line("a"@, 3),
            tape_line("b"@, 5),
            tape_line("x"@, 15),
        ]);
        machine
    }

    /// Makes the context of `Foo` and delivers its enter event.
    fn enter_foo(&mut self, a: i32, b: i32)
        requires
            fits(a * b),
        ensures
            final(self).wf(),
            final(self).state_context == (StateContext::Foo { x: (a * b) as i32 }),
            final(self).lines() == old(self).lines().push(tape_line("a"@, a as int)).push(
                tape_line("b"@, b as int),
            ).push(tape_line("x"@, a * b)),
    {
        self.state = StateContextSmState::Foo;
        self.log_named("a", a);
        self.log_named("b", b);
        let x = a * b;
        self.state_context = StateContext::Foo { x };
        self.log_named("x", x);
    }

    /// Makes the context of `Bar` from the state argument `y` and delivers
    /// its enter event with the argument `a`.
    fn enter_bar(&mut self, a: i32, y: i32)
        requires
            fits(a + y),
        ensures
            final(self).wf(),
            final(self).state_context == (StateContext::Bar { y, z: (a + y) as i32 }),
            final(self).lines() == old(self).lines().push(tape_line("a"@, a as int)).push(
                tape_line("y"@, y as int),
            ).push(tape_line("z"@, a + y)),
    {
        self.state = StateContextSmState::Bar;
        self.log_named("a", a);
        self.log_named("y", y);
        let z = a + y;
        self.state_context = StateContext::Bar { y, z };
        self.log_named("z", z);
    }

    /// Whether the current state can count up.
    pub open spec fn can_inc(&self) -> bool {
        match self.state_context {
            StateContext::Init { x } => fits(x + 1),
            StateContext::Foo { x } => fits(x + 1),
            StateContext::Bar { y, z } => fits(z + 1),
        }
    }

    /// The event `Inc`: counts the variable of the current state up by one,
    /// logs it and returns it.
    pub fn inc(&mut self) -> (count: i32)
        requires
            old(self).wf(),
            old(self).can_inc(),
        ensures
            final(self).wf(),
            match old(self).state_context {
                StateContext::Init { x } => count == x + 1 && final(self).state_context == (
                StateContext::Init { x: count }) && final(self).lines() == old(self).lines().push(
                    tape_line("x"@, x + 1),
                ),
                StateContext::Foo { x } => count == x + 1 && final(self).state_context == (
                StateContext::Foo { x: count }) && final(self).lines() == old(self).lines().push(
                    tape_line("x"@, x + 1),
                ),
                StateContext::Bar { y, z } => count == z + 1 && final(self).state_context == (
                StateContext::Bar { y, z: count }) && final(self).lines() == old(
                    self,
                ).lines().push(tape_line("z"@, z + 1)),
            },
    {
        match self.state_context {
            StateContext::Init { x } => {
                let count = x + 1;
                self.state_context = StateContext::Init { x: count };
                self.log_named("x", count);
                count
            },
            StateContext::Foo { x } => {
                let count = x + 1;
                self.state_context = StateContext::Foo { x: count };
                self.log_named("x", count);
                count
            },
            StateContext::Bar { y, z } => {
                let count = z + 1;
                self.state_context = StateContext::Bar { y, z: count };
                self.log_named("z", count);
                count
            },
        }
    }

    /// The event `LogState`: logs the parameters and variables of the
    /// current state.
    pub fn log_state(&mut self)
        ensures
            final(self).state == old(self).state,
            final(self).state_context == old(self).state_context,
            final(self).lines() == (match old(self).state_context {
                StateContext::Init { x } => old(self).lines().push(tape_line("x"@, x as int)),
                StateContext::Foo { x } => old(self).lines().push(tape_line("x"@, x as int)),
                StateContext::Bar { y, z } => old(self).lines().push(
                    tape_line("y"@, y as int),
                ).push(tape_line("z"@, z as int)),
            }),
    {
        match self.state_context {
            StateContext::Init { x } => self.log_named("x", x),
            StateContext::Foo { x } => self.log_named("x", x),
            StateContext::Bar { y, z } => {
                self.log_named("y", y);
                self.log_named("z", z);
            },
        }
    }

    /// Whether `Next` can compute what it passes on.
    pub open spec fn can_next(&self, arg: i32) -> bool {
        self.state_context matches StateContext::Foo { x } ==> fits(arg * 10) && fits(x + 10)
            && fits(arg * 10 + x)
    }

    /// The event `Next`, which only `Foo` handles: a transition to `Bar`
    /// with the exit argument 10, the enter argument `arg * 10` and, as
    /// state argument, the `x` of before the exit handler.
    pub fn next(&mut self, arg: i32)
        requires
            old(self).wf(),
            old(self).can_next(arg),
        ensures
            final(self).wf(),
            match old(self).state_context {
                StateContext::Foo { x } => final(self).state_context == (StateContext::Bar {
                    y: x,
                    z: (arg * 10 + x) as i32,
                }) && final(self).lines() == old(self).lines().push(tape_line("c"@, 10)).push(
                    tape_line("x"@, x + 10),
                ).push(tape_line("a"@, arg * 10)).push(tape_line("y"@, x as int)).push(
                    tape_line("z"@, arg * 10 + x),
                ),
                _ => final(self).state_context == old(self).state_context && final(self).lines()
                    == old(self).lines(),
            },
    {
        match self.state_context {
            StateContext::Foo { x } => {
                let tmp = arg * 10;
                let y = x;
                self.exit_foo(10);
                self.enter_bar(tmp, y);
            },
            _ => {},
        }
    }

    /// Delivers the exit event of `Foo`.
    fn exit_foo(&mut self, c: i32)
        requires
            old(self).state_context matches StateContext::Foo { x } && fits(x + c),
            old(self).wf(),
        ensures
            final(self).wf(),
            final(self).state_context == (StateContext::Foo {
                x: (old(self).state_context->Foo_x + c) as i32,
            }),
            final(self).lines() == old(self).lines().push(tape_line("c"@, c as int)).push(
                tape_line("x"@, old(self).state_context->Foo_x + c),
            ),
    {
        match self.state_context {
            StateContext::Foo { x } => {
                self.log_named("c", c);
                let sum = x + c;
                self.state_context = StateContext::Foo { x: sum };
                self.log_named("x", sum);
            },
            _ => {},
        }
    }

    /// Whether `Change` can compute what it passes on.
    pub open spec fn can_change(&self, arg: i32) -> bool {
        match self.state_context {
            StateContext::Init { x } => true,
            StateContext::Foo { x } => fits(x + arg),
            StateContext::Bar { y, z } => fits(y + z) && fits(y + z + arg),
        }
    }

    /// The event `Change`: from `Foo`, a change of state to `Bar` with the
    /// state argument `x + arg`; from `Bar`, one to `Init`, after logging
    /// `y + z + arg`. No exit or enter event is delivered; the variables of
    /// the new state are what their initializers say.
    pub fn change(&mut self, arg: i32)
        requires
            old(self).wf(),
            old(self).can_change(arg),
        ensures
            final(self).wf(),
            match old(self).state_context {
                StateContext::Init { x } => final(self).state_context == old(self).state_context
                    && final(self).lines() == old(self).lines(),
                StateContext::Foo { x } => final(self).state_context == (StateContext::Bar {
                    y: (x + arg) as i32,
                    z: 0,
                }) && final(self).lines() == old(self).lines(),
                StateContext::Bar { y, z } => final(self).state_context == (StateContext::Init {
                    x: 0,
                }) && final(self).lines() == old(self).lines().push(
                    tape_line("tmp"@, y + z + arg),
                ),
            },
    {
        match self.state_context {
            StateContext::Init { x } => {},
            StateContext::Foo { x } => {
                let tmp = x + arg;
                self.state = StateContextSmState::Bar;
                self.state_context = StateContext::Bar { y: tmp, z: 0 };
            },
            StateContext::Bar { y, z } => {
                let tmp = y + z + arg;
                self.log_named("tmp", tmp);
                self.state = StateContextSmState::Init;
                self.state_context = StateContext::Init { x: 0 };
            },
        }
    }
}

} // verus!
