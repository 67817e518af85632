//! The symbol table of a system: its states and events by name.

use crate::ast::{
    EventHandlerNode, InterfaceMethodNode, MessageType, ParameterNode, StateNode, SystemNode,
};
use crate::scopes::handler_position;
use crate::text::same_text;
use vstd::prelude::*;

verus! {

/// A declared parameter of a state or an event.
#[derive(Debug)]
pub struct ParameterSymbol {
    pub name: std::string::String,
    pub param_type_opt: Option<std::string::String>,
}

/// A declared state.
#[derive(Debug)]
pub struct StateSymbol<'a> {
    pub name: std::string::String,
    pub params_opt: Option<Vec<ParameterSymbol>>,
    /// The declaration in the tree.
    pub state_node: &'a StateNode,
}

/// A declared event: a message of the interface, or the enter or exit event
/// of one state, whose message is the state's name, a colon and the symbol
/// of the event.
#[derive(Debug)]
pub struct EventSymbol {
    pub msg: std::string::String,
    pub params_opt: Option<Vec<ParameterSymbol>>,
}

/// The symbol table.
#[derive(Debug)]
pub struct Arcanum<'a> {
    pub states: Vec<StateSymbol<'a>>,
    pub events: Vec<EventSymbol>,
    pub serializable: bool,
}

/// The position of the first state named `name`, from `from` on.
pub open spec fn state_position(states: Seq<StateSymbol>, name: Seq<char>, from: int) -> Option<int>
    decreases states.len() - from,
{
    if from < 0 || from >= states.len() {
        None
    } else if states[from].name@ == name {
        Some(from)
    } else {
        state_position(states, name, from + 1)
    }
}

/// The position of the first event with the message `msg`, from `from` on.
pub open spec fn event_position(events: Seq<EventSymbol>, msg: Seq<char>, from: int) -> Option<int>
    decreases events.len() - from,
{
    if from < 0 || from >= events.len() {
        None
    } else if events[from].msg@ == msg {
        Some(from)
    } else {
        event_position(events, msg, from + 1)
    }
}

impl<'a> Arcanum<'a> {
    /// The state named `name`: the first that was declared under that name.
    pub open spec fn state_named(&self, name: Seq<char>) -> Option<StateSymbol<'a>> {
        match state_position(self.states@, name, 0) {
            Some(i) => Some(self.states@[i]),
            None => None,
        }
    }

    /// The event with the message `msg`.
    pub open spec fn event_named(&self, msg: Seq<char>) -> Option<EventSymbol> {
        match event_position(self.events@, msg, 0) {
            Some(i) => Some(self.events@[i]),
            None => None,
        }
    }

    /// The state named `name`.
    pub fn get_state(&self, name: &str) -> (found: Option<&StateSymbol<'a>>)
        ensures
            found.is_some() == self.state_named(name@).is_some(),
            found matches Some(s) ==> self.state_named(name@) == Some(*s),
    {
        let mut i: usize = 0;
        while i < self.states.len()
            invariant
                i <= self.states@.len(),
                state_position(self.states@, name@, 0) == state_position(
                    self.states@,
                    name@,
                    i as int,
                ),
            decreases self.states@.len() - i,
        {
            if same_text(self.states[i].name.as_str(), name) {
                return Some(&self.states[i]);
            }
            i += 1;
        }
        None
    }

    /// The event with the message `msg`.
    pub fn get_event(&self, msg: &str) -> (found: Option<&EventSymbol>)
        ensures
            found.is_some() == self.event_named(msg@).is_some(),
            found matches Some(e) ==> self.event_named(msg@) == Some(*e),
    {
        let mut i: usize = 0;
        while i < self.events.len()
            invariant
                i <= self.events@.len(),
                event_position(self.events@, msg@, 0) == event_position(
                    self.events@,
                    msg@,
                    i as int,
                ),
            decreases self.events@.len() - i,
        {
            if same_text(self.events[i].msg.as_str(), msg) {
                return Some(&self.events[i]);
            }
            i += 1;
        }
        None
    }

    /// Whether the system asked for serialization.
    pub fn is_serializable(&self) -> (b: bool)
        ensures
            b == self.serializable,
    {
        self.serializable
    }
}

/// A parameter as contracts see it: its name and its type as written.
pub type ParameterView = (Seq<char>, Option<Seq<char>>);

/// An event as contracts see it: its message and its parameters.
pub type EventView = (Seq<char>, Option<Seq<ParameterView>>);

impl View for ParameterSymbol {
    type V = ParameterView;

    open spec fn view(&self) -> ParameterView {
        (
            self.name@,
            match self.param_type_opt {
                Some(t) => Some(t@),
                None => None,
            },
        )
    }
}

/// The parameters as contracts see them.
pub open spec fn parameter_views(params: Seq<ParameterSymbol>) -> Seq<ParameterView> {
    Seq::new(params.len(), |i: int| params[i]@)
}

/// The declared parameters as a symbol holds them.
pub open spec fn declared_parameters(params: Seq<ParameterNode>) -> Seq<ParameterView> {
    Seq::new(
        params.len(),
        |i: int|
            (
                params[i].param_name@,
                match params[i].param_type_opt {
                    Some(t) => Some(t.type_str@),
                    None => None,
                },
            ),
    )
}

/// The declared parameters, if any are declared.
pub open spec fn optional_parameters(params: Option<Vec<ParameterNode>>) -> Option<
    Seq<ParameterView>,
> {
    match params {
        Some(list) => Some(declared_parameters(list@)),
        None => None,
    }
}

/// The parameters of a symbol, if it has any.
pub open spec fn symbol_parameters(params: Option<Vec<ParameterSymbol>>) -> Option<
    Seq<ParameterView>,
> {
    match params {
        Some(list) => Some(parameter_views(list@)),
        None => None,
    }
}

impl View for EventSymbol {
    type V = EventView;

    open spec fn view(&self) -> EventView {
        (self.msg@, symbol_parameters(self.params_opt))
    }
}

/// The events as contracts see them.
pub open spec fn event_views(events: Seq<EventSymbol>) -> Seq<EventView> {
    Seq::new(events.len(), |i: int| events[i]@)
}

/// The event that a method of the interface sends: its alias, or its name,
/// with the parameters of the method.
pub open spec fn event_of_method(m: InterfaceMethodNode) -> EventView {
    (
        match m.alias {
            Some(alias) => alias.name@,
            None => m.name@,
        },
        optional_parameters(m.params),
    )
}

/// The events of the first `n` methods of the interface.
pub open spec fn events_of_methods(all: Seq<InterfaceMethodNode>, n: nat) -> Seq<EventView>
    decreases n,
{
    if n == 0 || n > all.len() {
        Seq::empty()
    } else {
        events_of_methods(all, (n - 1) as nat).push(event_of_method(all[n - 1]))
    }
}

/// The event `symbol` of a state, if the state handles it: the message is
/// the state's name, a colon and the symbol, and the parameters are those
/// that the first handler of the symbol declares.
pub open spec fn event_of_state(st: StateNode, symbol: Seq<char>) -> Seq<EventView> {
    match handler_position(st.evt_handlers@, symbol, 0) {
        Some(i) => seq![
            (st.name@ + ":"@ + symbol, optional_parameters(st.evt_handlers@[i].params_opt)),
        ],
        None => Seq::empty(),
    }
}

/// The enter and exit events of the first `n` states.
pub open spec fn events_of_states(all: Seq<StateNode>, n: nat) -> Seq<EventView>
    decreases n,
{
    if n == 0 || n > all.len() {
        Seq::empty()
    } else {
        events_of_states(all, (n - 1) as nat) + event_of_state(all[n - 1], ">"@) + event_of_state(
            all[n - 1],
            "<"@,
        )
    }
}

/// The events of a system: those of the interface, then the enter and
/// exit events of the states.
pub open spec fn events_of(node: SystemNode) -> Seq<EventView> {
    (match node.interface_block_node_opt {
        Some(b) => events_of_methods(b.interface_methods@, b.interface_methods@.len()),
        None => Seq::empty(),
    }) + (match node.machine_block_node_opt {
        Some(b) => events_of_states(b.states@, b.states@.len()),
        None => Seq::empty(),
    })
}

/// Whether `symbol` is the symbol of the state `st`.
pub open spec fn symbol_of_state(symbol: StateSymbol, st: StateNode) -> bool {
    symbol.name@ == st.name@ && symbol_parameters(symbol.params_opt) == optional_parameters(
        st.params_opt,
    ) && *symbol.state_node == st
}

/// The symbols of the parameters, if any are declared.
fn parameter_symbols(params: &Option<Vec<ParameterNode>>) -> (symbols: Option<Vec<ParameterSymbol>>)
    ensures
        symbol_parameters(symbols) == optional_parameters(*params),
{
    match params {
        Some(list) => {
            let mut symbols: Vec<ParameterSymbol> = Vec::new();
            let mut i: usize = 0;
            while i < list.len()
                invariant
                    i <= list@.len(),
                    symbols@.len() == i,
                    forall|j: int| 0 <= j < i ==> symbols@[j]@ == declared_parameters(list@)[j],
                decreases list@.len() - i,
            {
                let param_type_opt = match &list[i].param_type_opt {
                    Some(t) => Some(t.type_str.clone()),
                    None => None,
                };
                symbols.push(ParameterSymbol { name: list[i].param_name.clone(), param_type_opt });
                i += 1;
            }
            assert(parameter_views(symbols@) =~= declared_parameters(list@));
            Some(symbols)
        },
        None => None,
    }
}

/// The first handler of the message `symbol`.
fn find_handler<'b>(handlers: &'b Vec<EventHandlerNode>, symbol: &str) -> (found: Option<
    &'b EventHandlerNode,
>)
    ensures
        found.is_some() == handler_position(handlers@, symbol@, 0).is_some(),
        found matches Some(h) ==> *h == handlers@[handler_position(handlers@, symbol@, 0)->0],
{
    let mut i: usize = 0;
    while i < handlers.len()
        invariant
            i <= handlers@.len(),
            handler_position(handlers@, symbol@, 0) == handler_position(
                handlers@,
                symbol@,
                i as int,
            ),
        decreases handlers@.len() - i,
    {
        let hit = match &handlers[i].msg_t {
            MessageType::CustomMessage { message_node } => same_text(
                message_node.name.as_str(),
                symbol,
            ),
            MessageType::AnyMessage { .. } => false,
        };
        if hit {
            return Some(&handlers[i]);
        }
        i += 1;
    }
    None
}

impl<'a> Arcanum<'a> {
    /// Adds the event `symbol` of `st`, if the state handles it.
    fn add_state_event(events: &mut Vec<EventSymbol>, st: &StateNode, symbol: &str)
        ensures
            event_views(final(events)@) == event_views(old(events)@) + event_of_state(
                *st,
                symbol@,
            ),
    {
        match find_handler(&st.evt_handlers, symbol) {
            Some(h) => {
                let mut msg = st.name.clone();
                msg.append(":");
                msg.append(symbol);
                let ghost before = events@;
                let event = EventSymbol { msg, params_opt: parameter_symbols(&h.params_opt) };
                events.push(event);
                assert(event_views(events@) =~= event_views(before) + event_of_state(
                    *st,
                    symbol@,
                ));
            },
            None => {
                assert(event_views(events@) =~= event_views(old(events)@) + event_of_state(
                    *st,
                    symbol@,
                ));
            },
        }
    }

    /// The symbol table of `node`: its states in the order of the machine
    /// block, and its events, those of the interface first.
    pub fn new(node: &'a SystemNode, serializable: bool) -> (arcanum: Arcanum<'a>)
        ensures
            arcanum.serializable == serializable,
            event_views(arcanum.events@) == events_of(*node),
            match node.machine_block_node_opt {
                Some(b) => arcanum.states@.len() == b.states@.len() && forall|i: int|
                    0 <= i < b.states@.len() ==> symbol_of_state(
                        #[trigger] arcanum.states@[i],
                        b.states@[i],
                    ),
                None => arcanum.states@.len() == 0,
            },
    {
        let mut states: Vec<StateSymbol<'a>> = Vec::new();
        let mut events: Vec<EventSymbol> = Vec::new();
        assert(event_views(events@) =~= Seq::empty());
        match &node.interface_block_node_opt {
            Some(b) => {
                let mut i: usize = 0;
                while i < b.interface_methods.len()
                    invariant
                        i <= b.interface_methods@.len(),
                        event_views(events@) == events_of_methods(b.interface_methods@, i as nat),
                    decreases b.interface_methods@.len() - i,
                {
                    let m = &b.interface_methods[i];
                    let msg = match &m.alias {
                        Some(alias) => alias.name.clone(),
                        None => m.name.clone(),
                    };
                    let ghost before = events@;
                    events.push(EventSymbol { msg, params_opt: parameter_symbols(&m.params) });
                    assert(event_views(events@) =~= event_views(before).push(event_of_method(*m)));
                    i += 1;
                }
            },
            None => {},
        }
        let ghost from_methods = event_views(events@);
        match &node.machine_block_node_opt {
            Some(b) => {
                let mut i: usize = 0;
                assert(event_views(events@) =~= from_methods + events_of_states(b.states@, 0));
                while i < b.states.len()
                    invariant
                        i <= b.states@.len(),
                        states@.len() == i,
                        forall|j: int|
                            0 <= j < i ==> symbol_of_state(#[trigger] states@[j], b.states@[j]),
                        event_views(events@) == from_methods + events_of_states(
                            b.states@,
                            i as nat,
                        ),
                    decreases b.states@.len() - i,
                {
                    let st = &b.states[i];
                    states.push(
                        StateSymbol {
                            name: st.name.clone(),
                            params_opt: parameter_symbols(&st.params_opt),
                            state_node: st,
                        },
                    );
                    let ghost before = event_views(events@);
                    Self::add_state_event(&mut events, st, ">");
                    Self::add_state_event(&mut events, st, "<");
                    assert(event_views(events@) =~= from_methods + events_of_states(
                        b.states@,
                        (i + 1) as nat,
                    ));
                    i += 1;
                }
            },
            None => {
                assert(event_views(events@) =~= from_methods + Seq::empty());
            },
        }
        Arcanum { states, events, serializable }
    }
}

} // verus!
