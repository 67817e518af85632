//! What a generated machine exposes while it runs: values, environments of
//! named values, and the record of its state changes.

use crate::text::same_text;
use vstd::prelude::*;

verus! {

/// A value of a running machine.
#[derive(Debug)]
pub enum Value {
    Null,
    Bool(bool),
    Int(i64),
    /// A number with a fractional part, as its decimal numeral.
    Decimal(std::string::String),
    Text(std::string::String),
}

/// A value as contracts see it.
pub ghost enum ValueView {
    Null,
    Bool(bool),
    Int(int),
    Decimal(Seq<char>),
    Text(Seq<char>),
}

impl View for Value {
    type V = ValueView;

    open spec fn view(&self) -> ValueView {
        match self {
            Value::Null => ValueView::Null,
            Value::Bool(b) => ValueView::Bool(*b),
            Value::Int(n) => ValueView::Int(*n as int),
            Value::Decimal(text) => ValueView::Decimal(text@),
            Value::Text(text) => ValueView::Text(text@),
        }
    }
}

impl Value {
    /// A copy of this value.
    pub fn duplicate(&self) -> (copy: Value)
        ensures
            copy@ == self@,
    {
        match self {
            Value::Null => Value::Null,
            Value::Bool(b) => Value::Bool(*b),
            Value::Int(n) => Value::Int(*n),
            Value::Decimal(text) => Value::Decimal(text.clone()),
            Value::Text(text) => Value::Text(text.clone()),
        }
    }

    /// Whether the two values are the same.
    pub fn same(&self, other: &Value) -> (b: bool)
        ensures
            b == (self@ == other@),
    {
        match (self, other) {
            (Value::Null, Value::Null) => true,
            (Value::Bool(a), Value::Bool(b)) => *a == *b,
            (Value::Int(a), Value::Int(b)) => *a == *b,
            (Value::Decimal(a), Value::Decimal(b)) => *a == *b,
            (Value::Text(a), Value::Text(b)) => *a == *b,
            _ => false,
        }
    }

    /// The truth value, if this is one.
    pub fn as_bool(&self) -> (found: Option<bool>)
        ensures
            found == (match self@ {
                ValueView::Bool(b) => Some(b),
                _ => None,
            }),
    {
        match self {
            Value::Bool(b) => Some(*b),
            _ => None,
        }
    }

    /// The integer, if this is one.
    pub fn as_int(&self) -> (found: Option<i64>)
        ensures
            match self@ {
                ValueView::Int(n) => found == Some(n as i64) && found->0 == n,
                _ => found is None,
            },
    {
        match self {
            Value::Int(n) => Some(*n),
            _ => None,
        }
    }
}

/// A set of named values: the variables or parameters of one scope.
///
/// Generated machines implement this for their own contexts, so the trait
/// promises nothing of an implementation; the implementations in this
/// library state what they return.
pub trait Environment {
    /// Whether this is the environment of a scope without variables.
    fn is_empty(&self) -> bool {
        false
    }

    /// The value bound to `name`, if there is one.
    fn lookup(&self, name: &str) -> Option<Value>;
}

/// The environment of a scope that has no variables.
#[derive(Debug, Clone, Copy)]
pub struct EmptyEnvironment {}

impl Environment for EmptyEnvironment {
    fn is_empty(&self) -> (b: bool)
        ensures
            b,
    {
        true
    }

    fn lookup(&self, name: &str) -> (found: Option<Value>)
        ensures
            found is None,
    {
        None
    }
}

/// The value that the entries from `from` on bind to `name`: that of the
/// first entry with that name.
pub open spec fn first_bound(
    entries: Seq<(Seq<char>, ValueView)>,
    name: Seq<char>,
    from: int,
) -> Option<ValueView>
    decreases entries.len() - from,
{
    if from < 0 || from >= entries.len() {
        None
    } else if entries[from].0 == name {
        Some(entries[from].1)
    } else {
        first_bound(entries, name, from + 1)
    }
}

/// The entries as contracts see them.
pub open spec fn entry_views(entries: Seq<(std::string::String, Value)>) -> Seq<
    (Seq<char>, ValueView),
> {
    Seq::new(entries.len(), |i: int| (entries[i].0@, entries[i].1@))
}

/// Named values in the order in which they were declared.
#[derive(Debug)]
pub struct Bindings {
    pub entries: Vec<(std::string::String, Value)>,
}

impl View for Bindings {
    type V = Seq<(Seq<char>, ValueView)>;

    open spec fn view(&self) -> Seq<(Seq<char>, ValueView)> {
        entry_views(self.entries@)
    }
}

impl Bindings {
    /// No binding at all.
    pub fn new() -> (bindings: Bindings)
        ensures
            bindings@ == Seq::<(Seq<char>, ValueView)>::empty(),
    {
        let bindings = Bindings { entries: Vec::new() };
        assert(bindings@ =~= Seq::empty());
        bindings
    }

    /// The number of bindings.
    pub fn len(&self) -> (n: usize)
        ensures
            n == self@.len(),
    {
        self.entries.len()
    }

    /// Adds a binding after those that are there.
    pub fn declare(&mut self, name: &str, value: Value)
        ensures
            final(self)@ == old(self)@.push((name@, value@)),
    {
        let ghost before = self.entries@;
        let owned = name.to_owned();
        self.entries.push((owned, value));
        assert(self@ =~= entry_views(before).push((name@, value@)));
    }

    /// The position of the first binding of `name`.
    pub fn position(&self, name: &str) -> (found: Option<usize>)
        ensures
            match found {
                Some(i) => i < self@.len() && self@[i as int].0 == name@ && first_bound(
                    self@,
                    name@,
                    0,
                ) == Some(self@[i as int].1) && forall|j: int|
                    0 <= j < i ==> self@[j].0 != name@,
                None => first_bound(self@, name@, 0) is None && forall|j: int|
                    0 <= j < self@.len() ==> self@[j].0 != name@,
            },
    {
        let mut i: usize = 0;
        while i < self.entries.len()
            invariant
                i <= self.entries@.len(),
                first_bound(self@, name@, 0) == first_bound(self@, name@, i as int),
                forall|j: int| 0 <= j < i ==> self@[j].0 != name@,
            decreases self.entries@.len() - i,
        {
            if same_text(self.entries[i].0.as_str(), name) {
                return Some(i);
            }
            i += 1;
        }
        None
    }

    /// The value of the first binding of `name`.
    pub fn get(&self, name: &str) -> (found: Option<Value>)
        ensures
            found.is_some() == first_bound(self@, name@, 0).is_some(),
            found matches Some(v) ==> first_bound(self@, name@, 0) == Some(v@),
    {
        match self.position(name) {
            Some(i) => Some(self.entries[i].1.duplicate()),
            None => None,
        }
    }

    /// Gives the first binding of `name` the value `value`; returns whether
    /// there is such a binding.
    pub fn assign(&mut self, name: &str, value: Value) -> (found: bool)
        ensures
            found == first_bound(old(self)@, name@, 0).is_some(),
            !found ==> final(self)@ == old(self)@,
            found ==> exists|i: int|
                0 <= i < old(self)@.len() && old(self)@[i].0 == name@ && (forall|j: int|
                    0 <= j < i ==> old(self)@[j].0 != name@) && final(self)@ == old(self)@.update(
                    i,
                    (name@, value@),
                ),
    {
        match self.position(name) {
            Some(i) => {
                let ghost before = self.entries@;
                let owned = name.to_owned();
                self.entries[i] = (owned, value);
                assert(self@ =~= entry_views(before).update(i as int, (name@, value@)));
                true
            },
            None => false,
        }
    }

    /// A copy of these bindings.
    pub fn duplicate(&self) -> (copy: Bindings)
        ensures
            copy@ == self@,
    {
        let mut copy = Bindings { entries: Vec::new() };
        let mut i: usize = 0;
        while i < self.entries.len()
            invariant
                i <= self.entries@.len(),
                copy@ =~= self@.take(i as int),
            decreases self.entries@.len() - i,
        {
            let ghost before = copy.entries@;
            copy.entries.push((self.entries[i].0.clone(), self.entries[i].1.duplicate()));
            assert(copy@ =~= entry_views(before).push(self@[i as int]));
            i += 1;
        }
        assert(self@.take(self@.len() as int) =~= self@);
        copy
    }
}

impl Environment for Bindings {
    fn is_empty(&self) -> (b: bool)
        ensures
            b == (self@.len() == 0),
    {
        self.entries.len() == 0
    }

    fn lookup(&self, name: &str) -> (found: Option<Value>)
        ensures
            found.is_some() == first_bound(self@, name@, 0).is_some(),
            found matches Some(v) ==> first_bound(self@, name@, 0) == Some(v@),
    {
        self.get(name)
    }
}

/// The five scopes of a machine at a place in a handler, as one
/// environment: a name has the value that the innermost scope binds it to.
#[derive(Debug)]
pub struct ScopedEnvironment {
    pub domain: Bindings,
    pub state_params: Bindings,
    pub state_vars: Bindings,
    pub handler_params: Bindings,
    pub handler_vars: Bindings,
}

impl ScopedEnvironment {
    /// The value of `name`: that of the first of the scopes that binds it,
    /// in the order handler variables, handler parameters, state
    /// variables, state parameters, domain.
    pub open spec fn value_of(&self, name: Seq<char>) -> Option<ValueView> {
        if first_bound(self.handler_vars@, name, 0).is_some() {
            first_bound(self.handler_vars@, name, 0)
        } else if first_bound(self.handler_params@, name, 0).is_some() {
            first_bound(self.handler_params@, name, 0)
        } else if first_bound(self.state_vars@, name, 0).is_some() {
            first_bound(self.state_vars@, name, 0)
        } else if first_bound(self.state_params@, name, 0).is_some() {
            first_bound(self.state_params@, name, 0)
        } else {
            first_bound(self.domain@, name, 0)
        }
    }
}

impl Environment for ScopedEnvironment {
    fn is_empty(&self) -> (b: bool)
        ensures
            b == (self.domain@.len() == 0 && self.state_params@.len() == 0
                && self.state_vars@.len() == 0 && self.handler_params@.len() == 0
                && self.handler_vars@.len() == 0),
    {
        self.domain.len() == 0 && self.state_params.len() == 0 && self.state_vars.len() == 0
            && self.handler_params.len() == 0 && self.handler_vars.len() == 0
    }

    fn lookup(&self, name: &str) -> (found: Option<Value>)
        ensures
            found.is_some() == self.value_of(name@).is_some(),
            found matches Some(v) ==> self.value_of(name@) == Some(v@),
    {
        match self.handler_vars.get(name) {
            Some(v) => Some(v),
            None => match self.handler_params.get(name) {
                Some(v) => Some(v),
                None => match self.state_vars.get(name) {
                    Some(v) => Some(v),
                    None => match self.state_params.get(name) {
                        Some(v) => Some(v),
                        None => self.domain.get(name),
                    },
                },
            },
        }
    }
}

/// An environment without bindings reports every name absent.
pub proof fn lemma_empty_scopes_bind_nothing(env: ScopedEnvironment, name: Seq<char>)
    requires
        env.domain@.len() == 0,
        env.state_params@.len() == 0,
        env.state_vars@.len() == 0,
        env.handler_params@.len() == 0,
        env.handler_vars@.len() == 0,
    ensures
        env.value_of(name) is None,
{
}

/// The two ways in which a machine changes its state.
#[derive(Debug, Clone, Copy, PartialEq, Eq, Structural)]
pub enum TransitionKind {
    /// The dispatcher was reassigned; no event was delivered.
    ChangeState,
    /// The old state was exited and the new one entered.
    Transition,
}

/// One change of state, as observers are told of it.
#[derive(Debug)]
pub struct TransitionInfo {
    pub kind: TransitionKind,
    /// Name of the state that was left.
    pub old_state: std::string::String,
    /// Name of the state that is current now.
    pub new_state: std::string::String,
}

/// A change of state as contracts see it.
pub ghost struct TransitionView {
    pub kind: TransitionKind,
    pub old_state: Seq<char>,
    pub new_state: Seq<char>,
}

impl View for TransitionInfo {
    type V = TransitionView;

    open spec fn view(&self) -> TransitionView {
        TransitionView { kind: self.kind, old_state: self.old_state@, new_state: self.new_state@ }
    }
}

impl TransitionInfo {
    /// A copy of this record.
    pub fn duplicate(&self) -> (copy: TransitionInfo)
        ensures
            copy@ == self@,
    {
        TransitionInfo {
            kind: self.kind,
            old_state: self.old_state.clone(),
            new_state: self.new_state.clone(),
        }
    }
}

/// What one observer is owed: the observer, by the order in which it
/// registered, and the change of state to tell it of.
#[derive(Debug)]
pub struct Notice {
    pub observer: usize,
    pub info: TransitionInfo,
}

impl View for Notice {
    type V = (nat, TransitionView);

    open spec fn view(&self) -> (nat, TransitionView) {
        (self.observer as nat, self.info@)
    }
}

/// The notices as contracts see them.
pub open spec fn notice_views(notices: Seq<Notice>) -> Seq<(nat, TransitionView)> {
    Seq::new(notices.len(), |i: int| notices[i]@)
}

/// The notices that one change of state owes to `observers` observers: one
/// each, in the order of registration.
pub open spec fn notices_for(observers: nat, info: TransitionView) -> Seq<(nat, TransitionView)> {
    Seq::new(observers, |i: int| (i as nat, info))
}

/// The observers of a machine's state changes and what they are owed.
///
/// The machine records a notice for every observer after each change of
/// state; whoever holds the observers' code takes the notices and calls it.
#[derive(Debug)]
pub struct CallbackManager {
    observers: usize,
    pending: Vec<Notice>,
}

impl CallbackManager {
    /// The number of observers that have registered.
    pub closed spec fn observers(&self) -> nat {
        self.observers as nat
    }

    /// The notices that were recorded and not taken yet, oldest first.
    pub closed spec fn pending(&self) -> Seq<(nat, TransitionView)> {
        notice_views(self.pending@)
    }

    /// A manager without observers.
    pub fn new() -> (manager: CallbackManager)
        ensures
            manager.observers() == 0,
            manager.pending() == Seq::<(nat, TransitionView)>::empty(),
    {
        let manager = CallbackManager { observers: 0, pending: Vec::new() };
        assert(manager.pending() =~= Seq::empty());
        manager
    }

    /// Registers one more observer and returns its number. Nothing is
    /// registered, and `None` returned, when the count would not fit.
    pub fn add_transition_callback(&mut self) -> (id: Option<usize>)
        ensures
            final(self).pending() == old(self).pending(),
            old(self).observers() < usize::MAX ==> id == Some(old(self).observers() as usize)
                && final(self).observers() == old(self).observers() + 1,
            old(self).observers() >= usize::MAX ==> id is None && final(self).observers() == old(
                self,
            ).observers(),
    {
        if self.observers == usize::MAX {
            None
        } else {
            let id = self.observers;
            self.observers += 1;
            Some(id)
        }
    }

    /// Records, for every observer in the order of registration, a notice
    /// of the change of state `info`.
    pub fn call_transition_callbacks(&mut self, info: &TransitionInfo)
        ensures
            final(self).observers() == old(self).observers(),
            final(self).pending() == old(self).pending() + notices_for(
                old(self).observers(),
                info@,
            ),
    {
        let mut i: usize = 0;
        assert(self.pending() =~= old(self).pending() + notices_for(0, info@));
        while i < self.observers
            invariant
                i <= self.observers,
                self.observers == old(self).observers,
                self.pending() == old(self).pending() + notices_for(i as nat, info@),
            decreases self.observers - i,
        {
            let ghost before = self.pending@;
            self.pending.push(Notice { observer: i, info: info.duplicate() });
            assert(notice_views(self.pending@) =~= notice_views(before).push((i as nat, info@)));
            assert(notices_for((i + 1) as nat, info@) =~= notices_for(i as nat, info@).push(
                (i as nat, info@),
            ));
            i += 1;
        }
    }

    /// Takes the notices that are pending, oldest first.
    pub fn take_notices(&mut self) -> (notices: Vec<Notice>)
        ensures
            notice_views(notices@) == old(self).pending(),
            final(self).pending() == Seq::<(nat, TransitionView)>::empty(),
            final(self).observers() == old(self).observers(),
    {
        let mut taken: Vec<Notice> = Vec::new();
        std::mem::swap(&mut self.pending, &mut taken);
        assert(self.pending() =~= Seq::empty());
        taken
    }
}

/// The bag that records a machine: the tag of its state first, then its
/// domain variables in the order of their declaration.
pub open spec fn serialized(state: Seq<char>, domain: Seq<(Seq<char>, ValueView)>) -> Seq<
    (Seq<char>, ValueView),
> {
    seq![("state"@, ValueView::Text(state))] + domain
}

/// The first position at which `names` holds `name`.
pub open spec fn first_named(names: Seq<Seq<char>>, name: Seq<char>, from: int) -> Option<int>
    decreases names.len() - from,
{
    if from < 0 || from >= names.len() {
        None
    } else if names[from] == name {
        Some(from)
    } else {
        first_named(names, name, from + 1)
    }
}

/// What a bag records, for a machine whose states are `states`: the
/// position of the state whose tag stands first in the bag, and the domain
/// variables behind it. A bag that does not begin with the tag of one of
/// the states records nothing.
pub open spec fn deserialized(bag: Seq<(Seq<char>, ValueView)>, states: Seq<Seq<char>>) -> Option<
    (int, Seq<(Seq<char>, ValueView)>),
> {
    if bag.len() > 0 && bag[0].0 == "state"@ {
        match bag[0].1 {
            ValueView::Text(tag) => match first_named(states, tag, 0) {
                Some(i) => Some((i, bag.subrange(1, bag.len() as int))),
                None => None,
            },
            _ => None,
        }
    } else {
        None
    }
}

/// The names of a vector as contracts see them.
pub open spec fn name_views(names: Seq<std::string::String>) -> Seq<Seq<char>> {
    Seq::new(names.len(), |i: int| names[i]@)
}

/// Records the state named `state` and the domain variables in a bag.
pub fn serialize(state: &str, domain: &Bindings) -> (bag: Bindings)
    ensures
        bag@ == serialized(state@, domain@),
{
    let mut bag = Bindings::new();
    bag.declare("state", Value::Text(state.to_owned()));
    let mut i: usize = 0;
    assert(bag@ =~= serialized(state@, domain@.take(0)));
    while i < domain.entries.len()
        invariant
            i <= domain.entries@.len(),
            bag@ == serialized(state@, domain@.take(i as int)),
        decreases domain.entries@.len() - i,
    {
        bag.declare(domain.entries[i].0.as_str(), domain.entries[i].1.duplicate());
        assert(domain@.take(i + 1) =~= domain@.take(i as int).push(domain@[i as int]));
        assert(serialized(state@, domain@.take(i + 1)) =~= serialized(
            state@,
            domain@.take(i as int),
        ).push(domain@[i as int]));
        i += 1;
    }
    assert(domain@.take(domain@.len() as int) =~= domain@);
    bag
}

/// Reads back what [`serialize`] recorded: the position in `states` of the
/// recorded state, and the domain variables.
pub fn deserialize(bag: &Bindings, states: &Vec<std::string::String>) -> (found: Option<
    (usize, Bindings),
>)
    ensures
        found.is_some() == deserialized(bag@, name_views(states@)).is_some(),
        found matches Some(read) ==> deserialized(bag@, name_views(states@)) == Some(
            (read.0 as int, read.1@),
        ),
{
    if bag.entries.len() == 0 || !same_text(bag.entries[0].0.as_str(), "state") {
        return None;
    }
    let tag = match &bag.entries[0].1 {
        Value::Text(tag) => tag,
        _ => {
            return None;
        },
    };
    let mut at: usize = 0;
    while at < states.len()
        invariant
            at <= states@.len(),
            bag.entries@.len() > 0,
            bag@[0] == ("state"@, ValueView::Text(tag@)),
            first_named(name_views(states@), tag@, 0) == first_named(
                name_views(states@),
                tag@,
                at as int,
            ),
        decreases states@.len() - at,
    {
        if same_text(states[at].as_str(), tag.as_str()) {
            let mut domain = Bindings::new();
            let mut i: usize = 1;
            assert(domain@ =~= bag@.subrange(1, 1));
            while i < bag.entries.len()
                invariant
                    1 <= i <= bag.entries@.len(),
                    domain@ == bag@.subrange(1, i as int),
                decreases bag.entries@.len() - i,
            {
                domain.declare(bag.entries[i].0.as_str(), bag.entries[i].1.duplicate());
                assert(bag@.subrange(1, i + 1) =~= bag@.subrange(1, i as int).push(bag@[i as int]));
                i += 1;
            }
            return Some((at, domain));
        }
        at += 1;
    }
    None
}

/// Reading back what was recorded gives the state and the domain variables
/// that were recorded: for every state that is among the machine's states,
/// whatever the domain holds.
pub proof fn lemma_serialization_round_trip(
    states: Seq<Seq<char>>,
    at: int,
    domain: Seq<(Seq<char>, ValueView)>,
)
    requires
        0 <= at < states.len(),
        forall|j: int| 0 <= j < at ==> states[j] != states[at],
    ensures
        deserialized(serialized(states[at], domain), states) == Some((at, domain)),
{
    let bag = serialized(states[at], domain);
    assert(bag[0] == ("state"@, ValueView::Text(states[at])));
    assert(bag.subrange(1, bag.len() as int) =~= domain);
    lemma_first_named(states, states[at], 0, at);
}

/// The first position of a name is the one before which it does not occur.
pub proof fn lemma_first_named(names: Seq<Seq<char>>, name: Seq<char>, from: int, at: int)
    requires
        0 <= from <= at < names.len(),
        names[at] == name,
        forall|j: int| from <= j < at ==> names[j] != name,
    ensures
        first_named(names, name, from) == Some(at),
    decreases at - from,
{
    if from < at {
        lemma_first_named(names, name, from + 1, at);
    }
}

} // verus!
