//! Resolution: every reference to a variable gets the tag of the scope
//! that its name resolves to, and what the tree uses without declaring it,
//! or with the wrong number of arguments, is reported.

use crate::ast::{
    ActionCallExprNode, BoolTestConditionalBranchNode, CallChainLiteralExprNode,
    CallChainLiteralNodeType, DeclOrStmtType, EventHandlerNode, ExprListNode, ExprStmtType,
    ExprType, IdentifierDeclScope, InterfaceMethodCallExprNode, MessageType,
    NumberMatchTestMatchBranchNode, ParameterNode, StateContextNode, StateContextType, StateNode,
    StatementType, StringMatchTestMatchBranchNode, SystemNode, TerminatorExpr, TestType,
    TransitionStatementNode, ChangeStateStatementNode, VariableDeclNode, VariableNode,
};
use crate::lexicon::diagnostic;
use crate::scopes::{
    Declarations, Findings, Place, Scopes, Signature, StateSignature, count, declared_bool,
    declared_by, declared_decl_or_stmt, declared_number, declared_stmts, declared_string, declares,
    found_action, found_args, found_block, found_bool, found_calls, found_chain, found_change,
    found_decl_or_stmt, found_end, found_exit, found_expr, found_expr_stmt, found_handler,
    found_handlers, found_link, found_list, found_method, found_number, found_optional,
    found_state, found_states, found_stmts, found_string, found_system, found_target,
    found_transition, found_var, found_var_decls, handler_arity, handler_params, handler_position,
    message_position, names_of, optional_param_names, optional_var_names, param_names,
    place_of_domain, place_of_handler, place_of_state, scope_of, signature_of_state,
    signature_position, signs_action, signs_method, signs_state, tagged_args, tagged_block,
    tagged_bool, tagged_calls, tagged_chain, tagged_decl_or_stmt, tagged_end, tagged_expr,
    tagged_expr_stmt, tagged_handler, tagged_handlers, tagged_link, tagged_list, tagged_number,
    tagged_optional, tagged_state, tagged_states, tagged_stmts, tagged_string, tagged_system,
    tagged_target, tagged_var, tagged_var_decl, tagged_var_decls, undeclared, var_names,
};
use crate::resolution_laws::{lemma_resolution_is_complete, resolved_system};
use crate::text::{append_decimal, same_text};
use vstd::prelude::*;

verus! {

/// Whether `names` holds `name`.
pub fn contains(names: &Vec<std::string::String>, name: &str) -> (found: bool)
    ensures
        found == declares(names_of(names@), name@),
{
    let mut i: usize = 0;
    while i < names.len()
        invariant
            i <= names@.len(),
            forall|j: int| 0 <= j < i ==> names_of(names@)[j] != name@,
        decreases names@.len() - i,
    {
        if same_text(names[i].as_str(), name) {
            assert(names_of(names@)[i as int] == name@);
            return true;
        }
        i += 1;
    }
    false
}

/// The scope that `name` resolves to where the five scopes declare the
/// given names.
pub fn resolve_scope(
    domain: &Vec<std::string::String>,
    state_params: &Vec<std::string::String>,
    state_vars: &Vec<std::string::String>,
    handler_params: &Vec<std::string::String>,
    handler_vars: &Vec<std::string::String>,
    name: &str,
) -> (scope: IdentifierDeclScope)
    ensures
        scope == scope_of(
            Scopes {
                domain: names_of(domain@),
                state_params: names_of(state_params@),
                state_vars: names_of(state_vars@),
                handler_params: names_of(handler_params@),
                handler_vars: names_of(handler_vars@),
            },
            name@,
        ),
{
    if contains(handler_vars, name) {
        IdentifierDeclScope::EventHandlerVar
    } else if contains(handler_params, name) {
        IdentifierDeclScope::EventHandlerParam
    } else if contains(state_vars, name) {
        IdentifierDeclScope::StateVar
    } else if contains(state_params, name) {
        IdentifierDeclScope::StateParam
    } else if contains(domain, name) {
        IdentifierDeclScope::DomainBlock
    } else {
        IdentifierDeclScope::Unresolved
    }
}

/// One line of the diagnostics.
fn diagnostic_line(line: usize, message: &str) -> (text: std::string::String)
    ensures
        text@ == diagnostic(line as nat, message@),
{
    let mut text = std::string::String::from_str("Line ");
    append_decimal(&mut text, line);
    text.append(" : Error: ");
    text.append(message);
    text.append("\n");
    text
}

fn find_signature(all: &Vec<Signature>, name: &str) -> (found: Option<usize>)
    ensures
        found.is_some() == signature_position(all@, name@, 0).is_some(),
        found matches Some(i) ==> i < all@.len() && signature_position(all@, name@, 0) == Some(
            i as int,
        ),
{
    let mut i: usize = 0;
    while i < all.len()
        invariant
            i <= all@.len(),
            signature_position(all@, name@, 0) == signature_position(all@, name@, i as int),
        decreases all@.len() - i,
    {
        if same_text(all[i].name.as_str(), name) {
            return Some(i);
        }
        i += 1;
    }
    None
}

fn find_message(all: &Vec<Signature>, message: &str) -> (found: Option<usize>)
    ensures
        found.is_some() == message_position(all@, message@, 0).is_some(),
        found matches Some(i) ==> i < all@.len() && message_position(all@, message@, 0) == Some(
            i as int,
        ),
{
    let mut i: usize = 0;
    while i < all.len()
        invariant
            i <= all@.len(),
            message_position(all@, message@, 0) == message_position(all@, message@, i as int),
        decreases all@.len() - i,
    {
        if same_text(all[i].message.as_str(), message) {
            return Some(i);
        }
        i += 1;
    }
    None
}

fn find_state(all: &Vec<StateSignature>, name: &str) -> (found: Option<usize>)
    ensures
        found.is_some() == signature_of_state(all@, name@, 0).is_some(),
        found matches Some(i) ==> i < all@.len() && signature_of_state(all@, name@, 0) == Some(
            i as int,
        ),
{
    let mut i: usize = 0;
    while i < all.len()
        invariant
            i <= all@.len(),
            signature_of_state(all@, name@, 0) == signature_of_state(all@, name@, i as int),
        decreases all@.len() - i,
    {
        if same_text(all[i].name.as_str(), name) {
            return Some(i);
        }
        i += 1;
    }
    None
}

/// A copy of the names.
fn copy_names(names: &Vec<std::string::String>) -> (copy: Vec<std::string::String>)
    ensures
        names_of(copy@) == names_of(names@),
{
    let mut copy: Vec<std::string::String> = Vec::new();
    let mut i: usize = 0;
    while i < names.len()
        invariant
            i <= names@.len(),
            copy@.len() == i,
            forall|j: int| 0 <= j < i ==> copy@[j]@ == names@[j]@,
        decreases names@.len() - i,
    {
        copy.push(names[i].clone());
        i += 1;
    }
    assert(names_of(copy@) =~= names_of(names@));
    copy
}

/// The names of the parameters, if there are any.
fn names_of_params(params: &Option<Vec<ParameterNode>>) -> (names: Vec<std::string::String>)
    ensures
        names_of(names@) == optional_param_names(*params),
{
    let mut names: Vec<std::string::String> = Vec::new();
    match params {
        Some(list) => {
            let mut i: usize = 0;
            while i < list.len()
                invariant
                    i <= list@.len(),
                    names@.len() == i,
                    forall|j: int| 0 <= j < i ==> names@[j]@ == list@[j].param_name@,
                decreases list@.len() - i,
            {
                names.push(list[i].param_name.clone());
                i += 1;
            }
            assert(names_of(names@) =~= param_names(list@));
        },
        None => {
            assert(names_of(names@) =~= Seq::empty());
        },
    }
    names
}

/// The names of the variables, if there are any.
fn names_of_vars(vars: &Option<Vec<VariableDeclNode>>) -> (names: Vec<std::string::String>)
    ensures
        names_of(names@) == optional_var_names(*vars),
{
    let mut names: Vec<std::string::String> = Vec::new();
    match vars {
        Some(list) => {
            let mut i: usize = 0;
            while i < list.len()
                invariant
                    i <= list@.len(),
                    names@.len() == i,
                    forall|j: int| 0 <= j < i ==> names@[j]@ == list@[j].name@,
                decreases list@.len() - i,
            {
                names.push(list[i].name.clone());
                i += 1;
            }
            assert(names_of(names@) =~= var_names(list@));
        },
        None => {
            assert(names_of(names@) =~= Seq::empty());
        },
    }
    names
}

/// The number of parameters of the handler of `message`, if the state has
/// one.
fn arity_of_handler(st: &StateNode, message: &str) -> (arity: Option<usize>)
    ensures
        arity == handler_arity(*st, message@),
{
    let mut i: usize = 0;
    while i < st.evt_handlers.len()
        invariant
            i <= st.evt_handlers@.len(),
            handler_position(st.evt_handlers@, message@, 0) == handler_position(
                st.evt_handlers@,
                message@,
                i as int,
            ),
        decreases st.evt_handlers@.len() - i,
    {
        let hit = match &st.evt_handlers[i].msg_t {
            MessageType::CustomMessage { message_node } => same_text(
                message_node.name.as_str(),
                message,
            ),
            MessageType::AnyMessage { .. } => false,
        };
        if hit {
            return Some(
                match &st.evt_handlers[i].params_opt {
                    Some(list) => list.len(),
                    None => 0,
                },
            );
        }
        i += 1;
    }
    None
}

impl Declarations {
    /// What `node` declares.
    pub fn collect(node: &SystemNode) -> (d: Declarations)
        ensures
            declared_by(d, *node),
    {
        let mut domain: Vec<std::string::String> = Vec::new();
        let mut actions: Vec<Signature> = Vec::new();
        let mut methods: Vec<Signature> = Vec::new();
        let mut states: Vec<StateSignature> = Vec::new();
        match &node.domain_block_node_opt {
            Some(b) => {
                let mut i: usize = 0;
                while i < b.member_variables.len()
                    invariant
                        i <= b.member_variables@.len(),
                        domain@.len() == i,
                        forall|j: int| 0 <= j < i ==> domain@[j]@ == b.member_variables@[j].name@,
                    decreases b.member_variables@.len() - i,
                {
                    domain.push(b.member_variables[i].name.clone());
                    i += 1;
                }
                assert(names_of(domain@) =~= var_names(b.member_variables@));
            },
            None => {
                assert(names_of(domain@) =~= Seq::empty());
            },
        }
        match &node.actions_block_node_opt {
            Some(b) => {
                let mut i: usize = 0;
                while i < b.actions.len()
                    invariant
                        i <= b.actions@.len(),
                        actions@.len() == i,
                        forall|j: int|
                            0 <= j < i ==> signs_action(#[trigger] actions@[j], b.actions@[j]),
                    decreases b.actions@.len() - i,
                {
                    actions.push(
                        Signature {
                            name: b.actions[i].name.clone(),
                            message: b.actions[i].name.clone(),
                            params: names_of_params(&b.actions[i].params),
                        },
                    );
                    i += 1;
                }
            },
            None => {},
        }
        match &node.interface_block_node_opt {
            Some(b) => {
                let mut i: usize = 0;
                while i < b.interface_methods.len()
                    invariant
                        i <= b.interface_methods@.len(),
                        methods@.len() == i,
                        forall|j: int|
                            0 <= j < i ==> signs_method(
                                #[trigger] methods@[j],
                                b.interface_methods@[j],
                            ),
                    decreases b.interface_methods@.len() - i,
                {
                    let message = match &b.interface_methods[i].alias {
                        Some(alias) => alias.name.clone(),
                        None => b.interface_methods[i].name.clone(),
                    };
                    methods.push(
                        Signature {
                            name: b.interface_methods[i].name.clone(),
                            message,
                            params: names_of_params(&b.interface_methods[i].params),
                        },
                    );
                    i += 1;
                }
            },
            None => {},
        }
        match &node.machine_block_node_opt {
            Some(b) => {
                let mut i: usize = 0;
                while i < b.states.len()
                    invariant
                        i <= b.states@.len(),
                        states@.len() == i,
                        forall|j: int| 0 <= j < i ==> signs_state(#[trigger] states@[j], b.states@[j]),
                    decreases b.states@.len() - i,
                {
                    states.push(
                        StateSignature {
                            name: b.states[i].name.clone(),
                            params: names_of_params(&b.states[i].params_opt),
                            vars: names_of_vars(&b.states[i].vars_opt),
                            enter: arity_of_handler(&b.states[i], ">"),
                            exit: arity_of_handler(&b.states[i], "<"),
                        },
                    );
                    i += 1;
                }
            },
            None => {},
        }
        Declarations { domain, actions, methods, states }
    }
}

/// The number of arguments in a list that may be absent.
fn count_args(list: &Option<ExprListNode>) -> (n: usize)
    ensures
        n == count(*list),
{
    match list {
        Some(l) => l.exprs_t.len(),
        None => 0,
    }
}

/// What is said of a name that is used and not declared.
fn undeclared_text(kind: &str, name: &str) -> (text: std::string::String)
    ensures
        text@ == undeclared(kind@, name@),
{
    let mut text = std::string::String::from_str("Undeclared ");
    text.append(kind);
    text.append(" '");
    text.append(name);
    text.append("'.");
    text
}

/// A resolution in progress.
struct Resolver {
    declarations: Declarations,
    state: std::string::String,
    state_params: Vec<std::string::String>,
    state_vars: Vec<std::string::String>,
    handler_params: Vec<std::string::String>,
    locals: Vec<std::string::String>,
    diagnostics: Vec<std::string::String>,
    warnings: Vec<std::string::String>,
}

impl Resolver {
    /// Where the resolution stands.
    spec fn place(&self) -> Place {
        Place {
            declarations: self.declarations,
            state: self.state@,
            state_params: names_of(self.state_params@),
            state_vars: names_of(self.state_vars@),
            handler_params: names_of(self.handler_params@),
        }
    }

    /// What the resolution has found.
    spec fn findings(&self) -> Findings {
        Findings {
            diagnostics: names_of(self.diagnostics@),
            warnings: names_of(self.warnings@),
        }
    }

    /// The variables that the handler has declared so far.
    spec fn locals(&self) -> Seq<Seq<char>> {
        names_of(self.locals@)
    }

    /// This resolution is at the place of `pre`, with `f` found and
    /// `locals` declared.
    spec fn stands(&self, pre: &Resolver, f: Findings, locals: Seq<Seq<char>>) -> bool {
        self.place() == pre.place() && self.findings() == f && self.locals() == locals
    }

    /// As [`Self::stands`], with the variables that `pre` had declared.
    spec fn at(&self, pre: &Resolver, f: Findings) -> bool {
        self.stands(pre, f, pre.locals())
    }

    fn report(&mut self, line: usize, message: &str)
        ensures
            final(self).at(old(self), old(self).findings().report(line as nat, message@)),
    {
        let ghost before = self.diagnostics@;
        let text = diagnostic_line(line, message);
        self.diagnostics.push(text);
        assert(names_of(self.diagnostics@) =~= names_of(before).push(
            diagnostic(line as nat, message@),
        ));
    }

    fn warn(&mut self, message: std::string::String)
        ensures
            final(self).at(old(self), old(self).findings().warn(message@)),
    {
        let ghost before = self.warnings@;
        self.warnings.push(message);
        assert(names_of(self.warnings@) =~= names_of(before).push(message@));
    }

    fn arity(&mut self, line: usize, kind: &str, name: &str, expected: usize, actual: usize)
        ensures
            final(self).at(
                old(self),
                old(self).findings().arity(
                    line as nat,
                    kind@,
                    name@,
                    expected as nat,
                    actual as nat,
                ),
            ),
    {
        if expected != actual {
            let mut text = std::string::String::from_str(kind);
            text.append(" '");
            text.append(name);
            text.append("' expects ");
            append_decimal(&mut text, expected);
            text.append(" arguments but ");
            append_decimal(&mut text, actual);
            text.append(" were supplied.");
            self.report(line, text.as_str());
        }
    }

    /// The scope that `name` resolves to here.
    fn scope(&self, name: &str) -> (scope: IdentifierDeclScope)
        ensures
            scope == scope_of(self.place().scopes(self.locals()), name@),
    {
        resolve_scope(
            &self.declarations.domain,
            &self.state_params,
            &self.state_vars,
            &self.handler_params,
            &self.locals,
            name,
        )
    }

    /// Tags a reference with the scope of its name.
    fn resolve_var(&mut self, v: &mut VariableNode)
        ensures
            final(self).at(
                old(self),
                found_var(old(self).findings(), old(self).place(), old(self).locals(), *old(v)),
            ),
            tagged_var(old(self).place(), old(self).locals(), *old(v), *final(v)),
    {
        match v.scope {
            IdentifierDeclScope::Unresolved => {
                let tag = self.scope(v.id_node.name.lexeme.as_str());
                v.scope = tag;
                match tag {
                    IdentifierDeclScope::Unresolved => {
                        let mut text = std::string::String::from_str("Unresolved identifier '");
                        text.append(v.id_node.name.lexeme.as_str());
                        text.append("'.");
                        self.report(v.id_node.line, text.as_str());
                    },
                    _ => {},
                }
            },
            _ => {
                let mut text = std::string::String::from_str("Identifier '");
                text.append(v.id_node.name.lexeme.as_str());
                text.append("' is already resolved.");
                self.report(v.id_node.line, text.as_str());
            },
        }
    }

    fn check_action(&mut self, node: &ActionCallExprNode)
        ensures
            final(self).at(
                old(self),
                found_action(old(self).findings(), old(self).place(), *node),
            ),
    {
        let name = node.identifier.name.lexeme.as_str();
        match find_signature(&self.declarations.actions, name) {
            Some(i) => {
                let expected = self.declarations.actions[i].params.len();
                self.arity(
                    node.identifier.line,
                    "Action",
                    name,
                    expected,
                    node.call_expr_list.exprs_t.len(),
                );
            },
            None => {
                let text = undeclared_text("action", name);
                self.report(node.identifier.line, text.as_str());
            },
        }
    }

    fn check_method(&mut self, node: &InterfaceMethodCallExprNode)
        ensures
            final(self).at(
                old(self),
                found_method(old(self).findings(), old(self).place(), *node),
            ),
    {
        let name = node.identifier.name.lexeme.as_str();
        match find_signature(&self.declarations.methods, name) {
            Some(i) => {
                let expected = self.declarations.methods[i].params.len();
                self.arity(
                    node.identifier.line,
                    "Interface method",
                    name,
                    expected,
                    node.call_expr_list.exprs_t.len(),
                );
            },
            None => {
                let text = undeclared_text("interface method", name);
                self.report(node.identifier.line, text.as_str());
            },
        }
    }

    /// Resolves an expression.
    fn resolve_expr(&mut self, e: &mut ExprType)
        ensures
            final(self).at(
                old(self),
                found_expr(old(self).findings(), old(self).place(), old(self).locals(), *old(e)),
            ),
            tagged_expr(old(self).place(), old(self).locals(), *old(e), *final(e)),
        decreases *old(e), 0nat,
    {
        match e {
            ExprType::AssignmentExprT { assignment_expr_node } => {
                self.resolve_expr(&mut assignment_expr_node.l_value_box);
                self.resolve_expr(&mut assignment_expr_node.r_value_box);
            },
            ExprType::ActionCallExprT { action_call_expr_node } => {
                self.check_action(action_call_expr_node);
                self.resolve_list(&mut action_call_expr_node.call_expr_list.exprs_t);
            },
            ExprType::CallChainLiteralExprT { call_chain_expr_node } => {
                self.resolve_chain(&mut call_chain_expr_node.call_chain);
            },
            ExprType::CallExprT { call_expr_node } => {
                self.resolve_list(&mut call_expr_node.call_expr_list.exprs_t);
            },
            ExprType::CallExprListT { call_expr_list_node } => {
                self.resolve_list(&mut call_expr_list_node.exprs_t);
            },
            ExprType::ExprListT { expr_list_node } => {
                self.resolve_list(&mut expr_list_node.exprs_t);
            },
            ExprType::VariableExprT { var_node } => {
                self.resolve_var(var_node);
            },
            ExprType::LiteralExprT { .. } => {},
            ExprType::StateStackOperationExprT { .. } => {},
            ExprType::FrameEventExprT { .. } => {},
            ExprType::UnaryExprT { unary_expr_node } => {
                self.resolve_expr(&mut unary_expr_node.right);
            },
            ExprType::BinaryExprT { binary_expr_node } => {
                self.resolve_expr(&mut binary_expr_node.left);
                self.resolve_expr(&mut binary_expr_node.right);
            },
        }
    }

    /// Resolves the expressions of a list.
    fn resolve_list(&mut self, exprs: &mut Vec<ExprType>)
        ensures
            final(self).at(
                old(self),
                found_list(
                    old(self).findings(),
                    old(self).place(),
                    old(self).locals(),
                    old(exprs)@,
                    old(exprs)@.len(),
                ),
            ),
            tagged_list(old(self).place(), old(self).locals(), old(exprs)@, final(exprs)@),
        decreases old(exprs)@, 1nat,
    {
        let mut i: usize = 0;
        while i < exprs.len()
            invariant
                i <= exprs@.len(),
                exprs@.len() == old(exprs)@.len(),
                self.at(
                    old(self),
                    found_list(
                        old(self).findings(),
                        old(self).place(),
                        old(self).locals(),
                        old(exprs)@,
                        i as nat,
                    ),
                ),
                forall|j: int|
                    0 <= j < i ==> tagged_expr(
                        old(self).place(),
                        old(self).locals(),
                        old(exprs)@[j],
                        #[trigger] exprs@[j],
                    ),
                forall|j: int| i <= j < exprs@.len() ==> exprs@[j] == old(exprs)@[j],
            decreases exprs@.len() - i,
        {
            self.resolve_expr(&mut exprs[i]);
            i += 1;
        }
    }

    /// Resolves one link of a chain.
    fn resolve_link(&mut self, node: &mut CallChainLiteralNodeType)
        ensures
            final(self).at(
                old(self),
                found_link(old(self).findings(), old(self).place(), old(self).locals(), *old(node)),
            ),
            tagged_link(old(self).place(), old(self).locals(), *old(node), *final(node)),
        decreases *old(node), 0nat,
    {
        match node {
            CallChainLiteralNodeType::VariableNodeT { var_node } => {
                self.resolve_var(var_node);
            },
            CallChainLiteralNodeType::IdentifierNodeT { .. } => {},
            CallChainLiteralNodeType::CallT { call } => {
                self.resolve_list(&mut call.call_expr_list.exprs_t);
            },
            CallChainLiteralNodeType::InterfaceMethodCallT { interface_method_call_expr_node } => {
                self.check_method(interface_method_call_expr_node);
                self.resolve_list(&mut interface_method_call_expr_node.call_expr_list.exprs_t);
            },
            CallChainLiteralNodeType::ActionCallT { action_call_expr_node } => {
                self.check_action(action_call_expr_node);
                self.resolve_list(&mut action_call_expr_node.call_expr_list.exprs_t);
            },
        }
    }

    /// Resolves the links of a chain.
    fn resolve_chain(&mut self, links: &mut Vec<CallChainLiteralNodeType>)
        ensures
            final(self).at(
                old(self),
                found_chain(
                    old(self).findings(),
                    old(self).place(),
                    old(self).locals(),
                    old(links)@,
                    old(links)@.len(),
                ),
            ),
            tagged_chain(old(self).place(), old(self).locals(), old(links)@, final(links)@),
        decreases old(links)@, 1nat,
    {
        let mut i: usize = 0;
        while i < links.len()
            invariant
                i <= links@.len(),
                links@.len() == old(links)@.len(),
                self.at(
                    old(self),
                    found_chain(
                        old(self).findings(),
                        old(self).place(),
                        old(self).locals(),
                        old(links)@,
                        i as nat,
                    ),
                ),
                forall|j: int|
                    0 <= j < i ==> tagged_link(
                        old(self).place(),
                        old(self).locals(),
                        old(links)@[j],
                        #[trigger] links@[j],
                    ),
                forall|j: int| i <= j < links@.len() ==> links@[j] == old(links)@[j],
            decreases links@.len() - i,
        {
            self.resolve_link(&mut links[i]);
            i += 1;
        }
    }

    fn resolve_optional(&mut self, e: &mut Option<ExprType>)
        ensures
            final(self).at(
                old(self),
                found_optional(
                    old(self).findings(),
                    old(self).place(),
                    old(self).locals(),
                    *old(e),
                ),
            ),
            tagged_optional(old(self).place(), old(self).locals(), *old(e), *final(e)),
    {
        match e {
            Some(inner) => self.resolve_expr(inner),
            None => {},
        }
    }

    fn resolve_args(&mut self, list: &mut Option<ExprListNode>)
        ensures
            final(self).at(
                old(self),
                found_args(old(self).findings(), old(self).place(), old(self).locals(), *old(list)),
            ),
            tagged_args(old(self).place(), old(self).locals(), *old(list), *final(list)),
    {
        match list {
            Some(l) => self.resolve_list(&mut l.exprs_t),
            None => {},
        }
    }

    fn resolve_end(&mut self, end: &mut Option<TerminatorExpr>)
        ensures
            final(self).at(
                old(self),
                found_end(old(self).findings(), old(self).place(), old(self).locals(), *old(end)),
            ),
            tagged_end(old(self).place(), old(self).locals(), *old(end), *final(end)),
    {
        match end {
            Some(t) => self.resolve_optional(&mut t.return_expr_t_opt),
            None => {},
        }
    }

    /// Resolves the target of a transition or of a change of state.
    fn resolve_target(&mut self, node: &mut StateContextNode, line: usize, entering: bool)
        ensures
            final(self).at(
                old(self),
                found_target(
                    old(self).findings(),
                    old(self).place(),
                    old(self).locals(),
                    *old(node),
                    line as nat,
                    entering,
                ),
            ),
            final(node).state_ref_node == old(node).state_ref_node,
            tagged_args(
                old(self).place(),
                old(self).locals(),
                old(node).enter_args_opt,
                final(node).enter_args_opt,
            ),
            tagged_args(
                old(self).place(),
                old(self).locals(),
                old(node).state_ref_args_opt,
                final(node).state_ref_args_opt,
            ),
    {
        let enter_given = node.enter_args_opt.is_some();
        let enter_count = count_args(&node.enter_args_opt);
        let state_count = count_args(&node.state_ref_args_opt);
        self.resolve_args(&mut node.enter_args_opt);
        self.resolve_args(&mut node.state_ref_args_opt);
        let name = node.state_ref_node.name.as_str();
        match find_state(&self.declarations.states, name) {
            Some(i) => {
                let enter = self.declarations.states[i].enter;
                let params = self.declarations.states[i].params.len();
                if entering && enter_given {
                    match enter {
                        Some(k) => self.arity(
                            line,
                            "Enter event handler of state",
                            name,
                            k,
                            enter_count,
                        ),
                        None => {
                            let mut text = std::string::String::from_str("State ");
                            text.append(name);
                            text.append(
                                " does not have an enter event handler but is being passed parameters in a transition",
                            );
                            self.warn(text);
                        },
                    }
                }
                self.arity(line, "State", name, params, state_count);
            },
            None => {
                let text = undeclared_text("state", name);
                self.report(line, text.as_str());
            },
        }
    }

    /// Resolves a transition.
    fn resolve_transition(&mut self, t: &mut TransitionStatementNode)
        ensures
            final(self).at(
                old(self),
                found_transition(
                    old(self).findings(),
                    old(self).place(),
                    old(self).locals(),
                    *old(t),
                ),
            ),
            final(t).label_opt == old(t).label_opt,
            final(t).line == old(t).line,
            tagged_args(
                old(self).place(),
                old(self).locals(),
                old(t).exit_args_opt,
                final(t).exit_args_opt,
            ),
            tagged_target(
                old(self).place(),
                old(self).locals(),
                old(t).target_state_context_t,
                final(t).target_state_context_t,
            ),
    {
        let ghost before = *t;
        let ghost start = *self;
        self.resolve_args(&mut t.exit_args_opt);
        let ghost mid = *self;
        let line = t.line;
        let given = count_args(&t.exit_args_opt);
        if given > 0 {
            let state = self.state.clone();
            let exit = match find_state(&self.declarations.states, state.as_str()) {
                Some(i) => self.declarations.states[i].exit,
                None => None,
            };
            match exit {
                Some(k) => self.arity(
                    line,
                    "Exit event handler of state",
                    state.as_str(),
                    k,
                    given,
                ),
                None => {
                    let text = undeclared_text("exit event handler of state", state.as_str());
                    self.report(line, text.as_str());
                },
            }
        }
        assert(count(t.exit_args_opt) == count(before.exit_args_opt));
        assert(self.at(&start, found_exit(mid.findings(), start.place(), before)));
        match &mut t.target_state_context_t {
            StateContextType::StateRef { state_context_node } => {
                self.resolve_target(state_context_node, line, true);
            },
            StateContextType::StateStackPop => {},
        }
    }

    /// Resolves a change of state.
    fn resolve_change(&mut self, node: &mut ChangeStateStatementNode)
        ensures
            final(self).at(
                old(self),
                found_change(
                    old(self).findings(),
                    old(self).place(),
                    old(self).locals(),
                    *old(node),
                ),
            ),
            final(node).label_opt == old(node).label_opt,
            final(node).line == old(node).line,
            tagged_target(
                old(self).place(),
                old(self).locals(),
                old(node).state_context_t,
                final(node).state_context_t,
            ),
    {
        let line = node.line;
        match &mut node.state_context_t {
            StateContextType::StateRef { state_context_node } => {
                self.resolve_target(state_context_node, line, false);
            },
            StateContextType::StateStackPop => {
                self.report(line, "Change of state to the state stack is not supported.");
            },
        }
    }

    /// Resolves a statement that is an expression.
    fn resolve_expr_stmt(&mut self, st: &mut ExprStmtType)
        ensures
            final(self).at(
                old(self),
                found_expr_stmt(
                    old(self).findings(),
                    old(self).place(),
                    old(self).locals(),
                    *old(st),
                ),
            ),
            tagged_expr_stmt(old(self).place(), old(self).locals(), *old(st), *final(st)),
    {
        match st {
            ExprStmtType::CallStmtT { call_stmt_node } => {
                self.resolve_list(&mut call_stmt_node.call_expr_node.call_expr_list.exprs_t);
            },
            ExprStmtType::ActionCallStmtT { action_call_stmt_node } => {
                self.check_action(&action_call_stmt_node.action_call_expr_node);
                self.resolve_list(
                    &mut action_call_stmt_node.action_call_expr_node.call_expr_list.exprs_t,
                );
            },
            ExprStmtType::CallChainLiteralStmtT { call_chain_literal_stmt_node } => {
                self.resolve_chain(
                    &mut call_chain_literal_stmt_node.call_chain_literal_expr_node.call_chain,
                );
            },
            ExprStmtType::AssignmentStmtT { assignment_stmt_node } => {
                self.resolve_expr(&mut assignment_stmt_node.assignment_expr_node.l_value_box);
                self.resolve_expr(&mut assignment_stmt_node.assignment_expr_node.r_value_box);
            },
            ExprStmtType::VariableStmtT { variable_stmt_node } => {
                self.resolve_var(&mut variable_stmt_node.var_node);
            },
        }
    }

    /// Resolves a declaration or statement.
    fn resolve_decl_or_stmt(&mut self, d: &mut DeclOrStmtType)
        ensures
            final(self).stands(
                old(self),
                found_decl_or_stmt(
                    old(self).findings(),
                    old(self).place(),
                    old(self).locals(),
                    *old(d),
                ),
                declared_decl_or_stmt(old(self).locals(), *old(d)),
            ),
            tagged_decl_or_stmt(old(self).place(), old(self).locals(), *old(d), *final(d)),
        decreases *old(d), 0nat,
    {
        match d {
            DeclOrStmtType::VarDeclT { var_decl_t } => {
                self.resolve_optional(&mut var_decl_t.initializer_expr_t_opt);
                let ghost before = self.locals@;
                self.locals.push(var_decl_t.name.clone());
                assert(names_of(self.locals@) =~= names_of(before).push(var_decl_t.name@));
            },
            DeclOrStmtType::StmtT { stmt_t } => match stmt_t {
                StatementType::ExpressionStmt { expr_stmt_t } => {
                    self.resolve_expr_stmt(expr_stmt_t);
                },
                StatementType::TransitionStmt { transition_statement } => {
                    self.resolve_transition(transition_statement);
                },
                StatementType::TestStmt { test_stmt_node } => match &mut test_stmt_node.test_t {
                    TestType::BoolTest { bool_test_node } => {
                        self.resolve_bool(&mut bool_test_node.conditional_branch_nodes);
                        match &mut bool_test_node.else_branch_node_opt {
                            Some(e) => self.resolve_block(
                                &mut e.statements,
                                &mut e.branch_terminator_expr_opt,
                            ),
                            None => {},
                        }
                    },
                    TestType::StringMatchTest { string_match_test_node } => {
                        self.resolve_expr(&mut string_match_test_node.expr_t);
                        self.resolve_string(&mut string_match_test_node.match_branch_nodes);
                        match &mut string_match_test_node.else_branch_node_opt {
                            Some(e) => self.resolve_block(
                                &mut e.statements,
                                &mut e.branch_terminator_expr_opt,
                            ),
                            None => {},
                        }
                    },
                    TestType::NumberMatchTest { number_match_test_node } => {
                        self.resolve_expr(&mut number_match_test_node.expr_t);
                        self.resolve_number(&mut number_match_test_node.match_branch_nodes);
                        match &mut number_match_test_node.else_branch_node_opt {
                            Some(e) => self.resolve_block(
                                &mut e.statements,
                                &mut e.branch_terminator_expr_opt,
                            ),
                            None => {},
                        }
                    },
                },
                StatementType::StateStackStmt { .. } => {},
                StatementType::ChangeStateStmt { change_state_stmt } => {
                    self.resolve_change(change_state_stmt);
                },
                StatementType::NoStmt => {},
            },
        }
    }

    /// Resolves declarations and statements in their order.
    fn resolve_stmts(&mut self, all: &mut Vec<DeclOrStmtType>)
        ensures
            final(self).stands(
                old(self),
                found_stmts(
                    old(self).findings(),
                    old(self).place(),
                    old(self).locals(),
                    old(all)@,
                    old(all)@.len(),
                ),
                declared_stmts(old(self).locals(), old(all)@, old(all)@.len()),
            ),
            tagged_stmts(old(self).place(), old(self).locals(), old(all)@, final(all)@),
        decreases old(all)@, 1nat,
    {
        let mut i: usize = 0;
        while i < all.len()
            invariant
                i <= all@.len(),
                all@.len() == old(all)@.len(),
                self.stands(
                    old(self),
                    found_stmts(
                        old(self).findings(),
                        old(self).place(),
                        old(self).locals(),
                        old(all)@,
                        i as nat,
                    ),
                    declared_stmts(old(self).locals(), old(all)@, i as nat),
                ),
                forall|j: int|
                    0 <= j < i ==> tagged_decl_or_stmt(
                        old(self).place(),
                        declared_stmts(old(self).locals(), old(all)@, j as nat),
                        old(all)@[j],
                        #[trigger] all@[j],
                    ),
                forall|j: int| i <= j < all@.len() ==> all@[j] == old(all)@[j],
            decreases all@.len() - i,
        {
            self.resolve_decl_or_stmt(&mut all[i]);
            i += 1;
        }
    }

    /// Resolves the statements of a branch and its end.
    fn resolve_block(&mut self, all: &mut Vec<DeclOrStmtType>, end: &mut Option<TerminatorExpr>)
        ensures
            final(self).stands(
                old(self),
                found_block(
                    old(self).findings(),
                    old(self).place(),
                    old(self).locals(),
                    old(all)@,
                    *old(end),
                ),
                declared_stmts(old(self).locals(), old(all)@, old(all)@.len()),
            ),
            tagged_block(
                old(self).place(),
                old(self).locals(),
                old(all)@,
                final(all)@,
                *old(end),
                *final(end),
            ),
        decreases old(all)@, 2nat,
    {
        self.resolve_stmts(all);
        self.resolve_end(end);
    }

    /// Resolves the branches of a boolean test.
    fn resolve_bool(&mut self, all: &mut Vec<BoolTestConditionalBranchNode>)
        ensures
            final(self).stands(
                old(self),
                found_bool(
                    old(self).findings(),
                    old(self).place(),
                    old(self).locals(),
                    old(all)@,
                    old(all)@.len(),
                ),
                declared_bool(old(self).locals(), old(all)@, old(all)@.len()),
            ),
            tagged_bool(old(self).place(), old(self).locals(), old(all)@, final(all)@),
        decreases old(all)@, 3nat,
    {
        let mut i: usize = 0;
        while i < all.len()
            invariant
                i <= all@.len(),
                all@.len() == old(all)@.len(),
                self.stands(
                    old(self),
                    found_bool(
                        old(self).findings(),
                        old(self).place(),
                        old(self).locals(),
                        old(all)@,
                        i as nat,
                    ),
                    declared_bool(old(self).locals(), old(all)@, i as nat),
                ),
                forall|j: int|
                    0 <= j < i ==> (#[trigger] all@[j]).is_negated == old(all)@[j].is_negated
                        && tagged_expr(
                        old(self).place(),
                        declared_bool(old(self).locals(), old(all)@, j as nat),
                        old(all)@[j].expr_t,
                        all@[j].expr_t,
                    ) && tagged_block(
                        old(self).place(),
                        declared_bool(old(self).locals(), old(all)@, j as nat),
                        old(all)@[j].statements@,
                        all@[j].statements@,
                        old(all)@[j].branch_terminator_expr_opt,
                        all@[j].branch_terminator_expr_opt,
                    ),
                forall|j: int| i <= j < all@.len() ==> all@[j] == old(all)@[j],
            decreases all@.len() - i,
        {
            let branch = &mut all[i];
            self.resolve_expr(&mut branch.expr_t);
            self.resolve_block(&mut branch.statements, &mut branch.branch_terminator_expr_opt);
            i += 1;
        }
    }

    /// Resolves the branches of a string test.
    fn resolve_string(&mut self, all: &mut Vec<StringMatchTestMatchBranchNode>)
        ensures
            final(self).stands(
                old(self),
                found_string(
                    old(self).findings(),
                    old(self).place(),
                    old(self).locals(),
                    old(all)@,
                    old(all)@.len(),
                ),
                declared_string(old(self).locals(), old(all)@, old(all)@.len()),
            ),
            tagged_string(old(self).place(), old(self).locals(), old(all)@, final(all)@),
        decreases old(all)@, 3nat,
    {
        let mut i: usize = 0;
        while i < all.len()
            invariant
                i <= all@.len(),
                all@.len() == old(all)@.len(),
                self.stands(
                    old(self),
                    found_string(
                        old(self).findings(),
                        old(self).place(),
                        old(self).locals(),
                        old(all)@,
                        i as nat,
                    ),
                    declared_string(old(self).locals(), old(all)@, i as nat),
                ),
                forall|j: int|
                    0 <= j < i ==> (#[trigger] all@[j]).string_match_pattern_node == old(
                        all,
                    )@[j].string_match_pattern_node && tagged_block(
                        old(self).place(),
                        declared_string(old(self).locals(), old(all)@, j as nat),
                        old(all)@[j].statements@,
                        all@[j].statements@,
                        old(all)@[j].branch_terminator_expr_opt,
                        all@[j].branch_terminator_expr_opt,
                    ),
                forall|j: int| i <= j < all@.len() ==> all@[j] == old(all)@[j],
            decreases all@.len() - i,
        {
            let branch = &mut all[i];
            self.resolve_block(&mut branch.statements, &mut branch.branch_terminator_expr_opt);
            i += 1;
        }
    }

    /// Resolves the branches of a number test.
    fn resolve_number(&mut self, all: &mut Vec<NumberMatchTestMatchBranchNode>)
        ensures
            final(self).stands(
                old(self),
                found_number(
                    old(self).findings(),
                    old(self).place(),
                    old(self).locals(),
                    old(all)@,
                    old(all)@.len(),
                ),
                declared_number(old(self).locals(), old(all)@, old(all)@.len()),
            ),
            tagged_number(old(self).place(), old(self).locals(), old(all)@, final(all)@),
        decreases old(all)@, 3nat,
    {
        let mut i: usize = 0;
        while i < all.len()
            invariant
                i <= all@.len(),
                all@.len() == old(all)@.len(),
                self.stands(
                    old(self),
                    found_number(
                        old(self).findings(),
                        old(self).place(),
                        old(self).locals(),
                        old(all)@,
                        i as nat,
                    ),
                    declared_number(old(self).locals(), old(all)@, i as nat),
                ),
                forall|j: int|
                    0 <= j < i ==> (#[trigger] all@[j]).number_match_pattern_nodes == old(
                        all,
                    )@[j].number_match_pattern_nodes && tagged_block(
                        old(self).place(),
                        declared_number(old(self).locals(), old(all)@, j as nat),
                        old(all)@[j].statements@,
                        all@[j].statements@,
                        old(all)@[j].branch_terminator_expr_opt,
                        all@[j].branch_terminator_expr_opt,
                    ),
                forall|j: int| i <= j < all@.len() ==> all@[j] == old(all)@[j],
            decreases all@.len() - i,
        {
            let branch = &mut all[i];
            self.resolve_block(&mut branch.statements, &mut branch.branch_terminator_expr_opt);
            i += 1;
        }
    }

    /// Resolves the initializers of the variables of a state or of the
    /// domain.
    fn resolve_var_decls(&mut self, all: &mut Vec<VariableDeclNode>)
        requires
            old(self).locals() == Seq::<Seq<char>>::empty(),
        ensures
            final(self).at(
                old(self),
                found_var_decls(
                    old(self).findings(),
                    old(self).place(),
                    old(all)@,
                    old(all)@.len(),
                ),
            ),
            tagged_var_decls(old(self).place(), old(all)@, final(all)@),
    {
        let mut i: usize = 0;
        while i < all.len()
            invariant
                i <= all@.len(),
                all@.len() == old(all)@.len(),
                old(self).locals() == Seq::<Seq<char>>::empty(),
                self.at(
                    old(self),
                    found_var_decls(old(self).findings(), old(self).place(), old(all)@, i as nat),
                ),
                forall|j: int|
                    0 <= j < i ==> tagged_var_decl(
                        old(self).place(),
                        Seq::empty(),
                        old(all)@[j],
                        #[trigger] all@[j],
                    ),
                forall|j: int| i <= j < all@.len() ==> all@[j] == old(all)@[j],
            decreases all@.len() - i,
        {
            let decl = &mut all[i];
            self.resolve_optional(&mut decl.initializer_expr_t_opt);
            i += 1;
        }
    }

    /// Resolves the calls that a state makes before it looks at the event.
    fn resolve_calls(&mut self, all: &mut Vec<CallChainLiteralExprNode>)
        requires
            old(self).locals() == Seq::<Seq<char>>::empty(),
        ensures
            final(self).at(
                old(self),
                found_calls(old(self).findings(), old(self).place(), old(all)@, old(all)@.len()),
            ),
            tagged_calls(old(self).place(), old(all)@, final(all)@),
    {
        let mut i: usize = 0;
        while i < all.len()
            invariant
                i <= all@.len(),
                all@.len() == old(all)@.len(),
                old(self).locals() == Seq::<Seq<char>>::empty(),
                self.at(
                    old(self),
                    found_calls(old(self).findings(), old(self).place(), old(all)@, i as nat),
                ),
                forall|j: int|
                    0 <= j < i ==> tagged_chain(
                        old(self).place(),
                        Seq::empty(),
                        old(all)@[j].call_chain@,
                        (#[trigger] all@[j]).call_chain@,
                    ),
                forall|j: int| i <= j < all@.len() ==> all@[j] == old(all)@[j],
            decreases all@.len() - i,
        {
            let call = &mut all[i];
            self.resolve_chain(&mut call.call_chain);
            i += 1;
        }
    }

    /// The parameters of a handler.
    fn params_of_handler(&self, h: &EventHandlerNode) -> (names: Vec<std::string::String>)
        ensures
            names_of(names@) == handler_params(self.place().declarations, *h),
    {
        match &h.params_opt {
            Some(_) => names_of_params(&h.params_opt),
            None => {
                let found = match &h.msg_t {
                    MessageType::CustomMessage { message_node } => find_message(
                        &self.declarations.methods,
                        message_node.name.as_str(),
                    ),
                    MessageType::AnyMessage { .. } => None,
                };
                match found {
                    Some(i) => copy_names(&self.declarations.methods[i].params),
                    None => {
                        let names: Vec<std::string::String> = Vec::new();
                        assert(names_of(names@) =~= Seq::empty());
                        names
                    },
                }
            },
        }
    }

    /// Resolves a handler.
    fn resolve_handler(&mut self, h: &mut EventHandlerNode)
        requires
            old(self).place().handler_params == Seq::<Seq<char>>::empty(),
        ensures
            final(self).stands(
                old(self),
                found_handler(old(self).findings(), old(self).place(), *old(h)),
                Seq::empty(),
            ),
            tagged_handler(old(self).place(), *old(h), *final(h)),
    {
        let params = self.params_of_handler(h);
        self.handler_params = params;
        self.locals = Vec::new();
        assert(self.locals() =~= Seq::empty());
        assert(self.place() == place_of_handler(old(self).place(), *old(h)));
        self.resolve_stmts(&mut h.statements);
        self.resolve_optional(&mut h.terminator_node.return_expr_t_opt);
        self.handler_params = Vec::new();
        self.locals = Vec::new();
        assert(self.locals() =~= Seq::empty());
        assert(names_of(self.handler_params@) =~= Seq::empty());
    }

    /// Resolves the handlers of a state.
    fn resolve_handlers(&mut self, all: &mut Vec<EventHandlerNode>)
        requires
            old(self).place().handler_params == Seq::<Seq<char>>::empty(),
        ensures
            final(self).stands(
                old(self),
                found_handlers(
                    old(self).findings(),
                    old(self).place(),
                    old(all)@,
                    old(all)@.len(),
                ),
                if old(all)@.len() == 0 {
                    old(self).locals()
                } else {
                    Seq::empty()
                },
            ),
            tagged_handlers(old(self).place(), old(all)@, final(all)@),
    {
        let mut i: usize = 0;
        while i < all.len()
            invariant
                i <= all@.len(),
                all@.len() == old(all)@.len(),
                old(self).place().handler_params == Seq::<Seq<char>>::empty(),
                self.stands(
                    old(self),
                    found_handlers(old(self).findings(), old(self).place(), old(all)@, i as nat),
                    if i == 0 {
                        old(self).locals()
                    } else {
                        Seq::empty()
                    },
                ),
                forall|j: int|
                    0 <= j < i ==> tagged_handler(
                        old(self).place(),
                        old(all)@[j],
                        #[trigger] all@[j],
                    ),
                forall|j: int| i <= j < all@.len() ==> all@[j] == old(all)@[j],
            decreases all@.len() - i,
        {
            self.resolve_handler(&mut all[i]);
            i += 1;
        }
    }

    /// Resolves a state.
    fn resolve_state(&mut self, st: &mut StateNode)
        requires
            old(self).place().handler_params == Seq::<Seq<char>>::empty(),
        ensures
            final(self).place().declarations == old(self).place().declarations,
            final(self).place().handler_params == Seq::<Seq<char>>::empty(),
            final(self).findings() == found_state(
                old(self).findings(),
                old(self).place().declarations,
                *old(st),
            ),
            tagged_state(old(self).place().declarations, *old(st), *final(st)),
    {
        self.state = st.name.clone();
        self.state_params = names_of_params(&st.params_opt);
        self.state_vars = names_of_vars(&st.vars_opt);
        self.locals = Vec::new();
        assert(self.locals() =~= Seq::empty());
        assert(self.place() == place_of_state(old(self).place().declarations, *old(st)));
        match &mut st.vars_opt {
            Some(list) => self.resolve_var_decls(list),
            None => {},
        }
        match &mut st.calls_opt {
            Some(list) => self.resolve_calls(list),
            None => {},
        }
        self.resolve_handlers(&mut st.evt_handlers);
        match &st.dispatch_opt {
            Some(d) => {
                let name = d.target_state_ref.name.as_str();
                match find_state(&self.declarations.states, name) {
                    Some(_) => {},
                    None => {
                        let text = undeclared_text("state", name);
                        self.report(d.line, text.as_str());
                    },
                }
            },
            None => {},
        }
    }

    /// Resolves the states of the machine.
    fn resolve_states(&mut self, all: &mut Vec<StateNode>)
        requires
            old(self).place().handler_params == Seq::<Seq<char>>::empty(),
        ensures
            final(self).place().declarations == old(self).place().declarations,
            final(self).findings() == found_states(
                old(self).findings(),
                old(self).place().declarations,
                old(all)@,
                old(all)@.len(),
            ),
            tagged_states(old(self).place().declarations, old(all)@, final(all)@),
    {
        let mut i: usize = 0;
        while i < all.len()
            invariant
                i <= all@.len(),
                all@.len() == old(all)@.len(),
                self.place().handler_params == Seq::<Seq<char>>::empty(),
                self.place().declarations == old(self).place().declarations,
                self.findings() == found_states(
                    old(self).findings(),
                    old(self).place().declarations,
                    old(all)@,
                    i as nat,
                ),
                forall|j: int|
                    0 <= j < i ==> tagged_state(
                        old(self).place().declarations,
                        old(all)@[j],
                        #[trigger] all@[j],
                    ),
                forall|j: int| i <= j < all@.len() ==> all@[j] == old(all)@[j],
            decreases all@.len() - i,
        {
            self.resolve_state(&mut all[i]);
            i += 1;
        }
    }
}

/// What resolution found.
#[derive(Debug)]
pub struct Resolution {
    /// What the system declares.
    pub declarations: Declarations,
    /// The fatal diagnostics, one line each, in the order of the tree.
    pub diagnostics: Vec<std::string::String>,
    /// The warnings, in the order of the tree.
    pub warnings: Vec<std::string::String>,
}

impl Resolution {
    /// What was found, as contracts see it.
    pub open spec fn findings(&self) -> Findings {
        Findings {
            diagnostics: names_of(self.diagnostics@),
            warnings: names_of(self.warnings@),
        }
    }

    /// Whether code can be generated: whether nothing fatal was found.
    pub fn is_ok(&self) -> (ok: bool)
        ensures
            ok == (self.findings().diagnostics.len() == 0),
    {
        self.diagnostics.len() == 0
    }
}

/// Resolves `system`: tags every reference to a variable with the scope
/// that its name resolves to, and reports every reference that no scope
/// declares or that was resolved before, every action, method, state or
/// handler that is used and not declared, and every list of arguments of
/// the wrong length. Where nothing fatal is reported, every reference is
/// resolved.
pub fn resolve(system: &mut SystemNode) -> (outcome: Resolution)
    ensures
        declared_by(outcome.declarations, *old(system)),
        tagged_system(outcome.declarations, *old(system), *final(system)),
        outcome.findings() == found_system(outcome.declarations, *old(system)),
        outcome.findings().diagnostics.len() == 0 ==> resolved_system(*final(system)),
{
    let declarations = Declarations::collect(system);
    let mut resolver = Resolver {
        declarations,
        state: std::string::String::new(),
        state_params: Vec::new(),
        state_vars: Vec::new(),
        handler_params: Vec::new(),
        locals: Vec::new(),
        diagnostics: Vec::new(),
        warnings: Vec::new(),
    };
    assert(resolver.locals() =~= Seq::empty());
    assert(names_of(resolver.state_params@) =~= Seq::empty());
    assert(names_of(resolver.state_vars@) =~= Seq::empty());
    assert(names_of(resolver.handler_params@) =~= Seq::empty());
    assert(names_of(resolver.diagnostics@) =~= Seq::empty());
    assert(names_of(resolver.warnings@) =~= Seq::empty());
    assert(resolver.place() == place_of_domain(resolver.declarations));
    match &mut system.domain_block_node_opt {
        Some(b) => resolver.resolve_var_decls(&mut b.member_variables),
        None => {},
    }
    match &mut system.machine_block_node_opt {
        Some(b) => resolver.resolve_states(&mut b.states),
        None => {},
    }
    proof {
        if resolver.findings().diagnostics.len() == 0 {
            lemma_resolution_is_complete(resolver.declarations, *old(system), *system);
        }
    }
    Resolution {
        declarations: resolver.declarations,
        diagnostics: resolver.diagnostics,
        warnings: resolver.warnings,
    }
}

} // verus!
