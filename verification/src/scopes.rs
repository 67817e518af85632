//! How the names of a system resolve: the five scopes of variables and
//! their order, and what a resolved tree is.
//!
//! Every function here is a specification. [`resolution`](crate::resolver)
//! is proved to tag the tree and to report exactly as stated here.

use crate::ast::{
    ActionCallExprNode, BoolTestConditionalBranchNode, CallChainLiteralExprNode,
    CallChainLiteralNodeType, ChangeStateStatementNode, DeclOrStmtType, EventHandlerNode,
    ExprStmtType, ExprType, IdentifierDeclScope, InterfaceMethodCallExprNode, MessageType,
    NumberMatchTestMatchBranchNode, StateContextNode, StateContextType, StateNode, StatementType,
    StringMatchTestMatchBranchNode, SystemNode, TerminatorExpr, TestType, TransitionStatementNode,
    VariableDeclNode, VariableNode,
};
use crate::ast::{ActionNode, DispatchNode, ExprListNode, InterfaceMethodNode, ParameterNode};
use crate::lexicon::diagnostic;
use crate::text::decimal;
use vstd::prelude::*;

verus! {

/// A declared action or method of the interface.
#[derive(Debug)]
pub struct Signature {
    pub name: std::string::String,
    /// The message that a method of the interface sends: its alias, or its
    /// name.
    pub message: std::string::String,
    pub params: Vec<std::string::String>,
}

/// A declared state.
#[derive(Debug)]
pub struct StateSignature {
    pub name: std::string::String,
    pub params: Vec<std::string::String>,
    pub vars: Vec<std::string::String>,
    /// The number of parameters of the enter handler, if the state has one.
    pub enter: Option<usize>,
    /// The number of parameters of the exit handler, if the state has one.
    pub exit: Option<usize>,
}

/// What a system declares.
#[derive(Debug)]
pub struct Declarations {
    pub domain: Vec<std::string::String>,
    pub actions: Vec<Signature>,
    pub methods: Vec<Signature>,
    pub states: Vec<StateSignature>,
}

/// The names that are visible at a place in a handler, by scope.
pub ghost struct Scopes {
    pub domain: Seq<Seq<char>>,
    pub state_params: Seq<Seq<char>>,
    pub state_vars: Seq<Seq<char>>,
    pub handler_params: Seq<Seq<char>>,
    pub handler_vars: Seq<Seq<char>>,
}

/// Whether `names` holds `name`.
pub open spec fn declares(names: Seq<Seq<char>>, name: Seq<char>) -> bool {
    exists|i: int| 0 <= i < names.len() && names[i] == name
}

/// The scope that `name` resolves to: the innermost that declares it, in
/// the order handler variable, handler parameter, state variable, state
/// parameter, domain variable. A name that none declares is unresolved.
pub open spec fn scope_of(scopes: Scopes, name: Seq<char>) -> IdentifierDeclScope {
    if declares(scopes.handler_vars, name) {
        IdentifierDeclScope::EventHandlerVar
    } else if declares(scopes.handler_params, name) {
        IdentifierDeclScope::EventHandlerParam
    } else if declares(scopes.state_vars, name) {
        IdentifierDeclScope::StateVar
    } else if declares(scopes.state_params, name) {
        IdentifierDeclScope::StateParam
    } else if declares(scopes.domain, name) {
        IdentifierDeclScope::DomainBlock
    } else {
        IdentifierDeclScope::Unresolved
    }
}

/// A variable of the handler hides a state parameter and a domain variable
/// of the same name; without it the state parameter hides the domain
/// variable; without both the name is the domain variable.
pub proof fn lemma_scope_shadowing(scopes: Scopes, name: Seq<char>)
    requires
        declares(scopes.domain, name),
        declares(scopes.state_params, name),
        declares(scopes.handler_vars, name),
        !declares(scopes.handler_params, name),
        !declares(scopes.state_vars, name),
    ensures
        scope_of(scopes, name) == IdentifierDeclScope::EventHandlerVar,
        scope_of(Scopes { handler_vars: Seq::empty(), ..scopes }, name)
            == IdentifierDeclScope::StateParam,
        scope_of(
            Scopes { handler_vars: Seq::empty(), state_params: Seq::empty(), ..scopes },
            name,
        ) == IdentifierDeclScope::DomainBlock,
{
}

/// Every name resolves to exactly one scope, and to a scope that declares
/// it: the order of the scopes decides between those that do.
pub proof fn lemma_scope_is_declared(scopes: Scopes, name: Seq<char>)
    ensures
        match scope_of(scopes, name) {
            IdentifierDeclScope::EventHandlerVar => declares(scopes.handler_vars, name),
            IdentifierDeclScope::EventHandlerParam => declares(scopes.handler_params, name)
                && !declares(scopes.handler_vars, name),
            IdentifierDeclScope::StateVar => declares(scopes.state_vars, name) && !declares(
                scopes.handler_vars,
                name,
            ) && !declares(scopes.handler_params, name),
            IdentifierDeclScope::StateParam => declares(scopes.state_params, name) && !declares(
                scopes.handler_vars,
                name,
            ) && !declares(scopes.handler_params, name) && !declares(scopes.state_vars, name),
            IdentifierDeclScope::DomainBlock => declares(scopes.domain, name) && !declares(
                scopes.handler_vars,
                name,
            ) && !declares(scopes.handler_params, name) && !declares(scopes.state_vars, name)
                && !declares(scopes.state_params, name),
            IdentifierDeclScope::Unresolved => !declares(scopes.domain, name) && !declares(
                scopes.handler_vars,
                name,
            ) && !declares(scopes.handler_params, name) && !declares(scopes.state_vars, name)
                && !declares(scopes.state_params, name),
            _ => false,
        },
{
}

/// The names of a vector as contracts see them.
pub open spec fn names_of(names: Seq<std::string::String>) -> Seq<Seq<char>> {
    Seq::new(names.len(), |i: int| names[i]@)
}

/// The position of the first signature named `name`, from `from` on.
pub open spec fn signature_position(all: Seq<Signature>, name: Seq<char>, from: int) -> Option<int>
    decreases all.len() - from,
{
    if from < 0 || from >= all.len() {
        None
    } else if all[from].name@ == name {
        Some(from)
    } else {
        signature_position(all, name, from + 1)
    }
}

/// The position of the first method that sends `message`, from `from` on.
pub open spec fn message_position(all: Seq<Signature>, message: Seq<char>, from: int) -> Option<
    int,
>
    decreases all.len() - from,
{
    if from < 0 || from >= all.len() {
        None
    } else if all[from].message@ == message {
        Some(from)
    } else {
        message_position(all, message, from + 1)
    }
}

/// The position of the first state named `name`, from `from` on.
pub open spec fn signature_of_state(all: Seq<StateSignature>, name: Seq<char>, from: int) -> Option<
    int,
>
    decreases all.len() - from,
{
    if from < 0 || from >= all.len() {
        None
    } else if all[from].name@ == name {
        Some(from)
    } else {
        signature_of_state(all, name, from + 1)
    }
}

/// What is said of a reference to a name that no scope declares.
pub open spec fn unresolved_identifier(name: Seq<char>) -> Seq<char> {
    "Unresolved identifier '"@ + name + "'."@
}

/// What is said of a reference that carries a scope before it is resolved.
pub open spec fn resolved_twice(name: Seq<char>) -> Seq<char> {
    "Identifier '"@ + name + "' is already resolved."@
}

/// What is said of a name that is used and not declared.
pub open spec fn undeclared(kind: Seq<char>, name: Seq<char>) -> Seq<char> {
    "Undeclared "@ + kind + " '"@ + name + "'."@
}

/// What is said of a list of arguments of the wrong length.
pub open spec fn arity_mismatch(
    kind: Seq<char>,
    name: Seq<char>,
    expected: nat,
    actual: nat,
) -> Seq<char> {
    kind + " '"@ + name + "' expects "@ + decimal(expected) + " arguments but "@ + decimal(actual)
        + " were supplied."@
}

/// What is said of enter arguments for a state that has no enter handler.
pub open spec fn dropped_enter_args(state: Seq<char>) -> Seq<char> {
    "State "@ + state
        + " does not have an enter event handler but is being passed parameters in a transition"@
}

/// What resolution has found so far.
pub ghost struct Findings {
    /// The fatal diagnostics, one line each.
    pub diagnostics: Seq<Seq<char>>,
    pub warnings: Seq<Seq<char>>,
}

/// Where resolution stands.
pub ghost struct Place {
    pub declarations: Declarations,
    /// The state whose handlers are being resolved.
    pub state: Seq<char>,
    pub state_params: Seq<Seq<char>>,
    pub state_vars: Seq<Seq<char>>,
    pub handler_params: Seq<Seq<char>>,
}

impl Place {
    /// The names that are visible after `locals` were declared.
    pub open spec fn scopes(self, locals: Seq<Seq<char>>) -> Scopes {
        Scopes {
            domain: names_of(self.declarations.domain@),
            state_params: self.state_params,
            state_vars: self.state_vars,
            handler_params: self.handler_params,
            handler_vars: locals,
        }
    }

    /// The declaration of the state named `name`.
    pub open spec fn state_signature(self, name: Seq<char>) -> Option<StateSignature> {
        match signature_of_state(self.declarations.states@, name, 0) {
            Some(i) => Some(self.declarations.states@[i]),
            None => None,
        }
    }
}

impl Findings {
    /// After a fatal diagnostic for `line`.
    pub open spec fn report(self, line: nat, message: Seq<char>) -> Findings {
        Findings { diagnostics: self.diagnostics.push(diagnostic(line, message)), ..self }
    }

    /// After a warning.
    pub open spec fn warn(self, message: Seq<char>) -> Findings {
        Findings { warnings: self.warnings.push(message), ..self }
    }

    /// After `actual` arguments were supplied where `expected` are declared.
    pub open spec fn arity(
        self,
        line: nat,
        kind: Seq<char>,
        name: Seq<char>,
        expected: nat,
        actual: nat,
    ) -> Findings {
        if expected == actual {
            self
        } else {
            self.report(line, arity_mismatch(kind, name, expected, actual))
        }
    }
}

/// The tag that resolution gives a reference: the scope that its name
/// resolves to. A reference that carries a tag already keeps it.
pub open spec fn tag_of(p: Place, locals: Seq<Seq<char>>, v: VariableNode) -> IdentifierDeclScope {
    if v.scope == IdentifierDeclScope::Unresolved {
        scope_of(p.scopes(locals), v.id_node.name.lexeme@)
    } else {
        v.scope
    }
}

/// A reference after resolution: only its tag has changed.
pub open spec fn tagged_var(
    p: Place,
    locals: Seq<Seq<char>>,
    old: VariableNode,
    new: VariableNode,
) -> bool {
    new == (VariableNode { scope: tag_of(p, locals, old), ..old })
}

/// What is found at a reference: it is resolved twice, or not at all.
pub open spec fn found_var(
    f: Findings,
    p: Place,
    locals: Seq<Seq<char>>,
    v: VariableNode,
) -> Findings {
    if v.scope != IdentifierDeclScope::Unresolved {
        f.report(v.id_node.line as nat, resolved_twice(v.id_node.name.lexeme@))
    } else if tag_of(p, locals, v) == IdentifierDeclScope::Unresolved {
        f.report(v.id_node.line as nat, unresolved_identifier(v.id_node.name.lexeme@))
    } else {
        f
    }
}

/// What is found at a call of an action, before its arguments: the action
/// is not declared, or takes another number of arguments.
pub open spec fn found_action(f: Findings, p: Place, node: ActionCallExprNode) -> Findings {
    let name = node.identifier.name.lexeme@;
    match signature_position(p.declarations.actions@, name, 0) {
        Some(i) => f.arity(
            node.identifier.line as nat,
            "Action"@,
            name,
            p.declarations.actions@[i].params@.len(),
            node.call_expr_list.exprs_t@.len(),
        ),
        None => f.report(node.identifier.line as nat, undeclared("action"@, name)),
    }
}

/// As [`found_action`], for a call of a method of the interface.
pub open spec fn found_method(
    f: Findings,
    p: Place,
    node: InterfaceMethodCallExprNode,
) -> Findings {
    let name = node.identifier.name.lexeme@;
    match signature_position(p.declarations.methods@, name, 0) {
        Some(i) => f.arity(
            node.identifier.line as nat,
            "Interface method"@,
            name,
            p.declarations.methods@[i].params@.len(),
            node.call_expr_list.exprs_t@.len(),
        ),
        None => f.report(node.identifier.line as nat, undeclared("interface method"@, name)),
    }
}

/// What is found in an expression.
pub open spec fn found_expr(f: Findings, p: Place, locals: Seq<Seq<char>>, e: ExprType) -> Findings
    decreases e, 0nat,
{
    match e {
        ExprType::AssignmentExprT { assignment_expr_node } => found_expr(
            found_expr(f, p, locals, *assignment_expr_node.l_value_box),
            p,
            locals,
            *assignment_expr_node.r_value_box,
        ),
        ExprType::ActionCallExprT { action_call_expr_node } => found_list(
            found_action(f, p, action_call_expr_node),
            p,
            locals,
            action_call_expr_node.call_expr_list.exprs_t@,
            action_call_expr_node.call_expr_list.exprs_t@.len(),
        ),
        ExprType::CallChainLiteralExprT { call_chain_expr_node } => found_chain(
            f,
            p,
            locals,
            call_chain_expr_node.call_chain@,
            call_chain_expr_node.call_chain@.len(),
        ),
        ExprType::CallExprT { call_expr_node } => found_list(
            f,
            p,
            locals,
            call_expr_node.call_expr_list.exprs_t@,
            call_expr_node.call_expr_list.exprs_t@.len(),
        ),
        ExprType::CallExprListT { call_expr_list_node } => found_list(
            f,
            p,
            locals,
            call_expr_list_node.exprs_t@,
            call_expr_list_node.exprs_t@.len(),
        ),
        ExprType::ExprListT { expr_list_node } => found_list(
            f,
            p,
            locals,
            expr_list_node.exprs_t@,
            expr_list_node.exprs_t@.len(),
        ),
        ExprType::VariableExprT { var_node } => found_var(f, p, locals,var_node),
        ExprType::LiteralExprT { .. } => f,
        ExprType::StateStackOperationExprT { .. } => f,
        ExprType::FrameEventExprT { .. } => f,
        ExprType::UnaryExprT { unary_expr_node } => found_expr(f, p, locals,*unary_expr_node.right),
        ExprType::BinaryExprT { binary_expr_node } => found_expr(
            found_expr(f, p, locals, *binary_expr_node.left),
            p,
            locals,
            *binary_expr_node.right,
        ),
    }
}

/// What is found in the first `n` expressions.
pub open spec fn found_list(
    f: Findings,
    p: Place,
    locals: Seq<Seq<char>>,
    exprs: Seq<ExprType>,
    n: nat,
) -> Findings
    decreases exprs, n,
{
    if n == 0 || n > exprs.len() {
        f
    } else {
        found_expr(found_list(f, p, locals, exprs, (n - 1) as nat), p, locals,exprs[n - 1])
    }
}

/// What is found in one link of a chain.
pub open spec fn found_link(
    f: Findings,
    p: Place,
    locals: Seq<Seq<char>>,
    node: CallChainLiteralNodeType,
) -> Findings
    decreases node, 0nat,
{
    match node {
        CallChainLiteralNodeType::VariableNodeT { var_node } => found_var(f, p, locals,var_node),
        CallChainLiteralNodeType::IdentifierNodeT { .. } => f,
        CallChainLiteralNodeType::CallT { call } => found_list(
            f,
            p,
            locals,
            call.call_expr_list.exprs_t@,
            call.call_expr_list.exprs_t@.len(),
        ),
        CallChainLiteralNodeType::InterfaceMethodCallT {
            interface_method_call_expr_node,
        } => found_list(
            found_method(f, p, interface_method_call_expr_node),
            p,
            locals,
            interface_method_call_expr_node.call_expr_list.exprs_t@,
            interface_method_call_expr_node.call_expr_list.exprs_t@.len(),
        ),
        CallChainLiteralNodeType::ActionCallT { action_call_expr_node } => found_list(
            found_action(f, p, action_call_expr_node),
            p,
            locals,
            action_call_expr_node.call_expr_list.exprs_t@,
            action_call_expr_node.call_expr_list.exprs_t@.len(),
        ),
    }
}

/// What is found in the first `n` links of a chain.
pub open spec fn found_chain(
    f: Findings,
    p: Place,
    locals: Seq<Seq<char>>,
    links: Seq<CallChainLiteralNodeType>,
    n: nat,
) -> Findings
    decreases links, n,
{
    if n == 0 || n > links.len() {
        f
    } else {
        found_link(found_chain(f, p, locals, links, (n - 1) as nat), p, locals,links[n - 1])
    }
}

/// An expression after resolution: every reference in it carries the tag
/// of its name, and nothing else has changed.
pub open spec fn tagged_expr(p: Place, locals: Seq<Seq<char>>, old: ExprType, new: ExprType) -> bool
    decreases old, 0nat,
{
    match old {
        ExprType::AssignmentExprT { assignment_expr_node: o } => new matches ExprType::AssignmentExprT {
            assignment_expr_node: n,
        } && n.line == o.line && tagged_expr(p, locals, *o.l_value_box, *n.l_value_box) && tagged_expr(p, locals,
            *o.r_value_box,
            *n.r_value_box,
        ),
        ExprType::ActionCallExprT { action_call_expr_node: o } => new matches ExprType::ActionCallExprT {
            action_call_expr_node: n,
        } && n.identifier == o.identifier && tagged_list(p, locals,
            o.call_expr_list.exprs_t@,
            n.call_expr_list.exprs_t@,
        ),
        ExprType::CallChainLiteralExprT { call_chain_expr_node: o } => new matches ExprType::CallChainLiteralExprT {
            call_chain_expr_node: n,
        } && tagged_chain(p, locals, o.call_chain@, n.call_chain@),
        ExprType::CallExprT { call_expr_node: o } => new matches ExprType::CallExprT {
            call_expr_node: n,
        } && n.identifier == o.identifier && tagged_list(p, locals,
            o.call_expr_list.exprs_t@,
            n.call_expr_list.exprs_t@,
        ),
        ExprType::CallExprListT { call_expr_list_node: o } => new matches ExprType::CallExprListT {
            call_expr_list_node: n,
        } && tagged_list(p, locals, o.exprs_t@, n.exprs_t@),
        ExprType::ExprListT { expr_list_node: o } => new matches ExprType::ExprListT {
            expr_list_node: n,
        } && tagged_list(p, locals, o.exprs_t@, n.exprs_t@),
        ExprType::VariableExprT { var_node: o } => new matches ExprType::VariableExprT {
            var_node: n,
        } && tagged_var(p, locals, o, n),
        ExprType::UnaryExprT { unary_expr_node: o } => new matches ExprType::UnaryExprT {
            unary_expr_node: n,
        } && n.operator == o.operator && tagged_expr(p, locals, *o.right, *n.right),
        ExprType::BinaryExprT { binary_expr_node: o } => new matches ExprType::BinaryExprT {
            binary_expr_node: n,
        } && n.operator == o.operator && tagged_expr(p, locals, *o.left, *n.left) && tagged_expr(p, locals,
            *o.right,
            *n.right,
        ),
        _ => new == old,
    }
}

/// A list of expressions after resolution.
pub open spec fn tagged_list(
    p: Place,
    locals: Seq<Seq<char>>,
    old: Seq<ExprType>,
    new: Seq<ExprType>,
) -> bool
    decreases old, 1nat,
{
    old.len() == new.len() && forall|i: int|
        0 <= i < old.len() ==> tagged_expr(p, locals, old[i], #[trigger] new[i])
}

/// A link of a chain after resolution.
pub open spec fn tagged_link(
    p: Place,
    locals: Seq<Seq<char>>,
    old: CallChainLiteralNodeType,
    new: CallChainLiteralNodeType,
) -> bool
    decreases old, 0nat,
{
    match old {
        CallChainLiteralNodeType::VariableNodeT { var_node: o } => new matches CallChainLiteralNodeType::VariableNodeT {
            var_node: n,
        } && tagged_var(p, locals, o, n),
        CallChainLiteralNodeType::IdentifierNodeT { .. } => new == old,
        CallChainLiteralNodeType::CallT { call: o } => new matches CallChainLiteralNodeType::CallT {
            call: n,
        } && n.identifier == o.identifier && tagged_list(p, locals,
            o.call_expr_list.exprs_t@,
            n.call_expr_list.exprs_t@,
        ),
        CallChainLiteralNodeType::InterfaceMethodCallT {
            interface_method_call_expr_node: o,
        } => new matches CallChainLiteralNodeType::InterfaceMethodCallT {
            interface_method_call_expr_node: n,
        } && n.identifier == o.identifier && tagged_list(p, locals,
            o.call_expr_list.exprs_t@,
            n.call_expr_list.exprs_t@,
        ),
        CallChainLiteralNodeType::ActionCallT {
            action_call_expr_node: o,
        } => new matches CallChainLiteralNodeType::ActionCallT { action_call_expr_node: n }
            && n.identifier == o.identifier && tagged_list(p, locals,
            o.call_expr_list.exprs_t@,
            n.call_expr_list.exprs_t@,
        ),
    }
}

/// A chain after resolution.
pub open spec fn tagged_chain(
    p: Place,
    locals: Seq<Seq<char>>,
    old: Seq<CallChainLiteralNodeType>,
    new: Seq<CallChainLiteralNodeType>,
) -> bool
    decreases old, 1nat,
{
    old.len() == new.len() && forall|i: int|
        0 <= i < old.len() ==> tagged_link(p, locals, old[i], #[trigger] new[i])
}

/// The names of the parameters.
pub open spec fn param_names(params: Seq<ParameterNode>) -> Seq<Seq<char>> {
    Seq::new(params.len(), |i: int| params[i].param_name@)
}

/// The names of the parameters, if there are any.
pub open spec fn optional_param_names(params: Option<Vec<ParameterNode>>) -> Seq<Seq<char>> {
    match params {
        Some(list) => param_names(list@),
        None => Seq::empty(),
    }
}

/// The names of the variables.
pub open spec fn var_names(vars: Seq<VariableDeclNode>) -> Seq<Seq<char>> {
    Seq::new(vars.len(), |i: int| vars[i].name@)
}

/// The names of the variables, if there are any.
pub open spec fn optional_var_names(vars: Option<Vec<VariableDeclNode>>) -> Seq<Seq<char>> {
    match vars {
        Some(list) => var_names(list@),
        None => Seq::empty(),
    }
}

/// The variables that are declared after a declaration or statement.
pub open spec fn declared_decl_or_stmt(locals: Seq<Seq<char>>, d: DeclOrStmtType) -> Seq<Seq<char>>
    decreases d, 0nat,
{
    match d {
        DeclOrStmtType::VarDeclT { var_decl_t } => locals.push(var_decl_t.name@),
        DeclOrStmtType::StmtT { stmt_t } => match stmt_t {
            StatementType::TestStmt { test_stmt_node } => match test_stmt_node.test_t {
                TestType::BoolTest { bool_test_node } => {
                    let branches = declared_bool(
                        locals,
                        bool_test_node.conditional_branch_nodes@,
                        bool_test_node.conditional_branch_nodes@.len(),
                    );
                    match bool_test_node.else_branch_node_opt {
                        Some(e) => declared_stmts(branches, e.statements@, e.statements@.len()),
                        None => branches,
                    }
                },
                TestType::StringMatchTest { string_match_test_node } => {
                    let branches = declared_string(
                        locals,
                        string_match_test_node.match_branch_nodes@,
                        string_match_test_node.match_branch_nodes@.len(),
                    );
                    match string_match_test_node.else_branch_node_opt {
                        Some(e) => declared_stmts(branches, e.statements@, e.statements@.len()),
                        None => branches,
                    }
                },
                TestType::NumberMatchTest { number_match_test_node } => {
                    let branches = declared_number(
                        locals,
                        number_match_test_node.match_branch_nodes@,
                        number_match_test_node.match_branch_nodes@.len(),
                    );
                    match number_match_test_node.else_branch_node_opt {
                        Some(e) => declared_stmts(branches, e.statements@, e.statements@.len()),
                        None => branches,
                    }
                },
            },
            _ => locals,
        },
    }
}

/// The variables that are declared after the first `n` statements. The
/// variables of a handler are one flat scope: what a branch declares stays
/// declared behind it.
pub open spec fn declared_stmts(locals: Seq<Seq<char>>, all: Seq<DeclOrStmtType>, n: nat) -> Seq<
    Seq<char>,
>
    decreases all, n,
{
    if n == 0 || n > all.len() {
        locals
    } else {
        declared_decl_or_stmt(declared_stmts(locals, all, (n - 1) as nat), all[n - 1])
    }
}

/// The variables that are declared after the first `n` branches of a
/// boolean test.
pub open spec fn declared_bool(
    locals: Seq<Seq<char>>,
    all: Seq<BoolTestConditionalBranchNode>,
    n: nat,
) -> Seq<Seq<char>>
    decreases all, n,
{
    if n == 0 || n > all.len() {
        locals
    } else {
        declared_stmts(
            declared_bool(locals, all, (n - 1) as nat),
            all[n - 1].statements@,
            all[n - 1].statements@.len(),
        )
    }
}

/// As [`declared_bool`], for a string test.
pub open spec fn declared_string(
    locals: Seq<Seq<char>>,
    all: Seq<StringMatchTestMatchBranchNode>,
    n: nat,
) -> Seq<Seq<char>>
    decreases all, n,
{
    if n == 0 || n > all.len() {
        locals
    } else {
        declared_stmts(
            declared_string(locals, all, (n - 1) as nat),
            all[n - 1].statements@,
            all[n - 1].statements@.len(),
        )
    }
}

/// As [`declared_bool`], for a number test.
pub open spec fn declared_number(
    locals: Seq<Seq<char>>,
    all: Seq<NumberMatchTestMatchBranchNode>,
    n: nat,
) -> Seq<Seq<char>>
    decreases all, n,
{
    if n == 0 || n > all.len() {
        locals
    } else {
        declared_stmts(
            declared_number(locals, all, (n - 1) as nat),
            all[n - 1].statements@,
            all[n - 1].statements@.len(),
        )
    }
}

/// What is found in an expression that may be absent.
pub open spec fn found_optional(
    f: Findings,
    p: Place,
    locals: Seq<Seq<char>>,
    e: Option<ExprType>,
) -> Findings {
    match e {
        Some(e) => found_expr(f, p, locals, e),
        None => f,
    }
}

/// What is found in a list of arguments that may be absent.
pub open spec fn found_args(
    f: Findings,
    p: Place,
    locals: Seq<Seq<char>>,
    list: Option<ExprListNode>,
) -> Findings {
    match list {
        Some(l) => found_list(f, p, locals, l.exprs_t@, l.exprs_t@.len()),
        None => f,
    }
}

/// The number of arguments in a list that may be absent.
pub open spec fn count(list: Option<ExprListNode>) -> nat {
    match list {
        Some(l) => l.exprs_t@.len(),
        None => 0,
    }
}

/// What is found at the end of a branch.
pub open spec fn found_end(
    f: Findings,
    p: Place,
    locals: Seq<Seq<char>>,
    end: Option<TerminatorExpr>,
) -> Findings {
    match end {
        Some(t) => found_optional(f, p, locals, t.return_expr_t_opt),
        None => f,
    }
}

/// What is found at the target of a transition or of a change of state:
/// in its arguments; then that the state is not declared, or that its
/// enter handler or the state itself takes another number of arguments.
/// Enter arguments for a state without an enter handler are dropped, with
/// a warning; a change of state enters nothing, so its enter arguments are
/// not looked at.
pub open spec fn found_target(
    f: Findings,
    p: Place,
    locals: Seq<Seq<char>>,
    node: StateContextNode,
    line: nat,
    entering: bool,
) -> Findings {
    let name = node.state_ref_node.name@;
    let inside = found_args(
        found_args(f, p, locals, node.enter_args_opt),
        p,
        locals,
        node.state_ref_args_opt,
    );
    match p.state_signature(name) {
        Some(signature) => {
            let entered = if entering && node.enter_args_opt.is_some() {
                match signature.enter {
                    Some(k) => inside.arity(
                        line,
                        "Enter event handler of state"@,
                        name,
                        k as nat,
                        count(node.enter_args_opt),
                    ),
                    None => inside.warn(dropped_enter_args(name)),
                }
            } else {
                inside
            };
            entered.arity(
                line,
                "State"@,
                name,
                signature.params@.len(),
                count(node.state_ref_args_opt),
            )
        },
        None => inside.report(line, undeclared("state"@, name)),
    }
}

/// What is found at the exit arguments of a transition: the current state
/// has no exit handler, or one that takes another number of arguments.
pub open spec fn found_exit(f: Findings, p: Place, t: TransitionStatementNode) -> Findings {
    if count(t.exit_args_opt) > 0 {
        match p.state_signature(p.state) {
            Some(signature) => match signature.exit {
                Some(k) => f.arity(
                    t.line as nat,
                    "Exit event handler of state"@,
                    p.state,
                    k as nat,
                    count(t.exit_args_opt),
                ),
                None => f.report(
                    t.line as nat,
                    undeclared("exit event handler of state"@, p.state),
                ),
            },
            None => f.report(t.line as nat, undeclared("exit event handler of state"@, p.state)),
        }
    } else {
        f
    }
}

/// What is found in a transition.
pub open spec fn found_transition(
    f: Findings,
    p: Place,
    locals: Seq<Seq<char>>,
    t: TransitionStatementNode,
) -> Findings {
    let exited = found_exit(found_args(f, p, locals, t.exit_args_opt), p, t);
    match t.target_state_context_t {
        StateContextType::StateRef { state_context_node } => found_target(
            exited,
            p,
            locals,
            state_context_node,
            t.line as nat,
            true,
        ),
        StateContextType::StateStackPop => exited,
    }
}

/// What is found in a change of state.
pub open spec fn found_change(
    f: Findings,
    p: Place,
    locals: Seq<Seq<char>>,
    node: ChangeStateStatementNode,
) -> Findings {
    match node.state_context_t {
        StateContextType::StateRef { state_context_node } => found_target(
            f,
            p,
            locals,
            state_context_node,
            node.line as nat,
            false,
        ),
        StateContextType::StateStackPop => f.report(
            node.line as nat,
            "Change of state to the state stack is not supported."@,
        ),
    }
}

/// What is found in a statement that is an expression.
pub open spec fn found_expr_stmt(
    f: Findings,
    p: Place,
    locals: Seq<Seq<char>>,
    st: ExprStmtType,
) -> Findings {
    match st {
        ExprStmtType::CallStmtT { call_stmt_node } => found_list(
            f,
            p,
            locals,
            call_stmt_node.call_expr_node.call_expr_list.exprs_t@,
            call_stmt_node.call_expr_node.call_expr_list.exprs_t@.len(),
        ),
        ExprStmtType::ActionCallStmtT { action_call_stmt_node } => found_list(
            found_action(f, p, action_call_stmt_node.action_call_expr_node),
            p,
            locals,
            action_call_stmt_node.action_call_expr_node.call_expr_list.exprs_t@,
            action_call_stmt_node.action_call_expr_node.call_expr_list.exprs_t@.len(),
        ),
        ExprStmtType::CallChainLiteralStmtT { call_chain_literal_stmt_node } => found_chain(
            f,
            p,
            locals,
            call_chain_literal_stmt_node.call_chain_literal_expr_node.call_chain@,
            call_chain_literal_stmt_node.call_chain_literal_expr_node.call_chain@.len(),
        ),
        ExprStmtType::AssignmentStmtT { assignment_stmt_node } => found_expr(
            found_expr(f, p, locals, *assignment_stmt_node.assignment_expr_node.l_value_box),
            p,
            locals,
            *assignment_stmt_node.assignment_expr_node.r_value_box,
        ),
        ExprStmtType::VariableStmtT { variable_stmt_node } => found_var(
            f,
            p,
            locals,
            variable_stmt_node.var_node,
        ),
    }
}

/// What is found in a declaration or statement.
pub open spec fn found_decl_or_stmt(
    f: Findings,
    p: Place,
    locals: Seq<Seq<char>>,
    d: DeclOrStmtType,
) -> Findings
    decreases d, 0nat,
{
    match d {
        DeclOrStmtType::VarDeclT { var_decl_t } => found_optional(
            f,
            p,
            locals,
            var_decl_t.initializer_expr_t_opt,
        ),
        DeclOrStmtType::StmtT { stmt_t } => match stmt_t {
            StatementType::ExpressionStmt { expr_stmt_t } => found_expr_stmt(
                f,
                p,
                locals,
                expr_stmt_t,
            ),
            StatementType::TransitionStmt { transition_statement } => found_transition(
                f,
                p,
                locals,
                transition_statement,
            ),
            StatementType::TestStmt { test_stmt_node } => match test_stmt_node.test_t {
                TestType::BoolTest { bool_test_node } => {
                    let n = bool_test_node.conditional_branch_nodes@.len();
                    let branches = found_bool(
                        f,
                        p,
                        locals,
                        bool_test_node.conditional_branch_nodes@,
                        n,
                    );
                    match bool_test_node.else_branch_node_opt {
                        Some(e) => found_block(
                            branches,
                            p,
                            declared_bool(locals, bool_test_node.conditional_branch_nodes@, n),
                            e.statements@,
                            e.branch_terminator_expr_opt,
                        ),
                        None => branches,
                    }
                },
                TestType::StringMatchTest { string_match_test_node } => {
                    let n = string_match_test_node.match_branch_nodes@.len();
                    let branches = found_string(
                        found_expr(f, p, locals, string_match_test_node.expr_t),
                        p,
                        locals,
                        string_match_test_node.match_branch_nodes@,
                        n,
                    );
                    match string_match_test_node.else_branch_node_opt {
                        Some(e) => found_block(
                            branches,
                            p,
                            declared_string(locals, string_match_test_node.match_branch_nodes@, n),
                            e.statements@,
                            e.branch_terminator_expr_opt,
                        ),
                        None => branches,
                    }
                },
                TestType::NumberMatchTest { number_match_test_node } => {
                    let n = number_match_test_node.match_branch_nodes@.len();
                    let branches = found_number(
                        found_expr(f, p, locals, number_match_test_node.expr_t),
                        p,
                        locals,
                        number_match_test_node.match_branch_nodes@,
                        n,
                    );
                    match number_match_test_node.else_branch_node_opt {
                        Some(e) => found_block(
                            branches,
                            p,
                            declared_number(locals, number_match_test_node.match_branch_nodes@, n),
                            e.statements@,
                            e.branch_terminator_expr_opt,
                        ),
                        None => branches,
                    }
                },
            },
            StatementType::StateStackStmt { .. } => f,
            StatementType::ChangeStateStmt { change_state_stmt } => found_change(
                f,
                p,
                locals,
                change_state_stmt,
            ),
            StatementType::NoStmt => f,
        },
    }
}

/// What is found in the first `n` statements.
pub open spec fn found_stmts(
    f: Findings,
    p: Place,
    locals: Seq<Seq<char>>,
    all: Seq<DeclOrStmtType>,
    n: nat,
) -> Findings
    decreases all, n,
{
    if n == 0 || n > all.len() {
        f
    } else {
        found_decl_or_stmt(
            found_stmts(f, p, locals, all, (n - 1) as nat),
            p,
            declared_stmts(locals, all, (n - 1) as nat),
            all[n - 1],
        )
    }
}

/// What is found in the statements of a branch and at its end.
pub open spec fn found_block(
    f: Findings,
    p: Place,
    locals: Seq<Seq<char>>,
    all: Seq<DeclOrStmtType>,
    end: Option<TerminatorExpr>,
) -> Findings
    decreases all, all.len() + 1,
{
    found_end(
        found_stmts(f, p, locals, all, all.len()),
        p,
        declared_stmts(locals, all, all.len()),
        end,
    )
}

/// What is found in the first `n` branches of a boolean test.
pub open spec fn found_bool(
    f: Findings,
    p: Place,
    locals: Seq<Seq<char>>,
    all: Seq<BoolTestConditionalBranchNode>,
    n: nat,
) -> Findings
    decreases all, n,
{
    if n == 0 || n > all.len() {
        f
    } else {
        let here = declared_bool(locals, all, (n - 1) as nat);
        found_block(
            found_expr(found_bool(f, p, locals, all, (n - 1) as nat), p, here, all[n - 1].expr_t),
            p,
            here,
            all[n - 1].statements@,
            all[n - 1].branch_terminator_expr_opt,
        )
    }
}

/// What is found in the first `n` branches of a string test.
pub open spec fn found_string(
    f: Findings,
    p: Place,
    locals: Seq<Seq<char>>,
    all: Seq<StringMatchTestMatchBranchNode>,
    n: nat,
) -> Findings
    decreases all, n,
{
    if n == 0 || n > all.len() {
        f
    } else {
        found_block(
            found_string(f, p, locals, all, (n - 1) as nat),
            p,
            declared_string(locals, all, (n - 1) as nat),
            all[n - 1].statements@,
            all[n - 1].branch_terminator_expr_opt,
        )
    }
}

/// What is found in the first `n` branches of a number test.
pub open spec fn found_number(
    f: Findings,
    p: Place,
    locals: Seq<Seq<char>>,
    all: Seq<NumberMatchTestMatchBranchNode>,
    n: nat,
) -> Findings
    decreases all, n,
{
    if n == 0 || n > all.len() {
        f
    } else {
        found_block(
            found_number(f, p, locals, all, (n - 1) as nat),
            p,
            declared_number(locals, all, (n - 1) as nat),
            all[n - 1].statements@,
            all[n - 1].branch_terminator_expr_opt,
        )
    }
}

/// An expression that may be absent, after resolution.
pub open spec fn tagged_optional(
    p: Place,
    locals: Seq<Seq<char>>,
    old: Option<ExprType>,
    new: Option<ExprType>,
) -> bool {
    match old {
        Some(o) => new matches Some(n) && tagged_expr(p, locals, o, n),
        None => new is None,
    }
}

/// A list of arguments that may be absent, after resolution.
pub open spec fn tagged_args(
    p: Place,
    locals: Seq<Seq<char>>,
    old: Option<ExprListNode>,
    new: Option<ExprListNode>,
) -> bool {
    match old {
        Some(o) => new matches Some(n) && tagged_list(p, locals, o.exprs_t@, n.exprs_t@),
        None => new is None,
    }
}

/// The end of a branch after resolution.
pub open spec fn tagged_end(
    p: Place,
    locals: Seq<Seq<char>>,
    old: Option<TerminatorExpr>,
    new: Option<TerminatorExpr>,
) -> bool {
    match old {
        Some(o) => new matches Some(n) && tagged_terminator(p, locals, o, n),
        None => new is None,
    }
}

/// The end of a handler after resolution.
pub open spec fn tagged_terminator(
    p: Place,
    locals: Seq<Seq<char>>,
    old: TerminatorExpr,
    new: TerminatorExpr,
) -> bool {
    new.terminator_type == old.terminator_type && new.line == old.line && tagged_optional(
        p,
        locals,
        old.return_expr_t_opt,
        new.return_expr_t_opt,
    )
}

/// The target of a transition after resolution.
pub open spec fn tagged_target(
    p: Place,
    locals: Seq<Seq<char>>,
    old: StateContextType,
    new: StateContextType,
) -> bool {
    match old {
        StateContextType::StateRef { state_context_node: o } => new matches StateContextType::StateRef {
            state_context_node: n,
        } && n.state_ref_node == o.state_ref_node && tagged_args(
            p,
            locals,
            o.enter_args_opt,
            n.enter_args_opt,
        ) && tagged_args(p, locals, o.state_ref_args_opt, n.state_ref_args_opt),
        StateContextType::StateStackPop => new == old,
    }
}

/// A statement that is an expression, after resolution.
pub open spec fn tagged_expr_stmt(
    p: Place,
    locals: Seq<Seq<char>>,
    old: ExprStmtType,
    new: ExprStmtType,
) -> bool {
    match old {
        ExprStmtType::CallStmtT { call_stmt_node: o } => new matches ExprStmtType::CallStmtT {
            call_stmt_node: n,
        } && n.call_expr_node.identifier == o.call_expr_node.identifier && tagged_list(
            p,
            locals,
            o.call_expr_node.call_expr_list.exprs_t@,
            n.call_expr_node.call_expr_list.exprs_t@,
        ),
        ExprStmtType::ActionCallStmtT { action_call_stmt_node: o } => new matches ExprStmtType::ActionCallStmtT {
            action_call_stmt_node: n,
        } && n.action_call_expr_node.identifier == o.action_call_expr_node.identifier
            && tagged_list(
            p,
            locals,
            o.action_call_expr_node.call_expr_list.exprs_t@,
            n.action_call_expr_node.call_expr_list.exprs_t@,
        ),
        ExprStmtType::CallChainLiteralStmtT { call_chain_literal_stmt_node: o } => new matches ExprStmtType::CallChainLiteralStmtT {
            call_chain_literal_stmt_node: n,
        } && tagged_chain(
            p,
            locals,
            o.call_chain_literal_expr_node.call_chain@,
            n.call_chain_literal_expr_node.call_chain@,
        ),
        ExprStmtType::AssignmentStmtT { assignment_stmt_node: o } => new matches ExprStmtType::AssignmentStmtT {
            assignment_stmt_node: n,
        } && n.assignment_expr_node.line == o.assignment_expr_node.line && tagged_expr(
            p,
            locals,
            *o.assignment_expr_node.l_value_box,
            *n.assignment_expr_node.l_value_box,
        ) && tagged_expr(
            p,
            locals,
            *o.assignment_expr_node.r_value_box,
            *n.assignment_expr_node.r_value_box,
        ),
        ExprStmtType::VariableStmtT { variable_stmt_node: o } => new matches ExprStmtType::VariableStmtT {
            variable_stmt_node: n,
        } && tagged_var(p, locals, o.var_node, n.var_node),
    }
}

/// A declaration or statement after resolution: every reference in it
/// carries the tag of its name in the scopes of its place, and nothing
/// else has changed.
pub open spec fn tagged_decl_or_stmt(
    p: Place,
    locals: Seq<Seq<char>>,
    old: DeclOrStmtType,
    new: DeclOrStmtType,
) -> bool
    decreases old, 0nat,
{
    match old {
        DeclOrStmtType::VarDeclT { var_decl_t: o } => new matches DeclOrStmtType::VarDeclT {
            var_decl_t: n,
        } && tagged_var_decl(p, locals, o, n),
        DeclOrStmtType::StmtT { stmt_t: o } => new matches DeclOrStmtType::StmtT { stmt_t: n } && (
        match o {
            StatementType::ExpressionStmt { expr_stmt_t: o } => n matches StatementType::ExpressionStmt {
                expr_stmt_t: n,
            } && tagged_expr_stmt(p, locals, o, n),
            StatementType::TransitionStmt { transition_statement: o } => n matches StatementType::TransitionStmt {
                transition_statement: n,
            } && n.label_opt == o.label_opt && n.line == o.line && tagged_args(
                p,
                locals,
                o.exit_args_opt,
                n.exit_args_opt,
            ) && tagged_target(p, locals, o.target_state_context_t, n.target_state_context_t),
            StatementType::TestStmt { test_stmt_node: o } => n matches StatementType::TestStmt {
                test_stmt_node: n,
            } && (match o.test_t {
                TestType::BoolTest { bool_test_node: o } => n.test_t matches TestType::BoolTest {
                    bool_test_node: n,
                } && tagged_bool(
                    p,
                    locals,
                    o.conditional_branch_nodes@,
                    n.conditional_branch_nodes@,
                ) && (match o.else_branch_node_opt {
                    Some(oe) => n.else_branch_node_opt matches Some(ne) && tagged_block(
                        p,
                        declared_bool(
                            locals,
                            o.conditional_branch_nodes@,
                            o.conditional_branch_nodes@.len(),
                        ),
                        oe.statements@,
                        ne.statements@,
                        oe.branch_terminator_expr_opt,
                        ne.branch_terminator_expr_opt,
                    ),
                    None => n.else_branch_node_opt is None,
                }),
                TestType::StringMatchTest { string_match_test_node: o } => n.test_t matches TestType::StringMatchTest {
                    string_match_test_node: n,
                } && tagged_expr(p, locals, o.expr_t, n.expr_t) && tagged_string(
                    p,
                    locals,
                    o.match_branch_nodes@,
                    n.match_branch_nodes@,
                ) && (match o.else_branch_node_opt {
                    Some(oe) => n.else_branch_node_opt matches Some(ne) && tagged_block(
                        p,
                        declared_string(locals, o.match_branch_nodes@, o.match_branch_nodes@.len()),
                        oe.statements@,
                        ne.statements@,
                        oe.branch_terminator_expr_opt,
                        ne.branch_terminator_expr_opt,
                    ),
                    None => n.else_branch_node_opt is None,
                }),
                TestType::NumberMatchTest { number_match_test_node: o } => n.test_t matches TestType::NumberMatchTest {
                    number_match_test_node: n,
                } && tagged_expr(p, locals, o.expr_t, n.expr_t) && tagged_number(
                    p,
                    locals,
                    o.match_branch_nodes@,
                    n.match_branch_nodes@,
                ) && (match o.else_branch_node_opt {
                    Some(oe) => n.else_branch_node_opt matches Some(ne) && tagged_block(
                        p,
                        declared_number(locals, o.match_branch_nodes@, o.match_branch_nodes@.len()),
                        oe.statements@,
                        ne.statements@,
                        oe.branch_terminator_expr_opt,
                        ne.branch_terminator_expr_opt,
                    ),
                    None => n.else_branch_node_opt is None,
                }),
            }),
            StatementType::ChangeStateStmt { change_state_stmt: o } => n matches StatementType::ChangeStateStmt {
                change_state_stmt: n,
            } && n.label_opt == o.label_opt && n.line == o.line && tagged_target(
                p,
                locals,
                o.state_context_t,
                n.state_context_t,
            ),
            _ => n == o,
        }),
    }
}

/// The declaration of a variable after resolution.
pub open spec fn tagged_var_decl(
    p: Place,
    locals: Seq<Seq<char>>,
    old: VariableDeclNode,
    new: VariableDeclNode,
) -> bool {
    new.name == old.name && new.type_opt == old.type_opt && new.is_constant == old.is_constant
        && new.identifier_decl_scope == old.identifier_decl_scope && tagged_optional(
        p,
        locals,
        old.initializer_expr_t_opt,
        new.initializer_expr_t_opt,
    )
}

/// Statements after resolution: each is resolved in the scopes that the
/// statements before it leave.
pub open spec fn tagged_stmts(
    p: Place,
    locals: Seq<Seq<char>>,
    old: Seq<DeclOrStmtType>,
    new: Seq<DeclOrStmtType>,
) -> bool
    decreases old, 1nat,
{
    old.len() == new.len() && forall|i: int|
        0 <= i < old.len() ==> tagged_decl_or_stmt(
            p,
            declared_stmts(locals, old, i as nat),
            old[i],
            #[trigger] new[i],
        )
}

/// The statements of a branch and its end, after resolution.
pub open spec fn tagged_block(
    p: Place,
    locals: Seq<Seq<char>>,
    old: Seq<DeclOrStmtType>,
    new: Seq<DeclOrStmtType>,
    old_end: Option<TerminatorExpr>,
    new_end: Option<TerminatorExpr>,
) -> bool
    decreases old, 2nat,
{
    tagged_stmts(p, locals, old, new) && tagged_end(
        p,
        declared_stmts(locals, old, old.len()),
        old_end,
        new_end,
    )
}

/// The branches of a boolean test after resolution.
pub open spec fn tagged_bool(
    p: Place,
    locals: Seq<Seq<char>>,
    old: Seq<BoolTestConditionalBranchNode>,
    new: Seq<BoolTestConditionalBranchNode>,
) -> bool
    decreases old, 0nat,
{
    old.len() == new.len() && forall|i: int|
        0 <= i < old.len() ==> (#[trigger] new[i]).is_negated == old[i].is_negated && tagged_expr(
            p,
            declared_bool(locals, old, i as nat),
            old[i].expr_t,
            new[i].expr_t,
        ) && tagged_block(
            p,
            declared_bool(locals, old, i as nat),
            old[i].statements@,
            new[i].statements@,
            old[i].branch_terminator_expr_opt,
            new[i].branch_terminator_expr_opt,
        )
}

/// The branches of a string test after resolution.
pub open spec fn tagged_string(
    p: Place,
    locals: Seq<Seq<char>>,
    old: Seq<StringMatchTestMatchBranchNode>,
    new: Seq<StringMatchTestMatchBranchNode>,
) -> bool
    decreases old, 0nat,
{
    old.len() == new.len() && forall|i: int|
        0 <= i < old.len() ==> (#[trigger] new[i]).string_match_pattern_node
            == old[i].string_match_pattern_node && tagged_block(
            p,
            declared_string(locals, old, i as nat),
            old[i].statements@,
            new[i].statements@,
            old[i].branch_terminator_expr_opt,
            new[i].branch_terminator_expr_opt,
        )
}

/// The branches of a number test after resolution.
pub open spec fn tagged_number(
    p: Place,
    locals: Seq<Seq<char>>,
    old: Seq<NumberMatchTestMatchBranchNode>,
    new: Seq<NumberMatchTestMatchBranchNode>,
) -> bool
    decreases old, 0nat,
{
    old.len() == new.len() && forall|i: int|
        0 <= i < old.len() ==> (#[trigger] new[i]).number_match_pattern_nodes
            == old[i].number_match_pattern_nodes && tagged_block(
            p,
            declared_number(locals, old, i as nat),
            old[i].statements@,
            new[i].statements@,
            old[i].branch_terminator_expr_opt,
            new[i].branch_terminator_expr_opt,
        )
}

/// The place of what a state holds outside its handlers.
pub open spec fn place_of_state(d: Declarations, st: StateNode) -> Place {
    Place {
        declarations: d,
        state: st.name@,
        state_params: optional_param_names(st.params_opt),
        state_vars: optional_var_names(st.vars_opt),
        handler_params: Seq::empty(),
    }
}

/// The place of the initializers of the domain variables.
pub open spec fn place_of_domain(d: Declarations) -> Place {
    Place {
        declarations: d,
        state: Seq::empty(),
        state_params: Seq::empty(),
        state_vars: Seq::empty(),
        handler_params: Seq::empty(),
    }
}

/// The parameters of a handler: those that it declares; without any, those
/// of the method of the interface that sends its message.
pub open spec fn handler_params(d: Declarations, h: EventHandlerNode) -> Seq<Seq<char>> {
    match h.params_opt {
        Some(list) => param_names(list@),
        None => match h.msg_t {
            MessageType::CustomMessage { message_node } => match message_position(
                d.methods@,
                message_node.name@,
                0,
            ) {
                Some(i) => names_of(d.methods@[i].params@),
                None => Seq::empty(),
            },
            MessageType::AnyMessage { .. } => Seq::empty(),
        },
    }
}

/// The place of the statements of a handler.
pub open spec fn place_of_handler(p: Place, h: EventHandlerNode) -> Place {
    Place { handler_params: handler_params(p.declarations, h), ..p }
}

/// What is found in a handler. A handler begins without variables of its
/// own.
pub open spec fn found_handler(f: Findings, p: Place, h: EventHandlerNode) -> Findings {
    let here = place_of_handler(p, h);
    found_optional(
        found_stmts(f, here, Seq::empty(), h.statements@, h.statements@.len()),
        here,
        declared_stmts(Seq::empty(), h.statements@, h.statements@.len()),
        h.terminator_node.return_expr_t_opt,
    )
}

/// A handler after resolution.
pub open spec fn tagged_handler(p: Place, old: EventHandlerNode, new: EventHandlerNode) -> bool {
    let here = place_of_handler(p, old);
    new.state_name == old.state_name && new.msg_t == old.msg_t && new.params_opt == old.params_opt
        && new.event_handler_has_transition == old.event_handler_has_transition && new.line
        == old.line && tagged_stmts(here, Seq::empty(), old.statements@, new.statements@)
        && tagged_terminator(
        here,
        declared_stmts(Seq::empty(), old.statements@, old.statements@.len()),
        old.terminator_node,
        new.terminator_node,
    )
}

/// What is found in the first `n` handlers.
pub open spec fn found_handlers(
    f: Findings,
    p: Place,
    all: Seq<EventHandlerNode>,
    n: nat,
) -> Findings
    decreases n,
{
    if n == 0 || n > all.len() {
        f
    } else {
        found_handler(found_handlers(f, p, all, (n - 1) as nat), p, all[n - 1])
    }
}

/// The handlers of a state after resolution.
pub open spec fn tagged_handlers(
    p: Place,
    old: Seq<EventHandlerNode>,
    new: Seq<EventHandlerNode>,
) -> bool {
    old.len() == new.len() && forall|i: int|
        0 <= i < old.len() ==> tagged_handler(p, old[i], #[trigger] new[i])
}

/// What is found in the initializers of the first `n` variables of a state
/// or of the domain.
pub open spec fn found_var_decls(
    f: Findings,
    p: Place,
    all: Seq<VariableDeclNode>,
    n: nat,
) -> Findings
    decreases n,
{
    if n == 0 || n > all.len() {
        f
    } else {
        found_optional(
            found_var_decls(f, p, all, (n - 1) as nat),
            p,
            Seq::empty(),
            all[n - 1].initializer_expr_t_opt,
        )
    }
}

/// The variables of a state or of the domain after resolution.
pub open spec fn tagged_var_decls(
    p: Place,
    old: Seq<VariableDeclNode>,
    new: Seq<VariableDeclNode>,
) -> bool {
    old.len() == new.len() && forall|i: int|
        0 <= i < old.len() ==> tagged_var_decl(p, Seq::empty(), old[i], #[trigger] new[i])
}

/// The variables, if there are any, after resolution.
pub open spec fn tagged_optional_vars(
    p: Place,
    old: Option<Vec<VariableDeclNode>>,
    new: Option<Vec<VariableDeclNode>>,
) -> bool {
    match old {
        Some(o) => new matches Some(n) && tagged_var_decls(p, o@, n@),
        None => new is None,
    }
}

/// What is found in the first `n` of the calls that a state makes before
/// it looks at the event.
pub open spec fn found_calls(
    f: Findings,
    p: Place,
    all: Seq<CallChainLiteralExprNode>,
    n: nat,
) -> Findings
    decreases n,
{
    if n == 0 || n > all.len() {
        f
    } else {
        found_chain(
            found_calls(f, p, all, (n - 1) as nat),
            p,
            Seq::empty(),
            all[n - 1].call_chain@,
            all[n - 1].call_chain@.len(),
        )
    }
}

/// Those calls after resolution.
pub open spec fn tagged_calls(
    p: Place,
    old: Seq<CallChainLiteralExprNode>,
    new: Seq<CallChainLiteralExprNode>,
) -> bool {
    old.len() == new.len() && forall|i: int|
        0 <= i < old.len() ==> tagged_chain(
            p,
            Seq::empty(),
            old[i].call_chain@,
            (#[trigger] new[i]).call_chain@,
        )
}

/// What is found where a state passes events on: the state that it passes
/// them to is not declared.
pub open spec fn found_dispatch(f: Findings, p: Place, dispatch: Option<DispatchNode>) -> Findings {
    match dispatch {
        Some(d) => if p.state_signature(d.target_state_ref.name@).is_some() {
            f
        } else {
            f.report(d.line as nat, undeclared("state"@, d.target_state_ref.name@))
        },
        None => f,
    }
}

/// What is found in a state: in the initializers of its variables, in its
/// calls, in its handlers, and where it passes events on.
pub open spec fn found_state(f: Findings, d: Declarations, st: StateNode) -> Findings {
    let p = place_of_state(d, st);
    let vars = match st.vars_opt {
        Some(list) => found_var_decls(f, p, list@, list@.len()),
        None => f,
    };
    let calls = match st.calls_opt {
        Some(list) => found_calls(vars, p, list@, list@.len()),
        None => vars,
    };
    found_dispatch(
        found_handlers(calls, p, st.evt_handlers@, st.evt_handlers@.len()),
        p,
        st.dispatch_opt,
    )
}

/// A state after resolution.
pub open spec fn tagged_state(d: Declarations, old: StateNode, new: StateNode) -> bool {
    let p = place_of_state(d, old);
    new.name == old.name && new.params_opt == old.params_opt && new.dispatch_opt
        == old.dispatch_opt && new.line == old.line && tagged_optional_vars(
        p,
        old.vars_opt,
        new.vars_opt,
    ) && (match old.calls_opt {
        Some(o) => new.calls_opt matches Some(n) && tagged_calls(p, o@, n@),
        None => new.calls_opt is None,
    }) && tagged_handlers(p, old.evt_handlers@, new.evt_handlers@)
}

/// What is found in the first `n` states.
pub open spec fn found_states(f: Findings, d: Declarations, all: Seq<StateNode>, n: nat) -> Findings
    decreases n,
{
    if n == 0 || n > all.len() {
        f
    } else {
        found_state(found_states(f, d, all, (n - 1) as nat), d, all[n - 1])
    }
}

/// The states after resolution.
pub open spec fn tagged_states(d: Declarations, old: Seq<StateNode>, new: Seq<StateNode>) -> bool {
    old.len() == new.len() && forall|i: int|
        0 <= i < old.len() ==> tagged_state(d, old[i], #[trigger] new[i])
}

/// What resolution finds in a system: the fatal diagnostics and the
/// warnings, in the order of the tree, the domain before the machine.
pub open spec fn found_system(d: Declarations, node: SystemNode) -> Findings {
    let start = Findings { diagnostics: Seq::empty(), warnings: Seq::empty() };
    let domain = match node.domain_block_node_opt {
        Some(b) => found_var_decls(
            start,
            place_of_domain(d),
            b.member_variables@,
            b.member_variables@.len(),
        ),
        None => start,
    };
    match node.machine_block_node_opt {
        Some(b) => found_states(domain, d, b.states@, b.states@.len()),
        None => domain,
    }
}

/// A system after resolution: every reference to a variable carries the
/// tag of the scope that its name resolves to at its place, and nothing
/// else has changed.
pub open spec fn tagged_system(d: Declarations, old: SystemNode, new: SystemNode) -> bool {
    new.name == old.name && new.line == old.line && new.interface_block_node_opt
        == old.interface_block_node_opt && new.actions_block_node_opt
        == old.actions_block_node_opt && (match old.domain_block_node_opt {
        Some(o) => new.domain_block_node_opt matches Some(n) && tagged_var_decls(
            place_of_domain(d),
            o.member_variables@,
            n.member_variables@,
        ),
        None => new.domain_block_node_opt is None,
    }) && (match old.machine_block_node_opt {
        Some(o) => new.machine_block_node_opt matches Some(n) && tagged_states(
            d,
            o.states@,
            n.states@,
        ),
        None => new.machine_block_node_opt is None,
    })
}

/// The position of the first handler of the message `message`, from
/// `from` on.
pub open spec fn handler_position(
    all: Seq<EventHandlerNode>,
    message: Seq<char>,
    from: int,
) -> Option<
    int,
>
    decreases all.len() - from,
{
    if from < 0 || from >= all.len() {
        None
    } else if all[from].msg_t matches MessageType::CustomMessage { message_node }
        && message_node.name@ == message {
        Some(from)
    } else {
        handler_position(all, message, from + 1)
    }
}

/// The number of parameters of the handler of `message`, if the state has
/// one.
pub open spec fn handler_arity(st: StateNode, message: Seq<char>) -> Option<usize> {
    match handler_position(st.evt_handlers@, message, 0) {
        Some(i) => Some(
            match st.evt_handlers@[i].params_opt {
                Some(list) => list@.len() as usize,
                None => 0usize,
            },
        ),
        None => None,
    }
}

/// Whether `signature` is that of the action `a`.
pub open spec fn signs_action(signature: Signature, a: ActionNode) -> bool {
    signature.name@ == a.name@ && signature.message@ == a.name@ && names_of(signature.params@)
        == optional_param_names(a.params)
}

/// Whether `signature` is that of the method `m`.
pub open spec fn signs_method(signature: Signature, m: InterfaceMethodNode) -> bool {
    signature.name@ == m.name@ && signature.message@ == (match m.alias {
        Some(alias) => alias.name@,
        None => m.name@,
    }) && names_of(signature.params@) == optional_param_names(m.params)
}

/// Whether `signature` is that of the state `st`. The enter handler is the
/// handler of `>` and the exit handler that of `<`.
pub open spec fn signs_state(signature: StateSignature, st: StateNode) -> bool {
    signature.name@ == st.name@ && names_of(signature.params@) == optional_param_names(
        st.params_opt,
    ) && names_of(signature.vars@) == optional_var_names(st.vars_opt) && signature.enter
        == handler_arity(st, ">"@) && signature.exit == handler_arity(st, "<"@)
}

/// Whether `d` is what the system declares: its domain variables, actions,
/// methods and states, each list in the order of the tree.
pub open spec fn declared_by(d: Declarations, node: SystemNode) -> bool {
    &&& names_of(d.domain@) == (match node.domain_block_node_opt {
        Some(b) => var_names(b.member_variables@),
        None => Seq::empty(),
    })
    &&& match node.actions_block_node_opt {
        Some(b) => d.actions@.len() == b.actions@.len() && forall|i: int|
            0 <= i < b.actions@.len() ==> signs_action(#[trigger] d.actions@[i], b.actions@[i]),
        None => d.actions@.len() == 0,
    }
    &&& match node.interface_block_node_opt {
        Some(b) => d.methods@.len() == b.interface_methods@.len() && forall|i: int|
            0 <= i < b.interface_methods@.len() ==> signs_method(
                #[trigger] d.methods@[i],
                b.interface_methods@[i],
            ),
        None => d.methods@.len() == 0,
    }
    &&& match node.machine_block_node_opt {
        Some(b) => d.states@.len() == b.states@.len() && forall|i: int|
            0 <= i < b.states@.len() ==> signs_state(#[trigger] d.states@[i], b.states@[i]),
        None => d.states@.len() == 0,
    }
}

} // verus!
