//! What holds of every resolution: a tree in which resolution finds
//! nothing fatal leaves it with every reference resolved.

use crate::ast::{
    BoolTestConditionalBranchNode, CallChainLiteralExprNode, CallChainLiteralNodeType,
    DeclOrStmtType, EventHandlerNode, ExprListNode, ExprStmtType, ExprType, IdentifierDeclScope,
    NumberMatchTestMatchBranchNode, StateContextType, StateNode, StatementType,
    StringMatchTestMatchBranchNode, SystemNode, TerminatorExpr, TestType, VariableDeclNode,
    VariableNode,
};
use crate::scopes::{
    Declarations, Findings, Place, declared_bool, declared_number, declared_stmts, declared_string,
    found_action, found_args, found_block, found_bool, found_calls, found_chain,
    found_decl_or_stmt, found_end, found_exit, found_expr, found_expr_stmt, found_handler,
    found_handlers, found_link, found_list, found_method, found_number, found_optional,
    found_state, found_states, found_stmts, found_string, found_system, found_target, found_var,
    found_var_decls, lemma_scope_is_declared, place_of_domain, place_of_handler, place_of_state,
    tagged_args, tagged_block, tagged_bool, tagged_chain, tagged_decl_or_stmt, tagged_end,
    tagged_expr, tagged_expr_stmt, tagged_handler, tagged_link, tagged_list, tagged_number,
    tagged_optional, tagged_state, tagged_stmts, tagged_string, tagged_system, tagged_target,
    tagged_var, tagged_var_decls,
};
use vstd::prelude::*;

verus! {

/// Whether a reference carries the tag of one of the five scopes of
/// variables.
pub open spec fn resolved_var(v: VariableNode) -> bool {
    v.scope == IdentifierDeclScope::DomainBlock || v.scope == IdentifierDeclScope::StateParam
        || v.scope == IdentifierDeclScope::StateVar || v.scope
        == IdentifierDeclScope::EventHandlerParam || v.scope
        == IdentifierDeclScope::EventHandlerVar
}

/// Whether every reference in an expression is resolved.
pub open spec fn resolved_expr(e: ExprType) -> bool
    decreases e, 0nat,
{
    match e {
        ExprType::AssignmentExprT { assignment_expr_node } => resolved_expr(
            *assignment_expr_node.l_value_box,
        ) && resolved_expr(*assignment_expr_node.r_value_box),
        ExprType::ActionCallExprT { action_call_expr_node } => resolved_list(
            action_call_expr_node.call_expr_list.exprs_t@,
        ),
        ExprType::CallChainLiteralExprT { call_chain_expr_node } => resolved_chain(
            call_chain_expr_node.call_chain@,
        ),
        ExprType::CallExprT { call_expr_node } => resolved_list(
            call_expr_node.call_expr_list.exprs_t@,
        ),
        ExprType::CallExprListT { call_expr_list_node } => resolved_list(
            call_expr_list_node.exprs_t@,
        ),
        ExprType::ExprListT { expr_list_node } => resolved_list(expr_list_node.exprs_t@),
        ExprType::VariableExprT { var_node } => resolved_var(var_node),
        ExprType::LiteralExprT { .. } => true,
        ExprType::StateStackOperationExprT { .. } => true,
        ExprType::FrameEventExprT { .. } => true,
        ExprType::UnaryExprT { unary_expr_node } => resolved_expr(*unary_expr_node.right),
        ExprType::BinaryExprT { binary_expr_node } => resolved_expr(*binary_expr_node.left)
            && resolved_expr(*binary_expr_node.right),
    }
}

/// Whether every reference in a list of expressions is resolved.
pub open spec fn resolved_list(exprs: Seq<ExprType>) -> bool
    decreases exprs, 1nat,
{
    forall|i: int| 0 <= i < exprs.len() ==> resolved_expr(#[trigger] exprs[i])
}

/// Whether every reference in a link of a chain is resolved.
pub open spec fn resolved_link(node: CallChainLiteralNodeType) -> bool
    decreases node, 0nat,
{
    match node {
        CallChainLiteralNodeType::VariableNodeT { var_node } => resolved_var(var_node),
        CallChainLiteralNodeType::IdentifierNodeT { .. } => true,
        CallChainLiteralNodeType::CallT { call } => resolved_list(call.call_expr_list.exprs_t@),
        CallChainLiteralNodeType::InterfaceMethodCallT {
            interface_method_call_expr_node,
        } => resolved_list(interface_method_call_expr_node.call_expr_list.exprs_t@),
        CallChainLiteralNodeType::ActionCallT { action_call_expr_node } => resolved_list(
            action_call_expr_node.call_expr_list.exprs_t@,
        ),
    }
}

/// Whether every reference in a chain is resolved.
pub open spec fn resolved_chain(links: Seq<CallChainLiteralNodeType>) -> bool
    decreases links, 1nat,
{
    forall|i: int| 0 <= i < links.len() ==> resolved_link(#[trigger] links[i])
}

/// The number of fatal diagnostics.
pub open spec fn fatal(f: Findings) -> nat {
    f.diagnostics.len()
}

/// Resolution only adds to what it has found.
proof fn lemma_more_expr(f: Findings, p: Place, locals: Seq<Seq<char>>, e: ExprType)
    ensures
        fatal(f) <= fatal(found_expr(f, p, locals, e)),
    decreases e, 0nat,
{
    match e {
        ExprType::AssignmentExprT { assignment_expr_node } => {
            lemma_more_expr(f, p, locals, *assignment_expr_node.l_value_box);
            lemma_more_expr(
                found_expr(f, p, locals, *assignment_expr_node.l_value_box),
                p,
                locals,
                *assignment_expr_node.r_value_box,
            );
        },
        ExprType::ActionCallExprT { action_call_expr_node } => {
            lemma_more_list(
                found_action(f, p, action_call_expr_node),
                p,
                locals,
                action_call_expr_node.call_expr_list.exprs_t@,
                action_call_expr_node.call_expr_list.exprs_t@.len(),
                0,
            );
        },
        ExprType::CallChainLiteralExprT { call_chain_expr_node } => {
            lemma_more_chain(
                f,
                p,
                locals,
                call_chain_expr_node.call_chain@,
                call_chain_expr_node.call_chain@.len(),
                0,
            );
        },
        ExprType::CallExprT { call_expr_node } => {
            lemma_more_list(
                f,
                p,
                locals,
                call_expr_node.call_expr_list.exprs_t@,
                call_expr_node.call_expr_list.exprs_t@.len(),
                0,
            );
        },
        ExprType::CallExprListT { call_expr_list_node } => {
            lemma_more_list(
                f,
                p,
                locals,
                call_expr_list_node.exprs_t@,
                call_expr_list_node.exprs_t@.len(),
                0,
            );
        },
        ExprType::ExprListT { expr_list_node } => {
            lemma_more_list(
                f,
                p,
                locals,
                expr_list_node.exprs_t@,
                expr_list_node.exprs_t@.len(),
                0,
            );
        },
        ExprType::UnaryExprT { unary_expr_node } => {
            lemma_more_expr(f, p, locals, *unary_expr_node.right);
        },
        ExprType::BinaryExprT { binary_expr_node } => {
            lemma_more_expr(f, p, locals, *binary_expr_node.left);
            lemma_more_expr(
                found_expr(f, p, locals, *binary_expr_node.left),
                p,
                locals,
                *binary_expr_node.right,
            );
        },
        _ => {},
    }
}

/// What is found in the first `i` expressions of a list is found in the
/// first `n`, and what is found at the start in the first `i`.
proof fn lemma_more_list(
    f: Findings,
    p: Place,
    locals: Seq<Seq<char>>,
    exprs: Seq<ExprType>,
    n: nat,
    i: nat,
)
    requires
        i <= n <= exprs.len(),
    ensures
        fatal(f) <= fatal(found_list(f, p, locals, exprs, i)),
        fatal(found_list(f, p, locals, exprs, i)) <= fatal(found_list(f, p, locals, exprs, n)),
    decreases exprs, n,
{
    if n > 0 {
        if i < n {
            lemma_more_list(f, p, locals, exprs, (n - 1) as nat, i);
            lemma_more_expr(
                found_list(f, p, locals, exprs, (n - 1) as nat),
                p,
                locals,
                exprs[n - 1],
            );
        } else {
            lemma_more_list(f, p, locals, exprs, (n - 1) as nat, (n - 1) as nat);
            lemma_more_expr(
                found_list(f, p, locals, exprs, (n - 1) as nat),
                p,
                locals,
                exprs[n - 1],
            );
        }
    }
}

proof fn lemma_more_link(
    f: Findings,
    p: Place,
    locals: Seq<Seq<char>>,
    node: CallChainLiteralNodeType,
)
    ensures
        fatal(f) <= fatal(found_link(f, p, locals, node)),
    decreases node, 0nat,
{
    match node {
        CallChainLiteralNodeType::CallT { call } => {
            lemma_more_list(
                f,
                p,
                locals,
                call.call_expr_list.exprs_t@,
                call.call_expr_list.exprs_t@.len(),
                0,
            );
        },
        CallChainLiteralNodeType::InterfaceMethodCallT { interface_method_call_expr_node } => {
            lemma_more_list(
                found_method(f, p, interface_method_call_expr_node),
                p,
                locals,
                interface_method_call_expr_node.call_expr_list.exprs_t@,
                interface_method_call_expr_node.call_expr_list.exprs_t@.len(),
                0,
            );
        },
        CallChainLiteralNodeType::ActionCallT { action_call_expr_node } => {
            lemma_more_list(
                found_action(f, p, action_call_expr_node),
                p,
                locals,
                action_call_expr_node.call_expr_list.exprs_t@,
                action_call_expr_node.call_expr_list.exprs_t@.len(),
                0,
            );
        },
        _ => {},
    }
}

proof fn lemma_more_chain(
    f: Findings,
    p: Place,
    locals: Seq<Seq<char>>,
    links: Seq<CallChainLiteralNodeType>,
    n: nat,
    i: nat,
)
    requires
        i <= n <= links.len(),
    ensures
        fatal(f) <= fatal(found_chain(f, p, locals, links, i)),
        fatal(found_chain(f, p, locals, links, i)) <= fatal(found_chain(f, p, locals, links, n)),
    decreases links, n,
{
    if n > 0 {
        if i < n {
            lemma_more_chain(f, p, locals, links, (n - 1) as nat, i);
        } else {
            lemma_more_chain(f, p, locals, links, (n - 1) as nat, (n - 1) as nat);
        }
        lemma_more_link(found_chain(f, p, locals, links, (n - 1) as nat), p, locals, links[n - 1]);
    }
}

/// A reference at which nothing fatal is found is resolved.
proof fn lemma_resolved_var(
    f: Findings,
    p: Place,
    locals: Seq<Seq<char>>,
    old: VariableNode,
    new: VariableNode,
)
    requires
        tagged_var(p, locals, old, new),
        fatal(found_var(f, p, locals, old)) == fatal(f),
    ensures
        resolved_var(new),
{
    lemma_scope_is_declared(p.scopes(locals), old.id_node.name.lexeme@);
}

/// An expression in which nothing fatal is found is resolved.
proof fn lemma_resolved_expr(
    f: Findings,
    p: Place,
    locals: Seq<Seq<char>>,
    old: ExprType,
    new: ExprType,
)
    requires
        tagged_expr(p, locals, old, new),
        fatal(found_expr(f, p, locals, old)) == fatal(f),
    ensures
        resolved_expr(new),
    decreases old, 0nat,
{
    match old {
        ExprType::AssignmentExprT { assignment_expr_node: o } => {
            let n = new->AssignmentExprT_assignment_expr_node;
            let f1 = found_expr(f, p, locals, *o.l_value_box);
            lemma_more_expr(f, p, locals, *o.l_value_box);
            lemma_more_expr(f1, p, locals, *o.r_value_box);
            lemma_resolved_expr(f, p, locals, *o.l_value_box, *n.l_value_box);
            lemma_resolved_expr(f1, p, locals, *o.r_value_box, *n.r_value_box);
        },
        ExprType::ActionCallExprT { action_call_expr_node: o } => {
            let n = new->ActionCallExprT_action_call_expr_node;
            let f1 = found_action(f, p, o);
            lemma_more_list(
                f1,
                p,
                locals,
                o.call_expr_list.exprs_t@,
                o.call_expr_list.exprs_t@.len(),
                0,
            );
            lemma_resolved_list(f1, p, locals, o.call_expr_list.exprs_t@, n.call_expr_list.exprs_t@);
        },
        ExprType::CallChainLiteralExprT { call_chain_expr_node: o } => {
            let n = new->CallChainLiteralExprT_call_chain_expr_node;
            lemma_resolved_chain(f, p, locals, o.call_chain@, n.call_chain@);
        },
        ExprType::CallExprT { call_expr_node: o } => {
            let n = new->CallExprT_call_expr_node;
            lemma_resolved_list(f, p, locals, o.call_expr_list.exprs_t@, n.call_expr_list.exprs_t@);
        },
        ExprType::CallExprListT { call_expr_list_node: o } => {
            let n = new->CallExprListT_call_expr_list_node;
            lemma_resolved_list(f, p, locals, o.exprs_t@, n.exprs_t@);
        },
        ExprType::ExprListT { expr_list_node: o } => {
            let n = new->ExprListT_expr_list_node;
            lemma_resolved_list(f, p, locals, o.exprs_t@, n.exprs_t@);
        },
        ExprType::VariableExprT { var_node: o } => {
            lemma_resolved_var(f, p, locals, o, new->VariableExprT_var_node);
        },
        ExprType::UnaryExprT { unary_expr_node: o } => {
            let n = new->UnaryExprT_unary_expr_node;
            lemma_resolved_expr(f, p, locals, *o.right, *n.right);
        },
        ExprType::BinaryExprT { binary_expr_node: o } => {
            let n = new->BinaryExprT_binary_expr_node;
            let f1 = found_expr(f, p, locals, *o.left);
            lemma_more_expr(f, p, locals, *o.left);
            lemma_more_expr(f1, p, locals, *o.right);
            lemma_resolved_expr(f, p, locals, *o.left, *n.left);
            lemma_resolved_expr(f1, p, locals, *o.right, *n.right);
        },
        _ => {},
    }
}

/// A list of expressions in which nothing fatal is found is resolved.
proof fn lemma_resolved_list(
    f: Findings,
    p: Place,
    locals: Seq<Seq<char>>,
    old: Seq<ExprType>,
    new: Seq<ExprType>,
)
    requires
        tagged_list(p, locals, old, new),
        fatal(found_list(f, p, locals, old, old.len())) == fatal(f),
    ensures
        resolved_list(new),
    decreases old, 1nat,
{
    assert forall|i: int| 0 <= i < new.len() implies resolved_expr(#[trigger] new[i]) by {
        lemma_more_list(f, p, locals, old, old.len(), i as nat);
        lemma_more_list(f, p, locals, old, old.len(), (i + 1) as nat);
        lemma_more_expr(found_list(f, p, locals, old, i as nat), p, locals, old[i]);
        lemma_resolved_expr(found_list(f, p, locals, old, i as nat), p, locals, old[i], new[i]);
    }
}

/// A link in which nothing fatal is found is resolved.
proof fn lemma_resolved_link(
    f: Findings,
    p: Place,
    locals: Seq<Seq<char>>,
    old: CallChainLiteralNodeType,
    new: CallChainLiteralNodeType,
)
    requires
        tagged_link(p, locals, old, new),
        fatal(found_link(f, p, locals, old)) == fatal(f),
    ensures
        resolved_link(new),
    decreases old, 0nat,
{
    match old {
        CallChainLiteralNodeType::VariableNodeT { var_node: o } => {
            lemma_resolved_var(f, p, locals, o, new->VariableNodeT_var_node);
        },
        CallChainLiteralNodeType::IdentifierNodeT { .. } => {},
        CallChainLiteralNodeType::CallT { call: o } => {
            let n = new->CallT_call;
            lemma_resolved_list(f, p, locals, o.call_expr_list.exprs_t@, n.call_expr_list.exprs_t@);
        },
        CallChainLiteralNodeType::InterfaceMethodCallT { interface_method_call_expr_node: o } => {
            let n = new->InterfaceMethodCallT_interface_method_call_expr_node;
            let f1 = found_method(f, p, o);
            lemma_more_list(
                f1,
                p,
                locals,
                o.call_expr_list.exprs_t@,
                o.call_expr_list.exprs_t@.len(),
                0,
            );
            lemma_resolved_list(f1, p, locals, o.call_expr_list.exprs_t@, n.call_expr_list.exprs_t@);
        },
        CallChainLiteralNodeType::ActionCallT { action_call_expr_node: o } => {
            let n = new->ActionCallT_action_call_expr_node;
            let f1 = found_action(f, p, o);
            lemma_more_list(
                f1,
                p,
                locals,
                o.call_expr_list.exprs_t@,
                o.call_expr_list.exprs_t@.len(),
                0,
            );
            lemma_resolved_list(f1, p, locals, o.call_expr_list.exprs_t@, n.call_expr_list.exprs_t@);
        },
    }
}

/// A chain in which nothing fatal is found is resolved.
proof fn lemma_resolved_chain(
    f: Findings,
    p: Place,
    locals: Seq<Seq<char>>,
    old: Seq<CallChainLiteralNodeType>,
    new: Seq<CallChainLiteralNodeType>,
)
    requires
        tagged_chain(p, locals, old, new),
        fatal(found_chain(f, p, locals, old, old.len())) == fatal(f),
    ensures
        resolved_chain(new),
    decreases old, 1nat,
{
    assert forall|i: int| 0 <= i < new.len() implies resolved_link(#[trigger] new[i]) by {
        lemma_more_chain(f, p, locals, old, old.len(), i as nat);
        lemma_more_chain(f, p, locals, old, old.len(), (i + 1) as nat);
        lemma_more_link(found_chain(f, p, locals, old, i as nat), p, locals, old[i]);
        lemma_resolved_link(found_chain(f, p, locals, old, i as nat), p, locals, old[i], new[i]);
    }
}

/// Whether every reference in an expression that may be absent is
/// resolved.
pub open spec fn resolved_optional(e: Option<ExprType>) -> bool {
    match e {
        Some(e) => resolved_expr(e),
        None => true,
    }
}

/// Whether every reference in a list of arguments that may be absent is
/// resolved.
pub open spec fn resolved_args(list: Option<ExprListNode>) -> bool {
    match list {
        Some(l) => resolved_list(l.exprs_t@),
        None => true,
    }
}

/// Whether every reference at the end of a branch is resolved.
pub open spec fn resolved_end(end: Option<TerminatorExpr>) -> bool {
    match end {
        Some(t) => resolved_optional(t.return_expr_t_opt),
        None => true,
    }
}

/// Whether every reference in the arguments of a target is resolved.
pub open spec fn resolved_target(target: StateContextType) -> bool {
    match target {
        StateContextType::StateRef { state_context_node } => resolved_args(
            state_context_node.enter_args_opt,
        ) && resolved_args(state_context_node.state_ref_args_opt),
        StateContextType::StateStackPop => true,
    }
}

/// Whether every reference in a statement that is an expression is
/// resolved.
pub open spec fn resolved_expr_stmt(st: ExprStmtType) -> bool {
    match st {
        ExprStmtType::CallStmtT { call_stmt_node } => resolved_list(
            call_stmt_node.call_expr_node.call_expr_list.exprs_t@,
        ),
        ExprStmtType::ActionCallStmtT { action_call_stmt_node } => resolved_list(
            action_call_stmt_node.action_call_expr_node.call_expr_list.exprs_t@,
        ),
        ExprStmtType::CallChainLiteralStmtT { call_chain_literal_stmt_node } => resolved_chain(
            call_chain_literal_stmt_node.call_chain_literal_expr_node.call_chain@,
        ),
        ExprStmtType::AssignmentStmtT { assignment_stmt_node } => resolved_expr(
            *assignment_stmt_node.assignment_expr_node.l_value_box,
        ) && resolved_expr(*assignment_stmt_node.assignment_expr_node.r_value_box),
        ExprStmtType::VariableStmtT { variable_stmt_node } => resolved_var(
            variable_stmt_node.var_node,
        ),
    }
}

/// Whether every reference in a declaration or statement is resolved.
pub open spec fn resolved_decl_or_stmt(d: DeclOrStmtType) -> bool
    decreases d, 0nat,
{
    match d {
        DeclOrStmtType::VarDeclT { var_decl_t } => resolved_optional(
            var_decl_t.initializer_expr_t_opt,
        ),
        DeclOrStmtType::StmtT { stmt_t } => match stmt_t {
            StatementType::ExpressionStmt { expr_stmt_t } => resolved_expr_stmt(expr_stmt_t),
            StatementType::TransitionStmt { transition_statement } => resolved_args(
                transition_statement.exit_args_opt,
            ) && resolved_target(transition_statement.target_state_context_t),
            StatementType::TestStmt { test_stmt_node } => match test_stmt_node.test_t {
                TestType::BoolTest { bool_test_node } => resolved_bool(
                    bool_test_node.conditional_branch_nodes@,
                ) && (match bool_test_node.else_branch_node_opt {
                    Some(e) => resolved_block(e.statements@, e.branch_terminator_expr_opt),
                    None => true,
                }),
                TestType::StringMatchTest { string_match_test_node } => resolved_expr(
                    string_match_test_node.expr_t,
                ) && resolved_string(string_match_test_node.match_branch_nodes@) && (
                match string_match_test_node.else_branch_node_opt {
                    Some(e) => resolved_block(e.statements@, e.branch_terminator_expr_opt),
                    None => true,
                }),
                TestType::NumberMatchTest { number_match_test_node } => resolved_expr(
                    number_match_test_node.expr_t,
                ) && resolved_number(number_match_test_node.match_branch_nodes@) && (
                match number_match_test_node.else_branch_node_opt {
                    Some(e) => resolved_block(e.statements@, e.branch_terminator_expr_opt),
                    None => true,
                }),
            },
            StatementType::ChangeStateStmt { change_state_stmt } => resolved_target(
                change_state_stmt.state_context_t,
            ),
            _ => true,
        },
    }
}

/// Whether every reference in the statements is resolved.
pub open spec fn resolved_stmts(all: Seq<DeclOrStmtType>) -> bool
    decreases all, 1nat,
{
    forall|i: int| 0 <= i < all.len() ==> resolved_decl_or_stmt(#[trigger] all[i])
}

/// Whether every reference in a branch is resolved.
pub open spec fn resolved_block(all: Seq<DeclOrStmtType>, end: Option<TerminatorExpr>) -> bool
    decreases all, 2nat,
{
    resolved_stmts(all) && resolved_end(end)
}

/// Whether every reference in the branches of a boolean test is resolved.
pub open spec fn resolved_bool(all: Seq<BoolTestConditionalBranchNode>) -> bool
    decreases all, 0nat,
{
    forall|i: int|
        0 <= i < all.len() ==> resolved_expr((#[trigger] all[i]).expr_t) && resolved_block(
            all[i].statements@,
            all[i].branch_terminator_expr_opt,
        )
}

/// Whether every reference in the branches of a string test is resolved.
pub open spec fn resolved_string(all: Seq<StringMatchTestMatchBranchNode>) -> bool
    decreases all, 0nat,
{
    forall|i: int|
        0 <= i < all.len() ==> resolved_block(
            (#[trigger] all[i]).statements@,
            all[i].branch_terminator_expr_opt,
        )
}

/// Whether every reference in the branches of a number test is resolved.
pub open spec fn resolved_number(all: Seq<NumberMatchTestMatchBranchNode>) -> bool
    decreases all, 0nat,
{
    forall|i: int|
        0 <= i < all.len() ==> resolved_block(
            (#[trigger] all[i]).statements@,
            all[i].branch_terminator_expr_opt,
        )
}

proof fn lemma_more_optional(f: Findings, p: Place, locals: Seq<Seq<char>>, e: Option<ExprType>)
    ensures
        fatal(f) <= fatal(found_optional(f, p, locals, e)),
{
    match e {
        Some(e) => lemma_more_expr(f, p, locals, e),
        None => {},
    }
}

proof fn lemma_more_args(f: Findings, p: Place, locals: Seq<Seq<char>>, list: Option<ExprListNode>)
    ensures
        fatal(f) <= fatal(found_args(f, p, locals, list)),
{
    match list {
        Some(l) => lemma_more_list(f, p, locals, l.exprs_t@, l.exprs_t@.len(), 0),
        None => {},
    }
}

proof fn lemma_more_end(f: Findings, p: Place, locals: Seq<Seq<char>>, end: Option<TerminatorExpr>)
    ensures
        fatal(f) <= fatal(found_end(f, p, locals, end)),
{
    match end {
        Some(t) => lemma_more_optional(f, p, locals, t.return_expr_t_opt),
        None => {},
    }
}

proof fn lemma_resolved_optional(
    f: Findings,
    p: Place,
    locals: Seq<Seq<char>>,
    old: Option<ExprType>,
    new: Option<ExprType>,
)
    requires
        tagged_optional(p, locals, old, new),
        fatal(found_optional(f, p, locals, old)) == fatal(f),
    ensures
        resolved_optional(new),
{
    match old {
        Some(o) => lemma_resolved_expr(f, p, locals, o, new->0),
        None => {},
    }
}

proof fn lemma_resolved_args(
    f: Findings,
    p: Place,
    locals: Seq<Seq<char>>,
    old: Option<ExprListNode>,
    new: Option<ExprListNode>,
)
    requires
        tagged_args(p, locals, old, new),
        fatal(found_args(f, p, locals, old)) == fatal(f),
    ensures
        resolved_args(new),
{
    match old {
        Some(o) => lemma_resolved_list(f, p, locals, o.exprs_t@, new->0.exprs_t@),
        None => {},
    }
}

proof fn lemma_resolved_end(
    f: Findings,
    p: Place,
    locals: Seq<Seq<char>>,
    old: Option<TerminatorExpr>,
    new: Option<TerminatorExpr>,
)
    requires
        tagged_end(p, locals, old, new),
        fatal(found_end(f, p, locals, old)) == fatal(f),
    ensures
        resolved_end(new),
{
    match old {
        Some(o) => lemma_resolved_optional(
            f,
            p,
            locals,
            o.return_expr_t_opt,
            new->0.return_expr_t_opt,
        ),
        None => {},
    }
}

/// What is found at a target, in its arguments and behind them.
proof fn lemma_target(
    f: Findings,
    p: Place,
    locals: Seq<Seq<char>>,
    old: StateContextType,
    new: StateContextType,
    line: nat,
    entering: bool,
)
    requires
        old is StateRef,
    ensures
        fatal(f) <= fatal(
            found_target(f, p, locals, old->StateRef_state_context_node, line, entering),
        ),
        tagged_target(p, locals, old, new) && fatal(
            found_target(f, p, locals, old->StateRef_state_context_node, line, entering),
        ) == fatal(f) ==> resolved_target(new),
{
    let o = old->StateRef_state_context_node;
    let f1 = found_args(f, p, locals, o.enter_args_opt);
    let f2 = found_args(f1, p, locals, o.state_ref_args_opt);
    lemma_more_args(f, p, locals, o.enter_args_opt);
    lemma_more_args(f1, p, locals, o.state_ref_args_opt);
    if tagged_target(p, locals, old, new) && fatal(found_target(f, p, locals, o, line, entering))
        == fatal(f) {
        let n = new->StateRef_state_context_node;
        lemma_resolved_args(f, p, locals, o.enter_args_opt, n.enter_args_opt);
        lemma_resolved_args(f1, p, locals, o.state_ref_args_opt, n.state_ref_args_opt);
    }
}

proof fn lemma_more_expr_stmt(f: Findings, p: Place, locals: Seq<Seq<char>>, st: ExprStmtType)
    ensures
        fatal(f) <= fatal(found_expr_stmt(f, p, locals, st)),
{
    match st {
        ExprStmtType::CallStmtT { call_stmt_node } => {
            let exprs = call_stmt_node.call_expr_node.call_expr_list.exprs_t@;
            lemma_more_list(f, p, locals, exprs, exprs.len(), 0);
        },
        ExprStmtType::ActionCallStmtT { action_call_stmt_node } => {
            let exprs = action_call_stmt_node.action_call_expr_node.call_expr_list.exprs_t@;
            lemma_more_list(
                found_action(f, p, action_call_stmt_node.action_call_expr_node),
                p,
                locals,
                exprs,
                exprs.len(),
                0,
            );
        },
        ExprStmtType::CallChainLiteralStmtT { call_chain_literal_stmt_node } => {
            let links = call_chain_literal_stmt_node.call_chain_literal_expr_node.call_chain@;
            lemma_more_chain(f, p, locals, links, links.len(), 0);
        },
        ExprStmtType::AssignmentStmtT { assignment_stmt_node } => {
            let l = *assignment_stmt_node.assignment_expr_node.l_value_box;
            let r = *assignment_stmt_node.assignment_expr_node.r_value_box;
            lemma_more_expr(f, p, locals, l);
            lemma_more_expr(found_expr(f, p, locals, l), p, locals, r);
        },
        ExprStmtType::VariableStmtT { .. } => {},
    }
}

proof fn lemma_resolved_expr_stmt(
    f: Findings,
    p: Place,
    locals: Seq<Seq<char>>,
    old: ExprStmtType,
    new: ExprStmtType,
)
    requires
        tagged_expr_stmt(p, locals, old, new),
        fatal(found_expr_stmt(f, p, locals, old)) == fatal(f),
    ensures
        resolved_expr_stmt(new),
{
    match old {
        ExprStmtType::CallStmtT { call_stmt_node: o } => {
            let n = new->CallStmtT_call_stmt_node;
            lemma_resolved_list(
                f,
                p,
                locals,
                o.call_expr_node.call_expr_list.exprs_t@,
                n.call_expr_node.call_expr_list.exprs_t@,
            );
        },
        ExprStmtType::ActionCallStmtT { action_call_stmt_node: o } => {
            let n = new->ActionCallStmtT_action_call_stmt_node;
            let exprs = o.action_call_expr_node.call_expr_list.exprs_t@;
            let f1 = found_action(f, p, o.action_call_expr_node);
            lemma_more_list(f1, p, locals, exprs, exprs.len(), 0);
            lemma_resolved_list(
                f1,
                p,
                locals,
                exprs,
                n.action_call_expr_node.call_expr_list.exprs_t@,
            );
        },
        ExprStmtType::CallChainLiteralStmtT { call_chain_literal_stmt_node: o } => {
            let n = new->CallChainLiteralStmtT_call_chain_literal_stmt_node;
            lemma_resolved_chain(
                f,
                p,
                locals,
                o.call_chain_literal_expr_node.call_chain@,
                n.call_chain_literal_expr_node.call_chain@,
            );
        },
        ExprStmtType::AssignmentStmtT { assignment_stmt_node: o } => {
            let n = new->AssignmentStmtT_assignment_stmt_node;
            let l = *o.assignment_expr_node.l_value_box;
            let r = *o.assignment_expr_node.r_value_box;
            let f1 = found_expr(f, p, locals, l);
            lemma_more_expr(f, p, locals, l);
            lemma_more_expr(f1, p, locals, r);
            lemma_resolved_expr(f, p, locals, l, *n.assignment_expr_node.l_value_box);
            lemma_resolved_expr(f1, p, locals, r, *n.assignment_expr_node.r_value_box);
        },
        ExprStmtType::VariableStmtT { variable_stmt_node: o } => {
            lemma_resolved_var(
                f,
                p,
                locals,
                o.var_node,
                new->VariableStmtT_variable_stmt_node.var_node,
            );
        },
    }
}

/// Resolution only adds to what it has found in a declaration or
/// statement.
proof fn lemma_more_decl_or_stmt(f: Findings, p: Place, locals: Seq<Seq<char>>, d: DeclOrStmtType)
    ensures
        fatal(f) <= fatal(found_decl_or_stmt(f, p, locals, d)),
    decreases d, 0nat,
{
    match d {
        DeclOrStmtType::VarDeclT { var_decl_t } => {
            lemma_more_optional(f, p, locals, var_decl_t.initializer_expr_t_opt);
        },
        DeclOrStmtType::StmtT { stmt_t } => match stmt_t {
            StatementType::ExpressionStmt { expr_stmt_t } => {
                lemma_more_expr_stmt(f, p, locals, expr_stmt_t);
            },
            StatementType::TransitionStmt { transition_statement: t } => {
                let f1 = found_args(f, p, locals, t.exit_args_opt);
                lemma_more_args(f, p, locals, t.exit_args_opt);
                if t.target_state_context_t is StateRef {
                    lemma_target(
                        found_exit(f1, p, t),
                        p,
                        locals,
                        t.target_state_context_t,
                        t.target_state_context_t,
                        t.line as nat,
                        true,
                    );
                }
            },
            StatementType::TestStmt { test_stmt_node } => match test_stmt_node.test_t {
                TestType::BoolTest { bool_test_node: b } => {
                    let all = b.conditional_branch_nodes@;
                    lemma_more_bool(f, p, locals, all, all.len(), 0);
                    match b.else_branch_node_opt {
                        Some(e) => lemma_more_block(
                            found_bool(f, p, locals, all, all.len()),
                            p,
                            declared_bool(locals, all, all.len()),
                            e.statements@,
                            e.branch_terminator_expr_opt,
                        ),
                        None => {},
                    }
                },
                TestType::StringMatchTest { string_match_test_node: b } => {
                    let all = b.match_branch_nodes@;
                    let f1 = found_expr(f, p, locals, b.expr_t);
                    lemma_more_expr(f, p, locals, b.expr_t);
                    lemma_more_string(f1, p, locals, all, all.len(), 0);
                    match b.else_branch_node_opt {
                        Some(e) => lemma_more_block(
                            found_string(f1, p, locals, all, all.len()),
                            p,
                            declared_string(locals, all, all.len()),
                            e.statements@,
                            e.branch_terminator_expr_opt,
                        ),
                        None => {},
                    }
                },
                TestType::NumberMatchTest { number_match_test_node: b } => {
                    let all = b.match_branch_nodes@;
                    let f1 = found_expr(f, p, locals, b.expr_t);
                    lemma_more_expr(f, p, locals, b.expr_t);
                    lemma_more_number(f1, p, locals, all, all.len(), 0);
                    match b.else_branch_node_opt {
                        Some(e) => lemma_more_block(
                            found_number(f1, p, locals, all, all.len()),
                            p,
                            declared_number(locals, all, all.len()),
                            e.statements@,
                            e.branch_terminator_expr_opt,
                        ),
                        None => {},
                    }
                },
            },
            StatementType::ChangeStateStmt { change_state_stmt: c } => {
                if c.state_context_t is StateRef {
                    lemma_target(
                        f,
                        p,
                        locals,
                        c.state_context_t,
                        c.state_context_t,
                        c.line as nat,
                        false,
                    );
                }
            },
            _ => {},
        },
    }
}

proof fn lemma_more_stmts(
    f: Findings,
    p: Place,
    locals: Seq<Seq<char>>,
    all: Seq<DeclOrStmtType>,
    n: nat,
    i: nat,
)
    requires
        i <= n <= all.len(),
    ensures
        fatal(f) <= fatal(found_stmts(f, p, locals, all, i)),
        fatal(found_stmts(f, p, locals, all, i)) <= fatal(found_stmts(f, p, locals, all, n)),
    decreases all, n,
{
    if n > 0 {
        if i < n {
            lemma_more_stmts(f, p, locals, all, (n - 1) as nat, i);
        } else {
            lemma_more_stmts(f, p, locals, all, (n - 1) as nat, (n - 1) as nat);
        }
        lemma_more_decl_or_stmt(
            found_stmts(f, p, locals, all, (n - 1) as nat),
            p,
            declared_stmts(locals, all, (n - 1) as nat),
            all[n - 1],
        );
    }
}

proof fn lemma_more_block(
    f: Findings,
    p: Place,
    locals: Seq<Seq<char>>,
    all: Seq<DeclOrStmtType>,
    end: Option<TerminatorExpr>,
)
    ensures
        fatal(f) <= fatal(found_stmts(f, p, locals, all, all.len())),
        fatal(found_stmts(f, p, locals, all, all.len())) <= fatal(
            found_block(f, p, locals, all, end),
        ),
    decreases all, all.len() + 1,
{
    lemma_more_stmts(f, p, locals, all, all.len(), 0);
    lemma_more_end(
        found_stmts(f, p, locals, all, all.len()),
        p,
        declared_stmts(locals, all, all.len()),
        end,
    );
}

proof fn lemma_more_bool(
    f: Findings,
    p: Place,
    locals: Seq<Seq<char>>,
    all: Seq<BoolTestConditionalBranchNode>,
    n: nat,
    i: nat,
)
    requires
        i <= n <= all.len(),
    ensures
        fatal(f) <= fatal(found_bool(f, p, locals, all, i)),
        fatal(found_bool(f, p, locals, all, i)) <= fatal(found_bool(f, p, locals, all, n)),
    decreases all, n,
{
    if n > 0 {
        if i < n {
            lemma_more_bool(f, p, locals, all, (n - 1) as nat, i);
        } else {
            lemma_more_bool(f, p, locals, all, (n - 1) as nat, (n - 1) as nat);
        }
        let before = found_bool(f, p, locals, all, (n - 1) as nat);
        let here = declared_bool(locals, all, (n - 1) as nat);
        lemma_more_expr(before, p, here, all[n - 1].expr_t);
        lemma_more_block(
            found_expr(before, p, here, all[n - 1].expr_t),
            p,
            here,
            all[n - 1].statements@,
            all[n - 1].branch_terminator_expr_opt,
        );
    }
}

proof fn lemma_more_string(
    f: Findings,
    p: Place,
    locals: Seq<Seq<char>>,
    all: Seq<StringMatchTestMatchBranchNode>,
    n: nat,
    i: nat,
)
    requires
        i <= n <= all.len(),
    ensures
        fatal(f) <= fatal(found_string(f, p, locals, all, i)),
        fatal(found_string(f, p, locals, all, i)) <= fatal(found_string(f, p, locals, all, n)),
    decreases all, n,
{
    if n > 0 {
        if i < n {
            lemma_more_string(f, p, locals, all, (n - 1) as nat, i);
        } else {
            lemma_more_string(f, p, locals, all, (n - 1) as nat, (n - 1) as nat);
        }
        lemma_more_block(
            found_string(f, p, locals, all, (n - 1) as nat),
            p,
            declared_string(locals, all, (n - 1) as nat),
            all[n - 1].statements@,
            all[n - 1].branch_terminator_expr_opt,
        );
    }
}

proof fn lemma_more_number(
    f: Findings,
    p: Place,
    locals: Seq<Seq<char>>,
    all: Seq<NumberMatchTestMatchBranchNode>,
    n: nat,
    i: nat,
)
    requires
        i <= n <= all.len(),
    ensures
        fatal(f) <= fatal(found_number(f, p, locals, all, i)),
        fatal(found_number(f, p, locals, all, i)) <= fatal(found_number(f, p, locals, all, n)),
    decreases all, n,
{
    if n > 0 {
        if i < n {
            lemma_more_number(f, p, locals, all, (n - 1) as nat, i);
        } else {
            lemma_more_number(f, p, locals, all, (n - 1) as nat, (n - 1) as nat);
        }
        lemma_more_block(
            found_number(f, p, locals, all, (n - 1) as nat),
            p,
            declared_number(locals, all, (n - 1) as nat),
            all[n - 1].statements@,
            all[n - 1].branch_terminator_expr_opt,
        );
    }
}

/// A declaration or statement in which nothing fatal is found is
/// resolved.
proof fn lemma_resolved_decl_or_stmt(
    f: Findings,
    p: Place,
    locals: Seq<Seq<char>>,
    old: DeclOrStmtType,
    new: DeclOrStmtType,
)
    requires
        tagged_decl_or_stmt(p, locals, old, new),
        fatal(found_decl_or_stmt(f, p, locals, old)) == fatal(f),
    ensures
        resolved_decl_or_stmt(new),
    decreases old, 0nat,
{
    match old {
        DeclOrStmtType::VarDeclT { var_decl_t: o } => {
            lemma_resolved_optional(
                f,
                p,
                locals,
                o.initializer_expr_t_opt,
                new->VarDeclT_var_decl_t.initializer_expr_t_opt,
            );
        },
        DeclOrStmtType::StmtT { stmt_t: o } => {
            let n = new->StmtT_stmt_t;
            match o {
                StatementType::ExpressionStmt { expr_stmt_t: o } => {
                    lemma_resolved_expr_stmt(f, p, locals, o, n->ExpressionStmt_expr_stmt_t);
                },
                StatementType::TransitionStmt { transition_statement: o } => {
                    let n = n->TransitionStmt_transition_statement;
                    let f1 = found_args(f, p, locals, o.exit_args_opt);
                    let f2 = found_exit(f1, p, o);
                    lemma_more_args(f, p, locals, o.exit_args_opt);
                    if o.target_state_context_t is StateRef {
                        lemma_target(
                            f2,
                            p,
                            locals,
                            o.target_state_context_t,
                            n.target_state_context_t,
                            o.line as nat,
                            true,
                        );
                    }
                    lemma_resolved_args(f, p, locals, o.exit_args_opt, n.exit_args_opt);
                },
                StatementType::TestStmt { test_stmt_node: o } => {
                    let n = n->TestStmt_test_stmt_node;
                    match o.test_t {
                        TestType::BoolTest { bool_test_node: o } => {
                            let n = n.test_t->BoolTest_bool_test_node;
                            let all = o.conditional_branch_nodes@;
                            let fb = found_bool(f, p, locals, all, all.len());
                            lemma_more_bool(f, p, locals, all, all.len(), 0);
                            match o.else_branch_node_opt {
                                Some(oe) => {
                                    let ne = n.else_branch_node_opt->0;
                                    let here = declared_bool(locals, all, all.len());
                                    lemma_more_block(
                                        fb,
                                        p,
                                        here,
                                        oe.statements@,
                                        oe.branch_terminator_expr_opt,
                                    );
                                    lemma_resolved_block(
                                        fb,
                                        p,
                                        here,
                                        oe.statements@,
                                        ne.statements@,
                                        oe.branch_terminator_expr_opt,
                                        ne.branch_terminator_expr_opt,
                                    );
                                },
                                None => {},
                            }
                            lemma_resolved_bool(f, p, locals, all, n.conditional_branch_nodes@);
                        },
                        TestType::StringMatchTest { string_match_test_node: o } => {
                            let n = n.test_t->StringMatchTest_string_match_test_node;
                            let all = o.match_branch_nodes@;
                            let f1 = found_expr(f, p, locals, o.expr_t);
                            let fb = found_string(f1, p, locals, all, all.len());
                            lemma_more_expr(f, p, locals, o.expr_t);
                            lemma_more_string(f1, p, locals, all, all.len(), 0);
                            match o.else_branch_node_opt {
                                Some(oe) => {
                                    let ne = n.else_branch_node_opt->0;
                                    let here = declared_string(locals, all, all.len());
                                    lemma_more_block(
                                        fb,
                                        p,
                                        here,
                                        oe.statements@,
                                        oe.branch_terminator_expr_opt,
                                    );
                                    lemma_resolved_block(
                                        fb,
                                        p,
                                        here,
                                        oe.statements@,
                                        ne.statements@,
                                        oe.branch_terminator_expr_opt,
                                        ne.branch_terminator_expr_opt,
                                    );
                                },
                                None => {},
                            }
                            lemma_resolved_expr(f, p, locals, o.expr_t, n.expr_t);
                            lemma_resolved_string(f1, p, locals, all, n.match_branch_nodes@);
                        },
                        TestType::NumberMatchTest { number_match_test_node: o } => {
                            let n = n.test_t->NumberMatchTest_number_match_test_node;
                            let all = o.match_branch_nodes@;
                            let f1 = found_expr(f, p, locals, o.expr_t);
                            let fb = found_number(f1, p, locals, all, all.len());
                            lemma_more_expr(f, p, locals, o.expr_t);
                            lemma_more_number(f1, p, locals, all, all.len(), 0);
                            match o.else_branch_node_opt {
                                Some(oe) => {
                                    let ne = n.else_branch_node_opt->0;
                                    let here = declared_number(locals, all, all.len());
                                    lemma_more_block(
                                        fb,
                                        p,
                                        here,
                                        oe.statements@,
                                        oe.branch_terminator_expr_opt,
                                    );
                                    lemma_resolved_block(
                                        fb,
                                        p,
                                        here,
                                        oe.statements@,
                                        ne.statements@,
                                        oe.branch_terminator_expr_opt,
                                        ne.branch_terminator_expr_opt,
                                    );
                                },
                                None => {},
                            }
                            lemma_resolved_expr(f, p, locals, o.expr_t, n.expr_t);
                            lemma_resolved_number(f1, p, locals, all, n.match_branch_nodes@);
                        },
                    }
                },
                StatementType::ChangeStateStmt { change_state_stmt: o } => {
                    let n = n->ChangeStateStmt_change_state_stmt;
                    if o.state_context_t is StateRef {
                        lemma_target(
                            f,
                            p,
                            locals,
                            o.state_context_t,
                            n.state_context_t,
                            o.line as nat,
                            false,
                        );
                    }
                },
                _ => {},
            }
        },
    }
}

proof fn lemma_resolved_stmts(
    f: Findings,
    p: Place,
    locals: Seq<Seq<char>>,
    old: Seq<DeclOrStmtType>,
    new: Seq<DeclOrStmtType>,
)
    requires
        tagged_stmts(p, locals, old, new),
        fatal(found_stmts(f, p, locals, old, old.len())) == fatal(f),
    ensures
        resolved_stmts(new),
    decreases old, 1nat,
{
    assert forall|i: int| 0 <= i < new.len() implies resolved_decl_or_stmt(#[trigger] new[i]) by {
        let before = found_stmts(f, p, locals, old, i as nat);
        let here = declared_stmts(locals, old, i as nat);
        lemma_more_stmts(f, p, locals, old, old.len(), i as nat);
        lemma_more_stmts(f, p, locals, old, old.len(), (i + 1) as nat);
        lemma_more_decl_or_stmt(before, p, here, old[i]);
        lemma_resolved_decl_or_stmt(before, p, here, old[i], new[i]);
    }
}

proof fn lemma_resolved_block(
    f: Findings,
    p: Place,
    locals: Seq<Seq<char>>,
    old: Seq<DeclOrStmtType>,
    new: Seq<DeclOrStmtType>,
    old_end: Option<TerminatorExpr>,
    new_end: Option<TerminatorExpr>,
)
    requires
        tagged_block(p, locals, old, new, old_end, new_end),
        fatal(found_block(f, p, locals, old, old_end)) == fatal(f),
    ensures
        resolved_block(new, new_end),
    decreases old, 2nat,
{
    lemma_more_block(f, p, locals, old, old_end);
    lemma_resolved_stmts(f, p, locals, old, new);
    lemma_resolved_end(
        found_stmts(f, p, locals, old, old.len()),
        p,
        declared_stmts(locals, old, old.len()),
        old_end,
        new_end,
    );
}

proof fn lemma_resolved_bool(
    f: Findings,
    p: Place,
    locals: Seq<Seq<char>>,
    old: Seq<BoolTestConditionalBranchNode>,
    new: Seq<BoolTestConditionalBranchNode>,
)
    requires
        tagged_bool(p, locals, old, new),
        fatal(found_bool(f, p, locals, old, old.len())) == fatal(f),
    ensures
        resolved_bool(new),
    decreases old, 0nat,
{
    assert forall|i: int| 0 <= i < new.len() implies resolved_expr((#[trigger] new[i]).expr_t)
        && resolved_block(new[i].statements@, new[i].branch_terminator_expr_opt) by {
        let before = found_bool(f, p, locals, old, i as nat);
        let here = declared_bool(locals, old, i as nat);
        let tested = found_expr(before, p, here, old[i].expr_t);
        lemma_more_bool(f, p, locals, old, old.len(), i as nat);
        lemma_more_bool(f, p, locals, old, old.len(), (i + 1) as nat);
        lemma_more_expr(before, p, here, old[i].expr_t);
        lemma_more_block(
            tested,
            p,
            here,
            old[i].statements@,
            old[i].branch_terminator_expr_opt,
        );
        lemma_resolved_expr(before, p, here, old[i].expr_t, new[i].expr_t);
        lemma_resolved_block(
            tested,
            p,
            here,
            old[i].statements@,
            new[i].statements@,
            old[i].branch_terminator_expr_opt,
            new[i].branch_terminator_expr_opt,
        );
    }
}

proof fn lemma_resolved_string(
    f: Findings,
    p: Place,
    locals: Seq<Seq<char>>,
    old: Seq<StringMatchTestMatchBranchNode>,
    new: Seq<StringMatchTestMatchBranchNode>,
)
    requires
        tagged_string(p, locals, old, new),
        fatal(found_string(f, p, locals, old, old.len())) == fatal(f),
    ensures
        resolved_string(new),
    decreases old, 0nat,
{
    assert forall|i: int| 0 <= i < new.len() implies resolved_block(
        (#[trigger] new[i]).statements@,
        new[i].branch_terminator_expr_opt,
    ) by {
        let before = found_string(f, p, locals, old, i as nat);
        let here = declared_string(locals, old, i as nat);
        lemma_more_string(f, p, locals, old, old.len(), i as nat);
        lemma_more_string(f, p, locals, old, old.len(), (i + 1) as nat);
        lemma_more_block(
            before,
            p,
            here,
            old[i].statements@,
            old[i].branch_terminator_expr_opt,
        );
        lemma_resolved_block(
            before,
            p,
            here,
            old[i].statements@,
            new[i].statements@,
            old[i].branch_terminator_expr_opt,
            new[i].branch_terminator_expr_opt,
        );
    }
}

proof fn lemma_resolved_number(
    f: Findings,
    p: Place,
    locals: Seq<Seq<char>>,
    old: Seq<NumberMatchTestMatchBranchNode>,
    new: Seq<NumberMatchTestMatchBranchNode>,
)
    requires
        tagged_number(p, locals, old, new),
        fatal(found_number(f, p, locals, old, old.len())) == fatal(f),
    ensures
        resolved_number(new),
    decreases old, 0nat,
{
    assert forall|i: int| 0 <= i < new.len() implies resolved_block(
        (#[trigger] new[i]).statements@,
        new[i].branch_terminator_expr_opt,
    ) by {
        let before = found_number(f, p, locals, old, i as nat);
        let here = declared_number(locals, old, i as nat);
        lemma_more_number(f, p, locals, old, old.len(), i as nat);
        lemma_more_number(f, p, locals, old, old.len(), (i + 1) as nat);
        lemma_more_block(
            before,
            p,
            here,
            old[i].statements@,
            old[i].branch_terminator_expr_opt,
        );
        lemma_resolved_block(
            before,
            p,
            here,
            old[i].statements@,
            new[i].statements@,
            old[i].branch_terminator_expr_opt,
            new[i].branch_terminator_expr_opt,
        );
    }
}

/// Whether every reference in a handler is resolved.
pub open spec fn resolved_handler(h: EventHandlerNode) -> bool {
    resolved_stmts(h.statements@) && resolved_optional(h.terminator_node.return_expr_t_opt)
}

/// Whether every reference in the initializers of the variables is
/// resolved.
pub open spec fn resolved_var_decls(all: Seq<VariableDeclNode>) -> bool {
    forall|i: int|
        0 <= i < all.len() ==> resolved_optional((#[trigger] all[i]).initializer_expr_t_opt)
}

/// Whether every reference in a state is resolved.
pub open spec fn resolved_state(st: StateNode) -> bool {
    &&& match st.vars_opt {
        Some(list) => resolved_var_decls(list@),
        None => true,
    }
    &&& match st.calls_opt {
        Some(list) => forall|i: int|
            0 <= i < list@.len() ==> resolved_chain((#[trigger] list@[i]).call_chain@),
        None => true,
    }
    &&& forall|i: int|
        0 <= i < st.evt_handlers@.len() ==> resolved_handler(#[trigger] st.evt_handlers@[i])
}

/// Whether every reference to a variable in a system is resolved: whether
/// each carries the tag of one of the five scopes.
pub open spec fn resolved_system(node: SystemNode) -> bool {
    &&& match node.domain_block_node_opt {
        Some(b) => resolved_var_decls(b.member_variables@),
        None => true,
    }
    &&& match node.machine_block_node_opt {
        Some(b) => forall|i: int|
            0 <= i < b.states@.len() ==> resolved_state(#[trigger] b.states@[i]),
        None => true,
    }
}

proof fn lemma_handler(f: Findings, p: Place, old: EventHandlerNode, new: EventHandlerNode)
    ensures
        fatal(f) <= fatal(found_handler(f, p, old)),
        tagged_handler(p, old, new) && fatal(found_handler(f, p, old)) == fatal(f)
            ==> resolved_handler(new),
{
    let here = place_of_handler(p, old);
    let none = Seq::<Seq<char>>::empty();
    let all = old.statements@;
    let body = found_stmts(f, here, none, all, all.len());
    lemma_more_stmts(f, here, none, all, all.len(), 0);
    lemma_more_optional(
        body,
        here,
        declared_stmts(none, all, all.len()),
        old.terminator_node.return_expr_t_opt,
    );
    if tagged_handler(p, old, new) && fatal(found_handler(f, p, old)) == fatal(f) {
        lemma_resolved_stmts(f, here, none, all, new.statements@);
        lemma_resolved_optional(
            body,
            here,
            declared_stmts(none, all, all.len()),
            old.terminator_node.return_expr_t_opt,
            new.terminator_node.return_expr_t_opt,
        );
    }
}

proof fn lemma_more_handlers(f: Findings, p: Place, all: Seq<EventHandlerNode>, n: nat, i: nat)
    requires
        i <= n <= all.len(),
    ensures
        fatal(f) <= fatal(found_handlers(f, p, all, i)),
        fatal(found_handlers(f, p, all, i)) <= fatal(found_handlers(f, p, all, n)),
    decreases n,
{
    if n > 0 {
        if i < n {
            lemma_more_handlers(f, p, all, (n - 1) as nat, i);
        } else {
            lemma_more_handlers(f, p, all, (n - 1) as nat, (n - 1) as nat);
        }
        lemma_handler(found_handlers(f, p, all, (n - 1) as nat), p, all[n - 1], all[n - 1]);
    }
}

proof fn lemma_more_var_decls(f: Findings, p: Place, all: Seq<VariableDeclNode>, n: nat, i: nat)
    requires
        i <= n <= all.len(),
    ensures
        fatal(f) <= fatal(found_var_decls(f, p, all, i)),
        fatal(found_var_decls(f, p, all, i)) <= fatal(found_var_decls(f, p, all, n)),
    decreases n,
{
    if n > 0 {
        if i < n {
            lemma_more_var_decls(f, p, all, (n - 1) as nat, i);
        } else {
            lemma_more_var_decls(f, p, all, (n - 1) as nat, (n - 1) as nat);
        }
        lemma_more_optional(
            found_var_decls(f, p, all, (n - 1) as nat),
            p,
            Seq::empty(),
            all[n - 1].initializer_expr_t_opt,
        );
    }
}

proof fn lemma_resolved_var_decls(
    f: Findings,
    p: Place,
    old: Seq<VariableDeclNode>,
    new: Seq<VariableDeclNode>,
)
    requires
        tagged_var_decls(p, old, new),
        fatal(found_var_decls(f, p, old, old.len())) == fatal(f),
    ensures
        resolved_var_decls(new),
{
    assert forall|i: int| 0 <= i < new.len() implies resolved_optional(
        (#[trigger] new[i]).initializer_expr_t_opt,
    ) by {
        let before = found_var_decls(f, p, old, i as nat);
        lemma_more_var_decls(f, p, old, old.len(), i as nat);
        lemma_more_var_decls(f, p, old, old.len(), (i + 1) as nat);
        lemma_more_optional(before, p, Seq::empty(), old[i].initializer_expr_t_opt);
        lemma_resolved_optional(
            before,
            p,
            Seq::empty(),
            old[i].initializer_expr_t_opt,
            new[i].initializer_expr_t_opt,
        );
    }
}

proof fn lemma_more_calls(
    f: Findings,
    p: Place,
    all: Seq<CallChainLiteralExprNode>,
    n: nat,
    i: nat,
)
    requires
        i <= n <= all.len(),
    ensures
        fatal(f) <= fatal(found_calls(f, p, all, i)),
        fatal(found_calls(f, p, all, i)) <= fatal(found_calls(f, p, all, n)),
    decreases n,
{
    if n > 0 {
        if i < n {
            lemma_more_calls(f, p, all, (n - 1) as nat, i);
        } else {
            lemma_more_calls(f, p, all, (n - 1) as nat, (n - 1) as nat);
        }
        lemma_more_chain(
            found_calls(f, p, all, (n - 1) as nat),
            p,
            Seq::empty(),
            all[n - 1].call_chain@,
            all[n - 1].call_chain@.len(),
            0,
        );
    }
}

proof fn lemma_state(f: Findings, d: Declarations, old: StateNode, new: StateNode)
    ensures
        fatal(f) <= fatal(found_state(f, d, old)),
        tagged_state(d, old, new) && fatal(found_state(f, d, old)) == fatal(f) ==> resolved_state(
            new,
        ),
{
    let p = place_of_state(d, old);
    let vars = match old.vars_opt {
        Some(list) => found_var_decls(f, p, list@, list@.len()),
        None => f,
    };
    let calls = match old.calls_opt {
        Some(list) => found_calls(vars, p, list@, list@.len()),
        None => vars,
    };
    let handled = found_handlers(calls, p, old.evt_handlers@, old.evt_handlers@.len());
    match old.vars_opt {
        Some(list) => lemma_more_var_decls(f, p, list@, list@.len(), 0),
        None => {},
    }
    match old.calls_opt {
        Some(list) => lemma_more_calls(vars, p, list@, list@.len(), 0),
        None => {},
    }
    lemma_more_handlers(calls, p, old.evt_handlers@, old.evt_handlers@.len(), 0);
    if tagged_state(d, old, new) && fatal(found_state(f, d, old)) == fatal(f) {
        match old.vars_opt {
            Some(list) => lemma_resolved_var_decls(f, p, list@, new.vars_opt->0@),
            None => {},
        }
        match old.calls_opt {
            Some(list) => {
                let fresh = new.calls_opt->0@;
                assert forall|i: int| 0 <= i < fresh.len() implies resolved_chain(
                    (#[trigger] fresh[i]).call_chain@,
                ) by {
                    let before = found_calls(vars, p, list@, i as nat);
                    lemma_more_calls(vars, p, list@, list@.len(), i as nat);
                    lemma_more_calls(vars, p, list@, list@.len(), (i + 1) as nat);
                    lemma_more_chain(
                        before,
                        p,
                        Seq::empty(),
                        list@[i].call_chain@,
                        list@[i].call_chain@.len(),
                        0,
                    );
                    lemma_resolved_chain(
                        before,
                        p,
                        Seq::empty(),
                        list@[i].call_chain@,
                        fresh[i].call_chain@,
                    );
                }
            },
            None => {},
        }
        let all = old.evt_handlers@;
        assert forall|i: int| 0 <= i < new.evt_handlers@.len() implies resolved_handler(
            #[trigger] new.evt_handlers@[i],
        ) by {
            lemma_more_handlers(calls, p, all, all.len(), i as nat);
            lemma_more_handlers(calls, p, all, all.len(), (i + 1) as nat);
            lemma_handler(found_handlers(calls, p, all, i as nat), p, all[i], new.evt_handlers@[i]);
        }
    }
}

proof fn lemma_more_states(f: Findings, d: Declarations, all: Seq<StateNode>, n: nat, i: nat)
    requires
        i <= n <= all.len(),
    ensures
        fatal(f) <= fatal(found_states(f, d, all, i)),
        fatal(found_states(f, d, all, i)) <= fatal(found_states(f, d, all, n)),
    decreases n,
{
    if n > 0 {
        if i < n {
            lemma_more_states(f, d, all, (n - 1) as nat, i);
        } else {
            lemma_more_states(f, d, all, (n - 1) as nat, (n - 1) as nat);
        }
        lemma_state(found_states(f, d, all, (n - 1) as nat), d, all[n - 1], all[n - 1]);
    }
}

/// Resolution leaves no reference behind: in a tree in which it finds
/// nothing fatal, every reference to a variable carries, after resolution,
/// the tag of one of the five scopes.
pub proof fn lemma_resolution_is_complete(d: Declarations, old: SystemNode, new: SystemNode)
    requires
        tagged_system(d, old, new),
        found_system(d, old).diagnostics.len() == 0,
    ensures
        resolved_system(new),
{
    let start = Findings { diagnostics: Seq::empty(), warnings: Seq::empty() };
    let p = place_of_domain(d);
    let domain = match old.domain_block_node_opt {
        Some(b) => found_var_decls(start, p, b.member_variables@, b.member_variables@.len()),
        None => start,
    };
    match old.domain_block_node_opt {
        Some(b) => {
            lemma_more_var_decls(start, p, b.member_variables@, b.member_variables@.len(), 0);
        },
        None => {},
    }
    match old.machine_block_node_opt {
        Some(b) => {
            let all = b.states@;
            let fresh = new.machine_block_node_opt->0.states@;
            lemma_more_states(domain, d, all, all.len(), 0);
            assert forall|i: int| 0 <= i < fresh.len() implies resolved_state(
                #[trigger] fresh[i],
            ) by {
                lemma_more_states(domain, d, all, all.len(), i as nat);
                lemma_more_states(domain, d, all, all.len(), (i + 1) as nat);
                lemma_state(found_states(domain, d, all, i as nat), d, all[i], fresh[i]);
            }
        },
        None => {},
    }
    match old.domain_block_node_opt {
        Some(b) => {
            lemma_resolved_var_decls(
                start,
                p,
                b.member_variables@,
                new.domain_block_node_opt->0.member_variables@,
            );
        },
        None => {},
    }
}

} // verus!
