//! The JavaScript that a system is rendered to, stated over the syntax
//! tree.
//!
//! A [`Gen`] is what a generator has written so far. Each function here
//! says what one kind of node adds to it; the generator is proved to write
//! exactly that.

use crate::ast::{
    UnaryExprNode,
    ActionCallStmtNode, AssignmentStmtNode, CallChainLiteralStmtNode, CallStmtNode, DispatchNode,
    VariableStmtNode,
    AssignmentExprNode, BinaryExprNode, ChangeStateStatementNode, TestStatementNode, ActionNode,
    ActionsBlockNode, DomainBlockNode, InterfaceBlockNode, InterfaceMethodNode, MachineBlockNode,
    ParameterNode, SystemNode, ActionCallExprNode, BoolTestConditionalBranchNode, BoolTestNode,
    CallChainLiteralNodeType, CallExprNode, DeclOrStmtType, EventHandlerNode, ExprStmtType,
    ExprType, FrameEventPart, IdentifierDeclScope, InterfaceMethodCallExprNode, LiteralExprNode,
    MessageType, NumberMatchTestMatchBranchNode, NumberMatchTestNode, NumberMatchTestPatternNode,
    OperatorType, StateContextNode, StateContextType, StateNode, StateStackOperationType,
    StatementType, StringMatchTestMatchBranchNode, StringMatchTestNode, TerminatorExpr,
    TerminatorType, TestType, TransitionStatementNode, VariableDeclNode, VariableNode,
};
use crate::symbol_table::{
    EventSymbol, ParameterSymbol, StateSymbol, event_position, state_position,
};
use crate::token::{TokenType, TokenView};
use vstd::prelude::*;

verus! {

/// What a generator was set up with.
pub ghost struct Setup<'a> {
    pub version: Seq<char>,
    pub comments: Seq<TokenView>,
    pub states: Seq<StateSymbol<'a>>,
    pub events: Seq<EventSymbol>,
    pub serializable: bool,
    pub exit_args: bool,
    pub state_context: bool,
    pub state_stack: bool,
    pub change_state: bool,
    pub transition_state: bool,
}

/// What a generator has written and where it stands.
pub ghost struct Gen {
    /// The target text so far.
    pub code: Seq<char>,
    /// The depth of indentation.
    pub dent: usize,
    /// The number of comments that were written out.
    pub cursor: usize,
    /// The state whose handlers are being written.
    pub state: Option<Seq<char>>,
    /// Whether the next handler is the first of its state.
    pub first_handler: bool,
    pub warnings: Seq<Seq<char>>,
    /// The defects that were found in the tree.
    pub errors: Seq<Seq<char>>,
}

/// A line feed and the indentation of depth `dent`, four spaces a level.
pub open spec fn line_break(dent: nat) -> Seq<char>
    decreases dent,
{
    if dent == 0 {
        "\n"@
    } else {
        line_break((dent - 1) as nat) + "    "@
    }
}

/// The text of a comment without the three characters that open it and,
/// for a comment of several lines, the three that close it.
pub open spec fn comment_body(lexeme: Seq<char>, single: bool) -> Seq<char> {
    if single {
        if lexeme.len() >= 3 {
            lexeme.subrange(3, lexeme.len() as int)
        } else {
            Seq::empty()
        }
    } else if lexeme.len() >= 6 {
        lexeme.subrange(3, lexeme.len() - 3)
    } else {
        Seq::empty()
    }
}

impl Gen {
    /// After writing `text`.
    pub open spec fn add(self, text: Seq<char>) -> Gen {
        Gen { code: self.code + text, ..self }
    }

    /// After beginning a new line at the current depth.
    pub open spec fn newline(self) -> Gen {
        self.add(line_break(self.dent as nat))
    }

    /// One level deeper.
    pub open spec fn indent(self) -> Gen {
        Gen {
            dent: if self.dent < usize::MAX {
                (self.dent + 1) as usize
            } else {
                self.dent
            },
            ..self
        }
    }

    /// One level back.
    pub open spec fn outdent(self) -> Gen {
        Gen {
            dent: if self.dent > 0 {
                (self.dent - 1) as usize
            } else {
                self.dent
            },
            ..self
        }
    }

    /// After recording a defect of the tree.
    pub open spec fn fail(self, message: Seq<char>) -> Gen {
        Gen { errors: self.errors.push(message), ..self }
    }

    /// After recording a warning.
    pub open spec fn warn(self, message: Seq<char>) -> Gen {
        Gen { warnings: self.warnings.push(message), ..self }
    }

    /// After writing one comment of the source.
    pub open spec fn comment(self, token: TokenView) -> Gen {
        if token.kind == TokenType::SingleLineComment {
            self.add("  // "@).add(comment_body(token.lexeme, true)).newline()
        } else {
            self.add("/* "@).add(comment_body(token.lexeme, false)).add("*/"@)
        }
    }

    /// After writing out the comments of the source that stand on `line`
    /// or above it and were not written out yet.
    pub open spec fn comments(self, all: Seq<TokenView>, line: nat) -> Gen
        decreases all.len() - self.cursor,
    {
        if self.cursor < all.len() && self.cursor < usize::MAX && line >= all[
            self.cursor as int
        ].line {
            (Gen { cursor: (self.cursor + 1) as usize, ..self.comment(all[self.cursor as int]) })
                .comments(all, line)
        } else {
            self
        }
    }
}

/// How an operator is written. The exclusive or has no operator of its own.
pub open spec fn operator_text(operator: OperatorType) -> Seq<char> {
    match operator {
        OperatorType::Plus => " + "@,
        OperatorType::Minus => " - "@,
        OperatorType::Negated => "-"@,
        OperatorType::Multiply => " * "@,
        OperatorType::Divide => " / "@,
        OperatorType::Greater => " > "@,
        OperatorType::GreaterEqual => " >= "@,
        OperatorType::Less => " < "@,
        OperatorType::LessEqual => " <= "@,
        OperatorType::Not => "!"@,
        OperatorType::EqualEqual => " == "@,
        OperatorType::NotEqual => " != "@,
        OperatorType::LogicalAnd => " && "@,
        OperatorType::LogicalOr => " || "@,
        OperatorType::LogicalXor => ""@,
    }
}

/// A part of the event `e` that is being handled.
pub open spec fn event_part(g: Gen, part: FrameEventPart) -> Gen {
    match part {
        FrameEventPart::Event { .. } => g.add("e"@),
        FrameEventPart::Message { .. } => g.add("e._message"@),
        FrameEventPart::Param { param_tok, .. } => g.add("e._parameters[\""@).add(
            param_tok.lexeme@,
        ).add("\"]"@),
        FrameEventPart::Return { .. } => g.add("e._return"@),
    }
}

/// A literal. Only numbers, strings, super strings, truth values and the
/// two words for no value are literals; another token is a defect.
pub open spec fn literal(g: Gen, node: LiteralExprNode) -> Gen {
    match node.token_t {
        TokenType::Number => g.add(node.value@),
        TokenType::SuperString => g.add(node.value@),
        TokenType::String => g.add("\""@).add(node.value@).add("\""@),
        TokenType::True => g.add("true"@),
        TokenType::False => g.add("false"@),
        TokenType::Null => g.add("null"@),
        TokenType::Nil => g.add("null"@),
        _ => g.fail("Unsupported literal."@),
    }
}

/// A keyed lookup, in parentheses where it is a link of a chain.
pub open spec fn keyed(
    g: Gen,
    open: Seq<char>,
    name: Seq<char>,
    close: Seq<char>,
    wrap: bool,
) -> Gen {
    let inner = (if wrap {
        g.add("("@)
    } else {
        g
    }).add(open).add(name).add(close);
    if wrap {
        inner.add(")"@)
    } else {
        inner
    }
}

/// A reference to a variable, by the scope that it was resolved to: a
/// domain variable is a member of the instance, a state parameter or
/// variable is looked up in the state context, a parameter of the handler
/// in the event, and a variable of the handler is a local binding, as is a
/// name that was declared elsewhere. The scopes of the interface and of the
/// actions hold no variables: such a tag is a defect.
pub open spec fn variable(g: Gen, node: VariableNode, wrap: bool) -> Gen {
    let name = node.id_node.name.lexeme@;
    match node.scope {
        IdentifierDeclScope::DomainBlock => g.add("that."@).add(name),
        IdentifierDeclScope::StateParam => keyed(
            g,
            "_stateContext_.getStateArg(\""@,
            name,
            "\")"@,
            wrap,
        ),
        IdentifierDeclScope::StateVar => keyed(
            g,
            "_stateContext_.getStateVar(\""@,
            name,
            "\")"@,
            wrap,
        ),
        IdentifierDeclScope::EventHandlerParam => keyed(g, "e._parameters[\""@, name, "\"]"@, wrap),
        IdentifierDeclScope::EventHandlerVar => g.add(name),
        IdentifierDeclScope::Unresolved => g.add(name),
        _ => g.fail("Illegal scope."@),
    }
}

/// An expression.
pub open spec fn expr(g: Gen, e: ExprType) -> Gen
    decreases e, 0nat,
{
    match e {
        ExprType::AssignmentExprT { assignment_expr_node } => expr(
            expr(g, *assignment_expr_node.l_value_box).add(" = "@),
            *assignment_expr_node.r_value_box,
        ),
        ExprType::ActionCallExprT { action_call_expr_node } => action_call(
            g,
            action_call_expr_node,
        ),
        ExprType::CallChainLiteralExprT { call_chain_expr_node } => chain(
            g,
            call_chain_expr_node.call_chain@,
            call_chain_expr_node.call_chain@.len(),
        ),
        ExprType::CallExprT { call_expr_node } => call(g, call_expr_node),
        ExprType::CallExprListT { call_expr_list_node } => args(g, call_expr_list_node.exprs_t@),
        ExprType::ExprListT { expr_list_node } => args(g, expr_list_node.exprs_t@),
        ExprType::VariableExprT { var_node } => variable(g, var_node, false),
        ExprType::LiteralExprT { literal_expr_node } => literal(g, literal_expr_node),
        ExprType::StateStackOperationExprT { .. } => g,
        ExprType::FrameEventExprT { frame_event_part } => event_part(g, frame_event_part),
        ExprType::UnaryExprT { unary_expr_node } => expr(
            g.add(operator_text(unary_expr_node.operator)),
            *unary_expr_node.right,
        ),
        ExprType::BinaryExprT { binary_expr_node } => {
            let l = *binary_expr_node.left;
            let r = *binary_expr_node.right;
            if binary_expr_node.operator == OperatorType::LogicalXor {
                expr(
                    expr(
                        expr(expr(g.add("(("@), l).add(") && !("@), r).add(")) || (!("@),
                        l,
                    ).add(") && ("@),
                    r,
                ).add("))"@)
            } else {
                expr(expr(g, l).add(operator_text(binary_expr_node.operator)), r)
            }
        },
    }
}

/// The first `n` of the expressions, with commas between them.
pub open spec fn list(g: Gen, exprs: Seq<ExprType>, n: nat) -> Gen
    decreases exprs, n,
{
    if n == 0 || n > exprs.len() {
        g
    } else {
        let before = list(g, exprs, (n - 1) as nat);
        expr(
            if n > 1 {
                before.add(","@)
            } else {
                before
            },
            exprs[n - 1],
        )
    }
}

/// The expressions in parentheses, with commas between them.
pub open spec fn args(g: Gen, exprs: Seq<ExprType>) -> Gen
    decreases exprs, exprs.len() + 1,
{
    list(g.add("("@), exprs, exprs.len()).add(")"@)
}

/// A call of a function that is declared elsewhere.
pub open spec fn call(g: Gen, node: CallExprNode) -> Gen
    decreases node, 0nat,
{
    args(g.add(node.identifier.name.lexeme@), node.call_expr_list.exprs_t@)
}

/// A call of an action: the action `a` is the member `a_do` of the
/// instance.
pub open spec fn action_call(g: Gen, node: ActionCallExprNode) -> Gen
    decreases node, 0nat,
{
    args(
        g.add("that."@).add(node.identifier.name.lexeme@).add("_do"@),
        node.call_expr_list.exprs_t@,
    )
}

/// A call of a method of the interface.
pub open spec fn interface_call(g: Gen, node: InterfaceMethodCallExprNode) -> Gen
    decreases node, 0nat,
{
    args(g.add("that."@).add(node.identifier.name.lexeme@), node.call_expr_list.exprs_t@)
}

/// One link of a chain.
pub open spec fn link(g: Gen, node: CallChainLiteralNodeType) -> Gen
    decreases node, 0nat,
{
    match node {
        CallChainLiteralNodeType::VariableNodeT { var_node } => variable(g, var_node, true),
        CallChainLiteralNodeType::IdentifierNodeT { id_node } => g.add(id_node.name.lexeme@),
        CallChainLiteralNodeType::CallT { call: c } => call(g, c),
        CallChainLiteralNodeType::InterfaceMethodCallT {
            interface_method_call_expr_node,
        } => interface_call(g, interface_method_call_expr_node),
        CallChainLiteralNodeType::ActionCallT { action_call_expr_node } => action_call(
            g,
            action_call_expr_node,
        ),
    }
}

/// The first `n` links of a chain, with points between them.
pub open spec fn chain(g: Gen, links: Seq<CallChainLiteralNodeType>, n: nat) -> Gen
    decreases links, n,
{
    if n == 0 || n > links.len() {
        g
    } else {
        let before = chain(g, links, (n - 1) as nat);
        link(
            if n > 1 {
                before.add("."@)
            } else {
                before
            },
            links[n - 1],
        )
    }
}

/// The callable of the state named `name`.
pub open spec fn target_ref(g: Gen, name: Seq<char>) -> Gen {
    g.add("_s"@).add(name).add("_"@)
}

/// The message of the enter or exit event of a state: the state's name, a
/// colon and the symbol of the event.
pub open spec fn state_event(state: Seq<char>, symbol: Seq<char>) -> Seq<char> {
    state + ":"@ + symbol
}

/// The event with the message `msg`.
pub open spec fn event_named(s: Setup, msg: Seq<char>) -> Option<EventSymbol> {
    match event_position(s.events, msg, 0) {
        Some(i) => Some(s.events[i]),
        None => None,
    }
}

/// The state named `name`.
pub open spec fn state_named<'a>(s: Setup<'a>, name: Seq<char>) -> Option<StateSymbol<'a>> {
    match state_position(s.states, name, 0) {
        Some(i) => Some(s.states[i]),
        None => None,
    }
}

/// What is said of a transition that passes enter arguments to a state
/// which has no enter handler.
pub open spec fn no_enter_handler(state: Seq<char>) -> Seq<char> {
    "State "@ + state
        + " does not have an enter event handler but is being passed parameters in a transition"@
}

/// The first `n` arguments, each on a line of its own behind the name of
/// the parameter that it is for.
pub open spec fn arg_lines(
    g: Gen,
    open: Seq<char>,
    mid: Seq<char>,
    close: Seq<char>,
    params: Seq<ParameterSymbol>,
    exprs: Seq<ExprType>,
    n: nat,
) -> Gen
    decreases n,
{
    if n == 0 || n > exprs.len() || n > params.len() {
        g
    } else {
        expr(
            arg_lines(g, open, mid, close, params, exprs, (n - 1) as nat).add(open).add(
                params[n - 1].name@,
            ).add(mid),
            exprs[n - 1],
        ).add(close).newline()
    }
}

/// The first `n` variables of a state, each added to the state context
/// with the value of its initializer. A variable without an initializer is
/// a defect.
pub open spec fn var_lines(g: Gen, vars: Seq<VariableDeclNode>, n: nat) -> Gen
    decreases n,
{
    if n == 0 || n > vars.len() {
        g
    } else {
        let before = var_lines(g, vars, (n - 1) as nat);
        match vars[n - 1].initializer_expr_t_opt {
            Some(init) => expr(
                before.add("stateContext.addStateVar(\""@).add(vars[n - 1].name@).add("\","@),
                init,
            ).add(");"@).newline(),
            None => before.fail("State variable without initializer."@),
        }
    }
}

/// The comment that a labelled transition begins with.
pub open spec fn label(g: Gen, label_opt: Option<std::string::String>) -> Gen {
    match label_opt {
        Some(text) => g.add("// "@).add(text@).newline(),
        None => g,
    }
}

/// Whether a transition passes exit arguments.
pub open spec fn has_exit_args(t: TransitionStatementNode) -> bool {
    t.exit_args_opt matches Some(list) && list.exprs_t@.len() > 0
}

/// The exit arguments of a transition, bound to the parameters of the exit
/// handler of the current state. It is a defect if that state has no exit
/// handler, or one with another number of parameters.
pub open spec fn exit_args(g: Gen, s: Setup, t: TransitionStatementNode) -> Gen {
    if has_exit_args(t) {
        let exprs = t.exit_args_opt->0.exprs_t@;
        let state = match g.state {
            Some(name) => name,
            None => Seq::empty(),
        };
        match event_named(s, state_event(state, "<"@)) {
            Some(event) => match event.params_opt {
                Some(params) => if params@.len() == exprs.len() {
                    arg_lines(
                        g.add("let exitArgs = {};"@).newline(),
                        "exitArgs[\""@,
                        "\"] = "@,
                        ";"@,
                        params@,
                        exprs,
                        exprs.len(),
                    )
                } else {
                    g.fail("Fatal error: misaligned parameters to arguments."@)
                },
                None => g.fail("Fatal error: misaligned parameters to arguments."@),
            },
            None => g.fail("Exit arguments for a state without an exit event handler."@),
        }
    } else {
        g
    }
}

/// The enter arguments of a transition, bound to the parameters of the
/// enter handler of the target. Without such a handler the arguments are
/// dropped, with a warning; a handler with another number of parameters is
/// a defect.
pub open spec fn enter_args(g: Gen, s: Setup, target: StateContextNode) -> Gen {
    match target.enter_args_opt {
        Some(list) => match event_named(s, state_event(target.state_ref_node.name@, ">"@)) {
            Some(event) => match event.params_opt {
                Some(params) => if params@.len() == list.exprs_t@.len() {
                    arg_lines(
                        g,
                        "stateContext.addEnterArg(\""@,
                        "\","@,
                        ");"@,
                        params@,
                        list.exprs_t@,
                        list.exprs_t@.len(),
                    )
                } else {
                    g.fail("Fatal error: misaligned parameters to arguments."@)
                },
                None => g.fail("Invalid number of arguments for the enter event handler."@),
            },
            None => g.warn(no_enter_handler(target.state_ref_node.name@)),
        },
        None => g,
    }
}

/// The state arguments of a transition, bound to the parameters of the
/// target. More arguments than parameters, or a target that is not
/// declared, is a defect.
pub open spec fn state_args(g: Gen, s: Setup, target: StateContextNode) -> Gen {
    match target.state_ref_args_opt {
        Some(list) => match state_named(s, target.state_ref_node.name@) {
            Some(state) => match state.params_opt {
                Some(params) => if list.exprs_t@.len() <= params@.len() {
                    arg_lines(
                        g,
                        "stateContext.addStateArg(\""@,
                        "\","@,
                        ");"@,
                        params@,
                        list.exprs_t@,
                        list.exprs_t@.len(),
                    )
                } else {
                    g.fail("Invalid number of arguments for state parameters."@)
                },
                None => g,
            },
            None => g.fail("Transition to a state that is not declared."@),
        },
        None => g,
    }
}

/// The variables of the state named `name`, made from their initializers.
pub open spec fn state_vars(g: Gen, s: Setup, name: Seq<char>) -> Gen {
    match state_named(s, name) {
        Some(state) => match state.state_node.vars_opt {
            Some(vars) => var_lines(g, vars@, vars@.len()),
            None => g,
        },
        None => g,
    }
}

/// What follows the target in the call of the transition machinery: the
/// exit arguments and the state context, as far as the machinery takes
/// them.
pub open spec fn transition_tail(g: Gen, s: Setup, exits: bool, context: Seq<char>) -> Gen {
    let with_exit = if s.exit_args {
        g.add(if exits {
            ",exitArgs"@
        } else {
            ",null"@
        })
    } else {
        g
    };
    (if s.state_context {
        with_exit.add(context)
    } else {
        with_exit
    }).add(");"@)
}

/// A transition to a named state: the label, a fresh state context, the
/// exit arguments, the enter arguments, the state arguments, the variables
/// of the target, and the call of the transition machinery.
pub open spec fn transition(
    g: Gen,
    s: Setup,
    t: TransitionStatementNode,
    target: StateContextNode,
) -> Gen {
    let name = target.state_ref_node.name@;
    let labelled = label(g.newline(), t.label_opt);
    let fresh = if s.state_context {
        target_ref(labelled.add("stateContext = StateContext("@), name).add(");"@).newline()
    } else {
        labelled
    };
    transition_tail(
        target_ref(
            state_vars(
                state_args(enter_args(exit_args(fresh, s, t), s, target), s, target),
                s,
                name,
            ).add("_transition_("@),
            name,
        ),
        s,
        has_exit_args(t),
        ",stateContext"@,
    )
}

/// A transition to the state on top of the state stack: the context, or
/// the bare state, is taken from the stack and not made anew.
pub open spec fn pop_transition(g: Gen, s: Setup, t: TransitionStatementNode) -> Gen {
    let popped = exit_args(label(g.newline(), t.label_opt), s, t).add(
        if s.state_context {
            "let stateContext = _stateStack_pop_();"@
        } else {
            "let state = _stateStack_pop_();"@
        },
    ).newline();
    transition_tail(
        popped.add(
            if s.state_context {
                "_transition_(stateContext.state"@
            } else {
                "_transition_(state"@
            },
        ),
        s,
        has_exit_args(t),
        ",stateContext"@,
    )
}

/// A push to the state stack, or a pop from it.
pub open spec fn stack_op(g: Gen, s: Setup, operation: StateStackOperationType) -> Gen {
    match operation {
        StateStackOperationType::Push => g.newline().add(
            if s.state_context {
                "_stateStack_push_(_stateContext_);"@
            } else {
                "_stateStack_push_(_state_);"@
            },
        ),
        StateStackOperationType::Pop => g.newline().add(
            if s.state_context {
                "let stateContext = _stateStack_pop_();"@
            } else {
                "let state = _stateStack_pop_();"@
            },
        ),
    }
}

/// The declaration of a variable of the domain or of a handler.
pub open spec fn var_decl(g: Gen, v: VariableDeclNode) -> Gen {
    match v.initializer_expr_t_opt {
        Some(init) => match v.identifier_decl_scope {
            IdentifierDeclScope::DomainBlock => expr(
                g.newline().add("that."@).add(v.name@).add(" = "@),
                init,
            ).add(";"@),
            IdentifierDeclScope::EventHandlerVar => expr(
                g.newline().add("let "@).add(v.name@).add(" = "@),
                init,
            ).add(";"@),
            _ => g.fail("Unexpected scope for variable declaration."@),
        },
        None => g.fail("Variable without initializer."@),
    }
}

/// The value that a handler returns, and the return.
pub open spec fn returning(g: Gen, value: Option<ExprType>) -> Gen {
    match value {
        Some(e) => expr(g.add("e._return = "@), e).add(";"@).newline().add("return;"@),
        None => g.add("return;"@),
    }
}

/// How a branch of a test ends.
pub open spec fn branch_end(g: Gen, end: Option<TerminatorExpr>) -> Gen {
    match end {
        Some(t) => match t.terminator_type {
            TerminatorType::Return => returning(g.newline(), t.return_expr_t_opt),
            TerminatorType::Continue => g.newline().add("break;"@),
        },
        None => g,
    }
}

/// How a handler ends.
pub open spec fn handler_end(g: Gen, t: TerminatorExpr) -> Gen {
    match t.terminator_type {
        TerminatorType::Return => returning(g.newline(), t.return_expr_t_opt),
        TerminatorType::Continue => g.newline(),
    }
}

/// The expression that a string or number test compares: a call, a call of
/// an action, a chain or a variable. Another expression is a defect.
pub open spec fn subject(g: Gen, e: ExprType) -> Gen {
    match e {
        ExprType::CallExprT { .. } => expr(g, e),
        ExprType::ActionCallExprT { .. } => expr(g, e),
        ExprType::CallChainLiteralExprT { .. } => expr(g, e),
        ExprType::VariableExprT { .. } => expr(g, e),
        _ => g.fail("Unsupported test expression."@),
    }
}

/// The condition of a branch of a string test, from its second comparison
/// on: the subject is compared with each of the first `n` alternatives in
/// turn, and the comparisons are joined by `||`. The subject is written
/// again for each.
pub open spec fn string_alternatives(
    g: Gen,
    e: ExprType,
    patterns: Seq<std::string::String>,
    n: nat,
) -> Gen
    decreases n,
{
    if n == 0 || n > patterns.len() {
        g
    } else {
        let before = string_alternatives(g, e, patterns, (n - 1) as nat);
        (if n > 1 {
            subject(before.add(" || ("@), e)
        } else {
            before
        }).add(" == \""@).add(patterns[n - 1]@).add("\")"@)
    }
}

/// As [`string_alternatives`], for the numerals of a number test.
pub open spec fn number_alternatives(
    g: Gen,
    e: ExprType,
    patterns: Seq<NumberMatchTestPatternNode>,
    n: nat,
) -> Gen
    decreases n,
{
    if n == 0 || n > patterns.len() {
        g
    } else {
        let before = number_alternatives(g, e, patterns, (n - 1) as nat);
        (if n > 1 {
            subject(before.add(" || ("@), e)
        } else {
            before
        }).add(" == "@).add(patterns[n - 1].match_pattern_number@).add(")"@)
    }
}

/// An assignment.
pub open spec fn assignment(g: Gen, node: AssignmentExprNode) -> Gen {
    expr(expr(g, *node.l_value_box).add(" = "@), *node.r_value_box)
}

/// A call as a statement.
pub open spec fn call_statement(g: Gen, node: CallStmtNode) -> Gen {
    call(g.newline(), node.call_expr_node).add(";"@)
}

/// A call of an action as a statement.
pub open spec fn action_call_statement(g: Gen, node: ActionCallStmtNode) -> Gen {
    action_call(g.newline(), node.action_call_expr_node).add(";"@)
}

/// A chain as a statement.
pub open spec fn chain_statement(g: Gen, node: CallChainLiteralStmtNode) -> Gen {
    chain(
        g.newline(),
        node.call_chain_literal_expr_node.call_chain@,
        node.call_chain_literal_expr_node.call_chain@.len(),
    ).add(";"@)
}

/// An assignment as a statement, behind the comments of its line.
pub open spec fn assignment_statement(g: Gen, s: Setup, node: AssignmentStmtNode) -> Gen {
    assignment(
        g.comments(s.comments, node.assignment_expr_node.line as nat).newline(),
        node.assignment_expr_node,
    ).add(";"@)
}

/// A variable as a statement, behind the comments of its line.
pub open spec fn variable_statement(g: Gen, s: Setup, node: VariableStmtNode) -> Gen {
    g.comments(s.comments, node.var_node.id_node.line as nat).newline().add(
        node.var_node.id_node.name.lexeme@,
    ).add(";"@)
}

/// The statements of a branch and its end.
pub open spec fn branch_body(
    g: Gen,
    s: Setup,
    all: Seq<DeclOrStmtType>,
    end: Option<TerminatorExpr>,
) -> Gen {
    branch_end(stmts(g, s, all, all.len()), end)
}

/// What a state does with the events that it does not handle: it passes
/// them on to another state.
pub open spec fn dispatch(g: Gen, s: Setup, node: DispatchNode) -> Gen {
    target_ref(g.newline(), node.target_state_ref.name@).add("(e);"@).comments(
        s.comments,
        node.line as nat,
    ).newline()
}

/// A statement.
pub open spec fn stmt(g: Gen, s: Setup, st: StatementType) -> Gen
    decreases st, 0nat,
{
    match st {
        StatementType::ExpressionStmt { expr_stmt_t } => match expr_stmt_t {
            ExprStmtType::CallStmtT { call_stmt_node } => call_statement(g, call_stmt_node),
            ExprStmtType::ActionCallStmtT { action_call_stmt_node } => action_call_statement(
                g,
                action_call_stmt_node,
            ),
            ExprStmtType::CallChainLiteralStmtT { call_chain_literal_stmt_node } => chain_statement(
                g,
                call_chain_literal_stmt_node,
            ),
            ExprStmtType::AssignmentStmtT { assignment_stmt_node } => assignment_statement(
                g,
                s,
                assignment_stmt_node,
            ),
            ExprStmtType::VariableStmtT { variable_stmt_node } => variable_statement(
                g,
                s,
                variable_stmt_node,
            ),
        },
        StatementType::TransitionStmt { transition_statement } => match transition_statement.target_state_context_t {
            StateContextType::StateRef { state_context_node } => transition(
                g,
                s,
                transition_statement,
                state_context_node,
            ),
            StateContextType::StateStackPop => pop_transition(g, s, transition_statement),
        },
        StatementType::TestStmt { test_stmt_node } => match test_stmt_node.test_t {
            TestType::BoolTest { bool_test_node } => bool_test(g, s, bool_test_node),
            TestType::StringMatchTest { string_match_test_node } => string_test(
                g,
                s,
                string_match_test_node,
            ),
            TestType::NumberMatchTest { number_match_test_node } => number_test(
                g,
                s,
                number_match_test_node,
            ),
        },
        StatementType::StateStackStmt { state_stack_operation_statement_node } => stack_op(
            g,
            s,
            state_stack_operation_statement_node.state_stack_operation_node.operation_t,
        ),
        StatementType::ChangeStateStmt { change_state_stmt } => match change_state_stmt.state_context_t {
            StateContextType::StateRef { state_context_node } => target_ref(
                g.newline().add("_changeState_("@),
                state_context_node.state_ref_node.name@,
            ).add(");"@),
            StateContextType::StateStackPop => g.fail(
                "Change of state to the state stack is not supported."@,
            ),
        },
        StatementType::NoStmt => g.fail("Empty statement."@),
    }
}

/// A declaration or a statement.
pub open spec fn decl_or_stmt(g: Gen, s: Setup, d: DeclOrStmtType) -> Gen
    decreases d, 0nat,
{
    match d {
        DeclOrStmtType::VarDeclT { var_decl_t } => var_decl(g, var_decl_t),
        DeclOrStmtType::StmtT { stmt_t } => stmt(g, s, stmt_t),
    }
}

/// The first `n` of the statements.
pub open spec fn stmts(g: Gen, s: Setup, all: Seq<DeclOrStmtType>, n: nat) -> Gen
    decreases all, n,
{
    if n == 0 || n > all.len() {
        g
    } else {
        decl_or_stmt(stmts(g, s, all, (n - 1) as nat), s, all[n - 1])
    }
}

/// The body of a branch, one level deeper, and the brace that closes it.
pub open spec fn block(
    g: Gen,
    s: Setup,
    all: Seq<DeclOrStmtType>,
    end: Option<TerminatorExpr>,
) -> Gen
    decreases all, all.len() + 1,
{
    branch_end(stmts(g.indent(), s, all, all.len()), end).outdent().newline().add("}"@)
}

/// The branch that is taken when no other is.
pub open spec fn else_block(
    g: Gen,
    s: Setup,
    all: Seq<DeclOrStmtType>,
    end: Option<TerminatorExpr>,
) -> Gen
    decreases all, all.len() + 2,
{
    block(g.add(" else {"@), s, all, end)
}

/// One branch of a boolean test.
pub open spec fn bool_branch(g: Gen, s: Setup, b: BoolTestConditionalBranchNode, first: bool) -> Gen
    decreases b, 0nat,
{
    let head = g.add(if first {
        "if "@
    } else {
        " else if "@
    });
    let condition = if b.is_negated {
        expr(head.add("(!("@), b.expr_t).add(")"@)
    } else {
        expr(head.add("("@), b.expr_t)
    };
    block(condition.add(") {"@), s, b.statements@, b.branch_terminator_expr_opt)
}

/// The first `n` branches of a boolean test: a chain of `if` and `else if`.
pub open spec fn bool_branches(
    g: Gen,
    s: Setup,
    all: Seq<BoolTestConditionalBranchNode>,
    n: nat,
) -> Gen
    decreases all, n,
{
    if n == 0 || n > all.len() {
        g
    } else {
        bool_branch(bool_branches(g, s, all, (n - 1) as nat), s, all[n - 1], n == 1)
    }
}

/// A boolean test. Without an else branch nothing is done when no branch
/// is taken.
pub open spec fn bool_test(g: Gen, s: Setup, node: BoolTestNode) -> Gen
    decreases node, 0nat,
{
    let branches = bool_branches(
        g.newline(),
        s,
        node.conditional_branch_nodes@,
        node.conditional_branch_nodes@.len(),
    );
    match node.else_branch_node_opt {
        Some(e) => else_block(branches, s, e.statements@, e.branch_terminator_expr_opt),
        None => branches,
    }
}

/// One branch of a string test.
pub open spec fn string_branch(
    g: Gen,
    s: Setup,
    e: ExprType,
    b: StringMatchTestMatchBranchNode,
    first: bool,
) -> Gen
    decreases b, 0nat,
{
    block(
        string_alternatives(
            subject(g.add(if first {
                "if (("@
            } else {
                " else if (("@
            }), e),
            e,
            b.string_match_pattern_node.match_pattern_strings@,
            b.string_match_pattern_node.match_pattern_strings@.len(),
        ).add(") {"@),
        s,
        b.statements@,
        b.branch_terminator_expr_opt,
    )
}

/// The first `n` branches of a string test.
pub open spec fn string_branches(
    g: Gen,
    s: Setup,
    e: ExprType,
    all: Seq<StringMatchTestMatchBranchNode>,
    n: nat,
) -> Gen
    decreases all, n,
{
    if n == 0 || n > all.len() {
        g
    } else {
        string_branch(string_branches(g, s, e, all, (n - 1) as nat), s, e, all[n - 1], n == 1)
    }
}

/// A string test.
pub open spec fn string_test(g: Gen, s: Setup, node: StringMatchTestNode) -> Gen
    decreases node, 0nat,
{
    let branches = string_branches(
        g.newline(),
        s,
        node.expr_t,
        node.match_branch_nodes@,
        node.match_branch_nodes@.len(),
    );
    match node.else_branch_node_opt {
        Some(e) => else_block(branches, s, e.statements@, e.branch_terminator_expr_opt),
        None => branches,
    }
}

/// One branch of a number test.
pub open spec fn number_branch(
    g: Gen,
    s: Setup,
    e: ExprType,
    b: NumberMatchTestMatchBranchNode,
    first: bool,
) -> Gen
    decreases b, 0nat,
{
    block(
        number_alternatives(
            subject(g.add(if first {
                "if (("@
            } else {
                " else if (("@
            }), e),
            e,
            b.number_match_pattern_nodes@,
            b.number_match_pattern_nodes@.len(),
        ).add(") {"@),
        s,
        b.statements@,
        b.branch_terminator_expr_opt,
    )
}

/// The first `n` branches of a number test.
pub open spec fn number_branches(
    g: Gen,
    s: Setup,
    e: ExprType,
    all: Seq<NumberMatchTestMatchBranchNode>,
    n: nat,
) -> Gen
    decreases all, n,
{
    if n == 0 || n > all.len() {
        g
    } else {
        number_branch(number_branches(g, s, e, all, (n - 1) as nat), s, e, all[n - 1], n == 1)
    }
}

/// A number test.
pub open spec fn number_test(g: Gen, s: Setup, node: NumberMatchTestNode) -> Gen
    decreases node, 0nat,
{
    let branches = number_branches(
        g.newline(),
        s,
        node.expr_t,
        node.match_branch_nodes@,
        node.match_branch_nodes@.len(),
    );
    match node.else_branch_node_opt {
        Some(e) => else_block(branches, s, e.statements@, e.branch_terminator_expr_opt),
        None => branches,
    }
}

/// The line that opens a handler: the first handler of a state opens the
/// chain of comparisons, the others continue it; a handler of any message
/// closes it.
pub open spec fn handler_head(g: Gen, msg: MessageType) -> Gen {
    match msg {
        MessageType::CustomMessage { message_node } => g.add(
            if g.first_handler {
                "if (e._message == \""@
            } else {
                "else if (e._message == \""@
            },
        ).add(message_node.name@).add("\") {"@),
        MessageType::AnyMessage { .. } => g.add(
            if g.first_handler {
                "if (true) {"@
            } else {
                "else {"@
            },
        ),
    }
}

/// A handler.
pub open spec fn handler(g: Gen, s: Setup, h: EventHandlerNode) -> Gen {
    let opened = handler_head(g.newline().comments(s.comments, h.line as nat), h.msg_t).indent();
    let prepared = if h.event_handler_has_transition && s.state_context {
        opened.newline().add("let stateContext = null;"@)
    } else {
        opened
    };
    Gen {
        first_handler: false,
        ..handler_end(
            stmts(prepared, s, h.statements@, h.statements@.len()),
            h.terminator_node,
        ).outdent().newline().add("}"@)
    }
}

/// The first `n` handlers of a state.
pub open spec fn handlers(g: Gen, s: Setup, all: Seq<EventHandlerNode>, n: nat) -> Gen
    decreases n,
{
    if n == 0 || n > all.len() {
        g
    } else {
        handler(handlers(g, s, all, (n - 1) as nat), s, all[n - 1])
    }
}

/// The first `n` of the calls that a state makes before it looks at the
/// event.
pub open spec fn entry_calls(
    g: Gen,
    all: Seq<crate::ast::CallChainLiteralExprNode>,
    n: nat,
) -> Gen
    decreases n,
{
    if n == 0 || n > all.len() {
        g
    } else {
        chain(
            entry_calls(g, all, (n - 1) as nat).newline(),
            all[n - 1].call_chain@,
            all[n - 1].call_chain@.len(),
        ).add(";"@)
    }
}

/// A state: one callable, named after the state, that takes the event.
pub open spec fn state(g: Gen, s: Setup, node: StateNode) -> Gen {
    let opened = (Gen {
        state: Some(node.name@),
        ..g.comments(s.comments, node.line as nat)
    }).newline().newline().add("let _s"@).add(node.name@).add("_ = function (e) {"@).indent();
    let called = match node.calls_opt {
        Some(calls) => entry_calls(opened, calls@, calls@.len()),
        None => opened,
    };
    let handled = handlers(
        Gen { first_handler: true, ..called },
        s,
        node.evt_handlers@,
        node.evt_handlers@.len(),
    );
    let passed = match node.dispatch_opt {
        Some(d) => dispatch(handled, s, d),
        None => handled,
    };
    Gen { state: None, ..passed.outdent().newline().add("}"@) }
}

/// The names of the first `n` parameters, with commas between them.
pub open spec fn name_list(g: Gen, params: Seq<ParameterNode>, n: nat) -> Gen
    decreases n,
{
    if n == 0 || n > params.len() {
        g
    } else {
        let before = name_list(g, params, (n - 1) as nat);
        (if n > 1 {
            before.add(","@)
        } else {
            before
        }).add(params[n - 1].param_name@)
    }
}

/// The first `n` parameters as the fields of the event's argument bag:
/// each under its own name.
pub open spec fn send_list(g: Gen, params: Seq<ParameterNode>, n: nat) -> Gen
    decreases n,
{
    if n == 0 || n > params.len() {
        g
    } else {
        let before = send_list(g, params, (n - 1) as nat);
        (if n > 1 {
            before.add(","@)
        } else {
            before
        }).add("\""@).add(params[n - 1].param_name@).add("\":"@).add(params[n - 1].param_name@)
    }
}

/// The names of the parameters, if there are any.
pub open spec fn optional_names(g: Gen, params: Option<Vec<ParameterNode>>) -> Gen {
    match params {
        Some(list) => name_list(g, list@, list@.len()),
        None => g,
    }
}

/// A method of the interface: it makes the event of its message, or of its
/// alias, with the arguments under the parameters' names, delivers it to
/// the current state, and returns what the handler left in the event if
/// the method has a return type.
pub open spec fn interface_method(g: Gen, m: InterfaceMethodNode) -> Gen {
    let message = match m.alias {
        Some(alias) => alias.name@,
        None => m.name@,
    };
    let opened = optional_names(
        g.newline().add("that."@).add(m.name@).add(" = function ("@),
        m.params,
    ).add(") {"@).indent().newline().add("let e = FrameEvent(\""@).add(message);
    let made = match m.params {
        Some(list) => send_list(opened.add("\",{"@), list@, list@.len()).add("});"@),
        None => opened.add("\",null);"@),
    };
    let sent = made.newline().add("_state_(e);"@);
    (match m.return_type_opt {
        Some(_) => sent.newline().add("return e._return;"@),
        None => sent,
    }).outdent().newline().add("}"@).newline()
}

/// The first `n` methods of the interface.
pub open spec fn interface_methods(g: Gen, all: Seq<InterfaceMethodNode>, n: nat) -> Gen
    decreases n,
{
    if n == 0 || n > all.len() {
        g
    } else {
        interface_method(interface_methods(g, all, (n - 1) as nat), all[n - 1])
    }
}

/// The interface block.
pub open spec fn interface_block(g: Gen, b: InterfaceBlockNode) -> Gen {
    interface_methods(
        g.newline().add("//===================== Interface Block ===================//"@).newline(),
        b.interface_methods@,
        b.interface_methods@.len(),
    )
}

/// The first `n` states.
pub open spec fn states(g: Gen, s: Setup, all: Seq<StateNode>, n: nat) -> Gen
    decreases n,
{
    if n == 0 || n > all.len() {
        g
    } else {
        state(states(g, s, all, (n - 1) as nat), s, all[n - 1])
    }
}

/// The machine block: one callable for each state.
pub open spec fn machine_block(g: Gen, s: Setup, b: MachineBlockNode) -> Gen {
    states(
        g.newline().add("//===================== Machine Block ===================//"@),
        s,
        b.states@,
        b.states@.len(),
    )
}

/// The declaration of an action: a member that the user of the machine
/// replaces.
pub open spec fn action_decl(g: Gen, a: ActionNode) -> Gen {
    optional_names(
        g.newline().add("that."@).add(a.name@).add("_do = function ("@),
        a.params,
    ).add(") { throw new Error('Action not implemented.'); }"@)
}

/// The first `n` actions.
pub open spec fn action_decls(g: Gen, all: Seq<ActionNode>, n: nat) -> Gen
    decreases n,
{
    if n == 0 || n > all.len() {
        g
    } else {
        action_decl(action_decls(g, all, (n - 1) as nat), all[n - 1])
    }
}

/// The actions block.
pub open spec fn actions_block(g: Gen, b: ActionsBlockNode) -> Gen {
    action_decls(
        g.newline().newline().add(
            "//===================== Actions Block ===================//"@,
        ).newline(),
        b.actions@,
        b.actions@.len(),
    )
}

/// The first `n` declarations of variables.
pub open spec fn var_decls(g: Gen, all: Seq<VariableDeclNode>, n: nat) -> Gen
    decreases n,
{
    if n == 0 || n > all.len() {
        g
    } else {
        var_decl(var_decls(g, all, (n - 1) as nat), all[n - 1])
    }
}

/// The domain block.
pub open spec fn domain_block(g: Gen, b: DomainBlockNode) -> Gen {
    var_decls(
        g.newline().newline().add(
            "//===================== Domain Block ===================//"@,
        ).newline(),
        b.member_variables@,
        b.member_variables@.len(),
    )
}

/// The first `n` variables of the first state, added to the context that
/// the machine starts with.
pub open spec fn first_var_lines(g: Gen, vars: Seq<VariableDeclNode>, n: nat) -> Gen
    decreases n,
{
    if n == 0 || n > vars.len() {
        g
    } else {
        let before = first_var_lines(g, vars, (n - 1) as nat);
        match vars[n - 1].initializer_expr_t_opt {
            Some(init) => expr(
                before.newline().add("_stateContext_.addStateVar(\""@).add(vars[n - 1].name@).add(
                    "\","@,
                ),
                init,
            ).add(");"@).newline(),
            None => before.fail("State variable without initializer."@),
        }
    }
}

/// The dispatcher variable, which holds the callable of the current state
/// and starts with that of the first state, and the state context that the
/// machine starts with.
pub open spec fn dispatcher(g: Gen, s: Setup, first: Seq<char>) -> Gen {
    let declared = target_ref(g.newline().add("let _state_ = "@), first).add(";"@);
    if s.state_context {
        let context = declared.newline().add("let _stateContext_ = StateContext(_state_);"@).newline();
        match state_named(s, first) {
            Some(symbol) => match symbol.state_node.vars_opt {
                Some(vars) => first_var_lines(context.newline(), vars@, vars@.len()),
                None => context.newline(),
            },
            None => context,
        }
    } else {
        declared
    }
}

/// The transition machinery: the exit event to the current state, the
/// reassignment of the dispatcher, the new state context, then the enter
/// event to the new state.
pub open spec fn transition_machinery(g: Gen, s: Setup) -> Gen {
    let head = g.newline().newline().add(
        if s.state_context {
            if s.exit_args {
                "let _transition_ = function(newState,exitArgs, stateContext) {"@
            } else {
                "let _transition_ = function(newState, stateContext) {"@
            }
        } else if s.exit_args {
            "let _transition_ = function(newState,exitArgs) {"@
        } else {
            "let _transition_ = function(newState) {"@
        },
    ).indent().newline().add(
        if s.exit_args {
            "let exitEvent = FrameEvent(\"<\",exitArgs);"@
        } else {
            "let exitEvent = FrameEvent(\"<\",null);"@
        },
    ).newline().add("_state_(exitEvent);"@).newline().add("_state_ = newState;"@).newline();
    (if s.state_context {
        head.add("_stateContext_ = stateContext;"@).newline().add(
            "let enterEvent = FrameEvent(\">\",_stateContext_.getEnterArgs());"@,
        ).newline()
    } else {
        head.add("let enterEvent = FrameEvent(\">\",null);"@).newline()
    }).add("_state_(enterEvent);"@).outdent().newline().add("}"@)
}

/// The state stack and its two operations.
pub open spec fn stack_machinery(g: Gen) -> Gen {
    g.newline().newline().add("let _stateStack_ = [];"@).newline().newline().add(
        "let _stateStack_push_ = function (stateData) {"@,
    ).indent().newline().add("_stateStack_.push(stateData);"@).outdent().newline().add(
        "}"@,
    ).newline().newline().add("let _stateStack_pop_ = function() {"@).indent().newline().add(
        "return _stateStack_.pop();"@,
    ).outdent().newline().add("}"@)
}

/// The change of state: the dispatcher is reassigned and nothing else is
/// done.
pub open spec fn change_machinery(g: Gen) -> Gen {
    g.newline().newline().add("let _changeState_ = function(newState) {"@).indent().newline().add(
        "_state_ = newState;"@,
    ).outdent().newline().add("}"@)
}

/// After writing `text` and ending the line.
pub open spec fn line(g: Gen, text: Seq<char>) -> Gen {
    g.add(text).newline()
}

/// For each of the first `n` states, the line that records its tag when it
/// is the current state.
pub open spec fn tag_lines(g: Gen, all: Seq<StateNode>, n: nat) -> Gen
    decreases n,
{
    if n == 0 || n > all.len() {
        g
    } else {
        tag_lines(g, all, (n - 1) as nat).add("\tif (_state_ == _s"@).add(all[n - 1].name@).add(
            "_) stateName = \""@,
        ).add(all[n - 1].name@).add("\""@).newline()
    }
}

/// For each of the first `n` states, the case that makes it the current
/// state when the bag holds its tag.
pub open spec fn case_lines(g: Gen, all: Seq<StateNode>, n: nat) -> Gen
    decreases n,
{
    if n == 0 || n > all.len() {
        g
    } else {
        case_lines(g, all, (n - 1) as nat).add("\t\tcase \""@).add(all[n - 1].name@).add(
            "\": _state_ = _s"@,
        ).add(all[n - 1].name@).add("_; break;"@).newline()
    }
}

/// For each of the first `n` domain variables, the line that records it.
pub open spec fn store_lines(g: Gen, all: Seq<VariableDeclNode>, n: nat) -> Gen
    decreases n,
{
    if n == 0 || n > all.len() {
        g
    } else {
        store_lines(g, all, (n - 1) as nat).add("\tbag.domain[\""@).add(all[n - 1].name@).add(
            "\"] = that."@,
        ).add(all[n - 1].name@).add(";"@).newline()
    }
}

/// For each of the first `n` domain variables, the line that restores it.
pub open spec fn load_lines(g: Gen, all: Seq<VariableDeclNode>, n: nat) -> Gen
    decreases n,
{
    if n == 0 || n > all.len() {
        g
    } else {
        load_lines(g, all, (n - 1) as nat).add("\tthat."@).add(all[n - 1].name@).add(
            " = bag.domain[\""@,
        ).add(all[n - 1].name@).add("\"];"@).newline()
    }
}

/// The states of a system.
pub open spec fn states_of(node: SystemNode) -> Seq<StateNode> {
    match node.machine_block_node_opt {
        Some(machine) => machine.states@,
        None => Seq::empty(),
    }
}

/// The domain variables of a system.
pub open spec fn domain_of(node: SystemNode) -> Seq<VariableDeclNode> {
    match node.domain_block_node_opt {
        Some(domain) => domain.member_variables@,
        None => Seq::empty(),
    }
}

/// The action that records the machine in a bag: the tag of the current
/// state and every domain variable. The variables of states are not
/// recorded.
pub open spec fn serializer(g: Gen, node: SystemNode) -> Gen {
    let tagged = tag_lines(
        line(
            line(line(line(g, ""@), "that._serialize__do = function() {"@), ""@),
            "\tlet stateName = null"@,
        ),
        states_of(node),
        states_of(node).len(),
    );
    let bagged = line(
        line(
            line(line(line(line(tagged, ""@), "\tvar bag = {"@), "\t\tstate : stateName,"@), "\t\tdomain : {}"@),
            "\t};"@,
        ),
        ""@,
    );
    line(
        line(
            line(line(store_lines(bagged, domain_of(node), domain_of(node).len()), ""@), "\treturn JSON.stringify(bag);"@),
            "}"@,
        ),
        ""@,
    )
}

/// The action that restores the machine from a bag: the state whose tag
/// the bag holds becomes the current state, and every domain variable gets
/// the value that was recorded.
pub open spec fn deserializer(g: Gen, node: SystemNode) -> Gen {
    let switched = case_lines(
        line(
            line(
                line(
                    line(line(line(g, ""@), "that._deserialize__do = function(data) {"@), ""@),
                    "\tconst bag = JSON.parse(data);"@,
                ),
                ""@,
            ),
            "\tswitch (bag.state) {"@,
        ),
        states_of(node),
        states_of(node).len(),
    );
    line(
        line(
            load_lines(line(line(switched, "\t}"@), ""@), domain_of(node), domain_of(node).len()),
            ""@,
        ),
        "}"@,
    )
}

/// The machinery of a system that has a first state, as far as the setup
/// asks for it.
pub open spec fn machinery(g: Gen, s: Setup, node: SystemNode) -> Gen {
    match node.first_state() {
        Some(first) => {
            let declared = dispatcher(
                g.newline().newline().add(
                    "//=============== Machinery and Mechanisms ==============//"@,
                ).newline(),
                s,
                first.name@,
            );
            let moved = if s.transition_state {
                transition_machinery(declared, s)
            } else {
                declared
            };
            let stacked = if s.state_stack {
                stack_machinery(moved)
            } else {
                moved
            };
            let changed = if s.change_state {
                change_machinery(stacked)
            } else {
                stacked
            };
            if s.serializable {
                deserializer(serializer(changed.newline(), node), node)
            } else {
                changed
            }
        },
        None => g,
    }
}

/// For each of the first `n` actions, the line that a subclass overrides
/// it with.
pub open spec fn override_lines(g: Gen, all: Seq<ActionNode>, n: nat) -> Gen
    decreases n,
{
    if n == 0 || n > all.len() {
        g
    } else {
        optional_names(
            override_lines(g, all, (n - 1) as nat).add("\tthat."@).add(all[n - 1].name@).add(
                "_do = function ("@,
            ),
            all[n - 1].params,
        ).add(") {}"@).newline()
    }
}

/// The actions of a system.
pub open spec fn actions_of(node: SystemNode) -> Seq<ActionNode> {
    match node.actions_block_node_opt {
        Some(actions) => actions.actions@,
        None => Seq::empty(),
    }
}

/// A commented-out controller that overrides every action: the frame of
/// the code that the user of the machine writes.
pub open spec fn subclass(g: Gen, node: SystemNode) -> Gen {
    line(
        line(
            line(
                override_lines(
                    line(
                        g.add(""@).newline().add("/********************"@).newline().add(
                            "let "@,
                        ).add(node.name@).add("Controller = function () {"@).newline().add(
                            "\tlet that = "@,
                        ).add(node.name@),
                        ".call(this);"@,
                    ),
                    actions_of(node),
                    actions_of(node).len(),
                ),
                "\treturn that;"@,
            ),
            "};"@,
        ),
        "********************/"@,
    )
}

/// The blocks of a system, in the order interface, machine, actions,
/// domain.
pub open spec fn blocks(g: Gen, s: Setup, node: SystemNode) -> Gen {
    let interface = match node.interface_block_node_opt {
        Some(b) => interface_block(g, b),
        None => g,
    };
    let machine = match node.machine_block_node_opt {
        Some(b) => machine_block(interface, s, b),
        None => interface,
    };
    let actions = match node.actions_block_node_opt {
        Some(b) => actions_block(machine, b),
        None => machine,
    };
    match node.domain_block_node_opt {
        Some(b) => domain_block(actions, b),
        None => actions,
    }
}

/// A system: the constructor of the machine, with its blocks and its
/// machinery, and behind it the frame of a controller.
#[verifier::opaque]
pub open spec fn system(g: Gen, s: Setup, node: SystemNode) -> Gen {
    let opened = g.add("// "@).add(s.version).newline().add(
        "// get include files at https://github.com/frame-lang/frame-ancillary-files"@,
    ).newline().newline().add("let "@).add(node.name@).add(" = function () {"@).indent().newline().newline().add(
        "let that = {};"@,
    ).newline().add("that.constructor = "@).add(node.name@).add(";"@).newline();
    let returned = machinery(blocks(opened, s, node), s, node).newline().newline().add(
        "return that; "@,
    );
    let commented = returned.comments(s.comments, node.line as nat);
    subclass(
        (if commented.cursor > returned.cursor {
            commented.newline()
        } else {
            commented
        }).outdent().newline().add("};"@).newline(),
        node,
    )
}

/// The first `n` texts, one behind the other.
pub open spec fn joined(texts: Seq<Seq<char>>, n: nat) -> Seq<char>
    decreases n,
{
    if n == 0 || n > texts.len() {
        Seq::empty()
    } else {
        joined(texts, (n - 1) as nat) + texts[n - 1]
    }
}

impl Gen {
    /// What the generator hands out: the defects, if it found any, and the
    /// target text if not.
    pub open spec fn output(self) -> Seq<char> {
        if self.errors.len() > 0 {
            joined(self.errors, self.errors.len())
        } else {
            self.code
        }
    }

    /// This state, writing to `code`.
    pub open spec fn redirected(self, code: Seq<char>) -> Gen {
        Gen { code, ..self }
    }
}

/// An operator and its operand.
pub open spec fn unary(g: Gen, node: UnaryExprNode) -> Gen {
    expr(g.add(operator_text(node.operator)), *node.right)
}

/// An expression of two operands. The exclusive or of `l` and `r` is
/// written as `((l) && !(r)) || (!(l) && (r))`.
pub open spec fn binary(g: Gen, node: BinaryExprNode) -> Gen {
    let l = *node.left;
    let r = *node.right;
    if node.operator == OperatorType::LogicalXor {
        expr(
            expr(expr(expr(g.add("(("@), l).add(") && !("@), r).add(")) || (!("@), l).add(
                ") && ("@,
            ),
            r,
        ).add("))"@)
    } else {
        expr(expr(g, l).add(operator_text(node.operator)), r)
    }
}

/// A transition, to a named state or to the one on top of the state stack.
pub open spec fn transition_statement(g: Gen, s: Setup, t: TransitionStatementNode) -> Gen {
    match t.target_state_context_t {
        StateContextType::StateRef { state_context_node } => transition(
            g,
            s,
            t,
            state_context_node,
        ),
        StateContextType::StateStackPop => pop_transition(g, s, t),
    }
}

/// A change of state: the dispatcher is reassigned to the callable of the
/// target, and no event is delivered. The state stack cannot be the
/// target.
pub open spec fn change_state(g: Gen, node: ChangeStateStatementNode) -> Gen {
    match node.state_context_t {
        StateContextType::StateRef { state_context_node } => target_ref(
            g.newline().add("_changeState_("@),
            state_context_node.state_ref_node.name@,
        ).add(");"@),
        StateContextType::StateStackPop => g.fail(
            "Change of state to the state stack is not supported."@,
        ),
    }
}

/// A test, by its kind.
pub open spec fn test_statement(g: Gen, s: Setup, node: TestStatementNode) -> Gen {
    match node.test_t {
        TestType::BoolTest { bool_test_node } => bool_test(g, s, bool_test_node),
        TestType::StringMatchTest { string_match_test_node } => string_test(
            g,
            s,
            string_match_test_node,
        ),
        TestType::NumberMatchTest { number_match_test_node } => number_test(
            g,
            s,
            number_match_test_node,
        ),
    }
}

} // verus!
