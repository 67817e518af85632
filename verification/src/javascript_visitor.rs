//! The generator of JavaScript.

use crate::ast::{
    ActionCallStmtNode, AssignmentExprNode, AssignmentStmtNode, BinaryExprNode,
    BoolTestElseBranchNode, CallChainLiteralStmtNode, CallExprListNode, CallStmtNode,
    ChangeStateStatementNode, DispatchNode, ExprListNode, IdentifierNode,
    NumberMatchTestElseBranchNode, StateRefNode, StateStackOperationNode,
    StateStackOperationStatementNode, StringMatchTestElseBranchNode, StringMatchTestPatternNode,
    TestStatementNode, UnaryExprNode, VariableStmtNode, ActionNode, ActionsBlockNode,
    DomainBlockNode, InterfaceBlockNode, InterfaceMethodNode, MachineBlockNode, ParameterNode,
    SystemNode, ActionCallExprNode, BoolTestConditionalBranchNode, BoolTestNode,
    CallChainLiteralExprNode, CallChainLiteralNodeType, CallExprNode, DeclOrStmtType,
    EventHandlerNode, ExprStmtType, ExprType, FrameEventPart, IdentifierDeclScope,
    InterfaceMethodCallExprNode, LiteralExprNode, MessageType, NumberMatchTestMatchBranchNode,
    NumberMatchTestNode, NumberMatchTestPatternNode, OperatorType, StateContextNode,
    StateContextType, StateNode, StateStackOperationType, StatementType,
    StringMatchTestMatchBranchNode, StringMatchTestNode, TerminatorExpr, TerminatorType, TestType,
    TransitionStatementNode, VariableDeclNode, VariableNode,
};
use crate::javascript_text::{
    Gen, Setup, action_call, action_call_statement, action_decl, action_decls, actions_block,
    arg_lines, args, assignment, assignment_statement, binary, block, blocks, bool_branch,
    bool_branches, bool_test, branch_body, branch_end, call, call_statement, case_lines, chain,
    chain_statement, change_machinery, change_state, decl_or_stmt, deserializer, dispatch,
    dispatcher, domain_block, else_block, enter_args, entry_calls, event_named, event_part,
    exit_args, expr, first_var_lines, handler, handler_end, handlers, interface_block,
    interface_call, interface_method, interface_methods, joined, keyed, label, line, line_break,
    link, list, literal, load_lines, machine_block, machinery, name_list, number_alternatives,
    number_branch, number_branches, number_test, operator_text, optional_names, override_lines,
    pop_transition, returning, send_list, serializer, stack_machinery, stack_op, state, state_args,
    state_event, state_named, state_vars, states, stmt, stmts, store_lines, string_alternatives,
    string_branch, string_branches, string_test, subclass, subject, system, tag_lines, target_ref,
    test_statement, transition, transition_machinery, transition_statement, transition_tail, unary,
    var_decl, var_decls, var_lines, variable, variable_statement,
};
use crate::symbol_table::ParameterSymbol;
use crate::visitors::AstVisitor;
use crate::runtime::name_views;
use crate::symbol_table::Arcanum;
use crate::text::{chars_of, string_of};
use crate::token::{Token, TokenType, token_views};
use vstd::prelude::*;

verus! {

/// A generator of JavaScript for one system.
pub struct JavaScriptVisitor<'a> {
    compiler_version: std::string::String,
    pub code: std::string::String,
    pub dent: usize,
    pub current_state_name_opt: Option<std::string::String>,
    arcanium: Arcanum<'a>,
    comments: Vec<Token>,
    current_comment_idx: usize,
    first_event_handler: bool,
    warnings: Vec<std::string::String>,
    errors: Vec<std::string::String>,
    generate_exit_args: bool,
    generate_state_context: bool,
    generate_state_stack: bool,
    generate_change_state: bool,
    generate_transition_state: bool,
}

impl<'a> JavaScriptVisitor<'a> {
    /// What the generator was set up with.
    pub closed spec fn setup(&self) -> Setup<'a> {
        Setup {
            version: self.compiler_version@,
            comments: token_views(self.comments@),
            states: self.arcanium.states@,
            events: self.arcanium.events@,
            serializable: self.arcanium.serializable,
            exit_args: self.generate_exit_args,
            state_context: self.generate_state_context,
            state_stack: self.generate_state_stack,
            change_state: self.generate_change_state,
            transition_state: self.generate_transition_state,
        }
    }

    /// What the generator has written and where it stands.
    pub closed spec fn gen(&self) -> Gen {
        Gen {
            code: self.code@,
            dent: self.dent,
            cursor: self.current_comment_idx,
            state: match self.current_state_name_opt {
                Some(name) => Some(name@),
                None => None,
            },
            first_handler: self.first_event_handler,
            warnings: name_views(self.warnings@),
            errors: name_views(self.errors@),
        }
    }

    /// The generator has the setup that `pre` had, and has got to `g`.
    pub open spec fn evolved(&self, pre: &JavaScriptVisitor<'a>, g: Gen) -> bool {
        self.gen() == g && self.setup() == pre.setup()
    }

    /// A generator that has written nothing.
    pub fn new(
        arcanium: Arcanum<'a>,
        generate_exit_args: bool,
        generate_state_context: bool,
        generate_state_stack: bool,
        generate_change_state: bool,
        generate_transition_state: bool,
        compiler_version: &str,
        comments: Vec<Token>,
    ) -> (visitor: JavaScriptVisitor<'a>)
        ensures
            visitor.gen() == (Gen {
                code: Seq::empty(),
                dent: 0,
                cursor: 0,
                state: None,
                first_handler: true,
                warnings: Seq::empty(),
                errors: Seq::empty(),
            }),
            visitor.setup() == (Setup {
                version: compiler_version@,
                comments: token_views(comments@),
                states: arcanium.states@,
                events: arcanium.events@,
                serializable: arcanium.serializable,
                exit_args: generate_exit_args,
                state_context: generate_state_context,
                state_stack: generate_state_stack,
                change_state: generate_change_state,
                transition_state: generate_transition_state,
            }),
    {
        let visitor = JavaScriptVisitor {
            compiler_version: compiler_version.to_owned(),
            code: std::string::String::new(),
            dent: 0,
            current_state_name_opt: None,
            arcanium,
            comments,
            current_comment_idx: 0,
            first_event_handler: true,
            warnings: Vec::new(),
            errors: Vec::new(),
            generate_exit_args,
            generate_state_context,
            generate_state_stack,
            generate_change_state,
            generate_transition_state,
        };
        assert(name_views(visitor.warnings@) =~= Seq::empty());
        assert(name_views(visitor.errors@) =~= Seq::empty());
        visitor
    }

    fn enter_state(&mut self, name: Option<std::string::String>)
        ensures
            final(self).evolved(
                old(self),
                (Gen {
                    state: match name {
                        Some(text) => Some(text@),
                        None => None,
                    },
                    ..old(self).gen()
                }),
            ),
    {
        self.current_state_name_opt = name;
    }

    fn set_first_handler(&mut self, first: bool)
        ensures
            final(self).evolved(old(self), (Gen { first_handler: first, ..old(self).gen() })),
    {
        self.first_event_handler = first;
    }

    fn add_code(&mut self, s: &str)
        ensures
            final(self).evolved(old(self), old(self).gen().add(s@)),
    {
        self.code.append(s);
    }

    fn newline(&mut self)
        ensures
            final(self).evolved(old(self), old(self).gen().newline()),
    {
        let mut text = std::string::String::from_str("\n");
        let mut i: usize = 0;
        while i < self.dent
            invariant
                i <= self.dent,
                text@ == line_break(i as nat),
                *self == *old(self),
            decreases self.dent - i,
        {
            text.append("    ");
            i += 1;
        }
        self.code.append(text.as_str());
    }

    fn indent(&mut self)
        ensures
            final(self).evolved(old(self), old(self).gen().indent()),
    {
        if self.dent < usize::MAX {
            self.dent += 1;
        }
    }

    fn outdent(&mut self)
        ensures
            final(self).evolved(old(self), old(self).gen().outdent()),
    {
        if self.dent > 0 {
            self.dent -= 1;
        }
    }

    fn fail(&mut self, message: &str)
        ensures
            final(self).evolved(old(self), old(self).gen().fail(message@)),
    {
        let ghost before = self.errors@;
        self.errors.push(message.to_owned());
        assert(name_views(self.errors@) =~= name_views(before).push(message@));
    }

    fn warn(&mut self, message: std::string::String)
        ensures
            final(self).evolved(old(self), old(self).gen().warn(message@)),
    {
        let ghost before = self.warnings@;
        self.warnings.push(message);
        assert(name_views(self.warnings@) =~= name_views(before).push(message@));
    }

    /// Writes out the comments of the source that stand on `line` or above
    /// it and were not written out yet; returns whether there was one.
    fn generate_comment(&mut self, line: usize) -> (generated_comment: bool)
        ensures
            final(self).evolved(
                old(self),
                old(self).gen().comments(old(self).setup().comments, line as nat),
            ),
            generated_comment == (final(self).gen().cursor > old(self).gen().cursor),
    {
        let mut generated_comment = false;
        while self.current_comment_idx < self.comments.len() && line
            >= self.comments[self.current_comment_idx].line
            invariant
                self.evolved(old(self), self.gen()),
                self.gen().comments(self.setup().comments, line as nat) == old(
                    self,
                ).gen().comments(old(self).setup().comments, line as nat),
                self.current_comment_idx >= old(self).current_comment_idx,
                generated_comment == (self.current_comment_idx > old(self).current_comment_idx),
            decreases self.comments@.len() - self.current_comment_idx,
        {
            let ghost before = *self;
            let single = match self.comments[self.current_comment_idx].token_type {
                TokenType::SingleLineComment => true,
                _ => false,
            };
            let chars = chars_of(self.comments[self.current_comment_idx].lexeme.as_str());
            let n = chars.len();
            if single {
                let body = if n >= 3 {
                    string_of(&chars, 3, n)
                } else {
                    std::string::String::new()
                };
                self.add_code("  // ");
                self.add_code(body.as_str());
                self.newline();
            } else {
                let body = if n >= 6 {
                    string_of(&chars, 3, n - 3)
                } else {
                    std::string::String::new()
                };
                self.add_code("/* ");
                self.add_code(body.as_str());
                self.add_code("*/");
            }
            self.current_comment_idx += 1;
            generated_comment = true;
        }
        generated_comment
    }

    fn visit_operator(&mut self, operator: &OperatorType)
        ensures
            final(self).evolved(old(self), old(self).gen().add(operator_text(*operator))),
    {
        match operator {
            OperatorType::Plus => self.add_code(" + "),
            OperatorType::Minus => self.add_code(" - "),
            OperatorType::Negated => self.add_code("-"),
            OperatorType::Multiply => self.add_code(" * "),
            OperatorType::Divide => self.add_code(" / "),
            OperatorType::Greater => self.add_code(" > "),
            OperatorType::GreaterEqual => self.add_code(" >= "),
            OperatorType::Less => self.add_code(" < "),
            OperatorType::LessEqual => self.add_code(" <= "),
            OperatorType::Not => self.add_code("!"),
            OperatorType::EqualEqual => self.add_code(" == "),
            OperatorType::NotEqual => self.add_code(" != "),
            OperatorType::LogicalAnd => self.add_code(" && "),
            OperatorType::LogicalOr => self.add_code(" || "),
            OperatorType::LogicalXor => self.add_code(""),
        }
    }

    fn visit_event_part(&mut self, part: &FrameEventPart)
        ensures
            final(self).evolved(old(self), event_part(old(self).gen(), *part)),
    {
        match part {
            FrameEventPart::Event { .. } => self.add_code("e"),
            FrameEventPart::Message { .. } => self.add_code("e._message"),
            FrameEventPart::Param { param_tok, .. } => {
                self.add_code("e._parameters[\"");
                self.add_code(param_tok.lexeme.as_str());
                self.add_code("\"]");
            },
            FrameEventPart::Return { .. } => self.add_code("e._return"),
        }
    }

    fn visit_literal(&mut self, node: &LiteralExprNode)
        ensures
            final(self).evolved(old(self), literal(old(self).gen(), *node)),
    {
        match node.token_t {
            TokenType::Number => self.add_code(node.value.as_str()),
            TokenType::SuperString => self.add_code(node.value.as_str()),
            TokenType::String => {
                self.add_code("\"");
                self.add_code(node.value.as_str());
                self.add_code("\"");
            },
            TokenType::True => self.add_code("true"),
            TokenType::False => self.add_code("false"),
            TokenType::Null => self.add_code("null"),
            TokenType::Nil => self.add_code("null"),
            _ => self.fail("Unsupported literal."),
        }
    }

    fn add_keyed(&mut self, open: &str, name: &str, close: &str, wrap: bool)
        ensures
            final(self).evolved(old(self), keyed(old(self).gen(), open@, name@, close@, wrap)),
    {
        if wrap {
            self.add_code("(");
        }
        self.add_code(open);
        self.add_code(name);
        self.add_code(close);
        if wrap {
            self.add_code(")");
        }
    }

    /// Writes a reference to a variable, by the scope it was resolved to.
    fn format_variable_expr(&mut self, node: &VariableNode, wrap: bool)
        ensures
            final(self).evolved(old(self), variable(old(self).gen(), *node, wrap)),
    {
        let name = node.id_node.name.lexeme.as_str();
        match node.scope {
            IdentifierDeclScope::DomainBlock => {
                self.add_code("that.");
                self.add_code(name);
            },
            IdentifierDeclScope::StateParam => self.add_keyed(
                "_stateContext_.getStateArg(\"",
                name,
                "\")",
                wrap,
            ),
            IdentifierDeclScope::StateVar => self.add_keyed(
                "_stateContext_.getStateVar(\"",
                name,
                "\")",
                wrap,
            ),
            IdentifierDeclScope::EventHandlerParam => self.add_keyed(
                "e._parameters[\"",
                name,
                "\"]",
                wrap,
            ),
            IdentifierDeclScope::EventHandlerVar => self.add_code(name),
            IdentifierDeclScope::Unresolved => self.add_code(name),
            _ => self.fail("Illegal scope."),
        }
    }

    /// Writes an expression.
    fn visit_expr(&mut self, e: &ExprType)
        ensures
            final(self).evolved(old(self), expr(old(self).gen(), *e)),
        decreases e, 0nat,
    {
        match e {
            ExprType::AssignmentExprT { assignment_expr_node } => {
                self.visit_expr(&assignment_expr_node.l_value_box);
                self.add_code(" = ");
                self.visit_expr(&assignment_expr_node.r_value_box);
            },
            ExprType::ActionCallExprT { action_call_expr_node } => self.visit_action_call(
                action_call_expr_node,
            ),
            ExprType::CallChainLiteralExprT { call_chain_expr_node } => self.visit_chain(
                &call_chain_expr_node.call_chain,
            ),
            ExprType::CallExprT { call_expr_node } => self.visit_call(call_expr_node),
            ExprType::CallExprListT { call_expr_list_node } => self.visit_args(
                &call_expr_list_node.exprs_t,
            ),
            ExprType::ExprListT { expr_list_node } => self.visit_args(&expr_list_node.exprs_t),
            ExprType::VariableExprT { var_node } => self.format_variable_expr(var_node, false),
            ExprType::LiteralExprT { literal_expr_node } => self.visit_literal(literal_expr_node),
            ExprType::StateStackOperationExprT { .. } => {},
            ExprType::FrameEventExprT { frame_event_part } => self.visit_event_part(
                frame_event_part,
            ),
            ExprType::UnaryExprT { unary_expr_node } => {
                self.visit_operator(&unary_expr_node.operator);
                self.visit_expr(&unary_expr_node.right);
            },
            ExprType::BinaryExprT { binary_expr_node } => {
                match binary_expr_node.operator {
                    OperatorType::LogicalXor => {
                        self.add_code("((");
                        self.visit_expr(&binary_expr_node.left);
                        self.add_code(") && !(");
                        self.visit_expr(&binary_expr_node.right);
                        self.add_code(")) || (!(");
                        self.visit_expr(&binary_expr_node.left);
                        self.add_code(") && (");
                        self.visit_expr(&binary_expr_node.right);
                        self.add_code("))");
                    },
                    _ => {
                        self.visit_expr(&binary_expr_node.left);
                        self.visit_operator(&binary_expr_node.operator);
                        self.visit_expr(&binary_expr_node.right);
                    },
                }
            },
        }
    }

    /// Writes the expressions in parentheses, with commas between them.
    fn visit_args(&mut self, exprs: &Vec<ExprType>)
        ensures
            final(self).evolved(old(self), args(old(self).gen(), exprs@)),
        decreases exprs@, 1nat,
    {
        self.add_code("(");
        let ghost opened = self.gen();
        let mut i: usize = 0;
        while i < exprs.len()
            invariant
                i <= exprs@.len(),
                self.evolved(old(self), list(opened, exprs@, i as nat)),
            decreases exprs@.len() - i,
        {
            if i > 0 {
                self.add_code(",");
            }
            self.visit_expr(&exprs[i]);
            i += 1;
        }
        self.add_code(")");
    }

    fn visit_call(&mut self, node: &CallExprNode)
        ensures
            final(self).evolved(old(self), call(old(self).gen(), *node)),
        decreases node, 0nat,
    {
        self.add_code(node.identifier.name.lexeme.as_str());
        self.visit_args(&node.call_expr_list.exprs_t);
    }

    fn visit_action_call(&mut self, node: &ActionCallExprNode)
        ensures
            final(self).evolved(old(self), action_call(old(self).gen(), *node)),
        decreases node, 0nat,
    {
        self.add_code("that.");
        self.add_code(node.identifier.name.lexeme.as_str());
        self.add_code("_do");
        self.visit_args(&node.call_expr_list.exprs_t);
    }

    fn visit_interface_call(&mut self, node: &InterfaceMethodCallExprNode)
        ensures
            final(self).evolved(old(self), interface_call(old(self).gen(), *node)),
        decreases node, 0nat,
    {
        self.add_code("that.");
        self.add_code(node.identifier.name.lexeme.as_str());
        self.visit_args(&node.call_expr_list.exprs_t);
    }

    fn visit_link(&mut self, node: &CallChainLiteralNodeType)
        ensures
            final(self).evolved(old(self), link(old(self).gen(), *node)),
        decreases node, 0nat,
    {
        match node {
            CallChainLiteralNodeType::VariableNodeT { var_node } => self.format_variable_expr(
                var_node,
                true,
            ),
            CallChainLiteralNodeType::IdentifierNodeT { id_node } => self.add_code(
                id_node.name.lexeme.as_str(),
            ),
            CallChainLiteralNodeType::CallT { call } => self.visit_call(call),
            CallChainLiteralNodeType::InterfaceMethodCallT {
                interface_method_call_expr_node,
            } => self.visit_interface_call(interface_method_call_expr_node),
            CallChainLiteralNodeType::ActionCallT {
                action_call_expr_node,
            } => self.visit_action_call(action_call_expr_node),
        }
    }

    /// Writes the links of a chain, with points between them.
    fn visit_chain(&mut self, links: &Vec<CallChainLiteralNodeType>)
        ensures
            final(self).evolved(old(self), chain(old(self).gen(), links@, links@.len())),
        decreases links@, 1nat,
    {
        let mut i: usize = 0;
        while i < links.len()
            invariant
                i <= links@.len(),
                self.evolved(old(self), chain(old(self).gen(), links@, i as nat)),
            decreases links@.len() - i,
        {
            if i > 0 {
                self.add_code(".");
            }
            self.visit_link(&links[i]);
            i += 1;
        }
    }

    fn format_target_state_name(&mut self, state_name: &str)
        ensures
            final(self).evolved(old(self), target_ref(old(self).gen(), state_name@)),
    {
        self.add_code("_s");
        self.add_code(state_name);
        self.add_code("_");
    }

    /// Writes the arguments, each on a line of its own behind the name of
    /// the parameter that it is for.
    fn generate_arg_lines(
        &mut self,
        open: &str,
        mid: &str,
        close: &str,
        names: &Vec<std::string::String>,
        params: Ghost<Seq<ParameterSymbol>>,
        exprs: &Vec<ExprType>,
    )
        requires
            names@.len() == params@.len(),
            forall|i: int| 0 <= i < names@.len() ==> names@[i]@ == params@[i].name@,
            exprs@.len() <= names@.len(),
        ensures
            final(self).evolved(
                old(self),
                arg_lines(old(self).gen(), open@, mid@, close@, params@, exprs@, exprs@.len()),
            ),
    {
        let mut i: usize = 0;
        while i < exprs.len()
            invariant
                i <= exprs@.len() <= names@.len(),
                names@.len() == params@.len(),
                forall|i: int| 0 <= i < names@.len() ==> names@[i]@ == params@[i].name@,
                self.evolved(
                    old(self),
                    arg_lines(old(self).gen(), open@, mid@, close@, params@, exprs@, i as nat),
                ),
            decreases exprs@.len() - i,
        {
            self.add_code(open);
            self.add_code(names[i].as_str());
            self.add_code(mid);
            self.visit_expr(&exprs[i]);
            self.add_code(close);
            self.newline();
            i += 1;
        }
    }

    /// Writes the variables of a state, each added to the state context.
    fn generate_var_lines(&mut self, vars: &Vec<VariableDeclNode>)
        ensures
            final(self).evolved(old(self), var_lines(old(self).gen(), vars@, vars@.len())),
    {
        let mut i: usize = 0;
        while i < vars.len()
            invariant
                i <= vars@.len(),
                self.evolved(old(self), var_lines(old(self).gen(), vars@, i as nat)),
            decreases vars@.len() - i,
        {
            match &vars[i].initializer_expr_t_opt {
                Some(init) => {
                    self.add_code("stateContext.addStateVar(\"");
                    self.add_code(vars[i].name.as_str());
                    self.add_code("\",");
                    self.visit_expr(init);
                    self.add_code(");");
                    self.newline();
                },
                None => self.fail("State variable without initializer."),
            }
            i += 1;
        }
    }

    fn generate_label(&mut self, label_opt: &Option<std::string::String>)
        ensures
            final(self).evolved(old(self), label(old(self).gen(), *label_opt)),
    {
        match label_opt {
            Some(text) => {
                self.add_code("// ");
                self.add_code(text.as_str());
                self.newline();
            },
            None => {},
        }
    }

    /// The parameters of the event with the message `msg`: `None` when
    /// there is no such event, `Some(None)` when it declares none.
    fn event_params(&self, msg: &str) -> (found: Option<Option<Vec<std::string::String>>>)
        ensures
            found.is_some() == event_named(self.setup(), msg@).is_some(),
            found matches Some(declared) ==> {
                let params_opt = event_named(self.setup(), msg@)->0.params_opt;
                &&& declared.is_some() == params_opt.is_some()
                &&& declared matches Some(names) ==> names@.len() == params_opt->0@.len()
                    && forall|i: int|
                    0 <= i < names@.len() ==> names@[i]@ == params_opt->0@[i].name@
            },
    {
        match self.arcanium.get_event(msg) {
            Some(event) => match &event.params_opt {
                Some(params) => Some(Some(param_names(params))),
                None => Some(None),
            },
            None => None,
        }
    }

    /// Writes the exit arguments of a transition.
    fn generate_exit_args(&mut self, t: &TransitionStatementNode)
        ensures
            final(self).evolved(old(self), exit_args(old(self).gen(), old(self).setup(), *t)),
    {
        match &t.exit_args_opt {
            Some(list) => {
                if list.exprs_t.len() > 0 {
                    let mut msg = match &self.current_state_name_opt {
                        Some(name) => name.clone(),
                        None => std::string::String::new(),
                    };
                    msg.append(":");
                    msg.append("<");
                    assert(msg@ =~= state_event(
                        match old(self).gen().state {
                            Some(name) => name,
                            None => Seq::empty(),
                        },
                        "<"@,
                    ));
                    let ghost params_opt = event_named(self.setup(), msg@)->0.params_opt;
                    match self.event_params(msg.as_str()) {
                        Some(Some(names)) => {
                            if names.len() == list.exprs_t.len() {
                                self.add_code("let exitArgs = {};");
                                self.newline();
                                self.generate_arg_lines(
                                    "exitArgs[\"",
                                    "\"] = ",
                                    ";",
                                    &names,
                                    Ghost(params_opt->0@),
                                    &list.exprs_t,
                                );
                            } else {
                                self.fail("Fatal error: misaligned parameters to arguments.");
                            }
                        },
                        Some(None) => self.fail(
                            "Fatal error: misaligned parameters to arguments.",
                        ),
                        None => self.fail(
                            "Exit arguments for a state without an exit event handler.",
                        ),
                    }
                }
            },
            None => {},
        }
    }

    /// Writes the enter arguments of a transition.
    fn generate_enter_args(&mut self, target: &StateContextNode)
        ensures
            final(self).evolved(
                old(self),
                enter_args(old(self).gen(), old(self).setup(), *target),
            ),
    {
        match &target.enter_args_opt {
            Some(list) => {
                let mut msg = target.state_ref_node.name.clone();
                msg.append(":");
                msg.append(">");
                let ghost params_opt = event_named(self.setup(), msg@)->0.params_opt;
                match self.event_params(msg.as_str()) {
                    Some(Some(names)) => {
                        if names.len() == list.exprs_t.len() {
                            self.generate_arg_lines(
                                "stateContext.addEnterArg(\"",
                                "\",",
                                ");",
                                &names,
                                Ghost(params_opt->0@),
                                &list.exprs_t,
                            );
                        } else {
                            self.fail("Fatal error: misaligned parameters to arguments.");
                        }
                    },
                    Some(None) => self.fail(
                        "Invalid number of arguments for the enter event handler.",
                    ),
                    None => {
                        let mut warning = std::string::String::from_str("State ");
                        warning.append(target.state_ref_node.name.as_str());
                        warning.append(
                            " does not have an enter event handler but is being passed parameters in a transition",
                        );
                        self.warn(warning);
                    },
                }
            },
            None => {},
        }
    }

    /// The parameters of the state named `name`, as [`Self::event_params`]
    /// gives those of an event.
    fn state_params(&self, name: &str) -> (found: Option<Option<Vec<std::string::String>>>)
        ensures
            found.is_some() == state_named(self.setup(), name@).is_some(),
            found matches Some(declared) ==> {
                let params_opt = state_named(self.setup(), name@)->0.params_opt;
                &&& declared.is_some() == params_opt.is_some()
                &&& declared matches Some(names) ==> names@.len() == params_opt->0@.len()
                    && forall|i: int|
                    0 <= i < names@.len() ==> names@[i]@ == params_opt->0@[i].name@
            },
    {
        match self.arcanium.get_state(name) {
            Some(state) => match &state.params_opt {
                Some(params) => Some(Some(param_names(params))),
                None => Some(None),
            },
            None => None,
        }
    }

    /// Writes the state arguments of a transition.
    fn generate_state_args(&mut self, target: &StateContextNode)
        ensures
            final(self).evolved(
                old(self),
                state_args(old(self).gen(), old(self).setup(), *target),
            ),
    {
        match &target.state_ref_args_opt {
            Some(list) => {
                let ghost params_opt = state_named(
                    self.setup(),
                    target.state_ref_node.name@,
                )->0.params_opt;
                match self.state_params(target.state_ref_node.name.as_str()) {
                    Some(Some(names)) => {
                        if list.exprs_t.len() <= names.len() {
                            self.generate_arg_lines(
                                "stateContext.addStateArg(\"",
                                "\",",
                                ");",
                                &names,
                                Ghost(params_opt->0@),
                                &list.exprs_t,
                            );
                        } else {
                            self.fail("Invalid number of arguments for state parameters.");
                        }
                    },
                    Some(None) => {},
                    None => self.fail("Transition to a state that is not declared."),
                }
            },
            None => {},
        }
    }

    /// The declaration of the state named `name`.
    fn state_node(&self, name: &str) -> (found: Option<&'a StateNode>)
        ensures
            found.is_some() == state_named(self.setup(), name@).is_some(),
            found matches Some(node) ==> *node == *state_named(self.setup(), name@)->0.state_node,
    {
        match self.arcanium.get_state(name) {
            Some(state) => Some(state.state_node),
            None => None,
        }
    }

    /// Writes the variables of the target of a transition.
    fn generate_state_vars(&mut self, name: &str)
        ensures
            final(self).evolved(old(self), state_vars(old(self).gen(), old(self).setup(), name@)),
    {
        match self.state_node(name) {
            Some(node) => match &node.vars_opt {
                Some(vars) => self.generate_var_lines(vars),
                None => {},
            },
            None => {},
        }
    }

    fn generate_transition_tail(&mut self, exits: bool, context: &str)
        ensures
            final(self).evolved(
                old(self),
                transition_tail(old(self).gen(), old(self).setup(), exits, context@),
            ),
    {
        if self.generate_exit_args {
            if exits {
                self.add_code(",exitArgs");
            } else {
                self.add_code(",null");
            }
        }
        if self.generate_state_context {
            self.add_code(context);
        }
        self.add_code(");");
    }

    /// Writes a transition to a named state.
    fn generate_state_ref_transition(
        &mut self,
        t: &TransitionStatementNode,
        target: &StateContextNode,
    )
        ensures
            final(self).evolved(
                old(self),
                transition(old(self).gen(), old(self).setup(), *t, *target),
            ),
    {
        let name = target.state_ref_node.name.as_str();
        self.newline();
        self.generate_label(&t.label_opt);
        if self.generate_state_context {
            self.add_code("stateContext = StateContext(");
            self.format_target_state_name(name);
            self.add_code(");");
            self.newline();
        }
        self.generate_exit_args(t);
        self.generate_enter_args(target);
        self.generate_state_args(target);
        self.generate_state_vars(name);
        self.add_code("_transition_(");
        self.format_target_state_name(name);
        let exits = match &t.exit_args_opt {
            Some(list) => list.exprs_t.len() > 0,
            None => false,
        };
        self.generate_transition_tail(exits, ",stateContext");
    }

    /// Writes a transition to the state on top of the state stack.
    fn generate_state_stack_pop_transition(&mut self, t: &TransitionStatementNode)
        ensures
            final(self).evolved(old(self), pop_transition(old(self).gen(), old(self).setup(), *t)),
    {
        self.newline();
        self.generate_label(&t.label_opt);
        self.generate_exit_args(t);
        if self.generate_state_context {
            self.add_code("let stateContext = _stateStack_pop_();");
        } else {
            self.add_code("let state = _stateStack_pop_();");
        }
        self.newline();
        if self.generate_state_context {
            self.add_code("_transition_(stateContext.state");
        } else {
            self.add_code("_transition_(state");
        }
        let exits = match &t.exit_args_opt {
            Some(list) => list.exprs_t.len() > 0,
            None => false,
        };
        self.generate_transition_tail(exits, ",stateContext");
    }

    fn generate_stack_op(&mut self, operation: StateStackOperationType)
        ensures
            final(self).evolved(old(self), stack_op(old(self).gen(), old(self).setup(), operation)),
    {
        self.newline();
        match operation {
            StateStackOperationType::Push => {
                if self.generate_state_context {
                    self.add_code("_stateStack_push_(_stateContext_);");
                } else {
                    self.add_code("_stateStack_push_(_state_);");
                }
            },
            StateStackOperationType::Pop => {
                if self.generate_state_context {
                    self.add_code("let stateContext = _stateStack_pop_();");
                } else {
                    self.add_code("let state = _stateStack_pop_();");
                }
            },
        }
    }

    /// Writes the declaration of a variable of the domain or of a handler.
    fn generate_var_decl(&mut self, v: &VariableDeclNode)
        ensures
            final(self).evolved(old(self), var_decl(old(self).gen(), *v)),
    {
        match &v.initializer_expr_t_opt {
            Some(init) => match v.identifier_decl_scope {
                IdentifierDeclScope::DomainBlock => {
                    self.newline();
                    self.add_code("that.");
                    self.add_code(v.name.as_str());
                    self.add_code(" = ");
                    self.visit_expr(init);
                    self.add_code(";");
                },
                IdentifierDeclScope::EventHandlerVar => {
                    self.newline();
                    self.add_code("let ");
                    self.add_code(v.name.as_str());
                    self.add_code(" = ");
                    self.visit_expr(init);
                    self.add_code(";");
                },
                _ => self.fail("Unexpected scope for variable declaration."),
            },
            None => self.fail("Variable without initializer."),
        }
    }

    fn generate_return(&mut self, value: &Option<ExprType>)
        ensures
            final(self).evolved(old(self), returning(old(self).gen(), *value)),
    {
        match value {
            Some(e) => {
                self.add_code("e._return = ");
                self.visit_expr(e);
                self.add_code(";");
                self.newline();
                self.add_code("return;");
            },
            None => self.add_code("return;"),
        }
    }

    fn generate_branch_end(&mut self, end: &Option<TerminatorExpr>)
        ensures
            final(self).evolved(old(self), branch_end(old(self).gen(), *end)),
    {
        match end {
            Some(t) => {
                self.newline();
                match t.terminator_type {
                    TerminatorType::Return => self.generate_return(&t.return_expr_t_opt),
                    TerminatorType::Continue => self.add_code("break;"),
                }
            },
            None => {},
        }
    }

    fn generate_handler_end(&mut self, t: &TerminatorExpr)
        ensures
            final(self).evolved(old(self), handler_end(old(self).gen(), *t)),
    {
        self.newline();
        match t.terminator_type {
            TerminatorType::Return => self.generate_return(&t.return_expr_t_opt),
            TerminatorType::Continue => {},
        }
    }

    /// Writes the expression that a string or number test compares.
    fn generate_subject(&mut self, e: &ExprType)
        ensures
            final(self).evolved(old(self), subject(old(self).gen(), *e)),
    {
        match e {
            ExprType::CallExprT { .. } => self.visit_expr(e),
            ExprType::ActionCallExprT { .. } => self.visit_expr(e),
            ExprType::CallChainLiteralExprT { .. } => self.visit_expr(e),
            ExprType::VariableExprT { .. } => self.visit_expr(e),
            _ => self.fail("Unsupported test expression."),
        }
    }

    fn generate_string_alternatives(&mut self, e: &ExprType, patterns: &Vec<std::string::String>)
        ensures
            final(self).evolved(
                old(self),
                string_alternatives(old(self).gen(), *e, patterns@, patterns@.len()),
            ),
    {
        let mut i: usize = 0;
        while i < patterns.len()
            invariant
                i <= patterns@.len(),
                self.evolved(
                    old(self),
                    string_alternatives(old(self).gen(), *e, patterns@, i as nat),
                ),
            decreases patterns@.len() - i,
        {
            if i > 0 {
                self.add_code(" || (");
                self.generate_subject(e);
            }
            self.add_code(" == \"");
            self.add_code(patterns[i].as_str());
            self.add_code("\")");
            i += 1;
        }
    }

    fn generate_number_alternatives(
        &mut self,
        e: &ExprType,
        patterns: &Vec<NumberMatchTestPatternNode>,
    )
        ensures
            final(self).evolved(
                old(self),
                number_alternatives(old(self).gen(), *e, patterns@, patterns@.len()),
            ),
    {
        let mut i: usize = 0;
        while i < patterns.len()
            invariant
                i <= patterns@.len(),
                self.evolved(
                    old(self),
                    number_alternatives(old(self).gen(), *e, patterns@, i as nat),
                ),
            decreases patterns@.len() - i,
        {
            if i > 0 {
                self.add_code(" || (");
                self.generate_subject(e);
            }
            self.add_code(" == ");
            self.add_code(patterns[i].match_pattern_number.as_str());
            self.add_code(")");
            i += 1;
        }
    }

    /// Writes a statement.
    fn visit_stmt(&mut self, st: &StatementType)
        ensures
            final(self).evolved(old(self), stmt(old(self).gen(), old(self).setup(), *st)),
        decreases st, 0nat,
    {
        match st {
            StatementType::ExpressionStmt { expr_stmt_t } => match expr_stmt_t {
                ExprStmtType::CallStmtT { call_stmt_node } => {
                    self.newline();
                    self.visit_call(&call_stmt_node.call_expr_node);
                    self.add_code(";");
                },
                ExprStmtType::ActionCallStmtT { action_call_stmt_node } => {
                    self.newline();
                    self.visit_action_call(&action_call_stmt_node.action_call_expr_node);
                    self.add_code(";");
                },
                ExprStmtType::CallChainLiteralStmtT { call_chain_literal_stmt_node } => {
                    self.newline();
                    self.visit_chain(
                        &call_chain_literal_stmt_node.call_chain_literal_expr_node.call_chain,
                    );
                    self.add_code(";");
                },
                ExprStmtType::AssignmentStmtT { assignment_stmt_node } => {
                    self.generate_comment(assignment_stmt_node.assignment_expr_node.line);
                    self.newline();
                    self.visit_expr(&assignment_stmt_node.assignment_expr_node.l_value_box);
                    self.add_code(" = ");
                    self.visit_expr(&assignment_stmt_node.assignment_expr_node.r_value_box);
                    self.add_code(";");
                },
                ExprStmtType::VariableStmtT { variable_stmt_node } => {
                    self.generate_comment(variable_stmt_node.var_node.id_node.line);
                    self.newline();
                    self.add_code(variable_stmt_node.var_node.id_node.name.lexeme.as_str());
                    self.add_code(";");
                },
            },
            StatementType::TransitionStmt { transition_statement } => {
                match &transition_statement.target_state_context_t {
                    StateContextType::StateRef { state_context_node } => {
                        self.generate_state_ref_transition(transition_statement, state_context_node)
                    },
                    StateContextType::StateStackPop => {
                        self.generate_state_stack_pop_transition(transition_statement)
                    },
                }
            },
            StatementType::TestStmt { test_stmt_node } => match &test_stmt_node.test_t {
                TestType::BoolTest { bool_test_node } => self.visit_bool_test(bool_test_node),
                TestType::StringMatchTest { string_match_test_node } => self.visit_string_test(
                    string_match_test_node,
                ),
                TestType::NumberMatchTest { number_match_test_node } => self.visit_number_test(
                    number_match_test_node,
                ),
            },
            StatementType::StateStackStmt { state_stack_operation_statement_node } => {
                self.generate_stack_op(
                    state_stack_operation_statement_node.state_stack_operation_node.operation_t,
                )
            },
            StatementType::ChangeStateStmt { change_state_stmt } => {
                match &change_state_stmt.state_context_t {
                    StateContextType::StateRef { state_context_node } => {
                        self.newline();
                        self.add_code("_changeState_(");
                        self.format_target_state_name(
                            state_context_node.state_ref_node.name.as_str(),
                        );
                        self.add_code(");");
                    },
                    StateContextType::StateStackPop => self.fail(
                        "Change of state to the state stack is not supported.",
                    ),
                }
            },
            StatementType::NoStmt => self.fail("Empty statement."),
        }
    }

    /// Writes the declarations and statements of a handler or a branch.
    fn visit_decl_stmts(&mut self, all: &Vec<DeclOrStmtType>)
        ensures
            final(self).evolved(
                old(self),
                stmts(old(self).gen(), old(self).setup(), all@, all@.len()),
            ),
        decreases all@, 1nat,
    {
        let mut i: usize = 0;
        while i < all.len()
            invariant
                i <= all@.len(),
                self.evolved(old(self), stmts(old(self).gen(), old(self).setup(), all@, i as nat)),
            decreases all@.len() - i,
        {
            self.visit_decl_or_stmt(&all[i]);
            i += 1;
        }
    }

    fn visit_decl_or_stmt(&mut self, d: &DeclOrStmtType)
        ensures
            final(self).evolved(old(self), decl_or_stmt(old(self).gen(), old(self).setup(), *d)),
        decreases d, 1nat,
    {
        match d {
            DeclOrStmtType::VarDeclT { var_decl_t } => self.generate_var_decl(var_decl_t),
            DeclOrStmtType::StmtT { stmt_t } => self.visit_stmt(stmt_t),
        }
    }

    /// Writes the body of a branch and the brace that closes it.
    fn generate_block(&mut self, all: &Vec<DeclOrStmtType>, end: &Option<TerminatorExpr>)
        ensures
            final(self).evolved(
                old(self),
                block(old(self).gen(), old(self).setup(), all@, *end),
            ),
        decreases all@, 2nat,
    {
        self.indent();
        self.visit_decl_stmts(all);
        self.generate_branch_end(end);
        self.outdent();
        self.newline();
        self.add_code("}");
    }

    fn generate_else_block(&mut self, all: &Vec<DeclOrStmtType>, end: &Option<TerminatorExpr>)
        ensures
            final(self).evolved(
                old(self),
                else_block(old(self).gen(), old(self).setup(), all@, *end),
            ),
        decreases all@, 3nat,
    {
        self.add_code(" else {");
        self.generate_block(all, end);
    }

    fn visit_bool_branch(&mut self, b: &BoolTestConditionalBranchNode, first: bool)
        ensures
            final(self).evolved(
                old(self),
                bool_branch(old(self).gen(), old(self).setup(), *b, first),
            ),
        decreases b, 0nat,
    {
        if first {
            self.add_code("if ");
        } else {
            self.add_code(" else if ");
        }
        if b.is_negated {
            self.add_code("(!(");
            self.visit_expr(&b.expr_t);
            self.add_code(")");
        } else {
            self.add_code("(");
            self.visit_expr(&b.expr_t);
        }
        self.add_code(") {");
        self.generate_block(&b.statements, &b.branch_terminator_expr_opt);
    }

    /// Writes a boolean test.
    fn visit_bool_test(&mut self, node: &BoolTestNode)
        ensures
            final(self).evolved(old(self), bool_test(old(self).gen(), old(self).setup(), *node)),
        decreases node, 0nat,
    {
        self.newline();
        let ghost opened = self.gen();
        let branches = &node.conditional_branch_nodes;
        let mut i: usize = 0;
        while i < branches.len()
            invariant
                i <= branches@.len(),
                branches == &node.conditional_branch_nodes,
                self.evolved(
                    old(self),
                    bool_branches(opened, old(self).setup(), branches@, i as nat),
                ),
            decreases branches@.len() - i,
        {
            self.visit_bool_branch(&branches[i], i == 0);
            i += 1;
        }
        match &node.else_branch_node_opt {
            Some(e) => self.generate_else_block(&e.statements, &e.branch_terminator_expr_opt),
            None => {},
        }
    }

    fn visit_string_branch(
        &mut self,
        e: &ExprType,
        b: &StringMatchTestMatchBranchNode,
        first: bool,
    )
        ensures
            final(self).evolved(
                old(self),
                string_branch(old(self).gen(), old(self).setup(), *e, *b, first),
            ),
        decreases b, 0nat,
    {
        if first {
            self.add_code("if ((");
        } else {
            self.add_code(" else if ((");
        }
        self.generate_subject(e);
        self.generate_string_alternatives(e, &b.string_match_pattern_node.match_pattern_strings);
        self.add_code(") {");
        self.generate_block(&b.statements, &b.branch_terminator_expr_opt);
    }

    /// Writes a string test.
    fn visit_string_test(&mut self, node: &StringMatchTestNode)
        ensures
            final(self).evolved(old(self), string_test(old(self).gen(), old(self).setup(), *node)),
        decreases node, 0nat,
    {
        self.newline();
        let ghost opened = self.gen();
        let branches = &node.match_branch_nodes;
        let mut i: usize = 0;
        while i < branches.len()
            invariant
                i <= branches@.len(),
                branches == &node.match_branch_nodes,
                self.evolved(
                    old(self),
                    string_branches(opened, old(self).setup(), node.expr_t, branches@, i as nat),
                ),
            decreases branches@.len() - i,
        {
            self.visit_string_branch(&node.expr_t, &branches[i], i == 0);
            i += 1;
        }
        match &node.else_branch_node_opt {
            Some(e) => self.generate_else_block(&e.statements, &e.branch_terminator_expr_opt),
            None => {},
        }
    }

    fn visit_number_branch(
        &mut self,
        e: &ExprType,
        b: &NumberMatchTestMatchBranchNode,
        first: bool,
    )
        ensures
            final(self).evolved(
                old(self),
                number_branch(old(self).gen(), old(self).setup(), *e, *b, first),
            ),
        decreases b, 0nat,
    {
        if first {
            self.add_code("if ((");
        } else {
            self.add_code(" else if ((");
        }
        self.generate_subject(e);
        self.generate_number_alternatives(e, &b.number_match_pattern_nodes);
        self.add_code(") {");
        self.generate_block(&b.statements, &b.branch_terminator_expr_opt);
    }

    /// Writes a number test.
    fn visit_number_test(&mut self, node: &NumberMatchTestNode)
        ensures
            final(self).evolved(old(self), number_test(old(self).gen(), old(self).setup(), *node)),
        decreases node, 0nat,
    {
        self.newline();
        let ghost opened = self.gen();
        let branches = &node.match_branch_nodes;
        let mut i: usize = 0;
        while i < branches.len()
            invariant
                i <= branches@.len(),
                branches == &node.match_branch_nodes,
                self.evolved(
                    old(self),
                    number_branches(opened, old(self).setup(), node.expr_t, branches@, i as nat),
                ),
            decreases branches@.len() - i,
        {
            self.visit_number_branch(&node.expr_t, &branches[i], i == 0);
            i += 1;
        }
        match &node.else_branch_node_opt {
            Some(e) => self.generate_else_block(&e.statements, &e.branch_terminator_expr_opt),
            None => {},
        }
    }

    /// Writes a handler.
    fn visit_handler(&mut self, h: &EventHandlerNode)
        ensures
            final(self).evolved(old(self), handler(old(self).gen(), old(self).setup(), *h)),
    {
        self.newline();
        self.generate_comment(h.line);
        match &h.msg_t {
            MessageType::CustomMessage { message_node } => {
                if self.first_event_handler {
                    self.add_code("if (e._message == \"");
                } else {
                    self.add_code("else if (e._message == \"");
                }
                self.add_code(message_node.name.as_str());
                self.add_code("\") {");
            },
            MessageType::AnyMessage { .. } => {
                if self.first_event_handler {
                    self.add_code("if (true) {");
                } else {
                    self.add_code("else {");
                }
            },
        }
        self.indent();
        if h.event_handler_has_transition && self.generate_state_context {
            self.newline();
            self.add_code("let stateContext = null;");
        }
        self.visit_decl_stmts(&h.statements);
        self.generate_handler_end(&h.terminator_node);
        self.outdent();
        self.newline();
        self.add_code("}");
        self.set_first_handler(false);
    }

    /// Writes a state.
    fn visit_state(&mut self, node: &StateNode)
        ensures
            final(self).evolved(old(self), state(old(self).gen(), old(self).setup(), *node)),
    {
        self.generate_comment(node.line);
        self.enter_state(Some(node.name.clone()));
        self.newline();
        self.newline();
        self.add_code("let _s");
        self.add_code(node.name.as_str());
        self.add_code("_ = function (e) {");
        self.indent();
        match &node.calls_opt {
            Some(calls) => {
                let ghost opened = self.gen();
                let mut i: usize = 0;
                while i < calls.len()
                    invariant
                        i <= calls@.len(),
                        self.evolved(old(self), entry_calls(opened, calls@, i as nat)),
                    decreases calls@.len() - i,
                {
                    self.newline();
                    self.visit_chain(&calls[i].call_chain);
                    self.add_code(";");
                    i += 1;
                }
            },
            None => {},
        }
        self.set_first_handler(true);
        let ghost called = self.gen();
        let mut i: usize = 0;
        while i < node.evt_handlers.len()
            invariant
                i <= node.evt_handlers@.len(),
                self.evolved(
                    old(self),
                    handlers(called, old(self).setup(), node.evt_handlers@, i as nat),
                ),
            decreases node.evt_handlers@.len() - i,
        {
            self.visit_handler(&node.evt_handlers[i]);
            i += 1;
        }
        match &node.dispatch_opt {
            Some(d) => {
                self.newline();
                self.format_target_state_name(d.target_state_ref.name.as_str());
                self.add_code("(e);");
                self.generate_comment(d.line);
                self.newline();
            },
            None => {},
        }
        self.outdent();
        self.newline();
        self.add_code("}");
        self.enter_state(None);
    }

    fn generate_name_list(&mut self, params: &Vec<ParameterNode>)
        ensures
            final(self).evolved(old(self), name_list(old(self).gen(), params@, params@.len())),
    {
        let mut i: usize = 0;
        while i < params.len()
            invariant
                i <= params@.len(),
                self.evolved(old(self), name_list(old(self).gen(), params@, i as nat)),
            decreases params@.len() - i,
        {
            if i > 0 {
                self.add_code(",");
            }
            self.add_code(params[i].param_name.as_str());
            i += 1;
        }
    }

    fn generate_send_list(&mut self, params: &Vec<ParameterNode>)
        ensures
            final(self).evolved(old(self), send_list(old(self).gen(), params@, params@.len())),
    {
        let mut i: usize = 0;
        while i < params.len()
            invariant
                i <= params@.len(),
                self.evolved(old(self), send_list(old(self).gen(), params@, i as nat)),
            decreases params@.len() - i,
        {
            if i > 0 {
                self.add_code(",");
            }
            self.add_code("\"");
            self.add_code(params[i].param_name.as_str());
            self.add_code("\":");
            self.add_code(params[i].param_name.as_str());
            i += 1;
        }
    }

    fn generate_optional_names(&mut self, params: &Option<Vec<ParameterNode>>)
        ensures
            final(self).evolved(old(self), optional_names(old(self).gen(), *params)),
    {
        match params {
            Some(list) => self.generate_name_list(list),
            None => {},
        }
    }

    /// Writes a method of the interface.
    fn generate_interface_method(&mut self, m: &InterfaceMethodNode)
        ensures
            final(self).evolved(old(self), interface_method(old(self).gen(), *m)),
    {
        self.newline();
        self.add_code("that.");
        self.add_code(m.name.as_str());
        self.add_code(" = function (");
        self.generate_optional_names(&m.params);
        self.add_code(") {");
        self.indent();
        self.newline();
        self.add_code("let e = FrameEvent(\"");
        match &m.alias {
            Some(alias) => self.add_code(alias.name.as_str()),
            None => self.add_code(m.name.as_str()),
        }
        match &m.params {
            Some(list) => {
                self.add_code("\",{");
                self.generate_send_list(list);
                self.add_code("});");
            },
            None => self.add_code("\",null);"),
        }
        self.newline();
        self.add_code("_state_(e);");
        match &m.return_type_opt {
            Some(_) => {
                self.newline();
                self.add_code("return e._return;");
            },
            None => {},
        }
        self.outdent();
        self.newline();
        self.add_code("}");
        self.newline();
    }

    /// Writes the interface block.
    fn generate_interface_block(&mut self, b: &InterfaceBlockNode)
        ensures
            final(self).evolved(old(self), interface_block(old(self).gen(), *b)),
    {
        self.newline();
        self.add_code("//===================== Interface Block ===================//");
        self.newline();
        let ghost opened = self.gen();
        let mut i: usize = 0;
        while i < b.interface_methods.len()
            invariant
                i <= b.interface_methods@.len(),
                self.evolved(old(self), interface_methods(opened, b.interface_methods@, i as nat)),
            decreases b.interface_methods@.len() - i,
        {
            self.generate_interface_method(&b.interface_methods[i]);
            i += 1;
        }
    }

    /// Writes the machine block.
    fn generate_machine_block(&mut self, b: &MachineBlockNode)
        ensures
            final(self).evolved(
                old(self),
                machine_block(old(self).gen(), old(self).setup(), *b),
            ),
    {
        self.newline();
        self.add_code("//===================== Machine Block ===================//");
        let ghost opened = self.gen();
        let mut i: usize = 0;
        while i < b.states.len()
            invariant
                i <= b.states@.len(),
                self.evolved(old(self), states(opened, old(self).setup(), b.states@, i as nat)),
            decreases b.states@.len() - i,
        {
            self.visit_state(&b.states[i]);
            i += 1;
        }
    }

    /// Writes the declaration of an action.
    fn generate_action_decl(&mut self, a: &ActionNode)
        ensures
            final(self).evolved(old(self), action_decl(old(self).gen(), *a)),
    {
        self.newline();
        self.add_code("that.");
        self.add_code(a.name.as_str());
        self.add_code("_do = function (");
        self.generate_optional_names(&a.params);
        self.add_code(") { throw new Error('Action not implemented.'); }");
    }

    /// Writes the actions block.
    fn generate_actions_block(&mut self, b: &ActionsBlockNode)
        ensures
            final(self).evolved(old(self), actions_block(old(self).gen(), *b)),
    {
        self.newline();
        self.newline();
        self.add_code("//===================== Actions Block ===================//");
        self.newline();
        let ghost opened = self.gen();
        let mut i: usize = 0;
        while i < b.actions.len()
            invariant
                i <= b.actions@.len(),
                self.evolved(old(self), action_decls(opened, b.actions@, i as nat)),
            decreases b.actions@.len() - i,
        {
            self.generate_action_decl(&b.actions[i]);
            i += 1;
        }
    }

    /// Writes the domain block.
    fn generate_domain_block(&mut self, b: &DomainBlockNode)
        ensures
            final(self).evolved(old(self), domain_block(old(self).gen(), *b)),
    {
        self.newline();
        self.newline();
        self.add_code("//===================== Domain Block ===================//");
        self.newline();
        let ghost opened = self.gen();
        let mut i: usize = 0;
        while i < b.member_variables.len()
            invariant
                i <= b.member_variables@.len(),
                self.evolved(old(self), var_decls(opened, b.member_variables@, i as nat)),
            decreases b.member_variables@.len() - i,
        {
            self.generate_var_decl(&b.member_variables[i]);
            i += 1;
        }
    }

    fn generate_first_var_lines(&mut self, vars: &Vec<VariableDeclNode>)
        ensures
            final(self).evolved(old(self), first_var_lines(old(self).gen(), vars@, vars@.len())),
    {
        let mut i: usize = 0;
        while i < vars.len()
            invariant
                i <= vars@.len(),
                self.evolved(old(self), first_var_lines(old(self).gen(), vars@, i as nat)),
            decreases vars@.len() - i,
        {
            match &vars[i].initializer_expr_t_opt {
                Some(init) => {
                    self.newline();
                    self.add_code("_stateContext_.addStateVar(\"");
                    self.add_code(vars[i].name.as_str());
                    self.add_code("\",");
                    self.visit_expr(init);
                    self.add_code(");");
                    self.newline();
                },
                None => self.fail("State variable without initializer."),
            }
            i += 1;
        }
    }

    /// Writes the dispatcher variable and the context of the first state.
    fn generate_dispatcher(&mut self, first: &str)
        ensures
            final(self).evolved(old(self), dispatcher(old(self).gen(), old(self).setup(), first@)),
    {
        self.newline();
        self.add_code("let _state_ = ");
        self.format_target_state_name(first);
        self.add_code(";");
        if self.generate_state_context {
            self.newline();
            self.add_code("let _stateContext_ = StateContext(_state_);");
            self.newline();
            match self.state_node(first) {
                Some(node) => {
                    self.newline();
                    match &node.vars_opt {
                        Some(vars) => self.generate_first_var_lines(vars),
                        None => {},
                    }
                },
                None => {},
            }
        }
    }

    fn generate_transition_machinery(&mut self)
        ensures
            final(self).evolved(
                old(self),
                transition_machinery(old(self).gen(), old(self).setup()),
            ),
    {
        self.newline();
        self.newline();
        if self.generate_state_context {
            if self.generate_exit_args {
                self.add_code("let _transition_ = function(newState,exitArgs, stateContext) {");
            } else {
                self.add_code("let _transition_ = function(newState, stateContext) {");
            }
        } else if self.generate_exit_args {
            self.add_code("let _transition_ = function(newState,exitArgs) {");
        } else {
            self.add_code("let _transition_ = function(newState) {");
        }
        self.indent();
        self.newline();
        if self.generate_exit_args {
            self.add_code("let exitEvent = FrameEvent(\"<\",exitArgs);");
        } else {
            self.add_code("let exitEvent = FrameEvent(\"<\",null);");
        }
        self.newline();
        self.add_code("_state_(exitEvent);");
        self.newline();
        self.add_code("_state_ = newState;");
        self.newline();
        if self.generate_state_context {
            self.add_code("_stateContext_ = stateContext;");
            self.newline();
            self.add_code("let enterEvent = FrameEvent(\">\",_stateContext_.getEnterArgs());");
            self.newline();
        } else {
            self.add_code("let enterEvent = FrameEvent(\">\",null);");
            self.newline();
        }
        self.add_code("_state_(enterEvent);");
        self.outdent();
        self.newline();
        self.add_code("}");
    }

    fn generate_stack_machinery(&mut self)
        ensures
            final(self).evolved(old(self), stack_machinery(old(self).gen())),
    {
        self.newline();
        self.newline();
        self.add_code("let _stateStack_ = [];");
        self.newline();
        self.newline();
        self.add_code("let _stateStack_push_ = function (stateData) {");
        self.indent();
        self.newline();
        self.add_code("_stateStack_.push(stateData);");
        self.outdent();
        self.newline();
        self.add_code("}");
        self.newline();
        self.newline();
        self.add_code("let _stateStack_pop_ = function() {");
        self.indent();
        self.newline();
        self.add_code("return _stateStack_.pop();");
        self.outdent();
        self.newline();
        self.add_code("}");
    }

    fn generate_change_machinery(&mut self)
        ensures
            final(self).evolved(old(self), change_machinery(old(self).gen())),
    {
        self.newline();
        self.newline();
        self.add_code("let _changeState_ = function(newState) {");
        self.indent();
        self.newline();
        self.add_code("_state_ = newState;");
        self.outdent();
        self.newline();
        self.add_code("}");
    }

    fn add_line(&mut self, text: &str)
        ensures
            final(self).evolved(old(self), line(old(self).gen(), text@)),
    {
        self.add_code(text);
        self.newline();
    }

    /// Writes the action that records the machine in a bag.
    fn generate_serializer(&mut self, node: &SystemNode)
        ensures
            final(self).evolved(old(self), serializer(old(self).gen(), *node)),
    {
        self.add_line("");
        self.add_line("that._serialize__do = function() {");
        self.add_line("");
        self.add_line("\tlet stateName = null");
        match &node.machine_block_node_opt {
            Some(machine) => {
                let ghost opened = self.gen();
                let mut i: usize = 0;
                while i < machine.states.len()
                    invariant
                        i <= machine.states@.len(),
                        self.evolved(old(self), tag_lines(opened, machine.states@, i as nat)),
                    decreases machine.states@.len() - i,
                {
                    self.add_code("\tif (_state_ == _s");
                    self.add_code(machine.states[i].name.as_str());
                    self.add_code("_) stateName = \"");
                    self.add_code(machine.states[i].name.as_str());
                    self.add_code("\"");
                    self.newline();
                    i += 1;
                }
            },
            None => {},
        }
        self.add_line("");
        self.add_line("\tvar bag = {");
        self.add_line("\t\tstate : stateName,");
        self.add_line("\t\tdomain : {}");
        self.add_line("\t};");
        self.add_line("");
        match &node.domain_block_node_opt {
            Some(domain) => {
                let ghost opened = self.gen();
                let mut i: usize = 0;
                while i < domain.member_variables.len()
                    invariant
                        i <= domain.member_variables@.len(),
                        self.evolved(
                            old(self),
                            store_lines(opened, domain.member_variables@, i as nat),
                        ),
                    decreases domain.member_variables@.len() - i,
                {
                    self.add_code("\tbag.domain[\"");
                    self.add_code(domain.member_variables[i].name.as_str());
                    self.add_code("\"] = that.");
                    self.add_code(domain.member_variables[i].name.as_str());
                    self.add_code(";");
                    self.newline();
                    i += 1;
                }
            },
            None => {},
        }
        self.add_line("");
        self.add_line("\treturn JSON.stringify(bag);");
        self.add_line("}");
        self.add_line("");
    }

    /// Writes the action that restores the machine from a bag.
    fn generate_deserializer(&mut self, node: &SystemNode)
        ensures
            final(self).evolved(old(self), deserializer(old(self).gen(), *node)),
    {
        self.add_line("");
        self.add_line("that._deserialize__do = function(data) {");
        self.add_line("");
        self.add_line("\tconst bag = JSON.parse(data);");
        self.add_line("");
        self.add_line("\tswitch (bag.state) {");
        match &node.machine_block_node_opt {
            Some(machine) => {
                let ghost opened = self.gen();
                let mut i: usize = 0;
                while i < machine.states.len()
                    invariant
                        i <= machine.states@.len(),
                        self.evolved(old(self), case_lines(opened, machine.states@, i as nat)),
                    decreases machine.states@.len() - i,
                {
                    self.add_code("\t\tcase \"");
                    self.add_code(machine.states[i].name.as_str());
                    self.add_code("\": _state_ = _s");
                    self.add_code(machine.states[i].name.as_str());
                    self.add_code("_; break;");
                    self.newline();
                    i += 1;
                }
            },
            None => {},
        }
        self.add_line("\t}");
        self.add_line("");
        match &node.domain_block_node_opt {
            Some(domain) => {
                let ghost opened = self.gen();
                let mut i: usize = 0;
                while i < domain.member_variables.len()
                    invariant
                        i <= domain.member_variables@.len(),
                        self.evolved(
                            old(self),
                            load_lines(opened, domain.member_variables@, i as nat),
                        ),
                    decreases domain.member_variables@.len() - i,
                {
                    self.add_code("\tthat.");
                    self.add_code(domain.member_variables[i].name.as_str());
                    self.add_code(" = bag.domain[\"");
                    self.add_code(domain.member_variables[i].name.as_str());
                    self.add_code("\"];");
                    self.newline();
                    i += 1;
                }
            },
            None => {},
        }
        self.add_line("");
        self.add_line("}");
    }

    /// Writes the machinery of a system.
    fn generate_machinery(&mut self, node: &SystemNode)
        ensures
            final(self).evolved(old(self), machinery(old(self).gen(), old(self).setup(), *node)),
    {
        match node.get_first_state() {
            Some(first) => {
                self.newline();
                self.newline();
                self.add_code("//=============== Machinery and Mechanisms ==============//");
                self.newline();
                self.generate_dispatcher(first.name.as_str());
                if self.generate_transition_state {
                    self.generate_transition_machinery();
                }
                if self.generate_state_stack {
                    self.generate_stack_machinery();
                }
                if self.generate_change_state {
                    self.generate_change_machinery();
                }
                if self.arcanium.is_serializable() {
                    self.newline();
                    self.generate_serializer(node);
                    self.generate_deserializer(node);
                }
            },
            None => {},
        }
    }

    /// Writes the frame of a controller.
    fn generate_subclass(&mut self, node: &SystemNode)
        ensures
            final(self).evolved(old(self), subclass(old(self).gen(), *node)),
    {
        self.add_code("");
        self.newline();
        self.add_code("/********************");
        self.newline();
        self.add_code("let ");
        self.add_code(node.name.as_str());
        self.add_code("Controller = function () {");
        self.newline();
        self.add_code("\tlet that = ");
        self.add_code(node.name.as_str());
        self.add_line(".call(this);");
        match &node.actions_block_node_opt {
            Some(actions) => {
                let ghost opened = self.gen();
                let mut i: usize = 0;
                while i < actions.actions.len()
                    invariant
                        i <= actions.actions@.len(),
                        self.evolved(old(self), override_lines(opened, actions.actions@, i as nat)),
                    decreases actions.actions@.len() - i,
                {
                    self.add_code("\tthat.");
                    self.add_code(actions.actions[i].name.as_str());
                    self.add_code("_do = function (");
                    self.generate_optional_names(&actions.actions[i].params);
                    self.add_code(") {}");
                    self.newline();
                    i += 1;
                }
            },
            None => {},
        }
        self.add_line("\treturn that;");
        self.add_line("};");
        self.add_line("********************/");
    }

    fn generate_blocks(&mut self, node: &SystemNode)
        ensures
            final(self).evolved(old(self), blocks(old(self).gen(), old(self).setup(), *node)),
    {
        match &node.interface_block_node_opt {
            Some(b) => self.generate_interface_block(b),
            None => {},
        }
        match &node.machine_block_node_opt {
            Some(b) => self.generate_machine_block(b),
            None => {},
        }
        match &node.actions_block_node_opt {
            Some(b) => self.generate_actions_block(b),
            None => {},
        }
        match &node.domain_block_node_opt {
            Some(b) => self.generate_domain_block(b),
            None => {},
        }
    }

    /// Writes a system.
    fn generate_system(&mut self, node: &SystemNode)
        ensures
            final(self).evolved(old(self), system(old(self).gen(), old(self).setup(), *node)),
    {
        proof {
            reveal(system);
        }
        self.add_code("// ");
        let version = self.compiler_version.clone();
        self.add_code(version.as_str());
        self.newline();
        self.add_code(
            "// get include files at https://github.com/frame-lang/frame-ancillary-files",
        );
        self.newline();
        self.newline();
        self.add_code("let ");
        self.add_code(node.name.as_str());
        self.add_code(" = function () {");
        self.indent();
        self.newline();
        self.newline();
        self.add_code("let that = {};");
        self.newline();
        self.add_code("that.constructor = ");
        self.add_code(node.name.as_str());
        self.add_code(";");
        self.newline();
        self.generate_blocks(node);
        self.generate_machinery(node);
        self.newline();
        self.newline();
        self.add_code("return that; ");
        if self.generate_comment(node.line) {
            self.newline();
        }
        self.outdent();
        self.newline();
        self.add_code("};");
        self.newline();
        self.generate_subclass(node);
    }

    /// Writes the JavaScript of `system_node`.
    pub fn run(&mut self, system_node: &SystemNode)
        ensures
            final(self).evolved(
                old(self),
                system(old(self).gen(), old(self).setup(), *system_node),
            ),
            final(self).setup() == old(self).setup(),
    {
        self.generate_system(system_node);
    }

    /// What was generated: the defects that were found in the tree, one
    /// behind the other, or, if there was none, the target text.
    pub fn get_code(&self) -> (text: std::string::String)
        ensures
            text@ == self.gen().output(),
    {
        if self.errors.len() > 0 {
            let mut error_list = std::string::String::new();
            let mut i: usize = 0;
            assert(error_list@ =~= joined(name_views(self.errors@), 0));
            while i < self.errors.len()
                invariant
                    i <= self.errors@.len(),
                    error_list@ == joined(name_views(self.errors@), i as nat),
                decreases self.errors@.len() - i,
            {
                error_list.append(self.errors[i].as_str());
                i += 1;
            }
            error_list
        } else {
            self.code.clone()
        }
    }

    /// Whether a defect was found in the tree.
    pub fn has_defects(&self) -> (defective: bool)
        ensures
            defective == (self.gen().errors.len() > 0),
    {
        self.errors.len() > 0
    }

    /// The warnings that were recorded.
    pub fn get_warnings(&self) -> (warnings: &Vec<std::string::String>)
        ensures
            name_views(warnings@) == self.gen().warnings,
    {
        &self.warnings
    }

    fn visit_binary(&mut self, node: &BinaryExprNode)
        ensures
            final(self).evolved(old(self), binary(old(self).gen(), *node)),
    {
        match node.operator {
            OperatorType::LogicalXor => {
                self.add_code("((");
                self.visit_expr(&node.left);
                self.add_code(") && !(");
                self.visit_expr(&node.right);
                self.add_code(")) || (!(");
                self.visit_expr(&node.left);
                self.add_code(") && (");
                self.visit_expr(&node.right);
                self.add_code("))");
            },
            _ => {
                self.visit_expr(&node.left);
                self.visit_operator(&node.operator);
                self.visit_expr(&node.right);
            },
        }
    }
}

impl<'a> AstVisitor for JavaScriptVisitor<'a> {
    fn visit_system_node(&mut self, node: &SystemNode)
        ensures
            final(self).evolved(old(self), system(old(self).gen(), old(self).setup(), *node)),
    {
        self.generate_system(node);
    }

    fn visit_interface_block_node(&mut self, node: &InterfaceBlockNode)
        ensures
            final(self).evolved(old(self), interface_block(old(self).gen(), *node)),
    {
        self.generate_interface_block(node);
    }

    fn visit_interface_method_node(&mut self, node: &InterfaceMethodNode)
        ensures
            final(self).evolved(old(self), interface_method(old(self).gen(), *node)),
    {
        self.generate_interface_method(node);
    }

    fn visit_machine_block_node(&mut self, node: &MachineBlockNode)
        ensures
            final(self).evolved(
                old(self),
                machine_block(old(self).gen(), old(self).setup(), *node),
            ),
    {
        self.generate_machine_block(node);
    }

    fn visit_state_node(&mut self, node: &StateNode)
        ensures
            final(self).evolved(old(self), state(old(self).gen(), old(self).setup(), *node)),
    {
        self.visit_state(node);
    }

    fn visit_event_handler_node(&mut self, node: &EventHandlerNode)
        ensures
            final(self).evolved(old(self), handler(old(self).gen(), old(self).setup(), *node)),
    {
        self.visit_handler(node);
    }

    fn visit_event_handler_terminator_node(&mut self, node: &TerminatorExpr)
        ensures
            final(self).evolved(old(self), handler_end(old(self).gen(), *node)),
    {
        self.generate_handler_end(node);
    }

    fn visit_call_statement_node(&mut self, node: &CallStmtNode)
        ensures
            final(self).evolved(old(self), call_statement(old(self).gen(), *node)),
    {
        self.newline();
        self.visit_call(&node.call_expr_node);
        self.add_code(";");
    }

    fn visit_frame_messages_enum(&mut self, node: &InterfaceBlockNode)
        ensures
            final(self).evolved(
                old(self),
                old(self).gen().fail("The enumeration of messages is written for Rust only."@),
            ),
    {
        self.fail("The enumeration of messages is written for Rust only.");
    }

    fn visit_interface_parameters(&mut self, node: &InterfaceBlockNode)
        ensures
            final(self).evolved(
                old(self),
                old(self).gen().fail(
                    "The parameters of the interface are not written for this target."@,
                ),
            ),
    {
        self.fail("The parameters of the interface are not written for this target.");
    }

    fn visit_interface_method_call_expression_node(&mut self, node: &InterfaceMethodCallExprNode)
        ensures
            final(self).evolved(old(self), interface_call(old(self).gen(), *node)),
    {
        self.visit_interface_call(node);
    }

    fn visit_interface_method_call_expression_node_to_string(
        &mut self,
        node: &InterfaceMethodCallExprNode,
        output: &mut std::string::String,
    )
        ensures
            final(output)@ == interface_call(old(self).gen().redirected(old(output)@), *node).code,
            final(self).evolved(
                old(self),
                interface_call(old(self).gen().redirected(old(output)@), *node).redirected(
                    old(self).gen().code,
                ),
            ),
    {
        std::mem::swap(&mut self.code, output);
        self.visit_interface_method_call_expression_node(node);
        std::mem::swap(&mut self.code, output);
    }

    fn visit_call_expression_node(&mut self, node: &CallExprNode)
        ensures
            final(self).evolved(old(self), call(old(self).gen(), *node)),
    {
        self.visit_call(node);
    }

    fn visit_call_expression_node_to_string(
        &mut self,
        node: &CallExprNode,
        output: &mut std::string::String,
    )
        ensures
            final(output)@ == call(old(self).gen().redirected(old(output)@), *node).code,
            final(self).evolved(
                old(self),
                call(old(self).gen().redirected(old(output)@), *node).redirected(
                    old(self).gen().code,
                ),
            ),
    {
        std::mem::swap(&mut self.code, output);
        self.visit_call_expression_node(node);
        std::mem::swap(&mut self.code, output);
    }

    fn visit_call_expr_list_node(&mut self, node: &CallExprListNode)
        ensures
            final(self).evolved(old(self), args(old(self).gen(), node.exprs_t@)),
    {
        self.visit_args(&node.exprs_t);
    }

    fn visit_call_expr_list_node_to_string(
        &mut self,
        node: &CallExprListNode,
        output: &mut std::string::String,
    )
        ensures
            final(output)@ == args(old(self).gen().redirected(old(output)@), node.exprs_t@).code,
            final(self).evolved(
                old(self),
                args(old(self).gen().redirected(old(output)@), node.exprs_t@).redirected(
                    old(self).gen().code,
                ),
            ),
    {
        std::mem::swap(&mut self.code, output);
        self.visit_call_expr_list_node(node);
        std::mem::swap(&mut self.code, output);
    }

    fn visit_call_chain_literal_expr_node(&mut self, node: &CallChainLiteralExprNode)
        ensures
            final(self).evolved(
                old(self),
                chain(old(self).gen(), node.call_chain@, node.call_chain@.len()),
            ),
    {
        self.visit_chain(&node.call_chain);
    }

    fn visit_call_chain_literal_expr_node_to_string(
        &mut self,
        node: &CallChainLiteralExprNode,
        output: &mut std::string::String,
    )
        ensures
            final(output)@ == chain(
                old(self).gen().redirected(old(output)@),
                node.call_chain@,
                node.call_chain@.len(),
            ).code,
            final(self).evolved(
                old(self),
                chain(
                    old(self).gen().redirected(old(output)@),
                    node.call_chain@,
                    node.call_chain@.len(),
                ).redirected(old(self).gen().code),
            ),
    {
        std::mem::swap(&mut self.code, output);
        self.visit_call_chain_literal_expr_node(node);
        std::mem::swap(&mut self.code, output);
    }

    fn visit_call_chain_literal_statement_node(&mut self, node: &CallChainLiteralStmtNode)
        ensures
            final(self).evolved(old(self), chain_statement(old(self).gen(), *node)),
    {
        self.newline();
        self.visit_chain(&node.call_chain_literal_expr_node.call_chain);
        self.add_code(";");
    }

    fn visit_transition_statement_node(&mut self, node: &TransitionStatementNode)
        ensures
            final(self).evolved(
                old(self),
                transition_statement(old(self).gen(), old(self).setup(), *node),
            ),
    {
        match &node.target_state_context_t {
            StateContextType::StateRef { state_context_node } => {
                self.generate_state_ref_transition(node, state_context_node)
            },
            StateContextType::StateStackPop => self.generate_state_stack_pop_transition(node),
        }
    }

    fn visit_state_ref_node(&mut self, node: &StateRefNode)
        ensures
            final(self).evolved(old(self), old(self).gen().add(node.name@)),
    {
        self.add_code(node.name.as_str());
    }

    fn visit_parameter_node(&mut self, node: &ParameterNode)
        ensures
            final(self).evolved(old(self), old(self).gen()),
    {
    }

    fn visit_dispatch_node(&mut self, node: &DispatchNode)
        ensures
            final(self).evolved(old(self), dispatch(old(self).gen(), old(self).setup(), *node)),
    {
        self.newline();
        self.format_target_state_name(node.target_state_ref.name.as_str());
        self.add_code("(e);");
        self.generate_comment(node.line);
        self.newline();
    }

    fn visit_test_statement_node(&mut self, node: &TestStatementNode)
        ensures
            final(self).evolved(
                old(self),
                test_statement(old(self).gen(), old(self).setup(), *node),
            ),
    {
        match &node.test_t {
            TestType::BoolTest { bool_test_node } => self.visit_bool_test(bool_test_node),
            TestType::StringMatchTest { string_match_test_node } => {
                self.visit_string_test(string_match_test_node)
            },
            TestType::NumberMatchTest { number_match_test_node } => {
                self.visit_number_test(number_match_test_node)
            },
        }
    }

    fn visit_bool_test_node(&mut self, node: &BoolTestNode)
        ensures
            final(self).evolved(old(self), bool_test(old(self).gen(), old(self).setup(), *node)),
    {
        self.visit_bool_test(node);
    }

    fn visit_bool_test_conditional_branch_node(&mut self, node: &BoolTestConditionalBranchNode)
        ensures
            final(self).evolved(
                old(self),
                branch_body(
                    old(self).gen(),
                    old(self).setup(),
                    node.statements@,
                    node.branch_terminator_expr_opt,
                ),
            ),
    {
        self.visit_decl_stmts(&node.statements);
        self.generate_branch_end(&node.branch_terminator_expr_opt);
    }

    fn visit_bool_test_else_branch_node(&mut self, node: &BoolTestElseBranchNode)
        ensures
            final(self).evolved(
                old(self),
                else_block(
                    old(self).gen(),
                    old(self).setup(),
                    node.statements@,
                    node.branch_terminator_expr_opt,
                ),
            ),
    {
        self.generate_else_block(&node.statements, &node.branch_terminator_expr_opt);
    }

    fn visit_string_match_test_node(&mut self, node: &StringMatchTestNode)
        ensures
            final(self).evolved(old(self), string_test(old(self).gen(), old(self).setup(), *node)),
    {
        self.visit_string_test(node);
    }

    fn visit_string_match_test_match_branch_node(&mut self, node: &StringMatchTestMatchBranchNode)
        ensures
            final(self).evolved(
                old(self),
                branch_body(
                    old(self).gen(),
                    old(self).setup(),
                    node.statements@,
                    node.branch_terminator_expr_opt,
                ),
            ),
    {
        self.visit_decl_stmts(&node.statements);
        self.generate_branch_end(&node.branch_terminator_expr_opt);
    }

    fn visit_string_match_test_else_branch_node(&mut self, node: &StringMatchTestElseBranchNode)
        ensures
            final(self).evolved(
                old(self),
                else_block(
                    old(self).gen(),
                    old(self).setup(),
                    node.statements@,
                    node.branch_terminator_expr_opt,
                ),
            ),
    {
        self.generate_else_block(&node.statements, &node.branch_terminator_expr_opt);
    }

    fn visit_string_match_test_pattern_node(&mut self, node: &StringMatchTestPatternNode)
        ensures
            final(self).evolved(
                old(self),
                old(self).gen().fail("A string pattern is written with its branch."@),
            ),
    {
        self.fail("A string pattern is written with its branch.");
    }

    fn visit_number_match_test_node(&mut self, node: &NumberMatchTestNode)
        ensures
            final(self).evolved(old(self), number_test(old(self).gen(), old(self).setup(), *node)),
    {
        self.visit_number_test(node);
    }

    fn visit_number_match_test_match_branch_node(&mut self, node: &NumberMatchTestMatchBranchNode)
        ensures
            final(self).evolved(
                old(self),
                branch_body(
                    old(self).gen(),
                    old(self).setup(),
                    node.statements@,
                    node.branch_terminator_expr_opt,
                ),
            ),
    {
        self.visit_decl_stmts(&node.statements);
        self.generate_branch_end(&node.branch_terminator_expr_opt);
    }

    fn visit_number_match_test_else_branch_node(&mut self, node: &NumberMatchTestElseBranchNode)
        ensures
            final(self).evolved(
                old(self),
                else_block(
                    old(self).gen(),
                    old(self).setup(),
                    node.statements@,
                    node.branch_terminator_expr_opt,
                ),
            ),
    {
        self.generate_else_block(&node.statements, &node.branch_terminator_expr_opt);
    }

    fn visit_number_match_test_pattern_node(&mut self, node: &NumberMatchTestPatternNode)
        ensures
            final(self).evolved(old(self), old(self).gen().add(node.match_pattern_number@)),
    {
        self.add_code(node.match_pattern_number.as_str());
    }

    fn visit_expression_list_node(&mut self, node: &ExprListNode)
        ensures
            final(self).evolved(old(self), args(old(self).gen(), node.exprs_t@)),
    {
        self.visit_args(&node.exprs_t);
    }

    fn visit_expression_list_node_to_string(
        &mut self,
        node: &ExprListNode,
        output: &mut std::string::String,
    )
        ensures
            final(output)@ == args(old(self).gen().redirected(old(output)@), node.exprs_t@).code,
            final(self).evolved(
                old(self),
                args(old(self).gen().redirected(old(output)@), node.exprs_t@).redirected(
                    old(self).gen().code,
                ),
            ),
    {
        std::mem::swap(&mut self.code, output);
        self.visit_expression_list_node(node);
        std::mem::swap(&mut self.code, output);
    }

    fn visit_literal_expression_node(&mut self, node: &LiteralExprNode)
        ensures
            final(self).evolved(old(self), literal(old(self).gen(), *node)),
    {
        self.visit_literal(node);
    }

    fn visit_literal_expression_node_to_string(
        &mut self,
        node: &LiteralExprNode,
        output: &mut std::string::String,
    )
        ensures
            final(output)@ == literal(old(self).gen().redirected(old(output)@), *node).code,
            final(self).evolved(
                old(self),
                literal(old(self).gen().redirected(old(output)@), *node).redirected(
                    old(self).gen().code,
                ),
            ),
    {
        std::mem::swap(&mut self.code, output);
        self.visit_literal_expression_node(node);
        std::mem::swap(&mut self.code, output);
    }

    fn visit_identifier_node(&mut self, node: &IdentifierNode)
        ensures
            final(self).evolved(old(self), old(self).gen().add(node.name.lexeme@)),
    {
        self.add_code(node.name.lexeme.as_str());
    }

    fn visit_identifier_node_to_string(
        &mut self,
        node: &IdentifierNode,
        output: &mut std::string::String,
    )
        ensures
            final(output)@ == old(self).gen().redirected(old(output)@).add(node.name.lexeme@).code,
            final(self).evolved(
                old(self),
                old(self).gen().redirected(old(output)@).add(node.name.lexeme@).redirected(
                    old(self).gen().code,
                ),
            ),
    {
        std::mem::swap(&mut self.code, output);
        self.visit_identifier_node(node);
        std::mem::swap(&mut self.code, output);
    }

    fn visit_state_stack_operation_node(&mut self, node: &StateStackOperationNode)
        ensures
            final(self).evolved(old(self), old(self).gen()),
    {
    }

    fn visit_state_stack_operation_node_to_string(
        &mut self,
        node: &StateStackOperationNode,
        output: &mut std::string::String,
    )
        ensures
            final(output)@ == old(self).gen().redirected(old(output)@).code,
            final(self).evolved(
                old(self),
                old(self).gen().redirected(old(output)@).redirected(old(self).gen().code),
            ),
    {
        std::mem::swap(&mut self.code, output);
        self.visit_state_stack_operation_node(node);
        std::mem::swap(&mut self.code, output);
    }

    fn visit_state_stack_operation_statement_node(
        &mut self,
        node: &StateStackOperationStatementNode,
    )
        ensures
            final(self).evolved(
                old(self),
                stack_op(
                    old(self).gen(),
                    old(self).setup(),
                    node.state_stack_operation_node.operation_t,
                ),
            ),
    {
        self.generate_stack_op(node.state_stack_operation_node.operation_t);
    }

    fn visit_state_context_node(&mut self, node: &StateContextNode)
        ensures
            final(self).evolved(old(self), old(self).gen()),
    {
    }

    fn visit_change_state_statement_node(&mut self, node: &ChangeStateStatementNode)
        ensures
            final(self).evolved(old(self), change_state(old(self).gen(), *node)),
    {
        match &node.state_context_t {
            StateContextType::StateRef { state_context_node } => {
                self.newline();
                self.add_code("_changeState_(");
                self.format_target_state_name(state_context_node.state_ref_node.name.as_str());
                self.add_code(");");
            },
            StateContextType::StateStackPop => {
                self.fail("Change of state to the state stack is not supported.")
            },
        }
    }

    fn visit_frame_event_part(&mut self, node: &FrameEventPart)
        ensures
            final(self).evolved(old(self), event_part(old(self).gen(), *node)),
    {
        self.visit_event_part(node);
    }

    fn visit_frame_event_part_to_string(
        &mut self,
        node: &FrameEventPart,
        output: &mut std::string::String,
    )
        ensures
            final(output)@ == event_part(old(self).gen().redirected(old(output)@), *node).code,
            final(self).evolved(
                old(self),
                event_part(old(self).gen().redirected(old(output)@), *node).redirected(
                    old(self).gen().code,
                ),
            ),
    {
        std::mem::swap(&mut self.code, output);
        self.visit_frame_event_part(node);
        std::mem::swap(&mut self.code, output);
    }

    fn visit_actions_block_node(&mut self, node: &ActionsBlockNode)
        ensures
            final(self).evolved(old(self), actions_block(old(self).gen(), *node)),
    {
        self.generate_actions_block(node);
    }

    fn visit_action_node_rust_trait(&mut self, node: &ActionsBlockNode)
        ensures
            final(self).evolved(
                old(self),
                old(self).gen().fail("The trait of the actions is written for Rust only."@),
            ),
    {
        self.fail("The trait of the actions is written for Rust only.");
    }

    fn visit_actions_node_rust_impl(&mut self, node: &ActionsBlockNode)
        ensures
            final(self).evolved(
                old(self),
                old(self).gen().fail(
                    "The implementation of the actions is written for Rust only."@,
                ),
            ),
    {
        self.fail("The implementation of the actions is written for Rust only.");
    }

    fn visit_action_decl_node(&mut self, node: &ActionNode)
        ensures
            final(self).evolved(old(self), action_decl(old(self).gen(), *node)),
    {
        self.generate_action_decl(node);
    }

    fn visit_action_impl_node(&mut self, node: &ActionNode)
        ensures
            final(self).evolved(
                old(self),
                old(self).gen().fail(
                    "The implementation of an action is not written for this target."@,
                ),
            ),
    {
        self.fail("The implementation of an action is not written for this target.");
    }

    fn visit_action_call_expression_node(&mut self, node: &ActionCallExprNode)
        ensures
            final(self).evolved(old(self), action_call(old(self).gen(), *node)),
    {
        self.visit_action_call(node);
    }

    fn visit_action_call_expression_node_to_string(
        &mut self,
        node: &ActionCallExprNode,
        output: &mut std::string::String,
    )
        ensures
            final(output)@ == action_call(old(self).gen().redirected(old(output)@), *node).code,
            final(self).evolved(
                old(self),
                action_call(old(self).gen().redirected(old(output)@), *node).redirected(
                    old(self).gen().code,
                ),
            ),
    {
        std::mem::swap(&mut self.code, output);
        self.visit_action_call_expression_node(node);
        std::mem::swap(&mut self.code, output);
    }

    fn visit_action_call_statement_node(&mut self, node: &ActionCallStmtNode)
        ensures
            final(self).evolved(old(self), action_call_statement(old(self).gen(), *node)),
    {
        self.newline();
        self.visit_action_call(&node.action_call_expr_node);
        self.add_code(";");
    }

    fn visit_domain_block_node(&mut self, node: &DomainBlockNode)
        ensures
            final(self).evolved(old(self), domain_block(old(self).gen(), *node)),
    {
        self.generate_domain_block(node);
    }

    fn visit_domain_variable_decl_node(&mut self, node: &VariableDeclNode)
        ensures
            final(self).evolved(old(self), var_decl(old(self).gen(), *node)),
    {
        self.generate_var_decl(node);
    }

    fn visit_variable_decl_node(&mut self, node: &VariableDeclNode)
        ensures
            final(self).evolved(old(self), var_decl(old(self).gen(), *node)),
    {
        self.generate_var_decl(node);
    }

    fn visit_variable_expr_node(&mut self, node: &VariableNode)
        ensures
            final(self).evolved(old(self), variable(old(self).gen(), *node, false)),
    {
        self.format_variable_expr(node, false);
    }

    fn visit_variable_expr_node_to_string(
        &mut self,
        node: &VariableNode,
        output: &mut std::string::String,
    )
        ensures
            final(output)@ == variable(old(self).gen().redirected(old(output)@), *node, false).code,
            final(self).evolved(
                old(self),
                variable(old(self).gen().redirected(old(output)@), *node, false).redirected(
                    old(self).gen().code,
                ),
            ),
    {
        std::mem::swap(&mut self.code, output);
        self.visit_variable_expr_node(node);
        std::mem::swap(&mut self.code, output);
    }

    fn visit_variable_stmt_node(&mut self, node: &VariableStmtNode)
        ensures
            final(self).evolved(
                old(self),
                variable_statement(old(self).gen(), old(self).setup(), *node),
            ),
    {
        self.generate_comment(node.var_node.id_node.line);
        self.newline();
        self.add_code(node.var_node.id_node.name.lexeme.as_str());
        self.add_code(";");
    }

    fn visit_assignment_expr_node(&mut self, node: &AssignmentExprNode)
        ensures
            final(self).evolved(old(self), assignment(old(self).gen(), *node)),
    {
        self.visit_expr(&node.l_value_box);
        self.add_code(" = ");
        self.visit_expr(&node.r_value_box);
    }

    fn visit_assignment_expr_node_to_string(
        &mut self,
        node: &AssignmentExprNode,
        output: &mut std::string::String,
    )
        ensures
            final(output)@ == assignment(old(self).gen().redirected(old(output)@), *node).code,
            final(self).evolved(
                old(self),
                assignment(old(self).gen().redirected(old(output)@), *node).redirected(
                    old(self).gen().code,
                ),
            ),
    {
        std::mem::swap(&mut self.code, output);
        self.visit_assignment_expr_node(node);
        std::mem::swap(&mut self.code, output);
    }

    fn visit_assignment_statement_node(&mut self, node: &AssignmentStmtNode)
        ensures
            final(self).evolved(
                old(self),
                assignment_statement(old(self).gen(), old(self).setup(), *node),
            ),
    {
        self.generate_comment(node.assignment_expr_node.line);
        self.newline();
        self.visit_expr(&node.assignment_expr_node.l_value_box);
        self.add_code(" = ");
        self.visit_expr(&node.assignment_expr_node.r_value_box);
        self.add_code(";");
    }

    fn visit_unary_expr_node(&mut self, node: &UnaryExprNode)
        ensures
            final(self).evolved(old(self), unary(old(self).gen(), *node)),
    {
        self.visit_operator(&node.operator);
        self.visit_expr(&node.right);
    }

    fn visit_unary_expr_node_to_string(
        &mut self,
        node: &UnaryExprNode,
        output: &mut std::string::String,
    )
        ensures
            final(output)@ == unary(old(self).gen().redirected(old(output)@), *node).code,
            final(self).evolved(
                old(self),
                unary(old(self).gen().redirected(old(output)@), *node).redirected(
                    old(self).gen().code,
                ),
            ),
    {
        std::mem::swap(&mut self.code, output);
        self.visit_unary_expr_node(node);
        std::mem::swap(&mut self.code, output);
    }

    fn visit_binary_expr_node(&mut self, node: &BinaryExprNode)
        ensures
            final(self).evolved(old(self), binary(old(self).gen(), *node)),
    {
        self.visit_binary(node);
    }

    fn visit_binary_expr_node_to_string(
        &mut self,
        node: &BinaryExprNode,
        output: &mut std::string::String,
    )
        ensures
            final(output)@ == binary(old(self).gen().redirected(old(output)@), *node).code,
            final(self).evolved(
                old(self),
                binary(old(self).gen().redirected(old(output)@), *node).redirected(
                    old(self).gen().code,
                ),
            ),
    {
        std::mem::swap(&mut self.code, output);
        self.visit_binary_expr_node(node);
        std::mem::swap(&mut self.code, output);
    }

    fn visit_operator_type(&mut self, node: &OperatorType)
        ensures
            final(self).evolved(old(self), old(self).gen().add(operator_text(*node))),
    {
        self.visit_operator(node);
    }

    fn visit_operator_type_to_string(
        &mut self,
        node: &OperatorType,
        output: &mut std::string::String,
    )
        ensures
            final(output)@ == old(self).gen().redirected(old(output)@).add(
                operator_text(*node),
            ).code,
            final(self).evolved(
                old(self),
                old(self).gen().redirected(old(output)@).add(operator_text(*node)).redirected(
                    old(self).gen().code,
                ),
            ),
    {
        std::mem::swap(&mut self.code, output);
        self.visit_operator_type(node);
        std::mem::swap(&mut self.code, output);
    }
}

/// The names of the parameters.
fn param_names(params: &Vec<ParameterSymbol>) -> (names: Vec<std::string::String>)
    ensures
        names@.len() == params@.len(),
        forall|i: int| 0 <= i < names@.len() ==> names@[i]@ == params@[i].name@,
{
    let mut names: Vec<std::string::String> = Vec::new();
    let mut i: usize = 0;
    while i < params.len()
        invariant
            i <= params@.len(),
            names@.len() == i,
            forall|j: int| 0 <= j < i ==> names@[j]@ == params@[j].name@,
        decreases params@.len() - i,
    {
        names.push(params[i].name.clone());
        i += 1;
    }
    names
}

} // verus!
