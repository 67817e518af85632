use framec::ast::{
    ActionCallExprNode, ActionCallStmtNode, ActionNode, ActionsBlockNode, AssignmentExprNode,
    AssignmentStmtNode, BinaryExprNode, BoolTestConditionalBranchNode, BoolTestElseBranchNode,
    BoolTestNode, CallChainLiteralExprNode, CallChainLiteralNodeType, CallExprListNode,
    CallExprNode, ChangeStateStatementNode, DeclOrStmtType, DispatchNode, DomainBlockNode,
    EventHandlerNode, ExprListNode, ExprStmtType, ExprType, FrameEventPart, IdentifierDeclScope,
    IdentifierNode, InterfaceBlockNode, InterfaceMethodNode, LiteralExprNode, MachineBlockNode,
    MessageNode, MessageType, NumberMatchTestMatchBranchNode, NumberMatchTestNode,
    NumberMatchTestPatternNode, OperatorType, ParameterNode, StateContextNode, StateContextType,
    StateNode, StateRefNode, StateStackOperationNode, StateStackOperationStatementNode,
    StateStackOperationType, StatementType, StringMatchTestMatchBranchNode, StringMatchTestNode,
    StringMatchTestPatternNode, SystemNode, TerminatorExpr, TerminatorType, TestStatementNode,
    TestType, TransitionStatementNode, TypeNode, UnaryExprNode, VariableDeclNode, VariableNode,
};
use framec::javascript_visitor::JavaScriptVisitor;
use framec::resolver::resolve;
use framec::symbol_table::Arcanum;
use framec::token::{Token, TokenLiteral, TokenType};
use framec::visitors::AstVisitor;

fn tok(kind: TokenType, lexeme: &str, line: usize) -> Token {
    Token::new(kind, lexeme.to_string(), TokenLiteral::Absent, line, 0, lexeme.len())
}

fn ident(name: &str, line: usize) -> IdentifierNode {
    IdentifierNode {
        name: tok(TokenType::Identifier, name, line),
        scope: IdentifierDeclScope::Unresolved,
        is_reference: false,
        line,
    }
}

fn var_node(name: &str, scope: IdentifierDeclScope, line: usize) -> VariableNode {
    VariableNode { id_node: ident(name, line), scope }
}

fn var(name: &str, scope: IdentifierDeclScope, line: usize) -> ExprType {
    ExprType::VariableExprT { var_node: var_node(name, scope, line) }
}

fn lit(kind: TokenType, value: &str) -> ExprType {
    ExprType::LiteralExprT {
        literal_expr_node: LiteralExprNode { token_t: kind, value: value.to_string() },
    }
}

fn num(value: &str) -> ExprType {
    lit(TokenType::Number, value)
}

fn binary(left: ExprType, operator: OperatorType, right: ExprType) -> BinaryExprNode {
    BinaryExprNode { left: Box::new(left), operator, right: Box::new(right) }
}

fn action_call(name: &str, args: Vec<ExprType>, line: usize) -> ActionCallExprNode {
    ActionCallExprNode { identifier: ident(name, line), call_expr_list: CallExprListNode { exprs_t: args } }
}

fn action_stmt(name: &str, args: Vec<ExprType>, line: usize) -> DeclOrStmtType {
    DeclOrStmtType::StmtT {
        stmt_t: StatementType::ExpressionStmt {
            expr_stmt_t: ExprStmtType::ActionCallStmtT {
                action_call_stmt_node: ActionCallStmtNode {
                    action_call_expr_node: action_call(name, args, line),
                },
            },
        },
    }
}

fn assign_stmt(left: ExprType, right: ExprType, line: usize) -> DeclOrStmtType {
    DeclOrStmtType::StmtT {
        stmt_t: StatementType::ExpressionStmt {
            expr_stmt_t: ExprStmtType::AssignmentStmtT {
                assignment_stmt_node: AssignmentStmtNode {
                    assignment_expr_node: AssignmentExprNode {
                        l_value_box: Box::new(left),
                        r_value_box: Box::new(right),
                        line,
                    },
                },
            },
        },
    }
}

fn local_decl(name: &str, init: ExprType) -> DeclOrStmtType {
    DeclOrStmtType::VarDeclT {
        var_decl_t: var_decl(name, init, IdentifierDeclScope::EventHandlerVar),
    }
}

fn var_decl(name: &str, init: ExprType, scope: IdentifierDeclScope) -> VariableDeclNode {
    VariableDeclNode {
        name: name.to_string(),
        type_opt: None,
        is_constant: false,
        initializer_expr_t_opt: Some(init),
        identifier_decl_scope: scope,
    }
}

fn args(exprs: Vec<ExprType>) -> Option<ExprListNode> {
    Some(ExprListNode { exprs_t: exprs })
}

fn transition_node(
    target: &str,
    exit_args: Option<ExprListNode>,
    enter_args: Option<ExprListNode>,
    state_args: Option<ExprListNode>,
    label: Option<&str>,
    line: usize,
) -> TransitionStatementNode {
    TransitionStatementNode {
        target_state_context_t: StateContextType::StateRef {
            state_context_node: StateContextNode {
                state_ref_node: StateRefNode { name: target.to_string() },
                state_ref_args_opt: state_args,
                enter_args_opt: enter_args,
            },
        },
        exit_args_opt: exit_args,
        label_opt: label.map(|l| l.to_string()),
        line,
    }
}

fn transition(target: &str, line: usize) -> DeclOrStmtType {
    DeclOrStmtType::StmtT {
        stmt_t: StatementType::TransitionStmt {
            transition_statement: transition_node(target, None, None, None, None, line),
        },
    }
}

fn change_state(target: &str, line: usize) -> DeclOrStmtType {
    DeclOrStmtType::StmtT {
        stmt_t: StatementType::ChangeStateStmt {
            change_state_stmt: ChangeStateStatementNode {
                state_context_t: StateContextType::StateRef {
                    state_context_node: StateContextNode {
                        state_ref_node: StateRefNode { name: target.to_string() },
                        state_ref_args_opt: None,
                        enter_args_opt: None,
                    },
                },
                label_opt: None,
                line,
            },
        },
    }
}

fn params(names: &[&str]) -> Option<Vec<ParameterNode>> {
    Some(
        names
            .iter()
            .map(|n| ParameterNode {
                param_name: n.to_string(),
                param_type_opt: None,
                scope: IdentifierDeclScope::Unresolved,
            })
            .collect(),
    )
}

fn ret(value: Option<ExprType>, line: usize) -> TerminatorExpr {
    TerminatorExpr { terminator_type: TerminatorType::Return, return_expr_t_opt: value, line }
}

fn handler(
    state: &str,
    msg: &str,
    params_opt: Option<Vec<ParameterNode>>,
    statements: Vec<DeclOrStmtType>,
    has_transition: bool,
    line: usize,
) -> EventHandlerNode {
    EventHandlerNode {
        state_name: state.to_string(),
        msg_t: MessageType::CustomMessage {
            message_node: MessageNode { name: msg.to_string(), line },
        },
        params_opt,
        statements,
        terminator_node: ret(None, line),
        event_handler_has_transition: has_transition,
        line,
    }
}

fn state(
    name: &str,
    params_opt: Option<Vec<ParameterNode>>,
    vars_opt: Option<Vec<VariableDeclNode>>,
    evt_handlers: Vec<EventHandlerNode>,
    line: usize,
) -> StateNode {
    StateNode {
        name: name.to_string(),
        params_opt,
        vars_opt,
        calls_opt: None,
        evt_handlers,
        dispatch_opt: None,
        line,
    }
}

fn method(name: &str, params_opt: Option<Vec<ParameterNode>>, returns: bool) -> InterfaceMethodNode {
    InterfaceMethodNode {
        name: name.to_string(),
        params: params_opt,
        return_type_opt: if returns {
            Some(TypeNode { is_superstring: false, is_reference: false, type_str: "int".to_string() })
        } else {
            None
        },
        alias: None,
    }
}

fn action(name: &str, params_opt: Option<Vec<ParameterNode>>) -> ActionNode {
    ActionNode { name: name.to_string(), params: params_opt, type_opt: None, code_opt: None }
}

fn system(
    name: &str,
    methods: Vec<InterfaceMethodNode>,
    states: Vec<StateNode>,
    actions: Vec<ActionNode>,
    domain: Vec<VariableDeclNode>,
) -> SystemNode {
    SystemNode {
        name: name.to_string(),
        interface_block_node_opt: if methods.is_empty() {
            None
        } else {
            Some(InterfaceBlockNode { interface_methods: methods })
        },
        machine_block_node_opt: if states.is_empty() {
            None
        } else {
            Some(MachineBlockNode { states })
        },
        actions_block_node_opt: if actions.is_empty() {
            None
        } else {
            Some(ActionsBlockNode { actions })
        },
        domain_block_node_opt: if domain.is_empty() {
            None
        } else {
            Some(DomainBlockNode { member_variables: domain })
        },
        line: 100,
    }
}

fn empty_arcanum<'a>() -> Arcanum<'a> {
    Arcanum { states: vec![], events: vec![], serializable: false }
}

fn plain_visitor<'a>(arcanum: Arcanum<'a>, comments: Vec<Token>) -> JavaScriptVisitor<'a> {
    JavaScriptVisitor::new(arcanum, false, false, false, false, true, "framec v0", comments)
}

fn full_visitor<'a>(arcanum: Arcanum<'a>, comments: Vec<Token>) -> JavaScriptVisitor<'a> {
    JavaScriptVisitor::new(arcanum, true, true, true, true, true, "framec v0", comments)
}

fn expr_text(e: &ExprType) -> String {
    let mut v = plain_visitor(empty_arcanum(), vec![]);
    let mut out = String::from("> ");
    match e {
        ExprType::BinaryExprT { binary_expr_node } => {
            v.visit_binary_expr_node_to_string(binary_expr_node, &mut out)
        }
        ExprType::VariableExprT { var_node } => v.visit_variable_expr_node_to_string(var_node, &mut out),
        ExprType::LiteralExprT { literal_expr_node } => {
            v.visit_literal_expression_node_to_string(literal_expr_node, &mut out)
        }
        ExprType::UnaryExprT { unary_expr_node } => {
            v.visit_unary_expr_node_to_string(unary_expr_node, &mut out)
        }
        ExprType::ActionCallExprT { action_call_expr_node } => {
            v.visit_action_call_expression_node_to_string(action_call_expr_node, &mut out)
        }
        ExprType::CallChainLiteralExprT { call_chain_expr_node } => {
            v.visit_call_chain_literal_expr_node_to_string(call_chain_expr_node, &mut out)
        }
        _ => panic!("no such helper"),
    }
    assert_eq!(v.code, "");
    assert_eq!(v.get_code(), "");
    out
}

fn sample() -> SystemNode {
    system(
        "Sample",
        vec![method("go", params(&["n"]), false), method("stop", None, true)],
        vec![
            state(
                "S0",
                None,
                None,
                vec![
                    handler(
                        "S0",
                        "go",
                        None,
                        vec![
                            action_stmt("log", vec![var("n", IdentifierDeclScope::Unresolved, 6)], 6),
                            DeclOrStmtType::StmtT {
                                stmt_t: StatementType::TransitionStmt {
                                    transition_statement: transition_node(
                                        "S1",
                                        args(vec![num("1")]),
                                        args(vec![var("a", IdentifierDeclScope::Unresolved, 7)]),
                                        args(vec![num("7")]),
                                        Some("start"),
                                        7,
                                    ),
                                },
                            },
                        ],
                        true,
                        5,
                    ),
                    handler("S0", "<", params(&["why"]), vec![], false, 8),
                ],
                4,
            ),
            state(
                "S1",
                params(&["p"]),
                Some(vec![var_decl("count", num("0"), IdentifierDeclScope::StateVar)]),
                vec![
                    handler("S1", ">", params(&["first"]), vec![], false, 11),
                    handler("S1", "stop", None, vec![change_state("S0", 13)], false, 12),
                ],
                10,
            ),
        ],
        vec![action("log", params(&["msg"]))],
        vec![
            var_decl("a", num("3"), IdentifierDeclScope::DomainBlock),
            var_decl("b", lit(TokenType::String, "x"), IdentifierDeclScope::DomainBlock),
        ],
    )
}

fn sample_code() -> String {
    let mut s = sample();
    let outcome = resolve(&mut s);
    assert_eq!(outcome.diagnostics, Vec::<String>::new());
    let arcanum = Arcanum::new(&s, true);
    let mut v = full_visitor(arcanum, vec![]);
    v.run(&s);
    assert_eq!(v.get_warnings().len(), 0);
    v.get_code()
}

#[test]
fn sample_system_is_rendered() {
    let expected = [
        "// framec v0",
        "// get include files at https://github.com/frame-lang/frame-ancillary-files",
        "",
        "let Sample = function () {",
        "    ",
        "    let that = {};",
        "    that.constructor = Sample;",
        "    ",
        "    //===================== Interface Block ===================//",
        "    ",
        "    that.go = function (n) {",
        "        let e = FrameEvent(\"go\",{\"n\":n});",
        "        _state_(e);",
        "    }",
        "    ",
        "    that.stop = function () {",
        "        let e = FrameEvent(\"stop\",null);",
        "        _state_(e);",
        "        return e._return;",
        "    }",
        "    ",
        "    //===================== Machine Block ===================//",
        "    ",
        "    let _sS0_ = function (e) {",
        "        if (e._message == \"go\") {",
        "            let stateContext = null;",
        "            that.log_do(e._parameters[\"n\"]);",
        "            // start",
        "            stateContext = StateContext(_sS1_);",
        "            let exitArgs = {};",
        "            exitArgs[\"why\"] = 1;",
        "            stateContext.addEnterArg(\"first\",that.a);",
        "            stateContext.addStateArg(\"p\",7);",
        "            stateContext.addStateVar(\"count\",0);",
        "            _transition_(_sS1_,exitArgs,stateContext);",
        "            return;",
        "        }",
        "        else if (e._message == \"<\") {",
        "            return;",
        "        }",
        "    }",
        "    ",
        "    let _sS1_ = function (e) {",
        "        if (e._message == \">\") {",
        "            return;",
        "        }",
        "        else if (e._message == \"stop\") {",
        "            _changeState_(_sS0_);",
        "            return;",
        "        }",
        "    }",
        "    ",
        "    //===================== Actions Block ===================//",
        "    ",
        "    that.log_do = function (msg) { throw new Error('Action not implemented.'); }",
        "    ",
        "    //===================== Domain Block ===================//",
        "    ",
        "    that.a = 3;",
        "    that.b = \"x\";",
        "    ",
        "    //=============== Machinery and Mechanisms ==============//",
        "    ",
        "    let _state_ = _sS0_;",
        "    let _stateContext_ = StateContext(_state_);",
        "    ",
        "    ",
        "    ",
        "    let _transition_ = function(newState,exitArgs, stateContext) {",
        "        let exitEvent = FrameEvent(\"<\",exitArgs);",
        "        _state_(exitEvent);",
        "        _state_ = newState;",
        "        _stateContext_ = stateContext;",
        "        let enterEvent = FrameEvent(\">\",_stateContext_.getEnterArgs());",
        "        _state_(enterEvent);",
        "    }",
        "    ",
        "    let _stateStack_ = [];",
        "    ",
        "    let _stateStack_push_ = function (stateData) {",
        "        _stateStack_.push(stateData);",
        "    }",
        "    ",
        "    let _stateStack_pop_ = function() {",
        "        return _stateStack_.pop();",
        "    }",
        "    ",
        "    let _changeState_ = function(newState) {",
        "        _state_ = newState;",
        "    }",
        "    ",
        "    that._serialize__do = function() {",
        "    ",
        "    \tlet stateName = null",
        "    \tif (_state_ == _sS0_) stateName = \"S0\"",
        "    \tif (_state_ == _sS1_) stateName = \"S1\"",
        "    ",
        "    \tvar bag = {",
        "    \t\tstate : stateName,",
        "    \t\tdomain : {}",
        "    \t};",
        "    ",
        "    \tbag.domain[\"a\"] = that.a;",
        "    \tbag.domain[\"b\"] = that.b;",
        "    ",
        "    \treturn JSON.stringify(bag);",
        "    }",
        "    ",
        "    ",
        "    that._deserialize__do = function(data) {",
        "    ",
        "    \tconst bag = JSON.parse(data);",
        "    ",
        "    \tswitch (bag.state) {",
        "    \t\tcase \"S0\": _state_ = _sS0_; break;",
        "    \t\tcase \"S1\": _state_ = _sS1_; break;",
        "    \t}",
        "    ",
        "    \tthat.a = bag.domain[\"a\"];",
        "    \tthat.b = bag.domain[\"b\"];",
        "    ",
        "    }",
        "    ",
        "    ",
        "    return that; ",
        "};",
        "",
        "/********************",
        "let SampleController = function () {",
        "\tlet that = Sample.call(this);",
        "\tthat.log_do = function (msg) {}",
        "\treturn that;",
        "};",
        "********************/",
        "",
    ];
    assert_eq!(sample_code(), expected.join("\n"));
}

#[test]
fn transition_machinery_exits_reassigns_and_enters_in_that_order() {
    let code = sample_code();
    let exit = code.find("_state_(exitEvent);").unwrap();
    let reassign = code.find("_state_ = newState;").unwrap();
    let context = code.find("_stateContext_ = stateContext;").unwrap();
    let enter = code.find("_state_(enterEvent);").unwrap();
    assert!(exit < reassign && reassign < context && context < enter);
    let change = code.find("let _changeState_ = function(newState) {\n        _state_ = newState;\n    }");
    assert!(change.is_some());
}

#[test]
fn machinery_follows_the_setup() {
    let s = sample();
    let arcanum = Arcanum::new(&s, false);
    let mut v = plain_visitor(arcanum, vec![]);
    v.run(&s);
    let code = v.get_code();
    assert!(code.contains("let _transition_ = function(newState) {\n        let exitEvent = FrameEvent(\"<\",null);\n        _state_(exitEvent);\n        _state_ = newState;\n        let enterEvent = FrameEvent(\">\",null);\n        _state_(enterEvent);\n    }"));
    assert!(!code.contains("_stateStack_"));
    assert!(!code.contains("_changeState_ = function"));
    assert!(!code.contains("_serialize__do"));
    assert!(!code.contains("let _stateContext_"));
    assert!(code.contains("_transition_(_sS1_);"));
}

#[test]
fn system_without_states_has_no_machinery() {
    let s = system("Bare", vec![], vec![], vec![], vec![var_decl("a", num("1"), IdentifierDeclScope::DomainBlock)]);
    let arcanum = Arcanum::new(&s, true);
    let mut v = full_visitor(arcanum, vec![]);
    v.run(&s);
    let code = v.get_code();
    assert!(!code.contains("Machinery"));
    assert!(code.contains("that.a = 1;"));
    assert!(code.ends_with("let BareController = function () {\n\tlet that = Bare.call(this);\n\treturn that;\n};\n********************/\n"));
}

#[test]
fn variables_render_by_their_scope() {
    let render = |scope| expr_text(&var("x", scope, 1));
    assert_eq!(render(IdentifierDeclScope::DomainBlock), "> that.x");
    assert_eq!(render(IdentifierDeclScope::StateParam), "> _stateContext_.getStateArg(\"x\")");
    assert_eq!(render(IdentifierDeclScope::StateVar), "> _stateContext_.getStateVar(\"x\")");
    assert_eq!(render(IdentifierDeclScope::EventHandlerParam), "> e._parameters[\"x\"]");
    assert_eq!(render(IdentifierDeclScope::EventHandlerVar), "> x");
    assert_eq!(render(IdentifierDeclScope::Unresolved), "> x");
}

#[test]
fn variable_in_a_chain_is_wrapped() {
    let chain = ExprType::CallChainLiteralExprT {
        call_chain_expr_node: CallChainLiteralExprNode {
            call_chain: vec![
                CallChainLiteralNodeType::VariableNodeT {
                    var_node: var_node("v", IdentifierDeclScope::StateVar, 1),
                },
                CallChainLiteralNodeType::CallT {
                    call: CallExprNode {
                        identifier: ident("push", 1),
                        call_expr_list: CallExprListNode { exprs_t: vec![num("1"), num("2")] },
                    },
                },
                CallChainLiteralNodeType::IdentifierNodeT { id_node: ident("length", 1) },
            ],
        },
    };
    assert_eq!(expr_text(&chain), "> (_stateContext_.getStateVar(\"v\")).push(1,2).length");
}

#[test]
fn expressions_render_their_operators() {
    let sum = ExprType::BinaryExprT {
        binary_expr_node: binary(num("1"), OperatorType::Plus, num("2")),
    };
    assert_eq!(expr_text(&sum), "> 1 + 2");
    let xor = ExprType::BinaryExprT {
        binary_expr_node: binary(
            lit(TokenType::True, "true"),
            OperatorType::LogicalXor,
            var("b", IdentifierDeclScope::DomainBlock, 1),
        ),
    };
    assert_eq!(expr_text(&xor), "> ((true) && !(that.b)) || (!(true) && (that.b))");
    let not = ExprType::UnaryExprT {
        unary_expr_node: UnaryExprNode {
            operator: OperatorType::Not,
            right: Box::new(lit(TokenType::Nil, "nil")),
        },
    };
    assert_eq!(expr_text(&not), "> !null");
    assert_eq!(expr_text(&lit(TokenType::String, "hi")), "> \"hi\"");
    assert_eq!(expr_text(&lit(TokenType::SuperString, "a + b")), "> a + b");
    let act = ExprType::ActionCallExprT { action_call_expr_node: action_call("beep", vec![], 1) };
    assert_eq!(expr_text(&act), "> that.beep_do()");
}

#[test]
fn defect_of_the_tree_replaces_the_code() {
    let mut v = plain_visitor(empty_arcanum(), vec![]);
    v.visit_literal_expression_node(&LiteralExprNode {
        token_t: TokenType::Plus,
        value: "+".to_string(),
    });
    v.visit_variable_expr_node(&var_node("x", IdentifierDeclScope::ActionsBlock, 1));
    v.visit_identifier_node(&ident("kept", 1));
    assert_eq!(v.code, "kept");
    assert_eq!(v.get_code(), "Unsupported literal.Illegal scope.");
}

#[test]
fn enter_arguments_without_a_handler_are_dropped_with_a_warning() {
    let s = system("W", vec![], vec![state("S1", None, None, vec![], 1)], vec![], vec![]);
    let arcanum = Arcanum::new(&s, false);
    let mut v = plain_visitor(arcanum, vec![]);
    let t = transition_node("S1", None, args(vec![num("1")]), None, None, 3);
    v.visit_transition_statement_node(&t);
    assert_eq!(v.get_code(), "\n_transition_(_sS1_);");
    assert_eq!(
        v.get_warnings(),
        &vec!["State S1 does not have an enter event handler but is being passed parameters in a transition".to_string()]
    );
}

#[test]
fn exit_arguments_need_the_exit_handler() {
    let s = system("E", vec![], vec![state("S1", None, None, vec![], 1)], vec![], vec![]);
    let arcanum = Arcanum::new(&s, false);
    let mut v = plain_visitor(arcanum, vec![]);
    let t = transition_node("S1", args(vec![num("1")]), None, None, None, 3);
    v.visit_transition_statement_node(&t);
    assert_eq!(v.get_code(), "Exit arguments for a state without an exit event handler.");
}

#[test]
fn pop_transition_takes_its_context_from_the_stack() {
    let mut v = full_visitor(empty_arcanum(), vec![]);
    let t = TransitionStatementNode {
        target_state_context_t: StateContextType::StateStackPop,
        exit_args_opt: None,
        label_opt: None,
        line: 1,
    };
    v.visit_transition_statement_node(&t);
    v.visit_state_stack_operation_statement_node(&StateStackOperationStatementNode {
        state_stack_operation_node: StateStackOperationNode {
            operation_t: StateStackOperationType::Push,
        },
    });
    assert_eq!(
        v.get_code(),
        "\nlet stateContext = _stateStack_pop_();\n_transition_(stateContext.state,null,stateContext);\n_stateStack_push_(_stateContext_);"
    );
}

#[test]
fn string_test_compares_each_alternative() {
    let test = StringMatchTestNode {
        expr_t: var("s", IdentifierDeclScope::DomainBlock, 1),
        match_branch_nodes: vec![
            StringMatchTestMatchBranchNode {
                string_match_pattern_node: StringMatchTestPatternNode {
                    match_pattern_strings: vec!["a".to_string(), "b".to_string()],
                },
                statements: vec![action_stmt("one", vec![], 2)],
                branch_terminator_expr_opt: Some(ret(None, 2)),
            },
            StringMatchTestMatchBranchNode {
                string_match_pattern_node: StringMatchTestPatternNode {
                    match_pattern_strings: vec!["c".to_string()],
                },
                statements: vec![],
                branch_terminator_expr_opt: None,
            },
        ],
        else_branch_node_opt: None,
    };
    let mut v = plain_visitor(empty_arcanum(), vec![]);
    v.visit_string_match_test_node(&test);
    assert_eq!(
        v.get_code(),
        "\nif ((that.s == \"a\") || (that.s == \"b\")) {\n    that.one_do();\n    return;\n} else if ((that.s == \"c\")) {\n}"
    );
}

#[test]
fn number_test_ends_with_its_else_branch() {
    let test = NumberMatchTestNode {
        expr_t: var("n", IdentifierDeclScope::EventHandlerVar, 1),
        match_branch_nodes: vec![NumberMatchTestMatchBranchNode {
            number_match_pattern_nodes: vec![
                NumberMatchTestPatternNode { match_pattern_number: "1".to_string() },
                NumberMatchTestPatternNode { match_pattern_number: "2.5".to_string() },
            ],
            statements: vec![],
            branch_terminator_expr_opt: None,
        }],
        else_branch_node_opt: Some(framec::ast::NumberMatchTestElseBranchNode {
            statements: vec![action_stmt("other", vec![], 3)],
            branch_terminator_expr_opt: None,
        }),
    };
    let mut v = plain_visitor(empty_arcanum(), vec![]);
    v.visit_number_match_test_node(&test);
    assert_eq!(
        v.get_code(),
        "\nif ((n == 1) || (n == 2.5)) {\n} else {\n    that.other_do();\n}"
    );
}

#[test]
fn bool_test_chains_its_branches() {
    let test = BoolTestNode {
        conditional_branch_nodes: vec![
            BoolTestConditionalBranchNode {
                is_negated: false,
                expr_t: var("a", IdentifierDeclScope::DomainBlock, 1),
                statements: vec![],
                branch_terminator_expr_opt: Some(ret(Some(num("1")), 1)),
            },
            BoolTestConditionalBranchNode {
                is_negated: true,
                expr_t: var("b", IdentifierDeclScope::DomainBlock, 2),
                statements: vec![],
                branch_terminator_expr_opt: Some(TerminatorExpr {
                    terminator_type: TerminatorType::Continue,
                    return_expr_t_opt: None,
                    line: 2,
                }),
            },
        ],
        else_branch_node_opt: Some(BoolTestElseBranchNode {
            statements: vec![],
            branch_terminator_expr_opt: None,
        }),
    };
    let mut v = plain_visitor(empty_arcanum(), vec![]);
    v.visit_test_statement_node(&TestStatementNode {
        test_t: TestType::BoolTest { bool_test_node: test },
    });
    assert_eq!(
        v.get_code(),
        "\nif (that.a) {\n    e._return = 1;\n    return;\n} else if (!(that.b)) {\n    break;\n} else {\n}"
    );
}

#[test]
fn comments_of_the_source_are_written_before_the_line_they_precede() {
    let comments = vec![
        tok(TokenType::SingleLineComment, "--- first", 2),
        tok(TokenType::MultiLineComment, "{-- second --}", 3),
        tok(TokenType::SingleLineComment, "--- late", 9),
    ];
    let mut v = plain_visitor(empty_arcanum(), comments);
    v.visit_dispatch_node(&DispatchNode {
        target_state_ref: StateRefNode { name: "Base".to_string() },
        line: 4,
    });
    assert_eq!(v.get_code(), "\n_sBase_(e);  //  first\n/*  second */\n");
}

#[test]
fn event_parts_and_frame_words() {
    let mut v = plain_visitor(empty_arcanum(), vec![]);
    v.visit_frame_event_part(&FrameEventPart::Event { is_reference: false });
    v.visit_operator_type(&OperatorType::NotEqual);
    v.visit_frame_event_part(&FrameEventPart::Param {
        param_tok: tok(TokenType::Identifier, "p", 1),
        is_reference: false,
    });
    let mut out = String::new();
    v.visit_frame_event_part_to_string(&FrameEventPart::Return { is_reference: false }, &mut out);
    v.visit_operator_type_to_string(&OperatorType::LessEqual, &mut out);
    v.visit_frame_event_part_to_string(&FrameEventPart::Message { is_reference: false }, &mut out);
    assert_eq!(v.get_code(), "e != e._parameters[\"p\"]");
    assert_eq!(out, "e._return <= e._message");
}

fn defect_of(build: impl Fn(&mut JavaScriptVisitor)) -> String {
    let s = system(
        "T",
        vec![],
        vec![
            state(
                "S1",
                params(&["p"]),
                Some(vec![VariableDeclNode {
                    name: "v".to_string(),
                    type_opt: None,
                    is_constant: false,
                    initializer_expr_t_opt: None,
                    identifier_decl_scope: IdentifierDeclScope::StateVar,
                }]),
                vec![
                    handler("S1", ">", params(&["a"]), vec![], false, 2),
                    handler("S1", "<", None, vec![], false, 3),
                ],
                1,
            ),
            state("S2", None, None, vec![handler("S2", ">", None, vec![], false, 5)], 4),
        ],
        vec![],
        vec![],
    );
    let arcanum = Arcanum::new(&s, false);
    let mut v = plain_visitor(arcanum, vec![]);
    build(&mut v);
    v.get_code()
}

#[test]
fn each_defect_of_a_transition_is_named() {
    assert_eq!(
        defect_of(|v| v.visit_transition_statement_node(&transition_node(
            "S1",
            None,
            args(vec![num("1"), num("2")]),
            None,
            None,
            1
        ))),
        "Fatal error: misaligned parameters to arguments.State variable without initializer."
    );
    assert_eq!(
        defect_of(|v| v.visit_transition_statement_node(&transition_node(
            "S2",
            None,
            args(vec![num("1")]),
            None,
            None,
            1
        ))),
        "Invalid number of arguments for the enter event handler."
    );
    assert_eq!(
        defect_of(|v| v.visit_transition_statement_node(&transition_node(
            "S1",
            None,
            None,
            args(vec![num("1"), num("2")]),
            None,
            1
        ))),
        "Invalid number of arguments for state parameters.State variable without initializer."
    );
    assert_eq!(
        defect_of(|v| v.visit_transition_statement_node(&transition_node(
            "S9",
            None,
            None,
            args(vec![]),
            None,
            1
        ))),
        "Transition to a state that is not declared."
    );
    assert_eq!(
        defect_of(|v| {
            v.current_state_name_opt = Some("S1".to_string());
            v.visit_transition_statement_node(&transition_node(
                "S2",
                args(vec![num("1")]),
                None,
                None,
                None,
                1,
            ))
        }),
        "Fatal error: misaligned parameters to arguments."
    );
}

#[test]
fn each_defect_of_a_statement_is_named() {
    assert_eq!(
        defect_of(|v| v.visit_variable_decl_node(&VariableDeclNode {
            name: "v".to_string(),
            type_opt: None,
            is_constant: false,
            initializer_expr_t_opt: None,
            identifier_decl_scope: IdentifierDeclScope::DomainBlock,
        })),
        "Variable without initializer."
    );
    assert_eq!(
        defect_of(|v| v.visit_variable_decl_node(&var_decl("v", num("1"), IdentifierDeclScope::StateVar))),
        "Unexpected scope for variable declaration."
    );
    assert_eq!(
        defect_of(|v| v.visit_change_state_statement_node(&ChangeStateStatementNode {
            state_context_t: StateContextType::StateStackPop,
            label_opt: None,
            line: 1,
        })),
        "Change of state to the state stack is not supported."
    );
    assert_eq!(
        defect_of(|v| v.visit_string_match_test_node(&StringMatchTestNode {
            expr_t: num("1"),
            match_branch_nodes: vec![StringMatchTestMatchBranchNode {
                string_match_pattern_node: StringMatchTestPatternNode {
                    match_pattern_strings: vec!["a".to_string()],
                },
                statements: vec![],
                branch_terminator_expr_opt: None,
            }],
            else_branch_node_opt: None,
        })),
        "Unsupported test expression."
    );
}

#[test]
fn nodes_of_other_targets_are_defects() {
    let interface = InterfaceBlockNode { interface_methods: vec![] };
    let actions = ActionsBlockNode { actions: vec![] };
    assert_eq!(
        defect_of(|v| v.visit_frame_messages_enum(&interface)),
        "The enumeration of messages is written for Rust only."
    );
    assert_eq!(
        defect_of(|v| v.visit_interface_parameters(&interface)),
        "The parameters of the interface are not written for this target."
    );
    assert_eq!(
        defect_of(|v| v.visit_action_node_rust_trait(&actions)),
        "The trait of the actions is written for Rust only."
    );
    assert_eq!(
        defect_of(|v| v.visit_actions_node_rust_impl(&actions)),
        "The implementation of the actions is written for Rust only."
    );
    assert_eq!(
        defect_of(|v| v.visit_action_impl_node(&action("a", None))),
        "The implementation of an action is not written for this target."
    );
    assert_eq!(
        defect_of(|v| v.visit_string_match_test_pattern_node(&StringMatchTestPatternNode {
            match_pattern_strings: vec![],
        })),
        "A string pattern is written with its branch."
    );
}

#[test]
fn state_with_entry_calls_and_dispatch() {
    let node = StateNode {
        name: "Child".to_string(),
        params_opt: None,
        vars_opt: None,
        calls_opt: Some(vec![CallChainLiteralExprNode {
            call_chain: vec![CallChainLiteralNodeType::ActionCallT {
                action_call_expr_node: action_call("arm", vec![], 2),
            }],
        }]),
        evt_handlers: vec![EventHandlerNode {
            state_name: "Child".to_string(),
            msg_t: MessageType::AnyMessage { line: 3 },
            params_opt: None,
            statements: vec![],
            terminator_node: TerminatorExpr {
                terminator_type: TerminatorType::Continue,
                return_expr_t_opt: None,
                line: 3,
            },
            event_handler_has_transition: false,
            line: 3,
        }],
        dispatch_opt: Some(DispatchNode {
            target_state_ref: StateRefNode { name: "Parent".to_string() },
            line: 4,
        }),
        line: 1,
    };
    let mut v = plain_visitor(empty_arcanum(), vec![]);
    v.visit_state_node(&node);
    assert_eq!(
        v.get_code(),
        "\n\nlet _sChild_ = function (e) {\n    that.arm_do();\n    if (true) {\n        \n    }\n    _sParent_(e);\n    \n}"
    );
    assert_eq!(v.current_state_name_opt, None);
}
