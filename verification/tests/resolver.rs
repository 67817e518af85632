use framec::ast::{
    ActionCallExprNode, ActionCallStmtNode, ActionNode, ActionsBlockNode, AssignmentExprNode,
    AssignmentStmtNode, BinaryExprNode, CallExprListNode, ChangeStateStatementNode,
    DeclOrStmtType, DomainBlockNode, EventHandlerNode, ExprListNode, ExprStmtType, ExprType,
    IdentifierDeclScope, IdentifierNode, InterfaceBlockNode, InterfaceMethodNode,
    LiteralExprNode, MachineBlockNode, MessageNode, MessageType, OperatorType, ParameterNode,
    StateContextNode, StateContextType, StateNode, StateRefNode, StatementType, SystemNode,
    TerminatorExpr, TerminatorType, TransitionStatementNode, TypeNode, VariableDeclNode,
    VariableNode,
};
use framec::resolver::{contains, resolve, resolve_scope};
use framec::scopes::Declarations;
use framec::symbol_table::Arcanum;
use framec::token::{Token, TokenLiteral, TokenType};

fn tok(kind: TokenType, lexeme: &str, line: usize) -> Token {
    Token::new(kind, lexeme.to_string(), TokenLiteral::Absent, line, 0, lexeme.len())
}

fn ident(name: &str, line: usize) -> IdentifierNode {
    IdentifierNode {
        name: tok(TokenType::Identifier, name, line),
        scope: IdentifierDeclScope::Unresolved,
        is_reference: false,
        line,
    }
}

fn var_node(name: &str, scope: IdentifierDeclScope, line: usize) -> VariableNode {
    VariableNode { id_node: ident(name, line), scope }
}

fn var(name: &str, scope: IdentifierDeclScope, line: usize) -> ExprType {
    ExprType::VariableExprT { var_node: var_node(name, scope, line) }
}

fn lit(kind: TokenType, value: &str) -> ExprType {
    ExprType::LiteralExprT {
        literal_expr_node: LiteralExprNode { token_t: kind, value: value.to_string() },
    }
}

fn num(value: &str) -> ExprType {
    lit(TokenType::Number, value)
}

fn binary(left: ExprType, operator: OperatorType, right: ExprType) -> BinaryExprNode {
    BinaryExprNode { left: Box::new(left), operator, right: Box::new(right) }
}

fn action_call(name: &str, args: Vec<ExprType>, line: usize) -> ActionCallExprNode {
    ActionCallExprNode { identifier: ident(name, line), call_expr_list: CallExprListNode { exprs_t: args } }
}

fn action_stmt(name: &str, args: Vec<ExprType>, line: usize) -> DeclOrStmtType {
    DeclOrStmtType::StmtT {
        stmt_t: StatementType::ExpressionStmt {
            expr_stmt_t: ExprStmtType::ActionCallStmtT {
                action_call_stmt_node: ActionCallStmtNode {
                    action_call_expr_node: action_call(name, args, line),
                },
            },
        },
    }
}

fn assign_stmt(left: ExprType, right: ExprType, line: usize) -> DeclOrStmtType {
    DeclOrStmtType::StmtT {
        stmt_t: StatementType::ExpressionStmt {
            expr_stmt_t: ExprStmtType::AssignmentStmtT {
                assignment_stmt_node: AssignmentStmtNode {
                    assignment_expr_node: AssignmentExprNode {
                        l_value_box: Box::new(left),
                        r_value_box: Box::new(right),
                        line,
                    },
                },
            },
        },
    }
}

fn local_decl(name: &str, init: ExprType) -> DeclOrStmtType {
    DeclOrStmtType::VarDeclT {
        var_decl_t: var_decl(name, init, IdentifierDeclScope::EventHandlerVar),
    }
}

fn var_decl(name: &str, init: ExprType, scope: IdentifierDeclScope) -> VariableDeclNode {
    VariableDeclNode {
        name: name.to_string(),
        type_opt: None,
        is_constant: false,
        initializer_expr_t_opt: Some(init),
        identifier_decl_scope: scope,
    }
}

fn args(exprs: Vec<ExprType>) -> Option<ExprListNode> {
    Some(ExprListNode { exprs_t: exprs })
}

fn transition_node(
    target: &str,
    exit_args: Option<ExprListNode>,
    enter_args: Option<ExprListNode>,
    state_args: Option<ExprListNode>,
    label: Option<&str>,
    line: usize,
) -> TransitionStatementNode {
    TransitionStatementNode {
        target_state_context_t: StateContextType::StateRef {
            state_context_node: StateContextNode {
                state_ref_node: StateRefNode { name: target.to_string() },
                state_ref_args_opt: state_args,
                enter_args_opt: enter_args,
            },
        },
        exit_args_opt: exit_args,
        label_opt: label.map(|l| l.to_string()),
        line,
    }
}

fn transition(target: &str, line: usize) -> DeclOrStmtType {
    DeclOrStmtType::StmtT {
        stmt_t: StatementType::TransitionStmt {
            transition_statement: transition_node(target, None, None, None, None, line),
        },
    }
}

fn change_state(target: &str, line: usize) -> DeclOrStmtType {
    DeclOrStmtType::StmtT {
        stmt_t: StatementType::ChangeStateStmt {
            change_state_stmt: ChangeStateStatementNode {
                state_context_t: StateContextType::StateRef {
                    state_context_node: StateContextNode {
                        state_ref_node: StateRefNode { name: target.to_string() },
                        state_ref_args_opt: None,
                        enter_args_opt: None,
                    },
                },
                label_opt: None,
                line,
            },
        },
    }
}

fn params(names: &[&str]) -> Option<Vec<ParameterNode>> {
    Some(
        names
            .iter()
            .map(|n| ParameterNode {
                param_name: n.to_string(),
                param_type_opt: None,
                scope: IdentifierDeclScope::Unresolved,
            })
            .collect(),
    )
}

fn ret(value: Option<ExprType>, line: usize) -> TerminatorExpr {
    TerminatorExpr { terminator_type: TerminatorType::Return, return_expr_t_opt: value, line }
}

fn handler(
    state: &str,
    msg: &str,
    params_opt: Option<Vec<ParameterNode>>,
    statements: Vec<DeclOrStmtType>,
    has_transition: bool,
    line: usize,
) -> EventHandlerNode {
    EventHandlerNode {
        state_name: state.to_string(),
        msg_t: MessageType::CustomMessage {
            message_node: MessageNode { name: msg.to_string(), line },
        },
        params_opt,
        statements,
        terminator_node: ret(None, line),
        event_handler_has_transition: has_transition,
        line,
    }
}

fn state(
    name: &str,
    params_opt: Option<Vec<ParameterNode>>,
    vars_opt: Option<Vec<VariableDeclNode>>,
    evt_handlers: Vec<EventHandlerNode>,
    line: usize,
) -> StateNode {
    StateNode {
        name: name.to_string(),
        params_opt,
        vars_opt,
        calls_opt: None,
        evt_handlers,
        dispatch_opt: None,
        line,
    }
}

fn method(name: &str, params_opt: Option<Vec<ParameterNode>>, returns: bool) -> InterfaceMethodNode {
    InterfaceMethodNode {
        name: name.to_string(),
        params: params_opt,
        return_type_opt: if returns {
            Some(TypeNode { is_superstring: false, is_reference: false, type_str: "int".to_string() })
        } else {
            None
        },
        alias: None,
    }
}

fn action(name: &str, params_opt: Option<Vec<ParameterNode>>) -> ActionNode {
    ActionNode { name: name.to_string(), params: params_opt, type_opt: None, code_opt: None }
}

fn system(
    name: &str,
    methods: Vec<InterfaceMethodNode>,
    states: Vec<StateNode>,
    actions: Vec<ActionNode>,
    domain: Vec<VariableDeclNode>,
) -> SystemNode {
    SystemNode {
        name: name.to_string(),
        interface_block_node_opt: if methods.is_empty() {
            None
        } else {
            Some(InterfaceBlockNode { interface_methods: methods })
        },
        machine_block_node_opt: if states.is_empty() {
            None
        } else {
            Some(MachineBlockNode { states })
        },
        actions_block_node_opt: if actions.is_empty() {
            None
        } else {
            Some(ActionsBlockNode { actions })
        },
        domain_block_node_opt: if domain.is_empty() {
            None
        } else {
            Some(DomainBlockNode { member_variables: domain })
        },
        line: 100,
    }
}

fn names(list: &[&str]) -> Vec<String> {
    list.iter().map(|n| n.to_string()).collect()
}

fn scope_of_assignment_target(system: &SystemNode, state: usize, handler: usize, stmt: usize) -> IdentifierDeclScope {
    let h = &system.machine_block_node_opt.as_ref().unwrap().states[state].evt_handlers[handler];
    match &h.statements[stmt] {
        DeclOrStmtType::StmtT {
            stmt_t:
                StatementType::ExpressionStmt {
                    expr_stmt_t: ExprStmtType::AssignmentStmtT { assignment_stmt_node },
                },
        } => match &*assignment_stmt_node.assignment_expr_node.l_value_box {
            ExprType::VariableExprT { var_node } => var_node.scope,
            _ => panic!("not a variable"),
        },
        _ => panic!("not an assignment"),
    }
}

#[test]
fn scope_shadowing() {
    let domain = names(&["x", "d"]);
    let state_params = names(&["x"]);
    let none = names(&[]);
    let locals = names(&["x"]);
    assert_eq!(
        resolve_scope(&domain, &state_params, &none, &none, &locals, "x"),
        IdentifierDeclScope::EventHandlerVar
    );
    assert_eq!(
        resolve_scope(&domain, &state_params, &none, &none, &none, "x"),
        IdentifierDeclScope::StateParam
    );
    assert_eq!(
        resolve_scope(&domain, &none, &none, &none, &none, "x"),
        IdentifierDeclScope::DomainBlock
    );
    assert_eq!(
        resolve_scope(&domain, &state_params, &none, &none, &locals, "y"),
        IdentifierDeclScope::Unresolved
    );
}

#[test]
fn scopes_resolve_in_their_order() {
    let all = names(&["x"]);
    let none = names(&[]);
    assert_eq!(
        resolve_scope(&all, &all, &all, &all, &none, "x"),
        IdentifierDeclScope::EventHandlerParam
    );
    assert_eq!(
        resolve_scope(&all, &all, &all, &none, &none, "x"),
        IdentifierDeclScope::StateVar
    );
    assert!(contains(&all, "x"));
    assert!(!contains(&all, "X"));
    assert!(!contains(&none, "x"));
}

fn shadowing_system(with_local: bool, with_state_param: bool) -> SystemNode {
    let mut statements = Vec::new();
    if with_local {
        statements.push(local_decl("x", num("1")));
    }
    statements.push(assign_stmt(var("x", IdentifierDeclScope::Unresolved, 7), num("2"), 7));
    system(
        "Shadow",
        vec![],
        vec![state(
            "S0",
            if with_state_param { params(&["x"]) } else { None },
            None,
            vec![handler("S0", "go", None, statements, false, 5)],
            4,
        )],
        vec![],
        vec![var_decl("x", num("0"), IdentifierDeclScope::DomainBlock)],
    )
}

#[test]
fn reference_resolves_to_the_innermost_declaration() {
    let mut with_all = shadowing_system(true, true);
    let outcome = resolve(&mut with_all);
    assert!(outcome.is_ok());
    assert_eq!(
        scope_of_assignment_target(&with_all, 0, 0, 1),
        IdentifierDeclScope::EventHandlerVar
    );

    let mut without_local = shadowing_system(false, true);
    assert!(resolve(&mut without_local).is_ok());
    assert_eq!(
        scope_of_assignment_target(&without_local, 0, 0, 0),
        IdentifierDeclScope::StateParam
    );

    let mut without_both = shadowing_system(false, false);
    assert!(resolve(&mut without_both).is_ok());
    assert_eq!(
        scope_of_assignment_target(&without_both, 0, 0, 0),
        IdentifierDeclScope::DomainBlock
    );
}

#[test]
fn local_is_visible_only_behind_its_declaration() {
    let statements = vec![
        assign_stmt(var("x", IdentifierDeclScope::Unresolved, 6), num("1"), 6),
        local_decl("x", var("x", IdentifierDeclScope::Unresolved, 7)),
        assign_stmt(var("x", IdentifierDeclScope::Unresolved, 8), num("2"), 8),
    ];
    let mut s = system(
        "Order",
        vec![],
        vec![state(
            "S0",
            None,
            Some(vec![var_decl("x", num("0"), IdentifierDeclScope::StateVar)]),
            vec![handler("S0", "go", None, statements, false, 5)],
            4,
        )],
        vec![],
        vec![],
    );
    assert!(resolve(&mut s).is_ok());
    assert_eq!(scope_of_assignment_target(&s, 0, 0, 0), IdentifierDeclScope::StateVar);
    assert_eq!(scope_of_assignment_target(&s, 0, 0, 2), IdentifierDeclScope::EventHandlerVar);
    let h = &s.machine_block_node_opt.as_ref().unwrap().states[0].evt_handlers[0];
    match &h.statements[1] {
        DeclOrStmtType::VarDeclT { var_decl_t } => match &var_decl_t.initializer_expr_t_opt {
            Some(ExprType::VariableExprT { var_node }) => {
                assert_eq!(var_node.scope, IdentifierDeclScope::StateVar)
            }
            _ => panic!("not a variable"),
        },
        _ => panic!("not a declaration"),
    }
}

#[test]
fn handler_parameters_come_from_the_interface() {
    let mut s = system(
        "Params",
        vec![method("go", params(&["n"]), false)],
        vec![state(
            "S0",
            None,
            None,
            vec![handler(
                "S0",
                "go",
                None,
                vec![assign_stmt(var("n", IdentifierDeclScope::Unresolved, 6), num("1"), 6)],
                false,
                5,
            )],
            4,
        )],
        vec![],
        vec![],
    );
    assert!(resolve(&mut s).is_ok());
    assert_eq!(scope_of_assignment_target(&s, 0, 0, 0), IdentifierDeclScope::EventHandlerParam);
}

#[test]
fn unresolved_identifier_is_reported_with_its_line() {
    let mut s = system(
        "Lost",
        vec![],
        vec![state(
            "S0",
            None,
            None,
            vec![handler(
                "S0",
                "go",
                None,
                vec![assign_stmt(var("ghost", IdentifierDeclScope::Unresolved, 12), num("1"), 12)],
                false,
                5,
            )],
            4,
        )],
        vec![],
        vec![],
    );
    let outcome = resolve(&mut s);
    assert!(!outcome.is_ok());
    assert_eq!(
        outcome.diagnostics,
        vec!["Line 12 : Error: Unresolved identifier 'ghost'.\n"]
    );
    assert_eq!(scope_of_assignment_target(&s, 0, 0, 0), IdentifierDeclScope::Unresolved);
}

#[test]
fn reference_is_resolved_once() {
    let mut s = system(
        "Twice",
        vec![],
        vec![state(
            "S0",
            None,
            None,
            vec![handler(
                "S0",
                "go",
                None,
                vec![assign_stmt(var("a", IdentifierDeclScope::StateVar, 9), num("1"), 9)],
                false,
                5,
            )],
            4,
        )],
        vec![],
        vec![var_decl("a", num("0"), IdentifierDeclScope::DomainBlock)],
    );
    let outcome = resolve(&mut s);
    assert_eq!(
        outcome.diagnostics,
        vec!["Line 9 : Error: Identifier 'a' is already resolved.\n"]
    );
    assert_eq!(scope_of_assignment_target(&s, 0, 0, 0), IdentifierDeclScope::StateVar);
}

#[test]
fn arity_and_undeclared_names_are_fatal() {
    let mut s = system(
        "Arity",
        vec![],
        vec![
            state(
                "S0",
                None,
                None,
                vec![handler(
                    "S0",
                    "go",
                    None,
                    vec![
                        action_stmt("log", vec![num("1"), num("2")], 6),
                        action_stmt("nope", vec![], 7),
                        transition("S9", 8),
                        DeclOrStmtType::StmtT {
                            stmt_t: StatementType::TransitionStmt {
                                transition_statement: transition_node(
                                    "S1",
                                    args(vec![num("1")]),
                                    args(vec![num("1"), num("2")]),
                                    args(vec![num("1")]),
                                    None,
                                    9,
                                ),
                            },
                        },
                    ],
                    true,
                    5,
                )],
                4,
            ),
            state(
                "S1",
                None,
                None,
                vec![handler("S1", ">", params(&["a"]), vec![], false, 11)],
                10,
            ),
        ],
        vec![action("log", params(&["msg"]))],
        vec![],
    );
    let outcome = resolve(&mut s);
    assert_eq!(
        outcome.diagnostics,
        vec![
            "Line 6 : Error: Action 'log' expects 1 arguments but 2 were supplied.\n",
            "Line 7 : Error: Undeclared action 'nope'.\n",
            "Line 8 : Error: Undeclared state 'S9'.\n",
            "Line 9 : Error: Undeclared exit event handler of state 'S0'.\n",
            "Line 9 : Error: Enter event handler of state 'S1' expects 1 arguments but 2 were supplied.\n",
            "Line 9 : Error: State 'S1' expects 0 arguments but 1 were supplied.\n",
        ]
    );
    assert!(outcome.warnings.is_empty());
}

#[test]
fn enter_arguments_without_a_handler_are_a_warning() {
    let mut s = system(
        "Warn",
        vec![],
        vec![
            state(
                "S0",
                None,
                None,
                vec![handler(
                    "S0",
                    "go",
                    None,
                    vec![DeclOrStmtType::StmtT {
                        stmt_t: StatementType::TransitionStmt {
                            transition_statement: transition_node(
                                "S1",
                                None,
                                args(vec![num("1")]),
                                None,
                                None,
                                9,
                            ),
                        },
                    }],
                    true,
                    5,
                )],
                4,
            ),
            state("S1", None, None, vec![], 10),
        ],
        vec![],
        vec![],
    );
    let outcome = resolve(&mut s);
    assert!(outcome.is_ok());
    assert_eq!(
        outcome.warnings,
        vec!["State S1 does not have an enter event handler but is being passed parameters in a transition"]
    );
}

#[test]
fn declarations_list_what_the_system_declares() {
    let s = system(
        "Decl",
        vec![method("go", params(&["n"]), false)],
        vec![state(
            "S0",
            params(&["p"]),
            Some(vec![var_decl("v", num("0"), IdentifierDeclScope::StateVar)]),
            vec![
                handler("S0", ">", params(&["a", "b"]), vec![], false, 5),
                handler("S0", "go", None, vec![], false, 6),
            ],
            4,
        )],
        vec![action("log", params(&["msg"]))],
        vec![var_decl("d", num("0"), IdentifierDeclScope::DomainBlock)],
    );
    let d = Declarations::collect(&s);
    assert_eq!(d.domain, vec!["d"]);
    assert_eq!(d.actions.len(), 1);
    assert_eq!(d.actions[0].name, "log");
    assert_eq!(d.actions[0].params, vec!["msg"]);
    assert_eq!(d.methods[0].message, "go");
    assert_eq!(d.states[0].name, "S0");
    assert_eq!(d.states[0].params, vec!["p"]);
    assert_eq!(d.states[0].vars, vec!["v"]);
    assert_eq!(d.states[0].enter, Some(2));
    assert_eq!(d.states[0].exit, None);

    let arcanum = Arcanum::new(&s, true);
    assert!(arcanum.is_serializable());
    assert_eq!(arcanum.states.len(), 1);
    assert!(arcanum.get_state("S0").is_some());
    assert!(arcanum.get_state("S1").is_none());
    let messages: Vec<&str> = arcanum.events.iter().map(|e| e.msg.as_str()).collect();
    assert_eq!(messages, vec!["go", "S0:>"]);
    let enter = arcanum.get_event("S0:>").unwrap();
    let names: Vec<&str> =
        enter.params_opt.as_ref().unwrap().iter().map(|p| p.name.as_str()).collect();
    assert_eq!(names, vec!["a", "b"]);
    assert!(arcanum.get_event("S0:<").is_none());
}

fn chain_stmt(links: Vec<framec::ast::CallChainLiteralNodeType>) -> DeclOrStmtType {
    DeclOrStmtType::StmtT {
        stmt_t: StatementType::ExpressionStmt {
            expr_stmt_t: ExprStmtType::CallChainLiteralStmtT {
                call_chain_literal_stmt_node: framec::ast::CallChainLiteralStmtNode {
                    call_chain_literal_expr_node: framec::ast::CallChainLiteralExprNode {
                        call_chain: links,
                    },
                },
            },
        },
    }
}

fn method_link(name: &str, args: Vec<ExprType>, line: usize) -> framec::ast::CallChainLiteralNodeType {
    framec::ast::CallChainLiteralNodeType::InterfaceMethodCallT {
        interface_method_call_expr_node: framec::ast::InterfaceMethodCallExprNode {
            identifier: ident(name, line),
            call_expr_list: CallExprListNode { exprs_t: args },
        },
    }
}

#[test]
fn calls_of_the_interface_and_other_targets_are_checked() {
    let mut s = system(
        "More",
        vec![method("go", params(&["n"]), false)],
        vec![
            StateNode {
                dispatch_opt: Some(framec::ast::DispatchNode {
                    target_state_ref: StateRefNode { name: "Base".to_string() },
                    line: 20,
                }),
                ..state(
                    "S0",
                    None,
                    None,
                    vec![
                        handler(
                            "S0",
                            "go",
                            None,
                            vec![
                                chain_stmt(vec![method_link("go", vec![], 6)]),
                                chain_stmt(vec![method_link("gone", vec![], 7)]),
                                DeclOrStmtType::StmtT {
                                    stmt_t: StatementType::ChangeStateStmt {
                                        change_state_stmt: ChangeStateStatementNode {
                                            state_context_t: StateContextType::StateStackPop,
                                            label_opt: None,
                                            line: 8,
                                        },
                                    },
                                },
                                DeclOrStmtType::StmtT {
                                    stmt_t: StatementType::TransitionStmt {
                                        transition_statement: transition_node(
                                            "S0",
                                            args(vec![num("1"), num("2")]),
                                            None,
                                            None,
                                            None,
                                            9,
                                        ),
                                    },
                                },
                            ],
                            true,
                            5,
                        ),
                        handler("S0", "<", params(&["why"]), vec![], false, 10),
                    ],
                    4,
                )
            },
        ],
        vec![],
        vec![],
    );
    let outcome = resolve(&mut s);
    assert_eq!(
        outcome.diagnostics,
        vec![
            "Line 6 : Error: Interface method 'go' expects 1 arguments but 0 were supplied.\n",
            "Line 7 : Error: Undeclared interface method 'gone'.\n",
            "Line 8 : Error: Change of state to the state stack is not supported.\n",
            "Line 9 : Error: Exit event handler of state 'S0' expects 1 arguments but 2 were supplied.\n",
            "Line 20 : Error: Undeclared state 'Base'.\n",
        ]
    );
}
