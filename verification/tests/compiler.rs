use framec::ast::{
    ActionCallExprNode, ActionCallStmtNode, ActionNode, ActionsBlockNode, AssignmentExprNode,
    AssignmentStmtNode, BinaryExprNode, CallExprListNode, ChangeStateStatementNode,
    DeclOrStmtType, DomainBlockNode, EventHandlerNode, ExprListNode, ExprStmtType, ExprType,
    IdentifierDeclScope, IdentifierNode, InterfaceBlockNode, InterfaceMethodNode,
    LiteralExprNode, MachineBlockNode, MessageNode, MessageType, OperatorType, ParameterNode,
    StateContextNode, StateContextType, StateNode, StateRefNode, StatementType, SystemNode,
    TerminatorExpr, TerminatorType, TransitionStatementNode, TypeNode, VariableDeclNode,
    VariableNode,
};
use framec::cli::{run_with, target_language, Cli, Command, TargetLanguage};
use framec::compiler::{comments_of, compile_javascript, generate_javascript, FeatureFlags};
use framec::scanner::Scanner;
use framec::token::{Token, TokenLiteral, TokenType};

fn tok(kind: TokenType, lexeme: &str, line: usize) -> Token {
    Token::new(kind, lexeme.to_string(), TokenLiteral::Absent, line, 0, lexeme.len())
}

fn ident(name: &str, line: usize) -> IdentifierNode {
    IdentifierNode {
        name: tok(TokenType::Identifier, name, line),
        scope: IdentifierDeclScope::Unresolved,
        is_reference: false,
        line,
    }
}

fn var_node(name: &str, scope: IdentifierDeclScope, line: usize) -> VariableNode {
    VariableNode { id_node: ident(name, line), scope }
}

fn var(name: &str, scope: IdentifierDeclScope, line: usize) -> ExprType {
    ExprType::VariableExprT { var_node: var_node(name, scope, line) }
}

fn lit(kind: TokenType, value: &str) -> ExprType {
    ExprType::LiteralExprT {
        literal_expr_node: LiteralExprNode { token_t: kind, value: value.to_string() },
    }
}

fn num(value: &str) -> ExprType {
    lit(TokenType::Number, value)
}

fn binary(left: ExprType, operator: OperatorType, right: ExprType) -> BinaryExprNode {
    BinaryExprNode { left: Box::new(left), operator, right: Box::new(right) }
}

fn action_call(name: &str, args: Vec<ExprType>, line: usize) -> ActionCallExprNode {
    ActionCallExprNode { identifier: ident(name, line), call_expr_list: CallExprListNode { exprs_t: args } }
}

fn action_stmt(name: &str, args: Vec<ExprType>, line: usize) -> DeclOrStmtType {
    DeclOrStmtType::StmtT {
        stmt_t: StatementType::ExpressionStmt {
            expr_stmt_t: ExprStmtType::ActionCallStmtT {
                action_call_stmt_node: ActionCallStmtNode {
                    action_call_expr_node: action_call(name, args, line),
                },
            },
        },
    }
}

fn assign_stmt(left: ExprType, right: ExprType, line: usize) -> DeclOrStmtType {
    DeclOrStmtType::StmtT {
        stmt_t: StatementType::ExpressionStmt {
            expr_stmt_t: ExprStmtType::AssignmentStmtT {
                assignment_stmt_node: AssignmentStmtNode {
                    assignment_expr_node: AssignmentExprNode {
                        l_value_box: Box::new(left),
                        r_value_box: Box::new(right),
                        line,
                    },
                },
            },
        },
    }
}

fn local_decl(name: &str, init: ExprType) -> DeclOrStmtType {
    DeclOrStmtType::VarDeclT {
        var_decl_t: var_decl(name, init, IdentifierDeclScope::EventHandlerVar),
    }
}

fn var_decl(name: &str, init: ExprType, scope: IdentifierDeclScope) -> VariableDeclNode {
    VariableDeclNode {
        name: name.to_string(),
        type_opt: None,
        is_constant: false,
        initializer_expr_t_opt: Some(init),
        identifier_decl_scope: scope,
    }
}

fn args(exprs: Vec<ExprType>) -> Option<ExprListNode> {
    Some(ExprListNode { exprs_t: exprs })
}

fn transition_node(
    target: &str,
    exit_args: Option<ExprListNode>,
    enter_args: Option<ExprListNode>,
    state_args: Option<ExprListNode>,
    label: Option<&str>,
    line: usize,
) -> TransitionStatementNode {
    TransitionStatementNode {
        target_state_context_t: StateContextType::StateRef {
            state_context_node: StateContextNode {
                state_ref_node: StateRefNode { name: target.to_string() },
                state_ref_args_opt: state_args,
                enter_args_opt: enter_args,
            },
        },
        exit_args_opt: exit_args,
        label_opt: label.map(|l| l.to_string()),
        line,
    }
}

fn transition(target: &str, line: usize) -> DeclOrStmtType {
    DeclOrStmtType::StmtT {
        stmt_t: StatementType::TransitionStmt {
            transition_statement: transition_node(target, None, None, None, None, line),
        },
    }
}

fn change_state(target: &str, line: usize) -> DeclOrStmtType {
    DeclOrStmtType::StmtT {
        stmt_t: StatementType::ChangeStateStmt {
            change_state_stmt: ChangeStateStatementNode {
                state_context_t: StateContextType::StateRef {
                    state_context_node: StateContextNode {
                        state_ref_node: StateRefNode { name: target.to_string() },
                        state_ref_args_opt: None,
                        enter_args_opt: None,
                    },
                },
                label_opt: None,
                line,
            },
        },
    }
}

fn params(names: &[&str]) -> Option<Vec<ParameterNode>> {
    Some(
        names
            .iter()
            .map(|n| ParameterNode {
                param_name: n.to_string(),
                param_type_opt: None,
                scope: IdentifierDeclScope::Unresolved,
            })
            .collect(),
    )
}

fn ret(value: Option<ExprType>, line: usize) -> TerminatorExpr {
    TerminatorExpr { terminator_type: TerminatorType::Return, return_expr_t_opt: value, line }
}

fn handler(
    state: &str,
    msg: &str,
    params_opt: Option<Vec<ParameterNode>>,
    statements: Vec<DeclOrStmtType>,
    has_transition: bool,
    line: usize,
) -> EventHandlerNode {
    EventHandlerNode {
        state_name: state.to_string(),
        msg_t: MessageType::CustomMessage {
            message_node: MessageNode { name: msg.to_string(), line },
        },
        params_opt,
        statements,
        terminator_node: ret(None, line),
        event_handler_has_transition: has_transition,
        line,
    }
}

fn state(
    name: &str,
    params_opt: Option<Vec<ParameterNode>>,
    vars_opt: Option<Vec<VariableDeclNode>>,
    evt_handlers: Vec<EventHandlerNode>,
    line: usize,
) -> StateNode {
    StateNode {
        name: name.to_string(),
        params_opt,
        vars_opt,
        calls_opt: None,
        evt_handlers,
        dispatch_opt: None,
        line,
    }
}

fn method(name: &str, params_opt: Option<Vec<ParameterNode>>, returns: bool) -> InterfaceMethodNode {
    InterfaceMethodNode {
        name: name.to_string(),
        params: params_opt,
        return_type_opt: if returns {
            Some(TypeNode { is_superstring: false, is_reference: false, type_str: "int".to_string() })
        } else {
            None
        },
        alias: None,
    }
}

fn action(name: &str, params_opt: Option<Vec<ParameterNode>>) -> ActionNode {
    ActionNode { name: name.to_string(), params: params_opt, type_opt: None, code_opt: None }
}

fn system(
    name: &str,
    methods: Vec<InterfaceMethodNode>,
    states: Vec<StateNode>,
    actions: Vec<ActionNode>,
    domain: Vec<VariableDeclNode>,
) -> SystemNode {
    SystemNode {
        name: name.to_string(),
        interface_block_node_opt: if methods.is_empty() {
            None
        } else {
            Some(InterfaceBlockNode { interface_methods: methods })
        },
        machine_block_node_opt: if states.is_empty() {
            None
        } else {
            Some(MachineBlockNode { states })
        },
        actions_block_node_opt: if actions.is_empty() {
            None
        } else {
            Some(ActionsBlockNode { actions })
        },
        domain_block_node_opt: if domain.is_empty() {
            None
        } else {
            Some(DomainBlockNode { member_variables: domain })
        },
        line: 100,
    }
}

fn two_states(target: &str) -> SystemNode {
    system(
        "M",
        vec![method("go", None, false)],
        vec![
            state(
                "S0",
                None,
                None,
                vec![handler("S0", "go", None, vec![transition(target, 3)], true, 2)],
                1,
            ),
            state(
                "S1",
                None,
                None,
                vec![handler("S1", "go", None, vec![change_state("S0", 6)], false, 5)],
                4,
            ),
        ],
        vec![],
        vec![var_decl("a", num("3"), IdentifierDeclScope::DomainBlock)],
    )
}

#[test]
fn compilation_resolves_and_generates() {
    let mut s = two_states("S1");
    let out = compile_javascript(&mut s, FeatureFlags::all(), false, "v1", vec![]);
    assert!(out.resolution.is_ok());
    let generated = out.generated.unwrap();
    assert_eq!(generated.defects, "");
    assert!(generated.warnings.is_empty());
    let code = generated.code.unwrap();
    assert!(code.starts_with("// v1\n"));
    assert!(code.contains("stateContext = StateContext(_sS1_);\n            _transition_(_sS1_,null,stateContext);"));
    assert!(code.contains("_changeState_(_sS0_);"));
}

#[test]
fn compilation_stops_at_fatal_diagnostics() {
    let mut s = two_states("Nowhere");
    let out = compile_javascript(&mut s, FeatureFlags::all(), false, "v1", vec![]);
    assert!(!out.resolution.is_ok());
    assert_eq!(
        out.resolution.diagnostics,
        vec!["Line 3 : Error: Undeclared state 'Nowhere'.\n"]
    );
    assert!(out.generated.is_none());
}

#[test]
fn generation_reports_the_defects_of_a_tree() {
    let s = system(
        "D",
        vec![],
        vec![state(
            "S0",
            None,
            None,
            vec![handler(
                "S0",
                "go",
                None,
                vec![DeclOrStmtType::StmtT { stmt_t: StatementType::NoStmt }],
                false,
                2,
            )],
            1,
        )],
        vec![],
        vec![],
    );
    let out = generate_javascript(&s, FeatureFlags::all(), false, "v1", vec![]);
    assert!(out.code.is_none());
    assert_eq!(out.defects, "Empty statement.");
}

#[test]
fn comments_are_taken_from_the_tokens_in_their_order() {
    let (_, _, tokens) = Scanner::new("a --- one\n{-- two --} b --- three\n".to_string())
        .scan_checked()
        .unwrap();
    let comments = comments_of(&tokens);
    let texts: Vec<&str> = comments.iter().map(|t| t.lexeme.as_str()).collect();
    assert_eq!(texts, vec!["--- one", "{-- two --}", "--- three"]);
    assert_eq!(comments[1].token_type, TokenType::MultiLineComment);
    assert_eq!(comments[2].line, 2);
}

#[test]
fn comments_of_a_source_come_back_in_the_code() {
    let (_, _, tokens) =
        Scanner::new("--- top\n".to_string()).scan_checked().unwrap();
    let mut s = two_states("S1");
    let out = compile_javascript(&mut s, FeatureFlags::all(), false, "v1", comments_of(&tokens));
    let code = out.generated.unwrap().code.unwrap();
    assert!(code.contains("  //  top\n"));
}

#[test]
fn arguments_decide_the_command() {
    let cli = Cli::new(Some("c.yaml".to_string()), "m.frm".to_string(), "javascript".to_string());
    assert!(!cli.generate_config);
    match run_with(cli) {
        Command::Compile { config, path, language } => {
            assert_eq!(config, Some("c.yaml".to_string()));
            assert_eq!(path, "m.frm");
            assert_eq!(language, "javascript");
        }
        _ => panic!("not a compilation"),
    }
    let config_only = Cli { config: None, generate_config: true, path: None, language: None };
    assert!(matches!(run_with(config_only), Command::GenerateConfig));
    let both = Cli {
        config: None,
        generate_config: true,
        path: Some("m.frm".to_string()),
        language: Some("rust".to_string()),
    };
    assert!(matches!(run_with(both), Command::GenerateConfig));
    let no_language =
        Cli { config: None, generate_config: false, path: Some("m.frm".to_string()), language: None };
    assert!(matches!(run_with(no_language), Command::Incomplete));
}

#[test]
fn selectors_name_the_languages() {
    assert_eq!(target_language("javascript"), Some(TargetLanguage::JavaScript));
    assert_eq!(target_language("c_sharp"), Some(TargetLanguage::CSharp));
    assert_eq!(target_language("cpp"), Some(TargetLanguage::Cpp));
    assert_eq!(target_language("gdscript"), Some(TargetLanguage::Gdscript));
    assert_eq!(target_language("java_8"), Some(TargetLanguage::Java8));
    assert_eq!(target_language("plantuml"), Some(TargetLanguage::PlantUml));
    assert_eq!(target_language("python_3"), Some(TargetLanguage::Python3));
    assert_eq!(target_language("rust"), Some(TargetLanguage::Rust));
    assert_eq!(target_language("smcat"), Some(TargetLanguage::Smcat));
    assert_eq!(target_language("JavaScript"), None);
    assert_eq!(target_language(""), None);
}
