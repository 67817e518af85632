//! The syntax tree of a Frame specification.
//!
//! A parent owns its children. A reference from one part of the tree to
//! another (the target of a transition, the state that events are passed on
//! to) is a name, which the symbol table resolves.

use crate::token::{Token, TokenType};
use vstd::prelude::*;

verus! {

/// The scope in which an identifier was declared.
#[derive(Copy, Clone, Debug, PartialEq, Eq, Structural)]
pub enum IdentifierDeclScope {
    /// Not resolved, or declared outside the specification.
    Unresolved,
    InterfaceBlock,
    DomainBlock,
    ActionsBlock,
    StateParam,
    StateVar,
    EventHandlerParam,
    EventHandlerVar,
}

/// The operators of expressions.
#[derive(Copy, Clone, Debug, PartialEq, Eq, Structural)]
pub enum OperatorType {
    Plus,
    Minus,
    Negated,
    Multiply,
    Divide,
    Greater,
    GreaterEqual,
    Less,
    LessEqual,
    Not,
    EqualEqual,
    NotEqual,
    LogicalAnd,
    LogicalOr,
    LogicalXor,
}

/// How a handler or a branch ends.
#[derive(Copy, Clone, Debug, PartialEq, Eq, Structural)]
pub enum TerminatorType {
    Return,
    Continue,
}

/// The two operations on the state stack.
#[derive(Copy, Clone, Debug, PartialEq, Eq, Structural)]
pub enum StateStackOperationType {
    Push,
    Pop,
}

#[derive(Debug)]
pub struct TypeNode {
    pub is_superstring: bool,
    pub is_reference: bool,
    pub type_str: std::string::String,
}

#[derive(Debug)]
pub struct ParameterNode {
    pub param_name: std::string::String,
    pub param_type_opt: Option<TypeNode>,
    pub scope: IdentifierDeclScope,
}

#[derive(Debug)]
pub struct MessageNode {
    pub name: std::string::String,
    pub line: usize,
}

#[derive(Debug)]
pub struct IdentifierNode {
    pub name: Token,
    pub scope: IdentifierDeclScope,
    pub is_reference: bool,
    pub line: usize,
}

/// A reference to a variable or parameter. `scope` is the tag that
/// resolution gives it.
#[derive(Debug)]
pub struct VariableNode {
    pub id_node: IdentifierNode,
    pub scope: IdentifierDeclScope,
}

#[derive(Debug)]
pub struct LiteralExprNode {
    pub token_t: TokenType,
    pub value: std::string::String,
}

/// A part of the event that is being handled.
#[derive(Debug)]
pub enum FrameEventPart {
    Event { is_reference: bool },
    Message { is_reference: bool },
    Param { param_tok: Token, is_reference: bool },
    Return { is_reference: bool },
}

#[derive(Debug)]
pub struct StateStackOperationNode {
    pub operation_t: StateStackOperationType,
}

#[derive(Debug)]
pub struct CallExprListNode {
    pub exprs_t: Vec<ExprType>,
}

#[derive(Debug)]
pub struct ExprListNode {
    pub exprs_t: Vec<ExprType>,
}

#[derive(Debug)]
pub struct CallExprNode {
    pub identifier: IdentifierNode,
    pub call_expr_list: CallExprListNode,
}

#[derive(Debug)]
pub struct ActionCallExprNode {
    pub identifier: IdentifierNode,
    pub call_expr_list: CallExprListNode,
}

#[derive(Debug)]
pub struct InterfaceMethodCallExprNode {
    pub identifier: IdentifierNode,
    pub call_expr_list: CallExprListNode,
}

/// One link of a chain `a.b(c).d`.
#[derive(Debug)]
pub enum CallChainLiteralNodeType {
    VariableNodeT { var_node: VariableNode },
    IdentifierNodeT { id_node: IdentifierNode },
    CallT { call: CallExprNode },
    InterfaceMethodCallT { interface_method_call_expr_node: InterfaceMethodCallExprNode },
    ActionCallT { action_call_expr_node: ActionCallExprNode },
}

#[derive(Debug)]
pub struct CallChainLiteralExprNode {
    pub call_chain: Vec<CallChainLiteralNodeType>,
}

#[derive(Debug)]
pub struct AssignmentExprNode {
    pub l_value_box: Box<ExprType>,
    pub r_value_box: Box<ExprType>,
    pub line: usize,
}

#[derive(Debug)]
pub struct UnaryExprNode {
    pub operator: OperatorType,
    pub right: Box<ExprType>,
}

#[derive(Debug)]
pub struct BinaryExprNode {
    pub left: Box<ExprType>,
    pub operator: OperatorType,
    pub right: Box<ExprType>,
}

/// An expression.
#[derive(Debug)]
pub enum ExprType {
    AssignmentExprT { assignment_expr_node: AssignmentExprNode },
    ActionCallExprT { action_call_expr_node: ActionCallExprNode },
    CallChainLiteralExprT { call_chain_expr_node: CallChainLiteralExprNode },
    CallExprT { call_expr_node: CallExprNode },
    CallExprListT { call_expr_list_node: CallExprListNode },
    ExprListT { expr_list_node: ExprListNode },
    VariableExprT { var_node: VariableNode },
    LiteralExprT { literal_expr_node: LiteralExprNode },
    StateStackOperationExprT { state_stack_op_node: StateStackOperationNode },
    FrameEventExprT { frame_event_part: FrameEventPart },
    UnaryExprT { unary_expr_node: UnaryExprNode },
    BinaryExprT { binary_expr_node: BinaryExprNode },
}

#[derive(Debug)]
pub struct VariableDeclNode {
    pub name: std::string::String,
    pub type_opt: Option<TypeNode>,
    pub is_constant: bool,
    pub initializer_expr_t_opt: Option<ExprType>,
    pub identifier_decl_scope: IdentifierDeclScope,
}

#[derive(Debug)]
pub struct TerminatorExpr {
    pub terminator_type: TerminatorType,
    pub return_expr_t_opt: Option<ExprType>,
    pub line: usize,
}

#[derive(Debug)]
pub struct StateRefNode {
    pub name: std::string::String,
}

/// The target of a transition: a state, with the arguments for its
/// parameters and for its enter handler.
#[derive(Debug)]
pub struct StateContextNode {
    pub state_ref_node: StateRefNode,
    pub state_ref_args_opt: Option<ExprListNode>,
    pub enter_args_opt: Option<ExprListNode>,
}

/// Where a transition or a change of state leads.
#[derive(Debug)]
pub enum StateContextType {
    StateRef { state_context_node: StateContextNode },
    /// The state that is on top of the state stack.
    StateStackPop,
}

#[derive(Debug)]
pub struct TransitionStatementNode {
    pub target_state_context_t: StateContextType,
    pub exit_args_opt: Option<ExprListNode>,
    pub label_opt: Option<std::string::String>,
    pub line: usize,
}

#[derive(Debug)]
pub struct ChangeStateStatementNode {
    pub state_context_t: StateContextType,
    pub label_opt: Option<std::string::String>,
    pub line: usize,
}

#[derive(Debug)]
pub struct StateStackOperationStatementNode {
    pub state_stack_operation_node: StateStackOperationNode,
}

#[derive(Debug)]
pub struct CallStmtNode {
    pub call_expr_node: CallExprNode,
}

#[derive(Debug)]
pub struct ActionCallStmtNode {
    pub action_call_expr_node: ActionCallExprNode,
}

#[derive(Debug)]
pub struct CallChainLiteralStmtNode {
    pub call_chain_literal_expr_node: CallChainLiteralExprNode,
}

#[derive(Debug)]
pub struct AssignmentStmtNode {
    pub assignment_expr_node: AssignmentExprNode,
}

#[derive(Debug)]
pub struct VariableStmtNode {
    pub var_node: VariableNode,
}

#[derive(Debug)]
pub enum ExprStmtType {
    CallStmtT { call_stmt_node: CallStmtNode },
    ActionCallStmtT { action_call_stmt_node: ActionCallStmtNode },
    CallChainLiteralStmtT { call_chain_literal_stmt_node: CallChainLiteralStmtNode },
    AssignmentStmtT { assignment_stmt_node: AssignmentStmtNode },
    VariableStmtT { variable_stmt_node: VariableStmtNode },
}

#[derive(Debug)]
pub struct BoolTestConditionalBranchNode {
    pub is_negated: bool,
    pub expr_t: ExprType,
    pub statements: Vec<DeclOrStmtType>,
    pub branch_terminator_expr_opt: Option<TerminatorExpr>,
}

#[derive(Debug)]
pub struct BoolTestElseBranchNode {
    pub statements: Vec<DeclOrStmtType>,
    pub branch_terminator_expr_opt: Option<TerminatorExpr>,
}

#[derive(Debug)]
pub struct BoolTestNode {
    pub conditional_branch_nodes: Vec<BoolTestConditionalBranchNode>,
    pub else_branch_node_opt: Option<BoolTestElseBranchNode>,
}

#[derive(Debug)]
pub struct StringMatchTestPatternNode {
    pub match_pattern_strings: Vec<std::string::String>,
}

#[derive(Debug)]
pub struct StringMatchTestMatchBranchNode {
    pub string_match_pattern_node: StringMatchTestPatternNode,
    pub statements: Vec<DeclOrStmtType>,
    pub branch_terminator_expr_opt: Option<TerminatorExpr>,
}

#[derive(Debug)]
pub struct StringMatchTestElseBranchNode {
    pub statements: Vec<DeclOrStmtType>,
    pub branch_terminator_expr_opt: Option<TerminatorExpr>,
}

#[derive(Debug)]
pub struct StringMatchTestNode {
    pub expr_t: ExprType,
    pub match_branch_nodes: Vec<StringMatchTestMatchBranchNode>,
    pub else_branch_node_opt: Option<StringMatchTestElseBranchNode>,
}

/// One alternative of a number pattern, as the numeral that was written.
#[derive(Debug)]
pub struct NumberMatchTestPatternNode {
    pub match_pattern_number: std::string::String,
}

#[derive(Debug)]
pub struct NumberMatchTestMatchBranchNode {
    pub number_match_pattern_nodes: Vec<NumberMatchTestPatternNode>,
    pub statements: Vec<DeclOrStmtType>,
    pub branch_terminator_expr_opt: Option<TerminatorExpr>,
}

#[derive(Debug)]
pub struct NumberMatchTestElseBranchNode {
    pub statements: Vec<DeclOrStmtType>,
    pub branch_terminator_expr_opt: Option<TerminatorExpr>,
}

#[derive(Debug)]
pub struct NumberMatchTestNode {
    pub expr_t: ExprType,
    pub match_branch_nodes: Vec<NumberMatchTestMatchBranchNode>,
    pub else_branch_node_opt: Option<NumberMatchTestElseBranchNode>,
}

#[derive(Debug)]
pub enum TestType {
    BoolTest { bool_test_node: BoolTestNode },
    StringMatchTest { string_match_test_node: StringMatchTestNode },
    NumberMatchTest { number_match_test_node: NumberMatchTestNode },
}

#[derive(Debug)]
pub struct TestStatementNode {
    pub test_t: TestType,
}

/// A statement.
#[derive(Debug)]
pub enum StatementType {
    ExpressionStmt { expr_stmt_t: ExprStmtType },
    TransitionStmt { transition_statement: TransitionStatementNode },
    TestStmt { test_stmt_node: TestStatementNode },
    StateStackStmt { state_stack_operation_statement_node: StateStackOperationStatementNode },
    ChangeStateStmt { change_state_stmt: ChangeStateStatementNode },
    NoStmt,
}

/// A declaration of a local variable, or a statement.
#[derive(Debug)]
pub enum DeclOrStmtType {
    VarDeclT { var_decl_t: VariableDeclNode },
    StmtT { stmt_t: StatementType },
}

/// The message that a handler reacts to.
#[derive(Debug)]
pub enum MessageType {
    CustomMessage { message_node: MessageNode },
    /// `||*`: any message.
    AnyMessage { line: usize },
}

#[derive(Debug)]
pub struct EventHandlerNode {
    pub state_name: std::string::String,
    pub msg_t: MessageType,
    /// The parameters that the handler declares for its event.
    pub params_opt: Option<Vec<ParameterNode>>,
    pub statements: Vec<DeclOrStmtType>,
    pub terminator_node: TerminatorExpr,
    pub event_handler_has_transition: bool,
    pub line: usize,
}

/// The state that a state passes unhandled events on to.
#[derive(Debug)]
pub struct DispatchNode {
    pub target_state_ref: StateRefNode,
    pub line: usize,
}

#[derive(Debug)]
pub struct StateNode {
    pub name: std::string::String,
    pub params_opt: Option<Vec<ParameterNode>>,
    pub vars_opt: Option<Vec<VariableDeclNode>>,
    pub calls_opt: Option<Vec<CallChainLiteralExprNode>>,
    pub evt_handlers: Vec<EventHandlerNode>,
    pub dispatch_opt: Option<DispatchNode>,
    pub line: usize,
}

#[derive(Debug)]
pub struct InterfaceMethodNode {
    pub name: std::string::String,
    pub params: Option<Vec<ParameterNode>>,
    pub return_type_opt: Option<TypeNode>,
    pub alias: Option<MessageNode>,
}

#[derive(Debug)]
pub struct ActionNode {
    pub name: std::string::String,
    pub params: Option<Vec<ParameterNode>>,
    pub type_opt: Option<TypeNode>,
    pub code_opt: Option<std::string::String>,
}

#[derive(Debug)]
pub struct InterfaceBlockNode {
    pub interface_methods: Vec<InterfaceMethodNode>,
}

#[derive(Debug)]
pub struct MachineBlockNode {
    pub states: Vec<StateNode>,
}

#[derive(Debug)]
pub struct ActionsBlockNode {
    pub actions: Vec<ActionNode>,
}

#[derive(Debug)]
pub struct DomainBlockNode {
    pub member_variables: Vec<VariableDeclNode>,
}

/// The root of the tree: one system.
#[derive(Debug)]
pub struct SystemNode {
    pub name: std::string::String,
    pub interface_block_node_opt: Option<InterfaceBlockNode>,
    pub machine_block_node_opt: Option<MachineBlockNode>,
    pub actions_block_node_opt: Option<ActionsBlockNode>,
    pub domain_block_node_opt: Option<DomainBlockNode>,
    pub line: usize,
}

impl SystemNode {
    /// The first state that the machine block declares.
    pub open spec fn first_state(&self) -> Option<StateNode> {
        match self.machine_block_node_opt {
            Some(machine) => if machine.states@.len() > 0 {
                Some(machine.states@[0])
            } else {
                None
            },
            None => None,
        }
    }

    /// The first state that the machine block declares.
    pub fn get_first_state(&self) -> (state: Option<&StateNode>)
        ensures
            state.is_some() == self.first_state().is_some(),
            state matches Some(s) ==> self.first_state() == Some(*s),
    {
        match &self.machine_block_node_opt {
            Some(machine) => if machine.states.len() > 0 {
                Some(&machine.states[0])
            } else {
                None
            },
            None => None,
        }
    }
}

} // verus!
