//! From a syntax tree to target code: resolution, then generation.

use crate::ast::SystemNode;
use crate::javascript_text::{Gen, Setup, joined, system};
use crate::javascript_visitor::JavaScriptVisitor;
use crate::resolver::{Resolution, resolve};
use crate::runtime::name_views;
use crate::scopes::{declared_by, found_system, tagged_system};
use crate::symbol_table::{Arcanum, event_views, events_of, symbol_of_state};
use crate::text::same_text;
use crate::token::{Token, TokenType, token_views};
use vstd::prelude::*;

verus! {

/// Which parts of the machinery are generated.
#[derive(Copy, Clone, Debug, PartialEq, Eq, Structural)]
pub struct FeatureFlags {
    pub generate_exit_args: bool,
    pub generate_state_context: bool,
    pub generate_state_stack: bool,
    pub generate_change_state: bool,
    pub generate_transition_state: bool,
}

impl FeatureFlags {
    /// Every part of the machinery.
    pub fn all() -> (flags: FeatureFlags)
        ensures
            flags == (FeatureFlags {
                generate_exit_args: true,
                generate_state_context: true,
                generate_state_stack: true,
                generate_change_state: true,
                generate_transition_state: true,
            }),
    {
        FeatureFlags {
            generate_exit_args: true,
            generate_state_context: true,
            generate_state_stack: true,
            generate_change_state: true,
            generate_transition_state: true,
        }
    }
}

/// The flags after the flag named `name` was given the value `value`; the
/// flags unchanged if no flag has that name.
pub open spec fn with_flag(flags: FeatureFlags, name: Seq<char>, value: bool) -> FeatureFlags {
    if name == "generate_exit_args"@ {
        FeatureFlags { generate_exit_args: value, ..flags }
    } else if name == "generate_state_context"@ {
        FeatureFlags { generate_state_context: value, ..flags }
    } else if name == "generate_state_stack"@ {
        FeatureFlags { generate_state_stack: value, ..flags }
    } else if name == "generate_change_state"@ {
        FeatureFlags { generate_change_state: value, ..flags }
    } else if name == "generate_transition_state"@ {
        FeatureFlags { generate_transition_state: value, ..flags }
    } else {
        flags
    }
}

/// Whether a flag is named `name`.
pub open spec fn is_flag(name: Seq<char>) -> bool {
    name == "generate_exit_args"@ || name == "generate_state_context"@ || name
        == "generate_state_stack"@ || name == "generate_change_state"@ || name
        == "generate_transition_state"@
}

impl FeatureFlags {
    /// Gives the flag named `name` the value `value`; returns whether there
    /// is such a flag.
    pub fn set(&mut self, name: &str, value: bool) -> (known: bool)
        ensures
            known == is_flag(name@),
            *final(self) == with_flag(*old(self), name@, value),
    {
        if same_text(name, "generate_exit_args") {
            self.generate_exit_args = value;
            true
        } else if same_text(name, "generate_state_context") {
            self.generate_state_context = value;
            true
        } else if same_text(name, "generate_state_stack") {
            self.generate_state_stack = value;
            true
        } else if same_text(name, "generate_change_state") {
            self.generate_change_state = value;
            true
        } else if same_text(name, "generate_transition_state") {
            self.generate_transition_state = value;
            true
        } else {
            false
        }
    }
}

/// Whether a token is a comment.
pub open spec fn is_comment(kind: TokenType) -> bool {
    kind == TokenType::SingleLineComment || kind == TokenType::MultiLineComment
}

/// The comments among the first `n` tokens.
pub open spec fn comments_among(tokens: Seq<Token>, n: nat) -> Seq<Token>
    decreases n,
{
    if n == 0 || n > tokens.len() {
        Seq::empty()
    } else if is_comment(tokens[n - 1].token_type) {
        comments_among(tokens, (n - 1) as nat).push(tokens[n - 1])
    } else {
        comments_among(tokens, (n - 1) as nat)
    }
}

/// The comments of a scanned source, in their order: what a generator
/// writes back out beside the code of their lines.
pub fn comments_of(tokens: &Vec<Token>) -> (comments: Vec<Token>)
    ensures
        token_views(comments@) == token_views(comments_among(tokens@, tokens@.len())),
{
    let mut comments: Vec<Token> = Vec::new();
    let mut i: usize = 0;
    assert(token_views(comments@) =~= token_views(comments_among(tokens@, 0)));
    while i < tokens.len()
        invariant
            i <= tokens@.len(),
            token_views(comments@) == token_views(comments_among(tokens@, i as nat)),
        decreases tokens@.len() - i,
    {
        let keep = match tokens[i].token_type {
            TokenType::SingleLineComment => true,
            TokenType::MultiLineComment => true,
            _ => false,
        };
        if keep {
            let ghost before = comments@;
            comments.push(tokens[i].duplicate());
            assert(token_views(comments@) =~= token_views(
                comments_among(tokens@, i as nat),
            ).push(tokens@[i as int]@));
            assert(token_views(comments_among(tokens@, (i + 1) as nat)) =~= token_views(
                comments_among(tokens@, i as nat),
            ).push(tokens@[i as int]@));
        }
        i += 1;
    }
    comments
}

/// Whether `s` is the setup of a generator for `node`: the symbols of the
/// states and events of `node`, and what the caller chose.
pub open spec fn setup_for(
    s: Setup,
    node: SystemNode,
    flags: FeatureFlags,
    serializable: bool,
    version: Seq<char>,
    comments: Seq<Token>,
) -> bool {
    &&& s.version == version
    &&& s.comments == token_views(comments)
    &&& s.serializable == serializable
    &&& s.exit_args == flags.generate_exit_args
    &&& s.state_context == flags.generate_state_context
    &&& s.state_stack == flags.generate_state_stack
    &&& s.change_state == flags.generate_change_state
    &&& s.transition_state == flags.generate_transition_state
    &&& event_views(s.events) == events_of(node)
    &&& match node.machine_block_node_opt {
        Some(b) => s.states.len() == b.states@.len() && forall|i: int|
            0 <= i < b.states@.len() ==> symbol_of_state(#[trigger] s.states[i], b.states@[i]),
        None => s.states.len() == 0,
    }
}

/// What a generator has got to before it writes anything.
pub open spec fn blank_page() -> Gen {
    Gen {
        code: Seq::empty(),
        dent: 0,
        cursor: 0,
        state: None,
        first_handler: true,
        warnings: Seq::empty(),
        errors: Seq::empty(),
    }
}

/// What a generator gives.
#[derive(Debug)]
pub struct Generated {
    /// The target code, if the generator found no defect in the tree.
    pub code: Option<std::string::String>,
    /// The defects that the generator found, one behind the other.
    pub defects: std::string::String,
    /// The warnings of the generator.
    pub warnings: Vec<std::string::String>,
}

/// Whether `out` holds what a generator with the setup `s` writes for
/// `node`: its code if it found no defect, its defects and its warnings.
pub open spec fn generated(
    s: Setup,
    node: SystemNode,
    flags: FeatureFlags,
    serializable: bool,
    version: Seq<char>,
    comments: Seq<Token>,
    out: Generated,
) -> bool {
    let g = system(blank_page(), s, node);
    &&& setup_for(s, node, flags, serializable, version, comments)
    &&& name_views(out.warnings@) == g.warnings
    &&& out.code.is_some() == (g.errors.len() == 0)
    &&& out.code matches Some(code) ==> code@ == g.code
    &&& out.defects@ == joined(g.errors, g.errors.len())
}

/// Generates the JavaScript of a resolved tree.
pub fn generate_javascript(
    node: &SystemNode,
    flags: FeatureFlags,
    serializable: bool,
    version: &str,
    comments: Vec<Token>,
) -> (out: Generated)
    ensures
        exists|s: Setup| #[trigger]
            generated(s, *node, flags, serializable, version@, comments@, out),
{
    let arcanum = Arcanum::new(node, serializable);
    let mut visitor = JavaScriptVisitor::new(
        arcanum,
        flags.generate_exit_args,
        flags.generate_state_context,
        flags.generate_state_stack,
        flags.generate_change_state,
        flags.generate_transition_state,
        version,
        comments,
    );
    let ghost s = visitor.setup();
    visitor.run(node);
    let defective = visitor.has_defects();
    let text = visitor.get_code();
    let warnings = copy_texts(visitor.get_warnings());
    let out = if defective {
        Generated { code: None, defects: text, warnings }
    } else {
        Generated { code: Some(text), defects: std::string::String::new(), warnings }
    };
    proof {
        assert(joined(Seq::<Seq<char>>::empty(), 0) =~= Seq::empty());
        assert(generated(s, *node, flags, serializable, version@, comments@, out));
    }
    out
}

/// A copy of the texts.
fn copy_texts(texts: &Vec<std::string::String>) -> (copy: Vec<std::string::String>)
    ensures
        name_views(copy@) == name_views(texts@),
{
    let mut copy: Vec<std::string::String> = Vec::new();
    let mut i: usize = 0;
    while i < texts.len()
        invariant
            i <= texts@.len(),
            copy@.len() == i,
            forall|j: int| 0 <= j < i ==> copy@[j]@ == texts@[j]@,
        decreases texts@.len() - i,
    {
        copy.push(texts[i].clone());
        i += 1;
    }
    assert(name_views(copy@) =~= name_views(texts@));
    copy
}

/// What a compilation gives.
#[derive(Debug)]
pub struct Compilation {
    /// What resolution found.
    pub resolution: Resolution,
    /// What was generated, if resolution found nothing fatal.
    pub generated: Option<Generated>,
}

/// Compiles `node` to JavaScript: resolves it and, if nothing fatal was
/// found, generates the code of the resolved tree.
pub fn compile_javascript(
    node: &mut SystemNode,
    flags: FeatureFlags,
    serializable: bool,
    version: &str,
    comments: Vec<Token>,
) -> (out: Compilation)
    ensures
        declared_by(out.resolution.declarations, *old(node)),
        tagged_system(out.resolution.declarations, *old(node), *final(node)),
        out.resolution.findings() == found_system(out.resolution.declarations, *old(node)),
        out.generated.is_some() == (out.resolution.findings().diagnostics.len() == 0),
        out.generated matches Some(result) ==> exists|s: Setup| #[trigger]
            generated(s, *final(node), flags, serializable, version@, comments@, result),
{
    let resolution = resolve(node);
    if resolution.is_ok() {
        let result = generate_javascript(node, flags, serializable, version, comments);
        Compilation { resolution, generated: Some(result) }
    } else {
        Compilation { resolution, generated: None }
    }
}

} // verus!
