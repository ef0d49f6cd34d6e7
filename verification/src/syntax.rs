//! The green syntax tree that the binder consumes: nodes of a known kind
//! whose children are nodes and tokens in source order.

use vstd::prelude::*;

use crate::source::TextSpan;

verus! {

#[derive(Debug, Clone, Copy, PartialEq, Eq, Structural, Hash)]
pub enum SyntaxKind {
    FormulaRoot,
    GroupingExpr,
    NumberLiteralExpr,
    StringLiteralExpr,
    ArrayLiteralExpr,
    OmittedArgExpr,
    IdentifierExpr,
    QuotedIdentifierExpr,
    QualifiedReferenceExpr,
    RangeExpr,
    UnionExpr,
    IntersectionExpr,
    PrefixExpr,
    PostfixExpr,
    BinaryExpr,
    CallExpr,
    InvokeExpr,
    MissingExpr,
    ArgumentList,
}

#[derive(Debug, Clone, Copy, PartialEq, Eq, Structural, Hash)]
pub enum TokenKind {
    Number,
    String,
    Identifier,
    QuotedIdentifier,
    BracketedQualifier,
    Operator,
    Comma,
    Semicolon,
    Colon,
    Bang,
    OpenParen,
    CloseParen,
    OpenBrace,
    CloseBrace,
    Whitespace,
    Unknown,
}

#[derive(Debug, Clone, PartialEq, Eq, Hash)]
pub struct GreenToken {
    pub kind: TokenKind,
    pub text: String,
    pub span: TextSpan,
}

#[derive(Debug, PartialEq, Eq, Hash)]
pub enum GreenChild {
    Node(Box<GreenNode>),
    Token(GreenToken),
}

#[derive(Debug, PartialEq, Eq, Hash)]
pub struct GreenNode {
    pub kind: SyntaxKind,
    pub span: TextSpan,
    pub children: Vec<GreenChild>,
}

#[derive(Debug, PartialEq, Eq, Hash)]
pub struct GreenTreeRoot {
    pub green_tree_key: String,
    pub root: GreenNode,
}


/// A child node is smaller than its parent.
pub proof fn lemma_child_smaller(node: GreenNode, i: int)
    requires
        0 <= i < node.children@.len(),
        node.children@[i] is Node,
    ensures
        decreases_to!(node => *node.children@[i]->Node_0),
{
    assert(decreases_to!(node => node.children));
    assert(decreases_to!(node.children => node.children@));
    assert(decreases_to!(node.children@ => node.children@[i]));
    assert(decreases_to!(node.children@[i] => node.children@[i]->Node_0));
}

/// Index of the first node child at or after `from`.
pub open spec fn node_index_from(children: Seq<GreenChild>, from: int) -> Option<int>
    decreases children.len() - from,
{
    if from < 0 || from >= children.len() {
        None
    } else if children[from] is Node {
        Some(from)
    } else {
        node_index_from(children, from + 1)
    }
}

pub proof fn lemma_node_index_from(children: Seq<GreenChild>, from: int)
    ensures
        node_index_from(children, from) matches Some(k) ==> from <= k < children.len() && 0 <= from && children[k] is Node
            && forall|j: int| from <= j < k ==> !(children[j] is Node),
        node_index_from(children, from) is None ==> forall|j: int| from <= j < children.len() && 0 <= from ==> !(children[j] is Node),
    decreases children.len() - from,
{
    if 0 <= from < children.len() && !(children[from] is Node) {
        lemma_node_index_from(children, from + 1);
    }
}

/// Index of the first node child.
pub open spec fn first_node_index(node: GreenNode) -> Option<int> {
    node_index_from(node.children@, 0)
}

/// Index of the second node child.
pub open spec fn second_node_index(node: GreenNode) -> Option<int> {
    match first_node_index(node) {
        Some(k) => node_index_from(node.children@, k + 1),
        None => None,
    }
}

/// Number of node children from `from` on.
pub open spec fn node_count_from(children: Seq<GreenChild>, from: int) -> nat
    decreases children.len() - from,
{
    if from < 0 || from >= children.len() {
        0
    } else if children[from] is Node {
        1 + node_count_from(children, from + 1)
    } else {
        node_count_from(children, from + 1)
    }
}

/// Text of the first token child at or after `from`.
pub open spec fn token_text_from(children: Seq<GreenChild>, from: int) -> Option<Seq<char>>
    decreases children.len() - from,
{
    if from < 0 || from >= children.len() {
        None
    } else if children[from] is Token {
        Some(children[from]->Token_0.text@)
    } else {
        token_text_from(children, from + 1)
    }
}

/// Text of the first token child.
pub open spec fn first_token_text_spec(node: GreenNode) -> Option<Seq<char>> {
    token_text_from(node.children@, 0)
}

/// Whether some token child spells exactly `expected`.
pub open spec fn has_token_text(node: GreenNode, expected: Seq<char>) -> bool {
    exists|i: int| 0 <= i < node.children@.len() && (#[trigger] node.children@[i]) is Token
        && node.children@[i]->Token_0.text@ == expected
}


/// Local shape of a node: the operands its kind needs are there.
pub open spec fn shape_ok(node: GreenNode) -> bool {
    match node.kind {
        SyntaxKind::FormulaRoot | SyntaxKind::GroupingExpr | SyntaxKind::PrefixExpr | SyntaxKind::PostfixExpr
        | SyntaxKind::QualifiedReferenceExpr => first_node_index(node) is Some,
        SyntaxKind::BinaryExpr | SyntaxKind::RangeExpr | SyntaxKind::UnionExpr | SyntaxKind::IntersectionExpr
        | SyntaxKind::InvokeExpr => second_node_index(node) is Some,
        _ => true,
    }
}

/// A well-formed tree, as the parser builds it: every node has the operand
/// nodes its kind needs.
pub open spec fn tree_wf(node: GreenNode) -> bool
    decreases node,
{
    &&& shape_ok(node)
    &&& forall|i: int| 0 <= i < node.children@.len() && (#[trigger] node.children@[i]) is Node
        ==> tree_wf(*node.children@[i]->Node_0)
}

/// Position of the first node child.
pub fn first_node_position(node: &GreenNode) -> (r: Option<usize>)
    ensures
        match r {
            Some(k) => first_node_index(*node) == Some(k as int) && k < node.children.len() && node.children@[k as int] is Node,
            None => first_node_index(*node) is None,
        },
{
    node_position_from(node, 0)
}

/// Position of the first node child at or after `from`.
pub fn node_position_from(node: &GreenNode, from: usize) -> (r: Option<usize>)
    ensures
        match r {
            Some(k) => node_index_from(node.children@, from as int) == Some(k as int) && k < node.children.len()
                && node.children@[k as int] is Node,
            None => node_index_from(node.children@, from as int) is None,
        },
    decreases node.children@.len() - from,
{
    if from >= node.children.len() {
        return None;
    }
    match &node.children[from] {
        GreenChild::Node(_) => Some(from),
        GreenChild::Token(_) => node_position_from(node, from + 1),
    }
}

/// Position of the second node child.
pub fn second_node_position(node: &GreenNode) -> (r: Option<usize>)
    ensures
        match r {
            Some(k) => second_node_index(*node) == Some(k as int) && k < node.children.len() && node.children@[k as int] is Node,
            None => second_node_index(*node) is None,
        },
{
    match first_node_position(node) {
        Some(k) => node_position_from(node, k + 1),
        None => None,
    }
}

/// Text of the first token child at or after `from`.
pub fn token_text_position_from(node: &GreenNode, from: usize) -> (r: Option<String>)
    ensures
        match r {
            Some(t) => token_text_from(node.children@, from as int) == Some(t@),
            None => token_text_from(node.children@, from as int) is None,
        },
    decreases node.children@.len() - from,
{
    if from >= node.children.len() {
        return None;
    }
    match &node.children[from] {
        GreenChild::Token(t) => Some(t.text.clone()),
        GreenChild::Node(_) => token_text_position_from(node, from + 1),
    }
}

/// Text of the first token child.
pub fn first_token_text(node: &GreenNode) -> (r: Option<String>)
    ensures
        match r {
            Some(t) => first_token_text_spec(*node) == Some(t@),
            None => first_token_text_spec(*node) is None,
        },
{
    token_text_position_from(node, 0)
}

/// Whether some token child spells exactly `expected`.
pub fn has_token(node: &GreenNode, expected: &str) -> (r: bool)
    ensures
        r == has_token_text(*node, expected@),
{
    let e = crate::text::string_of(&crate::text::chars_of(expected));
    let mut i: usize = 0;
    while i < node.children.len()
        invariant
            i <= node.children@.len(),
            e@ == expected@,
            forall|j: int| 0 <= j < i ==> !((#[trigger] node.children@[j]) is Token && node.children@[j]->Token_0.text@ == expected@),
        decreases node.children.len() - i,
    {
        match &node.children[i] {
            GreenChild::Token(t) => {
                if t.text == e {
                    return true;
                }
            },
            GreenChild::Node(_) => {},
        }
        i = i + 1;
    }
    false
}

} // verus!
