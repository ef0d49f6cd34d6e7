//! Composing the formula text that refers to a host name, a collection
//! member or a structural selector.

use vstd::prelude::*;

use crate::binding::binder_spec::is_error_literal;
use crate::consumer::editor::types::{EditorHostReferenceInsertionError, EditorHostReferenceTarget};
use crate::text::{
    char_is_alnum, char_is_alpha, chars_eq, chars_of, is_alnum, is_alpha, push_chars, push_str, string_of, to_upper,
    upper_seq,
};

verus! {

/// A host collection member the host's reference syntax spells with a token.
#[derive(Debug, Clone, PartialEq, Eq, Hash)]
pub struct HostCollectionMemberSyntax {
    pub collection_family: String,
    pub token_text: String,
}

/// A structural selector the host's reference syntax spells with a token.
#[derive(Debug, Clone, PartialEq, Eq, Hash)]
pub struct HostStructuralSelectorSyntax {
    pub selector_family: String,
    pub token_text: String,
}

/// The tokens a host's reference syntax uses for members and selectors.
#[derive(Debug, Clone, PartialEq, Eq, Hash)]
pub struct HostReferenceSyntaxProfile {
    pub collection_members: Vec<HostCollectionMemberSyntax>,
    pub structural_selectors: Vec<HostStructuralSelectorSyntax>,
}

/// A name that stands bare: a letter, `_` or `$`, then letters, digits, `_` or `$`.
pub open spec fn plain_host_name(name: Seq<char>) -> bool {
    &&& name.len() > 0
    &&& is_alpha(name[0]) || name[0] == '_' || name[0] == '$'
    &&& forall|i: int| 1 <= i < name.len() ==> (is_alnum(#[trigger] name[i]) || name[i] == '_' || name[i] == '$')
}

/// A name that formula text reads as a literal: a logical or an error value.
pub open spec fn formula_literal(name: Seq<char>) -> bool {
    upper_seq(name) == "TRUE"@ || upper_seq(name) == "FALSE"@ || is_error_literal(name)
}

/// Characters that brackets escape with a quote.
pub open spec fn needs_escape(c: char) -> bool {
    c == '#' || c == '[' || c == ']' || c == '@' || c == '\''
}

/// `text` with a quote before every character that needs one.
pub open spec fn escape_spec(text: Seq<char>) -> Seq<char>
    decreases text.len(),
{
    if text.len() == 0 {
        Seq::empty()
    } else {
        escape_spec(text.drop_last()) + if needs_escape(text.last()) { seq!['\'', text.last()] } else { seq![text.last()] }
    }
}

/// What the composition of a host name gives.
pub enum ComposedText {
    Text(Seq<char>),
    EmptyHostName,
    EmptySelectorFamily,
    UnknownCollectionFamily(Seq<char>),
    UnknownStructuralSelectorFamily(Seq<char>),
}

/// A host name as formula text: bare when it can be, bracketed and escaped otherwise.
pub open spec fn host_name_spec(name: Seq<char>) -> ComposedText {
    if name.len() == 0 {
        ComposedText::EmptyHostName
    } else if plain_host_name(name) && !formula_literal(name) {
        ComposedText::Text(name)
    } else {
        ComposedText::Text("["@ + escape_spec(name) + "]"@)
    }
}

/// A member selector token: `*` and `@`-prefixed tokens stand as they are,
/// others get an `@`.
pub open spec fn member_token_spec(token: Seq<char>) -> Seq<char> {
    if token == "*"@ || (token.len() > 0 && token[0] == '@') {
        token
    } else {
        "@"@ + token
    }
}

/// A selector relative to the owner: `*` becomes `.*`.
pub open spec fn owner_relative_token_spec(token: Seq<char>) -> Seq<char> {
    if token == "*"@ {
        ".*"@
    } else {
        member_token_spec(token)
    }
}

/// The first member token of a collection family.
pub open spec fn member_token_of(profile: HostReferenceSyntaxProfile, family: Seq<char>) -> Option<Seq<char>> {
    match crate::binding::structured::first_where(profile.collection_members@, member_pred(family)) {
        Some(i) => Some(profile.collection_members@[i].token_text@),
        None => None,
    }
}

pub open spec fn member_pred(family: Seq<char>) -> spec_fn(HostCollectionMemberSyntax) -> bool {
    |m: HostCollectionMemberSyntax| m.collection_family@ == family
}

pub open spec fn selector_pred(family: Seq<char>) -> spec_fn(HostStructuralSelectorSyntax) -> bool {
    |m: HostStructuralSelectorSyntax| m.selector_family@ == family
}

/// The first selector token of a selector family.
pub open spec fn selector_token_of(profile: HostReferenceSyntaxProfile, family: Seq<char>) -> Option<Seq<char>> {
    match crate::binding::structured::first_where(profile.structural_selectors@, selector_pred(family)) {
        Some(i) => Some(profile.structural_selectors@[i].token_text@),
        None => None,
    }
}

/// `base.selector`, with the base composed as a host name.
pub open spec fn qualified_spec(base: Seq<char>, selector: Seq<char>) -> ComposedText {
    match host_name_spec(base) {
        ComposedText::Text(b) => ComposedText::Text(b + "."@ + selector),
        other => other,
    }
}

/// The formula text of a host reference target.
pub open spec fn host_reference_text_spec(target: EditorHostReferenceTarget, profile: HostReferenceSyntaxProfile) -> ComposedText {
    match target {
        EditorHostReferenceTarget::HostName { canonical_name } => host_name_spec(canonical_name@),
        EditorHostReferenceTarget::HostReferenceCollection { base_canonical_name, collection_family } => {
            if collection_family@.len() == 0 {
                ComposedText::EmptySelectorFamily
            } else {
                match member_token_of(profile, collection_family@) {
                    None => ComposedText::UnknownCollectionFamily(collection_family@),
                    Some(token) => match base_canonical_name {
                        Some(base) => qualified_spec(base@, member_token_spec(token)),
                        None => ComposedText::Text(owner_relative_token_spec(token)),
                    },
                }
            }
        },
        EditorHostReferenceTarget::HostStructuralSelector { base_canonical_name, selector_family } => {
            if selector_family@.len() == 0 {
                ComposedText::EmptySelectorFamily
            } else {
                match selector_token_of(profile, selector_family@) {
                    None => ComposedText::UnknownStructuralSelectorFamily(selector_family@),
                    Some(token) => qualified_spec(base_canonical_name@, member_token_spec(token)),
                }
            }
        },
    }
}

/// The composed text, or the error, of a result.
pub open spec fn composed_of(r: Result<String, EditorHostReferenceInsertionError>) -> ComposedText {
    match r {
        Ok(s) => ComposedText::Text(s@),
        Err(EditorHostReferenceInsertionError::EmptyHostName) => ComposedText::EmptyHostName,
        Err(EditorHostReferenceInsertionError::EmptySelectorFamily) => ComposedText::EmptySelectorFamily,
        Err(EditorHostReferenceInsertionError::UnknownCollectionFamily(f)) => ComposedText::UnknownCollectionFamily(f@),
        Err(EditorHostReferenceInsertionError::UnknownStructuralSelectorFamily(f)) => ComposedText::UnknownStructuralSelectorFamily(f@),
    }
}

/// Whether a name stands bare in formula text.
pub fn is_plain_host_name_identifier(name: &[char]) -> (r: bool)
    ensures
        r == plain_host_name(name@),
{
    if name.len() == 0 {
        return false;
    }
    let first = name[0];
    if !(char_is_alpha(first) || first == '_' || first == '$') {
        return false;
    }
    let mut i: usize = 1;
    while i < name.len()
        invariant
            1 <= i <= name@.len(),
            forall|j: int| 1 <= j < i ==> (is_alnum(#[trigger] name@[j]) || name@[j] == '_' || name@[j] == '$'),
        decreases name.len() - i,
    {
        let c = name[i];
        if !(char_is_alnum(c) || c == '_' || c == '$') {
            assert(!(is_alnum(name@[i as int]) || name@[i as int] == '_' || name@[i as int] == '$'));
            return false;
        }
        i = i + 1;
    }
    true
}

/// Whether formula text reads a name as a logical or error literal.
pub fn is_formula_literal_identifier(name: &[char]) -> (r: bool)
    ensures
        r == formula_literal(name@),
{
    let u = to_upper(name);
    chars_eq(&u, &chars_of("TRUE")) || chars_eq(&u, &chars_of("FALSE")) || crate::binding::binder::is_worksheet_error_literal(name)
}

/// Quotes every `#`, `[`, `]`, `@` and `'`.
pub fn escape_bracketed_host_reference_text(text: &[char]) -> (r: Vec<char>)
    ensures
        r@ == escape_spec(text@),
{
    let mut out: Vec<char> = Vec::new();
    let mut i: usize = 0;
    assert(text@.take(0) =~= Seq::<char>::empty());
    while i < text.len()
        invariant
            i <= text@.len(),
            out@ == escape_spec(text@.take(i as int)),
        decreases text.len() - i,
    {
        let c = text[i];
        let ghost before = out@;
        if c == '#' || c == '[' || c == ']' || c == '@' || c == '\'' {
            out.push('\'');
        }
        out.push(c);
        assert(text@.take(i + 1).drop_last() =~= text@.take(i as int));
        i = i + 1;
        assert(out@ =~= escape_spec(text@.take(i as int)));
    }
    assert(text@.take(text@.len() as int) =~= text@);
    out
}

/// A host name as formula text.
pub fn compose_host_name(name: &[char]) -> (r: Result<String, EditorHostReferenceInsertionError>)
    ensures
        composed_of(r) == host_name_spec(name@),
{
    if name.len() == 0 {
        return Err(EditorHostReferenceInsertionError::EmptyHostName);
    }
    if is_plain_host_name_identifier(name) && !is_formula_literal_identifier(name) {
        Ok(string_of(name))
    } else {
        let mut v: Vec<char> = Vec::new();
        push_str(&mut v, "[");
        let e = escape_bracketed_host_reference_text(name);
        push_chars(&mut v, &e);
        push_str(&mut v, "]");
        Ok(string_of(&v))
    }
}

/// A member selector token.
pub fn compose_member_selector_token(token: &[char]) -> (r: Vec<char>)
    ensures
        r@ == member_token_spec(token@),
{
    if chars_eq(token, &chars_of("*")) || (token.len() > 0 && token[0] == '@') {
        crate::text::copy_chars(token)
    } else {
        let mut v: Vec<char> = Vec::new();
        push_str(&mut v, "@");
        push_chars(&mut v, token);
        v
    }
}

/// A selector relative to its owner.
pub fn compose_owner_relative_selector_token(token: &[char]) -> (r: Vec<char>)
    ensures
        r@ == owner_relative_token_spec(token@),
{
    if chars_eq(token, &chars_of("*")) {
        chars_of(".*")
    } else {
        compose_member_selector_token(token)
    }
}

fn member_token_position(profile: &HostReferenceSyntaxProfile, family: &String) -> (r: Option<usize>)
    ensures
        match r {
            Some(i) => i < profile.collection_members@.len()
                && member_token_of(*profile, family@) == Some(profile.collection_members@[i as int].token_text@),
            None => member_token_of(*profile, family@) is None,
        },
{
    let members = &profile.collection_members;
    let ghost p = member_pred(family@);
    let mut i: usize = 0;
    while i < members.len()
        invariant
            i <= members@.len(),
            members@ == profile.collection_members@,
            p == member_pred(family@),
            forall|j: int| 0 <= j < i ==> !p(#[trigger] members@[j]),
        decreases members.len() - i,
    {
        if members[i].collection_family == *family {
            proof { crate::binding::structured::lemma_first_where_at(members@, p, i as int); }
            return Some(i);
        }
        i = i + 1;
    }
    proof { crate::binding::structured::lemma_first_where_none(members@, p); }
    None
}

fn selector_token_position(profile: &HostReferenceSyntaxProfile, family: &String) -> (r: Option<usize>)
    ensures
        match r {
            Some(i) => i < profile.structural_selectors@.len()
                && selector_token_of(*profile, family@) == Some(profile.structural_selectors@[i as int].token_text@),
            None => selector_token_of(*profile, family@) is None,
        },
{
    let selectors = &profile.structural_selectors;
    let ghost p = selector_pred(family@);
    let mut i: usize = 0;
    while i < selectors.len()
        invariant
            i <= selectors@.len(),
            selectors@ == profile.structural_selectors@,
            p == selector_pred(family@),
            forall|j: int| 0 <= j < i ==> !p(#[trigger] selectors@[j]),
        decreases selectors.len() - i,
    {
        if selectors[i].selector_family == *family {
            proof { crate::binding::structured::lemma_first_where_at(selectors@, p, i as int); }
            return Some(i);
        }
        i = i + 1;
    }
    proof { crate::binding::structured::lemma_first_where_none(selectors@, p); }
    None
}

/// `base.selector`.
fn compose_qualified(base: &String, selector: &[char]) -> (r: Result<String, EditorHostReferenceInsertionError>)
    ensures
        composed_of(r) == qualified_spec(base@, selector@),
{
    match compose_host_name(&chars_of(base.as_str())) {
        Ok(b) => {
            let mut v = chars_of(b.as_str());
            push_str(&mut v, ".");
            push_chars(&mut v, selector);
            Ok(string_of(&v))
        },
        Err(e) => Err(e),
    }
}

/// The formula text that refers to a host reference target.
pub fn compose_host_reference_text(
    target: &EditorHostReferenceTarget,
    host_reference_syntax: &HostReferenceSyntaxProfile,
) -> (r: Result<String, EditorHostReferenceInsertionError>)
    ensures
        composed_of(r) == host_reference_text_spec(*target, *host_reference_syntax),
{
    match target {
        EditorHostReferenceTarget::HostName { canonical_name } => compose_host_name(&chars_of(canonical_name.as_str())),
        EditorHostReferenceTarget::HostReferenceCollection { base_canonical_name, collection_family } => {
            if collection_family.as_str().is_empty() {
                return Err(EditorHostReferenceInsertionError::EmptySelectorFamily);
            }
            let i = match member_token_position(host_reference_syntax, collection_family) {
                Some(i) => i,
                None => return Err(EditorHostReferenceInsertionError::UnknownCollectionFamily(collection_family.clone())),
            };
            let token = chars_of(host_reference_syntax.collection_members[i].token_text.as_str());
            match base_canonical_name {
                Some(base) => {
                    let selector = compose_member_selector_token(&token);
                    compose_qualified(base, &selector)
                },
                None => Ok(string_of(&compose_owner_relative_selector_token(&token))),
            }
        },
        EditorHostReferenceTarget::HostStructuralSelector { base_canonical_name, selector_family } => {
            if selector_family.as_str().is_empty() {
                return Err(EditorHostReferenceInsertionError::EmptySelectorFamily);
            }
            let i = match selector_token_position(host_reference_syntax, selector_family) {
                Some(i) => i,
                None => return Err(EditorHostReferenceInsertionError::UnknownStructuralSelectorFamily(selector_family.clone())),
            };
            let token = chars_of(host_reference_syntax.structural_selectors[i].token_text.as_str());
            let selector = compose_member_selector_token(&token);
            compose_qualified(base_canonical_name, &selector)
        },
    }
}

} // verus!
