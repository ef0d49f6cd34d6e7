//! Fingerprints of a bind: a canonical text of the bind context and of the
//! bound expression, hashed with std's default hasher and written as sixteen
//! lowercase hexadecimal digits.

use vstd::prelude::*;

use crate::binding::reference::{render_reference, NameKind, ReferenceExpr, ReferenceExprModel};
use crate::binding::{expr_models, row_models, BinaryOp, BindContext, BoundExpr, BoundExprModel, DefinedName, UnaryOp};
use crate::interface::{TableCallerRegion, TableColumnDescriptor, TableDescriptor, TableRef, TableRegionKind};
use crate::text::{all_digits, chars_of, decimal, is_digit, lemma_decimal_round_trip, push_chars, push_decimal, push_str, string_of};

verus! {

/// A text field: its length, a colon, then the text itself.
pub open spec fn field(s: Seq<char>) -> Seq<char> {
    decimal(s.len()) + ":"@ + s
}

/// A number followed by a semicolon.
pub open spec fn num(n: nat) -> Seq<char> {
    decimal(n) + ";"@
}

pub open spec fn flag(b: bool) -> Seq<char> {
    if b { "1"@ } else { "0"@ }
}

pub open spec fn name_kind_tag(k: NameKind) -> Seq<char> {
    match k {
        NameKind::ReferenceLike => "R"@,
        NameKind::ValueLike => "V"@,
        NameKind::MixedOrDeferred => "M"@,
        NameKind::HelperLocal => "H"@,
    }
}

pub open spec fn region_tag(k: TableRegionKind) -> Seq<char> {
    match k {
        TableRegionKind::Headers => "H"@,
        TableRegionKind::Data => "D"@,
        TableRegionKind::Totals => "T"@,
    }
}

pub open spec fn names_text(s: Seq<DefinedName>) -> Seq<char>
    decreases s.len(),
{
    if s.len() == 0 {
        Seq::empty()
    } else {
        names_text(s.drop_last()) + field(s.last().name@) + name_kind_tag(s.last().kind)
    }
}

pub open spec fn column_text(c: TableColumnDescriptor) -> Seq<char> {
    field(c.column_id@) + field(c.column_name@) + num(c.ordinal as nat) + field(c.column_range_ref@)
}

pub open spec fn columns_text(s: Seq<TableColumnDescriptor>) -> Seq<char>
    decreases s.len(),
{
    if s.len() == 0 {
        Seq::empty()
    } else {
        columns_text(s.drop_last()) + column_text(s.last())
    }
}

pub open spec fn table_head(t: TableDescriptor) -> Seq<char> {
    field(t.table_id@) + field(t.table_name@) + field(t.workbook_scope_ref@) + field(t.sheet_scope_ref@)
        + field(t.table_range_ref@) + flag(t.header_row_present) + flag(t.totals_row_present)
        + num(t.columns@.len())
}

pub open spec fn table_text(t: TableDescriptor) -> Seq<char> {
    table_head(t) + "["@ + columns_text(t.columns@) + "]"@
}

pub open spec fn tables_text(s: Seq<TableDescriptor>) -> Seq<char>
    decreases s.len(),
{
    if s.len() == 0 {
        Seq::empty()
    } else {
        tables_text(s.drop_last()) + table_text(s.last())
    }
}

pub open spec fn enclosing_text(t: Option<TableRef>) -> Seq<char> {
    match t {
        None => "-"@,
        Some(t) => "+"@ + field(t.table_id@),
    }
}

pub open spec fn region_text(r: Option<TableCallerRegion>) -> Seq<char> {
    match r {
        None => "-"@,
        Some(r) => "+"@ + field(r.table_id@) + region_tag(r.region_kind) + match r.data_row_offset {
            None => "-"@,
            Some(n) => "+"@ + num(n as nat),
        },
    }
}

/// The scalar fields of a bind context.
pub open spec fn context_head(ctx: BindContext) -> Seq<char> {
    field(ctx.workbook_id@) + field(ctx.sheet_id@) + num(ctx.caller_row as nat) + num(ctx.caller_col as nat)
        + field(ctx.formula_token.0@) + field(ctx.structure_context_version.0@)
}

/// The defined names of a bind context, counted and bracketed.
pub open spec fn names_part(ctx: BindContext) -> Seq<char> {
    num(ctx.names@.len()) + "["@ + names_text(ctx.names@) + "]"@
}

/// The table catalog of a bind context, counted and bracketed.
pub open spec fn tables_part(ctx: BindContext) -> Seq<char> {
    num(ctx.table_catalog@.len()) + "["@ + tables_text(ctx.table_catalog@) + "]"@
}

/// A defined name as plain values: its text and its kind.
pub open spec fn names_model(s: Seq<DefinedName>) -> Seq<(Seq<char>, NameKind)> {
    s.map_values(|d: DefinedName| (d.name@, d.kind))
}

/// One defined name's part of the names text.
pub open spec fn name_entry(d: DefinedName) -> Seq<char> {
    field(d.name@) + name_kind_tag(d.kind)
}

/// Digits, then a separator that is no digit, then the rest: the digits
/// and the rest can be read back.
proof fn lemma_digits_then(d1: Seq<char>, r1: Seq<char>, d2: Seq<char>, r2: Seq<char>, c: char)
    requires
        all_digits(d1),
        all_digits(d2),
        !is_digit(c),
        d1 + seq![c] + r1 == d2 + seq![c] + r2,
    ensures
        d1 == d2,
        r1 == r2,
{
    let x = d1 + seq![c] + r1;
    let y = d2 + seq![c] + r2;
    if d1.len() < d2.len() {
        assert(x[d1.len() as int] == c);
        assert(y[d1.len() as int] == d2[d1.len() as int]);
        assert(is_digit(d2[d1.len() as int]));
        assert(false);
    }
    if d2.len() < d1.len() {
        assert(y[d2.len() as int] == c);
        assert(x[d2.len() as int] == d1[d2.len() as int]);
        assert(is_digit(d1[d2.len() as int]));
        assert(false);
    }
    assert(d1 =~= x.take(d1.len() as int));
    assert(d2 =~= y.take(d2.len() as int));
    assert(r1 =~= x.skip(d1.len() as int + 1));
    assert(r2 =~= y.skip(d2.len() as int + 1));
}

proof fn lemma_decimal_injective(a: nat, b: nat)
    requires
        decimal(a) == decimal(b),
    ensures
        a == b,
{
    lemma_decimal_round_trip(a);
    lemma_decimal_round_trip(b);
}

/// A field followed by more text can be read back: the field's text and
/// what follows it.
proof fn lemma_field_then(s1: Seq<char>, x1: Seq<char>, s2: Seq<char>, x2: Seq<char>)
    requires
        field(s1) + x1 == field(s2) + x2,
    ensures
        s1 == s2,
        x1 == x2,
{
    reveal_strlit(":");
    lemma_decimal_round_trip(s1.len());
    lemma_decimal_round_trip(s2.len());
    assert(field(s1) + x1 =~= decimal(s1.len()) + seq![':'] + (s1 + x1));
    assert(field(s2) + x2 =~= decimal(s2.len()) + seq![':'] + (s2 + x2));
    lemma_digits_then(decimal(s1.len()), s1 + x1, decimal(s2.len()), s2 + x2, ':');
    lemma_decimal_injective(s1.len(), s2.len());
    assert(s1 =~= (s1 + x1).take(s1.len() as int));
    assert(s2 =~= (s2 + x2).take(s2.len() as int));
    assert(x1 =~= (s1 + x1).skip(s1.len() as int));
    assert(x2 =~= (s2 + x2).skip(s2.len() as int));
}

proof fn lemma_names_text_front(s: Seq<DefinedName>)
    requires
        s.len() > 0,
    ensures
        names_text(s) == name_entry(s[0]) + names_text(s.drop_first()),
    decreases s.len(),
{
    if s.len() == 1 {
        assert(s.drop_last().len() == 0);
        assert(s.drop_first().len() == 0);
        assert(names_text(s.drop_last()) == Seq::<char>::empty());
        assert(names_text(s.drop_first()) == Seq::<char>::empty());
        assert(s.last() == s[0]);
        assert(names_text(s) =~= name_entry(s[0]) + names_text(s.drop_first()));
    } else {
        lemma_names_text_front(s.drop_last());
        assert(s.drop_last().drop_first() =~= s.drop_first().drop_last());
        assert(s.drop_first().last() == s.last());
        assert(s.drop_last()[0] == s[0]);
        assert(names_text(s) =~= name_entry(s[0]) + names_text(s.drop_first()));
    }
}

proof fn lemma_kind_tag_then(k1: NameKind, x1: Seq<char>, k2: NameKind, x2: Seq<char>)
    requires
        name_kind_tag(k1) + x1 == name_kind_tag(k2) + x2,
    ensures
        k1 == k2,
        x1 == x2,
{
    reveal_strlit("R");
    reveal_strlit("V");
    reveal_strlit("M");
    reveal_strlit("H");
    let a = name_kind_tag(k1) + x1;
    let b = name_kind_tag(k2) + x2;
    assert(a[0] == name_kind_tag(k1)[0]);
    assert(b[0] == name_kind_tag(k2)[0]);
    assert(x1 =~= a.skip(1));
    assert(x2 =~= b.skip(1));
}

proof fn lemma_names_text_injective(a: Seq<DefinedName>, b: Seq<DefinedName>)
    requires
        a.len() == b.len(),
        names_text(a) == names_text(b),
    ensures
        names_model(a) == names_model(b),
    decreases a.len(),
{
    if a.len() > 0 {
        lemma_names_text_front(a);
        lemma_names_text_front(b);
        assert(name_entry(a[0]) + names_text(a.drop_first()) =~= field(a[0].name@) + (name_kind_tag(a[0].kind) + names_text(a.drop_first())));
        assert(name_entry(b[0]) + names_text(b.drop_first()) =~= field(b[0].name@) + (name_kind_tag(b[0].kind) + names_text(b.drop_first())));
        lemma_field_then(a[0].name@, name_kind_tag(a[0].kind) + names_text(a.drop_first()),
            b[0].name@, name_kind_tag(b[0].kind) + names_text(b.drop_first()));
        lemma_kind_tag_then(a[0].kind, names_text(a.drop_first()), b[0].kind, names_text(b.drop_first()));
        lemma_names_text_injective(a.drop_first(), b.drop_first());
        assert(names_model(a) =~= seq![(a[0].name@, a[0].kind)] + names_model(a.drop_first()));
        assert(names_model(b) =~= seq![(b[0].name@, b[0].kind)] + names_model(b.drop_first()));
    } else {
        assert(names_model(a) =~= names_model(b));
    }
}

proof fn lemma_names_part_injective(c1: BindContext, c2: BindContext)
    requires
        names_part(c1) == names_part(c2),
    ensures
        names_model(c1.names@) == names_model(c2.names@),
{
    reveal_strlit(";");
    reveal_strlit("[");
    reveal_strlit("]");
    let n1 = c1.names@.len();
    let n2 = c2.names@.len();
    let t1 = names_text(c1.names@);
    let t2 = names_text(c2.names@);
    lemma_decimal_round_trip(n1);
    lemma_decimal_round_trip(n2);
    assert(names_part(c1) =~= decimal(n1) + seq![';'] + (seq!['['] + t1 + seq![']']));
    assert(names_part(c2) =~= decimal(n2) + seq![';'] + (seq!['['] + t2 + seq![']']));
    lemma_digits_then(decimal(n1), seq!['['] + t1 + seq![']'], decimal(n2), seq!['['] + t2 + seq![']'], ';');
    lemma_decimal_injective(n1, n2);
    let w1 = seq!['['] + t1 + seq![']'];
    let w2 = seq!['['] + t2 + seq![']'];
    assert(t1 =~= w1.subrange(1, w1.len() - 1));
    assert(t2 =~= w2.subrange(1, w2.len() - 1));
    lemma_names_text_injective(c1.names@, c2.names@);
}

/// A bind context's canonical text tells its defined names apart: two
/// contexts that agree on every other field but differ in their defined
/// names (by text or kind, in order) have different texts, so a formula
/// bound in one is not taken for one bound in the other on their texts.
pub proof fn lemma_context_text_tells_names_apart(c1: BindContext, c2: BindContext)
    requires
        c1.workbook_id == c2.workbook_id,
        c1.sheet_id == c2.sheet_id,
        c1.caller_row == c2.caller_row,
        c1.caller_col == c2.caller_col,
        c1.formula_token == c2.formula_token,
        c1.structure_context_version == c2.structure_context_version,
        c1.table_catalog == c2.table_catalog,
        c1.enclosing_table_ref == c2.enclosing_table_ref,
        c1.caller_table_region == c2.caller_table_region,
        names_model(c1.names@) != names_model(c2.names@),
    ensures
        context_text(c1) != context_text(c2),
{
    if context_text(c1) == context_text(c2) {
        let h = context_head(c1);
        assert(context_head(c2) == h);
        let rest = tables_part(c1) + enclosing_text(c1.enclosing_table_ref) + region_text(c1.caller_table_region);
        assert(tables_part(c2) == tables_part(c1));
        assert(context_text(c1) =~= h + names_part(c1) + rest);
        assert(context_text(c2) =~= h + names_part(c2) + rest);
        let x = context_text(c1);
        assert(names_part(c1).len() == names_part(c2).len());
        assert(names_part(c1) =~= x.subrange(h.len() as int, h.len() as int + names_part(c1).len() as int));
        assert(names_part(c2) =~= x.subrange(h.len() as int, h.len() as int + names_part(c2).len() as int));
        lemma_names_part_injective(c1, c2);
    }
}

/// The canonical text of a bind context: every field, in order, each one
/// delimited so that the text can be read back.
pub open spec fn context_text(ctx: BindContext) -> Seq<char> {
    context_head(ctx) + names_part(ctx) + tables_part(ctx) + enclosing_text(ctx.enclosing_table_ref)
        + region_text(ctx.caller_table_region)
}

pub open spec fn binary_tag(op: BinaryOp) -> Seq<char> {
    match op {
        BinaryOp::Add => "+"@,
        BinaryOp::Subtract => "-"@,
        BinaryOp::Power => "^"@,
        BinaryOp::Multiply => "*"@,
        BinaryOp::Divide => "/"@,
        BinaryOp::Concat => "&"@,
        BinaryOp::Equal => "="@,
        BinaryOp::NotEqual => "!"@,
        BinaryOp::LessThan => "<"@,
        BinaryOp::LessEqual => "l"@,
        BinaryOp::GreaterThan => ">"@,
        BinaryOp::GreaterEqual => "g"@,
    }
}

pub open spec fn unary_tag(op: UnaryOp) -> Seq<char> {
    match op {
        UnaryOp::Plus => "+"@,
        UnaryOp::Negate => "-"@,
        UnaryOp::Percent => "%"@,
    }
}

/// The canonical text of a reference expression; atoms by their summary.
pub open spec fn ref_text(r: ReferenceExprModel) -> Seq<char>
    decreases r,
{
    match r {
        ReferenceExprModel::Atom(a) => "@"@ + field(render_reference(a)),
        ReferenceExprModel::Range { start, end } => "(:"@ + ref_text(*start) + ref_text(*end) + ")"@,
        ReferenceExprModel::Union { left, right } => "(,"@ + ref_text(*left) + ref_text(*right) + ")"@,
        ReferenceExprModel::Intersection { left, right } => "( "@ + ref_text(*left) + ref_text(*right) + ")"@,
        ReferenceExprModel::Spill { anchor } => "(#"@ + ref_text(*anchor) + ")"@,
    }
}

/// The canonical text of a bound expression.
pub open spec fn expr_text(e: BoundExprModel) -> Seq<char>
    decreases e, 0int,
{
    match e {
        BoundExprModel::NumberLiteral(t) => "N"@ + field(t),
        BoundExprModel::StringLiteral(t) => "S"@ + field(t),
        BoundExprModel::LogicalLiteral(b) => "L"@ + flag(b),
        BoundExprModel::ArrayLiteral(rows) => "A"@ + num(rows.len()) + rows_text(rows, 0) + "]"@,
        BoundExprModel::OmittedArgument => "O"@,
        BoundExprModel::HelperParameterName(n) => "P"@ + field(n),
        BoundExprModel::HelperOptionalParameterName(n) => "Q"@ + field(n),
        BoundExprModel::Binary { op, left, right } => "B"@ + binary_tag(op) + expr_text(*left) + expr_text(*right),
        BoundExprModel::Unary { op, expr } => "U"@ + unary_tag(op) + expr_text(*expr),
        BoundExprModel::FunctionCall { function_name, args } => "F"@ + field(function_name) + num(args.len())
            + list_text(args, 0),
        BoundExprModel::Invocation { callee, args } => "I"@ + expr_text(*callee) + num(args.len()) + list_text(args, 0),
        BoundExprModel::Reference(r) => "R"@ + ref_text(r),
        BoundExprModel::ImplicitIntersection(inner) => "X"@ + expr_text(*inner),
    }
}

/// Texts of `s[i..]`, one after another.
pub open spec fn list_text(s: Seq<BoundExprModel>, i: int) -> Seq<char>
    decreases s, s.len() - i,
{
    if i < 0 || i >= s.len() {
        Seq::empty()
    } else {
        expr_text(s[i]) + list_text(s, i + 1)
    }
}

/// Texts of the rows `rows[i..]`, each as its length and its elements.
pub open spec fn rows_text(rows: Seq<Seq<BoundExprModel>>, i: int) -> Seq<char>
    decreases rows, rows.len() - i,
{
    if i < 0 || i >= rows.len() {
        Seq::empty()
    } else {
        num(rows[i].len()) + list_text(rows[i], 0) + rows_text(rows, i + 1)
    }
}

/// What std's `DefaultHasher::new()` yields from `finish` after hashing a
/// string with the given characters.
pub uninterp spec fn default_string_hash(text: Seq<char>) -> u64;

/// Hashes `text` with std's `DefaultHasher`, as `Hash::hash` on the string
/// followed by `Hasher::finish`. `DefaultHasher::new` is documented to give
/// the same hasher every time; which algorithm it is, std leaves unsaid, so
/// the contract names the result and claims no more of it.
#[verifier::external_body]
pub(crate) fn hash_text(text: &String) -> (r: u64)
    ensures
        r == default_string_hash(text@),
{
    let mut hasher = std::collections::hash_map::DefaultHasher::new();
    std::hash::Hash::hash(text, &mut hasher);
    std::hash::Hasher::finish(&hasher)
}

/// The lowercase hexadecimal digit of `d`.
pub open spec fn hex_char(d: nat) -> char {
    if d < 10 {
        (('0' as u32) + d) as char
    } else {
        (('a' as u32) + d - 10) as char
    }
}

/// The last `width` hexadecimal digits of `n`, most significant first.
pub open spec fn hex_digits(n: nat, width: nat) -> Seq<char>
    decreases width,
{
    if width == 0 {
        Seq::empty()
    } else {
        hex_digits(n / 16, (width - 1) as nat).push(hex_char(n % 16))
    }
}

/// `format!("{:016x}", n)`.
pub open spec fn hex16(n: u64) -> Seq<char> {
    hex_digits(n as nat, 16)
}

/// The fingerprint of a bind context.
pub open spec fn context_fingerprint(ctx: BindContext) -> Seq<char> {
    hex16(default_string_hash(context_text(ctx)))
}

/// The hash of a bound expression and whether the formula is grouped.
pub open spec fn expression_hash(grouped: bool, root: BoundExprModel) -> Seq<char> {
    hex16(default_string_hash(flag(grouped) + expr_text(root)))
}

fn hex_digit(d: u64) -> (c: char)
    requires
        d < 16,
    ensures
        c == hex_char(d as nat),
{
    if d < 10 {
        let b: u8 = (d as u8) + 48;
        b as char
    } else {
        let b: u8 = (d as u8) + 87;
        b as char
    }
}

/// Appends the last `width` hexadecimal digits of `n`.
fn push_hex_digits(out: &mut Vec<char>, n: u64, width: usize)
    ensures
        final(out)@ == old(out)@ + hex_digits(n as nat, width as nat),
    decreases width,
{
    if width > 0 {
        push_hex_digits(out, n / 16, width - 1);
        out.push(hex_digit(n % 16));
    } else {
        assert(old(out)@ + hex_digits(n as nat, 0) =~= old(out)@);
    }
}

/// Sixteen lowercase hexadecimal digits of `n`.
pub fn hex16_string(n: u64) -> (r: String)
    ensures
        r@ == hex16(n),
{
    let mut out: Vec<char> = Vec::new();
    push_hex_digits(&mut out, n, 16);
    assert(out@ =~= hex16(n));
    string_of(&out)
}


pub(crate) fn push_field(v: &mut Vec<char>, s: &String)
    ensures
        final(v)@ == old(v)@ + field(s@),
{
    let cs = chars_of(s.as_str());
    push_decimal(v, cs.len() as u64);
    push_str(v, ":");
    push_chars(v, &cs);
    assert(final(v)@ =~= old(v)@ + field(s@));
}

pub(crate) fn push_field_chars(v: &mut Vec<char>, s: &[char])
    ensures
        final(v)@ == old(v)@ + field(s@),
{
    push_decimal(v, s.len() as u64);
    push_str(v, ":");
    push_chars(v, s);
    assert(final(v)@ =~= old(v)@ + field(s@));
}

pub(crate) fn push_num(v: &mut Vec<char>, n: u64)
    ensures
        final(v)@ == old(v)@ + num(n as nat),
{
    push_decimal(v, n);
    push_str(v, ";");
    assert(final(v)@ =~= old(v)@ + num(n as nat));
}

pub(crate) fn push_flag(v: &mut Vec<char>, b: bool)
    ensures
        final(v)@ == old(v)@ + flag(b),
{
    if b {
        push_str(v, "1");
    } else {
        push_str(v, "0");
    }
}

fn name_kind_text(k: NameKind) -> (r: &'static str)
    ensures
        r@ == name_kind_tag(k),
{
    match k {
        NameKind::ReferenceLike => "R",
        NameKind::ValueLike => "V",
        NameKind::MixedOrDeferred => "M",
        NameKind::HelperLocal => "H",
    }
}

fn push_names(v: &mut Vec<char>, names: &Vec<DefinedName>)
    ensures
        final(v)@ == old(v)@ + names_text(names@),
{
    let ghost start = v@;
    let mut i: usize = 0;
    assert(names@.take(0) =~= Seq::<DefinedName>::empty());
    assert(start + names_text(names@.take(0)) =~= start);
    while i < names.len()
        invariant
            i <= names@.len(),
            v@ == start + names_text(names@.take(i as int)),
        decreases names.len() - i,
    {
        push_field(v, &names[i].name);
        push_str(v, name_kind_text(names[i].kind));
        assert(names@.take(i + 1).drop_last() =~= names@.take(i as int));
        i = i + 1;
        assert(v@ =~= start + names_text(names@.take(i as int)));
    }
    assert(names@.take(names@.len() as int) =~= names@);
}

fn push_columns(v: &mut Vec<char>, cols: &Vec<TableColumnDescriptor>)
    ensures
        final(v)@ == old(v)@ + columns_text(cols@),
{
    let ghost start = v@;
    let mut i: usize = 0;
    assert(start + columns_text(cols@.take(0)) =~= start);
    while i < cols.len()
        invariant
            i <= cols@.len(),
            v@ == start + columns_text(cols@.take(i as int)),
        decreases cols.len() - i,
    {
        let c = &cols[i];
        push_field(v, &c.column_id);
        push_field(v, &c.column_name);
        push_num(v, c.ordinal as u64);
        push_field(v, &c.column_range_ref);
        assert(cols@.take(i + 1).drop_last() =~= cols@.take(i as int));
        i = i + 1;
        assert(v@ =~= start + columns_text(cols@.take(i as int)));
    }
    assert(cols@.take(cols@.len() as int) =~= cols@);
}

fn push_table_head(v: &mut Vec<char>, t: &TableDescriptor)
    ensures
        final(v)@ == old(v)@ + table_head(*t),
{
    let ghost o = v@;
    let ghost mut acc: Seq<char> = Seq::empty();
    assert(v@ =~= o + acc);
    push_field(v, &t.table_id);
    proof { acc = acc + field(t.table_id@); }
    assert(v@ =~= o + acc);
    push_field(v, &t.table_name);
    proof { acc = acc + field(t.table_name@); }
    assert(v@ =~= o + acc);
    push_field(v, &t.workbook_scope_ref);
    proof { acc = acc + field(t.workbook_scope_ref@); }
    assert(v@ =~= o + acc);
    push_field(v, &t.sheet_scope_ref);
    proof { acc = acc + field(t.sheet_scope_ref@); }
    assert(v@ =~= o + acc);
    push_field(v, &t.table_range_ref);
    proof { acc = acc + field(t.table_range_ref@); }
    assert(v@ =~= o + acc);
    push_flag(v, t.header_row_present);
    proof { acc = acc + flag(t.header_row_present); }
    assert(v@ =~= o + acc);
    push_flag(v, t.totals_row_present);
    proof { acc = acc + flag(t.totals_row_present); }
    assert(v@ =~= o + acc);
    push_num(v, t.columns.len() as u64);
    proof { acc = acc + num(t.columns@.len()); }
    assert(v@ =~= o + acc);
    assert(acc =~= table_head(*t));
}

fn push_table(v: &mut Vec<char>, t: &TableDescriptor)
    ensures
        final(v)@ == old(v)@ + table_text(*t),
{
    let ghost o = v@;
    push_table_head(v, t);
    push_str(v, "[");
    assert(v@ =~= o + (table_head(*t) + "["@));
    push_columns(v, &t.columns);
    assert(v@ =~= o + (table_head(*t) + "["@ + columns_text(t.columns@)));
    push_str(v, "]");
    assert(v@ =~= o + table_text(*t));
}

pub(crate) fn push_tables(v: &mut Vec<char>, tables: &Vec<TableDescriptor>)
    ensures
        final(v)@ == old(v)@ + tables_text(tables@),
{
    let ghost start = v@;
    let mut i: usize = 0;
    assert(start + tables_text(tables@.take(0)) =~= start);
    while i < tables.len()
        invariant
            i <= tables@.len(),
            v@ == start + tables_text(tables@.take(i as int)),
        decreases tables.len() - i,
    {
        push_table(v, &tables[i]);
        assert(tables@.take(i + 1).drop_last() =~= tables@.take(i as int));
        i = i + 1;
        assert(v@ =~= start + tables_text(tables@.take(i as int)));
    }
    assert(tables@.take(tables@.len() as int) =~= tables@);
}

fn region_text_of(k: TableRegionKind) -> (r: &'static str)
    ensures
        r@ == region_tag(k),
{
    match k {
        TableRegionKind::Headers => "H",
        TableRegionKind::Data => "D",
        TableRegionKind::Totals => "T",
    }
}

fn push_context_head(v: &mut Vec<char>, ctx: &BindContext)
    ensures
        final(v)@ == old(v)@ + context_head(*ctx),
{
    let ghost o = v@;
    push_field(v, &ctx.workbook_id);
    push_field(v, &ctx.sheet_id);
    assert(v@ =~= o + (field(ctx.workbook_id@) + field(ctx.sheet_id@)));
    push_num(v, ctx.caller_row as u64);
    push_num(v, ctx.caller_col as u64);
    assert(v@ =~= o + (field(ctx.workbook_id@) + field(ctx.sheet_id@) + num(ctx.caller_row as nat) + num(ctx.caller_col as nat)));
    let ghost o2 = v@;
    push_field(v, &ctx.formula_token.0);
    push_field(v, &ctx.structure_context_version.0);
    assert(v@ =~= o2 + (field(ctx.formula_token.0@) + field(ctx.structure_context_version.0@)));
    assert(v@ =~= o + context_head(*ctx));
}

fn push_names_part(v: &mut Vec<char>, ctx: &BindContext)
    ensures
        final(v)@ == old(v)@ + names_part(*ctx),
{
    let ghost o = v@;
    push_num(v, ctx.names.len() as u64);
    push_str(v, "[");
    let ghost o2 = v@;
    push_names(v, &ctx.names);
    push_str(v, "]");
    assert(v@ =~= o2 + (names_text(ctx.names@) + "]"@));
    assert(v@ =~= o + names_part(*ctx));
}

fn push_tables_part(v: &mut Vec<char>, ctx: &BindContext)
    ensures
        final(v)@ == old(v)@ + tables_part(*ctx),
{
    let ghost o = v@;
    push_num(v, ctx.table_catalog.len() as u64);
    push_str(v, "[");
    let ghost o2 = v@;
    push_tables(v, &ctx.table_catalog);
    push_str(v, "]");
    assert(v@ =~= o2 + (tables_text(ctx.table_catalog@) + "]"@));
    assert(v@ =~= o + tables_part(*ctx));
}

pub(crate) fn push_enclosing(v: &mut Vec<char>, t: &Option<TableRef>)
    ensures
        final(v)@ == old(v)@ + enclosing_text(*t),
{
    match t {
        None => push_str(v, "-"),
        Some(t) => {
            push_str(v, "+");
            push_field(v, &t.table_id);
        },
    }
    assert(final(v)@ =~= old(v)@ + enclosing_text(*t));
}

pub(crate) fn push_region(v: &mut Vec<char>, r: &Option<TableCallerRegion>)
    ensures
        final(v)@ == old(v)@ + region_text(*r),
{
    match r {
        None => push_str(v, "-"),
        Some(r) => {
            push_str(v, "+");
            push_field(v, &r.table_id);
            push_str(v, region_text_of(r.region_kind));
            let ghost p4 = v@;
            match r.data_row_offset {
                None => push_str(v, "-"),
                Some(n) => {
                    push_str(v, "+");
                    push_num(v, n as u64);
                },
            }
            assert(v@ =~= p4 + match r.data_row_offset { None => "-"@, Some(n) => "+"@ + num(n as nat) });
        },
    }
    assert(final(v)@ =~= old(v)@ + region_text(*r));
}

/// The canonical text of a bind context.
pub fn context_text_of(ctx: &BindContext) -> (r: String)
    ensures
        r@ == context_text(*ctx),
{
    let mut v: Vec<char> = Vec::new();
    push_context_head(&mut v, ctx);
    push_names_part(&mut v, ctx);
    push_tables_part(&mut v, ctx);
    push_enclosing(&mut v, &ctx.enclosing_table_ref);
    push_region(&mut v, &ctx.caller_table_region);
    assert(v@ =~= context_text(*ctx));
    string_of(&v)
}

/// The fingerprint of a bind context.
pub fn context_fingerprint_of(ctx: &BindContext) -> (r: String)
    ensures
        r@ == context_fingerprint(*ctx),
{
    let text = context_text_of(ctx);
    hex16_string(hash_text(&text))
}

fn binary_text(op: BinaryOp) -> (r: &'static str)
    ensures
        r@ == binary_tag(op),
{
    match op {
        BinaryOp::Add => "+",
        BinaryOp::Subtract => "-",
        BinaryOp::Power => "^",
        BinaryOp::Multiply => "*",
        BinaryOp::Divide => "/",
        BinaryOp::Concat => "&",
        BinaryOp::Equal => "=",
        BinaryOp::NotEqual => "!",
        BinaryOp::LessThan => "<",
        BinaryOp::LessEqual => "l",
        BinaryOp::GreaterThan => ">",
        BinaryOp::GreaterEqual => "g",
    }
}

fn unary_text(op: UnaryOp) -> (r: &'static str)
    ensures
        r@ == unary_tag(op),
{
    match op {
        UnaryOp::Plus => "+",
        UnaryOp::Negate => "-",
        UnaryOp::Percent => "%",
    }
}

fn push_ref_text(v: &mut Vec<char>, r: &ReferenceExpr)
    ensures
        final(v)@ == old(v)@ + ref_text(r.model()),
    decreases r,
{
    match r {
        ReferenceExpr::Atom(a) => {
            push_str(v, "@");
            let t = a.to_string();
            push_field(v, &t);
        },
        ReferenceExpr::Range { start, end } => {
            push_str(v, "(:");
            push_ref_text(v, start);
            push_ref_text(v, end);
            push_str(v, ")");
        },
        ReferenceExpr::Union { left, right } => {
            push_str(v, "(,");
            push_ref_text(v, left);
            push_ref_text(v, right);
            push_str(v, ")");
        },
        ReferenceExpr::Intersection { left, right } => {
            push_str(v, "( ");
            push_ref_text(v, left);
            push_ref_text(v, right);
            push_str(v, ")");
        },
        ReferenceExpr::Spill { anchor } => {
            push_str(v, "(#");
            push_ref_text(v, anchor);
            push_str(v, ")");
        },
    }
    assert(final(v)@ =~= old(v)@ + ref_text(r.model()));
}

fn push_expr_text(v: &mut Vec<char>, e: &BoundExpr)
    ensures
        final(v)@ == old(v)@ + expr_text(e.model()),
    decreases e,
{
    match e {
        BoundExpr::NumberLiteral(t) => {
            push_str(v, "N");
            push_field(v, t);
        },
        BoundExpr::StringLiteral(t) => {
            push_str(v, "S");
            push_field(v, t);
        },
        BoundExpr::LogicalLiteral(b) => {
            push_str(v, "L");
            push_flag(v, *b);
        },
        BoundExpr::ArrayLiteral(rows) => {
            push_str(v, "A");
            push_num(v, rows.len() as u64);
            push_rows_text(v, rows);
            push_str(v, "]");
        },
        BoundExpr::OmittedArgument => {
            push_str(v, "O");
        },
        BoundExpr::HelperParameterName(n) => {
            push_str(v, "P");
            push_field(v, n);
        },
        BoundExpr::HelperOptionalParameterName(n) => {
            push_str(v, "Q");
            push_field(v, n);
        },
        BoundExpr::Binary { op, left, right } => {
            push_str(v, "B");
            push_str(v, binary_text(*op));
            push_expr_text(v, left);
            push_expr_text(v, right);
        },
        BoundExpr::Unary { op, expr } => {
            push_str(v, "U");
            push_str(v, unary_text(*op));
            push_expr_text(v, expr);
        },
        BoundExpr::FunctionCall { function_name, args } => {
            push_str(v, "F");
            push_field(v, function_name);
            push_num(v, args.len() as u64);
            push_list_text(v, args);
        },
        BoundExpr::Invocation { callee, args } => {
            push_str(v, "I");
            push_expr_text(v, callee);
            push_num(v, args.len() as u64);
            push_list_text(v, args);
        },
        BoundExpr::Reference(r) => {
            push_str(v, "R");
            push_ref_text(v, r);
        },
        BoundExpr::ImplicitIntersection(inner) => {
            push_str(v, "X");
            push_expr_text(v, inner);
        },
    }
    assert(final(v)@ =~= old(v)@ + expr_text(e.model()));
}

fn push_rows_text(v: &mut Vec<char>, rows: &Vec<Vec<BoundExpr>>)
    ensures
        final(v)@ == old(v)@ + rows_text(row_models(rows@), 0),
    decreases rows,
{
    let ghost start = v@;
    let ghost m = row_models(rows@);
    let mut i: usize = 0;
    while i < rows.len()
        invariant
            i <= rows@.len(),
            m == row_models(rows@),
            v@ + rows_text(m, i as int) == start + rows_text(m, 0),
        decreases rows.len() - i,
    {
        proof {
            assert(decreases_to!(rows => rows@));
            assert(decreases_to!(rows@ => rows@[i as int]));
        }
        let ghost before = v@;
        push_num(v, rows[i].len() as u64);
        push_list_text(v, &rows[i]);
        assert(m[i as int] == expr_models(rows@[i as int]@));
        assert(v@ + rows_text(m, i + 1) =~= before + rows_text(m, i as int));
        i = i + 1;
    }
    assert(v@ + rows_text(m, i as int) =~= v@);
}

fn push_list_text(v: &mut Vec<char>, args: &Vec<BoundExpr>)
    ensures
        final(v)@ == old(v)@ + list_text(expr_models(args@), 0),
    decreases args,
{
    let ghost start = v@;
    let ghost m = expr_models(args@);
    let mut i: usize = 0;
    while i < args.len()
        invariant
            i <= args@.len(),
            m == expr_models(args@),
            v@ + list_text(m, i as int) == start + list_text(m, 0),
        decreases args.len() - i,
    {
        proof {
            assert(decreases_to!(args => args@));
            assert(decreases_to!(args@ => args@[i as int]));
        }
        let ghost before = v@;
        push_expr_text(v, &args[i]);
        assert(m[i as int] == args@[i as int].model());
        assert(v@ + list_text(m, i + 1) =~= before + list_text(m, i as int));
        i = i + 1;
    }
    assert(v@ + list_text(m, i as int) =~= v@);
}

/// The hash of a bound expression and whether the formula is grouped.
pub fn expression_hash_of(grouped: bool, root: &BoundExpr) -> (r: String)
    ensures
        r@ == expression_hash(grouped, root.model()),
{
    let mut v: Vec<char> = Vec::new();
    push_flag(&mut v, grouped);
    push_expr_text(&mut v, root);
    assert(v@ =~= flag(grouped) + expr_text(root.model()));
    hex16_string(hash_text(&string_of(&v)))
}

} // verus!
