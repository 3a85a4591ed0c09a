//! The grammar of stability-attribute arguments: `name [= value], ...`, parsed into a
//! fixed set of boolean and text fields.

use vstd::prelude::*;

use crate::context::{Context, Diagnostic, Issue, Span};
use crate::lang_item::same_text;
use crate::symbol::Symbol;

verus! {

/// One token of an attribute's argument list.
#[derive(Debug, Clone)]
pub enum AttrToken {
    /// An identifier, `true` and `false` included.
    Ident(String),
    /// A punctuation character: `,`, `=`, ...
    Punct(char),
    /// A string literal, by its value.
    Str(String),
    /// Any other token, by its text.
    Other(String),
}

/// Whether a field is a flag or holds text.
#[derive(Debug, Clone, Copy, PartialEq, Eq, Structural)]
pub enum FieldKind {
    /// Given alone (`true`), or as `name = true` / `name = false`; `false` when absent.
    Flag,
    /// Given as `name = "text"`; required.
    Text,
}

/// A field that an attribute accepts.
#[derive(Clone, Copy)]
pub struct FieldSpec {
    pub name: Symbol,
    pub kind: FieldKind,
}

/// What a field was set to.
#[derive(Debug, Clone)]
pub enum FieldValue {
    Unset,
    Flag(bool),
    Text(String),
}

pub open spec fn is_punct(t: Seq<AttrToken>, i: int, c: char) -> bool {
    0 <= i < t.len() && t[i] == AttrToken::Punct(c)
}

pub open spec fn is_word(t: Seq<AttrToken>, i: int, w: Seq<char>) -> bool {
    0 <= i < t.len() && (t[i] matches AttrToken::Ident(s) && s@ == w)
}

/// The place of token `i`, or the end of the input.
pub open spec fn span_at(t: Seq<AttrToken>, i: int) -> Span {
    if 0 <= i < t.len() {
        Span::Tokens(i as usize, (i + 1) as usize)
    } else {
        Span::EndOfInput
    }
}

/// The first field at or after `k` named `name`.
pub open spec fn find_field(fs: Seq<FieldSpec>, name: Seq<char>, k: int) -> Option<int>
    decreases fs.len() - k,
{
    if k < 0 || k >= fs.len() {
        None
    } else if fs[k].name.0@ == name {
        Some(k)
    } else {
        find_field(fs, name, k + 1)
    }
}

/// Sets field `k`, named at token `p`; a field already set keeps its value and the second
/// setting is an error.
pub open spec fn assign(
    fs: Seq<FieldSpec>,
    k: int,
    v: FieldValue,
    p: int,
    values: Seq<FieldValue>,
    errors: Seq<Diagnostic>,
) -> (Seq<FieldValue>, Seq<Diagnostic>) {
    if values[k] is Unset {
        (values.update(k, v), errors)
    } else {
        (
            values,
            errors.push(
                Diagnostic {
                    issue: Issue::DuplicateAttribute(fs[k].name.0),
                    span: Span::Tokens(p as usize, (p + 1) as usize),
                },
            ),
        )
    }
}

/// One entry, whose name `name` stands at token `p`: the position after it, and the
/// fields and errors as they then are.
pub open spec fn parse_entry(
    t: Seq<AttrToken>,
    fs: Seq<FieldSpec>,
    p: int,
    name: Seq<char>,
    values: Seq<FieldValue>,
    errors: Seq<Diagnostic>,
) -> (int, Seq<FieldValue>, Seq<Diagnostic>) {
    let q = p + 1;
    match find_field(fs, name, 0) {
        Some(k) => match fs[k].kind {
            FieldKind::Flag => if is_punct(t, q, '=') {
                if is_word(t, q + 1, "true"@) {
                    let (v, e) = assign(fs, k, FieldValue::Flag(true), p, values, errors);
                    (q + 2, v, e)
                } else if is_word(t, q + 1, "false"@) {
                    let (v, e) = assign(fs, k, FieldValue::Flag(false), p, values, errors);
                    (q + 2, v, e)
                } else {
                    (
                        q + 1,
                        values,
                        errors.push(Diagnostic { issue: Issue::ExpectedBoolean, span: span_at(t, q + 1) }),
                    )
                }
            } else {
                let (v, e) = assign(fs, k, FieldValue::Flag(true), p, values, errors);
                (q, v, e)
            },
            FieldKind::Text => if is_punct(t, q, '=') {
                if q + 1 < t.len() && t[q + 1] is Str {
                    let (v, e) = assign(fs, k, FieldValue::Text(t[q + 1]->Str_0), p, values, errors);
                    (q + 2, v, e)
                } else {
                    (
                        q + 1,
                        values,
                        errors.push(Diagnostic { issue: Issue::ExpectedString, span: span_at(t, q + 1) }),
                    )
                }
            } else {
                (q, values, errors.push(Diagnostic { issue: Issue::ExpectedEquals, span: span_at(t, q) }))
            },
        },
        None => if is_punct(t, q, '=') {
            if q + 1 < t.len() && !is_punct(t, q + 1, ',') {
                (
                    q + 2,
                    values,
                    errors.push(
                        Diagnostic {
                            issue: Issue::UnrecognizedArgument,
                            span: Span::Tokens(p as usize, (q + 2) as usize),
                        },
                    ),
                )
            } else {
                (
                    q + 1,
                    values,
                    errors.push(Diagnostic { issue: Issue::ExpectedExpression, span: span_at(t, q + 1) }),
                )
            }
        } else {
            (
                q,
                values,
                errors.push(
                    Diagnostic {
                        issue: Issue::UnrecognizedArgument,
                        span: Span::Tokens(p as usize, q as usize),
                    },
                ),
            )
        },
    }
}

/// The position after the entry at `p`.
pub open spec fn entry_end(t: Seq<AttrToken>, fs: Seq<FieldSpec>, p: int, name: Seq<char>) -> int {
    parse_entry(t, fs, p, name, Seq::empty(), Seq::empty()).0
}

proof fn lemma_entry_end(
    t: Seq<AttrToken>,
    fs: Seq<FieldSpec>,
    p: int,
    name: Seq<char>,
    values: Seq<FieldValue>,
    errors: Seq<Diagnostic>,
)
    requires
        0 <= p < t.len(),
    ensures
        parse_entry(t, fs, p, name, values, errors).0 == entry_end(t, fs, p, name),
        p < entry_end(t, fs, p, name) <= t.len(),
{
}

/// The argument list from token `pos` on: the fields and the errors recorded, or the
/// error that stops the parse (a missing comma, an entry that is not an identifier).
pub open spec fn parse_from(
    t: Seq<AttrToken>,
    fs: Seq<FieldSpec>,
    pos: int,
    first: bool,
    values: Seq<FieldValue>,
    errors: Seq<Diagnostic>,
) -> Result<(Seq<FieldValue>, Seq<Diagnostic>), Diagnostic>
    decreases t.len() - pos,
{
    if pos < 0 || pos >= t.len() {
        Ok((values, errors))
    } else if !first && !is_punct(t, pos, ',') {
        Err(Diagnostic { issue: Issue::ExpectedComma, span: span_at(t, pos) })
    } else {
        let p = if first {
            pos
        } else {
            pos + 1
        };
        if p >= t.len() {
            Ok((values, errors))
        } else if let AttrToken::Ident(name) = t[p] {
            if entry_end(t, fs, p, name@) > pos {
                let r = parse_entry(t, fs, p, name@, values, errors);
                parse_from(t, fs, entry_end(t, fs, p, name@), false, r.1, r.2)
            } else {
                Ok((values, errors))
            }
        } else {
            Err(Diagnostic { issue: Issue::ExpectedIdentifier, span: span_at(t, p) })
        }
    }
}

/// `n` unset fields.
pub open spec fn all_unset(n: nat) -> Seq<FieldValue> {
    Seq::new(n, |i: int| FieldValue::Unset)
}

/// The outcome of parsing the whole argument list `t` against fields `fs`.
pub open spec fn parse_spec(t: Seq<AttrToken>, fs: Seq<FieldSpec>) -> Result<
    (Seq<FieldValue>, Seq<Diagnostic>),
    Diagnostic,
> {
    parse_from(t, fs, 0, true, all_unset(fs.len()), Seq::empty())
}

/// The names of the text fields among the first `n` that `values` leaves unset, in order.
pub open spec fn missing_names(fs: Seq<FieldSpec>, values: Seq<FieldValue>, n: int) -> Seq<
    Seq<char>,
>
    decreases n,
{
    if n <= 0 {
        Seq::empty()
    } else if fs[n - 1].kind == FieldKind::Text && values[n - 1] is Unset {
        missing_names(fs, values, n - 1).push(fs[n - 1].name.0@)
    } else {
        missing_names(fs, values, n - 1)
    }
}

proof fn lemma_find_field_range(fs: Seq<FieldSpec>, name: Seq<char>, k: int)
    requires
        0 <= k,
    ensures
        find_field(fs, name, k) matches Some(j) ==> k <= j < fs.len() && fs[j].name.0@ == name,
    decreases fs.len() - k,
{
    if k < fs.len() && fs[k].name.0@ != name {
        lemma_find_field_range(fs, name, k + 1);
    }
}

fn field_position(fields: &Vec<FieldSpec>, name: &String) -> (r: Option<usize>)
    ensures
        match find_field(fields@, name@, 0) {
            Some(k) => r == Some(k as usize),
            None => r is None,
        },
        r matches Some(k) ==> k < fields.len(),
        find_field(fields@, name@, 0) matches Some(j) ==> 0 <= j < fields.len(),
{
    proof {
        lemma_find_field_range(fields@, name@, 0);
    }
    let mut k: usize = 0;
    while k < fields.len()
        invariant
            k <= fields.len(),
            find_field(fields@, name@, 0) == find_field(fields@, name@, k as int),
        decreases fields.len() - k,
    {
        if fields[k].name.matches_ident(name) {
            return Some(k);
        }
        k = k + 1;
    }
    None
}

fn assign_field(
    fields: &Vec<FieldSpec>,
    k: usize,
    v: FieldValue,
    p: usize,
    values: &mut Vec<FieldValue>,
    ctx: &mut Context,
)
    requires
        k < fields.len(),
        old(values).len() == fields.len(),
        p < usize::MAX,
    ensures
        (final(values)@, final(ctx).errors@) == assign(
            fields@,
            k as int,
            v,
            p as int,
            old(values)@,
            old(ctx).errors@,
        ),
        final(values).len() == fields.len(),
        final(ctx).dirty_errors@ == old(ctx).dirty_errors@,
{
    if let FieldValue::Unset = values[k] {
        values.set(k, v);
    } else {
        ctx.push_error(
            Diagnostic {
                issue: Issue::DuplicateAttribute(fields[k].name.0),
                span: Span::Tokens(p, p + 1),
            },
        );
    }
}

fn place(tokens: &Vec<AttrToken>, i: usize) -> (r: Span)
    ensures
        r == span_at(tokens@, i as int),
{
    if i < tokens.len() {
        Span::Tokens(i, i + 1)
    } else {
        Span::EndOfInput
    }
}

fn is_punct_at(tokens: &Vec<AttrToken>, i: usize, c: char) -> (r: bool)
    ensures
        r == is_punct(tokens@, i as int, c),
{
    if i < tokens.len() {
        match &tokens[i] {
            AttrToken::Punct(d) => *d == c,
            _ => false,
        }
    } else {
        false
    }
}

fn is_word_at(tokens: &Vec<AttrToken>, i: usize, w: &str) -> (r: bool)
    ensures
        r == is_word(tokens@, i as int, w@),
{
    if i < tokens.len() {
        match &tokens[i] {
            AttrToken::Ident(s) => same_text(s.as_str(), w),
            _ => false,
        }
    } else {
        false
    }
}

fn entry_step(
    tokens: &Vec<AttrToken>,
    fields: &Vec<FieldSpec>,
    p: usize,
    name: &String,
    values: &mut Vec<FieldValue>,
    ctx: &mut Context,
) -> (np: usize)
    requires
        p < tokens.len(),
        tokens.len() < usize::MAX - 2,
        old(values).len() == fields.len(),
    ensures
        (np as int, final(values)@, final(ctx).errors@) == parse_entry(
            tokens@,
            fields@,
            p as int,
            name@,
            old(values)@,
            old(ctx).errors@,
        ),
        final(values).len() == fields.len(),
        final(ctx).dirty_errors@ == old(ctx).dirty_errors@,
{
    let q = p + 1;
    match field_position(fields, name) {
        Some(k) => {
            match fields[k].kind {
                FieldKind::Flag => {
                    if is_punct_at(tokens, q, '=') {
                        if is_word_at(tokens, q + 1, "true") {
                            assign_field(fields, k, FieldValue::Flag(true), p, values, ctx);
                            q + 2
                        } else if is_word_at(tokens, q + 1, "false") {
                            assign_field(fields, k, FieldValue::Flag(false), p, values, ctx);
                            q + 2
                        } else {
                            ctx.push_error(
                                Diagnostic { issue: Issue::ExpectedBoolean, span: place(tokens, q + 1) },
                            );
                            q + 1
                        }
                    } else {
                        assign_field(fields, k, FieldValue::Flag(true), p, values, ctx);
                        q
                    }
                },
                FieldKind::Text => {
                    if is_punct_at(tokens, q, '=') {
                        if q + 1 < tokens.len() {
                            if let AttrToken::Str(s) = &tokens[q + 1] {
                                let text = s.clone();
                                assert(tokens@[q + 1 as int]->Str_0 == text);
                                assign_field(fields, k, FieldValue::Text(text), p, values, ctx);
                                return q + 2;
                            }
                        }
                        ctx.push_error(
                            Diagnostic { issue: Issue::ExpectedString, span: place(tokens, q + 1) },
                        );
                        q + 1
                    } else {
                        ctx.push_error(Diagnostic { issue: Issue::ExpectedEquals, span: place(tokens, q) });
                        q
                    }
                },
            }
        },
        None => {
            if is_punct_at(tokens, q, '=') {
                if q + 1 < tokens.len() && !is_punct_at(tokens, q + 1, ',') {
                    ctx.push_error(
                        Diagnostic { issue: Issue::UnrecognizedArgument, span: Span::Tokens(p, q + 2) },
                    );
                    q + 2
                } else {
                    ctx.push_error(
                        Diagnostic { issue: Issue::ExpectedExpression, span: place(tokens, q + 1) },
                    );
                    q + 1
                }
            } else {
                ctx.push_error(Diagnostic { issue: Issue::UnrecognizedArgument, span: Span::Tokens(p, q) });
                q
            }
        },
    }
}

/// Parses the argument list `tokens` against `fields`. A missing comma, or an entry that
/// is not an identifier, stops the parse with that error; every other problem is recorded
/// in the context and the parse goes on. Text fields left unset are recorded as dirty, in
/// the order of `fields`.
pub fn parse_fields(tokens: &Vec<AttrToken>, fields: &Vec<FieldSpec>) -> (r: Result<
    (Vec<FieldValue>, Context),
    Diagnostic,
>)
    requires
        tokens.len() < usize::MAX - 2,
    ensures
        match (r, parse_spec(tokens@, fields@)) {
            (Ok((values, ctx)), Ok((v, e))) => values@ == v && ctx.errors@ == e
                && crate::symbol::path_view(ctx.dirty_errors@) == missing_names(
                fields@,
                v,
                fields@.len() as int,
            ),
            (Err(d), Err(s)) => d == s,
            _ => false,
        },
        r matches Ok((values, ctx)) ==> values@.len() == fields@.len(),
{
    let n = tokens.len();
    let mut values: Vec<FieldValue> = Vec::new();
    let mut k: usize = 0;
    while k < fields.len()
        invariant
            k <= fields.len(),
            values@ == all_unset(k as nat),
        decreases fields.len() - k,
    {
        values.push(FieldValue::Unset);
        assert(values@ =~= all_unset((k + 1) as nat));
        k = k + 1;
    }
    let mut ctx = Context::new();
    assert(ctx.errors@ =~= Seq::<Diagnostic>::empty());
    let mut pos: usize = 0;
    let mut first = true;
    while pos < n
        invariant
            n == tokens.len(),
            n < usize::MAX - 2,
            pos <= n,
            values.len() == fields.len(),
            ctx.dirty_errors@.len() == 0,
            parse_spec(tokens@, fields@) == parse_from(
                tokens@,
                fields@,
                pos as int,
                first,
                values@,
                ctx.errors@,
            ),
        decreases n - pos,
    {
        let p = if first {
            pos
        } else {
            if !is_punct_at(tokens, pos, ',') {
                return Err(Diagnostic { issue: Issue::ExpectedComma, span: place(tokens, pos) });
            }
            pos + 1
        };
        if p >= n {
            pos = p;
            first = false;
        } else {
            match &tokens[p] {
                AttrToken::Ident(name) => {
                    proof {
                        lemma_entry_end(tokens@, fields@, p as int, name@, values@, ctx.errors@);
                    }
                    let np = entry_step(tokens, fields, p, name, &mut values, &mut ctx);
                    pos = np;
                    first = false;
                },
                _ => {
                    return Err(Diagnostic { issue: Issue::ExpectedIdentifier, span: place(tokens, p) });
                },
            }
        }
    }
    let mut i: usize = 0;
    assert(crate::symbol::path_view(ctx.dirty_errors@) =~= Seq::<Seq<char>>::empty());
    while i < fields.len()
        invariant
            i <= fields.len(),
            values.len() == fields.len(),
            parse_spec(tokens@, fields@) == Ok::<(Seq<FieldValue>, Seq<Diagnostic>), Diagnostic>(
                (values@, ctx.errors@),
            ),
            crate::symbol::path_view(ctx.dirty_errors@) == missing_names(fields@, values@, i as int),
        decreases fields.len() - i,
    {
        let missing = match values[i] {
            FieldValue::Unset => fields[i].kind == FieldKind::Text,
            _ => false,
        };
        if missing {
            let ghost before = ctx.dirty_errors@;
            ctx.push_dirty_error(String::from_str(fields[i].name.0));
            assert(crate::symbol::path_view(ctx.dirty_errors@) =~= crate::symbol::path_view(before).push(
                fields@[i as int].name.0@,
            ));
        }
        i = i + 1;
    }
    Ok((values, ctx))
}

} // verus!
