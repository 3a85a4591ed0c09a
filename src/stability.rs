//! The three stability attributes (`stable`, `unstable`, `deprecated`): their fields,
//! their parse, and the compiler attributes each one turns into.

use vstd::prelude::*;

use crate::attributes::{
    missing_names, parse_fields, parse_spec, AttrToken, FieldKind, FieldSpec, FieldValue,
};
use crate::context::{and_list, merge_unsetted_args, Context, Diagnostic, Issue, Span};
use crate::symbol::{path_view, Symbol};

verus! {

/// One `key = "value"` argument of an emitted attribute.
#[derive(Debug, Clone)]
pub struct MarkArg {
    pub key: &'static str,
    pub value: String,
}

/// One attribute emitted for the compiler: `#[path(key = "value", ...)]`, or `#[path]`
/// when it has no arguments.
#[derive(Debug, Clone)]
pub struct StabilityMark {
    pub path: &'static str,
    pub args: Vec<MarkArg>,
}

pub open spec fn args_view(args: Seq<MarkArg>) -> Seq<(&'static str, Seq<char>)> {
    args.map_values(|a: MarkArg| (a.key, a.value@))
}

pub open spec fn marks_view(ms: Seq<StabilityMark>) -> Seq<
    (&'static str, Seq<(&'static str, Seq<char>)>),
> {
    ms.map_values(|m: StabilityMark| (m.path, args_view(m.args@)))
}

/// A flag's value: `false` unless it was given.
pub open spec fn flag_of(v: FieldValue) -> bool {
    match v {
        FieldValue::Flag(b) => b,
        _ => false,
    }
}

/// A text field's value: empty unless it was given.
pub open spec fn text_of(v: FieldValue) -> Seq<char> {
    match v {
        FieldValue::Text(s) => s@,
        _ => Seq::empty(),
    }
}

fn flag_value(v: &FieldValue) -> (r: bool)
    ensures
        r == flag_of(*v),
{
    match v {
        FieldValue::Flag(b) => *b,
        _ => false,
    }
}

fn text_value(v: &FieldValue) -> (r: String)
    ensures
        r@ == text_of(*v),
{
    match v {
        FieldValue::Text(s) => s.clone(),
        _ => String::new(),
    }
}

/// What a failed check reports: the message naming the unset fields (if any) first, then
/// the errors recorded during the parse, in order.
pub open spec fn reported(list: Seq<Diagnostic>, missing: Seq<Seq<char>>, errors: Seq<Diagnostic>) -> bool {
    if missing.len() > 0 {
        list.len() == errors.len() + 1 && list[0].span == Span::CallSite && (list[0].issue matches Issue::Custom(
            m,
        ) && m@ == and_list(missing) + " need to be set"@) && list.skip(1) == errors
    } else {
        list == errors
    }
}

/// Runs the context's check with the standard rendering of unset fields.
fn report(ctx: Context) -> (r: Result<(), Vec<Diagnostic>>)
    ensures
        match r {
            Ok(()) => path_view(ctx.dirty_errors@).len() == 0 && ctx.errors@.len() == 0,
            Err(list) => (path_view(ctx.dirty_errors@).len() > 0 || ctx.errors@.len() > 0)
                && reported(list@, path_view(ctx.dirty_errors@), ctx.errors@),
        },
{
    let ghost dirty = ctx.dirty_errors@;
    let ghost errors = ctx.errors@;
    let r = ctx.check(merge_unsetted_args);
    proof {
        assert(path_view(dirty).len() == dirty.len());
        if dirty.len() > 0 && r is Err {
            assert(r->Err_0@.skip(1) =~= errors);
        }
    }
    r
}

fn field(name: &'static str, kind: FieldKind) -> (r: FieldSpec)
    ensures
        r == (FieldSpec { name: Symbol(name), kind }),
{
    FieldSpec { name: Symbol(name), kind }
}

fn arg(key: &'static str, value: &String) -> (r: MarkArg)
    ensures
        r.key == key,
        r.value@ == value@,
{
    MarkArg { key, value: value.clone() }
}

pub open spec fn stable_fields() -> Seq<FieldSpec> {
    seq![
        FieldSpec { name: Symbol("constness"), kind: FieldKind::Flag },
        FieldSpec { name: Symbol("feature"), kind: FieldKind::Text },
        FieldSpec { name: Symbol("since"), kind: FieldKind::Text },
    ]
}

pub open spec fn unstable_fields() -> Seq<FieldSpec> {
    seq![
        FieldSpec { name: Symbol("constness"), kind: FieldKind::Flag },
        FieldSpec { name: Symbol("stabilisable"), kind: FieldKind::Flag },
        FieldSpec { name: Symbol("intrinsic"), kind: FieldKind::Flag },
        FieldSpec { name: Symbol("feature"), kind: FieldKind::Text },
        FieldSpec { name: Symbol("issue"), kind: FieldKind::Text },
        FieldSpec { name: Symbol("reason"), kind: FieldKind::Text },
    ]
}

pub open spec fn deprecated_fields() -> Seq<FieldSpec> {
    seq![
        FieldSpec { name: Symbol("since"), kind: FieldKind::Text },
        FieldSpec { name: Symbol("note"), kind: FieldKind::Text },
        FieldSpec { name: Symbol("suggestion"), kind: FieldKind::Text },
    ]
}

/// `#[stable(feature = "..", since = "..")]`, parsed.
pub struct StableAttribute {
    pub ctx: Context,
    pub constness: bool,
    pub feature: String,
    pub since: String,
}

impl StableAttribute {
    /// Parses the arguments of `#[stable(...)]`: `constness`, `feature = ".."`,
    /// `since = ".."`.
    pub fn parse(tokens: &Vec<AttrToken>) -> (r: Result<StableAttribute, Diagnostic>)
        requires
            tokens.len() < usize::MAX - 2,
        ensures
            match (r, parse_spec(tokens@, stable_fields())) {
                (Ok(a), Ok((v, e))) => a.constness == flag_of(v[0]) && a.feature@ == text_of(v[1])
                    && a.since@ == text_of(v[2]) && a.ctx.errors@ == e && path_view(
                    a.ctx.dirty_errors@,
                ) == missing_names(stable_fields(), v, 3),
                (Err(d), Err(s)) => d == s,
                _ => false,
            },
    {
        let mut fields: Vec<FieldSpec> = Vec::new();
        fields.push(field("constness", FieldKind::Flag));
        fields.push(field("feature", FieldKind::Text));
        fields.push(field("since", FieldKind::Text));
        assert(fields@ =~= stable_fields());
        match parse_fields(tokens, &fields) {
            Ok((values, ctx)) => Ok(
                StableAttribute {
                    ctx,
                    constness: flag_value(&values[0]),
                    feature: text_value(&values[1]),
                    since: text_value(&values[2]),
                },
            ),
            Err(d) => Err(d),
        }
    }
}

/// `#[unstable(feature = "..", issue = "..", reason = "..")]`, parsed.
pub struct UnstableAttribute {
    pub ctx: Context,
    pub constness: bool,
    pub stabilisable: bool,
    pub intrinsic: bool,
    pub feature: String,
    pub issue: String,
    pub reason: String,
}

impl UnstableAttribute {
    /// Parses the arguments of `#[unstable(...)]`: the flags `constness`,
    /// `stabilisable`, `intrinsic`, and `feature`, `issue`, `reason`.
    pub fn parse(tokens: &Vec<AttrToken>) -> (r: Result<UnstableAttribute, Diagnostic>)
        requires
            tokens.len() < usize::MAX - 2,
        ensures
            match (r, parse_spec(tokens@, unstable_fields())) {
                (Ok(a), Ok((v, e))) => a.constness == flag_of(v[0]) && a.stabilisable == flag_of(v[1])
                    && a.intrinsic == flag_of(v[2]) && a.feature@ == text_of(v[3]) && a.issue@
                    == text_of(v[4]) && a.reason@ == text_of(v[5]) && a.ctx.errors@ == e && path_view(
                    a.ctx.dirty_errors@,
                ) == missing_names(unstable_fields(), v, 6),
                (Err(d), Err(s)) => d == s,
                _ => false,
            },
    {
        let mut fields: Vec<FieldSpec> = Vec::new();
        fields.push(field("constness", FieldKind::Flag));
        fields.push(field("stabilisable", FieldKind::Flag));
        fields.push(field("intrinsic", FieldKind::Flag));
        fields.push(field("feature", FieldKind::Text));
        fields.push(field("issue", FieldKind::Text));
        fields.push(field("reason", FieldKind::Text));
        assert(fields@ =~= unstable_fields());
        match parse_fields(tokens, &fields) {
            Ok((values, ctx)) => Ok(
                UnstableAttribute {
                    ctx,
                    constness: flag_value(&values[0]),
                    stabilisable: flag_value(&values[1]),
                    intrinsic: flag_value(&values[2]),
                    feature: text_value(&values[3]),
                    issue: text_value(&values[4]),
                    reason: text_value(&values[5]),
                },
            ),
            Err(d) => Err(d),
        }
    }
}

/// `#[deprecated(since = "..", note = "..", suggestion = "..")]`, parsed.
pub struct DeprecatedAttribute {
    pub ctx: Context,
    pub since: String,
    pub note: String,
    pub suggestion: String,
}

impl DeprecatedAttribute {
    /// Parses the arguments of `#[deprecated(...)]`: `since`, `note`, `suggestion`.
    pub fn parse(tokens: &Vec<AttrToken>) -> (r: Result<DeprecatedAttribute, Diagnostic>)
        requires
            tokens.len() < usize::MAX - 2,
        ensures
            match (r, parse_spec(tokens@, deprecated_fields())) {
                (Ok(a), Ok((v, e))) => a.since@ == text_of(v[0]) && a.note@ == text_of(v[1])
                    && a.suggestion@ == text_of(v[2]) && a.ctx.errors@ == e && path_view(
                    a.ctx.dirty_errors@,
                ) == missing_names(deprecated_fields(), v, 3),
                (Err(d), Err(s)) => d == s,
                _ => false,
            },
    {
        let mut fields: Vec<FieldSpec> = Vec::new();
        fields.push(field("since", FieldKind::Text));
        fields.push(field("note", FieldKind::Text));
        fields.push(field("suggestion", FieldKind::Text));
        assert(fields@ =~= deprecated_fields());
        match parse_fields(tokens, &fields) {
            Ok((values, ctx)) => Ok(
                DeprecatedAttribute {
                    ctx,
                    since: text_value(&values[0]),
                    note: text_value(&values[1]),
                    suggestion: text_value(&values[2]),
                },
            ),
            Err(d) => Err(d),
        }
    }
}

pub open spec fn stable_marks(constness: bool, feature: Seq<char>, since: Seq<char>) -> Seq<
    (&'static str, Seq<(&'static str, Seq<char>)>),
> {
    let args = seq![("feature", feature), ("since", since)];
    if constness {
        seq![("rustc_const_stable", args)]
    } else {
        seq![("stable", args)]
    }
}

pub open spec fn unstable_marks(
    constness: bool,
    stabilisable: bool,
    intrinsic: bool,
    feature: Seq<char>,
    issue: Seq<char>,
    reason: Seq<char>,
) -> Seq<(&'static str, Seq<(&'static str, Seq<char>)>)> {
    let args = seq![("feature", feature), ("issue", issue), ("reason", reason)];
    if !constness {
        seq![("unstable", args)]
    } else if intrinsic {
        seq![("rustc_const_unstable", args), ("rustc_intrinsic_const_stable_indirect", seq![])]
    } else if stabilisable {
        seq![("rustc_const_unstable", args), ("rustc_const_stable_indirect", seq![])]
    } else {
        seq![("rustc_const_unstable", args)]
    }
}

pub open spec fn deprecated_marks(since: Seq<char>, note: Seq<char>, suggestion: Seq<char>) -> Seq<
    (&'static str, Seq<(&'static str, Seq<char>)>),
> {
    seq![("deprecated", seq![("since", since), ("note", note), ("suggestion", suggestion)])]
}

fn single(d: Diagnostic) -> (r: Vec<Diagnostic>)
    ensures
        r@ == seq![d],
{
    let mut r = Vec::new();
    r.push(d);
    assert(r@ =~= seq![d]);
    r
}

fn mark(path: &'static str, args: Vec<MarkArg>) -> (r: StabilityMark)
    ensures
        r.path == path,
        r.args@ == args@,
{
    StabilityMark { path, args }
}

/// Turns the arguments of `#[stable(...)]` into `#[stable(feature, since)]`, or into
/// `#[rustc_const_stable(feature, since)]` when `constness` is given; or reports every
/// problem found.
pub fn stable(tokens: &Vec<AttrToken>) -> (r: Result<Vec<StabilityMark>, Vec<Diagnostic>>)
    requires
        tokens.len() < usize::MAX - 2,
    ensures
        match parse_spec(tokens@, stable_fields()) {
            Err(d) => r matches Err(list) && list@ == seq![d],
            Ok((v, e)) => {
                let missing = missing_names(stable_fields(), v, 3);
                if missing.len() == 0 && e.len() == 0 {
                    r matches Ok(ms) && marks_view(ms@) == stable_marks(
                        flag_of(v[0]),
                        text_of(v[1]),
                        text_of(v[2]),
                    )
                } else {
                    r matches Err(list) && reported(list@, missing, e)
                }
            },
        },
{
    let a = match StableAttribute::parse(tokens) {
        Ok(a) => a,
        Err(d) => {
            return Err(single(d));
        },
    };
    let StableAttribute { ctx, constness, feature, since } = a;
    if let Err(list) = report(ctx) {
        return Err(list);
    }
    let mut args: Vec<MarkArg> = Vec::new();
    args.push(arg("feature", &feature));
    args.push(arg("since", &since));
    let path = if constness {
        "rustc_const_stable"
    } else {
        "stable"
    };
    let mut ms: Vec<StabilityMark> = Vec::new();
    ms.push(mark(path, args));
    proof {
        assert(args_view(ms@[0].args@) =~= seq![("feature", feature@), ("since", since@)]);
        assert(marks_view(ms@) =~= stable_marks(constness, feature@, since@));
    }
    Ok(ms)
}

fn text_args3(
    k1: &'static str,
    v1: &String,
    k2: &'static str,
    v2: &String,
    k3: &'static str,
    v3: &String,
) -> (r: Vec<MarkArg>)
    ensures
        args_view(r@) == seq![(k1, v1@), (k2, v2@), (k3, v3@)],
{
    let mut args: Vec<MarkArg> = Vec::new();
    args.push(arg(k1, v1));
    args.push(arg(k2, v2));
    args.push(arg(k3, v3));
    assert(args_view(args@) =~= seq![(k1, v1@), (k2, v2@), (k3, v3@)]);
    args
}

/// Turns the arguments of `#[unstable(...)]` into the attributes its flags select:
/// `#[unstable(..)]` without `constness`; with it, `#[rustc_const_unstable(..)]`,
/// followed by `#[rustc_intrinsic_const_stable_indirect]` for `intrinsic` or
/// `#[rustc_const_stable_indirect]` for `stabilisable`. `stabilisable` and `intrinsic`
/// together are refused on their own, once everything else is in order.
pub fn unstable(tokens: &Vec<AttrToken>) -> (r: Result<Vec<StabilityMark>, Vec<Diagnostic>>)
    requires
        tokens.len() < usize::MAX - 2,
    ensures
        match parse_spec(tokens@, unstable_fields()) {
            Err(d) => r matches Err(list) && list@ == seq![d],
            Ok((v, e)) => {
                let missing = missing_names(unstable_fields(), v, 6);
                if missing.len() == 0 && e.len() == 0 {
                    if flag_of(v[1]) && flag_of(v[2]) {
                        r matches Err(list) && list@ == seq![
                            Diagnostic { issue: Issue::ExclusiveFlags, span: Span::CallSite },
                        ]
                    } else {
                        r matches Ok(ms) && marks_view(ms@) == unstable_marks(
                            flag_of(v[0]),
                            flag_of(v[1]),
                            flag_of(v[2]),
                            text_of(v[3]),
                            text_of(v[4]),
                            text_of(v[5]),
                        )
                    }
                } else {
                    r matches Err(list) && reported(list@, missing, e)
                }
            },
        },
{
    let a = match UnstableAttribute::parse(tokens) {
        Ok(a) => a,
        Err(d) => {
            return Err(single(d));
        },
    };
    let UnstableAttribute { ctx, constness, stabilisable, intrinsic, feature, issue, reason } = a;
    if let Err(list) = report(ctx) {
        return Err(list);
    }
    if stabilisable && intrinsic {
        return Err(single(Diagnostic { issue: Issue::ExclusiveFlags, span: Span::CallSite }));
    }
    let args = text_args3("feature", &feature, "issue", &issue, "reason", &reason);
    let ghost av = args_view(args@);
    let mut ms: Vec<StabilityMark> = Vec::new();
    if !constness {
        ms.push(mark("unstable", args));
    } else {
        ms.push(mark("rustc_const_unstable", args));
        if intrinsic {
            ms.push(mark("rustc_intrinsic_const_stable_indirect", Vec::new()));
        } else if stabilisable {
            ms.push(mark("rustc_const_stable_indirect", Vec::new()));
        }
    }
    proof {
        assert(args_view(ms@[0].args@) == av);
        if ms@.len() > 1 {
            assert(args_view(ms@[1].args@) =~= Seq::<(&'static str, Seq<char>)>::empty());
        }
        assert(marks_view(ms@) =~= unstable_marks(
            constness,
            stabilisable,
            intrinsic,
            feature@,
            issue@,
            reason@,
        ));
    }
    Ok(ms)
}

/// Turns the arguments of `#[deprecated(...)]` into `#[deprecated(since, note,
/// suggestion)]`; or reports every problem found.
pub fn deprecated(tokens: &Vec<AttrToken>) -> (r: Result<Vec<StabilityMark>, Vec<Diagnostic>>)
    requires
        tokens.len() < usize::MAX - 2,
    ensures
        match parse_spec(tokens@, deprecated_fields()) {
            Err(d) => r matches Err(list) && list@ == seq![d],
            Ok((v, e)) => {
                let missing = missing_names(deprecated_fields(), v, 3);
                if missing.len() == 0 && e.len() == 0 {
                    r matches Ok(ms) && marks_view(ms@) == deprecated_marks(
                        text_of(v[0]),
                        text_of(v[1]),
                        text_of(v[2]),
                    )
                } else {
                    r matches Err(list) && reported(list@, missing, e)
                }
            },
        },
{
    let a = match DeprecatedAttribute::parse(tokens) {
        Ok(a) => a,
        Err(d) => {
            return Err(single(d));
        },
    };
    let DeprecatedAttribute { ctx, since, note, suggestion } = a;
    if let Err(list) = report(ctx) {
        return Err(list);
    }
    let args = text_args3("since", &since, "note", &note, "suggestion", &suggestion);
    let mut ms: Vec<StabilityMark> = Vec::new();
    ms.push(mark("deprecated", args));
    proof {
        assert(marks_view(ms@) =~= deprecated_marks(since@, note@, suggestion@));
    }
    Ok(ms)
}

} // verus!
