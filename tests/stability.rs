use lang_rules::attributes::{parse_fields, AttrToken, FieldKind, FieldSpec, FieldValue};
use lang_rules::context::{merge_unsetted_args, Context, Diagnostic, Issue, Span};
use lang_rules::stability::{
    deprecated, stable, unstable, DeprecatedAttribute, StableAttribute, UnstableAttribute,
};
use lang_rules::symbol::Symbol;

fn ident(s: &str) -> AttrToken {
    AttrToken::Ident(s.to_string())
}

fn text(s: &str) -> AttrToken {
    AttrToken::Str(s.to_string())
}

fn eq() -> AttrToken {
    AttrToken::Punct('=')
}

fn comma() -> AttrToken {
    AttrToken::Punct(',')
}

/// `name = "value"`
fn pair(name: &str, value: &str) -> Vec<AttrToken> {
    vec![ident(name), eq(), text(value)]
}

fn join(parts: Vec<Vec<AttrToken>>) -> Vec<AttrToken> {
    let mut out = Vec::new();
    for (i, p) in parts.into_iter().enumerate() {
        if i > 0 {
            out.push(comma());
        }
        out.extend(p);
    }
    out
}

fn names(list: &[&str]) -> Vec<String> {
    list.iter().map(|s| s.to_string()).collect()
}

#[test]
fn stable_parses_feature_and_since() {
    let toks = join(vec![pair("feature", "x"), pair("since", "1.0.0")]);
    let a = StableAttribute::parse(&toks).ok().unwrap();
    assert!(!a.constness);
    assert_eq!(a.feature, "x");
    assert_eq!(a.since, "1.0.0");
    assert!(a.ctx.check(merge_unsetted_args).is_ok());
    let marks = stable(&toks).ok().unwrap();
    assert_eq!(marks.len(), 1);
    assert_eq!(marks[0].path, "stable");
    assert_eq!(marks[0].args[0].key, "feature");
    assert_eq!(marks[0].args[0].value, "x");
    assert_eq!(marks[0].args[1].key, "since");
    assert_eq!(marks[0].args[1].value, "1.0.0");
}

#[test]
fn stable_with_constness_flag() {
    let toks = join(vec![vec![ident("constness")], pair("feature", "x"), pair("since", "1.0.0")]);
    let marks = stable(&toks).ok().unwrap();
    assert_eq!(marks[0].path, "rustc_const_stable");
    let explicit = join(vec![vec![ident("constness"), eq(), ident("false")], pair("feature", "x"), pair("since", "1.0.0")]);
    assert_eq!(stable(&explicit).ok().unwrap()[0].path, "stable");
}

#[test]
fn stable_without_since_reports_it_missing() {
    let toks = pair("feature", "x");
    let errs = stable(&toks).err().unwrap();
    assert_eq!(errs.len(), 1);
    assert_eq!(errs[0].span, Span::CallSite);
    assert_eq!(errs[0].message(), "since need to be set");
}

#[test]
fn duplicate_field_keeps_first_value() {
    let toks = join(vec![pair("since", "1.0.0"), pair("since", "2.0.0")]);
    let a = StableAttribute::parse(&toks).ok().unwrap();
    assert_eq!(a.since, "1.0.0");
    assert_eq!(
        a.ctx.errors,
        vec![Diagnostic {
            issue: Issue::DuplicateAttribute("since"),
            span: Span::Tokens(4, 5),
        }]
    );
    assert_eq!(a.ctx.errors[0].message(), "duplicate attribute `since`");
    let errs = stable(&toks).err().unwrap();
    assert_eq!(errs.len(), 2);
    assert_eq!(errs[0].message(), "feature need to be set");
    assert_eq!(errs[1].message(), "duplicate attribute `since`");
}

#[test]
fn missing_fields_are_joined() {
    assert_eq!(merge_unsetted_args(names(&[])), None);
    assert_eq!(merge_unsetted_args(names(&["feature"])), Some("feature need to be set".to_string()));
    assert_eq!(
        merge_unsetted_args(names(&["feature", "issue"])),
        Some("feature and issue need to be set".to_string())
    );
    assert_eq!(
        merge_unsetted_args(names(&["feature", "issue", "reason"])),
        Some("feature, issue and reason need to be set".to_string())
    );
    assert_eq!(
        merge_unsetted_args(names(&["a", "b", "c", "d"])),
        Some("a, b, c and d need to be set".to_string())
    );
    let errs = unstable(&Vec::new()).err().unwrap();
    assert_eq!(errs.len(), 1);
    assert_eq!(errs[0].message(), "feature, issue and reason need to be set");
}

fn unstable_base(flags: &[&str]) -> Vec<AttrToken> {
    let mut parts = vec![pair("feature", "test"), pair("issue", "none"), pair("reason", "sd")];
    for f in flags {
        parts.push(vec![ident(f)]);
    }
    join(parts)
}

#[test]
fn unstable_flags_select_the_template() {
    let m = unstable(&unstable_base(&[])).ok().unwrap();
    assert_eq!(m.len(), 1);
    assert_eq!(m[0].path, "unstable");
    assert_eq!(m[0].args.len(), 3);
    assert_eq!(m[0].args[2].value, "sd");
    let m = unstable(&unstable_base(&["constness"])).ok().unwrap();
    assert_eq!(m.len(), 1);
    assert_eq!(m[0].path, "rustc_const_unstable");
    let m = unstable(&unstable_base(&["constness", "intrinsic"])).ok().unwrap();
    assert_eq!(m.len(), 2);
    assert_eq!(m[1].path, "rustc_intrinsic_const_stable_indirect");
    assert!(m[1].args.is_empty());
    let m = unstable(&unstable_base(&["constness", "stabilisable"])).ok().unwrap();
    assert_eq!(m[1].path, "rustc_const_stable_indirect");
    let m = unstable(&unstable_base(&["stabilisable"])).ok().unwrap();
    assert_eq!(m.len(), 1);
    assert_eq!(m[0].path, "unstable");
}

#[test]
fn stabilisable_and_intrinsic_exclude_each_other() {
    let errs = unstable(&unstable_base(&["stabilisable", "intrinsic"])).err().unwrap();
    assert_eq!(errs, vec![Diagnostic { issue: Issue::ExclusiveFlags, span: Span::CallSite }]);
    assert_eq!(errs[0].message(), "cannot have intrinsic and stabilisable at the same time");
    let errs = unstable(&unstable_base(&["constness", "stabilisable", "intrinsic"])).err().unwrap();
    assert_eq!(errs.len(), 1);
    let a = UnstableAttribute::parse(&unstable_base(&["stabilisable", "intrinsic"])).ok().unwrap();
    assert!(a.stabilisable && a.intrinsic && !a.constness);
}

#[test]
fn deprecated_needs_all_three() {
    let toks = join(vec![pair("since", "1.2.0"), pair("note", "old"), pair("suggestion", "new")]);
    let m = deprecated(&toks).ok().unwrap();
    assert_eq!(m[0].path, "deprecated");
    assert_eq!(m[0].args[2].key, "suggestion");
    assert_eq!(m[0].args[2].value, "new");
    let a = DeprecatedAttribute::parse(&pair("note", "n")).ok().unwrap();
    assert_eq!(a.note, "n");
    assert_eq!(a.since, "");
    let errs = a.ctx.check(merge_unsetted_args).err().unwrap();
    assert_eq!(errs[0].message(), "since and suggestion need to be set");
}

#[test]
fn trailing_comma_and_empty_input() {
    let mut toks = join(vec![pair("feature", "x"), pair("since", "1.0.0")]);
    toks.push(comma());
    assert!(stable(&toks).is_ok());
    let fields = vec![FieldSpec { name: Symbol("flag"), kind: FieldKind::Flag }];
    let (values, ctx) = parse_fields(&Vec::new(), &fields).ok().unwrap();
    assert!(matches!(values[0], FieldValue::Unset));
    assert!(ctx.check(merge_unsetted_args).is_ok());
}

#[test]
fn unrecognized_arguments_are_recorded() {
    let toks = join(vec![vec![ident("bogus")], pair("other", "v"), pair("feature", "x"), pair("since", "1")]);
    let a = StableAttribute::parse(&toks).ok().unwrap();
    assert_eq!(
        a.ctx.errors,
        vec![
            Diagnostic { issue: Issue::UnrecognizedArgument, span: Span::Tokens(0, 1) },
            Diagnostic { issue: Issue::UnrecognizedArgument, span: Span::Tokens(2, 5) },
        ]
    );
    assert_eq!(a.feature, "x");
    assert_eq!(a.ctx.errors[0].message(), "unrecognized argument");
}

#[test]
fn malformed_values_are_recorded() {
    let toks = vec![ident("feature"), eq(), AttrToken::Other("5".to_string())];
    let a = StableAttribute::parse(&toks);
    // the unparsed `5` is then where a comma should be
    let d = a.err().unwrap();
    assert_eq!(d, Diagnostic { issue: Issue::ExpectedComma, span: Span::Tokens(2, 3) });
    assert_eq!(d.message(), "expected `,`");
    let toks = vec![ident("feature"), comma(), ident("since"), eq()];
    let a = StableAttribute::parse(&toks).ok().unwrap();
    assert_eq!(
        a.ctx.errors,
        vec![
            Diagnostic { issue: Issue::ExpectedEquals, span: Span::Tokens(1, 2) },
            Diagnostic { issue: Issue::ExpectedString, span: Span::EndOfInput },
        ]
    );
    let toks = vec![ident("constness"), eq(), text("yes")];
    let a = StableAttribute::parse(&toks);
    assert!(a.is_err());
}

#[test]
fn entries_must_be_identifiers() {
    let toks = vec![text("feature")];
    let d = stable(&toks).err().unwrap();
    assert_eq!(d, vec![Diagnostic { issue: Issue::ExpectedIdentifier, span: Span::Tokens(0, 1) }]);
    assert_eq!(d[0].message(), "expected identifier");
}

#[test]
fn context_check_orders_errors() {
    let mut ctx = Context::new();
    assert!(Context::new().check(merge_unsetted_args).is_ok());
    ctx.push_error(Diagnostic { issue: Issue::ExpectedBoolean, span: Span::Tokens(1, 2) });
    ctx.push_dirty_error("issue".to_string());
    ctx.push_dirty_error("reason".to_string());
    let errs = ctx.check(merge_unsetted_args).err().unwrap();
    assert_eq!(errs.len(), 2);
    assert_eq!(errs[0].message(), "issue and reason need to be set");
    assert_eq!(errs[1].message(), "expected boolean literal");
    let mut only = Context::new();
    only.push_error(Diagnostic { issue: Issue::ExpectedExpression, span: Span::EndOfInput });
    let errs = only.check(merge_unsetted_args).err().unwrap();
    assert_eq!(errs.len(), 1);
    assert_eq!(errs[0].message(), "expected an expression");
}
