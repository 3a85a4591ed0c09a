use lang_rules::declaration::{AttrArgs, Attribute, Declaration};
use lang_rules::lang_item::{
    resolve, same_text, AnnotationKind, Constraint, ItemAttribut, LangItem, LangItemError, Target,
};
use lang_rules::symbol::Symbol;
use lang_rules::validate::{item, validate};

fn word(path: &[&str]) -> Attribute {
    Attribute { path: path.iter().map(|s| s.to_string()).collect(), args: AttrArgs::Word }
}

fn list(path: &str, args: &[&str]) -> Attribute {
    Attribute {
        path: vec![path.to_string()],
        args: AttrArgs::List(args.iter().map(|s| s.to_string()).collect()),
    }
}

fn decl(kind: Target) -> Declaration {
    Declaration {
        kind: Some(kind),
        generics: 0,
        is_auto: false,
        is_unsafe: false,
        is_const: false,
        arguments: 0,
        attributes: Vec::new(),
    }
}

fn function(arguments: usize) -> Declaration {
    Declaration { arguments, ..decl(Target::Fn) }
}

#[test]
fn target_and_constraint_names() {
    assert_eq!(Target::Fn.name(), "function");
    assert_eq!(Target::EnumVariant.name(), "enum variant");
    assert_eq!(Constraint::CLayout.name(), "repr(C)");
    assert_eq!(Constraint::Generics(3).name(), "generics");
    assert_eq!(Constraint::ObjectUnimplementable.name(), "object unimplementable");
}

#[test]
fn resolve_finds_registered_names() {
    assert_eq!(resolve("sized"), Ok(LangItem::Sized));
    assert_eq!(resolve("clone_fn"), Ok(LangItem::CloneFn));
    assert_eq!(resolve("cvoid"), Ok(LangItem::CVoid));
}

#[test]
fn resolve_refuses_prefixes_and_near_names() {
    for name in ["", "size", "sized_", "Sized", "clone_f", "foo_auto", "add_assig"] {
        let err = resolve(name).unwrap_err();
        assert_eq!(err, LangItemError::Unknown(name.to_string()));
    }
    assert_eq!(
        resolve("nope").unwrap_err().message(),
        "\"nope\" is not a valid compiler lang item."
    );
}

#[test]
fn conforming_trait_is_annotated() {
    let mut d = decl(Target::Trait);
    d.attributes = vec![word(&["coinductive"]), word(&["compiler", "fundamental"]), word(&["rustc_deny_explicit_impl"])];
    let anns = validate(LangItem::Sized, &d).unwrap();
    assert_eq!(anns.len(), 1);
    assert_eq!(anns[0].kind, AnnotationKind::LangItem);
    assert_eq!(anns[0].value, "sized");
}

#[test]
fn naming_policies_pick_the_annotations() {
    // diagnostic name inherited from the entry, compiler name inherited too
    let anns = validate(LangItem::Copy, &decl(Target::Trait)).unwrap();
    assert_eq!(anns.len(), 2);
    assert_eq!((anns[0].kind, anns[0].value), (AnnotationKind::DiagnosticItem, "Copy"));
    assert_eq!((anns[1].kind, anns[1].value), (AnnotationKind::LangItem, "copy"));
    // explicit diagnostic name, no compiler name
    let anns = validate(LangItem::IntoIterTrait, &decl(Target::Trait)).unwrap();
    assert_eq!(anns.len(), 1);
    assert_eq!((anns[0].kind, anns[0].value), (AnnotationKind::DiagnosticItem, "IntoIterator"));
    // neither
    let mut send = decl(Target::Trait);
    send.is_auto = true;
    send.is_unsafe = true;
    assert!(validate(LangItem::Send, &send).unwrap().is_empty());
}

#[test]
fn wrong_shape_is_reported_first() {
    let mut d = decl(Target::Struct);
    d.generics = 9;
    assert_eq!(validate(LangItem::Sized, &d), Err(LangItemError::WrongTarget(LangItem::Sized)));
    assert_eq!(
        LangItemError::WrongTarget(LangItem::Sized).message(),
        "`sized` item must be applied to a trait item"
    );
}

#[test]
fn declaration_without_a_shape_is_refused() {
    let mut d = decl(Target::Trait);
    d.kind = None;
    assert_eq!(validate(LangItem::Copy, &d), Err(LangItemError::WrongTarget(LangItem::Copy)));
}

#[test]
fn missing_modifiers_are_named() {
    let mut d = decl(Target::Trait);
    d.is_unsafe = true;
    let err = validate(LangItem::Send, &d).unwrap_err();
    assert_eq!(err, LangItemError::MissingModifier(LangItem::Send, Constraint::Auto));
    assert_eq!(err.message(), "`send` item must be an auto trait");
    d.is_unsafe = false;
    d.is_auto = true;
    assert_eq!(
        validate(LangItem::Send, &d),
        Err(LangItemError::MissingModifier(LangItem::Send, Constraint::Unsafety))
    );
    let mut f = function(1);
    f.generics = 1;
    assert_eq!(
        validate(LangItem::DropInPlace, &f),
        Err(LangItemError::MissingModifier(LangItem::DropInPlace, Constraint::Unsafety))
    );
    let p = function(1);
    assert_eq!(
        validate(LangItem::Panic, &p),
        Err(LangItemError::MissingModifier(LangItem::Panic, Constraint::Constness))
    );
}

#[test]
fn argument_count_is_exact() {
    assert!(validate(LangItem::CloneFn, &function(1)).is_ok());
    for n in [0usize, 2] {
        assert_eq!(
            validate(LangItem::CloneFn, &function(n)),
            Err(LangItemError::ArgumentCount { item: LangItem::CloneFn, expected: 1, found: n })
        );
    }
    assert_eq!(
        LangItemError::ArgumentCount { item: LangItem::CloneFn, expected: 1, found: 2 }.message(),
        "`clone_fn` item expected to have 1 arguments but the definition has 2 arguments\n please force the function to have 1 arguments"
    );
}

#[test]
fn generic_count_is_exact() {
    let mut d = decl(Target::Trait);
    d.generics = 2;
    let err = validate(LangItem::Add, &d).unwrap_err();
    assert_eq!(err, LangItemError::GenericCount { item: LangItem::Add, expected: 1, found: 2 });
    assert_eq!(
        err.message(),
        "`add` item expected to have 1 generics but the definition has 2 generics\n please force the trait item to have 1 generics"
    );
    // no cardinality constraint: none expected
    d.generics = 1;
    assert_eq!(
        validate(LangItem::Neg, &d),
        Err(LangItemError::GenericCount { item: LangItem::Neg, expected: 0, found: 1 })
    );
    let mut big = decl(Target::Type);
    big.generics = 4;
    assert!(validate(LangItem::AsyncFnKindUpvars, &big).is_ok());
    big.generics = 12;
    assert_eq!(
        LangItemError::GenericCount { item: LangItem::AsyncFnKindUpvars, expected: 4, found: 12 }
            .message(),
        "`async_fn_kind_upvars` item expected to have 4 generics but the definition has 12 generics\n please force the type item to have 4 generics"
    );
}

#[test]
fn missing_attribute_property_is_named() {
    let mut d = decl(Target::Struct);
    d.generics = 1;
    let err = validate(LangItem::ManuallyDrop, &d).unwrap_err();
    assert_eq!(err, LangItemError::MissingProperty(LangItem::ManuallyDrop, Constraint::Transparent));
    assert_eq!(err.message(), "`manually_drop` item must be a repr(transparent) struct");
    d.attributes.push(list("repr", &["transparent"]));
    assert!(validate(LangItem::ManuallyDrop, &d).is_ok());
    let mut t = decl(Target::Trait);
    assert_eq!(
        validate(LangItem::Drop, &t),
        Err(LangItemError::MissingProperty(LangItem::Drop, Constraint::Constness))
    );
    t.attributes.push(word(&["compiler", "const_trait"]));
    assert!(validate(LangItem::Drop, &t).is_ok());
}

#[test]
fn unknown_attributes_are_ignored() {
    let mut d = decl(Target::Enum);
    d.attributes = vec![
        word(&["derive"]),
        list("repr", &["u8"]),
        list("repr", &["C", "packed"]),
        word(&["compiler", "nothing"]),
        Attribute { path: vec!["doc".to_string()], args: AttrArgs::Value },
    ];
    assert_eq!(
        validate(LangItem::CVoid, &d),
        Err(LangItemError::MissingProperty(LangItem::CVoid, Constraint::CLayout))
    );
    d.attributes.push(list("repr", &["C"]));
    assert!(validate(LangItem::CVoid, &d).is_ok());
    let mut plain = decl(Target::Trait);
    plain.attributes = vec![word(&["inline"]), list("allow", &["unused"])];
    assert!(validate(LangItem::Copy, &plain).is_ok());
}

#[test]
fn item_resolves_then_validates() {
    assert_eq!(
        item("missing", &decl(Target::Trait)).unwrap_err(),
        LangItemError::Unknown("missing".to_string())
    );
    let anns = item("clone_fn", &function(1)).unwrap();
    assert_eq!((anns[0].kind, anns[0].value), (AnnotationKind::LangItem, "clone_fn"));
    assert!(item("clone_fn", &function(3)).is_err());
}

#[test]
fn classification_of_attributes() {
    assert_eq!(ItemAttribut::from_attribute(&word(&["const_trait"])), ItemAttribut::ConstTrait);
    assert_eq!(ItemAttribut::from_attribute(&word(&["compiler", "coinductive"])), ItemAttribut::Coinductive);
    assert_eq!(
        ItemAttribut::from_attribute(&word(&["compiler", "object_unimplementable"])),
        ItemAttribut::ObjectUnimplementable
    );
    assert_eq!(ItemAttribut::from_attribute(&word(&["unimplementable"])), ItemAttribut::Unimplementable);
    assert_eq!(ItemAttribut::from_attribute(&list("repr", &["C"])), ItemAttribut::CLayout);
    assert_eq!(ItemAttribut::from_attribute(&list("repr", &["transparent"])), ItemAttribut::Transparent);
    assert_eq!(ItemAttribut::from_attribute(&word(&["repr"])), ItemAttribut::Unknown);
    assert_eq!(ItemAttribut::from_attribute(&word(&["other", "fundamental"])), ItemAttribut::Unknown);
}

#[test]
fn symbol_matches_paths_segment_by_segment() {
    let path = |p: &[&str]| p.iter().map(|s| s.to_string()).collect::<Vec<String>>();
    let abc = Symbol("a::b::c");
    assert!(abc.matches_path(&path(&["a", "b", "c"])));
    assert!(!abc.matches_path(&path(&["a", "b"])));
    assert!(!abc.matches_path(&path(&["a", "c", "b"])));
    assert!(!abc.matches_path(&path(&["a", "b", "c", "d"])));
    assert!(!abc.matches_path(&path(&["a::b::c"])));
    let single = Symbol("a");
    assert!(single.matches_path(&path(&["a"])));
    assert!(!single.matches_path(&path(&["a", "a"])));
    assert!(!Symbol("a::b").matches_path(&path(&["a"])));
    assert_eq!(abc.segments(), path(&["a", "b", "c"]));
    assert_eq!(Symbol(":::x").segments(), path(&["", ":x"]));
    assert!(Symbol("repr").matches_ident(&"repr".to_string()));
    assert!(!Symbol("repr").matches_ident(&"rep".to_string()));
}

#[test]
fn same_text_compares_characters() {
    assert!(same_text("abc", "abc"));
    assert!(!same_text("abc", "abd"));
    assert!(!same_text("abc", "ab"));
    assert!(same_text("", ""));
}
