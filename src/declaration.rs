//! A declaration presented for validation, as plain values: its shape, modifiers, counts
//! and the attributes written on it.

use vstd::prelude::*;

use crate::lang_item::{ItemAttribut, Target};
use crate::symbol::{is_plain_word, lemma_word_path, path_view, symbol_matches, Symbol};

verus! {

/// What follows an attribute's path.
pub enum AttrArgs {
    /// `#[path]`
    Word,
    /// `#[path(a, b)]`: the text of each comma-separated argument.
    List(Vec<String>),
    /// `#[path = value]`
    Value,
}

pub enum ArgsView {
    Word,
    List(Seq<Seq<char>>),
    Value,
}

/// One attribute written on a declaration.
pub struct Attribute {
    pub path: Vec<String>,
    pub args: AttrArgs,
}

pub struct AttributeView {
    pub path: Seq<Seq<char>>,
    pub args: ArgsView,
}

impl View for Attribute {
    type V = AttributeView;

    open spec fn view(&self) -> AttributeView {
        AttributeView {
            path: path_view(self.path@),
            args: match self.args {
                AttrArgs::Word => ArgsView::Word,
                AttrArgs::List(l) => ArgsView::List(path_view(l@)),
                AttrArgs::Value => ArgsView::Value,
            },
        }
    }
}

/// A declaration under validation.
pub struct Declaration {
    /// The shape, if the declaration has one of the shapes a lang item can take.
    pub kind: Option<Target>,
    /// Number of generic parameters, lifetimes included.
    pub generics: usize,
    /// `auto` (traits).
    pub is_auto: bool,
    /// `unsafe` (traits and functions).
    pub is_unsafe: bool,
    /// `const` (functions).
    pub is_const: bool,
    /// Number of parameters (functions).
    pub arguments: usize,
    pub attributes: Vec<Attribute>,
}

pub struct DeclarationView {
    pub kind: Option<Target>,
    pub generics: usize,
    pub is_auto: bool,
    pub is_unsafe: bool,
    pub is_const: bool,
    pub arguments: usize,
    pub attributes: Seq<AttributeView>,
}

impl View for Declaration {
    type V = DeclarationView;

    open spec fn view(&self) -> DeclarationView {
        DeclarationView {
            kind: self.kind,
            generics: self.generics,
            is_auto: self.is_auto,
            is_unsafe: self.is_unsafe,
            is_const: self.is_const,
            arguments: self.arguments,
            attributes: self.attributes@.map_values(|a: Attribute| a@),
        }
    }
}

pub open spec fn repr_symbol() -> Symbol {
    Symbol("repr")
}

pub open spec fn const_trait_symbols() -> Seq<Symbol> {
    seq![Symbol("const_trait"), Symbol("compiler::const_trait")]
}

pub open spec fn fundamental_symbols() -> Seq<Symbol> {
    seq![Symbol("fundamental"), Symbol("compiler::fundamental")]
}

pub open spec fn coinductive_symbols() -> Seq<Symbol> {
    seq![Symbol("coinductive"), Symbol("compiler::coinductive"), Symbol("rustc_coinductive")]
}

pub open spec fn object_unimplementable_symbols() -> Seq<Symbol> {
    seq![
        Symbol("object_unimplementable"),
        Symbol("compiler::object_unimplementable"),
        Symbol("rustc_do_not_implement_via_object"),
    ]
}

pub open spec fn unimplementable_symbols() -> Seq<Symbol> {
    seq![
        Symbol("unimplementable"),
        Symbol("compiler::unimplementable"),
        Symbol("rustc_deny_explicit_impl"),
    ]
}

/// Whether one of `syms` names `path`.
pub open spec fn matches_any(syms: Seq<Symbol>, path: Seq<Seq<char>>) -> bool {
    exists|i: int| 0 <= i < syms.len() && #[trigger] symbol_matches(syms[i].0@, path)
}

/// What an attribute says about the declaration it stands on.
pub open spec fn classify(a: AttributeView) -> ItemAttribut {
    match a.args {
        ArgsView::Word => {
            if matches_any(const_trait_symbols(), a.path) {
                ItemAttribut::ConstTrait
            } else if matches_any(fundamental_symbols(), a.path) {
                ItemAttribut::Fundamental
            } else if matches_any(coinductive_symbols(), a.path) {
                ItemAttribut::Coinductive
            } else if matches_any(object_unimplementable_symbols(), a.path) {
                ItemAttribut::ObjectUnimplementable
            } else if matches_any(unimplementable_symbols(), a.path) {
                ItemAttribut::Unimplementable
            } else {
                ItemAttribut::Unknown
            }
        },
        ArgsView::List(args) => {
            if symbol_matches(repr_symbol().0@, a.path) && args.len() == 1 {
                if args[0] == "transparent"@ {
                    ItemAttribut::Transparent
                } else if args[0] == "C"@ {
                    ItemAttribut::CLayout
                } else {
                    ItemAttribut::Unknown
                }
            } else {
                ItemAttribut::Unknown
            }
        },
        ArgsView::Value => ItemAttribut::Unknown,
    }
}

/// An attribute `#[w]` of one word.
pub open spec fn word_attribute(w: Seq<char>) -> AttributeView {
    AttributeView { path: seq![w], args: ArgsView::Word }
}

/// The attribute written to establish `k`: `#[const_trait]`, `#[fundamental]`,
/// `#[repr(C)]`, ...; for `Unknown`, one that says nothing.
pub open spec fn canonical_attribute(k: ItemAttribut) -> AttributeView {
    match k {
        ItemAttribut::ConstTrait => word_attribute("const_trait"@),
        ItemAttribut::Fundamental => word_attribute("fundamental"@),
        ItemAttribut::Coinductive => word_attribute("coinductive"@),
        ItemAttribut::ObjectUnimplementable => word_attribute("object_unimplementable"@),
        ItemAttribut::Unimplementable => word_attribute("unimplementable"@),
        ItemAttribut::Transparent => AttributeView {
            path: seq!["repr"@],
            args: ArgsView::List(seq!["transparent"@]),
        },
        ItemAttribut::CLayout => AttributeView {
            path: seq!["repr"@],
            args: ArgsView::List(seq!["C"@]),
        },
        ItemAttribut::Unknown => AttributeView { path: Seq::empty(), args: ArgsView::Value },
    }
}

proof fn lemma_no_symbol_is(syms: Seq<Symbol>, w: Seq<char>)
    requires
        is_plain_word(w),
        forall|i: int| 0 <= i < syms.len() ==> syms[i].0@ != w,
    ensures
        !matches_any(syms, seq![w]),
{
    assert forall|i: int| 0 <= i < syms.len() implies !symbol_matches(#[trigger] syms[i].0@, seq![w]) by {
        lemma_word_path(syms[i].0@, w);
    }
}

proof fn lemma_first_symbol_is(syms: Seq<Symbol>, w: Seq<char>)
    requires
        is_plain_word(w),
        syms.len() > 0,
        syms[0].0@ == w,
    ensures
        matches_any(syms, seq![w]),
{
    lemma_word_path(syms[0].0@, w);
    assert(symbol_matches(syms[0].0@, seq![w]));
}

/// The attribute written to establish `k` is classified as `k`.
pub proof fn lemma_canonical_attribute(k: ItemAttribut)
    ensures
        classify(canonical_attribute(k)) == k,
{
    reveal_strlit("const_trait");
    reveal_strlit("compiler::const_trait");
    reveal_strlit("fundamental");
    reveal_strlit("compiler::fundamental");
    reveal_strlit("coinductive");
    reveal_strlit("compiler::coinductive");
    reveal_strlit("rustc_coinductive");
    reveal_strlit("object_unimplementable");
    reveal_strlit("compiler::object_unimplementable");
    reveal_strlit("rustc_do_not_implement_via_object");
    reveal_strlit("unimplementable");
    reveal_strlit("compiler::unimplementable");
    reveal_strlit("rustc_deny_explicit_impl");
    reveal_strlit("repr");
    reveal_strlit("transparent");
    reveal_strlit("C");
    match k {
        ItemAttribut::ConstTrait => {
            lemma_first_symbol_is(const_trait_symbols(), "const_trait"@);
        },
        ItemAttribut::Fundamental => {
            let w = "fundamental"@;
            assert("const_trait"@[0] != w[0]);
            lemma_no_symbol_is(const_trait_symbols(), w);
            lemma_first_symbol_is(fundamental_symbols(), w);
        },
        ItemAttribut::Coinductive => {
            let w = "coinductive"@;
            assert("const_trait"@[2] != w[2]);
            assert("fundamental"@[0] != w[0]);
            lemma_no_symbol_is(const_trait_symbols(), w);
            lemma_no_symbol_is(fundamental_symbols(), w);
            lemma_first_symbol_is(coinductive_symbols(), w);
        },
        ItemAttribut::ObjectUnimplementable => {
            let w = "object_unimplementable"@;
            assert(w.len() == 22);
            assert("const_trait"@.len() == 11 && "compiler::const_trait"@.len() == 21);
            assert("fundamental"@.len() == 11 && "compiler::fundamental"@.len() == 21);
            assert("coinductive"@.len() == 11 && "compiler::coinductive"@.len() == 21);
            assert("rustc_coinductive"@.len() == 17);
            lemma_no_symbol_is(const_trait_symbols(), w);
            lemma_no_symbol_is(fundamental_symbols(), w);
            lemma_no_symbol_is(coinductive_symbols(), w);
            lemma_first_symbol_is(object_unimplementable_symbols(), w);
        },
        ItemAttribut::Unimplementable => {
            let w = "unimplementable"@;
            assert(w.len() == 15);
            assert("const_trait"@.len() == 11 && "compiler::const_trait"@.len() == 21);
            assert("fundamental"@.len() == 11 && "compiler::fundamental"@.len() == 21);
            assert("coinductive"@.len() == 11 && "compiler::coinductive"@.len() == 21);
            assert("rustc_coinductive"@.len() == 17);
            assert("object_unimplementable"@.len() == 22);
            assert("compiler::object_unimplementable"@.len() == 32);
            assert("rustc_do_not_implement_via_object"@.len() == 33);
            lemma_no_symbol_is(const_trait_symbols(), w);
            lemma_no_symbol_is(fundamental_symbols(), w);
            lemma_no_symbol_is(coinductive_symbols(), w);
            lemma_no_symbol_is(object_unimplementable_symbols(), w);
            lemma_first_symbol_is(unimplementable_symbols(), w);
        },
        ItemAttribut::Transparent | ItemAttribut::CLayout => {
            lemma_word_path(repr_symbol().0@, "repr"@);
            assert("C"@.len() == 1 && "transparent"@.len() == 11);
        },
        ItemAttribut::Unknown => {},
    }
}

fn symbols2(a: &'static str, b: &'static str) -> (r: Vec<Symbol>)
    ensures
        r@ == seq![Symbol(a), Symbol(b)],
{
    let mut r = Vec::new();
    r.push(Symbol(a));
    r.push(Symbol(b));
    assert(r@ =~= seq![Symbol(a), Symbol(b)]);
    r
}

fn symbols3(a: &'static str, b: &'static str, c: &'static str) -> (r: Vec<Symbol>)
    ensures
        r@ == seq![Symbol(a), Symbol(b), Symbol(c)],
{
    let mut r = symbols2(a, b);
    r.push(Symbol(c));
    assert(r@ =~= seq![Symbol(a), Symbol(b), Symbol(c)]);
    r
}

/// Whether one of `syms` names `path`.
fn any_matches(syms: &Vec<Symbol>, path: &Vec<String>) -> (r: bool)
    ensures
        r == matches_any(syms@, path_view(path@)),
{
    let mut i: usize = 0;
    while i < syms.len()
        invariant
            i <= syms.len(),
            forall|j: int| 0 <= j < i ==> !symbol_matches(#[trigger] syms@[j].0@, path_view(path@)),
        decreases syms.len() - i,
    {
        if syms[i].matches_path(path) {
            return true;
        }
        i = i + 1;
    }
    false
}

impl ItemAttribut {
    /// Classifies one attribute of a declaration; attributes this library does not know
    /// are `Unknown`.
    pub fn from_attribute(a: &Attribute) -> (r: ItemAttribut)
        ensures
            r == classify(a@),
    {
        match &a.args {
            AttrArgs::Word => {
                if any_matches(&symbols2("const_trait", "compiler::const_trait"), &a.path) {
                    ItemAttribut::ConstTrait
                } else if any_matches(&symbols2("fundamental", "compiler::fundamental"), &a.path) {
                    ItemAttribut::Fundamental
                } else if any_matches(
                    &symbols3("coinductive", "compiler::coinductive", "rustc_coinductive"),
                    &a.path,
                ) {
                    ItemAttribut::Coinductive
                } else if any_matches(
                    &symbols3(
                        "object_unimplementable",
                        "compiler::object_unimplementable",
                        "rustc_do_not_implement_via_object",
                    ),
                    &a.path,
                ) {
                    ItemAttribut::ObjectUnimplementable
                } else if any_matches(
                    &symbols3(
                        "unimplementable",
                        "compiler::unimplementable",
                        "rustc_deny_explicit_impl",
                    ),
                    &a.path,
                ) {
                    ItemAttribut::Unimplementable
                } else {
                    ItemAttribut::Unknown
                }
            },
            AttrArgs::List(args) => {
                if Symbol("repr").matches_path(&a.path) && args.len() == 1 {
                    if Symbol("transparent").matches_ident(&args[0]) {
                        ItemAttribut::Transparent
                    } else if Symbol("C").matches_ident(&args[0]) {
                        ItemAttribut::CLayout
                    } else {
                        ItemAttribut::Unknown
                    }
                } else {
                    ItemAttribut::Unknown
                }
            },
            AttrArgs::Value => ItemAttribut::Unknown,
        }
    }
}

} // verus!
