//! Checks a declaration against the registry entry of the lang item it claims to be.

use vstd::prelude::*;

use crate::declaration::{
    canonical_attribute, classify, lemma_canonical_attribute, AttributeView, Declaration,
    DeclarationView,
};
use crate::lang_item::{
    annotations_of, resolve, Annotation, Constraint, EntryView, ItemAttribut, LangItem,
    LangItemError, Target,
};

verus! {

/// The count of the first `Generics` constraint, if there is one.
pub open spec fn first_generics(cs: Seq<Constraint>) -> Option<usize>
    decreases cs.len(),
{
    if cs.len() == 0 {
        None
    } else if let Constraint::Generics(n) = cs[0] {
        Some(n)
    } else {
        first_generics(cs.drop_first())
    }
}

/// The count of the first `Arguments` constraint, if there is one.
pub open spec fn first_arguments(cs: Seq<Constraint>) -> Option<usize>
    decreases cs.len(),
{
    if cs.len() == 0 {
        None
    } else if let Constraint::Arguments(n) = cs[0] {
        Some(n)
    } else {
        first_arguments(cs.drop_first())
    }
}

/// The number of generic parameters an entry asks for: none unless it says otherwise.
pub open spec fn expected_generics(cs: Seq<Constraint>) -> usize {
    match first_generics(cs) {
        Some(n) => n,
        None => 0,
    }
}

/// The number of arguments a function entry asks for: none unless it says otherwise.
pub open spec fn expected_arguments(cs: Seq<Constraint>) -> usize {
    match first_arguments(cs) {
        Some(n) => n,
        None => 0,
    }
}

/// Whether the shape checks of a declaration of shape `t` settle constraint `c`.
pub open spec fn settled_by_shape(c: Constraint, t: Target) -> bool {
    match c {
        Constraint::Auto => t == Target::Trait,
        Constraint::Unsafety => t == Target::Trait || t == Target::Fn,
        Constraint::Constness => t == Target::Fn,
        Constraint::Arguments(_) => t == Target::Fn,
        Constraint::Generics(_) => true,
        _ => false,
    }
}

/// Whether one of `attrs` classifies as `k`.
pub open spec fn attrs_have(attrs: Seq<AttributeView>, k: ItemAttribut) -> bool {
    exists|i: int| 0 <= i < attrs.len() && #[trigger] classify(attrs[i]) == k
}

/// Whether some attribute of `d` classifies as `k`.
pub open spec fn has_attribute(d: DeclarationView, k: ItemAttribut) -> bool {
    attrs_have(d.attributes, k)
}

/// The attribute that establishes constraint `c`, for those that an attribute can establish.
pub open spec fn attribute_for(c: Constraint) -> Option<ItemAttribut> {
    match c {
        Constraint::Constness => Some(ItemAttribut::ConstTrait),
        Constraint::Coinductive => Some(ItemAttribut::Coinductive),
        Constraint::Unimplementable => Some(ItemAttribut::Unimplementable),
        Constraint::ObjectUnimplementable => Some(ItemAttribut::ObjectUnimplementable),
        Constraint::CLayout => Some(ItemAttribut::CLayout),
        Constraint::Transparent => Some(ItemAttribut::Transparent),
        Constraint::Fundamental => Some(ItemAttribut::Fundamental),
        _ => None,
    }
}

/// Whether an attribute of `d` establishes constraint `c`.
pub open spec fn carried_by_attribute(c: Constraint, d: DeclarationView) -> bool {
    match attribute_for(c) {
        Some(k) => has_attribute(d, k),
        None => false,
    }
}

/// The first constraint, in table order, that neither the shape checks nor an attribute of
/// `d` establishes.
pub open spec fn first_unmet(cs: Seq<Constraint>, t: Target, d: DeclarationView) -> Option<
    Constraint,
>
    decreases cs.len(),
{
    if cs.len() == 0 {
        None
    } else if !settled_by_shape(cs[0], t) && !carried_by_attribute(cs[0], d) {
        Some(cs[0])
    } else {
        first_unmet(cs.drop_first(), t, d)
    }
}

/// The outcome of validating `d` as lang item `li`: the first problem found, in the order
/// shape, modifiers, argument count, generic count, remaining constraints in table order;
/// or the annotations the entry's naming policies ask for.
pub open spec fn validation(li: LangItem, d: DeclarationView) -> Result<
    Seq<Annotation>,
    LangItemError,
> {
    let e = li.spec_entry();
    let cs = e.constraints;
    let t = e.target;
    if d.kind != Some(t) {
        Err(LangItemError::WrongTarget(li))
    } else if t == Target::Trait && cs.contains(Constraint::Auto) && !d.is_auto {
        Err(LangItemError::MissingModifier(li, Constraint::Auto))
    } else if t == Target::Trait && cs.contains(Constraint::Unsafety) && !d.is_unsafe {
        Err(LangItemError::MissingModifier(li, Constraint::Unsafety))
    } else if t == Target::Fn && cs.contains(Constraint::Constness) && !d.is_const {
        Err(LangItemError::MissingModifier(li, Constraint::Constness))
    } else if t == Target::Fn && cs.contains(Constraint::Unsafety) && !d.is_unsafe {
        Err(LangItemError::MissingModifier(li, Constraint::Unsafety))
    } else if t == Target::Fn && expected_arguments(cs) != d.arguments {
        Err(
            LangItemError::ArgumentCount {
                item: li,
                expected: expected_arguments(cs),
                found: d.arguments,
            },
        )
    } else if expected_generics(cs) != d.generics {
        Err(
            LangItemError::GenericCount {
                item: li,
                expected: expected_generics(cs),
                found: d.generics,
            },
        )
    } else {
        match first_unmet(cs, t, d) {
            Some(c) => Err(LangItemError::MissingProperty(li, c)),
            None => Ok(annotations_of(e)),
        }
    }
}

fn contains_constraint(cs: &Vec<Constraint>, c: Constraint) -> (r: bool)
    ensures
        r == cs@.contains(c),
{
    let mut i: usize = 0;
    while i < cs.len()
        invariant
            i <= cs.len(),
            forall|j: int| 0 <= j < i ==> cs@[j] != c,
        decreases cs.len() - i,
    {
        if cs[i] == c {
            return true;
        }
        i = i + 1;
    }
    false
}

fn generics_count(cs: &Vec<Constraint>) -> (r: usize)
    ensures
        r == expected_generics(cs@),
{
    let mut i: usize = 0;
    assert(cs@.skip(0) =~= cs@);
    while i < cs.len()
        invariant
            i <= cs.len(),
            first_generics(cs@) == first_generics(cs@.skip(i as int)),
        decreases cs.len() - i,
    {
        assert(cs@.skip(i as int).drop_first() =~= cs@.skip(i + 1));
        if let Constraint::Generics(n) = cs[i] {
            return n;
        }
        i = i + 1;
    }
    assert(cs@.skip(i as int) =~= Seq::<Constraint>::empty());
    0
}

fn arguments_count(cs: &Vec<Constraint>) -> (r: usize)
    ensures
        r == expected_arguments(cs@),
{
    let mut i: usize = 0;
    assert(cs@.skip(0) =~= cs@);
    while i < cs.len()
        invariant
            i <= cs.len(),
            first_arguments(cs@) == first_arguments(cs@.skip(i as int)),
        decreases cs.len() - i,
    {
        assert(cs@.skip(i as int).drop_first() =~= cs@.skip(i + 1));
        if let Constraint::Arguments(n) = cs[i] {
            return n;
        }
        i = i + 1;
    }
    assert(cs@.skip(i as int) =~= Seq::<Constraint>::empty());
    0
}

fn shape_settles(c: Constraint, t: Target) -> (r: bool)
    ensures
        r == settled_by_shape(c, t),
{
    match c {
        Constraint::Auto => t == Target::Trait,
        Constraint::Unsafety => t == Target::Trait || t == Target::Fn,
        Constraint::Constness => t == Target::Fn,
        Constraint::Arguments(_) => t == Target::Fn,
        Constraint::Generics(_) => true,
        _ => false,
    }
}

/// The classified attributes of `d`, unknown ones left out.
fn known_attributes(d: &Declaration) -> (r: Vec<ItemAttribut>)
    ensures
        forall|k: ItemAttribut|
            k != ItemAttribut::Unknown ==> (r@.contains(k) <==> has_attribute(d@, k)),
{
    let mut r: Vec<ItemAttribut> = Vec::new();
    let mut i: usize = 0;
    while i < d.attributes.len()
        invariant
            i <= d.attributes.len(),
            d@.attributes.len() == d.attributes.len(),
            forall|k: ItemAttribut|
                k != ItemAttribut::Unknown ==> (r@.contains(k) <==> exists|j: int|
                    0 <= j < i && #[trigger] classify(d@.attributes[j]) == k),
        decreases d.attributes.len() - i,
    {
        let k = ItemAttribut::from_attribute(&d.attributes[i]);
        assert(d@.attributes[i as int] == d.attributes@[i as int]@);
        let ghost old_r = r@;
        if k != ItemAttribut::Unknown {
            r.push(k);
        }
        assert forall|k2: ItemAttribut| k2 != ItemAttribut::Unknown implies (r@.contains(k2)
            <==> exists|j: int| 0 <= j < i + 1 && #[trigger] classify(d@.attributes[j]) == k2) by {
            if r@.contains(k2) {
                if old_r.contains(k2) {
                } else {
                    assert(k2 == k);
                    assert(classify(d@.attributes[i as int]) == k2);
                }
            }
            if exists|j: int| 0 <= j < i + 1 && #[trigger] classify(d@.attributes[j]) == k2 {
                let j = choose|j: int| 0 <= j < i + 1 && #[trigger] classify(d@.attributes[j]) == k2;
                if j < i {
                    assert(old_r.contains(k2));
                    let m = choose|m: int| 0 <= m < old_r.len() && old_r[m] == k2;
                    assert(r@[m] == k2);
                } else {
                    assert(r@[r@.len() - 1] == k2);
                }
            }
        }
        i = i + 1;
    }
    r
}

spec fn established_by(c: Constraint, known: Seq<ItemAttribut>) -> bool {
    match attribute_for(c) {
        Some(k) => known.contains(k),
        None => false,
    }
}

fn attribute_establishes(c: Constraint, known: &Vec<ItemAttribut>) -> (r: bool)
    ensures
        r == established_by(c, known@),
{
    let k = match c {
        Constraint::Constness => ItemAttribut::ConstTrait,
        Constraint::Coinductive => ItemAttribut::Coinductive,
        Constraint::Unimplementable => ItemAttribut::Unimplementable,
        Constraint::ObjectUnimplementable => ItemAttribut::ObjectUnimplementable,
        Constraint::CLayout => ItemAttribut::CLayout,
        Constraint::Transparent => ItemAttribut::Transparent,
        Constraint::Fundamental => ItemAttribut::Fundamental,
        _ => {
            return false;
        },
    };
    assert(attribute_for(c) == Some(k));
    let mut i: usize = 0;
    while i < known.len()
        invariant
            i <= known.len(),
            attribute_for(c) == Some(k),
            forall|j: int| 0 <= j < i ==> known@[j] != k,
        decreases known.len() - i,
    {
        if known[i] == k {
            assert(known@[i as int] == k);
            return true;
        }
        i = i + 1;
    }
    false
}

/// Checks `d` against the registry entry of `li`; on success, returns the annotations the
/// declaration receives.
pub fn validate(li: LangItem, d: &Declaration) -> (r: Result<Vec<Annotation>, LangItemError>)
    ensures
        match (r, validation(li, d@)) {
            (Ok(v), Ok(s)) => v@ == s,
            (Err(e), Err(s)) => e == s,
            _ => false,
        },
{
    let entry = li.entry();
    let cs = &entry.constraints;
    let t = entry.target;
    match d.kind {
        Some(k) => {
            if k != t {
                return Err(LangItemError::WrongTarget(li));
            }
        },
        None => {
            return Err(LangItemError::WrongTarget(li));
        },
    }
    if t == Target::Trait {
        if contains_constraint(cs, Constraint::Auto) && !d.is_auto {
            return Err(LangItemError::MissingModifier(li, Constraint::Auto));
        }
        if contains_constraint(cs, Constraint::Unsafety) && !d.is_unsafe {
            return Err(LangItemError::MissingModifier(li, Constraint::Unsafety));
        }
    }
    if t == Target::Fn {
        if contains_constraint(cs, Constraint::Constness) && !d.is_const {
            return Err(LangItemError::MissingModifier(li, Constraint::Constness));
        }
        if contains_constraint(cs, Constraint::Unsafety) && !d.is_unsafe {
            return Err(LangItemError::MissingModifier(li, Constraint::Unsafety));
        }
        let n = arguments_count(cs);
        if n != d.arguments {
            return Err(LangItemError::ArgumentCount { item: li, expected: n, found: d.arguments });
        }
    }
    let g = generics_count(cs);
    if g != d.generics {
        return Err(LangItemError::GenericCount { item: li, expected: g, found: d.generics });
    }
    let known = known_attributes(d);
    let mut i: usize = 0;
    assert(cs@.skip(0) =~= cs@);
    assert(validation(li, d@) == match first_unmet(cs@, t, d@) {
        Some(c) => Err(LangItemError::MissingProperty(li, c)),
        None => Ok(annotations_of(li.spec_entry())),
    });
    while i < cs.len()
        invariant
            i <= cs.len(),
            cs@ == li.spec_entry().constraints,
            t == li.spec_entry().target,
            entry@ == li.spec_entry(),
            validation(li, d@) == match first_unmet(cs@, t, d@) {
                Some(c) => Err(LangItemError::MissingProperty(li, c)),
                None => Ok(annotations_of(li.spec_entry())),
            },
            first_unmet(cs@, t, d@) == first_unmet(cs@.skip(i as int), t, d@),
            forall|k: ItemAttribut|
                k != ItemAttribut::Unknown ==> (known@.contains(k) <==> has_attribute(d@, k)),
        decreases cs.len() - i,
    {
        assert(cs@.skip(i as int).drop_first() =~= cs@.skip(i + 1));
        let c = cs[i];
        assert(cs@.skip(i as int)[0] == c);
        if !shape_settles(c, t) && !attribute_establishes(c, &known) {
            return Err(LangItemError::MissingProperty(li, c));
        }
        i = i + 1;
    }
    assert(cs@.skip(i as int) =~= Seq::<Constraint>::empty());
    Ok(entry.annotations())
}

/// Resolves `name` in the registry and validates `d` as that lang item.
pub fn item(name: &str, d: &Declaration) -> (r: Result<Vec<Annotation>, LangItemError>)
    ensures
        !crate::lang_item::is_registered(name@) ==> (r matches Err(LangItemError::Unknown(n))
            && n@ == name@),
        crate::lang_item::is_registered(name@) ==> exists|li: LangItem|
            li.spec_name()@ == name@ && match (r, #[trigger] validation(li, d@)) {
                (Ok(v), Ok(s)) => v@ == s,
                (Err(e), Err(s)) => e == s,
                _ => false,
            },
{
    match resolve(name) {
        Ok(li) => validate(li, d),
        Err(e) => Err(e),
    }
}

/// Whether a declaration of shape `t` can meet `c` at all: through a modifier or a count
/// that the shape has, or through an attribute.
pub open spec fn attainable(c: Constraint, t: Target) -> bool {
    settled_by_shape(c, t) || attribute_for(c) is Some
}

/// Whether every constraint of the entry can be met by a declaration of its shape.
pub open spec fn all_attainable(e: EntryView) -> bool {
    forall|i: int| 0 <= i < e.constraints.len() ==> attainable(#[trigger] e.constraints[i], e.target)
}

/// The attributes that establish the constraints of `cs`, in order, leaving out the ones
/// that classify as `skip`.
pub open spec fn attributes_for(cs: Seq<Constraint>, skip: Option<ItemAttribut>) -> Seq<
    AttributeView,
>
    decreases cs.len(),
{
    if cs.len() == 0 {
        Seq::empty()
    } else {
        let rest = attributes_for(cs.drop_first(), skip);
        match attribute_for(cs[0]) {
            Some(k) => if Some(k) == skip {
                rest
            } else {
                seq![canonical_attribute(k)] + rest
            },
            None => rest,
        }
    }
}

/// Whether some constraint of `cs` is established by attribute kind `k`.
pub open spec fn asks_for_attribute(cs: Seq<Constraint>, k: ItemAttribut) -> bool {
    exists|j: int| 0 <= j < cs.len() && #[trigger] attribute_for(cs[j]) == Some(k)
}

/// A declaration built to meet every constraint of `e`, without the attributes that
/// classify as `skip`.
pub open spec fn conforming_without(e: EntryView, skip: Option<ItemAttribut>) -> DeclarationView {
    DeclarationView {
        kind: Some(e.target),
        generics: expected_generics(e.constraints),
        is_auto: e.constraints.contains(Constraint::Auto),
        is_unsafe: e.constraints.contains(Constraint::Unsafety),
        is_const: e.constraints.contains(Constraint::Constness),
        arguments: expected_arguments(e.constraints),
        attributes: attributes_for(e.constraints, skip),
    }
}

/// A declaration built to meet every constraint of `e`.
pub open spec fn conforming(e: EntryView) -> DeclarationView {
    conforming_without(e, None)
}

proof fn lemma_attributes_for(cs: Seq<Constraint>, skip: Option<ItemAttribut>, k: ItemAttribut)
    requires
        k != ItemAttribut::Unknown,
    ensures
        attrs_have(attributes_for(cs, skip), k) <==> (asks_for_attribute(cs, k) && Some(k)
            != skip),
    decreases cs.len(),
{
    if cs.len() > 0 {
        let tail = cs.drop_first();
        let rest = attributes_for(tail, skip);
        lemma_attributes_for(tail, skip, k);
        assert(asks_for_attribute(cs, k) <==> (attribute_for(cs[0]) == Some(k)
            || asks_for_attribute(tail, k))) by {
            if asks_for_attribute(tail, k) {
                let j = choose|j: int| 0 <= j < tail.len() && #[trigger] attribute_for(tail[j]) == Some(k);
                assert(attribute_for(cs[j + 1]) == Some(k));
            }
            if asks_for_attribute(cs, k) && attribute_for(cs[0]) != Some(k) {
                let j = choose|j: int| 0 <= j < cs.len() && #[trigger] attribute_for(cs[j]) == Some(k);
                assert(attribute_for(tail[j - 1]) == Some(k));
            }
        }
        match attribute_for(cs[0]) {
            Some(k0) => {
                if Some(k0) != skip {
                    let attrs = seq![canonical_attribute(k0)] + rest;
                    lemma_canonical_attribute(k0);
                    assert(attrs_have(attrs, k) <==> (k0 == k || attrs_have(rest, k))) by {
                        if attrs_have(rest, k) {
                            let i = choose|i: int| 0 <= i < rest.len() && #[trigger] classify(rest[i]) == k;
                            assert(classify(attrs[i + 1]) == k);
                        }
                        if k0 == k {
                            assert(classify(attrs[0]) == k);
                        }
                        if attrs_have(attrs, k) && k0 != k {
                            let i = choose|i: int| 0 <= i < attrs.len() && #[trigger] classify(attrs[i]) == k;
                            assert(classify(rest[i - 1]) == k);
                        }
                    }
                }
            },
            None => {},
        }
    }
}

proof fn lemma_nothing_unmet(cs: Seq<Constraint>, t: Target, d: DeclarationView)
    requires
        forall|i: int| 0 <= i < cs.len() ==> settled_by_shape(#[trigger] cs[i], t)
            || carried_by_attribute(cs[i], d),
    ensures
        first_unmet(cs, t, d) is None,
    decreases cs.len(),
{
    if cs.len() > 0 {
        assert(settled_by_shape(cs[0], t) || carried_by_attribute(cs[0], d));
        let tail = cs.drop_first();
        assert forall|i: int| 0 <= i < tail.len() implies settled_by_shape(#[trigger] tail[i], t)
            || carried_by_attribute(tail[i], d) by {
            assert(tail[i] == cs[i + 1]);
        }
        lemma_nothing_unmet(tail, t, d);
    }
}

proof fn lemma_only_unmet(cs: Seq<Constraint>, t: Target, d: DeclarationView, c: Constraint)
    requires
        cs.contains(c),
        !settled_by_shape(c, t),
        !carried_by_attribute(c, d),
        forall|i: int| 0 <= i < cs.len() ==> #[trigger] cs[i] == c || settled_by_shape(cs[i], t)
            || carried_by_attribute(cs[i], d),
    ensures
        first_unmet(cs, t, d) == Some(c),
    decreases cs.len(),
{
    if cs[0] != c {
        assert(settled_by_shape(cs[0], t) || carried_by_attribute(cs[0], d));
        let tail = cs.drop_first();
        let j = choose|j: int| 0 <= j < cs.len() && cs[j] == c;
        assert(tail[j - 1] == c);
        assert forall|i: int| 0 <= i < tail.len() implies #[trigger] tail[i] == c || settled_by_shape(
            tail[i],
            t,
        ) || carried_by_attribute(tail[i], d) by {
            assert(tail[i] == cs[i + 1]);
        }
        lemma_only_unmet(tail, t, d, c);
    }
}

/// For every lang item whose constraints can all be met by a declaration of its shape,
/// a declaration that meets them exactly is accepted, and receives the annotations that
/// the entry's naming policies ask for.
pub proof fn law_conforming_declaration_accepted(li: LangItem)
    requires
        all_attainable(li.spec_entry()),
    ensures
        validation(li, conforming(li.spec_entry())) == Ok::<Seq<Annotation>, LangItemError>(
            annotations_of(li.spec_entry()),
        ),
{
    let e = li.spec_entry();
    let cs = e.constraints;
    let d = conforming(e);
    assert forall|i: int| 0 <= i < cs.len() implies settled_by_shape(#[trigger] cs[i], e.target)
        || carried_by_attribute(cs[i], d) by {
        assert(attainable(cs[i], e.target));
        if let Some(k) = attribute_for(cs[i]) {
            assert(attribute_for(cs[i]) == Some(k));
            lemma_attributes_for(cs, None, k);
        }
    }
    lemma_nothing_unmet(cs, e.target, d);
}

/// Removing a modifier (`auto`, `unsafe`, `const`) that a lang item asks for, from a
/// declaration that otherwise meets the entry, is reported as that missing modifier.
pub proof fn law_missing_modifier_reported(li: LangItem, c: Constraint)
    requires
        all_attainable(li.spec_entry()),
        li.spec_entry().constraints.contains(c),
        c == Constraint::Auto || c == Constraint::Unsafety || c == Constraint::Constness,
        settled_by_shape(c, li.spec_entry().target),
    ensures
        validation(
            li,
            DeclarationView {
                is_auto: c != Constraint::Auto && conforming(li.spec_entry()).is_auto,
                is_unsafe: c != Constraint::Unsafety && conforming(li.spec_entry()).is_unsafe,
                is_const: c != Constraint::Constness && conforming(li.spec_entry()).is_const,
                ..conforming(li.spec_entry())
            },
        ) == Err::<Seq<Annotation>, LangItemError>(LangItemError::MissingModifier(li, c)),
{
}

/// A declaration that otherwise meets its entry but has a number of generic parameters
/// other than the one asked for is reported with both counts.
pub proof fn law_wrong_generics_reported(li: LangItem, m: usize)
    requires
        all_attainable(li.spec_entry()),
        m != expected_generics(li.spec_entry().constraints),
    ensures
        validation(li, DeclarationView { generics: m, ..conforming(li.spec_entry()) }) == Err::<
            Seq<Annotation>,
            LangItemError,
        >(
            LangItemError::GenericCount {
                item: li,
                expected: expected_generics(li.spec_entry().constraints),
                found: m,
            },
        ),
{
}

/// A function declaration that otherwise meets its entry but has a number of arguments
/// other than the one asked for is reported with both counts.
pub proof fn law_wrong_arguments_reported(li: LangItem, m: usize)
    requires
        all_attainable(li.spec_entry()),
        li.spec_entry().target == Target::Fn,
        m != expected_arguments(li.spec_entry().constraints),
    ensures
        validation(li, DeclarationView { arguments: m, ..conforming(li.spec_entry()) }) == Err::<
            Seq<Annotation>,
            LangItemError,
        >(
            LangItemError::ArgumentCount {
                item: li,
                expected: expected_arguments(li.spec_entry().constraints),
                found: m,
            },
        ),
{
}

/// Leaving out the attribute that establishes a constraint, from a declaration that
/// otherwise meets its entry, is reported as that missing property.
pub proof fn law_missing_attribute_reported(li: LangItem, c: Constraint)
    requires
        all_attainable(li.spec_entry()),
        li.spec_entry().constraints.contains(c),
        !settled_by_shape(c, li.spec_entry().target),
        attribute_for(c) is Some,
    ensures
        validation(li, conforming_without(li.spec_entry(), attribute_for(c))) == Err::<
            Seq<Annotation>,
            LangItemError,
        >(LangItemError::MissingProperty(li, c)),
{
    let e = li.spec_entry();
    let cs = e.constraints;
    let k = attribute_for(c).unwrap();
    let d = conforming_without(e, attribute_for(c));
    lemma_attributes_for(cs, attribute_for(c), k);
    assert forall|i: int| 0 <= i < cs.len() implies #[trigger] cs[i] == c || settled_by_shape(
        cs[i],
        e.target,
    ) || carried_by_attribute(cs[i], d) by {
        assert(attainable(cs[i], e.target));
        if let Some(k2) = attribute_for(cs[i]) {
            assert(attribute_for(cs[i]) == Some(k2));
            lemma_attributes_for(cs, attribute_for(c), k2);
        }
    }
    lemma_only_unmet(cs, e.target, d, c);
}

proof fn lemma_unmet_depends_on_known_attributes(
    cs: Seq<Constraint>,
    t: Target,
    d1: DeclarationView,
    d2: DeclarationView,
)
    requires
        forall|k: ItemAttribut|
            k != ItemAttribut::Unknown ==> has_attribute(d1, k) == #[trigger] has_attribute(d2, k),
    ensures
        first_unmet(cs, t, d1) == first_unmet(cs, t, d2),
    decreases cs.len(),
{
    if cs.len() > 0 {
        lemma_unmet_depends_on_known_attributes(cs.drop_first(), t, d1, d2);
    }
}

/// Attributes that classify as unknown neither establish a constraint nor cause an error:
/// adding any number of them to a declaration leaves the outcome of validation unchanged.
pub proof fn law_unknown_attributes_ignored(
    li: LangItem,
    d: DeclarationView,
    extra: Seq<AttributeView>,
)
    requires
        forall|i: int| 0 <= i < extra.len() ==> classify(#[trigger] extra[i]) == ItemAttribut::Unknown,
    ensures
        validation(li, DeclarationView { attributes: d.attributes + extra, ..d }) == validation(li, d),
{
    let d2 = DeclarationView { attributes: d.attributes + extra, ..d };
    assert forall|k: ItemAttribut| k != ItemAttribut::Unknown implies has_attribute(d, k)
        == #[trigger] has_attribute(d2, k) by {
        if has_attribute(d, k) {
            let i = choose|i: int| 0 <= i < d.attributes.len() && #[trigger] classify(d.attributes[i]) == k;
            assert(classify(d2.attributes[i]) == k);
        }
        if has_attribute(d2, k) {
            let i = choose|i: int| 0 <= i < d2.attributes.len() && #[trigger] classify(d2.attributes[i]) == k;
            if i >= d.attributes.len() {
                assert(classify(extra[i - d.attributes.len()]) == ItemAttribut::Unknown);
            } else {
                assert(classify(d.attributes[i]) == k);
            }
        }
    }
    let e = li.spec_entry();
    lemma_unmet_depends_on_known_attributes(e.constraints, e.target, d, d2);
}

} // verus!
