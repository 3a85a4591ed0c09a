//! The human-readable text of every diagnostic.

use vstd::prelude::*;

use crate::context::{Diagnostic, Issue};
use crate::lang_item::{LangItem, LangItemError};

verus! {

pub open spec fn digit(d: nat) -> char {
    if d == 0 { '0' } else if d == 1 { '1' } else if d == 2 { '2' } else if d == 3 { '3' }
    else if d == 4 { '4' } else if d == 5 { '5' } else if d == 6 { '6' } else if d == 7 { '7' }
    else if d == 8 { '8' } else { '9' }
}

/// The decimal digits of `n`, most significant first.
pub open spec fn decimal(n: nat) -> Seq<char>
    decreases n,
{
    if n < 10 {
        seq![digit(n)]
    } else {
        decimal(n / 10) + seq![digit(n % 10)]
    }
}

fn digit_text(d: usize) -> (r: &'static str)
    requires
        d < 10,
    ensures
        r@ == seq![digit(d as nat)],
{
    proof {
        reveal_strlit("0");
        reveal_strlit("1");
        reveal_strlit("2");
        reveal_strlit("3");
        reveal_strlit("4");
        reveal_strlit("5");
        reveal_strlit("6");
        reveal_strlit("7");
        reveal_strlit("8");
        reveal_strlit("9");
    }
    let r = if d == 0 { "0" } else if d == 1 { "1" } else if d == 2 { "2" } else if d == 3 { "3" }
    else if d == 4 { "4" } else if d == 5 { "5" } else if d == 6 { "6" } else if d == 7 { "7" }
    else if d == 8 { "8" } else { "9" };
    assert(r@ =~= seq![digit(d as nat)]);
    r
}

/// Appends the decimal digits of `n` to `out`.
pub fn push_decimal(out: &mut String, n: usize)
    ensures
        final(out)@ == old(out)@ + decimal(n as nat),
    decreases n,
{
    if n >= 10 {
        push_decimal(out, n / 10);
    }
    out.append(digit_text(n % 10));
    assert(final(out)@ =~= old(out)@ + decimal(n as nat));
}

/// "`name` item"
pub open spec fn item_words(li: LangItem) -> Seq<char> {
    "`"@ + li.spec_name()@ + "` item"@
}

/// The message of a lang-item error.
pub open spec fn lang_error_message(e: LangItemError) -> Seq<char> {
    match e {
        LangItemError::Unknown(n) => "\""@ + n@ + "\" is not a valid compiler lang item."@,
        LangItemError::WrongTarget(li) => item_words(li) + " must be applied to a "@
            + li.spec_entry().target.spec_name() + " item"@,
        LangItemError::MissingModifier(li, c) => item_words(li) + " must be an "@ + c.spec_name()
            + " "@ + li.spec_entry().target.spec_name(),
        LangItemError::ArgumentCount { item, expected, found } => item_words(item)
            + " expected to have "@ + decimal(expected as nat) + " arguments but the definition has "@
            + decimal(found as nat) + " arguments\n please force the function to have "@ + decimal(
            expected as nat,
        ) + " arguments"@,
        LangItemError::GenericCount { item, expected, found } => item_words(item)
            + " expected to have "@ + decimal(expected as nat) + " generics but the definition has "@
            + decimal(found as nat) + " generics\n please force the "@
            + item.spec_entry().target.spec_name() + " item to have "@ + decimal(expected as nat)
            + " generics"@,
        LangItemError::MissingProperty(li, c) => item_words(li) + " must be a "@ + c.spec_name()
            + " "@ + li.spec_entry().target.spec_name(),
    }
}

fn push_item_words(out: &mut String, li: LangItem)
    ensures
        final(out)@ == old(out)@ + item_words(li),
{
    let e = li.entry();
    out.append("`");
    out.append(e.name);
    out.append("` item");
    proof {
        li.lemma_entry_name();
    }
    assert(final(out)@ =~= old(out)@ + item_words(li));
}

impl LangItemError {
    /// The text of the error.
    pub fn message(&self) -> (r: String)
        ensures
            r@ == lang_error_message(*self),
    {
        let mut out = String::new();
        match self {
            LangItemError::Unknown(n) => {
                out.append("\"");
                out.append(n.as_str());
                out.append("\" is not a valid compiler lang item.");
            },
            LangItemError::WrongTarget(li) => {
                push_item_words(&mut out, *li);
                out.append(" must be applied to a ");
                out.append(li.entry().target.name());
                out.append(" item");
            },
            LangItemError::MissingModifier(li, c) => {
                push_item_words(&mut out, *li);
                out.append(" must be an ");
                out.append(c.name());
                out.append(" ");
                out.append(li.entry().target.name());
            },
            LangItemError::ArgumentCount { item, expected, found } => {
                push_item_words(&mut out, *item);
                out.append(" expected to have ");
                push_decimal(&mut out, *expected);
                out.append(" arguments but the definition has ");
                push_decimal(&mut out, *found);
                out.append(" arguments\n please force the function to have ");
                push_decimal(&mut out, *expected);
                out.append(" arguments");
            },
            LangItemError::GenericCount { item, expected, found } => {
                push_item_words(&mut out, *item);
                out.append(" expected to have ");
                push_decimal(&mut out, *expected);
                out.append(" generics but the definition has ");
                push_decimal(&mut out, *found);
                out.append(" generics\n please force the ");
                out.append(item.entry().target.name());
                out.append(" item to have ");
                push_decimal(&mut out, *expected);
                out.append(" generics");
            },
            LangItemError::MissingProperty(li, c) => {
                push_item_words(&mut out, *li);
                out.append(" must be a ");
                out.append(c.name());
                out.append(" ");
                out.append(li.entry().target.name());
            },
        }
        assert(out@ =~= lang_error_message(*self));
        out
    }
}

/// The message of a diagnostic of the attribute grammar.
pub open spec fn issue_message(i: Issue) -> Seq<char> {
    match i {
        Issue::ExpectedComma => "expected `,`"@,
        Issue::ExpectedIdentifier => "expected identifier"@,
        Issue::ExpectedEquals => "expected `=`"@,
        Issue::ExpectedBoolean => "expected boolean literal"@,
        Issue::ExpectedString => "expected string literal"@,
        Issue::ExpectedExpression => "expected an expression"@,
        Issue::UnrecognizedArgument => "unrecognized argument"@,
        Issue::DuplicateAttribute(n) => "duplicate attribute `"@ + n@ + "`"@,
        Issue::ExclusiveFlags => "cannot have intrinsic and stabilisable at the same time"@,
        Issue::Custom(m) => m@,
    }
}

impl Diagnostic {
    /// The text of the diagnostic.
    pub fn message(&self) -> (r: String)
        ensures
            r@ == issue_message(self.issue),
    {
        match &self.issue {
            Issue::ExpectedComma => String::from_str("expected `,`"),
            Issue::ExpectedIdentifier => String::from_str("expected identifier"),
            Issue::ExpectedEquals => String::from_str("expected `=`"),
            Issue::ExpectedBoolean => String::from_str("expected boolean literal"),
            Issue::ExpectedString => String::from_str("expected string literal"),
            Issue::ExpectedExpression => String::from_str("expected an expression"),
            Issue::UnrecognizedArgument => String::from_str("unrecognized argument"),
            Issue::DuplicateAttribute(n) => {
                let mut out = String::from_str("duplicate attribute `");
                out.append(n);
                out.append("`");
                out
            },
            Issue::ExclusiveFlags => String::from_str(
                "cannot have intrinsic and stabilisable at the same time",
            ),
            Issue::Custom(m) => m.clone(),
        }
    }
}

} // verus!
