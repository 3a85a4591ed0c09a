//! Diagnostics gathered while parsing an attribute: immediate errors, each with its place,
//! and the names of required fields never set, reported together at the end.

use vstd::prelude::*;

use crate::symbol::path_view;

verus! {

/// Where a diagnostic points: a range of input tokens, the end of the input, or the
/// attribute as a whole.
#[derive(Debug, Clone, Copy, PartialEq, Eq, Structural)]
pub enum Span {
    CallSite,
    EndOfInput,
    /// Tokens `start..end` of the argument list.
    Tokens(usize, usize),
}

/// What went wrong.
#[derive(Debug, Clone, PartialEq, Eq)]
pub enum Issue {
    ExpectedComma,
    ExpectedIdentifier,
    ExpectedEquals,
    ExpectedBoolean,
    ExpectedString,
    ExpectedExpression,
    UnrecognizedArgument,
    /// A field given a second time.
    DuplicateAttribute(&'static str),
    /// Two flags that exclude each other were both given.
    ExclusiveFlags,
    /// A message composed elsewhere.
    Custom(String),
}

/// One error, with its place.
#[derive(Debug, Clone, PartialEq, Eq)]
pub struct Diagnostic {
    pub issue: Issue,
    pub span: Span,
}

/// The accumulator of one parse.
pub struct Context {
    pub dirty_errors: Vec<String>,
    pub errors: Vec<Diagnostic>,
}

/// What `check` reports: the message made of the unset fields, if any, first, then every
/// immediate error in the order it was recorded; nothing when there is neither.
pub open spec fn combined(merged: Option<String>, errors: Seq<Diagnostic>) -> Option<
    Seq<Diagnostic>,
> {
    match merged {
        Some(msg) => Some(seq![Diagnostic { issue: Issue::Custom(msg), span: Span::CallSite }] + errors),
        None => if errors.len() == 0 {
            None
        } else {
            Some(errors)
        },
    }
}

impl Context {
    pub fn new() -> (r: Context)
        ensures
            r.dirty_errors@.len() == 0,
            r.errors@.len() == 0,
    {
        Context { dirty_errors: Vec::new(), errors: Vec::new() }
    }

    pub fn push_error(&mut self, error: Diagnostic)
        ensures
            final(self).errors@ == old(self).errors@.push(error),
            final(self).dirty_errors@ == old(self).dirty_errors@,
    {
        self.errors.push(error);
    }

    /// Records a required field that was never set.
    pub fn push_dirty_error(&mut self, name: String)
        ensures
            final(self).dirty_errors@ == old(self).dirty_errors@.push(name),
            final(self).errors@ == old(self).errors@,
    {
        self.dirty_errors.push(name);
    }

    /// Consumes the context: succeeds when nothing was recorded, else returns every error,
    /// led by the one that `merge_dirty` makes of the unset fields' names.
    pub fn check<F: FnOnce(Vec<String>) -> Option<String>>(self, merge_dirty: F) -> (r: Result<
        (),
        Vec<Diagnostic>,
    >)
        requires
            merge_dirty.requires((self.dirty_errors,)),
        ensures
            exists|m: Option<String>|
                merge_dirty.ensures((self.dirty_errors,), m) && match (r, #[trigger] combined(
                    m,
                    self.errors@,
                )) {
                    (Ok(()), None) => true,
                    (Err(v), Some(s)) => v@ == s,
                    _ => false,
                },
    {
        let Context { dirty_errors, errors } = self;
        let merged = merge_dirty(dirty_errors);
        let ghost m = merged;
        match merged {
            Some(msg) => {
                let mut all: Vec<Diagnostic> = Vec::new();
                all.push(Diagnostic { issue: Issue::Custom(msg), span: Span::CallSite });
                let ghost first = all@;
                let ghost errs = errors@;
                let mut rest = errors;
                all.append(&mut rest);
                assert(all@ =~= first + errs);
                assert(combined(m, errs) == Some(all@));
                Err(all)
            },
            None => {
                if errors.len() == 0 {
                    Ok(())
                } else {
                    Err(errors)
                }
            },
        }
    }
}

/// `a, b, c`: the names separated by commas.
pub open spec fn comma_list(names: Seq<Seq<char>>) -> Seq<char>
    decreases names.len(),
{
    if names.len() <= 1 {
        if names.len() == 0 {
            Seq::empty()
        } else {
            names[0]
        }
    } else {
        comma_list(names.drop_last()) + ", "@ + names.last()
    }
}

/// `a, b and c`: the names separated by commas, the last two by `and`.
pub open spec fn and_list(names: Seq<Seq<char>>) -> Seq<char> {
    if names.len() <= 1 {
        comma_list(names)
    } else {
        comma_list(names.drop_last()) + " and "@ + names.last()
    }
}

/// Renders the names of unset fields as one message, `a, b and c need to be set`; `None`
/// when there are none.
pub fn merge_unsetted_args(args: Vec<String>) -> (r: Option<String>)
    ensures
        args@.len() == 0 ==> r is None,
        args@.len() > 0 ==> (r matches Some(s) && s@ == and_list(path_view(args@))
            + " need to be set"@),
{
    let len = args.len();
    if len == 0 {
        return None;
    }
    let ghost names = path_view(args@);
    let mut acc = args[0].clone();
    let mut i: usize = 1;
    assert(names.subrange(0, 1).drop_last() =~= Seq::<Seq<char>>::empty());
    while i + 1 < len
        invariant
            1 <= i <= len - 1 || (len == 1 && i == 1),
            len == args@.len(),
            names == path_view(args@),
            acc@ == comma_list(names.subrange(0, i as int)),
        decreases len - i,
    {
        let ghost before = names.subrange(0, i as int);
        acc.append(", ");
        acc.append(args[i].as_str());
        proof {
            let now = names.subrange(0, i + 1);
            assert(now.drop_last() =~= before);
        }
        i = i + 1;
    }
    if len >= 2 {
        acc.append(" and ");
        acc.append(args[len - 1].as_str());
        proof {
            assert(names.drop_last() =~= names.subrange(0, len - 1));
        }
    } else {
        assert(names.subrange(0, 1) =~= names);
    }
    acc.append(" need to be set");
    Some(acc)
}

} // verus!
