//! Symbols: names, possibly `::`-qualified, matched against parsed paths.

use vstd::prelude::*;

verus! {

/// Splits `s` at each `::`, left to right, the way `str::split("::")` does.
pub open spec fn split_segments(s: Seq<char>) -> Seq<Seq<char>>
    decreases s.len(),
{
    if s.len() == 0 {
        seq![Seq::<char>::empty()]
    } else if s.len() >= 2 && s[0] == ':' && s[1] == ':' {
        seq![Seq::<char>::empty()] + split_segments(s.skip(2))
    } else {
        prepend_to_first(seq![s[0]], split_segments(s.skip(1)))
    }
}

/// Puts `c` in front of the first segment of `segs`.
pub open spec fn prepend_to_first(c: Seq<char>, segs: Seq<Seq<char>>) -> Seq<Seq<char>> {
    segs.update(0, c + segs[0])
}

/// The view of a parsed path: one character sequence per segment.
pub open spec fn path_view(path: Seq<String>) -> Seq<Seq<char>> {
    path.map_values(|p: String| p@)
}

/// A symbol matches a path when its `::`-separated parts are the path's segments, in order.
pub open spec fn symbol_matches(sym: Seq<char>, path: Seq<Seq<char>>) -> bool {
    split_segments(sym) == path
}

pub proof fn lemma_split_nonempty(s: Seq<char>)
    ensures
        split_segments(s).len() >= 1,
    decreases s.len(),
{
    if s.len() == 0 {
    } else if s.len() >= 2 && s[0] == ':' && s[1] == ':' {
        lemma_split_nonempty(s.skip(2));
    } else {
        lemma_split_nonempty(s.skip(1));
    }
}

/// Whether `s` holds no `:` at all.
pub open spec fn is_plain_word(s: Seq<char>) -> bool {
    forall|i: int| 0 <= i < s.len() ==> s[i] != ':'
}

/// Whether `s` holds `::` somewhere.
pub open spec fn has_separator(s: Seq<char>) -> bool {
    exists|i: int| 0 <= i && i + 1 < s.len() && #[trigger] s[i] == ':' && s[i + 1] == ':'
}

pub proof fn lemma_plain_word_is_one_segment(s: Seq<char>)
    requires
        is_plain_word(s),
    ensures
        split_segments(s) == seq![s],
    decreases s.len(),
{
    if s.len() == 0 {
        assert(s =~= Seq::<char>::empty());
    } else {
        let rest = s.skip(1);
        assert(is_plain_word(rest)) by {
            assert forall|i: int| 0 <= i < rest.len() implies rest[i] != ':' by {
                assert(rest[i] == s[i + 1]);
            }
        }
        lemma_plain_word_is_one_segment(rest);
        assert(seq![s[0]] + rest =~= s);
        assert(prepend_to_first(seq![s[0]], seq![rest]) =~= seq![s]);
    }
}

pub proof fn lemma_separator_gives_segments(s: Seq<char>)
    requires
        has_separator(s),
    ensures
        split_segments(s).len() >= 2,
    decreases s.len(),
{
    let i = choose|i: int| 0 <= i && i + 1 < s.len() && #[trigger] s[i] == ':' && s[i + 1] == ':';
    if s[0] == ':' && s[1] == ':' {
        lemma_split_nonempty(s.skip(2));
    } else {
        let rest = s.skip(1);
        assert(i >= 1);
        assert(rest[i - 1] == ':' && rest[i] == ':');
        lemma_separator_gives_segments(rest);
    }
}

/// A symbol without `::` matches no path of several segments, and a symbol with `::`
/// matches no path of a single segment.
pub proof fn law_words_and_paths_never_mix(sym: Seq<char>, path: Seq<Seq<char>>)
    ensures
        is_plain_word(sym) && path.len() != 1 ==> !symbol_matches(sym, path),
        has_separator(sym) && path.len() == 1 ==> !symbol_matches(sym, path),
{
    if is_plain_word(sym) {
        lemma_plain_word_is_one_segment(sym);
    }
    if has_separator(sym) {
        lemma_separator_gives_segments(sym);
    }
}

/// The segments put back together, `::` between each two.
pub open spec fn join_segments(segs: Seq<Seq<char>>) -> Seq<char>
    decreases segs.len(),
{
    if segs.len() == 0 {
        Seq::empty()
    } else if segs.len() == 1 {
        segs[0]
    } else {
        segs[0] + seq![':', ':'] + join_segments(segs.drop_first())
    }
}

pub proof fn lemma_join_split(s: Seq<char>)
    ensures
        join_segments(split_segments(s)) == s,
    decreases s.len(),
{
    if s.len() == 0 {
        assert(s =~= Seq::<char>::empty());
    } else if s.len() >= 2 && s[0] == ':' && s[1] == ':' {
        let r = split_segments(s.skip(2));
        lemma_split_nonempty(s.skip(2));
        lemma_join_split(s.skip(2));
        let segs = seq![Seq::<char>::empty()] + r;
        assert(segs.drop_first() =~= r);
        assert(Seq::<char>::empty() + seq![':', ':'] + s.skip(2) =~= s);
    } else {
        let r = split_segments(s.skip(1));
        lemma_split_nonempty(s.skip(1));
        lemma_join_split(s.skip(1));
        let segs = prepend_to_first(seq![s[0]], r);
        if r.len() == 1 {
            assert(seq![s[0]] + s.skip(1) =~= s);
        } else {
            assert(segs.drop_first() =~= r.drop_first());
            assert(seq![s[0]] + r[0] + seq![':', ':'] + join_segments(r.drop_first()) =~= seq![s[0]]
                + join_segments(r));
            assert(seq![s[0]] + s.skip(1) =~= s);
        }
    }
}

/// A path of one plain word is matched by that word and by nothing else.
pub proof fn lemma_word_path(sym: Seq<char>, w: Seq<char>)
    requires
        is_plain_word(w),
    ensures
        symbol_matches(sym, seq![w]) <==> sym == w,
{
    lemma_plain_word_is_one_segment(w);
    if symbol_matches(sym, seq![w]) {
        lemma_join_split(sym);
        assert(join_segments(seq![w]) == w);
    }
}

/// A name of one word.
#[derive(Clone, Copy)]
pub struct Symbol(pub &'static str);

impl Symbol {
    /// Splits the symbol's text into its `::`-separated parts.
    pub fn segments(&self) -> (r: Vec<String>)
        ensures
            path_view(r@) == split_segments(self.0@),
    {
        let s: &str = self.0;
        let n = s.unicode_len();
        let mut done: Vec<String> = Vec::new();
        let mut start: usize = 0;
        let mut i: usize = 0;
        proof {
            lemma_split_nonempty(s@);
            assert(s@.skip(0) =~= s@);
            assert(path_view(done@) =~= Seq::<Seq<char>>::empty());
            assert(s@.subrange(0, 0) + split_segments(s@)[0] =~= split_segments(s@)[0]);
            assert(prepend_to_first(s@.subrange(0, 0), split_segments(s@)) =~= split_segments(s@));
            assert(path_view(done@) + split_segments(s@) =~= split_segments(s@));
        }
        while i < n
            invariant
                n == s@.len(),
                start <= i <= n,
                split_segments(s@) == path_view(done@) + prepend_to_first(
                    s@.subrange(start as int, i as int),
                    split_segments(s@.skip(i as int)),
                ),
            decreases n - i,
        {
            let c = s.get_char(i);
            assert(s@.skip(i as int)[0] == c);
            if c == ':' && i + 1 < n && s.get_char(i + 1) == ':' {
                let part = String::from_str(s.substring_char(start, i));
                let ghost rest = split_segments(s@.skip(i + 2));
                proof {
                    lemma_split_nonempty(s@.skip(i + 2));
                    assert(s@.skip(i as int).skip(2) =~= s@.skip(i + 2));
                    assert(split_segments(s@.skip(i as int)) == seq![Seq::<char>::empty()] + rest);
                    assert(prepend_to_first(s@.subrange(start as int, i as int), seq![Seq::<char>::empty()] + rest)
                        =~= seq![s@.subrange(start as int, i as int)] + rest);
                    assert(prepend_to_first(s@.subrange(i + 2, i + 2), rest) =~= rest) by {
                        assert(s@.subrange(i + 2, i + 2) + rest[0] =~= rest[0]);
                    }
                    assert(path_view(done@.push(part)) =~= path_view(done@).push(part@));
                }
                done.push(part);
                i = i + 2;
                start = i;
            } else {
                let ghost rest = split_segments(s@.skip(i + 1));
                proof {
                    lemma_split_nonempty(s@.skip(i + 1));
                    assert(s@.skip(i as int).skip(1) =~= s@.skip(i + 1));
                    assert(split_segments(s@.skip(i as int)) == prepend_to_first(seq![c], rest));
                    assert(s@.subrange(start as int, i as int) + (seq![c] + rest[0])
                        =~= s@.subrange(start as int, i + 1) + rest[0]);
                    assert(prepend_to_first(s@.subrange(start as int, i as int), prepend_to_first(seq![c], rest))
                        =~= prepend_to_first(s@.subrange(start as int, i + 1), rest));
                }
                i = i + 1;
            }
        }
        let last = String::from_str(s.substring_char(start, n));
        proof {
            assert(s@.skip(n as int) =~= Seq::<char>::empty());
            assert(prepend_to_first(s@.subrange(start as int, n as int), seq![Seq::<char>::empty()])
                =~= seq![s@.subrange(start as int, n as int)]);
            assert(path_view(done@.push(last)) =~= path_view(done@).push(last@));
        }
        done.push(last);
        done
    }

    /// Whether the symbol names `path`, segment by segment.
    pub fn matches_path(&self, path: &Vec<String>) -> (r: bool)
        ensures
            r == symbol_matches(self.0@, path_view(path@)),
    {
        let segs = self.segments();
        if segs.len() != path.len() {
            assert(path_view(segs@).len() != path_view(path@).len());
            return false;
        }
        let mut k: usize = 0;
        while k < segs.len()
            invariant
                segs.len() == path.len(),
                path_view(segs@) == split_segments(self.0@),
                k <= segs.len(),
                forall|j: int| 0 <= j < k ==> segs@[j]@ == path@[j]@,
            decreases segs.len() - k,
        {
            if segs[k] != path[k] {
                assert(path_view(segs@)[k as int] != path_view(path@)[k as int]);
                return false;
            }
            k = k + 1;
        }
        assert(path_view(segs@) =~= path_view(path@));
        true
    }

    /// Whether the symbol is the identifier `ident`.
    pub fn matches_ident(&self, ident: &String) -> (r: bool)
        ensures
            r == (self.0@ == ident@),
    {
        let own = String::from_str(self.0);
        own == *ident
    }
}

} // verus!
