//! Text helpers: characters, whitespace-delimited tokens, prefixes and joins, each stated
//! over the sequence of characters that a string denotes.

use vstd::prelude::*;

verus! {

/// Whether `c` is whitespace, as Unicode marks it (`White_Space`).
pub open spec fn is_whitespace(c: char) -> bool {
    ||| ('\u{9}' <= c && c <= '\u{d}')
    ||| c == ' '
    ||| c == '\u{85}'
    ||| c == '\u{a0}'
    ||| c == '\u{1680}'
    ||| ('\u{2000}' <= c && c <= '\u{200a}')
    ||| c == '\u{2028}'
    ||| c == '\u{2029}'
    ||| c == '\u{202f}'
    ||| c == '\u{205f}'
    ||| c == '\u{3000}'
}

/// Decides whether `c` is whitespace.
pub fn char_is_whitespace(c: char) -> (b: bool)
    ensures
        b == is_whitespace(c),
{
    ('\u{9}' <= c && c <= '\u{d}') || c == ' ' || c == '\u{85}' || c == '\u{a0}' || c
        == '\u{1680}' || ('\u{2000}' <= c && c <= '\u{200a}') || c == '\u{2028}' || c
        == '\u{2029}' || c == '\u{202f}' || c == '\u{205f}' || c == '\u{3000}'
}

/// The token that ends where `pending` ends, if `pending` holds any character.
pub open spec fn closed(pending: Seq<char>) -> Seq<Seq<char>> {
    if pending.len() > 0 {
        seq![pending]
    } else {
        Seq::empty()
    }
}

/// The tokens of `s` from index `from` on, where `pending` holds the characters of the token
/// that is open at `from`.
pub open spec fn tokens_from(s: Seq<char>, from: int, pending: Seq<char>) -> Seq<Seq<char>>
    decreases s.len() - from,
{
    if from < 0 || from >= s.len() {
        closed(pending)
    } else if is_whitespace(s[from]) {
        closed(pending) + tokens_from(s, from + 1, Seq::empty())
    } else {
        tokens_from(s, from + 1, pending.push(s[from]))
    }
}

/// The maximal runs of characters of `s` that hold no whitespace, in the order in which they
/// occur.
pub open spec fn tokens(s: Seq<char>) -> Seq<Seq<char>> {
    tokens_from(s, 0, Seq::empty())
}

/// Whether `token` can be a token: it is not empty and holds no whitespace.
pub open spec fn is_token(token: Seq<char>) -> bool {
    &&& token.len() > 0
    &&& forall|k: int| 0 <= k < token.len() ==> !is_whitespace(#[trigger] token[k])
}

/// The tokens from an index on are tokens, as long as the open token holds no whitespace.
pub proof fn lemma_tokens_from_are_tokens(s: Seq<char>, from: int, pending: Seq<char>)
    requires
        forall|k: int| 0 <= k < pending.len() ==> !is_whitespace(#[trigger] pending[k]),
    ensures
        forall|i: int|
            0 <= i < tokens_from(s, from, pending).len() ==> is_token(
                #[trigger] tokens_from(s, from, pending)[i],
            ),
    decreases s.len() - from,
{
    let all = tokens_from(s, from, pending);
    if from < 0 || from >= s.len() {
        assert forall|i: int| 0 <= i < all.len() implies is_token(#[trigger] all[i]) by {
            assert(all[i] == pending);
        }
    } else if is_whitespace(s[from]) {
        let rest = tokens_from(s, from + 1, Seq::empty());
        lemma_tokens_from_are_tokens(s, from + 1, Seq::empty());
        assert forall|i: int| 0 <= i < all.len() implies is_token(#[trigger] all[i]) by {
            if i < closed(pending).len() {
                assert(all[i] == pending);
            } else {
                assert(all[i] == rest[i - closed(pending).len()]);
            }
        }
    } else {
        let longer = pending.push(s[from]);
        assert forall|k: int| 0 <= k < longer.len() implies !is_whitespace(#[trigger] longer[k]) by {
            if k < pending.len() {
                assert(longer[k] == pending[k]);
            }
        }
        lemma_tokens_from_are_tokens(s, from + 1, longer);
        assert(all == tokens_from(s, from + 1, longer));
    }
}

/// No token is empty, and no token holds whitespace.
pub proof fn lemma_tokens_are_tokens(s: Seq<char>)
    ensures
        forall|i: int| 0 <= i < tokens(s).len() ==> is_token(#[trigger] tokens(s)[i]),
{
    lemma_tokens_from_are_tokens(s, 0, Seq::empty());
}

/// The concatenation of the members of `parts` from index `from` on.
pub open spec fn concat_from(parts: Seq<Seq<char>>, from: int) -> Seq<char>
    decreases parts.len() - from,
{
    if from < 0 || from >= parts.len() {
        Seq::empty()
    } else {
        parts[from] + concat_from(parts, from + 1)
    }
}

/// The members of `parts` from index `from` on, with `sep` between each two neighbours.
pub open spec fn join_from(parts: Seq<Seq<char>>, sep: Seq<char>, from: int) -> Seq<char>
    decreases parts.len() - from,
{
    if from < 0 || from >= parts.len() {
        Seq::empty()
    } else if from + 1 == parts.len() {
        parts[from]
    } else {
        parts[from] + sep + join_from(parts, sep, from + 1)
    }
}

/// The members of `parts` with `sep` between each two neighbours.
pub open spec fn joined(parts: Seq<Seq<char>>, sep: Seq<char>) -> Seq<char> {
    join_from(parts, sep, 0)
}

/// Whether `needle` occurs in `s` as a run of neighbouring characters.
pub open spec fn occurs_in(needle: Seq<char>, s: Seq<char>) -> bool {
    exists|i: int| 0 <= i && i + needle.len() <= s.len() && #[trigger] s.subrange(i, i + needle.len()) == needle
}

/// Pushing a string onto a vector pushes its characters onto the vector's deep view.
pub proof fn lemma_push_text(before: Vec<String>, after: Vec<String>, s: String)
    requires
        after@ == before@.push(s),
    ensures
        after.deep_view() == before.deep_view().push(s@),
{
    assert(after.deep_view() =~= before.deep_view().push(s@));
}

/// The characters of `s`.
pub fn chars_of(s: &str) -> (v: Vec<char>)
    ensures
        v@ == s@,
{
    let mut v: Vec<char> = Vec::new();
    for c in it: s.chars()
        invariant
            v@ == it.seq().take(it.index() as int),
            it.seq() == s@,
    {
        v.push(c);
    }
    v
}

/// An owned copy of `s`.
pub fn text(s: &str) -> (t: String)
    ensures
        t@ == s@,
{
    String::from_str(s)
}

/// Whether `s` begins with `prefix`.
pub fn starts_with(s: &str, prefix: &str) -> (b: bool)
    ensures
        b == prefix@.is_prefix_of(s@),
{
    let sv = chars_of(s);
    let pv = chars_of(prefix);
    if pv.len() > sv.len() {
        return false;
    }
    let mut i: usize = 0;
    while i < pv.len()
        invariant
            i <= pv.len() <= sv.len(),
            sv@ == s@,
            pv@ == prefix@,
            forall|j: int| 0 <= j < i ==> sv@[j] == pv@[j],
        decreases pv.len() - i,
    {
        if sv[i] != pv[i] {
            return false;
        }
        i = i + 1;
    }
    true
}

/// Whether the characters of `needle` stand in `s` from index `at` on.
fn matches_at(s: &Vec<char>, needle: &Vec<char>, at: usize) -> (b: bool)
    requires
        at + needle.len() <= s.len(),
    ensures
        b == (s@.subrange(at as int, at + needle.len()) == needle@),
{
    let mut j: usize = 0;
    while j < needle.len()
        invariant
            j <= needle.len(),
            at + needle.len() <= s.len(),
            forall|k: int| 0 <= k < j ==> s@[at + k] == needle@[k],
        decreases needle.len() - j,
    {
        if s[at + j] != needle[j] {
            return false;
        }
        j = j + 1;
    }
    assert(s@.subrange(at as int, at + needle.len()) =~= needle@);
    true
}

/// Whether `needle` occurs in `s`.
pub fn contains_text(s: &str, needle: &str) -> (b: bool)
    ensures
        b == occurs_in(needle@, s@),
{
    let sv = chars_of(s);
    let nv = chars_of(needle);
    if nv.len() > sv.len() {
        return false;
    }
    let last: usize = sv.len() - nv.len();
    let mut i: usize = 0;
    while i < last
        invariant
            i <= last,
            last == sv.len() - nv.len(),
            nv.len() <= sv.len(),
            sv@ == s@,
            nv@ == needle@,
            forall|k: int| 0 <= k < i ==> #[trigger] s@.subrange(k, k + needle@.len()) != needle@,
        decreases last - i,
    {
        if matches_at(&sv, &nv, i) {
            return true;
        }
        i = i + 1;
    }
    matches_at(&sv, &nv, last)
}

/// The whitespace-delimited tokens of `s`, in order.
pub fn split_whitespace(s: &str) -> (parts: Vec<String>)
    ensures
        parts.deep_view() == tokens(s@),
{
    let cs = chars_of(s);
    let mut parts: Vec<String> = Vec::new();
    let mut start: usize = 0;
    let mut i: usize = 0;
    assert(s@.subrange(0, 0) =~= Seq::<char>::empty());
    while i < cs.len()
        invariant
            start <= i <= cs.len(),
            cs@ == s@,
            tokens(s@) == parts.deep_view() + tokens_from(
                s@,
                i as int,
                s@.subrange(start as int, i as int),
            ),
        decreases cs.len() - i,
    {
        let ghost before = parts;
        let ghost pending = s@.subrange(start as int, i as int);
        if char_is_whitespace(cs[i]) {
            if start < i {
                let piece = text(s.substring_char(start, i));
                parts.push(piece);
                proof {
                    lemma_push_text(before, parts, piece);
                }
            } else {
                assert(before.deep_view() + closed(pending) =~= before.deep_view());
            }
            start = i + 1;
            proof {
                assert(s@.subrange(start as int, start as int) =~= Seq::<char>::empty());
            }
        } else {
            assert(s@.subrange(start as int, i + 1) =~= pending.push(s@[i as int]));
        }
        i = i + 1;
    }
    let ghost before = parts;
    let ghost pending = s@.subrange(start as int, i as int);
    if start < i {
        let piece = text(s.substring_char(start, i));
        parts.push(piece);
        proof {
            lemma_push_text(before, parts, piece);
        }
    } else {
        assert(before.deep_view() + closed(pending) =~= before.deep_view());
    }
    parts
}

/// The members of `parts` from index `from` on, one after the other with nothing between.
pub fn concat_tokens(parts: &Vec<String>, from: usize) -> (all: String)
    ensures
        all@ == concat_from(parts.deep_view(), from as int),
{
    if from >= parts.len() {
        return String::new();
    }
    let mut all = String::new();
    let mut i: usize = from;
    while i < parts.len()
        invariant
            from <= i <= parts.len(),
            concat_from(parts.deep_view(), from as int) == all@ + concat_from(
                parts.deep_view(),
                i as int,
            ),
        decreases parts.len() - i,
    {
        let ghost before = all@;
        all.append(parts[i].as_str());
        proof {
            assert(before + (parts.deep_view()[i as int] + concat_from(parts.deep_view(), i + 1))
                =~= all@ + concat_from(parts.deep_view(), i + 1));
        }
        i = i + 1;
    }
    all
}

/// The members of `parts` with `sep` between each two neighbours.
pub fn join(parts: &Vec<String>, sep: &str) -> (all: String)
    ensures
        all@ == joined(parts.deep_view(), sep@),
{
    let mut all = String::new();
    let mut i: usize = 0;
    while i < parts.len()
        invariant
            i <= parts.len(),
            joined(parts.deep_view(), sep@) == all@ + join_from(parts.deep_view(), sep@, i as int),
        decreases parts.len() - i,
    {
        let ghost before = all@;
        let ghost item = parts.deep_view()[i as int];
        all.append(parts[i].as_str());
        if i + 1 < parts.len() {
            all.append(sep);
        } else {
            assert(before + item =~= all@ + join_from(parts.deep_view(), sep@, i + 1));
        }
        i = i + 1;
    }
    all
}

} // verus!
