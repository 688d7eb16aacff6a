//! Character-level text utilities: the whitespace model, trimming and
//! tokenization used by command parsing, and exact string comparison.

use vstd::prelude::*;

verus! {

/// The whitespace characters the runtime recognizes when trimming text and
/// splitting it into tokens.
pub open spec fn is_ws_char(c: char) -> bool {
    c == ' ' || c == '\t' || c == '\n' || c == '\r'
}

/// `s` with every leading whitespace character removed.
pub open spec fn trim_start(s: Seq<char>) -> Seq<char>
    decreases s.len(),
{
    if s.len() > 0 && is_ws_char(s[0]) {
        trim_start(s.drop_first())
    } else {
        s
    }
}

/// The maximal run of non-whitespace characters at the front of `s`.
pub open spec fn leading_token(s: Seq<char>) -> Seq<char>
    decreases s.len(),
{
    if s.len() > 0 && !is_ws_char(s[0]) {
        seq![s[0]] + leading_token(s.drop_first())
    } else {
        Seq::empty()
    }
}

/// The whitespace-delimited tokens of `s`, in order, each non-empty.
pub open spec fn tokens(s: Seq<char>) -> Seq<Seq<char>>
    decreases s.len(),
    via tokens_decreases
{
    if s.len() == 0 {
        Seq::empty()
    } else if is_ws_char(s[0]) {
        tokens(s.drop_first())
    } else {
        seq![leading_token(s)] + tokens(s.skip(leading_token(s).len() as int))
    }
}

#[via_fn]
proof fn tokens_decreases(s: Seq<char>) {
    if s.len() > 0 && !is_ws_char(s[0]) {
        lemma_leading_token_len(s);
    }
}

/// The tokens of `s` joined back together with a single space between
/// consecutive tokens.
pub open spec fn join_with_space(ts: Seq<Seq<char>>) -> Seq<char>
    decreases ts.len(),
{
    if ts.len() == 0 {
        Seq::empty()
    } else if ts.len() == 1 {
        ts[0]
    } else {
        ts[0] + seq![' '] + join_with_space(ts.drop_first())
    }
}

/// A leading token is never longer than the text and is non-empty exactly
/// when the text starts with a non-whitespace character.
pub proof fn lemma_leading_token_len(s: Seq<char>)
    ensures
        leading_token(s).len() <= s.len(),
        s.len() > 0 && !is_ws_char(s[0]) ==> leading_token(s).len() >= 1,
    decreases s.len(),
{
    if s.len() > 0 && !is_ws_char(s[0]) {
        lemma_leading_token_len(s.drop_first());
    }
}

/// If every character of `s` before index `r` is whitespace and `r` is the
/// length of `s` or the index of a non-whitespace character, then trimming
/// the front of `s` leaves exactly the suffix starting at `r`.
pub proof fn lemma_trim_start_at(s: Seq<char>, r: int)
    requires
        0 <= r <= s.len(),
        forall|j: int| 0 <= j < r ==> is_ws_char(s[j]),
        r < s.len() ==> !is_ws_char(s[r]),
    ensures
        trim_start(s) =~= s.skip(r),
    decreases r,
{
    if r == 0 {
        assert(trim_start(s) =~= s.skip(0));
    } else {
        assert(is_ws_char(s[0]));
        lemma_trim_start_at(s.drop_first(), r - 1);
        assert(s.drop_first().skip(r - 1) =~= s.skip(r));
    }
}

/// If every character of `s` in `[i, r)` is non-whitespace and `r` is the
/// length of `s` or the index of a whitespace character, then the leading
/// token of the suffix starting at `i` is exactly `s[i..r]`.
pub proof fn lemma_leading_token_at(s: Seq<char>, i: int, r: int)
    requires
        0 <= i <= r <= s.len(),
        forall|j: int| i <= j < r ==> !is_ws_char(s[j]),
        r < s.len() ==> is_ws_char(s[r]),
    ensures
        leading_token(s.skip(i)) =~= s.subrange(i, r),
    decreases r - i,
{
    if i == r {
        if i < s.len() {
            assert(s.skip(i)[0] == s[i]);
        }
        assert(leading_token(s.skip(i)) =~= s.subrange(i, r));
    } else {
        assert(s.skip(i)[0] == s[i]);
        assert(!is_ws_char(s.skip(i)[0]));
        lemma_leading_token_at(s, i + 1, r);
        assert(s.skip(i).drop_first() =~= s.skip(i + 1));
        assert(leading_token(s.skip(i)) =~= seq![s[i]] + leading_token(s.skip(i + 1)));
        assert(seq![s[i]] + s.subrange(i + 1, r) =~= s.subrange(i, r));
    }
}

/// Skipping whitespace characters does not change the token list.
pub proof fn lemma_tokens_skip_ws(s: Seq<char>, i: int, r: int)
    requires
        0 <= i <= r <= s.len(),
        forall|j: int| i <= j < r ==> is_ws_char(s[j]),
    ensures
        tokens(s.skip(i)) == tokens(s.skip(r)),
    decreases r - i,
{
    if i < r {
        assert(s.skip(i)[0] == s[i]);
        assert(s.skip(i).drop_first() =~= s.skip(i + 1));
        assert(tokens(s.skip(i)) == tokens(s.skip(i + 1)));
        lemma_tokens_skip_ws(s, i + 1, r);
    }
}

/// At a non-whitespace position `i` whose token runs up to `r`, the token
/// list of the suffix at `i` is that token followed by the tokens after it.
pub proof fn lemma_tokens_step(s: Seq<char>, i: int, r: int)
    requires
        0 <= i < r <= s.len(),
        forall|j: int| i <= j < r ==> !is_ws_char(s[j]),
        r < s.len() ==> is_ws_char(s[r]),
    ensures
        tokens(s.skip(i)) == seq![s.subrange(i, r)] + tokens(s.skip(r)),
    decreases r - i,
{
    lemma_leading_token_at(s, i, r);
    assert(s.skip(i)[0] == s[i]);
    assert(s.skip(i).len() > 0 && !is_ws_char(s.skip(i)[0]));
    assert(leading_token(s.skip(i)) =~= s.subrange(i, r));
    assert(leading_token(s.skip(i)).len() == r - i);
    assert(s.skip(i).skip(r - i) =~= s.skip(r));
    assert(tokens(s.skip(i)) == seq![leading_token(s.skip(i))] + tokens(s.skip(i).skip(r - i)));
}

/// Whether `c` is one of the whitespace characters the runtime recognizes.
pub fn is_ws(c: char) -> (r: bool)
    ensures
        r == is_ws_char(c),
{
    c == ' ' || c == '\t' || c == '\n' || c == '\r'
}

/// The first index at or after `from` holding a non-whitespace character, or
/// the length of `s` if only whitespace remains.
pub fn scan_non_ws(s: &str, from: usize) -> (r: usize)
    requires
        from <= s@.len(),
    ensures
        from <= r <= s@.len(),
        forall|j: int| from <= j < r ==> is_ws_char(s@[j]),
        r < s@.len() ==> !is_ws_char(s@[r as int]),
{
    let n: usize = s.unicode_len();
    let mut i: usize = from;
    while i < n
        invariant
            from <= i <= n,
            n == s@.len(),
            forall|j: int| from <= j < i ==> is_ws_char(s@[j]),
        decreases n - i,
    {
        if !is_ws(s.get_char(i)) {
            return i;
        }
        i = i + 1;
    }
    i
}

/// The first index at or after `from` holding a whitespace character, or the
/// length of `s` if none follows.
pub fn scan_token_end(s: &str, from: usize) -> (r: usize)
    requires
        from <= s@.len(),
    ensures
        from <= r <= s@.len(),
        forall|j: int| from <= j < r ==> !is_ws_char(s@[j]),
        r < s@.len() ==> is_ws_char(s@[r as int]),
{
    let n: usize = s.unicode_len();
    let mut i: usize = from;
    while i < n
        invariant
            from <= i <= n,
            n == s@.len(),
            forall|j: int| from <= j < i ==> !is_ws_char(s@[j]),
        decreases n - i,
    {
        if is_ws(s.get_char(i)) {
            return i;
        }
        i = i + 1;
    }
    i
}

/// Whether two string slices hold the same characters.
pub fn str_equal(a: &str, b: &str) -> (r: bool)
    ensures
        r == (a@ == b@),
{
    let an: usize = a.unicode_len();
    let bn: usize = b.unicode_len();
    if an != bn {
        assert(a@ != b@);
        return false;
    }
    let mut i: usize = 0;
    while i < an
        invariant
            0 <= i <= an,
            an == a@.len(),
            an == b@.len(),
            forall|j: int| 0 <= j < i ==> a@[j] == b@[j],
        decreases an - i,
    {
        if a.get_char(i) != b.get_char(i) {
            assert(a@[i as int] != b@[i as int]);
            return false;
        }
        i = i + 1;
    }
    assert(a@ =~= b@);
    true
}

} // verus!

