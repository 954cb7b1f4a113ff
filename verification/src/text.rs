//! Text primitives: Unicode white space, words, joining and trimming, all
//! over the character sequence that a string denotes.

use vstd::prelude::*;

verus! {

/// Whether `c` has the Unicode property `White_Space`.
pub open spec fn is_space(c: char) -> bool {
    let u = c as u32;
    ||| 0x09 <= u <= 0x0D
    ||| u == 0x20
    ||| u == 0x85
    ||| u == 0xA0
    ||| u == 0x1680
    ||| 0x2000 <= u <= 0x200A
    ||| u == 0x2028
    ||| u == 0x2029
    ||| u == 0x202F
    ||| u == 0x205F
    ||| u == 0x3000
}

/// Decides `is_space`.
pub fn char_is_space(c: char) -> (r: bool)
    ensures
        r == is_space(c),
{
    let u: u32 = c as u32;
    (0x09 <= u && u <= 0x0D) || u == 0x20 || u == 0x85 || u == 0xA0 || u == 0x1680 || (0x2000 <= u
        && u <= 0x200A) || u == 0x2028 || u == 0x2029 || u == 0x202F || u == 0x205F || u == 0x3000
}

/// The characters of `s`, in order.
pub fn chars_of(s: &str) -> (v: Vec<char>)
    ensures
        v@ == s@,
{
    let mut v: Vec<char> = Vec::new();
    for c in it: s.chars()
        invariant
            v@ == it.seq().take(it.index() as int),
    {
        v.push(c);
    }
    v
}

/// Appends one character to a string, by `String::push`. Taken on trust
/// from the documentation of std: the string afterwards denotes the old
/// characters followed by `c`.
#[verifier::external_body]
pub(crate) fn push_char(s: &mut String, c: char)
    ensures
        final(s)@ == old(s)@.push(c),
{
    s.push(c)
}

/// Removes the last character of a string, by `String::pop`. Taken on
/// trust from the documentation of std: an empty string stays empty and
/// gives `None`; any other loses its last character and gives it back.
#[verifier::external_body]
pub(crate) fn pop_char(s: &mut String) -> (c: Option<char>)
    ensures
        old(s)@.len() == 0 ==> c is None && final(s)@ == old(s)@,
        old(s)@.len() > 0 ==> c == Some(old(s)@.last()) && final(s)@ == old(s)@.drop_last(),
{
    s.pop()
}

/// The string that denotes the characters `v[from..to]`.
pub fn string_of(v: &Vec<char>, from: usize, to: usize) -> (s: String)
    requires
        from <= to <= v.len(),
    ensures
        s@ == v@.subrange(from as int, to as int),
{
    let mut s = String::new();
    let mut i: usize = from;
    while i < to
        invariant
            from <= i <= to <= v.len(),
            s@ == v@.subrange(from as int, i as int),
        decreases to - i,
    {
        push_char(&mut s, v[i]);
        i += 1;
    }
    s
}

/// The number of leading characters of `s` before its first white space.
pub open spec fn word_len(s: Seq<char>) -> nat
    decreases s.len(),
{
    if s.len() == 0 || is_space(s[0]) {
        0
    } else {
        1 + word_len(s.drop_first())
    }
}

/// `word_len` counts characters of `s`, and at least one where `s` starts
/// with a character that is no white space.
pub proof fn lemma_word_len_bounds(s: Seq<char>)
    ensures
        word_len(s) <= s.len(),
        s.len() > 0 && !is_space(s[0]) ==> word_len(s) >= 1,
        forall|i: int| 0 <= i < word_len(s) ==> !is_space(#[trigger] s[i]),
        word_len(s) < s.len() ==> is_space(s[word_len(s) as int]),
    decreases s.len(),
{
    if s.len() > 0 && !is_space(s[0]) {
        lemma_word_len_bounds(s.drop_first());
        assert forall|i: int| 0 <= i < word_len(s) implies !is_space(#[trigger] s[i]) by {
            if i > 0 {
                assert(s[i] == s.drop_first()[i - 1]);
            }
        }
        if word_len(s) < s.len() {
            assert(s[word_len(s) as int] == s.drop_first()[word_len(s.drop_first()) as int]);
        }
    }
}

/// The words of `s`: its maximal runs of characters that are no white
/// space, in the order in which they occur.
pub open spec fn words(s: Seq<char>) -> Seq<Seq<char>>
    decreases s.len(),
{
    if s.len() == 0 {
        Seq::empty()
    } else if is_space(s[0]) {
        words(s.drop_first())
    } else {
        let n = word_len(s) as int;
        if 0 < n <= s.len() {
            seq![s.take(n)] + words(s.skip(n))
        } else {
            Seq::empty()
        }
    }
}

/// Whether every one of `ws` has a character and none that is white
/// space: whether each could be a word.
pub open spec fn are_words(ws: Seq<Seq<char>>) -> bool {
    forall|k: int|
        0 <= k < ws.len() ==> (#[trigger] ws[k]).len() > 0 && forall|i: int|
            0 <= i < ws[k].len() ==> !is_space(#[trigger] ws[k][i])
}

/// Every word of a text has a character, and none of its characters is
/// white space.
pub proof fn law_words_are_runs(s: Seq<char>)
    ensures
        are_words(words(s)),
    decreases s.len(),
{
    if s.len() == 0 {
    } else if is_space(s[0]) {
        law_words_are_runs(s.drop_first());
        assert(words(s) == words(s.drop_first()));
    } else {
        lemma_word_len_bounds(s);
        let n = word_len(s) as int;
        law_words_are_runs(s.skip(n));
        let rest = words(s.skip(n));
        assert(words(s) == seq![s.take(n)] + rest);
        assert forall|k: int| 0 <= k < words(s).len() implies (#[trigger] words(s)[k]).len() > 0
            && forall|i: int| 0 <= i < words(s)[k].len() ==> !is_space(#[trigger] words(s)[k][i]) by {
            if k == 0 {
                assert(words(s)[0] == s.take(n));
                assert forall|i: int| 0 <= i < words(s)[k].len() implies !is_space(
                    #[trigger] words(s)[k][i],
                ) by {
                    assert(s.take(n)[i] == s[i]);
                }
            } else {
                assert(words(s)[k] == rest[k - 1]);
            }
        }
    }
}

/// A text has no word exactly if it holds nothing but white space.
pub proof fn law_blank_has_no_words(s: Seq<char>)
    ensures
        is_blank(s) <==> words(s).len() == 0,
    decreases s.len(),
{
    if s.len() == 0 {
    } else if is_space(s[0]) {
        law_blank_has_no_words(s.drop_first());
        let t = s.drop_first();
        if is_blank(t) {
            assert forall|i: int| 0 <= i < s.len() implies is_space(#[trigger] s[i]) by {
                if i > 0 {
                    assert(s[i] == t[i - 1]);
                }
            }
        }
        if is_blank(s) {
            assert forall|i: int| 0 <= i < t.len() implies is_space(#[trigger] t[i]) by {
                assert(t[i] == s[i + 1]);
            }
        }
    } else {
        lemma_word_len_bounds(s);
        assert(!is_space(s[0]));
    }
}

/// The words `ws` with one space between neighbours.
pub open spec fn join(ws: Seq<Seq<char>>) -> Seq<char>
    decreases ws.len(),
{
    if ws.len() == 0 {
        Seq::empty()
    } else if ws.len() == 1 {
        ws[0]
    } else {
        join(ws.drop_last()) + seq![' '] + ws.last()
    }
}

/// The first word of a text is not affected by what follows a space
/// behind the text.
proof fn lemma_word_len_before_space(a: Seq<char>, b: Seq<char>)
    ensures
        word_len(a + seq![' '] + b) == word_len(a),
    decreases a.len(),
{
    let x = a + seq![' '] + b;
    if a.len() == 0 {
        assert(x[0] == ' ');
    } else {
        assert(x[0] == a[0]);
        if !is_space(a[0]) {
            assert(x.drop_first() =~= a.drop_first() + seq![' '] + b);
            lemma_word_len_before_space(a.drop_first(), b);
        }
    }
}

/// The words of two texts with a space between them are the words of the
/// first followed by the words of the second.
pub proof fn lemma_words_around_space(a: Seq<char>, b: Seq<char>)
    ensures
        words(a + seq![' '] + b) == words(a) + words(b),
    decreases a.len(),
{
    let x = a + seq![' '] + b;
    if a.len() == 0 {
        assert(x[0] == ' ');
        assert(x.drop_first() =~= b);
        assert(words(a) + words(b) =~= words(b));
    } else {
        assert(x[0] == a[0]);
        if is_space(a[0]) {
            assert(x.drop_first() =~= a.drop_first() + seq![' '] + b);
            lemma_words_around_space(a.drop_first(), b);
        } else {
            lemma_word_len_bounds(a);
            lemma_word_len_before_space(a, b);
            let n = word_len(a) as int;
            assert(x.take(n) =~= a.take(n));
            assert(x.skip(n) =~= a.skip(n) + seq![' '] + b);
            lemma_words_around_space(a.skip(n), b);
            assert(words(x) == seq![x.take(n)] + words(x.skip(n)));
            assert(words(a) == seq![a.take(n)] + words(a.skip(n)));
            assert(seq![a.take(n)] + (words(a.skip(n)) + words(b)) =~= (seq![a.take(n)] + words(
                a.skip(n),
            )) + words(b));
        }
    }
}

/// A run of characters that are no white space is its own single word.
proof fn lemma_word_is_its_words(w: Seq<char>)
    requires
        w.len() > 0,
        forall|i: int| 0 <= i < w.len() ==> !is_space(#[trigger] w[i]),
    ensures
        word_len(w) == w.len(),
        words(w) == seq![w],
    decreases w.len(),
{
    if w.len() > 1 {
        let t = w.drop_first();
        assert forall|i: int| 0 <= i < t.len() implies !is_space(#[trigger] t[i]) by {
            assert(t[i] == w[i + 1]);
        }
        lemma_word_is_its_words(t);
    } else {
        assert(word_len(w.drop_first()) == 0);
    }
    assert(!is_space(w[0]));
    let n = w.len() as int;
    assert(w.take(n) =~= w);
    assert(w.skip(n) =~= Seq::<char>::empty());
    assert(words(w.skip(n)) =~= Seq::<Seq<char>>::empty());
    assert(words(w) =~= seq![w]);
}

/// Joining words and splitting the result gives the words back.
pub proof fn law_words_of_join(ws: Seq<Seq<char>>)
    requires
        are_words(ws),
    ensures
        words(join(ws)) == ws,
    decreases ws.len(),
{
    if ws.len() == 0 {
        assert(words(join(ws)) =~= ws);
    } else if ws.len() == 1 {
        lemma_word_is_its_words(ws[0]);
        assert(seq![ws[0]] =~= ws);
    } else {
        let init = ws.drop_last();
        assert(are_words(init)) by {
            assert forall|k: int| 0 <= k < init.len() implies (#[trigger] init[k]).len() > 0
                && forall|i: int| 0 <= i < init[k].len() ==> !is_space(#[trigger] init[k][i]) by {
                assert(init[k] == ws[k]);
            }
        }
        law_words_of_join(init);
        lemma_words_around_space(join(init), ws.last());
        assert(ws.last() == ws[ws.len() - 1]);
        lemma_word_is_its_words(ws.last());
        assert(init + seq![ws.last()] =~= ws);
    }
}

/// Whether `s` holds nothing but white space.
pub open spec fn is_blank(s: Seq<char>) -> bool {
    forall|i: int| 0 <= i < s.len() ==> is_space(#[trigger] s[i])
}

/// What a vector of strings denotes: the character sequence of each.
pub open spec fn texts(v: Seq<String>) -> Seq<Seq<char>> {
    Seq::new(v.len(), |i: int| v[i]@)
}

/// Splits `s` into its words.
pub fn split_words(s: &str) -> (out: Vec<String>)
    ensures
        texts(out@) == words(s@),
{
    let v = chars_of(s);
    let n = v.len();
    let mut out: Vec<String> = Vec::new();
    let mut i: usize = 0;
    assert(v@.skip(0) == v@);
    while i < n
        invariant
            n == v.len(),
            i <= n,
            v@ == s@,
            words(v@) == texts(out@) + words(v@.skip(i as int)),
        decreases n - i,
    {
        let ghost rest = v@.skip(i as int);
        if char_is_space(v[i]) {
            assert(rest.drop_first() == v@.skip(i + 1));
            i += 1;
        } else {
            let start = i;
            assert(rest.skip(0) == rest);
            while i < n && !char_is_space(v[i])
                invariant
                    n == v.len(),
                    start <= i <= n,
                    rest == v@.skip(start as int),
                    word_len(rest) == (i - start) + word_len(rest.skip(i - start)),
                decreases n - i,
            {
                assert(rest.skip(i - start).drop_first() == rest.skip(i + 1 - start));
                i += 1;
            }
            proof {
                lemma_word_len_bounds(rest);
                assert(rest.take(i - start) == v@.subrange(start as int, i as int));
                assert(rest.skip(i - start) == v@.skip(i as int));
            }
            let w = string_of(&v, start, i);
            let ghost before = texts(out@);
            out.push(w);
            assert(texts(out@) == before + seq![rest.take(i - start)]);
        }
    }
    assert(texts(out@) + Seq::<Seq<char>>::empty() == texts(out@));
    out
}

/// Joins the words `ws[from..to]` with single spaces.
pub fn join_words(ws: &Vec<String>, from: usize, to: usize) -> (s: String)
    requires
        from <= to <= ws.len(),
    ensures
        s@ == join(texts(ws@).subrange(from as int, to as int)),
{
    let mut s = String::new();
    let mut i: usize = from;
    while i < to
        invariant
            from <= i <= to <= ws.len(),
            s@ == join(texts(ws@).subrange(from as int, i as int)),
        decreases to - i,
    {
        let ghost part = texts(ws@).subrange(from as int, i + 1);
        assert(part.drop_last() == texts(ws@).subrange(from as int, i as int));
        assert(part.last() == ws@[i as int]@);
        if i > from {
            push_char(&mut s, ' ');
            assert(s@ == join(part.drop_last()) + seq![' ']);
        } else {
            assert(s@ + ws@[i as int]@ == ws@[i as int]@);
        }
        s.append(ws[i].as_str());
        i += 1;
    }
    s
}

/// Counts the words of `s`.
pub fn word_count(s: &str) -> (n: usize)
    ensures
        n == words(s@).len(),
{
    let ws = split_words(s);
    assert(texts(ws@).len() == ws@.len());
    ws.len()
}

/// Decides whether `s` holds nothing but white space.
pub fn is_blank_text(s: &str) -> (r: bool)
    ensures
        r == is_blank(s@),
{
    let v = chars_of(s);
    let mut i: usize = 0;
    while i < v.len()
        invariant
            i <= v.len(),
            v@ == s@,
            forall|j: int| 0 <= j < i ==> is_space(#[trigger] v@[j]),
        decreases v.len() - i,
    {
        if !char_is_space(v[i]) {
            return false;
        }
        i += 1;
    }
    true
}

/// `s` without its leading white space.
pub open spec fn trim_start(s: Seq<char>) -> Seq<char>
    decreases s.len(),
{
    if s.len() > 0 && is_space(s[0]) {
        trim_start(s.drop_first())
    } else {
        s
    }
}

/// `s` without its trailing white space.
pub open spec fn trim_end(s: Seq<char>) -> Seq<char>
    decreases s.len(),
{
    if s.len() > 0 && is_space(s.last()) {
        trim_end(s.drop_last())
    } else {
        s
    }
}

/// `s` without its leading and trailing white space.
pub open spec fn trim(s: Seq<char>) -> Seq<char> {
    trim_end(trim_start(s))
}

/// `s` with every leading repetition of the pattern `p` removed.
pub open spec fn strip_leading(s: Seq<char>, p: Seq<char>) -> Seq<char>
    decreases s.len(),
{
    if p.len() > 0 && p.is_prefix_of(s) {
        strip_leading(s.skip(p.len() as int), p)
    } else {
        s
    }
}

/// `s` with every trailing repetition of the pattern `p` removed.
pub open spec fn strip_trailing(s: Seq<char>, p: Seq<char>) -> Seq<char>
    decreases s.len(),
{
    if p.len() > 0 && p.is_suffix_of(s) {
        strip_trailing(s.take(s.len() - p.len()), p)
    } else {
        s
    }
}

/// The start of `v[lo..hi]` without its leading white space.
pub(crate) fn skip_spaces(v: &Vec<char>, lo: usize, hi: usize) -> (at: usize)
    requires
        lo <= hi <= v.len(),
    ensures
        lo <= at <= hi,
        v@.subrange(at as int, hi as int) == trim_start(v@.subrange(lo as int, hi as int)),
{
    let mut at = lo;
    while at < hi && char_is_space(v[at])
        invariant
            lo <= at <= hi <= v.len(),
            trim_start(v@.subrange(at as int, hi as int)) == trim_start(
                v@.subrange(lo as int, hi as int),
            ),
        decreases hi - at,
    {
        assert(v@.subrange(at as int, hi as int).drop_first() == v@.subrange(at + 1, hi as int));
        at += 1;
    }
    at
}

/// The end of `v[lo..hi]` without its trailing white space.
pub(crate) fn drop_spaces(v: &Vec<char>, lo: usize, hi: usize) -> (at: usize)
    requires
        lo <= hi <= v.len(),
    ensures
        lo <= at <= hi,
        v@.subrange(lo as int, at as int) == trim_end(v@.subrange(lo as int, hi as int)),
{
    let mut at = hi;
    while at > lo && char_is_space(v[at - 1])
        invariant
            lo <= at <= hi <= v.len(),
            trim_end(v@.subrange(lo as int, at as int)) == trim_end(
                v@.subrange(lo as int, hi as int),
            ),
        decreases at,
    {
        assert(v@.subrange(lo as int, at as int).drop_last() == v@.subrange(lo as int, at - 1));
        at -= 1;
    }
    at
}

/// Decides whether `v[lo..hi]` starts with `p`.
pub(crate) fn starts_with(v: &Vec<char>, lo: usize, hi: usize, p: &Vec<char>) -> (r: bool)
    requires
        lo <= hi <= v.len(),
    ensures
        r == p@.is_prefix_of(v@.subrange(lo as int, hi as int)),
{
    if p.len() > hi - lo {
        return false;
    }
    let mut i: usize = 0;
    while i < p.len()
        invariant
            i <= p.len() <= hi - lo,
            lo <= hi <= v.len(),
            forall|j: int| 0 <= j < i ==> p@[j] == v@[lo + j],
        decreases p.len() - i,
    {
        if p[i] != v[lo + i] {
            assert(v@.subrange(lo as int, hi as int)[i as int] != p@[i as int]);
            return false;
        }
        i += 1;
    }
    assert(p@ =~= v@.subrange(lo as int, hi as int).subrange(0, p@.len() as int));
    true
}

/// Decides whether two strings denote the same characters.
pub fn same_text(a: &str, b: &str) -> (r: bool)
    ensures
        r == (a@ == b@),
{
    let va = chars_of(a);
    let vb = chars_of(b);
    if va.len() != vb.len() {
        return false;
    }
    assert(va@.subrange(0, va@.len() as int) == va@);
    let r = starts_with(&va, 0, va.len(), &vb);
    r
}

/// The start of `v[lo..hi]` behind every leading repetition of `p`.
pub(crate) fn skip_pattern(v: &Vec<char>, lo: usize, hi: usize, p: &Vec<char>) -> (at: usize)
    requires
        lo <= hi <= v.len(),
    ensures
        lo <= at <= hi,
        v@.subrange(at as int, hi as int) == strip_leading(v@.subrange(lo as int, hi as int), p@),
{
    let mut at = lo;
    if p.len() == 0 {
        return at;
    }
    while starts_with(v, at, hi, p)
        invariant
            p.len() > 0,
            lo <= at <= hi <= v.len(),
            strip_leading(v@.subrange(at as int, hi as int), p@) == strip_leading(
                v@.subrange(lo as int, hi as int),
                p@,
            ),
        decreases hi - at,
    {
        assert(v@.subrange(at as int, hi as int).skip(p@.len() as int) == v@.subrange(
            at + p@.len(),
            hi as int,
        ));
        at += p.len();
    }
    at
}

/// The end of `v[lo..hi]` before every trailing repetition of `p`.
pub(crate) fn drop_pattern(v: &Vec<char>, lo: usize, hi: usize, p: &Vec<char>) -> (at: usize)
    requires
        lo <= hi <= v.len(),
    ensures
        lo <= at <= hi,
        v@.subrange(lo as int, at as int) == strip_trailing(v@.subrange(lo as int, hi as int), p@),
{
    let mut at = hi;
    if p.len() == 0 {
        return at;
    }
    while at - lo >= p.len() && starts_with(v, at - p.len(), at, p)
        invariant
            p.len() > 0,
            lo <= at <= hi <= v.len(),
            strip_trailing(v@.subrange(lo as int, at as int), p@) == strip_trailing(
                v@.subrange(lo as int, hi as int),
                p@,
            ),
        decreases at,
    {
        proof {
            let s = v@.subrange(lo as int, at as int);
            assert(s.subrange(s.len() - p@.len(), s.len() as int) =~= v@.subrange(
                at - p@.len(),
                at as int,
            ));
            assert(p@ =~= v@.subrange(at - p@.len(), at as int).subrange(0, p@.len() as int));
            assert(p@.is_suffix_of(s));
            assert(s.take(s.len() - p@.len()) == v@.subrange(lo as int, at - p@.len()));
        }
        at -= p.len();
    }
    proof {
        let s = v@.subrange(lo as int, at as int);
        if p@.is_suffix_of(s) {
            assert(s.subrange(s.len() - p@.len(), s.len() as int) =~= v@.subrange(
                at - p@.len(),
                at as int,
            ));
            assert(v@.subrange(at - p@.len(), at as int).subrange(0, p@.len() as int)
                =~= v@.subrange(at - p@.len(), at as int));
        }
    }
    at
}

} // verus!
