//! Text as sequences of characters: keywords of a search query and substring tests.

use vstd::prelude::*;

verus! {

/// The character is white space: one of the 25 code points that have the
/// property White_Space in Unicode.
pub open spec fn is_white_space(c: char) -> bool {
    let code = c as u32;
    ||| 0x9 <= code <= 0xD
    ||| code == 0x20
    ||| code == 0x85
    ||| code == 0xA0
    ||| code == 0x1680
    ||| 0x2000 <= code <= 0x200A
    ||| code == 0x2028
    ||| code == 0x2029
    ||| code == 0x202F
    ||| code == 0x205F
    ||| code == 0x3000
}

/// `char::is_whitespace` tells whether a character has the property
/// White_Space of Unicode, which is what `is_white_space` lists.
pub assume_specification[ char::is_whitespace ](c: char) -> (r: bool)
    ensures
        r == is_white_space(c),
;

/// The characters of a string, in order.
pub fn to_chars(s: &str) -> (v: Vec<char>)
    ensures
        v@ == s@,
{
    let mut v: Vec<char> = Vec::new();
    for c in it: s.chars()
        invariant
            it.seq() == s@,
            v@ == s@.take(it.index() as int),
    {
        v.push(c);
        assert(s@.take(it.index() + 1) == s@.take(it.index() as int).push(c));
    }
    assert(s@.take(s@.len() as int) == s@);
    v
}

/// How many characters stand at the front of `s` before its first white space.
pub open spec fn run_len(s: Seq<char>) -> nat
    decreases s.len(),
{
    if s.len() == 0 || is_white_space(s[0]) {
        0
    } else {
        1 + run_len(s.drop_first())
    }
}

/// The keywords of a query: its maximal runs of characters that are no white
/// space, from left to right. White space only separates; no keyword is empty.
pub open spec fn keywords(s: Seq<char>) -> Seq<Seq<char>>
    decreases s.len(),
    via keywords_terminates
{
    if s.len() == 0 {
        Seq::empty()
    } else if is_white_space(s[0]) {
        keywords(s.drop_first())
    } else {
        seq![s.take(run_len(s) as int)] + keywords(s.skip(run_len(s) as int))
    }
}

#[via_fn]
proof fn keywords_terminates(s: Seq<char>) {
    if s.len() != 0 && !is_white_space(s[0]) {
        lemma_run_len_bounds(s);
    }
}

/// A run never leaves the text, and is empty only where the text is empty or
/// starts with white space.
pub proof fn lemma_run_len_bounds(s: Seq<char>)
    ensures
        run_len(s) <= s.len(),
        s.len() > 0 && !is_white_space(s[0]) ==> run_len(s) >= 1,
        forall|k: int| 0 <= k < run_len(s) ==> !is_white_space(#[trigger] s[k]),
        run_len(s) < s.len() ==> is_white_space(s[run_len(s) as int]),
    decreases s.len(),
{
    if s.len() != 0 && !is_white_space(s[0]) {
        let rest = s.drop_first();
        lemma_run_len_bounds(rest);
        assert forall|k: int| 0 <= k < run_len(s) implies !is_white_space(#[trigger] s[k]) by {
            if k > 0 {
                assert(s[k] == rest[k - 1]);
            }
        }
        if run_len(s) < s.len() {
            assert(s[run_len(s) as int] == rest[run_len(rest) as int]);
        }
    }
}

/// A stretch of `m` characters without white space that ends at white space
/// or at the end of the text is the run at the front.
proof fn lemma_run_len_is(s: Seq<char>, m: int)
    requires
        0 <= m <= s.len(),
        forall|k: int| 0 <= k < m ==> !is_white_space(#[trigger] s[k]),
        m == s.len() || is_white_space(s[m]),
    ensures
        run_len(s) == m,
    decreases m,
{
    if m > 0 {
        let rest = s.drop_first();
        assert forall|k: int| 0 <= k < m - 1 implies !is_white_space(#[trigger] rest[k]) by {
            assert(rest[k] == s[k + 1]);
        }
        lemma_run_len_is(rest, m - 1);
    }
}

/// Every keyword is a piece of the query, has a character, and has no white
/// space in it.
pub proof fn lemma_keywords_are_words(s: Seq<char>)
    ensures
        forall|k: int|
            0 <= k < keywords(s).len() ==> {
                let word = #[trigger] keywords(s)[k];
                &&& word.len() > 0
                &&& is_substring(word, s)
                &&& forall|i: int| 0 <= i < word.len() ==> !is_white_space(#[trigger] word[i])
            },
    decreases s.len(),
{
    if s.len() == 0 {
    } else if is_white_space(s[0]) {
        let rest = s.drop_first();
        lemma_keywords_are_words(rest);
        assert forall|k: int| 0 <= k < keywords(s).len() implies is_substring(
            #[trigger] keywords(s)[k],
            s,
        ) by {
            let word = keywords(rest)[k];
            let at = choose|at: int| occurs_at(word, rest, at);
            assert(s.subrange(at + 1, at + 1 + word.len()) == rest.subrange(at, at + word.len()));
            assert(occurs_at(word, s, at + 1));
        }
    } else {
        lemma_run_len_bounds(s);
        let n = run_len(s) as int;
        let rest = s.skip(n);
        lemma_keywords_are_words(rest);
        assert forall|k: int| 0 <= k < keywords(s).len() implies {
            let word = #[trigger] keywords(s)[k];
            &&& word.len() > 0
            &&& is_substring(word, s)
            &&& forall|i: int| 0 <= i < word.len() ==> !is_white_space(#[trigger] word[i])
        } by {
            let word = keywords(s)[k];
            if k == 0 {
                assert(word == s.take(n));
                assert(s.subrange(0, n) == word);
                assert(occurs_at(word, s, 0));
            } else {
                assert(word == keywords(rest)[k - 1]);
                let at = choose|at: int| occurs_at(word, rest, at);
                assert(s.subrange(at + n, at + n + word.len()) == rest.subrange(
                    at,
                    at + word.len(),
                ));
                assert(occurs_at(word, s, at + n));
            }
        }
    }
}

/// A text without white space has itself as its one keyword, unless it is
/// empty.
pub proof fn lemma_keywords_of_word(word: Seq<char>)
    requires
        word.len() > 0,
        forall|i: int| 0 <= i < word.len() ==> !is_white_space(#[trigger] word[i]),
    ensures
        keywords(word) == seq![word],
{
    let n = word.len() as int;
    lemma_run_len_is(word, n);
    assert(word.take(n) == word);
    assert(word.skip(n).len() == 0);
    assert(keywords(word.skip(n)) == Seq::<Seq<char>>::empty());
    assert(keywords(word) == seq![word.take(n)] + keywords(word.skip(n)));
    assert(seq![word] + Seq::<Seq<char>>::empty() == seq![word]);
}

/// Two words with one white space between them are two keywords.
pub proof fn lemma_keywords_of_pair(first: Seq<char>, gap: char, second: Seq<char>)
    requires
        first.len() > 0,
        second.len() > 0,
        is_white_space(gap),
        forall|i: int| 0 <= i < first.len() ==> !is_white_space(#[trigger] first[i]),
        forall|i: int| 0 <= i < second.len() ==> !is_white_space(#[trigger] second[i]),
    ensures
        keywords(first.push(gap) + second) == seq![first, second],
{
    let s = first.push(gap) + second;
    let n = first.len() as int;
    assert forall|k: int| 0 <= k < n implies !is_white_space(#[trigger] s[k]) by {
        assert(s[k] == first[k]);
    }
    assert(s[n] == gap);
    lemma_run_len_is(s, n);
    assert(s.take(n) == first);
    let rest = s.skip(n);
    assert(rest[0] == gap);
    assert(rest.drop_first() == second);
    lemma_keywords_of_word(second);
    assert(keywords(rest) == keywords(rest.drop_first()));
    assert(keywords(rest) == seq![second]);
    assert(keywords(s) == seq![s.take(n)] + keywords(s.skip(n)));
    assert(seq![first] + seq![second] == seq![first, second]);
}

/// The query `work urgent` has the two keywords `work` and `urgent`.
pub proof fn lemma_keywords_of_work_urgent()
    ensures
        keywords("work urgent"@) == seq!["work"@, "urgent"@],
{
    reveal_strlit("work urgent");
    reveal_strlit("work");
    reveal_strlit("urgent");
    assert("work urgent"@ =~= "work"@.push(' ') + "urgent"@);
    lemma_keywords_of_pair("work"@, ' ', "urgent"@);
}

/// The pieces of `text` that the spans cut out.
pub open spec fn cut(text: Seq<char>, spans: Seq<(usize, usize)>) -> Seq<Seq<char>> {
    Seq::new(spans.len(), |k: int| text.subrange(spans[k].0 as int, spans[k].1 as int))
}

/// Where each keyword of the text starts, and where it ends.
pub fn keyword_spans(text: &Vec<char>) -> (spans: Vec<(usize, usize)>)
    ensures
        cut(text@, spans@) == keywords(text@),
        forall|k: int|
            0 <= k < spans@.len() ==> (#[trigger] spans@[k]).0 < spans@[k].1 <= text@.len(),
{
    let n = text.len();
    let mut spans: Vec<(usize, usize)> = Vec::new();
    let mut i: usize = 0;
    assert(text@.skip(0) == text@);
    assert(cut(text@, spans@) + keywords(text@) == keywords(text@));
    while i < n
        invariant
            i <= n,
            n == text@.len(),
            forall|k: int|
                0 <= k < spans@.len() ==> (#[trigger] spans@[k]).0 < spans@[k].1 <= text@.len(),
            keywords(text@) == cut(text@, spans@) + keywords(text@.skip(i as int)),
        decreases n - i,
    {
        let ghost tail = text@.skip(i as int);
        assert(tail[0] == text@[i as int]);
        if text[i].is_whitespace() {
            assert(tail.drop_first() == text@.skip(i + 1));
            i += 1;
        } else {
            let start = i;
            let mut j: usize = i + 1;
            while j < n && !text[j].is_whitespace()
                invariant
                    start < j <= n,
                    n == text@.len(),
                    forall|k: int| start <= k < j ==> !is_white_space(#[trigger] text@[k]),
                decreases n - j,
            {
                j += 1;
            }
            proof {
                let m = j - start;
                assert forall|k: int| 0 <= k < m implies !is_white_space(#[trigger] tail[k]) by {
                    assert(tail[k] == text@[start + k]);
                }
                if m < tail.len() {
                    assert(tail[m] == text@[j as int]);
                }
                lemma_run_len_is(tail, m);
                assert(tail.take(m) == text@.subrange(start as int, j as int));
                assert(tail.skip(m) == text@.skip(j as int));
                assert(cut(text@, spans@.push((start, j))) == cut(text@, spans@).push(
                    text@.subrange(start as int, j as int),
                ));
                assert(cut(text@, spans@).push(text@.subrange(start as int, j as int))
                    + keywords(text@.skip(j as int)) == cut(text@, spans@) + (seq![
                    text@.subrange(start as int, j as int),
                ] + keywords(text@.skip(j as int))));
            }
            spans.push((start, j));
            i = j;
        }
    }
    assert(text@.skip(n as int).len() == 0);
    assert(cut(text@, spans@) + Seq::<Seq<char>>::empty() == cut(text@, spans@));
    spans
}

/// Splits a query into its keywords.
pub fn split_keywords(query: &str) -> (out: Vec<String>)
    ensures
        out.deep_view() == keywords(query@),
{
    let text = to_chars(query);
    let spans = keyword_spans(&text);
    let mut out: Vec<String> = Vec::new();
    let mut k: usize = 0;
    while k < spans.len()
        invariant
            k <= spans@.len(),
            text@ == query@,
            cut(text@, spans@) == keywords(text@),
            forall|j: int|
                0 <= j < spans@.len() ==> (#[trigger] spans@[j]).0 < spans@[j].1 <= text@.len(),
            out@.len() == k,
            forall|j: int| 0 <= j < k ==> (#[trigger] out@[j])@ == keywords(query@)[j],
        decreases spans@.len() - k,
    {
        let (from, to) = spans[k];
        assert(cut(text@, spans@)[k as int] == text@.subrange(from as int, to as int));
        let word = query.substring_char(from, to).to_owned();
        out.push(word);
        k += 1;
    }
    assert(cut(text@, spans@).len() == spans@.len());
    assert(out.deep_view() =~= keywords(query@));
    out
}

/// `needle` stands in `hay` at position `at`.
pub open spec fn occurs_at(needle: Seq<char>, hay: Seq<char>, at: int) -> bool {
    0 <= at && at + needle.len() <= hay.len() && hay.subrange(at, at + needle.len()) == needle
}

/// `needle` stands somewhere in `hay`, character for character.
pub open spec fn is_substring(needle: Seq<char>, hay: Seq<char>) -> bool {
    exists|at: int| occurs_at(needle, hay, at)
}

fn matches_at(hay: &Vec<char>, needle: &Vec<char>, at: usize) -> (r: bool)
    requires
        at + needle@.len() <= hay@.len(),
    ensures
        r == occurs_at(needle@, hay@, at as int),
{
    let m = needle.len();
    let limit = hay.len();
    let mut k: usize = 0;
    while k < m
        invariant
            k <= m,
            m == needle@.len(),
            limit == hay@.len(),
            at + m <= limit,
            forall|j: int| 0 <= j < k ==> hay@[at + j] == needle@[j],
        decreases m - k,
    {
        if hay[at + k] != needle[k] {
            assert(hay@.subrange(at as int, at + m)[k as int] != needle@[k as int]);
            return false;
        }
        k += 1;
    }
    assert(hay@.subrange(at as int, at + m) =~= needle@);
    true
}

/// Whether `needle` occurs in `hay`. The empty text occurs in every text.
pub fn text_contains(hay: &str, needle: &str) -> (r: bool)
    ensures
        r == is_substring(needle@, hay@),
{
    let h = to_chars(hay);
    let n = to_chars(needle);
    if n.len() > h.len() {
        return false;
    }
    let last = h.len() - n.len();
    let mut at: usize = 0;
    loop
        invariant
            at <= last,
            last == h@.len() - n@.len(),
            h@ == hay@,
            n@ == needle@,
            forall|a: int| 0 <= a < at ==> !occurs_at(needle@, hay@, a),
        decreases last - at,
    {
        if matches_at(&h, &n, at) {
            return true;
        }
        if at == last {
            return false;
        }
        at += 1;
    }
}

/// The pattern that finds a keyword anywhere in a column: the keyword between
/// two percent signs.
pub fn like_pattern(keyword: &str) -> (pattern: String)
    ensures
        pattern@ == "%"@ + keyword@ + "%"@,
{
    let front = "%".to_owned();
    front.concat(keyword).concat("%")
}

} // verus!
