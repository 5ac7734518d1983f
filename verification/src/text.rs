//! Character-level text operations: substring search, trimming, splitting and
//! token lookup, all stated over sequences of characters.

use vstd::prelude::*;
use vstd::string::StringExecFns;

verus! {

/// The lowercase form of a text under Unicode's case mapping.
pub uninterp spec fn lowercase(s: Seq<char>) -> Seq<char>;

/// Whether a character has Unicode's `White_Space` property.
pub uninterp spec fn unicode_white_space(c: char) -> bool;

/// `str::to_lowercase`: the result is the Unicode lowercase form of the
/// argument, which depends on nothing but the argument's characters.
#[verifier::external_body]
pub(crate) fn to_lowercase(s: &str) -> (lower: String)
    ensures
        lower@ == lowercase(s@),
{
    s.to_lowercase()
}

/// `char::is_whitespace`: true exactly for the characters with the
/// `White_Space` property.
#[verifier::external_body]
pub(crate) fn is_whitespace(c: char) -> (b: bool)
    ensures
        b == unicode_white_space(c),
{
    c.is_whitespace()
}

/// `String::push`: appends one character at the end.
#[verifier::external_body]
pub(crate) fn push_char(s: &mut String, c: char)
    ensures
        final(s)@ == old(s)@.push(c),
{
    s.push(c)
}

/// The characters of `s`, in order.
pub fn chars_of(s: &str) -> (v: Vec<char>)
    ensures
        v@ == s@,
{
    let mut v: Vec<char> = Vec::new();
    for c in it: s.chars()
        invariant
            v@ == it.seq().take(it.index() as int),
            it.seq() == s@,
    {
        v.push(c);
    }
    v
}

/// The text made of the characters `chars[from..to]`.
pub(crate) fn text_of(chars: &Vec<char>, from: usize, to: usize) -> (s: String)
    requires
        from <= to <= chars.len(),
    ensures
        s@ == chars@.subrange(from as int, to as int),
{
    let mut s = String::new();
    let mut i: usize = from;
    while i < to
        invariant
            from <= i <= to <= chars.len(),
            s@ == chars@.subrange(from as int, i as int),
        decreases to - i,
    {
        push_char(&mut s, chars[i]);
        i += 1;
    }
    s
}

/// `a` followed by `b`.
pub fn joined(a: &str, b: &str) -> (s: String)
    ensures
        s@ == a@ + b@,
{
    let mut s = a.to_owned();
    s.append(b);
    s
}

/// `needle` stands in `hay` at position `i`.
pub open spec fn occurs_at(hay: Seq<char>, needle: Seq<char>, i: int) -> bool {
    &&& 0 <= i
    &&& i + needle.len() <= hay.len()
    &&& hay.subrange(i, i + needle.len()) == needle
}

/// `needle` is a contiguous part of `hay`. The empty text is part of every text.
pub open spec fn contains_text(hay: Seq<char>, needle: Seq<char>) -> bool {
    exists|i: int| occurs_at(hay, needle, i)
}

/// Substring test on characters.
pub fn contains(hay: &Vec<char>, needle: &Vec<char>) -> (found: bool)
    ensures
        found == contains_text(hay@, needle@),
{
    let n: usize = hay.len();
    let m: usize = needle.len();
    if m > n {
        return false;
    }
    let mut i: usize = 0;
    while i <= n - m
        invariant
            n == hay.len(),
            m == needle.len(),
            m <= n,
            forall|k: int| 0 <= k < i ==> !occurs_at(hay@, needle@, k),
        decreases n - m + 1 - i,
    {
        let mut j: usize = 0;
        while j < m && hay[i + j] == needle[j]
            invariant
                n == hay.len(),
                m == needle.len(),
                i + m <= n,
                j <= m,
                forall|t: int| 0 <= t < j ==> hay@[i + t] == needle@[t],
            decreases m - j,
        {
            j += 1;
        }
        if j == m {
            assert(hay@.subrange(i as int, i + m) =~= needle@);
            assert(occurs_at(hay@, needle@, i as int));
            return true;
        }
        assert(!occurs_at(hay@, needle@, i as int)) by {
            if occurs_at(hay@, needle@, i as int) {
                assert(hay@.subrange(i as int, i + m)[j as int] == needle@[j as int]);
            }
        }
        i += 1;
    }
    false
}

/// `s` without its leading white space.
pub open spec fn trim_start(s: Seq<char>) -> Seq<char>
    decreases s.len(),
{
    if s.len() > 0 && unicode_white_space(s.first()) {
        trim_start(s.drop_first())
    } else {
        s
    }
}

/// `s` without its trailing white space.
pub open spec fn trim_end(s: Seq<char>) -> Seq<char>
    decreases s.len(),
{
    if s.len() > 0 && unicode_white_space(s.last()) {
        trim_end(s.drop_last())
    } else {
        s
    }
}

/// `s` without leading and trailing white space.
pub open spec fn trimmed(s: Seq<char>) -> Seq<char> {
    trim_end(trim_start(s))
}

proof fn lemma_trim_start_skips(s: Seq<char>, a: int)
    requires
        0 <= a <= s.len(),
        forall|k: int| 0 <= k < a ==> unicode_white_space(s[k]),
        a == s.len() || !unicode_white_space(s[a]),
    ensures
        trim_start(s) == s.subrange(a, s.len() as int),
    decreases a,
{
    if a == 0 {
        assert(s.subrange(0, s.len() as int) =~= s);
    } else {
        let rest = s.drop_first();
        assert forall|k: int| 0 <= k < a - 1 implies unicode_white_space(rest[k]) by {
            assert(rest[k] == s[k + 1]);
        }
        lemma_trim_start_skips(rest, a - 1);
        assert(rest.subrange(a - 1, rest.len() as int) =~= s.subrange(a, s.len() as int));
    }
}

proof fn lemma_trim_end_skips(s: Seq<char>, b: int)
    requires
        0 <= b <= s.len(),
        forall|k: int| b <= k < s.len() ==> unicode_white_space(s[k]),
        b == 0 || !unicode_white_space(s[b - 1]),
    ensures
        trim_end(s) == s.subrange(0, b),
    decreases s.len() - b,
{
    if b == s.len() {
        assert(s.subrange(0, b) =~= s);
    } else {
        let rest = s.drop_last();
        lemma_trim_end_skips(rest, b);
        assert(rest.subrange(0, b) =~= s.subrange(0, b));
    }
}

/// The bounds `(a, b)` of `chars[from..to]` without its leading and trailing
/// white space.
pub(crate) fn trim_bounds(chars: &Vec<char>, from: usize, to: usize) -> (bounds: (usize, usize))
    requires
        from <= to <= chars.len(),
    ensures
        from <= bounds.0 <= bounds.1 <= to,
        chars@.subrange(bounds.0 as int, bounds.1 as int) == trimmed(
            chars@.subrange(from as int, to as int),
        ),
{
    let ghost s = chars@.subrange(from as int, to as int);
    let mut a: usize = from;
    while a < to && is_whitespace(chars[a])
        invariant
            from <= a <= to <= chars.len(),
            forall|k: int| from <= k < a ==> unicode_white_space(chars@[k]),
        decreases to - a,
    {
        a += 1;
    }
    let mut b: usize = to;
    while b > a && is_whitespace(chars[b - 1])
        invariant
            a <= b <= to <= chars.len(),
            forall|k: int| b <= k < to ==> unicode_white_space(chars@[k]),
        decreases b,
    {
        b -= 1;
    }
    proof {
        lemma_trim_start_skips(s, a - from);
        let t = s.subrange(a - from, s.len() as int);
        assert(t =~= chars@.subrange(a as int, to as int));
        lemma_trim_end_skips(t, b - a);
        assert(t.subrange(0, b - a) =~= chars@.subrange(a as int, b as int));
    }
    (a, b)
}

/// A copy of `s` without leading and trailing white space.
pub fn trim(s: &str) -> (t: String)
    ensures
        t@ == trimmed(s@),
{
    let chars = chars_of(s);
    let (a, b) = trim_bounds(&chars, 0, chars.len());
    assert(chars@.subrange(0, chars.len() as int) =~= chars@);
    text_of(&chars, a, b)
}

/// The pieces of `s` between occurrences of `sep`. There is always at least
/// one piece; a separator at either end, or two in a row, give an empty piece.
pub open spec fn split_on(s: Seq<char>, sep: char) -> Seq<Seq<char>>
    decreases s.len(),
{
    if s.len() == 0 {
        seq![Seq::<char>::empty()]
    } else {
        let before = split_on(s.drop_last(), sep);
        if s.last() == sep {
            before.push(Seq::<char>::empty())
        } else {
            before.drop_last().push(before.last().push(s.last()))
        }
    }
}

/// Every result of `split_on` has at least one piece.
pub proof fn lemma_split_on_nonempty(s: Seq<char>, sep: char)
    ensures
        split_on(s, sep).len() >= 1,
    decreases s.len(),
{
    if s.len() > 0 {
        lemma_split_on_nonempty(s.drop_last(), sep);
    }
}

/// The views of a list of texts.
pub open spec fn views(v: Seq<String>) -> Seq<Seq<char>> {
    Seq::new(v.len(), |k: int| v[k]@)
}

/// Splits `s` at every occurrence of `sep`.
pub fn split(s: &str, sep: char) -> (pieces: Vec<String>)
    ensures
        views(pieces@) == split_on(s@, sep),
{
    let chars = chars_of(s);
    let n: usize = chars.len();
    let mut pieces: Vec<String> = Vec::new();
    let mut start: usize = 0;
    let mut i: usize = 0;
    while i < n
        invariant
            n == chars.len(),
            start <= i <= n,
            split_on(chars@.take(i as int), sep).len() == pieces.len() + 1,
            split_on(chars@.take(i as int), sep).last() == chars@.subrange(start as int, i as int),
            forall|k: int|
                0 <= k < pieces.len() ==> (#[trigger] pieces@[k])@ == split_on(
                    chars@.take(i as int),
                    sep,
                )[k],
        decreases n - i,
    {
        let ghost before = split_on(chars@.take(i as int), sep);
        let ghost after = split_on(chars@.take(i + 1), sep);
        assert(chars@.take(i + 1).drop_last() =~= chars@.take(i as int));
        assert(chars@.take(i + 1).last() == chars@[i as int]);
        if chars[i] == sep {
            let piece = text_of(&chars, start, i);
            pieces.push(piece);
            start = i + 1;
            assert(after == before.push(Seq::<char>::empty()));
            assert(chars@.subrange(start as int, i + 1) =~= Seq::<char>::empty());
        } else {
            assert(after == before.drop_last().push(before.last().push(chars@[i as int])));
            assert(chars@.subrange(start as int, i + 1) =~= chars@.subrange(
                start as int,
                i as int,
            ).push(chars@[i as int]));
        }
        i += 1;
    }
    let piece = text_of(&chars, start, n);
    pieces.push(piece);
    proof {
        assert(chars@.take(n as int) =~= chars@);
        assert(views(pieces@) =~= split_on(s@, sep));
    }
    pieces
}

/// A copy of a list of texts.
pub fn clone_texts(texts: &Vec<String>) -> (copy: Vec<String>)
    ensures
        views(copy@) == views(texts@),
{
    let mut copy: Vec<String> = Vec::new();
    let mut i: usize = 0;
    while i < texts.len()
        invariant
            i <= texts.len(),
            copy.len() == i,
            forall|k: int| 0 <= k < i ==> (#[trigger] copy@[k])@ == texts@[k]@,
        decreases texts.len() - i,
    {
        copy.push(texts[i].clone());
        i += 1;
    }
    assert(views(copy@) =~= views(texts@));
    copy
}

/// The texts in double quotes, separated by a comma and a space.
pub open spec fn quoted_items(texts: Seq<Seq<char>>) -> Seq<char>
    decreases texts.len(),
{
    if texts.len() == 0 {
        Seq::empty()
    } else if texts.len() == 1 {
        "\""@ + texts[0] + "\""@
    } else {
        quoted_items(texts.drop_last()) + ", "@ + "\""@ + texts.last() + "\""@
    }
}

/// A list of texts in brackets, each text in double quotes.
pub open spec fn list_text(texts: Seq<Seq<char>>) -> Seq<char> {
    "["@ + quoted_items(texts) + "]"@
}

/// Renders a list of texts in brackets, each text in double quotes.
pub fn render_list(texts: &Vec<String>) -> (out: String)
    ensures
        out@ == list_text(views(texts@)),
{
    let mut out = String::new();
    let mut i: usize = 0;
    assert(views(texts@).take(0) =~= Seq::<Seq<char>>::empty());
    while i < texts.len()
        invariant
            i <= texts.len(),
            out@ == quoted_items(views(texts@).take(i as int)),
        decreases texts.len() - i,
    {
        let ghost before = out@;
        assert(views(texts@).take(i + 1).drop_last() =~= views(texts@).take(i as int));
        assert(views(texts@).take(i + 1).last() == texts@[i as int]@);
        assert(views(texts@).take(i + 1)[0] == texts@[0]@);
        if i > 0 {
            out.append(", ");
        }
        out.append("\"");
        out.append(texts[i].as_str());
        out.append("\"");
        proof {
            if i == 0 {
                assert(before =~= Seq::<char>::empty());
                assert(out@ =~= "\""@ + texts@[0]@ + "\""@);
            } else {
                assert(out@ =~= before + ", "@ + "\""@ + texts@[i as int]@ + "\""@);
            }
        }
        i += 1;
    }
    assert(views(texts@).take(texts.len() as int) =~= views(texts@));
    let mut framed = joined("[", out.as_str());
    framed.append("]");
    framed
}

/// Each piece of `s` split on `sep`, with the white space round it removed.
pub open spec fn trimmed_pieces(s: Seq<char>, sep: char) -> Seq<Seq<char>> {
    Seq::new(split_on(s, sep).len(), |k: int| trimmed(split_on(s, sep)[k]))
}

/// Splits `s` on `sep` and trims every piece.
pub fn split_trimmed(s: &str, sep: char) -> (pieces: Vec<String>)
    ensures
        views(pieces@) == trimmed_pieces(s@, sep),
{
    let raw = split(s, sep);
    let mut pieces: Vec<String> = Vec::new();
    let mut i: usize = 0;
    while i < raw.len()
        invariant
            i <= raw.len(),
            views(raw@) == split_on(s@, sep),
            pieces.len() == i,
            forall|k: int| 0 <= k < i ==> (#[trigger] pieces@[k])@ == trimmed(raw@[k]@),
        decreases raw.len() - i,
    {
        let piece = trim(raw[i].as_str());
        pieces.push(piece);
        i += 1;
    }
    proof {
        assert forall|k: int| 0 <= k < raw.len() implies raw@[k]@ == split_on(s@, sep)[k] by {
            assert(views(raw@)[k] == raw@[k]@);
        }
        assert(views(pieces@) =~= trimmed_pieces(s@, sep));
    }
    pieces
}

/// A word begins at `i`: a character that is no white space, at the start of
/// the text or right after white space.
pub open spec fn word_starts_at(s: Seq<char>, i: int) -> bool {
    &&& 0 <= i < s.len()
    &&& !unicode_white_space(s[i])
    &&& (i == 0 || unicode_white_space(s[i - 1]))
}

/// The word that begins at `i` ends before `j`: no white space in between, and
/// the text ends at `j` or has white space there.
pub open spec fn word_spans(s: Seq<char>, i: int, j: int) -> bool {
    &&& word_starts_at(s, i)
    &&& i < j <= s.len()
    &&& forall|k: int| i <= k < j ==> !unicode_white_space(#[trigger] s[k])
    &&& (j == s.len() || unicode_white_space(s[j]))
}

/// `s[i..j]` is the first whitespace-delimited word of `s` whose first
/// character is `prefix`.
pub open spec fn first_prefixed_word_spans(s: Seq<char>, prefix: char, i: int, j: int) -> bool {
    &&& word_spans(s, i, j)
    &&& s[i] == prefix
    &&& forall|k: int| 0 <= k < i ==> !(word_starts_at(s, k) && s[k] == prefix)
}

/// The first whitespace-delimited word of `s` that begins with `prefix`, if
/// there is one.
pub open spec fn first_prefixed_word(s: Seq<char>, prefix: char) -> Option<Seq<char>> {
    if exists|i: int, j: int| first_prefixed_word_spans(s, prefix, i, j) {
        let (i, j) = choose|i: int, j: int| first_prefixed_word_spans(s, prefix, i, j);
        Some(s.subrange(i, j))
    } else {
        None
    }
}

/// Two spans that both mark the first prefixed word are the same span.
pub proof fn lemma_first_prefixed_word_unique(
    s: Seq<char>,
    prefix: char,
    i1: int,
    j1: int,
    i2: int,
    j2: int,
)
    requires
        first_prefixed_word_spans(s, prefix, i1, j1),
        first_prefixed_word_spans(s, prefix, i2, j2),
    ensures
        i1 == i2,
        j1 == j2,
{
    if i1 < i2 {
        assert(word_starts_at(s, i1) && s[i1] == prefix);
    }
    if i2 < i1 {
        assert(word_starts_at(s, i2) && s[i2] == prefix);
    }
    if j1 < j2 {
        assert(!unicode_white_space(s[j1]));
    }
    if j2 < j1 {
        assert(!unicode_white_space(s[j2]));
    }
}

proof fn lemma_word_end_exists(s: Seq<char>, i: int, j: int)
    requires
        word_starts_at(s, i),
        i < j <= s.len(),
        forall|k: int| i <= k < j ==> !unicode_white_space(#[trigger] s[k]),
    ensures
        exists|e: int| word_spans(s, i, e),
    decreases s.len() - j,
{
    if j == s.len() || unicode_white_space(s[j]) {
        assert(word_spans(s, i, j));
    } else {
        lemma_word_end_exists(s, i, j + 1);
    }
}

proof fn lemma_first_prefixed_start(s: Seq<char>, prefix: char, i: int)
    requires
        word_starts_at(s, i),
        s[i] == prefix,
    ensures
        exists|a: int, b: int| first_prefixed_word_spans(s, prefix, a, b),
    decreases i,
{
    if exists|k: int| 0 <= k < i && word_starts_at(s, k) && s[k] == prefix {
        let k = choose|k: int| 0 <= k < i && word_starts_at(s, k) && s[k] == prefix;
        lemma_first_prefixed_start(s, prefix, k);
    } else {
        lemma_word_end_exists(s, i, i + 1);
        let e = choose|e: int| word_spans(s, i, e);
        assert(first_prefixed_word_spans(s, prefix, i, e));
    }
}

/// Where some whitespace-delimited word begins with the prefix, a first one
/// is found.
pub proof fn lemma_prefixed_word_found(s: Seq<char>, prefix: char, i: int, j: int)
    requires
        word_spans(s, i, j),
        s[i] == prefix,
    ensures
        first_prefixed_word(s, prefix) is Some,
{
    lemma_first_prefixed_start(s, prefix, i);
}

/// Looks for the first whitespace-delimited word that begins with `prefix`.
pub fn find_prefixed_word(chars: &Vec<char>, prefix: char) -> (word: Option<String>)
    ensures
        text_view(word) == first_prefixed_word(chars@, prefix),
{
    let n: usize = chars.len();
    let mut i: usize = 0;
    let mut after_space: bool = true;
    while i < n
        invariant
            n == chars.len(),
            i <= n,
            after_space == (i == 0 || unicode_white_space(chars@[i - 1])),
            forall|k: int| 0 <= k < i ==> !(word_starts_at(chars@, k) && chars@[k] == prefix),
        decreases n - i,
    {
        let c = chars[i];
        let space = is_whitespace(c);
        if after_space && !space && c == prefix {
            let mut j: usize = i + 1;
            while j < n && !is_whitespace(chars[j])
                invariant
                    n == chars.len(),
                    i < j <= n,
                    forall|k: int| i <= k < j ==> !unicode_white_space(#[trigger] chars@[k]),
                decreases n - j,
            {
                j += 1;
            }
            let word = text_of(chars, i, j);
            proof {
                assert(first_prefixed_word_spans(chars@, prefix, i as int, j as int));
                let (i2, j2) = choose|i2: int, j2: int|
                    first_prefixed_word_spans(chars@, prefix, i2, j2);
                lemma_first_prefixed_word_unique(chars@, prefix, i as int, j as int, i2, j2);
            }
            return Some(word);
        }
        after_space = space;
        i += 1;
    }
    assert forall|a: int, b: int| !first_prefixed_word_spans(chars@, prefix, a, b) by {
        if first_prefixed_word_spans(chars@, prefix, a, b) {
            assert(word_starts_at(chars@, a) && chars@[a] == prefix);
        }
    }
    None
}

/// The characters of an optional text.
pub open spec fn text_view(s: Option<String>) -> Option<Seq<char>> {
    match s {
        Some(t) => Some(t@),
        None => None,
    }
}

/// `w` stands at `i` in `s` as a whole word: white space or a text boundary on
/// both sides.
pub open spec fn stands_as_word(s: Seq<char>, w: Seq<char>, i: int) -> bool {
    &&& occurs_at(s, w, i)
    &&& (i == 0 || unicode_white_space(s[i - 1]))
    &&& (i + w.len() == s.len() || unicode_white_space(s[i + w.len()]))
}

/// A word found by `first_prefixed_word` begins with the prefix, holds no white
/// space, and stands in the text as a whole word: a prefix character in the
/// middle of a word starts no match.
pub proof fn lemma_prefixed_word_is_whole_word(s: Seq<char>, prefix: char)
    requires
        first_prefixed_word(s, prefix) is Some,
    ensures
        first_prefixed_word(s, prefix)->0.len() >= 1,
        first_prefixed_word(s, prefix)->0[0] == prefix,
        forall|k: int|
            0 <= k < first_prefixed_word(s, prefix)->0.len() ==> !unicode_white_space(
                #[trigger] first_prefixed_word(s, prefix)->0[k],
            ),
        exists|i: int| stands_as_word(s, first_prefixed_word(s, prefix)->0, i),
{
    let (i, j) = choose|i: int, j: int| first_prefixed_word_spans(s, prefix, i, j);
    let w = s.subrange(i, j);
    assert(first_prefixed_word_spans(s, prefix, i, j));
    assert(first_prefixed_word(s, prefix) == Some(w));
    assert(w[0] == s[i]);
    assert forall|k: int| 0 <= k < w.len() implies !unicode_white_space(#[trigger] w[k]) by {
        assert(w[k] == s[i + k]);
    }
    assert(s.subrange(i, i + w.len()) =~= w);
    assert(stands_as_word(s, w, i));
    assert(stands_as_word(s, first_prefixed_word(s, prefix)->0, i));
}

} // verus!
