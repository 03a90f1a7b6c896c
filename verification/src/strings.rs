//! Searching the lines of a pixmap description.

use vstd::prelude::*;
use vstd::utf8::encode_utf8;

verus! {

/// The byte of the double quote.
pub const QUOTE: u8 = 34;

/// The number of double quotes among the first `n` bytes of `text`.
pub open spec fn quote_count(text: Seq<u8>, n: int) -> nat
    decreases n,
{
    if n <= 0 {
        0
    } else {
        quote_count(text, n - 1) + if n - 1 < text.len() && text[n - 1] == QUOTE {
            1nat
        } else {
            0nat
        }
    }
}

/// Whether `find` stands in `text` at position `at`, inside the first
/// `window` bytes. Where `quoted` is set, a position also counts only outside
/// double quotes: an even number of quotes stands at or before it.
pub open spec fn is_match(text: Seq<u8>, find: Seq<u8>, window: int, quoted: bool, at: int) -> bool {
    &&& 0 <= at
    &&& at + find.len() <= window
    &&& window <= text.len()
    &&& forall|j: int| 0 <= j < find.len() ==> text[at + j] == find[j]
    &&& (quoted ==> quote_count(text, at + 1) % 2 == 0)
}

/// Whether `found` is the first match of `find` in the first `len` bytes of
/// `text`, or `None` where there is no match.
pub open spec fn is_first_match(
    text: Seq<u8>,
    find: Seq<u8>,
    len: int,
    quoted: bool,
    found: Option<usize>,
) -> bool {
    let window = if len < text.len() {
        len
    } else {
        text.len() as int
    };
    match found {
        Some(at) => is_match(text, find, window, quoted, at as int) && forall|q: int|
            0 <= q < at ==> !is_match(text, find, window, quoted, q),
        None => forall|q: int| !is_match(text, find, window, quoted, q),
    }
}

/// Finds the first place where `find` stands in the first `len` bytes of
/// `text`, outside double quotes where `quoted` is set.
pub fn find_bytes(text: &[u8], find: &[u8], len: usize, quoted: bool) -> (found: Option<usize>)
    ensures
        is_first_match(text@, find@, len as int, quoted, found),
{
    let window: usize = if len < text.len() {
        len
    } else {
        text.len()
    };
    if find.len() > window {
        return None;
    }
    let last: usize = window - find.len();
    let mut pos: usize = 0;
    let mut inside: bool = false;
    while pos <= last
        invariant
            window == if len < text@.len() {
                len as int
            } else {
                text@.len() as int
            },
            window <= text@.len(),
            find@.len() <= window,
            last == window - find@.len(),
            pos <= last + 1,
            inside == (quote_count(text@, pos as int) % 2 == 1),
            forall|q: int| 0 <= q < pos ==> !is_match(text@, find@, window as int, quoted, q),
        decreases last + 1 - pos,
    {
        if pos < text.len() && text[pos] == QUOTE {
            inside = !inside;
        }
        assert(inside == (quote_count(text@, pos + 1) % 2 == 1));
        let mut k: usize = 0;
        while k < find.len() && text[pos + k] == find[k]
            invariant
                k <= find@.len(),
                pos <= last,
                last == window - find@.len(),
                window <= text@.len(),
                pos + find@.len() <= text@.len(),
                forall|j: int| 0 <= j < k ==> text@[pos + j] == find@[j],
            decreases find@.len() - k,
        {
            k += 1;
        }
        if k == find.len() && !(quoted && inside) {
            return Some(pos);
        }
        assert(!is_match(text@, find@, window as int, quoted, pos as int)) by {
            if k < find@.len() {
                assert(text@[pos + k] != find@[k as int]);
            }
        }
        if pos == last {
            return None;
        }
        pos += 1;
    }
    None
}

/// The position of the first place where `find` stands in the first `len`
/// bytes of `text`, or `None` where it stands nowhere in them.
pub fn mlx_int_str_str(text: String, find: String, len: usize) -> (found: Option<usize>)
    ensures
        is_first_match(encode_utf8(text@), encode_utf8(find@), len as int, false, found),
{
    find_bytes(text.as_str().as_bytes(), find.as_str().as_bytes(), len, false)
}

/// The position of the first place outside double quotes where `find` stands
/// in the first `len` bytes of `text`, or `None` where there is none.
pub fn mlx_int_str_str_cote(text: String, find: String, len: usize) -> (found: Option<usize>)
    ensures
        is_first_match(encode_utf8(text@), encode_utf8(find@), len as int, true, found),
{
    find_bytes(text.as_str().as_bytes(), find.as_str().as_bytes(), len, true)
}

/// Whether a character parts two words: a space or a tab.
pub open spec fn is_blank(c: char) -> bool {
    c == ' ' || c == '\t'
}

/// The first position at or after `from` that holds no blank, or the length
/// of the text where only blanks follow.
pub open spec fn word_start(text: Seq<char>, from: int) -> int
    decreases text.len() - from,
{
    if from < 0 || from >= text.len() {
        text.len() as int
    } else if !is_blank(text[from]) {
        from
    } else {
        word_start(text, from + 1)
    }
}

/// The first position at or after `from` that holds a blank, or the length
/// of the text where no blank follows.
pub open spec fn word_end(text: Seq<char>, from: int) -> int
    decreases text.len() - from,
{
    if from < 0 || from >= text.len() {
        text.len() as int
    } else if is_blank(text[from]) {
        from
    } else {
        word_end(text, from + 1)
    }
}

/// The words of a text from position `from` on: the runs of characters
/// between blanks, in the order in which they stand.
pub open spec fn words_from(text: Seq<char>, from: int) -> Seq<Seq<char>>
    decreases text.len() - from,
{
    let start = word_start(text, from);
    let end = word_end(text, start);
    if 0 <= from <= start < end <= text.len() {
        seq![text.subrange(start, end)] + words_from(text, end)
    } else {
        seq![]
    }
}

/// The texts of a list of strings.
pub open spec fn texts(words: Seq<String>) -> Seq<Seq<char>> {
    words.map_values(|word: String| word@)
}

/// Splits a text at its spaces and tabs into its words.
pub fn mlx_int_str_to_wordtab(text: &str) -> (words: Vec<String>)
    ensures
        texts(words@) == words_from(text@, 0),
{
    let len: usize = text.unicode_len();
    let mut words: Vec<String> = Vec::new();
    let mut pos: usize = 0;
    assert(texts(words@) =~= Seq::<Seq<char>>::empty());
    while pos < len
        invariant
            len == text@.len(),
            pos <= len,
            texts(words@) + words_from(text@, pos as int) == words_from(text@, 0),
        decreases len - pos,
    {
        let mut start: usize = pos;
        while start < len && (text.get_char(start) == ' ' || text.get_char(start) == '\t')
            invariant
                len == text@.len(),
                pos <= start <= len,
                word_start(text@, pos as int) == word_start(text@, start as int),
            decreases len - start,
        {
            start += 1;
        }
        if start >= len {
            assert(words_from(text@, pos as int) =~= Seq::<Seq<char>>::empty());
            assert(texts(words@) =~= words_from(text@, 0));
            return words;
        }
        let mut end: usize = start + 1;
        while end < len && !(text.get_char(end) == ' ' || text.get_char(end) == '\t')
            invariant
                len == text@.len(),
                start < end <= len,
                word_end(text@, start as int) == word_end(text@, end as int),
            decreases len - end,
        {
            end += 1;
        }
        let word = text.substring_char(start, end).to_owned();
        let ghost before = texts(words@);
        words.push(word);
        assert(texts(words@) =~= before + seq![text@.subrange(start as int, end as int)]);
        assert(words_from(text@, pos as int) == seq![text@.subrange(start as int, end as int)]
            + words_from(text@, end as int));
        assert(texts(words@) + words_from(text@, end as int) =~= before + words_from(
            text@,
            pos as int,
        ));
        pos = end;
    }
    assert(words_from(text@, pos as int) =~= Seq::<Seq<char>>::empty());
    assert(texts(words@) =~= words_from(text@, 0));
    words
}

/// From a position that holds no blank up to the end of its word, no
/// character is a blank.
pub proof fn lemma_word_end(text: Seq<char>, from: int, at: int)
    requires
        0 <= from <= at < word_end(text, from),
    ensures
        at < text.len(),
        !is_blank(text[at]),
        word_end(text, from) <= text.len(),
    decreases text.len() - from,
{
    if from < text.len() && !is_blank(text[from]) {
        if at > from {
            lemma_word_end(text, from + 1, at);
        } else {
            lemma_word_end_in_text(text, from + 1);
        }
    }
}

/// The end of a word lies inside the text or at its end.
pub proof fn lemma_word_end_in_text(text: Seq<char>, from: int)
    requires
        0 <= from,
    ensures
        word_end(text, from) <= text.len() || word_end(text, from) == from,
        from <= text.len() ==> from <= word_end(text, from) <= text.len(),
    decreases text.len() - from,
{
    if from < text.len() && !is_blank(text[from]) {
        lemma_word_end_in_text(text, from + 1);
    }
}

/// No word of a text is empty, and no word holds a blank.
pub proof fn lemma_words_hold_no_blank(text: Seq<char>, from: int, i: int, k: int)
    requires
        0 <= i < words_from(text, from).len(),
        0 <= k < words_from(text, from)[i].len(),
    ensures
        words_from(text, from)[i].len() > 0,
        !is_blank(words_from(text, from)[i][k]),
    decreases text.len() - from,
{
    let start = word_start(text, from);
    let end = word_end(text, start);
    if 0 <= from <= start < end <= text.len() {
        if i == 0 {
            assert(words_from(text, from)[0] == text.subrange(start, end));
            lemma_word_end(text, start, start + k);
        } else {
            assert(words_from(text, from)[i] == words_from(text, end)[i - 1]);
            lemma_words_hold_no_blank(text, end, i - 1, k);
        }
    }
}

} // verus!
