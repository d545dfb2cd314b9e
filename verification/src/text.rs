//! Splitting and joining of text, stated over sequences of characters.

use vstd::prelude::*;
use vstd::string::*;

verus! {

/// The characters of each string of a list.
pub open spec fn text_views(parts: Seq<String>) -> Seq<Seq<char>> {
    Seq::new(parts.len(), |i: int| parts[i]@)
}

/// The index of the first `c` in `s`, or the length of `s` where it has none.
pub open spec fn first_at(s: Seq<char>, c: char) -> int
    decreases s.len(),
{
    if s.len() == 0 {
        0
    } else if s[0] == c {
        0
    } else {
        1 + first_at(s.drop_first(), c)
    }
}

/// Whether `text` holds no `c`.
pub open spec fn free_of(text: Seq<char>, c: char) -> bool {
    forall|k: int| 0 <= k < text.len() ==> text[k] != c
}

/// The pieces of `s` between the occurrences of `c`. A text without `c` is
/// one piece, the empty text one empty piece.
pub open spec fn split_on(s: Seq<char>, c: char) -> Seq<Seq<char>>
    decreases s.len(),
{
    let i = first_at(s, c);
    if 0 <= i < s.len() {
        seq![s.take(i)] + split_on(s.skip(i + 1), c)
    } else {
        seq![s]
    }
}

/// The parts written one after the other with `sep` between neighbours.
pub open spec fn joined(parts: Seq<Seq<char>>, sep: Seq<char>) -> Seq<char>
    decreases parts.len(),
{
    if parts.len() == 0 {
        Seq::empty()
    } else if parts.len() == 1 {
        parts[0]
    } else {
        parts[0] + sep + joined(parts.drop_first(), sep)
    }
}

/// `first_at` is the one index that holds `c` with no `c` before it.
pub proof fn lemma_first_at(s: Seq<char>, c: char, m: int)
    requires
        0 <= m <= s.len(),
        forall|k: int| 0 <= k < m ==> s[k] != c,
        m < s.len() ==> s[m] == c,
    ensures
        first_at(s, c) == m,
    decreases s.len(),
{
    if s.len() > 0 && s[0] != c {
        let rest = s.drop_first();
        assert forall|k: int| 0 <= k < m - 1 implies rest[k] != c by {
            assert(rest[k] == s[k + 1]);
        }
        lemma_first_at(rest, c, m - 1);
    }
}

/// `first_at` lies within the text, and nothing before it is `c`.
pub proof fn lemma_first_at_bounds(s: Seq<char>, c: char)
    ensures
        0 <= first_at(s, c) <= s.len(),
        forall|k: int| 0 <= k < first_at(s, c) ==> s[k] != c,
        first_at(s, c) < s.len() ==> s[first_at(s, c)] == c,
    decreases s.len(),
{
    if s.len() > 0 && s[0] != c {
        let rest = s.drop_first();
        lemma_first_at_bounds(rest, c);
        assert forall|k: int| 0 <= k < first_at(s, c) implies s[k] != c by {
            if k > 0 {
                assert(rest[k - 1] == s[k]);
            }
        }
    }
}

/// The index of the first `c` in `text`, or its length where it has none.
pub fn find_char(text: &str, c: char) -> (at: usize)
    ensures
        at == first_at(text@, c),
{
    let n = text.unicode_len();
    let mut at: usize = 0;
    while at < n
        invariant
            n == text@.len(),
            0 <= at <= n,
            forall|k: int| 0 <= k < at ==> text@[k] != c,
        decreases n - at,
    {
        if text.get_char(at) == c {
            proof {
                lemma_first_at(text@, c, at as int);
            }
            return at;
        }
        at = at + 1;
    }
    proof {
        lemma_first_at(text@, c, at as int);
    }
    at
}

/// Appending one part to a list appends the separator and the part to the
/// joined text.
pub proof fn lemma_joined_push(parts: Seq<Seq<char>>, sep: Seq<char>, last: Seq<char>)
    ensures
        joined(parts.push(last), sep) == if parts.len() == 0 {
            last
        } else {
            joined(parts, sep) + sep + last
        },
    decreases parts.len(),
{
    let all = parts.push(last);
    if parts.len() == 0 {
        assert(all[0] == last);
    } else if parts.len() == 1 {
        assert(all.drop_first() =~= seq![last]);
        assert(joined(all.drop_first(), sep) == last);
    } else {
        assert(all.drop_first() =~= parts.drop_first().push(last));
        lemma_joined_push(parts.drop_first(), sep, last);
        assert(joined(all, sep) =~= joined(parts, sep) + sep + last);
    }
}

/// Joins the parts with `sep` between neighbours.
pub fn join_with(parts: &Vec<String>, sep: &str) -> (text: String)
    ensures
        text@ == joined(text_views(parts@), sep@),
{
    let mut text = String::new();
    let mut i: usize = 0;
    while i < parts.len()
        invariant
            0 <= i <= parts.len(),
            text@ == joined(text_views(parts@).take(i as int), sep@),
        decreases parts.len() - i,
    {
        proof {
            let views = text_views(parts@);
            assert(views.take(i as int + 1) =~= views.take(i as int).push(views[i as int]));
            lemma_joined_push(views.take(i as int), sep@, views[i as int]);
        }
        if i > 0 {
            text.append(sep);
        }
        text.append(parts[i].as_str());
        i = i + 1;
    }
    proof {
        let views = text_views(parts@);
        assert(views.take(parts.len() as int) =~= views);
    }
    text
}

/// A text without `c` is a single piece.
pub proof fn lemma_split_without(s: Seq<char>, c: char)
    requires
        forall|k: int| 0 <= k < s.len() ==> s[k] != c,
    ensures
        split_on(s, c) == seq![s],
{
    lemma_first_at(s, c, s.len() as int);
}

/// A text whose first `c` stands at `m` splits into what is before it and
/// the pieces of what follows.
pub proof fn lemma_split_at(s: Seq<char>, c: char, m: int)
    requires
        0 <= m < s.len(),
        forall|k: int| 0 <= k < m ==> s[k] != c,
        s[m] == c,
    ensures
        split_on(s, c) == seq![s.take(m)] + split_on(s.skip(m + 1), c),
{
    lemma_first_at(s, c, m);
}

/// Splits `text` at every `sep`.
pub fn split_text(text: &str, sep: char) -> (parts: Vec<String>)
    ensures
        text_views(parts@) == split_on(text@, sep),
{
    let n = text.unicode_len();
    let mut parts: Vec<String> = Vec::new();
    let mut start: usize = 0;
    let mut i: usize = 0;
    proof {
        assert(text@.skip(0) =~= text@);
        assert(text_views(parts@) + split_on(text@, sep) =~= split_on(text@, sep));
    }
    while i < n
        invariant
            n == text@.len(),
            0 <= start <= i <= n,
            forall|k: int| start <= k < i ==> text@[k] != sep,
            split_on(text@, sep) == text_views(parts@) + split_on(text@.skip(start as int), sep),
        decreases n - i,
    {
        if text.get_char(i) == sep {
            let piece = String::from_str(text.substring_char(start, i));
            proof {
                let rest = text@.skip(start as int);
                assert forall|k: int| 0 <= k < i - start implies rest[k] != sep by {
                    assert(rest[k] == text@[start + k]);
                }
                lemma_split_at(rest, sep, i - start);
                assert(rest.take(i - start) =~= text@.subrange(start as int, i as int));
                assert(rest.skip(i - start + 1) =~= text@.skip(i + 1));
                assert(text_views(parts@.push(piece)) =~= text_views(parts@) + seq![piece@]);
            }
            parts.push(piece);
            start = i + 1;
        }
        i = i + 1;
    }
    let piece = String::from_str(text.substring_char(start, n));
    proof {
        let rest = text@.skip(start as int);
        assert forall|k: int| 0 <= k < rest.len() implies rest[k] != sep by {
            assert(rest[k] == text@[start + k]);
        }
        lemma_split_without(rest, sep);
        assert(rest =~= text@.subrange(start as int, n as int));
        assert(text_views(parts@.push(piece)) =~= text_views(parts@) + seq![piece@]);
    }
    parts.push(piece);
    parts
}

/// Joining parts that hold no `c` with `c` and splitting at `c` gives the
/// parts back.
pub proof fn lemma_split_joined(parts: Seq<Seq<char>>, c: char)
    requires
        parts.len() > 0,
        forall|i: int, k: int| 0 <= i < parts.len() && 0 <= k < parts[i].len() ==> parts[i][k] != c,
    ensures
        split_on(joined(parts, seq![c]), c) == parts,
    decreases parts.len(),
{
    if parts.len() == 1 {
        lemma_split_without(parts[0], c);
        assert(seq![parts[0]] =~= parts);
    } else {
        let rest = parts.drop_first();
        assert forall|i: int, k: int| 0 <= i < rest.len() && 0 <= k < rest[i].len() implies rest[i][k]
            != c by {
            assert(rest[i] == parts[i + 1]);
        }
        lemma_split_joined(rest, c);
        let text = joined(parts, seq![c]);
        let m = parts[0].len() as int;
        assert(text == parts[0] + seq![c] + joined(rest, seq![c]));
        assert forall|k: int| 0 <= k < m implies text[k] != c by {
            assert(text[k] == parts[0][k]);
        }
        assert(text[m] == c);
        lemma_split_at(text, c, m);
        assert(text.take(m) =~= parts[0]);
        assert(text.skip(m + 1) =~= joined(rest, seq![c]));
        assert(seq![parts[0]] + rest =~= parts);
    }
}

/// White space as Unicode defines it: the characters of the property
/// `White_Space`.
pub open spec fn is_white_space(c: char) -> bool {
    let n = c as u32;
    ||| 0x09 <= n <= 0x0D
    ||| n == 0x20
    ||| n == 0x85
    ||| n == 0xA0
    ||| n == 0x1680
    ||| 0x2000 <= n <= 0x200A
    ||| n == 0x2028
    ||| n == 0x2029
    ||| n == 0x202F
    ||| n == 0x205F
    ||| n == 0x3000
}

/// The words of a text: its longest pieces without white space. They are
/// the words of the text without its last character, where a last character
/// that is no white space lengthens the last word or, after white space or
/// at the start, begins a new one.
pub open spec fn words_of(s: Seq<char>) -> Seq<Seq<char>>
    decreases s.len(),
{
    if s.len() == 0 {
        Seq::empty()
    } else {
        let front = words_of(s.drop_last());
        if is_white_space(s.last()) {
            front
        } else if s.len() > 1 && !is_white_space(s[s.len() - 2]) && front.len() > 0 {
            front.drop_last().push(front.last().push(s.last()))
        } else {
            front.push(seq![s.last()])
        }
    }
}

/// A text that ends in a character that is no white space has words, and
/// every word is without white space and not empty.
pub proof fn lemma_words(s: Seq<char>)
    ensures
        s.len() > 0 && !is_white_space(s.last()) ==> words_of(s).len() > 0,
        forall|i: int|
            0 <= i < words_of(s).len() ==> (#[trigger] words_of(s)[i]).len() > 0 && forall|k: int|
                0 <= k < words_of(s)[i].len() ==> !is_white_space(words_of(s)[i][k]),
    decreases s.len(),
{
    if s.len() > 0 {
        lemma_words(s.drop_last());
        let front = words_of(s.drop_last());
        let words = words_of(s);
        assert forall|i: int| 0 <= i < words.len() implies (#[trigger] words[i]).len() > 0 && forall|
            k: int,
        |
            0 <= k < words[i].len() ==> !is_white_space(words[i][k]) by {
            if is_white_space(s.last()) {
                assert(words[i] == front[i]);
            } else if i < words.len() - 1 {
                assert(words[i] == front[i]);
            } else if s.len() > 1 && !is_white_space(s[s.len() - 2]) && front.len() > 0 {
                let word = front[front.len() - 1];
                assert(words[i] == word.push(s.last()));
                assert forall|k: int| 0 <= k < words[i].len() implies !is_white_space(
                    words[i][k],
                ) by {
                    if k < word.len() {
                        assert(words[i][k] == word[k]);
                    }
                }
            } else {
                assert(words[i] == seq![s.last()]);
            }
        }
    }
}

/// Whether `c` is white space.
pub fn white_space(c: char) -> (white: bool)
    ensures
        white == is_white_space(c),
{
    let n: u32 = c as u32;
    (0x09 <= n && n <= 0x0D) || n == 0x20 || n == 0x85 || n == 0xA0 || n == 0x1680 || (0x2000 <= n
        && n <= 0x200A) || n == 0x2028 || n == 0x2029 || n == 0x202F || n == 0x205F || n == 0x3000
}

/// Splits `text` into its words.
pub fn split_words(text: &str) -> (words: Vec<String>)
    ensures
        text_views(words@) == words_of(text@),
{
    let n = text.unicode_len();
    let mut words: Vec<String> = Vec::new();
    let mut start: usize = 0;
    let mut in_word = false;
    let mut i: usize = 0;
    proof {
        assert(text@.take(0) =~= Seq::empty());
        assert(text_views(words@) =~= Seq::empty());
    }
    while i < n
        invariant
            n == text@.len(),
            0 <= start <= i <= n,
            in_word <==> (i > 0 && !is_white_space(text@[i - 1])),
            in_word ==> start < i,
            words_of(text@.take(i as int)) == if in_word {
                text_views(words@).push(text@.subrange(start as int, i as int))
            } else {
                text_views(words@)
            },
        decreases n - i,
    {
        let c = text.get_char(i);
        let ghost before = text@.take(i as int);
        let ghost now = text@.take(i + 1);
        proof {
            assert(now.drop_last() =~= before);
            assert(now.last() == c);
            if i > 0 {
                assert(now[now.len() - 2] == text@[i - 1]);
            }
        }
        if white_space(c) {
            if in_word {
                let word = String::from_str(text.substring_char(start, i));
                proof {
                    assert(text_views(words@.push(word)) =~= text_views(words@).push(word@));
                }
                words.push(word);
                in_word = false;
            }
        } else {
            if !in_word {
                start = i;
                in_word = true;
                proof {
                    assert(text@.subrange(i as int, i + 1) =~= seq![c]);
                }
            } else {
                proof {
                    let front = words_of(before);
                    assert(front.last() == text@.subrange(start as int, i as int));
                    assert(front.drop_last() =~= text_views(words@));
                    assert(text@.subrange(start as int, i as int).push(c) =~= text@.subrange(
                        start as int,
                        i + 1,
                    ));
                }
            }
        }
        i = i + 1;
    }
    proof {
        assert(text@.take(n as int) =~= text@);
    }
    if in_word {
        let word = String::from_str(text.substring_char(start, n));
        proof {
            assert(text_views(words@.push(word)) =~= text_views(words@).push(word@));
        }
        words.push(word);
    }
    words
}

} // verus!
