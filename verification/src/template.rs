//! Substitution of `${name}` placeholders inside strings.
//!
//! A placeholder is the two characters `${`, a possibly empty run of word
//! characters, and a closing `}`. The text is read once from left to right;
//! what a substitution puts in is not read again.

use crate::text::{characters, text_of};
use vstd::prelude::*;
use vstd::string::StringExecFns;

verus! {

/// Whether `c` is a word character in the sense of Unicode (a letter, a
/// mark, a decimal digit, connecting punctuation such as `_`, or a join
/// control). The name of a placeholder is made of such characters.
pub uninterp spec fn is_word_character(c: char) -> bool;

/// Calls `regex_syntax::is_word_character`, the test behind the regular
/// expression class `\w`. The contract gives its answer the name
/// `is_word_character` and claims nothing more of it.
#[verifier::external_body]
fn word_character(c: char) -> (word: bool)
    ensures
        word == is_word_character(c),
{
    regex_syntax::is_word_character(c)
}

/// Each character of `s` together with whether it is a word character.
pub open spec fn marked(s: Seq<char>) -> Seq<(char, bool)> {
    s.map_values(|c: char| (c, is_word_character(c)))
}

/// The characters of a marked text.
pub open spec fn letters(text: Seq<(char, bool)>) -> Seq<char> {
    text.map_values(|m: (char, bool)| m.0)
}

/// How many characters marked as word characters stand in a row in `text`
/// from position `i` on.
pub open spec fn word_run(text: Seq<(char, bool)>, i: int) -> nat
    decreases text.len() - i,
{
    if 0 <= i < text.len() && text[i].1 {
        1 + word_run(text, i + 1)
    } else {
        0
    }
}

/// The length of the placeholder that starts at position `i` of `text`, or
/// 0 where none starts there.
pub open spec fn placeholder_len(text: Seq<(char, bool)>, i: int) -> nat {
    let close = i + 2 + word_run(text, i + 2);
    if 0 <= i && close < text.len() && text[i].0 == '$' && text[i + 1].0 == '{' && text[close].0
        == '}' {
        (close + 1 - i) as nat
    } else {
        0
    }
}

/// The name inside a placeholder of length `len` that starts at `i`.
pub open spec fn placeholder_name(text: Seq<(char, bool)>, i: int, len: nat) -> Seq<char> {
    letters(text.subrange(i + 2, i + len - 1))
}

/// The characters of `text` from position `i` on, with every placeholder
/// that `lookup` knows replaced by its value and every other one left as it
/// is.
pub open spec fn substituted_from(
    text: Seq<(char, bool)>,
    i: int,
    lookup: spec_fn(Seq<char>) -> Option<Seq<char>>,
) -> Seq<char>
    decreases text.len() - i,
{
    let len = placeholder_len(text, i);
    if i < 0 || i >= text.len() {
        Seq::empty()
    } else if len > 0 {
        let piece = match lookup(placeholder_name(text, i, len)) {
            Some(value) => value,
            None => letters(text.subrange(i, i + len)),
        };
        piece + substituted_from(text, i + len, lookup)
    } else {
        seq![text[i].0] + substituted_from(text, i + 1, lookup)
    }
}

/// `s` with its placeholders substituted through `lookup`.
pub open spec fn substituted(
    s: Seq<char>,
    lookup: spec_fn(Seq<char>) -> Option<Seq<char>>,
) -> Seq<char> {
    substituted_from(marked(s), 0, lookup)
}

/// `replacer` computes `lookup`: whatever it returns for a name is what
/// `lookup` gives for that name.
pub open spec fn computes<F: Fn(&str) -> Option<String>>(
    replacer: F,
    lookup: spec_fn(Seq<char>) -> Option<Seq<char>>,
) -> bool {
    forall|name: &str, value: Option<String>| #[trigger]
        replacer.ensures((name,), value) ==> text_of(value) == lookup(name@)
}

/// No placeholder of `text` from position `i` on has a name that `lookup`
/// knows.
pub open spec fn nothing_known(
    text: Seq<(char, bool)>,
    i: int,
    lookup: spec_fn(Seq<char>) -> Option<Seq<char>>,
) -> bool {
    forall|j: int|
        i <= j < text.len() && #[trigger] placeholder_len(text, j) > 0 ==> lookup(
            placeholder_name(text, j, placeholder_len(text, j)),
        ) is None
}

/// Substitution leaves the rest of a text as it is where none of its
/// placeholders has a name that `lookup` knows.
pub proof fn lemma_unknown_stay_from(
    text: Seq<(char, bool)>,
    i: int,
    lookup: spec_fn(Seq<char>) -> Option<Seq<char>>,
)
    requires
        0 <= i <= text.len(),
        nothing_known(text, i, lookup),
    ensures
        substituted_from(text, i, lookup) == letters(text.subrange(i, text.len() as int)),
    decreases text.len() - i,
{
    let len = placeholder_len(text, i);
    let end = text.len() as int;
    if i >= text.len() {
        assert(letters(text.subrange(i, end)) =~= Seq::<char>::empty());
    } else if len > 0 {
        lemma_unknown_stay_from(text, i + len, lookup);
        assert(letters(text.subrange(i, i + len)) + letters(text.subrange(i + len, end))
            =~= letters(text.subrange(i, end)));
    } else {
        lemma_unknown_stay_from(text, i + 1, lookup);
        assert(seq![text[i].0] + letters(text.subrange(i + 1, end)) =~= letters(
            text.subrange(i, end),
        ));
    }
}

/// A text whose placeholders all have names that `lookup` does not know
/// comes out of the substitution unchanged.
pub proof fn lemma_unknown_stay(s: Seq<char>, lookup: spec_fn(Seq<char>) -> Option<Seq<char>>)
    requires
        nothing_known(marked(s), 0, lookup),
    ensures
        substituted(s, lookup) == s,
{
    let text = marked(s);
    lemma_unknown_stay_from(text, 0, lookup);
    assert(letters(text.subrange(0, text.len() as int)) =~= s);
}

/// A text without placeholders comes out of the substitution unchanged,
/// whatever `lookup` knows.
pub proof fn lemma_plain_text_stays(s: Seq<char>, lookup: spec_fn(Seq<char>) -> Option<Seq<char>>)
    requires
        forall|j: int| 0 <= j < s.len() ==> #[trigger] placeholder_len(marked(s), j) == 0,
    ensures
        substituted(s, lookup) == s,
{
    lemma_unknown_stay(s, lookup);
}

/// A text without the character `$` holds no placeholder, and so comes out
/// of the substitution unchanged.
pub proof fn lemma_no_dollar_stays(s: Seq<char>, lookup: spec_fn(Seq<char>) -> Option<Seq<char>>)
    requires
        forall|j: int| 0 <= j < s.len() ==> #[trigger] s[j] != '$',
    ensures
        substituted(s, lookup) == s,
{
    assert forall|j: int| 0 <= j < s.len() implies #[trigger] placeholder_len(marked(s), j)
        == 0 by {
        assert(s[j] != '$');
    }
    lemma_plain_text_stays(s, lookup);
}

/// A run of marked characters that an unmarked one follows has the length
/// that it seems to have.
pub proof fn lemma_word_run(text: Seq<(char, bool)>, i: int, end: int)
    requires
        0 <= i <= end < text.len(),
        forall|j: int| i <= j < end ==> (#[trigger] text[j]).1,
        !text[end].1,
    ensures
        word_run(text, i) == end - i,
    decreases end - i,
{
    if i < end {
        lemma_word_run(text, i + 1, end);
    }
}

/// A text that is one placeholder and nothing else (`${`, a name of marked
/// characters, and an unmarked `}`) gives way to what `lookup` knows under
/// the name, and stays as it is where `lookup` knows nothing.
pub proof fn lemma_lone_placeholder_marked(
    text: Seq<(char, bool)>,
    lookup: spec_fn(Seq<char>) -> Option<Seq<char>>,
)
    requires
        text.len() >= 3,
        text[0].0 == '$',
        text[1].0 == '{',
        text.last().0 == '}',
        !text.last().1,
        forall|j: int| 2 <= j < text.len() - 1 ==> (#[trigger] text[j]).1,
    ensures
        substituted_from(text, 0, lookup) == match lookup(
            letters(text.subrange(2, text.len() - 1)),
        ) {
            Some(value) => value,
            None => letters(text),
        },
{
    let n = text.len() as int;
    lemma_word_run(text, 2, n - 1);
    assert(placeholder_len(text, 0) == n);
    assert(substituted_from(text, n, lookup) =~= Seq::<char>::empty());
    assert(text.subrange(0, n) =~= text);
    let piece = match lookup(placeholder_name(text, 0, n as nat)) {
        Some(value) => value,
        None => letters(text.subrange(0, n)),
    };
    assert(piece + Seq::<char>::empty() =~= piece);
}

/// The text of the placeholder with the name `name`.
pub open spec fn placeholder(name: Seq<char>) -> Seq<char> {
    seq!['$', '{'] + name + seq!['}']
}

/// The placeholder of a name that is made of word characters, standing
/// alone, gives way to what `lookup` knows under the name, and stays as it
/// is where `lookup` knows nothing. (That `}` is no word character is
/// asked of the caller, since nothing here says which characters are.)
pub proof fn lemma_lone_placeholder(
    name: Seq<char>,
    lookup: spec_fn(Seq<char>) -> Option<Seq<char>>,
)
    requires
        forall|j: int| 0 <= j < name.len() ==> is_word_character(#[trigger] name[j]),
        !is_word_character('}'),
    ensures
        substituted(placeholder(name), lookup) == match lookup(name) {
            Some(value) => value,
            None => placeholder(name),
        },
{
    let s = placeholder(name);
    let text = marked(s);
    assert(s.len() == name.len() + 3);
    assert forall|j: int| 2 <= j < text.len() - 1 implies (#[trigger] text[j]).1 by {
        assert(s[j] == name[j - 2]);
    }
    lemma_lone_placeholder_marked(text, lookup);
    assert(letters(text.subrange(2, text.len() - 1)) =~= name);
    assert(letters(text) =~= s);
}

/// Where the placeholder that starts at `i` ends, or `i` itself where no
/// placeholder starts there.
fn placeholder_end(text: &Vec<(char, bool)>, i: usize) -> (end: usize)
    requires
        i < text@.len(),
    ensures
        end == i + placeholder_len(text@, i as int),
        end <= text@.len(),
{
    let n = text.len();
    if text[i].0 != '$' || i + 1 >= n || text[i + 1].0 != '{' {
        return i;
    }
    let mut j: usize = i + 2;
    while j < n && text[j].1
        invariant
            n == text@.len(),
            i + 2 <= j <= n,
            word_run(text@, i + 2) == (j - (i + 2)) + word_run(text@, j as int),
        decreases n - j,
    {
        j += 1;
    }
    if j < n && text[j].0 == '}' {
        j + 1
    } else {
        i
    }
}

/// Appends the characters of `text` from `from` up to `to`.
fn push_range(output: &mut String, text: &Vec<(char, bool)>, from: usize, to: usize)
    requires
        from <= to <= text@.len(),
    ensures
        final(output)@ == old(output)@ + letters(text@.subrange(from as int, to as int)),
{
    let mut k: usize = from;
    assert(output@ =~= old(output)@ + letters(text@.subrange(from as int, from as int)));
    while k < to
        invariant
            from <= k <= to <= text@.len(),
            output@ == old(output)@ + letters(text@.subrange(from as int, k as int)),
        decreases to - k,
    {
        output.push(text[k].0);
        k += 1;
        assert(output@ =~= old(output)@ + letters(text@.subrange(from as int, k as int)));
    }
}

/// Replaces the placeholders of a text whose characters are already
/// marked: `text` holds each character with whether it counts as a word
/// character. Each name is handed to `replacer`, and the placeholder gives
/// way to the value that comes back, or stays as it is where none comes
/// back.
pub fn replace_marked<F>(text: &Vec<(char, bool)>, replacer: F) -> (output: String) where
    F: Fn(&str) -> Option<String>,

    requires
        forall|name: &str| replacer.requires((name,)),
    ensures
        forall|lookup: spec_fn(Seq<char>) -> Option<Seq<char>>| #[trigger]
            computes(replacer, lookup) ==> output@ == substituted_from(text@, 0, lookup),
{
    let n = text.len();
    let mut output = String::new();
    let mut i: usize = 0;
    while i < n
        invariant
            n == text@.len(),
            i <= n,
            forall|name: &str| replacer.requires((name,)),
            forall|lookup: spec_fn(Seq<char>) -> Option<Seq<char>>| #[trigger]
                computes(replacer, lookup) ==> output@ + substituted_from(
                    text@,
                    i as int,
                    lookup,
                ) == substituted_from(text@, 0, lookup),
        decreases n - i,
    {
        let ghost before = output@;
        let ghost start = i as int;
        let end = placeholder_end(text, i);
        if end > i {
            let mut name = String::new();
            push_range(&mut name, text, i + 2, end - 1);
            assert(name@ =~= placeholder_name(text@, start, (end - i) as nat));
            let value = replacer(name.as_str());
            match value {
                Some(found) => {
                    output.append(found.as_str());
                },
                None => {
                    push_range(&mut output, text, i, end);
                },
            }
            proof {
                assert forall|lookup: spec_fn(Seq<char>) -> Option<Seq<char>>| #[trigger]
                    computes(replacer, lookup) implies output@ + substituted_from(
                    text@,
                    end as int,
                    lookup,
                ) == substituted_from(text@, 0, lookup) by {
                    assert(text_of(value) == lookup(name@));
                    let piece = match lookup(name@) {
                        Some(v) => v,
                        None => letters(text@.subrange(start, end as int)),
                    };
                    let rest = substituted_from(text@, end as int, lookup);
                    assert(output@ == before + piece);
                    assert(substituted_from(text@, start, lookup) == piece + rest);
                    assert((before + piece) + rest =~= before + (piece + rest));
                }
            }
            i = end;
        } else {
            output.push(text[i].0);
            proof {
                assert forall|lookup: spec_fn(Seq<char>) -> Option<Seq<char>>| #[trigger]
                    computes(replacer, lookup) implies output@ + substituted_from(
                    text@,
                    start + 1,
                    lookup,
                ) == substituted_from(text@, 0, lookup) by {
                    let rest = substituted_from(text@, start + 1, lookup);
                    assert(substituted_from(text@, start, lookup) == seq![text@[start].0] + rest);
                    assert(before.push(text@[start].0) + rest =~= before + (seq![text@[start].0]
                        + rest));
                }
            }
            i += 1;
        }
    }
    proof {
        assert forall|lookup: spec_fn(Seq<char>) -> Option<Seq<char>>| #[trigger]
            computes(replacer, lookup) implies output@ == substituted_from(text@, 0, lookup) by {
            assert(substituted_from(text@, n as int, lookup) =~= Seq::<char>::empty());
            assert(output@ + Seq::<char>::empty() =~= output@);
        }
    }
    output
}

/// Each character of `input` with whether it is a word character.
pub fn mark(input: &str) -> (text: Vec<(char, bool)>)
    ensures
        text@ == marked(input@),
{
    let chars = characters(input);
    let mut text: Vec<(char, bool)> = Vec::new();
    let mut i: usize = 0;
    while i < chars.len()
        invariant
            i <= chars@.len(),
            text@ == marked(chars@.take(i as int)),
        decreases chars@.len() - i,
    {
        let c = chars[i];
        text.push((c, word_character(c)));
        i += 1;
        assert(text@ =~= marked(chars@.take(i as int)));
    }
    assert(chars@.take(i as int) =~= chars@);
    text
}

/// Replaces the placeholders of `input`: each name is handed to `replacer`,
/// and the placeholder gives way to the value that comes back, or stays as
/// it is where none comes back.
pub fn dollar_repl<F>(input: &str, replacer: F) -> (output: String) where
    F: Fn(&str) -> Option<String>,

    requires
        forall|name: &str| replacer.requires((name,)),
    ensures
        forall|lookup: spec_fn(Seq<char>) -> Option<Seq<char>>| #[trigger]
            computes(replacer, lookup) ==> output@ == substituted(input@, lookup),
{
    let text = mark(input);
    replace_marked(&text, replacer)
}

} // verus!
