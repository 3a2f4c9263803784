//! The level table and the rule by which a spelled word matches its target.
//!
//! The table is fixed at build time: an ordered list of target words, each
//! with the number of steps that the walk of its level starts from.

use crate::morse::{decode, lemma_decode_listed, morse_table, LETTER_COUNT};
use vstd::prelude::*;

verus! {

/// Number of levels.
pub const LEVEL_COUNT: usize = 3;

/// One row of the level table.
#[derive(Clone, Copy, Debug)]
pub struct Level {
    /// The word to spell.
    pub word: &'static str,
    /// Steps to walk before any bonus is added.
    pub base_steps: u32,
}

/// The target words, in level order.
pub open spec fn level_words() -> Seq<Seq<char>> {
    seq![seq!['r', 'a', 't'], seq!['t', 'u', 'i'], seq!['c', 'h', 'e', 'e', 's', 'e']]
}

/// The base step counts, in level order.
pub open spec fn level_base_steps() -> Seq<u32> {
    seq![5, 10, 15]
}

/// The word of level `index`, if there is such a level.
pub open spec fn target_word(index: usize) -> Option<Seq<char>> {
    if index < LEVEL_COUNT {
        Some(level_words()[index as int])
    } else {
        None
    }
}

/// The row of level `index`, or nothing where the index is past the table.
pub fn level(index: usize) -> (row: Option<Level>)
    ensures
        index >= LEVEL_COUNT <==> row is None,
        row matches Some(found) ==> found.word@ == level_words()[index as int] && found.base_steps
            == level_base_steps()[index as int],
{
    proof {
        reveal_strlit("rat");
        reveal_strlit("tui");
        reveal_strlit("cheese");
    }
    let row = match index {
        0 => Level { word: "rat", base_steps: 5 },
        1 => Level { word: "tui", base_steps: 10 },
        2 => Level { word: "cheese", base_steps: 15 },
        _ => {
            return None;
        },
    };
    assert(row.word@ =~= level_words()[index as int]);
    Some(row)
}

/// The lower-case form of an ASCII capital letter; any other character itself.
pub open spec fn ascii_lower(c: char) -> char {
    if 'A' <= c <= 'Z' {
        ((c as u8) + 32) as char
    } else {
        c
    }
}

/// The letters spell the word: they are as many as the word has, at least
/// one, and equal to the word letter by letter up to ASCII case.
pub open spec fn spells(letters: Seq<char>, word: Seq<char>) -> bool {
    &&& letters.len() > 0
    &&& letters.len() == word.len()
    &&& forall|i: int| 0 <= i < letters.len() ==> ascii_lower(letters[i]) == ascii_lower(word[i])
}

/// Lower-cases an ASCII capital letter.
fn to_ascii_lower(c: char) -> (lower: char)
    ensures
        lower == ascii_lower(c),
{
    if 'A' <= c && c <= 'Z' {
        ((c as u8) + 32) as char
    } else {
        c
    }
}

/// Whether the letters spell the word, up to ASCII case.
pub fn spells_word(letters: &[char], word: &str) -> (matched: bool)
    ensures
        matched == spells(letters@, word@),
{
    let len = word.unicode_len();
    if letters.len() == 0 || letters.len() != len {
        return false;
    }
    let mut i: usize = 0;
    while i < len
        invariant
            i <= len,
            len == word@.len(),
            len == letters@.len(),
            forall|j: int| 0 <= j < i ==> ascii_lower(letters@[j]) == ascii_lower(word@[j]),
        decreases len - i,
    {
        if to_ascii_lower(letters[i]) != to_ascii_lower(word.get_char(i)) {
            return false;
        }
        i += 1;
    }
    true
}

/// Case does not count: any word of at least one letter spells itself, and
/// letters spell a word exactly if they do so once both are lower-cased.
pub proof fn lemma_spells_ignores_case(letters: Seq<char>, word: Seq<char>)
    ensures
        word.len() > 0 ==> spells(word, word),
        spells(letters, word) <==> spells(
            letters.map_values(|c: char| ascii_lower(c)),
            word.map_values(|c: char| ascii_lower(c)),
        ),
{
    let lower_letters = letters.map_values(|c: char| ascii_lower(c));
    let lower_word = word.map_values(|c: char| ascii_lower(c));
    assert forall|c: char| ascii_lower(ascii_lower(c)) == ascii_lower(c) by {}
    if spells(letters, word) {
        assert forall|i: int| 0 <= i < lower_letters.len() implies ascii_lower(lower_letters[i])
            == ascii_lower(lower_word[i]) by {
            assert(ascii_lower(letters[i]) == ascii_lower(word[i]));
        }
    }
    if spells(lower_letters, lower_word) {
        assert forall|i: int| 0 <= i < letters.len() implies ascii_lower(letters[i])
            == ascii_lower(word[i]) by {
            assert(ascii_lower(lower_letters[i]) == ascii_lower(lower_word[i]));
        }
    }
}

/// The target words are written in lower case, so letters spell one of them
/// exactly if they are as many as it has, at least one, and each of them
/// lower-cased is the letter of the word in its place.
pub proof fn lemma_level_words_lower_case(index: usize, letters: Seq<char>)
    requires
        index < LEVEL_COUNT,
    ensures
        forall|i: int|
            0 <= i < level_words()[index as int].len() ==> 'a' <= #[trigger] level_words()[index as int][i]
                <= 'z',
        spells(letters, level_words()[index as int]) <==> (letters.len() > 0 && letters.len()
            == level_words()[index as int].len() && forall|i: int|
            0 <= i < letters.len() ==> ascii_lower(#[trigger] letters[i])
                == level_words()[index as int][i]),
{
    let word = level_words()[index as int];
    assert forall|i: int| 0 <= i < word.len() implies 'a' <= #[trigger] word[i] <= 'z' by {}
    if letters.len() > 0 && letters.len() == word.len() {
        if spells(letters, word) {
            assert forall|i: int| 0 <= i < letters.len() implies ascii_lower(#[trigger] letters[i])
                == word[i] by {
                assert(ascii_lower(letters[i]) == ascii_lower(word[i]));
                assert('a' <= word[i] <= 'z');
            }
        }
        if forall|i: int| 0 <= i < letters.len() ==> ascii_lower(#[trigger] letters[i]) == word[i] {
            assert forall|i: int| 0 <= i < letters.len() implies ascii_lower(letters[i])
                == ascii_lower(word[i]) by {
                assert(ascii_lower(letters[i]) == word[i]);
                assert('a' <= word[i] <= 'z');
            }
        }
    }
}

/// Every level can be won: each letter of each target word is, up to case,
/// a letter of the Morse table, so some symbol decodes to it.
pub proof fn lemma_levels_are_spellable(index: usize, position: int)
    requires
        index < LEVEL_COUNT,
        0 <= position < level_words()[index as int].len(),
    ensures
        exists|row: int|
            0 <= row < LETTER_COUNT && ascii_lower(decode(#[trigger] morse_table()[row].0))
                == ascii_lower(level_words()[index as int][position]),
{
    let letter = level_words()[index as int][position];
    let row: int = letter as int - 'a' as int;
    assert(0 <= row < LETTER_COUNT);
    lemma_decode_listed(row);
    assert(ascii_lower(morse_table()[row].1) == letter);
}

} // verus!
