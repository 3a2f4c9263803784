//! The Morse alphabet: marks, the fixed table of 26 letters, and decoding.
//!
//! A symbol is the sequence of marks keyed for one letter, written with `.`
//! for a dot and `-` for a dash. Decoding is an exact match against the
//! table; a symbol that is not in the table decodes to a placeholder.

use vstd::prelude::*;

verus! {

/// The mark for a short press.
pub const DOT: char = '.';

/// The mark for a long press.
pub const DASH: char = '-';

/// What a symbol that is not in the table decodes to.
pub const PLACEHOLDER: char = '?';

/// Number of letters in the table.
pub const LETTER_COUNT: usize = 26;

/// A press held for less than this many milliseconds is a dot, any longer one
/// a dash.
pub const DOT_DASH_MS: u64 = 200;

/// The table of the 26 letters, each with its code.
pub open spec fn morse_table() -> Seq<(Seq<char>, char)> {
    seq![
        (seq!['.', '-'], 'A'),
        (seq!['-', '.', '.', '.'], 'B'),
        (seq!['-', '.', '-', '.'], 'C'),
        (seq!['-', '.', '.'], 'D'),
        (seq!['.'], 'E'),
        (seq!['.', '.', '-', '.'], 'F'),
        (seq!['-', '-', '.'], 'G'),
        (seq!['.', '.', '.', '.'], 'H'),
        (seq!['.', '.'], 'I'),
        (seq!['.', '-', '-', '-'], 'J'),
        (seq!['-', '.', '-'], 'K'),
        (seq!['.', '-', '.', '.'], 'L'),
        (seq!['-', '-'], 'M'),
        (seq!['-', '.'], 'N'),
        (seq!['-', '-', '-'], 'O'),
        (seq!['.', '-', '-', '.'], 'P'),
        (seq!['-', '-', '.', '-'], 'Q'),
        (seq!['.', '-', '.'], 'R'),
        (seq!['.', '.', '.'], 'S'),
        (seq!['-'], 'T'),
        (seq!['.', '.', '-'], 'U'),
        (seq!['.', '.', '.', '-'], 'V'),
        (seq!['.', '-', '-'], 'W'),
        (seq!['-', '.', '.', '-'], 'X'),
        (seq!['-', '.', '-', '-'], 'Y'),
        (seq!['-', '-', '.', '.'], 'Z'),
    ]
}

/// The symbol is the code of some letter of the table.
pub open spec fn is_listed(symbol: Seq<char>) -> bool {
    exists|i: int| 0 <= i < LETTER_COUNT && #[trigger] morse_table()[i].0 == symbol
}

/// A row of the table whose code is the symbol, where the symbol is listed.
pub open spec fn row_of(symbol: Seq<char>) -> int {
    choose|i: int| 0 <= i < LETTER_COUNT && #[trigger] morse_table()[i].0 == symbol
}

/// The letter that a symbol stands for: the letter of the table whose code
/// is exactly the symbol, or the placeholder where there is none.
pub open spec fn decode(symbol: Seq<char>) -> char {
    if is_listed(symbol) {
        morse_table()[row_of(symbol)].1
    } else {
        PLACEHOLDER
    }
}

/// The mark that a press held for `held_ms` milliseconds keys: a dot below
/// the boundary, a dash from the boundary on.
pub open spec fn mark_for(held_ms: u64) -> char {
    if held_ms < DOT_DASH_MS {
        DOT
    } else {
        DASH
    }
}

/// Classifies a press by how long it was held.
pub fn classify(held_ms: u64) -> (mark: char)
    ensures
        mark == mark_for(held_ms),
        mark == DOT <==> held_ms < DOT_DASH_MS,
        mark == DASH <==> held_ms >= DOT_DASH_MS,
{
    if held_ms < DOT_DASH_MS {
        DOT
    } else {
        DASH
    }
}

/// The code in row `index` of the table.
fn code_at(index: usize) -> (code: &'static str)
    requires
        index < LETTER_COUNT,
    ensures
        code@ == morse_table()[index as int].0,
{
    proof {
        reveal_strlit(".-");
        reveal_strlit("-...");
        reveal_strlit("-.-.");
        reveal_strlit("-..");
        reveal_strlit(".");
        reveal_strlit("..-.");
        reveal_strlit("--.");
        reveal_strlit("....");
        reveal_strlit("..");
        reveal_strlit(".---");
        reveal_strlit("-.-");
        reveal_strlit(".-..");
        reveal_strlit("--");
        reveal_strlit("-.");
        reveal_strlit("---");
        reveal_strlit(".--.");
        reveal_strlit("--.-");
        reveal_strlit(".-.");
        reveal_strlit("...");
        reveal_strlit("-");
        reveal_strlit("..-");
        reveal_strlit("...-");
        reveal_strlit(".--");
        reveal_strlit("-..-");
        reveal_strlit("-.--");
        reveal_strlit("--..");
    }
    let code = match index {
        0 => ".-",
        1 => "-...",
        2 => "-.-.",
        3 => "-..",
        4 => ".",
        5 => "..-.",
        6 => "--.",
        7 => "....",
        8 => "..",
        9 => ".---",
        10 => "-.-",
        11 => ".-..",
        12 => "--",
        13 => "-.",
        14 => "---",
        15 => ".--.",
        16 => "--.-",
        17 => ".-.",
        18 => "...",
        19 => "-",
        20 => "..-",
        21 => "...-",
        22 => ".--",
        23 => "-..-",
        24 => "-.--",
        _ => "--..",
    };
    assert(code@ =~= morse_table()[index as int].0);
    code
}

/// The letter in row `index` of the table.
fn letter_at(index: usize) -> (letter: char)
    requires
        index < LETTER_COUNT,
    ensures
        letter == morse_table()[index as int].1,
{
    match index {
        0 => 'A',
        1 => 'B',
        2 => 'C',
        3 => 'D',
        4 => 'E',
        5 => 'F',
        6 => 'G',
        7 => 'H',
        8 => 'I',
        9 => 'J',
        10 => 'K',
        11 => 'L',
        12 => 'M',
        13 => 'N',
        14 => 'O',
        15 => 'P',
        16 => 'Q',
        17 => 'R',
        18 => 'S',
        19 => 'T',
        20 => 'U',
        21 => 'V',
        22 => 'W',
        23 => 'X',
        24 => 'Y',
        _ => 'Z',
    }
}

/// Whether the symbol is exactly the code.
fn matches_code(symbol: &[char], code: &str) -> (same: bool)
    ensures
        same == (symbol@ == code@),
{
    let len = code.unicode_len();
    if symbol.len() != len {
        return false;
    }
    let mut i: usize = 0;
    while i < len
        invariant
            i <= len,
            len == code@.len(),
            len == symbol@.len(),
            forall|j: int| 0 <= j < i ==> symbol@[j] == code@[j],
        decreases len - i,
    {
        if symbol[i] != code.get_char(i) {
            return false;
        }
        i += 1;
    }
    assert(symbol@ =~= code@);
    true
}

/// No two letters of the table share a code.
pub proof fn lemma_codes_distinct(i: int, j: int)
    requires
        0 <= i < LETTER_COUNT,
        0 <= j < LETTER_COUNT,
        morse_table()[i].0 == morse_table()[j].0,
    ensures
        i == j,
{
    let table = morse_table();
    assert(table[i].0.len() == table[j].0.len());
    assert(forall|k: int| 0 <= k < table[i].0.len() ==> table[i].0[k] == table[j].0[k]);
    if table[i].0.len() >= 1 {
        assert(table[i].0[0] == table[j].0[0]);
    }
    if table[i].0.len() >= 2 {
        assert(table[i].0[1] == table[j].0[1]);
    }
    if table[i].0.len() >= 3 {
        assert(table[i].0[2] == table[j].0[2]);
    }
    if table[i].0.len() >= 4 {
        assert(table[i].0[3] == table[j].0[3]);
    }
}

/// Every letter of the table is what its own code decodes to.
pub proof fn lemma_decode_listed(index: int)
    requires
        0 <= index < LETTER_COUNT,
    ensures
        decode(morse_table()[index].0) == morse_table()[index].1,
{
    let symbol = morse_table()[index].0;
    assert(is_listed(symbol));
    lemma_codes_distinct(row_of(symbol), index);
}

/// A symbol that is the code of no letter decodes to the placeholder.
pub proof fn lemma_decode_unlisted(symbol: Seq<char>)
    requires
        forall|i: int| 0 <= i < LETTER_COUNT ==> #[trigger] morse_table()[i].0 != symbol,
    ensures
        decode(symbol) == PLACEHOLDER,
{
}

/// Every code has one to four marks, each a dot or a dash; so a symbol of
/// another length, or one that holds any other character, decodes to the
/// placeholder.
pub proof fn lemma_codes_are_short(symbol: Seq<char>)
    requires
        symbol.len() == 0 || symbol.len() > 4 || exists|k: int|
            0 <= k < symbol.len() && symbol[k] != DOT && symbol[k] != DASH,
    ensures
        decode(symbol) == PLACEHOLDER,
{
    if is_listed(symbol) {
        let row = row_of(symbol);
        let code = morse_table()[row].0;
        assert(1 <= code.len() <= 4);
        assert(forall|k: int| 0 <= k < code.len() ==> code[k] == DOT || code[k] == DASH);
    }
}

/// What a symbol decodes to is a capital letter or the placeholder.
pub proof fn lemma_decode_range(symbol: Seq<char>)
    ensures
        decode(symbol) == PLACEHOLDER || ('A' <= decode(symbol) <= 'Z'),
{
    if is_listed(symbol) {
        assert('A' <= morse_table()[row_of(symbol)].1 <= 'Z');
    }
}

/// Decodes a symbol to its letter, or to the placeholder if the symbol is not
/// the code of any letter.
pub fn decode_morse(symbol: &[char]) -> (letter: char)
    ensures
        letter == decode(symbol@),
{
    let mut i: usize = 0;
    while i < LETTER_COUNT
        invariant
            i <= LETTER_COUNT,
            forall|j: int| 0 <= j < i ==> #[trigger] morse_table()[j].0 != symbol@,
        decreases LETTER_COUNT - i,
    {
        if matches_code(symbol, code_at(i)) {
            proof {
                lemma_decode_listed(i as int);
            }
            return letter_at(i);
        }
        i += 1;
    }
    PLACEHOLDER
}

} // verus!
