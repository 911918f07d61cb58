//! Country codes: the two-letter codes of ISO 3166-1.

use crate::text::{lowercase, lowercase_text};
use vstd::prelude::*;
use vstd::string::StrSliceExecFns;

verus! {

/// The second letters that make a country code together with the given
/// first letter, both in lower case.
pub open spec fn second_letters(first: char) -> Seq<char> {
    if first == 'a' {
        "defgilmoqrstuwxz"@
    } else if first == 'b' {
        "abdefghijlmnoqrstvwyz"@
    } else if first == 'c' {
        "acdfghiklmnoruvwxyz"@
    } else if first == 'd' {
        "ejkmoz"@
    } else if first == 'e' {
        "ceghrst"@
    } else if first == 'f' {
        "ijkmor"@
    } else if first == 'g' {
        "abdefghilmnpqrstuwy"@
    } else if first == 'h' {
        "kmnrtu"@
    } else if first == 'i' {
        "delmnoqrst"@
    } else if first == 'j' {
        "emop"@
    } else if first == 'k' {
        "eghimnprwyz"@
    } else if first == 'l' {
        "abcikrstuvy"@
    } else if first == 'm' {
        "acdefghklmnopqrstuvwxyz"@
    } else if first == 'n' {
        "acefgilopruz"@
    } else if first == 'o' {
        "m"@
    } else if first == 'p' {
        "aefghklmnrstwy"@
    } else if first == 'q' {
        "a"@
    } else if first == 'r' {
        "eosuw"@
    } else if first == 's' {
        "abcdeghijklmnorstvxyz"@
    } else if first == 't' {
        "cdfghjklmnortvwz"@
    } else if first == 'u' {
        "agmsyz"@
    } else if first == 'v' {
        "aceginu"@
    } else if first == 'w' {
        "fs"@
    } else if first == 'y' {
        "et"@
    } else if first == 'z' {
        "amw"@
    } else {
        ""@
    }
}

/// The text, as written, is a country code in lower case.
pub open spec fn country_code_text(text: Seq<char>) -> bool {
    text.len() == 2 && second_letters(text[0]).contains(text[1])
}

/// The text is a country code, in whatever case it is written.
pub open spec fn valid_country(text: Seq<char>) -> bool {
    country_code_text(lowercase_text(text))
}

fn second_letters_of(first: char) -> (r: &'static str)
    ensures
        r@ == second_letters(first),
{
    if first == 'a' {
        "defgilmoqrstuwxz"
    } else if first == 'b' {
        "abdefghijlmnoqrstvwyz"
    } else if first == 'c' {
        "acdfghiklmnoruvwxyz"
    } else if first == 'd' {
        "ejkmoz"
    } else if first == 'e' {
        "ceghrst"
    } else if first == 'f' {
        "ijkmor"
    } else if first == 'g' {
        "abdefghilmnpqrstuwy"
    } else if first == 'h' {
        "kmnrtu"
    } else if first == 'i' {
        "delmnoqrst"
    } else if first == 'j' {
        "emop"
    } else if first == 'k' {
        "eghimnprwyz"
    } else if first == 'l' {
        "abcikrstuvy"
    } else if first == 'm' {
        "acdefghklmnopqrstuvwxyz"
    } else if first == 'n' {
        "acefgilopruz"
    } else if first == 'o' {
        "m"
    } else if first == 'p' {
        "aefghklmnrstwy"
    } else if first == 'q' {
        "a"
    } else if first == 'r' {
        "eosuw"
    } else if first == 's' {
        "abcdeghijklmnorstvxyz"
    } else if first == 't' {
        "cdfghjklmnortvwz"
    } else if first == 'u' {
        "agmsyz"
    } else if first == 'v' {
        "aceginu"
    } else if first == 'w' {
        "fs"
    } else if first == 'y' {
        "et"
    } else if first == 'z' {
        "amw"
    } else {
        ""
    }
}

fn has_letter(letters: &str, letter: char) -> (b: bool)
    ensures
        b == letters@.contains(letter),
{
    let count: usize = letters.unicode_len();
    let mut i: usize = 0;
    while i < count
        invariant
            count == letters@.len(),
            i <= count,
            forall|j: int| 0 <= j < i ==> letters@[j] != letter,
        decreases count - i,
    {
        if letters.get_char(i) == letter {
            return true;
        }
        i = i + 1;
    }
    false
}

/// Whether the text, as written, is a country code in lower case.
pub fn is_country_code(text: &str) -> (b: bool)
    ensures
        b == country_code_text(text@),
{
    if text.unicode_len() != 2 {
        return false;
    }
    has_letter(second_letters_of(text.get_char(0)), text.get_char(1))
}

/// Whether the text is a country code, in whatever case it is written.
pub fn is_valid(code: &str) -> (b: bool)
    ensures
        b == valid_country(code@),
{
    let lowered: String = lowercase(code);
    is_country_code(lowered.as_str())
}

} // verus!
