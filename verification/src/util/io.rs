//! What is made of the answers a user types: passphrases and confirmations.

use crate::util::errors::{ObscuraError, ObscuraResult};
use crate::util::text::{chars_of, trim_range, trim_spec};
use vstd::prelude::*;
use vstd::string::*;
use vstd::utf8::*;

verus! {

/// The least number of bytes a typed passphrase must have.
pub const MIN_PASSPHRASE_LEN: usize = 8;

/// Accepts a typed passphrase of at least eight bytes.
pub fn check_passphrase(entered: String) -> (res: ObscuraResult<String>)
    ensures
        if encode_utf8(entered@).len() >= MIN_PASSPHRASE_LEN {
            res matches Ok(p) && p@ == entered@
        } else {
            res matches Err(e) && e == ObscuraError::PassphraseTooShort
        },
{
    if entered.as_str().as_bytes().len() < MIN_PASSPHRASE_LEN {
        Err(ObscuraError::PassphraseTooShort)
    } else {
        Ok(entered)
    }
}

/// Accepts a passphrase that was typed the same way twice.
pub fn check_confirmation(passphrase: String, confirmation: String) -> (res: ObscuraResult<String>)
    ensures
        if passphrase@ == confirmation@ {
            res matches Ok(p) && p@ == passphrase@
        } else {
            res matches Err(e) && e == ObscuraError::ConfirmationMismatch
        },
{
    if passphrase == confirmation {
        Ok(passphrase)
    } else {
        Err(ObscuraError::ConfirmationMismatch)
    }
}

/// Whether a character is `letter` in either case, `letter` being a
/// lower-case ASCII letter.
pub open spec fn is_letter(c: char, letter: char) -> bool {
    c == letter || c as u32 + 32 == letter as u32
}

/// Whether an answer means yes: `y` or `yes` in any case, white space
/// around it aside.
pub open spec fn means_yes(input: Seq<char>) -> bool {
    let answer = trim_spec(input);
    ||| answer.len() == 1 && is_letter(answer[0], 'y')
    ||| answer.len() == 3 && is_letter(answer[0], 'y') && is_letter(answer[1], 'e') && is_letter(
        answer[2],
        's',
    )
}

fn letter_matches(c: char, letter: char) -> (res: bool)
    ensures
        res == is_letter(c, letter),
{
    let n: u32 = c as u32;
    let l: u32 = letter as u32;
    c == letter || (n <= u32::MAX - 32 && n + 32 == l)
}

/// Reads the answer to a yes-or-no question.
pub fn parse_yes_no(input: &str) -> (yes: bool)
    ensures
        yes == means_yes(input@),
{
    let chars = chars_of(input);
    let (a, b) = trim_range(&chars, 0, chars.len());
    proof {
        assert(chars@.subrange(0, chars@.len() as int) =~= chars@);
        let answer = chars@.subrange(a as int, b as int);
        if answer.len() >= 1 {
            assert(answer[0] == chars@[a as int]);
        }
        if answer.len() >= 3 {
            assert(answer[1] == chars@[a + 1]);
            assert(answer[2] == chars@[a + 2]);
        }
    }
    if b - a == 1 {
        letter_matches(chars[a], 'y')
    } else if b - a == 3 {
        letter_matches(chars[a], 'y') && letter_matches(chars[a + 1], 'e') && letter_matches(
            chars[a + 2],
            's',
        )
    } else {
        false
    }
}

} // verus!
