//! The key generator: API keys of 32 random letters and digits.
//!
//! A candidate that has been drawn becomes a key once the store has said that
//! no user holds it. `issue` asks through a function that it is given and
//! draws again while the answer is "taken"; `issue_another` asks a list of
//! the keys that were issued before; the registration and login workflows ask
//! through their driver.

use rand::distributions::Alphanumeric;
use rand::rngs::ThreadRng;
use rand::Rng;
use crate::hasher::is_hashable;
use vstd::prelude::*;

verus! {

/// The number of characters of an API key.
pub const KEY_LENGTH: usize = 32;

/// The thread-local random number generator of `rand`, carried through unread.
#[verifier::external_type_specification]
#[verifier::external_body]
pub struct ExThreadRng(ThreadRng);

/// `rand::thread_rng` hands out the generator of the current thread. Nothing
/// is claimed of it.
pub assume_specification[ rand::thread_rng ]() -> (rng: ThreadRng);

/// `String::push` appends one character to the text.
pub assume_specification[ String::push ](text: &mut String, c: char)
    ensures
        final(text)@ == old(text)@.push(c),
;

/// Whether `byte` is an ASCII letter or digit.
pub open spec fn is_alphanumeric_byte(byte: u8) -> bool {
    ||| 0x30 <= byte <= 0x39
    ||| 0x41 <= byte <= 0x5a
    ||| 0x61 <= byte <= 0x7a
}

/// Whether `c` is an ASCII letter or digit.
pub open spec fn is_alphanumeric(c: char) -> bool {
    ||| '0' <= c <= '9'
    ||| 'A' <= c <= 'Z'
    ||| 'a' <= c <= 'z'
}

/// Whether `key` has the shape of an API key: `KEY_LENGTH` characters, each an
/// ASCII letter or digit.
pub open spec fn is_api_key(key: Seq<char>) -> bool {
    &&& key.len() == KEY_LENGTH
    &&& forall|i: int| 0 <= i < key.len() ==> is_alphanumeric(#[trigger] key[i])
}

/// Calls `Rng::sample` of `rand` with the `Alphanumeric` distribution, which
/// draws one byte among the ASCII letters and digits. Which one is left open.
#[verifier::external_body]
fn sample_alphanumeric(rng: &mut ThreadRng) -> (byte: u8)
    ensures
        is_alphanumeric_byte(byte),
{
    rng.sample(Alphanumeric)
}

/// The text that reads `bytes` as characters, one character for each byte.
/// Where the bytes are `KEY_LENGTH` ASCII letters and digits, the text has the
/// shape of an API key.
pub fn key_from_bytes(bytes: &[u8]) -> (key: String)
    ensures
        key@.len() == bytes@.len(),
        forall|i: int| 0 <= i < bytes@.len() ==> #[trigger] key@[i] == bytes@[i] as char,
        bytes@.len() == KEY_LENGTH && (forall|i: int|
            0 <= i < bytes@.len() ==> is_alphanumeric_byte(#[trigger] bytes@[i])) ==> is_api_key(
            key@,
        ),
{
    let mut key = String::new();
    let mut at: usize = 0;
    while at < bytes.len()
        invariant
            at <= bytes@.len(),
            key@.len() == at,
            forall|i: int| 0 <= i < at ==> #[trigger] key@[i] == bytes@[i] as char,
        decreases bytes.len() - at,
    {
        key.push(bytes[at] as char);
        at = at + 1;
    }
    key
}

/// Draws `KEY_LENGTH` ASCII letters and digits from the thread's random
/// number generator.
pub fn draw_key_bytes() -> (bytes: Vec<u8>)
    ensures
        bytes@.len() == KEY_LENGTH,
        forall|i: int| 0 <= i < bytes@.len() ==> is_alphanumeric_byte(#[trigger] bytes@[i]),
{
    let mut rng = rand::thread_rng();
    let mut bytes: Vec<u8> = Vec::new();
    while bytes.len() < KEY_LENGTH
        invariant
            bytes@.len() <= KEY_LENGTH,
            forall|i: int| 0 <= i < bytes@.len() ==> is_alphanumeric_byte(#[trigger] bytes@[i]),
        decreases KEY_LENGTH - bytes.len(),
    {
        bytes.push(sample_alphanumeric(&mut rng));
    }
    bytes
}

/// Draws a candidate API key: the text of the letters and digits that
/// `draw_key_bytes` draws.
pub fn generate_api_key() -> (key: String)
    ensures
        is_api_key(key@),
{
    let bytes = draw_key_bytes();
    key_from_bytes(bytes.as_slice())
}

/// A text with the shape of an API key is short enough to be hashed.
pub proof fn api_keys_are_hashable(key: Seq<char>)
    requires
        is_api_key(key),
    ensures
        is_hashable(key),
{
    assert(vstd::utf8::is_ascii_chars(key));
    vstd::utf8::is_ascii_chars_encode_utf8(key);
}

/// Whether `lookup`, asked about a text that reads `candidate`, can answer
/// `taken`.
pub open spec fn answers<F: Fn(&str) -> bool>(lookup: F, candidate: Seq<char>, taken: bool) -> bool {
    exists|text: &str| text@ == candidate && #[trigger] call_ensures(lookup, (text,), taken)
}

/// Issues an API key: draws candidates until `is_taken` calls one free, and
/// hands that one out. No more than `attempts` candidates are drawn; `None`
/// says that `is_taken` called every one of them taken.
pub fn issue<F: Fn(&str) -> bool>(is_taken: F, attempts: usize) -> (issued: Option<String>)
    requires
        forall|text: &str| is_api_key(text@) ==> call_requires(is_taken, (text,)),
    ensures
        match issued {
            Some(key) => is_api_key(key@) && answers(is_taken, key@, false),
            None => exists|refused: Seq<Seq<char>>|
                {
                    &&& refused.len() == attempts
                    &&& forall|i: int|
                        0 <= i < refused.len() ==> is_api_key(#[trigger] refused[i]) && answers(
                            is_taken,
                            refused[i],
                            true,
                        )
                },
        },
{
    let mut drawn: usize = 0;
    let ghost mut refused: Seq<Seq<char>> = Seq::empty();
    while drawn < attempts
        invariant
            drawn <= attempts,
            refused.len() == drawn,
            forall|text: &str| is_api_key(text@) ==> call_requires(is_taken, (text,)),
            forall|i: int|
                0 <= i < refused.len() ==> is_api_key(#[trigger] refused[i]) && answers(
                    is_taken,
                    refused[i],
                    true,
                ),
        decreases attempts - drawn,
    {
        let candidate = generate_api_key();
        let taken = is_taken(candidate.as_str());
        if !taken {
            return Some(candidate);
        }
        proof {
            refused = refused.push(candidate@);
        }
        drawn = drawn + 1;
    }
    None
}

/// Whether `key` is one of the keys in `issued`.
pub open spec fn is_issued(issued: Seq<String>, key: Seq<char>) -> bool {
    exists|i: int| 0 <= i < issued.len() && (#[trigger] issued[i])@ == key
}

/// Whether no key stands twice in `issued`.
pub open spec fn are_distinct(issued: Seq<String>) -> bool {
    forall|i: int, j: int|
        0 <= i < j < issued.len() ==> (#[trigger] issued[i])@ != (#[trigger] issued[j])@
}

/// Keys that were issued in turn, each unlike all that were issued before it,
/// are distinct, however many they are.
pub proof fn keys_issued_in_turn_are_distinct(issued: Seq<String>)
    requires
        forall|n: int| 0 <= n < issued.len() ==> !is_issued(issued.take(n), #[trigger] issued[n]@),
    ensures
        are_distinct(issued),
{
    assert forall|i: int, j: int| 0 <= i < j < issued.len() implies (#[trigger] issued[i])@
        != (#[trigger] issued[j])@ by {
        assert(issued.take(j)[i] == issued[i]);
    }
}

/// Whether `key` is one of the keys in `issued`.
pub fn was_issued(issued: &Vec<String>, key: &String) -> (found: bool)
    ensures
        found == is_issued(issued@, key@),
{
    let mut at: usize = 0;
    while at < issued.len()
        invariant
            at <= issued.len(),
            forall|i: int| 0 <= i < at ==> (#[trigger] issued@[i])@ != key@,
        decreases issued.len() - at,
    {
        if issued[at] == *key {
            return true;
        }
        at = at + 1;
    }
    false
}

/// Issues a key that is none of `issued`, and records it at the end of
/// `issued`. No more than `attempts` candidates are drawn; `None` says that
/// every one of them had been issued before, and then `issued` is as it was.
/// Keys that were distinct stay distinct.
pub fn issue_another(issued: &mut Vec<String>, attempts: usize) -> (key: Option<String>)
    ensures
        match key {
            Some(key) => {
                &&& is_api_key(key@)
                &&& !is_issued(old(issued)@, key@)
                &&& final(issued)@ == old(issued)@.push(key)
            },
            None => {
                &&& final(issued)@ == old(issued)@
                &&& exists|refused: Seq<Seq<char>>|
                    {
                        &&& refused.len() == attempts
                        &&& forall|i: int|
                            0 <= i < refused.len() ==> is_api_key(#[trigger] refused[i])
                                && is_issued(old(issued)@, refused[i])
                    }
            },
        },
        are_distinct(old(issued)@) ==> are_distinct(final(issued)@),
{
    let mut drawn: usize = 0;
    let ghost mut refused: Seq<Seq<char>> = Seq::empty();
    while drawn < attempts
        invariant
            drawn <= attempts,
            issued@ == old(issued)@,
            refused.len() == drawn,
            forall|i: int|
                0 <= i < refused.len() ==> is_api_key(#[trigger] refused[i]) && is_issued(
                    old(issued)@,
                    refused[i],
                ),
        decreases attempts - drawn,
    {
        let candidate = generate_api_key();
        if !was_issued(issued, &candidate) {
            issued.push(candidate.clone());
            return Some(candidate);
        }
        proof {
            refused = refused.push(candidate@);
        }
        drawn = drawn + 1;
    }
    None
}

/// Whether `text` has the shape of an API key.
pub fn has_key_shape(text: &str) -> (shaped: bool)
    ensures
        shaped == is_api_key(text@),
{
    let length = text.unicode_len();
    if length != KEY_LENGTH {
        return false;
    }
    let mut at: usize = 0;
    while at < length
        invariant
            length == text@.len(),
            at <= length,
            forall|i: int| 0 <= i < at ==> is_alphanumeric(#[trigger] text@[i]),
        decreases length - at,
    {
        let c = text.get_char(at);
        if !(('0' <= c && c <= '9') || ('A' <= c && c <= 'Z') || ('a' <= c && c <= 'z')) {
            return false;
        }
        at = at + 1;
    }
    true
}

} // verus!
