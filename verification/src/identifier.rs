//! Well-formedness of token symbols and account names.

use vstd::prelude::*;
use vstd::string::*;
use vstd::utf8::*;

verus! {

/// An ASCII lower-case letter or an ASCII digit.
pub open spec fn is_lower_alnum(c: char) -> bool {
    ('a' <= c && c <= 'z') || ('0' <= c && c <= '9')
}

/// One of the three characters that may join the parts of an account name.
pub open spec fn is_separator(c: char) -> bool {
    c == '-' || c == '_' || c == '.'
}

/// A token identifier is well formed when every character is an ASCII
/// lower-case letter or digit. No length is asked for here: the empty
/// sequence passes.
pub open spec fn valid_token_id(s: Seq<char>) -> bool {
    forall|i: int| 0 <= i < s.len() ==> is_lower_alnum(#[trigger] s[i])
}

/// An account name is well formed when it has 2 to 64 characters, each a
/// lower-case letter, a digit or a separator, it neither starts nor ends with
/// a separator, and no separator follows another.
pub open spec fn valid_account_id(s: Seq<char>) -> bool {
    &&& 2 <= s.len() <= 64
    &&& forall|i: int| 0 <= i < s.len() ==> is_lower_alnum(#[trigger] s[i]) || is_separator(s[i])
    &&& !is_separator(s[0])
    &&& !is_separator(s[s.len() - 1])
    &&& forall|i: int| 0 < i < s.len() ==> !(is_separator(s[i - 1]) && is_separator(#[trigger] s[i]))
}

/// The byte of an ASCII lower-case letter or digit.
pub open spec fn is_lower_alnum_byte(b: u8) -> bool {
    (0x61 <= b && b <= 0x7a) || (0x30 <= b && b <= 0x39)
}

/// The byte of `-`, `_` or `.`.
pub open spec fn is_separator_byte(b: u8) -> bool {
    b == 0x2d || b == 0x5f || b == 0x2e
}

/// `valid_account_id`, stated of the bytes of a name.
pub open spec fn valid_account_id_bytes(b: Seq<u8>) -> bool {
    &&& 2 <= b.len() <= 64
    &&& forall|i: int|
        0 <= i < b.len() ==> is_lower_alnum_byte(#[trigger] b[i]) || is_separator_byte(b[i])
    &&& !is_separator_byte(b[0])
    &&& !is_separator_byte(b[b.len() - 1])
    &&& forall|i: int|
        0 < i < b.len() ==> !(is_separator_byte(b[i - 1]) && is_separator_byte(#[trigger] b[i]))
}

/// Calls `near_sdk::env::is_valid_account_id`. That function refuses a slice
/// shorter than 2 or longer than 64 bytes, then walks the bytes once: it
/// refuses any byte that is not a lower-case letter, a digit, `-`, `_` or `.`,
/// and any separator that comes first or directly after another separator; at
/// the end it refuses a name whose last byte is a separator. The contract
/// states exactly that.
#[verifier::external_body]
fn env_is_valid_account_id(bytes: &[u8]) -> (ok: bool)
    ensures
        ok == valid_account_id_bytes(bytes@),
{
    near_sdk::env::is_valid_account_id(bytes)
}

/// On ASCII text the two statements of account-name validity agree.
proof fn lemma_account_id_bytes_agree(chars: Seq<char>, bytes: Seq<u8>)
    requires
        is_ascii_chars(chars),
        bytes == encode_utf8(chars),
    ensures
        valid_account_id_bytes(bytes) == valid_account_id(chars),
{
    is_ascii_chars_encode_utf8(chars);
    assert forall|i: int| 0 <= i < chars.len() implies (is_lower_alnum(#[trigger] chars[i])
        == is_lower_alnum_byte(bytes[i])) && (is_separator(chars[i]) == is_separator_byte(
        bytes[i],
    )) by {
        assert(chars[i] as u8 == bytes[i]);
    }
    if valid_account_id(chars) {
        assert forall|i: int| 0 <= i < bytes.len() implies is_lower_alnum_byte(#[trigger] bytes[i])
            || is_separator_byte(bytes[i]) by {
            assert(is_lower_alnum(chars[i]) || is_separator(chars[i]));
        }
        assert forall|i: int| 0 < i < bytes.len() implies !(is_separator_byte(bytes[i - 1])
            && is_separator_byte(#[trigger] bytes[i])) by {
            assert(!(is_separator(chars[i - 1]) && is_separator(chars[i])));
        }
    }
    if valid_account_id_bytes(bytes) {
        assert forall|i: int| 0 <= i < chars.len() implies is_lower_alnum(#[trigger] chars[i])
            || is_separator(chars[i]) by {
            assert(is_lower_alnum_byte(bytes[i]) || is_separator_byte(bytes[i]));
        }
        assert forall|i: int| 0 < i < chars.len() implies !(is_separator(chars[i - 1])
            && is_separator(#[trigger] chars[i])) by {
            assert(!(is_separator_byte(bytes[i - 1]) && is_separator_byte(bytes[i])));
        }
    }
}

/// Decides whether `token_id` is a well-formed token identifier.
pub fn is_valid_token_id(token_id: &String) -> (ok: bool)
    ensures
        ok == valid_token_id(token_id@),
{
    let text = token_id.as_str();
    if !text.is_ascii() {
        return false;
    }
    let bytes = text.as_bytes();
    proof {
        is_ascii_chars_encode_utf8(text@);
    }
    let mut i: usize = 0;
    while i < bytes.len()
        invariant
            i <= bytes.len(),
            bytes@.len() == text@.len(),
            text@ == token_id@,
            forall|j: int| 0 <= j < text@.len() ==> text@[j] as u8 == #[trigger] bytes@[j],
            forall|j: int| 0 <= j < text@.len() ==> '\0' <= #[trigger] text@[j] <= '\u{7f}',
            forall|j: int| 0 <= j < i ==> is_lower_alnum(#[trigger] text@[j]),
        decreases bytes.len() - i,
    {
        let b: u8 = bytes[i];
        if !((b >= 0x61 && b <= 0x7a) || (b >= 0x30 && b <= 0x39)) {
            assert(!is_lower_alnum(text@[i as int])) by {
                assert(text@[i as int] as u8 == bytes@[i as int]);
            }
            return false;
        }
        assert(is_lower_alnum(text@[i as int])) by {
            assert(text@[i as int] as u8 == bytes@[i as int]);
        }
        i = i + 1;
    }
    true
}

/// Decides whether `account_id` is a well-formed account name.
pub fn is_valid_account_id(account_id: &str) -> (ok: bool)
    ensures
        ok == valid_account_id(account_id@),
{
    if !account_id.is_ascii() {
        assert(!valid_account_id(account_id@)) by {
            if valid_account_id(account_id@) {
                assert forall|i: int| 0 <= i < account_id@.len() implies '\0'
                    <= #[trigger] account_id@[i] <= '\u{7f}' by {
                    assert(is_lower_alnum(account_id@[i]) || is_separator(account_id@[i]));
                }
            }
        }
        return false;
    }
    let ok = env_is_valid_account_id(account_id.as_bytes());
    proof {
        lemma_account_id_bytes_agree(account_id@, account_id.spec_bytes());
    }
    ok
}

/// An account name of the greatest length: the letter `a`, 64 times. A
/// ledger entry stored under it takes as much storage as an entry can.
pub fn longest_account_id() -> (account_id: String)
    ensures
        account_id@ == Seq::new(64, |k: int| 'a'),
        valid_account_id(account_id@),
{
    let mut account_id = String::new();
    let mut i: usize = 0;
    while i < 64
        invariant
            i <= 64,
            account_id@ == Seq::new(i as nat, |k: int| 'a'),
        decreases 64 - i,
    {
        proof {
            reveal_strlit("a");
        }
        let ghost before = account_id@;
        account_id.append("a");
        assert(account_id@ =~= Seq::new((i + 1) as nat, |k: int| 'a')) by {
            assert("a"@ =~= seq!['a']);
            assert(account_id@ == before + "a"@);
        }
        i = i + 1;
    }
    account_id
}

/// The ASCII lower-case form of a character: `A`-`Z` become `a`-`z`, every
/// other character stays.
pub open spec fn ascii_lower(c: char) -> char {
    if 'A' <= c && c <= 'Z' {
        ((c as u8 + 32) as u8) as char
    } else {
        c
    }
}

/// A text with each character in its ASCII lower-case form.
pub open spec fn ascii_lowercase(s: Seq<char>) -> Seq<char> {
    Seq::new(s.len(), |i: int| ascii_lower(s[i]))
}

/// Calls `str::to_ascii_lowercase`, which the standard library documents as
/// returning a copy of the string in which the ASCII letters `A` to `Z` are
/// mapped to `a` to `z` and every other character is unchanged.
#[verifier::external_body]
fn str_to_ascii_lowercase(text: &str) -> (lower: String)
    ensures
        lower@ == ascii_lowercase(text@),
{
    text.to_ascii_lowercase()
}

/// The token identifier that belongs to a symbol: the symbol in ASCII lower
/// case.
pub fn token_id_of_symbol(symbol: &str) -> (token_id: String)
    ensures
        token_id@ == ascii_lowercase(symbol@),
{
    str_to_ascii_lowercase(symbol)
}

/// The name of the sub-account of `factory_id` that carries the token
/// `token_id`.
pub open spec fn sub_account_id(token_id: Seq<char>, factory_id: Seq<char>) -> Seq<char> {
    token_id + seq!['.'] + factory_id
}

/// Builds the name of the token's sub-account: the token identifier, a dot,
/// and the factory's own account name.
pub fn token_account_id(token_id: &str, factory_id: &str) -> (account_id: String)
    ensures
        account_id@ == sub_account_id(token_id@, factory_id@),
{
    proof {
        reveal_strlit(".");
    }
    let account_id = String::from_str(token_id).concat(".").concat(factory_id);
    assert(account_id@ =~= sub_account_id(token_id@, factory_id@));
    account_id
}

} // verus!
