//! Token records and the size of their binary encoding.

use vstd::prelude::*;
use vstd::string::*;
use vstd::utf8::*;
use crate::identifier::ascii_lowercase;

verus! {

/// Descriptive data of a token, as plain values.
#[derive(Debug, PartialEq, Eq)]
pub struct TokenMetadata {
    pub spec: String,
    pub name: String,
    pub symbol: String,
    pub icon: Option<String>,
    pub reference: Option<String>,
    pub reference_hash: Option<Vec<u8>>,
    pub decimals: u8,
}

/// The mathematical content of a `TokenMetadata`.
pub struct TokenMetadataView {
    pub spec: Seq<char>,
    pub name: Seq<char>,
    pub symbol: Seq<char>,
    pub icon: Option<Seq<char>>,
    pub reference: Option<Seq<char>>,
    pub reference_hash: Option<Seq<u8>>,
    pub decimals: u8,
}

/// The view of an optional string.
pub open spec fn opt_text_view(o: Option<String>) -> Option<Seq<char>> {
    match o {
        Some(s) => Some(s@),
        None => None,
    }
}

/// The view of an optional byte vector.
pub open spec fn opt_bytes_view(o: Option<Vec<u8>>) -> Option<Seq<u8>> {
    match o {
        Some(v) => Some(v@),
        None => None,
    }
}

impl View for TokenMetadata {
    type V = TokenMetadataView;

    open spec fn view(&self) -> TokenMetadataView {
        TokenMetadataView {
            spec: self.spec@,
            name: self.name@,
            symbol: self.symbol@,
            icon: opt_text_view(self.icon),
            reference: opt_text_view(self.reference),
            reference_hash: opt_bytes_view(self.reference_hash),
            decimals: self.decimals,
        }
    }
}

/// The largest length that a 32-bit length prefix can announce.
pub const MAX_FIELD_BYTES: u64 = 0xffff_ffff;

/// The number of bytes of a text in UTF-8.
pub open spec fn text_bytes(s: Seq<char>) -> nat {
    encode_utf8(s).len()
}

/// Encoded size of a text: a 4-byte length, then its UTF-8 bytes.
pub open spec fn text_encoded_len(s: Seq<char>) -> nat {
    4 + text_bytes(s)
}

/// Encoded size of an optional text: one tag byte, then the text if present.
pub open spec fn opt_text_encoded_len(o: Option<Seq<char>>) -> nat {
    match o {
        Some(s) => 1 + text_encoded_len(s),
        None => 1,
    }
}

/// Encoded size of an optional byte string: one tag byte, then a 4-byte
/// length and the bytes if present.
pub open spec fn opt_bytes_encoded_len(o: Option<Seq<u8>>) -> nat {
    match o {
        Some(b) => 1 + 4 + b.len(),
        None => 1,
    }
}

/// Whether an optional text fits a 32-bit length prefix.
pub open spec fn opt_text_fits(o: Option<Seq<char>>) -> bool {
    match o {
        Some(s) => text_bytes(s) <= MAX_FIELD_BYTES,
        None => true,
    }
}

/// Whether an optional byte string fits a 32-bit length prefix.
pub open spec fn opt_bytes_fits(o: Option<Seq<u8>>) -> bool {
    match o {
        Some(b) => b.len() <= MAX_FIELD_BYTES,
        None => true,
    }
}

impl TokenMetadataView {
    /// Every variable-length field can be announced by a 32-bit length.
    pub open spec fn encodable(self) -> bool {
        &&& text_bytes(self.spec) <= MAX_FIELD_BYTES
        &&& text_bytes(self.name) <= MAX_FIELD_BYTES
        &&& text_bytes(self.symbol) <= MAX_FIELD_BYTES
        &&& opt_text_fits(self.icon)
        &&& opt_text_fits(self.reference)
        &&& opt_bytes_fits(self.reference_hash)
    }

    /// The size of the binary encoding: the fields in declaration order, the
    /// decimals as one byte.
    pub open spec fn encoded_len(self) -> nat {
        text_encoded_len(self.spec) + text_encoded_len(self.name) + text_encoded_len(self.symbol)
            + opt_text_encoded_len(self.icon) + opt_text_encoded_len(self.reference)
            + opt_bytes_encoded_len(self.reference_hash) + 1
    }
}

/// Whether `text` fits a 32-bit length prefix.
fn text_fits(text: &String) -> (ok: bool)
    ensures
        ok == (text_bytes(text@) <= MAX_FIELD_BYTES),
{
    let bytes = text.as_str().as_bytes();
    bytes.len() as u64 <= MAX_FIELD_BYTES
}

/// The encoded size of a text that fits a 32-bit length prefix.
fn text_size(text: &String) -> (n: u64)
    requires
        text_bytes(text@) <= MAX_FIELD_BYTES,
    ensures
        n == text_encoded_len(text@),
{
    let bytes = text.as_str().as_bytes();
    4 + bytes.len() as u64
}

impl TokenMetadata {
    /// Whether every variable-length field fits a 32-bit length prefix.
    pub fn is_encodable(&self) -> (ok: bool)
        ensures
            ok == self@.encodable(),
    {
        let icon_ok = match &self.icon {
            Some(s) => text_fits(s),
            None => true,
        };
        let reference_ok = match &self.reference {
            Some(s) => text_fits(s),
            None => true,
        };
        let hash_ok = match &self.reference_hash {
            Some(h) => h.len() as u64 <= MAX_FIELD_BYTES,
            None => true,
        };
        text_fits(&self.spec) && text_fits(&self.name) && text_fits(&self.symbol) && icon_ok
            && reference_ok && hash_ok
    }

    /// The size in bytes of the binary encoding of this metadata.
    fn serialized_size(&self) -> (n: u64)
        requires
            self@.encodable(),
        ensures
            n == self@.encoded_len(),
    {
        let icon: u64 = match &self.icon {
            Some(s) => 1 + text_size(s),
            None => 1,
        };
        let reference: u64 = match &self.reference {
            Some(s) => 1 + text_size(s),
            None => 1,
        };
        let hash: u64 = match &self.reference_hash {
            Some(h) => 1 + 4 + h.len() as u64,
            None => 1,
        };
        text_size(&self.spec) + text_size(&self.name) + text_size(&self.symbol) + icon + reference
            + hash + 1
    }
}

impl Clone for TokenMetadata {
    fn clone(&self) -> (copy: Self)
        ensures
            copy@ == self@,
    {
        TokenMetadata {
            spec: self.spec.clone(),
            name: self.name.clone(),
            symbol: self.symbol.clone(),
            icon: match &self.icon {
                Some(s) => Some(s.clone()),
                None => None,
            },
            reference: match &self.reference {
                Some(s) => Some(s.clone()),
                None => None,
            },
            reference_hash: match &self.reference_hash {
                Some(h) => Some(h.clone()),
                None => None,
            },
            decimals: self.decimals,
        }
    }
}

/// What a creation request submits and the registry keeps: the owner, the
/// total supply and the metadata of one token. A value of this type always
/// has a binary encoding: no field is too long for its length prefix.
#[derive(Debug, PartialEq, Eq)]
pub struct TokenArgs {
    owner_id: String,
    total_supply: u128,
    metadata: TokenMetadata,
}

/// The mathematical content of a `TokenArgs`.
pub struct TokenArgsView {
    pub owner_id: Seq<char>,
    pub total_supply: u128,
    pub metadata: TokenMetadataView,
}

impl TokenArgsView {
    /// Every variable-length field can be announced by a 32-bit length.
    pub open spec fn encodable(self) -> bool {
        text_bytes(self.owner_id) <= MAX_FIELD_BYTES && self.metadata.encodable()
    }

    /// The size of the binary encoding: the owner as a text, the supply as
    /// 16 bytes, then the metadata.
    pub open spec fn encoded_len(self) -> nat {
        text_encoded_len(self.owner_id) + 16 + self.metadata.encoded_len()
    }

    /// The identifier under which the record is registered: its symbol in
    /// ASCII lower case.
    pub open spec fn token_id(self) -> Seq<char> {
        ascii_lowercase(self.metadata.symbol)
    }
}

impl View for TokenArgs {
    type V = TokenArgsView;

    closed spec fn view(&self) -> TokenArgsView {
        TokenArgsView {
            owner_id: self.owner_id@,
            total_supply: self.total_supply,
            metadata: self.metadata@,
        }
    }
}

impl TokenArgs {
    #[verifier::type_invariant]
    pub open spec fn has_encoding(self) -> bool {
        self@.encodable()
    }

    /// Makes a record from its parts, or `None` when a field is too long to
    /// be encoded.
    pub fn new(owner_id: String, total_supply: u128, metadata: TokenMetadata) -> (made: Option<
        TokenArgs,
    >)
        ensures
            made is Some <==> (TokenArgsView {
                owner_id: owner_id@,
                total_supply,
                metadata: metadata@,
            }).encodable(),
            made matches Some(args) ==> args@ == (TokenArgsView {
                owner_id: owner_id@,
                total_supply,
                metadata: metadata@,
            }),
    {
        if text_fits(&owner_id) && metadata.is_encodable() {
            Some(TokenArgs { owner_id, total_supply, metadata })
        } else {
            None
        }
    }

    /// The account that will own the token.
    pub fn owner_id(&self) -> (owner_id: &String)
        ensures
            owner_id@ == self@.owner_id,
    {
        &self.owner_id
    }

    /// The number of units that the token starts with.
    pub fn total_supply(&self) -> (total_supply: u128)
        ensures
            total_supply == self@.total_supply,
    {
        self.total_supply
    }

    /// The token's metadata.
    pub fn metadata(&self) -> (metadata: &TokenMetadata)
        ensures
            metadata@ == self@.metadata,
    {
        &self.metadata
    }

    /// The size in bytes of the binary encoding of this record.
    pub fn serialized_size(&self) -> (n: u64)
        ensures
            n == self@.encoded_len(),
            self@.encodable(),
    {
        proof {
            use_type_invariant(self);
        }
        text_size(&self.owner_id) + 16 + self.metadata.serialized_size()
    }
}

impl Clone for TokenArgs {
    fn clone(&self) -> (copy: Self)
        ensures
            copy@ == self@,
    {
        proof {
            use_type_invariant(self);
        }
        TokenArgs {
            owner_id: self.owner_id.clone(),
            total_supply: self.total_supply,
            metadata: self.metadata.clone(),
        }
    }
}

} // verus!
