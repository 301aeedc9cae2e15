//! Solana account addresses: 32-byte keys, written in base 58.
use vstd::prelude::*;

verus! {

/// The key that `solana_program`'s `Pubkey::from_str` reads from `text`, or
/// `None` where it refuses the text.
pub uninterp spec fn base58_pubkey(text: Seq<char>) -> Option<Seq<u8>>;

/// The text that `solana_program` writes for the key (`Pubkey`'s `Display`).
pub uninterp spec fn base58_text(key: Seq<u8>) -> Seq<char>;

/// Reads a base-58 address with `<Pubkey as FromStr>::from_str`.
///
/// Claimed of it: the result is a function of the text, and a text of more
/// than 44 characters (the longest encoding of 32 bytes) is refused, as the
/// source of `from_str` checks first.
#[verifier::external_body]
pub(crate) fn parse_pubkey(text: &str) -> (key: Option<[u8; 32]>)
    ensures
        match key {
            Some(k) => base58_pubkey(text@) == Some(k@),
            None => base58_pubkey(text@) is None,
        },
        text@.len() > 44 ==> key is None,
{
    match text.parse::<solana_program::pubkey::Pubkey>() {
        Ok(k) => Some(k.to_bytes()),
        Err(_) => None,
    }
}

/// Writes a key in base 58, as `Pubkey`'s `to_string` does.
///
/// Claimed of it: the text is a function of the key, and reading it back with
/// `from_str` gives the same key (the round trip that the source's own test
/// `pubkey_fromstr` checks).
#[verifier::external_body]
pub(crate) fn pubkey_text(key: &[u8; 32]) -> (text: String)
    ensures
        text@ == base58_text(key@),
        base58_pubkey(text@) == Some(key@),
{
    solana_program::pubkey::Pubkey::new_from_array(*key).to_string()
}

} // verus!
