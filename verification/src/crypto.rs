use vstd::prelude::*;

use std::str::FromStr;

verus! {

/// Whether BIP-39 accepts a phrase: every word is in the English wordlist,
/// the word count is one the standard allows, and the checksum holds. A
/// pure function of the phrase text.
pub uninterp spec fn mnemonic_is_valid(phrase: Seq<char>) -> bool;

/// The 64-byte seed that the BIP-39 mnemonic-to-seed transform (PBKDF2,
/// empty passphrase) produces from a phrase. A pure function of the text.
pub uninterp spec fn seed_of(phrase: Seq<char>) -> Seq<u8>;

/// The 32-byte private scalar that SLIP-10 derivation over the Ed25519
/// curve yields at the fixed path `m/44'/501'/0'/0'`. A pure function of
/// the seed.
pub uninterp spec fn derived_key_of(seed: Seq<u8>) -> Seq<u8>;

/// The 32-byte Ed25519 public key that corresponds to a 32-byte secret
/// scalar. A pure function of the secret bytes.
pub uninterp spec fn public_key_of(secret: Seq<u8>) -> Seq<u8>;

/// The base-58 rendering (Bitcoin alphabet) of a byte string. A pure
/// function of the bytes.
pub uninterp spec fn base58_of(bytes: Seq<u8>) -> Seq<char>;

/// Relies on bip39::Mnemonic::parse_in with the English wordlist, whose
/// acceptance depends on the phrase text alone, and on
/// bip39::Mnemonic::to_seed with an empty passphrase, a deterministic
/// 64-byte function of the parsed phrase.
#[verifier::external_body]
pub(crate) fn mnemonic_to_seed(phrase: &Vec<char>) -> (r: Result<Vec<u8>, String>)
    ensures
        r is Ok <==> mnemonic_is_valid(phrase@),
        r is Ok ==> r->Ok_0@ == seed_of(phrase@) && r->Ok_0@.len() == 64,
{
    let text: String = phrase.iter().collect();
    match bip39::Mnemonic::parse_in(bip39::Language::English, text.as_str()) {
        Ok(m) => Ok(m.to_seed("").to_vec()),
        Err(e) => Err(e.to_string()),
    }
}

/// Relies on slip10::BIP32Path::from_str, which accepts the fixed
/// all-hardened path constant, and on slip10::derive_key_from_path over
/// Ed25519, which never fails when every path index is hardened and whose
/// result is a deterministic 32-byte function of the seed.
#[verifier::external_body]
pub(crate) fn derive_solana_key(seed: &Vec<u8>) -> (r: Result<Vec<u8>, String>)
    ensures
        r is Ok,
        r is Ok ==> r->Ok_0@ == derived_key_of(seed@) && r->Ok_0@.len() == 32,
{
    let path = match slip10::BIP32Path::from_str("m/44'/501'/0'/0'") {
        Ok(p) => p,
        Err(e) => return Err(e.to_string()),
    };
    match slip10::derive_key_from_path(seed.as_slice(), slip10::Curve::Ed25519, &path) {
        Ok(k) => Ok(k.key.to_vec()),
        Err(e) => Err(e.to_string()),
    }
}

/// Relies on ed25519_dalek::SecretKey::from_bytes, which accepts exactly
/// 32 bytes, and on ed25519_dalek::PublicKey::from, which computes the
/// 32-byte public key deterministically from the secret alone.
#[verifier::external_body]
pub(crate) fn public_key_bytes(secret: &Vec<u8>) -> (r: Vec<u8>)
    requires
        secret@.len() == 32,
    ensures
        r@ == public_key_of(secret@),
        r@.len() == 32,
{
    let sk = ed25519_dalek::SecretKey::from_bytes(secret.as_slice())
        .expect("the caller checked the length");
    let pk = ed25519_dalek::PublicKey::from(&sk);
    pk.to_bytes().to_vec()
}

/// Relies on bs58::encode with its default Bitcoin alphabet: a
/// deterministic text rendering of the input bytes.
#[verifier::external_body]
pub(crate) fn base58_encode(bytes: &Vec<u8>) -> (r: String)
    ensures
        r@ == base58_of(bytes@),
{
    bs58::encode(bytes.as_slice()).into_string()
}

} // verus!
