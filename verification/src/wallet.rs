use vstd::prelude::*;

use crate::crypto::base58_encode;
use crate::crypto::base58_of;
use crate::crypto::derive_solana_key;
use crate::crypto::derived_key_of;
use crate::crypto::mnemonic_is_valid;
use crate::crypto::mnemonic_to_seed;
use crate::crypto::public_key_bytes;
use crate::crypto::public_key_of;
use crate::crypto::seed_of;
use crate::text::normal_of;
use crate::text::normalize_words;
use crate::text::word_count;

verus! {

/// How a wallet resolution can fail. Each failure is terminal for the
/// invocation and carries what a caller needs to diagnose it.
#[derive(Debug)]
pub enum WalletError {
    /// No explicit signer path was given and discovery exhausted its
    /// search budget, or an explicit path could not be read.
    SignerNotFound,
    /// The mnemonic text does not hold exactly 12 or 24 words; carries
    /// the count that was found.
    InvalidWordCount { count: usize },
    /// The words are present in the right number but fail the wordlist or
    /// checksum validation; carries the parser's message.
    InvalidMnemonic { message: String },
    /// Hierarchical key derivation failed after the mnemonic was accepted;
    /// carries the underlying message. The fixed all-hardened path rules
    /// this out, so no input produces it.
    DerivationFailed { message: String },
}

/// A resolved signing wallet: the 64-byte keypair (32-byte private scalar
/// followed by the 32-byte public key) and the public key's base-58 text.
#[derive(Debug)]
pub struct Wallet {
    pub keypair_bytes: Vec<u8>,
    pub pubkey_bs58: String,
}

/// The 64-byte keypair that a normalized phrase determines: the derived
/// private scalar followed by its public key.
pub open spec fn keypair_bytes_of(phrase: Seq<char>) -> Seq<u8> {
    derived_key_of(seed_of(phrase)) + public_key_of(derived_key_of(seed_of(phrase)))
}

/// The base-58 text of the public key that a normalized phrase determines.
pub open spec fn pubkey_display_of(phrase: Seq<char>) -> Seq<char> {
    base58_of(public_key_of(derived_key_of(seed_of(phrase))))
}

impl Wallet {
    /// The keypair holds exactly the 64 bytes of the two key halves.
    pub open spec fn wf(self) -> bool {
        self.keypair_bytes@.len() == 64
    }

    /// Whether this wallet is the one that `phrase` determines.
    pub open spec fn derived_from(self, phrase: Seq<char>) -> bool {
        &&& self.keypair_bytes@ == keypair_bytes_of(phrase)
        &&& self.pubkey_bs58@ == pubkey_display_of(phrase)
    }
}

/// Derives a signing wallet from raw mnemonic text: normalizes the text,
/// requires exactly 12 or 24 words, validates the words against the
/// wordlist and checksum, then derives the keypair at the fixed path.
pub fn wallet_from_mnemonic_words(words: &str) -> (r: Result<Wallet, WalletError>)
    ensures
        ({
            let wc = word_count(words@);
            let phrase = normal_of(words@);
            match r {
                Ok(w) => (wc == 12 || wc == 24) && mnemonic_is_valid(phrase) && w.wf()
                    && w.derived_from(phrase),
                Err(e) => match e {
                    WalletError::InvalidWordCount { count } => count == wc && wc != 12 && wc
                        != 24,
                    WalletError::InvalidMnemonic { .. } => (wc == 12 || wc == 24)
                        && !mnemonic_is_valid(phrase),
                    _ => false,
                },
            }
        }),
{
    let (phrase, wc) = normalize_words(words);
    if wc != 12 && wc != 24 {
        return Err(WalletError::InvalidWordCount { count: wc });
    }
    let seed = match mnemonic_to_seed(&phrase) {
        Ok(s) => s,
        Err(message) => {
            return Err(WalletError::InvalidMnemonic { message });
        },
    };
    let secret = match derive_solana_key(&seed) {
        Ok(k) => k,
        Err(message) => {
            return Err(WalletError::DerivationFailed { message });
        },
    };
    let public = public_key_bytes(&secret);
    let pubkey_bs58 = base58_encode(&public);
    let mut keypair_bytes: Vec<u8> = Vec::new();
    let mut i: usize = 0;
    while i < secret.len()
        invariant
            i <= secret@.len(),
            keypair_bytes@ == secret@.subrange(0, i as int),
        decreases secret@.len() - i,
    {
        keypair_bytes.push(secret[i]);
        i = i + 1;
    }
    proof {
        assert(secret@.subrange(0, secret@.len() as int) =~= secret@);
        assert(keypair_bytes@ =~= secret@ + public@.subrange(0, 0));
    }
    let mut j: usize = 0;
    while j < public.len()
        invariant
            j <= public@.len(),
            keypair_bytes@ == secret@ + public@.subrange(0, j as int),
        decreases public@.len() - j,
    {
        keypair_bytes.push(public[j]);
        j = j + 1;
    }
    proof {
        assert(public@.subrange(0, public@.len() as int) =~= public@);
        assert(keypair_bytes@ =~= secret@ + public@);
    }
    Ok(Wallet { keypair_bytes, pubkey_bs58 })
}

/// Law: derivation is deterministic. Every wallet that a phrase
/// determines carries the same keypair bytes and the same base-58 public
/// key text, so deriving twice from one mnemonic text agrees byte for
/// byte.
pub proof fn lemma_derivation_deterministic(w1: Wallet, w2: Wallet, phrase: Seq<char>)
    requires
        w1.derived_from(phrase),
        w2.derived_from(phrase),
    ensures
        w1.keypair_bytes@ == w2.keypair_bytes@,
        w1.pubkey_bs58@ == w2.pubkey_bs58@,
{
}

} // verus!
