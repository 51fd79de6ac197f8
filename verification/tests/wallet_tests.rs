use gmx_wallet::discovery::find_signer_index;
use gmx_wallet::discovery::resolve_signer_path;
use gmx_wallet::ops::health_report;
use gmx_wallet::ops::parse_cluster;
use gmx_wallet::ops::ClusterKind;
use gmx_wallet::wallet::wallet_from_mnemonic_words;
use gmx_wallet::wallet::WalletError;

const MNEMONIC_12: &str = "abandon abandon abandon abandon abandon abandon abandon abandon abandon abandon abandon about";
const MNEMONIC_24: &str = "abandon abandon abandon abandon abandon abandon abandon abandon abandon abandon abandon abandon abandon abandon abandon abandon abandon abandon abandon abandon abandon abandon abandon art";

#[test]
fn determinism_same_mnemonic_same_keypair() {
    let a = wallet_from_mnemonic_words(MNEMONIC_12).unwrap();
    let b = wallet_from_mnemonic_words(MNEMONIC_12).unwrap();
    assert_eq!(a.keypair_bytes, b.keypair_bytes);
    assert_eq!(a.pubkey_bs58, b.pubkey_bs58);
}

#[test]
fn eleven_words_rejected() {
    let phrase = ["abandon"; 11].join(" ");
    let r = wallet_from_mnemonic_words(&phrase);
    assert!(matches!(r, Err(WalletError::InvalidWordCount { count: 11 })));
}

#[test]
fn thirteen_words_rejected() {
    let phrase = ["abandon"; 13].join(" ");
    let r = wallet_from_mnemonic_words(&phrase);
    assert!(matches!(r, Err(WalletError::InvalidWordCount { count: 13 })));
}

#[test]
fn twenty_five_words_rejected() {
    let phrase = ["abandon"; 25].join(" ");
    let r = wallet_from_mnemonic_words(&phrase);
    assert!(matches!(r, Err(WalletError::InvalidWordCount { count: 25 })));
}

#[test]
fn empty_text_rejected_with_zero_count() {
    let r = wallet_from_mnemonic_words("  \n\t ");
    assert!(matches!(r, Err(WalletError::InvalidWordCount { count: 0 })));
}

#[test]
fn twelve_word_valid_phrase_succeeds() {
    let w = wallet_from_mnemonic_words(MNEMONIC_12).unwrap();
    assert_eq!(w.keypair_bytes.len(), 64);
    assert!(!w.pubkey_bs58.is_empty());
}

#[test]
fn twenty_four_word_valid_phrase_succeeds() {
    let w = wallet_from_mnemonic_words(MNEMONIC_24).unwrap();
    assert_eq!(w.keypair_bytes.len(), 64);
    assert!(!w.pubkey_bs58.is_empty());
}

#[test]
fn unknown_word_rejected_as_invalid_mnemonic() {
    let phrase = MNEMONIC_12.replace("about", "zzzzzz");
    let r = wallet_from_mnemonic_words(&phrase);
    assert!(matches!(r, Err(WalletError::InvalidMnemonic { .. })));
}

#[test]
fn bad_checksum_rejected_as_invalid_mnemonic() {
    let phrase = ["abandon"; 12].join(" ");
    let r = wallet_from_mnemonic_words(&phrase);
    assert!(matches!(r, Err(WalletError::InvalidMnemonic { .. })));
}

#[test]
fn whitespace_layout_does_not_change_the_wallet() {
    let ragged = "  abandon abandon abandon\nabandon abandon abandon\r\nabandon  abandon\tabandon abandon abandon about \n";
    let a = wallet_from_mnemonic_words(ragged).unwrap();
    let b = wallet_from_mnemonic_words(MNEMONIC_12).unwrap();
    assert_eq!(a.keypair_bytes, b.keypair_bytes);
    assert_eq!(a.pubkey_bs58, b.pubkey_bs58);
}

#[test]
fn canonical_vector_derives_golden_pubkey() {
    let w = wallet_from_mnemonic_words(MNEMONIC_12).unwrap();
    assert_eq!(w.pubkey_bs58, "HAgk14JpMQLgt6rVgv7cBQFJWFto5Dqxi472uT3DKpqk");
}

#[test]
fn pubkey_text_encodes_public_half_of_keypair() {
    let w = wallet_from_mnemonic_words(MNEMONIC_12).unwrap();
    let decoded = bs58::decode(&w.pubkey_bs58).into_vec().unwrap();
    assert_eq!(decoded.as_slice(), &w.keypair_bytes[32..]);
}

#[test]
fn signer_found_at_starting_directory() {
    let found = vec![true, false, false];
    assert_eq!(find_signer_index(&found), Some(0));
}

#[test]
fn signer_found_five_levels_up_is_within_budget() {
    let found = vec![false, false, false, false, false, true, false];
    assert_eq!(find_signer_index(&found), Some(5));
}

#[test]
fn signer_six_levels_up_is_past_the_budget() {
    let found = vec![false, false, false, false, false, false, true];
    assert_eq!(find_signer_index(&found), None);
}

#[test]
fn closest_signer_wins() {
    let found = vec![false, true, true];
    assert_eq!(find_signer_index(&found), Some(1));
}

#[test]
fn no_directory_carries_a_signer() {
    let found: Vec<bool> = Vec::new();
    assert_eq!(find_signer_index(&found), None);
}

#[test]
fn explicit_path_beats_discovered_path() {
    let r = resolve_signer_path(
        Some(String::from("explicit.txt")),
        Some(String::from("discovered.txt")),
    );
    assert_eq!(r.unwrap(), "explicit.txt");
}

#[test]
fn discovered_path_used_without_explicit_path() {
    let r = resolve_signer_path(None, Some(String::from("discovered.txt")));
    assert_eq!(r.unwrap(), "discovered.txt");
}

#[test]
fn no_signer_source_is_not_found() {
    let r = resolve_signer_path(None, None);
    assert!(matches!(r, Err(WalletError::SignerNotFound)));
}

#[test]
fn cluster_labels_are_classified_exactly() {
    assert_eq!(parse_cluster("mainnet"), Some(ClusterKind::Mainnet));
    assert_eq!(parse_cluster("devnet"), Some(ClusterKind::Devnet));
    assert_eq!(parse_cluster("testnet"), None);
    assert_eq!(parse_cluster(""), None);
}

#[test]
fn health_report_carries_its_inputs() {
    let h = health_report(
        String::from("mainnet"),
        String::from("somekey"),
        String::from("somestore"),
    );
    assert!(h.ok);
    assert_eq!(h.cluster, "mainnet");
    assert_eq!(h.wallet_pubkey, "somekey");
    assert_eq!(h.store_address, "somestore");
}
