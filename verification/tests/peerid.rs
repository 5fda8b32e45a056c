use file_transfer::peerid::{
    hash_is_peer_id, PeerID, ALPHABET_SIZE, LONG_ID_LENGTH, SHORT_ID_LENGTH,
};

const ALPHABET: &str = "ABCDEFGHIJKLMNOPQRSTUVWXYZ0123456789";

#[test]
fn constants_are_the_protocol_constants() {
    assert_eq!(SHORT_ID_LENGTH, 4);
    assert_eq!(LONG_ID_LENGTH, 10);
    assert_eq!(ALPHABET_SIZE, 36);
    assert_eq!(ALPHABET.len(), ALPHABET_SIZE);
}

#[test]
fn new_accepts_a_short_base() {
    let id = PeerID::new("ABCD".to_string()).unwrap();
    assert_eq!(id.base(), "ABCD");
    assert_eq!(id.full(), "camas-file-transfer-ABCD");
}

#[test]
fn new_accepts_a_long_base() {
    let id = PeerID::new("A1B2C3D4E5".to_string()).unwrap();
    assert_eq!(id.base(), "A1B2C3D4E5");
    assert_eq!(id.full(), "camas-file-transfer-A1B2C3D4E5");
}

#[test]
fn new_accepts_every_symbol_of_the_alphabet() {
    let id = PeerID::new(ALPHABET.to_string()).unwrap();
    assert_eq!(id.base(), ALPHABET);
    assert_eq!(id.full(), format!("camas-file-transfer-{ALPHABET}"));
    for symbol in ALPHABET.chars() {
        assert!(PeerID::valid_base(&symbol.to_string()));
    }
}

#[test]
fn new_accepts_any_length() {
    assert!(PeerID::new("A".to_string()).is_some());
    assert!(PeerID::new("ABCDE".to_string()).is_some());
    assert_eq!(PeerID::new(String::new()).unwrap().full(), "camas-file-transfer-");
}

#[test]
fn new_rejects_a_symbol_outside_the_alphabet() {
    assert!(PeerID::new("abcd".to_string()).is_none());
    assert!(PeerID::new("AB-D".to_string()).is_none());
    assert!(PeerID::new("ABC ".to_string()).is_none());
    assert!(PeerID::new("ABCDEFGHI#".to_string()).is_none());
    assert!(PeerID::new("ÄBCD".to_string()).is_none());
    assert!(PeerID::new("AB\u{ff21}D".to_string()).is_none());
}

#[test]
fn new_rejects_the_neighbours_of_the_alphabet() {
    for symbol in ['@', '[', '/', ':', '`', '{', 'a', 'z'] {
        assert!(!PeerID::valid_base(&symbol.to_string()), "{symbol}");
    }
}

#[test]
fn new_short_id_accepts_four_symbols() {
    let id = PeerID::new_short_id("Z9A0".to_string()).unwrap();
    assert_eq!(id.base(), "Z9A0");
    assert_eq!(id.full(), "camas-file-transfer-Z9A0");
}

#[test]
fn new_short_id_rejects_other_lengths() {
    assert!(PeerID::new_short_id(String::new()).is_none());
    assert!(PeerID::new_short_id("ABC".to_string()).is_none());
    assert!(PeerID::new_short_id("ABCDE".to_string()).is_none());
    assert!(PeerID::new_short_id("A1B2C3D4E5".to_string()).is_none());
}

#[test]
fn new_short_id_rejects_a_symbol_outside_the_alphabet() {
    assert!(PeerID::new_short_id("abcd".to_string()).is_none());
    assert!(PeerID::new_short_id("AB D".to_string()).is_none());
    // Four bytes, but two characters, neither in the alphabet.
    assert!(PeerID::new_short_id("éé".to_string()).is_none());
}

#[test]
fn valid_base_looks_at_every_symbol() {
    assert!(PeerID::valid_base("ABCD"));
    assert!(PeerID::valid_base("0123456789"));
    assert!(PeerID::valid_base(""));
    assert!(!PeerID::valid_base("ABCd"));
    assert!(!PeerID::valid_base("aBCD"));
    assert!(!PeerID::valid_base("AB_D"));
}

#[test]
fn random_short_ids_are_room_codes() {
    for _ in 0..200 {
        let id = PeerID::new_random_short_id();
        assert_eq!(id.base().chars().count(), 4);
        assert!(id.base().chars().all(|symbol| ALPHABET.contains(symbol)));
        assert_eq!(id.full(), format!("camas-file-transfer-{}", id.base()));
    }
}

#[test]
fn random_long_ids_have_ten_symbols() {
    for _ in 0..200 {
        let id = PeerID::new_random_long_id();
        assert_eq!(id.base().chars().count(), 10);
        assert!(id.base().chars().all(|symbol| ALPHABET.contains(symbol)));
        assert_eq!(id.full(), format!("camas-file-transfer-{}", id.base()));
    }
}

#[test]
fn random_ids_are_accepted_again() {
    for _ in 0..100 {
        let short = PeerID::new_random_short_id();
        let again = PeerID::new_short_id(short.base().to_string()).unwrap();
        assert_eq!(again, short);
        let long = PeerID::new_random_long_id();
        let again = PeerID::new(long.base().to_string()).unwrap();
        assert_eq!(again, long);
        assert!(PeerID::new_short_id(long.base().to_string()).is_none());
    }
}

#[test]
fn random_ids_differ() {
    // Ten symbols out of 36: the same identifier twice in a row would mean
    // that nothing is drawn at all.
    let first = PeerID::new_random_long_id();
    let mut differs = false;
    for _ in 0..20 {
        if PeerID::new_random_long_id() != first {
            differs = true;
        }
    }
    assert!(differs);
}

#[test]
fn random_ids_use_the_whole_alphabet() {
    let mut seen = [false; 36];
    for _ in 0..2000 {
        let id = PeerID::new_random_long_id();
        for symbol in id.base().chars() {
            seen[ALPHABET.find(symbol).unwrap()] = true;
        }
    }
    assert!(seen.iter().all(|symbol| *symbol));
}

#[test]
fn clone_is_equal() {
    let id = PeerID::new("QRST".to_string()).unwrap();
    let copy = id.clone();
    assert_eq!(copy, id);
    assert_eq!(copy.base(), "QRST");
    assert_eq!(copy.full(), "camas-file-transfer-QRST");
}

#[test]
fn a_fragment_with_a_room_code_is_a_peer_id() {
    assert!(hash_is_peer_id("#ABCD"));
    assert!(hash_is_peer_id("ABCD"));
    assert!(hash_is_peer_id("#0Z9A"));
}

#[test]
fn other_fragments_are_no_peer_id() {
    assert!(!hash_is_peer_id(""));
    assert!(!hash_is_peer_id("#"));
    assert!(!hash_is_peer_id("#ABC"));
    assert!(!hash_is_peer_id("#ABCDE"));
    assert!(!hash_is_peer_id("##ABC"));
    assert!(!hash_is_peer_id("#abcd"));
    assert!(!hash_is_peer_id("#/receive/ABCD"));
    assert!(!hash_is_peer_id("ABC#"));
    assert!(!hash_is_peer_id("#éé"));
}
