use card_program::address::{check_id, cmp_pubkeys, id, native_mint, token_program, Address};

#[test]
fn program_id_matches_its_base58_text() {
    let decoded = bs58::decode("cardWhHWcRsRMGw2xoudhYKtby35TD3sCQTGTSHGtrg").into_vec().unwrap();
    assert_eq!(id().to_bytes().to_vec(), decoded);
    assert!(check_id(&id()));
    assert!(!check_id(&native_mint()));
}

#[test]
fn well_known_addresses_match_their_base58_text() {
    let native = bs58::decode("So11111111111111111111111111111111111111112").into_vec().unwrap();
    assert_eq!(native_mint().to_bytes().to_vec(), native);
    let token = bs58::decode("TokenkegQfeZyiNwAJbNbGKPFXCWuBvf9Ss623VQ5DA").into_vec().unwrap();
    assert_eq!(token_program().to_bytes().to_vec(), token);
}

#[test]
fn cmp_pubkeys_tells_addresses_apart() {
    let a = Address::new([7u8; 32]);
    let mut bytes = [7u8; 32];
    bytes[31] = 8;
    let b = Address::new(bytes);
    assert!(cmp_pubkeys(&a, &a));
    assert!(cmp_pubkeys(&a, &Address::new([7u8; 32])));
    assert!(!cmp_pubkeys(&a, &b));
    assert!(!cmp_pubkeys(&b, &a));
}
