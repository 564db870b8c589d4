use portfolio_reader::abi::{
    balance_call_data, decode_balance, decode_label, name_call_data, symbol_call_data, word_at_most, CallReply,
};
use portfolio_reader::token::mint_step;
use portfolio_reader::{Address, Amount, MockToken, PortfolioReader, ReaderError};
use stylus_sdk::alloy_primitives::U256;
use stylus_sdk::alloy_sol_types::{sol_data, SolType};

fn addr(b: u8) -> Address {
    Address::new([b; 20])
}

fn amount_reply(a: Amount) -> CallReply {
    Ok(<(sol_data::Uint<256>,) as SolType>::abi_encode_params(&(U256::from_limbs(a.limbs),)))
}

fn string_reply(s: &str) -> CallReply {
    Ok(<(sol_data::String,) as SolType>::abi_encode_params(&(s.to_string(),)))
}

fn ledger() -> MockToken {
    let mut t = MockToken::new("Mock Token".to_string(), "MOCK".to_string());
    t.mint(addr(0xaa), Amount::from_u64(500));
    t
}

#[test]
fn end_to_end_mint_then_read() {
    let token = ledger();
    let a = addr(0xaa);
    let token_addr = addr(0x11);
    let stranger = addr(0x22);
    let reader = PortfolioReader::new();

    let r = reader.get_balances(a, vec![token_addr], vec![amount_reply(token.balance_of(a))]);
    assert_eq!(r, vec![Amount::from_u64(500)]);

    let r = reader.get_balances(
        a,
        vec![token_addr, stranger],
        vec![amount_reply(token.balance_of(a)), Ok(Vec::new())],
    );
    assert_eq!(r, vec![Amount::from_u64(500), Amount::zero()]);

    let s = reader.get_symbols(vec![token_addr], vec![string_reply(&token.symbol())]);
    assert_eq!(s, vec!["MOCK".to_string()]);
    let n = reader.get_names(vec![token_addr], vec![string_reply(&token.name())]);
    assert_eq!(n, vec!["Mock Token".to_string()]);
}

#[test]
fn mixed_targets_keep_their_positions() {
    let reader = PortfolioReader::new();
    let tokens = vec![addr(1), addr(2), addr(3), addr(4), addr(5)];
    let replies = vec![
        amount_reply(Amount::from_u64(1)),
        Err(b"reverted".to_vec()),
        amount_reply(Amount::from_u64(2)),
        Ok(vec![0u8; 31]),
        amount_reply(Amount::from_u64(3)),
    ];
    let r = reader.get_balances(addr(9), tokens, replies);
    assert_eq!(
        r,
        vec![Amount::from_u64(1), Amount::zero(), Amount::from_u64(2), Amount::zero(), Amount::from_u64(3)]
    );
}

#[test]
fn mixed_labels_keep_their_positions() {
    let reader = PortfolioReader::new();
    let tokens = vec![addr(1), addr(2), addr(3), addr(4)];
    let replies = vec![string_reply("AAA"), Ok(Vec::new()), Err(Vec::new()), string_reply("DDD")];
    let r = reader.get_symbols(tokens.clone(), replies.clone());
    assert_eq!(r, vec!["AAA".to_string(), String::new(), String::new(), "DDD".to_string()]);
    let n = reader.get_names(tokens, replies);
    assert_eq!(n, r);
}

#[test]
fn length_follows_the_targets() {
    let reader = PortfolioReader::new();
    let tokens = vec![addr(1), addr(2), addr(3)];
    let r = reader.get_balances(addr(9), tokens.clone(), vec![amount_reply(Amount::from_u64(7))]);
    assert_eq!(r, vec![Amount::from_u64(7), Amount::zero(), Amount::zero()]);
    let s = reader.get_symbols(tokens.clone(), vec![]);
    assert_eq!(s, vec![String::new(), String::new(), String::new()]);
    let n = reader.get_names(tokens, vec![string_reply("x"), string_reply("y"), string_reply("z"), string_reply("w")]);
    assert_eq!(n, vec!["x".to_string(), "y".to_string(), "z".to_string()]);
}

#[test]
fn empty_batches_give_empty_answers() {
    let reader = PortfolioReader::new();
    assert!(reader.get_balances(addr(1), vec![], vec![]).is_empty());
    assert!(reader.get_symbols(vec![], vec![]).is_empty());
    assert!(reader.get_names(vec![], vec![]).is_empty());
}

#[test]
fn repeated_batches_agree() {
    let reader = PortfolioReader::new();
    let tokens = vec![addr(1), addr(2)];
    let replies = vec![amount_reply(Amount::from_u64(42)), Ok(vec![1, 2, 3])];
    let first = reader.get_balances(addr(3), tokens.clone(), replies.clone());
    let second = reader.get_balances(addr(3), tokens.clone(), replies);
    assert_eq!(first, second);
    let labels = vec![string_reply("T"), Err(Vec::new())];
    assert_eq!(reader.get_names(tokens.clone(), labels.clone()), reader.get_names(tokens, labels));
}

#[test]
fn initialize_succeeds_once() {
    let mut reader = PortfolioReader::new();
    assert!(!reader.is_initialized());
    assert_eq!(reader.initialize(), Ok(()));
    assert!(reader.is_initialized());
    assert_eq!(reader.initialize(), Err(ReaderError::AlreadyInitialized));
    assert!(reader.is_initialized());
    assert_eq!(reader.initialize(), Err(ReaderError::AlreadyInitialized));
    assert!(reader.is_initialized());
}

#[test]
fn already_initialized_message_text() {
    assert_eq!(ReaderError::AlreadyInitialized.message(), b"Already initialized".to_vec());
}

#[test]
fn balance_word_is_big_endian() {
    let mut word = vec![0u8; 32];
    word[0] = 0x80;
    word[31] = 0x05;
    let a = decode_balance(&Ok(word));
    assert_eq!(a.limbs, [5, 0, 0, 1u64 << 63]);
    let mut word = vec![0u8; 32];
    word[30] = 0x01;
    word[31] = 0xf4;
    assert_eq!(decode_balance(&Ok(word)), Amount::from_u64(500));
}

#[test]
fn balance_word_of_wrong_length_reads_zero() {
    assert_eq!(decode_balance(&Ok(vec![0xffu8; 33])), Amount::zero());
    assert_eq!(decode_balance(&Ok(vec![0xffu8; 31])), Amount::zero());
    assert_eq!(decode_balance(&Ok(Vec::new())), Amount::zero());
    assert_eq!(decode_balance(&Err(vec![0u8; 32])), Amount::zero());
}

#[test]
fn label_decoding() {
    assert_eq!(decode_label(&string_reply("Wrapped Ether")), "Wrapped Ether".to_string());
    assert_eq!(decode_label(&string_reply("")), String::new());
    assert_eq!(decode_label(&Ok(vec![0u8; 32])), String::new());
    let mut bad = string_reply("ab").unwrap();
    bad[64] = 0xff;
    assert_eq!(decode_label(&Ok(bad)), String::new());
    let mut trailing = string_reply("ab").unwrap();
    trailing.push(0);
    assert_eq!(decode_label(&Ok(trailing)), String::new());
}

#[test]
fn call_data_layout() {
    let mut a = [0u8; 20];
    for (i, b) in a.iter_mut().enumerate() {
        *b = i as u8 + 1;
    }
    let data = balance_call_data(&Address::new(a));
    assert_eq!(data.len(), 36);
    assert_eq!(&data[..4], &[0x70, 0xa0, 0x82, 0x31]);
    assert_eq!(&data[4..16], &[0u8; 12]);
    assert_eq!(&data[16..], &a);
    assert_eq!(name_call_data(), vec![0x06, 0xfd, 0xde, 0x03]);
    assert_eq!(symbol_call_data(), vec![0x95, 0xd8, 0x9b, 0x41]);
}

#[test]
fn mint_adds_to_one_account() {
    let mut t = ledger();
    assert_eq!(t.balance_of(addr(0xaa)), Amount::from_u64(500));
    assert_eq!(t.balance_of(addr(0xbb)), Amount::zero());
    t.mint(addr(0xbb), Amount::from_u64(20));
    t.mint(addr(0xaa), Amount::from_u64(1));
    assert_eq!(t.balance_of(addr(0xaa)), Amount::from_u64(501));
    assert_eq!(t.balance_of(addr(0xbb)), Amount::from_u64(20));
    assert_eq!(t.total_supply(), Amount::from_u64(521));
    assert_eq!(t.name(), "Mock Token".to_string());
    assert_eq!(t.symbol(), "MOCK".to_string());
}

#[test]
fn mint_wraps_at_two_to_the_256() {
    let mut t = MockToken::new(String::new(), String::new());
    let max = Amount { limbs: [u64::MAX; 4] };
    t.mint(addr(1), max);
    t.mint(addr(1), Amount::from_u64(2));
    assert_eq!(t.balance_of(addr(1)), Amount::from_u64(1));
    assert_eq!(t.total_supply(), Amount::from_u64(1));
    let carry = Amount { limbs: [u64::MAX, 0, 0, 0] }.wrapping_add(Amount::from_u64(1));
    assert_eq!(carry.limbs, [0, 1, 0, 0]);
}

#[test]
fn addresses_compare_by_bytes() {
    assert!(addr(3).same_as(&addr(3)));
    let mut b = [3u8; 20];
    b[19] = 4;
    assert!(!addr(3).same_as(&Address::new(b)));
}

#[test]
fn reader_restored_from_its_flag() {
    let mut kept = PortfolioReader::from_flag(true);
    assert!(kept.is_initialized());
    assert_eq!(kept.initialize(), Err(ReaderError::AlreadyInitialized));
    let mut fresh = PortfolioReader::from_flag(false);
    assert_eq!(fresh.initialize(), Ok(()));
    assert!(fresh.is_initialized());
}

#[test]
fn huge_length_word_reads_empty() {
    let mut data = vec![0u8; 64];
    data[31] = 0x20;
    for b in data[56..64].iter_mut() {
        *b = 0xff;
    }
    assert_eq!(decode_label(&Ok(data)), String::new());
    let reader = PortfolioReader::new();
    let mut bad = vec![0u8; 64];
    bad[31] = 0x20;
    bad[32] = 0x01;
    let r = reader.get_symbols(vec![addr(1), addr(2)], vec![Ok(bad), string_reply("OK")]);
    assert_eq!(r, vec![String::new(), "OK".to_string()]);
}

#[test]
fn length_past_the_end_reads_empty() {
    let mut data = string_reply("abc").unwrap();
    data[63] = 0x60;
    assert_eq!(decode_label(&Ok(data)), String::new());
}

#[test]
fn offset_other_than_one_word_reads_empty() {
    let mut data = string_reply("abc").unwrap();
    data.splice(32..32, vec![0u8; 32]);
    data[31] = 0x40;
    assert_eq!(decode_label(&Ok(data)), String::new());
}

#[test]
fn word_bounds() {
    let mut data = vec![0u8; 40];
    data[35] = 0x20;
    assert!(word_at_most(&data, 4, 32));
    assert!(!word_at_most(&data, 4, 31));
    data[4] = 1;
    assert!(!word_at_most(&data, 4, usize::MAX));
    assert!(word_at_most(&vec![0u8; 32], 0, 0));
}

#[test]
fn mint_step_adds_to_both() {
    let (balance, supply) = mint_step(Amount::from_u64(7), Amount::from_u64(100), Amount::from_u64(5));
    assert_eq!(balance, Amount::from_u64(12));
    assert_eq!(supply, Amount::from_u64(105));
    let (balance, supply) = mint_step(Amount { limbs: [u64::MAX; 4] }, Amount::zero(), Amount::from_u64(1));
    assert_eq!(balance, Amount::zero());
    assert_eq!(supply, Amount::from_u64(1));
}
