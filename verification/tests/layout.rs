use interra_order_solana::{
    decode_config, decode_order, encode_config, encode_order, Address, GlobalConfig, LimitOrder,
};

fn who(n: u8) -> Address {
    Address::new([n; 32])
}

fn sample_config() -> GlobalConfig {
    let mut reserved = [0u8; 128];
    reserved[0] = 11;
    reserved[127] = 12;
    GlobalConfig { owner: who(1), platform_fee: 0x0102, treasury: who(2), paused: true, reserved }
}

fn sample_order() -> LimitOrder {
    LimitOrder {
        from_token: who(3),
        from_chain_id: 10002,
        amount_in: 0x0102030405060708,
        to_chain_id: 56,
        to_token: [4; 32],
        recipient: [5; 32],
        sender: who(6),
        expiry: -2,
        amount_out: [7; 32],
        bump: 254,
    }
}

#[test]
fn config_is_stored_field_by_field() {
    let bytes = encode_config(&sample_config());
    assert_eq!(bytes.len(), 8 + GlobalConfig::SIZE);
    assert_eq!(bytes[0..8], [149, 8, 156, 202, 160, 252, 176, 217]);
    assert_eq!(bytes[8..40], [1u8; 32]);
    assert_eq!(bytes[40..42], [0x02, 0x01]);
    assert_eq!(bytes[42..74], [2u8; 32]);
    assert_eq!(bytes[74], 1);
    assert_eq!(bytes[75], 11);
    assert_eq!(bytes[76..202], [0u8; 126]);
    assert_eq!(bytes[202], 12);
}

#[test]
fn order_is_stored_field_by_field() {
    let bytes = encode_order(&sample_order());
    assert_eq!(bytes.len(), 8 + LimitOrder::SIZE);
    assert_eq!(bytes[0..8], [137, 183, 212, 91, 115, 29, 141, 227]);
    assert_eq!(bytes[8..40], [3u8; 32]);
    assert_eq!(bytes[40..48], 10002u64.to_le_bytes());
    assert_eq!(bytes[48..56], [8, 7, 6, 5, 4, 3, 2, 1]);
    assert_eq!(bytes[56..64], 56u64.to_le_bytes());
    assert_eq!(bytes[64..96], [4u8; 32]);
    assert_eq!(bytes[96..128], [5u8; 32]);
    assert_eq!(bytes[128..160], [6u8; 32]);
    assert_eq!(bytes[160..168], [0xfe, 0xff, 0xff, 0xff, 0xff, 0xff, 0xff, 0xff]);
    assert_eq!(bytes[168..200], [7u8; 32]);
    assert_eq!(bytes[200], 254);
}

#[test]
fn stored_config_reads_back() {
    let mut c = sample_config();
    assert_eq!(decode_config(&encode_config(&c)), Some(c));
    c.paused = false;
    c.platform_fee = 9_999;
    assert_eq!(decode_config(&encode_config(&c)), Some(c));
}

#[test]
fn stored_order_reads_back() {
    let mut o = sample_order();
    assert_eq!(decode_order(&encode_order(&o)), Some(o));
    o.expiry = i64::MIN;
    assert_eq!(decode_order(&encode_order(&o)), Some(o));
    o.expiry = i64::MAX;
    o.amount_in = u64::MAX;
    assert_eq!(decode_order(&encode_order(&o)), Some(o));
}

#[test]
fn config_with_wrong_length_tag_or_flag_is_refused() {
    let good = encode_config(&sample_config());
    assert_eq!(decode_config(&good[..202]), None);
    assert_eq!(decode_config(&[]), None);
    let mut longer = good.clone();
    longer.push(0);
    assert_eq!(decode_config(&longer), None);
    let mut tag = good.clone();
    tag[7] ^= 1;
    assert_eq!(decode_config(&tag), None);
    let mut flag = good.clone();
    flag[74] = 2;
    assert_eq!(decode_config(&flag), None);
    assert_eq!(decode_config(&encode_order(&sample_order())), None);
}

#[test]
fn order_with_wrong_length_or_tag_is_refused() {
    let good = encode_order(&sample_order());
    assert_eq!(decode_order(&good[..200]), None);
    let mut longer = good.clone();
    longer.push(0);
    assert_eq!(decode_order(&longer), None);
    let mut tag = good.clone();
    tag[0] = 0;
    assert_eq!(decode_order(&tag), None);
    assert_eq!(decode_order(&encode_config(&sample_config())), None);
}
