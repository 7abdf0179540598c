use drand_bench::drand::{decimal_string, decode_round_signature, round_url, HexError, Network, Round};

#[test]
fn decimal_strings() {
    assert_eq!(decimal_string(0), "0");
    assert_eq!(decimal_string(7), "7");
    assert_eq!(decimal_string(1000), "1000");
    assert_eq!(decimal_string(u64::MAX), "18446744073709551615");
}

#[test]
fn round_urls() {
    assert_eq!(round_url("quicknet", 1), "https://api.drand.sh/v2/beacons/quicknet/rounds/1");
    assert_eq!(round_url("evmnet", 1000), "https://api.drand.sh/v2/beacons/evmnet/rounds/1000");
}

#[test]
fn network_names() {
    assert_eq!(Network::from_name("quicknet"), Some(Network::Quicknet));
    assert_eq!(Network::from_name("evmnet"), Some(Network::Evmnet));
    assert_eq!(Network::from_name("mainnet"), None);
    assert_eq!(Network::from_name("Quicknet"), None);
    assert_eq!(Network::Quicknet.name(), "quicknet");
    assert_eq!(Network::Evmnet.name(), "evmnet");
    assert_eq!(Network::Quicknet.signature_len(), 48);
    assert_eq!(Network::Evmnet.signature_len(), 64);
    for n in [Network::Quicknet, Network::Evmnet] {
        assert_eq!(Network::from_name(n.name()), Some(n));
    }
}

fn round(signature: &str) -> Round {
    Round { round: 1, signature: signature.to_string() }
}

#[test]
fn decode_signature_ok() {
    let mut out = [0u8; 4];
    assert_eq!(decode_round_signature(&round("6b697769"), &mut out), Ok(()));
    assert_eq!(&out, b"kiwi");
    let mut out = [0u8; 3];
    assert_eq!(decode_round_signature(&round("00aBfF"), &mut out), Ok(()));
    assert_eq!(out, [0x00, 0xab, 0xff]);
}

#[test]
fn decode_signature_errors() {
    let mut out = [0u8; 2];
    assert_eq!(decode_round_signature(&round("abc"), &mut out), Err(HexError::OddLength));
    assert_eq!(decode_round_signature(&round("abcdef"), &mut out), Err(HexError::InvalidStringLength));
    assert_eq!(
        decode_round_signature(&round("ab0g"), &mut out),
        Err(HexError::InvalidHexCharacter { c: 'g', index: 3 })
    );
    assert_eq!(
        decode_round_signature(&round("zz0g"), &mut out),
        Err(HexError::InvalidHexCharacter { c: 'z', index: 0 })
    );
}

#[test]
fn decode_quicknet_sized_signature() {
    let sig = "8d2c8bbc37170dbacc5e280a21d4e195cff5f32a19fd6a58633fa4e4670478b5fb39bc13dd8f8c4372c5a76191198ac5";
    let mut out = [0u8; 48];
    assert_eq!(decode_round_signature(&round(sig), &mut out), Ok(()));
    assert_eq!(out[0], 0x8d);
    assert_eq!(out[47], 0xc5);
}

#[test]
fn decode_signature_length_error_leaves_buffer() {
    let mut out = [7u8; 3];
    assert_eq!(decode_round_signature(&round("00ff"), &mut out), Err(HexError::InvalidStringLength));
    assert_eq!(out, [7u8, 7, 7]);
    let mut out = [7u8; 2];
    assert_eq!(decode_round_signature(&round("00f"), &mut out), Err(HexError::OddLength));
    assert_eq!(out, [7u8, 7]);
}
