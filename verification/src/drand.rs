//! Rounds of the drand randomness beacon: where a round is fetched from, and
//! how its hex-encoded signature becomes bytes.

use vstd::prelude::*;
use vstd::string::StringExecFns;

verus! {

/// A drand round as the beacon's HTTP API reports it.
#[derive(Debug)]
pub struct Round {
    pub round: u64,
    pub signature: String,
}

/// The drand networks whose signatures are fetched.
#[derive(Clone, Copy, Debug, PartialEq, Eq, Structural)]
pub enum Network {
    /// BLS12-381 signatures, 48 bytes compressed.
    Quicknet,
    /// BN254 signatures, 64 bytes uncompressed.
    Evmnet,
}

/// The network named `name`, if it is one of the two.
pub open spec fn network_of_name(name: Seq<char>) -> Option<Network> {
    if name == "quicknet"@ {
        Some(Network::Quicknet)
    } else if name == "evmnet"@ {
        Some(Network::Evmnet)
    } else {
        None
    }
}

/// The name of a network in the beacon's API.
pub open spec fn network_name(n: Network) -> Seq<char> {
    match n {
        Network::Quicknet => "quicknet"@,
        Network::Evmnet => "evmnet"@,
    }
}

impl Network {
    /// The network of the given name, if it is one of the two.
    pub fn from_name(name: &str) -> (r: Option<Network>)
        ensures
            r == network_of_name(name@),
    {
        let n = String::from_str(name);
        if n == String::from_str("quicknet") {
            Some(Network::Quicknet)
        } else if n == String::from_str("evmnet") {
            Some(Network::Evmnet)
        } else {
            None
        }
    }

    /// The name of the network in the beacon's API.
    pub fn name(&self) -> (r: &'static str)
        ensures
            r@ == network_name(*self),
    {
        match self {
            Network::Quicknet => "quicknet",
            Network::Evmnet => "evmnet",
        }
    }

    /// The length in bytes of a signature of this network as the API
    /// reports it.
    pub fn signature_len(&self) -> (r: usize)
        ensures
            r == (match self {
                Network::Quicknet => 48usize,
                Network::Evmnet => 64usize,
            }),
    {
        match self {
            Network::Quicknet => 48,
            Network::Evmnet => 64,
        }
    }
}

/// Law: the name of a network names that network.
pub proof fn lemma_network_name_round_trip(n: Network)
    ensures
        network_of_name(network_name(n)) == Some(n),
{
    reveal_strlit("quicknet");
    reveal_strlit("evmnet");
    assert("quicknet"@.len() != "evmnet"@.len());
}

/// The character of a decimal digit.
pub open spec fn digit_char(d: nat) -> char {
    (d + 48) as char
}

/// The decimal representation of `n`, with no leading zeros.
pub open spec fn decimal(n: nat) -> Seq<char>
    decreases n,
{
    if n < 10 {
        seq![digit_char(n)]
    } else {
        decimal(n / 10).push(digit_char(n % 10))
    }
}

fn digit_str(d: u64) -> (s: &'static str)
    requires
        d < 10,
    ensures
        s@ == seq![digit_char(d as nat)],
{
    proof {
        reveal_strlit("0");
        reveal_strlit("1");
        reveal_strlit("2");
        reveal_strlit("3");
        reveal_strlit("4");
        reveal_strlit("5");
        reveal_strlit("6");
        reveal_strlit("7");
        reveal_strlit("8");
        reveal_strlit("9");
    }
    if d == 0 {
        "0"
    } else if d == 1 {
        "1"
    } else if d == 2 {
        "2"
    } else if d == 3 {
        "3"
    } else if d == 4 {
        "4"
    } else if d == 5 {
        "5"
    } else if d == 6 {
        "6"
    } else if d == 7 {
        "7"
    } else if d == 8 {
        "8"
    } else {
        "9"
    }
}

/// The decimal representation of `n`.
pub fn decimal_string(n: u64) -> (s: String)
    ensures
        s@ == decimal(n as nat),
    decreases n,
{
    if n < 10 {
        String::from_str(digit_str(n))
    } else {
        let mut s = decimal_string(n / 10);
        s.append(digit_str(n % 10));
        proof {
            assert(s@ =~= decimal((n / 10) as nat) + seq![digit_char((n % 10) as nat)]);
        }
        s
    }
}

/// The URL of a round of a network in the drand HTTP API.
pub open spec fn round_url_spec(network: Seq<char>, round_number: nat) -> Seq<char> {
    "https://api.drand.sh/v2/beacons/"@ + network + "/rounds/"@ + decimal(round_number)
}

/// The number that a string of decimal digits denotes.
pub open spec fn decimal_value(s: Seq<char>) -> nat
    decreases s.len(),
{
    if s.len() == 0 {
        0
    } else {
        decimal_value(s.drop_last()) * 10 + ((s.last() as nat) - 48) as nat
    }
}

/// Law: the decimal representation of `n` is a nonempty string of the
/// digits `0` to `9` that denotes `n`, with no leading zero (but for 0).
pub proof fn lemma_decimal_denotes(n: nat)
    ensures
        decimal(n).len() >= 1,
        forall|i: int| 0 <= i < decimal(n).len() ==> '0' <= #[trigger] decimal(n)[i] <= '9',
        decimal_value(decimal(n)) == n,
        n > 0 ==> decimal(n)[0] != '0',
    decreases n,
{
    let c = digit_char(n % 10);
    assert((c as nat) == n % 10 + 48);
    if n >= 10 {
        lemma_decimal_denotes(n / 10);
        let d = decimal(n / 10);
        assert(decimal(n).drop_last() =~= d);
        assert(decimal(n)[0] == d[0]);
        assert(decimal(n).last() == c);
        assert(decimal_value(decimal(n)) == decimal_value(d) * 10 + n % 10);
        assert(n == (n / 10) * 10 + n % 10);
    } else {
        assert(decimal(n).drop_last() =~= Seq::<char>::empty());
        assert(decimal(n).last() == c);
        assert(decimal_value(decimal(n)) == decimal_value(Seq::<char>::empty()) * 10 + n % 10);
    }
}

/// Law: the URL of a round is the API's prefix, the network, the segment
/// `/rounds/` and the round number in decimal. What precedes the number is
/// the same for every round, and the URL ends with the number.
pub proof fn lemma_round_url_shape(network: Seq<char>, n: nat, m: nat)
    ensures
        round_url_spec(network, n) == "https://api.drand.sh/v2/beacons/"@ + network + "/rounds/"@
            + decimal(n),
        ({
            let u = round_url_spec(network, n);
            let v = round_url_spec(network, m);
            u.subrange(0, u.len() - decimal(n).len()) == v.subrange(0, v.len() - decimal(m).len())
        }),
        ({
            let u = round_url_spec(network, n);
            u.subrange(u.len() - decimal(n).len(), u.len() as int) == decimal(n)
        }),
{
    let stem = "https://api.drand.sh/v2/beacons/"@ + network + "/rounds/"@;
    let u = round_url_spec(network, n);
    let v = round_url_spec(network, m);
    assert(u =~= stem + decimal(n));
    assert(v =~= stem + decimal(m));
    assert(u.subrange(0, u.len() - decimal(n).len()) =~= stem);
    assert(v.subrange(0, v.len() - decimal(m).len()) =~= stem);
    assert(u.subrange(u.len() - decimal(n).len(), u.len() as int) =~= decimal(n));
}

/// The URL at which the drand HTTP API serves round `round_number` of
/// `network`.
pub fn round_url(network: &str, round_number: u64) -> (r: String)
    ensures
        r@ == round_url_spec(network@, round_number as nat),
{
    let mut url = String::from_str("https://api.drand.sh/v2/beacons/");
    url.append(network);
    url.append("/rounds/");
    let number = decimal_string(round_number);
    url.append(number.as_str());
    url
}

/// Why a hex string did not decode.
#[derive(Clone, Copy, Debug, PartialEq, Eq, Structural)]
pub enum HexError {
    /// A byte at `index` is not a hex digit.
    InvalidHexCharacter { c: char, index: usize },
    /// The string has an odd number of digits.
    OddLength,
    /// The string does not decode to the length of the buffer.
    InvalidStringLength,
}

/// The value of a hex digit, if the byte is one.
pub open spec fn hex_digit_value(b: u8) -> Option<nat> {
    if 0x30 <= b <= 0x39 {
        Some((b - 0x30) as nat)
    } else if 0x41 <= b <= 0x46 {
        Some((b - 0x41 + 10) as nat)
    } else if 0x61 <= b <= 0x66 {
        Some((b - 0x61 + 10) as nat)
    } else {
        None
    }
}

/// The bytes that a string of hex digit pairs stands for.
pub open spec fn hex_decoded(data: Seq<u8>) -> Seq<u8> {
    Seq::new(
        data.len() / 2,
        |i: int|
            (hex_digit_value(data[2 * i])->0 * 16 + hex_digit_value(data[2 * i + 1])->0) as u8,
    )
}

/// The lower-case hex digit of `v < 16`.
pub open spec fn hex_digit(v: nat) -> u8 {
    if v < 10 {
        (48 + v) as u8
    } else {
        (87 + v) as u8
    }
}

/// The hex encoding of `bs`: each byte as two lower-case digits, the high
/// one first.
pub open spec fn hex_encoded(bs: Seq<u8>) -> Seq<u8> {
    Seq::new(
        2 * bs.len(),
        |i: int|
            if i % 2 == 0 {
                hex_digit((bs[i / 2] / 16) as nat)
            } else {
                hex_digit((bs[i / 2] % 16) as nat)
            },
    )
}

proof fn lemma_hex_digit_value(v: nat)
    requires
        v < 16,
    ensures
        hex_digit_value(hex_digit(v)) == Some(v),
{
}

/// Law: the hex encoding of any bytes decodes, into a buffer of their
/// length, without error and back to the same bytes.
pub proof fn lemma_hex_round_trip(bs: Seq<u8>)
    ensures
        hex_decode_status(hex_encoded(bs), bs.len()) == Ok::<(), HexError>(()),
        hex_decoded(hex_encoded(bs)) == bs,
{
    let d = hex_encoded(bs);
    assert forall|k: int| 0 <= k < d.len() implies hex_digit_value(#[trigger] d[k]) is Some by {
        if k % 2 == 0 {
            lemma_hex_digit_value((bs[k / 2] / 16) as nat);
        } else {
            lemma_hex_digit_value((bs[k / 2] % 16) as nat);
        }
    }
    assert forall|i: int| 0 <= i < bs.len() implies #[trigger] hex_decoded(d)[i] == bs[i] by {
        let b = bs[i];
        assert((2 * i) / 2 == i);
        assert((2 * i + 1) / 2 == i);
        assert((2 * i) % 2 == 0);
        assert((2 * i + 1) % 2 == 1);
        lemma_hex_digit_value((b / 16) as nat);
        lemma_hex_digit_value((b % 16) as nat);
        assert(d[2 * i] == hex_digit((b / 16) as nat));
        assert(d[2 * i + 1] == hex_digit((b % 16) as nat));
        assert((b / 16) as nat * 16 + (b % 16) as nat == b);
    }
    assert(hex_decoded(d) =~= bs);
}

/// Law: an upper-case hex letter has the value of its lower-case form.
pub proof fn lemma_hex_case_insensitive(b: u8)
    requires
        0x41 <= b <= 0x46,
    ensures
        hex_digit_value(b) is Some,
        hex_digit_value(b) == hex_digit_value((b + 32) as u8),
{
}

/// The first position in `data` that holds no hex digit.
pub open spec fn first_non_hex(data: Seq<u8>) -> int {
    choose|k: int|
        0 <= k < data.len() && hex_digit_value(data[k]) is None && forall|j: int|
            0 <= j < k ==> hex_digit_value(#[trigger] data[j]) is Some
}

/// Whether decoding `data` into a buffer of `out_len` bytes succeeds, and
/// if not, why: the length checks first, then the first byte that is not a
/// hex digit.
pub open spec fn hex_decode_status(data: Seq<u8>, out_len: nat) -> Result<(), HexError> {
    if data.len() % 2 != 0 {
        Err(HexError::OddLength)
    } else if data.len() / 2 != out_len {
        Err(HexError::InvalidStringLength)
    } else if exists|k: int| 0 <= k < data.len() && hex_digit_value(#[trigger] data[k]) is None {
        Err(
            HexError::InvalidHexCharacter {
                c: data[first_non_hex(data)] as char,
                index: first_non_hex(data) as usize,
            },
        )
    } else {
        Ok(())
    }
}

/// The decoding failed on a length check, before any byte was written.
pub open spec fn is_length_error(r: Result<(), HexError>) -> bool {
    r == Err::<(), HexError>(HexError::OddLength) || r == Err::<(), HexError>(
        HexError::InvalidStringLength,
    )
}

/// `hex::decode_to_slice`: decodes hex digit pairs into `out`, which must
/// have half the length of `data`. On success `out` holds the decoded
/// bytes; a failed length check leaves it untouched. After a bad digit its
/// contents are not stated (the crate writes the bytes before that digit).
#[verifier::external_body]
fn hex_decode_to_slice(data: &[u8], out: &mut [u8]) -> (r: Result<(), HexError>)
    ensures
        final(out)@.len() == old(out)@.len(),
        r == hex_decode_status(data@, old(out)@.len()),
        r is Ok ==> final(out)@ == hex_decoded(data@),
        is_length_error(r) ==> final(out)@ == old(out)@,
{
    match hex::decode_to_slice(data, out) {
        Ok(()) => Ok(()),
        Err(hex::FromHexError::InvalidHexCharacter { c, index }) => Err(
            HexError::InvalidHexCharacter { c, index },
        ),
        Err(hex::FromHexError::OddLength) => Err(HexError::OddLength),
        Err(hex::FromHexError::InvalidStringLength) => Err(HexError::InvalidStringLength),
    }
}

/// Decodes the hex signature of a round into `out`, which must have room
/// for exactly the signature's bytes; a signature of the wrong length
/// leaves `out` untouched.
pub fn decode_round_signature(round: &Round, out: &mut [u8]) -> (r: Result<(), HexError>)
    ensures
        final(out)@.len() == old(out)@.len(),
        r == hex_decode_status(vstd::utf8::encode_utf8(round.signature@), old(out)@.len()),
        r is Ok ==> final(out)@ == hex_decoded(vstd::utf8::encode_utf8(round.signature@)),
        is_length_error(r) ==> final(out)@ == old(out)@,
{
    hex_decode_to_slice(round.signature.as_str().as_bytes(), out)
}

} // verus!
