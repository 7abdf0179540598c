//! Gas bookkeeping of a verification call on the EVM: what the calldata
//! costs, and what is left for execution once the intrinsic cost of a
//! transaction and the calldata cost are taken from the gas used.

use vstd::prelude::*;

verus! {

/// The gas every transaction pays before it runs.
pub const INTRINSIC_GAS: u64 = 21000;

/// The gas of one calldata byte: 4 for a zero byte, 16 for any other.
pub open spec fn byte_gas(b: u8) -> nat {
    if b == 0 {
        4
    } else {
        16
    }
}

/// The gas of a calldata sequence: the sum of its bytes' gas.
pub open spec fn calldata_gas_spec(s: Seq<u8>) -> nat
    decreases s.len(),
{
    if s.len() == 0 {
        0
    } else {
        calldata_gas_spec(s.drop_last()) + byte_gas(s.last())
    }
}

/// The gas of a calldata sequence: 4 per zero byte and 16 per other byte.
pub fn calldata_gas(calldata: &[u8]) -> (g: u64)
    requires
        calldata@.len() * 16 <= u64::MAX,
    ensures
        g == calldata_gas_spec(calldata@),
        g == 4 * calldata@.filter(|b: u8| b == 0).len() + 16 * calldata@.filter(|b: u8| b != 0).len(),
{
    proof {
        lemma_calldata_gas_counts(calldata@);
    }
    let mut sum: u64 = 0;
    let mut i: usize = 0;
    while i < calldata.len()
        invariant
            i <= calldata@.len(),
            calldata@.len() * 16 <= u64::MAX,
            sum == calldata_gas_spec(calldata@.subrange(0, i as int)),
            sum <= 16 * i,
        decreases calldata@.len() - i,
    {
        proof {
            assert(calldata@.subrange(0, i + 1).drop_last() =~= calldata@.subrange(0, i as int));
        }
        let cost: u64 = if calldata[i] == 0 {
            4
        } else {
            16
        };
        sum = sum + cost;
        i = i + 1;
    }
    proof {
        assert(calldata@.subrange(0, i as int) =~= calldata@);
    }
    sum
}

/// The execution and calldata gas of a call whose transaction used
/// `gas_used`: the calldata gas, and what remains of `gas_used` after the
/// intrinsic and calldata gas. A transaction that used less than those two
/// is not a successful call.
pub fn measure(calldata: &[u8], gas_used: u64) -> (r: (u64, u64))
    requires
        calldata@.len() * 16 + INTRINSIC_GAS <= u64::MAX,
        gas_used >= INTRINSIC_GAS + calldata_gas_spec(calldata@),
    ensures
        r.1 == calldata_gas_spec(calldata@),
        r.0 == gas_used - INTRINSIC_GAS - calldata_gas_spec(calldata@),
{
    let data_gas = calldata_gas(calldata);
    proof {
        lemma_calldata_gas_bounds(calldata@);
    }
    let exec_gas = gas_used - (INTRINSIC_GAS + data_gas);
    (exec_gas, data_gas)
}

/// Law: calldata costs 4 for each of its zero bytes and 16 for each of its
/// other bytes.
pub proof fn lemma_calldata_gas_counts(s: Seq<u8>)
    ensures
        calldata_gas_spec(s) == 4 * s.filter(|b: u8| b == 0).len() + 16 * s.filter(|b: u8| b != 0).len(),
    decreases s.len(),
{
    reveal(Seq::filter);
    if s.len() > 0 {
        lemma_calldata_gas_counts(s.drop_last());
    }
}

/// Law: a single zero byte costs 4 and a single other byte 16.
pub proof fn lemma_calldata_gas_of_byte(b: u8)
    ensures
        b == 0 ==> calldata_gas_spec(seq![b]) == 4,
        b != 0 ==> calldata_gas_spec(seq![b]) == 16,
{
    lemma_calldata_gas_counts(seq![b]);
    reveal_with_fuel(Seq::filter, 2);
    assert(seq![b].drop_last() =~= Seq::<u8>::empty());
}

/// Law: each byte costs between 4 and 16, so calldata of `n` bytes costs
/// between `4 n` and `16 n`.
pub proof fn lemma_calldata_gas_bounds(s: Seq<u8>)
    ensures
        4 * s.len() <= calldata_gas_spec(s) <= 16 * s.len(),
    decreases s.len(),
{
    if s.len() > 0 {
        lemma_calldata_gas_bounds(s.drop_last());
    }
}

/// Law: the gas of two calldata sequences put together is the sum of their
/// gas.
pub proof fn lemma_calldata_gas_concat(a: Seq<u8>, b: Seq<u8>)
    ensures
        calldata_gas_spec(a + b) == calldata_gas_spec(a) + calldata_gas_spec(b),
    decreases b.len(),
{
    if b.len() == 0 {
        assert(a + b =~= a);
    } else {
        lemma_calldata_gas_concat(a, b.drop_last());
        assert((a + b).drop_last() =~= a + b.drop_last());
    }
}

} // verus!
