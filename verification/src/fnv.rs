//! FNV-1a style folding shared by the checkpoint signature, parameter seeds,
//! corpus fingerprints and artifact identities.
use vstd::prelude::*;

verus! {

/// 64-bit FNV offset basis.
pub const FNV_OFFSET_BASIS: u64 = 0xcbf2_9ce4_8422_2325;

/// 64-bit FNV prime.
pub const FNV_PRIME: u64 = 0x100_0000_01b3;

/// One FNV-1a round: xor the value in, then multiply by the prime modulo 2^64.
pub open spec fn fnv_step(hash: u64, value: u64) -> u64 {
    (((hash ^ value) as nat * FNV_PRIME as nat) % 0x1_0000_0000_0000_0000) as u64
}

/// Left fold of `fnv_step` over `values`, starting from `basis`.
pub open spec fn fnv_fold(basis: u64, values: Seq<u64>) -> u64
    decreases values.len(),
{
    if values.len() == 0 {
        basis
    } else {
        fnv_step(fnv_fold(basis, values.drop_last()), values.last())
    }
}

/// Bytes widened to the 64-bit words that the fold consumes.
pub open spec fn widen_bytes(bytes: Seq<u8>) -> Seq<u64> {
    bytes.map_values(|b: u8| b as u64)
}

/// Folding a concatenation equals folding the second part from the hash of the first.
pub proof fn lemma_fnv_fold_append(basis: u64, first: Seq<u64>, second: Seq<u64>)
    ensures
        fnv_fold(basis, first + second) == fnv_fold(fnv_fold(basis, first), second),
    decreases second.len(),
{
    if second.len() == 0 {
        assert(first + second =~= first);
    } else {
        lemma_fnv_fold_append(basis, first, second.drop_last());
        assert((first + second).drop_last() =~= first + second.drop_last());
        assert((first + second).last() == second.last());
    }
}

pub fn fnv_mix(hash: u64, value: u64) -> (r: u64)
    ensures
        r == fnv_step(hash, value),
{
    (hash ^ value).wrapping_mul(FNV_PRIME)
}

/// Folds `values` into `basis`.
pub fn fnv_fold_words(basis: u64, values: &[u64]) -> (r: u64)
    ensures
        r == fnv_fold(basis, values@),
{
    let mut hash = basis;
    let mut i: usize = 0;
    while i < values.len()
        invariant
            i <= values@.len(),
            hash == fnv_fold(basis, values@.take(i as int)),
        decreases values@.len() - i,
    {
        assert(values@.take(i as int + 1).drop_last() =~= values@.take(i as int));
        hash = fnv_mix(hash, values[i]);
        i = i + 1;
    }
    assert(values@.take(i as int) =~= values@);
    hash
}

/// Folds `bytes` into `basis`, one byte per round. Streaming callers fold
/// consecutive chunks; `lemma_fnv_fold_append` shows that this equals folding
/// the whole input at once.
pub fn fnv_fold_bytes(basis: u64, bytes: &[u8]) -> (r: u64)
    ensures
        r == fnv_fold(basis, widen_bytes(bytes@)),
{
    let mut hash = basis;
    let mut i: usize = 0;
    while i < bytes.len()
        invariant
            i <= bytes@.len(),
            hash == fnv_fold(basis, widen_bytes(bytes@.take(i as int))),
        decreases bytes@.len() - i,
    {
        assert(widen_bytes(bytes@.take(i as int + 1)).drop_last() =~= widen_bytes(
            bytes@.take(i as int),
        ));
        hash = fnv_mix(hash, bytes[i] as u64);
        i = i + 1;
    }
    assert(bytes@.take(i as int) =~= bytes@);
    hash
}

/// The 64-bit FNV-1a parameters, and one round of it: xor the value into the
/// hash, then multiply by the prime modulo 2^64; a fold runs the rounds from
/// the first value to the last.
pub proof fn lemma_fnv_rounds(hash: u64, value: u64, values: Seq<u64>)
    ensures
        FNV_OFFSET_BASIS == 14695981039346656037u64,
        FNV_PRIME == 1099511628211u64,
        fnv_step(hash, value) as int == ((hash ^ value) as int * 1099511628211) % 18446744073709551616,
        fnv_fold(hash, Seq::<u64>::empty()) == hash,
        fnv_fold(hash, seq![value] + values) == fnv_fold(fnv_step(hash, value), values),
{
    lemma_fnv_fold_append(hash, seq![value], values);
    assert(seq![value].drop_last() =~= Seq::<u64>::empty());
}

} // verus!
