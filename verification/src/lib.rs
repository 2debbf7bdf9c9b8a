//! A hash over the scalar field of the BN254 curve, built on a fixed-width
//! permutation with an x^5 substitution layer.
//!
//! [`poseidon_fields`] hashes a short run of field elements directly;
//! [`poseidon_bytes`] first turns each byte into a field element and packs
//! runs of 31 of them into single elements with doubling weights, which
//! [`compose_and_poseidon`] exposes for any chunk size.

use vstd::prelude::*;

mod constants;
mod constants_data;
mod field;
mod poseidon;

pub use constants::Constants;
pub use constants::load_constants;
pub use field::Fr;
pub use poseidon::Poseidon;
pub use poseidon::PoseidonError;

verus! {

use vstd::arithmetic::div_mod::{
    lemma_add_mod_noop, lemma_mul_mod_noop_left, lemma_mul_mod_noop_right, lemma_small_mod,
};
use vstd::slice::slice_to_vec;
use crate::field::{all_wf, fr_add, fr_mul, modulus, vals};
use crate::poseidon::poseidon_digest;

/// The chunk size of [`poseidon_bytes`]: 31 byte-valued elements combine
/// into one field element.
pub const BYTES_PER_CHUNK: usize = 31;

/// How many chunks of up to `cs` elements cover `n` elements.
pub open spec fn chunks_count(n: int, cs: int) -> int
    recommends
        cs >= 1,
    decreases n,
{
    if n <= 0 || cs <= 0 {
        0
    } else {
        1 + chunks_count(n - (if cs <= n { cs } else { n }), cs)
    }
}

/// The doubling weights: weight `k` is `2^k`.
pub open spec fn two_pow(k: nat) -> int
    decreases k,
{
    if k == 0 {
        1
    } else {
        2 * two_pow((k - 1) as nat)
    }
}

/// The weighted sum of `k` values starting at `off`, value `off + j`
/// carrying weight `2^j`.
pub open spec fn weighted_sum(v: Seq<int>, off: int, k: int) -> int
    decreases k,
{
    if k <= 0 {
        0
    } else {
        weighted_sum(v, off, k - 1) + v[off + k - 1] * two_pow((k - 1) as nat)
    }
}

/// The values a run of elements packs to: one entry per chunk of up to `cs`
/// elements, each the weighted sum of its chunk with doubling weights,
/// reduced modulo the field's prime.
pub open spec fn composed_spec(v: Seq<int>, cs: int) -> Seq<int> {
    Seq::new(
        chunks_count(v.len() as int, cs) as nat,
        |i: int|
            weighted_sum(
                v,
                i * cs,
                (if (i + 1) * cs <= v.len() {
                    cs
                } else {
                    v.len() - i * cs
                }),
            ) % modulus(),
    )
}

/// The integer values of a byte sequence.
pub open spec fn byte_vals(s: Seq<u8>) -> Seq<int> {
    s.map_values(|b: u8| b as int)
}

/// Hashes a run of field elements; fails with the length error when the run
/// is empty or longer than the widest table entry.
pub fn poseidon_fields(input_fields: &[Fr]) -> (r: Result<Fr, PoseidonError>)
    requires
        all_wf(input_fields@),
    ensures
        1 <= input_fields@.len() <= 16 ==> r is Ok && r->Ok_0.wf() && r->Ok_0@ == poseidon_digest(
            vals(input_fields@),
        ),
        !(1 <= input_fields@.len() <= 16) ==> r == Err::<Fr, PoseidonError>(
            PoseidonError::WrongInputsLength(16, input_fields@.len() as usize),
        ),
{
    let poseidon = Poseidon::new();
    poseidon.hash(slice_to_vec(input_fields))
}

/// Hashes a byte string: each byte becomes the field element of its value,
/// and runs of 31 of them are packed into one element before hashing.
pub fn poseidon_bytes(input_bytes: &[u8]) -> (r: Result<Fr, PoseidonError>)
    ensures
        1 <= chunks_count(input_bytes@.len() as int, 31) <= 16 ==> r is Ok && r->Ok_0.wf() && r->Ok_0@
            == poseidon_digest(composed_spec(byte_vals(input_bytes@), 31)),
        !(1 <= chunks_count(input_bytes@.len() as int, 31) <= 16) ==> r == Err::<
            Fr,
            PoseidonError,
        >(
            PoseidonError::WrongInputsLength(
                16,
                chunks_count(input_bytes@.len() as int, 31) as usize,
            ),
        ),
{
    let n = input_bytes.len();
    let mut input_fields: Vec<Fr> = Vec::new();
    let mut i: usize = 0;
    while i < n
        invariant
            i <= n,
            n == input_bytes@.len(),
            input_fields@.len() == i,
            all_wf(input_fields@),
            forall|k: int| 0 <= k < i ==> (#[trigger] input_fields@[k])@ == input_bytes@[k],
        decreases n - i,
    {
        input_fields.push(Fr::from_u128(input_bytes[i] as u128));
        i = i + 1;
    }
    proof {
        assert forall|k: int| 0 <= k < input_fields@.len() implies vals(input_fields@)[k]
            == byte_vals(input_bytes@)[k] by {
            assert(input_fields@[k]@ == input_bytes@[k]);
        }
        assert(vals(input_fields@) =~= byte_vals(input_bytes@));
    }
    compose_and_poseidon(input_fields.as_slice(), BYTES_PER_CHUNK)
}

/// Packs consecutive chunks of up to `chunk_size` elements into single
/// elements: the packed value of a chunk is the sum of its elements with
/// doubling weights `1, 2, 4, ...`, reduced modulo the field's prime.
pub fn compose_fields(input_fields: &[Fr], chunk_size: usize) -> (out: Vec<Fr>)
    requires
        chunk_size >= 1,
        all_wf(input_fields@),
    ensures
        out@.len() == chunks_count(input_fields@.len() as int, chunk_size as int),
        all_wf(out@),
        forall|ci: int|
            0 <= ci < out@.len() ==> (#[trigger] out@[ci])@ == weighted_sum(
                vals(input_fields@),
                ci * chunk_size,
                (if (ci + 1) * chunk_size <= input_fields@.len() {
                    chunk_size as int
                } else {
                    input_fields@.len() - ci * chunk_size
                }),
            ) % modulus(),
{
    let ghost v = vals(input_fields@);
    let n = input_fields.len();
    let two = Fr::from_u64(2);
    let mut out: Vec<Fr> = Vec::new();
    let mut off: usize = 0;
    let mut ci: usize = 0;
    while off < n
        invariant
            off <= n,
            n == input_fields@.len(),
            all_wf(input_fields@),
            v == vals(input_fields@),
            two.wf() && two@ == 2,
            chunk_size >= 1,
            off == ci * chunk_size || (off == n && n <= ci * chunk_size),
            out@.len() == ci,
            all_wf(out@),
            chunks_count(n - off, chunk_size as int) + ci == chunks_count(
                n as int,
                chunk_size as int,
            ),
            forall|a: int|
                0 <= a < ci ==> (#[trigger] out@[a])@ == weighted_sum(
                    v,
                    a * chunk_size,
                    (if (a + 1) * chunk_size <= n {
                        chunk_size as int
                    } else {
                        n - a * chunk_size
                    }),
                ) % modulus(),
        decreases n - off,
    {
        let len = if n - off < chunk_size {
            n - off
        } else {
            chunk_size
        };
        let mut sum = Fr::zero();
        let mut coeff = Fr::one();
        let mut j: usize = 0;
        proof {
            lemma_small_mod(0nat, modulus() as nat);
        }
        while j < len
            invariant
                j <= len,
                off + len <= n,
                n == input_fields@.len(),
                all_wf(input_fields@),
                v == vals(input_fields@),
                two.wf() && two@ == 2,
                sum.wf(),
                coeff.wf(),
                sum@ == weighted_sum(v, off as int, j as int) % modulus(),
                coeff@ == two_pow(j as nat) % modulus(),
            decreases len - j,
        {
            let term = fr_mul(&input_fields[off + j], &coeff);
            proof {
                let x = v[off + j];
                let wgt = two_pow(j as nat);
                lemma_mul_mod_noop_right(x, wgt, modulus());
                lemma_add_mod_noop(weighted_sum(v, off as int, j as int), x * wgt, modulus());
                lemma_mul_mod_noop_left(wgt, 2, modulus());
            }
            sum = fr_add(&sum, &term);
            coeff = fr_mul(&coeff, &two);
            j = j + 1;
        }
        out.push(sum);
        proof {
            assert((ci as int + 1) * (chunk_size as int) == off + chunk_size) by (nonlinear_arith)
                requires
                    off == ci * chunk_size,
            ;
            assert((ci as int) < (n as int)) by (nonlinear_arith)
                requires
                    (ci as int) * (chunk_size as int) == off as int,
                    off < n,
                    chunk_size as int >= 1,
                    ci as int >= 0,
            ;
        }
        off = off + len;
        ci = ci + 1;
    }
    out
}

/// Packs the elements as [`compose_fields`] says, then hashes the packed
/// run; fails with the length error when the chunk count is zero or above
/// the widest table entry.
pub fn compose_and_poseidon(input_fields: &[Fr], num_composed_fields: usize) -> (r: Result<
    Fr,
    PoseidonError,
>)
    requires
        num_composed_fields >= 1,
        all_wf(input_fields@),
    ensures
        1 <= chunks_count(input_fields@.len() as int, num_composed_fields as int) <= 16 ==> r
            is Ok && r->Ok_0.wf() && r->Ok_0@ == poseidon_digest(
            composed_spec(vals(input_fields@), num_composed_fields as int),
        ),
        !(1 <= chunks_count(input_fields@.len() as int, num_composed_fields as int) <= 16) ==> r
            == Err::<Fr, PoseidonError>(
            PoseidonError::WrongInputsLength(
                16,
                chunks_count(input_fields@.len() as int, num_composed_fields as int) as usize,
            ),
        ),
{
    let composed_fields = compose_fields(input_fields, num_composed_fields);
    proof {
        let v = vals(input_fields@);
        let csz = num_composed_fields as int;
        assert forall|i: int| 0 <= i < composed_fields@.len() implies vals(composed_fields@)[i]
            == composed_spec(v, csz)[i] by {
            assert(vals(composed_fields@)[i] == composed_fields@[i]@);
        }
        assert(vals(composed_fields@) =~= composed_spec(v, csz));
    }
    poseidon_fields(composed_fields.as_slice())
}

} // verus!
