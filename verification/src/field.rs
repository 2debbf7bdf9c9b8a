//! Arithmetic in the scalar field of the BN254 curve.
//!
//! A [`Fr`] holds a fully reduced field value as four little-endian 64-bit
//! limbs; its mathematical value is the spec view `@`. All arithmetic is
//! modulo [`modulus`], performed by `halo2curves` behind two trusted
//! wrappers, [`fr_add`] and [`fr_mul`].

use vstd::prelude::*;

verus! {

use vstd::arithmetic::div_mod::{lemma_add_mod_noop, lemma_mul_mod_noop_left, lemma_small_mod};

/// The BN254 scalar-field modulus, a 254-bit prime.
pub open spec fn modulus() -> int {
    21888242871839275222246405745257275088548364400416034343698204186575808495617int
}

/// The modulus as little-endian 64-bit limbs.
const P_LIMBS: [u64; 4] = [
    0x43e1f593f0000001,
    0x2833e84879b97091,
    0xb85045b68181585d,
    0x30644e72e131a029,
];

/// The integer a little-endian limb array stands for.
pub open spec fn limbs_val(l: [u64; 4]) -> int {
    l[0] + l[1] * 0x10000000000000000int + l[2] * 0x100000000000000000000000000000000int + l[3]
        * 0x1000000000000000000000000000000000000000000000000int
}

/// An element of the scalar field, kept fully reduced below the modulus.
#[derive(Clone, Copy, Debug)]
pub struct Fr {
    limbs: [u64; 4],
}

impl View for Fr {
    type V = int;

    closed spec fn view(&self) -> int {
        limbs_val(self.limbs)
    }
}

impl PartialEq for Fr {
    fn eq(&self, other: &Fr) -> (r: bool) {
        proof {
            lemma_limbs_ord(self.limbs, other.limbs);
            lemma_limbs_ord(other.limbs, self.limbs);
        }
        self.limbs[0] == other.limbs[0] && self.limbs[1] == other.limbs[1] && self.limbs[2]
            == other.limbs[2] && self.limbs[3] == other.limbs[3]
    }
}

impl Eq for Fr {

}

impl vstd::std_specs::cmp::PartialEqSpecImpl for Fr {
    open spec fn obeys_eq_spec() -> bool {
        true
    }

    open spec fn eq_spec(&self, other: &Fr) -> bool {
        self@ == other@
    }
}

/// The value of every element of a sequence of field elements.
pub open spec fn vals(s: Seq<Fr>) -> Seq<int> {
    s.map_values(|f: Fr| f@)
}

/// Every element of the sequence is a reduced field value.
pub open spec fn all_wf(s: Seq<Fr>) -> bool {
    forall|i: int| 0 <= i < s.len() ==> #[trigger] s[i].wf()
}

impl Fr {
    /// The element is fully reduced.
    pub open spec fn wf(self) -> bool {
        0 <= self@ < modulus()
    }

    /// The additive identity.
    pub fn zero() -> (r: Fr)
        ensures
            r.wf(),
            r@ == 0,
    {
        Fr { limbs: [0, 0, 0, 0] }
    }

    /// The multiplicative identity.
    pub fn one() -> (r: Fr)
        ensures
            r.wf(),
            r@ == 1,
    {
        Fr { limbs: [1, 0, 0, 0] }
    }

    /// The field element of a small unsigned integer.
    pub fn from_u64(v: u64) -> (r: Fr)
        ensures
            r.wf(),
            r@ == v,
    {
        Fr { limbs: [v, 0, 0, 0] }
    }

    /// The field element of an unsigned integer of up to 128 bits.
    pub fn from_u128(v: u128) -> (r: Fr)
        ensures
            r.wf(),
            r@ == v,
    {
        let lo = v as u64;
        let hi = (v >> 64) as u64;
        proof {
            assert((v >> 64) as u64 as u128 * 0x10000000000000000 + (v as u64) as u128 == v)
                by (bit_vector);
        }
        Fr { limbs: [lo, hi, 0, 0] }
    }

    /// The canonical limb form of the element.
    pub fn to_limbs(&self) -> (r: [u64; 4])
        ensures
            limbs_val(r) == self@,
    {
        self.limbs
    }

    /// The element of a canonical limb form; rejected unless fully reduced.
    pub fn from_limbs(l: [u64; 4]) -> (r: Option<Fr>)
        ensures
            r is Some <==> limbs_val(l) < modulus(),
            r is Some ==> r->0.wf() && r->0@ == limbs_val(l),
    {
        if limbs_lt(&l, &P_LIMBS) {
            proof {
                lemma_p_limbs_val();
            }
            Some(Fr { limbs: l })
        } else {
            proof {
                lemma_p_limbs_val();
            }
            None
        }
    }

    /// The element a decimal string denotes, reduced modulo the field's
    /// prime; `None` when the string is empty or holds a non-digit.
    pub fn from_str_vartime(s: &str) -> (r: Option<Fr>)
        ensures
            r is Some <==> (s@.len() > 0 && forall|i: int|
                0 <= i < s@.len() ==> is_dec_digit(#[trigger] s@[i])),
            r is Some ==> r->0.wf() && r->0@ == decimal_val(s@) % modulus(),
    {
        let n = s.unicode_len();
        if n == 0 {
            return None;
        }
        let ten = Fr::from_u64(10);
        let mut acc = Fr::zero();
        let mut i: usize = 0;
        proof {
            assert(s@.take(0int) =~= Seq::<char>::empty());
            lemma_small_mod(0nat, modulus() as nat);
        }
        while i < n
            invariant
                i <= n,
                n == s@.len(),
                ten.wf() && ten@ == 10,
                acc.wf(),
                acc@ == decimal_val(s@.take(i as int)) % modulus(),
                forall|k: int| 0 <= k < i ==> is_dec_digit(#[trigger] s@[k]),
            decreases n - i,
        {
            let c = s.get_char(i);
            let code = c as u32;
            if code < 48 || code > 57 {
                return None;
            }
            let d = (code - 48) as u64;
            let shifted = fr_mul(&acc, &ten);
            let dig = Fr::from_u64(d);
            proof {
                let prefix = decimal_val(s@.take(i as int));
                let p = modulus();
                assert(s@.take(i + 1).drop_last() =~= s@.take(i as int));
                assert(decimal_val(s@.take(i + 1)) == prefix * 10 + d);
                lemma_mul_mod_noop_left(prefix, 10, p);
                lemma_small_mod(d as nat, p as nat);
                lemma_add_mod_noop(prefix * 10, d as int, p);
            }
            acc = fr_add(&shifted, &dig);
            i = i + 1;
        }
        proof {
            assert(s@.take(n as int) =~= s@);
        }
        Some(acc)
    }
}

/// The character is a decimal digit.
pub open spec fn is_dec_digit(c: char) -> bool {
    48 <= c as u32 <= 57
}

/// The integer a sequence of decimal digits denotes.
pub open spec fn decimal_val(s: Seq<char>) -> int
    decreases s.len(),
{
    if s.len() == 0 {
        0
    } else {
        decimal_val(s.drop_last()) * 10 + (s.last() as u32 - 48)
    }
}

/// The modulus equals the value of its limb form.
proof fn lemma_p_limbs_val()
    ensures
        limbs_val(P_LIMBS) == modulus(),
{
}

/// Compares the values of two limb arrays.
fn limbs_lt(a: &[u64; 4], b: &[u64; 4]) -> (r: bool)
    ensures
        r == (limbs_val(*a) < limbs_val(*b)),
{
    proof {
        lemma_limbs_ord(*a, *b);
    }
    if a[3] != b[3] {
        a[3] < b[3]
    } else if a[2] != b[2] {
        a[2] < b[2]
    } else if a[1] != b[1] {
        a[1] < b[1]
    } else {
        a[0] < b[0]
    }
}

/// Limb arrays compare by value exactly as they compare lexicographically
/// from the most significant limb down.
proof fn lemma_limbs_ord(a: [u64; 4], b: [u64; 4])
    ensures
        limbs_val(a) < limbs_val(b) <==> (if a[3] != b[3] {
            a[3] < b[3]
        } else if a[2] != b[2] {
            a[2] < b[2]
        } else if a[1] != b[1] {
            a[1] < b[1]
        } else {
            a[0] < b[0]
        }),
{
    assert(a[0] + a[1] * 0x10000000000000000int + a[2] * 0x100000000000000000000000000000000int < 0x1000000000000000000000000000000000000000000000000int);
    assert(b[0] + b[1] * 0x10000000000000000int + b[2] * 0x100000000000000000000000000000000int < 0x1000000000000000000000000000000000000000000000000int);
    assert(a[0] + a[1] * 0x10000000000000000int < 0x100000000000000000000000000000000int);
    assert(b[0] + b[1] * 0x10000000000000000int < 0x100000000000000000000000000000000int);
}

/// Relies on `halo2curves::bn256::Fr`, the same scalar field: `from_raw` maps
/// little-endian limbs to the congruent field element, `+` adds modulo the
/// field's prime, and `to_bytes` is the canonical little-endian encoding of
/// the reduced result.
#[verifier::external_body]
pub(crate) fn fr_add(a: &Fr, b: &Fr) -> (r: Fr)
    requires
        a.wf(),
        b.wf(),
    ensures
        r.wf(),
        r@ == (a@ + b@) % modulus(),
{
    let x = halo2curves::bn256::Fr::from_raw(a.limbs) + halo2curves::bn256::Fr::from_raw(b.limbs);
    Fr { limbs: limbs_from_bytes(&x.to_bytes()) }
}

/// Relies on `halo2curves::bn256::Fr`, the same scalar field: `from_raw` maps
/// little-endian limbs to the congruent field element, `*` multiplies modulo
/// the field's prime, and `to_bytes` is the canonical little-endian encoding
/// of the reduced result.
#[verifier::external_body]
pub(crate) fn fr_mul(a: &Fr, b: &Fr) -> (r: Fr)
    requires
        a.wf(),
        b.wf(),
    ensures
        r.wf(),
        r@ == (a@ * b@) % modulus(),
{
    let x = halo2curves::bn256::Fr::from_raw(a.limbs) * halo2curves::bn256::Fr::from_raw(b.limbs);
    Fr { limbs: limbs_from_bytes(&x.to_bytes()) }
}

/// Packs canonical little-endian bytes into little-endian limbs.
fn limbs_from_bytes(b: &[u8; 32]) -> [u64; 4] {
    [limb_from_bytes(b, 0), limb_from_bytes(b, 8), limb_from_bytes(b, 16), limb_from_bytes(b, 24)]
}

/// Packs eight consecutive bytes into one little-endian limb.
fn limb_from_bytes(b: &[u8; 32], off: usize) -> u64
    requires
        off + 8 <= 32,
{
    (b[off] as u64) | ((b[off + 1] as u64) << 8) | ((b[off + 2] as u64) << 16) | ((b[off + 3]
        as u64) << 24) | ((b[off + 4] as u64) << 32) | ((b[off + 5] as u64) << 40) | ((b[off + 6]
        as u64) << 48) | ((b[off + 7] as u64) << 56)
    }

} // verus!
