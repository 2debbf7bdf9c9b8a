//! The fixed-width permutation and the hash built on it.
//!
//! A hash call builds a state of `t = inputs + 1` field elements (slot 0 is
//! the capacity slot), then runs `8 + n_rounds_p[t - 2]` rounds. Each round
//! adds one table constant per slot, raises either every slot or only slot 0
//! to the fifth power, and replaces the state with a matrix-vector product.
//! The digest is slot 0 after the last round. The spec functions below state
//! each step over the integers modulo the field's prime, and every exec
//! function is proved to match them.

use vstd::prelude::*;

verus! {

use vstd::seq_lib::*;
use crate::constants::{Constants, c_val, load_constants, m_val, np_spec};
use crate::field::{Fr, all_wf, fr_add, fr_mul, modulus, vals};

/// Why a hash request was rejected: the absorbed-element count is zero or
/// above the widest table entry; carries the maximum and the actual count.
#[derive(Debug, Clone, Copy, PartialEq, Eq, Structural)]
pub enum PoseidonError {
    WrongInputsLength(usize, usize),
}

/// The fifth power modulo the field's prime, squared twice then multiplied
/// once, each step reduced.
pub open spec fn pow5_mod(x: int) -> int {
    let x2 = (x * x) % modulus();
    let x4 = (x2 * x2) % modulus();
    (x4 * x) % modulus()
}

/// Round `i` applies the substitution to every slot (a full round) or to
/// slot 0 alone (a partial round).
pub open spec fn is_full_round(nf: int, np: int, i: int) -> bool {
    i < nf / 2 || i >= nf / 2 + np
}

/// The add-round-constants step: slot `j` gains constant `it + j`.
pub open spec fn ark_step(s: Seq<int>, c: Seq<int>, it: int) -> Seq<int> {
    Seq::new(s.len(), |j: int| (s[j] + c[it + j]) % modulus())
}

/// The substitution step of round `i`.
pub open spec fn sbox_step(nf: int, np: int, s: Seq<int>, i: int) -> Seq<int> {
    Seq::new(
        s.len(),
        |j: int|
            if is_full_round(nf, np, i) || j == 0 {
                pow5_mod(s[j])
            } else {
                s[j]
            },
    )
}

/// The first `n` terms of a row-times-state product, each term and each
/// partial sum reduced.
pub open spec fn dot_mod(row: Seq<int>, s: Seq<int>, n: int) -> int
    decreases n,
{
    if n <= 0 {
        0
    } else {
        (dot_mod(row, s, n - 1) + (row[n - 1] * s[n - 1]) % modulus()) % modulus()
    }
}

/// The linear mixing step: the state becomes the matrix-vector product.
pub open spec fn mix_step(s: Seq<int>, m: Seq<Seq<int>>) -> Seq<int> {
    Seq::new(s.len(), |i: int| dot_mod(m[i], s, s.len() as int))
}

/// One full round: constants, substitution, mixing.
pub open spec fn round_step(
    c: Seq<int>,
    m: Seq<Seq<int>>,
    nf: int,
    np: int,
    t: int,
    s: Seq<int>,
    i: int,
) -> Seq<int> {
    mix_step(sbox_step(nf, np, ark_step(s, c, i * t), i), m)
}

/// The state after the first `r` rounds.
pub open spec fn rounds_spec(
    c: Seq<int>,
    m: Seq<Seq<int>>,
    nf: int,
    np: int,
    t: int,
    s: Seq<int>,
    r: int,
) -> Seq<int>
    decreases r,
{
    if r <= 0 {
        s
    } else {
        round_step(c, m, nf, np, t, rounds_spec(c, m, nf, np, t, s, r - 1), r - 1)
    }
}

/// Rounds keep the state length.
pub proof fn lemma_rounds_len(
    c: Seq<int>,
    m: Seq<Seq<int>>,
    nf: int,
    np: int,
    t: int,
    s: Seq<int>,
    r: int,
)
    ensures
        rounds_spec(c, m, nf, np, t, s, r).len() == s.len(),
    decreases r,
{
    if r > 0 {
        lemma_rounds_len(c, m, nf, np, t, s, r - 1);
    }
}

/// The values of the shipped additive constants of width index `w`.
pub open spec fn shipped_c_ints(w: int) -> Seq<int> {
    Seq::new(((8 + np_spec(w)) * (w + 2)) as nat, |j: int| c_val(w, j))
}

/// The values of the shipped mixing matrix of width index `w`, row by row.
pub open spec fn shipped_m_ints(w: int) -> Seq<Seq<int>> {
    Seq::new((w + 2) as nat, |i: int| Seq::new((w + 2) as nat, |j: int| m_val(w, i, j)))
}

/// The digest of `inp`: slot 0 after all rounds of the width-`inp.len() + 1`
/// permutation under the shipped table, run on the state `0` followed by
/// `inp`. A function of the hashed values alone.
pub open spec fn poseidon_digest(inp: Seq<int>) -> int
    recommends
        1 <= inp.len() <= 16,
{
    let w = inp.len() as int - 1;
    let t = inp.len() as int + 1;
    let np = np_spec(w);
    rounds_spec(shipped_c_ints(w), shipped_m_ints(w), 8, np, t, seq![0int] + inp, 8 + np)[0]
}

/// A row-times-state product over field elements equals [`dot_mod`] of any
/// integer sequences that agree with the element values.
proof fn lemma_dot_bridge(row: Seq<Fr>, s: Seq<Fr>, cr: Seq<int>, cs: Seq<int>, n: int)
    requires
        forall|k: int| 0 <= k < n ==> cr[k] == (#[trigger] row[k])@,
        forall|k: int| 0 <= k < n ==> cs[k] == (#[trigger] s[k])@,
    ensures
        dot_mod(cr, cs, n) == dot_fr(row, s, n),
    decreases n,
{
    if n > 0 {
        lemma_dot_bridge(row, s, cr, cs, n - 1);
    }
}

/// The first `n` terms of a row-times-state product of field elements.
pub open spec fn dot_fr(row: Seq<Fr>, s: Seq<Fr>, n: int) -> int
    decreases n,
{
    if n <= 0 {
        0
    } else {
        (dot_fr(row, s, n - 1) + (row[n - 1]@ * s[n - 1]@) % modulus()) % modulus()
    }
}

/// The permutation engine: the constants table, loaded once at construction.
#[derive(Debug, Clone)]
pub struct Poseidon {
    constants: Constants,
}

impl Poseidon {
    /// The table behind this engine.
    pub closed spec fn table(&self) -> Constants {
        self.constants
    }

    /// The held table is fully loaded.
    pub open spec fn wf(&self) -> bool {
        self.table().wf()
    }

    /// Builds an engine over the shipped constants table.
    pub fn new() -> (p: Poseidon)
        ensures
            p.wf(),
    {
        Poseidon { constants: load_constants() }
    }

    /// Adds to each state slot the constant at offset `it` plus the slot
    /// index.
    pub fn ark(&self, state: &mut Vec<Fr>, c: &Vec<Fr>, it: usize)
        requires
            all_wf(old(state)@),
            all_wf(c@),
            it + old(state)@.len() <= c@.len(),
        ensures
            final(state)@.len() == old(state)@.len(),
            all_wf(final(state)@),
            forall|j: int|
                0 <= j < old(state)@.len() ==> final(state)@[j]@ == (old(state)@[j]@ + c@[it + j]@)
                    % modulus(),
    {
        let n = state.len();
        let clen = c.len();
        let mut i: usize = 0;
        while i < n
            invariant
                i <= n,
                n == state@.len(),
                n == old(state)@.len(),
                it + n <= c@.len(),
                clen == c@.len(),
                all_wf(c@),
                all_wf(state@),
                forall|j: int| i <= j < n ==> state@[j] == old(state)@[j],
                forall|j: int|
                    0 <= j < i ==> state@[j]@ == (old(state)@[j]@ + c@[it + j]@) % modulus(),
            decreases n - i,
        {
            let next = fr_add(&state[i], &c[it + i]);
            state.set(i, next);
            i = i + 1;
        }
    }

    /// Raises every slot to the fifth power in a full round, and slot 0
    /// alone in a partial round.
    pub fn sbox(&self, n_rounds_f: usize, n_rounds_p: usize, state: &mut Vec<Fr>, i: usize)
        requires
            all_wf(old(state)@),
            old(state)@.len() >= 1,
            n_rounds_f / 2 + n_rounds_p <= usize::MAX,
        ensures
            final(state)@.len() == old(state)@.len(),
            all_wf(final(state)@),
            forall|j: int|
                0 <= j < old(state)@.len() ==> final(state)@[j]@ == (if is_full_round(
                    n_rounds_f as int,
                    n_rounds_p as int,
                    i as int,
                ) || j == 0 {
                    pow5_mod(old(state)@[j]@)
                } else {
                    old(state)@[j]@
                }),
    {
        if i < n_rounds_f / 2 || i >= n_rounds_f / 2 + n_rounds_p {
            let n = state.len();
            let mut j: usize = 0;
            while j < n
                invariant
                    j <= n,
                    n == state@.len(),
                    n == old(state)@.len(),
                    all_wf(state@),
                    forall|k: int| j <= k < n ==> state@[k] == old(state)@[k],
                    forall|k: int| 0 <= k < j ==> state@[k]@ == pow5_mod(old(state)@[k]@),
                decreases n - j,
            {
                let aux = state[j];
                let x2 = fr_mul(&aux, &aux);
                let x4 = fr_mul(&x2, &x2);
                state.set(j, fr_mul(&x4, &aux));
                j = j + 1;
            }
        } else {
            let aux = state[0];
            let x2 = fr_mul(&aux, &aux);
            let x4 = fr_mul(&x2, &x2);
            state.set(0, fr_mul(&x4, &aux));
        }
    }

    /// The matrix-vector product of the mixing matrix and the state.
    pub fn mix(&self, state: &Vec<Fr>, m: &Vec<Vec<Fr>>) -> (r: Vec<Fr>)
        requires
            all_wf(state@),
            m@.len() >= state@.len(),
            forall|i: int| 0 <= i < state@.len() ==> (#[trigger] m@[i])@.len() >= state@.len(),
            forall|i: int, j: int|
                0 <= i < state@.len() && 0 <= j < state@.len() ==> (#[trigger] m@[i]@[j]).wf(),
        ensures
            r@.len() == state@.len(),
            all_wf(r@),
            forall|i: int|
                0 <= i < state@.len() ==> r@[i]@ == dot_fr(m@[i]@, state@, state@.len() as int),
    {
        let n = state.len();
        let mut new_state: Vec<Fr> = Vec::new();
        let mut i: usize = 0;
        while i < n
            invariant
                i <= n,
                n == state@.len(),
                all_wf(state@),
                m@.len() >= n,
                forall|a: int| 0 <= a < n ==> (#[trigger] m@[a])@.len() >= n,
                forall|a: int, b: int| 0 <= a < n && 0 <= b < n ==> (#[trigger] m@[a]@[b]).wf(),
                new_state@.len() == i,
                all_wf(new_state@),
                forall|a: int| 0 <= a < i ==> new_state@[a]@ == dot_fr(m@[a]@, state@, n as int),
            decreases n - i,
        {
            let mut acc = Fr::zero();
            let mut j: usize = 0;
            while j < n
                invariant
                    j <= n,
                    i < n,
                    n == state@.len(),
                    all_wf(state@),
                    m@.len() >= n,
                    forall|a: int| 0 <= a < n ==> (#[trigger] m@[a])@.len() >= n,
                    forall|a: int, b: int|
                        0 <= a < n && 0 <= b < n ==> (#[trigger] m@[a]@[b]).wf(),
                    acc.wf(),
                    acc@ == dot_fr(m@[i as int]@, state@, j as int),
                decreases n - j,
            {
                let term = fr_mul(&m[i][j], &state[j]);
                acc = fr_add(&acc, &term);
                j = j + 1;
            }
            new_state.push(acc);
            i = i + 1;
        }
        new_state
    }

    /// The digest of the absorbed elements, or the length error when their
    /// count is zero or above the widest table entry.
    pub fn hash(&self, inp: Vec<Fr>) -> (r: Result<Fr, PoseidonError>)
        requires
            self.wf(),
            all_wf(inp@),
        ensures
            1 <= inp@.len() <= 16 ==> r is Ok && r->Ok_0.wf() && r->Ok_0@ == poseidon_digest(
                vals(inp@),
            ),
            !(1 <= inp@.len() <= 16) ==> r == Err::<Fr, PoseidonError>(
                PoseidonError::WrongInputsLength(16, inp@.len() as usize),
            ),
    {
        let n = inp.len();
        if n == 0 || n > self.constants.n_rounds_p.len() {
            return Err(PoseidonError::WrongInputsLength(self.constants.n_rounds_p.len(), n));
        }
        let t = n + 1;
        let w = n - 1;
        let n_rounds_f = self.constants.n_rounds_f;
        let n_rounds_p = self.constants.n_rounds_p[w];

        let mut state: Vec<Fr> = Vec::new();
        state.push(Fr::zero());
        let mut k: usize = 0;
        while k < n
            invariant
                k <= n,
                n == inp@.len(),
                all_wf(inp@),
                state@.len() == k + 1,
                all_wf(state@),
                state@[0]@ == 0,
                forall|j: int| 1 <= j < k + 1 ==> state@[j] == inp@[j - 1],
            decreases n - k,
        {
            state.push(inp[k]);
            k = k + 1;
        }

        let ghost c_seq = shipped_c_ints(w as int);
        let ghost m_seq = shipped_m_ints(w as int);
        let ghost init = seq![0int] + vals(inp@);
        let ghost np = np_spec(w as int);
        proof {
            assert(init.len() == t);
            assert forall|j: int| 0 <= j < t implies state@[j]@ == init[j] by {
                if j >= 1 {
                    assert(state@[j] == inp@[j - 1]);
                }
            }
            assert(n_rounds_p == np);
        }

        let rounds = n_rounds_f + n_rounds_p;
        let mut i: usize = 0;
        while i < rounds
            invariant
                i <= rounds,
                self.wf(),
                1 <= n <= 16,
                t == n + 1,
                w == n - 1,
                n_rounds_f == 8,
                n_rounds_p == np,
                np == np_spec(w as int),
                rounds == 8 + np,
                c_seq == shipped_c_ints(w as int),
                m_seq == shipped_m_ints(w as int),
                init == seq![0int] + vals(inp@),
                init.len() == t,
                n == inp@.len(),
                state@.len() == t,
                all_wf(state@),
                forall|j: int|
                    0 <= j < t ==> state@[j]@ == rounds_spec(
                        c_seq,
                        m_seq,
                        8,
                        np,
                        t as int,
                        init,
                        i as int,
                    )[j],
            decreases rounds - i,
        {
            let ghost prev = rounds_spec(c_seq, m_seq, 8, np, t as int, init, i as int);
            let ghost s1 = ark_step(prev, c_seq, i as int * t as int);
            let ghost s2 = sbox_step(8, np, s1, i as int);
            let ghost s3 = mix_step(s2, m_seq);
            proof {
                lemma_rounds_len(c_seq, m_seq, 8, np, t as int, init, i as int);
                assert((i as int) * (t as int) + (t as int) <= (8 + np) * (t as int))
                    by (nonlinear_arith)
                    requires
                        i as int + 1 <= 8 + np,
                        t as int >= 0,
                ;
                assert(c_seq.len() == (8 + np) * (t as int));
                assert(np <= 70);
                assert((i as int) * (t as int) <= 1326) by (nonlinear_arith)
                    requires
                        0 <= i as int <= 78,
                        0 <= t as int <= 17,
                ;
            }
            let cvec = &self.constants.c[w];
            self.ark(&mut state, cvec, i * t);
            proof {
                assert forall|j: int| 0 <= j < t implies state@[j]@ == s1[j] by {
                    let idx = i as int * t as int + j;
                    assert(cvec@[idx]@ == c_val(w as int, idx));
                    assert(c_seq[idx] == c_val(w as int, idx));
                }
            }
            self.sbox(n_rounds_f, n_rounds_p, &mut state, i);
            proof {
                assert forall|j: int| 0 <= j < t implies state@[j]@ == s2[j] by {
                    assert(s2[j] == (if is_full_round(8, np, i as int) || j == 0 {
                        pow5_mod(s1[j])
                    } else {
                        s1[j]
                    }));
                }
            }
            let mixed = self.mix(&state, &self.constants.m[w]);
            proof {
                assert forall|j: int| 0 <= j < t implies mixed@[j]@ == s3[j] by {
                    assert forall|k: int| 0 <= k < t implies m_seq[j][k] == (
                    #[trigger] self.constants.m@[w as int]@[j]@[k])@ by {
                        assert(self.constants.m@[w as int]@[j]@[k]@ == m_val(w as int, j, k));
                    }
                    lemma_dot_bridge(
                        self.constants.m@[w as int]@[j]@,
                        state@,
                        m_seq[j],
                        s2,
                        t as int,
                    );
                }
                assert(rounds_spec(c_seq, m_seq, 8, np, t as int, init, i as int + 1) == s3);
            }
            state = mixed;
            i = i + 1;
        }
        Ok(state[0])
    }
}

} // verus!
