//! The immutable table of additive round constants and mixing matrices.
//!
//! The raw limb data lives in [`crate::constants_data`]; [`load_constants`]
//! turns it into field elements, checking on the way that every entry is a
//! reduced field value. [`Constants::wf`] pins every loaded value to the
//! shipped data through [`c_val`] and [`m_val`], so a digest is a function
//! of the hashed inputs alone. The table is built once per
//! [`load_constants`] call and never mutated.

use vstd::prelude::*;

verus! {

use crate::constants_data::{
    c_data, c_t2, c_t3, c_t4, c_t5, c_t6, c_t7, c_t8, c_t9, c_t10, c_t11, c_t12, c_t13, c_t14,
    c_t15, c_t16, c_t17, m_data, m_t2, m_t3, m_t4, m_t5, m_t6, m_t7, m_t8, m_t9, m_t10, m_t11,
    m_t12, m_t13, m_t14, m_t15, m_t16, m_t17,
};
use crate::field::{Fr, limbs_val, modulus};

/// A raw table entry reduced into the field: an entry at or above the
/// modulus (the shipped data has none) falls back to zero.
pub open spec fn reduced(l: [u64; 4]) -> int {
    if limbs_val(l) < modulus() {
        limbs_val(l)
    } else {
        0
    }
}

/// The partial-round schedule: entry `w` belongs to width `w + 2`.
pub open spec fn np_table() -> Seq<int> {
    seq![56int, 57, 56, 60, 60, 63, 64, 63, 60, 66, 60, 65, 70, 60, 64, 68]
}

/// The partial-round count of width index `w`.
pub open spec fn np_spec(w: int) -> int {
    np_table()[w]
}

/// The value of additive round constant `j` of width index `w`.
pub open spec fn c_val(w: int, j: int) -> int {
    reduced(c_data(w)[j])
}

/// The value of entry `(i, j)` of the mixing matrix of width index `w`.
pub open spec fn m_val(w: int, i: int, j: int) -> int {
    reduced(m_data(w)[i * (w + 2) + j])
}

/// The width-indexed constants table: additive round constants `c`, mixing
/// matrices `m`, and the round schedule counts.
#[derive(Debug, Clone)]
pub struct Constants {
    pub c: Vec<Vec<Fr>>,
    pub m: Vec<Vec<Vec<Fr>>>,
    pub n_rounds_f: usize,
    pub n_rounds_p: Vec<usize>,
}

impl Constants {
    /// The table is fully loaded: eight full rounds, the fixed partial-round
    /// schedule, one additive constant per round and state slot, a square
    /// mixing matrix per width, and every entry the reduced field value of
    /// the shipped data.
    pub open spec fn wf(self) -> bool {
        &&& self.n_rounds_f == 8
        &&& self.n_rounds_p@.len() == 16
        &&& (forall|w: int| 0 <= w < 16 ==> #[trigger] self.n_rounds_p@[w] as int == np_spec(w))
        &&& self.c@.len() == 16
        &&& self.m@.len() == 16
        &&& (forall|w: int|
            0 <= w < 16 ==> (#[trigger] self.c@[w])@.len() == (8 + np_spec(w)) * (w + 2))
        &&& (forall|w: int, j: int|
            0 <= w < 16 && 0 <= j < (8 + np_spec(w)) * (w + 2) ==> (
            #[trigger] self.c@[w]@[j]).wf() && self.c@[w]@[j]@ == c_val(w, j))
        &&& (forall|w: int| 0 <= w < 16 ==> (#[trigger] self.m@[w])@.len() == w + 2)
        &&& (forall|w: int, i: int|
            0 <= w < 16 && 0 <= i < w + 2 ==> (#[trigger] self.m@[w]@[i])@.len() == w + 2)
        &&& (forall|w: int, i: int, j: int|
            0 <= w < 16 && 0 <= i < w + 2 && 0 <= j < w + 2 ==> (
            #[trigger] self.m@[w]@[i]@[j]).wf() && self.m@[w]@[i]@[j]@ == m_val(w, i, j))
    }
}

/// A raw entry as a field element, reduced as [`reduced`] says.
fn fr_reduce(l: [u64; 4]) -> (r: Fr)
    ensures
        r.wf(),
        r@ == reduced(l),
{
    match Fr::from_limbs(l) {
        Some(f) => f,
        None => Fr::zero(),
    }
}

/// Loads a run of raw entries as field elements, entry by entry.
fn load_fr_slice(data: &[[u64; 4]]) -> (v: Vec<Fr>)
    ensures
        v@.len() == data@.len(),
        forall|j: int|
            0 <= j < data@.len() ==> (#[trigger] v@[j]).wf() && v@[j]@ == reduced(data@[j]),
{
    let n = data.len();
    let mut v: Vec<Fr> = Vec::new();
    let mut j: usize = 0;
    while j < n
        invariant
            j <= n,
            n == data@.len(),
            v@.len() == j,
            forall|k: int|
                0 <= k < j ==> (#[trigger] v@[k]).wf() && v@[k]@ == reduced(data@[k]),
        decreases n - j,
    {
        v.push(fr_reduce(data[j]));
        j = j + 1;
    }
    v
}

/// Loads a row-major run of `t * t` raw entries as a square matrix of field
/// elements.
fn load_fr_matrix(data: &[[u64; 4]], t: usize) -> (mm: Vec<Vec<Fr>>)
    requires
        data@.len() == t * t,
    ensures
        mm@.len() == t,
        forall|i: int| 0 <= i < t ==> (#[trigger] mm@[i])@.len() == t,
        forall|i: int, j: int|
            0 <= i < t && 0 <= j < t ==> (#[trigger] mm@[i]@[j]).wf() && mm@[i]@[j]@ == reduced(
                data@[i * (t as int) + j],
            ),
{
    let total = data.len();
    let mut mm: Vec<Vec<Fr>> = Vec::new();
    let mut i: usize = 0;
    while i < t
        invariant
            i <= t,
            data@.len() == t * t,
            total == t * t,
            mm@.len() == i,
            forall|a: int| 0 <= a < i ==> (#[trigger] mm@[a])@.len() == t,
            forall|a: int, b: int|
                0 <= a < i && 0 <= b < t ==> (#[trigger] mm@[a]@[b]).wf() && mm@[a]@[b]@
                    == reduced(data@[a * (t as int) + b]),
        decreases t - i,
    {
        let mut row: Vec<Fr> = Vec::new();
        let mut j: usize = 0;
        while j < t
            invariant
                j <= t,
                i < t,
                data@.len() == t * t,
                total == t * t,
                row@.len() == j,
                forall|b: int|
                    0 <= b < j ==> (#[trigger] row@[b]).wf() && row@[b]@ == reduced(
                        data@[i * (t as int) + b],
                    ),
            decreases t - j,
        {
            proof {
                assert((i as int) * (t as int) + (j as int) < (t as int) * (t as int))
                    by (nonlinear_arith)
                    requires
                        0 <= i < t,
                        0 <= j < t,
                ;
            }
            row.push(fr_reduce(data[i * t + j]));
            j = j + 1;
        }
        mm.push(row);
        i = i + 1;
    }
    mm
}

/// Builds the whole constants table from the shipped data.
pub fn load_constants() -> (cs: Constants)
    ensures
        cs.wf(),
{
    let mut n_rounds_p: Vec<usize> = Vec::new();
    n_rounds_p.push(56);
    n_rounds_p.push(57);
    n_rounds_p.push(56);
    n_rounds_p.push(60);
    n_rounds_p.push(60);
    n_rounds_p.push(63);
    n_rounds_p.push(64);
    n_rounds_p.push(63);
    n_rounds_p.push(60);
    n_rounds_p.push(66);
    n_rounds_p.push(60);
    n_rounds_p.push(65);
    n_rounds_p.push(70);
    n_rounds_p.push(60);
    n_rounds_p.push(64);
    n_rounds_p.push(68);

    let mut c: Vec<Vec<Fr>> = Vec::new();
    let d = c_t2();
    c.push(load_fr_slice(d.as_slice()));
    let d = c_t3();
    c.push(load_fr_slice(d.as_slice()));
    let d = c_t4();
    c.push(load_fr_slice(d.as_slice()));
    let d = c_t5();
    c.push(load_fr_slice(d.as_slice()));
    let d = c_t6();
    c.push(load_fr_slice(d.as_slice()));
    let d = c_t7();
    c.push(load_fr_slice(d.as_slice()));
    let d = c_t8();
    c.push(load_fr_slice(d.as_slice()));
    let d = c_t9();
    c.push(load_fr_slice(d.as_slice()));
    let d = c_t10();
    c.push(load_fr_slice(d.as_slice()));
    let d = c_t11();
    c.push(load_fr_slice(d.as_slice()));
    let d = c_t12();
    c.push(load_fr_slice(d.as_slice()));
    let d = c_t13();
    c.push(load_fr_slice(d.as_slice()));
    let d = c_t14();
    c.push(load_fr_slice(d.as_slice()));
    let d = c_t15();
    c.push(load_fr_slice(d.as_slice()));
    let d = c_t16();
    c.push(load_fr_slice(d.as_slice()));
    let d = c_t17();
    c.push(load_fr_slice(d.as_slice()));

    let mut m: Vec<Vec<Vec<Fr>>> = Vec::new();
    let d = m_t2();
    m.push(load_fr_matrix(d.as_slice(), 2));
    let d = m_t3();
    m.push(load_fr_matrix(d.as_slice(), 3));
    let d = m_t4();
    m.push(load_fr_matrix(d.as_slice(), 4));
    let d = m_t5();
    m.push(load_fr_matrix(d.as_slice(), 5));
    let d = m_t6();
    m.push(load_fr_matrix(d.as_slice(), 6));
    let d = m_t7();
    m.push(load_fr_matrix(d.as_slice(), 7));
    let d = m_t8();
    m.push(load_fr_matrix(d.as_slice(), 8));
    let d = m_t9();
    m.push(load_fr_matrix(d.as_slice(), 9));
    let d = m_t10();
    m.push(load_fr_matrix(d.as_slice(), 10));
    let d = m_t11();
    m.push(load_fr_matrix(d.as_slice(), 11));
    let d = m_t12();
    m.push(load_fr_matrix(d.as_slice(), 12));
    let d = m_t13();
    m.push(load_fr_matrix(d.as_slice(), 13));
    let d = m_t14();
    m.push(load_fr_matrix(d.as_slice(), 14));
    let d = m_t15();
    m.push(load_fr_matrix(d.as_slice(), 15));
    let d = m_t16();
    m.push(load_fr_matrix(d.as_slice(), 16));
    let d = m_t17();
    m.push(load_fr_matrix(d.as_slice(), 17));

    let cs = Constants { c, m, n_rounds_f: 8, n_rounds_p };
    proof {
        assert forall|w: int| 0 <= w < 16 implies ((#[trigger] cs.c@[w])@.len() == (8
            + np_spec(w)) * (w + 2) && (cs.m@[w])@.len() == w + 2) by {
            if w == 0 {
                assert((cs.c@[0])@.len() == 128);
                assert((cs.m@[0])@.len() == 2);
            } else if w == 1 {
                assert((cs.c@[1])@.len() == 195);
                assert((cs.m@[1])@.len() == 3);
            } else if w == 2 {
                assert((cs.c@[2])@.len() == 256);
                assert((cs.m@[2])@.len() == 4);
            } else if w == 3 {
                assert((cs.c@[3])@.len() == 340);
                assert((cs.m@[3])@.len() == 5);
            } else if w == 4 {
                assert((cs.c@[4])@.len() == 408);
                assert((cs.m@[4])@.len() == 6);
            } else if w == 5 {
                assert((cs.c@[5])@.len() == 497);
                assert((cs.m@[5])@.len() == 7);
            } else if w == 6 {
                assert((cs.c@[6])@.len() == 576);
                assert((cs.m@[6])@.len() == 8);
            } else if w == 7 {
                assert((cs.c@[7])@.len() == 639);
                assert((cs.m@[7])@.len() == 9);
            } else if w == 8 {
                assert((cs.c@[8])@.len() == 680);
                assert((cs.m@[8])@.len() == 10);
            } else if w == 9 {
                assert((cs.c@[9])@.len() == 814);
                assert((cs.m@[9])@.len() == 11);
            } else if w == 10 {
                assert((cs.c@[10])@.len() == 816);
                assert((cs.m@[10])@.len() == 12);
            } else if w == 11 {
                assert((cs.c@[11])@.len() == 949);
                assert((cs.m@[11])@.len() == 13);
            } else if w == 12 {
                assert((cs.c@[12])@.len() == 1092);
                assert((cs.m@[12])@.len() == 14);
            } else if w == 13 {
                assert((cs.c@[13])@.len() == 1020);
                assert((cs.m@[13])@.len() == 15);
            } else if w == 14 {
                assert((cs.c@[14])@.len() == 1152);
                assert((cs.m@[14])@.len() == 16);
            } else {
                assert((cs.c@[15])@.len() == 1292);
                assert((cs.m@[15])@.len() == 17);
            }
        }
        assert forall|w: int, j: int| 0 <= w < 16 && 0 <= j < (8 + np_spec(w)) * (w + 2)
            implies (#[trigger] cs.c@[w]@[j]).wf() && cs.c@[w]@[j]@ == c_val(w, j) by {
            if w == 0 {
                assert((8 + np_spec(0)) * 2 == 128);
                assert((cs.c@[0])@[j]@ == reduced(c_data(0)[j]));
            } else if w == 1 {
                assert((8 + np_spec(1)) * 3 == 195);
                assert((cs.c@[1])@[j]@ == reduced(c_data(1)[j]));
            } else if w == 2 {
                assert((8 + np_spec(2)) * 4 == 256);
                assert((cs.c@[2])@[j]@ == reduced(c_data(2)[j]));
            } else if w == 3 {
                assert((8 + np_spec(3)) * 5 == 340);
                assert((cs.c@[3])@[j]@ == reduced(c_data(3)[j]));
            } else if w == 4 {
                assert((8 + np_spec(4)) * 6 == 408);
                assert((cs.c@[4])@[j]@ == reduced(c_data(4)[j]));
            } else if w == 5 {
                assert((8 + np_spec(5)) * 7 == 497);
                assert((cs.c@[5])@[j]@ == reduced(c_data(5)[j]));
            } else if w == 6 {
                assert((8 + np_spec(6)) * 8 == 576);
                assert((cs.c@[6])@[j]@ == reduced(c_data(6)[j]));
            } else if w == 7 {
                assert((8 + np_spec(7)) * 9 == 639);
                assert((cs.c@[7])@[j]@ == reduced(c_data(7)[j]));
            } else if w == 8 {
                assert((8 + np_spec(8)) * 10 == 680);
                assert((cs.c@[8])@[j]@ == reduced(c_data(8)[j]));
            } else if w == 9 {
                assert((8 + np_spec(9)) * 11 == 814);
                assert((cs.c@[9])@[j]@ == reduced(c_data(9)[j]));
            } else if w == 10 {
                assert((8 + np_spec(10)) * 12 == 816);
                assert((cs.c@[10])@[j]@ == reduced(c_data(10)[j]));
            } else if w == 11 {
                assert((8 + np_spec(11)) * 13 == 949);
                assert((cs.c@[11])@[j]@ == reduced(c_data(11)[j]));
            } else if w == 12 {
                assert((8 + np_spec(12)) * 14 == 1092);
                assert((cs.c@[12])@[j]@ == reduced(c_data(12)[j]));
            } else if w == 13 {
                assert((8 + np_spec(13)) * 15 == 1020);
                assert((cs.c@[13])@[j]@ == reduced(c_data(13)[j]));
            } else if w == 14 {
                assert((8 + np_spec(14)) * 16 == 1152);
                assert((cs.c@[14])@[j]@ == reduced(c_data(14)[j]));
            } else {
                assert((8 + np_spec(15)) * 17 == 1292);
                assert((cs.c@[15])@[j]@ == reduced(c_data(15)[j]));
            }
        }
        assert forall|w: int, i: int| 0 <= w < 16 && 0 <= i < w + 2 implies (
            #[trigger] cs.m@[w]@[i])@.len() == w + 2 by {
            if w == 0 {
                assert((cs.m@[0])@.len() == 2);
            } else if w == 1 {
                assert((cs.m@[1])@.len() == 3);
            } else if w == 2 {
                assert((cs.m@[2])@.len() == 4);
            } else if w == 3 {
                assert((cs.m@[3])@.len() == 5);
            } else if w == 4 {
                assert((cs.m@[4])@.len() == 6);
            } else if w == 5 {
                assert((cs.m@[5])@.len() == 7);
            } else if w == 6 {
                assert((cs.m@[6])@.len() == 8);
            } else if w == 7 {
                assert((cs.m@[7])@.len() == 9);
            } else if w == 8 {
                assert((cs.m@[8])@.len() == 10);
            } else if w == 9 {
                assert((cs.m@[9])@.len() == 11);
            } else if w == 10 {
                assert((cs.m@[10])@.len() == 12);
            } else if w == 11 {
                assert((cs.m@[11])@.len() == 13);
            } else if w == 12 {
                assert((cs.m@[12])@.len() == 14);
            } else if w == 13 {
                assert((cs.m@[13])@.len() == 15);
            } else if w == 14 {
                assert((cs.m@[14])@.len() == 16);
            } else {
                assert((cs.m@[15])@.len() == 17);
            }
        }
        assert forall|w: int, i: int, j: int| 0 <= w < 16 && 0 <= i < w + 2 && 0 <= j < w
            + 2 implies (#[trigger] cs.m@[w]@[i]@[j]).wf() && cs.m@[w]@[i]@[j]@ == m_val(
            w, i, j) by {
            if w == 0 {
                assert((cs.m@[0])@.len() == 2);
                assert((cs.m@[0])@[i]@[j]@ == reduced(m_data(0)[i * 2 + j]));
            } else if w == 1 {
                assert((cs.m@[1])@.len() == 3);
                assert((cs.m@[1])@[i]@[j]@ == reduced(m_data(1)[i * 3 + j]));
            } else if w == 2 {
                assert((cs.m@[2])@.len() == 4);
                assert((cs.m@[2])@[i]@[j]@ == reduced(m_data(2)[i * 4 + j]));
            } else if w == 3 {
                assert((cs.m@[3])@.len() == 5);
                assert((cs.m@[3])@[i]@[j]@ == reduced(m_data(3)[i * 5 + j]));
            } else if w == 4 {
                assert((cs.m@[4])@.len() == 6);
                assert((cs.m@[4])@[i]@[j]@ == reduced(m_data(4)[i * 6 + j]));
            } else if w == 5 {
                assert((cs.m@[5])@.len() == 7);
                assert((cs.m@[5])@[i]@[j]@ == reduced(m_data(5)[i * 7 + j]));
            } else if w == 6 {
                assert((cs.m@[6])@.len() == 8);
                assert((cs.m@[6])@[i]@[j]@ == reduced(m_data(6)[i * 8 + j]));
            } else if w == 7 {
                assert((cs.m@[7])@.len() == 9);
                assert((cs.m@[7])@[i]@[j]@ == reduced(m_data(7)[i * 9 + j]));
            } else if w == 8 {
                assert((cs.m@[8])@.len() == 10);
                assert((cs.m@[8])@[i]@[j]@ == reduced(m_data(8)[i * 10 + j]));
            } else if w == 9 {
                assert((cs.m@[9])@.len() == 11);
                assert((cs.m@[9])@[i]@[j]@ == reduced(m_data(9)[i * 11 + j]));
            } else if w == 10 {
                assert((cs.m@[10])@.len() == 12);
                assert((cs.m@[10])@[i]@[j]@ == reduced(m_data(10)[i * 12 + j]));
            } else if w == 11 {
                assert((cs.m@[11])@.len() == 13);
                assert((cs.m@[11])@[i]@[j]@ == reduced(m_data(11)[i * 13 + j]));
            } else if w == 12 {
                assert((cs.m@[12])@.len() == 14);
                assert((cs.m@[12])@[i]@[j]@ == reduced(m_data(12)[i * 14 + j]));
            } else if w == 13 {
                assert((cs.m@[13])@.len() == 15);
                assert((cs.m@[13])@[i]@[j]@ == reduced(m_data(13)[i * 15 + j]));
            } else if w == 14 {
                assert((cs.m@[14])@.len() == 16);
                assert((cs.m@[14])@[i]@[j]@ == reduced(m_data(14)[i * 16 + j]));
            } else {
                assert((cs.m@[15])@.len() == 17);
                assert((cs.m@[15])@[i]@[j]@ == reduced(m_data(15)[i * 17 + j]));
            }
        }
    }
    cs
}

} // verus!
