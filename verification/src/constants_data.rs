//! The raw limb data of the constants table, one submodule per
//! permutation width, derived with the Grain-LFSR parameter generation of
//! the Poseidon reference design (prime field of 254 bits, x^5
//! substitution, 8 full rounds).
//!
//! The spec functions [`c_data`] and [`m_data`] name the shipped data of
//! each width index; the raw values stay inside the width submodules, so
//! contracts elsewhere speak of the data by name alone. Each width's
//! accessor hands the data out as a plain vector, pinned to that name.

use vstd::prelude::*;

pub mod w2;
pub mod w3;
pub mod w4;
pub mod w5;
pub mod w6;
pub mod w7;
pub mod w8;
pub mod w9;
pub mod w10;
pub mod w11;
pub mod w12;
pub mod w13;
pub mod w14;
pub mod w15;
pub mod w16;
pub mod w17;

pub use w2::c_t2;
pub use w3::c_t3;
pub use w4::c_t4;
pub use w5::c_t5;
pub use w6::c_t6;
pub use w7::c_t7;
pub use w8::c_t8;
pub use w9::c_t9;
pub use w10::c_t10;
pub use w11::c_t11;
pub use w12::c_t12;
pub use w13::c_t13;
pub use w14::c_t14;
pub use w15::c_t15;
pub use w16::c_t16;
pub use w17::c_t17;
pub use w2::m_t2;
pub use w3::m_t3;
pub use w4::m_t4;
pub use w5::m_t5;
pub use w6::m_t6;
pub use w7::m_t7;
pub use w8::m_t8;
pub use w9::m_t9;
pub use w10::m_t10;
pub use w11::m_t11;
pub use w12::m_t12;
pub use w13::m_t13;
pub use w14::m_t14;
pub use w15::m_t15;
pub use w16::m_t16;
pub use w17::m_t17;

verus! {

/// The shipped additive-constant data of width index `w`; width `w + 2` stands at
/// index `w`.
pub open spec fn c_data(w: int) -> Seq<[u64; 4]> {
    if w == 0 {
        crate::constants_data::w2::c2_data()
    } else if w == 1 {
        crate::constants_data::w3::c3_data()
    } else if w == 2 {
        crate::constants_data::w4::c4_data()
    } else if w == 3 {
        crate::constants_data::w5::c5_data()
    } else if w == 4 {
        crate::constants_data::w6::c6_data()
    } else if w == 5 {
        crate::constants_data::w7::c7_data()
    } else if w == 6 {
        crate::constants_data::w8::c8_data()
    } else if w == 7 {
        crate::constants_data::w9::c9_data()
    } else if w == 8 {
        crate::constants_data::w10::c10_data()
    } else if w == 9 {
        crate::constants_data::w11::c11_data()
    } else if w == 10 {
        crate::constants_data::w12::c12_data()
    } else if w == 11 {
        crate::constants_data::w13::c13_data()
    } else if w == 12 {
        crate::constants_data::w14::c14_data()
    } else if w == 13 {
        crate::constants_data::w15::c15_data()
    } else if w == 14 {
        crate::constants_data::w16::c16_data()
    } else {
        crate::constants_data::w17::c17_data()
    }
}

/// The shipped row-major mixing-matrix data of width index `w`; width `w + 2` stands at
/// index `w`.
pub open spec fn m_data(w: int) -> Seq<[u64; 4]> {
    if w == 0 {
        crate::constants_data::w2::m2_data()
    } else if w == 1 {
        crate::constants_data::w3::m3_data()
    } else if w == 2 {
        crate::constants_data::w4::m4_data()
    } else if w == 3 {
        crate::constants_data::w5::m5_data()
    } else if w == 4 {
        crate::constants_data::w6::m6_data()
    } else if w == 5 {
        crate::constants_data::w7::m7_data()
    } else if w == 6 {
        crate::constants_data::w8::m8_data()
    } else if w == 7 {
        crate::constants_data::w9::m9_data()
    } else if w == 8 {
        crate::constants_data::w10::m10_data()
    } else if w == 9 {
        crate::constants_data::w11::m11_data()
    } else if w == 10 {
        crate::constants_data::w12::m12_data()
    } else if w == 11 {
        crate::constants_data::w13::m13_data()
    } else if w == 12 {
        crate::constants_data::w14::m14_data()
    } else if w == 13 {
        crate::constants_data::w15::m15_data()
    } else if w == 14 {
        crate::constants_data::w16::m16_data()
    } else {
        crate::constants_data::w17::m17_data()
    }
}

} // verus!
