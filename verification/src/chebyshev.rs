//! Chebyshev series evaluation and the I0 coefficient tables.
//!
//! `chbevl` runs the standard Clenshaw three-term recurrence (running sums
//! b0, b1, b2) over a coefficient table given highest degree first, for an
//! argument the caller has already mapped into [-1, 1]. The two tables
//! approximate exp(-x)*I0(x) on [0, 8] and exp(-x)*sqrt(x)*I0(x) on the
//! inverted interval [8, inf); they are the binary64 patterns of the
//! tabulated constants, and their binary32 counterparts rounded from the
//! same constants.
use vstd::prelude::*;
use crate::arith::{
    add32, add32_bits, add64, add64_bits, mul32, mul32_bits, mul64, mul64_bits, sub32, sub32_bits,
    sub64, sub64_bits,
};
use crate::bits64::{HALF_64, ZERO_64};
use crate::bits32::{HALF_32, ZERO_32};

verus! {

/// Coefficients for exp(-x)*I0(x) on [0, 8], binary64, highest degree first.
pub open spec fn i0_coeffs_a64() -> Seq<u64> {
    seq![
        0xBC545CB72134D0EFu64,
        0x3C833362977DA589u64,
        0xBCB184EB721EBBB4u64,
        0x3CDEE6D893F65EBAu64,
        0xBD0A5022C297FBEBu64,
        0x3D359B464B262627u64,
        0xBD61164C62EE1AF0u64,
        0x3D89FE2FE19BD324u64,
        0xBDB2FC957A946ABCu64,
        0x3DDA98BECC743C10u64,
        0xBE01D4FE13AE9556u64,
        0x3E26D903A454CB34u64,
        0xBE4BEAF68C0B30ABu64,
        0x3E703B769D4D6435u64,
        0xBE91EC638F227F8Du64,
        0x3EB2BF24978CF4ACu64,
        0xBED2866FCBA56427u64,
        0x3EF13F58BE9A2859u64,
        0xBF0E2B2659C41D5Au64,
        0x3F28B51B74107CABu64,
        0xBF42E2FD1F15EB52u64,
        0x3F5ADC758A12100Eu64,
        0xBF71B65E201AA849u64,
        0x3F859961F3DDE3DDu64,
        0xBF984E9EF121B6F0u64,
        0x3FA93E8ACEA8A32Du64,
        0xBFB84B70342D06EAu64,
        0x3FC5F7AC77AC88C0u64,
        0xBFD37FEBC057CD8Du64,
        0x3FE5A84E9035A22Au64,
    ]
}


/// Coefficients for exp(-x)*sqrt(x)*I0(x) on [8, inf), binary64.
pub open spec fn i0_coeffs_b64() -> Seq<u64> {
    seq![
        0xBC60ADB754CA8B19u64,
        0xBC5646DA66119130u64,
        0x3C89BE1812D98421u64,
        0x3C83F3DD076041CDu64,
        0xBCB4600BABD21FE4u64,
        0xBCB8AEE7D908DE38u64,
        0x3CDFEE7DA3EAFB1Fu64,
        0x3CF12A919094E6D7u64,
        0xBD0583FE7E65629Au64,
        0xBD275D99CF68BB32u64,
        0x3D1156FF0D5FC545u64,
        0x3D5B1C8C6B83C073u64,
        0x3D694347FA268CECu64,
        0xBD7F904303178D66u64,
        0xBDAD0FD7357E7BF2u64,
        0xBDC1511D08397425u64,
        0x3DAA24FEABE8004Fu64,
        0x3E00F9CCC0F46F75u64,
        0x3E2D2C64A9225B87u64,
        0x3E58569280D6D56Du64,
        0x3E8B8007D9CD616Eu64,
        0x3EC8412BC101C586u64,
        0x3F120FA378999E52u64,
        0x3F6B998CA2E59049u64,
        0x3FE9BE62ACA809CBu64,
    ]
}


/// Coefficients for exp(-x)*I0(x) on [0, 8], binary32, highest degree first.
pub open spec fn i0_coeffs_a32() -> Seq<u32> {
    seq![
        0xA2A2E5B9u32,
        0x24199B15u32,
        0xA58C275Cu32,
        0x26F736C5u32,
        0xA8528116u32,
        0x29ACDA32u32,
        0xAB08B263u32,
        0x2C4FF17Fu32,
        0xAD97E4ACu32,
        0x2ED4C5F6u32,
        0xB00EA7F1u32,
        0x3136C81Du32,
        0xB25F57B4u32,
        0x3381DBB5u32,
        0xB48F631Cu32,
        0x3595F925u32,
        0xB694337Eu32,
        0x3789FAC6u32,
        0xB8715933u32,
        0x3945A8DCu32,
        0xBA1717E9u32,
        0x3AD6E3ACu32,
        0xBB8DB2F1u32,
        0x3C2CCB10u32,
        0xBCC274F8u32,
        0x3D49F456u32,
        0xBDC25B82u32,
        0x3E2FBD64u32,
        0xBE9BFF5Eu32,
        0x3F2D4275u32,
    ]
}


/// Coefficients for exp(-x)*sqrt(x)*I0(x) on [8, inf), binary32.
pub open spec fn i0_coeffs_b32() -> Seq<u32> {
    seq![
        0xA3056DBBu32,
        0xA2B236D3u32,
        0x244DF0C1u32,
        0x241F9EE8u32,
        0xA5A3005Du32,
        0xA5C5773Fu32,
        0x26FF73EDu32,
        0x2789548Du32,
        0xA82C1FF4u32,
        0xA93AECCEu32,
        0x288AB7F8u32,
        0x2AD8E463u32,
        0x2B4A1A40u32,
        0xABFC8218u32,
        0xAD687EBAu32,
        0xAE0A88E8u32,
        0x2D5127F5u32,
        0x3007CE66u32,
        0x31696325u32,
        0x32C2B494u32,
        0x345C003Fu32,
        0x3642095Eu32,
        0x38907D1Cu32,
        0x3B5CCC65u32,
        0x3F4DF315u32,
    ]
}


/// The bounded-interval binary64 table, as a vector for evaluation.
pub fn i0_table_a64() -> (r: Vec<u64>)
    ensures
        r@ == i0_coeffs_a64(),
{
    let mut v: Vec<u64> = Vec::new();
    v.push(0xBC545CB72134D0EFu64);
    v.push(0x3C833362977DA589u64);
    v.push(0xBCB184EB721EBBB4u64);
    v.push(0x3CDEE6D893F65EBAu64);
    v.push(0xBD0A5022C297FBEBu64);
    v.push(0x3D359B464B262627u64);
    v.push(0xBD61164C62EE1AF0u64);
    v.push(0x3D89FE2FE19BD324u64);
    v.push(0xBDB2FC957A946ABCu64);
    v.push(0x3DDA98BECC743C10u64);
    v.push(0xBE01D4FE13AE9556u64);
    v.push(0x3E26D903A454CB34u64);
    v.push(0xBE4BEAF68C0B30ABu64);
    v.push(0x3E703B769D4D6435u64);
    v.push(0xBE91EC638F227F8Du64);
    v.push(0x3EB2BF24978CF4ACu64);
    v.push(0xBED2866FCBA56427u64);
    v.push(0x3EF13F58BE9A2859u64);
    v.push(0xBF0E2B2659C41D5Au64);
    v.push(0x3F28B51B74107CABu64);
    v.push(0xBF42E2FD1F15EB52u64);
    v.push(0x3F5ADC758A12100Eu64);
    v.push(0xBF71B65E201AA849u64);
    v.push(0x3F859961F3DDE3DDu64);
    v.push(0xBF984E9EF121B6F0u64);
    v.push(0x3FA93E8ACEA8A32Du64);
    v.push(0xBFB84B70342D06EAu64);
    v.push(0x3FC5F7AC77AC88C0u64);
    v.push(0xBFD37FEBC057CD8Du64);
    v.push(0x3FE5A84E9035A22Au64);
    proof {
        assert(v@ =~= i0_coeffs_a64());
    }
    v
}


/// The inverted-interval binary64 table, as a vector for evaluation.
pub fn i0_table_b64() -> (r: Vec<u64>)
    ensures
        r@ == i0_coeffs_b64(),
{
    let mut v: Vec<u64> = Vec::new();
    v.push(0xBC60ADB754CA8B19u64);
    v.push(0xBC5646DA66119130u64);
    v.push(0x3C89BE1812D98421u64);
    v.push(0x3C83F3DD076041CDu64);
    v.push(0xBCB4600BABD21FE4u64);
    v.push(0xBCB8AEE7D908DE38u64);
    v.push(0x3CDFEE7DA3EAFB1Fu64);
    v.push(0x3CF12A919094E6D7u64);
    v.push(0xBD0583FE7E65629Au64);
    v.push(0xBD275D99CF68BB32u64);
    v.push(0x3D1156FF0D5FC545u64);
    v.push(0x3D5B1C8C6B83C073u64);
    v.push(0x3D694347FA268CECu64);
    v.push(0xBD7F904303178D66u64);
    v.push(0xBDAD0FD7357E7BF2u64);
    v.push(0xBDC1511D08397425u64);
    v.push(0x3DAA24FEABE8004Fu64);
    v.push(0x3E00F9CCC0F46F75u64);
    v.push(0x3E2D2C64A9225B87u64);
    v.push(0x3E58569280D6D56Du64);
    v.push(0x3E8B8007D9CD616Eu64);
    v.push(0x3EC8412BC101C586u64);
    v.push(0x3F120FA378999E52u64);
    v.push(0x3F6B998CA2E59049u64);
    v.push(0x3FE9BE62ACA809CBu64);
    proof {
        assert(v@ =~= i0_coeffs_b64());
    }
    v
}


/// The bounded-interval binary32 table, as a vector for evaluation.
pub fn i0_table_a32() -> (r: Vec<u32>)
    ensures
        r@ == i0_coeffs_a32(),
{
    let mut v: Vec<u32> = Vec::new();
    v.push(0xA2A2E5B9u32);
    v.push(0x24199B15u32);
    v.push(0xA58C275Cu32);
    v.push(0x26F736C5u32);
    v.push(0xA8528116u32);
    v.push(0x29ACDA32u32);
    v.push(0xAB08B263u32);
    v.push(0x2C4FF17Fu32);
    v.push(0xAD97E4ACu32);
    v.push(0x2ED4C5F6u32);
    v.push(0xB00EA7F1u32);
    v.push(0x3136C81Du32);
    v.push(0xB25F57B4u32);
    v.push(0x3381DBB5u32);
    v.push(0xB48F631Cu32);
    v.push(0x3595F925u32);
    v.push(0xB694337Eu32);
    v.push(0x3789FAC6u32);
    v.push(0xB8715933u32);
    v.push(0x3945A8DCu32);
    v.push(0xBA1717E9u32);
    v.push(0x3AD6E3ACu32);
    v.push(0xBB8DB2F1u32);
    v.push(0x3C2CCB10u32);
    v.push(0xBCC274F8u32);
    v.push(0x3D49F456u32);
    v.push(0xBDC25B82u32);
    v.push(0x3E2FBD64u32);
    v.push(0xBE9BFF5Eu32);
    v.push(0x3F2D4275u32);
    proof {
        assert(v@ =~= i0_coeffs_a32());
    }
    v
}


/// The inverted-interval binary32 table, as a vector for evaluation.
pub fn i0_table_b32() -> (r: Vec<u32>)
    ensures
        r@ == i0_coeffs_b32(),
{
    let mut v: Vec<u32> = Vec::new();
    v.push(0xA3056DBBu32);
    v.push(0xA2B236D3u32);
    v.push(0x244DF0C1u32);
    v.push(0x241F9EE8u32);
    v.push(0xA5A3005Du32);
    v.push(0xA5C5773Fu32);
    v.push(0x26FF73EDu32);
    v.push(0x2789548Du32);
    v.push(0xA82C1FF4u32);
    v.push(0xA93AECCEu32);
    v.push(0x288AB7F8u32);
    v.push(0x2AD8E463u32);
    v.push(0x2B4A1A40u32);
    v.push(0xABFC8218u32);
    v.push(0xAD687EBAu32);
    v.push(0xAE0A88E8u32);
    v.push(0x2D5127F5u32);
    v.push(0x3007CE66u32);
    v.push(0x31696325u32);
    v.push(0x32C2B494u32);
    v.push(0x345C003Fu32);
    v.push(0x3642095Eu32);
    v.push(0x38907D1Cu32);
    v.push(0x3B5CCC65u32);
    v.push(0x3F4DF315u32);
    proof {
        assert(v@ =~= i0_coeffs_b32());
    }
    v
}


/// The Clenshaw running sums after processing coefficients 0..=i: the triple
/// (b0, b1, b2), starting from (c[0], 0, 0) and stepping with
/// b0 <- x*b0_prev - b1_prev + c[i].
pub open spec fn chb_state64(x: u64, c: Seq<u64>, i: int) -> (u64, u64, u64)
    decreases i,
{
    if i <= 0 {
        (c[0], ZERO_64, ZERO_64)
    } else {
        let prev = chb_state64(x, c, i - 1);
        (add64_bits(sub64_bits(mul64_bits(x, prev.0), prev.1), c[i]), prev.0, prev.1)
    }
}

/// See `chb_state64`.
pub open spec fn chb_state32(x: u32, c: Seq<u32>, i: int) -> (u32, u32, u32)
    decreases i,
{
    if i <= 0 {
        (c[0], ZERO_32, ZERO_32)
    } else {
        let prev = chb_state32(x, c, i - 1);
        (add32_bits(sub32_bits(mul32_bits(x, prev.0), prev.1), c[i]), prev.0, prev.1)
    }
}

/// The value of the Chebyshev series over table `c` at `x`:
/// 0.5 * (b0 - b2) after the last Clenshaw step.
pub open spec fn chbevl_spec64(x: u64, c: Seq<u64>) -> u64 {
    let s = chb_state64(x, c, c.len() - 1);
    mul64_bits(HALF_64, sub64_bits(s.0, s.2))
}

/// See `chbevl_spec64`.
pub open spec fn chbevl_spec32(x: u32, c: Seq<u32>) -> u32 {
    let s = chb_state32(x, c, c.len() - 1);
    mul32_bits(HALF_32, sub32_bits(s.0, s.2))
}

/// Evaluates the Chebyshev series with binary64 coefficient table `c`,
/// highest degree first, at `x`, which the caller maps into [-1, 1].
pub fn chbevl64(x: u64, c: &Vec<u64>) -> (r: u64)
    requires
        c.len() >= 1,
    ensures
        r == chbevl_spec64(x, c@),
{
    let mut b0: u64 = c[0];
    let mut b1: u64 = ZERO_64;
    let mut b2: u64 = ZERO_64;
    let mut i: usize = 1;
    while i < c.len()
        invariant
            1 <= i <= c.len(),
            (b0, b1, b2) == chb_state64(x, c@, i - 1),
        decreases c.len() - i,
    {
        b2 = b1;
        b1 = b0;
        b0 = add64(sub64(mul64(x, b1), b2), c[i]);
        i = i + 1;
    }
    mul64(HALF_64, sub64(b0, b2))
}

/// Evaluates the Chebyshev series with binary32 coefficient table `c`,
/// highest degree first, at `x`, which the caller maps into [-1, 1].
pub fn chbevl32(x: u32, c: &Vec<u32>) -> (r: u32)
    requires
        c.len() >= 1,
    ensures
        r == chbevl_spec32(x, c@),
{
    let mut b0: u32 = c[0];
    let mut b1: u32 = ZERO_32;
    let mut b2: u32 = ZERO_32;
    let mut i: usize = 1;
    while i < c.len()
        invariant
            1 <= i <= c.len(),
            (b0, b1, b2) == chb_state32(x, c@, i - 1),
        decreases c.len() - i,
    {
        b2 = b1;
        b1 = b0;
        b0 = add32(sub32(mul32(x, b1), b2), c[i]);
        i = i + 1;
    }
    mul32(HALF_32, sub32(b0, b2))
}

} // verus!
