//! The algebraic laws of the matrix kernel, stated over the kernel's
//! specification functions and proved once and for all.

use vstd::prelude::*;

verus! {

use crate::matrix::{flat, identity_seq, zero_seq, scale_seq, mul_cell, mul_seq, minors_of,
    det_of, adjugate_of};

/// The identity matrix has determinant 1.
pub proof fn lemma_identity_determinant()
    ensures
        det_of(identity_seq()) == 1,
{
    let m = identity_seq();
    assert(det_of(m) == 1) by {
        assert(m[0] == 1 && m[5] == 1 && m[10] == 1 && m[15] == 1);
        assert(m[1] == 0 && m[2] == 0 && m[3] == 0 && m[4] == 0);
        assert(m[6] == 0 && m[7] == 0 && m[8] == 0 && m[9] == 0);
        assert(m[11] == 0 && m[12] == 0 && m[13] == 0 && m[14] == 0);
    }
}

/// The zero matrix has determinant 0.
pub proof fn lemma_zero_determinant()
    ensures
        det_of(zero_seq()) == 0,
{
    let m = zero_seq();
    assert(det_of(m) == 0) by {
        assert(forall|p: int| 0 <= p < 16 ==> #[trigger] m[p] == 0);
    }
}

/// The identity matrix is the unit of matrix multiplication on both
/// sides.
pub proof fn lemma_identity_neutral(m: Seq<int>)
    requires
        m.len() == 16,
    ensures
        mul_seq(identity_seq(), m) == m,
        mul_seq(m, identity_seq()) == m,
{
    let id = identity_seq();
    assert forall|p: int| 0 <= p < 16 implies #[trigger] mul_seq(id, m)[p] == m[p] by {
        let r = p % 4;
        let c = p / 4;
        assert(id[flat(r, 0)] == if r == 0 { 1int } else { 0int });
        assert(id[flat(r, 1)] == if r == 1 { 1int } else { 0int });
        assert(id[flat(r, 2)] == if r == 2 { 1int } else { 0int });
        assert(id[flat(r, 3)] == if r == 3 { 1int } else { 0int });
        assert(mul_cell(id, m, r, c) == m[flat(r, c)]);
    }
    assert forall|p: int| 0 <= p < 16 implies #[trigger] mul_seq(m, id)[p] == m[p] by {
        let r = p % 4;
        let c = p / 4;
        assert(id[flat(0, c)] == if c == 0 { 1int } else { 0int });
        assert(id[flat(1, c)] == if c == 1 { 1int } else { 0int });
        assert(id[flat(2, c)] == if c == 2 { 1int } else { 0int });
        assert(id[flat(3, c)] == if c == 3 { 1int } else { 0int });
        assert(mul_cell(m, id, r, c) == m[flat(r, c)]);
    }
    assert(mul_seq(id, m) =~= m);
    assert(mul_seq(m, id) =~= m);
}

#[verifier::rlimit(50)]
proof fn lemma_minor_scale(a: int, b: int, c: int, d: int, k: int)
    by (nonlinear_arith)
    ensures
        (a * k) * (b * k) - (c * k) * (d * k) == k * k * (a * b - c * d),
{
}

#[verifier::rlimit(50)]
proof fn lemma_term_scale(x: int, y: int, k: int)
    by (nonlinear_arith)
    ensures
        (k * k * x) * (k * k * y) == k * k * k * k * (x * y),
{
}

#[verifier::rlimit(50)]
proof fn lemma_factor6(f: int, a: int, b: int, c: int, d: int, e: int, g: int)
    by (nonlinear_arith)
    ensures
        f * a - f * b + f * c + f * d - f * e + f * g == f * (a - b + c + d - e + g),
{
}

/// Scaling a matrix by `k` scales its determinant by `k` to the fourth
/// power.
pub proof fn lemma_det_scale(m: Seq<int>, k: int)
    requires
        m.len() == 16,
    ensures
        det_of(scale_seq(m, k)) == k * k * k * k * det_of(m),
{
    let sm = scale_seq(m, k);
    let s = minors_of(m);
    let ss = minors_of(sm);
    assert(ss[0] == k * k * s[0]) by {
        lemma_minor_scale(m[0], m[5], m[1], m[4], k);
    }
    assert(ss[1] == k * k * s[1]) by {
        lemma_minor_scale(m[0], m[6], m[2], m[4], k);
    }
    assert(ss[2] == k * k * s[2]) by {
        lemma_minor_scale(m[0], m[7], m[3], m[4], k);
    }
    assert(ss[3] == k * k * s[3]) by {
        lemma_minor_scale(m[1], m[6], m[2], m[5], k);
    }
    assert(ss[4] == k * k * s[4]) by {
        lemma_minor_scale(m[1], m[7], m[3], m[5], k);
    }
    assert(ss[5] == k * k * s[5]) by {
        lemma_minor_scale(m[2], m[7], m[3], m[6], k);
    }
    assert(ss[6] == k * k * s[6]) by {
        lemma_minor_scale(m[8], m[13], m[9], m[12], k);
    }
    assert(ss[7] == k * k * s[7]) by {
        lemma_minor_scale(m[8], m[14], m[10], m[12], k);
    }
    assert(ss[8] == k * k * s[8]) by {
        lemma_minor_scale(m[8], m[15], m[11], m[12], k);
    }
    assert(ss[9] == k * k * s[9]) by {
        lemma_minor_scale(m[9], m[14], m[10], m[13], k);
    }
    assert(ss[10] == k * k * s[10]) by {
        lemma_minor_scale(m[9], m[15], m[11], m[13], k);
    }
    assert(ss[11] == k * k * s[11]) by {
        lemma_minor_scale(m[10], m[15], m[11], m[14], k);
    }
    lemma_term_scale(s[0], s[11], k);
    lemma_term_scale(s[1], s[10], k);
    lemma_term_scale(s[2], s[9], k);
    lemma_term_scale(s[3], s[8], k);
    lemma_term_scale(s[4], s[7], k);
    lemma_term_scale(s[5], s[6], k);
    lemma_factor6(
        k * k * k * k,
        s[0] * s[11],
        s[1] * s[10],
        s[2] * s[9],
        s[3] * s[8],
        s[4] * s[7],
        s[5] * s[6],
    );
}

#[verifier::rlimit(100)]
proof fn lemma_dot_assoc(
    a0: int,
    a1: int,
    a2: int,
    a3: int,
    b00: int,
    b01: int,
    b02: int,
    b03: int,
    b10: int,
    b11: int,
    b12: int,
    b13: int,
    b20: int,
    b21: int,
    b22: int,
    b23: int,
    b30: int,
    b31: int,
    b32: int,
    b33: int,
    c0: int,
    c1: int,
    c2: int,
    c3: int,
)
    ensures
        (a0 * b00 + a1 * b10 + a2 * b20 + a3 * b30) * c0 + (a0 * b01 + a1 * b11 + a2 * b21 + a3 * b31) * c1 + (a0 * b02 + a1 * b12 + a2 * b22 + a3 * b32) * c2 + (a0 * b03 + a1 * b13 + a2 * b23 + a3 * b33) * c3 == a0 * (b00 * c0 + b01 * c1 + b02 * c2 + b03 * c3) + a1 * (b10 * c0 + b11 * c1 + b12 * c2 + b13 * c3) + a2 * (b20 * c0 + b21 * c1 + b22 * c2 + b23 * c3) + a3 * (b30 * c0 + b31 * c1 + b32 * c2 + b33 * c3),
{
    broadcast use vstd::arithmetic::mul::group_mul_properties;

}

/// Matrix multiplication is associative.
pub proof fn lemma_mul_associative(a: Seq<int>, b: Seq<int>, c: Seq<int>)
    requires
        a.len() == 16,
        b.len() == 16,
        c.len() == 16,
    ensures
        mul_seq(mul_seq(a, b), c) == mul_seq(a, mul_seq(b, c)),
{
    let ab = mul_seq(a, b);
    let bc = mul_seq(b, c);
    assert forall|p: int| 0 <= p < 16 implies #[trigger] mul_seq(ab, c)[p] == mul_seq(a, bc)[p] by {
        let r = p % 4;
        let cc = p / 4;
        assert(ab[flat(r, 0)] == mul_cell(a, b, r, 0));
        assert(ab[flat(r, 1)] == mul_cell(a, b, r, 1));
        assert(ab[flat(r, 2)] == mul_cell(a, b, r, 2));
        assert(ab[flat(r, 3)] == mul_cell(a, b, r, 3));
        assert(bc[flat(0, cc)] == mul_cell(b, c, 0, cc));
        assert(bc[flat(1, cc)] == mul_cell(b, c, 1, cc));
        assert(bc[flat(2, cc)] == mul_cell(b, c, 2, cc));
        assert(bc[flat(3, cc)] == mul_cell(b, c, 3, cc));
        lemma_dot_assoc(
            a[flat(r, 0)], a[flat(r, 1)], a[flat(r, 2)], a[flat(r, 3)],
            b[flat(0, 0)], b[flat(0, 1)], b[flat(0, 2)], b[flat(0, 3)],
            b[flat(1, 0)], b[flat(1, 1)], b[flat(1, 2)], b[flat(1, 3)],
            b[flat(2, 0)], b[flat(2, 1)], b[flat(2, 2)], b[flat(2, 3)],
            b[flat(3, 0)], b[flat(3, 1)], b[flat(3, 2)], b[flat(3, 3)],
            c[flat(0, cc)], c[flat(1, cc)], c[flat(2, cc)], c[flat(3, cc)],
        );
    }
    assert(mul_seq(mul_seq(a, b), c) =~= mul_seq(a, mul_seq(b, c)));
}

} // verus!
