//! 4x4 transform matrices in fixed point, stored row major. A matrix is
//! applied to a column vector, so in a product `a.multiply(&b)` the right
//! factor acts on the vertex first: the model matrix is built as
//! translation x rotation x scale, which scales a vertex first, then
//! rotates it about z, y and x in that order, and translates it last.
use vstd::prelude::*;
use crate::fixed::FX_ONE;
use crate::fixed::fx_down_spec;
use crate::fixed::fx_down;
use crate::fixed::lemma_abs_mul_le;
use crate::fixed::lemma_fx_down_bound;
use vstd::arithmetic::mul::lemma_mul_nonnegative;
use vstd::arithmetic::div_mod::lemma_fundamental_div_mod_converse_div;
use vstd::arithmetic::div_mod::lemma_fundamental_div_mod_converse_mod;

verus! {

/// Bound accepted for every entry of the left factor of `multiply` (2^32).
pub const LEFT_LIMIT: i64 = 4294967296;

/// Bound accepted for every entry of the right factor of `multiply` (2^28).
pub const RIGHT_LIMIT: i64 = 268435456;

/// Bound on the translation offsets handed to `create_model_matrix` (2^25).
pub const T_LIMIT: i64 = 33554432;

/// Bound on the scale factor handed to `create_model_matrix` (2^25).
pub const S_LIMIT: i64 = 33554432;

/// Every entry of a model matrix built by `create_model_matrix` stays
/// within this bound (2^43).
pub const M_LIMIT: i64 = 8796093022208;

/// A 4x4 matrix of fixed-point entries, row major: `mRC` is row `R`,
/// column `C`. The fourth column of an affine transform holds the
/// translation.
#[derive(Clone, Copy, PartialEq, Eq, Structural, Debug)]
pub struct Matrix4 {
    pub m00: i64, pub m01: i64, pub m02: i64, pub m03: i64,
    pub m10: i64, pub m11: i64, pub m12: i64, pub m13: i64,
    pub m20: i64, pub m21: i64, pub m22: i64, pub m23: i64,
    pub m30: i64, pub m31: i64, pub m32: i64, pub m33: i64,
}

impl View for Matrix4 {
    type V = Seq<int>;

    open spec fn view(&self) -> Seq<int> {
        seq![
            self.m00 as int, self.m01 as int, self.m02 as int, self.m03 as int,
            self.m10 as int, self.m11 as int, self.m12 as int, self.m13 as int,
            self.m20 as int, self.m21 as int, self.m22 as int, self.m23 as int,
            self.m30 as int, self.m31 as int, self.m32 as int, self.m33 as int,
        ]
    }
}

/// A mathematical matrix: sixteen integers, row major.
pub open spec fn mat_wf(s: Seq<int>) -> bool {
    s.len() == 16
}

/// Every entry lies within `-b ..= b`.
pub open spec fn mat_bounded(s: Seq<int>, b: int) -> bool {
    forall|i: int| 0 <= i < 16 ==> -b <= #[trigger] s[i] <= b
}

/// Entry (`r`, `c`) of the exact integer product of two row-major
/// matrices: the dot product of row `r` of `a` with column `c` of `b`.
pub open spec fn mme_entry(a: Seq<int>, b: Seq<int>, r: int, c: int) -> int {
    a[4 * r] * b[c] + a[4 * r + 1] * b[4 + c] + a[4 * r + 2] * b[8 + c] + a[4 * r + 3] * b[12 + c]
}

/// The exact integer product of two row-major matrices, before any
/// fixed-point rescaling.
pub open spec fn mat_mul_exact(a: Seq<int>, b: Seq<int>) -> Seq<int> {
    Seq::new(16, |i: int| mme_entry(a, b, i / 4, i % 4))
}

/// Rescales every entry down by `FX_ONE`.
pub open spec fn mat_down(s: Seq<int>) -> Seq<int> {
    s.map(|i: int, x: int| fx_down_spec(x))
}

/// The fixed-point matrix product: the exact product with every entry
/// rescaled back to fixed point.
pub open spec fn mat_mul_fx(a: Seq<int>, b: Seq<int>) -> Seq<int> {
    mat_down(mat_mul_exact(a, b))
}

/// A bound on both factors gives a bound on the fixed-point product.
pub proof fn lemma_mat_mul_fx_bound(a: Seq<int>, b: Seq<int>, x: int, y: int)
    requires
        mat_wf(a),
        mat_wf(b),
        0 <= x,
        0 <= y,
        mat_bounded(a, x),
        mat_bounded(b, y),
    ensures
        mat_wf(mat_mul_fx(a, b)),
        mat_bounded(mat_mul_fx(a, b), 4 * (x * y) / (FX_ONE as int) + 1),
{
    lemma_mul_nonnegative(x, y);
    let bound = 4 * (x * y);
    assert forall|i: int| 0 <= i < 16 implies
        -(4 * (x * y) / (FX_ONE as int) + 1) <= #[trigger] mat_mul_fx(a, b)[i]
            <= 4 * (x * y) / (FX_ONE as int) + 1 by {
        let r = i / 4;
        let c = i % 4;
        assert(0 <= r < 4 && 0 <= c < 4);
        lemma_abs_mul_le(a[4 * r], b[c], x, y);
        lemma_abs_mul_le(a[4 * r + 1], b[4 + c], x, y);
        lemma_abs_mul_le(a[4 * r + 2], b[8 + c], x, y);
        lemma_abs_mul_le(a[4 * r + 3], b[12 + c], x, y);
        assert(-bound <= mme_entry(a, b, r, c) <= bound);
        lemma_fx_down_bound(mme_entry(a, b, r, c), bound);
        assert(mat_mul_fx(a, b)[i] == fx_down_spec(mme_entry(a, b, r, c)));
    }
}

/// A matrix bounded by `b1` is bounded by any larger `b2`.
pub proof fn lemma_mat_bounded_widen(s: Seq<int>, b1: int, b2: int)
    requires
        mat_bounded(s, b1),
        b1 <= b2,
    ensures
        mat_bounded(s, b2),
{
    assert forall|i: int| 0 <= i < 16 implies -b2 <= #[trigger] s[i] <= b2 by {
        assert(-b1 <= s[i] <= b1);
    }
}

/// Fixed-point dot product of four pairs, rescaled down by `FX_ONE`.
fn fx_dot4(a0: i64, a1: i64, a2: i64, a3: i64, b0: i64, b1: i64, b2: i64, b3: i64) -> (r: i64)
    requires
        -LEFT_LIMIT <= a0 <= LEFT_LIMIT,
        -LEFT_LIMIT <= a1 <= LEFT_LIMIT,
        -LEFT_LIMIT <= a2 <= LEFT_LIMIT,
        -LEFT_LIMIT <= a3 <= LEFT_LIMIT,
        -RIGHT_LIMIT <= b0 <= RIGHT_LIMIT,
        -RIGHT_LIMIT <= b1 <= RIGHT_LIMIT,
        -RIGHT_LIMIT <= b2 <= RIGHT_LIMIT,
        -RIGHT_LIMIT <= b3 <= RIGHT_LIMIT,
    ensures
        r == fx_down_spec(a0 * b0 + a1 * b1 + a2 * b2 + a3 * b3),
{
    proof {
        lemma_abs_mul_le(a0 as int, b0 as int, LEFT_LIMIT as int, RIGHT_LIMIT as int);
        lemma_abs_mul_le(a1 as int, b1 as int, LEFT_LIMIT as int, RIGHT_LIMIT as int);
        lemma_abs_mul_le(a2 as int, b2 as int, LEFT_LIMIT as int, RIGHT_LIMIT as int);
        lemma_abs_mul_le(a3 as int, b3 as int, LEFT_LIMIT as int, RIGHT_LIMIT as int);
    }
    let p0: i64 = a0 * b0;
    let p1: i64 = a1 * b1;
    let p2: i64 = a2 * b2;
    let p3: i64 = a3 * b3;
    fx_down(p0 + p1 + p2 + p3)
}

/// Builds a matrix from sixteen fixed-point entries, row major.
pub fn new_matrix4(
    e00: i64, e01: i64, e02: i64, e03: i64,
    e10: i64, e11: i64, e12: i64, e13: i64,
    e20: i64, e21: i64, e22: i64, e23: i64,
    e30: i64, e31: i64, e32: i64, e33: i64,
) -> (m: Matrix4)
    ensures
        m@ == seq![
            e00 as int, e01 as int, e02 as int, e03 as int,
            e10 as int, e11 as int, e12 as int, e13 as int,
            e20 as int, e21 as int, e22 as int, e23 as int,
            e30 as int, e31 as int, e32 as int, e33 as int,
        ],
{
    Matrix4 {
        m00: e00, m01: e01, m02: e02, m03: e03,
        m10: e10, m11: e11, m12: e12, m13: e13,
        m20: e20, m21: e21, m22: e22, m23: e23,
        m30: e30, m31: e31, m32: e32, m33: e33,
    }
}

impl Matrix4 {
    /// The standard matrix product, rescaled to fixed point: entry
    /// (`r`, `c`) is the dot product of row `r` of `self` with column
    /// `c` of `other`, divided by `FX_ONE`.
    pub fn multiply(&self, other: &Matrix4) -> (res: Matrix4)
        requires
            mat_bounded(self@, LEFT_LIMIT as int),
            mat_bounded(other@, RIGHT_LIMIT as int),
        ensures
            res@ == mat_mul_fx(self@, other@),
    {
        let res = Matrix4 {
            m00: fx_dot4(self.m00, self.m01, self.m02, self.m03, other.m00, other.m10, other.m20, other.m30),
            m01: fx_dot4(self.m00, self.m01, self.m02, self.m03, other.m01, other.m11, other.m21, other.m31),
            m02: fx_dot4(self.m00, self.m01, self.m02, self.m03, other.m02, other.m12, other.m22, other.m32),
            m03: fx_dot4(self.m00, self.m01, self.m02, self.m03, other.m03, other.m13, other.m23, other.m33),
            m10: fx_dot4(self.m10, self.m11, self.m12, self.m13, other.m00, other.m10, other.m20, other.m30),
            m11: fx_dot4(self.m10, self.m11, self.m12, self.m13, other.m01, other.m11, other.m21, other.m31),
            m12: fx_dot4(self.m10, self.m11, self.m12, self.m13, other.m02, other.m12, other.m22, other.m32),
            m13: fx_dot4(self.m10, self.m11, self.m12, self.m13, other.m03, other.m13, other.m23, other.m33),
            m20: fx_dot4(self.m20, self.m21, self.m22, self.m23, other.m00, other.m10, other.m20, other.m30),
            m21: fx_dot4(self.m20, self.m21, self.m22, self.m23, other.m01, other.m11, other.m21, other.m31),
            m22: fx_dot4(self.m20, self.m21, self.m22, self.m23, other.m02, other.m12, other.m22, other.m32),
            m23: fx_dot4(self.m20, self.m21, self.m22, self.m23, other.m03, other.m13, other.m23, other.m33),
            m30: fx_dot4(self.m30, self.m31, self.m32, self.m33, other.m00, other.m10, other.m20, other.m30),
            m31: fx_dot4(self.m30, self.m31, self.m32, self.m33, other.m01, other.m11, other.m21, other.m31),
            m32: fx_dot4(self.m30, self.m31, self.m32, self.m33, other.m02, other.m12, other.m22, other.m32),
            m33: fx_dot4(self.m30, self.m31, self.m32, self.m33, other.m03, other.m13, other.m23, other.m33),
        };
        proof {
            let a = self@;
            let b = other@;
            assert(res@[0] == mat_mul_fx(a, b)[0]);
            assert(res@[1] == mat_mul_fx(a, b)[1]);
            assert(res@[2] == mat_mul_fx(a, b)[2]);
            assert(res@[3] == mat_mul_fx(a, b)[3]);
            assert(res@[4] == mat_mul_fx(a, b)[4]);
            assert(res@[5] == mat_mul_fx(a, b)[5]);
            assert(res@[6] == mat_mul_fx(a, b)[6]);
            assert(res@[7] == mat_mul_fx(a, b)[7]);
            assert(res@[8] == mat_mul_fx(a, b)[8]);
            assert(res@[9] == mat_mul_fx(a, b)[9]);
            assert(res@[10] == mat_mul_fx(a, b)[10]);
            assert(res@[11] == mat_mul_fx(a, b)[11]);
            assert(res@[12] == mat_mul_fx(a, b)[12]);
            assert(res@[13] == mat_mul_fx(a, b)[13]);
            assert(res@[14] == mat_mul_fx(a, b)[14]);
            assert(res@[15] == mat_mul_fx(a, b)[15]);
            assert(res@ =~= mat_mul_fx(a, b));
        }
        res
    }
}

/// The scalar identity behind associativity: the dot product of a row of
/// an exact product with a column equals the dot product of the row with
/// a column of the other exact product.
proof fn lemma_trilinear(
    a0: int, a1: int, a2: int, a3: int,
    b00: int, b01: int, b02: int, b03: int,
    b10: int, b11: int, b12: int, b13: int,
    b20: int, b21: int, b22: int, b23: int,
    b30: int, b31: int, b32: int, b33: int,
    c0: int, c1: int, c2: int, c3: int,
)
    ensures
        (a0 * b00 + a1 * b10 + a2 * b20 + a3 * b30) * c0
            + (a0 * b01 + a1 * b11 + a2 * b21 + a3 * b31) * c1
            + (a0 * b02 + a1 * b12 + a2 * b22 + a3 * b32) * c2
            + (a0 * b03 + a1 * b13 + a2 * b23 + a3 * b33) * c3
            == a0 * (b00 * c0 + b01 * c1 + b02 * c2 + b03 * c3)
            + a1 * (b10 * c0 + b11 * c1 + b12 * c2 + b13 * c3)
            + a2 * (b20 * c0 + b21 * c1 + b22 * c2 + b23 * c3)
            + a3 * (b30 * c0 + b31 * c1 + b32 * c2 + b33 * c3),
{
    lemma_dist4_right(a0 * b00, a1 * b10, a2 * b20, a3 * b30, c0);
    lemma_dist4_right(a0 * b01, a1 * b11, a2 * b21, a3 * b31, c1);
    lemma_dist4_right(a0 * b02, a1 * b12, a2 * b22, a3 * b32, c2);
    lemma_dist4_right(a0 * b03, a1 * b13, a2 * b23, a3 * b33, c3);
    lemma_dist4_left(a0, b00 * c0, b01 * c1, b02 * c2, b03 * c3);
    lemma_dist4_left(a1, b10 * c0, b11 * c1, b12 * c2, b13 * c3);
    lemma_dist4_left(a2, b20 * c0, b21 * c1, b22 * c2, b23 * c3);
    lemma_dist4_left(a3, b30 * c0, b31 * c1, b32 * c2, b33 * c3);
    lemma_mul_reassoc(a0, b00, c0);
    lemma_mul_reassoc(a0, b01, c1);
    lemma_mul_reassoc(a0, b02, c2);
    lemma_mul_reassoc(a0, b03, c3);
    lemma_mul_reassoc(a1, b10, c0);
    lemma_mul_reassoc(a1, b11, c1);
    lemma_mul_reassoc(a1, b12, c2);
    lemma_mul_reassoc(a1, b13, c3);
    lemma_mul_reassoc(a2, b20, c0);
    lemma_mul_reassoc(a2, b21, c1);
    lemma_mul_reassoc(a2, b22, c2);
    lemma_mul_reassoc(a2, b23, c3);
    lemma_mul_reassoc(a3, b30, c0);
    lemma_mul_reassoc(a3, b31, c1);
    lemma_mul_reassoc(a3, b32, c2);
    lemma_mul_reassoc(a3, b33, c3);
}

/// Distributivity of a four-term sum over a right factor.
proof fn lemma_dist4_right(p: int, q: int, r: int, s: int, c: int)
    ensures
        (p + q + r + s) * c == p * c + q * c + r * c + s * c,
{
    assert((p + q + r + s) * c == p * c + q * c + r * c + s * c) by (nonlinear_arith);
}

/// Distributivity of a left factor over a four-term sum.
proof fn lemma_dist4_left(a: int, w: int, x: int, y: int, z: int)
    ensures
        a * (w + x + y + z) == a * w + a * x + a * y + a * z,
{
    assert(a * (w + x + y + z) == a * w + a * x + a * y + a * z) by (nonlinear_arith);
}

/// Reassociation of a triple product.
proof fn lemma_mul_reassoc(x: int, y: int, z: int)
    ensures
        (x * y) * z == x * (y * z),
{
    assert((x * y) * z == x * (y * z)) by (nonlinear_arith);
}

/// One entry of the associativity law.
proof fn lemma_assoc_entry(a: Seq<int>, b: Seq<int>, c: Seq<int>, r: int, cl: int)
    requires
        mat_wf(a),
        mat_wf(b),
        mat_wf(c),
        0 <= r < 4,
        0 <= cl < 4,
    ensures
        mme_entry(mat_mul_exact(a, b), c, r, cl) == mme_entry(a, mat_mul_exact(b, c), r, cl),
{
    let ab = mat_mul_exact(a, b);
    let bc = mat_mul_exact(b, c);
    assert forall|k: int| 0 <= k < 4 implies #[trigger] ab[4 * r + k] == mme_entry(a, b, r, k) by {
        lemma_fundamental_div_mod_converse_div(4 * r + k, 4, r, k);
        lemma_fundamental_div_mod_converse_mod(4 * r + k, 4, r, k);
    }
    assert forall|k: int| 0 <= k < 4 implies #[trigger] bc[4 * k + cl] == mme_entry(b, c, k, cl) by {
        lemma_fundamental_div_mod_converse_div(4 * k + cl, 4, k, cl);
        lemma_fundamental_div_mod_converse_mod(4 * k + cl, 4, k, cl);
    }
    assert(ab[4 * r] == mme_entry(a, b, r, 0));
    assert(ab[4 * r + 1] == mme_entry(a, b, r, 1));
    assert(ab[4 * r + 2] == mme_entry(a, b, r, 2));
    assert(ab[4 * r + 3] == mme_entry(a, b, r, 3));
    assert(bc[cl] == mme_entry(b, c, 0, cl));
    assert(bc[4 + cl] == mme_entry(b, c, 1, cl));
    assert(bc[8 + cl] == mme_entry(b, c, 2, cl));
    assert(bc[12 + cl] == mme_entry(b, c, 3, cl));
    lemma_trilinear(
        a[4 * r], a[4 * r + 1], a[4 * r + 2], a[4 * r + 3],
        b[0], b[1], b[2], b[3],
        b[4], b[5], b[6], b[7],
        b[8], b[9], b[10], b[11],
        b[12], b[13], b[14], b[15],
        c[cl], c[4 + cl], c[8 + cl], c[12 + cl],
    );
}

/// The exact matrix product is associative.
pub proof fn lemma_mat_mul_exact_assoc(a: Seq<int>, b: Seq<int>, c: Seq<int>)
    requires
        mat_wf(a),
        mat_wf(b),
        mat_wf(c),
    ensures
        mat_mul_exact(mat_mul_exact(a, b), c) == mat_mul_exact(a, mat_mul_exact(b, c)),
{
    let lhs = mat_mul_exact(mat_mul_exact(a, b), c);
    let rhs = mat_mul_exact(a, mat_mul_exact(b, c));
    assert forall|i: int| 0 <= i < 16 implies #[trigger] lhs[i] == rhs[i] by {
        lemma_assoc_entry(a, b, c, i / 4, i % 4);
    }
    assert(lhs =~= rhs);
}

/// The exact matrix product is not commutative: two matrices whose
/// products differ in the two orders.
pub proof fn lemma_mat_mul_not_commutative()
    ensures
        exists|a: Seq<int>, b: Seq<int>|
            mat_wf(a) && mat_wf(b) && #[trigger] mat_mul_exact(a, b) != #[trigger] mat_mul_exact(b, a),
{
    let a: Seq<int> = seq![0, 1, 0, 0, 0, 0, 0, 0, 0, 0, 0, 0, 0, 0, 0, 0];
    let b: Seq<int> = seq![0, 0, 0, 0, 1, 0, 0, 0, 0, 0, 0, 0, 0, 0, 0, 0];
    assert(mat_mul_exact(a, b)[0] == mme_entry(a, b, 0, 0));
    assert(mat_mul_exact(b, a)[0] == mme_entry(b, a, 0, 0));
    assert(a[0] == 0 && a[1] == 1 && a[2] == 0 && a[3] == 0);
    assert(a[4] == 0 && a[8] == 0 && a[12] == 0);
    assert(b[0] == 0 && b[1] == 0 && b[2] == 0 && b[3] == 0);
    assert(b[4] == 1 && b[8] == 0 && b[12] == 0);
    assert(a[0] * b[0] == 0 && a[2] * b[8] == 0 && a[3] * b[12] == 0) by (nonlinear_arith)
        requires
            a[0] == 0,
            a[2] == 0,
            a[3] == 0,
    ;
    assert(a[1] * b[4] == 1) by (nonlinear_arith)
        requires
            a[1] == 1,
            b[4] == 1,
    ;
    assert(b[0] * a[0] == 0 && b[1] * a[4] == 0 && b[2] * a[8] == 0 && b[3] * a[12] == 0)
        by (nonlinear_arith)
        requires
            b[0] == 0,
            b[1] == 0,
            b[2] == 0,
            b[3] == 0,
    ;
    assert(mme_entry(a, b, 0, 0) == 1);
    assert(mme_entry(b, a, 0, 0) == 0);
    assert(mat_mul_exact(a, b) != mat_mul_exact(b, a));
}

/// Rotation about the x axis, from the fixed-point sine and cosine of
/// the angle.
pub open spec fn rot_x_spec(s: int, c: int) -> Seq<int> {
    seq![
        FX_ONE as int, 0, 0, 0,
        0, c, -s, 0,
        0, s, c, 0,
        0, 0, 0, FX_ONE as int,
    ]
}

/// Rotation about the y axis.
pub open spec fn rot_y_spec(s: int, c: int) -> Seq<int> {
    seq![
        c, 0, s, 0,
        0, FX_ONE as int, 0, 0,
        -s, 0, c, 0,
        0, 0, 0, FX_ONE as int,
    ]
}

/// Rotation about the z axis.
pub open spec fn rot_z_spec(s: int, c: int) -> Seq<int> {
    seq![
        c, -s, 0, 0,
        s, c, 0, 0,
        0, 0, FX_ONE as int, 0,
        0, 0, 0, FX_ONE as int,
    ]
}

/// Uniform scale by the fixed-point factor `sc` on all three axes.
pub open spec fn scale_spec(sc: int) -> Seq<int> {
    seq![
        sc, 0, 0, 0,
        0, sc, 0, 0,
        0, 0, sc, 0,
        0, 0, 0, FX_ONE as int,
    ]
}

/// Translation by (`tx`, `ty`, `tz`), held in the fourth column.
pub open spec fn translation_spec(tx: int, ty: int, tz: int) -> Seq<int> {
    seq![
        FX_ONE as int, 0, 0, tx,
        0, FX_ONE as int, 0, ty,
        0, 0, FX_ONE as int, tz,
        0, 0, 0, FX_ONE as int,
    ]
}

/// The combined rotation: about z first, then y, then x, when applied
/// to a column vector.
pub open spec fn rotation_matrix_spec(sx: int, cx: int, sy: int, cy: int, sz: int, cz: int) -> Seq<int> {
    mat_mul_fx(mat_mul_fx(rot_x_spec(sx, cx), rot_y_spec(sy, cy)), rot_z_spec(sz, cz))
}

/// The model matrix: scale innermost, the combined rotation next, and
/// translation outermost, so a vertex is scaled, rotated, then moved.
pub open spec fn model_matrix_spec(
    tx: int, ty: int, tz: int, sc: int,
    sx: int, cx: int, sy: int, cy: int, sz: int, cz: int,
) -> Seq<int> {
    mat_mul_fx(
        mat_mul_fx(translation_spec(tx, ty, tz), rotation_matrix_spec(sx, cx, sy, cy, sz, cz)),
        scale_spec(sc),
    )
}

/// Builds the x-axis rotation from a fixed-point sine and cosine.
pub fn rotation_x(s: i64, c: i64) -> (m: Matrix4)
    requires
        -FX_ONE <= s <= FX_ONE,
        -FX_ONE <= c <= FX_ONE,
    ensures
        m@ == rot_x_spec(s as int, c as int),
        mat_bounded(m@, FX_ONE as int),
{
    new_matrix4(
        FX_ONE, 0, 0, 0,
        0, c, -s, 0,
        0, s, c, 0,
        0, 0, 0, FX_ONE,
    )
}

/// Builds the y-axis rotation from a fixed-point sine and cosine.
pub fn rotation_y(s: i64, c: i64) -> (m: Matrix4)
    requires
        -FX_ONE <= s <= FX_ONE,
        -FX_ONE <= c <= FX_ONE,
    ensures
        m@ == rot_y_spec(s as int, c as int),
        mat_bounded(m@, FX_ONE as int),
{
    new_matrix4(
        c, 0, s, 0,
        0, FX_ONE, 0, 0,
        -s, 0, c, 0,
        0, 0, 0, FX_ONE,
    )
}

/// Builds the z-axis rotation from a fixed-point sine and cosine.
pub fn rotation_z(s: i64, c: i64) -> (m: Matrix4)
    requires
        -FX_ONE <= s <= FX_ONE,
        -FX_ONE <= c <= FX_ONE,
    ensures
        m@ == rot_z_spec(s as int, c as int),
        mat_bounded(m@, FX_ONE as int),
{
    new_matrix4(
        c, -s, 0, 0,
        s, c, 0, 0,
        0, 0, FX_ONE, 0,
        0, 0, 0, FX_ONE,
    )
}

/// Builds the uniform scale matrix.
pub fn scale_matrix(sc: i64) -> (m: Matrix4)
    requires
        0 <= sc <= S_LIMIT,
    ensures
        m@ == scale_spec(sc as int),
        mat_bounded(m@, S_LIMIT as int),
{
    new_matrix4(
        sc, 0, 0, 0,
        0, sc, 0, 0,
        0, 0, sc, 0,
        0, 0, 0, FX_ONE,
    )
}

/// Builds the translation matrix.
pub fn translation_matrix(tx: i64, ty: i64, tz: i64) -> (m: Matrix4)
    requires
        -T_LIMIT <= tx <= T_LIMIT,
        -T_LIMIT <= ty <= T_LIMIT,
        -T_LIMIT <= tz <= T_LIMIT,
    ensures
        m@ == translation_spec(tx as int, ty as int, tz as int),
        mat_bounded(m@, T_LIMIT as int),
{
    new_matrix4(
        FX_ONE, 0, 0, tx,
        0, FX_ONE, 0, ty,
        0, 0, FX_ONE, tz,
        0, 0, 0, FX_ONE,
    )
}

/// Composes the per-frame model matrix from the translation offsets, the
/// uniform scale factor, and the fixed-point sine and cosine of the three
/// Euler angles. The composition order is fixed: the result scales a
/// vertex first, rotates it about z, then y, then x, and translates it
/// last. Changing this order changes the image; it is a design contract.
#[verifier::rlimit(60)]
pub fn create_model_matrix(
    tx: i64, ty: i64, tz: i64, scale: i64,
    sin_x: i64, cos_x: i64, sin_y: i64, cos_y: i64, sin_z: i64, cos_z: i64,
) -> (m: Matrix4)
    requires
        -T_LIMIT <= tx <= T_LIMIT,
        -T_LIMIT <= ty <= T_LIMIT,
        -T_LIMIT <= tz <= T_LIMIT,
        0 <= scale <= S_LIMIT,
        -FX_ONE <= sin_x <= FX_ONE,
        -FX_ONE <= cos_x <= FX_ONE,
        -FX_ONE <= sin_y <= FX_ONE,
        -FX_ONE <= cos_y <= FX_ONE,
        -FX_ONE <= sin_z <= FX_ONE,
        -FX_ONE <= cos_z <= FX_ONE,
    ensures
        m@ == model_matrix_spec(
            tx as int, ty as int, tz as int, scale as int,
            sin_x as int, cos_x as int, sin_y as int, cos_y as int, sin_z as int, cos_z as int,
        ),
        mat_bounded(m@, M_LIMIT as int),
{
    let rx = rotation_x(sin_x, cos_x);
    let ry = rotation_y(sin_y, cos_y);
    let rz = rotation_z(sin_z, cos_z);

    proof {
        lemma_mat_bounded_widen(rx@, FX_ONE as int, LEFT_LIMIT as int);
        lemma_mat_bounded_widen(ry@, FX_ONE as int, RIGHT_LIMIT as int);
    }
    let rxy = rx.multiply(&ry);
    proof {
        lemma_mat_mul_fx_bound(rx@, ry@, FX_ONE as int, FX_ONE as int);
        assert(4 * (65536int * 65536) / 65536 + 1 == 262145);
        lemma_mat_bounded_widen(rxy@, 262145, LEFT_LIMIT as int);
        lemma_mat_bounded_widen(rz@, FX_ONE as int, RIGHT_LIMIT as int);
    }
    let rot = rxy.multiply(&rz);
    proof {
        lemma_mat_mul_fx_bound(rxy@, rz@, 262145, FX_ONE as int);
        assert(4 * (262145int * 65536) / 65536 + 1 == 1048581);
    }

    let tm = translation_matrix(tx, ty, tz);
    proof {
        lemma_mat_bounded_widen(tm@, T_LIMIT as int, LEFT_LIMIT as int);
        lemma_mat_bounded_widen(rot@, 1048581, RIGHT_LIMIT as int);
    }
    let tr = tm.multiply(&rot);
    proof {
        lemma_mat_mul_fx_bound(tm@, rot@, T_LIMIT as int, 1048581);
        assert(4 * (33554432int * 1048581) / 65536 + 1 == 2147493889);
    }

    let sm = scale_matrix(scale);
    proof {
        lemma_mat_bounded_widen(tr@, 2147493889, LEFT_LIMIT as int);
        lemma_mat_bounded_widen(sm@, S_LIMIT as int, RIGHT_LIMIT as int);
    }
    let model = tr.multiply(&sm);
    proof {
        lemma_mat_mul_fx_bound(tr@, sm@, 2147493889, S_LIMIT as int);
        assert(4 * (2147493889int * 33554432) / 65536 + 1 == 4398067484673);
        lemma_mat_bounded_widen(model@, 4398067484673, M_LIMIT as int);
    }
    model
}

} // verus!
