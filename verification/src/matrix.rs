//! 2x2 matrices over the field, and the algebra of the special linear group.
//!
//! `Mat` is the mathematical matrix: four integers, read modulo the field's
//! order. `Matrix` is the value that code holds; its view is a `Mat` of
//! residues. The laws of the group (the determinant is multiplicative, the
//! adjugate of a matrix of determinant one is its inverse, the product is
//! associative) are proved over `Mat`.
use vstd::prelude::*;
use vstd::arithmetic::div_mod::lemma_add_mod_noop;
use vstd::arithmetic::div_mod::lemma_mul_mod_noop;
use vstd::arithmetic::div_mod::lemma_mul_mod_noop_left;
use vstd::arithmetic::div_mod::lemma_mul_mod_noop_right;
use vstd::arithmetic::div_mod::lemma_small_mod;
use vstd::arithmetic::div_mod::lemma_sub_mod_noop;
use crate::field::field_mul;
use crate::field::modulus;
use crate::field::FieldElement;

verus! {

/// A 2x2 matrix of integers, rows `(a, b)` and `(c, d)`.
pub ghost struct Mat {
    pub a: int,
    pub b: int,
    pub c: int,
    pub d: int,
}

/// Every entry is a residue.
pub open spec fn mat_reduced(x: Mat) -> bool {
    &&& 0 <= x.a < modulus()
    &&& 0 <= x.b < modulus()
    &&& 0 <= x.c < modulus()
    &&& 0 <= x.d < modulus()
}

/// The identity matrix.
pub open spec fn mat_identity() -> Mat {
    Mat { a: 1, b: 0, c: 0, d: 1 }
}

/// The matrix product `x y`, entries reduced.
pub open spec fn mat_mul(x: Mat, y: Mat) -> Mat {
    Mat {
        a: (x.a * y.a + x.b * y.c) % modulus(),
        b: (x.a * y.b + x.b * y.d) % modulus(),
        c: (x.c * y.a + x.d * y.c) % modulus(),
        d: (x.c * y.b + x.d * y.d) % modulus(),
    }
}

/// The determinant `a d - b c`, reduced.
pub open spec fn mat_det(x: Mat) -> int {
    (x.a * x.d - x.b * x.c) % modulus()
}

/// The trace `a + d`, reduced.
pub open spec fn mat_trace(x: Mat) -> int {
    (x.a + x.d) % modulus()
}

/// The adjugate `(d, -b, -c, a)`, which inverts a matrix of determinant one.
pub open spec fn mat_inv(x: Mat) -> Mat {
    Mat { a: x.d % modulus(), b: (-x.b) % modulus(), c: (-x.c) % modulus(), d: x.a % modulus() }
}

/// The matrix lies in the special linear group: its determinant is one.
pub open spec fn mat_special(x: Mat) -> bool {
    mat_det(x) == 1
}

/// The commutator `x y x^-1 y^-1`.
pub open spec fn mat_commutator(x: Mat, y: Mat) -> Mat {
    mat_mul(mat_mul(mat_mul(x, y), mat_inv(x)), mat_inv(y))
}

/// Reducing the left factors of a two-term dot product changes nothing.
pub proof fn lemma_dot_left(u: int, v: int, s: int, t: int)
    ensures
        ((u % modulus()) * s + (v % modulus()) * t) % modulus() == (u * s + v * t) % modulus(),
{
    let p = modulus();
    lemma_add_mod_noop((u % p) * s, (v % p) * t, p);
    lemma_mul_mod_noop_left(u, s, p);
    lemma_mul_mod_noop_left(v, t, p);
    lemma_add_mod_noop(u * s, v * t, p);
}

/// Reducing the right factors of a two-term dot product changes nothing.
pub proof fn lemma_dot_right(s: int, t: int, u: int, v: int)
    ensures
        (s * (u % modulus()) + t * (v % modulus())) % modulus() == (s * u + t * v) % modulus(),
{
    let p = modulus();
    lemma_add_mod_noop(s * (u % p), t * (v % p), p);
    lemma_mul_mod_noop_right(s, u, p);
    lemma_mul_mod_noop_right(t, v, p);
    lemma_add_mod_noop(s * u, t * v, p);
}

/// Reducing both products of a difference of products changes nothing.
pub proof fn lemma_cross(u: int, v: int, s: int, t: int)
    ensures
        ((u % modulus()) * (v % modulus()) - (s % modulus()) * (t % modulus())) % modulus() == (u
            * v - s * t) % modulus(),
{
    let p = modulus();
    lemma_sub_mod_noop((u % p) * (v % p), (s % p) * (t % p), p);
    lemma_mul_mod_noop(u, v, p);
    lemma_mul_mod_noop(s, t, p);
    lemma_sub_mod_noop(u * v, s * t, p);
}

/// `(w x)(y z) = (w y)(x z)`.
proof fn lemma_swap_inner(w: int, x: int, y: int, z: int)
    ensures
        (w * x) * (y * z) == (w * y) * (x * z),
{
    vstd::arithmetic::mul::lemma_mul_is_associative(w, x, y * z);
    vstd::arithmetic::mul::lemma_mul_is_associative(x, y, z);
    vstd::arithmetic::mul::lemma_mul_is_commutative(x, y);
    vstd::arithmetic::mul::lemma_mul_is_associative(y, x, z);
    vstd::arithmetic::mul::lemma_mul_is_associative(w, y, x * z);
}

/// `(w x)(y z) = (w z)(y x)`.
proof fn lemma_swap_outer(w: int, x: int, y: int, z: int)
    ensures
        (w * x) * (y * z) == (w * z) * (y * x),
{
    vstd::arithmetic::mul::lemma_mul_is_commutative(y, z);
    lemma_swap_inner(w, x, z, y);
    vstd::arithmetic::mul::lemma_mul_is_commutative(x, y);
}

/// `(x1 + x2)(y1 + y2)` written out.
proof fn lemma_expand(x1: int, x2: int, y1: int, y2: int)
    ensures
        (x1 + x2) * (y1 + y2) == x1 * y1 + x1 * y2 + x2 * y1 + x2 * y2,
{
    vstd::arithmetic::mul::lemma_mul_is_distributive_add(x1 + x2, y1, y2);
    vstd::arithmetic::mul::lemma_mul_is_distributive_add_other_way(y1, x1, x2);
    vstd::arithmetic::mul::lemma_mul_is_distributive_add_other_way(y2, x1, x2);
}

/// `(x1 - x2)(y1 - y2)` written out.
proof fn lemma_expand_sub(x1: int, x2: int, y1: int, y2: int)
    ensures
        (x1 - x2) * (y1 - y2) == x1 * y1 - x1 * y2 - x2 * y1 + x2 * y2,
{
    vstd::arithmetic::mul::lemma_mul_is_distributive_sub(x1 - x2, y1, y2);
    vstd::arithmetic::mul::lemma_mul_is_distributive_sub_other_way(y1, x1, x2);
    vstd::arithmetic::mul::lemma_mul_is_distributive_sub_other_way(y2, x1, x2);
}

/// The determinant of a product of integer matrices is the product of the
/// determinants.
proof fn lemma_det_identity(a: int, b: int, c: int, d: int, e: int, f: int, g: int, h: int)
    ensures
        (a * e + b * g) * (c * f + d * h) - (a * f + b * h) * (c * e + d * g) == (a * d - b * c)
            * (e * h - f * g),
{
    lemma_expand(a * e, b * g, c * f, d * h);
    lemma_expand(a * f, b * h, c * e, d * g);
    lemma_expand_sub(a * d, b * c, e * h, f * g);
    lemma_swap_outer(a, e, c, f);
    lemma_swap_outer(b, g, d, h);
    // (a e)(d h) = (a d)(e h)
    lemma_swap_inner(a, e, d, h);
    // (b g)(c f) = (b c)(g f) = (b c)(f g)
    lemma_swap_inner(b, g, c, f);
    vstd::arithmetic::mul::lemma_mul_is_commutative(g, f);
    // (a f)(d g) = (a d)(f g)
    lemma_swap_inner(a, f, d, g);
    // (b h)(c e) = (b c)(h e) = (b c)(e h)
    lemma_swap_inner(b, h, c, e);
    vstd::arithmetic::mul::lemma_mul_is_commutative(h, e);
}

/// The determinant is multiplicative.
pub proof fn lemma_det_mul(x: Mat, y: Mat)
    ensures
        mat_det(mat_mul(x, y)) == field_mul(mat_det(x), mat_det(y)),
{
    let p = modulus();
    let u1 = x.a * y.a + x.b * y.c;
    let u2 = x.a * y.b + x.b * y.d;
    let u3 = x.c * y.a + x.d * y.c;
    let u4 = x.c * y.b + x.d * y.d;
    lemma_cross(u1, u4, u2, u3);
    lemma_det_identity(x.a, x.b, x.c, x.d, y.a, y.b, y.c, y.d);
    lemma_mul_mod_noop(x.a * x.d - x.b * x.c, y.a * y.d - y.b * y.c, p);
}

/// The special linear group is closed under the product.
pub proof fn lemma_mul_special(x: Mat, y: Mat)
    requires
        mat_special(x),
        mat_special(y),
    ensures
        mat_special(mat_mul(x, y)),
{
    lemma_det_mul(x, y);
    lemma_small_mod(1, modulus() as nat);
}

/// The adjugate has the determinant of the matrix.
pub proof fn lemma_inv_det(x: Mat)
    ensures
        mat_det(mat_inv(x)) == mat_det(x),
        mat_reduced(mat_inv(x)),
{
    let p = modulus();
    let m = mat_inv(x);
    // (d mod p)(a mod p) - (-b mod p)(-c mod p) = d a - b c modulo p
    lemma_cross(x.d, x.a, -x.b, -x.c);
    assert(x.d * x.a - (-x.b) * (-x.c) == x.a * x.d - x.b * x.c) by (nonlinear_arith);
}

/// A matrix of determinant one times its adjugate is the identity, on
/// either side.
pub proof fn lemma_mul_inverse(x: Mat)
    requires
        mat_special(x),
    ensures
        mat_mul(x, mat_inv(x)) == mat_identity(),
        mat_mul(mat_inv(x), x) == mat_identity(),
{
    let p = modulus();
    lemma_small_mod(0, p as nat);
    // x times adj(x)
    lemma_dot_right(x.a, x.b, x.d, -x.c);
    assert(x.a * x.d + x.b * (-x.c) == x.a * x.d - x.b * x.c) by (nonlinear_arith);
    lemma_dot_right(x.a, x.b, -x.b, x.a);
    assert(x.a * (-x.b) + x.b * x.a == 0) by (nonlinear_arith);
    lemma_dot_right(x.c, x.d, x.d, -x.c);
    assert(x.c * x.d + x.d * (-x.c) == 0) by (nonlinear_arith);
    lemma_dot_right(x.c, x.d, -x.b, x.a);
    assert(x.c * (-x.b) + x.d * x.a == x.a * x.d - x.b * x.c) by (nonlinear_arith);
    // adj(x) times x
    lemma_dot_left(x.d, -x.b, x.a, x.c);
    assert(x.d * x.a + (-x.b) * x.c == x.a * x.d - x.b * x.c) by (nonlinear_arith);
    lemma_dot_left(x.d, -x.b, x.b, x.d);
    assert(x.d * x.b + (-x.b) * x.d == 0) by (nonlinear_arith);
    lemma_dot_left(-x.c, x.a, x.a, x.c);
    assert((-x.c) * x.a + x.a * x.c == 0) by (nonlinear_arith);
    lemma_dot_left(-x.c, x.a, x.b, x.d);
    assert((-x.c) * x.b + x.a * x.d == x.a * x.d - x.b * x.c) by (nonlinear_arith);
}

/// The identity is neutral on matrices of residues.
pub proof fn lemma_mul_identity(x: Mat)
    requires
        mat_reduced(x),
    ensures
        mat_mul(x, mat_identity()) == x,
        mat_mul(mat_identity(), x) == x,
{
    let p = modulus();
    assert(x.a * 1 + x.b * 0 == x.a) by (nonlinear_arith);
    assert(x.a * 0 + x.b * 1 == x.b) by (nonlinear_arith);
    assert(x.c * 1 + x.d * 0 == x.c) by (nonlinear_arith);
    assert(x.c * 0 + x.d * 1 == x.d) by (nonlinear_arith);
    assert(1 * x.a + 0 * x.c == x.a) by (nonlinear_arith);
    assert(1 * x.b + 0 * x.d == x.b) by (nonlinear_arith);
    assert(0 * x.a + 1 * x.c == x.c) by (nonlinear_arith);
    assert(0 * x.b + 1 * x.d == x.d) by (nonlinear_arith);
    lemma_small_mod(x.a as nat, p as nat);
    lemma_small_mod(x.b as nat, p as nat);
    lemma_small_mod(x.c as nat, p as nat);
    lemma_small_mod(x.d as nat, p as nat);
}

/// One entry of `(x y) z` and of `x (y z)`, before reduction.
proof fn lemma_assoc_entry(a: int, b: int, p: int, q: int, r: int, s: int, m: int, n: int)
    ensures
        (a * p + b * r) * m + (a * q + b * s) * n == a * (p * m + q * n) + b * (r * m + s * n),
{
    vstd::arithmetic::mul::lemma_mul_is_distributive_add_other_way(m, a * p, b * r);
    vstd::arithmetic::mul::lemma_mul_is_distributive_add_other_way(n, a * q, b * s);
    vstd::arithmetic::mul::lemma_mul_is_associative(a, p, m);
    vstd::arithmetic::mul::lemma_mul_is_associative(b, r, m);
    vstd::arithmetic::mul::lemma_mul_is_associative(a, q, n);
    vstd::arithmetic::mul::lemma_mul_is_associative(b, s, n);
    vstd::arithmetic::mul::lemma_mul_is_distributive_add(a, p * m, q * n);
    vstd::arithmetic::mul::lemma_mul_is_distributive_add(b, r * m, s * n);
}

/// The product is associative.
pub proof fn lemma_mul_assoc(x: Mat, y: Mat, z: Mat)
    ensures
        mat_mul(mat_mul(x, y), z) == mat_mul(x, mat_mul(y, z)),
{
    let u1 = x.a * y.a + x.b * y.c;
    let u2 = x.a * y.b + x.b * y.d;
    let u3 = x.c * y.a + x.d * y.c;
    let u4 = x.c * y.b + x.d * y.d;
    let v1 = y.a * z.a + y.b * z.c;
    let v2 = y.a * z.b + y.b * z.d;
    let v3 = y.c * z.a + y.d * z.c;
    let v4 = y.c * z.b + y.d * z.d;
    lemma_dot_left(u1, u2, z.a, z.c);
    lemma_dot_right(x.a, x.b, v1, v3);
    lemma_assoc_entry(x.a, x.b, y.a, y.b, y.c, y.d, z.a, z.c);
    lemma_dot_left(u1, u2, z.b, z.d);
    lemma_dot_right(x.a, x.b, v2, v4);
    lemma_assoc_entry(x.a, x.b, y.a, y.b, y.c, y.d, z.b, z.d);
    lemma_dot_left(u3, u4, z.a, z.c);
    lemma_dot_right(x.c, x.d, v1, v3);
    lemma_assoc_entry(x.c, x.d, y.a, y.b, y.c, y.d, z.a, z.c);
    lemma_dot_left(u3, u4, z.b, z.d);
    lemma_dot_right(x.c, x.d, v2, v4);
    lemma_assoc_entry(x.c, x.d, y.a, y.b, y.c, y.d, z.b, z.d);
}

/// A 2x2 matrix over the field, rows `(a, b)` and `(c, d)`.
#[derive(Clone, Copy, Debug, PartialEq, Eq)]
pub struct Matrix {
    pub a: FieldElement,
    pub b: FieldElement,
    pub c: FieldElement,
    pub d: FieldElement,
}

impl View for Matrix {
    type V = Mat;

    open spec fn view(&self) -> Mat {
        Mat { a: self.a@, b: self.b@, c: self.c@, d: self.d@ }
    }
}

impl Matrix {
    /// The view of a matrix has residues for entries.
    pub proof fn lemma_view_reduced(self)
        ensures
            mat_reduced(self@),
    {
        self.a.lemma_view_range();
        self.b.lemma_view_range();
        self.c.lemma_view_range();
        self.d.lemma_view_range();
    }

    /// The identity matrix.
    pub fn identity() -> (r: Self)
        ensures
            r@ == mat_identity(),
    {
        Matrix {
            a: FieldElement::one(),
            b: FieldElement::zero(),
            c: FieldElement::zero(),
            d: FieldElement::one(),
        }
    }

    /// The matrix with the given rows `(a, b)` and `(c, d)`.
    pub fn from_entries(entries: [FieldElement; 4]) -> (r: Self)
        ensures
            r.a == entries[0],
            r.b == entries[1],
            r.c == entries[2],
            r.d == entries[3],
    {
        Matrix { a: entries[0], b: entries[1], c: entries[2], d: entries[3] }
    }

    /// The four entries, row by row.
    pub fn entries(&self) -> (r: [FieldElement; 4])
        ensures
            r[0] == self.a,
            r[1] == self.b,
            r[2] == self.c,
            r[3] == self.d,
    {
        [self.a, self.b, self.c, self.d]
    }

    /// The product `self * other`.
    pub fn multiply(&self, other: &Self) -> (r: Self)
        ensures
            r@ == mat_mul(self@, other@),
    {
        let a = self.a.times(&other.a).plus(&self.b.times(&other.c));
        let b = self.a.times(&other.b).plus(&self.b.times(&other.d));
        let c = self.c.times(&other.a).plus(&self.d.times(&other.c));
        let d = self.c.times(&other.b).plus(&self.d.times(&other.d));
        proof {
            let p = modulus();
            lemma_add_mod_noop(self.a@ * other.a@, self.b@ * other.c@, p);
            lemma_add_mod_noop(self.a@ * other.b@, self.b@ * other.d@, p);
            lemma_add_mod_noop(self.c@ * other.a@, self.d@ * other.c@, p);
            lemma_add_mod_noop(self.c@ * other.b@, self.d@ * other.d@, p);
        }
        Matrix { a, b, c, d }
    }

    /// The adjugate `(d, -b, -c, a)`. For a matrix of determinant one it is
    /// the inverse.
    pub fn invert(&self) -> (r: Self)
        ensures
            r@ == mat_inv(self@),
            mat_special(self@) ==> mat_mul(self@, r@) == mat_identity() && mat_mul(r@, self@)
                == mat_identity(),
    {
        proof {
            self.lemma_view_reduced();
            lemma_small_mod(self.a@ as nat, modulus() as nat);
            lemma_small_mod(self.d@ as nat, modulus() as nat);
            if mat_special(self@) {
                lemma_mul_inverse(self@);
            }
        }
        Matrix { a: self.d, b: self.b.negated(), c: self.c.negated(), d: self.a }
    }

    /// The trace `a + d`.
    pub fn trace(&self) -> (r: FieldElement)
        ensures
            r@ == mat_trace(self@),
    {
        self.a.plus(&self.d)
    }

    /// The determinant `a d - b c`.
    pub fn determinant(&self) -> (r: FieldElement)
        ensures
            r@ == mat_det(self@),
    {
        proof {
            lemma_sub_mod_noop(self.a@ * self.d@, self.b@ * self.c@, modulus());
        }
        self.a.times(&self.d).minus(&self.b.times(&self.c))
    }

    /// Whether the determinant is one.
    pub fn is_special(&self) -> (r: bool)
        ensures
            r == mat_special(self@),
    {
        let det = self.determinant();
        let one = FieldElement::one();
        det.is_equal(&one)
    }

    /// Whether two matrices have the same entries.
    pub fn equals(&self, other: &Self) -> (r: bool)
        ensures
            r == (self@ == other@),
    {
        self.a.is_equal(&other.a) && self.b.is_equal(&other.b) && self.c.is_equal(&other.c)
            && self.d.is_equal(&other.d)
    }

    /// The commutator `self * other * self^-1 * other^-1`.
    pub fn commutator(&self, other: &Self) -> (r: Self)
        ensures
            r@ == mat_commutator(self@, other@),
    {
        self.multiply(other).multiply(&self.invert()).multiply(&other.invert())
    }
}

} // verus!
