//! The literal parameter set of genus 5, and the proof that it is one.
//!
//! The first eight generators are matrices of small integers. The final
//! pair has been chosen so that the relator holds; the proof multiplies the
//! five commutators out.
use vstd::prelude::*;
use crate::field::limbs_to_int;
use crate::field::modulus;
use crate::field::FieldElement;
use crate::manifold::all_special;
use crate::manifold::mat_views;
use crate::manifold::relator;
use crate::manifold::valid_generators;
use crate::matrix::mat_commutator;
use crate::matrix::mat_identity;
use crate::matrix::mat_inv;
use crate::matrix::mat_mul;
use crate::matrix::mat_special;
use crate::matrix::Mat;
use crate::matrix::Matrix;

verus! {

/// The generator `A_1` of the default parameter set.
pub open spec fn default_a1() -> Mat {
    Mat { a: 2, b: 1, c: 1, d: 1 }
}

/// The generator `B_1` of the default parameter set.
pub open spec fn default_b1() -> Mat {
    Mat { a: 3, b: 1, c: 2, d: 1 }
}

/// The generator `A_2` of the default parameter set.
pub open spec fn default_a2() -> Mat {
    Mat { a: 5, b: 1, c: 4, d: 1 }
}

/// The generator `B_2` of the default parameter set.
pub open spec fn default_b2() -> Mat {
    Mat { a: 7, b: 1, c: 13, d: 2 }
}

/// The generator `A_3` of the default parameter set.
pub open spec fn default_a3() -> Mat {
    Mat { a: 11, b: 1, c: 32, d: 3 }
}

/// The generator `B_3` of the default parameter set.
pub open spec fn default_b3() -> Mat {
    Mat { a: 13, b: 1, c: 38, d: 3 }
}

/// The generator `A_4` of the default parameter set.
pub open spec fn default_a4() -> Mat {
    Mat { a: 17, b: 1, c: 67, d: 4 }
}

/// The generator `B_4` of the default parameter set.
pub open spec fn default_b4() -> Mat {
    Mat { a: 19, b: 1, c: 94, d: 5 }
}

/// The generator `A_5` of the default parameter set.
pub open spec fn default_a5() -> Mat {
    Mat {
        a: 23,
        b: 0x17936724ffee7f6c8a42cbd248bea159d12d5fd97b98661e0ed3dd7e7b0aa958int,
        c: 0x10bfb34ec2c1346556cff765235ed401b27de97a0feb1df07d54b802c29622b7int,
        d: 6,
    }
}

/// The generator `B_5` of the default parameter set.
pub open spec fn default_b5() -> Mat {
    Mat {
        a: 0x130c80269e9e3337cc5fc19397ca0ce8f430b3a2817f4ff6a913e5edfe1d8761int,
        b: 0x1cf338a72bc43dcefb6ea77f87b0c1f5e448889f1534ddc38efff07f5a87ff8eint,
        c: 0x2d79412fb6b3faf0e057cdb876c39caa52cdff04e5a5f0bf70a30f1406f32ac3int,
        d: 0x1d57ce4c42936cf1ebf08422e9b74b74340334a5f83a209a9ace0fa5f1e278baint,
    }
}

/// The literal parameter set of genus 5 that `HyperbolicManifold::new`
/// builds. Its generators have the traces 3, 4, 6, 9, 14, 16, 21, 24, 29
/// and 26; the first eight are matrices of small integers, and the final
/// pair closes the relator.
pub open spec fn default_generators() -> Seq<Mat> {
    seq![
        default_a1(),
        default_b1(),
        default_a2(),
        default_b2(),
        default_a3(),
        default_b3(),
        default_a4(),
        default_b4(),
        default_a5(),
        default_b5(),
    ]
}

/// The commutator of the first pair of the default parameter set.
pub open spec fn default_commutator_1() -> Mat {
    Mat {
        a: 9,
        b: 0x30644e72e131a029b85045b68181585d2833e84879b9709143e1f593effffff6int,
        c: 5,
        d: 0x30644e72e131a029b85045b68181585d2833e84879b9709143e1f593effffffbint,
    }
}

/// `default_commutator_1` is the commutator it is named for.
proof fn lemma_default_commutator_1()
    ensures
        mat_commutator(default_a1(), default_b1()) == default_commutator_1(),
{
    let x = Mat { a: 2, b: 1, c: 1, d: 1 };
    let y = Mat { a: 3, b: 1, c: 2, d: 1 };
    let xi = Mat {
        a: 1,
        b: 0x30644e72e131a029b85045b68181585d2833e84879b9709143e1f593f0000000int,
        c: 0x30644e72e131a029b85045b68181585d2833e84879b9709143e1f593f0000000int,
        d: 2,
    };
    let yi = Mat {
        a: 1,
        b: 0x30644e72e131a029b85045b68181585d2833e84879b9709143e1f593f0000000int,
        c: 0x30644e72e131a029b85045b68181585d2833e84879b9709143e1f593efffffffint,
        d: 3,
    };
    let xy = Mat { a: 8, b: 3, c: 5, d: 2 };
    let xyx = Mat {
        a: 5,
        b: 0x30644e72e131a029b85045b68181585d2833e84879b9709143e1f593efffffffint,
        c: 3,
        d: 0x30644e72e131a029b85045b68181585d2833e84879b9709143e1f593f0000000int,
    };
    assert(x == default_a1() && y == default_b1());
    assert(mat_inv(x) == xi);
    assert(mat_inv(y) == yi);
    assert(mat_mul(x, y) == xy);
    assert(mat_mul(xy, xi) == xyx);
    assert(mat_mul(xyx, yi) == default_commutator_1());
}

/// The commutator of the second pair of the default parameter set.
pub open spec fn default_commutator_2() -> Mat {
    Mat {
        a: 209,
        b: 0x30644e72e131a029b85045b68181585d2833e84879b9709143e1f593efffff92int,
        c: 177,
        d: 0x30644e72e131a029b85045b68181585d2833e84879b9709143e1f593efffffa3int,
    }
}

/// `default_commutator_2` is the commutator it is named for.
proof fn lemma_default_commutator_2()
    ensures
        mat_commutator(default_a2(), default_b2()) == default_commutator_2(),
{
    let x = Mat { a: 5, b: 1, c: 4, d: 1 };
    let y = Mat { a: 7, b: 1, c: 13, d: 2 };
    let xi = Mat {
        a: 1,
        b: 0x30644e72e131a029b85045b68181585d2833e84879b9709143e1f593f0000000int,
        c: 0x30644e72e131a029b85045b68181585d2833e84879b9709143e1f593effffffdint,
        d: 5,
    };
    let yi = Mat {
        a: 2,
        b: 0x30644e72e131a029b85045b68181585d2833e84879b9709143e1f593f0000000int,
        c: 0x30644e72e131a029b85045b68181585d2833e84879b9709143e1f593effffff4int,
        d: 7,
    };
    let xy = Mat { a: 48, b: 7, c: 41, d: 6 };
    let xyx = Mat {
        a: 20,
        b: 0x30644e72e131a029b85045b68181585d2833e84879b9709143e1f593effffff4int,
        c: 17,
        d: 0x30644e72e131a029b85045b68181585d2833e84879b9709143e1f593effffff6int,
    };
    assert(x == default_a2() && y == default_b2());
    assert(mat_inv(x) == xi);
    assert(mat_inv(y) == yi);
    assert(mat_mul(x, y) == xy);
    assert(mat_mul(xy, xi) == xyx);
    assert(mat_mul(xyx, yi) == default_commutator_2());
}

/// The commutator of the third pair of the default parameter set.
pub open spec fn default_commutator_3() -> Mat {
    Mat {
        a: 0x51fint,
        b: 0x30644e72e131a029b85045b68181585d2833e84879b9709143e1f593effffe43int,
        c: 0xefcint,
        d: 0x30644e72e131a029b85045b68181585d2833e84879b9709143e1f593effffae8int,
    }
}

/// `default_commutator_3` is the commutator it is named for.
proof fn lemma_default_commutator_3()
    ensures
        mat_commutator(default_a3(), default_b3()) == default_commutator_3(),
{
    let x = Mat { a: 11, b: 1, c: 32, d: 3 };
    let y = Mat { a: 13, b: 1, c: 38, d: 3 };
    let xi = Mat {
        a: 3,
        b: 0x30644e72e131a029b85045b68181585d2833e84879b9709143e1f593f0000000int,
        c: 0x30644e72e131a029b85045b68181585d2833e84879b9709143e1f593efffffe1int,
        d: 11,
    };
    let yi = Mat {
        a: 3,
        b: 0x30644e72e131a029b85045b68181585d2833e84879b9709143e1f593f0000000int,
        c: 0x30644e72e131a029b85045b68181585d2833e84879b9709143e1f593efffffdbint,
        d: 13,
    };
    let xy = Mat { a: 181, b: 14, c: 530, d: 41 };
    let xyx = Mat {
        a: 95,
        b: 0x30644e72e131a029b85045b68181585d2833e84879b9709143e1f593efffffe6int,
        c: 278,
        d: 0x30644e72e131a029b85045b68181585d2833e84879b9709143e1f593efffffb2int,
    };
    assert(x == default_a3() && y == default_b3());
    assert(mat_inv(x) == xi);
    assert(mat_inv(y) == yi);
    assert(mat_mul(x, y) == xy);
    assert(mat_mul(xy, xi) == xyx);
    assert(mat_mul(xyx, yi) == default_commutator_3());
}

/// The commutator of the fourth pair of the default parameter set.
pub open spec fn default_commutator_4() -> Mat {
    Mat {
        a: 0x1394int,
        b: 0x30644e72e131a029b85045b68181585d2833e84879b9709143e1f593effffc0eint,
        c: 0x4d67int,
        d: 0x30644e72e131a029b85045b68181585d2833e84879b9709143e1f593effff064int,
    }
}

/// `default_commutator_4` is the commutator it is named for.
proof fn lemma_default_commutator_4()
    ensures
        mat_commutator(default_a4(), default_b4()) == default_commutator_4(),
{
    let x = Mat { a: 17, b: 1, c: 67, d: 4 };
    let y = Mat { a: 19, b: 1, c: 94, d: 5 };
    let xi = Mat {
        a: 4,
        b: 0x30644e72e131a029b85045b68181585d2833e84879b9709143e1f593f0000000int,
        c: 0x30644e72e131a029b85045b68181585d2833e84879b9709143e1f593efffffbeint,
        d: 17,
    };
    let yi = Mat {
        a: 5,
        b: 0x30644e72e131a029b85045b68181585d2833e84879b9709143e1f593f0000000int,
        c: 0x30644e72e131a029b85045b68181585d2833e84879b9709143e1f593efffffa3int,
        d: 19,
    };
    let xy = Mat {
        a: 417,
        b: 22,
        c: 0x671int,
        d: 87,
    };
    let xyx = Mat {
        a: 194,
        b: 0x30644e72e131a029b85045b68181585d2833e84879b9709143e1f593efffffd6int,
        c: 767,
        d: 0x30644e72e131a029b85045b68181585d2833e84879b9709143e1f593efffff57int,
    };
    assert(x == default_a4() && y == default_b4());
    assert(mat_inv(x) == xi);
    assert(mat_inv(y) == yi);
    assert(mat_mul(x, y) == xy);
    assert(mat_mul(xy, xi) == xyx);
    assert(mat_mul(xyx, yi) == default_commutator_4());
}

/// The commutator of the fifth pair of the default parameter set.
pub open spec fn default_commutator_5() -> Mat {
    Mat {
        a: 0x411f80int,
        b: 0x30644e72e131a029b85045b68181585d2833e84879b9709143e1f593ef01f7f0int,
        c: 0x142d871int,
        d: 0x30644e72e131a029b85045b68181585d2833e84879b9709143e1f593eb14a590int,
    }
}

/// `default_commutator_5` is the commutator it is named for.
proof fn lemma_default_commutator_5()
    ensures
        mat_commutator(default_a5(), default_b5()) == default_commutator_5(),
{
    let x = Mat {
        a: 23,
        b: 0x17936724ffee7f6c8a42cbd248bea159d12d5fd97b98661e0ed3dd7e7b0aa958int,
        c: 0x10bfb34ec2c1346556cff765235ed401b27de97a0feb1df07d54b802c29622b7int,
        d: 6,
    };
    let y = Mat {
        a: 0x130c80269e9e3337cc5fc19397ca0ce8f430b3a2817f4ff6a913e5edfe1d8761int,
        b: 0x1cf338a72bc43dcefb6ea77f87b0c1f5e448889f1534ddc38efff07f5a87ff8eint,
        c: 0x2d79412fb6b3faf0e057cdb876c39caa52cdff04e5a5f0bf70a30f1406f32ac3int,
        d: 0x1d57ce4c42936cf1ebf08422e9b74b74340334a5f83a209a9ace0fa5f1e278baint,
    };
    let xi = Mat {
        a: 6,
        b: 0x18d0e74de14320bd2e0d79e438c2b7035706886efe210a73350e181574f556a9int,
        c: 0x1fa49b241e706bc461804e515e22845b75b5fece69ce52a0c68d3d912d69dd4aint,
        d: 23,
    };
    let yi = Mat {
        a: 0x1d57ce4c42936cf1ebf08422e9b74b74340334a5f83a209a9ace0fa5f1e278baint,
        b: 0x137115cbb56d625abce19e36f9d0966743eb5fa9648492cdb4e2051495780073int,
        c: 0x2eb0d432a7da538d7f877fe0abdbbb2d565e94394137fd1d33ee67fe90cd53eint,
        d: 0x130c80269e9e3337cc5fc19397ca0ce8f430b3a2817f4ff6a913e5edfe1d8761int,
    };
    let xy = Mat {
        a: 0xacb599c0186703825d56d88b30ec3ce365d540b196ecdd37b4008dfa0098190int,
        b: 0xa8389f13a331a1e8d41372bc8e900f6e387dbb7753e59fe8865fa3c8e581a65int,
        c: 0xe4a6f931ea59815dafc28232663eeec56b07e13ec90811f6da06509acb30843int,
        d: 0x2db9fa76edde2f388c2fe4f61c2ca586d4b6a5f3932db80ddd00969b5f266361int,
    };
    let xyx = Mat {
        a: 0xa3c883e84a453709ce8f57cb227ea7381d869afda3435a9f0e7ec7ce5a89477int,
        b: 0x16c2cb857487407bc9b4a8bcc8ebff44325a8193f7e2d883b63409394317380dint,
        c: 0x25d26b04b5d907aabc221eeedd3a9b1e134867bac62f332f35bef35936057f53int,
        d: 0x2627c6345c8d4cb91b675039cf596de9a65b7e989f853ae752fa09170a576ba4int,
    };
    assert(x == default_a5() && y == default_b5());
    assert(mat_inv(x) == xi);
    assert(mat_inv(y) == yi);
    assert(mat_mul(x, y) == xy);
    assert(mat_mul(xy, xi) == xyx);
    assert(mat_mul(xyx, yi) == default_commutator_5());
}

/// The product of the first 1 commutators of the default parameter set.
pub open spec fn default_product_1() -> Mat {
    Mat {
        a: 9,
        b: 0x30644e72e131a029b85045b68181585d2833e84879b9709143e1f593effffff6int,
        c: 5,
        d: 0x30644e72e131a029b85045b68181585d2833e84879b9709143e1f593effffffbint,
    }
}

/// The product of the first 2 commutators of the default parameter set.
pub open spec fn default_product_2() -> Mat {
    Mat {
        a: 0x30644e72e131a029b85045b68181585d2833e84879b9709143e1f593efffffbfint,
        b: 35,
        c: 0x30644e72e131a029b85045b68181585d2833e84879b9709143e1f593effffff0int,
        d: 9,
    }
}

/// The product of the first 3 commutators of the default parameter set.
pub open spec fn default_product_3() -> Mat {
    Mat {
        a: 0xba76int,
        b: 0x30644e72e131a029b85045b68181585d2833e84879b9709143e1f593efffc092int,
        c: 0x2fcdint,
        d: 0x30644e72e131a029b85045b68181585d2833e84879b9709143e1f593efffefbeint,
    }
}

/// The product of the first 4 commutators of the default parameter set.
pub open spec fn default_product_4() -> Mat {
    Mat {
        a: 0x30644e72e131a029b85045b68181585d2833e84879b9709143e1f593eb14a590int,
        b: 0xfe0811int,
        c: 0x30644e72e131a029b85045b68181585d2833e84879b9709143e1f593eebd2790int,
        d: 0x411f80int,
    }
}

/// The product of the first commutators of the default parameter set.
proof fn lemma_default_products()
    ensures
        mat_mul(mat_identity(), default_commutator_1()) == default_product_1(),
        mat_mul(default_product_1(), default_commutator_2()) == default_product_2(),
        mat_mul(default_product_2(), default_commutator_3()) == default_product_3(),
        mat_mul(default_product_3(), default_commutator_4()) == default_product_4(),
        mat_mul(default_product_4(), default_commutator_5()) == mat_identity(),
{
}

/// Every generator of the default parameter set has determinant one.
proof fn lemma_default_determinants()
    ensures
        mat_special(default_a1()),
        mat_special(default_b1()),
        mat_special(default_a2()),
        mat_special(default_b2()),
        mat_special(default_a3()),
        mat_special(default_b3()),
        mat_special(default_a4()),
        mat_special(default_b4()),
        mat_special(default_a5()),
        mat_special(default_b5()),
{
}

/// The default parameter set represents the surface group of genus 5.
pub proof fn lemma_default_generators_valid()
    ensures
        valid_generators(5, default_generators()),
{
    let g = default_generators();
    assert(g[0] == default_a1());
    assert(g[1] == default_b1());
    assert(g[2] == default_a2());
    assert(g[3] == default_b2());
    assert(g[4] == default_a3());
    assert(g[5] == default_b3());
    assert(g[6] == default_a4());
    assert(g[7] == default_b4());
    assert(g[8] == default_a5());
    assert(g[9] == default_b5());
    lemma_default_determinants();
    assert(all_special(g));
    lemma_default_commutator_1();
    lemma_default_commutator_2();
    lemma_default_commutator_3();
    lemma_default_commutator_4();
    lemma_default_commutator_5();
    lemma_default_products();
    reveal_with_fuel(relator, 6);
    assert(relator(g, 1) == default_product_1());
    assert(relator(g, 2) == default_product_2());
    assert(relator(g, 3) == default_product_3());
    assert(relator(g, 4) == default_product_4());
    assert(relator(g, 5) == mat_identity());
}

/// The matrix with the given small entries.
fn small_matrix(a: u64, b: u64, c: u64, d: u64) -> (r: Matrix)
    ensures
        r@ == (Mat { a: a as int, b: b as int, c: c as int, d: d as int }),
{
    Matrix {
        a: FieldElement::from_u64(a),
        b: FieldElement::from_u64(b),
        c: FieldElement::from_u64(c),
        d: FieldElement::from_u64(d),
    }
}

/// The element whose canonical residue the limbs spell.
fn element_of(limbs: [u64; 4]) -> (r: FieldElement)
    requires
        limbs_to_int(limbs) < modulus(),
    ensures
        r@ == limbs_to_int(limbs),
{
    FieldElement::from_limbs(limbs).unwrap()
}

/// The matrices of the default parameter set.
pub fn default_matrices() -> (r: Vec<Matrix>)
    ensures
        mat_views(r@) == default_generators(),
{
    let mut generators: Vec<Matrix> = Vec::new();
    generators.push(small_matrix(2, 1, 1, 1));
    generators.push(small_matrix(3, 1, 2, 1));
    generators.push(small_matrix(5, 1, 4, 1));
    generators.push(small_matrix(7, 1, 13, 2));
    generators.push(small_matrix(11, 1, 32, 3));
    generators.push(small_matrix(13, 1, 38, 3));
    generators.push(small_matrix(17, 1, 67, 4));
    generators.push(small_matrix(19, 1, 94, 5));
    generators.push(
        Matrix {
            a: element_of([0x17, 0x0, 0x0, 0x0]),
            b: element_of([0xed3dd7e7b0aa958, 0xd12d5fd97b98661e, 0x8a42cbd248bea159, 0x17936724ffee7f6c]),
            c: element_of([0x7d54b802c29622b7, 0xb27de97a0feb1df0, 0x56cff765235ed401, 0x10bfb34ec2c13465]),
            d: element_of([0x6, 0x0, 0x0, 0x0]),
        },
    );
    generators.push(
        Matrix {
            a: element_of([0xa913e5edfe1d8761, 0xf430b3a2817f4ff6, 0xcc5fc19397ca0ce8, 0x130c80269e9e3337]),
            b: element_of([0x8efff07f5a87ff8e, 0xe448889f1534ddc3, 0xfb6ea77f87b0c1f5, 0x1cf338a72bc43dce]),
            c: element_of([0x70a30f1406f32ac3, 0x52cdff04e5a5f0bf, 0xe057cdb876c39caa, 0x2d79412fb6b3faf0]),
            d: element_of([0x9ace0fa5f1e278ba, 0x340334a5f83a209a, 0xebf08422e9b74b74, 0x1d57ce4c42936cf1]),
        },
    );
    assert(mat_views(generators@) =~= default_generators());
    generators
}

} // verus!
