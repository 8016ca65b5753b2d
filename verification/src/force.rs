//! The force model: the constants of each kind of particle, and the rule
//! that turns the separation of two particles into an acceleration.

use vstd::arithmetic::power2::{lemma2_to64, lemma2_to64_rest, lemma_pow2_adds, pow2};
use vstd::prelude::*;
use crate::scalar::{Scalar, Vec3};

verus! {

/// Encoding of the elementary charge, the binary32 number nearest to 1.6e-19.
pub const ELEMENTARY_CHARGE_BITS: u32 = 0x203c_e508;

/// Encoding of the electron's mass, the binary32 number nearest to 9.1e-27.
pub const ELECTRON_MASS_BITS: u32 = 0x1434_3e7b;

/// Encoding of the mass of a proton or neutron, the binary32 number nearest
/// to 1.6e-27.
pub const NUCLEON_MASS_BITS: u32 = 0x12fd_87b6;

/// Encoding of the Coulomb constant, the binary32 number nearest to 9e9.
pub const COULOMB_CONSTANT_BITS: u32 = 0x5006_1c46;

/// What a particle is. Its kind fixes its charge and its mass.
#[derive(Clone, Copy, PartialEq, Eq, Structural, Debug)]
pub enum ParticleKind {
    Electron,
    Proton,
    Neutron,
}

/// The charge of a particle of the given kind: the elementary charge for a
/// proton, the same with the opposite sign for an electron, positive zero
/// for a neutron.
pub open spec fn charge_of(kind: ParticleKind) -> Scalar {
    match kind {
        ParticleKind::Electron => (Scalar { bits: ELEMENTARY_CHARGE_BITS }).neg_spec(),
        ParticleKind::Proton => Scalar { bits: ELEMENTARY_CHARGE_BITS },
        ParticleKind::Neutron => Scalar { bits: 0 },
    }
}

/// The mass of a particle of the given kind.
pub open spec fn mass_of(kind: ParticleKind) -> Scalar {
    match kind {
        ParticleKind::Electron => Scalar { bits: ELECTRON_MASS_BITS },
        ParticleKind::Proton => Scalar { bits: NUCLEON_MASS_BITS },
        ParticleKind::Neutron => Scalar { bits: NUCLEON_MASS_BITS },
    }
}

/// What one axis contributes to the acceleration of a particle: nothing
/// where the two particles coincide on that axis, else the Coulomb term
/// that the host computed for it.
pub open spec fn axis_rule(own: Scalar, other: Scalar, term: Scalar) -> Scalar {
    if own.coincides_spec(other) {
        Scalar { bits: 0 }
    } else {
        term
    }
}

/// The axis rule on each of the three axes.
pub open spec fn pairwise_rule(own: Vec3, other: Vec3, term: Vec3) -> Vec3 {
    Vec3 {
        x: axis_rule(own.x, other.x, term.x),
        y: axis_rule(own.y, other.y, term.y),
        z: axis_rule(own.z, other.z, term.z),
    }
}

/// The signed charge of a particle of the given kind.
pub fn get_charge(kind: ParticleKind) -> (charge: Scalar)
    ensures
        charge == charge_of(kind),
{
    let q = Scalar { bits: ELEMENTARY_CHARGE_BITS };
    match kind {
        ParticleKind::Electron => q.neg(),
        ParticleKind::Proton => q,
        ParticleKind::Neutron => Scalar::zero(),
    }
}

/// The mass of a particle of the given kind.
pub fn get_mass(kind: ParticleKind) -> (mass: Scalar)
    ensures
        mass == mass_of(kind),
{
    match kind {
        ParticleKind::Electron => Scalar { bits: ELECTRON_MASS_BITS },
        _ => Scalar { bits: NUCLEON_MASS_BITS },
    }
}

/// The Coulomb constant of the force law.
pub fn coulomb_constant() -> (k: Scalar)
    ensures
        k.bits == COULOMB_CONSTANT_BITS,
{
    Scalar { bits: COULOMB_CONSTANT_BITS }
}

/// The acceleration that one particle gets from another on one axis.
///
/// `own` and `other` are the coordinates of the accelerated particle and
/// of the other one on that axis. `term` is the Coulomb term for the axis:
/// the constant times both charges, divided by the product of the distance
/// on the axis and the accelerated particle's mass. The term counts only
/// where the distance is not zero.
pub fn axis_acceleration(own: Scalar, other: Scalar, term: Scalar) -> (acceleration: Scalar)
    ensures
        acceleration == axis_rule(own, other, term),
{
    if own.coincides(other) {
        Scalar::zero()
    } else {
        term
    }
}

/// The acceleration that the particle at `own` gets from the one at
/// `other`, axis by axis, given the Coulomb terms of the three axes.
pub fn pairwise_acceleration(own: Vec3, other: Vec3, term: Vec3) -> (acceleration: Vec3)
    ensures
        acceleration == pairwise_rule(own, other, term),
{
    Vec3 {
        x: axis_acceleration(own.x, other.x, term.x),
        y: axis_acceleration(own.y, other.y, term.y),
        z: axis_acceleration(own.z, other.z, term.z),
    }
}

/// The constants are the single-precision numbers that their decimal
/// values round to: 1.6e-19 for the elementary charge, with either sign,
/// 9.1e-27 and 1.6e-27 for the two masses, and 9e9 for the Coulomb
/// constant.
pub proof fn lemma_constants_round_their_decimals()
    ensures
        charge_of(ParticleKind::Proton).rounds(16, 100_000_000_000_000_000_000),
        charge_of(ParticleKind::Electron).rounds(-16, 100_000_000_000_000_000_000),
        charge_of(ParticleKind::Neutron).rounds(0, 1),
        mass_of(ParticleKind::Electron).rounds(91, 10_000_000_000_000_000_000_000_000_000),
        mass_of(ParticleKind::Proton).rounds(16, 10_000_000_000_000_000_000_000_000_000),
        mass_of(ParticleKind::Neutron).rounds(16, 10_000_000_000_000_000_000_000_000_000),
        (Scalar { bits: COULOMB_CONSTANT_BITS }).rounds(9_000_000_000, 1),
{
    lemma2_to64();
    lemma2_to64_rest();
    lemma_pow2_adds(64, 22);
    lemma_pow2_adds(64, 46);
    lemma_pow2_adds(64, 49);
    assert(pow2(86) == 0x40_0000_0000_0000_0000_0000);
    assert(pow2(110) == 0x4000_0000_0000_0000_0000_0000_0000);
    assert(pow2(113) == 0x2_0000_0000_0000_0000_0000_0000_0000);
    let k = Scalar { bits: COULOMB_CONSTANT_BITS };
    assert(k.scale() == 10 && k.significand() == 8_789_062);
    assert(pow2(10) == 1024);
    assert(k.significand() * 1024 * 1 == 8_999_999_488);
}

/// An electron's charge is a proton's with the sign flipped, and the other
/// way round; a neutron's charge is zero.
pub proof fn lemma_charges_are_opposite()
    ensures
        charge_of(ParticleKind::Electron) == charge_of(ParticleKind::Proton).neg_spec(),
        charge_of(ParticleKind::Proton) == charge_of(ParticleKind::Electron).neg_spec(),
        charge_of(ParticleKind::Neutron).is_zero_spec(),
        !charge_of(ParticleKind::Proton).is_zero_spec(),
{
}

/// On an axis on which two particles have the same finite coordinate,
/// neither gets any acceleration from the other, whatever the Coulomb term
/// is. On the other axes the term stands.
pub proof fn lemma_equal_coordinates_give_no_acceleration(own: Vec3, other: Vec3, term: Vec3)
    ensures
        own.x.is_finite_spec() && own.x == other.x ==> pairwise_rule(own, other, term).x.bits == 0,
        own.y.is_finite_spec() && own.y == other.y ==> pairwise_rule(own, other, term).y.bits == 0,
        own.z.is_finite_spec() && own.z == other.z ==> pairwise_rule(own, other, term).z.bits == 0,
        !own.x.coincides_spec(other.x) ==> pairwise_rule(own, other, term).x == term.x,
        !own.y.coincides_spec(other.y) ==> pairwise_rule(own, other, term).y == term.y,
        !own.z.coincides_spec(other.z) ==> pairwise_rule(own, other, term).z == term.z,
{
}

/// Whether two coordinates coincide does not depend on which of the two
/// particles is the accelerated one.
pub proof fn lemma_coincidence_is_mutual(a: Scalar, b: Scalar)
    ensures
        a.coincides_spec(b) == b.coincides_spec(a),
{
}

} // verus!
