//! Mass, center of mass and inertia of a body, with the physical
//! constraints on mass and on the diagonal of the inertia.

use crate::scalar::Scalar;
use vstd::prelude::*;

verus! {

/// Mass, center of mass and inertia of a body.
///
/// Mass and the three moments of inertia are never less than or equal to
/// zero; the center of mass and the products of inertia are unconstrained.
#[derive(Debug, Clone, Copy)]
pub struct MassProperties {
    cmx: Scalar,
    cmy: Scalar,
    cmz: Scalar,
    mass: Scalar,
    ixx: Scalar,
    ixy: Scalar,
    ixz: Scalar,
    iyy: Scalar,
    iyz: Scalar,
    izz: Scalar,
}

/// Why a value was refused for a constrained field of `MassProperties`.
#[derive(Debug, Clone, Copy, PartialEq, Eq, Structural)]
pub enum MassPropertiesError {
    IxxLessThanOrEqualToZero,
    IyyLessThanOrEqualToZero,
    IzzLessThanOrEqualToZero,
    MassLessThanOrEqualToZero,
}

/// The ten numbers of a `MassProperties`.
pub struct MassPropertiesView {
    pub mass: Scalar,
    pub cmx: Scalar,
    pub cmy: Scalar,
    pub cmz: Scalar,
    pub ixx: Scalar,
    pub iyy: Scalar,
    pub izz: Scalar,
    pub ixy: Scalar,
    pub ixz: Scalar,
    pub iyz: Scalar,
}

impl MassPropertiesView {
    /// The first constraint that the numbers break, taken in the order
    /// mass, ixx, iyy, izz; `None` where they break none.
    pub open spec fn fault(self) -> Option<MassPropertiesError> {
        if self.mass.is_non_positive() {
            Some(MassPropertiesError::MassLessThanOrEqualToZero)
        } else if self.ixx.is_non_positive() {
            Some(MassPropertiesError::IxxLessThanOrEqualToZero)
        } else if self.iyy.is_non_positive() {
            Some(MassPropertiesError::IyyLessThanOrEqualToZero)
        } else if self.izz.is_non_positive() {
            Some(MassPropertiesError::IzzLessThanOrEqualToZero)
        } else {
            None
        }
    }

    /// Mass and the diagonal of the inertia are all accepted.
    pub open spec fn valid(self) -> bool {
        &&& !self.mass.is_non_positive()
        &&& !self.ixx.is_non_positive()
        &&& !self.iyy.is_non_positive()
        &&& !self.izz.is_non_positive()
    }

    /// Unit mass, unit moments of inertia, everything else zero.
    pub open spec fn unit() -> MassPropertiesView {
        MassPropertiesView {
            mass: Scalar::spec_one(),
            cmx: Scalar::spec_zero(),
            cmy: Scalar::spec_zero(),
            cmz: Scalar::spec_zero(),
            ixx: Scalar::spec_one(),
            iyy: Scalar::spec_one(),
            izz: Scalar::spec_one(),
            ixy: Scalar::spec_zero(),
            ixz: Scalar::spec_zero(),
            iyz: Scalar::spec_zero(),
        }
    }
}

/// Unit mass properties break no constraint.
pub proof fn lemma_unit_is_valid()
    ensures
        MassPropertiesView::unit().fault() is None,
        MassPropertiesView::unit().valid(),
{
}

/// The numbers that break no constraint are the valid ones.
pub proof fn lemma_valid_iff_no_fault(numbers: MassPropertiesView)
    ensures
        numbers.valid() <==> numbers.fault() is None,
{
}

impl View for MassProperties {
    type V = MassPropertiesView;

    closed spec fn view(&self) -> MassPropertiesView {
        MassPropertiesView {
            mass: self.mass,
            cmx: self.cmx,
            cmy: self.cmy,
            cmz: self.cmz,
            ixx: self.ixx,
            iyy: self.iyy,
            izz: self.izz,
            ixy: self.ixy,
            ixz: self.ixz,
            iyz: self.iyz,
        }
    }
}

impl MassProperties {
    /// Holds of every value of this type.
    #[verifier::type_invariant]
    pub open spec fn inv(self) -> bool {
        self@.valid()
    }

    /// Creates mass properties from the ten numbers.
    ///
    /// Fails on the first of mass, `ixx`, `iyy`, `izz` (in this order) that
    /// is less than or equal to zero, and succeeds otherwise.
    pub fn new(
        mass: Scalar,
        cmx: Scalar,
        cmy: Scalar,
        cmz: Scalar,
        ixx: Scalar,
        iyy: Scalar,
        izz: Scalar,
        ixy: Scalar,
        ixz: Scalar,
        iyz: Scalar,
    ) -> (r: Result<Self, MassPropertiesError>)
        ensures
            ({
                let given = MassPropertiesView { mass, cmx, cmy, cmz, ixx, iyy, izz, ixy, ixz, iyz };
                match r {
                    Ok(m) => given.fault() is None && m@ == given,
                    Err(e) => given.fault() == Some(e),
                }
            }),
    {
        if mass.le_zero() {
            return Err(MassPropertiesError::MassLessThanOrEqualToZero);
        }
        if ixx.le_zero() {
            return Err(MassPropertiesError::IxxLessThanOrEqualToZero);
        }
        if iyy.le_zero() {
            return Err(MassPropertiesError::IyyLessThanOrEqualToZero);
        }
        if izz.le_zero() {
            return Err(MassPropertiesError::IzzLessThanOrEqualToZero);
        }
        Ok(Self { mass, cmx, cmy, cmz, ixx, iyy, izz, ixy, ixz, iyz })
    }

    /// Unit mass, unit moments of inertia, everything else zero: what an
    /// edit buffer with no usable field stands for.
    pub fn unit() -> (m: Self)
        ensures
            m@ == MassPropertiesView::unit(),
    {
        Self {
            mass: Scalar::one(),
            cmx: Scalar::zero(),
            cmy: Scalar::zero(),
            cmz: Scalar::zero(),
            ixx: Scalar::one(),
            iyy: Scalar::one(),
            izz: Scalar::one(),
            ixy: Scalar::zero(),
            ixz: Scalar::zero(),
            iyz: Scalar::zero(),
        }
    }

    /// Returns the x-coordinate of the center of mass.
    pub fn get_cmx(&self) -> (v: Scalar)
        ensures
            v == self@.cmx,
    {
        self.cmx
    }

    /// Returns the y-coordinate of the center of mass.
    pub fn get_cmy(&self) -> (v: Scalar)
        ensures
            v == self@.cmy,
    {
        self.cmy
    }

    /// Returns the z-coordinate of the center of mass.
    pub fn get_cmz(&self) -> (v: Scalar)
        ensures
            v == self@.cmz,
    {
        self.cmz
    }

    /// Returns the moment of inertia around the x-axis.
    pub fn get_ixx(&self) -> (v: Scalar)
        ensures
            v == self@.ixx,
            !v.is_non_positive(),
    {
        proof {
            use_type_invariant(self);
        }
        self.ixx
    }

    /// Returns the product of inertia for the xy-plane.
    pub fn get_ixy(&self) -> (v: Scalar)
        ensures
            v == self@.ixy,
    {
        self.ixy
    }

    /// Returns the product of inertia for the xz-plane.
    pub fn get_ixz(&self) -> (v: Scalar)
        ensures
            v == self@.ixz,
    {
        self.ixz
    }

    /// Returns the moment of inertia around the y-axis.
    pub fn get_iyy(&self) -> (v: Scalar)
        ensures
            v == self@.iyy,
            !v.is_non_positive(),
    {
        proof {
            use_type_invariant(self);
        }
        self.iyy
    }

    /// Returns the product of inertia for the yz-plane.
    pub fn get_iyz(&self) -> (v: Scalar)
        ensures
            v == self@.iyz,
    {
        self.iyz
    }

    /// Returns the moment of inertia around the z-axis.
    pub fn get_izz(&self) -> (v: Scalar)
        ensures
            v == self@.izz,
            !v.is_non_positive(),
    {
        proof {
            use_type_invariant(self);
        }
        self.izz
    }

    /// Returns the mass.
    pub fn get_mass(&self) -> (v: Scalar)
        ensures
            v == self@.mass,
            !v.is_non_positive(),
    {
        proof {
            use_type_invariant(self);
        }
        self.mass
    }

    /// Sets the x-coordinate of the center of mass. Never fails.
    pub fn set_cmx(&mut self, cmx: Scalar) -> (r: Result<(), MassPropertiesError>)
        ensures
            r is Ok,
            final(self)@ == (MassPropertiesView { cmx, ..old(self)@ }),
    {
        proof {
            use_type_invariant(&*self);
        }
        self.cmx = cmx;
        Ok(())
    }

    /// Sets the y-coordinate of the center of mass. Never fails.
    pub fn set_cmy(&mut self, cmy: Scalar) -> (r: Result<(), MassPropertiesError>)
        ensures
            r is Ok,
            final(self)@ == (MassPropertiesView { cmy, ..old(self)@ }),
    {
        proof {
            use_type_invariant(&*self);
        }
        self.cmy = cmy;
        Ok(())
    }

    /// Sets the z-coordinate of the center of mass. Never fails.
    pub fn set_cmz(&mut self, cmz: Scalar) -> (r: Result<(), MassPropertiesError>)
        ensures
            r is Ok,
            final(self)@ == (MassPropertiesView { cmz, ..old(self)@ }),
    {
        proof {
            use_type_invariant(&*self);
        }
        self.cmz = cmz;
        Ok(())
    }

    /// Sets the moment of inertia around the x-axis.
    ///
    /// A value less than or equal to zero is refused with
    /// `IxxLessThanOrEqualToZero` and nothing changes.
    pub fn set_ixx(&mut self, ixx: Scalar) -> (r: Result<(), MassPropertiesError>)
        ensures
            ixx.is_non_positive() ==> r == Err::<(), _>(
                MassPropertiesError::IxxLessThanOrEqualToZero,
            ) && final(self)@ == old(self)@,
            !ixx.is_non_positive() ==> r is Ok && final(self)@ == (MassPropertiesView {
                ixx,
                ..old(self)@
            }),
    {
        proof {
            use_type_invariant(&*self);
        }
        if ixx.le_zero() {
            return Err(MassPropertiesError::IxxLessThanOrEqualToZero);
        }
        self.ixx = ixx;
        Ok(())
    }

    /// Sets the product of inertia for the xy-plane. Never fails.
    pub fn set_ixy(&mut self, ixy: Scalar) -> (r: Result<(), MassPropertiesError>)
        ensures
            r is Ok,
            final(self)@ == (MassPropertiesView { ixy, ..old(self)@ }),
    {
        proof {
            use_type_invariant(&*self);
        }
        self.ixy = ixy;
        Ok(())
    }

    /// Sets the product of inertia for the xz-plane. Never fails.
    pub fn set_ixz(&mut self, ixz: Scalar) -> (r: Result<(), MassPropertiesError>)
        ensures
            r is Ok,
            final(self)@ == (MassPropertiesView { ixz, ..old(self)@ }),
    {
        proof {
            use_type_invariant(&*self);
        }
        self.ixz = ixz;
        Ok(())
    }

    /// Sets the moment of inertia around the y-axis.
    ///
    /// A value less than or equal to zero is refused with
    /// `IyyLessThanOrEqualToZero` and nothing changes.
    pub fn set_iyy(&mut self, iyy: Scalar) -> (r: Result<(), MassPropertiesError>)
        ensures
            iyy.is_non_positive() ==> r == Err::<(), _>(
                MassPropertiesError::IyyLessThanOrEqualToZero,
            ) && final(self)@ == old(self)@,
            !iyy.is_non_positive() ==> r is Ok && final(self)@ == (MassPropertiesView {
                iyy,
                ..old(self)@
            }),
    {
        proof {
            use_type_invariant(&*self);
        }
        if iyy.le_zero() {
            return Err(MassPropertiesError::IyyLessThanOrEqualToZero);
        }
        self.iyy = iyy;
        Ok(())
    }

    /// Sets the product of inertia for the yz-plane. Never fails.
    pub fn set_iyz(&mut self, iyz: Scalar) -> (r: Result<(), MassPropertiesError>)
        ensures
            r is Ok,
            final(self)@ == (MassPropertiesView { iyz, ..old(self)@ }),
    {
        proof {
            use_type_invariant(&*self);
        }
        self.iyz = iyz;
        Ok(())
    }

    /// Sets the moment of inertia around the z-axis.
    ///
    /// A value less than or equal to zero is refused with
    /// `IzzLessThanOrEqualToZero` and nothing changes.
    pub fn set_izz(&mut self, izz: Scalar) -> (r: Result<(), MassPropertiesError>)
        ensures
            izz.is_non_positive() ==> r == Err::<(), _>(
                MassPropertiesError::IzzLessThanOrEqualToZero,
            ) && final(self)@ == old(self)@,
            !izz.is_non_positive() ==> r is Ok && final(self)@ == (MassPropertiesView {
                izz,
                ..old(self)@
            }),
    {
        proof {
            use_type_invariant(&*self);
        }
        if izz.le_zero() {
            return Err(MassPropertiesError::IzzLessThanOrEqualToZero);
        }
        self.izz = izz;
        Ok(())
    }

    /// Sets the mass.
    ///
    /// A value less than or equal to zero is refused with
    /// `MassLessThanOrEqualToZero` and nothing changes.
    pub fn set_mass(&mut self, mass: Scalar) -> (r: Result<(), MassPropertiesError>)
        ensures
            mass.is_non_positive() ==> r == Err::<(), _>(
                MassPropertiesError::MassLessThanOrEqualToZero,
            ) && final(self)@ == old(self)@,
            !mass.is_non_positive() ==> r is Ok && final(self)@ == (MassPropertiesView {
                mass,
                ..old(self)@
            }),
    {
        proof {
            use_type_invariant(&*self);
        }
        if mass.le_zero() {
            return Err(MassPropertiesError::MassLessThanOrEqualToZero);
        }
        self.mass = mass;
        Ok(())
    }
}

} // verus!
