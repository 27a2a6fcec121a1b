//! Exact-arithmetic projective geometry: homogeneous points and lines,
//! incidence, join and meet, polarities of Cayley-Klein planes, and the
//! classical constructions built on them.
use vstd::prelude::*;

pub mod pg_object;
pub mod pg_plane;
pub mod ck_plane;
pub mod ell_object;
pub mod hyp_object;
pub mod myck_object;
pub mod euclid_object;
pub mod persp_object;
pub mod error;
pub mod fractions;
pub mod predicates;
pub mod transform;
pub mod conic;
pub mod cross_ratio;

pub use crate::ck_plane::{
    CayleyKleinPlane, CayleyKleinPlanePrimitive, Polarity, altitude, is_perpendicular, orthocenter,
    reflect, tri_altitude,
};
pub use crate::pg_object::{EllipticLine, EllipticPoint};
pub use crate::pg_object::{EuclidLine, EuclidPoint};
pub use crate::pg_object::{HyperbolicLine, HyperbolicPoint};
pub use crate::pg_object::{MyCKLine, MyCKPoint};
pub use crate::pg_object::{PerspLine, PerspPoint};
pub use crate::pg_object::{PgLine, PgPoint};
pub use crate::pg_plane::{
    Homogeneous, ProjectivePlane, ProjectivePlanePrimitive, check_axiom, check_axiom2,
    check_desargue, check_pappus, coincident, harm_conj, involution, persp, tri_dual,
};

verus! {

} // verus!
