//! Route admissibility: the RoH ceiling is checked again on the transport
//! route that a selector picked for a packet, before the packet is sent.

use vstd::prelude::*;
use crate::packet::{RoHSlice, SovereignPacket};

verus! {

/// A candidate transport path with its own RoH accounting.
#[derive(Debug, Clone)]
pub struct MeshRoute {
    pub path_id: String,
    /// Logical node identifiers, in order.
    pub hops: Vec<String>,
    pub roh_path_slice: Option<RoHSlice>,
}

/// Why a packet was not sent.
#[derive(Debug, Clone, Copy, PartialEq, Eq, Structural)]
pub enum MeshError {
    /// The selector returned no route.
    NoAdmissibleRoute,
    /// The selected route's RoH exceeds its own ceiling or the packet's.
    CeilingViolated,
}

impl MeshError {
    pub open spec fn spec_message(self) -> Seq<char> {
        match self {
            MeshError::NoAdmissibleRoute => "No admissible route for packet"@,
            MeshError::CeilingViolated => "RoHMeshCeiling violated on selected route"@,
        }
    }

    pub fn message(&self) -> (r: String)
        ensures
            r@ == self.spec_message(),
    {
        match self {
            MeshError::NoAdmissibleRoute => "No admissible route for packet".to_owned(),
            MeshError::CeilingViolated => "RoHMeshCeiling violated on selected route".to_owned(),
        }
    }
}

/// The route's RoH exceeds the route's own ceiling, or the ceiling that the
/// packet declares.
pub open spec fn breaches_ceiling(route: MeshRoute, pkt: SovereignPacket) -> bool {
    match route.roh_path_slice {
        Option::Some(s) => s.exceeds(s.roh_ceiling)
            || (pkt.roh matches Option::Some(p) && s.exceeds(p.roh_ceiling)),
        Option::None => false,
    }
}

/// Decides whether `pkt` may be sent over the route that the selector
/// returned: the route comes back when it is admissible, and no route that
/// breaches its own ceiling or the packet's ever does.
pub fn admit_route(selected: Option<MeshRoute>, pkt: &SovereignPacket) -> (r: Result<MeshRoute, MeshError>)
    ensures
        r == match selected {
            Option::None => Err(MeshError::NoAdmissibleRoute),
            Option::Some(route) => if breaches_ceiling(route, *pkt) {
                Err(MeshError::CeilingViolated)
            } else {
                Ok(route)
            },
        },
        r matches Ok(route) ==> !breaches_ceiling(route, *pkt),
{
    match selected {
        None => Err(MeshError::NoAdmissibleRoute),
        Some(route) => {
            let breach = match route.roh_path_slice {
                Some(s) => s.roh_after > s.roh_ceiling || match pkt.roh {
                    Some(p) => s.roh_after > p.roh_ceiling,
                    None => false,
                },
                None => false,
            };
            if breach {
                Err(MeshError::CeilingViolated)
            } else {
                Ok(route)
            }
        },
    }
}

} // verus!
