//! Admission control for sovereign packets carrying neural and biophysical data:
//! the packet model, the neurorights and RoH policy engine, the guard that adds
//! the packet's own pre-checks, a pluggable content firewall, and the check that
//! re-applies the RoH ceiling to the transport route chosen for a packet.

pub mod packet;
pub mod policy;
pub mod guard;
pub mod firewall;
pub mod mesh;
