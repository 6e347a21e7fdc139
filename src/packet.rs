//! The packet model: route kinds, addressing, RoH slices, neurorights posture,
//! token classes and capability scopes.

use vstd::prelude::*;

verus! {

/// High-level route classification.
#[derive(Debug, Clone, Copy, PartialEq, Eq, Structural)]
pub enum InfranetRouteKind {
    BciControl,
    BioTelemetry,
    NeuroStreamIndex,
    OTAProposal,
    OTAArtifactProof,
    GovernanceChat,
    ModelUpdate,
    CivicXRGrid,
    NanoswarmControl,
    NanoswarmTelemetry,
}

/// Routes that carry raw or index-level neural streams.
pub open spec fn is_neural_stream_route(r: InfranetRouteKind) -> bool {
    r == InfranetRouteKind::NeuroStreamIndex || r == InfranetRouteKind::BciControl
}

/// Routes whose content feeds governance, model-update or change-proposal pipelines.
pub open spec fn is_decision_route(r: InfranetRouteKind) -> bool {
    r == InfranetRouteKind::GovernanceChat || r == InfranetRouteKind::ModelUpdate
        || r == InfranetRouteKind::OTAProposal
}

/// Routes that make structural changes.
pub open spec fn is_structural_route(r: InfranetRouteKind) -> bool {
    r == InfranetRouteKind::OTAProposal || r == InfranetRouteKind::NanoswarmControl
}

/// Addressing of the originating or destination principal.
#[derive(Debug, Clone)]
pub struct SovereignAddress {
    pub subject_id: String,
    pub ocpu_id: Option<String>,
}

/// A risk-of-harm measurement before and after an action, with the ceiling that
/// applies to it. Values are fixed-point, in millionths (0.3 is `300_000`).
#[derive(Debug, Clone, Copy, PartialEq, Eq, Structural)]
pub struct RoHSlice {
    pub roh_before: u32,
    pub roh_after: u32,
    pub roh_ceiling: u32,
}

impl RoHSlice {
    /// The action raises the measured risk above `ceiling`.
    pub open spec fn exceeds(self, ceiling: u32) -> bool {
        self.roh_after > ceiling
    }

    /// The action raises the measured risk.
    pub open spec fn raises_risk(self) -> bool {
        self.roh_after > self.roh_before
    }
}

/// Neurorights posture asserted by the packet itself.
#[derive(Debug, Clone, Copy, PartialEq, Eq, Structural)]
pub struct NeurorightsEnvelope {
    pub mental_privacy: bool,
    pub mental_integrity: bool,
    pub cognitive_liberty: bool,
    pub noncommercial_neural_data: bool,
    pub dreamstate_sensitive: bool,
    pub forbid_decision_use: bool,
}

/// Authorization tier of the originating action.
#[derive(Debug, Clone, Copy, PartialEq, Eq, Structural)]
pub enum TokenClass {
    /// No token class asserted.
    NoTier,
    Smart,
    Evolve,
    Chat,
}

/// How the packet may be used: opaque tags compared by equality.
#[derive(Debug, Clone)]
pub struct CapabilityScope {
    pub biophysical_scope: String,
    pub actuation_rights: String,
    pub safety_profile: String,
    pub rights_profile: String,
}

/// The governed packet. `timestamp` is in milliseconds since the Unix epoch.
#[derive(Debug, Clone)]
pub struct SovereignPacket {
    pub src: SovereignAddress,
    pub dst: SovereignAddress,
    pub route: InfranetRouteKind,
    pub timestamp: u64,
    pub roh: Option<RoHSlice>,
    pub neurorights: NeurorightsEnvelope,
    pub token_class: TokenClass,
    pub capability: CapabilityScope,
    /// Logical type of payload.
    pub payload_type: String,
    /// Reference into local storage; never the raw sensitive payload.
    pub payload_ref: String,
    /// Optional external anchor or proof.
    pub hexstamp: Option<String>,
}

/// The biophysical scope under which neural data may leave a private subject.
pub open spec fn derived_only() -> Seq<char> {
    "DerivedOnly"@
}

/// The only actuation rights a chat token may carry.
pub open spec fn suggest_only() -> Seq<char> {
    "SuggestOnly"@
}

/// The safety profile of structural, self-modifying changes.
pub open spec fn deep_evolution() -> Seq<char> {
    "DeepEvolution"@
}

impl SovereignPacket {
    /// The packet's biophysical scope is `DerivedOnly`.
    pub open spec fn spec_is_derived_only(&self) -> bool {
        self.capability.biophysical_scope@ == derived_only()
    }

    /// The packet's actuation rights are `SuggestOnly`.
    pub open spec fn spec_is_suggest_only(&self) -> bool {
        self.capability.actuation_rights@ == suggest_only()
    }

    /// The packet's safety profile is `DeepEvolution`.
    pub open spec fn spec_is_deep_evolution(&self) -> bool {
        self.capability.safety_profile@ == deep_evolution()
    }

    /// A structural route asked for with the deep-evolution safety profile.
    pub open spec fn spec_wants_deep_evolution(&self) -> bool {
        is_structural_route(self.route) && self.spec_is_deep_evolution()
    }

    pub fn is_derived_only(&self) -> (r: bool)
        ensures
            r == self.spec_is_derived_only(),
    {
        tag_is(&self.capability.biophysical_scope, "DerivedOnly")
    }

    pub fn is_suggest_only(&self) -> (r: bool)
        ensures
            r == self.spec_is_suggest_only(),
    {
        tag_is(&self.capability.actuation_rights, "SuggestOnly")
    }

    pub fn is_deep_evolution(&self) -> (r: bool)
        ensures
            r == self.spec_is_deep_evolution(),
    {
        tag_is(&self.capability.safety_profile, "DeepEvolution")
    }
}

/// Whether the capability tag `s` is exactly `tag`.
pub fn tag_is(s: &String, tag: &str) -> (r: bool)
    ensures
        r == (s@ == tag@),
{
    let t = tag.to_owned();
    s.eq(&t)
}

} // verus!
