//! The policy engine: a fixed, first-match-wins sequence of deny rules over a
//! loaded neurorights policy and Tsafe kernel.

use vstd::prelude::*;
use crate::packet::{
    is_decision_route, is_neural_stream_route, InfranetRouteKind, RoHSlice, SovereignPacket,
    TokenClass,
};

verus! {

/// Process-wide neurorights configuration, immutable once loaded.
#[derive(Debug, Clone)]
pub struct NeurorightsPolicy {
    pub mental_privacy: bool,
    pub cognitive_liberty: bool,
    pub forbid_decision_use: bool,
    pub dreamstate_sensitive: bool,
    pub soulnontradeable: bool,
    pub storagescope: String,
}

/// The authoritative RoH ceiling, in millionths like `RoHSlice`.
#[derive(Debug, Clone, Copy, PartialEq, Eq, Structural)]
pub struct TsafeKernel {
    pub roh_ceiling: u32,
}

/// Result of one evaluation. `AllowWithConstraints` is kept for rules that
/// redact fields; no present rule produces it.
#[derive(Debug, Clone)]
pub enum PolicyDecision {
    Allow,
    Deny { reason: String },
    AllowWithConstraints { reason: String, redactions: Vec<String> },
}

/// The rule that denied a packet, in the guard's and the engine's order.
#[derive(Debug, Clone, Copy, PartialEq, Eq, Structural)]
pub enum DenyRule {
    /// The packet itself asserts mental privacy on a neural-stream route.
    PacketMentalPrivacy,
    /// The packet is dream-state sensitive, tokened, and bound for governance or model update.
    PacketDreamstate,
    /// The packet's RoH exceeds the packet's own ceiling.
    PacketRohCeiling,
    /// The policy requires mental privacy and the neural-stream data is not derived.
    MentalPrivacy,
    /// The policy forbids decision use of dream-state data on a decision route.
    DreamstateDecisionUse,
    /// A chat token asks for more than suggestions.
    ChatNonActuating,
    /// A smart token asks for deep evolution on a structural route.
    SmartDeepEvolution,
    /// Deep evolution on a structural route without an evolve token.
    EvolveRequired,
    /// The packet's RoH exceeds the Tsafe ceiling.
    TsafeCeiling,
    /// The action raises the measured RoH.
    RohMonotone,
}

impl DenyRule {
    pub open spec fn spec_reason(self) -> Seq<char> {
        match self {
            DenyRule::PacketMentalPrivacy => "Neural stream metadata may not be routed for this subject"@,
            DenyRule::PacketDreamstate => "Dream-state-derived data cannot be used in decision-making routes"@,
            DenyRule::PacketRohCeiling => "RoH exceeds the packet's ceiling"@,
            DenyRule::MentalPrivacy => "Mental privacy: raw or index-level neurostream routing is forbidden"@,
            DenyRule::DreamstateDecisionUse => "Dream-state-sensitive data cannot be used in governance/model/OTA routes"@,
            DenyRule::ChatNonActuating => "CHAT tokened routes must be SuggestOnly / non-actuating"@,
            DenyRule::SmartDeepEvolution => "SMART cannot authorize deep evolution or nanoswarm structural changes"@,
            DenyRule::EvolveRequired => "DeepEvolution routes require EVOLVE token class"@,
            DenyRule::TsafeCeiling => "RoH exceeds Tsafe ceiling"@,
            DenyRule::RohMonotone => "RoH monotone safety violated for this packet"@,
        }
    }

    /// The human-readable reason carried by a denial under this rule.
    pub fn reason(&self) -> (r: String)
        ensures
            r@ == self.spec_reason(),
    {
        let s: &str = match self {
            DenyRule::PacketMentalPrivacy => "Neural stream metadata may not be routed for this subject",
            DenyRule::PacketDreamstate => "Dream-state-derived data cannot be used in decision-making routes",
            DenyRule::PacketRohCeiling => "RoH exceeds the packet's ceiling",
            DenyRule::MentalPrivacy => "Mental privacy: raw or index-level neurostream routing is forbidden",
            DenyRule::DreamstateDecisionUse => "Dream-state-sensitive data cannot be used in governance/model/OTA routes",
            DenyRule::ChatNonActuating => "CHAT tokened routes must be SuggestOnly / non-actuating",
            DenyRule::SmartDeepEvolution => "SMART cannot authorize deep evolution or nanoswarm structural changes",
            DenyRule::EvolveRequired => "DeepEvolution routes require EVOLVE token class",
            DenyRule::TsafeCeiling => "RoH exceeds Tsafe ceiling",
            DenyRule::RohMonotone => "RoH monotone safety violated for this packet",
        };
        s.to_owned()
    }
}

/// `d` is the decision that the first denying rule `denial` calls for:
/// `Allow` when no rule denies, else `Deny` with that rule's reason.
pub open spec fn decided_by(d: PolicyDecision, denial: Option<DenyRule>) -> bool {
    match denial {
        Option::None => d is Allow,
        Option::Some(rule) => d matches PolicyDecision::Deny { reason } && reason@ == rule.spec_reason(),
    }
}

/// The decision for the first denying rule, if any.
pub fn decision_for(denial: Option<DenyRule>) -> (r: PolicyDecision)
    ensures
        decided_by(r, denial),
{
    match denial {
        Option::None => PolicyDecision::Allow,
        Option::Some(rule) => PolicyDecision::Deny { reason: rule.reason() },
    }
}

/// The engine's RoH rule on a packet's slice against the Tsafe ceiling.
pub open spec fn roh_denial(roh: Option<RoHSlice>, ceiling: u32) -> Option<DenyRule> {
    match roh {
        Option::Some(s) => if s.exceeds(ceiling) {
            Option::Some(DenyRule::TsafeCeiling)
        } else if s.raises_risk() {
            Option::Some(DenyRule::RohMonotone)
        } else {
            Option::None
        },
        Option::None => Option::None,
    }
}

/// The policy-requires-mental-privacy gate matches the packet.
pub open spec fn mental_privacy_gate(nr: NeurorightsPolicy, pkt: SovereignPacket) -> bool {
    nr.mental_privacy && is_neural_stream_route(pkt.route) && !pkt.spec_is_derived_only()
}

/// An evaluator over one loaded neurorights policy and Tsafe kernel.
#[derive(Debug, Clone)]
pub struct PolicyEngine {
    neurorights: NeurorightsPolicy,
    tsafe: TsafeKernel,
}

impl PolicyEngine {
    pub closed spec fn spec_neurorights(&self) -> NeurorightsPolicy {
        self.neurorights
    }

    pub closed spec fn spec_tsafe(&self) -> TsafeKernel {
        self.tsafe
    }

    /// The first of the engine's rules, in order, that denies `pkt`.
    pub open spec fn spec_first_denial(&self, pkt: SovereignPacket) -> Option<DenyRule> {
        let nr = self.spec_neurorights();
        if mental_privacy_gate(nr, pkt) {
            Option::Some(DenyRule::MentalPrivacy)
        } else if nr.dreamstate_sensitive && nr.forbid_decision_use && is_decision_route(pkt.route) {
            Option::Some(DenyRule::DreamstateDecisionUse)
        } else if pkt.token_class == TokenClass::Chat && !pkt.spec_is_suggest_only() {
            Option::Some(DenyRule::ChatNonActuating)
        } else if pkt.token_class == TokenClass::Smart && pkt.spec_wants_deep_evolution() {
            Option::Some(DenyRule::SmartDeepEvolution)
        } else if pkt.spec_wants_deep_evolution() && pkt.token_class != TokenClass::Evolve {
            Option::Some(DenyRule::EvolveRequired)
        } else {
            roh_denial(pkt.roh, self.spec_tsafe().roh_ceiling)
        }
    }

    /// An engine over a loaded policy and kernel.
    pub fn new(neurorights: NeurorightsPolicy, tsafe: TsafeKernel) -> (r: PolicyEngine)
        ensures
            r.spec_neurorights() == neurorights,
            r.spec_tsafe() == tsafe,
    {
        PolicyEngine { neurorights, tsafe }
    }

    /// The first of the engine's rules that denies `pkt`, or `None`.
    pub fn first_denial(&self, pkt: &SovereignPacket) -> (r: Option<DenyRule>)
        ensures
            r == self.spec_first_denial(*pkt),
    {
        let nr = &self.neurorights;
        if nr.mental_privacy
            && matches!(pkt.route, InfranetRouteKind::NeuroStreamIndex | InfranetRouteKind::BciControl)
            && !pkt.is_derived_only() {
            return Some(DenyRule::MentalPrivacy);
        }
        if nr.dreamstate_sensitive && nr.forbid_decision_use && matches!(
            pkt.route,
            InfranetRouteKind::GovernanceChat | InfranetRouteKind::ModelUpdate
                | InfranetRouteKind::OTAProposal
        ) {
            return Some(DenyRule::DreamstateDecisionUse);
        }
        if pkt.token_class == TokenClass::Chat && !pkt.is_suggest_only() {
            return Some(DenyRule::ChatNonActuating);
        }
        let structural = matches!(
            pkt.route,
            InfranetRouteKind::OTAProposal | InfranetRouteKind::NanoswarmControl
        );
        let deep = structural && pkt.is_deep_evolution();
        if pkt.token_class == TokenClass::Smart && deep {
            return Some(DenyRule::SmartDeepEvolution);
        }
        if deep && pkt.token_class != TokenClass::Evolve {
            return Some(DenyRule::EvolveRequired);
        }
        match pkt.roh {
            Some(s) => if s.roh_after > self.tsafe.roh_ceiling {
                Some(DenyRule::TsafeCeiling)
            } else if s.roh_after > s.roh_before {
                Some(DenyRule::RohMonotone)
            } else {
                None
            },
            None => None,
        }
    }

    /// Evaluates `pkt` against the loaded policy: the first denying rule wins,
    /// and a packet that no rule denies is allowed.
    pub fn evaluate_packet(&self, pkt: &SovereignPacket) -> (r: PolicyDecision)
        ensures
            decided_by(r, self.spec_first_denial(*pkt)),
            pkt.roh matches Option::Some(s) && s.exceeds(self.spec_tsafe().roh_ceiling) ==> r is Deny,
            pkt.roh matches Option::Some(s) && s.raises_risk() ==> r is Deny,
            pkt.token_class == TokenClass::Chat && !pkt.spec_is_suggest_only() ==> r is Deny,
            pkt.spec_wants_deep_evolution() && pkt.token_class != TokenClass::Evolve ==> r is Deny,
            mental_privacy_gate(self.spec_neurorights(), *pkt) ==> (r matches PolicyDecision::Deny { reason }
                && reason@ == DenyRule::MentalPrivacy.spec_reason()),
            !(r is AllowWithConstraints),
    {
        decision_for(self.first_denial(pkt))
    }
}

} // verus!
