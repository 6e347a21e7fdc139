//! The guard: the single evaluation entry point. It runs the packet's own
//! pre-checks, which depend only on flags the packet carries, and then hands
//! the packet to the policy engine.

use vstd::prelude::*;
use crate::packet::{is_neural_stream_route, InfranetRouteKind, SovereignPacket, TokenClass};
use crate::policy::{decided_by, decision_for, mental_privacy_gate, DenyRule, PolicyDecision, PolicyEngine};

verus! {

/// The packet's own pre-checks, in order: its asserted mental privacy, its
/// dream-state sensitivity, then its RoH slice against its own ceiling.
pub open spec fn packet_denial(pkt: SovereignPacket) -> Option<DenyRule> {
    if pkt.neurorights.mental_privacy && is_neural_stream_route(pkt.route) {
        Option::Some(DenyRule::PacketMentalPrivacy)
    } else if pkt.neurorights.dreamstate_sensitive && pkt.token_class != TokenClass::NoTier
        && (pkt.route == InfranetRouteKind::GovernanceChat || pkt.route == InfranetRouteKind::ModelUpdate) {
        Option::Some(DenyRule::PacketDreamstate)
    } else {
        match pkt.roh {
            Option::Some(s) => if s.exceeds(s.roh_ceiling) {
                Option::Some(DenyRule::PacketRohCeiling)
            } else if s.raises_risk() {
                Option::Some(DenyRule::RohMonotone)
            } else {
                Option::None
            },
            Option::None => Option::None,
        }
    }
}

/// The packet's own pre-checks, or `None` when none of them denies.
pub fn check_packet(pkt: &SovereignPacket) -> (r: Option<DenyRule>)
    ensures
        r == packet_denial(*pkt),
{
    if pkt.neurorights.mental_privacy
        && matches!(pkt.route, InfranetRouteKind::NeuroStreamIndex | InfranetRouteKind::BciControl) {
        return Some(DenyRule::PacketMentalPrivacy);
    }
    if pkt.neurorights.dreamstate_sensitive && pkt.token_class != TokenClass::NoTier
        && matches!(pkt.route, InfranetRouteKind::GovernanceChat | InfranetRouteKind::ModelUpdate) {
        return Some(DenyRule::PacketDreamstate);
    }
    match pkt.roh {
        Some(s) => if s.roh_after > s.roh_ceiling {
            Some(DenyRule::PacketRohCeiling)
        } else if s.roh_after > s.roh_before {
            Some(DenyRule::RohMonotone)
        } else {
            None
        },
        None => None,
    }
}

/// Wires packet flow into neurorights and RoH policy enforcement.
#[derive(Debug, Clone)]
pub struct InfranetGuard {
    policy: PolicyEngine,
}

impl InfranetGuard {
    pub closed spec fn spec_policy(&self) -> PolicyEngine {
        self.policy
    }

    /// The first rule, pre-checks before the engine's rules, that denies `pkt`.
    pub open spec fn spec_first_denial(&self, pkt: SovereignPacket) -> Option<DenyRule> {
        match packet_denial(pkt) {
            Option::Some(rule) => Option::Some(rule),
            Option::None => self.spec_policy().spec_first_denial(pkt),
        }
    }

    /// A guard over a loaded policy engine.
    pub fn new(policy: PolicyEngine) -> (r: InfranetGuard)
        ensures
            r.spec_policy() == policy,
    {
        InfranetGuard { policy }
    }

    /// Evaluates `pkt`: the packet's own pre-checks, then the engine's rules;
    /// the first that denies decides, and a packet that none denies is allowed.
    /// A RoH slice above the packet's or the Tsafe ceiling, or one that raises
    /// the risk, is always denied; so is a chat token that is not
    /// suggest-only, and deep evolution on a structural route without an
    /// evolve token.
    pub fn evaluate(&self, pkt: &SovereignPacket) -> (r: PolicyDecision)
        ensures
            decided_by(r, self.spec_first_denial(*pkt)),
            pkt.roh matches Option::Some(s) && (s.exceeds(s.roh_ceiling)
                || s.exceeds(self.spec_policy().spec_tsafe().roh_ceiling)) ==> r is Deny,
            pkt.roh matches Option::Some(s) && s.raises_risk() ==> r is Deny,
            pkt.token_class == TokenClass::Chat && !pkt.spec_is_suggest_only() ==> r is Deny,
            pkt.spec_wants_deep_evolution() && pkt.token_class != TokenClass::Evolve ==> r is Deny,
            packet_denial(*pkt) is None && mental_privacy_gate(self.spec_policy().spec_neurorights(), *pkt)
                ==> (r matches PolicyDecision::Deny { reason }
                && reason@ == DenyRule::MentalPrivacy.spec_reason()),
            !(r is AllowWithConstraints),
    {
        match check_packet(pkt) {
            Some(rule) => decision_for(Some(rule)),
            None => self.policy.evaluate_packet(pkt),
        }
    }
}

} // verus!
