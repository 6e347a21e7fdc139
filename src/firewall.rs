//! A pluggable content firewall for chat, OTA-proposal and model-update routes.

use vstd::prelude::*;
use crate::packet::{InfranetRouteKind, SovereignPacket};

verus! {

/// A content classifier's verdict.
#[derive(Debug, Clone, Copy, PartialEq, Eq, Structural)]
pub enum FirewallVerdict {
    Allow,
    Block,
    Quarantine,
}

/// A content classifier, supplied by the user of the firewall.
pub trait FirewallEngine: Send + Sync {
    fn classify(&self, text: &str) -> FirewallVerdict;
}

/// Routes whose packets go through the classifier.
pub open spec fn is_screened_route(r: InfranetRouteKind) -> bool {
    r == InfranetRouteKind::GovernanceChat || r == InfranetRouteKind::OTAProposal
        || r == InfranetRouteKind::ModelUpdate
}

/// The classification key of a packet: `subject_id:payload_type:payload_ref`.
pub open spec fn spec_classification_key(pkt: SovereignPacket) -> Seq<char> {
    pkt.src.subject_id@ + seq![':'] + pkt.payload_type@ + seq![':'] + pkt.payload_ref@
}

/// Builds the key under which the classifier judges `pkt`.
pub fn classification_key(pkt: &SovereignPacket) -> (r: String)
    ensures
        r@ == spec_classification_key(*pkt),
{
    let mut key = pkt.src.subject_id.clone();
    key.append(":");
    key.append(pkt.payload_type.as_str());
    key.append(":");
    key.append(pkt.payload_ref.as_str());
    proof {
        reveal_strlit(":");
    }
    key
}

/// The firewall's verdict on `pkt`, given what the classifier said of its key:
/// screened routes get the classifier's verdict unchanged, all others pass.
pub fn settle_verdict(pkt: &SovereignPacket, classified: FirewallVerdict) -> (r: FirewallVerdict)
    ensures
        r == if is_screened_route(pkt.route) { classified } else { FirewallVerdict::Allow },
{
    match pkt.route {
        InfranetRouteKind::GovernanceChat
        | InfranetRouteKind::OTAProposal
        | InfranetRouteKind::ModelUpdate => classified,
        _ => FirewallVerdict::Allow,
    }
}

/// Runs a classifier over the packets bound for chat, OTA and model pipelines.
pub struct InfranetFirewall<E: FirewallEngine> {
    engine: E,
}

impl<E: FirewallEngine> InfranetFirewall<E> {
    pub closed spec fn spec_engine(&self) -> E {
        self.engine
    }

    pub fn new(engine: E) -> (r: Self)
        ensures
            r.spec_engine() == engine,
    {
        InfranetFirewall { engine }
    }

    /// Evaluates `pkt` before it enters a chat, OTA or model pipeline. Other
    /// routes are allowed without consulting the classifier.
    pub fn evaluate_packet(&self, pkt: &SovereignPacket) -> (r: FirewallVerdict)
        ensures
            !is_screened_route(pkt.route) ==> r == FirewallVerdict::Allow,
    {
        if !matches!(
            pkt.route,
            InfranetRouteKind::GovernanceChat | InfranetRouteKind::OTAProposal
                | InfranetRouteKind::ModelUpdate
        ) {
            return FirewallVerdict::Allow;
        }
        let key = classification_key(pkt);
        let verdict = self.engine.classify(key.as_str());
        settle_verdict(pkt, verdict)
    }
}

/// A classifier that allows everything.
pub struct DummyEngine;

impl FirewallEngine for DummyEngine {
    fn classify(&self, _text: &str) -> FirewallVerdict {
        FirewallVerdict::Allow
    }
}

} // verus!
