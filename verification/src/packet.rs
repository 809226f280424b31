//! Packet receiver, acknowledgement builder, and reply correlator.
//!
//! Exactly one acknowledgement is committed per received packet, in the same
//! call that dispatches the resolved sub-call: the response type carries one
//! acknowledgement and nothing can add a second. Failures while decoding or
//! resolving never abort the call — an unacknowledged packet would stall the
//! sender's channel — so they become failure acknowledgements instead. The
//! acknowledgement committed at receive time is the pessimistic default: the
//! dispatched sub-call has not run yet, and the later reply never revises the
//! already-committed acknowledgement (a documented limitation of the
//! protocol, not repaired here).

use vstd::prelude::*;
use vstd::string::StringExecFns;
use crate::action::{Action, spec_decode, decode_action};
use crate::error::HostError;
use crate::host::{HostState, PendingRecord};

verus! {

/// Why a failure acknowledgement was committed.
#[derive(Clone, Copy, Debug, PartialEq, Eq, Structural)]
pub enum AckFailure {
    /// The payload decoded into no action.
    MalformedPayload,
    /// The sending tenant has no proxy on this host.
    UnknownProxy,
    /// The action was dispatched but its outcome is not known in this call.
    ActionNotFinalized,
}

/// The receipt returned to a packet's sender.
#[derive(Clone, Copy, Debug, PartialEq, Eq, Structural)]
pub enum Acknowledgement {
    Success,
    Failure { kind: AckFailure },
}

impl Acknowledgement {
    /// The human-readable text carried on failure.
    pub fn message(&self) -> (r: String)
        ensures
            *self is Success ==> r@ == "action succeeded"@,
            *self == (Acknowledgement::Failure { kind: AckFailure::MalformedPayload })
                ==> r@ == "packet payload could not be decoded"@,
            *self == (Acknowledgement::Failure { kind: AckFailure::UnknownProxy })
                ==> r@ == "no proxy is registered for the sending tenant"@,
            *self == (Acknowledgement::Failure { kind: AckFailure::ActionNotFinalized })
                ==> r@ == "action dispatched; outcome not finalized"@,
    {
        match self {
            Acknowledgement::Success => String::from_str("action succeeded"),
            Acknowledgement::Failure { kind: AckFailure::MalformedPayload } =>
                String::from_str("packet payload could not be decoded"),
            Acknowledgement::Failure { kind: AckFailure::UnknownProxy } =>
                String::from_str("no proxy is registered for the sending tenant"),
            Acknowledgement::Failure { kind: AckFailure::ActionNotFinalized } =>
                String::from_str("action dispatched; outcome not finalized"),
        }
    }
}

/// An inbound relayed packet: its channel coordinates, the sending tenant,
/// and the opaque payload.
pub struct InboundPacket {
    pub channel_id: String,
    pub sequence: u64,
    pub os_id: u32,
    pub payload: Vec<u8>,
}

/// A concrete instruction for a proxy, produced by the action resolver.
pub struct LocalInstruction {
    pub proxy: String,
    pub action: Action,
}

/// One dispatched sub-call, awaiting a reply under its correlation id.
pub struct SubCall {
    pub correlation_id: u64,
    pub instruction: LocalInstruction,
}

/// What a packet-receive call commits: one acknowledgement, and the
/// dispatched sub-calls (at most one).
pub struct ReceiveResponse {
    pub ack: Acknowledgement,
    pub calls: Vec<SubCall>,
}

/// The deferred outcome of a dispatched sub-call.
pub enum ReplyOutcome {
    Success { data: Vec<u8> },
    Failure { error: String },
}

/// The local bookkeeping result of a reply; it carries no acknowledgement,
/// so the one already committed cannot be revised here.
pub struct ReplyResponse {
    /// Whether the action's outcome was finalized as a success.
    pub finalized: bool,
    /// The failure text surfaced as an observable attribute, if any.
    pub failure: Option<String>,
    /// The tenant whose packet this reply belongs to.
    pub os_id: u32,
    /// The channel sequence of that packet.
    pub sequence: u64,
}

/// The action resolver's narrow interface: translate an action into a local
/// instruction targeted at the owning tenant's proxy. What the proxy then
/// computes (price curves, slippage) is outside this core.
pub fn resolve_action(proxy: &String, action: Action) -> (r: LocalInstruction)
    ensures
        r.proxy == *proxy,
        r.action == action,
{
    LocalInstruction { proxy: proxy.clone(), action }
}

impl HostState {
    /// Receives one relayed packet. Exactly one acknowledgement is returned,
    /// whatever happens: a decode failure or an unknown proxy becomes a
    /// failure acknowledgement with nothing dispatched and the state
    /// untouched; otherwise the resolved instruction is dispatched as one
    /// sub-call under a fresh correlation id, recorded until its reply, and
    /// the default failure acknowledgement is committed alongside it.
    pub fn handle_packet(&mut self, packet: InboundPacket) -> (r: ReceiveResponse)
        requires
            old(self).wf(),
            old(self).next_correlation_id < u64::MAX,
        ensures
            final(self).wf(),
            r.calls@.len() <= 1,
            r.ack is Failure,
            spec_decode(packet.payload@) is None ==> *final(self) == *old(self)
                && r.ack == (Acknowledgement::Failure { kind: AckFailure::MalformedPayload })
                && r.calls@.len() == 0,
            spec_decode(packet.payload@) is Some && !old(self).has_proxy(packet.os_id)
                ==> *final(self) == *old(self)
                && r.ack == (Acknowledgement::Failure { kind: AckFailure::UnknownProxy })
                && r.calls@.len() == 0,
            spec_decode(packet.payload@) is Some && old(self).has_proxy(packet.os_id) ==> {
                &&& r.ack == (Acknowledgement::Failure { kind: AckFailure::ActionNotFinalized })
                &&& r.calls@.len() == 1
                &&& r.calls@[0].correlation_id == old(self).next_correlation_id
                &&& r.calls@[0].instruction.proxy == old(self).proxy_string(packet.os_id)
                &&& r.calls@[0].instruction.action@ == spec_decode(packet.payload@).unwrap()
                &&& final(self).next_correlation_id == old(self).next_correlation_id + 1
                &&& final(self).pending@ == old(self).pending@.push(PendingRecord {
                    correlation_id: old(self).next_correlation_id,
                    os_id: packet.os_id,
                    proxy: old(self).proxy_string(packet.os_id),
                    channel_id: packet.channel_id,
                    sequence: packet.sequence,
                })
                &&& final(self).proxies == old(self).proxies
                &&& final(self).config == old(self).config
            },
    {
        let action = match decode_action(packet.payload.as_slice()) {
            None => {
                return ReceiveResponse {
                    ack: Acknowledgement::Failure { kind: AckFailure::MalformedPayload },
                    calls: Vec::new(),
                };
            }
            Some(a) => a,
        };
        let proxy = match self.lookup_proxy(packet.os_id) {
            None => {
                return ReceiveResponse {
                    ack: Acknowledgement::Failure { kind: AckFailure::UnknownProxy },
                    calls: Vec::new(),
                };
            }
            Some(p) => p,
        };
        let correlation_id = self.next_correlation_id;
        self.next_correlation_id = correlation_id + 1;
        self.pending.push(PendingRecord {
            correlation_id,
            os_id: packet.os_id,
            proxy: proxy.clone(),
            channel_id: packet.channel_id,
            sequence: packet.sequence,
        });
        let instruction = resolve_action(&proxy, action);
        let mut calls: Vec<SubCall> = Vec::new();
        calls.push(SubCall { correlation_id, instruction });
        ReceiveResponse {
            ack: Acknowledgement::Failure { kind: AckFailure::ActionNotFinalized },
            calls,
        }
    }

    /// Receives the deferred outcome of a dispatched sub-call. The pending
    /// record is consumed — each correlation id serves at most one reply —
    /// and the outcome is surfaced in the local response only: the
    /// channel-level acknowledgement already committed stays as it is. An
    /// unknown or already-consumed id is a fatal local error.
    pub fn reply(&mut self, correlation_id: u64, outcome: ReplyOutcome) -> (r: Result<ReplyResponse, HostError>)
        requires
            old(self).wf(),
        ensures
            final(self).wf(),
            r is Ok <==> old(self).has_pending(correlation_id),
            r is Err ==> *final(self) == *old(self)
                && r == Err::<ReplyResponse, HostError>(HostError::UnknownCorrelation),
            r matches Ok(resp) ==> {
                &&& final(self).pending@ == old(self).pending@.remove(old(self).pending_index(correlation_id))
                &&& !final(self).has_pending(correlation_id)
                &&& final(self).config == old(self).config
                &&& final(self).proxies == old(self).proxies
                &&& final(self).next_correlation_id == old(self).next_correlation_id
                &&& resp.os_id == old(self).pending_record(correlation_id).os_id
                &&& resp.sequence == old(self).pending_record(correlation_id).sequence
                &&& (outcome matches ReplyOutcome::Success { .. } ==> resp.finalized && resp.failure is None)
                &&& (outcome matches ReplyOutcome::Failure { error } ==> !resp.finalized && resp.failure == Some(error))
            },
    {
        let mut i: usize = 0;
        while i < self.pending.len()
            invariant
                *self == *old(self),
                self.wf(),
                i <= self.pending@.len(),
                forall|j: int| 0 <= j < i ==> self.pending@[j].correlation_id != correlation_id,
            decreases self.pending@.len() - i,
        {
            if self.pending[i].correlation_id == correlation_id {
                proof {
                    let c = self.pending_index(correlation_id);
                    if c < i as int {
                        assert(self.pending@[c].correlation_id != self.pending@[i as int].correlation_id);
                    }
                    if c > i as int {
                        assert(self.pending@[i as int].correlation_id != self.pending@[c].correlation_id);
                    }
                }
                let record = self.pending.remove(i);
                proof {
                    assert forall|a: int, b: int| 0 <= a < b < self.pending@.len()
                        implies self.pending@[a].correlation_id != self.pending@[b].correlation_id by {
                        assert(self.pending@[a] == old(self).pending@[if a < i as int { a } else { a + 1 }]);
                        assert(self.pending@[b] == old(self).pending@[if b < i as int { b } else { b + 1 }]);
                    }
                    assert forall|a: int| 0 <= a < self.pending@.len()
                        implies self.pending@[a].correlation_id < self.next_correlation_id by {
                        assert(self.pending@[a] == old(self).pending@[if a < i as int { a } else { a + 1 }]);
                    }
                    assert forall|a: int| 0 <= a < self.pending@.len()
                        implies self.pending@[a].correlation_id != correlation_id by {
                        assert(self.pending@[a] == old(self).pending@[if a < i as int { a } else { a + 1 }]);
                    }
                }
                let resp = match outcome {
                    ReplyOutcome::Success { data: _ } => ReplyResponse {
                        finalized: true,
                        failure: None,
                        os_id: record.os_id,
                        sequence: record.sequence,
                    },
                    ReplyOutcome::Failure { error } => ReplyResponse {
                        finalized: false,
                        failure: Some(error),
                        os_id: record.os_id,
                        sequence: record.sequence,
                    },
                };
                return Ok(resp);
            }
            i += 1;
        }
        Err(HostError::UnknownCorrelation)
    }
}

} // verus!
