//! Requests as values, and what a sequence of them makes of the ledger, while the host drops
//! nonces that it no longer keeps.

use vstd::prelude::*;

use crate::error::Error;
use crate::ledger::LedgerView;
use crate::types::{Address, NONCE_TTL_SECS, PING_WINDOW_SECS};

verus! {

/// A request to the contract that its signers have authorized. `now` is the ledger timestamp at
/// which it runs.
pub enum Call {
    Initialize { admin: Address },
    CreateEvent {
        name: Seq<u8>,
        organizer: Address,
        start_time: u64,
        end_time: u64,
        location: Seq<u8>,
        total_pings: u32,
    },
    EndEvent { event_id: u64 },
    Register { now: u64, event_id: u64, attendee: Address, face_hash: [u8; 32] },
    RegisterNonce {
        now: u64,
        nonce_hash: [u8; 32],
        event_id: u64,
        nonce_type: u32,
        ping_index: u32,
    },
    CheckIn {
        now: u64,
        event_id: u64,
        attendee: Address,
        nonce_hash: [u8; 32],
        face_proof_hash: [u8; 32],
        face_match: bool,
    },
    OpenPing { now: u64, event_id: u64, ping_index: u32 },
    ClosePing { event_id: u64 },
    ConfirmPing { now: u64, event_id: u64, attendee: Address, nonce_hash: [u8; 32] },
    MarkAbsent { event_id: u64, attendees: Seq<Address>, ping_index: u32 },
    CheckOut { now: u64, event_id: u64, attendee: Address, nonce_hash: [u8; 32] },
    Mint { now: u64, event_id: u64, attendee: Address, cert_id: [u8; 32] },
    ReportFraud {
        now: u64,
        impersonator: Address,
        requester: Address,
        event_id: u64,
        reason: Seq<u8>,
    },
    RemoveFromBlacklist { addr: Address },
}

/// What can happen to the ledger: a request is made, or the host drops the record of a nonce, which
/// it stores for a limited time only.
pub enum Step {
    Asked(Call),
    NonceDropped([u8; 32]),
}

impl Call {
    /// Whether the request is the admin's to make.
    pub open spec fn is_for_admin(self) -> bool {
        match self {
            Call::CreateEvent { .. } => true,
            Call::EndEvent { .. } => true,
            Call::RegisterNonce { .. } => true,
            Call::OpenPing { .. } => true,
            Call::ClosePing { .. } => true,
            Call::MarkAbsent { .. } => true,
            Call::ReportFraud { .. } => true,
            Call::RemoveFromBlacklist { .. } => true,
            _ => false,
        }
    }

    /// The member who makes the request for themself, if it is such a request.
    pub open spec fn member(self) -> Option<Address> {
        match self {
            Call::Register { attendee, .. } => Some(attendee),
            Call::CheckIn { attendee, .. } => Some(attendee),
            Call::ConfirmPing { attendee, .. } => Some(attendee),
            Call::CheckOut { attendee, .. } => Some(attendee),
            Call::Mint { attendee, .. } => Some(attendee),
            _ => None,
        }
    }

    /// The nonce that the request presents, if it presents one.
    pub open spec fn presented_nonce(self) -> Option<[u8; 32]> {
        match self {
            Call::CheckIn { nonce_hash, .. } => Some(nonce_hash),
            Call::ConfirmPing { nonce_hash, .. } => Some(nonce_hash),
            Call::CheckOut { nonce_hash, .. } => Some(nonce_hash),
            _ => None,
        }
    }
}

impl LedgerView {
    /// Why the request is refused, or none if it is granted.
    pub open spec fn refusal(self, call: Call) -> Option<Error> {
        match call {
            Call::Initialize { .. } => self.initialize_refusal(),
            Call::CreateEvent { .. } => None,
            Call::EndEvent { event_id } => self.end_event_refusal(event_id),
            Call::Register { now, event_id, attendee, .. } => self.register_refusal(
                now,
                event_id,
                attendee,
            ),
            Call::RegisterNonce { nonce_hash, .. } => self.register_nonce_refusal(nonce_hash),
            Call::CheckIn {
                now,
                event_id,
                attendee,
                nonce_hash,
                face_match,
                ..
            } => self.check_in_refusal(now, event_id, attendee, nonce_hash, face_match),
            Call::OpenPing { event_id, .. } => self.active_event_refusal(event_id),
            Call::ClosePing { event_id } => self.close_ping_refusal(event_id),
            Call::ConfirmPing { now, event_id, attendee, nonce_hash } => self.confirm_ping_refusal(
                now,
                event_id,
                attendee,
                nonce_hash,
            ),
            Call::MarkAbsent { .. } => None,
            Call::CheckOut { now, event_id, attendee, nonce_hash } => self.check_out_refusal(
                now,
                event_id,
                attendee,
                nonce_hash,
            ),
            Call::Mint { event_id, attendee, .. } => self.mint_refusal(event_id, attendee),
            Call::ReportFraud { .. } => None,
            Call::RemoveFromBlacklist { .. } => None,
        }
    }

    /// The ledger after the request has been granted.
    pub open spec fn effect(self, call: Call) -> LedgerView {
        match call {
            Call::Initialize { admin } => self.initialized(admin),
            Call::CreateEvent {
                name,
                organizer,
                start_time,
                end_time,
                location,
                total_pings,
            } => self.with_event_created(
                name,
                organizer,
                start_time,
                end_time,
                location,
                total_pings,
            ),
            Call::EndEvent { event_id } => self.with_event_ended(event_id),
            Call::Register { now, event_id, attendee, face_hash } => self.with_registration(
                now,
                event_id,
                attendee,
                face_hash,
            ),
            Call::RegisterNonce { now, nonce_hash, event_id, nonce_type, ping_index } =>
                self.with_nonce(now, nonce_hash, event_id, nonce_type, ping_index),
            Call::CheckIn {
                now,
                event_id,
                attendee,
                nonce_hash,
                face_proof_hash,
                ..
            } => self.with_check_in(now, event_id, attendee, nonce_hash, face_proof_hash),
            Call::OpenPing { now, event_id, ping_index } => self.with_ping_opened(
                now,
                event_id,
                ping_index,
            ),
            Call::ClosePing { event_id } => self.with_ping_closed(event_id),
            Call::ConfirmPing { event_id, attendee, nonce_hash, .. } => self.with_ping_confirmed(
                event_id,
                attendee,
                nonce_hash,
            ),
            Call::MarkAbsent { event_id, attendees, ping_index } => self.with_absences(
                event_id,
                attendees,
                ping_index,
            ),
            Call::CheckOut { now, event_id, attendee, nonce_hash } => self.with_check_out(
                now,
                event_id,
                attendee,
                nonce_hash,
            ),
            Call::Mint { now, event_id, attendee, cert_id } => self.with_certificate(
                now,
                event_id,
                attendee,
                cert_id,
            ),
            Call::ReportFraud { now, impersonator, requester, event_id, reason } => self.with_fraud(
                now,
                impersonator,
                requester,
                event_id,
                reason,
            ),
            Call::RemoveFromBlacklist { addr } => self.without_blacklisting(addr),
        }
    }

    /// Whether a request that is not refused runs to its end: there is an admin where it needs
    /// one, and its numbers fit the machine.
    pub open spec fn completes(self, call: Call) -> bool {
        &&& call.is_for_admin() ==> self.admin is Some
        &&& match call {
            Call::CreateEvent { .. } => self.events_created() < u64::MAX,
            Call::RegisterNonce { now, .. } => now + NONCE_TTL_SECS <= u64::MAX,
            Call::OpenPing { now, .. } => now + PING_WINDOW_SECS <= u64::MAX,
            Call::CheckOut { event_id, attendee, .. } => self.attendance_of_fits(
                event_id,
                attendee,
            ),
            Call::Mint { event_id, attendee, .. } => self.attendance_of_fits(event_id, attendee),
            _ => true,
        }
    }

    /// Whether the request is granted and runs to its end.
    pub open spec fn grants(self, call: Call) -> bool {
        self.refusal(call) is None && self.completes(call)
    }

    /// The ledger after the request, granted or not.
    pub open spec fn next(self, call: Call) -> LedgerView {
        if self.grants(call) {
            self.effect(call)
        } else {
            self
        }
    }

    /// Whether `res` is the contract's answer to the request: success exactly when it is granted,
    /// and otherwise the reason why it is refused.
    pub open spec fn answers<T>(self, call: Call, res: Result<T, Error>) -> bool {
        &&& res is Ok <==> self.grants(call)
        &&& res matches Err(error) ==> self.refusal(call) == Some(error)
    }

    /// Whether a request that presents a nonce has nothing against it up to the point where its
    /// nonce is looked at.
    pub open spec fn reaches_nonce(self, call: Call) -> bool {
        match call {
            Call::CheckIn { event_id, attendee, .. } => {
                &&& !self.blacklist.contains_key(attendee)
                &&& self.registrations.contains_key((event_id, attendee))
                &&& self.active_event_refusal(event_id) is None
                &&& !self.is_checked_in(event_id, attendee)
            },
            Call::ConfirmPing { now, event_id, attendee, .. } => {
                &&& !self.blacklist.contains_key(attendee)
                &&& self.is_checked_in(event_id, attendee)
                &&& self.active_pings.contains_key(event_id)
                &&& !self.active_pings[event_id].closed
                &&& now <= self.active_pings[event_id].expires_at
                &&& !self.attendees[(event_id, attendee)].confirmed_pings.contains(
                    self.active_pings[event_id].ping_index,
                )
            },
            Call::CheckOut { event_id, attendee, .. } => {
                &&& !self.blacklist.contains_key(attendee)
                &&& self.is_checked_in(event_id, attendee)
                &&& !self.attendees[(event_id, attendee)].checked_out
            },
            _ => false,
        }
    }

    /// The ledger after a step.
    pub open spec fn taken(self, step: Step) -> LedgerView {
        match step {
            Step::Asked(call) => self.next(call),
            Step::NonceDropped(nonce_hash) => LedgerView {
                nonces: self.nonces.remove(nonce_hash),
                ..self
            },
        }
    }

    /// The ledger after a sequence of steps.
    pub open spec fn after(self, steps: Seq<Step>) -> LedgerView
        decreases steps.len(),
    {
        if steps.len() == 0 {
            self
        } else {
            self.after(steps.drop_last()).taken(steps.last())
        }
    }
}

} // verus!
