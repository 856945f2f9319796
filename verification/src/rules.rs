//! The rules of attendance and certification: for each request, why it is refused and what it
//! writes when it is not.

use vstd::prelude::*;

use crate::error::Error;
use crate::ledger::LedgerView;
use crate::types::{
    Address, AttendeeView, BlacklistView, CertificateView, EventView, FraudView, NonceRecord,
    PingData, RegistrationData, FULL_ATTENDANCE_BPS, MIN_ATTENDANCE_BPS, NONCE_CHECKIN,
    NONCE_CHECKOUT, NONCE_PING, NONCE_TTL_SECS, PING_WINDOW_SECS,
};

verus! {

/// Whether `res` is a refusal with this error.
pub open spec fn refused<T>(res: Result<T, Error>, error: Error) -> bool {
    res == Err::<T, Error>(error)
}

/// Whether `res` grants the request with this value.
pub open spec fn granted<T>(res: Result<T, Error>, value: T) -> bool {
    res == Ok::<T, Error>(value)
}

/// The attendance ratio in basis points, from 0 to 10000. An event without scheduled pings gives
/// full credit, and more pings than were scheduled give no more than that.
pub open spec fn attendance_bps(confirmed: nat, total: u32) -> int {
    if total == 0 || confirmed >= total {
        FULL_ATTENDANCE_BPS as int
    } else {
        confirmed * (FULL_ATTENDANCE_BPS as int) / (total as int)
    }
}

/// Whether the ratio can be computed in 32 bits.
pub open spec fn attendance_fits(confirmed: nat, total: u32) -> bool {
    total == 0 || confirmed * (FULL_ATTENDANCE_BPS as int) <= u32::MAX
}

/// When a window of `length` seconds that opens at `start` ends.
pub open spec fn window_end(start: u64, length: u64) -> u64 {
    (start + length) as u64
}

impl LedgerView {
    // ─── Initialisation ───────────────────────────────────────────────

    /// Why the contract cannot be initialized: it already has an admin.
    pub open spec fn initialize_refusal(self) -> Option<Error> {
        if self.admin is Some {
            Some(Error::Unauthorized)
        } else {
            None
        }
    }

    /// The contract has its admin, and no event has been created.
    pub open spec fn initialized(self, admin: Address) -> LedgerView {
        LedgerView { admin: Some(admin), event_counter: Some(0), ..self }
    }

    // ─── Events ───────────────────────────────────────────────────────

    /// How many events have been created.
    pub open spec fn events_created(self) -> u64 {
        match self.event_counter {
            Some(counter) => counter,
            None => 0,
        }
    }

    /// The id that the next event gets.
    pub open spec fn next_event_id(self) -> u64 {
        (self.events_created() + 1) as u64
    }

    /// A new, active event is on the ledger under the next id.
    pub open spec fn with_event_created(
        self,
        name: Seq<u8>,
        organizer: Address,
        start_time: u64,
        end_time: u64,
        location: Seq<u8>,
        total_pings: u32,
    ) -> LedgerView {
        let event_id = self.next_event_id();
        LedgerView {
            event_counter: Some(event_id),
            events: self.events.insert(
                event_id,
                EventView {
                    event_id,
                    name,
                    organizer,
                    start_time,
                    end_time,
                    location,
                    total_pings,
                    active: true,
                    ended: false,
                },
            ),
            ..self
        }
    }

    /// Why an event cannot be ended: there is none.
    pub open spec fn end_event_refusal(self, event_id: u64) -> Option<Error> {
        if !self.events.contains_key(event_id) {
            Some(Error::EventNotFound)
        } else {
            None
        }
    }

    /// The event has ended and is no longer active.
    pub open spec fn with_event_ended(self, event_id: u64) -> LedgerView {
        LedgerView {
            events: self.events.insert(
                event_id,
                EventView { active: false, ended: true, ..self.events[event_id] },
            ),
            ..self
        }
    }

    /// Why an event does not take what only an active event takes.
    pub open spec fn active_event_refusal(self, event_id: u64) -> Option<Error> {
        if !self.events.contains_key(event_id) {
            Some(Error::EventNotFound)
        } else if !self.events[event_id].active {
            Some(Error::EventNotActive)
        } else {
            None
        }
    }

    // ─── Registration ─────────────────────────────────────────────────

    /// Why a member cannot register, the first reason in this order. Registration closes when the
    /// event begins.
    pub open spec fn register_refusal(
        self,
        now: u64,
        event_id: u64,
        attendee: Address,
    ) -> Option<Error> {
        if self.blacklist.contains_key(attendee) {
            Some(Error::Blacklisted)
        } else if self.active_event_refusal(event_id) is Some {
            self.active_event_refusal(event_id)
        } else if self.registrations.contains_key((event_id, attendee)) {
            Some(Error::AlreadyRegistered)
        } else if now >= self.events[event_id].start_time {
            Some(Error::EventNotActive)
        } else {
            None
        }
    }

    /// The member is registered for the event.
    pub open spec fn with_registration(
        self,
        now: u64,
        event_id: u64,
        attendee: Address,
        face_hash: [u8; 32],
    ) -> LedgerView {
        LedgerView {
            registrations: self.registrations.insert(
                (event_id, attendee),
                RegistrationData { attendee, event_id, registered_at: now, face_hash },
            ),
            ..self
        }
    }

    // ─── QR nonces ────────────────────────────────────────────────────

    /// Why a nonce cannot be registered: there is one with this hash.
    pub open spec fn register_nonce_refusal(self, nonce_hash: [u8; 32]) -> Option<Error> {
        if self.nonces.contains_key(nonce_hash) {
            Some(Error::NonceAlreadyUsed)
        } else {
            None
        }
    }

    /// A fresh nonce is on the ledger.
    pub open spec fn with_nonce(
        self,
        now: u64,
        nonce_hash: [u8; 32],
        event_id: u64,
        nonce_type: u32,
        ping_index: u32,
    ) -> LedgerView {
        LedgerView {
            nonces: self.nonces.insert(
                nonce_hash,
                NonceRecord {
                    nonce_hash,
                    event_id,
                    created_at: now,
                    expires_at: window_end(now, NONCE_TTL_SECS),
                    used: false,
                    nonce_type,
                    ping_index,
                },
            ),
            ..self
        }
    }

    /// Why a nonce cannot be consumed, whatever it is presented for.
    pub open spec fn nonce_refusal(self, now: u64, nonce_hash: [u8; 32]) -> Option<Error> {
        if !self.nonces.contains_key(nonce_hash) {
            Some(Error::InvalidNonce)
        } else if self.nonces[nonce_hash].used {
            Some(Error::NonceAlreadyUsed)
        } else if now > self.nonces[nonce_hash].expires_at {
            Some(Error::NonceExpired)
        } else {
            None
        }
    }

    /// Why a nonce cannot be consumed for a step of type `nonce_type` at `event_id`.
    pub open spec fn nonce_refusal_for(
        self,
        now: u64,
        nonce_hash: [u8; 32],
        event_id: u64,
        nonce_type: u32,
    ) -> Option<Error> {
        if self.nonce_refusal(now, nonce_hash) is Some {
            self.nonce_refusal(now, nonce_hash)
        } else if self.nonces[nonce_hash].event_id != event_id
            || self.nonces[nonce_hash].nonce_type != nonce_type {
            Some(Error::InvalidNonce)
        } else {
            None
        }
    }

    /// The nonce is used up.
    pub open spec fn with_nonce_used(self, nonce_hash: [u8; 32]) -> LedgerView {
        LedgerView {
            nonces: self.nonces.insert(
                nonce_hash,
                NonceRecord { used: true, ..self.nonces[nonce_hash] },
            ),
            ..self
        }
    }

    // ─── Check-in ─────────────────────────────────────────────────────

    /// Whether the attendee has checked in at the event.
    pub open spec fn is_checked_in(self, event_id: u64, attendee: Address) -> bool {
        &&& self.attendees.contains_key((event_id, attendee))
        &&& self.attendees[(event_id, attendee)].checked_in
    }

    /// Why a member cannot check in, the first reason in this order.
    pub open spec fn check_in_refusal(
        self,
        now: u64,
        event_id: u64,
        attendee: Address,
        nonce_hash: [u8; 32],
        face_match: bool,
    ) -> Option<Error> {
        if self.blacklist.contains_key(attendee) {
            Some(Error::Blacklisted)
        } else if !self.registrations.contains_key((event_id, attendee)) {
            Some(Error::NotRegistered)
        } else if self.active_event_refusal(event_id) is Some {
            self.active_event_refusal(event_id)
        } else if self.is_checked_in(event_id, attendee) {
            Some(Error::AlreadyCheckedIn)
        } else if self.nonce_refusal_for(now, nonce_hash, event_id, NONCE_CHECKIN) is Some {
            self.nonce_refusal_for(now, nonce_hash, event_id, NONCE_CHECKIN)
        } else if !face_match {
            Some(Error::FaceVerificationFailed)
        } else {
            None
        }
    }

    /// The nonce is used up, and the member is present with no pings confirmed yet.
    pub open spec fn with_check_in(
        self,
        now: u64,
        event_id: u64,
        attendee: Address,
        nonce_hash: [u8; 32],
        face_proof_hash: [u8; 32],
    ) -> LedgerView {
        LedgerView {
            attendees: self.attendees.insert(
                (event_id, attendee),
                AttendeeView {
                    attendee,
                    event_id,
                    checked_in: true,
                    checkin_time: now,
                    checked_out: false,
                    checkout_time: 0,
                    checkin_face_proof: face_proof_hash,
                    confirmed_pings: Seq::empty(),
                    marked_absent: false,
                    eligible: false,
                },
            ),
            ..self.with_nonce_used(nonce_hash)
        }
    }

    // ─── Presence pings ───────────────────────────────────────────────

    /// The event has a fresh ping window, in place of an earlier one.
    pub open spec fn with_ping_opened(
        self,
        now: u64,
        event_id: u64,
        ping_index: u32,
    ) -> LedgerView {
        LedgerView {
            active_pings: self.active_pings.insert(
                event_id,
                PingData {
                    event_id,
                    ping_index,
                    opened_at: now,
                    expires_at: window_end(now, PING_WINDOW_SECS),
                    closed: false,
                },
            ),
            ..self
        }
    }

    /// Why a ping window cannot be closed: there is none.
    pub open spec fn close_ping_refusal(self, event_id: u64) -> Option<Error> {
        if !self.active_pings.contains_key(event_id) {
            Some(Error::NoPingActive)
        } else {
            None
        }
    }

    /// The ping window of the event is closed.
    pub open spec fn with_ping_closed(self, event_id: u64) -> LedgerView {
        LedgerView {
            active_pings: self.active_pings.insert(
                event_id,
                PingData { closed: true, ..self.active_pings[event_id] },
            ),
            ..self
        }
    }

    /// Why a member cannot confirm the ping, the first reason in this order.
    pub open spec fn confirm_ping_refusal(
        self,
        now: u64,
        event_id: u64,
        attendee: Address,
        nonce_hash: [u8; 32],
    ) -> Option<Error> {
        let ping = self.active_pings[event_id];
        if self.blacklist.contains_key(attendee) {
            Some(Error::Blacklisted)
        } else if !self.is_checked_in(event_id, attendee) {
            Some(Error::NotCheckedIn)
        } else if !self.active_pings.contains_key(event_id) || ping.closed {
            Some(Error::NoPingActive)
        } else if now > ping.expires_at {
            Some(Error::PingWindowExpired)
        } else if self.attendees[(event_id, attendee)].confirmed_pings.contains(ping.ping_index) {
            Some(Error::AlreadyConfirmedPing)
        } else if self.nonce_refusal_for(now, nonce_hash, event_id, NONCE_PING) is Some {
            self.nonce_refusal_for(now, nonce_hash, event_id, NONCE_PING)
        } else if self.nonces[nonce_hash].ping_index != ping.ping_index {
            Some(Error::InvalidNonce)
        } else {
            None
        }
    }

    /// The nonce is used up, and the ping is among those the member confirmed.
    pub open spec fn with_ping_confirmed(
        self,
        event_id: u64,
        attendee: Address,
        nonce_hash: [u8; 32],
    ) -> LedgerView {
        let record = self.attendees[(event_id, attendee)];
        LedgerView {
            attendees: self.attendees.insert(
                (event_id, attendee),
                AttendeeView {
                    confirmed_pings: record.confirmed_pings.push(
                        self.active_pings[event_id].ping_index,
                    ),
                    ..record
                },
            ),
            ..self.with_nonce_used(nonce_hash)
        }
    }

    /// Whether the attendee is on record at the event without having confirmed the ping.
    pub open spec fn missed_ping(self, event_id: u64, attendee: Address, ping_index: u32) -> bool {
        &&& self.attendees.contains_key((event_id, attendee))
        &&& !self.attendees[(event_id, attendee)].confirmed_pings.contains(ping_index)
    }

    /// Every attendee listed in `attendees` who missed the ping is marked absent.
    pub open spec fn with_absences(
        self,
        event_id: u64,
        attendees: Seq<Address>,
        ping_index: u32,
    ) -> LedgerView {
        LedgerView {
            attendees: Map::new(
                |key: (u64, Address)| self.attendees.contains_key(key),
                |key: (u64, Address)|
                    {
                        let record = self.attendees[key];
                        if key.0 == event_id && attendees.contains(key.1)
                            && !record.confirmed_pings.contains(ping_index) {
                            AttendeeView { marked_absent: true, ..record }
                        } else {
                            record
                        }
                    },
            ),
            ..self
        }
    }

    /// One attendee is marked absent if they missed the ping.
    pub open spec fn with_absence(
        self,
        event_id: u64,
        attendee: Address,
        ping_index: u32,
    ) -> LedgerView {
        if self.missed_ping(event_id, attendee, ping_index) {
            LedgerView {
                attendees: self.attendees.insert(
                    (event_id, attendee),
                    AttendeeView {
                        marked_absent: true,
                        ..self.attendees[(event_id, attendee)]
                    },
                ),
                ..self
            }
        } else {
            self
        }
    }

    /// Marking one attendee more is a step of its own.
    pub proof fn lemma_absence_added(
        self,
        event_id: u64,
        attendees: Seq<Address>,
        attendee: Address,
        ping_index: u32,
    )
        ensures
            self.with_absences(event_id, attendees.push(attendee), ping_index)
                == self.with_absences(event_id, attendees, ping_index).with_absence(
                event_id,
                attendee,
                ping_index,
            ),
    {
        let more = attendees.push(attendee);
        assert(more.contains(attendee)) by {
            assert(more[attendees.len() as int] == attendee);
        }
        assert forall|a: Address| attendees.contains(a) implies more.contains(a) by {
            let i = attendees.index_of(a);
            assert(more[i] == a);
        }
        assert(self.with_absences(event_id, more, ping_index) =~= self.with_absences(
            event_id,
            attendees,
            ping_index,
        ).with_absence(event_id, attendee, ping_index));
    }

    // ─── Check-out ────────────────────────────────────────────────────

    /// The attendance ratio of the attendee at the event, in basis points.
    pub open spec fn attendance_of(self, event_id: u64, attendee: Address) -> int {
        attendance_bps(
            self.attendees[(event_id, attendee)].confirmed_pings.len(),
            self.events[event_id].total_pings,
        )
    }

    /// Whether the attendance ratio of the attendee at the event can be computed in 32 bits.
    pub open spec fn attendance_of_fits(self, event_id: u64, attendee: Address) -> bool {
        attendance_fits(
            self.attendees[(event_id, attendee)].confirmed_pings.len(),
            self.events[event_id].total_pings,
        )
    }

    /// Why a member cannot check out, the first reason in this order.
    pub open spec fn check_out_refusal(
        self,
        now: u64,
        event_id: u64,
        attendee: Address,
        nonce_hash: [u8; 32],
    ) -> Option<Error> {
        if self.blacklist.contains_key(attendee) {
            Some(Error::Blacklisted)
        } else if !self.is_checked_in(event_id, attendee) {
            Some(Error::NotCheckedIn)
        } else if self.attendees[(event_id, attendee)].checked_out {
            Some(Error::AlreadyCheckedOut)
        } else if self.nonce_refusal_for(now, nonce_hash, event_id, NONCE_CHECKOUT) is Some {
            self.nonce_refusal_for(now, nonce_hash, event_id, NONCE_CHECKOUT)
        } else if !self.events.contains_key(event_id) {
            Some(Error::EventNotFound)
        } else {
            None
        }
    }

    /// The nonce is used up, and the attendance is closed with its verdict.
    pub open spec fn with_check_out(
        self,
        now: u64,
        event_id: u64,
        attendee: Address,
        nonce_hash: [u8; 32],
    ) -> LedgerView {
        LedgerView {
            attendees: self.attendees.insert(
                (event_id, attendee),
                AttendeeView {
                    checked_out: true,
                    checkout_time: now,
                    eligible: self.attendance_of(event_id, attendee) >= MIN_ATTENDANCE_BPS,
                    ..self.attendees[(event_id, attendee)]
                },
            ),
            ..self.with_nonce_used(nonce_hash)
        }
    }

    // ─── Certificates ─────────────────────────────────────────────────

    /// Why a member gets no certificate, the first reason in this order.
    pub open spec fn mint_refusal(self, event_id: u64, attendee: Address) -> Option<Error> {
        if self.blacklist.contains_key(attendee) {
            Some(Error::Blacklisted)
        } else if !self.attendees.contains_key((event_id, attendee)) {
            Some(Error::NotCheckedIn)
        } else if !self.attendees[(event_id, attendee)].eligible {
            Some(Error::NotEligible)
        } else if self.certificates.contains_key((event_id, attendee)) {
            Some(Error::CertificateAlreadyMinted)
        } else if !self.events.contains_key(event_id) {
            Some(Error::EventNotFound)
        } else {
            None
        }
    }

    /// The member has a certificate with this id for the event.
    pub open spec fn with_certificate(
        self,
        now: u64,
        event_id: u64,
        attendee: Address,
        cert_id: [u8; 32],
    ) -> LedgerView {
        LedgerView {
            certificates: self.certificates.insert(
                (event_id, attendee),
                CertificateView {
                    cert_id,
                    event_id,
                    attendee,
                    issued_at: now,
                    attendance_ratio: self.attendance_of(event_id, attendee) as u32,
                    event_name: self.events[event_id].name,
                    revoked: false,
                },
            ),
            ..self
        }
    }

    // ─── Fraud ────────────────────────────────────────────────────────

    /// The fraud log of an address, oldest entry first.
    pub open spec fn fraud_log(self, address: Address) -> Seq<FraudView> {
        if self.fraud_records.contains_key(address) {
            self.fraud_records[address]
        } else {
            Seq::empty()
        }
    }

    /// One address is blacklisted, its fraud log grows, and its certificate for the event, if
    /// there is one, is revoked.
    pub open spec fn with_offender(
        self,
        now: u64,
        address: Address,
        event_id: u64,
        reason: Seq<u8>,
    ) -> LedgerView {
        LedgerView {
            blacklist: self.blacklist.insert(
                address,
                BlacklistView { address, blacklisted_at: now, reason },
            ),
            fraud_records: self.fraud_records.insert(
                address,
                self.fraud_log(address).push(FraudView { event_id, detected_at: now, reason }),
            ),
            certificates: if self.certificates.contains_key((event_id, address)) {
                self.certificates.insert(
                    (event_id, address),
                    CertificateView { revoked: true, ..self.certificates[(event_id, address)] },
                )
            } else {
                self.certificates
            },
            ..self
        }
    }

    /// Both parties of a fraud are recorded as offenders, the impersonator first.
    pub open spec fn with_fraud(
        self,
        now: u64,
        impersonator: Address,
        requester: Address,
        event_id: u64,
        reason: Seq<u8>,
    ) -> LedgerView {
        self.with_offender(now, impersonator, event_id, reason).with_offender(
            now,
            requester,
            event_id,
            reason,
        )
    }

    /// The address is not blacklisted.
    pub open spec fn without_blacklisting(self, address: Address) -> LedgerView {
        LedgerView { blacklist: self.blacklist.remove(address), ..self }
    }
}

} // verus!
