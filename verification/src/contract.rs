//! The contract: what members, organizers and the admin can ask for.

use vstd::prelude::*;

use crate::digest;
use crate::error::Error;
use crate::history::Call;
use crate::ledger::{Invocation, Ledger};
use crate::rules;
use crate::types::{
    copy_bytes, Address, AttendeeData, BlacklistRecord, CertificateData, EventData, FraudEntry,
    FraudLog, FraudView, NonceRecord, PingData, RegistrationData, FULL_ATTENDANCE_BPS,
    MIN_ATTENDANCE_BPS, NONCE_CHECKIN, NONCE_CHECKOUT, NONCE_PING, NONCE_TTL_SECS,
    PING_WINDOW_SECS,
};

verus! {

/// The certification contract. Each request runs on the ledger `by` the invocation that makes it,
/// which its member or the admin must have authorized. A request that is refused leaves the
/// ledger as it was.
pub struct CertificationContract;

impl CertificationContract {
    // ─── Initialisation ───────────────────────────────────────────────

    /// Deploy: set the admin address. Can only be called once.
    pub fn initialize(ledger: &mut Ledger, admin: Address) -> (res: Result<(), Error>)
        ensures
            match old(ledger)@.initialize_refusal() {
                Some(error) => rules::refused(res, error) && final(ledger)@ == old(ledger)@,
                None => res is Ok && final(ledger)@ == old(ledger)@.initialized(admin),
            },
            final(ledger)@ == old(ledger)@.next(Call::Initialize { admin }),
            old(ledger)@.answers(Call::Initialize { admin }, res),
    {
        if ledger.admin.is_some() {
            return Err(Error::Unauthorized);
        }
        ledger.admin = Some(admin);
        ledger.event_counter = Some(0);
        Ok(())
    }

    // ─── Admin helpers ────────────────────────────────────────────────

    /// Returns the admin, whose authorization an admin request needs, or nothing before the
    /// contract is initialized.
    pub fn require_admin(ledger: &Ledger) -> (admin: Option<Address>)
        ensures
            admin == ledger@.admin,
    {
        ledger.admin
    }

    /// Refuses a blacklisted address.
    fn require_not_blacklisted(ledger: &Ledger, addr: &Address) -> (res: Result<(), Error>)
        ensures
            res == if ledger@.blacklist.contains_key(*addr) {
                Err::<(), Error>(Error::Blacklisted)
            } else {
                Ok(())
            },
    {
        if ledger.blacklist.has(addr) {
            Err(Error::Blacklisted)
        } else {
            Ok(())
        }
    }

    // ─── Event management ─────────────────────────────────────────────

    /// Organizer creates a new event (must be called by admin or a
    /// designated organizer — here we keep it admin-only for simplicity).
    /// Returns the id of the event.
    pub fn create_event(
        ledger: &mut Ledger,
        by: &Invocation,
        name: Vec<u8>,
        organizer: Address,
        start_time: u64,
        end_time: u64,
        location: Vec<u8>,
        total_pings: u32,
    ) -> (event_id: u64)
        requires
            by.signed_by_admin(old(ledger)@),
            old(ledger)@.events_created() < u64::MAX,
        ensures
            event_id == old(ledger)@.events_created() + 1,
            final(ledger)@.event_counter == Some(event_id),
            final(ledger)@ == old(ledger)@.with_event_created(
                name@,
                organizer,
                start_time,
                end_time,
                location@,
                total_pings,
            ),
            old(ledger)@.grants(
                Call::CreateEvent {
                    name: name@,
                    organizer,
                    start_time,
                    end_time,
                    location: location@,
                    total_pings,
                },
            ),
            final(ledger)@ == old(ledger)@.next(
                Call::CreateEvent {
                    name: name@,
                    organizer,
                    start_time,
                    end_time,
                    location: location@,
                    total_pings,
                },
            ),
    {
        let counter: u64 = match ledger.event_counter {
            Some(counter) => counter,
            None => 0,
        };
        let event_id: u64 = counter + 1;
        ledger.events.set(
            event_id,
            EventData {
                event_id,
                name,
                organizer,
                start_time,
                end_time,
                location,
                total_pings,
                active: true,
                ended: false,
            },
        );
        ledger.event_counter = Some(event_id);
        event_id
    }

    /// Tells whether `create_event` can be called: there is an id left for the event.
    pub fn create_event_fits(ledger: &Ledger) -> (fits: bool)
        ensures
            fits == (ledger@.events_created() < u64::MAX),
    {
        match ledger.event_counter {
            Some(counter) => counter < u64::MAX,
            None => true,
        }
    }

    /// Mark an event as ended (prevents new check-ins / pings).
    pub fn end_event(ledger: &mut Ledger, by: &Invocation, event_id: u64) -> (res: Result<
        (),
        Error,
    >)
        requires
            by.signed_by_admin(old(ledger)@),
        ensures
            match old(ledger)@.end_event_refusal(event_id) {
                Some(error) => rules::refused(res, error) && final(ledger)@ == old(ledger)@,
                None => res is Ok && final(ledger)@ == old(ledger)@.with_event_ended(event_id),
            },
            final(ledger)@ == old(ledger)@.next(Call::EndEvent { event_id }),
            old(ledger)@.answers(Call::EndEvent { event_id }, res),
    {
        let mut event = match Self::get_event(ledger, event_id) {
            None => return Err(Error::EventNotFound),
            Some(event) => event,
        };
        event.active = false;
        event.ended = true;
        ledger.events.set(event_id, event);
        Ok(())
    }

    // ─── Registration ─────────────────────────────────────────────────

    /// Member registers for an event before it begins.
    /// `face_hash` is the SHA-256 of their profile photo stored off-chain.
    pub fn register(
        ledger: &mut Ledger,
        by: &Invocation,
        event_id: u64,
        attendee: Address,
        face_hash: [u8; 32],
    ) -> (res: Result<(), Error>)
        requires
            by.signed_by(attendee),
        ensures
            match old(ledger)@.register_refusal(by.timestamp, event_id, attendee) {
                Some(error) => rules::refused(res, error) && final(ledger)@ == old(ledger)@,
                None => res is Ok && final(ledger)@ == old(ledger)@.with_registration(
                    by.timestamp,
                    event_id,
                    attendee,
                    face_hash,
                ),
            },
            final(ledger)@ == old(ledger)@.next(
                Call::Register { now: by.timestamp, event_id, attendee, face_hash },
            ),
            old(ledger)@.answers(
                Call::Register { now: by.timestamp, event_id, attendee, face_hash },
                res,
            ),
    {
        if let Err(error) = Self::require_not_blacklisted(ledger, &attendee) {
            return Err(error);
        }
        let start_time: u64 = match Self::require_active_event(ledger, event_id) {
            Err(error) => return Err(error),
            Ok(event) => event.start_time,
        };
        if ledger.registrations.has(&(event_id, attendee)) {
            return Err(Error::AlreadyRegistered);
        }
        if by.timestamp >= start_time {
            return Err(Error::EventNotActive);
        }
        ledger.registrations.set(
            (event_id, attendee),
            RegistrationData { attendee, event_id, registered_at: by.timestamp, face_hash },
        );
        Ok(())
    }

    // ─── QR Nonce management ──────────────────────────────────────────

    /// Backend calls this to register a freshly generated nonce on-chain
    /// before handing the QR to the tablet/display.
    /// `nonce_hash` = SHA-256(random_bytes + event_id + timestamp).
    pub fn register_nonce(
        ledger: &mut Ledger,
        by: &Invocation,
        nonce_hash: [u8; 32],
        event_id: u64,
        nonce_type: u32,
        ping_index: u32,
    ) -> (res: Result<(), Error>)
        requires
            by.signed_by_admin(old(ledger)@),
            old(ledger)@.register_nonce_refusal(nonce_hash) is None ==> by.timestamp
                + NONCE_TTL_SECS <= u64::MAX,
        ensures
            match old(ledger)@.register_nonce_refusal(nonce_hash) {
                Some(error) => rules::refused(res, error) && final(ledger)@ == old(ledger)@,
                None => res is Ok && final(ledger)@ == old(ledger)@.with_nonce(
                    by.timestamp,
                    nonce_hash,
                    event_id,
                    nonce_type,
                    ping_index,
                ),
            },
            final(ledger)@ == old(ledger)@.next(
                Call::RegisterNonce {
                    now: by.timestamp,
                    nonce_hash,
                    event_id,
                    nonce_type,
                    ping_index,
                },
            ),
            old(ledger)@.answers(
                Call::RegisterNonce {
                    now: by.timestamp,
                    nonce_hash,
                    event_id,
                    nonce_type,
                    ping_index,
                },
                res,
            ),
    {
        if ledger.nonces.has(&nonce_hash) {
            return Err(Error::NonceAlreadyUsed);
        }
        let now: u64 = by.timestamp;
        ledger.nonces.set(
            nonce_hash,
            NonceRecord {
                nonce_hash,
                event_id,
                created_at: now,
                expires_at: now + NONCE_TTL_SECS,
                used: false,
                nonce_type,
                ping_index,
            },
        );
        Ok(())
    }

    /// Tells whether `register_nonce` can be called: the end of the nonce's life fits the machine
    /// wherever the request is not refused.
    pub fn register_nonce_fits(ledger: &Ledger, by: &Invocation, nonce_hash: [u8; 32]) -> (fits:
        bool)
        ensures
            fits == (ledger@.register_nonce_refusal(nonce_hash) is None ==> by.timestamp
                + NONCE_TTL_SECS <= u64::MAX),
    {
        ledger.nonces.has(&nonce_hash) || by.timestamp <= u64::MAX - NONCE_TTL_SECS
    }

    /// Looks up a nonce that is still good.
    fn check_nonce(ledger: &Ledger, now: u64, nonce_hash: [u8; 32]) -> (res: Result<
        NonceRecord,
        Error,
    >)
        ensures
            match ledger@.nonce_refusal(now, nonce_hash) {
                Some(error) => rules::refused(res, error),
                None => rules::granted(res, ledger@.nonces[nonce_hash]),
            },
    {
        match ledger.nonces.get(&nonce_hash) {
            None => Err(Error::InvalidNonce),
            Some(record) => {
                if record.used {
                    Err(Error::NonceAlreadyUsed)
                } else if now > record.expires_at {
                    Err(Error::NonceExpired)
                } else {
                    Ok(*record)
                }
            },
        }
    }

    /// Looks up a nonce that is still good for a step of type `nonce_type` at an event.
    fn check_nonce_for(
        ledger: &Ledger,
        now: u64,
        nonce_hash: [u8; 32],
        event_id: u64,
        nonce_type: u32,
    ) -> (res: Result<NonceRecord, Error>)
        ensures
            match ledger@.nonce_refusal_for(now, nonce_hash, event_id, nonce_type) {
                Some(error) => rules::refused(res, error),
                None => rules::granted(res, ledger@.nonces[nonce_hash]),
            },
    {
        match Self::check_nonce(ledger, now, nonce_hash) {
            Err(error) => Err(error),
            Ok(nonce) => {
                if nonce.event_id != event_id || nonce.nonce_type != nonce_type {
                    Err(Error::InvalidNonce)
                } else {
                    Ok(nonce)
                }
            },
        }
    }

    /// Validates and consumes a nonce. Returns the record as it then stands.
    fn consume_nonce(ledger: &mut Ledger, now: u64, nonce_hash: [u8; 32]) -> (res: Result<
        NonceRecord,
        Error,
    >)
        ensures
            match old(ledger)@.nonce_refusal(now, nonce_hash) {
                Some(error) => rules::refused(res, error) && final(ledger)@ == old(ledger)@,
                None => {
                    &&& final(ledger)@ == old(ledger)@.with_nonce_used(nonce_hash)
                    &&& rules::granted(res, final(ledger)@.nonces[nonce_hash])
                },
            },
    {
        match Self::check_nonce(ledger, now, nonce_hash) {
            Err(error) => Err(error),
            Ok(mut record) => {
                record.used = true;
                ledger.nonces.set(nonce_hash, record);
                Ok(record)
            },
        }
    }

    // ─── Check-in (Layer 1 + Layer 2) ─────────────────────────────────

    /// Attendee scans the rotating QR and submits a selfie hash.
    /// Backend has already compared faces; `face_match` is the result
    /// it passes on-chain together with the proof hash.
    ///
    /// * `nonce_hash`       – hash of the QR scanned at the station
    /// * `face_proof_hash`  – IPFS CID of the selfie taken at check-in
    /// * `face_match`       – true if backend face-comparison passed
    pub fn check_in(
        ledger: &mut Ledger,
        by: &Invocation,
        event_id: u64,
        attendee: Address,
        nonce_hash: [u8; 32],
        face_proof_hash: [u8; 32],
        face_match: bool,
    ) -> (res: Result<(), Error>)
        requires
            by.signed_by(attendee),
        ensures
            match old(ledger)@.check_in_refusal(
                by.timestamp,
                event_id,
                attendee,
                nonce_hash,
                face_match,
            ) {
                Some(error) => rules::refused(res, error) && final(ledger)@ == old(ledger)@,
                None => res is Ok && final(ledger)@ == old(ledger)@.with_check_in(
                    by.timestamp,
                    event_id,
                    attendee,
                    nonce_hash,
                    face_proof_hash,
                ),
            },
            final(ledger)@ == old(ledger)@.next(
                Call::CheckIn {
                    now: by.timestamp,
                    event_id,
                    attendee,
                    nonce_hash,
                    face_proof_hash,
                    face_match,
                },
            ),
            old(ledger)@.answers(
                Call::CheckIn {
                    now: by.timestamp,
                    event_id,
                    attendee,
                    nonce_hash,
                    face_proof_hash,
                    face_match,
                },
                res,
            ),
    {
        let now: u64 = by.timestamp;
        if let Err(error) = Self::require_not_blacklisted(ledger, &attendee) {
            return Err(error);
        }

        // Verify registration
        if !ledger.registrations.has(&(event_id, attendee)) {
            return Err(Error::NotRegistered);
        }

        // Event must be active
        if let Err(error) = Self::require_active_event(ledger, event_id) {
            return Err(error);
        }

        // Attendee must not already be checked in
        if let Some(existing) = ledger.attendees.get(&(event_id, attendee)) {
            if existing.checked_in {
                return Err(Error::AlreadyCheckedIn);
            }
        }

        // The nonce must be a check-in nonce for this event
        let nonce = Self::check_nonce_for(ledger, now, nonce_hash, event_id, NONCE_CHECKIN);
        if let Err(error) = nonce {
            return Err(error);
        }

        // Layer 1: face verification
        if !face_match {
            return Err(Error::FaceVerificationFailed);
        }

        if let Err(error) = Self::consume_nonce(ledger, now, nonce_hash) {
            return Err(error);
        }
        let confirmed_pings: Vec<u32> = Vec::new();
        ledger.attendees.set(
            (event_id, attendee),
            AttendeeData {
                attendee,
                event_id,
                checked_in: true,
                checkin_time: now,
                checked_out: false,
                checkout_time: 0,
                checkin_face_proof: face_proof_hash,
                confirmed_pings,
                marked_absent: false,
                eligible: false,
            },
        );
        Ok(())
    }

    // ─── Presence pings (Layer 3) ──────────────────────────────────────

    /// Organizer opens a new presence-ping window.
    /// Should be called at pre-announced intervals during the event.
    pub fn open_ping(
        ledger: &mut Ledger,
        by: &Invocation,
        event_id: u64,
        ping_index: u32,
    ) -> (res: Result<(), Error>)
        requires
            by.signed_by_admin(old(ledger)@),
            old(ledger)@.active_event_refusal(event_id) is None ==> by.timestamp
                + PING_WINDOW_SECS <= u64::MAX,
        ensures
            match old(ledger)@.active_event_refusal(event_id) {
                Some(error) => rules::refused(res, error) && final(ledger)@ == old(ledger)@,
                None => res is Ok && final(ledger)@ == old(ledger)@.with_ping_opened(
                    by.timestamp,
                    event_id,
                    ping_index,
                ),
            },
            final(ledger)@ == old(ledger)@.next(
                Call::OpenPing { now: by.timestamp, event_id, ping_index },
            ),
            old(ledger)@.answers(Call::OpenPing { now: by.timestamp, event_id, ping_index }, res),
    {
        if let Err(error) = Self::require_active_event(ledger, event_id) {
            return Err(error);
        }
        let now: u64 = by.timestamp;
        ledger.active_pings.set(
            event_id,
            PingData {
                event_id,
                ping_index,
                opened_at: now,
                expires_at: now + PING_WINDOW_SECS,
                closed: false,
            },
        );
        Ok(())
    }

    /// Tells whether `open_ping` can be called: the end of the window fits the machine wherever the
    /// request is not refused.
    pub fn open_ping_fits(ledger: &Ledger, by: &Invocation, event_id: u64) -> (fits: bool)
        ensures
            fits == (ledger@.active_event_refusal(event_id) is None ==> by.timestamp
                + PING_WINDOW_SECS <= u64::MAX),
    {
        match Self::require_active_event(ledger, event_id) {
            Err(_) => true,
            Ok(_) => by.timestamp <= u64::MAX - PING_WINDOW_SECS,
        }
    }

    /// Organizer explicitly closes a ping window (optional — expiry also stops it).
    pub fn close_ping(ledger: &mut Ledger, by: &Invocation, event_id: u64) -> (res: Result<
        (),
        Error,
    >)
        requires
            by.signed_by_admin(old(ledger)@),
        ensures
            match old(ledger)@.close_ping_refusal(event_id) {
                Some(error) => rules::refused(res, error) && final(ledger)@ == old(ledger)@,
                None => res is Ok && final(ledger)@ == old(ledger)@.with_ping_closed(event_id),
            },
            final(ledger)@ == old(ledger)@.next(Call::ClosePing { event_id }),
            old(ledger)@.answers(Call::ClosePing { event_id }, res),
    {
        let mut ping = match Self::get_active_ping(ledger, event_id) {
            None => return Err(Error::NoPingActive),
            Some(ping) => ping,
        };
        ping.closed = true;
        ledger.active_pings.set(event_id, ping);
        Ok(())
    }

    /// Attendee confirms presence by scanning the ping QR.
    pub fn confirm_ping(
        ledger: &mut Ledger,
        by: &Invocation,
        event_id: u64,
        attendee: Address,
        nonce_hash: [u8; 32],
    ) -> (res: Result<(), Error>)
        requires
            by.signed_by(attendee),
        ensures
            match old(ledger)@.confirm_ping_refusal(by.timestamp, event_id, attendee, nonce_hash) {
                Some(error) => rules::refused(res, error) && final(ledger)@ == old(ledger)@,
                None => res is Ok && final(ledger)@ == old(ledger)@.with_ping_confirmed(
                    event_id,
                    attendee,
                    nonce_hash,
                ),
            },
            final(ledger)@ == old(ledger)@.next(
                Call::ConfirmPing { now: by.timestamp, event_id, attendee, nonce_hash },
            ),
            old(ledger)@.answers(
                Call::ConfirmPing { now: by.timestamp, event_id, attendee, nonce_hash },
                res,
            ),
    {
        let now: u64 = by.timestamp;
        if let Err(error) = Self::require_not_blacklisted(ledger, &attendee) {
            return Err(error);
        }

        // Must be checked in
        let mut att = match Self::require_checked_in(ledger, event_id, attendee) {
            Err(error) => return Err(error),
            Ok(att) => att,
        };

        // Get active ping for this event
        let ping = match ledger.active_pings.get(&event_id) {
            None => return Err(Error::NoPingActive),
            Some(ping) => *ping,
        };
        if ping.closed {
            return Err(Error::NoPingActive);
        }
        if now > ping.expires_at {
            return Err(Error::PingWindowExpired);
        }

        // Prevent double-confirm for same ping
        if Self::has_confirmed(&att, ping.ping_index) {
            return Err(Error::AlreadyConfirmedPing);
        }

        // The nonce must be a ping nonce for this event + index
        let nonce = match Self::check_nonce_for(ledger, now, nonce_hash, event_id, NONCE_PING) {
            Err(error) => return Err(error),
            Ok(nonce) => nonce,
        };
        if nonce.ping_index != ping.ping_index {
            return Err(Error::InvalidNonce);
        }

        if let Err(error) = Self::consume_nonce(ledger, now, nonce_hash) {
            return Err(error);
        }
        att.confirmed_pings.push(ping.ping_index);
        ledger.attendees.set((event_id, attendee), att);
        Ok(())
    }

    /// Called by backend (or a cron job) to mark attendees who missed a
    /// closing ping as absent. Typically called when a ping window expires.
    pub fn mark_absent_for_missed_ping(
        ledger: &mut Ledger,
        by: &Invocation,
        event_id: u64,
        attendees: Vec<Address>,
        ping_index: u32,
    )
        requires
            by.signed_by_admin(old(ledger)@),
        ensures
            final(ledger)@ == old(ledger)@.with_absences(event_id, attendees@, ping_index),
            old(ledger)@.grants(
                Call::MarkAbsent { event_id, attendees: attendees@, ping_index },
            ),
            final(ledger)@ == old(ledger)@.next(
                Call::MarkAbsent { event_id, attendees: attendees@, ping_index },
            ),
    {
        let ghost before = ledger@;
        assert(ledger@ =~= before.with_absences(event_id, attendees@.take(0), ping_index));
        let mut i: usize = 0;
        while i < attendees.len()
            invariant
                i <= attendees@.len(),
                ledger@ == before.with_absences(event_id, attendees@.take(i as int), ping_index),
            decreases attendees@.len() - i,
        {
            let addr = attendees[i];
            let ghost earlier = ledger@;
            if let Some(att) = ledger.attendees.get(&(event_id, addr)) {
                if !Self::has_confirmed(att, ping_index) {
                    let mut att = att.clone();
                    att.marked_absent = true;
                    ledger.attendees.set((event_id, addr), att);
                }
            }
            proof {
                assert(attendees@.take(i + 1) =~= attendees@.take(i as int).push(addr));
                before.lemma_absence_added(event_id, attendees@.take(i as int), addr, ping_index);
                assert(ledger@ =~= earlier.with_absence(event_id, addr, ping_index));
            }
            i += 1;
        }
        assert(attendees@.take(i as int) =~= attendees@);
    }

    // ─── Check-out ────────────────────────────────────────────────────

    /// Attendee scans the check-out QR to close their attendance record.
    pub fn check_out(
        ledger: &mut Ledger,
        by: &Invocation,
        event_id: u64,
        attendee: Address,
        nonce_hash: [u8; 32],
    ) -> (res: Result<(), Error>)
        requires
            by.signed_by(attendee),
            old(ledger)@.check_out_refusal(by.timestamp, event_id, attendee, nonce_hash) is None
                ==> old(ledger)@.attendance_of_fits(event_id, attendee),
        ensures
            match old(ledger)@.check_out_refusal(by.timestamp, event_id, attendee, nonce_hash) {
                Some(error) => rules::refused(res, error) && final(ledger)@ == old(ledger)@,
                None => res is Ok && final(ledger)@ == old(ledger)@.with_check_out(
                    by.timestamp,
                    event_id,
                    attendee,
                    nonce_hash,
                ),
            },
            final(ledger)@ == old(ledger)@.next(
                Call::CheckOut { now: by.timestamp, event_id, attendee, nonce_hash },
            ),
            old(ledger)@.answers(
                Call::CheckOut { now: by.timestamp, event_id, attendee, nonce_hash },
                res,
            ),
    {
        let now: u64 = by.timestamp;
        let (mut att, total) = match Self::check_check_out(
            ledger,
            now,
            event_id,
            attendee,
            nonce_hash,
        ) {
            Err(error) => return Err(error),
            Ok(found) => found,
        };
        if let Err(error) = Self::consume_nonce(ledger, now, nonce_hash) {
            return Err(error);
        }
        att.checked_out = true;
        att.checkout_time = now;

        // ── Eligibility check ──────────────────────────────────────────
        let ratio_bps: u32 = Self::attendance_ratio(att.confirmed_pings.len(), total);
        att.eligible = ratio_bps >= MIN_ATTENDANCE_BPS;
        ledger.attendees.set((event_id, attendee), att);
        Ok(())
    }

    /// Looks up the record and the scheduled pings of an attendee who can check out.
    fn check_check_out(
        ledger: &Ledger,
        now: u64,
        event_id: u64,
        attendee: Address,
        nonce_hash: [u8; 32],
    ) -> (res: Result<(AttendeeData, u32), Error>)
        ensures
            match ledger@.check_out_refusal(now, event_id, attendee, nonce_hash) {
                Some(error) => rules::refused(res, error),
                None => {
                    &&& res is Ok
                    &&& res->Ok_0.0@ == ledger@.attendees[(event_id, attendee)]
                    &&& res->Ok_0.1 == ledger@.events[event_id].total_pings
                },
            },
    {
        if let Err(error) = Self::require_not_blacklisted(ledger, &attendee) {
            return Err(error);
        }
        let att = match Self::require_checked_in(ledger, event_id, attendee) {
            Err(error) => return Err(error),
            Ok(att) => att,
        };
        if att.checked_out {
            return Err(Error::AlreadyCheckedOut);
        }

        // The nonce must be a check-out nonce for this event
        let nonce = Self::check_nonce_for(ledger, now, nonce_hash, event_id, NONCE_CHECKOUT);
        if let Err(error) = nonce {
            return Err(error);
        }
        match ledger.events.get(&event_id) {
            None => Err(Error::EventNotFound),
            Some(event) => Ok((att, event.total_pings)),
        }
    }

    /// Tells whether `check_out` can be called: the attendance ratio fits the machine wherever
    /// the request is not refused.
    pub fn check_out_fits(
        ledger: &Ledger,
        by: &Invocation,
        event_id: u64,
        attendee: Address,
        nonce_hash: [u8; 32],
    ) -> (fits: bool)
        ensures
            fits == (ledger@.check_out_refusal(by.timestamp, event_id, attendee, nonce_hash) is None
                ==> ledger@.attendance_of_fits(event_id, attendee)),
    {
        match Self::check_check_out(ledger, by.timestamp, event_id, attendee, nonce_hash) {
            Err(_) => true,
            Ok((att, total)) => Self::attendance_fits(att.confirmed_pings.len(), total),
        }
    }

    /// Computes confirmed pings / total pings in basis points, from 0 to 10000.
    pub fn attendance_ratio(confirmed: usize, total: u32) -> (ratio_bps: u32)
        requires
            rules::attendance_fits(confirmed as nat, total),
        ensures
            ratio_bps == rules::attendance_bps(confirmed as nat, total),
    {
        if total == 0 || confirmed >= total as usize {
            // No pings were scheduled, or all were confirmed — full credit
            FULL_ATTENDANCE_BPS
        } else {
            (confirmed as u32 * FULL_ATTENDANCE_BPS) / total
        }
    }

    /// Tells whether `attendance_ratio` can be computed in 32 bits.
    pub fn attendance_fits(confirmed: usize, total: u32) -> (fits: bool)
        ensures
            fits == rules::attendance_fits(confirmed as nat, total),
    {
        total == 0 || confirmed <= (u32::MAX / FULL_ATTENDANCE_BPS) as usize
    }

    // ─── Certificate minting ──────────────────────────────────────────

    /// Mint a certificate NFT (as on-chain record) for an eligible attendee.
    /// The actual NFT asset can be issued separately via Stellar's asset
    /// primitives; this function records the canonical proof on-chain.
    ///
    /// Returns the id of the certificate, SHA-256(event_id || attendee || issued_at): the event id
    /// and the minting time as eight bytes each with the high byte first, the attendee by their
    /// StrKey text.
    pub fn mint_certificate(
        ledger: &mut Ledger,
        by: &Invocation,
        host: &soroban_sdk::Env,
        event_id: u64,
        attendee: Address,
    ) -> (res: Result<[u8; 32], Error>)
        requires
            by.signed_by(attendee),
            old(ledger)@.mint_refusal(event_id, attendee) is None ==> old(
                ledger,
            )@.attendance_of_fits(event_id, attendee),
        ensures
            match old(ledger)@.mint_refusal(event_id, attendee) {
                Some(error) => rules::refused(res, error) && final(ledger)@ == old(ledger)@,
                None => {
                    &&& res matches Ok(cert_id)
                    &&& cert_id@ == digest::sha256_digest(
                        digest::cert_seed(event_id, attendee, by.timestamp),
                    )
                    &&& final(ledger)@ == old(ledger)@.with_certificate(
                        by.timestamp,
                        event_id,
                        attendee,
                        cert_id,
                    )
                },
            },
            res matches Ok(cert_id) ==> final(ledger)@ == old(ledger)@.next(
                Call::Mint { now: by.timestamp, event_id, attendee, cert_id },
            ),
            forall|cert_id: [u8; 32]| #[trigger]
                old(ledger)@.answers(
                    Call::Mint { now: by.timestamp, event_id, attendee, cert_id },
                    res,
                ),
    {
        if let Err(error) = Self::check_mint(ledger, event_id, attendee) {
            return Err(error);
        }
        let cert_id = digest::certificate_id(host, event_id, &attendee, by.timestamp);
        match Self::record_certificate(ledger, by, event_id, attendee, cert_id) {
            Err(error) => Err(error),
            Ok(()) => Ok(cert_id),
        }
    }

    /// Records a certificate under a given id for an eligible attendee.
    pub fn record_certificate(
        ledger: &mut Ledger,
        by: &Invocation,
        event_id: u64,
        attendee: Address,
        cert_id: [u8; 32],
    ) -> (res: Result<(), Error>)
        requires
            by.signed_by(attendee),
            old(ledger)@.mint_refusal(event_id, attendee) is None ==> old(
                ledger,
            )@.attendance_of_fits(event_id, attendee),
        ensures
            match old(ledger)@.mint_refusal(event_id, attendee) {
                Some(error) => rules::refused(res, error) && final(ledger)@ == old(ledger)@,
                None => res is Ok && final(ledger)@ == old(ledger)@.with_certificate(
                    by.timestamp,
                    event_id,
                    attendee,
                    cert_id,
                ),
            },
            final(ledger)@ == old(ledger)@.next(
                Call::Mint { now: by.timestamp, event_id, attendee, cert_id },
            ),
            old(ledger)@.answers(
                Call::Mint { now: by.timestamp, event_id, attendee, cert_id },
                res,
            ),
    {
        let (event_name, confirmed, total) = match Self::check_mint(ledger, event_id, attendee) {
            Err(error) => return Err(error),
            Ok(found) => found,
        };
        let ratio_bps: u32 = Self::attendance_ratio(confirmed, total);
        ledger.certificates.set(
            (event_id, attendee),
            CertificateData {
                cert_id,
                event_id,
                attendee,
                issued_at: by.timestamp,
                attendance_ratio: ratio_bps,
                event_name,
                revoked: false,
            },
        );
        Ok(())
    }

    /// Looks up the event name, the confirmed and the scheduled pings of an attendee who can get a
    /// certificate.
    fn check_mint(ledger: &Ledger, event_id: u64, attendee: Address) -> (res: Result<
        (Vec<u8>, usize, u32),
        Error,
    >)
        ensures
            match ledger@.mint_refusal(event_id, attendee) {
                Some(error) => rules::refused(res, error),
                None => {
                    &&& res is Ok
                    &&& res->Ok_0.0@ == ledger@.events[event_id].name
                    &&& res->Ok_0.1 == ledger@.attendees[(event_id, attendee)].confirmed_pings.len()
                    &&& res->Ok_0.2 == ledger@.events[event_id].total_pings
                },
            },
    {
        if let Err(error) = Self::require_not_blacklisted(ledger, &attendee) {
            return Err(error);
        }
        let (eligible, confirmed) = match ledger.attendees.get(&(event_id, attendee)) {
            None => return Err(Error::NotCheckedIn),
            Some(att) => (att.eligible, att.confirmed_pings.len()),
        };
        if !eligible {
            return Err(Error::NotEligible);
        }
        if ledger.certificates.has(&(event_id, attendee)) {
            return Err(Error::CertificateAlreadyMinted);
        }
        match ledger.events.get(&event_id) {
            None => Err(Error::EventNotFound),
            Some(event) => Ok((copy_bytes(&event.name), confirmed, event.total_pings)),
        }
    }

    /// Tells whether `mint_certificate` and `record_certificate` can be called: the attendance
    /// ratio fits the machine wherever the request is not refused.
    pub fn mint_fits(ledger: &Ledger, event_id: u64, attendee: Address) -> (fits: bool)
        ensures
            fits == (ledger@.mint_refusal(event_id, attendee) is None
                ==> ledger@.attendance_of_fits(event_id, attendee)),
    {
        match Self::check_mint(ledger, event_id, attendee) {
            Err(_) => true,
            Ok((_, confirmed, total)) => Self::attendance_fits(confirmed, total),
        }
    }

    // ─── Fraud handling ───────────────────────────────────────────────

    /// Admin flags two addresses as a fraud pair (impersonator + requester).
    /// Both wallets are blacklisted and their certificates revoked.
    ///
    /// * `impersonator` – the person who physically attended
    /// * `requester`    – the person who asked to be attended for
    pub fn report_fraud(
        ledger: &mut Ledger,
        by: &Invocation,
        impersonator: Address,
        requester: Address,
        event_id: u64,
        reason: Vec<u8>,
    )
        requires
            by.signed_by_admin(old(ledger)@),
        ensures
            final(ledger)@ == old(ledger)@.with_fraud(
                by.timestamp,
                impersonator,
                requester,
                event_id,
                reason@,
            ),
            old(ledger)@.grants(
                Call::ReportFraud {
                    now: by.timestamp,
                    impersonator,
                    requester,
                    event_id,
                    reason: reason@,
                },
            ),
            final(ledger)@ == old(ledger)@.next(
                Call::ReportFraud {
                    now: by.timestamp,
                    impersonator,
                    requester,
                    event_id,
                    reason: reason@,
                },
            ),
    {
        Self::record_offender(ledger, by.timestamp, impersonator, event_id, &reason);
        Self::record_offender(ledger, by.timestamp, requester, event_id, &reason);
    }

    /// Blacklists one address, appends to its fraud log, and revokes its certificate for the
    /// event if it is already minted.
    fn record_offender(
        ledger: &mut Ledger,
        now: u64,
        addr: Address,
        event_id: u64,
        reason: &Vec<u8>,
    )
        ensures
            final(ledger)@ == old(ledger)@.with_offender(now, addr, event_id, reason@),
    {
        // Blacklist
        ledger.blacklist.set(
            addr,
            BlacklistRecord { address: addr, blacklisted_at: now, reason: copy_bytes(reason) },
        );

        // Append to public fraud log
        let mut log = match ledger.fraud_records.get(&addr) {
            None => FraudLog { entries: Vec::new() },
            Some(log) => log.clone(),
        };
        log.entries.push(FraudEntry { event_id, detected_at: now, reason: copy_bytes(reason) });
        assert(log@ =~= old(ledger)@.fraud_log(addr).push(
            FraudView { event_id, detected_at: now, reason: reason@ },
        ));
        ledger.fraud_records.set(addr, log);

        // Revoke certificate if already minted
        if let Some(cert) = ledger.certificates.get(&(event_id, addr)) {
            let mut cert = cert.clone();
            cert.revoked = true;
            ledger.certificates.set((event_id, addr), cert);
        }
    }

    /// Admin can remove an address from the blacklist (appeals / mistakes).
    pub fn remove_from_blacklist(ledger: &mut Ledger, by: &Invocation, addr: Address)
        requires
            by.signed_by_admin(old(ledger)@),
        ensures
            final(ledger)@ == old(ledger)@.without_blacklisting(addr),
            old(ledger)@.grants(Call::RemoveFromBlacklist { addr }),
            final(ledger)@ == old(ledger)@.next(Call::RemoveFromBlacklist { addr }),
    {
        ledger.blacklist.remove(&addr);
    }

    // ─── Read-only queries ────────────────────────────────────────────

    /// Returns the event with this id.
    pub fn get_event(ledger: &Ledger, event_id: u64) -> (event: Option<EventData>)
        ensures
            match event {
                Some(event) => ledger@.events.contains_key(event_id) && event@
                    == ledger@.events[event_id],
                None => !ledger@.events.contains_key(event_id),
            },
    {
        match ledger.events.get(&event_id) {
            Some(event) => Some(event.clone()),
            None => None,
        }
    }

    /// Returns the registration of this attendee for this event.
    pub fn get_registration(ledger: &Ledger, event_id: u64, attendee: Address) -> (registration:
        Option<RegistrationData>)
        ensures
            match registration {
                Some(registration) => ledger@.registrations.contains_key((event_id, attendee))
                    && registration == ledger@.registrations[(event_id, attendee)],
                None => !ledger@.registrations.contains_key((event_id, attendee)),
            },
    {
        match ledger.registrations.get(&(event_id, attendee)) {
            Some(registration) => Some(*registration),
            None => None,
        }
    }

    /// Returns the attendance record of this attendee at this event.
    pub fn get_attendee(ledger: &Ledger, event_id: u64, attendee: Address) -> (record: Option<
        AttendeeData,
    >)
        ensures
            match record {
                Some(record) => ledger@.attendees.contains_key((event_id, attendee)) && record@
                    == ledger@.attendees[(event_id, attendee)],
                None => !ledger@.attendees.contains_key((event_id, attendee)),
            },
    {
        match ledger.attendees.get(&(event_id, attendee)) {
            Some(record) => Some(record.clone()),
            None => None,
        }
    }

    /// Returns the certificate of this attendee for this event.
    pub fn get_certificate(ledger: &Ledger, event_id: u64, attendee: Address) -> (cert: Option<
        CertificateData,
    >)
        ensures
            match cert {
                Some(cert) => ledger@.certificates.contains_key((event_id, attendee)) && cert@
                    == ledger@.certificates[(event_id, attendee)],
                None => !ledger@.certificates.contains_key((event_id, attendee)),
            },
    {
        match ledger.certificates.get(&(event_id, attendee)) {
            Some(cert) => Some(cert.clone()),
            None => None,
        }
    }

    /// Tells whether an address is blacklisted.
    pub fn is_blacklisted(ledger: &Ledger, addr: Address) -> (blacklisted: bool)
        ensures
            blacklisted == ledger@.blacklist.contains_key(addr),
    {
        ledger.blacklist.has(&addr)
    }

    /// Returns the fraud log of an address, oldest entry first.
    pub fn get_fraud_records(ledger: &Ledger, addr: Address) -> (entries: Vec<FraudEntry>)
        ensures
            crate::types::fraud_views(entries@) == ledger@.fraud_log(addr),
            ledger@.fraud_records.contains_key(addr) ==> entries@.len()
                == ledger@.fraud_records[addr].len(),
            ledger@.fraud_records.contains_key(addr) ==> forall|i: int|
                0 <= i < entries@.len() ==> #[trigger] entries@[i]@
                    == ledger@.fraud_records[addr][i],
            !ledger@.fraud_records.contains_key(addr) ==> entries@.len() == 0,
    {
        match ledger.fraud_records.get(&addr) {
            Some(log) => log.clone().entries,
            None => {
                let entries: Vec<FraudEntry> = Vec::new();
                assert(crate::types::fraud_views(entries@) =~= Seq::empty());
                entries
            },
        }
    }

    /// Returns the latest presence ping of an event, open or not.
    pub fn get_active_ping(ledger: &Ledger, event_id: u64) -> (ping: Option<PingData>)
        ensures
            match ping {
                Some(ping) => ledger@.active_pings.contains_key(event_id) && ping
                    == ledger@.active_pings[event_id],
                None => !ledger@.active_pings.contains_key(event_id),
            },
    {
        match ledger.active_pings.get(&event_id) {
            Some(ping) => Some(*ping),
            None => None,
        }
    }

    // ─── Internal helpers ─────────────────────────────────────────────

    /// Returns the record of an attendee who has checked in at the event.
    fn require_checked_in(ledger: &Ledger, event_id: u64, attendee: Address) -> (res: Result<
        AttendeeData,
        Error,
    >)
        ensures
            match res {
                Ok(att) => ledger@.is_checked_in(event_id, attendee) && att@
                    == ledger@.attendees[(event_id, attendee)],
                Err(error) => !ledger@.is_checked_in(event_id, attendee) && error
                    == Error::NotCheckedIn,
            },
    {
        match ledger.attendees.get(&(event_id, attendee)) {
            None => Err(Error::NotCheckedIn),
            Some(att) => {
                if att.checked_in {
                    Ok(att.clone())
                } else {
                    Err(Error::NotCheckedIn)
                }
            },
        }
    }

    /// Tells whether the attendee has confirmed the ping.
    fn has_confirmed(att: &AttendeeData, ping_index: u32) -> (confirmed: bool)
        ensures
            confirmed == att@.confirmed_pings.contains(ping_index),
    {
        let mut i: usize = 0;
        while i < att.confirmed_pings.len()
            invariant
                i <= att.confirmed_pings@.len(),
                forall|j: int| 0 <= j < i ==> att.confirmed_pings@[j] != ping_index,
            decreases att.confirmed_pings@.len() - i,
        {
            if att.confirmed_pings[i] == ping_index {
                return true;
            }
            i += 1;
        }
        false
    }

    /// Returns an event that is active.
    fn require_active_event(ledger: &Ledger, event_id: u64) -> (res: Result<&EventData, Error>)
        ensures
            match ledger@.active_event_refusal(event_id) {
                Some(error) => rules::refused(res, error),
                None => res is Ok && res->Ok_0@ == ledger@.events[event_id],
            },
    {
        match ledger.events.get(&event_id) {
            None => Err(Error::EventNotFound),
            Some(event) => {
                if event.active {
                    Ok(event)
                } else {
                    Err(Error::EventNotActive)
                }
            },
        }
    }
}

} // verus!
