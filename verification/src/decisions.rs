//! Who is granted what: for each request, the conditions on the ledger entries under which it is
//! granted, and those under which each refusal comes.

use vstd::prelude::*;

use crate::error::Error;
use crate::history::Call;
use crate::ledger::LedgerView;
use crate::types::Address;

verus! {

// ─── The admin's requests ─────────────────────────────────────────────

/// The contract can be initialized exactly when it has no admin yet, and otherwise answers
/// `Unauthorized`.
pub proof fn law_who_initializes(ledger: LedgerView, admin: Address)
    ensures
        ({
            let call = Call::Initialize { admin };
            &&& ledger.grants(call) <==> ledger.admin is None
            &&& ledger.refusal(call) is None <==> ledger.admin is None
            &&& ledger.refusal(call) == Some(Error::Unauthorized) <==> ledger.admin is Some
        }),
{
}

/// The admin can create any event, whatever its terms, as long as there is an id left for it.
pub proof fn law_who_creates_events(
    ledger: LedgerView,
    name: Seq<u8>,
    organizer: Address,
    start_time: u64,
    end_time: u64,
    location: Seq<u8>,
    total_pings: u32,
)
    ensures
        ({
            let call = Call::CreateEvent {
                name,
                organizer,
                start_time,
                end_time,
                location,
                total_pings,
            };
            &&& ledger.grants(call) <==> ledger.admin is Some && ledger.event_counter != Some(
                u64::MAX,
            )
            &&& ledger.refusal(call) is None
        }),
{
}

/// The admin can end every event there is, also one that has ended.
pub proof fn law_who_ends_events(ledger: LedgerView, event_id: u64)
    ensures
        ({
            let call = Call::EndEvent { event_id };
            &&& ledger.grants(call) <==> ledger.admin is Some && ledger.events.contains_key(
                event_id,
            )
            &&& ledger.refusal(call) is None <==> ledger.events.contains_key(event_id)
            &&& ledger.refusal(call) == Some(Error::EventNotFound)
                <==> !ledger.events.contains_key(event_id)
        }),
{
}

/// The admin can register every nonce whose hash is not on record, for any event, step and ping,
/// as long as its 15 seconds end in time.
pub proof fn law_who_registers_nonces(
    ledger: LedgerView,
    now: u64,
    nonce_hash: [u8; 32],
    event_id: u64,
    nonce_type: u32,
    ping_index: u32,
)
    ensures
        ({
            let call = Call::RegisterNonce { now, nonce_hash, event_id, nonce_type, ping_index };
            &&& ledger.grants(call) <==> ledger.admin is Some && !ledger.nonces.contains_key(
                nonce_hash,
            ) && now + 15 <= u64::MAX
            &&& ledger.refusal(call) is None <==> !ledger.nonces.contains_key(nonce_hash)
            &&& ledger.refusal(call) == Some(Error::NonceAlreadyUsed)
                <==> ledger.nonces.contains_key(nonce_hash)
        }),
{
}

/// The admin can open any ping at every active event, whatever ping came before, as long as its
/// 240 seconds end in time.
pub proof fn law_who_opens_pings(ledger: LedgerView, now: u64, event_id: u64, ping_index: u32)
    ensures
        ({
            let call = Call::OpenPing { now, event_id, ping_index };
            let found = ledger.events.contains_key(event_id);
            let active = ledger.events[event_id].active;
            &&& ledger.grants(call) <==> ledger.admin is Some && found && active && now + 240
                <= u64::MAX
            &&& ledger.refusal(call) is None <==> found && active
            &&& ledger.refusal(call) == Some(Error::EventNotFound) <==> !found
            &&& ledger.refusal(call) == Some(Error::EventNotActive) <==> found && !active
        }),
{
}

/// The admin can close the ping of every event that has had one, also one that is closed, expired
/// or of an event that has ended.
pub proof fn law_who_closes_pings(ledger: LedgerView, event_id: u64)
    ensures
        ({
            let call = Call::ClosePing { event_id };
            let found = ledger.active_pings.contains_key(event_id);
            &&& ledger.grants(call) <==> ledger.admin is Some && found
            &&& ledger.refusal(call) is None <==> found
            &&& ledger.refusal(call) == Some(Error::NoPingActive) <==> !found
        }),
{
}

/// The admin can always mark absences, report a fraud and lift a blacklisting.
pub proof fn law_who_marks_reports_and_appeals(
    ledger: LedgerView,
    now: u64,
    event_id: u64,
    attendees: Seq<Address>,
    ping_index: u32,
    impersonator: Address,
    requester: Address,
    reason: Seq<u8>,
)
    ensures
        ({
            let mark = Call::MarkAbsent { event_id, attendees, ping_index };
            let report = Call::ReportFraud { now, impersonator, requester, event_id, reason };
            let appeal = Call::RemoveFromBlacklist { addr: requester };
            &&& ledger.grants(mark) <==> ledger.admin is Some
            &&& ledger.grants(report) <==> ledger.admin is Some
            &&& ledger.grants(appeal) <==> ledger.admin is Some
            &&& ledger.refusal(mark) is None
            &&& ledger.refusal(report) is None
            &&& ledger.refusal(appeal) is None
        }),
{
}

// ─── The members' requests ────────────────────────────────────────────

/// A member can register exactly when they are not blacklisted, the event is active and has not
/// begun, and they are not registered for it. Neither the admin, the end of the event nor what
/// is on record of other members plays a part.
pub proof fn law_who_registers(
    ledger: LedgerView,
    now: u64,
    event_id: u64,
    attendee: Address,
    face_hash: [u8; 32],
)
    ensures
        ({
            let call = Call::Register { now, event_id, attendee, face_hash };
            let blacklisted = ledger.blacklist.contains_key(attendee);
            let found = ledger.events.contains_key(event_id);
            let event = ledger.events[event_id];
            let registered = ledger.registrations.contains_key((event_id, attendee));
            &&& ledger.grants(call) <==> !blacklisted && found && event.active && !registered && now
                < event.start_time
            &&& ledger.refusal(call) is None <==> ledger.grants(call)
            &&& ledger.refusal(call) == Some(Error::Blacklisted) <==> blacklisted
            &&& ledger.refusal(call) == Some(Error::EventNotFound) <==> !blacklisted && !found
            &&& ledger.refusal(call) == Some(Error::AlreadyRegistered) <==> !blacklisted && found
                && event.active && registered
            &&& ledger.refusal(call) == Some(Error::EventNotActive) <==> !blacklisted && found && (
            !event.active || !registered && now >= event.start_time)
        }),
{
}

/// A member can check in exactly when they are registered, not blacklisted and not checked in,
/// the event is active, the nonce is a fresh check-in nonce of the event, and the face matches.
/// When the event begins or is planned to end plays no part.
pub proof fn law_who_checks_in(
    ledger: LedgerView,
    now: u64,
    event_id: u64,
    attendee: Address,
    nonce_hash: [u8; 32],
    face_proof_hash: [u8; 32],
    face_match: bool,
)
    ensures
        ({
            let call = Call::CheckIn {
                now,
                event_id,
                attendee,
                nonce_hash,
                face_proof_hash,
                face_match,
            };
            let blacklisted = ledger.blacklist.contains_key(attendee);
            let registered = ledger.registrations.contains_key((event_id, attendee));
            let found = ledger.events.contains_key(event_id);
            let active = ledger.events[event_id].active;
            let present = ledger.attendees.contains_key((event_id, attendee))
                && ledger.attendees[(event_id, attendee)].checked_in;
            let expected = !blacklisted && registered && found && active && !present;
            let known = ledger.nonces.contains_key(nonce_hash);
            let nonce = ledger.nonces[nonce_hash];
            let good = known && !nonce.used && now <= nonce.expires_at;
            let bound = nonce.event_id == event_id && nonce.nonce_type == 0;
            &&& ledger.grants(call) <==> expected && good && bound && face_match
            &&& ledger.refusal(call) is None <==> ledger.grants(call)
            &&& ledger.refusal(call) == Some(Error::Blacklisted) <==> blacklisted
            &&& ledger.refusal(call) == Some(Error::NotRegistered) <==> !blacklisted && !registered
            &&& ledger.refusal(call) == Some(Error::EventNotFound) <==> !blacklisted && registered
                && !found
            &&& ledger.refusal(call) == Some(Error::EventNotActive) <==> !blacklisted && registered
                && found && !active
            &&& ledger.refusal(call) == Some(Error::AlreadyCheckedIn) <==> !blacklisted
                && registered && found && active && present
            &&& ledger.refusal(call) == Some(Error::NonceAlreadyUsed) <==> expected && known
                && nonce.used
            &&& ledger.refusal(call) == Some(Error::NonceExpired) <==> expected && known
                && !nonce.used && now > nonce.expires_at
            &&& ledger.refusal(call) == Some(Error::InvalidNonce) <==> expected && (!known || good
                && !bound)
            &&& ledger.refusal(call) == Some(Error::FaceVerificationFailed) <==> expected && good
                && bound && !face_match
        }),
{
}

/// A member can confirm the ping of an event exactly when they are checked in and not blacklisted,
/// the ping is neither closed nor expired, they have not confirmed it, and the nonce is a fresh
/// ping nonce of this event and ping. Whether they were marked absent, have checked out or the
/// event has ended plays no part.
pub proof fn law_who_confirms_pings(
    ledger: LedgerView,
    now: u64,
    event_id: u64,
    attendee: Address,
    nonce_hash: [u8; 32],
)
    ensures
        ({
            let call = Call::ConfirmPing { now, event_id, attendee, nonce_hash };
            let blacklisted = ledger.blacklist.contains_key(attendee);
            let record = ledger.attendees[(event_id, attendee)];
            let present = ledger.attendees.contains_key((event_id, attendee)) && record.checked_in;
            let ping = ledger.active_pings[event_id];
            let open = ledger.active_pings.contains_key(event_id) && !ping.closed;
            let in_time = now <= ping.expires_at;
            let confirmed = exists|i: int|
                0 <= i < record.confirmed_pings.len() && #[trigger] record.confirmed_pings[i]
                    == ping.ping_index;
            let expected = !blacklisted && present && open && in_time && !confirmed;
            let known = ledger.nonces.contains_key(nonce_hash);
            let nonce = ledger.nonces[nonce_hash];
            let good = known && !nonce.used && now <= nonce.expires_at;
            let bound = nonce.event_id == event_id && nonce.nonce_type == 1 && nonce.ping_index
                == ping.ping_index;
            &&& ledger.grants(call) <==> expected && good && bound
            &&& ledger.refusal(call) is None <==> ledger.grants(call)
            &&& ledger.refusal(call) == Some(Error::Blacklisted) <==> blacklisted
            &&& ledger.refusal(call) == Some(Error::NotCheckedIn) <==> !blacklisted && !present
            &&& ledger.refusal(call) == Some(Error::NoPingActive) <==> !blacklisted && present
                && !open
            &&& ledger.refusal(call) == Some(Error::PingWindowExpired) <==> !blacklisted && present
                && open && !in_time
            &&& ledger.refusal(call) == Some(Error::AlreadyConfirmedPing) <==> !blacklisted
                && present && open && in_time && confirmed
            &&& ledger.refusal(call) == Some(Error::NonceAlreadyUsed) <==> expected && known
                && nonce.used
            &&& ledger.refusal(call) == Some(Error::NonceExpired) <==> expected && known
                && !nonce.used && now > nonce.expires_at
            &&& ledger.refusal(call) == Some(Error::InvalidNonce) <==> expected && (!known || good
                && !bound)
        }),
{
}

/// A member can check out exactly when they are checked in and not checked out at an event that is
/// on record, are not blacklisted, and the nonce is a fresh check-out nonce of the event; the ratio
/// of their pings must fit 32 bits. Whether the event has ended, what they confirmed and whether
/// they were marked absent plays no part.
pub proof fn law_who_checks_out(
    ledger: LedgerView,
    now: u64,
    event_id: u64,
    attendee: Address,
    nonce_hash: [u8; 32],
)
    ensures
        ({
            let call = Call::CheckOut { now, event_id, attendee, nonce_hash };
            let blacklisted = ledger.blacklist.contains_key(attendee);
            let record = ledger.attendees[(event_id, attendee)];
            let present = ledger.attendees.contains_key((event_id, attendee)) && record.checked_in;
            let expected = !blacklisted && present && !record.checked_out;
            let known = ledger.nonces.contains_key(nonce_hash);
            let nonce = ledger.nonces[nonce_hash];
            let good = known && !nonce.used && now <= nonce.expires_at;
            let bound = nonce.event_id == event_id && nonce.nonce_type == 2;
            let found = ledger.events.contains_key(event_id);
            let fits = ledger.events[event_id].total_pings == 0 || record.confirmed_pings.len()
                * 10_000 <= u32::MAX;
            &&& ledger.grants(call) <==> expected && good && bound && found && fits
            &&& ledger.refusal(call) is None <==> expected && good && bound && found
            &&& ledger.refusal(call) == Some(Error::Blacklisted) <==> blacklisted
            &&& ledger.refusal(call) == Some(Error::NotCheckedIn) <==> !blacklisted && !present
            &&& ledger.refusal(call) == Some(Error::AlreadyCheckedOut) <==> !blacklisted && present
                && record.checked_out
            &&& ledger.refusal(call) == Some(Error::NonceAlreadyUsed) <==> expected && known
                && nonce.used
            &&& ledger.refusal(call) == Some(Error::NonceExpired) <==> expected && known
                && !nonce.used && now > nonce.expires_at
            &&& ledger.refusal(call) == Some(Error::InvalidNonce) <==> expected && (!known || good
                && !bound)
            &&& ledger.refusal(call) == Some(Error::EventNotFound) <==> expected && good && bound
                && !found
        }),
{
}

/// A member gets a certificate exactly when they are on record as eligible at an event that is on
/// record, are not blacklisted and hold no certificate for it; the ratio of their pings must fit
/// 32 bits. Whether the event has ended, the time and the id of the certificate play no part.
pub proof fn law_who_gets_certificates(
    ledger: LedgerView,
    now: u64,
    event_id: u64,
    attendee: Address,
    cert_id: [u8; 32],
)
    ensures
        ({
            let call = Call::Mint { now, event_id, attendee, cert_id };
            let blacklisted = ledger.blacklist.contains_key(attendee);
            let listed = ledger.attendees.contains_key((event_id, attendee));
            let record = ledger.attendees[(event_id, attendee)];
            let minted = ledger.certificates.contains_key((event_id, attendee));
            let found = ledger.events.contains_key(event_id);
            let fits = ledger.events[event_id].total_pings == 0 || record.confirmed_pings.len()
                * 10_000 <= u32::MAX;
            &&& ledger.grants(call) <==> !blacklisted && listed && record.eligible && !minted
                && found && fits
            &&& ledger.refusal(call) is None <==> !blacklisted && listed && record.eligible
                && !minted && found
            &&& ledger.refusal(call) == Some(Error::Blacklisted) <==> blacklisted
            &&& ledger.refusal(call) == Some(Error::NotCheckedIn) <==> !blacklisted && !listed
            &&& ledger.refusal(call) == Some(Error::NotEligible) <==> !blacklisted && listed
                && !record.eligible
            &&& ledger.refusal(call) == Some(Error::CertificateAlreadyMinted) <==> !blacklisted
                && listed && record.eligible && minted
            &&& ledger.refusal(call) == Some(Error::EventNotFound) <==> !blacklisted && listed
                && record.eligible && !minted && !found
        }),
{
}

// ─── What bars nobody ─────────────────────────────────────────────────

/// The end of an event bars nobody from leaving with what they earned: pings are confirmed,
/// check-outs done, certificates minted and refused just as if it had not ended.
pub proof fn law_end_of_event_bars_no_leaving(ledger: LedgerView, event_id: u64, call: Call)
    requires
        call is ConfirmPing || call is CheckOut || call is Mint,
    ensures
        ({
            let ended = ledger.next(Call::EndEvent { event_id });
            &&& ended.grants(call) == ledger.grants(call)
            &&& ended.refusal(call) == ledger.refusal(call)
        }),
{
}

/// Being marked absent bars nobody from anything: every request is answered as before.
pub proof fn law_absence_bars_nothing(
    ledger: LedgerView,
    event_id: u64,
    attendees: Seq<Address>,
    ping_index: u32,
    call: Call,
)
    ensures
        ({
            let marked = ledger.next(Call::MarkAbsent { event_id, attendees, ping_index });
            &&& marked.grants(call) == ledger.grants(call)
            &&& marked.refusal(call) == ledger.refusal(call)
        }),
{
}

/// What one member does bars no other member: a request of a member is answered alike before and
/// after a request of another who presents another nonce.
pub proof fn law_members_do_not_bar_each_other(ledger: LedgerView, other: Call, call: Call)
    requires
        other.member() is Some,
        call.member() is Some,
        other.member() != call.member(),
        other.presented_nonce() is None || other.presented_nonce() != call.presented_nonce(),
    ensures
        ledger.next(other).grants(call) == ledger.grants(call),
        ledger.next(other).refusal(call) == ledger.refusal(call),
{
}

} // verus!
