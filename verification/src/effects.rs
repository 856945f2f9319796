//! What each granted request writes, entry by entry, and that it writes nothing else.

use vstd::prelude::*;

use crate::history::Call;
use crate::laws;
use crate::ledger::LedgerView;
use crate::types::{
    Address, AttendeeView, BlacklistView, CertificateView, EventView, FraudView, NonceRecord,
    PingData, RegistrationData,
};

verus! {

// ─── The admin's requests ─────────────────────────────────────────────

/// Initializing sets the admin and starts the numbering of events before one. Nothing else
/// changes.
pub proof fn law_what_initializing_writes(ledger: LedgerView, admin: Address)
    requires
        ledger.grants(Call::Initialize { admin }),
    ensures
        ledger.next(Call::Initialize { admin }) == (LedgerView {
            admin: Some(admin),
            event_counter: Some(0),
            ..ledger
        }),
{
}

/// A new event is on record with its terms as they were given, active and not ended, under the
/// number that follows the last one, or one if there was none. Nothing else changes.
pub proof fn law_what_creating_an_event_writes(
    ledger: LedgerView,
    name: Seq<u8>,
    organizer: Address,
    start_time: u64,
    end_time: u64,
    location: Seq<u8>,
    total_pings: u32,
)
    requires
        ledger.grants(
            Call::CreateEvent { name, organizer, start_time, end_time, location, total_pings },
        ),
    ensures
        ({
            let after = ledger.next(
                Call::CreateEvent { name, organizer, start_time, end_time, location, total_pings },
            );
            let id = after.event_counter->0;
            &&& after.event_counter is Some
            &&& match ledger.event_counter {
                Some(last) => id == last + 1,
                None => id == 1,
            }
            &&& after.events == ledger.events.insert(
                id,
                EventView {
                    event_id: id,
                    name,
                    organizer,
                    start_time,
                    end_time,
                    location,
                    total_pings,
                    active: true,
                    ended: false,
                },
            )
            &&& after == LedgerView {
                event_counter: after.event_counter,
                events: after.events,
                ..ledger
            }
        }),
{
}

/// Ending an event makes it inactive and ended, and keeps its terms. Nothing else changes.
pub proof fn law_what_ending_an_event_writes(ledger: LedgerView, event_id: u64)
    requires
        ledger.grants(Call::EndEvent { event_id }),
    ensures
        ({
            let after = ledger.next(Call::EndEvent { event_id });
            &&& after.events == ledger.events.insert(
                event_id,
                EventView { active: false, ended: true, ..ledger.events[event_id] },
            )
            &&& after == LedgerView { events: after.events, ..ledger }
        }),
{
}

/// A registered nonce is unused, for the event, step and ping that were given, and good for 15
/// seconds. Nothing else changes.
pub proof fn law_what_registering_a_nonce_writes(
    ledger: LedgerView,
    now: u64,
    nonce_hash: [u8; 32],
    event_id: u64,
    nonce_type: u32,
    ping_index: u32,
)
    requires
        ledger.grants(Call::RegisterNonce { now, nonce_hash, event_id, nonce_type, ping_index }),
    ensures
        ({
            let after = ledger.next(
                Call::RegisterNonce { now, nonce_hash, event_id, nonce_type, ping_index },
            );
            let record = after.nonces[nonce_hash];
            &&& record.expires_at == now + 15
            &&& record == NonceRecord {
                nonce_hash,
                event_id,
                created_at: now,
                expires_at: record.expires_at,
                used: false,
                nonce_type,
                ping_index,
            }
            &&& after.nonces == ledger.nonces.insert(nonce_hash, record)
            &&& after == LedgerView { nonces: after.nonces, ..ledger }
        }),
{
}

/// An opened ping takes the place of the last one of the event, and its window is 240 seconds.
/// Nothing else changes.
pub proof fn law_what_opening_a_ping_writes(
    ledger: LedgerView,
    now: u64,
    event_id: u64,
    ping_index: u32,
)
    requires
        ledger.grants(Call::OpenPing { now, event_id, ping_index }),
    ensures
        ({
            let after = ledger.next(Call::OpenPing { now, event_id, ping_index });
            let ping = after.active_pings[event_id];
            &&& ping.expires_at == now + 240
            &&& ping == PingData {
                event_id,
                ping_index,
                opened_at: now,
                expires_at: ping.expires_at,
                closed: false,
            }
            &&& after.active_pings == ledger.active_pings.insert(event_id, ping)
            &&& after == LedgerView { active_pings: after.active_pings, ..ledger }
        }),
{
}

/// Closing a ping closes it and keeps its index and its window. Nothing else changes.
pub proof fn law_what_closing_a_ping_writes(ledger: LedgerView, event_id: u64)
    requires
        ledger.grants(Call::ClosePing { event_id }),
    ensures
        ({
            let after = ledger.next(Call::ClosePing { event_id });
            &&& after.active_pings.get(event_id) == Some(
                PingData { closed: true, ..ledger.active_pings[event_id] },
            )
            &&& forall|id: u64|
                id != event_id ==> #[trigger] after.active_pings.get(id) == ledger.active_pings.get(
                    id,
                )
            &&& after == LedgerView { active_pings: after.active_pings, ..ledger }
        }),
{
}

/// Marking absences sets the mark of those listed who are on record at the event and have not
/// confirmed the ping, and nothing else of their records. Nothing else changes.
pub proof fn law_what_marking_absences_writes(
    ledger: LedgerView,
    event_id: u64,
    attendees: Seq<Address>,
    ping_index: u32,
)
    requires
        ledger.grants(Call::MarkAbsent { event_id, attendees, ping_index }),
    ensures
        ({
            let after = ledger.next(Call::MarkAbsent { event_id, attendees, ping_index });
            &&& forall|key: (u64, Address)| #[trigger]
                after.attendees.get(key) == if ledger.attendees.contains_key(key) && key.0
                    == event_id && attendees.contains(key.1)
                    && !ledger.attendees[key].confirmed_pings.contains(ping_index) {
                    Some(AttendeeView { marked_absent: true, ..ledger.attendees[key] })
                } else {
                    ledger.attendees.get(key)
                }
            &&& after == LedgerView { attendees: after.attendees, ..ledger }
        }),
{
}

/// A fraud report blacklists the two parties at its time and with its reason, adds it to the fraud
/// log of each, once for each role, and revokes their certificates of the event. Nothing else
/// changes.
pub proof fn law_what_reporting_a_fraud_writes(
    ledger: LedgerView,
    now: u64,
    impersonator: Address,
    requester: Address,
    event_id: u64,
    reason: Seq<u8>,
)
    requires
        ledger.grants(Call::ReportFraud { now, impersonator, requester, event_id, reason }),
    ensures
        ({
            let after = ledger.next(
                Call::ReportFraud { now, impersonator, requester, event_id, reason },
            );
            let entry = FraudView { event_id, detected_at: now, reason };
            &&& forall|addr: Address| #[trigger]
                after.blacklist.get(addr) == if addr == impersonator || addr == requester {
                    Some(BlacklistView { address: addr, blacklisted_at: now, reason })
                } else {
                    ledger.blacklist.get(addr)
                }
            &&& forall|addr: Address| #[trigger]
                after.fraud_records.get(addr) == {
                    let log = if ledger.fraud_records.contains_key(addr) {
                        ledger.fraud_records[addr]
                    } else {
                        Seq::empty()
                    };
                    if addr == impersonator && addr == requester {
                        Some(log.push(entry).push(entry))
                    } else if addr == impersonator || addr == requester {
                        Some(log.push(entry))
                    } else {
                        ledger.fraud_records.get(addr)
                    }
                }
            &&& forall|key: (u64, Address)| #[trigger]
                after.certificates.get(key) == if ledger.certificates.contains_key(key) && key.0
                    == event_id && (key.1 == impersonator || key.1 == requester) {
                    Some(CertificateView { revoked: true, ..ledger.certificates[key] })
                } else {
                    ledger.certificates.get(key)
                }
            &&& after == LedgerView {
                blacklist: after.blacklist,
                fraud_records: after.fraud_records,
                certificates: after.certificates,
                ..ledger
            }
        }),
{
}

/// An appeal takes the address off the blacklist. Nothing else changes.
pub proof fn law_what_an_appeal_writes(ledger: LedgerView, addr: Address)
    requires
        ledger.grants(Call::RemoveFromBlacklist { addr }),
    ensures
        ({
            let after = ledger.next(Call::RemoveFromBlacklist { addr });
            &&& !after.blacklist.contains_key(addr)
            &&& forall|other: Address|
                other != addr ==> #[trigger] after.blacklist.get(other) == ledger.blacklist.get(
                    other,
                )
            &&& after == LedgerView { blacklist: after.blacklist, ..ledger }
        }),
{
}

// ─── The members' requests ────────────────────────────────────────────

/// A registration is on record with its time and the hash of the face. Nothing else changes.
pub proof fn law_what_registering_writes(
    ledger: LedgerView,
    now: u64,
    event_id: u64,
    attendee: Address,
    face_hash: [u8; 32],
)
    requires
        ledger.grants(Call::Register { now, event_id, attendee, face_hash }),
    ensures
        ({
            let after = ledger.next(Call::Register { now, event_id, attendee, face_hash });
            &&& after.registrations == ledger.registrations.insert(
                (event_id, attendee),
                RegistrationData { attendee, event_id, registered_at: now, face_hash },
            )
            &&& after == LedgerView { registrations: after.registrations, ..ledger }
        }),
{
}

/// A check-in uses up the nonce and starts a record with its time and face proof: no ping is
/// confirmed, and the attendee is neither checked out, absent nor eligible. Nothing else changes.
pub proof fn law_what_checking_in_writes(
    ledger: LedgerView,
    now: u64,
    event_id: u64,
    attendee: Address,
    nonce_hash: [u8; 32],
    face_proof_hash: [u8; 32],
    face_match: bool,
)
    requires
        ledger.grants(
            Call::CheckIn { now, event_id, attendee, nonce_hash, face_proof_hash, face_match },
        ),
    ensures
        ({
            let after = ledger.next(
                Call::CheckIn { now, event_id, attendee, nonce_hash, face_proof_hash, face_match },
            );
            &&& after.attendees == ledger.attendees.insert(
                (event_id, attendee),
                AttendeeView {
                    attendee,
                    event_id,
                    checked_in: true,
                    checkin_time: now,
                    checked_out: false,
                    checkout_time: 0,
                    checkin_face_proof: face_proof_hash,
                    confirmed_pings: Seq::empty(),
                    marked_absent: false,
                    eligible: false,
                },
            )
            &&& after.nonces == ledger.nonces.insert(
                nonce_hash,
                NonceRecord { used: true, ..ledger.nonces[nonce_hash] },
            )
            &&& after == LedgerView { attendees: after.attendees, nonces: after.nonces, ..ledger }
        }),
{
}

/// A confirmation uses up the nonce and adds the ping of the event at the end of those that the
/// attendee confirmed. Nothing else changes.
pub proof fn law_what_confirming_a_ping_writes(
    ledger: LedgerView,
    now: u64,
    event_id: u64,
    attendee: Address,
    nonce_hash: [u8; 32],
)
    requires
        ledger.grants(Call::ConfirmPing { now, event_id, attendee, nonce_hash }),
    ensures
        ({
            let after = ledger.next(Call::ConfirmPing { now, event_id, attendee, nonce_hash });
            let key = (event_id, attendee);
            &&& after.attendees == ledger.attendees.insert(
                key,
                AttendeeView {
                    confirmed_pings: ledger.attendees[key].confirmed_pings.push(
                        ledger.active_pings[event_id].ping_index,
                    ),
                    ..ledger.attendees[key]
                },
            )
            &&& after.nonces == ledger.nonces.insert(
                nonce_hash,
                NonceRecord { used: true, ..ledger.nonces[nonce_hash] },
            )
            &&& after == LedgerView { attendees: after.attendees, nonces: after.nonces, ..ledger }
        }),
{
}

/// A check-out uses up the nonce, closes the record with its time, and settles whether the attendee
/// is eligible: they are if they confirmed at least nine of ten scheduled pings, or if none were
/// scheduled. Nothing else changes.
pub proof fn law_what_checking_out_writes(
    ledger: LedgerView,
    now: u64,
    event_id: u64,
    attendee: Address,
    nonce_hash: [u8; 32],
)
    requires
        ledger.grants(Call::CheckOut { now, event_id, attendee, nonce_hash }),
    ensures
        ({
            let after = ledger.next(Call::CheckOut { now, event_id, attendee, nonce_hash });
            let key = (event_id, attendee);
            &&& after.attendees == ledger.attendees.insert(
                key,
                AttendeeView {
                    checked_out: true,
                    checkout_time: now,
                    eligible: 10 * ledger.attendees[key].confirmed_pings.len() >= 9
                        * ledger.events[event_id].total_pings,
                    ..ledger.attendees[key]
                },
            )
            &&& after.nonces == ledger.nonces.insert(
                nonce_hash,
                NonceRecord { used: true, ..ledger.nonces[nonce_hash] },
            )
            &&& after == LedgerView { attendees: after.attendees, nonces: after.nonces, ..ledger }
        }),
{
    laws::law_minimum_attendance(
        ledger.attendees[(event_id, attendee)].confirmed_pings.len(),
        ledger.events[event_id].total_pings,
    );
}

/// A certificate is on record with the id and the time it was minted with and the name that the
/// event has, not revoked, and attests the ratio of the confirmed to the scheduled pings in basis
/// points, rounded down and at most full. Nothing else changes.
pub proof fn law_what_minting_writes(
    ledger: LedgerView,
    now: u64,
    event_id: u64,
    attendee: Address,
    cert_id: [u8; 32],
)
    requires
        ledger.grants(Call::Mint { now, event_id, attendee, cert_id }),
    ensures
        ({
            let after = ledger.next(Call::Mint { now, event_id, attendee, cert_id });
            let key = (event_id, attendee);
            let confirmed = ledger.attendees[key].confirmed_pings.len();
            let total = ledger.events[event_id].total_pings;
            let cert = after.certificates[key];
            &&& if confirmed >= total {
                cert.attendance_ratio == 10_000
            } else {
                cert.attendance_ratio * total <= confirmed * 10_000 < (cert.attendance_ratio + 1)
                    * total
            }
            &&& cert == CertificateView {
                cert_id,
                event_id,
                attendee,
                issued_at: now,
                attendance_ratio: cert.attendance_ratio,
                event_name: ledger.events[event_id].name,
                revoked: false,
            }
            &&& after.certificates == ledger.certificates.insert(key, cert)
            &&& after == LedgerView { certificates: after.certificates, ..ledger }
        }),
{
    let confirmed = ledger.attendees[(event_id, attendee)].confirmed_pings.len();
    let total = ledger.events[event_id].total_pings;
    laws::law_full_attendance(confirmed, total);
    laws::law_attendance_is_rounded_down(confirmed, total);
}

// ─── From the first step to the last ──────────────────────────────────

/// Whoever registers before an event begins, checks in at any time with a fresh nonce and their own
/// face, and checks out with a fresh nonce, be it after the event has ended, gets a certificate of
/// full attendance at any time, where no pings were scheduled.
pub proof fn law_attendance_earns_a_certificate(
    ledger: LedgerView,
    event_id: u64,
    attendee: Address,
    face_hash: [u8; 32],
    face_proof_hash: [u8; 32],
    cert_id: [u8; 32],
    nonce_in: [u8; 32],
    nonce_out: [u8; 32],
    registered_at: u64,
    shown_in: u64,
    scanned_in: u64,
    shown_out: u64,
    scanned_out: u64,
    minted_at: u64,
)
    requires
        ledger.consistent(),
        ledger.admin is Some,
        ledger.events.contains_key(event_id),
        ledger.events[event_id].active,
        ledger.events[event_id].total_pings == 0,
        registered_at < ledger.events[event_id].start_time,
        !ledger.blacklist.contains_key(attendee),
        !ledger.registrations.contains_key((event_id, attendee)),
        nonce_in != nonce_out,
        !ledger.nonces.contains_key(nonce_in),
        !ledger.nonces.contains_key(nonce_out),
        shown_in <= scanned_in <= shown_in + 15 <= u64::MAX,
        shown_out <= scanned_out <= shown_out + 15 <= u64::MAX,
    ensures
        ({
            let registered = ledger.next(
                Call::Register { now: registered_at, event_id, attendee, face_hash },
            );
            let inside = registered.next(
                Call::RegisterNonce {
                    now: shown_in,
                    nonce_hash: nonce_in,
                    event_id,
                    nonce_type: 0,
                    ping_index: 0,
                },
            ).next(
                Call::CheckIn {
                    now: scanned_in,
                    event_id,
                    attendee,
                    nonce_hash: nonce_in,
                    face_proof_hash,
                    face_match: true,
                },
            );
            let outside = inside.next(Call::EndEvent { event_id }).next(
                Call::RegisterNonce {
                    now: shown_out,
                    nonce_hash: nonce_out,
                    event_id,
                    nonce_type: 2,
                    ping_index: 0,
                },
            ).next(
                Call::CheckOut {
                    now: scanned_out,
                    event_id,
                    attendee,
                    nonce_hash: nonce_out,
                },
            );
            let certified = outside.next(
                Call::Mint { now: minted_at, event_id, attendee, cert_id },
            );
            &&& certified.certificates.contains_key((event_id, attendee))
            &&& certified.certificates[(event_id, attendee)].attendance_ratio == 10_000
            &&& certified.certificates[(event_id, attendee)].cert_id == cert_id
            &&& !certified.certificates[(event_id, attendee)].revoked
        }),
{
    let key = (event_id, attendee);
    assert(!ledger.attendees.contains_key(key));
    assert(!ledger.certificates.contains_key(key));
}

} // verus!
