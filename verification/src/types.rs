//! The records that the contract keeps, and the mathematical view of each.

use vstd::prelude::*;

verus! {

/// QR nonce validity window in seconds.
pub const NONCE_TTL_SECS: u64 = 15;

/// Attendee must scan within this many seconds after a ping is opened.
pub const PING_WINDOW_SECS: u64 = 240;

/// Minimum attendance ratio in basis points (9000 = 90.00 %).
pub const MIN_ATTENDANCE_BPS: u32 = 9_000;

/// Full attendance in basis points.
pub const FULL_ATTENDANCE_BPS: u32 = 10_000;

/// The nonce opens a check-in.
pub const NONCE_CHECKIN: u32 = 0;

/// The nonce confirms a presence ping.
pub const NONCE_PING: u32 = 1;

/// The nonce closes an attendance.
pub const NONCE_CHECKOUT: u32 = 2;

/// An account or a contract on the network, by its StrKey text (`G...` or `C...`).
#[derive(Copy, Clone, Debug, PartialEq, Eq)]
pub struct Address {
    pub strkey: [u8; 56],
}

/// Copies a text.
pub fn copy_bytes(bytes: &Vec<u8>) -> (copy: Vec<u8>)
    ensures
        copy@ == bytes@,
{
    let copy = bytes.clone();
    assert(copy@ =~= bytes@);
    copy
}

/// Where on the ledger an entry is kept.
#[derive(Copy, Clone, Debug, PartialEq, Eq)]
pub enum DataKey {
    Admin,
    /// event_id, leads to `EventData`
    Event(u64),
    EventCounter,
    /// (event_id, attendee), leads to `RegistrationData`
    Registration(u64, Address),
    /// (event_id, attendee), leads to `AttendeeData`
    Attendee(u64, Address),
    /// nonce_hash, leads to `NonceRecord`
    Nonce([u8; 32]),
    /// event_id, leads to `PingData`
    ActivePing(u64),
    /// address, leads to `BlacklistRecord`
    Blacklist(Address),
    /// (event_id, attendee), leads to `CertificateData`
    Certificate(u64, Address),
    /// address, leads to the `FraudEntry` list
    FraudRecord(Address),
}

/// Describes a single club event.
#[derive(Debug, PartialEq, Eq)]
pub struct EventData {
    pub event_id: u64,
    /// The text of the name, as UTF-8 by convention.
    pub name: Vec<u8>,
    pub organizer: Address,
    /// Unix timestamp (seconds)
    pub start_time: u64,
    pub end_time: u64,
    pub location: Vec<u8>,
    /// Expected presence pings during the event.
    pub total_pings: u32,
    pub active: bool,
    pub ended: bool,
}

/// What an `EventData` says.
pub struct EventView {
    pub event_id: u64,
    pub name: Seq<u8>,
    pub organizer: Address,
    pub start_time: u64,
    pub end_time: u64,
    pub location: Seq<u8>,
    pub total_pings: u32,
    pub active: bool,
    pub ended: bool,
}

impl View for EventData {
    type V = EventView;

    open spec fn view(&self) -> EventView {
        EventView {
            event_id: self.event_id,
            name: self.name@,
            organizer: self.organizer,
            start_time: self.start_time,
            end_time: self.end_time,
            location: self.location@,
            total_pings: self.total_pings,
            active: self.active,
            ended: self.ended,
        }
    }
}

/// The view of an event shows all that is on record of it.
pub proof fn law_event_shows_its_record(record: EventData)
    ensures
        record@.event_id == record.event_id,
        record@.name == record.name@,
        record@.organizer == record.organizer,
        record@.start_time == record.start_time,
        record@.end_time == record.end_time,
        record@.location == record.location@,
        record@.total_pings == record.total_pings,
        record@.active == record.active,
        record@.ended == record.ended,
{
}

impl Clone for EventData {
    fn clone(&self) -> (copy: Self)
        ensures
            copy@ == self@,
    {
        EventData {
            event_id: self.event_id,
            name: copy_bytes(&self.name),
            organizer: self.organizer,
            start_time: self.start_time,
            end_time: self.end_time,
            location: copy_bytes(&self.location),
            total_pings: self.total_pings,
            active: self.active,
            ended: self.ended,
        }
    }
}

/// Written when a member signs up for an event.
#[derive(Copy, Clone, Debug, PartialEq, Eq)]
pub struct RegistrationData {
    pub attendee: Address,
    pub event_id: u64,
    pub registered_at: u64,
    /// SHA-256 hash of the face image stored off-chain (e.g. IPFS CID).
    pub face_hash: [u8; 32],
}

impl View for RegistrationData {
    type V = RegistrationData;

    open spec fn view(&self) -> RegistrationData {
        *self
    }
}

/// Tracks live check-in/out state and presence for one attendee at one event.
#[derive(Debug, PartialEq, Eq)]
pub struct AttendeeData {
    pub attendee: Address,
    pub event_id: u64,
    pub checked_in: bool,
    pub checkin_time: u64,
    pub checked_out: bool,
    pub checkout_time: u64,
    /// IPFS hash of the selfie captured at check-in time.
    pub checkin_face_proof: [u8; 32],
    /// Indices of the pings this attendee successfully confirmed.
    pub confirmed_pings: Vec<u32>,
    /// Set to true when the contract decides they left early.
    pub marked_absent: bool,
    pub eligible: bool,
}

/// What an `AttendeeData` says.
pub struct AttendeeView {
    pub attendee: Address,
    pub event_id: u64,
    pub checked_in: bool,
    pub checkin_time: u64,
    pub checked_out: bool,
    pub checkout_time: u64,
    pub checkin_face_proof: [u8; 32],
    pub confirmed_pings: Seq<u32>,
    pub marked_absent: bool,
    pub eligible: bool,
}

impl View for AttendeeData {
    type V = AttendeeView;

    open spec fn view(&self) -> AttendeeView {
        AttendeeView {
            attendee: self.attendee,
            event_id: self.event_id,
            checked_in: self.checked_in,
            checkin_time: self.checkin_time,
            checked_out: self.checked_out,
            checkout_time: self.checkout_time,
            checkin_face_proof: self.checkin_face_proof,
            confirmed_pings: self.confirmed_pings@,
            marked_absent: self.marked_absent,
            eligible: self.eligible,
        }
    }
}

/// The view of an attendance shows all that is on record of it.
pub proof fn law_attendance_shows_its_record(record: AttendeeData)
    ensures
        record@.attendee == record.attendee,
        record@.event_id == record.event_id,
        record@.checked_in == record.checked_in,
        record@.checkin_time == record.checkin_time,
        record@.checked_out == record.checked_out,
        record@.checkout_time == record.checkout_time,
        record@.checkin_face_proof == record.checkin_face_proof,
        record@.confirmed_pings == record.confirmed_pings@,
        record@.marked_absent == record.marked_absent,
        record@.eligible == record.eligible,
{
}

impl Clone for AttendeeData {
    fn clone(&self) -> (copy: Self)
        ensures
            copy@ == self@,
    {
        let confirmed_pings = self.confirmed_pings.clone();
        assert(confirmed_pings@ =~= self.confirmed_pings@);
        AttendeeData {
            attendee: self.attendee,
            event_id: self.event_id,
            checked_in: self.checked_in,
            checkin_time: self.checkin_time,
            checked_out: self.checked_out,
            checkout_time: self.checkout_time,
            checkin_face_proof: self.checkin_face_proof,
            confirmed_pings,
            marked_absent: self.marked_absent,
            eligible: self.eligible,
        }
    }
}

/// One-time-use QR nonce record.
#[derive(Copy, Clone, Debug, PartialEq, Eq)]
pub struct NonceRecord {
    pub nonce_hash: [u8; 32],
    pub event_id: u64,
    pub created_at: u64,
    /// Expiry = created_at + 15 seconds (backend enforces generation cadence).
    pub expires_at: u64,
    pub used: bool,
    /// What this nonce is for: 0 = check-in, 1 = presence-ping, 2 = check-out.
    pub nonce_type: u32,
    /// For ping nonces, which ping index this belongs to.
    pub ping_index: u32,
}

impl View for NonceRecord {
    type V = NonceRecord;

    open spec fn view(&self) -> NonceRecord {
        *self
    }
}

/// Active presence-ping window for an event.
#[derive(Copy, Clone, Debug, PartialEq, Eq)]
pub struct PingData {
    pub event_id: u64,
    pub ping_index: u32,
    pub opened_at: u64,
    /// Attendees have `PING_WINDOW_SECS` (240 s) to respond.
    pub expires_at: u64,
    pub closed: bool,
}

impl View for PingData {
    type V = PingData;

    open spec fn view(&self) -> PingData {
        *self
    }
}

/// Issued once eligibility is confirmed.
#[derive(Debug, PartialEq, Eq)]
pub struct CertificateData {
    pub cert_id: [u8; 32],
    pub event_id: u64,
    pub attendee: Address,
    pub issued_at: u64,
    /// Basis points, 0-10000 (e.g. 9500 = 95.00 %)
    pub attendance_ratio: u32,
    pub event_name: Vec<u8>,
    pub revoked: bool,
}

/// What a `CertificateData` says.
pub struct CertificateView {
    pub cert_id: [u8; 32],
    pub event_id: u64,
    pub attendee: Address,
    pub issued_at: u64,
    pub attendance_ratio: u32,
    pub event_name: Seq<u8>,
    pub revoked: bool,
}

impl View for CertificateData {
    type V = CertificateView;

    open spec fn view(&self) -> CertificateView {
        CertificateView {
            cert_id: self.cert_id,
            event_id: self.event_id,
            attendee: self.attendee,
            issued_at: self.issued_at,
            attendance_ratio: self.attendance_ratio,
            event_name: self.event_name@,
            revoked: self.revoked,
        }
    }
}

/// The view of a certificate shows all that is on record of it.
pub proof fn law_certificate_shows_its_record(record: CertificateData)
    ensures
        record@.cert_id == record.cert_id,
        record@.event_id == record.event_id,
        record@.attendee == record.attendee,
        record@.issued_at == record.issued_at,
        record@.attendance_ratio == record.attendance_ratio,
        record@.event_name == record.event_name@,
        record@.revoked == record.revoked,
{
}

impl Clone for CertificateData {
    fn clone(&self) -> (copy: Self)
        ensures
            copy@ == self@,
    {
        CertificateData {
            cert_id: self.cert_id,
            event_id: self.event_id,
            attendee: self.attendee,
            issued_at: self.issued_at,
            attendance_ratio: self.attendance_ratio,
            event_name: copy_bytes(&self.event_name),
            revoked: self.revoked,
        }
    }
}

/// Written when a fraud detection occurs.
#[derive(Debug, PartialEq, Eq)]
pub struct FraudEntry {
    pub event_id: u64,
    pub detected_at: u64,
    pub reason: Vec<u8>,
}

/// What a `FraudEntry` says.
pub struct FraudView {
    pub event_id: u64,
    pub detected_at: u64,
    pub reason: Seq<u8>,
}

impl View for FraudEntry {
    type V = FraudView;

    open spec fn view(&self) -> FraudView {
        FraudView { event_id: self.event_id, detected_at: self.detected_at, reason: self.reason@ }
    }
}

/// The view of a fraud entry shows all that is on record of it.
pub proof fn law_fraud_shows_its_record(record: FraudEntry)
    ensures
        record@.event_id == record.event_id,
        record@.detected_at == record.detected_at,
        record@.reason == record.reason@,
{
}

impl Clone for FraudEntry {
    fn clone(&self) -> (copy: Self)
        ensures
            copy@ == self@,
    {
        FraudEntry {
            event_id: self.event_id,
            detected_at: self.detected_at,
            reason: copy_bytes(&self.reason),
        }
    }
}

/// The public fraud log of one address, oldest entry first.
#[derive(Debug, PartialEq, Eq)]
pub struct FraudLog {
    pub entries: Vec<FraudEntry>,
}

/// What the entries of a fraud log say.
pub open spec fn fraud_views(entries: Seq<FraudEntry>) -> Seq<FraudView> {
    entries.map_values(|entry: FraudEntry| entry@)
}

impl View for FraudLog {
    type V = Seq<FraudView>;

    open spec fn view(&self) -> Seq<FraudView> {
        fraud_views(self.entries@)
    }
}

/// The view of a fraud log shows each of its entries in its place.
pub proof fn law_fraud_log_shows_its_entries(log: FraudLog)
    ensures
        log@.len() == log.entries@.len(),
        forall|i: int| 0 <= i < log.entries@.len() ==> #[trigger] log@[i] == log.entries@[i]@,
{
}

/// Registrations, nonces and pings are shown as they are on record.
pub proof fn law_plain_records_show_themselves(
    registration: RegistrationData,
    nonce: NonceRecord,
    ping: PingData,
)
    ensures
        registration@ == registration,
        nonce@ == nonce,
        ping@ == ping,
{
}

impl Clone for FraudLog {
    fn clone(&self) -> (copy: Self)
        ensures
            copy@ == self@,
    {
        let mut entries: Vec<FraudEntry> = Vec::new();
        let mut i: usize = 0;
        while i < self.entries.len()
            invariant
                i <= self.entries@.len(),
                entries@.len() == i,
                forall|j: int| 0 <= j < i ==> #[trigger] entries@[j]@ == self.entries@[j]@,
            decreases self.entries@.len() - i,
        {
            entries.push(self.entries[i].clone());
            i += 1;
        }
        assert(fraud_views(entries@) =~= fraud_views(self.entries@));
        FraudLog { entries }
    }
}

/// Blacklist entry.
#[derive(Debug, PartialEq, Eq)]
pub struct BlacklistRecord {
    pub address: Address,
    pub blacklisted_at: u64,
    pub reason: Vec<u8>,
}

/// What a `BlacklistRecord` says.
pub struct BlacklistView {
    pub address: Address,
    pub blacklisted_at: u64,
    pub reason: Seq<u8>,
}

impl View for BlacklistRecord {
    type V = BlacklistView;

    open spec fn view(&self) -> BlacklistView {
        BlacklistView {
            address: self.address,
            blacklisted_at: self.blacklisted_at,
            reason: self.reason@,
        }
    }
}

/// The view of a blacklisting shows all that is on record of it.
pub proof fn law_blacklisting_shows_its_record(record: BlacklistRecord)
    ensures
        record@.address == record.address,
        record@.blacklisted_at == record.blacklisted_at,
        record@.reason == record.reason@,
{
}

impl Clone for BlacklistRecord {
    fn clone(&self) -> (copy: Self)
        ensures
            copy@ == self@,
    {
        BlacklistRecord {
            address: self.address,
            blacklisted_at: self.blacklisted_at,
            reason: copy_bytes(&self.reason),
        }
    }
}

} // verus!
