//! The ledger entries of the contract, and what the host reports of the running invocation.

use vstd::prelude::*;

use crate::table::Table;
use crate::types::{
    Address, AttendeeData, AttendeeView, BlacklistRecord, BlacklistView, CertificateData,
    CertificateView, EventData, EventView, FraudLog, FraudView, NonceRecord, PingData,
    RegistrationData,
};

verus! {

/// What the host reports of the running invocation.
#[derive(Debug)]
pub struct Invocation {
    /// When the ledger closes, as a Unix timestamp in seconds.
    pub timestamp: u64,
    /// The addresses whose authorization of this invocation the host has checked.
    pub signers: Vec<Address>,
}

impl Invocation {
    /// Whether `address` has authorized this invocation.
    pub open spec fn signed_by(self, address: Address) -> bool {
        self.signers@.contains(address)
    }

    /// Whether the admin of `ledger` is known and has authorized this invocation.
    pub open spec fn signed_by_admin(self, ledger: LedgerView) -> bool {
        ledger.admin matches Some(admin) && self.signed_by(admin)
    }
}

/// The entries that the contract keeps on the ledger.
pub struct Ledger {
    pub admin: Option<Address>,
    pub event_counter: Option<u64>,
    pub events: Table<u64, EventData>,
    pub registrations: Table<(u64, Address), RegistrationData>,
    pub attendees: Table<(u64, Address), AttendeeData>,
    pub nonces: Table<[u8; 32], NonceRecord>,
    pub active_pings: Table<u64, PingData>,
    pub blacklist: Table<Address, BlacklistRecord>,
    pub certificates: Table<(u64, Address), CertificateData>,
    pub fraud_records: Table<Address, FraudLog>,
}

/// What the entries of a ledger say.
#[verifier::ext_equal]
pub struct LedgerView {
    pub admin: Option<Address>,
    pub event_counter: Option<u64>,
    pub events: Map<u64, EventView>,
    pub registrations: Map<(u64, Address), RegistrationData>,
    pub attendees: Map<(u64, Address), AttendeeView>,
    pub nonces: Map<[u8; 32], NonceRecord>,
    pub active_pings: Map<u64, PingData>,
    pub blacklist: Map<Address, BlacklistView>,
    pub certificates: Map<(u64, Address), CertificateView>,
    pub fraud_records: Map<Address, Seq<FraudView>>,
}

impl LedgerView {
    /// A ledger on which the contract has not written yet.
    pub open spec fn empty() -> LedgerView {
        LedgerView {
            admin: None,
            event_counter: None,
            events: Map::empty(),
            registrations: Map::empty(),
            attendees: Map::empty(),
            nonces: Map::empty(),
            active_pings: Map::empty(),
            blacklist: Map::empty(),
            certificates: Map::empty(),
            fraud_records: Map::empty(),
        }
    }
}

impl View for Ledger {
    type V = LedgerView;

    open spec fn view(&self) -> LedgerView {
        LedgerView {
            admin: self.admin,
            event_counter: self.event_counter,
            events: self.events@,
            registrations: self.registrations@,
            attendees: self.attendees@,
            nonces: self.nonces@,
            active_pings: self.active_pings@,
            blacklist: self.blacklist@,
            certificates: self.certificates@,
            fraud_records: self.fraud_records@,
        }
    }
}

/// The view of a ledger shows each of its entries.
pub proof fn law_ledger_shows_its_entries(ledger: Ledger)
    ensures
        ledger@.admin == ledger.admin,
        ledger@.event_counter == ledger.event_counter,
        ledger@.events == ledger.events@,
        ledger@.registrations == ledger.registrations@,
        ledger@.attendees == ledger.attendees@,
        ledger@.nonces == ledger.nonces@,
        ledger@.active_pings == ledger.active_pings@,
        ledger@.blacklist == ledger.blacklist@,
        ledger@.certificates == ledger.certificates@,
        ledger@.fraud_records == ledger.fraud_records@,
{
}

/// A ledger on which the contract has not written holds no entry.
pub proof fn law_empty_holds_nothing(id: u64, address: Address, hash: [u8; 32])
    ensures
        LedgerView::empty().admin is None,
        LedgerView::empty().event_counter is None,
        !LedgerView::empty().events.contains_key(id),
        !LedgerView::empty().registrations.contains_key((id, address)),
        !LedgerView::empty().attendees.contains_key((id, address)),
        !LedgerView::empty().nonces.contains_key(hash),
        !LedgerView::empty().active_pings.contains_key(id),
        !LedgerView::empty().blacklist.contains_key(address),
        !LedgerView::empty().certificates.contains_key((id, address)),
        !LedgerView::empty().fraud_records.contains_key(address),
{
}

impl Ledger {
    /// Makes a ledger on which the contract has not written yet.
    pub fn new() -> (ledger: Self)
        ensures
            ledger@ == LedgerView::empty(),
    {
        Ledger {
            admin: None,
            event_counter: None,
            events: Table::new(),
            registrations: Table::new(),
            attendees: Table::new(),
            nonces: Table::new(),
            active_pings: Table::new(),
            blacklist: Table::new(),
            certificates: Table::new(),
            fraud_records: Table::new(),
        }
    }
}

} // verus!
