//! Which ledger entries a request reads and writes.

use vstd::prelude::*;

use crate::history::Call;
use crate::ledger::LedgerView;
use crate::types::{Address, DataKey};

verus! {

impl LedgerView {
    /// Whether two ledgers hold the same entry under `key`, or both hold none.
    pub open spec fn same_at(self, other: LedgerView, key: DataKey) -> bool {
        match key {
            DataKey::Admin => self.admin == other.admin,
            DataKey::EventCounter => self.event_counter == other.event_counter,
            DataKey::Event(id) => self.events.get(id) == other.events.get(id),
            DataKey::Registration(id, addr) => self.registrations.get((id, addr))
                == other.registrations.get((id, addr)),
            DataKey::Attendee(id, addr) => self.attendees.get((id, addr)) == other.attendees.get(
                (id, addr),
            ),
            DataKey::Nonce(hash) => self.nonces.get(hash) == other.nonces.get(hash),
            DataKey::ActivePing(id) => self.active_pings.get(id) == other.active_pings.get(id),
            DataKey::Blacklist(addr) => self.blacklist.get(addr) == other.blacklist.get(addr),
            DataKey::Certificate(id, addr) => self.certificates.get((id, addr))
                == other.certificates.get((id, addr)),
            DataKey::FraudRecord(addr) => self.fraud_records.get(addr) == other.fraud_records.get(
                addr,
            ),
        }
    }

    /// Whether what the request does depends on the entry under `key`.
    pub open spec fn reads(self, call: Call, key: DataKey) -> bool {
        ||| call.is_for_admin() && key == DataKey::Admin
        ||| match call {
            Call::Initialize { .. } => key == DataKey::Admin,
            Call::CreateEvent { .. } => key == DataKey::EventCounter,
            Call::EndEvent { event_id } => key == DataKey::Event(event_id),
            Call::Register { event_id, attendee, .. } => {
                ||| key == DataKey::Blacklist(attendee)
                ||| key == DataKey::Event(event_id)
                ||| key == DataKey::Registration(event_id, attendee)
            },
            Call::RegisterNonce { nonce_hash, .. } => key == DataKey::Nonce(nonce_hash),
            Call::CheckIn { event_id, attendee, nonce_hash, .. } => {
                ||| key == DataKey::Blacklist(attendee)
                ||| key == DataKey::Registration(event_id, attendee)
                ||| key == DataKey::Event(event_id)
                ||| key == DataKey::Attendee(event_id, attendee)
                ||| key == DataKey::Nonce(nonce_hash)
            },
            Call::OpenPing { event_id, .. } => key == DataKey::Event(event_id),
            Call::ClosePing { event_id } => key == DataKey::ActivePing(event_id),
            Call::ConfirmPing { event_id, attendee, nonce_hash, .. } => {
                ||| key == DataKey::Blacklist(attendee)
                ||| key == DataKey::Attendee(event_id, attendee)
                ||| key == DataKey::ActivePing(event_id)
                ||| key == DataKey::Nonce(nonce_hash)
            },
            Call::MarkAbsent { event_id, attendees, .. } => exists|addr: Address| #[trigger]
                attendees.contains(addr) && key == DataKey::Attendee(event_id, addr),
            Call::CheckOut { event_id, attendee, nonce_hash, .. } => {
                ||| key == DataKey::Blacklist(attendee)
                ||| key == DataKey::Attendee(event_id, attendee)
                ||| key == DataKey::Nonce(nonce_hash)
                ||| key == DataKey::Event(event_id)
            },
            Call::Mint { event_id, attendee, .. } => {
                ||| key == DataKey::Blacklist(attendee)
                ||| key == DataKey::Attendee(event_id, attendee)
                ||| key == DataKey::Certificate(event_id, attendee)
                ||| key == DataKey::Event(event_id)
            },
            Call::ReportFraud { impersonator, requester, event_id, .. } => {
                ||| key == DataKey::FraudRecord(impersonator)
                ||| key == DataKey::Certificate(event_id, impersonator)
                ||| key == DataKey::FraudRecord(requester)
                ||| key == DataKey::Certificate(event_id, requester)
            },
            Call::RemoveFromBlacklist { .. } => false,
        }
    }

    /// Whether the request can change the entry under `key`.
    pub open spec fn writes(self, call: Call, key: DataKey) -> bool {
        match call {
            Call::Initialize { .. } => {
                ||| key == DataKey::Admin
                ||| key == DataKey::EventCounter
            },
            Call::CreateEvent { .. } => {
                ||| key == DataKey::EventCounter
                ||| key == DataKey::Event(self.next_event_id())
            },
            Call::EndEvent { event_id } => key == DataKey::Event(event_id),
            Call::Register { event_id, attendee, .. } => key == DataKey::Registration(
                event_id,
                attendee,
            ),
            Call::RegisterNonce { nonce_hash, .. } => key == DataKey::Nonce(nonce_hash),
            Call::CheckIn { event_id, attendee, nonce_hash, .. } => {
                ||| key == DataKey::Attendee(event_id, attendee)
                ||| key == DataKey::Nonce(nonce_hash)
            },
            Call::OpenPing { event_id, .. } => key == DataKey::ActivePing(event_id),
            Call::ClosePing { event_id } => key == DataKey::ActivePing(event_id),
            Call::ConfirmPing { event_id, attendee, nonce_hash, .. } => {
                ||| key == DataKey::Attendee(event_id, attendee)
                ||| key == DataKey::Nonce(nonce_hash)
            },
            Call::MarkAbsent { event_id, attendees, .. } => exists|addr: Address| #[trigger]
                attendees.contains(addr) && key == DataKey::Attendee(event_id, addr),
            Call::CheckOut { event_id, attendee, nonce_hash, .. } => {
                ||| key == DataKey::Attendee(event_id, attendee)
                ||| key == DataKey::Nonce(nonce_hash)
            },
            Call::Mint { event_id, attendee, .. } => key == DataKey::Certificate(
                event_id,
                attendee,
            ),
            Call::ReportFraud { impersonator, requester, event_id, .. } => {
                ||| key == DataKey::Blacklist(impersonator)
                ||| key == DataKey::FraudRecord(impersonator)
                ||| key == DataKey::Certificate(event_id, impersonator)
                ||| key == DataKey::Blacklist(requester)
                ||| key == DataKey::FraudRecord(requester)
                ||| key == DataKey::Certificate(event_id, requester)
            },
            Call::RemoveFromBlacklist { addr } => key == DataKey::Blacklist(addr),
        }
    }
}

/// A request leaves every entry that it does not write as it was.
pub proof fn law_other_entries_stay(ledger: LedgerView, call: Call, key: DataKey)
    requires
        !ledger.writes(call, key),
    ensures
        ledger.next(call).same_at(ledger, key),
{
}

/// What a request does depends only on the entries that it reads: on two ledgers that agree on
/// these it gets the same answer, writes under the same keys, and, if it is granted, writes the
/// same entries.
pub proof fn law_only_read_entries_matter(ledger: LedgerView, other: LedgerView, call: Call)
    requires
        forall|key: DataKey| ledger.reads(call, key) ==> #[trigger] ledger.same_at(other, key),
    ensures
        ledger.refusal(call) == other.refusal(call),
        ledger.grants(call) == other.grants(call),
        forall|key: DataKey| ledger.writes(call, key) == other.writes(call, key),
        forall|key: DataKey|
            ledger.grants(call) && ledger.writes(call, key) ==> #[trigger] ledger.next(
                call,
            ).same_at(other.next(call), key),
{
    if call.is_for_admin() {
        assert(ledger.same_at(other, DataKey::Admin));
    }
    match call {
        Call::Initialize { .. } => {
            assert(ledger.same_at(other, DataKey::Admin));
        },
        Call::CreateEvent { .. } => {
            assert(ledger.same_at(other, DataKey::EventCounter));
        },
        Call::EndEvent { event_id } => {
            assert(ledger.same_at(other, DataKey::Event(event_id)));
        },
        Call::Register { event_id, attendee, .. } => {
            assert(ledger.same_at(other, DataKey::Blacklist(attendee)));
            assert(ledger.same_at(other, DataKey::Event(event_id)));
            assert(ledger.same_at(other, DataKey::Registration(event_id, attendee)));
        },
        Call::RegisterNonce { nonce_hash, .. } => {
            assert(ledger.same_at(other, DataKey::Nonce(nonce_hash)));
        },
        Call::CheckIn { event_id, attendee, nonce_hash, .. } => {
            assert(ledger.same_at(other, DataKey::Blacklist(attendee)));
            assert(ledger.same_at(other, DataKey::Registration(event_id, attendee)));
            assert(ledger.same_at(other, DataKey::Event(event_id)));
            assert(ledger.same_at(other, DataKey::Attendee(event_id, attendee)));
            assert(ledger.same_at(other, DataKey::Nonce(nonce_hash)));
        },
        Call::OpenPing { event_id, .. } => {
            assert(ledger.same_at(other, DataKey::Event(event_id)));
        },
        Call::ClosePing { event_id } => {
            assert(ledger.same_at(other, DataKey::ActivePing(event_id)));
        },
        Call::ConfirmPing { event_id, attendee, nonce_hash, .. } => {
            assert(ledger.same_at(other, DataKey::Blacklist(attendee)));
            assert(ledger.same_at(other, DataKey::Attendee(event_id, attendee)));
            assert(ledger.same_at(other, DataKey::ActivePing(event_id)));
            assert(ledger.same_at(other, DataKey::Nonce(nonce_hash)));
        },
        Call::MarkAbsent { .. } => {
            assert forall|key: DataKey| ledger.writes(call, key) implies #[trigger] ledger.next(
                call,
            ).same_at(other.next(call), key) by {
                assert(ledger.same_at(other, key));
            }
        },
        Call::CheckOut { event_id, attendee, nonce_hash, .. } => {
            assert(ledger.same_at(other, DataKey::Blacklist(attendee)));
            assert(ledger.same_at(other, DataKey::Attendee(event_id, attendee)));
            assert(ledger.same_at(other, DataKey::Nonce(nonce_hash)));
            assert(ledger.same_at(other, DataKey::Event(event_id)));
        },
        Call::Mint { event_id, attendee, .. } => {
            assert(ledger.same_at(other, DataKey::Blacklist(attendee)));
            assert(ledger.same_at(other, DataKey::Attendee(event_id, attendee)));
            assert(ledger.same_at(other, DataKey::Certificate(event_id, attendee)));
            assert(ledger.same_at(other, DataKey::Event(event_id)));
        },
        Call::ReportFraud { impersonator, requester, event_id, .. } => {
            assert(ledger.same_at(other, DataKey::FraudRecord(impersonator)));
            assert(ledger.same_at(other, DataKey::Certificate(event_id, impersonator)));
            assert(ledger.same_at(other, DataKey::FraudRecord(requester)));
            assert(ledger.same_at(other, DataKey::Certificate(event_id, requester)));
        },
        Call::RemoveFromBlacklist { .. } => {},
    }
}

} // verus!
