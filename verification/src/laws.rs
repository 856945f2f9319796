//! What holds of the contract as a whole.

use vstd::prelude::*;

use crate::error::Error;
use crate::history::{Call, Step};
use crate::ledger::LedgerView;
use crate::rules;
use crate::types::{
    Address, AttendeeView, CertificateView, EventView, FraudView, NonceRecord, PingData,
    RegistrationData, FULL_ATTENDANCE_BPS, MIN_ATTENDANCE_BPS, NONCE_TTL_SECS, PING_WINDOW_SECS,
};

verus! {

// ─── Attendance ratios ────────────────────────────────────────────────

/// Whoever confirms every scheduled ping has full attendance, and nobody has more than that.
pub proof fn law_full_attendance(confirmed: nat, total: u32)
    ensures
        0 <= rules::attendance_bps(confirmed, total) <= FULL_ATTENDANCE_BPS,
        confirmed >= total ==> rules::attendance_bps(confirmed, total) == FULL_ATTENDANCE_BPS,
{
    if confirmed < total {
        let scaled = confirmed as int * 10_000;
        let t = total as int;
        vstd::arithmetic::div_mod::lemma_div_is_ordered(0, scaled, t);
        vstd::arithmetic::div_mod::lemma_div_is_ordered(scaled, 10_000 * t, t);
        vstd::arithmetic::div_mod::lemma_div_by_multiple(10_000, t);
    }
}

/// Confirming more pings never lowers the ratio.
pub proof fn law_attendance_grows(confirmed: nat, more: nat, total: u32)
    requires
        confirmed <= more,
    ensures
        rules::attendance_bps(confirmed, total) <= rules::attendance_bps(more, total),
{
    law_full_attendance(confirmed, total);
    if more < total {
        vstd::arithmetic::div_mod::lemma_div_is_ordered(
            confirmed as int * 10_000,
            more as int * 10_000,
            total as int,
        );
    }
}

/// The minimum attendance is reached exactly when at least nine of ten pings are confirmed.
pub proof fn law_minimum_attendance(confirmed: nat, total: u32)
    ensures
        rules::attendance_bps(confirmed, total) >= MIN_ATTENDANCE_BPS <==> total == 0 || 10
            * confirmed >= 9 * total,
{
    if total != 0 {
        let scaled = confirmed as int * 10_000;
        let t = total as int;
        vstd::arithmetic::div_mod::lemma_fundamental_div_mod(scaled, t);
        let q = scaled / t;
        assert(q >= 9_000 <==> scaled >= 9_000 * t) by (nonlinear_arith)
            requires
                t > 0,
                scaled == t * q + scaled % t,
                0 <= scaled % t < t,
        ;
    }
}

/// Below full attendance the ratio is the share of the scheduled pings that were confirmed, in basis
/// points, rounded down.
pub proof fn law_attendance_is_rounded_down(confirmed: nat, total: u32)
    ensures
        confirmed < total ==> rules::attendance_bps(confirmed, total) * total <= confirmed * 10_000
            < (rules::attendance_bps(confirmed, total) + 1) * total,
{
    if confirmed < total {
        let scaled = confirmed as int * 10_000;
        let t = total as int;
        vstd::arithmetic::div_mod::lemma_fundamental_div_mod(scaled, t);
        let q = scaled / t;
        assert(q * t <= scaled < (q + 1) * t) by (nonlinear_arith)
            requires
                t > 0,
                scaled == t * q + scaled % t,
                0 <= scaled % t < t,
        ;
    }
}

/// The ratio can be computed for any number of pings where none are scheduled, and otherwise for up
/// to 429496 confirmed ones.
pub proof fn law_attendance_fits(confirmed: nat, total: u32)
    ensures
        rules::attendance_fits(confirmed, total) <==> total == 0 || confirmed <= 429_496,
{
}

// ─── Consistency ──────────────────────────────────────────────────────

impl LedgerView {
    /// The events on record are those with the ids that `create_event` gave out, each under its
    /// own id and either active or ended.
    pub open spec fn events_consistent(self) -> bool {
        forall|id: u64|
            {
                &&& #[trigger] self.events.contains_key(id) <==> 1 <= id <= self.events_created()
                &&& self.events.contains_key(id) ==> {
                    &&& self.events[id].event_id == id
                    &&& self.events[id].active == !self.events[id].ended
                }
            }
    }

    /// A registration is kept under its own event and attendee; the event exists, and had not
    /// begun.
    pub open spec fn registrations_consistent(self) -> bool {
        forall|key: (u64, Address)| #[trigger]
            self.registrations.contains_key(key) ==> {
                &&& self.registrations[key].event_id == key.0
                &&& self.registrations[key].attendee == key.1
                &&& self.events.contains_key(key.0)
                &&& self.registrations[key].registered_at < self.events[key.0].start_time
            }
    }

    /// Whoever is on record at an event has registered and checked in; no ping is counted twice;
    /// and only someone who has checked out with enough pings is eligible.
    pub open spec fn attendees_consistent(self) -> bool {
        forall|key: (u64, Address)| #[trigger]
            self.attendees.contains_key(key) ==> {
                let record = self.attendees[key];
                &&& record.event_id == key.0
                &&& record.attendee == key.1
                &&& self.registrations.contains_key(key)
                &&& record.checked_in
                &&& record.confirmed_pings.no_duplicates()
                &&& record.eligible ==> record.checked_out && self.attendance_of(key.0, key.1)
                    >= MIN_ATTENDANCE_BPS
            }
    }

    /// A nonce is kept under its own hash and lives for `NONCE_TTL_SECS`.
    pub open spec fn nonces_consistent(self) -> bool {
        forall|hash: [u8; 32]| #[trigger]
            self.nonces.contains_key(hash) ==> {
                &&& self.nonces[hash].nonce_hash == hash
                &&& self.nonces[hash].expires_at == self.nonces[hash].created_at + NONCE_TTL_SECS
            }
    }

    /// A ping is kept under its own event, which exists, and its window is `PING_WINDOW_SECS`.
    pub open spec fn pings_consistent(self) -> bool {
        forall|id: u64| #[trigger]
            self.active_pings.contains_key(id) ==> {
                &&& self.active_pings[id].event_id == id
                &&& self.active_pings[id].expires_at == self.active_pings[id].opened_at
                    + PING_WINDOW_SECS
                &&& self.events.contains_key(id)
            }
    }

    /// A blacklist record is kept under its own address, whose fraud log says why.
    pub open spec fn blacklist_consistent(self) -> bool {
        forall|addr: Address| #[trigger]
            self.blacklist.contains_key(addr) ==> {
                &&& self.blacklist[addr].address == addr
                &&& self.fraud_log(addr).len() > 0
            }
    }

    /// A certificate is kept under its own event and attendee, names the event, belongs to an
    /// eligible attendee, and attests at least the minimum and at most full attendance.
    pub open spec fn certificates_consistent(self) -> bool {
        forall|key: (u64, Address)| #[trigger]
            self.certificates.contains_key(key) ==> {
                let cert = self.certificates[key];
                &&& cert.event_id == key.0
                &&& cert.attendee == key.1
                &&& self.attendees.contains_key(key)
                &&& self.attendees[key].eligible
                &&& cert.event_name == self.events[key.0].name
                &&& MIN_ATTENDANCE_BPS <= cert.attendance_ratio <= FULL_ATTENDANCE_BPS
            }
    }

    /// What holds of every ledger that the contract has written.
    pub open spec fn consistent(self) -> bool {
        &&& self.admin is None ==> self == LedgerView::empty()
        &&& self.events_consistent()
        &&& self.registrations_consistent()
        &&& self.attendees_consistent()
        &&& self.nonces_consistent()
        &&& self.pings_consistent()
        &&& self.blacklist_consistent()
        &&& self.certificates_consistent()
    }
}

/// A ledger on which nothing has been written is consistent.
pub proof fn law_empty_is_consistent()
    ensures
        LedgerView::empty().consistent(),
{
}

/// Every request keeps the ledger consistent.
pub proof fn law_next_is_consistent(ledger: LedgerView, call: Call)
    requires
        ledger.consistent(),
    ensures
        ledger.next(call).consistent(),
{
    if let Call::ConfirmPing { event_id, attendee, .. } = call {
        let confirmed = ledger.attendees[(event_id, attendee)].confirmed_pings.len();
        law_attendance_grows(confirmed, confirmed + 1, ledger.events[event_id].total_pings);
    }
    if let Call::Mint { event_id, attendee, .. } = call {
        law_full_attendance(
            ledger.attendees[(event_id, attendee)].confirmed_pings.len(),
            ledger.events[event_id].total_pings,
        );
    }
}

/// Every step keeps the ledger consistent, the host's dropping of a nonce included.
pub proof fn law_step_is_consistent(ledger: LedgerView, step: Step)
    requires
        ledger.consistent(),
    ensures
        ledger.taken(step).consistent(),
{
    match step {
        Step::Asked(call) => law_next_is_consistent(ledger, call),
        Step::NonceDropped(_) => {
            if ledger.admin is None {
                assert(ledger.taken(step) =~= ledger);
            }
        },
    }
}

/// Every sequence of steps keeps the ledger consistent.
pub proof fn law_history_is_consistent(ledger: LedgerView, steps: Seq<Step>)
    requires
        ledger.consistent(),
    ensures
        ledger.after(steps).consistent(),
    decreases steps.len(),
{
    if steps.len() > 0 {
        law_history_is_consistent(ledger, steps.drop_last());
        law_step_is_consistent(ledger.after(steps.drop_last()), steps.last());
    }
}

/// Whatever has happened to a contract that started on an empty ledger, a certificate is only
/// held by someone who registered, checked in, checked out and was found eligible, and it
/// attests at least the minimum attendance and at most full attendance.
pub proof fn law_certificates_are_earned(steps: Seq<Step>, event_id: u64, attendee: Address)
    requires
        LedgerView::empty().after(steps).certificates.contains_key((event_id, attendee)),
    ensures
        ({
            let ledger = LedgerView::empty().after(steps);
            let record = ledger.attendees[(event_id, attendee)];
            &&& ledger.events.contains_key(event_id)
            &&& ledger.registrations.contains_key((event_id, attendee))
            &&& ledger.attendees.contains_key((event_id, attendee))
            &&& record.checked_in && record.checked_out && record.eligible
            &&& MIN_ATTENDANCE_BPS <= ledger.certificates[(
                event_id,
                attendee,
            )].attendance_ratio <= FULL_ATTENDANCE_BPS
        }),
{
    law_empty_is_consistent();
    law_history_is_consistent(LedgerView::empty(), steps);
}

// ─── What never goes back ─────────────────────────────────────────────

/// Whether `later` can be the record of an event that once was `earlier`: its terms are the
/// same, and once ended it stays ended.
pub open spec fn event_leads_to(earlier: EventView, later: EventView) -> bool {
    &&& later == EventView { active: later.active, ended: later.ended, ..earlier }
    &&& earlier.ended ==> later.ended
}

/// Whether `later` can be the record of an attendee that once was `earlier`: the check-in is the
/// same, the confirmed pings are kept, a check-out and its verdict stand, and so does an absence.
pub open spec fn attendee_leads_to(earlier: AttendeeView, later: AttendeeView) -> bool {
    &&& later.attendee == earlier.attendee
    &&& later.event_id == earlier.event_id
    &&& later.checked_in == earlier.checked_in
    &&& later.checkin_time == earlier.checkin_time
    &&& later.checkin_face_proof == earlier.checkin_face_proof
    &&& earlier.confirmed_pings.is_prefix_of(later.confirmed_pings)
    &&& earlier.marked_absent ==> later.marked_absent
    &&& earlier.checked_out ==> {
        &&& later.checked_out
        &&& later.checkout_time == earlier.checkout_time
        &&& later.eligible == earlier.eligible
    }
}

/// Whether `later` can be a certificate that once was `earlier`: nothing changes but that it is
/// revoked.
pub open spec fn certificate_leads_to(earlier: CertificateView, later: CertificateView) -> bool {
    &&& later == CertificateView { revoked: later.revoked, ..earlier }
    &&& earlier.revoked ==> later.revoked
}

impl LedgerView {
    /// Whether everything that the contract never takes back on this ledger still stands on
    /// `later`.
    pub open spec fn leads_to(self, later: LedgerView) -> bool {
        &&& self.admin is Some ==> later.admin == self.admin
        &&& self.events_created() <= later.events_created()
        &&& forall|id: u64| #[trigger]
            self.events.contains_key(id) ==> later.events.contains_key(id) && event_leads_to(
                self.events[id],
                later.events[id],
            )
        &&& forall|key: (u64, Address)| #[trigger]
            self.registrations.contains_key(key) ==> later.registrations.contains_key(key)
                && later.registrations[key] == self.registrations[key]
        &&& forall|key: (u64, Address)| #[trigger]
            self.attendees.contains_key(key) ==> later.attendees.contains_key(key)
                && attendee_leads_to(self.attendees[key], later.attendees[key])
        &&& forall|id: u64| #[trigger]
            self.active_pings.contains_key(id) ==> later.active_pings.contains_key(id)
        &&& forall|key: (u64, Address)| #[trigger]
            self.certificates.contains_key(key) ==> later.certificates.contains_key(key)
                && certificate_leads_to(self.certificates[key], later.certificates[key])
        &&& forall|addr: Address|
            (#[trigger] self.fraud_log(addr)).is_prefix_of(later.fraud_log(addr))
    }
}

/// No step takes back what stands on the ledger.
pub proof fn law_step_takes_nothing_back(ledger: LedgerView, step: Step)
    requires
        ledger.consistent(),
    ensures
        ledger.leads_to(ledger.taken(step)),
{
}

proof fn lemma_leads_to_transitive(first: LedgerView, second: LedgerView, third: LedgerView)
    requires
        first.leads_to(second),
        second.leads_to(third),
    ensures
        first.leads_to(third),
{
}

/// No sequence of steps takes back what stands on the ledger: the admin, the terms and the end of
/// events, registrations, attendance, certificates and their revocation, and the fraud logs.
pub proof fn law_history_takes_nothing_back(ledger: LedgerView, steps: Seq<Step>)
    requires
        ledger.consistent(),
    ensures
        ledger.leads_to(ledger.after(steps)),
    decreases steps.len(),
{
    if steps.len() > 0 {
        let earlier = ledger.after(steps.drop_last());
        law_history_takes_nothing_back(ledger, steps.drop_last());
        law_history_is_consistent(ledger, steps.drop_last());
        law_step_takes_nothing_back(earlier, steps.last());
        lemma_leads_to_transitive(ledger, earlier, ledger.after(steps));
    }
}

/// A nonce changes in nothing but that it is used, and once used it stays used, for as long as the
/// host does not drop its record.
pub proof fn law_nonce_is_kept(ledger: LedgerView, nonce_hash: [u8; 32], steps: Seq<Step>)
    requires
        ledger.nonces.contains_key(nonce_hash),
        forall|i: int|
            0 <= i < steps.len() ==> #[trigger] steps[i] != Step::NonceDropped(nonce_hash),
    ensures
        ({
            let earlier = ledger.nonces[nonce_hash];
            let later = ledger.after(steps).nonces[nonce_hash];
            &&& ledger.after(steps).nonces.contains_key(nonce_hash)
            &&& later == NonceRecord { used: later.used, ..earlier }
            &&& earlier.used ==> later.used
        }),
    decreases steps.len(),
{
    if steps.len() > 0 {
        law_nonce_is_kept(ledger, nonce_hash, steps.drop_last());
        assert(steps.last() == steps[steps.len() - 1]);
    }
}

// ─── Answers ──────────────────────────────────────────────────────────

/// A request that is not granted leaves the ledger as it was.
pub proof fn law_refused_request_changes_nothing(ledger: LedgerView, call: Call)
    requires
        !ledger.grants(call),
    ensures
        ledger.next(call) == ledger,
{
}

/// What a granted request has written is what the queries then find.
pub proof fn law_writes_are_read_back(ledger: LedgerView, call: Call)
    requires
        ledger.grants(call),
    ensures
        ({
            let after = ledger.next(call);
            match call {
                Call::Initialize { admin } => after.admin == Some(admin) && after.events_created()
                    == 0,
                Call::CreateEvent {
                    name,
                    organizer,
                    start_time,
                    end_time,
                    location,
                    total_pings,
                } => after.events_created() == ledger.events_created() + 1 && after.events.get(
                    after.events_created(),
                ) == Some(
                    EventView {
                        event_id: after.events_created(),
                        name,
                        organizer,
                        start_time,
                        end_time,
                        location,
                        total_pings,
                        active: true,
                        ended: false,
                    },
                ),
                Call::EndEvent { event_id } => after.events.get(event_id) == Some(
                    EventView { active: false, ended: true, ..ledger.events[event_id] },
                ),
                Call::Register { now, event_id, attendee, face_hash } => after.registrations.get(
                    (event_id, attendee),
                ) == Some(
                    RegistrationData { attendee, event_id, registered_at: now, face_hash },
                ),
                Call::CheckIn {
                    now,
                    event_id,
                    attendee,
                    face_proof_hash,
                    ..
                } => after.attendees.get((event_id, attendee)) == Some(
                    AttendeeView {
                        attendee,
                        event_id,
                        checked_in: true,
                        checkin_time: now,
                        checked_out: false,
                        checkout_time: 0,
                        checkin_face_proof: face_proof_hash,
                        confirmed_pings: Seq::empty(),
                        marked_absent: false,
                        eligible: false,
                    },
                ),
                Call::OpenPing { now, event_id, ping_index } => after.active_pings.get(event_id)
                    == Some(
                    PingData {
                        event_id,
                        ping_index,
                        opened_at: now,
                        expires_at: (now + PING_WINDOW_SECS) as u64,
                        closed: false,
                    },
                ),
                Call::ConfirmPing { event_id, attendee, .. } => after.attendees.get(
                    (event_id, attendee),
                ) == Some(
                    AttendeeView {
                        confirmed_pings: ledger.attendees[(event_id, attendee)].confirmed_pings.push(
                            ledger.active_pings[event_id].ping_index,
                        ),
                        ..ledger.attendees[(event_id, attendee)]
                    },
                ),
                Call::Mint { now, event_id, attendee, cert_id } => after.certificates.get(
                    (event_id, attendee),
                ) == Some(
                    CertificateView {
                        cert_id,
                        event_id,
                        attendee,
                        issued_at: now,
                        attendance_ratio: ledger.attendance_of(event_id, attendee) as u32,
                        event_name: ledger.events[event_id].name,
                        revoked: false,
                    },
                ),
                _ => true,
            }
        }),
{
}

/// Until the contract is initialized, no other request changes anything.
pub proof fn law_initialization_comes_first(ledger: LedgerView, call: Call)
    requires
        ledger.consistent(),
        ledger.admin is None,
        !(call is Initialize),
    ensures
        !ledger.grants(call),
        ledger.next(call) == ledger,
{
}

/// The contract is initialized once: from then on the admin stays, and every further attempt is
/// answered `Unauthorized`.
pub proof fn law_initialized_once(
    ledger: LedgerView,
    admin: Address,
    between: Seq<Step>,
    other: Address,
)
    requires
        ledger.consistent(),
        ledger.grants(Call::Initialize { admin }),
    ensures
        ({
            let later = ledger.next(Call::Initialize { admin }).after(between);
            &&& later.admin == Some(admin)
            &&& later.refusal(Call::Initialize { admin: other }) == Some(Error::Unauthorized)
        }),
{
    let initialized = ledger.next(Call::Initialize { admin });
    law_next_is_consistent(ledger, Call::Initialize { admin });
    law_history_takes_nothing_back(initialized, between);
}

/// A nonce works once: after a granted request has presented it, and while its record stays
/// stored, it is known as used at any time, no request that presents it is granted, and it
/// cannot be registered again, whatever else happens in between. A request that has nothing else
/// against it is told that the nonce is used.
pub proof fn law_nonce_works_once(
    ledger: LedgerView,
    first: Call,
    between: Seq<Step>,
    second: Call,
    now: u64,
)
    requires
        first.presented_nonce() is Some,
        second.presented_nonce() == first.presented_nonce(),
        ledger.grants(first),
        forall|i: int|
            0 <= i < between.len() ==> #[trigger] between[i] != Step::NonceDropped(
                first.presented_nonce()->0,
            ),
    ensures
        ({
            let later = ledger.next(first).after(between);
            let nonce_hash = first.presented_nonce()->0;
            &&& later.nonce_refusal(now, nonce_hash) == Some(Error::NonceAlreadyUsed)
            &&& later.refusal(second) is Some
            &&& later.reaches_nonce(second) ==> later.refusal(second) == Some(
                Error::NonceAlreadyUsed,
            )
            &&& later.register_nonce_refusal(nonce_hash) == Some(Error::NonceAlreadyUsed)
        }),
{
    let nonce_hash = first.presented_nonce()->0;
    let used = ledger.next(first);
    assert(used.nonces.contains_key(nonce_hash) && used.nonces[nonce_hash].used);
    law_nonce_is_kept(used, nonce_hash, between);
}

/// A nonce that has been registered and not yet presented is good for `NONCE_TTL_SECS`, the last
/// second counted in, and then expired.
pub proof fn law_nonce_window(
    ledger: LedgerView,
    created: u64,
    nonce_hash: [u8; 32],
    event_id: u64,
    nonce_type: u32,
    ping_index: u32,
    now: u64,
)
    requires
        ledger.grants(
            Call::RegisterNonce { now: created, nonce_hash, event_id, nonce_type, ping_index },
        ),
    ensures
        ledger.next(
            Call::RegisterNonce { now: created, nonce_hash, event_id, nonce_type, ping_index },
        ).nonce_refusal_for(now, nonce_hash, event_id, nonce_type) == if now <= created
            + NONCE_TTL_SECS {
            None
        } else {
            Some(Error::NonceExpired)
        },
{
}

/// When the host has dropped the record of a nonce, nobody knows it any more: no request that
/// presents it is granted, and one that has nothing else against it is told that the nonce is
/// invalid.
pub proof fn law_dropped_nonce_is_unknown(
    ledger: LedgerView,
    nonce_hash: [u8; 32],
    now: u64,
    call: Call,
)
    requires
        call.presented_nonce() == Some(nonce_hash),
    ensures
        ({
            let dropped = ledger.taken(Step::NonceDropped(nonce_hash));
            &&& dropped.nonce_refusal(now, nonce_hash) == Some(Error::InvalidNonce)
            &&& dropped.refusal(call) is Some
            &&& dropped.reaches_nonce(call) ==> dropped.refusal(call) == Some(Error::InvalidNonce)
        }),
{
}

/// A nonce is good for one kind of step at one event.
pub proof fn law_nonce_is_bound(
    ledger: LedgerView,
    now: u64,
    nonce_hash: [u8; 32],
    event_id: u64,
    nonce_type: u32,
)
    requires
        ledger.nonces.contains_key(nonce_hash),
        ledger.nonces[nonce_hash].event_id != event_id || ledger.nonces[nonce_hash].nonce_type
            != nonce_type,
        ledger.nonce_refusal(now, nonce_hash) is None,
    ensures
        ledger.nonce_refusal_for(now, nonce_hash, event_id, nonce_type) == Some(
            Error::InvalidNonce,
        ),
{
}

/// A ping window is open for `PING_WINDOW_SECS`, the last second counted in. After that a member
/// who is present is told that it has expired.
pub proof fn law_ping_window(
    ledger: LedgerView,
    opened: u64,
    event_id: u64,
    ping_index: u32,
    attendee: Address,
    nonce_hash: [u8; 32],
    now: u64,
)
    requires
        ledger.grants(Call::OpenPing { now: opened, event_id, ping_index }),
        !ledger.blacklist.contains_key(attendee),
        ledger.is_checked_in(event_id, attendee),
    ensures
        (ledger.next(Call::OpenPing { now: opened, event_id, ping_index }).confirm_ping_refusal(
            now,
            event_id,
            attendee,
            nonce_hash,
        ) == Some(Error::PingWindowExpired)) <==> now > opened + PING_WINDOW_SECS,
{
}

/// A ping window that is closed stays closed as long as no ping is opened for the event.
proof fn lemma_ping_stays_closed(ledger: LedgerView, event_id: u64, steps: Seq<Step>)
    requires
        ledger.active_pings.contains_key(event_id),
        ledger.active_pings[event_id].closed,
        forall|i: int|
            0 <= i < steps.len() ==> !(#[trigger] steps[i] matches Step::Asked(
                Call::OpenPing { event_id: id, .. },
            ) && id == event_id),
    ensures
        ledger.after(steps).active_pings.contains_key(event_id),
        ledger.after(steps).active_pings[event_id].closed,
    decreases steps.len(),
{
    if steps.len() > 0 {
        lemma_ping_stays_closed(ledger, event_id, steps.drop_last());
        assert(steps.last() == steps[steps.len() - 1]);
    }
}

/// A closed ping window takes no confirmation until another ping is opened for the event,
/// whatever else happens in between. A member who is present is told that no ping is active.
pub proof fn law_closed_ping_is_not_confirmed(
    ledger: LedgerView,
    event_id: u64,
    between: Seq<Step>,
    attendee: Address,
    nonce_hash: [u8; 32],
    now: u64,
)
    requires
        ledger.grants(Call::ClosePing { event_id }),
        forall|i: int|
            0 <= i < between.len() ==> !(#[trigger] between[i] matches Step::Asked(
                Call::OpenPing { event_id: id, .. },
            ) && id == event_id),
    ensures
        ({
            let later = ledger.next(Call::ClosePing { event_id }).after(between);
            let refusal = later.confirm_ping_refusal(now, event_id, attendee, nonce_hash);
            &&& refusal is Some
            &&& !later.blacklist.contains_key(attendee) && later.is_checked_in(event_id, attendee)
                ==> refusal == Some(Error::NoPingActive)
        }),
{
    lemma_ping_stays_closed(ledger.next(Call::ClosePing { event_id }), event_id, between);
}

/// Nobody registers for an event once it has begun, whatever happens before. A member who could
/// otherwise register is told that the event takes no registrations.
pub proof fn law_registration_closes_at_the_start(
    ledger: LedgerView,
    event_id: u64,
    between: Seq<Step>,
    now: u64,
    attendee: Address,
    face_hash: [u8; 32],
)
    requires
        ledger.consistent(),
        ledger.events.contains_key(event_id),
        now >= ledger.events[event_id].start_time,
    ensures
        ({
            let later = ledger.after(between);
            let register = Call::Register { now, event_id, attendee, face_hash };
            &&& later.refusal(register) is Some
            &&& !later.blacklist.contains_key(attendee) && !later.registrations.contains_key(
                (event_id, attendee),
            ) ==> later.refusal(register) == Some(Error::EventNotActive)
            &&& later.next(register).registrations == later.registrations
        }),
{
    law_history_takes_nothing_back(ledger, between);
}

/// An event that has ended stays ended: whatever happens later, nobody registers for it or checks
/// in, and no ping window opens. Whoever is not blacklisted, and registered where they check in,
/// is told that the event is not active.
pub proof fn law_ended_event_stays_ended(
    ledger: LedgerView,
    event_id: u64,
    between: Seq<Step>,
    call: Call,
)
    requires
        ledger.consistent(),
        ledger.grants(Call::EndEvent { event_id }),
    ensures
        ({
            let later = ledger.next(Call::EndEvent { event_id }).after(between);
            &&& later.active_event_refusal(event_id) == Some(Error::EventNotActive)
            &&& match call {
                Call::Register { event_id: id, attendee, .. } => id == event_id ==> later.refusal(
                    call,
                ) == Some(
                    if later.blacklist.contains_key(attendee) {
                        Error::Blacklisted
                    } else {
                        Error::EventNotActive
                    },
                ),
                Call::CheckIn { event_id: id, attendee, .. } => id == event_id ==> later.refusal(
                    call,
                ) == Some(
                    if later.blacklist.contains_key(attendee) {
                        Error::Blacklisted
                    } else if !later.registrations.contains_key((event_id, attendee)) {
                        Error::NotRegistered
                    } else {
                        Error::EventNotActive
                    },
                ),
                Call::OpenPing { event_id: id, .. } => id == event_id ==> later.refusal(call)
                    == Some(Error::EventNotActive),
                _ => true,
            }
        }),
{
    let ended = ledger.next(Call::EndEvent { event_id });
    assert(ended.events.contains_key(event_id) && ended.events[event_id].ended);
    law_next_is_consistent(ledger, Call::EndEvent { event_id });
    law_history_takes_nothing_back(ended, between);
    law_history_is_consistent(ended, between);
}

/// An event gets an id that no event had before, and no later event gets it again.
pub proof fn law_event_ids_are_fresh(ledger: LedgerView, create: Call, between: Seq<Step>)
    requires
        ledger.consistent(),
        create is CreateEvent,
        ledger.grants(create),
    ensures
        !ledger.events.contains_key(ledger.next_event_id()),
        ledger.next(create).events.contains_key(ledger.next_event_id()),
        ({
            let later = ledger.next(create).after(between);
            later.events_created() < u64::MAX ==> later.next_event_id() > ledger.next_event_id()
        }),
{
    law_next_is_consistent(ledger, create);
    law_history_takes_nothing_back(ledger.next(create), between);
}

/// A blacklisted member is refused everything a member can ask for, and is told why.
pub proof fn law_blacklisted_member_is_refused(ledger: LedgerView, member: Address, call: Call)
    requires
        ledger.blacklist.contains_key(member),
        call.member() == Some(member),
    ensures
        ledger.refusal(call) == Some(Error::Blacklisted),
{
}

/// Only the admin's appeal decision takes an address off the blacklist: through any steps
/// without one it stays there.
pub proof fn law_blacklisting_lasts(ledger: LedgerView, member: Address, steps: Seq<Step>)
    requires
        ledger.blacklist.contains_key(member),
        forall|i: int|
            0 <= i < steps.len() ==> #[trigger] steps[i] != Step::Asked(
                Call::RemoveFromBlacklist { addr: member },
            ),
    ensures
        ledger.after(steps).blacklist.contains_key(member),
    decreases steps.len(),
{
    if steps.len() > 0 {
        law_blacklisting_lasts(ledger, member, steps.drop_last());
        assert(steps.last() == steps[steps.len() - 1]);
    }
}

/// A fraud report blacklists both parties and adds the case to their logs. Their certificates
/// for the event, if minted, are revoked for good.
pub proof fn law_fraud_report_takes_effect(
    ledger: LedgerView,
    now: u64,
    impersonator: Address,
    requester: Address,
    event_id: u64,
    reason: Seq<u8>,
    party: Address,
    later: Seq<Step>,
)
    requires
        ledger.consistent(),
        ledger.admin is Some,
        party == impersonator || party == requester,
    ensures
        ({
            let report = Call::ReportFraud { now, impersonator, requester, event_id, reason };
            let reported = ledger.next(report);
            &&& ledger.grants(report)
            &&& reported.blacklist.contains_key(party)
            &&& reported.fraud_log(party).len() == ledger.fraud_log(party).len() + if impersonator
                == requester {
                2nat
            } else {
                1nat
            }
            &&& reported.fraud_log(party).last() == (FraudView {
                event_id,
                detected_at: now,
                reason,
            })
            &&& ledger.certificates.contains_key((event_id, party)) ==> reported.after(
                later,
            ).certificates.contains_key((event_id, party)) && reported.after(
                later,
            ).certificates[(event_id, party)].revoked
        }),
{
    let report = Call::ReportFraud { now, impersonator, requester, event_id, reason };
    let reported = ledger.next(report);
    law_next_is_consistent(ledger, report);
    law_history_takes_nothing_back(reported, later);
    if ledger.certificates.contains_key((event_id, party)) {
        assert(reported.certificates.contains_key((event_id, party)));
        assert(reported.certificates[(event_id, party)].revoked);
    }
}

/// A fraud report touches nobody but its two parties.
pub proof fn law_fraud_report_spares_others(
    ledger: LedgerView,
    now: u64,
    impersonator: Address,
    requester: Address,
    event_id: u64,
    reason: Seq<u8>,
    other: Address,
    other_event: u64,
)
    requires
        other != impersonator && other != requester || other_event != event_id,
    ensures
        ({
            let reported = ledger.next(
                Call::ReportFraud { now, impersonator, requester, event_id, reason },
            );
            &&& other != impersonator && other != requester ==> {
                &&& reported.blacklist.contains_key(other) == ledger.blacklist.contains_key(other)
                &&& reported.fraud_log(other) == ledger.fraud_log(other)
            }
            &&& reported.certificates.get((other_event, other)) == ledger.certificates.get(
                (other_event, other),
            )
        }),
{
}

/// A successful appeal lifts the blacklisting and nothing else: the fraud log and the revocation
/// of certificates stand.
pub proof fn law_appeal_lifts_blacklisting_only(ledger: LedgerView, member: Address)
    requires
        ledger.admin is Some,
    ensures
        ({
            let appealed = ledger.next(Call::RemoveFromBlacklist { addr: member });
            &&& !appealed.blacklist.contains_key(member)
            &&& forall|other: Address|
                other != member ==> appealed.blacklist.get(other) == ledger.blacklist.get(other)
            &&& appealed == LedgerView { blacklist: appealed.blacklist, ..ledger }
        }),
{
}

/// Registering, checking in, checking out and minting happen once for each attendee of an event,
/// whatever happens in between. Who asks again is told that it has been done, unless they are
/// blacklisted meanwhile or, for registering and checking in, the event is no longer active.
pub proof fn law_steps_happen_once(
    ledger: LedgerView,
    first: Call,
    between: Seq<Step>,
    second: Call,
)
    requires
        ledger.consistent(),
        ledger.grants(first),
        match (first, second) {
            (
                Call::Register { event_id: e, attendee: a, .. },
                Call::Register { event_id, attendee, .. },
            ) => e == event_id && a == attendee,
            (
                Call::CheckIn { event_id: e, attendee: a, .. },
                Call::CheckIn { event_id, attendee, .. },
            ) => e == event_id && a == attendee,
            (
                Call::CheckOut { event_id: e, attendee: a, .. },
                Call::CheckOut { event_id, attendee, .. },
            ) => e == event_id && a == attendee,
            (
                Call::Mint { event_id: e, attendee: a, .. },
                Call::Mint { event_id, attendee, .. },
            ) => e == event_id && a == attendee,
            _ => false,
        },
    ensures
        ({
            let later = ledger.next(first).after(between);
            later.refusal(second) == match second {
                Call::Register { event_id, attendee, .. } => {
                    if later.blacklist.contains_key(attendee) {
                        Some(Error::Blacklisted)
                    } else if later.active_event_refusal(event_id) is Some {
                        later.active_event_refusal(event_id)
                    } else {
                        Some(Error::AlreadyRegistered)
                    }
                },
                Call::CheckIn { event_id, attendee, .. } => {
                    if later.blacklist.contains_key(attendee) {
                        Some(Error::Blacklisted)
                    } else if later.active_event_refusal(event_id) is Some {
                        later.active_event_refusal(event_id)
                    } else {
                        Some(Error::AlreadyCheckedIn)
                    }
                },
                Call::CheckOut { attendee, .. } => {
                    if later.blacklist.contains_key(attendee) {
                        Some(Error::Blacklisted)
                    } else {
                        Some(Error::AlreadyCheckedOut)
                    }
                },
                Call::Mint { attendee, .. } => {
                    if later.blacklist.contains_key(attendee) {
                        Some(Error::Blacklisted)
                    } else {
                        Some(Error::CertificateAlreadyMinted)
                    }
                },
                _ => None,
            }
        }),
{
    let done = ledger.next(first);
    law_next_is_consistent(ledger, first);
    law_history_takes_nothing_back(done, between);
    law_history_is_consistent(done, between);
    match first {
        Call::Register { event_id, attendee, .. } => {
            assert(done.registrations.contains_key((event_id, attendee)));
        },
        Call::CheckIn { event_id, attendee, .. } => {
            assert(done.attendees.contains_key((event_id, attendee)));
        },
        Call::CheckOut { event_id, attendee, .. } => {
            assert(done.attendees.contains_key((event_id, attendee)));
        },
        Call::Mint { event_id, attendee, .. } => {
            assert(done.certificates.contains_key((event_id, attendee)));
        },
        _ => {},
    }
}

/// A ping is confirmed once by each attendee, whatever happens in between: as long as the ping
/// that was confirmed is the latest one of the event, no confirmation is granted. While its window
/// is open, an attendee who is not blacklisted is told that they have confirmed it.
pub proof fn law_ping_is_confirmed_once(
    ledger: LedgerView,
    first: Call,
    between: Seq<Step>,
    second: Call,
)
    requires
        ledger.consistent(),
        ledger.grants(first),
        match (first, second) {
            (
                Call::ConfirmPing { event_id: e, attendee: a, .. },
                Call::ConfirmPing { event_id, attendee, .. },
            ) => e == event_id && a == attendee && ledger.next(first).after(
                between,
            ).active_pings[e].ping_index == ledger.active_pings[e].ping_index,
            _ => false,
        },
    ensures
        ({
            let later = ledger.next(first).after(between);
            second matches Call::ConfirmPing { now, event_id, attendee, .. } ==> later.refusal(
                second,
            ) == Some(
                if later.blacklist.contains_key(attendee) {
                    Error::Blacklisted
                } else if later.active_pings[event_id].closed {
                    Error::NoPingActive
                } else if now > later.active_pings[event_id].expires_at {
                    Error::PingWindowExpired
                } else {
                    Error::AlreadyConfirmedPing
                },
            )
        }),
{
    law_next_is_consistent(ledger, first);
    law_history_takes_nothing_back(ledger.next(first), between);
    if let Call::ConfirmPing { event_id, attendee, .. } = first {
        let key = (event_id, attendee);
        let confirmed = ledger.next(first).attendees[key].confirmed_pings;
        let later = ledger.next(first).after(between);
        assert(ledger.next(first).attendees.contains_key(key));
        assert(ledger.next(first).active_pings.contains_key(event_id));
        assert(confirmed.last() == ledger.active_pings[event_id].ping_index);
        let i = confirmed.len() - 1;
        assert(later.attendees[key].confirmed_pings[i] == confirmed[i]);
    }
}

/// Checking out makes an attendee eligible exactly when no pings were scheduled or at least nine
/// of ten were confirmed.
pub proof fn law_eligibility(
    ledger: LedgerView,
    now: u64,
    event_id: u64,
    attendee: Address,
    nonce_hash: [u8; 32],
)
    requires
        ledger.grants(Call::CheckOut { now, event_id, attendee, nonce_hash }),
    ensures
        ({
            let confirmed = ledger.attendees[(event_id, attendee)].confirmed_pings.len();
            let total = ledger.events[event_id].total_pings;
            let after = ledger.next(Call::CheckOut { now, event_id, attendee, nonce_hash });
            &&& after.attendees.contains_key((event_id, attendee))
            &&& after.attendees[(event_id, attendee)].eligible <==> total == 0 || 10 * confirmed
                >= 9 * total
        }),
{
    law_minimum_attendance(
        ledger.attendees[(event_id, attendee)].confirmed_pings.len(),
        ledger.events[event_id].total_pings,
    );
}

/// An attendee who has checked out below the minimum attendance gets no certificate for the
/// event, whatever happens later. Unless blacklisted, they are told that they are not eligible.
pub proof fn law_insufficient_attendance_is_final(
    ledger: LedgerView,
    event_id: u64,
    attendee: Address,
    between: Seq<Step>,
    now: u64,
    cert_id: [u8; 32],
)
    requires
        ledger.consistent(),
        ledger.attendees.contains_key((event_id, attendee)),
        ledger.attendees[(event_id, attendee)].checked_out,
        !ledger.attendees[(event_id, attendee)].eligible,
    ensures
        ledger.after(between).refusal(Call::Mint { now, event_id, attendee, cert_id }) == Some(
            if ledger.after(between).blacklist.contains_key(attendee) {
                Error::Blacklisted
            } else {
                Error::NotEligible
            },
        ),
        !ledger.after(between).certificates.contains_key((event_id, attendee)),
{
    law_history_takes_nothing_back(ledger, between);
    law_history_is_consistent(ledger, between);
}

/// Marking absences marks those listed who are on record at the event and missed the ping, and
/// leaves everybody else alone.
pub proof fn law_absences(
    ledger: LedgerView,
    event_id: u64,
    attendees: Seq<Address>,
    ping_index: u32,
    key: (u64, Address),
)
    requires
        ledger.admin is Some,
    ensures
        ({
            let marked = ledger.next(Call::MarkAbsent { event_id, attendees, ping_index });
            if key.0 == event_id && attendees.contains(key.1) && ledger.missed_ping(
                event_id,
                key.1,
                ping_index,
            ) {
                marked.attendees.get(key) == Some(
                    AttendeeView { marked_absent: true, ..ledger.attendees[key] },
                )
            } else {
                marked.attendees.get(key) == ledger.attendees.get(key)
            }
        }),
{
}

/// Marking the same absences again changes nothing.
pub proof fn law_absences_are_idempotent(
    ledger: LedgerView,
    event_id: u64,
    attendees: Seq<Address>,
    ping_index: u32,
)
    ensures
        ({
            let call = Call::MarkAbsent { event_id, attendees, ping_index };
            ledger.next(call).next(call) == ledger.next(call)
        }),
{
    let call = Call::MarkAbsent { event_id, attendees, ping_index };
    assert(ledger.next(call).next(call) =~= ledger.next(call));
}

} // verus!
