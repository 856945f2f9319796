//! Every refusal, with a request that meets it, and that it changes nothing.

use certification::contract::CertificationContract;
use certification::error::Error;
use certification::ledger::{Invocation, Ledger};
use certification::types::{Address, NONCE_CHECKIN, NONCE_CHECKOUT, NONCE_PING};

fn address(number: u8) -> Address {
    let mut strkey = [b'A'; 56];
    strkey[0] = b'G';
    strkey[55] = b'A' + number;
    Address { strkey }
}

fn hash(seed: u8) -> [u8; 32] {
    [seed; 32]
}

fn at(timestamp: u64) -> Invocation {
    Invocation { timestamp, signers: (0..10).map(address).collect() }
}

fn new_event(ledger: &mut Ledger, total_pings: u32) -> u64 {
    CertificationContract::create_event(
        ledger,
        &at(100),
        b"Talk".to_vec(),
        address(1),
        1_000,
        2_000,
        b"Hall".to_vec(),
        total_pings,
    )
}

/// An initialized contract with one event of `total_pings` pings and a registered member.
fn registered(total_pings: u32) -> (Ledger, u64, Address) {
    let mut ledger = Ledger::new();
    CertificationContract::initialize(&mut ledger, address(0)).unwrap();
    let event_id = new_event(&mut ledger, total_pings);
    let member = address(2);
    CertificationContract::register(&mut ledger, &at(100), event_id, member, hash(1)).unwrap();
    (ledger, event_id, member)
}

fn nonce(ledger: &mut Ledger, time: u64, seed: u8, event_id: u64, kind: u32, ping: u32) -> [u8; 32] {
    CertificationContract::register_nonce(ledger, &at(time), hash(seed), event_id, kind, ping)
        .unwrap();
    hash(seed)
}

/// As `registered`, with the member checked in at time 200.
fn checked_in(total_pings: u32) -> (Ledger, u64, Address) {
    let (mut ledger, event_id, member) = registered(total_pings);
    let n = nonce(&mut ledger, 200, 10, event_id, NONCE_CHECKIN, 0);
    CertificationContract::check_in(&mut ledger, &at(200), event_id, member, n, hash(2), true)
        .unwrap();
    (ledger, event_id, member)
}

/// As `checked_in`, with the member checked out at time 400.
fn checked_out(total_pings: u32) -> (Ledger, u64, Address) {
    let (mut ledger, event_id, member) = checked_in(total_pings);
    let n = nonce(&mut ledger, 400, 30, event_id, NONCE_CHECKOUT, 0);
    CertificationContract::check_out(&mut ledger, &at(400), event_id, member, n).unwrap();
    (ledger, event_id, member)
}

fn check_in(ledger: &mut Ledger, time: u64, event_id: u64, who: Address, n: [u8; 32]) -> Result<(), Error> {
    CertificationContract::check_in(ledger, &at(time), event_id, who, n, hash(2), true)
}

#[test]
fn second_initialization_is_unauthorized() {
    let mut ledger = Ledger::new();
    assert_eq!(CertificationContract::require_admin(&ledger), None);
    assert_eq!(CertificationContract::initialize(&mut ledger, address(0)), Ok(()));
    assert_eq!(ledger.event_counter, Some(0));
    assert_eq!(
        CertificationContract::initialize(&mut ledger, address(5)),
        Err(Error::Unauthorized)
    );
    assert_eq!(CertificationContract::require_admin(&ledger), Some(address(0)));
}

#[test]
fn nothing_can_be_asked_before_initialization() {
    let mut ledger = Ledger::new();
    let member = address(2);
    assert_eq!(
        CertificationContract::register(&mut ledger, &at(100), 1, member, hash(1)),
        Err(Error::EventNotFound)
    );
    assert_eq!(check_in(&mut ledger, 100, 1, member, hash(1)), Err(Error::NotRegistered));
    assert_eq!(
        CertificationContract::confirm_ping(&mut ledger, &at(100), 1, member, hash(1)),
        Err(Error::NotCheckedIn)
    );
}

#[test]
fn unknown_event_is_not_found() {
    let (mut ledger, _, member) = registered(0);
    let by = at(100);
    assert_eq!(CertificationContract::end_event(&mut ledger, &by, 9), Err(Error::EventNotFound));
    assert_eq!(
        CertificationContract::register(&mut ledger, &by, 9, member, hash(1)),
        Err(Error::EventNotFound)
    );
    assert_eq!(
        CertificationContract::open_ping(&mut ledger, &by, 9, 0),
        Err(Error::EventNotFound)
    );
    assert!(CertificationContract::get_event(&ledger, 9).is_none());
    assert!(CertificationContract::get_registration(&ledger, 9, member).is_none());
}

#[test]
fn unknown_event_is_reported_at_check_out_and_minting() {
    let (mut ledger, event_id, member) = checked_out(0);
    ledger.events.remove(&event_id);
    assert_eq!(
        CertificationContract::record_certificate(
            &mut ledger,
            &at(500),
            event_id,
            member,
            hash(7)
        ),
        Err(Error::EventNotFound)
    );
    let (mut ledger, event_id, member) = checked_in(0);
    let n = nonce(&mut ledger, 400, 30, event_id, NONCE_CHECKOUT, 0);
    ledger.events.remove(&event_id);
    assert_eq!(
        CertificationContract::check_out(&mut ledger, &at(400), event_id, member, n),
        Err(Error::EventNotFound)
    );
    assert!(!ledger.nonces.get(&n).unwrap().used);
}

#[test]
fn ended_event_takes_no_one_and_opens_no_ping() {
    let (mut ledger, event_id, member) = registered(0);
    let n = nonce(&mut ledger, 200, 10, event_id, NONCE_CHECKIN, 0);
    CertificationContract::end_event(&mut ledger, &at(200), event_id).unwrap();
    let event = CertificationContract::get_event(&ledger, event_id).unwrap();
    assert!(!event.active);
    assert!(event.ended);
    assert_eq!(event.name, b"Talk".to_vec());
    assert_eq!(
        CertificationContract::register(&mut ledger, &at(200), event_id, address(3), hash(1)),
        Err(Error::EventNotActive)
    );
    assert_eq!(check_in(&mut ledger, 200, event_id, member, n), Err(Error::EventNotActive));
    assert_eq!(
        CertificationContract::open_ping(&mut ledger, &at(200), event_id, 0),
        Err(Error::EventNotActive)
    );
    assert!(!ledger.nonces.get(&n).unwrap().used);
    // Ending it again is no error and changes nothing.
    assert_eq!(CertificationContract::end_event(&mut ledger, &at(300), event_id), Ok(()));
    assert_eq!(CertificationContract::get_event(&ledger, event_id), Some(event));
}

#[test]
fn second_registration_is_refused() {
    let (mut ledger, event_id, member) = registered(0);
    assert_eq!(
        CertificationContract::register(&mut ledger, &at(150), event_id, member, hash(5)),
        Err(Error::AlreadyRegistered)
    );
    let registration =
        CertificationContract::get_registration(&ledger, event_id, member).unwrap();
    assert_eq!(registration.registered_at, 100);
    assert_eq!(registration.face_hash, hash(1));
}

#[test]
fn registration_closes_when_the_event_begins() {
    let (mut ledger, event_id, member) = registered(0);
    for time in [1_000, 1_001, 2_500] {
        assert_eq!(
            CertificationContract::register(&mut ledger, &at(time), event_id, address(3), hash(1)),
            Err(Error::EventNotActive)
        );
        // Whoever is registered is still told so.
        assert_eq!(
            CertificationContract::register(&mut ledger, &at(time), event_id, member, hash(1)),
            Err(Error::AlreadyRegistered)
        );
    }
    assert!(CertificationContract::get_registration(&ledger, event_id, address(3)).is_none());
    assert_eq!(
        CertificationContract::register(&mut ledger, &at(999), event_id, address(3), hash(1)),
        Ok(())
    );
}

#[test]
fn closed_ping_stays_closed_until_another_is_opened() {
    let (mut ledger, event_id, member) = checked_in(2);
    CertificationContract::open_ping(&mut ledger, &at(300), event_id, 0).unwrap();
    CertificationContract::close_ping(&mut ledger, &at(301), event_id).unwrap();
    let other = new_event(&mut ledger, 1);
    CertificationContract::open_ping(&mut ledger, &at(302), other, 0).unwrap();
    let n = nonce(&mut ledger, 303, 20, event_id, NONCE_PING, 0);
    assert_eq!(
        CertificationContract::confirm_ping(&mut ledger, &at(303), event_id, member, n),
        Err(Error::NoPingActive)
    );
    CertificationContract::open_ping(&mut ledger, &at(304), event_id, 0).unwrap();
    assert_eq!(
        CertificationContract::confirm_ping(&mut ledger, &at(305), event_id, member, n),
        Ok(())
    );
}

#[test]
fn dropped_nonce_is_unknown() {
    let (mut ledger, event_id, member) = registered(0);
    let n = nonce(&mut ledger, 200, 10, event_id, NONCE_CHECKIN, 0);
    ledger.nonces.remove(&n);
    assert_eq!(check_in(&mut ledger, 201, event_id, member, n), Err(Error::InvalidNonce));
}

#[test]
fn check_in_needs_a_registration() {
    let (mut ledger, event_id, _) = registered(0);
    let n = nonce(&mut ledger, 200, 10, event_id, NONCE_CHECKIN, 0);
    assert_eq!(check_in(&mut ledger, 200, event_id, address(3), n), Err(Error::NotRegistered));
    assert!(!ledger.nonces.get(&n).unwrap().used);
}

#[test]
fn second_check_in_is_refused() {
    let (mut ledger, event_id, member) = checked_in(0);
    let n = nonce(&mut ledger, 210, 11, event_id, NONCE_CHECKIN, 0);
    assert_eq!(check_in(&mut ledger, 210, event_id, member, n), Err(Error::AlreadyCheckedIn));
    assert!(!ledger.nonces.get(&n).unwrap().used);
    let record = CertificationContract::get_attendee(&ledger, event_id, member).unwrap();
    assert_eq!(record.checkin_time, 200);
}

#[test]
fn failed_face_match_leaves_the_nonce_good() {
    let (mut ledger, event_id, member) = registered(0);
    let n = nonce(&mut ledger, 200, 10, event_id, NONCE_CHECKIN, 0);
    assert_eq!(
        CertificationContract::check_in(
            &mut ledger,
            &at(200),
            event_id,
            member,
            n,
            hash(2),
            false
        ),
        Err(Error::FaceVerificationFailed)
    );
    assert!(CertificationContract::get_attendee(&ledger, event_id, member).is_none());
    assert_eq!(check_in(&mut ledger, 201, event_id, member, n), Ok(()));
    assert!(ledger.nonces.get(&n).unwrap().used);
}

#[test]
fn nonce_must_exist_and_fit_the_step() {
    let (mut ledger, event_id, member) = registered(0);
    let other = new_event(&mut ledger, 0);
    assert_eq!(
        check_in(&mut ledger, 200, event_id, member, hash(50)),
        Err(Error::InvalidNonce)
    );
    let wrong_type = nonce(&mut ledger, 200, 51, event_id, NONCE_CHECKOUT, 0);
    let wrong_event = nonce(&mut ledger, 200, 52, other, NONCE_CHECKIN, 0);
    assert_eq!(
        check_in(&mut ledger, 200, event_id, member, wrong_type),
        Err(Error::InvalidNonce)
    );
    assert_eq!(
        check_in(&mut ledger, 200, event_id, member, wrong_event),
        Err(Error::InvalidNonce)
    );
    // A refused scan has not used the nonces up.
    assert!(!ledger.nonces.get(&wrong_type).unwrap().used);
    assert!(!ledger.nonces.get(&wrong_event).unwrap().used);
}

#[test]
fn nonce_lives_for_fifteen_seconds() {
    let (mut ledger, event_id, member) = registered(0);
    let n = nonce(&mut ledger, 200, 10, event_id, NONCE_CHECKIN, 0);
    let record = *ledger.nonces.get(&n).unwrap();
    assert_eq!(record.created_at, 200);
    assert_eq!(record.expires_at, 215);
    assert_eq!(check_in(&mut ledger, 216, event_id, member, n), Err(Error::NonceExpired));
    assert_eq!(check_in(&mut ledger, 215, event_id, member, n), Ok(()));
}

#[test]
fn nonce_is_registered_once() {
    let (mut ledger, event_id, _) = registered(0);
    let n = nonce(&mut ledger, 200, 10, event_id, NONCE_PING, 3);
    assert_eq!(
        CertificationContract::register_nonce(
            &mut ledger,
            &at(300),
            n,
            event_id,
            NONCE_CHECKIN,
            0
        ),
        Err(Error::NonceAlreadyUsed)
    );
    let record = *ledger.nonces.get(&n).unwrap();
    assert_eq!((record.nonce_type, record.ping_index, record.created_at), (NONCE_PING, 3, 200));
}

#[test]
fn shared_nonce_is_reported_as_used() {
    let (mut ledger, event_id, member) = registered(0);
    CertificationContract::register(&mut ledger, &at(100), event_id, address(3), hash(1)).unwrap();
    let n = nonce(&mut ledger, 200, 99, event_id, NONCE_CHECKIN, 0);
    assert_eq!(check_in(&mut ledger, 201, event_id, member, n), Ok(()));
    assert_eq!(
        check_in(&mut ledger, 202, event_id, address(3), n),
        Err(Error::NonceAlreadyUsed)
    );
    // Used beats expired.
    assert_eq!(
        check_in(&mut ledger, 900, event_id, address(3), n),
        Err(Error::NonceAlreadyUsed)
    );
    assert!(CertificationContract::get_attendee(&ledger, event_id, address(3)).is_none());
}

#[test]
fn pings_need_a_check_in() {
    let (mut ledger, event_id, member) = registered(1);
    assert_eq!(
        CertificationContract::confirm_ping(&mut ledger, &at(200), event_id, member, hash(1)),
        Err(Error::NotCheckedIn)
    );
    assert_eq!(
        CertificationContract::check_out(&mut ledger, &at(200), event_id, member, hash(1)),
        Err(Error::NotCheckedIn)
    );
    assert_eq!(
        CertificationContract::record_certificate(
            &mut ledger,
            &at(200),
            event_id,
            member,
            hash(1)
        ),
        Err(Error::NotCheckedIn)
    );
}

#[test]
fn ping_must_be_open() {
    let (mut ledger, event_id, member) = checked_in(1);
    assert_eq!(
        CertificationContract::close_ping(&mut ledger, &at(300), event_id),
        Err(Error::NoPingActive)
    );
    assert_eq!(
        CertificationContract::confirm_ping(&mut ledger, &at(300), event_id, member, hash(20)),
        Err(Error::NoPingActive)
    );
    CertificationContract::open_ping(&mut ledger, &at(300), event_id, 0).unwrap();
    let ping = CertificationContract::get_active_ping(&ledger, event_id).unwrap();
    assert_eq!((ping.opened_at, ping.expires_at, ping.closed), (300, 540, false));
    CertificationContract::close_ping(&mut ledger, &at(310), event_id).unwrap();
    assert!(CertificationContract::get_active_ping(&ledger, event_id).unwrap().closed);
    let n = nonce(&mut ledger, 310, 20, event_id, NONCE_PING, 0);
    assert_eq!(
        CertificationContract::confirm_ping(&mut ledger, &at(310), event_id, member, n),
        Err(Error::NoPingActive)
    );
}

#[test]
fn ping_window_lasts_240_seconds() {
    let (mut ledger, event_id, member) = checked_in(1);
    CertificationContract::open_ping(&mut ledger, &at(300), event_id, 0).unwrap();
    let n = nonce(&mut ledger, 530, 20, event_id, NONCE_PING, 0);
    assert_eq!(
        CertificationContract::confirm_ping(&mut ledger, &at(541), event_id, member, n),
        Err(Error::PingWindowExpired)
    );
    assert_eq!(
        CertificationContract::confirm_ping(&mut ledger, &at(540), event_id, member, n),
        Ok(())
    );
}

#[test]
fn ping_is_confirmed_once() {
    let (mut ledger, event_id, member) = checked_in(2);
    CertificationContract::open_ping(&mut ledger, &at(300), event_id, 4).unwrap();
    let first = nonce(&mut ledger, 300, 20, event_id, NONCE_PING, 4);
    let second = nonce(&mut ledger, 300, 21, event_id, NONCE_PING, 4);
    CertificationContract::confirm_ping(&mut ledger, &at(301), event_id, member, first).unwrap();
    assert_eq!(
        CertificationContract::confirm_ping(&mut ledger, &at(302), event_id, member, second),
        Err(Error::AlreadyConfirmedPing)
    );
    assert!(!ledger.nonces.get(&second).unwrap().used);
    let record = CertificationContract::get_attendee(&ledger, event_id, member).unwrap();
    assert_eq!(record.confirmed_pings, vec![4]);
}

#[test]
fn ping_nonce_is_bound_to_its_ping() {
    let (mut ledger, event_id, member) = checked_in(2);
    CertificationContract::open_ping(&mut ledger, &at(300), event_id, 1).unwrap();
    let n = nonce(&mut ledger, 300, 20, event_id, NONCE_PING, 0);
    assert_eq!(
        CertificationContract::confirm_ping(&mut ledger, &at(301), event_id, member, n),
        Err(Error::InvalidNonce)
    );
    assert!(!ledger.nonces.get(&n).unwrap().used);
}

#[test]
fn second_check_out_is_refused() {
    let (mut ledger, event_id, member) = checked_out(0);
    let n = nonce(&mut ledger, 410, 31, event_id, NONCE_CHECKOUT, 0);
    assert_eq!(
        CertificationContract::check_out(&mut ledger, &at(410), event_id, member, n),
        Err(Error::AlreadyCheckedOut)
    );
    let record = CertificationContract::get_attendee(&ledger, event_id, member).unwrap();
    assert_eq!(record.checkout_time, 400);
}

#[test]
fn only_the_eligible_get_a_certificate() {
    let host = soroban_sdk::Env::default();
    // Checked in, not yet out.
    let (mut ledger, event_id, member) = checked_in(0);
    assert_eq!(
        CertificationContract::mint_certificate(&mut ledger, &at(500), &host, event_id, member),
        Err(Error::NotEligible)
    );
    // Checked out without the scheduled ping.
    let (mut ledger, event_id, member) = checked_out(1);
    assert_eq!(
        CertificationContract::mint_certificate(&mut ledger, &at(500), &host, event_id, member),
        Err(Error::NotEligible)
    );
    assert!(CertificationContract::get_certificate(&ledger, event_id, member).is_none());
}

#[test]
fn certificate_is_minted_once() {
    let host = soroban_sdk::Env::default();
    let (mut ledger, event_id, member) = checked_out(0);
    let cert_id =
        CertificationContract::mint_certificate(&mut ledger, &at(500), &host, event_id, member)
            .unwrap();
    assert_eq!(
        CertificationContract::mint_certificate(&mut ledger, &at(600), &host, event_id, member),
        Err(Error::CertificateAlreadyMinted)
    );
    let cert = CertificationContract::get_certificate(&ledger, event_id, member).unwrap();
    assert_eq!((cert.cert_id, cert.issued_at), (cert_id, 500));
}

#[test]
fn blacklisted_member_is_refused_everything() {
    let host = soroban_sdk::Env::default();
    let (mut ledger, event_id, member) = checked_out(0);
    CertificationContract::report_fraud(
        &mut ledger,
        &at(500),
        address(4),
        member,
        event_id,
        b"impersonation".to_vec(),
    );
    let by = at(500);
    let refused = Err(Error::Blacklisted);
    assert_eq!(
        CertificationContract::register(&mut ledger, &by, event_id, member, hash(1)),
        refused
    );
    assert_eq!(check_in(&mut ledger, 500, event_id, member, hash(1)), refused);
    assert_eq!(
        CertificationContract::confirm_ping(&mut ledger, &by, event_id, member, hash(1)),
        refused
    );
    assert_eq!(
        CertificationContract::check_out(&mut ledger, &by, event_id, member, hash(1)),
        refused
    );
    assert_eq!(
        CertificationContract::mint_certificate(&mut ledger, &by, &host, event_id, member),
        Err(Error::Blacklisted)
    );
    // An appeal lifts it.
    CertificationContract::remove_from_blacklist(&mut ledger, &at(600), member);
    assert!(!CertificationContract::is_blacklisted(&ledger, member));
    assert!(CertificationContract::is_blacklisted(&ledger, address(4)));
    assert_eq!(CertificationContract::get_fraud_records(&ledger, member).len(), 1);
    assert!(CertificationContract::mint_certificate(
        &mut ledger,
        &at(600),
        &host,
        event_id,
        member
    )
    .is_ok());
}
