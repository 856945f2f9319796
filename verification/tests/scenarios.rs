//! Whole stories, from the creation of an event to what comes of it.

use certification::contract::CertificationContract;
use certification::ledger::{Invocation, Ledger};
use certification::types::{Address, NONCE_CHECKIN, NONCE_CHECKOUT, NONCE_PING};

/// The address of the member with this number.
fn address(number: u8) -> Address {
    let mut strkey = [b'A'; 56];
    strkey[0] = b'G';
    strkey[55] = b'A' + number;
    Address { strkey }
}

fn admin() -> Address {
    address(0)
}

/// An invocation that everybody has authorized.
fn everybody() -> Invocation {
    Invocation { timestamp: 0, signers: (0..10).map(address).collect() }
}

fn setup() -> (Ledger, Invocation) {
    let mut ledger = Ledger::new();
    CertificationContract::initialize(&mut ledger, admin()).unwrap();
    (ledger, everybody())
}

fn dummy_hash(seed: u8) -> [u8; 32] {
    let mut b = [0u8; 32];
    b[0] = seed;
    b
}

fn text(s: &str) -> Vec<u8> {
    s.as_bytes().to_vec()
}

#[test]
fn test_full_happy_path() {
    let (mut ledger, by) = setup();
    let host = soroban_sdk::Env::default();

    let organizer = address(1);
    let attendee = address(2);

    // 1. Create event with 2 pings
    let event_id = CertificationContract::create_event(
        &mut ledger,
        &by,
        text("Hackathon 2025"),
        organizer,
        1_000_000u64,
        1_003_600u64,
        text("Room A"),
        2u32,
    );

    // 2. Register
    CertificationContract::register(&mut ledger, &by, event_id, attendee, dummy_hash(1)).unwrap();

    // 3. Register a check-in nonce
    let ci_nonce = dummy_hash(10);
    CertificationContract::register_nonce(&mut ledger, &by, ci_nonce, event_id, NONCE_CHECKIN, 0u32)
        .unwrap();

    // 4. Check-in (face match = true)
    CertificationContract::check_in(
        &mut ledger,
        &by,
        event_id,
        attendee,
        ci_nonce,
        dummy_hash(2),
        true,
    )
    .unwrap();

    // 5. Open ping 0, confirm it
    CertificationContract::open_ping(&mut ledger, &by, event_id, 0u32).unwrap();
    let ping0_nonce = dummy_hash(20);
    CertificationContract::register_nonce(&mut ledger, &by, ping0_nonce, event_id, NONCE_PING, 0u32)
        .unwrap();
    CertificationContract::confirm_ping(&mut ledger, &by, event_id, attendee, ping0_nonce).unwrap();

    // 6. Open ping 1, confirm it
    CertificationContract::open_ping(&mut ledger, &by, event_id, 1u32).unwrap();
    let ping1_nonce = dummy_hash(21);
    CertificationContract::register_nonce(&mut ledger, &by, ping1_nonce, event_id, NONCE_PING, 1u32)
        .unwrap();
    CertificationContract::confirm_ping(&mut ledger, &by, event_id, attendee, ping1_nonce).unwrap();

    // 7. Check-out
    let co_nonce = dummy_hash(30);
    CertificationContract::register_nonce(
        &mut ledger,
        &by,
        co_nonce,
        event_id,
        NONCE_CHECKOUT,
        0u32,
    )
    .unwrap();
    CertificationContract::check_out(&mut ledger, &by, event_id, attendee, co_nonce).unwrap();

    // 8. Verify eligibility
    let att = CertificationContract::get_attendee(&ledger, event_id, attendee).unwrap();
    assert!(att.eligible);
    assert_eq!(att.confirmed_pings.len(), 2);

    // 9. Mint certificate
    let cert_id =
        CertificationContract::mint_certificate(&mut ledger, &by, &host, event_id, attendee)
            .unwrap();
    let cert = CertificationContract::get_certificate(&ledger, event_id, attendee).unwrap();
    assert_eq!(cert.cert_id, cert_id);
    assert_eq!(cert.attendance_ratio, 10_000u32); // 100 %
    assert!(!cert.revoked);
}

#[test]
fn test_insufficient_attendance() {
    let (mut ledger, by) = setup();
    let organizer = address(1);
    let attendee = address(2);

    let event_id = CertificationContract::create_event(
        &mut ledger,
        &by,
        text("Workshop"),
        organizer,
        1_000_000u64,
        1_003_600u64,
        text("Lab B"),
        2u32, // 2 pings required
    );
    CertificationContract::register(&mut ledger, &by, event_id, attendee, dummy_hash(1)).unwrap();

    let ci_nonce = dummy_hash(10);
    CertificationContract::register_nonce(&mut ledger, &by, ci_nonce, event_id, NONCE_CHECKIN, 0u32)
        .unwrap();
    CertificationContract::check_in(
        &mut ledger,
        &by,
        event_id,
        attendee,
        ci_nonce,
        dummy_hash(2),
        true,
    )
    .unwrap();

    // Confirm only 1 of 2 pings  →  50 %  <  90 %
    CertificationContract::open_ping(&mut ledger, &by, event_id, 0u32).unwrap();
    let p_nonce = dummy_hash(20);
    CertificationContract::register_nonce(&mut ledger, &by, p_nonce, event_id, NONCE_PING, 0u32)
        .unwrap();
    CertificationContract::confirm_ping(&mut ledger, &by, event_id, attendee, p_nonce).unwrap();

    let co_nonce = dummy_hash(30);
    CertificationContract::register_nonce(
        &mut ledger,
        &by,
        co_nonce,
        event_id,
        NONCE_CHECKOUT,
        0u32,
    )
    .unwrap();
    CertificationContract::check_out(&mut ledger, &by, event_id, attendee, co_nonce).unwrap();

    let att = CertificationContract::get_attendee(&ledger, event_id, attendee).unwrap();
    assert!(!att.eligible); // 5000 bps < 9000 bps
}

#[test]
fn test_fraud_blacklist_and_revoke() {
    let (mut ledger, by) = setup();
    let organizer = address(1);
    let impersonator = address(2);
    let requester = address(3);

    let event_id = CertificationContract::create_event(
        &mut ledger,
        &by,
        text("Talk"),
        organizer,
        1_000_000u64,
        1_003_600u64,
        text("Hall"),
        0u32,
    );

    // Requester registered, impersonator checked in on their behalf
    CertificationContract::register(&mut ledger, &by, event_id, requester, dummy_hash(1)).unwrap();

    // Admin reports fraud
    CertificationContract::report_fraud(
        &mut ledger,
        &by,
        impersonator,
        requester,
        event_id,
        text("check-in on behalf"),
    );

    assert!(CertificationContract::is_blacklisted(&ledger, impersonator));
    assert!(CertificationContract::is_blacklisted(&ledger, requester));

    let fraud_log = CertificationContract::get_fraud_records(&ledger, requester);
    assert_eq!(fraud_log.len(), 1);
}

#[test]
#[should_panic]
fn test_nonce_reuse_rejected() {
    let (mut ledger, by) = setup();
    let organizer = address(1);
    let a1 = address(2);
    let a2 = address(3);

    let event_id = CertificationContract::create_event(
        &mut ledger,
        &by,
        text("E"),
        organizer,
        1_000_000u64,
        1_003_600u64,
        text("X"),
        0u32,
    );
    CertificationContract::register(&mut ledger, &by, event_id, a1, dummy_hash(1)).unwrap();
    CertificationContract::register(&mut ledger, &by, event_id, a2, dummy_hash(2)).unwrap();

    let shared_nonce = dummy_hash(99);
    CertificationContract::register_nonce(
        &mut ledger,
        &by,
        shared_nonce,
        event_id,
        NONCE_CHECKIN,
        0u32,
    )
    .unwrap();

    // First scan: ok
    CertificationContract::check_in(
        &mut ledger,
        &by,
        event_id,
        a1,
        shared_nonce,
        dummy_hash(3),
        true,
    )
    .unwrap();
    // Second scan with same nonce: must panic (NonceAlreadyUsed)
    CertificationContract::check_in(
        &mut ledger,
        &by,
        event_id,
        a2,
        shared_nonce,
        dummy_hash(4),
        true,
    )
    .unwrap();
}
