//! What granted requests compute and write.

use certification::contract::CertificationContract;
use certification::digest::{certificate_id, certificate_seed};
use certification::error::Error;
use certification::ledger::{Invocation, Ledger};
use certification::table::Table;
use certification::types::{
    copy_bytes, Address, EventData, FraudEntry, PingData, NONCE_CHECKIN, NONCE_CHECKOUT,
    NONCE_PING,
};

fn address(number: u8) -> Address {
    let mut strkey = [b'A'; 56];
    strkey[0] = b'G';
    strkey[55] = b'A' + number;
    Address { strkey }
}

fn hash(seed: u8) -> [u8; 32] {
    [seed; 32]
}

fn at(timestamp: u64) -> Invocation {
    Invocation { timestamp, signers: (0..10).map(address).collect() }
}

fn initialized() -> Ledger {
    let mut ledger = Ledger::new();
    CertificationContract::initialize(&mut ledger, address(0)).unwrap();
    ledger
}

fn new_event(ledger: &mut Ledger, name: &str, total_pings: u32) -> u64 {
    CertificationContract::create_event(
        ledger,
        &at(0),
        name.as_bytes().to_vec(),
        address(1),
        1_000,
        2_000,
        b"Hall".to_vec(),
        total_pings,
    )
}

fn come_in(ledger: &mut Ledger, time: u64, event_id: u64, who: Address, seed: u8) {
    CertificationContract::register(ledger, &at(time), event_id, who, hash(1)).unwrap();
    CertificationContract::register_nonce(ledger, &at(time), hash(seed), event_id, NONCE_CHECKIN, 0)
        .unwrap();
    CertificationContract::check_in(ledger, &at(time), event_id, who, hash(seed), hash(2), true)
        .unwrap();
}

fn confirm(ledger: &mut Ledger, time: u64, event_id: u64, who: Address, ping: u32, seed: u8) {
    CertificationContract::open_ping(ledger, &at(time), event_id, ping).unwrap();
    CertificationContract::register_nonce(ledger, &at(time), hash(seed), event_id, NONCE_PING, ping)
        .unwrap();
    CertificationContract::confirm_ping(ledger, &at(time), event_id, who, hash(seed)).unwrap();
}

fn go_out(ledger: &mut Ledger, time: u64, event_id: u64, who: Address, seed: u8) {
    CertificationContract::register_nonce(
        ledger,
        &at(time),
        hash(seed),
        event_id,
        NONCE_CHECKOUT,
        0,
    )
    .unwrap();
    CertificationContract::check_out(ledger, &at(time), event_id, who, hash(seed)).unwrap();
}

fn hex(bytes: &[u8]) -> String {
    bytes.iter().map(|b| format!("{:02x}", b)).collect()
}

#[test]
fn events_are_numbered_from_one() {
    let mut ledger = initialized();
    assert_eq!(new_event(&mut ledger, "A", 3), 1);
    assert_eq!(new_event(&mut ledger, "B", 0), 2);
    assert_eq!(new_event(&mut ledger, "A", 3), 3);
    assert_eq!(
        CertificationContract::get_event(&ledger, 1),
        Some(EventData {
            event_id: 1,
            name: b"A".to_vec(),
            organizer: address(1),
            start_time: 1_000,
            end_time: 2_000,
            location: b"Hall".to_vec(),
            total_pings: 3,
            active: true,
            ended: false,
        })
    );
    assert_eq!(CertificationContract::get_event(&ledger, 2).unwrap().name, b"B".to_vec());
}

#[test]
fn numbering_starts_over_without_a_counter() {
    let mut ledger = initialized();
    ledger.event_counter = None;
    assert_eq!(new_event(&mut ledger, "A", 0), 1);
    assert_eq!(ledger.event_counter, Some(1));
}

#[test]
fn attendance_ratios() {
    assert_eq!(CertificationContract::attendance_ratio(0, 0), 10_000);
    assert_eq!(CertificationContract::attendance_ratio(7, 0), 10_000);
    assert_eq!(CertificationContract::attendance_ratio(0, 3), 0);
    assert_eq!(CertificationContract::attendance_ratio(1, 3), 3_333);
    assert_eq!(CertificationContract::attendance_ratio(2, 3), 6_666);
    assert_eq!(CertificationContract::attendance_ratio(9, 10), 9_000);
    assert_eq!(CertificationContract::attendance_ratio(8, 9), 8_888);
    assert_eq!(CertificationContract::attendance_ratio(2, 2), 10_000);
    assert_eq!(CertificationContract::attendance_ratio(3, 2), 10_000);
    assert_eq!(CertificationContract::attendance_ratio(429_495, 429_496), 9_999);
    assert_eq!(CertificationContract::attendance_ratio(429_496, 1), 10_000);
}

#[test]
fn attendance_fits_up_to_the_machine_limit() {
    assert!(CertificationContract::attendance_fits(429_496, 1));
    assert!(!CertificationContract::attendance_fits(429_497, 1));
    assert!(CertificationContract::attendance_fits(429_497, 0));
}

#[test]
fn check_out_and_minting_fit_where_they_are_refused() {
    let mut ledger = initialized();
    let event_id = new_event(&mut ledger, "Long", 500_000);
    let member = address(2);
    come_in(&mut ledger, 100, event_id, member, 10);
    let n = hash(30);
    CertificationContract::register_nonce(&mut ledger, &at(200), n, event_id, NONCE_CHECKOUT, 0)
        .unwrap();
    let mut record = CertificationContract::get_attendee(&ledger, event_id, member).unwrap();
    record.confirmed_pings = (0..429_497).collect();
    record.eligible = true;
    ledger.attendees.set((event_id, member), record);
    assert!(!CertificationContract::check_out_fits(&ledger, &at(200), event_id, member, n));
    assert!(CertificationContract::check_out_fits(&ledger, &at(216), event_id, member, n));
    assert!(CertificationContract::check_out_fits(&ledger, &at(200), event_id, address(3), n));
    assert!(!CertificationContract::mint_fits(&ledger, event_id, member));
    assert!(CertificationContract::mint_fits(&ledger, event_id, address(3)));
    assert_eq!(
        CertificationContract::check_out(&mut ledger, &at(216), event_id, member, n),
        Err(Error::NonceExpired)
    );
}

#[test]
fn events_fit_while_an_id_is_left() {
    let mut ledger = Ledger::new();
    assert!(CertificationContract::create_event_fits(&ledger));
    ledger = initialized();
    ledger.event_counter = Some(u64::MAX - 1);
    assert!(CertificationContract::create_event_fits(&ledger));
    assert_eq!(new_event(&mut ledger, "Last", 0), u64::MAX);
    assert!(!CertificationContract::create_event_fits(&ledger));
}

#[test]
fn nonces_fit_up_to_the_end_of_time_or_where_they_are_refused() {
    let mut ledger = initialized();
    let event_id = new_event(&mut ledger, "Late", 0);
    let last = u64::MAX - 15;
    assert!(CertificationContract::register_nonce_fits(&ledger, &at(last), hash(10)));
    assert!(!CertificationContract::register_nonce_fits(&ledger, &at(last + 1), hash(10)));
    let n = hash(10);
    CertificationContract::register_nonce(&mut ledger, &at(last), n, event_id, NONCE_PING, 0)
        .unwrap();
    assert_eq!(ledger.nonces.get(&n).unwrap().expires_at, u64::MAX);
    assert!(CertificationContract::register_nonce_fits(&ledger, &at(u64::MAX), n));
    assert_eq!(
        CertificationContract::register_nonce(&mut ledger, &at(u64::MAX), n, event_id, NONCE_PING, 0),
        Err(Error::NonceAlreadyUsed)
    );
}

#[test]
fn pings_fit_up_to_the_end_of_time_or_where_they_are_refused() {
    let mut ledger = initialized();
    let event_id = new_event(&mut ledger, "Late", 1);
    let last = u64::MAX - 240;
    assert!(CertificationContract::open_ping_fits(&ledger, &at(last), event_id));
    assert!(!CertificationContract::open_ping_fits(&ledger, &at(last + 1), event_id));
    CertificationContract::open_ping(&mut ledger, &at(last), event_id, 0).unwrap();
    assert_eq!(
        CertificationContract::get_active_ping(&ledger, event_id).unwrap().expires_at,
        u64::MAX
    );
    assert!(CertificationContract::open_ping_fits(&ledger, &at(u64::MAX), event_id + 1));
    CertificationContract::end_event(&mut ledger, &at(last), event_id).unwrap();
    assert!(CertificationContract::open_ping_fits(&ledger, &at(u64::MAX), event_id));
    assert_eq!(
        CertificationContract::open_ping(&mut ledger, &at(u64::MAX), event_id, 1),
        Err(Error::EventNotActive)
    );
}

#[test]
fn attendance_outlives_its_nonces() {
    let mut ledger = initialized();
    let event_id = new_event(&mut ledger, "Day", 1);
    let member = address(2);
    come_in(&mut ledger, 100, event_id, member, 10);
    ledger.nonces.remove(&hash(10));
    confirm(&mut ledger, 1_100, event_id, member, 0, 20);
    ledger.nonces.remove(&hash(20));
    let again = CertificationContract::confirm_ping(
        &mut ledger,
        &at(1_101),
        event_id,
        member,
        hash(20),
    );
    assert_eq!(again, Err(Error::AlreadyConfirmedPing));
    go_out(&mut ledger, 1_200, event_id, member, 30);
    ledger.nonces.remove(&hash(30));
    assert_eq!(
        CertificationContract::check_out(&mut ledger, &at(1_201), event_id, member, hash(30)),
        Err(Error::AlreadyCheckedOut)
    );
    CertificationContract::record_certificate(&mut ledger, &at(1_300), event_id, member, hash(9))
        .unwrap();
    assert_eq!(
        CertificationContract::record_certificate(
            &mut ledger,
            &at(1_301),
            event_id,
            member,
            hash(8)
        ),
        Err(Error::CertificateAlreadyMinted)
    );
    let cert = CertificationContract::get_certificate(&ledger, event_id, member).unwrap();
    assert_eq!((cert.cert_id, cert.attendance_ratio), (hash(9), 10_000));
}

#[test]
fn more_pings_than_scheduled_count_as_all() {
    let mut ledger = initialized();
    let event_id = new_event(&mut ledger, "Talk", 1);
    let member = address(2);
    come_in(&mut ledger, 100, event_id, member, 10);
    confirm(&mut ledger, 200, event_id, member, 0, 20);
    confirm(&mut ledger, 201, event_id, member, 1, 21);
    go_out(&mut ledger, 300, event_id, member, 30);
    CertificationContract::record_certificate(&mut ledger, &at(400), event_id, member, hash(9))
        .unwrap();
    let cert = CertificationContract::get_certificate(&ledger, event_id, member).unwrap();
    assert_eq!(cert.attendance_ratio, 10_000);
}

#[test]
fn nine_of_ten_pings_are_enough() {
    let host = soroban_sdk::Env::default();
    let mut ledger = initialized();
    let event_id = new_event(&mut ledger, "Course", 10);
    let member = address(2);
    come_in(&mut ledger, 100, event_id, member, 10);
    for ping in 0..9u8 {
        confirm(&mut ledger, 200 + ping as u64, event_id, member, ping as u32, 20 + ping);
    }
    go_out(&mut ledger, 400, event_id, member, 40);
    let record = CertificationContract::get_attendee(&ledger, event_id, member).unwrap();
    assert!(record.eligible);
    assert!(record.checked_out);
    assert_eq!(record.checkout_time, 400);
    assert_eq!(record.confirmed_pings, vec![0, 1, 2, 3, 4, 5, 6, 7, 8]);

    // A ping confirmed after check-out still counts on the certificate.
    confirm(&mut ledger, 401, event_id, member, 9, 41);
    CertificationContract::mint_certificate(&mut ledger, &at(500), &host, event_id, member)
        .unwrap();
    let cert = CertificationContract::get_certificate(&ledger, event_id, member).unwrap();
    assert_eq!(cert.attendance_ratio, 10_000);
    assert_eq!(cert.event_name, b"Course".to_vec());
    assert_eq!(cert.issued_at, 500);
}

#[test]
fn eight_of_nine_pings_are_not_enough() {
    let mut ledger = initialized();
    let event_id = new_event(&mut ledger, "Course", 9);
    let member = address(2);
    come_in(&mut ledger, 100, event_id, member, 10);
    for ping in 0..8u8 {
        confirm(&mut ledger, 200, event_id, member, ping as u32, 20 + ping);
    }
    go_out(&mut ledger, 400, event_id, member, 40);
    // The missing ping comes too late: the verdict stands.
    confirm(&mut ledger, 401, event_id, member, 8, 41);
    assert!(!CertificationContract::get_attendee(&ledger, event_id, member).unwrap().eligible);
    assert_eq!(
        CertificationContract::record_certificate(&mut ledger, &at(500), event_id, member, hash(9)),
        Err(Error::NotEligible)
    );
}

#[test]
fn check_in_writes_a_fresh_record() {
    let mut ledger = initialized();
    let event_id = new_event(&mut ledger, "Talk", 0);
    let member = address(2);
    come_in(&mut ledger, 123, event_id, member, 10);
    let record = CertificationContract::get_attendee(&ledger, event_id, member).unwrap();
    assert_eq!(record.attendee, member);
    assert_eq!(record.event_id, event_id);
    assert!(record.checked_in);
    assert_eq!(record.checkin_time, 123);
    assert!(!record.checked_out);
    assert_eq!(record.checkout_time, 0);
    assert_eq!(record.checkin_face_proof, hash(2));
    assert!(record.confirmed_pings.is_empty());
    assert!(!record.marked_absent);
    assert!(!record.eligible);
}

#[test]
fn a_new_ping_takes_the_place_of_the_last() {
    let mut ledger = initialized();
    let event_id = new_event(&mut ledger, "Talk", 2);
    assert_eq!(CertificationContract::get_active_ping(&ledger, event_id), None);
    CertificationContract::open_ping(&mut ledger, &at(10), event_id, 0).unwrap();
    CertificationContract::close_ping(&mut ledger, &at(11), event_id).unwrap();
    CertificationContract::open_ping(&mut ledger, &at(20), event_id, 1).unwrap();
    assert_eq!(
        CertificationContract::get_active_ping(&ledger, event_id),
        Some(PingData { event_id, ping_index: 1, opened_at: 20, expires_at: 260, closed: false })
    );
}

#[test]
fn absence_is_marked_for_those_who_missed_the_ping() {
    let mut ledger = initialized();
    let event_id = new_event(&mut ledger, "Talk", 1);
    let other_event = new_event(&mut ledger, "Other", 1);
    for (i, number) in [2u8, 3, 4].iter().enumerate() {
        come_in(&mut ledger, 100, event_id, address(*number), 10 + i as u8);
    }
    come_in(&mut ledger, 100, other_event, address(3), 19);
    confirm(&mut ledger, 200, event_id, address(2), 0, 20);
    // Listed: one who confirmed, one who did not (twice), one who is not on record.
    CertificationContract::mark_absent_for_missed_ping(
        &mut ledger,
        &at(500),
        event_id,
        vec![address(2), address(3), address(5), address(3)],
        0,
    );
    let absent = |who: Address| {
        CertificationContract::get_attendee(&ledger, event_id, who).map(|att| att.marked_absent)
    };
    assert_eq!(absent(address(2)), Some(false));
    assert_eq!(absent(address(3)), Some(true));
    assert_eq!(absent(address(4)), Some(false));
    assert_eq!(absent(address(5)), None);
    let elsewhere =
        CertificationContract::get_attendee(&ledger, other_event, address(3)).unwrap();
    assert!(!elsewhere.marked_absent);
}

#[test]
fn fraud_report_revokes_the_certificate_of_the_event() {
    let host = soroban_sdk::Env::default();
    let mut ledger = initialized();
    let first = new_event(&mut ledger, "First", 0);
    let second = new_event(&mut ledger, "Second", 0);
    let member = address(2);
    let helper = address(3);
    for (i, event_id) in [first, second].iter().enumerate() {
        come_in(&mut ledger, 100, *event_id, member, 10 + i as u8);
        go_out(&mut ledger, 200, *event_id, member, 30 + i as u8);
        CertificationContract::mint_certificate(&mut ledger, &at(300), &host, *event_id, member)
            .unwrap();
    }
    let reason = b"check-in on behalf".to_vec();
    CertificationContract::report_fraud(
        &mut ledger,
        &at(400),
        helper,
        member,
        first,
        copy_bytes(&reason),
    );
    let of_first = CertificationContract::get_certificate(&ledger, first, member).unwrap();
    let of_second = CertificationContract::get_certificate(&ledger, second, member).unwrap();
    assert!(of_first.revoked);
    assert!(!of_second.revoked);
    assert!(CertificationContract::get_certificate(&ledger, first, helper).is_none());
    let entry = FraudEntry { event_id: first, detected_at: 400, reason: reason.clone() };
    assert_eq!(CertificationContract::get_fraud_records(&ledger, member), vec![entry.clone()]);
    assert_eq!(CertificationContract::get_fraud_records(&ledger, helper), vec![entry]);
    let record = ledger.blacklist.get(&member).unwrap();
    assert_eq!((record.address, record.blacklisted_at), (member, 400));
    assert_eq!(record.reason, reason);

    // The revocation and the log outlive an appeal.
    CertificationContract::remove_from_blacklist(&mut ledger, &at(500), member);
    assert!(CertificationContract::get_certificate(&ledger, first, member).unwrap().revoked);
    assert_eq!(CertificationContract::get_fraud_records(&ledger, member).len(), 1);

    // A second case is appended.
    CertificationContract::report_fraud(&mut ledger, &at(600), helper, member, second, vec![]);
    let log = CertificationContract::get_fraud_records(&ledger, member);
    assert_eq!(log.len(), 2);
    assert_eq!((log[0].detected_at, log[1].detected_at), (400, 600));
}

#[test]
fn fraud_by_one_person_is_logged_for_both_roles() {
    let mut ledger = initialized();
    let member = address(2);
    CertificationContract::report_fraud(&mut ledger, &at(5), member, member, 1, b"x".to_vec());
    assert_eq!(CertificationContract::get_fraud_records(&ledger, member).len(), 2);
    assert!(CertificationContract::get_fraud_records(&ledger, address(3)).is_empty());
    assert!(!CertificationContract::is_blacklisted(&ledger, address(3)));
}

#[test]
fn certificate_seed_is_event_attendee_and_time() {
    let seed = certificate_seed(0x0102030405060708, &address(2), 0x1112131415161718);
    assert_eq!(&seed[..8], &[1, 2, 3, 4, 5, 6, 7, 8]);
    assert_eq!(&seed[8..64], &address(2).strkey[..]);
    assert_eq!(&seed[64..], &[0x11, 0x12, 0x13, 0x14, 0x15, 0x16, 0x17, 0x18]);
    assert_ne!(certificate_seed(1, &address(2), 2), certificate_seed(2, &address(2), 1));
    assert_ne!(certificate_seed(1, &address(2), 2), certificate_seed(1, &address(3), 2));
}

#[test]
fn certificate_id_is_the_digest_of_the_seed() {
    let host = soroban_sdk::Env::default();
    assert_eq!(
        hex(&certificate_id(&host, 1, &address(2), 0)),
        "1bb7bc388deb86f6ba7dd2c8af77143ed14f5d04b7a0af2a13981d247a6b2433"
    );
    assert_eq!(
        hex(&certificate_id(&host, 0x0102030405060708, &address(3), 0x1112131415161718)),
        "f816ad247a51c31aaf626abee07b6076109631da29f9ba63297f6f36230a896b"
    );
}

#[test]
fn attendees_who_mint_at_one_time_get_different_ids() {
    let host = soroban_sdk::Env::default();
    let mut ledger = initialized();
    let event_id = new_event(&mut ledger, "Talk", 0);
    let mut ids = vec![];
    for number in [2u8, 3] {
        come_in(&mut ledger, 100, event_id, address(number), 10 + number);
        go_out(&mut ledger, 200, event_id, address(number), 30 + number);
        ids.push(
            CertificationContract::mint_certificate(
                &mut ledger,
                &at(500),
                &host,
                event_id,
                address(number),
            )
            .unwrap(),
        );
    }
    assert_ne!(ids[0], ids[1]);
}

#[test]
fn minting_returns_the_digest() {
    let host = soroban_sdk::Env::default();
    let mut ledger = initialized();
    new_event(&mut ledger, "First", 0);
    let event_id = new_event(&mut ledger, "Second", 0);
    let member = address(2);
    come_in(&mut ledger, 100, event_id, member, 10);
    go_out(&mut ledger, 200, event_id, member, 30);
    let cert_id = CertificationContract::mint_certificate(
        &mut ledger,
        &at(1_003_600),
        &host,
        event_id,
        member,
    )
    .unwrap();
    assert_eq!(
        hex(&cert_id),
        "3de7b92089939b60c25d6cbc861299354a249c458699b45461f9b56a763ab58a"
    );
}

#[test]
fn requests_see_only_the_entries_they_touch() {
    // The same check-in, once on a full ledger and once on one with the touched entries alone.
    let member = address(2);
    let mut full = initialized();
    let event_id = new_event(&mut full, "Talk", 0);
    new_event(&mut full, "Other", 0);
    CertificationContract::register(&mut full, &at(100), event_id, member, hash(1)).unwrap();
    CertificationContract::register(&mut full, &at(100), event_id, address(3), hash(1)).unwrap();
    CertificationContract::register_nonce(&mut full, &at(100), hash(9), event_id, NONCE_CHECKIN, 0)
        .unwrap();
    let mut part = Ledger::new();
    part.events.set(event_id, full.events.get(&event_id).unwrap().clone());
    part.registrations
        .set((event_id, member), *full.registrations.get(&(event_id, member)).unwrap());
    part.nonces.set(hash(9), *full.nonces.get(&hash(9)).unwrap());
    for ledger in [&mut full, &mut part] {
        assert_eq!(
            CertificationContract::check_in(
                ledger,
                &at(101),
                event_id,
                member,
                hash(9),
                hash(2),
                true
            ),
            Ok(())
        );
    }
    assert_eq!(
        CertificationContract::get_attendee(&full, event_id, member),
        CertificationContract::get_attendee(&part, event_id, member)
    );
    assert!(part.nonces.get(&hash(9)).unwrap().used);
}

#[test]
fn tables_replace_and_remove() {
    let ping = |n: u32| PingData {
        event_id: 1,
        ping_index: n,
        opened_at: 0,
        expires_at: 240,
        closed: false,
    };
    let mut table: Table<u64, PingData> = Table::new();
    assert!(!table.has(&1));
    table.set(1, ping(1));
    table.set(2, ping(2));
    table.set(1, ping(3));
    assert_eq!(table.get(&1), Some(&ping(3)));
    assert_eq!(table.get(&2), Some(&ping(2)));
    table.remove(&1);
    table.remove(&7);
    assert_eq!(table.get(&1), None);
    assert!(table.has(&2));
}

#[test]
fn error_codes() {
    let codes = [
        (Error::Unauthorized, 1),
        (Error::Blacklisted, 2),
        (Error::EventNotFound, 10),
        (Error::EventAlreadyExists, 11),
        (Error::EventNotActive, 12),
        (Error::EventAlreadyEnded, 13),
        (Error::NotRegistered, 20),
        (Error::AlreadyRegistered, 21),
        (Error::AlreadyCheckedIn, 30),
        (Error::NotCheckedIn, 31),
        (Error::FaceVerificationFailed, 32),
        (Error::InvalidNonce, 40),
        (Error::NonceExpired, 41),
        (Error::NonceAlreadyUsed, 42),
        (Error::NoPingActive, 50),
        (Error::PingWindowExpired, 51),
        (Error::AlreadyConfirmedPing, 52),
        (Error::AlreadyCheckedOut, 60),
        (Error::AttendanceInsufficient, 61),
        (Error::CertificateAlreadyMinted, 62),
        (Error::NotEligible, 63),
    ];
    for (error, code) in codes {
        assert_eq!(error.code(), code);
    }
}
