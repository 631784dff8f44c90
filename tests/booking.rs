use chrono::{Datelike, NaiveDate};
use hotel_booking::booking::{decide_cancel, is_available, Booking, BookingRequest, BookingStatus};
use hotel_booking::error::ErrorKind;
use hotel_booking::ledger::Ledger;
use hotel_booking::messages::{BookingListQuery, CreateBookingRequest};
use hotel_booking::money::{parse_price, Money};
use hotel_booking::stay::ranges_overlap;
use hotel_booking::text::Role;

const HOTEL: u128 = 1;
const OWNER: u128 = 10;
const ROOM: u128 = 2;
const ALICE: u128 = 20;
const NOW: i64 = 1_700_000_000;
const BOB: u128 = 21;

fn day(y: i32, m: u32, d: u32) -> i32 {
    NaiveDate::from_ymd_opt(y, m, d).unwrap().num_days_from_ce()
}

fn ledger_with_room(price: Money, max_occupancy: i32) -> Ledger {
    let mut l = Ledger::new();
    l.add_hotel(HOTEL, OWNER).unwrap();
    l.add_room(OWNER, ROOM, HOTEL, price, max_occupancy).unwrap();
    l
}

fn request(check_in: i32, check_out: i32, guests: i32) -> BookingRequest {
    BookingRequest { room_id: ROOM, check_in, check_out, guests }
}

fn room_text() -> String {
    uuid::Uuid::from_u128(ROOM).to_string()
}

#[test]
fn price_overlap_cancel_rebook_scenario() {
    let price = parse_price("100.00").unwrap();
    let mut l = ledger_with_room(price, 2);
    let today = day(2025, 1, 1);
    let first = CreateBookingRequest {
        room_id: room_text(),
        check_in_date: "2025-03-01".to_string(),
        check_out_date: "2025-03-03".to_string(),
        guests: 2,
    }
    .validate(Role::Customer, today)
    .unwrap();
    let b = l.create_booking(ALICE, &first, NOW, 100).unwrap();
    assert_eq!(b.check_out - b.check_in, 2);
    assert_eq!(b.total_price.to_text(), "200.00");
    let second = CreateBookingRequest {
        room_id: room_text(),
        check_in_date: "2025-03-02".to_string(),
        check_out_date: "2025-03-04".to_string(),
        guests: 1,
    }
    .validate(Role::Customer, today)
    .unwrap();
    assert_eq!(l.create_booking(BOB, &second, NOW, 101), Err(ErrorKind::RoomNotAvailable));
    l.cancel_booking(Role::Customer, ALICE, 100).unwrap();
    let again = l.create_booking(BOB, &second, NOW, 102).unwrap();
    assert_eq!(again.status, BookingStatus::Confirmed);
    assert_eq!(again.total_price.to_text(), "200.00");
}

#[test]
fn overlap_follows_half_open_rule() {
    assert!(ranges_overlap(1, 3, 2, 4));
    assert!(ranges_overlap(2, 4, 1, 3));
    assert!(ranges_overlap(1, 10, 3, 4));
    assert!(!ranges_overlap(1, 3, 3, 5));
    assert!(!ranges_overlap(3, 5, 1, 3));
    assert!(!ranges_overlap(1, 2, 5, 6));
    for a in 0..6 {
        for b in (a + 1)..7 {
            for c in 0..6 {
                for d in (c + 1)..7 {
                    assert_eq!(ranges_overlap(a, b, c, d), !(d <= a || b <= c));
                    assert_eq!(ranges_overlap(a, b, c, d), ranges_overlap(c, d, a, b));
                }
            }
        }
    }
}

#[test]
fn back_to_back_stays_both_book() {
    let mut l = ledger_with_room(Money { units: 5000, scale: 2 }, 2);
    assert!(l.create_booking(ALICE, &request(100, 103, 1), NOW, 1).is_ok());
    assert!(l.create_booking(BOB, &request(103, 105, 1), NOW, 2).is_ok());
    assert!(l.create_booking(BOB, &request(98, 100, 1), NOW, 3).is_ok());
    assert_eq!(l.create_booking(BOB, &request(102, 104, 1), NOW, 4), Err(ErrorKind::RoomNotAvailable));
}

#[test]
fn overlapping_requests_only_first_succeeds() {
    // Every range holds the night of day 100, so any two overlap.
    let ranges = [(100, 105), (99, 102), (100, 101), (95, 101), (100, 110)];
    for start in 0..ranges.len() {
        let mut l = ledger_with_room(Money { units: 100, scale: 0 }, 4);
        let mut ok = 0;
        for k in 0..ranges.len() {
            let (ci, co) = ranges[(start + k) % ranges.len()];
            let customer = 30 + k as u128;
            match l.create_booking(customer, &request(ci, co, 1), NOW, 500 + k as u128) {
                Ok(_) => {
                    assert_eq!(k, 0);
                    ok += 1;
                }
                Err(e) => assert_eq!(e, ErrorKind::RoomNotAvailable),
            }
        }
        assert_eq!(ok, 1);
    }
}

#[test]
fn total_is_price_times_nights() {
    let price = Money { units: 12345, scale: 2 };
    assert_eq!(price.times(7), Money { units: 86415, scale: 2 });
    assert_eq!(price.times(7).to_text(), "864.15");
    let big = Money { units: u64::MAX as u128, scale: 2 };
    assert_eq!(big.times(u32::MAX).units, u64::MAX as u128 * u32::MAX as u128);
    let mut l = ledger_with_room(price, 2);
    let b = l.create_booking(ALICE, &request(200, 203, 2), NOW, 9).unwrap();
    assert_eq!(b.total_price, Money { units: 37035, scale: 2 });
    assert_eq!(b.total_price.to_text(), "370.35");
}

#[test]
fn cancelled_stay_can_be_booked_again() {
    let mut l = ledger_with_room(Money { units: 100, scale: 0 }, 2);
    l.create_booking(ALICE, &request(10, 15, 2), NOW, 1).unwrap();
    let c = l.cancel_booking(Role::Customer, ALICE, 1).unwrap();
    assert_eq!(c.status, BookingStatus::Cancelled);
    let b = l.create_booking(ALICE, &request(10, 15, 2), NOW, 2).unwrap();
    assert_eq!((b.check_in, b.check_out), (10, 15));
}

#[test]
fn cancelling_twice_succeeds() {
    let mut l = ledger_with_room(Money { units: 100, scale: 0 }, 2);
    l.create_booking(ALICE, &request(10, 15, 2), NOW, 1).unwrap();
    let first = l.cancel_booking(Role::Customer, ALICE, 1).unwrap();
    let second = l.cancel_booking(Role::Customer, ALICE, 1).unwrap();
    assert_eq!(first, second);
    assert_eq!(l.booking(1).unwrap().status, BookingStatus::Cancelled);
}

#[test]
fn cancel_refusals() {
    let mut l = ledger_with_room(Money { units: 100, scale: 0 }, 2);
    l.create_booking(ALICE, &request(10, 15, 2), NOW, 1).unwrap();
    assert_eq!(l.cancel_booking(Role::Customer, ALICE, 99), Err(ErrorKind::BookingNotFound));
    assert_eq!(l.cancel_booking(Role::Customer, BOB, 1), Err(ErrorKind::Forbidden));
    assert_eq!(l.booking(1).unwrap().status, BookingStatus::Confirmed);
}

#[test]
fn booking_refusals() {
    let mut l = ledger_with_room(Money { units: 100, scale: 0 }, 2);
    let missing = BookingRequest { room_id: 77, check_in: 10, check_out: 12, guests: 1 };
    assert_eq!(l.create_booking(ALICE, &missing, NOW, 1), Err(ErrorKind::RoomNotFound));
    assert_eq!(l.create_booking(OWNER, &request(10, 12, 1), NOW, 1), Err(ErrorKind::Forbidden));
    assert_eq!(l.create_booking(ALICE, &request(10, 12, 3), NOW, 1), Err(ErrorKind::InvalidCapacity));
    assert!(l.booking(1).is_none());
    assert!(l.is_new_booking_id(1));
}

#[test]
fn availability_ignores_cancelled_and_other_rooms() {
    let mk = |room_id: u128, ci: i32, co: i32, status: BookingStatus| Booking {
        id: 0,
        customer_id: ALICE,
        room_id,
        hotel_id: HOTEL,
        check_in: ci,
        check_out: co,
        guests: 1,
        total_price: Money { units: 0, scale: 0 },
        status,
        booked_at: 0,
    };
    let bookings = vec![
        mk(ROOM, 10, 20, BookingStatus::Cancelled),
        mk(3, 10, 20, BookingStatus::Confirmed),
        mk(ROOM, 20, 25, BookingStatus::Confirmed),
    ];
    assert!(is_available(ROOM, 12, 18, &bookings));
    assert!(is_available(ROOM, 10, 20, &bookings));
    assert!(!is_available(ROOM, 19, 21, &bookings));
    assert!(!is_available(3, 15, 16, &bookings));
    assert!(is_available(ROOM, 1, 2, &Vec::new()));
}

#[test]
fn booking_request_field_checks() {
    let today = day(2025, 1, 1);
    let make = |room: &str, ci: &str, co: &str, guests: i32| CreateBookingRequest {
        room_id: room.to_string(),
        check_in_date: ci.to_string(),
        check_out_date: co.to_string(),
        guests,
    };
    let room = room_text();
    let ok = make(&room, "2025-03-01", "2025-03-03", 2).validate(Role::Customer, today).unwrap();
    assert_eq!(ok, BookingRequest { room_id: ROOM, check_in: day(2025, 3, 1), check_out: day(2025, 3, 3), guests: 2 });
    assert_eq!(
        make(&room, "2025-03-01", "2025-03-03", 2).validate(Role::Owner, today),
        Err(ErrorKind::Forbidden)
    );
    assert_eq!(
        make("not-a-uuid", "2025-03-01", "2025-03-03", 2).validate(Role::Customer, today),
        Err(ErrorKind::InvalidRequest)
    );
    assert_eq!(
        make(&room, "2025-03-03", "2025-03-03", 2).validate(Role::Customer, today),
        Err(ErrorKind::InvalidDates)
    );
    assert_eq!(
        make(&room, "2025-03-04", "2025-03-03", 2).validate(Role::Customer, today),
        Err(ErrorKind::InvalidDates)
    );
    assert_eq!(
        make(&room, "2024-12-31", "2025-01-03", 2).validate(Role::Customer, today),
        Err(ErrorKind::InvalidDates)
    );
    assert!(make(&room, "2025-01-01", "2025-01-02", 1).validate(Role::Customer, today).is_ok());
    assert_eq!(
        make(&room, "2025-02-30", "2025-03-03", 2).validate(Role::Customer, today),
        Err(ErrorKind::InvalidDates)
    );
    assert_eq!(
        make(&room, "03/01/2025", "2025-03-03", 2).validate(Role::Customer, today),
        Err(ErrorKind::InvalidDates)
    );
    assert_eq!(
        make(&room, "2025-03-01", "2025-03-03", 0).validate(Role::Customer, today),
        Err(ErrorKind::InvalidRequest)
    );
}

#[test]
fn error_statuses() {
    assert_eq!(ErrorKind::Forbidden.status(), 403);
    assert_eq!(ErrorKind::RoomNotFound.status(), 404);
    assert_eq!(ErrorKind::BookingNotFound.status(), 404);
    assert_eq!(ErrorKind::HotelNotFound.status(), 404);
    assert_eq!(ErrorKind::RoomNotAvailable.status(), 400);
    assert_eq!(ErrorKind::InvalidDates.status(), 400);
    assert_eq!(ErrorKind::AlreadyReviewed.status(), 400);
}

#[test]
fn room_setup_refusals() {
    let mut l = Ledger::new();
    assert!(l.add_hotel(HOTEL, OWNER).is_ok());
    assert_eq!(l.add_hotel(HOTEL, OWNER), Err(ErrorKind::HotelAlreadyExists));
    let p = Money { units: 100, scale: 0 };
    assert_eq!(l.add_room(OWNER, ROOM, 5, p, 2), Err(ErrorKind::HotelNotFound));
    assert_eq!(l.add_room(ALICE, ROOM, HOTEL, p, 2), Err(ErrorKind::Forbidden));
    assert_eq!(l.add_room(OWNER, ROOM, HOTEL, p, 0), Err(ErrorKind::InvalidRequest));
    assert_eq!(l.add_room(OWNER, ROOM, HOTEL, Money { units: 0, scale: 2 }, 2), Err(ErrorKind::InvalidRequest));
    let room = l.add_room(OWNER, ROOM, HOTEL, p, 2).unwrap();
    assert_eq!(room.owner_id, OWNER);
    assert_eq!(l.room(ROOM), Some(room));
    assert_eq!(l.add_room(OWNER, ROOM, HOTEL, p, 2), Err(ErrorKind::RoomAlreadyExists));
}

#[test]
fn listing_own_bookings_newest_first() {
    let mut l = ledger_with_room(Money { units: 100, scale: 0 }, 2);
    l.create_booking(ALICE, &request(10, 12, 1), NOW, 1).unwrap();
    l.create_booking(BOB, &request(12, 14, 1), NOW + 5, 2).unwrap();
    l.create_booking(ALICE, &request(14, 16, 1), NOW + 9, 3).unwrap();
    l.create_booking(ALICE, &request(16, 18, 1), NOW + 2, 4).unwrap();
    l.cancel_booking(Role::Customer, ALICE, 1).unwrap();
    let ids = |q: Option<&str>, who: u128| -> Vec<u128> {
        let query = BookingListQuery { status: q.map(|s| s.to_string()) };
        l.list_bookings(Role::Customer, who, &query).unwrap().iter().map(|b| b.id).collect()
    };
    assert_eq!(ids(None, ALICE), vec![3, 4, 1]);
    assert_eq!(ids(Some("confirmed"), ALICE), vec![3, 4]);
    assert_eq!(ids(Some("cancelled"), ALICE), vec![1]);
    assert_eq!(ids(Some("pending"), ALICE), Vec::<u128>::new());
    assert_eq!(ids(None, BOB), vec![2]);
    assert_eq!(ids(None, OWNER), Vec::<u128>::new());
    let all = BookingListQuery { status: None };
    assert_eq!(l.list_bookings(Role::Owner, ALICE, &all).unwrap_err(), ErrorKind::Forbidden);
    let q = BookingListQuery { status: Some("cancelled".to_string()) };
    assert!(q.selects(BookingStatus::Cancelled));
    assert!(!q.selects(BookingStatus::Confirmed));
}

#[test]
fn only_customers_cancel() {
    let mut l = ledger_with_room(Money { units: 100, scale: 0 }, 2);
    l.create_booking(ALICE, &request(10, 15, 2), NOW, 1).unwrap();
    assert_eq!(l.cancel_booking(Role::Owner, ALICE, 1), Err(ErrorKind::Forbidden));
    assert_eq!(l.booking(1).unwrap().status, BookingStatus::Confirmed);
    let b = l.booking(1).unwrap();
    assert_eq!(decide_cancel(Role::Owner, ALICE, &b), Err(ErrorKind::Forbidden));
    assert_eq!(decide_cancel(Role::Customer, BOB, &b), Err(ErrorKind::Forbidden));
    assert_eq!(decide_cancel(Role::Customer, ALICE, &b).unwrap().status, BookingStatus::Cancelled);
    assert_eq!(b.booked_at, NOW);
}

#[test]
fn error_codes() {
    assert_eq!(ErrorKind::RoomNotAvailable.code(), "ROOM_NOT_AVAILABLE");
    assert_eq!(ErrorKind::AlreadyReviewed.code(), "ALREADY_REVIEWED");
    assert_eq!(ErrorKind::Forbidden.code(), "FORBIDDEN");
    assert_eq!(ErrorKind::InvalidDates.code(), "INVALID_DATES");
    assert_eq!(ErrorKind::BookingNotEligible.code(), "BOOKING_NOT_ELIGIBLE");
}
