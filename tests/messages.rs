use hotel_booking::booking::{Booking, BookingStatus, Room};
use hotel_booking::error::ErrorKind;
use hotel_booking::messages::{
    BookingResponse, Claims, CreateHotelRequest, CreateRoomRequest, HotelRoomResponse,
    ReviewResponse, RoomResponse, SignupRequest,
};
use hotel_booking::messages::{BookingListResponse, ListingLabels, SignupResponse};
use hotel_booking::ident::parse_id;
use hotel_booking::money::{parse_price, price_from_parts, Money};
use hotel_booking::review::Review;
use hotel_booking::text::{is_blank, same_text, Role};

const ID: &str = "550e8400-e29b-41d4-a716-446655440000";
const ID_NUM: u128 = 0x550e8400_e29b_41d4_a716_446655440000;

fn some(s: &str) -> Option<String> {
    Some(s.to_string())
}

#[test]
fn hotel_request_checks() {
    let make = |name: Option<String>| CreateHotelRequest {
        name,
        description: None,
        city: some("Lisbon"),
        country: some("Portugal"),
        amenities: None,
    };
    assert_eq!(make(some("Sea View")).validate(Role::Owner), Ok(()));
    assert_eq!(make(some("Sea View")).validate(Role::Customer), Err(ErrorKind::Forbidden));
    assert_eq!(make(some("  \t")).validate(Role::Owner), Err(ErrorKind::InvalidRequest));
    assert_eq!(make(some("")).validate(Role::Owner), Err(ErrorKind::InvalidRequest));
    assert_eq!(make(None).validate(Role::Owner), Err(ErrorKind::InvalidRequest));
}

#[test]
fn signup_request_checks() {
    let make = |role: Option<String>, password: Option<String>| SignupRequest {
        name: some("Ana"),
        email: some("ana@example.com"),
        password,
        role,
        phone: None,
    };
    assert_eq!(make(None, some("pw")).validate(), Ok(Role::Customer));
    assert_eq!(make(some("owner"), some("pw")).validate(), Ok(Role::Owner));
    assert_eq!(make(some("customer"), some("pw")).validate(), Ok(Role::Customer));
    assert_eq!(make(some("admin"), some("pw")).validate(), Err(ErrorKind::InvalidRequest));
    assert_eq!(make(some("Owner"), some("pw")).validate(), Err(ErrorKind::InvalidRequest));
    assert_eq!(make(None, some(" ")).validate(), Err(ErrorKind::InvalidRequest));
    assert_eq!(make(None, None).validate(), Err(ErrorKind::InvalidRequest));
}

#[test]
fn room_request_checks() {
    let make = |price: &str, occupancy: Option<i32>| CreateRoomRequest {
        room_number: some("101"),
        room_type: some("double"),
        price_per_night: some(price),
        max_occupancy: occupancy,
    };
    assert_eq!(make("100.00", Some(2)).validate(Role::Owner), Ok((Money { units: 10000, scale: 2 }, 2)));
    assert_eq!(make("100.00", Some(2)).validate(Role::Customer), Err(ErrorKind::Forbidden));
    assert_eq!(make("0", Some(2)).validate(Role::Owner), Err(ErrorKind::InvalidRequest));
    assert_eq!(make("-5.00", Some(2)).validate(Role::Owner), Err(ErrorKind::InvalidRequest));
    assert_eq!(make("cheap", Some(2)).validate(Role::Owner), Err(ErrorKind::InvalidRequest));
    assert_eq!(make("100", Some(0)).validate(Role::Owner), Err(ErrorKind::InvalidRequest));
    assert_eq!(make("100", None).validate(Role::Owner), Err(ErrorKind::InvalidRequest));
    let mut blank = make("100", Some(2));
    blank.room_type = some("   ");
    assert_eq!(blank.validate(Role::Owner), Err(ErrorKind::InvalidRequest));
}

#[test]
fn price_parsing() {
    assert_eq!(parse_price("100.00"), Some(Money { units: 10000, scale: 2 }));
    assert_eq!(parse_price("1e2"), Some(Money { units: 100, scale: 0 }));
    assert_eq!(parse_price("0.5"), Some(Money { units: 5, scale: 1 }));
    assert_eq!(parse_price("0"), None);
    assert_eq!(parse_price("abc"), None);
    assert_eq!(parse_price("1e30"), None);
    assert_eq!(parse_price("1e-9223372036854775808"), None);
    assert_eq!(parse_price("0.1e-9223372036854775807"), None);
    assert_eq!(parse_price("5e+000000000000000001"), Some(Money { units: 50, scale: 0 }));
    assert_eq!(price_from_parts(7, -3), Some(Money { units: 7000, scale: 0 }));
    assert_eq!(price_from_parts(7, 2), Some(Money { units: 7, scale: 2 }));
    assert_eq!(price_from_parts(-7, 2), None);
    assert_eq!(price_from_parts(1, -30), None);
    assert_eq!(price_from_parts(1, i64::MIN), None);
}

#[test]
fn money_text() {
    assert_eq!(Money { units: 20000, scale: 2 }.to_text(), "200.00");
    assert_eq!(Money { units: 5, scale: 3 }.to_text(), "0.005");
    assert_eq!(Money { units: 42, scale: 0 }.to_text(), "42");
}

#[test]
fn text_checks() {
    assert!(is_blank(""));
    assert!(is_blank(" \t\n\u{3000}"));
    assert!(!is_blank(" a "));
    assert!(same_text("owner", "owner"));
    assert!(!same_text("owner", "owners"));
    assert_eq!(Role::parse("customer"), Some(Role::Customer));
    assert_eq!(Role::parse("guest"), None);
    assert_eq!(Role::Owner.name(), "owner");
}

#[test]
fn booking_report() {
    let b = Booking {
        id: ID_NUM,
        customer_id: 1,
        room_id: 2,
        hotel_id: 3,
        check_in: 10,
        check_out: 12,
        guests: 2,
        total_price: Money { units: 20000, scale: 2 },
        status: BookingStatus::Confirmed,
        booked_at: 0,
    };
    let r = BookingResponse::new(&b, "2025-03-01".to_string(), "2025-03-03".to_string(), "t".to_string());
    assert_eq!(r.id, ID);
    assert_eq!(r.user_id, "00000000-0000-0000-0000-000000000001");
    assert_eq!(r.total_price, "200.00");
    assert_eq!(r.status, "confirmed");
    assert_eq!(r.guests, 2);
    assert_eq!(r.check_out_date, "2025-03-03");
    let c = Booking { status: BookingStatus::Cancelled, ..b };
    assert_eq!(BookingResponse::new(&c, String::new(), String::new(), String::new()).status, "cancelled");
}

#[test]
fn review_and_room_reports() {
    let review = Review { id: ID_NUM, booking_id: 4, customer_id: 5, hotel_id: 6, rating: 4, comment: some("quiet") };
    let r = ReviewResponse::new(review, "now".to_string());
    assert_eq!(r.id, ID);
    assert_eq!(r.booking_id, "00000000-0000-0000-0000-000000000004");
    assert_eq!(r.comment, some("quiet"));
    let room = Room { id: ID_NUM, hotel_id: 9, owner_id: 1, price_per_night: Money { units: 12550, scale: 2 }, max_occupancy: 3 };
    let rr = RoomResponse::new(&room, "101".to_string(), "suite".to_string());
    assert_eq!(rr.id, ID);
    assert_eq!(rr.price_per_night, "125.50");
    assert_eq!(rr.max_occupancy, 3);
    let hr = HotelRoomResponse::new(&room, "101".to_string(), "suite".to_string());
    assert_eq!(hr.price_per_night, "125.50");
    assert_eq!(hr.room_type, "suite");
}

#[test]
fn claims_identity() {
    let c = Claims { sub: ID.to_string(), role: "customer".to_string(), exp: 0 };
    assert_eq!(c.user_id(), Some(ID_NUM));
    assert_eq!(c.user_role(), Some(Role::Customer));
    let bad = Claims { sub: "nobody".to_string(), role: "root".to_string(), exp: 0 };
    assert_eq!(bad.user_id(), None);
    assert_eq!(bad.user_role(), None);
}

#[test]
fn identifier_parsing() {
    assert_eq!(parse_id(ID), Some(ID_NUM));
    assert_eq!(parse_id("550E8400-E29B-41D4-A716-446655440000"), Some(ID_NUM));
    assert_eq!(parse_id("550e8400e29b41d4a716446655440000"), Some(ID_NUM));
    assert_eq!(parse_id("550e8400-e29b-41d4-a716"), None);
    assert_eq!(parse_id(""), None);
}

#[test]
fn listing_and_signup_reports() {
    let b = Booking {
        id: 1,
        customer_id: 2,
        room_id: ID_NUM,
        hotel_id: 3,
        check_in: 10,
        check_out: 11,
        guests: 1,
        total_price: Money { units: 9950, scale: 2 },
        status: BookingStatus::Cancelled,
        booked_at: 0,
    };
    let labels = ListingLabels {
        hotel_name: "Sea View".to_string(),
        room_number: "12".to_string(),
        room_type: "single".to_string(),
        check_in_date: "2025-03-01".to_string(),
        check_out_date: "2025-03-02".to_string(),
        booking_date: "t".to_string(),
    };
    let r = BookingListResponse::new(&b, labels);
    assert_eq!(r.room_id, ID);
    assert_eq!(r.id, "00000000-0000-0000-0000-000000000001");
    assert_eq!(r.total_price, "99.50");
    assert_eq!(r.status, "cancelled");
    assert_eq!(r.hotel_name, "Sea View");
    let s = SignupResponse::new(ID_NUM, "Ana".to_string(), "a@b.c".to_string(), Role::Owner, None);
    assert_eq!(s.id, ID);
    assert_eq!(s.role, "owner");
    assert_eq!(s.phone, None);
}
