//! Booking creation: the checks made before a transaction opens, the availability of a room,
//! and the decision taken while the room is held.
use crate::error::ErrorKind;
use crate::ident::{parse_uuid, uuid_of};
use crate::money::Money;
use crate::stay::{calendar_day, overlaps, parse_day, ranges_overlap};
use crate::text::Role;
use vstd::prelude::*;

verus! {

#[derive(Clone, Copy, Debug, PartialEq, Eq, Structural)]
pub enum BookingStatus {
    Confirmed,
    Cancelled,
}

/// A room as a booking reads it: joined with the owner of its hotel.
#[derive(Clone, Copy, Debug, PartialEq, Eq, Structural)]
pub struct Room {
    pub id: u128,
    pub hotel_id: u128,
    pub owner_id: u128,
    pub price_per_night: Money,
    pub max_occupancy: i32,
}

/// A reservation of one room for the nights `[check_in, check_out)`, days numbered as
/// `calendar_day` numbers them.
#[derive(Clone, Copy, Debug, PartialEq, Eq, Structural)]
pub struct Booking {
    pub id: u128,
    pub customer_id: u128,
    pub room_id: u128,
    pub hotel_id: u128,
    pub check_in: i32,
    pub check_out: i32,
    pub guests: i32,
    pub total_price: Money,
    pub status: BookingStatus,
    /// When the booking was made, in seconds since the Unix epoch.
    pub booked_at: i64,
}

impl BookingStatus {
    pub open spec fn name_spec(self) -> Seq<char> {
        match self {
            BookingStatus::Confirmed => "confirmed"@,
            BookingStatus::Cancelled => "cancelled"@,
        }
    }

    /// The word that names the status.
    pub fn name(&self) -> (r: String)
        ensures
            r@ == self.name_spec(),
    {
        match self {
            BookingStatus::Confirmed => "confirmed".to_owned(),
            BookingStatus::Cancelled => "cancelled".to_owned(),
        }
    }
}

impl Booking {
    pub open spec fn is_confirmed(self) -> bool {
        self.status == BookingStatus::Confirmed
    }

    /// This booking keeps `room_id` from being booked for `[check_in, check_out)`: it is a
    /// confirmed booking of that room and shares a night with the stay.
    pub open spec fn blocks(self, room_id: u128, check_in: int, check_out: int) -> bool {
        &&& self.room_id == room_id
        &&& self.is_confirmed()
        &&& overlaps(check_in, check_out, self.check_in as int, self.check_out as int)
    }
}

/// A booking request whose fields have been read and checked.
#[derive(Clone, Copy, Debug, PartialEq, Eq, Structural)]
pub struct BookingRequest {
    pub room_id: u128,
    pub check_in: i32,
    pub check_out: i32,
    pub guests: i32,
}

impl BookingRequest {
    /// At least one night and at least one guest.
    pub open spec fn is_valid(self) -> bool {
        self.check_in < self.check_out && self.guests > 0
    }

    pub open spec fn nights(self) -> int {
        self.check_out - self.check_in
    }
}

/// No booking of `bookings` blocks `room_id` for `[check_in, check_out)`.
pub open spec fn is_free(room_id: u128, check_in: int, check_out: int, bookings: Seq<Booking>) -> bool {
    forall|i: int| 0 <= i < bookings.len() ==> !(#[trigger] bookings[i]).blocks(room_id, check_in, check_out)
}

/// Whether `room_id` is free for `[check_in, check_out)`: only confirmed bookings of that room
/// count, and a stay that ends on the check-in day does not overlap.
pub fn is_available(room_id: u128, check_in: i32, check_out: i32, bookings: &Vec<Booking>) -> (r: bool)
    ensures
        r == is_free(room_id, check_in as int, check_out as int, bookings@),
{
    let mut i: usize = 0;
    while i < bookings.len()
        invariant
            0 <= i <= bookings.len(),
            forall|j: int| 0 <= j < i ==> !(#[trigger] bookings@[j]).blocks(room_id, check_in as int, check_out as int),
        decreases bookings.len() - i,
    {
        let b = &bookings[i];
        if b.room_id == room_id && b.status == BookingStatus::Confirmed
            && ranges_overlap(check_in, check_out, b.check_in, b.check_out) {
            return false;
        }
        i += 1;
    }
    true
}

/// The outcome of the checks made before any room is held: the caller must be a customer,
/// the room id must be an identifier, the dates must form a stay of at least one night that
/// does not start before `today`, and there must be at least one guest.
pub open spec fn booking_fields(
    is_customer: bool,
    room_id: Option<u128>,
    check_in: Option<i32>,
    check_out: Option<i32>,
    guests: i32,
    today: i32,
) -> Result<BookingRequest, ErrorKind> {
    if !is_customer {
        Err(ErrorKind::Forbidden)
    } else if room_id is None {
        Err(ErrorKind::InvalidRequest)
    } else if check_in is None || check_out is None || check_out->0 <= check_in->0 || check_in->0
        < today {
        Err(ErrorKind::InvalidDates)
    } else if guests <= 0 {
        Err(ErrorKind::InvalidRequest)
    } else {
        Ok(
            BookingRequest {
                room_id: room_id->0,
                check_in: check_in->0,
                check_out: check_out->0,
                guests,
            },
        )
    }
}

/// Checks the fields of a booking request once they have been read.
pub fn check_booking_fields(
    is_customer: bool,
    room_id: Option<u128>,
    check_in: Option<i32>,
    check_out: Option<i32>,
    guests: i32,
    today: i32,
) -> (r: Result<BookingRequest, ErrorKind>)
    ensures
        r == booking_fields(is_customer, room_id, check_in, check_out, guests, today),
        r is Ok ==> r->Ok_0.is_valid(),
{
    if !is_customer {
        return Err(ErrorKind::Forbidden);
    }
    let room_id = match room_id {
        Some(id) => id,
        None => return Err(ErrorKind::InvalidRequest),
    };
    let (check_in, check_out) = match (check_in, check_out) {
        (Some(ci), Some(co)) => (ci, co),
        _ => return Err(ErrorKind::InvalidDates),
    };
    if check_out <= check_in || check_in < today {
        return Err(ErrorKind::InvalidDates);
    }
    if guests <= 0 {
        return Err(ErrorKind::InvalidRequest);
    }
    Ok(BookingRequest { room_id, check_in, check_out, guests })
}

/// Reads and checks a booking request: the room id as a UUID, the dates as `YYYY-MM-DD`.
pub fn validate_booking_request(
    is_customer: bool,
    room_id: &str,
    check_in: &str,
    check_out: &str,
    guests: i32,
    today: i32,
) -> (r: Result<BookingRequest, ErrorKind>)
    ensures
        r == booking_fields(
            is_customer,
            uuid_of(room_id@),
            calendar_day(check_in@),
            calendar_day(check_out@),
            guests,
            today,
        ),
        r is Ok ==> r->Ok_0.is_valid(),
{
    let id = parse_uuid(room_id);
    let ci = parse_day(check_in);
    let co = parse_day(check_out);
    check_booking_fields(is_customer, id, ci, co, guests, today)
}

/// The booking that `customer` gets for `req` in `room` at time `now`, or why not: an owner
/// cannot book a room of their own hotel, the guests must fit, and no confirmed booking of the
/// room may overlap the stay. The total is the nightly price times the nights, exactly.
pub open spec fn booking_decision(
    customer: u128,
    room: Room,
    req: BookingRequest,
    bookings: Seq<Booking>,
    now: i64,
    new_id: u128,
) -> Result<Booking, ErrorKind> {
    if customer == room.owner_id {
        Err(ErrorKind::Forbidden)
    } else if req.guests > room.max_occupancy {
        Err(ErrorKind::InvalidCapacity)
    } else if !is_free(room.id, req.check_in as int, req.check_out as int, bookings) {
        Err(ErrorKind::RoomNotAvailable)
    } else {
        Ok(
            Booking {
                id: new_id,
                customer_id: customer,
                room_id: room.id,
                hotel_id: room.hotel_id,
                check_in: req.check_in,
                check_out: req.check_out,
                guests: req.guests,
                total_price: room.price_per_night.times_spec(req.nights() as nat),
                status: BookingStatus::Confirmed,
                booked_at: now,
            },
        )
    }
}

/// Decides a booking while `room` is held, against the bookings that exist for it.
pub fn decide_booking(
    customer: u128,
    room: &Room,
    req: &BookingRequest,
    bookings: &Vec<Booking>,
    now: i64,
    new_id: u128,
) -> (r: Result<Booking, ErrorKind>)
    requires
        room.price_per_night.is_nightly_price(),
        req.is_valid(),
        req.room_id == room.id,
    ensures
        r == booking_decision(customer, *room, *req, bookings@, now, new_id),
{
    if customer == room.owner_id {
        return Err(ErrorKind::Forbidden);
    }
    if req.guests > room.max_occupancy {
        return Err(ErrorKind::InvalidCapacity);
    }
    if !is_available(room.id, req.check_in, req.check_out, bookings) {
        return Err(ErrorKind::RoomNotAvailable);
    }
    let nights = (req.check_out as i64 - req.check_in as i64) as u32;
    Ok(
        Booking {
            id: new_id,
            customer_id: customer,
            room_id: room.id,
            hotel_id: room.hotel_id,
            check_in: req.check_in,
            check_out: req.check_out,
            guests: req.guests,
            total_price: room.price_per_night.times(nights),
            status: BookingStatus::Confirmed,
            booked_at: now,
        },
    )
}

/// Cancelling `booking` for `customer`, a caller in `role`: only a customer may cancel, and
/// only their own booking; the result is the booking with its status set to cancelled,
/// whatever it was.
pub open spec fn cancel_decision(role: Role, customer: u128, booking: Booking) -> Result<
    Booking,
    ErrorKind,
> {
    if role != Role::Customer || booking.customer_id != customer {
        Err(ErrorKind::Forbidden)
    } else {
        Ok(Booking { status: BookingStatus::Cancelled, ..booking })
    }
}

/// Decides a cancellation while `booking` is held.
pub fn decide_cancel(role: Role, customer: u128, booking: &Booking) -> (r: Result<
    Booking,
    ErrorKind,
>)
    ensures
        r == cancel_decision(role, customer, *booking),
{
    if role != Role::Customer || booking.customer_id != customer {
        return Err(ErrorKind::Forbidden);
    }
    Ok(Booking { status: BookingStatus::Cancelled, ..*booking })
}

} // verus!
