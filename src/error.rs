//! The failures the core reports, each with a stable HTTP status.
use vstd::prelude::*;

verus! {

/// Why a request was refused.
#[derive(Clone, Copy, Debug, PartialEq, Eq, Structural)]
pub enum ErrorKind {
    /// A field is missing or malformed.
    InvalidRequest,
    /// The dates do not form a future, non-empty stay.
    InvalidDates,
    /// More guests than the room holds.
    InvalidCapacity,
    RoomNotFound,
    BookingNotFound,
    HotelNotFound,
    /// The role or the ownership does not allow the request.
    Forbidden,
    /// A confirmed booking of the room overlaps the requested stay.
    RoomNotAvailable,
    /// The booking already has a review.
    AlreadyReviewed,
    /// The booking is not a confirmed, completed stay.
    BookingNotEligible,
    HotelAlreadyExists,
    RoomAlreadyExists,
}

impl ErrorKind {
    pub open spec fn status_spec(self) -> u16 {
        match self {
            ErrorKind::Forbidden => 403,
            ErrorKind::RoomNotFound | ErrorKind::BookingNotFound | ErrorKind::HotelNotFound => 404,
            _ => 400,
        }
    }

    /// The HTTP status that reports this failure.
    pub fn status(&self) -> (r: u16)
        ensures
            r == self.status_spec(),
    {
        match self {
            ErrorKind::Forbidden => 403,
            ErrorKind::RoomNotFound | ErrorKind::BookingNotFound | ErrorKind::HotelNotFound => 404,
            _ => 400,
        }
    }

    pub open spec fn code_spec(self) -> Seq<char> {
        match self {
            ErrorKind::InvalidRequest => "INVALID_REQUEST"@,
            ErrorKind::InvalidDates => "INVALID_DATES"@,
            ErrorKind::InvalidCapacity => "INVALID_CAPACITY"@,
            ErrorKind::RoomNotFound => "ROOM_NOT_FOUND"@,
            ErrorKind::BookingNotFound => "BOOKING_NOT_FOUND"@,
            ErrorKind::HotelNotFound => "HOTEL_NOT_FOUND"@,
            ErrorKind::Forbidden => "FORBIDDEN"@,
            ErrorKind::RoomNotAvailable => "ROOM_NOT_AVAILABLE"@,
            ErrorKind::AlreadyReviewed => "ALREADY_REVIEWED"@,
            ErrorKind::BookingNotEligible => "BOOKING_NOT_ELIGIBLE"@,
            ErrorKind::HotelAlreadyExists => "HOTEL_ALREADY_EXISTS"@,
            ErrorKind::RoomAlreadyExists => "ROOM_ALREADY_EXISTS"@,
        }
    }

    /// The stable machine-readable code that reports this failure.
    pub fn code(&self) -> (r: String)
        ensures
            r@ == self.code_spec(),
    {
        match self {
            ErrorKind::InvalidRequest => "INVALID_REQUEST".to_owned(),
            ErrorKind::InvalidDates => "INVALID_DATES".to_owned(),
            ErrorKind::InvalidCapacity => "INVALID_CAPACITY".to_owned(),
            ErrorKind::RoomNotFound => "ROOM_NOT_FOUND".to_owned(),
            ErrorKind::BookingNotFound => "BOOKING_NOT_FOUND".to_owned(),
            ErrorKind::HotelNotFound => "HOTEL_NOT_FOUND".to_owned(),
            ErrorKind::Forbidden => "FORBIDDEN".to_owned(),
            ErrorKind::RoomNotAvailable => "ROOM_NOT_AVAILABLE".to_owned(),
            ErrorKind::AlreadyReviewed => "ALREADY_REVIEWED".to_owned(),
            ErrorKind::BookingNotEligible => "BOOKING_NOT_ELIGIBLE".to_owned(),
            ErrorKind::HotelAlreadyExists => "HOTEL_ALREADY_EXISTS".to_owned(),
            ErrorKind::RoomAlreadyExists => "ROOM_ALREADY_EXISTS".to_owned(),
        }
    }
}

} // verus!
