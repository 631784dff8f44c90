//! The requests the service reads and the records it answers with, as plain values; the
//! checks a request goes through before any record is held.
use crate::booking::{booking_fields, Booking, BookingRequest, BookingStatus};
use crate::error::ErrorKind;
use crate::ident::{parse_uuid, uuid_of, uuid_string, uuid_text};
use crate::money::{decimal_text, parse_price, price_text_value, Money};
use crate::review::{review_fields, Review};
use crate::booking::Room;
use crate::stay::calendar_day;
use crate::text::{blank, is_blank, role_of, same_text, Role};
use vstd::prelude::*;

verus! {

/// The field is given and is not blank.
pub open spec fn filled(field: Option<String>) -> bool {
    field is Some && !blank(field->0@)
}

/// Whether the field is given and is not blank.
pub fn is_filled(field: &Option<String>) -> (r: bool)
    ensures
        r == filled(*field),
{
    match field {
        Some(text) => !is_blank(text.as_str()),
        None => false,
    }
}

/// A request to book a room: its id, the check-in and check-out dates as `YYYY-MM-DD`, and
/// the number of guests.
pub struct CreateBookingRequest {
    pub room_id: String,
    pub check_in_date: String,
    pub check_out_date: String,
    pub guests: i32,
}

impl CreateBookingRequest {
    /// Checks the request of a caller in `role` on day `today`.
    pub fn validate(&self, role: Role, today: i32) -> (r: Result<BookingRequest, ErrorKind>)
        ensures
            r == booking_fields(
                role == Role::Customer,
                uuid_of(self.room_id@),
                calendar_day(self.check_in_date@),
                calendar_day(self.check_out_date@),
                self.guests,
                today,
            ),
            r is Ok ==> r->Ok_0.is_valid(),
    {
        crate::booking::validate_booking_request(
            role == Role::Customer,
            self.room_id.as_str(),
            self.check_in_date.as_str(),
            self.check_out_date.as_str(),
            self.guests,
            today,
        )
    }
}

/// A request to review a booking with a score and an optional comment.
pub struct CreateReviewRequest {
    pub booking_id: String,
    pub rating: i32,
    pub comment: Option<String>,
}

impl CreateReviewRequest {
    /// Checks the request of a caller in `role`; the result is the booking's id.
    pub fn validate(&self, role: Role) -> (r: Result<u128, ErrorKind>)
        ensures
            r == review_fields(role == Role::Customer, uuid_of(self.booking_id@), self.rating),
    {
        crate::review::validate_review_request(
            role == Role::Customer,
            self.booking_id.as_str(),
            self.rating,
        )
    }
}

/// A request to add a hotel.
pub struct CreateHotelRequest {
    pub name: Option<String>,
    pub description: Option<String>,
    pub city: Option<String>,
    pub country: Option<String>,
    pub amenities: Option<Vec<String>>,
}

impl CreateHotelRequest {
    /// Checks the request of a caller in `role`: only an owner may add a hotel, and the
    /// name, the city and the country must be filled.
    pub fn validate(&self, role: Role) -> (r: Result<(), ErrorKind>)
        ensures
            r == (if role != Role::Owner {
                Err(ErrorKind::Forbidden)
            } else if !filled(self.name) || !filled(self.city) || !filled(self.country) {
                Err(ErrorKind::InvalidRequest)
            } else {
                Ok(())
            }),
    {
        if role != Role::Owner {
            return Err(ErrorKind::Forbidden);
        }
        if !is_filled(&self.name) || !is_filled(&self.city) || !is_filled(&self.country) {
            return Err(ErrorKind::InvalidRequest);
        }
        Ok(())
    }
}

/// A request to sign up.
pub struct SignupRequest {
    pub name: Option<String>,
    pub email: Option<String>,
    pub password: Option<String>,
    pub role: Option<String>,
    pub phone: Option<String>,
}

/// The role a sign-up asks for: a customer where none is named.
pub open spec fn signup_role(role: Option<String>) -> Option<Role> {
    match role {
        None => Some(Role::Customer),
        Some(text) => role_of(text@),
    }
}

impl SignupRequest {
    /// Checks the request: the name, the e-mail address and the password must be filled, and
    /// the role, if named, must be `customer` or `owner`. The result is the role.
    pub fn validate(&self) -> (r: Result<Role, ErrorKind>)
        ensures
            r == (if !filled(self.name) || !filled(self.email) || !filled(self.password) {
                Err(ErrorKind::InvalidRequest)
            } else {
                match signup_role(self.role) {
                    Some(role) => Ok(role),
                    None => Err(ErrorKind::InvalidRequest),
                }
            }),
    {
        if !is_filled(&self.name) || !is_filled(&self.email) || !is_filled(&self.password) {
            return Err(ErrorKind::InvalidRequest);
        }
        let role = match &self.role {
            None => Some(Role::Customer),
            Some(text) => Role::parse(text.as_str()),
        };
        match role {
            Some(role) => Ok(role),
            None => Err(ErrorKind::InvalidRequest),
        }
    }
}

/// A booking as the service reports it.
pub struct BookingResponse {
    pub id: String,
    pub user_id: String,
    pub room_id: String,
    pub hotel_id: String,
    pub check_in_date: String,
    pub check_out_date: String,
    pub guests: i32,
    pub total_price: String,
    pub status: String,
    pub booking_date: String,
}

impl BookingResponse {
    /// The report of `b`, with its dates and its time of booking as the caller writes them.
    pub fn new(b: &Booking, check_in_date: String, check_out_date: String, booking_date: String) -> (r:
        BookingResponse)
        ensures
            r.id@ == uuid_text(b.id),
            r.user_id@ == uuid_text(b.customer_id),
            r.room_id@ == uuid_text(b.room_id),
            r.hotel_id@ == uuid_text(b.hotel_id),
            r.check_in_date == check_in_date,
            r.check_out_date == check_out_date,
            r.guests == b.guests,
            r.total_price@ == decimal_text(b.total_price.units as nat, b.total_price.scale as nat),
            r.status@ == b.status.name_spec(),
            r.booking_date == booking_date,
    {
        BookingResponse {
            id: uuid_string(b.id),
            user_id: uuid_string(b.customer_id),
            room_id: uuid_string(b.room_id),
            hotel_id: uuid_string(b.hotel_id),
            check_in_date,
            check_out_date,
            guests: b.guests,
            total_price: b.total_price.to_text(),
            status: b.status.name(),
            booking_date,
        }
    }
}

/// A review as the service reports it.
pub struct ReviewResponse {
    pub id: String,
    pub user_id: String,
    pub hotel_id: String,
    pub booking_id: String,
    pub rating: i32,
    pub comment: Option<String>,
    pub created_at: String,
}

impl ReviewResponse {
    /// The report of `review`, made at `created_at`.
    pub fn new(review: Review, created_at: String) -> (r: ReviewResponse)
        ensures
            r.id@ == uuid_text(review.id),
            r.user_id@ == uuid_text(review.customer_id),
            r.hotel_id@ == uuid_text(review.hotel_id),
            r.booking_id@ == uuid_text(review.booking_id),
            r.rating == review.rating,
            r.comment == review.comment,
            r.created_at == created_at,
    {
        ReviewResponse {
            id: uuid_string(review.id),
            user_id: uuid_string(review.customer_id),
            hotel_id: uuid_string(review.hotel_id),
            booking_id: uuid_string(review.booking_id),
            rating: review.rating,
            comment: review.comment,
            created_at,
        }
    }
}

/// A room as the service reports it when it is added.
pub struct RoomResponse {
    pub id: String,
    pub hotel_id: String,
    pub room_number: String,
    pub room_type: String,
    pub price_per_night: String,
    pub max_occupancy: i32,
}

impl RoomResponse {
    /// The report of `room`, with the number and the type the owner gave it.
    pub fn new(room: &Room, room_number: String, room_type: String) -> (r: RoomResponse)
        ensures
            r.id@ == uuid_text(room.id),
            r.hotel_id@ == uuid_text(room.hotel_id),
            r.room_number == room_number,
            r.room_type == room_type,
            r.price_per_night@ == decimal_text(
                room.price_per_night.units as nat,
                room.price_per_night.scale as nat,
            ),
            r.max_occupancy == room.max_occupancy,
    {
        RoomResponse {
            id: uuid_string(room.id),
            hotel_id: uuid_string(room.hotel_id),
            room_number,
            room_type,
            price_per_night: room.price_per_night.to_text(),
            max_occupancy: room.max_occupancy,
        }
    }
}

/// A room as the service lists it among its hotel's rooms.
pub struct HotelRoomResponse {
    pub id: String,
    pub room_number: String,
    pub room_type: String,
    pub price_per_night: String,
    pub max_occupancy: i32,
}

impl HotelRoomResponse {
    /// The listing of `room`, with its number and its type.
    pub fn new(room: &Room, room_number: String, room_type: String) -> (r: HotelRoomResponse)
        ensures
            r.id@ == uuid_text(room.id),
            r.room_number == room_number,
            r.room_type == room_type,
            r.price_per_night@ == decimal_text(
                room.price_per_night.units as nat,
                room.price_per_night.scale as nat,
            ),
            r.max_occupancy == room.max_occupancy,
    {
        HotelRoomResponse {
            id: uuid_string(room.id),
            room_number,
            room_type,
            price_per_night: room.price_per_night.to_text(),
            max_occupancy: room.max_occupancy,
        }
    }
}

/// A request to add a room to a hotel.
pub struct CreateRoomRequest {
    pub room_number: Option<String>,
    pub room_type: Option<String>,
    pub price_per_night: Option<String>,
    pub max_occupancy: Option<i32>,
}

/// The outcome of the checks on a room request: only an owner may add a room; its number, its
/// type and its price must be filled, the price a positive decimal, and the occupancy
/// positive.
pub open spec fn room_fields(
    role: Role,
    room_number: Option<String>,
    room_type: Option<String>,
    price_per_night: Option<String>,
    max_occupancy: Option<i32>,
) -> Result<(Money, i32), ErrorKind> {
    if role != Role::Owner {
        Err(ErrorKind::Forbidden)
    } else if !filled(room_number) || !filled(room_type) || !filled(price_per_night) {
        Err(ErrorKind::InvalidRequest)
    } else {
        match price_text_value(price_per_night->0@) {
            None => Err(ErrorKind::InvalidRequest),
            Some(price) => match max_occupancy {
                Some(n) if n > 0 => Ok((price, n)),
                _ => Err(ErrorKind::InvalidRequest),
            },
        }
    }
}

impl CreateRoomRequest {
    /// Checks the request of a caller in `role`; the result is the nightly price and the
    /// occupancy.
    pub fn validate(&self, role: Role) -> (r: Result<(Money, i32), ErrorKind>)
        ensures
            r == room_fields(
                role,
                self.room_number,
                self.room_type,
                self.price_per_night,
                self.max_occupancy,
            ),
    {
        if role != Role::Owner {
            return Err(ErrorKind::Forbidden);
        }
        if !is_filled(&self.room_number) || !is_filled(&self.room_type) || !is_filled(
            &self.price_per_night,
        ) {
            return Err(ErrorKind::InvalidRequest);
        }
        let price = match &self.price_per_night {
            Some(text) => parse_price(text.as_str()),
            None => None,
        };
        let price = match price {
            Some(p) => p,
            None => return Err(ErrorKind::InvalidRequest),
        };
        match self.max_occupancy {
            Some(n) => {
                if n > 0 {
                    Ok((price, n))
                } else {
                    Err(ErrorKind::InvalidRequest)
                }
            },
            None => Err(ErrorKind::InvalidRequest),
        }
    }
}

/// What a verified access token states: the user's id, the user's role, and when the token
/// expires.
pub struct Claims {
    pub sub: String,
    pub role: String,
    pub exp: usize,
}

impl Claims {
    /// The user the token names, where its subject is an identifier.
    pub fn user_id(&self) -> (r: Option<u128>)
        ensures
            r == uuid_of(self.sub@),
    {
        parse_uuid(self.sub.as_str())
    }

    /// The role the token grants, where it names one.
    pub fn user_role(&self) -> (r: Option<Role>)
        ensures
            r == role_of(self.role@),
    {
        Role::parse(self.role.as_str())
    }
}

/// Which of a customer's bookings to list: all, or those whose status is named `status`.
pub struct BookingListQuery {
    pub status: Option<String>,
}

/// A booking with `status` is listed under the filter: none is given, or it names the status.
pub open spec fn status_selected(filter: Option<String>, status: BookingStatus) -> bool {
    filter is None || filter->0@ == status.name_spec()
}

impl BookingListQuery {
    /// Whether a booking with `status` is listed.
    pub fn selects(&self, status: BookingStatus) -> (r: bool)
        ensures
            r == status_selected(self.status, status),
    {
        match &self.status {
            None => true,
            Some(text) => {
                let name = status.name();
                same_text(text.as_str(), name.as_str())
            },
        }
    }
}

/// One of a customer's bookings as the service lists it, with its hotel's name and its room's
/// number and type.
pub struct BookingListResponse {
    pub id: String,
    pub room_id: String,
    pub hotel_id: String,
    pub hotel_name: String,
    pub room_number: String,
    pub room_type: String,
    pub check_in_date: String,
    pub check_out_date: String,
    pub guests: i32,
    pub total_price: String,
    pub status: String,
    pub booking_date: String,
}

/// The names a listed booking is shown with, and its dates as the caller writes them.
pub struct ListingLabels {
    pub hotel_name: String,
    pub room_number: String,
    pub room_type: String,
    pub check_in_date: String,
    pub check_out_date: String,
    pub booking_date: String,
}

impl BookingListResponse {
    /// The listing of `b` under `labels`.
    pub fn new(b: &Booking, labels: ListingLabels) -> (r: BookingListResponse)
        ensures
            r.id@ == uuid_text(b.id),
            r.room_id@ == uuid_text(b.room_id),
            r.hotel_id@ == uuid_text(b.hotel_id),
            r.hotel_name == labels.hotel_name,
            r.room_number == labels.room_number,
            r.room_type == labels.room_type,
            r.check_in_date == labels.check_in_date,
            r.check_out_date == labels.check_out_date,
            r.guests == b.guests,
            r.total_price@ == decimal_text(b.total_price.units as nat, b.total_price.scale as nat),
            r.status@ == b.status.name_spec(),
            r.booking_date == labels.booking_date,
    {
        BookingListResponse {
            id: uuid_string(b.id),
            room_id: uuid_string(b.room_id),
            hotel_id: uuid_string(b.hotel_id),
            hotel_name: labels.hotel_name,
            room_number: labels.room_number,
            room_type: labels.room_type,
            check_in_date: labels.check_in_date,
            check_out_date: labels.check_out_date,
            guests: b.guests,
            total_price: b.total_price.to_text(),
            status: b.status.name(),
            booking_date: labels.booking_date,
        }
    }
}

/// A new user as the service reports it.
pub struct SignupResponse {
    pub id: String,
    pub name: String,
    pub email: String,
    pub role: String,
    pub phone: Option<String>,
}

impl SignupResponse {
    /// The report of the user `id` who signed up in `role`.
    pub fn new(id: u128, name: String, email: String, role: Role, phone: Option<String>) -> (r:
        SignupResponse)
        ensures
            r.id@ == uuid_text(id),
            r.name == name,
            r.email == email,
            r.role@ == role.name_spec(),
            r.phone == phone,
    {
        SignupResponse { id: uuid_string(id), name, email, role: role.name(), phone }
    }
}

} // verus!
