//! Reviews of completed stays and the running rating of each hotel.
use crate::booking::{Booking, BookingStatus};
use crate::error::ErrorKind;
use crate::ident::{parse_uuid, uuid_of};
use crate::money::{quotient_string, quotient_text};
use vstd::prelude::*;

verus! {

/// A customer's score, from 1 to 5, of a completed stay.
#[derive(Debug)]
pub struct Review {
    pub id: u128,
    pub booking_id: u128,
    pub customer_id: u128,
    pub hotel_id: u128,
    pub rating: i32,
    pub comment: Option<String>,
}

/// A hotel with its rating aggregate: the sum of all review scores and their count, so that
/// the rating, their mean, is held exactly.
#[derive(Clone, Copy, Debug, PartialEq, Eq, Structural)]
pub struct Hotel {
    pub id: u128,
    pub owner_id: u128,
    pub rating_sum: u128,
    pub total_reviews: u64,
}

/// A score that a review may give.
pub open spec fn is_score(rating: int) -> bool {
    1 <= rating <= 5
}

impl Hotel {
    /// A hotel with no reviews: its rating is 0.
    pub fn new(id: u128, owner_id: u128) -> (r: Hotel)
        ensures
            r == (Hotel { id, owner_id, rating_sum: 0, total_reviews: 0 }),
    {
        Hotel { id, owner_id, rating_sum: 0, total_reviews: 0 }
    }

    /// The rating as a fraction `sum / count`: the mean of the scores, or 0 with no review.
    pub open spec fn rating_fraction(self) -> (int, int) {
        if self.total_reviews == 0 {
            (0, 1)
        } else {
            (self.rating_sum as int, self.total_reviews as int)
        }
    }

    /// The aggregate after one more review with score `rating`: the new mean is
    /// `(old_mean * old_count + rating) / (old_count + 1)`, with the old mean times the old
    /// count held exactly as the sum.
    pub open spec fn with_score(self, rating: int) -> Hotel {
        Hotel {
            rating_sum: (self.rating_sum + rating) as u128,
            total_reviews: (self.total_reviews + 1) as u64,
            ..self
        }
    }

    /// Adds one review's score to the aggregate.
    pub fn add_score(self, rating: i32) -> (r: Hotel)
        requires
            is_score(rating as int),
            self.total_reviews < u64::MAX,
            self.rating_sum + 5 <= u128::MAX,
        ensures
            r == self.with_score(rating as int),
    {
        Hotel {
            rating_sum: self.rating_sum + rating as u128,
            total_reviews: self.total_reviews + 1,
            ..self
        }
    }

    /// The rating in decimal, as the quotient of the sum by the count (`3` for scores 4 and 2).
    pub fn rating_text(&self) -> (r: String)
        ensures
            r@ == quotient_text(self.rating_fraction().0, self.rating_fraction().1),
    {
        if self.total_reviews == 0 {
            quotient_string(0, 1)
        } else {
            quotient_string(self.rating_sum, self.total_reviews)
        }
    }
}

/// The outcome of the checks made before any booking is held: the caller must be a
/// customer, the score from 1 to 5, and the booking id an identifier.
pub open spec fn review_fields(is_customer: bool, booking_id: Option<u128>, rating: i32) -> Result<
    u128,
    ErrorKind,
> {
    if !is_customer {
        Err(ErrorKind::Forbidden)
    } else if !is_score(rating as int) {
        Err(ErrorKind::InvalidRequest)
    } else if booking_id is None {
        Err(ErrorKind::InvalidRequest)
    } else {
        Ok(booking_id->0)
    }
}

/// Checks the fields of a review request once they have been read.
pub fn check_review_fields(is_customer: bool, booking_id: Option<u128>, rating: i32) -> (r: Result<
    u128,
    ErrorKind,
>)
    ensures
        r == review_fields(is_customer, booking_id, rating),
{
    if !is_customer {
        return Err(ErrorKind::Forbidden);
    }
    if rating < 1 || rating > 5 {
        return Err(ErrorKind::InvalidRequest);
    }
    match booking_id {
        Some(id) => Ok(id),
        None => Err(ErrorKind::InvalidRequest),
    }
}

/// Reads and checks a review request, the booking id as a UUID.
pub fn validate_review_request(is_customer: bool, booking_id: &str, rating: i32) -> (r: Result<
    u128,
    ErrorKind,
>)
    ensures
        r == review_fields(is_customer, uuid_of(booking_id@), rating),
{
    let id = parse_uuid(booking_id);
    check_review_fields(is_customer, id, rating)
}

/// The booking's stay is confirmed and ended before `today`.
pub open spec fn is_completed_stay(booking: Booking, today: int) -> bool {
    booking.is_confirmed() && booking.check_out < today
}

/// The review that `customer` gets for `booking`, or why not: only the customer of the
/// booking may review it, only once, and only after a confirmed stay has ended.
pub open spec fn review_decision(
    customer: u128,
    booking: Booking,
    already_reviewed: bool,
    rating: i32,
    comment: Option<String>,
    today: i32,
    new_id: u128,
) -> Result<Review, ErrorKind> {
    if booking.customer_id != customer {
        Err(ErrorKind::Forbidden)
    } else if !is_completed_stay(booking, today as int) {
        Err(ErrorKind::BookingNotEligible)
    } else if already_reviewed {
        Err(ErrorKind::AlreadyReviewed)
    } else {
        Ok(
            Review {
                id: new_id,
                booking_id: booking.id,
                customer_id: customer,
                hotel_id: booking.hotel_id,
                rating,
                comment,
            },
        )
    }
}

/// Decides a review while `booking` is held; `already_reviewed` tells whether a review of
/// it exists.
pub fn decide_review(
    customer: u128,
    booking: &Booking,
    already_reviewed: bool,
    rating: i32,
    comment: Option<String>,
    today: i32,
    new_id: u128,
) -> (r: Result<Review, ErrorKind>)
    ensures
        r == review_decision(customer, *booking, already_reviewed, rating, comment, today, new_id),
{
    if booking.customer_id != customer {
        return Err(ErrorKind::Forbidden);
    }
    if booking.status != BookingStatus::Confirmed || booking.check_out >= today {
        return Err(ErrorKind::BookingNotEligible);
    }
    if already_reviewed {
        return Err(ErrorKind::AlreadyReviewed);
    }
    Ok(
        Review {
            id: new_id,
            booking_id: booking.id,
            customer_id: customer,
            hotel_id: booking.hotel_id,
            rating,
            comment,
        },
    )
}

} // verus!
