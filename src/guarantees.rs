//! What holds of every ledger the transactions produce, and of runs of several transactions.
use crate::booking::{is_free, BookingRequest};
use crate::error::ErrorKind;
use crate::keyed::{contains_key, index_of, Keyed};
use crate::ledger::{
    after_booking, after_cancel, after_review, booking_outcome, fits_room, lemma_review_keeps_wf,
    score_count, score_sum, LedgerView,
};
use crate::stay::overlaps;
use crate::text::Role;
use vstd::prelude::*;

verus! {

/// One request to book: who asks, for what, and the id the booking would get.
pub struct BookingAttempt {
    pub customer: u128,
    pub request: BookingRequest,
    pub now: i64,
    pub new_id: u128,
}

/// The ledger after the attempts, made one after the other.
pub open spec fn after_attempts(v: LedgerView, attempts: Seq<BookingAttempt>) -> LedgerView
    decreases attempts.len(),
{
    if attempts.len() == 0 {
        v
    } else {
        let a = attempts.last();
        after_booking(after_attempts(v, attempts.drop_last()), a.customer, a.request, a.now, a.new_id)
    }
}

/// The outcome of attempt `k`, made after the attempts before it.
pub open spec fn attempt_outcome(v: LedgerView, attempts: Seq<BookingAttempt>, k: int) -> Result<
    crate::booking::Booking,
    ErrorKind,
> {
    let a = attempts[k];
    booking_outcome(after_attempts(v, attempts.take(k)), a.customer, a.request, a.now, a.new_id)
}

/// Of several requests for one room whose stays overlap pairwise, made one after the other
/// in any order, exactly one succeeds, the first, where the room is free for it and each asker
/// may book it; every other is refused as not available, and the ledger ends holding just the
/// one new booking.
pub proof fn lemma_overlapping_requests_exclusive(
    v: LedgerView,
    room_id: u128,
    attempts: Seq<BookingAttempt>,
)
    requires
        attempts.len() >= 1,
        contains_key(v.rooms, room_id),
        forall|k: int| #![trigger attempts[k]]
            0 <= k < attempts.len() ==> {
                let a = attempts[k];
                &&& a.request.room_id == room_id
                &&& a.request.is_valid()
                &&& a.customer != v.room(room_id).owner_id
                &&& a.request.guests <= v.room(room_id).max_occupancy
            },
        forall|j: int, k: int|
            0 <= j < attempts.len() && 0 <= k < attempts.len() && j != k ==> overlaps(
                (#[trigger] attempts[j]).request.check_in as int,
                attempts[j].request.check_out as int,
                (#[trigger] attempts[k]).request.check_in as int,
                attempts[k].request.check_out as int,
            ),
        is_free(
            room_id,
            attempts[0].request.check_in as int,
            attempts[0].request.check_out as int,
            v.bookings,
        ),
    ensures
        attempt_outcome(v, attempts, 0) is Ok,
        after_attempts(v, attempts) == (LedgerView {
            bookings: v.bookings.push(attempt_outcome(v, attempts, 0)->Ok_0),
            ..v
        }),
        forall|k: int|
            1 <= k < attempts.len() ==> #[trigger] attempt_outcome(v, attempts, k) == Err::<
                crate::booking::Booking,
                ErrorKind,
            >(ErrorKind::RoomNotAvailable),
{
    let a0 = attempts[0];
    assert(attempts.take(0) =~= Seq::<BookingAttempt>::empty());
    let first = booking_outcome(v, a0.customer, a0.request, a0.now, a0.new_id);
    assert(first is Ok);
    let b0 = first->Ok_0;
    let s1 = LedgerView { bookings: v.bookings.push(b0), ..v };
    assert forall|k: int| 1 <= k <= attempts.len() implies after_attempts(v, attempts.take(k))
        == s1 by {
        lemma_after_first_attempt(v, room_id, attempts, k);
    }
    assert(attempts.take(attempts.len() as int) =~= attempts);
    assert forall|k: int| 1 <= k < attempts.len() implies #[trigger] attempt_outcome(
        v,
        attempts,
        k,
    ) == Err::<crate::booking::Booking, ErrorKind>(ErrorKind::RoomNotAvailable) by {
        lemma_after_first_attempt(v, room_id, attempts, k);
        lemma_later_attempt_refused(v, room_id, attempts, k);
    }
}

proof fn lemma_later_attempt_refused(v: LedgerView, room_id: u128, attempts: Seq<BookingAttempt>, k: int)
    requires
        1 <= k < attempts.len(),
        contains_key(v.rooms, room_id),
        forall|k: int| #![trigger attempts[k]]
            0 <= k < attempts.len() ==> {
                let a = attempts[k];
                &&& a.request.room_id == room_id
                &&& a.request.is_valid()
                &&& a.customer != v.room(room_id).owner_id
                &&& a.request.guests <= v.room(room_id).max_occupancy
            },
        forall|j: int, k: int|
            0 <= j < attempts.len() && 0 <= k < attempts.len() && j != k ==> overlaps(
                (#[trigger] attempts[j]).request.check_in as int,
                attempts[j].request.check_out as int,
                (#[trigger] attempts[k]).request.check_in as int,
                attempts[k].request.check_out as int,
            ),
        booking_outcome(v, attempts[0].customer, attempts[0].request, attempts[0].now, attempts[0].new_id) is Ok,
    ensures
        ({
            let b0 = booking_outcome(
                v,
                attempts[0].customer,
                attempts[0].request,
                attempts[0].now,
                attempts[0].new_id,
            )->Ok_0;
            let s1 = LedgerView { bookings: v.bookings.push(b0), ..v };
            booking_outcome(s1, attempts[k].customer, attempts[k].request, attempts[k].now, attempts[k].new_id)
                == Err::<crate::booking::Booking, ErrorKind>(ErrorKind::RoomNotAvailable)
        }),
{
    let a0 = attempts[0];
    let ak = attempts[k];
    let b0 = booking_outcome(v, a0.customer, a0.request, a0.now, a0.new_id)->Ok_0;
    let s1 = LedgerView { bookings: v.bookings.push(b0), ..v };
    let n = v.bookings.len() as int;
    assert(s1.bookings[n] == b0);
    assert(overlaps(
        ak.request.check_in as int,
        ak.request.check_out as int,
        a0.request.check_in as int,
        a0.request.check_out as int,
    ));
    assert(s1.bookings[n].blocks(room_id, ak.request.check_in as int, ak.request.check_out as int));
    assert(!is_free(room_id, ak.request.check_in as int, ak.request.check_out as int, s1.bookings));
}

proof fn lemma_after_first_attempt(v: LedgerView, room_id: u128, attempts: Seq<BookingAttempt>, k: int)
    requires
        1 <= k <= attempts.len(),
        contains_key(v.rooms, room_id),
        forall|k: int| #![trigger attempts[k]]
            0 <= k < attempts.len() ==> {
                let a = attempts[k];
                &&& a.request.room_id == room_id
                &&& a.request.is_valid()
                &&& a.customer != v.room(room_id).owner_id
                &&& a.request.guests <= v.room(room_id).max_occupancy
            },
        forall|j: int, k: int|
            0 <= j < attempts.len() && 0 <= k < attempts.len() && j != k ==> overlaps(
                (#[trigger] attempts[j]).request.check_in as int,
                attempts[j].request.check_out as int,
                (#[trigger] attempts[k]).request.check_in as int,
                attempts[k].request.check_out as int,
            ),
        booking_outcome(v, attempts[0].customer, attempts[0].request, attempts[0].now, attempts[0].new_id) is Ok,
    ensures
        after_attempts(v, attempts.take(k)) == (LedgerView {
            bookings: v.bookings.push(
                booking_outcome(
                    v,
                    attempts[0].customer,
                    attempts[0].request,
                    attempts[0].now,
                    attempts[0].new_id,
                )->Ok_0,
            ),
            ..v
        }),
    decreases k,
{
    let t = attempts.take(k);
    assert(t.drop_last() =~= attempts.take(k - 1));
    assert(t.last() == attempts[k - 1]);
    let a = attempts[k - 1];
    assert(after_attempts(v, t) == after_booking(
        after_attempts(v, attempts.take(k - 1)),
        a.customer,
        a.request,
        a.now,
        a.new_id,
    ));
    if k == 1 {
        assert(attempts.take(0) =~= Seq::<BookingAttempt>::empty());
        assert(after_attempts(v, attempts.take(0)) == v);
    } else {
        lemma_after_first_attempt(v, room_id, attempts, k - 1);
        lemma_later_attempt_refused(v, room_id, attempts, k - 1);
    }
}

/// Once a confirmed booking is cancelled by its customer, a new request at any time for the same room and
/// the same nights succeeds, for any customer who may book the room with guests that fit.
pub proof fn lemma_cancel_frees_stay(
    v: LedgerView,
    customer: u128,
    booking_id: u128,
    next_customer: u128,
    guests: i32,
    now: i64,
    new_id: u128,
)
    requires
        v.wf(),
        contains_key(v.bookings, booking_id),
        v.booking(booking_id).customer_id == customer,
        v.booking(booking_id).is_confirmed(),
        next_customer != v.room(v.booking(booking_id).room_id).owner_id,
        0 < guests <= v.room(v.booking(booking_id).room_id).max_occupancy,
    ensures
        ({
            let b = v.booking(booking_id);
            let req = BookingRequest {
                room_id: b.room_id,
                check_in: b.check_in,
                check_out: b.check_out,
                guests,
            };
            let outcome = booking_outcome(
                after_cancel(v, Role::Customer, customer, booking_id),
                next_customer,
                req,
                now,
                new_id,
            );
            &&& outcome is Ok
            &&& outcome->Ok_0.room_id == b.room_id
            &&& outcome->Ok_0.check_in == b.check_in
            &&& outcome->Ok_0.check_out == b.check_out
            &&& outcome->Ok_0.is_confirmed()
        }),
{
    let k = index_of(v.bookings, booking_id);
    let b = v.booking(booking_id);
    assert(0 <= k < v.bookings.len() && v.bookings[k].key() == booking_id);
    let w = after_cancel(v, Role::Customer, customer, booking_id);
    assert(contains_key(v.rooms, b.room_id));
    assert forall|i: int| 0 <= i < w.bookings.len() implies !(#[trigger] w.bookings[i]).blocks(
        b.room_id,
        b.check_in as int,
        b.check_out as int,
    ) by {
        if i != k {
            assert(w.bookings[i] == v.bookings[i]);
        }
    }
}

/// Every booking of a well-formed ledger is priced at its room's nightly price times its
/// nights, exactly: the units multiply and the decimal places stay.
pub proof fn lemma_total_is_price_times_nights(v: LedgerView, booking_id: u128)
    requires
        v.wf(),
        contains_key(v.bookings, booking_id),
    ensures
        ({
            let b = v.booking(booking_id);
            let price = v.room(b.room_id).price_per_night;
            &&& b.total_price.units == price.units * (b.check_out - b.check_in)
            &&& b.total_price.scale == price.scale
            &&& b.check_out - b.check_in >= 1
        }),
{
    let k = index_of(v.bookings, booking_id);
    assert(0 <= k < v.bookings.len() && v.bookings[k].key() == booking_id);
    let b = v.bookings[k];
    let price = v.room(b.room_id).price_per_night;
    assert(fits_room(b, v.room(b.room_id)));
    assert(price.units * (b.check_out - b.check_in) <= crate::money::MAX_NIGHTLY_UNITS
        * 0xffff_ffff) by (nonlinear_arith)
        requires
            price.units <= crate::money::MAX_NIGHTLY_UNITS,
            0 <= b.check_out - b.check_in <= 0xffff_ffff,
    ;
}

/// Every hotel's aggregate holds the sum and the count of the scores of all its reviews, so
/// its rating, the sum over the count, is their exact mean.
pub proof fn lemma_rating_is_mean(v: LedgerView, hotel_id: u128)
    requires
        v.wf(),
        contains_key(v.hotels, hotel_id),
    ensures
        v.hotel(hotel_id).rating_sum == score_sum(v.reviews, hotel_id),
        v.hotel(hotel_id).total_reviews == score_count(v.reviews, hotel_id),
{
    let k = index_of(v.hotels, hotel_id);
    assert(0 <= k < v.hotels.len() && v.hotels[k].key() == hotel_id);
}

/// One request to review: who asks, for which booking, with what score and comment, on which
/// day, and the id the review would get.
pub struct ReviewAttempt {
    pub customer: u128,
    pub booking_id: u128,
    pub rating: i32,
    pub comment: Option<String>,
    pub today: i32,
    pub new_id: u128,
}

/// The ledger after the review requests, made one after the other.
pub open spec fn after_reviews(v: LedgerView, attempts: Seq<ReviewAttempt>) -> LedgerView
    decreases attempts.len(),
{
    if attempts.len() == 0 {
        v
    } else {
        let a = attempts.last();
        after_review(
            after_reviews(v, attempts.drop_last()),
            a.customer,
            a.booking_id,
            a.rating,
            a.comment,
            a.today,
            a.new_id,
        )
    }
}

/// After any run of review requests, accepted or refused, in any order, every hotel's
/// aggregate holds the sum and the count of the scores of all its accepted reviews, so its
/// rating is their exact mean: no score is lost.
pub proof fn lemma_reviews_keep_rating_exact(v: LedgerView, attempts: Seq<ReviewAttempt>)
    requires
        v.wf(),
        v.reviews.len() + attempts.len() < u64::MAX,
    ensures
        after_reviews(v, attempts).wf(),
        after_reviews(v, attempts).reviews.len() <= v.reviews.len() + attempts.len(),
        after_reviews(v, attempts).ratings_exact(),
    decreases attempts.len(),
{
    if attempts.len() > 0 {
        let rest = attempts.drop_last();
        lemma_reviews_keep_rating_exact(v, rest);
        let a = attempts.last();
        lemma_review_keeps_wf(
            after_reviews(v, rest),
            a.customer,
            a.booking_id,
            a.rating,
            a.comment,
            a.today,
            a.new_id,
        );
    }
}

} // verus!
