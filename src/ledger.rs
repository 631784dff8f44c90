//! The state that the transactions work on, and the transactions themselves. Each takes the
//! ledger by `&mut`, which holds every record it reads for the whole call: two requests for one
//! room or one hotel run one after the other. A refused request leaves the ledger as it was.
use crate::booking::{
    booking_decision, cancel_decision, decide_booking, decide_cancel, is_free, Booking,
    BookingRequest, BookingStatus, Room,
};
use crate::error::ErrorKind;
use crate::keyed::{contains_key, find_key, index_of, keys_unique, lemma_index_of, Keyed};
use crate::messages::{status_selected, BookingListQuery};
use crate::money::Money;
use crate::review::{decide_review, is_score, review_decision, Hotel, Review};
use crate::stay::overlaps;
use crate::text::Role;
use vstd::prelude::*;

verus! {

/// What a ledger holds.
pub struct LedgerView {
    pub hotels: Seq<Hotel>,
    pub rooms: Seq<Room>,
    pub bookings: Seq<Booking>,
    pub reviews: Seq<Review>,
}

/// The sum of the scores of the reviews of `hotel_id`.
pub open spec fn score_sum(reviews: Seq<Review>, hotel_id: u128) -> int
    decreases reviews.len(),
{
    if reviews.len() == 0 {
        0
    } else {
        score_sum(reviews.drop_last(), hotel_id) + if reviews.last().hotel_id == hotel_id {
            reviews.last().rating as int
        } else {
            0
        }
    }
}

/// The number of reviews of `hotel_id`.
pub open spec fn score_count(reviews: Seq<Review>, hotel_id: u128) -> int
    decreases reviews.len(),
{
    if reviews.len() == 0 {
        0
    } else {
        score_count(reviews.drop_last(), hotel_id) + if reviews.last().hotel_id == hotel_id {
            1int
        } else {
            0
        }
    }
}

/// `booking` agrees with `room`: its hotel, a stay of at least one night, guests that fit,
/// a customer who does not own the hotel, and the total of the nights at the room's price.
pub open spec fn fits_room(booking: Booking, room: Room) -> bool {
    &&& booking.room_id == room.id
    &&& booking.hotel_id == room.hotel_id
    &&& booking.check_in < booking.check_out
    &&& 0 < booking.guests <= room.max_occupancy
    &&& booking.customer_id != room.owner_id
    &&& booking.total_price == room.price_per_night.times_spec(
        (booking.check_out - booking.check_in) as nat,
    )
}

impl LedgerView {
    pub open spec fn hotel(self, id: u128) -> Hotel {
        self.hotels[index_of(self.hotels, id)]
    }

    pub open spec fn room(self, id: u128) -> Room {
        self.rooms[index_of(self.rooms, id)]
    }

    pub open spec fn booking(self, id: u128) -> Booking {
        self.bookings[index_of(self.bookings, id)]
    }

    pub open spec fn ids_unique(self) -> bool {
        &&& keys_unique(self.hotels)
        &&& keys_unique(self.rooms)
        &&& keys_unique(self.bookings)
        &&& keys_unique(self.reviews)
    }

    /// Each room belongs to a hotel of the ledger and carries that hotel's owner.
    pub open spec fn rooms_placed(self) -> bool {
        forall|i: int|
            0 <= i < self.rooms.len() ==> {
                let r = #[trigger] self.rooms[i];
                &&& contains_key(self.hotels, r.hotel_id)
                &&& self.hotel(r.hotel_id).owner_id == r.owner_id
                &&& r.price_per_night.is_nightly_price()
            }
    }

    /// Each booking is of a room of the ledger and agrees with it.
    pub open spec fn bookings_fit(self) -> bool {
        forall|i: int|
            0 <= i < self.bookings.len() ==> {
                let b = #[trigger] self.bookings[i];
                &&& contains_key(self.rooms, b.room_id)
                &&& fits_room(b, self.room(b.room_id))
            }
    }

    /// No two confirmed bookings of one room share a night.
    pub open spec fn confirmed_disjoint(self) -> bool {
        forall|i: int, j: int|
            0 <= i < self.bookings.len() && 0 <= j < self.bookings.len() && i != j
                && (#[trigger] self.bookings[i]).is_confirmed()
                && (#[trigger] self.bookings[j]).is_confirmed() && self.bookings[i].room_id
                == self.bookings[j].room_id ==> !overlaps(
                self.bookings[i].check_in as int,
                self.bookings[i].check_out as int,
                self.bookings[j].check_in as int,
                self.bookings[j].check_out as int,
            )
    }

    /// Each review is of a hotel of the ledger, with a score from 1 to 5.
    pub open spec fn reviews_placed(self) -> bool {
        forall|i: int|
            0 <= i < self.reviews.len() ==> {
                let r = #[trigger] self.reviews[i];
                &&& contains_key(self.hotels, r.hotel_id)
                &&& is_score(r.rating as int)
            }
    }

    /// Each hotel's aggregate is the sum and the count of the scores of its reviews.
    pub open spec fn ratings_exact(self) -> bool {
        forall|i: int|
            0 <= i < self.hotels.len() ==> {
                let h = #[trigger] self.hotels[i];
                &&& h.rating_sum == score_sum(self.reviews, h.id)
                &&& h.total_reviews == score_count(self.reviews, h.id)
            }
    }

    pub open spec fn wf(self) -> bool {
        &&& self.ids_unique()
        &&& self.rooms_placed()
        &&& self.bookings_fit()
        &&& self.confirmed_disjoint()
        &&& self.reviews_placed()
        &&& self.ratings_exact()
    }
}

/// Adding a hotel: refused where its id is taken.
pub open spec fn hotel_outcome(v: LedgerView, id: u128, owner_id: u128) -> Result<Hotel, ErrorKind> {
    if contains_key(v.hotels, id) {
        Err(ErrorKind::HotelAlreadyExists)
    } else {
        Ok(Hotel { id, owner_id, rating_sum: 0, total_reviews: 0 })
    }
}

/// Adding a room for `owner_id`: the price must be positive and at most
/// `MAX_NIGHTLY_UNITS` units, the occupancy positive, the hotel must exist and belong to
/// `owner_id`, and the room id must be new.
pub open spec fn room_outcome(
    v: LedgerView,
    owner_id: u128,
    id: u128,
    hotel_id: u128,
    price_per_night: Money,
    max_occupancy: i32,
) -> Result<Room, ErrorKind> {
    if price_per_night.units == 0 || !price_per_night.is_nightly_price() || max_occupancy <= 0 {
        Err(ErrorKind::InvalidRequest)
    } else if !contains_key(v.hotels, hotel_id) {
        Err(ErrorKind::HotelNotFound)
    } else if v.hotel(hotel_id).owner_id != owner_id {
        Err(ErrorKind::Forbidden)
    } else if contains_key(v.rooms, id) {
        Err(ErrorKind::RoomAlreadyExists)
    } else {
        Ok(Room { id, hotel_id, owner_id, price_per_night, max_occupancy })
    }
}

/// Booking a room: refused where the room does not exist, else decided against the
/// ledger's bookings.
pub open spec fn booking_outcome(
    v: LedgerView,
    customer: u128,
    req: BookingRequest,
    now: i64,
    new_id: u128,
) -> Result<Booking, ErrorKind> {
    if !contains_key(v.rooms, req.room_id) {
        Err(ErrorKind::RoomNotFound)
    } else {
        booking_decision(customer, v.room(req.room_id), req, v.bookings, now, new_id)
    }
}

/// The ledger after a booking attempt: the new booking added, or nothing changed.
pub open spec fn after_booking(
    v: LedgerView,
    customer: u128,
    req: BookingRequest,
    now: i64,
    new_id: u128,
) -> LedgerView {
    match booking_outcome(v, customer, req, now, new_id) {
        Ok(b) => LedgerView { bookings: v.bookings.push(b), ..v },
        Err(_) => v,
    }
}

/// Cancelling a booking: only a customer may cancel, and only their own booking; a cancelled
/// booking stays cancelled.
pub open spec fn cancel_outcome(v: LedgerView, role: Role, customer: u128, booking_id: u128) -> Result<
    Booking,
    ErrorKind,
> {
    if role != Role::Customer {
        Err(ErrorKind::Forbidden)
    } else if !contains_key(v.bookings, booking_id) {
        Err(ErrorKind::BookingNotFound)
    } else {
        cancel_decision(role, customer, v.booking(booking_id))
    }
}

/// The ledger after a cancellation: the booking's status set, nothing else changed.
pub open spec fn after_cancel(v: LedgerView, role: Role, customer: u128, booking_id: u128) -> LedgerView {
    match cancel_outcome(v, role, customer, booking_id) {
        Ok(b) => LedgerView {
            bookings: v.bookings.update(index_of(v.bookings, booking_id), b),
            ..v
        },
        Err(_) => v,
    }
}

/// Reviewing a booking: the score must be from 1 to 5 and the booking must exist; then the
/// review is decided against the booking and the reviews already made.
pub open spec fn review_outcome(
    v: LedgerView,
    customer: u128,
    booking_id: u128,
    rating: i32,
    comment: Option<String>,
    today: i32,
    new_id: u128,
) -> Result<Review, ErrorKind> {
    if !is_score(rating as int) {
        Err(ErrorKind::InvalidRequest)
    } else if !contains_key(v.bookings, booking_id) {
        Err(ErrorKind::BookingNotFound)
    } else {
        review_decision(
            customer,
            v.booking(booking_id),
            contains_key(v.reviews, booking_id),
            rating,
            comment,
            today,
            new_id,
        )
    }
}

/// The ledger after a review: the review added and its score added to its hotel's
/// aggregate, or nothing changed.
pub open spec fn after_review(
    v: LedgerView,
    customer: u128,
    booking_id: u128,
    rating: i32,
    comment: Option<String>,
    today: i32,
    new_id: u128,
) -> LedgerView {
    match review_outcome(v, customer, booking_id, rating, comment, today, new_id) {
        Ok(r) => LedgerView {
            reviews: v.reviews.push(r),
            hotels: v.hotels.update(
                index_of(v.hotels, r.hotel_id),
                v.hotel(r.hotel_id).with_score(rating as int),
            ),
            ..v
        },
        Err(_) => v,
    }
}

proof fn lemma_scores_push(s: Seq<Review>, r: Review, hotel_id: u128)
    ensures
        score_sum(s.push(r), hotel_id) == score_sum(s, hotel_id) + if r.hotel_id == hotel_id {
            r.rating as int
        } else {
            0
        },
        score_count(s.push(r), hotel_id) == score_count(s, hotel_id) + if r.hotel_id
            == hotel_id {
            1int
        } else {
            0
        },
{
    assert(s.push(r).drop_last() =~= s);
}

proof fn lemma_scores_absent(s: Seq<Review>, hotel_id: u128)
    requires
        forall|i: int| 0 <= i < s.len() ==> (#[trigger] s[i]).hotel_id != hotel_id,
    ensures
        score_sum(s, hotel_id) == 0,
        score_count(s, hotel_id) == 0,
    decreases s.len(),
{
    if s.len() > 0 {
        lemma_scores_absent(s.drop_last(), hotel_id);
    }
}

proof fn lemma_scores_bounded(s: Seq<Review>, hotel_id: u128)
    requires
        forall|i: int| 0 <= i < s.len() ==> is_score((#[trigger] s[i]).rating as int),
    ensures
        0 <= score_count(s, hotel_id) <= s.len(),
        score_count(s, hotel_id) <= score_sum(s, hotel_id) <= 5 * score_count(s, hotel_id),
    decreases s.len(),
{
    if s.len() > 0 {
        assert(is_score(s[s.len() - 1].rating as int));
        lemma_scores_bounded(s.drop_last(), hotel_id);
    }
}

proof fn lemma_wf_add_hotel(v: LedgerView, h: Hotel)
    requires
        v.wf(),
        !contains_key(v.hotels, h.id),
        h.rating_sum == 0,
        h.total_reviews == 0,
    ensures
        (LedgerView { hotels: v.hotels.push(h), ..v }).wf(),
{
    let w = LedgerView { hotels: v.hotels.push(h), ..v };
    assert forall|i: int| 0 <= i < w.rooms.len() implies {
        let r = #[trigger] w.rooms[i];
        &&& contains_key(w.hotels, r.hotel_id)
        &&& w.hotel(r.hotel_id).owner_id == r.owner_id
        &&& r.price_per_night.is_nightly_price()
    } by {
        let r = w.rooms[i];
        assert(v.rooms[i] == r);
        let k = index_of(v.hotels, r.hotel_id);
        assert(w.hotels[k] == v.hotels[k]);
        lemma_index_of(w.hotels, r.hotel_id, k);
    }
    assert forall|i: int| 0 <= i < w.reviews.len() implies {
        let r = #[trigger] w.reviews[i];
        &&& contains_key(w.hotels, r.hotel_id)
        &&& is_score(r.rating as int)
    } by {
        let r = w.reviews[i];
        assert(v.reviews[i] == r);
        let k = index_of(v.hotels, r.hotel_id);
        assert(w.hotels[k] == v.hotels[k]);
    }
    assert forall|i: int| 0 <= i < v.reviews.len() implies (#[trigger] v.reviews[i]).hotel_id
        != h.id by {
        assert(contains_key(v.hotels, v.reviews[i].hotel_id));
    }
    lemma_scores_absent(v.reviews, h.id);
    assert forall|i: int| 0 <= i < w.hotels.len() implies {
        let x = #[trigger] w.hotels[i];
        &&& x.rating_sum == score_sum(w.reviews, x.id)
        &&& x.total_reviews == score_count(w.reviews, x.id)
    } by {
        if i < v.hotels.len() {
            assert(w.hotels[i] == v.hotels[i]);
        }
    }
}

proof fn lemma_wf_add_room(v: LedgerView, r: Room)
    requires
        v.wf(),
        !contains_key(v.rooms, r.id),
        contains_key(v.hotels, r.hotel_id),
        v.hotel(r.hotel_id).owner_id == r.owner_id,
        r.price_per_night.is_nightly_price(),
    ensures
        (LedgerView { rooms: v.rooms.push(r), ..v }).wf(),
{
    let w = LedgerView { rooms: v.rooms.push(r), ..v };
    assert forall|i: int| 0 <= i < w.rooms.len() implies {
        let x = #[trigger] w.rooms[i];
        &&& contains_key(w.hotels, x.hotel_id)
        &&& w.hotel(x.hotel_id).owner_id == x.owner_id
        &&& x.price_per_night.is_nightly_price()
    } by {
        if i < v.rooms.len() {
            assert(w.rooms[i] == v.rooms[i]);
        }
    }
    assert forall|i: int| 0 <= i < w.bookings.len() implies {
        let b = #[trigger] w.bookings[i];
        &&& contains_key(w.rooms, b.room_id)
        &&& fits_room(b, w.room(b.room_id))
    } by {
        let b = w.bookings[i];
        let k = index_of(v.rooms, b.room_id);
        assert(w.rooms[k] == v.rooms[k]);
        lemma_index_of(w.rooms, b.room_id, k);
    }
}

proof fn lemma_wf_add_booking(v: LedgerView, b: Booking)
    requires
        v.wf(),
        !contains_key(v.bookings, b.id),
        contains_key(v.rooms, b.room_id),
        fits_room(b, v.room(b.room_id)),
        b.is_confirmed() ==> is_free(b.room_id, b.check_in as int, b.check_out as int, v.bookings),
    ensures
        (LedgerView { bookings: v.bookings.push(b), ..v }).wf(),
{
    let w = LedgerView { bookings: v.bookings.push(b), ..v };
    let n = v.bookings.len() as int;
    assert forall|i: int| 0 <= i < w.bookings.len() implies {
        let x = #[trigger] w.bookings[i];
        &&& contains_key(w.rooms, x.room_id)
        &&& fits_room(x, w.room(x.room_id))
    } by {
        if i < n {
            assert(w.bookings[i] == v.bookings[i]);
        }
    }
    assert forall|i: int, j: int|
        0 <= i < w.bookings.len() && 0 <= j < w.bookings.len() && i != j
            && (#[trigger] w.bookings[i]).is_confirmed()
            && (#[trigger] w.bookings[j]).is_confirmed() && w.bookings[i].room_id
            == w.bookings[j].room_id implies !overlaps(
        w.bookings[i].check_in as int,
        w.bookings[i].check_out as int,
        w.bookings[j].check_in as int,
        w.bookings[j].check_out as int,
    ) by {
        if i == n {
            assert(w.bookings[j] == v.bookings[j]);
            assert(!v.bookings[j].blocks(b.room_id, b.check_in as int, b.check_out as int));
        } else if j == n {
            assert(w.bookings[i] == v.bookings[i]);
            assert(!v.bookings[i].blocks(b.room_id, b.check_in as int, b.check_out as int));
        } else {
            assert(w.bookings[i] == v.bookings[i]);
            assert(w.bookings[j] == v.bookings[j]);
        }
    }
}

proof fn lemma_wf_cancel(v: LedgerView, k: int, c: Booking)
    requires
        v.wf(),
        0 <= k < v.bookings.len(),
        c == (Booking { status: BookingStatus::Cancelled, ..v.bookings[k] }),
    ensures
        (LedgerView { bookings: v.bookings.update(k, c), ..v }).wf(),
{
    let w = LedgerView { bookings: v.bookings.update(k, c), ..v };
    assert forall|i: int, j: int|
        0 <= i < w.bookings.len() && 0 <= j < w.bookings.len() && #[trigger] w.bookings[i].key()
            == #[trigger] w.bookings[j].key() implies i == j by {
        assert(v.bookings[i].key() == w.bookings[i].key());
        assert(v.bookings[j].key() == w.bookings[j].key());
    }
    assert forall|i: int| 0 <= i < w.bookings.len() implies {
        let x = #[trigger] w.bookings[i];
        &&& contains_key(w.rooms, x.room_id)
        &&& fits_room(x, w.room(x.room_id))
    } by {
        assert(v.bookings[i].room_id == w.bookings[i].room_id);
    }
    assert forall|i: int, j: int|
        0 <= i < w.bookings.len() && 0 <= j < w.bookings.len() && i != j
            && (#[trigger] w.bookings[i]).is_confirmed()
            && (#[trigger] w.bookings[j]).is_confirmed() && w.bookings[i].room_id
            == w.bookings[j].room_id implies !overlaps(
        w.bookings[i].check_in as int,
        w.bookings[i].check_out as int,
        w.bookings[j].check_in as int,
        w.bookings[j].check_out as int,
    ) by {
        assert(w.bookings[i] == v.bookings[i]);
        assert(w.bookings[j] == v.bookings[j]);
    }
}

proof fn lemma_wf_add_review(v: LedgerView, r: Review, k: int)
    requires
        v.wf(),
        contains_key(v.hotels, r.hotel_id),
        k == index_of(v.hotels, r.hotel_id),
        is_score(r.rating as int),
        !contains_key(v.reviews, r.booking_id),
        v.hotels[k].rating_sum + r.rating <= u128::MAX,
        v.hotels[k].total_reviews + 1 <= u64::MAX,
    ensures
        (LedgerView {
            reviews: v.reviews.push(r),
            hotels: v.hotels.update(k, v.hotels[k].with_score(r.rating as int)),
            ..v
        }).wf(),
{
    let w = LedgerView {
        reviews: v.reviews.push(r),
        hotels: v.hotels.update(k, v.hotels[k].with_score(r.rating as int)),
        ..v
    };
    assert(0 <= k < v.hotels.len() && v.hotels[k].key() == r.hotel_id);
    assert forall|i: int| 0 <= i < w.hotels.len() implies (#[trigger] w.hotels[i]).key()
        == v.hotels[i].key() && w.hotels[i].owner_id == v.hotels[i].owner_id by {}
    assert forall|i: int, j: int|
        0 <= i < w.hotels.len() && 0 <= j < w.hotels.len() && #[trigger] w.hotels[i].key()
            == #[trigger] w.hotels[j].key() implies i == j by {
        assert(v.hotels[i].key() == w.hotels[i].key());
        assert(v.hotels[j].key() == w.hotels[j].key());
    }
    assert(keys_unique(w.reviews));
    assert forall|i: int| 0 <= i < w.rooms.len() implies {
        let x = #[trigger] w.rooms[i];
        &&& contains_key(w.hotels, x.hotel_id)
        &&& w.hotel(x.hotel_id).owner_id == x.owner_id
        &&& x.price_per_night.is_nightly_price()
    } by {
        let x = w.rooms[i];
        let m = index_of(v.hotels, x.hotel_id);
        assert(w.hotels[m].key() == x.hotel_id);
        lemma_index_of(w.hotels, x.hotel_id, m);
    }
    assert forall|i: int| 0 <= i < w.reviews.len() implies {
        let x = #[trigger] w.reviews[i];
        &&& contains_key(w.hotels, x.hotel_id)
        &&& is_score(x.rating as int)
    } by {
        let x = w.reviews[i];
        if i < v.reviews.len() {
            assert(v.reviews[i] == x);
        }
        let m = index_of(v.hotels, x.hotel_id);
        assert(w.hotels[m].key() == x.hotel_id);
    }
    assert forall|i: int| 0 <= i < w.hotels.len() implies {
        let x = #[trigger] w.hotels[i];
        &&& x.rating_sum == score_sum(w.reviews, x.id)
        &&& x.total_reviews == score_count(w.reviews, x.id)
    } by {
        lemma_scores_push(v.reviews, r, w.hotels[i].id);
        if i != k {
            assert(v.hotels[i].key() != v.hotels[k].key());
        }
    }
}

/// An accepted or a refused review request keeps a well-formed ledger well-formed: in
/// particular each hotel's aggregate stays the sum and the count of its reviews.
pub proof fn lemma_review_keeps_wf(
    v: LedgerView,
    customer: u128,
    booking_id: u128,
    rating: i32,
    comment: Option<String>,
    today: i32,
    new_id: u128,
)
    requires
        v.wf(),
        v.reviews.len() < u64::MAX,
    ensures
        after_review(v, customer, booking_id, rating, comment, today, new_id).wf(),
        after_review(v, customer, booking_id, rating, comment, today, new_id).reviews.len()
            <= v.reviews.len() + 1,
{
    let outcome = review_outcome(v, customer, booking_id, rating, comment, today, new_id);
    if outcome is Ok {
        let r = outcome->Ok_0;
        let kb = index_of(v.bookings, booking_id);
        assert(0 <= kb < v.bookings.len() && v.bookings[kb].key() == booking_id);
        let b = v.bookings[kb];
        assert(contains_key(v.rooms, b.room_id));
        let kr = index_of(v.rooms, b.room_id);
        assert(0 <= kr < v.rooms.len() && v.rooms[kr].key() == b.room_id);
        assert(contains_key(v.hotels, v.rooms[kr].hotel_id));
        assert(r.hotel_id == b.hotel_id);
        let k = index_of(v.hotels, r.hotel_id);
        assert(0 <= k < v.hotels.len() && v.hotels[k].key() == r.hotel_id);
        lemma_scores_bounded(v.reviews, r.hotel_id);
        lemma_wf_add_review(v, r, k);
    }
}

/// A copy of `r`, field for field.
fn copy_review(r: &Review) -> (c: Review)
    ensures
        c == *r,
{
    let comment = match &r.comment {
        Some(text) => Some(text.clone()),
        None => None,
    };
    Review {
        id: r.id,
        booking_id: r.booking_id,
        customer_id: r.customer_id,
        hotel_id: r.hotel_id,
        rating: r.rating,
        comment,
    }
}

/// The bookings of `customer` that the status filter selects.
pub open spec fn listed_for(customer: u128, filter: Option<String>) -> spec_fn(Booking) -> bool {
    |b: Booking| b.customer_id == customer && status_selected(filter, b.status)
}

/// Each booking was made no earlier than the ones after it.
pub open spec fn newest_first(s: Seq<Booking>) -> bool {
    forall|i: int, j: int| 0 <= i < j < s.len() ==> s[i].booked_at >= s[j].booked_at
}

/// Where a booking made at `t` goes in a list kept newest first: after every booking made no
/// earlier, before every booking made earlier.
fn insertion_point(s: &Vec<Booking>, t: i64) -> (r: usize)
    requires
        newest_first(s@),
    ensures
        r <= s@.len(),
        forall|k: int| 0 <= k < r ==> s@[k].booked_at >= t,
        forall|k: int| r <= k < s@.len() ==> s@[k].booked_at < t,
{
    let mut j: usize = 0;
    while j < s.len() && s[j].booked_at >= t
        invariant
            j <= s@.len(),
            forall|k: int| 0 <= k < j ==> s@[k].booked_at >= t,
        decreases s@.len() - j,
    {
        j += 1;
    }
    j
}

proof fn lemma_insert_keeps_order(s: Seq<Booking>, pos: int, b: Booking)
    requires
        newest_first(s),
        0 <= pos <= s.len(),
        forall|k: int| 0 <= k < pos ==> s[k].booked_at >= b.booked_at,
        forall|k: int| pos <= k < s.len() ==> s[k].booked_at < b.booked_at,
    ensures
        newest_first(s.insert(pos, b)),
{
    let t = s.insert(pos, b);
    assert forall|i: int, j: int| 0 <= i < j < t.len() implies t[i].booked_at >= t[j].booked_at by {
        if j < pos {
            assert(t[i] == s[i] && t[j] == s[j]);
        } else if j == pos {
            assert(t[i] == s[i]);
        } else if i < pos {
            assert(t[i] == s[i] && t[j] == s[j - 1]);
        } else if i == pos {
            assert(t[j] == s[j - 1]);
        } else {
            assert(t[i] == s[i - 1] && t[j] == s[j - 1]);
        }
    }
}

/// The bookings among `bookings` of `customer`, a caller in `role`, that `query` selects,
/// newest first.
/// Only a customer may list bookings.
pub fn select_bookings(
    role: Role,
    customer: u128,
    query: &BookingListQuery,
    bookings: &Vec<Booking>,
) -> (r: Result<Vec<Booking>, ErrorKind>)
    ensures
        select_spec(role, customer, query.status, bookings@, r),
{
    if role != Role::Customer {
        return Err(ErrorKind::Forbidden);
    }
    let ghost pred = listed_for(customer, query.status);
    let mut out: Vec<Booking> = Vec::new();
    let mut i: usize = 0;
    proof {
        reveal(Seq::filter);
        assert(bookings@.take(0).len() == 0);
        assert(out@ =~= bookings@.take(0).filter(pred));
    }
    while i < bookings.len()
        invariant
            0 <= i <= bookings@.len(),
            pred == listed_for(customer, query.status),
            out@.to_multiset() == bookings@.take(i as int).filter(pred).to_multiset(),
            newest_first(out@),
        decreases bookings@.len() - i,
    {
        let b = bookings[i];
        let ghost before = bookings@.take(i as int).filter(pred);
        proof {
            let s = bookings@.take(i + 1);
            assert(s.drop_last() =~= bookings@.take(i as int));
            assert(s.last() == b);
            reveal(Seq::filter);
        }
        if b.customer_id == customer && query.selects(b.status) {
            let ghost old_out = out@;
            let pos = insertion_point(&out, b.booked_at);
            out.insert(pos, b);
            proof {
                vstd::seq_lib::to_multiset_insert(old_out, pos as int, b);
                vstd::seq_lib::to_multiset_build(before, b);
                lemma_insert_keeps_order(old_out, pos as int, b);
            }
        }
        i += 1;
    }
    proof {
        assert(bookings@.take(bookings@.len() as int) =~= bookings@);
    }
    Ok(out)
}

/// What a listing of `bookings` for `customer`, a caller in `role`, must be: refused unless
/// the caller is a customer, else each selected booking exactly once, newest first.
pub open spec fn select_spec(
    role: Role,
    customer: u128,
    filter: Option<String>,
    bookings: Seq<Booking>,
    r: Result<Vec<Booking>, ErrorKind>,
) -> bool {
    if role != Role::Customer {
        r == Err::<Vec<Booking>, ErrorKind>(ErrorKind::Forbidden)
    } else {
        &&& r is Ok
        &&& r->Ok_0@.to_multiset() == bookings.filter(listed_for(customer, filter)).to_multiset()
        &&& newest_first(r->Ok_0@)
    }
}

/// The records of a hotel reservation service.
pub struct Ledger {
    hotels: Vec<Hotel>,
    rooms: Vec<Room>,
    bookings: Vec<Booking>,
    reviews: Vec<Review>,
}

impl View for Ledger {
    type V = LedgerView;

    closed spec fn view(&self) -> LedgerView {
        LedgerView {
            hotels: self.hotels@,
            rooms: self.rooms@,
            bookings: self.bookings@,
            reviews: self.reviews@,
        }
    }
}

impl Ledger {
    /// An empty ledger.
    pub fn new() -> (r: Ledger)
        ensures
            r@.wf(),
            r@.hotels.len() == 0,
            r@.rooms.len() == 0,
            r@.bookings.len() == 0,
            r@.reviews.len() == 0,
    {
        Ledger { hotels: Vec::new(), rooms: Vec::new(), bookings: Vec::new(), reviews: Vec::new() }
    }

    /// Adds a hotel with no reviews.
    pub fn add_hotel(&mut self, id: u128, owner_id: u128) -> (r: Result<Hotel, ErrorKind>)
        requires
            old(self)@.wf(),
        ensures
            final(self)@.wf(),
            r == hotel_outcome(old(self)@, id, owner_id),
            final(self)@ == (match r {
                Ok(h) => LedgerView { hotels: old(self)@.hotels.push(h), ..old(self)@ },
                Err(_) => old(self)@,
            }),
    {
        match find_key(&self.hotels, id) {
            Some(i) => {
                proof {
                    assert(self@.hotels[i as int].key() == id);
                }
                Err(ErrorKind::HotelAlreadyExists)
            },
            None => {
                let h = Hotel::new(id, owner_id);
                proof {
                    lemma_wf_add_hotel(self@, h);
                }
                self.hotels.push(h);
                Ok(h)
            },
        }
    }

    /// Adds a room to a hotel of `owner_id`.
    pub fn add_room(
        &mut self,
        owner_id: u128,
        id: u128,
        hotel_id: u128,
        price_per_night: Money,
        max_occupancy: i32,
    ) -> (r: Result<Room, ErrorKind>)
        requires
            old(self)@.wf(),
        ensures
            final(self)@.wf(),
            r == room_outcome(old(self)@, owner_id, id, hotel_id, price_per_night, max_occupancy),
            final(self)@ == (match r {
                Ok(room) => LedgerView { rooms: old(self)@.rooms.push(room), ..old(self)@ },
                Err(_) => old(self)@,
            }),
    {
        if price_per_night.units == 0 || price_per_night.units > crate::money::MAX_NIGHTLY_UNITS
            || max_occupancy <= 0 {
            return Err(ErrorKind::InvalidRequest);
        }
        let k = match find_key(&self.hotels, hotel_id) {
            Some(k) => k,
            None => return Err(ErrorKind::HotelNotFound),
        };
        proof {
            lemma_index_of(self@.hotels, hotel_id, k as int);
        }
        if self.hotels[k].owner_id != owner_id {
            return Err(ErrorKind::Forbidden);
        }
        match find_key(&self.rooms, id) {
            Some(i) => {
                proof {
                    assert(self@.rooms[i as int].key() == id);
                }
                return Err(ErrorKind::RoomAlreadyExists);
            },
            None => {},
        }
        let room = Room { id, hotel_id, owner_id, price_per_night, max_occupancy };
        proof {
            lemma_wf_add_room(self@, room);
        }
        self.rooms.push(room);
        Ok(room)
    }

    /// Books a room: holds the room, checks the owner, the guests and the room's confirmed
    /// bookings, prices the stay and adds the booking, confirmed, under `new_id`.
    pub fn create_booking(&mut self, customer: u128, req: &BookingRequest, now: i64, new_id: u128) -> (r:
        Result<Booking, ErrorKind>)
        requires
            old(self)@.wf(),
            req.is_valid(),
            !contains_key(old(self)@.bookings, new_id),
        ensures
            final(self)@.wf(),
            r == booking_outcome(old(self)@, customer, *req, now, new_id),
            final(self)@ == after_booking(old(self)@, customer, *req, now, new_id),
    {
        let k = match find_key(&self.rooms, req.room_id) {
            Some(k) => k,
            None => return Err(ErrorKind::RoomNotFound),
        };
        proof {
            lemma_index_of(self@.rooms, req.room_id, k as int);
            assert(self@.rooms[k as int].price_per_night.is_nightly_price());
        }
        let room = self.rooms[k];
        match decide_booking(customer, &room, req, &self.bookings, now, new_id) {
            Ok(b) => {
                proof {
                    lemma_wf_add_booking(self@, b);
                }
                self.bookings.push(b);
                Ok(b)
            },
            Err(e) => Err(e),
        }
    }

    /// Cancels a booking of `customer`, a caller in `role`: holds the booking and sets its
    /// status to cancelled, which frees its nights. Cancelling a cancelled booking succeeds and
    /// changes nothing.
    pub fn cancel_booking(&mut self, role: Role, customer: u128, booking_id: u128) -> (r: Result<
        Booking,
        ErrorKind,
    >)
        requires
            old(self)@.wf(),
        ensures
            final(self)@.wf(),
            r == cancel_outcome(old(self)@, role, customer, booking_id),
            final(self)@ == after_cancel(old(self)@, role, customer, booking_id),
    {
        if role != Role::Customer {
            return Err(ErrorKind::Forbidden);
        }
        let k = match find_key(&self.bookings, booking_id) {
            Some(k) => k,
            None => return Err(ErrorKind::BookingNotFound),
        };
        proof {
            lemma_index_of(self@.bookings, booking_id, k as int);
        }
        let c = match decide_cancel(role, customer, &self.bookings[k]) {
            Ok(c) => c,
            Err(e) => return Err(e),
        };
        proof {
            lemma_wf_cancel(self@, k as int, c);
        }
        self.bookings.set(k, c);
        Ok(c)
    }

    /// Reviews a booking of `customer`: holds the booking, checks that its stay is confirmed
    /// and over and that it has no review, adds the review under `new_id`, then holds the
    /// hotel and adds the score to its aggregate.
    pub fn submit_review(
        &mut self,
        customer: u128,
        booking_id: u128,
        rating: i32,
        comment: Option<String>,
        today: i32,
        new_id: u128,
    ) -> (r: Result<Review, ErrorKind>)
        requires
            old(self)@.wf(),
            old(self)@.reviews.len() < u64::MAX,
        ensures
            final(self)@.wf(),
            r == review_outcome(old(self)@, customer, booking_id, rating, comment, today, new_id),
            final(self)@ == after_review(
                old(self)@,
                customer,
                booking_id,
                rating,
                comment,
                today,
                new_id,
            ),
    {
        if rating < 1 || rating > 5 {
            return Err(ErrorKind::InvalidRequest);
        }
        let k = match find_key(&self.bookings, booking_id) {
            Some(k) => k,
            None => return Err(ErrorKind::BookingNotFound),
        };
        proof {
            lemma_index_of(self@.bookings, booking_id, k as int);
        }
        let b = self.bookings[k];
        let reviewed = match find_key(&self.reviews, booking_id) {
            Some(i) => {
                proof {
                    assert(self@.reviews[i as int].key() == booking_id);
                }
                true
            },
            None => false,
        };
        let review = match decide_review(customer, &b, reviewed, rating, comment, today, new_id) {
            Ok(review) => review,
            Err(e) => return Err(e),
        };
        proof {
            assert(self@.bookings[k as int] == b);
            assert(contains_key(self@.rooms, b.room_id));
            assert(self@.rooms_placed());
            let room_at = index_of(self@.rooms, b.room_id);
            assert(self@.rooms[room_at].key() == b.room_id);
        }
        let h = match find_key(&self.hotels, b.hotel_id) {
            Some(h) => h,
            None => {
                proof {
                    let room_at = index_of(self@.rooms, b.room_id);
                    assert(contains_key(self@.hotels, self@.rooms[room_at].hotel_id));
                }
                return Err(ErrorKind::HotelNotFound);
            },
        };
        proof {
            lemma_index_of(self@.hotels, b.hotel_id, h as int);
            lemma_scores_bounded(self@.reviews, b.hotel_id);
            assert(self@.hotels[h as int].id == b.hotel_id);
        }
        let updated = self.hotels[h].add_score(rating);
        proof {
            lemma_wf_add_review(self@, review, h as int);
        }
        self.reviews.push(copy_review(&review));
        self.hotels.set(h, updated);
        Ok(review)
    }

    /// The hotel with id `id`, if any.
    pub fn hotel(&self, id: u128) -> (r: Option<Hotel>)
        requires
            self@.wf(),
        ensures
            r == (if contains_key(self@.hotels, id) {
                Some(self@.hotel(id))
            } else {
                None
            }),
    {
        match find_key(&self.hotels, id) {
            Some(k) => {
                proof {
                    lemma_index_of(self@.hotels, id, k as int);
                }
                Some(self.hotels[k])
            },
            None => None,
        }
    }

    /// The room with id `id`, if any.
    pub fn room(&self, id: u128) -> (r: Option<Room>)
        requires
            self@.wf(),
        ensures
            r == (if contains_key(self@.rooms, id) {
                Some(self@.room(id))
            } else {
                None
            }),
    {
        match find_key(&self.rooms, id) {
            Some(k) => {
                proof {
                    lemma_index_of(self@.rooms, id, k as int);
                }
                Some(self.rooms[k])
            },
            None => None,
        }
    }

    /// The booking with id `id`, if any.
    pub fn booking(&self, id: u128) -> (r: Option<Booking>)
        requires
            self@.wf(),
        ensures
            r == (if contains_key(self@.bookings, id) {
                Some(self@.booking(id))
            } else {
                None
            }),
    {
        match find_key(&self.bookings, id) {
            Some(k) => {
                proof {
                    lemma_index_of(self@.bookings, id, k as int);
                }
                Some(self.bookings[k])
            },
            None => None,
        }
    }

    /// Whether `booking_id` has a review.
    pub fn is_reviewed(&self, booking_id: u128) -> (r: bool)
        ensures
            r == contains_key(self@.reviews, booking_id),
    {
        match find_key(&self.reviews, booking_id) {
            Some(i) => {
                proof {
                    assert(self@.reviews[i as int].key() == booking_id);
                }
                true
            },
            None => false,
        }
    }

    /// Whether `id` is unused by the bookings: a fresh id for a new one.
    pub fn is_new_booking_id(&self, id: u128) -> (r: bool)
        ensures
            r == !contains_key(self@.bookings, id),
    {
        match find_key(&self.bookings, id) {
            Some(i) => {
                proof {
                    assert(self@.bookings[i as int].key() == id);
                }
                false
            },
            None => true,
        }
    }

    /// The number of reviews in the ledger.
    pub fn review_count(&self) -> (r: usize)
        ensures
            r == self@.reviews.len(),
    {
        self.reviews.len()
    }

    /// The bookings of `customer`, a caller in `role`, that `query` selects, newest first.
    /// Only a customer may list bookings.
    pub fn list_bookings(&self, role: Role, customer: u128, query: &BookingListQuery) -> (r:
        Result<Vec<Booking>, ErrorKind>)
        ensures
            select_spec(role, customer, query.status, self@.bookings, r),
    {
        select_bookings(role, customer, query, &self.bookings)
    }
}

} // verus!
