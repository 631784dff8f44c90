//! The transactional core of a hotel reservation service: booking rooms for half-open date
//! ranges without double-booking, cancelling bookings, and keeping each hotel's rating the
//! exact mean of its reviews.
pub mod booking;
pub mod error;
pub mod guarantees;
pub mod ident;
pub mod keyed;
pub mod ledger;
pub mod messages;
pub mod money;
pub mod review;
pub mod stay;
pub mod text;
