//! The milk bar: every request draws one unit from a bucket that refills
//! with time, and what is answered depends on whether the unit was there and
//! on what the request carries.

use crate::admission::{AdmissionController, Bucket};
use crate::text::same_text;
use vstd::prelude::*;

verus! {

/// What is answered to a request for milk.
#[derive(Clone, Copy, Debug, PartialEq, Eq, Structural)]
pub enum MilkReply {
    /// The bucket is empty.
    NoMilk,
    /// A unit was drawn and the request carries a quantity to convert.
    Convert,
    /// A unit was drawn but the request says it carries a quantity and does
    /// not.
    BadRequest,
    /// A unit was drawn and nothing else is asked.
    Withdrawn,
}

/// The units that the bar's bucket holds when it is topped up.
pub const CUP: u64 = 5;

/// Whether a request of this content type says that it carries a quantity.
pub open spec fn carries_quantity(content_type: Option<&str>) -> bool {
    content_type matches Some(name) && name@ == "application/json"@
}

/// What is answered to a request: nothing but a refusal without a unit of
/// milk; with one, a conversion where a quantity is announced and can be
/// read, a complaint where it is announced and cannot, and plain milk where
/// none is announced.
pub open spec fn reply_to(granted: bool, announced: bool, readable: bool) -> MilkReply {
    if !granted {
        MilkReply::NoMilk
    } else if !announced {
        MilkReply::Withdrawn
    } else if readable {
        MilkReply::Convert
    } else {
        MilkReply::BadRequest
    }
}

impl MilkReply {
    /// The words that go with this reply, for the two that have any.
    pub open spec fn words_spec(self) -> Option<Seq<char>> {
        match self {
            MilkReply::NoMilk => Some("No milk available\n"@),
            MilkReply::Withdrawn => Some("Milk withdrawn\n"@),
            _ => None,
        }
    }

    /// The words that go with this reply, for the two that have any.
    pub fn words(self) -> (words: Option<&'static str>)
        ensures
            match words {
                Some(text) => self.words_spec() == Some(text@),
                None => self.words_spec() is None,
            },
    {
        match self {
            MilkReply::NoMilk => Some("No milk available\n"),
            MilkReply::Withdrawn => Some("Milk withdrawn\n"),
            _ => None,
        }
    }
}

/// A full bucket of `capacity` units that gains one unit every `seconds`
/// seconds, counted from `now_ms`. There is none unless capacity and seconds
/// are positive and the seconds, in milliseconds, are a number that fits.
pub fn milk_bucket(capacity: u64, seconds: u64, now_ms: u64) -> (made: Option<AdmissionController>)
    ensures
        made is Some <==> capacity > 0 && 0 < seconds * 1000 <= u64::MAX,
        made matches Some(bucket) ==> bucket@ == (Bucket {
            capacity: capacity as nat,
            available: capacity as nat,
            refill_rate: 1,
            interval: (seconds * 1000) as nat,
            refilled_at: now_ms as nat,
        }),
{
    match seconds.checked_mul(1000) {
        Some(interval_ms) => AdmissionController::new(capacity, 1, interval_ms, now_ms),
        None => None,
    }
}

/// Answers a request for milk that arrives at `now_ms`: the bucket is
/// brought up to that time and one unit is drawn from it if it holds one.
/// `content_type` is what the request says it carries, `readable` whether a
/// quantity could be read from it.
pub fn serve(
    bucket: &mut AdmissionController,
    now_ms: u64,
    content_type: Option<&str>,
    readable: bool,
) -> (reply: MilkReply)
    ensures
        final(bucket)@ == old(bucket)@.advance(now_ms as nat).take(1),
        reply == reply_to(
            old(bucket)@.advance(now_ms as nat).grants(1),
            carries_quantity(content_type),
            readable,
        ),
{
    if !bucket.try_acquire_at(now_ms, 1) {
        return MilkReply::NoMilk;
    }
    let announced = match content_type {
        Some(name) => same_text(name, "application/json"),
        None => false,
    };
    if !announced {
        MilkReply::Withdrawn
    } else if readable {
        MilkReply::Convert
    } else {
        MilkReply::BadRequest
    }
}

/// Tops the bucket up at the time `now_ms`: it is a full cup again, whatever
/// it held, gains one unit a second, and its first second starts now.
pub fn top_up(bucket: &mut AdmissionController, now_ms: u64)
    ensures
        final(bucket)@ == (Bucket {
            capacity: CUP as nat,
            available: CUP as nat,
            refill_rate: 1,
            interval: 1000,
            refilled_at: now_ms as nat,
        }),
        final(bucket)@.available == final(bucket)@.capacity,
{
    *bucket = AdmissionController::new(CUP, 1, 1000, now_ms).unwrap();
}

} // verus!
