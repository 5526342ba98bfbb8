//! How much work on certificates runs at a time.
use vstd::prelude::*;

verus! {

/// How many operations on certificates may use the crypto workers at a time.
pub const CRYPTO_CAPACITY: usize = 2;

/// How many streams may watch certificates at a time.
pub const WATCH_STREAMS: usize = 16;

/// How many operations on certificates may run at a time: at most four, and so
/// many that a database connection is left for other work.
pub open spec fn operation_slots(database_capacity: int) -> int {
    if database_capacity <= 1 {
        0
    } else if database_capacity - 1 < 4 {
        database_capacity - 1
    } else {
        4
    }
}

/// How many operations on certificates may run at a time.
pub fn operation_capacity(database_capacity: usize) -> (r: usize)
    ensures
        r == operation_slots(database_capacity as int),
        database_capacity > 0 ==> r < database_capacity,
        r <= 4,
{
    if database_capacity <= 1 {
        0
    } else if database_capacity - 1 < 4 {
        database_capacity - 1
    } else {
        4
    }
}

} // verus!
