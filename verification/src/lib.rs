//! Selector construction, message search, quote extraction and the
//! request/response protocol of a chat-quote extraction service.
use vstd::prelude::*;

pub mod browse;
pub mod decimal;
pub mod errors;
pub mod page;
pub mod protocol;
pub mod quote;
pub mod selectors;

verus! {

/// Sum of two counters.
pub fn add_magyar(a: u32, b: u32) -> (sum: u32)
    requires
        a + b <= u32::MAX,
    ensures
        sum == a + b,
{
    a + b
}

} // verus!
