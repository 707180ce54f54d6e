use vstd::prelude::*;

verus! {

/// Size of a hardware page in bytes.
pub const PAGE_SIZE: usize = 4096;

/// The page-rounded form of `n`: `n` itself when it is a multiple of the page
/// size, else the smallest larger multiple.
pub open spec fn round_up_to_page(n: int) -> int {
    if n % 4096 == 0 {
        n
    } else {
        n - n % 4096 + 4096
    }
}

/// Rounds a byte count up to a whole number of pages.
pub fn page_roundup(n: usize) -> (r: usize)
    requires
        n <= usize::MAX - 4095,
    ensures
        r == round_up_to_page(n as int),
{
    if n % PAGE_SIZE == 0 {
        n
    } else {
        n - n % PAGE_SIZE + PAGE_SIZE
    }
}

/// Page rounding never shrinks a size, always lands on a page boundary, and
/// leaves a size that is already page-aligned unchanged.
pub proof fn lemma_round_up_to_page(s: int)
    requires
        s >= 0,
    ensures
        round_up_to_page(s) % 4096 == 0,
        round_up_to_page(s) >= s,
        round_up_to_page(s) - s < 4096,
        s % 4096 == 0 ==> round_up_to_page(s) == s,
{
}

} // verus!
