//! Page arithmetic for copies that proceed one flash page at a time.

use vstd::prelude::*;
use crate::layout::FLASH_SIZE;

verus! {

/// Number of pages of `page_size` bytes needed to hold `length` bytes that
/// start on a page boundary.
pub open spec fn page_span_spec(length: int, page_size: int) -> int {
    (length + page_size - 1) / page_size
}

/// Number of pages spanned by `length` bytes starting on a page boundary:
/// the length divided by the page size, rounded up.
pub fn page_span(length: u32, page_size: u32) -> (r: u32)
    requires
        length <= FLASH_SIZE,
        page_size > 0,
    ensures
        r == page_span_spec(length as int, page_size as int),
        (r as int) * (page_size as int) >= length,
        (r as int - 1) * (page_size as int) < length,
        r <= length,
{
    let q = length / page_size;
    let r = if length % page_size != 0 {
        q + 1
    } else {
        q
    };
    proof {
        let l = length as int;
        let p = page_size as int;
        assert(l == p * (l / p) + l % p) by (nonlinear_arith)
            requires
                p > 0,
        ;
        assert(0 <= l % p < p) by (nonlinear_arith)
            requires
                p > 0,
        ;
        assert(l / p <= l) by (nonlinear_arith)
            requires
                p > 0,
                l >= 0,
        ;
        let k = (l + p - 1) / p;
        assert(l + p - 1 == p * k + (l + p - 1) % p) by (nonlinear_arith)
            requires
                p > 0,
                k == (l + p - 1) / p,
        ;
        assert(0 <= (l + p - 1) % p < p) by (nonlinear_arith)
            requires
                p > 0,
        ;
        if l % p != 0 {
            assert(k == l / p + 1) by (nonlinear_arith)
                requires
                    p > 0,
                    l + p - 1 == p * k + (l + p - 1) % p,
                    0 <= (l + p - 1) % p < p,
                    l == p * (l / p) + l % p,
                    0 < l % p < p,
            ;
            assert(l % p != 0 ==> l / p < l) by (nonlinear_arith)
                requires
                    p > 0,
                    l >= 0,
                    l == p * (l / p) + l % p,
            ;
        } else {
            assert(k == l / p) by (nonlinear_arith)
                requires
                    p > 0,
                    l + p - 1 == p * k + (l + p - 1) % p,
                    0 <= (l + p - 1) % p < p,
                    l == p * (l / p),
            ;
        }
        assert(r as int * p >= l && (r as int - 1) * p < l) by (nonlinear_arith)
            requires
                p > 0,
                l >= 0,
                l == p * (l / p) + l % p,
                0 <= l % p < p,
                r as int == (if l % p != 0 {
                    l / p + 1
                } else {
                    l / p
                }),
        ;
    }
    r
}

} // verus!
