//! The argument checks of `mmap`, before any memory is mapped.
use vstd::prelude::*;
use crate::errno::{Errno, SysResult};

verus! {

/// `length` rounded up to a whole number of pages of `page_size` bytes.
pub open spec fn pages_of(length: int, page_size: int) -> int {
    ((length + page_size - 1) / page_size) * page_size
}

/// The checks of `mmap` on the start address and length of a mapping, with
/// pages of `page_size` bytes: the length is rounded up to whole pages;
/// `EINVAL` for a start that is not on a page boundary or an empty length.
/// Returns the rounded length, which the mapping then covers.
pub fn mmap_check(addr: usize, length: usize, page_size: usize) -> (r: SysResult<usize>)
    requires
        page_size > 0,
        length + page_size - 1 <= usize::MAX,
    ensures
        r == if addr % page_size != 0 || length == 0 {
            Err::<usize, Errno>(Errno::EINVAL)
        } else {
            Ok(pages_of(length as int, page_size as int) as usize)
        },
        r matches Ok(n) ==> n % page_size == 0 && length <= n < length + page_size,
{
    let s: usize = length + (page_size - 1);
    let q: usize = s / page_size;
    proof {
        assert(q * page_size <= s) by (nonlinear_arith)
            requires
                page_size > 0,
                q == s / page_size;
        assert(q * page_size > s - page_size) by (nonlinear_arith)
            requires
                page_size > 0,
                q == s / page_size;
        assert((q * page_size) % (page_size as int) == 0) by (nonlinear_arith)
            requires
                page_size > 0,
                q >= 0;
        assert(s < page_size ==> q == 0) by (nonlinear_arith)
            requires
                page_size > 0,
                q == s / page_size;
        assert(pages_of(length as int, page_size as int) == q * page_size);
    }
    let rounded: usize = q * page_size;
    proof {
        assert(length == 0 ==> q == 0);
        assert(length == 0 ==> rounded == 0) by (nonlinear_arith)
            requires
                rounded == q * page_size,
                length == 0 ==> q == 0;
    }
    if addr % page_size != 0 || rounded == 0 {
        return Err(Errno::EINVAL);
    }
    Ok(rounded)
}

} // verus!
