//! Requests between cores for tasks: a core that runs short sets its bit in
//! a shared request mask; a busy core answers the first request it finds.
use vstd::prelude::*;

verus! {

/// Whether bit `i` of `mask` is set.
pub open spec fn bit_set(mask: usize, i: usize) -> bool {
    (mask >> i) & 1 == 1
}

/// Whether core `i` is the first core below `cpus`, other than `cur`, whose
/// request bit is set in `req`.
pub open spec fn first_request(req: usize, cur: usize, cpus: usize, i: usize) -> bool {
    &&& i < cpus
    &&& i != cur
    &&& bit_set(req, i)
    &&& forall|j: usize| j < i && j != cur ==> !#[trigger] bit_set(req, j)
}

/// Clearing bit `i` leaves every other bit as it was; masking with bit `i`
/// tests it.
proof fn lemma_clear_bit(x: usize, i: usize, j: usize)
    by (bit_vector)
    requires
        i < usize::BITS,
        j < usize::BITS,
    ensures
        ((x & !(1usize << i)) >> j) & 1 == if j == i { 0usize } else { (x >> j) & 1 },
        (x & (1usize << i) != 0) == ((x >> i) & 1 == 1),
{
}

/// Which request a core `cur` answers, the cores being those below `cpus`:
/// it scans the other cores in order, clearing the request bit of each it
/// scans, and stops at the first whose bit was set. Returns that core, if
/// any, and the request mask that is left.
pub fn pick_sched_req(req: usize, cur: usize, cpus: usize) -> (r: (Option<usize>, usize))
    requires
        cpus <= usize::BITS,
    ensures
        r.0 matches Some(i) ==> first_request(req, cur, cpus, i),
        r.0 is None ==> forall|j: usize| j < cpus && j != cur ==> !#[trigger] bit_set(req, j),
        forall|j: usize| j < usize::BITS ==> #[trigger] bit_set(r.1, j) == (bit_set(req, j) && !(j < cpus && j != cur
            && match r.0 {
                Some(i) => j <= i,
                None => true,
            })),
{
    let mut m = req;
    let mut i: usize = 0;
    while i < cpus
        invariant
            i <= cpus,
            cpus <= usize::BITS,
            forall|j: usize| j < i && j != cur ==> !#[trigger] bit_set(req, j),
            forall|j: usize| j < usize::BITS ==> #[trigger] bit_set(m, j) == (bit_set(req, j) && !(j < i && j != cur)),
        decreases cpus - i,
    {
        if i != cur {
            let mask: usize = 1usize << i;
            let val = m;
            m = m & !mask;
            proof {
                assert forall|j: usize| j < usize::BITS implies #[trigger] bit_set(m, j)
                    == (bit_set(req, j) && !(j < i + 1 && j != cur)) by {
                    lemma_clear_bit(val, i, j);
                    assert(bit_set(val, j) == (bit_set(req, j) && !(j < i && j != cur)));
                }
                lemma_clear_bit(val, i, i);
                assert(bit_set(val, i) == bit_set(req, i));
            }
            if val & mask != 0 {
                proof {
                    assert(bit_set(req, i));
                }
                return (Some(i), m);
            }
        } else {
            proof {
                assert forall|j: usize| j < usize::BITS implies #[trigger] bit_set(m, j)
                    == (bit_set(req, j) && !(j < i + 1 && j != cur)) by {
                }
            }
        }
        i = i + 1;
    }
    (None, m)
}

/// Whether a core asks the others for tasks at time `now`: more than `ticks`
/// since its last request, at `last_request`, and it is underloaded.
pub fn should_request(now: usize, last_request: usize, ticks: usize, underload: bool) -> (r: bool)
    requires
        last_request <= now,
    ensures
        r == (now - last_request > ticks && underload),
{
    now - last_request > ticks && underload
}

/// Whether a core answers a request at time `now`: more than `ticks` since
/// it last answered one, at `last_handle`, and it is overloaded.
pub fn can_respond(now: usize, last_handle: usize, ticks: usize, overload: bool) -> (r: bool)
    requires
        last_handle <= now,
    ensures
        r == (now - last_handle > ticks && overload),
{
    now - last_handle > ticks && overload
}

} // verus!
