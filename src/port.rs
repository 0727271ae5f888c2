use vstd::prelude::*;

verus! {

/// Number of consecutive ports examined by a fallback search.
pub const SCAN_WINDOW: u16 = 1000;

/// One past the last port examined when a search starts at `start`: the window
/// saturates at the top of the port space, whose last port it still includes,
/// instead of wrapping around.
pub open spec fn scan_end(start: u16) -> int {
    if start as int + SCAN_WINDOW as int > u16::MAX as int + 1 {
        u16::MAX as int + 1
    } else {
        start as int + SCAN_WINDOW as int
    }
}

/// Whether `port` lies in the window searched from `start`.
pub open spec fn in_window(start: u16, port: int) -> bool {
    start as int <= port < scan_end(start)
}

/// What a search from `start` may report, given the answers the availability
/// probe can give: `answered(q, b)` holds when probing `q` may yield `b`.
///
/// A reported port was seen available and every lower port of the window was
/// seen occupied; no report means every port of the window was seen occupied.
pub open spec fn scan_outcome(
    start: u16,
    answered: spec_fn(u16, bool) -> bool,
    r: Option<u16>,
) -> bool {
    match r {
        Some(p) => in_window(start, p as int) && answered(p, true) && forall|q: u16|
            #![trigger answered(q, false)]
            start <= q < p ==> answered(q, false),
        None => forall|q: u16|
            #![trigger answered(q, false)]
            in_window(start, q as int) ==> answered(q, false),
    }
}

/// Probe answers that are fixed by a set of occupied ports.
pub open spec fn answers_follow(answered: spec_fn(u16, bool) -> bool, occupied: Set<u16>) -> bool {
    forall|q: u16, b: bool| #[trigger] answered(q, b) ==> b == !occupied.contains(q)
}

/// Scans `start_port`, `start_port + 1`, ... up to the end of the search
/// window, in increasing order, and returns the first port that
/// `is_available` reports as bindable, or `None` when it reports none.
pub fn find_available_port<F: Fn(u16) -> bool>(start_port: u16, is_available: F) -> (r: Option<
    u16,
>)
    requires
        forall|q: u16| #[trigger] is_available.requires((q,)),
    ensures
        scan_outcome(start_port, |q: u16, b: bool| is_available.ensures((q,), b), r),
{
    let end: u32 = if start_port as u32 + SCAN_WINDOW as u32 > u16::MAX as u32 + 1 {
        u16::MAX as u32 + 1
    } else {
        start_port as u32 + SCAN_WINDOW as u32
    };
    let mut port: u32 = start_port as u32;
    while port < end
        invariant
            start_port <= port,
            end as int == scan_end(start_port),
            port <= end,
            forall|q: u16| #[trigger] is_available.requires((q,)),
            forall|q: u16|
                start_port <= q < port ==> #[trigger] is_available.ensures((q,), false),
        decreases end - port,
    {
        let free = is_available(port as u16);
        if free {
            return Some(port as u16);
        }
        port = port + 1;
    }
    None
}

/// When the probe answers by a fixed set of occupied ports, the ports
/// `start .. start + k` are occupied and `start + k` (inside the window) is
/// free, a search from `start` reports exactly `start + k`, and never an
/// occupied port.
pub proof fn lemma_fallback_determinism(
    start: u16,
    k: nat,
    occupied: Set<u16>,
    answered: spec_fn(u16, bool) -> bool,
    r: Option<u16>,
)
    requires
        answers_follow(answered, occupied),
        in_window(start, start + k),
        forall|q: u16| start <= q < start + k ==> #[trigger] occupied.contains(q),
        !occupied.contains((start + k) as u16),
        scan_outcome(start, answered, r),
    ensures
        r == Some((start + k) as u16),
        !occupied.contains(r.unwrap()),
{
    let free = (start + k) as u16;
    match r {
        Some(p) => {
            assert(answered(p, true));
            if p < free {
                assert(occupied.contains(p));
            } else if p > free {
                assert(answered(free, false));
            }
        },
        None => {
            assert(answered(free, false));
        },
    }
}

/// When the probe answers by a fixed set of occupied ports and every port of
/// the window searched from `start` is occupied, the search reports nothing.
pub proof fn lemma_exhaustion(
    start: u16,
    occupied: Set<u16>,
    answered: spec_fn(u16, bool) -> bool,
    r: Option<u16>,
)
    requires
        answers_follow(answered, occupied),
        forall|q: u16| in_window(start, q as int) ==> #[trigger] occupied.contains(q),
        scan_outcome(start, answered, r),
    ensures
        r is None,
{
    if let Some(p) = r {
        assert(answered(p, true));
        assert(occupied.contains(p));
    }
}

} // verus!
