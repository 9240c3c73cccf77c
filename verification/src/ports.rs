//! Choosing the port of a new server.

use vstd::prelude::*;

verus! {

/// The lowest port that a server may be given.
pub const FIRST_PORT: u16 = 8000;

/// The end of the range of server ports; this port is not part of it.
pub const PORT_LIMIT: u16 = 9000;

/// The lowest port of `from..to` that `free` holds of, if there is one.
pub open spec fn first_free_port(free: spec_fn(u16) -> bool, from: int, to: int) -> Option<u16>
    decreases to - from,
{
    if from >= to {
        None
    } else if free(from as u16) {
        Some(from as u16)
    } else {
        first_free_port(free, from + 1, to)
    }
}

/// Scans the ports of `from..to` in ascending order and returns the first one
/// that `probe` reports as free.
///
/// The probe is asked about each port up to the one returned, once and in
/// order, and about no port after it.
pub fn find_available_port<F: Fn(u16) -> bool>(probe: F, from: u16, to: u16) -> (port: Option<u16>)
    requires
        forall|p: u16| from <= p < to ==> call_requires(probe, (p,)),
    ensures
        match port {
            Some(p) => {
                &&& from <= p < to
                &&& call_ensures(probe, (p,), true)
                &&& forall|q: u16| from <= q < p ==> call_ensures(probe, (q,), false)
            },
            None => forall|q: u16| from <= q < to ==> call_ensures(probe, (q,), false),
        },
{
    let mut candidate: u16 = from;
    while candidate < to
        invariant
            from <= candidate,
            forall|p: u16| from <= p < to ==> call_requires(probe, (p,)),
            forall|q: u16| from <= q < candidate ==> call_ensures(probe, (q,), false),
        decreases to - candidate,
    {
        if probe(candidate) {
            return Some(candidate);
        }
        candidate = candidate + 1;
    }
    None
}

/// Scans the server ports, `FIRST_PORT..PORT_LIMIT`, for the first one that
/// `probe` reports as free.
pub fn get_available_port<F: Fn(u16) -> bool>(probe: F) -> (port: Option<u16>)
    requires
        forall|p: u16| FIRST_PORT <= p < PORT_LIMIT ==> call_requires(probe, (p,)),
    ensures
        match port {
            Some(p) => {
                &&& FIRST_PORT <= p < PORT_LIMIT
                &&& call_ensures(probe, (p,), true)
                &&& forall|q: u16| FIRST_PORT <= q < p ==> call_ensures(probe, (q,), false)
            },
            None => forall|q: u16| FIRST_PORT <= q < PORT_LIMIT ==> call_ensures(probe, (q,), false),
        },
{
    find_available_port(probe, FIRST_PORT, PORT_LIMIT)
}

/// A scan that ends as `find_available_port` promises, on a host whose free
/// ports are those of `free`, ends with the first free port of the range.
pub proof fn lemma_scan_finds_first_free_port(
    free: spec_fn(u16) -> bool,
    from: u16,
    to: u16,
    port: Option<u16>,
)
    requires
        match port {
            Some(p) => {
                &&& from <= p < to
                &&& free(p)
                &&& forall|q: u16| from <= q < p ==> !(#[trigger] free(q))
            },
            None => forall|q: u16| from <= q < to ==> !(#[trigger] free(q)),
        },
    ensures
        port == first_free_port(free, from as int, to as int),
{
    lemma_first_free_port(free, from as int, to as int);
}

/// The port that an allocation returns lies in the range that was scanned and
/// is free, so a probe of it that follows at once, with no one else taking
/// ports in between, succeeds; every port below it is taken. Where no port is
/// returned, every port of the range is taken.
pub proof fn lemma_first_free_port(free: spec_fn(u16) -> bool, from: int, to: int)
    requires
        0 <= from,
        to <= u16::MAX,
    ensures
        match first_free_port(free, from, to) {
            Some(p) => {
                &&& from <= p < to
                &&& free(p)
                &&& forall|q: u16| from <= q < p ==> !(#[trigger] free(q))
            },
            None => forall|q: u16| from <= q < to ==> !(#[trigger] free(q)),
        },
    decreases to - from,
{
    if from < to && !free(from as u16) {
        lemma_first_free_port(free, from + 1, to);
    }
}

/// Two allocations never hand out one port twice, as long as the port of the
/// first is taken when the second scans.
pub proof fn lemma_no_port_reuse(
    free_then: spec_fn(u16) -> bool,
    free_now: spec_fn(u16) -> bool,
    first: u16,
    second: u16,
)
    requires
        first_free_port(free_then, FIRST_PORT as int, PORT_LIMIT as int) == Some(first),
        first_free_port(free_now, FIRST_PORT as int, PORT_LIMIT as int) == Some(second),
        !free_now(first),
    ensures
        first != second,
        FIRST_PORT <= first < PORT_LIMIT,
        FIRST_PORT <= second < PORT_LIMIT,
{
    lemma_first_free_port(free_then, FIRST_PORT as int, PORT_LIMIT as int);
    lemma_first_free_port(free_now, FIRST_PORT as int, PORT_LIMIT as int);
}

} // verus!
