//! Connection supervision: picking one candidate server address at
//! random, and the backoff schedule the reconnect loop waits by.
//!
//! Opening the transport and spawning the task that drives it are
//! performed by the embedding process; the decisions here say which
//! address to dial and how long to wait before each retry.

use vstd::prelude::*;

verus! {

/// A candidate server endpoint as plain values: an IPv4 address and a
/// port.  The embedding process converts between this and its socket
/// address type.
#[derive(Clone, Copy, PartialEq, Eq, Structural, Debug)]
pub struct ServerAddr {
    pub ip: u32,
    pub port: u16,
}

/// A transport-layer failure the supervisor can decide about.
#[derive(Clone, Copy, PartialEq, Eq, Structural, Debug)]
pub enum TransportError {
    /// The client's address list is empty: a configuration or name
    /// resolution failure upstream, fatal.
    EmptyAddressList,
}

/// Relies on rand::random_range over `0..n`: the result is drawn
/// uniformly from the range, hence below `n`; the range is non-empty by
/// the precondition, so the call does not panic.
#[verifier::external_body]
fn random_index_below(n: usize) -> (r: usize)
    requires
        n > 0,
    ensures
        r < n,
{
    rand::random_range(0..n)
}

/// Selects one candidate address uniformly at random with equal
/// weighting from the list; an empty list is the fatal
/// `EmptyAddressList` failure.
pub fn select_address(addrs: &Vec<ServerAddr>) -> (r: Result<ServerAddr, TransportError>)
    ensures
        addrs@.len() == 0 <==> r is Err,
        r matches Err(e) ==> e == TransportError::EmptyAddressList,
        r matches Ok(a) ==> addrs@.contains(a),
{
    if addrs.len() == 0 {
        Err(TransportError::EmptyAddressList)
    } else {
        let i = random_index_below(addrs.len());
        let a = addrs[i];
        proof {
            assert(addrs@.contains(a)) by {
                assert(addrs@[i as int] == a);
            }
        }
        Ok(a)
    }
}

/// The wait before reconnect attempt `n` (1-based):
/// one second plus `min(5, n - 1)` more.  Total in `n`; values below 1
/// behave as the first attempt.
pub open spec fn spec_backoff_secs(attempt: u64) -> u64 {
    if attempt <= 1 {
        1
    } else if attempt >= 6 {
        6
    } else {
        attempt
    }
}

/// The executable backoff schedule.
pub fn backoff_secs(attempt: u64) -> (r: u64)
    ensures
        r == spec_backoff_secs(attempt),
{
    if attempt <= 1 {
        1
    } else if attempt >= 6 {
        6
    } else {
        attempt
    }
}

/// Backoff law: the first five attempts wait 1, 2, 3, 4, 5 seconds and
/// every later attempt waits 6; in particular attempts 1 through 8 wait
/// exactly 1, 2, 3, 4, 5, 6, 6, 6 seconds.
pub proof fn lemma_backoff_schedule()
    ensures
        forall|n: u64| 1 <= n <= 5 ==> #[trigger] spec_backoff_secs(n) == n,
        forall|n: u64| n >= 6 ==> #[trigger] spec_backoff_secs(n) == 6,
{
}

} // verus!
