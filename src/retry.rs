//! The retry policy of list searches: a response with status 429 (too many
//! requests) is answered by sending the same request again after a pause,
//! up to a fixed number of attempts.

use vstd::prelude::*;

verus! {

/// The last attempt after which a rate-limited response still leads to a retry.
pub const MAX_API_TRIES: u32 = 3;

/// The HTTP status of a rate-limited response.
pub const TOO_MANY_REQUESTS: u16 = 429;

/// The pause before a retry, in milliseconds.
pub const RETRY_PAUSE_MS: u64 = 1000;

/// Whether the response to attempt number `tries` (counted from 1) with
/// status `status` is followed by a retry.
pub open spec fn retries(tries: int, status: u16) -> bool {
    status == TOO_MANY_REQUESTS && tries <= MAX_API_TRIES
}

/// The step after the response to attempt number `tries` (counted from 1)
/// came with the HTTP status `status`: the number of the next attempt, to be
/// sent after a pause of `RETRY_PAUSE_MS`, or `None` where this response is
/// the one to read.
pub fn next_try(tries: u32, status: u16) -> (r: Option<u32>)
    ensures
        r == if retries(tries as int, status) {
            Some((tries + 1) as u32)
        } else {
            None::<u32>
        },
{
    if status == TOO_MANY_REQUESTS && tries <= MAX_API_TRIES {
        Some(tries + 1)
    } else {
        None
    }
}

/// Where `statuses` are the statuses that successive attempts of one request
/// would get, the index of the response that is read, when the response at
/// index `i` has just arrived.
pub open spec fn accepted_from(statuses: Seq<u16>, i: nat) -> nat
    decreases statuses.len() - i,
{
    if i + 1 < statuses.len() && retries((i + 1) as int, statuses[i as int]) {
        accepted_from(statuses, i + 1)
    } else {
        i
    }
}

/// The index of the response that is read, among the responses that
/// successive attempts of one request would get.
pub open spec fn accepted_response(statuses: Seq<u16>) -> nat {
    accepted_from(statuses, 0)
}

proof fn lemma_accepted_from_bounded(statuses: Seq<u16>, i: nat)
    requires
        i <= MAX_API_TRIES,
    ensures
        accepted_from(statuses, i) <= MAX_API_TRIES,
    decreases statuses.len() - i,
{
    if i + 1 < statuses.len() && retries((i + 1) as int, statuses[i as int]) {
        lemma_accepted_from_bounded(statuses, i + 1);
    }
}

proof fn lemma_accepted_from_first_other(statuses: Seq<u16>, i: nat, k: nat)
    requires
        i <= k <= MAX_API_TRIES,
        k < statuses.len(),
        forall|j: int| i <= j < k ==> statuses[j] == TOO_MANY_REQUESTS,
        statuses[k as int] != TOO_MANY_REQUESTS,
    ensures
        accepted_from(statuses, i) == k,
    decreases k - i,
{
    if i < k {
        lemma_accepted_from_first_other(statuses, i + 1, k);
    }
}

proof fn lemma_accepted_from_all_limited(statuses: Seq<u16>, i: nat)
    requires
        i <= MAX_API_TRIES,
        MAX_API_TRIES < statuses.len(),
        forall|j: int| i <= j <= MAX_API_TRIES ==> statuses[j] == TOO_MANY_REQUESTS,
    ensures
        accepted_from(statuses, i) == MAX_API_TRIES,
    decreases MAX_API_TRIES - i,
{
    if i < MAX_API_TRIES {
        lemma_accepted_from_all_limited(statuses, i + 1);
    }
}

/// A request is sent at most `MAX_API_TRIES + 1` times, whatever the
/// statuses of its responses.
pub proof fn lemma_retry_bounded(statuses: Seq<u16>)
    ensures
        accepted_response(statuses) <= MAX_API_TRIES,
{
    lemma_accepted_from_bounded(statuses, 0);
}

/// Where rate-limited responses are followed, within `MAX_API_TRIES + 1`
/// attempts, by one that is not rate-limited, that response is the one read.
pub proof fn lemma_retry_reaches_success(statuses: Seq<u16>, k: nat)
    requires
        k <= MAX_API_TRIES,
        k < statuses.len(),
        forall|j: int| 0 <= j < k ==> statuses[j] == TOO_MANY_REQUESTS,
        statuses[k as int] != TOO_MANY_REQUESTS,
    ensures
        accepted_response(statuses) == k,
{
    lemma_accepted_from_first_other(statuses, 0, k);
}

/// Where every attempt is rate-limited, the response to the last attempt,
/// number `MAX_API_TRIES + 1`, is the one read, rate-limited as it is.
pub proof fn lemma_retry_gives_up(statuses: Seq<u16>)
    requires
        MAX_API_TRIES < statuses.len(),
        forall|j: int| 0 <= j <= MAX_API_TRIES ==> statuses[j] == TOO_MANY_REQUESTS,
    ensures
        accepted_response(statuses) == MAX_API_TRIES,
        statuses[accepted_response(statuses) as int] == TOO_MANY_REQUESTS,
{
    lemma_accepted_from_all_limited(statuses, 0);
}

} // verus!
