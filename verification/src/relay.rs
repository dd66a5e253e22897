//! Relay of upstream responses: a single mapped document, or an event
//! stream forwarded chunk by chunk.
//!
//! The upstream stream reaches this module as its chunks arrive: each
//! is either a whole serialized chunk or the upstream error that ended
//! the stream. The relay forwards payloads in arrival order, one event
//! per chunk, and the first error closes the outbound stream at once —
//! nothing partial and no trailing error event goes out, since the
//! response has already begun. The unverified server loop performs the
//! awaiting and the writes; which event, if any, goes out for each
//! arrival is decided here.

use vstd::prelude::*;
use crate::conversion::{spec_completion_converted, ChatCompletion, UpstreamResponse};
use crate::errors::GatewayError;

verus! {

/// The events a stream of chunks is relayed as: the payloads of the
/// longest whole prefix, in arrival order; the first error, and
/// anything after it, yields nothing.
pub open spec fn spec_relayed(chunks: Seq<Result<String, String>>) -> Seq<String>
    decreases chunks.len(),
{
    if chunks.len() == 0 {
        Seq::empty()
    } else {
        match chunks[0] {
            Ok(payload) => seq![payload] + spec_relayed(chunks.skip(1)),
            Err(_) => Seq::empty(),
        }
    }
}

/// A stream whose chunks all arrive whole is relayed in full: one event
/// per chunk, in the exact order received, then a clean close.
pub proof fn lemma_relay_forwards_whole_stream(chunks: Seq<Result<String, String>>)
    requires
        forall|i: int| 0 <= i < chunks.len() ==> chunks[i] is Ok,
    ensures
        spec_relayed(chunks).len() == chunks.len(),
        forall|i: int| 0 <= i < chunks.len() ==> spec_relayed(chunks)[i] == chunks[i]->Ok_0,
    decreases chunks.len(),
{
    if chunks.len() > 0 {
        let rest = chunks.skip(1);
        assert forall|i: int| 0 <= i < rest.len() implies rest[i] is Ok by {
            assert(rest[i] == chunks[i + 1]);
        }
        lemma_relay_forwards_whole_stream(rest);
        assert forall|i: int| 0 <= i < chunks.len() implies spec_relayed(chunks)[i] == chunks[i]->Ok_0
        by {
            if i > 0 {
                assert(spec_relayed(chunks)[i] == spec_relayed(rest)[i - 1]);
                assert(rest[i - 1] == chunks[i]);
            }
        }
    }
}

/// A stream that errors after `k` whole chunks is relayed as exactly
/// those `k` events, in order — no partial event and no trailing error
/// event follows.
pub proof fn lemma_relay_stops_at_error(chunks: Seq<Result<String, String>>, k: int)
    requires
        0 <= k < chunks.len(),
        chunks[k] is Err,
        forall|i: int| 0 <= i < k ==> chunks[i] is Ok,
    ensures
        spec_relayed(chunks).len() == k,
        forall|i: int| 0 <= i < k ==> spec_relayed(chunks)[i] == chunks[i]->Ok_0,
    decreases k,
{
    if k > 0 {
        let rest = chunks.skip(1);
        assert(rest[k - 1] is Err);
        assert forall|i: int| 0 <= i < k - 1 implies rest[i] is Ok by {
            assert(rest[i] == chunks[i + 1]);
        }
        lemma_relay_stops_at_error(rest, k - 1);
        assert forall|i: int| 0 <= i < k implies spec_relayed(chunks)[i] == chunks[i]->Ok_0 by {
            if i > 0 {
                assert(spec_relayed(chunks)[i] == spec_relayed(rest)[i - 1]);
                assert(rest[i - 1] == chunks[i]);
            }
        }
    }
}

/// One step of the streaming relay: for the next arrival — a whole
/// chunk, an upstream error, or the end of the stream — the event to
/// emit, or nothing, which closes the outbound stream.
pub fn stream_step(item: Option<Result<String, String>>) -> (r: Option<String>)
    ensures
        match item {
            Some(chunk) => match chunk {
                Ok(payload) => r == Some(payload),
                Err(_) => r is None,
            },
            None => r is None,
        },
{
    match item {
        Some(chunk) => match chunk {
            Ok(payload) => Some(payload),
            Err(_) => None,
        },
        None => None,
    }
}

/// Relays a finished stream of chunks all at once: the payloads of the
/// longest whole prefix, in arrival order.
pub fn relay_stream(chunks: &Vec<Result<String, String>>) -> (events: Vec<String>)
    ensures
        events@ == spec_relayed(chunks@),
{
    let n = chunks.len();
    let mut events: Vec<String> = Vec::new();
    let mut i: usize = 0;
    while i < n
        invariant
            n == chunks@.len(),
            i <= n,
            forall|j: int| 0 <= j < i ==> chunks@[j] is Ok,
            events@.len() == i,
            forall|j: int| 0 <= j < i ==> events@[j] == chunks@[j]->Ok_0,
        decreases n - i,
    {
        match &chunks[i] {
            Ok(payload) => {
                events.push(payload.clone());
            },
            Err(_) => {
                proof {
                    lemma_relay_stops_at_error(chunks@, i as int);
                    assert(events@ =~= spec_relayed(chunks@));
                }
                return events;
            },
        }
        i = i + 1;
    }
    proof {
        lemma_relay_forwards_whole_stream(chunks@);
        assert(events@ =~= spec_relayed(chunks@));
    }
    events
}

/// Relays the non-streaming upstream outcome: a success is mapped field
/// by field into the gateway's response shape, a failure is surfaced as
/// `UpstreamError` carrying the provider's message — never retried.
pub fn relay_response(upstream: Result<UpstreamResponse, String>) -> (r: Result<
    ChatCompletion,
    GatewayError,
>)
    ensures
        upstream matches Err(m) ==> r == Err::<ChatCompletion, GatewayError>(
            GatewayError::UpstreamError(m),
        ),
        upstream matches Ok(u) ==> r matches Ok(c) && spec_completion_converted(c, u),
{
    match upstream {
        Ok(u) => Ok(ChatCompletion::from_upstream(u)),
        Err(m) => Err(GatewayError::UpstreamError(m)),
    }
}

} // verus!
