//! Per-stream request/response bridge. A peer's whole request payload is
//! decoded as UTF-8 into a prompt; the prompt goes to the local inference
//! service unchanged; the service's chunked reply is relayed back to the
//! peer fragment by fragment, in order, with nothing added, dropped or
//! reordered. A malformed (non-UTF-8) payload aborts that one stream before
//! any response byte is produced.
//!
//! Reading the stream, calling the service and writing the socket happen
//! outside the library; what stands here decides and pins down exactly
//! which bytes the peer observes for every payload and every service reply.

use vstd::prelude::*;

use crate::utf8::is_utf8;
use crate::utf8::validate_utf8;

verus! {

/// A generation request for the inference service: a model identifier and
/// the decoded prompt, both plain text held as UTF-8 bytes.
#[derive(Debug)]
pub struct GenerationRequest {
    /// The model the service should generate with.
    pub model: Vec<u8>,
    /// The prompt, exactly the request payload.
    pub prompt: Vec<u8>,
}

/// One chunk of streamed model output: one or more response fragments,
/// each written to the peer and flushed on its own.
pub struct GenerationChunk {
    /// The text fragments of this chunk, as raw bytes.
    pub fragments: Vec<Vec<u8>>,
}

/// What the inference service's reply stream yielded: the chunks produced
/// before the stream ended, and whether it ended in an error instead of
/// normal completion.
pub struct ServiceReply {
    /// The chunks, in production order.
    pub chunks: Vec<GenerationChunk>,
    /// The stream ended with a service error after yielding `chunks`.
    pub failed: bool,
}

/// Why the handling of one peer stream was aborted. Either aborts only that
/// stream; other streams are unaffected.
#[derive(Debug, PartialEq, Eq)]
pub enum BridgeError {
    /// The request payload was not valid UTF-8.
    MalformedRequest,
    /// The inference service reported an error.
    ServiceFailure,
}

/// What one handled stream comes to: the bytes relayed to the peer, in
/// order, and the error that ended handling, if any.
pub struct BridgeOutcome {
    /// Every byte written to the peer, in write order.
    pub written: Vec<u8>,
    /// `None` exactly on normal completion.
    pub error: Option<BridgeError>,
}

/// The bytes of one chunk's fragments, concatenated in order.
pub open spec fn frags_bytes(fragments: Seq<Vec<u8>>) -> Seq<u8>
    decreases fragments.len(),
{
    if fragments.len() == 0 {
        Seq::empty()
    } else {
        fragments[0]@ + frags_bytes(fragments.drop_first())
    }
}

/// The bytes of one chunk.
pub open spec fn chunk_bytes(c: GenerationChunk) -> Seq<u8> {
    frags_bytes(c.fragments@)
}

/// The bytes of a whole reply's chunks, concatenated in order.
pub open spec fn chunks_bytes(chunks: Seq<GenerationChunk>) -> Seq<u8>
    decreases chunks.len(),
{
    if chunks.len() == 0 {
        Seq::empty()
    } else {
        chunk_bytes(chunks[0]) + chunks_bytes(chunks.drop_first())
    }
}

/// The bytes the peer observes for a given payload and service reply: the
/// full concatenation of the reply's chunks when the payload decodes, and
/// nothing at all when it does not.
pub open spec fn spec_bridge_written(payload: Seq<u8>, chunks: Seq<GenerationChunk>) -> Seq<u8> {
    if is_utf8(payload) {
        chunks_bytes(chunks)
    } else {
        Seq::empty()
    }
}

/// How handling ends for a given payload and service outcome: malformed
/// payloads lose to decoding before the service is ever consulted; a
/// service error aborts that stream; otherwise the stream completes.
pub open spec fn spec_bridge_error(payload: Seq<u8>, failed: bool) -> Option<BridgeError> {
    if !is_utf8(payload) {
        Some(BridgeError::MalformedRequest)
    } else if failed {
        Some(BridgeError::ServiceFailure)
    } else {
        None
    }
}

/// The fixed model identifier requests are generated with: `llama3.1:latest`.
pub open spec fn default_model_spec() -> Seq<u8> {
    seq![
        108u8, 108u8, 97u8, 109u8, 97u8, 51u8, 46u8, 49u8, 58u8, 108u8, 97u8,
        116u8, 101u8, 115u8, 116u8,
    ]
}

/// The default model identifier, injected into every request.
pub fn default_model_id() -> (r: Vec<u8>)
    ensures
        r@ == default_model_spec(),
{
    let mut v: Vec<u8> = Vec::new();
    v.push(108);
    v.push(108);
    v.push(97);
    v.push(109);
    v.push(97);
    v.push(51);
    v.push(46);
    v.push(49);
    v.push(58);
    v.push(108);
    v.push(97);
    v.push(116);
    v.push(101);
    v.push(115);
    v.push(116);
    proof {
        assert(v@ =~= default_model_spec());
    }
    v
}

/// Decode a request payload into a generation request. Succeeds exactly on
/// valid UTF-8, and forwards the payload as the prompt unchanged — a
/// zero-length prompt included, with no special-casing.
pub fn decode_request(model: Vec<u8>, payload: Vec<u8>) -> (r: Result<
    GenerationRequest,
    BridgeError,
>)
    ensures
        r is Ok <==> is_utf8(payload@),
        r matches Ok(req) ==> req.model@ == model@ && req.prompt@ == payload@,
        r matches Err(e) ==> e == BridgeError::MalformedRequest,
{
    if validate_utf8(&payload) {
        Ok(GenerationRequest { model, prompt: payload })
    } else {
        Err(BridgeError::MalformedRequest)
    }
}

/// Append one fragment's bytes to the output.
fn append_bytes(out: &mut Vec<u8>, frag: &Vec<u8>)
    ensures
        final(out)@ == old(out)@ + frag@,
{
    let n = frag.len();
    let mut k: usize = 0;
    proof {
        assert(old(out)@ + frag@.subrange(0, 0) =~= old(out)@);
    }
    while k < n
        invariant
            n == frag@.len(),
            k <= n,
            out@ == old(out)@ + frag@.subrange(0, k as int),
        decreases n - k,
    {
        out.push(frag[k]);
        proof {
            assert(frag@.subrange(0, k + 1)
                =~= frag@.subrange(0, k as int).push(frag@[k as int]));
            assert(out@ =~= old(out)@ + frag@.subrange(0, k + 1));
        }
        k += 1;
    }
    proof {
        assert(frag@.subrange(0, n as int) =~= frag@);
    }
}

/// Appending one more fragment appends its bytes at the end.
proof fn lemma_frags_bytes_push(s: Seq<Vec<u8>>, x: Vec<u8>)
    ensures
        frags_bytes(s.push(x)) == frags_bytes(s) + x@,
    decreases s.len(),
{
    if s.len() == 0 {
        assert(s.push(x)[0] == x);
        assert(s.push(x).drop_first() =~= Seq::<Vec<u8>>::empty());
        assert(frags_bytes(s.push(x)) == x@ + frags_bytes(Seq::<Vec<u8>>::empty()));
        assert(x@ + Seq::<u8>::empty() =~= x@);
        assert(Seq::<u8>::empty() + x@ =~= x@);
        assert(frags_bytes(s.push(x)) == frags_bytes(s) + x@);
    } else {
        assert(s.push(x).drop_first() =~= s.drop_first().push(x));
        lemma_frags_bytes_push(s.drop_first(), x);
        assert(s[0]@ + (frags_bytes(s.drop_first()) + x@)
            =~= (s[0]@ + frags_bytes(s.drop_first())) + x@);
    }
}

/// Appending one more chunk appends its bytes at the end.
proof fn lemma_chunks_bytes_push(s: Seq<GenerationChunk>, c: GenerationChunk)
    ensures
        chunks_bytes(s.push(c)) == chunks_bytes(s) + chunk_bytes(c),
    decreases s.len(),
{
    if s.len() == 0 {
        assert(s.push(c)[0] == c);
        assert(s.push(c).drop_first() =~= Seq::<GenerationChunk>::empty());
        assert(chunks_bytes(s.push(c))
            == chunk_bytes(c) + chunks_bytes(Seq::<GenerationChunk>::empty()));
        assert(chunk_bytes(c) + Seq::<u8>::empty() =~= chunk_bytes(c));
        assert(Seq::<u8>::empty() + chunk_bytes(c) =~= chunk_bytes(c));
        assert(chunks_bytes(s.push(c)) == chunks_bytes(s) + chunk_bytes(c));
    } else {
        assert(s.push(c).drop_first() =~= s.drop_first().push(c));
        lemma_chunks_bytes_push(s.drop_first(), c);
        assert(chunk_bytes(s[0]) + (chunks_bytes(s.drop_first()) + chunk_bytes(c))
            =~= (chunk_bytes(s[0]) + chunks_bytes(s.drop_first())) + chunk_bytes(c));
    }
}

/// Relay one chunk: append each fragment, in order, to the bytes bound for
/// the peer. The surrounding loop writes and flushes after each fragment;
/// order and content are exactly the fragments' own.
pub fn relay_chunk(out: &mut Vec<u8>, chunk: &GenerationChunk)
    ensures
        final(out)@ == old(out)@ + chunk_bytes(*chunk),
{
    let n = chunk.fragments.len();
    let mut i: usize = 0;
    proof {
        assert(chunk.fragments@.take(0) =~= Seq::<Vec<u8>>::empty());
        assert(old(out)@ + frags_bytes(chunk.fragments@.take(0)) =~= old(out)@);
    }
    while i < n
        invariant
            n == chunk.fragments@.len(),
            i <= n,
            out@ == old(out)@ + frags_bytes(chunk.fragments@.take(i as int)),
        decreases n - i,
    {
        append_bytes(out, &chunk.fragments[i]);
        proof {
            assert(chunk.fragments@.take(i + 1)
                =~= chunk.fragments@.take(i as int).push(chunk.fragments@[i as int]));
            lemma_frags_bytes_push(chunk.fragments@.take(i as int), chunk.fragments@[i as int]);
            assert(out@ =~= old(out)@ + frags_bytes(chunk.fragments@.take(i + 1)));
        }
        i += 1;
    }
    proof {
        assert(chunk.fragments@.take(n as int) =~= chunk.fragments@);
    }
}

/// The full relay of a reply's chunks: exactly their concatenation, in
/// production order.
pub fn response_bytes(chunks: &Vec<GenerationChunk>) -> (out: Vec<u8>)
    ensures
        out@ == chunks_bytes(chunks@),
{
    let mut out: Vec<u8> = Vec::new();
    let n = chunks.len();
    let mut i: usize = 0;
    proof {
        assert(chunks@.take(0) =~= Seq::<GenerationChunk>::empty());
        assert(out@ =~= chunks_bytes(chunks@.take(0)));
    }
    while i < n
        invariant
            n == chunks@.len(),
            i <= n,
            out@ == chunks_bytes(chunks@.take(i as int)),
        decreases n - i,
    {
        relay_chunk(&mut out, &chunks[i]);
        proof {
            assert(chunks@.take(i + 1)
                =~= chunks@.take(i as int).push(chunks@[i as int]));
            lemma_chunks_bytes_push(chunks@.take(i as int), chunks@[i as int]);
        }
        i += 1;
    }
    proof {
        assert(chunks@.take(n as int) =~= chunks@);
    }
    out
}

/// Handle one accepted stream, given its whole payload and what the service
/// made of the request: decode, then relay. The outcome pins down every
/// byte the peer observes and exactly when an error ends the handling.
pub fn handle_request(model: Vec<u8>, payload: Vec<u8>, reply: &ServiceReply) -> (o:
    BridgeOutcome)
    ensures
        o.written@ == spec_bridge_written(payload@, reply.chunks@),
        o.error == spec_bridge_error(payload@, reply.failed),
{
    match decode_request(model, payload) {
        Err(e) => BridgeOutcome { written: Vec::new(), error: Some(e) },
        Ok(_request) => {
            let written = response_bytes(&reply.chunks);
            let error = if reply.failed {
                Some(BridgeError::ServiceFailure)
            } else {
                None
            };
            BridgeOutcome { written, error }
        },
    }
}

/// Law: round trip. For any valid UTF-8 payload and a service reply of the
/// chunks `c1, c2, c3`, the peer observes exactly the concatenation of the
/// three chunks' bytes, in that order, and handling completes without error.
pub proof fn lemma_round_trip(
    payload: Seq<u8>,
    c1: GenerationChunk,
    c2: GenerationChunk,
    c3: GenerationChunk,
)
    requires
        is_utf8(payload),
    ensures
        spec_bridge_written(payload, seq![c1, c2, c3])
            == chunk_bytes(c1) + chunk_bytes(c2) + chunk_bytes(c3),
        spec_bridge_error(payload, false) is None,
{
    let cs = seq![c1, c2, c3];
    assert(cs[0] == c1);
    assert(seq![c2, c3][0] == c2);
    assert(seq![c3][0] == c3);
    assert(cs.drop_first() =~= seq![c2, c3]);
    assert(seq![c2, c3].drop_first() =~= seq![c3]);
    assert(seq![c3].drop_first() =~= Seq::<GenerationChunk>::empty());
    assert(chunks_bytes(seq![c3])
        == chunk_bytes(c3) + chunks_bytes(Seq::<GenerationChunk>::empty()));
    assert(chunk_bytes(c3) + Seq::<u8>::empty() =~= chunk_bytes(c3));
    assert(chunks_bytes(seq![c2, c3]) == chunk_bytes(c2) + chunk_bytes(c3));
    assert(chunks_bytes(cs)
        == chunk_bytes(c1) + (chunk_bytes(c2) + chunk_bytes(c3)));
    assert(chunk_bytes(c1) + (chunk_bytes(c2) + chunk_bytes(c3))
        =~= chunk_bytes(c1) + chunk_bytes(c2) + chunk_bytes(c3));
}

/// Law: stream isolation. Streams share no state: one stream's outcome is a
/// function of its own payload and its own service reply alone, so an
/// aborted stream leaves any other stream's completed outcome exactly what
/// its own inputs determine.
pub proof fn lemma_stream_isolation(
    payload_a: Seq<u8>,
    failed_a: bool,
    payload_b: Seq<u8>,
    chunks_b: Seq<GenerationChunk>,
)
    requires
        spec_bridge_error(payload_a, failed_a) is Some,
        is_utf8(payload_b),
    ensures
        spec_bridge_written(payload_b, chunks_b) == chunks_bytes(chunks_b),
        spec_bridge_error(payload_b, false) is None,
{
}

/// Law: malformed input. A payload that is not valid UTF-8 fails its stream
/// with the malformed-request error and not a single response byte, whatever
/// the service would have replied.
pub proof fn lemma_malformed_writes_nothing(
    payload: Seq<u8>,
    chunks: Seq<GenerationChunk>,
    failed: bool,
)
    requires
        !is_utf8(payload),
    ensures
        spec_bridge_written(payload, chunks) == Seq::<u8>::empty(),
        spec_bridge_error(payload, failed) == Some(BridgeError::MalformedRequest),
{
}

/// Law: boundary. The zero-length payload is valid UTF-8 — so an empty
/// prompt goes to the service unchanged, like any other — and a reply of
/// zero chunks puts no bytes on the stream while still completing cleanly.
pub proof fn lemma_empty_boundary()
    ensures
        is_utf8(Seq::<u8>::empty()),
        spec_bridge_written(Seq::<u8>::empty(), Seq::<GenerationChunk>::empty())
            == Seq::<u8>::empty(),
        spec_bridge_error(Seq::<u8>::empty(), false) is None,
{
    assert(is_utf8(Seq::<u8>::empty()));
}

} // verus!
