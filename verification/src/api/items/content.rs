//! The content transfer core: a transfer handle committed to one mode, and
//! the chunked upload engine behind its write mode.
//!
//! The engine accumulates bytes, decides when to flush a chunk, computes the
//! chunk digest and the chunk submission URL, and tracks cumulative progress.
//! It performs no network call itself: a flush hands the caller a fully built
//! [`ChunkRequest`]; the caller performs one HTTP POST and reports the outcome
//! back through [`ChunkState::resolve`], which either commits the progress or
//! restores the engine to its state before the write.

use vstd::prelude::*;
use vstd::pervasive::cloned;
use crate::api::items::path::{entity_uri_of, Path};
use crate::digest::{chunk_hash, chunk_hash_of};
use crate::error::{ApiResult, Error};
use crate::json::{get_string_field, json_rep, obj_str_field};
use crate::odata::parameters::{options_pairs, utf8_pairs, Parameters};
use crate::text::{dec_of, u64_to_string};
use crate::urlenc::enc_pairs;

verus! {

/// Default chunk size threshold, in bytes.
pub const DEFAULT_CHUNK_SIZE: usize = 16384;

/// One successfully submitted chunk, as the remote side saw it.
pub struct ChunkRecord {
    /// Zero-based sequence number sent as `index`.
    pub index: int,
    /// Start offset sent as `offset`.
    pub offset: int,
    /// The payload bytes of the chunk.
    pub body: Seq<u8>,
    /// The lowercase hex digest sent as `filehash`.
    pub hash: Seq<char>,
    /// Whether the chunk carried `finish=true`.
    pub finish: bool,
}

/// The mathematical state of the chunked upload engine.
#[verifier::ext_equal]
pub struct ChunkModel {
    /// Total byte length of the transfer, fixed at construction.
    pub declared: int,
    /// Bytes acknowledged by the remote side so far.
    pub confirmed: int,
    /// Bytes accepted from the caller but not yet sent.
    pub pending: Seq<u8>,
    /// Sequence number of the next chunk.
    pub index: int,
    /// Flush threshold.
    pub chunk_size: int,
    /// Immutable base URL for chunk submission.
    pub uri: Seq<char>,
    /// Whether a flush is in flight, awaiting its outcome.
    pub flushing: bool,
    /// While a flush is in flight: how many pending bytes the triggering
    /// write appended, so a failure can restore the prior state.
    pub accepted: int,
    /// All chunks submitted successfully so far.
    pub history: Seq<ChunkRecord>,
}

/// What a write does, beyond changing the state.
pub enum ModelEffect {
    /// The write was refused with `SizeExceeded`.
    Rejected,
    /// The bytes were buffered; no network request is due.
    Buffered,
    /// A flush was triggered: this chunk must be POSTed.
    Flush(ChunkRecord),
}

/// The total length of the chunk bodies in `h`.
pub open spec fn sum_lens(h: Seq<ChunkRecord>) -> int
    decreases h.len(),
{
    if h.len() == 0 {
        0
    } else {
        sum_lens(h.drop_last()) + h.last().body.len()
    }
}

/// Well-formedness of an engine state. Everything the engine ever promises
/// follows from this invariant, which every operation preserves.
pub open spec fn wf_model(m: ChunkModel) -> bool {
    &&& 1 <= m.chunk_size
    &&& m.declared <= 0xffff_ffff * m.chunk_size
    &&& 0 <= m.confirmed
    &&& m.confirmed + m.pending.len() <= m.declared
    &&& m.index == m.history.len()
    &&& m.confirmed == sum_lens(m.history)
    &&& forall|k: int| 0 <= k < m.history.len() ==> (#[trigger] m.history[k]).index == k
    &&& forall|k: int|
        0 <= k < m.history.len() ==> (#[trigger] m.history[k]).offset == sum_lens(
            m.history.take(k),
        )
    &&& forall|k: int|
        0 <= k < m.history.len() ==> (#[trigger] m.history[k]).hash == chunk_hash_of(
            m.history[k].body,
        )
    &&& forall|k: int| 0 <= k < m.history.len() ==> 1 <= (#[trigger] m.history[k]).body.len()
    &&& forall|k: int|
        0 <= k < m.history.len() ==> ((#[trigger] m.history[k]).finish <==> m.history[k].offset
            + m.history[k].body.len() == m.declared)
    &&& forall|k: int|
        0 <= k < m.history.len() ==> (!(#[trigger] m.history[k]).finish ==> m.chunk_size
            <= m.history[k].body.len())
    &&& forall|k: int|
        0 <= k < m.history.len() ==> (#[trigger] m.history[k]).body.len() <= m.chunk_size
    &&& 0 <= m.accepted <= m.pending.len()
    &&& (m.flushing ==> flush_due(m))
}

/// Whether a chunk is due for submission: the buffer holds at least a full
/// chunk, or the declared size is reached and a shorter terminal chunk
/// remains.
pub open spec fn flush_due(m: ChunkModel) -> bool {
    m.pending.len() >= m.chunk_size || (m.pending.len() > 0 && m.confirmed + m.pending.len()
        == m.declared)
}

/// How many bytes the next chunk carries: a full chunk, or the whole
/// remaining buffer when the transfer ends within it.
pub open spec fn chunk_len(m: ChunkModel) -> int {
    if m.pending.len() >= m.chunk_size {
        m.chunk_size
    } else {
        m.pending.len() as int
    }
}

/// The chunk the engine submits next: the first `chunk_len` buffered
/// bytes, under the current counter and offset, terminal exactly when it
/// brings the confirmed count to the declared size.
pub open spec fn pending_record(m: ChunkModel) -> ChunkRecord {
    ChunkRecord {
        index: m.index,
        offset: m.confirmed,
        body: m.pending.take(chunk_len(m)),
        hash: chunk_hash_of(m.pending.take(chunk_len(m))),
        finish: m.confirmed + chunk_len(m) == m.declared,
    }
}

/// The query string appended for one chunk submission.
pub open spec fn chunk_query_of(index: int, offset: int, hash: Seq<char>, finish: bool) -> Seq<
    char,
> {
    (if finish {
        "finish=true&"@
    } else {
        Seq::<char>::empty()
    }) + "index="@ + dec_of(index) + "&offset="@ + dec_of(offset) + "&filehash="@ + hash
}

/// The full URL for one chunk submission: the base URL, a `&`, and the
/// chunk's query parameters.
pub open spec fn chunk_url_of(
    base: Seq<char>,
    index: int,
    offset: int,
    hash: Seq<char>,
    finish: bool,
) -> Seq<char> {
    base + "&"@ + chunk_query_of(index, offset, hash, finish)
}

/// What a write does to the engine state, and which effect it has.
///
/// The order follows the write algorithm exactly: refuse a write past the
/// declared size, append the input, then flush when the buffer reaches the
/// chunk size or the declared size is reached.
pub open spec fn model_write(m: ChunkModel, buf: Seq<u8>) -> (ChunkModel, ModelEffect) {
    if m.confirmed == m.declared {
        (m, ModelEffect::Rejected)
    } else if m.confirmed + m.pending.len() + buf.len() > m.declared {
        (m, ModelEffect::Rejected)
    } else {
        let m1 = ChunkModel { pending: m.pending + buf, accepted: buf.len() as int, ..m };
        if flush_due(m1) {
            (ChunkModel { flushing: true, ..m1 }, ModelEffect::Flush(pending_record(m1)))
        } else {
            (m1, ModelEffect::Buffered)
        }
    }
}

/// What asking for the next due chunk does: hands the chunk out and marks
/// it in flight when one is due, and changes nothing otherwise.
pub open spec fn model_next_flush(m: ChunkModel) -> (ChunkModel, Option<ChunkRecord>) {
    if flush_due(m) {
        (ChunkModel { flushing: true, ..m }, Some(pending_record(m)))
    } else {
        (m, None)
    }
}

/// The state after the in-flight chunk was acknowledged: the chunk is
/// recorded, the confirmed count and the counter advance, and the chunk's
/// bytes leave the buffer.
pub open spec fn model_commit(m: ChunkModel) -> ChunkModel {
    let k = chunk_len(m);
    let rest = m.pending.skip(k);
    ChunkModel {
        confirmed: m.confirmed + k,
        pending: rest,
        index: m.index + 1,
        flushing: false,
        accepted: if m.accepted <= rest.len() {
            m.accepted
        } else {
            rest.len() as int
        },
        history: m.history.push(pending_record(m)),
        ..m
    }
}

/// The state after the in-flight chunk failed: no progress is recorded,
/// and the bytes that the triggering write appended and that were not yet
/// committed are dropped again, so when nothing of that write was
/// committed the engine stands exactly as before it.
pub open spec fn model_rollback(m: ChunkModel) -> ChunkModel {
    ChunkModel {
        pending: m.pending.take(m.pending.len() - m.accepted),
        flushing: false,
        accepted: 0,
        ..m
    }
}

/// Whether a built request carries exactly the chunk a record prescribes,
/// with the submission URL built on the given base.
pub open spec fn request_matches(uri: Seq<char>, rec: ChunkRecord, req: ChunkRequest) -> bool {
    &&& req.index as int == rec.index
    &&& req.offset as int == rec.offset
    &&& req.body@ == rec.body
    &&& req.filehash@ == rec.hash
    &&& req.finish == rec.finish
    &&& req.url@ == chunk_url_of(uri, rec.index, rec.offset, rec.hash, rec.finish)
}

/// What `ChunkState::write` returns for a given engine state and input:
/// the result mirrors the effect that `model_write` prescribes, and a flush
/// hands out exactly the chunk that the model records.
pub open spec fn write_result_matches(m: ChunkModel, buf: Seq<u8>, r: ApiResult<WriteStep>) -> bool {
    match model_write(m, buf).1 {
        ModelEffect::Rejected => r == Err::<WriteStep, Error>(Error::SizeExceeded),
        ModelEffect::Buffered => r == Ok::<WriteStep, Error>(WriteStep::Buffered),
        ModelEffect::Flush(rec) => match r {
            Ok(WriteStep::Flush(req)) => request_matches(m.uri, rec, req),
            _ => false,
        },
    }
}

/// A fully built chunk submission request. The caller sends `body` in one
/// HTTP POST to `url` and reports the outcome to [`ChunkState::resolve`].
pub struct ChunkRequest {
    /// The chunk submission URL with all query parameters appended.
    pub url: String,
    /// The `index` parameter.
    pub index: u32,
    /// The `offset` parameter.
    pub offset: u64,
    /// The `filehash` parameter.
    pub filehash: String,
    /// Whether `finish=true` was appended.
    pub finish: bool,
    /// The chunk payload.
    pub body: Vec<u8>,
}

/// What a write call asks of the caller.
pub enum WriteStep {
    /// The bytes were buffered; nothing to send.
    Buffered,
    /// Send this chunk, then report the outcome through `resolve`.
    Flush(ChunkRequest),
}

/// The outcome of the HTTP POST for one chunk, as the caller observed it.
pub enum PostOutcome {
    /// The request completed with this HTTP status code.
    Status(u16),
    /// The request did not complete; the payload describes the cause.
    Failed(String),
}

/// The chunked upload engine's mutable progress record.
pub struct ChunkState {
    chunk_uri: String,
    declared_size: u64,
    bytes_confirmed: u64,
    pending: Vec<u8>,
    chunk_index: u32,
    chunk_size: usize,
    flushing: bool,
    accepted: usize,
    history: Ghost<Seq<ChunkRecord>>,
}

impl View for ChunkState {
    type V = ChunkModel;

    closed spec fn view(&self) -> ChunkModel {
        ChunkModel {
            declared: self.declared_size as int,
            confirmed: self.bytes_confirmed as int,
            pending: self.pending@,
            index: self.chunk_index as int,
            chunk_size: self.chunk_size as int,
            uri: self.chunk_uri@,
            flushing: self.flushing,
            accepted: self.accepted as int,
            history: self.history@,
        }
    }
}

impl ChunkState {
    /// Well-formedness of the engine. Constructors establish it and every
    /// operation preserves it.
    pub open spec fn wf(&self) -> bool {
        wf_model(self@)
    }

    /// Create an engine for a transfer of exactly `declared_size` bytes,
    /// submitting chunks of exactly `chunk_size` bytes (the last one may be
    /// shorter) to `chunk_uri`.
    ///
    /// The chunk counter is 32 bits wide, and every chunk but the last holds
    /// at least `chunk_size` bytes, so the declared size must fit in
    /// `u32::MAX` chunks.
    pub fn new(chunk_uri: String, declared_size: u64, chunk_size: usize) -> (r: ChunkState)
        requires
            1 <= chunk_size,
            declared_size as int <= 0xffff_ffff * (chunk_size as int),
        ensures
            r.wf(),
            r@ == (ChunkModel {
                declared: declared_size as int,
                confirmed: 0,
                pending: Seq::<u8>::empty(),
                index: 0,
                chunk_size: chunk_size as int,
                uri: chunk_uri@,
                flushing: false,
                accepted: 0,
                history: Seq::<ChunkRecord>::empty(),
            }),
    {
        ChunkState {
            chunk_uri,
            declared_size,
            bytes_confirmed: 0,
            pending: Vec::new(),
            chunk_index: 0,
            chunk_size,
            flushing: false,
            accepted: 0,
            history: Ghost(Seq::empty()),
        }
    }

    /// The declared total size of the transfer.
    pub fn declared_size(&self) -> (r: u64)
        ensures
            r as int == self@.declared,
    {
        self.declared_size
    }

    /// Cumulative bytes acknowledged by the remote side.
    pub fn bytes_confirmed(&self) -> (r: u64)
        ensures
            r as int == self@.confirmed,
    {
        self.bytes_confirmed
    }

    /// The sequence number of the next chunk.
    pub fn chunk_index(&self) -> (r: u32)
        ensures
            r as int == self@.index,
    {
        self.chunk_index
    }

    /// How many bytes are buffered but not yet sent.
    pub fn pending_len(&self) -> (r: usize)
        ensures
            r as int == self@.pending.len(),
    {
        self.pending.len()
    }

    /// Whether the engine reached its terminal state: every declared byte
    /// was acknowledged, and no further write is permitted.
    pub fn is_complete(&self) -> (r: bool)
        ensures
            r == (self@.confirmed == self@.declared),
    {
        self.bytes_confirmed == self.declared_size
    }

    /// Accept bytes into the engine.
    ///
    /// Refuses the write with `SizeExceeded` when the transfer is already
    /// complete, or when accepting `buf` would exceed the declared size; the
    /// state is then unchanged and no request is due. Otherwise the bytes
    /// are appended, and when a chunk is due — the buffer reached the chunk
    /// size, or the declared size was reached — the first such chunk is
    /// handed back fully built: its `index` is the chunk counter, its
    /// `offset` the bytes confirmed so far, its `filehash` the lowercase hex
    /// digest of exactly its payload, and `finish=true` exactly on the
    /// terminal chunk. After a successful `resolve`, further due chunks are
    /// handed out by [`ChunkState::next_flush`] until none remains.
    #[verifier::rlimit(60)]
    pub fn write(&mut self, buf: &[u8]) -> (r: ApiResult<WriteStep>)
        requires
            old(self).wf(),
            !old(self)@.flushing,
        ensures
            final(self).wf(),
            final(self)@ == model_write(old(self)@, buf@).0,
            final(self)@.flushing == (model_write(old(self)@, buf@).1 matches ModelEffect::Flush(
                _,
            )),
            write_result_matches(old(self)@, buf@, r),
    {
        if self.bytes_confirmed == self.declared_size {
            return Err(Error::SizeExceeded);
        }
        let remaining: u64 = self.declared_size - self.bytes_confirmed;
        let buffered: u64 = self.pending.len() as u64;
        if buf.len() as u64 > remaining - buffered {
            return Err(Error::SizeExceeded);
        }
        self.pending.extend_from_slice(buf);
        proof {
            assert forall|i: int|
                0 <= i < self.pending@.len() implies self.pending@[i] == (old(self)@.pending
                + buf@)[i] by {
                if i >= old(self)@.pending.len() {
                    assert(cloned::<u8>(buf@[i - old(self)@.pending.len()], self.pending@[i]));
                }
            }
            assert(self.pending@ =~= old(self)@.pending + buf@);
        }
        self.accepted = buf.len();
        match self.next_flush() {
            Some(req) => Ok(WriteStep::Flush(req)),
            None => Ok(WriteStep::Buffered),
        }
    }

    /// Hand out the next due chunk, when one is due: after a committed
    /// flush the buffer may still hold one or more full chunks, or the
    /// short terminal chunk, and each must be submitted in turn before the
    /// next write.
    #[verifier::rlimit(60)]
    pub fn next_flush(&mut self) -> (r: Option<ChunkRequest>)
        requires
            old(self).wf(),
            !old(self)@.flushing,
        ensures
            final(self).wf(),
            final(self)@ == model_next_flush(old(self)@).0,
            final(self)@.flushing == (model_next_flush(old(self)@).1 is Some),
            match model_next_flush(old(self)@).1 {
                Some(rec) => r matches Some(req) && request_matches(old(self)@.uri, rec, req),
                None => r is None,
            },
    {
        let due: bool = self.pending.len() >= self.chunk_size || (self.pending.len() > 0
            && self.bytes_confirmed + self.pending.len() as u64 == self.declared_size);
        if !due {
            return None;
        }
        let k: usize = if self.pending.len() >= self.chunk_size {
            self.chunk_size
        } else {
            self.pending.len()
        };
        let chunk: &[u8] = &self.pending.as_slice()[0..k];
        proof {
            assert(chunk@ =~= self@.pending.take(k as int));
        }
        let finish: bool = self.bytes_confirmed + k as u64 == self.declared_size;
        let hash = chunk_hash(chunk);
        let url = self.build_chunk_url(&hash, finish);
        let mut body: Vec<u8> = Vec::new();
        body.extend_from_slice(chunk);
        proof {
            assert forall|i: int| 0 <= i < body@.len() implies body@[i] == chunk@[i] by {
                assert(cloned::<u8>(chunk@[i], body@[i]));
            }
            assert(body@ =~= chunk@);
        }
        let req = ChunkRequest {
            url,
            index: self.chunk_index,
            offset: self.bytes_confirmed,
            filehash: hash,
            finish,
            body,
        };
        self.flushing = true;
        proof {
            let rec = model_next_flush(old(self)@).1->Some_0;
            assert(req.body@ == rec.body);
            assert(req.filehash@ == rec.hash);
            assert(req.finish == rec.finish);
            assert(req.url@ == chunk_url_of(
                old(self)@.uri,
                rec.index,
                rec.offset,
                rec.hash,
                rec.finish,
            ));
            assert(self@ =~= model_next_flush(old(self)@).0);
        }
        Some(req)
    }

    /// Report the outcome of the POST for the chunk handed out by the last
    /// write or `next_flush`.
    ///
    /// On a success status (2xx) the chunk is committed: the confirmed
    /// byte count grows by the chunk length, the chunk counter increments
    /// by one, and the chunk's bytes leave the buffer; the call returns the
    /// chunk length. On any other status, or on a transport failure,
    /// nothing is committed, and the bytes that the triggering write
    /// appended and that were not yet committed are dropped again: when
    /// the failure hit the write's first chunk, the engine stands exactly
    /// as before that write, and the same write may be retried.
    pub fn resolve(&mut self, outcome: PostOutcome) -> (r: ApiResult<usize>)
        requires
            old(self).wf(),
            old(self)@.flushing,
        ensures
            final(self).wf(),
            !final(self)@.flushing,
            match outcome {
                PostOutcome::Status(status) => {
                    if 200 <= status < 300 {
                        &&& final(self)@ == model_commit(old(self)@)
                        &&& r matches Ok(n) && n as int == chunk_len(old(self)@)
                    } else {
                        &&& final(self)@ == model_rollback(old(self)@)
                        &&& r == Err::<usize, Error>(Error::RemoteRejected(status))
                    }
                },
                PostOutcome::Failed(cause) => {
                    &&& final(self)@ == model_rollback(old(self)@)
                    &&& r == Err::<usize, Error>(Error::Transport(cause))
                },
            },
    {
        let ok: bool = match &outcome {
            PostOutcome::Status(status) => 200 <= *status && *status < 300,
            PostOutcome::Failed(_) => false,
        };
        if ok {
            proof {
                lemma_history_len_bounded(self@);
            }
            let k: usize = if self.pending.len() >= self.chunk_size {
                self.chunk_size
            } else {
                self.pending.len()
            };
            let ghost rec = pending_record(self@);
            self.bytes_confirmed = self.bytes_confirmed + k as u64;
            self.chunk_index = self.chunk_index + 1;
            let rest = self.pending.split_off(k);
            self.pending = rest;
            if self.accepted > self.pending.len() {
                self.accepted = self.pending.len();
            }
            self.flushing = false;
            proof {
                self.history@ = self.history@.push(rec);
                lemma_commit_preserves_wf(old(self)@);
                assert(self@.pending =~= model_commit(old(self)@).pending);
                assert(self@ =~= model_commit(old(self)@));
            }
            Ok(k)
        } else {
            let keep: usize = self.pending.len() - self.accepted;
            self.pending.truncate(keep);
            self.flushing = false;
            self.accepted = 0;
            proof {
                assert(self@ =~= model_rollback(old(self)@));
            }
            match outcome {
                PostOutcome::Status(status) => Err(Error::RemoteRejected(status)),
                PostOutcome::Failed(cause) => Err(Error::Transport(cause)),
            }
        }
    }

    /// Build the submission URL for the current buffer: the base URL, then
    /// `finish=true` (terminal chunk only), `index`, `offset` and
    /// `filehash`.
    fn build_chunk_url(&self, hash: &String, finish: bool) -> (r: String)
        ensures
            r@ == chunk_url_of(
                self@.uri,
                self@.index,
                self@.confirmed,
                hash@,
                finish,
            ),
    {
        let mut url = self.chunk_uri.clone();
        url.append("&");
        if finish {
            url.append("finish=true&");
        }
        url.append("index=");
        let index_str = u64_to_string(self.chunk_index as u64);
        url.append(index_str.as_str());
        url.append("&offset=");
        let offset_str = u64_to_string(self.bytes_confirmed);
        url.append(offset_str.as_str());
        url.append("&filehash=");
        url.append(hash.as_str());
        assert(url@ =~= chunk_url_of(self@.uri, self@.index, self@.confirmed, hash@, finish));
        url
    }
}

/// A transfer handle, committed at construction to one of two mutually
/// exclusive modes and never switching. Using it in the other mode fails
/// with `ModeViolation` and never touches any state.
///
/// In read mode the handle carries no state of its own: the caller owns the
/// byte source and merely checks the mode before relaying from it. In write
/// mode the handle owns the chunked upload engine.
pub enum TransferHandle {
    /// The handle relays bytes from a download stream.
    Reading,
    /// The handle accumulates bytes into upload chunks.
    Writing(ChunkState),
}

impl TransferHandle {
    /// Well-formedness: in write mode, the engine's invariant holds.
    pub open spec fn wf(&self) -> bool {
        match self {
            TransferHandle::Reading => true,
            TransferHandle::Writing(engine) => engine.wf(),
        }
    }

    /// Open a handle in read mode.
    pub fn for_reading() -> (r: TransferHandle)
        ensures
            r matches TransferHandle::Reading,
            r.wf(),
    {
        TransferHandle::Reading
    }

    /// Open a handle in write mode, owning the given engine.
    pub fn for_writing(engine: ChunkState) -> (r: TransferHandle)
        requires
            engine.wf(),
        ensures
            r matches TransferHandle::Writing(e) && e@ == engine@,
            r.wf(),
    {
        TransferHandle::Writing(engine)
    }

    /// Whether reading through this handle is permitted.
    pub fn can_read(&self) -> (r: bool)
        ensures
            r == (self matches TransferHandle::Reading),
    {
        match self {
            TransferHandle::Reading => true,
            TransferHandle::Writing(_) => false,
        }
    }

    /// Check that the handle is in read mode; a write-mode handle yields
    /// `ModeViolation`.
    pub fn check_read_mode(&self) -> (r: ApiResult<()>)
        ensures
            self matches TransferHandle::Reading ==> r == Ok::<(), Error>(()),
            self matches TransferHandle::Writing(_) ==> r == Err::<(), Error>(
                Error::ModeViolation,
            ),
    {
        match self {
            TransferHandle::Reading => Ok(()),
            TransferHandle::Writing(_) => Err(Error::ModeViolation),
        }
    }

    /// Accept bytes through the handle, as [`ChunkState::write`] does; on a
    /// read-mode handle the call fails with `ModeViolation` and changes
    /// nothing.
    pub fn write(&mut self, buf: &[u8]) -> (r: ApiResult<WriteStep>)
        requires
            old(self).wf(),
            (*old(self)) matches TransferHandle::Writing(e) ==> !e@.flushing,
        ensures
            final(self).wf(),
            (*old(self)) matches TransferHandle::Reading ==> (*final(self)) matches
                TransferHandle::Reading && r == Err::<WriteStep, Error>(Error::ModeViolation),
            (*old(self)) matches TransferHandle::Writing(e) ==> (*final(self)) matches
                TransferHandle::Writing(e2) && e2@ == model_write(e@, buf@).0 && e2@.flushing == (
            model_write(e@, buf@).1 matches ModelEffect::Flush(_)) && write_result_matches(
                e@,
                buf@,
                r,
            ),
    {
        match self {
            TransferHandle::Reading => Err(Error::ModeViolation),
            TransferHandle::Writing(engine) => engine.write(buf),
        }
    }

    /// Hand out the next due chunk, as [`ChunkState::next_flush`] does; on
    /// a read-mode handle the call fails with `ModeViolation` and changes
    /// nothing.
    pub fn next_flush(&mut self) -> (r: ApiResult<Option<ChunkRequest>>)
        requires
            old(self).wf(),
            (*old(self)) matches TransferHandle::Writing(e) ==> !e@.flushing,
        ensures
            final(self).wf(),
            (*old(self)) matches TransferHandle::Reading ==> (*final(self)) matches
                TransferHandle::Reading && r == Err::<Option<ChunkRequest>, Error>(
                Error::ModeViolation,
            ),
            (*old(self)) matches TransferHandle::Writing(e) ==> (*final(self)) matches
                TransferHandle::Writing(e2) && e2@ == model_next_flush(e@).0 && e2@.flushing == (
            model_next_flush(e@).1 is Some) && match model_next_flush(e@).1 {
                Some(rec) => r matches Ok(Some(req)) && request_matches(e@.uri, rec, req),
                None => r == Ok::<Option<ChunkRequest>, Error>(None),
            },
    {
        match self {
            TransferHandle::Reading => Err(Error::ModeViolation),
            TransferHandle::Writing(engine) => Ok(engine.next_flush()),
        }
    }

    /// Report the outcome of the POST for the chunk handed out by the last
    /// write, as [`ChunkState::resolve`] does.
    pub fn resolve(&mut self, outcome: PostOutcome) -> (r: ApiResult<usize>)
        requires
            old(self).wf(),
            (*old(self)) matches TransferHandle::Writing(e) && e@.flushing,
        ensures
            final(self).wf(),
            (*old(self)) matches TransferHandle::Writing(e) ==> (*final(self)) matches
                TransferHandle::Writing(e2) && !e2@.flushing && match outcome {
                PostOutcome::Status(status) => {
                    if 200 <= status < 300 {
                        &&& e2@ == model_commit(e@)
                        &&& r matches Ok(n) && n as int == chunk_len(e@)
                    } else {
                        &&& e2@ == model_rollback(e@)
                        &&& r == Err::<usize, Error>(Error::RemoteRejected(status))
                    }
                },
                PostOutcome::Failed(cause) => {
                    &&& e2@ == model_rollback(e@)
                    &&& r == Err::<usize, Error>(Error::Transport(cause))
                },
            },
    {
        match self {
            TransferHandle::Reading => Err(Error::ModeViolation),
            TransferHandle::Writing(engine) => engine.resolve(outcome),
        }
    }
}

/// The entity URI that asks the remote API for download specifications:
/// the path's `/Download` segment, with redirects disabled.
pub fn download_request_uri(path: &Path) -> (r: String)
    ensures
        r@ == entity_uri_of(
            *path,
            "/Download"@,
            enc_pairs(utf8_pairs(seq![("redirect"@, "false"@)])),
        ),
{
    let params = Parameters::new().custom_add(
        (String::from_str("redirect"), String::from_str("false")),
    );
    proof {
        assert(options_pairs(params) =~= seq![("redirect"@, "false"@)]);
    }
    path.entity_and_parameters(Some("/Download"), Some(params))
}

/// The entity URI that asks the remote API for upload specifications: the
/// parent path's `/Upload` segment, carrying the upload's name, size and
/// flags as query parameters.
pub fn upload_request_uri(
    parent: &Path,
    name: &str,
    declared_size: u64,
    unzip: bool,
    overwrite: bool,
) -> (r: String)
    ensures
        r@ == entity_uri_of(
            *parent,
            "/Upload"@,
            enc_pairs(
                utf8_pairs(
                    seq![
                        ("method"@, "streamed"@),
                        ("raw"@, "true"@),
                        ("responseFormat"@, "json"@),
                        ("unzip"@, if unzip { "true"@ } else { "false"@ }),
                        ("overwrite"@, if overwrite { "true"@ } else { "false"@ }),
                        ("fileName"@, name@),
                        ("fileSize"@, dec_of(declared_size as int)),
                    ],
                ),
            ),
        ),
{
    let mut custom: Vec<(String, String)> = Vec::new();
    custom.push((String::from_str("method"), String::from_str("streamed")));
    custom.push((String::from_str("raw"), String::from_str("true")));
    custom.push((String::from_str("responseFormat"), String::from_str("json")));
    custom.push((String::from_str("unzip"), crate::api::bool_to_string(unzip)));
    custom.push((String::from_str("overwrite"), crate::api::bool_to_string(overwrite)));
    custom.push((String::from_str("fileName"), name.to_owned()));
    custom.push((String::from_str("fileSize"), u64_to_string(declared_size)));
    let params = Parameters::new().custom(custom);
    proof {
        assert(options_pairs(params) =~= seq![
            ("method"@, "streamed"@),
            ("raw"@, "true"@),
            ("responseFormat"@, "json"@),
            ("unzip"@, if unzip { "true"@ } else { "false"@ }),
            ("overwrite"@, if overwrite { "true"@ } else { "false"@ }),
            ("fileName"@, name@),
            ("fileSize"@, dec_of(declared_size as int)),
        ]);
    }
    parent.entity_and_parameters(Some("/Upload"), Some(params))
}

/// Extract the source URL from a download specification response; a
/// response without the `DownloadUrl` field is malformed.
pub fn download_url_from_spec(value: &serde_json::Value) -> (r: ApiResult<String>)
    ensures
        match obj_str_field(json_rep(*value), "DownloadUrl"@) {
            Some(u) => r matches Ok(s) && s@ == u,
            None => r matches Err(e) && e matches Error::SpecMissing(f) && f@ == "DownloadUrl"@,
        },
{
    match get_string_field(value, "DownloadUrl") {
        Some(url) => Ok(url),
        None => Err(Error::SpecMissing(String::from_str("DownloadUrl"))),
    }
}

/// Extract the chunk submission URL from an upload specification response;
/// a response without the `ChunkUri` field is malformed.
pub fn chunk_uri_from_spec(value: &serde_json::Value) -> (r: ApiResult<String>)
    ensures
        match obj_str_field(json_rep(*value), "ChunkUri"@) {
            Some(u) => r matches Ok(s) && s@ == u,
            None => r matches Err(e) && e matches Error::SpecMissing(f) && f@ == "ChunkUri"@,
        },
{
    match get_string_field(value, "ChunkUri") {
        Some(uri) => Ok(uri),
        None => Err(Error::SpecMissing(String::from_str("ChunkUri"))),
    }
}

/// The total of the bodies in `h.take(j)` grows by at least one byte per
/// chunk, since no chunk is empty.
proof fn lemma_sum_take_mono(h: Seq<ChunkRecord>, j: int, l: int)
    requires
        forall|k: int| 0 <= k < h.len() ==> 1 <= (#[trigger] h[k]).body.len(),
        0 <= j <= l <= h.len(),
    ensures
        sum_lens(h.take(j)) + (l - j) <= sum_lens(h.take(l)),
    decreases l - j,
{
    if j < l {
        lemma_sum_take_mono(h, j, l - 1);
        assert(h.take(l).drop_last() =~= h.take(l - 1));
        assert(sum_lens(h.take(l)) == sum_lens(h.take(l - 1)) + h[l - 1].body.len());
    }
}

/// The total of `h.take(j + 1)` is the total of `h.take(j)` plus the length
/// of chunk `j`.
proof fn lemma_sum_take_succ(h: Seq<ChunkRecord>, j: int)
    requires
        0 <= j < h.len(),
    ensures
        sum_lens(h.take(j + 1)) == sum_lens(h.take(j)) + h[j].body.len(),
{
    assert(h.take(j + 1).drop_last() =~= h.take(j));
}

/// If every chunk in `h` holds at least `c` bytes, the total holds at least
/// `h.len() * c` bytes.
proof fn lemma_sum_lens_lower_bound(h: Seq<ChunkRecord>, c: int)
    requires
        forall|k: int| 0 <= k < h.len() ==> c <= (#[trigger] h[k]).body.len(),
    ensures
        h.len() * c <= sum_lens(h),
    decreases h.len(),
{
    if h.len() > 0 {
        lemma_sum_lens_lower_bound(h.drop_last(), c);
        assert((h.len() - 1) * c + c == h.len() * c) by (nonlinear_arith);
    }
}

/// While the transfer is not complete, no recorded chunk was terminal, so
/// every recorded chunk holds at least `chunk_size` bytes and the chunk
/// counter stays below `u32::MAX`.
proof fn lemma_history_len_bounded(m: ChunkModel)
    requires
        wf_model(m),
        m.confirmed < m.declared,
    ensures
        m.history.len() < 0xffff_ffff,
    decreases m.history.len(),
{
    assert forall|k: int| 0 <= k < m.history.len() implies m.chunk_size <= (
    #[trigger] m.history[k]).body.len() by {
        if m.history[k].finish {
            lemma_sum_take_succ(m.history, k);
            lemma_sum_take_mono(m.history, k + 1, m.history.len() as int);
            assert(m.history.take(m.history.len() as int) =~= m.history);
        }
    }
    lemma_sum_lens_lower_bound(m.history, m.chunk_size);
    if m.history.len() >= 0xffff_ffff {
        assert(0xffff_ffff * m.chunk_size <= m.history.len() * m.chunk_size) by (nonlinear_arith)
            requires
                0xffff_ffff <= m.history.len(),
                1 <= m.chunk_size,
        ;
    }
}

/// Committing the in-flight chunk preserves well-formedness.
proof fn lemma_commit_preserves_wf(m: ChunkModel)
    requires
        wf_model(m),
        m.flushing,
    ensures
        wf_model(model_commit(m)),
{
    let m2 = model_commit(m);
    let h2 = m2.history;
    let rec = pending_record(m);
    assert(h2.drop_last() =~= m.history);
    assert(rec.body.len() == chunk_len(m));
    assert(sum_lens(h2) == m.confirmed + chunk_len(m));
    assert forall|k: int| 0 <= k < h2.len() implies (#[trigger] h2[k]).offset == sum_lens(
        h2.take(k),
    ) by {
        if k < m.history.len() {
            assert(h2.take(k) =~= m.history.take(k));
            assert(h2[k] == m.history[k]);
        } else {
            assert(h2.take(k) =~= m.history);
        }
    }
}

/// Every chunk's `offset` equals the total length of the chunks submitted
/// before it: offsets are cumulative.
pub proof fn lemma_chunk_offsets(m: ChunkModel)
    requires
        wf_model(m),
    ensures
        forall|k: int|
            0 <= k < m.history.len() ==> (#[trigger] m.history[k]).offset == sum_lens(
                m.history.take(k),
            ),
{
}

/// Every chunk's `index` equals its position in the submission order:
/// indices are zero-based and increase by exactly one per success.
pub proof fn lemma_chunk_indices(m: ChunkModel)
    requires
        wf_model(m),
    ensures
        forall|k: int| 0 <= k < m.history.len() ==> (#[trigger] m.history[k]).index == k,
{
}

/// Every chunk's `filehash` is the lowercase hex MD5 digest of exactly that
/// chunk's payload bytes.
pub proof fn lemma_chunk_hashes(m: ChunkModel)
    requires
        wf_model(m),
    ensures
        forall|k: int|
            0 <= k < m.history.len() ==> (#[trigger] m.history[k]).hash == chunk_hash_of(
                m.history[k].body,
            ),
{
}

/// Every submitted chunk except a terminal one holds exactly `chunk_size`
/// bytes; a terminal chunk holds at least one and at most `chunk_size`.
pub proof fn lemma_chunk_sizes(m: ChunkModel)
    requires
        wf_model(m),
    ensures
        forall|k: int|
            0 <= k < m.history.len() ==> (!(#[trigger] m.history[k]).finish ==> m.history[k].body.len()
                == m.chunk_size),
        forall|k: int|
            0 <= k < m.history.len() ==> 1 <= (#[trigger] m.history[k]).body.len() <= m.chunk_size,
{
}

/// The confirmed byte count never exceeds the declared size.
pub proof fn lemma_confirmed_never_exceeds_declared(m: ChunkModel)
    requires
        wf_model(m),
    ensures
        m.confirmed <= m.declared,
{
}

/// Once every declared byte is confirmed, the submitted chunk bodies total
/// exactly the declared size, and the last chunk — and only the last —
/// carried `finish=true`.
pub proof fn lemma_completed_transfer_totals(m: ChunkModel)
    requires
        wf_model(m),
        m.confirmed == m.declared,
    ensures
        sum_lens(m.history) == m.declared,
        m.declared > 0 ==> m.history.len() > 0,
        forall|k: int|
            0 <= k < m.history.len() ==> ((#[trigger] m.history[k]).finish <==> k == m.history.len()
                - 1),
{
    if m.declared > 0 && m.history.len() == 0 {
        assert(sum_lens(m.history) == 0);
    }
    assert forall|k: int| 0 <= k < m.history.len() implies ((#[trigger] m.history[k]).finish <==> k
        == m.history.len() - 1) by {
        let len = m.history.len() as int;
        lemma_sum_take_succ(m.history, k);
        assert(m.history.take(len) =~= m.history);
        lemma_sum_take_mono(m.history, k + 1, len);
        if k == len - 1 {
            assert(m.history[k].offset + m.history[k].body.len() == sum_lens(m.history));
        }
    }
}

/// A write refused after the transfer completed changes nothing: no state
/// change and no request.
pub proof fn lemma_write_after_complete_rejected(m: ChunkModel, buf: Seq<u8>)
    requires
        wf_model(m),
        m.confirmed == m.declared,
    ensures
        model_write(m, buf) == (m, ModelEffect::Rejected),
{
}

/// A failed flush restores the engine to its state before the write that
/// triggered it: confirmed bytes, chunk counter, buffered bytes and the
/// chunk history are all as they were.
pub proof fn lemma_failed_flush_restores_state(m: ChunkModel, buf: Seq<u8>)
    requires
        wf_model(m),
        !m.flushing,
        model_write(m, buf).1 matches ModelEffect::Flush(_),
    ensures
        ({
            let m2 = model_rollback(model_write(m, buf).0);
            &&& m2.confirmed == m.confirmed
            &&& m2.index == m.index
            &&& m2.pending == m.pending
            &&& m2.history == m.history
            &&& m2.declared == m.declared
            &&& m2.chunk_size == m.chunk_size
            &&& m2.uri == m.uri
            &&& !m2.flushing
        }),
{
    let m1 = model_write(m, buf).0;
    assert(m1.pending.take(m1.pending.len() - m1.accepted) =~= m.pending);
}

/// Retrying the same write after a failed flush reproduces the exact same
/// chunk request — same index, same offset, same digest, same body — and
/// leaves the engine in the same state as the first attempt did.
pub proof fn lemma_retry_reproduces_request(m: ChunkModel, buf: Seq<u8>)
    requires
        wf_model(m),
        !m.flushing,
        model_write(m, buf).1 matches ModelEffect::Flush(_),
    ensures
        model_write(model_rollback(model_write(m, buf).0), buf) == model_write(m, buf),
{
    lemma_failed_flush_restores_state(m, buf);
    let m3 = model_rollback(model_write(m, buf).0);
    let a = model_write(m3, buf);
    let b = model_write(m, buf);
    assert(m3.pending + buf =~= m.pending + buf);
    assert(a.0 =~~= b.0);
    assert(a.1 =~~= b.1);
}

} // verus!
