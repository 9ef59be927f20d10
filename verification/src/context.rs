use vstd::prelude::*;

use crate::error::Error;
use crate::model::Model;
use crate::params::Params;
use crate::text::{check_representable, representable};
use crate::Token;

verus! {

/// The native tokenizer's raw answer for one call: the signed length it
/// returned, and the tokens it wrote into the caller's buffer. The native
/// call is bounded by the buffer's capacity, so it never writes more tokens
/// than the buffer holds, and a positive return value is the count written.
pub struct TokenizeReply {
    /// The native return value: a positive token count on success,
    /// non-positive on failure.
    pub len: i32,
    /// The tokens the native call wrote, in order.
    pub written: Vec<Token>,
}

/// The native evaluation's raw answer for one call: its return code, and the
/// contents of the context's reused output storage after the call. Each entry
/// is the bit pattern of one native 32-bit floating-point value; the library
/// carries the bits through and never interprets them numerically.
pub struct EvalReply {
    /// The native return code: `0` on success.
    pub code: i32,
    /// The embedding storage contents after the call, one entry per dimension
    /// of the model's embedding space.
    pub embeddings: Vec<u32>,
}

/// The outcome of a tokenize call, as a function of the text and of the
/// length the native tokenizer reported: text not representable in the native
/// string form fails as `EncodingError` before the native layer is ever
/// consulted; a non-positive reported length is `TokenizeFailed`; otherwise
/// the reported length is the count of tokens now occupying the front of the
/// buffer.
pub open spec fn tokenize_outcome(text: Seq<char>, reported_len: int) -> Result<usize, Error> {
    if !representable(text) {
        Err(Error::EncodingError)
    } else if reported_len <= 0 {
        Err(Error::TokenizeFailed)
    } else {
        Ok(reported_len as usize)
    }
}

/// A buffer after a successful tokenize: the written tokens occupy its front,
/// and whatever followed them is untouched.
pub open spec fn tokenized_buffer(buf: Seq<Token>, written: Seq<Token>) -> Seq<Token> {
    written + buf.skip(written.len() as int)
}

/// Owns one native inference session: the evolving attention/key-value state
/// kept between evaluate calls, plus the reused output storage embeddings are
/// read from. A `Context` exists only if the native layer answered context
/// creation with a non-null handle. It is the exclusive owner of its handle
/// and is not safe for concurrent mutation: concurrency is achieved by giving
/// each thread its own context, sharing one read-only `Model` between them.
/// It must not outlive the model it was built from, and its exclusive
/// ownership of the session handle is what makes the release at the end of
/// its life happen exactly once.
pub struct Context {
    handle: u64,
    model_handle: u64,
    n_embd: usize,
    evaluated: bool,
    embd: Vec<u32>,
}

impl Context {
    /// The handles are non-null and the reused output storage always holds
    /// exactly one entry per embedding dimension.
    pub closed spec fn wf(&self) -> bool {
        self.handle != 0 && self.model_handle != 0 && self.embd@.len() == self.n_embd
    }

    /// The raw native session handle this context owns, as an integer.
    pub closed spec fn ctx_id(&self) -> u64 {
        self.handle
    }

    /// The handle of the model this context was built from.
    pub closed spec fn model_id(&self) -> u64 {
        self.model_handle
    }

    /// The model's embedding dimensionality.
    pub closed spec fn dim(&self) -> nat {
        self.n_embd as nat
    }

    /// Whether a successful evaluate has filled the output storage. Before
    /// that, the storage exists but its contents mean nothing.
    pub closed spec fn has_evaluated(&self) -> bool {
        self.evaluated
    }

    /// The current contents of the reused output storage.
    pub closed spec fn embd_view(&self) -> Seq<u32> {
        self.embd@
    }

    /// Takes ownership of the native layer's answer to creating a session
    /// against `model` with `params`: `raw_handle` is the returned context
    /// pointer as an integer, `0` for null, and `n_embd` the embedding
    /// dimensionality the native layer reports for the model. A null answer
    /// fails as `CreationFailed`. The context borrows the model — it never
    /// owns it — and must be dropped before the model is.
    pub fn new(model: &Model, params: Params, raw_handle: u64, n_embd: usize) -> (r: Result<
        Context,
        Error,
    >)
        requires
            model.wf(),
        ensures
            raw_handle == 0 ==> r == Err::<Context, Error>(Error::CreationFailed),
            raw_handle != 0 ==> (r matches Ok(c) && c.wf() && c.ctx_id() == raw_handle
                && c.model_id() == model.handle_id() && c.dim() == n_embd && !c.has_evaluated()
                && c.embd_view().len() == n_embd),
    {
        if raw_handle == 0 {
            return Err(Error::CreationFailed);
        }
        let mut embd: Vec<u32> = Vec::new();
        let mut i: usize = 0;
        while i < n_embd
            invariant
                i <= n_embd,
                embd@.len() == i,
            decreases n_embd - i,
        {
            embd.push(0);
            i = i + 1;
        }
        Ok(
            Context {
                handle: raw_handle,
                model_handle: model.raw_handle(),
                n_embd,
                evaluated: false,
                embd,
            },
        )
    }

    /// Settles one tokenize call: `text` is what was tokenized, `output` the
    /// caller-owned fixed-capacity buffer the native call wrote into, and
    /// `reply` the native tokenizer's raw answer; `is_start` records whether
    /// a leading beginning-of-sequence marker was requested (the native layer
    /// consumes it, the library reads nothing from it). On success the first
    /// `count` slots of the buffer hold the written tokens and the caller
    /// must truncate its view to that count before use; a `TokenizeFailed`
    /// buffer must be treated as untrustworthy.
    pub fn tokenize(
        &self,
        text: &str,
        output: &mut Vec<Token>,
        is_start: bool,
        reply: TokenizeReply,
    ) -> (r: Result<usize, Error>)
        requires
            self.wf(),
            reply.len > 0 ==> reply.written@.len() == reply.len as nat && reply.len as nat <= old(
                output,
            )@.len(),
        ensures
            r == tokenize_outcome(text@, reply.len as int),
            r == Err::<usize, Error>(Error::EncodingError) ==> final(output)@ == old(output)@,
            r is Ok ==> final(output)@ == tokenized_buffer(old(output)@, reply.written@)
                && final(output)@.len() == old(output)@.len(),
    {
        if !check_representable(text) {
            return Err(Error::EncodingError);
        }
        if reply.len <= 0 {
            return Err(Error::TokenizeFailed);
        }
        let count: usize = reply.len as usize;
        let mut i: usize = 0;
        while i < count
            invariant
                i <= count,
                count == reply.len as nat,
                reply.written@.len() == count,
                count <= output@.len(),
                output@.len() == old(output)@.len(),
                forall|j: int| 0 <= j < i ==> output@[j] == reply.written@[j],
                forall|j: int| i <= j < output@.len() ==> output@[j] == old(output)@[j],
            decreases count - i,
        {
            let t = reply.written[i];
            output[i] = t;
            i = i + 1;
        }
        proof {
            assert(output@ =~= tokenized_buffer(old(output)@, reply.written@));
        }
        Ok(count)
    }

    /// Settles one evaluation call: `tokens` is the batch the native layer
    /// consumed, `n_past` the offset already reflected in the session state,
    /// `n_threads` an internal-parallelism hint (all three pass through to
    /// the native call; the library reads nothing from them), and `reply` the
    /// call's raw answer. A zero code means the session state advanced and
    /// the output storage now holds the batch's embeddings — which invalidates
    /// any view taken earlier; a non-zero code is `EvalFailed`, after which
    /// the output storage must be treated as untrustworthy.
    pub fn eval(
        &mut self,
        tokens: &Vec<Token>,
        n_past: usize,
        n_threads: usize,
        reply: EvalReply,
    ) -> (r: Result<(), Error>)
        requires
            old(self).wf(),
            reply.code == 0 ==> reply.embeddings@.len() == old(self).dim(),
        ensures
            final(self).wf(),
            final(self).ctx_id() == old(self).ctx_id(),
            final(self).model_id() == old(self).model_id(),
            final(self).dim() == old(self).dim(),
            reply.code == 0 ==> r == Ok::<(), Error>(()) && final(self).has_evaluated()
                && final(self).embd_view() == reply.embeddings@,
            reply.code != 0 ==> r == Err::<(), Error>(Error::EvalFailed),
    {
        if reply.code != 0 {
            return Err(Error::EvalFailed);
        }
        self.embd = reply.embeddings;
        self.evaluated = true;
        Ok(())
    }

    /// The embeddings view: the context's reused output storage, one entry
    /// per dimension of the model's embedding space. The native layer defines
    /// no failure here — the storage exists even before any evaluate call, in
    /// which case its contents mean nothing; only its length is promised.
    /// The borrow ties the view to the context, and the next `eval` call
    /// (which needs the context exclusively) ends it, so a stale view can
    /// never be read.
    pub fn embeddings(&self) -> (r: &Vec<u32>)
        requires
            self.wf(),
        ensures
            r@ == self.embd_view(),
            r@.len() == self.dim(),
    {
        &self.embd
    }
}

/// Law: tokenizing is deterministic. The outcome — the count, or the failure —
/// is one fixed function of the text and the native tokenizer's answer, and on
/// success the occupied prefix of the buffer (the only part the caller may
/// use) is the written token sequence, whatever either buffer held before.
/// So two calls on the same text into fresh buffers, with the native
/// tokenizer answering alike, give an identical count and an identical token
/// sequence.
pub proof fn lemma_tokenize_deterministic(
    text: Seq<char>,
    len: i32,
    written: Seq<Token>,
    buf1: Seq<Token>,
    buf2: Seq<Token>,
)
    requires
        len > 0 ==> written.len() == len as nat && len as nat <= buf1.len() && len as nat
            <= buf2.len(),
    ensures
        tokenize_outcome(text, len as int) is Ok ==> tokenized_buffer(buf1, written).take(
            len as int,
        ) == tokenized_buffer(buf2, written).take(len as int),
        tokenize_outcome(text, len as int) matches Ok(count) ==> count == len as usize
            && tokenized_buffer(buf1, written).take(len as int) == written,
{
    if tokenize_outcome(text, len as int) is Ok {
        assert(tokenized_buffer(buf1, written).take(len as int) =~= written);
        assert(tokenized_buffer(buf2, written).take(len as int) =~= written);
    }
}

/// Law: on a well-formed context the embeddings view's length always equals
/// the model's embedding dimensionality — with zero prior evaluate calls just
/// as after any number of them.
pub proof fn lemma_embeddings_length(c: &Context)
    requires
        c.wf(),
    ensures
        c.embd_view().len() == c.dim(),
{
}

} // verus!
