use vstd::prelude::*;

use crate::context::{Context, EvalReply, TokenizeReply};
use crate::context::{tokenize_outcome, tokenized_buffer};
use crate::error::Error;
use crate::text::representable;
use crate::Token;

verus! {

/// Runs one pass of the inference pipeline in the one order the native
/// layer's invariants allow: tokenize with a sequence-start marker into the
/// reusable caller-owned buffer, truncate the buffer to the returned count,
/// evaluate exactly that truncated sequence with a zero prior-token offset
/// and the caller's thread-count hint, then read the embeddings view. The
/// sequence evaluated is never longer than the count the tokenizer reported,
/// which never exceeds the buffer's capacity.
///
/// `tok_reply` and `eval_reply` are the two native calls' raw answers. The
/// preconditions name exactly the inputs on which every stage succeeds;
/// callers that cannot rule the failures out make the calls one at a time and
/// handle each error where it arises.
pub fn get_embeddings<'a>(
    llama: &'a mut Context,
    token_buffer: &mut Vec<Token>,
    text: &str,
    n_threads: usize,
    tok_reply: TokenizeReply,
    eval_reply: EvalReply,
) -> (r: &'a Vec<u32>)
    requires
        old(llama).wf(),
        representable(text@),
        tok_reply.len > 0,
        tok_reply.written@.len() == tok_reply.len as nat,
        tok_reply.len as nat <= old(token_buffer)@.len(),
        eval_reply.code == 0,
        eval_reply.embeddings@.len() == old(llama).dim(),
    ensures
        final(llama).wf(),
        final(llama).ctx_id() == old(llama).ctx_id(),
        final(llama).model_id() == old(llama).model_id(),
        final(llama).dim() == old(llama).dim(),
        final(llama).has_evaluated(),
        final(llama).embd_view() == eval_reply.embeddings@,
        final(token_buffer)@ == tok_reply.written@,
        final(token_buffer)@.len() == tok_reply.len as nat,
        final(token_buffer)@.len() <= old(token_buffer)@.len(),
        r@ == eval_reply.embeddings@,
        r@.len() == old(llama).dim(),
{
    let ghost written = tok_reply.written@;
    let len = llama.tokenize(text, token_buffer, true, tok_reply).unwrap();
    token_buffer.truncate(len);
    proof {
        assert(token_buffer@ =~= written);
    }
    let evaluated = llama.eval(token_buffer, 0, n_threads, eval_reply);
    proof {
        assert(evaluated is Ok);
    }
    llama.embeddings()
}

/// Law: the sequence the pipeline evaluates — the buffer truncated to the
/// tokenizer's count — is the tokenizer's output alone, whatever the reusable
/// buffer held before the run. Two runs on the same text with the native
/// engine answering alike therefore evaluate the same token sequence and,
/// the returned vector being exactly the evaluation's answer, yield identical
/// embedding vectors, even though the runs reuse one buffer.
pub proof fn lemma_pipeline_deterministic(
    text: Seq<char>,
    len: i32,
    written: Seq<Token>,
    buf1: Seq<Token>,
    buf2: Seq<Token>,
)
    requires
        representable(text),
        len > 0,
        written.len() == len as nat,
        len as nat <= buf1.len(),
        len as nat <= buf2.len(),
    ensures
        tokenize_outcome(text, len as int) == Ok::<usize, Error>(len as usize),
        tokenized_buffer(buf1, written).take(len as int) == written,
        tokenized_buffer(buf2, written).take(len as int) == written,
{
    assert(tokenized_buffer(buf1, written).take(len as int) =~= written);
    assert(tokenized_buffer(buf2, written).take(len as int) =~= written);
}

} // verus!
