//! A safe ownership and pipeline layer around a native large-language-model
//! inference engine.
//!
//! The native engine is an opaque capability reached through a C-style
//! interface: raw handles, manual init/free, unchecked buffer lengths, and
//! primitive return codes. This library is the layer that makes that interface
//! safe to use: it owns the handles, enforces buffer capacities, fixes the
//! tokenize → evaluate → embeddings call order, and collapses raw return
//! codes and lengths into structured success/failure values.
//!
//! The native calls themselves happen at the process boundary; their raw
//! results (a possibly-null handle as an integer, a signed token count, a
//! return code, the bytes written into a scratch buffer) enter the library as
//! plain values, and every decision the library makes about them is verified
//! for every value they could take.

use vstd::prelude::*;

mod context;
mod error;
mod model;
mod params;
mod pipeline;
mod text;

pub use context::{Context, EvalReply, TokenizeReply};
pub use context::{lemma_embeddings_length, lemma_tokenize_deterministic};
pub use context::{tokenize_outcome, tokenized_buffer};
pub use error::Error;
pub use model::{lemma_null_load_never_yields_model, load_outcome, Model, TYPE_SCRATCH_LEN};
pub use params::{lemma_setters_commute, Params};
pub use pipeline::{get_embeddings, lemma_pipeline_deterministic};
pub use text::{check_representable, representable};

verus! {

/// A vocabulary identifier of the native engine: an opaque fixed-width value,
/// copyable, with no lifecycle of its own.
pub type Token = i32;

} // verus!
