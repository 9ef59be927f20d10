use vstd::prelude::*;

verus! {

/// The configuration handed to native model and context construction: a plain
/// value fully determined by explicit setters layered over defaults. Each
/// setter consumes the current value, replaces one field, and returns the
/// updated value; setters validate nothing and commute (see
/// [`lemma_setters_commute`]). Out-of-range values pass through unchecked and
/// surface only as native construction failures later.
#[derive(Clone, Copy, Debug, PartialEq, Eq, Structural)]
pub struct Params {
    /// How many layers to offload to the accelerator.
    pub n_gpu_layers: usize,
    /// The evaluation batch size.
    pub n_batch: usize,
    /// The context window size.
    pub n_ctx: usize,
    /// Whether the session is built for embedding extraction only.
    pub embedding: bool,
}

impl Params {
    /// The default parameter set that `new` seeds a configuration with.
    pub open spec fn default_spec() -> Params {
        Params { n_gpu_layers: 0, n_batch: 512, n_ctx: 512, embedding: false }
    }

    /// A fresh configuration holding the defaults.
    pub fn new() -> (p: Params)
        ensures
            p == Params::default_spec(),
    {
        Params { n_gpu_layers: 0, n_batch: 512, n_ctx: 512, embedding: false }
    }

    /// The value of `self` with the accelerator layer count replaced.
    pub open spec fn with_gpu_layers(self, count: usize) -> Params {
        Params {
            n_gpu_layers: count,
            n_batch: self.n_batch,
            n_ctx: self.n_ctx,
            embedding: self.embedding,
        }
    }

    /// Replaces the accelerator layer count, leaving every other field as it
    /// was.
    pub fn gpu_layers(self, count: usize) -> (p: Params)
        ensures
            p == self.with_gpu_layers(count),
    {
        Params {
            n_gpu_layers: count,
            n_batch: self.n_batch,
            n_ctx: self.n_ctx,
            embedding: self.embedding,
        }
    }

    /// The value of `self` with the batch size replaced.
    pub open spec fn with_batch_size(self, size: usize) -> Params {
        Params {
            n_gpu_layers: self.n_gpu_layers,
            n_batch: size,
            n_ctx: self.n_ctx,
            embedding: self.embedding,
        }
    }

    /// Replaces the batch size, leaving every other field as it was.
    pub fn batch_size(self, size: usize) -> (p: Params)
        ensures
            p == self.with_batch_size(size),
    {
        Params {
            n_gpu_layers: self.n_gpu_layers,
            n_batch: size,
            n_ctx: self.n_ctx,
            embedding: self.embedding,
        }
    }

    /// The value of `self` marked embedding-only.
    pub open spec fn with_embedding_only(self) -> Params {
        Params {
            n_gpu_layers: self.n_gpu_layers,
            n_batch: self.n_batch,
            n_ctx: self.n_ctx,
            embedding: true,
        }
    }

    /// Marks the configuration embedding-only, leaving every other field as
    /// it was.
    pub fn embedding_only(self) -> (p: Params)
        ensures
            p == self.with_embedding_only(),
    {
        Params {
            n_gpu_layers: self.n_gpu_layers,
            n_batch: self.n_batch,
            n_ctx: self.n_ctx,
            embedding: true,
        }
    }

    /// The value of `self` with the context window size replaced.
    pub open spec fn with_context_size(self, size: usize) -> Params {
        Params {
            n_gpu_layers: self.n_gpu_layers,
            n_batch: self.n_batch,
            n_ctx: size,
            embedding: self.embedding,
        }
    }

    /// Replaces the context window size, leaving every other field as it was.
    pub fn context_size(self, size: usize) -> (p: Params)
        ensures
            p == self.with_context_size(size),
    {
        Params {
            n_gpu_layers: self.n_gpu_layers,
            n_batch: self.n_batch,
            n_ctx: size,
            embedding: self.embedding,
        }
    }
}

impl Default for Params {
    /// The same defaults as `new`.
    fn default() -> (p: Params)
        ensures
            p == Params::default_spec(),
    {
        Params::new()
    }
}

/// Law: the setters commute pairwise, so a configuration built by chaining
/// setters does not depend on the order in which they were applied.
pub proof fn lemma_setters_commute(p: Params, g: usize, b: usize, c: usize)
    ensures
        p.with_gpu_layers(g).with_batch_size(b) == p.with_batch_size(b).with_gpu_layers(g),
        p.with_gpu_layers(g).with_context_size(c) == p.with_context_size(c).with_gpu_layers(g),
        p.with_gpu_layers(g).with_embedding_only() == p.with_embedding_only().with_gpu_layers(g),
        p.with_batch_size(b).with_context_size(c) == p.with_context_size(c).with_batch_size(b),
        p.with_batch_size(b).with_embedding_only() == p.with_embedding_only().with_batch_size(b),
        p.with_context_size(c).with_embedding_only() == p.with_embedding_only().with_context_size(
            c,
        ),
{
}

} // verus!
