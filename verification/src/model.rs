use vstd::prelude::*;
use vstd::utf8::{decode_utf8, valid_utf8};

use crate::error::Error;
use crate::params::Params;
use crate::text::{check_representable, representable};

verus! {

/// The fixed size of the scratch buffer the native layer writes the model's
/// descriptive type string into.
pub const TYPE_SCRATCH_LEN: usize = 256;

/// The outcome of loading a model, as a function of the path and of the raw
/// handle the native loader answered with (`0` stands for a null handle):
/// `None` means a model was obtained, `Some(e)` the failure `e`.
pub open spec fn load_outcome(path: Seq<char>, raw_handle: u64) -> Option<Error> {
    if !representable(path) {
        Some(Error::EncodingError)
    } else if raw_handle == 0 {
        Some(Error::LoadFailed)
    } else {
        None
    }
}

/// The descriptive type string recovered from the scratch buffer the native
/// layer filled and the length it reported: the reported length is clamped to
/// the buffer, the prefix of that length is decoded as UTF-8, and an invalid
/// byte sequence yields the empty string rather than a failure.
pub open spec fn type_string(scratch: Seq<u8>, reported_len: int) -> Seq<char> {
    let keep = if reported_len < 0 {
        0
    } else if reported_len > scratch.len() {
        scratch.len() as int
    } else {
        reported_len
    };
    let prefix = scratch.take(keep);
    if valid_utf8(prefix) {
        decode_utf8(prefix)
    } else {
        Seq::<char>::empty()
    }
}

/// Owns one loaded native model. A `Model` exists only if the native loader
/// answered with a non-null handle, so nothing downstream ever needs to guard
/// against a missing handle; it is the exclusive owner of that handle, and
/// access after loading is read-only, so one model may be shared by several
/// inference contexts. Exclusive ownership is also what makes the release at
/// the end of the model's life happen exactly once: the process boundary
/// frees the handle when its single owner goes away, never twice.
pub struct Model {
    handle: u64,
}

impl Model {
    /// The raw native handle this model owns, as an integer.
    pub closed spec fn handle_id(&self) -> u64 {
        self.handle
    }

    /// The handle is the native loader's answer, and a null handle never
    /// becomes a `Model`.
    pub open spec fn wf(&self) -> bool {
        self.handle_id() != 0
    }

    /// Takes ownership of the native loader's answer for `path` and `params`:
    /// `raw_handle` is the returned model pointer as an integer, `0` for
    /// null. A path that is not representable in the native string form could
    /// never have been handed to the loader and fails as `EncodingError`; a
    /// null answer fails as `LoadFailed`; otherwise the model owns the
    /// handle. `params` is the configuration the load was performed with; the
    /// library passes it through and reads nothing from it.
    ///
    /// The process-wide backend initialization gate stands with the native
    /// calls at the process boundary: it runs the native init exactly once,
    /// before the first load, and every later caller observes its completion.
    pub fn new(path: &str, params: Params, raw_handle: u64) -> (r: Result<Model, Error>)
        ensures
            r matches Err(e) ==> load_outcome(path@, raw_handle) == Some(e),
            r matches Ok(m) ==> load_outcome(path@, raw_handle) is None && m.wf()
                && m.handle_id() == raw_handle,
    {
        if !check_representable(path) {
            return Err(Error::EncodingError);
        }
        if raw_handle == 0 {
            return Err(Error::LoadFailed);
        }
        Ok(Model { handle: raw_handle })
    }

    /// The raw handle, for tying a context to the model it was built from.
    pub(crate) fn raw_handle(&self) -> (h: u64)
        ensures
            h == self.handle_id(),
    {
        self.handle
    }

    /// Recovers the model's descriptive type string from the native query's
    /// raw outcome: `scratch` is the fixed-size buffer the native call wrote
    /// into, `reported_len` the length it returned. Never fails: an invalid
    /// byte sequence yields the empty string, a best-effort diagnostic.
    pub fn model_type(&self, scratch: Vec<u8>, reported_len: i32) -> (s: String)
        requires
            self.wf(),
            scratch@.len() == TYPE_SCRATCH_LEN,
        ensures
            s@ == type_string(scratch@, reported_len as int),
    {
        let mut buf = scratch;
        let keep: usize = if reported_len < 0 {
            0
        } else {
            reported_len as usize
        };
        buf.truncate(keep);
        proof {
            if keep >= TYPE_SCRATCH_LEN {
                assert(buf@ =~= scratch@.take(scratch@.len() as int));
            }
        }
        match utf8_to_string(buf) {
            Some(s) => s,
            None => String::new(),
        }
    }
}

/// Relies on `String::from_utf8`: it returns `Ok` exactly when the bytes are
/// valid UTF-8, and the resulting string is their decoding.
#[verifier::external_body]
fn utf8_to_string(bytes: Vec<u8>) -> (r: Option<String>)
    ensures
        r matches Some(s) ==> valid_utf8(bytes@) && s@ == decode_utf8(bytes@),
        r is None ==> !valid_utf8(bytes@),
{
    match String::from_utf8(bytes) {
        Ok(s) => Some(s),
        Err(_) => None,
    }
}

/// Law: when the native loader answers with a null handle — as it does for a
/// nonexistent path — loading yields `LoadFailed` and never a usable model.
pub proof fn lemma_null_load_never_yields_model(path: Seq<char>, raw_handle: u64)
    requires
        representable(path),
        raw_handle == 0,
    ensures
        load_outcome(path, raw_handle) == Some(Error::LoadFailed),
{
}

} // verus!
