use llama_rs::{Error, Model, Params, TYPE_SCRATCH_LEN};

// The native loader answers a nonexistent path with a null handle (0 here).
#[test]
fn nonexistent_path_yields_load_failed() {
    let r = Model::new("/no/such/model.gguf", Params::new(), 0);
    assert!(matches!(r, Err(Error::LoadFailed)));
}

#[test]
fn nul_in_path_is_encoding_error() {
    // A non-representable path fails before the loader's answer matters.
    let r = Model::new("mod\0els.gguf", Params::new(), 3);
    assert!(matches!(r, Err(Error::EncodingError)));
}

#[test]
fn non_null_handle_loads() {
    let r = Model::new("models/llama-2-7b.gguf", Params::new(), 7);
    assert!(r.is_ok());
}

fn scratch_with(prefix: &[u8]) -> Vec<u8> {
    let mut scratch = vec![0u8; TYPE_SCRATCH_LEN];
    scratch[..prefix.len()].copy_from_slice(prefix);
    scratch
}

#[test]
fn model_type_reads_reported_prefix() {
    let model = Model::new("m.gguf", Params::new(), 7).unwrap();
    let scratch = scratch_with(b"llama 7B junk after");
    let s = model.model_type(scratch, 8);
    assert_eq!(s, "llama 7B");
}

#[test]
fn model_type_invalid_utf8_is_empty() {
    let model = Model::new("m.gguf", Params::new(), 7).unwrap();
    let scratch = scratch_with(&[0xff, 0xfe, 0xfd, 0xfc]);
    let s = model.model_type(scratch, 4);
    assert_eq!(s, "");
}

#[test]
fn model_type_negative_length_is_empty() {
    let model = Model::new("m.gguf", Params::new(), 7).unwrap();
    let scratch = scratch_with(b"llama 7B");
    let s = model.model_type(scratch, -3);
    assert_eq!(s, "");
}

#[test]
fn model_type_overlong_report_is_clamped() {
    let model = Model::new("m.gguf", Params::new(), 7).unwrap();
    let scratch = vec![b'a'; TYPE_SCRATCH_LEN];
    let s = model.model_type(scratch, 999);
    assert_eq!(s.len(), TYPE_SCRATCH_LEN);
    assert!(s.bytes().all(|b| b == b'a'));
}
