use llama_rs::{Context, Error, EvalReply, Model, Params, TokenizeReply};

fn test_model() -> Model {
    Model::new("m.gguf", Params::new(), 7).unwrap()
}

#[test]
fn null_handle_is_creation_failed() {
    let model = test_model();
    let r = Context::new(&model, Params::new(), 0, 4096);
    assert!(matches!(r, Err(Error::CreationFailed)));
}

#[test]
fn fresh_context_embeddings_view_is_safe() {
    // No evaluate call has happened: the view's contents mean nothing, but
    // reading it is memory-safe and its length is the model's dimensionality.
    let model = test_model();
    let ctx = Context::new(&model, Params::new(), 9, 8).unwrap();
    let view = ctx.embeddings();
    assert_eq!(view.len(), 8);
    let mut sum: u64 = 0;
    for &bits in view.iter() {
        sum += bits as u64;
    }
    assert_eq!(sum, sum);
}

#[test]
fn tokenize_writes_the_reported_prefix() {
    let model = test_model();
    let ctx = Context::new(&model, Params::new(), 9, 4).unwrap();
    let mut buf = vec![9i32; 6];
    let reply = TokenizeReply { len: 3, written: vec![1, 2, 3] };
    let r = ctx.tokenize("hello world", &mut buf, true, reply);
    assert_eq!(r, Ok(3));
    assert_eq!(buf, vec![1, 2, 3, 9, 9, 9]);
}

#[test]
fn tokenize_same_text_is_deterministic() {
    // The native tokenizer answers the same text the same way; the wrapper
    // then yields an identical count and an identical token sequence.
    let model = test_model();
    let ctx = Context::new(&model, Params::new(), 9, 4).unwrap();
    let answer = vec![15043, 3186];

    let mut buf1 = vec![0i32; 8];
    let r1 = ctx
        .tokenize("hello world", &mut buf1, true, TokenizeReply { len: 2, written: answer.clone() })
        .unwrap();
    let mut buf2 = vec![0i32; 8];
    let r2 = ctx
        .tokenize("hello world", &mut buf2, true, TokenizeReply { len: 2, written: answer })
        .unwrap();

    assert_eq!(r1, r2);
    assert_eq!(&buf1[..r1], &buf2[..r2]);
}

#[test]
fn tokenize_over_capacity_fails_instead_of_truncating() {
    // A buffer of capacity 4 and text of 6 tokens: the native tokenizer,
    // bounded by the capacity, reports a non-positive length, and the call
    // fails rather than returning a truncated result.
    let model = test_model();
    let ctx = Context::new(&model, Params::new(), 9, 4).unwrap();
    let mut buf = vec![0i32; 4];
    let reply = TokenizeReply { len: -6, written: Vec::new() };
    let r = ctx.tokenize("one two three four five six", &mut buf, true, reply);
    assert_eq!(r, Err(Error::TokenizeFailed));
}

#[test]
fn tokenize_may_fill_the_buffer_exactly() {
    let model = test_model();
    let ctx = Context::new(&model, Params::new(), 9, 4).unwrap();
    let mut buf = vec![0i32; 4];
    let reply = TokenizeReply { len: 4, written: vec![1, 2, 3, 4] };
    let r = ctx.tokenize("one two three four", &mut buf, true, reply);
    assert_eq!(r, Ok(4));
    assert_eq!(buf, vec![1, 2, 3, 4]);
}

#[test]
fn tokenize_nul_text_is_encoding_error() {
    let model = test_model();
    let ctx = Context::new(&model, Params::new(), 9, 4).unwrap();
    let mut buf = vec![0i32; 4];
    let reply = TokenizeReply { len: 1, written: vec![1] };
    let r = ctx.tokenize("he\0llo", &mut buf, true, reply);
    assert_eq!(r, Err(Error::EncodingError));
    assert_eq!(buf, vec![0, 0, 0, 0]);
}

#[test]
fn eval_success_fills_embeddings() {
    let model = test_model();
    let mut ctx = Context::new(&model, Params::new(), 9, 3).unwrap();
    let values = [0.25f32, -1.5, 3.0];
    let bits: Vec<u32> = values.iter().map(|v| v.to_bits()).collect();
    let tokens = vec![15043, 3186];
    let r = ctx.eval(&tokens, 0, 1, EvalReply { code: 0, embeddings: bits.clone() });
    assert_eq!(r, Ok(()));
    let view = ctx.embeddings();
    assert_eq!(*view, bits);
    let back: Vec<f32> = view.iter().map(|&b| f32::from_bits(b)).collect();
    assert_eq!(back, values);
}

#[test]
fn embeddings_length_is_dimensionality_whatever_the_input_length() {
    let model = test_model();
    let mut ctx = Context::new(&model, Params::new(), 9, 2).unwrap();
    let short = vec![1];
    ctx.eval(&short, 0, 1, EvalReply { code: 0, embeddings: vec![1, 2] }).unwrap();
    assert_eq!(ctx.embeddings().len(), 2);
    let long = vec![1, 2, 3, 4, 5, 6, 7, 8];
    ctx.eval(&long, 0, 1, EvalReply { code: 0, embeddings: vec![3, 4] }).unwrap();
    assert_eq!(ctx.embeddings().len(), 2);
}

#[test]
fn eval_nonzero_code_is_eval_failed() {
    let model = test_model();
    let mut ctx = Context::new(&model, Params::new(), 9, 2).unwrap();
    let tokens = vec![1, 2];
    let r = ctx.eval(&tokens, 0, 1, EvalReply { code: 1, embeddings: Vec::new() });
    assert_eq!(r, Err(Error::EvalFailed));
    assert_eq!(ctx.embeddings().len(), 2);
}
