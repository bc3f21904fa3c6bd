use std::collections::HashMap;

use bert_embed::errors::ModelLoadError;
use bert_embed::guard::ServiceGuard;
use bert_embed::model::ModelState;

const HIDDEN: usize = 8;

fn tiny_config() -> String {
    let head = r#"{"vocab_size":6,"hidden_size":8,"num_hidden_layers":1,"num_attention_heads":2,"intermediate_size":16,"hidden_act":"gelu","hidden_dropout_prob":0.0,"#;
    let tail = r#""max_position_embeddings":16,"type_vocab_size":2,"initializer_range":0.02,"layer_norm_eps":1e-12,"pad_token_id":1,"position_embedding_type":"absolute","use_cache":false,"classifier_dropout":null,"model_type":"bert"}"#;
    let mut s = head.to_owned();
    s.push_str(tail);
    s
}

fn tiny_tokenizer() -> Vec<u8> {
    let head = r#"{"version":"1.0","truncation":null,"padding":null,"added_tokens":[],"normalizer":null,"pre_tokenizer":{"type":"Whitespace"},"post_processor":{"type":"BertProcessing","sep":["[SEP]",3],"cls":["[CLS]",2]},"decoder":null,"#;
    let tail = r#""model":{"type":"WordLevel","vocab":{"[UNK]":0,"[PAD]":1,"[CLS]":2,"[SEP]":3,"Hello":4,"world":5},"unk_token":"[UNK]"}}"#;
    let mut s = head.to_owned();
    s.push_str(tail);
    s.into_bytes()
}

fn weight_shapes() -> Vec<(&'static str, Vec<usize>)> {
    vec![
        ("embeddings.word_embeddings.weight", vec![6, HIDDEN]),
        ("embeddings.position_embeddings.weight", vec![16, HIDDEN]),
        ("embeddings.token_type_embeddings.weight", vec![2, HIDDEN]),
        ("embeddings.LayerNorm.weight", vec![HIDDEN]),
        ("embeddings.LayerNorm.bias", vec![HIDDEN]),
        (
            "encoder.layer.0.attention.self.query.weight",
            vec![HIDDEN, HIDDEN],
        ),
        ("encoder.layer.0.attention.self.query.bias", vec![HIDDEN]),
        (
            "encoder.layer.0.attention.self.key.weight",
            vec![HIDDEN, HIDDEN],
        ),
        ("encoder.layer.0.attention.self.key.bias", vec![HIDDEN]),
        (
            "encoder.layer.0.attention.self.value.weight",
            vec![HIDDEN, HIDDEN],
        ),
        ("encoder.layer.0.attention.self.value.bias", vec![HIDDEN]),
        (
            "encoder.layer.0.attention.output.dense.weight",
            vec![HIDDEN, HIDDEN],
        ),
        ("encoder.layer.0.attention.output.dense.bias", vec![HIDDEN]),
        (
            "encoder.layer.0.attention.output.LayerNorm.weight",
            vec![HIDDEN],
        ),
        (
            "encoder.layer.0.attention.output.LayerNorm.bias",
            vec![HIDDEN],
        ),
        (
            "encoder.layer.0.intermediate.dense.weight",
            vec![16, HIDDEN],
        ),
        ("encoder.layer.0.intermediate.dense.bias", vec![16]),
        ("encoder.layer.0.output.dense.weight", vec![HIDDEN, 16]),
        ("encoder.layer.0.output.dense.bias", vec![HIDDEN]),
        ("encoder.layer.0.output.LayerNorm.weight", vec![HIDDEN]),
        ("encoder.layer.0.output.LayerNorm.bias", vec![HIDDEN]),
    ]
}

fn tiny_weights() -> Vec<u8> {
    let shapes = weight_shapes();
    let buffers: Vec<(String, Vec<usize>, Vec<u8>)> = shapes
        .iter()
        .map(|(name, shape)| {
            let count: usize = shape.iter().product();
            (name.to_string(), shape.clone(), vec![0u8; count * 4])
        })
        .collect();
    let views: Vec<(String, safetensors::tensor::TensorView)> = buffers
        .iter()
        .map(|(name, shape, data)| {
            (
                name.clone(),
                safetensors::tensor::TensorView::new(
                    safetensors::tensor::Dtype::F32,
                    shape.clone(),
                    data,
                )
                .unwrap(),
            )
        })
        .collect();
    let metadata: Option<HashMap<String, String>> = None;
    safetensors::serialize(views, metadata).unwrap()
}

fn tiny_state(approximate_gelu: bool) -> ModelState {
    ModelState::load_from_artifacts(
        &tiny_config(),
        &tiny_tokenizer(),
        &tiny_weights(),
        approximate_gelu,
    )
    .unwrap()
}

#[test]
fn hello_has_expected_shape_and_is_deterministic() {
    let state = tiny_state(false);
    assert_eq!(state.hidden_size(), HIDDEN);

    // "Hello" tokenizes as [CLS] Hello [SEP]: three positions.
    let first = state.predict("Hello").unwrap();
    assert_eq!(first.batch, 1);
    assert_eq!(first.seq_len, 3);
    assert_eq!(first.hidden, HIDDEN);

    let grid = first.tensor.to_vec3::<f32>().unwrap();
    assert_eq!(grid.len(), 1);
    assert_eq!(grid[0].len(), 3);
    assert_eq!(grid[0][0].len(), HIDDEN);

    let second = state.predict("Hello").unwrap();
    assert_eq!(second.batch, 1);
    assert_eq!(second.seq_len, 3);
    assert_eq!(second.hidden, HIDDEN);
    let grid_again = second.tensor.to_vec3::<f32>().unwrap();
    assert_eq!(grid, grid_again);
}

#[test]
fn distinct_inputs_keep_their_own_shapes() {
    let state = tiny_state(false);
    let one = state.predict("Hello").unwrap();
    let two = state.predict("Hello world").unwrap();
    assert_eq!(one.seq_len, 3);
    assert_eq!(two.seq_len, 4);
    assert_eq!(one.hidden, HIDDEN);
    assert_eq!(two.hidden, HIDDEN);
}

#[test]
fn unknown_words_still_embed_with_fixed_hidden_size() {
    let state = tiny_state(false);
    let e = state.predict("xyzzy").unwrap();
    assert_eq!(e.seq_len, 3);
    assert_eq!(e.hidden, HIDDEN);
}

#[test]
fn empty_input_has_minimal_output() {
    let state = tiny_state(false);
    // The special-token convention alone remains: [CLS] [SEP].
    let e = state.predict("").unwrap();
    assert_eq!(e.batch, 1);
    assert_eq!(e.seq_len, 2);
    assert_eq!(e.hidden, HIDDEN);
}

#[test]
fn approximate_activation_is_a_load_time_choice() {
    let state = tiny_state(true);
    let e = state.predict("Hello world").unwrap();
    assert_eq!(e.batch, 1);
    assert_eq!(e.seq_len, 4);
    assert_eq!(e.hidden, HIDDEN);
}

#[test]
fn guard_serves_reads_and_exclusive_replace() {
    let guard = ServiceGuard::new(tiny_state(false));
    let before = guard.predict("Hello").unwrap();
    assert_eq!(before.seq_len, 3);
    assert_eq!(before.hidden, HIDDEN);

    // A writer swaps in a freshly loaded state; readers resume afterwards
    // and observe only the fully-loaded replacement.
    let displaced = guard.replace(tiny_state(false));
    assert_eq!(displaced.hidden_size(), HIDDEN);
    let after = guard.predict("Hello world").unwrap();
    assert_eq!(after.seq_len, 4);
    assert_eq!(after.hidden, HIDDEN);
}

#[test]
fn malformed_config_fails_load() {
    let r = ModelState::load_from_artifacts(
        "not a configuration",
        &tiny_tokenizer(),
        &tiny_weights(),
        false,
    );
    assert_eq!(r.err().unwrap(), ModelLoadError::MalformedConfig);
}

#[test]
fn zero_attention_heads_fail_load() {
    // Parseable document, but no encoder can be built over zero heads: the
    // loader rejects it as malformed instead of handing it to the builder.
    let config = tiny_config().replace("\"num_attention_heads\":2", "\"num_attention_heads\":0");
    let r = ModelState::load_from_artifacts(&config, &tiny_tokenizer(), &tiny_weights(), false);
    assert_eq!(r.err().unwrap(), ModelLoadError::MalformedConfig);
}

#[test]
fn merge_dropout_tokenizer_fails_load() {
    // A byte-pair-encoding model with merge dropout encodes randomly; the
    // loader rejects the definition so that tokenization stays deterministic.
    let head = r#"{"version":"1.0","truncation":null,"padding":null,"added_tokens":[],"normalizer":null,"pre_tokenizer":{"type":"Whitespace"},"post_processor":null,"decoder":null,"#;
    let tail = r#""model":{"type":"BPE","dropout":0.5,"unk_token":null,"continuing_subword_prefix":null,"end_of_word_suffix":null,"fuse_unk":false,"byte_fallback":false,"ignore_merges":false,"vocab":{},"merges":[]}}"#;
    let mut s = head.to_owned();
    s.push_str(tail);
    let r = ModelState::load_from_artifacts(&tiny_config(), s.as_bytes(), &tiny_weights(), false);
    assert_eq!(r.err().unwrap(), ModelLoadError::MalformedTokenizer);
}

#[test]
fn malformed_tokenizer_fails_load() {
    let r = ModelState::load_from_artifacts(
        &tiny_config(),
        b"not a tokenizer definition",
        &tiny_weights(),
        false,
    );
    assert_eq!(r.err().unwrap(), ModelLoadError::MalformedTokenizer);
}

#[test]
fn missing_weight_tensors_fail_load() {
    let r = ModelState::load_from_artifacts(&tiny_config(), &tiny_tokenizer(), b"", false);
    assert_eq!(r.err().unwrap(), ModelLoadError::IncompatibleWeights);
}

#[test]
fn absent_torch_weight_file_fails_load() {
    let r = ModelState::load_from_torch_file(
        &tiny_config(),
        &tiny_tokenizer(),
        "/nonexistent/pytorch_model.bin",
        false,
    );
    assert_eq!(r.err().unwrap(), ModelLoadError::IncompatibleWeights);
}
