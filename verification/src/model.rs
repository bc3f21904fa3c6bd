//! The model service: one immutable-after-load aggregate of compute device,
//! encoder weights, architecture configuration and tokenizer, exposing
//! `predict`, which turns text into an embedding tensor.
//!
//! Loading from in-memory artifact bytes is deterministic, and so are the
//! loaded components: the tokenizer — merge-dropout definitions are rejected
//! at load — and the encoder's forward pass are pure functions of the loaded
//! state and their input. Their results are named by uninterpreted spec
//! functions, and everything around the calls — default resolution,
//! token-type derivation, shape bookkeeping, error routing — is verified
//! against those names.

use vstd::prelude::*;

use crate::errors::{ModelLoadError, PredictError};
use crate::tokens::{token_type_ids_for, zero_type_ids};

verus! {

#[verifier::external_type_specification]
#[verifier::external_body]
pub struct ExDevice(candle_core::Device);

#[verifier::external_type_specification]
#[verifier::external_body]
pub struct ExTensor(candle_core::Tensor);

#[verifier::external_type_specification]
#[verifier::external_body]
pub struct ExCandleError(candle_core::Error);

#[verifier::external_type_specification]
#[verifier::external_body]
pub struct ExBertModel(candle_transformers::models::bert::BertModel);

#[verifier::external_type_specification]
#[verifier::external_body]
pub struct ExBertConfig(candle_transformers::models::bert::Config);

#[verifier::external_type_specification]
#[verifier::external_body]
pub struct ExTokenizer(tokenizers::Tokenizer);

/// The nonlinearity a built encoder applies inside its feed-forward blocks.
#[derive(Clone, Copy, Debug, PartialEq, Eq, Structural)]
pub enum ActivationKind {
    /// The exact gelu nonlinearity.
    Gelu,
    /// The tanh-based approximation of gelu.
    GeluApproximate,
    /// The rectified-linear nonlinearity.
    Relu,
}

/// The dimensions of a tensor, outermost first.
pub uninterp spec fn tensor_dims(t: candle_core::Tensor) -> Seq<nat>;

/// The elements of a 3-dimensional tensor, as the bit patterns of its
/// single-precision entries, indexed batch x position x feature.
pub uninterp spec fn tensor_grid(t: candle_core::Tensor) -> Seq<Seq<Seq<u32>>>;

/// The hidden (feature) width of a loaded encoder: the last dimension of
/// every tensor its forward pass produces.
pub uninterp spec fn bert_hidden_size(m: candle_transformers::models::bert::BertModel) -> nat;

/// The nonlinearity a loaded encoder was built with.
pub uninterp spec fn bert_act(m: candle_transformers::models::bert::BertModel) -> ActivationKind;

/// A loaded encoder, viewed as the mapping it computes: from a token-id
/// sequence (with all-zero token-type ids and no attention mask) to the
/// element grid of the output tensor. The forward pass has no internal state,
/// randomness or dropout at inference time, so the output is a function of
/// the loaded weights and the input sequence alone.
pub uninterp spec fn bert_fn(m: candle_transformers::models::bert::BertModel) -> Map<
    Seq<u32>,
    Seq<Seq<Seq<u32>>>,
>;

/// A loaded tokenizer without merge dropout, viewed as the mapping it
/// computes: from input text to the token-id sequence it produces with the
/// special-token convention applied. Texts it cannot segment are outside the
/// domain. For such a tokenizer the encoding is deterministic: a pure
/// function of the loaded vocabulary rules and the text.
pub uninterp spec fn tokenizer_map(t: tokenizers::Tokenizer) -> Map<Seq<char>, Seq<u32>>;

/// Whether a loaded tokenizer's model is a byte-pair-encoding model with
/// merge dropout set — the one loadable configuration whose encoding is
/// randomized rather than deterministic.
pub uninterp spec fn tokenizer_has_dropout(t: tokenizers::Tokenizer) -> bool;

/// The hidden size recorded in a parsed architecture configuration.
pub uninterp spec fn config_hidden(c: candle_transformers::models::bert::Config) -> nat;

/// The attention-head count recorded in a parsed architecture configuration.
pub uninterp spec fn config_heads(c: candle_transformers::models::bert::Config) -> nat;

/// The activation function recorded in a parsed architecture configuration.
pub uninterp spec fn config_act(
    c: candle_transformers::models::bert::Config,
) -> ActivationKind;

/// Whether a document parses as an architecture configuration — a
/// deterministic fact of the bytes alone.
pub uninterp spec fn config_parses(json: Seq<char>) -> bool;

/// The architecture configuration a parseable document denotes — parsing is
/// deterministic, so the value is a function of the bytes alone.
pub uninterp spec fn config_of(json: Seq<char>) -> candle_transformers::models::bert::Config;

/// A configuration with its activation replaced by the approximate gelu and
/// everything else kept.
pub uninterp spec fn with_approx_act(
    c: candle_transformers::models::bert::Config,
) -> candle_transformers::models::bert::Config;

/// Whether building an encoder from this configuration and these in-memory
/// weight bytes succeeds — a deterministic fact of the two arguments.
pub uninterp spec fn build_ok(
    c: candle_transformers::models::bert::Config,
    weights: Seq<u8>,
) -> bool;

/// The encoder built from this configuration and these in-memory weight
/// bytes, when the build succeeds — building is deterministic, so the value
/// is a function of the two arguments.
pub uninterp spec fn built_encoder(
    c: candle_transformers::models::bert::Config,
    weights: Seq<u8>,
) -> candle_transformers::models::bert::BertModel;

/// Whether bytes parse as a tokenizer definition (with padding and
/// truncation then disabled) — a deterministic fact of the bytes alone.
pub uninterp spec fn tokenizer_parses(def: Seq<u8>) -> bool;

/// The tokenizer that parseable definition bytes denote, with padding and
/// truncation disabled — parsing is deterministic, so the value is a
/// function of the bytes alone.
pub uninterp spec fn tokenizer_of(def: Seq<u8>) -> tokenizers::Tokenizer;

/// Relies on candle_core::Device: the CPU compute-device handle.
#[verifier::external_body]
fn cpu_device() -> (r: candle_core::Device) {
    candle_core::Device::Cpu
}

/// Relies on serde_json::from_str for the configuration type's Deserialize,
/// and on the configuration type's public `hidden_size` field: parses the
/// architecture configuration document — a deterministic function of the
/// document — and reads its hidden size.
#[verifier::external_body]
fn parse_config(json: &str) -> (r: Result<
    (candle_transformers::models::bert::Config, usize),
    ModelLoadError,
>)
    ensures
        r is Ok <==> config_parses(json@),
        r matches Ok(p) ==> p.0 == config_of(json@) && p.1 as nat == config_hidden(p.0),
        r matches Err(e) ==> e == ModelLoadError::MalformedConfig,
{
    match serde_json::from_str::<candle_transformers::models::bert::Config>(json) {
        Ok(config) => {
            let hidden = config.hidden_size;
            Ok((config, hidden))
        }
        Err(_) => Err(ModelLoadError::MalformedConfig),
    }
}

/// Relies on the configuration type's public `num_attention_heads` field.
#[verifier::external_body]
fn config_attention_heads(c: &candle_transformers::models::bert::Config) -> (r: usize)
    ensures
        r as nat == config_heads(*c),
{
    c.num_attention_heads
}

/// Relies on the configuration type's public `hidden_act` field: substituting
/// the approximate nonlinearity changes only the recorded activation, never
/// the hidden size or the attention-head count.
#[verifier::external_body]
fn set_gelu_approximate(c: &mut candle_transformers::models::bert::Config)
    ensures
        *final(c) == with_approx_act(*old(c)),
        config_hidden(*final(c)) == config_hidden(*old(c)),
        config_heads(*final(c)) == config_heads(*old(c)),
        config_act(*final(c)) == ActivationKind::GeluApproximate,
{
    c.hidden_act = candle_transformers::models::bert::HiddenAct::GeluApproximate;
}

/// Relies on candle_nn::VarBuilder::from_buffered_safetensors and
/// BertModel::load: builds the encoder from in-memory weights — a
/// deterministic function of the configuration and the bytes. The loaded
/// encoder's output width is the configuration's hidden size and its
/// nonlinearity is the configuration's activation. The attention-head count
/// must be positive: the loader divides by it.
#[verifier::external_body]
fn build_from_safetensors(
    config: &candle_transformers::models::bert::Config,
    weights: &[u8],
    device: &candle_core::Device,
) -> (r: Result<candle_transformers::models::bert::BertModel, ModelLoadError>)
    requires
        config_heads(*config) >= 1,
    ensures
        r is Ok <==> build_ok(*config, weights@),
        r matches Ok(m) ==> m == built_encoder(*config, weights@) && bert_hidden_size(m)
            == config_hidden(*config) && bert_act(m) == config_act(*config),
        r matches Err(e) ==> e == ModelLoadError::IncompatibleWeights,
{
    let vb = match candle_nn::VarBuilder::from_buffered_safetensors(
        weights.to_vec(),
        candle_transformers::models::bert::DTYPE,
        device,
    ) {
        Ok(vb) => vb,
        Err(_) => return Err(ModelLoadError::IncompatibleWeights),
    };
    candle_transformers::models::bert::BertModel::load(vb, config)
        .map_err(|_| ModelLoadError::IncompatibleWeights)
}

/// Relies on candle_nn::VarBuilder::from_pth and BertModel::load: builds the
/// encoder from an on-disk weight file in the alternate format. Whatever file
/// is found there, a loaded encoder's output width is the configuration's
/// hidden size and its nonlinearity is the configuration's activation; the
/// result itself depends on the disk, so no more is claimed. The
/// attention-head count must be positive: the loader divides by it.
#[verifier::external_body]
fn build_from_torch_file(
    config: &candle_transformers::models::bert::Config,
    weights_path: &str,
    device: &candle_core::Device,
) -> (r: Result<candle_transformers::models::bert::BertModel, ModelLoadError>)
    requires
        config_heads(*config) >= 1,
    ensures
        r matches Ok(m) ==> bert_hidden_size(m) == config_hidden(*config) && bert_act(m)
            == config_act(*config),
        r matches Err(e) ==> e == ModelLoadError::IncompatibleWeights,
{
    let vb = match candle_nn::VarBuilder::from_pth(
        weights_path,
        candle_transformers::models::bert::DTYPE,
        device,
    ) {
        Ok(vb) => vb,
        Err(_) => return Err(ModelLoadError::IncompatibleWeights),
    };
    candle_transformers::models::bert::BertModel::load(vb, config)
        .map_err(|_| ModelLoadError::IncompatibleWeights)
}

/// Relies on tokenizers::Tokenizer::from_bytes, with_padding and
/// with_truncation: parses the tokenizer definition and disables padding and
/// truncation, so the caller receives variable-length output — a
/// deterministic function of the bytes.
#[verifier::external_body]
fn tokenizer_from_bytes(bytes: &[u8]) -> (r: Result<tokenizers::Tokenizer, ModelLoadError>)
    ensures
        r is Ok <==> tokenizer_parses(bytes@),
        r matches Ok(t) ==> t == tokenizer_of(bytes@),
        r matches Err(e) ==> e == ModelLoadError::MalformedTokenizer,
{
    let mut t = match tokenizers::Tokenizer::from_bytes(bytes) {
        Ok(t) => t,
        Err(_) => return Err(ModelLoadError::MalformedTokenizer),
    };
    t.with_padding(None);
    if t.with_truncation(None).is_err() {
        return Err(ModelLoadError::MalformedTokenizer);
    }
    Ok(t)
}

/// Relies on the tokenizer's model accessor: tells whether the loaded model
/// is a byte-pair-encoding model with merge dropout set.
#[verifier::external_body]
fn has_merge_dropout(t: &tokenizers::Tokenizer) -> (r: bool)
    ensures
        r == tokenizer_has_dropout(*t),
{
    matches!(t.get_model(), tokenizers::ModelWrapper::BPE(b) if b.dropout.is_some())
}

/// Relies on tokenizers::Tokenizer::encode with the special-token convention
/// applied: for a model without merge dropout the encoding is deterministic —
/// a pure function of the loaded vocabulary rules and the input text — with
/// no padding or truncation.
#[verifier::external_body]
fn encode_text(t: &tokenizers::Tokenizer, text: &str) -> (r: Result<Vec<u32>, PredictError>)
    requires
        !tokenizer_has_dropout(*t),
    ensures
        r matches Ok(ids) ==> tokenizer_map(*t).contains_key(text@)
            && ids@ == tokenizer_map(*t)[text@],
        r matches Err(e) ==> e == PredictError::Tokenization
            && !tokenizer_map(*t).contains_key(text@),
{
    match t.encode(text, true) {
        Ok(enc) => Ok(enc.get_ids().to_vec()),
        Err(_) => Err(PredictError::Tokenization),
    }
}

/// Relies on candle_core::Tensor::new, Tensor::unsqueeze and
/// BertModel::forward: tensorizes the two id sequences as one-batch rows and
/// runs the forward pass with no attention mask. On success the output tensor
/// has shape (1, sequence length, hidden size) and its elements are the
/// encoder's deterministic function of the token-id sequence; the pass itself
/// may still fail on device or numeric failure.
#[verifier::external_body]
fn bert_forward(
    m: &candle_transformers::models::bert::BertModel,
    device: &candle_core::Device,
    ids: &Vec<u32>,
    type_ids: &Vec<u32>,
) -> (r: Result<candle_core::Tensor, PredictError>)
    requires
        ids@.len() >= 1,
        type_ids@ == zero_type_ids(ids@.len() as nat),
    ensures
        r matches Ok(t) ==> tensor_dims(t) == seq![1nat, ids@.len() as nat, bert_hidden_size(*m)]
            && tensor_grid(t) == bert_fn(*m)[ids@],
        r matches Err(e) ==> e == PredictError::Inference,
{
    let row = candle_core::Tensor::new(ids.as_slice(), device)
        .and_then(|t| t.unsqueeze(0))
        .map_err(|_| PredictError::Inference)?;
    let type_row = candle_core::Tensor::new(type_ids.as_slice(), device)
        .and_then(|t| t.unsqueeze(0))
        .map_err(|_| PredictError::Inference)?;
    m.forward(&row, &type_row, None).map_err(|_| PredictError::Inference)
}

/// A per-request embedding: a 3-dimensional single-precision tensor of shape
/// (batch, sequence length, hidden dimension), with batch fixed at 1.
pub struct Embedding {
    /// The output tensor itself.
    pub tensor: candle_core::Tensor,
    /// The batch dimension; always 1.
    pub batch: usize,
    /// The sequence-length dimension: the request's token count.
    pub seq_len: usize,
    /// The hidden dimension: the loaded model's configured hidden size.
    pub hidden: usize,
}

impl Embedding {
    /// The recorded dimensions match the tensor's actual shape.
    pub open spec fn wf(&self) -> bool {
        &&& self.batch == 1
        &&& tensor_dims(self.tensor) == seq![
            self.batch as nat,
            self.seq_len as nat,
            self.hidden as nat,
        ]
    }

    /// The tensor's elements, as bit patterns of its single-precision
    /// entries.
    pub open spec fn values(&self) -> Seq<Seq<Seq<u32>>> {
        tensor_grid(self.tensor)
    }

    /// Wraps a forward-pass output tensor of known shape.
    pub fn new(tensor: candle_core::Tensor, seq_len: usize, hidden: usize) -> (r: Embedding)
        requires
            tensor_dims(tensor) == seq![1nat, seq_len as nat, hidden as nat],
        ensures
            r.wf(),
            r.batch == 1,
            r.seq_len == seq_len,
            r.hidden == hidden,
            r.values() == tensor_grid(tensor),
            r.tensor == tensor,
    {
        Embedding { tensor, batch: 1, seq_len, hidden }
    }
}

/// The immutable-after-construction model state: compute device, loaded
/// encoder, its configured hidden size, and the tokenizer. Exactly one
/// instance is shared across all requests; it is never mutated after load.
pub struct ModelState {
    model: candle_transformers::models::bert::BertModel,
    tokenizer: tokenizers::Tokenizer,
    device: candle_core::Device,
    hidden: usize,
}

impl ModelState {
    /// Well-formedness: the recorded hidden size is the loaded encoder's
    /// output width, and the loaded tokenizer is free of merge dropout, so
    /// its encoding is deterministic. Construction establishes this; nothing
    /// ever mutates the state, so every reader observes it.
    pub closed spec fn wf(&self) -> bool {
        &&& bert_hidden_size(self.model) == self.hidden as nat
        &&& !tokenizer_has_dropout(self.tokenizer)
    }

    /// The loaded model's configured hidden size.
    pub closed spec fn hidden_dim(&self) -> nat {
        self.hidden as nat
    }

    /// The nonlinearity the loaded encoder was built with.
    pub closed spec fn activation(&self) -> ActivationKind {
        bert_act(self.model)
    }

    /// The loaded tokenizer, viewed as its text-to-token-ids mapping.
    pub closed spec fn vocab_map(&self) -> Map<Seq<char>, Seq<u32>> {
        tokenizer_map(self.tokenizer)
    }

    /// The loaded encoder, viewed as its token-ids-to-grid mapping.
    pub closed spec fn encoder_map(&self) -> Map<Seq<u32>, Seq<Seq<Seq<u32>>>> {
        bert_fn(self.model)
    }

    /// The loaded model's configured hidden size.
    pub fn hidden_size(&self) -> (r: usize)
        ensures
            r as nat == self.hidden_dim(),
    {
        self.hidden
    }

    /// Builds the model state from the three already-fetched artifacts, with
    /// the weight file as in-memory bytes in the default binary format.
    ///
    /// The whole load is a deterministic function of the artifact bytes and
    /// the flag; `load_artifacts_post` says exactly on which inputs each
    /// error is returned, and ties the loaded state's tokenizer and encoder
    /// maps to the bytes they came from.
    ///
    /// The approximate-activation flag substitutes an approximate
    /// nonlinearity before the network graph is built: a structural choice
    /// baked in at load time.
    pub fn load_from_artifacts(
        config_json: &str,
        tokenizer_def: &[u8],
        weights: &[u8],
        approximate_gelu: bool,
    ) -> (r: Result<ModelState, ModelLoadError>)
        ensures
            load_artifacts_post(config_json@, tokenizer_def@, weights@, approximate_gelu, r),
    {
        let device = cpu_device();
        let (mut config, hidden) = match parse_config(config_json) {
            Ok(p) => p,
            Err(e) => return Err(e),
        };
        if config_attention_heads(&config) == 0 {
            return Err(ModelLoadError::MalformedConfig);
        }
        if approximate_gelu {
            set_gelu_approximate(&mut config);
        }
        let tokenizer = match tokenizer_from_bytes(tokenizer_def) {
            Ok(t) => t,
            Err(e) => return Err(e),
        };
        if has_merge_dropout(&tokenizer) {
            return Err(ModelLoadError::MalformedTokenizer);
        }
        let model = match build_from_safetensors(&config, weights, &device) {
            Ok(m) => m,
            Err(e) => return Err(e),
        };
        Ok(ModelState { model, tokenizer, device, hidden })
    }

    /// As `load_from_artifacts`, but with the weight file in the alternate
    /// on-disk format, read from the given path. The configuration and
    /// tokenizer stages are deterministic in their bytes as before; the
    /// weight stage depends on what is on disk, so of it only the shape and
    /// activation of a successfully built encoder are claimed.
    pub fn load_from_torch_file(
        config_json: &str,
        tokenizer_def: &[u8],
        weights_path: &str,
        approximate_gelu: bool,
    ) -> (r: Result<ModelState, ModelLoadError>)
        ensures
            load_torch_post(config_json@, tokenizer_def@, approximate_gelu, r),
    {
        let device = cpu_device();
        let (mut config, hidden) = match parse_config(config_json) {
            Ok(p) => p,
            Err(e) => return Err(e),
        };
        if config_attention_heads(&config) == 0 {
            return Err(ModelLoadError::MalformedConfig);
        }
        if approximate_gelu {
            set_gelu_approximate(&mut config);
        }
        let tokenizer = match tokenizer_from_bytes(tokenizer_def) {
            Ok(t) => t,
            Err(e) => return Err(e),
        };
        if has_merge_dropout(&tokenizer) {
            return Err(ModelLoadError::MalformedTokenizer);
        }
        let model = match build_from_torch_file(&config, weights_path, &device) {
            Ok(m) => m,
            Err(e) => return Err(e),
        };
        Ok(ModelState { model, tokenizer, device, hidden })
    }

    /// Converts text into an embedding: encode, derive token-type ids,
    /// forward pass, wrap the output with its shape.
    ///
    /// On success the output is pinned down: batch 1, one position per token
    /// the tokenizer produced for this text, the configured hidden size per
    /// position, and elements that are the encoder's function of this text's
    /// token sequence alone. Tokenization failure and an empty token
    /// sequence report `Tokenization`; only a device or numeric failure of
    /// the forward pass reports `Inference`.
    pub fn predict(&self, text: &str) -> (r: Result<Embedding, PredictError>)
        requires
            self.wf(),
        ensures
            predict_post(*self, text@, r),
    {
        let ids = match encode_text(&self.tokenizer, text) {
            Ok(ids) => ids,
            Err(e) => return Err(e),
        };
        if ids.len() == 0 {
            return Err(PredictError::Tokenization);
        }
        let type_ids = token_type_ids_for(ids.len());
        let out = match bert_forward(&self.model, &self.device, &ids, &type_ids) {
            Ok(t) => t,
            Err(e) => return Err(e),
        };
        Ok(Embedding::new(out, ids.len(), self.hidden))
    }
}

/// The configuration a load actually builds with: the parsed document, with
/// the approximate nonlinearity substituted when the flag is set.
pub open spec fn effective_config(
    json: Seq<char>,
    approximate_gelu: bool,
) -> candle_transformers::models::bert::Config {
    if approximate_gelu {
        with_approx_act(config_of(json))
    } else {
        config_of(json)
    }
}

/// The configuration stage succeeds: the document parses, and its
/// attention-head count is positive (the builder divides by it).
pub open spec fn config_stage_ok(json: Seq<char>) -> bool {
    config_parses(json) && config_heads(config_of(json)) >= 1
}

/// The tokenizer stage succeeds: the definition parses, and the loaded
/// tokenizer is free of merge dropout, so its encoding is deterministic.
pub open spec fn tokenizer_stage_ok(def: Seq<u8>) -> bool {
    tokenizer_parses(def) && !tokenizer_has_dropout(tokenizer_of(def))
}

/// What holds of a successfully loaded state, whatever the weight source:
/// well-formed; hidden size, tokenizer map and activation are functions of
/// the artifact bytes and the flag; and the flag, when set, has baked the
/// approximate nonlinearity into the graph.
pub open spec fn loaded_state_post(
    s: ModelState,
    json: Seq<char>,
    def: Seq<u8>,
    approximate_gelu: bool,
) -> bool {
    &&& s.wf()
    &&& s.hidden_dim() == config_hidden(config_of(json))
    &&& s.vocab_map() == tokenizer_map(tokenizer_of(def))
    &&& s.activation() == config_act(effective_config(json, approximate_gelu))
    &&& (approximate_gelu ==> s.activation() == ActivationKind::GeluApproximate)
}

/// Everything loading from in-memory artifacts guarantees: exactly one stage
/// outcome explains the result. Success happens if and only if the document
/// parses with a positive head count, the tokenizer definition parses without
/// merge dropout, and the weights build against the effective configuration;
/// each error names the first failing stage; and on success the state's maps
/// are the deterministic functions of the bytes they came from.
pub open spec fn load_artifacts_post(
    json: Seq<char>,
    def: Seq<u8>,
    weights: Seq<u8>,
    approximate_gelu: bool,
    r: Result<ModelState, ModelLoadError>,
) -> bool {
    match r {
        Ok(s) => {
            &&& config_stage_ok(json)
            &&& tokenizer_stage_ok(def)
            &&& build_ok(effective_config(json, approximate_gelu), weights)
            &&& loaded_state_post(s, json, def, approximate_gelu)
            &&& s.encoder_map() == bert_fn(
                built_encoder(effective_config(json, approximate_gelu), weights),
            )
        },
        Err(ModelLoadError::MalformedConfig) => !config_stage_ok(json),
        Err(ModelLoadError::MalformedTokenizer) => config_stage_ok(json) && !tokenizer_stage_ok(
            def,
        ),
        Err(ModelLoadError::IncompatibleWeights) => config_stage_ok(json) && tokenizer_stage_ok(
            def,
        ) && !build_ok(effective_config(json, approximate_gelu), weights),
    }
}

/// As `load_artifacts_post`, for the on-disk alternate weight format: the
/// configuration and tokenizer stages are pinned exactly; the weight stage
/// depends on the disk, so `IncompatibleWeights` only says the earlier stages
/// succeeded, and success is never owed.
pub open spec fn load_torch_post(
    json: Seq<char>,
    def: Seq<u8>,
    approximate_gelu: bool,
    r: Result<ModelState, ModelLoadError>,
) -> bool {
    match r {
        Ok(s) => {
            &&& config_stage_ok(json)
            &&& tokenizer_stage_ok(def)
            &&& loaded_state_post(s, json, def, approximate_gelu)
        },
        Err(ModelLoadError::MalformedConfig) => !config_stage_ok(json),
        Err(ModelLoadError::MalformedTokenizer) => config_stage_ok(json) && !tokenizer_stage_ok(
            def,
        ),
        Err(ModelLoadError::IncompatibleWeights) => config_stage_ok(json) && tokenizer_stage_ok(
            def,
        ),
    }
}

/// Everything `predict` guarantees of its result, as a relation between the
/// model state, the request text and the outcome.
pub open spec fn predict_post(
    s: ModelState,
    text: Seq<char>,
    r: Result<Embedding, PredictError>,
) -> bool {
    match r {
        Ok(e) => {
            &&& s.vocab_map().contains_key(text)
            &&& s.vocab_map()[text].len() >= 1
            &&& e.wf()
            &&& e.batch == 1
            &&& e.seq_len as nat == s.vocab_map()[text].len()
            &&& e.hidden as nat == s.hidden_dim()
            &&& e.values() == s.encoder_map()[s.vocab_map()[text]]
        },
        Err(PredictError::Tokenization) => !s.vocab_map().contains_key(text)
            || s.vocab_map()[text].len() == 0,
        Err(PredictError::Inference) => s.vocab_map().contains_key(text)
            && s.vocab_map()[text].len() >= 1,
    }
}

/// Determinism law: two successful `predict` outcomes for the same text
/// against the same model state agree bit for bit — same shape, same element
/// grid.
pub proof fn lemma_predict_deterministic(
    s: ModelState,
    text: Seq<char>,
    r1: Result<Embedding, PredictError>,
    r2: Result<Embedding, PredictError>,
)
    requires
        predict_post(s, text, r1),
        predict_post(s, text, r2),
        r1 is Ok,
        r2 is Ok,
    ensures
        r1->Ok_0.batch == r2->Ok_0.batch,
        r1->Ok_0.seq_len == r2->Ok_0.seq_len,
        r1->Ok_0.hidden == r2->Ok_0.hidden,
        r1->Ok_0.values() == r2->Ok_0.values(),
{
}

/// Load determinism law: two loads from identical in-memory artifact bytes
/// and an identical flag either both fail with the same error or both
/// succeed, and on success the two states have the same hidden size,
/// tokenizer map, encoder map and activation — so by `predict_post` they
/// answer every request identically.
pub proof fn lemma_load_deterministic(
    json: Seq<char>,
    def: Seq<u8>,
    weights: Seq<u8>,
    approximate_gelu: bool,
    r1: Result<ModelState, ModelLoadError>,
    r2: Result<ModelState, ModelLoadError>,
)
    requires
        load_artifacts_post(json, def, weights, approximate_gelu, r1),
        load_artifacts_post(json, def, weights, approximate_gelu, r2),
    ensures
        r1 is Ok <==> r2 is Ok,
        r1 matches Err(e1) ==> r2 matches Err(e2) && e1 == e2,
        (r1 is Ok && r2 is Ok) ==> {
            let s1 = r1->Ok_0;
            let s2 = r2->Ok_0;
            &&& s1.hidden_dim() == s2.hidden_dim()
            &&& s1.vocab_map() == s2.vocab_map()
            &&& s1.encoder_map() == s2.encoder_map()
            &&& s1.activation() == s2.activation()
        },
{
}

/// Independence law: under one shared model state, each successful outcome is
/// a function of its own request text alone, so concurrent requests cannot
/// leak into one another's results.
pub proof fn lemma_no_cross_talk(
    s: ModelState,
    text1: Seq<char>,
    text2: Seq<char>,
    r1: Result<Embedding, PredictError>,
    r2: Result<Embedding, PredictError>,
)
    requires
        predict_post(s, text1, r1),
        predict_post(s, text2, r2),
        r1 is Ok,
        r2 is Ok,
    ensures
        r1->Ok_0.values() == s.encoder_map()[s.vocab_map()[text1]],
        r2->Ok_0.values() == s.encoder_map()[s.vocab_map()[text2]],
        r1->Ok_0.seq_len as nat == s.vocab_map()[text1].len(),
        r2->Ok_0.seq_len as nat == s.vocab_map()[text2].len(),
        r1->Ok_0.hidden == r2->Ok_0.hidden,
{
}

} // verus!
