//! Token counting and truncation, through tiktoken's byte-pair encoders.

use crate::error::OpenAIAgentError;
use tiktoken_rs::tokenizer::Tokenizer;
use tiktoken_rs::CoreBPE;
use vstd::prelude::*;
use vstd::string::StringExecFns;

verus! {

#[verifier::external_type_specification]
#[verifier::external_body]
pub struct ExCoreBPE(CoreBPE);

/// The tokenizer families that model names map to.
#[derive(Debug, Clone, Copy, PartialEq, Eq)]
pub enum TokenizerKind {
    O200kHarmony,
    O200kBase,
    Cl100kBase,
    P50kBase,
    R50kBase,
    P50kEdit,
    Gpt2,
}

/// The byte-pair encodings that can be loaded.
#[derive(Debug, Clone, Copy, PartialEq, Eq)]
pub enum BpeBase {
    O200kHarmony,
    O200kBase,
    Cl100kBase,
    P50kBase,
    R50kBase,
    P50kEdit,
}

/// The tokenizer family tiktoken assigns to a model name, if it knows the name.
pub uninterp spec fn tokenizer_of(model: Seq<char>) -> Option<TokenizerKind>;

/// The tokens of `text` under the encoding `base`, special tokens included.
pub uninterp spec fn encoding(base: BpeBase, text: Seq<char>) -> Seq<u32>;

/// The text that `tokens` decode to under `base`, or nothing when they do not
/// decode to valid UTF-8.
pub uninterp spec fn decoding(base: BpeBase, tokens: Seq<u32>) -> Option<Seq<char>>;

/// A loaded encoder together with the encoding it implements.
pub struct Bpe {
    base: BpeBase,
    core: CoreBPE,
}

impl Bpe {
    /// The encoding this encoder implements.
    pub closed spec fn spec_base(&self) -> BpeBase {
        self.base
    }
}

/// Relies on `tiktoken_rs::tokenizer::get_tokenizer`: the tokenizer family of a
/// model name, which depends on the name alone.
#[verifier::external_body]
fn tokenizer_for_model(model: &str) -> (r: Option<TokenizerKind>)
    ensures
        r == tokenizer_of(model@),
{
    match tiktoken_rs::tokenizer::get_tokenizer(model) {
        Some(Tokenizer::O200kHarmony) => Some(TokenizerKind::O200kHarmony),
        Some(Tokenizer::O200kBase) => Some(TokenizerKind::O200kBase),
        Some(Tokenizer::Cl100kBase) => Some(TokenizerKind::Cl100kBase),
        Some(Tokenizer::P50kBase) => Some(TokenizerKind::P50kBase),
        Some(Tokenizer::R50kBase) => Some(TokenizerKind::R50kBase),
        Some(Tokenizer::P50kEdit) => Some(TokenizerKind::P50kEdit),
        Some(Tokenizer::Gpt2) => Some(TokenizerKind::Gpt2),
        None => None,
    }
}

/// Relies on `tiktoken_rs::o200k_harmony`: loads that encoder, or reports why not.
#[verifier::external_body]
fn load_o200k_harmony() -> (r: Result<Bpe, String>)
    ensures
        r matches Ok(b) ==> b.spec_base() == BpeBase::O200kHarmony,
{
    tiktoken_rs::o200k_harmony().map(|core| Bpe { base: BpeBase::O200kHarmony, core }).map_err(
        |e| e.to_string(),
    )
}

/// Relies on `tiktoken_rs::o200k_base`: loads that encoder, or reports why not.
#[verifier::external_body]
fn load_o200k_base() -> (r: Result<Bpe, String>)
    ensures
        r matches Ok(b) ==> b.spec_base() == BpeBase::O200kBase,
{
    tiktoken_rs::o200k_base().map(|core| Bpe { base: BpeBase::O200kBase, core }).map_err(
        |e| e.to_string(),
    )
}

/// Relies on `tiktoken_rs::cl100k_base`: loads that encoder, or reports why not.
#[verifier::external_body]
fn load_cl100k_base() -> (r: Result<Bpe, String>)
    ensures
        r matches Ok(b) ==> b.spec_base() == BpeBase::Cl100kBase,
{
    tiktoken_rs::cl100k_base().map(|core| Bpe { base: BpeBase::Cl100kBase, core }).map_err(
        |e| e.to_string(),
    )
}

/// Relies on `tiktoken_rs::p50k_base`: loads that encoder, or reports why not.
#[verifier::external_body]
fn load_p50k_base() -> (r: Result<Bpe, String>)
    ensures
        r matches Ok(b) ==> b.spec_base() == BpeBase::P50kBase,
{
    tiktoken_rs::p50k_base().map(|core| Bpe { base: BpeBase::P50kBase, core }).map_err(
        |e| e.to_string(),
    )
}

/// Relies on `tiktoken_rs::r50k_base`: loads that encoder, or reports why not.
#[verifier::external_body]
fn load_r50k_base() -> (r: Result<Bpe, String>)
    ensures
        r matches Ok(b) ==> b.spec_base() == BpeBase::R50kBase,
{
    tiktoken_rs::r50k_base().map(|core| Bpe { base: BpeBase::R50kBase, core }).map_err(
        |e| e.to_string(),
    )
}

/// Relies on `tiktoken_rs::p50k_edit`: loads that encoder, or reports why not.
#[verifier::external_body]
fn load_p50k_edit() -> (r: Result<Bpe, String>)
    ensures
        r matches Ok(b) ==> b.spec_base() == BpeBase::P50kEdit,
{
    tiktoken_rs::p50k_edit().map(|core| Bpe { base: BpeBase::P50kEdit, core }).map_err(
        |e| e.to_string(),
    )
}

/// Relies on `CoreBPE::encode` with every special token allowed (the set that
/// `CoreBPE::special_tokens` gives): the tokens of `text` under the encoder's
/// encoding, which depend on the encoding and the text alone, or the error it
/// reports when its splitting regex hits a backtracking limit.
#[verifier::external_body]
fn encode(bpe: &Bpe, text: &str) -> (r: Result<Vec<u32>, String>)
    ensures
        r matches Ok(v) ==> v@ == encoding(bpe.spec_base(), text@),
{
    let allowed = bpe.core.special_tokens();
    bpe.core.encode(text, &allowed).map(|(tokens, _)| tokens).map_err(|e| e.to_string())
}

/// Relies on `CoreBPE::decode`: the text of `tokens`, or why they do not decode.
#[verifier::external_body]
fn decode(bpe: &Bpe, tokens: Vec<u32>) -> (r: Result<String, String>)
    ensures
        r is Ok <==> decoding(bpe.spec_base(), tokens@) is Some,
        r matches Ok(s) ==> decoding(bpe.spec_base(), tokens@) == Some(s@),
{
    bpe.core.decode(&tokens).map_err(|e| e.to_string())
}

/// The encoding a tokenizer family uses: GPT-2 shares p50k_base's.
pub open spec fn spec_base_of(kind: TokenizerKind) -> BpeBase {
    match kind {
        TokenizerKind::O200kHarmony => BpeBase::O200kHarmony,
        TokenizerKind::O200kBase => BpeBase::O200kBase,
        TokenizerKind::Cl100kBase => BpeBase::Cl100kBase,
        TokenizerKind::P50kBase => BpeBase::P50kBase,
        TokenizerKind::R50kBase => BpeBase::R50kBase,
        TokenizerKind::P50kEdit => BpeBase::P50kEdit,
        TokenizerKind::Gpt2 => BpeBase::P50kBase,
    }
}

/// The encoding a tokenizer family uses.
pub fn base_of(kind: TokenizerKind) -> (r: BpeBase)
    ensures
        r == spec_base_of(kind),
{
    match kind {
        TokenizerKind::O200kHarmony => BpeBase::O200kHarmony,
        TokenizerKind::O200kBase => BpeBase::O200kBase,
        TokenizerKind::Cl100kBase => BpeBase::Cl100kBase,
        TokenizerKind::P50kBase => BpeBase::P50kBase,
        TokenizerKind::R50kBase => BpeBase::R50kBase,
        TokenizerKind::P50kEdit => BpeBase::P50kEdit,
        TokenizerKind::Gpt2 => BpeBase::P50kBase,
    }
}

/// The encoding a model name uses, if the name is known.
pub open spec fn model_base(model: Seq<char>) -> Option<BpeBase> {
    match tokenizer_of(model) {
        Some(k) => Some(spec_base_of(k)),
        None => None,
    }
}

/// Loads the encoder for a model name. An unknown name, or an encoder that
/// fails to load, is a `Parse` error.
pub fn bpe_for_model(model: &str) -> (r: Result<Bpe, OpenAIAgentError>)
    ensures
        model_base(model@) is None ==> (r matches Err(OpenAIAgentError::Parse(m)) && m@
            == "Unknown model: "@ + model@),
        r matches Ok(b) ==> model_base(model@) == Some(b.spec_base()),
        r matches Err(e) ==> e is Parse,
{
    let kind = match tokenizer_for_model(model) {
        Some(k) => k,
        None => {
            let head = String::from_str("Unknown model: ");
            return Err(OpenAIAgentError::Parse(head.concat(model)));
        },
    };
    let (loaded, label) = match base_of(kind) {
        BpeBase::O200kHarmony => (load_o200k_harmony(), "o200k_harmony"),
        BpeBase::O200kBase => (load_o200k_base(), "o200k_base"),
        BpeBase::Cl100kBase => (load_cl100k_base(), "cl100k_base"),
        BpeBase::P50kBase => (load_p50k_base(), "p50k_base"),
        BpeBase::R50kBase => (load_r50k_base(), "r50k_base"),
        BpeBase::P50kEdit => (load_p50k_edit(), "p50k_edit"),
    };
    match loaded {
        Ok(b) => Ok(b),
        Err(why) => {
            let head = String::from_str("Failed to init ");
            let msg = head.concat(label).concat(": ").concat(why.as_str());
            Err(OpenAIAgentError::Parse(msg))
        },
    }
}

/// Encodes `text`; a failure of the encoder is a `Parse` error.
fn encode_text(bpe: &Bpe, text: &str) -> (r: Result<Vec<u32>, OpenAIAgentError>)
    ensures
        r matches Ok(v) ==> v@ == encoding(bpe.spec_base(), text@),
        r matches Err(e) ==> e is Parse,
{
    match encode(bpe, text) {
        Ok(v) => Ok(v),
        Err(why) => {
            let head = String::from_str("Failed to encode text: ");
            Err(OpenAIAgentError::Parse(head.concat(why.as_str())))
        },
    }
}

/// Counts the tokens of `text` under the encoding of `model`.
pub fn count_tokens(text: &str, model: &str) -> (r: Result<usize, OpenAIAgentError>)
    ensures
        model_base(model@) is None ==> (r matches Err(OpenAIAgentError::Parse(m)) && m@
            == "Unknown model: "@ + model@),
        r matches Ok(n) ==> model_base(model@) matches Some(b) && n == encoding(b, text@).len(),
        r matches Err(e) ==> e is Parse,
{
    let bpe = bpe_for_model(model)?;
    let tokens = encode_text(&bpe, text)?;
    Ok(tokens.len())
}

/// The first `max_tokens` tokens, or nothing when `tokens` already fit.
pub fn truncated_tokens(tokens: Vec<u32>, max_tokens: usize) -> (r: Option<Vec<u32>>)
    ensures
        tokens@.len() <= max_tokens <==> r is None,
        r matches Some(v) ==> v@ == tokens@.subrange(0, max_tokens as int),
{
    if tokens.len() <= max_tokens {
        None
    } else {
        let mut v = tokens;
        v.truncate(max_tokens);
        Some(v)
    }
}

/// Cuts `text` down to at most `max_tokens` tokens of the encoding of `model`:
/// text that fits comes back unchanged, longer text is the decoding of its
/// first `max_tokens` tokens.
pub fn truncate_text_to_tokens(text: &str, max_tokens: usize, model: &str) -> (r: Result<
    String,
    OpenAIAgentError,
>)
    ensures
        model_base(model@) is None ==> (r matches Err(OpenAIAgentError::Parse(m)) && m@
            == "Unknown model: "@ + model@),
        r matches Ok(s) ==> model_base(model@) matches Some(b) && if encoding(b, text@).len()
            <= max_tokens {
            s@ == text@
        } else {
            decoding(b, encoding(b, text@).subrange(0, max_tokens as int)) == Some(s@)
        },
        r matches Err(e) ==> e is Parse,
{
    let bpe = bpe_for_model(model)?;
    let tokens = encode_text(&bpe, text)?;
    match truncated_tokens(tokens, max_tokens) {
        None => Ok(String::from_str(text)),
        Some(kept) => match decode(&bpe, kept) {
            Ok(s) => Ok(s),
            Err(why) => {
                let head = String::from_str("Failed to decode tokens: ");
                Err(OpenAIAgentError::Parse(head.concat(why.as_str())))
            },
        },
    }
}

/// What a retry loop does after a transient failure: sleep, then try again.
#[derive(Debug, Clone, Copy, PartialEq, Eq)]
pub struct RetryPlan {
    /// How long to wait before the next attempt, in milliseconds.
    pub sleep_ms: u64,
    /// Retries made once this one is counted.
    pub retries: usize,
    /// The wait after the next failure: double this one, saturating.
    pub next_delay_ms: u64,
}

/// Decides whether a failed attempt is retried. Only transient failures (a
/// timeout or a failed connection) are retried, at most `max_retries` times,
/// with the delay doubling after each retry.
pub fn retry_after_failure(retries: usize, max_retries: usize, transient: bool, delay_ms: u64) -> (r:
    Option<RetryPlan>)
    ensures
        r is None <==> (retries >= max_retries || !transient),
        r matches Some(p) ==> p.sleep_ms == delay_ms && p.retries == retries + 1 && p.next_delay_ms
            == if 2 * delay_ms <= u64::MAX {
            (2 * delay_ms) as u64
        } else {
            u64::MAX
        },
{
    if retries >= max_retries || !transient {
        None
    } else {
        Some(RetryPlan {
            sleep_ms: delay_ms,
            retries: retries + 1,
            next_delay_ms: delay_ms.saturating_add(delay_ms),
        })
    }
}

} // verus!
