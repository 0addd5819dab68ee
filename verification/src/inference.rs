use vstd::prelude::*;
use vstd::string::StringExecFns;

verus! {

/// The fixed configuration the extraction and inference stages run under:
/// the system instruction sent with every request, the model identifier,
/// and the OCR language. Explicit so that tests can substitute a stub
/// backend's values.
pub struct PipelineConfig {
    pub system_prompt: String,
    pub model_id: String,
    pub ocr_language: String,
}

/// One request to the inference backend: a model identifier, a system
/// instruction, and the recognized text as the user turn.
pub struct InferenceRequest {
    pub model: String,
    pub system: String,
    pub prompt: String,
}

/// `needle` occurs contiguously inside `hay`.
pub open spec fn contains_seq(hay: Seq<char>, needle: Seq<char>) -> bool {
    exists|i: int|
        0 <= i && i + needle.len() <= hay.len() && #[trigger] hay.subrange(i, i + needle.len())
            == needle
}

/// Builds the two-part prompt: the configured system instruction, and the
/// recognized text — verbatim, unmodified — as the user turn, under the
/// configured model identifier.
pub fn build_request(config: &PipelineConfig, recognized: String) -> (r: InferenceRequest)
    ensures
        r.model@ == config.model_id@,
        r.system@ == config.system_prompt@,
        r.prompt@ == recognized@,
{
    InferenceRequest {
        model: config.model_id.clone(),
        system: config.system_prompt.clone(),
        prompt: recognized,
    }
}

/// An inference backend that echoes its prompt returns the recognized
/// text verbatim: `build_request` makes the recognized text the whole
/// user turn, so the echoed response both contains and equals it.
pub proof fn lemma_echo_returns_recognized(
    request_prompt: Seq<char>,
    recognized: Seq<char>,
    response: Seq<char>,
)
    requires
        request_prompt == recognized,
        response == request_prompt,
    ensures
        response == recognized,
        contains_seq(response, recognized),
{
    assert(response.subrange(0, 0 + recognized.len() as int) =~= recognized);
    assert(contains_seq(response, recognized)) by {
        let i: int = 0;
        assert(0 <= i && i + recognized.len() <= response.len() && response.subrange(
            i,
            i + recognized.len(),
        ) == recognized);
    }
}

/// The configuration the original deployment runs under: a fixed
/// assistant instruction, a local mistral model, English OCR.
pub fn default_config() -> (r: PipelineConfig)
    ensures
        r.system_prompt@
            == "You are a personal assistant designed to help the user answer questions clearly and independently, without requiring assistance from the user. Provide helpful, accurate, and concise responses."@,
        r.model_id@ == "mistral:latest"@,
        r.ocr_language@ == "eng"@,
{
    PipelineConfig {
        system_prompt: String::from_str(
            "You are a personal assistant designed to help the user answer questions clearly and independently, without requiring assistance from the user. Provide helpful, accurate, and concise responses.",
        ),
        model_id: String::from_str("mistral:latest"),
        ocr_language: String::from_str("eng"),
    }
}

} // verus!
