use vstd::prelude::*;

verus! {

/// The structured verdict of the diagnostic collaborator on a run's log.
#[derive(Clone, Debug)]
pub struct AnalyzeResult {
    pub summary: String,
    pub issues: Vec<String>,
    pub suggestions: Vec<String>,
}

/// The model that the diagnostic collaborator is asked to use.
pub const ANALYSIS_MODEL: &'static str = "gpt-5.2";

/// The most output tokens that the diagnostic collaborator may spend on a verdict.
pub const ANALYSIS_MAX_OUTPUT_TOKENS: u32 = 700;

/// The instructions that come before the logs in a request for analysis.
pub const PROMPT_HEAD: &'static str = r#"
You are a senior DevOps engineer.

You are given Docker build and runtime logs from a sandboxed environment.

Your task:
1. Summarize what happened
2. Detect errors, warnings, or misconfigurations
3. Identify environment mismatches (Node versions, missing build steps, ports, etc.)
4. Suggest concrete fixes

Return STRICT JSON ONLY in the following format:
{
  "summary": "string",
  "issues": ["string"],
  "suggestions": ["string"]
}

Logs:
"#;

/// What follows the logs in a request for analysis.
pub const PROMPT_TAIL: &'static str = "\n";

/// The request text for the diagnostic collaborator: the instructions, then the
/// logs as they are.
pub fn analysis_prompt(logs: &str) -> (r: String)
    ensures
        r@ == PROMPT_HEAD@ + logs@ + PROMPT_TAIL@,
{
    let head = String::from_str(PROMPT_HEAD);
    head.concat(logs).concat(PROMPT_TAIL)
}

} // verus!
