//! The text side of the optional summarization request: the endpoint, the
//! prompt around a serialized result, and the choice of the reply text.
use vstd::prelude::*;

verus! {

pub const ENDPOINT: &'static str = "https://generativelanguage.googleapis.com/v1beta/models/gemini-3-flash-preview:generateContent?key=";

pub const PROMPT_HEAD: &'static str = "You are an expert software architect. Analyze the following repository analysis results and provide professional insights, context, and best practice recommendations for each aspect. \n            The goal is to create a high-quality guideline.md for an AI agent.\n            \n            Analysis Results (JSON):\n            ```json\n            ";

pub const PROMPT_TAIL: &'static str = "\n            ```\n            \n            Please provide the output in Markdown format with the following sections if applicable:\n            - Executive Summary\n            - Detailed Analysis Insights (Naming, DI, Testing, Config, Security, Error Handling, Design Patterns)\n            - Strategic Recommendations, you can add sample code snippets if applicable.\n            \n            Use Indonesian language for the analysis and recommendations.";

/// A client of the summarization service, holding its API key.
pub struct GeminiClient {
    api_key: String,
}

impl GeminiClient {
    pub closed spec fn spec_key(&self) -> Seq<char> {
        self.api_key@
    }

    /// A client that authenticates with `api_key`.
    pub fn from_api_key(api_key: String) -> (r: GeminiClient)
        ensures
            r.spec_key() == api_key@,
    {
        GeminiClient { api_key }
    }

    pub fn api_key(&self) -> (r: &str)
        ensures
            r@ == self.spec_key(),
    {
        self.api_key.as_str()
    }

    /// The address of the request: the endpoint followed by the key.
    pub fn request_url(&self) -> (r: String)
        ensures
            r@ == ENDPOINT@ + self.spec_key(),
    {
        let mut url = String::from_str(ENDPOINT);
        url.append(self.api_key.as_str());
        url
    }

    /// The prompt that embeds a serialized result.
    pub fn build_prompt(&self, result_json: &str) -> (r: String)
        ensures
            r@ == PROMPT_HEAD@ + result_json@ + PROMPT_TAIL@,
    {
        let mut prompt = String::from_str(PROMPT_HEAD);
        prompt.append(result_json);
        prompt.append(PROMPT_TAIL);
        prompt
    }

    /// The reply text: the first part of the first candidate, if any.
    pub fn reply_text(candidates: &Vec<Vec<String>>) -> (r: Option<String>)
        ensures
            candidates@.len() > 0 && candidates@[0]@.len() > 0 ==> (r matches Some(t) && t@ == candidates@[0]@[0]@),
            !(candidates@.len() > 0 && candidates@[0]@.len() > 0) ==> r is None,
    {
        if candidates.len() > 0 && candidates[0].len() > 0 {
            Some(candidates[0][0].clone())
        } else {
            None
        }
    }
}

} // verus!
