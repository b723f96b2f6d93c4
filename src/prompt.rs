//! The messages sent to the completion service, and the reading of its reply.
use vstd::prelude::*;
use crate::json::{field, get_field, json_accepted, parse_json, Json};

verus! {

/// The instruction document: the output schema, how to split ingredient lines,
/// and what to write for missing values.
pub const SYSTEM_PROMPT: &'static str = r#"You are a recipe data extraction assistant. Extract recipe information from website text content and return ONLY a raw JSON object.

The JSON must match this exact schema:
{
  "name": string or null,
  "portions": number or null,
  "ingredients": [
    {
      "name": string,
      "amount": number or null,
      "unit_string": string or null,
      "description": string or null
    }
  ],
  "steps": [string],
  "cuisine_string": string or null,
  "cooking_time_minutes": integer or null,
  "tag_strings": [string],
  "meal_strings": [string],
  "image_url": string or null
}

Guidelines:
- Keep all text in the language of the source
- For ingredients, separate into components:
  * "2 cups flour" → name:"flour", amount:"2", unit_string:"cups", description:null
  * "1 large diced onion" → name:"onion", amount:"1", unit_string:null, description:"large, diced"
  * "Salt to taste" → name:"salt", amount:null, unit_string:null, description:"to taste"
  * "3 tbsp chopped fresh parsley" → name:"parsley", amount:"3", unit_string:"tbsp", description:"chopped, fresh"
- Use description field for preparation methods (diced, chopped, minced), state (fresh, dried), and special notes (to taste, optional)
- Extract all step-by-step instructions in order
- Identify the cuisine type (e.g., "Italian", "Mexican", "Asian")
- Identify relevant tags found in the source (e.g., "vegetarian", "gluten-free", "quick")
- Identify meal types found in the source (e.g., "breakfast", "lunch", "dinner", "dessert")
- cooking_time_minutes should be total time (prep + cook)
- Return empty arrays [] for missing list fields, null for missing singular fields"#;

/// One chat completion request: the model, the two messages, and a reply
/// asked for as a single JSON object.
#[derive(Debug, PartialEq, Eq)]
pub struct ChatRequest {
    pub model: String,
    pub system: String,
    pub user: String,
    /// Asks the service for a single JSON object rather than prose.
    pub json_reply: bool,
}

/// `r` is the request for `page_text` to `model_id`.
pub open spec fn is_prompt_for(r: ChatRequest, page_text: Seq<char>, model_id: Seq<char>) -> bool {
    &&& r.system@ == SYSTEM_PROMPT@
    &&& r.user@ == page_text
    &&& r.model@ == model_id
    &&& r.json_reply
}

/// Builds the request for a page's text: the fixed instructions as the system
/// message, the text unchanged as the user message.
pub fn build_prompt(page_text: &str, model_id: &str) -> (r: ChatRequest)
    ensures
        is_prompt_for(r, page_text@, model_id@),
{
    ChatRequest {
        model: model_id.to_string(),
        system: SYSTEM_PROMPT.to_string(),
        user: page_text.to_string(),
        json_reply: true,
    }
}

/// Two requests that `build_prompt` made for the same page text and model
/// are the same, byte for byte.
pub proof fn prompt_is_deterministic(
    page_text: Seq<char>,
    model_id: Seq<char>,
    a: ChatRequest,
    b: ChatRequest,
)
    requires
        is_prompt_for(a, page_text, model_id),
        is_prompt_for(b, page_text, model_id),
    ensures
        a.system@ == b.system@,
        a.user@ == b.user@,
        a.model@ == b.model@,
        a.json_reply == b.json_reply,
{
}

/// The text content of the first choice of a chat completion reply:
/// `choices[0].message.content`.
pub open spec fn content_of(envelope: Json) -> Option<String> {
    match envelope {
        Json::Object(top) => match field(top@, "choices"@) {
            Some(Json::Array(choices)) => if choices@.len() > 0 {
                match choices@[0] {
                    Json::Object(choice) => match field(choice@, "message"@) {
                        Some(Json::Object(message)) => match field(message@, "content"@) {
                            Some(Json::Str(c)) => Some(c),
                            _ => None,
                        },
                        _ => None,
                    },
                    _ => None,
                }
            } else {
                None
            },
            _ => None,
        },
        _ => None,
    }
}

/// Reads the assistant's message out of a chat completion reply.
pub fn completion_content(envelope: &Json) -> (r: Option<String>)
    ensures
        r == content_of(*envelope),
{
    if let Json::Object(top) = envelope {
        if let Some(Json::Array(choices)) = get_field(top, "choices") {
            if choices.len() > 0 {
                if let Json::Object(choice) = &choices[0] {
                    if let Some(Json::Object(message)) = get_field(choice, "message") {
                        if let Some(Json::Str(c)) = get_field(message, "content") {
                            return Some(c.clone());
                        }
                    }
                }
            }
        }
    }
    None
}

/// Reads the assistant's message out of the JSON text of a reply; `None`
/// where the text is not JSON or lacks the message.
pub fn envelope_content(text: &str) -> (r: Option<String>)
    ensures
        !json_accepted(text@) ==> r is None,
        r matches Some(c) ==> exists|j: Json| content_of(j) == Some(c),
{
    match parse_json(text) {
        Some(j) => completion_content(&j),
        None => None,
    }
}

} // verus!
