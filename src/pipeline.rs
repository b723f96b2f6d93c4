//! The extraction run as a state machine. The caller performs each action
//! (fetch the page, call the completion service, make the lookups) and hands
//! the outcome back as an event; every decision is made here.
use vstd::prelude::*;
use crate::json::{json_accepted, parse_json, Json};
use crate::prompt::{build_prompt, content_of, envelope_content, is_prompt_for, ChatRequest};
use crate::recipe::{decode_recipe, read_recipe, RecipeExtraction, Reference};
use crate::resolve::{
    apply_found, copy_found, lookup_plan, nothing_found_keeps_nothing, plan_len, plan_of, resolved,
    Lookup,
};

verus! {

/// What ends a run without a recipe.
#[derive(Debug, PartialEq, Eq)]
pub enum PipelineError {
    /// A required configuration value is missing; nothing was fetched.
    Config,
    /// The page could not be fetched.
    Fetch(String),
    /// The page has no text to build a prompt from.
    TextExtraction,
    /// The completion service failed, or its reply holds no message.
    Completion(String),
    /// The model's output, kept as it came, is not a recipe document.
    Schema(String),
}

/// Names what html2text renders from markup: its text, or `None` where it fails.
pub uninterp spec fn rendered_of(html: Seq<char>) -> Option<Seq<char>>;

/// Relies on html2text::from_read: the visible text of the markup in reading
/// order, at unbounded width so that no line is wrapped.
#[verifier::external_body]
fn html_to_text(html: &str) -> (r: Option<String>)
    ensures
        match r {
            Some(t) => rendered_of(html@) == Some(t@),
            None => rendered_of(html@) is None,
        },
{
    html2text::from_read(html.as_bytes(), usize::MAX).ok()
}

/// The request for a page's text, given as `html_to_text` gave it: a text
/// that could not be rendered or is empty is a `TextExtraction` error.
pub fn request_for_text(text: Option<String>, model_id: &str) -> (r: Result<ChatRequest, PipelineError>)
    ensures
        match text {
            Some(t) if t@.len() > 0 => r matches Ok(req) && is_prompt_for(req, t@, model_id@),
            _ => r matches Err(PipelineError::TextExtraction),
        },
{
    match text {
        Some(t) => if t.as_str().is_empty() {
            Err(PipelineError::TextExtraction)
        } else {
            Ok(build_prompt(t.as_str(), model_id))
        },
        None => Err(PipelineError::TextExtraction),
    }
}

/// Builds the completion request for a fetched page.
pub fn request_for_page(html: &str, model_id: &str) -> (r: Result<ChatRequest, PipelineError>)
    ensures
        match rendered_of(html@) {
            Some(t) if t.len() > 0 => r matches Ok(req) && is_prompt_for(req, t, model_id@),
            _ => r matches Err(PipelineError::TextExtraction),
        },
{
    request_for_text(html_to_text(html), model_id)
}

/// The recipe in the model's output `raw`, given the document that serde_json
/// read from it: a missing or non-conforming document is a `Schema` error
/// holding `raw` unchanged.
pub fn recipe_from_document(raw: &str, doc: Option<Json>) -> (r: Result<RecipeExtraction, PipelineError>)
    ensures
        match doc {
            Some(j) if decode_recipe(j) is Some => r matches Ok(x) && Some(x@) == decode_recipe(j),
            _ => r matches Err(PipelineError::Schema(t)) && t@ == raw@,
        },
{
    match doc {
        Some(j) => match read_recipe(&j) {
            Some(x) => Ok(x),
            None => Err(PipelineError::Schema(raw.to_string())),
        },
        None => Err(PipelineError::Schema(raw.to_string())),
    }
}

/// Reads the model's output as a recipe; on failure the output is kept in
/// the error, unchanged. Text that is not JSON always fails.
pub fn parse_recipe(raw: &str) -> (r: Result<RecipeExtraction, PipelineError>)
    ensures
        !json_accepted(raw@) ==> (r matches Err(PipelineError::Schema(t)) && t@ == raw@),
        r matches Ok(x) ==> exists|j: Json| decode_recipe(j) == Some(x@),
        r matches Err(e) ==> (e matches PipelineError::Schema(t) && t@ == raw@),
{
    recipe_from_document(raw, parse_json(raw))
}

/// Values a run reads when it starts.
#[derive(Debug, PartialEq, Eq)]
pub struct Config {
    pub endpoint: Option<String>,
    pub token: Option<String>,
    pub model: Option<String>,
}

#[derive(Debug, Clone, Copy, PartialEq, Eq, Structural)]
pub enum Stage {
    Fetching,
    Completing,
    Resolving,
    Done,
    Failed,
}

/// A run in progress. While resolving it holds the parsed recipe.
#[derive(Debug, PartialEq, Eq)]
pub struct Pipeline {
    pub stage: Stage,
    pub endpoint: String,
    pub token: String,
    pub model: String,
    pub recipe: Option<RecipeExtraction>,
    /// The number of slots in the recipe's lookup plan.
    pub slots: usize,
}

/// What the caller reports back.
#[derive(Debug, PartialEq, Eq)]
pub enum Event {
    /// The page body, or why it could not be fetched.
    Fetched(Result<String, String>),
    /// The completion service's reply as JSON text, or why the call failed.
    Completed(Result<String, String>),
    /// One answer per slot of the lookup plan; a failed lookup is `None`.
    Found(Vec<Option<Reference>>),
}

/// What the caller is asked to do next.
#[derive(Debug, PartialEq, Eq)]
pub enum Action {
    Fetch(String),
    Complete(ChatRequest, String, String),
    Lookup(Vec<Option<Lookup>>),
    Finish(Result<RecipeExtraction, PipelineError>),
    /// The event did not belong to this stage; nothing changed.
    Nothing,
}

impl Pipeline {
    pub open spec fn wf(&self) -> bool {
        self.stage is Resolving ==> (self.recipe matches Some(x) && self.slots == plan_len(x@))
    }
}

/// The answers fitted to a plan of `len` slots: a slot left unanswered found
/// nothing, and answers past the plan are dropped.
pub open spec fn fitted(found: Seq<Option<Reference>>, len: nat) -> Seq<Option<Reference>> {
    Seq::new(len, |k: int| if k < found.len() { found[k] } else { None })
}

/// What one step does, for each stage and event.
pub open spec fn step_post(p: Pipeline, e: Event, q: Pipeline, a: Action) -> bool {
    match (p.stage, e) {
        (Stage::Fetching, Event::Fetched(Err(m))) => q.stage == Stage::Failed && a == Action::Finish(
            Err(PipelineError::Fetch(m)),
        ),
        (Stage::Fetching, Event::Fetched(Ok(html))) => match rendered_of(html@) {
            Some(t) if t.len() > 0 => q.stage == Stage::Completing && q.model == p.model
                && q.endpoint == p.endpoint && q.token == p.token && (a matches Action::Complete(
                req,
                endpoint,
                token,
            ) && is_prompt_for(req, t, p.model@) && endpoint == p.endpoint && token == p.token),
            _ => q.stage == Stage::Failed && a == Action::Finish(
                Err(PipelineError::TextExtraction),
            ),
        },
        (Stage::Completing, Event::Completed(Err(m))) => q.stage == Stage::Failed && a
            == Action::Finish(Err(PipelineError::Completion(m))),
        (Stage::Completing, Event::Completed(Ok(reply))) => (!json_accepted(reply@) ==> (q.stage
            == Stage::Failed && a == Action::Finish(Err(PipelineError::Completion(reply))))) && match a {
            Action::Lookup(plan) => q.stage == Stage::Resolving && (q.recipe matches Some(x) && (
            exists|j: Json| decode_recipe(j) == Some(x@)) && plan@ == plan_of(x@)),
            Action::Finish(Err(PipelineError::Completion(t))) => q.stage == Stage::Failed && t@
                == reply@,
            Action::Finish(Err(PipelineError::Schema(c))) => q.stage == Stage::Failed && (exists|
                j: Json,
            | content_of(j) == Some(c)),
            _ => false,
        },
        (Stage::Resolving, Event::Found(found)) => q.stage == Stage::Done && match (p.recipe, a) {
            (Some(x), Action::Finish(Ok(y))) => y@ == resolved(
                x@,
                fitted(found@, plan_len(x@)),
            ),
            _ => false,
        },
        _ => q.stage == p.stage && a is Nothing,
    }
}

/// Fits the answers to a plan of `len` slots, as `fitted` says.
pub fn fit_answers(found: &Vec<Option<Reference>>, len: usize) -> (r: Vec<Option<Reference>>)
    ensures
        r@ == fitted(found@, len as nat),
{
    let mut r: Vec<Option<Reference>> = Vec::new();
    let mut k: usize = 0;
    while k < len
        invariant
            k <= len,
            r@.len() == k,
            forall|i: int| 0 <= i < k ==> r@[i] == fitted(found@, len as nat)[i],
        decreases len - k,
    {
        if k < found.len() {
            r.push(copy_found(&found[k]));
        } else {
            r.push(None);
        }
        k = k + 1;
    }
    assert(r@ =~= fitted(found@, len as nat));
    r
}

/// Starts a run: with every configuration value present it asks for the
/// page; otherwise it fails at once with `Config`, before any fetch.
pub fn start(url: String, config: Config) -> (r: (Pipeline, Action))
    ensures
        r.0.wf(),
        config.endpoint is Some && config.token is Some && config.model is Some ==> r.0.stage
            == Stage::Fetching && r.1 == Action::Fetch(url) && Some(r.0.endpoint)
            == config.endpoint && Some(r.0.token) == config.token && Some(r.0.model)
            == config.model,
        !(config.endpoint is Some && config.token is Some && config.model is Some) ==> r.0.stage
            == Stage::Failed && r.1 == Action::Finish(Err(PipelineError::Config)),
{
    match (config.endpoint, config.token, config.model) {
        (Some(endpoint), Some(token), Some(model)) => (
            Pipeline { stage: Stage::Fetching, endpoint, token, model, recipe: None, slots: 0 },
            Action::Fetch(url),
        ),
        _ => (
            Pipeline {
                stage: Stage::Failed,
                endpoint: String::new(),
                token: String::new(),
                model: String::new(),
                recipe: None,
                slots: 0,
            },
            Action::Finish(Err(PipelineError::Config)),
        ),
    }
}

impl Pipeline {
    /// Takes the outcome of the last action and decides the next one.
    pub fn step(self, event: Event) -> (r: (Pipeline, Action))
        requires
            self.wf(),
        ensures
            r.0.wf(),
            step_post(self, event, r.0, r.1),
    {
        let ghost p = self;
        let Pipeline { stage, endpoint, token, model, recipe, slots } = self;
        match (stage, event) {
            (Stage::Fetching, Event::Fetched(Err(m))) => (
                Pipeline { stage: Stage::Failed, endpoint, token, model, recipe, slots },
                Action::Finish(Err(PipelineError::Fetch(m))),
            ),
            (Stage::Fetching, Event::Fetched(Ok(html))) => match request_for_page(
                html.as_str(),
                model.as_str(),
            ) {
                Ok(req) => {
                    let e2 = endpoint.clone();
                    let t2 = token.clone();
                    (
                        Pipeline { stage: Stage::Completing, endpoint, token, model, recipe, slots },
                        Action::Complete(req, e2, t2),
                    )
                },
                Err(_) => (
                    Pipeline { stage: Stage::Failed, endpoint, token, model, recipe, slots },
                    Action::Finish(Err(PipelineError::TextExtraction)),
                ),
            },
            (Stage::Completing, Event::Completed(Err(m))) => (
                Pipeline { stage: Stage::Failed, endpoint, token, model, recipe, slots },
                Action::Finish(Err(PipelineError::Completion(m))),
            ),
            (Stage::Completing, Event::Completed(Ok(reply))) => match envelope_content(
                reply.as_str(),
            ) {
                None => (
                    Pipeline { stage: Stage::Failed, endpoint, token, model, recipe, slots },
                    Action::Finish(Err(PipelineError::Completion(reply))),
                ),
                Some(content) => match parse_recipe(content.as_str()) {
                    Ok(x) => {
                        let plan = lookup_plan(&x);
                        (
                            Pipeline {
                                stage: Stage::Resolving,
                                endpoint,
                                token,
                                model,
                                recipe: Some(x),
                                slots: plan.len(),
                            },
                            Action::Lookup(plan),
                        )
                    },
                    Err(_) => (
                        Pipeline { stage: Stage::Failed, endpoint, token, model, recipe, slots },
                        Action::Finish(Err(PipelineError::Schema(content))),
                    ),
                },
            },
            (Stage::Resolving, Event::Found(found)) => match recipe {
                Some(x) => {
                    let fit = fit_answers(&found, slots);
                    let y = apply_found(x, &fit);
                    (
                        Pipeline { stage: Stage::Done, endpoint, token, model, recipe: None, slots },
                        Action::Finish(Ok(y)),
                    )
                },
                None => {
                    proof {
                        assert(false);
                    }
                    (
                        Pipeline { stage: Stage::Done, endpoint, token, model, recipe: None, slots },
                        Action::Nothing,
                    )
                },
            },
            (stage, _) => (Pipeline { stage, endpoint, token, model, recipe, slots }, Action::Nothing),
        }
    }
}

/// A failed completion call ends the run with that failure, and the run
/// then stays failed: no lookup is ever asked for.
pub proof fn completion_failure_is_fatal(p: Pipeline, m: String, q: Pipeline, a: Action)
    requires
        p.stage == Stage::Completing,
        step_post(p, Event::Completed(Err(m)), q, a),
    ensures
        q.stage == Stage::Failed,
        a == Action::Finish(Err(PipelineError::Completion(m))),
        forall|e: Event, q2: Pipeline, a2: Action|
            #[trigger] step_post(q, e, q2, a2) ==> q2.stage == Stage::Failed && !(a2 is Lookup),
{
}

/// A run whose lookups all find nothing still ends with its recipe, every
/// reference left empty.
pub proof fn failed_lookups_still_succeed(
    p: Pipeline,
    found: Vec<Option<Reference>>,
    q: Pipeline,
    a: Action,
)
    requires
        p.wf(),
        p.stage == Stage::Resolving,
        forall|i: int| 0 <= i < found@.len() ==> (#[trigger] found@[i]) is None,
        step_post(p, Event::Found(found), q, a),
    ensures
        q.stage == Stage::Done,
        a matches Action::Finish(Ok(y)) && {
            &&& y@.cuisine is None
            &&& y@.tags.len() == 0
            &&& y@.meals.len() == 0
            &&& forall|i: int|
                0 <= i < y@.ingredients.len() ==> (#[trigger] y@.ingredients[i]).ingredient is None
                    && y@.ingredients[i].unit is None
        },
{
    let x = p.recipe->Some_0;
    let f = fitted(found@, plan_len(x@));
    assert forall|i: int| 0 <= i < f.len() implies (#[trigger] f[i]) is None by {}
    let n = x@.ingredients.len() as int;
    let t = x@.tag_labels.len() as int;
    let m = x@.meal_labels.len() as int;
    let tags = f.subrange(2 * n + 1, 2 * n + 1 + t);
    let meals = f.subrange(2 * n + 1 + t, 2 * n + 1 + t + m);
    assert forall|i: int| 0 <= i < tags.len() implies (#[trigger] tags[i]) is None by {
        assert(f[2 * n + 1 + i] is None);
    }
    assert forall|i: int| 0 <= i < meals.len() implies (#[trigger] meals[i]) is None by {
        assert(f[2 * n + 1 + t + i] is None);
    }
    nothing_found_keeps_nothing(tags);
    nothing_found_keeps_nothing(meals);
}

} // verus!
