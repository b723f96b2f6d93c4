use surreal_plugin::json::{get_field, parse_json, Json};
use surreal_plugin::pipeline::{
    parse_recipe, recipe_from_document, request_for_page, request_for_text, start, Action, Config, Event, Pipeline,
    PipelineError, Stage,
};
use surreal_plugin::prompt::{build_prompt, completion_content, envelope_content, SYSTEM_PROMPT};
use surreal_plugin::recipe::{Generation, Portions, RecipeExtraction, Reference};
use surreal_plugin::recipe::generation_of_entries;
use surreal_plugin::resolve::{apply_found, keep_found, lookup_plan, Lookup, Table};

fn recipe(text: &str) -> RecipeExtraction {
    parse_recipe(text).expect("a recipe document")
}

fn reference(table: &str, key: &str) -> Reference {
    Reference { table: table.to_string(), key: key.to_string() }
}

fn config() -> Config {
    Config {
        endpoint: Some("https://llm.example".to_string()),
        token: Some("SECRET-REDACTED".to_string()),
        model: Some("deepseek-chat".to_string()),
    }
}

fn envelope(content: &str) -> String {
    let quoted = content.replace('\\', "\\\\").replace('"', "\\\"").replace('\n', "\\n");
    format!("{{\"choices\":[{{\"message\":{{\"role\":\"assistant\",\"content\":\"{}\"}}}}]}}", quoted)
}

/// Runs a pipeline up to the lookup request.
fn run_to_lookup(doc: &str) -> (Pipeline, Vec<Option<Lookup>>) {
    let (p, a) = start("https://recipes.example/soup".to_string(), config());
    assert_eq!(a, Action::Fetch("https://recipes.example/soup".to_string()));
    let (p, a) = p.step(Event::Fetched(Ok("<html><body><p>2 cups flour</p></body></html>".to_string())));
    assert!(matches!(a, Action::Complete(..)));
    let (p, a) = p.step(Event::Completed(Ok(envelope(doc))));
    match a {
        Action::Lookup(plan) => (p, plan),
        other => panic!("expected lookups, got {:?}", other),
    }
}

const SCENARIO: &str = r#"{
  "name": "Bread",
  "ingredients": [
    {"name": "flour", "amount": 2, "unit_string": "cups", "description": null},
    {"name": "onion", "amount": 1, "unit_string": null, "description": "large, diced"}
  ],
  "steps": ["Mix", "Bake"],
  "cuisine_string": "Italian",
  "cooking_time_minutes": 45,
  "tag_strings": ["quick", "vegetarian"],
  "meal_strings": ["dinner"],
  "image_url": null
}"#;

#[test]
fn ingredient_lines_decompose() {
    let r = recipe(SCENARIO);
    assert_eq!(r.ingredients.len(), 2);
    let flour = &r.ingredients[0];
    assert_eq!(flour.name, "flour");
    assert_eq!(flour.amount.as_ref().map(|n| n.text.as_str()), Some("2"));
    assert_eq!(flour.amount.as_ref().and_then(|n| n.whole), Some(2));
    assert_eq!(flour.unit_label.as_deref(), Some("cups"));
    assert_eq!(flour.description, None);
    let onion = &r.ingredients[1];
    assert_eq!(onion.name, "onion");
    assert_eq!(onion.amount.as_ref().and_then(|n| n.whole), Some(1));
    assert_eq!(onion.unit_label, None);
    assert_eq!(onion.description.as_deref(), Some("large, diced"));
    assert_eq!(onion.ingredient, None);
    assert_eq!(onion.unit, None);
}

#[test]
fn scalar_fields_decode() {
    let r = recipe(SCENARIO);
    assert_eq!(r.name.as_deref(), Some("Bread"));
    assert_eq!(r.cuisine_label.as_deref(), Some("Italian"));
    assert_eq!(r.cooking_time_minutes, Some(45));
    assert_eq!(r.tag_labels, vec!["quick".to_string(), "vegetarian".to_string()]);
    assert_eq!(r.meal_labels, vec!["dinner".to_string()]);
    assert_eq!(r.image_url, None);
    assert!(r.tags.is_empty() && r.meals.is_empty() && r.cuisine.is_none());
}

#[test]
fn empty_object_takes_defaults() {
    let r = recipe("{}");
    assert_eq!(r.name, None);
    assert_eq!(r.portions, None);
    assert!(r.ingredients.is_empty());
    assert!(r.steps.is_empty());
    assert_eq!(r.cuisine_label, None);
    assert_eq!(r.cooking_time_minutes, None);
    assert!(r.tag_labels.is_empty() && r.meal_labels.is_empty());
    assert_eq!(r.image_url, None);
}

#[test]
fn null_lists_become_empty_and_unknown_keys_are_ignored() {
    let r = recipe(r#"{"ingredients": null, "steps": null, "extra": [1, {"a": true}]}"#);
    assert!(r.ingredients.is_empty() && r.steps.is_empty());
}

#[test]
fn order_of_ingredients_and_steps_is_kept() {
    let r = recipe(
        r#"{"ingredients": [{"name": "a"}, {"name": "b"}, {"name": "c"}],
            "steps": ["first", "second", "third"]}"#,
    );
    let names: Vec<&str> = r.ingredients.iter().map(|i| i.name.as_str()).collect();
    assert_eq!(names, vec!["a", "b", "c"]);
    assert_eq!(r.steps, vec!["first".to_string(), "second".to_string(), "third".to_string()]);
}

#[test]
fn both_generations_give_the_same_recipe() {
    let labelled = recipe(
        r#"{"name": "Soup", "portions": 4, "steps": ["Boil"],
            "ingredients": [{"name": "salt", "unit_string": "tsp", "amount": 1}],
            "cuisine_string": "French", "tag_strings": ["quick"], "meal_strings": ["lunch"]}"#,
    );
    let plural = recipe(
        r#"{"name": "Soup", "portions": 4, "steps": ["Boil"],
            "ingredients": [{"name": "salt", "unit": "tsp", "amount": 1}],
            "cuisines": ["French"], "tags": ["quick"], "meals": ["lunch"]}"#,
    );
    assert_eq!(labelled, plural);
    assert_eq!(plural.cuisine_label.as_deref(), Some("French"));
    assert_eq!(plural.ingredients[0].unit_label.as_deref(), Some("tsp"));
}

#[test]
fn generation_is_told_by_label_fields() {
    let j = parse_json(r#"{"tag_strings": []}"#).unwrap();
    match &j {
        Json::Object(e) => assert_eq!(generation_of_entries(e), Generation::Labelled),
        _ => panic!("object expected"),
    }
    let j = parse_json(r#"{"tags": []}"#).unwrap();
    match &j {
        Json::Object(e) => assert_eq!(generation_of_entries(e), Generation::Plural),
        _ => panic!("object expected"),
    }
}

#[test]
fn portions_as_number_or_text() {
    let r = recipe(r#"{"portions": 4}"#);
    assert!(matches!(r.portions, Some(Portions::Count(ref n)) if n.whole == Some(4)));
    let r = recipe(r#"{"portions": "4 to 6"}"#);
    assert_eq!(r.portions, Some(Portions::Text("4 to 6".to_string())));
}

#[test]
fn malformed_output_is_a_schema_error_holding_the_text() {
    let raw = "not json at all";
    assert_eq!(parse_recipe(raw), Err(PipelineError::Schema(raw.to_string())));
    let raw = r#"{"ingredients": [{"amount": 2}]}"#;
    assert_eq!(parse_recipe(raw), Err(PipelineError::Schema(raw.to_string())));
    let raw = r#"{"cooking_time_minutes": -5}"#;
    assert_eq!(parse_recipe(raw), Err(PipelineError::Schema(raw.to_string())));
    let raw = r#"[1, 2]"#;
    assert_eq!(parse_recipe(raw), Err(PipelineError::Schema(raw.to_string())));
    let raw = r#"{"steps": ["a", 3]}"#;
    assert_eq!(parse_recipe(raw), Err(PipelineError::Schema(raw.to_string())));
}

#[test]
fn field_lookup_takes_the_named_entry() {
    let j = parse_json(r#"{"a": 1, "b": "two"}"#).unwrap();
    match &j {
        Json::Object(e) => {
            assert_eq!(get_field(e, "b"), Some(&Json::Str("two".to_string())));
            assert_eq!(get_field(e, "c"), None);
        },
        _ => panic!("object expected"),
    }
}

#[test]
fn prompt_is_deterministic() {
    let a = build_prompt("page text", "model-x");
    let b = build_prompt("page text", "model-x");
    assert_eq!(a, b);
    assert_eq!(a.system, SYSTEM_PROMPT);
    assert_eq!(a.user, "page text");
    assert_eq!(a.model, "model-x");
    assert!(SYSTEM_PROMPT.contains("\"2 cups flour\""));
}

#[test]
fn page_text_comes_from_the_markup() {
    let req = request_for_page("<html><body><h1>Pancakes</h1><p>Mix well.</p></body></html>", "m")
        .unwrap();
    assert!(req.user.contains("Pancakes"));
    assert!(req.user.contains("Mix well."));
    assert!(!req.user.contains("<p>"));
}

#[test]
fn empty_text_is_a_text_extraction_error() {
    assert_eq!(request_for_text(Some(String::new()), "m"), Err(PipelineError::TextExtraction));
    assert_eq!(request_for_text(None, "m"), Err(PipelineError::TextExtraction));
    assert!(request_for_text(Some("x".to_string()), "m").is_ok());
}

#[test]
fn completion_content_is_read_from_the_first_choice() {
    let j = parse_json(&envelope("{}")).unwrap();
    assert_eq!(completion_content(&j), Some("{}".to_string()));
    assert_eq!(envelope_content(r#"{"choices": []}"#), None);
    assert_eq!(envelope_content(r#"{"choices": [{"message": {}}]}"#), None);
}

#[test]
fn lookup_plan_has_a_slot_for_each_label() {
    let r = recipe(SCENARIO);
    let plan = lookup_plan(&r);
    let l = |t: Table, s: &str| Some(Lookup { table: t, label: s.to_string() });
    assert_eq!(
        plan,
        vec![
            l(Table::Ingredient, "flour"),
            l(Table::Ingredient, "onion"),
            l(Table::Unit, "cups"),
            None,
            l(Table::Cuisine, "Italian"),
            l(Table::RecipeTag, "quick"),
            l(Table::RecipeTag, "vegetarian"),
            l(Table::Meal, "dinner"),
        ]
    );
    assert_eq!(Table::RecipeTag.name(), "recipe_tag");
}

#[test]
fn answers_fill_the_references() {
    let r = recipe(SCENARIO);
    let found = vec![
        Some(reference("ingredient", "flour")),
        None,
        Some(reference("unit", "cup")),
        Some(reference("unit", "ignored")),
        Some(reference("cuisine", "italian")),
        None,
        Some(reference("recipe_tag", "vegetarian")),
        Some(reference("meal", "dinner")),
    ];
    let q = apply_found(r, &found);
    assert_eq!(q.ingredients[0].ingredient, Some(reference("ingredient", "flour")));
    assert_eq!(q.ingredients[0].unit, Some(reference("unit", "cup")));
    assert_eq!(q.ingredients[1].ingredient, None);
    assert_eq!(q.ingredients[1].unit, None);
    assert_eq!(q.cuisine, Some(reference("cuisine", "italian")));
    assert_eq!(q.tags, vec![reference("recipe_tag", "vegetarian")]);
    assert_eq!(q.meals, vec![reference("meal", "dinner")]);
}

#[test]
fn more_rows_resolve_more_labels() {
    let small = vec![None, Some(reference("t", "b")), None];
    let large = vec![Some(reference("t", "a")), Some(reference("t", "b")), None];
    assert_eq!(keep_found(&small, 0, 3), vec![reference("t", "b")]);
    assert_eq!(keep_found(&large, 0, 3), vec![reference("t", "a"), reference("t", "b")]);
}

#[test]
fn missing_configuration_fails_before_fetching() {
    let mut c = config();
    c.token = None;
    let (p, a) = start("https://x".to_string(), c);
    assert_eq!(p.stage, Stage::Failed);
    assert_eq!(a, Action::Finish(Err(PipelineError::Config)));
}

#[test]
fn fetch_failure_is_fatal() {
    let (p, _) = start("https://x".to_string(), config());
    let (p, a) = p.step(Event::Fetched(Err("404".to_string())));
    assert_eq!(p.stage, Stage::Failed);
    assert_eq!(a, Action::Finish(Err(PipelineError::Fetch("404".to_string()))));
}

#[test]
fn completion_failure_short_circuits() {
    let (p, _) = start("https://x".to_string(), config());
    let (p, _) = p.step(Event::Fetched(Ok("<p>2 cups flour</p>".to_string())));
    let (p, a) = p.step(Event::Completed(Err("401".to_string())));
    assert_eq!(a, Action::Finish(Err(PipelineError::Completion("401".to_string()))));
    let (p, a) = p.step(Event::Found(vec![None]));
    assert_eq!(p.stage, Stage::Failed);
    assert_eq!(a, Action::Nothing);
}

#[test]
fn request_carries_model_and_credentials() {
    let (p, _) = start("https://x".to_string(), config());
    let (p, a) = p.step(Event::Fetched(Ok("<p>2 cups flour</p>".to_string())));
    assert_eq!(p.stage, Stage::Completing);
    match a {
        Action::Complete(req, endpoint, token) => {
            assert_eq!(req.model, "deepseek-chat");
            assert_eq!(req.system, SYSTEM_PROMPT);
            assert!(req.user.contains("2 cups flour"));
            assert_eq!(endpoint, "https://llm.example");
            assert_eq!(token, "SECRET-REDACTED");
        },
        other => panic!("expected a completion request, got {:?}", other),
    }
}

#[test]
fn malformed_reply_is_a_schema_error() {
    let (p, _) = start("https://x".to_string(), config());
    let (p, _) = p.step(Event::Fetched(Ok("<p>soup</p>".to_string())));
    let (p, a) = p.step(Event::Completed(Ok(envelope("{ not json"))));
    assert_eq!(p.stage, Stage::Failed);
    assert_eq!(a, Action::Finish(Err(PipelineError::Schema("{ not json".to_string()))));
}

#[test]
fn reply_without_content_is_a_completion_error() {
    let (p, _) = start("https://x".to_string(), config());
    let (p, _) = p.step(Event::Fetched(Ok("<p>soup</p>".to_string())));
    let (_, a) = p.step(Event::Completed(Ok("{\"choices\": []}".to_string())));
    assert_eq!(
        a,
        Action::Finish(Err(PipelineError::Completion("{\"choices\": []}".to_string())))
    );
}

#[test]
fn lookups_that_find_nothing_still_succeed() {
    let (p, plan) = run_to_lookup(SCENARIO);
    assert_eq!(plan.len(), 8);
    let (p, a) = p.step(Event::Found((0..plan.len()).map(|_| None).collect()));
    assert_eq!(p.stage, Stage::Done);
    match a {
        Action::Finish(Ok(r)) => {
            assert!(r.ingredients.iter().all(|i| i.ingredient.is_none() && i.unit.is_none()));
            assert!(r.cuisine.is_none() && r.tags.is_empty() && r.meals.is_empty());
            assert_eq!(r.ingredients.len(), 2);
        },
        other => panic!("expected a recipe, got {:?}", other),
    }
}

#[test]
fn short_answers_count_as_nothing_found() {
    let (p, _) = run_to_lookup(SCENARIO);
    let (_, a) = p.step(Event::Found(vec![Some(reference("ingredient", "flour"))]));
    match a {
        Action::Finish(Ok(r)) => {
            assert_eq!(r.ingredients[0].ingredient, Some(reference("ingredient", "flour")));
            assert_eq!(r.ingredients[1].ingredient, None);
            assert!(r.tags.is_empty());
        },
        other => panic!("expected a recipe, got {:?}", other),
    }
}

#[test]
fn negative_amount_is_a_schema_error() {
    let raw = r#"{"ingredients": [{"name": "salt", "amount": -1}]}"#;
    assert_eq!(parse_recipe(raw), Err(PipelineError::Schema(raw.to_string())));
    let r = recipe(r#"{"ingredients": [{"name": "salt", "amount": 0.5}]}"#);
    assert_eq!(r.ingredients[0].amount.as_ref().map(|n| n.text.as_str()), Some("0.5"));
    assert_eq!(r.ingredients[0].amount.as_ref().and_then(|n| n.whole), None);
}

#[test]
fn unit_string_in_an_ingredient_marks_the_labelled_shape() {
    let r = recipe(r#"{"ingredients": [{"name": "flour", "unit_string": "cups"}]}"#);
    assert_eq!(r.ingredients[0].unit_label.as_deref(), Some("cups"));
}

#[test]
fn shapes_agree_without_cuisine_or_ingredients() {
    let labelled = recipe(r#"{"name": "Tea", "cuisine_string": null, "tag_strings": ["hot"]}"#);
    let plural = recipe(r#"{"name": "Tea", "cuisines": [], "tags": ["hot"]}"#);
    assert_eq!(labelled, plural);
    assert_eq!(labelled.cuisine_label, None);
}

#[test]
fn document_decides_the_parse_outcome() {
    assert_eq!(recipe_from_document("x", None), Err(PipelineError::Schema("x".to_string())));
    let doc = parse_json(r#"{"steps": 3}"#);
    assert_eq!(recipe_from_document("raw", doc), Err(PipelineError::Schema("raw".to_string())));
    let doc = parse_json(r#"{"steps": ["Stir"]}"#);
    assert_eq!(recipe_from_document("raw", doc).unwrap().steps, vec!["Stir".to_string()]);
}

#[test]
fn request_asks_for_a_json_reply() {
    assert!(build_prompt("text", "m").json_reply);
}
