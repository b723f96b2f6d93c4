//! The recipe record and its decoding from the model's JSON output, in
//! either of the two shapes that the output has taken.
use vstd::prelude::*;
use crate::json::{field, get_field, own, Json, JsonNumber};

verus! {

/// A row of a reference table: the table's name and the row's key.
#[derive(Debug, PartialEq, Eq)]
pub struct Reference {
    pub table: String,
    pub key: String,
}

impl Reference {
    pub fn copy(&self) -> (r: Reference)
        ensures
            r == *self,
    {
        Reference { table: self.table.clone(), key: self.key.clone() }
    }
}

/// A serving count, as a number or as free text.
#[derive(Debug, PartialEq, Eq)]
pub enum Portions {
    Count(JsonNumber),
    Text(String),
}

#[derive(Debug, PartialEq, Eq)]
pub struct IngredientExtraction {
    pub name: String,
    pub amount: Option<JsonNumber>,
    pub unit_label: Option<String>,
    pub description: Option<String>,
    pub ingredient: Option<Reference>,
    pub unit: Option<Reference>,
}

#[derive(Debug, PartialEq, Eq)]
pub struct RecipeExtraction {
    pub name: Option<String>,
    pub portions: Option<Portions>,
    pub ingredients: Vec<IngredientExtraction>,
    pub steps: Vec<String>,
    pub cuisine_label: Option<String>,
    pub cuisine: Option<Reference>,
    pub cooking_time_minutes: Option<u64>,
    pub tag_labels: Vec<String>,
    pub tags: Vec<Reference>,
    pub meal_labels: Vec<String>,
    pub meals: Vec<Reference>,
    pub image_url: Option<String>,
}

/// A `RecipeExtraction` with its sequences as mathematical sequences.
pub struct RecipeView {
    pub name: Option<String>,
    pub portions: Option<Portions>,
    pub ingredients: Seq<IngredientExtraction>,
    pub steps: Seq<String>,
    pub cuisine_label: Option<String>,
    pub cuisine: Option<Reference>,
    pub cooking_time_minutes: Option<u64>,
    pub tag_labels: Seq<String>,
    pub tags: Seq<Reference>,
    pub meal_labels: Seq<String>,
    pub meals: Seq<Reference>,
    pub image_url: Option<String>,
}

impl View for RecipeExtraction {
    type V = RecipeView;

    open spec fn view(&self) -> RecipeView {
        RecipeView {
            name: self.name,
            portions: self.portions,
            ingredients: self.ingredients@,
            steps: self.steps@,
            cuisine_label: self.cuisine_label,
            cuisine: self.cuisine,
            cooking_time_minutes: self.cooking_time_minutes,
            tag_labels: self.tag_labels@,
            tags: self.tags@,
            meal_labels: self.meal_labels@,
            meals: self.meals@,
            image_url: self.image_url,
        }
    }
}

/// The two shapes of the model's output. `Labelled` names its labels
/// `cuisine_string`, `tag_strings`, `meal_strings` and `unit_string`;
/// `Plural` names them `cuisines` (a list), `tags`, `meals` and `unit`.
#[derive(Debug, Clone, Copy, PartialEq, Eq, Structural)]
pub enum Generation {
    Labelled,
    Plural,
}

/// An optional text field: absent or null is `Some(None)`; a field of
/// another kind is `None`, a schema error.
pub open spec fn opt_text(f: Option<Json>) -> Option<Option<String>> {
    match f {
        None => Some(None),
        Some(Json::Null) => Some(None),
        Some(Json::Str(s)) => Some(Some(s)),
        _ => None,
    }
}

/// A number written with a leading minus sign.
pub open spec fn negative(n: JsonNumber) -> bool {
    n.text@.len() > 0 && n.text@[0] == '-'
}

/// An optional amount: a number that is not negative.
pub open spec fn opt_number(f: Option<Json>) -> Option<Option<JsonNumber>> {
    match f {
        None => Some(None),
        Some(Json::Null) => Some(None),
        Some(Json::Number(n)) => if negative(n) {
            None
        } else {
            Some(Some(n))
        },
        _ => None,
    }
}

/// An optional count: a number that is a non-negative integer.
pub open spec fn opt_count(f: Option<Json>) -> Option<Option<u64>> {
    match f {
        None => Some(None),
        Some(Json::Null) => Some(None),
        Some(Json::Number(n)) => match n.whole {
            Some(k) => Some(Some(k)),
            None => None,
        },
        _ => None,
    }
}

pub open spec fn opt_portions(f: Option<Json>) -> Option<Option<Portions>> {
    match f {
        None => Some(None),
        Some(Json::Null) => Some(None),
        Some(Json::Number(n)) => Some(Some(Portions::Count(n))),
        Some(Json::Str(s)) => Some(Some(Portions::Text(s))),
        _ => None,
    }
}

pub open spec fn all_text(items: Seq<Json>) -> bool {
    forall|i: int| 0 <= i < items.len() ==> (#[trigger] items[i]) is Str
}

pub open spec fn texts(items: Seq<Json>) -> Seq<String> {
    items.map_values(|j: Json| j->Str_0)
}

/// A list of texts: absent or null is the empty list.
pub open spec fn text_list(f: Option<Json>) -> Option<Seq<String>> {
    match f {
        None => Some(Seq::empty()),
        Some(Json::Null) => Some(Seq::empty()),
        Some(Json::Array(items)) => if all_text(items@) {
            Some(texts(items@))
        } else {
            None
        },
        _ => None,
    }
}

/// The first of a list of texts, where there is one.
pub open spec fn first_text(f: Option<Json>) -> Option<Option<String>> {
    match text_list(f) {
        Some(l) => if l.len() == 0 {
            Some(None)
        } else {
            Some(Some(l[0]))
        },
        None => None,
    }
}

pub open spec fn unit_key(g: Generation) -> Seq<char> {
    match g {
        Generation::Labelled => "unit_string"@,
        Generation::Plural => "unit"@,
    }
}

pub open spec fn decode_ingredient(j: Json, g: Generation) -> Option<IngredientExtraction> {
    match j {
        Json::Object(entries) => {
            let e = entries@;
            let amount = opt_number(field(e, "amount"@));
            let unit = opt_text(field(e, unit_key(g)));
            let description = opt_text(field(e, "description"@));
            match field(e, "name"@) {
                Some(Json::Str(name)) => if amount is Some && unit is Some && description is Some {
                    Some(
                        IngredientExtraction {
                            name,
                            amount: amount->Some_0,
                            unit_label: unit->Some_0,
                            description: description->Some_0,
                            ingredient: None,
                            unit: None,
                        },
                    )
                } else {
                    None
                },
                _ => None,
            }
        },
        _ => None,
    }
}

pub open spec fn all_ingredients(items: Seq<Json>, g: Generation) -> bool {
    forall|i: int| 0 <= i < items.len() ==> (#[trigger] decode_ingredient(items[i], g)) is Some
}

/// A list of ingredients: absent or null is the empty list; the order is kept.
pub open spec fn ingredient_list(f: Option<Json>, g: Generation) -> Option<Seq<IngredientExtraction>> {
    match f {
        None => Some(Seq::empty()),
        Some(Json::Null) => Some(Seq::empty()),
        Some(Json::Array(items)) => if all_ingredients(items@, g) {
            Some(items@.map_values(|x: Json| decode_ingredient(x, g)->Some_0))
        } else {
            None
        },
        _ => None,
    }
}

pub open spec fn names_unit_string(j: Json) -> bool {
    j matches Json::Object(e) && field(e@, "unit_string"@) is Some
}

pub open spec fn unit_string_among(items: Seq<Json>) -> bool {
    exists|i: int| 0 <= i < items.len() && #[trigger] names_unit_string(items[i])
}

/// Some ingredient object in the list has a `unit_string` field.
pub open spec fn any_unit_string(f: Option<Json>) -> bool {
    match f {
        Some(Json::Array(items)) => unit_string_among(items@),
        _ => false,
    }
}

/// `Labelled` where the object has any of its label fields, or an
/// ingredient has `unit_string`; else `Plural`.
pub open spec fn generation_of(e: Seq<(String, Json)>) -> Generation {
    if field(e, "cuisine_string"@) is Some || field(e, "tag_strings"@) is Some
        || field(e, "meal_strings"@) is Some || any_unit_string(field(e, "ingredients"@)) {
        Generation::Labelled
    } else {
        Generation::Plural
    }
}

pub open spec fn cuisine_of(e: Seq<(String, Json)>, g: Generation) -> Option<Option<String>> {
    match g {
        Generation::Labelled => opt_text(field(e, "cuisine_string"@)),
        Generation::Plural => first_text(field(e, "cuisines"@)),
    }
}

pub open spec fn tags_key(g: Generation) -> Seq<char> {
    match g {
        Generation::Labelled => "tag_strings"@,
        Generation::Plural => "tags"@,
    }
}

pub open spec fn meals_key(g: Generation) -> Seq<char> {
    match g {
        Generation::Labelled => "meal_strings"@,
        Generation::Plural => "meals"@,
    }
}

/// The recipe that a JSON document holds, with no reference resolved; `None`
/// where the document breaks the schema. Unknown keys are ignored.
pub open spec fn decode_recipe(j: Json) -> Option<RecipeView> {
    match j {
        Json::Object(entries) => {
            let e = entries@;
            let g = generation_of(e);
            let name = opt_text(field(e, "name"@));
            let portions = opt_portions(field(e, "portions"@));
            let ingredients = ingredient_list(field(e, "ingredients"@), g);
            let steps = text_list(field(e, "steps"@));
            let cuisine = cuisine_of(e, g);
            let minutes = opt_count(field(e, "cooking_time_minutes"@));
            let tags = text_list(field(e, tags_key(g)));
            let meals = text_list(field(e, meals_key(g)));
            let image = opt_text(field(e, "image_url"@));
            if name is Some && portions is Some && ingredients is Some && steps is Some
                && cuisine is Some && minutes is Some && tags is Some && meals is Some
                && image is Some {
                Some(
                    RecipeView {
                        name: name->Some_0,
                        portions: portions->Some_0,
                        ingredients: ingredients->Some_0,
                        steps: steps->Some_0,
                        cuisine_label: cuisine->Some_0,
                        cuisine: None,
                        cooking_time_minutes: minutes->Some_0,
                        tag_labels: tags->Some_0,
                        tags: Seq::empty(),
                        meal_labels: meals->Some_0,
                        meals: Seq::empty(),
                        image_url: image->Some_0,
                    },
                )
            } else {
                None
            }
        },
        _ => None,
    }
}

pub open spec fn seq_of<T>(r: Option<Vec<T>>) -> Option<Seq<T>> {
    match r {
        Some(v) => Some(v@),
        None => None,
    }
}

pub open spec fn view_of(r: Option<RecipeExtraction>) -> Option<RecipeView> {
    match r {
        Some(x) => Some(x@),
        None => None,
    }
}

fn read_text(f: Option<&Json>) -> (r: Option<Option<String>>)
    ensures
        r == opt_text(own(f)),
{
    match f {
        None => Some(None),
        Some(Json::Null) => Some(None),
        Some(Json::Str(s)) => Some(Some(s.clone())),
        _ => None,
    }
}

fn is_negative(n: &JsonNumber) -> (r: bool)
    ensures
        r == negative(*n),
{
    broadcast use vstd::string::axiom_spec_iter, vstd::string::next_postcondition;

    let mut chars = n.text.as_str().chars();
    match chars.next() {
        Some(c) => c == '-',
        None => false,
    }
}

fn read_number(f: Option<&Json>) -> (r: Option<Option<JsonNumber>>)
    ensures
        r == opt_number(own(f)),
{
    match f {
        None => Some(None),
        Some(Json::Null) => Some(None),
        Some(Json::Number(n)) => if is_negative(n) {
            None
        } else {
            Some(Some(n.copy()))
        },
        _ => None,
    }
}

fn read_count(f: Option<&Json>) -> (r: Option<Option<u64>>)
    ensures
        r == opt_count(own(f)),
{
    match f {
        None => Some(None),
        Some(Json::Null) => Some(None),
        Some(Json::Number(n)) => match n.whole {
            Some(k) => Some(Some(k)),
            None => None,
        },
        _ => None,
    }
}

fn read_portions(f: Option<&Json>) -> (r: Option<Option<Portions>>)
    ensures
        r == opt_portions(own(f)),
{
    match f {
        None => Some(None),
        Some(Json::Null) => Some(None),
        Some(Json::Number(n)) => Some(Some(Portions::Count(n.copy()))),
        Some(Json::Str(s)) => Some(Some(Portions::Text(s.clone()))),
        _ => None,
    }
}

fn read_text_list(f: Option<&Json>) -> (r: Option<Vec<String>>)
    ensures
        seq_of(r) == text_list(own(f)),
{
    match f {
        None => Some(Vec::new()),
        Some(Json::Null) => Some(Vec::new()),
        Some(Json::Array(items)) => {
            let mut out: Vec<String> = Vec::new();
            let mut i: usize = 0;
            while i < items.len()
                invariant
                    own(f) == Some(Json::Array(*items)),
                    i <= items@.len(),
                    out@.len() == i,
                    forall|k: int| 0 <= k < i ==> (#[trigger] items@[k]) is Str && out@[k]
                        == items@[k]->Str_0,
                decreases items@.len() - i,
            {
                match &items[i] {
                    Json::Str(s) => out.push(s.clone()),
                    _ => {
                        assert(!(items@[i as int] is Str));
                        assert(!all_text(items@));
                        return None;
                    },
                }
                i = i + 1;
            }
            assert(all_text(items@));
            assert(out@ =~= texts(items@));
            Some(out)
        },
        _ => None,
    }
}

fn read_first_text(f: Option<&Json>) -> (r: Option<Option<String>>)
    ensures
        r == first_text(own(f)),
{
    match read_text_list(f) {
        Some(l) => if l.len() == 0 {
            Some(None)
        } else {
            Some(Some(l[0].clone()))
        },
        None => None,
    }
}

fn unit_key_of(g: Generation) -> (r: &'static str)
    ensures
        r@ == unit_key(g),
{
    match g {
        Generation::Labelled => "unit_string",
        Generation::Plural => "unit",
    }
}

fn tags_key_of(g: Generation) -> (r: &'static str)
    ensures
        r@ == tags_key(g),
{
    match g {
        Generation::Labelled => "tag_strings",
        Generation::Plural => "tags",
    }
}

fn meals_key_of(g: Generation) -> (r: &'static str)
    ensures
        r@ == meals_key(g),
{
    match g {
        Generation::Labelled => "meal_strings",
        Generation::Plural => "meals",
    }
}

/// Decodes one ingredient object of the given shape.
pub fn read_ingredient(j: &Json, g: Generation) -> (r: Option<IngredientExtraction>)
    ensures
        r == decode_ingredient(*j, g),
{
    match j {
        Json::Object(entries) => {
            let amount = read_number(get_field(entries, "amount"));
            let unit = read_text(get_field(entries, unit_key_of(g)));
            let description = read_text(get_field(entries, "description"));
            match get_field(entries, "name") {
                Some(Json::Str(name)) => match (amount, unit, description) {
                    (Some(amount), Some(unit_label), Some(description)) => Some(
                        IngredientExtraction {
                            name: name.clone(),
                            amount,
                            unit_label,
                            description,
                            ingredient: None,
                            unit: None,
                        },
                    ),
                    _ => None,
                },
                _ => None,
            }
        },
        _ => None,
    }
}

fn read_ingredient_list(f: Option<&Json>, g: Generation) -> (r: Option<Vec<IngredientExtraction>>)
    ensures
        seq_of(r) == ingredient_list(own(f), g),
{
    match f {
        None => Some(Vec::new()),
        Some(Json::Null) => Some(Vec::new()),
        Some(Json::Array(items)) => {
            let mut out: Vec<IngredientExtraction> = Vec::new();
            let mut i: usize = 0;
            while i < items.len()
                invariant
                    own(f) == Some(Json::Array(*items)),
                    i <= items@.len(),
                    out@.len() == i,
                    forall|k: int|
                        0 <= k < i ==> (#[trigger] decode_ingredient(items@[k], g)) == Some(
                            out@[k],
                        ),
                decreases items@.len() - i,
            {
                match read_ingredient(&items[i], g) {
                    Some(x) => out.push(x),
                    None => {
                        assert(decode_ingredient(items@[i as int], g) is None);
                        assert(!all_ingredients(items@, g));
                        return None;
                    },
                }
                i = i + 1;
            }
            assert(all_ingredients(items@, g));
            assert(out@ =~= items@.map_values(|x: Json| decode_ingredient(x, g)->Some_0));
            Some(out)
        },
        _ => None,
    }
}

/// Tells the two shapes apart by the presence of a label field.
pub fn generation_of_entries(entries: &Vec<(String, Json)>) -> (g: Generation)
    ensures
        g == generation_of(entries@),
{
    if get_field(entries, "cuisine_string").is_some() || get_field(entries, "tag_strings").is_some()
        || get_field(entries, "meal_strings").is_some() || has_unit_string(
        get_field(entries, "ingredients"),
    ) {
        Generation::Labelled
    } else {
        Generation::Plural
    }
}

fn has_unit_string(f: Option<&Json>) -> (r: bool)
    ensures
        r == any_unit_string(own(f)),
{
    if let Some(Json::Array(items)) = f {
        let mut i: usize = 0;
        while i < items.len()
            invariant
                own(f) == Some(Json::Array(*items)),
                i <= items@.len(),
                forall|k: int| 0 <= k < i ==> !names_unit_string(#[trigger] items@[k]),
            decreases items@.len() - i,
        {
            if let Json::Object(e) = &items[i] {
                if get_field(e, "unit_string").is_some() {
                    assert(names_unit_string(items@[i as int]));
                    assert(unit_string_among(items@));
                    return true;
                }
            }
            i = i + 1;
        }
        assert(!unit_string_among(items@));
        false
    } else {
        false
    }
}

/// Decodes a recipe from a JSON document of either shape. No reference is
/// resolved here: those fields are left empty.
pub fn read_recipe(j: &Json) -> (r: Option<RecipeExtraction>)
    ensures
        view_of(r) == decode_recipe(*j),
{
    match j {
        Json::Object(entries) => {
            let g = generation_of_entries(entries);
            let name = read_text(get_field(entries, "name"));
            let portions = read_portions(get_field(entries, "portions"));
            let ingredients = read_ingredient_list(get_field(entries, "ingredients"), g);
            let steps = read_text_list(get_field(entries, "steps"));
            let cuisine = match g {
                Generation::Labelled => read_text(get_field(entries, "cuisine_string")),
                Generation::Plural => read_first_text(get_field(entries, "cuisines")),
            };
            let minutes = read_count(get_field(entries, "cooking_time_minutes"));
            let tags = read_text_list(get_field(entries, tags_key_of(g)));
            let meals = read_text_list(get_field(entries, meals_key_of(g)));
            let image = read_text(get_field(entries, "image_url"));
            match (name, portions, ingredients, steps, cuisine, minutes, tags, meals, image) {
                (
                    Some(name),
                    Some(portions),
                    Some(ingredients),
                    Some(steps),
                    Some(cuisine_label),
                    Some(cooking_time_minutes),
                    Some(tag_labels),
                    Some(meal_labels),
                    Some(image_url),
                ) => {
                    let r = RecipeExtraction {
                        name,
                        portions,
                        ingredients,
                        steps,
                        cuisine_label,
                        cuisine: None,
                        cooking_time_minutes,
                        tag_labels,
                        tags: Vec::new(),
                        meal_labels,
                        meals: Vec::new(),
                        image_url,
                    };
                    assert(r@.tags =~= Seq::<Reference>::empty());
                    assert(r@.meals =~= Seq::<Reference>::empty());
                    Some(r)
                },
                _ => None,
            }
        },
        _ => None,
    }
}

/// A document that has none of the recipe's fields decodes, with every list
/// empty and every single value absent.
pub proof fn missing_fields_take_defaults(entries: Vec<(String, Json)>)
    requires
        field(entries@, "name"@) is None,
        field(entries@, "portions"@) is None,
        field(entries@, "ingredients"@) is None,
        field(entries@, "steps"@) is None,
        field(entries@, "cuisine_string"@) is None,
        field(entries@, "cuisines"@) is None,
        field(entries@, "cooking_time_minutes"@) is None,
        field(entries@, "tag_strings"@) is None,
        field(entries@, "tags"@) is None,
        field(entries@, "meal_strings"@) is None,
        field(entries@, "meals"@) is None,
        field(entries@, "image_url"@) is None,
    ensures
        decode_recipe(Json::Object(entries)) == Some(
            RecipeView {
                name: None,
                portions: None,
                ingredients: Seq::empty(),
                steps: Seq::empty(),
                cuisine_label: None,
                cuisine: None,
                cooking_time_minutes: None,
                tag_labels: Seq::empty(),
                tags: Seq::empty(),
                meal_labels: Seq::empty(),
                meals: Seq::empty(),
                image_url: None,
            },
        ),
{
    assert(generation_of(entries@) == Generation::Plural);
}

/// Ingredients and steps come out in the order in which the document lists
/// them, one for one.
pub proof fn decoding_keeps_order(entries: Vec<(String, Json)>, items: Vec<Json>, steps: Vec<Json>)
    requires
        field(entries@, "ingredients"@) == Some(Json::Array(items)),
        field(entries@, "steps"@) == Some(Json::Array(steps)),
        decode_recipe(Json::Object(entries)) is Some,
    ensures
        ({
            let r = decode_recipe(Json::Object(entries))->Some_0;
            &&& r.ingredients.len() == items@.len()
            &&& forall|i: int|
                0 <= i < items@.len() ==> Some(#[trigger] r.ingredients[i]) == decode_ingredient(
                    items@[i],
                    generation_of(entries@),
                )
            &&& r.steps.len() == steps@.len()
            &&& forall|i: int| 0 <= i < steps@.len() ==> steps@[i] == Json::Str(#[trigger] r.steps[i])
        }),
{
    let r = decode_recipe(Json::Object(entries))->Some_0;
    let g = generation_of(entries@);
    assert forall|i: int| 0 <= i < items@.len() implies Some(#[trigger] r.ingredients[i])
        == decode_ingredient(items@[i], g) by {
        assert(decode_ingredient(items@[i], g) is Some);
    }
    assert forall|i: int| 0 <= i < steps@.len() implies steps@[i] == Json::Str(
        #[trigger] r.steps[i],
    ) by {
        assert(steps@[i] is Str);
    }
}

/// Two ingredient objects that carry the same content, the first in the
/// labelled shape and the second in the plural shape.
pub open spec fn same_ingredient(x: Json, y: Json) -> bool {
    match (x, y) {
        (Json::Object(ex), Json::Object(ey)) => {
            &&& field(ex@, "name"@) == field(ey@, "name"@)
            &&& field(ex@, "amount"@) == field(ey@, "amount"@)
            &&& field(ex@, "description"@) == field(ey@, "description"@)
            &&& field(ex@, "unit_string"@) == field(ey@, "unit"@)
        },
        _ => false,
    }
}

/// The cuisine fields of the two shapes carry the same label, or none.
pub open spec fn same_cuisine(labelled: Option<Json>, plural: Option<Json>) -> bool {
    match (labelled, plural) {
        (Some(Json::Str(c)), Some(Json::Array(v))) => v@ == seq![Json::Str(c)],
        (None, None) | (None, Some(Json::Null)) | (Some(Json::Null), None) | (
            Some(Json::Null),
            Some(Json::Null),
        ) => true,
        (None, Some(Json::Array(v))) | (Some(Json::Null), Some(Json::Array(v))) => v@.len() == 0,
        _ => false,
    }
}

/// The ingredient lists of the two shapes carry the same ingredients, in
/// the same order, or are both missing.
pub open spec fn same_ingredients(labelled: Option<Json>, plural: Option<Json>) -> bool {
    match (labelled, plural) {
        (Some(Json::Array(x)), Some(Json::Array(y))) => x@.len() == y@.len() && forall|i: int|
            0 <= i < x@.len() ==> same_ingredient(#[trigger] x@[i], y@[i]),
        (None, None) | (None, Some(Json::Null)) | (Some(Json::Null), None) | (
            Some(Json::Null),
            Some(Json::Null),
        ) => true,
        _ => false,
    }
}

/// A document in the labelled shape and one in the plural shape that carry
/// the same content decode to the same recipe.
pub proof fn generations_agree(a: Vec<(String, Json)>, b: Vec<(String, Json)>)
    requires
        generation_of(a@) == Generation::Labelled,
        generation_of(b@) == Generation::Plural,
        field(a@, "name"@) == field(b@, "name"@),
        field(a@, "portions"@) == field(b@, "portions"@),
        field(a@, "steps"@) == field(b@, "steps"@),
        field(a@, "cooking_time_minutes"@) == field(b@, "cooking_time_minutes"@),
        field(a@, "image_url"@) == field(b@, "image_url"@),
        field(a@, "tag_strings"@) == field(b@, "tags"@),
        field(a@, "meal_strings"@) == field(b@, "meals"@),
        same_cuisine(field(a@, "cuisine_string"@), field(b@, "cuisines"@)),
        same_ingredients(field(a@, "ingredients"@), field(b@, "ingredients"@)),
    ensures
        decode_recipe(Json::Object(a)) == decode_recipe(Json::Object(b)),
{
    let fa = field(a@, "cuisine_string"@);
    let fb = field(b@, "cuisines"@);
    if let Some(Json::Array(v)) = fb {
        if let Some(Json::Str(c)) = fa {
            assert(all_text(v@));
            assert(texts(v@) =~= seq![c]);
        } else {
            assert(all_text(v@));
            assert(texts(v@).len() == 0);
        }
    }
    assert(opt_text(fa) == first_text(fb));
    let ia = field(a@, "ingredients"@);
    let ib = field(b@, "ingredients"@);
    if let (Some(Json::Array(x)), Some(Json::Array(y))) = (ia, ib) {
        assert forall|i: int| 0 <= i < x@.len() implies decode_ingredient(
            x@[i],
            Generation::Labelled,
        ) == decode_ingredient(y@[i], Generation::Plural) by {
            assert(same_ingredient(x@[i], y@[i]));
        }
        assert(all_ingredients(x@, Generation::Labelled) == all_ingredients(
            y@,
            Generation::Plural,
        ));
        assert(x@.map_values(|j: Json| decode_ingredient(j, Generation::Labelled)->Some_0)
            =~= y@.map_values(|j: Json| decode_ingredient(j, Generation::Plural)->Some_0));
    }
    assert(ingredient_list(ia, Generation::Labelled) == ingredient_list(ib, Generation::Plural));
}

} // verus!
