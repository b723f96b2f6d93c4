//! Linking freeform labels to rows of the reference tables. The lookups
//! themselves are made by the caller; this module says which lookups are
//! needed and folds their answers into the recipe.
use vstd::prelude::*;
use crate::recipe::{IngredientExtraction, RecipeExtraction, RecipeView, Reference};

verus! {

/// The reference tables that labels are resolved against.
#[derive(Debug, Clone, Copy, PartialEq, Eq, Structural)]
pub enum Table {
    Ingredient,
    Unit,
    Cuisine,
    RecipeTag,
    Meal,
}

pub open spec fn table_name(t: Table) -> Seq<char> {
    match t {
        Table::Ingredient => "ingredient"@,
        Table::Unit => "unit"@,
        Table::Cuisine => "cuisine"@,
        Table::RecipeTag => "recipe_tag"@,
        Table::Meal => "meal"@,
    }
}

impl Table {
    /// The table's name in the database.
    pub fn name(&self) -> (r: &'static str)
        ensures
            r@ == table_name(*self),
    {
        match self {
            Table::Ingredient => "ingredient",
            Table::Unit => "unit",
            Table::Cuisine => "cuisine",
            Table::RecipeTag => "recipe_tag",
            Table::Meal => "meal",
        }
    }
}

/// A fuzzy lookup of `label` in `table`, answered by at most one row.
#[derive(Debug, PartialEq, Eq)]
pub struct Lookup {
    pub table: Table,
    pub label: String,
}

pub open spec fn lookup_for(t: Table, label: Option<String>) -> Option<Lookup> {
    match label {
        Some(l) => Some(Lookup { table: t, label: l }),
        None => None,
    }
}

/// Number of slots in a recipe's plan: a name and a unit slot per
/// ingredient, a cuisine slot, then one slot per tag and per meal label.
pub open spec fn plan_len(r: RecipeView) -> nat {
    2 * r.ingredients.len() + 1 + r.tag_labels.len() + r.meal_labels.len()
}

/// The lookups that resolve a recipe, slot by slot; a slot without a label
/// holds no lookup.
pub open spec fn plan_of(r: RecipeView) -> Seq<Option<Lookup>> {
    let n = r.ingredients.len() as int;
    let t = r.tag_labels.len() as int;
    Seq::new(
        plan_len(r),
        |k: int|
            if k < n {
                lookup_for(Table::Ingredient, Some(r.ingredients[k].name))
            } else if k < 2 * n {
                lookup_for(Table::Unit, r.ingredients[k - n].unit_label)
            } else if k == 2 * n {
                lookup_for(Table::Cuisine, r.cuisine_label)
            } else if k < 2 * n + 1 + t {
                lookup_for(Table::RecipeTag, Some(r.tag_labels[k - 2 * n - 1]))
            } else {
                lookup_for(Table::Meal, Some(r.meal_labels[k - 2 * n - 1 - t]))
            },
    )
}

/// The rows found, in order, with the slots that found nothing left out.
pub open spec fn kept(found: Seq<Option<Reference>>) -> Seq<Reference>
    decreases found.len(),
{
    if found.len() == 0 {
        Seq::empty()
    } else {
        let rest = kept(found.drop_last());
        match found.last() {
            Some(x) => rest.push(x),
            None => rest,
        }
    }
}

pub open spec fn with_refs(
    x: IngredientExtraction,
    ingredient: Option<Reference>,
    unit: Option<Reference>,
) -> IngredientExtraction {
    IngredientExtraction {
        name: x.name,
        amount: x.amount,
        unit_label: x.unit_label,
        description: x.description,
        ingredient,
        unit,
    }
}

/// The recipe with the answers to its plan filled in. A slot that had no
/// lookup leaves its reference empty, whatever answer stands there.
pub open spec fn resolved(r: RecipeView, found: Seq<Option<Reference>>) -> RecipeView {
    let n = r.ingredients.len() as int;
    let t = r.tag_labels.len() as int;
    let m = r.meal_labels.len() as int;
    RecipeView {
        name: r.name,
        portions: r.portions,
        ingredients: Seq::new(
            r.ingredients.len(),
            |i: int|
                with_refs(
                    r.ingredients[i],
                    found[i],
                    if r.ingredients[i].unit_label is Some {
                        found[n + i]
                    } else {
                        None
                    },
                ),
        ),
        steps: r.steps,
        cuisine_label: r.cuisine_label,
        cuisine: if r.cuisine_label is Some {
            found[2 * n]
        } else {
            None
        },
        cooking_time_minutes: r.cooking_time_minutes,
        tag_labels: r.tag_labels,
        tags: kept(found.subrange(2 * n + 1, 2 * n + 1 + t)),
        meal_labels: r.meal_labels,
        meals: kept(found.subrange(2 * n + 1 + t, 2 * n + 1 + t + m)),
        image_url: r.image_url,
    }
}

fn lookup_of(t: Table, label: &Option<String>) -> (r: Option<Lookup>)
    ensures
        r == lookup_for(t, *label),
{
    match label {
        Some(l) => Some(Lookup { table: t, label: l.clone() }),
        None => None,
    }
}

pub(crate) fn copy_found(x: &Option<Reference>) -> (r: Option<Reference>)
    ensures
        r == *x,
{
    match x {
        Some(v) => Some(v.copy()),
        None => None,
    }
}

/// Lists the lookups that resolve `r`, laid out as `plan_of` says.
pub fn lookup_plan(r: &RecipeExtraction) -> (p: Vec<Option<Lookup>>)
    ensures
        p@ == plan_of(r@),
{
    let ghost want = plan_of(r@);
    let n = r.ingredients.len();
    let mut p: Vec<Option<Lookup>> = Vec::new();
    let mut i: usize = 0;
    while i < n
        invariant
            n == r.ingredients@.len(),
            want == plan_of(r@),
            i <= n,
            p@.len() == i,
            forall|k: int| 0 <= k < p@.len() ==> p@[k] == want[k],
        decreases n - i,
    {
        p.push(Some(Lookup { table: Table::Ingredient, label: r.ingredients[i].name.clone() }));
        i = i + 1;
    }
    let mut i: usize = 0;
    while i < n
        invariant
            n == r.ingredients@.len(),
            want == plan_of(r@),
            i <= n,
            p@.len() == n + i,
            forall|k: int| 0 <= k < p@.len() ==> p@[k] == want[k],
        decreases n - i,
    {
        p.push(lookup_of(Table::Unit, &r.ingredients[i].unit_label));
        i = i + 1;
    }
    p.push(lookup_of(Table::Cuisine, &r.cuisine_label));
    let t = r.tag_labels.len();
    let mut i: usize = 0;
    while i < t
        invariant
            n == r.ingredients@.len(),
            t == r.tag_labels@.len(),
            want == plan_of(r@),
            i <= t,
            p@.len() == 2 * n + 1 + i,
            forall|k: int| 0 <= k < p@.len() ==> p@[k] == want[k],
        decreases t - i,
    {
        p.push(Some(Lookup { table: Table::RecipeTag, label: r.tag_labels[i].clone() }));
        i = i + 1;
    }
    let m = r.meal_labels.len();
    let mut i: usize = 0;
    while i < m
        invariant
            n == r.ingredients@.len(),
            t == r.tag_labels@.len(),
            m == r.meal_labels@.len(),
            want == plan_of(r@),
            i <= m,
            p@.len() == 2 * n + 1 + t + i,
            forall|k: int| 0 <= k < p@.len() ==> p@[k] == want[k],
        decreases m - i,
    {
        p.push(Some(Lookup { table: Table::Meal, label: r.meal_labels[i].clone() }));
        i = i + 1;
    }
    assert(p@ =~= want);
    p
}

/// The rows found in the slots `lo..hi`, in order, without the empty ones.
pub fn keep_found(found: &Vec<Option<Reference>>, lo: usize, hi: usize) -> (r: Vec<Reference>)
    requires
        lo <= hi <= found@.len(),
    ensures
        r@ == kept(found@.subrange(lo as int, hi as int)),
{
    let mut out: Vec<Reference> = Vec::new();
    let mut i: usize = lo;
    assert(found@.subrange(lo as int, lo as int) =~= Seq::<Option<Reference>>::empty());
    while i < hi
        invariant
            lo <= i <= hi,
            hi <= found@.len(),
            out@ == kept(found@.subrange(lo as int, i as int)),
        decreases hi - i,
    {
        assert(found@.subrange(lo as int, i + 1).drop_last() =~= found@.subrange(
            lo as int,
            i as int,
        ));
        match &found[i] {
            Some(x) => out.push(x.copy()),
            None => {},
        }
        i = i + 1;
    }
    out
}

/// Fills the answers to `lookup_plan(r)` into `r`; `found[k]` answers slot `k`.
pub fn apply_found(r: RecipeExtraction, found: &Vec<Option<Reference>>) -> (q: RecipeExtraction)
    requires
        found@.len() == plan_len(r@),
    ensures
        q@ == resolved(r@, found@),
{
    let ghost orig = r@;
    let total = found.len();
    let RecipeExtraction {
        name,
        portions,
        ingredients,
        steps,
        cuisine_label,
        cuisine: _,
        cooking_time_minutes,
        tag_labels,
        tags: _,
        meal_labels,
        meals: _,
        image_url,
    } = r;
    let n = ingredients.len();
    let mut rest = ingredients;
    let mut out: Vec<IngredientExtraction> = Vec::new();
    let mut i: usize = 0;
    while i < n
        invariant
            n == orig.ingredients.len(),
            found@.len() == plan_len(orig),
            total == found@.len(),
            name == orig.name,
            portions == orig.portions,
            steps@ == orig.steps,
            cuisine_label == orig.cuisine_label,
            cooking_time_minutes == orig.cooking_time_minutes,
            tag_labels@ == orig.tag_labels,
            meal_labels@ == orig.meal_labels,
            image_url == orig.image_url,
            i <= n,
            rest@ == orig.ingredients.subrange(i as int, n as int),
            out@.len() == i,
            forall|j: int|
                0 <= j < i ==> out@[j] == with_refs(
                    orig.ingredients[j],
                    found@[j],
                    if orig.ingredients[j].unit_label is Some {
                        found@[n + j]
                    } else {
                        None
                    },
                ),
        decreases n - i,
    {
        let x = rest.remove(0);
        assert(x == orig.ingredients[i as int]);
        let unit = if x.unit_label.is_some() {
            copy_found(&found[n + i])
        } else {
            None
        };
        let IngredientExtraction { name, amount, unit_label, description, ingredient: _, unit: _ } =
            x;
        out.push(
            IngredientExtraction {
                name,
                amount,
                unit_label,
                description,
                ingredient: copy_found(&found[i]),
                unit,
            },
        );
        i = i + 1;
        assert(rest@ =~= orig.ingredients.subrange(i as int, n as int));
    }
    let cuisine = if cuisine_label.is_some() {
        copy_found(&found[2 * n])
    } else {
        None
    };
    let t = tag_labels.len();
    let m = meal_labels.len();
    let tags = keep_found(found, 2 * n + 1, 2 * n + 1 + t);
    let meals = keep_found(found, 2 * n + 1 + t, 2 * n + 1 + t + m);
    let q = RecipeExtraction {
        name,
        portions,
        ingredients: out,
        steps,
        cuisine_label,
        cuisine,
        cooking_time_minutes,
        tag_labels,
        tags,
        meal_labels,
        meals,
        image_url,
    };
    assert(q@.ingredients =~= resolved(orig, found@).ingredients);
    q
}

/// The labels whose lookup found a row.
pub open spec fn resolved_labels(labels: Seq<String>, found: Seq<Option<Reference>>) -> Set<String> {
    Set::new(|l: String| exists|i: int| 0 <= i < labels.len() && found[i] is Some && labels[i] == l)
}

/// Looking labels up in a larger table, where each label that found a row
/// still finds one, resolves every label resolved before, and maybe more.
pub proof fn resolution_is_monotone(
    labels: Seq<String>,
    found: Seq<Option<Reference>>,
    more: Seq<Option<Reference>>,
)
    requires
        found.len() == labels.len(),
        more.len() == labels.len(),
        forall|i: int| 0 <= i < labels.len() && (#[trigger] found[i]) is Some ==> more[i] is Some,
    ensures
        resolved_labels(labels, found).subset_of(resolved_labels(labels, more)),
        kept(found).len() <= kept(more).len(),
    decreases labels.len(),
{
    assert forall|l: String| resolved_labels(labels, found).contains(l) implies resolved_labels(
        labels,
        more,
    ).contains(l) by {
        let i = choose|i: int| 0 <= i < labels.len() && found[i] is Some && labels[i] == l;
        assert(more[i] is Some);
    }
    if labels.len() > 0 {
        let n = labels.len() - 1;
        assert forall|i: int| 0 <= i < n && (#[trigger] found.drop_last()[i]) is Some implies more.drop_last()[i] is Some by {
            assert(found[i] is Some);
        }
        resolution_is_monotone(labels.drop_last(), found.drop_last(), more.drop_last());
    }
}

/// Where no lookup found anything, nothing is kept.
pub proof fn nothing_found_keeps_nothing(found: Seq<Option<Reference>>)
    requires
        forall|i: int| 0 <= i < found.len() ==> (#[trigger] found[i]) is None,
    ensures
        kept(found) == Seq::<Reference>::empty(),
    decreases found.len(),
{
    if found.len() > 0 {
        nothing_found_keeps_nothing(found.drop_last());
    }
}

} // verus!
