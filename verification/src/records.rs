//! How query results become the values that the interface shows, and what an
//! edit in a list of the interface changes.

use vstd::prelude::*;
use crate::queries::delete_subcategory_query;

verus! {

/// The views of a list of strings.
pub open spec fn views(values: Seq<String>) -> Seq<Seq<char>> {
    values.map_values(|s: String| s@)
}

/// The value that a lookup reads from its rows, one value per row: that of
/// the last row, or the empty string where there is no row.
pub open spec fn last_or_empty(values: Seq<Seq<char>>) -> Seq<char> {
    if values.len() == 0 {
        seq![]
    } else {
        values.last()
    }
}

/// A lookup's value is exactly that of its last row, whatever its length, and
/// empty where there is no row.
pub proof fn lemma_last_or_empty(values: Seq<String>)
    ensures
        values.len() > 0 ==> last_or_empty(views(values)) == values[values.len() - 1]@,
        values.len() == 0 ==> last_or_empty(views(values)) == Seq::<char>::empty(),
{
}

/// Reduces the values of a looked-up column to one: that of the last row,
/// or the empty string where no row came back.
pub fn last_value(values: &Vec<String>) -> (value: String)
    ensures
        value@ == last_or_empty(views(values@)),
        values@.len() > 0 ==> value@ == values@[values@.len() - 1]@,
        values@.len() == 0 ==> value@ == Seq::<char>::empty(),
{
    if values.len() == 0 {
        String::new()
    } else {
        values[values.len() - 1].clone()
    }
}

/// Whether the stored `save_password` flag, read as text, says that the
/// password is saved: it does exactly when it is `1`.
pub fn is_password_saved(flag: &str) -> (saved: bool)
    ensures
        saved == (flag@ == "1"@),
{
    flag.eq("1")
}

/// Which table an edit in a list writes to.
#[derive(Debug, Clone, Copy, PartialEq, Eq, Structural)]
pub enum EditTarget {
    /// The list of categories: the edited row's category is renamed.
    Category,
    /// The list of subcategories: the edited row's subcategory is renamed.
    Subcategory,
    /// Any other list: nothing is written.
    Neither,
}

/// The table that an edit in the list titled `title` writes to.
pub open spec fn edit_target_spec(title: Seq<char>) -> EditTarget {
    if title == "Category"@ {
        EditTarget::Category
    } else if title == "Subcategory"@ {
        EditTarget::Subcategory
    } else {
        EditTarget::Neither
    }
}

/// Decides which table an edit in the list titled `title` writes to.
pub fn edit_target(title: &str) -> (target: EditTarget)
    ensures
        target == edit_target_spec(title@),
        (target == EditTarget::Category) == (title@ == "Category"@),
        (target == EditTarget::Subcategory) == (title@ == "Subcategory"@),
        (target == EditTarget::Neither) == (title@ != "Category"@ && title@ != "Subcategory"@),
{
    proof {
        reveal_strlit("Category");
        reveal_strlit("Subcategory");
        assert("Category"@[0] != "Subcategory"@[0]);
    }
    if title.eq("Category") {
        EditTarget::Category
    } else if title.eq("Subcategory") {
        EditTarget::Subcategory
    } else {
        EditTarget::Neither
    }
}

/// What deleting a subcategory does once its category has been looked up:
/// the statements to run, and the category to show afterwards.
pub struct SubcategoryDeletion {
    /// One deletion of the subcategory for each row the lookup found.
    pub statements: Vec<String>,
    /// The category of the last row found, or the empty string.
    pub category_id: String,
}

/// Plans the deletion of subcategory `id`, given the category ids that the
/// lookup of its category found (at most one, as the lookup is limited to
/// one row): the subcategory is deleted once per row found, and the category
/// shown afterwards is that of the last row, or the empty string.
pub fn plan_subcategory_deletion(id: &str, found: &Vec<String>) -> (plan: SubcategoryDeletion)
    ensures
        plan.statements@.len() == found@.len(),
        forall|i: int|
            0 <= i < plan.statements@.len() ==> #[trigger] plan.statements@[i]@
                == "DELETE FROM subcategories WHERE id = "@ + id@,
        plan.category_id@ == last_or_empty(views(found@)),
        found@.len() > 0 ==> plan.category_id@ == found@[found@.len() - 1]@,
        found@.len() == 0 ==> plan.category_id@ == Seq::<char>::empty(),
{
    let mut statements: Vec<String> = Vec::new();
    for k in 0..found.len()
        invariant
            statements@.len() == k,
            forall|i: int|
                0 <= i < statements@.len() ==> #[trigger] statements@[i]@
                    == "DELETE FROM subcategories WHERE id = "@ + id@,
    {
        statements.push(delete_subcategory_query(id));
    }
    SubcategoryDeletion { statements, category_id: last_value(found) }
}

} // verus!
