//! The SQL that each operation on the two databases runs. Values are put
//! into the statements as they are given.

use vstd::prelude::*;
use crate::text::{clean_name, clean_name_spec, regex_compiles, NAME_FORBIDDEN};

verus! {

/// The schema of the settings database.
pub const SETTINGS_SCHEMA: &'static str = "CREATE TABLE databases (
                id INTEGER PRIMARY KEY AUTOINCREMENT,
                database TEXT DEFAULT '',
                password TEXT DEFAULT '',
                save_password INTEGER DEFAULT 0,
                [default] INTEGER DEFAULT 0
            )";

/// The schema of the categories table of the snippet database.
pub const CATEGORIES_SCHEMA: &'static str = "CREATE TABLE categories (
                id INTEGER PRIMARY KEY AUTOINCREMENT,
                name TEXT DEFAULT '',
                sort INTEGER DEFAULT 0
            )";

/// The schema of the subcategories table of the snippet database.
pub const SUBCATEGORIES_SCHEMA: &'static str = "CREATE TABLE subcategories (
                id INTEGER PRIMARY KEY AUTOINCREMENT,
                name TEXT DEFAULT '',
                category_id INTEGER DEFAULT 0,
                content TEXT DEFAULT '',
                sort INTEGER DEFAULT 0
            )";

/// The query for the password of the default database entry.
pub const GET_PASSWORD_QUERY: &'static str = "SELECT password FROM databases WHERE [default] = 1 ";

/// The query for the name, id, password and default flag of every database
/// entry, by id.
pub const GET_DATABASES_QUERY: &'static str = "SELECT [database],cast([id] AS text),[password],cast([default] as text) FROM [databases] ORDER BY [id]";

/// The query for the names and ids of all categories, in display order.
pub const CATEGORIES_QUERY: &'static str = "SELECT name, cast(id as text) FROM categories ORDER BY sort, name ";

/// The statement that adds an unnamed category.
pub const ADD_CATEGORY_QUERY: &'static str = "INSERT INTO categories(name)VALUES('')";

/// `a` followed by `b`.
fn concat(a: &str, b: &str) -> (joined: String)
    ensures
        joined@ == a@ + b@,
{
    let mut joined = a.to_string();
    joined.append(b);
    joined
}

/// The query for the password of the database entry `id`.
pub fn get_password_by_id_query(id: &str) -> (query: String)
    ensures
        query@ == "SELECT password FROM databases WHERE id = "@ + id@ + " LIMIT 1"@,
{
    let mut query = concat("SELECT password FROM databases WHERE id = ", id);
    query.append(" LIMIT 1");
    query
}

/// The query for whether the password of the database entry `id` is saved.
pub fn get_save_password_by_id_query(id: &str) -> (query: String)
    ensures
        query@ == "SELECT save_password FROM databases WHERE id = "@ + id@ + " LIMIT 1"@,
{
    let mut query = concat("SELECT save_password FROM databases WHERE id = ", id);
    query.append(" LIMIT 1");
    query
}

/// The query for the names and ids of the subcategories of category `category_id`, in display order.
pub fn subcategories_query(category_id: &str) -> (query: String)
    ensures
        query@ == "SELECT name, cast(id as text) FROM subcategories WHERE category_id = "@ + category_id@ + " ORDER BY sort, name"@,
{
    let mut query = concat("SELECT name, cast(id as text) FROM subcategories WHERE category_id = ", category_id);
    query.append(" ORDER BY sort, name");
    query
}

/// The query for the content of subcategory `id`.
pub fn get_subcategory_by_id_query(id: &str) -> (query: String)
    ensures
        query@ == "SELECT content FROM subcategories WHERE id = "@ + id@ + " LIMIT 1"@,
{
    let mut query = concat("SELECT content FROM subcategories WHERE id = ", id);
    query.append(" LIMIT 1");
    query
}

/// The query for the category at row `index` of the display order.
pub fn category_at_query(index: &str) -> (query: String)
    ensures
        query@ == "SELECT name, cast(id as text) id FROM categories ORDER BY sort, name LIMIT "@ + index@ + ",1"@,
{
    let mut query = concat("SELECT name, cast(id as text) id FROM categories ORDER BY sort, name LIMIT ", index);
    query.append(",1");
    query
}

/// The statement that renames category `id` to `new_name`.
pub fn update_category_name_query(new_name: &str, id: &str) -> (query: String)
    ensures
        query@ == "UPDATE categories SET name = '"@ + new_name@ + "' WHERE id = "@ + id@ + " "@,
{
    let mut query = concat("UPDATE categories SET name = '", new_name);
    query.append("' WHERE id = ");
    query.append(id);
    query.append(" ");
    query
}

/// The query for the subcategory at row `index` of the display order of category `category_id`.
pub fn subcategory_at_query(category_id: &str, index: &str) -> (query: String)
    ensures
        query@ == "SELECT name ,cast(id as text) id FROM subcategories WHERE category_id = "@ + category_id@ + " ORDER BY sort, name  LIMIT "@ + index@ + ",1"@,
{
    let mut query = concat("SELECT name ,cast(id as text) id FROM subcategories WHERE category_id = ", category_id);
    query.append(" ORDER BY sort, name  LIMIT ");
    query.append(index);
    query.append(",1");
    query
}

/// The statement that renames subcategory `id` to `name`.
pub fn rename_subcategory_query(name: &str, id: &str) -> (query: String)
    ensures
        query@ == "UPDATE subcategories SET name = '"@ + name@ + "' WHERE id = "@ + id@,
{
    let mut query = concat("UPDATE subcategories SET name = '", name);
    query.append("' WHERE id = ");
    query.append(id);
    query
}

/// The statement that deletes category `id`.
pub fn delete_category_query(id: &str) -> (query: String)
    ensures
        query@ == "DELETE FROM categories WHERE id = "@ + id@,
{
    let mut query = concat("DELETE FROM categories WHERE id = ", id);
    query
}

/// The statement that deletes the subcategories of category `id`.
pub fn delete_category_subcategories_query(id: &str) -> (query: String)
    ensures
        query@ == "DELETE FROM subcategories WHERE category_id = "@ + id@,
{
    let mut query = concat("DELETE FROM subcategories WHERE category_id = ", id);
    query
}

/// The query for the category of subcategory `id`.
pub fn subcategory_category_query(id: &str) -> (query: String)
    ensures
        query@ == "SELECT cast(category_id as TEXT) catetgory_id FROM subcategories WHERE id = "@ + id@ + " LIMIT 1"@,
{
    let mut query = concat("SELECT cast(category_id as TEXT) catetgory_id FROM subcategories WHERE id = ", id);
    query.append(" LIMIT 1");
    query
}

/// The statement that deletes subcategory `id`.
pub fn delete_subcategory_query(id: &str) -> (query: String)
    ensures
        query@ == "DELETE FROM subcategories WHERE id = "@ + id@,
{
    let mut query = concat("DELETE FROM subcategories WHERE id = ", id);
    query
}

/// The statement that adds an unnamed subcategory with `content` to category `category_id`.
pub fn add_subcategory_query(category_id: &str, content: &str) -> (query: String)
    ensures
        query@ == "INSERT INTO subcategories(name,category_id,content)VALUES('',"@ + category_id@ + ",'"@ + content@ + "')"@,
{
    let mut query = concat("INSERT INTO subcategories(name,category_id,content)VALUES('',", category_id);
    query.append(",'");
    query.append(content);
    query.append("')");
    query
}

/// The statement that sets the content of subcategory `id` to `content`.
pub fn update_subcategory_query(id: &str, content: &str) -> (query: String)
    ensures
        query@ == "UPDATE subcategories SET content = '"@ + content@ + "' WHERE id = "@ + id@,
{
    let mut query = concat("UPDATE subcategories SET content = '", content);
    query.append("' WHERE id = ");
    query.append(id);
    query
}

/// The statement that renames subcategory `id` to `new_name` with its
/// forbidden characters removed; `None` only where the regular expression
/// engine refuses the pattern of forbidden characters.
pub fn update_subcategory_name_query(new_name: &str, id: &str) -> (query: Option<String>)
    ensures
        query is Some <==> regex_compiles(NAME_FORBIDDEN@),
        query matches Some(q) ==> q@ == "UPDATE subcategories SET name = '"@ + clean_name_spec(
            new_name@,
        ) + "' WHERE id = "@ + id@,
        query matches Some(q) && exists|keep: spec_fn(char) -> bool|
            (forall|ch: char|
                #![trigger keep(ch)]
                (ch as u32) < 128 ==> (keep(ch) == (('a' <= ch && ch <= 'z') || ('A' <= ch && ch
                    <= 'Z') || ('0' <= ch && ch <= '9') || ch == ' ' || ('\t' <= ch && ch <= '\r')
                    || ch == ':' || ch == '_' || ch == '-')))
            && q@ == "UPDATE subcategories SET name = '"@ + new_name@.filter(keep) + "' WHERE id = "@
            + id@,
{
    match clean_name(new_name) {
        Some(clean) => Some(rename_subcategory_query(clean.as_str(), id)),
        None => None,
    }
}

} // verus!
