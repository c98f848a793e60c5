use autotext::queries::{
    add_subcategory_query, category_at_query, delete_category_query,
    delete_category_subcategories_query, delete_subcategory_query, get_password_by_id_query,
    get_save_password_by_id_query, get_subcategory_by_id_query, rename_subcategory_query,
    subcategories_query, subcategory_at_query, subcategory_category_query,
    update_category_name_query, update_subcategory_name_query, update_subcategory_query,
    ADD_CATEGORY_QUERY, CATEGORIES_QUERY, GET_PASSWORD_QUERY,
};

#[test]
fn password_queries() {
    assert_eq!(GET_PASSWORD_QUERY, "SELECT password FROM databases WHERE [default] = 1 ");
    assert_eq!(get_password_by_id_query("3"), "SELECT password FROM databases WHERE id = 3 LIMIT 1");
    assert_eq!(
        get_save_password_by_id_query("3"),
        "SELECT save_password FROM databases WHERE id = 3 LIMIT 1"
    );
}

#[test]
fn category_queries() {
    assert_eq!(CATEGORIES_QUERY, "SELECT name, cast(id as text) FROM categories ORDER BY sort, name ");
    assert_eq!(
        category_at_query("2"),
        "SELECT name, cast(id as text) id FROM categories ORDER BY sort, name LIMIT 2,1"
    );
    assert_eq!(update_category_name_query("Work", "5"), "UPDATE categories SET name = 'Work' WHERE id = 5 ");
    assert_eq!(ADD_CATEGORY_QUERY, "INSERT INTO categories(name)VALUES('')");
    assert_eq!(delete_category_query("5"), "DELETE FROM categories WHERE id = 5");
    assert_eq!(
        delete_category_subcategories_query("5"),
        "DELETE FROM subcategories WHERE category_id = 5"
    );
}

#[test]
fn subcategory_queries() {
    assert_eq!(
        subcategories_query("4"),
        "SELECT name, cast(id as text) FROM subcategories WHERE category_id = 4 ORDER BY sort, name"
    );
    assert_eq!(get_subcategory_by_id_query("9"), "SELECT content FROM subcategories WHERE id = 9 LIMIT 1");
    assert_eq!(
        subcategory_at_query("4", "0"),
        "SELECT name ,cast(id as text) id FROM subcategories WHERE category_id = 4 ORDER BY sort, name  LIMIT 0,1"
    );
    assert_eq!(rename_subcategory_query("Greeting", "9"), "UPDATE subcategories SET name = 'Greeting' WHERE id = 9");
    assert_eq!(
        subcategory_category_query("9"),
        "SELECT cast(category_id as TEXT) catetgory_id FROM subcategories WHERE id = 9 LIMIT 1"
    );
    assert_eq!(delete_subcategory_query("9"), "DELETE FROM subcategories WHERE id = 9");
    assert_eq!(
        add_subcategory_query("4", "Hi there"),
        "INSERT INTO subcategories(name,category_id,content)VALUES('',4,'Hi there')"
    );
    assert_eq!(
        update_subcategory_query("9", "Bye"),
        "UPDATE subcategories SET content = 'Bye' WHERE id = 9"
    );
}

#[test]
fn subcategory_rename_cleans_the_name() {
    assert_eq!(
        update_subcategory_name_query("O'Brien's <note>", "9").unwrap(),
        "UPDATE subcategories SET name = 'OBriens note' WHERE id = 9"
    );
}

#[test]
fn category_rename_keeps_the_name_as_typed() {
    assert_eq!(
        update_category_name_query("Q&A", "1"),
        "UPDATE categories SET name = 'Q&A' WHERE id = 1 "
    );
}
