use autotext::records::{edit_target, is_password_saved, last_value, plan_subcategory_deletion, EditTarget};

#[test]
fn last_value_of_rows() {
    assert_eq!(last_value(&vec![]), "");
    assert_eq!(last_value(&vec!["a".to_string()]), "a");
    assert_eq!(last_value(&vec!["a".to_string(), "b".to_string()]), "b");
}

#[test]
fn saved_password_flag() {
    assert!(is_password_saved("1"));
    assert!(!is_password_saved("0"));
    assert!(!is_password_saved(""));
    assert!(!is_password_saved("11"));
}

#[test]
fn edit_target_by_title() {
    assert_eq!(edit_target("Category"), EditTarget::Category);
    assert_eq!(edit_target("Subcategory"), EditTarget::Subcategory);
    assert_eq!(edit_target("Select a Databases"), EditTarget::Neither);
    assert_eq!(edit_target("category"), EditTarget::Neither);
}

#[test]
fn subcategory_deletion_plan() {
    let plan = plan_subcategory_deletion("9", &vec!["4".to_string()]);
    assert_eq!(plan.statements, vec!["DELETE FROM subcategories WHERE id = 9".to_string()]);
    assert_eq!(plan.category_id, "4");
    let none = plan_subcategory_deletion("9", &vec![]);
    assert!(none.statements.is_empty());
    assert_eq!(none.category_id, "");
}
