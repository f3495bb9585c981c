use column_settings::registry::{ColumnSettingsUpdate, Expression, ExpressionRegistry, UpdateError};

fn e(name: &str, text: &str) -> Expression {
    Expression { name: name.to_string(), text: text.to_string() }
}

fn s(t: &str) -> String {
    t.to_string()
}

#[test]
fn insert_then_get() {
    let mut r = ExpressionRegistry::new();
    assert_eq!(r.get(&s("a")), None);
    assert_eq!(r.apply(&ColumnSettingsUpdate::InsertExpression(e("a", "1+1"))), Ok(()));
    assert_eq!(r.get(&s("a")), Some(s("1+1")));
    assert_eq!(r.get(&s("b")), None);
}

#[test]
fn duplicate_insert_refused() {
    let mut r = ExpressionRegistry::new();
    r.apply(&ColumnSettingsUpdate::InsertExpression(e("a", "1"))).unwrap();
    assert_eq!(
        r.apply(&ColumnSettingsUpdate::InsertExpression(e("a", "2"))),
        Err(UpdateError::DuplicateName)
    );
    assert_eq!(r.get(&s("a")), Some(s("1")));
}

#[test]
fn replace_renames_and_changes_text() {
    let mut r = ExpressionRegistry::new();
    r.apply(&ColumnSettingsUpdate::InsertExpression(e("a", "1"))).unwrap();
    r.apply(&ColumnSettingsUpdate::InsertExpression(e("b", "2"))).unwrap();
    let u = ColumnSettingsUpdate::ReplaceExpression { old_name: s("a"), expr: e("c", "3") };
    assert_eq!(r.apply(&u), Ok(()));
    assert_eq!(r.get(&s("a")), None);
    assert_eq!(r.get(&s("c")), Some(s("3")));
    assert_eq!(r.get(&s("b")), Some(s("2")));
    let same = ColumnSettingsUpdate::ReplaceExpression { old_name: s("c"), expr: e("c", "4") };
    assert_eq!(r.apply(&same), Ok(()));
    assert_eq!(r.get(&s("c")), Some(s("4")));
}

#[test]
fn replace_onto_taken_name_refused() {
    let mut r = ExpressionRegistry::new();
    r.apply(&ColumnSettingsUpdate::InsertExpression(e("a", "1"))).unwrap();
    r.apply(&ColumnSettingsUpdate::InsertExpression(e("b", "2"))).unwrap();
    let u = ColumnSettingsUpdate::ReplaceExpression { old_name: s("a"), expr: e("b", "3") };
    assert_eq!(r.apply(&u), Err(UpdateError::DuplicateName));
    assert_eq!(r.get(&s("a")), Some(s("1")));
    assert_eq!(r.get(&s("b")), Some(s("2")));
}

#[test]
fn unknown_names_refused() {
    let mut r = ExpressionRegistry::new();
    assert_eq!(
        r.apply(&ColumnSettingsUpdate::RemoveExpression(s("a"))),
        Err(UpdateError::UnknownName)
    );
    let u = ColumnSettingsUpdate::ReplaceExpression { old_name: s("a"), expr: e("b", "3") };
    assert_eq!(r.apply(&u), Err(UpdateError::UnknownName));
    let v = ColumnSettingsUpdate::RenameColumn { old_name: s("a"), new_name: s("b") };
    assert_eq!(r.apply(&v), Err(UpdateError::UnknownName));
    assert_eq!(r.get(&s("b")), None);
}

#[test]
fn remove_and_rename() {
    let mut r = ExpressionRegistry::new();
    r.apply(&ColumnSettingsUpdate::InsertExpression(e("a", "1"))).unwrap();
    r.apply(&ColumnSettingsUpdate::InsertExpression(e("b", "2"))).unwrap();
    let v = ColumnSettingsUpdate::RenameColumn { old_name: s("a"), new_name: s("b") };
    assert_eq!(r.apply(&v), Err(UpdateError::DuplicateName));
    let w = ColumnSettingsUpdate::RenameColumn { old_name: s("a"), new_name: s("z") };
    assert_eq!(r.apply(&w), Ok(()));
    assert_eq!(r.get(&s("z")), Some(s("1")));
    assert_eq!(r.get(&s("a")), None);
    assert_eq!(r.apply(&ColumnSettingsUpdate::RemoveExpression(s("b"))), Ok(()));
    assert_eq!(r.get(&s("b")), None);
    assert_eq!(r.get(&s("z")), Some(s("1")));
}
