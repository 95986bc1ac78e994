use envcrypt::variable::UnencryptedVariable;

#[test]
fn a_string_is_a_required_variable() {
    let variable = UnencryptedVariable::from("secret".to_string());
    assert_eq!(variable, UnencryptedVariable::Required("secret".to_string()));
    assert!(!variable.is_optional());
    assert_eq!(variable.inner(), Some(&"secret".to_string()));
}

#[test]
fn an_option_is_an_optional_variable() {
    let present = UnencryptedVariable::from(Some("secret".to_string()));
    assert_eq!(present, UnencryptedVariable::Optional(Some("secret".to_string())));
    assert!(present.is_optional());
    assert_eq!(present.inner(), Some(&"secret".to_string()));

    let missing = UnencryptedVariable::from(None::<String>);
    assert_eq!(missing, UnencryptedVariable::Optional(None));
    assert!(missing.is_optional());
    assert_eq!(missing.inner(), None);
}

#[test]
fn into_gives_what_from_gives() {
    let required: UnencryptedVariable = "a".to_string().into();
    assert_eq!(required, UnencryptedVariable::Required("a".to_string()));
    let optional: UnencryptedVariable = Some("a".to_string()).into();
    assert_eq!(optional, UnencryptedVariable::Optional(Some("a".to_string())));
}

#[test]
fn an_empty_value_is_still_a_value() {
    let variable = UnencryptedVariable::Required(String::new());
    assert_eq!(variable.inner(), Some(&String::new()));
    let variable = UnencryptedVariable::Optional(Some(String::new()));
    assert_eq!(variable.inner(), Some(&String::new()));
}
