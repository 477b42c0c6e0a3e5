use deepl::Formality;

#[test]
fn formality_default_encodes() {
    assert_eq!(Formality::Default.as_ref(), "default");
    assert_eq!(Formality::Default.to_string(), "default");
}

#[test]
fn formality_more_encodes() {
    assert_eq!(Formality::More.as_ref(), "more");
    assert_eq!(Formality::More.to_string(), "more");
}

#[test]
fn formality_less_encodes() {
    assert_eq!(Formality::Less.as_ref(), "less");
    assert_eq!(Formality::Less.to_string(), "less");
}

#[test]
fn formality_prefer_more_encodes() {
    assert_eq!(Formality::PreferMore.as_ref(), "prefer_more");
    assert_eq!(Formality::PreferMore.to_string(), "prefer_more");
}

#[test]
fn formality_prefer_less_encodes() {
    assert_eq!(Formality::PreferLess.as_ref(), "prefer_less");
    assert_eq!(Formality::PreferLess.to_string(), "prefer_less");
}
