use spec_core::family::error::XtaskError;
use spec_core::family::paths::FamilyId;

fn refusal(raw: &str) -> String {
    match FamilyId::parse(raw) {
        Err(XtaskError::InvalidInput(m)) => m,
        other => panic!("unexpected {other:?}"),
    }
}

#[test]
fn family_id_accepts_the_stated_pattern() {
    assert_eq!(FamilyId::parse("function.wrapper.pipeline.chain3.v1").unwrap().as_str(), "function.wrapper.pipeline.chain3.v1");
    assert_eq!(FamilyId::parse("a.b_c.v12").unwrap().as_str(), "a.b_c.v12");
}

#[test]
fn family_id_refuses_an_empty_first_segment() {
    assert_eq!(refusal(".x.v1"), "family id `.x.v1` must match ^[a-z0-9]+(\\.[a-z0-9_]+)+\\.v[0-9]+$");
}

#[test]
fn family_id_refuses_other_breaks_of_the_pattern() {
    assert_eq!(refusal(""), "family id must not be empty");
    assert!(refusal("a..v1").contains("must match"));
    assert!(refusal("a.b.x1").contains("must match"));
    assert!(refusal("A.b.v1").contains("must match"));
}
