use vectoriser::db::queries::{
    extract_all_text, job_analysis_sections, join_with_newlines, resume_sections,
};
use vectoriser::json::{member, JsonValue};

fn s(t: &str) -> JsonValue {
    JsonValue::Str(t.to_string())
}

fn obj(members: Vec<(&str, JsonValue)>) -> JsonValue {
    JsonValue::Object(members.into_iter().map(|(k, v)| (k.to_string(), v)).collect())
}

#[test]
fn text_of_a_string_is_itself() {
    assert_eq!(extract_all_text(&s("hello")), "hello");
    assert_eq!(extract_all_text(&s("")), "");
}

#[test]
fn values_without_text() {
    assert_eq!(extract_all_text(&JsonValue::Null), "");
    assert_eq!(extract_all_text(&JsonValue::Bool(true)), "");
    assert_eq!(extract_all_text(&JsonValue::Number), "");
    assert_eq!(extract_all_text(&JsonValue::Array(vec![])), "");
    assert_eq!(extract_all_text(&obj(vec![])), "");
}

#[test]
fn nested_text_is_joined_by_lines_skipping_empty_parts() {
    let doc = obj(vec![
        ("name", s("Ada")),
        ("age", JsonValue::Number),
        ("empty", s("")),
        ("skills", JsonValue::Array(vec![s("rust"), JsonValue::Null, s(""), s("verus")])),
        ("nested", obj(vec![("a", obj(vec![("b", s("deep"))])), ("c", JsonValue::Array(vec![]))])),
    ]);
    assert_eq!(extract_all_text(&doc), "Ada\nrust\nverus\ndeep");
}

#[test]
fn join_puts_one_newline_between_parts() {
    assert_eq!(join_with_newlines(&vec![]), "");
    assert_eq!(join_with_newlines(&vec!["a".to_string()]), "a");
    assert_eq!(join_with_newlines(&vec!["a".to_string(), "".to_string(), "c".to_string()]), "a\n\nc");
}

#[test]
fn member_lookup_finds_the_first_match() {
    let doc = obj(vec![("a", s("1")), ("b", s("2")), ("a", s("3"))]);
    match member(&doc, "a") {
        Some(JsonValue::Str(t)) => assert_eq!(t, "1"),
        _ => panic!("member a is missing"),
    }
    assert!(member(&doc, "c").is_none());
    assert!(member(&JsonValue::Array(vec![s("a")]), "a").is_none());
}

#[test]
fn resume_sections_are_read_from_their_members() {
    let doc = obj(vec![
        ("education", JsonValue::Array(vec![s("BSc"), s("MSc")])),
        ("experience", JsonValue::Array(vec![])),
        ("skills", JsonValue::Array(vec![s("rust")])),
        ("requirements", s("ignored for resumes")),
    ]);
    let sections = resume_sections(&doc);
    assert_eq!(sections.full_text, "BSc\nMSc\nrust\nignored for resumes");
    assert_eq!(sections.skills.as_deref(), Some("rust"));
    assert_eq!(sections.experience_or_requirements, None);
    assert_eq!(sections.education.as_deref(), Some("BSc\nMSc"));
}

#[test]
fn job_sections_prefer_requirements_over_experience() {
    let doc = obj(vec![
        ("experience", s("five years")),
        ("requirements", s("a degree")),
        ("education", s("never read")),
    ]);
    let sections = job_analysis_sections(&doc);
    assert_eq!(sections.full_text, "five years\na degree\nnever read");
    assert_eq!(sections.skills, None);
    assert_eq!(sections.experience_or_requirements.as_deref(), Some("a degree"));
    assert_eq!(sections.education, None);
}

#[test]
fn job_sections_fall_back_to_experience_only_when_requirements_are_absent() {
    let without = obj(vec![("experience", s("five years"))]);
    assert_eq!(
        job_analysis_sections(&without).experience_or_requirements.as_deref(),
        Some("five years")
    );
    let empty_requirements = obj(vec![("experience", s("five years")), ("requirements", s(""))]);
    assert_eq!(job_analysis_sections(&empty_requirements).experience_or_requirements, None);
}

#[test]
fn sections_of_a_non_object_document() {
    let sections = resume_sections(&s("just text"));
    assert_eq!(sections.full_text, "just text");
    assert_eq!(sections.skills, None);
    assert_eq!(sections.experience_or_requirements, None);
    assert_eq!(sections.education, None);
}

#[test]
fn section_texts_are_parts_of_the_full_text() {
    let doc = obj(vec![
        ("name", s("Grace")),
        ("skills", JsonValue::Array(vec![s("cobol"), s("compilers")])),
        ("experience", obj(vec![("navy", s("rear admiral"))])),
    ]);
    let sections = resume_sections(&doc);
    assert_eq!(sections.full_text, "Grace\ncobol\ncompilers\nrear admiral");
    let skills = sections.skills.unwrap();
    let experience = sections.experience_or_requirements.unwrap();
    assert_eq!(skills, "cobol\ncompilers");
    assert_eq!(experience, "rear admiral");
    assert!(sections.full_text.contains(&skills));
    assert!(sections.full_text.contains(&experience));
}

#[test]
fn wrapping_in_an_array_keeps_the_text() {
    let v = obj(vec![("a", s("x")), ("b", JsonValue::Array(vec![s("y")]))]);
    let wrapped = JsonValue::Array(vec![obj(vec![("a", s("x")), ("b", JsonValue::Array(vec![s("y")]))])]);
    assert_eq!(extract_all_text(&wrapped), extract_all_text(&v));
    assert_eq!(extract_all_text(&JsonValue::Array(vec![s("")])), extract_all_text(&s("")));
}

#[test]
fn blank_elements_anywhere_keep_the_text() {
    let plain = obj(vec![("a", JsonValue::Array(vec![s("x"), s("y")])), ("b", s("z"))]);
    let padded = obj(vec![
        ("n", JsonValue::Null),
        ("a", JsonValue::Array(vec![JsonValue::Bool(false), s("x"), s(""), JsonValue::Number, s("y"), JsonValue::Null])),
        ("e", s("")),
        ("b", s("z")),
        ("m", JsonValue::Number),
    ]);
    assert_eq!(extract_all_text(&padded), extract_all_text(&plain));
    assert_eq!(extract_all_text(&plain), "x\ny\nz");
}
