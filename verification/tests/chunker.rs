use vectoriser::embedding::chunker::{to_embed_inputs, MIN_SECTION_BYTES};
use vectoriser::models::{DocumentSections, SectionType, SourceKind};

fn sections(full: &str, skills: Option<&str>, exp: Option<&str>, edu: Option<&str>) -> DocumentSections {
    DocumentSections {
        full_text: full.to_string(),
        skills: skills.map(|t| t.to_string()),
        experience_or_requirements: exp.map(|t| t.to_string()),
        education: edu.map(|t| t.to_string()),
    }
}

const LONG: &str = "twenty bytes exactly";
const SHORT: &str = "nineteen bytes only";

#[test]
fn threshold_is_twenty_bytes() {
    assert_eq!(MIN_SECTION_BYTES, 20);
    assert_eq!(LONG.len(), 20);
    assert_eq!(SHORT.len(), 19);
    let inputs = to_embed_inputs(&sections(LONG, None, None, None), SourceKind::Resume);
    assert_eq!(inputs, vec![(SectionType::ResumeFull, LONG.to_string())]);
    let inputs = to_embed_inputs(&sections(SHORT, None, None, None), SourceKind::Resume);
    assert!(inputs.is_empty());
}

#[test]
fn threshold_counts_bytes_not_characters() {
    let ten_accents = "éééééééééé";
    assert_eq!(ten_accents.chars().count(), 10);
    let inputs = to_embed_inputs(&sections(ten_accents, None, None, None), SourceKind::JobAnalysis);
    assert_eq!(inputs, vec![(SectionType::JobFull, ten_accents.to_string())]);
}

#[test]
fn resume_inputs_in_order() {
    let s = sections(
        "full text of the resume",
        Some("rust, verus, formal methods"),
        Some("ten years of systems work"),
        Some("a degree in mathematics"),
    );
    let inputs = to_embed_inputs(&s, SourceKind::Resume);
    assert_eq!(
        inputs,
        vec![
            (SectionType::ResumeFull, "full text of the resume".to_string()),
            (SectionType::ResumeSkills, "rust, verus, formal methods".to_string()),
            (SectionType::ResumeExperience, "ten years of systems work".to_string()),
            (SectionType::ResumeEducation, "a degree in mathematics".to_string()),
        ]
    );
}

#[test]
fn job_inputs_never_include_education() {
    let s = sections(
        "full text of the posting",
        Some("short"),
        Some("requirements of the role"),
        Some("a degree in mathematics"),
    );
    let inputs = to_embed_inputs(&s, SourceKind::JobAnalysis);
    assert_eq!(
        inputs,
        vec![
            (SectionType::JobFull, "full text of the posting".to_string()),
            (SectionType::JobRequirements, "requirements of the role".to_string()),
        ]
    );
}

#[test]
fn short_and_missing_sections_are_skipped() {
    let s = sections(SHORT, None, Some(SHORT), Some(LONG));
    let inputs = to_embed_inputs(&s, SourceKind::Resume);
    assert_eq!(inputs, vec![(SectionType::ResumeEducation, LONG.to_string())]);
}
