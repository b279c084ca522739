use vstd::prelude::*;
use vstd::utf8::encode_utf8;

use crate::models::{DocumentSections, SectionType, SourceKind, opt_view};

verus! {

/// The fewest bytes a section's text must have to be worth embedding.
pub const MIN_SECTION_BYTES: usize = 20;

/// The length in bytes of the UTF-8 encoding of `text`, as `str::len` gives it.
pub open spec fn utf8_len(text: Seq<char>) -> usize {
    encode_utf8(text).len() as usize
}

/// Whether a section's text is long enough to be embedded.
pub open spec fn is_embeddable(text: Seq<char>) -> bool {
    utf8_len(text) >= MIN_SECTION_BYTES
}

/// The section types that the full text, the skills and the experience (or
/// requirements) of a document of `kind` are embedded under.
pub open spec fn section_types_for(kind: SourceKind) -> (SectionType, SectionType, SectionType) {
    match kind {
        SourceKind::Resume => (
            SectionType::ResumeFull,
            SectionType::ResumeSkills,
            SectionType::ResumeExperience,
        ),
        SourceKind::JobAnalysis => (
            SectionType::JobFull,
            SectionType::JobSkills,
            SectionType::JobRequirements,
        ),
    }
}

/// One embedding input for the section `text` under `section`, or none when
/// the section is missing or too short.
pub open spec fn input_for(section: SectionType, text: Option<Seq<char>>) -> Seq<
    (SectionType, Seq<char>),
> {
    match text {
        Some(t) => if is_embeddable(t) {
            seq![(section, t)]
        } else {
            Seq::empty()
        },
        None => Seq::empty(),
    }
}

/// The embedding inputs of a document of `kind`: its full text, skills,
/// experience or requirements, and, for a resume only, education, in that
/// order, each where it is long enough.
pub open spec fn embed_inputs(sections: DocumentSections, kind: SourceKind) -> Seq<
    (SectionType, Seq<char>),
> {
    let types = section_types_for(kind);
    input_for(types.0, Some(sections.full_text@)) + input_for(types.1, opt_view(sections.skills))
        + input_for(types.2, opt_view(sections.experience_or_requirements)) + match kind {
        SourceKind::Resume => input_for(SectionType::ResumeEducation, opt_view(sections.education)),
        SourceKind::JobAnalysis => Seq::empty(),
    }
}

/// The kind of document a section type belongs to.
pub open spec fn section_kind(t: SectionType) -> SourceKind {
    match t {
        SectionType::ResumeFull | SectionType::ResumeSkills | SectionType::ResumeExperience
        | SectionType::ResumeEducation => SourceKind::Resume,
        _ => SourceKind::JobAnalysis,
    }
}

/// The text that a document's sections hold for the section type `t`.
pub open spec fn section_text_for(sections: DocumentSections, t: SectionType) -> Option<Seq<char>> {
    match t {
        SectionType::ResumeFull | SectionType::JobFull => Some(sections.full_text@),
        SectionType::ResumeSkills | SectionType::JobSkills => opt_view(sections.skills),
        SectionType::ResumeExperience | SectionType::JobRequirements => opt_view(
            sections.experience_or_requirements,
        ),
        SectionType::ResumeEducation => opt_view(sections.education),
    }
}

/// Every embedding input is long enough, belongs to the document's kind and
/// carries the text of its own section; no section is embedded twice; a job
/// analysis gives at most three inputs and a resume at most four.
pub proof fn lemma_embed_inputs_are_sound(sections: DocumentSections, kind: SourceKind)
    ensures
        forall|i: int|
            0 <= i < embed_inputs(sections, kind).len() ==> {
                let (t, text) = #[trigger] embed_inputs(sections, kind)[i];
                &&& is_embeddable(text)
                &&& section_kind(t) == kind
                &&& section_text_for(sections, t) == Some(text)
            },
        forall|i: int, j: int|
            0 <= i < j < embed_inputs(sections, kind).len() ==> (#[trigger] embed_inputs(
                sections,
                kind,
            )[i]).0 != (#[trigger] embed_inputs(sections, kind)[j]).0,
        embed_inputs(sections, kind).len() <= match kind {
            SourceKind::Resume => 4int,
            SourceKind::JobAnalysis => 3int,
        },
{
}

/// Every section long enough to embed is embedded: the full text, when long
/// enough, is the first input, and each section of the document's kind whose
/// text is long enough (education for resumes only) stands among the inputs
/// under its own section type.
pub proof fn lemma_embed_inputs_are_complete(sections: DocumentSections, kind: SourceKind)
    ensures
        is_embeddable(sections.full_text@) ==> embed_inputs(sections, kind).len() > 0 && embed_inputs(
            sections,
            kind,
        )[0] == (section_types_for(kind).0, sections.full_text@),
        forall|t: SectionType|
            section_kind(t) == kind && (#[trigger] section_text_for(sections, t) matches Some(x)
                && is_embeddable(x)) ==> embed_inputs(sections, kind).contains(
                (t, section_text_for(sections, t)->0),
            ),
{
    let inputs = embed_inputs(sections, kind);
    let types = section_types_for(kind);
    let a = input_for(types.0, Some(sections.full_text@));
    let b = input_for(types.1, opt_view(sections.skills));
    let c = input_for(types.2, opt_view(sections.experience_or_requirements));
    let d = match kind {
        SourceKind::Resume => input_for(SectionType::ResumeEducation, opt_view(sections.education)),
        SourceKind::JobAnalysis => Seq::empty(),
    };
    assert(inputs == a + b + c + d);
    assert forall|t: SectionType|
        section_kind(t) == kind && (#[trigger] section_text_for(sections, t) matches Some(x)
            && is_embeddable(x)) implies inputs.contains((t, section_text_for(sections, t)->0)) by {
        let x = section_text_for(sections, t)->0;
        if t == types.0 {
            assert(inputs[0] == (t, x));
        } else if t == types.1 {
            assert(inputs[a.len() as int] == (t, x));
        } else if t == types.2 {
            assert(inputs[(a.len() + b.len()) as int] == (t, x));
        } else {
            assert(inputs[(a.len() + b.len() + c.len()) as int] == (t, x));
        }
    }
}

/// The view of a list of embedding inputs.
pub open spec fn inputs_view(inputs: Seq<(SectionType, String)>) -> Seq<(SectionType, Seq<char>)> {
    inputs.map_values(|p: (SectionType, String)| (p.0, p.1@))
}

/// Appends the input for an optional section when the section is long enough.
fn push_if_embeddable(
    inputs: &mut Vec<(SectionType, String)>,
    section: SectionType,
    text: &Option<String>,
)
    ensures
        inputs_view(final(inputs)@) == inputs_view(old(inputs)@) + input_for(
            section,
            opt_view(*text),
        ),
{
    match text {
        Some(t) => {
            if t.as_str().len() >= MIN_SECTION_BYTES {
                inputs.push((section, t.clone()));
                assert(inputs_view(inputs@) =~= inputs_view(old(inputs)@) + seq![(section, t@)]);
            } else {
                assert(inputs_view(inputs@) =~= inputs_view(old(inputs)@) + Seq::empty());
            }
        },
        None => {
            assert(inputs_view(inputs@) =~= inputs_view(old(inputs)@) + Seq::empty());
        },
    }
}

/// The texts of a document to embed, each with the section type it stands for.
pub fn to_embed_inputs(sections: &DocumentSections, kind: SourceKind) -> (inputs: Vec<
    (SectionType, String),
>)
    ensures
        inputs_view(inputs@) == embed_inputs(*sections, kind),
{
    let mut inputs: Vec<(SectionType, String)> = Vec::new();
    let (full_type, skills_type, exp_req_type) = match kind {
        SourceKind::Resume => (
            SectionType::ResumeFull,
            SectionType::ResumeSkills,
            SectionType::ResumeExperience,
        ),
        SourceKind::JobAnalysis => (
            SectionType::JobFull,
            SectionType::JobSkills,
            SectionType::JobRequirements,
        ),
    };
    assert(inputs_view(inputs@) =~= Seq::empty());
    if sections.full_text.as_str().len() >= MIN_SECTION_BYTES {
        inputs.push((full_type, sections.full_text.clone()));
    }
    assert(inputs_view(inputs@) =~= input_for(full_type, Some(sections.full_text@)));
    push_if_embeddable(&mut inputs, skills_type, &sections.skills);
    push_if_embeddable(&mut inputs, exp_req_type, &sections.experience_or_requirements);
    match kind {
        SourceKind::Resume => {
            push_if_embeddable(&mut inputs, SectionType::ResumeEducation, &sections.education);
        },
        SourceKind::JobAnalysis => {},
    }
    inputs
}

} // verus!
