use vstd::prelude::*;
use vstd::std_specs::convert::FromSpecImpl;

verus! {

/// The kind of document whose text is embedded.
#[derive(Debug, Clone, Copy, PartialEq, Eq, Structural)]
pub enum SourceKind {
    Resume,
    JobAnalysis,
}

/// The section of a document that one embedding stands for.
#[derive(Debug, Clone, Copy, PartialEq, Eq, Structural)]
pub enum SectionType {
    ResumeFull,
    ResumeSkills,
    ResumeExperience,
    ResumeEducation,
    JobFull,
    JobSkills,
    JobRequirements,
}

/// The stable name under which a section type is stored in vector payloads.
pub open spec fn section_name(t: SectionType) -> Seq<char> {
    match t {
        SectionType::ResumeFull => "resume_full"@,
        SectionType::ResumeSkills => "resume_skills"@,
        SectionType::ResumeExperience => "resume_experience"@,
        SectionType::ResumeEducation => "resume_education"@,
        SectionType::JobFull => "job_full"@,
        SectionType::JobSkills => "job_skills"@,
        SectionType::JobRequirements => "job_requirements"@,
    }
}

/// No two section types share a name, so a stored name tells its type.
pub proof fn lemma_section_names_are_distinct(a: SectionType, b: SectionType)
    ensures
        section_name(a) == section_name(b) ==> a == b,
{
    reveal_strlit("resume_full");
    reveal_strlit("resume_skills");
    reveal_strlit("resume_experience");
    reveal_strlit("resume_education");
    reveal_strlit("job_full");
    reveal_strlit("job_skills");
    reveal_strlit("job_requirements");
    if section_name(a) == section_name(b) && a != b {
        assert(section_name(a).len() == section_name(b).len());
        assert(section_name(a)[0] == section_name(b)[0]);
        assert(section_name(a)[4] == section_name(b)[4]);
        assert(section_name(a)[7] == section_name(b)[7]);
    }
}

impl SectionType {
    /// Returns the snake-case name of the section type.
    pub fn as_str(&self) -> (name: &'static str)
        ensures
            name@ == section_name(*self),
    {
        match self {
            SectionType::ResumeFull => "resume_full",
            SectionType::ResumeSkills => "resume_skills",
            SectionType::ResumeExperience => "resume_experience",
            SectionType::ResumeEducation => "resume_education",
            SectionType::JobFull => "job_full",
            SectionType::JobSkills => "job_skills",
            SectionType::JobRequirements => "job_requirements",
        }
    }
}

/// The text of a stored document, split into the sections that are embedded.
/// `education` is filled for resumes only.
pub struct DocumentSections {
    pub full_text: String,
    pub skills: Option<String>,
    pub experience_or_requirements: Option<String>,
    pub education: Option<String>,
}

/// The view of an optional string.
pub open spec fn opt_view(o: Option<String>) -> Option<Seq<char>> {
    match o {
        Some(s) => Some(s@),
        None => None,
    }
}

/// A resume was parsed and stored. Identifiers are UUIDs held as their
/// 128-bit values.
pub struct ResumeParsedEvent {
    pub resume_id: u128,
    pub user_id: String,
}

/// A document of some kind was parsed and stored and is to be embedded.
pub struct DocumentParsedEvent {
    pub source_id: u128,
    pub source_type: SourceKind,
    pub user_id: String,
}

/// The user a stored row belongs to.
pub struct DbEventData {
    pub user_id: String,
}

/// A row was inserted into one of the document tables.
pub struct DbInsertEvent {
    pub table: String,
    pub id: u128,
    pub data: DbEventData,
}

/// The vectors of a document were stored under the identifiers `vector_ids`.
pub struct VectorsReadyEvent {
    pub source_id: u128,
    pub source_type: SourceKind,
    pub vector_ids: Vec<u128>,
}

/// The document event that a parsed resume stands for.
pub open spec fn resume_document_event(e: ResumeParsedEvent) -> DocumentParsedEvent {
    DocumentParsedEvent { source_id: e.resume_id, source_type: SourceKind::Resume, user_id: e.user_id }
}

impl From<ResumeParsedEvent> for DocumentParsedEvent {
    fn from(e: ResumeParsedEvent) -> (d: DocumentParsedEvent) {
        DocumentParsedEvent { source_id: e.resume_id, source_type: SourceKind::Resume, user_id: e.user_id }
    }
}

impl FromSpecImpl<ResumeParsedEvent> for DocumentParsedEvent {
    open spec fn obeys_from_spec() -> bool {
        true
    }

    open spec fn from_spec(e: ResumeParsedEvent) -> DocumentParsedEvent {
        resume_document_event(e)
    }
}

/// The kind of document stored in the table named `table`, for the tables
/// whose rows are embedded.
pub open spec fn table_kind(table: Seq<char>) -> Option<SourceKind> {
    if table == "resumes"@ {
        Some(SourceKind::Resume)
    } else if table == "job_postings"@ {
        Some(SourceKind::JobAnalysis)
    } else {
        None
    }
}

/// The document event that a row insertion stands for, if its table holds
/// documents that are embedded.
pub open spec fn insert_document_event(e: DbInsertEvent) -> Option<DocumentParsedEvent> {
    match table_kind(e.table@) {
        Some(kind) => Some(
            DocumentParsedEvent { source_id: e.id, source_type: kind, user_id: e.data.user_id },
        ),
        None => None,
    }
}

/// Only rows of the `resumes` and `job_postings` tables stand for documents
/// to embed; such a row keeps its identifier and its user, and a `resumes` row
/// stands for the same document event as a parsed resume with that
/// identifier and user.
pub proof fn lemma_inserted_rows_are_document_events(e: DbInsertEvent)
    ensures
        insert_document_event(e) is Some <==> (e.table@ == "resumes"@ || e.table@
            == "job_postings"@),
        insert_document_event(e) matches Some(d) ==> d.source_id == e.id && d.user_id
            == e.data.user_id,
        e.table@ == "resumes"@ ==> insert_document_event(e) == Some(
            resume_document_event(ResumeParsedEvent { resume_id: e.id, user_id: e.data.user_id }),
        ),
        e.table@ == "job_postings"@ ==> (insert_document_event(e) matches Some(d)
            && d.source_type == SourceKind::JobAnalysis),
{
    reveal_strlit("resumes");
    reveal_strlit("job_postings");
    assert("resumes"@.len() != "job_postings"@.len());
}

impl DbInsertEvent {
    /// Turns a row insertion into a document event; `None` for a table whose
    /// rows are not embedded.
    pub fn into_document_event(self) -> (d: Option<DocumentParsedEvent>)
        ensures
            d == insert_document_event(self),
    {
        let resumes = String::from_str("resumes");
        let job_postings = String::from_str("job_postings");
        let source_type = if self.table == resumes {
            SourceKind::Resume
        } else if self.table == job_postings {
            SourceKind::JobAnalysis
        } else {
            return None;
        };
        Some(DocumentParsedEvent { source_id: self.id, source_type, user_id: self.data.user_id })
    }
}

} // verus!
