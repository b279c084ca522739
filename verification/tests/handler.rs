use vectoriser::handlers::resume::{
    DocumentHandler, HandlerAction, HandlerEvent, HandlerOutcome, HandlerStage,
};
use vectoriser::models::{DocumentParsedEvent, DocumentSections, SectionType, SourceKind};

type Vector = Vec<f32>;

fn event(kind: SourceKind) -> DocumentParsedEvent {
    DocumentParsedEvent { source_id: 77, source_type: kind, user_id: "user-7".to_string() }
}

fn sections(full: &str, skills: Option<&str>) -> DocumentSections {
    DocumentSections {
        full_text: full.to_string(),
        skills: skills.map(|t| t.to_string()),
        experience_or_requirements: None,
        education: None,
    }
}

#[test]
fn full_run_embeds_replaces_stores_and_publishes() {
    let (h, a) = DocumentHandler::<Vector>::start(event(SourceKind::Resume));
    match a {
        HandlerAction::FetchSections { kind, source_id } => {
            assert_eq!(kind, SourceKind::Resume);
            assert_eq!(source_id, 77);
        }
        _ => panic!("expected a fetch"),
    }
    let ev = HandlerEvent::SectionsFetched(sections(
        "the full text of a resume",
        Some("rust and formal verification"),
    ));
    assert!(h.accepts_event(&ev));
    assert!(!h.accepts_event(&HandlerEvent::Published));
    let (h, a) = h.step(ev);
    match a {
        HandlerAction::EmbedTexts { texts } => assert_eq!(
            texts,
            vec!["the full text of a resume".to_string(), "rust and formal verification".to_string()]
        ),
        _ => panic!("expected an embedding request"),
    }
    let (h, a) = h.step(HandlerEvent::VectorsEmbedded(vec![vec![1.0f32], vec![2.0f32]]));
    match a {
        HandlerAction::DeleteVectors { source_id } => assert_eq!(source_id, 77),
        _ => panic!("expected a deletion"),
    }
    let (h, a) = h.step(HandlerEvent::VectorsDeleted);
    match a {
        HandlerAction::UpsertVectors { source_id, user_id, embeddings } => {
            assert_eq!(source_id, 77);
            assert_eq!(user_id, "user-7");
            assert_eq!(
                embeddings,
                vec![
                    (SectionType::ResumeFull, "the full text of a resume".to_string(), vec![1.0f32]),
                    (SectionType::ResumeSkills, "rust and formal verification".to_string(), vec![2.0f32]),
                ]
            );
        }
        _ => panic!("expected an upsert"),
    }
    let (h, a) = h.step(HandlerEvent::VectorsUpserted(vec![5, 6]));
    match a {
        HandlerAction::PublishVectorsReady { event } => {
            assert_eq!(event.source_id, 77);
            assert_eq!(event.source_type, SourceKind::Resume);
            assert_eq!(event.vector_ids, vec![5, 6]);
        }
        _ => panic!("expected a publication"),
    }
    let (h, a) = h.step(HandlerEvent::Published);
    match a {
        HandlerAction::Finish { outcome } => assert_eq!(outcome, HandlerOutcome::Processed),
        _ => panic!("expected the end"),
    }
    assert!(matches!(h.stage, HandlerStage::Finished));
    assert!(!h.accepts_event(&HandlerEvent::Published));
    assert_eq!(h.event.source_id, 77);
}

#[test]
fn nothing_to_embed_finishes_at_once() {
    let (h, _) = DocumentHandler::<Vector>::start(event(SourceKind::JobAnalysis));
    let (h, a) = h.step(HandlerEvent::SectionsFetched(sections("too short", Some("short"))));
    match a {
        HandlerAction::Finish { outcome } => assert_eq!(outcome, HandlerOutcome::NothingToEmbed),
        _ => panic!("expected the end"),
    }
    assert!(matches!(h.stage, HandlerStage::Finished));
}

#[test]
fn job_analysis_uses_job_section_types() {
    let (h, _) = DocumentHandler::<Vector>::start(event(SourceKind::JobAnalysis));
    let (h, _) = h.step(HandlerEvent::SectionsFetched(sections("the full job posting text", None)));
    let (h, _) = h.step(HandlerEvent::VectorsEmbedded(vec![vec![3.0f32]]));
    let (_, a) = h.step(HandlerEvent::VectorsDeleted);
    match a {
        HandlerAction::UpsertVectors { embeddings, .. } => assert_eq!(
            embeddings,
            vec![(SectionType::JobFull, "the full job posting text".to_string(), vec![3.0f32])]
        ),
        _ => panic!("expected an upsert"),
    }
}

#[test]
fn vectors_are_paired_as_far_as_both_go() {
    let (h, _) = DocumentHandler::<Vector>::start(event(SourceKind::Resume));
    let (h, _) = h.step(HandlerEvent::SectionsFetched(sections(
        "the full text of a resume",
        Some("rust and formal verification"),
    )));
    let (h, _) = h.step(HandlerEvent::VectorsEmbedded(vec![vec![1.0f32]]));
    let (_, a) = h.step(HandlerEvent::VectorsDeleted);
    match a {
        HandlerAction::UpsertVectors { embeddings, .. } => assert_eq!(
            embeddings,
            vec![(SectionType::ResumeFull, "the full text of a resume".to_string(), vec![1.0f32])]
        ),
        _ => panic!("expected an upsert"),
    }
}

#[test]
fn failed_embedding_stops_before_anything_is_deleted_or_stored() {
    let (h, _) = DocumentHandler::<Vector>::start(event(SourceKind::Resume));
    let (h, _) = h.step(HandlerEvent::SectionsFetched(sections("the full text of a resume", None)));
    assert!(h.accepts_event(&HandlerEvent::StepFailed));
    let (h, a) = h.step(HandlerEvent::StepFailed);
    match a {
        HandlerAction::Finish { outcome } => assert_eq!(outcome, HandlerOutcome::Failed),
        _ => panic!("expected the end"),
    }
    assert!(matches!(h.stage, HandlerStage::Finished));
    assert!(!h.accepts_event(&HandlerEvent::StepFailed));
}

#[test]
fn failed_fetch_or_publication_ends_as_failed() {
    let (h, _) = DocumentHandler::<Vector>::start(event(SourceKind::JobAnalysis));
    let (_, a) = h.step(HandlerEvent::StepFailed);
    assert!(matches!(a, HandlerAction::Finish { outcome: HandlerOutcome::Failed }));

    let (h, _) = DocumentHandler::<Vector>::start(event(SourceKind::Resume));
    let (h, _) = h.step(HandlerEvent::SectionsFetched(sections("the full text of a resume", None)));
    let (h, _) = h.step(HandlerEvent::VectorsEmbedded(vec![vec![1.0f32]]));
    let (h, _) = h.step(HandlerEvent::VectorsDeleted);
    let (h, _) = h.step(HandlerEvent::VectorsUpserted(vec![9]));
    let (_, a) = h.step(HandlerEvent::StepFailed);
    assert!(matches!(a, HandlerAction::Finish { outcome: HandlerOutcome::Failed }));
}
