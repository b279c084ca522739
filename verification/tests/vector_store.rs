use vectoriser::models::SectionType;
use vectoriser::vector_store::qdrant::{
    collection_to_create, plan_points, source_filter, VectorDistance, VECTOR_SIZE,
};

const ID: u128 = 0x67e5_5044_10b1_426f_9247_bb68_0e5f_e0c8;

#[test]
fn existing_collection_is_left_alone() {
    assert!(collection_to_create("vectors", true).is_none());
}

#[test]
fn missing_collection_is_created_for_cosine_vectors() {
    let r = collection_to_create("vectors", false).expect("a request");
    assert_eq!(r.collection_name, "vectors");
    assert_eq!(r.vector_size, 1024);
    assert_eq!(VECTOR_SIZE, 1024);
    assert_eq!(r.distance, VectorDistance::Cosine);
}

#[test]
fn source_filter_matches_the_uuid_text() {
    let f = source_filter(ID);
    assert_eq!(f.key, "source_id");
    assert_eq!(f.value, "67e55044-10b1-426f-9247-bb680e5fe0c8");
    assert_eq!(source_filter(0).value, "00000000-0000-0000-0000-000000000000");
    assert_eq!(source_filter(u128::MAX).value, "ffffffff-ffff-ffff-ffff-ffffffffffff");
}

fn is_random_uuid(id: u128) -> bool {
    (id >> 76) & 0xf == 4 && (id >> 62) & 0x3 == 2
}

#[test]
fn points_carry_payloads_and_fresh_random_ids() {
    let embeddings = vec![
        (SectionType::ResumeFull, "all of it".to_string(), vec![0.5f32, 1.0]),
        (SectionType::ResumeSkills, "rust".to_string(), vec![0.25f32, 2.0]),
    ];
    let (points, ids) = plan_points(ID, "user-7", embeddings);
    assert_eq!(points.len(), 2);
    assert_eq!(ids.len(), 2);
    for (p, id) in points.iter().zip(ids.iter()) {
        assert_eq!(p.id, *id);
        assert!(is_random_uuid(p.id));
        assert_eq!(p.id_text, uuid::Uuid::from_u128(p.id).to_string());
        assert_eq!(p.payload.source_id, "67e55044-10b1-426f-9247-bb680e5fe0c8");
        assert_eq!(p.payload.user_id, "user-7");
    }
    assert_ne!(ids[0], ids[1]);
    assert_eq!(points[0].payload.section_type, "resume_full");
    assert_eq!(points[0].payload.source_type, "resume_full");
    assert_eq!(points[0].payload.text, "all of it");
    assert_eq!(points[0].vector, vec![0.5f32, 1.0]);
    assert_eq!(points[1].payload.section_type, "resume_skills");
    assert_eq!(points[1].payload.source_type, "resume_skills");
    assert_eq!(points[1].payload.text, "rust");
    assert_eq!(points[1].vector, vec![0.25f32, 2.0]);
}

#[test]
fn no_embeddings_no_points() {
    let (points, ids) = plan_points::<Vec<f32>>(ID, "u", vec![]);
    assert!(points.is_empty());
    assert!(ids.is_empty());
}
