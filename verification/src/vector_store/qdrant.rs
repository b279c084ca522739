use vstd::prelude::*;

use crate::ids::{is_random_uuid, new_random_uuid, uuid_string, uuid_text};
use crate::models::{SectionType, section_name};

verus! {

/// The number of dimensions of the stored vectors (those of the embedding model).
pub const VECTOR_SIZE: u64 = 1024;

/// How the vector store compares vectors.
#[derive(Debug, Clone, Copy, PartialEq, Eq, Structural)]
pub enum VectorDistance {
    Cosine,
    Dot,
    Euclid,
    Manhattan,
}

/// A collection to be created in the vector store.
pub struct CollectionRequest {
    pub collection_name: String,
    pub vector_size: u64,
    pub distance: VectorDistance,
}

/// The collection to create so that `collection_name` exists: none when it
/// exists already, else one of [`VECTOR_SIZE`]-dimensional vectors compared
/// by cosine distance.
pub fn collection_to_create(collection_name: &str, exists: bool) -> (request: Option<
    CollectionRequest,
>)
    ensures
        request is None <==> exists,
        request matches Some(r) ==> {
            &&& r.collection_name@ == collection_name@
            &&& r.vector_size == VECTOR_SIZE
            &&& r.distance == VectorDistance::Cosine
        },
{
    if exists {
        None
    } else {
        Some(
            CollectionRequest {
                collection_name: String::from_str(collection_name),
                vector_size: VECTOR_SIZE,
                distance: VectorDistance::Cosine,
            },
        )
    }
}

/// A condition that a payload field holds a given text.
pub struct FieldMatch {
    pub key: String,
    pub value: String,
}

/// The condition that picks the points stored for the document `source_id`:
/// their `source_id` payload field holds the text of that UUID.
pub fn source_filter(source_id: u128) -> (condition: FieldMatch)
    ensures
        condition.key@ == "source_id"@,
        condition.value@ == uuid_text(source_id),
{
    FieldMatch { key: String::from_str("source_id"), value: uuid_string(source_id) }
}

/// The payload stored with a point.
pub struct PointPayload {
    pub source_id: String,
    pub user_id: String,
    pub source_type: String,
    pub section_type: String,
    pub text: String,
}

/// A point to be stored: its identifier (and the identifier's text), its
/// vector and its payload.
pub struct PointPlan<V> {
    pub id: u128,
    pub id_text: String,
    pub vector: V,
    pub payload: PointPayload,
}

/// Whether `point` stores `embedding` of the document `source_id` of the user
/// `user_id`. The payload's `source_type` and `section_type` both hold the
/// section's name.
pub open spec fn stores_embedding<V>(
    point: PointPlan<V>,
    source_id: u128,
    user_id: Seq<char>,
    embedding: (SectionType, String, V),
) -> bool {
    &&& is_random_uuid(point.id)
    &&& point.id_text@ == uuid_text(point.id)
    &&& point.vector == embedding.2
    &&& point.payload.source_id@ == uuid_text(source_id)
    &&& point.payload.user_id@ == user_id
    &&& point.payload.source_type@ == section_name(embedding.0)
    &&& point.payload.section_type@ == section_name(embedding.0)
    &&& point.payload.text@ == embedding.1@
}

/// The points that store the embeddings of the document `source_id`, one per
/// embedding and in the same order, each under a fresh random identifier; and
/// those identifiers, in the same order.
pub fn plan_points<V>(source_id: u128, user_id: &str, embeddings: Vec<(SectionType, String, V)>) -> (planned: (
    Vec<PointPlan<V>>,
    Vec<u128>,
))
    ensures
        planned.0.len() == embeddings.len(),
        planned.1.len() == embeddings.len(),
        forall|i: int|
            0 <= i < embeddings.len() ==> {
                &&& stores_embedding(#[trigger] planned.0@[i], source_id, user_id@, embeddings@[i])
                &&& planned.1@[i] == planned.0@[i].id
            },
{
    let mut points: Vec<PointPlan<V>> = Vec::with_capacity(embeddings.len());
    let mut vector_ids: Vec<u128> = Vec::with_capacity(embeddings.len());
    let ghost all = embeddings@;
    for embedding in it: embeddings.into_iter()
        invariant
            it.seq() == all,
            points.len() == it.index(),
            vector_ids.len() == it.index(),
            forall|i: int|
                0 <= i < it.index() ==> {
                    &&& stores_embedding(#[trigger] points@[i], source_id, user_id@, all[i])
                    &&& vector_ids@[i] == points@[i].id
                },
    {
        let (section_type, text, vector) = embedding;
        let id = new_random_uuid();
        let name = section_type.as_str();
        let payload = PointPayload {
            source_id: uuid_string(source_id),
            user_id: String::from_str(user_id),
            source_type: String::from_str(name),
            section_type: String::from_str(name),
            text,
        };
        vector_ids.push(id);
        points.push(PointPlan { id, id_text: uuid_string(id), vector, payload });
    }
    (points, vector_ids)
}

} // verus!
