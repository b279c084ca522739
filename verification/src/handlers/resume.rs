use vstd::prelude::*;

use crate::db::queries::views;
use crate::embedding::chunker::{embed_inputs, inputs_view, to_embed_inputs};
use crate::models::{
    DocumentParsedEvent, DocumentSections, SectionType, SourceKind, VectorsReadyEvent,
};

verus! {

/// How the handling of a document event ended.
#[derive(Debug, Clone, Copy, PartialEq, Eq, Structural)]
pub enum HandlerOutcome {
    /// No section of the document was long enough: nothing was embedded,
    /// stored or published.
    NothingToEmbed,
    /// The document's vectors replaced its old ones and their arrival was published.
    Processed,
    /// An outside step failed; nothing was done after it.
    Failed,
}

/// Where the handling of a document event stands: which outside step it
/// waits for, and what it holds for the steps after it.
pub enum HandlerStage<V> {
    AwaitingSections,
    AwaitingVectors { inputs: Vec<(SectionType, String)> },
    AwaitingDeletion { embeddings: Vec<(SectionType, String, V)> },
    AwaitingUpsert,
    AwaitingPublication,
    Finished,
}

/// What the outside step that the handler asked for gave back. `V` is the
/// type of one embedding vector.
pub enum HandlerEvent<V> {
    SectionsFetched(DocumentSections),
    VectorsEmbedded(Vec<V>),
    VectorsDeleted,
    VectorsUpserted(Vec<u128>),
    Published,
    /// The outside step failed.
    StepFailed,
}

/// The outside step that the handler asks for next.
pub enum HandlerAction<V> {
    /// Read the sections of the stored document.
    FetchSections { kind: SourceKind, source_id: u128 },
    /// Embed these texts, one vector per text, in order.
    EmbedTexts { texts: Vec<String> },
    /// Delete the vectors stored for the document.
    DeleteVectors { source_id: u128 },
    /// Store these embeddings for the document and its user.
    UpsertVectors { source_id: u128, user_id: String, embeddings: Vec<(SectionType, String, V)> },
    /// Publish that the document's vectors are ready.
    PublishVectorsReady { event: VectorsReadyEvent },
    /// Stop.
    Finish { outcome: HandlerOutcome },
}

/// The handling of one document event: the event and the stage reached.
pub struct DocumentHandler<V> {
    pub event: DocumentParsedEvent,
    pub stage: HandlerStage<V>,
}

/// The view of a list of embeddings.
pub open spec fn embeddings_view<V>(e: Seq<(SectionType, String, V)>) -> Seq<
    (SectionType, Seq<char>, V),
> {
    e.map_values(|t: (SectionType, String, V)| (t.0, t.1@, t.2))
}

/// Each input paired with the vector at the same place, as far as both go.
pub open spec fn pair_with_vectors<V>(inputs: Seq<(SectionType, Seq<char>)>, vectors: Seq<V>) -> Seq<
    (SectionType, Seq<char>, V),
> {
    let n = if inputs.len() <= vectors.len() {
        inputs.len()
    } else {
        vectors.len()
    };
    Seq::new(n, |i: int| (inputs[i].0, inputs[i].1, vectors[i]))
}

/// The texts of a list of embedding inputs.
pub open spec fn input_texts(inputs: Seq<(SectionType, Seq<char>)>) -> Seq<Seq<char>> {
    inputs.map_values(|p: (SectionType, Seq<char>)| p.1)
}

/// Whether the handler waits for an event of this kind. Every step that is
/// still to come may fail.
pub open spec fn accepts<V>(h: DocumentHandler<V>, ev: HandlerEvent<V>) -> bool {
    if ev is StepFailed {
        !(h.stage is Finished)
    } else {
        match h.stage {
        HandlerStage::AwaitingSections => ev is SectionsFetched,
        HandlerStage::AwaitingVectors { .. } => ev is VectorsEmbedded,
        HandlerStage::AwaitingDeletion { .. } => ev is VectorsDeleted,
        HandlerStage::AwaitingUpsert => ev is VectorsUpserted,
            HandlerStage::AwaitingPublication => ev is Published,
            HandlerStage::Finished => false,
        }
    }
}

/// One step of the handling: on event `ev`, the handler `h` becomes `next`
/// and asks for `action`. A failed outside step ends the handling at once.
pub open spec fn steps_to<V>(
    h: DocumentHandler<V>,
    ev: HandlerEvent<V>,
    next: DocumentHandler<V>,
    action: HandlerAction<V>,
) -> bool {
    &&& next.event == h.event
    &&& if ev is StepFailed {
        &&& !(h.stage is Finished)
        &&& next.stage is Finished
        &&& action == HandlerAction::<V>::Finish { outcome: HandlerOutcome::Failed }
    } else {
        proceeds_to(h, ev, next, action)
    }
}

/// A step on what a successful outside step gave back: the stage the handler
/// moves to and the next outside step it asks for.
pub open spec fn proceeds_to<V>(
    h: DocumentHandler<V>,
    ev: HandlerEvent<V>,
    next: DocumentHandler<V>,
    action: HandlerAction<V>,
) -> bool {
    match h.stage {
        HandlerStage::AwaitingSections => match ev {
            HandlerEvent::SectionsFetched(sections) => {
                let inputs = embed_inputs(sections, h.event.source_type);
                if inputs.len() == 0 {
                    &&& next.stage is Finished
                    &&& action == HandlerAction::<V>::Finish {
                        outcome: HandlerOutcome::NothingToEmbed,
                    }
                } else {
                    &&& next.stage matches HandlerStage::AwaitingVectors { inputs: held }
                        && inputs_view(held@) == inputs
                    &&& action matches HandlerAction::EmbedTexts { texts } && views(texts@)
                        == input_texts(inputs)
                }
            },
            _ => false,
        },
        HandlerStage::AwaitingVectors { inputs } => match ev {
            HandlerEvent::VectorsEmbedded(vectors) => {
                &&& next.stage matches HandlerStage::AwaitingDeletion { embeddings }
                    && embeddings_view(embeddings@) == pair_with_vectors(
                    inputs_view(inputs@),
                    vectors@,
                )
                &&& action == HandlerAction::<V>::DeleteVectors { source_id: h.event.source_id }
            },
            _ => false,
        },
        HandlerStage::AwaitingDeletion { embeddings } => match ev {
            HandlerEvent::VectorsDeleted => {
                &&& next.stage is AwaitingUpsert
                &&& action matches HandlerAction::UpsertVectors {
                    source_id,
                    user_id,
                    embeddings: stored,
                } && source_id == h.event.source_id && user_id@ == h.event.user_id@ && stored
                    == embeddings
            },
            _ => false,
        },
        HandlerStage::AwaitingUpsert => match ev {
            HandlerEvent::VectorsUpserted(ids) => {
                &&& next.stage is AwaitingPublication
                &&& action matches HandlerAction::PublishVectorsReady { event } && event.source_id
                    == h.event.source_id && event.source_type == h.event.source_type
                    && event.vector_ids@ == ids@
            },
            _ => false,
        },
        HandlerStage::AwaitingPublication => match ev {
            HandlerEvent::Published => {
                &&& next.stage is Finished
                &&& action == HandlerAction::<V>::Finish { outcome: HandlerOutcome::Processed }
            },
            _ => false,
        },
        HandlerStage::Finished => false,
    }
}

/// How far along the handling is.
pub open spec fn stage_rank<V>(stage: HandlerStage<V>) -> int {
    match stage {
        HandlerStage::AwaitingSections => 0,
        HandlerStage::AwaitingVectors { .. } => 1,
        HandlerStage::AwaitingDeletion { .. } => 2,
        HandlerStage::AwaitingUpsert => 3,
        HandlerStage::AwaitingPublication => 4,
        HandlerStage::Finished => 5,
    }
}

/// Every step moves the handling forward, so a handling takes at most five
/// steps; a finished handling waits for nothing.
pub proof fn lemma_steps_move_forward<V>(
    h: DocumentHandler<V>,
    ev: HandlerEvent<V>,
    next: DocumentHandler<V>,
    action: HandlerAction<V>,
)
    requires
        steps_to(h, ev, next, action),
    ensures
        stage_rank(next.stage) > stage_rank(h.stage),
        next.stage is Finished <==> action is Finish,
        next.stage is Finished ==> forall|e: HandlerEvent<V>| !accepts(next, e),
{
}

/// A document none of whose sections is long enough is finished at once,
/// with nothing embedded, deleted, stored or published; any other document
/// goes on to be embedded.
pub proof fn lemma_nothing_to_embed_finishes_at_once<V>(
    h: DocumentHandler<V>,
    sections: DocumentSections,
    next: DocumentHandler<V>,
    action: HandlerAction<V>,
)
    requires
        steps_to(h, HandlerEvent::SectionsFetched(sections), next, action),
    ensures
        embed_inputs(sections, h.event.source_type).len() == 0 <==> action == (HandlerAction::<
            V,
        >::Finish { outcome: HandlerOutcome::NothingToEmbed }),
        embed_inputs(sections, h.event.source_type).len() > 0 <==> action is EmbedTexts,
{
}

/// The embeddings stored for a document are its embedding inputs, in order,
/// each paired with the vector that the embedder gave back for it; and the
/// texts sent to the embedder are exactly the texts of those inputs.
pub proof fn lemma_stored_embeddings_are_the_embedded_inputs<V>(
    h0: DocumentHandler<V>,
    sections: DocumentSections,
    h1: DocumentHandler<V>,
    a1: HandlerAction<V>,
    vectors: Vec<V>,
    h2: DocumentHandler<V>,
    a2: HandlerAction<V>,
    h3: DocumentHandler<V>,
    a3: HandlerAction<V>,
)
    requires
        steps_to(h0, HandlerEvent::SectionsFetched(sections), h1, a1),
        steps_to(h1, HandlerEvent::VectorsEmbedded(vectors), h2, a2),
        steps_to(h2, HandlerEvent::VectorsDeleted, h3, a3),
    ensures
        a1 matches HandlerAction::EmbedTexts { texts } && views(texts@) == input_texts(
            embed_inputs(sections, h0.event.source_type),
        ),
        a2 == (HandlerAction::<V>::DeleteVectors { source_id: h0.event.source_id }),
        a3 matches HandlerAction::UpsertVectors { source_id, user_id, embeddings }
            && source_id == h0.event.source_id && user_id@ == h0.event.user_id@
            && embeddings_view(embeddings@) == pair_with_vectors(
            embed_inputs(sections, h0.event.source_type),
            vectors@,
        ),
{
}

/// Vectors are stored only right after the document's old vectors were
/// deleted, and the publication that follows names the document, its kind,
/// and exactly the identifiers under which the vectors were stored.
pub proof fn lemma_store_follows_delete_and_publication_names_stored_ids<V>(
    h: DocumentHandler<V>,
    ev: HandlerEvent<V>,
    next: DocumentHandler<V>,
    action: HandlerAction<V>,
)
    requires
        steps_to(h, ev, next, action),
    ensures
        action is UpsertVectors ==> ev is VectorsDeleted && h.stage is AwaitingDeletion,
        action matches HandlerAction::PublishVectorsReady { event } ==> {
            &&& ev matches HandlerEvent::VectorsUpserted(ids) && event.vector_ids@ == ids@
            &&& event.source_id == h.event.source_id
            &&& event.source_type == h.event.source_type
        },
        action is EmbedTexts ==> ev is SectionsFetched,
{
}

/// Once an outside step fails, the handling finishes as failed, asking for
/// nothing more: in particular, a failed embedding leaves the stored vectors
/// untouched, and a failed deletion stores nothing.
pub proof fn lemma_failure_stops_the_handling<V>(
    h: DocumentHandler<V>,
    ev: HandlerEvent<V>,
    next: DocumentHandler<V>,
    action: HandlerAction<V>,
)
    requires
        steps_to(h, ev, next, action),
    ensures
        ev is StepFailed <==> action == (HandlerAction::<V>::Finish {
            outcome: HandlerOutcome::Failed,
        }),
        ev is StepFailed ==> next.stage is Finished,
{
}

/// Copies a list of texts.
fn copy_texts(inputs: &Vec<(SectionType, String)>) -> (texts: Vec<String>)
    ensures
        views(texts@) == input_texts(inputs_view(inputs@)),
{
    let mut texts: Vec<String> = Vec::new();
    let n = inputs.len();
    for i in 0..n
        invariant
            n == inputs@.len(),
            texts@.len() == i,
            forall|j: int| 0 <= j < i ==> #[trigger] texts@[j]@ == inputs@[j].1@,
    {
        texts.push(inputs[i].1.clone());
    }
    assert(views(texts@) =~= input_texts(inputs_view(inputs@)));
    texts
}

/// Pairs each input with the vector at the same place, as far as both go.
fn pair_inputs_with_vectors<V>(inputs: &Vec<(SectionType, String)>, vectors: Vec<V>) -> (embeddings:
    Vec<(SectionType, String, V)>)
    ensures
        embeddings_view(embeddings@) == pair_with_vectors(inputs_view(inputs@), vectors@),
{
    let mut embeddings: Vec<(SectionType, String, V)> = Vec::new();
    let n = inputs.len();
    let ghost all = vectors@;
    for vector in it: vectors.into_iter()
        invariant
            n == inputs@.len(),
            it.seq() == all,
            embeddings@.len() == if it.index() <= n {
                it.index() as int
            } else {
                n as int
            },
            forall|i: int|
                0 <= i < embeddings@.len() ==> {
                    &&& (#[trigger] embeddings@[i]).0 == inputs@[i].0
                    &&& embeddings@[i].1@ == inputs@[i].1@
                    &&& embeddings@[i].2 == all[i]
                },
    {
        if embeddings.len() < n {
            let k = embeddings.len();
            let text = inputs[k].1.clone();
            embeddings.push((inputs[k].0, text, vector));
        }
    }
    assert(embeddings_view(embeddings@) =~= pair_with_vectors(inputs_view(inputs@), vectors@));
    embeddings
}

impl<V> DocumentHandler<V> {
    /// Starts handling `event`: first the sections of the document are read.
    pub fn start(event: DocumentParsedEvent) -> (started: (DocumentHandler<V>, HandlerAction<V>))
        ensures
            started.0.event == event,
            started.0.stage is AwaitingSections,
            started.1 == (HandlerAction::<V>::FetchSections {
                kind: event.source_type,
                source_id: event.source_id,
            }),
    {
        let action = HandlerAction::FetchSections {
            kind: event.source_type,
            source_id: event.source_id,
        };
        (DocumentHandler { event, stage: HandlerStage::AwaitingSections }, action)
    }

    /// Whether the handler waits for an event of the kind of `ev`.
    pub fn accepts_event(&self, ev: &HandlerEvent<V>) -> (accepted: bool)
        ensures
            accepted == accepts(*self, *ev),
    {
        if matches!(ev, HandlerEvent::StepFailed) {
            return !matches!(self.stage, HandlerStage::Finished);
        }
        match &self.stage {
            HandlerStage::AwaitingSections => matches!(ev, HandlerEvent::SectionsFetched(_)),
            HandlerStage::AwaitingVectors { .. } => matches!(ev, HandlerEvent::VectorsEmbedded(_)),
            HandlerStage::AwaitingDeletion { .. } => matches!(ev, HandlerEvent::VectorsDeleted),
            HandlerStage::AwaitingUpsert => matches!(ev, HandlerEvent::VectorsUpserted(_)),
            HandlerStage::AwaitingPublication => matches!(ev, HandlerEvent::Published),
            HandlerStage::Finished => false,
        }
    }

    /// Takes in what the last outside step gave back and decides the next one.
    pub fn step(self, ev: HandlerEvent<V>) -> (stepped: (DocumentHandler<V>, HandlerAction<V>))
        requires
            accepts(self, ev),
        ensures
            steps_to(self, ev, stepped.0, stepped.1),
    {
        let DocumentHandler { event, stage } = self;
        if matches!(ev, HandlerEvent::StepFailed) {
            return (
                DocumentHandler { event, stage: HandlerStage::Finished },
                HandlerAction::Finish { outcome: HandlerOutcome::Failed },
            );
        }
        match stage {
            HandlerStage::AwaitingSections => match ev {
                HandlerEvent::SectionsFetched(sections) => {
                    let inputs = to_embed_inputs(&sections, event.source_type);
                    if inputs.len() == 0 {
                        (
                            DocumentHandler { event, stage: HandlerStage::Finished },
                            HandlerAction::Finish { outcome: HandlerOutcome::NothingToEmbed },
                        )
                    } else {
                        let texts = copy_texts(&inputs);
                        (
                            DocumentHandler { event, stage: HandlerStage::AwaitingVectors { inputs } },
                            HandlerAction::EmbedTexts { texts },
                        )
                    }
                },
                _ => {
                    proof {
                        assert(false);
                    }
                    (DocumentHandler { event, stage: HandlerStage::Finished }, HandlerAction::Finish {
                        outcome: HandlerOutcome::NothingToEmbed,
                    })
                },
            },
            HandlerStage::AwaitingVectors { inputs } => match ev {
                HandlerEvent::VectorsEmbedded(vectors) => {
                    let embeddings = pair_inputs_with_vectors(&inputs, vectors);
                    let source_id = event.source_id;
                    (
                        DocumentHandler { event, stage: HandlerStage::AwaitingDeletion { embeddings } },
                        HandlerAction::DeleteVectors { source_id },
                    )
                },
                _ => {
                    proof {
                        assert(false);
                    }
                    (DocumentHandler { event, stage: HandlerStage::Finished }, HandlerAction::Finish {
                        outcome: HandlerOutcome::NothingToEmbed,
                    })
                },
            },
            HandlerStage::AwaitingDeletion { embeddings } => match ev {
                HandlerEvent::VectorsDeleted => {
                    let source_id = event.source_id;
                    let user_id = event.user_id.clone();
                    (
                        DocumentHandler { event, stage: HandlerStage::AwaitingUpsert },
                        HandlerAction::UpsertVectors { source_id, user_id, embeddings },
                    )
                },
                _ => {
                    proof {
                        assert(false);
                    }
                    (DocumentHandler { event, stage: HandlerStage::Finished }, HandlerAction::Finish {
                        outcome: HandlerOutcome::NothingToEmbed,
                    })
                },
            },
            HandlerStage::AwaitingUpsert => match ev {
                HandlerEvent::VectorsUpserted(vector_ids) => {
                    let ready = VectorsReadyEvent {
                        source_id: event.source_id,
                        source_type: event.source_type,
                        vector_ids,
                    };
                    (
                        DocumentHandler { event, stage: HandlerStage::AwaitingPublication },
                        HandlerAction::PublishVectorsReady { event: ready },
                    )
                },
                _ => {
                    proof {
                        assert(false);
                    }
                    (DocumentHandler { event, stage: HandlerStage::Finished }, HandlerAction::Finish {
                        outcome: HandlerOutcome::NothingToEmbed,
                    })
                },
            },
            HandlerStage::AwaitingPublication => {
                (
                    DocumentHandler { event, stage: HandlerStage::Finished },
                    HandlerAction::Finish { outcome: HandlerOutcome::Processed },
                )
            },
            HandlerStage::Finished => {
                proof {
                    assert(false);
                }
                (DocumentHandler { event, stage: HandlerStage::Finished }, HandlerAction::Finish {
                    outcome: HandlerOutcome::NothingToEmbed,
                })
            },
        }
    }
}

} // verus!
