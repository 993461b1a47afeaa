use vstd::prelude::*;
use crate::cache::ResourceCache;

verus! {

/// A model of the embedded model library, as far as this provider tells
/// them apart.
#[derive(Debug, Clone, Copy, PartialEq, Eq, Structural)]
pub enum LocalModel {
    /// The all-MiniLM-L6-v2 sentence model.
    AllMiniLmL6V2,
    /// The BGE large English v1.5 model.
    BgeLargeEnV15,
    /// A model that the library knows and this provider does not offer.
    Unlisted,
}

/// What the embedded model library makes of a model name: `None` when it
/// knows no model of that name.
pub uninterp spec fn parsed_model(name: Seq<char>) -> Option<LocalModel>;

/// Relies on `fastembed::EmbeddingModel::from_str`: the model whose name
/// matches, if any, which depends on the name alone.
#[verifier::external_body]
fn parse_model_name(name: &str) -> (r: Option<LocalModel>)
    ensures
        r == parsed_model(name@),
{
    match name.parse::<fastembed::EmbeddingModel>() {
        Ok(fastembed::EmbeddingModel::AllMiniLML6V2) => Some(LocalModel::AllMiniLmL6V2),
        Ok(fastembed::EmbeddingModel::BGELargeENV15) => Some(LocalModel::BgeLargeEnV15),
        Ok(_) => Some(LocalModel::Unlisted),
        Err(_) => None,
    }
}

/// The allow-list of the local provider: model identifiers and the models
/// they stand for.
pub open spec fn allowed_models() -> Seq<(i32, LocalModel)> {
    seq![(0i32, LocalModel::AllMiniLmL6V2), (1i32, LocalModel::BgeLargeEnV15)]
}

/// The model that an identifier selects.
pub open spec fn model_for_id(model_id: i32) -> Option<LocalModel> {
    if model_id == 0 {
        Some(LocalModel::AllMiniLmL6V2)
    } else if model_id == 1 {
        Some(LocalModel::BgeLargeEnV15)
    } else {
        None
    }
}

/// The identifier under which a model is offered.
pub open spec fn id_for_model(model: LocalModel) -> Option<i32> {
    match model {
        LocalModel::AllMiniLmL6V2 => Some(0i32),
        LocalModel::BgeLargeEnV15 => Some(1i32),
        LocalModel::Unlisted => None,
    }
}

/// The identifier of the allowed model that a name selects.
pub open spec fn model_id_for_name(name: Seq<char>) -> Option<i32> {
    match parsed_model(name) {
        Some(m) => id_for_model(m),
        None => None,
    }
}

/// The in-process provider: runs a model of the embedded model library.
pub struct FastEmbedder;

impl FastEmbedder {
    /// The allow-list, in order.
    pub fn models() -> (r: Vec<(i32, LocalModel)>)
        ensures
            r@ == allowed_models(),
    {
        let r = vec![(0i32, LocalModel::AllMiniLmL6V2), (1i32, LocalModel::BgeLargeEnV15)];
        assert(r@ =~= allowed_models());
        r
    }

    /// Looks an identifier up in the allow-list.
    pub fn get_embedding_model(model_id: i32) -> (r: Option<LocalModel>)
        ensures
            r == model_for_id(model_id),
    {
        let models = Self::models();
        let mut i: usize = 0;
        while i < models.len()
            invariant
                models@ == allowed_models(),
                i <= models@.len(),
                forall|k: int| 0 <= k < i ==> models@[k].0 != model_id,
            decreases models@.len() - i,
        {
            if models[i].0 == model_id {
                return Some(models[i].1);
            }
            i = i + 1;
        }
        assert(models@[0].0 != model_id && models@[1].0 != model_id);
        None
    }

    /// The identifier of the allowed model that `model` names, if any.
    pub fn get_model_id(model: &str) -> (r: Option<i32>)
        ensures
            r == model_id_for_name(model@),
    {
        let parsed = match parse_model_name(model) {
            Some(m) => m,
            None => return None,
        };
        let models = Self::models();
        let mut i: usize = 0;
        while i < models.len()
            invariant
                models@ == allowed_models(),
                i <= models@.len(),
                parsed_model(model@) == Some(parsed),
                forall|k: int| 0 <= k < i ==> models@[k].1 != parsed,
            decreases models@.len() - i,
        {
            if models[i].1 == parsed {
                assert(i == 0 || i == 1);
                return Some(models[i].0);
            }
            i = i + 1;
        }
        assert(models@[0].1 != parsed && models@[1].1 != parsed);
        None
    }

    /// Whether the allow-list holds `model_id`; the cache is not consulted.
    pub fn supports_model_id(model_id: i32) -> (r: bool)
        ensures
            r == (model_for_id(model_id) is Some),
    {
        Self::get_embedding_model(model_id).is_some()
    }
}

/// What a call of the local provider does before inference.
#[derive(Debug, Clone, Copy, PartialEq, Eq, Structural)]
pub enum LocalStep {
    /// The identifier is not on the allow-list: the call fails.
    Unknown,
    /// This thread holds the model already: it is reused.
    Cached,
    /// This thread holds no instance yet: the model is loaded and kept.
    Load(LocalModel),
}

/// The step for `model_id` on a thread whose cache holds `cached`.
pub open spec fn step_for<R>(cached: Map<i32, R>, model_id: i32) -> LocalStep {
    match model_for_id(model_id) {
        None => LocalStep::Unknown,
        Some(m) => if cached.contains_key(model_id) {
            LocalStep::Cached
        } else {
            LocalStep::Load(m)
        },
    }
}

/// The cache after a step has run and, where it loaded, kept `loaded`.
pub open spec fn cache_after<R>(cached: Map<i32, R>, model_id: i32, loaded: R) -> Map<i32, R> {
    match step_for(cached, model_id) {
        LocalStep::Load(_) => cached.insert(model_id, loaded),
        _ => cached,
    }
}

impl FastEmbedder {
    /// Decides how a call for `model_id` gets its model on this thread.
    pub fn next_step<R>(cache: &ResourceCache<R>, model_id: i32) -> (r: LocalStep)
        requires
            cache.wf(),
        ensures
            r == step_for(cache.view(), model_id),
    {
        match Self::get_embedding_model(model_id) {
            None => LocalStep::Unknown,
            Some(m) => if cache.contains_key(model_id) {
                LocalStep::Cached
            } else {
                LocalStep::Load(m)
            },
        }
    }
}

/// Two calls on one thread with one allowed model identifier: whatever the
/// first had to do, the second finds the model cached and loads nothing.
pub proof fn lemma_second_call_reuses<R>(cached: Map<i32, R>, model_id: i32, loaded: R)
    requires
        model_for_id(model_id) is Some,
    ensures
        step_for(cache_after(cached, model_id, loaded), model_id) == LocalStep::Cached,
        cache_after(cache_after(cached, model_id, loaded), model_id, loaded) == cache_after(
            cached,
            model_id,
            loaded,
        ),
{
}

} // verus!
