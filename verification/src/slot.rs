use vstd::prelude::*;
use vstd::rwlock::RwLock;
use vstd::rwlock::RwLockPredicate;

use fastembed::TextEmbedding;

use crate::engine::construct_model;
use crate::engine::embed_with;
use crate::engine::load_runtime;
use crate::engine::EMBEDDING_DIM;
use crate::errors::EmbedError;

verus! {

/// What the resource slot's lock may hold: any stage of the model's
/// lifecycle, absent (`None`) or ready (`Some`).
pub struct SlotInv;

impl RwLockPredicate<Option<TextEmbedding>> for SlotInv {
    open spec fn inv(self, v: Option<TextEmbedding>) -> bool {
        true
    }
}

/// Process-wide shared state: the resource slot holding the lazily
/// constructed model, guarded by an exclusive-access lock. Created empty at
/// process start, never cloned or persisted; every request goes through
/// `get_embedding`, which holds the lock for the whole request.
pub struct AppState {
    model: RwLock<Option<TextEmbedding>, SlotInv>,
}

impl AppState {
    /// Creates the slot in the absent state: no model constructed yet.
    pub fn new() -> AppState {
        AppState { model: RwLock::new(None, Ghost(SlotInv)) }
    }

    /// Handles one embedding request. Acquires exclusive access to the slot,
    /// blocking until it is free; if the slot is absent, loads the inference
    /// runtime and constructs the model (storing it on success, leaving the
    /// slot absent on any construction failure); runs one inference while
    /// still holding access; releases access on every path.
    ///
    /// A success has the model's fixed dimensionality. A failure is a
    /// construction or an inference failure from the engine; the verified
    /// lock cannot be poisoned, so no request fails for want of access.
    pub fn get_embedding(&self, text: String) -> (r: Result<Vec<u32>, EmbedError>)
        ensures
            r is Ok ==> r->Ok_0@.len() == EMBEDDING_DIM,
            r is Err ==> r->Err_0 is ConstructionFailure || r->Err_0 is InferenceFailure,
    {
        let (stored, handle) = self.model.acquire_write();
        let mut model: TextEmbedding;
        match stored {
            None => match load_runtime() {
                Err(msg) => {
                    handle.release_write(None);
                    return Err(EmbedError::ConstructionFailure(msg));
                },
                Ok(runtime) => match construct_model(&runtime) {
                    Ok(m) => {
                        model = m;
                    },
                    Err(msg) => {
                        handle.release_write(None);
                        return Err(EmbedError::ConstructionFailure(msg));
                    },
                },
            },
            Some(m) => {
                model = m;
            },
        }
        let outcome = embed_with(&mut model, text.as_str());
        handle.release_write(Some(model));
        match outcome {
            Ok(v) => Ok(v),
            Err(msg) => Err(EmbedError::InferenceFailure(msg)),
        }
    }
}

/// Law: any two successful results have the same length, whatever their
/// texts — the model's output dimensionality is fixed for the process.
pub proof fn lemma_fixed_dimension(v1: Seq<u32>, v2: Seq<u32>)
    requires
        v1.len() == EMBEDDING_DIM,
        v2.len() == EMBEDDING_DIM,
    ensures
        v1.len() == v2.len(),
{
}

} // verus!
