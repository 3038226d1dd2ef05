use vstd::prelude::*;
use vstd::string::StringExecFns;

use crate::error::LanguageModelError;
use crate::ids::{LanguageModelProviderId, LanguageModelProviderName};
use crate::model::{OllamaLanguageModel, MAX_CONCURRENT_REQUESTS};
use crate::state::{kept_models, lex_leq, model_matches, name_bytes, State};

verus! {

/// What an `authenticate` or `reset_credentials` call asks the host to do
/// next. The probe itself is backend I/O (listing the backend's models), so
/// the host performs it and feeds the outcome back through
/// [`OllamaLanguageModelProvider::apply_probe_result`].
#[derive(Clone, Copy, Debug, PartialEq, Eq, Structural)]
pub enum AuthAction {
    /// Already authenticated: the call is an idempotent no-op success.
    AlreadyAuthenticated,
    /// Probe the backend and report its outcome back.
    Probe,
}

/// The provider for one backend family: it discovers models, answers for the
/// backend's authentication state, and hands out model instances built from
/// the current snapshot.
pub struct OllamaLanguageModelProvider {
    pub state: State,
}

impl OllamaLanguageModelProvider {
    /// The provider's invariant: its snapshot is well formed.
    pub open spec fn wf(&self) -> bool {
        self.state.wf()
    }

    /// A provider starts unauthenticated, with an empty snapshot; the host
    /// triggers the first probe (and one more on every settings change).
    pub fn new() -> (r: OllamaLanguageModelProvider)
        ensures
            r.wf(),
            r.state.available_models@.len() == 0,
    {
        OllamaLanguageModelProvider { state: State::new() }
    }

    pub fn id(&self) -> (r: LanguageModelProviderId)
        ensures
            r.0@ == "ollama"@,
    {
        LanguageModelProviderId(String::from_str("ollama"))
    }

    pub fn name(&self) -> (r: LanguageModelProviderName)
        ensures
            r.0@ == "Ollama"@,
    {
        LanguageModelProviderName(String::from_str("Ollama"))
    }

    /// One fresh model instance per snapshot entry, in snapshot order — and
    /// the snapshot is sorted by name, so the listing is deterministic. Each
    /// instance carries the entry's data, is identified by the model's name,
    /// and starts with an idle admission gate.
    pub fn provided_models(&self) -> (r: Vec<OllamaLanguageModel>)
        requires
            self.wf(),
        ensures
            r@.len() == self.state.available_models@.len(),
            forall|i: int|
                0 <= i < r@.len() ==> {
                    &&& (#[trigger] r@[i]).wf()
                    &&& model_matches(r@[i].model, self.state.available_models@[i])
                    &&& r@[i].id.0@ == self.state.available_models@[i].name@
                    &&& r@[i].request_limiter.capacity() == MAX_CONCURRENT_REQUESTS
                    &&& r@[i].request_limiter.in_flight() == 0
                },
            forall|i: int, j: int|
                0 <= i < j < r@.len() ==> lex_leq(
                    name_bytes(#[trigger] r@[i].model.name@),
                    name_bytes(#[trigger] r@[j].model.name@),
                ),
    {
        let models = &self.state.available_models;
        let len = models.len();
        let mut r: Vec<OllamaLanguageModel> = Vec::new();
        let mut i: usize = 0;
        while i < len
            invariant
                len == models@.len(),
                i <= len,
                r@.len() == i,
                forall|j: int|
                    0 <= j < i ==> {
                        &&& (#[trigger] r@[j]).wf()
                        &&& model_matches(r@[j].model, models@[j])
                        &&& r@[j].id.0@ == models@[j].name@
                        &&& r@[j].request_limiter.capacity() == MAX_CONCURRENT_REQUESTS
                        &&& r@[j].request_limiter.in_flight() == 0
                    },
            decreases len - i,
        {
            r.push(OllamaLanguageModel::new(models[i].clone()));
            i = i + 1;
        }
        r
    }

    /// Whether the backend is reachable and useful: true exactly when the
    /// last probe reported at least one model.
    pub fn is_authenticated(&self) -> (r: bool)
        ensures
            r == (self.state.available_models@.len() > 0),
    {
        self.state.is_authenticated()
    }

    /// Decide what authenticating requires right now: already authenticated
    /// is an idempotent no-op success; otherwise the backend must be probed.
    pub fn authenticate_action(&self) -> (r: AuthAction)
        ensures
            r == AuthAction::AlreadyAuthenticated <==> self.state.available_models@.len() > 0,
            r == AuthAction::Probe <==> self.state.available_models@.len() == 0,
    {
        if self.is_authenticated() {
            AuthAction::AlreadyAuthenticated
        } else {
            AuthAction::Probe
        }
    }

    /// Resetting credentials discards the cached snapshot's authority: the
    /// backend is probed afresh whatever the current state.
    pub fn reset_credentials_action(&self) -> (r: AuthAction)
        ensures
            r == AuthAction::Probe,
    {
        AuthAction::Probe
    }

    /// Fold one probe outcome into the provider's snapshot; see
    /// [`State::apply_probe_result`].
    pub fn apply_probe_result(&mut self, outcome: Result<Vec<String>, LanguageModelError>) -> (r:
        Result<(), LanguageModelError>)
        requires
            old(self).wf(),
        ensures
            final(self).wf(),
            outcome is Ok ==> {
                &&& r is Ok
                &&& final(self).state.available_models@.to_multiset() =~= kept_models(
                    outcome->Ok_0@,
                ).to_multiset()
            },
            outcome is Err ==> {
                &&& r == Result::<(), LanguageModelError>::Err(outcome->Err_0)
                &&& final(self).state == old(self).state
            },
    {
        self.state.apply_probe_result(outcome)
    }
}

} // verus!
