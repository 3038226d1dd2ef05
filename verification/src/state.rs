use vstd::assert_multisets_equal;
use vstd::multiset::Multiset;
use vstd::prelude::*;

use crate::error::LanguageModelError;

verus! {

/// Per-provider settings a host hands in: the backend's URL and the
/// low-activity timeout (in milliseconds) the transport enforces.
#[derive(Clone, Debug)]
pub struct OllamaSettings {
    pub api_url: String,
    pub low_speed_timeout_ms: Option<u64>,
}

/// The context window assumed for a model the backend reports nothing
/// further about.
pub const DEFAULT_CONTEXT_WINDOW: usize = 2048;

/// One model of the backend's snapshot, as the provider keeps it: its name
/// (which doubles as its identifier), its context window, and the keep-alive
/// wire parameter, if any was configured.
#[derive(Debug)]
pub struct OllamaModel {
    pub name: String,
    pub max_tokens: usize,
    pub keep_alive: Option<String>,
}

/// Whether two model entries carry the same data, field by field.
pub open spec fn model_matches(a: OllamaModel, b: OllamaModel) -> bool {
    &&& a.name@ == b.name@
    &&& a.max_tokens == b.max_tokens
    &&& (match (a.keep_alive, b.keep_alive) {
        (Some(x), Some(y)) => x@ == y@,
        (None, None) => true,
        _ => false,
    })
}

impl Clone for OllamaModel {
    fn clone(&self) -> (r: Self)
        ensures
            model_matches(r, *self),
    {
        OllamaModel {
            name: self.name.clone(),
            max_tokens: self.max_tokens,
            keep_alive: match &self.keep_alive {
                Some(k) => Some(k.clone()),
                None => None,
            },
        }
    }
}

/// The model entry built for one discovered model name.
pub open spec fn spec_model_of(name: String) -> OllamaModel {
    OllamaModel { name, max_tokens: DEFAULT_CONTEXT_WINDOW, keep_alive: None }
}

impl OllamaModel {
    pub fn new(name: String) -> (m: OllamaModel)
        ensures
            m == spec_model_of(name),
    {
        OllamaModel { name, max_tokens: DEFAULT_CONTEXT_WINDOW, keep_alive: None }
    }
}

/// Byte-wise lexicographic order on names, the order model names are listed
/// in. A prefix precedes every extension of itself.
pub open spec fn lex_leq(a: Seq<u8>, b: Seq<u8>) -> bool
    decreases a.len(),
{
    if a.len() == 0 {
        true
    } else if b.len() == 0 {
        false
    } else if a.first() < b.first() {
        true
    } else if a.first() > b.first() {
        false
    } else {
        lex_leq(a.drop_first(), b.drop_first())
    }
}

/// Any two byte sequences are ordered one way or the other.
pub proof fn lemma_lex_leq_total(a: Seq<u8>, b: Seq<u8>)
    ensures
        lex_leq(a, b) || lex_leq(b, a),
    decreases a.len(),
{
    if a.len() > 0 && b.len() > 0 && a.first() == b.first() {
        lemma_lex_leq_total(a.drop_first(), b.drop_first());
    }
}

/// The lexicographic order is transitive.
pub proof fn lemma_lex_leq_trans(a: Seq<u8>, b: Seq<u8>, c: Seq<u8>)
    requires
        lex_leq(a, b),
        lex_leq(b, c),
    ensures
        lex_leq(a, c),
    decreases a.len(),
{
    if a.len() > 0 && b.len() > 0 && c.len() > 0 && a.first() == b.first() && b.first()
        == c.first() {
        lemma_lex_leq_trans(a.drop_first(), b.drop_first(), c.drop_first());
    }
}

/// Compare two byte slices lexicographically.
fn lex_leq_bytes(a: &[u8], b: &[u8]) -> (r: bool)
    ensures
        r == lex_leq(a@, b@),
{
    let a_len = a.len();
    let b_len = b.len();
    let mut i: usize = 0;
    proof {
        assert(a@.skip(0) =~= a@);
        assert(b@.skip(0) =~= b@);
    }
    while i < a_len && i < b_len
        invariant
            a_len == a@.len(),
            b_len == b@.len(),
            i <= a_len,
            i <= b_len,
            lex_leq(a@, b@) == lex_leq(a@.skip(i as int), b@.skip(i as int)),
            lex_leq(b@, a@) == lex_leq(b@.skip(i as int), a@.skip(i as int)),
        decreases a_len - i,
    {
        let x = a[i];
        let y = b[i];
        if x < y {
            return true;
        }
        if y < x {
            return false;
        }
        proof {
            assert(a@.skip(i as int).drop_first() =~= a@.skip(i as int + 1));
            assert(b@.skip(i as int).drop_first() =~= b@.skip(i as int + 1));
        }
        i = i + 1;
    }
    a_len <= b_len
}

/// The UTF-8 bytes a name is compared and searched by.
pub open spec fn name_bytes(name: Seq<char>) -> Seq<u8> {
    vstd::utf8::encode_utf8(name)
}

/// Compare two names in byte-wise lexicographic order.
pub fn name_leq(a: &str, b: &str) -> (r: bool)
    ensures
        r == lex_leq(name_bytes(a@), name_bytes(b@)),
{
    lex_leq_bytes(a.as_bytes(), b.as_bytes())
}

/// Whether `needle` occurs contiguously inside `hay`.
pub open spec fn contains_subseq(hay: Seq<u8>, needle: Seq<u8>) -> bool {
    exists|k: int|
        0 <= k && k + needle.len() <= hay.len() && #[trigger] hay.subrange(k, k + needle.len())
            == needle
}

/// Search for `needle` inside `hay`, front to back.
fn contains_bytes(hay: &[u8], needle: &[u8]) -> (r: bool)
    ensures
        r == contains_subseq(hay@, needle@),
{
    let h_len = hay.len();
    let n_len = needle.len();
    if n_len > h_len {
        return false;
    }
    let mut k: usize = 0;
    while k <= h_len - n_len
        invariant
            h_len == hay@.len(),
            n_len == needle@.len(),
            n_len <= h_len,
            k <= h_len - n_len + 1,
            forall|j: int|
                0 <= j < k ==> #[trigger] hay@.subrange(j, j + needle@.len()) != needle@,
        decreases h_len - k,
    {
        let mut t: usize = 0;
        let mut mismatch = false;
        while t < n_len
            invariant
                h_len == hay@.len(),
                n_len == needle@.len(),
                k + n_len <= h_len,
                t <= n_len,
                !mismatch ==> hay@.subrange(k as int, k + t as int) == needle@.subrange(
                    0,
                    t as int,
                ),
                mismatch ==> hay@.subrange(k as int, k + needle@.len() as int) != needle@,
            decreases n_len - t,
        {
            if hay[k + t] != needle[t] {
                proof {
                    let full = hay@.subrange(k as int, k + needle@.len() as int);
                    assert(full[t as int] == hay@[k + t as int]);
                }
                mismatch = true;
                t = n_len;
            } else {
                proof {
                    assert(hay@.subrange(k as int, k + t as int + 1) =~= hay@.subrange(
                        k as int,
                        k + t as int,
                    ).push(hay@[k + t as int]));
                    assert(needle@.subrange(0, t as int + 1) =~= needle@.subrange(
                        0,
                        t as int,
                    ).push(needle@[t as int]));
                }
                t = t + 1;
            }
        }
        if !mismatch {
            proof {
                assert(hay@.subrange(k as int, k + needle@.len() as int) =~= needle@.subrange(
                    0,
                    needle@.len() as int,
                ));
                assert(needle@.subrange(0, needle@.len() as int) =~= needle@);
                assert(contains_subseq(hay@, needle@));
            }
            return true;
        }
        proof {
            if n_len == 0 {
                assert(hay@.subrange(k as int, k as int) =~= needle@);
            }
        }
        k = k + 1;
    }
    false
}

/// The backend's listing does not say which models are embedding models, so
/// the provider filters out those whose name carries the embedding marker.
pub open spec fn is_embedding_name(name: Seq<char>) -> bool {
    contains_subseq(name_bytes(name), name_bytes("-embed"@))
}

/// Whether a discovered model name denotes an embedding model.
pub fn is_embedding_model_name(name: &str) -> (r: bool)
    ensures
        r == is_embedding_name(name@),
{
    contains_bytes(name.as_bytes(), "-embed".as_bytes())
}

/// The model entries kept from a backend listing: one per non-embedding
/// name, in listing order.
pub open spec fn kept_models(names: Seq<String>) -> Seq<OllamaModel>
    decreases names.len(),
{
    if names.len() == 0 {
        Seq::empty()
    } else {
        let rest = kept_models(names.drop_first());
        if is_embedding_name(names.first()@) {
            rest
        } else {
            seq![spec_model_of(names.first())] + rest
        }
    }
}

/// Whether a snapshot is sorted by model name (byte-wise lexicographically).
pub open spec fn models_sorted(models: Seq<OllamaModel>) -> bool {
    forall|i: int, j: int|
        0 <= i < j < models.len() ==> lex_leq(
            name_bytes(models[i].name@),
            name_bytes(models[j].name@),
        )
}

/// Insert one model into a name-sorted snapshot, keeping it sorted.
fn insert_sorted(models: &mut Vec<OllamaModel>, m: OllamaModel)
    requires
        models_sorted(old(models)@),
    ensures
        models_sorted(final(models)@),
        final(models)@.to_multiset() =~= old(models)@.to_multiset().insert(m),
        final(models)@.len() == old(models)@.len() + 1,
{
    broadcast use vstd::seq_lib::group_to_multiset_ensures;
    broadcast use vstd::seq_lib::to_multiset_insert;

    let ghost orig = models@;
    let ghost mb = name_bytes(m.name@);
    let len = models.len();
    let mut idx: usize = 0;
    loop
        invariant
            mb == name_bytes(m.name@),
            len == models@.len(),
            models@ == orig,
            idx <= len,
            forall|j: int| 0 <= j < idx ==> !lex_leq(mb, name_bytes(#[trigger] models@[j].name@)),
        ensures
            idx <= len,
            forall|j: int| 0 <= j < idx ==> !lex_leq(mb, name_bytes(#[trigger] models@[j].name@)),
            idx < len ==> lex_leq(mb, name_bytes(models@[idx as int].name@)),
        decreases len - idx,
    {
        if idx == len {
            break ;
        }
        let next_goes_first = name_leq(m.name.as_str(), models[idx].name.as_str());
        if next_goes_first {
            break ;
        }
        idx = idx + 1;
    }
    proof {
        assert forall|j: int| 0 <= j < idx implies lex_leq(name_bytes(orig[j].name@), mb) by {
            lemma_lex_leq_total(mb, name_bytes(orig[j].name@));
        }
        if idx < len {
            assert forall|j: int| idx <= j < len implies lex_leq(
                mb,
                name_bytes(#[trigger] orig[j].name@),
            ) by {
                if idx < j {
                    lemma_lex_leq_trans(
                        mb,
                        name_bytes(orig[idx as int].name@),
                        name_bytes(orig[j].name@),
                    );
                }
            }
        }
    }
    models.insert(idx, m);
    proof {
        let s = models@;
        assert(s == orig.insert(idx as int, m));
        assert forall|i: int, j: int| 0 <= i < j < s.len() implies lex_leq(
            name_bytes(s[i].name@),
            name_bytes(s[j].name@),
        ) by {
            assert(s[idx as int] == m);
        }
        assert(s.to_multiset() =~= orig.to_multiset().insert(m));
    }
}

/// Normalize a backend listing into a snapshot: drop embedding models, build
/// one entry per remaining name, and sort the entries by name.
pub fn normalize_models(names: Vec<String>) -> (out: Vec<OllamaModel>)
    ensures
        models_sorted(out@),
        out@.to_multiset() =~= kept_models(names@).to_multiset(),
{
    broadcast use vstd::seq_lib::group_to_multiset_ensures;

    let mut out: Vec<OllamaModel> = Vec::new();
    let n = names.len();
    let mut i: usize = 0;
    let mut names = names;
    let ghost all_names = names@;
    proof {
        assert(all_names.skip(0) =~= all_names);
    }
    // Names are consumed from the front; `names` keeps the tail.
    while i < n
        invariant
            n == all_names.len(),
            i <= n,
            names@ == all_names.skip(i as int),
            models_sorted(out@),
            kept_models(all_names).to_multiset() =~= out@.to_multiset().add(
                kept_models(all_names.skip(i as int)).to_multiset(),
            ),
        decreases n - i,
    {
        proof {
            assert(all_names.skip(i as int).drop_first() =~= all_names.skip(i as int + 1));
        }
        let ghost tail = all_names.skip(i as int);
        let name = names.remove(0);
        if !is_embedding_model_name(name.as_str()) {
            proof {
                broadcast use vstd::seq_lib::to_multiset_insert;

                let one = seq![spec_model_of(tail.first())];
                let rest = kept_models(tail.drop_first());
                assert(kept_models(tail) =~= one + rest);
                assert(one + rest =~= rest.insert(0, spec_model_of(tail.first())));
                assert(kept_models(tail).to_multiset() =~= rest.to_multiset().insert(
                    spec_model_of(tail.first()),
                ));
            }
            insert_sorted(&mut out, OllamaModel::new(name));
            proof {
                assert_multisets_equal!(
                    kept_models(all_names).to_multiset(),
                    out@.to_multiset().add(kept_models(all_names.skip(i as int + 1)).to_multiset())
                );
            }
        }
        i = i + 1;
    }
    proof {
        assert(all_names.skip(n as int) =~= Seq::<String>::empty());
        assert(out@.to_multiset().add(Multiset::<OllamaModel>::empty()) =~= out@.to_multiset());
    }
    out
}

/// The mutable, observable snapshot a provider owns: the models the backend
/// reported at the last successful probe, sorted by name. It is replaced as
/// a whole on every successful probe, so a reader never sees a partial
/// update.
pub struct State {
    pub available_models: Vec<OllamaModel>,
}

impl State {
    /// The snapshot's invariant: entries are sorted by name.
    pub open spec fn wf(&self) -> bool {
        models_sorted(self.available_models@)
    }

    /// A provider starts with an empty snapshot, hence unauthenticated.
    pub fn new() -> (s: State)
        ensures
            s.wf(),
            s.available_models@.len() == 0,
    {
        State { available_models: Vec::new() }
    }

    /// A self-hosted backend counts as authenticated exactly when its last
    /// probe reported at least one usable model.
    pub fn is_authenticated(&self) -> (r: bool)
        ensures
            r == (self.available_models@.len() > 0),
    {
        !self.available_models.is_empty()
    }

    /// Fail fast before any network work when the provider has no usable
    /// model: callers gate every completion call on this.
    pub fn check_authenticated(&self) -> (r: Result<(), LanguageModelError>)
        ensures
            r is Ok <==> self.available_models@.len() > 0,
            r is Err ==> r == Result::<(), LanguageModelError>::Err(
                LanguageModelError::AuthenticationRequired,
            ),
    {
        if self.is_authenticated() {
            Ok(())
        } else {
            Err(LanguageModelError::AuthenticationRequired)
        }
    }

    /// Fold the outcome of one backend probe into the snapshot. A successful
    /// probe replaces the snapshot atomically with the normalized listing; a
    /// failed probe is non-fatal and leaves the snapshot untouched, and the
    /// error is handed back for the caller to report.
    pub fn apply_probe_result(&mut self, outcome: Result<Vec<String>, LanguageModelError>) -> (r:
        Result<(), LanguageModelError>)
        requires
            old(self).wf(),
        ensures
            final(self).wf(),
            outcome is Ok ==> {
                &&& r is Ok
                &&& final(self).available_models@.to_multiset() =~= kept_models(
                    outcome->Ok_0@,
                ).to_multiset()
            },
            outcome is Err ==> {
                &&& r == Result::<(), LanguageModelError>::Err(outcome->Err_0)
                &&& *final(self) == *old(self)
            },
    {
        match outcome {
            Ok(names) => {
                self.available_models = normalize_models(names);
                Ok(())
            },
            Err(e) => Err(e),
        }
    }
}

} // verus!
