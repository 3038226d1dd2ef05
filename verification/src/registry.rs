use vstd::prelude::*;

use crate::ids::LanguageModelProviderId;

verus! {

/// The index of the entry registered under `idv`, or -1 when no entry is.
pub open spec fn spec_index_of<P>(
    entries: Seq<(LanguageModelProviderId, P)>,
    idv: Seq<char>,
) -> int
    decreases entries.len(),
{
    if entries.len() == 0 {
        -1
    } else if entries.first().0.0@ == idv {
        0
    } else {
        let rest = spec_index_of(entries.drop_first(), idv);
        if rest == -1 {
            -1
        } else {
            rest + 1
        }
    }
}

/// `spec_index_of` finds an entry exactly when one carries the id.
pub proof fn lemma_spec_index_of<P>(entries: Seq<(LanguageModelProviderId, P)>, idv: Seq<char>)
    ensures
        spec_index_of(entries, idv) == -1 ==> forall|k: int|
            0 <= k < entries.len() ==> (#[trigger] entries[k]).0.0@ != idv,
        spec_index_of(entries, idv) != -1 ==> {
            &&& 0 <= spec_index_of(entries, idv) < entries.len()
            &&& entries[spec_index_of(entries, idv)].0.0@ == idv
        },
    decreases entries.len(),
{
    if entries.len() > 0 {
        lemma_spec_index_of(entries.drop_first(), idv);
        if spec_index_of(entries, idv) == -1 {
            assert forall|k: int| 0 <= k < entries.len() implies (#[trigger] entries[k]).0.0@
                != idv by {
                if k > 0 {
                    assert(entries.drop_first()[k - 1] == entries[k]);
                }
            }
        }
    }
}

/// The first match is found: if everything before `i` misses and `i` hits,
/// the index is `i`.
pub proof fn lemma_spec_index_of_first<P>(
    entries: Seq<(LanguageModelProviderId, P)>,
    idv: Seq<char>,
    i: int,
)
    requires
        0 <= i < entries.len(),
        forall|k: int| 0 <= k < i ==> (#[trigger] entries[k]).0.0@ != idv,
        entries[i].0.0@ == idv,
    ensures
        spec_index_of(entries, idv) == i,
    decreases i,
{
    if i > 0 {
        lemma_spec_index_of_first(entries.drop_first(), idv, i - 1);
    }
}

/// The process-wide mapping from provider id to provider instance, with
/// insertion-stable iteration order. The entry point callers use to
/// enumerate and select providers.
pub struct LanguageModelRegistry<P> {
    pub entries: Vec<(LanguageModelProviderId, P)>,
}

impl<P> LanguageModelRegistry<P> {
    /// The registry's invariant: provider ids are unique.
    pub open spec fn wf(&self) -> bool {
        forall|i: int, j: int|
            0 <= i < j < self.entries@.len() ==> (#[trigger] self.entries@[i]).0.0@ != (
            #[trigger] self.entries@[j]).0.0@
    }

    pub fn new() -> (r: LanguageModelRegistry<P>)
        ensures
            r.wf(),
            r.entries@.len() == 0,
    {
        LanguageModelRegistry { entries: Vec::new() }
    }

    /// Register a provider under its id. A new id is appended, keeping the
    /// iteration order insertion-stable; re-registering an existing id
    /// replaces that entry in place — last writer wins.
    pub fn register(&mut self, id: LanguageModelProviderId, provider: P)
        requires
            old(self).wf(),
        ensures
            final(self).wf(),
            spec_index_of(old(self).entries@, id.0@) == -1 ==> final(self).entries@ == old(
                self,
            ).entries@.push((id, provider)),
            spec_index_of(old(self).entries@, id.0@) != -1 ==> final(self).entries@ == old(
                self,
            ).entries@.update(spec_index_of(old(self).entries@, id.0@), (id, provider)),
    {
        let ghost orig = self.entries@;
        let ghost idv = id.0@;
        let len = self.entries.len();
        let mut i: usize = 0;
        while i < len
            invariant
                idv == id.0@,
                len == self.entries@.len(),
                self.entries@ == orig,
                orig == old(self).entries@,
                old(self).wf(),
                i <= len,
                forall|k: int| 0 <= k < i ==> (#[trigger] orig[k]).0.0@ != idv,
            decreases len - i,
        {
            if self.entries[i].0.0 == id.0 {
                proof {
                    lemma_spec_index_of_first(orig, idv, i as int);
                }
                let ghost hit = i as int;
                self.entries.remove(i);
                self.entries.insert(i, (id, provider));
                proof {
                    let updated = self.entries@;
                    assert(updated =~= orig.update(hit, (id, provider)));
                    assert forall|k: int| 0 <= k < updated.len() implies (
                    #[trigger] updated[k]).0.0@ == orig[k].0.0@ by {
                        if k == hit {
                            assert(updated[k].0.0@ == idv);
                            assert(orig[k].0.0@ == idv);
                        }
                    }
                }
                return ;
            }
            i = i + 1;
        }
        proof {
            lemma_spec_index_of(orig, idv);
            if spec_index_of(orig, idv) != -1 {
                assert(orig[spec_index_of(orig, idv)].0.0@ == idv);
                assert(false);
            }
        }
        self.entries.push((id, provider));
    }

    /// Look a provider up by id: the registered entry, or nothing when the
    /// id was never registered.
    pub fn lookup(&self, id: &LanguageModelProviderId) -> (r: Option<&P>)
        ensures
            match r {
                Some(p) => {
                    &&& spec_index_of(self.entries@, id.0@) != -1
                    &&& *p == self.entries@[spec_index_of(self.entries@, id.0@)].1
                },
                None => spec_index_of(self.entries@, id.0@) == -1,
            },
    {
        let len = self.entries.len();
        let mut i: usize = 0;
        while i < len
            invariant
                len == self.entries@.len(),
                i <= len,
                forall|k: int| 0 <= k < i ==> (#[trigger] self.entries@[k]).0.0@ != id.0@,
            decreases len - i,
        {
            if self.entries[i].0.0 == id.0 {
                proof {
                    lemma_spec_index_of_first(self.entries@, id.0@, i as int);
                }
                return Some(&self.entries[i].1);
            }
            i = i + 1;
        }
        proof {
            lemma_spec_index_of(self.entries@, id.0@);
            if spec_index_of(self.entries@, id.0@) != -1 {
                assert(false);
            }
        }
        None
    }

    /// All registered providers with their ids, in registration order.
    pub fn list(&self) -> (r: &Vec<(LanguageModelProviderId, P)>)
        ensures
            r@ == self.entries@,
    {
        &self.entries
    }
}

} // verus!
