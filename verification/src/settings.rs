//! The saved model providers of the user's settings: adding or replacing
//! one by id, deleting one, and which one is the default.

use vstd::prelude::*;

verus! {

/// The saved providers, each under its id, and the id of the default one.
#[derive(Debug)]
pub struct SavedProviders<P> {
    pub providers: Vec<(String, P)>,
    pub default_provider_id: Option<String>,
}

/// The first position of `id` among `ps`, if any.
pub open spec fn first_with<P>(ps: Seq<(String, P)>, id: Seq<char>) -> Option<int>
    decreases ps.len(),
{
    if ps.len() == 0 {
        None
    } else {
        match first_with(ps.drop_last(), id) {
            Some(k) => Some(k),
            None => if ps.last().0@ == id {
                Some(ps.len() - 1)
            } else {
                None
            },
        }
    }
}

/// `ps` without the providers whose id is `id`, order kept.
pub open spec fn without<P>(ps: Seq<(String, P)>, id: Seq<char>) -> Seq<(String, P)>
    decreases ps.len(),
{
    if ps.len() == 0 {
        Seq::empty()
    } else if ps.last().0@ == id {
        without(ps.drop_last(), id)
    } else {
        without(ps.drop_last(), id).push(ps.last())
    }
}

proof fn lemma_first_with_found<P>(ps: Seq<(String, P)>, id: Seq<char>, j: int)
    requires
        0 <= j <= ps.len(),
        first_with(ps.take(j), id) is Some,
    ensures
        first_with(ps, id) == first_with(ps.take(j), id),
    decreases ps.len() - j,
{
    if j < ps.len() {
        assert(ps.take(j + 1).drop_last() =~= ps.take(j));
        lemma_first_with_found(ps, id, j + 1);
    } else {
        assert(ps.take(j) =~= ps);
    }
}

proof fn lemma_first_with_bound<P>(ps: Seq<(String, P)>, id: Seq<char>)
    ensures
        first_with(ps, id) matches Some(k) ==> 0 <= k < ps.len() && ps[k].0@ == id,
    decreases ps.len(),
{
    if ps.len() > 0 {
        lemma_first_with_bound(ps.drop_last(), id);
    }
}

/// `new` is `old` with `provider` saved under `id`: it replaces the first
/// provider with that id, or is added at the end, and becomes the default
/// when there is none.
pub open spec fn upserted<P>(old: SavedProviders<P>, id: String, provider: P, new: SavedProviders<P>) -> bool {
    &&& match first_with(old.providers@, id@) {
        Some(k) => new.providers@ == old.providers@.update(k, (id, provider)),
        None => new.providers@ == old.providers@.push((id, provider)),
    }
    &&& new.default_provider_id == match old.default_provider_id {
        Some(d) => Some(d),
        None => Some(id),
    }
}

/// `new` is `old` without the providers saved under `id`; when that was
/// the default, the first one left (if any) is.
pub open spec fn deleted<P>(old: SavedProviders<P>, id: Seq<char>, new: SavedProviders<P>) -> bool {
    &&& new.providers@ == without(old.providers@, id)
    &&& new.default_provider_id == if old.default_provider_id matches Some(d) && d@ == id {
        if new.providers@.len() > 0 {
            Some(new.providers@[0].0)
        } else {
            None
        }
    } else {
        old.default_provider_id
    }
}

proof fn lemma_without_drops<P>(ps: Seq<(String, P)>, id: Seq<char>)
    ensures
        forall|k: int| 0 <= k < without(ps, id).len() ==> (#[trigger] without(ps, id)[k]).0@ != id,
    decreases ps.len(),
{
    if ps.len() > 0 {
        lemma_without_drops(ps.drop_last(), id);
        let w = without(ps.drop_last(), id);
        if ps.last().0@ != id {
            assert forall|k: int| 0 <= k < without(ps, id).len() implies (#[trigger] without(ps, id)[k]).0@ != id by {
                if k < w.len() {
                    assert(without(ps, id)[k] == w[k]);
                }
            }
        }
    }
}

/// Once a provider is saved, it is there under its id, and some provider
/// is the default.
pub proof fn saved_provider_is_present<P>(old: SavedProviders<P>, id: String, provider: P, new: SavedProviders<P>)
    requires
        upserted(old, id, provider, new),
    ensures
        exists|k: int| 0 <= k < new.providers@.len() && (#[trigger] new.providers@[k]).0@ == id@,
        new.default_provider_id is Some,
{
    lemma_first_with_bound(old.providers@, id@);
    match first_with(old.providers@, id@) {
        Some(k) => {
            assert(new.providers@[k].0@ == id@);
        },
        None => {
            assert(new.providers@[old.providers@.len() as int].0@ == id@);
        },
    }
}

/// Once a provider is deleted, no provider is saved under its id and it is
/// not the default.
pub proof fn deleted_provider_is_gone<P>(old: SavedProviders<P>, id: Seq<char>, new: SavedProviders<P>)
    requires
        deleted(old, id, new),
    ensures
        forall|k: int| 0 <= k < new.providers@.len() ==> (#[trigger] new.providers@[k]).0@ != id,
        !(new.default_provider_id matches Some(d) && d@ == id),
{
    lemma_without_drops(old.providers@, id);
    if new.providers@.len() > 0 {
        assert(new.providers@[0].0@ != id);
    }
}

impl<P> SavedProviders<P> {
    /// Saves `provider` under `id`: it replaces the first provider with that
    /// id, or is added at the end; it becomes the default when there is
    /// none.
    pub fn upsert_provider(&mut self, id: String, provider: P)
        ensures
            upserted(*old(self), id, provider, *final(self)),
    {
        let mut i: usize = 0;
        let mut found: Option<usize> = None;
        assert(self.providers@.take(0).len() == 0);
        while i < self.providers.len() && found.is_none()
            invariant
                i <= self.providers@.len(),
                self.providers@ == old(self).providers@,
                found is None ==> first_with(self.providers@.take(i as int), id@) is None,
                found matches Some(k) ==> k < self.providers@.len() && first_with(self.providers@, id@) == Some(
                    k as int,
                ),
            decreases self.providers@.len() - i, if found is None { 1int } else { 0int },
        {
            assert(self.providers@.take(i + 1).drop_last() =~= self.providers@.take(i as int));
            if crate::text::str_eq(self.providers[i].0.as_str(), id.as_str()) {
                proof {
                    lemma_first_with_found(self.providers@, id@, i + 1);
                }
                found = Some(i);
            } else {
                i = i + 1;
            }
        }
        proof {
            if found is None {
                assert(self.providers@.take(self.providers@.len() as int) =~= self.providers@);
            }
        }
        if self.default_provider_id.is_none() {
            self.default_provider_id = Some(id.clone());
        }
        match found {
            Some(k) => {
                self.providers.set(k, (id, provider));
            },
            None => {
                self.providers.push((id, provider));
            },
        }
    }

    /// Deletes the providers saved under `id`; when it was the default, the
    /// first one left (if any) becomes the default.
    pub fn delete_provider(&mut self, id: &str)
        ensures
            deleted(*old(self), id@, *final(self)),
    {
        let mut old_providers: Vec<(String, P)> = Vec::new();
        std::mem::swap(&mut old_providers, &mut self.providers);
        let total = old_providers.len();
        let ghost all = old_providers@;
        let mut kept: Vec<(String, P)> = Vec::new();
        let mut rest = old_providers;
        let mut n: usize = 0;
        assert(all.take(0) =~= Seq::<(String, P)>::empty());
        while rest.len() > 0
            invariant
                all.len() == total,
                n + rest@.len() == all.len(),
                rest@ == all.subrange(n as int, all.len() as int),
                kept@ == without(all.take(n as int), id@),
            decreases rest@.len(),
        {
            let e = rest.remove(0);
            assert(all.take(n + 1).drop_last() =~= all.take(n as int));
            assert(all.take(n + 1).last() == e);
            if !crate::text::str_eq(e.0.as_str(), id) {
                kept.push(e);
            }
            n = n + 1;
            assert(rest@ =~= all.subrange(n as int, all.len() as int));
        }
        assert(all.take(n as int) =~= all);
        self.providers = kept;
        let was_default = match &self.default_provider_id {
            Some(d) => crate::text::str_eq(d.as_str(), id),
            None => false,
        };
        if was_default {
            self.default_provider_id = if self.providers.len() > 0 {
                Some(self.providers[0].0.clone())
            } else {
                None
            };
        }
    }
}

} // verus!
