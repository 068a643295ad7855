//! Per-chip delivery state: the host attachment of the worker thread and the
//! memoized class and method handles that callbacks go through.
use vstd::prelude::*;
use vstd::string::StringExecFns;

use crate::registry::{ids_of, value_of, unique_ids};

verus! {

/// Memo of handles resolved by name through the host runtime.
///
/// The cache only grows: once a name is resolved its handle stays, because a
/// loaded host class keeps its identity for the life of the process.
pub struct HandleCache<H> {
    entries: Vec<(String, H)>,
}

impl<H> View for HandleCache<H> {
    type V = Seq<(Seq<char>, H)>;

    closed spec fn view(&self) -> Seq<(Seq<char>, H)> {
        self.entries@.map_values(|e: (String, H)| (e.0@, e.1))
    }
}

impl<H> HandleCache<H> {
    pub closed spec fn wf(&self) -> bool {
        unique_ids(self@)
    }

    /// An empty cache.
    pub fn new() -> (r: HandleCache<H>)
        ensures
            r.wf(),
            r@ == Seq::<(Seq<char>, H)>::empty(),
    {
        let r = HandleCache { entries: Vec::new() };
        assert(r@ =~= Seq::<(Seq<char>, H)>::empty());
        r
    }

    /// Number of resolved names.
    pub fn len(&self) -> (r: usize)
        ensures
            r == self@.len(),
    {
        self.entries.len()
    }

    /// The handle cached under a name.
    pub fn get(&self, key: &str) -> (r: Option<&H>)
        requires
            self.wf(),
        ensures
            match r {
                Some(v) => value_of(self@, key@) == Some(*v),
                None => value_of(self@, key@) is None,
            },
    {
        let wanted = key.to_owned();
        let mut i: usize = 0;
        while i < self.entries.len()
            invariant
                i <= self.entries@.len(),
                wanted@ == key@,
                self.wf(),
                forall|j: int| 0 <= j < i ==> self@[j].0 != key@,
            decreases self.entries@.len() - i,
        {
            if self.entries[i].0 == wanted {
                proof {
                    crate::registry::lemma_value_of_index(self@, i as int);
                }
                return Some(&self.entries[i].1);
            }
            i = i + 1;
        }
        proof {
            if ids_of(self@).contains(key@) {
                let j = choose|j: int| 0 <= j < self@.len() && self@[j].0 == key@;
                assert(self@[j].0 != key@);
            }
        }
        None
    }

    /// Caches a handle under a name that is not cached yet; a name already
    /// cached keeps its first handle.
    pub fn insert(&mut self, key: String, value: H)
        requires
            old(self).wf(),
        ensures
            final(self).wf(),
            value_of(old(self)@, key@) is Some ==> final(self)@ == old(self)@,
            value_of(old(self)@, key@) is None ==> final(self)@ == old(self)@.push((key@, value)),
    {
        if self.get(key.as_str()).is_some() {
            return;
        }
        let ghost prev = self@;
        let ghost kv = key@;
        self.entries.push((key, value));
        proof {
            assert(self@ =~= prev.push((kv, value)));
            assert forall|i: int, j: int| 0 <= i < j < self@.len() implies self@[i].0 != self@[j].0 by {
                if j == prev.len() {
                    assert(prev[i].0 != kv) by {
                        if prev[i].0 == kv {
                            assert(ids_of(prev).contains(kv));
                        }
                    }
                }
            }
        }
    }
}

/// Resolving a name again after caching it finds the handle first cached,
/// and caching never drops or replaces an earlier entry.
pub proof fn lemma_cache_keeps_first<H>(s: Seq<(Seq<char>, H)>, key: Seq<char>, value: H, other: Seq<char>)
    requires
        unique_ids(s.push((key, value))),
    ensures
        value_of(s.push((key, value)), key) == Some(value),
        other != key ==> value_of(s.push((key, value)), other) == value_of(s, other),
{
    let t = s.push((key, value));
    crate::registry::lemma_value_of_index(t, s.len() as int);
    if other != key {
        if ids_of(s).contains(other) {
            let i = choose|i: int| 0 <= i < s.len() && s[i].0 == other;
            assert(t[i] == s[i]);
            assert(unique_ids(s)) by {
                assert forall|a: int, b: int| 0 <= a < b < s.len() implies s[a].0 != s[b].0 by {
                    assert(t[a] == s[a] && t[b] == s[b]);
                }
            }
            crate::registry::lemma_value_of_index(t, i);
            crate::registry::lemma_value_of_index(s, i);
        } else {
            assert(!ids_of(t).contains(other)) by {
                if ids_of(t).contains(other) {
                    let i = choose|i: int| 0 <= i < t.len() && t[i].0 == other;
                    assert(i < s.len());
                    assert(t[i] == s[i]);
                }
            }
        }
    }
}

/// The key under which a callback method is cached: its name followed by its
/// signature.
pub fn method_key(name: &str, sig: &str) -> (r: String)
    ensures
        r@ == name@ + sig@,
{
    name.to_owned().concat(sig)
}

/// Everything needed to build a chip's callback state on its worker thread.
pub struct UwbServiceCallbackBuilderImpl<V, C> {
    vm: V,
    callback_obj: C,
    class_loader_obj: C,
}

impl<V, C> UwbServiceCallbackBuilderImpl<V, C> {
    pub fn new(vm: V, callback_obj: C, class_loader_obj: C) -> (r: Self)
        ensures
            r.spec_vm() == vm,
            r.spec_callback_obj() == callback_obj,
            r.spec_class_loader_obj() == class_loader_obj,
    {
        UwbServiceCallbackBuilderImpl { vm, callback_obj, class_loader_obj }
    }

    pub closed spec fn spec_vm(&self) -> V {
        self.vm
    }

    pub closed spec fn spec_callback_obj(&self) -> C {
        self.callback_obj
    }

    pub closed spec fn spec_class_loader_obj(&self) -> C {
        self.class_loader_obj
    }

    /// The host runtime that worker threads attach to.
    pub fn runtime(&self) -> (r: &V)
        ensures
            *r == self.spec_vm(),
    {
        &self.vm
    }

    /// Finishes the callback state once the worker thread holds `env`, its
    /// attachment to the host runtime; the caches start empty.
    pub fn build_with<A, M>(self, env: A) -> (r: UwbServiceCallbackImpl<A, M, C>)
        ensures
            r.wf(),
            r.spec_env() == env,
            r.spec_callback_obj() == self.spec_callback_obj(),
            r.spec_class_loader_obj() == self.spec_class_loader_obj(),
            r.methods()@.len() == 0,
            r.classes()@.len() == 0,
    {
        UwbServiceCallbackImpl::new(env, self.class_loader_obj, self.callback_obj)
    }
}

/// Callback state of one chip: the attachment `A` of the worker thread, the
/// callback target and class loader `C`, and the caches of method handles `M`
/// and class handles.
///
/// The attachment is owned here and released exactly once, when this value
/// is dropped.
pub struct UwbServiceCallbackImpl<A, M, C> {
    env: A,
    class_loader_obj: C,
    callback_obj: C,
    jmethod_id_map: HandleCache<M>,
    jclass_map: HandleCache<C>,
}

impl<A, M, C> UwbServiceCallbackImpl<A, M, C> {
    pub closed spec fn wf(&self) -> bool {
        self.jmethod_id_map.wf() && self.jclass_map.wf()
    }

    pub closed spec fn spec_env(&self) -> A {
        self.env
    }

    pub closed spec fn spec_callback_obj(&self) -> C {
        self.callback_obj
    }

    pub closed spec fn spec_class_loader_obj(&self) -> C {
        self.class_loader_obj
    }

    pub closed spec fn methods(&self) -> HandleCache<M> {
        self.jmethod_id_map
    }

    pub closed spec fn classes(&self) -> HandleCache<C> {
        self.jclass_map
    }

    /// Callback state with empty caches.
    pub fn new(env: A, class_loader_obj: C, callback_obj: C) -> (r: Self)
        ensures
            r.wf(),
            r.spec_env() == env,
            r.spec_callback_obj() == callback_obj,
            r.spec_class_loader_obj() == class_loader_obj,
            r.methods()@.len() == 0,
            r.classes()@.len() == 0,
    {
        UwbServiceCallbackImpl {
            env,
            class_loader_obj,
            callback_obj,
            jmethod_id_map: HandleCache::new(),
            jclass_map: HandleCache::new(),
        }
    }

    /// The worker thread's attachment to the host runtime.
    pub fn env(&self) -> (r: &A)
        ensures
            *r == self.spec_env(),
    {
        &self.env
    }

    /// The host object whose methods receive the callbacks.
    pub fn callback_obj(&self) -> (r: &C)
        ensures
            *r == self.spec_callback_obj(),
    {
        &self.callback_obj
    }

    /// The class loader through which host classes are found.
    pub fn class_loader_obj(&self) -> (r: &C)
        ensures
            *r == self.spec_class_loader_obj(),
    {
        &self.class_loader_obj
    }

    /// The cached handle of a callback method, if it was resolved before.
    pub fn cached_method(&self, name: &str, sig: &str) -> (r: Option<&M>)
        requires
            self.wf(),
        ensures
            match r {
                Some(v) => value_of(self.methods()@, name@ + sig@) == Some(*v),
                None => value_of(self.methods()@, name@ + sig@) is None,
            },
    {
        let key = method_key(name, sig);
        self.jmethod_id_map.get(key.as_str())
    }

    /// Remembers the handle that resolving a callback method gave.
    pub fn remember_method(&mut self, name: &str, sig: &str, id: M)
        requires
            old(self).wf(),
        ensures
            final(self).wf(),
            final(self).spec_env() == old(self).spec_env(),
            final(self).classes() == old(self).classes(),
            value_of(old(self).methods()@, name@ + sig@) is Some ==> final(self).methods()@ == old(
                self,
            ).methods()@,
            value_of(old(self).methods()@, name@ + sig@) is None ==> final(self).methods()@ == old(
                self,
            ).methods()@.push((name@ + sig@, id)),
    {
        let key = method_key(name, sig);
        self.jmethod_id_map.insert(key, id);
    }

    /// The cached handle of a host class, if it was found before.
    pub fn cached_class(&self, class_name: &str) -> (r: Option<&C>)
        requires
            self.wf(),
        ensures
            match r {
                Some(v) => value_of(self.classes()@, class_name@) == Some(*v),
                None => value_of(self.classes()@, class_name@) is None,
            },
    {
        self.jclass_map.get(class_name)
    }

    /// Remembers the handle that finding a host class gave.
    pub fn remember_class(&mut self, class_name: &str, class: C)
        requires
            old(self).wf(),
        ensures
            final(self).wf(),
            final(self).spec_env() == old(self).spec_env(),
            final(self).methods() == old(self).methods(),
            value_of(old(self).classes()@, class_name@) is Some ==> final(self).classes()@ == old(
                self,
            ).classes()@,
            value_of(old(self).classes()@, class_name@) is None ==> final(self).classes()@ == old(
                self,
            ).classes()@.push((class_name@, class)),
    {
        self.jclass_map.insert(class_name.to_owned(), class);
    }
}

} // verus!
