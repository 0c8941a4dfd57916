use vstd::prelude::*;
use crate::store::{finds, held_count, holds_as, settle, stores, Store};

verus! {

/// A host type that owns exactly one [`Store`] for its plugins.
pub trait Extensible {
    /// The store that the host owns.
    ///
    /// A host that is itself verified defines this as its store field, and
    /// must, to prove `extensions` and `extensions_mut`: the default names no
    /// store in particular. The default exists for hosts written in plain
    /// Rust, where this item is compiled as a method to be provided. Such a
    /// host cannot meet the contracts below while it keeps the default (a
    /// write through `extensions_mut` would have to leave the store as it
    /// was), so nothing proved here speaks of it.
    open spec fn store_of(&self) -> Store {
        arbitrary()
    }

    /// Read access to the host's store.
    fn extensions(&self) -> (r: &Store)
        ensures
            *r == self.store_of(),
    ;

    /// Read-write access to the host's store; what is written through the
    /// reference is what the host then owns.
    fn extensions_mut(&mut self) -> (r: &mut Store)
        ensures
            *r == old(self).store_of(),
            final(self).store_of() == *final(r),
    ;
}

/// A plugin type: a value of it can be built from a host of type `H`.
pub trait PluginFor<H>: Sized {
    /// Builds a value from the host, or `None` where the host's present state
    /// allows none.
    fn create(host: &H) -> Option<Self>;
}

/// One cached request of `T` on `host`, which held the store `before` and
/// left `after`, serving `r`.
///
/// A held value is served and the store is left as it was. Otherwise the
/// factory is asked once, on the host: what it builds is stored (one entry
/// more) and served; a refusal is served as `None`, with nothing written.
pub open spec fn cached_request<H, T: PluginFor<H> + 'static>(
    host: H,
    before: Store,
    after: Store,
    r: Option<T>,
) -> bool {
    if stores::<T>(before) {
        after == before && match r {
            Some(v) => holds_as::<T>(before, v),
            None => false,
        }
    } else {
        match r {
            Some(v) => call_ensures(T::create, (&host,), Some(v)) && holds_as::<T>(after, v)
                && held_count(after) == held_count(before) + 1,
            None => call_ensures(T::create, (&host,), None::<T>) && after == before,
        }
    }
}

/// Once a request of `T` has served a value, the next request of `T` on the
/// store it left is served from that store: nothing is built, and the store
/// stays as it was.
pub proof fn lemma_served_stays_held<H, T: PluginFor<H> + 'static>(
    h0: H,
    s0: Store,
    s1: Store,
    v: T,
    h1: H,
    s2: Store,
    r: Option<T>,
)
    requires
        cached_request(h0, s0, s1, Some(v)),
        cached_request(h1, s1, s2, r),
    ensures
        stores::<T>(s1),
        s2 == s1,
        r is Some,
        holds_as::<T>(s1, v),
        r == Some(v),
{
    assert(finds::<T>(s1, r->0));
}

/// A refused build is not remembered: the store is left as it was, holding no
/// `T`, so the next request of `T` asks the factory again and serves what it
/// gives.
pub proof fn lemma_refusal_not_remembered<H, T: PluginFor<H> + 'static>(
    h0: H,
    s0: Store,
    s1: Store,
    h1: H,
    s2: Store,
    r: Option<T>,
)
    requires
        cached_request(h0, s0, s1, None::<T>),
        cached_request(h1, s1, s2, r),
    ensures
        s1 == s0,
        !stores::<T>(s1),
        call_ensures(T::create, (&h1,), r),
{
}

/// Memoized plugin access for extensible hosts.
///
/// Each request looks the type up first. A held value is served and the store
/// is left as it was, without building. Otherwise the factory is called once on
/// the host: a value it builds is stored and served, and a refusal is passed
/// on with nothing written, so that the next request asks the factory again.
pub trait GetCached: Extensible + Sized {
    /// The stored `T`, built and stored first if the store holds none.
    fn get_ref<T: PluginFor<Self> + 'static>(&mut self) -> (r: Option<&T>)
        ensures
            cached_request(
                *old(self),
                old(self).store_of(),
                final(self).store_of(),
                match r {
                    Some(v) => Some(*v),
                    None => None,
                },
            ),
    ;

    /// Like [`GetCached::get_ref`], with write access to the stored `T`.
    ///
    /// Writing through the reference changes that value only: the store
    /// keeps as many entries as the call left in it.
    fn get_mut<T: PluginFor<Self> + 'static>(&mut self) -> (r: Option<&mut T>)
        ensures
            ({
                let (s0, s1) = (old(self).store_of(), final(self).store_of());
                if stores::<T>(s0) {
                    held_count(s1) == held_count(s0) && match r {
                        Some(w) => holds_as::<T>(s0, *w) && holds_as::<T>(s1, *final(w)),
                        None => false,
                    }
                } else {
                    match r {
                        Some(w) => call_ensures(T::create, (&*old(self),), Some(*w))
                            && holds_as::<T>(s1, *final(w)) && held_count(s1) == held_count(s0) + 1,
                        None => call_ensures(T::create, (&*old(self),), None::<T>) && s1 == s0,
                    }
                }
            }),
    ;

    /// Like [`GetCached::get_ref`], but hands out a clone of the stored `T`,
    /// which lives on apart from the store.
    fn get<T: PluginFor<Self> + 'static + Clone>(&mut self) -> (r: Option<T>)
        ensures
            ({
                let (s0, s1) = (old(self).store_of(), final(self).store_of());
                if stores::<T>(s0) {
                    s1 == s0 && match r {
                        Some(c) => exists|v: T| #[trigger] holds_as::<T>(s0, v) && cloned(v, c),
                        None => false,
                    }
                } else {
                    match r {
                        Some(c) => exists|v: T|
                            #[trigger] call_ensures(T::create, (&*old(self),), Some(v))
                            && cloned(v, c) && holds_as::<T>(s1, v)
                            && held_count(s1) == held_count(s0) + 1,
                        None => call_ensures(T::create, (&*old(self),), None::<T>) && s1 == s0,
                    }
                }
            }),
    ;
}

impl<H: Extensible> GetCached for H {
    fn get_ref<T: PluginFor<Self> + 'static>(&mut self) -> (r: Option<&T>) {
        if self.extensions().contains::<T>() {
            return self.extensions().find::<T>();
        }
        let made = T::create(self);
        match settle(self.extensions_mut(), made) {
            Some(w) => Some(&*w),
            None => None,
        }
    }

    fn get_mut<T: PluginFor<Self> + 'static>(&mut self) -> (r: Option<&mut T>) {
        if self.extensions().contains::<T>() {
            return self.extensions_mut().find_mut::<T>();
        }
        let made = T::create(self);
        settle(self.extensions_mut(), made)
    }

    fn get<T: PluginFor<Self> + 'static + Clone>(&mut self) -> (r: Option<T>) {
        if self.extensions().contains::<T>() {
            return match self.extensions().find::<T>() {
                Some(v) => {
                    let c = v.clone();
                    assert(holds_as::<T>(self.store_of(), *v) && cloned(*v, c));
                    Some(c)
                },
                None => None,
            };
        }
        let made = T::create(self);
        match settle(self.extensions_mut(), made) {
            Some(w) => Some(w.clone()),
            None => None,
        }
    }
}

/// One-shot plugin construction, for any host: nothing is stored, so every
/// call builds afresh.
pub trait Get: Sized {
    /// A new `T` built from this host, or `None` where the host allows none.
    fn compute<T: PluginFor<Self>>(&self) -> (r: Option<T>)
        ensures
            call_ensures(T::create, (self,), r),
    ;
}

impl<H> Get for H {
    fn compute<T: PluginFor<Self>>(&self) -> Option<T> {
        T::create(self)
    }
}

} // verus!
