use vstd::prelude::*;

verus! {

/// What the store holds: the number of distinct types that have a value in it.
pub uninterp spec fn held_count(s: Store) -> nat;

/// Whether the store holds a value of type `T`: its lookup of `T` cannot
/// come back empty.
pub closed spec fn stores<T: 'static>(s: Store) -> bool {
    !call_ensures(peek::<T>, (&s,), None::<&T>)
}

/// `v` is what the store's lookup of `T` can give.
pub closed spec fn finds<T: 'static>(s: Store, v: T) -> bool {
    call_ensures(peek::<T>, (&s,), Some(&v))
}

/// The store holds a value of type `T`, and that value is `v`.
pub open spec fn holds_as<T: 'static>(s: Store, v: T) -> bool {
    stores::<T>(s) && forall|u: T| #[trigger] finds::<T>(s, u) <==> u == v
}

/// The per-host heterogeneous store: at most one value of each type, addressed
/// by the type itself.
#[verifier::external_body]
pub struct Store {
    map: anymap::AnyMap,
}

/// Relies on anymap's `AnyMap::new`: a new map holds nothing.
#[verifier::external_body]
fn empty_map() -> (r: Store)
    ensures
        held_count(r) == 0,
{
    Store { map: anymap::AnyMap::new() }
}

/// Relies on anymap's `AnyMap::len`: the number of items in the map.
#[verifier::external_body]
fn count_held(s: &Store) -> (r: usize)
    ensures
        r == held_count(*s),
{
    s.map.len()
}

/// Relies on anymap's `AnyMap::contains`: true iff `AnyMap::get` finds a value
/// of type `T`, of which the map holds at most one.
#[verifier::external_body]
fn holds<T: 'static>(s: &Store) -> (r: bool)
    ensures
        r == stores::<T>(*s),
        r ==> exists|v: T| holds_as::<T>(*s, v),
{
    s.map.contains::<T>()
}

/// Relies on anymap's `AnyMap::get`: the held value of type `T`, if any, and
/// none from a map that holds nothing. What it can give is what `stores` and
/// `finds` speak of.
#[verifier::external_body]
fn peek<T: 'static>(s: &Store) -> (r: Option<&T>)
    ensures
        held_count(*s) == 0 ==> r is None,
{
    s.map.get::<T>()
}

/// Relies on anymap's `AnyMap::get_mut`: the held value of type `T`, the same
/// that `AnyMap::get` finds, if any; what is written through it is what
/// `AnyMap::get` then finds, no entry is added or removed, and without a value
/// the map is left as it was.
#[verifier::external_body]
fn peek_mut<T: 'static>(s: &mut Store) -> (r: Option<&mut T>)
    ensures
        r is Some == stores::<T>(*old(s)),
        match r {
            Some(w) => holds_as::<T>(*old(s), *w) && holds_as::<T>(*final(s), *final(w)),
            None => *final(s) == *old(s),
        },
        held_count(*final(s)) == held_count(*old(s)),
{
    s.map.get_mut::<T>()
}

/// Relies on anymap's `AnyMap::entry` (with `VacantEntry::insert`): where no
/// value of type `T` is held, `v` goes in and a reference to the stored value
/// comes back (what is written through it is what `AnyMap::get` then finds);
/// else the map is left as it was and `v` is handed back.
#[verifier::external_body]
fn stash<T: 'static>(s: &mut Store, v: T) -> (r: Result<&mut T, T>)
    ensures
        match r {
            Ok(w) => *w == v && holds_as::<T>(*final(s), *final(w))
                && held_count(*final(s)) == held_count(*old(s)) + 1,
            Err(u) => u == v && *final(s) == *old(s),
        },
        r is Ok == !stores::<T>(*old(s)),
{
    match s.map.entry::<T>() {
        anymap::Entry::Vacant(e) => Ok(e.insert(v)),
        anymap::Entry::Occupied(_) => Err(v),
    }
}

impl Store {
    /// A store that holds nothing.
    pub fn new() -> (r: Store)
        ensures
            held_count(r) == 0,
    {
        empty_map()
    }

    /// The number of distinct types that have a value in the store.
    pub fn len(&self) -> (r: usize)
        ensures
            r == held_count(*self),
    {
        count_held(self)
    }

    /// Whether the store holds a value of type `T`.
    pub fn contains<T: 'static>(&self) -> (r: bool)
        ensures
            r == stores::<T>(*self),
    {
        holds::<T>(self)
    }

    /// The held value of type `T`, if any.
    pub fn find<T: 'static>(&self) -> (r: Option<&T>)
        ensures
            match r {
                Some(v) => holds_as::<T>(*self, *v),
                None => !stores::<T>(*self),
            },
    {
        if holds::<T>(self) {
            let r = peek::<T>(self);
            proof {
                let v = choose|v: T| holds_as::<T>(*self, v);
                if let Some(w) = r {
                    assert(finds::<T>(*self, *w));
                    assert(*w == v);
                }
            }
            r
        } else {
            None
        }
    }

    /// The held value of type `T`, if any, for writing: the one that `find`
    /// gives. Writing through it adds or removes no entry.
    pub fn find_mut<T: 'static>(&mut self) -> (r: Option<&mut T>)
        ensures
            r is Some == stores::<T>(*old(self)),
            match r {
                Some(w) => holds_as::<T>(*old(self), *w) && holds_as::<T>(*final(self), *final(w)),
                None => *final(self) == *old(self),
            },
            held_count(*final(self)) == held_count(*old(self)),
    {
        peek_mut::<T>(self)
    }
}

/// Keeps a freshly built plugin value in the store.
///
/// Nothing is written when construction failed (`made` is `None`): no
/// failure is remembered. A built value goes in exactly where the store holds
/// none of its type, and the returned reference is to that value.
pub fn settle<T: 'static>(store: &mut Store, made: Option<T>) -> (r: Option<&mut T>)
    ensures
        r is Some == (made is Some && !stores::<T>(*old(store))),
        match r {
            Some(w) => made == Some(*w) && holds_as::<T>(*final(store), *final(w))
                && held_count(*final(store)) == held_count(*old(store)) + 1,
            None => *final(store) == *old(store),
        },
{
    match made {
        None => None,
        Some(v) => match stash(store, v) {
            Ok(w) => Some(w),
            Err(_) => None,
        },
    }
}

} // verus!
