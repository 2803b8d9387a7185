//! A transparent wrapper that shields its payload from comparison.
//!
//! `DoNotCompare<T>` holds exactly one value of an arbitrary type `T` and
//! suppresses that value's participation in equality and ordering: any two
//! wrappers compare as equal, whatever their payloads hold and whether or
//! not `T` is comparable at all. The intended use is to embed a
//! non-comparable (or deliberately ignored) field inside a larger aggregate
//! whose equality is derived over its remaining fields.

use vstd::prelude::*;

use core::cmp::Ordering;

verus! {

use vstd::std_specs::cmp::PartialEqSpec;
use vstd::std_specs::cmp::PartialOrdSpec;

/// A single-field carrier for a value of any type `T`.
///
/// The wrapper never inspects its payload: construction, access and unwrap
/// move or borrow the inner value unchanged, and the comparison impls below
/// ignore it entirely.
#[derive(Debug, Clone, Copy)]
pub struct DoNotCompare<T>(pub T);

impl<T> DoNotCompare<T> {
    /// Wraps a value. Cannot fail, for any `T`.
    pub fn new(inner: T) -> (r: Self)
        ensures
            r.0 == inner,
    {
        DoNotCompare(inner)
    }

    /// Borrows the inner value.
    pub fn inner(&self) -> (r: &T)
        ensures
            *r == self.0,
    {
        &self.0
    }

    /// Mutably borrows the inner value; whatever the caller writes through
    /// the returned reference is what the wrapper holds afterwards.
    pub fn inner_mut(&mut self) -> (r: &mut T)
        ensures
            *r == old(self).0,
            final(self).0 == *final(r),
    {
        &mut self.0
    }

    /// Consumes the wrapper and returns ownership of the inner value.
    pub fn into_inner(self) -> (r: T)
        ensures
            r == self.0,
    {
        self.0
    }
}

/// The default wrapper holds the payload type's own default.
impl<T: Default> Default for DoNotCompare<T> {
    fn default() -> (r: Self)
        ensures
            call_ensures(<T as Default>::default, (), r.0),
    {
        DoNotCompare(T::default())
    }
}

/// Equality that ignores both payloads: any two wrappers are equal.
impl<T> PartialEq for DoNotCompare<T> {
    fn eq(&self, _other: &Self) -> (r: bool) {
        true
    }
}

impl<T> vstd::std_specs::cmp::PartialEqSpecImpl for DoNotCompare<T> {
    open spec fn obeys_eq_spec() -> bool {
        true
    }

    open spec fn eq_spec(&self, _other: &Self) -> bool {
        true
    }
}

impl<T> Eq for DoNotCompare<T> {}

/// Ordering that ignores both payloads: no wrapper is ever less than or
/// greater than another.
impl<T> PartialOrd for DoNotCompare<T> {
    fn partial_cmp(&self, _other: &Self) -> (r: Option<Ordering>) {
        Some(Ordering::Equal)
    }
}

impl<T> vstd::std_specs::cmp::PartialOrdSpecImpl for DoNotCompare<T> {
    open spec fn obeys_partial_cmp_spec() -> bool {
        true
    }

    open spec fn partial_cmp_spec(&self, _other: &Self) -> Option<Ordering> {
        Some(Ordering::Equal)
    }
}

/// Hashing that ignores the payload: every wrapper contributes nothing to
/// the hash state, so all wrappers hash alike.
impl<T> core::hash::Hash for DoNotCompare<T> {
    fn hash<H: core::hash::Hasher>(&self, _state: &mut H)
        ensures
            *final(_state) == *old(_state),
    {
    }
}

/// Wrapping as a conversion, so a `T` converts into `DoNotCompare<T>`
/// wherever an `Into` bound asks for it.
impl<T> From<T> for DoNotCompare<T> {
    fn from(inner: T) -> (r: DoNotCompare<T>) {
        DoNotCompare(inner)
    }
}

impl<T> vstd::std_specs::convert::FromSpecImpl<T> for DoNotCompare<T> {
    open spec fn obeys_from_spec() -> bool {
        true
    }

    open spec fn from_spec(inner: T) -> DoNotCompare<T> {
        DoNotCompare(inner)
    }
}

/// Read access through `*`, so a wrapper can stand in for its payload.
impl<T> core::ops::Deref for DoNotCompare<T> {
    type Target = T;

    fn deref(&self) -> (r: &T)
        ensures
            *r == self.0,
    {
        &self.0
    }
}

/// Write access through `*`: assignments through the wrapper land in the
/// payload.
impl<T> core::ops::DerefMut for DoNotCompare<T> {
    fn deref_mut(&mut self) -> (r: &mut T)
        ensures
            *r == old(self).0,
            final(self).0 == *final(r),
    {
        &mut self.0
    }
}

/// Cheap reference conversions, so generic callers bounded by `AsRef` or
/// `AsMut` can reach the payload.
impl<T> AsRef<T> for DoNotCompare<T> {
    fn as_ref(&self) -> (r: &T)
        ensures
            *r == self.0,
    {
        &self.0
    }
}

impl<T> AsMut<T> for DoNotCompare<T> {
    fn as_mut(&mut self) -> (r: &mut T)
        ensures
            *r == old(self).0,
            final(self).0 == *final(r),
    {
        &mut self.0
    }
}

/// Any two wrappers are equal, whatever their payloads hold: the equality
/// test never consults the inner values.
pub proof fn lemma_all_wrappers_equal<T>(a: &DoNotCompare<T>, b: &DoNotCompare<T>)
    ensures
        a.eq_spec(b),
{
}

/// Ordering a wrapper against another always answers "equal": no wrapper is
/// ever less than or greater than another, whatever the payloads hold.
pub proof fn lemma_no_wrapper_ordered<T>(a: &DoNotCompare<T>, b: &DoNotCompare<T>)
    ensures
        a.partial_cmp_spec(b) == Some(Ordering::Equal),
{
}

/// Round trip: unwrapping a freshly wrapped value yields that value,
/// unchanged.
pub proof fn lemma_wrap_then_unwrap<T>(a: T)
    ensures
        (DoNotCompare(a)).0 == a,
{
}

/// The intended embedding, made concrete: an aggregate that pairs a
/// comparable key with a shielded payload. Its equality consults the key
/// alone; the payload field, being wrapped, never takes part.
pub struct Keyed<U, V> {
    pub key: U,
    pub payload: DoNotCompare<V>,
}

impl<U: PartialEq, V> PartialEq for Keyed<U, V> {
    fn eq(&self, other: &Self) -> (r: bool) {
        self.key == other.key && self.payload == other.payload
    }
}

impl<U: PartialEq, V> vstd::std_specs::cmp::PartialEqSpecImpl for Keyed<U, V> {
    open spec fn obeys_eq_spec() -> bool {
        U::obeys_eq_spec()
    }

    open spec fn eq_spec(&self, other: &Self) -> bool {
        self.key.eq_spec(&other.key)
    }
}

/// Embedding law: two keyed aggregates are equal exactly when their keys
/// are, regardless of what the payload fields hold.
pub proof fn lemma_keyed_compares_by_key_alone<U: PartialEq, V>(a: &Keyed<U, V>, b: &Keyed<U, V>)
    ensures
        a.eq_spec(b) == a.key.eq_spec(&b.key),
{
}

} // verus!
