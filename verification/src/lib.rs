//! An optional value whose occupancy the caller tracks.
//!
//! [`UntaggedOption<T>`] is a storage cell for at most one `T`. Whether it
//! currently holds a value is not something the cell will ever check at run
//! time: every reading operation carries a precondition that the cell is
//! occupied, so a caller must prove occupancy where an ordinary optional
//! type would branch on a discriminant. Misuse is rejected when the caller
//! is verified instead of being detected (or missed) while the program runs.
//!
//! Dropping the cell never drops a contained value: the cell does not
//! consult its own state, so it cannot know whether one is present. A
//! caller that stores a value owning resources must call
//! [`UntaggedOption::take`] to get the value back and let it be dropped in
//! the ordinary way; a value still inside when the cell goes out of scope,
//! or overwritten by a fresh construction, leaks — by design.

use core::mem::ManuallyDrop;
use vstd::prelude::*;

verus! {

/// A cell that holds either one valid `T` or nothing, and never inspects
/// which at run time.
///
/// The contained value sits behind [`core::mem::ManuallyDrop`], so dropping
/// the cell — or overwriting it by plain assignment — releases nothing:
/// only [`UntaggedOption::take`] hands the value back to be dropped by its
/// owner. Occupancy lives in the specification world, as
/// [`UntaggedOption::is_occupied`]; the reading operations require it
/// rather than test it.
pub struct UntaggedOption<T> {
    storage: Option<ManuallyDrop<T>>,
}

impl<T> View for UntaggedOption<T> {
    type V = Option<T>;

    /// The cell seen abstractly: `Some(v)` when it holds the valid value
    /// `v`, `None` when it holds nothing.
    closed spec fn view(&self) -> Option<T> {
        match self.storage {
            Some(md) => Some(md@),
            None => None,
        }
    }
}

impl<T> UntaggedOption<T> {
    /// Whether the cell currently holds a valid `T`.
    ///
    /// This is specification-level knowledge, kept by the verified caller;
    /// no operation of the cell branches on it.
    pub open spec fn is_occupied(self) -> bool {
        self@ is Some
    }

    /// The valid `T` the cell holds; meaningful only when occupied.
    pub open spec fn value(self) -> T
        recommends
            self.is_occupied(),
    {
        self@->0
    }

    /// Creates a cell holding no value.
    ///
    /// No reading operation may be called on the result until a value has
    /// been stored; each carries a precondition that rules it out here.
    pub fn none() -> (r: Self)
        ensures
            !r.is_occupied(),
            r@ is None,
    {
        UntaggedOption { storage: None }
    }

    /// Creates a cell holding `t`, taking ownership of it.
    ///
    /// The value is not dropped when the cell is dropped; call
    /// [`UntaggedOption::take`] to get it back out. Assigning the result
    /// over a cell that was already occupied leaks the old value: the
    /// overwrite does not look at what it replaces.
    pub fn some(t: T) -> (r: Self)
        ensures
            r.is_occupied(),
            r.value() == t,
            r@ == Some(t),
    {
        UntaggedOption { storage: Some(ManuallyDrop::new(t)) }
    }

    /// Takes the `T` out of an occupied cell, leaving it unoccupied.
    ///
    /// This is the one operation through which a contained value's
    /// resources can be released: the caller receives full ownership and
    /// may simply let the value go out of scope.
    pub fn take(&mut self) -> (t: T)
        requires
            old(self).is_occupied(),
        ensures
            t == old(self).value(),
            !final(self).is_occupied(),
            final(self)@ is None,
    {
        ManuallyDrop::into_inner(self.storage.take().unwrap())
    }

    /// Borrows the contained `T` of an occupied cell.
    pub fn as_ref(&self) -> (r: &T)
        requires
            self.is_occupied(),
        ensures
            *r == self.value(),
    {
        core::ops::Deref::deref(self.storage.as_ref().unwrap())
    }

    /// Mutably borrows the contained `T` of an occupied cell.
    ///
    /// The cell stays occupied: whatever the caller writes through the
    /// borrow is exactly what the cell then holds.
    pub fn as_mut(&mut self) -> (r: &mut T)
        requires
            old(self).is_occupied(),
        ensures
            *r == old(self).value(),
            final(self).is_occupied(),
            final(self).value() == *final(r),
    {
        deref_mut_inner(self.storage.as_mut().unwrap())
    }
}

/// Round trip: extraction returns exactly the value that construction
/// stored, and leaves the cell unoccupied.
///
/// `some(v)` promises a cell whose view is `Some(v)`; on such a cell,
/// `take` promises its result equals the cell's value and that the cell's
/// view becomes `None`. Chained, those contracts force the extracted value
/// to be `v` itself, with the cell ready for a fresh construction.
pub proof fn lemma_round_trip<T>(v: T, c: UntaggedOption<T>, taken: T, after: UntaggedOption<T>)
    requires
        c@ == Some(v),
        taken == c.value(),
        after@ is None,
    ensures
        taken == v,
        !after.is_occupied(),
{
}

/// Mutation visibility: a read after a write through the mutable borrow
/// yields exactly the written value.
///
/// Once a caller writes `w` through the borrow `as_mut` returned, that
/// function's contract makes `w` the cell's value; `as_ref` then promises
/// to return the cell's value, so what is read is `w`, exactly.
pub proof fn lemma_mutation_visible<T>(w: T, c: UntaggedOption<T>, read: T)
    requires
        c.is_occupied(),
        c.value() == w,
        read == c.value(),
    ensures
        read == w,
{
}

/// Relies on `<core::mem::ManuallyDrop<T> as core::ops::DerefMut>::deref_mut`:
/// mutably borrowing the wrapper borrows exactly the wrapped value, and the
/// wrapper afterwards holds exactly what was written through the borrow.
/// vstd states the same of the shared borrow (`Deref::deref`).
#[verifier::external_body]
fn deref_mut_inner<T>(m: &mut ManuallyDrop<T>) -> (res: &mut T)
    ensures
        *res == old(m)@,
        final(m)@ == *final(res),
{
    core::ops::DerefMut::deref_mut(m)
}

} // verus!
