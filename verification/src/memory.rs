//! Who answers for a foreign object.
//!
//! The runtime counts the references to each of its objects and destroys an
//! object when the count reaches zero. Three types say who owes the runtime a
//! release: [`Unique`] owns the only reference, [`Rc`] owns one reference
//! among several, and [`CopyOnWrite`] either holds an [`Rc`] or merely borrows
//! a handle from a caller who keeps answering for it. None of them calls the
//! runtime: duplicating and giving up an owner hand the caller the
//! [`ForeignCall`] that keeps the runtime's count in step.

use std::marker::PhantomData;
use vstd::prelude::*;

use crate::foreign::ForeignCall;

verus! {

/// An element of the accessibility interface: an application or a window.
#[derive(Debug, PartialEq, Eq)]
pub struct AXUIElement;

/// A point or a size in the encoding of the accessibility interface.
#[derive(Debug, PartialEq, Eq)]
pub struct AXValue;

/// A notification observer of the accessibility interface.
#[derive(Debug, PartialEq, Eq)]
pub struct AXObserver;

/// A string of the runtime.
#[derive(Debug, PartialEq, Eq)]
pub struct CFString;

/// A dictionary of the runtime.
#[derive(Debug, PartialEq, Eq)]
pub struct CFDictionary;

/// An object of the runtime of no particular type.
#[derive(Debug, PartialEq, Eq)]
pub struct CFType;

/// A running application as the workspace knows it.
#[derive(Debug, PartialEq, Eq)]
pub struct NSRunningApplication;

/// One owned reference to a foreign object that other owners may share. `T`
/// names the kind of object and exists at compile time only.
#[derive(Debug, PartialEq, Eq)]
pub struct Rc<T> {
    handle: usize,
    kind: PhantomData<T>,
}

/// The only reference to a foreign object. It cannot be duplicated.
#[derive(Debug, PartialEq, Eq)]
pub struct Unique<T> {
    handle: usize,
    kind: PhantomData<T>,
}

/// A handle that is either owned or borrowed for the length of a callback.
#[derive(Debug, PartialEq, Eq)]
pub enum CopyOnWrite<T> {
    /// This value answers for one reference.
    Owned(Rc<T>),
    /// The caller answers for the object; it outlives this value.
    Borrowed(usize),
}

/// The retain counts of the runtime's objects, by handle. A handle that the
/// map does not hold has the count zero.
pub type RetainCounts = Map<usize, int>;

/// The retain count of one handle.
pub open spec fn count_of(counts: RetainCounts, handle: usize) -> int {
    if counts.contains_key(handle) {
        counts[handle]
    } else {
        0
    }
}

/// The retain counts after the runtime has served one call: a retain adds
/// one, a release takes one, and no other call changes a count of an
/// existing object.
pub open spec fn counts_after(counts: RetainCounts, call: ForeignCall) -> RetainCounts {
    match call {
        ForeignCall::Retain { handle } => counts.insert(handle, count_of(counts, handle) + 1),
        ForeignCall::Release { handle } => counts.insert(handle, count_of(counts, handle) - 1),
        _ => counts,
    }
}

/// The retain counts after the runtime has served the calls in order.
pub open spec fn counts_after_all(counts: RetainCounts, calls: Seq<ForeignCall>) -> RetainCounts
    decreases calls.len(),
{
    if calls.len() == 0 {
        counts
    } else {
        counts_after(counts_after_all(counts, calls.drop_last()), calls.last())
    }
}

/// The calls that `copies` duplications of an owner of `handle` make,
/// followed by the calls that giving up every duplicate makes.
pub open spec fn duplicate_then_release(handle: usize, copies: nat) -> Seq<ForeignCall> {
    Seq::new(copies, |i: int| ForeignCall::Retain { handle }) + Seq::new(
        copies,
        |i: int| ForeignCall::Release { handle },
    )
}

impl<T> Rc<T> {
    #[verifier::type_invariant]
    spec fn nonnull(self) -> bool {
        self.handle != 0
    }

    /// The handle of the object.
    pub closed spec fn view(&self) -> usize {
        self.handle
    }

    /// The owner of one reference to the object at `handle`.
    pub closed spec fn adopted(handle: usize) -> Self {
        Rc { handle, kind: PhantomData }
    }

    /// An owner is known by its handle.
    pub proof fn lemma_adopted(handle: usize)
        ensures
            Self::adopted(handle)@ == handle,
    {
    }

    /// The call that asks the runtime how many references the object has.
    pub fn strong_count(&self) -> (call: ForeignCall)
        ensures
            call == (ForeignCall::RetainCount { handle: self@ }),
    {
        ForeignCall::RetainCount { handle: self.handle }
    }

    /// Takes over a reference that the caller owns, without a retain. A null
    /// pointer gives `None`.
    pub fn new_mut(pointer: usize) -> (owner: Option<Self>)
        ensures
            owner == (if pointer == 0 {
                None
            } else {
                Some(Self::adopted(pointer))
            }),
            owner matches Some(rc) ==> rc@ == pointer,
    {
        if pointer == 0 {
            None
        } else {
            Some(Rc { handle: pointer, kind: PhantomData })
        }
    }

    /// Takes over a reference to an object that is never written through,
    /// without a retain. A null pointer gives `None`.
    pub fn new_const(pointer: usize) -> (owner: Option<Self>)
        ensures
            owner == (if pointer == 0 {
                None
            } else {
                Some(Self::adopted(pointer))
            }),
            owner matches Some(rc) ==> rc@ == pointer,
    {
        if pointer == 0 {
            None
        } else {
            Some(Rc { handle: pointer, kind: PhantomData })
        }
    }

    /// The handle, to pass to the runtime while this owner lives.
    pub fn get(&self) -> (handle: usize)
        ensures
            handle == self@,
    {
        self.handle
    }

    /// The handle, which is never null.
    pub fn get_as_nonnull(&self) -> (handle: usize)
        ensures
            handle == self@,
            handle != 0,
    {
        proof {
            use_type_invariant(self);
        }
        self.handle
    }

    /// A second owner of the same object, and the retain that pays for it.
    pub fn duplicate(&self) -> (copy: (Self, ForeignCall))
        ensures
            copy.0 == *self,
            copy.1 == (ForeignCall::Retain { handle: self@ }),
    {
        proof {
            use_type_invariant(self);
        }
        (Rc { handle: self.handle, kind: PhantomData }, ForeignCall::Retain { handle: self.handle })
    }

    /// Gives the reference up: the release that the runtime is owed.
    pub fn release(self) -> (call: ForeignCall)
        ensures
            call == (ForeignCall::Release { handle: self@ }),
    {
        ForeignCall::Release { handle: self.handle }
    }
}

impl<T> Unique<T> {
    #[verifier::type_invariant]
    spec fn nonnull(self) -> bool {
        self.handle != 0
    }

    /// The handle of the object.
    pub closed spec fn view(&self) -> usize {
        self.handle
    }

    /// The owner of the only reference to the object at `handle`.
    pub closed spec fn adopted(handle: usize) -> Self {
        Unique { handle, kind: PhantomData }
    }

    /// An owner is known by its handle.
    pub proof fn lemma_adopted(handle: usize)
        ensures
            Self::adopted(handle)@ == handle,
    {
    }

    /// Takes over an object that the runtime has just made. A null pointer
    /// gives `None`.
    pub fn new_mut(pointer: usize) -> (owner: Option<Self>)
        ensures
            owner == (if pointer == 0 {
                None
            } else {
                Some(Self::adopted(pointer))
            }),
            owner matches Some(unique) ==> unique@ == pointer,
    {
        if pointer == 0 {
            None
        } else {
            Some(Unique { handle: pointer, kind: PhantomData })
        }
    }

    /// Takes over an object that the runtime has just made and that is never
    /// written through. A null pointer gives `None`.
    pub fn new_const(pointer: usize) -> (owner: Option<Self>)
        ensures
            owner == (if pointer == 0 {
                None
            } else {
                Some(Self::adopted(pointer))
            }),
            owner matches Some(unique) ==> unique@ == pointer,
    {
        if pointer == 0 {
            None
        } else {
            Some(Unique { handle: pointer, kind: PhantomData })
        }
    }

    /// The handle, to pass to the runtime while this owner lives.
    pub fn get(&self) -> (handle: usize)
        ensures
            handle == self@,
            handle != 0,
    {
        proof {
            use_type_invariant(self);
        }
        self.handle
    }

    /// Gives the object up: the release that destroys it.
    pub fn release(self) -> (call: ForeignCall)
        ensures
            call == (ForeignCall::Release { handle: self@ }),
    {
        ForeignCall::Release { handle: self.handle }
    }
}

impl<T> CopyOnWrite<T> {
    /// The handle, whoever answers for it.
    pub open spec fn handle(self) -> usize {
        match self {
            CopyOnWrite::Owned(rc) => rc@,
            CopyOnWrite::Borrowed(handle) => handle,
        }
    }

    /// The release that giving this value up owes the runtime: one for an
    /// owned handle, none for a borrowed one.
    pub open spec fn release_owed(self) -> Option<ForeignCall> {
        match self {
            CopyOnWrite::Owned(rc) => Some(ForeignCall::Release { handle: rc@ }),
            CopyOnWrite::Borrowed(_) => None,
        }
    }

    /// The handle, to pass to the runtime while this value lives.
    pub fn get(&self) -> (handle: usize)
        ensures
            handle == self.handle(),
    {
        match self {
            CopyOnWrite::Owned(rc) => rc.get(),
            CopyOnWrite::Borrowed(handle) => *handle,
        }
    }

    /// Gives the value up. Only an owned handle is released.
    pub fn release(self) -> (call: Option<ForeignCall>)
        ensures
            call == self.release_owed(),
    {
        match self {
            CopyOnWrite::Owned(rc) => Some(rc.release()),
            CopyOnWrite::Borrowed(_) => None,
        }
    }
}

/// Putting a raw handle under the care of an [`Rc`].
pub trait ManageWithRc: Sized {
    /// The address that the handle holds.
    spec fn address(self) -> usize;

    /// Hands a reference that the caller owns to an [`Rc`]. Null gives
    /// `None`.
    fn into_rc<T>(self) -> (owner: Option<Rc<T>>)
        ensures
            owner == (if self.address() == 0 {
                None
            } else {
                Some(Rc::<T>::adopted(self.address()))
            }),
    ;

    /// Makes an [`Rc`] for an object that another owner keeps alive, with
    /// the retain that pays for the new reference. Null gives `None` and no
    /// call.
    fn as_rc<T>(&self) -> (shared: Option<(Rc<T>, ForeignCall)>)
        ensures
            shared == (if self.address() == 0 {
                None
            } else {
                Some(
                    (
                        Rc::<T>::adopted(self.address()),
                        ForeignCall::Retain { handle: self.address() },
                    ),
                )
            }),
    ;
}

impl ManageWithRc for usize {
    open spec fn address(self) -> usize {
        self
    }

    fn into_rc<T>(self) -> (owner: Option<Rc<T>>) {
        Rc::new_mut(self)
    }

    fn as_rc<T>(&self) -> (shared: Option<(Rc<T>, ForeignCall)>) {
        match Rc::new_mut(*self) {
            Some(rc) => Some((rc, ForeignCall::Retain { handle: *self })),
            None => None,
        }
    }
}

/// A retain and a release of one handle leave every count as it was.
pub proof fn lemma_retain_release_cancel(counts: RetainCounts, handle: usize, other: usize)
    ensures
        count_of(
            counts_after(
                counts_after(counts, ForeignCall::Retain { handle }),
                ForeignCall::Release { handle },
            ),
            other,
        ) == count_of(counts, other),
{
}

/// Duplicating a shared owner any number of times and then giving up every
/// duplicate leaves the retain count of every object where it was.
pub proof fn lemma_duplicates_leave_counts(counts: RetainCounts, handle: usize, copies: nat, other: usize)
    ensures
        count_of(counts_after_all(counts, duplicate_then_release(handle, copies)), other)
            == count_of(counts, other),
{
    let retains = Seq::new(copies, |i: int| ForeignCall::Retain { handle });
    let releases = Seq::new(copies, |i: int| ForeignCall::Release { handle });
    lemma_retains(counts, handle, copies, handle);
    lemma_retains(counts, handle, copies, other);
    let middle = counts_after_all(counts, retains);
    lemma_releases(middle, handle, copies, other);
    lemma_after_all_concat(counts, retains, releases);
}

/// Serving two runs of calls one after the other is serving their
/// concatenation.
pub proof fn lemma_after_all_concat(counts: RetainCounts, first: Seq<ForeignCall>, second: Seq<ForeignCall>)
    ensures
        counts_after_all(counts, first + second) == counts_after_all(
            counts_after_all(counts, first),
            second,
        ),
    decreases second.len(),
{
    if second.len() == 0 {
        assert(first + second =~= first);
    } else {
        assert((first + second).drop_last() =~= first + second.drop_last());
        assert((first + second).last() == second.last());
        lemma_after_all_concat(counts, first, second.drop_last());
    }
}

proof fn lemma_retains(counts: RetainCounts, handle: usize, copies: nat, other: usize)
    ensures
        count_of(
            counts_after_all(counts, Seq::new(copies, |i: int| ForeignCall::Retain { handle })),
            other,
        ) == count_of(counts, other) + (if other == handle {
            copies as int
        } else {
            0
        }),
    decreases copies,
{
    let calls = Seq::new(copies, |i: int| ForeignCall::Retain { handle });
    if copies > 0 {
        let fewer = Seq::new((copies - 1) as nat, |i: int| ForeignCall::Retain { handle });
        assert(calls.drop_last() =~= fewer);
        assert(calls.last() == ForeignCall::Retain { handle });
        lemma_retains(counts, handle, (copies - 1) as nat, other);
        lemma_retains(counts, handle, (copies - 1) as nat, handle);
    }
}

proof fn lemma_releases(counts: RetainCounts, handle: usize, copies: nat, other: usize)
    ensures
        count_of(
            counts_after_all(counts, Seq::new(copies, |i: int| ForeignCall::Release { handle })),
            other,
        ) == count_of(counts, other) - (if other == handle {
            copies as int
        } else {
            0
        }),
    decreases copies,
{
    let calls = Seq::new(copies, |i: int| ForeignCall::Release { handle });
    if copies > 0 {
        let fewer = Seq::new((copies - 1) as nat, |i: int| ForeignCall::Release { handle });
        assert(calls.drop_last() =~= fewer);
        assert(calls.last() == ForeignCall::Release { handle });
        lemma_releases(counts, handle, (copies - 1) as nat, other);
        lemma_releases(counts, handle, (copies - 1) as nat, handle);
    }
}

} // verus!
