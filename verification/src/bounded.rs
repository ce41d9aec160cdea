//! Length-bounded vectors: the collection shape every MIDDS field uses.
use vstd::prelude::*;

verus! {

/// A vector holding at most `N` elements. The bound is an invariant of the
/// type: every constructor checks it and no method can break it.
#[derive(Debug, PartialEq, Eq, PartialOrd, Ord, Hash)]
pub struct Bounded<T, const N: u32> {
    items: Vec<T>,
}

/// A bounded byte string of capacity `N`, used for identifiers and free text.
pub type MiddsString<const N: u32> = Bounded<u8, N>;

impl<T, const N: u32> View for Bounded<T, N> {
    type V = Seq<T>;

    closed spec fn view(&self) -> Seq<T> {
        self.items@
    }
}

impl<T, const N: u32> Bounded<T, N> {
    #[verifier::type_invariant]
    closed spec fn within_bound(self) -> bool {
        self.items@.len() <= N
    }

    /// The empty vector.
    pub fn new() -> (r: Self)
        ensures
            r@ == Seq::<T>::empty(),
    {
        Bounded { items: Vec::new() }
    }

    /// Wraps `items` when it fits the bound; hands it back otherwise.
    pub fn try_new(items: Vec<T>) -> (r: Result<Self, Vec<T>>)
        ensures
            items@.len() <= N <==> r is Ok,
            r matches Ok(b) ==> b@ == items@,
            r matches Err(v) ==> v@ == items@,
    {
        if items.len() <= N as usize {
            Ok(Bounded { items })
        } else {
            Err(items)
        }
    }

    /// Number of elements, never above `N`.
    pub fn len(&self) -> (r: usize)
        ensures
            r == self@.len(),
            r <= N,
    {
        proof {
            use_type_invariant(self);
        }
        self.items.len()
    }

    /// Whether there is no element.
    pub fn is_empty(&self) -> (r: bool)
        ensures
            r == (self@.len() == 0),
    {
        self.items.len() == 0
    }

    /// The elements as a slice.
    pub fn as_slice(&self) -> (r: &[T])
        ensures
            r@ == self@,
    {
        self.items.as_slice()
    }

    /// The element at `i`.
    pub fn get(&self, i: usize) -> (r: &T)
        requires
            i < self@.len(),
        ensures
            *r == self@[i as int],
    {
        &self.items[i]
    }

    /// Gives up the bound and returns the elements.
    pub fn into_vec(self) -> (r: Vec<T>)
        ensures
            r@ == self@,
    {
        self.items
    }

    /// Appends `value` when there is room; hands it back otherwise.
    pub fn try_push(&mut self, value: T) -> (r: Result<(), T>)
        ensures
            old(self)@.len() < N <==> r is Ok,
            r is Ok ==> final(self)@ == old(self)@.push(value),
            r matches Err(v) ==> final(self)@ == old(self)@ && v == value,
    {
        proof {
            use_type_invariant(&*self);
        }
        if self.items.len() < N as usize {
            let mut items = Vec::new();
            std::mem::swap(&mut items, &mut self.items);
            items.push(value);
            self.items = items;
            Ok(())
        } else {
            Err(value)
        }
    }
}

impl<T: Clone, const N: u32> Clone for Bounded<T, N> {
    /// A copy holding clones of the same elements.
    fn clone(&self) -> (r: Self)
        ensures
            r@.len() == self@.len(),
            forall|i: int| 0 <= i < self@.len() ==> cloned::<T>(self@[i], #[trigger] r@[i]),
    {
        proof {
            use_type_invariant(self);
        }
        Bounded { items: self.items.clone() }
    }
}

} // verus!
