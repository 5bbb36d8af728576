//! Mathematical models of executable values.

use vstd::prelude::*;

verus! {

/// A value with a mathematical model and a copy operation that keeps it.
pub trait Model: Sized {
    /// Type of the model.
    type V;

    /// The model of this value.
    spec fn model(&self) -> Self::V;

    /// Makes another value with the same model.
    fn dup(&self) -> (copy: Self)
        ensures
            copy.model() == self.model(),
    ;
}

impl Model for String {
    type V = Seq<char>;

    open spec fn model(&self) -> Seq<char> {
        self@
    }

    fn dup(&self) -> (copy: Self) {
        self.clone()
    }
}

impl Model for () {
    type V = ();

    open spec fn model(&self) -> () {
        ()
    }

    fn dup(&self) -> (copy: Self) {
        ()
    }
}

impl Model for bool {
    type V = bool;

    open spec fn model(&self) -> bool {
        *self
    }

    fn dup(&self) -> (copy: Self) {
        *self
    }
}

impl Model for char {
    type V = char;

    open spec fn model(&self) -> char {
        *self
    }

    fn dup(&self) -> (copy: Self) {
        *self
    }
}

impl Model for u8 {
    type V = u8;

    open spec fn model(&self) -> u8 {
        *self
    }

    fn dup(&self) -> (copy: Self) {
        *self
    }
}

impl Model for u16 {
    type V = u16;

    open spec fn model(&self) -> u16 {
        *self
    }

    fn dup(&self) -> (copy: Self) {
        *self
    }
}

impl Model for u32 {
    type V = u32;

    open spec fn model(&self) -> u32 {
        *self
    }

    fn dup(&self) -> (copy: Self) {
        *self
    }
}

impl Model for u64 {
    type V = u64;

    open spec fn model(&self) -> u64 {
        *self
    }

    fn dup(&self) -> (copy: Self) {
        *self
    }
}

impl Model for usize {
    type V = usize;

    open spec fn model(&self) -> usize {
        *self
    }

    fn dup(&self) -> (copy: Self) {
        *self
    }
}

impl Model for i32 {
    type V = i32;

    open spec fn model(&self) -> i32 {
        *self
    }

    fn dup(&self) -> (copy: Self) {
        *self
    }
}

impl Model for i64 {
    type V = i64;

    open spec fn model(&self) -> i64 {
        *self
    }

    fn dup(&self) -> (copy: Self) {
        *self
    }
}

impl<T: Model> Model for Option<T> {
    type V = Option<T::V>;

    open spec fn model(&self) -> Option<T::V> {
        match self {
            Some(value) => Some(value.model()),
            None => None,
        }
    }

    fn dup(&self) -> (copy: Self) {
        match self {
            Some(value) => Some(value.dup()),
            None => None,
        }
    }
}

impl<T: Model, E: Model> Model for Result<T, E> {
    type V = Result<T::V, E::V>;

    open spec fn model(&self) -> Result<T::V, E::V> {
        match self {
            Ok(value) => Ok(value.model()),
            Err(error) => Err(error.model()),
        }
    }

    fn dup(&self) -> (copy: Self) {
        match self {
            Ok(value) => Ok(value.dup()),
            Err(error) => Err(error.dup()),
        }
    }
}

impl<A: Model, B: Model> Model for (A, B) {
    type V = (A::V, B::V);

    open spec fn model(&self) -> (A::V, B::V) {
        (self.0.model(), self.1.model())
    }

    fn dup(&self) -> (copy: Self) {
        (self.0.dup(), self.1.dup())
    }
}

impl<A: Model, B: Model, C: Model> Model for (A, B, C) {
    type V = (A::V, B::V, C::V);

    open spec fn model(&self) -> (A::V, B::V, C::V) {
        (self.0.model(), self.1.model(), self.2.model())
    }

    fn dup(&self) -> (copy: Self) {
        (self.0.dup(), self.1.dup(), self.2.dup())
    }
}

impl<T: Model> Model for Vec<T> {
    type V = Seq<T::V>;

    open spec fn model(&self) -> Seq<T::V> {
        Seq::new(self@.len(), |i: int| self@[i].model())
    }

    fn dup(&self) -> (copy: Self) {
        let mut copy: Vec<T> = Vec::new();
        let mut i: usize = 0;
        while i < self.len()
            invariant
                i <= self.len(),
                copy.model() == self.model().take(i as int),
            decreases self.len() - i,
        {
            push_to(&mut copy, self[i].dup());
            assert(self.model().take(i + 1) =~= self.model().take(i as int).push(self.model()[i as int]));
            i += 1;
        }
        assert(self.model().take(self.len() as int) =~= self.model());
        copy
    }
}

/// Appends one value.
pub fn push_to<T: Model>(list: &mut Vec<T>, value: T)
    ensures
        final(list).model() == old(list).model().push(value.model()),
{
    let ghost before = list.model();
    list.push(value);
    assert(list.model() =~= before.push(value.model()));
}

/// Appends a copy of every value of `more`, in order.
pub fn extend_from<T: Model>(list: &mut Vec<T>, more: &Vec<T>)
    ensures
        final(list).model() == old(list).model() + more.model(),
{
    let mut i: usize = 0;
    let ghost before = list.model();
    assert(before + more.model().take(0) =~= before);
    while i < more.len()
        invariant
            i <= more.len(),
            list.model() == before + more.model().take(i as int),
        decreases more.len() - i,
    {
        push_to(list, more[i].dup());
        assert(before + more.model().take(i + 1) =~= (before + more.model().take(i as int)).push(
            more.model()[i as int],
        ));
        i += 1;
    }
    assert(more.model().take(more.len() as int) =~= more.model());
}

/// The first of two optional values that is present.
pub open spec fn first_some<V>(first: Option<V>, second: Option<V>) -> Option<V> {
    if first is Some {
        first
    } else {
        second
    }
}

/// Copies the first of two optional values that is present.
pub fn dup_first_some<T: Model>(first: &Option<T>, second: &Option<T>) -> (chosen: Option<T>)
    ensures
        chosen.model() == first_some(first.model(), second.model()),
{
    match first {
        Some(value) => Some(value.dup()),
        None => second.dup(),
    }
}

/// The empty list has the empty model.
pub fn empty_list<T: Model>() -> (list: Vec<T>)
    ensures
        list.model() == Seq::<T::V>::empty(),
{
    let list: Vec<T> = Vec::new();
    assert(list.model() =~= Seq::<T::V>::empty());
    list
}

/// The list that holds one value.
pub fn one_of<T: Model>(value: T) -> (list: Vec<T>)
    ensures
        list.model() == seq![value.model()],
{
    let mut list: Vec<T> = empty_list();
    push_to(&mut list, value);
    assert(list.model() =~= seq![value.model()]);
    list
}

/// Law: of two optional values the first is taken where there is one, and the second only where there
/// is not.
pub proof fn law_first_value_is_taken<V>(first: V, second: Option<V>)
    ensures
        first_some(Some(first), second) == Some(first),
        first_some(None, second) == second,
{
}

} // verus!
