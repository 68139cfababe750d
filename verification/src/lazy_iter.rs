use vstd::prelude::*;

use std::rc::Rc;

verus! {

/// `Rc::clone`: another pointer to the same allocation, so the same value.
#[verifier::external_body]
fn rc_clone<T>(r: &Rc<T>) -> (c: Rc<T>)
    ensures
        c == *r,
{
    Rc::clone(r)
}

/// An iterator that computes its values one at a time.
pub trait LazyIter<T>: Sized {
    /// The next value, or `None` once the iterator is done.
    fn next(&mut self) -> Option<T>;

    /// The values that are left, in order, as one shared array.
    fn into_array(&mut self) -> Rc<Vec<T>>;
}

/// An iterator over the elements of a shared array.
pub struct ArrayIter<T> {
    array: Rc<Vec<T>>,
    idx: usize,
}

impl<T> ArrayIter<T> {
    #[verifier::type_invariant]
    spec fn inv(self) -> bool {
        self.idx <= self.array@.len()
    }

    /// The elements iterated over.
    pub closed spec fn items(&self) -> Seq<T> {
        (*self.array)@
    }

    /// The shared array iterated over.
    pub closed spec fn shared(&self) -> Rc<Vec<T>> {
        self.array
    }

    /// How many elements have been handed out.
    pub closed spec fn position(&self) -> int {
        self.idx as int
    }

    /// An iterator at the first element of the array.
    pub fn new(array: Rc<Vec<T>>) -> (it: ArrayIter<T>)
        ensures
            it.shared() == array,
            it.items() == (*array)@,
            it.position() == 0,
    {
        ArrayIter { array, idx: 0 }
    }
}

impl<T: Clone> LazyIter<T> for ArrayIter<T> {
    /// A clone of the element at the position, which then moves on by one.
    fn next(&mut self) -> (r: Option<T>)
        ensures
            final(self).items() == old(self).items(),
            final(self).shared() == old(self).shared(),
            old(self).position() < old(self).items().len() ==> {
                &&& r is Some
                &&& cloned(old(self).items()[old(self).position()], r->0)
                &&& final(self).position() == old(self).position() + 1
            },
            old(self).position() >= old(self).items().len() ==> r is None && final(self).position()
                == old(self).position(),
    {
        proof {
            use_type_invariant(&*self);
        }
        if self.idx < self.array.len() {
            let value = self.array[self.idx].clone();
            self.idx = self.idx + 1;
            Option::Some(value)
        } else {
            Option::None
        }
    }

    /// The shared array itself, whatever the position: no copy is made.
    fn into_array(&mut self) -> (r: Rc<Vec<T>>)
        ensures
            r == old(self).shared(),
            *final(self) == *old(self),
    {
        rc_clone(&self.array)
    }
}

/// The integers from `current` up to `end`, `end` excluded.
pub struct RangeIter {
    end: i64,
    current: i64,
}

impl RangeIter {
    #[verifier::type_invariant]
    spec fn inv(self) -> bool {
        self.current <= self.end
    }

    pub closed spec fn current(&self) -> int {
        self.current as int
    }

    pub closed spec fn end(&self) -> int {
        self.end as int
    }

    /// The values that are left.
    pub open spec fn remaining(&self) -> Seq<i64> {
        Seq::new((self.end() - self.current()) as nat, |i: int| (self.current() + i) as i64)
    }

    /// A range from `start` to `end`, which must not come before it.
    pub fn new(start: i64, end: i64) -> (it: RangeIter)
        requires
            start <= end,
        ensures
            it.current() == start,
            it.end() == end,
    {
        RangeIter { end, current: start }
    }
}

impl LazyIter<i64> for RangeIter {
    /// The current value, which then goes up by one, until it reaches the end.
    fn next(&mut self) -> (r: Option<i64>)
        ensures
            final(self).end() == old(self).end(),
            old(self).current() != old(self).end() ==> r == Option::Some(old(self).current() as i64)
                && final(self).current() == old(self).current() + 1,
            old(self).current() == old(self).end() ==> r is None && final(self).current() == old(
                self,
            ).current(),
    {
        proof {
            use_type_invariant(&*self);
        }
        if self.current != self.end {
            let value = self.current;
            self.current = self.current + 1;
            Option::Some(value)
        } else {
            Option::None
        }
    }

    /// Collects the values that are left.
    fn into_array(&mut self) -> (r: Rc<Vec<i64>>)
        ensures
            (*r)@ == old(self).remaining(),
            final(self).current() == final(self).end(),
            final(self).end() == old(self).end(),
    {
        proof {
            use_type_invariant(&*self);
        }
        let mut arr: Vec<i64> = Vec::new();
        loop
            invariant_except_break
                self.end() == old(self).end(),
                old(self).current() <= self.current() <= self.end(),
                arr@ == Seq::new(
                    (self.current() - old(self).current()) as nat,
                    |i: int| (old(self).current() + i) as i64,
                ),
            ensures
                self.end() == old(self).end(),
                self.current() == self.end(),
                arr@ == old(self).remaining(),
            decreases self.end() - self.current(),
        {
            proof {
                use_type_invariant(&*self);
            }
            match self.next() {
                Option::Some(x) => {
                    arr.push(x);
                    assert(arr@ =~= Seq::new(
                        (self.current() - old(self).current()) as nat,
                        |i: int| (old(self).current() + i) as i64,
                    ));
                },
                Option::None => {
                    assert(arr@ =~= old(self).remaining());
                    break;
                },
            }
        }
        Rc::new(arr)
    }
}

/// The integers from `current` down to `end`, `end` excluded.
pub struct ReverseRangeIter {
    end: i64,
    current: i64,
}

impl ReverseRangeIter {
    #[verifier::type_invariant]
    spec fn inv(self) -> bool {
        self.current >= self.end
    }

    pub closed spec fn current(&self) -> int {
        self.current as int
    }

    pub closed spec fn end(&self) -> int {
        self.end as int
    }

    /// The values that are left.
    pub open spec fn remaining(&self) -> Seq<i64> {
        Seq::new((self.current() - self.end()) as nat, |i: int| (self.current() - i) as i64)
    }

    /// A range from `start` down to `end`, which must not come after it.
    pub fn new(start: i64, end: i64) -> (it: ReverseRangeIter)
        requires
            start >= end,
        ensures
            it.current() == start,
            it.end() == end,
    {
        ReverseRangeIter { end, current: start }
    }
}

impl LazyIter<i64> for ReverseRangeIter {
    /// The current value, which then goes down by one, until it reaches the
    /// end.
    fn next(&mut self) -> (r: Option<i64>)
        ensures
            final(self).end() == old(self).end(),
            old(self).current() != old(self).end() ==> r == Option::Some(old(self).current() as i64)
                && final(self).current() == old(self).current() - 1,
            old(self).current() == old(self).end() ==> r is None && final(self).current() == old(
                self,
            ).current(),
    {
        proof {
            use_type_invariant(&*self);
        }
        if self.current != self.end {
            let value = self.current;
            self.current = self.current - 1;
            Option::Some(value)
        } else {
            Option::None
        }
    }

    /// Collects the values that are left.
    fn into_array(&mut self) -> (r: Rc<Vec<i64>>)
        ensures
            (*r)@ == old(self).remaining(),
            final(self).current() == final(self).end(),
            final(self).end() == old(self).end(),
    {
        proof {
            use_type_invariant(&*self);
        }
        let mut arr: Vec<i64> = Vec::new();
        loop
            invariant_except_break
                self.end() == old(self).end(),
                self.end() <= self.current() <= old(self).current(),
                arr@ == Seq::new(
                    (old(self).current() - self.current()) as nat,
                    |i: int| (old(self).current() - i) as i64,
                ),
            ensures
                self.end() == old(self).end(),
                self.current() == self.end(),
                arr@ == old(self).remaining(),
            decreases self.current() - self.end(),
        {
            proof {
                use_type_invariant(&*self);
            }
            match self.next() {
                Option::Some(x) => {
                    arr.push(x);
                    assert(arr@ =~= Seq::new(
                        (old(self).current() - self.current()) as nat,
                        |i: int| (old(self).current() - i) as i64,
                    ));
                },
                Option::None => {
                    assert(arr@ =~= old(self).remaining());
                    break;
                },
            }
        }
        Rc::new(arr)
    }
}

} // verus!
