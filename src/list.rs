//! An immutable singly-linked sequence, viewed as a `Seq`.

use vstd::prelude::*;

verus! {

pub enum List<T> {
    Cons(T, Box<List<T>>),
    Nil,
}

impl<T> List<T> {
    /// The elements, first to last.
    pub open spec fn elements(&self) -> Seq<T>
        decreases self,
    {
        match self {
            List::Cons(head, tail) => seq![*head] + tail.elements(),
            List::Nil => Seq::empty(),
        }
    }
}

impl<T> View for List<T> {
    type V = Seq<T>;

    open spec fn view(&self) -> Seq<T> {
        self.elements()
    }
}

/// The characters of each string of a sequence of strings.
pub open spec fn string_views(s: Seq<String>) -> Seq<Seq<char>> {
    s.map_values(|x: String| x@)
}

impl<T> List<T> {
    /// The number of elements.
    pub fn len(&self) -> (r: usize)
        requires
            self@.len() <= usize::MAX,
        ensures
            r == self@.len(),
        decreases self,
    {
        match self {
            List::Cons(_, tail) => 1 + tail.len(),
            List::Nil => 0,
        }
    }

    /// The first element; the list must not be empty.
    pub fn first(&self) -> (r: &T)
        requires
            self@.len() > 0,
        ensures
            *r == self@[0],
    {
        match self {
            List::Cons(v, _) => v,
            List::Nil => {
                proof {
                    assert(self@.len() == 0);
                }
                unreached()
            },
        }
    }

    /// A list holding the same elements followed by `x`.
    pub fn push(self, x: T) -> (r: Self)
        ensures
            r@ == self@.push(x),
        decreases self,
    {
        match self {
            List::Cons(head, tail) => {
                let rest = (*tail).push(x);
                proof {
                    assert(seq![head] + tail@.push(x) =~= (seq![head] + tail@).push(x));
                }
                List::Cons(head, Box::new(rest))
            },
            List::Nil => {
                proof {
                    assert(seq![x] + Seq::<T>::empty() =~= Seq::<T>::empty().push(x));
                }
                List::Cons(x, Box::new(List::Nil))
            },
        }
    }
}

impl List<String> {
    /// Whether some element has the same characters as `x`.
    pub fn contains(&self, x: &String) -> (r: bool)
        ensures
            r == string_views(self@).contains(x@),
        decreases self,
    {
        match self {
            List::Cons(y, tail) => {
                let found_here = *x == *y;
                let found_later = tail.contains(x);
                proof {
                    let all = string_views(self@);
                    let rest = string_views(tail@);
                    assert(all =~= seq![y@] + rest);
                    assert(all[0] == y@);
                    assert(self@ == seq![*y] + tail@);
                    if found_later {
                        let i = choose|i: int| 0 <= i < rest.len() && rest[i] == x@;
                        assert(all[i + 1] == x@);
                    }
                    if all.contains(x@) && !found_here {
                        let i = choose|i: int| 0 <= i < all.len() && all[i] == x@;
                        assert(rest[i - 1] == x@);
                    }
                }
                found_here || found_later
            },
            List::Nil => {
                proof {
                    assert(string_views(self@) =~= Seq::<Seq<char>>::empty());
                }
                false
            },
        }
    }
}

impl<T: Clone> Clone for List<T> {
    /// Each element cloned, in the same order.
    fn clone(&self) -> (r: Self)
        ensures
            r@.len() == self@.len(),
            forall|i: int| 0 <= i < self@.len() ==> cloned::<T>(self@[i], #[trigger] r@[i]),
        decreases self,
    {
        match self {
            List::Cons(head, tail) => {
                let h = head.clone();
                let t = (**tail).clone();
                let r = List::Cons(h, Box::new(t));
                proof {
                    assert forall|i: int| 0 <= i < self@.len() implies cloned::<T>(
                        self@[i],
                        #[trigger] r@[i],
                    ) by {
                        if i > 0 {
                            assert(self@[i] == tail@[i - 1]);
                            assert(r@[i] == t@[i - 1]);
                        }
                    }
                }
                r
            },
            List::Nil => List::Nil,
        }
    }
}

} // verus!
