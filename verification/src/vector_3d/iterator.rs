//! Double-ended iteration over the components of a [`Vector3d`].

use crate::cursor::{Cursor, Span};
use crate::vector_3d::Vector3d;
use vstd::prelude::*;

verus! {

/// Yields shared references to the components of a borrowed vector.
pub struct Iter<'a, T> {
    inner: &'a Vector3d<T>,
    span: Span,
}

/// Yields copies of the components of a vector it owns.
pub struct IntoIter<T> {
    inner: Vector3d<T>,
    span: Span,
}

/// Yields exclusive references to the components of an exclusively borrowed
/// vector. A yielded reference borrows from the iterator, so it has to be
/// given up before the next step.
pub struct IterMut<'a, T> {
    /// The vector whose components are yielded.
    pub inner: &'a mut Vector3d<T>,
    /// Where the traversal stands.
    pub span: Span,
}

impl<'a, T> Iter<'a, T> {
    #[verifier::type_invariant]
    spec fn well_formed(self) -> bool {
        self.span.count() == 3
    }

    /// The vector whose components are yielded.
    pub closed spec fn source(&self) -> Vector3d<T> {
        *self.inner
    }

    /// Where the traversal stands.
    pub closed spec fn cursor(&self) -> Cursor {
        self.span.cursor()
    }

    /// Whether a step has already found nothing left.
    pub closed spec fn finished(&self) -> bool {
        self.span.finished()
    }

    /// A fresh iterator over the components of `vector`.
    pub fn new(vector: &'a Vector3d<T>) -> (it: Self)
        ensures
            it.source() == *vector,
            it.cursor() == Cursor::start(3),
            !it.finished(),
    {
        Iter { inner: vector, span: Span::new(3) }
    }

    /// Yields the next component from the front.
    pub fn next(&mut self) -> (r: Option<&'a T>)
        ensures
            final(self).source() == old(self).source(),
            final(self).cursor() == old(self).cursor().after(false),
            final(self).finished() == (old(self).finished() || old(self).cursor().remaining == 0),
            match old(self).cursor().slot(false) {
                Some(s) => s < 3 && r == Some(&old(self).source()@[s as int]),
                None => r is None,
            },
    {
        proof {
            use_type_invariant(&*self);
        }
        let vector: &'a Vector3d<T> = self.inner;
        let slot = self.span.take_front();
        match slot {
            Some(0) => Some(&vector.i),
            Some(1) => Some(&vector.j),
            Some(_) => Some(&vector.k),
            None => None,
        }
    }

    /// Yields the next component from the back.
    pub fn next_back(&mut self) -> (r: Option<&'a T>)
        ensures
            final(self).source() == old(self).source(),
            final(self).cursor() == old(self).cursor().after(true),
            final(self).finished() == (old(self).finished() || old(self).cursor().remaining == 0),
            match old(self).cursor().slot(true) {
                Some(s) => s < 3 && r == Some(&old(self).source()@[s as int]),
                None => r is None,
            },
    {
        proof {
            use_type_invariant(&*self);
        }
        let vector: &'a Vector3d<T> = self.inner;
        let slot = self.span.take_back();
        match slot {
            Some(0) => Some(&vector.i),
            Some(1) => Some(&vector.j),
            Some(_) => Some(&vector.k),
            None => None,
        }
    }

    /// The number of components still to be yielded.
    pub fn len(&self) -> (n: usize)
        ensures
            n == self.cursor().remaining,
            n <= 3,
    {
        proof {
            use_type_invariant(self);
        }
        self.span.len()
    }

    /// The bounds on the number of components still to be yielded: both are
    /// the exact count, and the upper bound is withheld once a step has
    /// found nothing left.
    pub fn size_hint(&self) -> (r: (usize, Option<usize>))
        ensures
            r.0 == self.cursor().remaining,
            r.1 == (if self.finished() {
                None
            } else {
                Some(r.0)
            }),
    {
        self.span.size_hint()
    }
}

impl<T> IntoIter<T> {
    #[verifier::type_invariant]
    spec fn well_formed(self) -> bool {
        self.span.count() == 3
    }

    /// The vector whose components are yielded.
    pub closed spec fn source(&self) -> Vector3d<T> {
        self.inner
    }

    /// Where the traversal stands.
    pub closed spec fn cursor(&self) -> Cursor {
        self.span.cursor()
    }

    /// Whether a step has already found nothing left.
    pub closed spec fn finished(&self) -> bool {
        self.span.finished()
    }
}

impl<T: Copy> IntoIter<T> {
    /// A fresh iterator over the components of `vector`, which it takes over.
    pub fn new(vector: Vector3d<T>) -> (it: Self)
        ensures
            it.source() == vector,
            it.cursor() == Cursor::start(3),
            !it.finished(),
    {
        IntoIter { inner: vector, span: Span::new(3) }
    }

    /// Yields a copy of the next component from the front.
    pub fn next(&mut self) -> (r: Option<T>)
        ensures
            final(self).source() == old(self).source(),
            final(self).cursor() == old(self).cursor().after(false),
            final(self).finished() == (old(self).finished() || old(self).cursor().remaining == 0),
            match old(self).cursor().slot(false) {
                Some(s) => s < 3 && r == Some(old(self).source()@[s as int]),
                None => r is None,
            },
    {
        proof {
            use_type_invariant(&*self);
        }
        let slot = self.span.take_front();
        match slot {
            Some(0) => Some(self.inner.i),
            Some(1) => Some(self.inner.j),
            Some(_) => Some(self.inner.k),
            None => None,
        }
    }

    /// Yields a copy of the next component from the back.
    pub fn next_back(&mut self) -> (r: Option<T>)
        ensures
            final(self).source() == old(self).source(),
            final(self).cursor() == old(self).cursor().after(true),
            final(self).finished() == (old(self).finished() || old(self).cursor().remaining == 0),
            match old(self).cursor().slot(true) {
                Some(s) => s < 3 && r == Some(old(self).source()@[s as int]),
                None => r is None,
            },
    {
        proof {
            use_type_invariant(&*self);
        }
        let slot = self.span.take_back();
        match slot {
            Some(0) => Some(self.inner.i),
            Some(1) => Some(self.inner.j),
            Some(_) => Some(self.inner.k),
            None => None,
        }
    }

    /// The number of components still to be yielded.
    pub fn len(&self) -> (n: usize)
        ensures
            n == self.cursor().remaining,
            n <= 3,
    {
        proof {
            use_type_invariant(self);
        }
        self.span.len()
    }

    /// The bounds on the number of components still to be yielded: both are
    /// the exact count, and the upper bound is withheld once a step has
    /// found nothing left.
    pub fn size_hint(&self) -> (r: (usize, Option<usize>))
        ensures
            r.0 == self.cursor().remaining,
            r.1 == (if self.finished() {
                None
            } else {
                Some(r.0)
            }),
    {
        self.span.size_hint()
    }
}

impl<'a, T> IterMut<'a, T> {
    /// Whether the traversal is one over the slots of the vector. Every
    /// iterator that [`IterMut::new`] returns is well formed, and every step
    /// keeps it so.
    pub open spec fn wf(&self) -> bool {
        self.span.count() == 3
    }

    /// Where the traversal stands.
    pub open spec fn cursor(&self) -> Cursor {
        self.span.cursor()
    }

    /// Whether a step has already found nothing left.
    pub open spec fn finished(&self) -> bool {
        self.span.finished()
    }

    /// A fresh iterator over the components of `vector`. What the vector
    /// holds when the borrow ends is what the iterator's target holds then.
    pub fn new(vector: &'a mut Vector3d<T>) -> (it: Self)
        ensures
            it.wf(),
            *it.inner == *old(vector),
            *final(it.inner) == *final(vector),
            it.cursor() == Cursor::start(3),
            !it.finished(),
    {
        IterMut { inner: vector, span: Span::new(3) }
    }

    /// Yields the next component from the front, for reading and writing.
    /// What the caller leaves in the yielded component is what the target
    /// vector holds in that slot afterwards; the other slots keep their values.
    pub fn next(&mut self) -> (r: Option<&mut T>)
        requires
            old(self).wf(),
        ensures
            final(self).wf(),
            final(self).cursor() == old(self).cursor().after(false),
            final(self).finished() == (old(self).finished() || old(self).cursor().remaining == 0),
            *final(final(self).inner) == *final(old(self).inner),
            match old(self).cursor().slot(false) {
                Some(s) => s < 3 && r is Some && *r.unwrap() == old(self).inner@[s as int]
                    && *final(self).inner == old(self).inner.with_component(
                    s,
                    *final(r.unwrap()),
                ),
                None => r is None && *final(self).inner == *old(self).inner,
            },
    {
        let slot = self.span.take_front();
        match slot {
            Some(0) => Some(&mut self.inner.i),
            Some(1) => Some(&mut self.inner.j),
            Some(_) => Some(&mut self.inner.k),
            None => None,
        }
    }

    /// Yields the next component from the back, for reading and writing.
    /// What the caller leaves in the yielded component is what the target
    /// vector holds in that slot afterwards; the other slots keep their values.
    pub fn next_back(&mut self) -> (r: Option<&mut T>)
        requires
            old(self).wf(),
        ensures
            final(self).wf(),
            final(self).cursor() == old(self).cursor().after(true),
            final(self).finished() == (old(self).finished() || old(self).cursor().remaining == 0),
            *final(final(self).inner) == *final(old(self).inner),
            match old(self).cursor().slot(true) {
                Some(s) => s < 3 && r is Some && *r.unwrap() == old(self).inner@[s as int]
                    && *final(self).inner == old(self).inner.with_component(
                    s,
                    *final(r.unwrap()),
                ),
                None => r is None && *final(self).inner == *old(self).inner,
            },
    {
        let slot = self.span.take_back();
        match slot {
            Some(0) => Some(&mut self.inner.i),
            Some(1) => Some(&mut self.inner.j),
            Some(_) => Some(&mut self.inner.k),
            None => None,
        }
    }

    /// The number of components still to be yielded.
    pub fn len(&self) -> (n: usize)
        requires
            self.wf(),
        ensures
            n == self.cursor().remaining,
            n <= 3,
    {
        self.span.len()
    }
}

} // verus!
