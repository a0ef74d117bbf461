//! Element-wise access to the fixed-length types of this crate.
use vstd::prelude::*;
use crate::num::BaseNum;

verus! {

/// A fixed-length run of elements that can be read and replaced by position.
///
/// Positions count from zero. A caller that is verified shows that each
/// position it passes is in range; for any other caller, the types of this
/// library stop the program at a position that is not.
pub trait Array1<Element: Copy>: Sized {
    /// The elements, in order.
    spec fn elems(&self) -> Seq<Element>;

    /// The element at position `i`.
    fn get(&self, i: usize) -> (r: &Element)
        requires
            i < self.elems().len(),
        ensures
            *r == self.elems()[i as int],
    ;

    /// The element at position `i`, for writing. Only that position changes.
    fn get_mut(&mut self, i: usize) -> (r: &mut Element)
        requires
            i < old(self).elems().len(),
        ensures
            *r == old(self).elems()[i as int],
            final(self).elems() =~= old(self).elems().update(i as int, *final(r)),
    ;

    /// Replaces every element by what `op` makes of it, from the first to
    /// the last, and returns the new value.
    fn map<F: Fn(Element) -> Element>(&mut self, op: F) -> (r: Self)
        requires
            forall|i: int|
                0 <= i < old(self).elems().len() ==> call_requires(op, (#[trigger] old(self).elems()[i],)),
        ensures
            final(self).elems().len() == old(self).elems().len(),
            forall|i: int|
                0 <= i < old(self).elems().len() ==> call_ensures(
                    op,
                    (old(self).elems()[i],),
                    #[trigger] final(self).elems()[i],
                ),
            r.elems() == final(self).elems(),
    ;

    /// The first element.
    fn ptr(&self) -> (r: &Element)
        requires
            self.elems().len() > 0,
        ensures
            *r == self.elems()[0],
    {
        self.get(0)
    }

    /// The first element, for writing.
    fn mut_ptr(&mut self) -> (r: &mut Element)
        requires
            old(self).elems().len() > 0,
        ensures
            *r == old(self).elems()[0],
            final(self).elems() == old(self).elems().update(0, *final(r)),
    {
        self.get_mut(0)
    }

    /// Exchanges the elements at positions `i` and `j`.
    fn swap_elems(&mut self, i: usize, j: usize)
        requires
            i < old(self).elems().len(),
            j < old(self).elems().len(),
        ensures
            final(self).elems() == old(self).elems().update(i as int, old(self).elems()[j as int]).update(
                j as int,
                old(self).elems()[i as int],
            ),
    {
        let a = *self.get(i);
        let b = *self.get(j);
        *self.get_mut(i) = b;
        *self.get_mut(j) = a;
    }

    /// Puts `src` at position `i` and returns the element that was there.
    fn replace_elem(&mut self, i: usize, src: Element) -> (r: Element)
        requires
            i < old(self).elems().len(),
        ensures
            r == old(self).elems()[i as int],
            final(self).elems() == old(self).elems().update(i as int, src),
    {
        let previous = *self.get(i);
        *self.get_mut(i) = src;
        previous
    }

    /// The elements from position `start` up to, not including, `end`.
    fn range(&self, start: usize, end: usize) -> (r: Vec<Element>)
        requires
            start <= end <= self.elems().len(),
        ensures
            r@ == self.elems().subrange(start as int, end as int),
    {
        let mut out: Vec<Element> = Vec::new();
        let mut i: usize = start;
        while i < end
            invariant
                start <= i <= end <= self.elems().len(),
                out@ == self.elems().subrange(start as int, i as int),
            decreases end - i,
        {
            out.push(*self.get(i));
            i += 1;
        }
        out
    }
}

/// A fixed-size table of elements, kept as its columns.
pub trait Array2<Column: Array1<Element> + Copy + 'static, Row: Array1<Element>, Element: Copy>: Sized {
    /// The columns, in order.
    spec fn cols(&self) -> Seq<Column>;

    /// The column at position `c`.
    fn col(&self, c: usize) -> (r: &Column)
        requires
            c < self.cols().len(),
        ensures
            *r == self.cols()[c as int],
    ;

    /// The column at position `c`, for writing. Only that column changes.
    fn col_mut(&mut self, c: usize) -> (r: &mut Column)
        requires
            c < old(self).cols().len(),
        ensures
            *r == old(self).cols()[c as int],
            final(self).cols() =~= old(self).cols().update(c as int, *final(r)),
    ;

    /// The row at position `r`: the elements at position `r` of the columns.
    fn row(&self, r: usize) -> (row: Row)
        requires
            forall|c: int| 0 <= c < self.cols().len() ==> r < (#[trigger] self.cols()[c]).elems().len(),
        ensures
            row.elems().len() == self.cols().len(),
            forall|c: int|
                0 <= c < self.cols().len() ==> row.elems()[c] == (#[trigger] self.cols()[c]).elems()[r as int],
    ;

    /// Exchanges the rows at positions `a` and `b`.
    fn swap_rows(&mut self, a: usize, b: usize)
        requires
            forall|c: int|
                0 <= c < old(self).cols().len() ==> a < (#[trigger] old(self).cols()[c]).elems().len() && b
                    < old(self).cols()[c].elems().len(),
        ensures
            final(self).cols().len() == old(self).cols().len(),
            forall|c: int|
                0 <= c < old(self).cols().len() ==> (#[trigger] final(self).cols()[c]).elems() == old(
                    self,
                ).cols()[c].elems().update(a as int, old(self).cols()[c].elems()[b as int]).update(
                    b as int,
                    old(self).cols()[c].elems()[a as int],
                ),
    ;

    /// Replaces every column by what `op` makes of it, from the first to the
    /// last, and returns the new value.
    fn map<F: Fn(&Column) -> Column>(&mut self, op: F) -> (r: Self)
        requires
            forall|c: int|
                0 <= c < old(self).cols().len() ==> call_requires(op, (&#[trigger] old(self).cols()[c],)),
        ensures
            final(self).cols().len() == old(self).cols().len(),
            forall|c: int|
                0 <= c < old(self).cols().len() ==> call_ensures(
                    op,
                    (&old(self).cols()[c],),
                    #[trigger] final(self).cols()[c],
                ),
            r.cols() == final(self).cols(),
    ;

    /// The first element of the first column.
    fn ptr(&self) -> (r: &Element)
        requires
            self.cols().len() > 0,
            self.cols()[0].elems().len() > 0,
        ensures
            *r == self.cols()[0].elems()[0],
    {
        self.col(0).get(0)
    }

    /// The first element of the first column, for writing.
    fn mut_ptr(&mut self) -> (r: &mut Element)
        requires
            old(self).cols().len() > 0,
            old(self).cols()[0].elems().len() > 0,
        ensures
            *r == old(self).cols()[0].elems()[0],
            final(self).cols().len() == old(self).cols().len(),
            final(self).cols()[0].elems() == old(self).cols()[0].elems().update(0, *final(r)),
            forall|c: int| 0 < c < old(self).cols().len() ==> final(self).cols()[c] == old(self).cols()[c],
    {
        self.col_mut(0).get_mut(0)
    }

    /// Exchanges the columns at positions `a` and `b`.
    fn swap_cols(&mut self, a: usize, b: usize)
        requires
            a < old(self).cols().len(),
            b < old(self).cols().len(),
        ensures
            final(self).cols() == old(self).cols().update(a as int, old(self).cols()[b as int]).update(
                b as int,
                old(self).cols()[a as int],
            ),
    {
        let first = *self.col(a);
        let second = *self.col(b);
        *self.col_mut(a) = second;
        *self.col_mut(b) = first;
    }

    /// Puts `src` at position `c` and returns the column that was there.
    fn replace_col(&mut self, c: usize, src: Column) -> (r: Column)
        requires
            c < old(self).cols().len(),
        ensures
            r == old(self).cols()[c as int],
            final(self).cols() == old(self).cols().update(c as int, src),
    {
        let previous = *self.col(c);
        *self.col_mut(c) = src;
        previous
    }

    /// Exchanges two elements, each given by its column and its row.
    fn swap_elems(&mut self, a: (usize, usize), b: (usize, usize))
        requires
            a.0 < old(self).cols().len(),
            b.0 < old(self).cols().len(),
            a.1 < old(self).cols()[a.0 as int].elems().len(),
            b.1 < old(self).cols()[b.0 as int].elems().len(),
        ensures
            final(self).cols().len() == old(self).cols().len(),
            final(self).cols()[a.0 as int].elems()[a.1 as int] == old(self).cols()[b.0 as int].elems()[b.1 as int],
            final(self).cols()[b.0 as int].elems()[b.1 as int] == old(self).cols()[a.0 as int].elems()[a.1 as int],
            forall|c: int, r: int|
                0 <= c < old(self).cols().len() && 0 <= r < old(self).cols()[c].elems().len() && !(c == a.0
                    && r == a.1) && !(c == b.0 && r == b.1) ==> #[trigger] final(self).cols()[c].elems()[r]
                    == old(self).cols()[c].elems()[r],
    {
        let (ac, ar) = a;
        let (bc, br) = b;
        let first = *self.col(ac).get(ar);
        let second = *self.col(bc).get(br);
        *self.col_mut(ac).get_mut(ar) = second;
        *self.col_mut(bc).get_mut(br) = first;
    }
}

/// Reductions over the elements of a fixed-length value.
pub trait Array: Copy + Sized {
    type Element: BaseNum;

    spec fn sum_spec(self) -> Self::Element;

    spec fn product_spec(self) -> Self::Element;

    spec fn min_spec(self) -> Self::Element;

    spec fn max_spec(self) -> Self::Element;

    /// The sum of the elements, added from the first to the last.
    fn sum(self) -> (r: Self::Element)
        ensures
            r == self.sum_spec(),
    ;

    /// The product of the elements, multiplied from the first to the last.
    fn product(self) -> (r: Self::Element)
        ensures
            r == self.product_spec(),
    ;

    /// The smallest element, by the scalar's partial minimum.
    fn min(self) -> (r: Self::Element)
        ensures
            r == self.min_spec(),
    ;

    /// The largest element, by the scalar's partial maximum.
    fn max(self) -> (r: Self::Element)
        ensures
            r == self.max_spec(),
    ;
}

/// Values that convert to and from a fixed-size array, or a tuple, by copying
/// their elements in order.
pub trait FixedArray<V>: Sized {
    spec fn into_fixed_spec(self) -> V;

    spec fn from_fixed_spec(v: V) -> Self;

    /// Converting to the fixed form and back gives the same value.
    proof fn lemma_round_trip(self)
        ensures
            Self::from_fixed_spec(self.into_fixed_spec()) == self,
    ;

    fn into_fixed(self) -> (r: V)
        ensures
            r == self.into_fixed_spec(),
    ;

    fn from_fixed(v: V) -> (r: Self)
        ensures
            r == Self::from_fixed_spec(v),
    ;
}

} // verus!
