//! Fixed-capacity sequences of snake grid cells, kept in `heapless::Vec`.
//! `cells_of` names what such a sequence holds; each wrapper below states over
//! it what the `heapless` source does.
use vstd::prelude::*;
use crate::snake::Point;

verus! {

/// Capacity of every cell sequence.
pub const MAX_VEC_SIZE: usize = 100;

#[verifier::external_type_specification]
#[verifier::external_body]
#[verifier::reject_recursive_types(T)]
pub struct ExHeaplessVec<T, const N: usize>(heapless::Vec<T, N>);

/// A sequence of at most `MAX_VEC_SIZE` cells.
pub type Cells = heapless::Vec<Point, MAX_VEC_SIZE>;

/// The cells that a `Cells` holds, in order.
pub uninterp spec fn cells_of(v: heapless::Vec<Point, MAX_VEC_SIZE>) -> Seq<Point>;

/// Relies on `heapless::Vec::new`: the new vector is empty.
#[verifier::external_body]
pub(crate) fn empty_cells() -> (r: Cells)
    ensures
        cells_of(r) == Seq::<Point>::empty(),
{
    heapless::Vec::new()
}

/// Relies on `len` of the slice that `heapless::Vec` dereferences to: the number
/// of cells held, never above the capacity.
#[verifier::external_body]
pub(crate) fn cell_count(v: &Cells) -> (r: usize)
    ensures
        r == cells_of(*v).len(),
        r <= MAX_VEC_SIZE,
{
    v.len()
}

/// Relies on indexing the slice that `heapless::Vec` dereferences to.
#[verifier::external_body]
pub(crate) fn cell_at(v: &Cells, i: usize) -> (r: Point)
    requires
        i < cells_of(*v).len(),
    ensures
        r == cells_of(*v)[i as int],
{
    v[i]
}

/// Relies on `heapless::Vec::push`: appends when below capacity, else hands
/// the cell back and leaves the vector as it was.
#[verifier::external_body]
pub(crate) fn push_cell(v: &mut Cells, p: Point) -> (r: bool)
    ensures
        r == (cells_of(*old(v)).len() < MAX_VEC_SIZE),
        r ==> cells_of(*final(v)) == cells_of(*old(v)).push(p),
        !r ==> *final(v) == *old(v),
{
    v.push(p).is_ok()
}

/// Relies on `heapless::Vec::insert` at index 0: shifts the cells back and puts
/// the new one first when below capacity, else leaves the vector as it was.
#[verifier::external_body]
pub(crate) fn insert_front(v: &mut Cells, p: Point) -> (r: bool)
    ensures
        r == (cells_of(*old(v)).len() < MAX_VEC_SIZE),
        r ==> cells_of(*final(v)) == seq![p] + cells_of(*old(v)),
        !r ==> *final(v) == *old(v),
{
    v.insert(0, p).is_ok()
}

/// Relies on `heapless::Vec::pop`: removes and returns the last cell, if any.
#[verifier::external_body]
pub(crate) fn pop_cell(v: &mut Cells) -> (r: Option<Point>)
    ensures
        cells_of(*old(v)).len() == 0 ==> r is None && *final(v) == *old(v),
        cells_of(*old(v)).len() > 0 ==> r == Some(cells_of(*old(v)).last())
            && cells_of(*final(v)) == cells_of(*old(v)).drop_last(),
{
    v.pop()
}

/// Relies on `heapless::Vec::remove`: takes out the cell at `i` and shifts the
/// later ones forward.
#[verifier::external_body]
pub(crate) fn remove_cell(v: &mut Cells, i: usize) -> (r: Point)
    requires
        i < cells_of(*old(v)).len(),
    ensures
        r == cells_of(*old(v))[i as int],
        cells_of(*final(v)) == cells_of(*old(v)).remove(i as int),
{
    v.remove(i)
}

/// Whether `p` is one of the cells of `v`.
pub fn holds_cell(v: &Cells, p: Point) -> (r: bool)
    ensures
        r == cells_of(*v).contains(p),
{
    let n = cell_count(v);
    let mut i: usize = 0;
    while i < n
        invariant
            n == cells_of(*v).len(),
            i <= n,
            forall|j: int| 0 <= j < i ==> cells_of(*v)[j] != p,
        decreases n - i,
    {
        if cell_at(v, i) == p {
            return true;
        }
        i += 1;
    }
    false
}

} // verus!
