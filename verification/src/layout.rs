//! Plane layout of a raw frame, as read off the answer of the native layout
//! query.
//!
//! The native query fills two line sizes, two plane offsets and a total
//! length, all as C integers, and returns a status. This module decides what
//! that answer means: a non-zero status is a failure and carries no layout; a
//! zero status yields the numbers as machine-sized unsigned integers.

use vstd::prelude::*;

verus! {

/// Line sizes of the two planes, their offsets in the buffer, and the
/// buffer's total length, all in bytes.
pub type Layout = ([usize; 2], [usize; 2], usize);

/// A C integer read as a machine-sized unsigned one: itself where it is not
/// negative, else wrapped around the top of the unsigned range.
pub open spec fn as_size(v: int) -> int {
    if v >= 0 {
        v
    } else {
        v + usize::MAX + 1
    }
}

/// What a native answer means: nothing unless the status is zero.
pub open spec fn layout_of(
    status: int,
    linesize: Seq<i32>,
    offset: Seq<i32>,
    length: int,
) -> Option<(Seq<int>, Seq<int>, int)> {
    if status == 0 {
        Some(
            (
                seq![as_size(linesize[0] as int), as_size(linesize[1] as int)],
                seq![as_size(offset[0] as int), as_size(offset[1] as int)],
                as_size(length),
            ),
        )
    } else {
        None
    }
}

/// The sizes of a layout as mathematical integers.
pub open spec fn layout_model(l: Layout) -> (Seq<int>, Seq<int>, int) {
    (seq![l.0@[0] as int, l.0@[1] as int], seq![l.1@[0] as int, l.1@[1] as int], l.2 as int)
}

/// Repeating the query changes nothing: two layouts read off equal answers
/// hold the same numbers.
pub proof fn lemma_layout_repeatable(
    status: int,
    linesize: Seq<i32>,
    offset: Seq<i32>,
    length: int,
    first: Layout,
    second: Layout,
)
    requires
        Some(layout_model(first)) == layout_of(status, linesize, offset, length),
        Some(layout_model(second)) == layout_of(status, linesize, offset, length),
    ensures
        layout_model(first) == layout_model(second),
        first.0@ =~= second.0@,
        first.1@ =~= second.1@,
        first.2 == second.2,
{
    let a = layout_model(first);
    let b = layout_model(second);
    assert(a.0[0] == b.0[0] && a.0[1] == b.0[1]);
    assert(a.1[0] == b.1[0] && a.1[1] == b.1[1]);
}

/// Reads a C integer as a `usize`, wrapping a negative one.
pub fn size_of_int(v: i32) -> (res: usize)
    ensures
        res == as_size(v as int),
{
    if v >= 0 {
        v as usize
    } else {
        let below: i32 = -(v + 1);
        usize::MAX - (below as usize)
    }
}

/// Turns the answer of the native layout query into a layout.
///
/// Fails exactly where `status` is not zero; no numbers are handed out then,
/// whatever the buffers hold. On success the result depends on the answer
/// alone, so equal answers give equal layouts.
pub fn layout_from_native(status: i32, linesize: [i32; 2], offset: [i32; 2], length: i32) -> (res:
    Result<Layout, ()>)
    ensures
        res is Ok <==> status == 0,
        match res {
            Ok(l) => Some(layout_model(l)) == layout_of(
                status as int,
                linesize@,
                offset@,
                length as int,
            ),
            Err(_) => layout_of(status as int, linesize@, offset@, length as int) is None,
        },
{
    if status == 0 {
        let sizes: [usize; 2] = [size_of_int(linesize[0]), size_of_int(linesize[1])];
        let offsets: [usize; 2] = [size_of_int(offset[0]), size_of_int(offset[1])];
        Ok((sizes, offsets, size_of_int(length)))
    } else {
        Err(())
    }
}

} // verus!
