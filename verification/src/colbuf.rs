use vstd::prelude::*;

verus! {

/// `heapless::Vec`, declared so that column buffers can stand in fields and signatures; what a
/// buffer holds is seen only through `col_contents` and the wrappers below.
#[verifier::external_type_specification]
#[verifier::external_body]
#[verifier::reject_recursive_types(T)]
pub struct ExHeaplessVec<T, const N: usize>(heapless::Vec<T, N>);

/// A fixed-capacity buffer of display columns, one per column of the virtual display.
pub type ColBuf = heapless::Vec<u8, 54>;

/// Capacity of a column buffer: the width of the virtual display.
pub const COLBUF_CAPACITY: usize = 54;

/// The columns a buffer holds, in order (the items of the `heapless::Vec`).
pub uninterp spec fn col_contents(v: heapless::Vec<u8, 54>) -> Seq<u8>;

/// `heapless::Vec::new`: an empty buffer.
#[verifier::external_body]
pub fn col_new() -> (r: ColBuf)
    ensures
        col_contents(r) == Seq::<u8>::empty(),
{
    heapless::Vec::new()
}

/// `heapless::Vec::push`: appends `item` when the buffer is not full, else hands `item` back
/// and leaves the buffer as it was.
#[verifier::external_body]
pub fn col_push(v: &mut ColBuf, item: u8) -> (r: Result<(), u8>)
    ensures
        r == if col_contents(*old(v)).len() < COLBUF_CAPACITY {
            Ok::<(), u8>(())
        } else {
            Err::<(), u8>(item)
        },
        col_contents(*final(v)) == if col_contents(*old(v)).len() < COLBUF_CAPACITY {
            col_contents(*old(v)).push(item)
        } else {
            col_contents(*old(v))
        },
{
    v.push(item)
}

/// `heapless::Vec::remove`: takes out the column at `index`, shifting the later ones down.
#[verifier::external_body]
pub fn col_remove(v: &mut ColBuf, index: usize) -> (r: u8)
    requires
        index < col_contents(*old(v)).len(),
    ensures
        r == col_contents(*old(v))[index as int],
        col_contents(*final(v)) == col_contents(*old(v)).remove(index as int),
{
    v.remove(index)
}

/// `heapless::Vec::clear`: empties the buffer.
#[verifier::external_body]
pub fn col_clear(v: &mut ColBuf)
    ensures
        col_contents(*final(v)) == Seq::<u8>::empty(),
{
    v.clear()
}

/// `heapless::Vec::resize_default`: grows the buffer with zero columns, or cuts it, to
/// `new_len` columns; fails and leaves it as it was when `new_len` exceeds the capacity.
#[verifier::external_body]
pub fn col_resize_default(v: &mut ColBuf, new_len: usize) -> (r: Result<(), ()>)
    ensures
        r == if new_len > COLBUF_CAPACITY {
            Err::<(), ()>(())
        } else {
            Ok::<(), ()>(())
        },
        col_contents(*final(v)) == if new_len > COLBUF_CAPACITY {
            col_contents(*old(v))
        } else if new_len > col_contents(*old(v)).len() {
            col_contents(*old(v)) + Seq::new(
                (new_len - col_contents(*old(v)).len()) as nat,
                |i: int| 0u8,
            )
        } else {
            col_contents(*old(v)).subrange(0, new_len as int)
        },
{
    v.resize_default(new_len)
}

/// The column at `index` (through the buffer's slice `get`), if there is one.
#[verifier::external_body]
pub fn col_get(v: &ColBuf, index: usize) -> (r: Option<u8>)
    ensures
        index < col_contents(*v).len() ==> r == Some(col_contents(*v)[index as int]),
        index >= col_contents(*v).len() ==> r is None,
{
    v.get(index).copied()
}

} // verus!
