//! Where accessors to physical memory map it.
//!
//! An accessor maps a region of physical memory and then reads and writes it volatilely. This
//! module decides which region an accessor maps, whether its base address is aligned, and where
//! each element of an array lies; the mapping and the accesses themselves are left to the
//! caller.
use crate::error::Error;
use vstd::layout::layout_for_type_is_valid;
use vstd::prelude::*;

verus! {

/// A region of physical memory that an accessor maps: its first address and its size in bytes.
#[derive(Copy, Clone, Debug, PartialEq, Eq, Structural)]
pub struct Mapping {
    /// The first physical address of the region.
    pub phys_start: usize,
    /// The size of the region in bytes.
    pub bytes: usize,
}

/// Returns whether `phys_base` is aligned for a value of `T`.
pub fn is_aligned<T>(phys_base: usize) -> (r: bool)
    ensures
        r == (phys_base as int % vstd::layout::align_of::<T>() as int == 0),
{
    layout_for_type_is_valid::<T>();
    phys_base % core::mem::align_of::<T>() == 0
}

/// Returns the region that an accessor to a single value of `T` at `phys_base + offset` maps.
///
/// # Errors
///
/// This function returns [`Error::NotAligned`] with the alignment of `T` and `phys_base` if
/// `phys_base` is not aligned for `T`.
pub fn single_mapping<T>(phys_base: usize, offset: usize) -> (r: Result<Mapping, Error>)
    requires
        phys_base + offset <= usize::MAX,
    ensures
        r == (if phys_base as int % vstd::layout::align_of::<T>() as int == 0 {
            Ok(Mapping { phys_start: (phys_base + offset) as usize, bytes: vstd::layout::size_of::<T>() as usize })
        } else {
            Err(
                Error::NotAligned {
                    alignment: vstd::layout::align_of::<T>() as u64,
                    address: phys_base as u64,
                },
            )
        }),
{
    layout_for_type_is_valid::<T>();
    if is_aligned::<T>(phys_base) {
        Ok(Mapping { phys_start: phys_base + offset, bytes: core::mem::size_of::<T>() })
    } else {
        Err(
            Error::NotAligned {
                alignment: core::mem::align_of::<T>() as u64,
                address: phys_base as u64,
            },
        )
    }
}

/// Returns the region that an accessor to an array of `len` values of `T` at
/// `phys_base + offset` maps.
///
/// # Errors
///
/// This function returns [`Error::NotAligned`] with the alignment of `T` and `phys_base` if
/// `phys_base` is not aligned for `T`.
pub fn array_mapping<T>(phys_base: usize, offset: usize, len: usize) -> (r: Result<Mapping, Error>)
    requires
        phys_base + offset <= usize::MAX,
        vstd::layout::size_of::<T>() * len <= usize::MAX,
    ensures
        r == (if phys_base as int % vstd::layout::align_of::<T>() as int == 0 {
            Ok(
                Mapping {
                    phys_start: (phys_base + offset) as usize,
                    bytes: (vstd::layout::size_of::<T>() * len) as usize,
                },
            )
        } else {
            Err(
                Error::NotAligned {
                    alignment: vstd::layout::align_of::<T>() as u64,
                    address: phys_base as u64,
                },
            )
        }),
{
    layout_for_type_is_valid::<T>();
    if is_aligned::<T>(phys_base) {
        Ok(Mapping { phys_start: phys_base + offset, bytes: core::mem::size_of::<T>() * len })
    } else {
        Err(
            Error::NotAligned {
                alignment: core::mem::align_of::<T>() as u64,
                address: phys_base as u64,
            },
        )
    }
}

/// Returns the address of the `i`th element of an array of `T` whose first element is at
/// `virt`.
pub fn element_address<T>(virt: usize, i: usize) -> (r: usize)
    requires
        virt + vstd::layout::size_of::<T>() * i <= usize::MAX,
    ensures
        r == virt + vstd::layout::size_of::<T>() * i,
{
    layout_for_type_is_valid::<T>();
    proof {
        vstd::arithmetic::mul::lemma_mul_nonnegative(vstd::layout::size_of::<T>() as int, i as int);
    }
    virt + core::mem::size_of::<T>() * i
}

/// An iterator over the indices of an array of `len` elements.
#[derive(Copy, Clone, Debug)]
pub struct Iter {
    i: usize,
    len: usize,
}

impl Iter {
    /// The index that comes next.
    pub closed spec fn spec_index(&self) -> usize {
        self.i
    }

    /// The number of elements.
    pub closed spec fn spec_len(&self) -> usize {
        self.len
    }

    /// Creates an iterator over the indices `0..len`.
    pub fn new(len: usize) -> (r: Self)
        ensures
            r.spec_index() == 0,
            r.spec_len() == len,
    {
        Self { i: 0, len }
    }

    /// Returns the index of the element to read next and moves past it, or `None` if every
    /// element has been read.
    pub fn next(&mut self) -> (r: Option<usize>)
        ensures
            seq![r] == returned_indices(old(self).spec_index() as nat, old(self).spec_len() as nat, 1),
            final(self).spec_len() == old(self).spec_len(),
            old(self).spec_index() < old(self).spec_len() ==> r == Some(old(self).spec_index())
                && final(self).spec_index() == old(self).spec_index() + 1,
            old(self).spec_index() >= old(self).spec_len() ==> r is None && final(self).spec_index()
                == old(self).spec_index(),
    {
        proof {
            reveal_with_fuel(returned_indices, 2);
            let (i, len) = (self.i as nat, self.len as nat);
            assert(returned_indices(i, len, 1) =~= seq![
                if i < len {
                    Some(self.i)
                } else {
                    None
                },
            ]);
        }
        if self.i < self.len {
            let t = self.i;
            self.i += 1;
            Some(t)
        } else {
            None
        }
    }
}

/// What `k` calls of [`Iter::next`] return, one after the other, from an iterator whose next
/// index is `i` out of `len`: each call returns the next index and moves past it while one is
/// left, and returns `None` once none is.
pub open spec fn returned_indices(i: nat, len: nat, k: nat) -> Seq<Option<usize>>
    decreases k,
{
    if k == 0 {
        Seq::empty()
    } else if i < len {
        seq![Some(i as usize)] + returned_indices(i + 1, len, (k - 1) as nat)
    } else {
        seq![None] + returned_indices(i, len, (k - 1) as nat)
    }
}

/// The first calls of [`Iter::next`] on the iterator of an array of `len` elements return the
/// indices `0`, `1`, ..., `len - 1` in order, each once; every later call returns `None`.
pub proof fn lemma_indices_in_order(len: usize, k: nat)
    ensures
        returned_indices(0, len as nat, k).len() == k,
        forall|j: int|
            0 <= j < k ==> #[trigger] returned_indices(0, len as nat, k)[j] == (if j < len {
                Some(j as usize)
            } else {
                None
            }),
{
    lemma_indices_from(0, len as nat, k);
}

/// From next index `i` out of `len`, the `j`th of `k` calls returns `i + j` while it is below
/// `len`, and `None` after.
proof fn lemma_indices_from(i: nat, len: nat, k: nat)
    requires
        i <= len,
        len <= usize::MAX,
    ensures
        returned_indices(i, len, k).len() == k,
        forall|j: int|
            0 <= j < k ==> #[trigger] returned_indices(i, len, k)[j] == (if i + j < len {
                Some((i + j) as usize)
            } else {
                None
            }),
    decreases k,
{
    if k > 0 {
        if i < len {
            lemma_indices_from(i + 1, len, (k - 1) as nat);
            let rest = returned_indices(i + 1, len, (k - 1) as nat);
            assert forall|j: int| 0 <= j < k implies #[trigger] returned_indices(i, len, k)[j] == (
            if i + j < len {
                Some((i + j) as usize)
            } else {
                None
            }) by {
                if j > 0 {
                    assert(returned_indices(i, len, k)[j] == rest[j - 1]);
                }
            }
        } else {
            lemma_indices_from(i, len, (k - 1) as nat);
            let rest = returned_indices(i, len, (k - 1) as nat);
            assert forall|j: int| 0 <= j < k implies #[trigger] returned_indices(i, len, k)[j] == (
            if i + j < len {
                Some((i + j) as usize)
            } else {
                None
            }) by {
                if j > 0 {
                    assert(returned_indices(i, len, k)[j] == rest[j - 1]);
                }
            }
        }
    }
}

} // verus!
