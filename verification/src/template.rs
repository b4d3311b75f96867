use vstd::prelude::*;
use crate::mode::Allocatormode;

verus! {

/// A size-based policy: each backend has an activation flag and a size range
/// `(lower, upper]` in bytes.
///
/// Sizes that no active entry covers go to the system allocator.
#[derive(Debug, Clone, Copy)]
pub struct BrugTemplate {
    pub sys: (bool, u128, u128),
    pub jemalloc: (bool, u128, u128),
    pub mimalloc: (bool, u128, u128),
    pub mmap: (bool, u128, u128),
}

/// Whether an entry of a template is active and covers `size`.
pub open spec fn covers(entry: (bool, u128, u128), size: u128) -> bool {
    entry.0 && entry.1 < size && entry.2 >= size
}

/// The backend a template assigns to a request of `size` bytes.
///
/// The entries are tried in the order jemalloc, mimalloc, system, mmap; the
/// first active entry whose range covers the size wins, and a size that no
/// active entry covers goes to the system allocator.
pub open spec fn template_choice(t: BrugTemplate, size: usize) -> Allocatormode {
    let s = size as u128;
    if covers(t.jemalloc, s) {
        Allocatormode::_JEMALLOC_
    } else if covers(t.mimalloc, s) {
        Allocatormode::_MIMALLOC_
    } else if covers(t.sys, s) {
        Allocatormode::_SYS_
    } else if covers(t.mmap, s) {
        Allocatormode::_MMAP_
    } else {
        Allocatormode::_SYS_
    }
}

/// The template Brug starts with: jemalloc up to 4 KiB, mmap from 64 KiB up
/// to 128 GiB, the system allocator in between (above 4 KiB up to 64 KiB)
/// and mimalloc switched off.
pub open spec fn default_template() -> BrugTemplate {
    BrugTemplate {
        sys: (true, 4096u128, 65536u128),
        jemalloc: (true, 0u128, 4096u128),
        mimalloc: (false, 0u128, 0u128),
        mmap: (true, 65536u128, 0x20_0000_0000u128),
    }
}

/// `byte_unit::KIBIBYTE` (u128 flavour, the crate's default), which
/// byte-unit defines as `1 << 10`.
#[verifier::external_body]
fn kibibyte() -> (r: u128)
    ensures
        r == 1024,
{
    byte_unit::KIBIBYTE
}

/// `byte_unit::GIBIBYTE` (u128 flavour, the crate's default), which
/// byte-unit defines as `1 << 30`.
#[verifier::external_body]
fn gibibyte() -> (r: u128)
    ensures
        r == 0x4000_0000,
{
    byte_unit::GIBIBYTE
}

impl Default for BrugTemplate {
    /// The template Brug starts with, see [`default_template`].
    fn default() -> (t: BrugTemplate)
        ensures
            t == default_template(),
    {
        let kib = kibibyte();
        let gib = gibibyte();
        BrugTemplate {
            sys: (true, 4 * kib, 64 * kib),
            jemalloc: (true, 0, 4 * kib),
            mimalloc: (false, 0, 0),
            mmap: (true, 64 * kib, 128 * gib),
        }
    }
}

impl BrugTemplate {
    /// The backend this template assigns to a request of `size` bytes.
    pub fn choose_backend(&self, size: usize) -> (r: Allocatormode)
        ensures
            r == template_choice(*self, size),
            r.is_backend(),
    {
        let s = size as u128;
        if self.jemalloc.0 && self.jemalloc.1 < s && self.jemalloc.2 >= s {
            Allocatormode::_JEMALLOC_
        } else if self.mimalloc.0 && self.mimalloc.1 < s && self.mimalloc.2 >= s {
            Allocatormode::_MIMALLOC_
        } else if self.sys.0 && self.sys.1 < s && self.sys.2 >= s {
            Allocatormode::_SYS_
        } else if self.mmap.0 && self.mmap.1 < s && self.mmap.2 >= s {
            Allocatormode::_MMAP_
        } else {
            Allocatormode::_SYS_
        }
    }
}

} // verus!
