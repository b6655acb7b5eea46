//! Site resolution: from a target function's entry address to the absolute
//! address of the patch site.

use vstd::prelude::*;

use crate::arch::Arch;

verus! {

/// Fixed byte offset of the patch site from the target function's entry
/// point. It is an externally validated build-time constant: correct only for
/// the specific compiled form of the target function, and re-derived whenever
/// the target's implementation or the toolchain changes.
pub open spec fn spec_site_offset(arch: Arch) -> int {
    match arch {
        Arch::X86_64 => 0x46,
        Arch::Aarch64 => 0x46,
    }
}

/// The patch-site offset for an architecture, as a plain integer.
pub fn site_offset(arch: Arch) -> (r: usize)
    ensures
        r == spec_site_offset(arch),
{
    match arch {
        Arch::X86_64 => 0x46,
        Arch::Aarch64 => 0x46,
    }
}

/// Computes the absolute address of the patch site: the target function's
/// entry address plus the fixed per-architecture offset. Pure address
/// arithmetic; no bounds checking beyond requiring that the sum fits in an
/// address at all.
pub fn resolve_site(arch: Arch, entry: usize) -> (r: usize)
    requires
        entry + spec_site_offset(arch) <= usize::MAX,
    ensures
        r == entry + spec_site_offset(arch),
{
    entry + site_offset(arch)
}

} // verus!
