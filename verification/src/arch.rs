//! Per-architecture constants: the two known encodings of the patch site.

use vstd::prelude::*;

verus! {

/// A target instruction-set architecture for which the patch-site constants
/// are known. Exactly one of these is selected when the embedding application
/// is built; building for any other architecture is a build failure there.
#[derive(Clone, Copy, PartialEq, Eq, Structural, Debug)]
pub enum Arch {
    X86_64,
    Aarch64,
}

/// The instruction encoding expected at an unpatched site: a conditional
/// branch that skips the single-line formatting path.
pub open spec fn spec_original(arch: Arch) -> Seq<u8> {
    match arch {
        Arch::X86_64 => seq![0x75u8, 0x3eu8],
        Arch::Aarch64 => seq![0x00u8, 0xd0u8, 0x08u8, 0x05u8],
    }
}

/// The neutralized encoding written when the patch is enabled: a no-operation
/// instruction of the same width as the original branch.
pub open spec fn spec_patched(arch: Arch) -> Seq<u8> {
    match arch {
        Arch::X86_64 => seq![0x66u8, 0x90u8],
        Arch::Aarch64 => seq![0x1fu8, 0x20u8, 0x03u8, 0xd5u8],
    }
}

/// Byte width of the patch site: the (common) length of both encodings.
pub open spec fn spec_width(arch: Arch) -> int {
    spec_original(arch).len() as int
}

/// Both encodings of an architecture have the same fixed width (2 or 4
/// bytes), and they differ, so the two site states are distinguishable.
pub proof fn lemma_encodings_wf(arch: Arch)
    ensures
        spec_original(arch).len() == spec_width(arch),
        spec_patched(arch).len() == spec_width(arch),
        spec_original(arch) != spec_patched(arch),
        spec_width(arch) == 2 || spec_width(arch) == 4,
{
    match arch {
        Arch::X86_64 => {
            assert(spec_original(arch)[0] != spec_patched(arch)[0]);
        }
        Arch::Aarch64 => {
            assert(spec_original(arch)[0] != spec_patched(arch)[0]);
        }
    }
}

/// The original encoding, as a byte vector the caller can compare against.
pub fn original_bytes(arch: Arch) -> (r: Vec<u8>)
    ensures
        r@ == spec_original(arch),
{
    let mut v: Vec<u8> = Vec::new();
    match arch {
        Arch::X86_64 => {
            v.push(0x75);
            v.push(0x3e);
        }
        Arch::Aarch64 => {
            v.push(0x00);
            v.push(0xd0);
            v.push(0x08);
            v.push(0x05);
        }
    }
    proof {
        assert(v@ =~= spec_original(arch));
    }
    v
}

/// The patched encoding, as a byte vector the caller can write to the site.
pub fn patched_bytes(arch: Arch) -> (r: Vec<u8>)
    ensures
        r@ == spec_patched(arch),
{
    let mut v: Vec<u8> = Vec::new();
    match arch {
        Arch::X86_64 => {
            v.push(0x66);
            v.push(0x90);
        }
        Arch::Aarch64 => {
            v.push(0x1f);
            v.push(0x20);
            v.push(0x03);
            v.push(0xd5);
        }
    }
    proof {
        assert(v@ =~= spec_patched(arch));
    }
    v
}

/// The number of bytes to read at, and write to, the patch site.
pub fn width(arch: Arch) -> (r: usize)
    ensures
        r == spec_width(arch),
{
    match arch {
        Arch::X86_64 => 2,
        Arch::Aarch64 => 4,
    }
}

} // verus!
