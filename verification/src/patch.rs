//! Verification and toggle logic: classify the bytes found at the patch site
//! and decide which encoding a toggle must write, or that it must abort.

use vstd::prelude::*;

use crate::arch::Arch;
use crate::arch::lemma_encodings_wf;
use crate::arch::original_bytes;
use crate::arch::patched_bytes;
use crate::arch::spec_original;
use crate::arch::spec_patched;

verus! {

/// Classification of bytes found at the patch site: which of the two known
/// encodings they equal. Bytes equal to neither have no classification; that
/// is the fatal drift condition.
#[derive(Clone, Copy, PartialEq, Eq, Structural, Debug)]
pub enum SiteState {
    Original,
    Patched,
}

/// The one failure the toggle logic reports: the bytes at the site are
/// neither known encoding, so the offset and byte-table constants have
/// drifted from the target function's actual compiled form. Unrecoverable;
/// no write may follow it.
#[derive(Clone, Copy, PartialEq, Eq, Structural, Debug)]
pub enum PatchError {
    UnrecognizedBytes,
}

/// The site invariant: the bytes are one of the two known encodings.
pub open spec fn recognized(arch: Arch, bytes: Seq<u8>) -> bool {
    bytes == spec_original(arch) || bytes == spec_patched(arch)
}

/// The encoding a toggle must leave at the site for a desired state.
pub open spec fn target_of(arch: Arch, enabled: bool) -> Seq<u8> {
    if enabled {
        spec_patched(arch)
    } else {
        spec_original(arch)
    }
}

/// What one toggle does to the site bytes: the encoding for the desired
/// state, regardless of the prior state, or nothing at all when the current
/// bytes are unrecognized and the toggle aborts before writing.
pub open spec fn spec_toggle(arch: Arch, bytes: Seq<u8>, enabled: bool) -> Option<Seq<u8>> {
    if recognized(arch, bytes) {
        Some(target_of(arch, enabled))
    } else {
        None
    }
}

/// Byte-for-byte comparison of two vectors.
fn bytes_equal(a: &Vec<u8>, b: &Vec<u8>) -> (r: bool)
    ensures
        r == (a@ == b@),
{
    if a.len() != b.len() {
        return false;
    }
    let mut i: usize = 0;
    while i < a.len()
        invariant
            i <= a.len(),
            a.len() == b.len(),
            forall|k: int| 0 <= k < i ==> a@[k] == b@[k],
        decreases a.len() - i,
    {
        if a[i] != b[i] {
            return false;
        }
        i += 1;
    }
    proof {
        assert(a@ =~= b@);
    }
    true
}

/// Classifies a byte image of the site: `Original` or `Patched` when it
/// equals the corresponding known encoding, `None` for any third value —
/// the fatal condition a toggle must abort on.
pub fn classify(arch: Arch, bytes: &Vec<u8>) -> (r: Option<SiteState>)
    ensures
        (r == Some(SiteState::Original)) <==> bytes@ == spec_original(arch),
        (r == Some(SiteState::Patched)) <==> bytes@ == spec_patched(arch),
        (r is None) <==> !recognized(arch, bytes@),
{
    proof {
        lemma_encodings_wf(arch);
    }
    let orig = original_bytes(arch);
    if bytes_equal(bytes, &orig) {
        return Some(SiteState::Original);
    }
    let patched = patched_bytes(arch);
    if bytes_equal(bytes, &patched) {
        return Some(SiteState::Patched);
    }
    None
}

/// The encoding to write for a desired patch state: the patched encoding to
/// enable the patch, the original encoding to disable it.
pub fn target_bytes(arch: Arch, enabled: bool) -> (r: Vec<u8>)
    ensures
        r@ == target_of(arch, enabled),
{
    if enabled {
        patched_bytes(arch)
    } else {
        original_bytes(arch)
    }
}

/// The whole toggle decision on the bytes read at the site: verify first,
/// then hand back the bytes to write. Succeeds exactly when the current
/// bytes are one of the two known encodings; any third value is reported as
/// the drift error, and the caller must abort without writing.
pub fn toggle_bytes(arch: Arch, current: &Vec<u8>, enabled: bool) -> (r: Result<
    Vec<u8>,
    PatchError,
>)
    ensures
        (r is Ok) <==> recognized(arch, current@),
        r matches Ok(b) ==> Some(b@) == spec_toggle(arch, current@, enabled),
        r matches Err(e) ==> e == PatchError::UnrecognizedBytes,
{
    match classify(arch, current) {
        Some(_) => Ok(target_bytes(arch, enabled)),
        None => Err(PatchError::UnrecognizedBytes),
    }
}

/// A byte image of the patch site: the architecture together with a copy of
/// the bytes present at the resolved address. The live site is never stored —
/// the embedding application re-reads the live bytes on every toggle — but
/// the image lets the toggle's effect be stated, proved and exercised on
/// plain data.
pub struct PatchSite {
    pub arch: Arch,
    pub bytes: Vec<u8>,
}

impl PatchSite {
    /// The site invariant on the image: it holds a known encoding.
    pub open spec fn wf(self) -> bool {
        recognized(self.arch, self.bytes@)
    }

    /// An image of a site as originally compiled: the original encoding.
    pub fn new(arch: Arch) -> (s: Self)
        ensures
            s.arch == arch,
            s.bytes@ == spec_original(arch),
            s.wf(),
    {
        PatchSite { arch, bytes: original_bytes(arch) }
    }

    /// An image of whatever bytes were read at the site, recognized or not.
    pub fn from_bytes(arch: Arch, bytes: Vec<u8>) -> (s: Self)
        ensures
            s.arch == arch,
            s.bytes == bytes,
    {
        PatchSite { arch, bytes }
    }

    /// The classification of the image's bytes.
    pub fn state(&self) -> (r: Option<SiteState>)
        ensures
            (r == Some(SiteState::Original)) <==> self.bytes@ == spec_original(self.arch),
            (r == Some(SiteState::Patched)) <==> self.bytes@ == spec_patched(self.arch),
            (r is None) <==> !recognized(self.arch, self.bytes@),
    {
        classify(self.arch, &self.bytes)
    }

    /// Deterministically leaves the image holding the patched encoding when
    /// `enabled` is true and the original encoding when it is false,
    /// regardless of the prior state; the write is unconditional, so a
    /// repeated call changes nothing. When the current bytes are
    /// unrecognized, the toggle aborts with the drift error and the image is
    /// left untouched.
    pub fn set_patch_state(&mut self, enabled: bool) -> (r: Result<(), PatchError>)
        ensures
            final(self).arch == old(self).arch,
            (r is Ok) <==> recognized(old(self).arch, old(self).bytes@),
            r is Ok ==> final(self).bytes@ == target_of(old(self).arch, enabled),
            r is Ok ==> final(self).wf(),
            r is Err ==> final(self).bytes == old(self).bytes,
            r matches Err(e) ==> e == PatchError::UnrecognizedBytes,
    {
        match toggle_bytes(self.arch, &self.bytes, enabled) {
            Ok(b) => {
                self.bytes = b;
                Ok(())
            },
            Err(e) => Err(e),
        }
    }
}

/// Idempotence: one toggle from a recognized site leaves the encoding for the
/// desired state, and a second toggle to the same state leaves the bytes in
/// exactly the same state as the first — for either desired state.
pub proof fn lemma_toggle_idempotent(arch: Arch, bytes: Seq<u8>, enabled: bool)
    requires
        recognized(arch, bytes),
    ensures
        spec_toggle(arch, bytes, enabled) == Some(target_of(arch, enabled)),
        spec_toggle(arch, target_of(arch, enabled), enabled) == Some(target_of(arch, enabled)),
{
}

/// The cumulative effect of a sequence of toggles on the site bytes, applied
/// first to last; no result as soon as one toggle finds unrecognized bytes.
pub open spec fn spec_run(arch: Arch, bytes: Seq<u8>, toggles: Seq<bool>) -> Option<Seq<u8>>
    decreases toggles.len(),
{
    if toggles.len() == 0 {
        Some(bytes)
    } else {
        match spec_toggle(arch, bytes, toggles[0]) {
            Some(next) => spec_run(arch, next, toggles.drop_first()),
            None => None,
        }
    }
}

/// Round trip: starting from a recognized site, every toggle of a sequence
/// succeeds, and a sequence whose last toggle disables the patch leaves the
/// site holding exactly the original encoding.
pub proof fn lemma_round_trip(arch: Arch, bytes: Seq<u8>, toggles: Seq<bool>)
    requires
        recognized(arch, bytes),
        toggles.len() > 0,
        toggles.last() == false,
    ensures
        spec_run(arch, bytes, toggles) == Some(spec_original(arch)),
    decreases toggles.len(),
{
    let next = target_of(arch, toggles[0]);
    if toggles.len() == 1 {
        assert(spec_run(arch, next, toggles.drop_first()) == Some(next));
    } else {
        assert(toggles.drop_first().last() == toggles.last());
        lemma_round_trip(arch, next, toggles.drop_first());
    }
}

} // verus!
