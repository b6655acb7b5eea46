use tuple_patch::Arch;
use tuple_patch::PatchError;
use tuple_patch::PatchSite;
use tuple_patch::SiteState;
use tuple_patch::classify;
use tuple_patch::original_bytes;
use tuple_patch::patched_bytes;
use tuple_patch::resolve_site;
use tuple_patch::site_offset;
use tuple_patch::target_bytes;
use tuple_patch::toggle_bytes;
use tuple_patch::width;

#[test]
fn byte_tables_x86_64() {
    assert_eq!(original_bytes(Arch::X86_64), vec![0x75, 0x3e]);
    assert_eq!(patched_bytes(Arch::X86_64), vec![0x66, 0x90]);
    assert_eq!(width(Arch::X86_64), 2);
}

#[test]
fn byte_tables_aarch64() {
    assert_eq!(original_bytes(Arch::Aarch64), vec![0x00, 0xd0, 0x08, 0x05]);
    assert_eq!(patched_bytes(Arch::Aarch64), vec![0x1f, 0x20, 0x03, 0xd5]);
    assert_eq!(width(Arch::Aarch64), 4);
}

#[test]
fn byte_tables_are_distinct_and_fixed_width() {
    for arch in [Arch::X86_64, Arch::Aarch64] {
        let orig = original_bytes(arch);
        let patched = patched_bytes(arch);
        assert_eq!(orig.len(), width(arch));
        assert_eq!(patched.len(), width(arch));
        assert_ne!(orig, patched);
    }
}

#[test]
fn resolver_adds_fixed_offset() {
    assert_eq!(site_offset(Arch::X86_64), 0x46);
    assert_eq!(site_offset(Arch::Aarch64), 0x46);
    assert_eq!(resolve_site(Arch::X86_64, 1000), 1070);
    assert_eq!(resolve_site(Arch::Aarch64, 0), 0x46);
}

#[test]
fn classify_recognizes_both_encodings() {
    for arch in [Arch::X86_64, Arch::Aarch64] {
        assert_eq!(classify(arch, &original_bytes(arch)), Some(SiteState::Original));
        assert_eq!(classify(arch, &patched_bytes(arch)), Some(SiteState::Patched));
    }
}

#[test]
fn classify_rejects_any_third_value() {
    assert_eq!(classify(Arch::X86_64, &vec![0x75, 0x3f]), None);
    assert_eq!(classify(Arch::X86_64, &vec![0x75]), None);
    assert_eq!(classify(Arch::X86_64, &vec![]), None);
    assert_eq!(classify(Arch::X86_64, &vec![0x75, 0x3e, 0x00]), None);
    // An encoding of the other architecture is drift too.
    assert_eq!(classify(Arch::Aarch64, &vec![0x75, 0x3e]), None);
}

#[test]
fn target_bytes_selects_encoding() {
    for arch in [Arch::X86_64, Arch::Aarch64] {
        assert_eq!(target_bytes(arch, true), patched_bytes(arch));
        assert_eq!(target_bytes(arch, false), original_bytes(arch));
    }
}

#[test]
fn toggle_writes_desired_state_from_either_state() {
    for arch in [Arch::X86_64, Arch::Aarch64] {
        let orig = original_bytes(arch);
        let patched = patched_bytes(arch);
        assert_eq!(toggle_bytes(arch, &orig, true), Ok(patched.clone()));
        assert_eq!(toggle_bytes(arch, &patched, true), Ok(patched.clone()));
        assert_eq!(toggle_bytes(arch, &orig, false), Ok(orig.clone()));
        assert_eq!(toggle_bytes(arch, &patched, false), Ok(orig.clone()));
    }
}

#[test]
fn toggle_twice_equals_toggle_once() {
    for arch in [Arch::X86_64, Arch::Aarch64] {
        for enabled in [true, false] {
            let once = toggle_bytes(arch, &original_bytes(arch), enabled).unwrap();
            let twice = toggle_bytes(arch, &once, enabled).unwrap();
            assert_eq!(twice, once);
        }
    }
}

#[test]
fn toggle_sequence_ending_disabled_restores_original() {
    for arch in [Arch::X86_64, Arch::Aarch64] {
        let mut bytes = original_bytes(arch);
        for enabled in [true, true, false, true, false] {
            bytes = toggle_bytes(arch, &bytes, enabled).unwrap();
        }
        assert_eq!(bytes, original_bytes(arch));
    }
}

#[test]
fn drifted_bytes_abort_either_toggle() {
    // Simulates stale constants: the bytes at the site match neither table.
    let drifted = vec![0x74, 0x3e];
    assert_eq!(
        toggle_bytes(Arch::X86_64, &drifted, true),
        Err(PatchError::UnrecognizedBytes)
    );
    assert_eq!(
        toggle_bytes(Arch::X86_64, &drifted, false),
        Err(PatchError::UnrecognizedBytes)
    );
}

#[test]
fn drifted_site_image_is_left_untouched() {
    let drifted = vec![0xff, 0xff, 0xff, 0xff];
    let mut site = PatchSite::from_bytes(Arch::Aarch64, drifted.clone());
    assert_eq!(site.state(), None);
    assert_eq!(site.set_patch_state(true), Err(PatchError::UnrecognizedBytes));
    assert_eq!(site.bytes, drifted);
    assert_eq!(site.set_patch_state(false), Err(PatchError::UnrecognizedBytes));
    assert_eq!(site.bytes, drifted);
}

#[test]
fn site_image_toggle_scenario() {
    // A freshly compiled site holds the original encoding; enabling the patch
    // neutralizes the branch; disabling restores the original bytes exactly.
    let mut site = PatchSite::new(Arch::X86_64);
    assert_eq!(site.state(), Some(SiteState::Original));
    assert_eq!(site.bytes, vec![0x75, 0x3e]);

    assert_eq!(site.set_patch_state(true), Ok(()));
    assert_eq!(site.state(), Some(SiteState::Patched));
    assert_eq!(site.bytes, vec![0x66, 0x90]);

    assert_eq!(site.set_patch_state(true), Ok(()));
    assert_eq!(site.bytes, vec![0x66, 0x90]);

    assert_eq!(site.set_patch_state(false), Ok(()));
    assert_eq!(site.state(), Some(SiteState::Original));
    assert_eq!(site.bytes, vec![0x75, 0x3e]);
}
