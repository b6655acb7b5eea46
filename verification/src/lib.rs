//! Runtime binary patching of a single, known instruction inside a library
//! formatting routine.
//!
//! The crate models a patch site: a fixed-width byte range at a fixed offset
//! from the entry point of a target function. Per supported architecture it
//! carries two known encodings for that range, the original conditional
//! branch and a neutral replacement. The verified core decides, from the
//! bytes currently present at the site, whether a toggle may proceed and
//! which encoding must be written; the raw memory reads and writes themselves
//! are performed by the embedding application, which hands bytes in and out
//! as plain values.

pub mod arch;
pub mod patch;
pub mod site;

pub use arch::Arch;
pub use arch::original_bytes;
pub use arch::patched_bytes;
pub use arch::width;
pub use patch::PatchError;
pub use patch::PatchSite;
pub use patch::SiteState;
pub use patch::classify;
pub use patch::target_bytes;
pub use patch::toggle_bytes;
pub use site::resolve_site;
pub use site::site_offset;

