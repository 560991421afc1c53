//! Application metadata constants and the packed version encoding.

use vstd::prelude::*;

verus! {

/// Default logical window width.
pub const WINDOW_WIDTH: u32 = 1280;

/// Default logical window height.
pub const WINDOW_HEIGHT: u32 = 720;

/// Title of the application window.
pub const APPLICATION_NAME: &'static str = "NeoClausewitz.Test";

/// Name reported for the engine.
pub const ENGINE_NAME: &'static str = "NeoClausewitz";

/// Version 0.1.0, packed as `(major << 22) | (minor << 12) | patch`.
pub const APPLICATION_VERSION: u32 = (0u32 << 22) | (1u32 << 12) | 0u32;

/// Version 0.1.0, packed as `(major << 22) | (minor << 12) | patch`.
pub const ENGINE_VERSION: u32 = (0u32 << 22) | (1u32 << 12) | 0u32;

/// Graphics-API version 1.0.0 targeted by instance creation.
pub const API_VERSION: u32 = (1u32 << 22) | (0u32 << 12) | 0u32;

/// Packs a semantic version triple into the single `u32` that the
/// graphics backend expects: 10 bits of major, 10 bits of minor and
/// 12 bits of patch. When each component is in range, the three
/// fields can be recovered from the packed word.
pub fn make_version(major: u32, minor: u32, patch: u32) -> (v: u32)
    ensures
        v == (major << 22u32) | (minor << 12u32) | patch,
        major < 0x400 && minor < 0x400 && patch < 0x1000 ==> {
            &&& v >> 22u32 == major
            &&& (v >> 12u32) & 0x3ff == minor
            &&& v & 0xfff == patch
        },
{
    proof {
        assert(major < 0x400 && minor < 0x400 && patch < 0x1000 ==> {
            &&& ((major << 22u32) | (minor << 12u32) | patch) >> 22u32 == major
            &&& ((((major << 22u32) | (minor << 12u32) | patch)) >> 12u32) & 0x3ff == minor
            &&& ((major << 22u32) | (minor << 12u32) | patch) & 0xfff == patch
        }) by (bit_vector);
    }
    (major << 22u32) | (minor << 12u32) | patch
}

} // verus!
