//! Packed Vulkan API version numbers.
use vstd::prelude::*;

verus! {

/// The packed form of a Vulkan API version: three bits of variant, seven of
/// major, ten of minor and twelve of patch, from the top bit down.
pub open spec fn spec_api_version(variant: u32, major: u32, minor: u32, patch: u32) -> u32 {
    (variant << 29u32) | (major << 22u32) | (minor << 12u32) | patch
}

pub open spec fn spec_version_variant(version: u32) -> u32 {
    version >> 29u32
}

pub open spec fn spec_version_major(version: u32) -> u32 {
    (version >> 22u32) & 0x7fu32
}

pub open spec fn spec_version_minor(version: u32) -> u32 {
    (version >> 12u32) & 0x3ffu32
}

pub open spec fn spec_version_patch(version: u32) -> u32 {
    version & 0xfffu32
}

/// `ash::vk::make_api_version`: its body is
/// `(variant << 29) | (major << 22) | (minor << 12) | patch` on `u32`.
#[verifier::external_body]
fn make_api_version(variant: u32, major: u32, minor: u32, patch: u32) -> (v: u32)
    ensures
        v == spec_api_version(variant, major, minor, patch),
{
    ash::vk::make_api_version(variant, major, minor, patch)
}

/// `ash::vk::api_version_major`: its body is `(version >> 22) & 0x7f`.
#[verifier::external_body]
fn api_version_major(version: u32) -> (v: u32)
    ensures
        v == spec_version_major(version),
{
    ash::vk::api_version_major(version)
}

/// `ash::vk::api_version_minor`: its body is `(version >> 12) & 0x3ff`.
#[verifier::external_body]
fn api_version_minor(version: u32) -> (v: u32)
    ensures
        v == spec_version_minor(version),
{
    ash::vk::api_version_minor(version)
}

/// `ash::vk::api_version_patch`: its body is `version & 0xfff`.
#[verifier::external_body]
fn api_version_patch(version: u32) -> (v: u32)
    ensures
        v == spec_version_patch(version),
{
    ash::vk::api_version_patch(version)
}

/// The API version the renderer asks for when it creates its instance:
/// Vulkan 1.`api_minor`.0 with variant 0.
pub fn instance_api_version(api_minor: u32) -> (v: u32)
    ensures
        v == spec_api_version(0, 1, api_minor, 0),
{
    make_api_version(0, 1, api_minor, 0)
}

/// The major, minor and patch numbers of a packed API version, as the
/// renderer reports them for the GPU it selected.
pub fn version_parts(version: u32) -> (parts: (u32, u32, u32))
    ensures
        parts == (spec_version_major(version), spec_version_minor(version), spec_version_patch(version)),
{
    (api_version_major(version), api_version_minor(version), api_version_patch(version))
}

/// Unpacking a packed API version gives back each of its parts, as long as
/// each part fits in its field.
pub proof fn lemma_version_roundtrip(variant: u32, major: u32, minor: u32, patch: u32)
    requires
        variant < 8,
        major < 128,
        minor < 1024,
        patch < 4096,
    ensures
        spec_version_variant(spec_api_version(variant, major, minor, patch)) == variant,
        spec_version_major(spec_api_version(variant, major, minor, patch)) == major,
        spec_version_minor(spec_api_version(variant, major, minor, patch)) == minor,
        spec_version_patch(spec_api_version(variant, major, minor, patch)) == patch,
{
    assert(((variant << 29u32) | (major << 22u32) | (minor << 12u32) | patch) >> 29u32 == variant)
        by (bit_vector)
        requires variant < 8, major < 128, minor < 1024, patch < 4096;
    assert((((variant << 29u32) | (major << 22u32) | (minor << 12u32) | patch) >> 22u32) & 0x7fu32 == major)
        by (bit_vector)
        requires variant < 8, major < 128, minor < 1024, patch < 4096;
    assert((((variant << 29u32) | (major << 22u32) | (minor << 12u32) | patch) >> 12u32) & 0x3ffu32 == minor)
        by (bit_vector)
        requires variant < 8, major < 128, minor < 1024, patch < 4096;
    assert(((variant << 29u32) | (major << 22u32) | (minor << 12u32) | patch) & 0xfffu32 == patch)
        by (bit_vector)
        requires variant < 8, major < 128, minor < 1024, patch < 4096;
}

/// Two versions whose parts all fit their fields are packed to the same
/// number only when all their parts agree.
pub proof fn lemma_version_injective(
    variant1: u32, major1: u32, minor1: u32, patch1: u32,
    variant2: u32, major2: u32, minor2: u32, patch2: u32,
)
    requires
        variant1 < 8, major1 < 128, minor1 < 1024, patch1 < 4096,
        variant2 < 8, major2 < 128, minor2 < 1024, patch2 < 4096,
        spec_api_version(variant1, major1, minor1, patch1) == spec_api_version(variant2, major2, minor2, patch2),
    ensures
        variant1 == variant2,
        major1 == major2,
        minor1 == minor2,
        patch1 == patch2,
{
    lemma_version_roundtrip(variant1, major1, minor1, patch1);
    lemma_version_roundtrip(variant2, major2, minor2, patch2);
}

/// The version that the renderer asks for unpacks to major 1, the minor
/// number it was built from, and patch 0, for every minor number that fits
/// its field.
pub proof fn lemma_instance_version_parts(api_minor: u32)
    requires
        api_minor < 1024,
    ensures
        spec_version_variant(spec_api_version(0, 1, api_minor, 0)) == 0,
        spec_version_major(spec_api_version(0, 1, api_minor, 0)) == 1,
        spec_version_minor(spec_api_version(0, 1, api_minor, 0)) == api_minor,
        spec_version_patch(spec_api_version(0, 1, api_minor, 0)) == 0,
{
    lemma_version_roundtrip(0, 1, api_minor, 0);
}

} // verus!
