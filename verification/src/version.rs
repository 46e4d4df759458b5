//! Vulkan API version numbers: how they are packed into one `u32`, how they are
//! unpacked, and how a version is written for the user.

use vstd::prelude::*;
use crate::text::{decimal, push_char, push_decimal};

verus! {

/// The packed form of `major.minor.patch`, as `VK_MAKE_VERSION` defines it.
pub open spec fn packed_version(major: u32, minor: u32, patch: u32) -> u32 {
    ((major << 22u32) | (minor << 12u32) | patch) as u32
}

/// The major number of a packed version.
pub open spec fn major_of(version: u32) -> u32 {
    version >> 22u32
}

/// The minor number of a packed version.
pub open spec fn minor_of(version: u32) -> u32 {
    (version >> 12u32) & 0x3ffu32
}

/// The patch number of a packed version.
pub open spec fn patch_of(version: u32) -> u32 {
    version & 0xfffu32
}

/// `ash::vk::make_version`: packs major, minor and patch into one number by
/// shifting major by 22 bits and minor by 12 bits and or-ing the three.
#[verifier::external_body]
fn make_version(major: u32, minor: u32, patch: u32) -> (r: u32)
    ensures
        r == packed_version(major, minor, patch),
{
    ash::vk::make_version(major, minor, patch)
}

/// `ash::vk::version_major`: the bits of a packed version above bit 22.
#[verifier::external_body]
fn version_major(version: u32) -> (r: u32)
    ensures
        r == major_of(version),
{
    ash::vk::version_major(version)
}

/// `ash::vk::version_minor`: the ten bits of a packed version from bit 12.
#[verifier::external_body]
fn version_minor(version: u32) -> (r: u32)
    ensures
        r == minor_of(version),
{
    ash::vk::version_minor(version)
}

/// `ash::vk::version_patch`: the low twelve bits of a packed version.
#[verifier::external_body]
fn version_patch(version: u32) -> (r: u32)
    ensures
        r == patch_of(version),
{
    ash::vk::version_patch(version)
}

/// The API version that the renderer asks the driver for: Vulkan 1.2.0.
pub fn requested_api_version() -> (r: u32)
    ensures
        r == packed_version(1, 2, 0),
        major_of(r) == 1 && minor_of(r) == 2 && patch_of(r) == 0,
{
    let r = make_version(1, 2, 0);
    proof {
        lemma_version_roundtrip(1, 2, 0);
    }
    r
}

/// Splits a packed version into its major, minor and patch numbers.
pub fn decode_version(version: u32) -> (r: (u32, u32, u32))
    ensures
        r == (major_of(version), minor_of(version), patch_of(version)),
{
    (version_major(version), version_minor(version), version_patch(version))
}

/// How the driver's version is written: `major.minor.patch` for a driver that
/// reports one (Vulkan 1.1 and later), `1.0` for one that reports none.
pub open spec fn version_text(version: Option<u32>) -> Seq<char> {
    match version {
        Some(v) => decimal(major_of(v) as nat) + seq!['.'] + decimal(minor_of(v) as nat) + seq!['.']
            + decimal(patch_of(v) as nat),
        None => seq!['1', '.', '0'],
    }
}

/// Writes the version that the Vulkan loader reported, as the renderer logs it.
pub fn version_string(version: Option<u32>) -> (s: String)
    ensures
        s@ == version_text(version),
{
    let mut s = String::new();
    match version {
        Some(v) => {
            let (major, minor, patch) = decode_version(v);
            push_decimal(&mut s, major);
            push_char(&mut s, '.');
            push_decimal(&mut s, minor);
            push_char(&mut s, '.');
            push_decimal(&mut s, patch);
        },
        None => {
            push_char(&mut s, '1');
            push_char(&mut s, '.');
            push_char(&mut s, '0');
        },
    }
    assert(s@ =~= version_text(version));
    s
}

/// Packing and unpacking are inverse: a major number below 1024, a minor number
/// below 1024 and a patch number below 4096 come back unchanged from their packed
/// form.
pub proof fn lemma_version_roundtrip(major: u32, minor: u32, patch: u32)
    requires
        major < 1024,
        minor < 1024,
        patch < 4096,
    ensures
        major_of(packed_version(major, minor, patch)) == major,
        minor_of(packed_version(major, minor, patch)) == minor,
        patch_of(packed_version(major, minor, patch)) == patch,
{
    assert(((((major << 22u32) | (minor << 12u32) | patch) as u32) >> 22u32) == major) by (bit_vector)
        requires major < 1024u32, minor < 1024u32, patch < 4096u32;
    assert((((((major << 22u32) | (minor << 12u32) | patch) as u32) >> 12u32) & 0x3ffu32) == minor) by (bit_vector)
        requires major < 1024u32, minor < 1024u32, patch < 4096u32;
    assert(((((major << 22u32) | (minor << 12u32) | patch) as u32) & 0xfffu32) == patch) by (bit_vector)
        requires major < 1024u32, minor < 1024u32, patch < 4096u32;
}

/// Unpacking and packing are inverse: every packed version is the packing of its
/// own major, minor and patch numbers.
pub proof fn lemma_version_decode_encode(version: u32)
    ensures
        packed_version(major_of(version), minor_of(version), patch_of(version)) == version,
{
    assert((((version >> 22u32) << 22u32) | (((version >> 12u32) & 0x3ffu32) << 12u32) | (version & 0xfffu32)) as u32 == version) by (bit_vector);
}

} // verus!
