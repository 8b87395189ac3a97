//! Toolchain conventions for a staged workspace: the scaffolding written
//! beside the submitted sources and the fixed location the artifact is
//! expected at after a successful build.

use vstd::prelude::*;

verus! {

pub open spec fn scaffold_descriptor_text() -> Seq<char> {
    "\n[package]\nname = \"temp_build\"\nversion = \"0.1.0\"\nedition = \"2021\"\n\n[dependencies]\n"@
}

/// The project descriptor staged beside the submitted sources. Its
/// dependency table is empty on purpose: the staged build must not be able
/// to pull third-party code, and that restriction is load-bearing.
pub fn scaffold_descriptor() -> (s: &'static str)
    ensures
        s@ == scaffold_descriptor_text(),
{
    "\n[package]\nname = \"temp_build\"\nversion = \"0.1.0\"\nedition = \"2021\"\n\n[dependencies]\n"
}

/// The file name the descriptor is staged under, at the workspace root.
pub fn descriptor_file_name() -> (s: &'static str)
    ensures
        s@ == "Cargo.toml"@,
{
    "Cargo.toml"
}

/// The directory the toolchain expects sources beneath.
pub fn source_dir_name() -> (s: &'static str)
    ensures
        s@ == "src"@,
{
    "src"
}

/// Where the artifact stands after a successful build, relative to the
/// workspace root; fixed by the descriptor's package name and the
/// toolchain's release layout.
pub fn artifact_relative_path() -> (s: &'static str)
    ensures
        s@ == "target/release/temp_build"@,
{
    "target/release/temp_build"
}

} // verus!
