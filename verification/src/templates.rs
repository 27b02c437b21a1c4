//! Static template payloads written into a freshly scaffolded project.
//!
//! Each payload is a fixed string, identical across invocations; the only
//! generated content is the engine project descriptor, which substitutes
//! the project name into a fixed format.

use vstd::prelude::*;

verus! {

/// Ignore rules at the project root.
pub open spec fn root_gitignore_text() -> Seq<char> {
    "target/\n.DS_Store\n"@
}

pub fn root_gitignore() -> (r: &'static str)
    ensures
        r@ == root_gitignore_text(),
{
    "target/\n.DS_Store\n"
}

/// Ignore rules for the engine project subtree.
pub open spec fn godot_gitignore_text() -> Seq<char> {
    ".godot/\n.import/\nexport_presets.cfg\n"@
}

pub fn godot_gitignore() -> (r: &'static str)
    ensures
        r@ == godot_gitignore_text(),
{
    ".godot/\n.import/\nexport_presets.cfg\n"
}

/// Ignore rules for the native module subtree.
pub open spec fn rust_gitignore_text() -> Seq<char> {
    "target/\nCargo.lock\n"@
}

pub fn rust_gitignore() -> (r: &'static str)
    ensures
        r@ == rust_gitignore_text(),
{
    "target/\nCargo.lock\n"
}

/// The extension manifest telling the engine where the native library is.
pub open spec fn gdextension_text() -> Seq<char> {
    "[configuration]\nentry_symbol = \"gdext_rust_init\"\ncompatibility_minimum = \"4.1\"\n\n[libraries]\nlinux.debug.x86_64 = \"res://../rust/target/debug/librust.so\"\nlinux.release.x86_64 = \"res://../rust/target/release/librust.so\"\nwindows.debug.x86_64 = \"res://../rust/target/debug/rust.dll\"\nwindows.release.x86_64 = \"res://../rust/target/release/rust.dll\"\nmacos.debug = \"res://../rust/target/debug/librust.dylib\"\nmacos.release = \"res://../rust/target/release/librust.dylib\"\n"@
}

pub fn gdextension() -> (r: &'static str)
    ensures
        r@ == gdextension_text(),
{
    "[configuration]\nentry_symbol = \"gdext_rust_init\"\ncompatibility_minimum = \"4.1\"\n\n[libraries]\nlinux.debug.x86_64 = \"res://../rust/target/debug/librust.so\"\nlinux.release.x86_64 = \"res://../rust/target/release/librust.so\"\nwindows.debug.x86_64 = \"res://../rust/target/debug/rust.dll\"\nwindows.release.x86_64 = \"res://../rust/target/release/rust.dll\"\nmacos.debug = \"res://../rust/target/debug/librust.dylib\"\nmacos.release = \"res://../rust/target/release/librust.dylib\"\n"
}

/// The native module source stub referencing the extension entry point.
pub open spec fn lib_stub_text() -> Seq<char> {
    "use godot::prelude::*;\n\nstruct MyExtension;\n\n#[gdextension]\nunsafe impl ExtensionLibrary for MyExtension {}\n"@
}

pub fn lib_stub() -> (r: &'static str)
    ensures
        r@ == lib_stub_text(),
{
    "use godot::prelude::*;\n\nstruct MyExtension;\n\n#[gdextension]\nunsafe impl ExtensionLibrary for MyExtension {}\n"
}

/// The native module build manifest with its fixed dependency coordinates.
pub open spec fn cargo_manifest_text() -> Seq<char> {
    "[package]\nname = \"rust\"\nversion = \"0.1.0\"\nedition = \"2024\"\n\n[lib]\ncrate-type = [\"cdylib\"]\n\n[dependencies]\ngodot = { git = \"https://github.com/godot-rust/gdext\" }\n\n[profile.dev]\nopt-level = 1\n[profile.dev.package.\"*\"]\nopt-level = 1\n"@
}

pub fn cargo_manifest() -> (r: &'static str)
    ensures
        r@ == cargo_manifest_text(),
{
    "[package]\nname = \"rust\"\nversion = \"0.1.0\"\nedition = \"2024\"\n\n[lib]\ncrate-type = [\"cdylib\"]\n\n[dependencies]\ngodot = { git = \"https://github.com/godot-rust/gdext\" }\n\n[profile.dev]\nopt-level = 1\n[profile.dev.package.\"*\"]\nopt-level = 1\n"
}

/// The generated engine project descriptor for a given project name:
/// `[application]` followed by `config/name="<name>-godot"`.
pub open spec fn descriptor_text(name: Seq<char>) -> Seq<char> {
    "[application]\nconfig/name=\""@ + name + "-godot\"\n"@
}

pub fn descriptor(name: &str) -> (r: String)
    ensures
        r@ == descriptor_text(name@),
{
    let mut s: String = "[application]\nconfig/name=\"".to_owned();
    s.append(name);
    s.append("-godot\"\n");
    s
}

} // verus!
