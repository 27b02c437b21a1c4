//! Scaffolder for a new game project pairing a Godot engine tree with a
//! Rust native-extension tree.
//!
//! The library decides the whole directory and file layout and proves it
//! correct against an in-memory filesystem model ([`memfs::Fs`]); a thin
//! front end replays the resulting tree onto the real disk.

use vstd::prelude::*;

pub mod laws;
pub mod memfs;
pub mod paths;
pub mod templates;

verus! {

use crate::memfs::Fs;
use crate::paths::join;
use crate::paths::join_path;
use crate::paths::lemma_join_is_under;
use crate::paths::lemma_join_ne;
use crate::paths::strictly_under;
use crate::paths::under;

/// Selector for the directory skeleton to generate: `Basic` is minimal,
/// `Proto` adds a fixed set of genre subdirectories under the engine tree.
#[derive(Clone, Copy, PartialEq, Eq, Structural, Debug)]
pub enum Template {
    Basic,
    Proto,
}

/// Configuration for creating a new project.
#[derive(Clone, Debug)]
pub struct ProjectConfig {
    pub name: String,
    pub base_path: String,
    pub template: Template,
}

impl ProjectConfig {
    /// The scaffolder requires a non-empty project name.
    pub open spec fn wf(self) -> bool {
        self.name@.len() > 0
    }

    /// The target path: `base_path` joined with `name`, no normalization.
    pub open spec fn project_path_spec(self) -> Seq<char> {
        join(self.base_path@, self.name@)
    }

    /// A fresh configuration with the current directory placeholder `.` as
    /// base path and the `Basic` template; callers supply a resolved
    /// working directory through [`Self::with_base_path`].
    pub fn new(name: String) -> (c: Self)
        ensures
            c.name@ == name@,
            c.base_path@ == "."@,
            c.template == Template::Basic,
    {
        ProjectConfig { name, base_path: ".".to_owned(), template: Template::Basic }
    }

    pub fn with_base_path(self, path: String) -> (c: Self)
        ensures
            c.name@ == self.name@,
            c.base_path@ == path@,
            c.template == self.template,
    {
        ProjectConfig { base_path: path, ..self }
    }

    pub fn with_template(self, template: Template) -> (c: Self)
        ensures
            c.name@ == self.name@,
            c.base_path@ == self.base_path@,
            c.template == template,
    {
        ProjectConfig { template, ..self }
    }

    /// Pure join of `base_path` and `name`.
    pub fn project_path(&self) -> (r: String)
        ensures
            r@ == self.project_path_spec(),
    {
        join_path(self.base_path.as_str(), self.name.as_str())
    }
}

/// Errors that can occur during project creation.
#[derive(Debug)]
pub enum CreateError {
    /// A filesystem operation was refused; carries the path it failed at.
    Io(String),
    /// The target project path is already occupied; carries that path.
    ProjectAlreadyExists(String),
}

/// The directories of the minimal skeleton: the project root, the engine
/// subtree, and the native module subtree with its source directory.
pub open spec fn is_basic_dir(pp: Seq<char>, p: Seq<char>) -> bool {
    ||| p == pp
    ||| p == join(pp, "godot"@)
    ||| p == join(pp, "rust"@)
    ||| p == join(pp, "rust/src"@)
}

/// The genre subdirectories that the `Proto` template adds under the
/// engine subtree, including the intermediate directories they need.
pub open spec fn is_proto_dir(pp: Seq<char>, p: Seq<char>) -> bool {
    ||| p == join(pp, "godot/entity"@)
    ||| p == join(pp, "godot/player"@)
    ||| p == join(pp, "godot/ui"@)
    ||| p == join(pp, "godot/pipeline"@)
    ||| p == join(pp, "godot/pipeline/aseprite"@)
    ||| p == join(pp, "godot/pipeline/aseprite/scripts"@)
    ||| p == join(pp, "godot/pipeline/aseprite/src"@)
    ||| p == join(pp, "godot/pipeline/aseprite/wizard"@)
    ||| p == join(pp, "godot/pipeline/ldtk"@)
    ||| p == join(pp, "godot/addons"@)
    ||| p == join(pp, "godot/addons/AsepriteWizard"@)
    ||| p == join(pp, "godot/addons/ldtk-importer"@)
}

/// Every directory the scaffolder creates below a project path `pp` for
/// template `t`.
pub open spec fn is_scaffold_dir(pp: Seq<char>, t: Template, p: Seq<char>) -> bool {
    is_basic_dir(pp, p) || (t is Proto && is_proto_dir(pp, p))
}

/// The extension manifest's path under the engine subtree; its name
/// depends on the template variant.
pub open spec fn ext_manifest_rel(t: Template) -> Seq<char> {
    if t is Basic {
        "godot/.gdextension"@
    } else {
        "godot/proto.gdextension"@
    }
}

/// Every file the scaffolder writes below a project path `pp` for
/// template `t`.
pub open spec fn is_scaffold_file(pp: Seq<char>, t: Template, p: Seq<char>) -> bool {
    ||| p == join(pp, ".gitignore"@)
    ||| p == join(pp, "godot/.gitignore"@)
    ||| p == join(pp, ext_manifest_rel(t))
    ||| p == join(pp, "godot/project.godot"@)
    ||| p == join(pp, "rust/.gitignore"@)
    ||| p == join(pp, "rust/src/lib.rs"@)
    ||| p == join(pp, "rust/Cargo.toml"@)
}

/// Every directory `create_project` creates for configuration `c`.
pub open spec fn is_created_dir(c: ProjectConfig, p: Seq<char>) -> bool {
    is_scaffold_dir(c.project_path_spec(), c.template, p)
}

/// Every file `create_project` writes for configuration `c`.
pub open spec fn is_created_file(c: ProjectConfig, p: Seq<char>) -> bool {
    is_scaffold_file(c.project_path_spec(), c.template, p)
}

/// The path of the `i`-th directory the scaffolder creates, in the order
/// it creates them (the project root first, parents before children).
pub open spec fn scaffold_dir_at(pp: Seq<char>, i: int) -> Seq<char> {
    if i == 0 {
        pp
    } else if i == 1 {
        join(pp, "godot"@)
    } else if i == 2 {
        join(pp, "rust"@)
    } else if i == 3 {
        join(pp, "rust/src"@)
    } else if i == 4 {
        join(pp, "godot/entity"@)
    } else if i == 5 {
        join(pp, "godot/player"@)
    } else if i == 6 {
        join(pp, "godot/ui"@)
    } else if i == 7 {
        join(pp, "godot/pipeline"@)
    } else if i == 8 {
        join(pp, "godot/pipeline/aseprite"@)
    } else if i == 9 {
        join(pp, "godot/pipeline/aseprite/scripts"@)
    } else if i == 10 {
        join(pp, "godot/pipeline/aseprite/src"@)
    } else if i == 11 {
        join(pp, "godot/pipeline/aseprite/wizard"@)
    } else if i == 12 {
        join(pp, "godot/pipeline/ldtk"@)
    } else if i == 13 {
        join(pp, "godot/addons"@)
    } else if i == 14 {
        join(pp, "godot/addons/AsepriteWizard"@)
    } else {
        join(pp, "godot/addons/ldtk-importer"@)
    }
}

/// How many directories the scaffolder creates for template `t`.
pub open spec fn scaffold_dir_count(t: Template) -> int {
    if t is Basic {
        4
    } else {
        16
    }
}

/// Nothing stands where the scaffolder must create a directory: the
/// model's reading of a fresh project path (on a real filesystem it
/// follows from the project path itself being absent).
pub open spec fn dirs_fresh(c: ProjectConfig, fs: Fs) -> bool {
    forall|p: Seq<char>| is_created_dir(c, p) ==> !(#[trigger] fs.exists_node(p))
}

/// Every directory in the creation order is a scaffold directory of its
/// template and lies at or under the project path.
pub(crate) proof fn lemma_dir_at_is_scaffold(pp: Seq<char>, t: Template)
    ensures
        forall|i: int|
            0 <= i < scaffold_dir_count(t) ==> is_scaffold_dir(
                pp,
                t,
                #[trigger] scaffold_dir_at(pp, i),
            ),
        forall|i: int|
            0 <= i < scaffold_dir_count(t) ==> under(#[trigger] scaffold_dir_at(pp, i), pp),
{
    lemma_dir_layout(pp);
}

/// The directories of the creation order are pairwise distinct.
pub(crate) proof fn lemma_dirs_distinct(pp: Seq<char>)
    ensures
        forall|j: int, k: int|
            0 <= j < k < 16 ==> #[trigger] scaffold_dir_at(pp, j) != #[trigger] scaffold_dir_at(
                pp,
                k,
            ),
{
    reveal_strlit("godot");
    reveal_strlit("rust");
    reveal_strlit("rust/src");
    reveal_strlit("godot/entity");
    reveal_strlit("godot/player");
    reveal_strlit("godot/ui");
    reveal_strlit("godot/pipeline");
    reveal_strlit("godot/pipeline/aseprite");
    reveal_strlit("godot/pipeline/aseprite/scripts");
    reveal_strlit("godot/pipeline/aseprite/src");
    reveal_strlit("godot/pipeline/aseprite/wizard");
    reveal_strlit("godot/pipeline/ldtk");
    reveal_strlit("godot/addons");
    reveal_strlit("godot/addons/AsepriteWizard");
    reveal_strlit("godot/addons/ldtk-importer");
    assert("godot"@.len() == 5);
    assert("rust"@.len() == 4);
    assert("rust/src"@.len() == 8);
    assert("godot/entity"@.len() == 12);
    assert("godot/player"@.len() == 12);
    assert("godot/ui"@.len() == 8);
    assert("godot/pipeline"@.len() == 14);
    assert("godot/pipeline/aseprite"@.len() == 23);
    assert("godot/pipeline/aseprite/scripts"@.len() == 31);
    assert("godot/pipeline/aseprite/src"@.len() == 27);
    assert("godot/pipeline/aseprite/wizard"@.len() == 30);
    assert("godot/pipeline/ldtk"@.len() == 19);
    assert("godot/addons"@.len() == 12);
    assert("godot/addons/AsepriteWizard"@.len() == 27);
    assert("godot/addons/ldtk-importer"@.len() == 26);
    assert("rust/src"@[0] != "godot/ui"@[0]);
    assert("godot/entity"@[6] != "godot/player"@[6]);
    assert("godot/entity"@[6] != "godot/addons"@[6]);
    assert("godot/player"@[6] != "godot/addons"@[6]);
    assert("godot/pipeline/aseprite/src"@[6] != "godot/addons/AsepriteWizard"@[6]);
    lemma_join_is_under(pp, "godot"@);
    lemma_join_is_under(pp, "rust"@);
    lemma_join_is_under(pp, "rust/src"@);
    lemma_join_is_under(pp, "godot/entity"@);
    lemma_join_is_under(pp, "godot/player"@);
    lemma_join_is_under(pp, "godot/ui"@);
    lemma_join_is_under(pp, "godot/pipeline"@);
    lemma_join_is_under(pp, "godot/pipeline/aseprite"@);
    lemma_join_is_under(pp, "godot/pipeline/aseprite/scripts"@);
    lemma_join_is_under(pp, "godot/pipeline/aseprite/src"@);
    lemma_join_is_under(pp, "godot/pipeline/aseprite/wizard"@);
    lemma_join_is_under(pp, "godot/pipeline/ldtk"@);
    lemma_join_is_under(pp, "godot/addons"@);
    lemma_join_is_under(pp, "godot/addons/AsepriteWizard"@);
    lemma_join_is_under(pp, "godot/addons/ldtk-importer"@);
    lemma_join_ne(pp, "godot"@, "rust"@);
    lemma_join_ne(pp, "godot"@, "rust/src"@);
    lemma_join_ne(pp, "godot"@, "godot/entity"@);
    lemma_join_ne(pp, "godot"@, "godot/player"@);
    lemma_join_ne(pp, "godot"@, "godot/ui"@);
    lemma_join_ne(pp, "godot"@, "godot/pipeline"@);
    lemma_join_ne(pp, "godot"@, "godot/pipeline/aseprite"@);
    lemma_join_ne(pp, "godot"@, "godot/pipeline/aseprite/scripts"@);
    lemma_join_ne(pp, "godot"@, "godot/pipeline/aseprite/src"@);
    lemma_join_ne(pp, "godot"@, "godot/pipeline/aseprite/wizard"@);
    lemma_join_ne(pp, "godot"@, "godot/pipeline/ldtk"@);
    lemma_join_ne(pp, "godot"@, "godot/addons"@);
    lemma_join_ne(pp, "godot"@, "godot/addons/AsepriteWizard"@);
    lemma_join_ne(pp, "godot"@, "godot/addons/ldtk-importer"@);
    lemma_join_ne(pp, "rust"@, "rust/src"@);
    lemma_join_ne(pp, "rust"@, "godot/entity"@);
    lemma_join_ne(pp, "rust"@, "godot/player"@);
    lemma_join_ne(pp, "rust"@, "godot/ui"@);
    lemma_join_ne(pp, "rust"@, "godot/pipeline"@);
    lemma_join_ne(pp, "rust"@, "godot/pipeline/aseprite"@);
    lemma_join_ne(pp, "rust"@, "godot/pipeline/aseprite/scripts"@);
    lemma_join_ne(pp, "rust"@, "godot/pipeline/aseprite/src"@);
    lemma_join_ne(pp, "rust"@, "godot/pipeline/aseprite/wizard"@);
    lemma_join_ne(pp, "rust"@, "godot/pipeline/ldtk"@);
    lemma_join_ne(pp, "rust"@, "godot/addons"@);
    lemma_join_ne(pp, "rust"@, "godot/addons/AsepriteWizard"@);
    lemma_join_ne(pp, "rust"@, "godot/addons/ldtk-importer"@);
    lemma_join_ne(pp, "rust/src"@, "godot/entity"@);
    lemma_join_ne(pp, "rust/src"@, "godot/player"@);
    lemma_join_ne(pp, "rust/src"@, "godot/ui"@);
    lemma_join_ne(pp, "rust/src"@, "godot/pipeline"@);
    lemma_join_ne(pp, "rust/src"@, "godot/pipeline/aseprite"@);
    lemma_join_ne(pp, "rust/src"@, "godot/pipeline/aseprite/scripts"@);
    lemma_join_ne(pp, "rust/src"@, "godot/pipeline/aseprite/src"@);
    lemma_join_ne(pp, "rust/src"@, "godot/pipeline/aseprite/wizard"@);
    lemma_join_ne(pp, "rust/src"@, "godot/pipeline/ldtk"@);
    lemma_join_ne(pp, "rust/src"@, "godot/addons"@);
    lemma_join_ne(pp, "rust/src"@, "godot/addons/AsepriteWizard"@);
    lemma_join_ne(pp, "rust/src"@, "godot/addons/ldtk-importer"@);
    lemma_join_ne(pp, "godot/entity"@, "godot/player"@);
    lemma_join_ne(pp, "godot/entity"@, "godot/ui"@);
    lemma_join_ne(pp, "godot/entity"@, "godot/pipeline"@);
    lemma_join_ne(pp, "godot/entity"@, "godot/pipeline/aseprite"@);
    lemma_join_ne(pp, "godot/entity"@, "godot/pipeline/aseprite/scripts"@);
    lemma_join_ne(pp, "godot/entity"@, "godot/pipeline/aseprite/src"@);
    lemma_join_ne(pp, "godot/entity"@, "godot/pipeline/aseprite/wizard"@);
    lemma_join_ne(pp, "godot/entity"@, "godot/pipeline/ldtk"@);
    lemma_join_ne(pp, "godot/entity"@, "godot/addons"@);
    lemma_join_ne(pp, "godot/entity"@, "godot/addons/AsepriteWizard"@);
    lemma_join_ne(pp, "godot/entity"@, "godot/addons/ldtk-importer"@);
    lemma_join_ne(pp, "godot/player"@, "godot/ui"@);
    lemma_join_ne(pp, "godot/player"@, "godot/pipeline"@);
    lemma_join_ne(pp, "godot/player"@, "godot/pipeline/aseprite"@);
    lemma_join_ne(pp, "godot/player"@, "godot/pipeline/aseprite/scripts"@);
    lemma_join_ne(pp, "godot/player"@, "godot/pipeline/aseprite/src"@);
    lemma_join_ne(pp, "godot/player"@, "godot/pipeline/aseprite/wizard"@);
    lemma_join_ne(pp, "godot/player"@, "godot/pipeline/ldtk"@);
    lemma_join_ne(pp, "godot/player"@, "godot/addons"@);
    lemma_join_ne(pp, "godot/player"@, "godot/addons/AsepriteWizard"@);
    lemma_join_ne(pp, "godot/player"@, "godot/addons/ldtk-importer"@);
    lemma_join_ne(pp, "godot/ui"@, "godot/pipeline"@);
    lemma_join_ne(pp, "godot/ui"@, "godot/pipeline/aseprite"@);
    lemma_join_ne(pp, "godot/ui"@, "godot/pipeline/aseprite/scripts"@);
    lemma_join_ne(pp, "godot/ui"@, "godot/pipeline/aseprite/src"@);
    lemma_join_ne(pp, "godot/ui"@, "godot/pipeline/aseprite/wizard"@);
    lemma_join_ne(pp, "godot/ui"@, "godot/pipeline/ldtk"@);
    lemma_join_ne(pp, "godot/ui"@, "godot/addons"@);
    lemma_join_ne(pp, "godot/ui"@, "godot/addons/AsepriteWizard"@);
    lemma_join_ne(pp, "godot/ui"@, "godot/addons/ldtk-importer"@);
    lemma_join_ne(pp, "godot/pipeline"@, "godot/pipeline/aseprite"@);
    lemma_join_ne(pp, "godot/pipeline"@, "godot/pipeline/aseprite/scripts"@);
    lemma_join_ne(pp, "godot/pipeline"@, "godot/pipeline/aseprite/src"@);
    lemma_join_ne(pp, "godot/pipeline"@, "godot/pipeline/aseprite/wizard"@);
    lemma_join_ne(pp, "godot/pipeline"@, "godot/pipeline/ldtk"@);
    lemma_join_ne(pp, "godot/pipeline"@, "godot/addons"@);
    lemma_join_ne(pp, "godot/pipeline"@, "godot/addons/AsepriteWizard"@);
    lemma_join_ne(pp, "godot/pipeline"@, "godot/addons/ldtk-importer"@);
    lemma_join_ne(pp, "godot/pipeline/aseprite"@, "godot/pipeline/aseprite/scripts"@);
    lemma_join_ne(pp, "godot/pipeline/aseprite"@, "godot/pipeline/aseprite/src"@);
    lemma_join_ne(pp, "godot/pipeline/aseprite"@, "godot/pipeline/aseprite/wizard"@);
    lemma_join_ne(pp, "godot/pipeline/aseprite"@, "godot/pipeline/ldtk"@);
    lemma_join_ne(pp, "godot/pipeline/aseprite"@, "godot/addons"@);
    lemma_join_ne(pp, "godot/pipeline/aseprite"@, "godot/addons/AsepriteWizard"@);
    lemma_join_ne(pp, "godot/pipeline/aseprite"@, "godot/addons/ldtk-importer"@);
    lemma_join_ne(pp, "godot/pipeline/aseprite/scripts"@, "godot/pipeline/aseprite/src"@);
    lemma_join_ne(pp, "godot/pipeline/aseprite/scripts"@, "godot/pipeline/aseprite/wizard"@);
    lemma_join_ne(pp, "godot/pipeline/aseprite/scripts"@, "godot/pipeline/ldtk"@);
    lemma_join_ne(pp, "godot/pipeline/aseprite/scripts"@, "godot/addons"@);
    lemma_join_ne(pp, "godot/pipeline/aseprite/scripts"@, "godot/addons/AsepriteWizard"@);
    lemma_join_ne(pp, "godot/pipeline/aseprite/scripts"@, "godot/addons/ldtk-importer"@);
    lemma_join_ne(pp, "godot/pipeline/aseprite/src"@, "godot/pipeline/aseprite/wizard"@);
    lemma_join_ne(pp, "godot/pipeline/aseprite/src"@, "godot/pipeline/ldtk"@);
    lemma_join_ne(pp, "godot/pipeline/aseprite/src"@, "godot/addons"@);
    lemma_join_ne(pp, "godot/pipeline/aseprite/src"@, "godot/addons/AsepriteWizard"@);
    lemma_join_ne(pp, "godot/pipeline/aseprite/src"@, "godot/addons/ldtk-importer"@);
    lemma_join_ne(pp, "godot/pipeline/aseprite/wizard"@, "godot/pipeline/ldtk"@);
    lemma_join_ne(pp, "godot/pipeline/aseprite/wizard"@, "godot/addons"@);
    lemma_join_ne(pp, "godot/pipeline/aseprite/wizard"@, "godot/addons/AsepriteWizard"@);
    lemma_join_ne(pp, "godot/pipeline/aseprite/wizard"@, "godot/addons/ldtk-importer"@);
    lemma_join_ne(pp, "godot/pipeline/ldtk"@, "godot/addons"@);
    lemma_join_ne(pp, "godot/pipeline/ldtk"@, "godot/addons/AsepriteWizard"@);
    lemma_join_ne(pp, "godot/pipeline/ldtk"@, "godot/addons/ldtk-importer"@);
    lemma_join_ne(pp, "godot/addons"@, "godot/addons/AsepriteWizard"@);
    lemma_join_ne(pp, "godot/addons"@, "godot/addons/ldtk-importer"@);
    lemma_join_ne(pp, "godot/addons/AsepriteWizard"@, "godot/addons/ldtk-importer"@);
}

/// The base directory is writable for `c`: no path the scaffolder would
/// touch is refused.
pub open spec fn all_clear(c: ProjectConfig, fs: Fs) -> bool {
    forall|p: Seq<char>|
        (is_created_dir(c, p) || is_created_file(c, p)) ==> !(#[trigger] fs.is_denied(p))
}

/// The full generated layout: exactly the scaffold directories were
/// added, each generated file holds its specified content, and nothing
/// else changed.
pub open spec fn success_tree(c: ProjectConfig, pre: Fs, post: Fs) -> bool {
    let pp = c.project_path_spec();
    &&& forall|p: Seq<char>| #[trigger]
        post.has_dir(p) == (pre.has_dir(p) || is_created_dir(c, p))
    &&& post.file_content(join(pp, ".gitignore"@)) == Some(templates::root_gitignore_text())
    &&& post.file_content(join(pp, "godot/.gitignore"@)) == Some(templates::godot_gitignore_text())
    &&& post.file_content(join(pp, ext_manifest_rel(c.template))) == Some(
        templates::gdextension_text(),
    )
    &&& post.file_content(join(pp, "godot/project.godot"@)) == Some(
        templates::descriptor_text(c.name@),
    )
    &&& post.file_content(join(pp, "rust/.gitignore"@)) == Some(templates::rust_gitignore_text())
    &&& post.file_content(join(pp, "rust/src/lib.rs"@)) == Some(templates::lib_stub_text())
    &&& post.file_content(join(pp, "rust/Cargo.toml"@)) == Some(templates::cargo_manifest_text())
    &&& forall|p: Seq<char>|
        !is_created_file(c, p) ==> #[trigger] post.file_content(p) == pre.file_content(p)
    &&& forall|p: Seq<char>| #[trigger] post.is_denied(p) == pre.is_denied(p)
}

/// Nothing is left at or below the project path, and nothing outside it
/// changed.
pub open spec fn rolled_back(c: ProjectConfig, pre: Fs, post: Fs) -> bool {
    let pp = c.project_path_spec();
    &&& forall|p: Seq<char>| under(p, pp) ==> !(#[trigger] post.has_dir(p))
    &&& forall|p: Seq<char>| under(p, pp) ==> (#[trigger] post.file_content(p)) is None
    &&& forall|p: Seq<char>| !under(p, pp) ==> #[trigger] post.has_dir(p) == pre.has_dir(p)
    &&& forall|p: Seq<char>|
        !under(p, pp) ==> #[trigger] post.file_content(p) == pre.file_content(p)
    &&& forall|p: Seq<char>| #[trigger] post.is_denied(p) == pre.is_denied(p)
}

/// The whole contract of `create_project`, case by case over the state
/// the filesystem was in:
/// - the project path is occupied: `ProjectAlreadyExists` naming that
///   path, and the filesystem is untouched;
/// - the path is fresh below (nothing stands where a directory must go)
///   and the base is writable: success, and the full layout stands;
/// - the path itself is free but some needed path is refused or already
///   occupied (for instance by a racing creation): an I/O error naming
///   such a path, and everything at or below the project path is rolled
///   back.
pub open spec fn scaffold_post(c: ProjectConfig, pre: Fs, post: Fs, r: Result<
    (),
    CreateError,
>) -> bool {
    let pp = c.project_path_spec();
    &&& (pre.exists_node(pp) ==> {
        &&& r is Err
        &&& r->Err_0 is ProjectAlreadyExists
        &&& r->Err_0->ProjectAlreadyExists_0@ == pp
        &&& post == pre
    })
    &&& (!pre.exists_node(pp) && dirs_fresh(c, pre) && all_clear(c, pre) ==> r is Ok
        && success_tree(c, pre, post))
    &&& (!pre.exists_node(pp) && !(dirs_fresh(c, pre) && all_clear(c, pre)) ==> r is Err
        && r->Err_0 is Io && (is_created_dir(c, r->Err_0->Io_0@) || is_created_file(
        c,
        r->Err_0->Io_0@,
    )) && (pre.is_denied(r->Err_0->Io_0@) || pre.exists_node(r->Err_0->Io_0@)) && rolled_back(
        c,
        pre,
        post,
    ))
}

/// Every scaffold directory joined below `pp` lies strictly under `pp`.
pub(crate) proof fn lemma_dir_layout(pp: Seq<char>)
    ensures
        strictly_under(join(pp, "godot"@), pp),
        strictly_under(join(pp, "rust"@), pp),
        strictly_under(join(pp, "rust/src"@), pp),
        strictly_under(join(pp, "godot/entity"@), pp),
        strictly_under(join(pp, "godot/player"@), pp),
        strictly_under(join(pp, "godot/ui"@), pp),
        strictly_under(join(pp, "godot/pipeline"@), pp),
        strictly_under(join(pp, "godot/pipeline/aseprite"@), pp),
        strictly_under(join(pp, "godot/pipeline/aseprite/scripts"@), pp),
        strictly_under(join(pp, "godot/pipeline/aseprite/src"@), pp),
        strictly_under(join(pp, "godot/pipeline/aseprite/wizard"@), pp),
        strictly_under(join(pp, "godot/pipeline/ldtk"@), pp),
        strictly_under(join(pp, "godot/addons"@), pp),
        strictly_under(join(pp, "godot/addons/AsepriteWizard"@), pp),
        strictly_under(join(pp, "godot/addons/ldtk-importer"@), pp),
{
    lemma_join_is_under(pp, "godot"@);
    lemma_join_is_under(pp, "rust"@);
    lemma_join_is_under(pp, "rust/src"@);
    lemma_join_is_under(pp, "godot/entity"@);
    lemma_join_is_under(pp, "godot/player"@);
    lemma_join_is_under(pp, "godot/ui"@);
    lemma_join_is_under(pp, "godot/pipeline"@);
    lemma_join_is_under(pp, "godot/pipeline/aseprite"@);
    lemma_join_is_under(pp, "godot/pipeline/aseprite/scripts"@);
    lemma_join_is_under(pp, "godot/pipeline/aseprite/src"@);
    lemma_join_is_under(pp, "godot/pipeline/aseprite/wizard"@);
    lemma_join_is_under(pp, "godot/pipeline/ldtk"@);
    lemma_join_is_under(pp, "godot/addons"@);
    lemma_join_is_under(pp, "godot/addons/AsepriteWizard"@);
    lemma_join_is_under(pp, "godot/addons/ldtk-importer"@);
}

/// Every scaffold file joined below `pp` lies strictly under `pp`, and
/// the scaffold file paths are pairwise distinct.
pub(crate) proof fn lemma_file_layout(pp: Seq<char>)
    ensures
        strictly_under(join(pp, ".gitignore"@), pp),
        strictly_under(join(pp, "godot/.gitignore"@), pp),
        strictly_under(join(pp, "godot/.gdextension"@), pp),
        strictly_under(join(pp, "godot/proto.gdextension"@), pp),
        strictly_under(join(pp, "godot/project.godot"@), pp),
        strictly_under(join(pp, "rust/.gitignore"@), pp),
        strictly_under(join(pp, "rust/src/lib.rs"@), pp),
        strictly_under(join(pp, "rust/Cargo.toml"@), pp),
        join(pp, ".gitignore"@) != join(pp, "godot/.gitignore"@),
        join(pp, ".gitignore"@) != join(pp, "godot/.gdextension"@),
        join(pp, ".gitignore"@) != join(pp, "godot/proto.gdextension"@),
        join(pp, ".gitignore"@) != join(pp, "godot/project.godot"@),
        join(pp, ".gitignore"@) != join(pp, "rust/.gitignore"@),
        join(pp, ".gitignore"@) != join(pp, "rust/src/lib.rs"@),
        join(pp, ".gitignore"@) != join(pp, "rust/Cargo.toml"@),
        join(pp, "godot/.gitignore"@) != join(pp, "godot/.gdextension"@),
        join(pp, "godot/.gitignore"@) != join(pp, "godot/proto.gdextension"@),
        join(pp, "godot/.gitignore"@) != join(pp, "godot/project.godot"@),
        join(pp, "godot/.gitignore"@) != join(pp, "rust/.gitignore"@),
        join(pp, "godot/.gitignore"@) != join(pp, "rust/src/lib.rs"@),
        join(pp, "godot/.gitignore"@) != join(pp, "rust/Cargo.toml"@),
        join(pp, "godot/.gdextension"@) != join(pp, "godot/proto.gdextension"@),
        join(pp, "godot/.gdextension"@) != join(pp, "godot/project.godot"@),
        join(pp, "godot/.gdextension"@) != join(pp, "rust/.gitignore"@),
        join(pp, "godot/.gdextension"@) != join(pp, "rust/src/lib.rs"@),
        join(pp, "godot/.gdextension"@) != join(pp, "rust/Cargo.toml"@),
        join(pp, "godot/proto.gdextension"@) != join(pp, "godot/project.godot"@),
        join(pp, "godot/proto.gdextension"@) != join(pp, "rust/.gitignore"@),
        join(pp, "godot/proto.gdextension"@) != join(pp, "rust/src/lib.rs"@),
        join(pp, "godot/proto.gdextension"@) != join(pp, "rust/Cargo.toml"@),
        join(pp, "godot/project.godot"@) != join(pp, "rust/.gitignore"@),
        join(pp, "godot/project.godot"@) != join(pp, "rust/src/lib.rs"@),
        join(pp, "godot/project.godot"@) != join(pp, "rust/Cargo.toml"@),
        join(pp, "rust/.gitignore"@) != join(pp, "rust/src/lib.rs"@),
        join(pp, "rust/.gitignore"@) != join(pp, "rust/Cargo.toml"@),
        join(pp, "rust/src/lib.rs"@) != join(pp, "rust/Cargo.toml"@),
{
    reveal_strlit(".gitignore");
    reveal_strlit("godot/.gitignore");
    reveal_strlit("godot/.gdextension");
    reveal_strlit("godot/proto.gdextension");
    reveal_strlit("godot/project.godot");
    reveal_strlit("rust/.gitignore");
    reveal_strlit("rust/src/lib.rs");
    reveal_strlit("rust/Cargo.toml");
    assert("rust/.gitignore"@[5] != "rust/src/lib.rs"@[5]);
    assert("rust/.gitignore"@[5] != "rust/Cargo.toml"@[5]);
    assert("rust/src/lib.rs"@[5] != "rust/Cargo.toml"@[5]);
    lemma_join_is_under(pp, ".gitignore"@);
    lemma_join_is_under(pp, "godot/.gitignore"@);
    lemma_join_is_under(pp, "godot/.gdextension"@);
    lemma_join_is_under(pp, "godot/proto.gdextension"@);
    lemma_join_is_under(pp, "godot/project.godot"@);
    lemma_join_is_under(pp, "rust/.gitignore"@);
    lemma_join_is_under(pp, "rust/src/lib.rs"@);
    lemma_join_is_under(pp, "rust/Cargo.toml"@);
    lemma_join_ne(pp, ".gitignore"@, "godot/.gitignore"@);
    lemma_join_ne(pp, ".gitignore"@, "godot/.gdextension"@);
    lemma_join_ne(pp, ".gitignore"@, "godot/proto.gdextension"@);
    lemma_join_ne(pp, ".gitignore"@, "godot/project.godot"@);
    lemma_join_ne(pp, ".gitignore"@, "rust/.gitignore"@);
    lemma_join_ne(pp, ".gitignore"@, "rust/src/lib.rs"@);
    lemma_join_ne(pp, ".gitignore"@, "rust/Cargo.toml"@);
    lemma_join_ne(pp, "godot/.gitignore"@, "godot/.gdextension"@);
    lemma_join_ne(pp, "godot/.gitignore"@, "godot/proto.gdextension"@);
    lemma_join_ne(pp, "godot/.gitignore"@, "godot/project.godot"@);
    lemma_join_ne(pp, "godot/.gitignore"@, "rust/.gitignore"@);
    lemma_join_ne(pp, "godot/.gitignore"@, "rust/src/lib.rs"@);
    lemma_join_ne(pp, "godot/.gitignore"@, "rust/Cargo.toml"@);
    lemma_join_ne(pp, "godot/.gdextension"@, "godot/proto.gdextension"@);
    lemma_join_ne(pp, "godot/.gdextension"@, "godot/project.godot"@);
    lemma_join_ne(pp, "godot/.gdextension"@, "rust/.gitignore"@);
    lemma_join_ne(pp, "godot/.gdextension"@, "rust/src/lib.rs"@);
    lemma_join_ne(pp, "godot/.gdextension"@, "rust/Cargo.toml"@);
    lemma_join_ne(pp, "godot/proto.gdextension"@, "godot/project.godot"@);
    lemma_join_ne(pp, "godot/proto.gdextension"@, "rust/.gitignore"@);
    lemma_join_ne(pp, "godot/proto.gdextension"@, "rust/src/lib.rs"@);
    lemma_join_ne(pp, "godot/proto.gdextension"@, "rust/Cargo.toml"@);
    lemma_join_ne(pp, "godot/project.godot"@, "rust/.gitignore"@);
    lemma_join_ne(pp, "godot/project.godot"@, "rust/src/lib.rs"@);
    lemma_join_ne(pp, "godot/project.godot"@, "rust/Cargo.toml"@);
    lemma_join_ne(pp, "rust/.gitignore"@, "rust/src/lib.rs"@);
    lemma_join_ne(pp, "rust/.gitignore"@, "rust/Cargo.toml"@);
    lemma_join_ne(pp, "rust/src/lib.rs"@, "rust/Cargo.toml"@);
}

/// Creates the directory skeleton for the chosen template under
/// `project_path`.
fn create_directory_structure(fs: &mut Fs, project_path: &String, template: &Template) -> (r:
    Result<(), CreateError>)
    ensures
        forall|p: Seq<char>| #[trigger] final(fs).is_denied(p) == old(fs).is_denied(p),
        forall|p: Seq<char>| #[trigger] final(fs).file_content(p) == old(fs).file_content(p),
        forall|p: Seq<char>|
            !under(p, project_path@) ==> #[trigger] final(fs).has_dir(p) == old(fs).has_dir(p),
        r is Ok ==> forall|p: Seq<char>| #[trigger]
            final(fs).has_dir(p) == (old(fs).has_dir(p) || is_scaffold_dir(
                project_path@,
                *template,
                p,
            )),
        r is Ok ==> forall|p: Seq<char>|
            is_scaffold_dir(project_path@, *template, p) ==> !(#[trigger] old(fs).is_denied(p))
                && !old(fs).exists_node(p),
        r is Err ==> r->Err_0 is Io && exists|k: int|
            {
                &&& 0 <= k < scaffold_dir_count(*template)
                &&& r->Err_0->Io_0@ == #[trigger] scaffold_dir_at(project_path@, k)
                &&& old(fs).is_denied(scaffold_dir_at(project_path@, k)) || old(fs).exists_node(
                    scaffold_dir_at(project_path@, k),
                )
                &&& forall|j: int|
                    0 <= j < k ==> !old(fs).is_denied(
                        #[trigger] scaffold_dir_at(project_path@, j),
                    ) && !old(fs).exists_node(scaffold_dir_at(project_path@, j))
                &&& forall|p: Seq<char>| #[trigger]
                    final(fs).has_dir(p) == (old(fs).has_dir(p) || exists|j: int|
                        0 <= j < k && p == #[trigger] scaffold_dir_at(project_path@, j))
            },
{
    proof {
        lemma_dir_layout(project_path@);
        lemma_dirs_distinct(project_path@);
        assert(scaffold_dir_at(project_path@, 0) == project_path@);
        assert(scaffold_dir_at(project_path@, 1) == join(project_path@, "godot"@));
        assert(scaffold_dir_at(project_path@, 2) == join(project_path@, "rust"@));
        assert(scaffold_dir_at(project_path@, 3) == join(project_path@, "rust/src"@));
        assert(scaffold_dir_at(project_path@, 4) == join(project_path@, "godot/entity"@));
        assert(scaffold_dir_at(project_path@, 5) == join(project_path@, "godot/player"@));
        assert(scaffold_dir_at(project_path@, 6) == join(project_path@, "godot/ui"@));
        assert(scaffold_dir_at(project_path@, 7) == join(project_path@, "godot/pipeline"@));
        assert(scaffold_dir_at(project_path@, 8) == join(
            project_path@,
            "godot/pipeline/aseprite"@,
        ));
        assert(scaffold_dir_at(project_path@, 9) == join(
            project_path@,
            "godot/pipeline/aseprite/scripts"@,
        ));
        assert(scaffold_dir_at(project_path@, 10) == join(
            project_path@,
            "godot/pipeline/aseprite/src"@,
        ));
        assert(scaffold_dir_at(project_path@, 11) == join(
            project_path@,
            "godot/pipeline/aseprite/wizard"@,
        ));
        assert(scaffold_dir_at(project_path@, 12) == join(
            project_path@,
            "godot/pipeline/ldtk"@,
        ));
        assert(scaffold_dir_at(project_path@, 13) == join(project_path@, "godot/addons"@));
        assert(scaffold_dir_at(project_path@, 14) == join(
            project_path@,
            "godot/addons/AsepriteWizard"@,
        ));
        assert(scaffold_dir_at(project_path@, 15) == join(
            project_path@,
            "godot/addons/ldtk-importer"@,
        ));
    }
    match fs.create_dir(project_path) {
        Err(e) => {
            return Err(e);
        },
        Ok(()) => {},
    }
    let d_godot = join_path(project_path.as_str(), "godot");
    match fs.create_dir(&d_godot) {
        Err(e) => {
            return Err(e);
        },
        Ok(()) => {},
    }
    let d_rust = join_path(project_path.as_str(), "rust");
    match fs.create_dir(&d_rust) {
        Err(e) => {
            return Err(e);
        },
        Ok(()) => {},
    }
    let d_rust_src = join_path(project_path.as_str(), "rust/src");
    match fs.create_dir(&d_rust_src) {
        Err(e) => {
            return Err(e);
        },
        Ok(()) => {},
    }
    match template {
        Template::Basic => {},
        Template::Proto => {
            let d1 = join_path(project_path.as_str(), "godot/entity");
            match fs.create_dir(&d1) {
                Err(e) => {
                    return Err(e);
                },
                Ok(()) => {},
            }
            let d2 = join_path(project_path.as_str(), "godot/player");
            match fs.create_dir(&d2) {
                Err(e) => {
                    return Err(e);
                },
                Ok(()) => {},
            }
            let d3 = join_path(project_path.as_str(), "godot/ui");
            match fs.create_dir(&d3) {
                Err(e) => {
                    return Err(e);
                },
                Ok(()) => {},
            }
            let d4 = join_path(project_path.as_str(), "godot/pipeline");
            match fs.create_dir(&d4) {
                Err(e) => {
                    return Err(e);
                },
                Ok(()) => {},
            }
            let d5 = join_path(project_path.as_str(), "godot/pipeline/aseprite");
            match fs.create_dir(&d5) {
                Err(e) => {
                    return Err(e);
                },
                Ok(()) => {},
            }
            let d6 = join_path(project_path.as_str(), "godot/pipeline/aseprite/scripts");
            match fs.create_dir(&d6) {
                Err(e) => {
                    return Err(e);
                },
                Ok(()) => {},
            }
            let d7 = join_path(project_path.as_str(), "godot/pipeline/aseprite/src");
            match fs.create_dir(&d7) {
                Err(e) => {
                    return Err(e);
                },
                Ok(()) => {},
            }
            let d8 = join_path(project_path.as_str(), "godot/pipeline/aseprite/wizard");
            match fs.create_dir(&d8) {
                Err(e) => {
                    return Err(e);
                },
                Ok(()) => {},
            }
            let d9 = join_path(project_path.as_str(), "godot/pipeline/ldtk");
            match fs.create_dir(&d9) {
                Err(e) => {
                    return Err(e);
                },
                Ok(()) => {},
            }
            let d10 = join_path(project_path.as_str(), "godot/addons");
            match fs.create_dir(&d10) {
                Err(e) => {
                    return Err(e);
                },
                Ok(()) => {},
            }
            let d11 = join_path(project_path.as_str(), "godot/addons/AsepriteWizard");
            match fs.create_dir(&d11) {
                Err(e) => {
                    return Err(e);
                },
                Ok(()) => {},
            }
            let d12 = join_path(project_path.as_str(), "godot/addons/ldtk-importer");
            match fs.create_dir(&d12) {
                Err(e) => {
                    return Err(e);
                },
                Ok(()) => {},
            }
        },
    }
    Ok(())
}

/// Writes the static ignore files and the extension manifest.
fn generate_template_files(fs: &mut Fs, project_path: &String, template: &Template) -> (r: Result<
    (),
    CreateError,
>)
    ensures
        forall|p: Seq<char>| #[trigger] final(fs).is_denied(p) == old(fs).is_denied(p),
        forall|p: Seq<char>| #[trigger] final(fs).has_dir(p) == old(fs).has_dir(p),
        forall|p: Seq<char>|
            !under(p, project_path@) ==> #[trigger] final(fs).file_content(p) == old(fs).file_content(p),
        r is Ok ==> final(fs).file_content(join(project_path@, ".gitignore"@)) == Some(
            templates::root_gitignore_text(),
        ),
        r is Ok ==> final(fs).file_content(join(project_path@, "godot/.gitignore"@)) == Some(
            templates::godot_gitignore_text(),
        ),
        r is Ok ==> final(fs).file_content(join(project_path@, ext_manifest_rel(*template)))
            == Some(templates::gdextension_text()),
        r is Ok ==> final(fs).file_content(join(project_path@, "rust/.gitignore"@)) == Some(
            templates::rust_gitignore_text(),
        ),
        r is Ok ==> forall|p: Seq<char>|
            p != join(project_path@, ".gitignore"@) && p != join(project_path@, "godot/.gitignore"@)
                && p != join(project_path@, ext_manifest_rel(*template)) && p != join(
                project_path@,
                "rust/.gitignore"@,
            ) ==> #[trigger] final(fs).file_content(p) == old(fs).file_content(p),
        r is Ok ==> !old(fs).is_denied(join(project_path@, ".gitignore"@)) && !old(fs).is_denied(
            join(project_path@, "godot/.gitignore"@),
        ) && !old(fs).is_denied(join(project_path@, ext_manifest_rel(*template))) && !old(fs).is_denied(join(project_path@, "rust/.gitignore"@)),
        r is Err ==> r->Err_0 is Io && is_scaffold_file(
            project_path@,
            *template,
            r->Err_0->Io_0@,
        ) && old(fs).is_denied(r->Err_0->Io_0@),
        r is Err ==> r->Err_0->Io_0@ == join(project_path@, ".gitignore"@) || r->Err_0->Io_0@ == join(project_path@, "godot/.gitignore"@) || r->Err_0->Io_0@ == join(project_path@, ext_manifest_rel(*template)) || r->Err_0->Io_0@ == join(project_path@, "rust/.gitignore"@),
        r is Err && r->Err_0->Io_0@ == join(project_path@, ".gitignore"@) ==> forall|p: Seq<char>| #[trigger] final(fs).file_content(p) == old(fs).file_content(p),
        r is Err && r->Err_0->Io_0@ == join(project_path@, "godot/.gitignore"@) ==> !old(fs).is_denied(join(project_path@, ".gitignore"@)) && final(fs).file_content(join(project_path@, ".gitignore"@)) == Some(templates::root_gitignore_text()) && forall|p: Seq<char>| p != join(project_path@, ".gitignore"@) ==> #[trigger] final(fs).file_content(p) == old(fs).file_content(p),
        r is Err && r->Err_0->Io_0@ == join(project_path@, ext_manifest_rel(*template)) ==> !old(fs).is_denied(join(project_path@, ".gitignore"@)) && final(fs).file_content(join(project_path@, ".gitignore"@)) == Some(templates::root_gitignore_text()) && !old(fs).is_denied(join(project_path@, "godot/.gitignore"@)) && final(fs).file_content(join(project_path@, "godot/.gitignore"@)) == Some(templates::godot_gitignore_text()) && forall|p: Seq<char>| p != join(project_path@, ".gitignore"@) && p != join(project_path@, "godot/.gitignore"@) ==> #[trigger] final(fs).file_content(p) == old(fs).file_content(p),
        r is Err && r->Err_0->Io_0@ == join(project_path@, "rust/.gitignore"@) ==> !old(fs).is_denied(join(project_path@, ".gitignore"@)) && final(fs).file_content(join(project_path@, ".gitignore"@)) == Some(templates::root_gitignore_text()) && !old(fs).is_denied(join(project_path@, "godot/.gitignore"@)) && final(fs).file_content(join(project_path@, "godot/.gitignore"@)) == Some(templates::godot_gitignore_text()) && !old(fs).is_denied(join(project_path@, ext_manifest_rel(*template))) && final(fs).file_content(join(project_path@, ext_manifest_rel(*template))) == Some(templates::gdextension_text()) && forall|p: Seq<char>| p != join(project_path@, ".gitignore"@) && p != join(project_path@, "godot/.gitignore"@) && p != join(project_path@, ext_manifest_rel(*template)) ==> #[trigger] final(fs).file_content(p) == old(fs).file_content(p),
{
    proof {
        lemma_file_layout(project_path@);
    }
    let f_root = join_path(project_path.as_str(), ".gitignore");
    match fs.write_file(&f_root, templates::root_gitignore()) {
        Err(e) => {
            return Err(e);
        },
        Ok(()) => {},
    }
    let f_godot = join_path(project_path.as_str(), "godot/.gitignore");
    match fs.write_file(&f_godot, templates::godot_gitignore()) {
        Err(e) => {
            return Err(e);
        },
        Ok(()) => {},
    }
    let f_ext = match template {
        Template::Basic => join_path(project_path.as_str(), "godot/.gdextension"),
        Template::Proto => join_path(project_path.as_str(), "godot/proto.gdextension"),
    };
    assert(f_ext@ == join(project_path@, ext_manifest_rel(*template)));
    match fs.write_file(&f_ext, templates::gdextension()) {
        Err(e) => {
            return Err(e);
        },
        Ok(()) => {},
    }
    let f_rust = join_path(project_path.as_str(), "rust/.gitignore");
    match fs.write_file(&f_rust, templates::rust_gitignore()) {
        Err(e) => {
            return Err(e);
        },
        Ok(()) => {},
    }
    Ok(())
}

/// Writes the engine project descriptor, substituting the project name.
fn initialize_godot_project(fs: &mut Fs, project_path: &String, name: &String) -> (r: Result<
    (),
    CreateError,
>)
    ensures
        forall|p: Seq<char>| #[trigger] final(fs).is_denied(p) == old(fs).is_denied(p),
        forall|p: Seq<char>| #[trigger] final(fs).has_dir(p) == old(fs).has_dir(p),
        r is Ok ==> final(fs).file_content(join(project_path@, "godot/project.godot"@)) == Some(
            templates::descriptor_text(name@),
        ),
        r is Ok ==> forall|p: Seq<char>|
            p != join(project_path@, "godot/project.godot"@) ==> #[trigger] final(fs).file_content(p) == old(fs).file_content(p),
        r is Ok ==> !old(fs).is_denied(join(project_path@, "godot/project.godot"@)),
        r is Err ==> r->Err_0 is Io && *final(fs) == *old(fs) && r->Err_0->Io_0@ == join(
            project_path@,
            "godot/project.godot"@,
        ) && old(fs).is_denied(join(project_path@, "godot/project.godot"@)),
{
    let f = join_path(project_path.as_str(), "godot/project.godot");
    let content = templates::descriptor(name.as_str());
    match fs.write_file(&f, content.as_str()) {
        Err(e) => {
            return Err(e);
        },
        Ok(()) => {},
    }
    Ok(())
}

/// Writes the native module source stub and its build manifest.
fn initialize_rust_project(fs: &mut Fs, project_path: &String) -> (r: Result<(), CreateError>)
    ensures
        forall|p: Seq<char>| #[trigger] final(fs).is_denied(p) == old(fs).is_denied(p),
        forall|p: Seq<char>| #[trigger] final(fs).has_dir(p) == old(fs).has_dir(p),
        forall|p: Seq<char>|
            p != join(project_path@, "rust/src/lib.rs"@) && p != join(
                project_path@,
                "rust/Cargo.toml"@,
            ) ==> #[trigger] final(fs).file_content(p) == old(fs).file_content(p),
        r is Ok ==> final(fs).file_content(join(project_path@, "rust/src/lib.rs"@)) == Some(
            templates::lib_stub_text(),
        ),
        r is Ok ==> final(fs).file_content(join(project_path@, "rust/Cargo.toml"@)) == Some(
            templates::cargo_manifest_text(),
        ),
        r is Ok ==> !old(fs).is_denied(join(project_path@, "rust/src/lib.rs"@)) && !old(fs).is_denied(join(project_path@, "rust/Cargo.toml"@)),
        r is Err ==> r->Err_0 is Io && old(fs).is_denied(r->Err_0->Io_0@) && (r->Err_0->Io_0@
            == join(project_path@, "rust/src/lib.rs"@) || r->Err_0->Io_0@ == join(
            project_path@,
            "rust/Cargo.toml"@,
        )),
        r is Err && r->Err_0->Io_0@ == join(project_path@, "rust/src/lib.rs"@) ==> forall|p: Seq<char>| #[trigger] final(fs).file_content(p) == old(fs).file_content(p),
        r is Err && r->Err_0->Io_0@ == join(project_path@, "rust/Cargo.toml"@) ==> !old(fs).is_denied(join(project_path@, "rust/src/lib.rs"@)) && final(fs).file_content(join(project_path@, "rust/src/lib.rs"@)) == Some(templates::lib_stub_text()) && forall|p: Seq<char>| p != join(project_path@, "rust/src/lib.rs"@) ==> #[trigger] final(fs).file_content(p) == old(fs).file_content(p),
{
    proof {
        lemma_file_layout(project_path@);
    }
    let f_lib = join_path(project_path.as_str(), "rust/src/lib.rs");
    match fs.write_file(&f_lib, templates::lib_stub()) {
        Err(e) => {
            return Err(e);
        },
        Ok(()) => {},
    }
    let f_cargo = join_path(project_path.as_str(), "rust/Cargo.toml");
    match fs.write_file(&f_cargo, templates::cargo_manifest()) {
        Err(e) => {
            return Err(e);
        },
        Ok(()) => {},
    }
    Ok(())
}

/// Creates a new project for `config` on the filesystem `fs`: checks that
/// the project path is free, creates the directory skeleton, writes the
/// template files and the generated descriptor, and on any failure after
/// the check removes everything at or below the project path again.
pub fn create_project(config: &ProjectConfig, fs: &mut Fs) -> (r: Result<(), CreateError>)
    requires
        config.wf(),
    ensures
        scaffold_post(*config, *old(fs), *final(fs), r),
{
    let project_path = config.project_path();
    if fs.exists_at(&project_path) {
        return Err(CreateError::ProjectAlreadyExists(project_path));
    }
    proof {
        lemma_dir_layout(project_path@);
        lemma_file_layout(project_path@);
        lemma_dir_at_is_scaffold(project_path@, config.template);
    }
    match create_directory_structure(fs, &project_path, &config.template) {
        Err(e) => {
            fs.remove_subtree(&project_path);
            return Err(e);
        },
        Ok(()) => {},
    }
    match generate_template_files(fs, &project_path, &config.template) {
        Err(e) => {
            fs.remove_subtree(&project_path);
            return Err(e);
        },
        Ok(()) => {},
    }
    match initialize_godot_project(fs, &project_path, &config.name) {
        Err(e) => {
            fs.remove_subtree(&project_path);
            return Err(e);
        },
        Ok(()) => {},
    }
    match initialize_rust_project(fs, &project_path) {
        Err(e) => {
            fs.remove_subtree(&project_path);
            return Err(e);
        },
        Ok(()) => {},
    }
    proof {
        let c = *config;
        let pre = *old(fs);
        assert forall|p: Seq<char>|
            is_created_dir(c, p) || is_created_file(c, p) implies !(pre.is_denied(p)) by {
            if is_created_dir(c, p) {
                assert(is_scaffold_dir(project_path@, config.template, p));
            } else {
                assert(is_scaffold_file(project_path@, config.template, p));
            }
        }
        assert(all_clear(c, pre));
        assert forall|p: Seq<char>| is_created_dir(c, p) implies !pre.exists_node(p) by {
            assert(is_scaffold_dir(project_path@, config.template, p));
            assert(!pre.is_denied(p) && !pre.exists_node(p));
        }
        assert(dirs_fresh(c, pre));
    }
    Ok(())
}

} // verus!
