//! Laws of the scaffolder, each proved from `scaffold_post`, the contract
//! of `create_project`.

use vstd::prelude::*;

verus! {

use crate::CreateError;
use crate::ProjectConfig;
use crate::all_clear;
use crate::dirs_fresh;
use crate::is_created_dir;
use crate::is_created_file;
use crate::lemma_dir_layout;
use crate::memfs::Fs;
use crate::paths::join;
use crate::paths::lemma_join_ne;
use crate::paths::under;
use crate::rolled_back;
use crate::scaffold_post;
use crate::success_tree;
use crate::templates;

/// Law: on a fresh project path (nothing at it or where a directory must
/// go) with a writable base, creation succeeds, the full specified layout
/// stands afterward (`success_tree` lists every directory and every file
/// with its content), and nothing else changed.
pub proof fn lemma_fresh_create_succeeds(
    c: ProjectConfig,
    pre: Fs,
    post: Fs,
    r: Result<(), CreateError>,
)
    requires
        !pre.exists_node(c.project_path_spec()),
        dirs_fresh(c, pre),
        all_clear(c, pre),
        scaffold_post(c, pre, post, r),
    ensures
        r is Ok,
        success_tree(c, pre, post),
        post.has_dir(c.project_path_spec()),
        post.has_dir(join(c.project_path_spec(), "godot"@)),
        post.has_dir(join(c.project_path_spec(), "rust"@)),
        post.has_dir(join(c.project_path_spec(), "rust/src"@)),
{
}

/// Law: creating the same project twice fails the second time with
/// `ProjectAlreadyExists` naming the project path, and the tree the first
/// call produced is left untouched.
pub proof fn lemma_second_create_already_exists(
    c: ProjectConfig,
    fs0: Fs,
    fs1: Fs,
    fs2: Fs,
    r1: Result<(), CreateError>,
    r2: Result<(), CreateError>,
)
    requires
        scaffold_post(c, fs0, fs1, r1),
        r1 is Ok,
        scaffold_post(c, fs1, fs2, r2),
    ensures
        r2 is Err,
        r2->Err_0 is ProjectAlreadyExists,
        r2->Err_0->ProjectAlreadyExists_0@ == c.project_path_spec(),
        fs2 == fs1,
{
    let pp = c.project_path_spec();
    if fs0.exists_node(pp) {
        assert(r1 is Err);
    }
    if !(dirs_fresh(c, fs0) && all_clear(c, fs0)) {
        assert(r1 is Err);
    }
    assert(fs1.has_dir(pp));
}

/// Law: whenever creation succeeds, the generated descriptor holds
/// exactly the fixed format with the project name substituted.
pub proof fn lemma_descriptor_content(
    c: ProjectConfig,
    pre: Fs,
    post: Fs,
    r: Result<(), CreateError>,
)
    requires
        scaffold_post(c, pre, post, r),
        r is Ok,
    ensures
        post.file_content(join(c.project_path_spec(), "godot/project.godot"@)) == Some(
            templates::descriptor_text(c.name@),
        ),
{
    let pp = c.project_path_spec();
    if pre.exists_node(pp) {
        assert(r is Err);
    }
    if !(dirs_fresh(c, pre) && all_clear(c, pre)) {
        assert(r is Err);
    }
}

/// Law: a successful run with the `Proto` template creates all nine genre
/// directories under the engine subtree.
pub proof fn lemma_proto_creates_genre_dirs(
    c: ProjectConfig,
    pre: Fs,
    post: Fs,
    r: Result<(), CreateError>,
)
    requires
        c.template is Proto,
        scaffold_post(c, pre, post, r),
        r is Ok,
    ensures
        post.has_dir(join(c.project_path_spec(), "godot/entity"@)),
        post.has_dir(join(c.project_path_spec(), "godot/player"@)),
        post.has_dir(join(c.project_path_spec(), "godot/ui"@)),
        post.has_dir(join(c.project_path_spec(), "godot/pipeline/aseprite/scripts"@)),
        post.has_dir(join(c.project_path_spec(), "godot/pipeline/aseprite/src"@)),
        post.has_dir(join(c.project_path_spec(), "godot/pipeline/aseprite/wizard"@)),
        post.has_dir(join(c.project_path_spec(), "godot/pipeline/ldtk"@)),
        post.has_dir(join(c.project_path_spec(), "godot/addons/AsepriteWizard"@)),
        post.has_dir(join(c.project_path_spec(), "godot/addons/ldtk-importer"@)),
{
    let pp = c.project_path_spec();
    if pre.exists_node(pp) {
        assert(r is Err);
    }
    if !(dirs_fresh(c, pre) && all_clear(c, pre)) {
        assert(r is Err);
    }
}

/// The genre directory paths differ from every directory of the minimal
/// skeleton joined below the same project path.
proof fn lemma_proto_vs_basic(pp: Seq<char>)
    ensures
        join(pp, "godot"@) != join(pp, "godot/entity"@),
        join(pp, "godot"@) != join(pp, "godot/player"@),
        join(pp, "godot"@) != join(pp, "godot/ui"@),
        join(pp, "godot"@) != join(pp, "godot/pipeline/aseprite/scripts"@),
        join(pp, "godot"@) != join(pp, "godot/pipeline/aseprite/src"@),
        join(pp, "godot"@) != join(pp, "godot/pipeline/aseprite/wizard"@),
        join(pp, "godot"@) != join(pp, "godot/pipeline/ldtk"@),
        join(pp, "godot"@) != join(pp, "godot/addons/AsepriteWizard"@),
        join(pp, "godot"@) != join(pp, "godot/addons/ldtk-importer"@),
        join(pp, "rust"@) != join(pp, "godot/entity"@),
        join(pp, "rust"@) != join(pp, "godot/player"@),
        join(pp, "rust"@) != join(pp, "godot/ui"@),
        join(pp, "rust"@) != join(pp, "godot/pipeline/aseprite/scripts"@),
        join(pp, "rust"@) != join(pp, "godot/pipeline/aseprite/src"@),
        join(pp, "rust"@) != join(pp, "godot/pipeline/aseprite/wizard"@),
        join(pp, "rust"@) != join(pp, "godot/pipeline/ldtk"@),
        join(pp, "rust"@) != join(pp, "godot/addons/AsepriteWizard"@),
        join(pp, "rust"@) != join(pp, "godot/addons/ldtk-importer"@),
        join(pp, "rust/src"@) != join(pp, "godot/entity"@),
        join(pp, "rust/src"@) != join(pp, "godot/player"@),
        join(pp, "rust/src"@) != join(pp, "godot/ui"@),
        join(pp, "rust/src"@) != join(pp, "godot/pipeline/aseprite/scripts"@),
        join(pp, "rust/src"@) != join(pp, "godot/pipeline/aseprite/src"@),
        join(pp, "rust/src"@) != join(pp, "godot/pipeline/aseprite/wizard"@),
        join(pp, "rust/src"@) != join(pp, "godot/pipeline/ldtk"@),
        join(pp, "rust/src"@) != join(pp, "godot/addons/AsepriteWizard"@),
        join(pp, "rust/src"@) != join(pp, "godot/addons/ldtk-importer"@),
{
    reveal_strlit("godot");
    reveal_strlit("rust");
    reveal_strlit("rust/src");
    reveal_strlit("godot/entity");
    reveal_strlit("godot/player");
    reveal_strlit("godot/ui");
    reveal_strlit("godot/pipeline/aseprite/scripts");
    reveal_strlit("godot/pipeline/aseprite/src");
    reveal_strlit("godot/pipeline/aseprite/wizard");
    reveal_strlit("godot/pipeline/ldtk");
    reveal_strlit("godot/addons/AsepriteWizard");
    reveal_strlit("godot/addons/ldtk-importer");
    assert("godot"@.len() == 5);
    assert("rust"@.len() == 4);
    assert("rust/src"@.len() == 8);
    assert("godot/entity"@.len() == 12);
    assert("godot/player"@.len() == 12);
    assert("godot/ui"@.len() == 8);
    assert("godot/pipeline/aseprite/scripts"@.len() == 31);
    assert("godot/pipeline/aseprite/src"@.len() == 27);
    assert("godot/pipeline/aseprite/wizard"@.len() == 30);
    assert("godot/pipeline/ldtk"@.len() == 19);
    assert("godot/addons/AsepriteWizard"@.len() == 27);
    assert("godot/addons/ldtk-importer"@.len() == 26);
    assert("rust/src"@[0] != "godot/ui"@[0]);
    lemma_join_ne(pp, "godot"@, "godot/entity"@);
    lemma_join_ne(pp, "godot"@, "godot/player"@);
    lemma_join_ne(pp, "godot"@, "godot/ui"@);
    lemma_join_ne(pp, "godot"@, "godot/pipeline/aseprite/scripts"@);
    lemma_join_ne(pp, "godot"@, "godot/pipeline/aseprite/src"@);
    lemma_join_ne(pp, "godot"@, "godot/pipeline/aseprite/wizard"@);
    lemma_join_ne(pp, "godot"@, "godot/pipeline/ldtk"@);
    lemma_join_ne(pp, "godot"@, "godot/addons/AsepriteWizard"@);
    lemma_join_ne(pp, "godot"@, "godot/addons/ldtk-importer"@);
    lemma_join_ne(pp, "rust"@, "godot/entity"@);
    lemma_join_ne(pp, "rust"@, "godot/player"@);
    lemma_join_ne(pp, "rust"@, "godot/ui"@);
    lemma_join_ne(pp, "rust"@, "godot/pipeline/aseprite/scripts"@);
    lemma_join_ne(pp, "rust"@, "godot/pipeline/aseprite/src"@);
    lemma_join_ne(pp, "rust"@, "godot/pipeline/aseprite/wizard"@);
    lemma_join_ne(pp, "rust"@, "godot/pipeline/ldtk"@);
    lemma_join_ne(pp, "rust"@, "godot/addons/AsepriteWizard"@);
    lemma_join_ne(pp, "rust"@, "godot/addons/ldtk-importer"@);
    lemma_join_ne(pp, "rust/src"@, "godot/entity"@);
    lemma_join_ne(pp, "rust/src"@, "godot/player"@);
    lemma_join_ne(pp, "rust/src"@, "godot/ui"@);
    lemma_join_ne(pp, "rust/src"@, "godot/pipeline/aseprite/scripts"@);
    lemma_join_ne(pp, "rust/src"@, "godot/pipeline/aseprite/src"@);
    lemma_join_ne(pp, "rust/src"@, "godot/pipeline/aseprite/wizard"@);
    lemma_join_ne(pp, "rust/src"@, "godot/pipeline/ldtk"@);
    lemma_join_ne(pp, "rust/src"@, "godot/addons/AsepriteWizard"@);
    lemma_join_ne(pp, "rust/src"@, "godot/addons/ldtk-importer"@);
}

/// Law: a successful run with the `Basic` template creates none of the
/// nine genre directories: each stands afterward exactly as it stood
/// before.
pub proof fn lemma_basic_creates_no_genre_dirs(
    c: ProjectConfig,
    pre: Fs,
    post: Fs,
    r: Result<(), CreateError>,
)
    requires
        c.template is Basic,
        scaffold_post(c, pre, post, r),
        r is Ok,
    ensures
        post.has_dir(join(c.project_path_spec(), "godot/entity"@)) == pre.has_dir(
            join(c.project_path_spec(), "godot/entity"@),
        ),
        post.has_dir(join(c.project_path_spec(), "godot/player"@)) == pre.has_dir(
            join(c.project_path_spec(), "godot/player"@),
        ),
        post.has_dir(join(c.project_path_spec(), "godot/ui"@)) == pre.has_dir(
            join(c.project_path_spec(), "godot/ui"@),
        ),
        post.has_dir(join(c.project_path_spec(), "godot/pipeline/aseprite/scripts"@))
            == pre.has_dir(join(c.project_path_spec(), "godot/pipeline/aseprite/scripts"@)),
        post.has_dir(join(c.project_path_spec(), "godot/pipeline/aseprite/src"@)) == pre.has_dir(
            join(c.project_path_spec(), "godot/pipeline/aseprite/src"@),
        ),
        post.has_dir(join(c.project_path_spec(), "godot/pipeline/aseprite/wizard"@))
            == pre.has_dir(join(c.project_path_spec(), "godot/pipeline/aseprite/wizard"@)),
        post.has_dir(join(c.project_path_spec(), "godot/pipeline/ldtk"@)) == pre.has_dir(
            join(c.project_path_spec(), "godot/pipeline/ldtk"@),
        ),
        post.has_dir(join(c.project_path_spec(), "godot/addons/AsepriteWizard"@)) == pre.has_dir(
            join(c.project_path_spec(), "godot/addons/AsepriteWizard"@),
        ),
        post.has_dir(join(c.project_path_spec(), "godot/addons/ldtk-importer"@)) == pre.has_dir(
            join(c.project_path_spec(), "godot/addons/ldtk-importer"@),
        ),
{
    let pp = c.project_path_spec();
    if pre.exists_node(pp) {
        assert(r is Err);
    }
    if !(dirs_fresh(c, pre) && all_clear(c, pre)) {
        assert(r is Err);
    }
    lemma_dir_layout(pp);
    lemma_proto_vs_basic(pp);
}

/// Law: whenever creation fails with an I/O error, nothing is left at or
/// below the project path (full rollback), nothing outside it changed,
/// and the error names a needed path that was refused or already
/// occupied.
pub proof fn lemma_failure_rolls_back(
    c: ProjectConfig,
    pre: Fs,
    post: Fs,
    r: Result<(), CreateError>,
)
    requires
        scaffold_post(c, pre, post, r),
        r is Err,
        r->Err_0 is Io,
    ensures
        rolled_back(c, pre, post),
        !post.exists_node(c.project_path_spec()),
        is_created_dir(c, r->Err_0->Io_0@) || is_created_file(c, r->Err_0->Io_0@),
        pre.is_denied(r->Err_0->Io_0@) || pre.exists_node(r->Err_0->Io_0@),
{
    let pp = c.project_path_spec();
    if pre.exists_node(pp) {
        assert(r->Err_0 is ProjectAlreadyExists);
    }
    if dirs_fresh(c, pre) && all_clear(c, pre) {
        assert(r is Ok);
    }
    assert(under(pp, pp));
}

} // verus!
