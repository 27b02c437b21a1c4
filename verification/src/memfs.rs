//! An in-memory filesystem model.
//!
//! The scaffolder's whole effect is a handful of directory creations and
//! file writes, so the library states and proves it against this model: a
//! value holding the set of directories, the file contents, and the set of
//! paths on which operations are refused (to model an unwritable target).
//! A front end replays a model produced by the library onto a real disk.

use vstd::prelude::*;

verus! {

use crate::CreateError;
use crate::paths::under;

/// The model: directories, files with contents, and refused paths.
/// Paths are plain strings; the model imposes no structure on them beyond
/// what its operations state.
pub struct Fs {
    dirs: Vec<String>,
    files: Vec<(String, String)>,
    denied: Vec<String>,
}

/// Whether some element of `v` reads as the path `p`.
spec fn names_has(v: Seq<String>, p: Seq<char>) -> bool
    decreases v.len(),
{
    if v.len() == 0 {
        false
    } else {
        v.last()@ == p || names_has(v.drop_last(), p)
    }
}

/// The content filed under `p` in `v`, taking the latest entry when a
/// path was written more than once.
spec fn entries_content(v: Seq<(String, String)>, p: Seq<char>) -> Option<Seq<char>>
    decreases v.len(),
{
    if v.len() == 0 {
        None
    } else if v.last().0@ == p {
        Some(v.last().1@)
    } else {
        entries_content(v.drop_last(), p)
    }
}

proof fn lemma_names_has_push(v: Seq<String>, s: String)
    ensures
        forall|p: Seq<char>| #[trigger]
            names_has(v.push(s), p) == (s@ == p || names_has(v, p)),
{
    assert(v.push(s).drop_last() =~= v);
    assert(v.push(s).last() == s);
}

proof fn lemma_entries_content_push(v: Seq<(String, String)>, e: (String, String))
    ensures
        forall|p: Seq<char>| #[trigger]
            entries_content(v.push(e), p) == (if e.0@ == p {
                Some(e.1@)
            } else {
                entries_content(v, p)
            }),
{
    assert(v.push(e).drop_last() =~= v);
    assert(v.push(e).last() == e);
}

proof fn lemma_names_has_step(v: Seq<String>, i: int)
    requires
        0 <= i < v.len(),
    ensures
        forall|p: Seq<char>| #[trigger]
            names_has(v.subrange(0, i + 1), p) == (v[i]@ == p || names_has(v.subrange(0, i), p)),
{
    assert(v.subrange(0, i + 1).drop_last() =~= v.subrange(0, i));
    assert(v.subrange(0, i + 1).last() == v[i]);
}

proof fn lemma_entries_content_step(v: Seq<(String, String)>, i: int)
    requires
        0 <= i < v.len(),
    ensures
        forall|p: Seq<char>| #[trigger]
            entries_content(v.subrange(0, i + 1), p) == (if v[i].0@ == p {
                Some(v[i].1@)
            } else {
                entries_content(v.subrange(0, i), p)
            }),
{
    assert(v.subrange(0, i + 1).drop_last() =~= v.subrange(0, i));
    assert(v.subrange(0, i + 1).last() == v[i]);
}

proof fn lemma_names_has_index(v: Seq<String>, i: int)
    requires
        0 <= i < v.len(),
    ensures
        names_has(v, v[i]@),
    decreases v.len(),
{
    if i == v.len() - 1 {
        assert(v.last() == v[i]);
    } else {
        lemma_names_has_index(v.drop_last(), i);
        assert(v.drop_last()[i] == v[i]);
    }
}

proof fn lemma_entries_content_index(v: Seq<(String, String)>, i: int)
    requires
        0 <= i < v.len(),
    ensures
        entries_content(v, v[i].0@) is Some,
    decreases v.len(),
{
    if i == v.len() - 1 {
        assert(v.last() == v[i]);
    } else {
        lemma_entries_content_index(v.drop_last(), i);
        assert(v.drop_last()[i] == v[i]);
    }
}

proof fn lemma_names_has_exists(v: Seq<String>, p: Seq<char>)
    requires
        names_has(v, p),
    ensures
        exists|i: int| 0 <= i < v.len() && v[i]@ == p,
    decreases v.len(),
{
    if v.last()@ == p {
        assert(v[v.len() - 1]@ == p);
    } else {
        lemma_names_has_exists(v.drop_last(), p);
        let i = choose|i: int| 0 <= i < v.drop_last().len() && v.drop_last()[i]@ == p;
        assert(v[i]@ == p);
    }
}

proof fn lemma_entries_content_exists(v: Seq<(String, String)>, p: Seq<char>)
    requires
        entries_content(v, p) is Some,
    ensures
        exists|i: int|
            0 <= i < v.len() && v[i].0@ == p && entries_content(v, p) == Some(v[i].1@),
    decreases v.len(),
{
    if v.last().0@ == p {
        assert(v[v.len() - 1].0@ == p && entries_content(v, p) == Some(v[v.len() - 1].1@));
    } else {
        lemma_entries_content_exists(v.drop_last(), p);
        let i = choose|i: int|
            0 <= i < v.drop_last().len() && v.drop_last()[i].0@ == p && entries_content(
                v.drop_last(),
                p,
            ) == Some(v.drop_last()[i].1@);
        assert(v[i].0@ == p && entries_content(v, p) == Some(v[i].1@));
    }
}

/// Linear scan for `p` among the strings of `v`.
fn names_contains(v: &Vec<String>, p: &String) -> (r: bool)
    ensures
        r == names_has(v@, p@),
{
    let mut i: usize = 0;
    let mut found = false;
    while i < v.len()
        invariant
            0 <= i <= v@.len(),
            found == names_has(v@.subrange(0, i as int), p@),
        decreases v@.len() - i,
    {
        proof {
            lemma_names_has_step(v@, i as int);
        }
        found = found || v[i] == *p;
        i = i + 1;
    }
    proof {
        assert(v@.subrange(0, v@.len() as int) =~= v@);
    }
    found
}

/// Linear scan for the latest content filed under `p` in `v`.
fn entries_lookup(v: &Vec<(String, String)>, p: &String) -> (r: Option<String>)
    ensures
        r is Some <==> entries_content(v@, p@) is Some,
        r is Some ==> Some(r->Some_0@) == entries_content(v@, p@),
{
    let mut i: usize = 0;
    let mut res: Option<String> = None;
    while i < v.len()
        invariant
            0 <= i <= v@.len(),
            res is Some <==> entries_content(v@.subrange(0, i as int), p@) is Some,
            res is Some ==> Some(res->Some_0@) == entries_content(v@.subrange(0, i as int), p@),
        decreases v@.len() - i,
    {
        proof {
            lemma_entries_content_step(v@, i as int);
        }
        if v[i].0 == *p {
            res = Some(v[i].1.clone());
        }
        i = i + 1;
    }
    proof {
        assert(v@.subrange(0, v@.len() as int) =~= v@);
    }
    res
}

/// Whether `p` equals `root` or lies strictly below it.
fn path_under(p: &String, root: &String) -> (r: bool)
    ensures
        r == under(p@, root@),
{
    if *p == *root {
        return true;
    }
    let plen = p.as_str().unicode_len();
    let rlen = root.as_str().unicode_len();
    if plen <= rlen {
        return false;
    }
    if p.as_str().get_char(rlen) != '/' {
        return false;
    }
    let mut i: usize = 0;
    while i < rlen
        invariant
            0 <= i <= rlen,
            rlen == root@.len(),
            plen == p@.len(),
            plen > rlen,
            forall|j: int| 0 <= j < i ==> p@[j] == root@[j],
        decreases rlen - i,
    {
        if p.as_str().get_char(i) != root.as_str().get_char(i) {
            proof {
                if p@.subrange(0, root@.len() as int) == root@ {
                    assert(p@.subrange(0, root@.len() as int)[i as int] == p@[i as int]);
                }
            }
            return false;
        }
        i = i + 1;
    }
    proof {
        assert(p@.subrange(0, root@.len() as int) =~= root@);
    }
    true
}

impl Fs {
    /// What the model says stands at `p` as a directory.
    pub closed spec fn has_dir(self, p: Seq<char>) -> bool {
        names_has(self.dirs@, p)
    }

    /// The content of the file at `p`, if one was written.
    pub closed spec fn file_content(self, p: Seq<char>) -> Option<Seq<char>> {
        entries_content(self.files@, p)
    }

    /// Whether operations on `p` are refused (an unwritable path).
    pub closed spec fn is_denied(self, p: Seq<char>) -> bool {
        names_has(self.denied@, p)
    }

    /// Whether anything (directory or file) stands at `p`.
    pub open spec fn exists_node(self, p: Seq<char>) -> bool {
        self.has_dir(p) || self.file_content(p) is Some
    }

    /// An empty filesystem on which every operation succeeds.
    pub fn new() -> (fs: Fs)
        ensures
            forall|p: Seq<char>| !(#[trigger] fs.has_dir(p)),
            forall|p: Seq<char>| (#[trigger] fs.file_content(p)) is None,
            forall|p: Seq<char>| !(#[trigger] fs.is_denied(p)),
    {
        Fs { dirs: Vec::new(), files: Vec::new(), denied: Vec::new() }
    }

    /// Marks `path` as refused: later operations on it fail, which models
    /// an unwritable location.
    pub fn deny(&mut self, path: &String)
        ensures
            forall|p: Seq<char>| #[trigger]
                final(self).is_denied(p) == (old(self).is_denied(p) || p == path@),
            forall|p: Seq<char>| #[trigger] final(self).has_dir(p) == old(self).has_dir(p),
            forall|p: Seq<char>| #[trigger] final(self).file_content(p) == old(self).file_content(p),
    {
        let c = path.clone();
        proof {
            lemma_names_has_push(self.denied@, c);
        }
        self.denied.push(c);
    }

    /// Records a directory at `path`; fails if the path is refused or if
    /// anything already stands there, as directory creation on a real
    /// filesystem does.
    pub fn create_dir(&mut self, path: &String) -> (r: Result<(), CreateError>)
        ensures
            r is Ok <==> !old(self).is_denied(path@) && !old(self).exists_node(path@),
            r is Err ==> *final(self) == *old(self) && r->Err_0 is Io && r->Err_0->Io_0@ == path@,
            forall|p: Seq<char>| #[trigger] final(self).is_denied(p) == old(self).is_denied(p),
            forall|p: Seq<char>| #[trigger] final(self).file_content(p) == old(self).file_content(p),
            r is Ok ==> forall|p: Seq<char>| #[trigger]
                final(self).has_dir(p) == (old(self).has_dir(p) || p == path@),
            r is Err ==> forall|p: Seq<char>| #[trigger] final(self).has_dir(p) == old(self).has_dir(p),
    {
        if names_contains(&self.denied, path) {
            return Err(CreateError::Io(path.clone()));
        }
        if self.exists_at(path) {
            return Err(CreateError::Io(path.clone()));
        }
        let c = path.clone();
        proof {
            lemma_names_has_push(self.dirs@, c);
        }
        self.dirs.push(c);
        Ok(())
    }

    /// Files `content` under `path`, unless the path is refused.
    pub fn write_file(&mut self, path: &String, content: &str) -> (r: Result<(), CreateError>)
        ensures
            r is Ok <==> !old(self).is_denied(path@),
            r is Err ==> *final(self) == *old(self) && r->Err_0 is Io && r->Err_0->Io_0@ == path@,
            forall|p: Seq<char>| #[trigger] final(self).is_denied(p) == old(self).is_denied(p),
            forall|p: Seq<char>| #[trigger] final(self).has_dir(p) == old(self).has_dir(p),
            r is Ok ==> forall|p: Seq<char>| #[trigger]
                final(self).file_content(p) == (if p == path@ {
                    Some(content@)
                } else {
                    old(self).file_content(p)
                }),
            r is Err ==> forall|p: Seq<char>| #[trigger] final(self).file_content(p) == old(self).file_content(p),
    {
        if names_contains(&self.denied, path) {
            return Err(CreateError::Io(path.clone()));
        }
        let e = (path.clone(), content.to_owned());
        proof {
            lemma_entries_content_push(self.files@, e);
        }
        self.files.push(e);
        Ok(())
    }

    /// Removes every directory and file at `root` or below it; refused
    /// paths stay refused. Removal itself never fails.
    pub fn remove_subtree(&mut self, root: &String)
        ensures
            forall|p: Seq<char>| #[trigger]
                final(self).has_dir(p) == (old(self).has_dir(p) && !under(p, root@)),
            forall|p: Seq<char>| #[trigger]
                final(self).file_content(p) == (if under(p, root@) {
                    None::<Seq<char>>
                } else {
                    old(self).file_content(p)
                }),
            forall|p: Seq<char>| #[trigger] final(self).is_denied(p) == old(self).is_denied(p),
    {
        let mut kept_dirs: Vec<String> = Vec::new();
        let mut i: usize = 0;
        while i < self.dirs.len()
            invariant
                0 <= i <= self.dirs@.len(),
                forall|p: Seq<char>| #[trigger]
                    names_has(kept_dirs@, p) == (names_has(self.dirs@.subrange(0, i as int), p)
                        && !under(p, root@)),
            decreases self.dirs@.len() - i,
        {
            proof {
                lemma_names_has_step(self.dirs@, i as int);
            }
            if !path_under(&self.dirs[i], root) {
                let c = self.dirs[i].clone();
                proof {
                    lemma_names_has_push(kept_dirs@, c);
                }
                kept_dirs.push(c);
            }
            i = i + 1;
        }
        proof {
            assert(self.dirs@.subrange(0, self.dirs@.len() as int) =~= self.dirs@);
        }
        self.dirs = kept_dirs;

        let mut kept_files: Vec<(String, String)> = Vec::new();
        let mut k: usize = 0;
        while k < self.files.len()
            invariant
                0 <= k <= self.files@.len(),
                forall|p: Seq<char>| #[trigger]
                    entries_content(kept_files@, p) == (if under(p, root@) {
                        None::<Seq<char>>
                    } else {
                        entries_content(self.files@.subrange(0, k as int), p)
                    }),
            decreases self.files@.len() - k,
        {
            proof {
                lemma_entries_content_step(self.files@, k as int);
            }
            if !path_under(&self.files[k].0, root) {
                let e = (self.files[k].0.clone(), self.files[k].1.clone());
                proof {
                    lemma_entries_content_push(kept_files@, e);
                }
                kept_files.push(e);
            }
            k = k + 1;
        }
        proof {
            assert(self.files@.subrange(0, self.files@.len() as int) =~= self.files@);
        }
        self.files = kept_files;
    }

    /// Whether anything stands at `path`.
    pub fn exists_at(&self, path: &String) -> (r: bool)
        ensures
            r == self.exists_node(path@),
    {
        if names_contains(&self.dirs, path) {
            return true;
        }
        entries_lookup(&self.files, path).is_some()
    }

    /// Whether a directory stands at `path`.
    pub fn dir_exists(&self, path: &String) -> (r: bool)
        ensures
            r == self.has_dir(path@),
    {
        names_contains(&self.dirs, path)
    }

    /// The content filed under `path`, if any.
    pub fn read_file(&self, path: &String) -> (r: Option<String>)
        ensures
            r is Some <==> self.file_content(path@) is Some,
            r is Some ==> Some(r->Some_0@) == self.file_content(path@),
    {
        entries_lookup(&self.files, path)
    }

    /// Every directory the model holds, complete and in the order created,
    /// for replaying onto a real disk.
    pub fn dir_paths(&self) -> (r: &Vec<String>)
        ensures
            forall|i: int| 0 <= i < r@.len() ==> self.has_dir((#[trigger] r@[i])@),
            forall|p: Seq<char>| #[trigger]
                self.has_dir(p) ==> exists|i: int| 0 <= i < r@.len() && r@[i]@ == p,
    {
        proof {
            assert forall|i: int| 0 <= i < self.dirs@.len() implies names_has(
                self.dirs@,
                (#[trigger] self.dirs@[i])@,
            ) by {
                lemma_names_has_index(self.dirs@, i);
            }
            assert forall|p: Seq<char>| #[trigger] names_has(self.dirs@, p) implies exists|i: int|
                0 <= i < self.dirs@.len() && self.dirs@[i]@ == p by {
                lemma_names_has_exists(self.dirs@, p);
            }
        }
        &self.dirs
    }

    /// Every file entry the model holds, complete and in the order
    /// written, for replaying onto a real disk: every path with a content
    /// is listed with exactly that content, and replaying the entries in
    /// order reproduces the model (a later entry for the same path wins,
    /// as a later write does).
    pub fn file_entries(&self) -> (r: &Vec<(String, String)>)
        ensures
            forall|i: int| 0 <= i < r@.len() ==> self.file_content(
                (#[trigger] r@[i]).0@,
            ) is Some,
            forall|p: Seq<char>|
                (#[trigger] self.file_content(p)) is Some ==> exists|i: int|
                    0 <= i < r@.len() && r@[i].0@ == p && Some(r@[i].1@) == self.file_content(p),
    {
        proof {
            assert forall|i: int| 0 <= i < self.files@.len() implies entries_content(
                self.files@,
                (#[trigger] self.files@[i]).0@,
            ) is Some by {
                lemma_entries_content_index(self.files@, i);
            }
            assert forall|p: Seq<char>| (#[trigger] entries_content(self.files@, p)) is Some
                implies exists|i: int|
                0 <= i < self.files@.len() && self.files@[i].0@ == p && Some(self.files@[i].1@)
                    == entries_content(self.files@, p) by {
                lemma_entries_content_exists(self.files@, p);
            }
        }
        &self.files
    }
}

} // verus!
