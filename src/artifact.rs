//! Result files of a run: where each one goes locally, and which ones a glob
//! selects.

use vstd::prelude::*;
use crate::errors::ArtifactError;
use crate::glob::{glob_compiles, glob_matches, GlobFilter};
use crate::text::{chars_of, drop_chars, has_prefix, joined, last_index_of, take_chars};

verus! {

/// One result file (or directory marker) produced by a run.
#[derive(Debug, Clone, PartialEq, Eq)]
pub struct Artifact {
    /// Server-assigned, path-like; generally `<run_id>/<relative/path>`.
    pub id: String,
    pub name: String,
    pub is_file: bool,
}

/// The prefix `<run_id>/` that artifact identifiers of a run start with.
pub open spec fn run_prefix(run_id: Seq<char>) -> Seq<char> {
    run_id.push('/')
}

/// `id` without the literal `prefix`, where it starts with it.
pub open spec fn strip_literal(id: Seq<char>, prefix: Seq<char>) -> Seq<char> {
    if prefix.is_prefix_of(id) {
        id.skip(prefix.len() as int)
    } else {
        id
    }
}

/// The path of an artifact relative to its run: `id` without `<run_id>/`
/// where it starts with that, else without one leading `/` where it starts
/// with that, else `id` itself.
pub open spec fn relative_path_of(id: Seq<char>, run_id: Seq<char>) -> Seq<char> {
    if run_prefix(run_id).is_prefix_of(id) {
        id.skip(run_id.len() as int + 1)
    } else if id.len() > 0 && id[0] == '/' {
        id.skip(1)
    } else {
        id
    }
}

/// `rel` placed under the directory `root`, with exactly one separator
/// added between them where `root` does not already end with one.
pub open spec fn joined_path(root: Seq<char>, rel: Seq<char>) -> Seq<char> {
    if root.len() == 0 {
        rel
    } else if root.last() == '/' {
        root + rel
    } else {
        root.push('/') + rel
    }
}

/// The index of the last `/` in `s`, or -1 where there is none.
pub open spec fn last_separator(s: Seq<char>) -> int
    decreases s.len(),
{
    if s.len() == 0 {
        -1
    } else if s.last() == '/' {
        s.len() - 1
    } else {
        last_separator(s.drop_last())
    }
}

/// The directory that holds `path`: everything before its last `/` (the
/// root `/` itself where that is the first character), or `None` where
/// `path` has no `/`.
pub open spec fn parent_of(path: Seq<char>) -> Option<Seq<char>> {
    let i = last_separator(path);
    if i < 0 {
        None
    } else if i == 0 {
        Some(seq!['/'])
    } else {
        Some(path.take(i))
    }
}

/// Where a downloaded artifact is written, and the directory that must exist
/// first.
#[derive(Debug, Clone, PartialEq, Eq)]
pub struct DownloadTarget {
    pub file: String,
    pub directory: Option<String>,
}

/// Whether a glob keeps an artifact: it matches the identifier with the
/// literal `prefix` stripped.
pub open spec fn selected(a: Artifact, pattern: Seq<char>, prefix: Seq<char>) -> bool {
    glob_matches(pattern, strip_literal(a.id@, prefix))
}

/// The artifacts that `pattern` keeps, in their original order.
pub open spec fn kept(artifacts: Seq<Artifact>, pattern: Seq<char>, prefix: Seq<char>) -> Seq<
    Artifact,
> {
    artifacts.filter(|a: Artifact| selected(a, pattern, prefix))
}

/// An identifier `<run_id>/<rest>` has the relative path `<rest>` exactly;
/// an identifier `/<rest>` that does not start with `<run_id>/` has the
/// relative path `<rest>`.
pub proof fn lemma_relative_path_law(run_id: Seq<char>, rest: Seq<char>)
    ensures
        relative_path_of(run_prefix(run_id) + rest, run_id) == rest,
        !run_prefix(run_id).is_prefix_of(seq!['/'] + rest) ==> relative_path_of(
            seq!['/'] + rest,
            run_id,
        ) == rest,
{
    let id = run_prefix(run_id) + rest;
    assert(run_prefix(run_id) =~= id.subrange(0, run_prefix(run_id).len() as int));
    assert(id.skip(run_id.len() as int + 1) =~= rest);
    let other = seq!['/'] + rest;
    assert(other[0] == '/');
    assert(other.skip(1) =~= rest);
}

proof fn lemma_last_separator_unique(s: Seq<char>, i: int)
    requires
        0 <= i < s.len(),
        s[i] == '/',
        forall|j: int| i < j < s.len() ==> s[j] != '/',
    ensures
        last_separator(s) == i,
    decreases s.len(),
{
    if s.last() != '/' {
        assert(s.drop_last()[i] == '/');
        lemma_last_separator_unique(s.drop_last(), i);
    }
}

proof fn lemma_no_separator(s: Seq<char>)
    requires
        forall|j: int| 0 <= j < s.len() ==> s[j] != '/',
    ensures
        last_separator(s) == -1,
    decreases s.len(),
{
    if s.len() > 0 {
        lemma_no_separator(s.drop_last());
    }
}

/// `sub` is `whole` with some items left out and the rest in their
/// original order: `m[i]` is the position in `whole` of `sub[i]`, and the
/// positions increase.
pub open spec fn order_embedding(sub: Seq<Artifact>, whole: Seq<Artifact>, m: Seq<int>) -> bool {
    &&& m.len() == sub.len()
    &&& forall|i: int| 0 <= i < m.len() ==> 0 <= #[trigger] m[i] < whole.len() && sub[i] == whole[m[i]]
    &&& forall|i: int, j: int| 0 <= i < j < m.len() ==> #[trigger] m[i] < #[trigger] m[j]
}

proof fn kept_embedding(s: Seq<Artifact>, pattern: Seq<char>, prefix: Seq<char>) -> (m: Seq<int>)
    ensures
        order_embedding(kept(s, pattern, prefix), s, m),
    decreases s.len(),
{
    reveal(Seq::filter);
    if s.len() == 0 {
        Seq::empty()
    } else {
        let t = s.drop_last();
        let mt = kept_embedding(t, pattern, prefix);
        assert forall|i: int| 0 <= i < mt.len() implies s[mt[i]] == t[mt[i]] by {}
        if selected(s.last(), pattern, prefix) {
            let m = mt.push(s.len() - 1);
            assert forall|i: int| 0 <= i < m.len() implies 0 <= #[trigger] m[i] < s.len()
                && kept(s, pattern, prefix)[i] == s[m[i]] by {
                if i < mt.len() {
                    assert(m[i] == mt[i]);
                }
            }
            assert forall|i: int, j: int| 0 <= i < j < m.len() implies #[trigger] m[i]
                < #[trigger] m[j] by {
                if j < mt.len() {
                    assert(m[i] == mt[i] && m[j] == mt[j]);
                } else {
                    assert(m[i] == mt[i]);
                }
            }
            m
        } else {
            mt
        }
    }
}

/// Glob filtering keeps part of the artifacts in their original relative
/// order; every artifact kept matches the glob on its identifier with the
/// prefix stripped, and every artifact dropped does not.
pub proof fn lemma_filter_law(artifacts: Seq<Artifact>, pattern: Seq<char>, prefix: Seq<char>)
    ensures
        exists|m: Seq<int>| order_embedding(kept(artifacts, pattern, prefix), artifacts, m),
        forall|i: int|
            0 <= i < kept(artifacts, pattern, prefix).len() ==> selected(
                #[trigger] kept(artifacts, pattern, prefix)[i],
                pattern,
                prefix,
            ),
        forall|i: int|
            0 <= i < artifacts.len() ==> (kept(artifacts, pattern, prefix).contains(
                #[trigger] artifacts[i],
            ) <==> selected(artifacts[i], pattern, prefix)),
{
    broadcast use vstd::seq_lib::group_filter_ensures;

    let m = kept_embedding(artifacts, pattern, prefix);
    let k = kept(artifacts, pattern, prefix);
    assert forall|i: int| 0 <= i < artifacts.len() implies (k.contains(#[trigger] artifacts[i])
        <==> selected(artifacts[i], pattern, prefix)) by {
        if k.contains(artifacts[i]) {
            let j = choose|j: int| 0 <= j < k.len() && k[j] == artifacts[i];
            assert(selected(k[j], pattern, prefix));
        }
    }
}

/// The prefix `<run_id>/`.
pub fn run_prefix_of(run_id: &str) -> (r: String)
    ensures
        r@ == run_prefix(run_id@),
{
    proof {
        reveal_strlit("/");
    }
    let r = joined(run_id, "/");
    assert(r@ =~= run_prefix(run_id@));
    r
}

/// `id` without the literal `prefix`, where it starts with it.
pub fn strip_run_prefix(id: &str, prefix: &str) -> (r: String)
    ensures
        r@ == strip_literal(id@, prefix@),
{
    if has_prefix(id, prefix) {
        let n = prefix.unicode_len();
        drop_chars(id, n)
    } else {
        id.to_owned()
    }
}

/// The path of the artifact `id` relative to the run `run_id`.
pub fn relative_path(id: &str, run_id: &str) -> (r: String)
    ensures
        r@ == relative_path_of(id@, run_id@),
{
    let prefix = run_prefix_of(run_id);
    if has_prefix(id, prefix.as_str()) {
        let n = prefix.as_str().unicode_len();
        drop_chars(id, n)
    } else {
        let chars = chars_of(id);
        if chars.len() > 0 && chars[0] == '/' {
            drop_chars(id, 1)
        } else {
            id.to_owned()
        }
    }
}

/// `rel` placed under the directory `root`.
pub fn join_path(root: &str, rel: &str) -> (r: String)
    ensures
        r@ == joined_path(root@, rel@),
{
    proof {
        reveal_strlit("/");
    }
    let chars = chars_of(root);
    if chars.len() == 0 {
        rel.to_owned()
    } else if chars[chars.len() - 1] == '/' {
        joined(root, rel)
    } else {
        let r = joined(&joined(root, "/"), rel);
        assert(r@ =~= joined_path(root@, rel@));
        r
    }
}

/// The directory that holds `path`, if it names one.
pub fn parent_dir(path: &str) -> (r: Option<String>)
    ensures
        r is Some <==> parent_of(path@) is Some,
        r matches Some(d) ==> parent_of(path@) == Some(d@),
{
    proof {
        reveal_strlit("/");
    }
    match last_index_of(path, '/') {
        None => {
            proof {
                lemma_no_separator(path@);
            }
            None
        },
        Some(i) => {
            proof {
                lemma_last_separator_unique(path@, i as int);
            }
            if i == 0 {
                let r = "/".to_owned();
                assert(r@ =~= seq!['/']);
                Some(r)
            } else {
                Some(take_chars(path, i))
            }
        },
    }
}

/// Where the artifact `id` of run `run_id` is written under `output_root`:
/// its path relative to the run, joined to the root, and that file's
/// directory.
pub fn download_target(output_root: &str, id: &str, run_id: &str) -> (r: DownloadTarget)
    ensures
        r.file@ == joined_path(output_root@, relative_path_of(id@, run_id@)),
        r.directory is Some <==> parent_of(r.file@) is Some,
        r.directory matches Some(d) ==> parent_of(r.file@) == Some(d@),
{
    let rel = relative_path(id, run_id);
    let file = join_path(output_root, rel.as_str());
    let directory = parent_dir(file.as_str());
    DownloadTarget { file, directory }
}

/// Keeps the artifacts whose identifier, with the literal `prefix` stripped,
/// matches `glob`; without a glob, keeps all of them. Order is kept. A glob
/// that does not compile is an error.
pub fn filter_artifact_list(artifacts: Vec<Artifact>, glob: Option<String>, prefix: &str) -> (r:
    Result<Vec<Artifact>, ArtifactError>)
    ensures
        match glob {
            None => r == Ok::<Vec<Artifact>, ArtifactError>(artifacts),
            Some(g) => {
                &&& r is Err <==> !glob_compiles(g@)
                &&& r matches Err(e) ==> e matches ArtifactError::InvalidGlob { glob: eg, .. }
                    && eg@ == g@
                &&& r matches Ok(v) ==> v@ == kept(artifacts@, g@, prefix@)
            },
        },
{
    match glob {
        None => Ok(artifacts),
        Some(g) => {
            let filter = match GlobFilter::compile(g.as_str()) {
                Ok(f) => f,
                Err(e) => {
                    return Err(ArtifactError::InvalidGlob { glob: g, error: e.to_string() });
                },
            };
            let ghost all = artifacts@;
            let mut out: Vec<Artifact> = Vec::new();
            for a in it: artifacts.into_iter()
                invariant
                    filter@ == g@,
                    it.seq() == all,
                    out@ == kept(all.take(it.index() as int), g@, prefix@),
            {
                let key = strip_run_prefix(a.id.as_str(), prefix);
                let keep = filter.is_match(key.as_str());
                proof {
                    let i = it.index() as int;
                    assert(all.take(i + 1).drop_last() =~= all.take(i));
                    assert(all.take(i + 1).last() == a);
                    reveal(Seq::filter);
                }
                if keep {
                    out.push(a);
                }
            }
            proof {
                assert(all.take(all.len() as int) =~= all);
            }
            Ok(out)
        },
    }
}

} // verus!
