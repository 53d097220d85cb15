//! Locating a runnable collector: ordered candidate paths, the preference
//! between an interpreted script and a standalone binary, and the
//! process-wide cache of earlier findings.

use vstd::prelude::*;
use vstd::string::StringExecFns;

verus! {

/// A runnable artifact: a script run by an interpreter, or a standalone binary.
#[derive(Clone, Debug)]
pub enum ResolvedExecutable {
    Interpreter { interpreter_path: String, script_path: String },
    StandaloneBinary { binary_path: String },
}

/// A path to probe. When `file_only` holds, only a plain file at the path
/// counts (the single-file legacy layout); otherwise any existing entry does.
#[derive(Clone, Debug)]
pub struct PathCandidate {
    pub path: String,
    pub file_only: bool,
}

/// No runnable artifact was found; `searched` lists every path that was probed.
#[derive(Clone, Debug)]
pub struct ResolutionError {
    pub searched: Vec<String>,
}

/// `i` is the position of the first `true` in `flags`.
pub open spec fn is_first_true(flags: Seq<bool>, i: int) -> bool {
    0 <= i < flags.len() && flags[i] && forall|j: int| 0 <= j < i ==> !flags[j]
}

/// Some entry of `flags` is `true`.
pub open spec fn has_true(flags: Seq<bool>) -> bool {
    exists|i: int| 0 <= i < flags.len() && flags[i]
}

/// The interpreter names probed, in preference order.
pub fn interpreter_candidates() -> (r: Vec<String>)
    ensures
        r@.len() == 2,
        r@[0]@ == "python3"@,
        r@[1]@ == "python"@,
{
    let mut v: Vec<String> = Vec::new();
    v.push(String::from_str("python3"));
    v.push(String::from_str("python"));
    v
}

/// The fixed project directory that the upward walks look under.
pub open spec fn project_dir() -> Seq<char> {
    "中国石油招标投标网"@
}

/// Script path under an ancestor of the working directory.
pub open spec fn spec_walk_script(a: Seq<char>) -> Seq<char> {
    a + "/"@ + project_dir() + "/spiders.py"@
}

/// Script paths under the first `n` ancestors, in order.
pub open spec fn script_walk_upto(anc: Seq<Seq<char>>, n: int) -> Seq<Seq<char>>
    decreases n,
{
    if n <= 0 {
        Seq::empty()
    } else {
        script_walk_upto(anc, n - 1).push(spec_walk_script(anc[n - 1]))
    }
}

/// How many ancestor levels the upward walks visit.
pub open spec fn walk_bound(len: nat) -> int {
    if len <= 5 {
        len as int
    } else {
        5
    }
}

/// The ordered script locations: the resource directory first, then up to five
/// ancestors of the working directory, each under the fixed project directory.
pub open spec fn spec_script_candidates(rd: Option<Seq<char>>, anc: Seq<Seq<char>>) -> Seq<
    Seq<char>,
> {
    let base: Seq<Seq<char>> = match rd {
        Some(d) => seq![d + "/spiders.py"@],
        None => Seq::empty(),
    };
    base + script_walk_upto(anc, walk_bound(anc.len()))
}

/// Builds the ordered script candidate paths from the resource directory and
/// the ancestors of the working directory (nearest first).
pub fn script_candidates(resource_dir: &Option<String>, cwd_ancestors: &Vec<String>) -> (r: Vec<
    String,
>)
    ensures
        r.deep_view() == spec_script_candidates(
            match resource_dir {
                Some(d) => Some(d@),
                None => None,
            },
            cwd_ancestors.deep_view(),
        ),
{
    let ghost spec_r = spec_script_candidates(
        match resource_dir {
            Some(d) => Some(d@),
            None => None,
        },
        cwd_ancestors.deep_view(),
    );
    let mut r: Vec<String> = Vec::new();
    if let Some(d) = resource_dir {
        let mut p = d.clone();
        p.append("/spiders.py");
        r.push(p);
    }
    let walk_len: usize = if cwd_ancestors.len() <= 5 {
        cwd_ancestors.len()
    } else {
        5
    };
    let ghost base_dv = r.deep_view();
    let ghost anc = cwd_ancestors.deep_view();
    let mut i: usize = 0;
    while i < walk_len
        invariant
            walk_len <= cwd_ancestors@.len(),
            anc == cwd_ancestors.deep_view(),
            i <= walk_len,
            r.deep_view() == base_dv + script_walk_upto(anc, i as int),
        decreases walk_len - i,
    {
        let ghost prev = r.deep_view();
        let mut p = cwd_ancestors[i].clone();
        p.append("/");
        p.append("中国石油招标投标网");
        p.append("/spiders.py");
        proof {
            assert(cwd_ancestors@[i as int]@ == anc[i as int]);
            assert(p@ =~= spec_walk_script(anc[i as int]));
        }
        r.push(p);
        proof {
            assert(r.deep_view() =~= prev.push(p@));
            assert(r.deep_view() =~= base_dv + script_walk_upto(anc, i + 1));
        }
        i += 1;
    }
    proof {
        assert(walk_len as int == walk_bound(anc.len()));
        assert(r.deep_view() =~= spec_r);
    }
    r
}

/// The directory-layout binary path under one ancestor.
pub open spec fn spec_walk_bin_dir(a: Seq<char>) -> Seq<char> {
    a + "/"@ + project_dir() + "/dist/spider_bin/spider_bin"@
}

/// The single-file legacy binary path under one ancestor.
pub open spec fn spec_walk_bin_file(a: Seq<char>) -> Seq<char> {
    a + "/"@ + project_dir() + "/dist/spider_bin"@
}

/// Binary locations under the first `n` ancestors: for each level the directory
/// layout first, then the single-file legacy layout.
pub open spec fn bin_walk_upto(anc: Seq<Seq<char>>, n: int) -> Seq<(Seq<char>, bool)>
    decreases n,
{
    if n <= 0 {
        Seq::empty()
    } else {
        bin_walk_upto(anc, n - 1) + seq![
            (spec_walk_bin_dir(anc[n - 1]), false),
            (spec_walk_bin_file(anc[n - 1]), true),
        ]
    }
}

/// Binary locations under the ancestors of one directory (nearest first, at
/// most five), each under the fixed project directory's `dist` output.
pub open spec fn spec_walk_bins(anc: Seq<Seq<char>>) -> Seq<(Seq<char>, bool)> {
    bin_walk_upto(anc, walk_bound(anc.len()))
}

/// The ordered binary locations: the resource directory's bundled layout, then
/// the working-directory walk, then the executable-directory walk.
pub open spec fn spec_bin_candidates(
    rd: Option<Seq<char>>,
    cwd_anc: Seq<Seq<char>>,
    exe_anc: Seq<Seq<char>>,
) -> Seq<(Seq<char>, bool)> {
    let base: Seq<(Seq<char>, bool)> = match rd {
        Some(d) => seq![
            (d + "/bin/spider_bin/spider_bin"@, false),
            (d + "/bin/spider_bin"@, true),
        ],
        None => Seq::empty(),
    };
    base + spec_walk_bins(cwd_anc) + spec_walk_bins(exe_anc)
}

/// The candidate list as pairs of path and file-only flag.
pub open spec fn candidates_view(r: Seq<PathCandidate>) -> Seq<(Seq<char>, bool)> {
    Seq::new(r.len(), |i: int| (r[i].path@, r[i].file_only))
}

fn push_walk_bins(r: &mut Vec<PathCandidate>, ancestors: &Vec<String>)
    ensures
        candidates_view(final(r)@) == candidates_view(old(r)@) + spec_walk_bins(
            ancestors.deep_view(),
        ),
{
    let walk_len: usize = if ancestors.len() <= 5 {
        ancestors.len()
    } else {
        5
    };
    let ghost base = candidates_view(r@);
    let ghost anc = ancestors.deep_view();
    let mut i: usize = 0;
    while i < walk_len
        invariant
            walk_len <= ancestors@.len(),
            anc == ancestors.deep_view(),
            i <= walk_len,
            candidates_view(r@) == base + bin_walk_upto(anc, i as int),
        decreases walk_len - i,
    {
        let ghost prev = candidates_view(r@);
        let mut p = ancestors[i].clone();
        p.append("/");
        p.append("中国石油招标投标网");
        p.append("/dist/spider_bin/spider_bin");
        proof {
            assert(ancestors@[i as int]@ == anc[i as int]);
            assert(p@ =~= spec_walk_bin_dir(anc[i as int]));
        }
        r.push(PathCandidate { path: p, file_only: false });
        let mut q = ancestors[i].clone();
        q.append("/");
        q.append("中国石油招标投标网");
        q.append("/dist/spider_bin");
        proof {
            assert(q@ =~= spec_walk_bin_file(anc[i as int]));
        }
        r.push(PathCandidate { path: q, file_only: true });
        proof {
            let dir_entry = (spec_walk_bin_dir(anc[i as int]), false);
            let file_entry = (spec_walk_bin_file(anc[i as int]), true);
            assert(candidates_view(r@) =~= prev.push(dir_entry).push(file_entry));
            assert(prev.push(dir_entry).push(file_entry) =~= prev + seq![dir_entry, file_entry]);
            assert(candidates_view(r@) =~= base + bin_walk_upto(anc, i + 1));
        }
        i += 1;
    }
    proof {
        assert(walk_len as int == walk_bound(anc.len()));
        assert(candidates_view(r@) =~= base + spec_walk_bins(anc));
    }
}

/// Builds the ordered binary candidate paths from the resource directory and
/// the ancestors of the working directory and of the executable's directory.
pub fn bin_candidates(
    resource_dir: &Option<String>,
    cwd_ancestors: &Vec<String>,
    exe_ancestors: &Vec<String>,
) -> (r: Vec<PathCandidate>)
    ensures
        candidates_view(r@) == spec_bin_candidates(
            match resource_dir {
                Some(d) => Some(d@),
                None => None,
            },
            cwd_ancestors.deep_view(),
            exe_ancestors.deep_view(),
        ),
{
    let ghost spec_r = spec_bin_candidates(
        match resource_dir {
            Some(d) => Some(d@),
            None => None,
        },
        cwd_ancestors.deep_view(),
        exe_ancestors.deep_view(),
    );
    let mut r: Vec<PathCandidate> = Vec::new();
    if let Some(d) = resource_dir {
        let mut p = d.clone();
        p.append("/bin/spider_bin/spider_bin");
        r.push(PathCandidate { path: p, file_only: false });
        let mut q = d.clone();
        q.append("/bin/spider_bin");
        r.push(PathCandidate { path: q, file_only: true });
    }
    push_walk_bins(&mut r, cwd_ancestors);
    push_walk_bins(&mut r, exe_ancestors);
    proof {
        assert(candidates_view(r@) =~= spec_r);
    }
    r
}

/// Decides what to run from the probe outcomes alone, preferring the first
/// responding interpreter with the first present script, then the first present
/// binary; with neither, reports every script and binary path searched.
pub fn resolve(
    interpreters: &Vec<String>,
    interpreter_ok: &Vec<bool>,
    scripts: &Vec<String>,
    script_exists: &Vec<bool>,
    binaries: &Vec<PathCandidate>,
    binary_exists: &Vec<bool>,
) -> (r: Result<ResolvedExecutable, ResolutionError>)
    requires
        interpreters@.len() == interpreter_ok@.len(),
        scripts@.len() == script_exists@.len(),
        binaries@.len() == binary_exists@.len(),
    ensures
        match r {
            Ok(ResolvedExecutable::Interpreter { interpreter_path, script_path }) => {
                &&& has_true(interpreter_ok@)
                &&& has_true(script_exists@)
                &&& exists|i: int|
                    #[trigger] is_first_true(interpreter_ok@, i) && interpreter_path
                        == interpreters@[i]
                &&& exists|j: int|
                    #[trigger] is_first_true(script_exists@, j) && script_path == scripts@[j]
            },
            Ok(ResolvedExecutable::StandaloneBinary { binary_path }) => {
                &&& !(has_true(interpreter_ok@) && has_true(script_exists@))
                &&& has_true(binary_exists@)
                &&& exists|k: int|
                    #[trigger] is_first_true(binary_exists@, k) && binary_path
                        == binaries@[k].path
            },
            Err(e) => {
                &&& !(has_true(interpreter_ok@) && has_true(script_exists@))
                &&& !has_true(binary_exists@)
                &&& e.searched@.len() == scripts@.len() + binaries@.len()
                &&& forall|j: int| 0 <= j < scripts@.len() ==> e.searched@[j] == scripts@[j]
                &&& forall|k: int|
                    0 <= k < binaries@.len() ==> e.searched@[scripts@.len() + k]
                        == binaries@[k].path
            },
        },
{
    let oi = crate::first_true(interpreter_ok);
    let oj = crate::first_true(script_exists);
    if let (Some(i), Some(j)) = (oi, oj) {
        proof {
            assert(is_first_true(interpreter_ok@, i as int));
            assert(is_first_true(script_exists@, j as int));
        }
        return Ok(
            ResolvedExecutable::Interpreter {
                interpreter_path: interpreters[i].clone(),
                script_path: scripts[j].clone(),
            },
        );
    }
    if let Some(k) = crate::first_true(binary_exists) {
        proof {
            assert(is_first_true(binary_exists@, k as int));
        }
        return Ok(ResolvedExecutable::StandaloneBinary { binary_path: binaries[k].path.clone() });
    }
    let mut searched: Vec<String> = Vec::new();
    let mut a: usize = 0;
    while a < scripts.len()
        invariant
            a <= scripts@.len(),
            searched@.len() == a,
            forall|j: int| 0 <= j < a ==> searched@[j] == scripts@[j],
        decreases scripts@.len() - a,
    {
        searched.push(scripts[a].clone());
        a += 1;
    }
    let mut b: usize = 0;
    while b < binaries.len()
        invariant
            b <= binaries@.len(),
            searched@.len() == scripts@.len() + b,
            forall|j: int| 0 <= j < scripts@.len() ==> searched@[j] == scripts@[j],
            forall|k: int|
                0 <= k < b ==> searched@[scripts@.len() + k] == binaries@[k].path,
        decreases binaries@.len() - b,
    {
        searched.push(binaries[b].path.clone());
        b += 1;
    }
    Err(ResolutionError { searched })
}

/// The searched paths, one per line, after a fixed heading.
pub open spec fn spec_path_list(paths: Seq<Seq<char>>) -> Seq<char>
    decreases paths.len(),
{
    if paths.len() == 0 {
        Seq::empty()
    } else {
        spec_path_list(paths.drop_last()) + "\n- "@ + paths.last()
    }
}

/// The diagnostic for a failed resolution.
pub open spec fn spec_resolution_message(searched: Seq<Seq<char>>) -> Seq<char> {
    "no runnable collector program found. searched paths:"@ + spec_path_list(searched)
}

impl ResolutionError {
    /// The diagnostic text: a fixed heading, then every searched path.
    pub fn message(&self) -> (r: String)
        ensures
            r@ == spec_resolution_message(self.searched.deep_view()),
    {
        let mut out = String::from_str("no runnable collector program found. searched paths:");
        let mut i: usize = 0;
        while i < self.searched.len()
            invariant
                i <= self.searched@.len(),
                out@ == "no runnable collector program found. searched paths:"@ + spec_path_list(
                    self.searched.deep_view().take(i as int),
                ),
            decreases self.searched@.len() - i,
        {
            out.append("\n- ");
            out.append(self.searched[i].as_str());
            proof {
                let dv = self.searched.deep_view();
                assert(dv.take(i + 1).drop_last() =~= dv.take(i as int));
                assert(dv.take(i + 1).last() == dv[i as int]);
                assert(out@ =~= "no runnable collector program found. searched paths:"@
                    + spec_path_list(dv.take(i + 1)));
            }
            i += 1;
        }
        proof {
            assert(self.searched.deep_view().take(self.searched@.len() as int)
                =~= self.searched.deep_view());
        }
        out
    }
}

/// The process-wide memory of earlier successful resolutions.
pub struct ResolverCache {
    pub interpreter: Option<String>,
    pub script: Option<String>,
    pub binary: Option<String>,
}

impl ResolverCache {
    /// An empty cache: nothing has been resolved yet.
    pub fn new() -> (r: ResolverCache)
        ensures
            r.interpreter is None,
            r.script is None,
            r.binary is None,
    {
        ResolverCache { interpreter: None, script: None, binary: None }
    }

    /// Remembers a successful interpreter probe; the other entries stay.
    pub fn store_interpreter(&mut self, p: String)
        ensures
            final(self).interpreter == Some(p),
            final(self).script == old(self).script,
            final(self).binary == old(self).binary,
    {
        self.interpreter = Some(p);
    }

    /// Remembers a located script; the other entries stay.
    pub fn store_script(&mut self, p: String)
        ensures
            final(self).script == Some(p),
            final(self).interpreter == old(self).interpreter,
            final(self).binary == old(self).binary,
    {
        self.script = Some(p);
    }

    /// Remembers a located binary; the other entries stay.
    pub fn store_binary(&mut self, p: String)
        ensures
            final(self).binary == Some(p),
            final(self).interpreter == old(self).interpreter,
            final(self).script == old(self).script,
    {
        self.binary = Some(p);
    }
}

/// A cached entry is reused exactly when the freshness probe still passes;
/// a stale or absent entry forces a new search.
pub fn cache_lookup(slot: &Option<String>, fresh: bool) -> (r: Option<String>)
    ensures
        r == if fresh {
            *slot
        } else {
            None::<String>
        },
{
    if fresh {
        match slot {
            Some(s) => Some(s.clone()),
            None => None,
        }
    } else {
        None
    }
}

} // verus!
