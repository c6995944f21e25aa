//! Path resolution for a static-file mount.
//!
//! [`resolve`] maps a request — its percent-decoded path segments and raw
//! path — plus the mount's [`Policy`] and the caller's two filesystem probes
//! to a [`ResolvedTarget`]: the file to serve, a redirect, or "not handled".
//! The resolver itself never touches the filesystem; the caller probes
//! whether the root is a file and whether the candidate path (from
//! [`candidate_path`]) is a directory, and passes the answers in.
//!
//! Segment sanitization is the security core: a `..` segment steps back at
//! most to the mount root, a segment beginning with `.` is rejected unless
//! dotfiles are allowed, and segments carrying a path separator or other
//! reserved characters reject the whole request. The public lemma
//! [`lemma_serve_file_within_root`] states the resulting guarantee: every
//! `ServeFile` target lies under the root, whatever the segments were.

use vstd::prelude::*;
use vstd::string::StrSliceExecFns;
use vstd::string::StringExecFns;

verus! {

/// The resolver policy flags of a mount.
#[derive(Clone, Copy)]
pub struct Policy {
    /// Serve path segments that begin with `.`; without it such a request is
    /// not handled.
    pub dot_files: bool,
    /// Resolve a directory to its `index.html`.
    pub index: bool,
    /// `root` is a single file, served for the empty path only.
    pub index_file: bool,
    /// Redirect a directory request without a trailing slash to the same
    /// path with one.
    pub normalize_dirs: bool,
    /// Skip the construction-time existence check on `root`.
    pub missing: bool,
}

/// A mount: the root path, the router rank (passed through opaquely), and
/// the resolver policy.
pub struct MountConfig {
    pub root: String,
    pub rank: isize,
    pub policy: Policy,
}

impl MountConfig {
    /// Replaces the rank; root and policy keep their values.
    pub fn rank(self, rank: isize) -> (r: MountConfig)
        ensures
            r.root@ == self.root@,
            r.rank == rank,
            r.policy == self.policy,
    {
        let MountConfig { root, rank: _, policy } = self;
        MountConfig { root, rank, policy }
    }
}

/// What the resolver decided for one request.
pub enum ResolvedTarget {
    /// Ask the file primitive to open exactly this path.
    ServeFile(String),
    /// Permanently redirect to this path.
    Redirect(String),
    /// Let another route take the request.
    NotHandled,
}

/// The abstract value of a [`ResolvedTarget`].
pub enum SpecResolvedTarget {
    ServeFile(Seq<char>),
    Redirect(Seq<char>),
    NotHandled,
}

impl View for ResolvedTarget {
    type V = SpecResolvedTarget;

    open spec fn view(&self) -> SpecResolvedTarget {
        match self {
            ResolvedTarget::ServeFile(p) => SpecResolvedTarget::ServeFile(p@),
            ResolvedTarget::Redirect(p) => SpecResolvedTarget::Redirect(p@),
            ResolvedTarget::NotHandled => SpecResolvedTarget::NotHandled,
        }
    }
}

/// A fatal configuration error: a mount whose root cannot serve would fail
/// every request identically, so construction must not proceed.
#[derive(Clone, Copy, PartialEq, Eq, Structural, Debug)]
pub enum ConfigError {
    /// The root is expected to be a directory but is not.
    RootNotDirectory,
    /// The root does not exist.
    RootMissing,
}

/// The validation verdict owed for given root probes: with `missing` set
/// anything passes; otherwise a non-`index_file` mount needs a directory
/// root, and any mount needs an existing root.
pub open spec fn spec_validate_root(policy: Policy, root_is_dir: bool, root_exists: bool) -> Result<
    (),
    ConfigError,
> {
    if policy.missing {
        Ok(())
    } else if !policy.index_file && !root_is_dir {
        Err(ConfigError::RootNotDirectory)
    } else if !root_exists {
        Err(ConfigError::RootMissing)
    } else {
        Ok(())
    }
}

/// Decides whether a mount may be constructed, from the policy and the
/// caller's filesystem probes of the root path.
pub fn validate_root(policy: &Policy, root_is_dir: bool, root_exists: bool) -> (r: Result<
    (),
    ConfigError,
>)
    ensures
        r == spec_validate_root(*policy, root_is_dir, root_exists),
{
    if policy.missing {
        Ok(())
    } else if !policy.index_file && !root_is_dir {
        Err(ConfigError::RootNotDirectory)
    } else if !root_exists {
        Err(ConfigError::RootMissing)
    } else {
        Ok(())
    }
}

/// A segment that rejects the whole request: a dotfile start when dotfiles
/// are not allowed, a reserved leading or trailing character, or a path
/// separator anywhere in the segment.
pub open spec fn bad_segment(s: Seq<char>, allow_dotfiles: bool) -> bool {
    (!allow_dotfiles && s.len() > 0 && s[0] == '.') || (s.len() > 0 && s[0] == '*') || (s.len() > 0
        && (s.last() == ':' || s.last() == '>' || s.last() == '<')) || s.contains('/')
}

/// The sanitized relative path of a segment sequence: `..` steps back one
/// already-accepted segment (never past the root), a bad segment rejects the
/// whole sequence, an empty segment contributes nothing, and any other
/// segment is kept in order.
pub open spec fn spec_sanitize(segs: Seq<Seq<char>>, allow_dotfiles: bool) -> Option<
    Seq<Seq<char>>,
>
    decreases segs.len(),
{
    if segs.len() == 0 {
        Some(Seq::empty())
    } else {
        match spec_sanitize(segs.drop_last(), allow_dotfiles) {
            None => None,
            Some(acc) => {
                let s = segs.last();
                if s == ".."@ {
                    if acc.len() == 0 {
                        Some(acc)
                    } else {
                        Some(acc.drop_last())
                    }
                } else if bad_segment(s, allow_dotfiles) {
                    None
                } else if s.len() == 0 {
                    Some(acc)
                } else {
                    Some(acc.push(s))
                }
            },
        }
    }
}

/// The root joined with a relative path: one separator before each segment.
pub open spec fn spec_join_path(root: Seq<char>, rel: Seq<Seq<char>>) -> Seq<char>
    decreases rel.len(),
{
    if rel.len() == 0 {
        root
    } else {
        spec_join_path(root, rel.drop_last()) + "/"@ + rel.last()
    }
}

/// A relative-path segment that cannot ascend: non-empty, not `..`, and
/// without a separator.
pub open spec fn segment_ok(s: Seq<char>) -> bool {
    s.len() > 0 && s != ".."@ && !s.contains('/')
}

pub open spec fn segments_ok(rel: Seq<Seq<char>>) -> bool {
    forall|i: int| 0 <= i < rel.len() ==> segment_ok(#[trigger] rel[i])
}

/// `p` lies under `root`: it is `root` itself or `root` extended by
/// descending segments only.
pub open spec fn within_root(root: Seq<char>, p: Seq<char>) -> bool {
    exists|rel: Seq<Seq<char>>| segments_ok(rel) && p == spec_join_path(root, rel)
}

pub open spec fn spec_ends_with_slash(s: Seq<char>) -> bool {
    s.len() > 0 && s.last() == '/'
}

/// The resolver's decision, as a function of the request, the policy, and
/// the two filesystem probes.
pub open spec fn spec_resolve(
    policy: Policy,
    root: Seq<char>,
    segs: Seq<Seq<char>>,
    request_path: Seq<char>,
    root_is_file: bool,
    candidate_is_dir: bool,
) -> SpecResolvedTarget {
    if policy.index_file && root_is_file {
        if segs.len() == 0 {
            SpecResolvedTarget::ServeFile(root)
        } else {
            SpecResolvedTarget::NotHandled
        }
    } else {
        match spec_sanitize(segs, policy.dot_files) {
            None => SpecResolvedTarget::NotHandled,
            Some(rel) => {
                if candidate_is_dir {
                    if policy.normalize_dirs && !spec_ends_with_slash(request_path) {
                        SpecResolvedTarget::Redirect(request_path + "/"@)
                    } else if !policy.index {
                        SpecResolvedTarget::NotHandled
                    } else {
                        SpecResolvedTarget::ServeFile(
                            spec_join_path(root, rel.push("index.html"@)),
                        )
                    }
                } else {
                    SpecResolvedTarget::ServeFile(spec_join_path(root, rel))
                }
            },
        }
    }
}

/// Whether `c` occurs in `s`.
fn contains_char(s: &str, c: char) -> (r: bool)
    ensures
        r == s@.contains(c),
{
    let len = s.unicode_len();
    let mut i: usize = 0;
    while i < len
        invariant
            i <= len,
            len == s@.len(),
            forall|j: int| 0 <= j < i ==> s@[j] != c,
        decreases len - i,
    {
        if s.get_char(i) == c {
            proof {
                assert(s@[i as int] == c);
            }
            return true;
        }
        i += 1;
    }
    false
}

/// Whether `s` is the traversal segment `..`.
fn is_dot_dot(s: &str) -> (r: bool)
    ensures
        r == (s@ == ".."@),
{
    proof {
        reveal_strlit("..");
    }
    let len = s.unicode_len();
    if len != 2 {
        return false;
    }
    let r = s.get_char(0) == '.' && s.get_char(1) == '.';
    proof {
        if r {
            assert(s@ =~= ".."@);
        }
    }
    r
}

/// Whether `s` rejects the whole request, per [`bad_segment`].
fn is_bad_segment(s: &str, allow_dotfiles: bool) -> (r: bool)
    ensures
        r == bad_segment(s@, allow_dotfiles),
{
    let len = s.unicode_len();
    if len == 0 {
        return false;
    }
    let first = s.get_char(0);
    if !allow_dotfiles && first == '.' {
        return true;
    }
    if first == '*' {
        return true;
    }
    let last = s.get_char(len - 1);
    if last == ':' || last == '>' || last == '<' {
        return true;
    }
    contains_char(s, '/')
}

/// Once a prefix rejects, the whole sequence rejects: no later segment can
/// recover from a bad one.
proof fn lemma_sanitize_prefix_none(segs: Seq<Seq<char>>, allow_dotfiles: bool, i: int)
    requires
        0 <= i <= segs.len(),
        spec_sanitize(segs.take(i), allow_dotfiles) is None,
    ensures
        spec_sanitize(segs, allow_dotfiles) is None,
    decreases segs.len() - i,
{
    if i < segs.len() {
        assert(segs.take(i + 1).drop_last() =~= segs.take(i));
        assert(spec_sanitize(segs.take(i + 1), allow_dotfiles) is None);
        lemma_sanitize_prefix_none(segs, allow_dotfiles, i + 1);
    } else {
        assert(segs.take(i) =~= segs);
    }
}

/// Sanitizes the request's segments into a relative path under the root, or
/// rejects the request.
fn sanitize_segments(segments: &Vec<String>, allow_dotfiles: bool) -> (r: Option<Vec<String>>)
    ensures
        r is Some <==> spec_sanitize(segments.deep_view(), allow_dotfiles) is Some,
        r matches Some(rel) ==> spec_sanitize(segments.deep_view(), allow_dotfiles) == Some(
            rel.deep_view(),
        ),
{
    let ghost segs = segments.deep_view();
    let mut out: Vec<String> = Vec::new();
    proof {
        assert(segs.take(0) =~= Seq::<Seq<char>>::empty());
        assert(out.deep_view() =~= Seq::<Seq<char>>::empty());
    }
    for i in 0..segments.len()
        invariant
            segs == segments.deep_view(),
            segs.len() == segments.len(),
            spec_sanitize(segs.take(i as int), allow_dotfiles) == Some(out.deep_view()),
    {
        proof {
            assert(segs.take(i + 1).drop_last() =~= segs.take(i as int));
            assert(segs.take(i + 1).last() == segs[i as int]);
            assert(segs[i as int] == segments[i as int]@);
        }
        let s = &segments[i];
        if is_dot_dot(s.as_str()) {
            if out.len() > 0 {
                let ghost before = out.deep_view();
                out.pop();
                proof {
                    assert(out.deep_view() =~= before.drop_last());
                }
            }
        } else if is_bad_segment(s.as_str(), allow_dotfiles) {
            proof {
                assert(spec_sanitize(segs.take(i + 1), allow_dotfiles) is None);
                lemma_sanitize_prefix_none(segs, allow_dotfiles, i + 1);
            }
            return None;
        } else if s.as_str().is_empty() {
        } else {
            let ghost before = out.deep_view();
            out.push(s.clone());
            proof {
                assert(out.deep_view() =~= before.push(s@));
            }
        }
    }
    proof {
        assert(segs.take(segs.len() as int) =~= segs);
    }
    Some(out)
}

/// Joins the sanitized relative path onto the root.
fn join_path(root: &str, rel: &Vec<String>) -> (r: String)
    ensures
        r@ == spec_join_path(root@, rel.deep_view()),
{
    let ghost rel_dv = rel.deep_view();
    let mut p = String::from_str(root);
    proof {
        assert(rel_dv.take(0) =~= Seq::<Seq<char>>::empty());
    }
    for i in 0..rel.len()
        invariant
            rel_dv == rel.deep_view(),
            rel_dv.len() == rel.len(),
            p@ == spec_join_path(root@, rel_dv.take(i as int)),
    {
        p.append("/");
        p.append(rel[i].as_str());
        proof {
            assert(rel_dv.take(i + 1).drop_last() =~= rel_dv.take(i as int));
            assert(rel_dv.take(i + 1).last() == rel_dv[i as int]);
            assert(rel_dv[i as int] == rel[i as int]@);
        }
    }
    proof {
        assert(rel_dv.take(rel_dv.len() as int) =~= rel_dv);
    }
    p
}

/// Whether the raw request path already ends in a separator.
fn ends_with_slash(s: &str) -> (r: bool)
    ensures
        r == spec_ends_with_slash(s@),
{
    let len = s.unicode_len();
    if len == 0 {
        false
    } else {
        s.get_char(len - 1) == '/'
    }
}

/// The candidate filesystem path of a request: the root joined with the
/// sanitized segments, or nothing when a segment rejects the request. The
/// caller probes this path (is it a directory?) before calling [`resolve`].
pub fn candidate_path(config: &MountConfig, segments: &Vec<String>) -> (r: Option<String>)
    ensures
        r is Some <==> spec_sanitize(segments.deep_view(), config.policy.dot_files) is Some,
        r matches Some(p) ==> p@ == spec_join_path(
            config.root@,
            spec_sanitize(segments.deep_view(), config.policy.dot_files)->Some_0,
        ),
{
    match sanitize_segments(segments, config.policy.dot_files) {
        None => None,
        Some(rel) => Some(join_path(config.root.as_str(), &rel)),
    }
}

/// Resolves one request. `root_is_file` and `candidate_is_dir` are the
/// caller's filesystem probes of the root and of [`candidate_path`];
/// `request_path` is the raw request path, used only for the trailing-slash
/// redirect. Existence of the returned `ServeFile` path is not checked here:
/// the file primitive discovers a missing file when it opens the path.
pub fn resolve(
    config: &MountConfig,
    segments: &Vec<String>,
    request_path: &str,
    root_is_file: bool,
    candidate_is_dir: bool,
) -> (r: ResolvedTarget)
    ensures
        r@ == spec_resolve(
            config.policy,
            config.root@,
            segments.deep_view(),
            request_path@,
            root_is_file,
            candidate_is_dir,
        ),
{
    if config.policy.index_file && root_is_file {
        if segments.len() == 0 {
            proof {
                assert(segments.deep_view().len() == 0);
            }
            return ResolvedTarget::ServeFile(config.root.clone());
        }
        proof {
            assert(segments.deep_view().len() != 0);
        }
        return ResolvedTarget::NotHandled;
    }
    match sanitize_segments(segments, config.policy.dot_files) {
        None => ResolvedTarget::NotHandled,
        Some(rel) => {
            if candidate_is_dir {
                if config.policy.normalize_dirs && !ends_with_slash(request_path) {
                    let mut target = String::from_str(request_path);
                    target.append("/");
                    ResolvedTarget::Redirect(target)
                } else if !config.policy.index {
                    ResolvedTarget::NotHandled
                } else {
                    let mut p = join_path(config.root.as_str(), &rel);
                    p.append("/");
                    p.append("index.html");
                    proof {
                        let ghost rel_dv = rel.deep_view();
                        assert(rel_dv.push("index.html"@).drop_last() =~= rel_dv);
                        assert(rel_dv.push("index.html"@).last() == "index.html"@);
                    }
                    ResolvedTarget::ServeFile(p)
                }
            } else {
                ResolvedTarget::ServeFile(join_path(config.root.as_str(), &rel))
            }
        },
    }
}

/// Sanitization only lets descending segments through: never `..`, never a
/// separator, never an empty segment.
pub proof fn lemma_sanitize_segments_ok(segs: Seq<Seq<char>>, allow_dotfiles: bool)
    ensures
        spec_sanitize(segs, allow_dotfiles) matches Some(rel) ==> segments_ok(rel),
    decreases segs.len(),
{
    if segs.len() > 0 {
        lemma_sanitize_segments_ok(segs.drop_last(), allow_dotfiles);
        if spec_sanitize(segs, allow_dotfiles) is Some {
            let acc = spec_sanitize(segs.drop_last(), allow_dotfiles)->Some_0;
            let s = segs.last();
            if s == ".."@ {
                if acc.len() > 0 {
                    assert(forall|i: int|
                        0 <= i < acc.drop_last().len() ==> acc.drop_last()[i] == acc[i]);
                }
            } else if bad_segment(s, allow_dotfiles) {
            } else if s.len() == 0 {
            } else {
                assert(segment_ok(s));
                assert(forall|i: int| 0 <= i < acc.len() ==> acc.push(s)[i] == acc[i]);
                assert(acc.push(s).last() == s);
            }
        }
    }
}

/// A request can never be resolved to a file outside the mount root: any
/// `ServeFile` target is the root itself, or the root extended by sanitized
/// segments, none of which is `..`, empty, or carries a separator — whatever
/// segment sequence the request held.
pub proof fn lemma_serve_file_within_root(
    policy: Policy,
    root: Seq<char>,
    segs: Seq<Seq<char>>,
    request_path: Seq<char>,
    root_is_file: bool,
    candidate_is_dir: bool,
)
    ensures
        spec_resolve(policy, root, segs, request_path, root_is_file, candidate_is_dir) matches SpecResolvedTarget::ServeFile(
            p,
        ) ==> within_root(root, p),
{
    let r = spec_resolve(policy, root, segs, request_path, root_is_file, candidate_is_dir);
    if r is ServeFile {
        let p = r->ServeFile_0;
        if policy.index_file && root_is_file {
            let witness = Seq::<Seq<char>>::empty();
            assert(segments_ok(witness));
            assert(p == spec_join_path(root, witness));
        } else {
            lemma_sanitize_segments_ok(segs, policy.dot_files);
            let rel = spec_sanitize(segs, policy.dot_files)->Some_0;
            if candidate_is_dir {
                lemma_index_html_segment_ok();
                let witness = rel.push("index.html"@);
                assert(forall|i: int| 0 <= i < rel.len() ==> witness[i] == rel[i]);
                assert(witness.last() == "index.html"@);
                assert(segments_ok(witness));
                assert(p == spec_join_path(root, witness));
            } else {
                assert(p == spec_join_path(root, rel));
            }
        }
    }
}

/// The directory-index file name is itself a descending segment.
proof fn lemma_index_html_segment_ok()
    ensures
        segment_ok("index.html"@),
{
    reveal_strlit("index.html");
    reveal_strlit("..");
    assert("index.html"@.len() == 10);
    assert(!"index.html"@.contains('/')) by {
        assert(forall|i: int| 0 <= i < 10 ==> "index.html"@[i] != '/');
    }
}

/// Under `normalize_dirs`, a directory request whose raw path lacks a
/// trailing slash is answered with a permanent redirect to the same path
/// plus exactly one slash — independent of the `index` policy.
pub proof fn lemma_normalize_dirs_redirect(
    policy: Policy,
    root: Seq<char>,
    segs: Seq<Seq<char>>,
    request_path: Seq<char>,
    root_is_file: bool,
    candidate_is_dir: bool,
)
    requires
        !(policy.index_file && root_is_file),
        spec_sanitize(segs, policy.dot_files) is Some,
        candidate_is_dir,
        policy.normalize_dirs,
        !spec_ends_with_slash(request_path),
    ensures
        spec_resolve(policy, root, segs, request_path, root_is_file, candidate_is_dir)
            == SpecResolvedTarget::Redirect(request_path + "/"@),
{
}

} // verus!
