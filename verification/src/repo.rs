//! Repositories: a discovered working copy, the parsed form of a
//! user-supplied repository source, and the standardised URL and filesystem
//! path a source maps to.

use vstd::prelude::*;
use vstd::string::StrSliceExecFns;
use vstd::string::StringExecFns;

verus! {

/// Where repositories live and how remote URLs are formed.
pub struct Config {
    pub host: String,
    pub root: String,
    pub user: String,
}

/// A local working copy: its short name and its filesystem path.
pub struct GitRepo {
    name: String,
    path: String,
}

impl GitRepo {
    pub closed spec fn spec_name(self) -> Seq<char> {
        self.name@
    }

    pub closed spec fn spec_path(self) -> Seq<char> {
        self.path@
    }

    pub fn new(name: String, path: String) -> (r: Self)
        ensures
            r.spec_name() == name@,
            r.spec_path() == path@,
    {
        Self { name, path }
    }

    pub fn name(&self) -> (r: &str)
        ensures
            r@ == self.spec_name(),
    {
        self.name.as_str()
    }

    pub fn path(&self) -> (r: &str)
        ensures
            r@ == self.spec_path(),
    {
        self.path.as_str()
    }

    /// The path with the root stripped: the remainder after `root` and its
    /// separator when `root` is a proper prefix on a separator boundary,
    /// the empty path when the path is the root itself, and the whole path
    /// otherwise.
    pub fn relative_path<'a>(&'a self, root: &str) -> (r: &'a str)
        ensures
            r@ == spec_relative(self.spec_path(), root@),
    {
        let path = self.path.as_str();
        let plen = path.unicode_len();
        let rlen = root.unicode_len();
        if is_str_prefix(path, root) {
            if plen == rlen {
                proof {
                    assert(path@.take(rlen as int) =~= path@);
                    assert(path@.subrange(plen as int, plen as int) =~= Seq::<char>::empty());
                }
                return path.substring_char(plen, plen);
            }
            if path.get_char(rlen) == '/' {
                proof {
                    assert(path@.subrange(rlen as int + 1, plen as int) =~= path@.skip(
                        rlen as int + 1,
                    ));
                }
                return path.substring_char(rlen + 1, plen);
            }
        }
        proof {
            if path@ == root@ {
                assert(path@.take(root@.len() as int) =~= path@);
            }
        }
        path
    }
}

impl Clone for GitRepo {
    fn clone(&self) -> (r: Self)
        ensures
            r.spec_name() == self.spec_name(),
            r.spec_path() == self.spec_path(),
    {
        GitRepo { name: self.name.clone(), path: self.path.clone() }
    }
}

/// What stripping the root from a path yields.
pub open spec fn spec_relative(path: Seq<char>, root: Seq<char>) -> Seq<char> {
    if path == root {
        Seq::empty()
    } else if path.len() > root.len() && path.take(root.len() as int) == root && path[root.len() as int]
        == '/' {
        path.skip(root.len() as int + 1)
    } else {
        path
    }
}

/// Whether `prefix` is a prefix of `s`, by characters.
pub fn is_str_prefix(s: &str, prefix: &str) -> (r: bool)
    ensures
        r == (prefix@.len() <= s@.len() && s@.take(prefix@.len() as int) == prefix@),
{
    let slen = s.unicode_len();
    let plen = prefix.unicode_len();
    if plen > slen {
        return false;
    }
    let mut i: usize = 0;
    while i < plen
        invariant
            i <= plen,
            plen <= slen,
            slen == s@.len(),
            plen == prefix@.len(),
            forall|j: int| 0 <= j < i ==> s@[j] == prefix@[j],
        decreases plen - i,
    {
        if s.get_char(i) != prefix.get_char(i) {
            assert(s@.take(plen as int)[i as int] != prefix@[i as int]);
            return false;
        }
        i += 1;
    }
    proof {
        assert(s@.take(plen as int) =~= prefix@);
    }
    true
}

/// A user-supplied repository source: a bare name, a `user/repo` style
/// path, or a full URL (kept verbatim, with its host and its relative
/// path extracted).
pub enum GitRepoSource {
    Name(String),
    Path(String),
    Url { url: String, host: String, path: String },
}

/// The remote URL a source maps to: bare names live under the configured
/// user at the configured host, short paths under the configured host, and
/// full URLs stand as given.
pub open spec fn spec_url_for(source: GitRepoSource, config: Config) -> Seq<char> {
    match source {
        GitRepoSource::Name(s) => "git@"@ + config.host@ + ":"@ + config.user@ + "/"@ + s@
            + ".git"@,
        GitRepoSource::Path(s) => "git@"@ + config.host@ + ":"@ + s@ + ".git"@,
        GitRepoSource::Url { url, .. } => url@,
    }
}

pub fn url_for(source: &GitRepoSource, config: &Config) -> (r: String)
    ensures
        r@ == spec_url_for(*source, *config),
{
    match source {
        GitRepoSource::Name(s) => {
            let mut url = "git@".to_owned();
            url.append(config.host.as_str());
            url.append(":");
            url.append(config.user.as_str());
            url.append("/");
            url.append(s.as_str());
            url.append(".git");
            url
        },
        GitRepoSource::Path(s) => {
            let mut url = "git@".to_owned();
            url.append(config.host.as_str());
            url.append(":");
            url.append(s.as_str());
            url.append(".git");
            url
        },
        GitRepoSource::Url { url, .. } => url.clone(),
    }
}

/// The standardised local path a source maps to, under the configured root.
pub open spec fn spec_path_for(source: GitRepoSource, config: Config) -> Seq<char> {
    match source {
        GitRepoSource::Name(s) => config.root@ + "/"@ + config.host@ + "/"@ + config.user@ + "/"@
            + s@,
        GitRepoSource::Path(s) => config.root@ + "/"@ + config.host@ + "/"@ + s@,
        GitRepoSource::Url { host, path, .. } => config.root@ + "/"@ + host@ + "/"@ + path@,
    }
}

pub fn path_for(source: &GitRepoSource, config: &Config) -> (r: String)
    ensures
        r@ == spec_path_for(*source, *config),
{
    let mut p = config.root.clone();
    p.append("/");
    match source {
        GitRepoSource::Name(s) => {
            p.append(config.host.as_str());
            p.append("/");
            p.append(config.user.as_str());
            p.append("/");
            p.append(s.as_str());
        },
        GitRepoSource::Path(s) => {
            p.append(config.host.as_str());
            p.append("/");
            p.append(s.as_str());
        },
        GitRepoSource::Url { host, path, .. } => {
            p.append(host.as_str());
            p.append("/");
            p.append(path.as_str());
        },
    }
    p
}


/// The pieces of a parsed URL that the source classification reads: the
/// scheme collapsed to "local file or not", the host when one is present,
/// and the path decoded as text.
pub struct UrlParts {
    pub is_file: bool,
    pub host: Option<String>,
    pub path: String,
    pub is_ssh: bool,
}

/// What the external URL parser yields for a given input text: nothing when
/// the input is rejected (or its path is not valid text), else whether the
/// scheme is the local-file one, the host, and the path. A function of the
/// input alone. The parts are: whether the scheme is the local-file one,
/// the host, the path, and whether the scheme is the secure-shell one.
pub uninterp spec fn url_parse_of(s: Seq<char>) -> Option<
    (bool, Option<Seq<char>>, Seq<char>, bool),
>;

/// Relies on gix_url::Url::try_from (and the scheme, host and path fields
/// of the parsed URL): the parse is a function of the input text alone.
#[verifier::external_body]
pub(crate) fn parse_git_url(s: &str) -> (r: Result<UrlParts, String>)
    ensures
        match url_parse_of(s@) {
            Some(t) => r matches Ok(p) && p.is_file == t.0 && p.path@ == t.2 && p.is_ssh == t.3
                && (match t.1 {
                Some(hh) => p.host matches Some(h) && h@ == hh,
                None => p.host is None,
            }),
            None => r is Err,
        },
{
    match gix_url::Url::try_from(s) {
        Err(e) => Err(e.to_string()),
        Ok(url) => {
            let is_file = matches!(url.scheme, gix_url::Scheme::File);
            let is_ssh = matches!(url.scheme, gix_url::Scheme::Ssh);
            let host = url.host().map(|h| h.to_string());
            match String::from_utf8(url.path.into()) {
                Ok(path) => Ok(UrlParts { is_file, host, path, is_ssh }),
                Err(e) => Err(e.to_string()),
            }
        },
    }
}

/// The path split at every separator, all fragments kept (a trailing
/// separator yields a final empty fragment).
pub open spec fn segs_from(s: Seq<char>, i: int, acc: Seq<Seq<char>>, cur: Seq<char>) -> Seq<
    Seq<char>,
>
    decreases s.len() - i,
{
    if i < 0 || i >= s.len() {
        acc.push(cur)
    } else if s[i] == '/' {
        segs_from(s, i + 1, acc.push(cur), Seq::empty())
    } else {
        segs_from(s, i + 1, acc, cur.push(s[i]))
    }
}

pub open spec fn spec_segs(s: Seq<char>) -> Seq<Seq<char>> {
    segs_from(s, 0, Seq::empty(), Seq::empty())
}

/// Normalise a relative path the way the platform's component iteration
/// does: empty fragments and non-leading `.` fragments vanish, a leading
/// `.` or any `..` makes the path invalid, the rest are joined again.
pub open spec fn norm_from(
    segs: Seq<Seq<char>>,
    i: int,
    acc: Seq<char>,
    started: bool,
) -> Option<Seq<char>>
    decreases segs.len() - i,
{
    if i < 0 || i >= segs.len() {
        Some(acc)
    } else if segs[i] == ".."@ || (i == 0 && segs[i] == "."@) {
        None
    } else if segs[i].len() == 0 || segs[i] == "."@ {
        norm_from(segs, i + 1, acc, started)
    } else if started {
        norm_from(segs, i + 1, acc + "/"@ + segs[i], true)
    } else {
        norm_from(segs, i + 1, segs[i], true)
    }
}

pub open spec fn spec_normalize(p: Seq<char>) -> Option<Seq<char>> {
    norm_from(spec_segs(p), 0, Seq::empty(), false)
}

/// Where the final fragment's extension starts (the last `.` that is not
/// the fragment's first character), or -1 when it has none.
pub open spec fn ext_cut(p: Seq<char>, i: int, seg_start: int, cut: int) -> int
    decreases p.len() - i,
{
    if i < 0 || i >= p.len() {
        cut
    } else if p[i] == '/' {
        ext_cut(p, i + 1, i + 1, -1)
    } else if p[i] == '.' && i > seg_start {
        ext_cut(p, i + 1, seg_start, i)
    } else {
        ext_cut(p, i + 1, seg_start, cut)
    }
}

/// The path with the final fragment's extension removed, as the platform's
/// extension replacement does.
pub open spec fn spec_strip_ext(p: Seq<char>) -> Seq<char> {
    let c = ext_cut(p, 0, 0, -1);
    if c >= 0 {
        p.take(c)
    } else {
        p
    }
}

/// A local-path source is taken as it stands: it must not be absolute, and
/// its components must survive normalisation.
pub open spec fn spec_file_source_ok(p: Seq<char>) -> bool {
    &&& !(p.len() > 0 && p[0] == '/')
    &&& spec_normalize(p) is Some
}



/// Whether the text holds a separator character.
fn contains_slash(s: &str) -> (r: bool)
    ensures
        r == s@.contains('/'),
{
    let len = s.unicode_len();
    let mut i: usize = 0;
    while i < len
        invariant
            i <= len,
            len == s@.len(),
            forall|j: int| 0 <= j < i ==> s@[j] != '/',
        decreases len - i,
    {
        if s.get_char(i) == '/' {
            assert(s@[i as int] == '/');
            return true;
        }
        i += 1;
    }
    false
}

/// Split the path at every separator, keeping all fragments.
fn split_slash(s: &str) -> (r: Vec<String>)
    ensures
        r@.len() == spec_segs(s@).len(),
        forall|k: int| 0 <= k < r@.len() ==> #[trigger] r@[k]@ == spec_segs(s@)[k],
{
    let mut segs: Vec<String> = Vec::new();
    let ghost mut acc: Seq<Seq<char>> = Seq::empty();
    let mut cur = String::new();
    let len = s.unicode_len();
    let mut i: usize = 0;
    while i < len
        invariant
            i <= len,
            len == s@.len(),
            spec_segs(s@) == segs_from(s@, i as int, acc, cur@),
            segs@.len() == acc.len(),
            forall|k: int| 0 <= k < acc.len() ==> #[trigger] segs@[k]@ == acc[k],
        decreases len - i,
    {
        let c = s.get_char(i);
        if c == '/' {
            segs.push(cur);
            proof {
                acc = acc.push(cur@);
            }
            cur = String::new();
        } else {
            cur.push(c);
        }
        i += 1;
    }
    segs.push(cur);
    segs
}

/// Whether two texts read the same.
fn str_eq(a: &str, b: &str) -> (r: bool)
    ensures
        r == (a@ == b@),
{
    let r = is_str_prefix(a, b) && is_str_prefix(b, a);
    proof {
        if a@.len() <= b@.len() && b@.len() <= a@.len() {
            assert(a@.take(a@.len() as int) =~= a@);
            assert(b@.take(b@.len() as int) =~= b@);
        }
    }
    r
}

/// Normalise a relative path: reject a leading `.` component or any `..`,
/// drop empty and non-leading `.` components, join the rest.
fn normalize_path(p: &str) -> (r: Option<String>)
    ensures
        match r {
            Some(x) => spec_normalize(p@) matches Some(y) && x@ == y,
            None => spec_normalize(p@) is None,
        },
{
    let segs = split_slash(p);
    let ghost ss = spec_segs(p@);
    let mut out = String::new();
    let mut started = false;
    let mut i: usize = 0;
    while i < segs.len()
        invariant
            i <= segs@.len(),
            segs@.len() == ss.len(),
            forall|k: int| 0 <= k < ss.len() ==> #[trigger] segs@[k]@ == ss[k],
            spec_normalize(p@) == norm_from(ss, i as int, out@, started),
        decreases segs@.len() - i,
    {
        let sg = &segs[i];
        if str_eq(sg.as_str(), "..") || (i == 0 && str_eq(sg.as_str(), ".")) {
            return None;
        }
        if !sg.as_str().is_empty() && !str_eq(sg.as_str(), ".") {
            if started {
                out.append("/");
                out.append(sg.as_str());
            } else {
                out = sg.clone();
                started = true;
            }
        }
        i += 1;
    }
    Some(out)
}

/// Remove the final fragment's extension, if it has one.
fn strip_ext(p: &str) -> (r: String)
    ensures
        r@ == spec_strip_ext(p@),
{
    let len = p.unicode_len();
    let mut i: usize = 0;
    let mut seg_start: usize = 0;
    let mut cut: usize = 0;
    let mut has_cut = false;
    while i < len
        invariant
            i <= len,
            len == p@.len(),
            seg_start <= len,
            has_cut ==> cut < len,
            ext_cut(p@, 0, 0, -1) == ext_cut(
                p@,
                i as int,
                seg_start as int,
                if has_cut {
                    cut as int
                } else {
                    -1
                },
            ),
        decreases len - i,
    {
        let c = p.get_char(i);
        if c == '/' {
            seg_start = i + 1;
            has_cut = false;
        } else if c == '.' && i > seg_start {
            cut = i;
            has_cut = true;
        }
        i += 1;
    }
    if has_cut {
        let r = p.substring_char(0, cut);
        proof {
            assert(p@.subrange(0, cut as int) =~= p@.take(cut as int));
        }
        r.to_owned()
    } else {
        p.to_owned()
    }
}

fn invalid_repo_msg(s: &str) -> (r: String)
    ensures
        r@ == "invalid repo: "@ + s@,
{
    let mut m = "invalid repo: ".to_owned();
    m.append(s);
    m
}

fn invalid_host_msg(s: &str) -> (r: String)
    ensures
        r@ == "invalid host for: "@ + s@,
{
    let mut m = "invalid host for: ".to_owned();
    m.append(s);
    m
}

impl GitRepoSource {
    /// Classify a user-supplied source text: a plain local name or path
    /// (when its components are plain and it is not absolute), or a URL
    /// kept verbatim with its host and its normalised, extension-stripped
    /// relative path; anything else is rejected, path problems with
    /// a message naming the text.
    pub fn parse(s: &str) -> (r: Result<GitRepoSource, String>)
        ensures
            match url_parse_of(s@) {
                None => r is Err,
                Some(t) => {
                    if t.0 {
                        if !spec_file_source_ok(t.2) {
                            r matches Err(m) && m@ == "invalid repo: "@ + s@
                        } else if s@.contains('/') {
                            r matches Ok(src) && src matches GitRepoSource::Path(p) && p@ == s@
                        } else {
                            r matches Ok(src) && src matches GitRepoSource::Name(n) && n@ == s@
                        }
                    } else {
                        match t.1 {
                            None => r matches Err(m) && m@ == "invalid host for: "@ + s@,
                            Some(hh) => match spec_normalize(spec_strip_ext(t.2)) {
                                None => r matches Err(m) && m@ == "invalid repo: "@ + s@,
                                Some(q) => r matches Ok(src) && (src matches GitRepoSource::Url {
                                    url,
                                    host,
                                    path,
                                } && url@ == s@ && host@ == hh && path@ == q),
                            },
                        }
                    }
                },
            },
    {
        match parse_git_url(s) {
            Err(e) => Err(e),
            Ok(parts) => {
                if parts.is_file {
                    let absolute = if parts.path.as_str().is_empty() {
                        false
                    } else {
                        parts.path.as_str().get_char(0) == '/'
                    };
                    if absolute || normalize_path(parts.path.as_str()).is_none() {
                        Err(invalid_repo_msg(s))
                    } else if contains_slash(s) {
                        Ok(GitRepoSource::Path(s.to_owned()))
                    } else {
                        Ok(GitRepoSource::Name(s.to_owned()))
                    }
                } else {
                    match parts.host {
                        None => Err(invalid_host_msg(s)),
                        Some(h) => {
                            let stripped = strip_ext(parts.path.as_str());
                            match normalize_path(stripped.as_str()) {
                                None => Err(invalid_repo_msg(s)),
                                Some(q) => Ok(
                                    GitRepoSource::Url { url: s.to_owned(), host: h, path: q },
                                ),
                            }
                        },
                    }
                }
            },
        }
    }
}

impl core::str::FromStr for GitRepoSource {
    type Err = String;

    fn from_str(s: &str) -> Result<Self, String> {
        GitRepoSource::parse(s)
    }
}

} // verus!
