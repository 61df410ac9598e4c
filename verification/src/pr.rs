//! Building the pull-request URL for the current branch: choosing the
//! target remote (an upstream fork target over the push origin), reading
//! its host and repository path, and forming the address to open.
//!
//! The remotes themselves are read from the repository by the caller and
//! handed in as plain values.

use vstd::prelude::*;
use vstd::string::StrSliceExecFns;
use vstd::string::StringExecFns;

verus! {

/// A remote's fetch URL, reduced to what the strategy reads: its host (when
/// it has one), its repository path, and whether it uses the secure-shell
/// scheme (whose path carries no leading separator).
pub struct RemoteUrl {
    pub host: Option<String>,
    pub path: String,
    pub is_ssh: bool,
}

/// A remote as found in the repository's configuration: present, but
/// possibly without a fetch URL.
pub struct Remote {
    pub url: Option<RemoteUrl>,
}

/// How the pull-request URL is formed: against the repository's own
/// origin, against an upstream it was forked from, or not at all (an
/// unrecognised host).
pub enum UrlStrategy {
    GithubOrigin { host: String, path: String },
    GithubUpstream { host: String, path: String, source: String },
    Unknown,
}

/// Why no pull-request URL could be formed.
#[derive(Debug)]
pub enum PrError {
    /// The checked-out head names no branch.
    DetachedHead,
    /// The upstream target is a fork target, but no origin remote exists
    /// to name the fork's owner.
    MissingOriginForFork,
    /// The target remote's URL names no host.
    MissingRemoteHost,
    /// The named remote has no fetch URL.
    MissingRemoteUrl(String),
    /// Neither an upstream nor an origin remote exists.
    MissingTargetRemote,
}

/// Whether the text ends in the version-control repository suffix.
pub open spec fn has_git_suffix(p: Seq<char>) -> bool {
    p.len() >= 4 && p.skip(p.len() as int - 4) == ".git"@
}

/// The text with the version-control repository suffix removed.
pub open spec fn spec_strip_git_suffix(p: Seq<char>) -> Seq<char> {
    if has_git_suffix(p) {
        p.take(p.len() as int - 4)
    } else {
        p
    }
}

/// Remove a trailing repository suffix from a remote path.
pub fn strip_git_suffix(p: &str) -> (r: String)
    ensures
        r@ == spec_strip_git_suffix(p@),
{
    let len = p.unicode_len();
    if len >= 4 && p.get_char(len - 4) == '.' && p.get_char(len - 3) == 'g' && p.get_char(len - 2)
        == 'i' && p.get_char(len - 1) == 't' {
        proof {
            reveal_strlit(".git");
            assert(p@.skip(len as int - 4) =~= ".git"@);
            assert(p@.subrange(0, len as int - 4) =~= p@.take(len as int - 4));
        }
        p.substring_char(0, len - 4).to_owned()
    } else {
        proof {
            reveal_strlit(".git");
            if has_git_suffix(p@) {
                assert(p@.skip(len as int - 4)[0] == '.');
                assert(p@.skip(len as int - 4)[1] == 'g');
                assert(p@.skip(len as int - 4)[2] == 'i');
                assert(p@.skip(len as int - 4)[3] == 't');
            }
        }
        p.to_owned()
    }
}

/// What normalising a remote path yields: the suffix-stripped path, with a
/// separator put back in front for the secure-shell form (whose host and
/// path are joined by a colon instead).
pub open spec fn spec_normalized_path(p: Seq<char>, is_ssh: bool) -> Seq<char> {
    if is_ssh {
        "/"@ + spec_strip_git_suffix(p)
    } else {
        spec_strip_git_suffix(p)
    }
}

/// Normalise a remote URL's path for use in a web address.
pub fn normalized_path(url: &RemoteUrl) -> (r: String)
    ensures
        r@ == spec_normalized_path(url.path@, url.is_ssh),
{
    let stripped = strip_git_suffix(url.path.as_str());
    if url.is_ssh {
        let mut out = "/".to_owned();
        out.append(stripped.as_str());
        out
    } else {
        stripped
    }
}

/// Where the first path fragment ends: at the first separator, or at the
/// end of the text.
pub open spec fn frag_end(s: Seq<char>, i: int) -> int
    decreases s.len() - i,
{
    if i < 0 || i >= s.len() {
        i
    } else if s[i] == '/' {
        i
    } else {
        frag_end(s, i + 1)
    }
}

/// The owner named by a remote path: its first fragment, once the
/// repository suffix is gone.
pub open spec fn spec_fork_source(p: Seq<char>) -> Seq<char> {
    let q = spec_strip_git_suffix(p);
    q.take(frag_end(q, 0))
}

/// The fork's owner, read from the origin remote's path.
pub fn fork_source(p: &str) -> (r: String)
    ensures
        r@ == spec_fork_source(p@),
{
    let q = strip_git_suffix(p);
    let s = q.as_str();
    let len = s.unicode_len();
    let mut out = String::new();
    let mut i: usize = 0;
    while i < len && s.get_char(i) != '/'
        invariant
            i <= len,
            len == s@.len(),
            out@ == s@.take(i as int),
            frag_end(s@, 0) == frag_end(s@, i as int),
        decreases len - i,
    {
        out.push(s.get_char(i));
        i += 1;
        proof {
            assert(out@ =~= s@.take(i as int));
        }
    }
    proof {
        assert(frag_end(s@, i as int) == i);
    }
    out
}

/// Which strategy a pair of remotes yields, as [`url_strategy`] decides it.
pub open spec fn spec_url_strategy(
    upstream: Option<Remote>,
    origin: Option<Remote>,
    r: Result<UrlStrategy, PrError>,
) -> bool {
    match upstream {
        Some(up) => match up.url {
            None => (r matches Err(PrError::MissingRemoteUrl(n)) && n@ == "upstream"@),
            Some(u) => match u.host {
            None => r matches Err(PrError::MissingRemoteHost),
            Some(h) => {
                if h@ != "github.com"@ {
                    r matches Ok(UrlStrategy::Unknown)
                } else {
                    match origin {
                        None => r matches Err(PrError::MissingOriginForFork),
                        Some(o) => match o.url {
                            None => (r matches Err(PrError::MissingRemoteUrl(n)) && n@
                                == "origin"@),
                            Some(ou) => (r matches Ok(UrlStrategy::GithubUpstream {
                                host,
                                path,
                                source,
                            }) && host@ == h@ && path@ == spec_normalized_path(u.path@, u.is_ssh)
                                && source@ == spec_fork_source(ou.path@)),
                        },
                    }
                }
            },
        },
        },
        None => match origin {
            None => r matches Err(PrError::MissingTargetRemote),
            Some(o) => match o.url {
                None => (r matches Err(PrError::MissingRemoteUrl(n)) && n@ == "origin"@),
                Some(ou) => match ou.host {
                    None => r matches Err(PrError::MissingRemoteHost),
                    Some(h) => {
                        if h@ != "github.com"@ {
                            r matches Ok(UrlStrategy::Unknown)
                        } else {
                            (r matches Ok(UrlStrategy::GithubOrigin { host, path }) && host@ == h@
                                && path@ == spec_normalized_path(ou.path@, ou.is_ssh))
                        }
                    },
                },
            },
        },
    }
}

/// Decide the strategy from the repository's remotes: an upstream remote's
/// URL is the preferred target (a fork), the origin's otherwise; only the
/// well-known host gets a usable strategy, and a fork target additionally
/// needs the origin's URL to name the fork's owner.
pub fn url_strategy(upstream: Option<Remote>, origin: Option<Remote>) -> (r: Result<
    UrlStrategy,
    PrError,
>)
    ensures
        spec_url_strategy(upstream, origin, r),
{
    match upstream {
        Some(up) => {
            let u = match up.url {
                None => {
                    return Err(PrError::MissingRemoteUrl("upstream".to_owned()));
                },
                Some(u) => u,
            };
            let host = match u.host {
                None => {
                    return Err(PrError::MissingRemoteHost);
                },
                Some(h) => h,
            };
            if !crate::repo::is_str_prefix(host.as_str(), "github.com") || host.as_str().unicode_len()
                != 10 {
                proof {
                    if host@ == "github.com"@ {
                        reveal_strlit("github.com");
                        assert(host@.take(10) =~= host@);
                    }
                }
                return Ok(UrlStrategy::Unknown);
            }
            proof {
                reveal_strlit("github.com");
                assert(host@.take(10) =~= host@);
            }
            match origin {
                None => Err(PrError::MissingOriginForFork),
                Some(o) => match o.url {
                    None => Err(PrError::MissingRemoteUrl("origin".to_owned())),
                    Some(ou) => {
                        let path = normalized_path(&RemoteUrl {
                            host: None,
                            path: u.path,
                            is_ssh: u.is_ssh,
                        });
                        Ok(
                            UrlStrategy::GithubUpstream {
                                host,
                                path,
                                source: fork_source(ou.path.as_str()),
                            },
                        )
                    },
                },
            }
        },
        None => match origin {
            None => Err(PrError::MissingTargetRemote),
            Some(o) => match o.url {
                None => Err(PrError::MissingRemoteUrl("origin".to_owned())),
                Some(ou) => {
                    let host = match ou.host {
                        None => {
                            return Err(PrError::MissingRemoteHost);
                        },
                        Some(h) => h,
                    };
                    if !crate::repo::is_str_prefix(host.as_str(), "github.com")
                        || host.as_str().unicode_len() != 10 {
                        proof {
                            if host@ == "github.com"@ {
                                reveal_strlit("github.com");
                                assert(host@.take(10) =~= host@);
                            }
                        }
                        return Ok(UrlStrategy::Unknown);
                    }
                    proof {
                        reveal_strlit("github.com");
                        assert(host@.take(10) =~= host@);
                    }
                    let path = normalized_path(&RemoteUrl {
                        host: None,
                        path: ou.path,
                        is_ssh: ou.is_ssh,
                    });
                    Ok(UrlStrategy::GithubOrigin { host, path })
                },
            },
        },
    }
}

/// What the pull-request address reads for a strategy, branch and optional
/// target branch.
pub open spec fn spec_pr_url(
    host: Seq<char>,
    path: Seq<char>,
    source: Option<Seq<char>>,
    branch: Seq<char>,
    target: Option<Seq<char>>,
) -> Seq<char> {
    let target_string = match target {
        Some(t) => t + "..."@,
        None => Seq::<char>::empty(),
    };
    let source_string = match source {
        Some(s) => s + ":"@,
        None => Seq::<char>::empty(),
    };
    "https://"@ + host + path + "/pull/"@ + target_string + source_string + branch
}

impl UrlStrategy {
    /// The pull-request address to open: the compare form against the
    /// branch (prefixed by the fork's owner for an upstream target), with
    /// an explicit target branch in front when one was asked for.
    pub fn to_url(&self, branch: &str, target: &Option<String>) -> (r: String)
        requires
            !(self is Unknown),
        ensures
            match *self {
                UrlStrategy::GithubOrigin { host, path } => r@ == spec_pr_url(
                    host@,
                    path@,
                    None,
                    branch@,
                    match *target {
                        Some(t) => Some(t@),
                        None => None,
                    },
                ),
                UrlStrategy::GithubUpstream { host, path, source } => r@ == spec_pr_url(
                    host@,
                    path@,
                    Some(source@),
                    branch@,
                    match *target {
                        Some(t) => Some(t@),
                        None => None,
                    },
                ),
                UrlStrategy::Unknown => false,
            },
    {
        let mut out = "https://".to_owned();
        match self {
            UrlStrategy::GithubOrigin { host, path } => {
                out.append(host.as_str());
                out.append(path.as_str());
                out.append("/pull/");
                if let Some(t) = target {
                    out.append(t.as_str());
                    out.append("...");
                }
                out.append(branch);
            },
            UrlStrategy::GithubUpstream { host, path, source } => {
                out.append(host.as_str());
                out.append(path.as_str());
                out.append("/pull/");
                if let Some(t) = target {
                    out.append(t.as_str());
                    out.append("...");
                }
                out.append(source.as_str());
                out.append(":");
                out.append(branch);
            },
            UrlStrategy::Unknown => {},
        }
        out
    }
}


/// Read a remote's fetch URL text into the pieces the strategy needs, by
/// the same external parse that classifies repository sources.
pub fn remote_url(s: &str) -> (r: Option<RemoteUrl>)
    ensures
        match crate::repo::url_parse_of(s@) {
            None => r is None,
            Some(t) => (r matches Some(u) && u.path@ == t.2 && u.is_ssh == t.3 && (match t.1 {
                Some(hh) => u.host matches Some(h) && h@ == hh,
                None => u.host is None,
            })),
        },
{
    match crate::repo::parse_git_url(s) {
        Err(_) => None,
        Ok(parts) => Some(
            RemoteUrl { host: parts.host, path: parts.path, is_ssh: parts.is_ssh },
        ),
    }
}

} // verus!
