//! Session names and sessions of the external terminal multiplexer, and the
//! exact command lines used to query and drive it.
//!
//! Nothing here spawns a process: functions either compute (name
//! sanitisation, output parsing) or return the argument list of the command
//! to run, and the caller performs the invocation.

use vstd::prelude::*;
use vstd::string::StrSliceExecFns;
use vstd::string::StringExecFns;

verus! {

/// The sanitised form of raw text used as a session name: the characters
/// the session manager treats as separators ('.' and ':') become '_'.
pub open spec fn spec_sanitize(s: Seq<char>) -> Seq<char> {
    s.map_values(
        |c: char|
            if c == '.' || c == ':' {
                '_'
            } else {
                c
            },
    )
}

/// The text holds no character the session manager treats as a separator.
pub open spec fn is_sanitized(s: Seq<char>) -> bool {
    forall|i: int| 0 <= i < s.len() ==> s[i] != '.' && s[i] != ':'
}

/// Sanitising always yields separator-free text.
pub proof fn lemma_sanitize_is_sanitized(s: Seq<char>)
    ensures
        is_sanitized(spec_sanitize(s)),
{
    assert forall|i: int|
        0 <= i < spec_sanitize(s).len() implies spec_sanitize(s)[i] != '.' && spec_sanitize(s)[i]
        != ':' by {
        assert(spec_sanitize(s)[i] == (if s[i] == '.' || s[i] == ':' {
            '_'
        } else {
            s[i]
        }));
    }
}

/// A session name, sanitised on construction so that it never holds a
/// character the session manager treats as a separator — an invariant of
/// the type, carried by every value.
pub struct SessionName(String);

impl SessionName {
    #[verifier::type_invariant]
    closed spec fn sanitized_inv(self) -> bool {
        is_sanitized(self.0@)
    }
}

impl View for SessionName {
    type V = Seq<char>;

    closed spec fn view(&self) -> Seq<char> {
        self.0@
    }
}

impl Clone for SessionName {
    fn clone(&self) -> (r: Self)
        ensures
            r@ == self@,
    {
        proof {
            use_type_invariant(&*self);
        }
        SessionName(self.0.clone())
    }
}

impl SessionName {
    /// Build a session name from raw text, replacing '.' and ':' with '_'.
    pub fn from(value: &str) -> (r: SessionName)
        ensures
            r@ == spec_sanitize(value@),
            is_sanitized(r@),
    {
        let mut out = String::new();
        let len = value.unicode_len();
        let mut i: usize = 0;
        while i < len
            invariant
                i <= len,
                len == value@.len(),
                out@ == spec_sanitize(value@.take(i as int)),
            decreases len - i,
        {
            let c = value.get_char(i);
            let m = if c == '.' || c == ':' {
                '_'
            } else {
                c
            };
            out.push(m);
            i += 1;
            proof {
                assert(out@ =~= spec_sanitize(value@.take(i as int)));
            }
        }
        proof {
            assert(value@.take(len as int) =~= value@);
            lemma_sanitize_is_sanitized(value@);
        }
        SessionName(out)
    }

    pub fn as_str(&self) -> (r: &str)
        ensures
            r@ == self@,
            is_sanitized(r@),
    {
        proof {
            use_type_invariant(&*self);
        }
        self.0.as_str()
    }

    /// Whether this name reads exactly as the given text.
    pub fn matches(&self, other: &String) -> (r: bool)
        ensures
            r == (self@ == other@),
    {
        self.0 == *other
    }
}

/// A session known to exist (or about to be created) under its name.
pub struct Session {
    name: SessionName,
}

impl View for Session {
    type V = Seq<char>;

    closed spec fn view(&self) -> Seq<char> {
        self.name@
    }
}

impl Clone for Session {
    fn clone(&self) -> (r: Self)
        ensures
            r@ == self@,
    {
        Session { name: self.name.clone() }
    }
}

impl Session {
    /// The session's name: always separator-free, for the whole lifetime
    /// of the value, since every session name is sanitised on construction.
    pub fn name_str(&self) -> (r: &str)
        ensures
            r@ == self@,
            is_sanitized(r@),
    {
        self.name.as_str()
    }

    /// The command that attaches to or switches to this session, depending
    /// on whether the caller already runs inside the session manager.
    pub fn attach_or_switch(&self, inside: bool) -> (cmd: Vec<String>)
        ensures
            spec_attach_cmd(self@, inside, cmd@),
    {
        attach_or_switch(&self.name, inside)
    }

    /// Decide how to obtain a session of the given raw name rooted at
    /// `path`: reuse the existing one (`exists` reports the session
    /// manager's answer), or return the creation command to run.
    pub fn find_or_create_in(name: &str, path: &str, exists: bool) -> (r: (
        Session,
        Option<Vec<String>>,
    ))
        ensures
            r.0@ == spec_sanitize(name@),
            exists ==> r.1 is None,
            !exists ==> (r.1 matches Some(cmd) && spec_new_session_cmd(
                spec_sanitize(name@),
                path@,
                cmd@,
            )),
    {
        let session_name = SessionName::from(name);
        match has(&session_name, exists) {
            Some(session) => (session, None),
            None => {
                let (session, cmd) = new_session(&session_name, path);
                (session, Some(cmd))
            },
        }
    }
}

/// What the session-existence query command looks like.
pub open spec fn spec_has_cmd(name: Seq<char>, cmd: Seq<String>) -> bool {
    &&& cmd.len() == 4
    &&& cmd[0]@ == "tmux"@
    &&& cmd[1]@ == "has"@
    &&& cmd[2]@ == "-t"@
    &&& cmd[3]@ == "="@ + name
}

/// The command that asks the session manager whether a session named `name`
/// exists (an exact-match target).
pub fn has_command(name: &SessionName) -> (cmd: Vec<String>)
    ensures
        spec_has_cmd(name@, cmd@),
{
    let mut cmd: Vec<String> = Vec::new();
    cmd.push("tmux".to_owned());
    cmd.push("has".to_owned());
    cmd.push("-t".to_owned());
    let mut target = "=".to_owned();
    target.append(name.as_str());
    cmd.push(target);
    cmd
}

/// Interpret the session manager's answer to the existence query: a session
/// value when the query succeeded, nothing otherwise.
pub fn has(name: &SessionName, found: bool) -> (r: Option<Session>)
    ensures
        found <==> r is Some,
        r matches Some(s) ==> s@ == name@,
{
    if found {
        Some(Session { name: name.clone() })
    } else {
        None
    }
}

/// What the session-creation command looks like: a detached session under
/// the sanitised name, rooted at the given path.
pub open spec fn spec_new_session_cmd(name: Seq<char>, path: Seq<char>, cmd: Seq<String>) -> bool {
    &&& cmd.len() == 7
    &&& cmd[0]@ == "tmux"@
    &&& cmd[1]@ == "new-session"@
    &&& cmd[2]@ == "-d"@
    &&& cmd[3]@ == "-s"@
    &&& cmd[4]@ == name
    &&& cmd[5]@ == "-c"@
    &&& cmd[6]@ == path
}

/// The session that creating under `name` at `path` yields, with the
/// creation command to run.
pub fn new_session(name: &SessionName, path: &str) -> (r: (Session, Vec<String>))
    ensures
        r.0@ == name@,
        spec_new_session_cmd(name@, path@, r.1@),
{
    let mut cmd: Vec<String> = Vec::new();
    cmd.push("tmux".to_owned());
    cmd.push("new-session".to_owned());
    cmd.push("-d".to_owned());
    cmd.push("-s".to_owned());
    cmd.push(name.as_str().to_owned());
    cmd.push("-c".to_owned());
    cmd.push(path.to_owned());
    (Session { name: name.clone() }, cmd)
}

/// What the attach-or-switch command looks like: `switch-client` when the
/// caller is already inside the session manager, `attach-session` otherwise.
pub open spec fn spec_attach_cmd(name: Seq<char>, inside: bool, cmd: Seq<String>) -> bool {
    &&& cmd.len() == 4
    &&& cmd[0]@ == "tmux"@
    &&& cmd[1]@ == (if inside {
        "switch-client"@
    } else {
        "attach-session"@
    })
    &&& cmd[2]@ == "-t"@
    &&& cmd[3]@ == name
}

/// The command that attaches to or switches to the named session.
pub fn attach_or_switch(name: &SessionName, inside: bool) -> (cmd: Vec<String>)
    ensures
        spec_attach_cmd(name@, inside, cmd@),
{
    let mut cmd: Vec<String> = Vec::new();
    cmd.push("tmux".to_owned());
    if inside {
        cmd.push("switch-client".to_owned());
    } else {
        cmd.push("attach-session".to_owned());
    }
    cmd.push("-t".to_owned());
    cmd.push(name.as_str().to_owned());
    cmd
}

/// A carriage return at the end of a line (the other half of a CRLF line
/// ending) is dropped, as the platform's line iteration drops it.
pub open spec fn chomp_cr(s: Seq<char>) -> Seq<char> {
    if s.len() > 0 && s.last() == '\r' {
        s.drop_last()
    } else {
        s
    }
}

/// Line splitting as the session-list parser performs it: lines end at
/// '\n' or at a carriage return followed by '\n', and a trailing line
/// ending yields no final empty line (a final unterminated fragment is
/// kept as it stands).
pub open spec fn lines_from(s: Seq<char>, i: int, acc: Seq<Seq<char>>, cur: Seq<char>) -> Seq<
    Seq<char>,
>
    decreases s.len() - i,
{
    if i < 0 || i >= s.len() {
        if cur.len() > 0 {
            acc.push(cur)
        } else {
            acc
        }
    } else if s[i] == '\n' {
        lines_from(s, i + 1, acc.push(chomp_cr(cur)), Seq::empty())
    } else {
        lines_from(s, i + 1, acc, cur.push(s[i]))
    }
}

/// The lines of the session manager's list output.
pub open spec fn spec_lines(s: Seq<char>) -> Seq<Seq<char>> {
    lines_from(s, 0, Seq::empty(), Seq::empty())
}

/// Parse the session manager's list output (one session name per line) into
/// sessions, sanitising each name.
pub fn list_sessions(output: &str) -> (r: Vec<Session>)
    ensures
        r@.len() == spec_lines(output@).len(),
        forall|k: int|
            0 <= k < r@.len() ==> #[trigger] r@[k]@ == spec_sanitize(spec_lines(output@)[k]),
{
    let mut sessions: Vec<Session> = Vec::new();
    let ghost mut acc: Seq<Seq<char>> = Seq::empty();
    let mut cur = String::new();
    let len = output.unicode_len();
    let mut i: usize = 0;
    while i < len
        invariant
            i <= len,
            len == output@.len(),
            spec_lines(output@) == lines_from(output@, i as int, acc, cur@),
            sessions@.len() == acc.len(),
            forall|k: int|
                0 <= k < acc.len() ==> #[trigger] sessions@[k]@ == spec_sanitize(acc[k]),
        decreases len - i,
    {
        let c = output.get_char(i);
        if c == '\n' {
            let ghost line = cur@;
            let l = cur.as_str().unicode_len();
            if l > 0 && cur.as_str().get_char(l - 1) == '\r' {
                let _ = cur.pop();
            }
            proof {
                assert(cur@ == chomp_cr(line));
            }
            sessions.push(Session { name: SessionName::from(cur.as_str()) });
            proof {
                acc = acc.push(chomp_cr(line));
            }
            cur = String::new();
        } else {
            cur.push(c);
        }
        i += 1;
    }
    if !cur.as_str().is_empty() {
        sessions.push(Session { name: SessionName::from(cur.as_str()) });
        proof {
            acc = acc.push(cur@);
        }
    }
    sessions
}


/// Where the first line of a command's output ends: at the first newline,
/// or at the end of the text.
pub open spec fn line_end(s: Seq<char>, i: int) -> int
    decreases s.len() - i,
{
    if i < 0 || i >= s.len() {
        i
    } else if s[i] == '\n' {
        i
    } else {
        line_end(s, i + 1)
    }
}

/// The first line of a command's output: how the session manager's
/// single-token answers (such as the active session's name) are read. A
/// carriage return before the terminating newline is dropped; a final
/// unterminated fragment is kept as it stands.
pub fn first_line(s: &str) -> (r: String)
    ensures
        r@ == (if line_end(s@, 0) < s@.len() {
            chomp_cr(s@.take(line_end(s@, 0)))
        } else {
            s@.take(line_end(s@, 0))
        }),
{
    let len = s.unicode_len();
    let mut out = String::new();
    let mut i: usize = 0;
    while i < len && s.get_char(i) != '\n'
        invariant
            i <= len,
            len == s@.len(),
            out@ == s@.take(i as int),
            line_end(s@, 0) == line_end(s@, i as int),
        decreases len - i,
    {
        out.push(s.get_char(i));
        i += 1;
        proof {
            assert(out@ =~= s@.take(i as int));
        }
    }
    proof {
        assert(line_end(s@, i as int) == i);
    }
    if i < len {
        let l = out.as_str().unicode_len();
        if l > 0 && out.as_str().get_char(l - 1) == '\r' {
            let _ = out.pop();
        }
    }
    out
}

} // verus!
