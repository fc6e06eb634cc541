//! Propagation of the shim into child processes.
//!
//! When the host spawns a process, the shim decides whether the child
//! should be instrumented too: the candidate executable name comes from
//! the explicit image-name argument when there is one, otherwise from
//! the first token of the shell-style command line, and its file name
//! is matched against the configured case-insensitive pattern.  A
//! matching child is started suspended, injected, and resumed only if
//! the caller had not asked for suspension itself.

use vstd::prelude::*;

verus! {

/// Process-creation flag that starts the child suspended.
pub const CREATE_SUSPENDED: u32 = 4;

/// Longest module path, in wide characters, the injector writes.
pub const MAX_PATH_W: u32 = 32767;

/// Declares the compiled byte-oriented pattern so a configuration can
/// hold it.
#[verifier::external_type_specification]
#[verifier::external_body]
pub struct ExRegex(regex::bytes::Regex);

/// Whether the pattern text compiles as a case-insensitive regular
/// expression.
pub uninterp spec fn pattern_ok(p: Seq<char>) -> bool;

/// Whether the case-insensitively compiled pattern `p` matches
/// somewhere in the byte string `hay`.
pub uninterp spec fn pattern_match(p: Seq<char>, hay: Seq<u8>) -> bool;

/// The configured target-name pattern, compiled once.
pub struct TargetPattern {
    re: regex::bytes::Regex,
    source: String,
}

impl TargetPattern {
    /// The pattern text this value was compiled from.
    pub closed spec fn src(self) -> Seq<char> {
        self.source@
    }

    /// Relies on regex::bytes::RegexBuilder: compiles the pattern with
    /// case-insensitive matching; an invalid pattern yields `None`, and
    /// the propagation feature stays disabled.
    #[verifier::external_body]
    pub fn compile(pattern: &str) -> (r: Option<TargetPattern>)
        ensures
            r is Some <==> pattern_ok(pattern@),
            r matches Some(tp) ==> tp.src() == pattern@,
    {
        regex::bytes::RegexBuilder::new(pattern).case_insensitive(true).build().ok().map(
            |re| TargetPattern { re, source: pattern.to_owned() },
        )
    }

    /// Relies on regex::bytes::Regex::is_match: whether the pattern
    /// matches somewhere in the byte string.
    #[verifier::external_body]
    pub(crate) fn is_match(&self, hay: &Vec<u8>) -> (r: bool)
        ensures
            r == pattern_match(self.src(), hay@),
    {
        self.re.is_match(hay.as_slice())
    }
}

/// The tokens of a shell-style command line, split by the native
/// convention, each token as its bytes.
pub uninterp spec fn cmdline_tokens(s: Seq<char>) -> Seq<Seq<u8>>;

/// Relies on winsplit::split: tokenizes a command line the way the
/// native process loader does.
#[verifier::external_body]
pub(crate) fn split_cmdline(s: &str) -> (r: Vec<Vec<u8>>)
    ensures
        r@.map_values(|t: Vec<u8>| t@) == cmdline_tokens(s@),
{
    winsplit::split(s).into_iter().map(String::into_bytes).collect()
}

/// Whether a byte separates path components.
pub open spec fn is_sep(b: u8) -> bool {
    b == 0x5Cu8 || b == 0x2Fu8
}

/// Index right after the last path separator: where the file name
/// starts.
pub open spec fn name_start(s: Seq<u8>) -> int
    decreases s.len(),
{
    if s.len() == 0 {
        0
    } else if is_sep(s[s.len() - 1]) {
        s.len() as int
    } else {
        name_start(s.take(s.len() - 1))
    }
}

/// The file-name part of a path: everything after the last separator.
pub open spec fn basename_spec(s: Seq<u8>) -> Seq<u8> {
    s.skip(name_start(s))
}

proof fn lemma_name_start_at(s: Seq<u8>, i: int)
    requires
        0 <= i <= s.len(),
        forall|j: int| i <= j < s.len() ==> !is_sep(s[j]),
        i > 0 ==> is_sep(s[i - 1]),
    ensures
        name_start(s) == i,
    decreases s.len(),
{
    if s.len() == 0 {
    } else if is_sep(s[s.len() - 1]) {
        assert(i == s.len());
    } else {
        assert(i < s.len());
        lemma_name_start_at(s.take(s.len() - 1), i);
    }
}

/// Extract the file name from a path given as bytes.
pub fn basename(path: &Vec<u8>) -> (r: Vec<u8>)
    ensures
        r@ == basename_spec(path@),
{
    let n = path.len();
    let mut i: usize = n;
    let mut found = false;
    while !found && i > 0
        invariant
            i <= n,
            n == path@.len(),
            forall|j: int| i <= j < n ==> !is_sep(path@[j]),
            found ==> i > 0 && is_sep(path@[i - 1]),
        decreases i + (if found { 0int } else { 1int }),
    {
        let b = path[i - 1];
        if b == 0x5C || b == 0x2F {
            found = true;
        } else {
            i = i - 1;
        }
    }
    proof {
        lemma_name_start_at(path@, i as int);
    }
    let mut r: Vec<u8> = Vec::new();
    let mut k: usize = i;
    while k < n
        invariant
            i <= k <= n,
            n == path@.len(),
            r@ == path@.subrange(i as int, k as int),
        decreases n - k,
    {
        let b = path[k];
        r.push(b);
        proof {
            assert(r@ =~= path@.subrange(i as int, k + 1));
        }
        k = k + 1;
    }
    proof {
        assert(path@.subrange(i as int, n as int) =~= path@.skip(i as int));
    }
    r
}

/// The candidate executable name of a process-creation call: the file
/// name of the explicit image-name argument when present, else the
/// file name of the command line's first token, else nothing.
pub open spec fn candidate_spec(app: Option<Seq<u8>>, cmd: Option<Seq<char>>) -> Option<Seq<u8>> {
    match app {
        Some(a) => Some(basename_spec(a)),
        None => match cmd {
            Some(c) => if cmdline_tokens(c).len() > 0 {
                Some(basename_spec(cmdline_tokens(c)[0]))
            } else {
                None
            },
            None => None,
        },
    }
}

/// Compute the candidate executable name for a process-creation call.
pub fn candidate_executable(app_name: Option<&Vec<u8>>, cmdline: Option<&str>) -> (r: Option<
    Vec<u8>,
>)
    ensures
        match candidate_spec(
            match app_name {
                Some(a) => Some(a@),
                None => None,
            },
            match cmdline {
                Some(c) => Some(c@),
                None => None,
            },
        ) {
            Some(name) => r matches Some(v) && v@ == name,
            None => r is None,
        },
{
    match app_name {
        Some(a) => Some(basename(a)),
        None => match cmdline {
            Some(c) => {
                let tokens = split_cmdline(c);
                if tokens.len() > 0 {
                    proof {
                        assert(tokens@.map_values(|t: Vec<u8>| t@)[0] == tokens@[0]@);
                    }
                    Some(basename(&tokens[0]))
                } else {
                    None
                }
            }
            None => None,
        },
    }
}

/// Whether a newly created process should receive the shim: its
/// candidate executable name exists and matches the configured
/// pattern.
pub fn should_inject(
    pat: &TargetPattern,
    app_name: Option<&Vec<u8>>,
    cmdline: Option<&str>,
) -> (r: bool)
    ensures
        r == match candidate_spec(
            match app_name {
                Some(a) => Some(a@),
                None => None,
            },
            match cmdline {
                Some(c) => Some(c@),
                None => None,
            },
        ) {
            Some(name) => pattern_match(pat.src(), name),
            None => false,
        },
{
    match candidate_executable(app_name, cmdline) {
        Some(name) => pat.is_match(&name),
        None => false,
    }
}

/// Decide propagation in one step from the raw configured pattern:
/// compile it and match the candidate executable name.  A pattern that
/// does not compile disables the feature; it never surfaces to the
/// host.
pub fn matches_target(
    pattern: &str,
    app_name: Option<&Vec<u8>>,
    cmdline: Option<&str>,
) -> (r: bool)
    ensures
        r == (pattern_ok(pattern@) && match candidate_spec(
            match app_name {
                Some(a) => Some(a@),
                None => None,
            },
            match cmdline {
                Some(c) => Some(c@),
                None => None,
            },
        ) {
            Some(name) => pattern_match(pattern@, name),
            None => false,
        }),
{
    match TargetPattern::compile(pattern) {
        None => false,
        Some(pat) => should_inject(&pat, app_name, cmdline),
    }
}

/// How an intercepted process creation proceeds.
pub struct LaunchPlan {
    /// Flags the native call receives: the caller's own, with
    /// suspension forced so injection can happen before the child
    /// runs.
    pub flags_to_use: u32,
    /// Whether to inject the shim into the child.
    pub inject: bool,
    /// Whether to resume the child afterwards: only when the caller
    /// did not ask for suspension itself.
    pub resume_after: bool,
}

/// Decide how to run an intercepted process creation, given whether
/// the child's name matched the configured pattern.
pub fn launch_plan(create_flags: u32, matched: bool) -> (p: LaunchPlan)
    ensures
        p.flags_to_use == create_flags | CREATE_SUSPENDED,
        p.inject == matched,
        p.resume_after == (create_flags & CREATE_SUSPENDED == 0),
{
    LaunchPlan {
        flags_to_use: create_flags | CREATE_SUSPENDED,
        inject: matched,
        resume_after: create_flags & CREATE_SUSPENDED == 0,
    }
}

/// Bytes of target-process memory the injector allocates and writes:
/// the module path and its terminator, in wide characters.
pub fn inject_alloc_size(path_len: u32) -> (n: usize)
    requires
        path_len <= MAX_PATH_W,
    ensures
        n == (path_len + 1) * 2,
{
    (path_len as usize + 1) * 2
}

} // verus!
