use crate::errors::CargoMSRVError;
use vstd::prelude::*;

verus! {

/// The platform target a probe addresses: either the platform default, which
/// the embedding binary resolves by asking the toolchain manager, or an
/// explicit target triple.
#[derive(Debug, PartialEq, Eq)]
pub enum InnerTarget {
    PlatformDefault,
    Custom(String),
}

#[derive(Debug, PartialEq, Eq)]
pub struct Target {
    pub inner: InnerTarget,
}

impl Target {
    /// The target that stands for the platform default.
    pub open spec fn platform_default_spec() -> Target {
        Target { inner: InnerTarget::PlatformDefault }
    }

    pub fn platform_default() -> (t: Target)
        ensures
            t == Target::platform_default_spec(),
    {
        Target { inner: InnerTarget::PlatformDefault }
    }

    pub fn custom(triple: String) -> (t: Target)
        ensures
            t.inner == InnerTarget::Custom(triple),
    {
        Target { inner: InnerTarget::Custom(triple) }
    }

    /// The explicit target triple, if one was given; a caller that finds none
    /// must resolve the platform default externally.
    pub fn target(&self) -> (r: Option<&String>)
        ensures
            match r {
                Some(s) => self.inner == InnerTarget::Custom(*s),
                None => self.inner == InnerTarget::PlatformDefault,
            },
    {
        match &self.inner {
            InnerTarget::PlatformDefault => None,
            InnerTarget::Custom(triple) => Some(triple),
        }
    }
}

impl Clone for Target {
    fn clone(&self) -> (r: Self)
        ensures
            r == *self,
    {
        match &self.inner {
            InnerTarget::PlatformDefault => Target { inner: InnerTarget::PlatformDefault },
            InnerTarget::Custom(triple) => Target { inner: InnerTarget::Custom(triple.clone()) },
        }
    }
}

/// ASCII whitespace, as the token split of the host-triple line uses it.
pub open spec fn is_ascii_ws(b: u8) -> bool {
    b == 32 || b == 9 || b == 10 || b == 12 || b == 13
}

/// The index of the first line break at or after `i`, or the end of the text.
pub open spec fn spec_line_end(s: Seq<u8>, i: int) -> int
    decreases s.len() - i,
{
    if i < 0 || i >= s.len() || s[i] == 10 {
        i
    } else {
        spec_line_end(s, i + 1)
    }
}

/// The first index at or after `i`, below `le`, that is not ASCII whitespace.
pub open spec fn spec_skip_ws(s: Seq<u8>, le: int, i: int) -> int
    decreases le - i,
{
    if i < 0 || i >= le || i >= s.len() || !is_ascii_ws(s[i]) {
        i
    } else {
        spec_skip_ws(s, le, i + 1)
    }
}

/// The first index at or after `i`, below `le`, that is ASCII whitespace.
pub open spec fn spec_skip_token(s: Seq<u8>, le: int, i: int) -> int
    decreases le - i,
{
    if i < 0 || i >= le || i >= s.len() || is_ascii_ws(s[i]) {
        i
    } else {
        spec_skip_token(s, le, i + 1)
    }
}

/// The third whitespace-separated token of the first line of `s`, if that
/// line has one: the span left after skipping two tokens and the whitespace
/// around them.
pub open spec fn spec_third_token(s: Seq<u8>) -> Option<Seq<u8>> {
    let le = spec_line_end(s, 0);
    let a = spec_skip_ws(s, le, 0);
    let b = spec_skip_token(s, le, a);
    let c = spec_skip_ws(s, le, b);
    let d = spec_skip_token(s, le, c);
    let e = spec_skip_ws(s, le, d);
    let f = spec_skip_token(s, le, e);
    if e < le {
        Some(s.subrange(e, f))
    } else {
        None
    }
}

fn is_ws_byte(b: u8) -> (r: bool)
    ensures
        r == is_ascii_ws(b),
{
    b == 32 || b == 9 || b == 10 || b == 12 || b == 13
}

fn line_end(s: &[u8]) -> (r: usize)
    ensures
        r == spec_line_end(s@, 0),
        r <= s@.len(),
{
    let n = s.len();
    let mut i: usize = 0;
    while i < n && s[i] != 10
        invariant
            i <= n,
            n == s@.len(),
            spec_line_end(s@, 0) == spec_line_end(s@, i as int),
        decreases n - i,
    {
        i = i + 1;
    }
    i
}

fn skip_ws_from(s: &[u8], le: usize, from: usize) -> (r: usize)
    requires
        from <= le <= s@.len(),
    ensures
        r == spec_skip_ws(s@, le as int, from as int),
        from <= r <= le,
{
    let n = s.len();
    let mut i: usize = from;
    while i < le && is_ws_byte(s[i])
        invariant
            from <= i <= le,
            le <= n == s@.len(),
            spec_skip_ws(s@, le as int, from as int) == spec_skip_ws(s@, le as int, i as int),
        decreases le - i,
    {
        i = i + 1;
    }
    i
}

fn skip_token_from(s: &[u8], le: usize, from: usize) -> (r: usize)
    requires
        from <= le <= s@.len(),
    ensures
        r == spec_skip_token(s@, le as int, from as int),
        from <= r <= le,
{
    let n = s.len();
    let mut i: usize = from;
    while i < le && !is_ws_byte(s[i])
        invariant
            from <= i <= le,
            le <= n == s@.len(),
            spec_skip_token(s@, le as int, from as int) == spec_skip_token(s@, le as int, i as int),
        decreases le - i,
    {
        i = i + 1;
    }
    i
}

/// Reads the platform-default host triple out of the toolchain manager's
/// output: the third whitespace-separated token of the first line. Anything
/// short of that is fatal, since without a target no toolchain can be
/// addressed.
pub fn parse_default_host_triple(stdout: &[u8]) -> (r: Result<Vec<u8>, CargoMSRVError>)
    ensures
        match r {
            Ok(t) => spec_third_token(stdout@) == Some(t@),
            Err(e) => {
                &&& spec_third_token(stdout@) is None
                &&& e == CargoMSRVError::DefaultHostTripleNotFound
            },
        },
{
    let le = line_end(stdout);
    let a = skip_ws_from(stdout, le, 0);
    let b = skip_token_from(stdout, le, a);
    let c = skip_ws_from(stdout, le, b);
    let d = skip_token_from(stdout, le, c);
    let e = skip_ws_from(stdout, le, d);
    let f = skip_token_from(stdout, le, e);
    if e < le {
        let token = vstd::slice::slice_subrange(stdout, e, f);
        Ok(vstd::slice::slice_to_vec(token))
    } else {
        Err(CargoMSRVError::DefaultHostTripleNotFound)
    }
}

} // verus!
