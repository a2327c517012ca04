//! Delegate resolution: from a file's type identity to the identity of the
//! platform's own property handler for that type.
//!
//! The type identity is the file's extension, taken from the last dot of its
//! name.  Two resolution strategies are supported as configuration choices:
//! a fixed table pairing known extensions with known delegate identities,
//! and a lookup of the platform's own per-extension handler registration.
//! The registry read itself is the host's job; this module says which value
//! to read and interprets what came back.  Every way resolution can go wrong
//! — no extension, no table entry, no registration, malformed stored
//! identity, unreadable key — is reported as a resolution failure, which
//! initialization surfaces cleanly.

use vstd::prelude::*;
use vstd::string::StrSliceExecFns;
use vstd::string::StringExecFns;

use crate::guid::guid_value;
use crate::guid::is_guid_string;
use crate::guid::parse_guid;
use crate::HandlerError;

verus! {

/// The index of the last dot of `s`, or a negative result when `s` has none.
pub open spec fn last_dot(s: Seq<char>) -> int
    decreases s.len(),
{
    if s.len() == 0 {
        -1
    } else if s[s.len() - 1] == '.' {
        s.len() - 1
    } else {
        last_dot(s.drop_last())
    }
}

/// The extension of a name with a dot: everything from the last dot on,
/// the dot included.
pub open spec fn spec_extension(s: Seq<char>) -> Seq<char> {
    s.subrange(last_dot(s), s.len() as int)
}

/// What `last_dot` finds is the last dot indeed.
proof fn lemma_last_dot(s: Seq<char>)
    ensures
        last_dot(s) < s.len(),
        last_dot(s) < 0 ==> forall|k: int| 0 <= k < s.len() ==> s[k] != '.',
        last_dot(s) >= 0 ==> s[last_dot(s)] == '.',
        last_dot(s) >= 0 ==> forall|m: int| last_dot(s) < m < s.len() ==> s[m] != '.',
    decreases s.len(),
{
    if s.len() > 0 && s[s.len() - 1] != '.' {
        lemma_last_dot(s.drop_last());
        assert(forall|k: int| 0 <= k < s.len() - 1 ==> s[k] == s.drop_last()[k]);
    }
}

/// Takes the file's type identity from its name: the extension, from the
/// last dot to the end.  A name without a dot has no type identity, and the
/// caller reports resolution failure.
pub fn extension_of(path: &str) -> (r: Option<String>)
    ensures
        r is Some <==> last_dot(path@) >= 0,
        r matches Some(e) ==> e@ == spec_extension(path@),
{
    let n = path.unicode_len();
    let mut j: usize = n;
    proof {
        lemma_last_dot(path@);
    }
    while j > 0
        invariant
            n == path@.len(),
            j <= n,
            forall|m: int| j <= m < n ==> path@[m] != '.',
        decreases j,
    {
        if path.get_char(j - 1) == '.' {
            proof {
                lemma_last_dot(path@);
                assert(last_dot(path@) == j - 1) by {
                    lemma_last_dot_at(path@, j as int - 1);
                }
            }
            let e = path.substring_char(j - 1, n);
            return Some(String::from_str(e));
        }
        j -= 1;
    }
    proof {
        lemma_last_dot(path@);
    }
    None
}

/// A position holding a dot with none after it is where `last_dot` points.
proof fn lemma_last_dot_at(s: Seq<char>, k: int)
    requires
        0 <= k < s.len(),
        s[k] == '.',
        forall|m: int| k < m < s.len() ==> s[m] != '.',
    ensures
        last_dot(s) == k,
    decreases s.len(),
{
    if s.len() - 1 > k {
        lemma_last_dot_at(s.drop_last(), k);
    }
}

/// One row of the fixed resolution table: a known extension and the
/// identity of the delegate that owns it.
pub struct DelegateMapping {
    pub extension: String,
    pub delegate: u128,
}

/// The first table row whose extension is `e`, searched front to back.
pub open spec fn table_lookup(t: Seq<DelegateMapping>, e: Seq<char>) -> Option<u128>
    decreases t.len(),
{
    if t.len() == 0 {
        None
    } else if t[0].extension@ == e {
        Some(t[0].delegate)
    } else {
        table_lookup(t.drop_first(), e)
    }
}

proof fn lemma_table_lookup_found(t: Seq<DelegateMapping>, e: Seq<char>, i: int)
    requires
        0 <= i < t.len(),
        forall|k: int| 0 <= k < i ==> (#[trigger] t[k].extension)@ != e,
        t[i].extension@ == e,
    ensures
        table_lookup(t, e) == Some(t[i].delegate),
    decreases t.len(),
{
    if i > 0 {
        lemma_table_lookup_found(t.drop_first(), e, i - 1);
    }
}

proof fn lemma_table_lookup_missing(t: Seq<DelegateMapping>, e: Seq<char>)
    requires
        forall|k: int| 0 <= k < t.len() ==> (#[trigger] t[k].extension)@ != e,
    ensures
        table_lookup(t, e) is None,
    decreases t.len(),
{
    if t.len() > 0 {
        lemma_table_lookup_missing(t.drop_first(), e);
    }
}

/// How a merge view finds the delegate for a file type.
pub enum ResolverConfig {
    /// Resolve against a fixed, install-time table of known types.
    Mapped(Vec<DelegateMapping>),
    /// Resolve by reading the platform's own per-type handler registration.
    Registry,
}

/// What the host must do next to finish resolving a file's delegate.
#[derive(Debug, PartialEq, Eq)]
pub enum ResolveStep {
    /// The delegate identity is known; activate that component.
    OpenDelegate(u128),
    /// Read this registry value — the platform's handler registration for
    /// the file's type — and hand the outcome to `resolve_stored`.
    ReadRegistration(String),
}

/// Where the platform registers the default property handler of each file
/// type, relative to the local-machine root.
pub open spec fn registration_path_base() -> Seq<char> {
    "SOFTWARE\\Microsoft\\Windows\\CurrentVersion\\PropertySystem\\PropertyHandlers\\"@
}

/// The registry path of the handler registration for extension `e`.
pub open spec fn registration_path(e: Seq<char>) -> Seq<char> {
    registration_path_base() + e
}

impl ResolverConfig {
    /// Begins resolution for the named file: either the delegate identity
    /// itself, or the registry value the host must read to find it.  Fails
    /// exactly when the name has no extension or the fixed table has no row
    /// for it.
    pub fn resolve_step(&self, path: &str) -> (r: Result<ResolveStep, HandlerError>)
        ensures
            last_dot(path@) < 0 ==> r == Err::<ResolveStep, HandlerError>(
                HandlerError::ResolutionFailure,
            ),
            last_dot(path@) >= 0 ==> match self {
                ResolverConfig::Mapped(t) => match table_lookup(t@, spec_extension(path@)) {
                    Some(d) => r == Ok::<ResolveStep, HandlerError>(ResolveStep::OpenDelegate(d)),
                    None => r == Err::<ResolveStep, HandlerError>(HandlerError::ResolutionFailure),
                },
                ResolverConfig::Registry => r matches Ok(s) && s matches ResolveStep::ReadRegistration(p)
                    && p@ == registration_path(spec_extension(path@)),
            },
    {
        let ext = match extension_of(path) {
            None => {
                return Err(HandlerError::ResolutionFailure);
            },
            Some(e) => e,
        };
        match self {
            ResolverConfig::Mapped(t) => {
                let n = t.len();
                let mut i: usize = 0;
                while i < n
                    invariant
                        *self == ResolverConfig::Mapped(*t),
                        last_dot(path@) >= 0,
                        n == t@.len(),
                        i <= n,
                        ext@ == spec_extension(path@),
                        forall|k: int| 0 <= k < i ==> (#[trigger] t@[k].extension)@ != ext@,
                    decreases n - i,
                {
                    if t[i].extension == ext {
                        proof {
                            lemma_table_lookup_found(t@, ext@, i as int);
                        }
                        return Ok(ResolveStep::OpenDelegate(t[i].delegate));
                    }
                    i += 1;
                }
                proof {
                    lemma_table_lookup_missing(t@, ext@);
                }
                Err(HandlerError::ResolutionFailure)
            },
            ResolverConfig::Registry => {
                let mut p = String::from_str(
                    "SOFTWARE\\Microsoft\\Windows\\CurrentVersion\\PropertySystem\\PropertyHandlers\\",
                );
                p.append(ext.as_str());
                Ok(ResolveStep::ReadRegistration(p))
            },
        }
    }
}

/// Interprets what the host read from the handler registration.  `None`
/// stands for any failed read — a missing registration or a permission
/// refusal alike.  Succeeds exactly when a value was read and is a
/// well-formed identity string; everything else is a resolution failure.
pub fn resolve_stored(stored: Option<&str>) -> (r: Result<u128, HandlerError>)
    ensures
        match stored {
            None => r == Err::<u128, HandlerError>(HandlerError::ResolutionFailure),
            Some(s) => {
                if is_guid_string(s@) {
                    r matches Ok(g) && g as int == guid_value(s@)
                } else {
                    r == Err::<u128, HandlerError>(HandlerError::ResolutionFailure)
                }
            },
        },
{
    match stored {
        None => Err(HandlerError::ResolutionFailure),
        Some(s) => match parse_guid(s) {
            Some(g) => Ok(g),
            None => Err(HandlerError::ResolutionFailure),
        },
    }
}

} // verus!
