//! Resolution of the version marker file, whose existence records that the
//! first-run prompt has already been shown and accepted.

use vstd::prelude::*;

use vstd::string::StringExecFns;

verus! {

/// The path of the marker file relative to the cache directory: an
/// application-identity segment and the literal file name `version`.
pub open spec fn marker_suffix() -> Seq<char> {
    "/tere/version"@
}

/// Relies on `dirs::cache_dir`: returns the platform's cache directory, or
/// `None` when none can be resolved. On Linux that is `XDG_CACHE_HOME` when
/// it holds an absolute path, else `$HOME/.cache`; both forms are non-empty.
/// A cache directory whose path is not valid UTF-8 cannot be represented
/// here and is reported as unavailable, which only suppresses the prompt.
/// The result depends on the process environment, so nothing relates it to
/// the result of another call.
#[verifier::external_body]
fn platform_cache_dir() -> (r: Option<String>)
    ensures
        r is Some ==> r.unwrap()@.len() > 0,
{
    dirs::cache_dir().and_then(|p| p.into_os_string().into_string().ok())
}

/// Resolves the location of the version marker file. The cache directory is
/// injected at construction, so callers and tests can substitute one; the
/// usual source is the platform convention via [`MarkerStore::from_platform`].
pub struct MarkerStore {
    pub cache_dir: Option<String>,
}

impl MarkerStore {
    /// A store over the given cache directory; `None` means the platform
    /// could not resolve one.
    pub fn new(cache_dir: Option<String>) -> (s: MarkerStore)
        ensures
            s.cache_dir == cache_dir,
    {
        MarkerStore { cache_dir }
    }

    /// A store over the platform's cache directory convention.
    pub fn from_platform() -> (s: MarkerStore)
        ensures
            s.cache_dir is Some ==> s.cache_dir.unwrap()@.len() > 0,
    {
        MarkerStore { cache_dir: platform_cache_dir() }
    }

    /// Whether a cache directory is available, and with it a durable place
    /// for the marker file.
    pub fn cache_dir_available(&self) -> (r: bool)
        ensures
            r == (self.cache_dir is Some),
    {
        self.cache_dir.is_some()
    }

    /// The resolved marker path: `<cache directory>/tere/version`, or `None`
    /// when no cache directory is available — a valid state, not an error.
    pub fn version_file_path(&self) -> (r: Option<String>)
        ensures
            r is Some <==> self.cache_dir is Some,
            r is Some ==> r.unwrap()@ == self.cache_dir.unwrap()@ + marker_suffix(),
    {
        match &self.cache_dir {
            Option::None => Option::None,
            Option::Some(dir) => Option::Some(dir.clone().concat("/tere/version")),
        }
    }
}

} // verus!
