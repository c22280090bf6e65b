use crate::error::Error;
use vstd::prelude::*;

verus! {

/// The configured fallback origin of the remote backend, used where the
/// hosting environment names none.
#[derive(Debug)]
pub struct OriginConfig {
    pub fallback: Option<String>,
}

impl OriginConfig {
    /// A configuration with no fallback origin.
    pub fn new() -> (r: OriginConfig)
        ensures
            r.fallback is None,
    {
        OriginConfig { fallback: None }
    }
}

/// Sets the fallback origin, the base URL that remote paths resolve against
/// where the hosting environment names no origin of its own.
pub fn set_default_origin(config: &mut OriginConfig, origin: &str)
    ensures
        final(config).fallback matches Some(o) && o@ == origin@,
{
    config.fallback = Some(String::from_str(origin));
}

/// The origin that remote paths resolve against: the one that the hosting
/// environment names, else the configured fallback, else none.
pub open spec fn spec_resolve_origin(ambient: Option<Seq<char>>, fallback: Option<Seq<char>>) -> Result<
    Seq<char>,
    Error,
> {
    match ambient {
        Some(a) => Ok(a),
        None => match fallback {
            Some(f) => Ok(f),
            None => Err(Error::NoOrigin),
        },
    }
}

pub open spec fn view_opt(s: Option<String>) -> Option<Seq<char>> {
    match s {
        Some(x) => Some(x@),
        None => None,
    }
}

/// Picks the origin: `ambient`, the one that the hosting environment names,
/// comes first, then the configured fallback; with neither it fails with
/// [`Error::NoOrigin`].
pub fn resolve_origin(ambient: Option<String>, config: &OriginConfig) -> (r: Result<String, Error>)
    ensures
        match r {
            Ok(o) => spec_resolve_origin(view_opt(ambient), view_opt(config.fallback)) == Ok::<
                Seq<char>,
                Error,
            >(o@),
            Err(e) => spec_resolve_origin(view_opt(ambient), view_opt(config.fallback)) == Err::<
                Seq<char>,
                Error,
            >(e),
        },
{
    match ambient {
        Some(a) => Ok(a),
        None => match &config.fallback {
            Some(f) => Ok(f.clone()),
            None => Err(Error::NoOrigin),
        },
    }
}

/// The URL of `path` under `origin`: the two joined by one slash.
pub open spec fn spec_full_path(origin: Seq<char>, path: Seq<char>) -> Seq<char> {
    origin + "/"@ + path
}

/// The URL of `path` under `origin`.
pub fn full_path(origin: &str, path: &str) -> (r: String)
    ensures
        r@ == spec_full_path(origin@, path@),
{
    let mut s = String::from_str(origin);
    s.append("/");
    s.append(path);
    s
}

} // verus!
