use vstd::prelude::*;
use crate::error::CoreError;

verus! {

/// One fetchable unit of a series, as the resolver lists it.
pub struct Episode {
    pub url: String,
    pub title: String,
    pub id: String,
}

/// What the resolver client does once the resolver process has been run.
pub enum ResolveStep {
    /// Parse the process's standard output as an episode list, then report with `after_parse`.
    ParseOutput,
    /// Resolution is over, with this failure.
    Fail(CoreError),
}

/// The arguments that run the resolver script `script` on one series.
pub fn resolver_args(script: &str, series_url: &str) -> (r: Vec<String>)
    ensures
        r@.map_values(|s: String| s@) == seq![script@, "--fetch-episodes"@, series_url@],
{
    let mut r: Vec<String> = Vec::new();
    r.push(String::from_str(script));
    r.push(String::from_str("--fetch-episodes"));
    r.push(String::from_str(series_url));
    assert(r@.map_values(|s: String| s@) =~= seq![script@, "--fetch-episodes"@, series_url@]);
    r
}

/// A resolver that could not be started.
pub fn spawn_failed(reason: String) -> (e: CoreError)
    ensures
        e == CoreError::ResolverSpawnFailed(reason),
{
    CoreError::ResolverSpawnFailed(reason)
}

/// The move after the resolver exited: its output is read only after a
/// successful exit; otherwise its standard error is the failure, verbatim.
pub fn after_exit(success: bool, stderr: String) -> (step: ResolveStep)
    ensures
        success ==> step == ResolveStep::ParseOutput,
        !success ==> step == ResolveStep::Fail(CoreError::ResolverProcessFailed(stderr)),
{
    if success {
        ResolveStep::ParseOutput
    } else {
        ResolveStep::Fail(CoreError::ResolverProcessFailed(stderr))
    }
}

/// The result of a resolution whose output was parsed: output that is not an
/// episode list is a failure of its own, never an empty list.
pub fn after_parse(parsed: Result<Vec<Episode>, String>) -> (r: Result<Vec<Episode>, CoreError>)
    ensures
        match parsed {
            Ok(eps) => r == Ok::<Vec<Episode>, CoreError>(eps),
            Err(e) => r == Err::<Vec<Episode>, CoreError>(CoreError::ResolverOutputMalformed(e)),
        },
{
    match parsed {
        Ok(eps) => Ok(eps),
        Err(e) => Err(CoreError::ResolverOutputMalformed(e)),
    }
}

} // verus!
