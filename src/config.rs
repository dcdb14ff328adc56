use vstd::prelude::*;
use crate::error::CoreError;

verus! {

/// One series of the watch-list.
pub struct SeriesEntry {
    pub name: String,
    pub url: String,
    /// Whether the next download run includes this series.
    pub enabled: bool,
    /// Episode filters, interpreted by the worker alone.
    pub include_patterns: Vec<String>,
    pub exclude_patterns: Vec<String>,
    /// Display-only; an absent thumbnail differs from an empty one.
    pub thumbnail_url: Option<String>,
}

/// The persisted watch-list and download options.
pub struct Configuration {
    /// In processing and display order.
    pub series: Vec<SeriesEntry>,
    pub download_path: String,
    /// Name of the worker's record of what it has already fetched.
    pub archive_file: String,
    pub debug: bool,
    /// Tokens handed to the worker verbatim.
    pub worker_options: Vec<String>,
}

/// What was found where the configuration file belongs.
pub enum StoredConfig {
    /// No file there.
    Absent,
    /// A file that could not be read, with the reason.
    Unreadable(String),
    /// A file whose text is not a configuration, with the reason.
    Malformed(String),
    /// A file holding this configuration.
    Present(Configuration),
}

/// What loading does next.
pub enum LoadStep {
    /// Create the directory, write this configuration, then report with `after_default_written`.
    WriteDefault(Configuration),
    /// Loading is over, with this result.
    Finish(Result<Configuration, CoreError>),
}

pub open spec fn ends_with(s: Seq<char>, suffix: Seq<char>) -> bool {
    suffix.len() <= s.len() && s.subrange(s.len() - suffix.len(), s.len() as int) == suffix
}

/// `dir` followed by `leaf`, with `sep` between them unless `dir` is empty or already ends with it.
pub open spec fn joined(dir: Seq<char>, sep: Seq<char>, leaf: Seq<char>) -> Seq<char> {
    if dir.len() == 0 || ends_with(dir, sep) {
        dir + leaf
    } else {
        dir + sep + leaf
    }
}

pub open spec fn default_options_spec() -> Seq<Seq<char>> {
    seq!["-o"@, "%(series)s/%(title)s.%(ext)s"@, "--write-sub"@, "--sub-lang"@, "ja"@]
}

/// Whether `c` is the first-run configuration for the data directory `dir`.
pub open spec fn is_default_config(c: Configuration, dir: Seq<char>, sep: Seq<char>) -> bool {
    &&& c.series@.len() == 0
    &&& c.download_path@ == joined(dir, sep, "downloads"@)
    &&& c.archive_file@ == "downloaded.txt"@
    &&& !c.debug
    &&& c.worker_options@.map_values(|s: String| s@) == default_options_spec()
}

fn str_ends_with(s: &str, suffix: &str) -> (r: bool)
    ensures
        r == ends_with(s@, suffix@),
{
    let n = s.unicode_len();
    let m = suffix.unicode_len();
    if m > n {
        return false;
    }
    let off = n - m;
    let mut i: usize = 0;
    while i < m
        invariant
            n == s@.len(),
            m == suffix@.len(),
            off + m == n,
            i <= m,
            forall|j: int| 0 <= j < i ==> s@[off + j] == suffix@[j],
        decreases m - i,
    {
        if s.get_char(off + i) != suffix.get_char(i) {
            assert(s@.subrange(off as int, n as int)[i as int] != suffix@[i as int]);
            return false;
        }
        i = i + 1;
    }
    assert(s@.subrange(off as int, n as int) =~= suffix@);
    true
}

/// Joins a path below `dir`, as a relative path is appended to a directory.
pub fn join_path(dir: &str, sep: &str, leaf: &str) -> (r: String)
    ensures
        r@ == joined(dir@, sep@, leaf@),
{
    let mut r = String::from_str(dir);
    if dir.unicode_len() > 0 && !str_ends_with(dir, sep) {
        r.append(sep);
    }
    r.append(leaf);
    r
}

/// The location of the configuration file in the data directory `dir`.
pub fn config_file_path(dir: &str, sep: &str) -> (r: String)
    ensures
        r@ == joined(dir@, sep@, "config.json"@),
{
    join_path(dir, sep, "config.json")
}

/// Where a new configuration is written before it replaces `path`, so that
/// no reader ever sees a half-written file.
pub fn staging_path(path: &str) -> (r: String)
    ensures
        r@ == path@ + ".tmp"@,
{
    let mut r = String::from_str(path);
    r.append(".tmp");
    r
}

/// The worker options of a first-run configuration.
pub fn default_worker_options() -> (r: Vec<String>)
    ensures
        r@.map_values(|s: String| s@) == default_options_spec(),
{
    let mut r: Vec<String> = Vec::new();
    r.push(String::from_str("-o"));
    r.push(String::from_str("%(series)s/%(title)s.%(ext)s"));
    r.push(String::from_str("--write-sub"));
    r.push(String::from_str("--sub-lang"));
    r.push(String::from_str("ja"));
    assert(r@.map_values(|s: String| s@) =~= default_options_spec());
    r
}

/// The configuration written on first run in the data directory `dir`.
pub fn default_config(dir: &str, sep: &str) -> (c: Configuration)
    ensures
        is_default_config(c, dir@, sep@),
{
    Configuration {
        series: Vec::new(),
        download_path: join_path(dir, sep, "downloads"),
        archive_file: String::from_str("downloaded.txt"),
        debug: false,
        worker_options: default_worker_options(),
    }
}

/// Whether `step` is the right first move of a load, given what is stored.
pub open spec fn load_step_holds(stored: StoredConfig, dir: Seq<char>, sep: Seq<char>, step: LoadStep) -> bool {
    match stored {
        StoredConfig::Absent => step matches LoadStep::WriteDefault(c) && is_default_config(c, dir, sep),
        StoredConfig::Unreadable(e) => step == LoadStep::Finish(Err(CoreError::ConfigIo(e))),
        StoredConfig::Malformed(e) => step == LoadStep::Finish(Err(CoreError::ConfigParse(e))),
        StoredConfig::Present(c) => step == LoadStep::Finish(Ok(c)),
    }
}

/// The first move of a load: a stored configuration is returned unchanged,
/// and a missing one is replaced by the default, which is to be persisted.
pub fn load_start(stored: StoredConfig, dir: &str, sep: &str) -> (step: LoadStep)
    ensures
        load_step_holds(stored, dir@, sep@, step),
{
    match stored {
        StoredConfig::Absent => LoadStep::WriteDefault(default_config(dir, sep)),
        StoredConfig::Unreadable(e) => LoadStep::Finish(Err(CoreError::ConfigIo(e))),
        StoredConfig::Malformed(e) => LoadStep::Finish(Err(CoreError::ConfigParse(e))),
        StoredConfig::Present(c) => LoadStep::Finish(Ok(c)),
    }
}

/// The end of a first-run load: the default configuration once it is
/// persisted, or the file system's failure.
pub fn after_default_written(default: Configuration, written: Result<(), String>) -> (r: Result<Configuration, CoreError>)
    ensures
        match written {
            Ok(()) => r == Ok::<Configuration, CoreError>(default),
            Err(e) => r == Err::<Configuration, CoreError>(CoreError::ConfigIo(e)),
        },
{
    match written {
        Ok(()) => Ok(default),
        Err(e) => Err(CoreError::ConfigIo(e)),
    }
}

/// A first load where no file exists yields an empty watch-list and a
/// non-empty download path and persists it; a load after that finds the
/// persisted configuration and returns the same values, without writing again.
pub proof fn lemma_first_load_is_stable(dir: Seq<char>, sep: Seq<char>, first: LoadStep, second: LoadStep)
    requires
        load_step_holds(StoredConfig::Absent, dir, sep, first),
        first matches LoadStep::WriteDefault(c) && load_step_holds(StoredConfig::Present(c), dir, sep, second),
    ensures
        first matches LoadStep::WriteDefault(c) && {
            &&& c.series@.len() == 0
            &&& c.download_path@.len() > 0
            &&& second == LoadStep::Finish(Ok(c))
        },
{
    reveal_strlit("downloads");
}

} // verus!
