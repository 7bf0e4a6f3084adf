//! Version resolution: decide which version of a tool is active, from an
//! explicit override, an environment variable, or a hierarchy of
//! configuration sources walked from the nearest directory outward.
//!
//! Probing a directory's ecosystem files is outside work; the engine is a
//! step machine. Each call either settles the resolution or asks the caller
//! to probe one directory and hand the outcome back to a `resume_` function.
//! Strategy rules: an explicit config entry at a level always beats the
//! ecosystem at that level, and a nearer source always beats a farther one.

use vstd::prelude::*;

verus! {

use crate::ext::parse_of;
use crate::ext::parse_version_spec;
use crate::text::concat_str;

/// The identity of the tool being resolved: a stable id used as the key in
/// configuration entries, a display name for errors, and the prefix of its
/// version environment variable.
pub struct ToolContext {
    pub id: String,
    pub name: String,
    pub env_prefix: String,
}

/// One configuration source: the file's path, the directory that holds it,
/// and the file's tool-to-version entries, when it has any. Sources stand in
/// nearest-to-farthest order, and that order is the search priority.
pub struct ConfigSource {
    pub path: String,
    pub dir: String,
    pub versions: Option<Vec<(String, version_spec::UnresolvedVersionSpec)>>,
}

/// How the hierarchy is searched.
#[derive(Clone, Copy, Debug, PartialEq, Eq)]
pub enum DetectStrategy {
    /// At each source, a config entry wins; absent one, that source's
    /// directory is probed before moving to the next source.
    FirstAvailable,
    /// Every config entry across the hierarchy is checked before any
    /// directory is probed.
    PreferPrototools,
    /// Only config entries are checked; the ecosystem is never probed.
    OnlyPrototools,
}

/// Where a resolved version came from.
#[derive(Debug, Clone, PartialEq, Eq)]
pub enum VersionSource {
    CommandLine,
    Environment,
    ConfigEntry { path: String },
    Ecosystem { path: String },
}

/// A resolved version together with its provenance, for diagnostics and for
/// publication by the caller.
#[derive(Debug, Clone, PartialEq, Eq)]
pub struct Detection {
    pub version: version_spec::UnresolvedVersionSpec,
    pub source: VersionSource,
}

/// Why resolution stopped.
#[derive(Debug)]
pub enum DetectError {
    /// An override or environment string failed to parse; carries the
    /// literal string and the parser's diagnostic.
    Semver { version: String, error: version_spec::SpecError },
    /// No source produced a version; carries the tool's name.
    VersionDetectFailed { tool: String },
}

/// What one strategy step decided: a version, nothing at all, or a request
/// to probe the directory of the source at `index`.
#[derive(Debug, Clone, PartialEq, Eq)]
pub enum DetectStep {
    Found(Detection),
    NotFound,
    Probe { index: usize, dir: String },
}

/// What a full resolution step decided.
#[derive(Debug)]
pub enum DetectOutcome {
    Resolved(Detection),
    Failed(DetectError),
    Probe { index: usize, dir: String },
}

/// The version mapped to `id` by the first matching entry, if any.
pub open spec fn entry_lookup(
    entries: Seq<(String, version_spec::UnresolvedVersionSpec)>,
    id: Seq<char>,
) -> Option<version_spec::UnresolvedVersionSpec>
    decreases entries.len(),
{
    if entries.len() == 0 {
        None
    } else if entries[0].0@ == id {
        Some(entries[0].1)
    } else {
        entry_lookup(entries.drop_first(), id)
    }
}

/// The version that one source's entries pin for `id`, if any.
pub open spec fn source_entry(file: ConfigSource, id: Seq<char>) -> Option<
    version_spec::UnresolvedVersionSpec,
> {
    match file.versions {
        Some(entries) => entry_lookup(entries@, id),
        None => None,
    }
}

/// The first config entry for `id` across the hierarchy, with the path of
/// the file that holds it.
pub open spec fn config_scan(files: Seq<ConfigSource>, id: Seq<char>) -> Option<
    (version_spec::UnresolvedVersionSpec, Seq<char>),
>
    decreases files.len(),
{
    if files.len() == 0 {
        None
    } else {
        match source_entry(files[0], id) {
            Some(v) => Some((v, files[0].path@)),
            None => config_scan(files.drop_first(), id),
        }
    }
}

/// `r` reports `v`, detected from the config file at `path`.
pub open spec fn found_config(r: DetectStep, v: version_spec::UnresolvedVersionSpec, path: Seq<char>) -> bool {
    r matches DetectStep::Found(d) && d.version == v && (d.source matches VersionSource::ConfigEntry {
        path: p,
    } && p@ == path)
}

/// `r` reports `v`, detected from the ecosystem file at `path`.
pub open spec fn found_eco(r: DetectStep, v: version_spec::UnresolvedVersionSpec, path: Seq<char>) -> bool {
    r matches DetectStep::Found(d) && d.version == v && (d.source matches VersionSource::Ecosystem {
        path: p,
    } && p@ == path)
}

/// The first-available step at source `from`: its config entry wins, else
/// its directory must be probed; past the end, nothing was found.
pub open spec fn first_available_step(
    r: DetectStep,
    files: Seq<ConfigSource>,
    id: Seq<char>,
    from: int,
) -> bool {
    if from >= files.len() {
        r is NotFound
    } else {
        match source_entry(files[from], id) {
            Some(v) => found_config(r, v, files[from].path@),
            None => r matches DetectStep::Probe { index, dir } && index == from && dir@
                == files[from].dir@,
        }
    }
}

/// The ecosystem pass at source `from`: its directory must be probed; past
/// the end, nothing was found.
pub open spec fn eco_step(r: DetectStep, files: Seq<ConfigSource>, from: int) -> bool {
    if from >= files.len() {
        r is NotFound
    } else {
        r matches DetectStep::Probe { index, dir } && index == from && dir@ == files[from].dir@
    }
}

/// The version the first matching entry maps `id` to, as [`entry_lookup`]
/// says.
fn find_entry(
    entries: &Vec<(String, version_spec::UnresolvedVersionSpec)>,
    id: &String,
) -> (r: Option<version_spec::UnresolvedVersionSpec>)
    ensures
        r == entry_lookup(entries@, id@),
{
    let mut i: usize = 0;
    proof {
        assert(entries@.skip(0) =~= entries@);
    }
    while i < entries.len()
        invariant
            i <= entries@.len(),
            entry_lookup(entries@, id@) == entry_lookup(entries@.skip(i as int), id@),
        decreases entries@.len() - i,
    {
        proof {
            assert(entries@.skip(i as int)[0] == entries@[i as int]);
            assert(entries@.skip(i as int).drop_first() =~= entries@.skip(i + 1));
        }
        let e = &entries[i];
        if id.eq(&e.0) {
            return Some(e.1.clone());
        }
        i = i + 1;
    }
    proof {
        assert(entries@.skip(entries@.len() as int) =~= Seq::<(
            String,
            version_spec::UnresolvedVersionSpec,
        )>::empty());
    }
    None
}

/// The version one source pins for `id`, as [`source_entry`] says.
fn source_version(file: &ConfigSource, id: &String) -> (r: Option<
    version_spec::UnresolvedVersionSpec,
>)
    ensures
        r == source_entry(*file, id@),
{
    match &file.versions {
        Some(entries) => find_entry(entries, id),
        None => None,
    }
}

/// One first-available step starting at source `from`.
fn first_available_from(tool: &ToolContext, files: &Vec<ConfigSource>, from: usize) -> (r:
    DetectStep)
    requires
        from <= files@.len(),
    ensures
        first_available_step(r, files@, tool.id@, from as int),
{
    if from >= files.len() {
        return DetectStep::NotFound;
    }
    let file = &files[from];
    match source_version(file, &tool.id) {
        Some(v) => DetectStep::Found(
            Detection {
                version: v,
                source: VersionSource::ConfigEntry { path: file.path.clone() },
            },
        ),
        None => DetectStep::Probe { index: from, dir: file.dir.clone() },
    }
}

/// One ecosystem-pass step starting at source `from`.
fn eco_from(files: &Vec<ConfigSource>, from: usize) -> (r: DetectStep)
    requires
        from <= files@.len(),
    ensures
        eco_step(r, files@, from as int),
{
    if from >= files.len() {
        return DetectStep::NotFound;
    }
    DetectStep::Probe { index: from, dir: files[from].dir.clone() }
}

/// Begin a first-available search: the nearest source's config entry wins;
/// absent one, that source's directory must be probed first.
pub fn detect_version_first_available(tool: &ToolContext, files: &Vec<ConfigSource>) -> (r:
    DetectStep)
    ensures
        first_available_step(r, files@, tool.id@, 0),
{
    first_available_from(tool, files, 0)
}

/// Continue a first-available search after the caller probed the directory
/// of source `index`: a probe hit wins at that level, else the search moves
/// to the next source.
pub fn resume_first_available(
    tool: &ToolContext,
    files: &Vec<ConfigSource>,
    index: usize,
    probe: Option<(version_spec::UnresolvedVersionSpec, String)>,
) -> (r: DetectStep)
    requires
        (index as int) < files@.len(),
    ensures
        probe matches Some(p) ==> found_eco(r, p.0, p.1@),
        probe is None ==> first_available_step(r, files@, tool.id@, index + 1),
{
    let n = files.len();
    proof {
        assert(index + 1 <= n);
    }
    match probe {
        Some((version, path)) => DetectStep::Found(
            Detection { version, source: VersionSource::Ecosystem { path } },
        ),
        None => first_available_from(tool, files, index + 1),
    }
}

/// Search the config entries of the whole hierarchy, nearest first; the
/// ecosystem is never probed.
pub fn detect_version_only_prototools(tool: &ToolContext, files: &Vec<ConfigSource>) -> (r:
    DetectStep)
    ensures
        match config_scan(files@, tool.id@) {
            Some(vp) => found_config(r, vp.0, vp.1),
            None => r is NotFound,
        },
        !(r is Probe),
{
    let mut i: usize = 0;
    proof {
        assert(files@.skip(0) =~= files@);
    }
    while i < files.len()
        invariant
            i <= files@.len(),
            config_scan(files@, tool.id@) == config_scan(files@.skip(i as int), tool.id@),
        decreases files@.len() - i,
    {
        proof {
            assert(files@.skip(i as int)[0] == files@[i as int]);
            assert(files@.skip(i as int).drop_first() =~= files@.skip(i + 1));
        }
        let file = &files[i];
        match source_version(file, &tool.id) {
            Some(v) => {
                return DetectStep::Found(
                    Detection {
                        version: v,
                        source: VersionSource::ConfigEntry { path: file.path.clone() },
                    },
                );
            },
            None => {},
        }
        i = i + 1;
    }
    proof {
        assert(files@.skip(files@.len() as int) =~= Seq::<ConfigSource>::empty());
    }
    DetectStep::NotFound
}

/// Search all config entries first; only when none pins the tool does the
/// ecosystem pass begin, again nearest first.
pub fn detect_version_prefer_prototools(tool: &ToolContext, files: &Vec<ConfigSource>) -> (r:
    DetectStep)
    ensures
        config_scan(files@, tool.id@) matches Some(vp) ==> found_config(r, vp.0, vp.1),
        config_scan(files@, tool.id@) is None ==> eco_step(r, files@, 0),
{
    let first = detect_version_only_prototools(tool, files);
    match first {
        DetectStep::Found(d) => DetectStep::Found(d),
        _ => eco_from(files, 0),
    }
}

/// Continue the ecosystem pass of a prefer-prototools search after the
/// caller probed the directory of source `index`.
pub fn resume_prefer_prototools(
    files: &Vec<ConfigSource>,
    index: usize,
    probe: Option<(version_spec::UnresolvedVersionSpec, String)>,
) -> (r: DetectStep)
    requires
        (index as int) < files@.len(),
    ensures
        probe matches Some(p) ==> found_eco(r, p.0, p.1@),
        probe is None ==> eco_step(r, files@, index + 1),
{
    let n = files.len();
    proof {
        assert(index + 1 <= n);
    }
    match probe {
        Some((version, path)) => DetectStep::Found(
            Detection { version, source: VersionSource::Ecosystem { path } },
        ),
        None => eco_from(files, index + 1),
    }
}

/// Whether the environment supplied a usable value: present and non-empty.
pub open spec fn env_nonempty(e: Option<String>) -> bool {
    e matches Some(s) && s@.len() > 0
}

/// `r` resolves to `v`, detected from the config file at `path`.
pub open spec fn resolved_config(
    r: DetectOutcome,
    v: version_spec::UnresolvedVersionSpec,
    path: Seq<char>,
) -> bool {
    r matches DetectOutcome::Resolved(d) && d.version == v
        && (d.source matches VersionSource::ConfigEntry { path: p } && p@ == path)
}

/// `r` failed because nothing pinned a version for the tool named
/// `tool_name`.
pub open spec fn failed_detect(r: DetectOutcome, tool_name: Seq<char>) -> bool {
    r matches DetectOutcome::Failed(e) && (e matches DetectError::VersionDetectFailed {
        tool,
    } && tool@ == tool_name)
}

/// `r` asks the caller to probe `dir`, the directory of source `index`.
pub open spec fn probe_outcome(r: DetectOutcome, index: int, dir: Seq<char>) -> bool {
    r matches DetectOutcome::Probe { index: i, dir: d } && i == index && d@ == dir
}

/// The outcome that corresponds to a strategy step: a found detection is the
/// resolution, an exhausted search fails naming the tool, and a probe
/// request passes through.
pub open spec fn outcome_from_step(r: DetectOutcome, step: DetectStep, tool_name: Seq<char>) -> bool {
    match step {
        DetectStep::Found(d) => r matches DetectOutcome::Resolved(d2) && d2 == d,
        DetectStep::NotFound => failed_detect(r, tool_name),
        DetectStep::Probe { index, dir } => probe_outcome(r, index as int, dir@),
    }
}

/// What the hierarchy search decides first, for each strategy, when neither
/// an override nor the environment settled the resolution.
pub open spec fn hierarchy_outcome(
    r: DetectOutcome,
    files: Seq<ConfigSource>,
    id: Seq<char>,
    tool_name: Seq<char>,
    strategy: DetectStrategy,
) -> bool {
    match strategy {
        DetectStrategy::OnlyPrototools => match config_scan(files, id) {
            Some(vp) => resolved_config(r, vp.0, vp.1),
            None => failed_detect(r, tool_name),
        },
        DetectStrategy::PreferPrototools => match config_scan(files, id) {
            Some(vp) => resolved_config(r, vp.0, vp.1),
            None => if files.len() == 0 {
                failed_detect(r, tool_name)
            } else {
                probe_outcome(r, 0, files[0].dir@)
            },
        },
        DetectStrategy::FirstAvailable => if files.len() == 0 {
            failed_detect(r, tool_name)
        } else {
            match source_entry(files[0], id) {
                Some(v) => resolved_config(r, v, files[0].path@),
                None => probe_outcome(r, 0, files[0].dir@),
            }
        },
    }
}

/// What resolution decides when the environment variable holds the
/// non-empty string `s`: the parsed version on success, and a parse error
/// carrying the literal string on failure — never a fallthrough to the
/// hierarchy.
pub open spec fn env_outcome(r: DetectOutcome, s: Seq<char>) -> bool {
    match parse_of(s) {
        Some(v) => r matches DetectOutcome::Resolved(d) && d.version == v
            && d.source is Environment,
        None => r matches DetectOutcome::Failed(e) && (e matches DetectError::Semver {
            version: bad,
            error: _,
        } && bad@ == s),
    }
}

/// With an empty hierarchy, whatever the strategy, the search can only fail,
/// naming the tool: no strategy invents a version or asks for a probe.
pub proof fn lemma_empty_hierarchy_fails(
    r: DetectOutcome,
    files: Seq<ConfigSource>,
    id: Seq<char>,
    tool_name: Seq<char>,
    strategy: DetectStrategy,
)
    requires
        files.len() == 0,
        hierarchy_outcome(r, files, id, tool_name, strategy),
    ensures
        failed_detect(r, tool_name),
{
}

/// Map a strategy step to a resolution outcome.
fn step_to_outcome(step: DetectStep, tool_name: &String) -> (r: DetectOutcome)
    ensures
        outcome_from_step(r, step, tool_name@),
{
    match step {
        DetectStep::Found(d) => DetectOutcome::Resolved(d),
        DetectStep::NotFound => DetectOutcome::Failed(
            DetectError::VersionDetectFailed { tool: tool_name.clone() },
        ),
        DetectStep::Probe { index, dir } => DetectOutcome::Probe { index, dir },
    }
}

/// Resolve a tool's version. Priority, first success winning: the explicit
/// override; then a non-empty `<PREFIX>_VERSION` environment value, whose
/// parse failure is a hard error, never a fallthrough; then the hierarchy
/// search under the given strategy, which may ask the caller to probe a
/// directory and call [`resume_detect_version`]. When nothing answers, the
/// failure names the tool. Under only-prototools no probe is ever requested.
pub fn detect_version(
    tool: &ToolContext,
    forced_version: Option<version_spec::UnresolvedVersionSpec>,
    env_version: Option<String>,
    strategy: DetectStrategy,
    files: &Vec<ConfigSource>,
) -> (r: DetectOutcome)
    ensures
        forced_version matches Some(v) ==> (r matches DetectOutcome::Resolved(d) && d.version
            == v && d.source is CommandLine),
        forced_version is None ==> (env_version matches Some(s) ==> (s@.len() > 0
            ==> env_outcome(r, s@))),
        forced_version is None && !env_nonempty(env_version) ==> hierarchy_outcome(
            r,
            files@,
            tool.id@,
            tool.name@,
            strategy,
        ),
        strategy is OnlyPrototools ==> !(r is Probe),
        forced_version is Some || env_nonempty(env_version) ==> !(r is Probe),
{
    if let Some(candidate) = forced_version {
        return DetectOutcome::Resolved(
            Detection { version: candidate, source: VersionSource::CommandLine },
        );
    }
    if let Some(session_version) = env_version {
        if !session_version.as_str().is_empty() {
            return match parse_version_spec(session_version.as_str()) {
                Ok(v) => DetectOutcome::Resolved(
                    Detection { version: v, source: VersionSource::Environment },
                ),
                Err(error) => DetectOutcome::Failed(
                    DetectError::Semver { version: session_version, error },
                ),
            };
        }
    }
    let step = match strategy {
        DetectStrategy::FirstAvailable => detect_version_first_available(tool, files),
        DetectStrategy::PreferPrototools => detect_version_prefer_prototools(tool, files),
        DetectStrategy::OnlyPrototools => detect_version_only_prototools(tool, files),
    };
    step_to_outcome(step, &tool.name)
}

/// Continue a resolution after the caller probed the directory of source
/// `index`. Only the two strategies that probe may resume.
pub fn resume_detect_version(
    tool: &ToolContext,
    files: &Vec<ConfigSource>,
    strategy: DetectStrategy,
    index: usize,
    probe: Option<(version_spec::UnresolvedVersionSpec, String)>,
) -> (r: DetectOutcome)
    requires
        (index as int) < files@.len(),
        !(strategy is OnlyPrototools),
    ensures
        probe matches Some(p) ==> (r matches DetectOutcome::Resolved(d) && d.version == p.0 && (
        d.source matches VersionSource::Ecosystem { path: q } && q@ == p.1@)),
        probe is None && strategy is FirstAvailable ==> (if index + 1 >= files@.len() {
            failed_detect(r, tool.name@)
        } else {
            match source_entry(files@[index + 1], tool.id@) {
                Some(v) => resolved_config(r, v, files@[index + 1].path@),
                None => probe_outcome(r, index + 1, files@[index + 1].dir@),
            }
        }),
        probe is None && strategy is PreferPrototools ==> (if index + 1 >= files@.len() {
            failed_detect(r, tool.name@)
        } else {
            probe_outcome(r, index + 1, files@[index + 1].dir@)
        }),
{
    let step = match strategy {
        DetectStrategy::FirstAvailable => resume_first_available(tool, files, index, probe),
        _ => resume_prefer_prototools(files, index, probe),
    };
    step_to_outcome(step, &tool.name)
}

impl ToolContext {
    /// The name of the environment variable that may pin this tool's
    /// version: the tool's prefix followed by `_VERSION`.
    pub fn version_env_var(&self) -> (r: String)
        ensures
            r@ == self.env_prefix@ + "_VERSION"@,
    {
        concat_str(self.env_prefix.as_str(), "_VERSION")
    }
}

} // verus!
