//! The walk from a directory up to the filesystem root that gathers the
//! settings in force there.
//!
//! Reading files is the caller's part. A walk says which file to read; the
//! caller reports what came of it; the walk answers with the directory to
//! go on in, or with the result. `resolved` says what a whole walk comes
//! to, and the laws at the end of the file are stated of it.

use vstd::prelude::*;
use crate::config::{
    config_of_text, lemma_canonical_merged, parse_config, Config, ConfigError, ConfigFault,
};

verus! {

/// The name of the settings file, the same in every directory.
pub const CONFIG_FILE_NAME: &'static str = ".noemoji.toml";

/// What came of looking for the settings file of one directory.
#[derive(Debug)]
pub enum ReadOutcome {
    /// The file is there, with this text
    Found(String),
    /// The directory has no such file
    NotFound,
    /// The file could not be read for another reason
    Failed(std::io::Error),
}

/// Whether an I/O error says that the file does not exist: its kind is
/// `NotFound`.
pub uninterp spec fn reports_absence(error: std::io::Error) -> bool;

/// Calls `io::Error::kind` and tells whether the kind is
/// `ErrorKind::NotFound`.
#[verifier::external_body]
fn is_not_found(error: &std::io::Error) -> (absent: bool)
    ensures
        absent == reports_absence(*error),
{
    error.kind() == std::io::ErrorKind::NotFound
}

impl ReadOutcome {
    /// What an attempt to read the settings file comes to: a file that
    /// does not exist is no failure.
    pub open spec fn of_read(read: Result<String, std::io::Error>) -> ReadOutcome {
        match read {
            Ok(text) => ReadOutcome::Found(text),
            Err(e) => if reports_absence(e) {
                ReadOutcome::NotFound
            } else {
                ReadOutcome::Failed(e)
            },
        }
    }

    /// Sorts the result of reading the settings file of a directory.
    pub fn of(read: Result<String, std::io::Error>) -> (outcome: ReadOutcome)
        ensures
            outcome == ReadOutcome::of_read(read),
    {
        match read {
            Ok(text) => ReadOutcome::Found(text),
            Err(e) => if is_not_found(&e) {
                ReadOutcome::NotFound
            } else {
                ReadOutcome::Failed(e)
            },
        }
    }
}

/// Where a walk stands after one directory, in contracts.
pub enum Visit {
    /// The walk goes on to the parent directory with these settings
    Ascend(Config),
    /// The walk is over
    Done(Result<Config, ConfigFault>),
}

/// The rule of one step. A directory without a file changes nothing. A file
/// that cannot be read, or whose text is refused, ends the walk with that
/// error. Settings that were read are merged in as the fallback of what was
/// gathered before, and end the walk where they say so.
pub open spec fn visit_spec(gathered: Config, outcome: ReadOutcome) -> Visit {
    match outcome {
        ReadOutcome::NotFound => Visit::Ascend(gathered),
        ReadOutcome::Failed(e) => Visit::Done(Err(ConfigFault::IoError(e))),
        ReadOutcome::Found(text) => match config_of_text(text@) {
            Err(fault) => Visit::Done(Err(ConfigFault::InvalidToml(fault))),
            Ok(parsed) => if parsed.inherit {
                Visit::Ascend(gathered.merged(parsed))
            } else {
                Visit::Done(Ok(gathered.merged(parsed)))
            },
        },
    }
}

/// The result of a walk that has gathered `gathered` and still has the
/// directories of `outcomes` before it, nearest first. Past the last of
/// them lies nothing: the filesystem root has been visited.
pub open spec fn resolve_from(gathered: Config, outcomes: Seq<ReadOutcome>) -> Result<
    Config,
    ConfigFault,
>
    decreases outcomes.len(),
{
    if outcomes.len() == 0 {
        Ok(gathered)
    } else {
        match visit_spec(gathered, outcomes[0]) {
            Visit::Done(result) => result,
            Visit::Ascend(next) => resolve_from(next, outcomes.drop_first()),
        }
    }
}

/// The settings in force in a directory, given what its own settings file
/// and those of its ancestors hold, nearest first.
pub open spec fn resolved(outcomes: Seq<ReadOutcome>) -> Result<Config, ConfigFault> {
    resolve_from(Config::canonical(), outcomes)
}

/// A result as contracts speak of it: the error by its view.
pub open spec fn result_view(result: Result<Config, ConfigError>) -> Result<Config, ConfigFault> {
    match result {
        Ok(config) => Ok(config),
        Err(e) => Err(e@),
    }
}

/// Where a walk stands after one directory.
#[derive(Debug)]
pub enum Visited {
    /// The walk goes on to the parent directory with these settings
    Ascend(Config),
    /// The walk is over: this is the result
    Done(Result<Config, ConfigError>),
}

impl View for Visited {
    type V = Visit;

    open spec fn view(&self) -> Visit {
        match self {
            Visited::Ascend(gathered) => Visit::Ascend(*gathered),
            Visited::Done(result) => Visit::Done(result_view(*result)),
        }
    }
}

impl Config {
    /// Takes in what was found in the next directory of a walk that has
    /// gathered `self` so far.
    pub fn absorb(self, outcome: ReadOutcome) -> (visited: Visited)
        ensures
            visited@ == visit_spec(self, outcome),
    {
        match outcome {
            ReadOutcome::NotFound => Visited::Ascend(self),
            ReadOutcome::Failed(e) => Visited::Done(Err(ConfigError::IoError(e))),
            ReadOutcome::Found(text) => match parse_config(text.as_str()) {
                Err(e) => Visited::Done(Err(ConfigError::InvalidToml(e))),
                Ok(parsed) => {
                    let merged = self.or(parsed);
                    if parsed.inherit {
                        Visited::Ascend(merged)
                    } else {
                        Visited::Done(Ok(merged))
                    }
                },
            },
        }
    }
}

/// The directory above a directory, as `Path::parent` of std finds it on
/// the platform that the library is built for: the path without its last
/// component, and `None` where it has none left, as a root has.
pub uninterp spec fn parent_of(dir: std::path::PathBuf) -> Option<std::path::PathBuf>;

/// The path of the file `name` in a directory, as `Path::join` of std makes
/// it.
pub uninterp spec fn joined(dir: std::path::PathBuf, name: Seq<char>) -> std::path::PathBuf;

/// Calls `Path::parent`. The result depends on the path alone, so it is
/// named: `parent_of`.
#[verifier::external_body]
fn parent_dir(dir: &std::path::PathBuf) -> (parent: Option<std::path::PathBuf>)
    ensures
        parent == parent_of(*dir),
{
    match dir.parent() {
        Some(parent) => Some(parent.to_path_buf()),
        None => None,
    }
}

/// Calls `Path::join`. The result depends on the path and the name alone,
/// so it is named: `joined`.
#[verifier::external_body]
fn join_name(dir: &std::path::PathBuf, name: &str) -> (path: std::path::PathBuf)
    ensures
        path == joined(*dir, name@),
{
    dir.join(name)
}

/// A walk in progress: the directory to look into next, and the settings
/// gathered from the directories visited before it.
#[derive(Debug)]
pub struct Walk {
    dir: std::path::PathBuf,
    gathered: Config,
}

/// What a walk asks of its caller after a directory.
#[derive(Debug)]
pub enum WalkStep {
    /// Read the settings file of this walk's directory next
    Ascend(Walk),
    /// Stop: this is the result
    Done(Result<Config, ConfigError>),
}

/// Where a walk stands after one directory, in contracts.
pub enum Step {
    /// The walk goes on in this directory with these settings
    Ascend(std::path::PathBuf, Config),
    /// The walk is over
    Done(Result<Config, ConfigFault>),
}

impl View for WalkStep {
    type V = Step;

    open spec fn view(&self) -> Step {
        match self {
            WalkStep::Ascend(walk) => Step::Ascend(walk.dir(), walk.gathered()),
            WalkStep::Done(result) => Step::Done(result_view(*result)),
        }
    }
}

/// The rule of one step of a walk that stands in `dir`: what the directory
/// holds is taken in; where that does not end the walk, it goes on in the
/// parent directory, and ends with what it has gathered where there is
/// none.
pub open spec fn step_spec(dir: std::path::PathBuf, gathered: Config, outcome: ReadOutcome) -> Step {
    match visit_spec(gathered, outcome) {
        Visit::Done(result) => Step::Done(result),
        Visit::Ascend(next) => match parent_of(dir) {
            Some(parent) => Step::Ascend(parent, next),
            None => Step::Done(Ok(next)),
        },
    }
}

impl Walk {
    /// The directory that the walk looks into next.
    pub closed spec fn dir(self) -> std::path::PathBuf {
        self.dir
    }

    /// The settings gathered so far.
    pub closed spec fn gathered(self) -> Config {
        self.gathered
    }

    /// A walk that starts in `dir` and has visited no directory yet.
    pub fn start(dir: std::path::PathBuf) -> (walk: Walk)
        ensures
            walk.dir() == dir,
            walk.gathered() == Config::canonical(),
    {
        Walk { dir, gathered: Config::default() }
    }

    /// The directory that the walk looks into next.
    pub fn directory(&self) -> (dir: &std::path::PathBuf)
        ensures
            *dir == self.dir(),
    {
        &self.dir
    }

    /// The file to read next: the settings file of the walk's directory.
    pub fn config_path(&self) -> (path: std::path::PathBuf)
        ensures
            path == joined(self.dir(), CONFIG_FILE_NAME@),
    {
        join_name(&self.dir, CONFIG_FILE_NAME)
    }

    /// Takes in what reading `config_path` gave, and moves to the parent
    /// directory or ends the walk.
    pub fn visit(self, outcome: ReadOutcome) -> (step: WalkStep)
        ensures
            step@ == step_spec(self.dir(), self.gathered(), outcome),
    {
        match self.gathered.absorb(outcome) {
            Visited::Done(result) => WalkStep::Done(result),
            Visited::Ascend(next) => match parent_dir(&self.dir) {
                Some(parent) => WalkStep::Ascend(Walk { dir: parent, gathered: next }),
                None => WalkStep::Done(Ok(next)),
            },
        }
    }
}

impl Config {
    /// Resolves the settings in force in a directory from what its own
    /// settings file and those of its ancestors hold, nearest first. What
    /// lies past a file that ends the walk, or past an error, is not looked
    /// at.
    pub fn resolve(outcomes: Vec<ReadOutcome>) -> (result: Result<Config, ConfigError>)
        ensures
            result_view(result) == resolved(outcomes@),
    {
        let ghost all = outcomes@;
        let mut gathered = Config::default();
        assert(all.skip(0) =~= all);
        for outcome in iter: outcomes
            invariant
                iter.seq() == all,
                resolve_from(gathered, all.skip(iter.index() as int)) == resolved(all),
        {
            proof {
                let rest = all.skip(iter.index() as int);
                assert(rest[0] == outcome);
                assert(rest.drop_first() =~= all.skip(iter.index() + 1));
            }
            match gathered.absorb(outcome) {
                Visited::Done(result) => {
                    return result;
                },
                Visited::Ascend(next) => {
                    gathered = next;
                },
            }
        }
        Ok(gathered)
    }
}

/// Whether a walk goes past a directory with this outcome: there is no
/// file, or the file's settings say that the search goes on.
pub open spec fn goes_on(outcome: ReadOutcome) -> bool {
    match outcome {
        ReadOutcome::NotFound => true,
        ReadOutcome::Failed(_) => false,
        ReadOutcome::Found(text) => match config_of_text(text@) {
            Ok(parsed) => parsed.inherit,
            Err(_) => false,
        },
    }
}

/// Whether the directory has no settings file.
pub open spec fn is_absent(outcome: ReadOutcome) -> bool {
    outcome is NotFound
}

/// Directories without a settings file leave what was gathered as it is.
pub proof fn lemma_absent_changes_nothing(gathered: Config, outcomes: Seq<ReadOutcome>)
    requires
        forall|i: int| 0 <= i < outcomes.len() ==> is_absent(#[trigger] outcomes[i]),
    ensures
        resolve_from(gathered, outcomes) == Ok::<Config, ConfigFault>(gathered),
    decreases outcomes.len(),
{
    if outcomes.len() > 0 {
        assert(is_absent(outcomes[0]));
        let rest = outcomes.drop_first();
        assert forall|i: int| 0 <= i < rest.len() implies is_absent(#[trigger] rest[i]) by {
            assert(rest[i] == outcomes[i + 1]);
        }
        lemma_absent_changes_nothing(gathered, rest);
    }
}

/// Where no directory from the start to the root has a settings file, the
/// canonical settings are in force.
pub proof fn lemma_no_file_resolves_to_canonical(outcomes: Seq<ReadOutcome>)
    requires
        forall|i: int| 0 <= i < outcomes.len() ==> is_absent(#[trigger] outcomes[i]),
    ensures
        resolved(outcomes) == Ok::<Config, ConfigFault>(Config::canonical()),
{
    lemma_absent_changes_nothing(Config::canonical(), outcomes);
}

/// A walk skips the directories without a settings file that come first.
pub proof fn lemma_skip_absent(gathered: Config, outcomes: Seq<ReadOutcome>, at: int)
    requires
        0 <= at <= outcomes.len(),
        forall|i: int| 0 <= i < at ==> is_absent(#[trigger] outcomes[i]),
    ensures
        resolve_from(gathered, outcomes) == resolve_from(gathered, outcomes.skip(at)),
    decreases at,
{
    if at == 0 {
        assert(outcomes.skip(0) =~= outcomes);
    } else {
        assert(is_absent(outcomes[0]));
        let rest = outcomes.drop_first();
        assert forall|i: int| 0 <= i < at - 1 implies is_absent(#[trigger] rest[i]) by {
            assert(rest[i] == outcomes[i + 1]);
        }
        lemma_skip_absent(gathered, rest, at - 1);
        assert(rest.skip(at - 1) =~= outcomes.skip(at));
    }
}

/// Where exactly one directory on the way has a settings file, the walk
/// gives what parsing that file alone gives: its settings, or its error.
pub proof fn lemma_single_file(outcomes: Seq<ReadOutcome>, at: int, text: String)
    requires
        0 <= at < outcomes.len(),
        outcomes[at] == ReadOutcome::Found(text),
        forall|i: int| 0 <= i < outcomes.len() && i != at ==> is_absent(#[trigger] outcomes[i]),
    ensures
        resolved(outcomes) == match config_of_text(text@) {
            Ok(parsed) => Ok::<Config, ConfigFault>(parsed),
            Err(fault) => Err::<Config, ConfigFault>(ConfigFault::InvalidToml(fault)),
        },
{
    let from_file = outcomes.skip(at);
    lemma_skip_absent(Config::canonical(), outcomes, at);
    assert(from_file[0] == outcomes[at]);
    let rest = from_file.drop_first();
    assert forall|i: int| 0 <= i < rest.len() implies is_absent(#[trigger] rest[i]) by {
        assert(rest[i] == outcomes[at + 1 + i]);
    }
    match config_of_text(text@) {
        Ok(parsed) => {
            lemma_canonical_merged(parsed);
            lemma_absent_changes_nothing(Config::canonical().merged(parsed), rest);
        },
        Err(_) => {},
    }
}

/// A level that has been gathered stays: nothing found farther up
/// replaces it.
pub proof fn lemma_gathered_level_stays(gathered: Config, outcomes: Seq<ReadOutcome>)
    requires
        gathered.log.level is Some,
    ensures
        resolve_from(gathered, outcomes) matches Ok(config) ==> config.log.level
            == gathered.log.level,
    decreases outcomes.len(),
{
    if outcomes.len() > 0 {
        match visit_spec(gathered, outcomes[0]) {
            Visit::Done(_) => {},
            Visit::Ascend(next) => {
                lemma_gathered_level_stays(next, outcomes.drop_first());
            },
        }
    }
}

/// Closer wins: where the first settings file on the way sets a level, a
/// walk that succeeds gives that level, whatever the files above it say.
pub proof fn lemma_closer_level_wins(
    outcomes: Seq<ReadOutcome>,
    at: int,
    text: String,
    level: crate::logging::LogLevel,
)
    requires
        0 <= at < outcomes.len(),
        forall|i: int| 0 <= i < at ==> is_absent(#[trigger] outcomes[i]),
        outcomes[at] == ReadOutcome::Found(text),
        config_of_text(text@) matches Ok(parsed) && parsed.log.level == Some(level),
    ensures
        resolved(outcomes) matches Ok(config) ==> config.log.level == Some(level),
{
    let from_file = outcomes.skip(at);
    lemma_skip_absent(Config::canonical(), outcomes, at);
    assert(from_file[0] == outcomes[at]);
    let parsed = config_of_text(text@)->Ok_0;
    if parsed.inherit {
        lemma_gathered_level_stays(Config::canonical().merged(parsed), from_file.drop_first());
    }
}

/// A walk that ends at a directory never looks at the ones above it: the
/// result is that of the walk cut off after this directory.
pub proof fn lemma_nothing_read_past_end(gathered: Config, outcomes: Seq<ReadOutcome>, at: int)
    requires
        0 <= at < outcomes.len(),
        !goes_on(outcomes[at]),
    ensures
        resolve_from(gathered, outcomes) == resolve_from(gathered, outcomes.take(at + 1)),
    decreases at,
{
    let cut = outcomes.take(at + 1);
    assert(cut[0] == outcomes[0]);
    if at > 0 {
        match visit_spec(gathered, outcomes[0]) {
            Visit::Done(_) => {},
            Visit::Ascend(next) => {
                let rest = outcomes.drop_first();
                assert(rest[at - 1] == outcomes[at]);
                lemma_nothing_read_past_end(next, rest, at - 1);
                assert(rest.take(at) =~= cut.drop_first());
            },
        }
    }
}

/// Inheritance stops: where the settings file of the starting directory
/// says that the search ends there, its settings are the result, and no
/// ancestor has a say.
pub proof fn lemma_stop_at_start(outcomes: Seq<ReadOutcome>, text: String)
    requires
        outcomes.len() > 0,
        outcomes[0] == ReadOutcome::Found(text),
        config_of_text(text@) matches Ok(parsed) && !parsed.inherit,
    ensures
        resolved(outcomes) == Ok::<Config, ConfigFault>(config_of_text(text@)->Ok_0),
{
}

/// A walk over directories that all let it pass reaches what lies behind
/// them, with some settings gathered on the way.
pub proof fn lemma_reaches(gathered: Config, outcomes: Seq<ReadOutcome>, at: int) -> (reached:
    Config)
    requires
        0 <= at <= outcomes.len(),
        forall|i: int| 0 <= i < at ==> goes_on(#[trigger] outcomes[i]),
    ensures
        resolve_from(gathered, outcomes) == resolve_from(reached, outcomes.skip(at)),
    decreases at,
{
    if at == 0 {
        assert(outcomes.skip(0) =~= outcomes);
        gathered
    } else {
        assert(goes_on(outcomes[0]));
        let rest = outcomes.drop_first();
        assert forall|i: int| 0 <= i < at - 1 implies goes_on(#[trigger] rest[i]) by {
            assert(rest[i] == outcomes[i + 1]);
        }
        let next = visit_spec(gathered, outcomes[0])->Ascend_0;
        let reached = lemma_reaches(next, rest, at - 1);
        assert(rest.skip(at - 1) =~= outcomes.skip(at));
        reached
    }
}

/// A settings file that is reached and refused fails the walk with the
/// file's own error, whatever the files below it gave and whatever lies
/// above it.
pub proof fn lemma_refused_file_fails(outcomes: Seq<ReadOutcome>, at: int, text: String)
    requires
        0 <= at < outcomes.len(),
        forall|i: int| 0 <= i < at ==> goes_on(#[trigger] outcomes[i]),
        outcomes[at] == ReadOutcome::Found(text),
        config_of_text(text@) is Err,
    ensures
        resolved(outcomes) == Err::<Config, ConfigFault>(
            ConfigFault::InvalidToml(config_of_text(text@)->Err_0),
        ),
{
    let reached = lemma_reaches(Config::canonical(), outcomes, at);
    assert(outcomes.skip(at)[0] == outcomes[at]);
}

/// A settings file that is reached and cannot be read fails the walk with
/// that very error.
pub proof fn lemma_unreadable_file_fails(
    outcomes: Seq<ReadOutcome>,
    at: int,
    error: std::io::Error,
)
    requires
        0 <= at < outcomes.len(),
        forall|i: int| 0 <= i < at ==> goes_on(#[trigger] outcomes[i]),
        outcomes[at] == ReadOutcome::Failed(error),
    ensures
        resolved(outcomes) == Err::<Config, ConfigFault>(ConfigFault::IoError(error)),
{
    let reached = lemma_reaches(Config::canonical(), outcomes, at);
    assert(outcomes.skip(at)[0] == outcomes[at]);
}

/// The result depends on what the directories hold and on nothing else:
/// two walks over the same findings end alike.
pub proof fn lemma_resolution_repeats(first: Seq<ReadOutcome>, second: Seq<ReadOutcome>)
    requires
        first.len() == second.len(),
        forall|i: int| 0 <= i < first.len() ==> first[i] == second[i],
    ensures
        resolved(first) == resolved(second),
{
    assert(first =~= second);
}

/// Whether a directory has exactly `above` directories above it, up to
/// the one that has no parent.
pub open spec fn has_ancestors(dir: std::path::PathBuf, above: nat) -> bool
    decreases above,
{
    match parent_of(dir) {
        None => above == 0,
        Some(parent) => above > 0 && has_ancestors(parent, (above - 1) as nat),
    }
}

/// The result of a walk that stands in `dir`, has gathered `gathered`, and
/// is told step by step what the directories before it hold, nearest
/// first.
pub open spec fn walked(dir: std::path::PathBuf, gathered: Config, outcomes: Seq<ReadOutcome>) -> Result<
    Config,
    ConfigFault,
>
    decreases outcomes.len(),
{
    if outcomes.len() == 0 {
        Ok(gathered)
    } else {
        match step_spec(dir, gathered, outcomes[0]) {
            Step::Done(result) => result,
            Step::Ascend(parent, next) => walked(parent, next, outcomes.drop_first()),
        }
    }
}

/// A walk that is told, step by step, what its directory and each
/// directory above it holds, ends no later than at the root, and with the
/// settings in force there.
pub proof fn lemma_walk_resolves(
    dir: std::path::PathBuf,
    gathered: Config,
    outcomes: Seq<ReadOutcome>,
)
    requires
        outcomes.len() > 0,
        has_ancestors(dir, (outcomes.len() - 1) as nat),
    ensures
        walked(dir, gathered, outcomes) == resolve_from(gathered, outcomes),
    decreases outcomes.len(),
{
    match visit_spec(gathered, outcomes[0]) {
        Visit::Done(_) => {},
        Visit::Ascend(next) => match parent_of(dir) {
            Some(parent) => {
                lemma_walk_resolves(parent, next, outcomes.drop_first());
            },
            None => {
                assert(outcomes.drop_first().len() == 0);
            },
        },
    }
}

} // verus!
