//! The directories that the application keeps its files in.

use std::path::PathBuf;
use vstd::prelude::*;

verus! {

/// `dirs::config_dir` asks the system for the user's configuration directory.
/// What it returns depends on the machine and the environment, and nothing is
/// claimed of it.
pub assume_specification[ dirs::config_dir ]() -> Option<PathBuf>;

/// `dirs::cache_dir` asks the system for the user's cache directory. What it
/// returns depends on the machine and the environment, and nothing is claimed
/// of it.
pub assume_specification[ dirs::cache_dir ]() -> Option<PathBuf>;

/// `dirs::data_dir` asks the system for the user's data directory. What it
/// returns depends on the machine and the environment, and nothing is claimed
/// of it.
pub assume_specification[ dirs::data_dir ]() -> Option<PathBuf>;

/// A platform with conventions of its own.
#[derive(Clone, Copy, Debug, PartialEq, Eq)]
pub enum Platform {
    Linux,
    Windows,
}

/// The directory that an application directory lies in.
#[derive(Debug)]
pub enum DirBase {
    /// The one that the system names.
    Known(PathBuf),
    /// A fixed one, where the system names none.
    Fallback(&'static str),
}

/// A directory of the application.
#[derive(Debug)]
pub struct AppDir {
    pub base: DirBase,
    /// Where it lies under the base.
    pub relative: &'static str,
}

impl AppDir {
    /// This is `relative` under the directory that the system names, or under
    /// `fallback` where it names none.
    pub open spec fn lies_in(
        self,
        known: Option<PathBuf>,
        fallback: Seq<char>,
        relative: Seq<char>,
    ) -> bool {
        &&& match (self.base, known) {
            (DirBase::Known(base), Some(path)) => base == path,
            (DirBase::Fallback(base), None) => base@ == fallback,
            _ => false,
        }
        &&& self.relative@ == relative
    }
}

/// The first of two directories that the system names.
pub open spec fn first_known(preferred: Option<PathBuf>, other: Option<PathBuf>) -> Option<
    PathBuf,
> {
    match preferred {
        Some(path) => Some(path),
        None => other,
    }
}

/// `dir` is the configuration directory, where the system names `config`.
pub open spec fn is_config_dir(dir: AppDir, platform: Platform, config: Option<PathBuf>) -> bool {
    match platform {
        Platform::Linux => dir.lies_in(config, ".config"@, "xearthlayer"@),
        Platform::Windows => dir.lies_in(config, "C:\\Users\\AppData\\Local"@, "xearthlayer"@),
    }
}

/// `dir` is the cache directory, where the system names `cache` and `config`.
pub open spec fn is_cache_dir(
    dir: AppDir,
    platform: Platform,
    cache: Option<PathBuf>,
    config: Option<PathBuf>,
) -> bool {
    match platform {
        Platform::Linux => dir.lies_in(cache, ".cache"@, "xearthlayer"@),
        Platform::Windows => dir.lies_in(
            first_known(cache, config),
            "C:\\Users\\AppData\\Local"@,
            "xearthlayer\\cache"@,
        ),
    }
}

/// `dir` is the data directory, where the system names `data` and `config`.
pub open spec fn is_app_data_dir(
    dir: AppDir,
    platform: Platform,
    data: Option<PathBuf>,
    config: Option<PathBuf>,
) -> bool {
    match platform {
        Platform::Linux => dir.lies_in(data, ".local/share"@, "xearthlayer"@),
        Platform::Windows => dir.lies_in(
            first_known(data, config),
            "C:\\Users\\AppData\\Local"@,
            "xearthlayer"@,
        ),
    }
}

/// The directory that the system names, or `fallback` where it names none.
fn base_or(known: Option<PathBuf>, fallback: &'static str) -> (r: DirBase)
    ensures
        match known {
            Some(path) => r == DirBase::Known(path),
            None => r matches DirBase::Fallback(base) && base@ == fallback@,
        },
{
    match known {
        Some(path) => DirBase::Known(path),
        None => DirBase::Fallback(fallback),
    }
}

/// The configuration directory, where the system names `config`.
pub fn config_dir_in(platform: Platform, config: Option<PathBuf>) -> (r: AppDir)
    ensures
        is_config_dir(r, platform, config),
{
    match platform {
        Platform::Linux => AppDir { base: base_or(config, ".config"), relative: "xearthlayer" },
        Platform::Windows => AppDir {
            base: base_or(config, "C:\\Users\\AppData\\Local"),
            relative: "xearthlayer",
        },
    }
}

/// The cache directory, where the system names `cache` and `config`.
pub fn cache_dir_in(platform: Platform, cache: Option<PathBuf>, config: Option<PathBuf>) -> (r:
    AppDir)
    ensures
        is_cache_dir(r, platform, cache, config),
{
    match platform {
        Platform::Linux => AppDir { base: base_or(cache, ".cache"), relative: "xearthlayer" },
        Platform::Windows => AppDir {
            base: match cache {
                Some(path) => DirBase::Known(path),
                None => base_or(config, "C:\\Users\\AppData\\Local"),
            },
            relative: "xearthlayer\\cache",
        },
    }
}

/// The data directory, where the system names `data` and `config`.
pub fn app_data_dir_in(platform: Platform, data: Option<PathBuf>, config: Option<PathBuf>) -> (r:
    AppDir)
    ensures
        is_app_data_dir(r, platform, data, config),
{
    match platform {
        Platform::Linux => AppDir { base: base_or(data, ".local/share"), relative: "xearthlayer" },
        Platform::Windows => AppDir {
            base: match data {
                Some(path) => DirBase::Known(path),
                None => base_or(config, "C:\\Users\\AppData\\Local"),
            },
            relative: "xearthlayer",
        },
    }
}

/// The configuration directory.
pub fn config_dir(platform: Platform) -> (r: AppDir)
    ensures
        exists|config: Option<PathBuf>|
            call_ensures(dirs::config_dir, (), config) && #[trigger] is_config_dir(
                r,
                platform,
                config,
            ),
{
    config_dir_in(platform, dirs::config_dir())
}

/// The cache directory.
pub fn cache_dir(platform: Platform) -> (r: AppDir)
    ensures
        exists|cache: Option<PathBuf>, config: Option<PathBuf>|
            {
                &&& call_ensures(dirs::cache_dir, (), cache)
                &&& call_ensures(dirs::config_dir, (), config)
                &&& #[trigger] is_cache_dir(r, platform, cache, config)
            },
{
    let cache = dirs::cache_dir();
    let config = dirs::config_dir();
    cache_dir_in(platform, cache, config)
}

/// The data directory.
pub fn app_data_dir(platform: Platform) -> (r: AppDir)
    ensures
        exists|data: Option<PathBuf>, config: Option<PathBuf>|
            {
                &&& call_ensures(dirs::data_dir, (), data)
                &&& call_ensures(dirs::config_dir, (), config)
                &&& #[trigger] is_app_data_dir(r, platform, data, config)
            },
{
    let data = dirs::data_dir();
    let config = dirs::config_dir();
    app_data_dir_in(platform, data, config)
}

/// How far the creation of the directories has come.
#[derive(Debug)]
pub enum DirectoryStep {
    /// The directory with this number is to be created, with its parents.
    Create(usize),
    /// Nothing is left to create.
    Finished(std::io::Result<()>),
}

/// The creation of the directories that have to exist, under way.
#[derive(Debug)]
pub struct DirectoryCreation {
    /// The directories, in the order in which they are created.
    pub dirs: Vec<AppDir>,
    pub step: DirectoryStep,
}

/// The step after `step`, of `total` directories, where creating the directory
/// had this outcome. The first failure ends the work.
pub open spec fn step_after(
    total: nat,
    step: DirectoryStep,
    outcome: std::io::Result<()>,
) -> DirectoryStep {
    match step {
        DirectoryStep::Create(n) => match outcome {
            Ok(_) => if n + 1 < total {
                DirectoryStep::Create((n + 1) as usize)
            } else {
                DirectoryStep::Finished(Ok(()))
            },
            Err(error) => DirectoryStep::Finished(Err(error)),
        },
        DirectoryStep::Finished(result) => DirectoryStep::Finished(result),
    }
}

/// The step once as many directories of `total` were tried as there are
/// outcomes.
pub open spec fn steps_after(total: nat, outcomes: Seq<std::io::Result<()>>) -> DirectoryStep
    decreases outcomes.len(),
{
    if outcomes.len() == 0 {
        DirectoryStep::Create(0)
    } else {
        step_after(total, steps_after(total, outcomes.drop_last()), outcomes.last())
    }
}

impl DirectoryCreation {
    /// The directory to create next is one of those that have to exist.
    pub open spec fn valid(self) -> bool {
        self.step matches DirectoryStep::Create(n) ==> n < self.dirs@.len()
    }

    /// The directory to create next, with its parents, while there is one.
    pub fn next_dir(&self) -> (r: Option<&AppDir>)
        requires
            self.valid(),
        ensures
            match self.step {
                DirectoryStep::Create(n) => r == Some(&self.dirs@[n as int]),
                DirectoryStep::Finished(_) => r is None,
            },
    {
        match self.step {
            DirectoryStep::Create(n) => Some(&self.dirs[n]),
            DirectoryStep::Finished(_) => None,
        }
    }

    /// Takes note of what came of creating that directory.
    pub fn observe(&mut self, outcome: std::io::Result<()>)
        requires
            old(self).valid(),
        ensures
            final(self).valid(),
            final(self).dirs == old(self).dirs,
            final(self).step == step_after(old(self).dirs@.len(), old(self).step, outcome),
    {
        let total: usize = self.dirs.len();
        if let DirectoryStep::Create(n) = self.step {
            self.step = match outcome {
                Ok(_) => if n < total - 1 {
                    DirectoryStep::Create(n + 1)
                } else {
                    DirectoryStep::Finished(Ok(()))
                },
                Err(error) => DirectoryStep::Finished(Err(error)),
            };
        }
    }

    /// What came of it all, once nothing is left to create.
    pub fn result(self) -> (r: Option<std::io::Result<()>>)
        ensures
            r == (match self.step {
                DirectoryStep::Create(_) => None,
                DirectoryStep::Finished(result) => Some(result),
            }),
    {
        match self.step {
            DirectoryStep::Create(_) => None,
            DirectoryStep::Finished(result) => Some(result),
        }
    }
}

/// Begins to create the directories that have to exist: the configuration
/// directory, the cache directory and the data directory, in this order.
///
/// The system names `config`, `cache` and `data`. For the cache directory and
/// for the data directory it is asked for the configuration directory once
/// more, and names `cache_config` and `data_config`.
pub fn ensure_directories_in(
    platform: Platform,
    config: Option<PathBuf>,
    cache: Option<PathBuf>,
    cache_config: Option<PathBuf>,
    data: Option<PathBuf>,
    data_config: Option<PathBuf>,
) -> (r: DirectoryCreation)
    ensures
        r.valid(),
        r.step == steps_after(3, Seq::empty()),
        r.dirs@.len() == 3,
        is_config_dir(r.dirs@[0], platform, config),
        is_cache_dir(r.dirs@[1], platform, cache, cache_config),
        is_app_data_dir(r.dirs@[2], platform, data, data_config),
{
    let mut dirs: Vec<AppDir> = Vec::new();
    dirs.push(config_dir_in(platform, config));
    dirs.push(cache_dir_in(platform, cache, cache_config));
    dirs.push(app_data_dir_in(platform, data, data_config));
    DirectoryCreation { dirs, step: DirectoryStep::Create(0) }
}

/// Begins to create the directories that have to exist: the configuration
/// directory, the cache directory and the data directory, in this order.
pub fn ensure_directories(platform: Platform) -> (r: DirectoryCreation)
    ensures
        r.valid(),
        r.step == steps_after(3, Seq::empty()),
        r.dirs@.len() == 3,
        exists|config: Option<PathBuf>|
            call_ensures(dirs::config_dir, (), config) && #[trigger] is_config_dir(
                r.dirs@[0],
                platform,
                config,
            ),
        exists|cache: Option<PathBuf>, config: Option<PathBuf>|
            {
                &&& call_ensures(dirs::cache_dir, (), cache)
                &&& call_ensures(dirs::config_dir, (), config)
                &&& #[trigger] is_cache_dir(r.dirs@[1], platform, cache, config)
            },
        exists|data: Option<PathBuf>, config: Option<PathBuf>|
            {
                &&& call_ensures(dirs::data_dir, (), data)
                &&& call_ensures(dirs::config_dir, (), config)
                &&& #[trigger] is_app_data_dir(r.dirs@[2], platform, data, config)
            },
{
    let config = dirs::config_dir();
    let cache = dirs::cache_dir();
    let cache_config = dirs::config_dir();
    let data = dirs::data_dir();
    let data_config = dirs::config_dir();
    ensure_directories_in(platform, config, cache, cache_config, data, data_config)
}

/// As long as every directory could be created, the next one is tried, and
/// once all of them could, that is the result.
pub proof fn law_every_directory_is_created(total: usize, outcomes: Seq<std::io::Result<()>>)
    requires
        0 < total,
        outcomes.len() <= total,
        forall|i: int| 0 <= i < outcomes.len() ==> (#[trigger] outcomes[i]) is Ok,
    ensures
        steps_after(total as nat, outcomes) == if outcomes.len() < total {
            DirectoryStep::Create(outcomes.len() as usize)
        } else {
            DirectoryStep::Finished(Ok(()))
        },
    decreases outcomes.len(),
{
    if outcomes.len() > 0 {
        assert forall|i: int| 0 <= i < outcomes.drop_last().len() implies (
        #[trigger] outcomes.drop_last()[i]) is Ok by {
            assert(outcomes.drop_last()[i] == outcomes[i]);
        }
        law_every_directory_is_created(total, outcomes.drop_last());
        assert(outcomes.last() is Ok);
    }
}

/// The first failure ends the work: its error is the result, whatever might
/// have come of the directories after it, and none of them is tried.
pub proof fn law_first_failure_ends_creation(
    total: usize,
    outcomes: Seq<std::io::Result<()>>,
    failed: int,
)
    requires
        0 <= failed < outcomes.len(),
        failed < total,
        outcomes[failed] is Err,
        forall|i: int| 0 <= i < failed ==> (#[trigger] outcomes[i]) is Ok,
    ensures
        steps_after(total as nat, outcomes.take(failed)) == DirectoryStep::Create(failed as usize),
        steps_after(total as nat, outcomes) == DirectoryStep::Finished(outcomes[failed]),
    decreases outcomes.len(),
{
    assert forall|i: int| 0 <= i < outcomes.take(failed).len() implies (
    #[trigger] outcomes.take(failed)[i]) is Ok by {
        assert(outcomes.take(failed)[i] == outcomes[i]);
    }
    law_every_directory_is_created(total, outcomes.take(failed));
    if failed == outcomes.len() - 1 {
        assert(outcomes.drop_last() == outcomes.take(failed));
    } else {
        law_first_failure_ends_creation(total, outcomes.drop_last(), failed);
    }
}

/// Success means that every directory could be created.
pub proof fn law_success_means_all_created(
    total: usize,
    outcomes: Seq<std::io::Result<()>>,
    n: int,
)
    requires
        steps_after(total as nat, outcomes) == DirectoryStep::Finished(Ok(())),
        0 <= n < total,
    ensures
        n < outcomes.len(),
        outcomes[n] is Ok,
    decreases outcomes.len(),
{
    let before = outcomes.drop_last();
    lemma_step_number(total, outcomes);
    if outcomes.len() > 0 {
        lemma_step_number(total, before);
        if steps_after(total as nat, before) is Finished {
            law_success_means_all_created(total, before, n);
        } else if n < before.len() {
            assert(before[n] == outcomes[n]);
        }
    }
}

/// A directory is next only where all before it could be created.
proof fn lemma_step_number(total: usize, outcomes: Seq<std::io::Result<()>>)
    requires
        0 < total,
    ensures
        steps_after(total as nat, outcomes) matches DirectoryStep::Create(n) ==> n < total && n
            == outcomes.len() && forall|i: int| 0 <= i < n ==> (#[trigger] outcomes[i]) is Ok,
    decreases outcomes.len(),
{
    if outcomes.len() > 0 {
        lemma_step_number(total, outcomes.drop_last());
        assert(forall|i: int|
            0 <= i < outcomes.len() - 1 ==> #[trigger] outcomes[i] == outcomes.drop_last()[i]);
    }
}

/// On Windows, where the system names neither a cache nor a data directory,
/// both lie where the configuration directory does, and the cache in a
/// directory of its own.
pub proof fn law_windows_falls_back_to_config(
    dir: AppDir,
    cache: AppDir,
    data: AppDir,
    config: Option<PathBuf>,
)
    requires
        is_config_dir(dir, Platform::Windows, config),
        is_cache_dir(cache, Platform::Windows, None, config),
        is_app_data_dir(data, Platform::Windows, None, config),
    ensures
        match (dir.base, cache.base, data.base) {
            (DirBase::Known(a), DirBase::Known(b), DirBase::Known(c)) => a == b && b == c,
            (DirBase::Fallback(a), DirBase::Fallback(b), DirBase::Fallback(c)) => a@ == b@ && b@
                == c@,
            _ => false,
        },
        data.relative@ == dir.relative@,
        cache.relative@ != dir.relative@,
{
    reveal_strlit("xearthlayer");
    reveal_strlit("xearthlayer\\cache");
    assert(cache.relative@.len() != dir.relative@.len());
}

/// A cache or data directory that the system names decides, whatever the
/// configuration directory is.
pub proof fn law_named_directories_decide(
    dir: AppDir,
    platform: Platform,
    named: PathBuf,
    config: Option<PathBuf>,
    other: Option<PathBuf>,
)
    ensures
        is_cache_dir(dir, platform, Some(named), config) <==> is_cache_dir(
            dir,
            platform,
            Some(named),
            other,
        ),
        is_app_data_dir(dir, platform, Some(named), config) <==> is_app_data_dir(
            dir,
            platform,
            Some(named),
            other,
        ),
        is_cache_dir(dir, platform, Some(named), config) ==> dir.base == DirBase::Known(named),
        is_app_data_dir(dir, platform, Some(named), config) ==> dir.base == DirBase::Known(named),
{
}

/// Where the directories lie where the system names one to put them in: there,
/// under the application's name, and on Windows the cache in a directory below
/// that.
pub proof fn law_named_directories_are_used(dir: AppDir, named: PathBuf, config: Option<PathBuf>)
    ensures
        is_config_dir(dir, Platform::Linux, Some(named)) <==> dir.base == DirBase::Known(named)
            && dir.relative@ == "xearthlayer"@,
        is_config_dir(dir, Platform::Windows, Some(named)) <==> dir.base == DirBase::Known(named)
            && dir.relative@ == "xearthlayer"@,
        is_cache_dir(dir, Platform::Linux, Some(named), config) <==> dir.base == DirBase::Known(
            named,
        ) && dir.relative@ == "xearthlayer"@,
        is_cache_dir(dir, Platform::Windows, Some(named), config) <==> dir.base == DirBase::Known(
            named,
        ) && dir.relative@ == "xearthlayer\\cache"@,
        is_app_data_dir(dir, Platform::Linux, Some(named), config) <==> dir.base == DirBase::Known(
            named,
        ) && dir.relative@ == "xearthlayer"@,
        is_app_data_dir(dir, Platform::Windows, Some(named), config) <==> dir.base
            == DirBase::Known(named) && dir.relative@ == "xearthlayer"@,
{
}

/// Where the directories lie where the system names none for them: on Linux in
/// a fixed place for each, whatever the configuration directory is, and on
/// Windows where the configuration directory is named to be, or else in one
/// fixed place for all.
pub proof fn law_unnamed_directories_have_a_place(
    dir: AppDir,
    config: Option<PathBuf>,
    named: PathBuf,
)
    ensures
        is_config_dir(dir, Platform::Linux, None) <==> (dir.base matches DirBase::Fallback(base)
            && base@ == ".config"@) && dir.relative@ == "xearthlayer"@,
        is_cache_dir(dir, Platform::Linux, None, config) <==> (
        dir.base matches DirBase::Fallback(base) && base@ == ".cache"@) && dir.relative@
            == "xearthlayer"@,
        is_app_data_dir(dir, Platform::Linux, None, config) <==> (
        dir.base matches DirBase::Fallback(base) && base@ == ".local/share"@) && dir.relative@
            == "xearthlayer"@,
        is_config_dir(dir, Platform::Windows, None) <==> (dir.base matches DirBase::Fallback(base)
            && base@ == "C:\\Users\\AppData\\Local"@) && dir.relative@ == "xearthlayer"@,
        is_cache_dir(dir, Platform::Windows, None, None) <==> (
        dir.base matches DirBase::Fallback(base) && base@ == "C:\\Users\\AppData\\Local"@)
            && dir.relative@ == "xearthlayer\\cache"@,
        is_app_data_dir(dir, Platform::Windows, None, None) <==> (
        dir.base matches DirBase::Fallback(base) && base@ == "C:\\Users\\AppData\\Local"@)
            && dir.relative@ == "xearthlayer"@,
        is_cache_dir(dir, Platform::Windows, None, Some(named)) <==> dir.base == DirBase::Known(
            named,
        ) && dir.relative@ == "xearthlayer\\cache"@,
        is_app_data_dir(dir, Platform::Windows, None, Some(named)) <==> dir.base == DirBase::Known(
            named,
        ) && dir.relative@ == "xearthlayer"@,
{
}

/// A creation that is over stays as it ended, whatever is tried after.
pub proof fn law_creation_ends_once(
    total: nat,
    outcomes: Seq<std::io::Result<()>>,
    outcome: std::io::Result<()>,
)
    requires
        steps_after(total, outcomes) is Finished,
    ensures
        steps_after(total, outcomes.push(outcome)) == steps_after(total, outcomes),
{
    assert(outcomes.push(outcome).drop_last() == outcomes);
}

} // verus!
