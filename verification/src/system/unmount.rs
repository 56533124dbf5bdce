//! Unmounting FUSE file systems.
//!
//! Linux unmounts with `fusermount3` or `fusermount`, macOS with the BSD
//! `umount`. The commands are run by the application; what to run, what its
//! outcome means and which mounts need it is decided here.

use vstd::prelude::*;
use vstd::string::StrSliceExecFns;

verus! {

/// What a platform unmounts with.
#[derive(Clone, Copy, Debug, PartialEq, Eq)]
pub enum UnmountTool {
    /// `fusermount3`, and `fusermount` where that fails.
    Fusermount,
    /// `umount`.
    Umount,
}

/// A program that unmounts.
#[derive(Clone, Copy, Debug, PartialEq, Eq)]
pub enum UnmountProgram {
    Fusermount3,
    Fusermount,
    Umount,
}

impl UnmountProgram {
    /// The name that the program is run by.
    pub fn name(&self) -> (r: &'static str)
        ensures
            r@ == (match self {
                UnmountProgram::Fusermount3 => "fusermount3"@,
                UnmountProgram::Fusermount => "fusermount"@,
                UnmountProgram::Umount => "umount"@,
            }),
    {
        match self {
            UnmountProgram::Fusermount3 => "fusermount3",
            UnmountProgram::Fusermount => "fusermount",
            UnmountProgram::Umount => "umount",
        }
    }
}

/// How hard a program is to try.
#[derive(Clone, Copy, Debug, PartialEq, Eq)]
pub enum UnmountFlag {
    /// Unmount, unless the mount is busy.
    Unmount,
    /// Detach now, and clean up when idle.
    UnmountLazily,
    /// Force.
    Force,
}

impl UnmountFlag {
    /// The flag as it stands on the command line, before the mount point.
    pub fn text(&self) -> (r: &'static str)
        ensures
            r@ == (match self {
                UnmountFlag::Unmount => "-u"@,
                UnmountFlag::UnmountLazily => "-uz"@,
                UnmountFlag::Force => "-f"@,
            }),
    {
        match self {
            UnmountFlag::Unmount => "-u",
            UnmountFlag::UnmountLazily => "-uz",
            UnmountFlag::Force => "-f",
        }
    }
}

/// A command that unmounts; the mount point is its last argument.
#[derive(Clone, Copy, Debug, PartialEq, Eq)]
pub struct UnmountCommand {
    pub program: UnmountProgram,
    pub flag: UnmountFlag,
}

/// What came of running a command.
#[derive(Debug)]
pub enum CommandOutcome {
    /// It ran, and wrote this to its standard error.
    Exited { success: bool, stderr: Vec<u8> },
    /// It could not be run.
    NotRun,
}

/// `phrase` stands at position `at` of `bytes`.
pub open spec fn stands_at(bytes: Seq<u8>, phrase: Seq<char>, at: int) -> bool {
    &&& 0 <= at
    &&& at + phrase.len() <= bytes.len()
    &&& forall|i: int|
        0 <= i < phrase.len() ==> bytes[at + i] as int == (#[trigger] phrase[i]) as int
}

/// `phrase`, which is ASCII, stands somewhere in `bytes`. It then stands in the
/// text that they are read as, too, whether they are valid UTF-8 or not.
pub open spec fn says(bytes: Seq<u8>, phrase: Seq<char>) -> bool {
    exists|at: int| stands_at(bytes, phrase, at)
}

/// What a command writes where nothing is mounted.
pub open spec fn says_unmounted(stderr: Seq<u8>) -> bool {
    ||| says(stderr, "not mounted"@)
    ||| says(stderr, "not currently mounted"@)
    ||| says(stderr, "not found"@)
}

/// Nothing is mounted after a command with this outcome: it succeeded, or
/// found nothing to unmount.
pub open spec fn leaves_unmounted(outcome: CommandOutcome) -> bool {
    match outcome {
        CommandOutcome::Exited { success, stderr } => success || says_unmounted(stderr@),
        CommandOutcome::NotRun => false,
    }
}

/// Whether `phrase`, which is ASCII, stands somewhere in `bytes`.
fn find_phrase(bytes: &[u8], phrase: &str) -> (r: bool)
    requires
        phrase@.len() > 0,
    ensures
        r == says(bytes@, phrase@),
{
    let len: usize = bytes.len();
    let wanted: usize = phrase.unicode_len();
    if wanted > len {
        return false;
    }
    let mut at: usize = 0;
    while at <= len - wanted
        invariant
            len == bytes@.len(),
            wanted == phrase@.len(),
            0 < wanted <= len,
            at <= len - wanted + 1,
            forall|before: int| before < at ==> !stands_at(bytes@, phrase@, before),
        decreases len - at + 1,
    {
        let mut matched: usize = 0;
        while matched < wanted && bytes[at + matched] as u32 == phrase.get_char(matched) as u32
            invariant
                len == bytes@.len(),
                wanted == phrase@.len(),
                matched <= wanted,
                at + wanted <= len,
                forall|i: int|
                    0 <= i < matched ==> bytes@[at + i] as int == (#[trigger] phrase@[i]) as int,
            decreases wanted - matched,
        {
            matched = matched + 1;
        }
        if matched == wanted {
            assert(stands_at(bytes@, phrase@, at as int));
            return true;
        }
        assert(!stands_at(bytes@, phrase@, at as int)) by {
            assert(bytes@[at + matched] as int != phrase@[matched as int] as int);
        }
        at = at + 1;
    }
    false
}

/// Whether nothing is mounted after a command with this outcome. That a mount
/// was already gone counts as success.
pub fn run_unmount(outcome: &CommandOutcome) -> (r: bool)
    ensures
        r == leaves_unmounted(*outcome),
        outcome matches CommandOutcome::Exited { success, stderr } ==> (r <==> *success || says(
            stderr@,
            "not mounted"@,
        ) || says(stderr@, "not currently mounted"@) || says(stderr@, "not found"@)),
        *outcome is NotRun ==> !r,
{
    proof {
        reveal_strlit("not mounted");
        reveal_strlit("not currently mounted");
        reveal_strlit("not found");
    }
    match outcome {
        CommandOutcome::Exited { success, stderr } => *success || find_phrase(
            stderr.as_slice(),
            "not mounted",
        ) || find_phrase(stderr.as_slice(), "not currently mounted") || find_phrase(
            stderr.as_slice(),
            "not found",
        ),
        CommandOutcome::NotRun => false,
    }
}

/// How far an unmount has come.
#[derive(Clone, Copy, Debug, PartialEq, Eq)]
pub enum UnmountStage {
    /// The first command is to be run.
    First,
    /// The second command is to be run.
    Fallback,
    /// It is over; the flag says whether nothing is mounted any more.
    Done(bool),
}

/// An unmount under way.
#[derive(Clone, Copy, Debug, PartialEq, Eq)]
pub struct Unmount {
    pub tool: UnmountTool,
    pub force: bool,
    pub stage: UnmountStage,
}

/// The command to run next, while there is one. `umount` is always forced.
pub open spec fn command_of(unmount: Unmount) -> Option<UnmountCommand> {
    let flag = match unmount.tool {
        UnmountTool::Umount => UnmountFlag::Force,
        UnmountTool::Fusermount => if unmount.force {
            UnmountFlag::UnmountLazily
        } else {
            UnmountFlag::Unmount
        },
    };
    match (unmount.stage, unmount.tool) {
        (UnmountStage::First, UnmountTool::Fusermount) => Some(
            UnmountCommand { program: UnmountProgram::Fusermount3, flag },
        ),
        (UnmountStage::Fallback, UnmountTool::Fusermount) => Some(
            UnmountCommand { program: UnmountProgram::Fusermount, flag },
        ),
        (UnmountStage::First, UnmountTool::Umount) => Some(
            UnmountCommand { program: UnmountProgram::Umount, flag },
        ),
        _ => None,
    }
}

/// The stage after a command with `outcome`. Only a failed `fusermount3` is
/// followed by another command.
pub open spec fn stage_after(unmount: Unmount, outcome: CommandOutcome) -> UnmountStage {
    match (unmount.stage, unmount.tool) {
        (UnmountStage::First, UnmountTool::Fusermount) if !leaves_unmounted(outcome) =>
            UnmountStage::Fallback,
        (UnmountStage::Done(unmounted), _) => UnmountStage::Done(unmounted),
        _ => UnmountStage::Done(leaves_unmounted(outcome)),
    }
}

/// An unmount after the commands that were run had these outcomes.
pub open spec fn unmount_after(
    tool: UnmountTool,
    force: bool,
    outcomes: Seq<CommandOutcome>,
) -> Unmount
    decreases outcomes.len(),
{
    if outcomes.len() == 0 {
        Unmount { tool, force, stage: UnmountStage::First }
    } else {
        let before = unmount_after(tool, force, outcomes.drop_last());
        Unmount { stage: stage_after(before, outcomes.last()), ..before }
    }
}

/// Begins an unmount. `force` asks for the most that the platform offers.
pub fn unmount_fuse(tool: UnmountTool, force: bool) -> (r: Unmount)
    ensures
        r == unmount_after(tool, force, Seq::empty()),
        r.tool == tool,
        r.force == force,
        r.stage == UnmountStage::First,
{
    Unmount { tool, force, stage: UnmountStage::First }
}

impl Unmount {
    /// The command to run next, while there is one.
    pub fn command(&self) -> (r: Option<UnmountCommand>)
        ensures
            r == command_of(*self),
    {
        let flag = match self.tool {
            UnmountTool::Umount => UnmountFlag::Force,
            UnmountTool::Fusermount => if self.force {
                UnmountFlag::UnmountLazily
            } else {
                UnmountFlag::Unmount
            },
        };
        match (self.stage, self.tool) {
            (UnmountStage::First, UnmountTool::Fusermount) => Some(
                UnmountCommand { program: UnmountProgram::Fusermount3, flag },
            ),
            (UnmountStage::Fallback, UnmountTool::Fusermount) => Some(
                UnmountCommand { program: UnmountProgram::Fusermount, flag },
            ),
            (UnmountStage::First, UnmountTool::Umount) => Some(
                UnmountCommand { program: UnmountProgram::Umount, flag },
            ),
            _ => None,
        }
    }

    /// Takes note of what came of the command.
    pub fn observe(&mut self, outcome: &CommandOutcome)
        ensures
            *final(self) == (Unmount { stage: stage_after(*old(self), *outcome), ..*old(self) }),
    {
        let unmounted = run_unmount(outcome);
        self.stage = match (self.stage, self.tool) {
            (UnmountStage::First, UnmountTool::Fusermount) if !unmounted => UnmountStage::Fallback,
            (UnmountStage::Done(unmounted), _) => UnmountStage::Done(unmounted),
            _ => UnmountStage::Done(unmounted),
        };
    }

    /// Whether nothing is mounted any more, once the unmount is over.
    pub fn result(&self) -> (r: Option<bool>)
        ensures
            r == (match self.stage {
                UnmountStage::Done(unmounted) => Some(unmounted),
                _ => None,
            }),
    {
        match self.stage {
            UnmountStage::Done(unmounted) => Some(unmounted),
            _ => None,
        }
    }
}

/// What came of opening a mount point as a directory.
#[derive(Clone, Copy, Debug, PartialEq, Eq)]
pub enum DirectoryListing {
    /// It can be read.
    Readable,
    /// It cannot, with the operating system's error code, where there is one.
    Failed(Option<i32>),
}

/// The error codes of a mount whose daemon is dead.
#[derive(Clone, Copy, Debug, PartialEq, Eq)]
pub struct StaleCodes {
    /// macOS: "device not configured".
    pub enxio: i32,
    /// Linux: "transport endpoint is not connected".
    pub enotconn: i32,
}

/// The values that `ENXIO` has, on one platform or another.
pub open spec fn is_enxio(code: i32) -> bool {
    code == 6 || code == 30 || code == 60 || code == -2147454965 || code == 1073741830
}

/// The values that `ENOTCONN` has, on one platform or another.
pub open spec fn is_enotconn(code: i32) -> bool {
    ||| code == 53 || code == 57 || code == 76 || code == 107 || code == 126
    ||| code == 128 || code == 134 || code == 257 || code == -2147454946 || code == 1073741881
}

/// The constant `libc::ENXIO`. Its value depends on the platform that `libc`
/// is built for; it is one of those that `libc` defines.
#[verifier::external_body]
fn enxio() -> (r: i32)
    ensures
        is_enxio(r),
{
    libc::ENXIO
}

/// The constant `libc::ENOTCONN`. Its value depends on the platform that
/// `libc` is built for; it is one of those that `libc` defines.
#[verifier::external_body]
fn enotconn() -> (r: i32)
    ensures
        is_enotconn(r),
{
    libc::ENOTCONN
}

impl StaleCodes {
    /// Codes that a platform may have.
    pub open spec fn valid(self) -> bool {
        is_enxio(self.enxio) && is_enotconn(self.enotconn)
    }

    /// Codes that `libc` may give on this platform.
    pub closed spec fn are_those_of_libc(self) -> bool {
        call_ensures(enxio, (), self.enxio) && call_ensures(enotconn, (), self.enotconn)
    }

    /// An error code that tells of a dead mount.
    pub open spec fn marks(self, code: Option<i32>) -> bool {
        code == Some(self.enxio) || code == Some(self.enotconn)
    }

    /// A mount point that cannot be read because its mount is dead. One that
    /// can be read is healthy, and one that is missing is no mount at all.
    pub open spec fn finds_stale(self, listing: DirectoryListing) -> bool {
        listing matches DirectoryListing::Failed(code) && self.marks(code)
    }

    /// The codes of this platform.
    pub fn of_platform() -> (r: Self)
        ensures
            r.valid(),
            r.are_those_of_libc(),
    {
        StaleCodes { enxio: enxio(), enotconn: enotconn() }
    }

    /// Whether an error code tells of a dead mount.
    pub fn is_stale_mount_error(&self, code: Option<i32>) -> (r: bool)
        ensures
            r == self.marks(code),
    {
        match code {
            Some(code) => code == self.enxio || code == self.enotconn,
            None => false,
        }
    }

    /// Whether a mount point is that of a dead mount.
    pub fn is_stale_fuse_mount(&self, listing: &DirectoryListing) -> (r: bool)
        ensures
            r == self.finds_stale(*listing),
    {
        match listing {
            DirectoryListing::Readable => false,
            DirectoryListing::Failed(code) => self.is_stale_mount_error(*code),
        }
    }

    /// What is to be done for a mount point: nothing for a healthy one, and a
    /// forced unmount for a dead one.
    pub fn recover_stale_fuse_mount(&self, tool: UnmountTool, listing: &DirectoryListing) -> (r:
        Recovery)
        ensures
            r == recovery_after(*self, tool, *listing, Seq::empty()),
    {
        if !self.is_stale_fuse_mount(listing) {
            return Recovery::Healthy;
        }
        Recovery::Clearing(unmount_fuse(tool, true))
    }
}

/// What is done about a mount point.
#[derive(Clone, Copy, Debug, PartialEq, Eq)]
pub enum Recovery {
    /// Nothing.
    Healthy,
    /// The dead mount is unmounted.
    Clearing(Unmount),
}

/// A recovery after the commands that were run had these outcomes. Nothing is
/// run for a healthy mount point; a dead mount is unmounted by force.
pub open spec fn recovery_after(
    codes: StaleCodes,
    tool: UnmountTool,
    listing: DirectoryListing,
    outcomes: Seq<CommandOutcome>,
) -> Recovery {
    if codes.finds_stale(listing) {
        Recovery::Clearing(unmount_after(tool, true, outcomes))
    } else {
        Recovery::Healthy
    }
}

/// Whether a dead mount was found and cleared, once nothing is left to do.
pub open spec fn recovery_result(recovery: Recovery) -> Option<bool> {
    match recovery {
        Recovery::Healthy => Some(false),
        Recovery::Clearing(unmount) => match unmount.stage {
            UnmountStage::Done(cleared) => Some(cleared),
            _ => None,
        },
    }
}

impl Recovery {
    /// Whether a dead mount was found and cleared, once nothing is left to do.
    pub fn result(&self) -> (r: Option<bool>)
        ensures
            r == recovery_result(*self),
    {
        match self {
            Recovery::Healthy => Some(false),
            Recovery::Clearing(unmount) => unmount.result(),
        }
    }
}

/// Whether an error code tells of a dead mount on this platform.
pub fn is_stale_mount_error(code: Option<i32>) -> (r: bool)
    ensures
        exists|codes: StaleCodes|
            {
                &&& call_ensures(StaleCodes::of_platform, (), codes)
                &&& codes.valid()
                &&& r == #[trigger] codes.marks(code)
            },
{
    let codes = StaleCodes::of_platform();
    codes.is_stale_mount_error(code)
}

/// Whether a mount point is that of a dead mount on this platform.
pub fn is_stale_fuse_mount(listing: &DirectoryListing) -> (r: bool)
    ensures
        exists|codes: StaleCodes|
            {
                &&& call_ensures(StaleCodes::of_platform, (), codes)
                &&& codes.valid()
                &&& r == #[trigger] codes.finds_stale(*listing)
            },
{
    let codes = StaleCodes::of_platform();
    codes.is_stale_fuse_mount(listing)
}

/// What is to be done for a mount point on this platform: nothing for a
/// healthy one, and a forced unmount for a dead one.
pub fn recover_stale_fuse_mount(tool: UnmountTool, listing: &DirectoryListing) -> (r: Recovery)
    ensures
        exists|codes: StaleCodes|
            {
                &&& call_ensures(StaleCodes::of_platform, (), codes)
                &&& codes.valid()
                &&& r == #[trigger] recovery_after(codes, tool, *listing, Seq::empty())
            },
{
    let codes = StaleCodes::of_platform();
    codes.recover_stale_fuse_mount(tool, listing)
}

/// An unmount with `fusermount` is over after two commands at most, and
/// leaves nothing mounted exactly where one of those that were run says so;
/// the second is run only where the first does not.
pub proof fn law_fusermount_result(force: bool, first: CommandOutcome, second: CommandOutcome)
    ensures
        leaves_unmounted(first) ==> unmount_after(
            UnmountTool::Fusermount,
            force,
            seq![first],
        ).stage == UnmountStage::Done(true),
        !leaves_unmounted(first) ==> unmount_after(
            UnmountTool::Fusermount,
            force,
            seq![first],
        ).stage == UnmountStage::Fallback,
        unmount_after(UnmountTool::Fusermount, force, seq![first, second]).stage
            == UnmountStage::Done(leaves_unmounted(first) || leaves_unmounted(second)),
{
    reveal_with_fuel(unmount_after, 3);
    assert(seq![first].drop_last() == Seq::<CommandOutcome>::empty());
    assert(seq![first, second].drop_last() == seq![first]);
}

/// An unmount with `umount` is over after one command, and leaves nothing
/// mounted exactly where that command says so. It is forced whether or not
/// that was asked for.
pub proof fn law_umount_result(force: bool, outcome: CommandOutcome)
    ensures
        unmount_after(UnmountTool::Umount, force, seq![outcome]).stage == UnmountStage::Done(
            leaves_unmounted(outcome),
        ),
        command_of(unmount_after(UnmountTool::Umount, force, Seq::empty())) == command_of(
            unmount_after(UnmountTool::Umount, !force, Seq::empty()),
        ),
{
    reveal_with_fuel(unmount_after, 2);
    assert(seq![outcome].drop_last() == Seq::<CommandOutcome>::empty());
}

/// Wherever an unmount stands, there is a command to run exactly while it is
/// not over.
pub proof fn law_unmount_does_not_stall(
    tool: UnmountTool,
    force: bool,
    outcomes: Seq<CommandOutcome>,
)
    ensures
        command_of(unmount_after(tool, force, outcomes)) is None <==> unmount_after(
            tool,
            force,
            outcomes,
        ).stage is Done,
        unmount_after(tool, force, outcomes).tool == tool,
        unmount_after(tool, force, outcomes).force == force,
    decreases outcomes.len(),
{
    if outcomes.len() > 0 {
        law_unmount_does_not_stall(tool, force, outcomes.drop_last());
    }
}

/// A recovery ends with `true` exactly where the mount was dead and a command
/// cleared it. A healthy mount point takes no command at all.
pub proof fn law_recovery_result(
    codes: StaleCodes,
    tool: UnmountTool,
    listing: DirectoryListing,
    first: CommandOutcome,
    second: CommandOutcome,
)
    ensures
        !codes.finds_stale(listing) ==> recovery_result(
            recovery_after(codes, tool, listing, Seq::empty()),
        ) == Some(false),
        recovery_result(recovery_after(codes, tool, listing, seq![first, second])) == Some(
            codes.finds_stale(listing) && (leaves_unmounted(first) || tool is Fusermount
                && leaves_unmounted(second)),
        ),
{
    reveal_with_fuel(unmount_after, 3);
    assert(seq![first].drop_last() == Seq::<CommandOutcome>::empty());
    assert(seq![first, second].drop_last() == seq![first]);
}

/// A mount point that is readable is healthy, on every platform, and so is one
/// that cannot be read for a reason without an error code, or with a code that
/// no platform gives to a dead mount.
pub proof fn law_healthy_mount_points_are_left_alone(codes: StaleCodes, code: i32)
    requires
        codes.valid(),
        !is_enxio(code) && !is_enotconn(code),
    ensures
        !codes.finds_stale(DirectoryListing::Readable),
        !codes.finds_stale(DirectoryListing::Failed(None)),
        !codes.finds_stale(DirectoryListing::Failed(Some(code))),
{
}

/// A phrase is said exactly where a stretch of the bytes spells it, character
/// for character.
pub proof fn law_phrases_stand_in_one_piece(bytes: Seq<u8>, phrase: Seq<char>)
    ensures
        says(bytes, phrase) <==> exists|at: int|
            0 <= at <= bytes.len() - phrase.len() && (#[trigger] bytes.subrange(
                at,
                at + phrase.len(),
            )).map_values(|byte: u8| byte as char) == phrase,
{
    let spelled = |byte: u8| byte as char;
    if says(bytes, phrase) {
        let at = choose|at: int| stands_at(bytes, phrase, at);
        let piece = bytes.subrange(at, at + phrase.len()).map_values(spelled);
        assert forall|i: int| 0 <= i < phrase.len() implies piece[i] == phrase[i] by {
            assert(bytes[at + i] as int == phrase[i] as int);
        }
        assert(piece == phrase);
    }
    if exists|at: int|
        0 <= at <= bytes.len() - phrase.len() && (#[trigger] bytes.subrange(
            at,
            at + phrase.len(),
        )).map_values(spelled) == phrase {
        let at = choose|at: int|
            0 <= at <= bytes.len() - phrase.len() && (#[trigger] bytes.subrange(
                at,
                at + phrase.len(),
            )).map_values(spelled) == phrase;
        let piece = bytes.subrange(at, at + phrase.len()).map_values(spelled);
        assert forall|i: int| 0 <= i < phrase.len() implies bytes[at + i] as int == (
        #[trigger] phrase[i]) as int by {
            assert(piece[i] == bytes[at + i] as char);
        }
        assert(stands_at(bytes, phrase, at));
    }
}

/// A command that succeeded ends the unmount with success. One that failed
/// does so only where it says one of three phrases, and so that nothing is
/// mounted; whatever else it says, `fusermount3` is followed by `fusermount`,
/// and any other command ends the unmount without success. So does one that
/// could not be run.
pub proof fn law_verdict_on_a_command(
    tool: UnmountTool,
    force: bool,
    success: bool,
    stderr: Vec<u8>,
)
    ensures
        ({
            let outcome = CommandOutcome::Exited { success, stderr };
            let gone = success || says(stderr@, "not mounted"@) || says(
                stderr@,
                "not currently mounted"@,
            ) || says(stderr@, "not found"@);
            let first = unmount_after(tool, force, seq![outcome]).stage;
            let after_failure = unmount_after(tool, force, seq![CommandOutcome::NotRun, outcome]).stage;
            &&& gone ==> first == UnmountStage::Done(true)
            &&& !gone && tool is Fusermount ==> first == UnmountStage::Fallback
            &&& !gone && tool is Umount ==> first == UnmountStage::Done(false)
            &&& tool is Fusermount ==> after_failure == UnmountStage::Done(gone)
            &&& tool is Umount ==> after_failure == UnmountStage::Done(false)
        }),
        unmount_after(UnmountTool::Fusermount, force, seq![CommandOutcome::NotRun]).stage
            == UnmountStage::Fallback,
        unmount_after(UnmountTool::Umount, force, seq![CommandOutcome::NotRun]).stage
            == UnmountStage::Done(false),
{
    reveal_with_fuel(unmount_after, 3);
    let outcome = CommandOutcome::Exited { success, stderr };
    let not_run = CommandOutcome::NotRun;
    let none = Seq::<CommandOutcome>::empty();
    assert(seq![outcome].drop_last() == none);
    assert(seq![not_run].drop_last() == none);
    assert(seq![not_run, outcome].drop_last() == seq![not_run]);
    assert(unmount_after(tool, force, seq![not_run]).stage == if tool is Fusermount {
        UnmountStage::Fallback
    } else {
        UnmountStage::Done(false)
    });
}

/// What an unmount runs: `fusermount3` and then `fusermount`, both lazily where
/// it is forced, or `umount`, which is always forced.
pub proof fn law_commands_of_an_unmount(force: bool, stage: UnmountStage)
    ensures
        ({
            let flag = if force {
                UnmountFlag::UnmountLazily
            } else {
                UnmountFlag::Unmount
            };
            let linux = Unmount { tool: UnmountTool::Fusermount, force, stage };
            let macos = Unmount { tool: UnmountTool::Umount, force, stage };
            match stage {
                UnmountStage::First => {
                    &&& command_of(linux) == Some(
                        UnmountCommand { program: UnmountProgram::Fusermount3, flag },
                    )
                    &&& command_of(macos) == Some(
                        UnmountCommand { program: UnmountProgram::Umount, flag: UnmountFlag::Force },
                    )
                },
                UnmountStage::Fallback => command_of(linux) == Some(
                    UnmountCommand { program: UnmountProgram::Fusermount, flag },
                ),
                UnmountStage::Done(_) => command_of(linux) is None && command_of(macos) is None,
            }
        }),
        unmount_after(UnmountTool::Fusermount, force, Seq::empty()).stage == UnmountStage::First,
        unmount_after(UnmountTool::Umount, force, Seq::empty()).stage == UnmountStage::First,
{
}

/// A mount is dead exactly where its directory cannot be read and the error is
/// one of the two; then it is unmounted by force, and otherwise nothing is
/// done.
pub proof fn law_dead_mounts_are_told_by_their_errors(
    codes: StaleCodes,
    tool: UnmountTool,
    code: i32,
)
    ensures
        !codes.marks(None),
        codes.marks(Some(code)) <==> code == codes.enxio || code == codes.enotconn,
        !codes.finds_stale(DirectoryListing::Readable),
        !codes.finds_stale(DirectoryListing::Failed(None)),
        codes.finds_stale(DirectoryListing::Failed(Some(code))) <==> code == codes.enxio || code
            == codes.enotconn,
        recovery_after(codes, tool, DirectoryListing::Readable, Seq::empty())
            == Recovery::Healthy,
        recovery_after(codes, tool, DirectoryListing::Failed(None), Seq::empty())
            == Recovery::Healthy,
        recovery_after(codes, tool, DirectoryListing::Failed(Some(code)), Seq::empty()) == if code
            == codes.enxio || code == codes.enotconn {
            Recovery::Clearing(Unmount { tool, force: true, stage: UnmountStage::First })
        } else {
            Recovery::Healthy
        },
{
}

/// The result of a recovery: `false` for a healthy mount point, what the
/// unmount ended with for a dead one, and none before that.
pub proof fn law_recovery_ends_with_the_unmount(tool: UnmountTool, force: bool, unmounted: bool)
    ensures
        recovery_result(Recovery::Healthy) == Some(false),
        recovery_result(
            Recovery::Clearing(Unmount { tool, force, stage: UnmountStage::Done(unmounted) }),
        ) == Some(unmounted),
        recovery_result(
            Recovery::Clearing(Unmount { tool, force, stage: UnmountStage::First }),
        ) is None,
        recovery_result(
            Recovery::Clearing(Unmount { tool, force, stage: UnmountStage::Fallback }),
        ) is None,
{
}

/// An unmount that is over stays as it ended, whatever is run after.
pub proof fn law_unmount_ends_once(
    tool: UnmountTool,
    force: bool,
    outcomes: Seq<CommandOutcome>,
    outcome: CommandOutcome,
)
    requires
        unmount_after(tool, force, outcomes).stage is Done,
    ensures
        unmount_after(tool, force, outcomes.push(outcome)) == unmount_after(tool, force, outcomes),
{
    assert(outcomes.push(outcome).drop_last() == outcomes);
}

/// The codes of the platform are those that `libc` gave.
proof fn law_codes_are_those_of_libc(codes: StaleCodes)
    requires
        codes.are_those_of_libc(),
    ensures
        call_ensures(enxio, (), codes.enxio),
        call_ensures(enotconn, (), codes.enotconn),
{
}

} // verus!
