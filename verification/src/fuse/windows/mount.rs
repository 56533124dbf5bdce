//! The life of a mount: the thread that holds it, and the handles that end it.

use crate::fuse::windows::error::{MountError, MountResult};
use crate::fuse::windows::passthrough::PassthroughFS;
use crate::fuse::windows::wide;
use vstd::prelude::*;
use vstd::string::StringExecFns;

verus! {

/// How a volume is mounted.
#[derive(Clone, Copy, Debug, PartialEq, Eq)]
pub struct MountOptions {
    /// The driver refuses to write to the volume.
    pub write_protect: bool,
}

/// The options of every mount: nothing is written through it.
pub fn mount_options() -> (r: MountOptions)
    ensures
        r.write_protect,
{
    MountOptions { write_protect: true }
}

/// What the mount thread is doing.
#[derive(Debug)]
pub enum MountStage {
    /// Initialising the driver library.
    Initializing,
    /// Mounting the volume.
    Mounting,
    /// Reporting that the driver refused to mount, with its reason.
    ReportingRefusal(String),
    /// Reporting that the volume is mounted.
    ReportingReady,
    /// Waiting to be told to unmount, while the driver serves requests.
    Serving,
    /// Unmounting the volume.
    Unmounting,
    /// Releasing the mounted file system.
    Releasing,
    /// Shutting the driver library down.
    ShuttingDown,
    /// Done.
    Finished,
}

/// How the thread's current work ended.
#[derive(Debug)]
pub enum MountEvent {
    /// It is over; whether it failed makes no difference.
    Done,
    /// The driver refused to mount, with this reason.
    Refused(String),
}

/// The stage after `stage`, once its work ended with `event`. Only mounting
/// can go two ways.
pub open spec fn following(stage: MountStage, event: MountEvent) -> MountStage {
    match stage {
        MountStage::Initializing => MountStage::Mounting,
        MountStage::Mounting => match event {
            MountEvent::Done => MountStage::ReportingReady,
            MountEvent::Refused(reason) => MountStage::ReportingRefusal(reason),
        },
        MountStage::ReportingRefusal(_) => MountStage::ShuttingDown,
        MountStage::ReportingReady => MountStage::Serving,
        MountStage::Serving => MountStage::Unmounting,
        MountStage::Unmounting => MountStage::Releasing,
        MountStage::Releasing => MountStage::ShuttingDown,
        MountStage::ShuttingDown => MountStage::Finished,
        MountStage::Finished => MountStage::Finished,
    }
}

/// The stages that the thread goes through, one for each event and the one it
/// ends in.
pub open spec fn stages(events: Seq<MountEvent>) -> Seq<MountStage>
    decreases events.len(),
{
    if events.len() == 0 {
        seq![MountStage::Initializing]
    } else {
        let before = stages(events.drop_last());
        before.push(following(before.last(), events.last()))
    }
}

impl MountStage {
    /// The stage a mount thread begins in.
    pub fn start() -> (r: Self)
        ensures
            r == MountStage::Initializing,
    {
        MountStage::Initializing
    }

    /// The next stage, once the work of this one ended with `event`.
    pub fn next(self, event: MountEvent) -> (r: Self)
        ensures
            r == following(self, event),
    {
        match self {
            MountStage::Initializing => MountStage::Mounting,
            MountStage::Mounting => match event {
                MountEvent::Done => MountStage::ReportingReady,
                MountEvent::Refused(reason) => MountStage::ReportingRefusal(reason),
            },
            MountStage::ReportingRefusal(_) => MountStage::ShuttingDown,
            MountStage::ReportingReady => MountStage::Serving,
            MountStage::Serving => MountStage::Unmounting,
            MountStage::Unmounting => MountStage::Releasing,
            MountStage::Releasing => MountStage::ShuttingDown,
            MountStage::ShuttingDown => MountStage::Finished,
            MountStage::Finished => MountStage::Finished,
        }
    }

    /// What the thread reports to whoever waits for the mount, if it does so
    /// in this stage.
    pub fn report(&self) -> (r: Option<MountResult<()>>)
        ensures
            match *self {
                MountStage::ReportingReady => r == Some(Ok::<(), MountError>(())),
                MountStage::ReportingRefusal(reason) => {
                    &&& r matches Some(Err(MountError::MountFailed(text)))
                    &&& text@ == reason@
                },
                _ => r is None,
            },
    {
        match self {
            MountStage::ReportingReady => Some(Ok(())),
            MountStage::ReportingRefusal(reason) => Some(
                Err(MountError::MountFailed(String::from_str(reason.as_str()))),
            ),
            _ => None,
        }
    }
}

/// What whoever waits for a mount hears.
#[derive(Debug)]
pub enum ReadySignal {
    /// The mount thread's report.
    Reported(MountResult<()>),
    /// The mount thread is gone without a report.
    ThreadGone,
}

/// A mount that is asked for and not yet there.
#[derive(Debug)]
pub struct PendingMount {
    /// Where the volume is to be mounted.
    pub mountpoint: String,
    /// The same in UTF-16, without a nul.
    pub mount_point: Vec<u16>,
}

/// A mounted volume, held by a thread. `S` is the sender that tells the thread
/// to unmount, `J` the handle that the thread is joined by.
#[derive(Debug)]
pub struct SpawnedMountHandle<S, J> {
    pub unmount_tx: Option<S>,
    pub join_handle: Option<J>,
    pub mountpoint: String,
}

/// A mounted volume that nobody waits for.
#[derive(Debug)]
pub struct MountHandle<S, J> {
    pub spawned: SpawnedMountHandle<S, J>,
}

/// What is to be done to end a mount: first the thread is told, then it is
/// joined.
#[derive(Debug)]
pub struct Teardown<S, J> {
    pub signal: Option<S>,
    pub join: Option<J>,
}

/// How joining the mount thread went.
#[derive(Debug)]
pub enum JoinOutcome {
    /// There was nothing to join.
    NotNeeded,
    /// The thread is over.
    Joined,
    /// Waiting for the thread failed, with this reason.
    Failed(String),
}

/// What is said where the mount thread ended without a report.
pub open spec fn thread_gone_text() -> Seq<char> {
    "mount thread exited before signaling readiness"@
}

impl PendingMount {
    /// The mount, once the mount thread was heard of.
    pub fn finish<S, J>(self, signal: ReadySignal, unmount_tx: S, join_handle: J) -> (r: MountResult<
        SpawnedMountHandle<S, J>,
    >)
        ensures
            match signal {
                ReadySignal::Reported(Ok(_)) => r == Ok::<_, MountError>(
                    (SpawnedMountHandle {
                        unmount_tx: Some(unmount_tx),
                        join_handle: Some(join_handle),
                        mountpoint: self.mountpoint,
                    }),
                ),
                ReadySignal::Reported(Err(error)) => r == Err::<
                    SpawnedMountHandle<S, J>,
                    MountError,
                >(error),
                ReadySignal::ThreadGone => {
                    &&& r matches Err(MountError::MountFailed(text))
                    &&& text@ == thread_gone_text()
                    &&& text@ == "mount thread exited before signaling readiness"@
                },
            },
    {
        match signal {
            ReadySignal::Reported(Ok(_)) => Ok(
                SpawnedMountHandle {
                    unmount_tx: Some(unmount_tx),
                    join_handle: Some(join_handle),
                    mountpoint: self.mountpoint,
                },
            ),
            ReadySignal::Reported(Err(error)) => Err(error),
            ReadySignal::ThreadGone => Err(
                MountError::MountFailed(
                    String::from_str("mount thread exited before signaling readiness"),
                ),
            ),
        }
    }
}

impl<C, K> PassthroughFS<C, K> {
    /// Asks for a mount at `mountpoint`. A mount point with a nul cannot be
    /// given to the driver.
    pub fn mount_spawned(&self, mountpoint: &str) -> (r: MountResult<PendingMount>)
        ensures
            match r {
                Ok(pending) => {
                    &&& !mountpoint@.contains('\0')
                    &&& pending.mountpoint@ == mountpoint@
                    &&& pending.mount_point@ == wide::utf16_units(mountpoint@)
                },
                Err(error) => {
                    &&& mountpoint@.contains('\0')
                    &&& error matches MountError::InvalidPath(text)
                    &&& text@ == wide::nul_message(wide::utf16_units(mountpoint@))
                },
            },
    {
        match wide::wide_text(mountpoint) {
            Ok(mount_point) => Ok(
                PendingMount { mountpoint: String::from_str(mountpoint), mount_point },
            ),
            Err(text) => Err(MountError::InvalidPath(text)),
        }
    }

    /// The handle of a mount that nobody waits for.
    pub fn mount<S, J>(&self, spawned: MountResult<SpawnedMountHandle<S, J>>) -> (r: MountResult<
        MountHandle<S, J>,
    >)
        ensures
            match spawned {
                Ok(spawned) => r == Ok::<_, MountError>((MountHandle { spawned })),
                Err(error) => r == Err::<MountHandle<S, J>, MountError>(error),
            },
    {
        match spawned {
            Ok(spawned) => Ok(MountHandle { spawned }),
            Err(error) => Err(error),
        }
    }
}

impl<S, J> SpawnedMountHandle<S, J> {
    /// Takes out of the handle what is needed to end the mount. A second call
    /// finds nothing left to do.
    pub fn unmount(&mut self) -> (r: Teardown<S, J>)
        ensures
            r.signal == old(self).unmount_tx,
            r.join == old(self).join_handle,
            *final(self) == (SpawnedMountHandle::<S, J> {
                unmount_tx: None,
                join_handle: None,
                mountpoint: old(self).mountpoint,
            }),
    {
        let signal = self.unmount_tx.take();
        let join = self.join_handle.take();
        Teardown { signal, join }
    }
}

/// Whether the mount ended, given how joining its thread went; otherwise what
/// went wrong.
pub fn join_result(outcome: JoinOutcome) -> (r: Result<(), String>)
    ensures
        match outcome {
            JoinOutcome::Failed(reason) => {
                &&& r matches Err(text)
                &&& text@ == "mount thread join failed: "@ + reason@
            },
            _ => r is Ok,
        },
{
    match outcome {
        JoinOutcome::Failed(reason) => Err(
            String::from_str("mount thread join failed: ").concat(reason.as_str()),
        ),
        _ => Ok(()),
    }
}

/// A thread whose volume is mounted reports that, serves until it is told to
/// stop, and then unmounts, releases the file system and shuts down, in this
/// order.
pub proof fn law_mounted_thread(events: Seq<MountEvent>)
    requires
        events.len() == 7,
        events[1] is Done,
    ensures
        stages(events) == seq![
            MountStage::Initializing,
            MountStage::Mounting,
            MountStage::ReportingReady,
            MountStage::Serving,
            MountStage::Unmounting,
            MountStage::Releasing,
            MountStage::ShuttingDown,
            MountStage::Finished,
        ],
{
    reveal_with_fuel(stages, 8);
}

/// A thread whose mount is refused reports the reason and shuts down; it
/// neither serves nor unmounts.
pub proof fn law_refused_thread(events: Seq<MountEvent>, reason: String)
    requires
        events.len() == 4,
        events[1] == MountEvent::Refused(reason),
    ensures
        stages(events) == seq![
            MountStage::Initializing,
            MountStage::Mounting,
            MountStage::ReportingRefusal(reason),
            MountStage::ShuttingDown,
            MountStage::Finished,
        ],
{
    reveal_with_fuel(stages, 5);
}

/// How far a stage is from the beginning.
pub open spec fn progress(stage: MountStage) -> nat {
    match stage {
        MountStage::Initializing => 0,
        MountStage::Mounting => 1,
        MountStage::ReportingRefusal(_) => 2,
        MountStage::ReportingReady => 2,
        MountStage::Serving => 3,
        MountStage::Unmounting => 4,
        MountStage::Releasing => 5,
        MountStage::ShuttingDown => 6,
        MountStage::Finished => 7,
    }
}

/// Whatever happens, a mount thread never returns to an earlier stage, and
/// stays in none but the last. So it reports once at most, and unmounts and
/// shuts down once at most.
pub proof fn law_thread_makes_progress(events: Seq<MountEvent>, i: int, j: int)
    requires
        0 <= i < j <= events.len(),
    ensures
        stages(events).len() == events.len() + 1,
        progress(stages(events)[i]) < progress(stages(events)[j]) || stages(events)[i] is Finished
            && stages(events)[j] is Finished,
    decreases events.len(),
{
    let before = stages(events.drop_last());
    lemma_stages_len(events.drop_last());
    assert(stages(events)[i] == before[i]);
    if j < events.len() {
        law_thread_makes_progress(events.drop_last(), i, j);
        assert(stages(events)[j] == before[j]);
    } else if i < j - 1 {
        law_thread_makes_progress(events.drop_last(), i, j - 1);
    }
}

/// A thread that is over has shut the driver library down.
pub proof fn law_finished_thread_has_shut_down(events: Seq<MountEvent>)
    requires
        stages(events).last() is Finished,
    ensures
        exists|i: int|
            0 <= i < stages(events).len() && #[trigger] stages(events)[i] is ShuttingDown,
    decreases events.len(),
{
    let before = stages(events.drop_last());
    if events.len() > 0 {
        if before.last() is Finished {
            law_finished_thread_has_shut_down(events.drop_last());
            let i = choose|i: int| 0 <= i < before.len() && #[trigger] before[i] is ShuttingDown;
            assert(stages(events)[i] == before[i]);
        } else {
            lemma_stages_len(events.drop_last());
            assert(stages(events)[before.len() - 1] == before.last());
        }
    }
}

/// There is one stage more than there are events.
proof fn lemma_stages_len(events: Seq<MountEvent>)
    ensures
        stages(events).len() == events.len() + 1,
    decreases events.len(),
{
    if events.len() > 0 {
        lemma_stages_len(events.drop_last());
    }
}

} // verus!
