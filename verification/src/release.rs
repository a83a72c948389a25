//! Releasing a MIDI device from any thread.
//!
//! `AMidiDevice_release` must run on a thread attached to the Java VM. A device that
//! may be dropped on any thread is therefore released in steps: ask the VM whether
//! the current thread is attached; if not, attach it as a daemon; release the device;
//! and, if the thread was attached for this release, detach it again.
//!
//! The steps are a state machine: the caller performs the JNI and NDK calls that
//! [`ReleaseAction`] names and hands back what they returned as a [`ReleaseEvent`].
use vstd::prelude::*;

use crate::media_error::{status_result, MediaError};
use crate::ndk_codes::jni_ok;

verus! {

/// Whether a JNI invocation function reported success (`JNI_OK`, which is 0).
pub fn jni_succeeded(status: i32) -> (ok: bool)
    ensures
        ok == (status == 0),
{
    status == jni_ok()
}

/// Where the release of a device stands.
#[derive(Copy, Clone, Debug, PartialEq, Eq, Structural)]
pub enum ReleaseState {
    /// Waiting for the status of `GetEnv` on the current thread.
    QueryingEnv,
    /// The thread was not attached; waiting for the status of attaching it.
    Attaching,
    /// Waiting for the status of `AMidiDevice_release`. `attached_here` tells whether
    /// the thread was attached for this release.
    Releasing { attached_here: bool },
    /// Waiting for `DetachCurrentThread` to return.
    Detaching,
    /// The device is released and the thread is as it was found.
    Finished,
    /// The release could not be carried out.
    Failed,
}

/// What the call named by the last action returned.
#[derive(Copy, Clone, Debug, PartialEq, Eq, Structural)]
pub enum ReleaseEvent {
    /// The status returned by `GetEnv`.
    EnvStatus(i32),
    /// The status returned by `AttachCurrentThreadAsDaemon`.
    AttachStatus(i32),
    /// The status returned by `AMidiDevice_release`.
    ReleaseStatus(i32),
    /// `DetachCurrentThread` returned.
    Detached,
}

/// The next thing to do.
#[derive(Copy, Clone, Debug, PartialEq, Eq, Structural)]
pub enum ReleaseAction {
    /// Ask the VM for the JNI environment of the current thread.
    GetEnv,
    /// Attach the current thread to the VM as a daemon.
    AttachCurrentThreadAsDaemon,
    /// Call `AMidiDevice_release`.
    ReleaseDevice,
    /// Detach the current thread from the VM.
    DetachCurrentThread,
    /// Nothing is left to do.
    Finish,
    /// The thread could not be attached to the VM, so the device cannot be released.
    AttachFailed,
    /// The NDK refused to release the device, with this status.
    ReleaseFailed(MediaError),
}

impl ReleaseState {
    /// Whether `event` answers the action that led to this state.
    pub open spec fn accepts(self, event: ReleaseEvent) -> bool {
        match (self, event) {
            (ReleaseState::QueryingEnv, ReleaseEvent::EnvStatus(_)) => true,
            (ReleaseState::Attaching, ReleaseEvent::AttachStatus(_)) => true,
            (ReleaseState::Releasing { .. }, ReleaseEvent::ReleaseStatus(_)) => true,
            (ReleaseState::Detaching, ReleaseEvent::Detached) => true,
            _ => false,
        }
    }

    /// The state and action that follow `event` in this state.
    pub open spec fn spec_step(self, event: ReleaseEvent) -> (ReleaseState, ReleaseAction) {
        match (self, event) {
            (ReleaseState::QueryingEnv, ReleaseEvent::EnvStatus(status)) => {
                if status == 0 {
                    (ReleaseState::Releasing { attached_here: false }, ReleaseAction::ReleaseDevice)
                } else {
                    (ReleaseState::Attaching, ReleaseAction::AttachCurrentThreadAsDaemon)
                }
            },
            (ReleaseState::Attaching, ReleaseEvent::AttachStatus(status)) => {
                if status == 0 {
                    (ReleaseState::Releasing { attached_here: true }, ReleaseAction::ReleaseDevice)
                } else {
                    (ReleaseState::Failed, ReleaseAction::AttachFailed)
                }
            },
            (ReleaseState::Releasing { attached_here }, ReleaseEvent::ReleaseStatus(status)) => {
                match status_result(status) {
                    Err(e) => (ReleaseState::Failed, ReleaseAction::ReleaseFailed(e)),
                    Ok(()) => if attached_here {
                        (ReleaseState::Detaching, ReleaseAction::DetachCurrentThread)
                    } else {
                        (ReleaseState::Finished, ReleaseAction::Finish)
                    },
                }
            },
            (ReleaseState::Detaching, ReleaseEvent::Detached) => {
                (ReleaseState::Finished, ReleaseAction::Finish)
            },
            _ => (self, ReleaseAction::Finish),
        }
    }

    /// The first state and action of a release.
    pub fn start() -> (r: (ReleaseState, ReleaseAction))
        ensures
            r == (ReleaseState::QueryingEnv, ReleaseAction::GetEnv),
    {
        (ReleaseState::QueryingEnv, ReleaseAction::GetEnv)
    }

    /// Moves the release on by what the last call returned.
    pub fn step(self, event: ReleaseEvent) -> (r: (ReleaseState, ReleaseAction))
        requires
            self.accepts(event),
        ensures
            r == self.spec_step(event),
            r.1 == ReleaseAction::Finish ==> r.0 == ReleaseState::Finished,
            r.1 is AttachFailed || r.1 is ReleaseFailed ==> r.0 == ReleaseState::Failed,
            r.0 == ReleaseState::Finished ==> r.1 == ReleaseAction::Finish,
            r.0 == ReleaseState::Failed ==> (r.1 is AttachFailed || r.1 is ReleaseFailed),
            self matches ReleaseState::Releasing { attached_here } ==> (event matches ReleaseEvent::ReleaseStatus(status) ==> {
                &&& status == 0 && !attached_here ==> r == (ReleaseState::Finished, ReleaseAction::Finish)
                &&& status == 0 && attached_here ==> r == (ReleaseState::Detaching, ReleaseAction::DetachCurrentThread)
                &&& status != 0 ==> r == (ReleaseState::Failed, ReleaseAction::ReleaseFailed(MediaError(status)))
            }),
    {
        match (self, event) {
            (ReleaseState::QueryingEnv, ReleaseEvent::EnvStatus(status)) => {
                if jni_succeeded(status) {
                    (ReleaseState::Releasing { attached_here: false }, ReleaseAction::ReleaseDevice)
                } else {
                    (ReleaseState::Attaching, ReleaseAction::AttachCurrentThreadAsDaemon)
                }
            },
            (ReleaseState::Attaching, ReleaseEvent::AttachStatus(status)) => {
                if jni_succeeded(status) {
                    (ReleaseState::Releasing { attached_here: true }, ReleaseAction::ReleaseDevice)
                } else {
                    (ReleaseState::Failed, ReleaseAction::AttachFailed)
                }
            },
            (ReleaseState::Releasing { attached_here }, ReleaseEvent::ReleaseStatus(status)) => {
                match MediaError::from_status(status) {
                    Err(e) => (ReleaseState::Failed, ReleaseAction::ReleaseFailed(e)),
                    Ok(()) => if attached_here {
                        (ReleaseState::Detaching, ReleaseAction::DetachCurrentThread)
                    } else {
                        (ReleaseState::Finished, ReleaseAction::Finish)
                    },
                }
            },
            (ReleaseState::Detaching, ReleaseEvent::Detached) => {
                (ReleaseState::Finished, ReleaseAction::Finish)
            },
            _ => vstd::pervasive::unreached(),
        }
    }
}

/// Every accepted step reports its outcome consistently: the action `Finish` comes
/// with the state `Finished` and only with it, and a failure action comes with the
/// state `Failed` and only with it. A release reaches `Finished` only on a release
/// status of `AMEDIA_OK`, and fails with exactly the refused status.
pub proof fn lemma_step_outcome(state: ReleaseState, event: ReleaseEvent)
    requires
        state.accepts(event),
    ensures
        ({
            let (next, action) = state.spec_step(event);
            &&& (action == ReleaseAction::Finish <==> next == ReleaseState::Finished)
            &&& ((action is AttachFailed || action is ReleaseFailed) <==> next == ReleaseState::Failed)
            &&& (state matches ReleaseState::Releasing { attached_here } ==> (event matches ReleaseEvent::ReleaseStatus(status) ==> {
                &&& (next == ReleaseState::Finished <==> status == 0 && !attached_here)
                &&& (next == ReleaseState::Detaching <==> status == 0 && attached_here)
                &&& (status != 0 ==> action == ReleaseAction::ReleaseFailed(MediaError(status)))
            }))
            &&& (state == ReleaseState::Detaching ==> next == ReleaseState::Finished)
            &&& (state == ReleaseState::QueryingEnv ==> (event matches ReleaseEvent::EnvStatus(status) ==> {
                &&& (status == 0 ==> next == ReleaseState::Releasing { attached_here: false })
                &&& (status != 0 ==> next == ReleaseState::Attaching)
            }))
            &&& (state == ReleaseState::Attaching ==> (event matches ReleaseEvent::AttachStatus(status) ==> {
                &&& (status == 0 ==> next == ReleaseState::Releasing { attached_here: true })
                &&& (status != 0 ==> next == ReleaseState::Failed)
            }))
        }),
{
}

/// What the calls return during one release: the status of `GetEnv`, of attaching
/// the thread, and of `AMidiDevice_release`. An action that makes no call is
/// answered by nothing; the run stops there.
pub open spec fn answer(action: ReleaseAction, env: i32, attach: i32, release: i32) -> ReleaseEvent {
    match action {
        ReleaseAction::GetEnv => ReleaseEvent::EnvStatus(env),
        ReleaseAction::AttachCurrentThreadAsDaemon => ReleaseEvent::AttachStatus(attach),
        ReleaseAction::ReleaseDevice => ReleaseEvent::ReleaseStatus(release),
        _ => ReleaseEvent::Detached,
    }
}

/// Whether an action ends a release.
pub open spec fn is_final(action: ReleaseAction) -> bool {
    match action {
        ReleaseAction::Finish | ReleaseAction::AttachFailed | ReleaseAction::ReleaseFailed(_) => true,
        _ => false,
    }
}

/// The actions taken from `state` and `action` on, at most `fuel` further steps.
pub open spec fn run_from(
    state: ReleaseState,
    action: ReleaseAction,
    env: i32,
    attach: i32,
    release: i32,
    fuel: nat,
) -> Seq<ReleaseAction>
    decreases fuel,
{
    if fuel == 0 || is_final(action) {
        seq![action]
    } else {
        let next = state.spec_step(answer(action, env, attach, release));
        seq![action] + run_from(next.0, next.1, env, attach, release, (fuel - 1) as nat)
    }
}

/// All the actions of one release, given what the calls return.
pub open spec fn release_run(env: i32, attach: i32, release: i32) -> Seq<ReleaseAction> {
    run_from(ReleaseState::QueryingEnv, ReleaseAction::GetEnv, env, attach, release, 4)
}

/// The state in which a run from `state` and `action` ends, at most `fuel` further steps on.
pub open spec fn end_state_from(
    state: ReleaseState,
    action: ReleaseAction,
    env: i32,
    attach: i32,
    release: i32,
    fuel: nat,
) -> ReleaseState
    decreases fuel,
{
    if fuel == 0 || is_final(action) {
        state
    } else {
        let next = state.spec_step(answer(action, env, attach, release));
        end_state_from(next.0, next.1, env, attach, release, (fuel - 1) as nat)
    }
}

/// The state in which one release ends, given what the calls return.
pub open spec fn release_end_state(env: i32, attach: i32, release: i32) -> ReleaseState {
    end_state_from(ReleaseState::QueryingEnv, ReleaseAction::GetEnv, env, attach, release, 4)
}

/// A release ends `Finished` exactly when the device was released (the release status
/// was `AMEDIA_OK`, and the thread was attached or could be attached); otherwise it
/// ends `Failed`.
pub proof fn lemma_release_end_state(env: i32, attach: i32, release: i32)
    ensures
        release_end_state(env, attach, release) == ReleaseState::Finished <==> (release == 0 && (
        env == 0 || attach == 0)),
        release_end_state(env, attach, release) == ReleaseState::Failed <==> !(release == 0 && (
        env == 0 || attach == 0)),
{
    reveal_with_fuel(end_state_from, 5);
}

/// A release on an attached thread releases the device and leaves the thread
/// attached; on a detached thread it attaches the thread, releases the device and
/// detaches the thread again. The device is released at most once, never before the
/// thread is attached; a failed attach stops before the release, and a failed
/// release stops before detaching.
pub proof fn lemma_release_run(env: i32, attach: i32, release: i32)
    ensures
        env == 0 && release == 0 ==> release_run(env, attach, release) == seq![
            ReleaseAction::GetEnv,
            ReleaseAction::ReleaseDevice,
            ReleaseAction::Finish,
        ],
        env == 0 && release != 0 ==> release_run(env, attach, release) == seq![
            ReleaseAction::GetEnv,
            ReleaseAction::ReleaseDevice,
            ReleaseAction::ReleaseFailed(MediaError(release)),
        ],
        env != 0 && attach == 0 && release == 0 ==> release_run(env, attach, release) == seq![
            ReleaseAction::GetEnv,
            ReleaseAction::AttachCurrentThreadAsDaemon,
            ReleaseAction::ReleaseDevice,
            ReleaseAction::DetachCurrentThread,
            ReleaseAction::Finish,
        ],
        env != 0 && attach == 0 && release != 0 ==> release_run(env, attach, release) == seq![
            ReleaseAction::GetEnv,
            ReleaseAction::AttachCurrentThreadAsDaemon,
            ReleaseAction::ReleaseDevice,
            ReleaseAction::ReleaseFailed(MediaError(release)),
        ],
        env != 0 && attach != 0 ==> release_run(env, attach, release) == seq![
            ReleaseAction::GetEnv,
            ReleaseAction::AttachCurrentThreadAsDaemon,
            ReleaseAction::AttachFailed,
        ],
{
    reveal_with_fuel(run_from, 5);
}

/// The thread is detached by a release exactly when that release attached it and
/// released the device.
pub proof fn lemma_detach_iff_attached_here(env: i32, attach: i32, release: i32)
    ensures
        release_run(env, attach, release).contains(ReleaseAction::DetachCurrentThread)
            <==> (env != 0 && attach == 0 && release == 0),
{
    lemma_release_run(env, attach, release);
    let r = release_run(env, attach, release);
    if env != 0 && attach == 0 && release == 0 {
        assert(r[3] == ReleaseAction::DetachCurrentThread);
    }
}

} // verus!
