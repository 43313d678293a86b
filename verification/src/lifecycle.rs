//! The lifecycle manager: owner of the single active module handle and
//! the only component allowed to mutate which module is active. It
//! drives the reload protocol — flush, state capture, load, swap,
//! destroy-old — and guarantees that the old instance is destroyed
//! exactly once, strictly after the new one is constructed and strictly
//! before the old image is released, and that a failed attempt leaves
//! the previously active module fully functional.

use vstd::prelude::*;
use crate::bridge::{extract, inject};
use crate::calendar::YEAR_BOUND_SECONDS;
use crate::core_app::{spec_core_update, core_update_ok, CoreApp, ViewDescription};
use crate::loader::{
    copy_written, image_loaded, load, load_succeeds, spec_load_error, Artifact, FileSystem,
    LoadError, LoadedModule, ModuleDescriptor,
};
use crate::monitor::{poll_signals, ChangeMonitor, ReloadSignal};
use crate::runtime::{Instance, ModuleRuntime};
use crate::shared::{AppState, Message};

verus! {

pub struct LifecycleManager {
    pub descriptor: ModuleDescriptor,
    pub active: LoadedModule,
    pub monitor: ChangeMonitor,
    /// While set, the host renders one empty placeholder frame so the
    /// rendering runtime releases references into the outgoing module.
    pub flushing: bool,
}

impl LifecycleManager {
    /// The manager's ownership invariant over the runtime: the active
    /// handle names a live instance inside a resident image, and it is
    /// the only live instance and the only resident image in the
    /// process.
    pub open spec fn wf(self, rt: ModuleRuntime) -> bool {
        &&& self.active.instance < rt.instances@.len()
        &&& rt.instances@[self.active.instance as int].live
        &&& rt.instances@[self.active.instance as int].image == self.active.image
        &&& self.active.image < rt.images@.len()
        &&& rt.images@[self.active.image as int]
        &&& forall|j: int|
            0 <= j < rt.instances@.len() && j != self.active.instance ==> !rt.instances@[j].live
        &&& forall|j: int|
            0 <= j < rt.images@.len() && j != self.active.image ==> !rt.images@[j]
        &&& forall|j: int|
            0 <= j < rt.instances@.len() ==> rt.instances@[j].image < rt.images@.len()
    }

    /// The state the active module instance currently reports.
    pub open spec fn active_state(self, rt: ModuleRuntime) -> AppState {
        rt.instances@[self.active.instance as int].app.state
    }

    /// Whether an event may be forwarded to the active module without
    /// violating the module's own precondition.
    pub open spec fn event_ok(self, rt: ModuleRuntime, message: Message) -> bool {
        match message {
            Message::Increment => core_update_ok(self.active_state(rt), message),
            Message::Decrement => core_update_ok(self.active_state(rt), message),
            Message::Tick => true,
            Message::Reload => true,
        }
    }

    /// A reload attempt that succeeded and swapped: the new instance is
    /// active and carries the old instance's state, the old instance
    /// was destroyed, and the old image released.
    pub open spec fn reload_swap(
        pre: LifecycleManager,
        pre_rt: ModuleRuntime,
        post: LifecycleManager,
        post_rt: ModuleRuntime,
        a: Artifact,
    ) -> bool {
        &&& post.descriptor == pre.descriptor
        &&& post.active.instance == pre_rt.instances@.len()
        &&& post.active.image == pre_rt.images@.len()
        &&& post.active.modified == a.modified
        &&& post.monitor.last_known_modified == a.modified
        &&& !post.flushing
        &&& post_rt.instances@.len() == pre_rt.instances@.len() + 1
        &&& post_rt.instances@[post.active.instance as int].app.state == pre.active_state(pre_rt)
        &&& !post_rt.instances@[pre.active.instance as int].live
        &&& !post_rt.images@[pre.active.image as int]
        &&& post_rt.instances@ == pre_rt.instances@.push(
            (Instance {
                image: post.active.image,
                live: true,
                app: (CoreApp { state: pre.active_state(pre_rt) }),
            }),
        ).update(
            pre.active.instance as int,
            (Instance {
                image: pre.active.image,
                live: false,
                app: pre_rt.instances@[pre.active.instance as int].app,
            }),
        )
        &&& post_rt.images@ == pre_rt.images@.push(true).update(pre.active.image as int, false)
    }

    /// A reload attempt that failed at some step: the previous module
    /// stays active with its state untouched, the host returns to
    /// normal rendering, and the baseline catches up with the observed
    /// modification time so the same stale change is not retried every
    /// tick.
    pub open spec fn reload_retain(
        pre: LifecycleManager,
        pre_rt: ModuleRuntime,
        post: LifecycleManager,
        post_rt: ModuleRuntime,
        a: Artifact,
    ) -> bool {
        &&& post.descriptor == pre.descriptor
        &&& post.active == pre.active
        &&& post_rt.instances == pre_rt.instances
        &&& !post.flushing
        &&& post.monitor.last_known_modified == (if a.readable && a.has_timestamp {
            a.modified
        } else {
            pre.monitor.last_known_modified
        })
        &&& image_loaded(a) ==> post_rt.images@ == pre_rt.images@.push(false)
        &&& !image_loaded(a) ==> post_rt.images == pre_rt.images
    }

    /// Perform the very first module load at startup. With no active
    /// module to fall back to, a failure here is fatal for the host;
    /// the error says which step refused.
    pub fn boot(
        rt: &mut ModuleRuntime,
        fs: &mut FileSystem,
        descriptor: ModuleDescriptor,
        initial_state: AppState,
    ) -> (r: Result<LifecycleManager, LoadError>)
        requires
            old(rt).images@.len() == 0,
            old(rt).instances@.len() == 0,
            old(fs).artifact.modified < YEAR_BOUND_SECONDS,
        ensures
            final(fs).artifact == old(fs).artifact,
            r is Ok <==> load_succeeds(old(fs).artifact),
            r matches Ok(m) ==> m.wf(*final(rt)) && m.active_state(*final(rt)) == initial_state
                && m.monitor.last_known_modified == old(fs).artifact.modified && !m.flushing
                && m.descriptor == descriptor && m.active.modified == old(fs).artifact.modified,
            r matches Err(e) ==> e == spec_load_error(old(fs).artifact, descriptor),
            copy_written(old(fs).artifact) ==> final(fs).copies@.len() == old(fs).copies@.len() + 1
                && final(fs).copies@.last()@ == descriptor.spec_versioned_path_at(
                old(fs).artifact.modified as int,
            ),
            !copy_written(old(fs).artifact) ==> final(fs).copies == old(fs).copies,
    {
        match load(rt, fs, &descriptor, initial_state) {
            Ok(module) => {
                let monitor = ChangeMonitor::new(module.modified);
                Ok(LifecycleManager { descriptor, active: module, monitor, flushing: false })
            }
            Err(e) => Err(e),
        }
    }

    /// Process one event from the host's event loop. A tick polls the
    /// change monitor and, on a signal, enters the flush phase and asks
    /// the host to deliver a reload after one placeholder frame. A
    /// reload runs the whole sequence — capture state, load, swap,
    /// destroy-old — to completion, successfully or not. Every other
    /// event is forwarded to the active module.
    pub fn update(
        &mut self,
        rt: &mut ModuleRuntime,
        fs: &mut FileSystem,
        message: Message,
    ) -> (r: Option<ReloadSignal>)
        requires
            old(self).wf(*old(rt)),
            old(self).event_ok(*old(rt), message),
            message == Message::Reload ==> old(fs).artifact.modified < YEAR_BOUND_SECONDS,
        ensures
            final(self).wf(*final(rt)),
            final(self).descriptor == old(self).descriptor,
            final(fs).artifact == old(fs).artifact,
            message == Message::Tick ==> {
                &&& final(self).active == old(self).active
                &&& final(self).monitor == old(self).monitor
                &&& final(rt).images == old(rt).images
                &&& final(rt).instances == old(rt).instances
                &&& final(fs).copies == old(fs).copies
                &&& final(self).flushing == (old(self).flushing || poll_signals(
                    old(self).monitor,
                    old(fs).artifact,
                ))
                &&& (r is Some <==> poll_signals(old(self).monitor, old(fs).artifact))
            },
            message == Message::Increment || message == Message::Decrement ==> {
                &&& r is None
                &&& *final(self) == *old(self)
                &&& final(rt).images == old(rt).images
                &&& final(fs).copies == old(fs).copies
                &&& final(self).active_state(*final(rt)) == spec_core_update(
                    old(self).active_state(*old(rt)),
                    message,
                )
            },
            message == Message::Reload ==> {
                &&& r is None
                &&& load_succeeds(old(fs).artifact) ==> Self::reload_swap(
                    *old(self),
                    *old(rt),
                    *final(self),
                    *final(rt),
                    old(fs).artifact,
                )
                &&& !load_succeeds(old(fs).artifact) ==> Self::reload_retain(
                    *old(self),
                    *old(rt),
                    *final(self),
                    *final(rt),
                    old(fs).artifact,
                )
            },
            message == Message::Reload && copy_written(old(fs).artifact) ==> {
                &&& final(fs).copies@.len() == old(fs).copies@.len() + 1
                &&& final(fs).copies@.subrange(0, old(fs).copies@.len() as int) == old(fs).copies@
                &&& final(fs).copies@.last()@ == old(self).descriptor.spec_versioned_path_at(
                    old(fs).artifact.modified as int,
                )
            },
            message == Message::Reload && !copy_written(old(fs).artifact) ==> final(fs).copies
                == old(fs).copies,
    {
        match message {
            Message::Tick => {
                let signal = self.monitor.poll(fs);
                if signal.is_some() {
                    self.flushing = true;
                }
                signal
            }
            Message::Reload => {
                let snapshot = extract(rt, &self.active);
                let construction_argument = inject(snapshot);
                match load(rt, fs, &self.descriptor, construction_argument) {
                    Ok(fresh) => {
                        let outgoing = self.active;
                        rt.destroy_instance(outgoing.instance);
                        rt.release_image(outgoing.image);
                        self.active = fresh;
                        self.monitor.acknowledge(fresh.modified);
                        self.flushing = false;
                    }
                    Err(_refusal) => {
                        if fs.artifact.readable && fs.artifact.has_timestamp {
                            self.monitor.acknowledge(fs.artifact.modified);
                        }
                        self.flushing = false;
                    }
                }
                None
            }
            Message::Increment => {
                rt.update_instance(self.active.instance, message);
                None
            }
            Message::Decrement => {
                rt.update_instance(self.active.instance, message);
                None
            }
        }
    }

    /// Describe the frame the host should render: the placeholder
    /// during the flush phase, otherwise whatever the active module
    /// reports.
    pub fn view(&self, rt: &ModuleRuntime) -> (r: ViewDescription)
        requires
            self.wf(*rt),
        ensures
            self.flushing ==> r == ViewDescription::Placeholder,
            !self.flushing ==> r == (ViewDescription::Counter {
                value: self.active_state(*rt).counter,
            }),
    {
        if self.flushing {
            ViewDescription::Placeholder
        } else {
            rt.instance_view(self.active.instance)
        }
    }

    /// Host shutdown: destroy the active instance and release its
    /// image, in that order. Afterwards no instance is live and no
    /// image is resident.
    pub fn shutdown(self, rt: &mut ModuleRuntime)
        requires
            self.wf(*old(rt)),
        ensures
            forall|j: int| 0 <= j < final(rt).instances@.len() ==> !final(rt).instances@[j].live,
            forall|j: int| 0 <= j < final(rt).images@.len() ==> !final(rt).images@[j],
    {
        rt.destroy_instance(self.active.instance);
        rt.release_image(self.active.image);
    }
}

/// State preservation: whatever events the host has applied, a
/// successful reload hands the next instance exactly the state the
/// previous instance reported immediately before the swap.
pub proof fn lemma_state_preservation(
    pre: LifecycleManager,
    pre_rt: ModuleRuntime,
    post: LifecycleManager,
    post_rt: ModuleRuntime,
    a: Artifact,
)
    requires
        pre.wf(pre_rt),
        LifecycleManager::reload_swap(pre, pre_rt, post, post_rt, a),
    ensures
        post.active_state(post_rt) == pre.active_state(pre_rt),
{
}

/// Single ownership: under the manager's invariant the active handle
/// is live and every other instance ever constructed has already been
/// destroyed — there is exactly one reachable instance handle.
pub proof fn lemma_single_ownership(m: LifecycleManager, rt: ModuleRuntime)
    requires
        m.wf(rt),
    ensures
        forall|j: int|
            0 <= j < rt.instances@.len() ==> (rt.instances@[j].live <==> j
                == m.active.instance),
{
}

/// Failure isolation: a reload attempt that failed at any step leaves
/// the previously active instance in place with its state unchanged.
pub proof fn lemma_failure_isolation(
    pre: LifecycleManager,
    pre_rt: ModuleRuntime,
    post: LifecycleManager,
    post_rt: ModuleRuntime,
    a: Artifact,
)
    requires
        pre.wf(pre_rt),
        LifecycleManager::reload_retain(pre, pre_rt, post, post_rt, a),
    ensures
        post.active == pre.active,
        post.active_state(post_rt) == pre.active_state(pre_rt),
{
}

/// Change-signal monotonicity, at the protocol level: once a reload
/// attempt has completed against an observable artifact, a tick that
/// observes the same modification time does not signal again.
pub proof fn lemma_signal_consumed(
    pre: LifecycleManager,
    pre_rt: ModuleRuntime,
    post: LifecycleManager,
    post_rt: ModuleRuntime,
    a: Artifact,
)
    requires
        a.readable,
        a.has_timestamp,
        LifecycleManager::reload_swap(pre, pre_rt, post, post_rt, a) || LifecycleManager::reload_retain(
            pre,
            pre_rt,
            post,
            post_rt,
            a,
        ),
    ensures
        !poll_signals(post.monitor, a),
{
}

} // verus!
