//! A model of the process's dynamic-module runtime: the loaded images
//! (OS-level library handles) and the module instances constructed
//! inside them, over the whole lifetime of the process. An instance
//! handle is only usable while it is live and its owning image is
//! resident; an image may be released only when no live instance refers
//! to it, which encodes the ordering contract between instance
//! destruction and library release.

use vstd::prelude::*;
use crate::core_app::{spec_core_update, core_update_ok, AppInterface, CoreApp, ViewDescription};
use crate::shared::{AppState, Message};

verus! {

/// One module instance ever constructed in this process: the image it
/// lives in, whether it is still live (constructed and not destroyed),
/// and its behavior.
pub struct Instance {
    pub image: usize,
    pub live: bool,
    pub app: CoreApp,
}

/// The dynamic-module runtime: `images[i]` is true while image `i` is
/// resident, and `instances` records every instance ever constructed.
pub struct ModuleRuntime {
    pub images: Vec<bool>,
    pub instances: Vec<Instance>,
}

impl ModuleRuntime {
    pub fn new() -> (r: ModuleRuntime)
        ensures
            r.images@.len() == 0,
            r.instances@.len() == 0,
    {
        ModuleRuntime { images: Vec::new(), instances: Vec::new() }
    }

    /// Load one more image into the process; it starts resident.
    pub fn load_image(&mut self) -> (i: usize)
        ensures
            i == old(self).images@.len(),
            final(self).images@ == old(self).images@.push(true),
            final(self).instances == old(self).instances,
    {
        let i = self.images.len();
        self.images.push(true);
        i
    }

    /// Release a resident image. It must no longer host any live
    /// instance: code and data of live instances live inside the image.
    pub fn release_image(&mut self, i: usize)
        requires
            i < old(self).images@.len(),
            old(self).images@[i as int],
            forall|j: int|
                0 <= j < old(self).instances@.len() && old(self).instances@[j].live
                    ==> old(self).instances@[j].image != i,
        ensures
            final(self).images@ == old(self).images@.update(i as int, false),
            final(self).instances == old(self).instances,
    {
        self.images[i] = false;
    }

    /// Invoke a module's create entry point inside a resident image.
    /// `succeed` stands for the module's own construction outcome: a
    /// module reports failure by handing back a null instance handle,
    /// in which case nothing was constructed.
    pub fn create_instance(&mut self, image: usize, state: AppState, succeed: bool) -> (r: Option<
        usize,
    >)
        requires
            image < old(self).images@.len(),
            old(self).images@[image as int],
        ensures
            final(self).images == old(self).images,
            succeed ==> r is Some && final(self).instances@ == old(self).instances@.push(
                (Instance { image, live: true, app: CoreApp { state } }),
            ),
            r matches Some(h) ==> h == old(self).instances@.len(),
            !succeed ==> r is None && final(self).instances == old(self).instances,
    {
        if succeed {
            let h = self.instances.len();
            self.instances.push(Instance { image, live: true, app: CoreApp::new(state) });
            Some(h)
        } else {
            None
        }
    }

    /// Invoke the destroy entry point on a live instance; it must be
    /// called exactly once per constructed instance, while the owning
    /// image is still resident.
    pub fn destroy_instance(&mut self, h: usize)
        requires
            h < old(self).instances@.len(),
            old(self).instances@[h as int].live,
            old(self).instances@[h as int].image < old(self).images@.len(),
            old(self).images@[old(self).instances@[h as int].image as int],
        ensures
            final(self).images == old(self).images,
            final(self).instances@ == old(self).instances@.update(
                h as int,
                (Instance {
                    image: old(self).instances@[h as int].image,
                    live: false,
                    app: old(self).instances@[h as int].app,
                }),
            ),
    {
        let image = self.instances[h].image;
        let state = self.instances[h].app.state;
        self.instances[h] = Instance { image, live: false, app: CoreApp::new(state) };
        proof {
            assert(final(self).instances@ =~= old(self).instances@.update(
                h as int,
                (Instance {
                    image: old(self).instances@[h as int].image,
                    live: false,
                    app: old(self).instances@[h as int].app,
                }),
            ));
        }
    }

    /// Forward one application event to a live instance.
    pub fn update_instance(&mut self, h: usize, message: Message)
        requires
            h < old(self).instances@.len(),
            old(self).instances@[h as int].live,
            old(self).instances@[h as int].image < old(self).images@.len(),
            old(self).images@[old(self).instances@[h as int].image as int],
            core_update_ok(old(self).instances@[h as int].app.state, message),
        ensures
            final(self).images == old(self).images,
            final(self).instances@ == old(self).instances@.update(
                h as int,
                (Instance {
                    image: old(self).instances@[h as int].image,
                    live: true,
                    app: CoreApp {
                        state: spec_core_update(old(self).instances@[h as int].app.state, message),
                    },
                }),
            ),
    {
        let image = self.instances[h].image;
        let state = self.instances[h].app.state;
        let mut app = CoreApp::new(state);
        app.update(message);
        self.instances[h] = Instance { image, live: true, app };
    }

    /// Ask a live instance for the state snapshot it would carry across
    /// a reload.
    pub fn instance_state(&self, h: usize) -> (r: AppState)
        requires
            h < self.instances@.len(),
            self.instances@[h as int].live,
            self.instances@[h as int].image < self.images@.len(),
            self.images@[self.instances@[h as int].image as int],
        ensures
            r == self.instances@[h as int].app.state,
    {
        self.instances[h].app.state()
    }

    /// Ask a live instance to describe its current frame.
    pub fn instance_view(&self, h: usize) -> (r: ViewDescription)
        requires
            h < self.instances@.len(),
            self.instances@[h as int].live,
            self.instances@[h as int].image < self.images@.len(),
            self.images@[self.instances@[h as int].image as int],
        ensures
            r == (ViewDescription::Counter { value: self.instances@[h as int].app.state.counter }),
    {
        self.instances[h].app.view()
    }
}

} // verus!
