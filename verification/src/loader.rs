//! The library loader: given a module descriptor and a state value,
//! produce a freshly loaded, independently addressed copy of the
//! module's build artifact, resolve its two entry points, invoke
//! construction, and report the artifact's modification time. The
//! filesystem and the OS loader are modeled by `FileSystem`: what each
//! step of the sequence will do is plain data, so every path through
//! the sequence, and exactly which error each failing step reports, is
//! verified.

use vstd::prelude::*;
use crate::naming::{
    make_lib_path, spec_lib_path, spec_versioned_path, versioned_lib_path, BuildProfile, Platform,
};
use crate::calendar::YEAR_BOUND_SECONDS;
use crate::runtime::{Instance, ModuleRuntime};
use crate::core_app::CoreApp;
use crate::shared::AppState;

verus! {

/// The static identity of a loadable module: its logical name, the
/// build profile and platform that place its artifact, and the names of
/// its two required entry symbols.
pub struct ModuleDescriptor {
    pub name: String,
    pub create_symbol: String,
    pub destroy_symbol: String,
    pub profile: BuildProfile,
    pub platform: Platform,
}

impl ModuleDescriptor {
    pub fn new(
        name: String,
        create_symbol: String,
        destroy_symbol: String,
        profile: BuildProfile,
        platform: Platform,
    ) -> (r: ModuleDescriptor)
        ensures
            r.name == name,
            r.create_symbol == create_symbol,
            r.destroy_symbol == destroy_symbol,
            r.profile == profile,
            r.platform == platform,
    {
        ModuleDescriptor { name, create_symbol, destroy_symbol, profile, platform }
    }

    /// The canonical build-output path of this module's artifact.
    pub open spec fn spec_artifact_path(self) -> Seq<char> {
        spec_lib_path(self.name@, self.profile, self.platform)
    }

    /// The path of the versioned copy for a load at modification time
    /// `secs`.
    pub open spec fn spec_versioned_path_at(self, secs: int) -> Seq<char> {
        spec_versioned_path(self.name@, secs, self.profile, self.platform)
    }

    pub fn artifact_path(&self) -> (r: String)
        ensures
            r@ == self.spec_artifact_path(),
    {
        make_lib_path(self.name.as_str(), self.profile, self.platform)
    }
}

/// What the build artifact on disk will do at each step of a load
/// attempt: whether its metadata and modification timestamp can be
/// read, whether copying it succeeds, whether the OS loader accepts the
/// copy, which entry symbols the image exports, and whether the
/// module's constructor hands back a non-null instance.
#[derive(Clone, Copy, Debug, PartialEq, Eq, Structural)]
pub struct Artifact {
    pub readable: bool,
    pub has_timestamp: bool,
    pub modified: u64,
    pub copy_ok: bool,
    pub loadable: bool,
    pub has_create: bool,
    pub has_destroy: bool,
    pub create_ok: bool,
}

/// The filesystem as the loader sees it: the one build artifact, and
/// the versioned copies written so far in this process.
pub struct FileSystem {
    pub artifact: Artifact,
    pub copies: Vec<String>,
}

impl FileSystem {
    pub fn new(artifact: Artifact) -> (r: FileSystem)
        ensures
            r.artifact == artifact,
            r.copies@.len() == 0,
    {
        FileSystem { artifact, copies: Vec::new() }
    }
}

/// Everything that can go wrong during a reload attempt. All of these
/// are soft failures for the host: they abort only the attempt.
#[derive(Clone, Debug, PartialEq, Eq)]
pub enum LoadError {
    /// The artifact's filesystem metadata could not be read.
    MetadataUnavailable,
    /// The metadata carries no modification timestamp.
    TimestampUnavailable,
    /// Copying the artifact to its versioned path failed.
    CopyFailed,
    /// The OS loader rejected the versioned copy.
    LoadFailed,
    /// The named entry symbol is not exported by the image.
    SymbolNotFound(String),
    /// The create entry point returned a null instance handle.
    ConstructionFailed,
    /// An instance handle was required where none exists.
    NullInstance,
}

/// The result of a successful load: the OS-level library handle, the
/// constructed instance handle, and the artifact's modification time at
/// load, which becomes the change monitor's new baseline.
#[derive(Clone, Copy, Debug, PartialEq, Eq, Structural)]
pub struct LoadedModule {
    pub image: usize,
    pub instance: usize,
    pub modified: u64,
}

/// A load attempt against artifact `a` runs to completion.
pub open spec fn load_succeeds(a: Artifact) -> bool {
    a.readable && a.has_timestamp && a.copy_ok && a.loadable && a.has_create && a.has_destroy
        && a.create_ok
}

/// A load attempt against artifact `a` gets as far as writing the
/// versioned copy.
pub open spec fn copy_written(a: Artifact) -> bool {
    a.readable && a.has_timestamp && a.copy_ok
}

/// A load attempt against artifact `a` gets as far as loading the
/// image.
pub open spec fn image_loaded(a: Artifact) -> bool {
    a.readable && a.has_timestamp && a.copy_ok && a.loadable
}

/// The error a failing load attempt reports: the first step that goes
/// wrong decides.
pub open spec fn spec_load_error(a: Artifact, d: ModuleDescriptor) -> LoadError {
    if !a.readable {
        LoadError::MetadataUnavailable
    } else if !a.has_timestamp {
        LoadError::TimestampUnavailable
    } else if !a.copy_ok {
        LoadError::CopyFailed
    } else if !a.loadable {
        LoadError::LoadFailed
    } else if !a.has_create {
        LoadError::SymbolNotFound(d.create_symbol)
    } else if !a.has_destroy {
        LoadError::SymbolNotFound(d.destroy_symbol)
    } else {
        LoadError::ConstructionFailed
    }
}

/// Load the module described by `descriptor`, constructing its instance
/// with `state`. On success the runtime holds one new resident image
/// and one new live instance constructed from `state`. On failure
/// nothing beyond the versioned copy is retained: an image loaded on
/// the way is released again, and no instance appears. The versioned
/// copy itself is deliberately not cleaned up; copies accumulate.
pub fn load(
    rt: &mut ModuleRuntime,
    fs: &mut FileSystem,
    descriptor: &ModuleDescriptor,
    state: AppState,
) -> (r: Result<LoadedModule, LoadError>)
    requires
        old(fs).artifact.modified < YEAR_BOUND_SECONDS,
        forall|j: int|
            0 <= j < old(rt).instances@.len() ==> old(rt).instances@[j].image < old(
                rt,
            ).images@.len(),
    ensures
        final(fs).artifact == old(fs).artifact,
        r is Ok <==> load_succeeds(old(fs).artifact),
        r is Err ==> r == Err::<LoadedModule, LoadError>(
            spec_load_error(old(fs).artifact, *descriptor),
        ),
        copy_written(old(fs).artifact) ==> final(fs).copies@.len() == old(fs).copies@.len() + 1
            && final(fs).copies@.subrange(0, old(fs).copies@.len() as int) == old(fs).copies@
            && final(fs).copies@.last()@ == descriptor.spec_versioned_path_at(
            old(fs).artifact.modified as int,
        ),
        !copy_written(old(fs).artifact) ==> final(fs).copies == old(fs).copies,
        r matches Ok(m) ==> m.image == old(rt).images@.len() && m.instance == old(
            rt,
        ).instances@.len() && m.modified == old(fs).artifact.modified && final(rt).images@ == old(
            rt,
        ).images@.push(true) && final(rt).instances@ == old(rt).instances@.push(
            (Instance { image: m.image, live: true, app: CoreApp { state } }),
        ),
        r is Err ==> final(rt).instances == old(rt).instances,
        r is Err && image_loaded(old(fs).artifact) ==> final(rt).images@ == old(
            rt,
        ).images@.push(false),
        r is Err && !image_loaded(old(fs).artifact) ==> final(rt).images == old(rt).images,
{
    let a = fs.artifact;
    if !a.readable {
        return Err(LoadError::MetadataUnavailable);
    }
    if !a.has_timestamp {
        return Err(LoadError::TimestampUnavailable);
    }
    if !a.copy_ok {
        return Err(LoadError::CopyFailed);
    }
    let copy_path = versioned_lib_path(
        descriptor.name.as_str(),
        a.modified,
        descriptor.profile,
        descriptor.platform,
    );
    let ghost copies_before = fs.copies@;
    fs.copies.push(copy_path);
    proof {
        assert(fs.copies@.subrange(0, copies_before.len() as int) =~= copies_before);
    }
    if !a.loadable {
        return Err(LoadError::LoadFailed);
    }
    let image = rt.load_image();
    if !a.has_create {
        rt.release_image(image);
        proof {
            assert(rt.images@ =~= old(rt).images@.push(false));
        }
        return Err(LoadError::SymbolNotFound(descriptor.create_symbol.clone()));
    }
    if !a.has_destroy {
        rt.release_image(image);
        proof {
            assert(rt.images@ =~= old(rt).images@.push(false));
        }
        return Err(LoadError::SymbolNotFound(descriptor.destroy_symbol.clone()));
    }
    match rt.create_instance(image, state, a.create_ok) {
        Some(instance) => Ok(LoadedModule { image, instance, modified: a.modified }),
        None => {
            rt.release_image(image);
            proof {
                assert(rt.images@ =~= old(rt).images@.push(false));
            }
            Err(LoadError::ConstructionFailed)
        }
    }
}

} // verus!
