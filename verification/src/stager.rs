//! The artifact stager.
//!
//! A packaged worker comes as an executable with a directory of support
//! files. It must not run from inside the application bundle, so a copy is
//! kept in the per-user data directory and the worker is started from there.
//! The copy is made on the first launch and again whenever its fingerprint,
//! the size of the executable, differs from that of the bundled one.
//!
//! This module decides; the driver looks at the disk before and copies
//! after.

use vstd::prelude::*;
use crate::platform::{
    cache_dir_name, get_cache_dir_name, get_sidecar_exe_name, get_support_dir_name,
    sidecar_exe_name, support_dir_name, Platform,
};
use crate::text::{chars_of, contains_text, ends_with, has_suffix, has_text};

verus! {

/// What the driver found on disk.
#[derive(Clone, Copy, Debug, PartialEq, Eq, Structural)]
pub struct BundleProbe {
    /// The directory of support files is bundled beside the worker: the
    /// application runs from a packaged distribution.
    pub support_source_present: bool,
    /// The place of the bundled worker executable is known: it lies beside
    /// the running program, whose own path could be read.
    pub source_located: bool,
    /// The bundled worker executable exists.
    pub source_present: bool,
    /// The size of the bundled worker executable, where it can be read.
    pub source_size: Option<u64>,
    /// A staged executable exists.
    pub staged_executable_present: bool,
    /// A staged directory of support files exists.
    pub staged_support_present: bool,
    /// The size of the staged executable, where it can be read.
    pub staged_size: Option<u64>,
}

/// One operation on the disk.
#[derive(Clone, Copy, Debug, PartialEq, Eq, Structural)]
pub enum StageAction {
    /// Create the cache directory and what leads to it.
    CreateCacheDir,
    /// Copy the bundled executable into the cache directory.
    CopyExecutable,
    /// Set the executable permission on the staged executable.
    MarkExecutable,
    /// Remove the staged directory of support files with all it holds.
    RemoveSupportDir,
    /// Copy the bundled directory of support files, with all it holds, into
    /// the cache directory.
    CopySupportDir,
    /// Set the executable permission on every shared library in the staged
    /// directory of support files.
    MarkLibraries,
}

/// What the stager decides.
#[derive(Clone, Debug, PartialEq, Eq)]
pub enum StagePlan {
    /// The application does not run from a packaged distribution: there is
    /// nothing to stage, and the worker is launched by the default
    /// mechanism.
    NotApplicable,
    /// The staged copy is fresh and is used as it is.
    Reuse,
    /// The staged copy is missing or stale. The operations are carried out
    /// in this order; the first that fails ends the staging as failed.
    Restage { actions: Vec<StageAction> },
    /// The staging fails before anything is copied: the bundled executable
    /// cannot be located, or a copy would have to be made and the executable
    /// is missing.
    SourceMissing,
}

/// The mathematical content of a [`StagePlan`].
pub enum StagePlanView {
    NotApplicable,
    Reuse,
    Restage { actions: Seq<StageAction> },
    SourceMissing,
}

impl View for StagePlan {
    type V = StagePlanView;

    open spec fn view(&self) -> StagePlanView {
        match self {
            StagePlan::NotApplicable => StagePlanView::NotApplicable,
            StagePlan::Reuse => StagePlanView::Reuse,
            StagePlan::Restage { actions } => StagePlanView::Restage { actions: actions@ },
            StagePlan::SourceMissing => StagePlanView::SourceMissing,
        }
    }
}

/// The contents of a list of names.
pub open spec fn names_of(names: Seq<&'static str>) -> Seq<Seq<char>> {
    Seq::new(names.len(), |i: int| names[i]@)
}

/// Where the staged executable lies, from the per-user data directory of
/// the application downwards: the name of the cache directory, then its own
/// name on `platform`.
pub open spec fn staged_executable_location(platform: Platform) -> Seq<Seq<char>> {
    seq![cache_dir_name(), sidecar_exe_name(platform)]
}

/// Where the staged directory of support files lies, from the per-user data
/// directory of the application downwards.
pub open spec fn staged_support_location() -> Seq<Seq<char>> {
    seq![cache_dir_name(), support_dir_name()]
}

/// The names that lead from the per-user data directory of the application
/// to the staged executable.
pub fn get_staged_executable_location(platform: Platform) -> (names: Vec<&'static str>)
    ensures
        names_of(names@) == staged_executable_location(platform),
{
    let mut names: Vec<&'static str> = Vec::new();
    names.push(get_cache_dir_name());
    names.push(get_sidecar_exe_name(platform));
    assert(names_of(names@) =~= staged_executable_location(platform));
    names
}

/// The names that lead from the per-user data directory of the application
/// to the staged directory of support files.
pub fn get_staged_support_location() -> (names: Vec<&'static str>)
    ensures
        names_of(names@) == staged_support_location(),
{
    let mut names: Vec<&'static str> = Vec::new();
    names.push(get_cache_dir_name());
    names.push(get_support_dir_name());
    assert(names_of(names@) =~= staged_support_location());
    names
}

/// The fingerprint of an executable: its size, and 0 where that cannot be
/// read.
pub open spec fn fingerprint(size: Option<u64>) -> u64 {
    match size {
        Some(n) => n,
        None => 0,
    }
}

impl BundleProbe {
    /// A staged copy exists in full and has the fingerprint of the bundled
    /// executable.
    pub open spec fn cache_is_fresh(self) -> bool {
        &&& self.staged_executable_present
        &&& self.staged_support_present
        &&& fingerprint(self.source_size) == fingerprint(self.staged_size)
    }

    /// What the driver finds after the operations of a restaging were all
    /// carried out, the bundle being as before.
    pub open spec fn after_restage(self) -> BundleProbe {
        BundleProbe {
            staged_executable_present: true,
            staged_support_present: true,
            staged_size: self.source_size,
            ..self
        }
    }
}

/// The operations of a restaging, in their order. The old directory of
/// support files is removed before the new one is copied. Permissions are
/// set where the platform has them, because copying does not keep them
/// everywhere.
pub open spec fn restage_actions(platform: Platform, old_support: bool) -> Seq<StageAction> {
    let unix = platform == Platform::Unix;
    seq![StageAction::CreateCacheDir, StageAction::CopyExecutable] + (if unix {
        seq![StageAction::MarkExecutable]
    } else {
        Seq::empty()
    }) + (if old_support {
        seq![StageAction::RemoveSupportDir]
    } else {
        Seq::empty()
    }) + seq![StageAction::CopySupportDir] + (if unix {
        seq![StageAction::MarkLibraries]
    } else {
        Seq::empty()
    })
}

/// What is to be done about the staged copy, given what is on disk.
pub open spec fn stage_plan(platform: Platform, probe: BundleProbe) -> StagePlanView {
    if !probe.support_source_present {
        StagePlanView::NotApplicable
    } else if !probe.source_located {
        StagePlanView::SourceMissing
    } else if probe.cache_is_fresh() {
        StagePlanView::Reuse
    } else if !probe.source_present {
        StagePlanView::SourceMissing
    } else {
        StagePlanView::Restage {
            actions: restage_actions(platform, probe.staged_support_present),
        }
    }
}

fn size_fingerprint(size: Option<u64>) -> (f: u64)
    ensures
        f == fingerprint(size),
{
    match size {
        Some(n) => n,
        None => 0,
    }
}

/// Decides what is to be done about the staged copy of the worker.
pub fn plan_staging(platform: Platform, probe: BundleProbe) -> (plan: StagePlan)
    ensures
        plan@ == stage_plan(platform, probe),
{
    if !probe.support_source_present {
        return StagePlan::NotApplicable;
    }
    if !probe.source_located {
        return StagePlan::SourceMissing;
    }
    if probe.staged_executable_present && probe.staged_support_present && size_fingerprint(
        probe.source_size,
    ) == size_fingerprint(probe.staged_size) {
        return StagePlan::Reuse;
    }
    if !probe.source_present {
        return StagePlan::SourceMissing;
    }
    let unix = match platform {
        Platform::Unix => true,
        Platform::Windows => false,
    };
    let mut actions: Vec<StageAction> = Vec::new();
    actions.push(StageAction::CreateCacheDir);
    actions.push(StageAction::CopyExecutable);
    if unix {
        actions.push(StageAction::MarkExecutable);
    }
    if probe.staged_support_present {
        actions.push(StageAction::RemoveSupportDir);
    }
    actions.push(StageAction::CopySupportDir);
    if unix {
        actions.push(StageAction::MarkLibraries);
    }
    assert(actions@ =~= restage_actions(platform, probe.staged_support_present));
    StagePlan::Restage { actions }
}

/// How the worker is started.
#[derive(Clone, Copy, Debug, PartialEq, Eq, Structural)]
pub enum LaunchMethod {
    /// From the staged executable.
    Staged,
    /// By the default mechanism of the host shell.
    Default,
}

/// How the worker is started after a staging with the plan `plan`, whose
/// operations, if it had any, `succeeded` or not. A staging that was not
/// applicable or that failed is no error: the default mechanism takes over.
pub open spec fn launch_method(plan: StagePlanView, succeeded: bool) -> LaunchMethod {
    match plan {
        StagePlanView::Reuse => LaunchMethod::Staged,
        StagePlanView::Restage { .. } => if succeeded {
            LaunchMethod::Staged
        } else {
            LaunchMethod::Default
        },
        StagePlanView::NotApplicable | StagePlanView::SourceMissing => LaunchMethod::Default,
    }
}

/// Decides how the worker is started after a staging.
pub fn choose_launch_method(plan: &StagePlan, succeeded: bool) -> (method: LaunchMethod)
    ensures
        method == launch_method(plan@, succeeded),
{
    match plan {
        StagePlan::Reuse => LaunchMethod::Staged,
        StagePlan::Restage { .. } => if succeeded {
            LaunchMethod::Staged
        } else {
            LaunchMethod::Default
        },
        StagePlan::NotApplicable | StagePlan::SourceMissing => LaunchMethod::Default,
    }
}

/// A file with this name is a shared library: the name ends in `.so` or in
/// `.dylib`, or holds `.so.` before a version.
pub open spec fn is_library_name(name: Seq<char>) -> bool {
    ends_with(name, ".so"@) || contains_text(name, ".so."@) || ends_with(name, ".dylib"@)
}

/// Tells whether a file with this name is a shared library, whose
/// executable permission has to be restored after copying.
pub fn is_shared_library_name(name: &str) -> (r: bool)
    ensures
        r == is_library_name(name@),
{
    let chars = chars_of(name);
    has_suffix(&chars, &chars_of(".so")) || has_text(&chars, &chars_of(".so.")) || has_suffix(
        &chars,
        &chars_of(".dylib"),
    )
}

/// Where the fingerprint is unchanged, nothing is copied: a cache that is
/// fresh is reused as it is, without any operation on the disk.
pub proof fn lemma_fresh_cache_is_reused(platform: Platform, probe: BundleProbe)
    requires
        probe.support_source_present,
        probe.source_located,
        probe.cache_is_fresh(),
    ensures
        stage_plan(platform, probe) == StagePlanView::Reuse,
{
}

/// A launch that follows a restaging copies nothing, as long as the bundle
/// is the same.
pub proof fn lemma_second_launch_copies_nothing(platform: Platform, probe: BundleProbe)
    requires
        probe.support_source_present,
        probe.source_located,
    ensures
        stage_plan(platform, probe.after_restage()) == StagePlanView::Reuse,
{
}

/// In `actions` some `first` stands before some `second`.
pub open spec fn comes_before(
    actions: Seq<StageAction>,
    first: StageAction,
    second: StageAction,
) -> bool {
    exists|i: int, j: int|
        0 <= i < j < actions.len() && #[trigger] actions[i] == first && #[trigger] actions[j]
            == second
}

/// Where the fingerprint has changed, the old directory of support files is
/// replaced in full: it is removed, and only then the new one is copied,
/// after the new executable. The worker is started from the staged copy only
/// if all of that succeeded.
pub proof fn lemma_stale_cache_is_replaced(platform: Platform, probe: BundleProbe)
    requires
        probe.support_source_present,
        probe.source_located,
        probe.source_present,
        probe.staged_executable_present,
        probe.staged_support_present,
        fingerprint(probe.source_size) != fingerprint(probe.staged_size),
    ensures
        stage_plan(platform, probe) matches StagePlanView::Restage { actions } && {
            &&& comes_before(actions, StageAction::CopyExecutable, StageAction::RemoveSupportDir)
            &&& comes_before(actions, StageAction::RemoveSupportDir, StageAction::CopySupportDir)
        },
        launch_method(stage_plan(platform, probe), false) == LaunchMethod::Default,
{
    let actions = restage_actions(platform, true);
    let shift: int = if platform == Platform::Unix {
        1
    } else {
        0
    };
    assert(actions[1] == StageAction::CopyExecutable);
    assert(actions[2 + shift] == StageAction::RemoveSupportDir);
    assert(actions[3 + shift] == StageAction::CopySupportDir);
}

} // verus!
