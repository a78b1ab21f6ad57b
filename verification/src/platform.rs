//! What differs between the operating systems that the supervisor runs on.

use vstd::prelude::*;

verus! {

/// The family of operating system that the supervisor runs on.
#[derive(Clone, Copy, Debug, PartialEq, Eq, Structural)]
pub enum Platform {
    /// Linux, macOS and their kin.
    Unix,
    /// Windows.
    Windows,
}

/// The process creation flag that keeps a console program from opening a
/// window on Windows.
pub const CREATE_NO_WINDOW: u32 = 0x0800_0000;

/// The name that every worker process carries, on any platform.
pub open spec fn worker_name() -> Seq<char> {
    "provisioning-station"@
}

/// The file name of the worker executable on `platform`.
pub open spec fn sidecar_exe_name(platform: Platform) -> Seq<char> {
    match platform {
        Platform::Unix => "provisioning-station"@,
        Platform::Windows => "provisioning-station.exe"@,
    }
}

/// The name of the directory of support files that is bundled beside the
/// worker executable.
pub open spec fn support_dir_name() -> Seq<char> {
    "_internal"@
}

/// The name of the cache directory, below the per-user data directory of
/// the application.
pub open spec fn cache_dir_name() -> Seq<char> {
    "sidecar"@
}

/// The file name of the worker executable on `platform`.
pub fn get_sidecar_exe_name(platform: Platform) -> (name: &'static str)
    ensures
        name@ == sidecar_exe_name(platform),
{
    match platform {
        Platform::Unix => "provisioning-station",
        Platform::Windows => "provisioning-station.exe",
    }
}

/// The name that every worker process carries, on any platform.
pub fn get_worker_name() -> (name: &'static str)
    ensures
        name@ == worker_name(),
{
    "provisioning-station"
}

/// The name of the directory of support files.
pub fn get_support_dir_name() -> (name: &'static str)
    ensures
        name@ == support_dir_name(),
{
    "_internal"
}

/// The name of the cache directory, below the per-user data directory of
/// the application.
pub fn get_cache_dir_name() -> (name: &'static str)
    ensures
        name@ == cache_dir_name(),
{
    "sidecar"
}

} // verus!
