//! Decides in which kind of environment the process runs, from the platform
//! it was built for and from what four probes of the file system gave.

use crate::text::{contains_ignore_ascii_case, contains_run, lowercased};
use vstd::prelude::*;

verus! {

/// The platform that the program was built for.
#[derive(Debug, Clone, Copy, PartialEq, Eq, Structural)]
pub enum Platform {
    Windows,
    MacOs,
    /// Linux and every other platform.
    Other,
}

/// The environment that a request is dispatched in.
#[derive(Debug, Clone, Copy, PartialEq, Eq, Structural)]
pub enum Environment {
    NativeWindows,
    MacOs,
    LinuxDesktop,
    /// Linux on top of a Windows kernel.
    LinuxWsl,
    /// Linux inside a container.
    ContainerizedLinux,
}

/// What the probes found. A text that could not be read is `None`.
#[derive(Debug, Clone, PartialEq, Eq)]
pub struct ProbeReadings {
    /// Whether the container marker file exists.
    pub marker_exists: bool,
    /// The description of the process's control groups.
    pub cgroup: Option<String>,
    /// The release of the kernel.
    pub osrelease: Option<String>,
    /// The version of the kernel.
    pub version: Option<String>,
}

/// The mathematical value of [`ProbeReadings`].
pub struct ProbeReadingsView {
    pub marker_exists: bool,
    pub cgroup: Option<Seq<char>>,
    pub osrelease: Option<Seq<char>>,
    pub version: Option<Seq<char>>,
}

impl View for ProbeReadings {
    type V = ProbeReadingsView;

    open spec fn view(&self) -> ProbeReadingsView {
        ProbeReadingsView {
            marker_exists: self.marker_exists,
            cgroup: self.cgroup.deep_view(),
            osrelease: self.osrelease.deep_view(),
            version: self.version.deep_view(),
        }
    }
}

/// The file whose existence marks a container.
pub const DOCKER_MARKER_PATH: &'static str = "/.dockerenv";

/// The file that describes the control groups of the process.
pub const CGROUP_PATH: &'static str = "/proc/self/cgroup";

/// The file that holds the release of the kernel.
pub const OSRELEASE_PATH: &'static str = "/proc/sys/kernel/osrelease";

/// The file that holds the version of the kernel.
pub const VERSION_PATH: &'static str = "/proc/version";

/// A probed text mentions `word`, whatever the case of its ASCII letters. A
/// text that could not be read mentions nothing.
pub open spec fn mentions(reading: Option<Seq<char>>, word: Seq<char>) -> bool {
    match reading {
        Some(text) => contains_run(lowercased(text), word),
        None => false,
    }
}

/// The readings are those of a container: the marker file exists, or the
/// control groups mention docker.
pub open spec fn docker(readings: ProbeReadingsView) -> bool {
    readings.marker_exists || mentions(readings.cgroup, "docker"@)
}

/// The readings are those of Linux on a Windows kernel: not those of a
/// container, and the kernel's release or version mentions microsoft.
pub open spec fn wsl(readings: ProbeReadingsView) -> bool {
    !docker(readings) && (mentions(readings.osrelease, "microsoft"@) || mentions(
        readings.version,
        "microsoft"@,
    ))
}

/// The environment for a platform and its readings. Only the third platform
/// looks at the readings.
pub open spec fn environment_of(platform: Platform, readings: ProbeReadingsView) -> Environment {
    match platform {
        Platform::Windows => Environment::NativeWindows,
        Platform::MacOs => Environment::MacOs,
        Platform::Other => if docker(readings) {
            Environment::ContainerizedLinux
        } else if wsl(readings) {
            Environment::LinuxWsl
        } else {
            Environment::LinuxDesktop
        },
    }
}

/// A container is never taken for Linux on a Windows kernel, whatever its
/// kernel says of itself, and is classified as a container.
pub proof fn lemma_container_is_not_wsl(readings: ProbeReadingsView)
    requires
        docker(readings),
    ensures
        !wsl(readings),
        environment_of(Platform::Other, readings) == Environment::ContainerizedLinux,
{
}

/// The three environments of the third platform exclude each other, and
/// each stands for what the readings say.
pub proof fn lemma_classification(readings: ProbeReadingsView)
    ensures
        environment_of(Platform::Other, readings) == Environment::ContainerizedLinux <==> docker(
            readings,
        ),
        environment_of(Platform::Other, readings) == Environment::LinuxWsl <==> wsl(readings),
        environment_of(Platform::Other, readings) == Environment::LinuxDesktop <==> !docker(
            readings,
        ) && !wsl(readings),
{
}

fn reading_mentions(reading: &Option<String>, word: &str) -> (r: bool)
    ensures
        r == mentions(reading.deep_view(), word@),
{
    match reading {
        Some(text) => contains_ignore_ascii_case(text.as_str(), word),
        None => false,
    }
}

/// Whether the process runs inside a container.
pub fn is_docker(readings: &ProbeReadings) -> (r: bool)
    ensures
        r == docker(readings@),
{
    readings.marker_exists || reading_mentions(&readings.cgroup, "docker")
}

/// Whether the process runs on Linux on top of a Windows kernel. A container
/// never counts as such, whatever its kernel says.
pub fn is_wsl(readings: &ProbeReadings) -> (r: bool)
    ensures
        r == wsl(readings@),
        docker(readings@) ==> !r,
{
    if is_docker(readings) {
        return false;
    }
    if reading_mentions(&readings.osrelease, "microsoft") {
        return true;
    }
    if reading_mentions(&readings.version, "microsoft") {
        return true;
    }
    false
}

/// Classifies the environment.
pub fn classify(platform: Platform, readings: &ProbeReadings) -> (r: Environment)
    ensures
        r == environment_of(platform, readings@),
{
    match platform {
        Platform::Windows => Environment::NativeWindows,
        Platform::MacOs => Environment::MacOs,
        Platform::Other => {
            if is_docker(readings) {
                Environment::ContainerizedLinux
            } else if is_wsl(readings) {
                Environment::LinuxWsl
            } else {
                Environment::LinuxDesktop
            }
        },
    }
}

} // verus!
