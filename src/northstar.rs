//! Decisions around launching the game: whether the core mods agree on a
//! version, and whether a launch may go ahead.
use vstd::prelude::*;

verus! {

/// How the game was installed.
#[derive(PartialEq, Eq, Structural, Clone, Copy, Debug)]
pub enum InstallType {
    Steam,
    Origin,
    EaPlay,
    Unknown,
}

/// Why the core mods have no common version.
pub enum VersionError {
    Mismatch,
}

/// Why a launch is refused.
#[derive(PartialEq, Eq, Structural, Clone, Copy, Debug)]
pub enum LaunchRefusal {
    /// This host and install type cannot be launched yet.
    Unsupported,
    /// The core mods failed their version check.
    ChecksNotMet,
    /// Neither the EA app nor Origin is running.
    EaAppNotRunning,
}

/// The version shared by every core mod, given the version read from each in
/// turn; the first one read is the reference.
pub fn common_version(versions: &Vec<String>) -> (r: Result<String, VersionError>)
    requires
        versions@.len() > 0,
    ensures
        r is Ok <==> forall|i: int| 0 <= i < versions@.len() ==> #[trigger] versions@[i]@ == versions@[0]@,
        r matches Ok(v) ==> v@ == versions@[0]@,
{
    let first = &versions[0];
    let mut i: usize = 1;
    while i < versions.len()
        invariant
            1 <= i <= versions.len(),
            first@ == versions@[0]@,
            forall|k: int| 0 <= k < i ==> #[trigger] versions@[k]@ == versions@[0]@,
        decreases versions.len() - i,
    {
        if !versions[i].eq(first) {
            return Err(VersionError::Mismatch);
        }
        i = i + 1;
    }
    Ok(first.clone())
}

pub open spec fn supported_spec(host_os: Seq<char>, t: InstallType) -> bool {
    host_os == "windows"@ && (t == InstallType::Steam || t == InstallType::Origin || t
        == InstallType::Unknown)
}

/// Launching is supported on Windows for Steam, Origin and unknown installs.
pub fn launch_supported(host_os: &str, t: InstallType) -> (r: bool)
    ensures
        r == supported_spec(host_os@, t),
{
    let w = String::from_str("windows");
    host_os_is(host_os, &w) && (t == InstallType::Steam || t == InstallType::Origin || t
        == InstallType::Unknown)
}

fn host_os_is(host_os: &str, w: &String) -> (r: bool)
    ensures
        r == (host_os@ == w@),
{
    let h = String::from_str(host_os);
    h.eq(w)
}

/// Whether a launch goes ahead. Unsupported setups are refused first; unless
/// the checks are bypassed (absent means not bypassed), a failed version
/// check and then a missing EA app refuse it.
pub fn launch_verdict(supported: bool, bypass_checks: Option<bool>, versions_ok: bool, ea_running: bool) -> (r: Result<(), LaunchRefusal>)
    ensures
        r == if !supported {
            Err(LaunchRefusal::Unsupported)
        } else if bypass_checks == Some(true) {
            Ok(())
        } else if !versions_ok {
            Err(LaunchRefusal::ChecksNotMet)
        } else if !ea_running {
            Err(LaunchRefusal::EaAppNotRunning)
        } else {
            Ok(())
        },
{
    if !supported {
        return Err(LaunchRefusal::Unsupported);
    }
    let bypass = match bypass_checks {
        Some(b) => b,
        None => false,
    };
    if !bypass {
        if !versions_ok {
            return Err(LaunchRefusal::ChecksNotMet);
        }
        if !ea_running {
            return Err(LaunchRefusal::EaAppNotRunning);
        }
    }
    Ok(())
}

} // verus!
