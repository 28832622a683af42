//! Choice of the backend from the desktop session and the tools found.

use vstd::prelude::*;
use vstd::string::*;
use crate::backend::LinuxWallpaperCommand;

verus! {

/// No backend could be determined for this desktop.
#[derive(Clone, Copy, Debug, PartialEq, Eq, Structural)]
pub enum DetectionError {
    NoSupportedCommand,
}

impl DetectionError {
    pub fn message(&self) -> (r: String)
        ensures
            r@ == "No supported command found!"@,
    {
        String::from_str("No supported command found!")
    }
}

/// The backend that the fixed table gives for a desktop-session identifier.
pub open spec fn session_backend(session: Seq<char>) -> Option<LinuxWallpaperCommand> {
    if session == "GNOME"@ || session == "ubuntu:GNOME"@ {
        Some(LinuxWallpaperCommand::GSettings)
    } else if session == "XFCE"@ {
        Some(LinuxWallpaperCommand::XfConf)
    } else if session == "KDE"@ {
        Some(LinuxWallpaperCommand::DbusPlasma)
    } else if session == "sway"@ || session == "Hyprland"@ {
        Some(LinuxWallpaperCommand::SwayBG)
    } else {
        None
    }
}

/// The backend chosen for a session (absent when the environment names
/// none) and the outcome of probing for `nitrogen` and for `feh`.
pub open spec fn detect_spec(session: Option<Seq<char>>, nitrogen_found: bool, feh_found: bool) -> Result<
    LinuxWallpaperCommand,
    DetectionError,
> {
    let known = match session {
        Some(s) => session_backend(s),
        None => None,
    };
    match known {
        Some(k) => Ok(k),
        None => if nitrogen_found {
            Ok(LinuxWallpaperCommand::Nitrogen)
        } else if feh_found {
            Ok(LinuxWallpaperCommand::Feh)
        } else {
            Err(DetectionError::NoSupportedCommand)
        },
    }
}

pub open spec fn opt_view(s: Option<&str>) -> Option<Seq<char>> {
    match s {
        Some(t) => Some(t@),
        None => None,
    }
}

/// Character-wise equality of two strings.
pub fn str_equal(a: &str, b: &str) -> (r: bool)
    ensures
        r == (a@ == b@),
{
    let n = a.unicode_len();
    if n != b.unicode_len() {
        return false;
    }
    let mut i: usize = 0;
    while i < n
        invariant
            i <= n,
            n == a@.len(),
            n == b@.len(),
            forall|j: int| 0 <= j < i ==> a@[j] == b@[j],
        decreases n - i,
    {
        if a.get_char(i) != b.get_char(i) {
            return false;
        }
        i = i + 1;
    }
    proof {
        assert(a@ =~= b@);
    }
    true
}

/// Looks a desktop-session identifier up in the fixed table.
pub fn backend_for_session(session: &str) -> (r: Option<LinuxWallpaperCommand>)
    ensures
        r == session_backend(session@),
{
    if str_equal(session, "GNOME") || str_equal(session, "ubuntu:GNOME") {
        Some(LinuxWallpaperCommand::GSettings)
    } else if str_equal(session, "XFCE") {
        Some(LinuxWallpaperCommand::XfConf)
    } else if str_equal(session, "KDE") {
        Some(LinuxWallpaperCommand::DbusPlasma)
    } else if str_equal(session, "sway") || str_equal(session, "Hyprland") {
        Some(LinuxWallpaperCommand::SwayBG)
    } else {
        None
    }
}

/// Whether the session alone leaves the backend open, so that the tools
/// have to be probed for.
pub fn needs_tool_probe(session: Option<&str>) -> (r: bool)
    ensures
        r == (detect_spec(opt_view(session), false, false) is Err),
{
    match session {
        Some(s) => backend_for_session(s).is_none(),
        None => true,
    }
}

/// Picks the backend: the session's entry in the table when there is one,
/// else `nitrogen`, else `feh`, else an error.
pub fn detect(session: Option<&str>, nitrogen_found: bool, feh_found: bool) -> (r: Result<
    LinuxWallpaperCommand,
    DetectionError,
>)
    ensures
        r == detect_spec(opt_view(session), nitrogen_found, feh_found),
{
    let known = match session {
        Some(s) => backend_for_session(s),
        None => None,
    };
    match known {
        Some(k) => Ok(k),
        None => if nitrogen_found {
            Ok(LinuxWallpaperCommand::Nitrogen)
        } else if feh_found {
            Ok(LinuxWallpaperCommand::Feh)
        } else {
            Err(DetectionError::NoSupportedCommand)
        },
    }
}

/// Every supported session identifier selects the backend of the table,
/// whatever tools are installed.
pub proof fn lemma_supported_session_decides(session: Seq<char>, nitrogen_found: bool, feh_found: bool)
    requires
        session_backend(session) is Some,
    ensures
        detect_spec(Some(session), nitrogen_found, feh_found) == Ok::<
            LinuxWallpaperCommand,
            DetectionError,
        >(session_backend(session)->0),
        session == "GNOME"@ ==> session_backend(session) == Some(LinuxWallpaperCommand::GSettings),
        session == "ubuntu:GNOME"@ ==> session_backend(session) == Some(
            LinuxWallpaperCommand::GSettings,
        ),
        session == "XFCE"@ ==> session_backend(session) == Some(LinuxWallpaperCommand::XfConf),
        session == "KDE"@ ==> session_backend(session) == Some(LinuxWallpaperCommand::DbusPlasma),
        session == "sway"@ ==> session_backend(session) == Some(LinuxWallpaperCommand::SwayBG),
        session == "Hyprland"@ ==> session_backend(session) == Some(LinuxWallpaperCommand::SwayBG),
{
    reveal_strlit("GNOME");
    reveal_strlit("ubuntu:GNOME");
    reveal_strlit("XFCE");
    reveal_strlit("KDE");
    reveal_strlit("sway");
    reveal_strlit("Hyprland");
    assert("XFCE"@.len() != "GNOME"@.len() && "XFCE"@.len() != "ubuntu:GNOME"@.len());
    assert("KDE"@.len() != "GNOME"@.len() && "KDE"@.len() != "ubuntu:GNOME"@.len()
        && "KDE"@.len() != "XFCE"@.len());
    assert("sway"@.len() != "GNOME"@.len() && "sway"@.len() != "ubuntu:GNOME"@.len()
        && "sway"@.len() != "KDE"@.len() && "sway"@[0] != "XFCE"@[0]);
}

/// For an unrecognised session, the one tool that is installed decides the
/// backend, and with neither tool detection fails.
pub proof fn lemma_unknown_session_probes(session: Option<Seq<char>>, nitrogen_found: bool, feh_found: bool)
    requires
        session matches Some(s) ==> session_backend(s) is None,
    ensures
        nitrogen_found && !feh_found ==> detect_spec(session, nitrogen_found, feh_found) == Ok::<
            LinuxWallpaperCommand,
            DetectionError,
        >(LinuxWallpaperCommand::Nitrogen),
        !nitrogen_found && feh_found ==> detect_spec(session, nitrogen_found, feh_found) == Ok::<
            LinuxWallpaperCommand,
            DetectionError,
        >(LinuxWallpaperCommand::Feh),
        !nitrogen_found && !feh_found ==> detect_spec(session, nitrogen_found, feh_found) == Err::<
            LinuxWallpaperCommand,
            DetectionError,
        >(DetectionError::NoSupportedCommand),
{
}

} // verus!
