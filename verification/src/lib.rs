//! In-memory redirection of an Electron application's resource archive.
//!
//! A launcher starts the application with a library injected into it. The
//! library intercepts the few calls with which the application looks for
//! its archive `resources/app.asar` and sends them to a replacement
//! archive; no file of the application is touched, and its updater goes on
//! working. The application's own archive stays reachable as `_app.asar`.
//!
//! This crate holds the decisions: which path is redirected where
//! ([`redirect`]), what the launcher hands to the library and how
//! ([`config`], [`launcher`], [`sandbox`]), in which order a launch and an
//! installation of hooks proceed ([`lifecycle`], [`install`]), and what the
//! replacement archive is made of ([`asar`], [`paths`]). Starting
//! processes, attaching hooks and writing files are the caller's part.

pub mod asar;
pub mod config;
pub mod hooks;
pub mod install;
pub mod launcher;
pub mod lifecycle;
pub mod pathname;
pub mod paths;
pub mod redirect;
pub mod sandbox;
pub mod text;

pub use crate::sandbox::FlatpakID;

use crate::launcher::{json_text, planned, LaunchError, LaunchPlan, LaunchSpec, Plan, ProcessLauncher, Request};
use crate::sandbox::{launch_sandboxed, sandboxed, SandboxHost};
use crate::text::texts;
use vstd::prelude::*;

verus! {

/// The view of an optional text.
pub open spec fn opt_str(o: Option<&str>) -> Option<Seq<char>> {
    match o {
        Some(s) => Some(s@),
        None => None,
    }
}

/// Plans the launch of `executable` with the library `library_path`
/// injected and the archive `asar_path` in place of the application's own.
///
/// `args` go to the executable. With `profile_dir` the application keeps
/// its data apart from its usual profile. With `detach` it is let go once
/// it runs, in a session of its own and with its streams closed, so that
/// it outlives the launcher; without, the launcher waits for it.
///
/// The launcher's own arguments travel in the configuration channel as a
/// list in JSON.
pub fn launch(
    executable: &str,
    library_path: &str,
    asar_path: &str,
    args: Vec<String>,
    profile_dir: Option<&str>,
    detach: bool,
    launcher: &ProcessLauncher,
) -> (r: Result<LaunchPlan, LaunchError>)
    ensures
        match r {
            Ok(p) => planned(
                launcher.injection,
                launcher.current_executable@,
                (Request {
                    executable: executable@,
                    library_path: library_path@,
                    asar_path: asar_path@,
                    arguments: texts(args@),
                    profile_dir: opt_str(profile_dir),
                    detach,
                }),
                json_text(texts(launcher.forwarded_arguments@)),
            ) == Ok::<Plan, LaunchError>(p@),
            Err(e) => planned(
                launcher.injection,
                launcher.current_executable@,
                (Request {
                    executable: executable@,
                    library_path: library_path@,
                    asar_path: asar_path@,
                    arguments: texts(args@),
                    profile_dir: opt_str(profile_dir),
                    detach,
                }),
                json_text(texts(launcher.forwarded_arguments@)),
            ) == Err::<Plan, LaunchError>(e),
        },
        launcher.forwarded_arguments@.len() == 0 ==> json_text(
            texts(launcher.forwarded_arguments@),
        ) == "[]"@,
{
    let spec = LaunchSpec {
        executable: String::from_str(executable),
        library_path: String::from_str(library_path),
        asar_path: String::from_str(asar_path),
        arguments: args,
        profile_dir: match profile_dir {
            Some(p) => Some(String::from_str(p)),
            None => None,
        },
        detach,
    };
    launcher.plan(spec)
}

/// Plans the launch of the Flatpak package `id` inside its sandbox, with
/// the library `library_path` preloaded and the archive `asar_path` in
/// place of the application's own. `args` go to the application.
pub fn launch_flatpak(
    id: &FlatpakID,
    library_path: &str,
    asar_path: &str,
    args: Vec<String>,
    detach: bool,
    host: &SandboxHost,
) -> (r: Result<LaunchPlan, LaunchError>)
    ensures
        match r {
            Ok(p) => sandboxed(*id, library_path@, asar_path@, texts(args@), detach, *host) == Ok::<
                Plan,
                LaunchError,
            >(p@),
            Err(e) => sandboxed(*id, library_path@, asar_path@, texts(args@), detach, *host)
                == Err::<Plan, LaunchError>(e),
        },
{
    launch_sandboxed(id, library_path, asar_path, &args, detach, host)
}

} // verus!
