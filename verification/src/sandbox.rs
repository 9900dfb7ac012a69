//! The sandbox path translator: a launch inside a Flatpak sandbox.
//!
//! The sandbox does not see the host's root. What lies under the user's home
//! is where it was; the rest of the host is found under `/run/host`. Every
//! path that the configuration channel carries into the sandbox is written
//! the way the sandbox will see it, and the invocation grants the sandbox
//! the directories that these paths name and nothing more.

use crate::config::env_view;
use crate::launcher::{append_texts, LaunchError, LaunchPlan, Plan};
use crate::pathname::{join, join_paths, parent, parent_of, PathStyle};
use crate::text::{concat2, concat3, starts_with, str_eq, str_starts_with, texts};
use vstd::prelude::*;

verus! {

/// The name of a Flatpak package and where it is installed.
#[derive(Clone, Debug, PartialEq, Eq)]
pub enum FlatpakID {
    /// An installation of the user: run with `--user`.
    User(String),
    /// An installation of the system: run with `--system`.
    System(String),
}

impl FlatpakID {
    /// The package's name.
    pub open spec fn id(self) -> Seq<char> {
        match self {
            FlatpakID::User(id) => id@,
            FlatpakID::System(id) => id@,
        }
    }

    /// The option that selects the installation.
    pub open spec fn scope_flag_spec(self) -> Seq<char> {
        match self {
            FlatpakID::User(_) => "--user"@,
            FlatpakID::System(_) => "--system"@,
        }
    }

    /// The package's name.
    pub fn to_string(&self) -> (r: String)
        ensures
            r@ == self.id(),
    {
        match self {
            FlatpakID::User(id) => id.clone(),
            FlatpakID::System(id) => id.clone(),
        }
    }

    /// The option that selects the installation.
    pub fn scope_flag(&self) -> (r: &'static str)
        ensures
            r@ == self.scope_flag_spec(),
    {
        match self {
            FlatpakID::User(_) => "--user",
            FlatpakID::System(_) => "--system",
        }
    }
}

/// Whether the library has to be looked for in the current directory: its
/// path does not begin with `/`.
pub open spec fn is_bare(library_path: Seq<char>) -> bool {
    !starts_with(library_path, "/"@)
}

/// Whether `path` lies in the tree of the users' homes: it is `/home` or
/// begins with `/home/`.
pub open spec fn under_home(path: Seq<char>) -> bool {
    path == "/home"@ || starts_with(path, "/home/"@)
}

/// The library's path as the sandbox sees it. A path in the tree of the
/// users' homes is kept; any other path that begins with `/` is found under
/// `/run/host`; a bare name is the file of that name in the current
/// directory if there is one, and else a library under `/run/host/usr/lib`.
pub open spec fn translated_library(
    library_path: Seq<char>,
    current_dir: Seq<char>,
    is_local_file: bool,
) -> Seq<char> {
    if under_home(library_path) {
        library_path
    } else if !is_bare(library_path) {
        "/run/host"@ + library_path
    } else if is_local_file {
        join(PathStyle::Posix, current_dir, library_path)
    } else {
        "/run/host/usr/lib/"@ + library_path
    }
}

/// The launcher's executable as the sandbox sees it: under `/run/host`
/// where its path begins with `/usr`.
pub open spec fn translated_executable(executable: Seq<char>) -> Seq<char> {
    if starts_with(executable, "/usr"@) {
        "/run/host"@ + executable
    } else {
        executable
    }
}

/// The file to look for before a bare library name is translated: the name
/// below the current directory. An absolute path needs no such look.
pub fn library_candidate(library_path: &str, current_dir: &str) -> (r: Option<String>)
    ensures
        match r {
            Some(c) => is_bare(library_path@) && c@ == join(
                PathStyle::Posix,
                current_dir@,
                library_path@,
            ),
            None => !is_bare(library_path@),
        },
{
    if str_starts_with(library_path, "/") {
        None
    } else {
        Some(join_paths(PathStyle::Posix, current_dir, library_path))
    }
}

/// The library's path as the sandbox sees it. `is_local_file` says whether
/// the file that `library_candidate` names exists.
pub fn translate_library_path(library_path: &str, current_dir: &str, is_local_file: bool) -> (r:
    String)
    ensures
        r@ == translated_library(library_path@, current_dir@, is_local_file),
{
    if str_eq(library_path, "/home") || str_starts_with(library_path, "/home/") {
        String::from_str(library_path)
    } else if str_starts_with(library_path, "/") {
        concat2("/run/host", library_path)
    } else if is_local_file {
        join_paths(PathStyle::Posix, current_dir, library_path)
    } else {
        concat2("/run/host/usr/lib/", library_path)
    }
}

/// The launcher's executable as the sandbox sees it.
pub fn translate_executable(executable: &str) -> (r: String)
    ensures
        r@ == translated_executable(executable@),
{
    if str_starts_with(executable, "/usr") {
        concat2("/run/host", executable)
    } else {
        String::from_str(executable)
    }
}

/// What the launcher knows of the host when it plans a sandboxed launch.
#[derive(Clone, Debug, PartialEq, Eq)]
pub struct SandboxHost {
    /// The current directory.
    pub current_dir: String,
    /// Whether the library's name, below the current directory, is a file.
    pub library_is_local_file: bool,
    /// The mod's entry point, where it is known.
    pub mod_entrypoint: Option<String>,
    /// The path of the launcher's own executable.
    pub current_executable: String,
}

/// What the sandbox is granted: the archive's directory, the library and
/// the launcher's executable to read, the mod's directory to write.
pub open spec fn grants(
    asar_dir: Seq<char>,
    library: Seq<char>,
    executable: Seq<char>,
    mod_dir: Seq<char>,
) -> Seq<Seq<char>> {
    seq![
        "--filesystem="@ + asar_dir + ":ro"@,
        "--filesystem="@ + library + ":ro"@,
        "--filesystem="@ + executable + ":ro"@,
        "--filesystem="@ + mod_dir + ":create"@,
    ]
}

/// The variables that the sandbox sets for the target: the preload for its
/// own helper and the configuration channel.
pub open spec fn settings(library: Seq<char>, asar_path: Seq<char>, executable: Seq<char>) -> Seq<
    Seq<char>,
> {
    seq![
        "--env=ZYPAK_LD_PRELOAD="@ + library,
        "--env=MODLOADER_ASAR_PATH="@ + asar_path,
        "--env=MODLOADER_EXECUTABLE="@ + executable,
        "--env=MODLOADER_LIBRARY_PATH="@ + library,
        "--env=MODLOADER_ORIGINAL_ASAR_RELATIVE=../_app.asar"@,
    ]
}

/// The options that `flatpak` itself reads: `run`, the installation, the
/// grants and the variables. The package's name and the target's own
/// arguments follow them.
pub open spec fn options(
    id: FlatpakID,
    asar_path: Seq<char>,
    asar_dir: Seq<char>,
    library: Seq<char>,
    executable: Seq<char>,
    mod_dir: Seq<char>,
) -> Seq<Seq<char>> {
    seq!["run"@, id.scope_flag_spec()] + grants(asar_dir, library, executable, mod_dir) + settings(
        library,
        asar_path,
        executable,
    )
}

/// What `launch_sandboxed` returns: the plan, or the first check that
/// fails. The checks, in order: the archive's path has a parent directory;
/// the mod's entry point is known; it has a parent directory.
pub open spec fn sandboxed(
    id: FlatpakID,
    library_path: Seq<char>,
    asar_path: Seq<char>,
    args: Seq<Seq<char>>,
    detach: bool,
    host: SandboxHost,
) -> Result<Plan, LaunchError> {
    let asar_dir = parent(PathStyle::Posix, asar_path);
    let mod_dir = match host.mod_entrypoint {
        Some(e) => parent(PathStyle::Posix, e@),
        None => None,
    };
    if asar_dir is None {
        Err(LaunchError::AsarPathWithoutParent)
    } else if host.mod_entrypoint is None {
        Err(LaunchError::EntrypointNotSet)
    } else if mod_dir is None {
        Err(LaunchError::EntrypointWithoutParent)
    } else {
        let library = translated_library(
            library_path,
            host.current_dir@,
            host.library_is_local_file,
        );
        let executable = translated_executable(host.current_executable@);
        Ok(
            Plan {
                program: "flatpak"@,
                arguments: options(id, asar_path, asar_dir->0, library, executable, mod_dir->0)
                    + seq![id.id()] + args,
                command_line: None,
                working_dir: None,
                environment: Seq::empty(),
                injected_library: None,
                new_session: detach,
                null_streams: detach,
                wait_for_exit: !detach,
            },
        )
    }
}

/// Plans the launch of the package `id` inside its sandbox, with the
/// library preloaded and the replacement archive in place.
pub fn launch_sandboxed(
    id: &FlatpakID,
    library_path: &str,
    asar_path: &str,
    args: &Vec<String>,
    detach: bool,
    host: &SandboxHost,
) -> (r: Result<LaunchPlan, LaunchError>)
    ensures
        match r {
            Ok(p) => sandboxed(*id, library_path@, asar_path@, texts(args@), detach, *host) == Ok::<
                Plan,
                LaunchError,
            >(p@),
            Err(e) => sandboxed(*id, library_path@, asar_path@, texts(args@), detach, *host)
                == Err::<Plan, LaunchError>(e),
        },
{
    let asar_dir = match parent_of(PathStyle::Posix, asar_path) {
        Some(d) => d,
        None => {
            return Err(LaunchError::AsarPathWithoutParent);
        },
    };
    let entrypoint = match &host.mod_entrypoint {
        Some(e) => e,
        None => {
            return Err(LaunchError::EntrypointNotSet);
        },
    };
    let mod_dir = match parent_of(PathStyle::Posix, entrypoint.as_str()) {
        Some(d) => d,
        None => {
            return Err(LaunchError::EntrypointWithoutParent);
        },
    };
    let library = translate_library_path(
        library_path,
        host.current_dir.as_str(),
        host.library_is_local_file,
    );
    let executable = translate_executable(host.current_executable.as_str());
    let mut arguments: Vec<String> = Vec::new();
    arguments.push(String::from_str("run"));
    arguments.push(String::from_str(id.scope_flag()));
    arguments.push(concat3("--filesystem=", asar_dir.as_str(), ":ro"));
    arguments.push(concat3("--filesystem=", library.as_str(), ":ro"));
    arguments.push(concat3("--filesystem=", executable.as_str(), ":ro"));
    arguments.push(concat3("--filesystem=", mod_dir.as_str(), ":create"));
    arguments.push(concat2("--env=ZYPAK_LD_PRELOAD=", library.as_str()));
    arguments.push(concat2("--env=MODLOADER_ASAR_PATH=", asar_path));
    arguments.push(concat2("--env=MODLOADER_EXECUTABLE=", executable.as_str()));
    arguments.push(concat2("--env=MODLOADER_LIBRARY_PATH=", library.as_str()));
    arguments.push(String::from_str("--env=MODLOADER_ORIGINAL_ASAR_RELATIVE=../_app.asar"));
    arguments.push(id.to_string());
    let ghost head = texts(arguments@);
    assert(head =~= options(*id, asar_path@, asar_dir@, library@, executable@, mod_dir@) + seq![
        id.id(),
    ]);
    append_texts(&mut arguments, args);
    let plan = LaunchPlan {
        program: String::from_str("flatpak"),
        arguments,
        command_line: None,
        working_dir: None,
        environment: Vec::new(),
        injected_library: None,
        new_session: detach,
        null_streams: detach,
        wait_for_exit: !detach,
    };
    assert(env_view(plan.environment@) =~= Seq::empty());
    Ok(plan)
}

/// The sandbox is granted what the launch names and nothing more: among the
/// options that `flatpak` reads, those that grant access to files are
/// exactly the four of `grants`.
pub proof fn law_grants_are_minimal(
    id: FlatpakID,
    asar_path: Seq<char>,
    asar_dir: Seq<char>,
    library: Seq<char>,
    executable: Seq<char>,
    mod_dir: Seq<char>,
    i: int,
)
    requires
        0 <= i < options(id, asar_path, asar_dir, library, executable, mod_dir).len(),
    ensures
        starts_with(
            options(id, asar_path, asar_dir, library, executable, mod_dir)[i],
            "--filesystem="@,
        ) <==> 2 <= i < 6,
        2 <= i < 6 ==> options(id, asar_path, asar_dir, library, executable, mod_dir)[i] == grants(
            asar_dir,
            library,
            executable,
            mod_dir,
        )[i - 2],
{
    reveal_strlit("--filesystem=");
    reveal_strlit("run");
    reveal_strlit("--user");
    reveal_strlit("--system");
    reveal_strlit("--env=ZYPAK_LD_PRELOAD=");
    reveal_strlit("--env=MODLOADER_ASAR_PATH=");
    reveal_strlit("--env=MODLOADER_EXECUTABLE=");
    reveal_strlit("--env=MODLOADER_LIBRARY_PATH=");
    reveal_strlit("--env=MODLOADER_ORIGINAL_ASAR_RELATIVE=../_app.asar");
    let o = options(id, asar_path, asar_dir, library, executable, mod_dir);
    let f = "--filesystem="@;
    let a = o[i];
    if 2 <= i < 6 {
        assert(a.subrange(0, f.len() as int) =~= f);
    } else {
        if starts_with(a, f) {
            assert(a.subrange(0, f.len() as int)[2] == f[2]);
            assert(a.subrange(0, f.len() as int)[0] == f[0]);
            assert(a[2] == 'f');
            assert(a[0] == '-');
        }
    }
}

/// A library in the tree of the users' homes keeps its path, and every
/// other absolute path is found under `/run/host`, whatever the current
/// directory holds: a path such as `/homebrew/lib/foo.so`, which only
/// begins with the letters of `/home`, is one of the others.
pub proof fn law_absolute_library_paths(library_path: Seq<char>, current_dir: Seq<char>, f: bool)
    requires
        starts_with(library_path, "/"@),
    ensures
        under_home(library_path) ==> translated_library(library_path, current_dir, f)
            == library_path,
        !under_home(library_path) ==> translated_library(library_path, current_dir, f)
            == "/run/host"@ + library_path,
{
}

/// A path in the tree of the users' homes begins with `/`, so it is never
/// looked for in the current directory.
pub proof fn law_home_path_is_never_bare(path: Seq<char>)
    requires
        under_home(path),
    ensures
        !is_bare(path),
{
    reveal_strlit("/home");
    reveal_strlit("/home/");
    reveal_strlit("/");
    if path == "/home"@ {
        assert(path.subrange(0, 1) =~= "/"@);
    } else {
        assert(path.subrange(0, 6)[0] == '/');
        assert(path.subrange(0, 1) =~= "/"@);
    }
}

} // verus!
