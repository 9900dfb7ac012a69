//! The process launcher: what to start, with which environment, and what to
//! make of the way it ended.
//!
//! Starting a process is the caller's business; deciding how is this
//! module's. `ProcessLauncher::plan` turns a `LaunchSpec` into a
//! `LaunchPlan` that names the program, its arguments, its working
//! directory and the variables of the configuration channel. `Lifecycle`
//! then says, event by event, what to do with the process: spawn it, resume
//! it where it was created suspended, wait for it or let it go, and close
//! what was opened.

use crate::config::{
    channel_of, entries, env_view, lemma_lookup_all, lemma_lookup_concat, lookup, opt_text,
    original_asar_relative, Channel, ConfigError, ConfigurationChannel, EnvVar, Environment, Key,
};
use crate::redirect::{classify, law_canonical_path_replaced, scoped_marker, shadow_marker, Rewrite};
use crate::pathname::{file_name, file_name_of, parent, parent_of, PathStyle};
use crate::text::{contains, str_contains, texts};
use vstd::prelude::*;

verus! {

/// How the injected library gets into the target.
#[derive(Clone, Copy, Debug, PartialEq, Eq, Structural)]
pub enum Injection {
    /// The dynamic loader preloads it: POSIX with `LD_PRELOAD`.
    Preload,
    /// The loader interposes its symbols: macOS with
    /// `DYLD_INSERT_LIBRARIES`.
    Interpose,
    /// The target is created suspended with the library loaded into it, then
    /// resumed: Windows.
    RemoteLibrary,
}

impl Injection {
    /// How the platform of this mechanism writes its paths.
    pub open spec fn style_spec(self) -> PathStyle {
        if self == Injection::RemoteLibrary {
            PathStyle::Windows
        } else {
            PathStyle::Posix
        }
    }

    /// The loader's variable that names the library, where there is one.
    pub open spec fn variable_spec(self) -> Option<Seq<char>> {
        match self {
            Injection::Preload => Some("LD_PRELOAD"@),
            Injection::Interpose => Some("DYLD_INSERT_LIBRARIES"@),
            Injection::RemoteLibrary => None,
        }
    }

    /// How the platform of this mechanism writes its paths.
    pub fn style(self) -> (r: PathStyle)
        ensures
            r == self.style_spec(),
    {
        match self {
            Injection::RemoteLibrary => PathStyle::Windows,
            _ => PathStyle::Posix,
        }
    }

    /// The loader's variable that names the library, where there is one.
    pub fn variable(self) -> (r: Option<&'static str>)
        ensures
            match r {
                Some(v) => self.variable_spec() == Some(v@),
                None => self.variable_spec() is None,
            },
    {
        match self {
            Injection::Preload => Some("LD_PRELOAD"),
            Injection::Interpose => Some("DYLD_INSERT_LIBRARIES"),
            Injection::RemoteLibrary => None,
        }
    }
}

/// A text of a launch that must not hold a NUL character.
#[derive(Clone, Copy, Debug, PartialEq, Eq, Structural)]
pub enum LaunchText {
    /// The path of the injected library.
    LibraryPath,
    /// The working directory.
    WorkingDirectory,
    /// The path of the executable.
    Executable,
    /// The command line.
    CommandLine,
}

/// Why a launch was given up. Nothing is tried a second time.
#[derive(Clone, Copy, Debug, PartialEq, Eq, Structural)]
pub enum LaunchError {
    /// The executable's path has no parent directory.
    ExecutableWithoutParent,
    /// The profile directory's path has no parent directory.
    ProfileWithoutParent,
    /// The directory of the executable has no name.
    FolderNameUndeterminable,
    /// A text that goes to the system as a C string holds a NUL character.
    InteriorNul(LaunchText),
    /// The archive's path has no parent directory.
    AsarPathWithoutParent,
    /// The mod's entry point is not known.
    EntrypointNotSet,
    /// The mod's entry point has no parent directory.
    EntrypointWithoutParent,
    /// The process could not be started.
    SpawnFailed,
    /// The process could not be created with the library in it.
    InjectionFailed,
    /// Waiting for the process failed.
    WaitFailed,
}

impl LaunchError {
    /// The error in words.
    pub open spec fn message_spec(self) -> Seq<char> {
        match self {
            LaunchError::ExecutableWithoutParent => "Failed to get parent directory from executable"@,
            LaunchError::ProfileWithoutParent => "Failed to get parent directory from profile directory"@,
            LaunchError::FolderNameUndeterminable => "Failed to get directory name as string"@,
            LaunchError::InteriorNul(LaunchText::LibraryPath) => "Failed to convert shared object path to CString"@,
            LaunchError::InteriorNul(LaunchText::WorkingDirectory) => "Failed to convert directory path to CString"@,
            LaunchError::InteriorNul(LaunchText::Executable) => "Failed to convert executable path to CString"@,
            LaunchError::InteriorNul(LaunchText::CommandLine) => "Failed to convert command line to CString"@,
            LaunchError::AsarPathWithoutParent => "Failed to get parent directory from asar path"@,
            LaunchError::EntrypointNotSet => "MODLOADER_MOD_ENTRYPOINT not set"@,
            LaunchError::EntrypointWithoutParent => "Failed to get parent directory from mod entrypoint"@,
            LaunchError::SpawnFailed => "Failed to launch instance"@,
            LaunchError::InjectionFailed => "Failed to hook CreateProcessW. Please report this issue."@,
            LaunchError::WaitFailed => "Process exited unexpectedly"@,
        }
    }

    /// The error in words.
    pub fn message(&self) -> (r: &'static str)
        ensures
            r@ == self.message_spec(),
    {
        match self {
            LaunchError::ExecutableWithoutParent => "Failed to get parent directory from executable",
            LaunchError::ProfileWithoutParent => "Failed to get parent directory from profile directory",
            LaunchError::FolderNameUndeterminable => "Failed to get directory name as string",
            LaunchError::InteriorNul(LaunchText::LibraryPath) => "Failed to convert shared object path to CString",
            LaunchError::InteriorNul(LaunchText::WorkingDirectory) => "Failed to convert directory path to CString",
            LaunchError::InteriorNul(LaunchText::Executable) => "Failed to convert executable path to CString",
            LaunchError::InteriorNul(LaunchText::CommandLine) => "Failed to convert command line to CString",
            LaunchError::AsarPathWithoutParent => "Failed to get parent directory from asar path",
            LaunchError::EntrypointNotSet => "MODLOADER_MOD_ENTRYPOINT not set",
            LaunchError::EntrypointWithoutParent => "Failed to get parent directory from mod entrypoint",
            LaunchError::SpawnFailed => "Failed to launch instance",
            LaunchError::InjectionFailed => "Failed to hook CreateProcessW. Please report this issue.",
            LaunchError::WaitFailed => "Process exited unexpectedly",
        }
    }
}

/// What a caller asks for, once per launch.
#[derive(Clone, Debug, PartialEq, Eq)]
pub struct LaunchSpec {
    /// The program to start.
    pub executable: String,
    /// The library to inject.
    pub library_path: String,
    /// The replacement archive.
    pub asar_path: String,
    /// Arguments for the program.
    pub arguments: Vec<String>,
    /// An alternate profile directory.
    pub profile_dir: Option<String>,
    /// Whether the program is let go once it runs.
    pub detach: bool,
}

/// What a caller asks for, as texts.
pub struct Request {
    /// The program to start.
    pub executable: Seq<char>,
    /// The library to inject.
    pub library_path: Seq<char>,
    /// The replacement archive.
    pub asar_path: Seq<char>,
    /// Arguments for the program.
    pub arguments: Seq<Seq<char>>,
    /// An alternate profile directory.
    pub profile_dir: Option<Seq<char>>,
    /// Whether the program is let go once it runs.
    pub detach: bool,
}

impl View for LaunchSpec {
    type V = Request;

    open spec fn view(&self) -> Request {
        Request {
            executable: self.executable@,
            library_path: self.library_path@,
            asar_path: self.asar_path@,
            arguments: texts(self.arguments@),
            profile_dir: opt_text(self.profile_dir),
            detach: self.detach,
        }
    }
}

/// What has to be done to start the target, as texts.
pub struct Plan {
    /// The program to start.
    pub program: Seq<char>,
    /// Its arguments.
    pub arguments: Seq<Seq<char>>,
    /// Program and arguments in one line, where the platform wants that.
    pub command_line: Option<Seq<char>>,
    /// The directory to start it in, where one is set.
    pub working_dir: Option<Seq<char>>,
    /// The variables to set for it.
    pub environment: Environment,
    /// The library to load into it while it is created suspended.
    pub injected_library: Option<Seq<char>>,
    /// Whether it gets a session of its own.
    pub new_session: bool,
    /// Whether its standard streams go to the null device.
    pub null_streams: bool,
    /// Whether the launcher waits for it to exit.
    pub wait_for_exit: bool,
}

/// What has to be done to start the target.
#[derive(Clone, Debug, PartialEq, Eq)]
pub struct LaunchPlan {
    /// The program to start.
    pub program: String,
    /// Its arguments.
    pub arguments: Vec<String>,
    /// Program and arguments in one line, where the platform wants that.
    pub command_line: Option<String>,
    /// The directory to start it in, where one is set.
    pub working_dir: Option<String>,
    /// The variables to set for it before it starts.
    pub environment: Vec<EnvVar>,
    /// The library to load into it while it is created suspended.
    pub injected_library: Option<String>,
    /// Whether it gets a session of its own.
    pub new_session: bool,
    /// Whether its standard streams go to the null device.
    pub null_streams: bool,
    /// Whether the launcher waits for it to exit.
    pub wait_for_exit: bool,
}

impl View for LaunchPlan {
    type V = Plan;

    open spec fn view(&self) -> Plan {
        Plan {
            program: self.program@,
            arguments: texts(self.arguments@),
            command_line: opt_text(self.command_line),
            working_dir: opt_text(self.working_dir),
            environment: env_view(self.environment@),
            injected_library: opt_text(self.injected_library),
            new_session: self.new_session,
            null_streams: self.null_streams,
            wait_for_exit: self.wait_for_exit,
        }
    }
}

/// The texts of `items` in a row, with `sep` between them.
pub open spec fn joined(items: Seq<Seq<char>>, sep: Seq<char>) -> Seq<char>
    decreases items.len(),
{
    if items.len() == 0 {
        Seq::empty()
    } else if items.len() == 1 {
        items[0]
    } else {
        joined(items.drop_last(), sep) + sep + items.last()
    }
}

/// The command line of `executable` with `arguments`: the executable in
/// double quotes, a space, and the arguments with a space between them.
pub open spec fn command_line_of(executable: Seq<char>, arguments: Seq<Seq<char>>) -> Seq<char> {
    "\""@ + executable + "\" "@ + joined(arguments, " "@)
}

/// `text` holds a NUL character.
pub open spec fn has_nul(text: Seq<char>) -> bool {
    contains(text, "\0"@)
}

/// The texts of `items` in a row, with `sep` between them.
pub fn join_texts(items: &Vec<String>, sep: &str) -> (r: String)
    ensures
        r@ == joined(texts(items@), sep@),
{
    let mut out = String::new();
    let mut i: usize = 0;
    while i < items.len()
        invariant
            i <= items.len(),
            out@ == joined(texts(items@).take(i as int), sep@),
        decreases items.len() - i,
    {
        let ghost before = texts(items@).take(i as int);
        let ghost now = texts(items@).take(i + 1);
        assert(now.drop_last() =~= before);
        assert(now.last() == items@[i as int]@);
        if i > 0 {
            out.append(sep);
        }
        out.append(items[i].as_str());
        proof {
            if i == 0 {
                assert(out@ =~= items@[0]@);
            }
        }
        i += 1;
    }
    assert(texts(items@).take(items.len() as int) =~= texts(items@));
    out
}

/// A copy of `items`.
pub fn clone_texts(items: &Vec<String>) -> (r: Vec<String>)
    ensures
        texts(r@) == texts(items@),
{
    let mut out: Vec<String> = Vec::new();
    let mut i: usize = 0;
    while i < items.len()
        invariant
            i <= items.len(),
            out.len() == i,
            forall|j: int| 0 <= j < i ==> out@[j]@ == items@[j]@,
        decreases items.len() - i,
    {
        out.push(items[i].clone());
        i += 1;
    }
    assert(texts(out@) =~= texts(items@));
    out
}

/// Adds copies of `items` to the end of `out`.
pub fn append_texts(out: &mut Vec<String>, items: &Vec<String>)
    ensures
        texts(final(out)@) == texts(old(out)@) + texts(items@),
{
    let mut i: usize = 0;
    while i < items.len()
        invariant
            i <= items.len(),
            out.len() == old(out).len() + i,
            forall|j: int| 0 <= j < old(out).len() ==> out@[j] == old(out)@[j],
            forall|j: int| 0 <= j < i ==> out@[old(out).len() + j]@ == items@[j]@,
        decreases items.len() - i,
    {
        out.push(items[i].clone());
        i += 1;
    }
    assert(texts(out@) =~= texts(old(out)@) + texts(items@));
}

/// The command line of `executable` with `arguments`.
pub fn command_line(executable: &str, arguments: &Vec<String>) -> (r: String)
    ensures
        r@ == command_line_of(executable@, texts(arguments@)),
{
    let args = join_texts(arguments, " ");
    String::from_str("\"").concat(executable).concat("\" ").concat(args.as_str())
}

/// Whether `text` holds a NUL character.
pub fn holds_nul(text: &str) -> (r: bool)
    ensures
        r == has_nul(text@),
{
    str_contains(text, "\0")
}

/// The launcher of one platform: how it injects, what it is itself, and
/// the arguments that it was started with.
#[derive(Clone, Debug, PartialEq, Eq)]
pub struct ProcessLauncher {
    /// How the library gets into the target.
    pub injection: Injection,
    /// The path of the launcher's own executable.
    pub current_executable: String,
    /// The arguments that the launcher itself was started with, without the
    /// program's name.
    pub forwarded_arguments: Vec<String>,
}

/// The channel that a launch writes. `folder_name` and `argv` come from
/// the launcher's side: the install folder on Windows, and the launcher's
/// own arguments as a list in JSON.
pub open spec fn launch_channel(
    current_executable: Seq<char>,
    request: Request,
    folder_name: Option<Seq<char>>,
    argv: Seq<char>,
) -> Channel {
    Channel {
        asar_path: Some(request.asar_path),
        library_path: Some(request.library_path),
        executable: Some(current_executable),
        original_asar_relative: Some(original_asar_relative()),
        profile_dir: request.profile_dir,
        wm_class: None,
        folder_name,
        process_argv: Some(argv),
    }
}

/// The working directory of a launch: the executable's own directory, or
/// the parent of the profile directory where a profile is supplied.
pub open spec fn working_directory(style: PathStyle, request: Request) -> Option<Seq<char>> {
    match request.profile_dir {
        Some(p) => parent(style, p),
        None => parent(style, request.executable),
    }
}

/// The variables that a launch sets: the loader's variable with the
/// library's path, where the loader has one, and the configuration channel.
pub open spec fn launch_environment(injection: Injection, library_path: Seq<char>, channel: Channel)
    -> Environment {
    match injection.variable_spec() {
        Some(v) => seq![(v, library_path)] + entries(channel),
        None => entries(channel),
    }
}

/// The plan of a launch whose checks have passed.
pub open spec fn plan_of(
    injection: Injection,
    current_executable: Seq<char>,
    request: Request,
    argv: Seq<char>,
    working_dir: Seq<char>,
    folder_name: Option<Seq<char>>,
) -> Plan {
    let remote = injection == Injection::RemoteLibrary;
    Plan {
        program: request.executable,
        arguments: request.arguments,
        command_line: if remote {
            Some(command_line_of(request.executable, request.arguments))
        } else {
            None
        },
        working_dir: Some(working_dir),
        environment: launch_environment(
            injection,
            request.library_path,
            launch_channel(current_executable, request, folder_name, argv),
        ),
        injected_library: if remote {
            Some(request.library_path)
        } else {
            None
        },
        new_session: request.detach,
        null_streams: request.detach,
        wait_for_exit: !request.detach,
    }
}

/// What a launcher makes of a request: the plan, or the first check that
/// fails. The checks, in order: the executable has a parent directory; a
/// profile directory, where one is supplied, has one too; and where the
/// library is injected into a suspended process, the library's path holds
/// no NUL, the executable's directory has a name, and neither the working
/// directory nor the executable's path nor the command line holds a NUL.
pub open spec fn planned(
    injection: Injection,
    current_executable: Seq<char>,
    request: Request,
    argv: Seq<char>,
) -> Result<Plan, LaunchError> {
    let style = injection.style_spec();
    let remote = injection == Injection::RemoteLibrary;
    let exe_dir = parent(style, request.executable);
    let dir = working_directory(style, request);
    if exe_dir is None {
        Err(LaunchError::ExecutableWithoutParent)
    } else if dir is None {
        Err(LaunchError::ProfileWithoutParent)
    } else if !remote {
        Ok(plan_of(injection, current_executable, request, argv, dir->0, None))
    } else if has_nul(request.library_path) {
        Err(LaunchError::InteriorNul(LaunchText::LibraryPath))
    } else if file_name(style, exe_dir->0) is None {
        Err(LaunchError::FolderNameUndeterminable)
    } else if has_nul(dir->0) {
        Err(LaunchError::InteriorNul(LaunchText::WorkingDirectory))
    } else if has_nul(request.executable) {
        Err(LaunchError::InteriorNul(LaunchText::Executable))
    } else if has_nul(command_line_of(request.executable, request.arguments)) {
        Err(LaunchError::InteriorNul(LaunchText::CommandLine))
    } else {
        Ok(
            plan_of(
                injection,
                current_executable,
                request,
                argv,
                dir->0,
                file_name(style, exe_dir->0),
            ),
        )
    }
}

/// The text of a list of strings in JSON, as `serde_json` writes it.
pub uninterp spec fn json_text(items: Seq<Seq<char>>) -> Seq<char>;

/// The error of `serde_json`.
#[verifier::external_type_specification]
#[verifier::external_body]
pub struct ExJsonError(serde_json::Error);

/// Calls `serde_json::to_string` on a list of strings. The call writes
/// into memory, and a list of strings holds nothing that refuses to be
/// written, so it succeeds. The text it gives depends on the list alone and
/// is known here by the name `json_text`; for the empty list it is `[]`.
#[verifier::external_body]
fn strings_to_json(items: &Vec<String>) -> (r: Result<String, serde_json::Error>)
    ensures
        r is Ok,
        r matches Ok(s) ==> s@ == json_text(texts(items@)),
        r matches Ok(s) ==> (items@.len() == 0 ==> s@ == "[]"@),
{
    serde_json::to_string(items)
}

/// The value of `MODLOADER_PROCESS_ARGV` for the outcome of writing the
/// launcher's arguments as JSON: the text where there is one, the empty
/// list `[]` where writing failed.
pub fn argv_value<E>(written: Result<String, E>) -> (r: String)
    ensures
        r@ == (match written {
            Ok(s) => s@,
            Err(_) => "[]"@,
        }),
{
    match written {
        Ok(s) => s,
        Err(_) => String::from_str("[]"),
    }
}

impl ProcessLauncher {
    /// Plans the launch that `spec` asks for, with `argv` as the value of
    /// `MODLOADER_PROCESS_ARGV`.
    pub fn plan_with(&self, spec: LaunchSpec, argv: String) -> (r: Result<LaunchPlan, LaunchError>)
        ensures
            match r {
                Ok(p) => planned(self.injection, self.current_executable@, spec@, argv@) == Ok::<
                    Plan,
                    LaunchError,
                >(p@),
                Err(e) => planned(self.injection, self.current_executable@, spec@, argv@) == Err::<
                    Plan,
                    LaunchError,
                >(e),
            },
    {
        let style = self.injection.style();
        let exe_dir = match parent_of(style, spec.executable.as_str()) {
            Some(d) => d,
            None => {
                return Err(LaunchError::ExecutableWithoutParent);
            },
        };
        let dir = match &spec.profile_dir {
            Some(p) => match parent_of(style, p.as_str()) {
                Some(d) => d,
                None => {
                    return Err(LaunchError::ProfileWithoutParent);
                },
            },
            None => exe_dir.clone(),
        };
        let mut channel = ConfigurationChannel {
            asar_path: Some(spec.asar_path.clone()),
            library_path: Some(spec.library_path.clone()),
            executable: Some(self.current_executable.clone()),
            original_asar_relative: Some(String::from_str("../_app.asar")),
            profile_dir: spec.profile_dir.clone(),
            wm_class: None,
            folder_name: None,
            process_argv: Some(argv),
        };
        let mut line: Option<String> = None;
        let mut library: Option<String> = None;
        match self.injection {
            Injection::RemoteLibrary => {
                if holds_nul(spec.library_path.as_str()) {
                    return Err(LaunchError::InteriorNul(LaunchText::LibraryPath));
                }
                let folder = match file_name_of(style, exe_dir.as_str()) {
                    Some(f) => f,
                    None => {
                        return Err(LaunchError::FolderNameUndeterminable);
                    },
                };
                if holds_nul(dir.as_str()) {
                    return Err(LaunchError::InteriorNul(LaunchText::WorkingDirectory));
                }
                if holds_nul(spec.executable.as_str()) {
                    return Err(LaunchError::InteriorNul(LaunchText::Executable));
                }
                let l = command_line(spec.executable.as_str(), &spec.arguments);
                if holds_nul(l.as_str()) {
                    return Err(LaunchError::InteriorNul(LaunchText::CommandLine));
                }
                channel.folder_name = Some(folder);
                line = Some(l);
                library = Some(spec.library_path.clone());
            },
            _ => {},
        }
        let mut environment: Vec<EnvVar> = Vec::new();
        match self.injection.variable() {
            Some(v) => {
                environment.push(EnvVar::new(v, spec.library_path.as_str()));
            },
            None => {},
        }
        let ghost first = env_view(environment@);
        let mut rest = channel.to_environment();
        environment.append(&mut rest);
        let plan = LaunchPlan {
            program: spec.executable.clone(),
            arguments: clone_texts(&spec.arguments),
            command_line: line,
            working_dir: Some(dir),
            environment,
            injected_library: library,
            new_session: spec.detach,
            null_streams: spec.detach,
            wait_for_exit: !spec.detach,
        };
        proof {
            assert(env_view(plan.environment@) =~= first + entries(channel@));
            assert(first + entries(channel@) =~= planned(
                self.injection,
                self.current_executable@,
                spec@,
                argv@,
            )->Ok_0.environment);
        }
        Ok(plan)
    }

    /// Plans the launch that `spec` asks for. The launcher's own arguments
    /// go into the channel as a list in JSON, so that the injected layer
    /// finds them although the target gets arguments of its own.
    pub fn plan(&self, spec: LaunchSpec) -> (r: Result<LaunchPlan, LaunchError>)
        ensures
            match r {
                Ok(p) => planned(
                    self.injection,
                    self.current_executable@,
                    spec@,
                    json_text(texts(self.forwarded_arguments@)),
                ) == Ok::<Plan, LaunchError>(p@),
                Err(e) => planned(
                    self.injection,
                    self.current_executable@,
                    spec@,
                    json_text(texts(self.forwarded_arguments@)),
                ) == Err::<Plan, LaunchError>(e),
            },
            self.forwarded_arguments@.len() == 0 ==> json_text(texts(self.forwarded_arguments@))
                == "[]"@,
    {
        let argv = argv_value(strings_to_json(&self.forwarded_arguments));
        self.plan_with(spec, argv)
    }
}

/// The name of the install folder that a launch writes into the channel:
/// the name of the executable's directory where the library is injected
/// into a suspended process, none elsewhere.
pub open spec fn planned_folder_name(injection: Injection, request: Request) -> Option<Seq<char>> {
    if injection == Injection::RemoteLibrary {
        match parent(injection.style_spec(), request.executable) {
            Some(d) => file_name(injection.style_spec(), d),
            None => None,
        }
    } else {
        None
    }
}

/// The loader's variables are no keys of the channel.
pub proof fn lemma_loader_variable_is_no_key(injection: Injection, key: Key)
    ensures
        injection.variable_spec() != Some(key.name_spec()),
{
    reveal_strlit("LD_PRELOAD");
    reveal_strlit("DYLD_INSERT_LIBRARIES");
    reveal_strlit("MODLOADER_ASAR_PATH");
    reveal_strlit("MODLOADER_LIBRARY_PATH");
    reveal_strlit("MODLOADER_EXECUTABLE");
    reveal_strlit("MODLOADER_ORIGINAL_ASAR_RELATIVE");
    reveal_strlit("MODLOADER_PROFILE_DIR");
    reveal_strlit("MODLOADER_WM_CLASS");
    reveal_strlit("MODLOADER_FOLDER_NAME");
    reveal_strlit("MODLOADER_PROCESS_ARGV");
    if injection.variable_spec() == Some(key.name_spec()) {
        assert(injection.variable_spec()->0[0] == key.name_spec()[0]);
    }
}

/// The variable of a key, looked up in what a launch sets, is the value
/// that the launch wrote under the key.
pub proof fn lemma_lookup_launch(injection: Injection, library_path: Seq<char>, c: Channel, k: Key)
    ensures
        lookup(launch_environment(injection, library_path, c), k.name_spec()) == c.get(k),
{
    lemma_lookup_all(c, k);
    lemma_loader_variable_is_no_key(injection, k);
    match injection.variable_spec() {
        Some(v) => {
            let first = seq![(v, library_path)];
            lemma_lookup_concat(first, entries(c), k.name_spec());
            assert(first.last().0 == v);
            assert(first.drop_last().len() == 0);
            assert(lookup(first.drop_last(), k.name_spec()) is None);
            assert(lookup(first, k.name_spec()) is None);
        },
        None => {},
    }
}

/// What the launcher writes before the spawn is what the target reads: a
/// process that starts with the variables of a plan finds in the channel
/// the archive, the library, the launcher's executable, the profile
/// directory and the launcher's arguments exactly as the launch named
/// them.
pub proof fn law_launch_channel_round_trip(
    injection: Injection,
    current_executable: Seq<char>,
    request: Request,
    argv: Seq<char>,
    plan: Plan,
)
    requires
        planned(injection, current_executable, request, argv) == Ok::<Plan, LaunchError>(plan),
    ensures
        channel_of(plan.environment) == launch_channel(
            current_executable,
            request,
            planned_folder_name(injection, request),
            argv,
        ),
{
    let c = launch_channel(
        current_executable,
        request,
        planned_folder_name(injection, request),
        argv,
    );
    assert(plan.environment == launch_environment(injection, request.library_path, c));
    lemma_lookup_launch(injection, request.library_path, c, Key::AsarPath);
    lemma_lookup_launch(injection, request.library_path, c, Key::LibraryPath);
    lemma_lookup_launch(injection, request.library_path, c, Key::Executable);
    lemma_lookup_launch(injection, request.library_path, c, Key::OriginalAsarRelative);
    lemma_lookup_launch(injection, request.library_path, c, Key::ProfileDir);
    lemma_lookup_launch(injection, request.library_path, c, Key::WmClass);
    lemma_lookup_launch(injection, request.library_path, c, Key::FolderName);
    lemma_lookup_launch(injection, request.library_path, c, Key::ProcessArgv);
}

/// The first redirected call of a launched target resolves to the archive
/// that the launch named: a path that holds the canonical marker of the
/// installation in use, and not the shadow marker, is rewritten to exactly
/// the `asar_path` of the request, with the channel read from the
/// variables of the plan.
pub proof fn law_launched_target_opens_replacement(
    injection: Injection,
    current_executable: Seq<char>,
    request: Request,
    argv: Seq<char>,
    plan: Plan,
    path: Seq<char>,
    folder_name: Seq<char>,
)
    requires
        planned(injection, current_executable, request, argv) == Ok::<Plan, LaunchError>(plan),
        injection == Injection::RemoteLibrary ==> planned_folder_name(injection, request) == Some(
            folder_name,
        ),
        contains(path, scoped_marker(injection.style_spec(), folder_name)),
        !contains(path, shadow_marker(injection.style_spec())),
    ensures
        classify(injection.style_spec(), path, channel_of(plan.environment)) == Ok::<
            Rewrite,
            ConfigError,
        >(Rewrite::RewriteToReplacement(request.asar_path)),
{
    law_launch_channel_round_trip(injection, current_executable, request, argv, plan);
    law_canonical_path_replaced(
        injection.style_spec(),
        path,
        channel_of(plan.environment),
        folder_name,
        request.asar_path,
    );
}

} // verus!
