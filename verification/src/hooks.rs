//! What the hooks on process creation, on the environment and on the
//! taskbar identity decide.
//!
//! The hooks on file calls ask `redirect`; the ones here look at a command
//! line or a variable's name and at the configuration channel.

use crate::config::{Channel, ConfigError, ConfigurationChannel, Key};
use crate::text::{contains, str_contains, str_eq};
use vstd::prelude::*;

verus! {

/// What marks an option on a command line.
pub open spec fn option_marker() -> Seq<char> {
    "--"@
}

/// Whether a process is created as the host asked for it, with no library
/// put into it: its command line carries an option. The host starts its own
/// children, a renderer among them, with options, and they are left alone.
/// The updater starts the host anew without any option, and that instance
/// has to be hooked again.
pub open spec fn passes_through(command_line: Seq<char>) -> bool {
    contains(command_line, option_marker())
}

/// What the hook on process creation does with a new process, as texts.
pub enum RespawnRule {
    /// The process is created as the host asked for it.
    PassThrough,
    /// The process is created with this library in it, and resumed once it
    /// exists.
    Inject { library: Seq<char> },
}

/// The rule of the hook on process creation. The library's path is asked
/// of the channel only where a library is to be injected.
pub open spec fn respawn_rule(command_line: Seq<char>, channel: Channel) -> Result<
    RespawnRule,
    ConfigError,
> {
    if passes_through(command_line) {
        Ok(RespawnRule::PassThrough)
    } else {
        match channel.library_path {
            Some(l) => Ok(RespawnRule::Inject { library: l }),
            None => Err(ConfigError::Missing(Key::LibraryPath)),
        }
    }
}

/// What the hook on process creation does with a new process.
#[derive(Clone, Debug, PartialEq, Eq)]
pub enum Respawn {
    /// The process is created as the host asked for it.
    PassThrough,
    /// The process is created with this library in it, and resumed once it
    /// exists.
    Inject { library: String },
}

impl View for Respawn {
    type V = RespawnRule;

    open spec fn view(&self) -> RespawnRule {
        match self {
            Respawn::PassThrough => RespawnRule::PassThrough,
            Respawn::Inject { library } => RespawnRule::Inject { library: library@ },
        }
    }
}

/// Decides what the hook on process creation does with the process that
/// `command_line` asks for.
pub fn respawn(command_line: &str, channel: &ConfigurationChannel) -> (r: Result<
    Respawn,
    ConfigError,
>)
    ensures
        match r {
            Ok(d) => respawn_rule(command_line@, channel@) == Ok::<RespawnRule, ConfigError>(d@),
            Err(e) => respawn_rule(command_line@, channel@) == Err::<RespawnRule, ConfigError>(e),
        },
{
    if str_contains(command_line, "--") {
        return Ok(Respawn::PassThrough);
    }
    match &channel.library_path {
        Some(l) => Ok(Respawn::Inject { library: l.clone() }),
        None => Err(ConfigError::Missing(Key::LibraryPath)),
    }
}

/// What follows the creation of a process with the library in it.
#[derive(Clone, Copy, Debug, PartialEq, Eq, Structural)]
pub enum AfterInjection {
    /// The process exists: its suspended thread is resumed.
    ResumeThread,
    /// The process does not exist: the failure is handed back to the host
    /// as it came, and there is nothing to resume.
    ReportFailure,
}

/// What follows the creation of a process with the library in it:
/// `created` says whether the creation succeeded.
pub fn after_injection(created: bool) -> (r: AfterInjection)
    ensures
        r == (if created {
            AfterInjection::ResumeThread
        } else {
            AfterInjection::ReportFailure
        }),
{
    if created {
        AfterInjection::ResumeThread
    } else {
        AfterInjection::ReportFailure
    }
}

/// The loader's preload variable.
pub open spec fn preload_variable() -> Seq<char> {
    "LD_PRELOAD"@
}

/// What the hook on removing a variable does, as texts.
pub enum UnsetRule {
    /// The variable is removed as asked.
    CallOriginal,
    /// The variable is the preload: it is set to this library instead, and
    /// the call reports success.
    KeepPreload { library: Seq<char> },
}

/// The rule of the hook on removing a variable. A sandbox helper strips the
/// preload from the environment of what it starts; the library puts itself
/// back so that it reaches the children too.
pub open spec fn unset_rule(name: Seq<char>, channel: Channel) -> Result<UnsetRule, ConfigError> {
    if name != preload_variable() {
        Ok(UnsetRule::CallOriginal)
    } else {
        match channel.library_path {
            Some(l) => Ok(UnsetRule::KeepPreload { library: l }),
            None => Err(ConfigError::Missing(Key::LibraryPath)),
        }
    }
}

/// What the hook on removing a variable does.
#[derive(Clone, Debug, PartialEq, Eq)]
pub enum Unset {
    /// The variable is removed as asked.
    CallOriginal,
    /// The variable is the preload: it is set to this library instead, and
    /// the call reports success.
    KeepPreload { library: String },
}

impl View for Unset {
    type V = UnsetRule;

    open spec fn view(&self) -> UnsetRule {
        match self {
            Unset::CallOriginal => UnsetRule::CallOriginal,
            Unset::KeepPreload { library } => UnsetRule::KeepPreload { library: library@ },
        }
    }
}

/// Decides what the hook on removing a variable does with `name`.
pub fn unsetenv(name: &str, channel: &ConfigurationChannel) -> (r: Result<Unset, ConfigError>)
    ensures
        match r {
            Ok(d) => unset_rule(name@, channel@) == Ok::<UnsetRule, ConfigError>(d@),
            Err(e) => unset_rule(name@, channel@) == Err::<UnsetRule, ConfigError>(e),
        },
{
    if !str_eq(name, "LD_PRELOAD") {
        return Ok(Unset::CallOriginal);
    }
    match &channel.library_path {
        Some(l) => Ok(Unset::KeepPreload { library: l.clone() }),
        None => Err(ConfigError::Missing(Key::LibraryPath)),
    }
}

/// The identity under which the target shows in the taskbar: the path of
/// the launcher's executable, whatever the host asks for, so that the
/// target looks like the launcher.
pub fn app_user_model_id(channel: &ConfigurationChannel) -> (r: Result<String, ConfigError>)
    ensures
        match r {
            Ok(id) => channel@.executable == Some(id@),
            Err(e) => channel@.executable is None && e == ConfigError::Missing(Key::Executable),
        },
{
    match &channel.executable {
        Some(e) => Ok(e.clone()),
        None => Err(ConfigError::Missing(Key::Executable)),
    }
}

/// A command line without any option is never passed through: the host
/// that starts itself anew is hooked again.
pub proof fn law_bare_respawn_is_hooked(command_line: Seq<char>, channel: Channel, library: Seq<char>)
    requires
        !contains(command_line, option_marker()),
        channel.library_path == Some(library),
    ensures
        respawn_rule(command_line, channel) == Ok::<RespawnRule, ConfigError>(
            RespawnRule::Inject { library },
        ),
{
}

/// A command line with an option passes through whatever the option is
/// and whatever the channel holds: a child that the host starts with
/// `before --type=renderer behind`, or with any other option, gets no
/// library.
pub proof fn law_child_with_option_passes_through(
    before: Seq<char>,
    option: Seq<char>,
    behind: Seq<char>,
    channel: Channel,
)
    requires
        crate::text::starts_with(option, option_marker()),
    ensures
        respawn_rule(before + option + behind, channel) == Ok::<RespawnRule, ConfigError>(
            RespawnRule::PassThrough,
        ),
{
    let rest = option.subrange(option_marker().len() as int, option.len() as int);
    assert(option =~= option_marker() + rest);
    assert(before + option + behind =~= before + option_marker() + (rest + behind));
    crate::text::lemma_occurs_between(before, option_marker(), rest + behind);
}

} // verus!
