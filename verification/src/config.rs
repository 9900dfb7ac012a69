//! The configuration channel: the named values that the launcher hands to
//! the injected layer through the process environment.
//!
//! Injection happens before any other channel exists, so everything the
//! hooks need travels as environment variables with fixed names. The
//! launcher writes them once before the spawn; the injected layer reads
//! them, and only the install folder's name is ever written again.

use crate::text::str_eq;
use vstd::prelude::*;

verus! {

/// The well-known keys of the channel.
#[derive(Clone, Copy, Debug, PartialEq, Eq, Structural)]
pub enum Key {
    /// The replacement archive.
    AsarPath,
    /// The injected library.
    LibraryPath,
    /// The launcher's own executable.
    Executable,
    /// Where the host's own archive is found, relative to the replacement.
    OriginalAsarRelative,
    /// An alternate profile directory.
    ProfileDir,
    /// The window class to show.
    WmClass,
    /// The name of the install folder that is in use.
    FolderName,
    /// The launcher's own arguments, as a list in JSON.
    ProcessArgv,
}

impl Key {
    /// The name of the environment variable.
    pub open spec fn name_spec(self) -> Seq<char> {
        match self {
            Key::AsarPath => "MODLOADER_ASAR_PATH"@,
            Key::LibraryPath => "MODLOADER_LIBRARY_PATH"@,
            Key::Executable => "MODLOADER_EXECUTABLE"@,
            Key::OriginalAsarRelative => "MODLOADER_ORIGINAL_ASAR_RELATIVE"@,
            Key::ProfileDir => "MODLOADER_PROFILE_DIR"@,
            Key::WmClass => "MODLOADER_WM_CLASS"@,
            Key::FolderName => "MODLOADER_FOLDER_NAME"@,
            Key::ProcessArgv => "MODLOADER_PROCESS_ARGV"@,
        }
    }

    /// The name of the environment variable.
    pub fn name(self) -> (r: &'static str)
        ensures
            r@ == self.name_spec(),
    {
        match self {
            Key::AsarPath => "MODLOADER_ASAR_PATH",
            Key::LibraryPath => "MODLOADER_LIBRARY_PATH",
            Key::Executable => "MODLOADER_EXECUTABLE",
            Key::OriginalAsarRelative => "MODLOADER_ORIGINAL_ASAR_RELATIVE",
            Key::ProfileDir => "MODLOADER_PROFILE_DIR",
            Key::WmClass => "MODLOADER_WM_CLASS",
            Key::FolderName => "MODLOADER_FOLDER_NAME",
            Key::ProcessArgv => "MODLOADER_PROCESS_ARGV",
        }
    }

    /// Whether the channel is complete without this key.
    pub open spec fn optional_spec(self) -> bool {
        self == Key::ProfileDir || self == Key::WmClass || self == Key::FolderName || self
            == Key::ProcessArgv
    }

    /// Whether the channel is complete without this key.
    pub fn optional(self) -> (r: bool)
        ensures
            r == self.optional_spec(),
    {
        match self {
            Key::ProfileDir | Key::WmClass | Key::FolderName | Key::ProcessArgv => true,
            _ => false,
        }
    }
}

/// The value that `MODLOADER_ORIGINAL_ASAR_RELATIVE` always has.
pub open spec fn original_asar_relative() -> Seq<char> {
    "../_app.asar"@
}

/// No two keys share a name.
pub proof fn lemma_key_names_distinct(a: Key, b: Key)
    ensures
        a.name_spec() == b.name_spec() <==> a == b,
{
    reveal_strlit("MODLOADER_ASAR_PATH");
    reveal_strlit("MODLOADER_LIBRARY_PATH");
    reveal_strlit("MODLOADER_EXECUTABLE");
    reveal_strlit("MODLOADER_ORIGINAL_ASAR_RELATIVE");
    reveal_strlit("MODLOADER_PROFILE_DIR");
    reveal_strlit("MODLOADER_WM_CLASS");
    reveal_strlit("MODLOADER_FOLDER_NAME");
    reveal_strlit("MODLOADER_PROCESS_ARGV");
    if a != b && a.name_spec() == b.name_spec() {
        assert(a.name_spec().len() == b.name_spec().len());
        assert(a.name_spec()[10] == b.name_spec()[10]);
    }
}

/// One variable of a process environment.
#[derive(Clone, Debug, PartialEq, Eq)]
pub struct EnvVar {
    /// The variable's name.
    pub name: String,
    /// Its value.
    pub value: String,
}

impl View for EnvVar {
    type V = (Seq<char>, Seq<char>);

    open spec fn view(&self) -> (Seq<char>, Seq<char>) {
        (self.name@, self.value@)
    }
}

impl EnvVar {
    /// The variable `name` with the value `value`.
    pub fn new(name: &str, value: &str) -> (r: EnvVar)
        ensures
            r@ == (name@, value@),
    {
        EnvVar { name: String::from_str(name), value: String::from_str(value) }
    }
}

/// An environment as names and values.
pub type Environment = Seq<(Seq<char>, Seq<char>)>;

/// The views of a list of variables.
pub open spec fn env_view(v: Seq<EnvVar>) -> Environment {
    Seq::new(v.len(), |i: int| v[i]@)
}

/// The value of `name` in `env`. Where a name is written twice, the later
/// entry counts.
pub open spec fn lookup(env: Environment, name: Seq<char>) -> Option<Seq<char>>
    decreases env.len(),
{
    if env.len() == 0 {
        None
    } else if env.last().0 == name {
        Some(env.last().1)
    } else {
        lookup(env.drop_last(), name)
    }
}

/// The view of an optional text.
pub open spec fn opt_text(o: Option<String>) -> Option<Seq<char>> {
    match o {
        Some(s) => Some(s@),
        None => None,
    }
}

/// The value of `name` in `env`.
pub fn lookup_in(env: &Vec<EnvVar>, name: &str) -> (r: Option<String>)
    ensures
        opt_text(r) == lookup(env_view(env@), name@),
{
    let mut i: usize = env.len();
    assert(env_view(env@).take(i as int) =~= env_view(env@));
    while i > 0
        invariant
            i <= env.len(),
            lookup(env_view(env@), name@) == lookup(env_view(env@).take(i as int), name@),
        decreases i,
    {
        let ghost e = env_view(env@).take(i as int);
        assert(e.last() == env@[i - 1]@);
        assert(e.drop_last() =~= env_view(env@).take(i - 1));
        if str_eq(env[i - 1].name.as_str(), name) {
            return Some(env[i - 1].value.clone());
        }
        i -= 1;
    }
    assert(env_view(env@).take(0).len() == 0);
    None
}

/// What the channel holds, as texts.
pub struct Channel {
    /// `MODLOADER_ASAR_PATH`.
    pub asar_path: Option<Seq<char>>,
    /// `MODLOADER_LIBRARY_PATH`.
    pub library_path: Option<Seq<char>>,
    /// `MODLOADER_EXECUTABLE`.
    pub executable: Option<Seq<char>>,
    /// `MODLOADER_ORIGINAL_ASAR_RELATIVE`.
    pub original_asar_relative: Option<Seq<char>>,
    /// `MODLOADER_PROFILE_DIR`.
    pub profile_dir: Option<Seq<char>>,
    /// `MODLOADER_WM_CLASS`.
    pub wm_class: Option<Seq<char>>,
    /// `MODLOADER_FOLDER_NAME`.
    pub folder_name: Option<Seq<char>>,
    /// `MODLOADER_PROCESS_ARGV`.
    pub process_argv: Option<Seq<char>>,
}

impl Channel {
    /// The value under `key`.
    pub open spec fn get(self, key: Key) -> Option<Seq<char>> {
        match key {
            Key::AsarPath => self.asar_path,
            Key::LibraryPath => self.library_path,
            Key::Executable => self.executable,
            Key::OriginalAsarRelative => self.original_asar_relative,
            Key::ProfileDir => self.profile_dir,
            Key::WmClass => self.wm_class,
            Key::FolderName => self.folder_name,
            Key::ProcessArgv => self.process_argv,
        }
    }

    /// Every key that the channel cannot do without has a value.
    pub open spec fn complete(self) -> bool {
        forall|k: Key| !k.optional_spec() ==> (#[trigger] self.get(k)) is Some
    }
}

/// The entry that a value adds to an environment: none where it is absent.
pub open spec fn entry_of(key: Key, value: Option<Seq<char>>) -> Environment {
    match value {
        Some(v) => seq![(key.name_spec(), v)],
        None => Seq::empty(),
    }
}

/// The variables that carry `c`, in the order of the keys.
pub open spec fn entries(c: Channel) -> Environment {
    entry_of(Key::AsarPath, c.asar_path) + entry_of(Key::LibraryPath, c.library_path) + entry_of(
        Key::Executable,
        c.executable,
    ) + entry_of(Key::OriginalAsarRelative, c.original_asar_relative) + entry_of(
        Key::ProfileDir,
        c.profile_dir,
    ) + entry_of(Key::WmClass, c.wm_class) + entry_of(Key::FolderName, c.folder_name) + entry_of(
        Key::ProcessArgv,
        c.process_argv,
    )
}

/// What a process with the environment `env` finds in the channel.
pub open spec fn channel_of(env: Environment) -> Channel {
    Channel {
        asar_path: lookup(env, Key::AsarPath.name_spec()),
        library_path: lookup(env, Key::LibraryPath.name_spec()),
        executable: lookup(env, Key::Executable.name_spec()),
        original_asar_relative: lookup(env, Key::OriginalAsarRelative.name_spec()),
        profile_dir: lookup(env, Key::ProfileDir.name_spec()),
        wm_class: lookup(env, Key::WmClass.name_spec()),
        folder_name: lookup(env, Key::FolderName.name_spec()),
        process_argv: lookup(env, Key::ProcessArgv.name_spec()),
    }
}

/// A required value that the channel does not hold.
#[derive(Clone, Copy, Debug, PartialEq, Eq, Structural)]
pub enum ConfigError {
    /// The variable of this key is not set.
    Missing(Key),
}

impl ConfigError {
    /// The error in words: the variable's name and ` not set`.
    pub fn message(&self) -> (r: String)
        ensures
            r@ == (match *self {
                ConfigError::Missing(k) => k.name_spec() + " not set"@,
            }),
    {
        match self {
            ConfigError::Missing(k) => String::from_str(k.name()).concat(" not set"),
        }
    }
}

/// The configuration channel as the launcher fills it and the injected
/// layer reads it.
#[derive(Clone, Debug, PartialEq, Eq)]
pub struct ConfigurationChannel {
    /// The replacement archive.
    pub asar_path: Option<String>,
    /// The injected library.
    pub library_path: Option<String>,
    /// The launcher's own executable.
    pub executable: Option<String>,
    /// Where the host's own archive is found, relative to the replacement.
    pub original_asar_relative: Option<String>,
    /// An alternate profile directory.
    pub profile_dir: Option<String>,
    /// The window class to show.
    pub wm_class: Option<String>,
    /// The name of the install folder that is in use.
    pub folder_name: Option<String>,
    /// The launcher's own arguments, as a list in JSON.
    pub process_argv: Option<String>,
}

impl View for ConfigurationChannel {
    type V = Channel;

    open spec fn view(&self) -> Channel {
        Channel {
            asar_path: opt_text(self.asar_path),
            library_path: opt_text(self.library_path),
            executable: opt_text(self.executable),
            original_asar_relative: opt_text(self.original_asar_relative),
            profile_dir: opt_text(self.profile_dir),
            wm_class: opt_text(self.wm_class),
            folder_name: opt_text(self.folder_name),
            process_argv: opt_text(self.process_argv),
        }
    }
}

/// Adds the variable of `key` to `out` where `value` is there.
fn push_entry(out: &mut Vec<EnvVar>, key: Key, value: &Option<String>)
    ensures
        env_view(final(out)@) == env_view(old(out)@) + entry_of(key, opt_text(*value)),
{
    match value {
        Some(v) => {
            out.push(EnvVar::new(key.name(), v.as_str()));
            assert(env_view(out@) =~= env_view(old(out)@) + entry_of(key, opt_text(*value)));
        },
        None => {
            assert(env_view(out@) =~= env_view(old(out)@) + entry_of(key, opt_text(*value)));
        },
    }
}

impl ConfigurationChannel {
    /// The channel with no value at all.
    pub fn empty() -> (r: ConfigurationChannel)
        ensures
            forall|k: Key| (#[trigger] r@.get(k)) is None,
    {
        ConfigurationChannel {
            asar_path: None,
            library_path: None,
            executable: None,
            original_asar_relative: None,
            profile_dir: None,
            wm_class: None,
            folder_name: None,
            process_argv: None,
        }
    }

    /// What a process with the environment `env` finds in the channel.
    pub fn from_environment(env: &Vec<EnvVar>) -> (r: ConfigurationChannel)
        ensures
            r@ == channel_of(env_view(env@)),
    {
        ConfigurationChannel {
            asar_path: lookup_in(env, Key::AsarPath.name()),
            library_path: lookup_in(env, Key::LibraryPath.name()),
            executable: lookup_in(env, Key::Executable.name()),
            original_asar_relative: lookup_in(env, Key::OriginalAsarRelative.name()),
            profile_dir: lookup_in(env, Key::ProfileDir.name()),
            wm_class: lookup_in(env, Key::WmClass.name()),
            folder_name: lookup_in(env, Key::FolderName.name()),
            process_argv: lookup_in(env, Key::ProcessArgv.name()),
        }
    }

    /// The variables that carry this channel, in the order of the keys.
    pub fn to_environment(&self) -> (r: Vec<EnvVar>)
        ensures
            env_view(r@) == entries(self@),
    {
        let mut out: Vec<EnvVar> = Vec::new();
        assert(env_view(out@) =~= Seq::empty());
        push_entry(&mut out, Key::AsarPath, &self.asar_path);
        push_entry(&mut out, Key::LibraryPath, &self.library_path);
        push_entry(&mut out, Key::Executable, &self.executable);
        push_entry(&mut out, Key::OriginalAsarRelative, &self.original_asar_relative);
        push_entry(&mut out, Key::ProfileDir, &self.profile_dir);
        push_entry(&mut out, Key::WmClass, &self.wm_class);
        push_entry(&mut out, Key::FolderName, &self.folder_name);
        push_entry(&mut out, Key::ProcessArgv, &self.process_argv);
        assert(env_view(out@) =~= entries(self@));
        out
    }

    /// The value under `key`, where there is one.
    pub fn get(&self, key: Key) -> (r: Option<&String>)
        ensures
            match r {
                Some(s) => self@.get(key) == Some(s@),
                None => self@.get(key) is None,
            },
    {
        match key {
            Key::AsarPath => self.asar_path.as_ref(),
            Key::LibraryPath => self.library_path.as_ref(),
            Key::Executable => self.executable.as_ref(),
            Key::OriginalAsarRelative => self.original_asar_relative.as_ref(),
            Key::ProfileDir => self.profile_dir.as_ref(),
            Key::WmClass => self.wm_class.as_ref(),
            Key::FolderName => self.folder_name.as_ref(),
            Key::ProcessArgv => self.process_argv.as_ref(),
        }
    }

    /// The value under `key`, which a hook cannot do without.
    pub fn require(&self, key: Key) -> (r: Result<&String, ConfigError>)
        ensures
            match r {
                Ok(s) => self@.get(key) == Some(s@),
                Err(e) => self@.get(key) is None && e == ConfigError::Missing(key),
            },
    {
        match self.get(key) {
            Some(s) => Ok(s),
            None => Err(ConfigError::Missing(key)),
        }
    }

    /// The first key without which the channel is not complete and which has
    /// no value.
    pub fn first_missing(&self) -> (r: Option<Key>)
        ensures
            r is None <==> self@.complete(),
            r matches Some(k) ==> !k.optional_spec() && self@.get(k) is None,
    {
        if self.asar_path.is_none() {
            Some(Key::AsarPath)
        } else if self.library_path.is_none() {
            Some(Key::LibraryPath)
        } else if self.executable.is_none() {
            Some(Key::Executable)
        } else if self.original_asar_relative.is_none() {
            Some(Key::OriginalAsarRelative)
        } else {
            None
        }
    }

    /// Remembers `name` as the install folder that is in use. Nothing else
    /// changes.
    pub fn set_folder_name(&mut self, name: &str)
        ensures
            final(self)@ == (Channel { folder_name: Some(name@), ..old(self)@ }),
    {
        self.folder_name = Some(String::from_str(name));
    }
}

/// Looking a name up behind one more optional entry.
pub proof fn lemma_lookup_entry(env: Environment, key: Key, value: Option<Seq<char>>, name: Seq<char>)
    ensures
        lookup(env + entry_of(key, value), name) == (if value is Some && key.name_spec() == name {
            value
        } else {
            lookup(env, name)
        }),
{
    let e = env + entry_of(key, value);
    match value {
        Some(v) => {
            assert(e.last() == (key.name_spec(), v));
            assert(e.drop_last() =~= env);
        },
        None => {
            assert(e =~= env);
        },
    }
}

/// Looking a name up in two environments in a row: the later one counts
/// where it has the name.
pub proof fn lemma_lookup_concat(a: Environment, b: Environment, name: Seq<char>)
    ensures
        lookup(a + b, name) == (match lookup(b, name) {
            Some(v) => Some(v),
            None => lookup(a, name),
        }),
    decreases b.len(),
{
    if b.len() == 0 {
        assert(a + b =~= a);
    } else {
        assert((a + b).last() == b.last());
        assert((a + b).drop_last() =~= a + b.drop_last());
        lemma_lookup_concat(a, b.drop_last(), name);
    }
}

/// What is written is what is read: a process that starts with the
/// variables of a channel finds every value of it, unchanged, and nothing
/// else.
pub proof fn law_channel_round_trip(c: Channel)
    ensures
        channel_of(entries(c)) == c,
{
    assert forall|k: Key| lookup(entries(c), k.name_spec()) == c.get(k) by {
        lemma_lookup_all(c, k);
    }
    assert(lookup(entries(c), Key::AsarPath.name_spec()) == c.get(Key::AsarPath));
    assert(lookup(entries(c), Key::LibraryPath.name_spec()) == c.get(Key::LibraryPath));
    assert(lookup(entries(c), Key::Executable.name_spec()) == c.get(Key::Executable));
    assert(lookup(entries(c), Key::OriginalAsarRelative.name_spec()) == c.get(
        Key::OriginalAsarRelative,
    ));
    assert(lookup(entries(c), Key::ProfileDir.name_spec()) == c.get(Key::ProfileDir));
    assert(lookup(entries(c), Key::WmClass.name_spec()) == c.get(Key::WmClass));
    assert(lookup(entries(c), Key::FolderName.name_spec()) == c.get(Key::FolderName));
    assert(lookup(entries(c), Key::ProcessArgv.name_spec()) == c.get(Key::ProcessArgv));
}

/// The variable of a key, looked up in the variables of a channel, is the
/// value that the channel holds under the key.
pub proof fn lemma_lookup_all(c: Channel, k: Key)
    ensures
        lookup(entries(c), k.name_spec()) == c.get(k),
{
    let n = k.name_spec();
    let e0 = Seq::<(Seq<char>, Seq<char>)>::empty();
    let e1 = e0 + entry_of(Key::AsarPath, c.asar_path);
    let e2 = e1 + entry_of(Key::LibraryPath, c.library_path);
    let e3 = e2 + entry_of(Key::Executable, c.executable);
    let e4 = e3 + entry_of(Key::OriginalAsarRelative, c.original_asar_relative);
    let e5 = e4 + entry_of(Key::ProfileDir, c.profile_dir);
    let e6 = e5 + entry_of(Key::WmClass, c.wm_class);
    let e7 = e6 + entry_of(Key::FolderName, c.folder_name);
    let e8 = e7 + entry_of(Key::ProcessArgv, c.process_argv);
    assert(e8 =~= entries(c));
    lemma_lookup_entry(e0, Key::AsarPath, c.asar_path, n);
    lemma_lookup_entry(e1, Key::LibraryPath, c.library_path, n);
    lemma_lookup_entry(e2, Key::Executable, c.executable, n);
    lemma_lookup_entry(e3, Key::OriginalAsarRelative, c.original_asar_relative, n);
    lemma_lookup_entry(e4, Key::ProfileDir, c.profile_dir, n);
    lemma_lookup_entry(e5, Key::WmClass, c.wm_class, n);
    lemma_lookup_entry(e6, Key::FolderName, c.folder_name, n);
    lemma_lookup_entry(e7, Key::ProcessArgv, c.process_argv, n);
    lemma_key_names_distinct(k, Key::AsarPath);
    lemma_key_names_distinct(k, Key::LibraryPath);
    lemma_key_names_distinct(k, Key::Executable);
    lemma_key_names_distinct(k, Key::OriginalAsarRelative);
    lemma_key_names_distinct(k, Key::ProfileDir);
    lemma_key_names_distinct(k, Key::WmClass);
    lemma_key_names_distinct(k, Key::FolderName);
    lemma_key_names_distinct(k, Key::ProcessArgv);
}

} // verus!
