//! The replacement archive: what goes into it and where it is written.
//!
//! The archive holds two files, the entry script `index.js` and the
//! manifest `package.json`. `Asar` collects what they are made of;
//! `Asar::create` says which files to write and where. Writing the archive
//! format and the file is left to the caller.

use crate::config::{env_view, opt_text, EnvVar, Environment, Key};
use crate::paths::{asar_cache_path, asar_cache_path_below, asar_cache_path_in};
use crate::text::{concat2, concat3};
use vstd::prelude::*;

verus! {

/// The manifest of the archive: the entry script, and the window class as
/// the package's name where one is given.
pub open spec fn package_json(wm_class: Option<Seq<char>>) -> Seq<char> {
    match wm_class {
        Some(w) => "{\"main\": \"index.js\", \"name\": \""@ + w + "\"}"@,
        None => "{\"main\": \"index.js\"}"@,
    }
}

/// The manifest of the archive.
pub fn make_package_json(wm_class: &Option<String>) -> (r: String)
    ensures
        r@ == package_json(opt_text(*wm_class)),
{
    match wm_class {
        Some(w) => concat3("{\"main\": \"index.js\", \"name\": \"", w.as_str(), "\"}"),
        None => String::from_str("{\"main\": \"index.js\"}"),
    }
}

/// `c` is a digit or one of the letters `a` to `f`.
pub open spec fn is_lower_hex(c: char) -> bool {
    ('0' <= c && c <= '9') || ('a' <= c && c <= 'f')
}

/// `s` is a UUID as it is usually written: 36 characters, hyphens behind
/// the groups of 8, 4, 4 and 4, digits in lower-case hexadecimal elsewhere.
pub open spec fn is_hyphenated_uuid(s: Seq<char>) -> bool {
    &&& s.len() == 36
    &&& forall|i: int|
        0 <= i < 36 ==> if i == 8 || i == 13 || i == 18 || i == 23 {
            #[trigger] s[i] == '-'
        } else {
            is_lower_hex(s[i])
        }
}

/// Calls `uuid::Uuid::new_v4` and writes the result with `to_string`. The
/// value is random; its text always has the hyphenated lower-case form.
/// Should the system refuse to give random bytes, the call panics.
#[verifier::external_body]
fn fresh_uuid() -> (r: String)
    ensures
        is_hyphenated_uuid(r@),
{
    uuid::Uuid::new_v4().to_string()
}

/// The variable that names the archive's id.
pub open spec fn asar_id_variable() -> Seq<char> {
    "MODLOADER_ASAR_ID"@
}

/// The variable that names the mod's entry point.
pub open spec fn mod_entrypoint_variable() -> Seq<char> {
    "MODLOADER_MOD_ENTRYPOINT"@
}

/// What an archive is made from, as texts.
pub struct Recipe {
    /// The id: the archive is the file of this name with the extension
    /// `.asar`.
    pub id: Seq<char>,
    /// The text of `index.js`.
    pub template: Seq<char>,
    /// The window class of the application.
    pub wm_class: Option<Seq<char>>,
    /// The main file of the mod.
    pub mod_entrypoint: Seq<char>,
    /// An alternate profile directory.
    pub profile_dir: Option<Seq<char>>,
}

/// One file of the archive, as texts.
pub struct FileText {
    /// Its path inside the archive.
    pub name: Seq<char>,
    /// What it holds.
    pub content: Seq<char>,
    /// Whether it is marked executable.
    pub executable: bool,
}

/// The files of the archive, in the order in which they are written.
pub open spec fn archive_files(recipe: Recipe) -> Seq<FileText> {
    seq![
        FileText { name: "index.js"@, content: recipe.template, executable: false },
        FileText {
            name: "package.json"@,
            content: package_json(recipe.wm_class),
            executable: false,
        },
    ]
}

/// The variable `name` with the value `value`, where `present` holds.
pub open spec fn variable_if(present: bool, name: Seq<char>, value: Seq<char>) -> Environment {
    if present {
        seq![(name, value)]
    } else {
        Seq::empty()
    }
}

/// The variables through which the template finds what the recipe names:
/// the id and the entry point where they are not empty, the window class
/// and the profile directory where they are given.
pub open spec fn recipe_environment(recipe: Recipe) -> Environment {
    variable_if(recipe.id.len() > 0, asar_id_variable(), recipe.id) + variable_if(
        recipe.mod_entrypoint.len() > 0,
        mod_entrypoint_variable(),
        recipe.mod_entrypoint,
    ) + variable_if(
        recipe.wm_class is Some,
        Key::WmClass.name_spec(),
        match recipe.wm_class {
            Some(w) => w,
            None => Seq::empty(),
        },
    ) + variable_if(
        recipe.profile_dir is Some,
        Key::ProfileDir.name_spec(),
        match recipe.profile_dir {
            Some(p) => p,
            None => Seq::empty(),
        },
    )
}

/// One file of the archive.
#[derive(Clone, Debug, PartialEq, Eq)]
pub struct ArchiveFile {
    /// Its path inside the archive.
    pub name: String,
    /// What it holds.
    pub content: String,
    /// Whether it is marked executable.
    pub executable: bool,
}

impl View for ArchiveFile {
    type V = FileText;

    open spec fn view(&self) -> FileText {
        FileText { name: self.name@, content: self.content@, executable: self.executable }
    }
}

/// The views of a list of files.
pub open spec fn files_view(v: Seq<ArchiveFile>) -> Seq<FileText> {
    Seq::new(v.len(), |i: int| v[i]@)
}

/// An archive to write: where, and which files in which order.
#[derive(Clone, Debug, PartialEq, Eq)]
pub struct ArchivePlan {
    /// The path of the archive.
    pub path: String,
    /// Its files.
    pub files: Vec<ArchiveFile>,
}

/// The step at which writing an archive failed.
#[derive(Clone, Copy, Debug, PartialEq, Eq, Structural)]
pub enum ArchiveStep {
    /// Adding `index.js`.
    WriteIndex,
    /// Adding `package.json`.
    WritePackage,
    /// Creating the file of the archive.
    CreateFile,
    /// Writing the archive to the file.
    Finalize,
}

/// The failure of `step` in words: what failed, for the creation of the
/// file also where, and `detail`, the words of whoever failed.
pub open spec fn failure_message(step: ArchiveStep, path: Seq<char>, detail: Seq<char>) -> Seq<
    char,
> {
    match step {
        ArchiveStep::WriteIndex => "Failed to write index.js: "@ + detail,
        ArchiveStep::WritePackage => "Failed to write package.json: "@ + detail,
        ArchiveStep::CreateFile => "Failed to create file at "@ + path + ": "@ + detail,
        ArchiveStep::Finalize => "Failed to write asar to disk with error: "@ + detail,
    }
}

/// The failure of `step` in words.
pub fn archive_failure(step: ArchiveStep, path: &str, detail: &str) -> (r: String)
    ensures
        r@ == failure_message(step, path@, detail@),
{
    match step {
        ArchiveStep::WriteIndex => concat2("Failed to write index.js: ", detail),
        ArchiveStep::WritePackage => concat2("Failed to write package.json: ", detail),
        ArchiveStep::CreateFile => String::from_str("Failed to create file at ").concat(
            path,
        ).concat(": ").concat(detail),
        ArchiveStep::Finalize => concat2("Failed to write asar to disk with error: ", detail),
    }
}

/// A builder for the replacement archive.
#[derive(Clone, Debug, PartialEq, Eq)]
pub struct Asar {
    /// The id: the archive is the file of this name with the extension
    /// `.asar` in the directory of the archives. A random UUID or a name to
    /// use again.
    pub id: String,
    /// The text of `index.js`. It finds what it needs in the environment;
    /// at the least it loads the mod:
    /// `require(process.env.MODLOADER_MOD_ENTRYPOINT);`
    pub template: String,
    /// The window class of the application that the mod is for.
    pub wm_class: Option<String>,
    /// The main file of the mod.
    pub mod_entrypoint: String,
    /// An alternate profile directory: settings and caches of their own for
    /// this mod.
    pub profile_dir: Option<String>,
}

impl View for Asar {
    type V = Recipe;

    open spec fn view(&self) -> Recipe {
        Recipe {
            id: self.id@,
            template: self.template@,
            wm_class: opt_text(self.wm_class),
            mod_entrypoint: self.mod_entrypoint@,
            profile_dir: opt_text(self.profile_dir),
        }
    }
}

/// The recipe with nothing in it.
pub open spec fn empty_recipe() -> Recipe {
    Recipe {
        id: Seq::empty(),
        template: Seq::empty(),
        wm_class: None,
        mod_entrypoint: Seq::empty(),
        profile_dir: None,
    }
}

impl Default for Asar {
    fn default() -> (r: Asar)
        ensures
            r@ == empty_recipe(),
    {
        Asar {
            id: String::new(),
            template: String::new(),
            wm_class: None,
            mod_entrypoint: String::new(),
            profile_dir: None,
        }
    }
}

/// Adds the variable `name` to `out` where `present` holds.
fn push_variable(out: &mut Vec<EnvVar>, present: bool, name: &str, value: &str)
    ensures
        env_view(final(out)@) == env_view(old(out)@) + variable_if(present, name@, value@),
{
    if present {
        out.push(EnvVar::new(name, value));
    }
    assert(env_view(out@) =~= env_view(old(out)@) + variable_if(present, name@, value@));
}

/// The text of `o`, or the empty text.
fn text_or_empty(o: &Option<String>) -> (r: &str)
    ensures
        r@ == (match opt_text(*o) {
            Some(s) => s,
            None => Seq::empty(),
        }),
{
    match o {
        Some(s) => s.as_str(),
        None => {
            proof {
                reveal_strlit("");
            }
            assert(""@ =~= Seq::<char>::empty());
            ""
        },
    }
}

impl Asar {
    /// A builder with nothing in it.
    pub fn new() -> (r: Asar)
        ensures
            r@ == empty_recipe(),
    {
        Asar {
            id: String::new(),
            template: String::new(),
            wm_class: None,
            mod_entrypoint: String::new(),
            profile_dir: None,
        }
    }

    /// The path of the archive with the user's cache directory
    /// `cache_root`: none as long as the id is empty.
    pub fn get_path_in(&self, cache_root: &str) -> (r: Option<String>)
        ensures
            match r {
                Some(p) => self@.id.len() > 0 && p@ == asar_cache_path_below(cache_root@, self@.id),
                None => self@.id.len() == 0,
            },
    {
        if self.id.as_str().unicode_len() == 0 {
            None
        } else {
            Some(asar_cache_path_in(cache_root, self.id.as_str()))
        }
    }

    /// The path of the archive: none as long as the id is empty, and none
    /// where the user has no cache directory.
    pub fn get_path(&self) -> (r: Option<String>)
        ensures
            self@.id.len() == 0 ==> r is None,
            r matches Some(p) ==> exists|root: Seq<char>|
                p@ == asar_cache_path_below(root, self@.id),
    {
        if self.id.as_str().unicode_len() == 0 {
            None
        } else {
            asar_cache_path(self.id.as_str())
        }
    }

    /// Gives the archive a random UUID as its id. Nothing else changes.
    pub fn with_uuid(self) -> (r: Asar)
        ensures
            is_hyphenated_uuid(r@.id),
            r@ == (Recipe { id: r@.id, ..self@ }),
    {
        self.with_uuid_text(fresh_uuid())
    }

    /// Gives the archive `uuid` as its id. Nothing else changes.
    pub fn with_uuid_text(self, uuid: String) -> (r: Asar)
        ensures
            r@ == (Recipe { id: uuid@, ..self@ }),
    {
        let mut b = self;
        b.id = uuid;
        b
    }

    /// Gives the archive the id `id`. Nothing else changes.
    pub fn with_id(self, id: &str) -> (r: Asar)
        ensures
            r@ == (Recipe { id: id@, ..self@ }),
    {
        let mut b = self;
        b.id = String::from_str(id);
        b
    }

    /// Sets the text of `index.js`. Nothing else changes.
    pub fn with_template(self, template: &str) -> (r: Asar)
        ensures
            r@ == (Recipe { template: template@, ..self@ }),
    {
        let mut b = self;
        b.template = String::from_str(template);
        b
    }

    /// Names the main file of the mod. Nothing else changes.
    pub fn with_mod_entrypoint(self, mod_entrypoint: &str) -> (r: Asar)
        ensures
            r@ == (Recipe { mod_entrypoint: mod_entrypoint@, ..self@ }),
    {
        let mut b = self;
        b.mod_entrypoint = String::from_str(mod_entrypoint);
        b
    }

    /// Sets the window class of the application. Nothing else changes.
    pub fn with_wm_class(self, wm_class: &str) -> (r: Asar)
        ensures
            r@ == (Recipe { wm_class: Some(wm_class@), ..self@ }),
    {
        let mut b = self;
        b.wm_class = Some(String::from_str(wm_class));
        b
    }

    /// Names an alternate profile directory. Nothing else changes.
    pub fn with_profile_dir(self, profile_dir: &str) -> (r: Asar)
        ensures
            r@ == (Recipe { profile_dir: Some(profile_dir@), ..self@ }),
    {
        let mut b = self;
        b.profile_dir = Some(String::from_str(profile_dir));
        b
    }

    /// The variables to set in the launcher's environment, from where the
    /// target inherits them.
    pub fn environment(&self) -> (r: Vec<EnvVar>)
        ensures
            env_view(r@) == recipe_environment(self@),
    {
        let mut out: Vec<EnvVar> = Vec::new();
        assert(env_view(out@) =~= Seq::empty());
        push_variable(
            &mut out,
            self.id.as_str().unicode_len() > 0,
            "MODLOADER_ASAR_ID",
            self.id.as_str(),
        );
        push_variable(
            &mut out,
            self.mod_entrypoint.as_str().unicode_len() > 0,
            "MODLOADER_MOD_ENTRYPOINT",
            self.mod_entrypoint.as_str(),
        );
        push_variable(
            &mut out,
            self.wm_class.is_some(),
            Key::WmClass.name(),
            text_or_empty(&self.wm_class),
        );
        push_variable(
            &mut out,
            self.profile_dir.is_some(),
            Key::ProfileDir.name(),
            text_or_empty(&self.profile_dir),
        );
        assert(env_view(out@) =~= recipe_environment(self@));
        out
    }

    /// The files of the archive, in the order in which they are written.
    pub fn files(&self) -> (r: Vec<ArchiveFile>)
        ensures
            files_view(r@) == archive_files(self@),
    {
        let mut files: Vec<ArchiveFile> = Vec::new();
        files.push(
            ArchiveFile {
                name: String::from_str("index.js"),
                content: self.template.clone(),
                executable: false,
            },
        );
        files.push(
            ArchiveFile {
                name: String::from_str("package.json"),
                content: make_package_json(&self.wm_class),
                executable: false,
            },
        );
        assert(files_view(files@) =~= archive_files(self@));
        files
    }

    /// The archive to write, with the user's cache directory `cache_root`.
    pub fn create_in(&self, cache_root: &str) -> (r: ArchivePlan)
        ensures
            r.path@ == asar_cache_path_below(cache_root@, self@.id),
            files_view(r.files@) == archive_files(self@),
    {
        ArchivePlan { path: asar_cache_path_in(cache_root, self.id.as_str()), files: self.files() }
    }

    /// The archive to write: none where the user has no cache directory.
    pub fn create(&self) -> (r: Option<ArchivePlan>)
        ensures
            r matches Some(plan) ==> files_view(plan.files@) == archive_files(self@),
            r matches Some(plan) ==> exists|root: Seq<char>|
                plan.path@ == asar_cache_path_below(root, self@.id),
    {
        match asar_cache_path(self.id.as_str()) {
            Some(path) => {
                let ghost root = choose|root: Seq<char>|
                    path@ == asar_cache_path_below(root, self@.id);
                let plan = ArchivePlan { path, files: self.files() };
                assert(plan.path@ == asar_cache_path_below(root, self@.id));
                Some(plan)
            },
            None => None,
        }
    }
}

} // verus!
