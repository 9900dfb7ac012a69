//! The path redirector: which archive a requested path really names.
//!
//! The host looks for its code in `resources/app.asar` and, while it
//! updates itself, keeps its own archive beside it as `_app.asar`. A hook
//! asks this module what to do with each path it sees:
//!
//! 1. a path that names the shadow archive is rewritten to the canonical
//!    name, so that the host's own archive stays reachable: where the marker
//!    `resources/_app.asar` stands, `resources/app.asar` is written, and
//!    nothing else in the path changes;
//! 2. otherwise a path that names the canonical archive of the installation
//!    in use is rewritten to the replacement archive;
//! 3. every other path is left alone.
//!
//! The first rule is tried first. On Windows several versions may lie side
//! by side during an update, so the second rule there asks for the name of
//! the install folder in use in front of `resources`.

use crate::config::{Channel, ConfigError, ConfigurationChannel, Key};
use crate::pathname::{
    file_name, file_name_of, grandparent, grandparent_of, is_name, lemma_file_name_last,
    lemma_root_of_longer_path, lemma_split_last, parent, root_len, separator_free, PathStyle,
};
use crate::text::{
    concat3, contains, law_replace_single_occurrence, law_replace_unfolds,
    law_replace_without_occurrence, lemma_contains_parts, lemma_occurs_between, occurs_at,
    replace_all, str_contains, str_replace,
};
use vstd::prelude::*;

verus! {

/// The name of the canonical archive.
pub open spec fn archive_name() -> Seq<char> {
    "app.asar"@
}

/// What marks a path as one of the shadow archive: `resources`, a
/// separator and `_app.asar`.
pub open spec fn shadow_marker(style: PathStyle) -> Seq<char> {
    match style {
        PathStyle::Posix => "resources/_app.asar"@,
        PathStyle::Windows => "resources\\_app.asar"@,
    }
}

/// The segment that the rule for file moves rewrites: a separator and
/// `_app.asar`.
pub open spec fn shadow_name(style: PathStyle) -> Seq<char> {
    match style {
        PathStyle::Posix => "/_app.asar"@,
        PathStyle::Windows => "\\_app.asar"@,
    }
}

/// What the rule for file moves writes in its place: a separator and
/// `app.asar`.
pub open spec fn canonical_name(style: PathStyle) -> Seq<char> {
    match style {
        PathStyle::Posix => "/app.asar"@,
        PathStyle::Windows => "\\app.asar"@,
    }
}

/// What marks a path as one of the canonical archive: `resources`, a
/// separator and `app.asar`.
pub open spec fn canonical_marker(style: PathStyle) -> Seq<char> {
    match style {
        PathStyle::Posix => "resources/app.asar"@,
        PathStyle::Windows => "resources\\app.asar"@,
    }
}

/// `file_name` below the install folder `folder_name`, as Windows writes it.
pub open spec fn prefixed(folder_name: Seq<char>, file_name: Seq<char>) -> Seq<char> {
    folder_name + "\\"@ + file_name
}

/// What the second rule looks for: the canonical marker, on Windows behind the name
/// of the install folder in use.
pub open spec fn scoped_marker(style: PathStyle, folder_name: Seq<char>) -> Seq<char> {
    match style {
        PathStyle::Posix => canonical_marker(style),
        PathStyle::Windows => prefixed(folder_name, canonical_marker(style)),
    }
}

/// The outcome of the rule for one path, as texts.
pub enum Rewrite {
    /// The path is passed on as it came.
    Unchanged,
    /// The path named the shadow archive and now names the canonical one.
    RewriteToOriginal(Seq<char>),
    /// The path named the canonical archive and now names the replacement.
    RewriteToReplacement(Seq<char>),
}

/// The rule. A value of the channel is asked for only where the outcome
/// depends on it: the install folder's name for a Windows path that holds
/// the canonical marker, the replacement's path where the second rule applies.
pub open spec fn classify(style: PathStyle, path: Seq<char>, channel: Channel) -> Result<
    Rewrite,
    ConfigError,
> {
    if contains(path, shadow_marker(style)) {
        Ok(
            Rewrite::RewriteToOriginal(
                replace_all(path, shadow_marker(style), canonical_marker(style)),
            ),
        )
    } else if !contains(path, canonical_marker(style)) {
        Ok(Rewrite::Unchanged)
    } else if style == PathStyle::Windows && channel.folder_name is None {
        Err(ConfigError::Missing(Key::FolderName))
    } else if !contains(
        path,
        scoped_marker(
            style,
            match channel.folder_name {
                Some(f) => f,
                None => Seq::empty(),
            },
        ),
    ) {
        Ok(Rewrite::Unchanged)
    } else {
        match channel.asar_path {
            Some(a) => Ok(Rewrite::RewriteToReplacement(a)),
            None => Err(ConfigError::Missing(Key::AsarPath)),
        }
    }
}

/// The outcome of the rule for one path.
#[derive(Clone, Debug, PartialEq, Eq)]
pub enum Redirect {
    /// The path is passed on as it came.
    Unchanged,
    /// The path named the shadow archive; this one names the canonical one.
    RewriteToOriginal(String),
    /// The path named the canonical archive; this one names the replacement.
    RewriteToReplacement(String),
}

impl View for Redirect {
    type V = Rewrite;

    open spec fn view(&self) -> Rewrite {
        match self {
            Redirect::Unchanged => Rewrite::Unchanged,
            Redirect::RewriteToOriginal(p) => Rewrite::RewriteToOriginal(p@),
            Redirect::RewriteToReplacement(p) => Rewrite::RewriteToReplacement(p@),
        }
    }
}

impl Redirect {
    /// The path to hand to the captured original function for a call that
    /// asked for `requested`.
    pub fn target<'a>(&'a self, requested: &'a str) -> (r: &'a str)
        ensures
            r@ == (match self@ {
                Rewrite::Unchanged => requested@,
                Rewrite::RewriteToOriginal(p) => p,
                Rewrite::RewriteToReplacement(p) => p,
            }),
    {
        match self {
            Redirect::Unchanged => requested,
            Redirect::RewriteToOriginal(p) => p.as_str(),
            Redirect::RewriteToReplacement(p) => p.as_str(),
        }
    }
}

/// The shadow marker of `style`.
pub fn shadow_marker_text(style: PathStyle) -> (r: &'static str)
    ensures
        r@ == shadow_marker(style),
{
    match style {
        PathStyle::Posix => "resources/_app.asar",
        PathStyle::Windows => "resources\\_app.asar",
    }
}

/// The segment of `style` that the rule for file moves rewrites.
pub fn shadow_name_text(style: PathStyle) -> (r: &'static str)
    ensures
        r@ == shadow_name(style),
{
    match style {
        PathStyle::Posix => "/_app.asar",
        PathStyle::Windows => "\\_app.asar",
    }
}

/// What the rule for file moves writes in its place.
pub fn canonical_name_text(style: PathStyle) -> (r: &'static str)
    ensures
        r@ == canonical_name(style),
{
    match style {
        PathStyle::Posix => "/app.asar",
        PathStyle::Windows => "\\app.asar",
    }
}

/// The canonical marker of `style`.
pub fn canonical_marker_text(style: PathStyle) -> (r: &'static str)
    ensures
        r@ == canonical_marker(style),
{
    match style {
        PathStyle::Posix => "resources/app.asar",
        PathStyle::Windows => "resources\\app.asar",
    }
}

/// `file_name` below the install folder `folder_name`: the two with a
/// backslash between them. The hooks must touch the files of the version in
/// use only, or the updater would stumble over them.
pub fn prefix_file(folder_name: &str, file_name: &str) -> (r: String)
    ensures
        r@ == prefixed(folder_name@, file_name@),
{
    concat3(folder_name, "\\", file_name)
}

/// Applies the rule to `path`: the decision of every hook that stats or
/// opens a file. `Unchanged` means that the call goes on with the path it
/// came with; a rewrite carries the path to go on with.
pub fn redirect(style: PathStyle, path: &str, channel: &ConfigurationChannel) -> (r: Result<
    Redirect,
    ConfigError,
>)
    ensures
        match r {
            Ok(d) => classify(style, path@, channel@) == Ok::<Rewrite, ConfigError>(d@),
            Err(e) => classify(style, path@, channel@) == Err::<Rewrite, ConfigError>(e),
        },
{
    if str_contains(path, shadow_marker_text(style)) {
        return Ok(
            Redirect::RewriteToOriginal(
                str_replace(path, shadow_marker_text(style), canonical_marker_text(style)),
            ),
        );
    }
    if !str_contains(path, canonical_marker_text(style)) {
        return Ok(Redirect::Unchanged);
    }
    let scoped = match style {
        PathStyle::Posix => str_contains(path, canonical_marker_text(style)),
        PathStyle::Windows => match &channel.folder_name {
            Some(f) => {
                let marker = prefix_file(f.as_str(), canonical_marker_text(style));
                str_contains(path, marker.as_str())
            },
            None => {
                return Err(ConfigError::Missing(Key::FolderName));
            },
        },
    };
    if !scoped {
        return Ok(Redirect::Unchanged);
    }
    match &channel.asar_path {
        Some(a) => Ok(Redirect::RewriteToReplacement(a.clone())),
        None => Err(ConfigError::Missing(Key::AsarPath)),
    }
}

/// What the interception of a file move decides, as texts.
pub enum MoveRewrite {
    /// The move goes on as it was asked for.
    Unchanged,
    /// The move goes to `destination` instead; `folder_name`, where there
    /// is one, is the install folder that is in use from now on.
    Redirected { destination: Seq<char>, folder_name: Option<Seq<char>> },
}

/// The name of the directory two levels above `path`.
pub open spec fn install_folder_name(style: PathStyle, path: Seq<char>) -> Option<Seq<char>> {
    match grandparent(style, path) {
        Some(g) => file_name(style, g),
        None => None,
    }
}

/// The rule for the destination of a file move. A destination that holds
/// the shadow segment is rewritten to the canonical name, and the directory
/// two levels above the new destination names the install folder.
pub open spec fn classify_move(style: PathStyle, destination: Seq<char>) -> MoveRewrite {
    if contains(destination, shadow_name(style)) {
        let to = replace_all(destination, shadow_name(style), canonical_name(style));
        MoveRewrite::Redirected { destination: to, folder_name: install_folder_name(style, to) }
    } else {
        MoveRewrite::Unchanged
    }
}

/// The channel after a move to `destination` was seen: the install folder's
/// name follows the move, nothing else changes.
pub open spec fn channel_after_move(style: PathStyle, destination: Seq<char>, channel: Channel)
    -> Channel {
    match classify_move(style, destination) {
        MoveRewrite::Redirected { folder_name: Some(f), .. } => Channel {
            folder_name: Some(f),
            ..channel
        },
        _ => channel,
    }
}

/// What the interception of a file move decides.
#[derive(Clone, Debug, PartialEq, Eq)]
pub enum MoveRedirect {
    /// The move goes on as it was asked for.
    Unchanged,
    /// The move goes to `destination` instead; `folder_name`, where there
    /// is one, is the install folder that is in use from now on.
    Redirected { destination: String, folder_name: Option<String> },
}

impl View for MoveRedirect {
    type V = MoveRewrite;

    open spec fn view(&self) -> MoveRewrite {
        match self {
            MoveRedirect::Unchanged => MoveRewrite::Unchanged,
            MoveRedirect::Redirected { destination, folder_name } => MoveRewrite::Redirected {
                destination: destination@,
                folder_name: match folder_name {
                    Some(f) => Some(f@),
                    None => None,
                },
            },
        }
    }
}

/// Applies the rule for file moves to the destination of a move. The
/// updater puts a new archive in place by such a move; sent to the shadow
/// name, it would hide the host's archive where the replacement is looked
/// for.
pub fn redirect_move(style: PathStyle, destination: &str) -> (r: MoveRedirect)
    ensures
        r@ == classify_move(style, destination@),
{
    if !str_contains(destination, shadow_name_text(style)) {
        return MoveRedirect::Unchanged;
    }
    let to = str_replace(destination, shadow_name_text(style), canonical_name_text(style));
    let folder_name = match grandparent_of(style, to.as_str()) {
        Some(g) => file_name_of(style, g.as_str()),
        None => None,
    };
    MoveRedirect::Redirected { destination: to, folder_name }
}

/// Decides on a move to `destination` and remembers in `channel` the
/// install folder that the move makes the one in use.
pub fn intercept_move(style: PathStyle, destination: &str, channel: &mut ConfigurationChannel) -> (r:
    MoveRedirect)
    ensures
        r@ == classify_move(style, destination@),
        final(channel)@ == channel_after_move(style, destination@, old(channel)@),
{
    let r = redirect_move(style, destination);
    match &r {
        MoveRedirect::Redirected { folder_name: Some(f), .. } => {
            channel.set_folder_name(f.as_str());
        },
        _ => {},
    }
    r
}

/// The canonical marker and the shadow marker end with the archive's name,
/// and behind an install folder's name the scoped marker still holds the
/// canonical one.
pub proof fn lemma_marker_parts(style: PathStyle, folder_name: Seq<char>)
    ensures
        exists|a: Seq<char>| #[trigger] (a + archive_name()) == canonical_marker(style),
        exists|a: Seq<char>| #[trigger] (a + archive_name()) == shadow_marker(style),
        exists|a: Seq<char>| #[trigger] (a + canonical_marker(style)) == scoped_marker(
            style,
            folder_name,
        ),
{
    reveal_strlit("app.asar");
    reveal_strlit("resources/_app.asar");
    reveal_strlit("resources\\_app.asar");
    reveal_strlit("resources/app.asar");
    reveal_strlit("resources\\app.asar");
    reveal_strlit("/_app.asar");
    reveal_strlit("\\_app.asar");
    reveal_strlit("\\");
    let c = canonical_marker(style);
    let a1 = c.subrange(0, 10);
    assert(a1 + archive_name() =~= c);
    let s = shadow_marker(style);
    let a2 = s.subrange(0, 11);
    assert(a2 + archive_name() =~= s);
    let a4 = match style {
        PathStyle::Posix => Seq::<char>::empty(),
        PathStyle::Windows => folder_name + "\\"@,
    };
    assert(a4 + c =~= scoped_marker(style, folder_name));
}

/// A path that holds neither marker is passed on as it came, whatever the
/// channel holds.
pub proof fn law_unmarked_path_unchanged(style: PathStyle, path: Seq<char>, channel: Channel)
    requires
        !contains(path, shadow_marker(style)),
        !contains(path, canonical_marker(style)),
    ensures
        classify(style, path, channel) == Ok::<Rewrite, ConfigError>(Rewrite::Unchanged),
{
}

/// A path in which the archive's name `app.asar` does not stand holds
/// neither marker, and is passed on as it came.
pub proof fn law_path_without_archive_name_unchanged(
    style: PathStyle,
    path: Seq<char>,
    channel: Channel,
)
    requires
        !contains(path, archive_name()),
    ensures
        !contains(path, shadow_marker(style)),
        !contains(path, canonical_marker(style)),
        classify(style, path, channel) == Ok::<Rewrite, ConfigError>(Rewrite::Unchanged),
{
    lemma_marker_parts(style, Seq::empty());
    let a1 = choose|a: Seq<char>| #[trigger] (a + archive_name()) == canonical_marker(style);
    if contains(path, canonical_marker(style)) {
        lemma_contains_parts(path, a1, archive_name());
    }
    let a2 = choose|a: Seq<char>| #[trigger] (a + archive_name()) == shadow_marker(style);
    if contains(path, shadow_marker(style)) {
        lemma_contains_parts(path, a2, archive_name());
    }
}

/// A path that holds the shadow marker is rewritten by the first rule,
/// whether or not it holds the canonical marker too and whatever the
/// channel holds: every shadow marker gives way to the canonical marker.
pub proof fn law_shadow_rule_first(style: PathStyle, path: Seq<char>, channel: Channel)
    requires
        contains(path, shadow_marker(style)),
    ensures
        classify(style, path, channel) == Ok::<Rewrite, ConfigError>(
            Rewrite::RewriteToOriginal(
                replace_all(path, shadow_marker(style), canonical_marker(style)),
            ),
        ),
{
}

/// The marker alone is rewritten. Take any path that holds the shadow
/// marker and cut it at the first place where the marker stands: `before`,
/// the marker, `behind`. The first rule keeps `before` as it is, writes the
/// canonical marker for the shadow marker, and treats `behind` in the same
/// way; where `behind` holds no further marker it is kept as it is. A
/// segment `_app.asar` that does not stand behind `resources` is no marker
/// and stays.
pub proof fn law_shadow_marker_alone_rewritten(
    style: PathStyle,
    before: Seq<char>,
    behind: Seq<char>,
    channel: Channel,
)
    requires
        forall|j: int|
            0 <= j < before.len() ==> !#[trigger] occurs_at(
                before + shadow_marker(style) + behind,
                shadow_marker(style),
                j,
            ),
    ensures
        classify(style, before + shadow_marker(style) + behind, channel) == Ok::<
            Rewrite,
            ConfigError,
        >(
            Rewrite::RewriteToOriginal(
                before + canonical_marker(style) + replace_all(
                    behind,
                    shadow_marker(style),
                    canonical_marker(style),
                ),
            ),
        ),
        !contains(behind, shadow_marker(style)) ==> classify(
            style,
            before + shadow_marker(style) + behind,
            channel,
        ) == Ok::<Rewrite, ConfigError>(
            Rewrite::RewriteToOriginal(before + canonical_marker(style) + behind),
        ),
{
    let from = shadow_marker(style);
    let to = canonical_marker(style);
    let path = before + from + behind;
    reveal_strlit("resources/_app.asar");
    reveal_strlit("resources\\_app.asar");
    lemma_occurs_between(before, from, behind);
    law_replace_unfolds(path, from, to, before.len() as int);
    assert(path.subrange(0, before.len() as int) =~= before);
    assert(path.skip((before.len() + from.len()) as int) =~= behind);
    if !contains(behind, from) {
        law_replace_without_occurrence(behind, from, to);
    }
}

/// A path that holds the canonical marker of the installation in use, and
/// not the shadow marker, is rewritten to the replacement archive that the
/// channel names. On Windows the marker stands behind the name of the
/// install folder in use.
pub proof fn law_canonical_path_replaced(
    style: PathStyle,
    path: Seq<char>,
    channel: Channel,
    folder_name: Seq<char>,
    asar_path: Seq<char>,
)
    requires
        channel.asar_path == Some(asar_path),
        style == PathStyle::Windows ==> channel.folder_name == Some(folder_name),
        contains(path, scoped_marker(style, folder_name)),
        !contains(path, shadow_marker(style)),
    ensures
        classify(style, path, channel) == Ok::<Rewrite, ConfigError>(
            Rewrite::RewriteToReplacement(asar_path),
        ),
{
    lemma_marker_parts(style, folder_name);
    let a = choose|a: Seq<char>| #[trigger] (a + canonical_marker(style)) == scoped_marker(
        style,
        folder_name,
    );
    lemma_contains_parts(path, a, canonical_marker(style));
}

/// On Windows a path that does not hold the canonical marker behind the
/// name of the install folder in use is never rewritten to the replacement:
/// the archive of another version, which lies in another folder, is left
/// alone.
pub proof fn law_other_install_folder_untouched(
    path: Seq<char>,
    channel: Channel,
    folder_name: Seq<char>,
)
    requires
        channel.folder_name == Some(folder_name),
        !contains(path, prefixed(folder_name, canonical_marker(PathStyle::Windows))),
        !contains(path, shadow_marker(PathStyle::Windows)),
    ensures
        classify(PathStyle::Windows, path, channel) == Ok::<Rewrite, ConfigError>(
            Rewrite::Unchanged,
        ),
{
}

/// The two rewrites exclude each other: a path that the first rule rewrites holds
/// the shadow marker, a path that the second rule rewrites does not.
pub proof fn law_rewrites_exclusive(style: PathStyle, path: Seq<char>, channel: Channel)
    ensures
        classify(style, path, channel) matches Ok(Rewrite::RewriteToOriginal(_)) <==> contains(
            path,
            shadow_marker(style),
        ),
        classify(style, path, channel) matches Ok(Rewrite::RewriteToReplacement(_)) ==> !contains(
            path,
            shadow_marker(style),
        ) && contains(path, canonical_marker(style)),
{
}

/// A move to `dir\_app.asar` (on POSIX `dir/_app.asar`), where `dir` is
/// `base`, a separator, the install folder `folder`, a separator and one
/// more directory `inner`, and where the shadow segment stands at the end
/// only, goes to `dir\app.asar` instead, and `folder` is the install folder
/// in use from then on. `base` is whatever stands in front: directories, or
/// a drive alone.
pub proof fn law_move_to_shadow_redirected(
    style: PathStyle,
    base: Seq<char>,
    folder: Seq<char>,
    inner: Seq<char>,
)
    requires
        base.len() > 0,
        is_name(folder),
        separator_free(style, folder),
        inner.len() > 0,
        separator_free(style, inner),
        forall|j: int| #[trigger]
            occurs_at(
                base + seq![style.main_separator()] + folder + seq![style.main_separator()] + inner
                    + shadow_name(style),
                shadow_name(style),
                j,
            ) ==> j == (base + seq![style.main_separator()] + folder + seq![
                style.main_separator(),
            ] + inner).len(),
    ensures
        classify_move(
            style,
            base + seq![style.main_separator()] + folder + seq![style.main_separator()] + inner
                + shadow_name(style),
        ) == (MoveRewrite::Redirected {
            destination: base + seq![style.main_separator()] + folder + seq![
                style.main_separator(),
            ] + inner + canonical_name(style),
            folder_name: Some(folder),
        }),
{
    let sep = style.main_separator();
    let top = base + seq![sep] + folder;
    let dir = top + seq![sep] + inner;
    let from = shadow_name(style);
    let to = canonical_name(style);
    let path = dir + from;
    reveal_strlit("/_app.asar");
    reveal_strlit("\\_app.asar");
    reveal_strlit("/app.asar");
    reveal_strlit("\\app.asar");
    reveal_strlit("app.asar");
    let empty = Seq::<char>::empty();
    assert(dir + from + empty =~= path);
    lemma_occurs_between(dir, from, empty);
    law_replace_single_occurrence(path, from, to, dir.len() as int);
    assert(path.subrange(0, dir.len() as int) =~= dir);
    assert(path.subrange((dir.len() + from.len()) as int, path.len() as int) =~= empty);
    let moved = dir + to;
    assert(dir + to + empty =~= moved);
    assert(replace_all(path, from, to) == moved);
    // The install folder is the name of `top`, and `top` is more than a root.
    lemma_file_name_last(style, base, sep, folder);
    assert(file_name(style, top) == Some(folder));
    assert(root_len(style, top) < top.len());
    lemma_root_of_longer_path(style, top, sep, inner);
    assert(root_len(style, dir) < dir.len());
    // The new destination is `dir`, a separator and the archive's name.
    assert(to =~= seq![sep] + archive_name());
    assert(moved =~= dir + seq![sep] + archive_name());
    assert(dir.last() == inner.last());
    lemma_split_last(style, dir, sep, archive_name());
    assert(parent(style, moved) == Some(dir));
    assert(top.last() == folder.last());
    lemma_split_last(style, top, sep, inner);
    assert(parent(style, dir) == Some(top));
}

} // verus!
