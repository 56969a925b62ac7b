//! Stateless helpers: path normalisation, default file locations and
//! keyboard-shortcut labels.

use vstd::prelude::*;
use vstd::string::*;
use crate::paths::{is_absolute, is_relative, join_path, joined_path};
use crate::target::BuildTarget;
use crate::text::{begins_with, chars_of, text_from};
use crate::user_dirs::config_dir;

verus! {

/// A character with the backslash turned into a forward slash.
pub open spec fn unified_separator(c: char) -> char {
    if c == '\\' {
        '/'
    } else {
        c
    }
}

/// `s` with every backslash turned into a forward slash.
pub open spec fn unified_separators(s: Seq<char>) -> Seq<char> {
    s.map_values(|c: char| unified_separator(c))
}

/// One left-to-right pass over `s` in which each pair of adjacent forward
/// slashes, taken without overlap, becomes a single slash. A run of three
/// slashes therefore leaves two.
pub open spec fn collapsed_slash_pairs(s: Seq<char>) -> Seq<char>
    decreases s.len(),
{
    if s.len() == 0 {
        s
    } else if s.len() >= 2 && s[0] == '/' && s[1] == '/' {
        seq!['/'] + collapsed_slash_pairs(s.skip(2))
    } else {
        seq![s[0]] + collapsed_slash_pairs(s.skip(1))
    }
}

/// The normal form of a path: separators unified, then one pass of
/// slash-pair collapsing.
pub open spec fn normalized_path(path: Seq<char>) -> Seq<char> {
    collapsed_slash_pairs(unified_separators(path))
}

/// The line terminator of a build target.
pub open spec fn line_ending_of(target: BuildTarget) -> Seq<char> {
    if target == BuildTarget::Windows {
        "\r\n"@
    } else {
        "\n"@
    }
}

/// The path separator of a build target.
pub open spec fn path_separator_of(target: BuildTarget) -> char {
    if target == BuildTarget::Windows {
        '\\'
    } else {
        '/'
    }
}

/// The name of the shortcut modifier key of a build target.
pub open spec fn modifier_key_of(target: BuildTarget) -> Seq<char> {
    if target == BuildTarget::MacOs {
        "Cmd"@
    } else {
        "Ctrl"@
    }
}

/// The label of the shortcut bound to `action` on a build target; empty for
/// an action that has no shortcut.
pub open spec fn shortcut_description_of(target: BuildTarget, action: Seq<char>) -> Seq<char> {
    if action == "new"@ {
        modifier_key_of(target) + " + N"@
    } else if action == "save"@ {
        modifier_key_of(target) + " + S"@
    } else if action == "search"@ {
        modifier_key_of(target) + " + F"@
    } else if action == "quit"@ {
        if target == BuildTarget::MacOs {
            modifier_key_of(target) + " + Q"@
        } else {
            "Alt + F4"@
        }
    } else {
        Seq::empty()
    }
}

/// Where the database file lives below a given config directory.
pub open spec fn db_path_under(config_dir: Seq<char>) -> Seq<char> {
    joined_path(joined_path(config_dir, "prompt-tools"@), "database.db"@)
}

/// Whether `action` is one of the four actions that have a shortcut.
pub open spec fn has_shortcut(action: Seq<char>) -> bool {
    action == "new"@ || action == "save"@ || action == "search"@ || action == "quit"@
}

/// Whether `s` holds two forward slashes side by side.
pub open spec fn has_slash_pair(s: Seq<char>) -> bool {
    exists|i: int| 0 <= i && i + 1 < s.len() && #[trigger] s[i] == '/' && s[i + 1] == '/'
}

/// Collapsing never lengthens a sequence, and every character of the
/// outcome is a forward slash or a character of the input.
pub proof fn lemma_collapsed_slash_pairs_bounds(s: Seq<char>)
    ensures
        collapsed_slash_pairs(s).len() <= s.len(),
        forall|j: int|
            0 <= j < collapsed_slash_pairs(s).len() ==> #[trigger] collapsed_slash_pairs(s)[j]
                == '/' || s.contains(collapsed_slash_pairs(s)[j]),
    decreases s.len(),
{
    if s.len() == 0 {
    } else {
        let rest = if s.len() >= 2 && s[0] == '/' && s[1] == '/' {
            s.skip(2)
        } else {
            s.skip(1)
        };
        let head = if s.len() >= 2 && s[0] == '/' && s[1] == '/' {
            '/'
        } else {
            s[0]
        };
        lemma_collapsed_slash_pairs_bounds(rest);
        let tail = collapsed_slash_pairs(rest);
        assert(collapsed_slash_pairs(s) == seq![head] + tail);
        assert forall|j: int| 0 <= j < collapsed_slash_pairs(s).len() implies #[trigger]
            collapsed_slash_pairs(s)[j] == '/' || s.contains(collapsed_slash_pairs(s)[j]) by {
            if j == 0 {
                assert(collapsed_slash_pairs(s)[0] == head);
                assert(s[0] == head);
            } else {
                let c = tail[j - 1];
                assert(collapsed_slash_pairs(s)[j] == c);
                if c != '/' {
                    assert(rest.contains(c));
                    let k = choose|k: int| 0 <= k < rest.len() && rest[k] == c;
                    assert(s[k + (s.len() - rest.len())] == c);
                }
            }
        }
    }
}

/// A normalised path is never longer than the path it came from, and it
/// holds no backslash.
pub proof fn lemma_normalized_path_bounds(path: Seq<char>)
    ensures
        normalized_path(path).len() <= path.len(),
        !normalized_path(path).contains('\\'),
{
    let unified = unified_separators(path);
    lemma_collapsed_slash_pairs_bounds(unified);
    if normalized_path(path).contains('\\') {
        let j = choose|j: int|
            0 <= j < normalized_path(path).len() && normalized_path(path)[j] == '\\';
        assert(collapsed_slash_pairs(unified)[j] == '\\');
        assert(unified.contains('\\'));
        let k = choose|k: int| 0 <= k < unified.len() && unified[k] == '\\';
        assert(unified[k] == unified_separator(path[k]));
    }
}

/// A path without a backslash and without two slashes side by side is
/// its own normal form.
pub proof fn lemma_clean_path_is_normal(path: Seq<char>)
    requires
        !path.contains('\\'),
        !has_slash_pair(path),
    ensures
        normalized_path(path) == path,
{
    assert forall|i: int| 0 <= i < path.len() implies unified_separator(#[trigger] path[i])
        == path[i] by {
        assert(path.contains(path[i]));
    }
    assert(unified_separators(path) =~= path);
    lemma_collapse_without_pairs(path);
}

/// Collapsing leaves a sequence without slash pairs as it is.
proof fn lemma_collapse_without_pairs(s: Seq<char>)
    requires
        !has_slash_pair(s),
    ensures
        collapsed_slash_pairs(s) == s,
    decreases s.len(),
{
    if s.len() > 0 {
        if s.len() >= 2 && s[0] == '/' && s[1] == '/' {
            let first: int = 0;
            assert(s[first] == '/' && s[first + 1] == '/');
            assert(has_slash_pair(s));
        }
        let rest = s.skip(1);
        if has_slash_pair(rest) {
            let i = choose|i: int|
                0 <= i && i + 1 < rest.len() && #[trigger] rest[i] == '/' && rest[i + 1] == '/';
            assert(s[i + 1] == '/' && s[i + 1 + 1] == '/');
            assert(has_slash_pair(s));
        }
        lemma_collapse_without_pairs(rest);
        assert(seq![s[0]] + rest =~= s);
    }
}

/// Normalising is a single pass and not a closure: a run of three slashes
/// comes out as two, and only a second pass brings it down to one.
pub proof fn lemma_normalize_not_idempotent()
    ensures
        normalized_path(seq!['/', '/', '/']) == seq!['/', '/'],
        normalized_path(seq!['/', '/']) == seq!['/'],
        exists|path: Seq<char>| normalized_path(#[trigger] normalized_path(path)) != normalized_path(path),
{
    let three = seq!['/', '/', '/'];
    let two = seq!['/', '/'];
    let one = seq!['/'];
    let none = Seq::<char>::empty();
    assert(unified_separators(three) =~= three);
    assert(unified_separators(two) =~= two);
    assert(collapsed_slash_pairs(none) == none);
    assert(one.skip(1) =~= none);
    assert(collapsed_slash_pairs(one) =~= one);
    assert(two.skip(2) =~= none);
    assert(collapsed_slash_pairs(two) =~= one);
    assert(three.skip(2) =~= one);
    assert(collapsed_slash_pairs(three) =~= two);
    assert(two.len() != one.len());
    assert(normalized_path(normalized_path(three)) != normalized_path(three));
}

/// The modifier key is `Cmd` on macOS and on no other target.
pub proof fn lemma_modifier_is_cmd_iff_macos(target: BuildTarget)
    ensures
        (modifier_key_of(target) == "Cmd"@) == (target == BuildTarget::MacOs),
{
    reveal_strlit("Cmd");
    reveal_strlit("Ctrl");
    assert("Cmd"@.len() != "Ctrl"@.len());
}

/// An action has a non-empty label exactly when it is one of the four
/// actions with a shortcut; every other action name, on every build target,
/// has the empty label.
pub proof fn lemma_label_empty_iff_no_shortcut(target: BuildTarget, action: Seq<char>)
    ensures
        (shortcut_description_of(target, action).len() == 0) == !has_shortcut(action),
{
    reveal_strlit(" + N");
    reveal_strlit(" + S");
    reveal_strlit(" + F");
    reveal_strlit(" + Q");
    reveal_strlit("Alt + F4");
    assert(" + N"@.len() == 4);
    assert(" + S"@.len() == 4);
    assert(" + F"@.len() == 4);
    assert(" + Q"@.len() == 4);
    assert("Alt + F4"@.len() == 8);
}

/// Off macOS the label for quitting is `Alt + F4` whatever the modifier
/// key is.
pub proof fn lemma_quit_label_off_macos(target: BuildTarget)
    requires
        target != BuildTarget::MacOs,
    ensures
        shortcut_description_of(target, "quit"@) == "Alt + F4"@,
{
    reveal_strlit("quit");
    reveal_strlit("new");
    reveal_strlit("save");
    reveal_strlit("search");
    assert("quit"@.len() != "new"@.len());
    assert("quit"@.len() != "search"@.len());
    assert("quit"@[0] != "save"@[0]);
}

/// A file name as it is placed below a directory: without the separators,
/// of either kind, that it begins with.
pub open spec fn relative_name(filename: Seq<char>) -> Seq<char>
    decreases filename.len(),
{
    if filename.len() > 0 && (filename[0] == '/' || filename[0] == '\\') {
        relative_name(filename.skip(1))
    } else {
        filename
    }
}

/// Where a file of the given name lives below a directory. The name, taken
/// relative, is joined to the directory by the path grammar of the build;
/// should that grammar let the name displace the directory all the same, the
/// name is written after the directory and a forward slash instead.
pub open spec fn export_path_under(dir: Seq<char>, filename: Seq<char>) -> Seq<char> {
    let name = relative_name(filename);
    let joined = joined_path(dir, name);
    if dir.is_prefix_of(joined) {
        joined
    } else {
        dir + seq!['/'] + name
    }
}

/// An export path always begins with the directory it was asked for,
/// whatever the file name is.
pub proof fn lemma_export_path_stays_in_dir(dir: Seq<char>, filename: Seq<char>)
    ensures
        dir.is_prefix_of(export_path_under(dir, filename)),
{
    let name = relative_name(filename);
    if !dir.is_prefix_of(joined_path(dir, name)) {
        assert((dir + seq!['/'] + name).subrange(0, dir.len() as int) =~= dir);
    }
}

/// A relative name is empty or begins with a character that is no
/// separator.
pub proof fn lemma_relative_name_has_no_leading_separator(filename: Seq<char>)
    ensures
        relative_name(filename).len() > 0 ==> relative_name(filename)[0] != '/' && relative_name(
            filename,
        )[0] != '\\',
    decreases filename.len(),
{
    if filename.len() > 0 && (filename[0] == '/' || filename[0] == '\\') {
        lemma_relative_name_has_no_leading_separator(filename.skip(1));
    }
}

/// Stateless, build-target-keyed helpers.
pub struct PlatformUtils;

impl PlatformUtils {
    /// The line terminator of the build target: CR LF on Windows, LF
    /// elsewhere.
    pub fn line_ending(target: BuildTarget) -> (ending: &'static str)
        ensures
            ending@ == line_ending_of(target),
    {
        match target {
            BuildTarget::Windows => "\r\n",
            _ => "\n",
        }
    }

    /// The native path separator of the build target.
    pub fn path_separator(target: BuildTarget) -> (separator: char)
        ensures
            separator == path_separator_of(target),
    {
        match target {
            BuildTarget::Windows => '\\',
            _ => '/',
        }
    }

    /// Turns every backslash into a forward slash, then collapses slash
    /// pairs in a single pass.
    pub fn normalize_path(path: &str) -> (normal: String)
        ensures
            normal@ == normalized_path(path@),
    {
        let chars = chars_of(path);
        let n: usize = chars.len();
        let ghost unified = unified_separators(path@);
        let mut normal = String::new();
        let mut i: usize = 0;
        assert(unified.skip(0) == unified);
        while i < n
            invariant
                i <= n,
                n == chars@.len(),
                chars@ == path@,
                unified == unified_separators(path@),
                normal@ + collapsed_slash_pairs(unified.skip(i as int)) == collapsed_slash_pairs(
                    unified,
                ),
            decreases n - i,
        {
            let ghost rest = unified.skip(i as int);
            let ghost before = normal@;
            let c = Self::unify_separator(chars[i]);
            if c == '/' && i + 1 < n && Self::unify_separator(chars[i + 1]) == '/' {
                assert(rest[1] == '/');
                assert(rest.skip(2) == unified.skip(i + 2));
                normal.push('/');
                i += 2;
            } else {
                assert(rest.len() >= 2 ==> rest[1] == unified[i + 1]);
                assert(rest.skip(1) == unified.skip(i + 1));
                normal.push(c);
                i += 1;
            }
            assert(collapsed_slash_pairs(rest) == seq![c] + collapsed_slash_pairs(
                unified.skip(i as int),
            ));
            assert(normal@ + collapsed_slash_pairs(unified.skip(i as int)) =~= before
                + collapsed_slash_pairs(rest));
        }
        assert(normal@ + collapsed_slash_pairs(unified.skip(n as int)) =~= normal@);
        normal
    }

    /// A backslash becomes a forward slash; any other character stays.
    fn unify_separator(c: char) -> (unified: char)
        ensures
            unified == unified_separator(c),
    {
        if c == '\\' {
            '/'
        } else {
            c
        }
    }

    /// The database path below `config_dir`: the application folder, then
    /// the database file. Absent exactly when the directory is absent.
    pub fn db_path_in(config_dir: Option<String>) -> (path: Option<String>)
        ensures
            match config_dir {
                Some(dir) => path matches Some(p) && p@ == db_path_under(dir@),
                None => path is None,
            },
    {
        match config_dir {
            Some(dir) => {
                let folder = join_path(dir.as_str(), "prompt-tools");
                Some(join_path(folder.as_str(), "database.db"))
            },
            None => None,
        }
    }

    /// The default database path: [`Self::db_path_in`] applied to the
    /// user's config directory as the system resolves it at the time of the
    /// call. Absent when that directory cannot be resolved.
    pub fn get_default_db_path() -> (path: Option<String>)
        ensures
            path matches Some(p) ==> exists|dir: Seq<char>| #[trigger] db_path_under(dir) == p@,
    {
        Self::db_path_in(config_dir())
    }

    /// `filename` without the separators, of either kind, that it begins
    /// with.
    pub fn relative_file_name(filename: &str) -> (name: String)
        ensures
            name@ == relative_name(filename@),
    {
        let chars = chars_of(filename);
        let n: usize = chars.len();
        let mut start: usize = 0;
        assert(chars@.skip(0) == chars@);
        while start < n && (chars[start] == '/' || chars[start] == '\\')
            invariant
                start <= n,
                n == chars@.len(),
                relative_name(chars@.skip(start as int)) == relative_name(chars@),
            decreases n - start,
        {
            assert(chars@.skip(start as int).skip(1) == chars@.skip(start + 1));
            start += 1;
        }
        text_from(&chars, start)
    }

    /// `filename` placed below `documents_dir`. Absent exactly when the
    /// directory is absent. The name is appended, never substituted: a name
    /// that begins with separators is taken relative to the directory, and
    /// the result always begins with the directory.
    pub fn export_path_in(documents_dir: Option<String>, filename: &str) -> (path: Option<String>)
        ensures
            match documents_dir {
                Some(dir) => path matches Some(p) && p@ == export_path_under(dir@, filename@)
                    && dir@.is_prefix_of(p@),
                None => path is None,
            },
    {
        match documents_dir {
            Some(dir) => {
                proof {
                    lemma_export_path_stays_in_dir(dir@, filename@);
                }
                let name = Self::relative_file_name(filename);
                let joined = join_path(dir.as_str(), name.as_str());
                if begins_with(joined.as_str(), dir.as_str()) {
                    Some(joined)
                } else {
                    let mut placed = dir;
                    placed.push('/');
                    placed.append(name.as_str());
                    assert(placed@ =~= dir@ + seq!['/'] + name@);
                    Some(placed)
                }
            },
            None => None,
        }
    }

    /// Whether `path` is an absolute or a relative path. Every path is one
    /// or the other, so the answer is always yes.
    pub fn is_valid_path(path: &str) -> (valid: bool)
        ensures
            valid,
    {
        is_absolute(path) || is_relative(path)
    }

    /// The name of the shortcut modifier key of the build target: `Cmd` on
    /// macOS, `Ctrl` elsewhere.
    pub fn get_modifier_key(target: BuildTarget) -> (key: &'static str)
        ensures
            key@ == modifier_key_of(target),
            (key@ == "Cmd"@) == (target == BuildTarget::MacOs),
    {
        proof {
            lemma_modifier_is_cmd_iff_macos(target);
        }
        match target {
            BuildTarget::MacOs => "Cmd",
            _ => "Ctrl",
        }
    }

    /// The label of the shortcut bound to `action`. Quitting is the one
    /// action whose label does not use the modifier key off macOS. An
    /// unknown action has the empty label.
    pub fn get_shortcut_description(target: BuildTarget, action: &str) -> (label: String)
        ensures
            label@ == shortcut_description_of(target, action@),
    {
        let modifier = String::from_str(Self::get_modifier_key(target));
        if action.eq("new") {
            modifier.concat(" + N")
        } else if action.eq("save") {
            modifier.concat(" + S")
        } else if action.eq("search") {
            modifier.concat(" + F")
        } else if action.eq("quit") {
            match target {
                BuildTarget::MacOs => modifier.concat(" + Q"),
                _ => String::from_str("Alt + F4"),
            }
        } else {
            String::new()
        }
    }
}

} // verus!
