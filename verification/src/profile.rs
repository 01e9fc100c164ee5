//! Turning what openvpn3 stores into something worth putting in a menu.

use crate::text::{
    after_last_slash, base_name, file_stem, has_slash, is_white, last_segment,
    law_a_file_is_named_by_its_stem, law_blank_text_trims_to_nothing, lemma_last_segment,
    lemma_segment_behind_slash, lemma_stem_of, stem_of, trim, trimmed,
};
use vstd::prelude::*;
use vstd::string::*;

verus! {

/// The label of a profile whose name cannot be read.
pub open spec fn fallback_text(config_path: Seq<char>) -> Seq<char> {
    let id = last_segment(config_path);
    if id.len() == 0 {
        "Unnamed profile"@
    } else {
        "Profile "@ + id
    }
}

/// The label of a profile: its name, or the stem of the file that the name leads
/// to when it reads as a path, or a label made from the object path when the name
/// is blank.
pub open spec fn display_text(raw_name: Seq<char>, config_path: Seq<char>) -> Seq<char> {
    let name = trimmed(raw_name);
    if name.len() == 0 {
        fallback_text(config_path)
    } else if name.contains('/') && stem_of(name) is Some {
        stem_of(name)->0
    } else {
        name
    }
}

/// A menu-ready label for a profile.
///
/// Two things make the raw name unsuitable on its own.
///
/// `openvpn3 config-import` names a profile after the file it came from unless
/// `--name` is passed, and that is usually an absolute path, so a profile can
/// legitimately be called `/home/you/Downloads/work.ovpn`. Showing the stem is
/// what the user meant by the name.
///
/// And when the name cannot be read at all, the fallback must not be the D-Bus
/// object path: `/net/openvpn/v3/configuration/a1b2c3` in a menu is noise, not
/// information.
pub fn display_name(raw_name: &str, config_path: &str) -> (label: String)
    ensures
        label@ == display_text(raw_name@, config_path@),
{
    let name = trim(raw_name);
    if name.is_empty() {
        return fallback_label(config_path);
    }
    // Path-shaped names come from a CLI import; show what the user would call it.
    if has_slash(name) {
        if let Some(stem) = file_stem(name) {
            return stem.to_owned();
        }
    }
    name.to_owned()
}

/// Last segment of the object path, so an unreadable profile is still
/// distinguishable from its neighbours without dumping the whole path.
pub fn fallback_label(config_path: &str) -> (label: String)
    ensures
        label@ == fallback_text(config_path@),
{
    let id = after_last_slash(config_path);
    if id.is_empty() {
        "Unnamed profile".to_owned()
    } else {
        let mut label = "Profile ".to_owned();
        label.append(id);
        label
    }
}

/// A menu row is never blank.
pub proof fn law_labels_are_never_blank(raw_name: Seq<char>, config_path: Seq<char>)
    ensures
        display_text(raw_name, config_path).len() > 0,
{
    reveal_strlit("Unnamed profile");
    reveal_strlit("Profile ");
    lemma_stem_of(trimmed(raw_name));
}

/// The label of a profile without a readable name never shows an object path:
/// nothing in it is a slash.
pub proof fn law_fallback_hides_the_object_path(raw_name: Seq<char>, config_path: Seq<char>)
    requires
        trimmed(raw_name).len() == 0,
    ensures
        !display_text(raw_name, config_path).contains('/'),
{
    reveal_strlit("Unnamed profile");
    reveal_strlit("Profile ");
    lemma_last_segment(config_path);
    let id = last_segment(config_path);
    let label = display_text(raw_name, config_path);
    if id.len() > 0 {
        assert forall|i: int| 0 <= i < label.len() implies label[i] != '/' by {
            if i >= 8 {
                assert(label[i] == id[i - 8]);
            }
        }
    }
}

/// Two unreadable profiles with different ids get different labels, or the menu
/// would offer two identical rows that do different things.
pub proof fn law_fallback_labels_stay_distinct(
    raw_a: Seq<char>,
    path_a: Seq<char>,
    raw_b: Seq<char>,
    path_b: Seq<char>,
)
    requires
        trimmed(raw_a).len() == 0,
        trimmed(raw_b).len() == 0,
        last_segment(path_a) != last_segment(path_b),
    ensures
        display_text(raw_a, path_a) != display_text(raw_b, path_b),
{
    reveal_strlit("Unnamed profile");
    reveal_strlit("Profile ");
    let a = last_segment(path_a);
    let b = last_segment(path_b);
    let label_a = fallback_text(path_a);
    let label_b = fallback_text(path_b);
    if label_a == label_b {
        if a.len() > 0 && b.len() > 0 {
            assert(a == label_a.skip(8));
            assert(b == label_b.skip(8));
        } else if a.len() > 0 {
            assert(label_a[0] == 'P' && label_b[0] == 'U');
        } else {
            assert(label_a[0] == 'U' && label_b[0] == 'P');
        }
    }
}

/// A path-shaped name that leads to a file shows as that file's name without its
/// extension and without any directory.
pub proof fn law_path_names_show_their_stem(raw_name: Seq<char>, config_path: Seq<char>)
    requires
        trimmed(raw_name).contains('/'),
        base_name(trimmed(raw_name)) is Some,
    ensures
        Some(display_text(raw_name, config_path)) == stem_of(trimmed(raw_name)),
        !display_text(raw_name, config_path).contains('/'),
{
    lemma_stem_of(trimmed(raw_name));
}

/// A plain name is shown as it is, but for the white space around it.
pub proof fn law_plain_names_are_shown(raw_name: Seq<char>, config_path: Seq<char>)
    requires
        trimmed(raw_name).len() > 0,
        !trimmed(raw_name).contains('/'),
    ensures
        display_text(raw_name, config_path) == trimmed(raw_name),
{
}

/// A name that reads as a path and leads to nothing is shown as it is.
pub proof fn law_paths_to_nothing_are_shown(raw_name: Seq<char>, config_path: Seq<char>)
    requires
        trimmed(raw_name).len() > 0,
        base_name(trimmed(raw_name)) is None,
    ensures
        display_text(raw_name, config_path) == trimmed(raw_name),
{
}

/// The name of a file with an extension, with directories before it, shows as the part
/// before the extension.
pub proof fn law_imported_files_show_their_stem(
    raw_name: Seq<char>,
    config_path: Seq<char>,
    directories: Seq<char>,
    stem: Seq<char>,
    extension: Seq<char>,
)
    requires
        trimmed(raw_name) == directories + seq!['/'] + stem + seq!['.'] + extension,
        stem.len() > 0,
        !stem.contains('/'),
        !extension.contains('/'),
        !extension.contains('.'),
        stem != seq!['.'],
    ensures
        display_text(raw_name, config_path) == stem,
{
    law_a_file_is_named_by_its_stem(trimmed(raw_name), directories, stem, extension);
    assert(trimmed(raw_name)[directories.len() as int] == '/');
}

/// A profile without a readable name is labelled with the id at the end of its object
/// path.
pub proof fn law_unreadable_profiles_show_their_id(
    raw_name: Seq<char>,
    parent: Seq<char>,
    id: Seq<char>,
)
    requires
        forall|i: int| 0 <= i < raw_name.len() ==> is_white(#[trigger] raw_name[i]),
        !id.contains('/'),
    ensures
        id.len() > 0 ==> display_text(raw_name, parent + seq!['/'] + id) == "Profile "@ + id,
        id.len() == 0 ==> display_text(raw_name, parent + seq!['/'] + id) == "Unnamed profile"@,
{
    law_blank_text_trims_to_nothing(raw_name);
    lemma_segment_behind_slash(parent, id);
}

} // verus!
