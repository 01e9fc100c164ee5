//! D-Bus object paths.

use vstd::prelude::*;

verus! {

/// May this character stand in an object path?
pub open spec fn is_path_char(c: char) -> bool {
    ||| 'a' <= c <= 'z'
    ||| 'A' <= c <= 'Z'
    ||| '0' <= c <= '9'
    ||| c == '_'
    ||| c == '/'
}

/// Does the text have the form of an object path? It begins with a slash, holds
/// nothing but slashes, ASCII letters, digits and underscores, has no two slashes
/// in a row and, unless it is the root, does not end with one.
pub open spec fn is_object_path(text: Seq<char>) -> bool {
    &&& text.len() > 0
    &&& text[0] == '/'
    &&& text.len() > 1 ==> text.last() != '/'
    &&& forall|i: int| 0 <= i < text.len() ==> is_path_char(#[trigger] text[i])
    &&& forall|i: int, j: int|
        0 <= i && j == i + 1 && j < text.len() ==> !(#[trigger] text[i] == '/' && #[trigger] text[j]
            == '/')
}

/// Whether an object can be addressed by this text.
///
/// Calls `zbus::zvariant::OwnedObjectPath::try_from`, which is taken to succeed
/// on exactly the texts that have the form of an object path.
#[verifier::external_body]
pub(crate) fn addressable(text: &str) -> (valid: bool)
    ensures
        valid == is_object_path(text@),
{
    zbus::zvariant::OwnedObjectPath::try_from(text).is_ok()
}

} // verus!
