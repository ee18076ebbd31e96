//! Bus object paths: what makes a text one, and the check that zbus makes.
use vstd::prelude::*;
use zbus::OwnedObjectPath;

verus! {

/// Whether `c` may stand in an element of an object path: an ASCII letter,
/// an ASCII digit or an underscore.
pub open spec fn is_element_char(c: char) -> bool {
    ('a' <= c && c <= 'z') || ('A' <= c && c <= 'Z') || ('0' <= c && c <= '9') || c == '_'
}

/// Whether `text` is a bus object path: it starts with a slash, holds only
/// slashes and element characters, no two slashes follow each other, and
/// only the root path `/` ends with a slash.
pub open spec fn is_object_path(text: Seq<char>) -> bool {
    &&& text.len() >= 1
    &&& text[0] == '/'
    &&& forall|i: int| 0 <= i < text.len() ==> #[trigger] text[i] == '/' || is_element_char(text[i])
    &&& forall|i: int|
        0 <= i < text.len() - 1 ==> !(#[trigger] text[i] == '/' && text[i + 1] == '/')
    &&& (text.len() > 1 ==> text[text.len() - 1] != '/')
}

/// The text with which zbus describes its refusal of an object path.
pub open spec fn object_path_refusal() -> Seq<char> {
    "Invalid object path"@
}

/// Asks zbus whether `text` is an object path, through
/// `OwnedObjectPath::try_from`. zbus accepts exactly the texts of
/// [`is_object_path`]; it refuses every other one with its error
/// `InvalidObjectPath`, whose description is handed back.
#[verifier::external_body]
pub(crate) fn check_object_path(text: &str) -> (checked: Result<(), String>)
    ensures
        checked is Ok <==> is_object_path(text@),
        checked is Err ==> checked->Err_0@ == object_path_refusal(),
{
    match OwnedObjectPath::try_from(text) {
        Ok(_) => Ok(()),
        Err(error) => Err(error.to_string()),
    }
}

} // verus!
