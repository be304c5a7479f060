//! Object paths of the message bus.
use vstd::prelude::*;

verus! {

#[verifier::external_type_specification]
#[verifier::external_body]
pub struct ExPathError(zbus::zvariant::Error);

/// A character that may stand in an object path: an ASCII letter or digit,
/// `_`, or the separator `/`.
pub open spec fn is_path_char(c: char) -> bool {
    ('a' <= c && c <= 'z') || ('A' <= c && c <= 'Z') || ('0' <= c && c <= '9') || c == '_'
        || c == '/'
}

/// A well-formed object path: it starts with `/`, holds only path characters,
/// has no empty element (`//`) and, unless it is the root `/`, no trailing `/`.
pub open spec fn is_object_path(s: Seq<char>) -> bool {
    &&& s.len() > 0
    &&& s[0] == '/'
    &&& forall|i: int| 0 <= i < s.len() ==> #[trigger] is_path_char(s[i])
    &&& forall|i: int| 1 <= i < s.len() ==> !(#[trigger] s[i] == '/' && s[i - 1] == '/')
    &&& s.len() > 1 ==> s[s.len() - 1] != '/'
}

/// The root path `/`, which the service returns where it means "no object".
pub open spec fn is_root_path(s: Seq<char>) -> bool {
    s =~= seq!['/']
}

/// Relies on zvariant's `ObjectPath::try_from(&str)`: it accepts exactly the
/// strings that are well-formed object paths.
#[verifier::external_body]
fn parse_object_path(s: &str) -> (r: Result<(), zbus::zvariant::Error>)
    ensures
        r is Ok <==> is_object_path(s@),
{
    zbus::zvariant::ObjectPath::try_from(s).map(|_| ())
}

/// Whether `s` is a well-formed object path.
pub fn is_valid_object_path(s: &str) -> (r: bool)
    ensures
        r == is_object_path(s@),
{
    parse_object_path(s).is_ok()
}

/// Whether `s` is the root path `/`.
pub fn is_root(s: &str) -> (r: bool)
    ensures
        r == is_root_path(s@),
{
    let n: usize = s.unicode_len();
    if n != 1 {
        return false;
    }
    s.get_char(0) == '/'
}

} // verus!
