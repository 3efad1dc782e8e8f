//! Addresses under which a callback endpoint is reachable on the bus.

use vstd::prelude::*;
use zbus::zvariant::OwnedObjectPath;

verus! {

/// zvariant's `Error`, declared so that it can be handed through. Nothing of
/// its content is read here.
#[verifier::external_type_specification]
#[verifier::external_body]
pub struct ExVariantError(zbus::zvariant::Error);

/// Whether `c` may stand inside an element of an object path: an ASCII
/// letter, an ASCII digit or an underscore.
pub open spec fn is_element_char(c: char) -> bool {
    ||| 'a' <= c <= 'z'
    ||| 'A' <= c <= 'Z'
    ||| '0' <= c <= '9'
    ||| c == '_'
}

/// The grammar of bus object paths: the text is not empty and starts with a
/// slash; it holds nothing but slashes and element characters; no two slashes
/// are adjacent; and only the root path `/` ends with a slash.
pub open spec fn is_object_path(text: Seq<char>) -> bool {
    &&& text.len() >= 1
    &&& text[0] == '/'
    &&& text.len() > 1 ==> text.last() != '/'
    &&& forall|i: int|
        0 <= i < text.len() ==> #[trigger] is_element_char(text[i]) || text[i] == '/'
    &&& forall|i: int| 0 < i < text.len() && #[trigger] text[i] == '/' ==> text[i - 1] != '/'
}

/// The text that could not be taken as an address.
#[derive(Debug)]
pub enum AddressError {
    /// The text does not follow the grammar of object paths.
    NotAnObjectPath,
}

/// The address of a callback endpoint: a text that the transport accepts as an
/// object path.
#[derive(Debug)]
pub struct CallbackAddress {
    text: String,
}

impl View for CallbackAddress {
    type V = Seq<char>;

    closed spec fn view(&self) -> Seq<char> {
        self.text@
    }
}

/// Hands `text` to zvariant's `OwnedObjectPath::try_from(String)` and gives
/// back the text of the path that it built.
///
/// The contract is taken on trust, not proved: zvariant accepts exactly the
/// texts that follow the grammar of object paths, and keeps an accepted text
/// as it is.
#[verifier::external_body]
fn checked_object_path(text: String) -> (checked: Result<String, zbus::zvariant::Error>)
    ensures
        checked is Ok <==> is_object_path(text@),
        checked matches Ok(path) ==> path@ == text@,
{
    match OwnedObjectPath::try_from(text) {
        Ok(path) => Ok(path.as_str().to_owned()),
        Err(error) => Err(error),
    }
}

impl CallbackAddress {
    #[verifier::type_invariant]
    spec fn well_formed(self) -> bool {
        is_object_path(self.text@)
    }

    /// Takes `text` as an address if it is an object path.
    pub fn parse(text: String) -> (parsed: Result<CallbackAddress, AddressError>)
        ensures
            parsed is Ok <==> is_object_path(text@),
            parsed matches Ok(address) ==> address@ == text@,
    {
        match checked_object_path(text) {
            Ok(path) => Ok(CallbackAddress { text: path }),
            Err(_) => Err(AddressError::NotAnObjectPath),
        }
    }

    /// The address as text.
    pub fn as_str(&self) -> (text: &str)
        ensures
            text@ == self@,
            is_object_path(text@),
    {
        proof {
            use_type_invariant(self);
        }
        self.text.as_str()
    }
}

impl Clone for CallbackAddress {
    fn clone(&self) -> (copy: Self)
        ensures
            copy@ == self@,
    {
        proof {
            use_type_invariant(self);
        }
        CallbackAddress { text: self.text.clone() }
    }
}

} // verus!
