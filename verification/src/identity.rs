use vstd::prelude::*;
use vstd::string::StringExecFns;

use crate::errors::Error;
use crate::text::{decimal_of, decimal_string};

verus! {

/// A valid optional-identifier list holds exactly zero or one element.
pub open spec fn ident_ok(l: Seq<String>) -> bool {
    l.len() <= 1
}

/// The engine-facing binding of a resolved optional identifier: the UTF-8
/// bytes of its single element, or nothing where the list is empty.
pub open spec fn resolved_ident(l: Seq<String>) -> Option<Seq<u8>> {
    if l.len() == 0 {
        None
    } else {
        Some(vstd::utf8::encode_utf8(l[0]@))
    }
}

/// The message reported for an identifier list of invalid length.
pub open spec fn bad_len_message(n: int) -> Seq<char> {
    "invalid number of values, expected exactly 0 or 1 but received "@ + decimal_of(n)
}

/// Resolves a 0-or-1-element identifier list to its optional value. Any
/// other length is an input error, reported before any engine work.
pub fn get_optional_string(ident: Vec<String>) -> (r: Result<Option<String>, Error>)
    ensures
        ident@.len() == 0 ==> (r matches Ok(o) && o is None),
        ident@.len() == 1 ==> (r matches Ok(o) && o matches Some(s) && s@ == ident@[0]@),
        ident@.len() >= 2 ==> (r matches Err(e) && e matches Error::Input { message }
            && message@ == bad_len_message(ident@.len() as int)),
{
    if ident.len() == 0 {
        Ok(None)
    } else if ident.len() == 1 {
        Ok(Some(ident[0].clone()))
    } else {
        let mut message = String::from_str(
            "invalid number of values, expected exactly 0 or 1 but received ",
        );
        let count = decimal_string(ident.len());
        message.append(count.as_str());
        Err(Error::Input { message })
    }
}

} // verus!
