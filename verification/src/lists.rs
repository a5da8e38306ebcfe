//! Contact-list and contact creation requests, and the validation of the
//! list type: only `automatic` and `manual` are accepted, case-insensitively,
//! and the canonical lower-case name is what gets persisted.

use vstd::prelude::*;
use crate::strings::{eq_ignore_ascii_case, eq_ignore_ascii_case_spec};

verus! {

/// The body of a contact-list creation request.
#[derive(Clone, Debug)]
pub struct NewContactListRequest {
    pub name: String,
    pub list_type: String,
}

/// The body of a contact creation request.
#[derive(Clone, Debug)]
pub struct NewContactRequest {
    pub first_name: Option<String>,
    pub last_name: Option<String>,
    pub address: Option<String>,
    pub postal_code: Option<String>,
    pub city: Option<String>,
    pub email: String,
    pub custom_fields: Option<String>,
}

/// A list type the store accepts.
#[derive(Clone, Copy, Debug, PartialEq, Eq, Structural)]
pub enum ListType {
    Automatic,
    Manual,
}

impl ListType {
    /// The lower-case name under which the list type is persisted.
    pub fn db_name(&self) -> (r: String)
        ensures
            self is Automatic ==> r@ == "automatic"@,
            self is Manual ==> r@ == "manual"@,
    {
        match self {
            ListType::Automatic => "automatic".to_owned(),
            ListType::Manual => "manual".to_owned(),
        }
    }
}

pub open spec fn is_automatic(lt: Seq<char>) -> bool {
    eq_ignore_ascii_case_spec(lt, "automatic"@)
}

pub open spec fn is_manual(lt: Seq<char>) -> bool {
    eq_ignore_ascii_case_spec(lt, "manual"@)
}

/// Validates the supplied list type: accepts `automatic` and `manual` in
/// any ASCII case and nothing else.
pub fn parse_list_type(list_type: &String) -> (r: Option<ListType>)
    ensures
        match r {
            Some(t) => (t is Automatic && is_automatic(list_type@)) || (t is Manual && is_manual(
                list_type@,
            )),
            None => !is_automatic(list_type@) && !is_manual(list_type@),
        },
{
    if eq_ignore_ascii_case(list_type.as_str(), "automatic") {
        Some(ListType::Automatic)
    } else if eq_ignore_ascii_case(list_type.as_str(), "manual") {
        Some(ListType::Manual)
    } else {
        None
    }
}

} // verus!
