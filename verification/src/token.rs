//! Token material and the issuer that hands it out.

use vstd::prelude::*;
use vstd::string::*;
use crate::text::text_of_owned;

verus! {

/// What the token issuer hands out for one request. It belongs to the
/// dispatch that asked for it.
#[derive(Debug)]
pub struct IssuedTokenMaterial {
    pub access_token: String,
    pub refresh_token: Option<String>,
}

/// Token material as plain values.
pub struct IssuedTokenMaterialView {
    pub access_token: Seq<char>,
    pub refresh_token: Option<Seq<char>>,
}

impl View for IssuedTokenMaterial {
    type V = IssuedTokenMaterialView;

    open spec fn view(&self) -> IssuedTokenMaterialView {
        IssuedTokenMaterialView {
            access_token: self.access_token@,
            refresh_token: text_of_owned(self.refresh_token),
        }
    }
}

/// The material of the placeholder issuer: a fixed access token and no
/// refresh token, whatever scope is asked for.
pub open spec fn placeholder_material() -> IssuedTokenMaterialView {
    IssuedTokenMaterialView { access_token: "access_token"@, refresh_token: None }
}

/// The placeholder issuer. The scope is a hint that it does not use.
pub fn issue_token(_scope: Option<&str>) -> (material: IssuedTokenMaterial)
    ensures
        material@ == placeholder_material(),
{
    IssuedTokenMaterial { access_token: String::from_str("access_token"), refresh_token: None }
}

} // verus!
