//! The flat description of a token and its validity.

use vstd::prelude::*;
use vstd::string::*;
use crate::error::FactoryError;
use crate::identifier::{is_valid_account_id, is_valid_token_id, valid_account_id, valid_token_id};
use crate::record::opt_text_view;

verus! {

/// A token described by its identifier, owner, supply and precision, with
/// optional texts.
#[derive(Debug, PartialEq, Eq)]
pub struct TokenDescription {
    pub token_id: String,
    pub owner_id: String,
    pub total_supply: u128,
    pub precision: u128,
    pub name: Option<String>,
    pub description: Option<String>,
    pub icon_base64: Option<String>,
}

/// The mathematical content of a `TokenDescription`.
pub struct TokenDescriptionView {
    pub token_id: Seq<char>,
    pub owner_id: Seq<char>,
    pub total_supply: u128,
    pub precision: u128,
    pub name: Option<Seq<char>>,
    pub description: Option<Seq<char>>,
    pub icon_base64: Option<Seq<char>>,
}

impl View for TokenDescription {
    type V = TokenDescriptionView;

    open spec fn view(&self) -> TokenDescriptionView {
        TokenDescriptionView {
            token_id: self.token_id@,
            owner_id: self.owner_id@,
            total_supply: self.total_supply,
            precision: self.precision,
            name: opt_text_view(self.name),
            description: opt_text_view(self.description),
            icon_base64: opt_text_view(self.icon_base64),
        }
    }
}

impl TokenDescriptionView {
    /// The first reason, if any, for which the description is not valid: a
    /// malformed identifier, a malformed owner, a supply of zero, a precision
    /// of zero.
    pub open spec fn validate(self) -> Result<(), FactoryError> {
        if !valid_token_id(self.token_id) {
            Err(FactoryError::InvalidTokenId)
        } else if !valid_account_id(self.owner_id) {
            Err(FactoryError::InvalidOwnerId)
        } else if self.total_supply == 0 {
            Err(FactoryError::ZeroSupply)
        } else if self.precision == 0 {
            Err(FactoryError::ZeroPrecision)
        } else {
            Ok(())
        }
    }
}

impl TokenDescription {
    /// Checks the description, and says what is wrong with it if anything is.
    pub fn assert_valid(&self) -> (checked: Result<(), FactoryError>)
        ensures
            checked == self@.validate(),
    {
        if !is_valid_token_id(&self.token_id) {
            return Err(FactoryError::InvalidTokenId);
        }
        if !is_valid_account_id(self.owner_id.as_str()) {
            return Err(FactoryError::InvalidOwnerId);
        }
        if self.total_supply == 0 {
            return Err(FactoryError::ZeroSupply);
        }
        if self.precision == 0 {
            return Err(FactoryError::ZeroPrecision);
        }
        Ok(())
    }
}

fn clone_opt_text(text: &Option<String>) -> (copy: Option<String>)
    ensures
        opt_text_view(copy) == opt_text_view(*text),
{
    match text {
        Some(s) => Some(s.clone()),
        None => None,
    }
}

impl Clone for TokenDescription {
    fn clone(&self) -> (copy: Self)
        ensures
            copy@ == self@,
    {
        TokenDescription {
            token_id: self.token_id.clone(),
            owner_id: self.owner_id.clone(),
            total_supply: self.total_supply,
            precision: self.precision,
            name: clone_opt_text(&self.name),
            description: clone_opt_text(&self.description),
            icon_base64: clone_opt_text(&self.icon_base64),
        }
    }
}

} // verus!
