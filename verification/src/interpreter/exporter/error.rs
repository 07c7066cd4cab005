//! What the module resolver rejects.

use vstd::prelude::*;
use vstd::string::StringExecFns;

use crate::interpreter::diagnostics::error_by_token;
use crate::interpreter::diagnostics::token_error_text;
use crate::interpreter::scanner::token::Token;
use crate::interpreter::scanner::token::TokenView;

verus! {

/// The kinds of module error.
#[derive(Clone, Copy, Debug, PartialEq, Eq, Structural)]
pub enum ExporterErrorType {
    /// `use` is followed by something other than a path between quotes.
    ExpectedPathStringAfterUse,
    /// A module is used that was not handed to the resolver.
    ModuleNotFound,
}

impl ExporterErrorType {
    /// The message of the error.
    pub open spec fn message(self) -> Seq<char> {
        match self {
            ExporterErrorType::ExpectedPathStringAfterUse => "Expected path string after use"@,
            ExporterErrorType::ModuleNotFound => "Module not found"@,
        }
    }

    /// The message of the error.
    pub fn to_string(&self) -> (r: String)
        ensures
            r@ == self.message(),
    {
        match self {
            ExporterErrorType::ExpectedPathStringAfterUse => String::from_str(
                "Expected path string after use",
            ),
            ExporterErrorType::ModuleNotFound => String::from_str("Module not found"),
        }
    }
}

/// A module error and the token that it is attributed to.
#[derive(Debug)]
pub struct ExporterError {
    pub token: Token,
    pub ty: ExporterErrorType,
}

impl Clone for ExporterError {
    fn clone(&self) -> (r: Self)
        ensures
            r == *self,
    {
        ExporterError { token: self.token.clone(), ty: self.ty }
    }
}

/// A module error with its token as a mathematical object.
pub struct ExporterErrorView {
    pub token: TokenView,
    pub ty: ExporterErrorType,
}

impl View for ExporterError {
    type V = ExporterErrorView;

    open spec fn view(&self) -> ExporterErrorView {
        ExporterErrorView { token: self.token@, ty: self.ty }
    }
}

impl ExporterErrorView {
    /// The diagnostic of the error.
    pub open spec fn text(self) -> Seq<char> {
        token_error_text(self.token, self.ty.message())
    }
}

impl ExporterError {
    /// The error `ty` at `token`.
    pub fn new(token: Token, ty: ExporterErrorType) -> (r: Self)
        ensures
            r.token == token,
            r.ty == ty,
    {
        Self { token, ty }
    }

    /// The diagnostic of the error.
    pub fn to_string(&self) -> (r: String)
        ensures
            r@ == self@.text(),
    {
        let msg = self.ty.to_string();
        error_by_token(&self.token, msg.as_str())
    }
}

} // verus!
