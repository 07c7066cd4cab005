//! What the scanner rejects.

use vstd::prelude::*;
use vstd::string::StringExecFns;

use crate::interpreter::diagnostics::error;
use crate::interpreter::diagnostics::error_text;

verus! {

/// The two ways in which scanning fails.
#[derive(Clone, Copy, Debug, PartialEq, Eq, Structural)]
pub enum ScannerErrorType {
    UnexpectedCharacter(char),
    UnterminatedString,
}

impl ScannerErrorType {
    /// The message of the error.
    pub open spec fn message(self) -> Seq<char> {
        match self {
            ScannerErrorType::UnexpectedCharacter(ch) => "Unexpected character '"@ + seq![ch, '\''],
            ScannerErrorType::UnterminatedString => "Unterminated string"@,
        }
    }

    /// The message of the error.
    pub fn to_string(&self) -> (r: String)
        ensures
            r@ == self.message(),
    {
        match self {
            ScannerErrorType::UnexpectedCharacter(ch) => {
                let mut out = String::from_str("Unexpected character '");
                out.push(*ch);
                out.push('\'');
                assert(out@ =~= self.message());
                out
            },
            ScannerErrorType::UnterminatedString => String::from_str("Unterminated string"),
        }
    }
}

/// A scanning failure and the place where it was found.
#[derive(Clone, Copy, Debug, PartialEq, Eq, Structural)]
pub struct ScannerError {
    pub line: usize,
    pub pos_in_line: usize,
    pub ty: ScannerErrorType,
}

impl ScannerError {
    /// The failure `ty` found at `line`, `pos_in_line`.
    pub fn new(line: usize, pos_in_line: usize, ty: ScannerErrorType) -> (r: Self)
        ensures
            r == (ScannerError { line, pos_in_line, ty }),
    {
        Self { line, pos_in_line, ty }
    }

    /// The diagnostic of the failure.
    pub open spec fn text(self) -> Seq<char> {
        error_text(self.line as nat, self.pos_in_line as nat, self.ty.message())
    }

    /// The diagnostic of the failure.
    pub fn to_string(&self) -> (r: String)
        ensures
            r@ == self.text(),
    {
        let msg = self.ty.to_string();
        error(self.line, self.pos_in_line, msg.as_str())
    }
}

} // verus!
