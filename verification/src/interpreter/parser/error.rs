//! What the parser and the static resolver reject.

use vstd::prelude::*;
use vstd::string::StringExecFns;

use crate::interpreter::diagnostics::error_by_token;
use crate::interpreter::diagnostics::token_error_text;
use crate::interpreter::scanner::token::Token;
use crate::interpreter::scanner::token::TokenView;
use crate::interpreter::text::push_text;

verus! {

/// The closed set of syntax and resolution errors.
#[derive(Debug)]
pub enum ParserErrorType {
    ExpectedMatchingParens,
    ExpectedExpression,
    ExpectedSemicolon,
    ExpectedVariableName,
    ExpectedSemicolonAfterVarDecl,
    UndefinedVariable(String),
    InvalidAssignmentTarget,
    ExpectedMatchingBrace,
    ExpectedLeftParenAfterIf,
    ExpectedRightParenAfterIfCondition,
    ExpectedRightParenAfterForStatement,
    ExpectedLeftParenAfterFor,
    ExpectedLeftParenAfterWhile,
    ExpectedRightParenAfterWhileStatement,
    ExpectedRightParenAfterArguments,
    CountOfArgsGreaterThen255,
    ExpectedIdentAfterFunDecl,
    ExpectedLeftParenAfterFunIdent,
    CountOfParamsGreaterThen255,
    ExpectedRightParenAfterParams,
    ExpectedLeftBraceBeforeBody,
    ExpectedParamName,
    CantReadLocalVariableInItsOwnInit,
    CantReturnFromTopLevelCode,
    ExpectedIdentAfterClassDecl,
    NotAFunc,
    ExpectedPropertyAfterDot,
    CantUseSelfOutsideClass,
    CantReturnFromInitializer,
    ExpectedSuperClassIdent,
    CantInheritItSelf,
    ExpectedMethodAfterDot,
    ExpectedDotAfterSuper,
    CantUseSuperOutsideOfClass,
    CantUseSuperInClassWithoutSuperClasses,
    ExpectedRightBracket,
}

impl Clone for ParserErrorType {
    fn clone(&self) -> (r: Self)
        ensures
            r == *self,
    {
        match self {
            ParserErrorType::UndefinedVariable(v) => ParserErrorType::UndefinedVariable(v.clone()),
            ParserErrorType::ExpectedMatchingParens => ParserErrorType::ExpectedMatchingParens,
            ParserErrorType::ExpectedExpression => ParserErrorType::ExpectedExpression,
            ParserErrorType::ExpectedSemicolon => ParserErrorType::ExpectedSemicolon,
            ParserErrorType::ExpectedVariableName => ParserErrorType::ExpectedVariableName,
            ParserErrorType::ExpectedSemicolonAfterVarDecl => ParserErrorType::ExpectedSemicolonAfterVarDecl,
            ParserErrorType::InvalidAssignmentTarget => ParserErrorType::InvalidAssignmentTarget,
            ParserErrorType::ExpectedMatchingBrace => ParserErrorType::ExpectedMatchingBrace,
            ParserErrorType::ExpectedLeftParenAfterIf => ParserErrorType::ExpectedLeftParenAfterIf,
            ParserErrorType::ExpectedRightParenAfterIfCondition => ParserErrorType::ExpectedRightParenAfterIfCondition,
            ParserErrorType::ExpectedRightParenAfterForStatement => ParserErrorType::ExpectedRightParenAfterForStatement,
            ParserErrorType::ExpectedLeftParenAfterFor => ParserErrorType::ExpectedLeftParenAfterFor,
            ParserErrorType::ExpectedLeftParenAfterWhile => ParserErrorType::ExpectedLeftParenAfterWhile,
            ParserErrorType::ExpectedRightParenAfterWhileStatement => ParserErrorType::ExpectedRightParenAfterWhileStatement,
            ParserErrorType::ExpectedRightParenAfterArguments => ParserErrorType::ExpectedRightParenAfterArguments,
            ParserErrorType::CountOfArgsGreaterThen255 => ParserErrorType::CountOfArgsGreaterThen255,
            ParserErrorType::ExpectedIdentAfterFunDecl => ParserErrorType::ExpectedIdentAfterFunDecl,
            ParserErrorType::ExpectedLeftParenAfterFunIdent => ParserErrorType::ExpectedLeftParenAfterFunIdent,
            ParserErrorType::CountOfParamsGreaterThen255 => ParserErrorType::CountOfParamsGreaterThen255,
            ParserErrorType::ExpectedRightParenAfterParams => ParserErrorType::ExpectedRightParenAfterParams,
            ParserErrorType::ExpectedLeftBraceBeforeBody => ParserErrorType::ExpectedLeftBraceBeforeBody,
            ParserErrorType::ExpectedParamName => ParserErrorType::ExpectedParamName,
            ParserErrorType::CantReadLocalVariableInItsOwnInit => ParserErrorType::CantReadLocalVariableInItsOwnInit,
            ParserErrorType::CantReturnFromTopLevelCode => ParserErrorType::CantReturnFromTopLevelCode,
            ParserErrorType::ExpectedIdentAfterClassDecl => ParserErrorType::ExpectedIdentAfterClassDecl,
            ParserErrorType::NotAFunc => ParserErrorType::NotAFunc,
            ParserErrorType::ExpectedPropertyAfterDot => ParserErrorType::ExpectedPropertyAfterDot,
            ParserErrorType::CantUseSelfOutsideClass => ParserErrorType::CantUseSelfOutsideClass,
            ParserErrorType::CantReturnFromInitializer => ParserErrorType::CantReturnFromInitializer,
            ParserErrorType::ExpectedSuperClassIdent => ParserErrorType::ExpectedSuperClassIdent,
            ParserErrorType::CantInheritItSelf => ParserErrorType::CantInheritItSelf,
            ParserErrorType::ExpectedMethodAfterDot => ParserErrorType::ExpectedMethodAfterDot,
            ParserErrorType::ExpectedDotAfterSuper => ParserErrorType::ExpectedDotAfterSuper,
            ParserErrorType::CantUseSuperOutsideOfClass => ParserErrorType::CantUseSuperOutsideOfClass,
            ParserErrorType::CantUseSuperInClassWithoutSuperClasses => ParserErrorType::CantUseSuperInClassWithoutSuperClasses,
            ParserErrorType::ExpectedRightBracket => ParserErrorType::ExpectedRightBracket,
        }
    }
}

impl ParserErrorType {
    /// The message of the error.
    pub open spec fn message(self) -> Seq<char> {
        match self {
            ParserErrorType::UndefinedVariable(v) => "Undefined variable: `"@ + v@ + "`!"@,
            ParserErrorType::ExpectedMatchingParens => "Expect ')', after expression!"@,
            ParserErrorType::ExpectedExpression => "Expected expression!"@,
            ParserErrorType::ExpectedSemicolon => "Expected ';' after expression!"@,
            ParserErrorType::ExpectedVariableName => "Expected variable name!"@,
            ParserErrorType::ExpectedSemicolonAfterVarDecl => "Expected ';' after variable declaration!"@,
            ParserErrorType::InvalidAssignmentTarget => "Invalid assignment target!"@,
            ParserErrorType::ExpectedMatchingBrace => "Expected '}' after block!"@,
            ParserErrorType::ExpectedLeftParenAfterIf => "Expected '(' after if!"@,
            ParserErrorType::ExpectedRightParenAfterIfCondition => "Expected ')' after if condition!"@,
            ParserErrorType::ExpectedRightParenAfterForStatement => "Expected ')' after for statement!"@,
            ParserErrorType::ExpectedLeftParenAfterFor => "Expected '( after for!"@,
            ParserErrorType::ExpectedLeftParenAfterWhile => "Expected '( after while!"@,
            ParserErrorType::ExpectedRightParenAfterWhileStatement => "Expected ')' after while statement!"@,
            ParserErrorType::ExpectedRightParenAfterArguments => "Expected ')' after arguments!"@,
            ParserErrorType::CountOfArgsGreaterThen255 => "Number of arguments greater than 255!"@,
            ParserErrorType::ExpectedIdentAfterFunDecl => "Expected identifier after function declaration!"@,
            ParserErrorType::ExpectedLeftParenAfterFunIdent => "Expected '(' after function identifier!"@,
            ParserErrorType::CountOfParamsGreaterThen255 => "Number of params greater than 255!"@,
            ParserErrorType::ExpectedRightParenAfterParams => "Expected ')' after parameters!"@,
            ParserErrorType::ExpectedLeftBraceBeforeBody => "Expected '{' after body!"@,
            ParserErrorType::ExpectedParamName => "Expected parameter name!"@,
            ParserErrorType::CantReadLocalVariableInItsOwnInit => "Can't read local variable in it's own init!"@,
            ParserErrorType::CantReturnFromTopLevelCode => "Can't return from top level code!"@,
            ParserErrorType::ExpectedIdentAfterClassDecl => "Expected identifier after class declaration!"@,
            ParserErrorType::NotAFunc => "Not a function!"@,
            ParserErrorType::ExpectedPropertyAfterDot => "Expected property after '.'!"@,
            ParserErrorType::CantUseSelfOutsideClass => "Can't use 'self' outside of a class!"@,
            ParserErrorType::CantReturnFromInitializer => "Can't return from initializer!"@,
            ParserErrorType::ExpectedSuperClassIdent => "Expected superclass identifier!"@,
            ParserErrorType::CantInheritItSelf => "A class can't inherit from itself!"@,
            ParserErrorType::ExpectedMethodAfterDot => "Expected method after '.'!"@,
            ParserErrorType::ExpectedDotAfterSuper => "Expected '.'!"@,
            ParserErrorType::CantUseSuperOutsideOfClass => "Can't use 'super' outside of a class!"@,
            ParserErrorType::CantUseSuperInClassWithoutSuperClasses => "Can't use 'super' in class without superclasses!"@,
            ParserErrorType::ExpectedRightBracket => "Expected ']'!"@,
        }
    }

    /// The message of the error.
    pub fn to_string(&self) -> (r: String)
        ensures
            r@ == self.message(),
    {
        match self {
            ParserErrorType::UndefinedVariable(v) => {
                let mut out = String::from_str("Undefined variable: `");
                push_text(&mut out, v.as_str());
                push_text(&mut out, "`!");
                out
            },
            ParserErrorType::ExpectedMatchingParens => String::from_str("Expect ')', after expression!"),
            ParserErrorType::ExpectedExpression => String::from_str("Expected expression!"),
            ParserErrorType::ExpectedSemicolon => String::from_str("Expected ';' after expression!"),
            ParserErrorType::ExpectedVariableName => String::from_str("Expected variable name!"),
            ParserErrorType::ExpectedSemicolonAfterVarDecl => String::from_str("Expected ';' after variable declaration!"),
            ParserErrorType::InvalidAssignmentTarget => String::from_str("Invalid assignment target!"),
            ParserErrorType::ExpectedMatchingBrace => String::from_str("Expected '}' after block!"),
            ParserErrorType::ExpectedLeftParenAfterIf => String::from_str("Expected '(' after if!"),
            ParserErrorType::ExpectedRightParenAfterIfCondition => String::from_str("Expected ')' after if condition!"),
            ParserErrorType::ExpectedRightParenAfterForStatement => String::from_str("Expected ')' after for statement!"),
            ParserErrorType::ExpectedLeftParenAfterFor => String::from_str("Expected '( after for!"),
            ParserErrorType::ExpectedLeftParenAfterWhile => String::from_str("Expected '( after while!"),
            ParserErrorType::ExpectedRightParenAfterWhileStatement => String::from_str("Expected ')' after while statement!"),
            ParserErrorType::ExpectedRightParenAfterArguments => String::from_str("Expected ')' after arguments!"),
            ParserErrorType::CountOfArgsGreaterThen255 => String::from_str("Number of arguments greater than 255!"),
            ParserErrorType::ExpectedIdentAfterFunDecl => String::from_str("Expected identifier after function declaration!"),
            ParserErrorType::ExpectedLeftParenAfterFunIdent => String::from_str("Expected '(' after function identifier!"),
            ParserErrorType::CountOfParamsGreaterThen255 => String::from_str("Number of params greater than 255!"),
            ParserErrorType::ExpectedRightParenAfterParams => String::from_str("Expected ')' after parameters!"),
            ParserErrorType::ExpectedLeftBraceBeforeBody => String::from_str("Expected '{' after body!"),
            ParserErrorType::ExpectedParamName => String::from_str("Expected parameter name!"),
            ParserErrorType::CantReadLocalVariableInItsOwnInit => String::from_str("Can't read local variable in it's own init!"),
            ParserErrorType::CantReturnFromTopLevelCode => String::from_str("Can't return from top level code!"),
            ParserErrorType::ExpectedIdentAfterClassDecl => String::from_str("Expected identifier after class declaration!"),
            ParserErrorType::NotAFunc => String::from_str("Not a function!"),
            ParserErrorType::ExpectedPropertyAfterDot => String::from_str("Expected property after '.'!"),
            ParserErrorType::CantUseSelfOutsideClass => String::from_str("Can't use 'self' outside of a class!"),
            ParserErrorType::CantReturnFromInitializer => String::from_str("Can't return from initializer!"),
            ParserErrorType::ExpectedSuperClassIdent => String::from_str("Expected superclass identifier!"),
            ParserErrorType::CantInheritItSelf => String::from_str("A class can't inherit from itself!"),
            ParserErrorType::ExpectedMethodAfterDot => String::from_str("Expected method after '.'!"),
            ParserErrorType::ExpectedDotAfterSuper => String::from_str("Expected '.'!"),
            ParserErrorType::CantUseSuperOutsideOfClass => String::from_str("Can't use 'super' outside of a class!"),
            ParserErrorType::CantUseSuperInClassWithoutSuperClasses => String::from_str("Can't use 'super' in class without superclasses!"),
            ParserErrorType::ExpectedRightBracket => String::from_str("Expected ']'!"),
        }
    }
}

/// A syntax or resolution error and the token that it is attributed to.
#[derive(Debug)]
pub struct ParserError {
    pub token: Token,
    pub ty: ParserErrorType,
}

impl Clone for ParserError {
    fn clone(&self) -> (r: Self)
        ensures
            r == *self,
    {
        ParserError { token: self.token.clone(), ty: self.ty.clone() }
    }
}

/// A syntax or resolution error with its token as a mathematical object.
pub struct ParserErrorView {
    pub token: TokenView,
    pub ty: ParserErrorType,
}

impl View for ParserError {
    type V = ParserErrorView;

    open spec fn view(&self) -> ParserErrorView {
        ParserErrorView { token: self.token@, ty: self.ty }
    }
}

impl ParserErrorView {
    /// The diagnostic of the error.
    pub open spec fn text(self) -> Seq<char> {
        token_error_text(self.token, self.ty.message())
    }
}

impl ParserError {
    /// The error `ty` at `token`.
    pub fn new(token: Token, ty: ParserErrorType) -> (r: Self)
        ensures
            r.token == token,
            r.ty == ty,
    {
        Self { token, ty }
    }

    /// The diagnostic of the error.
    pub fn to_string(&self) -> (r: String)
        ensures
            r@ == self@.text(),
    {
        let msg = self.ty.to_string();
        error_by_token(&self.token, msg.as_str())
    }
}

} // verus!
