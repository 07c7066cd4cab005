//! What can go wrong while a program runs, and the signals that unwind
//! the evaluator.

use vstd::prelude::*;
use vstd::string::StringExecFns;

use crate::interpreter::diagnostics::error_by_token;
use crate::interpreter::diagnostics::token_error_text;
use crate::interpreter::exporter::error::ExporterError;
use crate::interpreter::exporter::error::ExporterErrorView;
use crate::interpreter::object::model::display;
use crate::interpreter::object::model::Value;
use crate::interpreter::object::Object;
use crate::interpreter::parser::error::ParserError;
use crate::interpreter::parser::error::ParserErrorView;
use crate::interpreter::scanner::error::ScannerError;
use crate::interpreter::scanner::token::Token;
use crate::interpreter::scanner::token::TokenView;
use crate::interpreter::text::push_text;

verus! {

/// The kinds of runtime error.
#[derive(Debug)]
pub enum RuntimeErrorType {
    CannotAddTypes(String, String),
    CannotSubtractTypes(String, String),
    CannotMultiplyTypes(String, String),
    CannotDivideTypes(String, String),
    CannotNegateType(String),
    UnsupportedUnaryOperator(String),
    UnsupportedBinaryOperator(String),
    BugEnvironmentNotInit,
    UndefinedVariable(String),
    VariableIsNotInit(String),
    ArityOfFuncNotEqSizeOfArgs,
    NotCallable,
    UserPanicWithMsg(Object),
    CantToNum(String),
    OnlyInstancesHaveProperties,
    UndefinedProperty(String),
    SuperclassMustBeClass,
}

/// A kind of runtime error, with its texts as sequences of characters
/// and its value as a mathematical value.
pub enum RuntimeErrorTypeView {
    CannotAddTypes(Seq<char>, Seq<char>),
    CannotSubtractTypes(Seq<char>, Seq<char>),
    CannotMultiplyTypes(Seq<char>, Seq<char>),
    CannotDivideTypes(Seq<char>, Seq<char>),
    CannotNegateType(Seq<char>),
    UnsupportedUnaryOperator(Seq<char>),
    UnsupportedBinaryOperator(Seq<char>),
    BugEnvironmentNotInit,
    UndefinedVariable(Seq<char>),
    VariableIsNotInit(Seq<char>),
    ArityOfFuncNotEqSizeOfArgs,
    NotCallable,
    UserPanicWithMsg(Value),
    CantToNum(Seq<char>),
    OnlyInstancesHaveProperties,
    UndefinedProperty(Seq<char>),
    SuperclassMustBeClass,
}

impl View for RuntimeErrorType {
    type V = RuntimeErrorTypeView;

    open spec fn view(&self) -> RuntimeErrorTypeView {
        match self {
            RuntimeErrorType::CannotAddTypes(a, b) => RuntimeErrorTypeView::CannotAddTypes(a@, b@),
            RuntimeErrorType::CannotSubtractTypes(a, b) => RuntimeErrorTypeView::CannotSubtractTypes(a@, b@),
            RuntimeErrorType::CannotMultiplyTypes(a, b) => RuntimeErrorTypeView::CannotMultiplyTypes(a@, b@),
            RuntimeErrorType::CannotDivideTypes(a, b) => RuntimeErrorTypeView::CannotDivideTypes(a@, b@),
            RuntimeErrorType::CannotNegateType(a) => RuntimeErrorTypeView::CannotNegateType(a@),
            RuntimeErrorType::UnsupportedUnaryOperator(a) => RuntimeErrorTypeView::UnsupportedUnaryOperator(a@),
            RuntimeErrorType::UnsupportedBinaryOperator(a) => RuntimeErrorTypeView::UnsupportedBinaryOperator(a@),
            RuntimeErrorType::BugEnvironmentNotInit => RuntimeErrorTypeView::BugEnvironmentNotInit,
            RuntimeErrorType::UndefinedVariable(a) => RuntimeErrorTypeView::UndefinedVariable(a@),
            RuntimeErrorType::VariableIsNotInit(a) => RuntimeErrorTypeView::VariableIsNotInit(a@),
            RuntimeErrorType::ArityOfFuncNotEqSizeOfArgs => RuntimeErrorTypeView::ArityOfFuncNotEqSizeOfArgs,
            RuntimeErrorType::NotCallable => RuntimeErrorTypeView::NotCallable,
            RuntimeErrorType::UserPanicWithMsg(msg) => RuntimeErrorTypeView::UserPanicWithMsg(msg@),
            RuntimeErrorType::CantToNum(a) => RuntimeErrorTypeView::CantToNum(a@),
            RuntimeErrorType::OnlyInstancesHaveProperties => RuntimeErrorTypeView::OnlyInstancesHaveProperties,
            RuntimeErrorType::UndefinedProperty(a) => RuntimeErrorTypeView::UndefinedProperty(a@),
            RuntimeErrorType::SuperclassMustBeClass => RuntimeErrorTypeView::SuperclassMustBeClass,
        }
    }
}

impl Clone for RuntimeErrorType {
    fn clone(&self) -> (r: Self)
        ensures
            r@ == self@,
    {
        match self {
            RuntimeErrorType::CannotAddTypes(a, b) => RuntimeErrorType::CannotAddTypes(a.clone(), b.clone()),
            RuntimeErrorType::CannotSubtractTypes(a, b) => RuntimeErrorType::CannotSubtractTypes(a.clone(), b.clone()),
            RuntimeErrorType::CannotMultiplyTypes(a, b) => RuntimeErrorType::CannotMultiplyTypes(a.clone(), b.clone()),
            RuntimeErrorType::CannotDivideTypes(a, b) => RuntimeErrorType::CannotDivideTypes(a.clone(), b.clone()),
            RuntimeErrorType::CannotNegateType(a) => RuntimeErrorType::CannotNegateType(a.clone()),
            RuntimeErrorType::UnsupportedUnaryOperator(a) => RuntimeErrorType::UnsupportedUnaryOperator(a.clone()),
            RuntimeErrorType::UnsupportedBinaryOperator(a) => RuntimeErrorType::UnsupportedBinaryOperator(a.clone()),
            RuntimeErrorType::BugEnvironmentNotInit => RuntimeErrorType::BugEnvironmentNotInit,
            RuntimeErrorType::UndefinedVariable(a) => RuntimeErrorType::UndefinedVariable(a.clone()),
            RuntimeErrorType::VariableIsNotInit(a) => RuntimeErrorType::VariableIsNotInit(a.clone()),
            RuntimeErrorType::ArityOfFuncNotEqSizeOfArgs => RuntimeErrorType::ArityOfFuncNotEqSizeOfArgs,
            RuntimeErrorType::NotCallable => RuntimeErrorType::NotCallable,
            RuntimeErrorType::UserPanicWithMsg(msg) => RuntimeErrorType::UserPanicWithMsg(msg.clone()),
            RuntimeErrorType::CantToNum(a) => RuntimeErrorType::CantToNum(a.clone()),
            RuntimeErrorType::OnlyInstancesHaveProperties => RuntimeErrorType::OnlyInstancesHaveProperties,
            RuntimeErrorType::UndefinedProperty(a) => RuntimeErrorType::UndefinedProperty(a.clone()),
            RuntimeErrorType::SuperclassMustBeClass => RuntimeErrorType::SuperclassMustBeClass,
        }
    }
}

impl RuntimeErrorTypeView {
    /// The message of the error.
    pub open spec fn message(self) -> Seq<char> {
        match self {
            RuntimeErrorTypeView::CannotAddTypes(a, b) => "Cannot add types '"@ + a + "' and '"@ + b + "'"@,
            RuntimeErrorTypeView::CannotSubtractTypes(a, b) => "Cannot subtract '"@ + a + "' and '"@ + b + "'"@,
            RuntimeErrorTypeView::CannotMultiplyTypes(a, b) => "Cannot multiply '"@ + a + "' and '"@ + b + "'"@,
            RuntimeErrorTypeView::CannotDivideTypes(a, b) => "Cannot divide '"@ + a + "' and '"@ + b + "'"@,
            RuntimeErrorTypeView::CannotNegateType(a) => "Cannot negate '"@ + a + "'"@,
            RuntimeErrorTypeView::UnsupportedUnaryOperator(a) => "Unsupported unary operator '"@ + a + "'"@,
            RuntimeErrorTypeView::UnsupportedBinaryOperator(a) => "Unsupported binary operator '"@ + a + "'"@,
            RuntimeErrorTypeView::BugEnvironmentNotInit => "Bug environment not initialized"@,
            RuntimeErrorTypeView::UndefinedVariable(a) => "Undefined variable '"@ + a + "'"@,
            RuntimeErrorTypeView::VariableIsNotInit(a) => "Variable '"@ + a + "' is not initialized"@,
            RuntimeErrorTypeView::ArityOfFuncNotEqSizeOfArgs => "Arity of functions not equal size of args"@,
            RuntimeErrorTypeView::NotCallable => "Not callable"@,
            RuntimeErrorTypeView::UserPanicWithMsg(msg) => display(msg),
            RuntimeErrorTypeView::CantToNum(a) => "this type '"@ + a + "' cannot be represented as a number"@,
            RuntimeErrorTypeView::OnlyInstancesHaveProperties => "Only instances have properties"@,
            RuntimeErrorTypeView::UndefinedProperty(a) => "Undefined property '"@ + a + "'"@,
            RuntimeErrorTypeView::SuperclassMustBeClass => "Superclass must be class"@,
        }
    }
}

impl RuntimeErrorType {
    /// The message of the error.
    pub fn to_string(&self) -> (r: String)
        ensures
            r@ == self@.message(),
    {
        match self {
            RuntimeErrorType::CannotAddTypes(a, b) => {
                let mut out = String::from_str("Cannot add types '");
                push_text(&mut out, a.as_str());
                push_text(&mut out, "' and '");
                push_text(&mut out, b.as_str());
                push_text(&mut out, "'");
                out
            },
            RuntimeErrorType::CannotSubtractTypes(a, b) => {
                let mut out = String::from_str("Cannot subtract '");
                push_text(&mut out, a.as_str());
                push_text(&mut out, "' and '");
                push_text(&mut out, b.as_str());
                push_text(&mut out, "'");
                out
            },
            RuntimeErrorType::CannotMultiplyTypes(a, b) => {
                let mut out = String::from_str("Cannot multiply '");
                push_text(&mut out, a.as_str());
                push_text(&mut out, "' and '");
                push_text(&mut out, b.as_str());
                push_text(&mut out, "'");
                out
            },
            RuntimeErrorType::CannotDivideTypes(a, b) => {
                let mut out = String::from_str("Cannot divide '");
                push_text(&mut out, a.as_str());
                push_text(&mut out, "' and '");
                push_text(&mut out, b.as_str());
                push_text(&mut out, "'");
                out
            },
            RuntimeErrorType::CannotNegateType(a) => {
                let mut out = String::from_str("Cannot negate '");
                push_text(&mut out, a.as_str());
                push_text(&mut out, "'");
                out
            },
            RuntimeErrorType::UnsupportedUnaryOperator(a) => {
                let mut out = String::from_str("Unsupported unary operator '");
                push_text(&mut out, a.as_str());
                push_text(&mut out, "'");
                out
            },
            RuntimeErrorType::UnsupportedBinaryOperator(a) => {
                let mut out = String::from_str("Unsupported binary operator '");
                push_text(&mut out, a.as_str());
                push_text(&mut out, "'");
                out
            },
            RuntimeErrorType::BugEnvironmentNotInit => String::from_str("Bug environment not initialized"),
            RuntimeErrorType::UndefinedVariable(a) => {
                let mut out = String::from_str("Undefined variable '");
                push_text(&mut out, a.as_str());
                push_text(&mut out, "'");
                out
            },
            RuntimeErrorType::VariableIsNotInit(a) => {
                let mut out = String::from_str("Variable '");
                push_text(&mut out, a.as_str());
                push_text(&mut out, "' is not initialized");
                out
            },
            RuntimeErrorType::ArityOfFuncNotEqSizeOfArgs => String::from_str("Arity of functions not equal size of args"),
            RuntimeErrorType::NotCallable => String::from_str("Not callable"),
            RuntimeErrorType::UserPanicWithMsg(msg) => msg.to_string(),
            RuntimeErrorType::CantToNum(a) => {
                let mut out = String::from_str("this type '");
                push_text(&mut out, a.as_str());
                push_text(&mut out, "' cannot be represented as a number");
                out
            },
            RuntimeErrorType::OnlyInstancesHaveProperties => String::from_str("Only instances have properties"),
            RuntimeErrorType::UndefinedProperty(a) => {
                let mut out = String::from_str("Undefined property '");
                push_text(&mut out, a.as_str());
                push_text(&mut out, "'");
                out
            },
            RuntimeErrorType::SuperclassMustBeClass => String::from_str("Superclass must be class"),
        }
    }
}

/// A runtime error and the token that it is attributed to.
#[derive(Debug)]
pub struct RuntimeError {
    pub token: Token,
    pub ty: RuntimeErrorType,
}

/// A runtime error as a mathematical value.
pub struct RuntimeErrorView {
    pub token: TokenView,
    pub ty: RuntimeErrorTypeView,
}

impl View for RuntimeError {
    type V = RuntimeErrorView;

    open spec fn view(&self) -> RuntimeErrorView {
        RuntimeErrorView { token: self.token@, ty: self.ty@ }
    }
}

impl RuntimeErrorView {
    /// The diagnostic of the error.
    pub open spec fn text(self) -> Seq<char> {
        token_error_text(self.token, self.ty.message())
    }
}

impl Clone for RuntimeError {
    fn clone(&self) -> (r: Self)
        ensures
            r@ == self@,
    {
        RuntimeError { token: self.token.clone(), ty: self.ty.clone() }
    }
}

impl RuntimeError {
    /// The error `ty` at `token`.
    pub fn new(token: Token, ty: RuntimeErrorType) -> (r: Self)
        ensures
            r.token == token,
            r.ty == ty,
            r@ == (RuntimeErrorView { token: token@, ty: ty@ }),
    {
        Self { token, ty }
    }

    /// The diagnostic of the error.
    pub fn to_string(&self) -> (r: String)
        ensures
            r@ == self@.text(),
    {
        let msg = self.ty.to_string();
        error_by_token(&self.token, msg.as_str())
    }
}

/// Everything that ends an evaluation early: the errors of each stage of
/// the pipeline, and the signals that are no errors.
#[derive(Debug)]
pub enum InterpreterError {
    ScannerError(ScannerError),
    ParserError(ParserError),
    ExporterError(ExporterError),
    RuntimeError(RuntimeError),
    /// A runtime error that no token has been attributed to yet.
    RuntimeErrorType(RuntimeErrorType),
    Custom(String),
    /// The signal of a `return`; it carries the returned value to the call
    /// that it leaves.
    Return(Object),
    /// The signal of `exit()` and `exitWithCode(n)`; it carries the code to
    /// whoever runs the program.
    Exit(i32),
    /// The budget of the evaluation is used up.
    BudgetExhausted,
}

/// An early end of an evaluation as a mathematical value.
pub enum InterpreterErrorView {
    ScannerError(ScannerError),
    ParserError(ParserErrorView),
    ExporterError(ExporterErrorView),
    RuntimeError(RuntimeErrorView),
    RuntimeErrorType(RuntimeErrorTypeView),
    Custom(Seq<char>),
    Return(Value),
    Exit(i32),
    BudgetExhausted,
    /// No end that an evaluation comes to: the place where the model
    /// stops, because the program asks the host for the time once more
    /// than the model was given readings.
    HostClock,
}

impl View for InterpreterError {
    type V = InterpreterErrorView;

    open spec fn view(&self) -> InterpreterErrorView {
        match self {
            InterpreterError::ScannerError(e) => InterpreterErrorView::ScannerError(*e),
            InterpreterError::ParserError(e) => InterpreterErrorView::ParserError(e@),
            InterpreterError::ExporterError(e) => InterpreterErrorView::ExporterError(e@),
            InterpreterError::RuntimeError(e) => InterpreterErrorView::RuntimeError(e@),
            InterpreterError::RuntimeErrorType(e) => InterpreterErrorView::RuntimeErrorType(e@),
            InterpreterError::Custom(s) => InterpreterErrorView::Custom(s@),
            InterpreterError::Return(value) => InterpreterErrorView::Return(value@),
            InterpreterError::Exit(code) => InterpreterErrorView::Exit(*code),
            InterpreterError::BudgetExhausted => InterpreterErrorView::BudgetExhausted,
        }
    }
}

impl InterpreterErrorView {
    /// How the error is written.
    pub open spec fn text(self) -> Seq<char> {
        match self {
            InterpreterErrorView::ScannerError(e) => e.text(),
            InterpreterErrorView::ParserError(e) => e.text(),
            InterpreterErrorView::ExporterError(e) => e.text(),
            InterpreterErrorView::RuntimeError(e) => e.text(),
            InterpreterErrorView::RuntimeErrorType(e) => e.message(),
            InterpreterErrorView::Custom(s) => s,
            InterpreterErrorView::Return(value) => display(value),
            InterpreterErrorView::Exit(code) => "exit"@,
            InterpreterErrorView::BudgetExhausted => "Evaluation budget exhausted"@,
            InterpreterErrorView::HostClock => "host clock"@,
        }
    }
}

impl InterpreterError {
    /// How the error is written.
    pub fn to_string(&self) -> (r: String)
        ensures
            r@ == self@.text(),
    {
        match self {
            InterpreterError::ScannerError(e) => e.to_string(),
            InterpreterError::ParserError(e) => e.to_string(),
            InterpreterError::ExporterError(e) => e.to_string(),
            InterpreterError::RuntimeError(e) => e.to_string(),
            InterpreterError::RuntimeErrorType(e) => e.to_string(),
            InterpreterError::Custom(s) => s.clone(),
            InterpreterError::Return(value) => value.to_string(),
            InterpreterError::Exit(code) => String::from_str("exit"),
            InterpreterError::BudgetExhausted => String::from_str("Evaluation budget exhausted"),
        }
    }
}

} // verus!
