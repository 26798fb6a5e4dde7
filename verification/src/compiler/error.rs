//! Errors that compilation can report.

use vstd::prelude::*;
use vstd::string::StringExecFns;

use crate::text::{decimal, push_decimal};

verus! {

broadcast use vstd::string::group_string_axioms;

/// Mathematical model of a [`CompileError`].
pub ghost enum ErrModel {
    UnknownOperation(Seq<char>),
    InvalidArity { op: Seq<char>, expected: nat, got: nat },
    InvalidArityRange { op: Seq<char>, min: nat, max: nat, got: nat },
    TooManyConstants,
    TooManyLocals,
    InvalidExpression(Seq<char>),
    VariableNotFound(Seq<char>),
    NestingTooDeep,
}

/// A compilation error.
#[derive(Debug, Clone, PartialEq)]
pub enum CompileError {
    /// Unknown operation encountered
    UnknownOperation(String),
    /// Invalid arity for operation
    InvalidArity { op: String, expected: usize, got: usize },
    /// Invalid arity range for operation
    InvalidArityRange { op: String, min: usize, max: usize, got: usize },
    /// Too many constants in chunk
    TooManyConstants,
    /// Too many locals in scope
    TooManyLocals,
    /// Invalid expression structure
    InvalidExpression(String),
    /// Variable not found
    VariableNotFound(String),
    /// Nested scopes too deep
    NestingTooDeep,
}

/// The text that describes an error.
pub open spec fn error_text(e: ErrModel) -> Seq<char> {
    match e {
        ErrModel::UnknownOperation(op) => "Unknown operation: "@ + op,
        ErrModel::InvalidArity { op, expected, got } => "Invalid arity for "@ + op + ": expected "@
            + decimal(expected) + ", got "@ + decimal(got),
        ErrModel::InvalidArityRange { op, min, max, got } => "Invalid arity for "@ + op
            + ": expected "@ + decimal(min) + "-"@ + decimal(max) + ", got "@ + decimal(got),
        ErrModel::TooManyConstants => "Too many constants (max 65535)"@,
        ErrModel::TooManyLocals => "Too many local variables (max 65535)"@,
        ErrModel::InvalidExpression(msg) => "Invalid expression: "@ + msg,
        ErrModel::VariableNotFound(name) => "Variable not found: "@ + name,
        ErrModel::NestingTooDeep => "Function nesting too deep"@,
    }
}

impl CompileError {
    /// The model of this error.
    pub open spec fn view(&self) -> ErrModel {
        match self {
            CompileError::UnknownOperation(op) => ErrModel::UnknownOperation(op@),
            CompileError::InvalidArity { op, expected, got } => ErrModel::InvalidArity {
                op: op@,
                expected: *expected as nat,
                got: *got as nat,
            },
            CompileError::InvalidArityRange { op, min, max, got } => ErrModel::InvalidArityRange {
                op: op@,
                min: *min as nat,
                max: *max as nat,
                got: *got as nat,
            },
            CompileError::TooManyConstants => ErrModel::TooManyConstants,
            CompileError::TooManyLocals => ErrModel::TooManyLocals,
            CompileError::InvalidExpression(m) => ErrModel::InvalidExpression(m@),
            CompileError::VariableNotFound(n) => ErrModel::VariableNotFound(n@),
            CompileError::NestingTooDeep => ErrModel::NestingTooDeep,
        }
    }

    /// The human-readable description of this error.
    pub fn message(&self) -> (r: String)
        ensures
            r@ == error_text(self@),
    {
        let mut out = String::new();
        match self {
            CompileError::UnknownOperation(op) => {
                out.append("Unknown operation: ");
                out.append(op.as_str());
            },
            CompileError::InvalidArity { op, expected, got } => {
                out.append("Invalid arity for ");
                out.append(op.as_str());
                out.append(": expected ");
                push_decimal(&mut out, *expected as u64);
                out.append(", got ");
                push_decimal(&mut out, *got as u64);
            },
            CompileError::InvalidArityRange { op, min, max, got } => {
                out.append("Invalid arity for ");
                out.append(op.as_str());
                out.append(": expected ");
                push_decimal(&mut out, *min as u64);
                out.append("-");
                push_decimal(&mut out, *max as u64);
                out.append(", got ");
                push_decimal(&mut out, *got as u64);
            },
            CompileError::TooManyConstants => {
                out.append("Too many constants (max 65535)");
            },
            CompileError::TooManyLocals => {
                out.append("Too many local variables (max 65535)");
            },
            CompileError::InvalidExpression(m) => {
                out.append("Invalid expression: ");
                out.append(m.as_str());
            },
            CompileError::VariableNotFound(n) => {
                out.append("Variable not found: ");
                out.append(n.as_str());
            },
            CompileError::NestingTooDeep => {
                out.append("Function nesting too deep");
            },
        }
        proof {
            assert(out@ =~= error_text(self@));
        }
        out
    }
}

} // verus!
