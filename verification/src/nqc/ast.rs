//! The syntax tree of NQC.

use vstd::prelude::*;
use vstd::string::StringExecFns;
use crate::text::{push_signed_decimal, signed_decimal};

verus! {

/// An operator between two expressions.
#[derive(Copy, Clone, Debug, PartialEq, Eq, Structural)]
pub enum BinaryOp {
    Add,
    Sub,
    Mul,
    Div,
}

/// An expression.
#[derive(Debug, PartialEq, Eq)]
pub enum Expr<'input> {
    Literal(i32),
    Ident(&'input str),
    BinaryOp(Box<Expr<'input>>, BinaryOp, Box<Expr<'input>>),
}

/// A statement.
#[derive(Debug, PartialEq, Eq)]
pub enum Stmt<'input> {
    Expr(Box<Expr<'input>>),
    FuncDecl(&'input str, Box<Expr<'input>>),
}

impl BinaryOp {
    /// The sign of the operator.
    pub open spec fn text(self) -> Seq<char> {
        match self {
            BinaryOp::Add => "+"@,
            BinaryOp::Sub => "-"@,
            BinaryOp::Mul => "*"@,
            BinaryOp::Div => "/"@,
        }
    }

    /// The sign of the operator.
    pub fn to_string(&self) -> (r: String)
        ensures
            r@ == self.text(),
    {
        match self {
            BinaryOp::Add => String::from_str("+"),
            BinaryOp::Sub => String::from_str("-"),
            BinaryOp::Mul => String::from_str("*"),
            BinaryOp::Div => String::from_str("/"),
        }
    }
}

impl<'input> Expr<'input> {
    /// The expression as source: a number in decimal, a name as it is, an
    /// operation as its sides with the operator between them, set apart
    /// by spaces.
    pub open spec fn text(&self) -> Seq<char>
        decreases self,
    {
        match self {
            Expr::Literal(value) => signed_decimal(*value as int),
            Expr::Ident(name) => name@,
            Expr::BinaryOp(left, op, right) => left.text() + " "@ + op.text() + " "@ + right.text(),
        }
    }

    /// The expression as source.
    pub fn to_string(&self) -> (r: String)
        ensures
            r@ == self.text(),
        decreases self,
    {
        match self {
            Expr::Literal(value) => {
                let mut out = String::new();
                push_signed_decimal(&mut out, *value);
                out
            },
            Expr::Ident(name) => String::from_str(name),
            Expr::BinaryOp(left, op, right) => {
                let mut out = left.to_string();
                out.append(" ");
                let sign = op.to_string();
                out.append(sign.as_str());
                out.append(" ");
                let rest = right.to_string();
                out.append(rest.as_str());
                assert(out@ =~= self.text());
                out
            },
        }
    }
}

impl<'input> Stmt<'input> {
    /// The statement as source: an expression as it is, a function as
    /// `int`, its name and its body in braces on a line of its own.
    pub open spec fn text(&self) -> Seq<char> {
        match self {
            Stmt::Expr(expr) => expr.text(),
            Stmt::FuncDecl(name, expr) => "int "@ + name@ + " {\n    "@ + expr.text() + "\n}"@,
        }
    }

    /// The statement as source.
    pub fn to_string(&self) -> (r: String)
        ensures
            r@ == self.text(),
    {
        match self {
            Stmt::Expr(expr) => expr.to_string(),
            Stmt::FuncDecl(name, expr) => {
                let mut out = String::from_str("int ");
                out.append(name);
                out.append(" {\n    ");
                let body = expr.to_string();
                out.append(body.as_str());
                out.append("\n}");
                assert(out@ =~= self.text());
                out
            },
        }
    }
}

} // verus!
