//! Assignment statements.

use crate::expr::{Expr, ExprModel};
use crate::signal::{Signal, SignalModel, Where};
use vstd::prelude::*;
use vstd::string::StringExecFns;

verus! {

/// What a statement is: the signal driven and the expression driving it.
pub enum StmtModel {
    Eq(SignalModel, ExprModel),
}

impl StmtModel {
    /// The statement's line of text, newline included.
    pub open spec fn text(self) -> Seq<char> {
        match self {
            StmtModel::Eq(lv, rv) => lv.text(Where::Lv) + " = "@ + rv.text() + "\n"@,
        }
    }
}

/// An assignment of an expression to a signal.
pub enum Stmt {
    Eq(Signal, Expr),
}

impl View for Stmt {
    type V = StmtModel;

    open spec fn view(&self) -> StmtModel {
        match self {
            Stmt::Eq(lv, rv) => StmtModel::Eq(lv@, rv@),
        }
    }
}

impl Clone for Stmt {
    fn clone(&self) -> (r: Self)
        ensures
            r == *self,
    {
        match self {
            Stmt::Eq(lv, rv) => Stmt::Eq(lv.clone(), rv.clone()),
        }
    }
}

impl Stmt {
    /// Appends the statement's line to `out`.
    pub fn dump(&self, out: &mut String)
        ensures
            final(out)@ == old(out)@ + self@.text(),
    {
        match self {
            Stmt::Eq(lv, rv) => {
                lv.dump(Where::Lv, out);
                out.append(" = ");
                rv.dump(out);
                out.append("\n");
            },
        }
        assert(out@ =~= old(out)@ + self@.text());
    }
}

} // verus!
