//! Named bit-vector signals.

use crate::error::HdlError;
use crate::expr::{Expr, ExprModel};
use crate::stmt::{Stmt, StmtModel};
use crate::text::{decimal, push_decimal};
use vstd::prelude::*;
use vstd::string::StringExecFns;

verus! {

/// Where a signal stands in a statement: on the left as the thing driven, or
/// on the right as a value that is read.
pub enum Where {
    Lv,
    Rv,
}

/// What a signal is: its name and its number of bits.
pub struct SignalModel {
    pub name: Seq<char>,
    pub size: nat,
}

impl SignalModel {
    /// A signal has at least one bit.
    pub open spec fn wf(self) -> bool {
        self.size >= 1
    }

    /// The text of the signal at the given place: the bare name where it is
    /// read, and `<Signal name (size)>` where it is driven.
    pub open spec fn text(self, loc: Where) -> Seq<char> {
        match loc {
            Where::Lv => "<Signal "@ + self.name + " ("@ + decimal(self.size) + ")>"@,
            Where::Rv => self.name,
        }
    }
}

/// A named bit vector of fixed width. Copies are independent values.
pub struct Signal {
    name: String,
    size: usize,
}

impl View for Signal {
    type V = SignalModel;

    closed spec fn view(&self) -> SignalModel {
        SignalModel { name: self.name@, size: self.size as nat }
    }
}

impl Clone for Signal {
    fn clone(&self) -> (r: Self)
        ensures
            r == *self,
    {
        proof {
            use_type_invariant(self);
        }
        Signal { name: self.name.clone(), size: self.size }
    }
}

impl Signal {
    #[verifier::type_invariant]
    spec fn inv(self) -> bool {
        self.size >= 1
    }

    /// A signal of `size` bits under the given name, where `size` is known
    /// to be positive.
    pub(crate) fn with_name(name: String, size: usize) -> (r: Signal)
        requires
            size >= 1,
        ensures
            r@ == (SignalModel { name: name@, size: size as nat }),
    {
        Signal { name, size }
    }

    /// A signal of `size` bits called `name`. A signal without bits is
    /// refused.
    pub fn make(name: &str, size: usize) -> (r: Result<Signal, HdlError>)
        ensures
            match r {
                Ok(s) => size >= 1 && s@ == (SignalModel { name: name@, size: size as nat }),
                Err(e) => size == 0 && e == HdlError::InvalidWidth,
            },
    {
        if size == 0 {
            Err(HdlError::InvalidWidth)
        } else {
            Ok(Signal::with_name(String::from_str(name), size))
        }
    }

    /// The signal's name.
    pub fn name(&self) -> (r: &str)
        ensures
            r@ == self@.name,
    {
        self.name.as_str()
    }

    /// The signal's number of bits, which is never zero.
    pub fn size(&self) -> (r: usize)
        ensures
            r == self@.size,
            self@.wf(),
    {
        proof {
            use_type_invariant(self);
        }
        self.size
    }

    /// Appends the signal's text for the place `loc` to `out`.
    pub fn dump(&self, loc: Where, out: &mut String)
        ensures
            final(out)@ == old(out)@ + self@.text(loc),
    {
        match loc {
            Where::Lv => {
                out.append("<Signal ");
                out.append(self.name.as_str());
                out.append(" (");
                push_decimal(out, self.size);
                out.append(")>");
                assert(out@ =~= old(out)@ + self@.text(loc));
            },
            Where::Rv => {
                out.append(self.name.as_str());
            },
        }
    }

    /// The statement that drives this signal with `rhs`.
    pub fn eq(&self, rhs: &Expr) -> (r: Stmt)
        ensures
            r@ == StmtModel::Eq(self@, rhs@),
    {
        Stmt::Eq(self.clone(), rhs.clone())
    }

    /// The expression that reads this signal.
    pub fn expr(&self) -> (r: Expr)
        ensures
            r == Expr::Signal(*self),
            r@ == ExprModel::Signal(self@),
    {
        Expr::Signal(self.clone())
    }

    /// The expression that selects one bit of this signal. A negative `ix`
    /// counts back from the top bit.
    pub fn bit(&self, ix: isize) -> (r: Result<Expr, HdlError>)
        ensures
            match r {
                Ok(e) => ExprModel::Signal(self@).bit(ix as int) == Ok::<ExprModel, HdlError>(e@),
                Err(err) => ExprModel::Signal(self@).bit(ix as int) == Err::<ExprModel, HdlError>(
                    err,
                ),
            },
    {
        self.expr().bit(ix)
    }
}

} // verus!
