//! Expressions over signals, their widths, and bit selection.

use crate::error::HdlError;
use crate::signal::{Signal, SignalModel, Where};
use crate::text::{decimal, magnitude, push_decimal, push_signed_decimal, signed_decimal};
use vstd::prelude::*;
use vstd::std_specs::ops::AddSpecImpl;
use vstd::string::StringExecFns;

verus! {

/// What an expression is.
pub enum ExprModel {
    Signal(SignalModel),
    Constant(int),
    Bit(Box<ExprModel>, nat),
    Add(Box<ExprModel>, Box<ExprModel>),
}

/// The bit position that the index `ix` denotes in a value of the given
/// width, if the width is known.
///
/// With a known width, an index from zero up counts from the lowest bit and
/// a negative one counts back from the top, and the position must be one of
/// the value's bits. Without a known width only an index from zero up can
/// be resolved, and it stands for itself.
pub open spec fn resolve_index(width: Option<nat>, ix: int) -> Result<nat, HdlError> {
    match width {
        Some(w) => {
            let at = if ix >= 0 {
                ix
            } else {
                w + ix
            };
            if 0 <= at < w {
                Ok(at as nat)
            } else {
                Err(HdlError::IndexOutOfRange)
            }
        },
        None => if ix >= 0 {
            Ok(ix as nat)
        } else {
            Err(HdlError::WidthUndefined)
        },
    }
}

impl ExprModel {
    /// The number of bits of the expression's value. A constant has none of
    /// its own, a selected bit has one, and a sum is as wide as the wider of
    /// its operands.
    pub open spec fn width(self) -> Result<nat, HdlError>
        decreases self,
    {
        match self {
            ExprModel::Signal(s) => Ok(s.size),
            ExprModel::Constant(_) => Err(HdlError::WidthUndefined),
            ExprModel::Bit(_, _) => Ok(1),
            ExprModel::Add(l, r) => match (l.width(), r.width()) {
                (Ok(a), Ok(b)) => Ok(
                    if a >= b {
                        a
                    } else {
                        b
                    },
                ),
                _ => Err(HdlError::WidthUndefined),
            },
        }
    }

    /// The width as far as it is known.
    pub open spec fn known_width(self) -> Option<nat> {
        match self.width() {
            Ok(w) => Some(w),
            Err(_) => None,
        }
    }

    /// The selection of the bit that `ix` denotes in this expression.
    pub open spec fn bit(self, ix: int) -> Result<ExprModel, HdlError> {
        match resolve_index(self.known_width(), ix) {
            Ok(at) => Ok(ExprModel::Bit(Box::new(self), at)),
            Err(e) => Err(e),
        }
    }

    /// The sum of this expression and the constant `c`.
    pub open spec fn plus(self, c: int) -> ExprModel {
        ExprModel::Add(Box::new(self), Box::new(ExprModel::Constant(c)))
    }

    /// The expression's text where it is read.
    pub open spec fn text(self) -> Seq<char>
        decreases self,
    {
        match self {
            ExprModel::Signal(s) => s.text(Where::Rv),
            ExprModel::Constant(c) => signed_decimal(c),
            ExprModel::Bit(e, i) => e.text() + "["@ + decimal(i) + "]"@,
            ExprModel::Add(l, r) => "("@ + l.text() + " + "@ + r.text() + ")"@,
        }
    }
}

/// On a signal of at least one bit, the index `-1` selects the same bit as
/// the index of the top bit, one less than the signal's width.
pub proof fn lemma_minus_one_is_top_bit(s: SignalModel)
    requires
        s.wf(),
    ensures
        ExprModel::Signal(s).bit(-1) == ExprModel::Signal(s).bit(s.size - 1),
        ExprModel::Signal(s).bit(-1) == Ok::<ExprModel, HdlError>(
            ExprModel::Bit(Box::new(ExprModel::Signal(s)), (s.size - 1) as nat),
        ),
{
}

/// On a signal of `n` bits, the index `-k` selects bit `n - k` as long as
/// `k` is between one and `n`, and is out of range for every larger `k`.
pub proof fn lemma_negative_index(s: SignalModel, k: int)
    requires
        k >= 1,
    ensures
        k <= s.size ==> ExprModel::Signal(s).bit(-k) == Ok::<ExprModel, HdlError>(
            ExprModel::Bit(Box::new(ExprModel::Signal(s)), (s.size - k) as nat),
        ),
        k > s.size ==> ExprModel::Signal(s).bit(-k) == Err::<ExprModel, HdlError>(
            HdlError::IndexOutOfRange,
        ),
{
}

/// A selected bit is one bit wide, whatever it was selected from and
/// whatever its position.
pub proof fn lemma_bit_width(e: ExprModel, i: nat)
    ensures
        ExprModel::Bit(Box::new(e), i).width() == Ok::<nat, HdlError>(1),
{
}

/// Every selection that `bit` accepts is one bit wide.
pub proof fn lemma_selection_width(e: ExprModel, ix: int)
    ensures
        match e.bit(ix) {
            Ok(b) => b.width() == Ok::<nat, HdlError>(1),
            Err(_) => true,
        },
{
}

/// A sum of two expressions that have a width is as wide as the wider of
/// the two. Nothing is added for a carry.
pub proof fn lemma_add_width(l: ExprModel, r: ExprModel)
    requires
        l.width() is Ok,
        r.width() is Ok,
    ensures
        ExprModel::Add(Box::new(l), Box::new(r)).width() == Ok::<nat, HdlError>(
            if l.width()->Ok_0 >= r.width()->Ok_0 {
                l.width()->Ok_0
            } else {
                r.width()->Ok_0
            },
        ),
{
}

/// A sum has no width as soon as one of its operands has none.
pub proof fn lemma_add_width_undefined(l: ExprModel, r: ExprModel)
    requires
        l.width() is Err || r.width() is Err,
    ensures
        ExprModel::Add(Box::new(l), Box::new(r)).width() == Err::<nat, HdlError>(
            HdlError::WidthUndefined,
        ),
{
}

/// No constant has a width.
pub proof fn lemma_constant_width(c: int)
    ensures
        ExprModel::Constant(c).width() == Err::<nat, HdlError>(HdlError::WidthUndefined),
{
}

/// A term over signals and integer constants.
pub enum Expr {
    Signal(Signal),
    Constant(isize),
    Bit(Box<Expr>, usize),
    Add(Box<Expr>, Box<Expr>),
}

impl View for Expr {
    type V = ExprModel;

    open spec fn view(&self) -> ExprModel
        decreases self,
    {
        match self {
            Expr::Signal(s) => ExprModel::Signal(s@),
            Expr::Constant(c) => ExprModel::Constant(*c as int),
            Expr::Bit(e, i) => ExprModel::Bit(Box::new((**e)@), *i as nat),
            Expr::Add(l, r) => ExprModel::Add(Box::new((**l)@), Box::new((**r)@)),
        }
    }
}

impl Clone for Expr {
    fn clone(&self) -> (r: Self)
        ensures
            r == *self,
        decreases self,
    {
        match self {
            Expr::Signal(s) => Expr::Signal(s.clone()),
            Expr::Constant(c) => Expr::Constant(*c),
            Expr::Bit(e, i) => {
                let inner: &Expr = &**e;
                Expr::Bit(Box::new(inner.clone()), *i)
            },
            Expr::Add(l, r) => {
                let left: &Expr = &**l;
                let right: &Expr = &**r;
                Expr::Add(Box::new(left.clone()), Box::new(right.clone()))
            },
        }
    }
}

/// A machine width as a natural number.
pub open spec fn widen(width: Option<usize>) -> Option<nat> {
    match width {
        Some(w) => Some(w as nat),
        None => None,
    }
}

/// Resolves the index `ix` against a value of the given width, if that
/// width is known.
pub fn resolve(width: Option<usize>, ix: isize) -> (r: Result<usize, HdlError>)
    ensures
        match r {
            Ok(at) => resolve_index(widen(width), ix as int) == Ok::<nat, HdlError>(at as nat),
            Err(e) => resolve_index(widen(width), ix as int) == Err::<nat, HdlError>(e),
        },
{
    match width {
        Some(w) => {
            if ix >= 0 {
                if (ix as usize) < w {
                    Ok(ix as usize)
                } else {
                    Err(HdlError::IndexOutOfRange)
                }
            } else {
                let back: usize = magnitude(ix);
                if back <= w {
                    Ok(w - back)
                } else {
                    Err(HdlError::IndexOutOfRange)
                }
            }
        },
        None => {
            if ix >= 0 {
                Ok(ix as usize)
            } else {
                Err(HdlError::WidthUndefined)
            }
        },
    }
}

impl Expr {
    /// A copy of the expression on the heap.
    pub fn boxed(&self) -> (r: Box<Expr>)
        ensures
            *r == *self,
    {
        Box::new(self.clone())
    }

    /// Appends the expression's text to `out`.
    pub fn dump(&self, out: &mut String)
        ensures
            final(out)@ == old(out)@ + self@.text(),
        decreases self,
    {
        match self {
            Expr::Signal(s) => {
                s.dump(Where::Rv, out);
            },
            Expr::Constant(c) => {
                push_signed_decimal(out, *c);
            },
            Expr::Bit(e, ix) => {
                let inner: &Expr = &**e;
                inner.dump(out);
                out.append("[");
                push_decimal(out, *ix);
                out.append("]");
            },
            Expr::Add(l, r) => {
                let left: &Expr = &**l;
                let right: &Expr = &**r;
                out.append("(");
                left.dump(out);
                out.append(" + ");
                right.dump(out);
                out.append(")");
            },
        }
        assert(out@ =~= old(out)@ + self@.text());
    }

    /// The number of bits of the expression's value, or the reason why it
    /// has none.
    pub fn size(&self) -> (r: Result<usize, HdlError>)
        ensures
            match r {
                Ok(w) => self@.width() == Ok::<nat, HdlError>(w as nat),
                Err(e) => self@.width() == Err::<nat, HdlError>(e),
            },
        decreases self,
    {
        match self {
            Expr::Signal(s) => Ok(s.size()),
            Expr::Constant(_) => Err(HdlError::WidthUndefined),
            Expr::Bit(_, _) => Ok(1),
            Expr::Add(l, r) => {
                let left: &Expr = &**l;
                let right: &Expr = &**r;
                match (left.size(), right.size()) {
                    (Ok(a), Ok(b)) => Ok(
                        if a >= b {
                            a
                        } else {
                            b
                        },
                    ),
                    _ => Err(HdlError::WidthUndefined),
                }
            },
        }
    }

    /// The expression that selects one bit of this one. A negative `ix`
    /// counts back from the top bit, which needs the width of this
    /// expression; where the width is known, the position must be one of
    /// its bits.
    pub fn bit(&self, ix: isize) -> (r: Result<Expr, HdlError>)
        ensures
            match r {
                Ok(e) => self@.bit(ix as int) == Ok::<ExprModel, HdlError>(e@),
                Err(err) => self@.bit(ix as int) == Err::<ExprModel, HdlError>(err),
            },
    {
        let width: Option<usize> = match self.size() {
            Ok(w) => Some(w),
            Err(_) => None,
        };
        match resolve(width, ix) {
            Ok(at) => Ok(Expr::Bit(self.boxed(), at)),
            Err(e) => Err(e),
        }
    }
}

impl core::ops::Add<isize> for Expr {
    type Output = Expr;

    /// The sum of this expression and the constant `rhs`.
    fn add(self, rhs: isize) -> (r: Expr)
        ensures
            r@ == self@.plus(rhs as int),
    {
        let c = Expr::Constant(rhs);
        assert(c@ == ExprModel::Constant(rhs as int));
        Expr::Add(Box::new(self), Box::new(c))
    }
}

impl AddSpecImpl<isize> for Expr {
    open spec fn obeys_add_spec() -> bool {
        true
    }

    open spec fn add_req(self, rhs: isize) -> bool {
        true
    }

    open spec fn add_spec(self, rhs: isize) -> Expr {
        Expr::Add(Box::new(self), Box::new(Expr::Constant(rhs)))
    }
}

impl core::ops::Add<isize> for &Signal {
    type Output = Expr;

    /// The sum of this signal and the constant `rhs`.
    fn add(self, rhs: isize) -> (r: Expr)
        ensures
            r@ == ExprModel::Signal(self@).plus(rhs as int),
    {
        self.expr() + rhs
    }
}

impl AddSpecImpl<isize> for &Signal {
    open spec fn obeys_add_spec() -> bool {
        true
    }

    open spec fn add_req(self, rhs: isize) -> bool {
        true
    }

    open spec fn add_spec(self, rhs: isize) -> Expr {
        Expr::Add(Box::new(Expr::Signal(*self)), Box::new(Expr::Constant(rhs)))
    }
}

} // verus!
