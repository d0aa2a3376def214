//! The container that collects statements and renders the whole design.

use crate::stmt::{Stmt, StmtModel};
use crate::text::{decimal, push_decimal};
use vstd::prelude::*;
use vstd::string::StringExecFns;

verus! {

/// What a module is: its name and its two lists of statements, each in the
/// order in which the statements were added.
pub struct ModuleModel {
    pub name: Seq<char>,
    pub combs: Seq<StmtModel>,
    pub syncs: Seq<StmtModel>,
}

/// The models of a run of statements, in the same order.
pub open spec fn models(stmts: Seq<Stmt>) -> Seq<StmtModel> {
    stmts.map_values(|s: Stmt| s@)
}

/// The lines of a run of statements, one after the other.
pub open spec fn lines(stmts: Seq<StmtModel>) -> Seq<char>
    decreases stmts.len(),
{
    if stmts.len() == 0 {
        Seq::empty()
    } else {
        lines(stmts.drop_last()) + stmts.last().text()
    }
}

impl ModuleModel {
    /// The module of the given name that holds no statement yet.
    pub open spec fn empty(name: Seq<char>) -> ModuleModel {
        ModuleModel { name, combs: Seq::empty(), syncs: Seq::empty() }
    }

    /// The module after `stmts` were added to its combinational list.
    pub open spec fn comb(self, stmts: Seq<StmtModel>) -> ModuleModel {
        ModuleModel { combs: self.combs + stmts, ..self }
    }

    /// The module after `stmts` were added to its synchronous list.
    pub open spec fn sync(self, stmts: Seq<StmtModel>) -> ModuleModel {
        ModuleModel { syncs: self.syncs + stmts, ..self }
    }

    /// The rendering of the module: a header line, then for each list a line
    /// with the number of its statements and the statements' own lines.
    pub open spec fn text(self) -> Seq<char> {
        "=== module "@ + self.name + " === \n"@ + decimal(self.combs.len()) + " comb(s)\n"@
            + lines(self.combs) + decimal(self.syncs.len()) + " sync(s)\n"@ + lines(self.syncs)
    }
}

/// The lines of two runs joined are the lines of the first followed by the
/// lines of the second.
pub proof fn lemma_lines_concat(xs: Seq<StmtModel>, ys: Seq<StmtModel>)
    ensures
        lines(xs + ys) == lines(xs) + lines(ys),
    decreases ys.len(),
{
    if ys.len() == 0 {
        assert(xs + ys =~= xs);
        assert(lines(xs) + lines(ys) =~= lines(xs));
    } else {
        lemma_lines_concat(xs, ys.drop_last());
        assert((xs + ys).drop_last() =~= xs + ys.drop_last());
        assert((xs + ys).last() == ys.last());
        assert(lines(xs + ys) =~= lines(xs) + lines(ys));
    }
}

/// Statements come out in the order in which they went in: adding `a` and
/// `b` in one step and `c` in a second leaves the list that was there,
/// followed by `a`, `b` and `c`; the rendering counts three more statements
/// and shows their lines in that order at the end of the combinational
/// section.
pub proof fn lemma_comb_keeps_order(m: ModuleModel, a: StmtModel, b: StmtModel, c: StmtModel)
    ensures
        m.comb(seq![a, b]).comb(seq![c]).combs == m.combs + seq![a, b, c],
        m.comb(seq![a, b]).comb(seq![c]).syncs == m.syncs,
        m.comb(seq![a, b]).comb(seq![c]).name == m.name,
        m.comb(seq![a, b]).comb(seq![c]).text() == "=== module "@ + m.name + " === \n"@ + decimal(
            m.combs.len() + 3,
        ) + " comb(s)\n"@ + lines(m.combs) + a.text() + b.text() + c.text() + decimal(
            m.syncs.len(),
        ) + " sync(s)\n"@ + lines(m.syncs),
{
    let after = m.comb(seq![a, b]).comb(seq![c]);
    assert(after.combs =~= m.combs + seq![a, b, c]);
    lemma_lines_concat(m.combs, seq![a, b, c]);
    let abc = seq![a, b, c];
    let ab = seq![a, b];
    let just_a = seq![a];
    assert(abc.drop_last() =~= ab);
    assert(ab.drop_last() =~= just_a);
    assert(just_a.drop_last() =~= Seq::<StmtModel>::empty());
    assert(lines(Seq::<StmtModel>::empty()) =~= Seq::<char>::empty());
    assert(lines(just_a) =~= a.text());
    assert(lines(ab) =~= a.text() + b.text());
    assert(lines(abc) =~= a.text() + b.text() + c.text());
    assert(after.text() =~= "=== module "@ + m.name + " === \n"@ + decimal(m.combs.len() + 3)
        + " comb(s)\n"@ + lines(m.combs) + a.text() + b.text() + c.text() + decimal(
        m.syncs.len(),
    ) + " sync(s)\n"@ + lines(m.syncs));
}

/// Adding in two steps is the same as adding everything at once.
pub proof fn lemma_comb_twice(m: ModuleModel, xs: Seq<StmtModel>, ys: Seq<StmtModel>)
    ensures
        m.comb(xs).comb(ys) == m.comb(xs + ys),
{
    assert((m.combs + xs) + ys =~= m.combs + (xs + ys));
}

/// Adding in two steps is the same as adding everything at once.
pub proof fn lemma_sync_twice(m: ModuleModel, xs: Seq<StmtModel>, ys: Seq<StmtModel>)
    ensures
        m.sync(xs).sync(ys) == m.sync(xs + ys),
{
    assert((m.syncs + xs) + ys =~= m.syncs + (xs + ys));
}

/// A named design: combinational and synchronous statements, each list in
/// the order of insertion.
pub struct Module {
    name: String,
    combs: Vec<Stmt>,
    syncs: Vec<Stmt>,
}

impl View for Module {
    type V = ModuleModel;

    closed spec fn view(&self) -> ModuleModel {
        ModuleModel { name: self.name@, combs: models(self.combs@), syncs: models(self.syncs@) }
    }
}

/// Appends a copy of each of `stmts` to `list`, in order.
fn extend(list: &mut Vec<Stmt>, stmts: &[Stmt])
    ensures
        final(list)@ == old(list)@ + stmts@,
{
    let mut i: usize = 0;
    while i < stmts.len()
        invariant
            i <= stmts@.len(),
            list@ == old(list)@ + stmts@.subrange(0, i as int),
        decreases stmts@.len() - i,
    {
        list.push(stmts[i].clone());
        assert(list@ =~= old(list)@ + stmts@.subrange(0, i + 1));
        i += 1;
    }
    assert(stmts@.subrange(0, i as int) =~= stmts@);
}

/// Appends the line of each of `stmts` to `out`, in order.
fn dump_all(stmts: &Vec<Stmt>, out: &mut String)
    ensures
        final(out)@ == old(out)@ + lines(models(stmts@)),
{
    let mut i: usize = 0;
    assert(models(stmts@).subrange(0, 0) =~= Seq::<StmtModel>::empty());
    assert(out@ =~= old(out)@ + lines(models(stmts@).subrange(0, 0)));
    while i < stmts.len()
        invariant
            i <= stmts@.len(),
            out@ == old(out)@ + lines(models(stmts@).subrange(0, i as int)),
        decreases stmts@.len() - i,
    {
        stmts[i].dump(out);
        proof {
            let upto = models(stmts@).subrange(0, i + 1);
            assert(upto.drop_last() =~= models(stmts@).subrange(0, i as int));
            assert(upto.last() == stmts@[i as int]@);
            assert(out@ =~= old(out)@ + lines(upto));
        }
        i += 1;
    }
    assert(models(stmts@).subrange(0, i as int) =~= models(stmts@));
}

impl Module {
    /// A module called `name` without statements.
    pub fn make(name: &str) -> (r: Module)
        ensures
            r@ == ModuleModel::empty(name@),
    {
        let r = Module { name: String::from_str(name), combs: Vec::new(), syncs: Vec::new() };
        assert(r@.combs =~= Seq::<StmtModel>::empty());
        assert(r@.syncs =~= Seq::<StmtModel>::empty());
        r
    }

    /// Appends the rendering of the module to `out`.
    pub fn dump(&self, out: &mut String)
        ensures
            final(out)@ == old(out)@ + self@.text(),
    {
        out.append("=== module ");
        out.append(self.name.as_str());
        out.append(" === \n");
        push_decimal(out, self.combs.len());
        out.append(" comb(s)\n");
        dump_all(&self.combs, out);
        push_decimal(out, self.syncs.len());
        out.append(" sync(s)\n");
        dump_all(&self.syncs, out);
        assert(out@ =~= old(out)@ + self@.text());
    }

    /// Adds a copy of each of `stmts`, in order, at the end of the
    /// combinational list.
    pub fn comb(&mut self, stmts: &[Stmt])
        ensures
            final(self)@ == old(self)@.comb(models(stmts@)),
    {
        extend(&mut self.combs, stmts);
        assert(models(self.combs@) =~= models(old(self).combs@) + models(stmts@));
    }

    /// Adds a copy of each of `stmts`, in order, at the end of the
    /// synchronous list.
    pub fn sync(&mut self, stmts: &[Stmt])
        ensures
            final(self)@ == old(self)@.sync(models(stmts@)),
    {
        extend(&mut self.syncs, stmts);
        assert(models(self.syncs@) =~= models(old(self).syncs@) + models(stmts@));
    }
}

} // verus!
