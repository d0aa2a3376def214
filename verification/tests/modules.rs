use hdl::{Expr, HdlError, Module, Resource, Signal, Stmt};

fn signal(name: &str, size: usize) -> Signal {
    match Signal::make(name, size) {
        Ok(s) => s,
        Err(e) => panic!("{:?}", e),
    }
}

fn text_of(m: &Module) -> String {
    let mut out = String::new();
    m.dump(&mut out);
    out
}

fn line_of(s: &Stmt) -> String {
    let mut out = String::new();
    s.dump(&mut out);
    out
}

#[test]
fn blinking_led() {
    let mut module = Module::make("top");
    let led0 = Resource::find("led0");
    let counter = signal("counter", 16);
    let top = counter.bit(-1).unwrap_or_else(|e| panic!("{:?}", e));
    module.comb(&[led0.o.eq(&top)]);
    module.sync(&[counter.eq(&(&counter + 1))]);
    let expected = "=== module top === \n\
                    1 comb(s)\n\
                    <Signal led0.o (1)> = counter[15]\n\
                    1 sync(s)\n\
                    <Signal counter (16)> = (counter + 1)\n";
    assert_eq!(text_of(&module), expected);
}

#[test]
fn empty_module() {
    let module = Module::make("m");
    assert_eq!(text_of(&module), "=== module m === \n0 comb(s)\n0 sync(s)\n");
}

#[test]
fn module_with_an_empty_name() {
    let module = Module::make("");
    assert_eq!(text_of(&module), "=== module  === \n0 comb(s)\n0 sync(s)\n");
}

#[test]
fn dump_leaves_the_module_as_it_was() {
    let mut module = Module::make("m");
    let a = signal("a", 2);
    module.comb(&[a.eq(&Expr::Constant(1))]);
    let first = text_of(&module);
    let second = text_of(&module);
    assert_eq!(first, second);
}

#[test]
fn dump_appends_to_the_sink() {
    let module = Module::make("m");
    let mut out = String::from("# design\n");
    module.dump(&mut out);
    assert_eq!(out, "# design\n=== module m === \n0 comb(s)\n0 sync(s)\n");
}

#[test]
fn comb_keeps_the_order_of_insertion() {
    let x = signal("x", 4);
    let a = x.eq(&Expr::Constant(1));
    let b = x.eq(&Expr::Constant(2));
    let c = x.eq(&Expr::Constant(3));
    let mut module = Module::make("m");
    module.comb(&[a, b]);
    module.comb(&[c]);
    let expected = "=== module m === \n\
                    3 comb(s)\n\
                    <Signal x (4)> = 1\n\
                    <Signal x (4)> = 2\n\
                    <Signal x (4)> = 3\n\
                    0 sync(s)\n";
    assert_eq!(text_of(&module), expected);
}

#[test]
fn sync_keeps_the_order_of_insertion() {
    let x = signal("x", 4);
    let a = x.eq(&Expr::Constant(1));
    let b = x.eq(&Expr::Constant(2));
    let c = x.eq(&Expr::Constant(3));
    let mut module = Module::make("m");
    module.sync(&[a]);
    module.sync(&[b, c]);
    let expected = "=== module m === \n\
                    0 comb(s)\n\
                    3 sync(s)\n\
                    <Signal x (4)> = 1\n\
                    <Signal x (4)> = 2\n\
                    <Signal x (4)> = 3\n";
    assert_eq!(text_of(&module), expected);
}

#[test]
fn the_two_lists_do_not_mix() {
    let x = signal("x", 4);
    let y = signal("y", 4);
    let mut module = Module::make("m");
    module.sync(&[y.eq(&x.expr())]);
    module.comb(&[x.eq(&y.expr())]);
    module.sync(&[y.eq(&Expr::Constant(0))]);
    let expected = "=== module m === \n\
                    1 comb(s)\n\
                    <Signal x (4)> = y\n\
                    2 sync(s)\n\
                    <Signal y (4)> = x\n\
                    <Signal y (4)> = 0\n";
    assert_eq!(text_of(&module), expected);
}

#[test]
fn adding_nothing_changes_nothing() {
    let x = signal("x", 4);
    let mut module = Module::make("m");
    module.comb(&[x.eq(&Expr::Constant(1))]);
    let before = text_of(&module);
    module.comb(&[]);
    module.sync(&[]);
    assert_eq!(text_of(&module), before);
}

#[test]
fn the_same_statement_may_stand_twice() {
    let x = signal("x", 4);
    let s = x.eq(&Expr::Constant(1));
    let mut module = Module::make("m");
    module.comb(&[s.clone(), s.clone()]);
    module.sync(&[s]);
    let expected = "=== module m === \n\
                    2 comb(s)\n\
                    <Signal x (4)> = 1\n\
                    <Signal x (4)> = 1\n\
                    1 sync(s)\n\
                    <Signal x (4)> = 1\n";
    assert_eq!(text_of(&module), expected);
}

#[test]
fn count_line_with_more_than_nine_statements() {
    let x = signal("x", 4);
    let mut module = Module::make("m");
    let mut i: isize = 0;
    while i < 12 {
        module.comb(&[x.eq(&Expr::Constant(i))]);
        i += 1;
    }
    let text = text_of(&module);
    assert!(text.starts_with("=== module m === \n12 comb(s)\n<Signal x (4)> = 0\n"));
    assert!(text.ends_with("<Signal x (4)> = 11\n0 sync(s)\n"));
    assert_eq!(text.lines().count(), 15);
}

#[test]
fn statement_line() {
    let x = signal("x", 4);
    let y = signal("y", 7);
    let s = x.eq(&(&y + -1));
    assert_eq!(line_of(&s), "<Signal x (4)> = (y + -1)\n");
}

#[test]
fn statement_holds_copies() {
    let x = signal("x", 4);
    let e = Expr::Constant(9);
    let s = x.eq(&e);
    match &s {
        Stmt::Eq(lv, rv) => {
            assert_eq!(lv.name(), "x");
            assert_eq!(lv.size(), 4);
            assert!(matches!(rv, Expr::Constant(9)));
        }
    }
    // Both operands are still there to be used again.
    let again = x.eq(&e);
    assert_eq!(line_of(&again), line_of(&s));
    assert_eq!(line_of(&s.clone()), "<Signal x (4)> = 9\n");
}

#[test]
fn resource_output_is_one_bit_named_after_the_pin() {
    let led0 = Resource::find("led0");
    assert_eq!(led0.name, "led0");
    assert_eq!(led0.o.name(), "led0.o");
    assert_eq!(led0.o.size(), 1);
}

#[test]
fn resource_is_found_for_any_name() {
    for name in ["", "a", "clk.p", "user led 3", "λ", "led0.o"] {
        let r = Resource::find(name);
        assert_eq!(r.name, name);
        assert_eq!(r.o.name(), format!("{}.o", name));
        assert_eq!(r.o.size(), 1);
    }
}

#[test]
fn resource_output_has_a_single_bit_to_select() {
    let r = Resource::find("btn");
    assert!(matches!(r.o.bit(0), Ok(Expr::Bit(_, 0))));
    assert!(matches!(r.o.bit(-1), Ok(Expr::Bit(_, 0))));
    assert_eq!(r.o.bit(1).err(), Some(HdlError::IndexOutOfRange));
    assert_eq!(r.o.bit(-2).err(), Some(HdlError::IndexOutOfRange));
}

#[test]
fn failed_construction_adds_no_statement() {
    let mut module = Module::make("m");
    let x = signal("x", 4);
    let attempt = x.bit(-5).map(|e| module.comb(&[x.eq(&e)]));
    assert_eq!(attempt.err(), Some(HdlError::IndexOutOfRange));
    assert_eq!(text_of(&module), "=== module m === \n0 comb(s)\n0 sync(s)\n");
}
