use rs_lox_tw::pipeline::run_source;

fn run_expecting(source: &str, expected: &[&str]) {
    let (output, err) = run_source(source);
    if let Some(e) = err {
        panic!("unexpected error: {}", e.message());
    }
    let got: Vec<&str> = output.iter().map(|s| s.as_str()).collect();
    assert_eq!(got, expected);
}

#[test]
fn closures_capture_lexical_scope() {
    let source = "var a = \"global\";
{ fun showA(){ print a; } showA(); var a = \"block\"; showA(); }";
    run_expecting(source, &["global", "global"]);
}

#[test]
fn arithmetic_and_string_concat() {
    run_expecting(
        "print 1 + 2; print \"foo\" + \"bar\"; print 3 * 4 - 5;",
        &["3", "foobar", "7"],
    );
}

#[test]
fn fibonacci_via_recursion() {
    run_expecting(
        "fun fib(n){ if (n < 2) return n; return fib(n-1)+fib(n-2); } print fib(10);",
        &["55"],
    );
}

#[test]
fn class_with_init_and_method() {
    let source = "class Greeter{ init(n){ this.name = n; } hello(){ print \"hi \" + this.name; } }
Greeter(\"world\").hello();";
    run_expecting(source, &["hi world"]);
}

#[test]
fn inheritance_and_super() {
    let source = "class A{ speak(){ print \"A\"; } } class B < A{ speak(){ super.speak(); print \"B\"; } } B().speak();";
    run_expecting(source, &["A", "B"]);
}

#[test]
fn short_circuit_returns_operand_not_boolean() {
    run_expecting("print nil or \"x\"; print 1 and 2;", &["x", "2"]);
}

#[test]
fn for_loop_desugars_to_while() {
    run_expecting(
        "for (var i = 0; i < 3; i = i + 1) print i;",
        &["0", "1", "2"],
    );
}

#[test]
fn block_scoping_shadows_and_restores() {
    run_expecting(
        "var a = 1; { var a = 2; print a; } print a;",
        &["2", "1"],
    );
}

#[test]
fn while_loop_counts() {
    run_expecting(
        "var i = 0; while (i < 3) { print i; i = i + 1; }",
        &["0", "1", "2"],
    );
}

#[test]
fn method_binding_behaves_identically_each_time() {
    // Binding the same method twice gives two callables with the same
    // behaviour on the same arguments.
    let source = "class C { init(){ this.n = 0; } bump(k){ this.n = this.n + k; print this.n; } }
var c = C(); var f = c.bump; var g = c.bump; f(2); g(2);";
    run_expecting(source, &["2", "4"]);
}

#[test]
fn init_called_explicitly_returns_the_instance() {
    // An explicit init call yields the same object, also when the body has
    // a bare return.
    let source = "class F { init(){ this.x = 1; return; } }
var a = F(); var b = a.init(); print a == b;";
    run_expecting(source, &["true"]);
}

#[test]
fn fields_are_per_instance() {
    let source = "class P { init(n){ this.n = n; } }
var a = P(1); var b = P(2); print a.n; print b.n;";
    run_expecting(source, &["1", "2"]);
}

#[test]
fn instances_share_identity_through_copies() {
    let source = "class P {} var a = P(); var b = a; b.x = 7; print a.x;";
    run_expecting(source, &["7"]);
}

#[test]
fn number_division_and_fractions() {
    run_expecting("print 1 / 2; print 3.5 + 1.25;", &["0.5", "4.75"]);
}

#[test]
fn ieee_equality_of_numbers() {
    // 0/0 is NaN, which is unequal even to itself; -0 equals 0.
    run_expecting("print 0/0 == 0/0; print -0 == 0;", &["false", "true"]);
}

#[test]
fn truthiness_of_zero_and_empty_string() {
    run_expecting(
        "if (0) print \"zero\"; if (\"\") print \"empty\"; if (nil) print \"nil\"; print \"done\";",
        &["zero", "empty", "done"],
    );
}

#[test]
fn equality_is_structural_without_conversion() {
    run_expecting(
        "print 1 == 1; print \"a\" == \"a\"; print 1 == \"1\"; print nil == nil; print true == 1;",
        &["true", "true", "false", "true", "false"],
    );
}

#[test]
fn printed_forms_of_objects() {
    let source = "fun f(){} class A {} var a = A(); print f; print A; print a; print clock;";
    run_expecting(
        source,
        &["<fn f>", "<class A>", "<A instance>", "<native fn>"],
    );
}

#[test]
fn comments_and_multiline_strings() {
    run_expecting("// nothing here\nprint \"a\nb\";", &["a\nb"]);
}

#[test]
fn keywords_do_not_swallow_identifiers() {
    run_expecting("var superb = 1; print superb;", &["1"]);
}

#[test]
fn clock_yields_a_number() {
    run_expecting("print clock() >= 0;", &["true"]);
}

#[test]
fn later_global_var_may_shadow_earlier() {
    run_expecting("var x = 1; var x = 2; print x;", &["2"]);
}

#[test]
fn comparison_operators() {
    run_expecting(
        "print 1 < 2; print 2 <= 2; print 3 > 4; print 4 >= 4; print 1 != 2;",
        &["true", "true", "false", "true", "true"],
    );
}

#[test]
fn unary_operators() {
    run_expecting("print -(3); print !nil; print !0; print --4;", &["-3", "true", "false", "4"]);
}

#[test]
fn nested_closures_keep_their_counter() {
    let source = "fun makeCounter(){ var n = 0; fun inc(){ n = n + 1; print n; } return inc; }
var c = makeCounter(); c(); c(); var d = makeCounter(); d();";
    run_expecting(source, &["1", "2", "1"]);
}

#[test]
fn empty_program_runs_silently() {
    run_expecting("", &[]);
}

#[test]
fn property_chains_read_and_write() {
    let source = "class B { init(){ this.c = 1; } } class A { init(){ this.b = B(); } }
var a = A(); a.b.c = 3; print a.b.c;";
    run_expecting(source, &["3"]);
}

#[test]
fn field_overwrite_keeps_the_last_value() {
    run_expecting(
        "class C {} var c = C(); c.x = 1; c.x = 2; print c.x;",
        &["2"],
    );
}

#[test]
fn fields_shadow_methods_on_reads() {
    let source = "class C { tag(){ print \"method\"; } }
var c = C(); c.tag(); c.tag = \"field\"; print c.tag;";
    run_expecting(source, &["method", "field"]);
}

#[test]
fn grouped_callee_is_called() {
    run_expecting("fun f(){ print \"ok\"; } (f)();", &["ok"]);
}

#[test]
fn inherited_methods_are_found_on_the_chain() {
    let source = "class A { hi(){ print \"hi\"; } } class B < A {} B().hi();";
    run_expecting(source, &["hi"]);
}
