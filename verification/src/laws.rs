use vstd::prelude::*;

use crate::ast::{TyV, ExprV, StmtV, ItemV, ProgramV, FunctionDefV, ParamV, ComponentDefV};
use crate::checker_spec::{
    GlobalsV, FnSigV, StV, tc_check, soa_diags,
};
use crate::error::{DiagV, SourceLocation, spec_diag};
use crate::messages::{
    spec_msg_undef_var, spec_sugg_declare_var, spec_msg_frame_escape_var, spec_sugg_frame_escape,
    spec_msg_soa, spec_sugg_soa, spec_msg_for_collection, spec_sugg_for_collection,
};

verus! {

/// The empty global tables and empty per-function state: what a freshly
/// built checker holds.
pub open spec fn empty_globals() -> GlobalsV {
    GlobalsV {
        functions: Seq::<FnSigV>::empty(),
        structs: Seq::<Seq<char>>::empty(),
        components: Seq::<Seq<char>>::empty(),
    }
}

/// A function item with no parameters, a `void` return type, and the given
/// body.
pub open spec fn plain_fn(name: Seq<char>, ret: TyV, body: Seq<StmtV>) -> FunctionDefV {
    FunctionDefV {
        name,
        params: Seq::<ParamV>::empty(),
        return_type: ret,
        body,
        cuda_kernel: None,
    }
}

/// Diagnostic continuation: a program with exactly two independent
/// undefined-variable references in two different functions produces exactly
/// two diagnostics — one per reference, in program order — and the run
/// fails. One root cause never hides the other.
pub proof fn lemma_diagnostic_continuation(
    f1: Seq<char>,
    f2: Seq<char>,
    x1: Seq<char>,
    x2: Seq<char>,
    l1: SourceLocation,
    l2: SourceLocation,
    s1: SourceLocation,
    s2: SourceLocation,
)
    ensures
        ({
            let p = ProgramV {
                items: seq![
                    ItemV::Function(plain_fn(f1, TyV::Void,
                        seq![StmtV::Expression(ExprV::Variable(x1, l1), s1)])),
                    ItemV::Function(plain_fn(f2, TyV::Void,
                        seq![StmtV::Expression(ExprV::Variable(x2, l2), s2)])),
                ],
            };
            let m = tc_check(empty_globals(), Seq::<(Seq<char>, TyV)>::empty(),
                Seq::<Seq<char>>::empty(), p);
            &&& m.st.diags.len() == 2
            &&& m.st.diags[0] == spec_diag(l1, spec_msg_undef_var(x1), Some(spec_sugg_declare_var(x1)))
            &&& m.st.diags[1] == spec_diag(l2, spec_msg_undef_var(x2), Some(spec_sugg_declare_var(x2)))
        }),
{
    let p = ProgramV {
        items: seq![
            ItemV::Function(plain_fn(f1, TyV::Void,
                seq![StmtV::Expression(ExprV::Variable(x1, l1), s1)])),
            ItemV::Function(plain_fn(f2, TyV::Void,
                seq![StmtV::Expression(ExprV::Variable(x2, l2), s2)])),
        ],
    };
    let m = tc_check(empty_globals(), Seq::<(Seq<char>, TyV)>::empty(),
        Seq::<Seq<char>>::empty(), p);
    let d1 = spec_diag(l1, spec_msg_undef_var(x1), Some(spec_sugg_declare_var(x1)));
    let d2 = spec_diag(l2, spec_msg_undef_var(x2), Some(spec_sugg_declare_var(x2)));

    let fn1 = plain_fn(f1, TyV::Void, seq![StmtV::Expression(ExprV::Variable(x1, l1), s1)]);
    let fn2 = plain_fn(f2, TyV::Void, seq![StmtV::Expression(ExprV::Variable(x2, l2), s2)]);
    let g0 = empty_globals();

    // pass 1: both signatures are collected and no diagnostic arises
    let c0 = crate::checker_spec::collect_step(g0, Seq::<DiagV>::empty(), p.items[0]);
    assert(p.items[0] == ItemV::Function(fn1));
    assert(c0.diags == Seq::<DiagV>::empty());
    let c1 = crate::checker_spec::collect_step(c0.g, c0.diags, p.items[1]);
    assert(c1.diags == Seq::<DiagV>::empty());
    assert(crate::checker_spec::tc_collect(g0, Seq::<DiagV>::empty(), p.items, 0)
        == crate::checker_spec::tc_collect(c0.g, c0.diags, p.items, 1));
    assert(crate::checker_spec::tc_collect(c0.g, c0.diags, p.items, 1)
        == crate::checker_spec::tc_collect(c1.g, c1.diags, p.items, 2));
    assert(crate::checker_spec::tc_collect(c1.g, c1.diags, p.items, 2)
        == (crate::checker_spec::CollectRes { g: c1.g, diags: c1.diags }));

    // pass 2: one undefined-variable diagnostic per function
    let st0 = StV {
        symbols: Seq::<(Seq<char>, TyV)>::empty(),
        frames: Seq::<Seq<char>>::empty(),
        diags: Seq::<DiagV>::empty(),
    };
    lemma_undef_var_body(c1.g, st0, x1, l1, s1, TyV::Void);
    let st1 = crate::checker_spec::tc_fn(c1.g, st0, fn1);
    assert(st1.diags =~= seq![d1]);
    lemma_undef_var_body(c1.g, st1, x2, l2, s2, TyV::Void);
    let st2 = crate::checker_spec::tc_fn(c1.g, st1, fn2);
    assert(st2.diags =~= seq![d1, d2]);
    assert(crate::checker_spec::tc_pass2(c1.g, st0, p.items, 0)
        == crate::checker_spec::tc_pass2(c1.g, st1, p.items, 1));
    assert(crate::checker_spec::tc_pass2(c1.g, st1, p.items, 1)
        == crate::checker_spec::tc_pass2(c1.g, st2, p.items, 2));
    assert(crate::checker_spec::tc_pass2(c1.g, st2, p.items, 2) == st2);
    assert(m.st.diags == st2.diags);
}

/// Checking a function whose body is one bare reference to a variable that
/// is not in scope records exactly the undefined-variable diagnostic.
proof fn lemma_undef_var_body(
    g: GlobalsV,
    st: StV,
    x: Seq<char>,
    l: SourceLocation,
    s: SourceLocation,
    ret: TyV,
)
    ensures
        crate::checker_spec::tc_fn(g, st, plain_fn(arbitrary(), ret,
            seq![StmtV::Expression(ExprV::Variable(x, l), s)])).diags
            == st.diags.push(spec_diag(l, spec_msg_undef_var(x), Some(spec_sugg_declare_var(x)))),
        ({
            let f = plain_fn(arbitrary(), ret, seq![StmtV::Expression(ExprV::Variable(x, l), s)]);
            forall|f2: FunctionDefV| f2.params == f.params && f2.body == f.body
                && f2.return_type == f.return_type
                ==> #[trigger] crate::checker_spec::tc_fn(g, st, f2).diags
                    == st.diags.push(spec_diag(l, spec_msg_undef_var(x),
                        Some(spec_sugg_declare_var(x))))
        }),
{
    let f = plain_fn(arbitrary(), ret, seq![StmtV::Expression(ExprV::Variable(x, l), s)]);
    let sy0 = crate::checker_spec::params_table(f.params, 0, Seq::<(Seq<char>, TyV)>::empty());
    assert(sy0 =~= Seq::<(Seq<char>, TyV)>::empty());
    let st1 = StV { symbols: sy0, frames: Seq::<Seq<char>>::empty(), diags: st.diags };
    assert(crate::checker_spec::sym_keys(sy0) =~= Seq::<Seq<char>>::empty());
    let e = ExprV::Variable(x, l);
    let r = crate::checker_spec::tc_expr(g, st1, e);
    assert(r.st.diags == st.diags.push(spec_diag(l, spec_msg_undef_var(x),
        Some(spec_sugg_declare_var(x)))));
    let b = crate::checker_spec::tc_body(g, st1, ret, f.body, 0);
    assert(b == crate::checker_spec::tc_body(g, r.st, ret, f.body, 1));
    assert forall|f2: FunctionDefV| f2.params == f.params && f2.body == f.body
        && f2.return_type == f.return_type
        implies #[trigger] crate::checker_spec::tc_fn(g, st, f2).diags
            == st.diags.push(spec_diag(l, spec_msg_undef_var(x),
                Some(spec_sugg_declare_var(x)))) by {
        assert(crate::checker_spec::tc_fn(g, st, f2) == crate::checker_spec::tc_fn(g, st, f));
    }
}


/// Running the checker on a program that declares a single function: the
/// declaration is collected and then its body is checked.
proof fn lemma_check_single_fn(f: FunctionDefV)
    ensures
        ({
            let p = ProgramV { items: seq![ItemV::Function(f)] };
            let g1 = GlobalsV {
                functions: seq![crate::checker_spec::sig_of_fn(f)],
                structs: Seq::<Seq<char>>::empty(),
                components: Seq::<Seq<char>>::empty(),
            };
            let st0 = StV {
                symbols: Seq::<(Seq<char>, TyV)>::empty(),
                frames: Seq::<Seq<char>>::empty(),
                diags: Seq::<DiagV>::empty(),
            };
            tc_check(empty_globals(), Seq::<(Seq<char>, TyV)>::empty(),
                Seq::<Seq<char>>::empty(), p).st == crate::checker_spec::tc_fn(g1, st0, f)
        }),
{
    let p = ProgramV { items: seq![ItemV::Function(f)] };
    let g1 = GlobalsV {
        functions: seq![crate::checker_spec::sig_of_fn(f)],
        structs: Seq::<Seq<char>>::empty(),
        components: Seq::<Seq<char>>::empty(),
    };
    let st0 = StV {
        symbols: Seq::<(Seq<char>, TyV)>::empty(),
        frames: Seq::<Seq<char>>::empty(),
        diags: Seq::<DiagV>::empty(),
    };
    let c0 = crate::checker_spec::collect_step(empty_globals(), Seq::<DiagV>::empty(), p.items[0]);
    assert(c0.g.functions =~= seq![crate::checker_spec::sig_of_fn(f)]);
    assert(c0.g == g1);
    assert(c0.diags == Seq::<DiagV>::empty());
    assert(crate::checker_spec::tc_collect(empty_globals(), Seq::<DiagV>::empty(), p.items, 0)
        == crate::checker_spec::tc_collect(c0.g, c0.diags, p.items, 1));
    assert(crate::checker_spec::tc_collect(c0.g, c0.diags, p.items, 1)
        == (crate::checker_spec::CollectRes { g: c0.g, diags: c0.diags }));
    let st_f = crate::checker_spec::tc_fn(g1, st0, f);
    assert(crate::checker_spec::tc_pass2(g1, st0, p.items, 0)
        == crate::checker_spec::tc_pass2(g1, st_f, p.items, 1));
    assert(crate::checker_spec::tc_pass2(g1, st_f, p.items, 1) == st_f);
}

/// Escape analysis, negative half: a function that binds a frame allocation
/// and returns that variable directly fails with exactly the scope-escape
/// diagnostic.
pub proof fn lemma_escape_analysis_rejects(
    fname: Seq<char>,
    tp: TyV,
    v: Seq<char>,
    ll: SourceLocation,
    rl: SourceLocation,
    el: SourceLocation,
    ml: SourceLocation,
    vl: SourceLocation,
)
    requires
        !(tp is Error),
        v != "frame"@,
    ensures
        ({
            let alloc = ExprV::MemberAccess {
                object: Box::new(ExprV::Variable("frame"@, vl)),
                member: "alloc_array"@,
                location: ml,
            };
            let p = ProgramV {
                items: seq![
                    ItemV::Function(FunctionDefV {
                        name: fname,
                        params: seq![ParamV { name: "frame"@, ty: tp }],
                        return_type: TyV::F32,
                        body: seq![
                            StmtV::Let { name: v, ty: None, value: alloc, location: ll },
                            StmtV::Return(Some(ExprV::Variable(v, el)), rl),
                        ],
                        cuda_kernel: None,
                    }),
                ],
            };
            let m = tc_check(empty_globals(), Seq::<(Seq<char>, TyV)>::empty(),
                Seq::<Seq<char>>::empty(), p);
            m.st.diags == seq![
                spec_diag(rl, spec_msg_frame_escape_var(v), Some(spec_sugg_frame_escape())),
            ]
        }),
{
    reveal_strlit("alloc_array");
    reveal_strlit("unwrap");
    reveal_strlit("frame");
    assert("alloc_array"@.len() == 11);
    assert("unwrap"@.len() == 6);
    assert("alloc_array"@ != "unwrap"@);
    let alloc = ExprV::MemberAccess {
        object: Box::new(ExprV::Variable("frame"@, vl)),
        member: "alloc_array"@,
        location: ml,
    };
    let f = FunctionDefV {
        name: fname,
        params: seq![ParamV { name: "frame"@, ty: tp }],
        return_type: TyV::F32,
        body: seq![
            StmtV::Let { name: v, ty: None, value: alloc, location: ll },
            StmtV::Return(Some(ExprV::Variable(v, el)), rl),
        ],
        cuda_kernel: None,
    };
    lemma_check_single_fn(f);
    let g1 = GlobalsV {
        functions: seq![crate::checker_spec::sig_of_fn(f)],
        structs: Seq::<Seq<char>>::empty(),
        components: Seq::<Seq<char>>::empty(),
    };
    let st0 = StV {
        symbols: Seq::<(Seq<char>, TyV)>::empty(),
        frames: Seq::<Seq<char>>::empty(),
        diags: Seq::<DiagV>::empty(),
    };
    assert("alloc_array"@.len() == 11);
    assert("unwrap"@.len() == 6);
    let acc1 = crate::checker_spec::sym_insert(Seq::<(Seq<char>, TyV)>::empty(), "frame"@, tp);
    assert(acc1 =~= seq![("frame"@, tp)]);
    assert(crate::checker_spec::params_table(f.params, 1, acc1) == acc1);
    let sy0 = crate::checker_spec::params_table(f.params, 0, Seq::<(Seq<char>, TyV)>::empty());
    assert(sy0 == acc1);
    let st1 = StV { symbols: sy0, frames: Seq::<Seq<char>>::empty(), diags: Seq::<DiagV>::empty() };
    // the allocation types as F32 through the member access
    assert(crate::checker_spec::sym_find(sy0, "frame"@) == Some(tp));
    let r_obj = crate::checker_spec::tc_expr(g1, st1, ExprV::Variable("frame"@, vl));
    assert(r_obj == (crate::checker_spec::ExprRes { t: Some(tp), st: st1 }));
    let r_alloc = crate::checker_spec::tc_expr(g1, st1, alloc);
    assert(r_alloc == (crate::checker_spec::ExprRes { t: Some(TyV::F32), st: st1 }));
    // the let statement tags the variable as frame-scoped
    assert(crate::checker_spec::spec_is_frame_alloc(alloc));
    let sy1 = crate::checker_spec::sym_insert(sy0, v, TyV::F32);
    assert(crate::checker_spec::sym_insert_from(sy0, v, TyV::F32, 1) == sy0.push((v, TyV::F32)));
    assert(sy1 == sy0.push((v, TyV::F32)));
    assert(sy1 =~= seq![("frame"@, tp), (v, TyV::F32)]);
    let sr1 = crate::checker_spec::tc_stmt_ret(g1, st1, TyV::F32, f.body[0]);
    assert(sr1.st == (StV { symbols: sy1, frames: Seq::<Seq<char>>::empty().push(v),
        diags: Seq::<DiagV>::empty() }));
    // the return of the tagged variable is rejected
    assert(crate::checker_spec::sym_find_from(sy1, v, 1) == Some(TyV::F32));
    assert(crate::checker_spec::sym_find(sy1, v) == Some(TyV::F32));
    let r_v = crate::checker_spec::tc_expr(g1, sr1.st, ExprV::Variable(v, el));
    assert(r_v == (crate::checker_spec::ExprRes { t: Some(TyV::F32), st: sr1.st }));
    let d = spec_diag(rl, spec_msg_frame_escape_var(v), Some(spec_sugg_frame_escape()));
    let sr2 = crate::checker_spec::tc_stmt_ret(g1, sr1.st, TyV::F32, f.body[1]);
    assert(crate::checker_spec::names_contains(sr1.st.frames, v));
    assert(sr2.st.diags =~= seq![d]);
    assert(crate::checker_spec::tc_body(g1, st1, TyV::F32, f.body, 0)
        == crate::checker_spec::tc_body(g1, sr1.st, TyV::F32, f.body, 1));
    assert(crate::checker_spec::tc_body(g1, sr1.st, TyV::F32, f.body, 1)
        == crate::checker_spec::tc_body(g1, sr2.st, TyV::F32, f.body, 2));
    assert(crate::checker_spec::tc_body(g1, sr2.st, TyV::F32, f.body, 2) == sr2.st);
}

/// Escape analysis, positive half: the same shape of function that instead
/// returns a different, untagged local passes with no diagnostics.
#[verifier::rlimit(100)]
#[verifier::spinoff_prover]
pub proof fn lemma_escape_analysis_accepts(
    fname: Seq<char>,
    tp: TyV,
    v: Seq<char>,
    w: Seq<char>,
    n: i64,
    ll: SourceLocation,
    lw: SourceLocation,
    rl: SourceLocation,
    el: SourceLocation,
    ml: SourceLocation,
    vl: SourceLocation,
    nl: SourceLocation,
)
    requires
        !(tp is Error),
        v != "frame"@,
        w != "frame"@,
        w != v,
    ensures
        ({
            let alloc = ExprV::MemberAccess {
                object: Box::new(ExprV::Variable("frame"@, vl)),
                member: "alloc_array"@,
                location: ml,
            };
            let p = ProgramV {
                items: seq![
                    ItemV::Function(FunctionDefV {
                        name: fname,
                        params: seq![ParamV { name: "frame"@, ty: tp }],
                        return_type: TyV::I32,
                        body: seq![
                            StmtV::Let { name: v, ty: None, value: alloc, location: ll },
                            StmtV::Let {
                                name: w,
                                ty: None,
                                value: ExprV::Literal(crate::ast::LitV::Int(n), nl),
                                location: lw,
                            },
                            StmtV::Return(Some(ExprV::Variable(w, el)), rl),
                        ],
                        cuda_kernel: None,
                    }),
                ],
            };
            let m = tc_check(empty_globals(), Seq::<(Seq<char>, TyV)>::empty(),
                Seq::<Seq<char>>::empty(), p);
            m.st.diags.len() == 0
        }),
{
    reveal_strlit("alloc_array");
    reveal_strlit("unwrap");
    reveal_strlit("frame");
    assert("alloc_array"@.len() == 11);
    assert("unwrap"@.len() == 6);
    assert("alloc_array"@ != "unwrap"@);
    let alloc = ExprV::MemberAccess {
        object: Box::new(ExprV::Variable("frame"@, vl)),
        member: "alloc_array"@,
        location: ml,
    };
    let f = FunctionDefV {
        name: fname,
        params: seq![ParamV { name: "frame"@, ty: tp }],
        return_type: TyV::I32,
        body: seq![
            StmtV::Let { name: v, ty: None, value: alloc, location: ll },
            StmtV::Let {
                name: w,
                ty: None,
                value: ExprV::Literal(crate::ast::LitV::Int(n), nl),
                location: lw,
            },
            StmtV::Return(Some(ExprV::Variable(w, el)), rl),
        ],
        cuda_kernel: None,
    };
    lemma_check_single_fn(f);
    let g1 = GlobalsV {
        functions: seq![crate::checker_spec::sig_of_fn(f)],
        structs: Seq::<Seq<char>>::empty(),
        components: Seq::<Seq<char>>::empty(),
    };
    assert("alloc_array"@.len() == 11);
    assert("unwrap"@.len() == 6);
    let acc1 = crate::checker_spec::sym_insert(Seq::<(Seq<char>, TyV)>::empty(), "frame"@, tp);
    assert(acc1 =~= seq![("frame"@, tp)]);
    assert(crate::checker_spec::params_table(f.params, 1, acc1) == acc1);
    let sy0 = crate::checker_spec::params_table(f.params, 0, Seq::<(Seq<char>, TyV)>::empty());
    assert(sy0 == acc1);
    let st1 = StV { symbols: sy0, frames: Seq::<Seq<char>>::empty(), diags: Seq::<DiagV>::empty() };
    assert(crate::checker_spec::sym_find(sy0, "frame"@) == Some(tp));
    let r_obj = crate::checker_spec::tc_expr(g1, st1, ExprV::Variable("frame"@, vl));
    assert(r_obj == (crate::checker_spec::ExprRes { t: Some(tp), st: st1 }));
    let r_alloc = crate::checker_spec::tc_expr(g1, st1, alloc);
    assert(r_alloc == (crate::checker_spec::ExprRes { t: Some(TyV::F32), st: st1 }));
    assert(crate::checker_spec::spec_is_frame_alloc(alloc));
    let sy1 = crate::checker_spec::sym_insert(sy0, v, TyV::F32);
    assert(crate::checker_spec::sym_insert_from(sy0, v, TyV::F32, 1) == sy0.push((v, TyV::F32)));
    assert(sy1 == sy0.push((v, TyV::F32)));
    assert(sy1 =~= seq![("frame"@, tp), (v, TyV::F32)]);
    let sr1 = crate::checker_spec::tc_stmt_ret(g1, st1, TyV::I32, f.body[0]);
    assert(sr1.st == (StV { symbols: sy1, frames: Seq::<Seq<char>>::empty().push(v),
        diags: Seq::<DiagV>::empty() }));
    let lit = ExprV::Literal(crate::ast::LitV::Int(n), nl);
    assert(!crate::checker_spec::spec_is_frame_alloc(lit));
    let sy2 = crate::checker_spec::sym_insert(sy1, w, TyV::I32);
    assert(crate::checker_spec::sym_insert_from(sy1, w, TyV::I32, 2) == sy1.push((w, TyV::I32)));
    assert(crate::checker_spec::sym_insert_from(sy1, w, TyV::I32, 1)
        == crate::checker_spec::sym_insert_from(sy1, w, TyV::I32, 2));
    assert(sy2 == sy1.push((w, TyV::I32)));
    assert(sy2 =~= seq![("frame"@, tp), (v, TyV::F32), (w, TyV::I32)]);
    let sr2 = crate::checker_spec::tc_stmt_ret(g1, sr1.st, TyV::I32, f.body[1]);
    assert(sr2.st == (StV { symbols: sy2, frames: sr1.st.frames,
        diags: Seq::<DiagV>::empty() }));
    assert(crate::checker_spec::sym_find_from(sy2, w, 2) == Some(TyV::I32));
    assert(crate::checker_spec::sym_find_from(sy2, w, 1) == Some(TyV::I32));
    assert(crate::checker_spec::sym_find(sy2, w) == Some(TyV::I32));
    let r_w = crate::checker_spec::tc_expr(g1, sr2.st, ExprV::Variable(w, el));
    assert(r_w == (crate::checker_spec::ExprRes { t: Some(TyV::I32), st: sr2.st }));
    assert(crate::checker_spec::names_contains_from(sr1.st.frames, w, 1) == false);
    assert(!crate::checker_spec::names_contains(sr1.st.frames, w));
    let sr3 = crate::checker_spec::tc_stmt_ret(g1, sr2.st, TyV::I32, f.body[2]);
    assert(sr3.st.diags =~= Seq::<DiagV>::empty());
    assert(crate::checker_spec::tc_body(g1, st1, TyV::I32, f.body, 0)
        == crate::checker_spec::tc_body(g1, sr1.st, TyV::I32, f.body, 1));
    assert(crate::checker_spec::tc_body(g1, sr1.st, TyV::I32, f.body, 1)
        == crate::checker_spec::tc_body(g1, sr2.st, TyV::I32, f.body, 2));
    assert(crate::checker_spec::tc_body(g1, sr2.st, TyV::I32, f.body, 2)
        == crate::checker_spec::tc_body(g1, sr3.st, TyV::I32, f.body, 3));
    assert(crate::checker_spec::tc_body(g1, sr3.st, TyV::I32, f.body, 3) == sr3.st);
}

/// SOA validation: a structure-of-arrays component with any non-array field
/// makes the run fail, and the diagnostics include the corrective message
/// naming that field.
pub proof fn lemma_soa_validation(c: ComponentDefV, i: int)
    requires
        c.is_soa,
        0 <= i < c.fields.len(),
        !(c.fields[i].ty is Array),
    ensures
        ({
            let p = ProgramV { items: seq![ItemV::Component(c)] };
            let m = tc_check(empty_globals(), Seq::<(Seq<char>, TyV)>::empty(),
                Seq::<Seq<char>>::empty(), p);
            &&& m.st.diags.len() > 0
            &&& m.st.diags.contains(spec_diag(SourceLocation { line: 0, column: 0 },
                spec_msg_soa(c.name, c.fields[i].name),
                Some(spec_sugg_soa(c.fields[i].name, c.fields[i].ty))))
        }),
{
    lemma_soa_diags_contains(c, 0, Seq::<DiagV>::empty(), i);
    let p = ProgramV { items: seq![ItemV::Component(c)] };
    let m = tc_check(empty_globals(), Seq::<(Seq<char>, TyV)>::empty(),
        Seq::<Seq<char>>::empty(), p);
    let c0 = crate::checker_spec::collect_step(empty_globals(), Seq::<DiagV>::empty(), p.items[0]);
    assert(c0.diags == soa_diags(c, 0, Seq::<DiagV>::empty()));
    assert(crate::checker_spec::tc_collect(empty_globals(), Seq::<DiagV>::empty(), p.items, 0)
        == crate::checker_spec::tc_collect(c0.g, c0.diags, p.items, 1));
    assert(crate::checker_spec::tc_collect(c0.g, c0.diags, p.items, 1)
        == (crate::checker_spec::CollectRes { g: c0.g, diags: c0.diags }));
    let st0 = StV {
        symbols: Seq::<(Seq<char>, TyV)>::empty(),
        frames: Seq::<Seq<char>>::empty(),
        diags: c0.diags,
    };
    assert(crate::checker_spec::tc_pass2(c0.g, st0, p.items, 0)
        == crate::checker_spec::tc_pass2(c0.g, st0, p.items, 1));
    assert(crate::checker_spec::tc_pass2(c0.g, st0, p.items, 1) == st0);
    assert(m.st.diags == soa_diags(c, 0, Seq::<DiagV>::empty()));
}

/// Every diagnostic already recorded stays, and the diagnostic for each
/// non-array field at or past the scan position appears in the result.
proof fn lemma_soa_diags_contains(c: ComponentDefV, j: int, ds: Seq<DiagV>, i: int)
    requires
        0 <= j <= i < c.fields.len(),
        !(c.fields[i].ty is Array),
    ensures
        soa_diags(c, j, ds).contains(spec_diag(SourceLocation { line: 0, column: 0 },
            spec_msg_soa(c.name, c.fields[i].name),
            Some(spec_sugg_soa(c.fields[i].name, c.fields[i].ty)))),
        soa_diags(c, j, ds).len() > ds.len(),
    decreases c.fields.len() - j,
{
    let d = spec_diag(SourceLocation { line: 0, column: 0 },
        spec_msg_soa(c.name, c.fields[i].name),
        Some(spec_sugg_soa(c.fields[i].name, c.fields[i].ty)));
    if i == j {
        lemma_soa_diags_extends(c, j + 1, ds.push(d));
        assert(ds.push(d)[ds.len() as int] == d);
        assert(ds.push(d).contains(d));
    } else {
        let ds2 = if !(c.fields[j].ty is Array) {
            ds.push(spec_diag(SourceLocation { line: 0, column: 0 },
                spec_msg_soa(c.name, c.fields[j].name),
                Some(spec_sugg_soa(c.fields[j].name, c.fields[j].ty))))
        } else {
            ds
        };
        lemma_soa_diags_contains(c, j + 1, ds2, i);
    }
}

/// The scan only appends: whatever is in the list stays in the result.
proof fn lemma_soa_diags_extends(c: ComponentDefV, j: int, ds: Seq<DiagV>)
    ensures
        forall|d: DiagV| ds.contains(d) ==> soa_diags(c, j, ds).contains(d),
        soa_diags(c, j, ds).len() >= ds.len(),
    decreases c.fields.len() - j,
{
    if 0 <= j < c.fields.len() {
        let ds2 = if !(c.fields[j].ty is Array) {
            ds.push(spec_diag(SourceLocation { line: 0, column: 0 },
                spec_msg_soa(c.name, c.fields[j].name),
                Some(spec_sugg_soa(c.fields[j].name, c.fields[j].ty))))
        } else {
            ds
        };
        lemma_soa_diags_extends(c, j + 1, ds2);
        assert forall|d: DiagV| ds.contains(d) implies soa_diags(c, j, ds).contains(d) by {
            let k = choose|k: int| 0 <= k < ds.len() && ds[k] == d;
            assert(ds2[k] == d);
            assert(ds2.contains(d));
        }
    }
}

/// Iterating over a non-query collection: a `for` loop whose collection has
/// any type other than a query (or the poison type) is rejected with exactly
/// the query-type diagnostic and its corrective suggestion.
pub proof fn lemma_for_requires_query(
    fname: Seq<char>,
    q: Seq<char>,
    tp: TyV,
    it: Seq<char>,
    fl: SourceLocation,
    cl: SourceLocation,
)
    requires
        !(tp is Query),
        !(tp is Error),
    ensures
        ({
            let p = ProgramV {
                items: seq![
                    ItemV::Function(FunctionDefV {
                        name: fname,
                        params: seq![ParamV { name: q, ty: tp }],
                        return_type: TyV::Void,
                        body: seq![
                            StmtV::For {
                                iterator: it,
                                collection: ExprV::Variable(q, cl),
                                body: Seq::<StmtV>::empty(),
                                location: fl,
                            },
                        ],
                        cuda_kernel: None,
                    }),
                ],
            };
            let m = tc_check(empty_globals(), Seq::<(Seq<char>, TyV)>::empty(),
                Seq::<Seq<char>>::empty(), p);
            m.st.diags == seq![
                spec_diag(fl, spec_msg_for_collection(tp), Some(spec_sugg_for_collection())),
            ]
        }),
{
    let p = ProgramV {
        items: seq![
            ItemV::Function(FunctionDefV {
                name: fname,
                params: seq![ParamV { name: q, ty: tp }],
                return_type: TyV::Void,
                body: seq![
                    StmtV::For {
                        iterator: it,
                        collection: ExprV::Variable(q, cl),
                        body: Seq::<StmtV>::empty(),
                        location: fl,
                    },
                ],
                cuda_kernel: None,
            }),
        ],
    };
    let m = tc_check(empty_globals(), Seq::<(Seq<char>, TyV)>::empty(),
        Seq::<Seq<char>>::empty(), p);
    let f = FunctionDefV {
        name: fname,
        params: seq![ParamV { name: q, ty: tp }],
        return_type: TyV::Void,
        body: seq![
            StmtV::For {
                iterator: it,
                collection: ExprV::Variable(q, cl),
                body: Seq::<StmtV>::empty(),
                location: fl,
            },
        ],
        cuda_kernel: None,
    };
    lemma_check_single_fn(f);
    let g1 = GlobalsV {
        functions: seq![crate::checker_spec::sig_of_fn(f)],
        structs: Seq::<Seq<char>>::empty(),
        components: Seq::<Seq<char>>::empty(),
    };
    let acc1 = crate::checker_spec::sym_insert(Seq::<(Seq<char>, TyV)>::empty(), q, tp);
    assert(acc1 =~= seq![(q, tp)]);
    assert(crate::checker_spec::params_table(f.params, 1, acc1) == acc1);
    let sy0 = crate::checker_spec::params_table(f.params, 0, Seq::<(Seq<char>, TyV)>::empty());
    assert(sy0 == acc1);
    let st1 = StV { symbols: sy0, frames: Seq::<Seq<char>>::empty(), diags: Seq::<DiagV>::empty() };
    assert(crate::checker_spec::sym_find(sy0, q) == Some(tp));
    let r_q = crate::checker_spec::tc_expr(g1, st1, ExprV::Variable(q, cl));
    assert(r_q == (crate::checker_spec::ExprRes { t: Some(tp), st: st1 }));
    let d = spec_diag(fl, spec_msg_for_collection(tp), Some(spec_sugg_for_collection()));
    let sr1 = crate::checker_spec::tc_stmt_ret(g1, st1, TyV::Void, f.body[0]);
    assert(sr1.st.diags =~= seq![d]);
    assert(crate::checker_spec::tc_body(g1, st1, TyV::Void, f.body, 0)
        == crate::checker_spec::tc_body(g1, sr1.st, TyV::Void, f.body, 1));
    assert(crate::checker_spec::tc_body(g1, sr1.st, TyV::Void, f.body, 1) == sr1.st);
    assert(m.st.diags =~= seq![d]);
}

} // verus!
