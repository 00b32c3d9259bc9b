use vstd::prelude::*;

use crate::ast::{
    Type, TyV, vty, Expression, ExprV, vexpr, Statement, StmtV, vstmt, Program, vprogram,
    FunctionDef, Param, clone_type, Pattern, StringInterpolationPart, Literal, BinaryOp, UnaryOp,
    MatchArm, vexpr_vec, vstmt_vec, varm_vec, varm, vpattern, vlit, spec_expr_loc,
    lemma_vexpr_vec, lemma_vstmt_vec, lemma_varm_vec, lemma_vty_shape, lemma_vpattern_is_variable,
    lemma_vexpr_is_variable,
};
use crate::checker_spec::{
    FnSigV, GlobalsV, StV, sym_find, sym_insert, sym_remove, sym_keys, fn_find, fn_insert,
    fn_names, names_contains, names_insert, sym_find_from, sym_insert_from, sym_remove_from,
    fn_find_from, fn_insert_from, names_contains_from, spec_is_frame_alloc,
    tc_expr, tc_interp, tc_arm, tc_arms, tc_args_strict, tc_call_args, tc_array_elems, tc_call,
    lit_type, is_numeric, is_stringable, with_diag, with_symbols, ExprRes, StmtRes,
    tc_stmt, tc_stmt_ret, tc_stmts_swallow, tc_stmts_strict, tc_return_frame_check,
    spec_var_suggestion, spec_interp_suggestion, spec_fn_suggestion,
};
use crate::compat::{spec_compat, compat, spec_ty_str, ty_str, spec_suggest_value, suggest_value};
use crate::error::{Diagnostic, DiagV, diags_view, SourceLocation, spec_diag, ErrorReporter, spec_render};
use crate::messages::{
    msg_interp_type, msg_interp_undef, sugg_interp_closest, sugg_declare_var, msg_undef_var,
    sugg_var_closest, msg_arith, msg_logic, msg_neg, msg_not, msg_undef_fn, sugg_fn_closest,
    sugg_declare_fn, msg_arity, sugg_arity, msg_arg_mismatch, sugg_arg_mismatch, msg_unwrap,
    msg_index, msg_array_elem, sugg_array_elem, msg_undef_struct, sugg_declare_struct,
    msg_let_mismatch, sugg_let_mismatch, msg_assign_mismatch, sugg_assign_mismatch,
    msg_if_cond, msg_while_cond, msg_for_collection, msg_return_mismatch, sugg_return_value,
    msg_frame_escape_var, msg_return_missing,
};
use crate::suggest::{str_contains, find_closest_match};
use crate::text::str_eq;

verus! {

// ---------------------------------------------------------------------------
// Declaration tables
// ---------------------------------------------------------------------------

/// A callable signature: what a call is checked against.
pub struct FnSig {
    pub name: String,
    pub params: Vec<Type>,
    pub return_type: Type,
}

pub open spec fn vsig(f: FnSig) -> FnSigV {
    FnSigV {
        name: f.name@,
        params: f.params@.map_values(|t: Type| vty(t)),
        ret: vty(f.return_type),
    }
}

pub open spec fn vsigs(v: Seq<FnSig>) -> Seq<FnSigV> {
    v.map_values(|f: FnSig| vsig(f))
}

pub open spec fn vsyms(v: Seq<(String, Type)>) -> Seq<(Seq<char>, TyV)> {
    v.map_values(|p: (String, Type)| (p.0@, vty(p.1)))
}

pub open spec fn vnames(v: Seq<String>) -> Seq<Seq<char>> {
    v.map_values(|s: String| s@)
}

/// Clones a list of parameter types.
fn clone_types(v: &Vec<Type>) -> (r: Vec<Type>)
    ensures
        r@.map_values(|t: Type| vty(t)) == v@.map_values(|t: Type| vty(t)),
{
    let mut out: Vec<Type> = Vec::new();
    let mut i: usize = 0;
    while i < v.len()
        invariant
            i <= v@.len(),
            out@.len() == i,
            forall|j: int| 0 <= j < i ==> vty(out@[j]) == vty(v@[j]),
        decreases v@.len() - i,
    {
        out.push(clone_type(&v[i]));
        i = i + 1;
    }
    proof {
        assert(out@.map_values(|t: Type| vty(t)) =~= v@.map_values(|t: Type| vty(t)));
    }
    out
}

/// The declared types of a parameter list.
fn param_types(ps: &Vec<Param>) -> (r: Vec<Type>)
    ensures
        r@.map_values(|t: Type| vty(t))
            == ps@.map_values(|p: Param| crate::ast::vparam(p)).map_values(|p: crate::ast::ParamV| p.ty),
{
    let mut out: Vec<Type> = Vec::new();
    let mut i: usize = 0;
    while i < ps.len()
        invariant
            i <= ps@.len(),
            out@.len() == i,
            forall|j: int| 0 <= j < i ==> vty(out@[j]) == vty(ps@[j].ty),
        decreases ps@.len() - i,
    {
        out.push(clone_type(&ps[i].ty));
        i = i + 1;
    }
    proof {
        assert(out@.map_values(|t: Type| vty(t))
            =~= ps@.map_values(|p: Param| crate::ast::vparam(p)).map_values(|p: crate::ast::ParamV| p.ty));
    }
    out
}

impl FnSig {
    fn clone_sig(&self) -> (r: FnSig)
        ensures
            vsig(r) == vsig(*self),
    {
        FnSig {
            name: self.name.clone(),
            params: clone_types(&self.params),
            return_type: clone_type(&self.return_type),
        }
    }
}

// -- executable table operations, each mirroring its specification --

fn sym_find_exec(sy: &Vec<(String, Type)>, n: &String) -> (r: Option<Type>)
    ensures
        (match r {
            Some(t) => Some(vty(t)),
            None => None,
        }) == sym_find(vsyms(sy@), n@),
{
    let mut i: usize = 0;
    while i < sy.len()
        invariant
            i <= sy@.len(),
            sym_find_from(vsyms(sy@), n@, i as int) == sym_find(vsyms(sy@), n@),
        decreases sy@.len() - i,
    {
        if sy[i].0 == *n {
            return Some(clone_type(&sy[i].1));
        }
        i = i + 1;
    }
    None
}

fn sym_insert_exec(sy: &mut Vec<(String, Type)>, n: String, t: Type)
    ensures
        vsyms(final(sy)@) == sym_insert(vsyms(old(sy)@), n@, vty(t)),
{
    let mut i: usize = 0;
    while i < sy.len()
        invariant
            i <= sy@.len(),
            sy@ == old(sy)@,
            sym_insert_from(vsyms(sy@), n@, vty(t), i as int) == sym_insert(vsyms(old(sy)@), n@, vty(t)),
        decreases sy@.len() - i,
    {
        if sy[i].0 == n {
            sy[i] = (n, t);
            proof {
                assert(vsyms(sy@) =~= sym_insert(vsyms(old(sy)@), n@, vty(t)));
            }
            return;
        }
        i = i + 1;
    }
    sy.push((n, t));
    proof {
        assert(vsyms(sy@) =~= sym_insert(vsyms(old(sy)@), n@, vty(t)));
    }
}

fn sym_remove_exec(sy: &mut Vec<(String, Type)>, n: &String)
    ensures
        vsyms(final(sy)@) == sym_remove(vsyms(old(sy)@), n@),
{
    let mut i: usize = 0;
    while i < sy.len()
        invariant
            i <= sy@.len(),
            sy@ == old(sy)@,
            sym_remove_from(vsyms(sy@), n@, i as int) == sym_remove(vsyms(old(sy)@), n@),
        decreases sy@.len() - i,
    {
        if sy[i].0 == *n {
            sy.remove(i);
            proof {
                assert(vsyms(sy@) =~= sym_remove(vsyms(old(sy)@), n@));
            }
            return;
        }
        i = i + 1;
    }
}

fn clone_symbols(sy: &Vec<(String, Type)>) -> (r: Vec<(String, Type)>)
    ensures
        vsyms(r@) == vsyms(sy@),
{
    let mut out: Vec<(String, Type)> = Vec::new();
    let mut i: usize = 0;
    while i < sy.len()
        invariant
            i <= sy@.len(),
            out@.len() == i,
            forall|j: int| 0 <= j < i
                ==> out@[j].0@ == sy@[j].0@ && vty(out@[j].1) == vty(sy@[j].1),
        decreases sy@.len() - i,
    {
        out.push((sy[i].0.clone(), clone_type(&sy[i].1)));
        i = i + 1;
    }
    proof {
        assert(vsyms(out@) =~= vsyms(sy@));
    }
    out
}

fn sym_keys_exec(sy: &Vec<(String, Type)>) -> (r: Vec<String>)
    ensures
        vnames(r@) == sym_keys(vsyms(sy@)),
{
    let mut out: Vec<String> = Vec::new();
    let mut i: usize = 0;
    while i < sy.len()
        invariant
            i <= sy@.len(),
            out@.len() == i,
            forall|j: int| 0 <= j < i ==> out@[j]@ == sy@[j].0@,
        decreases sy@.len() - i,
    {
        out.push(sy[i].0.clone());
        i = i + 1;
    }
    proof {
        assert(vnames(out@) =~= sym_keys(vsyms(sy@)));
    }
    out
}

fn fn_find_exec(fns: &Vec<FnSig>, n: &String) -> (r: Option<FnSig>)
    ensures
        (match r {
            Some(f) => Some(vsig(f)),
            None => None,
        }) == fn_find(vsigs(fns@), n@),
{
    let mut i: usize = 0;
    while i < fns.len()
        invariant
            i <= fns@.len(),
            fn_find_from(vsigs(fns@), n@, i as int) == fn_find(vsigs(fns@), n@),
        decreases fns@.len() - i,
    {
        if fns[i].name == *n {
            return Some(fns[i].clone_sig());
        }
        i = i + 1;
    }
    None
}

fn fn_insert_exec(fns: &mut Vec<FnSig>, sig: FnSig)
    ensures
        vsigs(final(fns)@) == fn_insert(vsigs(old(fns)@), vsig(sig)),
{
    let mut i: usize = 0;
    while i < fns.len()
        invariant
            i <= fns@.len(),
            fns@ == old(fns)@,
            fn_insert_from(vsigs(fns@), vsig(sig), i as int) == fn_insert(vsigs(old(fns)@), vsig(sig)),
        decreases fns@.len() - i,
    {
        if fns[i].name == sig.name {
            fns[i] = sig;
            proof {
                assert(vsigs(fns@) =~= fn_insert(vsigs(old(fns)@), vsig(sig)));
            }
            return;
        }
        i = i + 1;
    }
    fns.push(sig);
    proof {
        assert(vsigs(fns@) =~= fn_insert(vsigs(old(fns)@), vsig(sig)));
    }
}

fn fn_names_exec(fns: &Vec<FnSig>) -> (r: Vec<String>)
    ensures
        vnames(r@) == fn_names(vsigs(fns@)),
{
    let mut out: Vec<String> = Vec::new();
    let mut i: usize = 0;
    while i < fns.len()
        invariant
            i <= fns@.len(),
            out@.len() == i,
            forall|j: int| 0 <= j < i ==> out@[j]@ == fns@[j].name@,
        decreases fns@.len() - i,
    {
        out.push(fns[i].name.clone());
        i = i + 1;
    }
    proof {
        assert(vnames(out@) =~= fn_names(vsigs(fns@)));
    }
    out
}

fn names_contains_exec(ns: &Vec<String>, n: &String) -> (r: bool)
    ensures
        r == names_contains(vnames(ns@), n@),
{
    let mut i: usize = 0;
    while i < ns.len()
        invariant
            i <= ns@.len(),
            names_contains_from(vnames(ns@), n@, i as int) == names_contains(vnames(ns@), n@),
        decreases ns@.len() - i,
    {
        if ns[i] == *n {
            return true;
        }
        i = i + 1;
    }
    false
}

fn names_insert_exec(ns: &mut Vec<String>, n: String)
    ensures
        vnames(final(ns)@) == names_insert(vnames(old(ns)@), n@),
{
    if !names_contains_exec(ns, &n) {
        ns.push(n);
        proof {
            assert(vnames(ns@) =~= names_insert(vnames(old(ns)@), n@));
        }
    }
}

// ---------------------------------------------------------------------------
// The checker
// ---------------------------------------------------------------------------

/// The failure summary of a whole checking run: the number of diagnostics
/// that were recorded.
pub struct CheckError {
    pub count: usize,
}

impl CheckError {
    /// The failure line the compiler driver prints.
    pub fn message(&self) -> (r: String)
        ensures
            r@ == "Compilation failed with "@ + crate::text::spec_dec(self.count as nat)
                + " error(s). See errors above."@,
    {
        let mut s = String::from_str("Compilation failed with ");
        let c = crate::text::usize_dec(self.count);
        s.append(c.as_str());
        s.append(" error(s). See errors above.");
        s
    }
}

/// The two-pass type checker: global declaration tables, the per-function
/// symbol table, the frame-scope set of the escape analysis, and the
/// accumulated diagnostics.
pub struct TypeChecker {
    symbols: Vec<(String, Type)>,
    functions: Vec<FnSig>,
    structs: Vec<String>,
    components: Vec<String>,
    errors: Vec<Diagnostic>,
    error_reporter: Option<ErrorReporter>,
    frame_scoped_vars: Vec<String>,
}

impl TypeChecker {
    /// The global tables, mathematically.
    pub closed spec fn g_v(&self) -> GlobalsV {
        GlobalsV {
            functions: vsigs(self.functions@),
            structs: vnames(self.structs@),
            components: vnames(self.components@),
        }
    }

    /// The per-function state and diagnostics, mathematically.
    pub closed spec fn st_v(&self) -> StV {
        StV {
            symbols: vsyms(self.symbols@),
            frames: vnames(self.frame_scoped_vars@),
            diags: diags_view(self.errors@),
        }
    }

    /// The stored reporter's file path and source lines, if one was set.
    pub closed spec fn reporter_v(&self) -> Option<(Seq<char>, Seq<Seq<char>>)> {
        match self.error_reporter {
            Some(rep) => Some((rep.file_v(), rep.lines_v())),
            None => None,
        }
    }

    pub fn new() -> (r: Self)
        ensures
            r.g_v() == (GlobalsV {
                functions: Seq::<FnSigV>::empty(),
                structs: Seq::<Seq<char>>::empty(),
                components: Seq::<Seq<char>>::empty(),
            }),
            r.st_v() == (StV {
                symbols: Seq::<(Seq<char>, TyV)>::empty(),
                frames: Seq::<Seq<char>>::empty(),
                diags: Seq::<DiagV>::empty(),
            }),
            r.reporter_v() is None,
    {
        let r = TypeChecker {
            symbols: Vec::new(),
            functions: Vec::new(),
            structs: Vec::new(),
            components: Vec::new(),
            errors: Vec::new(),
            error_reporter: None,
            frame_scoped_vars: Vec::new(),
        };
        proof {
            assert(vsigs(r.functions@) =~= Seq::<FnSigV>::empty());
            assert(vnames(r.structs@) =~= Seq::<Seq<char>>::empty());
            assert(vnames(r.components@) =~= Seq::<Seq<char>>::empty());
            assert(vsyms(r.symbols@) =~= Seq::<(Seq<char>, TyV)>::empty());
            assert(vnames(r.frame_scoped_vars@) =~= Seq::<Seq<char>>::empty());
            assert(diags_view(r.errors@) =~= Seq::<DiagV>::empty());
        }
        r
    }

    /// Stores the reporter used to render the recorded diagnostics.
    pub fn set_error_reporter(&mut self, reporter: ErrorReporter)
        ensures
            final(self).g_v() == old(self).g_v(),
            final(self).st_v() == old(self).st_v(),
            final(self).reporter_v() == Some((reporter.file_v(), reporter.lines_v())),
    {
        self.error_reporter = Some(reporter);
    }

    /// The diagnostics recorded so far, in the order they were found.
    pub fn errors(&self) -> (r: &Vec<Diagnostic>)
        ensures
            diags_view(r@) == self.st_v().diags,
    {
        &self.errors
    }

    /// Renders every recorded diagnostic through the stored reporter; with
    /// no reporter set, nothing is rendered.
    pub fn rendered_errors(&self) -> (r: Vec<String>)
        ensures
            match self.reporter_v() {
                Some(rep) => {
                    &&& r@.len() == self.st_v().diags.len()
                    &&& forall|i: int| 0 <= i < r@.len()
                        ==> r@[i]@ == spec_render(rep.0, rep.1, self.st_v().diags[i])
                },
                None => r@.len() == 0,
            },
    {
        let mut out: Vec<String> = Vec::new();
        match &self.error_reporter {
            None => out,
            Some(rep) => {
                let mut i: usize = 0;
                while i < self.errors.len()
                    invariant
                        i <= self.errors@.len(),
                        out@.len() == i,
                        self.reporter_v() == Some((rep.file_v(), rep.lines_v())),
                        self.st_v().diags.len() == self.errors@.len(),
                        forall|j: int| 0 <= j < i
                            ==> out@[j]@ == spec_render(rep.file_v(), rep.lines_v(), self.st_v().diags[j]),
                    decreases self.errors@.len() - i,
                {
                    let block = rep.render(&self.errors[i]);
                    out.push(block);
                    i = i + 1;
                }
                out
            },
        }
    }

    /// Records one diagnostic.
    fn report(&mut self, location: SourceLocation, message: String, suggestion: Option<String>)
        ensures
            final(self).g_v() == old(self).g_v(),
            final(self).reporter_v() == old(self).reporter_v(),
            final(self).st_v() == (StV {
                symbols: old(self).st_v().symbols,
                frames: old(self).st_v().frames,
                diags: old(self).st_v().diags.push(spec_diag(location, message@, match suggestion {
                    Some(s) => Some(s@),
                    None => None,
                })),
            }),
    {
        let d = Diagnostic {
            location,
            message,
            suggestion,
            secondary_location: None,
            secondary_label: None,
        };
        self.errors.push(d);
        proof {
            assert(diags_view(self.errors@) =~= diags_view(old(self).errors@).push(
                self.errors@.last()@));
        }
    }

    /// Records one diagnostic that carries a secondary location.
    fn report_with_secondary(
        &mut self,
        location: SourceLocation,
        message: String,
        suggestion: Option<String>,
        secondary_location: Option<SourceLocation>,
        secondary_label: Option<String>,
    )
        ensures
            final(self).g_v() == old(self).g_v(),
            final(self).reporter_v() == old(self).reporter_v(),
            final(self).st_v() == (StV {
                symbols: old(self).st_v().symbols,
                frames: old(self).st_v().frames,
                diags: old(self).st_v().diags.push(DiagV {
                    loc: location,
                    msg: message@,
                    sugg: match suggestion { Some(s) => Some(s@), None => None },
                    sec_loc: secondary_location,
                    sec_label: match secondary_label { Some(s) => Some(s@), None => None },
                }),
            }),
    {
        let d = Diagnostic {
            location,
            message,
            suggestion,
            secondary_location,
            secondary_label,
        };
        self.errors.push(d);
        proof {
            assert(diags_view(self.errors@) =~= diags_view(old(self).errors@).push(
                self.errors@.last()@));
        }
    }

    /// Renders a type as source text.
    fn type_to_string(&self, ty: &Type) -> (r: String)
        ensures
            r@ == spec_ty_str(vty(*ty)),
    {
        ty_str(ty)
    }

    /// The example value offered in suggestions.
    fn suggest_value_for_type(&self, ty: &Type) -> (r: String)
        ensures
            r@ == spec_suggest_value(vty(*ty)),
    {
        suggest_value(ty)
    }

    /// Decides whether `actual` may stand where `expected` is wanted.
    pub fn types_compatible(&self, expected: &Type, actual: &Type) -> (r: bool)
        ensures
            r == spec_compat(vty(*expected), vty(*actual)),
    {
        compat(expected, actual)
    }

    /// Recognizes the frame-allocation pattern of the escape analysis.
    fn is_frame_alloc_expression(&self, expr: &Expression) -> (r: bool)
        ensures
            r == spec_is_frame_alloc(vexpr(*expr)),
    {
        match expr {
            Expression::MemberAccess { object, member, .. } => {
                proof {
                    crate::ast::lemma_vexpr_is_variable(**object);
                }
                if str_eq(member.as_str(), "alloc_array") {
                    match &**object {
                        Expression::Variable(var_name, ..) => str_eq(var_name.as_str(), "frame"),
                        _ => false,
                    }
                } else {
                    false
                }
            },
            Expression::Call { name, .. } => str_contains(name.as_str(), "alloc_array"),
            _ => false,
        }
    }

    /// The suggestion for an undefined variable: the closest name in scope,
    /// or the declaration syntax.
    fn var_suggestion(&self, name: &String) -> (r: String)
        ensures
            r@ == spec_var_suggestion(name@, self.st_v().symbols),
    {
        let candidates = sym_keys_exec(&self.symbols);
        match find_closest_match(name.as_str(), candidates.as_slice(), 3) {
            Some(closest) => sugg_var_closest(closest.as_str()),
            None => sugg_declare_var(name.as_str()),
        }
    }

    /// The suggestion for an undefined variable inside an interpolation.
    fn interp_suggestion(&self, name: &String) -> (r: String)
        ensures
            r@ == spec_interp_suggestion(name@, self.st_v().symbols),
    {
        let candidates = sym_keys_exec(&self.symbols);
        match find_closest_match(name.as_str(), candidates.as_slice(), 3) {
            Some(closest) => sugg_interp_closest(closest.as_str()),
            None => sugg_declare_var(name.as_str()),
        }
    }

    /// The suggestion for an undefined function: the closest known callable,
    /// or the declaration syntax.
    fn fn_suggestion(&self, name: &String) -> (r: String)
        ensures
            r@ == spec_fn_suggestion(name@, self.g_v().functions),
    {
        let candidates = fn_names_exec(&self.functions);
        match find_closest_match(name.as_str(), candidates.as_slice(), 3) {
            Some(closest) => sugg_fn_closest(closest.as_str()),
            None => sugg_declare_fn(name.as_str()),
        }
    }

    /// Checks the first `upto` argument expressions in order, stopping at
    /// the first failure.
    #[verifier::loop_isolation(false)]
    fn check_args_prefix(&mut self, args: &Vec<Expression>, upto: usize) -> (r: Result<(), ()>)
        requires
            upto <= args@.len(),
        ensures
            ({
                let m = tc_args_strict(old(self).g_v(), old(self).st_v(), vexpr_vec(*args, 0), 0, upto as int);
                &&& final(self).g_v() == old(self).g_v()
                &&& final(self).reporter_v() == old(self).reporter_v()
                &&& final(self).st_v() == m.st
                &&& (match r {
                    Ok(_) => m.t is Some,
                    Err(_) => m.t is None,
                })
            }),
        decreases *args, 0nat, 0nat,
    {
        let ghost g0 = self.g_v();
        let ghost st0 = self.st_v();
        let ghost argsv = vexpr_vec(*args, 0);
        proof {
            lemma_vexpr_vec(*args, 0);
        }
        let mut i: usize = 0;
        while i < upto
            invariant
                i <= upto <= args@.len(),
                self.g_v() == g0,
                self.reporter_v() == old(self).reporter_v(),
                argsv == vexpr_vec(*args, 0),
                argsv.len() == args@.len(),
                forall|j: int| 0 <= j < args@.len() ==> argsv[j] == vexpr(args@[j]),
                tc_args_strict(g0, self.st_v(), argsv, i as int, upto as int)
                    == tc_args_strict(g0, st0, argsv, 0, upto as int),
            decreases upto - i,
        {
            proof {
                broadcast use vstd::std_specs::vec::axiom_vec_index_decreases;
                assert(decreases_to!(*args => args@[i as int]));
            }
            let ghost st_i = self.st_v();
            match self.check_expression(&args[i]) {
                Ok(_) => {
                    proof {
                        assert(tc_args_strict(g0, st_i, argsv, i as int, upto as int)
                            == tc_args_strict(g0, self.st_v(), argsv, i + 1, upto as int));
                    }
                },
                Err(e) => {
                    proof {
                        assert(tc_args_strict(g0, st_i, argsv, i as int, upto as int)
                            == (ExprRes { t: None, st: self.st_v() }));
                    }
                    return Err(e);
                },
            }
            i = i + 1;
        }
        proof {
            assert(tc_args_strict(g0, self.st_v(), argsv, upto as int, upto as int)
                == (ExprRes { t: Some(TyV::Void), st: self.st_v() }));
        }
        Ok(())
    }

    /// Walks the variable references of an interpolated string: each must be
    /// in scope with a type that can be rendered as text.
    #[verifier::loop_isolation(false)]
    fn check_interpolation(&mut self, parts: &Vec<StringInterpolationPart>, location: SourceLocation)
        ensures
            final(self).g_v() == old(self).g_v(),
            final(self).reporter_v() == old(self).reporter_v(),
            final(self).st_v() == tc_interp(old(self).st_v(),
                parts@.map_values(|p: StringInterpolationPart| crate::ast::vpart(p)), location, 0),
    {
        let ghost g0 = self.g_v();
        let ghost st0 = self.st_v();
        let ghost partsv = parts@.map_values(|p: StringInterpolationPart| crate::ast::vpart(p));
        let mut i: usize = 0;
        while i < parts.len()
            invariant
                i <= parts@.len(),
                self.g_v() == g0,
                self.reporter_v() == old(self).reporter_v(),
                partsv == parts@.map_values(|p: StringInterpolationPart| crate::ast::vpart(p)),
                partsv.len() == parts@.len(),
                tc_interp(self.st_v(), partsv, location, i as int)
                    == tc_interp(st0, partsv, location, 0),
            decreases parts@.len() - i,
        {
            match &parts[i] {
                StringInterpolationPart::Variable(var_name) => {
                    match sym_find_exec(&self.symbols, var_name) {
                        Some(var_type) => {
                            proof {
                                lemma_vty_shape(var_type);
                            }
                            let ok = matches!(var_type,
                                Type::I32 | Type::I64 | Type::F32 | Type::F64
                                | Type::Bool | Type::String);
                            if !ok {
                                let m = msg_interp_type(var_name.as_str(), &var_type);
                                let s = String::from_str(
                                    "Use a numeric type (i32, i64, f32, f64), bool, or string for string interpolation");
                                self.report(location, m, Some(s));
                            }
                        },
                        None => {
                            let sugg = self.interp_suggestion(var_name);
                            let m = msg_interp_undef(var_name.as_str());
                            self.report(location, m, Some(sugg));
                        },
                    }
                },
                StringInterpolationPart::Literal(_) => {},
            }
            i = i + 1;
        }
        proof {
            assert(tc_interp(self.st_v(), partsv, location, parts@.len() as int) == self.st_v());
        }
    }

    /// Checks a block where each statement's failure is swallowed and the
    /// walk continues with the next statement.
    #[verifier::loop_isolation(false)]
    fn check_block_swallow(&mut self, stmts: &Vec<Statement>)
        ensures
            final(self).g_v() == old(self).g_v(),
            final(self).reporter_v() == old(self).reporter_v(),
            final(self).st_v() == tc_stmts_swallow(old(self).g_v(), old(self).st_v(),
                vstmt_vec(*stmts, 0), 0),
        decreases *stmts, 0nat, 2nat,
    {
        let ghost g0 = self.g_v();
        let ghost st0 = self.st_v();
        proof {
            lemma_vstmt_vec(*stmts, 0);
        }
        let mut i: usize = 0;
        while i < stmts.len()
            invariant
                i <= stmts@.len(),
                self.g_v() == g0,
                self.reporter_v() == old(self).reporter_v(),
                vstmt_vec(*stmts, 0).len() == stmts@.len(),
                forall|j: int| 0 <= j < stmts@.len() ==> vstmt_vec(*stmts, 0)[j] == vstmt(stmts@[j]),
                tc_stmts_swallow(g0, self.st_v(), vstmt_vec(*stmts, 0), i as int)
                    == tc_stmts_swallow(g0, st0, vstmt_vec(*stmts, 0), 0),
            decreases stmts@.len() - i,
        {
            proof {
                broadcast use vstd::std_specs::vec::axiom_vec_index_decreases;
                assert(decreases_to!(*stmts => stmts@[i as int]));
            }
            let ghost st_i = self.st_v();
            match self.check_statement(&stmts[i]) {
                Ok(_) => {},
                Err(_) => {},
            }
            proof {
                assert(tc_stmts_swallow(g0, st_i, vstmt_vec(*stmts, 0), i as int)
                    == tc_stmts_swallow(g0, self.st_v(), vstmt_vec(*stmts, 0), i + 1));
            }
            i = i + 1;
        }
        proof {
            assert(tc_stmts_swallow(g0, self.st_v(), vstmt_vec(*stmts, 0), stmts@.len() as int)
                == self.st_v());
        }
    }

    /// Checks a block where the first failing statement aborts the walk.
    #[verifier::loop_isolation(false)]
    fn check_block_strict(&mut self, stmts: &Vec<Statement>) -> (r: Result<(), ()>)
        ensures
            ({
                let m = tc_stmts_strict(old(self).g_v(), old(self).st_v(), vstmt_vec(*stmts, 0), 0);
                &&& final(self).g_v() == old(self).g_v()
                &&& final(self).reporter_v() == old(self).reporter_v()
                &&& final(self).st_v() == m.st
                &&& (match r {
                    Ok(_) => m.ok,
                    Err(_) => !m.ok,
                })
            }),
        decreases *stmts, 0nat, 2nat,
    {
        let ghost g0 = self.g_v();
        let ghost st0 = self.st_v();
        proof {
            lemma_vstmt_vec(*stmts, 0);
        }
        let mut i: usize = 0;
        while i < stmts.len()
            invariant
                i <= stmts@.len(),
                self.g_v() == g0,
                self.reporter_v() == old(self).reporter_v(),
                vstmt_vec(*stmts, 0).len() == stmts@.len(),
                forall|j: int| 0 <= j < stmts@.len() ==> vstmt_vec(*stmts, 0)[j] == vstmt(stmts@[j]),
                tc_stmts_strict(g0, self.st_v(), vstmt_vec(*stmts, 0), i as int)
                    == tc_stmts_strict(g0, st0, vstmt_vec(*stmts, 0), 0),
            decreases stmts@.len() - i,
        {
            proof {
                broadcast use vstd::std_specs::vec::axiom_vec_index_decreases;
                assert(decreases_to!(*stmts => stmts@[i as int]));
            }
            let ghost st_i = self.st_v();
            match self.check_statement(&stmts[i]) {
                Ok(_) => {
                    proof {
                        assert(tc_stmts_strict(g0, st_i, vstmt_vec(*stmts, 0), i as int)
                            == tc_stmts_strict(g0, self.st_v(), vstmt_vec(*stmts, 0), i + 1));
                    }
                },
                Err(e) => {
                    proof {
                        assert(tc_stmts_strict(g0, st_i, vstmt_vec(*stmts, 0), i as int)
                            == (StmtRes { ok: false, st: self.st_v() }));
                    }
                    return Err(e);
                },
            }
            i = i + 1;
        }
        proof {
            assert(tc_stmts_strict(g0, self.st_v(), vstmt_vec(*stmts, 0), stmts@.len() as int)
                == (StmtRes { ok: true, st: self.st_v() }));
        }
        Ok(())
    }

    /// Checks the arms of a match: each pattern variable is bound for its
    /// arm's body, and the binding is removed afterwards.
    #[verifier::loop_isolation(false)]
    fn check_match_arms(&mut self, arms: &Vec<MatchArm>, expr_type: &Type) -> (r: Result<(), ()>)
        ensures
            ({
                let m = tc_arms(old(self).g_v(), old(self).st_v(), varm_vec(*arms, 0), 0, vty(*expr_type));
                &&& final(self).g_v() == old(self).g_v()
                &&& final(self).reporter_v() == old(self).reporter_v()
                &&& final(self).st_v() == m.st
                &&& (match r {
                    Ok(_) => m.ok,
                    Err(_) => !m.ok,
                })
            }),
        decreases *arms, 0nat, 3nat,
    {
        let ghost g0 = self.g_v();
        let ghost st0 = self.st_v();
        let ghost et = vty(*expr_type);
        proof {
            lemma_varm_vec(*arms, 0);
        }
        let mut ai: usize = 0;
        while ai < arms.len()
            invariant
                ai <= arms@.len(),
                self.g_v() == g0,
                self.reporter_v() == old(self).reporter_v(),
                varm_vec(*arms, 0).len() == arms@.len(),
                forall|j: int| 0 <= j < arms@.len() ==> varm_vec(*arms, 0)[j] == varm(arms@[j]),
                tc_arms(g0, self.st_v(), varm_vec(*arms, 0), ai as int, et)
                    == tc_arms(g0, st0, varm_vec(*arms, 0), 0, et),
            decreases arms@.len() - ai,
        {
            proof {
                broadcast use vstd::std_specs::vec::axiom_vec_index_decreases;
                assert(decreases_to!(*arms => arms@[ai as int]));
            }
            let arm = &arms[ai];
            let ghost st_arm0 = self.st_v();
            let old_symbols = clone_symbols(&self.symbols);
            proof {
                lemma_vpattern_is_variable(arm.pattern);
            }
            match &arm.pattern {
                Pattern::Variable(var_name, _) => {
                    let t2 = clone_type(expr_type);
                    sym_insert_exec(&mut self.symbols, var_name.clone(), t2);
                },
                _ => {},
            }
            let ghost st1 = self.st_v();
            proof {
                assert(decreases_to!(arms@[ai as int] => arms@[ai as int].body));
            }
            match self.check_block_strict(&arm.body) {
                Ok(()) => {},
                Err(e) => {
                    proof {
                        assert(tc_arm(g0, st_arm0, varm(arms@[ai as int]), et)
                            == (StmtRes { ok: false, st: self.st_v() }));
                        assert(tc_arms(g0, st_arm0, varm_vec(*arms, 0), ai as int, et)
                            == (StmtRes { ok: false, st: self.st_v() }));
                    }
                    return Err(e);
                },
            }
            self.symbols = old_symbols;
            proof {
                assert(tc_arm(g0, st_arm0, varm(arms@[ai as int]), et)
                    == (StmtRes { ok: true, st: self.st_v() }));
                assert(tc_arms(g0, st_arm0, varm_vec(*arms, 0), ai as int, et)
                    == tc_arms(g0, self.st_v(), varm_vec(*arms, 0), ai + 1, et));
            }
            ai = ai + 1;
        }
        proof {
            assert(tc_arms(g0, self.st_v(), varm_vec(*arms, 0), arms@.len() as int, et)
                == (StmtRes { ok: true, st: self.st_v() }));
        }
        Ok(())
    }

    /// Checks a match expression: the scrutinee, then each arm with its
    /// pattern binding in scope.
    #[verifier::loop_isolation(false)]
    fn check_match(&mut self, expr: &Expression) -> (r: Result<Type, ()>)
        requires
            expr is Match,
        ensures
            ({
                let m = tc_expr(old(self).g_v(), old(self).st_v(), vexpr(*expr));
                &&& final(self).g_v() == old(self).g_v()
                &&& final(self).reporter_v() == old(self).reporter_v()
                &&& final(self).st_v() == m.st
                &&& (match r {
                    Ok(t) => m.t == Some(vty(t)),
                    Err(_) => m.t is None,
                })
            }),
        decreases *expr, 0nat, 0nat,
    {
        let (scrutinee, arms): (&Box<Expression>, &Vec<MatchArm>) = match expr {
            Expression::Match { expr: scrutinee, arms, .. } => (scrutinee, arms),
            _ => {
                proof {
                    assert(false);
                }
                return Err(());
            },
        };
        let expr_type = match self.check_expression(scrutinee) {
            Ok(t) => t,
            Err(e) => {
                return Err(e);
            },
        };
        match self.check_match_arms(arms, &expr_type) {
            Ok(()) => Ok(Type::Void),
            Err(e) => Err(e),
        }
    }

    /// Checks one expression bottom-up, returning its inferred type. Most
    /// failures record a diagnostic and yield the poison `Error` type so that
    /// checking can continue; a few abort the walk.
    #[verifier::rlimit(80)]
    #[verifier::loop_isolation(false)]
    fn check_expression(&mut self, expr: &Expression) -> (r: Result<Type, ()>)
        ensures
            ({
                let m = tc_expr(old(self).g_v(), old(self).st_v(), vexpr(*expr));
                &&& final(self).g_v() == old(self).g_v()
                &&& final(self).reporter_v() == old(self).reporter_v()
                &&& final(self).st_v() == m.st
                &&& (match r {
                    Ok(t) => m.t == Some(vty(t)),
                    Err(_) => m.t is None,
                })
            }),
        decreases *expr, 0nat, 1nat,
    {
        let ghost g0 = self.g_v();
        let ghost st0 = self.st_v();
        match expr {
            Expression::Literal(lit, _) => {
                Ok(match lit {
                    Literal::Int(_) => Type::I32,
                    Literal::Float(_) => Type::F32,
                    Literal::Bool(_) => Type::Bool,
                    Literal::String(_) => Type::String,
                })
            },
            Expression::StringInterpolation { parts, location } => {
                self.check_interpolation(parts, *location);
                Ok(Type::String)
            },
            Expression::Match { .. } => {
                self.check_match(expr)
            },
            Expression::Variable(name, location) => {
                match sym_find_exec(&self.symbols, name) {
                    Some(ty) => Ok(ty),
                    None => {
                        let sugg = self.var_suggestion(name);
                        let m = msg_undef_var(name.as_str());
                        self.report(*location, m, Some(sugg));
                        Ok(Type::Error)
                    },
                }
            },
            Expression::BinaryOp { op, left, right, location } => {
                let left_type = match self.check_expression(left) {
                    Ok(t) => t,
                    Err(e) => {
                        return Err(e);
                    },
                };
                let right_type = match self.check_expression(right) {
                    Ok(t) => t,
                    Err(e) => {
                        return Err(e);
                    },
                };
                proof {
                    lemma_vty_shape(left_type);
                    lemma_vty_shape(right_type);
                }
                if matches!(left_type, Type::Error) || matches!(right_type, Type::Error) {
                    return Ok(Type::Error);
                }
                match op {
                    BinaryOp::Add | BinaryOp::Sub | BinaryOp::Mul | BinaryOp::Div
                    | BinaryOp::Mod => {
                        let ln = matches!(left_type, Type::I32 | Type::I64 | Type::F32 | Type::F64);
                        let rn = matches!(right_type, Type::I32 | Type::I64 | Type::F32 | Type::F64);
                        if ln && rn {
                            Ok(left_type)
                        } else {
                            let m = msg_arith(&left_type, &right_type);
                            let s = String::from_str(
                                "Use numeric types (i32, i64, f32, f64) for arithmetic operations");
                            self.report(*location, m, Some(s));
                            Ok(Type::Error)
                        }
                    },
                    BinaryOp::Eq | BinaryOp::Ne | BinaryOp::Lt | BinaryOp::Le | BinaryOp::Gt
                    | BinaryOp::Ge => {
                        Ok(Type::Bool)
                    },
                    BinaryOp::And | BinaryOp::Or => {
                        if matches!(left_type, Type::Bool) && matches!(right_type, Type::Bool) {
                            Ok(Type::Bool)
                        } else {
                            let m = msg_logic(&left_type, &right_type);
                            let s = String::from_str("Use bool types for logical operations (&&, ||)");
                            self.report(*location, m, Some(s));
                            Ok(Type::Error)
                        }
                    },
                }
            },
            Expression::UnaryOp { op, expr: operand, location } => {
                let expr_type = match self.check_expression(operand) {
                    Ok(t) => t,
                    Err(e) => {
                        return Err(e);
                    },
                };
                proof {
                    lemma_vty_shape(expr_type);
                }
                match op {
                    UnaryOp::Neg => {
                        if matches!(expr_type, Type::I32 | Type::I64 | Type::F32 | Type::F64) {
                            Ok(expr_type)
                        } else {
                            let m = msg_neg(&expr_type);
                            let s = String::from_str("Use a numeric type (i32, i64, f32, f64) for negation");
                            self.report(*location, m, Some(s));
                            Err(())
                        }
                    },
                    UnaryOp::Not => {
                        if matches!(expr_type, Type::Bool) {
                            Ok(Type::Bool)
                        } else {
                            let m = msg_not(&expr_type);
                            let s = String::from_str("Use a bool type for logical not (!)");
                            self.report(*location, m, Some(s));
                            Err(())
                        }
                    },
                }
            },
            Expression::Call { name, args, location } => {
                self.check_call(name, args, *location, Ghost(vexpr(*expr)))
            },
            Expression::MemberAccess { object, member, location } => {
                let object_type = match self.check_expression(object) {
                    Ok(t) => t,
                    Err(e) => {
                        return Err(e);
                    },
                };
                proof {
                    lemma_vty_shape(object_type);
                }
                if matches!(object_type, Type::Error) {
                    return Ok(Type::Error);
                }
                if str_eq(member.as_str(), "unwrap") {
                    match &object_type {
                        Type::Optional(inner_type) => Ok(clone_type(inner_type)),
                        _ => {
                            let m = msg_unwrap(&object_type);
                            let s = String::from_str(
                                "unwrap() can only be called on optional types (e.g., ?Type)");
                            self.report(*location, m, Some(s));
                            Ok(Type::Error)
                        },
                    }
                } else {
                    Ok(Type::F32)
                }
            },
            Expression::Index { array, index, location } => {
                let array_type = match self.check_expression(array) {
                    Ok(t) => t,
                    Err(e) => {
                        return Err(e);
                    },
                };
                let index_type = match self.check_expression(index) {
                    Ok(t) => t,
                    Err(e) => {
                        return Err(e);
                    },
                };
                proof {
                    lemma_vty_shape(array_type);
                    lemma_vty_shape(index_type);
                }
                if matches!(array_type, Type::Error) || matches!(index_type, Type::Error) {
                    return Ok(Type::Error);
                }
                match &array_type {
                    Type::Array(element_type) => Ok(clone_type(element_type)),
                    _ => {
                        let m = msg_index(&array_type);
                        let s = String::from_str("Use an array type: array[index]");
                        self.report(*location, m, Some(s));
                        Err(())
                    },
                }
            },
            Expression::ArrayLiteral { elements, location } => {
                if elements.len() == 0 {
                    let m = String::from_str("Cannot infer type of empty array literal");
                    let s = String::from_str("Provide explicit type: let arr: [Type] = [];");
                    self.report(*location, m, Some(s));
                    return Ok(Type::Error);
                }
                proof {
                    broadcast use vstd::std_specs::vec::axiom_vec_index_decreases;
                    lemma_vexpr_vec(*elements, 0);
                    assert(decreases_to!(*elements => elements@[0]));
                }
                let first_type = match self.check_expression(&elements[0]) {
                    Ok(t) => t,
                    Err(e) => {
                        return Err(e);
                    },
                };
                proof {
                    lemma_vty_shape(first_type);
                }
                if matches!(first_type, Type::Error) {
                    return Ok(Type::Error);
                }
                let first_elem_location = elements[0].location();
                let ghost st_f = self.st_v();
                let ghost ft = vty(first_type);
                let mut has_error = false;
                let mut i: usize = 1;
                proof {
                    lemma_vexpr_vec(*elements, 0);
                }
                while i < elements.len()
                    invariant
                        1 <= i <= elements@.len(),
                        self.g_v() == g0,
                        self.reporter_v() == old(self).reporter_v(),
                        ft == vty(first_type),
                        first_elem_location == spec_expr_loc(vexpr(elements@[0])),
                        (decreases_to!(*expr => *elements)),
                        forall|j: int| 0 <= j < elements@.len()
                            ==> vexpr_vec(*elements, 0)[j] == vexpr(elements@[j]),
                        vexpr_vec(*elements, 0).len() == elements@.len(),
                        tc_array_elems(g0, self.st_v(), vexpr_vec(*elements, 0), i as int, ft,
                            first_elem_location, has_error)
                            == tc_array_elems(g0, st_f, vexpr_vec(*elements, 0), 1, ft,
                                first_elem_location, false),
                    decreases elements@.len() - i,
                {
                    proof {
                        broadcast use vstd::std_specs::vec::axiom_vec_index_decreases;
                        assert(decreases_to!(*elements => elements@[i as int]));
                    }
                    let ghost st_i = self.st_v();
                    let ghost he0 = has_error;
                    let elem_type = match self.check_expression(&elements[i]) {
                        Ok(t) => t,
                        Err(e) => {
                            proof {
                                assert(tc_array_elems(g0, st_i, vexpr_vec(*elements, 0), i as int,
                                    ft, first_elem_location, he0)
                                    == (ExprRes { t: None, st: self.st_v() }));
                            }
                            return Err(e);
                        },
                    };
                    proof {
                        lemma_vty_shape(elem_type);
                    }
                    if matches!(elem_type, Type::Error) {
                        has_error = true;
                    } else if !self.types_compatible(&first_type, &elem_type) {
                        let loc = elements[i].location();
                        let m = msg_array_elem(i + 1, &elem_type, &first_type);
                        let s = sugg_array_elem(&first_type);
                        self.report_with_secondary(loc, m, Some(s), Some(first_elem_location),
                            Some(String::from_str("Note: first element (expected type)")));
                        has_error = true;
                    }
                    proof {
                        assert(tc_array_elems(g0, st_i, vexpr_vec(*elements, 0), i as int,
                            ft, first_elem_location, he0)
                            == tc_array_elems(g0, self.st_v(), vexpr_vec(*elements, 0), i + 1,
                                ft, first_elem_location, has_error));
                    }
                    i = i + 1;
                }
                proof {
                    assert(tc_array_elems(g0, self.st_v(), vexpr_vec(*elements, 0),
                        elements@.len() as int, ft, first_elem_location, has_error)
                        == (ExprRes { t: Some(if has_error { TyV::Error } else { TyV::Void }), st: self.st_v() }));
                }
                if has_error {
                    Ok(Type::Error)
                } else {
                    Ok(Type::Array(Box::new(first_type)))
                }
            },
            Expression::StructLiteral { name, fields: _, location } => {
                if str_eq(name.as_str(), "Vec2") {
                    Ok(Type::Vec2)
                } else if str_eq(name.as_str(), "Vec3") {
                    Ok(Type::Vec3)
                } else if str_eq(name.as_str(), "Vec4") {
                    Ok(Type::Vec4)
                } else if str_eq(name.as_str(), "Mat4") {
                    Ok(Type::Mat4)
                } else if names_contains_exec(&self.structs, name) {
                    Ok(Type::Struct(name.clone()))
                } else {
                    let m = msg_undef_struct(name.as_str());
                    let s = sugg_declare_struct(name.as_str());
                    self.report(*location, m, Some(s));
                    Ok(Type::Error)
                }
            },
        }
    }

    /// Checks a call expression: `print`, the host windowing and UI built-ins,
    /// then user-defined functions.
    #[verifier::rlimit(80)]
    #[verifier::loop_isolation(false)]
    fn check_call(&mut self, name: &String, args: &Vec<Expression>, location: SourceLocation, ev: Ghost<ExprV>) -> (r: Result<Type, ()>)
        requires
            ev@ == (ExprV::Call { name: name@, args: vexpr_vec(*args, 0), location }),
        ensures
            ({
                let m = tc_expr(old(self).g_v(), old(self).st_v(), ev@);
                &&& final(self).g_v() == old(self).g_v()
                &&& final(self).reporter_v() == old(self).reporter_v()
                &&& final(self).st_v() == m.st
                &&& (match r {
                    Ok(t) => m.t == Some(vty(t)),
                    Err(_) => m.t is None,
                })
            }),
        decreases *args, 0nat, 1nat,
    {
        let ghost g0 = self.g_v();
        let ghost st0 = self.st_v();
        let ghost argsv = vexpr_vec(*args, 0);
        proof {
            lemma_vexpr_vec(*args, 0);
            assert(tc_expr(g0, st0, ev@) == tc_call(g0, st0, name@, argsv, location));
        }
        if str_eq(name.as_str(), "print") {
            match self.check_args_prefix(args, args.len()) {
                Ok(_) => {
                    return Ok(Type::Void);
                },
                Err(e) => {
                    return Err(e);
                },
            }
        }
        if str_eq(name.as_str(), "glfwInit") {
            if args.len() != 0 {
                return Err(());
            }
            return Ok(Type::I32);
        }
        if str_eq(name.as_str(), "glfwCreateWindow") {
            if args.len() != 5 {
                return Err(());
            }
            match self.check_args_prefix(args, 5) {
                Ok(_) => {
                    return Ok(Type::GLFWwindow);
                },
                Err(e) => {
                    return Err(e);
                },
            }
        }
        if str_eq(name.as_str(), "glfwWindowShouldClose") {
            if args.len() != 1 {
                return Err(());
            }
            match self.check_args_prefix(args, 1) {
                Ok(_) => {
                    return Ok(Type::I32);
                },
                Err(e) => {
                    return Err(e);
                },
            }
        }
        if str_eq(name.as_str(), "glfwPollEvents") {
            if args.len() != 0 {
                return Err(());
            }
            return Ok(Type::Void);
        }
        if str_eq(name.as_str(), "glfwGetKey") {
            if args.len() != 2 {
                return Err(());
            }
            match self.check_args_prefix(args, 2) {
                Ok(_) => {
                    return Ok(Type::I32);
                },
                Err(e) => {
                    return Err(e);
                },
            }
        }
        if str_eq(name.as_str(), "glfwSetWindowShouldClose") {
            if args.len() != 2 {
                return Err(());
            }
            match self.check_args_prefix(args, 2) {
                Ok(_) => {
                    return Ok(Type::Void);
                },
                Err(e) => {
                    return Err(e);
                },
            }
        }
        if str_eq(name.as_str(), "glfwDestroyWindow") {
            if args.len() != 1 {
                return Err(());
            }
            match self.check_args_prefix(args, 1) {
                Ok(_) => {
                    return Ok(Type::Void);
                },
                Err(e) => {
                    return Err(e);
                },
            }
        }
        if str_eq(name.as_str(), "glfwTerminate") {
            if args.len() != 0 {
                return Err(());
            }
            return Ok(Type::Void);
        }
        if str_eq(name.as_str(), "glfwWindowHint") {
            if args.len() != 2 {
                return Err(());
            }
            match self.check_args_prefix(args, 2) {
                Ok(_) => {
                    return Ok(Type::Void);
                },
                Err(e) => {
                    return Err(e);
                },
            }
        }
        if str_eq(name.as_str(), "ImGui_Begin") || str_eq(name.as_str(), "ImGui::Begin") {
            if args.len() < 1 {
                return Err(());
            }
            match self.check_args_prefix(args, 1) {
                Ok(_) => {
                    return Ok(Type::Bool);
                },
                Err(e) => {
                    return Err(e);
                },
            }
        }
        if str_eq(name.as_str(), "ImGui_End") || str_eq(name.as_str(), "ImGui::End") {
            if args.len() != 0 {
                return Err(());
            }
            return Ok(Type::Void);
        }
        if str_eq(name.as_str(), "ImGui_Text") || str_eq(name.as_str(), "ImGui::Text") {
            if args.len() < 1 {
                return Err(());
            }
            match self.check_args_prefix(args, args.len()) {
                Ok(_) => {
                    return Ok(Type::Void);
                },
                Err(e) => {
                    return Err(e);
                },
            }
        }
        if str_eq(name.as_str(), "ImGui_Button") || str_eq(name.as_str(), "ImGui::Button") {
            if args.len() < 1 {
                return Err(());
            }
            match self.check_args_prefix(args, 1) {
                Ok(_) => {
                    return Ok(Type::Bool);
                },
                Err(e) => {
                    return Err(e);
                },
            }
        }
        if str_eq(name.as_str(), "ImGui_NewFrame") || str_eq(name.as_str(), "ImGui::NewFrame") {
            if args.len() != 0 {
                return Err(());
            }
            return Ok(Type::Void);
        }
        if str_eq(name.as_str(), "ImGui_Render") || str_eq(name.as_str(), "ImGui::Render") {
            if args.len() != 0 {
                return Err(());
            }
            return Ok(Type::Void);
        }

        let func = match fn_find_exec(&self.functions, name) {
            Some(f) => f,
            None => {
                let sugg = self.fn_suggestion(name);
                let m = msg_undef_fn(name.as_str());
                self.report(location, m, Some(sugg));
                return Ok(Type::Error);
            },
        };

        if args.len() != func.params.len() {
            let m = msg_arity(name.as_str(), func.params.len(), args.len());
            let s = sugg_arity(func.params.len(), name.as_str());
            self.report(location, m, Some(s));
            return Ok(Type::Error);
        }

        let ghost paramsv = vsig(func).params;
        let ghost st_c = self.st_v();
        let mut has_error = false;
        let mut i: usize = 0;
        proof {
            lemma_vexpr_vec(*args, 0);
        }
        while i < args.len()
            invariant
                i <= args@.len(),
                args@.len() == func.params@.len(),
                self.g_v() == g0,
                self.reporter_v() == old(self).reporter_v(),
                paramsv == vsig(func).params,
                paramsv.len() == func.params@.len(),
                forall|j: int| 0 <= j < paramsv.len() ==> paramsv[j] == vty(func.params@[j]),
                argsv == vexpr_vec(*args, 0),
                argsv.len() == args@.len(),
                forall|j: int| 0 <= j < args@.len() ==> argsv[j] == vexpr(args@[j]),
                tc_call_args(g0, self.st_v(), argsv, paramsv, name@, i as int, has_error)
                    == tc_call_args(g0, st_c, argsv, paramsv, name@, 0, false),
            decreases args@.len() - i,
        {
            proof {
                broadcast use vstd::std_specs::vec::axiom_vec_index_decreases;
                assert(decreases_to!(*args => args@[i as int]));
            }
            let ghost st_i = self.st_v();
            let ghost he0 = has_error;
            let arg_type = match self.check_expression(&args[i]) {
                Ok(t) => t,
                Err(e) => {
                    proof {
                        assert(tc_call_args(g0, st_i, argsv, paramsv, name@, i as int, he0)
                            == (ExprRes { t: None, st: self.st_v() }));
                    }
                    return Err(e);
                },
            };
            proof {
                lemma_vty_shape(arg_type);
            }
            if matches!(arg_type, Type::Error) {
                has_error = true;
            } else if !self.types_compatible(&func.params[i], &arg_type) {
                let loc = args[i].location();
                let m = msg_arg_mismatch(i + 1, name.as_str(), &func.params[i], &arg_type);
                let s = sugg_arg_mismatch(&func.params[i], i + 1);
                self.report(loc, m, Some(s));
                has_error = true;
            }
            proof {
                assert(tc_call_args(g0, st_i, argsv, paramsv, name@, i as int, he0)
                    == tc_call_args(g0, self.st_v(), argsv, paramsv, name@, i + 1, has_error));
            }
            i = i + 1;
        }
        proof {
            assert(tc_call_args(g0, self.st_v(), argsv, paramsv, name@, args@.len() as int, has_error)
                == (ExprRes { t: Some(if has_error { TyV::Error } else { TyV::Void }), st: self.st_v() }));
        }

        if has_error {
            return Ok(Type::Error);
        }

        Ok(clone_type(&func.return_type))
    }

    /// The escape check on a returned expression.
    fn return_frame_check(&mut self, e0: &Expression, location: SourceLocation)
        ensures
            final(self).g_v() == old(self).g_v(),
            final(self).reporter_v() == old(self).reporter_v(),
            final(self).st_v() == crate::checker_spec::tc_return_frame_check(old(self).st_v(), vexpr(*e0), location),
    {
        proof {
            lemma_vexpr_is_variable(*e0);
        }
        match e0 {
            Expression::Variable(var_name, _) => {
                if names_contains_exec(&self.frame_scoped_vars, var_name) {
                    let m = msg_frame_escape_var(var_name.as_str());
                    let s = String::from_str(
                        "Frame-scoped allocations (from frame.alloc_array) cannot be returned from functions. Consider using heap allocation or passing the FrameArena as a parameter.");
                    self.report(location, m, Some(s));
                }
            },
            _ => {
                if self.is_frame_alloc_expression(e0) {
                    let m = String::from_str(
                        "Cannot return frame-scoped allocation: frame-scoped memory is only valid within the current frame");
                    let s = String::from_str(
                        "Frame-scoped allocations (from frame.alloc_array) cannot be returned from functions. Consider using heap allocation or passing the FrameArena as a parameter.");
                    self.report(location, m, Some(s));
                }
            },
        }
    }

    /// Checks one statement; most failures are recorded and swallowed so the
    /// walk can continue, and the symbol table is updated along the way.
    #[verifier::rlimit(80)]
    #[verifier::loop_isolation(false)]
    fn check_statement(&mut self, stmt: &Statement) -> (r: Result<(), ()>)
        ensures
            ({
                let m = crate::checker_spec::tc_stmt(old(self).g_v(), old(self).st_v(), vstmt(*stmt));
                &&& final(self).g_v() == old(self).g_v()
                &&& final(self).reporter_v() == old(self).reporter_v()
                &&& final(self).st_v() == m.st
                &&& (match r {
                    Ok(_) => m.ok,
                    Err(_) => !m.ok,
                })
            }),
        decreases *stmt, 0nat, 1nat,
    {
        let ghost g0 = self.g_v();
        let ghost st0 = self.st_v();
        match stmt {
            Statement::Let { name, ty, value, location } => {
                let value_type = match self.check_expression(value) {
                    Ok(t) => t,
                    Err(e) => {
                        return Err(e);
                    },
                };
                if self.is_frame_alloc_expression(value) {
                    let ghost fr0 = vnames(self.frame_scoped_vars@);
                    self.frame_scoped_vars.push(name.clone());
                    proof {
                        assert(vnames(self.frame_scoped_vars@) =~= fr0.push(name@));
                    }
                }
                proof {
                    lemma_vty_shape(value_type);
                }
                match ty {
                    Some(declared_type) => {
                        let ok = self.types_compatible(declared_type, &value_type);
                        if !ok && !matches!(value_type, Type::Error) {
                            let m = msg_let_mismatch(&value_type, declared_type);
                            let s = sugg_let_mismatch(declared_type, name.as_str());
                            self.report(*location, m, Some(s));
                        }
                        if matches!(value_type, Type::Error) {
                            sym_insert_exec(&mut self.symbols, name.clone(), Type::Error);
                        } else {
                            sym_insert_exec(&mut self.symbols, name.clone(), clone_type(declared_type));
                        }
                    },
                    None => {
                        sym_insert_exec(&mut self.symbols, name.clone(), value_type);
                    },
                }
                Ok(())
            },
            Statement::Assign { target, value, location } => {
                let target_type = match self.check_expression(target) {
                    Ok(t) => t,
                    Err(_) => Type::Error,
                };
                let value_type = match self.check_expression(value) {
                    Ok(t) => t,
                    Err(_) => Type::Error,
                };
                proof {
                    lemma_vty_shape(target_type);
                    lemma_vty_shape(value_type);
                }
                if !matches!(target_type, Type::Error) && !matches!(value_type, Type::Error) {
                    if !self.types_compatible(&target_type, &value_type) {
                        let m = msg_assign_mismatch(&value_type, &target_type);
                        let s = sugg_assign_mismatch(&value_type, &target_type);
                        self.report(*location, m, Some(s));
                    }
                }
                Ok(())
            },
            Statement::If { condition, then_block, else_block, location } => {
                let cond_type = match self.check_expression(condition) {
                    Ok(t) => t,
                    Err(_) => Type::Error,
                };
                proof {
                    lemma_vty_shape(cond_type);
                }
                if !matches!(cond_type, Type::Error) {
                    let is_bool_or_optional = matches!(cond_type, Type::Bool)
                        || matches!(cond_type, Type::Optional(_));
                    if !is_bool_or_optional {
                        let m = msg_if_cond(&cond_type);
                        let s = String::from_str(
                            "Use a boolean expression: if (condition == true) or if (x > 0), or check optional: if optional { ... }");
                        self.report(*location, m, Some(s));
                    }
                }
                self.check_block_swallow(then_block);
                match else_block {
                    Some(eb) => {
                        self.check_block_swallow(eb);
                    },
                    None => {},
                }
                Ok(())
            },
            Statement::While { condition, body, location } => {
                let cond_type = match self.check_expression(condition) {
                    Ok(t) => t,
                    Err(_) => Type::Error,
                };
                proof {
                    lemma_vty_shape(cond_type);
                }
                if !matches!(cond_type, Type::Error) {
                    if !matches!(cond_type, Type::Bool) {
                        let m = msg_while_cond(&cond_type);
                        let s = String::from_str(
                            "Use a boolean expression: while (condition == true) or while (x > 0)");
                        self.report(*location, m, Some(s));
                    }
                }
                self.check_block_swallow(body);
                Ok(())
            },
            Statement::For { iterator, collection, body, location } => {
                let collection_type = match self.check_expression(collection) {
                    Ok(t) => t,
                    Err(_) => Type::Error,
                };
                proof {
                    lemma_vty_shape(collection_type);
                }
                match collection_type {
                    Type::Query(component_types) => {
                        sym_insert_exec(&mut self.symbols, iterator.clone(),
                            Type::Query(component_types));
                        self.check_block_swallow(body);
                        sym_remove_exec(&mut self.symbols, iterator);
                    },
                    other => {
                        if !matches!(other, Type::Error) {
                            let m = msg_for_collection(&other);
                            let s = String::from_str(
                                "Use a query: for entity in query<Position, Velocity>");
                            self.report(*location, m, Some(s));
                        }
                    },
                }
                Ok(())
            },
            Statement::Loop { body, .. } => {
                self.check_block_strict(body)
            },
            Statement::Return(expr_opt, location) => {
                match expr_opt {
                    Some(e0) => {
                        match self.check_expression(e0) {
                            Ok(_) => {},
                            Err(e) => {
                                return Err(e);
                            },
                        }
                        self.return_frame_check(e0, *location);
                    },
                    None => {},
                }
                Ok(())
            },
            Statement::Expression(e0, ..) => {
                match self.check_expression(e0) {
                    Ok(_) => Ok(()),
                    Err(e) => Err(e),
                }
            },
            Statement::Block(stmts, ..) => {
                self.check_block_swallow(stmts);
                Ok(())
            },
            Statement::Break(_) => Ok(()),
            Statement::Continue(_) => Ok(()),
            Statement::Defer(e0, _) => {
                match self.check_expression(e0) {
                    Ok(_) => {},
                    Err(_) => {},
                }
                Ok(())
            },
        }
    }

    /// The declaration-collection pass over one item.
    #[verifier::loop_isolation(false)]
    fn collect_item(&mut self, item: &crate::ast::Item)
        ensures
            final(self).reporter_v() == old(self).reporter_v(),
            ({
                let c = crate::checker_spec::collect_step(old(self).g_v(), old(self).st_v().diags,
                    crate::ast::vitem(*item));
                &&& final(self).g_v() == c.g
                &&& final(self).st_v() == (StV {
                    symbols: old(self).st_v().symbols,
                    frames: old(self).st_v().frames,
                    diags: c.diags,
                })
            }),
    {
        match item {
            crate::ast::Item::Struct(s) => {
                names_insert_exec(&mut self.structs, s.name.clone());
            },
            crate::ast::Item::Component(c) => {
                let ghost cv = crate::ast::vcomponentdef(*c);
                if c.is_soa {
                    let ghost ds0 = self.st_v().diags;
                    let mut i: usize = 0;
                    while i < c.fields.len()
                        invariant
                            i <= c.fields@.len(),
                            self.g_v() == old(self).g_v(),
                            self.reporter_v() == old(self).reporter_v(),
                            self.st_v().symbols == old(self).st_v().symbols,
                            self.st_v().frames == old(self).st_v().frames,
                            cv.fields.len() == c.fields@.len(),
                            forall|j: int| 0 <= j < cv.fields.len()
                                ==> cv.fields[j] == crate::ast::vfield(c.fields@[j]),
                            crate::checker_spec::soa_diags(cv, i as int, self.st_v().diags)
                                == crate::checker_spec::soa_diags(cv, 0, ds0),
                        decreases c.fields@.len() - i,
                    {
                        let field = &c.fields[i];
                        proof {
                            lemma_vty_shape(field.ty);
                        }
                        if !matches!(field.ty, Type::Array(_)) {
                            let location = SourceLocation::unknown();
                            let m = crate::messages::msg_soa(c.name.as_str(), field.name.as_str());
                            let s = crate::messages::sugg_soa(field.name.as_str(), &field.ty);
                            self.report(location, m, Some(s));
                        }
                        i = i + 1;
                    }
                    proof {
                        assert(crate::checker_spec::soa_diags(cv, c.fields@.len() as int,
                            self.st_v().diags) == self.st_v().diags);
                    }
                }
                names_insert_exec(&mut self.components, c.name.clone());
            },
            crate::ast::Item::Function(f) => {
                let sig = FnSig {
                    name: f.name.clone(),
                    params: param_types(&f.params),
                    return_type: clone_type(&f.return_type),
                };
                proof {
                    assert(vsig(sig).params
                        =~= crate::checker_spec::sig_of_fn(crate::ast::vfndef(*f)).params);
                }
                fn_insert_exec(&mut self.functions, sig);
            },
            crate::ast::Item::ExternFunction(x) => {
                let sig = FnSig {
                    name: x.name.clone(),
                    params: param_types(&x.params),
                    return_type: clone_type(&x.return_type),
                };
                proof {
                    assert(vsig(sig).params
                        =~= crate::checker_spec::sig_of_extern(crate::ast::vexterndef(*x)).params);
                }
                fn_insert_exec(&mut self.functions, sig);
            },
            crate::ast::Item::System(s) => {
                let ghost sfsv = crate::ast::vsystemdef(*s).functions;
                let ghost fns0 = self.g_v().functions;
                let mut i: usize = 0;
                while i < s.functions.len()
                    invariant
                        i <= s.functions@.len(),
                        self.reporter_v() == old(self).reporter_v(),
                        self.st_v() == old(self).st_v(),
                        self.g_v().structs == old(self).g_v().structs,
                        self.g_v().components == old(self).g_v().components,
                        sfsv.len() == s.functions@.len(),
                        forall|j: int| 0 <= j < sfsv.len()
                            ==> sfsv[j] == crate::ast::vfndef(s.functions@[j]),
                        crate::checker_spec::collect_system_fns(self.g_v().functions, sfsv, i as int)
                            == crate::checker_spec::collect_system_fns(fns0, sfsv, 0),
                    decreases s.functions@.len() - i,
                {
                    let f = &s.functions[i];
                    let sig = FnSig {
                        name: f.name.clone(),
                        params: param_types(&f.params),
                        return_type: clone_type(&f.return_type),
                    };
                    proof {
                        assert(vsig(sig).params
                            =~= crate::checker_spec::sig_of_fn(crate::ast::vfndef(*f)).params);
                    }
                    fn_insert_exec(&mut self.functions, sig);
                    i = i + 1;
                }
                proof {
                    assert(crate::checker_spec::collect_system_fns(self.g_v().functions, sfsv,
                        s.functions@.len() as int) == self.g_v().functions);
                }
            },
            crate::ast::Item::Shader(sh) => {
                self.validate_shader_stage(sh);
            },
            crate::ast::Item::Resource(res) => {
                let lower_chars = crate::text::to_lower(res.name.as_str());
                let lower = crate::text::chars_to_string(&lower_chars);
                let mut accessor_name = String::from_str("get_resource_");
                accessor_name.append(lower.as_str());
                let sig = FnSig {
                    name: accessor_name,
                    params: Vec::new(),
                    return_type: Type::I32,
                };
                proof {
                    assert(vsig(sig).params =~= Seq::<TyV>::empty());
                }
                fn_insert_exec(&mut self.functions, sig);
                let is_audio = str_eq(res.resource_type.as_str(), "Sound")
                    || str_eq(res.resource_type.as_str(), "Music");
                if is_audio {
                    let mut play_name = String::from_str("play_resource_");
                    play_name.append(lower.as_str());
                    let play_sig = FnSig {
                        name: play_name,
                        params: Vec::new(),
                        return_type: Type::I32,
                    };
                    proof {
                        assert(vsig(play_sig).params =~= Seq::<TyV>::empty());
                    }
                    fn_insert_exec(&mut self.functions, play_sig);
                    let mut stop_name = String::from_str("stop_resource_");
                    stop_name.append(lower.as_str());
                    let stop_sig = FnSig {
                        name: stop_name,
                        params: Vec::new(),
                        return_type: Type::Void,
                    };
                    proof {
                        assert(vsig(stop_sig).params =~= Seq::<TyV>::empty());
                    }
                    fn_insert_exec(&mut self.functions, stop_sig);
                }
            },
            crate::ast::Item::Pipeline(_) => {},
        }
    }

    /// The whole checking run: collect every declaration, then check each
    /// function body, and fail with the diagnostic count if anything was
    /// recorded.
    #[verifier::loop_isolation(false)]
    pub fn check(&mut self, program: &Program) -> (r: Result<(), CheckError>)
        ensures
            ({
                let m = crate::checker_spec::tc_check(old(self).g_v(), old(self).st_v().symbols,
                    old(self).st_v().frames, vprogram(*program));
                &&& final(self).g_v() == m.g
                &&& final(self).st_v() == m.st
                &&& final(self).reporter_v() == old(self).reporter_v()
                &&& (match r {
                    Ok(_) => m.st.diags.len() == 0,
                    Err(e) => m.st.diags.len() > 0 && e.count == m.st.diags.len(),
                })
            }),
    {
        let ghost g0 = self.g_v();
        let ghost sy0 = self.st_v().symbols;
        let ghost fr0 = self.st_v().frames;
        let ghost itemsv = vprogram(*program).items;
        self.errors = Vec::new();
        proof {
            assert(diags_view(self.errors@) =~= Seq::<DiagV>::empty());
            assert(itemsv.len() == program.items@.len());
        }

        // First pass: collect all declarations.
        let mut i: usize = 0;
        while i < program.items.len()
            invariant
                i <= program.items@.len(),
                self.reporter_v() == old(self).reporter_v(),
                self.st_v().symbols == sy0,
                self.st_v().frames == fr0,
                itemsv.len() == program.items@.len(),
                forall|j: int| 0 <= j < itemsv.len()
                    ==> itemsv[j] == crate::ast::vitem(program.items@[j]),
                crate::checker_spec::tc_collect(self.g_v(), self.st_v().diags, itemsv, i as int)
                    == crate::checker_spec::tc_collect(g0, Seq::<DiagV>::empty(), itemsv, 0),
            decreases program.items@.len() - i,
        {
            let ghost g_i = self.g_v();
            let ghost ds_i = self.st_v().diags;
            self.collect_item(&program.items[i]);
            proof {
                assert(crate::checker_spec::tc_collect(g_i, ds_i, itemsv, i as int)
                    == crate::checker_spec::tc_collect(self.g_v(), self.st_v().diags, itemsv, i + 1));
            }
            i = i + 1;
        }
        proof {
            assert(crate::checker_spec::tc_collect(self.g_v(), self.st_v().diags, itemsv,
                itemsv.len() as int) == (crate::checker_spec::CollectRes {
                    g: self.g_v(),
                    diags: self.st_v().diags,
                }));
        }
        let ghost g1 = self.g_v();
        let ghost st_p2 = self.st_v();

        // Second pass: check every function body.
        let mut k: usize = 0;
        while k < program.items.len()
            invariant
                k <= program.items@.len(),
                self.reporter_v() == old(self).reporter_v(),
                self.g_v() == g1,
                itemsv.len() == program.items@.len(),
                forall|j: int| 0 <= j < itemsv.len()
                    ==> itemsv[j] == crate::ast::vitem(program.items@[j]),
                crate::checker_spec::tc_pass2(g1, self.st_v(), itemsv, k as int)
                    == crate::checker_spec::tc_pass2(g1, st_p2, itemsv, 0),
            decreases program.items@.len() - k,
        {
            let ghost st_k = self.st_v();
            match &program.items[k] {
                crate::ast::Item::Function(f) => {
                    self.check_function(f);
                },
                crate::ast::Item::System(s) => {
                    let ghost sfsv = crate::ast::vsystemdef(*s).functions;
                    let ghost st_s = self.st_v();
                    let mut q: usize = 0;
                    while q < s.functions.len()
                        invariant
                            q <= s.functions@.len(),
                            self.reporter_v() == old(self).reporter_v(),
                            self.g_v() == g1,
                            sfsv.len() == s.functions@.len(),
                            forall|j: int| 0 <= j < sfsv.len()
                                ==> sfsv[j] == crate::ast::vfndef(s.functions@[j]),
                            crate::checker_spec::tc_system_bodies(g1, self.st_v(), sfsv, q as int)
                                == crate::checker_spec::tc_system_bodies(g1, st_s, sfsv, 0),
                        decreases s.functions@.len() - q,
                    {
                        self.check_function(&s.functions[q]);
                        q = q + 1;
                    }
                    proof {
                        assert(crate::checker_spec::tc_system_bodies(g1, self.st_v(), sfsv,
                            s.functions@.len() as int) == self.st_v());
                    }
                },
                _ => {},
            }
            proof {
                assert(crate::checker_spec::tc_pass2(g1, st_k, itemsv, k as int)
                    == crate::checker_spec::tc_pass2(g1, self.st_v(), itemsv, k + 1));
            }
            k = k + 1;
        }
        proof {
            assert(crate::checker_spec::tc_pass2(g1, self.st_v(), itemsv,
                itemsv.len() as int) == self.st_v());
        }

        if self.errors.len() > 0 {
            let count = self.errors.len();
            proof {
                assert(self.st_v().diags.len() == self.errors@.len());
            }
            Err(CheckError { count })
        } else {
            proof {
                assert(self.st_v().diags.len() == self.errors@.len());
            }
            Ok(())
        }
    }

    /// Checks one function body: the symbol table is rebuilt from the
    /// parameter list, the frame-scope set is cleared, and every statement is
    /// checked against the declared return type, continuing past failures.
    #[verifier::loop_isolation(false)]
    fn check_function(&mut self, func: &FunctionDef)
        ensures
            final(self).g_v() == old(self).g_v(),
            final(self).reporter_v() == old(self).reporter_v(),
            final(self).st_v() == crate::checker_spec::tc_fn(old(self).g_v(), old(self).st_v(),
                crate::ast::vfndef(*func)),
    {
        let ghost g0 = self.g_v();
        let ghost psv = crate::ast::vfndef(*func).params;
        self.symbols = Vec::new();
        self.frame_scoped_vars = Vec::new();
        proof {
            assert(vsyms(self.symbols@) =~= Seq::<(Seq<char>, TyV)>::empty());
            assert(vnames(self.frame_scoped_vars@) =~= Seq::<Seq<char>>::empty());
        }
        let mut i: usize = 0;
        while i < func.params.len()
            invariant
                i <= func.params@.len(),
                self.g_v() == g0,
                self.reporter_v() == old(self).reporter_v(),
                self.st_v().frames == Seq::<Seq<char>>::empty(),
                self.st_v().diags == old(self).st_v().diags,
                psv.len() == func.params@.len(),
                forall|j: int| 0 <= j < psv.len() ==> psv[j] == crate::ast::vparam(func.params@[j]),
                crate::checker_spec::params_table(psv, i as int, vsyms(self.symbols@))
                    == crate::checker_spec::params_table(psv, 0, Seq::<(Seq<char>, TyV)>::empty()),
            decreases func.params@.len() - i,
        {
            let p = &func.params[i];
            sym_insert_exec(&mut self.symbols, p.name.clone(), clone_type(&p.ty));
            i = i + 1;
        }
        let ghost st1 = self.st_v();
        proof {
            assert(crate::checker_spec::params_table(psv, func.params@.len() as int,
                vsyms(self.symbols@)) == vsyms(self.symbols@));
        }
        let function_return_type = clone_type(&func.return_type);
        let ghost retv = vty(function_return_type);
        let ghost bodyv = vstmt_vec(func.body, 0);
        proof {
            lemma_vstmt_vec(func.body, 0);
        }
        let mut k: usize = 0;
        while k < func.body.len()
            invariant
                k <= func.body@.len(),
                self.g_v() == g0,
                self.reporter_v() == old(self).reporter_v(),
                retv == vty(function_return_type),
                bodyv == vstmt_vec(func.body, 0),
                bodyv.len() == func.body@.len(),
                forall|j: int| 0 <= j < func.body@.len() ==> bodyv[j] == vstmt(func.body@[j]),
                crate::checker_spec::tc_body(g0, self.st_v(), retv, bodyv, k as int)
                    == crate::checker_spec::tc_body(g0, st1, retv, bodyv, 0),
            decreases func.body@.len() - k,
        {
            let ghost st_k = self.st_v();
            match self.check_statement_with_return_type(&func.body[k], &function_return_type) {
                Ok(_) => {},
                Err(_) => {},
            }
            proof {
                assert(crate::checker_spec::tc_body(g0, st_k, retv, bodyv, k as int)
                    == crate::checker_spec::tc_body(g0, self.st_v(), retv, bodyv, k + 1));
            }
            k = k + 1;
        }
        proof {
            assert(crate::checker_spec::tc_body(g0, self.st_v(), retv, bodyv,
                func.body@.len() as int) == self.st_v());
        }
    }

    /// Validates that a shader's declared stage matches its file extension:
    /// the stage's own extension, or the generic `.spv` / `.glsl` escapes.
    fn validate_shader_stage(&mut self, shader: &crate::ast::ShaderDef)
        ensures
            final(self).g_v() == old(self).g_v(),
            final(self).reporter_v() == old(self).reporter_v(),
            final(self).st_v() == (StV {
                symbols: old(self).st_v().symbols,
                frames: old(self).st_v().frames,
                diags: crate::checker_spec::shader_diags(crate::ast::vshaderdef(*shader),
                    old(self).st_v().diags),
            }),
    {
        let path_lower = crate::text::to_lower(shader.path.as_str());
        let has_correct_ext = crate::text::chars_end_with(&path_lower,
            crate::messages::stage_ext(shader.stage));
        let is_spv = crate::text::chars_end_with(&path_lower, ".spv");
        let is_generic = crate::text::chars_end_with(&path_lower, ".glsl");
        if !has_correct_ext && !is_spv && !is_generic {
            let location = SourceLocation::unknown();
            let m = crate::messages::msg_shader_stage(shader.stage, shader.path.as_str());
            let s = crate::messages::sugg_shader_stage(shader.stage);
            self.report(location, m, Some(s));
        }
    }

    /// Checks one statement against the enclosing function's return type;
    /// only `return` statements are treated differently from the plain walk.
    fn check_statement_with_return_type(&mut self, stmt: &Statement, expected_return_type: &Type) -> (r: Result<(), ()>)
        ensures
            ({
                let m = crate::checker_spec::tc_stmt_ret(old(self).g_v(), old(self).st_v(),
                    vty(*expected_return_type), vstmt(*stmt));
                &&& final(self).g_v() == old(self).g_v()
                &&& final(self).reporter_v() == old(self).reporter_v()
                &&& final(self).st_v() == m.st
                &&& (match r {
                    Ok(_) => m.ok,
                    Err(_) => !m.ok,
                })
            }),
        decreases *stmt, 0nat, 2nat,
    {
        match stmt {
            Statement::Return(expr_opt, location) => {
                match expr_opt {
                    Some(e0) => {
                        let return_type = match self.check_expression(e0) {
                            Ok(t) => t,
                            Err(_) => {
                                return Ok(());
                            },
                        };
                        proof {
                            lemma_vty_shape(return_type);
                        }
                        if !matches!(return_type, Type::Error) {
                            if !self.types_compatible(expected_return_type, &return_type) {
                                let m = msg_return_mismatch(expected_return_type, &return_type);
                                let s = sugg_return_value(expected_return_type);
                                self.report(*location, m, Some(s));
                            }
                        }
                        self.return_frame_check(e0, *location);
                        Ok(())
                    },
                    None => {
                        proof {
                            lemma_vty_shape(*expected_return_type);
                        }
                        if !matches!(expected_return_type, Type::Void) {
                            let m = crate::messages::msg_return_missing(expected_return_type);
                            let s = sugg_return_value(expected_return_type);
                            self.report(*location, m, Some(s));
                        }
                        Ok(())
                    },
                }
            },
            _ => self.check_statement(stmt),
        }
    }
}

} // verus!
