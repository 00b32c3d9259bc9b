use vstd::prelude::*;

use crate::ast::{
    TyV, LitV, InterpPartV, PatternV, ExprV, MatchArmV, StmtV, FieldV, ParamV,
    StructDefV, ComponentDefV, FunctionDefV, SystemDefV, ShaderDefV, ExternFunctionDefV,
    ResourceDefV, PipelineDefV, ItemV, ProgramV, BinaryOp, UnaryOp, ShaderStage,
    spec_expr_loc, spec_stmt_loc,
};
use crate::error::{DiagV, SourceLocation, spec_diag};
use crate::compat::{spec_compat, spec_ty_str};
use crate::messages::{
    spec_msg_soa, spec_sugg_soa, spec_stage_ext, spec_msg_shader_stage, spec_sugg_shader_stage,
    spec_msg_return_mismatch, spec_sugg_return_value, spec_msg_frame_escape_var,
    spec_msg_frame_escape, spec_sugg_frame_escape, spec_msg_return_missing,
    spec_msg_let_mismatch, spec_sugg_let_mismatch, spec_msg_assign_mismatch,
    spec_sugg_assign_mismatch, spec_msg_if_cond, spec_sugg_if_cond, spec_msg_while_cond,
    spec_sugg_while_cond, spec_msg_for_collection, spec_sugg_for_collection,
    spec_msg_interp_type, spec_sugg_interp_type, spec_msg_interp_undef,
    spec_sugg_interp_closest, spec_sugg_declare_var, spec_msg_undef_var,
    spec_sugg_var_closest, spec_msg_arith, spec_sugg_arith, spec_msg_logic, spec_sugg_logic,
    spec_msg_neg, spec_sugg_neg, spec_msg_not, spec_sugg_not, spec_msg_undef_fn,
    spec_sugg_fn_closest, spec_sugg_declare_fn, spec_msg_arity, spec_sugg_arity,
    spec_msg_arg_mismatch, spec_sugg_arg_mismatch, spec_msg_unwrap, spec_sugg_unwrap,
    spec_msg_index, spec_sugg_index, spec_msg_empty_array, spec_sugg_empty_array,
    spec_msg_array_elem, spec_sugg_array_elem, spec_label_first_elem, spec_msg_undef_struct,
    spec_sugg_declare_struct,
};
use crate::suggest::{spec_find_closest, spec_contains_sub};
use crate::text::{spec_lower, spec_ends_with};

verus! {

// ---------------------------------------------------------------------------
// The checker's state, mathematically
// ---------------------------------------------------------------------------

/// The signature a call is checked against.
pub ghost struct FnSigV {
    pub name: Seq<char>,
    pub params: Seq<TyV>,
    pub ret: TyV,
}

/// The global declaration tables, fully built before any body is checked.
pub ghost struct GlobalsV {
    pub functions: Seq<FnSigV>,
    pub structs: Seq<Seq<char>>,
    pub components: Seq<Seq<char>>,
}

/// The per-function state: the symbol table (in insertion order), the set of
/// frame-scoped variable names, and the diagnostics recorded so far.
pub ghost struct StV {
    pub symbols: Seq<(Seq<char>, TyV)>,
    pub frames: Seq<Seq<char>>,
    pub diags: Seq<DiagV>,
}

/// The outcome of checking an expression: its type, or nothing when checking
/// aborted, together with the state left behind.
pub ghost struct ExprRes {
    pub t: Option<TyV>,
    pub st: StV,
}

/// The outcome of checking a statement.
pub ghost struct StmtRes {
    pub ok: bool,
    pub st: StV,
}

// ---------------------------------------------------------------------------
// Table operations
// ---------------------------------------------------------------------------

pub open spec fn sym_find_from(sy: Seq<(Seq<char>, TyV)>, n: Seq<char>, i: int) -> Option<TyV>
    decreases sy.len() - i,
{
    if i < 0 || i >= sy.len() {
        None
    } else if sy[i].0 == n {
        Some(sy[i].1)
    } else {
        sym_find_from(sy, n, i + 1)
    }
}

pub open spec fn sym_find(sy: Seq<(Seq<char>, TyV)>, n: Seq<char>) -> Option<TyV> {
    sym_find_from(sy, n, 0)
}

pub open spec fn sym_insert_from(sy: Seq<(Seq<char>, TyV)>, n: Seq<char>, t: TyV, i: int) -> Seq<(Seq<char>, TyV)>
    decreases sy.len() - i,
{
    if i < 0 || i >= sy.len() {
        sy.push((n, t))
    } else if sy[i].0 == n {
        sy.update(i, (n, t))
    } else {
        sym_insert_from(sy, n, t, i + 1)
    }
}

pub open spec fn sym_insert(sy: Seq<(Seq<char>, TyV)>, n: Seq<char>, t: TyV) -> Seq<(Seq<char>, TyV)> {
    sym_insert_from(sy, n, t, 0)
}

pub open spec fn sym_remove_from(sy: Seq<(Seq<char>, TyV)>, n: Seq<char>, i: int) -> Seq<(Seq<char>, TyV)>
    decreases sy.len() - i,
{
    if i < 0 || i >= sy.len() {
        sy
    } else if sy[i].0 == n {
        sy.remove(i)
    } else {
        sym_remove_from(sy, n, i + 1)
    }
}

pub open spec fn sym_remove(sy: Seq<(Seq<char>, TyV)>, n: Seq<char>) -> Seq<(Seq<char>, TyV)> {
    sym_remove_from(sy, n, 0)
}

pub open spec fn sym_keys(sy: Seq<(Seq<char>, TyV)>) -> Seq<Seq<char>> {
    sy.map_values(|p: (Seq<char>, TyV)| p.0)
}

pub open spec fn fn_find_from(fns: Seq<FnSigV>, n: Seq<char>, i: int) -> Option<FnSigV>
    decreases fns.len() - i,
{
    if i < 0 || i >= fns.len() {
        None
    } else if fns[i].name == n {
        Some(fns[i])
    } else {
        fn_find_from(fns, n, i + 1)
    }
}

pub open spec fn fn_find(fns: Seq<FnSigV>, n: Seq<char>) -> Option<FnSigV> {
    fn_find_from(fns, n, 0)
}

pub open spec fn fn_insert_from(fns: Seq<FnSigV>, sig: FnSigV, i: int) -> Seq<FnSigV>
    decreases fns.len() - i,
{
    if i < 0 || i >= fns.len() {
        fns.push(sig)
    } else if fns[i].name == sig.name {
        fns.update(i, sig)
    } else {
        fn_insert_from(fns, sig, i + 1)
    }
}

pub open spec fn fn_insert(fns: Seq<FnSigV>, sig: FnSigV) -> Seq<FnSigV> {
    fn_insert_from(fns, sig, 0)
}

pub open spec fn fn_names(fns: Seq<FnSigV>) -> Seq<Seq<char>> {
    fns.map_values(|f: FnSigV| f.name)
}

pub open spec fn names_contains_from(ns: Seq<Seq<char>>, n: Seq<char>, i: int) -> bool
    decreases ns.len() - i,
{
    if i < 0 || i >= ns.len() {
        false
    } else if ns[i] == n {
        true
    } else {
        names_contains_from(ns, n, i + 1)
    }
}

pub open spec fn names_contains(ns: Seq<Seq<char>>, n: Seq<char>) -> bool {
    names_contains_from(ns, n, 0)
}

pub open spec fn names_insert(ns: Seq<Seq<char>>, n: Seq<char>) -> Seq<Seq<char>> {
    if names_contains(ns, n) {
        ns
    } else {
        ns.push(n)
    }
}

// ---------------------------------------------------------------------------
// Small classifications
// ---------------------------------------------------------------------------

pub open spec fn is_numeric(t: TyV) -> bool {
    t is I32 || t is I64 || t is F32 || t is F64
}

pub open spec fn is_stringable(t: TyV) -> bool {
    is_numeric(t) || t is Bool || t is Str
}

pub open spec fn lit_type(l: LitV) -> TyV {
    match l {
        LitV::Int(_) => TyV::I32,
        LitV::Float(_) => TyV::F32,
        LitV::Bool(_) => TyV::Bool,
        LitV::Str(_) => TyV::Str,
    }
}

/// The frame-allocation pattern the escape analysis recognizes: a member
/// access `frame.alloc_array`, or a call whose name mentions `alloc_array`.
pub open spec fn spec_is_frame_alloc(e: ExprV) -> bool {
    match e {
        ExprV::MemberAccess { object, member, .. } => {
            member == "alloc_array"@ && match *object {
                ExprV::Variable(n, _) => n == "frame"@,
                _ => false,
            }
        },
        ExprV::Call { name, .. } => spec_contains_sub(name, "alloc_array"@),
        _ => false,
    }
}

/// The suggestion attached to an undefined-variable diagnostic.
pub open spec fn spec_var_suggestion(name: Seq<char>, sy: Seq<(Seq<char>, TyV)>) -> Seq<char> {
    match spec_find_closest(name, sym_keys(sy), 3) {
        Some(c) => spec_sugg_var_closest(c),
        None => spec_sugg_declare_var(name),
    }
}

/// The suggestion attached to an undefined-variable-in-interpolation
/// diagnostic.
pub open spec fn spec_interp_suggestion(name: Seq<char>, sy: Seq<(Seq<char>, TyV)>) -> Seq<char> {
    match spec_find_closest(name, sym_keys(sy), 3) {
        Some(c) => spec_sugg_interp_closest(c),
        None => spec_sugg_declare_var(name),
    }
}

/// The suggestion attached to an undefined-function diagnostic.
pub open spec fn spec_fn_suggestion(name: Seq<char>, fns: Seq<FnSigV>) -> Seq<char> {
    match spec_find_closest(name, fn_names(fns), 3) {
        Some(c) => spec_sugg_fn_closest(c),
        None => spec_sugg_declare_fn(name),
    }
}

pub open spec fn with_diag(st: StV, d: DiagV) -> StV {
    StV { symbols: st.symbols, frames: st.frames, diags: st.diags.push(d) }
}

pub open spec fn with_symbols(st: StV, sy: Seq<(Seq<char>, TyV)>) -> StV {
    StV { symbols: sy, frames: st.frames, diags: st.diags }
}

// ---------------------------------------------------------------------------
// Checking expressions
// ---------------------------------------------------------------------------

pub open spec fn tc_expr(g: GlobalsV, st: StV, e: ExprV) -> ExprRes
    decreases e, 0nat, 0nat,
{
    match e {
        ExprV::Literal(l, _) => ExprRes { t: Some(lit_type(l)), st },
        ExprV::StringInterpolation { parts, location } => {
            let st2 = tc_interp(st, parts, location, 0);
            ExprRes { t: Some(TyV::Str), st: st2 }
        },
        ExprV::Match { expr, arms, location } => {
            let r = tc_expr(g, st, *expr);
            match r.t {
                None => ExprRes { t: None, st: r.st },
                Some(et) => {
                    let ar = tc_arms(g, r.st, arms, 0, et);
                    if ar.ok {
                        ExprRes { t: Some(TyV::Void), st: ar.st }
                    } else {
                        ExprRes { t: None, st: ar.st }
                    }
                },
            }
        },
        ExprV::Variable(n, location) => {
            match sym_find(st.symbols, n) {
                Some(t) => ExprRes { t: Some(t), st },
                None => {
                    let d = spec_diag(location, spec_msg_undef_var(n),
                        Some(spec_var_suggestion(n, st.symbols)));
                    ExprRes { t: Some(TyV::Error), st: with_diag(st, d) }
                },
            }
        },
        ExprV::BinaryOp { op, left, right, location } => {
            let rl = tc_expr(g, st, *left);
            match rl.t {
                None => ExprRes { t: None, st: rl.st },
                Some(lt) => {
                    let rr = tc_expr(g, rl.st, *right);
                    match rr.t {
                        None => ExprRes { t: None, st: rr.st },
                        Some(rt) => {
                            if lt is Error || rt is Error {
                                ExprRes { t: Some(TyV::Error), st: rr.st }
                            } else {
                                match op {
                                    BinaryOp::Add | BinaryOp::Sub | BinaryOp::Mul
                                    | BinaryOp::Div | BinaryOp::Mod => {
                                        if is_numeric(lt) && is_numeric(rt) {
                                            ExprRes { t: Some(lt), st: rr.st }
                                        } else {
                                            let d = spec_diag(location, spec_msg_arith(lt, rt),
                                                Some(spec_sugg_arith()));
                                            ExprRes { t: Some(TyV::Error), st: with_diag(rr.st, d) }
                                        }
                                    },
                                    BinaryOp::Eq | BinaryOp::Ne | BinaryOp::Lt | BinaryOp::Le
                                    | BinaryOp::Gt | BinaryOp::Ge => {
                                        ExprRes { t: Some(TyV::Bool), st: rr.st }
                                    },
                                    BinaryOp::And | BinaryOp::Or => {
                                        if lt is Bool && rt is Bool {
                                            ExprRes { t: Some(TyV::Bool), st: rr.st }
                                        } else {
                                            let d = spec_diag(location, spec_msg_logic(lt, rt),
                                                Some(spec_sugg_logic()));
                                            ExprRes { t: Some(TyV::Error), st: with_diag(rr.st, d) }
                                        }
                                    },
                                }
                            }
                        },
                    }
                },
            }
        },
        ExprV::UnaryOp { op, expr, location } => {
            let r = tc_expr(g, st, *expr);
            match r.t {
                None => ExprRes { t: None, st: r.st },
                Some(et) => {
                    match op {
                        UnaryOp::Neg => {
                            if is_numeric(et) {
                                ExprRes { t: Some(et), st: r.st }
                            } else {
                                let d = spec_diag(location, spec_msg_neg(et), Some(spec_sugg_neg()));
                                ExprRes { t: None, st: with_diag(r.st, d) }
                            }
                        },
                        UnaryOp::Not => {
                            if et is Bool {
                                ExprRes { t: Some(TyV::Bool), st: r.st }
                            } else {
                                let d = spec_diag(location, spec_msg_not(et), Some(spec_sugg_not()));
                                ExprRes { t: None, st: with_diag(r.st, d) }
                            }
                        },
                    }
                },
            }
        },
        ExprV::Call { name, args, location } => tc_call(g, st, name, args, location),
        ExprV::MemberAccess { object, member, location } => {
            let r = tc_expr(g, st, *object);
            match r.t {
                None => ExprRes { t: None, st: r.st },
                Some(ot) => {
                    if ot is Error {
                        ExprRes { t: Some(TyV::Error), st: r.st }
                    } else if member == "unwrap"@ {
                        match ot {
                            TyV::Optional(inner) => ExprRes { t: Some(*inner), st: r.st },
                            _ => {
                                let d = spec_diag(location, spec_msg_unwrap(ot),
                                    Some(spec_sugg_unwrap()));
                                ExprRes { t: Some(TyV::Error), st: with_diag(r.st, d) }
                            },
                        }
                    } else {
                        ExprRes { t: Some(TyV::F32), st: r.st }
                    }
                },
            }
        },
        ExprV::Index { array, index, location } => {
            let ra = tc_expr(g, st, *array);
            match ra.t {
                None => ExprRes { t: None, st: ra.st },
                Some(at) => {
                    let ri = tc_expr(g, ra.st, *index);
                    match ri.t {
                        None => ExprRes { t: None, st: ri.st },
                        Some(it) => {
                            if at is Error || it is Error {
                                ExprRes { t: Some(TyV::Error), st: ri.st }
                            } else {
                                match at {
                                    TyV::Array(el) => ExprRes { t: Some(*el), st: ri.st },
                                    _ => {
                                        let d = spec_diag(location, spec_msg_index(at),
                                            Some(spec_sugg_index()));
                                        ExprRes { t: None, st: with_diag(ri.st, d) }
                                    },
                                }
                            }
                        },
                    }
                },
            }
        },
        ExprV::ArrayLiteral { elements, location } => {
            if elements.len() == 0 {
                let d = spec_diag(location, spec_msg_empty_array(), Some(spec_sugg_empty_array()));
                ExprRes { t: Some(TyV::Error), st: with_diag(st, d) }
            } else {
                let rf = tc_expr(g, st, elements[0]);
                match rf.t {
                    None => ExprRes { t: None, st: rf.st },
                    Some(ft) => {
                        if ft is Error {
                            ExprRes { t: Some(TyV::Error), st: rf.st }
                        } else {
                            let er = tc_array_elems(g, rf.st, elements, 1, ft,
                                spec_expr_loc(elements[0]), false);
                            match er.t {
                                None => ExprRes { t: None, st: er.st },
                                Some(t0) => {
                                    if t0 is Error {
                                        ExprRes { t: Some(TyV::Error), st: er.st }
                                    } else {
                                        ExprRes { t: Some(TyV::Array(Box::new(ft))), st: er.st }
                                    }
                                },
                            }
                        }
                    },
                }
            }
        },
        ExprV::StructLiteral { name, fields, location } => {
            if name == "Vec2"@ {
                ExprRes { t: Some(TyV::Vec2), st }
            } else if name == "Vec3"@ {
                ExprRes { t: Some(TyV::Vec3), st }
            } else if name == "Vec4"@ {
                ExprRes { t: Some(TyV::Vec4), st }
            } else if name == "Mat4"@ {
                ExprRes { t: Some(TyV::Mat4), st }
            } else if names_contains(g.structs, name) {
                ExprRes { t: Some(TyV::Struct(name)), st }
            } else {
                let d = spec_diag(location, spec_msg_undef_struct(name),
                    Some(spec_sugg_declare_struct(name)));
                ExprRes { t: Some(TyV::Error), st: with_diag(st, d) }
            }
        },
    }
}

/// Interpolation parts: every referenced variable must exist and have a
/// stringifiable type. No failure aborts this walk.
pub open spec fn tc_interp(st: StV, parts: Seq<InterpPartV>, location: SourceLocation, i: int) -> StV
    decreases parts.len() - i,
{
    if i < 0 || i >= parts.len() {
        st
    } else {
        let st2 = match parts[i] {
            InterpPartV::Literal(_) => st,
            InterpPartV::Variable(vn) => {
                match sym_find(st.symbols, vn) {
                    Some(vt) => {
                        if is_stringable(vt) {
                            st
                        } else {
                            with_diag(st, spec_diag(location, spec_msg_interp_type(vn, vt),
                                Some(spec_sugg_interp_type())))
                        }
                    },
                    None => {
                        with_diag(st, spec_diag(location, spec_msg_interp_undef(vn),
                            Some(spec_interp_suggestion(vn, st.symbols))))
                    },
                }
            },
        };
        tc_interp(st2, parts, location, i + 1)
    }
}

/// One match arm: pattern variables are bound for the arm's body and the
/// symbol table is restored afterwards, unless the body aborts.
pub open spec fn tc_arm(g: GlobalsV, st: StV, arm: MatchArmV, et: TyV) -> StmtRes
    decreases arm, 0nat, 1nat,
{
    let saved = st.symbols;
    let st1 = match arm.pattern {
        PatternV::Variable(vn, _) => with_symbols(st, sym_insert(st.symbols, vn, et)),
        _ => st,
    };
    let br = tc_stmts_strict(g, st1, arm.body, 0);
    if br.ok {
        StmtRes { ok: true, st: with_symbols(br.st, saved) }
    } else {
        StmtRes { ok: false, st: br.st }
    }
}

pub open spec fn tc_arms(g: GlobalsV, st: StV, arms: Seq<MatchArmV>, i: int, et: TyV) -> StmtRes
    decreases arms, arms.len() - i, 2nat,
{
    if i < 0 || i >= arms.len() {
        StmtRes { ok: true, st }
    } else {
        let r = tc_arm(g, st, arms[i], et);
        if r.ok {
            tc_arms(g, r.st, arms, i + 1, et)
        } else {
            r
        }
    }
}

/// Checks a run of argument expressions, aborting on the first failure.
pub open spec fn tc_args_strict(g: GlobalsV, st: StV, args: Seq<ExprV>, i: int, upto: int) -> ExprRes
    decreases args, args.len() - i, 0nat,
{
    if i < 0 || i >= upto || i >= args.len() {
        ExprRes { t: Some(TyV::Void), st }
    } else {
        let r = tc_expr(g, st, args[i]);
        match r.t {
            None => ExprRes { t: None, st: r.st },
            Some(_) => tc_args_strict(g, r.st, args, i + 1, upto),
        }
    }
}

/// Checks call arguments against parameter types, accumulating mismatch
/// diagnostics; an abort in an argument aborts the call.
pub open spec fn tc_call_args(
    g: GlobalsV,
    st: StV,
    args: Seq<ExprV>,
    params: Seq<TyV>,
    name: Seq<char>,
    i: int,
    has_error: bool,
) -> ExprRes
    decreases args, args.len() - i, 0nat,
{
    if i < 0 || i >= args.len() || i >= params.len() {
        ExprRes { t: Some(if has_error { TyV::Error } else { TyV::Void }), st }
    } else {
        let r = tc_expr(g, st, args[i]);
        match r.t {
            None => ExprRes { t: None, st: r.st },
            Some(at) => {
                if at is Error {
                    tc_call_args(g, r.st, args, params, name, i + 1, true)
                } else if !spec_compat(params[i], at) {
                    let d = spec_diag(spec_expr_loc(args[i]),
                        spec_msg_arg_mismatch((i + 1) as nat, name, params[i], at),
                        Some(spec_sugg_arg_mismatch(params[i], (i + 1) as nat)));
                    tc_call_args(g, with_diag(r.st, d), args, params, name, i + 1, true)
                } else {
                    tc_call_args(g, r.st, args, params, name, i + 1, has_error)
                }
            },
        }
    }
}

/// Array-literal elements after the first: each must be compatible with the
/// first element's type; mismatches carry a secondary location pointing back
/// at the first element.
pub open spec fn tc_array_elems(
    g: GlobalsV,
    st: StV,
    elems: Seq<ExprV>,
    i: int,
    ft: TyV,
    first_loc: SourceLocation,
    has_error: bool,
) -> ExprRes
    decreases elems, elems.len() - i, 0nat,
{
    if i < 1 || i >= elems.len() {
        ExprRes { t: Some(if has_error { TyV::Error } else { TyV::Void }), st }
    } else {
        let r = tc_expr(g, st, elems[i]);
        match r.t {
            None => ExprRes { t: None, st: r.st },
            Some(et) => {
                if et is Error {
                    tc_array_elems(g, r.st, elems, i + 1, ft, first_loc, true)
                } else if !spec_compat(ft, et) {
                    let d = DiagV {
                        loc: spec_expr_loc(elems[i]),
                        msg: spec_msg_array_elem((i + 1) as nat, et, ft),
                        sugg: Some(spec_sugg_array_elem(ft)),
                        sec_loc: Some(first_loc),
                        sec_label: Some(spec_label_first_elem()),
                    };
                    tc_array_elems(g, with_diag(r.st, d), elems, i + 1, ft, first_loc, true)
                } else {
                    tc_array_elems(g, r.st, elems, i + 1, ft, first_loc, has_error)
                }
            },
        }
    }
}

/// Calls: the built-in `print`, a fixed catalogue of host windowing and UI
/// functions, then user-defined functions with arity and argument checks.
pub open spec fn tc_call(g: GlobalsV, st: StV, name: Seq<char>, args: Seq<ExprV>, location: SourceLocation) -> ExprRes
    decreases args, args.len() + 1, 1nat,
{
    if name == "print"@ {
        let r = tc_args_strict(g, st, args, 0, args.len() as int);
        match r.t {
            None => ExprRes { t: None, st: r.st },
            Some(_) => ExprRes { t: Some(TyV::Void), st: r.st },
        }
    } else if name == "glfwInit"@ {
        if args.len() != 0 { ExprRes { t: None, st } } else { ExprRes { t: Some(TyV::I32), st } }
    } else if name == "glfwCreateWindow"@ {
        if args.len() != 5 {
            ExprRes { t: None, st }
        } else {
            let r = tc_args_strict(g, st, args, 0, 5);
            match r.t {
                None => ExprRes { t: None, st: r.st },
                Some(_) => ExprRes { t: Some(TyV::GLFWwindow), st: r.st },
            }
        }
    } else if name == "glfwWindowShouldClose"@ {
        if args.len() != 1 {
            ExprRes { t: None, st }
        } else {
            let r = tc_args_strict(g, st, args, 0, 1);
            match r.t {
                None => ExprRes { t: None, st: r.st },
                Some(_) => ExprRes { t: Some(TyV::I32), st: r.st },
            }
        }
    } else if name == "glfwPollEvents"@ {
        if args.len() != 0 { ExprRes { t: None, st } } else { ExprRes { t: Some(TyV::Void), st } }
    } else if name == "glfwGetKey"@ {
        if args.len() != 2 {
            ExprRes { t: None, st }
        } else {
            let r = tc_args_strict(g, st, args, 0, 2);
            match r.t {
                None => ExprRes { t: None, st: r.st },
                Some(_) => ExprRes { t: Some(TyV::I32), st: r.st },
            }
        }
    } else if name == "glfwSetWindowShouldClose"@ {
        if args.len() != 2 {
            ExprRes { t: None, st }
        } else {
            let r = tc_args_strict(g, st, args, 0, 2);
            match r.t {
                None => ExprRes { t: None, st: r.st },
                Some(_) => ExprRes { t: Some(TyV::Void), st: r.st },
            }
        }
    } else if name == "glfwDestroyWindow"@ {
        if args.len() != 1 {
            ExprRes { t: None, st }
        } else {
            let r = tc_args_strict(g, st, args, 0, 1);
            match r.t {
                None => ExprRes { t: None, st: r.st },
                Some(_) => ExprRes { t: Some(TyV::Void), st: r.st },
            }
        }
    } else if name == "glfwTerminate"@ {
        if args.len() != 0 { ExprRes { t: None, st } } else { ExprRes { t: Some(TyV::Void), st } }
    } else if name == "glfwWindowHint"@ {
        if args.len() != 2 {
            ExprRes { t: None, st }
        } else {
            let r = tc_args_strict(g, st, args, 0, 2);
            match r.t {
                None => ExprRes { t: None, st: r.st },
                Some(_) => ExprRes { t: Some(TyV::Void), st: r.st },
            }
        }
    } else if name == "ImGui_Begin"@ || name == "ImGui::Begin"@ {
        if args.len() < 1 {
            ExprRes { t: None, st }
        } else {
            let r = tc_args_strict(g, st, args, 0, 1);
            match r.t {
                None => ExprRes { t: None, st: r.st },
                Some(_) => ExprRes { t: Some(TyV::Bool), st: r.st },
            }
        }
    } else if name == "ImGui_End"@ || name == "ImGui::End"@ {
        if args.len() != 0 { ExprRes { t: None, st } } else { ExprRes { t: Some(TyV::Void), st } }
    } else if name == "ImGui_Text"@ || name == "ImGui::Text"@ {
        if args.len() < 1 {
            ExprRes { t: None, st }
        } else {
            let r = tc_args_strict(g, st, args, 0, args.len() as int);
            match r.t {
                None => ExprRes { t: None, st: r.st },
                Some(_) => ExprRes { t: Some(TyV::Void), st: r.st },
            }
        }
    } else if name == "ImGui_Button"@ || name == "ImGui::Button"@ {
        if args.len() < 1 {
            ExprRes { t: None, st }
        } else {
            let r = tc_args_strict(g, st, args, 0, 1);
            match r.t {
                None => ExprRes { t: None, st: r.st },
                Some(_) => ExprRes { t: Some(TyV::Bool), st: r.st },
            }
        }
    } else if name == "ImGui_NewFrame"@ || name == "ImGui::NewFrame"@ {
        if args.len() != 0 { ExprRes { t: None, st } } else { ExprRes { t: Some(TyV::Void), st } }
    } else if name == "ImGui_Render"@ || name == "ImGui::Render"@ {
        if args.len() != 0 { ExprRes { t: None, st } } else { ExprRes { t: Some(TyV::Void), st } }
    } else {
        match fn_find(g.functions, name) {
            None => {
                let d = spec_diag(location, spec_msg_undef_fn(name),
                    Some(spec_fn_suggestion(name, g.functions)));
                ExprRes { t: Some(TyV::Error), st: with_diag(st, d) }
            },
            Some(sig) => {
                if args.len() != sig.params.len() {
                    let d = spec_diag(location,
                        spec_msg_arity(name, sig.params.len(), args.len()),
                        Some(spec_sugg_arity(sig.params.len(), name)));
                    ExprRes { t: Some(TyV::Error), st: with_diag(st, d) }
                } else {
                    let r = tc_call_args(g, st, args, sig.params, name, 0, false);
                    match r.t {
                        None => ExprRes { t: None, st: r.st },
                        Some(t0) => {
                            if t0 is Error {
                                ExprRes { t: Some(TyV::Error), st: r.st }
                            } else {
                                ExprRes { t: Some(sig.ret), st: r.st }
                            }
                        },
                    }
                }
            },
        }
    }
}

// ---------------------------------------------------------------------------
// Checking statements
// ---------------------------------------------------------------------------

pub open spec fn tc_stmt(g: GlobalsV, st: StV, s: StmtV) -> StmtRes
    decreases s, 0nat, 0nat,
{
    match s {
        StmtV::Let { name, ty, value, location } => {
            let r = tc_expr(g, st, value);
            match r.t {
                None => StmtRes { ok: false, st: r.st },
                Some(vt) => {
                    let st1 = if spec_is_frame_alloc(value) {
                        StV { symbols: r.st.symbols, frames: r.st.frames.push(name), diags: r.st.diags }
                    } else {
                        r.st
                    };
                    match ty {
                        Some(dt) => {
                            let st2 = if !spec_compat(dt, vt) && !(vt is Error) {
                                with_diag(st1, spec_diag(location, spec_msg_let_mismatch(vt, dt),
                                    Some(spec_sugg_let_mismatch(dt, name))))
                            } else {
                                st1
                            };
                            let st3 = if vt is Error {
                                with_symbols(st2, sym_insert(st2.symbols, name, TyV::Error))
                            } else {
                                with_symbols(st2, sym_insert(st2.symbols, name, dt))
                            };
                            StmtRes { ok: true, st: st3 }
                        },
                        None => {
                            StmtRes { ok: true, st: with_symbols(st1, sym_insert(st1.symbols, name, vt)) }
                        },
                    }
                },
            }
        },
        StmtV::Assign { target, value, location } => {
            let rt = tc_expr(g, st, target);
            let tt = match rt.t { Some(t) => t, None => TyV::Error };
            let rv = tc_expr(g, rt.st, value);
            let vt = match rv.t { Some(t) => t, None => TyV::Error };
            let st2 = if !(tt is Error) && !(vt is Error) && !spec_compat(tt, vt) {
                with_diag(rv.st, spec_diag(location, spec_msg_assign_mismatch(vt, tt),
                    Some(spec_sugg_assign_mismatch(vt, tt))))
            } else {
                rv.st
            };
            StmtRes { ok: true, st: st2 }
        },
        StmtV::If { condition, then_block, else_block, location } => {
            let rc = tc_expr(g, st, condition);
            let ct = match rc.t { Some(t) => t, None => TyV::Error };
            let st1 = if !(ct is Error) && !(ct is Bool) && !(ct is Optional) {
                with_diag(rc.st, spec_diag(location, spec_msg_if_cond(ct), Some(spec_sugg_if_cond())))
            } else {
                rc.st
            };
            let st2 = tc_stmts_swallow(g, st1, then_block, 0);
            let st3 = match else_block {
                Some(eb) => tc_stmts_swallow(g, st2, eb, 0),
                None => st2,
            };
            StmtRes { ok: true, st: st3 }
        },
        StmtV::While { condition, body, location } => {
            let rc = tc_expr(g, st, condition);
            let ct = match rc.t { Some(t) => t, None => TyV::Error };
            let st1 = if !(ct is Error) && !(ct is Bool) {
                with_diag(rc.st, spec_diag(location, spec_msg_while_cond(ct),
                    Some(spec_sugg_while_cond())))
            } else {
                rc.st
            };
            StmtRes { ok: true, st: tc_stmts_swallow(g, st1, body, 0) }
        },
        StmtV::For { iterator, collection, body, location } => {
            let rc = tc_expr(g, st, collection);
            let ct = match rc.t { Some(t) => t, None => TyV::Error };
            match ct {
                TyV::Query(comps) => {
                    let st1 = with_symbols(rc.st, sym_insert(rc.st.symbols, iterator, TyV::Query(comps)));
                    let st2 = tc_stmts_swallow(g, st1, body, 0);
                    StmtRes { ok: true, st: with_symbols(st2, sym_remove(st2.symbols, iterator)) }
                },
                _ => {
                    if ct is Error {
                        StmtRes { ok: true, st: rc.st }
                    } else {
                        StmtRes { ok: true, st: with_diag(rc.st, spec_diag(location,
                            spec_msg_for_collection(ct), Some(spec_sugg_for_collection()))) }
                    }
                },
            }
        },
        StmtV::Loop { body, .. } => tc_stmts_strict(g, st, body, 0),
        StmtV::Return(e, location) => {
            match e {
                Some(e0) => {
                    let r = tc_expr(g, st, e0);
                    match r.t {
                        None => StmtRes { ok: false, st: r.st },
                        Some(_) => {
                            StmtRes { ok: true, st: tc_return_frame_check(r.st, e0, location) }
                        },
                    }
                },
                None => StmtRes { ok: true, st },
            }
        },
        StmtV::Expression(e0, _) => {
            let r = tc_expr(g, st, e0);
            match r.t {
                None => StmtRes { ok: false, st: r.st },
                Some(_) => StmtRes { ok: true, st: r.st },
            }
        },
        StmtV::Block(ss, _) => StmtRes { ok: true, st: tc_stmts_swallow(g, st, ss, 0) },
        StmtV::Break(_) => StmtRes { ok: true, st },
        StmtV::Continue(_) => StmtRes { ok: true, st },
        StmtV::Defer(e0, _) => {
            let r = tc_expr(g, st, *e0);
            StmtRes { ok: true, st: r.st }
        },
    }
}

/// The escape check on a returned expression: returning a frame-tagged
/// variable, or a frame allocation directly, is rejected.
pub open spec fn tc_return_frame_check(st: StV, e: ExprV, location: SourceLocation) -> StV {
    match e {
        ExprV::Variable(vn, _) => {
            if names_contains(st.frames, vn) {
                with_diag(st, spec_diag(location, spec_msg_frame_escape_var(vn),
                    Some(spec_sugg_frame_escape())))
            } else {
                st
            }
        },
        _ => {
            if spec_is_frame_alloc(e) {
                with_diag(st, spec_diag(location, spec_msg_frame_escape(),
                    Some(spec_sugg_frame_escape())))
            } else {
                st
            }
        },
    }
}

/// Statement checking against the enclosing function's return type; only
/// `Return` differs from the plain walk.
pub open spec fn tc_stmt_ret(g: GlobalsV, st: StV, expected: TyV, s: StmtV) -> StmtRes
    decreases s, 0nat, 1nat,
{
    match s {
        StmtV::Return(e, location) => {
            match e {
                Some(e0) => {
                    let r = tc_expr(g, st, e0);
                    match r.t {
                        None => StmtRes { ok: true, st: r.st },
                        Some(rt) => {
                            let st1 = if !(rt is Error) && !spec_compat(expected, rt) {
                                with_diag(r.st, spec_diag(location,
                                    spec_msg_return_mismatch(expected, rt),
                                    Some(spec_sugg_return_value(expected))))
                            } else {
                                r.st
                            };
                            StmtRes { ok: true, st: tc_return_frame_check(st1, e0, location) }
                        },
                    }
                },
                None => {
                    if !(expected is Void) {
                        StmtRes { ok: true, st: with_diag(st, spec_diag(location,
                            spec_msg_return_missing(expected),
                            Some(spec_sugg_return_value(expected)))) }
                    } else {
                        StmtRes { ok: true, st }
                    }
                },
            }
        },
        _ => tc_stmt(g, st, s),
    }
}

/// A block of statements where a failing statement is skipped and checking
/// continues with the next one.
pub open spec fn tc_stmts_swallow(g: GlobalsV, st: StV, ss: Seq<StmtV>, i: int) -> StV
    decreases ss, ss.len() - i, 1nat,
{
    if i < 0 || i >= ss.len() {
        st
    } else {
        let r = tc_stmt(g, st, ss[i]);
        tc_stmts_swallow(g, r.st, ss, i + 1)
    }
}

/// A block of statements where the first failure aborts the walk.
pub open spec fn tc_stmts_strict(g: GlobalsV, st: StV, ss: Seq<StmtV>, i: int) -> StmtRes
    decreases ss, ss.len() - i, 1nat,
{
    if i < 0 || i >= ss.len() {
        StmtRes { ok: true, st }
    } else {
        let r = tc_stmt(g, st, ss[i]);
        if r.ok {
            tc_stmts_strict(g, r.st, ss, i + 1)
        } else {
            r
        }
    }
}

/// A function body: failures are swallowed statement by statement, so every
/// statement is looked at.
pub open spec fn tc_body(g: GlobalsV, st: StV, expected: TyV, ss: Seq<StmtV>, i: int) -> StV
    decreases ss, ss.len() - i, 2nat,
{
    if i < 0 || i >= ss.len() {
        st
    } else {
        let r = tc_stmt_ret(g, st, expected, ss[i]);
        tc_body(g, r.st, expected, ss, i + 1)
    }
}

/// Checking one function: the symbol table is rebuilt from the parameters,
/// the frame-scope set is cleared, and the body is walked.
pub open spec fn tc_fn(g: GlobalsV, st: StV, f: FunctionDefV) -> StV {
    let sy0 = params_table(f.params, 0, Seq::<(Seq<char>, TyV)>::empty());
    let st1 = StV { symbols: sy0, frames: Seq::<Seq<char>>::empty(), diags: st.diags };
    tc_body(g, st1, f.return_type, f.body, 0)
}

pub open spec fn params_table(ps: Seq<ParamV>, i: int, acc: Seq<(Seq<char>, TyV)>) -> Seq<(Seq<char>, TyV)>
    decreases ps.len() - i,
{
    if i < 0 || i >= ps.len() {
        acc
    } else {
        params_table(ps, i + 1, sym_insert(acc, ps[i].name, ps[i].ty))
    }
}

// ---------------------------------------------------------------------------
// Pass 1: collecting declarations
// ---------------------------------------------------------------------------

pub open spec fn sig_of_fn(f: FunctionDefV) -> FnSigV {
    FnSigV { name: f.name, params: f.params.map_values(|p: ParamV| p.ty), ret: f.return_type }
}

pub open spec fn sig_of_extern(x: ExternFunctionDefV) -> FnSigV {
    FnSigV { name: x.name, params: x.params.map_values(|p: ParamV| p.ty), ret: x.return_type }
}

/// The SOA diagnostics for one component: one per non-array field, in field
/// order, each at the unknown location.
pub open spec fn soa_diags(c: ComponentDefV, i: int, ds: Seq<DiagV>) -> Seq<DiagV>
    decreases c.fields.len() - i,
{
    if i < 0 || i >= c.fields.len() {
        ds
    } else {
        let f = c.fields[i];
        let ds2 = if !(f.ty is Array) {
            ds.push(spec_diag(SourceLocation { line: 0, column: 0 },
                spec_msg_soa(c.name, f.name), Some(spec_sugg_soa(f.name, f.ty))))
        } else {
            ds
        };
        soa_diags(c, i + 1, ds2)
    }
}

/// The shader-stage validation: the lowercased path must end with the
/// stage's extension, or with the generic `.spv` / `.glsl` escapes.
pub open spec fn shader_diags(sh: ShaderDefV, ds: Seq<DiagV>) -> Seq<DiagV> {
    let pl = spec_lower(sh.path);
    let ok = spec_ends_with(pl, spec_stage_ext(sh.stage))
        || spec_ends_with(pl, ".spv"@)
        || spec_ends_with(pl, ".glsl"@);
    if ok {
        ds
    } else {
        ds.push(spec_diag(SourceLocation { line: 0, column: 0 },
            spec_msg_shader_stage(sh.stage, sh.path), Some(spec_sugg_shader_stage(sh.stage))))
    }
}

pub open spec fn collect_system_fns(fns: Seq<FnSigV>, sfs: Seq<FunctionDefV>, i: int) -> Seq<FnSigV>
    decreases sfs.len() - i,
{
    if i < 0 || i >= sfs.len() {
        fns
    } else {
        collect_system_fns(fn_insert(fns, sig_of_fn(sfs[i])), sfs, i + 1)
    }
}

/// The synthesized resource accessors: `get_resource_<name>`, and for audio
/// resource kinds also `play_resource_<name>` and `stop_resource_<name>`.
pub open spec fn resource_fns(fns: Seq<FnSigV>, r: ResourceDefV) -> Seq<FnSigV> {
    let lower = spec_lower(r.name);
    let fns1 = fn_insert(fns, FnSigV {
        name: "get_resource_"@ + lower,
        params: Seq::<TyV>::empty(),
        ret: TyV::I32,
    });
    if r.resource_type == "Sound"@ || r.resource_type == "Music"@ {
        let fns2 = fn_insert(fns1, FnSigV {
            name: "play_resource_"@ + lower,
            params: Seq::<TyV>::empty(),
            ret: TyV::I32,
        });
        fn_insert(fns2, FnSigV {
            name: "stop_resource_"@ + lower,
            params: Seq::<TyV>::empty(),
            ret: TyV::Void,
        })
    } else {
        fns1
    }
}

pub ghost struct CollectRes {
    pub g: GlobalsV,
    pub diags: Seq<DiagV>,
}

/// The declaration-collection step for one item.
pub open spec fn collect_step(g: GlobalsV, ds: Seq<DiagV>, item: ItemV) -> CollectRes {
    let (g2, ds2): (GlobalsV, Seq<DiagV>) = match item {
            ItemV::Struct(s) => (GlobalsV {
                functions: g.functions,
                structs: names_insert(g.structs, s.name),
                components: g.components,
            }, ds),
            ItemV::Component(c) => {
                let ds1 = if c.is_soa { soa_diags(c, 0, ds) } else { ds };
                (GlobalsV {
                    functions: g.functions,
                    structs: g.structs,
                    components: names_insert(g.components, c.name),
                }, ds1)
            },
            ItemV::Function(f) => (GlobalsV {
                functions: fn_insert(g.functions, sig_of_fn(f)),
                structs: g.structs,
                components: g.components,
            }, ds),
            ItemV::ExternFunction(x) => (GlobalsV {
                functions: fn_insert(g.functions, sig_of_extern(x)),
                structs: g.structs,
                components: g.components,
            }, ds),
            ItemV::System(s) => (GlobalsV {
                functions: collect_system_fns(g.functions, s.functions, 0),
                structs: g.structs,
                components: g.components,
            }, ds),
            ItemV::Shader(sh) => (g, shader_diags(sh, ds)),
            ItemV::Resource(r) => (GlobalsV {
                functions: resource_fns(g.functions, r),
                structs: g.structs,
                components: g.components,
            }, ds),
            ItemV::Pipeline(_) => (g, ds),
    };
    CollectRes { g: g2, diags: ds2 }
}

pub open spec fn tc_collect(g: GlobalsV, ds: Seq<DiagV>, items: Seq<ItemV>, i: int) -> CollectRes
    decreases items.len() - i,
{
    if i < 0 || i >= items.len() {
        CollectRes { g, diags: ds }
    } else {
        let c = collect_step(g, ds, items[i]);
        tc_collect(c.g, c.diags, items, i + 1)
    }
}

// ---------------------------------------------------------------------------
// Pass 2: checking bodies, and the whole run
// ---------------------------------------------------------------------------

pub open spec fn tc_system_bodies(g: GlobalsV, st: StV, sfs: Seq<FunctionDefV>, i: int) -> StV
    decreases sfs.len() - i,
{
    if i < 0 || i >= sfs.len() {
        st
    } else {
        tc_system_bodies(g, tc_fn(g, st, sfs[i]), sfs, i + 1)
    }
}

pub open spec fn tc_pass2(g: GlobalsV, st: StV, items: Seq<ItemV>, i: int) -> StV
    decreases items.len() - i,
{
    if i < 0 || i >= items.len() {
        st
    } else {
        let st2 = match items[i] {
            ItemV::Function(f) => tc_fn(g, st, f),
            ItemV::System(s) => tc_system_bodies(g, st, s.functions, 0),
            _ => st,
        };
        tc_pass2(g, st2, items, i + 1)
    }
}

pub ghost struct CheckRes {
    pub g: GlobalsV,
    pub st: StV,
}

/// The whole run of the checker on a program: previously collected
/// declarations are kept, the diagnostics list starts empty, the two passes
/// run in order. The run fails exactly when it recorded any diagnostic.
pub open spec fn tc_check(g: GlobalsV, sy: Seq<(Seq<char>, TyV)>, fr: Seq<Seq<char>>, p: ProgramV) -> CheckRes {
    let c = tc_collect(g, Seq::<DiagV>::empty(), p.items, 0);
    let st0 = StV { symbols: sy, frames: fr, diags: c.diags };
    CheckRes { g: c.g, st: tc_pass2(c.g, st0, p.items, 0) }
}

} // verus!
