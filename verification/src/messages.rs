use vstd::prelude::*;

use crate::ast::{Type, TyV, ShaderStage, vty};
use crate::compat::{spec_ty_str, ty_str, spec_suggest_value, suggest_value};
use crate::text::{spec_dec, usize_dec};

verus! {

// ---------------------------------------------------------------------------
// Texts of the checker's diagnostics
// ---------------------------------------------------------------------------

// -- declarations pass --

pub open spec fn spec_msg_soa(cname: Seq<char>, fname: Seq<char>) -> Seq<char> {
    "SOA component '"@ + cname + "' field '"@ + fname
        + "' must be an array type (use [Type] instead of Type)"@
}

pub fn msg_soa(cname: &str, fname: &str) -> (r: String)
    ensures
        r@ == spec_msg_soa(cname@, fname@),
{
    let mut s = String::from_str("SOA component '");
    s.append(cname);
    s.append("' field '");
    s.append(fname);
    s.append("' must be an array type (use [Type] instead of Type)");
    s
}

pub open spec fn spec_sugg_soa(fname: Seq<char>, t: TyV) -> Seq<char> {
    "Change '"@ + fname + ": "@ + spec_ty_str(t) + "' to '"@ + fname + ": ["@ + spec_ty_str(t)
        + "]'"@
}

pub fn sugg_soa(fname: &str, t: &Type) -> (r: String)
    ensures
        r@ == spec_sugg_soa(fname@, vty(*t)),
{
    let ts = ty_str(t);
    let mut s = String::from_str("Change '");
    s.append(fname);
    s.append(": ");
    s.append(ts.as_str());
    s.append("' to '");
    s.append(fname);
    s.append(": [");
    s.append(ts.as_str());
    s.append("]'");
    s
}

pub open spec fn spec_stage_name(stage: ShaderStage) -> Seq<char> {
    match stage {
        ShaderStage::Vertex => "vertex"@,
        ShaderStage::Fragment => "fragment"@,
        ShaderStage::Compute => "compute"@,
        ShaderStage::Geometry => "geometry"@,
        ShaderStage::TessellationControl => "tessellation_control"@,
        ShaderStage::TessellationEvaluation => "tessellation_evaluation"@,
    }
}

pub fn stage_name(stage: ShaderStage) -> (r: &'static str)
    ensures
        r@ == spec_stage_name(stage),
{
    match stage {
        ShaderStage::Vertex => "vertex",
        ShaderStage::Fragment => "fragment",
        ShaderStage::Compute => "compute",
        ShaderStage::Geometry => "geometry",
        ShaderStage::TessellationControl => "tessellation_control",
        ShaderStage::TessellationEvaluation => "tessellation_evaluation",
    }
}

pub open spec fn spec_stage_ext(stage: ShaderStage) -> Seq<char> {
    match stage {
        ShaderStage::Vertex => ".vert"@,
        ShaderStage::Fragment => ".frag"@,
        ShaderStage::Compute => ".comp"@,
        ShaderStage::Geometry => ".geom"@,
        ShaderStage::TessellationControl => ".tesc"@,
        ShaderStage::TessellationEvaluation => ".tese"@,
    }
}

pub fn stage_ext(stage: ShaderStage) -> (r: &'static str)
    ensures
        r@ == spec_stage_ext(stage),
{
    match stage {
        ShaderStage::Vertex => ".vert",
        ShaderStage::Fragment => ".frag",
        ShaderStage::Compute => ".comp",
        ShaderStage::Geometry => ".geom",
        ShaderStage::TessellationControl => ".tesc",
        ShaderStage::TessellationEvaluation => ".tese",
    }
}

pub open spec fn spec_msg_shader_stage(stage: ShaderStage, path: Seq<char>) -> Seq<char> {
    "Shader stage '"@ + spec_stage_name(stage) + "' does not match file extension. Expected '"@
        + spec_stage_ext(stage) + "' extension for "@ + spec_stage_name(stage)
        + " shader, but got '"@ + path + "'"@
}

pub fn msg_shader_stage(stage: ShaderStage, path: &str) -> (r: String)
    ensures
        r@ == spec_msg_shader_stage(stage, path@),
{
    let mut s = String::from_str("Shader stage '");
    s.append(stage_name(stage));
    s.append("' does not match file extension. Expected '");
    s.append(stage_ext(stage));
    s.append("' extension for ");
    s.append(stage_name(stage));
    s.append(" shader, but got '");
    s.append(path);
    s.append("'");
    s
}

pub open spec fn spec_sugg_shader_stage(stage: ShaderStage) -> Seq<char> {
    "Change the file path to end with '"@ + spec_stage_ext(stage)
        + "' or use a .glsl extension for generic shaders"@
}

pub fn sugg_shader_stage(stage: ShaderStage) -> (r: String)
    ensures
        r@ == spec_sugg_shader_stage(stage),
{
    let mut s = String::from_str("Change the file path to end with '");
    s.append(stage_ext(stage));
    s.append("' or use a .glsl extension for generic shaders");
    s
}

// -- statements --

pub open spec fn spec_msg_return_mismatch(expected: TyV, got: TyV) -> Seq<char> {
    "Return type mismatch: function returns '"@ + spec_ty_str(expected) + "', but got '"@
        + spec_ty_str(got) + "'"@
}

pub fn msg_return_mismatch(expected: &Type, got: &Type) -> (r: String)
    ensures
        r@ == spec_msg_return_mismatch(vty(*expected), vty(*got)),
{
    let mut s = String::from_str("Return type mismatch: function returns '");
    let e = ty_str(expected);
    s.append(e.as_str());
    s.append("', but got '");
    let g = ty_str(got);
    s.append(g.as_str());
    s.append("'");
    s
}

pub open spec fn spec_sugg_return_value(expected: TyV) -> Seq<char> {
    "Return a "@ + spec_ty_str(expected) + " value: return <value>;"@
}

pub fn sugg_return_value(expected: &Type) -> (r: String)
    ensures
        r@ == spec_sugg_return_value(vty(*expected)),
{
    let mut s = String::from_str("Return a ");
    let e = ty_str(expected);
    s.append(e.as_str());
    s.append(" value: return <value>;");
    s
}

pub open spec fn spec_msg_frame_escape_var(name: Seq<char>) -> Seq<char> {
    "Cannot return frame-scoped allocation '"@ + name
        + "': frame-scoped memory is only valid within the current frame"@
}

pub fn msg_frame_escape_var(name: &str) -> (r: String)
    ensures
        r@ == spec_msg_frame_escape_var(name@),
{
    let mut s = String::from_str("Cannot return frame-scoped allocation '");
    s.append(name);
    s.append("': frame-scoped memory is only valid within the current frame");
    s
}

pub open spec fn spec_msg_frame_escape() -> Seq<char> {
    "Cannot return frame-scoped allocation: frame-scoped memory is only valid within the current frame"@
}

pub open spec fn spec_sugg_frame_escape() -> Seq<char> {
    "Frame-scoped allocations (from frame.alloc_array) cannot be returned from functions. Consider using heap allocation or passing the FrameArena as a parameter."@
}

pub open spec fn spec_msg_return_missing(expected: TyV) -> Seq<char> {
    "Function must return '"@ + spec_ty_str(expected) + "', but return statement has no value"@
}

pub fn msg_return_missing(expected: &Type) -> (r: String)
    ensures
        r@ == spec_msg_return_missing(vty(*expected)),
{
    let mut s = String::from_str("Function must return '");
    let e = ty_str(expected);
    s.append(e.as_str());
    s.append("', but return statement has no value");
    s
}

pub open spec fn spec_msg_let_mismatch(value: TyV, declared: TyV) -> Seq<char> {
    "Type mismatch: cannot assign '"@ + spec_ty_str(value) + "' to '"@ + spec_ty_str(declared)
        + "'"@
}

pub fn msg_let_mismatch(value: &Type, declared: &Type) -> (r: String)
    ensures
        r@ == spec_msg_let_mismatch(vty(*value), vty(*declared)),
{
    let mut s = String::from_str("Type mismatch: cannot assign '");
    let v = ty_str(value);
    s.append(v.as_str());
    s.append("' to '");
    let d = ty_str(declared);
    s.append(d.as_str());
    s.append("'");
    s
}

pub open spec fn spec_sugg_let_mismatch(declared: TyV, name: Seq<char>) -> Seq<char> {
    "Use a "@ + spec_ty_str(declared) + " variable or convert: "@ + name + " = "@
        + spec_suggest_value(declared)
}

pub fn sugg_let_mismatch(declared: &Type, name: &str) -> (r: String)
    ensures
        r@ == spec_sugg_let_mismatch(vty(*declared), name@),
{
    let mut s = String::from_str("Use a ");
    let d = ty_str(declared);
    s.append(d.as_str());
    s.append(" variable or convert: ");
    s.append(name);
    s.append(" = ");
    let sv = suggest_value(declared);
    s.append(sv.as_str());
    s
}

pub open spec fn spec_msg_assign_mismatch(value: TyV, target: TyV) -> Seq<char> {
    "Type mismatch in assignment: cannot assign '"@ + spec_ty_str(value) + "' to '"@
        + spec_ty_str(target) + "'"@
}

pub fn msg_assign_mismatch(value: &Type, target: &Type) -> (r: String)
    ensures
        r@ == spec_msg_assign_mismatch(vty(*value), vty(*target)),
{
    let mut s = String::from_str("Type mismatch in assignment: cannot assign '");
    let v = ty_str(value);
    s.append(v.as_str());
    s.append("' to '");
    let t = ty_str(target);
    s.append(t.as_str());
    s.append("'");
    s
}

pub open spec fn spec_sugg_assign_mismatch(value: TyV, target: TyV) -> Seq<char> {
    "Ensure types match: "@ + spec_ty_str(value) + " should be "@ + spec_ty_str(target)
}

pub fn sugg_assign_mismatch(value: &Type, target: &Type) -> (r: String)
    ensures
        r@ == spec_sugg_assign_mismatch(vty(*value), vty(*target)),
{
    let mut s = String::from_str("Ensure types match: ");
    let v = ty_str(value);
    s.append(v.as_str());
    s.append(" should be ");
    let t = ty_str(target);
    s.append(t.as_str());
    s
}

pub open spec fn spec_msg_if_cond(t: TyV) -> Seq<char> {
    "If condition must be bool or optional type, got '"@ + spec_ty_str(t) + "'"@
}

pub fn msg_if_cond(t: &Type) -> (r: String)
    ensures
        r@ == spec_msg_if_cond(vty(*t)),
{
    let mut s = String::from_str("If condition must be bool or optional type, got '");
    let ts = ty_str(t);
    s.append(ts.as_str());
    s.append("'");
    s
}

pub open spec fn spec_sugg_if_cond() -> Seq<char> {
    "Use a boolean expression: if (condition == true) or if (x > 0), or check optional: if optional { ... }"@
}

pub open spec fn spec_msg_while_cond(t: TyV) -> Seq<char> {
    "While condition must be bool, got '"@ + spec_ty_str(t) + "'"@
}

pub fn msg_while_cond(t: &Type) -> (r: String)
    ensures
        r@ == spec_msg_while_cond(vty(*t)),
{
    let mut s = String::from_str("While condition must be bool, got '");
    let ts = ty_str(t);
    s.append(ts.as_str());
    s.append("'");
    s
}

pub open spec fn spec_sugg_while_cond() -> Seq<char> {
    "Use a boolean expression: while (condition == true) or while (x > 0)"@
}

pub open spec fn spec_msg_for_collection(t: TyV) -> Seq<char> {
    "For loop collection must be a query type, got '"@ + spec_ty_str(t) + "'"@
}

pub fn msg_for_collection(t: &Type) -> (r: String)
    ensures
        r@ == spec_msg_for_collection(vty(*t)),
{
    let mut s = String::from_str("For loop collection must be a query type, got '");
    let ts = ty_str(t);
    s.append(ts.as_str());
    s.append("'");
    s
}

pub open spec fn spec_sugg_for_collection() -> Seq<char> {
    "Use a query: for entity in query<Position, Velocity>"@
}

// -- expressions --

pub open spec fn spec_msg_interp_type(name: Seq<char>, t: TyV) -> Seq<char> {
    "Variable '"@ + name + "' has type '"@ + spec_ty_str(t)
        + "', which cannot be converted to string in interpolation"@
}

pub fn msg_interp_type(name: &str, t: &Type) -> (r: String)
    ensures
        r@ == spec_msg_interp_type(name@, vty(*t)),
{
    let mut s = String::from_str("Variable '");
    s.append(name);
    s.append("' has type '");
    let ts = ty_str(t);
    s.append(ts.as_str());
    s.append("', which cannot be converted to string in interpolation");
    s
}

pub open spec fn spec_sugg_interp_type() -> Seq<char> {
    "Use a numeric type (i32, i64, f32, f64), bool, or string for string interpolation"@
}

pub open spec fn spec_msg_interp_undef(name: Seq<char>) -> Seq<char> {
    "Undefined variable '"@ + name + "' in string interpolation"@
}

pub fn msg_interp_undef(name: &str) -> (r: String)
    ensures
        r@ == spec_msg_interp_undef(name@),
{
    let mut s = String::from_str("Undefined variable '");
    s.append(name);
    s.append("' in string interpolation");
    s
}

pub open spec fn spec_sugg_interp_closest(closest: Seq<char>) -> Seq<char> {
    "Did you mean '"@ + closest + "'? Use: {}"@
}

pub fn sugg_interp_closest(closest: &str) -> (r: String)
    ensures
        r@ == spec_sugg_interp_closest(closest@),
{
    let mut s = String::from_str("Did you mean '");
    s.append(closest);
    s.append("'? Use: {}");
    s
}

pub open spec fn spec_sugg_declare_var(name: Seq<char>) -> Seq<char> {
    "Did you mean to declare it first? Use: let "@ + name + ": Type = value;"@
}

pub fn sugg_declare_var(name: &str) -> (r: String)
    ensures
        r@ == spec_sugg_declare_var(name@),
{
    let mut s = String::from_str("Did you mean to declare it first? Use: let ");
    s.append(name);
    s.append(": Type = value;");
    s
}

pub open spec fn spec_msg_undef_var(name: Seq<char>) -> Seq<char> {
    "Undefined variable: '"@ + name + "'"@
}

pub fn msg_undef_var(name: &str) -> (r: String)
    ensures
        r@ == spec_msg_undef_var(name@),
{
    let mut s = String::from_str("Undefined variable: '");
    s.append(name);
    s.append("'");
    s
}

pub open spec fn spec_sugg_var_closest(closest: Seq<char>) -> Seq<char> {
    "Did you mean '"@ + closest + "'? Use: "@ + closest
}

pub fn sugg_var_closest(closest: &str) -> (r: String)
    ensures
        r@ == spec_sugg_var_closest(closest@),
{
    let mut s = String::from_str("Did you mean '");
    s.append(closest);
    s.append("'? Use: ");
    s.append(closest);
    s
}

pub open spec fn spec_msg_arith(l: TyV, r: TyV) -> Seq<char> {
    "Arithmetic operations require numeric types, got '"@ + spec_ty_str(l) + "' and '"@
        + spec_ty_str(r) + "'"@
}

pub fn msg_arith(l: &Type, rt: &Type) -> (r: String)
    ensures
        r@ == spec_msg_arith(vty(*l), vty(*rt)),
{
    let mut s = String::from_str("Arithmetic operations require numeric types, got '");
    let ls = ty_str(l);
    s.append(ls.as_str());
    s.append("' and '");
    let rs = ty_str(rt);
    s.append(rs.as_str());
    s.append("'");
    s
}

pub open spec fn spec_sugg_arith() -> Seq<char> {
    "Use numeric types (i32, i64, f32, f64) for arithmetic operations"@
}

pub open spec fn spec_msg_logic(l: TyV, r: TyV) -> Seq<char> {
    "Logical operations require bool types, got '"@ + spec_ty_str(l) + "' and '"@
        + spec_ty_str(r) + "'"@
}

pub fn msg_logic(l: &Type, rt: &Type) -> (r: String)
    ensures
        r@ == spec_msg_logic(vty(*l), vty(*rt)),
{
    let mut s = String::from_str("Logical operations require bool types, got '");
    let ls = ty_str(l);
    s.append(ls.as_str());
    s.append("' and '");
    let rs = ty_str(rt);
    s.append(rs.as_str());
    s.append("'");
    s
}

pub open spec fn spec_sugg_logic() -> Seq<char> {
    "Use bool types for logical operations (&&, ||)"@
}

pub open spec fn spec_msg_neg(t: TyV) -> Seq<char> {
    "Negation requires numeric type, got '"@ + spec_ty_str(t) + "'"@
}

pub fn msg_neg(t: &Type) -> (r: String)
    ensures
        r@ == spec_msg_neg(vty(*t)),
{
    let mut s = String::from_str("Negation requires numeric type, got '");
    let ts = ty_str(t);
    s.append(ts.as_str());
    s.append("'");
    s
}

pub open spec fn spec_sugg_neg() -> Seq<char> {
    "Use a numeric type (i32, i64, f32, f64) for negation"@
}

pub open spec fn spec_msg_not(t: TyV) -> Seq<char> {
    "Not requires bool type, got '"@ + spec_ty_str(t) + "'"@
}

pub fn msg_not(t: &Type) -> (r: String)
    ensures
        r@ == spec_msg_not(vty(*t)),
{
    let mut s = String::from_str("Not requires bool type, got '");
    let ts = ty_str(t);
    s.append(ts.as_str());
    s.append("'");
    s
}

pub open spec fn spec_sugg_not() -> Seq<char> {
    "Use a bool type for logical not (!)"@
}

pub open spec fn spec_msg_undef_fn(name: Seq<char>) -> Seq<char> {
    "Undefined function: '"@ + name + "'"@
}

pub fn msg_undef_fn(name: &str) -> (r: String)
    ensures
        r@ == spec_msg_undef_fn(name@),
{
    let mut s = String::from_str("Undefined function: '");
    s.append(name);
    s.append("'");
    s
}

pub open spec fn spec_sugg_fn_closest(closest: Seq<char>) -> Seq<char> {
    "Did you mean '"@ + closest + "'? Use: "@ + closest + "()"@
}

pub fn sugg_fn_closest(closest: &str) -> (r: String)
    ensures
        r@ == spec_sugg_fn_closest(closest@),
{
    let mut s = String::from_str("Did you mean '");
    s.append(closest);
    s.append("'? Use: ");
    s.append(closest);
    s.append("()");
    s
}

pub open spec fn spec_sugg_declare_fn(name: Seq<char>) -> Seq<char> {
    "Did you mean to declare it? Use: fn "@ + name + "() { ... }"@
}

pub fn sugg_declare_fn(name: &str) -> (r: String)
    ensures
        r@ == spec_sugg_declare_fn(name@),
{
    let mut s = String::from_str("Did you mean to declare it? Use: fn ");
    s.append(name);
    s.append("() { ... }");
    s
}

pub open spec fn spec_msg_arity(name: Seq<char>, want: nat, got: nat) -> Seq<char> {
    "Argument count mismatch for function '"@ + name + "': expected "@ + spec_dec(want)
        + " arguments, got "@ + spec_dec(got)
}

pub fn msg_arity(name: &str, want: usize, got: usize) -> (r: String)
    ensures
        r@ == spec_msg_arity(name@, want as nat, got as nat),
{
    let mut s = String::from_str("Argument count mismatch for function '");
    s.append(name);
    s.append("': expected ");
    let w = usize_dec(want);
    s.append(w.as_str());
    s.append(" arguments, got ");
    let g = usize_dec(got);
    s.append(g.as_str());
    s
}

pub open spec fn spec_sugg_arity(want: nat, name: Seq<char>) -> Seq<char> {
    "Call with "@ + spec_dec(want) + " arguments: "@ + name + "(...)"@
}

pub fn sugg_arity(want: usize, name: &str) -> (r: String)
    ensures
        r@ == spec_sugg_arity(want as nat, name@),
{
    let mut s = String::from_str("Call with ");
    let w = usize_dec(want);
    s.append(w.as_str());
    s.append(" arguments: ");
    s.append(name);
    s.append("(...)");
    s
}

pub open spec fn spec_msg_arg_mismatch(idx1: nat, name: Seq<char>, p: TyV, a: TyV) -> Seq<char> {
    "Argument "@ + spec_dec(idx1) + " type mismatch in function call '"@ + name
        + "': expected '"@ + spec_ty_str(p) + "', got '"@ + spec_ty_str(a) + "'"@
}

pub fn msg_arg_mismatch(idx1: usize, name: &str, p: &Type, a: &Type) -> (r: String)
    ensures
        r@ == spec_msg_arg_mismatch(idx1 as nat, name@, vty(*p), vty(*a)),
{
    let mut s = String::from_str("Argument ");
    let i = usize_dec(idx1);
    s.append(i.as_str());
    s.append(" type mismatch in function call '");
    s.append(name);
    s.append("': expected '");
    let ps = ty_str(p);
    s.append(ps.as_str());
    s.append("', got '");
    let asx = ty_str(a);
    s.append(asx.as_str());
    s.append("'");
    s
}

pub open spec fn spec_sugg_arg_mismatch(p: TyV, idx1: nat) -> Seq<char> {
    "Use a "@ + spec_ty_str(p) + " value for argument "@ + spec_dec(idx1)
}

pub fn sugg_arg_mismatch(p: &Type, idx1: usize) -> (r: String)
    ensures
        r@ == spec_sugg_arg_mismatch(vty(*p), idx1 as nat),
{
    let mut s = String::from_str("Use a ");
    let ps = ty_str(p);
    s.append(ps.as_str());
    s.append(" value for argument ");
    let i = usize_dec(idx1);
    s.append(i.as_str());
    s
}

pub open spec fn spec_msg_unwrap(t: TyV) -> Seq<char> {
    "Cannot call unwrap() on non-optional type '"@ + spec_ty_str(t) + "'"@
}

pub fn msg_unwrap(t: &Type) -> (r: String)
    ensures
        r@ == spec_msg_unwrap(vty(*t)),
{
    let mut s = String::from_str("Cannot call unwrap() on non-optional type '");
    let ts = ty_str(t);
    s.append(ts.as_str());
    s.append("'");
    s
}

pub open spec fn spec_sugg_unwrap() -> Seq<char> {
    "unwrap() can only be called on optional types (e.g., ?Type)"@
}

pub open spec fn spec_msg_index(t: TyV) -> Seq<char> {
    "Index operation requires array type, got '"@ + spec_ty_str(t) + "'"@
}

pub fn msg_index(t: &Type) -> (r: String)
    ensures
        r@ == spec_msg_index(vty(*t)),
{
    let mut s = String::from_str("Index operation requires array type, got '");
    let ts = ty_str(t);
    s.append(ts.as_str());
    s.append("'");
    s
}

pub open spec fn spec_sugg_index() -> Seq<char> {
    "Use an array type: array[index]"@
}

pub open spec fn spec_msg_empty_array() -> Seq<char> {
    "Cannot infer type of empty array literal"@
}

pub open spec fn spec_sugg_empty_array() -> Seq<char> {
    "Provide explicit type: let arr: [Type] = [];"@
}

pub open spec fn spec_msg_array_elem(idx1: nat, e: TyV, f: TyV) -> Seq<char> {
    "Array literal element "@ + spec_dec(idx1) + " has type '"@ + spec_ty_str(e)
        + "', but first element has type '"@ + spec_ty_str(f) + "'"@
}

pub fn msg_array_elem(idx1: usize, e: &Type, f: &Type) -> (r: String)
    ensures
        r@ == spec_msg_array_elem(idx1 as nat, vty(*e), vty(*f)),
{
    let mut s = String::from_str("Array literal element ");
    let i = usize_dec(idx1);
    s.append(i.as_str());
    s.append(" has type '");
    let es = ty_str(e);
    s.append(es.as_str());
    s.append("', but first element has type '");
    let fs = ty_str(f);
    s.append(fs.as_str());
    s.append("'");
    s
}

pub open spec fn spec_sugg_array_elem(f: TyV) -> Seq<char> {
    "All array elements must have the same type. Use type '"@ + spec_ty_str(f)
        + "' for all elements."@
}

pub fn sugg_array_elem(f: &Type) -> (r: String)
    ensures
        r@ == spec_sugg_array_elem(vty(*f)),
{
    let mut s = String::from_str("All array elements must have the same type. Use type '");
    let fs = ty_str(f);
    s.append(fs.as_str());
    s.append("' for all elements.");
    s
}

pub open spec fn spec_label_first_elem() -> Seq<char> {
    "Note: first element (expected type)"@
}

pub open spec fn spec_msg_undef_struct(name: Seq<char>) -> Seq<char> {
    "Undefined struct: '"@ + name + "'"@
}

pub fn msg_undef_struct(name: &str) -> (r: String)
    ensures
        r@ == spec_msg_undef_struct(name@),
{
    let mut s = String::from_str("Undefined struct: '");
    s.append(name);
    s.append("'");
    s
}

pub open spec fn spec_sugg_declare_struct(name: Seq<char>) -> Seq<char> {
    "Did you mean to declare it? Use: struct "@ + name + " { ... }"@
}

pub fn sugg_declare_struct(name: &str) -> (r: String)
    ensures
        r@ == spec_sugg_declare_struct(name@),
{
    let mut s = String::from_str("Did you mean to declare it? Use: struct ");
    s.append(name);
    s.append(" { ... }");
    s
}

} // verus!
