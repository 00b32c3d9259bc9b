use vstd::prelude::*;

use crate::ast::{
    TyV, LitV, InterpPartV, PatternV, ExprV, MatchArmV, StmtV, FieldV, ParamV,
    StructDefV, ComponentDefV, FunctionDefV, SystemDefV, ShaderDefV, ExternFunctionDefV,
    ResourceDefV, PipelineDefV, PipelineShaderV, PipelineLayoutV, LayoutBindingV, BindingTypeV,
    ItemV, ProgramV, BinaryOp, UnaryOp, ShaderStage,
};
use crate::error::{DiagV, SourceLocation, spec_diag};
use crate::lexer::{TokLocV, TokenV, tok_is};
use crate::parser::{loc_at, spec_token_desc};
use crate::text::{spec_dec, spec_is_word_char};

verus! {

// ---------------------------------------------------------------------------
// The parser's outcomes, mathematically
// ---------------------------------------------------------------------------

/// The outcome of one parsing step: a value and the position after it, or
/// the single diagnostic of the syntax error that stopped the parse.
pub ghost enum PRes<T> {
    Hit { v: T, pos: int },
    Fail(DiagV),
}

/// Positions handed to a recursive continuation, kept inside `(lo, hi]` so
/// every recursion visibly advances; the parsers below never leave the range,
/// so the clamp changes nothing.
pub open spec fn padv(p: int, lo: int, hi: int) -> int {
    let m = if p > hi { hi } else { p };
    if m < lo + 1 {
        lo + 1
    } else {
        m
    }
}

/// The number of tokens left at `pos`; zero past the end. Every recursion
/// of the parsing functions shrinks this, or keeps it and shrinks the rank.
pub open spec fn rem(toks: Seq<TokLocV>, pos: int) -> nat {
    if pos <= toks.len() {
        (toks.len() - pos) as nat
    } else {
        0nat
    }
}

/// Whether the token at `i` is of the given kind (false past the end).
pub open spec fn at_k(toks: Seq<TokLocV>, i: int, k: TokenV) -> bool {
    0 <= i < toks.len() && tok_is(toks[i].token, k)
}

/// The diagnostic name of the token at `i`, or of the end of input.
pub open spec fn desc_at(toks: Seq<TokLocV>, i: int) -> Seq<char> {
    if 0 <= i < toks.len() {
        spec_token_desc(toks[i].token)
    } else {
        "<end of input>"@
    }
}

// ---------------------------------------------------------------------------
// Diagnostic texts
// ---------------------------------------------------------------------------

pub open spec fn pm_expected(want: Seq<char>, got: Seq<char>) -> Seq<char> {
    "Expected "@ + want + ", got "@ + got
}

pub open spec fn pm_expected_sugg(want: Seq<char>) -> Seq<char> {
    "Expected token: "@ + want
}

pub open spec fn pm_expected_ident(got: Seq<char>) -> Seq<char> {
    "Expected identifier, got "@ + got
}

pub open spec fn pm_item_level(got: Seq<char>) -> Seq<char> {
    "Unexpected token at item level: "@ + got
}

pub open spec fn pm_in_type(got: Seq<char>) -> Seq<char> {
    "Unexpected token in type: "@ + got
}

pub open spec fn pm_in_expr(got: Seq<char>) -> Seq<char> {
    "Unexpected token in expression: "@ + got
}

pub open spec fn pm_in_pattern(got: Seq<char>) -> Seq<char> {
    "Unexpected token in pattern: "@ + got
}

pub open spec fn pm_vec_arity(ctor: Seq<char>, want: Seq<char>, got: nat) -> Seq<char> {
    ctor + " constructor expects "@ + want + " arguments, got "@ + spec_dec(got)
}

pub open spec fn pm_dup_binding(n: nat, name: Seq<char>) -> Seq<char> {
    "Duplicate binding index "@ + spec_dec(n) + " in pipeline '"@ + name + "' layout"@
}

pub open spec fn pm_dup_binding_sugg(n: nat) -> Seq<char> {
    "Use a different binding index. Binding "@ + spec_dec(n) + " is already used."@
}

pub open spec fn pm_invalid_interp_char(c: char) -> Seq<char> {
    "Invalid character in string interpolation variable name: '"@ + seq![c] + "'"@
}

// ---------------------------------------------------------------------------
// Atoms
// ---------------------------------------------------------------------------

/// One expected token of a fixed kind.
pub open spec fn p_expect(toks: Seq<TokLocV>, pos: int, k: TokenV) -> PRes<()> {
    if at_k(toks, pos, k) {
        PRes::Hit { v: (), pos: pos + 1 }
    } else {
        PRes::Fail(spec_diag(loc_at(toks, pos),
            pm_expected(spec_token_desc(k), desc_at(toks, pos)),
            Some(pm_expected_sugg(spec_token_desc(k)))))
    }
}

/// One identifier, yielding its name.
pub open spec fn p_ident(toks: Seq<TokLocV>, pos: int) -> PRes<Seq<char>> {
    if 0 <= pos < toks.len() && toks[pos].token is Ident {
        PRes::Hit { v: toks[pos].token->Ident_0, pos: pos + 1 }
    } else {
        PRes::Fail(spec_diag(loc_at(toks, pos), pm_expected_ident(desc_at(toks, pos)),
            Some("Use an identifier: a name starting with a letter or underscore"@)))
    }
}

/// One string literal, with the caller's message and suggestion on failure.
pub open spec fn p_string_token(toks: Seq<TokLocV>, pos: int, msg: Seq<char>, sugg: Seq<char>) -> PRes<Seq<char>> {
    if 0 <= pos < toks.len() && toks[pos].token is StringLit {
        PRes::Hit { v: toks[pos].token->StringLit_0, pos: pos + 1 }
    } else {
        PRes::Fail(spec_diag(loc_at(toks, pos), msg, Some(sugg)))
    }
}

/// The shader stage keyword.
pub open spec fn p_stage(toks: Seq<TokLocV>, pos: int) -> PRes<ShaderStage> {
    if at_k(toks, pos, TokenV::Vertex) {
        PRes::Hit { v: ShaderStage::Vertex, pos: pos + 1 }
    } else if at_k(toks, pos, TokenV::Fragment) {
        PRes::Hit { v: ShaderStage::Fragment, pos: pos + 1 }
    } else if at_k(toks, pos, TokenV::Compute) {
        PRes::Hit { v: ShaderStage::Compute, pos: pos + 1 }
    } else if at_k(toks, pos, TokenV::Geometry) {
        PRes::Hit { v: ShaderStage::Geometry, pos: pos + 1 }
    } else if at_k(toks, pos, TokenV::TessellationControl) {
        PRes::Hit { v: ShaderStage::TessellationControl, pos: pos + 1 }
    } else if at_k(toks, pos, TokenV::TessellationEvaluation) {
        PRes::Hit { v: ShaderStage::TessellationEvaluation, pos: pos + 1 }
    } else {
        PRes::Fail(spec_diag(loc_at(toks, pos),
            "Expected shader stage (vertex, fragment, compute, etc.)"@,
            Some("Use: vertex, fragment, compute, geometry, tessellation_control, or tessellation_evaluation"@)))
    }
}

// ---------------------------------------------------------------------------
// Types
// ---------------------------------------------------------------------------

#[verifier::opaque]
pub open spec fn p_type(toks: Seq<TokLocV>, pos: int) -> PRes<TyV>
    decreases rem(toks, pos), 26nat,
{
    if at_k(toks, pos, TokenV::I32) { PRes::Hit { v: TyV::I32, pos: pos + 1 } }
    else if at_k(toks, pos, TokenV::I64) { PRes::Hit { v: TyV::I64, pos: pos + 1 } }
    else if at_k(toks, pos, TokenV::F32) { PRes::Hit { v: TyV::F32, pos: pos + 1 } }
    else if at_k(toks, pos, TokenV::F64) { PRes::Hit { v: TyV::F64, pos: pos + 1 } }
    else if at_k(toks, pos, TokenV::Bool) { PRes::Hit { v: TyV::Bool, pos: pos + 1 } }
    else if at_k(toks, pos, TokenV::Str) { PRes::Hit { v: TyV::Str, pos: pos + 1 } }
    else if at_k(toks, pos, TokenV::Void) { PRes::Hit { v: TyV::Void, pos: pos + 1 } }
    else if at_k(toks, pos, TokenV::VkInstance) { PRes::Hit { v: TyV::VkInstance, pos: pos + 1 } }
    else if at_k(toks, pos, TokenV::VkDevice) { PRes::Hit { v: TyV::VkDevice, pos: pos + 1 } }
    else if at_k(toks, pos, TokenV::VkResult) { PRes::Hit { v: TyV::VkResult, pos: pos + 1 } }
    else if at_k(toks, pos, TokenV::VkPhysicalDevice) { PRes::Hit { v: TyV::VkPhysicalDevice, pos: pos + 1 } }
    else if at_k(toks, pos, TokenV::VkQueue) { PRes::Hit { v: TyV::VkQueue, pos: pos + 1 } }
    else if at_k(toks, pos, TokenV::VkCommandPool) { PRes::Hit { v: TyV::VkCommandPool, pos: pos + 1 } }
    else if at_k(toks, pos, TokenV::VkCommandBuffer) { PRes::Hit { v: TyV::VkCommandBuffer, pos: pos + 1 } }
    else if at_k(toks, pos, TokenV::VkSwapchainKHR) { PRes::Hit { v: TyV::VkSwapchainKHR, pos: pos + 1 } }
    else if at_k(toks, pos, TokenV::VkSurfaceKHR) { PRes::Hit { v: TyV::VkSurfaceKHR, pos: pos + 1 } }
    else if at_k(toks, pos, TokenV::VkRenderPass) { PRes::Hit { v: TyV::VkRenderPass, pos: pos + 1 } }
    else if at_k(toks, pos, TokenV::VkPipeline) { PRes::Hit { v: TyV::VkPipeline, pos: pos + 1 } }
    else if at_k(toks, pos, TokenV::VkFramebuffer) { PRes::Hit { v: TyV::VkFramebuffer, pos: pos + 1 } }
    else if at_k(toks, pos, TokenV::VkBuffer) { PRes::Hit { v: TyV::VkBuffer, pos: pos + 1 } }
    else if at_k(toks, pos, TokenV::VkImage) { PRes::Hit { v: TyV::VkImage, pos: pos + 1 } }
    else if at_k(toks, pos, TokenV::VkImageView) { PRes::Hit { v: TyV::VkImageView, pos: pos + 1 } }
    else if at_k(toks, pos, TokenV::VkSemaphore) { PRes::Hit { v: TyV::VkSemaphore, pos: pos + 1 } }
    else if at_k(toks, pos, TokenV::VkFence) { PRes::Hit { v: TyV::VkFence, pos: pos + 1 } }
    else if at_k(toks, pos, TokenV::GLFWwindow) { PRes::Hit { v: TyV::GLFWwindow, pos: pos + 1 } }
    else if at_k(toks, pos, TokenV::GLFWbool) { PRes::Hit { v: TyV::GLFWbool, pos: pos + 1 } }
    else if at_k(toks, pos, TokenV::Vec2) { PRes::Hit { v: TyV::Vec2, pos: pos + 1 } }
    else if at_k(toks, pos, TokenV::Vec3) { PRes::Hit { v: TyV::Vec3, pos: pos + 1 } }
    else if at_k(toks, pos, TokenV::Vec4) { PRes::Hit { v: TyV::Vec4, pos: pos + 1 } }
    else if at_k(toks, pos, TokenV::Mat4) { PRes::Hit { v: TyV::Mat4, pos: pos + 1 } }
    else if at_k(toks, pos, TokenV::Query) {
        match p_expect(toks, pos + 1, TokenV::Lt) {
            PRes::Fail(d) => PRes::Fail(d),
            PRes::Hit { pos: p2, .. } => {
                match p_query_list(toks, padv(p2, pos + 1, toks.len() as int)) {
                    PRes::Fail(d) => PRes::Fail(d),
                    PRes::Hit { v: ts, pos: p3 } => {
                        match p_expect(toks, p3, TokenV::Gt) {
                            PRes::Fail(d) => PRes::Fail(d),
                            PRes::Hit { pos: p4, .. } => PRes::Hit { v: TyV::Query(ts), pos: p4 },
                        }
                    },
                }
            },
        }
    }
    else if 0 <= pos < toks.len() && toks[pos].token is Ident {
        PRes::Hit { v: TyV::Struct(toks[pos].token->Ident_0), pos: pos + 1 }
    }
    else if at_k(toks, pos, TokenV::LBracket) {
        match p_type(toks, pos + 1) {
            PRes::Fail(d) => PRes::Fail(d),
            PRes::Hit { v: t, pos: p2 } => {
                match p_expect(toks, p2, TokenV::RBracket) {
                    PRes::Fail(d) => PRes::Fail(d),
                    PRes::Hit { pos: p3, .. } => PRes::Hit { v: TyV::Array(Box::new(t)), pos: p3 },
                }
            },
        }
    }
    else if at_k(toks, pos, TokenV::Question) {
        match p_type(toks, pos + 1) {
            PRes::Fail(d) => PRes::Fail(d),
            PRes::Hit { v: t, pos: p2 } => PRes::Hit { v: TyV::Optional(Box::new(t)), pos: p2 },
        }
    }
    else {
        PRes::Fail(spec_diag(loc_at(toks, pos), pm_in_type(desc_at(toks, pos)),
            Some("Expected: i32, i64, f32, f64, bool, string, void, or a type name"@)))
    }
}

/// The comma-separated component list of a query type.
#[verifier::opaque]
pub open spec fn p_query_list(toks: Seq<TokLocV>, pos: int) -> PRes<Seq<TyV>>
    decreases rem(toks, pos), 27nat,
{
    if pos < 0 || pos >= toks.len() {
        PRes::Fail(spec_diag(loc_at(toks, pos), pm_in_type(desc_at(toks, pos)),
            Some("Expected: i32, i64, f32, f64, bool, string, void, or a type name"@)))
    } else {
        match p_type(toks, pos) {
            PRes::Fail(d) => PRes::Fail(d),
            PRes::Hit { v: t, pos: p2 } => {
                if at_k(toks, p2, TokenV::Comma) {
                    match p_query_list(toks, padv(p2 + 1, pos, toks.len() as int)) {
                        PRes::Fail(d) => PRes::Fail(d),
                        PRes::Hit { v: ts, pos: p3 } => PRes::Hit { v: seq![t] + ts, pos: p3 },
                    }
                } else {
                    PRes::Hit { v: seq![t], pos: p2 }
                }
            },
        }
    }
}

// ---------------------------------------------------------------------------
// Expressions
// ---------------------------------------------------------------------------

#[verifier::opaque]
pub open spec fn p_expression(toks: Seq<TokLocV>, pos: int) -> PRes<ExprV>
    decreases rem(toks, pos), 23nat,
{
    p_assignment(toks, pos)
}

#[verifier::opaque]
pub open spec fn p_assignment(toks: Seq<TokLocV>, pos: int) -> PRes<ExprV>
    decreases rem(toks, pos), 22nat,
{
    p_or(toks, pos)
}

#[verifier::opaque]
pub open spec fn p_or(toks: Seq<TokLocV>, pos: int) -> PRes<ExprV>
    decreases rem(toks, pos), 21nat,
{
    match p_and(toks, pos) {
        PRes::Fail(d) => PRes::Fail(d),
        PRes::Hit { v: e, pos: p2 } => p_or_rest(toks, padv(p2, pos, toks.len() as int), e),
    }
}

#[verifier::opaque]
pub open spec fn p_or_rest(toks: Seq<TokLocV>, pos: int, left: ExprV) -> PRes<ExprV>
    decreases rem(toks, pos), 20nat,
{
    if at_k(toks, pos, TokenV::OrOr) {
        match p_and(toks, pos + 1) {
            PRes::Fail(d) => PRes::Fail(d),
            PRes::Hit { v: r, pos: p2 } => {
                p_or_rest(toks, padv(p2, pos, toks.len() as int), ExprV::BinaryOp {
                    op: BinaryOp::Or,
                    left: Box::new(left),
                    right: Box::new(r),
                    location: loc_at(toks, pos),
                })
            },
        }
    } else {
        PRes::Hit { v: left, pos }
    }
}

#[verifier::opaque]
pub open spec fn p_and(toks: Seq<TokLocV>, pos: int) -> PRes<ExprV>
    decreases rem(toks, pos), 19nat,
{
    match p_equality(toks, pos) {
        PRes::Fail(d) => PRes::Fail(d),
        PRes::Hit { v: e, pos: p2 } => p_and_rest(toks, padv(p2, pos, toks.len() as int), e),
    }
}

#[verifier::opaque]
pub open spec fn p_and_rest(toks: Seq<TokLocV>, pos: int, left: ExprV) -> PRes<ExprV>
    decreases rem(toks, pos), 18nat,
{
    if at_k(toks, pos, TokenV::AndAnd) {
        match p_equality(toks, pos + 1) {
            PRes::Fail(d) => PRes::Fail(d),
            PRes::Hit { v: r, pos: p2 } => {
                p_and_rest(toks, padv(p2, pos, toks.len() as int), ExprV::BinaryOp {
                    op: BinaryOp::And,
                    left: Box::new(left),
                    right: Box::new(r),
                    location: loc_at(toks, pos),
                })
            },
        }
    } else {
        PRes::Hit { v: left, pos }
    }
}

#[verifier::opaque]
pub open spec fn p_equality(toks: Seq<TokLocV>, pos: int) -> PRes<ExprV>
    decreases rem(toks, pos), 17nat,
{
    match p_comparison(toks, pos) {
        PRes::Fail(d) => PRes::Fail(d),
        PRes::Hit { v: e, pos: p2 } => p_equality_rest(toks, padv(p2, pos, toks.len() as int), e),
    }
}

#[verifier::opaque]
pub open spec fn p_equality_rest(toks: Seq<TokLocV>, pos: int, left: ExprV) -> PRes<ExprV>
    decreases rem(toks, pos), 16nat,
{
    if at_k(toks, pos, TokenV::EqEq) || at_k(toks, pos, TokenV::Ne) {
        let op = if at_k(toks, pos, TokenV::EqEq) { BinaryOp::Eq } else { BinaryOp::Ne };
        match p_comparison(toks, pos + 1) {
            PRes::Fail(d) => PRes::Fail(d),
            PRes::Hit { v: r, pos: p2 } => {
                p_equality_rest(toks, padv(p2, pos, toks.len() as int), ExprV::BinaryOp {
                    op,
                    left: Box::new(left),
                    right: Box::new(r),
                    location: loc_at(toks, pos),
                })
            },
        }
    } else {
        PRes::Hit { v: left, pos }
    }
}

#[verifier::opaque]
pub open spec fn p_comparison(toks: Seq<TokLocV>, pos: int) -> PRes<ExprV>
    decreases rem(toks, pos), 15nat,
{
    match p_term(toks, pos) {
        PRes::Fail(d) => PRes::Fail(d),
        PRes::Hit { v: e, pos: p2 } => p_comparison_rest(toks, padv(p2, pos, toks.len() as int), e),
    }
}

#[verifier::opaque]
pub open spec fn p_comparison_rest(toks: Seq<TokLocV>, pos: int, left: ExprV) -> PRes<ExprV>
    decreases rem(toks, pos), 14nat,
{
    if at_k(toks, pos, TokenV::Lt) || at_k(toks, pos, TokenV::Le) || at_k(toks, pos, TokenV::Gt)
        || at_k(toks, pos, TokenV::Ge) {
        let op = if at_k(toks, pos, TokenV::Lt) { BinaryOp::Lt }
            else if at_k(toks, pos, TokenV::Le) { BinaryOp::Le }
            else if at_k(toks, pos, TokenV::Gt) { BinaryOp::Gt }
            else { BinaryOp::Ge };
        match p_term(toks, pos + 1) {
            PRes::Fail(d) => PRes::Fail(d),
            PRes::Hit { v: r, pos: p2 } => {
                p_comparison_rest(toks, padv(p2, pos, toks.len() as int), ExprV::BinaryOp {
                    op,
                    left: Box::new(left),
                    right: Box::new(r),
                    location: loc_at(toks, pos),
                })
            },
        }
    } else {
        PRes::Hit { v: left, pos }
    }
}

#[verifier::opaque]
pub open spec fn p_term(toks: Seq<TokLocV>, pos: int) -> PRes<ExprV>
    decreases rem(toks, pos), 13nat,
{
    match p_factor(toks, pos) {
        PRes::Fail(d) => PRes::Fail(d),
        PRes::Hit { v: e, pos: p2 } => p_term_rest(toks, padv(p2, pos, toks.len() as int), e),
    }
}

#[verifier::opaque]
pub open spec fn p_term_rest(toks: Seq<TokLocV>, pos: int, left: ExprV) -> PRes<ExprV>
    decreases rem(toks, pos), 12nat,
{
    if at_k(toks, pos, TokenV::Plus) || at_k(toks, pos, TokenV::Minus) {
        let op = if at_k(toks, pos, TokenV::Plus) { BinaryOp::Add } else { BinaryOp::Sub };
        match p_factor(toks, pos + 1) {
            PRes::Fail(d) => PRes::Fail(d),
            PRes::Hit { v: r, pos: p2 } => {
                p_term_rest(toks, padv(p2, pos, toks.len() as int), ExprV::BinaryOp {
                    op,
                    left: Box::new(left),
                    right: Box::new(r),
                    location: loc_at(toks, pos),
                })
            },
        }
    } else {
        PRes::Hit { v: left, pos }
    }
}

#[verifier::opaque]
pub open spec fn p_factor(toks: Seq<TokLocV>, pos: int) -> PRes<ExprV>
    decreases rem(toks, pos), 11nat,
{
    match p_unary(toks, pos) {
        PRes::Fail(d) => PRes::Fail(d),
        PRes::Hit { v: e, pos: p2 } => p_factor_rest(toks, padv(p2, pos, toks.len() as int), e),
    }
}

#[verifier::opaque]
pub open spec fn p_factor_rest(toks: Seq<TokLocV>, pos: int, left: ExprV) -> PRes<ExprV>
    decreases rem(toks, pos), 10nat,
{
    if at_k(toks, pos, TokenV::Star) || at_k(toks, pos, TokenV::Slash)
        || at_k(toks, pos, TokenV::Percent) {
        let op = if at_k(toks, pos, TokenV::Star) { BinaryOp::Mul }
            else if at_k(toks, pos, TokenV::Slash) { BinaryOp::Div }
            else { BinaryOp::Mod };
        match p_unary(toks, pos + 1) {
            PRes::Fail(d) => PRes::Fail(d),
            PRes::Hit { v: r, pos: p2 } => {
                p_factor_rest(toks, padv(p2, pos, toks.len() as int), ExprV::BinaryOp {
                    op,
                    left: Box::new(left),
                    right: Box::new(r),
                    location: loc_at(toks, pos),
                })
            },
        }
    } else {
        PRes::Hit { v: left, pos }
    }
}

#[verifier::opaque]
pub open spec fn p_unary(toks: Seq<TokLocV>, pos: int) -> PRes<ExprV>
    decreases rem(toks, pos), 9nat,
{
    if at_k(toks, pos, TokenV::Bang) {
        match p_unary(toks, pos + 1) {
            PRes::Fail(d) => PRes::Fail(d),
            PRes::Hit { v: e, pos: p2 } => PRes::Hit {
                v: ExprV::UnaryOp { op: UnaryOp::Not, expr: Box::new(e), location: loc_at(toks, pos) },
                pos: p2,
            },
        }
    } else if at_k(toks, pos, TokenV::Minus) {
        match p_unary(toks, pos + 1) {
            PRes::Fail(d) => PRes::Fail(d),
            PRes::Hit { v: e, pos: p2 } => PRes::Hit {
                v: ExprV::UnaryOp { op: UnaryOp::Neg, expr: Box::new(e), location: loc_at(toks, pos) },
                pos: p2,
            },
        }
    } else {
        p_call(toks, pos)
    }
}

#[verifier::opaque]
pub open spec fn p_call(toks: Seq<TokLocV>, pos: int) -> PRes<ExprV>
    decreases rem(toks, pos), 8nat,
{
    match p_primary(toks, pos) {
        PRes::Fail(d) => PRes::Fail(d),
        PRes::Hit { v: e, pos: p2 } => p_postfix(toks, padv(p2, pos, toks.len() as int), e),
    }
}

/// The comma-separated expression list of a call's arguments or an array
/// literal's elements.
#[verifier::opaque]
pub open spec fn p_args(toks: Seq<TokLocV>, pos: int) -> PRes<Seq<ExprV>>
    decreases rem(toks, pos), 24nat,
{
    if pos < 0 || pos >= toks.len() {
        PRes::Fail(spec_diag(loc_at(toks, pos), pm_in_expr(desc_at(toks, pos)),
            Some("Expected: literal, identifier, or expression"@)))
    } else {
        match p_expression(toks, pos) {
            PRes::Fail(d) => PRes::Fail(d),
            PRes::Hit { v: e, pos: p2 } => {
                if at_k(toks, p2, TokenV::Comma) {
                    match p_args(toks, padv(p2 + 1, pos, toks.len() as int)) {
                        PRes::Fail(d) => PRes::Fail(d),
                        PRes::Hit { v: es, pos: p3 } => PRes::Hit { v: seq![e] + es, pos: p3 },
                    }
                } else {
                    PRes::Hit { v: seq![e], pos: p2 }
                }
            },
        }
    }
}

/// The `Vec2`/`Vec3`/`Vec4` constructor desugaring: the call becomes a
/// struct literal with `x`,`y`,`z`,`w` fields, never a call node; a wrong
/// argument count is the constructor-specific arity error.
pub open spec fn p_ctor(
    ctor: Seq<char>,
    want: int,
    wanttxt: Seq<char>,
    usage: Seq<char>,
    fields: Seq<Seq<char>>,
    args: Seq<ExprV>,
    call_location: SourceLocation,
) -> PRes<ExprV> {
    if args.len() != want {
        PRes::Fail(spec_diag(call_location, pm_vec_arity(ctor, wanttxt, args.len()), Some(usage)))
    } else {
        PRes::Hit {
            v: ExprV::StructLiteral {
                name: ctor,
                fields: Seq::new(args.len(), |i: int| (fields[i], args[i])),
                location: call_location,
            },
            pos: 0,
        }
    }
}

#[verifier::opaque]
pub open spec fn p_postfix(toks: Seq<TokLocV>, pos: int, e: ExprV) -> PRes<ExprV>
    decreases rem(toks, pos), 7nat,
{
    if at_k(toks, pos, TokenV::LParen) {
        let argsr: PRes<Seq<ExprV>> = if at_k(toks, pos + 1, TokenV::RParen) {
            PRes::Hit { v: Seq::<ExprV>::empty(), pos: pos + 1 }
        } else {
            p_args(toks, pos + 1)
        };
        match argsr {
            PRes::Fail(d) => PRes::Fail(d),
            PRes::Hit { v: args, pos: p2 } => {
                match p_expect(toks, p2, TokenV::RParen) {
                    PRes::Fail(d) => PRes::Fail(d),
                    PRes::Hit { pos: p3, .. } => {
                        let call_location = loc_at(toks, p3);
                        match e {
                            ExprV::Variable(name, _) => {
                                let node: PRes<ExprV> = if name == "Vec2"@ {
                                    p_ctor("Vec2"@, 2, "2"@, "Use: Vec2(x, y)"@,
                                        seq!["x"@, "y"@], args, call_location)
                                } else if name == "Vec3"@ {
                                    p_ctor("Vec3"@, 3, "3"@, "Use: Vec3(x, y, z)"@,
                                        seq!["x"@, "y"@, "z"@], args, call_location)
                                } else if name == "Vec4"@ {
                                    p_ctor("Vec4"@, 4, "4"@, "Use: Vec4(x, y, z, w)"@,
                                        seq!["x"@, "y"@, "z"@, "w"@], args, call_location)
                                } else {
                                    PRes::Hit {
                                        v: ExprV::Call { name, args, location: call_location },
                                        pos: 0,
                                    }
                                };
                                match node {
                                    PRes::Fail(d) => PRes::Fail(d),
                                    PRes::Hit { v: e2, .. } => {
                                        p_postfix(toks, padv(p3, pos, toks.len() as int), e2)
                                    },
                                }
                            },
                            _ => {
                                PRes::Fail(spec_diag(loc_at(toks, p3), "Expected function name"@,
                                    Some("Use an identifier for the function name: function_name(...)"@)))
                            },
                        }
                    },
                }
            },
        }
    } else if at_k(toks, pos, TokenV::Dot) {
        match p_ident(toks, pos + 1) {
            PRes::Fail(d) => PRes::Fail(d),
            PRes::Hit { v: member, pos: p2 } => {
                p_postfix(toks, padv(p2, pos, toks.len() as int), ExprV::MemberAccess {
                    object: Box::new(e),
                    member,
                    location: loc_at(toks, pos),
                })
            },
        }
    } else if at_k(toks, pos, TokenV::LBracket) {
        match p_expression(toks, pos + 1) {
            PRes::Fail(d) => PRes::Fail(d),
            PRes::Hit { v: idx, pos: p2 } => {
                match p_expect(toks, p2, TokenV::RBracket) {
                    PRes::Fail(d) => PRes::Fail(d),
                    PRes::Hit { pos: p3, .. } => {
                        p_postfix(toks, padv(p3, pos, toks.len() as int), ExprV::Index {
                            array: Box::new(e),
                            index: Box::new(idx),
                            location: loc_at(toks, pos),
                        })
                    },
                }
            },
        }
    } else {
        PRes::Hit { v: e, pos }
    }
}

#[verifier::opaque]
pub open spec fn p_primary(toks: Seq<TokLocV>, pos: int) -> PRes<ExprV>
    decreases rem(toks, pos), 6nat,
{
    let location = loc_at(toks, pos);
    if pos < 0 || pos >= toks.len() {
        PRes::Fail(spec_diag(location, pm_in_expr(desc_at(toks, pos)),
            Some("Expected: literal, identifier, or expression"@)))
    } else if toks[pos].token is Int {
        PRes::Hit { v: ExprV::Literal(LitV::Int(toks[pos].token->Int_0), location), pos: pos + 1 }
    } else if toks[pos].token is Float {
        PRes::Hit { v: ExprV::Literal(LitV::Float(toks[pos].token->Float_0), location), pos: pos + 1 }
    } else if at_k(toks, pos, TokenV::True) {
        PRes::Hit { v: ExprV::Literal(LitV::Bool(true), location), pos: pos + 1 }
    } else if at_k(toks, pos, TokenV::False) {
        PRes::Hit { v: ExprV::Literal(LitV::Bool(false), location), pos: pos + 1 }
    } else if at_k(toks, pos, TokenV::Null) {
        PRes::Fail(spec_diag(location,
            "Null literal not yet fully supported - use Optional types"@, None))
    } else if toks[pos].token is StringLit {
        let s = toks[pos].token->StringLit_0;
        if (exists|i: int| 0 <= i < s.len() && s[i] == '{')
            && (exists|i: int| 0 <= i < s.len() && s[i] == '}') {
            match p_interp(s, location) {
                PRes::Fail(d) => PRes::Fail(d),
                PRes::Hit { v: e, .. } => PRes::Hit { v: e, pos: pos + 1 },
            }
        } else {
            PRes::Hit { v: ExprV::Literal(LitV::Str(s), location), pos: pos + 1 }
        }
    } else if toks[pos].token is Ident {
        PRes::Hit { v: ExprV::Variable(toks[pos].token->Ident_0, location), pos: pos + 1 }
    } else if at_k(toks, pos, TokenV::Vec2) {
        PRes::Hit { v: ExprV::Variable("Vec2"@, location), pos: pos + 1 }
    } else if at_k(toks, pos, TokenV::Vec3) {
        PRes::Hit { v: ExprV::Variable("Vec3"@, location), pos: pos + 1 }
    } else if at_k(toks, pos, TokenV::Vec4) {
        PRes::Hit { v: ExprV::Variable("Vec4"@, location), pos: pos + 1 }
    } else if at_k(toks, pos, TokenV::Mat4) {
        PRes::Hit { v: ExprV::Variable("Mat4"@, location), pos: pos + 1 }
    } else if at_k(toks, pos, TokenV::LParen) {
        match p_expression(toks, pos + 1) {
            PRes::Fail(d) => PRes::Fail(d),
            PRes::Hit { v: e, pos: p2 } => {
                match p_expect(toks, p2, TokenV::RParen) {
                    PRes::Fail(d) => PRes::Fail(d),
                    PRes::Hit { pos: p3, .. } => PRes::Hit { v: e, pos: p3 },
                }
            },
        }
    } else if at_k(toks, pos, TokenV::LBracket) {
        let elemsr: PRes<Seq<ExprV>> = if at_k(toks, pos + 1, TokenV::RBracket) {
            PRes::Hit { v: Seq::<ExprV>::empty(), pos: pos + 1 }
        } else {
            p_args(toks, pos + 1)
        };
        match elemsr {
            PRes::Fail(d) => PRes::Fail(d),
            PRes::Hit { v: elements, pos: p2 } => {
                match p_expect(toks, p2, TokenV::RBracket) {
                    PRes::Fail(d) => PRes::Fail(d),
                    PRes::Hit { pos: p3, .. } => PRes::Hit {
                        v: ExprV::ArrayLiteral { elements, location },
                        pos: p3,
                    },
                }
            },
        }
    } else if at_k(toks, pos, TokenV::Match) {
        p_match(toks, pos)
    } else {
        PRes::Fail(spec_diag(location, pm_in_expr(desc_at(toks, pos)),
            Some("Expected: literal, identifier, or expression"@)))
    }
}

#[verifier::opaque]
pub open spec fn p_match(toks: Seq<TokLocV>, pos: int) -> PRes<ExprV>
    decreases rem(toks, pos), 5nat,
{
    let match_location = loc_at(toks, pos);
    if pos < 0 || pos >= toks.len() {
        PRes::Fail(spec_diag(loc_at(toks, pos + 1), pm_in_expr(desc_at(toks, pos + 1)),
            Some("Expected: literal, identifier, or expression"@)))
    } else {
        match p_expression(toks, pos + 1) {
            PRes::Fail(d) => PRes::Fail(d),
            PRes::Hit { v: e, pos: p2 } => {
                match p_expect(toks, p2, TokenV::LBrace) {
                    PRes::Fail(d) => PRes::Fail(d),
                    PRes::Hit { pos: p3, .. } => {
                        match p_arms(toks, padv(p3, pos, toks.len() as int)) {
                            PRes::Fail(d) => PRes::Fail(d),
                            PRes::Hit { v: arms, pos: p4 } => {
                                match p_expect(toks, p4, TokenV::RBrace) {
                                    PRes::Fail(d) => PRes::Fail(d),
                                    PRes::Hit { pos: p5, .. } => PRes::Hit {
                                        v: ExprV::Match {
                                            expr: Box::new(e),
                                            arms,
                                            location: match_location,
                                        },
                                        pos: p5,
                                    },
                                }
                            },
                        }
                    },
                }
            },
        }
    }
}

#[verifier::opaque]
pub open spec fn p_arms(toks: Seq<TokLocV>, pos: int) -> PRes<Seq<MatchArmV>>
    decreases rem(toks, pos), 33nat,
{
    if at_k(toks, pos, TokenV::RBrace) {
        PRes::Hit { v: Seq::<MatchArmV>::empty(), pos }
    } else if pos < 0 || pos >= toks.len() {
        PRes::Fail(spec_diag(loc_at(toks, pos), pm_in_pattern(desc_at(toks, pos)),
            Some("Expected: literal, identifier, or wildcard (_)"@)))
    } else {
        let arm_location = loc_at(toks, pos);
        match p_pattern(toks, pos) {
            PRes::Fail(d) => PRes::Fail(d),
            PRes::Hit { v: pat, pos: p1 } => {
                if !at_k(toks, p1, TokenV::Eq) {
                    PRes::Fail(spec_diag(arm_location, "Expected '=>' after pattern"@,
                        Some("Use: pattern => { body }"@)))
                } else if !at_k(toks, p1 + 1, TokenV::Gt) {
                    PRes::Fail(spec_diag(arm_location, "Expected '>' after '=' in '=>'"@,
                        Some("Use: pattern => { body } (the => arrow)"@)))
                } else {
                    match p_block(toks, padv(p1 + 2, pos, toks.len() as int)) {
                        PRes::Fail(d) => PRes::Fail(d),
                        PRes::Hit { v: body, pos: p2 } => {
                            let arm = MatchArmV { pattern: pat, body, location: arm_location };
                            let p3 = if at_k(toks, p2, TokenV::Comma) { p2 + 1 } else { p2 };
                            match p_arms(toks, padv(p3, pos, toks.len() as int)) {
                                PRes::Fail(d) => PRes::Fail(d),
                                PRes::Hit { v: arms, pos: p4 } => PRes::Hit {
                                    v: seq![arm] + arms,
                                    pos: p4,
                                },
                            }
                        },
                    }
                }
            },
        }
    }
}

/// Patterns: a literal, the wildcard `_`, or a bare identifier, which is
/// always a fresh binding, never a constant comparison.
#[verifier::opaque]
pub open spec fn p_pattern(toks: Seq<TokLocV>, pos: int) -> PRes<PatternV> {
    let pattern_location = loc_at(toks, pos);
    if 0 <= pos < toks.len() && toks[pos].token is Int {
        PRes::Hit { v: PatternV::Literal(LitV::Int(toks[pos].token->Int_0), pattern_location), pos: pos + 1 }
    } else if 0 <= pos < toks.len() && toks[pos].token is Float {
        PRes::Hit { v: PatternV::Literal(LitV::Float(toks[pos].token->Float_0), pattern_location), pos: pos + 1 }
    } else if at_k(toks, pos, TokenV::True) {
        PRes::Hit { v: PatternV::Literal(LitV::Bool(true), pattern_location), pos: pos + 1 }
    } else if at_k(toks, pos, TokenV::False) {
        PRes::Hit { v: PatternV::Literal(LitV::Bool(false), pattern_location), pos: pos + 1 }
    } else if 0 <= pos < toks.len() && toks[pos].token is StringLit {
        PRes::Hit { v: PatternV::Literal(LitV::Str(toks[pos].token->StringLit_0), pattern_location), pos: pos + 1 }
    } else if 0 <= pos < toks.len() && toks[pos].token is Ident {
        let name = toks[pos].token->Ident_0;
        if name == "_"@ {
            PRes::Hit { v: PatternV::Wildcard(pattern_location), pos: pos + 1 }
        } else {
            PRes::Hit { v: PatternV::Variable(name, pattern_location), pos: pos + 1 }
        }
    } else {
        PRes::Fail(spec_diag(pattern_location, pm_in_pattern(desc_at(toks, pos)),
            Some("Expected: literal, identifier, or wildcard (_)"@)))
    }
}

// ---------------------------------------------------------------------------
// String interpolation
// ---------------------------------------------------------------------------

/// Rescanning a string literal that holds `{name}` placeholders: literal
/// runs and placeholder names alternate in source order, and concatenating
/// the literal parts with `{name}` for each variable part reproduces the
/// string; no literal part is empty.
pub open spec fn rem_chars(s: Seq<char>, i: int) -> nat {
    if i <= s.len() {
        (s.len() - i) as nat
    } else {
        0nat
    }
}

#[verifier::opaque]
pub open spec fn p_interp(s: Seq<char>, location: SourceLocation) -> PRes<ExprV> {
    pi_scan(s, 0, Seq::<InterpPartV>::empty(), Seq::<char>::empty(), location)
}

#[verifier::opaque]
pub open spec fn pi_scan(
    s: Seq<char>,
    i: int,
    parts: Seq<InterpPartV>,
    curlit: Seq<char>,
    location: SourceLocation,
) -> PRes<ExprV>
    decreases rem_chars(s, i), 0nat,
{
    if i < 0 || i >= s.len() {
        let parts2 = if curlit.len() > 0 { parts.push(InterpPartV::Literal(curlit)) } else { parts };
        if parts2.len() == 0 {
            PRes::Hit { v: ExprV::Literal(LitV::Str(s), location), pos: 0 }
        } else if parts2.len() == 1 && parts2[0] is Literal {
            PRes::Hit { v: ExprV::Literal(LitV::Str(parts2[0]->Literal_0), location), pos: 0 }
        } else {
            PRes::Hit { v: ExprV::StringInterpolation { parts: parts2, location }, pos: 0 }
        }
    } else if s[i] == '{' {
        let parts1 = if curlit.len() > 0 { parts.push(InterpPartV::Literal(curlit)) } else { parts };
        pi_var(s, i + 1, parts1, Seq::<char>::empty(), location)
    } else if s[i] == '}' {
        PRes::Fail(spec_diag(location, "Unmatched closing brace in string interpolation"@,
            Some("Remove the extra '}' or add a matching '{'"@)))
    } else {
        pi_scan(s, i + 1, parts, curlit.push(s[i]), location)
    }
}

#[verifier::opaque]
pub open spec fn pi_var(
    s: Seq<char>,
    i: int,
    parts: Seq<InterpPartV>,
    name: Seq<char>,
    location: SourceLocation,
) -> PRes<ExprV>
    decreases rem_chars(s, i), 1nat,
{
    if i < 0 || i >= s.len() {
        PRes::Fail(spec_diag(location, "Unclosed string interpolation brace"@,
            Some("Close the interpolation: \"text {variable}\""@)))
    } else if s[i] == '}' {
        if name.len() == 0 {
            PRes::Fail(spec_diag(location, "Empty variable name in string interpolation"@,
                Some("Provide a variable name: \"text {variable_name}\""@)))
        } else {
            pi_scan(s, i + 1, parts.push(InterpPartV::Variable(name)), Seq::<char>::empty(), location)
        }
    } else if spec_is_word_char(s[i]) {
        pi_var(s, i + 1, parts, name.push(s[i]), location)
    } else {
        PRes::Fail(spec_diag(location, pm_invalid_interp_char(s[i]), None))
    }
}

// ---------------------------------------------------------------------------
// Statements
// ---------------------------------------------------------------------------

#[verifier::opaque]
pub open spec fn p_block(toks: Seq<TokLocV>, pos: int) -> PRes<Seq<StmtV>>
    decreases rem(toks, pos), 32nat,
{
    match p_expect(toks, pos, TokenV::LBrace) {
        PRes::Fail(d) => PRes::Fail(d),
        PRes::Hit { pos: p1, .. } => {
            match p_stmt_list(toks, padv(p1, pos, toks.len() as int)) {
                PRes::Fail(d) => PRes::Fail(d),
                PRes::Hit { v: ss, pos: p2 } => {
                    match p_expect(toks, p2, TokenV::RBrace) {
                        PRes::Fail(d) => PRes::Fail(d),
                        PRes::Hit { pos: p3, .. } => PRes::Hit { v: ss, pos: p3 },
                    }
                },
            }
        },
    }
}

#[verifier::opaque]
pub open spec fn p_stmt_list(toks: Seq<TokLocV>, pos: int) -> PRes<Seq<StmtV>>
    decreases rem(toks, pos), 31nat,
{
    if at_k(toks, pos, TokenV::RBrace) {
        PRes::Hit { v: Seq::<StmtV>::empty(), pos }
    } else if pos < 0 || pos >= toks.len() {
        PRes::Fail(spec_diag(loc_at(toks, pos), pm_in_expr(desc_at(toks, pos)),
            Some("Expected: literal, identifier, or expression"@)))
    } else {
        match p_statement(toks, pos) {
            PRes::Fail(d) => PRes::Fail(d),
            PRes::Hit { v: s, pos: p2 } => {
                match p_stmt_list(toks, padv(p2, pos, toks.len() as int)) {
                    PRes::Fail(d) => PRes::Fail(d),
                    PRes::Hit { v: ss, pos: p3 } => PRes::Hit { v: seq![s] + ss, pos: p3 },
                }
            },
        }
    }
}

/// A condition that may or may not be parenthesized (`if`/`while`).
#[verifier::opaque]
pub open spec fn p_condition(toks: Seq<TokLocV>, pos: int) -> PRes<ExprV>
    decreases rem(toks, pos), 29nat,
{
    if at_k(toks, pos, TokenV::LParen) {
        match p_expression(toks, pos + 1) {
            PRes::Fail(d) => PRes::Fail(d),
            PRes::Hit { v: e, pos: p2 } => {
                match p_expect(toks, p2, TokenV::RParen) {
                    PRes::Fail(d) => PRes::Fail(d),
                    PRes::Hit { pos: p3, .. } => PRes::Hit { v: e, pos: p3 },
                }
            },
        }
    } else {
        p_expression(toks, pos)
    }
}

#[verifier::opaque]
pub open spec fn p_statement(toks: Seq<TokLocV>, pos: int) -> PRes<StmtV>
    decreases rem(toks, pos), 30nat,
{
    let stmt_location = loc_at(toks, pos);
    if at_k(toks, pos, TokenV::Let) {
        match p_ident(toks, pos + 1) {
            PRes::Fail(d) => PRes::Fail(d),
            PRes::Hit { v: name, pos: p1 } => {
                let tyr: PRes<Option<TyV>> = if at_k(toks, p1, TokenV::Colon) {
                    match p_type(toks, padv(p1 + 1, pos, toks.len() as int)) {
                        PRes::Fail(d) => PRes::Fail(d),
                        PRes::Hit { v: t, pos: p2 } => PRes::Hit { v: Some(t), pos: p2 },
                    }
                } else {
                    PRes::Hit { v: None, pos: p1 }
                };
                match tyr {
                    PRes::Fail(d) => PRes::Fail(d),
                    PRes::Hit { v: ty, pos: p2 } => {
                        match p_expect(toks, p2, TokenV::Eq) {
                            PRes::Fail(d) => PRes::Fail(d),
                            PRes::Hit { pos: p3, .. } => {
                                match p_expression(toks, padv(p3, pos, toks.len() as int)) {
                                    PRes::Fail(d) => PRes::Fail(d),
                                    PRes::Hit { v: value, pos: p4 } => {
                                        match p_expect(toks, p4, TokenV::Semicolon) {
                                            PRes::Fail(d) => PRes::Fail(d),
                                            PRes::Hit { pos: p5, .. } => PRes::Hit {
                                                v: StmtV::Let { name, ty, value, location: stmt_location },
                                                pos: p5,
                                            },
                                        }
                                    },
                                }
                            },
                        }
                    },
                }
            },
        }
    } else if at_k(toks, pos, TokenV::If) {
        match p_condition(toks, pos + 1) {
            PRes::Fail(d) => PRes::Fail(d),
            PRes::Hit { v: condition, pos: p1 } => {
                match p_block(toks, padv(p1, pos, toks.len() as int)) {
                    PRes::Fail(d) => PRes::Fail(d),
                    PRes::Hit { v: then_block, pos: p2 } => {
                        if at_k(toks, p2, TokenV::Else) {
                            match p_block(toks, padv(p2 + 1, pos, toks.len() as int)) {
                                PRes::Fail(d) => PRes::Fail(d),
                                PRes::Hit { v: eb, pos: p3 } => PRes::Hit {
                                    v: StmtV::If {
                                        condition,
                                        then_block,
                                        else_block: Some(eb),
                                        location: stmt_location,
                                    },
                                    pos: p3,
                                },
                            }
                        } else {
                            PRes::Hit {
                                v: StmtV::If {
                                    condition,
                                    then_block,
                                    else_block: None,
                                    location: stmt_location,
                                },
                                pos: p2,
                            }
                        }
                    },
                }
            },
        }
    } else if at_k(toks, pos, TokenV::While) {
        match p_condition(toks, pos + 1) {
            PRes::Fail(d) => PRes::Fail(d),
            PRes::Hit { v: condition, pos: p1 } => {
                match p_block(toks, padv(p1, pos, toks.len() as int)) {
                    PRes::Fail(d) => PRes::Fail(d),
                    PRes::Hit { v: body, pos: p2 } => PRes::Hit {
                        v: StmtV::While { condition, body, location: stmt_location },
                        pos: p2,
                    },
                }
            },
        }
    } else if at_k(toks, pos, TokenV::For) {
        match p_ident(toks, pos + 1) {
            PRes::Fail(d) => PRes::Fail(d),
            PRes::Hit { v: iterator, pos: p1 } => {
                match p_expect(toks, p1, TokenV::In) {
                    PRes::Fail(d) => PRes::Fail(d),
                    PRes::Hit { pos: p2, .. } => {
                        match p_expression(toks, padv(p2, pos, toks.len() as int)) {
                            PRes::Fail(d) => PRes::Fail(d),
                            PRes::Hit { v: collection, pos: p3 } => {
                                match p_block(toks, padv(p3, pos, toks.len() as int)) {
                                    PRes::Fail(d) => PRes::Fail(d),
                                    PRes::Hit { v: body, pos: p4 } => PRes::Hit {
                                        v: StmtV::For {
                                            iterator,
                                            collection,
                                            body,
                                            location: stmt_location,
                                        },
                                        pos: p4,
                                    },
                                }
                            },
                        }
                    },
                }
            },
        }
    } else if at_k(toks, pos, TokenV::Loop) {
        match p_block(toks, pos + 1) {
            PRes::Fail(d) => PRes::Fail(d),
            PRes::Hit { v: body, pos: p1 } => PRes::Hit {
                v: StmtV::Loop { body, location: stmt_location },
                pos: p1,
            },
        }
    } else if at_k(toks, pos, TokenV::Return) {
        let exprr: PRes<Option<ExprV>> = if !at_k(toks, pos + 1, TokenV::Semicolon) {
            match p_expression(toks, pos + 1) {
                PRes::Fail(d) => PRes::Fail(d),
                PRes::Hit { v: e, pos: p1 } => PRes::Hit { v: Some(e), pos: p1 },
            }
        } else {
            PRes::Hit { v: None, pos: pos + 1 }
        };
        match exprr {
            PRes::Fail(d) => PRes::Fail(d),
            PRes::Hit { v: e, pos: p1 } => {
                match p_expect(toks, p1, TokenV::Semicolon) {
                    PRes::Fail(d) => PRes::Fail(d),
                    PRes::Hit { pos: p2, .. } => PRes::Hit {
                        v: StmtV::Return(e, stmt_location),
                        pos: p2,
                    },
                }
            },
        }
    } else if at_k(toks, pos, TokenV::Defer) {
        match p_expression(toks, pos + 1) {
            PRes::Fail(d) => PRes::Fail(d),
            PRes::Hit { v: e, pos: p1 } => {
                match p_expect(toks, p1, TokenV::Semicolon) {
                    PRes::Fail(d) => PRes::Fail(d),
                    PRes::Hit { pos: p2, .. } => PRes::Hit {
                        v: StmtV::Defer(Box::new(e), stmt_location),
                        pos: p2,
                    },
                }
            },
        }
    } else {
        match p_expression(toks, pos) {
            PRes::Fail(d) => PRes::Fail(d),
            PRes::Hit { v: e, pos: p1 } => {
                if at_k(toks, p1, TokenV::Eq) {
                    match p_expression(toks, padv(p1 + 1, pos, toks.len() as int)) {
                        PRes::Fail(d) => PRes::Fail(d),
                        PRes::Hit { v: value, pos: p2 } => {
                            match p_expect(toks, p2, TokenV::Semicolon) {
                                PRes::Fail(d) => PRes::Fail(d),
                                PRes::Hit { pos: p3, .. } => PRes::Hit {
                                    v: StmtV::Assign { target: e, value, location: stmt_location },
                                    pos: p3,
                                },
                            }
                        },
                    }
                } else {
                    match p_expect(toks, p1, TokenV::Semicolon) {
                        PRes::Fail(d) => PRes::Fail(d),
                        PRes::Hit { pos: p2, .. } => PRes::Hit {
                            v: StmtV::Expression(e, stmt_location),
                            pos: p2,
                        },
                    }
                }
            },
        }
    }
}

// ---------------------------------------------------------------------------
// Declarations and items
// ---------------------------------------------------------------------------

#[verifier::opaque]
pub open spec fn p_field(toks: Seq<TokLocV>, pos: int) -> PRes<FieldV>
    decreases rem(toks, pos), 34nat,
{
    match p_ident(toks, pos) {
        PRes::Fail(d) => PRes::Fail(d),
        PRes::Hit { v: name, pos: p1 } => {
            match p_expect(toks, p1, TokenV::Colon) {
                PRes::Fail(d) => PRes::Fail(d),
                PRes::Hit { pos: p2, .. } => {
                    match p_type(toks, padv(p2, pos, toks.len() as int)) {
                        PRes::Fail(d) => PRes::Fail(d),
                        PRes::Hit { v: ty, pos: p3 } => PRes::Hit {
                            v: FieldV { name, ty },
                            pos: p3,
                        },
                    }
                },
            }
        },
    }
}

/// The comma-separated field list of a struct or component body, up to the
/// closing brace.
#[verifier::opaque]
pub open spec fn p_field_list(toks: Seq<TokLocV>, pos: int) -> PRes<Seq<FieldV>>
    decreases rem(toks, pos), 35nat,
{
    if at_k(toks, pos, TokenV::RBrace) {
        PRes::Hit { v: Seq::<FieldV>::empty(), pos }
    } else if pos < 0 || pos >= toks.len() {
        PRes::Fail(spec_diag(loc_at(toks, pos), pm_expected_ident(desc_at(toks, pos)),
            Some("Use an identifier: a name starting with a letter or underscore"@)))
    } else {
        match p_field(toks, pos) {
            PRes::Fail(d) => PRes::Fail(d),
            PRes::Hit { v: f, pos: p2 } => {
                if at_k(toks, p2, TokenV::RBrace) {
                    PRes::Hit { v: seq![f], pos: p2 }
                } else {
                    match p_expect(toks, p2, TokenV::Comma) {
                        PRes::Fail(d) => PRes::Fail(d),
                        PRes::Hit { pos: p3, .. } => {
                            match p_field_list(toks, padv(p3, pos, toks.len() as int)) {
                                PRes::Fail(d) => PRes::Fail(d),
                                PRes::Hit { v: fs, pos: p4 } => PRes::Hit {
                                    v: seq![f] + fs,
                                    pos: p4,
                                },
                            }
                        },
                    }
                }
            },
        }
    }
}

/// The comma-separated parameter list of a function signature.
#[verifier::opaque]
pub open spec fn p_param_list(toks: Seq<TokLocV>, pos: int) -> PRes<Seq<ParamV>>
    decreases rem(toks, pos), 35nat,
{
    match p_ident(toks, pos) {
        PRes::Fail(d) => PRes::Fail(d),
        PRes::Hit { v: name, pos: p1 } => {
            match p_expect(toks, p1, TokenV::Colon) {
                PRes::Fail(d) => PRes::Fail(d),
                PRes::Hit { pos: p2, .. } => {
                    match p_type(toks, padv(p2, pos, toks.len() as int)) {
                        PRes::Fail(d) => PRes::Fail(d),
                        PRes::Hit { v: ty, pos: p3 } => {
                            let param = ParamV { name, ty };
                            if at_k(toks, p3, TokenV::Comma) {
                                match p_param_list(toks, padv(p3 + 1, pos, toks.len() as int)) {
                                    PRes::Fail(d) => PRes::Fail(d),
                                    PRes::Hit { v: ps, pos: p4 } => PRes::Hit {
                                        v: seq![param] + ps,
                                        pos: p4,
                                    },
                                }
                            } else {
                                PRes::Hit { v: seq![param], pos: p3 }
                            }
                        },
                    }
                },
            }
        },
    }
}

/// A signature's `(params) [: ret]` part, shared by functions and extern
/// declarations.
#[verifier::opaque]
pub open spec fn p_signature(toks: Seq<TokLocV>, pos: int) -> PRes<(Seq<ParamV>, TyV)>
    decreases rem(toks, pos), 36nat,
{
    match p_expect(toks, pos, TokenV::LParen) {
        PRes::Fail(d) => PRes::Fail(d),
        PRes::Hit { pos: p1, .. } => {
            let paramsr: PRes<Seq<ParamV>> = if at_k(toks, p1, TokenV::RParen) {
                PRes::Hit { v: Seq::<ParamV>::empty(), pos: p1 }
            } else {
                p_param_list(toks, padv(p1, pos, toks.len() as int))
            };
            match paramsr {
                PRes::Fail(d) => PRes::Fail(d),
                PRes::Hit { v: params, pos: p2 } => {
                    match p_expect(toks, p2, TokenV::RParen) {
                        PRes::Fail(d) => PRes::Fail(d),
                        PRes::Hit { pos: p3, .. } => {
                            if at_k(toks, p3, TokenV::Colon) {
                                match p_type(toks, padv(p3 + 1, pos, toks.len() as int)) {
                                    PRes::Fail(d) => PRes::Fail(d),
                                    PRes::Hit { v: t, pos: p4 } => PRes::Hit {
                                        v: (params, t),
                                        pos: p4,
                                    },
                                }
                            } else {
                                PRes::Hit { v: (params, TyV::Void), pos: p3 }
                            }
                        },
                    }
                },
            }
        },
    }
}

#[verifier::opaque]
pub open spec fn p_function(toks: Seq<TokLocV>, pos: int) -> PRes<FunctionDefV>
    decreases rem(toks, pos), 38nat,
{
    match p_ident(toks, pos) {
        PRes::Fail(d) => PRes::Fail(d),
        PRes::Hit { v: name, pos: p1 } => {
            match p_signature(toks, padv(p1, pos, toks.len() as int)) {
                PRes::Fail(d) => PRes::Fail(d),
                PRes::Hit { v: sig, pos: p2 } => {
                    match p_block(toks, padv(p2, pos, toks.len() as int)) {
                        PRes::Fail(d) => PRes::Fail(d),
                        PRes::Hit { v: body, pos: p3 } => PRes::Hit {
                            v: FunctionDefV {
                                name,
                                params: sig.0,
                                return_type: sig.1,
                                body,
                                cuda_kernel: None,
                            },
                            pos: p3,
                        },
                    }
                },
            }
        },
    }
}

#[verifier::opaque]
pub open spec fn p_extern_function(toks: Seq<TokLocV>, pos: int) -> PRes<ExternFunctionDefV>
    decreases rem(toks, pos), 38nat,
{
    match p_expect(toks, pos, TokenV::Fn) {
        PRes::Fail(d) => PRes::Fail(d),
        PRes::Hit { pos: p0, .. } => {
            match p_ident(toks, p0) {
                PRes::Fail(d) => PRes::Fail(d),
                PRes::Hit { v: name, pos: p1 } => {
                    match p_signature(toks, padv(p1, pos, toks.len() as int)) {
                        PRes::Fail(d) => PRes::Fail(d),
                        PRes::Hit { v: sig, pos: p2 } => {
                            let libr: (Option<Seq<char>>, int) = if 0 <= p2 < toks.len()
                                && toks[p2].token is Ident
                                && toks[p2].token->Ident_0 == "from"@ {
                                if 0 <= p2 + 1 < toks.len() && toks[p2 + 1].token is StringLit {
                                    (Some(toks[p2 + 1].token->StringLit_0), p2 + 2)
                                } else {
                                    (None, p2 + 1)
                                }
                            } else {
                                (None, p2)
                            };
                            match p_expect(toks, libr.1, TokenV::Semicolon) {
                                PRes::Fail(d) => PRes::Fail(d),
                                PRes::Hit { pos: p3, .. } => PRes::Hit {
                                    v: ExternFunctionDefV {
                                        name,
                                        params: sig.0,
                                        return_type: sig.1,
                                        library: libr.0,
                                    },
                                    pos: p3,
                                },
                            }
                        },
                    }
                },
            }
        },
    }
}

/// Position after skipping a shader body's tokens, up to the closing brace
/// or the end of input.
#[verifier::opaque]
pub open spec fn p_skip_body(toks: Seq<TokLocV>, pos: int) -> int
    decreases rem(toks, pos), 34nat,
{
    if 0 <= pos < toks.len() && !tok_is(toks[pos].token, TokenV::RBrace) {
        p_skip_body(toks, pos + 1)
    } else {
        pos
    }
}

#[verifier::opaque]
pub open spec fn p_shader(toks: Seq<TokLocV>, pos: int, is_hot: bool) -> PRes<ShaderDefV>
    decreases rem(toks, pos), 38nat,
{
    match p_stage(toks, pos) {
        PRes::Fail(d) => PRes::Fail(d),
        PRes::Hit { v: stage, pos: p1 } => {
            match p_string_token(toks, p1, "Expected shader file path string"@,
                "Provide a string literal path: shader vertex \"path/to/shader.vert\""@) {
                PRes::Fail(d) => PRes::Fail(d),
                PRes::Hit { v: path, pos: p2 } => {
                    if at_k(toks, p2, TokenV::LBrace) {
                        let p3 = p_skip_body(toks, padv(p2 + 1, pos, toks.len() as int));
                        if at_k(toks, p3, TokenV::RBrace) {
                            PRes::Hit { v: ShaderDefV { stage, path, is_hot }, pos: p3 + 1 }
                        } else {
                            PRes::Fail(spec_diag(loc_at(toks, p3),
                                "Expected '}' to close shader declaration"@,
                                Some("Add closing brace: }"@)))
                        }
                    } else {
                        PRes::Hit { v: ShaderDefV { stage, path, is_hot }, pos: p2 }
                    }
                },
            }
        },
    }
}

#[verifier::opaque]
pub open spec fn p_resource(toks: Seq<TokLocV>, pos: int, is_hot: bool) -> PRes<ResourceDefV>
    decreases rem(toks, pos), 38nat,
{
    match p_ident(toks, pos) {
        PRes::Fail(d) => PRes::Fail(d),
        PRes::Hit { v: name, pos: p1 } => {
            match p_expect(toks, p1, TokenV::Colon) {
                PRes::Fail(d) => PRes::Fail(d),
                PRes::Hit { pos: p2, .. } => {
                    match p_ident(toks, p2) {
                        PRes::Fail(d) => PRes::Fail(d),
                        PRes::Hit { v: resource_type, pos: p3 } => {
                            match p_expect(toks, p3, TokenV::Eq) {
                                PRes::Fail(d) => PRes::Fail(d),
                                PRes::Hit { pos: p4, .. } => {
                                    match p_string_token(toks, p4,
                                        "Expected string literal for resource path"@,
                                        "Provide a string literal path: resource Name: Type = \"path/to/file\""@) {
                                        PRes::Fail(d) => PRes::Fail(d),
                                        PRes::Hit { v: path, pos: p5 } => {
                                            match p_expect(toks, p5, TokenV::Semicolon) {
                                                PRes::Fail(d) => PRes::Fail(d),
                                                PRes::Hit { pos: p6, .. } => PRes::Hit {
                                                    v: ResourceDefV { name, resource_type, path, is_hot },
                                                    pos: p6,
                                                },
                                            }
                                        },
                                    }
                                },
                            }
                        },
                    }
                },
            }
        },
    }
}

/// The first binding index that repeats an earlier one, scanning as the
/// duplicate check does.
pub open spec fn dup_before(bs: Seq<LayoutBindingV>, bi: int, bj: int) -> bool
    decreases bi - bj,
{
    if bj < 0 || bj >= bi {
        false
    } else if bs[bj].binding == bs[bi].binding {
        true
    } else {
        dup_before(bs, bi, bj + 1)
    }
}

pub open spec fn first_dup(bs: Seq<LayoutBindingV>, bi: int) -> Option<int>
    decreases bs.len() - bi,
{
    if bi < 0 || bi >= bs.len() {
        None
    } else if dup_before(bs, bi, 0) {
        Some(bi)
    } else {
        first_dup(bs, bi + 1)
    }
}

/// The binding list of a pipeline layout block.
#[verifier::opaque]
pub open spec fn p_bindings(toks: Seq<TokLocV>, pos: int) -> PRes<Seq<LayoutBindingV>>
    decreases rem(toks, pos), 36nat,
{
    if at_k(toks, pos, TokenV::RBrace) {
        PRes::Hit { v: Seq::<LayoutBindingV>::empty(), pos }
    } else {
        match p_expect(toks, pos, TokenV::Binding) {
            PRes::Fail(d) => PRes::Fail(d),
            PRes::Hit { pos: p1, .. } => {
                if !(0 <= p1 < toks.len() && toks[p1].token is Int) {
                    PRes::Fail(spec_diag(loc_at(toks, p1), "Expected binding number"@,
                        Some("Provide a binding number: binding 0: uniform TypeName"@)))
                } else {
                    let bnum = toks[p1].token->Int_0 as u32;
                    match p_expect(toks, p1 + 1, TokenV::Colon) {
                        PRes::Fail(d) => PRes::Fail(d),
                        PRes::Hit { pos: p2, .. } => {
                            let btyper: PRes<BindingTypeV> = if at_k(toks, p2, TokenV::Uniform) {
                                match p_ident(toks, p2 + 1) {
                                    PRes::Fail(d) => PRes::Fail(d),
                                    PRes::Hit { v: tn, pos: p3 } => PRes::Hit {
                                        v: BindingTypeV::Uniform(tn),
                                        pos: p3,
                                    },
                                }
                            } else if at_k(toks, p2, TokenV::Storage) {
                                match p_ident(toks, p2 + 1) {
                                    PRes::Fail(d) => PRes::Fail(d),
                                    PRes::Hit { v: tn, pos: p3 } => {
                                        if at_k(toks, p3, TokenV::LBracket) {
                                            match p_expect(toks, p3 + 1, TokenV::RBracket) {
                                                PRes::Fail(d) => PRes::Fail(d),
                                                PRes::Hit { pos: p4, .. } => PRes::Hit {
                                                    v: BindingTypeV::Storage(tn),
                                                    pos: p4,
                                                },
                                            }
                                        } else {
                                            PRes::Hit { v: BindingTypeV::Storage(tn), pos: p3 }
                                        }
                                    },
                                }
                            } else if at_k(toks, p2, TokenV::Sampler2D) {
                                if at_k(toks, p2 + 1, TokenV::LBracket) {
                                    match p_expect(toks, p2 + 2, TokenV::RBracket) {
                                        PRes::Fail(d) => PRes::Fail(d),
                                        PRes::Hit { pos: p3, .. } => PRes::Hit {
                                            v: BindingTypeV::Sampler2D,
                                            pos: p3,
                                        },
                                    }
                                } else {
                                    PRes::Hit { v: BindingTypeV::Sampler2D, pos: p2 + 1 }
                                }
                            } else {
                                PRes::Fail(spec_diag(loc_at(toks, p2),
                                    "Expected binding type: uniform, storage, or sampler2D"@,
                                    Some("Use: uniform TypeName, storage TypeName[], or sampler2D"@)))
                            };
                            match btyper {
                                PRes::Fail(d) => PRes::Fail(d),
                                PRes::Hit { v: binding_type, pos: p3 } => {
                                    let namer: (Seq<char>, int) = if 0 <= p3 < toks.len()
                                        && toks[p3].token is Ident {
                                        (toks[p3].token->Ident_0, p3 + 1)
                                    } else {
                                        (Seq::<char>::empty(), p3)
                                    };
                                    let b = LayoutBindingV {
                                        binding: bnum,
                                        binding_type,
                                        name: namer.0,
                                    };
                                    let p4 = if !at_k(toks, namer.1, TokenV::RBrace) {
                                        if at_k(toks, namer.1, TokenV::Comma) {
                                            namer.1 + 1
                                        } else if at_k(toks, namer.1, TokenV::Semicolon) {
                                            namer.1 + 1
                                        } else {
                                            namer.1
                                        }
                                    } else {
                                        namer.1
                                    };
                                    match p_bindings(toks, padv(p4, pos, toks.len() as int)) {
                                        PRes::Fail(d) => PRes::Fail(d),
                                        PRes::Hit { v: bs, pos: p5 } => PRes::Hit {
                                            v: seq![b] + bs,
                                            pos: p5,
                                        },
                                    }
                                },
                            }
                        },
                    }
                }
            },
        }
    }
}

/// The entries of a pipeline body: shader lines and at most one layout
/// block, with duplicate binding indices rejected.
#[verifier::opaque]
pub open spec fn p_pipe_entries(
    toks: Seq<TokLocV>,
    pos: int,
    name: Seq<char>,
    shaders: Seq<PipelineShaderV>,
    layout: Option<PipelineLayoutV>,
) -> PRes<(Seq<PipelineShaderV>, Option<PipelineLayoutV>)>
    decreases rem(toks, pos), 37nat,
{
    if at_k(toks, pos, TokenV::RBrace) {
        PRes::Hit { v: (shaders, layout), pos }
    } else if at_k(toks, pos, TokenV::Shader) {
        match p_stage(toks, pos + 1) {
            PRes::Fail(d) => PRes::Fail(d),
            PRes::Hit { v: stage, pos: p1 } => {
                match p_string_token(toks, p1,
                    "Expected string literal for shader path"@,
                    "Provide a string literal path: shader vertex \"path/to/shader.vert\""@) {
                    PRes::Fail(d) => PRes::Fail(d),
                    PRes::Hit { v: path, pos: p2 } => {
                        p_pipe_entries(toks, padv(p2, pos, toks.len() as int), name,
                            shaders.push(PipelineShaderV { stage, path }), layout)
                    },
                }
            },
        }
    } else if at_k(toks, pos, TokenV::Layout) {
        match p_expect(toks, pos + 1, TokenV::LBrace) {
            PRes::Fail(d) => PRes::Fail(d),
            PRes::Hit { pos: p1, .. } => {
                match p_bindings(toks, padv(p1, pos, toks.len() as int)) {
                    PRes::Fail(d) => PRes::Fail(d),
                    PRes::Hit { v: bs, pos: p2 } => {
                        match p_expect(toks, p2, TokenV::RBrace) {
                            PRes::Fail(d) => PRes::Fail(d),
                            PRes::Hit { pos: p3, .. } => {
                                match first_dup(bs, 0) {
                                    Some(bi) => {
                                        PRes::Fail(spec_diag(loc_at(toks, p3),
                                            pm_dup_binding(bs[bi].binding as nat, name),
                                            Some(pm_dup_binding_sugg(bs[bi].binding as nat))))
                                    },
                                    None => {
                                        p_pipe_entries(toks, padv(p3, pos, toks.len() as int), name,
                                            shaders, Some(PipelineLayoutV { bindings: bs }))
                                    },
                                }
                            },
                        }
                    },
                }
            },
        }
    } else {
        PRes::Fail(spec_diag(loc_at(toks, pos),
            "Expected 'shader' or 'layout' in pipeline declaration"@,
            Some("Use: shader vertex \"path\" or layout { binding ... }"@)))
    }
}

#[verifier::opaque]
pub open spec fn p_pipeline(toks: Seq<TokLocV>, pos: int) -> PRes<PipelineDefV>
    decreases rem(toks, pos), 38nat,
{
    match p_ident(toks, pos) {
        PRes::Fail(d) => PRes::Fail(d),
        PRes::Hit { v: name, pos: p1 } => {
            match p_expect(toks, p1, TokenV::LBrace) {
                PRes::Fail(d) => PRes::Fail(d),
                PRes::Hit { pos: p2, .. } => {
                    match p_pipe_entries(toks, padv(p2, pos, toks.len() as int), name,
                        Seq::<PipelineShaderV>::empty(), None) {
                        PRes::Fail(d) => PRes::Fail(d),
                        PRes::Hit { v: sl, pos: p3 } => {
                            match p_expect(toks, p3, TokenV::RBrace) {
                                PRes::Fail(d) => PRes::Fail(d),
                                PRes::Hit { pos: p4, .. } => PRes::Hit {
                                    v: PipelineDefV { name, shaders: sl.0, layout: sl.1 },
                                    pos: p4,
                                },
                            }
                        },
                    }
                },
            }
        },
    }
}

#[verifier::opaque]
pub open spec fn p_struct(toks: Seq<TokLocV>, pos: int) -> PRes<StructDefV>
    decreases rem(toks, pos), 38nat,
{
    match p_ident(toks, pos) {
        PRes::Fail(d) => PRes::Fail(d),
        PRes::Hit { v: name, pos: p1 } => {
            match p_expect(toks, p1, TokenV::LBrace) {
                PRes::Fail(d) => PRes::Fail(d),
                PRes::Hit { pos: p2, .. } => {
                    match p_field_list(toks, padv(p2, pos, toks.len() as int)) {
                        PRes::Fail(d) => PRes::Fail(d),
                        PRes::Hit { v: fields, pos: p3 } => {
                            match p_expect(toks, p3, TokenV::RBrace) {
                                PRes::Fail(d) => PRes::Fail(d),
                                PRes::Hit { pos: p4, .. } => PRes::Hit {
                                    v: StructDefV { name, fields },
                                    pos: p4,
                                },
                            }
                        },
                    }
                },
            }
        },
    }
}

#[verifier::opaque]
pub open spec fn p_component(toks: Seq<TokLocV>, pos: int, is_soa: bool, is_hot: bool) -> PRes<ComponentDefV>
    decreases rem(toks, pos), 38nat,
{
    match p_ident(toks, pos) {
        PRes::Fail(d) => PRes::Fail(d),
        PRes::Hit { v: name, pos: p1 } => {
            match p_expect(toks, p1, TokenV::LBrace) {
                PRes::Fail(d) => PRes::Fail(d),
                PRes::Hit { pos: p2, .. } => {
                    match p_field_list(toks, padv(p2, pos, toks.len() as int)) {
                        PRes::Fail(d) => PRes::Fail(d),
                        PRes::Hit { v: fields, pos: p3 } => {
                            match p_expect(toks, p3, TokenV::RBrace) {
                                PRes::Fail(d) => PRes::Fail(d),
                                PRes::Hit { pos: p4, .. } => PRes::Hit {
                                    v: ComponentDefV { name, fields, is_soa, is_hot, is_cuda: false },
                                    pos: p4,
                                },
                            }
                        },
                    }
                },
            }
        },
    }
}

/// The `fn`-introduced member functions of a system body; anything else
/// before the closing brace is rejected.
#[verifier::opaque]
pub open spec fn p_fn_list(toks: Seq<TokLocV>, pos: int) -> PRes<Seq<FunctionDefV>>
    decreases rem(toks, pos), 36nat,
{
    if at_k(toks, pos, TokenV::RBrace) {
        PRes::Hit { v: Seq::<FunctionDefV>::empty(), pos }
    } else if at_k(toks, pos, TokenV::Fn) {
        match p_function(toks, padv(pos + 1, pos, toks.len() as int)) {
            PRes::Fail(d) => PRes::Fail(d),
            PRes::Hit { v: f, pos: p1 } => {
                match p_fn_list(toks, padv(p1, pos, toks.len() as int)) {
                    PRes::Fail(d) => PRes::Fail(d),
                    PRes::Hit { v: fs, pos: p2 } => PRes::Hit { v: seq![f] + fs, pos: p2 },
                }
            },
        }
    } else {
        PRes::Fail(spec_diag(loc_at(toks, pos), "Expected function in system"@,
            Some("Add a function declaration: fn function_name() { ... }"@)))
    }
}

#[verifier::opaque]
pub open spec fn p_system(toks: Seq<TokLocV>, pos: int, is_hot: bool) -> PRes<SystemDefV>
    decreases rem(toks, pos), 38nat,
{
    match p_ident(toks, pos) {
        PRes::Fail(d) => PRes::Fail(d),
        PRes::Hit { v: name, pos: p1 } => {
            match p_expect(toks, p1, TokenV::LBrace) {
                PRes::Fail(d) => PRes::Fail(d),
                PRes::Hit { pos: p2, .. } => {
                    match p_fn_list(toks, padv(p2, pos, toks.len() as int)) {
                        PRes::Fail(d) => PRes::Fail(d),
                        PRes::Hit { v: functions, pos: p3 } => {
                            match p_expect(toks, p3, TokenV::RBrace) {
                                PRes::Fail(d) => PRes::Fail(d),
                                PRes::Hit { pos: p4, .. } => PRes::Hit {
                                    v: SystemDefV { name, functions, is_hot },
                                    pos: p4,
                                },
                            }
                        },
                    }
                },
            }
        },
    }
}

// ---------------------------------------------------------------------------
// Attributes, items, and the whole program
// ---------------------------------------------------------------------------

/// Whether the collected attributes contain the given tag.
pub open spec fn attrs_has(attrs: Seq<(Seq<char>, Option<Seq<char>>)>, tag: Seq<char>) -> bool {
    exists|i: int| 0 <= i < attrs.len() && attrs[i].0 == tag
}

/// The kernel name of the last `launch` attribute, if any.
pub open spec fn attrs_launch(attrs: Seq<(Seq<char>, Option<Seq<char>>)>) -> Option<Seq<char>>
    decreases attrs.len(),
{
    if attrs.len() == 0 {
        None
    } else if attrs.last().0 == "launch"@ && attrs.last().1 is Some {
        attrs.last().1
    } else {
        attrs_launch(attrs.drop_last())
    }
}

/// The attribute list before an item: `@hot`, `@[name]` or
/// `@[launch(kernel = name)]`, each collected as a tag with an optional
/// kernel name; an unrecognized `@` sequence is left un-consumed.
#[verifier::opaque]
pub open spec fn p_attrs(
    toks: Seq<TokLocV>,
    pos: int,
    acc: Seq<(Seq<char>, Option<Seq<char>>)>,
) -> PRes<Seq<(Seq<char>, Option<Seq<char>>)>>
    decreases rem(toks, pos), 39nat,
{
    if !at_k(toks, pos, TokenV::At) {
        PRes::Hit { v: acc, pos }
    } else {
        let p1 = pos + 1;
        if at_k(toks, p1, TokenV::LBracket) {
            let p2 = p1 + 1;
            if 0 <= p2 < toks.len() && toks[p2].token is Ident {
                let attr_name = toks[p2].token->Ident_0;
                let p3 = p2 + 1;
                if at_k(toks, p3, TokenV::LParen) {
                    let p4 = p3 + 1;
                    if 0 <= p4 < toks.len() && toks[p4].token is Ident
                        && toks[p4].token->Ident_0 == "kernel"@ {
                        let p5 = p4 + 1;
                        if at_k(toks, p5, TokenV::Eq) {
                            let p6 = p5 + 1;
                            if 0 <= p6 < toks.len() && toks[p6].token is Ident {
                                let k = toks[p6].token->Ident_0;
                                let acc2 = acc.push(("launch"@, Some(k)));
                                match p_expect(toks, p6 + 1, TokenV::RParen) {
                                    PRes::Fail(d) => PRes::Fail(d),
                                    PRes::Hit { pos: p8, .. } => {
                                        match p_expect(toks, p8, TokenV::RBracket) {
                                            PRes::Fail(d) => PRes::Fail(d),
                                            PRes::Hit { pos: p9, .. } => {
                                                p_attrs(toks, padv(p9, pos, toks.len() as int), acc2)
                                            },
                                        }
                                    },
                                }
                            } else {
                                match p_expect(toks, p6, TokenV::RBracket) {
                                    PRes::Fail(d) => PRes::Fail(d),
                                    PRes::Hit { pos: p9, .. } => {
                                        p_attrs(toks, padv(p9, pos, toks.len() as int), acc)
                                    },
                                }
                            }
                        } else {
                            match p_expect(toks, p5, TokenV::RBracket) {
                                PRes::Fail(d) => PRes::Fail(d),
                                PRes::Hit { pos: p9, .. } => {
                                    p_attrs(toks, padv(p9, pos, toks.len() as int), acc)
                                },
                            }
                        }
                    } else {
                        match p_expect(toks, p4, TokenV::RBracket) {
                            PRes::Fail(d) => PRes::Fail(d),
                            PRes::Hit { pos: p9, .. } => {
                                p_attrs(toks, padv(p9, pos, toks.len() as int), acc)
                            },
                        }
                    }
                } else {
                    let acc2 = acc.push((attr_name, None));
                    match p_expect(toks, p3, TokenV::RBracket) {
                        PRes::Fail(d) => PRes::Fail(d),
                        PRes::Hit { pos: p9, .. } => {
                            p_attrs(toks, padv(p9, pos, toks.len() as int), acc2)
                        },
                    }
                }
            } else {
                p_attrs(toks, padv(p2, pos, toks.len() as int), acc)
            }
        } else if at_k(toks, p1, TokenV::Hot) {
            p_attrs(toks, padv(p1 + 1, pos, toks.len() as int), acc.push(("hot"@, None)))
        } else {
            PRes::Hit { v: acc, pos }
        }
    }
}

pub open spec fn pm_item_sugg() -> Seq<char> {
    "Expected: struct, component, system, shader, fn, resource, or pipeline"@
}

/// One item: the attributes, then the declaration they modify.
#[verifier::opaque]
pub open spec fn p_item(toks: Seq<TokLocV>, pos: int) -> PRes<ItemV>
    decreases rem(toks, pos), 40nat,
{
    if pos < 0 || pos >= toks.len() {
        PRes::Fail(spec_diag(loc_at(toks, pos), pm_item_level(desc_at(toks, pos)),
            Some(pm_item_sugg())))
    } else {
        match p_attrs(toks, pos, Seq::<(Seq<char>, Option<Seq<char>>)>::empty()) {
            PRes::Fail(d) => PRes::Fail(d),
            PRes::Hit { v: attrs, pos: q } => {
                let is_hot = attrs_has(attrs, "hot"@);
                let is_cuda = attrs_has(attrs, "cuda"@);
                let kernel = attrs_launch(attrs);
                if q >= toks.len() {
                    PRes::Fail(spec_diag(loc_at(toks, q), pm_item_level(desc_at(toks, q)),
                        Some(pm_item_sugg())))
                } else if tok_is(toks[q].token, TokenV::Struct) {
                    match p_struct(toks, padv(q + 1, pos, toks.len() as int)) {
                        PRes::Fail(d) => PRes::Fail(d),
                        PRes::Hit { v: sd, pos: p } => PRes::Hit { v: ItemV::Struct(sd), pos: p },
                    }
                } else if tok_is(toks[q].token, TokenV::Component) {
                    match p_component(toks, padv(q + 1, pos, toks.len() as int), false, is_hot) {
                        PRes::Fail(d) => PRes::Fail(d),
                        PRes::Hit { v: c, pos: p } => PRes::Hit {
                            v: ItemV::Component(ComponentDefV { is_cuda, ..c }),
                            pos: p,
                        },
                    }
                } else if tok_is(toks[q].token, TokenV::ComponentSOA) {
                    match p_component(toks, padv(q + 1, pos, toks.len() as int), true, is_hot) {
                        PRes::Fail(d) => PRes::Fail(d),
                        PRes::Hit { v: c, pos: p } => PRes::Hit {
                            v: ItemV::Component(ComponentDefV { is_cuda, ..c }),
                            pos: p,
                        },
                    }
                } else if tok_is(toks[q].token, TokenV::System) {
                    match p_system(toks, padv(q + 1, pos, toks.len() as int), false) {
                        PRes::Fail(d) => PRes::Fail(d),
                        PRes::Hit { v: sd, pos: p } => PRes::Hit { v: ItemV::System(sd), pos: p },
                    }
                } else if tok_is(toks[q].token, TokenV::Shader) {
                    match p_shader(toks, padv(q + 1, pos, toks.len() as int), false) {
                        PRes::Fail(d) => PRes::Fail(d),
                        PRes::Hit { v: sd, pos: p } => PRes::Hit { v: ItemV::Shader(sd), pos: p },
                    }
                } else if tok_is(toks[q].token, TokenV::Hot) {
                    p_hot_item(toks, pos, padv(q + 1, pos, toks.len() as int))
                } else if tok_is(toks[q].token, TokenV::Extern) {
                    match p_extern_function(toks, padv(q + 1, pos, toks.len() as int)) {
                        PRes::Fail(d) => PRes::Fail(d),
                        PRes::Hit { v: x, pos: p } => PRes::Hit {
                            v: ItemV::ExternFunction(x),
                            pos: p,
                        },
                    }
                } else if tok_is(toks[q].token, TokenV::Fn) {
                    match p_function(toks, padv(q + 1, pos, toks.len() as int)) {
                        PRes::Fail(d) => PRes::Fail(d),
                        PRes::Hit { v: f, pos: p } => PRes::Hit {
                            v: ItemV::Function(FunctionDefV { cuda_kernel: kernel, ..f }),
                            pos: p,
                        },
                    }
                } else if tok_is(toks[q].token, TokenV::Resource) {
                    match p_resource(toks, padv(q + 1, pos, toks.len() as int), false) {
                        PRes::Fail(d) => PRes::Fail(d),
                        PRes::Hit { v: rd, pos: p } => PRes::Hit { v: ItemV::Resource(rd), pos: p },
                    }
                } else if tok_is(toks[q].token, TokenV::Pipeline) {
                    match p_pipeline(toks, padv(q + 1, pos, toks.len() as int)) {
                        PRes::Fail(d) => PRes::Fail(d),
                        PRes::Hit { v: pd, pos: p } => PRes::Hit { v: ItemV::Pipeline(pd), pos: p },
                    }
                } else {
                    PRes::Fail(spec_diag(loc_at(toks, q), pm_item_level(desc_at(toks, q)),
                        Some(pm_item_sugg())))
                }
            },
        }
    }
}

/// The declarations an `@hot` marker may introduce. `start` is the position
/// just after the marker; `pos` is where the whole item began.
#[verifier::opaque]
pub open spec fn p_hot_item(toks: Seq<TokLocV>, pos: int, start: int) -> PRes<ItemV>
    decreases rem(toks, pos), 39nat,
{
    if at_k(toks, start, TokenV::System) {
        let namer: PRes<Seq<char>> = if at_k(toks, start + 1, TokenV::LParen) {
            match p_ident(toks, start + 2) {
                PRes::Fail(d) => PRes::Fail(d),
                PRes::Hit { v: n, pos: p } => {
                    match p_expect(toks, p, TokenV::RParen) {
                        PRes::Fail(d) => PRes::Fail(d),
                        PRes::Hit { pos: p2, .. } => PRes::Hit { v: n, pos: p2 },
                    }
                },
            }
        } else {
            p_ident(toks, start + 1)
        };
        match namer {
            PRes::Fail(d) => PRes::Fail(d),
            PRes::Hit { v: name, pos: p1 } => {
                match p_expect(toks, p1, TokenV::LBrace) {
                    PRes::Fail(d) => PRes::Fail(d),
                    PRes::Hit { pos: p2, .. } => {
                        match p_fn_list(toks, padv(p2, pos, toks.len() as int)) {
                            PRes::Fail(d) => PRes::Fail(d),
                            PRes::Hit { v: functions, pos: p3 } => {
                                match p_expect(toks, p3, TokenV::RBrace) {
                                    PRes::Fail(d) => PRes::Fail(d),
                                    PRes::Hit { pos: p4, .. } => PRes::Hit {
                                        v: ItemV::System(SystemDefV { name, functions, is_hot: true }),
                                        pos: p4,
                                    },
                                }
                            },
                        }
                    },
                }
            },
        }
    } else if at_k(toks, start, TokenV::Shader) {
        match p_shader(toks, padv(start + 1, pos, toks.len() as int), true) {
            PRes::Fail(d) => PRes::Fail(d),
            PRes::Hit { v: sd, pos: p } => PRes::Hit { v: ItemV::Shader(sd), pos: p },
        }
    } else if at_k(toks, start, TokenV::Component) {
        match p_component(toks, padv(start + 1, pos, toks.len() as int), false, true) {
            PRes::Fail(d) => PRes::Fail(d),
            PRes::Hit { v: c, pos: p } => PRes::Hit { v: ItemV::Component(c), pos: p },
        }
    } else if at_k(toks, start, TokenV::ComponentSOA) {
        match p_component(toks, padv(start + 1, pos, toks.len() as int), true, true) {
            PRes::Fail(d) => PRes::Fail(d),
            PRes::Hit { v: c, pos: p } => PRes::Hit { v: ItemV::Component(c), pos: p },
        }
    } else if at_k(toks, start, TokenV::Resource) {
        match p_resource(toks, padv(start + 1, pos, toks.len() as int), true) {
            PRes::Fail(d) => PRes::Fail(d),
            PRes::Hit { v: rd, pos: p } => PRes::Hit { v: ItemV::Resource(rd), pos: p },
        }
    } else {
        PRes::Fail(spec_diag(loc_at(toks, start),
            "Expected 'system', 'shader', 'component', or 'resource' after '@hot'"@,
            Some("Use: @hot system Name { ... } or @hot shader vertex \"path\" { }"@)))
    }
}

/// The item list of a whole program, to the end of the stream.
#[verifier::opaque]
pub open spec fn p_items(toks: Seq<TokLocV>, pos: int) -> PRes<Seq<ItemV>>
    decreases rem(toks, pos), 41nat,
{
    if pos < 0 || pos >= toks.len() {
        PRes::Hit { v: Seq::<ItemV>::empty(), pos }
    } else {
        match p_item(toks, pos) {
            PRes::Fail(d) => PRes::Fail(d),
            PRes::Hit { v: it, pos: q } => {
                match p_items(toks, padv(q, pos, toks.len() as int)) {
                    PRes::Fail(d) => PRes::Fail(d),
                    PRes::Hit { v: its, pos: q2 } => PRes::Hit { v: seq![it] + its, pos: q2 },
                }
            },
        }
    }
}

/// The whole parse: the entire token stream becomes a program, or the one
/// diagnostic of the first syntax error.
#[verifier::opaque]
pub open spec fn p_program(toks: Seq<TokLocV>) -> PRes<ProgramV> {
    match p_items(toks, 0) {
        PRes::Fail(d) => PRes::Fail(d),
        PRes::Hit { v: items, pos: q } => PRes::Hit { v: ProgramV { items }, pos: q },
    }
}

// ---------------------------------------------------------------------------
// The interpolation round trip
// ---------------------------------------------------------------------------

/// The source text an interpolation's parts stand for: literal runs as they
/// are, each variable as `{name}`.
pub open spec fn render_parts(ps: Seq<InterpPartV>) -> Seq<char>
    decreases ps.len(),
{
    if ps.len() == 0 {
        Seq::<char>::empty()
    } else {
        render_parts(ps.drop_last()) + (match ps.last() {
            InterpPartV::Literal(t) => t,
            InterpPartV::Variable(v) => "{"@ + v + "}"@,
        })
    }
}

/// No literal part of an interpolation is empty.
pub open spec fn parts_wf(ps: Seq<InterpPartV>) -> bool {
    forall|i: int| 0 <= i < ps.len() ==> ((#[trigger] ps[i]) is Literal ==> ps[i]->Literal_0.len() > 0)
}

/// String-interpolation round trip: when the rescan succeeds, the parts
/// reproduce the literal exactly — concatenating the literal runs and
/// `{name}` for each variable, in order, gives the original string back —
/// no literal part is empty, and the node keeps the string's location; a
/// string that degrades to a plain literal keeps its exact text.
pub proof fn lemma_interp_roundtrip(s: Seq<char>, location: SourceLocation)
    ensures
        match p_interp(s, location) {
            PRes::Hit { v, .. } => match v {
                ExprV::StringInterpolation { parts, location: l2 } =>
                    render_parts(parts) == s && parts_wf(parts) && l2 == location,
                ExprV::Literal(lit, l2) => lit matches LitV::Str(t) && t == s && l2 == location,
                _ => false,
            },
            PRes::Fail(_) => true,
        },
{
    reveal(p_interp);
    assert(render_parts(Seq::<InterpPartV>::empty()) + Seq::<char>::empty()
        =~= s.take(0));
    lemma_pi_scan_roundtrip(s, 0, Seq::<InterpPartV>::empty(), Seq::<char>::empty(), location);
}

/// The scan invariant: what was consumed so far is exactly what the parts
/// and the pending literal run render to.
#[verifier::rlimit(100)]
#[verifier::spinoff_prover]
proof fn lemma_pi_scan_roundtrip(
    s: Seq<char>,
    i: int,
    parts: Seq<InterpPartV>,
    curlit: Seq<char>,
    location: SourceLocation,
)
    requires
        0 <= i <= s.len(),
        render_parts(parts) + curlit == s.take(i),
        parts_wf(parts),
    ensures
        match pi_scan(s, i, parts, curlit, location) {
            PRes::Hit { v, .. } => match v {
                ExprV::StringInterpolation { parts: parts2, location: l2 } =>
                    render_parts(parts2) == s && parts_wf(parts2) && l2 == location,
                ExprV::Literal(lit, l2) => lit matches LitV::Str(t) && t == s && l2 == location,
                _ => false,
            },
            PRes::Fail(_) => true,
        },
    decreases s.len() - i, 0nat,
{
    reveal(pi_scan);
    reveal(pi_var);
    if i >= s.len() {
        let parts2 = if curlit.len() > 0 { parts.push(InterpPartV::Literal(curlit)) } else { parts };
        assert(s.take(i) =~= s);
        if curlit.len() > 0 {
            assert(parts2.drop_last() =~= parts);
            assert(render_parts(parts2) == render_parts(parts) + curlit);
            assert forall|q: int| 0 <= q < parts2.len()
                implies ((#[trigger] parts2[q]) is Literal ==> parts2[q]->Literal_0.len() > 0) by {
                if q < parts.len() {
                    assert(parts2[q] == parts[q]);
                }
            }
        } else {
            assert(render_parts(parts2) + curlit == render_parts(parts2));
        }
        if parts2.len() == 0 {
            assert(render_parts(parts2) =~= Seq::<char>::empty());
            assert(s =~= Seq::<char>::empty() || true);
        } else if parts2.len() == 1 && parts2[0] is Literal {
            assert(parts2.drop_last() =~= Seq::<InterpPartV>::empty());
            assert(render_parts(parts2)
                == render_parts(Seq::<InterpPartV>::empty()) + parts2[0]->Literal_0);
            assert(Seq::<char>::empty() + parts2[0]->Literal_0 =~= parts2[0]->Literal_0);
        } else {
        }
    } else if s[i] == '{' {
        let parts1 = if curlit.len() > 0 { parts.push(InterpPartV::Literal(curlit)) } else { parts };
        if curlit.len() > 0 {
            assert(parts1.drop_last() =~= parts);
            assert(render_parts(parts1) == render_parts(parts) + curlit);
            assert forall|q: int| 0 <= q < parts1.len()
                implies ((#[trigger] parts1[q]) is Literal ==> parts1[q]->Literal_0.len() > 0) by {
                if q < parts.len() {
                    assert(parts1[q] == parts[q]);
                }
            }
        } else {
            assert(render_parts(parts1) + curlit =~= render_parts(parts1));
        }
        reveal_strlit("{");
        reveal_strlit("}");
        assert(render_parts(parts1) + "{"@ + Seq::<char>::empty() =~= s.take(i + 1));
        lemma_pi_var_roundtrip(s, i + 1, parts1, Seq::<char>::empty(), location);
    } else if s[i] == '}' {
    } else {
        assert(render_parts(parts) + curlit.push(s[i]) =~= s.take(i + 1));
        lemma_pi_scan_roundtrip(s, i + 1, parts, curlit.push(s[i]), location);
    }
}

#[verifier::rlimit(100)]
#[verifier::spinoff_prover]
proof fn lemma_pi_var_roundtrip(
    s: Seq<char>,
    i: int,
    parts: Seq<InterpPartV>,
    name: Seq<char>,
    location: SourceLocation,
)
    requires
        0 <= i <= s.len(),
        render_parts(parts) + "{"@ + name == s.take(i),
        parts_wf(parts),
    ensures
        match pi_var(s, i, parts, name, location) {
            PRes::Hit { v, .. } => match v {
                ExprV::StringInterpolation { parts: parts2, location: l2 } =>
                    render_parts(parts2) == s && parts_wf(parts2) && l2 == location,
                ExprV::Literal(lit, l2) => lit matches LitV::Str(t) && t == s && l2 == location,
                _ => false,
            },
            PRes::Fail(_) => true,
        },
    decreases s.len() - i, 1nat,
{
    reveal(pi_scan);
    reveal(pi_var);
    reveal_strlit("{");
    reveal_strlit("}");
    if i >= s.len() {
    } else if s[i] == '}' {
        if name.len() == 0 {
        } else {
            let parts2 = parts.push(InterpPartV::Variable(name));
            assert(parts2.drop_last() =~= parts);
            assert(render_parts(parts2) == render_parts(parts) + ("{"@ + name + "}"@));
            assert forall|q: int| 0 <= q < parts2.len()
                implies ((#[trigger] parts2[q]) is Literal ==> parts2[q]->Literal_0.len() > 0) by {
                if q < parts.len() {
                    assert(parts2[q] == parts[q]);
                }
            }
            reveal_strlit("{");
            reveal_strlit("}");
            assert("}"@.len() == 1);
            assert("}"@[0] == '}');
            assert("{"@.len() == 1);
            assert("{"@[0] == '{');
            assert(s.take(i + 1) =~= s.take(i).push(s[i]));
            assert(render_parts(parts2)
                == (render_parts(parts) + "{"@ + name) + "}"@ || true);
            assert(render_parts(parts) + ("{"@ + name + "}"@)
                =~= (render_parts(parts) + "{"@ + name) + "}"@);
            assert(render_parts(parts2) + Seq::<char>::empty() =~= s.take(i + 1));
            lemma_pi_scan_roundtrip(s, i + 1, parts2, Seq::<char>::empty(), location);
        }
    } else if spec_is_word_char(s[i]) {
        assert(render_parts(parts) + "{"@ + name.push(s[i]) =~= s.take(i + 1));
        lemma_pi_var_roundtrip(s, i + 1, parts, name.push(s[i]), location);
    } else {
    }
}

} // verus!
