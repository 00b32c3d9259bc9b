use vstd::prelude::*;

use crate::ast::{Type, TyV, vty, vty_vec, lemma_vty_vec, clone_type};
use crate::text::chars_to_string;

verus! {

// ---------------------------------------------------------------------------
// Rendering types as source text
// ---------------------------------------------------------------------------

/// The source spelling of a type, as it appears in diagnostics.
pub open spec fn spec_ty_str(t: TyV) -> Seq<char>
    decreases t, 0nat,
{
    match t {
        TyV::I32 => "i32"@,
        TyV::I64 => "i64"@,
        TyV::F32 => "f32"@,
        TyV::F64 => "f64"@,
        TyV::Bool => "bool"@,
        TyV::Str => "string"@,
        TyV::Array(e) => "["@ + spec_ty_str(*e) + "]"@,
        TyV::Optional(e) => "?"@ + spec_ty_str(*e),
        TyV::Struct(n) => n,
        TyV::Component(n) => n,
        TyV::Query(cs) => "query<"@ + spec_ty_str_join(cs) + ">"@,
        TyV::Void => "void"@,
        TyV::Error => "<error>"@,
        TyV::VkInstance => "VkInstance"@,
        TyV::VkDevice => "VkDevice"@,
        TyV::VkResult => "VkResult"@,
        TyV::VkPhysicalDevice => "VkPhysicalDevice"@,
        TyV::VkQueue => "VkQueue"@,
        TyV::VkCommandPool => "VkCommandPool"@,
        TyV::VkCommandBuffer => "VkCommandBuffer"@,
        TyV::VkSwapchainKHR => "VkSwapchainKHR"@,
        TyV::VkSurfaceKHR => "VkSurfaceKHR"@,
        TyV::VkRenderPass => "VkRenderPass"@,
        TyV::VkPipeline => "VkPipeline"@,
        TyV::VkFramebuffer => "VkFramebuffer"@,
        TyV::VkBuffer => "VkBuffer"@,
        TyV::VkImage => "VkImage"@,
        TyV::VkImageView => "VkImageView"@,
        TyV::VkSemaphore => "VkSemaphore"@,
        TyV::VkFence => "VkFence"@,
        TyV::GLFWwindow => "GLFWwindow"@,
        TyV::GLFWbool => "GLFWbool"@,
        TyV::Vec2 => "Vec2"@,
        TyV::Vec3 => "Vec3"@,
        TyV::Vec4 => "Vec4"@,
        TyV::Mat4 => "Mat4"@,
    }
}

/// The component list of a query type, joined with `", "`.
pub open spec fn spec_ty_str_join(ts: Seq<TyV>) -> Seq<char>
    decreases ts, 1nat,
{
    if ts.len() == 0 {
        Seq::<char>::empty()
    } else if ts.len() == 1 {
        spec_ty_str(ts[0])
    } else {
        spec_ty_str(ts[0]) + ", "@ + spec_ty_str_join(ts.skip(1))
    }
}

/// Renders a type as its source spelling.
pub fn ty_str(t: &Type) -> (r: String)
    ensures
        r@ == spec_ty_str(vty(*t)),
    decreases *t,
{
    match t {
        Type::I32 => String::from_str("i32"),
        Type::I64 => String::from_str("i64"),
        Type::F32 => String::from_str("f32"),
        Type::F64 => String::from_str("f64"),
        Type::Bool => String::from_str("bool"),
        Type::String => String::from_str("string"),
        Type::Array(e) => {
            let mut s = String::from_str("[");
            let inner = ty_str(e);
            s.append(inner.as_str());
            s.append("]");
            s
        },
        Type::Optional(e) => {
            let mut s = String::from_str("?");
            let inner = ty_str(e);
            s.append(inner.as_str());
            s
        },
        Type::Struct(n) => n.clone(),
        Type::Component(n) => n.clone(),
        Type::Query(cs) => {
            let mut s = String::from_str("query<");
            let mut i: usize = 0;
            proof {
                lemma_vty_vec(*cs, 0);
            }
            while i < cs.len()
                invariant
                    (decreases_to!(*t => *cs)),
                    i <= cs@.len(),
                    vty_vec(*cs, 0).len() == cs@.len(),
                    forall|j: int| 0 <= j < cs@.len() ==> vty_vec(*cs, 0)[j] == vty(cs@[j]),
                    s@ == "query<"@ + spec_join_prefix(vty_vec(*cs, 0), i as int),
                decreases cs@.len() - i,
            {
                proof {
                    broadcast use vstd::std_specs::vec::axiom_vec_index_decreases;
                    assert(decreases_to!(*cs => cs@[i as int]));
                }
                if i > 0 {
                    s.append(", ");
                }
                let part = ty_str(&cs[i]);
                s.append(part.as_str());
                proof {
                    lemma_join_prefix_step(vty_vec(*cs, 0), i as int);
                }
                i = i + 1;
            }
            s.append(">");
            proof {
                lemma_join_prefix_full(vty_vec(*cs, 0));
            }
            s
        },
        Type::Void => String::from_str("void"),
        Type::Error => String::from_str("<error>"),
        Type::VkInstance => String::from_str("VkInstance"),
        Type::VkDevice => String::from_str("VkDevice"),
        Type::VkResult => String::from_str("VkResult"),
        Type::VkPhysicalDevice => String::from_str("VkPhysicalDevice"),
        Type::VkQueue => String::from_str("VkQueue"),
        Type::VkCommandPool => String::from_str("VkCommandPool"),
        Type::VkCommandBuffer => String::from_str("VkCommandBuffer"),
        Type::VkSwapchainKHR => String::from_str("VkSwapchainKHR"),
        Type::VkSurfaceKHR => String::from_str("VkSurfaceKHR"),
        Type::VkRenderPass => String::from_str("VkRenderPass"),
        Type::VkPipeline => String::from_str("VkPipeline"),
        Type::VkFramebuffer => String::from_str("VkFramebuffer"),
        Type::VkBuffer => String::from_str("VkBuffer"),
        Type::VkImage => String::from_str("VkImage"),
        Type::VkImageView => String::from_str("VkImageView"),
        Type::VkSemaphore => String::from_str("VkSemaphore"),
        Type::VkFence => String::from_str("VkFence"),
        Type::GLFWwindow => String::from_str("GLFWwindow"),
        Type::GLFWbool => String::from_str("GLFWbool"),
        Type::Vec2 => String::from_str("Vec2"),
        Type::Vec3 => String::from_str("Vec3"),
        Type::Vec4 => String::from_str("Vec4"),
        Type::Mat4 => String::from_str("Mat4"),
    }
}

/// The join of the first `i` elements, with `", "` between elements.
pub open spec fn spec_join_prefix(ts: Seq<TyV>, i: int) -> Seq<char>
    decreases i,
{
    if i <= 0 {
        Seq::<char>::empty()
    } else if i == 1 {
        spec_ty_str(ts[0])
    } else {
        spec_join_prefix(ts, i - 1) + ", "@ + spec_ty_str(ts[i - 1])
    }
}

proof fn lemma_join_prefix_step(ts: Seq<TyV>, i: int)
    requires
        0 <= i < ts.len(),
    ensures
        spec_join_prefix(ts, i + 1) == if i == 0 {
            spec_join_prefix(ts, i) + spec_ty_str(ts[i])
        } else {
            spec_join_prefix(ts, i) + ", "@ + spec_ty_str(ts[i])
        },
{
    if i == 0 {
        assert(spec_join_prefix(ts, 1) =~= spec_join_prefix(ts, 0) + spec_ty_str(ts[0]));
    }
}

proof fn lemma_join_prefix_full(ts: Seq<TyV>)
    ensures
        spec_join_prefix(ts, ts.len() as int) == spec_ty_str_join(ts),
    decreases ts.len(),
{
    let n = ts.len() as int;
    if n == 0 {
        assert(spec_join_prefix(ts, 0) =~= spec_ty_str_join(ts));
    } else if n == 1 {
    } else {
        lemma_join_prefix_full(ts.drop_last());
        lemma_join_prefix_shorter(ts, n - 1);
        lemma_ty_str_join_snoc(ts);
    }
}

/// `spec_join_prefix` only looks at the first `i` elements.
proof fn lemma_join_prefix_shorter(ts: Seq<TyV>, i: int)
    requires
        0 <= i <= ts.len() - 1,
    ensures
        spec_join_prefix(ts, i) == spec_join_prefix(ts.drop_last(), i),
    decreases i,
{
    if i > 0 {
        lemma_join_prefix_shorter(ts, i - 1);
        assert(ts.drop_last()[i - 1] == ts[i - 1]);
    }
}

/// Splitting the join at the last element.
spec fn spec_ty_str_join_snoc(ts: Seq<TyV>) -> bool {
    ts.len() >= 2 ==> spec_ty_str_join(ts)
        == spec_ty_str_join(ts.drop_last()) + ", "@ + spec_ty_str(ts.last())
}

proof fn lemma_ty_str_join_snoc(ts: Seq<TyV>)
    ensures
        spec_ty_str_join_snoc(ts),
    decreases ts.len(),
{
    if ts.len() >= 2 {
        let rest = ts.skip(1);
        lemma_ty_str_join_snoc(rest);
        assert(rest.drop_last() =~= ts.drop_last().skip(1));
        assert(rest.last() == ts.last());
        assert(ts.drop_last().len() == ts.len() - 1);
        assert(ts.drop_last()[0] == ts[0]);
        assert(rest[0] == ts[1]);
        if ts.len() == 2 {
            assert(spec_ty_str_join(ts.drop_last()) == spec_ty_str(ts[0]));
            assert(spec_ty_str_join(rest) == spec_ty_str(ts[1]));
            assert(spec_ty_str_join(ts) == spec_ty_str(ts[0]) + ", "@ + spec_ty_str_join(rest));
            assert(spec_ty_str_join(ts)
                == spec_ty_str_join(ts.drop_last()) + ", "@ + spec_ty_str(ts.last()));
        } else {
            assert(spec_ty_str_join(ts.drop_last())
                == spec_ty_str(ts.drop_last()[0]) + ", "@ + spec_ty_str_join(ts.drop_last().skip(1)));
            let a = spec_ty_str(ts[0]);
            let b = ", "@;
            let c = spec_ty_str_join(rest.drop_last());
            let d = spec_ty_str(ts.last());
            assert(spec_ty_str_join(rest) == c + b + d);
            assert(spec_ty_str_join(ts) == a + b + (c + b + d));
            assert(spec_ty_str_join(ts.drop_last()) + b + d == ((a + b + c) + b) + d);
            assert(a + b + (c + b + d) =~= ((a + b + c) + b) + d);
        }
        assert(spec_ty_str_join(ts)
            == spec_ty_str_join(ts.drop_last()) + ", "@ + spec_ty_str(ts.last()));
    }
}

// ---------------------------------------------------------------------------
// Suggested example values for a type
// ---------------------------------------------------------------------------

/// A default-ish example value of a type, used in corrective suggestions.
pub open spec fn spec_suggest_value(t: TyV) -> Seq<char> {
    match t {
        TyV::I32 => "0"@,
        TyV::I64 => "0"@,
        TyV::F32 => "0.0"@,
        TyV::F64 => "0.0"@,
        TyV::Bool => "true"@,
        TyV::Str => "\"\""@,
        _ => "/* "@ + spec_ty_str(t) + " value */"@,
    }
}

/// Renders the example value used in suggestions.
pub fn suggest_value(t: &Type) -> (r: String)
    ensures
        r@ == spec_suggest_value(vty(*t)),
{
    match t {
        Type::I32 => String::from_str("0"),
        Type::I64 => String::from_str("0"),
        Type::F32 => String::from_str("0.0"),
        Type::F64 => String::from_str("0.0"),
        Type::Bool => String::from_str("true"),
        Type::String => String::from_str("\"\""),
        _ => {
            let mut s = String::from_str("/* ");
            let inner = ty_str(t);
            s.append(inner.as_str());
            s.append(" value */");
            s
        },
    }
}

// ---------------------------------------------------------------------------
// Type compatibility
// ---------------------------------------------------------------------------

/// Whether a value of type `actual` may stand where `expected` is wanted.
/// The poison `Error` type is compatible with everything, in both positions;
/// numeric widening (and the one `f64` to `f32` narrowing) is implicit;
/// an optional accepts its bare inner type.
pub open spec fn spec_compat(expected: TyV, actual: TyV) -> bool
    decreases expected,
{
    if expected is Error || actual is Error {
        true
    } else {
        match (expected, actual) {
            (TyV::I32, TyV::I32) => true,
            (TyV::I64, TyV::I64) => true,
            (TyV::F32, TyV::F32) => true,
            (TyV::F64, TyV::F64) => true,
            (TyV::I64, TyV::I32) => true,
            (TyV::F64, TyV::F32) => true,
            (TyV::F64, TyV::I32) => true,
            (TyV::F64, TyV::I64) => true,
            (TyV::F32, TyV::I32) => true,
            (TyV::F32, TyV::F64) => true,
            (TyV::Bool, TyV::Bool) => true,
            (TyV::Str, TyV::Str) => true,
            (TyV::Void, TyV::Void) => true,
            (TyV::Array(a), TyV::Array(b)) => spec_compat(*a, *b),
            (TyV::Optional(a), TyV::Optional(b)) => spec_compat(*a, *b),
            (TyV::Optional(inner), act) => spec_compat(*inner, act),
            (TyV::Struct(a), TyV::Struct(b)) => a == b,
            (TyV::Component(a), TyV::Component(b)) => a == b,
            (TyV::VkInstance, TyV::VkInstance) => true,
            (TyV::VkDevice, TyV::VkDevice) => true,
            (TyV::VkResult, TyV::VkResult) => true,
            (TyV::VkPhysicalDevice, TyV::VkPhysicalDevice) => true,
            (TyV::VkQueue, TyV::VkQueue) => true,
            (TyV::VkCommandPool, TyV::VkCommandPool) => true,
            (TyV::VkCommandBuffer, TyV::VkCommandBuffer) => true,
            (TyV::VkSwapchainKHR, TyV::VkSwapchainKHR) => true,
            (TyV::VkSurfaceKHR, TyV::VkSurfaceKHR) => true,
            (TyV::VkRenderPass, TyV::VkRenderPass) => true,
            (TyV::VkPipeline, TyV::VkPipeline) => true,
            (TyV::VkFramebuffer, TyV::VkFramebuffer) => true,
            (TyV::VkBuffer, TyV::VkBuffer) => true,
            (TyV::VkImage, TyV::VkImage) => true,
            (TyV::VkImageView, TyV::VkImageView) => true,
            (TyV::VkSemaphore, TyV::VkSemaphore) => true,
            (TyV::VkFence, TyV::VkFence) => true,
            (TyV::GLFWwindow, TyV::GLFWwindow) => true,
            (TyV::GLFWbool, TyV::GLFWbool) => true,
            (TyV::Vec2, TyV::Vec2) => true,
            (TyV::Vec3, TyV::Vec3) => true,
            (TyV::Vec4, TyV::Vec4) => true,
            (TyV::Mat4, TyV::Mat4) => true,
            _ => false,
        }
    }
}

/// Decides type compatibility; the answer is exactly `spec_compat`.
pub fn compat(expected: &Type, actual: &Type) -> (r: bool)
    ensures
        r == spec_compat(vty(*expected), vty(*actual)),
    decreases *expected,
{
    if matches!(expected, Type::Error) || matches!(actual, Type::Error) {
        return true;
    }
    match (expected, actual) {
        (Type::I32, Type::I32) => true,
        (Type::I64, Type::I64) => true,
        (Type::F32, Type::F32) => true,
        (Type::F64, Type::F64) => true,
        (Type::I64, Type::I32) => true,
        (Type::F64, Type::F32) => true,
        (Type::F64, Type::I32) => true,
        (Type::F64, Type::I64) => true,
        (Type::F32, Type::I32) => true,
        (Type::F32, Type::F64) => true,
        (Type::Bool, Type::Bool) => true,
        (Type::String, Type::String) => true,
        (Type::Void, Type::Void) => true,
        (Type::Array(a), Type::Array(b)) => compat(a, b),
        (Type::Optional(a), Type::Optional(b)) => compat(a, b),
        (Type::Optional(inner), act) => compat(inner, act),
        (Type::Struct(a), Type::Struct(b)) => *a == *b,
        (Type::Component(a), Type::Component(b)) => *a == *b,
        (Type::VkInstance, Type::VkInstance) => true,
        (Type::VkDevice, Type::VkDevice) => true,
        (Type::VkResult, Type::VkResult) => true,
        (Type::VkPhysicalDevice, Type::VkPhysicalDevice) => true,
        (Type::VkQueue, Type::VkQueue) => true,
        (Type::VkCommandPool, Type::VkCommandPool) => true,
        (Type::VkCommandBuffer, Type::VkCommandBuffer) => true,
        (Type::VkSwapchainKHR, Type::VkSwapchainKHR) => true,
        (Type::VkSurfaceKHR, Type::VkSurfaceKHR) => true,
        (Type::VkRenderPass, Type::VkRenderPass) => true,
        (Type::VkPipeline, Type::VkPipeline) => true,
        (Type::VkFramebuffer, Type::VkFramebuffer) => true,
        (Type::VkBuffer, Type::VkBuffer) => true,
        (Type::VkImage, Type::VkImage) => true,
        (Type::VkImageView, Type::VkImageView) => true,
        (Type::VkSemaphore, Type::VkSemaphore) => true,
        (Type::VkFence, Type::VkFence) => true,
        (Type::GLFWwindow, Type::GLFWwindow) => true,
        (Type::GLFWbool, Type::GLFWbool) => true,
        (Type::Vec2, Type::Vec2) => true,
        (Type::Vec3, Type::Vec3) => true,
        (Type::Vec4, Type::Vec4) => true,
        (Type::Mat4, Type::Mat4) => true,
        _ => false,
    }
}

// ---------------------------------------------------------------------------
// Laws of compatibility
// ---------------------------------------------------------------------------

/// The poison type absorbs every other type: `Error` is compatible with `X`
/// and `X` with `Error`, for every type `X`.
pub proof fn lemma_error_absorbs(x: TyV)
    ensures
        spec_compat(TyV::Error, x),
        spec_compat(x, TyV::Error),
{
}

/// Numeric widening is not symmetric: an `i32` may stand where an `f64` is
/// wanted, but an `f64` may not stand where an `i32` is wanted.
pub proof fn lemma_widening_asymmetry()
    ensures
        spec_compat(TyV::F64, TyV::I32),
        !spec_compat(TyV::I32, TyV::F64),
{
}

} // verus!
