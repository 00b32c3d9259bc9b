use vstd::prelude::*;

use crate::error::SourceLocation;
use crate::text::{
    spec_is_digit, spec_is_hex_digit, spec_is_ident_start, spec_is_ident_char,
    is_digit, is_hex_digit, is_ident_start, is_ident_char, str_to_chars, chars_to_string,
};

verus! {

// ---------------------------------------------------------------------------
// Tokens
// ---------------------------------------------------------------------------

/// The tokens of the source language. Identifiers and string literals carry
/// their text; an integer literal carries its decoded value; a float literal
/// keeps its source spelling, which is all later phases need.
#[derive(Debug)]
pub enum Token {
    // Keywords
    Fn,
    Let,
    If,
    Else,
    While,
    Loop,
    Return,
    Defer,
    Struct,
    Component,
    ComponentSOA,
    System,
    Shader,
    Vertex,
    Fragment,
    Compute,
    Geometry,
    TessellationControl,
    TessellationEvaluation,
    For,
    In,
    Match,
    Query,
    Extern,
    Resource,
    Pipeline,
    Uniform,
    Storage,
    Sampler2D,
    Binding,
    Layout,
    // Attributes
    Hot,
    At,
    // Type names
    I32,
    I64,
    F32,
    F64,
    Bool,
    String,
    Void,
    // Host resource handle type names
    VkInstance,
    VkDevice,
    VkResult,
    VkPhysicalDevice,
    VkQueue,
    VkCommandPool,
    VkCommandBuffer,
    VkSwapchainKHR,
    VkSurfaceKHR,
    VkRenderPass,
    VkPipeline,
    VkFramebuffer,
    VkBuffer,
    VkImage,
    VkImageView,
    VkSemaphore,
    VkFence,
    GLFWwindow,
    GLFWbool,
    Vec2,
    Vec3,
    Vec4,
    Mat4,
    // Literals
    Int(i64),
    Float(std::string::String),
    True,
    False,
    Null,
    StringLit(std::string::String),
    // Identifiers
    Ident(std::string::String),
    // Operators
    Plus,
    Minus,
    Star,
    Slash,
    Percent,
    EqEq,
    Ne,
    Lt,
    Le,
    Gt,
    Ge,
    AndAnd,
    OrOr,
    Bang,
    Eq,
    Question,
    // Delimiters
    LParen,
    RParen,
    LBrace,
    RBrace,
    LBracket,
    RBracket,
    Comma,
    Colon,
    Semicolon,
    Dot,
}

/// The mathematical counterpart of `Token`.
pub ghost enum TokenV {
    Fn,
    Let,
    If,
    Else,
    While,
    Loop,
    Return,
    Defer,
    Struct,
    Component,
    ComponentSOA,
    System,
    Shader,
    Vertex,
    Fragment,
    Compute,
    Geometry,
    TessellationControl,
    TessellationEvaluation,
    For,
    In,
    Match,
    Query,
    Extern,
    Resource,
    Pipeline,
    Uniform,
    Storage,
    Sampler2D,
    Binding,
    Layout,
    Hot,
    At,
    I32,
    I64,
    F32,
    F64,
    Bool,
    Str,
    Void,
    VkInstance,
    VkDevice,
    VkResult,
    VkPhysicalDevice,
    VkQueue,
    VkCommandPool,
    VkCommandBuffer,
    VkSwapchainKHR,
    VkSurfaceKHR,
    VkRenderPass,
    VkPipeline,
    VkFramebuffer,
    VkBuffer,
    VkImage,
    VkImageView,
    VkSemaphore,
    VkFence,
    GLFWwindow,
    GLFWbool,
    Vec2,
    Vec3,
    Vec4,
    Mat4,
    Int(i64),
    Float(Seq<char>),
    True,
    False,
    Null,
    StringLit(Seq<char>),
    Ident(Seq<char>),
    Plus,
    Minus,
    Star,
    Slash,
    Percent,
    EqEq,
    Ne,
    Lt,
    Le,
    Gt,
    Ge,
    AndAnd,
    OrOr,
    Bang,
    Eq,
    Question,
    LParen,
    RParen,
    LBrace,
    RBrace,
    LBracket,
    RBracket,
    Comma,
    Colon,
    Semicolon,
    Dot,
}

pub open spec fn vtok(t: Token) -> TokenV {
    match t {
        Token::Fn => TokenV::Fn,
        Token::Let => TokenV::Let,
        Token::If => TokenV::If,
        Token::Else => TokenV::Else,
        Token::While => TokenV::While,
        Token::Loop => TokenV::Loop,
        Token::Return => TokenV::Return,
        Token::Defer => TokenV::Defer,
        Token::Struct => TokenV::Struct,
        Token::Component => TokenV::Component,
        Token::ComponentSOA => TokenV::ComponentSOA,
        Token::System => TokenV::System,
        Token::Shader => TokenV::Shader,
        Token::Vertex => TokenV::Vertex,
        Token::Fragment => TokenV::Fragment,
        Token::Compute => TokenV::Compute,
        Token::Geometry => TokenV::Geometry,
        Token::TessellationControl => TokenV::TessellationControl,
        Token::TessellationEvaluation => TokenV::TessellationEvaluation,
        Token::For => TokenV::For,
        Token::In => TokenV::In,
        Token::Match => TokenV::Match,
        Token::Query => TokenV::Query,
        Token::Extern => TokenV::Extern,
        Token::Resource => TokenV::Resource,
        Token::Pipeline => TokenV::Pipeline,
        Token::Uniform => TokenV::Uniform,
        Token::Storage => TokenV::Storage,
        Token::Sampler2D => TokenV::Sampler2D,
        Token::Binding => TokenV::Binding,
        Token::Layout => TokenV::Layout,
        Token::Hot => TokenV::Hot,
        Token::At => TokenV::At,
        Token::I32 => TokenV::I32,
        Token::I64 => TokenV::I64,
        Token::F32 => TokenV::F32,
        Token::F64 => TokenV::F64,
        Token::Bool => TokenV::Bool,
        Token::String => TokenV::Str,
        Token::Void => TokenV::Void,
        Token::VkInstance => TokenV::VkInstance,
        Token::VkDevice => TokenV::VkDevice,
        Token::VkResult => TokenV::VkResult,
        Token::VkPhysicalDevice => TokenV::VkPhysicalDevice,
        Token::VkQueue => TokenV::VkQueue,
        Token::VkCommandPool => TokenV::VkCommandPool,
        Token::VkCommandBuffer => TokenV::VkCommandBuffer,
        Token::VkSwapchainKHR => TokenV::VkSwapchainKHR,
        Token::VkSurfaceKHR => TokenV::VkSurfaceKHR,
        Token::VkRenderPass => TokenV::VkRenderPass,
        Token::VkPipeline => TokenV::VkPipeline,
        Token::VkFramebuffer => TokenV::VkFramebuffer,
        Token::VkBuffer => TokenV::VkBuffer,
        Token::VkImage => TokenV::VkImage,
        Token::VkImageView => TokenV::VkImageView,
        Token::VkSemaphore => TokenV::VkSemaphore,
        Token::VkFence => TokenV::VkFence,
        Token::GLFWwindow => TokenV::GLFWwindow,
        Token::GLFWbool => TokenV::GLFWbool,
        Token::Vec2 => TokenV::Vec2,
        Token::Vec3 => TokenV::Vec3,
        Token::Vec4 => TokenV::Vec4,
        Token::Mat4 => TokenV::Mat4,
        Token::Int(n) => TokenV::Int(n),
        Token::Float(s) => TokenV::Float(s@),
        Token::True => TokenV::True,
        Token::False => TokenV::False,
        Token::Null => TokenV::Null,
        Token::StringLit(s) => TokenV::StringLit(s@),
        Token::Ident(s) => TokenV::Ident(s@),
        Token::Plus => TokenV::Plus,
        Token::Minus => TokenV::Minus,
        Token::Star => TokenV::Star,
        Token::Slash => TokenV::Slash,
        Token::Percent => TokenV::Percent,
        Token::EqEq => TokenV::EqEq,
        Token::Ne => TokenV::Ne,
        Token::Lt => TokenV::Lt,
        Token::Le => TokenV::Le,
        Token::Gt => TokenV::Gt,
        Token::Ge => TokenV::Ge,
        Token::AndAnd => TokenV::AndAnd,
        Token::OrOr => TokenV::OrOr,
        Token::Bang => TokenV::Bang,
        Token::Eq => TokenV::Eq,
        Token::Question => TokenV::Question,
        Token::LParen => TokenV::LParen,
        Token::RParen => TokenV::RParen,
        Token::LBrace => TokenV::LBrace,
        Token::RBrace => TokenV::RBrace,
        Token::LBracket => TokenV::LBracket,
        Token::RBracket => TokenV::RBracket,
        Token::Comma => TokenV::Comma,
        Token::Colon => TokenV::Colon,
        Token::Semicolon => TokenV::Semicolon,
        Token::Dot => TokenV::Dot,
    }
}

/// A token with the 1-based position of its first character.
#[derive(Debug)]
pub struct TokenWithLocation {
    pub token: Token,
    pub location: SourceLocation,
}

pub ghost struct TokLocV {
    pub token: TokenV,
    pub location: SourceLocation,
}

pub open spec fn vtokloc(t: TokenWithLocation) -> TokLocV {
    TokLocV { token: vtok(t.token), location: t.location }
}

// ---------------------------------------------------------------------------
// Token kinds
// ---------------------------------------------------------------------------

/// A number for each token kind, payloads aside; two tokens are the same
/// kind of token exactly when their numbers agree.
pub open spec fn tok_num(t: TokenV) -> int {
    match t {
        TokenV::Fn => 0,
        TokenV::Let => 1,
        TokenV::If => 2,
        TokenV::Else => 3,
        TokenV::While => 4,
        TokenV::Loop => 5,
        TokenV::Return => 6,
        TokenV::Defer => 7,
        TokenV::Struct => 8,
        TokenV::Component => 9,
        TokenV::ComponentSOA => 10,
        TokenV::System => 11,
        TokenV::Shader => 12,
        TokenV::Vertex => 13,
        TokenV::Fragment => 14,
        TokenV::Compute => 15,
        TokenV::Geometry => 16,
        TokenV::TessellationControl => 17,
        TokenV::TessellationEvaluation => 18,
        TokenV::For => 19,
        TokenV::In => 20,
        TokenV::Match => 21,
        TokenV::Query => 22,
        TokenV::Extern => 23,
        TokenV::Resource => 24,
        TokenV::Pipeline => 25,
        TokenV::Uniform => 26,
        TokenV::Storage => 27,
        TokenV::Sampler2D => 28,
        TokenV::Binding => 29,
        TokenV::Layout => 30,
        TokenV::Hot => 31,
        TokenV::At => 32,
        TokenV::I32 => 33,
        TokenV::I64 => 34,
        TokenV::F32 => 35,
        TokenV::F64 => 36,
        TokenV::Bool => 37,
        TokenV::Str => 38,
        TokenV::Void => 39,
        TokenV::VkInstance => 40,
        TokenV::VkDevice => 41,
        TokenV::VkResult => 42,
        TokenV::VkPhysicalDevice => 43,
        TokenV::VkQueue => 44,
        TokenV::VkCommandPool => 45,
        TokenV::VkCommandBuffer => 46,
        TokenV::VkSwapchainKHR => 47,
        TokenV::VkSurfaceKHR => 48,
        TokenV::VkRenderPass => 49,
        TokenV::VkPipeline => 50,
        TokenV::VkFramebuffer => 51,
        TokenV::VkBuffer => 52,
        TokenV::VkImage => 53,
        TokenV::VkImageView => 54,
        TokenV::VkSemaphore => 55,
        TokenV::VkFence => 56,
        TokenV::GLFWwindow => 57,
        TokenV::GLFWbool => 58,
        TokenV::Vec2 => 59,
        TokenV::Vec3 => 60,
        TokenV::Vec4 => 61,
        TokenV::Mat4 => 62,
        TokenV::Int(_) => 63,
        TokenV::Float(_) => 64,
        TokenV::True => 65,
        TokenV::False => 66,
        TokenV::Null => 67,
        TokenV::StringLit(_) => 68,
        TokenV::Ident(_) => 69,
        TokenV::Plus => 70,
        TokenV::Minus => 71,
        TokenV::Star => 72,
        TokenV::Slash => 73,
        TokenV::Percent => 74,
        TokenV::EqEq => 75,
        TokenV::Ne => 76,
        TokenV::Lt => 77,
        TokenV::Le => 78,
        TokenV::Gt => 79,
        TokenV::Ge => 80,
        TokenV::AndAnd => 81,
        TokenV::OrOr => 82,
        TokenV::Bang => 83,
        TokenV::Eq => 84,
        TokenV::Question => 85,
        TokenV::LParen => 86,
        TokenV::RParen => 87,
        TokenV::LBrace => 88,
        TokenV::RBrace => 89,
        TokenV::LBracket => 90,
        TokenV::RBracket => 91,
        TokenV::Comma => 92,
        TokenV::Colon => 93,
        TokenV::Semicolon => 94,
        TokenV::Dot => 95,
    }
}

/// Whether two tokens are the same kind, payloads aside.
pub open spec fn tok_is(a: TokenV, b: TokenV) -> bool {
    tok_num(a) == tok_num(b)
}

/// The view map keeps the constructor of a token.
pub proof fn lemma_vtok_shape(t: Token)
    ensures
        (t is Int) <==> (vtok(t) is Int),
        (t is Float) <==> (vtok(t) is Float),
        (t is StringLit) <==> (vtok(t) is StringLit),
        (t is Ident) <==> (vtok(t) is Ident),
{
    match t {
        Token::Fn => {},
        Token::Let => {},
        Token::If => {},
        Token::Else => {},
        Token::While => {},
        Token::Loop => {},
        Token::Return => {},
        Token::Defer => {},
        Token::Struct => {},
        Token::Component => {},
        Token::ComponentSOA => {},
        Token::System => {},
        Token::Shader => {},
        Token::Vertex => {},
        Token::Fragment => {},
        Token::Compute => {},
        Token::Geometry => {},
        Token::TessellationControl => {},
        Token::TessellationEvaluation => {},
        Token::For => {},
        Token::In => {},
        Token::Match => {},
        Token::Query => {},
        Token::Extern => {},
        Token::Resource => {},
        Token::Pipeline => {},
        Token::Uniform => {},
        Token::Storage => {},
        Token::Sampler2D => {},
        Token::Binding => {},
        Token::Layout => {},
        Token::Hot => {},
        Token::At => {},
        Token::I32 => {},
        Token::I64 => {},
        Token::F32 => {},
        Token::F64 => {},
        Token::Bool => {},
        Token::String => {},
        Token::Void => {},
        Token::VkInstance => {},
        Token::VkDevice => {},
        Token::VkResult => {},
        Token::VkPhysicalDevice => {},
        Token::VkQueue => {},
        Token::VkCommandPool => {},
        Token::VkCommandBuffer => {},
        Token::VkSwapchainKHR => {},
        Token::VkSurfaceKHR => {},
        Token::VkRenderPass => {},
        Token::VkPipeline => {},
        Token::VkFramebuffer => {},
        Token::VkBuffer => {},
        Token::VkImage => {},
        Token::VkImageView => {},
        Token::VkSemaphore => {},
        Token::VkFence => {},
        Token::GLFWwindow => {},
        Token::GLFWbool => {},
        Token::Vec2 => {},
        Token::Vec3 => {},
        Token::Vec4 => {},
        Token::Mat4 => {},
        Token::Int(..) => {},
        Token::Float(..) => {},
        Token::True => {},
        Token::False => {},
        Token::Null => {},
        Token::StringLit(..) => {},
        Token::Ident(..) => {},
        Token::Plus => {},
        Token::Minus => {},
        Token::Star => {},
        Token::Slash => {},
        Token::Percent => {},
        Token::EqEq => {},
        Token::Ne => {},
        Token::Lt => {},
        Token::Le => {},
        Token::Gt => {},
        Token::Ge => {},
        Token::AndAnd => {},
        Token::OrOr => {},
        Token::Bang => {},
        Token::Eq => {},
        Token::Question => {},
        Token::LParen => {},
        Token::RParen => {},
        Token::LBrace => {},
        Token::RBrace => {},
        Token::LBracket => {},
        Token::RBracket => {},
        Token::Comma => {},
        Token::Colon => {},
        Token::Semicolon => {},
        Token::Dot => {},
    }
}

// ---------------------------------------------------------------------------
// The lexing rules, mathematically
// ---------------------------------------------------------------------------

pub open spec fn spec_is_ws(c: char) -> bool {
    c == ' ' || c == '\t' || c == '\n' || c == '\r'
}

/// Position after skipping whitespace and line comments from `i`.
pub open spec fn lex_skip(s: Seq<char>, i: int) -> int
    decreases s.len() - i, 0nat,
{
    if i < 0 || i >= s.len() {
        i
    } else if spec_is_ws(s[i]) {
        lex_skip(s, i + 1)
    } else if i + 1 < s.len() && s[i] == '/' && s[i + 1] == '/' {
        lex_comment(s, i + 2)
    } else {
        i
    }
}

/// Inside a line comment: everything up to the next newline is skipped; the
/// newline itself is ordinary whitespace.
pub open spec fn lex_comment(s: Seq<char>, i: int) -> int
    decreases s.len() - i, 1nat,
{
    if i < 0 || i >= s.len() {
        i
    } else if s[i] == '\n' {
        lex_skip(s, i)
    } else {
        lex_comment(s, i + 1)
    }
}

/// End of a run of identifier characters starting at `i`.
pub open spec fn scan_ident(s: Seq<char>, i: int) -> int
    decreases s.len() - i,
{
    if i < 0 || i >= s.len() || !spec_is_ident_char(s[i]) {
        i
    } else {
        scan_ident(s, i + 1)
    }
}

/// End of a run of decimal digits starting at `i`.
pub open spec fn scan_digits(s: Seq<char>, i: int) -> int
    decreases s.len() - i,
{
    if i < 0 || i >= s.len() || !spec_is_digit(s[i]) {
        i
    } else {
        scan_digits(s, i + 1)
    }
}

/// End of a run of hexadecimal digits starting at `i`.
pub open spec fn scan_hex(s: Seq<char>, i: int) -> int
    decreases s.len() - i,
{
    if i < 0 || i >= s.len() || !spec_is_hex_digit(s[i]) {
        i
    } else {
        scan_hex(s, i + 1)
    }
}

/// Index of the closing quote of a string literal, or the end of input.
pub open spec fn scan_str(s: Seq<char>, i: int) -> int
    decreases s.len() - i,
{
    if i < 0 || i >= s.len() {
        i
    } else if s[i] == '"' {
        i
    } else {
        scan_str(s, i + 1)
    }
}

pub open spec fn spec_digit_val(c: char) -> int {
    c as int - '0' as int
}

pub open spec fn spec_hex_digit_val(c: char) -> int {
    if '0' <= c && c <= '9' {
        c as int - '0' as int
    } else if 'a' <= c && c <= 'f' {
        c as int - 'a' as int + 10
    } else {
        c as int - 'A' as int + 10
    }
}

/// The value of the decimal digits `s[i..j]`.
pub open spec fn spec_dec_val(s: Seq<char>, i: int, j: int) -> int
    decreases j - i,
{
    if j <= i {
        0
    } else {
        spec_dec_val(s, i, j - 1) * 10 + spec_digit_val(s[j - 1])
    }
}

/// The value of the hexadecimal digits `s[i..j]`.
pub open spec fn spec_hex_val(s: Seq<char>, i: int, j: int) -> int
    decreases j - i,
{
    if j <= i {
        0
    } else {
        spec_hex_val(s, i, j - 1) * 16 + spec_hex_digit_val(s[j - 1])
    }
}

/// The keyword for an identifier-shaped word, if there is one.
pub open spec fn spec_keyword(w: Seq<char>) -> Option<TokenV> {
    if w == "fn"@ { Some(TokenV::Fn) }
    else if w == "let"@ { Some(TokenV::Let) }
    else if w == "if"@ { Some(TokenV::If) }
    else if w == "else"@ { Some(TokenV::Else) }
    else if w == "while"@ { Some(TokenV::While) }
    else if w == "loop"@ { Some(TokenV::Loop) }
    else if w == "return"@ { Some(TokenV::Return) }
    else if w == "defer"@ { Some(TokenV::Defer) }
    else if w == "struct"@ { Some(TokenV::Struct) }
    else if w == "component"@ { Some(TokenV::Component) }
    else if w == "component_soa"@ { Some(TokenV::ComponentSOA) }
    else if w == "system"@ { Some(TokenV::System) }
    else if w == "shader"@ { Some(TokenV::Shader) }
    else if w == "vertex"@ { Some(TokenV::Vertex) }
    else if w == "fragment"@ { Some(TokenV::Fragment) }
    else if w == "compute"@ { Some(TokenV::Compute) }
    else if w == "geometry"@ { Some(TokenV::Geometry) }
    else if w == "tessellation_control"@ { Some(TokenV::TessellationControl) }
    else if w == "tessellation_evaluation"@ { Some(TokenV::TessellationEvaluation) }
    else if w == "for"@ { Some(TokenV::For) }
    else if w == "in"@ { Some(TokenV::In) }
    else if w == "match"@ { Some(TokenV::Match) }
    else if w == "query"@ { Some(TokenV::Query) }
    else if w == "extern"@ { Some(TokenV::Extern) }
    else if w == "resource"@ { Some(TokenV::Resource) }
    else if w == "pipeline"@ { Some(TokenV::Pipeline) }
    else if w == "uniform"@ { Some(TokenV::Uniform) }
    else if w == "storage"@ { Some(TokenV::Storage) }
    else if w == "sampler2D"@ { Some(TokenV::Sampler2D) }
    else if w == "binding"@ { Some(TokenV::Binding) }
    else if w == "layout"@ { Some(TokenV::Layout) }
    else if w == "i32"@ { Some(TokenV::I32) }
    else if w == "i64"@ { Some(TokenV::I64) }
    else if w == "f32"@ { Some(TokenV::F32) }
    else if w == "f64"@ { Some(TokenV::F64) }
    else if w == "bool"@ { Some(TokenV::Bool) }
    else if w == "string"@ { Some(TokenV::Str) }
    else if w == "void"@ { Some(TokenV::Void) }
    else if w == "VkInstance"@ { Some(TokenV::VkInstance) }
    else if w == "VkDevice"@ { Some(TokenV::VkDevice) }
    else if w == "VkResult"@ { Some(TokenV::VkResult) }
    else if w == "VkPhysicalDevice"@ { Some(TokenV::VkPhysicalDevice) }
    else if w == "VkQueue"@ { Some(TokenV::VkQueue) }
    else if w == "VkCommandPool"@ { Some(TokenV::VkCommandPool) }
    else if w == "VkCommandBuffer"@ { Some(TokenV::VkCommandBuffer) }
    else if w == "VkSwapchainKHR"@ { Some(TokenV::VkSwapchainKHR) }
    else if w == "VkSurfaceKHR"@ { Some(TokenV::VkSurfaceKHR) }
    else if w == "VkRenderPass"@ { Some(TokenV::VkRenderPass) }
    else if w == "VkPipeline"@ { Some(TokenV::VkPipeline) }
    else if w == "VkFramebuffer"@ { Some(TokenV::VkFramebuffer) }
    else if w == "VkBuffer"@ { Some(TokenV::VkBuffer) }
    else if w == "VkImage"@ { Some(TokenV::VkImage) }
    else if w == "VkImageView"@ { Some(TokenV::VkImageView) }
    else if w == "VkSemaphore"@ { Some(TokenV::VkSemaphore) }
    else if w == "VkFence"@ { Some(TokenV::VkFence) }
    else if w == "GLFWwindow"@ { Some(TokenV::GLFWwindow) }
    else if w == "GLFWbool"@ { Some(TokenV::GLFWbool) }
    else if w == "Vec2"@ { Some(TokenV::Vec2) }
    else if w == "Vec3"@ { Some(TokenV::Vec3) }
    else if w == "Vec4"@ { Some(TokenV::Vec4) }
    else if w == "Mat4"@ { Some(TokenV::Mat4) }
    else if w == "true"@ { Some(TokenV::True) }
    else if w == "false"@ { Some(TokenV::False) }
    else if w == "null"@ { Some(TokenV::Null) }
    else { None }
}

/// One lexing step: the token starting at position `i` and the position
/// after it, or a failure when no rule matches.
pub ghost enum ScanV {
    Hit(TokenV, int),
    Miss,
}

pub open spec fn i64_max() -> int {
    0x7fff_ffff_ffff_ffff
}

pub open spec fn i64_min_mag() -> int {
    0x8000_0000_0000_0000
}

pub open spec fn lex_tok(s: Seq<char>, i: int) -> ScanV {
    let c = s[i];
    if spec_is_ident_start(c) {
        let j = scan_ident(s, i + 1);
        let w = s.subrange(i, j);
        match spec_keyword(w) {
            Some(k) => ScanV::Hit(k, j),
            None => ScanV::Hit(TokenV::Ident(w), j),
        }
    } else if spec_is_digit(c) {
        if c == '0' && i + 2 < s.len() && (s[i + 1] == 'x' || s[i + 1] == 'X')
            && spec_is_hex_digit(s[i + 2]) {
            let j = scan_hex(s, i + 3);
            let v = spec_hex_val(s, i + 2, j);
            if v <= i64_max() {
                ScanV::Hit(TokenV::Int(v as i64), j)
            } else {
                ScanV::Miss
            }
        } else {
            let j = scan_digits(s, i + 1);
            if j < s.len() && s[j] == '.' && j + 1 < s.len() && spec_is_digit(s[j + 1]) {
                let k = scan_digits(s, j + 2);
                ScanV::Hit(TokenV::Float(s.subrange(i, k)), k)
            } else {
                let v = spec_dec_val(s, i, j);
                if v <= i64_max() {
                    ScanV::Hit(TokenV::Int(v as i64), j)
                } else {
                    ScanV::Miss
                }
            }
        }
    } else if c == '-' && i + 1 < s.len() && spec_is_digit(s[i + 1]) {
        let j = scan_digits(s, i + 2);
        if j < s.len() && s[j] == '.' && j + 1 < s.len() && spec_is_digit(s[j + 1]) {
            let k = scan_digits(s, j + 2);
            ScanV::Hit(TokenV::Float(s.subrange(i, k)), k)
        } else {
            let v = spec_dec_val(s, i + 1, j);
            if v <= i64_min_mag() {
                ScanV::Hit(TokenV::Int((-v) as i64), j)
            } else {
                ScanV::Miss
            }
        }
    } else if c == '"' {
        let j = scan_str(s, i + 1);
        if j < s.len() {
            ScanV::Hit(TokenV::StringLit(s.subrange(i + 1, j)), j + 1)
        } else {
            ScanV::Miss
        }
    } else if c == '@' {
        if i + 3 < s.len() && s[i + 1] == 'h' && s[i + 2] == 'o' && s[i + 3] == 't' {
            ScanV::Hit(TokenV::Hot, i + 4)
        } else {
            ScanV::Hit(TokenV::At, i + 1)
        }
    } else if i + 1 < s.len() && c == '=' && s[i + 1] == '=' {
        ScanV::Hit(TokenV::EqEq, i + 2)
    } else if i + 1 < s.len() && c == '!' && s[i + 1] == '=' {
        ScanV::Hit(TokenV::Ne, i + 2)
    } else if i + 1 < s.len() && c == '<' && s[i + 1] == '=' {
        ScanV::Hit(TokenV::Le, i + 2)
    } else if i + 1 < s.len() && c == '>' && s[i + 1] == '=' {
        ScanV::Hit(TokenV::Ge, i + 2)
    } else if i + 1 < s.len() && c == '&' && s[i + 1] == '&' {
        ScanV::Hit(TokenV::AndAnd, i + 2)
    } else if i + 1 < s.len() && c == '|' && s[i + 1] == '|' {
        ScanV::Hit(TokenV::OrOr, i + 2)
    } else if c == '+' { ScanV::Hit(TokenV::Plus, i + 1) }
    else if c == '-' { ScanV::Hit(TokenV::Minus, i + 1) }
    else if c == '*' { ScanV::Hit(TokenV::Star, i + 1) }
    else if c == '/' { ScanV::Hit(TokenV::Slash, i + 1) }
    else if c == '%' { ScanV::Hit(TokenV::Percent, i + 1) }
    else if c == '<' { ScanV::Hit(TokenV::Lt, i + 1) }
    else if c == '>' { ScanV::Hit(TokenV::Gt, i + 1) }
    else if c == '!' { ScanV::Hit(TokenV::Bang, i + 1) }
    else if c == '=' { ScanV::Hit(TokenV::Eq, i + 1) }
    else if c == '?' { ScanV::Hit(TokenV::Question, i + 1) }
    else if c == '(' { ScanV::Hit(TokenV::LParen, i + 1) }
    else if c == ')' { ScanV::Hit(TokenV::RParen, i + 1) }
    else if c == '{' { ScanV::Hit(TokenV::LBrace, i + 1) }
    else if c == '}' { ScanV::Hit(TokenV::RBrace, i + 1) }
    else if c == '[' { ScanV::Hit(TokenV::LBracket, i + 1) }
    else if c == ']' { ScanV::Hit(TokenV::RBracket, i + 1) }
    else if c == ',' { ScanV::Hit(TokenV::Comma, i + 1) }
    else if c == ':' { ScanV::Hit(TokenV::Colon, i + 1) }
    else if c == ';' { ScanV::Hit(TokenV::Semicolon, i + 1) }
    else if c == '.' { ScanV::Hit(TokenV::Dot, i + 1) }
    else { ScanV::Miss }
}

/// The 1-based line and column of character position `p`.
pub open spec fn spec_line_col(s: Seq<char>, p: int) -> (int, int)
    decreases p,
{
    if p <= 0 {
        (1, 1)
    } else {
        let lc = spec_line_col(s, p - 1);
        if s[p - 1] == '\n' {
            (lc.0 + 1, 1)
        } else {
            (lc.0, lc.1 + 1)
        }
    }
}

pub open spec fn spec_loc(s: Seq<char>, p: int) -> SourceLocation {
    let lc = spec_line_col(s, p);
    SourceLocation { line: lc.0 as usize, column: lc.1 as usize }
}

/// Tokenizing from position `i` on: skip, take one token, continue. The
/// result is the token list, or the position of the first lexical error.
pub open spec fn lex_all(s: Seq<char>, i: int) -> Result<Seq<TokLocV>, SourceLocation>
    decreases s.len() - i,
{
    let j0 = lex_skip(s, i);
    let j = if j0 >= i { j0 } else { i };
    if j >= s.len() {
        Ok(Seq::<TokLocV>::empty())
    } else {
        match lex_tok(s, j) {
            ScanV::Miss => Err(spec_loc(s, j)),
            ScanV::Hit(t, k0) => {
                let k1 = if k0 >= j + 1 { k0 } else { j + 1 };
                let k = if k1 <= s.len() { k1 } else { s.len() as int };
                match lex_all(s, k) {
                    Err(e) => Err(e),
                    Ok(rest) => Ok(seq![TokLocV { token: t, location: spec_loc(s, j) }] + rest),
                }
            },
        }
    }
}

/// The whole tokenization of a source text.
pub open spec fn spec_tokenize(s: Seq<char>) -> Result<Seq<TokLocV>, SourceLocation> {
    lex_all(s, 0)
}

// ---------------------------------------------------------------------------
// Facts about the scans
// ---------------------------------------------------------------------------

pub proof fn lemma_scan_ident_at(s: Seq<char>, i: int, k: int)
    requires
        0 <= i <= k <= s.len(),
        forall|j: int| i <= j < k ==> spec_is_ident_char(s[j]),
        k < s.len() ==> !spec_is_ident_char(s[k]),
    ensures
        scan_ident(s, i) == k,
    decreases k - i,
{
    if i < k {
        lemma_scan_ident_at(s, i + 1, k);
    }
}

pub proof fn lemma_scan_digits_at(s: Seq<char>, i: int, k: int)
    requires
        0 <= i <= k <= s.len(),
        forall|j: int| i <= j < k ==> spec_is_digit(s[j]),
        k < s.len() ==> !spec_is_digit(s[k]),
    ensures
        scan_digits(s, i) == k,
    decreases k - i,
{
    if i < k {
        lemma_scan_digits_at(s, i + 1, k);
    }
}

pub proof fn lemma_scan_hex_at(s: Seq<char>, i: int, k: int)
    requires
        0 <= i <= k <= s.len(),
        forall|j: int| i <= j < k ==> spec_is_hex_digit(s[j]),
        k < s.len() ==> !spec_is_hex_digit(s[k]),
    ensures
        scan_hex(s, i) == k,
    decreases k - i,
{
    if i < k {
        lemma_scan_hex_at(s, i + 1, k);
    }
}

pub proof fn lemma_scan_str_at(s: Seq<char>, i: int, k: int)
    requires
        0 <= i <= k <= s.len(),
        forall|j: int| i <= j < k ==> s[j] != '"',
        k < s.len() ==> s[k] == '"',
    ensures
        scan_str(s, i) == k,
    decreases k - i,
{
    if i < k {
        lemma_scan_str_at(s, i + 1, k);
    }
}

/// The digits of a number are non-negative, and appending digits never
/// shrinks the value.
pub proof fn lemma_dec_val_nonneg(s: Seq<char>, i: int, j: int)
    requires
        forall|q: int| i <= q < j ==> spec_is_digit(s[q]),
    ensures
        spec_dec_val(s, i, j) >= 0,
    decreases j - i,
{
    if j > i {
        lemma_dec_val_nonneg(s, i, j - 1);
    }
}

pub proof fn lemma_hex_val_nonneg(s: Seq<char>, i: int, j: int)
    requires
        forall|q: int| i <= q < j ==> spec_is_hex_digit(s[q]),
    ensures
        spec_hex_val(s, i, j) >= 0,
    decreases j - i,
{
    if j > i {
        lemma_hex_val_nonneg(s, i, j - 1);
    }
}

// ---------------------------------------------------------------------------
// The single-token round trip
// ---------------------------------------------------------------------------

/// Round-trip tokenization of identifier-shaped words: tokenizing the exact
/// text of any keyword or identifier on its own yields exactly that one
/// token, at line 1, column 1. (Keywords are the words the keyword table
/// maps; any other word comes back as an identifier.)
pub proof fn lemma_word_token_roundtrip(w: Seq<char>)
    requires
        w.len() > 0,
        spec_is_ident_start(w[0]),
        forall|j: int| 0 <= j < w.len() ==> spec_is_ident_char(w[j]),
    ensures
        spec_tokenize(w) == Ok::<Seq<TokLocV>, SourceLocation>(seq![TokLocV {
            token: match spec_keyword(w) {
                Some(k) => k,
                None => TokenV::Ident(w),
            },
            location: SourceLocation { line: 1, column: 1 },
        }]),
{
    let l = w.len() as int;
    assert(lex_skip(w, 0) == 0);
    lemma_scan_ident_at(w, 1, l);
    assert(w.subrange(0, l) =~= w);
    let t = match spec_keyword(w) {
        Some(k) => k,
        None => TokenV::Ident(w),
    };
    assert(lex_tok(w, 0) == ScanV::Hit(t, l));
    assert(lex_skip(w, l) == l);
    assert(lex_all(w, l) == Ok::<Seq<TokLocV>, SourceLocation>(Seq::<TokLocV>::empty()));
    assert(spec_loc(w, 0) == SourceLocation { line: 1, column: 1 });
    let tl = TokLocV { token: t, location: SourceLocation { line: 1, column: 1 } };
    assert(seq![tl] + Seq::<TokLocV>::empty() =~= seq![tl]);
}

/// The texts of the operator, delimiter and attribute tokens.
pub open spec fn spec_op_text(t: TokenV) -> Option<Seq<char>> {
    match t {
        TokenV::Hot => Some("@hot"@),
        TokenV::At => Some("@"@),
        TokenV::Plus => Some("+"@),
        TokenV::Minus => Some("-"@),
        TokenV::Star => Some("*"@),
        TokenV::Slash => Some("/"@),
        TokenV::Percent => Some("%"@),
        TokenV::EqEq => Some("=="@),
        TokenV::Ne => Some("!="@),
        TokenV::Lt => Some("<"@),
        TokenV::Le => Some("<="@),
        TokenV::Gt => Some(">"@),
        TokenV::Ge => Some(">="@),
        TokenV::AndAnd => Some("&&"@),
        TokenV::OrOr => Some("||"@),
        TokenV::Bang => Some("!"@),
        TokenV::Eq => Some("="@),
        TokenV::Question => Some("?"@),
        TokenV::LParen => Some("("@),
        TokenV::RParen => Some(")"@),
        TokenV::LBrace => Some("{"@),
        TokenV::RBrace => Some("}"@),
        TokenV::LBracket => Some("["@),
        TokenV::RBracket => Some("]"@),
        TokenV::Comma => Some(","@),
        TokenV::Colon => Some(":"@),
        TokenV::Semicolon => Some(";"@),
        TokenV::Dot => Some("."@),
        _ => None,
    }
}

/// Round-trip tokenization of the fixed operator, delimiter and attribute
/// tokens: tokenizing the exact text of such a token yields exactly that one
/// token, at line 1, column 1.
#[verifier::rlimit(100)]
#[verifier::spinoff_prover]
pub proof fn lemma_op_token_roundtrip(t: TokenV, txt: Seq<char>)
    requires
        spec_op_text(t) == Some(txt),
    ensures
        spec_tokenize(txt) == Ok::<Seq<TokLocV>, SourceLocation>(seq![TokLocV {
            token: t,
            location: SourceLocation { line: 1, column: 1 },
        }]),
{
    reveal_strlit("@hot");
    reveal_strlit("@");
    reveal_strlit("+");
    reveal_strlit("-");
    reveal_strlit("*");
    reveal_strlit("/");
    reveal_strlit("%");
    reveal_strlit("==");
    reveal_strlit("!=");
    reveal_strlit("<");
    reveal_strlit("<=");
    reveal_strlit(">");
    reveal_strlit(">=");
    reveal_strlit("&&");
    reveal_strlit("||");
    reveal_strlit("!");
    reveal_strlit("=");
    reveal_strlit("?");
    reveal_strlit("(");
    reveal_strlit(")");
    reveal_strlit("{");
    reveal_strlit("}");
    reveal_strlit("[");
    reveal_strlit("]");
    reveal_strlit(",");
    reveal_strlit(":");
    reveal_strlit(";");
    reveal_strlit(".");
    let l = txt.len() as int;
    assert(lex_skip(txt, 0) == 0);
    assert(lex_tok(txt, 0) == ScanV::Hit(t, l));
    assert(lex_skip(txt, l) == l);
    assert(lex_all(txt, l) == Ok::<Seq<TokLocV>, SourceLocation>(Seq::<TokLocV>::empty()));
    assert(spec_loc(txt, 0) == SourceLocation { line: 1, column: 1 });
    let tl = TokLocV { token: t, location: SourceLocation { line: 1, column: 1 } };
    assert(seq![tl] + Seq::<TokLocV>::empty() =~= seq![tl]);
}


/// Round-trip tokenization of string literals: tokenizing a quoted text
/// whose content holds no quote yields exactly that one string token, at
/// line 1, column 1.
pub proof fn lemma_string_token_roundtrip(content: Seq<char>)
    requires
        forall|j: int| 0 <= j < content.len() ==> content[j] != '"',
    ensures
        spec_tokenize(seq!['"'] + content + seq!['"'])
            == Ok::<Seq<TokLocV>, SourceLocation>(seq![TokLocV {
                token: TokenV::StringLit(content),
                location: SourceLocation { line: 1, column: 1 },
            }]),
{
    let w = seq!['"'] + content + seq!['"'];
    let l = w.len() as int;
    assert(w[0] == '"');
    assert(lex_skip(w, 0) == 0);
    assert forall|j: int| 1 <= j < l - 1 implies w[j] != '"' by {
        assert(w[j] == content[j - 1]);
    }
    assert(w[l - 1] == '"');
    lemma_scan_str_at(w, 1, l - 1);
    assert(w.subrange(1, l - 1) =~= content);
    assert(lex_tok(w, 0) == ScanV::Hit(TokenV::StringLit(content), l));
    assert(lex_skip(w, l) == l);
    assert(lex_all(w, l) == Ok::<Seq<TokLocV>, SourceLocation>(Seq::<TokLocV>::empty()));
    assert(spec_loc(w, 0) == SourceLocation { line: 1, column: 1 });
    let tl = TokLocV {
        token: TokenV::StringLit(content),
        location: SourceLocation { line: 1, column: 1 },
    };
    assert(seq![tl] + Seq::<TokLocV>::empty() =~= seq![tl]);
}


/// Every character of a decimal rendering is a digit.
proof fn lemma_dec_is_digits(n: nat)
    ensures
        crate::text::spec_dec(n).len() >= 1,
        forall|j: int| 0 <= j < crate::text::spec_dec(n).len()
            ==> spec_is_digit(#[trigger] crate::text::spec_dec(n)[j]),
    decreases n,
{
    if n >= 10 {
        lemma_dec_is_digits(n / 10);
        assert forall|j: int| 0 <= j < crate::text::spec_dec(n).len()
            implies spec_is_digit(#[trigger] crate::text::spec_dec(n)[j]) by {
            if j < crate::text::spec_dec(n / 10).len() {
                assert(crate::text::spec_dec(n)[j] == crate::text::spec_dec(n / 10)[j]);
            }
        }
    }
}

/// The decimal value of a range depends only on the characters in it.
proof fn lemma_dec_val_congruent(s: Seq<char>, t: Seq<char>, i: int, j: int, k: int)
    requires
        0 <= i,
        0 <= j - i == t.len() - k,
        k >= 0,
        forall|q: int| 0 <= q < j - i ==> #[trigger] s[i + q] == t[k + q],
    ensures
        spec_dec_val(s, i, j) == spec_dec_val(t, k, t.len() as int),
    decreases j - i,
{
    if j > i {
        assert(s[i + (j - 1 - i)] == t[k + (j - 1 - i)]);
        assert(s[j - 1] == t[t.len() - 1]);
        let t2 = t.take(t.len() - 1);
        assert forall|q: int| 0 <= q < (j - 1) - i implies #[trigger] s[i + q] == t2[k + q] by {
            assert(s[i + q] == t[k + q]);
            assert(t2[k + q] == t[k + q]);
        }
        lemma_dec_val_congruent(s, t2, i, j - 1, k);
        lemma_dec_val_prefix(t, k, t.len() - 1);
        assert(spec_dec_val(t2, k, t2.len() as int) == spec_dec_val(t, k, t.len() - 1));
    }
}

/// Truncating past the end of the read range does not change the value.
proof fn lemma_dec_val_prefix(t: Seq<char>, k: int, j: int)
    requires
        0 <= k,
        0 <= j <= t.len() - 1,
    ensures
        spec_dec_val(t.take(t.len() - 1), k, j) == spec_dec_val(t, k, j),
    decreases j - k,
{
    if j > k {
        lemma_dec_val_prefix(t, k, j - 1);
    }
}

/// Reading back a decimal rendering gives the value it renders.
proof fn lemma_dec_val_of_dec(n: nat)
    ensures
        spec_dec_val(crate::text::spec_dec(n), 0,
            crate::text::spec_dec(n).len() as int) == n,
    decreases n,
{
    let d = crate::text::spec_dec(n);
    if n < 10 {
        assert(spec_dec_val(d, 0, 1) == spec_dec_val(d, 0, 0) * 10 + spec_digit_val(d[0]));
        assert(spec_digit_val(crate::text::spec_digit_char(n)) == n);
    } else {
        lemma_dec_val_of_dec(n / 10);
        let p = crate::text::spec_dec(n / 10);
        assert(d =~= p + seq![crate::text::spec_digit_char(n % 10)]);
        assert(d[d.len() - 1] == crate::text::spec_digit_char(n % 10));
        assert(spec_digit_val(crate::text::spec_digit_char(n % 10)) == n % 10);
        assert(spec_dec_val(d, 0, d.len() as int)
            == spec_dec_val(d, 0, d.len() - 1) * 10 + (n % 10));
        lemma_dec_val_congruent(d, p, 0, d.len() - 1, 0);
    }
}

/// Round-trip tokenization of integer literals: tokenizing the decimal
/// rendering of an integer (with a leading minus for a negative one) yields
/// exactly that one integer token, at line 1, column 1.
#[verifier::rlimit(100)]
#[verifier::spinoff_prover]
pub proof fn lemma_int_token_roundtrip(n: i64)
    ensures
        spec_tokenize(crate::text::spec_dec_i64(n as int))
            == Ok::<Seq<TokLocV>, SourceLocation>(seq![TokLocV {
                token: TokenV::Int(n),
                location: SourceLocation { line: 1, column: 1 },
            }]),
{
    let w = crate::text::spec_dec_i64(n as int);
    let l = w.len() as int;
    if n >= 0 {
        let d = crate::text::spec_dec(n as nat);
        assert(w == d);
        lemma_dec_is_digits(n as nat);
        assert(spec_is_digit(w[0]));
        assert(!spec_is_ident_start(w[0]));
        assert(!spec_is_ws(w[0]) && w[0] != '/');
        assert(lex_skip(w, 0) == 0);
        lemma_scan_digits_at(w, 1, l);
        if w[0] == '0' && 2 < l {
            assert(spec_is_digit(w[1]));
            assert(w[1] != 'x' && w[1] != 'X');
        }
        lemma_dec_val_of_dec(n as nat);
        assert(spec_dec_val(w, 0, l) == n);
        assert(lex_tok(w, 0) == ScanV::Hit(TokenV::Int(n), l));
        assert(lex_skip(w, l) == l);
        assert(lex_all(w, l) == Ok::<Seq<TokLocV>, SourceLocation>(Seq::<TokLocV>::empty()));
        assert(spec_loc(w, 0) == SourceLocation { line: 1, column: 1 });
        let tl = TokLocV {
            token: TokenV::Int(n),
            location: SourceLocation { line: 1, column: 1 },
        };
        assert(seq![tl] + Seq::<TokLocV>::empty() =~= seq![tl]);
    } else {
        let mag = (-(n as int)) as nat;
        let d = crate::text::spec_dec(mag);
        assert(w == seq!['-'] + d);
        lemma_dec_is_digits(mag);
        assert(w[0] == '-');
        assert(!spec_is_ident_start('-') && !spec_is_digit('-'));
        assert(!spec_is_ws('-') && '-' != '/');
        assert(lex_skip(w, 0) == 0);
        assert(w[1] == d[0]);
        assert(spec_is_digit(w[1]));
        assert forall|j: int| 2 <= j < l implies spec_is_digit(#[trigger] w[j]) by {
            assert(w[j] == d[j - 1]);
        }
        lemma_scan_digits_at(w, 2, l);
        assert forall|q: int| 0 <= q < l - 1 implies w[1 + q] == d[q] by {}
        lemma_dec_val_congruent(w, d, 1, l, 0);
        lemma_dec_val_of_dec(mag);
        assert(spec_dec_val(w, 1, l) == mag);
        assert(mag <= i64_min_mag());
        assert(lex_tok(w, 0) == ScanV::Hit(TokenV::Int((-(mag as int)) as i64), l));
        assert((-(mag as int)) as i64 == n);
        assert(lex_skip(w, l) == l);
        assert(lex_all(w, l) == Ok::<Seq<TokLocV>, SourceLocation>(Seq::<TokLocV>::empty()));
        assert(spec_loc(w, 0) == SourceLocation { line: 1, column: 1 });
        let tl = TokLocV {
            token: TokenV::Int(n),
            location: SourceLocation { line: 1, column: 1 },
        };
        assert(seq![tl] + Seq::<TokLocV>::empty() =~= seq![tl]);
    }
}


/// Round-trip tokenization of float literals: tokenizing a spelling of the
/// form `digits.digits`, with an optional leading minus, yields exactly that
/// one float token carrying the spelling, at line 1, column 1.
#[verifier::rlimit(100)]
#[verifier::spinoff_prover]
pub proof fn lemma_float_token_roundtrip(neg: bool, ip: Seq<char>, fp: Seq<char>)
    requires
        ip.len() >= 1,
        fp.len() >= 1,
        forall|j: int| 0 <= j < ip.len() ==> spec_is_digit(#[trigger] ip[j]),
        forall|j: int| 0 <= j < fp.len() ==> spec_is_digit(#[trigger] fp[j]),
    ensures
        ({
            let w = (if neg { seq!['-'] } else { Seq::<char>::empty() }) + ip + seq!['.'] + fp;
            spec_tokenize(w) == Ok::<Seq<TokLocV>, SourceLocation>(seq![TokLocV {
                token: TokenV::Float(w),
                location: SourceLocation { line: 1, column: 1 },
            }])
        }),
{
    let sign: Seq<char> = if neg { seq!['-'] } else { Seq::<char>::empty() };
    let w = sign + ip + seq!['.'] + fp;
    let l = w.len() as int;
    let b = sign.len() as int;
    let dot = b + ip.len() as int;
    assert(w[dot] == '.');
    assert forall|j: int| b <= j < dot implies spec_is_digit(#[trigger] w[j]) by {
        assert(w[j] == ip[j - b]);
    }
    assert forall|j: int| dot + 1 <= j < l implies spec_is_digit(#[trigger] w[j]) by {
        assert(w[j] == fp[j - dot - 1]);
    }
    assert(!spec_is_digit('.') && !spec_is_digit('-'));
    if neg {
        assert(w[0] == '-');
        assert(!spec_is_ident_start('-') && !spec_is_digit('-'));
        assert(!spec_is_ws('-') && '-' != '/');
        assert(lex_skip(w, 0) == 0);
        assert(w[1] == ip[0]);
        assert(spec_is_digit(w[1]));
        lemma_scan_digits_at(w, 2, dot);
        assert(w[dot] == '.');
        assert(dot + 1 < l || fp.len() >= 1);
        assert(spec_is_digit(w[dot + 1]));
        lemma_scan_digits_at(w, dot + 2, l);
        assert(w.subrange(0, l) =~= w);
        assert(lex_tok(w, 0) == ScanV::Hit(TokenV::Float(w), l));
    } else {
        assert(w[0] == ip[0]);
        assert(spec_is_digit(w[0]));
        assert(!spec_is_ident_start(w[0]));
        assert(!spec_is_ws(w[0]) && w[0] != '/');
        assert(lex_skip(w, 0) == 0);
        if w[0] == '0' && 2 < l {
            assert(w[1] == '.' || spec_is_digit(w[1]));
            assert(w[1] != 'x' && w[1] != 'X');
        }
        lemma_scan_digits_at(w, 1, dot);
        assert(spec_is_digit(w[dot + 1]));
        lemma_scan_digits_at(w, dot + 2, l);
        assert(w.subrange(0, l) =~= w);
        assert(lex_tok(w, 0) == ScanV::Hit(TokenV::Float(w), l));
    }
    assert(lex_skip(w, l) == l);
    assert(lex_all(w, l) == Ok::<Seq<TokLocV>, SourceLocation>(Seq::<TokLocV>::empty()));
    assert(spec_loc(w, 0) == SourceLocation { line: 1, column: 1 });
    let tl = TokLocV {
        token: TokenV::Float(w),
        location: SourceLocation { line: 1, column: 1 },
    };
    assert(seq![tl] + Seq::<TokLocV>::empty() =~= seq![tl]);
}

// ---------------------------------------------------------------------------
// The executable lexer
// ---------------------------------------------------------------------------

/// A lexical error: tokenization stops at the first unrecognized byte
/// sequence, at this position.
#[derive(Debug)]
pub struct LexError {
    pub line: usize,
    pub column: usize,
}

impl LexError {
    /// The message the compiler driver prints for a lexical error.
    pub fn message(&self) -> (r: String)
        ensures
            r@ == "Lexical error at "@ + crate::text::spec_dec(self.line as nat) + ":"@
                + crate::text::spec_dec(self.column as nat),
    {
        let mut s = String::from_str("Lexical error at ");
        let l = crate::text::usize_dec(self.line);
        s.append(l.as_str());
        s.append(":");
        let c = crate::text::usize_dec(self.column);
        s.append(c.as_str());
        s
    }
}

/// Computes the 1-based line and column of a character position, by walking
/// the source from the start, as the diagnostics need it.
fn to_line_col(src: &Vec<char>, p: usize) -> (r: (usize, usize))
    requires
        p < src@.len(),
    ensures
        (r.0 as int, r.1 as int) == spec_line_col(src@, p as int),
{
    let n = src.len();
    let mut line: usize = 1;
    let mut column: usize = 1;
    let mut i: usize = 0;
    while i < p
        invariant
            i <= p < n,
            n == src@.len(),
            line <= i + 1,
            column <= i + 1,
            (line as int, column as int) == spec_line_col(src@, i as int),
        decreases p - i,
    {
        if src[i] == '\n' {
            line = line + 1;
            column = 1;
        } else {
            column = column + 1;
        }
        i = i + 1;
    }
    (line, column)
}

/// Skips whitespace and line comments.
fn skip_ws(src: &Vec<char>, start: usize) -> (r: usize)
    requires
        start <= src@.len(),
    ensures
        start <= r <= src@.len(),
        r as int == lex_skip(src@, start as int),
{
    let n = src.len();
    let mut p = start;
    let mut in_comment = false;
    loop
        invariant
            start <= p <= n,
            n == src@.len(),
            (if in_comment {
                lex_comment(src@, p as int)
            } else {
                lex_skip(src@, p as int)
            }) == lex_skip(src@, start as int),
        ensures
            start <= p <= n,
            p as int == lex_skip(src@, start as int),
        decreases n - p, (if in_comment { 2nat } else { 1nat }),
    {
        if p >= n {
            break;
        }
        let c = src[p];
        if in_comment {
            if c == '\n' {
                in_comment = false;
            } else {
                p = p + 1;
            }
        } else {
            if c == ' ' || c == '\t' || c == '\n' || c == '\r' {
                p = p + 1;
            } else if c == '/' && p + 1 < n && src[p + 1] == '/' {
                p = p + 2;
                in_comment = true;
            } else {
                break;
            }
        }
    }
    p
}

/// The keyword token for an identifier-shaped word, if it is one.
fn keyword_of(word: &str) -> (r: Option<Token>)
    ensures
        (match r {
            Some(t) => Some(vtok(t)),
            None => None,
        }) == spec_keyword(word@),
{
    if crate::text::str_eq(word, "fn") { Some(Token::Fn) }
    else if crate::text::str_eq(word, "let") { Some(Token::Let) }
    else if crate::text::str_eq(word, "if") { Some(Token::If) }
    else if crate::text::str_eq(word, "else") { Some(Token::Else) }
    else if crate::text::str_eq(word, "while") { Some(Token::While) }
    else if crate::text::str_eq(word, "loop") { Some(Token::Loop) }
    else if crate::text::str_eq(word, "return") { Some(Token::Return) }
    else if crate::text::str_eq(word, "defer") { Some(Token::Defer) }
    else if crate::text::str_eq(word, "struct") { Some(Token::Struct) }
    else if crate::text::str_eq(word, "component") { Some(Token::Component) }
    else if crate::text::str_eq(word, "component_soa") { Some(Token::ComponentSOA) }
    else if crate::text::str_eq(word, "system") { Some(Token::System) }
    else if crate::text::str_eq(word, "shader") { Some(Token::Shader) }
    else if crate::text::str_eq(word, "vertex") { Some(Token::Vertex) }
    else if crate::text::str_eq(word, "fragment") { Some(Token::Fragment) }
    else if crate::text::str_eq(word, "compute") { Some(Token::Compute) }
    else if crate::text::str_eq(word, "geometry") { Some(Token::Geometry) }
    else if crate::text::str_eq(word, "tessellation_control") { Some(Token::TessellationControl) }
    else if crate::text::str_eq(word, "tessellation_evaluation") { Some(Token::TessellationEvaluation) }
    else if crate::text::str_eq(word, "for") { Some(Token::For) }
    else if crate::text::str_eq(word, "in") { Some(Token::In) }
    else if crate::text::str_eq(word, "match") { Some(Token::Match) }
    else if crate::text::str_eq(word, "query") { Some(Token::Query) }
    else if crate::text::str_eq(word, "extern") { Some(Token::Extern) }
    else if crate::text::str_eq(word, "resource") { Some(Token::Resource) }
    else if crate::text::str_eq(word, "pipeline") { Some(Token::Pipeline) }
    else if crate::text::str_eq(word, "uniform") { Some(Token::Uniform) }
    else if crate::text::str_eq(word, "storage") { Some(Token::Storage) }
    else if crate::text::str_eq(word, "sampler2D") { Some(Token::Sampler2D) }
    else if crate::text::str_eq(word, "binding") { Some(Token::Binding) }
    else if crate::text::str_eq(word, "layout") { Some(Token::Layout) }
    else if crate::text::str_eq(word, "i32") { Some(Token::I32) }
    else if crate::text::str_eq(word, "i64") { Some(Token::I64) }
    else if crate::text::str_eq(word, "f32") { Some(Token::F32) }
    else if crate::text::str_eq(word, "f64") { Some(Token::F64) }
    else if crate::text::str_eq(word, "bool") { Some(Token::Bool) }
    else if crate::text::str_eq(word, "string") { Some(Token::String) }
    else if crate::text::str_eq(word, "void") { Some(Token::Void) }
    else if crate::text::str_eq(word, "VkInstance") { Some(Token::VkInstance) }
    else if crate::text::str_eq(word, "VkDevice") { Some(Token::VkDevice) }
    else if crate::text::str_eq(word, "VkResult") { Some(Token::VkResult) }
    else if crate::text::str_eq(word, "VkPhysicalDevice") { Some(Token::VkPhysicalDevice) }
    else if crate::text::str_eq(word, "VkQueue") { Some(Token::VkQueue) }
    else if crate::text::str_eq(word, "VkCommandPool") { Some(Token::VkCommandPool) }
    else if crate::text::str_eq(word, "VkCommandBuffer") { Some(Token::VkCommandBuffer) }
    else if crate::text::str_eq(word, "VkSwapchainKHR") { Some(Token::VkSwapchainKHR) }
    else if crate::text::str_eq(word, "VkSurfaceKHR") { Some(Token::VkSurfaceKHR) }
    else if crate::text::str_eq(word, "VkRenderPass") { Some(Token::VkRenderPass) }
    else if crate::text::str_eq(word, "VkPipeline") { Some(Token::VkPipeline) }
    else if crate::text::str_eq(word, "VkFramebuffer") { Some(Token::VkFramebuffer) }
    else if crate::text::str_eq(word, "VkBuffer") { Some(Token::VkBuffer) }
    else if crate::text::str_eq(word, "VkImage") { Some(Token::VkImage) }
    else if crate::text::str_eq(word, "VkImageView") { Some(Token::VkImageView) }
    else if crate::text::str_eq(word, "VkSemaphore") { Some(Token::VkSemaphore) }
    else if crate::text::str_eq(word, "VkFence") { Some(Token::VkFence) }
    else if crate::text::str_eq(word, "GLFWwindow") { Some(Token::GLFWwindow) }
    else if crate::text::str_eq(word, "GLFWbool") { Some(Token::GLFWbool) }
    else if crate::text::str_eq(word, "Vec2") { Some(Token::Vec2) }
    else if crate::text::str_eq(word, "Vec3") { Some(Token::Vec3) }
    else if crate::text::str_eq(word, "Vec4") { Some(Token::Vec4) }
    else if crate::text::str_eq(word, "Mat4") { Some(Token::Mat4) }
    else if crate::text::str_eq(word, "true") { Some(Token::True) }
    else if crate::text::str_eq(word, "false") { Some(Token::False) }
    else if crate::text::str_eq(word, "null") { Some(Token::Null) }
    else { None }
}

/// The value of a run of decimal digits, or nothing when it does not fit.
fn dec_value(src: &Vec<char>, i: usize, j: usize) -> (r: Option<u64>)
    requires
        i <= j <= src@.len(),
        forall|q: int| i <= q < j ==> spec_is_digit(src@[q]),
    ensures
        (match r {
            Some(v) => v as int == spec_dec_val(src@, i as int, j as int),
            None => spec_dec_val(src@, i as int, j as int) > u64::MAX,
        }),
{
    let mut acc: u64 = 0;
    let mut k = i;
    while k < j
        invariant
            i <= k <= j <= src@.len(),
            forall|q: int| i <= q < j ==> spec_is_digit(src@[q]),
            acc as int == spec_dec_val(src@, i as int, k as int),
        decreases j - k,
    {
        let c = src[k];
        let d: u64 = (c as u32 as u64) - 48;
        if acc > (u64::MAX - d) / 10 {
            proof {
                lemma_dec_val_monotone(src@, i as int, k + 1, j as int);
            }
            return None;
        }
        acc = acc * 10 + d;
        k = k + 1;
    }
    Some(acc)
}

/// Growing a digit run never shrinks the value.
proof fn lemma_dec_val_monotone(s: Seq<char>, i: int, k: int, j: int)
    requires
        i <= k <= j,
        forall|q: int| i <= q < j ==> spec_is_digit(s[q]),
    ensures
        spec_dec_val(s, i, j) >= spec_dec_val(s, i, k),
    decreases j - k,
{
    if k < j {
        lemma_dec_val_monotone(s, i, k, j - 1);
        lemma_dec_val_nonneg(s, i, j - 1);
        assert(spec_dec_val(s, i, j)
            == spec_dec_val(s, i, j - 1) * 10 + spec_digit_val(s[j - 1]));
        assert(spec_digit_val(s[j - 1]) >= 0);
        assert(spec_dec_val(s, i, j - 1) * 10 >= spec_dec_val(s, i, j - 1)) by (nonlinear_arith)
            requires spec_dec_val(s, i, j - 1) >= 0;
    }
}

/// The value of a run of hexadecimal digits, or nothing when it does not fit.
fn hex_value(src: &Vec<char>, i: usize, j: usize) -> (r: Option<u64>)
    requires
        i <= j <= src@.len(),
        forall|q: int| i <= q < j ==> spec_is_hex_digit(src@[q]),
    ensures
        (match r {
            Some(v) => v as int == spec_hex_val(src@, i as int, j as int),
            None => spec_hex_val(src@, i as int, j as int) > u64::MAX,
        }),
{
    let mut acc: u64 = 0;
    let mut k = i;
    while k < j
        invariant
            i <= k <= j <= src@.len(),
            forall|q: int| i <= q < j ==> spec_is_hex_digit(src@[q]),
            acc as int == spec_hex_val(src@, i as int, k as int),
        decreases j - k,
    {
        let c = src[k];
        let d: u64 = if '0' <= c && c <= '9' {
            (c as u32 as u64) - 48
        } else if 'a' <= c && c <= 'f' {
            (c as u32 as u64) - 87
        } else {
            (c as u32 as u64) - 55
        };
        if acc > (u64::MAX - d) / 16 {
            proof {
                lemma_hex_val_monotone(src@, i as int, k + 1, j as int);
            }
            return None;
        }
        acc = acc * 16 + d;
        k = k + 1;
    }
    Some(acc)
}

proof fn lemma_hex_val_monotone(s: Seq<char>, i: int, k: int, j: int)
    requires
        i <= k <= j,
        forall|q: int| i <= q < j ==> spec_is_hex_digit(s[q]),
    ensures
        spec_hex_val(s, i, j) >= spec_hex_val(s, i, k),
    decreases j - k,
{
    if k < j {
        lemma_hex_val_monotone(s, i, k, j - 1);
        lemma_hex_val_nonneg(s, i, j - 1);
        assert(spec_hex_val(s, i, j)
            == spec_hex_val(s, i, j - 1) * 16 + spec_hex_digit_val(s[j - 1]));
        assert(spec_hex_digit_val(s[j - 1]) >= 0);
        assert(spec_hex_val(s, i, j - 1) * 16 >= spec_hex_val(s, i, j - 1)) by (nonlinear_arith)
            requires spec_hex_val(s, i, j - 1) >= 0;
    }
}

/// Copies `src[i..j]` into an owned string.
fn substring_of(src: &Vec<char>, i: usize, j: usize) -> (r: String)
    requires
        i <= j <= src@.len(),
    ensures
        r@ == src@.subrange(i as int, j as int),
{
    let mut v: Vec<char> = Vec::new();
    let mut k = i;
    while k < j
        invariant
            i <= k <= j <= src@.len(),
            v@ == src@.subrange(i as int, k as int),
        decreases j - k,
    {
        v.push(src[k]);
        proof {
            assert(src@.subrange(i as int, k + 1 as int)
                =~= src@.subrange(i as int, k as int) + seq![src@[k as int]]);
        }
        k = k + 1;
    }
    chars_to_string(&v)
}

/// Scans the single token that starts at `pos`, by longest match; the first
/// character decides the rule.
#[verifier::loop_isolation(false)]
#[verifier::rlimit(80)]
fn next_token(src: &Vec<char>, pos: usize) -> (r: Result<(Token, usize), ()>)
    requires
        pos < src@.len(),
    ensures
        (match r {
            Ok(p) => lex_tok(src@, pos as int) == ScanV::Hit(vtok(p.0), p.1 as int)
                && pos < p.1 <= src@.len(),
            Err(_) => lex_tok(src@, pos as int) is Miss,
        }),
{
    let ghost s = src@;
    let n = src.len();
    let c = src[pos];
    if is_ident_start(c) {
        let mut j = pos + 1;
        while j < n && is_ident_char(src[j])
            invariant
                pos + 1 <= j <= n,
                forall|q: int| pos + 1 <= q < j ==> spec_is_ident_char(s[q]),
            decreases n - j,
        {
            j = j + 1;
        }
        proof {
            lemma_scan_ident_at(s, pos + 1, j as int);
        }
        let word = substring_of(src, pos, j);
        let tok = match keyword_of(word.as_str()) {
            Some(k) => k,
            None => Token::Ident(word),
        };
        Ok((tok, j))
    } else if is_digit(c) {
        if c == '0' && n - pos > 2 && (src[pos + 1] == 'x' || src[pos + 1] == 'X')
            && is_hex_digit(src[pos + 2]) {
            let mut j = pos + 3;
            while j < n && is_hex_digit(src[j])
                invariant
                    pos + 3 <= j <= n,
                    forall|q: int| pos + 3 <= q < j ==> spec_is_hex_digit(s[q]),
                decreases n - j,
            {
                j = j + 1;
            }
            proof {
                lemma_scan_hex_at(s, pos + 3, j as int);
            }
            match hex_value(src, pos + 2, j) {
                Some(v) => {
                    if v <= 0x7fff_ffff_ffff_ffffu64 {
                        Ok((Token::Int(v as i64), j))
                    } else {
                        Err(())
                    }
                },
                None => Err(()),
            }
        } else {
            let mut j = pos + 1;
            while j < n && is_digit(src[j])
                invariant
                    pos + 1 <= j <= n,
                    forall|q: int| pos + 1 <= q < j ==> spec_is_digit(s[q]),
                decreases n - j,
            {
                j = j + 1;
            }
            proof {
                lemma_scan_digits_at(s, pos + 1, j as int);
            }
            if j < n && src[j] == '.' && n - j > 1 && is_digit(src[j + 1]) {
                let mut k = j + 2;
                while k < n && is_digit(src[k])
                    invariant
                        j + 2 <= k <= n,
                        forall|q: int| j + 2 <= q < k ==> spec_is_digit(s[q]),
                    decreases n - k,
                {
                    k = k + 1;
                }
                proof {
                    lemma_scan_digits_at(s, j + 2, k as int);
                }
                Ok((Token::Float(substring_of(src, pos, k)), k))
            } else {
                match dec_value(src, pos, j) {
                    Some(v) => {
                        if v <= 0x7fff_ffff_ffff_ffffu64 {
                            Ok((Token::Int(v as i64), j))
                        } else {
                            Err(())
                        }
                    },
                    None => Err(()),
                }
            }
        }
    } else if c == '-' && n - pos > 1 && is_digit(src[pos + 1]) {
        let mut j = pos + 2;
        while j < n && is_digit(src[j])
            invariant
                pos + 2 <= j <= n,
                forall|q: int| pos + 2 <= q < j ==> spec_is_digit(s[q]),
            decreases n - j,
        {
            j = j + 1;
        }
        proof {
            lemma_scan_digits_at(s, pos + 2, j as int);
        }
        if j < n && src[j] == '.' && n - j > 1 && is_digit(src[j + 1]) {
            let mut k = j + 2;
            while k < n && is_digit(src[k])
                invariant
                    j + 2 <= k <= n,
                    forall|q: int| j + 2 <= q < k ==> spec_is_digit(s[q]),
                decreases n - k,
            {
                k = k + 1;
            }
            proof {
                lemma_scan_digits_at(s, j + 2, k as int);
            }
            Ok((Token::Float(substring_of(src, pos, k)), k))
        } else {
            match dec_value(src, pos + 1, j) {
                Some(v) => {
                    if v <= 0x8000_0000_0000_0000u64 {
                        let m: i64 = if v == 0x8000_0000_0000_0000u64 {
                            -0x7fff_ffff_ffff_ffffi64 - 1
                        } else {
                            -(v as i64)
                        };
                        Ok((Token::Int(m), j))
                    } else {
                        Err(())
                    }
                },
                None => Err(()),
            }
        }
    } else if c == '"' {
        let mut j = pos + 1;
        while j < n && src[j] != '"'
            invariant
                pos + 1 <= j <= n,
                forall|q: int| pos + 1 <= q < j ==> s[q] != '"',
            decreases n - j,
        {
            j = j + 1;
        }
        proof {
            lemma_scan_str_at(s, pos + 1, j as int);
        }
        if j < n {
            Ok((Token::StringLit(substring_of(src, pos + 1, j)), j + 1))
        } else {
            Err(())
        }
    } else if c == '@' {
        if n - pos > 3 && src[pos + 1] == 'h' && src[pos + 2] == 'o' && src[pos + 3] == 't' {
            Ok((Token::Hot, pos + 4))
        } else {
            Ok((Token::At, pos + 1))
        }
    } else if n - pos > 1 && c == '=' && src[pos + 1] == '=' {
        Ok((Token::EqEq, pos + 2))
    } else if n - pos > 1 && c == '!' && src[pos + 1] == '=' {
        Ok((Token::Ne, pos + 2))
    } else if n - pos > 1 && c == '<' && src[pos + 1] == '=' {
        Ok((Token::Le, pos + 2))
    } else if n - pos > 1 && c == '>' && src[pos + 1] == '=' {
        Ok((Token::Ge, pos + 2))
    } else if n - pos > 1 && c == '&' && src[pos + 1] == '&' {
        Ok((Token::AndAnd, pos + 2))
    } else if n - pos > 1 && c == '|' && src[pos + 1] == '|' {
        Ok((Token::OrOr, pos + 2))
    } else if c == '+' { Ok((Token::Plus, pos + 1)) }
    else if c == '-' { Ok((Token::Minus, pos + 1)) }
    else if c == '*' { Ok((Token::Star, pos + 1)) }
    else if c == '/' { Ok((Token::Slash, pos + 1)) }
    else if c == '%' { Ok((Token::Percent, pos + 1)) }
    else if c == '<' { Ok((Token::Lt, pos + 1)) }
    else if c == '>' { Ok((Token::Gt, pos + 1)) }
    else if c == '!' { Ok((Token::Bang, pos + 1)) }
    else if c == '=' { Ok((Token::Eq, pos + 1)) }
    else if c == '?' { Ok((Token::Question, pos + 1)) }
    else if c == '(' { Ok((Token::LParen, pos + 1)) }
    else if c == ')' { Ok((Token::RParen, pos + 1)) }
    else if c == '{' { Ok((Token::LBrace, pos + 1)) }
    else if c == '}' { Ok((Token::RBrace, pos + 1)) }
    else if c == '[' { Ok((Token::LBracket, pos + 1)) }
    else if c == ']' { Ok((Token::RBracket, pos + 1)) }
    else if c == ',' { Ok((Token::Comma, pos + 1)) }
    else if c == ':' { Ok((Token::Colon, pos + 1)) }
    else if c == ';' { Ok((Token::Semicolon, pos + 1)) }
    else if c == '.' { Ok((Token::Dot, pos + 1)) }
    else { Err(()) }
}

/// The hand-written lexer: it owns the source text and turns it into a token
/// list in one pass.
pub struct Lexer {
    source: Vec<char>,
}

impl Lexer {
    pub closed spec fn src_v(&self) -> Seq<char> {
        self.source@
    }

    pub fn new(source: &str) -> (r: Self)
        ensures
            r.src_v() == source@,
    {
        Lexer { source: str_to_chars(source) }
    }

    /// Produces the token list of the source text, each token with its
    /// 1-based line and column, or the position of the first lexical error.
    #[verifier::loop_isolation(false)]
    #[verifier::rlimit(80)]
    pub fn tokenize(&mut self) -> (r: Result<Vec<TokenWithLocation>, LexError>)
        ensures
            final(self).src_v() == old(self).src_v(),
            (match (r, spec_tokenize(old(self).src_v())) {
                (Ok(v), Ok(ts)) => v@.map_values(|t: TokenWithLocation| vtokloc(t)) == ts,
                (Err(e), Err(loc)) => e.line == loc.line && e.column == loc.column,
                (Ok(_), Err(_)) => false,
                (Err(_), Ok(_)) => false,
            }),
    {
        let ghost s = self.source@;
        let n = self.source.len();
        let mut tokens: Vec<TokenWithLocation> = Vec::new();
        let mut pos: usize = 0;
        loop
            invariant
                pos <= n,
                (match lex_all(s, pos as int) {
                    Ok(rest) => lex_all(s, 0) == Ok::<Seq<TokLocV>, SourceLocation>(
                        tokens@.map_values(|t: TokenWithLocation| vtokloc(t)) + rest),
                    Err(e) => lex_all(s, 0) == Err::<Seq<TokLocV>, SourceLocation>(e),
                }),
            decreases n - pos,
        {
            let start = skip_ws(&self.source, pos);
            if start >= n {
                proof {
                    assert(lex_all(s, pos as int)
                        == Ok::<Seq<TokLocV>, SourceLocation>(Seq::<TokLocV>::empty()));
                    assert(tokens@.map_values(|t: TokenWithLocation| vtokloc(t))
                        + Seq::<TokLocV>::empty()
                        =~= tokens@.map_values(|t: TokenWithLocation| vtokloc(t)));
                }
                return Ok(tokens);
            }
            let ghost p_old = pos as int;
            let (line, column) = to_line_col(&self.source, start);
            let location = SourceLocation { line, column };
            proof {
                assert(location == spec_loc(s, start as int));
            }
            match next_token(&self.source, start) {
                Err(_) => {
                    proof {
                        assert(lex_all(s, p_old) == Err::<Seq<TokLocV>, SourceLocation>(
                            spec_loc(s, start as int)));
                    }
                    return Err(LexError { line, column });
                },
                Ok((token, end)) => {
                    let ghost tv = vtok(token);
                    let tl = TokenWithLocation { token, location };
                    let ghost old_map = tokens@.map_values(|t: TokenWithLocation| vtokloc(t));
                    tokens.push(tl);
                    proof {
                        assert(tokens@.map_values(|t: TokenWithLocation| vtokloc(t))
                            =~= old_map + seq![TokLocV { token: tv, location }]);
                        assert(lex_all(s, p_old) == (match lex_all(s, end as int) {
                            Err(e) => Err::<Seq<TokLocV>, SourceLocation>(e),
                            Ok(rest) => Ok::<Seq<TokLocV>, SourceLocation>(
                                seq![TokLocV { token: tv, location }] + rest),
                        }));
                        if lex_all(s, end as int) is Ok {
                            assert(old_map + (seq![TokLocV { token: tv, location }]
                                + lex_all(s, end as int)->Ok_0)
                                =~= (old_map + seq![TokLocV { token: tv, location }])
                                    + lex_all(s, end as int)->Ok_0);
                        }
                    }
                    pos = end;
                },
            }
        }
    }
}

} // verus!
