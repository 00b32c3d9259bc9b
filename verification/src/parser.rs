use vstd::prelude::*;

use crate::ast::{
    Type, Program, Item, StructDef, ComponentDef, SystemDef, ShaderDef, ShaderStage, Field,
    Param, FunctionDef, ExternFunctionDef, ResourceDef, PipelineDef, PipelineShader,
    PipelineLayout, LayoutBinding, BindingType, Statement, Expression, MatchArm, Pattern,
    StringInterpolationPart, Literal, BinaryOp, UnaryOp,
    vty, vexpr, vstmt, vpattern, vlit, vpart, vfield, vparam, vfndef, vexterndef, vstructdef,
    vcomponentdef, vsystemdef, vshaderdef, vresourcedef, vpipelinedef, vbindingtype,
    vlayoutbinding, vitem, vprogram, clone_type, lemma_vty_shape,
    TyV, ExprV, StmtV, PatternV, FieldV, ParamV, MatchArmV, InterpPartV, FunctionDefV,
    StructDefV, ComponentDefV, SystemDefV, ShaderDefV, ExternFunctionDefV, ResourceDefV,
    PipelineDefV, PipelineShaderV, PipelineLayoutV, LayoutBindingV, BindingTypeV, ItemV, ProgramV,
};
use crate::error::{Diagnostic, DiagV, diags_view, SourceLocation, ErrorReporter};
use crate::lexer::{Token, TokenWithLocation, vtok, vtokloc, TokLocV, TokenV, tok_is, lemma_vtok_shape};
use crate::parser_spec::{
    PRes, p_expect, p_ident as ps_ident, p_string_token as ps_string_token, p_stage as ps_stage,
    p_type as ps_type, p_query_list, p_expression as ps_expression, p_assignment as ps_assignment,
    p_or, p_or_rest, p_and, p_and_rest, p_equality, p_equality_rest, p_comparison,
    p_comparison_rest, p_term, p_term_rest, p_factor, p_factor_rest, p_unary as ps_unary,
    p_call as ps_call, p_args, p_postfix, p_primary as ps_primary, p_match as ps_match, p_arms,
    p_pattern as ps_pattern, p_interp, pi_scan, pi_var, p_block as ps_block, p_stmt_list,
    p_condition, p_statement as ps_statement, p_field as ps_field, p_field_list, p_param_list,
    p_signature, p_function as ps_function, p_extern_function as ps_extern, p_skip_body,
    p_shader as ps_shader, p_resource as ps_resource, dup_before, first_dup, p_bindings,
    p_pipe_entries, p_pipeline as ps_pipeline, p_struct as ps_struct, p_component as ps_component,
    p_fn_list, p_system as ps_system, attrs_has, attrs_launch, p_attrs, p_item as ps_item,
    p_hot_item, p_items, p_program as ps_program, padv,
};
use crate::text::{str_to_chars, chars_to_string, str_eq, i64_dec};

verus! {

/// A fatal syntax error: the parse stops after reporting one diagnostic.
#[derive(Debug)]
pub struct ParseError {
    pub message: String,
}

/// The name a diagnostic uses for a token.
pub open spec fn spec_token_desc(t: TokenV) -> Seq<char> {
    match t {
        TokenV::Fn => "Fn"@,
        TokenV::Let => "Let"@,
        TokenV::If => "If"@,
        TokenV::Else => "Else"@,
        TokenV::While => "While"@,
        TokenV::Loop => "Loop"@,
        TokenV::Return => "Return"@,
        TokenV::Defer => "Defer"@,
        TokenV::Struct => "Struct"@,
        TokenV::Component => "Component"@,
        TokenV::ComponentSOA => "ComponentSOA"@,
        TokenV::System => "System"@,
        TokenV::Shader => "Shader"@,
        TokenV::Vertex => "Vertex"@,
        TokenV::Fragment => "Fragment"@,
        TokenV::Compute => "Compute"@,
        TokenV::Geometry => "Geometry"@,
        TokenV::TessellationControl => "TessellationControl"@,
        TokenV::TessellationEvaluation => "TessellationEvaluation"@,
        TokenV::For => "For"@,
        TokenV::In => "In"@,
        TokenV::Match => "Match"@,
        TokenV::Query => "Query"@,
        TokenV::Extern => "Extern"@,
        TokenV::Resource => "Resource"@,
        TokenV::Pipeline => "Pipeline"@,
        TokenV::Uniform => "Uniform"@,
        TokenV::Storage => "Storage"@,
        TokenV::Sampler2D => "Sampler2D"@,
        TokenV::Binding => "Binding"@,
        TokenV::Layout => "Layout"@,
        TokenV::Hot => "Hot"@,
        TokenV::At => "At"@,
        TokenV::I32 => "I32"@,
        TokenV::I64 => "I64"@,
        TokenV::F32 => "F32"@,
        TokenV::F64 => "F64"@,
        TokenV::Bool => "Bool"@,
        TokenV::Str => "String"@,
        TokenV::Void => "Void"@,
        TokenV::VkInstance => "VkInstance"@,
        TokenV::VkDevice => "VkDevice"@,
        TokenV::VkResult => "VkResult"@,
        TokenV::VkPhysicalDevice => "VkPhysicalDevice"@,
        TokenV::VkQueue => "VkQueue"@,
        TokenV::VkCommandPool => "VkCommandPool"@,
        TokenV::VkCommandBuffer => "VkCommandBuffer"@,
        TokenV::VkSwapchainKHR => "VkSwapchainKHR"@,
        TokenV::VkSurfaceKHR => "VkSurfaceKHR"@,
        TokenV::VkRenderPass => "VkRenderPass"@,
        TokenV::VkPipeline => "VkPipeline"@,
        TokenV::VkFramebuffer => "VkFramebuffer"@,
        TokenV::VkBuffer => "VkBuffer"@,
        TokenV::VkImage => "VkImage"@,
        TokenV::VkImageView => "VkImageView"@,
        TokenV::VkSemaphore => "VkSemaphore"@,
        TokenV::VkFence => "VkFence"@,
        TokenV::GLFWwindow => "GLFWwindow"@,
        TokenV::GLFWbool => "GLFWbool"@,
        TokenV::Vec2 => "Vec2"@,
        TokenV::Vec3 => "Vec3"@,
        TokenV::Vec4 => "Vec4"@,
        TokenV::Mat4 => "Mat4"@,
        TokenV::Int(n) => "Int("@ + crate::text::spec_dec_i64(n as int) + ")"@,
        TokenV::Float(s) => "Float("@ + s + ")"@,
        TokenV::True => "True"@,
        TokenV::False => "False"@,
        TokenV::Null => "Null"@,
        TokenV::StringLit(s) => "StringLit(\""@ + s + "\")"@,
        TokenV::Ident(s) => "Ident(\""@ + s + "\")"@,
        TokenV::Plus => "Plus"@,
        TokenV::Minus => "Minus"@,
        TokenV::Star => "Star"@,
        TokenV::Slash => "Slash"@,
        TokenV::Percent => "Percent"@,
        TokenV::EqEq => "EqEq"@,
        TokenV::Ne => "Ne"@,
        TokenV::Lt => "Lt"@,
        TokenV::Le => "Le"@,
        TokenV::Gt => "Gt"@,
        TokenV::Ge => "Ge"@,
        TokenV::AndAnd => "AndAnd"@,
        TokenV::OrOr => "OrOr"@,
        TokenV::Bang => "Bang"@,
        TokenV::Eq => "Eq"@,
        TokenV::Question => "Question"@,
        TokenV::LParen => "LParen"@,
        TokenV::RParen => "RParen"@,
        TokenV::LBrace => "LBrace"@,
        TokenV::RBrace => "RBrace"@,
        TokenV::LBracket => "LBracket"@,
        TokenV::RBracket => "RBracket"@,
        TokenV::Comma => "Comma"@,
        TokenV::Colon => "Colon"@,
        TokenV::Semicolon => "Semicolon"@,
        TokenV::Dot => "Dot"@,
    }
}

/// Renders a token the way diagnostics name it.
fn token_desc(t: &Token) -> (r: String)
    ensures
        r@ == spec_token_desc(vtok(*t)),
{
    match t {
        Token::Fn => String::from_str("Fn"),
        Token::Let => String::from_str("Let"),
        Token::If => String::from_str("If"),
        Token::Else => String::from_str("Else"),
        Token::While => String::from_str("While"),
        Token::Loop => String::from_str("Loop"),
        Token::Return => String::from_str("Return"),
        Token::Defer => String::from_str("Defer"),
        Token::Struct => String::from_str("Struct"),
        Token::Component => String::from_str("Component"),
        Token::ComponentSOA => String::from_str("ComponentSOA"),
        Token::System => String::from_str("System"),
        Token::Shader => String::from_str("Shader"),
        Token::Vertex => String::from_str("Vertex"),
        Token::Fragment => String::from_str("Fragment"),
        Token::Compute => String::from_str("Compute"),
        Token::Geometry => String::from_str("Geometry"),
        Token::TessellationControl => String::from_str("TessellationControl"),
        Token::TessellationEvaluation => String::from_str("TessellationEvaluation"),
        Token::For => String::from_str("For"),
        Token::In => String::from_str("In"),
        Token::Match => String::from_str("Match"),
        Token::Query => String::from_str("Query"),
        Token::Extern => String::from_str("Extern"),
        Token::Resource => String::from_str("Resource"),
        Token::Pipeline => String::from_str("Pipeline"),
        Token::Uniform => String::from_str("Uniform"),
        Token::Storage => String::from_str("Storage"),
        Token::Sampler2D => String::from_str("Sampler2D"),
        Token::Binding => String::from_str("Binding"),
        Token::Layout => String::from_str("Layout"),
        Token::Hot => String::from_str("Hot"),
        Token::At => String::from_str("At"),
        Token::I32 => String::from_str("I32"),
        Token::I64 => String::from_str("I64"),
        Token::F32 => String::from_str("F32"),
        Token::F64 => String::from_str("F64"),
        Token::Bool => String::from_str("Bool"),
        Token::String => String::from_str("String"),
        Token::Void => String::from_str("Void"),
        Token::VkInstance => String::from_str("VkInstance"),
        Token::VkDevice => String::from_str("VkDevice"),
        Token::VkResult => String::from_str("VkResult"),
        Token::VkPhysicalDevice => String::from_str("VkPhysicalDevice"),
        Token::VkQueue => String::from_str("VkQueue"),
        Token::VkCommandPool => String::from_str("VkCommandPool"),
        Token::VkCommandBuffer => String::from_str("VkCommandBuffer"),
        Token::VkSwapchainKHR => String::from_str("VkSwapchainKHR"),
        Token::VkSurfaceKHR => String::from_str("VkSurfaceKHR"),
        Token::VkRenderPass => String::from_str("VkRenderPass"),
        Token::VkPipeline => String::from_str("VkPipeline"),
        Token::VkFramebuffer => String::from_str("VkFramebuffer"),
        Token::VkBuffer => String::from_str("VkBuffer"),
        Token::VkImage => String::from_str("VkImage"),
        Token::VkImageView => String::from_str("VkImageView"),
        Token::VkSemaphore => String::from_str("VkSemaphore"),
        Token::VkFence => String::from_str("VkFence"),
        Token::GLFWwindow => String::from_str("GLFWwindow"),
        Token::GLFWbool => String::from_str("GLFWbool"),
        Token::Vec2 => String::from_str("Vec2"),
        Token::Vec3 => String::from_str("Vec3"),
        Token::Vec4 => String::from_str("Vec4"),
        Token::Mat4 => String::from_str("Mat4"),
        Token::Int(n) => {
            let mut s = String::from_str("Int(");
            let v = i64_dec(*n);
            s.append(v.as_str());
            s.append(")");
            s
        },
        Token::Float(x) => {
            let mut s = String::from_str("Float(");
            s.append(x.as_str());
            s.append(")");
            s
        },
        Token::True => String::from_str("True"),
        Token::False => String::from_str("False"),
        Token::Null => String::from_str("Null"),
        Token::StringLit(x) => {
            let mut s = String::from_str("StringLit(\"");
            s.append(x.as_str());
            s.append("\")");
            s
        },
        Token::Ident(x) => {
            let mut s = String::from_str("Ident(\"");
            s.append(x.as_str());
            s.append("\")");
            s
        },
        Token::Plus => String::from_str("Plus"),
        Token::Minus => String::from_str("Minus"),
        Token::Star => String::from_str("Star"),
        Token::Slash => String::from_str("Slash"),
        Token::Percent => String::from_str("Percent"),
        Token::EqEq => String::from_str("EqEq"),
        Token::Ne => String::from_str("Ne"),
        Token::Lt => String::from_str("Lt"),
        Token::Le => String::from_str("Le"),
        Token::Gt => String::from_str("Gt"),
        Token::Ge => String::from_str("Ge"),
        Token::AndAnd => String::from_str("AndAnd"),
        Token::OrOr => String::from_str("OrOr"),
        Token::Bang => String::from_str("Bang"),
        Token::Eq => String::from_str("Eq"),
        Token::Question => String::from_str("Question"),
        Token::LParen => String::from_str("LParen"),
        Token::RParen => String::from_str("RParen"),
        Token::LBrace => String::from_str("LBrace"),
        Token::RBrace => String::from_str("RBrace"),
        Token::LBracket => String::from_str("LBracket"),
        Token::RBracket => String::from_str("RBracket"),
        Token::Comma => String::from_str("Comma"),
        Token::Colon => String::from_str("Colon"),
        Token::Semicolon => String::from_str("Semicolon"),
        Token::Dot => String::from_str("Dot"),
    }
}

/// Whether two tokens are the same kind of token, payloads aside.
fn same_kind(a: &Token, b: &Token) -> (r: bool)
    ensures
        r == tok_is(vtok(*a), vtok(*b)),
{
    match (a, b) {
        (Token::Fn, Token::Fn) => true,
        (Token::Let, Token::Let) => true,
        (Token::If, Token::If) => true,
        (Token::Else, Token::Else) => true,
        (Token::While, Token::While) => true,
        (Token::Loop, Token::Loop) => true,
        (Token::Return, Token::Return) => true,
        (Token::Defer, Token::Defer) => true,
        (Token::Struct, Token::Struct) => true,
        (Token::Component, Token::Component) => true,
        (Token::ComponentSOA, Token::ComponentSOA) => true,
        (Token::System, Token::System) => true,
        (Token::Shader, Token::Shader) => true,
        (Token::Vertex, Token::Vertex) => true,
        (Token::Fragment, Token::Fragment) => true,
        (Token::Compute, Token::Compute) => true,
        (Token::Geometry, Token::Geometry) => true,
        (Token::TessellationControl, Token::TessellationControl) => true,
        (Token::TessellationEvaluation, Token::TessellationEvaluation) => true,
        (Token::For, Token::For) => true,
        (Token::In, Token::In) => true,
        (Token::Match, Token::Match) => true,
        (Token::Query, Token::Query) => true,
        (Token::Extern, Token::Extern) => true,
        (Token::Resource, Token::Resource) => true,
        (Token::Pipeline, Token::Pipeline) => true,
        (Token::Uniform, Token::Uniform) => true,
        (Token::Storage, Token::Storage) => true,
        (Token::Sampler2D, Token::Sampler2D) => true,
        (Token::Binding, Token::Binding) => true,
        (Token::Layout, Token::Layout) => true,
        (Token::Hot, Token::Hot) => true,
        (Token::At, Token::At) => true,
        (Token::I32, Token::I32) => true,
        (Token::I64, Token::I64) => true,
        (Token::F32, Token::F32) => true,
        (Token::F64, Token::F64) => true,
        (Token::Bool, Token::Bool) => true,
        (Token::String, Token::String) => true,
        (Token::Void, Token::Void) => true,
        (Token::VkInstance, Token::VkInstance) => true,
        (Token::VkDevice, Token::VkDevice) => true,
        (Token::VkResult, Token::VkResult) => true,
        (Token::VkPhysicalDevice, Token::VkPhysicalDevice) => true,
        (Token::VkQueue, Token::VkQueue) => true,
        (Token::VkCommandPool, Token::VkCommandPool) => true,
        (Token::VkCommandBuffer, Token::VkCommandBuffer) => true,
        (Token::VkSwapchainKHR, Token::VkSwapchainKHR) => true,
        (Token::VkSurfaceKHR, Token::VkSurfaceKHR) => true,
        (Token::VkRenderPass, Token::VkRenderPass) => true,
        (Token::VkPipeline, Token::VkPipeline) => true,
        (Token::VkFramebuffer, Token::VkFramebuffer) => true,
        (Token::VkBuffer, Token::VkBuffer) => true,
        (Token::VkImage, Token::VkImage) => true,
        (Token::VkImageView, Token::VkImageView) => true,
        (Token::VkSemaphore, Token::VkSemaphore) => true,
        (Token::VkFence, Token::VkFence) => true,
        (Token::GLFWwindow, Token::GLFWwindow) => true,
        (Token::GLFWbool, Token::GLFWbool) => true,
        (Token::Vec2, Token::Vec2) => true,
        (Token::Vec3, Token::Vec3) => true,
        (Token::Vec4, Token::Vec4) => true,
        (Token::Mat4, Token::Mat4) => true,
        (Token::Int(_), Token::Int(_)) => true,
        (Token::Float(_), Token::Float(_)) => true,
        (Token::True, Token::True) => true,
        (Token::False, Token::False) => true,
        (Token::Null, Token::Null) => true,
        (Token::StringLit(_), Token::StringLit(_)) => true,
        (Token::Ident(_), Token::Ident(_)) => true,
        (Token::Plus, Token::Plus) => true,
        (Token::Minus, Token::Minus) => true,
        (Token::Star, Token::Star) => true,
        (Token::Slash, Token::Slash) => true,
        (Token::Percent, Token::Percent) => true,
        (Token::EqEq, Token::EqEq) => true,
        (Token::Ne, Token::Ne) => true,
        (Token::Lt, Token::Lt) => true,
        (Token::Le, Token::Le) => true,
        (Token::Gt, Token::Gt) => true,
        (Token::Ge, Token::Ge) => true,
        (Token::AndAnd, Token::AndAnd) => true,
        (Token::OrOr, Token::OrOr) => true,
        (Token::Bang, Token::Bang) => true,
        (Token::Eq, Token::Eq) => true,
        (Token::Question, Token::Question) => true,
        (Token::LParen, Token::LParen) => true,
        (Token::RParen, Token::RParen) => true,
        (Token::LBrace, Token::LBrace) => true,
        (Token::RBrace, Token::RBrace) => true,
        (Token::LBracket, Token::LBracket) => true,
        (Token::RBracket, Token::RBracket) => true,
        (Token::Comma, Token::Comma) => true,
        (Token::Colon, Token::Colon) => true,
        (Token::Semicolon, Token::Semicolon) => true,
        (Token::Dot, Token::Dot) => true,
        _ => false,
    }
}

/// The location diagnostics use at cursor position `i`: the token there, or
/// past the end the last token's position (the unknown position when the
/// stream is empty).
pub open spec fn loc_at(toks: Seq<TokLocV>, i: int) -> SourceLocation {
    if 0 <= i < toks.len() {
        toks[i].location
    } else if toks.len() > 0 {
        toks[toks.len() - 1].location
    } else {
        SourceLocation { line: 0, column: 0 }
    }
}

/// The recursive-descent parser: a cursor over the token list, the shared
/// diagnostics, and an optional reporter for rendering them.
pub struct Parser {
    tokens: Vec<TokenWithLocation>,
    current: usize,
    current_location: SourceLocation,
    error_reporter: Option<ErrorReporter>,
    errors: Vec<Diagnostic>,
}

impl Parser {
    pub closed spec fn toks_v(&self) -> Seq<TokLocV> {
        self.tokens@.map_values(|t: TokenWithLocation| vtokloc(t))
    }

    pub closed spec fn cur(&self) -> int {
        self.current as int
    }

    pub closed spec fn errs_v(&self) -> Seq<DiagV> {
        diags_view(self.errors@)
    }

    /// The stored reporter's file path and source lines, if one was set.
    pub closed spec fn reporter_v(&self) -> Option<(Seq<char>, Seq<Seq<char>>)> {
        match self.error_reporter {
            Some(rep) => Some((rep.file_v(), rep.lines_v())),
            None => None,
        }
    }

    /// The cursor never runs past the end of the token list, and at the end
    /// the remembered location is the last token's (for diagnostics there).
    pub closed spec fn wf(&self) -> bool {
        &&& self.current <= self.tokens@.len()
        &&& (self.current == self.tokens@.len()
            ==> self.current_location == loc_at(self.toks_v(), self.cur()))
    }

    pub fn new(tokens: Vec<TokenWithLocation>) -> (r: Self)
        ensures
            r.wf(),
            r.cur() == 0,
            r.toks_v() == tokens@.map_values(|t: TokenWithLocation| vtokloc(t)),
            r.errs_v() == Seq::<DiagV>::empty(),
    {
        let current_location = if tokens.len() > 0 {
            tokens[0].location
        } else {
            SourceLocation::unknown()
        };
        let r = Parser {
            tokens,
            current: 0,
            current_location,
            error_reporter: None,
            errors: Vec::new(),
        };
        proof {
            assert(diags_view(r.errors@) =~= Seq::<DiagV>::empty());
        }
        r
    }

    /// Stores the reporter used to render the recorded diagnostics.
    pub fn set_error_reporter(&mut self, reporter: ErrorReporter)
        ensures
            final(self).wf() == old(self).wf(),
            final(self).cur() == old(self).cur(),
            final(self).toks_v() == old(self).toks_v(),
            final(self).errs_v() == old(self).errs_v(),
            final(self).reporter_v() == Some((reporter.file_v(), reporter.lines_v())),
    {
        self.error_reporter = Some(reporter);
    }

    /// The diagnostics recorded so far, in the order they were found.
    pub fn errors(&self) -> (r: &Vec<Diagnostic>)
        ensures
            diags_view(r@) == self.errs_v(),
    {
        &self.errors
    }

    /// Renders every recorded diagnostic through the stored reporter; with
    /// no reporter set, nothing is rendered.
    pub fn rendered_errors(&self) -> (r: Vec<String>)
        ensures
            match self.reporter_v() {
                Some(rep) => {
                    &&& r@.len() == self.errs_v().len()
                    &&& forall|i: int| 0 <= i < r@.len()
                        ==> r@[i]@ == crate::error::spec_render(rep.0, rep.1, self.errs_v()[i])
                },
                None => r@.len() == 0,
            },
    {
        let mut out: Vec<String> = Vec::new();
        match &self.error_reporter {
            None => out,
            Some(rep) => {
                let mut i: usize = 0;
                while i < self.errors.len()
                    invariant
                        i <= self.errors@.len(),
                        out@.len() == i,
                        self.reporter_v() == Some((rep.file_v(), rep.lines_v())),
                        self.errs_v().len() == self.errors@.len(),
                        forall|j: int| 0 <= j < i
                            ==> out@[j]@ == crate::error::spec_render(rep.file_v(), rep.lines_v(),
                                self.errs_v()[j]),
                    decreases self.errors@.len() - i,
                {
                    let block = rep.render(&self.errors[i]);
                    out.push(block);
                    i = i + 1;
                }
                out
            },
        }
    }

    fn report_error(&mut self, location: SourceLocation, message: String, suggestion: Option<String>)
        ensures
            final(self).wf() == old(self).wf(),
            final(self).cur() == old(self).cur(),
            final(self).toks_v() == old(self).toks_v(),
            final(self).reporter_v() == old(self).reporter_v(),
            final(self).errs_v() == old(self).errs_v().push(crate::error::spec_diag(location,
                message@, match suggestion { Some(s) => Some(s@), None => None })),
    {
        let d = Diagnostic {
            location,
            message,
            suggestion,
            secondary_location: None,
            secondary_label: None,
        };
        self.errors.push(d);
        proof {
            assert(diags_view(self.errors@)
                =~= diags_view(old(self).errors@).push(self.errors@.last()@));
        }
    }

    fn report_parse_error(&mut self, message: String, suggestion: Option<String>)
        requires
            old(self).wf(),
        ensures
            final(self).wf(),
            final(self).cur() == old(self).cur(),
            final(self).toks_v() == old(self).toks_v(),
            final(self).reporter_v() == old(self).reporter_v(),
            final(self).errs_v() == old(self).errs_v().push(crate::error::spec_diag(
                loc_at(old(self).toks_v(), old(self).cur()), message@,
                match suggestion { Some(s) => Some(s@), None => None })),
    {
        let location = self.current_token_location();
        self.report_error(location, message, suggestion);
    }

    fn current_token_location(&self) -> (r: SourceLocation)
        requires
            self.wf(),
        ensures
            r == loc_at(self.toks_v(), self.cur()),
    {
        if self.current < self.tokens.len() {
            self.tokens[self.current].location
        } else {
            self.current_location
        }
    }

    fn is_at_end(&self) -> (r: bool)
        ensures
            r == (self.cur() >= self.toks_v().len()),
    {
        self.current >= self.tokens.len()
    }

    /// Whether the current token is of the same kind as the given one.
    fn check(&self, token: &Token) -> (r: bool)
        ensures
            r == (self.cur() < self.toks_v().len()
                && tok_is(self.toks_v()[self.cur()].token, vtok(*token))),
    {
        if self.is_at_end() {
            false
        } else {
            same_kind(&self.tokens[self.current].token, token)
        }
    }

    fn advance(&mut self)
        requires
            old(self).wf(),
        ensures
            final(self).wf(),
            final(self).toks_v() == old(self).toks_v(),
            final(self).errs_v() == old(self).errs_v(),
            final(self).reporter_v() == old(self).reporter_v(),
            old(self).cur() < old(self).toks_v().len() ==> final(self).cur() == old(self).cur() + 1,
            old(self).cur() >= old(self).toks_v().len() ==> final(self).cur() == old(self).cur(),
    {
        if self.current < self.tokens.len() {
            self.current_location = self.tokens[self.current].location;
            self.current = self.current + 1;
        }
    }

    #[verifier::rlimit(100)]
    #[verifier::spinoff_prover]
    fn expect(&mut self, token: &Token) -> (r: Result<(), ParseError>)
        requires
            old(self).wf(),
        ensures
            final(self).wf(),
            final(self).toks_v() == old(self).toks_v(),
            final(self).reporter_v() == old(self).reporter_v(),
            old(self).cur() <= final(self).cur(),
            ({
                let m = p_expect(old(self).toks_v(), old(self).cur(), vtok(*token));
                match r {
                    Ok(_) => m matches PRes::Hit { pos, .. } && final(self).cur() == pos
                        && final(self).errs_v() == old(self).errs_v(),
                    Err(_) => m is Fail && final(self).cur() == old(self).cur()
                        && final(self).errs_v() == old(self).errs_v().push(m->Fail_0),
                }
            }),
    {
        if self.check(token) {
            self.advance();
            Ok(())
        } else {
            let got = if self.current < self.tokens.len() {
                token_desc(&self.tokens[self.current].token)
            } else {
                String::from_str("<end of input>")
            };
            let want = token_desc(token);
            let mut m = String::from_str("Expected ");
            m.append(want.as_str());
            m.append(", got ");
            m.append(got.as_str());
            let mut sg = String::from_str("Expected token: ");
            sg.append(want.as_str());
            let msg2 = m.clone();
            self.report_parse_error(m, Some(sg));
            Err(ParseError { message: msg2 })
        }
    }

    #[verifier::rlimit(100)]
    #[verifier::spinoff_prover]
    fn expect_ident(&mut self) -> (r: Result<String, ParseError>)
        requires
            old(self).wf(),
        ensures
            final(self).wf(),
            final(self).toks_v() == old(self).toks_v(),
            final(self).reporter_v() == old(self).reporter_v(),
            old(self).cur() <= final(self).cur(),
            ({
                let m = ps_ident(old(self).toks_v(), old(self).cur());
                match r {
                    Ok(n) => m matches PRes::Hit { v, pos } && n@ == v
                        && final(self).cur() == pos
                        && final(self).errs_v() == old(self).errs_v(),
                    Err(_) => m is Fail && final(self).cur() == old(self).cur()
                        && final(self).errs_v() == old(self).errs_v().push(m->Fail_0),
                }
            }),
    {
        if self.current < self.tokens.len() {
            proof {
                lemma_vtok_shape(self.tokens@[self.current as int].token);
            }
            let is_ident = matches!(&self.tokens[self.current].token, Token::Ident(_));
            if is_ident {
                let name = match &self.tokens[self.current].token {
                    Token::Ident(n) => n.clone(),
                    _ => String::new(),
                };
                self.advance();
                return Ok(name);
            }
        }
        proof {
            if self.current < self.tokens@.len() {
                lemma_vtok_shape(self.tokens@[self.current as int].token);
            }
        }
        let got = if self.current < self.tokens.len() {
            token_desc(&self.tokens[self.current].token)
        } else {
            String::from_str("<end of input>")
        };
        let mut m = String::from_str("Expected identifier, got ");
        m.append(got.as_str());
        let sg = String::from_str("Use an identifier: a name starting with a letter or underscore");
        let msg2 = m.clone();
        self.report_parse_error(m, Some(sg));
        Err(ParseError { message: msg2 })
    }

    /// The description of the current token, for diagnostics.
    fn peek_desc(&self) -> (r: String)
        ensures
            r@ == crate::parser_spec::desc_at(self.toks_v(), self.cur()),
    {
        proof {
            if self.current < self.tokens@.len() {
                lemma_vtok_shape(self.tokens@[self.current as int].token);
            }
        }
        if self.current < self.tokens.len() {
            token_desc(&self.tokens[self.current].token)
        } else {
            String::from_str("<end of input>")
        }
    }

    /// Parses a type: a scalar or handle keyword, a named struct type, an
    /// array `[T]`, an optional `?T`, or `query<T, ...>`; on failure exactly
    /// the diagnostic the specification names is recorded.
    #[verifier::loop_isolation(false)]
    #[verifier::rlimit(100)]
    #[verifier::spinoff_prover]
    fn parse_type(&mut self) -> (r: Result<Type, ParseError>)
        requires
            old(self).wf(),
        ensures
            final(self).wf(),
            final(self).toks_v() == old(self).toks_v(),
            final(self).reporter_v() == old(self).reporter_v(),
            old(self).cur() <= final(self).cur() <= final(self).toks_v().len(),
            ({
                let m = ps_type(old(self).toks_v(), old(self).cur());
                match r {
                    Ok(v) => m matches PRes::Hit { v: mv, pos } && vty(v) == mv
                        && final(self).cur() == pos && old(self).cur() < pos
                        && final(self).errs_v() == old(self).errs_v(),
                    Err(_) => m is Fail
                        && final(self).errs_v() == old(self).errs_v().push(m->Fail_0),
                }
            }),
        decreases self.toks_v().len() - self.cur(), 26nat,
    {
        proof {
            reveal(crate::parser_spec::p_type);
        }
        if self.check(&Token::I32) { self.advance(); return Ok(Type::I32); }
        if self.check(&Token::I64) { self.advance(); return Ok(Type::I64); }
        if self.check(&Token::F32) { self.advance(); return Ok(Type::F32); }
        if self.check(&Token::F64) { self.advance(); return Ok(Type::F64); }
        if self.check(&Token::Bool) { self.advance(); return Ok(Type::Bool); }
        if self.check(&Token::String) { self.advance(); return Ok(Type::String); }
        if self.check(&Token::Void) { self.advance(); return Ok(Type::Void); }
        if self.check(&Token::VkInstance) { self.advance(); return Ok(Type::VkInstance); }
        if self.check(&Token::VkDevice) { self.advance(); return Ok(Type::VkDevice); }
        if self.check(&Token::VkResult) { self.advance(); return Ok(Type::VkResult); }
        if self.check(&Token::VkPhysicalDevice) { self.advance(); return Ok(Type::VkPhysicalDevice); }
        if self.check(&Token::VkQueue) { self.advance(); return Ok(Type::VkQueue); }
        if self.check(&Token::VkCommandPool) { self.advance(); return Ok(Type::VkCommandPool); }
        if self.check(&Token::VkCommandBuffer) { self.advance(); return Ok(Type::VkCommandBuffer); }
        if self.check(&Token::VkSwapchainKHR) { self.advance(); return Ok(Type::VkSwapchainKHR); }
        if self.check(&Token::VkSurfaceKHR) { self.advance(); return Ok(Type::VkSurfaceKHR); }
        if self.check(&Token::VkRenderPass) { self.advance(); return Ok(Type::VkRenderPass); }
        if self.check(&Token::VkPipeline) { self.advance(); return Ok(Type::VkPipeline); }
        if self.check(&Token::VkFramebuffer) { self.advance(); return Ok(Type::VkFramebuffer); }
        if self.check(&Token::VkBuffer) { self.advance(); return Ok(Type::VkBuffer); }
        if self.check(&Token::VkImage) { self.advance(); return Ok(Type::VkImage); }
        if self.check(&Token::VkImageView) { self.advance(); return Ok(Type::VkImageView); }
        if self.check(&Token::VkSemaphore) { self.advance(); return Ok(Type::VkSemaphore); }
        if self.check(&Token::VkFence) { self.advance(); return Ok(Type::VkFence); }
        if self.check(&Token::GLFWwindow) { self.advance(); return Ok(Type::GLFWwindow); }
        if self.check(&Token::GLFWbool) { self.advance(); return Ok(Type::GLFWbool); }
        if self.check(&Token::Vec2) { self.advance(); return Ok(Type::Vec2); }
        if self.check(&Token::Vec3) { self.advance(); return Ok(Type::Vec3); }
        if self.check(&Token::Vec4) { self.advance(); return Ok(Type::Vec4); }
        if self.check(&Token::Mat4) { self.advance(); return Ok(Type::Mat4); }
        if self.check(&Token::Query) {
            self.advance();
            match self.expect(&Token::Lt) {
                Ok(_) => {},
                Err(e) => {
                    return Err(e);
                },
            }
            let component_types = match self.parse_query_list() {
                Ok(ts) => ts,
                Err(e) => {
                    return Err(e);
                },
            };
            match self.expect(&Token::Gt) {
                Ok(_) => {},
                Err(e) => {
                    return Err(e);
                },
            }
            proof {
                crate::ast::lemma_vty_vec(component_types, 0);
                assert(crate::ast::vty_vec(component_types, 0)
                    =~= component_types@.map_values(|t: Type| vty(t)));
            }
            return Ok(Type::Query(component_types));
        }
        if self.current < self.tokens.len() {
            proof {
                lemma_vtok_shape(self.tokens@[self.current as int].token);
            }
            let is_ident = matches!(&self.tokens[self.current].token, Token::Ident(_));
            if is_ident {
                let name = match &self.tokens[self.current].token {
                    Token::Ident(n) => n.clone(),
                    _ => String::new(),
                };
                self.advance();
                return Ok(Type::Struct(name));
            }
        }
        if self.check(&Token::LBracket) {
            self.advance();
            let element_type = match self.parse_type() {
                Ok(t) => t,
                Err(e) => {
                    return Err(e);
                },
            };
            match self.expect(&Token::RBracket) {
                Ok(_) => {},
                Err(e) => {
                    return Err(e);
                },
            }
            return Ok(Type::Array(Box::new(element_type)));
        }
        if self.check(&Token::Question) {
            self.advance();
            let inner_type = match self.parse_type() {
                Ok(t) => t,
                Err(e) => {
                    return Err(e);
                },
            };
            return Ok(Type::Optional(Box::new(inner_type)));
        }
        let token_str = self.peek_desc();
        let mut m = String::from_str("Unexpected token in type: ");
        m.append(token_str.as_str());
        let sg = String::from_str("Expected: i32, i64, f32, f64, bool, string, void, or a type name");
        let msg2 = m.clone();
        self.report_parse_error(m, Some(sg));
        Err(ParseError { message: msg2 })
    }

    /// The comma-separated component list of a `query<...>` type.
    #[verifier::rlimit(100)]
    #[verifier::spinoff_prover]
    fn parse_query_list(&mut self) -> (r: Result<Vec<Type>, ParseError>)
        requires
            old(self).wf(),
        ensures
            final(self).wf(),
            final(self).toks_v() == old(self).toks_v(),
            final(self).reporter_v() == old(self).reporter_v(),
            old(self).cur() <= final(self).cur() <= final(self).toks_v().len(),
            ({
                let m = p_query_list(old(self).toks_v(), old(self).cur());
                match r {
                    Ok(v) => m matches PRes::Hit { v: mv, pos }
                        && v@.map_values(|t: Type| vty(t)) == mv
                        && final(self).cur() == pos && old(self).cur() < pos
                        && final(self).errs_v() == old(self).errs_v(),
                    Err(_) => m is Fail
                        && final(self).errs_v() == old(self).errs_v().push(m->Fail_0),
                }
            }),
        decreases self.toks_v().len() - self.cur(), 27nat,
    {
        proof {
            reveal(crate::parser_spec::p_query_list);
            reveal(crate::parser_spec::p_type);
        }
        if self.current >= self.tokens.len() {
            let token_str = self.peek_desc();
            let mut m = String::from_str("Unexpected token in type: ");
            m.append(token_str.as_str());
            let sg = String::from_str("Expected: i32, i64, f32, f64, bool, string, void, or a type name");
            let msg2 = m.clone();
            self.report_parse_error(m, Some(sg));
            return Err(ParseError { message: msg2 });
        }
        let ty = match self.parse_type() {
            Ok(t) => t,
            Err(e) => {
                return Err(e);
            },
        };
        if self.check(&Token::Comma) {
            self.advance();
            let rest = match self.parse_query_list() {
                Ok(ts) => ts,
                Err(e) => {
                    return Err(e);
                },
            };
            let mut out: Vec<Type> = Vec::new();
            out.push(ty);
            let mut i: usize = 0;
            while i < rest.len()
                invariant
                    i <= rest@.len(),
                    out@.len() == i + 1,
                    vty(out@[0]) == vty(ty),
                    forall|j: int| 0 <= j < i ==> vty(out@[j + 1]) == vty(rest@[j]),
                decreases rest@.len() - i,
            {
                let c = clone_type(&rest[i]);
                proof {
                    broadcast use vstd::std_specs::vec::axiom_vec_index_decreases;
                }
                out.push(c);
                i = i + 1;
            }
            proof {
                assert(out@.map_values(|t: Type| vty(t))
                    =~= seq![vty(ty)] + rest@.map_values(|t: Type| vty(t)));
            }
            Ok(out)
        } else {
            let mut out: Vec<Type> = Vec::new();
            out.push(ty);
            proof {
                assert(out@.map_values(|t: Type| vty(t)) =~= seq![vty(ty)]);
            }
            Ok(out)
        }
    }

    /// Parses a match-arm pattern: a literal, the wildcard `_`, or a bare
    /// identifier, which is always a fresh binding, never a constant.
    #[verifier::rlimit(100)]
    #[verifier::spinoff_prover]
    fn parse_pattern(&mut self) -> (r: Result<Pattern, ParseError>)
        requires
            old(self).wf(),
        ensures
            final(self).wf(),
            final(self).toks_v() == old(self).toks_v(),
            final(self).reporter_v() == old(self).reporter_v(),
            old(self).cur() <= final(self).cur() <= final(self).toks_v().len(),
            ({
                let m = ps_pattern(old(self).toks_v(), old(self).cur());
                match r {
                    Ok(v) => m matches PRes::Hit { v: mv, pos } && vpattern(v) == mv
                        && final(self).cur() == pos && old(self).cur() < pos
                        && final(self).errs_v() == old(self).errs_v(),
                    Err(_) => m is Fail
                        && final(self).errs_v() == old(self).errs_v().push(m->Fail_0),
                }
            }),
    {
        proof {
            reveal(crate::parser_spec::p_pattern);
        }
        let pattern_location = self.current_token_location();
        if self.current < self.tokens.len() {
            proof {
                lemma_vtok_shape(self.tokens@[self.current as int].token);
            }
            let is_int = matches!(&self.tokens[self.current].token, Token::Int(_));
            if is_int {
                let n = match &self.tokens[self.current].token {
                    Token::Int(n) => *n,
                    _ => 0,
                };
                self.advance();
                return Ok(Pattern::Literal(Literal::Int(n), pattern_location));
            }
            let is_float = matches!(&self.tokens[self.current].token, Token::Float(_));
            if is_float {
                let x = match &self.tokens[self.current].token {
                    Token::Float(x) => x.clone(),
                    _ => String::new(),
                };
                self.advance();
                return Ok(Pattern::Literal(Literal::Float(x), pattern_location));
            }
            if self.check(&Token::True) {
                self.advance();
                return Ok(Pattern::Literal(Literal::Bool(true), pattern_location));
            }
            if self.check(&Token::False) {
                self.advance();
                return Ok(Pattern::Literal(Literal::Bool(false), pattern_location));
            }
            let is_str = matches!(&self.tokens[self.current].token, Token::StringLit(_));
            if is_str {
                let x = match &self.tokens[self.current].token {
                    Token::StringLit(x) => x.clone(),
                    _ => String::new(),
                };
                self.advance();
                return Ok(Pattern::Literal(Literal::String(x), pattern_location));
            }
            let is_ident = matches!(&self.tokens[self.current].token, Token::Ident(_));
            if is_ident {
                let name = match &self.tokens[self.current].token {
                    Token::Ident(n) => n.clone(),
                    _ => String::new(),
                };
                self.advance();
                if str_eq(name.as_str(), "_") {
                    return Ok(Pattern::Wildcard(pattern_location));
                }
                return Ok(Pattern::Variable(name, pattern_location));
            }
        }
        let token_str = self.peek_desc();
        let mut m = String::from_str("Unexpected token in pattern: ");
        m.append(token_str.as_str());
        let sg = String::from_str("Expected: literal, identifier, or wildcard (_)");
        let msg2 = m.clone();
        self.report_parse_error(m, Some(sg));
        Err(ParseError { message: msg2 })
    }

    /// Re-scans a string literal that holds `{name}` placeholders into the
    /// ordered literal and variable parts of an interpolation; concatenating
    /// the parts back (each variable as `{name}`) reproduces the literal.
    #[verifier::rlimit(100)]
    #[verifier::spinoff_prover]
    fn parse_string_interpolation(&mut self, s: &str, location: SourceLocation) -> (r: Result<Expression, ParseError>)
        requires
            old(self).wf(),
        ensures
            final(self).wf(),
            final(self).toks_v() == old(self).toks_v(),
            final(self).reporter_v() == old(self).reporter_v(),
            final(self).cur() == old(self).cur(),
            ({
                let m = p_interp(s@, location);
                match r {
                    Ok(v) => m matches PRes::Hit { v: mv, .. } && vexpr(v) == mv
                        && final(self).errs_v() == old(self).errs_v(),
                    Err(_) => m is Fail
                        && final(self).errs_v() == old(self).errs_v().push(m->Fail_0),
                }
            }),
    {
        proof {
            reveal(crate::parser_spec::p_interp);
            reveal(crate::parser_spec::pi_scan);
            reveal(crate::parser_spec::pi_var);
        }
        let chars = str_to_chars(s);
        let n = chars.len();
        let mut parts: Vec<StringInterpolationPart> = Vec::new();
        let mut current_literal: Vec<char> = Vec::new();
        let mut i: usize = 0;
        proof {
            assert(parts@.map_values(|p: StringInterpolationPart| vpart(p))
                =~= Seq::<InterpPartV>::empty());
        }
        while i < n
            invariant
                i <= n,
                n == chars@.len(),
                chars@ == s@,
                self.wf(),
                self == old(self),
                pi_scan(s@, i as int, parts@.map_values(|p: StringInterpolationPart| vpart(p)),
                    current_literal@, location) == p_interp(s@, location),
            decreases n - i,
        {
            proof {
                reveal(crate::parser_spec::pi_scan);
                reveal(crate::parser_spec::pi_var);
            }
            let ghost i0 = i as int;
            let ghost parts0 = parts@.map_values(|p: StringInterpolationPart| vpart(p));
            let ghost lit0 = current_literal@;
            let ch = chars[i];
            if ch == '{' {
                if current_literal.len() > 0 {
                    let lit = chars_to_string(&current_literal);
                    parts.push(StringInterpolationPart::Literal(lit));
                    current_literal = Vec::new();
                }
                let ghost parts1 = parts@.map_values(|p: StringInterpolationPart| vpart(p));
                proof {
                    if lit0.len() > 0 {
                        assert(parts1 =~= parts0.push(InterpPartV::Literal(lit0)));
                    }
                }
                let mut var_name: Vec<char> = Vec::new();
                let mut found_closing = false;
                i = i + 1;
                while i < n
                    invariant_except_break
                        i0 < i <= n,
                        !found_closing,
                        pi_var(s@, i as int, parts1, var_name@, location)
                            == p_interp(s@, location),
                    invariant
                        n == chars@.len(),
                        chars@ == s@,
                        self.wf(),
                        self == old(self),
                        parts1 == parts@.map_values(|p: StringInterpolationPart| vpart(p)),
                        current_literal@ == Seq::<char>::empty(),
                    ensures
                        i0 < i <= n,
                        found_closing ==> pi_scan(s@, i as int,
                            parts1.push(InterpPartV::Variable(var_name@)),
                            Seq::<char>::empty(), location) == p_interp(s@, location)
                            && var_name@.len() > 0,
                        !found_closing ==> i == n
                            && pi_var(s@, i as int, parts1, var_name@, location)
                                == p_interp(s@, location),
                    decreases n - i,
                {
                    proof {
                        reveal(crate::parser_spec::pi_scan);
                        reveal(crate::parser_spec::pi_var);
                    }
                    let next_ch = chars[i];
                    if next_ch == '}' {
                        if var_name.len() == 0 {
                            let m = String::from_str("Empty variable name in string interpolation");
                            let sg = String::from_str("Provide a variable name: \"text {variable_name}\"");
                            let msg2 = m.clone();
                            self.report_error(location, m, Some(sg));
                            return Err(ParseError { message: msg2 });
                        }
                        i = i + 1;
                        found_closing = true;
                        break;
                    } else if crate::text::is_word_char(next_ch) {
                        var_name.push(next_ch);
                        i = i + 1;
                    } else {
                        let mut m = String::from_str(
                            "Invalid character in string interpolation variable name: '");
                        crate::text::push_char(&mut m, next_ch);
                        m.append("'");
                        let msg2 = m.clone();
                        self.report_error(location, m, None);
                        return Err(ParseError { message: msg2 });
                    }
                }
                if !found_closing {
                    let m = String::from_str("Unclosed string interpolation brace");
                    let sg = String::from_str("Close the interpolation: \"text {variable}\"");
                    let msg2 = m.clone();
                    self.report_error(location, m, Some(sg));
                    return Err(ParseError { message: msg2 });
                }
                let vn = chars_to_string(&var_name);
                parts.push(StringInterpolationPart::Variable(vn));
                proof {
                    assert(parts@.map_values(|p: StringInterpolationPart| vpart(p))
                        =~= parts1.push(InterpPartV::Variable(var_name@)));
                }
            } else if ch == '}' {
                let m = String::from_str("Unmatched closing brace in string interpolation");
                let sg = String::from_str("Remove the extra '}' or add a matching '{'");
                let msg2 = m.clone();
                self.report_error(location, m, Some(sg));
                return Err(ParseError { message: msg2 });
            } else {
                current_literal.push(ch);
                i = i + 1;
            }
        }
        let ghost partsv = parts@.map_values(|p: StringInterpolationPart| vpart(p));
        if current_literal.len() > 0 {
            let lit = chars_to_string(&current_literal);
            parts.push(StringInterpolationPart::Literal(lit));
            proof {
                assert(parts@.map_values(|p: StringInterpolationPart| vpart(p))
                    =~= partsv.push(InterpPartV::Literal(current_literal@)));
            }
        }
        if parts.len() == 0 {
            return Ok(Expression::Literal(Literal::String(String::from_str(s)), location));
        }
        if parts.len() == 1 {
            proof {
                assert(parts@.map_values(|p: StringInterpolationPart| vpart(p))[0]
                    == vpart(parts@[0]));
            }
            let only_literal = matches!(&parts[0], StringInterpolationPart::Literal(_));
            if only_literal {
                let lit = match &parts[0] {
                    StringInterpolationPart::Literal(l) => l.clone(),
                    _ => String::new(),
                };
                return Ok(Expression::Literal(Literal::String(lit), location));
            }
        }
        proof {
            assert(parts@.map_values(|p: StringInterpolationPart| vpart(p)).len() == parts@.len());
            if parts@.len() == 1 {
                assert(parts@.map_values(|p: StringInterpolationPart| vpart(p))[0]
                    == vpart(parts@[0]));
            }
        }
        Ok(Expression::StringInterpolation { parts, location })
    }

    #[verifier::rlimit(100)]
    #[verifier::spinoff_prover]
    fn parse_expression(&mut self) -> (r: Result<Expression, ParseError>)
        requires
            old(self).wf(),
        ensures
            final(self).wf(),
            final(self).toks_v() == old(self).toks_v(),
            final(self).reporter_v() == old(self).reporter_v(),
            old(self).cur() <= final(self).cur() <= final(self).toks_v().len(),
            ({
                let m = ps_expression(old(self).toks_v(), old(self).cur());
                match r {
                    Ok(v) => m matches PRes::Hit { v: mv, pos } && vexpr(v) == mv
                        && final(self).cur() == pos && old(self).cur() < pos
                        && final(self).errs_v() == old(self).errs_v(),
                    Err(_) => m is Fail
                        && final(self).errs_v() == old(self).errs_v().push(m->Fail_0),
                }
            }),
        decreases self.toks_v().len() - self.cur(), 23nat,
    {
        proof {
            reveal(crate::parser_spec::p_expression);
        }
        self.parse_assignment()
    }

    #[verifier::rlimit(100)]
    #[verifier::spinoff_prover]
    fn parse_assignment(&mut self) -> (r: Result<Expression, ParseError>)
        requires
            old(self).wf(),
        ensures
            final(self).wf(),
            final(self).toks_v() == old(self).toks_v(),
            final(self).reporter_v() == old(self).reporter_v(),
            old(self).cur() <= final(self).cur() <= final(self).toks_v().len(),
            ({
                let m = ps_assignment(old(self).toks_v(), old(self).cur());
                match r {
                    Ok(v) => m matches PRes::Hit { v: mv, pos } && vexpr(v) == mv
                        && final(self).cur() == pos && old(self).cur() < pos
                        && final(self).errs_v() == old(self).errs_v(),
                    Err(_) => m is Fail
                        && final(self).errs_v() == old(self).errs_v().push(m->Fail_0),
                }
            }),
        decreases self.toks_v().len() - self.cur(), 22nat,
    {
        proof {
            reveal(crate::parser_spec::p_assignment);
        }
        self.parse_or()
    }

    #[verifier::rlimit(100)]
    #[verifier::spinoff_prover]
    fn parse_or(&mut self) -> (r: Result<Expression, ParseError>)
        requires
            old(self).wf(),
        ensures
            final(self).wf(),
            final(self).toks_v() == old(self).toks_v(),
            final(self).reporter_v() == old(self).reporter_v(),
            old(self).cur() <= final(self).cur() <= final(self).toks_v().len(),
            ({
                let m = p_or(old(self).toks_v(), old(self).cur());
                match r {
                    Ok(v) => m matches PRes::Hit { v: mv, pos } && vexpr(v) == mv
                        && final(self).cur() == pos && old(self).cur() < pos
                        && final(self).errs_v() == old(self).errs_v(),
                    Err(_) => m is Fail
                        && final(self).errs_v() == old(self).errs_v().push(m->Fail_0),
                }
            }),
        decreases self.toks_v().len() - self.cur(), 21nat,
    {
        proof {
            reveal(crate::parser_spec::p_or);
        }
        let e = match self.parse_and() {
            Ok(v) => v,
            Err(e) => {
                return Err(e);
            },
        };
        self.parse_or_rest(e)
    }

    #[verifier::rlimit(100)]
    #[verifier::spinoff_prover]
    fn parse_or_rest(&mut self, left: Expression) -> (r: Result<Expression, ParseError>)
        requires
            old(self).wf(),
        ensures
            final(self).wf(),
            final(self).toks_v() == old(self).toks_v(),
            final(self).reporter_v() == old(self).reporter_v(),
            old(self).cur() <= final(self).cur() <= final(self).toks_v().len(),
            ({
                let m = p_or_rest(old(self).toks_v(), old(self).cur(), vexpr(left));
                match r {
                    Ok(v) => m matches PRes::Hit { v: mv, pos } && vexpr(v) == mv
                        && final(self).cur() == pos
                        && final(self).errs_v() == old(self).errs_v(),
                    Err(_) => m is Fail
                        && final(self).errs_v() == old(self).errs_v().push(m->Fail_0),
                }
            }),
        decreases self.toks_v().len() - self.cur(), 20nat,
    {
        proof {
            reveal(crate::parser_spec::p_or_rest);
        }
        if self.check(&Token::OrOr) {
            let location = self.current_token_location();
            self.advance();
            let right = match self.parse_and() {
                Ok(v) => v,
                Err(e) => {
                    return Err(e);
                },
            };
            self.parse_or_rest(Expression::BinaryOp {
                op: BinaryOp::Or,
                left: Box::new(left),
                right: Box::new(right),
                location,
            })
        } else {
            Ok(left)
        }
    }

    #[verifier::rlimit(100)]
    #[verifier::spinoff_prover]
    fn parse_and(&mut self) -> (r: Result<Expression, ParseError>)
        requires
            old(self).wf(),
        ensures
            final(self).wf(),
            final(self).toks_v() == old(self).toks_v(),
            final(self).reporter_v() == old(self).reporter_v(),
            old(self).cur() <= final(self).cur() <= final(self).toks_v().len(),
            ({
                let m = p_and(old(self).toks_v(), old(self).cur());
                match r {
                    Ok(v) => m matches PRes::Hit { v: mv, pos } && vexpr(v) == mv
                        && final(self).cur() == pos && old(self).cur() < pos
                        && final(self).errs_v() == old(self).errs_v(),
                    Err(_) => m is Fail
                        && final(self).errs_v() == old(self).errs_v().push(m->Fail_0),
                }
            }),
        decreases self.toks_v().len() - self.cur(), 19nat,
    {
        proof {
            reveal(crate::parser_spec::p_and);
        }
        let e = match self.parse_equality() {
            Ok(v) => v,
            Err(e) => {
                return Err(e);
            },
        };
        self.parse_and_rest(e)
    }

    #[verifier::rlimit(100)]
    #[verifier::spinoff_prover]
    fn parse_and_rest(&mut self, left: Expression) -> (r: Result<Expression, ParseError>)
        requires
            old(self).wf(),
        ensures
            final(self).wf(),
            final(self).toks_v() == old(self).toks_v(),
            final(self).reporter_v() == old(self).reporter_v(),
            old(self).cur() <= final(self).cur() <= final(self).toks_v().len(),
            ({
                let m = p_and_rest(old(self).toks_v(), old(self).cur(), vexpr(left));
                match r {
                    Ok(v) => m matches PRes::Hit { v: mv, pos } && vexpr(v) == mv
                        && final(self).cur() == pos
                        && final(self).errs_v() == old(self).errs_v(),
                    Err(_) => m is Fail
                        && final(self).errs_v() == old(self).errs_v().push(m->Fail_0),
                }
            }),
        decreases self.toks_v().len() - self.cur(), 18nat,
    {
        proof {
            reveal(crate::parser_spec::p_and_rest);
        }
        if self.check(&Token::AndAnd) {
            let location = self.current_token_location();
            self.advance();
            let right = match self.parse_equality() {
                Ok(v) => v,
                Err(e) => {
                    return Err(e);
                },
            };
            self.parse_and_rest(Expression::BinaryOp {
                op: BinaryOp::And,
                left: Box::new(left),
                right: Box::new(right),
                location,
            })
        } else {
            Ok(left)
        }
    }

    #[verifier::rlimit(100)]
    #[verifier::spinoff_prover]
    fn parse_equality(&mut self) -> (r: Result<Expression, ParseError>)
        requires
            old(self).wf(),
        ensures
            final(self).wf(),
            final(self).toks_v() == old(self).toks_v(),
            final(self).reporter_v() == old(self).reporter_v(),
            old(self).cur() <= final(self).cur() <= final(self).toks_v().len(),
            ({
                let m = p_equality(old(self).toks_v(), old(self).cur());
                match r {
                    Ok(v) => m matches PRes::Hit { v: mv, pos } && vexpr(v) == mv
                        && final(self).cur() == pos && old(self).cur() < pos
                        && final(self).errs_v() == old(self).errs_v(),
                    Err(_) => m is Fail
                        && final(self).errs_v() == old(self).errs_v().push(m->Fail_0),
                }
            }),
        decreases self.toks_v().len() - self.cur(), 17nat,
    {
        proof {
            reveal(crate::parser_spec::p_equality);
        }
        let e = match self.parse_comparison() {
            Ok(v) => v,
            Err(e) => {
                return Err(e);
            },
        };
        self.parse_equality_rest(e)
    }

    #[verifier::rlimit(100)]
    #[verifier::spinoff_prover]
    fn parse_equality_rest(&mut self, left: Expression) -> (r: Result<Expression, ParseError>)
        requires
            old(self).wf(),
        ensures
            final(self).wf(),
            final(self).toks_v() == old(self).toks_v(),
            final(self).reporter_v() == old(self).reporter_v(),
            old(self).cur() <= final(self).cur() <= final(self).toks_v().len(),
            ({
                let m = p_equality_rest(old(self).toks_v(), old(self).cur(), vexpr(left));
                match r {
                    Ok(v) => m matches PRes::Hit { v: mv, pos } && vexpr(v) == mv
                        && final(self).cur() == pos
                        && final(self).errs_v() == old(self).errs_v(),
                    Err(_) => m is Fail
                        && final(self).errs_v() == old(self).errs_v().push(m->Fail_0),
                }
            }),
        decreases self.toks_v().len() - self.cur(), 16nat,
    {
        proof {
            reveal(crate::parser_spec::p_equality_rest);
        }
        if self.check(&Token::EqEq) || self.check(&Token::Ne) {
            let location = self.current_token_location();
            let op = if self.check(&Token::EqEq) {
                self.advance();
                BinaryOp::Eq
            } else {
                self.advance();
                BinaryOp::Ne
            };
            let right = match self.parse_comparison() {
                Ok(v) => v,
                Err(e) => {
                    return Err(e);
                },
            };
            self.parse_equality_rest(Expression::BinaryOp {
                op,
                left: Box::new(left),
                right: Box::new(right),
                location,
            })
        } else {
            Ok(left)
        }
    }

    #[verifier::rlimit(100)]
    #[verifier::spinoff_prover]
    fn parse_comparison(&mut self) -> (r: Result<Expression, ParseError>)
        requires
            old(self).wf(),
        ensures
            final(self).wf(),
            final(self).toks_v() == old(self).toks_v(),
            final(self).reporter_v() == old(self).reporter_v(),
            old(self).cur() <= final(self).cur() <= final(self).toks_v().len(),
            ({
                let m = p_comparison(old(self).toks_v(), old(self).cur());
                match r {
                    Ok(v) => m matches PRes::Hit { v: mv, pos } && vexpr(v) == mv
                        && final(self).cur() == pos && old(self).cur() < pos
                        && final(self).errs_v() == old(self).errs_v(),
                    Err(_) => m is Fail
                        && final(self).errs_v() == old(self).errs_v().push(m->Fail_0),
                }
            }),
        decreases self.toks_v().len() - self.cur(), 15nat,
    {
        proof {
            reveal(crate::parser_spec::p_comparison);
        }
        let e = match self.parse_term() {
            Ok(v) => v,
            Err(e) => {
                return Err(e);
            },
        };
        self.parse_comparison_rest(e)
    }

    #[verifier::rlimit(100)]
    #[verifier::spinoff_prover]
    fn parse_comparison_rest(&mut self, left: Expression) -> (r: Result<Expression, ParseError>)
        requires
            old(self).wf(),
        ensures
            final(self).wf(),
            final(self).toks_v() == old(self).toks_v(),
            final(self).reporter_v() == old(self).reporter_v(),
            old(self).cur() <= final(self).cur() <= final(self).toks_v().len(),
            ({
                let m = p_comparison_rest(old(self).toks_v(), old(self).cur(), vexpr(left));
                match r {
                    Ok(v) => m matches PRes::Hit { v: mv, pos } && vexpr(v) == mv
                        && final(self).cur() == pos
                        && final(self).errs_v() == old(self).errs_v(),
                    Err(_) => m is Fail
                        && final(self).errs_v() == old(self).errs_v().push(m->Fail_0),
                }
            }),
        decreases self.toks_v().len() - self.cur(), 14nat,
    {
        proof {
            reveal(crate::parser_spec::p_comparison_rest);
        }
        if self.check(&Token::Lt) || self.check(&Token::Le) || self.check(&Token::Gt)
            || self.check(&Token::Ge) {
            let location = self.current_token_location();
            let op = if self.check(&Token::Lt) {
                self.advance();
                BinaryOp::Lt
            } else if self.check(&Token::Le) {
                self.advance();
                BinaryOp::Le
            } else if self.check(&Token::Gt) {
                self.advance();
                BinaryOp::Gt
            } else {
                self.advance();
                BinaryOp::Ge
            };
            let right = match self.parse_term() {
                Ok(v) => v,
                Err(e) => {
                    return Err(e);
                },
            };
            self.parse_comparison_rest(Expression::BinaryOp {
                op,
                left: Box::new(left),
                right: Box::new(right),
                location,
            })
        } else {
            Ok(left)
        }
    }

    #[verifier::rlimit(100)]
    #[verifier::spinoff_prover]
    fn parse_term(&mut self) -> (r: Result<Expression, ParseError>)
        requires
            old(self).wf(),
        ensures
            final(self).wf(),
            final(self).toks_v() == old(self).toks_v(),
            final(self).reporter_v() == old(self).reporter_v(),
            old(self).cur() <= final(self).cur() <= final(self).toks_v().len(),
            ({
                let m = p_term(old(self).toks_v(), old(self).cur());
                match r {
                    Ok(v) => m matches PRes::Hit { v: mv, pos } && vexpr(v) == mv
                        && final(self).cur() == pos && old(self).cur() < pos
                        && final(self).errs_v() == old(self).errs_v(),
                    Err(_) => m is Fail
                        && final(self).errs_v() == old(self).errs_v().push(m->Fail_0),
                }
            }),
        decreases self.toks_v().len() - self.cur(), 13nat,
    {
        proof {
            reveal(crate::parser_spec::p_term);
        }
        let e = match self.parse_factor() {
            Ok(v) => v,
            Err(e) => {
                return Err(e);
            },
        };
        self.parse_term_rest(e)
    }

    #[verifier::rlimit(100)]
    #[verifier::spinoff_prover]
    fn parse_term_rest(&mut self, left: Expression) -> (r: Result<Expression, ParseError>)
        requires
            old(self).wf(),
        ensures
            final(self).wf(),
            final(self).toks_v() == old(self).toks_v(),
            final(self).reporter_v() == old(self).reporter_v(),
            old(self).cur() <= final(self).cur() <= final(self).toks_v().len(),
            ({
                let m = p_term_rest(old(self).toks_v(), old(self).cur(), vexpr(left));
                match r {
                    Ok(v) => m matches PRes::Hit { v: mv, pos } && vexpr(v) == mv
                        && final(self).cur() == pos
                        && final(self).errs_v() == old(self).errs_v(),
                    Err(_) => m is Fail
                        && final(self).errs_v() == old(self).errs_v().push(m->Fail_0),
                }
            }),
        decreases self.toks_v().len() - self.cur(), 12nat,
    {
        proof {
            reveal(crate::parser_spec::p_term_rest);
        }
        if self.check(&Token::Plus) || self.check(&Token::Minus) {
            let location = self.current_token_location();
            let op = if self.check(&Token::Plus) {
                self.advance();
                BinaryOp::Add
            } else {
                self.advance();
                BinaryOp::Sub
            };
            let right = match self.parse_factor() {
                Ok(v) => v,
                Err(e) => {
                    return Err(e);
                },
            };
            self.parse_term_rest(Expression::BinaryOp {
                op,
                left: Box::new(left),
                right: Box::new(right),
                location,
            })
        } else {
            Ok(left)
        }
    }

    #[verifier::rlimit(100)]
    #[verifier::spinoff_prover]
    fn parse_factor(&mut self) -> (r: Result<Expression, ParseError>)
        requires
            old(self).wf(),
        ensures
            final(self).wf(),
            final(self).toks_v() == old(self).toks_v(),
            final(self).reporter_v() == old(self).reporter_v(),
            old(self).cur() <= final(self).cur() <= final(self).toks_v().len(),
            ({
                let m = p_factor(old(self).toks_v(), old(self).cur());
                match r {
                    Ok(v) => m matches PRes::Hit { v: mv, pos } && vexpr(v) == mv
                        && final(self).cur() == pos && old(self).cur() < pos
                        && final(self).errs_v() == old(self).errs_v(),
                    Err(_) => m is Fail
                        && final(self).errs_v() == old(self).errs_v().push(m->Fail_0),
                }
            }),
        decreases self.toks_v().len() - self.cur(), 11nat,
    {
        proof {
            reveal(crate::parser_spec::p_factor);
        }
        let e = match self.parse_unary() {
            Ok(v) => v,
            Err(e) => {
                return Err(e);
            },
        };
        self.parse_factor_rest(e)
    }

    #[verifier::rlimit(100)]
    #[verifier::spinoff_prover]
    fn parse_factor_rest(&mut self, left: Expression) -> (r: Result<Expression, ParseError>)
        requires
            old(self).wf(),
        ensures
            final(self).wf(),
            final(self).toks_v() == old(self).toks_v(),
            final(self).reporter_v() == old(self).reporter_v(),
            old(self).cur() <= final(self).cur() <= final(self).toks_v().len(),
            ({
                let m = p_factor_rest(old(self).toks_v(), old(self).cur(), vexpr(left));
                match r {
                    Ok(v) => m matches PRes::Hit { v: mv, pos } && vexpr(v) == mv
                        && final(self).cur() == pos
                        && final(self).errs_v() == old(self).errs_v(),
                    Err(_) => m is Fail
                        && final(self).errs_v() == old(self).errs_v().push(m->Fail_0),
                }
            }),
        decreases self.toks_v().len() - self.cur(), 10nat,
    {
        proof {
            reveal(crate::parser_spec::p_factor_rest);
        }
        if self.check(&Token::Star) || self.check(&Token::Slash) || self.check(&Token::Percent) {
            let location = self.current_token_location();
            let op = if self.check(&Token::Star) {
                self.advance();
                BinaryOp::Mul
            } else if self.check(&Token::Slash) {
                self.advance();
                BinaryOp::Div
            } else {
                self.advance();
                BinaryOp::Mod
            };
            let right = match self.parse_unary() {
                Ok(v) => v,
                Err(e) => {
                    return Err(e);
                },
            };
            self.parse_factor_rest(Expression::BinaryOp {
                op,
                left: Box::new(left),
                right: Box::new(right),
                location,
            })
        } else {
            Ok(left)
        }
    }

    #[verifier::rlimit(100)]
    #[verifier::spinoff_prover]
    fn parse_unary(&mut self) -> (r: Result<Expression, ParseError>)
        requires
            old(self).wf(),
        ensures
            final(self).wf(),
            final(self).toks_v() == old(self).toks_v(),
            final(self).reporter_v() == old(self).reporter_v(),
            old(self).cur() <= final(self).cur() <= final(self).toks_v().len(),
            ({
                let m = ps_unary(old(self).toks_v(), old(self).cur());
                match r {
                    Ok(v) => m matches PRes::Hit { v: mv, pos } && vexpr(v) == mv
                        && final(self).cur() == pos && old(self).cur() < pos
                        && final(self).errs_v() == old(self).errs_v(),
                    Err(_) => m is Fail
                        && final(self).errs_v() == old(self).errs_v().push(m->Fail_0),
                }
            }),
        decreases self.toks_v().len() - self.cur(), 9nat,
    {
        proof {
            reveal(crate::parser_spec::p_unary);
        }
        if self.check(&Token::Bang) {
            let location = self.current_token_location();
            self.advance();
            let expr = match self.parse_unary() {
                Ok(v) => v,
                Err(e) => {
                    return Err(e);
                },
            };
            return Ok(Expression::UnaryOp { op: UnaryOp::Not, expr: Box::new(expr), location });
        }
        if self.check(&Token::Minus) {
            let location = self.current_token_location();
            self.advance();
            let expr = match self.parse_unary() {
                Ok(v) => v,
                Err(e) => {
                    return Err(e);
                },
            };
            return Ok(Expression::UnaryOp { op: UnaryOp::Neg, expr: Box::new(expr), location });
        }
        self.parse_call()
    }

    #[verifier::rlimit(100)]
    #[verifier::spinoff_prover]
    fn parse_call(&mut self) -> (r: Result<Expression, ParseError>)
        requires
            old(self).wf(),
        ensures
            final(self).wf(),
            final(self).toks_v() == old(self).toks_v(),
            final(self).reporter_v() == old(self).reporter_v(),
            old(self).cur() <= final(self).cur() <= final(self).toks_v().len(),
            ({
                let m = ps_call(old(self).toks_v(), old(self).cur());
                match r {
                    Ok(v) => m matches PRes::Hit { v: mv, pos } && vexpr(v) == mv
                        && final(self).cur() == pos && old(self).cur() < pos
                        && final(self).errs_v() == old(self).errs_v(),
                    Err(_) => m is Fail
                        && final(self).errs_v() == old(self).errs_v().push(m->Fail_0),
                }
            }),
        decreases self.toks_v().len() - self.cur(), 8nat,
    {
        proof {
            reveal(crate::parser_spec::p_call);
        }
        let e = match self.parse_primary() {
            Ok(v) => v,
            Err(e) => {
                return Err(e);
            },
        };
        self.parse_postfix(e)
    }

    /// The comma-separated expressions of a call's arguments or an array
    /// literal's elements.
    #[verifier::rlimit(100)]
    #[verifier::spinoff_prover]
    fn parse_args(&mut self) -> (r: Result<Vec<Expression>, ParseError>)
        requires
            old(self).wf(),
        ensures
            final(self).wf(),
            final(self).toks_v() == old(self).toks_v(),
            final(self).reporter_v() == old(self).reporter_v(),
            old(self).cur() <= final(self).cur() <= final(self).toks_v().len(),
            ({
                let m = p_args(old(self).toks_v(), old(self).cur());
                match r {
                    Ok(v) => m matches PRes::Hit { v: mv, pos }
                        && v@.map_values(|e: Expression| vexpr(e)) == mv
                        && final(self).cur() == pos && old(self).cur() < pos
                        && final(self).errs_v() == old(self).errs_v(),
                    Err(_) => m is Fail
                        && final(self).errs_v() == old(self).errs_v().push(m->Fail_0),
                }
            }),
        decreases self.toks_v().len() - self.cur(), 24nat,
    {
        proof {
            reveal(crate::parser_spec::p_args);
        }
        let ghost toksv = self.toks_v();
        let ghost start = self.cur();
        let mut out: Vec<Expression> = Vec::new();
        proof {
            assert(out@.map_values(|e: Expression| vexpr(e)) =~= Seq::<ExprV>::empty());
        }
        loop
            invariant_except_break
                self.wf(),
                self.toks_v() == toksv,
                toksv == old(self).toks_v(),
                self.reporter_v() == old(self).reporter_v(),
                self.errs_v() == old(self).errs_v(),
                start == old(self).cur(),
                start <= self.cur() <= toksv.len(),
                (match p_args(toksv, self.cur()) {
                    PRes::Hit { v: es, pos: p } => p_args(toksv, start) matches PRes::Hit { v: all, pos: pe }
                        && all == out@.map_values(|e: Expression| vexpr(e)) + es && pe == p,
                    PRes::Fail(d) => p_args(toksv, start) == PRes::<Seq<ExprV>>::Fail(d),
                }),
            ensures
                self.wf(),
                self.toks_v() == toksv,
                self.reporter_v() == old(self).reporter_v(),
                self.errs_v() == old(self).errs_v(),
                start < self.cur() <= toksv.len(),
                p_args(toksv, start) matches PRes::Hit { v: all, pos: pe }
                    && all == out@.map_values(|e: Expression| vexpr(e)) && pe == self.cur(),
            decreases toksv.len() - self.cur(),
        {
            proof {
                reveal(crate::parser_spec::p_args);
                reveal(crate::parser_spec::p_expression);
                reveal(crate::parser_spec::p_assignment);
                reveal(crate::parser_spec::p_or);
                reveal(crate::parser_spec::p_and);
                reveal(crate::parser_spec::p_equality);
                reveal(crate::parser_spec::p_comparison);
                reveal(crate::parser_spec::p_term);
                reveal(crate::parser_spec::p_factor);
                reveal(crate::parser_spec::p_unary);
                reveal(crate::parser_spec::p_call);
                reveal(crate::parser_spec::p_primary);
            }
            let ghost c0 = self.cur();
            let ghost prev = out@.map_values(|e: Expression| vexpr(e));
            let e = match self.parse_expression() {
                Ok(v) => v,
                Err(er) => {
                    return Err(er);
                },
            };
            out.push(e);
            proof {
                assert(out@.map_values(|e2: Expression| vexpr(e2))
                    =~= prev.push(vexpr(out@.last())));
            }
            if !self.check(&Token::Comma) {
                proof {
                    assert(p_args(toksv, c0) == PRes::<Seq<ExprV>>::Hit {
                        v: seq![vexpr(out@.last())],
                        pos: self.cur(),
                    });
                    assert(prev.push(vexpr(out@.last()))
                        =~= prev + seq![vexpr(out@.last())]);
                }
                break;
            }
            self.advance();
            proof {
                assert(padv(self.cur(), c0, toksv.len() as int) == self.cur());
                if p_args(toksv, self.cur()) is Hit {
                    let es = p_args(toksv, self.cur())->Hit_v;
                    assert(p_args(toksv, c0) == PRes::<Seq<ExprV>>::Hit {
                        v: seq![vexpr(out@.last())] + es,
                        pos: p_args(toksv, self.cur())->Hit_pos,
                    });
                    assert(prev + (seq![vexpr(out@.last())] + es)
                        =~= prev.push(vexpr(out@.last())) + es);
                }
            }
        }
        Ok(out)
    }

    /// The postfix chain after a primary expression: calls (with the
    /// `Vec2`/`Vec3`/`Vec4` constructor desugaring into struct literals),
    /// member accesses, and index operations.
    #[verifier::rlimit(100)]
    #[verifier::spinoff_prover]
    fn parse_postfix(&mut self, e: Expression) -> (r: Result<Expression, ParseError>)
        requires
            old(self).wf(),
        ensures
            final(self).wf(),
            final(self).toks_v() == old(self).toks_v(),
            final(self).reporter_v() == old(self).reporter_v(),
            old(self).cur() <= final(self).cur() <= final(self).toks_v().len(),
            ({
                let m = p_postfix(old(self).toks_v(), old(self).cur(), vexpr(e));
                match r {
                    Ok(v) => m matches PRes::Hit { v: mv, pos } && vexpr(v) == mv
                        && final(self).cur() == pos
                        && final(self).errs_v() == old(self).errs_v(),
                    Err(_) => m is Fail
                        && final(self).errs_v() == old(self).errs_v().push(m->Fail_0),
                }
            }),
        decreases self.toks_v().len() - self.cur(), 7nat,
    {
        proof {
            reveal(crate::parser_spec::p_postfix);
        }
        if self.check(&Token::LParen) {
            self.advance();
            let args: Vec<Expression> = if self.check(&Token::RParen) {
                let empty_args: Vec<Expression> = Vec::new();
                proof {
                    assert(empty_args@.map_values(|e2: Expression| vexpr(e2))
                        =~= Seq::<ExprV>::empty());
                }
                empty_args
            } else {
                match self.parse_args() {
                    Ok(v) => v,
                    Err(er) => {
                        return Err(er);
                    },
                }
            };
            match self.expect(&Token::RParen) {
                Ok(_) => {},
                Err(er) => {
                    return Err(er);
                },
            }
            let call_location = self.current_token_location();
            proof {
                crate::ast::lemma_vexpr_is_variable(e);
            }
            let is_var = matches!(e, Expression::Variable(_, _));
            if is_var {
                let name = match e {
                    Expression::Variable(n, _) => n,
                    _ => String::new(),
                };
                if str_eq(name.as_str(), "Vec2") {
                    if args.len() != 2 {
                        let cnt = crate::text::usize_dec(args.len());
                        let mut m = String::from_str("Vec2");
                        m.append(" constructor expects ");
                        m.append("2");
                        m.append(" arguments, got ");
                        m.append(cnt.as_str());
                        let sg = String::from_str("Use: Vec2(x, y)");
                        let msg2 = String::from_str("Vec2 constructor expects 2 arguments");
                        self.report_error(call_location, m, Some(sg));
                        return Err(ParseError { message: msg2 });
                    }
                    let mut args2 = args;
                    let a_y = args2.pop().unwrap();
                    let a_x = args2.pop().unwrap();
                    let mut fields: Vec<(String, Expression)> = Vec::new();
                    fields.push((String::from_str("x"), a_x));
                    fields.push((String::from_str("y"), a_y));
                    let node = Expression::StructLiteral {
                        name: String::from_str("Vec2"),
                        fields,
                        location: call_location,
                    };
                    proof {
                        crate::ast::lemma_vfieldinit_vec(node->StructLiteral_fields, 0);
                        assert(vexpr(node)->StructLiteral_fields
                            =~= Seq::new(2, |i: int| (seq!["x"@, "y"@][i],
                                args@.map_values(|e2: Expression| vexpr(e2))[i])));
                    }
                    return self.parse_postfix(node);
                }
                if str_eq(name.as_str(), "Vec3") {
                    if args.len() != 3 {
                        let cnt = crate::text::usize_dec(args.len());
                        let mut m = String::from_str("Vec3");
                        m.append(" constructor expects ");
                        m.append("3");
                        m.append(" arguments, got ");
                        m.append(cnt.as_str());
                        let sg = String::from_str("Use: Vec3(x, y, z)");
                        let msg2 = String::from_str("Vec3 constructor expects 3 arguments");
                        self.report_error(call_location, m, Some(sg));
                        return Err(ParseError { message: msg2 });
                    }
                    let mut args2 = args;
                    let a_z = args2.pop().unwrap();
                    let a_y = args2.pop().unwrap();
                    let a_x = args2.pop().unwrap();
                    let mut fields: Vec<(String, Expression)> = Vec::new();
                    fields.push((String::from_str("x"), a_x));
                    fields.push((String::from_str("y"), a_y));
                    fields.push((String::from_str("z"), a_z));
                    let node = Expression::StructLiteral {
                        name: String::from_str("Vec3"),
                        fields,
                        location: call_location,
                    };
                    proof {
                        crate::ast::lemma_vfieldinit_vec(node->StructLiteral_fields, 0);
                        assert(vexpr(node)->StructLiteral_fields
                            =~= Seq::new(3, |i: int| (seq!["x"@, "y"@, "z"@][i],
                                args@.map_values(|e2: Expression| vexpr(e2))[i])));
                    }
                    return self.parse_postfix(node);
                }
                if str_eq(name.as_str(), "Vec4") {
                    if args.len() != 4 {
                        let cnt = crate::text::usize_dec(args.len());
                        let mut m = String::from_str("Vec4");
                        m.append(" constructor expects ");
                        m.append("4");
                        m.append(" arguments, got ");
                        m.append(cnt.as_str());
                        let sg = String::from_str("Use: Vec4(x, y, z, w)");
                        let msg2 = String::from_str("Vec4 constructor expects 4 arguments");
                        self.report_error(call_location, m, Some(sg));
                        return Err(ParseError { message: msg2 });
                    }
                    let mut args2 = args;
                    let a_w = args2.pop().unwrap();
                    let a_z = args2.pop().unwrap();
                    let a_y = args2.pop().unwrap();
                    let a_x = args2.pop().unwrap();
                    let mut fields: Vec<(String, Expression)> = Vec::new();
                    fields.push((String::from_str("x"), a_x));
                    fields.push((String::from_str("y"), a_y));
                    fields.push((String::from_str("z"), a_z));
                    fields.push((String::from_str("w"), a_w));
                    let node = Expression::StructLiteral {
                        name: String::from_str("Vec4"),
                        fields,
                        location: call_location,
                    };
                    proof {
                        crate::ast::lemma_vfieldinit_vec(node->StructLiteral_fields, 0);
                        assert(vexpr(node)->StructLiteral_fields
                            =~= Seq::new(4, |i: int| (seq!["x"@, "y"@, "z"@, "w"@][i],
                                args@.map_values(|e2: Expression| vexpr(e2))[i])));
                    }
                    return self.parse_postfix(node);
                }
                let node = Expression::Call { name, args, location: call_location };
                proof {
                    crate::ast::lemma_vexpr_vec(node->Call_args, 0);
                    assert(vexpr(node)->Call_args
                        =~= node->Call_args@.map_values(|e2: Expression| vexpr(e2)));
                }
                return self.parse_postfix(node);
            }
            let m = String::from_str("Expected function name");
            let sg = String::from_str("Use an identifier for the function name: function_name(...)");
            let msg2 = m.clone();
            self.report_error(call_location, m, Some(sg));
            Err(ParseError { message: msg2 })
        } else if self.check(&Token::Dot) {
            let dot_location = self.current_token_location();
            self.advance();
            let member = match self.expect_ident() {
                Ok(n) => n,
                Err(er) => {
                    return Err(er);
                },
            };
            self.parse_postfix(Expression::MemberAccess {
                object: Box::new(e),
                member,
                location: dot_location,
            })
        } else if self.check(&Token::LBracket) {
            let bracket_location = self.current_token_location();
            self.advance();
            let index = match self.parse_expression() {
                Ok(v) => v,
                Err(er) => {
                    return Err(er);
                },
            };
            match self.expect(&Token::RBracket) {
                Ok(_) => {},
                Err(er) => {
                    return Err(er);
                },
            }
            self.parse_postfix(Expression::Index {
                array: Box::new(e),
                index: Box::new(index),
                location: bracket_location,
            })
        } else {
            Ok(e)
        }
    }

    /// A primary expression: a literal, a variable reference, a constructor
    /// name, a parenthesized expression, an array literal, or a match; a
    /// string literal holding both braces is re-scanned as an interpolation,
    /// and one without stays a plain literal.
    #[verifier::rlimit(100)]
    #[verifier::spinoff_prover]
    fn parse_primary(&mut self) -> (r: Result<Expression, ParseError>)
        requires
            old(self).wf(),
        ensures
            final(self).wf(),
            final(self).toks_v() == old(self).toks_v(),
            final(self).reporter_v() == old(self).reporter_v(),
            old(self).cur() <= final(self).cur() <= final(self).toks_v().len(),
            ({
                let m = ps_primary(old(self).toks_v(), old(self).cur());
                match r {
                    Ok(v) => m matches PRes::Hit { v: mv, pos } && vexpr(v) == mv
                        && final(self).cur() == pos && old(self).cur() < pos
                        && final(self).errs_v() == old(self).errs_v(),
                    Err(_) => m is Fail
                        && final(self).errs_v() == old(self).errs_v().push(m->Fail_0),
                }
            }),
        decreases self.toks_v().len() - self.cur(), 6nat,
    {
        proof {
            reveal(crate::parser_spec::p_primary);
        }
        let location = self.current_token_location();
        if self.is_at_end() {
            let token_str = self.peek_desc();
            let mut m = String::from_str("Unexpected token in expression: ");
            m.append(token_str.as_str());
            let sg = String::from_str("Expected: literal, identifier, or expression");
            let msg2 = m.clone();
            self.report_error(location, m, Some(sg));
            return Err(ParseError { message: msg2 });
        }
        proof {
            lemma_vtok_shape(self.tokens@[self.current as int].token);
        }
        let is_int = matches!(&self.tokens[self.current].token, Token::Int(_));
        if is_int {
            let n = match &self.tokens[self.current].token {
                Token::Int(n) => *n,
                _ => 0,
            };
            self.advance();
            return Ok(Expression::Literal(Literal::Int(n), location));
        }
        let is_float = matches!(&self.tokens[self.current].token, Token::Float(_));
        if is_float {
            let x = match &self.tokens[self.current].token {
                Token::Float(x) => x.clone(),
                _ => String::new(),
            };
            self.advance();
            return Ok(Expression::Literal(Literal::Float(x), location));
        }
        if self.check(&Token::True) {
            self.advance();
            return Ok(Expression::Literal(Literal::Bool(true), location));
        }
        if self.check(&Token::False) {
            self.advance();
            return Ok(Expression::Literal(Literal::Bool(false), location));
        }
        if self.check(&Token::Null) {
            let m = String::from_str("Null literal not yet fully supported - use Optional types");
            let msg2 = m.clone();
            self.report_error(location, m, None);
            return Err(ParseError { message: msg2 });
        }
        let is_str = matches!(&self.tokens[self.current].token, Token::StringLit(_));
        if is_str {
            let sld = match &self.tokens[self.current].token {
                Token::StringLit(x) => x.clone(),
                _ => String::new(),
            };
            self.advance();
            let chars = str_to_chars(sld.as_str());
            let mut has_open = false;
            let mut has_close = false;
            let mut ci: usize = 0;
            while ci < chars.len()
                invariant
                    ci <= chars@.len(),
                    has_open == (exists|q: int| 0 <= q < ci && chars@[q] == '{'),
                    has_close == (exists|q: int| 0 <= q < ci && chars@[q] == '}'),
                decreases chars@.len() - ci,
            {
                if chars[ci] == '{' {
                    has_open = true;
                }
                if chars[ci] == '}' {
                    has_close = true;
                }
                ci = ci + 1;
            }
            if has_open && has_close {
                match self.parse_string_interpolation(&sld, location) {
                    Ok(v) => {
                        return Ok(v);
                    },
                    Err(er) => {
                        return Err(er);
                    },
                }
            }
            return Ok(Expression::Literal(Literal::String(sld), location));
        }
        let is_ident = matches!(&self.tokens[self.current].token, Token::Ident(_));
        if is_ident {
            let name = match &self.tokens[self.current].token {
                Token::Ident(n) => n.clone(),
                _ => String::new(),
            };
            self.advance();
            return Ok(Expression::Variable(name, location));
        }
        if self.check(&Token::Vec2) {
            self.advance();
            return Ok(Expression::Variable(String::from_str("Vec2"), location));
        }
        if self.check(&Token::Vec3) {
            self.advance();
            return Ok(Expression::Variable(String::from_str("Vec3"), location));
        }
        if self.check(&Token::Vec4) {
            self.advance();
            return Ok(Expression::Variable(String::from_str("Vec4"), location));
        }
        if self.check(&Token::Mat4) {
            self.advance();
            return Ok(Expression::Variable(String::from_str("Mat4"), location));
        }
        if self.check(&Token::LParen) {
            self.advance();
            let expr = match self.parse_expression() {
                Ok(v) => v,
                Err(er) => {
                    return Err(er);
                },
            };
            match self.expect(&Token::RParen) {
                Ok(_) => {},
                Err(er) => {
                    return Err(er);
                },
            }
            return Ok(expr);
        }
        if self.check(&Token::LBracket) {
            self.advance();
            let elements: Vec<Expression> = if self.check(&Token::RBracket) {
                let empty_elems: Vec<Expression> = Vec::new();
                proof {
                    assert(empty_elems@.map_values(|e2: Expression| vexpr(e2))
                        =~= Seq::<ExprV>::empty());
                }
                empty_elems
            } else {
                match self.parse_args() {
                    Ok(v) => v,
                    Err(er) => {
                        return Err(er);
                    },
                }
            };
            match self.expect(&Token::RBracket) {
                Ok(_) => {},
                Err(er) => {
                    return Err(er);
                },
            }
            let node = Expression::ArrayLiteral { elements, location };
            proof {
                crate::ast::lemma_vexpr_vec(node->ArrayLiteral_elements, 0);
                assert(vexpr(node)->ArrayLiteral_elements
                    =~= node->ArrayLiteral_elements@.map_values(|e2: Expression| vexpr(e2)));
            }
            return Ok(node);
        }
        if self.check(&Token::Match) {
            return self.parse_match_expression();
        }
        let token_str = self.peek_desc();
        let mut m = String::from_str("Unexpected token in expression: ");
        m.append(token_str.as_str());
        let sg = String::from_str("Expected: literal, identifier, or expression");
        let msg2 = m.clone();
        self.report_error(location, m, Some(sg));
        Err(ParseError { message: msg2 })
    }

    #[verifier::rlimit(100)]
    #[verifier::spinoff_prover]
    fn parse_match_expression(&mut self) -> (r: Result<Expression, ParseError>)
        requires
            old(self).wf(),
            old(self).cur() < old(self).toks_v().len(),
        ensures
            final(self).wf(),
            final(self).toks_v() == old(self).toks_v(),
            final(self).reporter_v() == old(self).reporter_v(),
            old(self).cur() <= final(self).cur() <= final(self).toks_v().len(),
            ({
                let m = ps_match(old(self).toks_v(), old(self).cur());
                match r {
                    Ok(v) => m matches PRes::Hit { v: mv, pos } && vexpr(v) == mv
                        && final(self).cur() == pos && old(self).cur() < pos
                        && final(self).errs_v() == old(self).errs_v(),
                    Err(_) => m is Fail
                        && final(self).errs_v() == old(self).errs_v().push(m->Fail_0),
                }
            }),
        decreases self.toks_v().len() - self.cur(), 5nat,
    {
        proof {
            reveal(crate::parser_spec::p_match);
        }
        let match_location = self.current_token_location();
        self.advance();
        let expr = match self.parse_expression() {
            Ok(v) => v,
            Err(er) => {
                return Err(er);
            },
        };
        match self.expect(&Token::LBrace) {
            Ok(_) => {},
            Err(er) => {
                return Err(er);
            },
        }
        let arms = match self.parse_arms() {
            Ok(v) => v,
            Err(er) => {
                return Err(er);
            },
        };
        match self.expect(&Token::RBrace) {
            Ok(_) => {},
            Err(er) => {
                return Err(er);
            },
        }
        let node = Expression::Match { expr: Box::new(expr), arms, location: match_location };
        proof {
            crate::ast::lemma_varm_vec(node->Match_arms, 0);
            assert(vexpr(node)->Match_arms
                =~= node->Match_arms@.map_values(|a: MatchArm| crate::ast::varm(a)));
        }
        Ok(node)
    }

    /// The arms of a match body, each `pattern => { block }`, with an
    /// optional comma between arms.
    #[verifier::rlimit(100)]
    #[verifier::spinoff_prover]
    fn parse_arms(&mut self) -> (r: Result<Vec<MatchArm>, ParseError>)
        requires
            old(self).wf(),
        ensures
            final(self).wf(),
            final(self).toks_v() == old(self).toks_v(),
            final(self).reporter_v() == old(self).reporter_v(),
            old(self).cur() <= final(self).cur() <= final(self).toks_v().len(),
            ({
                let m = p_arms(old(self).toks_v(), old(self).cur());
                match r {
                    Ok(v) => m matches PRes::Hit { v: mv, pos }
                        && v@.map_values(|a: MatchArm| crate::ast::varm(a)) == mv
                        && final(self).cur() == pos
                        && final(self).errs_v() == old(self).errs_v(),
                    Err(_) => m is Fail
                        && final(self).errs_v() == old(self).errs_v().push(m->Fail_0),
                }
            }),
        decreases self.toks_v().len() - self.cur(), 33nat,
    {
        proof {
            reveal(crate::parser_spec::p_arms);
        }
        let ghost toksv = self.toks_v();
        let ghost start = self.cur();
        let mut out: Vec<MatchArm> = Vec::new();
        proof {
            assert(out@.map_values(|a: MatchArm| crate::ast::varm(a)) =~= Seq::<MatchArmV>::empty());
        }
        loop
            invariant_except_break
                self.wf(),
                self.toks_v() == toksv,
                toksv == old(self).toks_v(),
                self.reporter_v() == old(self).reporter_v(),
                self.errs_v() == old(self).errs_v(),
                start == old(self).cur(),
                start <= self.cur() <= toksv.len(),
                (match p_arms(toksv, self.cur()) {
                    PRes::Hit { v: es, pos: p } => p_arms(toksv, start) matches PRes::Hit { v: all, pos: pe }
                        && all == out@.map_values(|a: MatchArm| crate::ast::varm(a)) + es && pe == p,
                    PRes::Fail(d) => p_arms(toksv, start) == PRes::<Seq<MatchArmV>>::Fail(d),
                }),
            ensures
                self.wf(),
                self.toks_v() == toksv,
                self.reporter_v() == old(self).reporter_v(),
                self.errs_v() == old(self).errs_v(),
                start <= self.cur() <= toksv.len(),
                p_arms(toksv, start) matches PRes::Hit { v: all, pos: pe }
                    && all == out@.map_values(|a: MatchArm| crate::ast::varm(a)) && pe == self.cur(),
            decreases toksv.len() - self.cur(),
        {
            proof {
                reveal(crate::parser_spec::p_arms);
                reveal(crate::parser_spec::p_pattern);
            }
            if self.check(&Token::RBrace) {
                proof {
                    assert(out@.map_values(|a: MatchArm| crate::ast::varm(a)) + Seq::<MatchArmV>::empty()
                        =~= out@.map_values(|a: MatchArm| crate::ast::varm(a)));
                }
                break;
            }
            if self.current >= self.tokens.len() {
                proof {
                    if self.current < self.tokens@.len() {
                        lemma_vtok_shape(self.tokens@[self.current as int].token);
                    }
                }
                let token_str = self.peek_desc();
                let mut m = String::from_str("Unexpected token in pattern: ");
                m.append(token_str.as_str());
                let sg = String::from_str("Expected: literal, identifier, or wildcard (_)");
                let msg2 = m.clone();
                self.report_parse_error(m, Some(sg));
                return Err(ParseError { message: msg2 });
            }
            let ghost c0 = self.cur();
            let ghost prev = out@.map_values(|a: MatchArm| crate::ast::varm(a));
            let arm_location = self.current_token_location();
            let pattern = match self.parse_pattern() {
                Ok(p) => p,
                Err(er) => {
                    return Err(er);
                },
            };
            if !self.check(&Token::Eq) {
                let m = String::from_str("Expected '=>' after pattern");
                let sg = String::from_str("Use: pattern => { body }");
                let msg2 = m.clone();
                self.report_error(arm_location, m, Some(sg));
                return Err(ParseError { message: msg2 });
            }
            self.advance();
            if !self.check(&Token::Gt) {
                let m = String::from_str("Expected '>' after '=' in '=>'");
                let sg = String::from_str("Use: pattern => { body } (the => arrow)");
                let msg2 = m.clone();
                self.report_error(arm_location, m, Some(sg));
                return Err(ParseError { message: msg2 });
            }
            self.advance();
            let body = match self.parse_block() {
                Ok(b) => b,
                Err(er) => {
                    return Err(er);
                },
            };
            let arm = MatchArm { pattern, body, location: arm_location };
            proof {
                crate::ast::lemma_vstmt_vec(arm.body, 0);
                assert(crate::ast::varm(arm).body
                    =~= arm.body@.map_values(|st: Statement| vstmt(st)));
            }
            out.push(arm);
            proof {
                assert(out@.map_values(|a: MatchArm| crate::ast::varm(a))
                    =~= prev.push(crate::ast::varm(out@.last())));
            }
            if self.check(&Token::Comma) {
                self.advance();
            }
            proof {
                if p_arms(toksv, self.cur()) is Hit {
                    let es = p_arms(toksv, self.cur())->Hit_v;
                    assert(prev + (seq![crate::ast::varm(out@.last())] + es)
                        =~= prev.push(crate::ast::varm(out@.last())) + es);
                }
            }
        }
        Ok(out)
    }

    /// A braced statement block.
    #[verifier::rlimit(100)]
    #[verifier::spinoff_prover]
    fn parse_block(&mut self) -> (r: Result<Vec<Statement>, ParseError>)
        requires
            old(self).wf(),
        ensures
            final(self).wf(),
            final(self).toks_v() == old(self).toks_v(),
            final(self).reporter_v() == old(self).reporter_v(),
            old(self).cur() <= final(self).cur() <= final(self).toks_v().len(),
            ({
                let m = ps_block(old(self).toks_v(), old(self).cur());
                match r {
                    Ok(v) => m matches PRes::Hit { v: mv, pos }
                        && v@.map_values(|st: Statement| vstmt(st)) == mv
                        && final(self).cur() == pos && old(self).cur() < pos
                        && final(self).errs_v() == old(self).errs_v(),
                    Err(_) => m is Fail
                        && final(self).errs_v() == old(self).errs_v().push(m->Fail_0),
                }
            }),
        decreases self.toks_v().len() - self.cur(), 32nat,
    {
        proof {
            reveal(crate::parser_spec::p_block);
        }
        match self.expect(&Token::LBrace) {
            Ok(_) => {},
            Err(er) => {
                return Err(er);
            },
        }
        let statements = match self.parse_stmt_list() {
            Ok(v) => v,
            Err(er) => {
                return Err(er);
            },
        };
        match self.expect(&Token::RBrace) {
            Ok(_) => {},
            Err(er) => {
                return Err(er);
            },
        }
        Ok(statements)
    }

    /// The statements of a block, up to the closing brace.
    #[verifier::rlimit(100)]
    #[verifier::spinoff_prover]
    fn parse_stmt_list(&mut self) -> (r: Result<Vec<Statement>, ParseError>)
        requires
            old(self).wf(),
        ensures
            final(self).wf(),
            final(self).toks_v() == old(self).toks_v(),
            final(self).reporter_v() == old(self).reporter_v(),
            old(self).cur() <= final(self).cur() <= final(self).toks_v().len(),
            ({
                let m = p_stmt_list(old(self).toks_v(), old(self).cur());
                match r {
                    Ok(v) => m matches PRes::Hit { v: mv, pos }
                        && v@.map_values(|st: Statement| vstmt(st)) == mv
                        && final(self).cur() == pos
                        && final(self).errs_v() == old(self).errs_v(),
                    Err(_) => m is Fail
                        && final(self).errs_v() == old(self).errs_v().push(m->Fail_0),
                }
            }),
        decreases self.toks_v().len() - self.cur(), 31nat,
    {
        proof {
            reveal(crate::parser_spec::p_stmt_list);
        }
        let ghost toksv = self.toks_v();
        let ghost start = self.cur();
        let mut out: Vec<Statement> = Vec::new();
        proof {
            assert(out@.map_values(|st: Statement| vstmt(st)) =~= Seq::<StmtV>::empty());
        }
        loop
            invariant_except_break
                self.wf(),
                self.toks_v() == toksv,
                toksv == old(self).toks_v(),
                self.reporter_v() == old(self).reporter_v(),
                self.errs_v() == old(self).errs_v(),
                start == old(self).cur(),
                start <= self.cur() <= toksv.len(),
                (match p_stmt_list(toksv, self.cur()) {
                    PRes::Hit { v: es, pos: p } => p_stmt_list(toksv, start) matches PRes::Hit { v: all, pos: pe }
                        && all == out@.map_values(|st: Statement| vstmt(st)) + es && pe == p,
                    PRes::Fail(d) => p_stmt_list(toksv, start) == PRes::<Seq<StmtV>>::Fail(d),
                }),
            ensures
                self.wf(),
                self.toks_v() == toksv,
                self.reporter_v() == old(self).reporter_v(),
                self.errs_v() == old(self).errs_v(),
                start <= self.cur() <= toksv.len(),
                p_stmt_list(toksv, start) matches PRes::Hit { v: all, pos: pe }
                    && all == out@.map_values(|st: Statement| vstmt(st)) && pe == self.cur(),
            decreases toksv.len() - self.cur(),
        {
            proof {
                reveal(crate::parser_spec::p_stmt_list);
                reveal(crate::parser_spec::p_statement);
                reveal(crate::parser_spec::p_expression);
                reveal(crate::parser_spec::p_assignment);
                reveal(crate::parser_spec::p_or);
                reveal(crate::parser_spec::p_and);
                reveal(crate::parser_spec::p_equality);
                reveal(crate::parser_spec::p_comparison);
                reveal(crate::parser_spec::p_term);
                reveal(crate::parser_spec::p_factor);
                reveal(crate::parser_spec::p_unary);
                reveal(crate::parser_spec::p_call);
                reveal(crate::parser_spec::p_primary);
            }
            if self.check(&Token::RBrace) {
                proof {
                    assert(out@.map_values(|st: Statement| vstmt(st)) + Seq::<StmtV>::empty()
                        =~= out@.map_values(|st: Statement| vstmt(st)));
                }
                break;
            }
            if self.current >= self.tokens.len() {
                let token_str = self.peek_desc();
                let mut m = String::from_str("Unexpected token in expression: ");
                m.append(token_str.as_str());
                let sg = String::from_str("Expected: literal, identifier, or expression");
                let msg2 = m.clone();
                self.report_parse_error(m, Some(sg));
                return Err(ParseError { message: msg2 });
            }
            let ghost prev = out@.map_values(|st: Statement| vstmt(st));
            let st = match self.parse_statement() {
                Ok(v) => v,
                Err(er) => {
                    return Err(er);
                },
            };
            out.push(st);
            proof {
                assert(out@.map_values(|s2: Statement| vstmt(s2))
                    =~= prev.push(vstmt(out@.last())));
                if p_stmt_list(toksv, self.cur()) is Hit {
                    let es = p_stmt_list(toksv, self.cur())->Hit_v;
                    assert(prev + (seq![vstmt(out@.last())] + es)
                        =~= prev.push(vstmt(out@.last())) + es);
                }
            }
        }
        Ok(out)
    }

    /// A condition that may or may not be parenthesized (`if`/`while`).
    #[verifier::rlimit(100)]
    #[verifier::spinoff_prover]
    fn parse_condition(&mut self) -> (r: Result<Expression, ParseError>)
        requires
            old(self).wf(),
        ensures
            final(self).wf(),
            final(self).toks_v() == old(self).toks_v(),
            final(self).reporter_v() == old(self).reporter_v(),
            old(self).cur() <= final(self).cur() <= final(self).toks_v().len(),
            ({
                let m = p_condition(old(self).toks_v(), old(self).cur());
                match r {
                    Ok(v) => m matches PRes::Hit { v: mv, pos } && vexpr(v) == mv
                        && final(self).cur() == pos && old(self).cur() < pos
                        && final(self).errs_v() == old(self).errs_v(),
                    Err(_) => m is Fail
                        && final(self).errs_v() == old(self).errs_v().push(m->Fail_0),
                }
            }),
        decreases self.toks_v().len() - self.cur(), 29nat,
    {
        proof {
            reveal(crate::parser_spec::p_condition);
        }
        if self.check(&Token::LParen) {
            self.advance();
            let expr = match self.parse_expression() {
                Ok(v) => v,
                Err(er) => {
                    return Err(er);
                },
            };
            match self.expect(&Token::RParen) {
                Ok(_) => {},
                Err(er) => {
                    return Err(er);
                },
            }
            Ok(expr)
        } else {
            self.parse_expression()
        }
    }

    /// One statement; the first token decides the form.
    #[verifier::rlimit(100)]
    #[verifier::spinoff_prover]
    fn parse_statement(&mut self) -> (r: Result<Statement, ParseError>)
        requires
            old(self).wf(),
        ensures
            final(self).wf(),
            final(self).toks_v() == old(self).toks_v(),
            final(self).reporter_v() == old(self).reporter_v(),
            old(self).cur() <= final(self).cur() <= final(self).toks_v().len(),
            ({
                let m = ps_statement(old(self).toks_v(), old(self).cur());
                match r {
                    Ok(v) => m matches PRes::Hit { v: mv, pos } && vstmt(v) == mv
                        && final(self).cur() == pos && old(self).cur() < pos
                        && final(self).errs_v() == old(self).errs_v(),
                    Err(_) => m is Fail
                        && final(self).errs_v() == old(self).errs_v().push(m->Fail_0),
                }
            }),
        decreases self.toks_v().len() - self.cur(), 30nat,
    {
        proof {
            reveal(crate::parser_spec::p_statement);
        }
        let stmt_location = self.current_token_location();
        if self.check(&Token::Let) {
            self.advance();
            let name = match self.expect_ident() {
                Ok(n) => n,
                Err(er) => {
                    return Err(er);
                },
            };
            let ty = if self.check(&Token::Colon) {
                self.advance();
                match self.parse_type() {
                    Ok(t) => Some(t),
                    Err(er) => {
                        return Err(er);
                    },
                }
            } else {
                None
            };
            match self.expect(&Token::Eq) {
                Ok(_) => {},
                Err(er) => {
                    return Err(er);
                },
            }
            let value = match self.parse_expression() {
                Ok(v) => v,
                Err(er) => {
                    return Err(er);
                },
            };
            match self.expect(&Token::Semicolon) {
                Ok(_) => {},
                Err(er) => {
                    return Err(er);
                },
            }
            Ok(Statement::Let { name, ty, value, location: stmt_location })
        } else if self.check(&Token::If) {
            self.advance();
            let condition = match self.parse_condition() {
                Ok(v) => v,
                Err(er) => {
                    return Err(er);
                },
            };
            let then_block = match self.parse_block() {
                Ok(b) => b,
                Err(er) => {
                    return Err(er);
                },
            };
            let else_block = if self.check(&Token::Else) {
                self.advance();
                match self.parse_block() {
                    Ok(b) => Some(b),
                    Err(er) => {
                        return Err(er);
                    },
                }
            } else {
                None
            };
            let node = Statement::If { condition, then_block, else_block, location: stmt_location };
            proof {
                crate::ast::lemma_vstmt_vec(node->If_then_block, 0);
                assert(vstmt(node)->If_then_block
                    =~= node->If_then_block@.map_values(|st: Statement| vstmt(st)));
                match node->If_else_block {
                    Some(eb) => {
                        crate::ast::lemma_vstmt_vec(eb, 0);
                        assert(crate::ast::vstmt_vec(eb, 0)
                            =~= eb@.map_values(|st: Statement| vstmt(st)));
                    },
                    None => {},
                }
            }
            Ok(node)
        } else if self.check(&Token::While) {
            self.advance();
            let condition = match self.parse_condition() {
                Ok(v) => v,
                Err(er) => {
                    return Err(er);
                },
            };
            let body = match self.parse_block() {
                Ok(b) => b,
                Err(er) => {
                    return Err(er);
                },
            };
            let node = Statement::While { condition, body, location: stmt_location };
            proof {
                crate::ast::lemma_vstmt_vec(node->While_body, 0);
                assert(vstmt(node)->While_body
                    =~= node->While_body@.map_values(|st: Statement| vstmt(st)));
            }
            Ok(node)
        } else if self.check(&Token::For) {
            self.advance();
            let iterator = match self.expect_ident() {
                Ok(n) => n,
                Err(er) => {
                    return Err(er);
                },
            };
            match self.expect(&Token::In) {
                Ok(_) => {},
                Err(er) => {
                    return Err(er);
                },
            }
            let collection = match self.parse_expression() {
                Ok(v) => v,
                Err(er) => {
                    return Err(er);
                },
            };
            let body = match self.parse_block() {
                Ok(b) => b,
                Err(er) => {
                    return Err(er);
                },
            };
            let node = Statement::For { iterator, collection, body, location: stmt_location };
            proof {
                crate::ast::lemma_vstmt_vec(node->For_body, 0);
                assert(vstmt(node)->For_body
                    =~= node->For_body@.map_values(|st: Statement| vstmt(st)));
            }
            Ok(node)
        } else if self.check(&Token::Loop) {
            self.advance();
            let body = match self.parse_block() {
                Ok(b) => b,
                Err(er) => {
                    return Err(er);
                },
            };
            let node = Statement::Loop { body, location: stmt_location };
            proof {
                crate::ast::lemma_vstmt_vec(node->Loop_body, 0);
                assert(vstmt(node)->Loop_body
                    =~= node->Loop_body@.map_values(|st: Statement| vstmt(st)));
            }
            Ok(node)
        } else if self.check(&Token::Return) {
            self.advance();
            let expr = if !self.check(&Token::Semicolon) {
                match self.parse_expression() {
                    Ok(v) => Some(v),
                    Err(er) => {
                        return Err(er);
                    },
                }
            } else {
                None
            };
            match self.expect(&Token::Semicolon) {
                Ok(_) => {},
                Err(er) => {
                    return Err(er);
                },
            }
            Ok(Statement::Return(expr, stmt_location))
        } else if self.check(&Token::Defer) {
            self.advance();
            let expr = match self.parse_expression() {
                Ok(v) => v,
                Err(er) => {
                    return Err(er);
                },
            };
            match self.expect(&Token::Semicolon) {
                Ok(_) => {},
                Err(er) => {
                    return Err(er);
                },
            }
            Ok(Statement::Defer(Box::new(expr), stmt_location))
        } else {
            let expr = match self.parse_expression() {
                Ok(v) => v,
                Err(er) => {
                    return Err(er);
                },
            };
            if self.check(&Token::Eq) {
                self.advance();
                let value = match self.parse_expression() {
                    Ok(v) => v,
                    Err(er) => {
                        return Err(er);
                    },
                };
                match self.expect(&Token::Semicolon) {
                    Ok(_) => {},
                    Err(er) => {
                        return Err(er);
                    },
                }
                Ok(Statement::Assign { target: expr, value, location: stmt_location })
            } else {
                match self.expect(&Token::Semicolon) {
                    Ok(_) => {},
                    Err(er) => {
                        return Err(er);
                    },
                }
                Ok(Statement::Expression(expr, stmt_location))
            }
        }
    }

    /// One `name: Type` field.
    #[verifier::rlimit(100)]
    #[verifier::spinoff_prover]
    fn parse_field(&mut self) -> (r: Result<Field, ParseError>)
        requires
            old(self).wf(),
        ensures
            final(self).wf(),
            final(self).toks_v() == old(self).toks_v(),
            final(self).reporter_v() == old(self).reporter_v(),
            old(self).cur() <= final(self).cur() <= final(self).toks_v().len(),
            ({
                let m = ps_field(old(self).toks_v(), old(self).cur());
                match r {
                    Ok(v) => m matches PRes::Hit { v: mv, pos } && vfield(v) == mv
                        && final(self).cur() == pos && old(self).cur() < pos
                        && final(self).errs_v() == old(self).errs_v(),
                    Err(_) => m is Fail
                        && final(self).errs_v() == old(self).errs_v().push(m->Fail_0),
                }
            }),
        decreases self.toks_v().len() - self.cur(), 34nat,
    {
        proof {
            reveal(crate::parser_spec::p_field);
        }
        let name = match self.expect_ident() {
            Ok(n) => n,
            Err(er) => {
                return Err(er);
            },
        };
        match self.expect(&Token::Colon) {
            Ok(_) => {},
            Err(er) => {
                return Err(er);
            },
        }
        let ty = match self.parse_type() {
            Ok(t) => t,
            Err(er) => {
                return Err(er);
            },
        };
        Ok(Field { name, ty })
    }

    /// The comma-separated fields of a struct or component body.
    #[verifier::rlimit(100)]
    #[verifier::spinoff_prover]
    fn parse_field_list(&mut self) -> (r: Result<Vec<Field>, ParseError>)
        requires
            old(self).wf(),
        ensures
            final(self).wf(),
            final(self).toks_v() == old(self).toks_v(),
            final(self).reporter_v() == old(self).reporter_v(),
            old(self).cur() <= final(self).cur() <= final(self).toks_v().len(),
            ({
                let m = p_field_list(old(self).toks_v(), old(self).cur());
                match r {
                    Ok(v) => m matches PRes::Hit { v: mv, pos }
                        && v@.map_values(|f: Field| vfield(f)) == mv
                        && final(self).cur() == pos
                        && final(self).errs_v() == old(self).errs_v(),
                    Err(_) => m is Fail
                        && final(self).errs_v() == old(self).errs_v().push(m->Fail_0),
                }
            }),
        decreases self.toks_v().len() - self.cur(), 35nat,
    {
        let ghost toksv = self.toks_v();
        let ghost start = self.cur();
        let mut out: Vec<Field> = Vec::new();
        proof {
            assert(out@.map_values(|f: Field| vfield(f)) =~= Seq::<FieldV>::empty());
        }
        loop
            invariant_except_break
                self.wf(),
                self.toks_v() == toksv,
                toksv == old(self).toks_v(),
                self.reporter_v() == old(self).reporter_v(),
                self.errs_v() == old(self).errs_v(),
                start == old(self).cur(),
                start <= self.cur() <= toksv.len(),
                (match p_field_list(toksv, self.cur()) {
                    PRes::Hit { v: es, pos: p } => p_field_list(toksv, start) matches PRes::Hit { v: all, pos: pe }
                        && all == out@.map_values(|f: Field| vfield(f)) + es && pe == p,
                    PRes::Fail(d) => p_field_list(toksv, start) == PRes::<Seq<FieldV>>::Fail(d),
                }),
            ensures
                self.wf(),
                self.toks_v() == toksv,
                self.reporter_v() == old(self).reporter_v(),
                self.errs_v() == old(self).errs_v(),
                start <= self.cur() <= toksv.len(),
                p_field_list(toksv, start) matches PRes::Hit { v: all, pos: pe }
                    && all == out@.map_values(|f: Field| vfield(f)) && pe == self.cur(),
            decreases toksv.len() - self.cur(),
        {
            proof {
                reveal(crate::parser_spec::p_field_list);
            }
            if self.check(&Token::RBrace) {
                proof {
                    assert(out@.map_values(|f: Field| vfield(f)) + Seq::<FieldV>::empty()
                        =~= out@.map_values(|f: Field| vfield(f)));
                }
                break;
            }
            if self.current >= self.tokens.len() {
                proof {
                    if self.current < self.tokens@.len() {
                        lemma_vtok_shape(self.tokens@[self.current as int].token);
                    }
                }
                let got = self.peek_desc();
                let mut m = String::from_str("Expected identifier, got ");
                m.append(got.as_str());
                let sg = String::from_str("Use an identifier: a name starting with a letter or underscore");
                let msg2 = m.clone();
                self.report_parse_error(m, Some(sg));
                return Err(ParseError { message: msg2 });
            }
            let ghost c0 = self.cur();
            let ghost prev = out@.map_values(|f: Field| vfield(f));
            let f = match self.parse_field() {
                Ok(v) => v,
                Err(er) => {
                    return Err(er);
                },
            };
            out.push(f);
            proof {
                assert(out@.map_values(|f2: Field| vfield(f2))
                    =~= prev.push(vfield(out@.last())));
            }
            if self.check(&Token::RBrace) {
                proof {
                    assert(p_field_list(toksv, c0) == PRes::<Seq<FieldV>>::Hit {
                        v: seq![vfield(out@.last())],
                        pos: self.cur(),
                    });
                    assert(prev.push(vfield(out@.last()))
                        =~= prev + seq![vfield(out@.last())]);
                }
                break;
            }
            match self.expect(&Token::Comma) {
                Ok(_) => {},
                Err(er) => {
                    return Err(er);
                },
            }
            proof {
                if p_field_list(toksv, self.cur()) is Hit {
                    let es = p_field_list(toksv, self.cur())->Hit_v;
                    assert(prev + (seq![vfield(out@.last())] + es)
                        =~= prev.push(vfield(out@.last())) + es);
                }
            }
        }
        Ok(out)
    }

    /// The comma-separated parameter list of a signature.
    #[verifier::rlimit(100)]
    #[verifier::spinoff_prover]
    fn parse_param_list(&mut self) -> (r: Result<Vec<Param>, ParseError>)
        requires
            old(self).wf(),
        ensures
            final(self).wf(),
            final(self).toks_v() == old(self).toks_v(),
            final(self).reporter_v() == old(self).reporter_v(),
            old(self).cur() <= final(self).cur() <= final(self).toks_v().len(),
            ({
                let m = p_param_list(old(self).toks_v(), old(self).cur());
                match r {
                    Ok(v) => m matches PRes::Hit { v: mv, pos }
                        && v@.map_values(|p: Param| vparam(p)) == mv
                        && final(self).cur() == pos && old(self).cur() < pos
                        && final(self).errs_v() == old(self).errs_v(),
                    Err(_) => m is Fail
                        && final(self).errs_v() == old(self).errs_v().push(m->Fail_0),
                }
            }),
        decreases self.toks_v().len() - self.cur(), 35nat,
    {
        let ghost toksv = self.toks_v();
        let ghost start = self.cur();
        let mut out: Vec<Param> = Vec::new();
        proof {
            assert(out@.map_values(|p: Param| vparam(p)) =~= Seq::<ParamV>::empty());
        }
        loop
            invariant_except_break
                self.wf(),
                self.toks_v() == toksv,
                toksv == old(self).toks_v(),
                self.reporter_v() == old(self).reporter_v(),
                self.errs_v() == old(self).errs_v(),
                start == old(self).cur(),
                start <= self.cur() <= toksv.len(),
                (match p_param_list(toksv, self.cur()) {
                    PRes::Hit { v: es, pos: p } => p_param_list(toksv, start) matches PRes::Hit { v: all, pos: pe }
                        && all == out@.map_values(|p2: Param| vparam(p2)) + es && pe == p,
                    PRes::Fail(d) => p_param_list(toksv, start) == PRes::<Seq<ParamV>>::Fail(d),
                }),
            ensures
                self.wf(),
                self.toks_v() == toksv,
                self.reporter_v() == old(self).reporter_v(),
                self.errs_v() == old(self).errs_v(),
                start < self.cur() <= toksv.len(),
                p_param_list(toksv, start) matches PRes::Hit { v: all, pos: pe }
                    && all == out@.map_values(|p2: Param| vparam(p2)) && pe == self.cur(),
            decreases toksv.len() - self.cur(),
        {
            proof {
                reveal(crate::parser_spec::p_param_list);
            }
            let ghost c0 = self.cur();
            let ghost prev = out@.map_values(|p2: Param| vparam(p2));
            let param_name = match self.expect_ident() {
                Ok(n) => n,
                Err(er) => {
                    return Err(er);
                },
            };
            match self.expect(&Token::Colon) {
                Ok(_) => {},
                Err(er) => {
                    return Err(er);
                },
            }
            let param_type = match self.parse_type() {
                Ok(t) => t,
                Err(er) => {
                    return Err(er);
                },
            };
            out.push(Param { name: param_name, ty: param_type });
            proof {
                assert(out@.map_values(|p2: Param| vparam(p2))
                    =~= prev.push(vparam(out@.last())));
            }
            if !self.check(&Token::Comma) {
                proof {
                    assert(p_param_list(toksv, c0) == PRes::<Seq<ParamV>>::Hit {
                        v: seq![vparam(out@.last())],
                        pos: self.cur(),
                    });
                    assert(prev.push(vparam(out@.last()))
                        =~= prev + seq![vparam(out@.last())]);
                }
                break;
            }
            self.advance();
            proof {
                if p_param_list(toksv, self.cur()) is Hit {
                    let es = p_param_list(toksv, self.cur())->Hit_v;
                    assert(prev + (seq![vparam(out@.last())] + es)
                        =~= prev.push(vparam(out@.last())) + es);
                }
            }
        }
        Ok(out)
    }

    /// A signature's `(params) [: ret]` part.
    #[verifier::rlimit(100)]
    #[verifier::spinoff_prover]
    fn parse_signature(&mut self) -> (r: Result<(Vec<Param>, Type), ParseError>)
        requires
            old(self).wf(),
        ensures
            final(self).wf(),
            final(self).toks_v() == old(self).toks_v(),
            final(self).reporter_v() == old(self).reporter_v(),
            old(self).cur() <= final(self).cur() <= final(self).toks_v().len(),
            ({
                let m = p_signature(old(self).toks_v(), old(self).cur());
                match r {
                    Ok(v) => m matches PRes::Hit { v: mv, pos }
                        && v.0@.map_values(|p: Param| vparam(p)) == mv.0 && vty(v.1) == mv.1
                        && final(self).cur() == pos && old(self).cur() < pos
                        && final(self).errs_v() == old(self).errs_v(),
                    Err(_) => m is Fail
                        && final(self).errs_v() == old(self).errs_v().push(m->Fail_0),
                }
            }),
        decreases self.toks_v().len() - self.cur(), 36nat,
    {
        proof {
            reveal(crate::parser_spec::p_signature);
        }
        match self.expect(&Token::LParen) {
            Ok(_) => {},
            Err(er) => {
                return Err(er);
            },
        }
        let params: Vec<Param> = if self.check(&Token::RParen) {
            let empty_params: Vec<Param> = Vec::new();
            proof {
                assert(empty_params@.map_values(|p: Param| vparam(p)) =~= Seq::<ParamV>::empty());
            }
            empty_params
        } else {
            match self.parse_param_list() {
                Ok(v) => v,
                Err(er) => {
                    return Err(er);
                },
            }
        };
        match self.expect(&Token::RParen) {
            Ok(_) => {},
            Err(er) => {
                return Err(er);
            },
        }
        let return_type = if self.check(&Token::Colon) {
            self.advance();
            match self.parse_type() {
                Ok(t) => t,
                Err(er) => {
                    return Err(er);
                },
            }
        } else {
            Type::Void
        };
        Ok((params, return_type))
    }

    fn parse_function(&mut self) -> (r: Result<FunctionDef, ParseError>)
        requires
            old(self).wf(),
        ensures
            final(self).wf(),
            final(self).toks_v() == old(self).toks_v(),
            final(self).reporter_v() == old(self).reporter_v(),
            old(self).cur() <= final(self).cur() <= final(self).toks_v().len(),
            ({
                let m = ps_function(old(self).toks_v(), old(self).cur());
                match r {
                    Ok(v) => m matches PRes::Hit { v: mv, pos } && vfndef(v) == mv
                        && final(self).cur() == pos && old(self).cur() < pos
                        && final(self).errs_v() == old(self).errs_v(),
                    Err(_) => m is Fail
                        && final(self).errs_v() == old(self).errs_v().push(m->Fail_0),
                }
            }),
        decreases self.toks_v().len() - self.cur(), 38nat,
    {
        proof {
            reveal(crate::parser_spec::p_function);
        }
        let name = match self.expect_ident() {
            Ok(n) => n,
            Err(er) => {
                return Err(er);
            },
        };
        let sig = match self.parse_signature() {
            Ok(v) => v,
            Err(er) => {
                return Err(er);
            },
        };
        let (params, return_type) = sig;
        let body = match self.parse_block() {
            Ok(b) => b,
            Err(er) => {
                return Err(er);
            },
        };
        let node = FunctionDef { name, params, return_type, body, cuda_kernel: None };
        proof {
            crate::ast::lemma_vstmt_vec(node.body, 0);
            assert(vfndef(node).body =~= node.body@.map_values(|st: Statement| vstmt(st)));
        }
        Ok(node)
    }

    fn parse_extern_function(&mut self) -> (r: Result<ExternFunctionDef, ParseError>)
        requires
            old(self).wf(),
        ensures
            final(self).wf(),
            final(self).toks_v() == old(self).toks_v(),
            final(self).reporter_v() == old(self).reporter_v(),
            old(self).cur() <= final(self).cur() <= final(self).toks_v().len(),
            ({
                let m = ps_extern(old(self).toks_v(), old(self).cur());
                match r {
                    Ok(v) => m matches PRes::Hit { v: mv, pos } && vexterndef(v) == mv
                        && final(self).cur() == pos && old(self).cur() < pos
                        && final(self).errs_v() == old(self).errs_v(),
                    Err(_) => m is Fail
                        && final(self).errs_v() == old(self).errs_v().push(m->Fail_0),
                }
            }),
        decreases self.toks_v().len() - self.cur(), 38nat,
    {
        proof {
            reveal(crate::parser_spec::p_extern_function);
        }
        match self.expect(&Token::Fn) {
            Ok(_) => {},
            Err(er) => {
                return Err(er);
            },
        }
        let name = match self.expect_ident() {
            Ok(n) => n,
            Err(er) => {
                return Err(er);
            },
        };
        let sig = match self.parse_signature() {
            Ok(v) => v,
            Err(er) => {
                return Err(er);
            },
        };
        let (params, return_type) = sig;
        let mut library: Option<String> = None;
        if self.current < self.tokens.len() {
            proof {
                lemma_vtok_shape(self.tokens@[self.current as int].token);
            }
            let from_kw = match &self.tokens[self.current].token {
                Token::Ident(s) => str_eq(s.as_str(), "from"),
                _ => false,
            };
            if from_kw {
                self.advance();
                if self.current < self.tokens.len() {
                    proof {
                        lemma_vtok_shape(self.tokens@[self.current as int].token);
                    }
                    let is_lit = matches!(&self.tokens[self.current].token, Token::StringLit(_));
                    if is_lit {
                        let lib_name = match &self.tokens[self.current].token {
                            Token::StringLit(p) => p.clone(),
                            _ => String::new(),
                        };
                        self.advance();
                        library = Some(lib_name);
                    }
                }
            }
        }
        match self.expect(&Token::Semicolon) {
            Ok(_) => {},
            Err(er) => {
                return Err(er);
            },
        }
        Ok(ExternFunctionDef { name, params, return_type, library })
    }

    /// The shader stage keyword.
    fn parse_stage(&mut self) -> (r: Result<ShaderStage, ParseError>)
        requires
            old(self).wf(),
        ensures
            final(self).wf(),
            final(self).toks_v() == old(self).toks_v(),
            final(self).reporter_v() == old(self).reporter_v(),
            old(self).cur() <= final(self).cur() <= final(self).toks_v().len(),
            ({
                let m = ps_stage(old(self).toks_v(), old(self).cur());
                match r {
                    Ok(v) => m matches PRes::Hit { v: mv, pos } && v == mv
                        && final(self).cur() == pos && old(self).cur() < pos
                        && final(self).errs_v() == old(self).errs_v(),
                    Err(_) => m is Fail
                        && final(self).errs_v() == old(self).errs_v().push(m->Fail_0),
                }
            }),
    {
        if self.check(&Token::Vertex) {
            self.advance();
            Ok(ShaderStage::Vertex)
        } else if self.check(&Token::Fragment) {
            self.advance();
            Ok(ShaderStage::Fragment)
        } else if self.check(&Token::Compute) {
            self.advance();
            Ok(ShaderStage::Compute)
        } else if self.check(&Token::Geometry) {
            self.advance();
            Ok(ShaderStage::Geometry)
        } else if self.check(&Token::TessellationControl) {
            self.advance();
            Ok(ShaderStage::TessellationControl)
        } else if self.check(&Token::TessellationEvaluation) {
            self.advance();
            Ok(ShaderStage::TessellationEvaluation)
        } else {
            let m = String::from_str("Expected shader stage (vertex, fragment, compute, etc.)");
            let sg = String::from_str(
                "Use: vertex, fragment, compute, geometry, tessellation_control, or tessellation_evaluation");
            let msg2 = m.clone();
            self.report_parse_error(m, Some(sg));
            Err(ParseError { message: msg2 })
        }
    }

    /// One string-literal token, with the caller's message and suggestion on
    /// failure.
    fn parse_string_token(&mut self, context_msg: &str, context_sugg: &str) -> (r: Result<String, ParseError>)
        requires
            old(self).wf(),
        ensures
            final(self).wf(),
            final(self).toks_v() == old(self).toks_v(),
            final(self).reporter_v() == old(self).reporter_v(),
            old(self).cur() <= final(self).cur() <= final(self).toks_v().len(),
            ({
                let m = ps_string_token(old(self).toks_v(), old(self).cur(), context_msg@, context_sugg@);
                match r {
                    Ok(v) => m matches PRes::Hit { v: mv, pos } && v@ == mv
                        && final(self).cur() == pos && old(self).cur() < pos
                        && final(self).errs_v() == old(self).errs_v(),
                    Err(_) => m is Fail
                        && final(self).errs_v() == old(self).errs_v().push(m->Fail_0),
                }
            }),
    {
        if self.current < self.tokens.len() {
            proof {
                lemma_vtok_shape(self.tokens@[self.current as int].token);
            }
            let is_lit = matches!(&self.tokens[self.current].token, Token::StringLit(_));
            if is_lit {
                let path = match &self.tokens[self.current].token {
                    Token::StringLit(p) => p.clone(),
                    _ => String::new(),
                };
                self.advance();
                return Ok(path);
            }
        }
        let m = String::from_str(context_msg);
        let sg = String::from_str(context_sugg);
        let msg2 = m.clone();
        self.report_parse_error(m, Some(sg));
        Err(ParseError { message: msg2 })
    }

    fn parse_shader(&mut self, is_hot: bool) -> (r: Result<ShaderDef, ParseError>)
        requires
            old(self).wf(),
        ensures
            final(self).wf(),
            final(self).toks_v() == old(self).toks_v(),
            final(self).reporter_v() == old(self).reporter_v(),
            old(self).cur() <= final(self).cur() <= final(self).toks_v().len(),
            ({
                let m = ps_shader(old(self).toks_v(), old(self).cur(), is_hot);
                match r {
                    Ok(v) => m matches PRes::Hit { v: mv, pos } && vshaderdef(v) == mv
                        && final(self).cur() == pos && old(self).cur() < pos
                        && final(self).errs_v() == old(self).errs_v(),
                    Err(_) => m is Fail
                        && final(self).errs_v() == old(self).errs_v().push(m->Fail_0),
                }
            }),
        decreases self.toks_v().len() - self.cur(), 38nat,
    {
        proof {
            reveal(crate::parser_spec::p_shader);
            reveal(crate::parser_spec::p_skip_body);
        }
        let ghost toksv = self.toks_v();
        let stage = match self.parse_stage() {
            Ok(s) => s,
            Err(er) => {
                return Err(er);
            },
        };
        let path = match self.parse_string_token(
            "Expected shader file path string",
            "Provide a string literal path: shader vertex \"path/to/shader.vert\"",
        ) {
            Ok(p) => p,
            Err(er) => {
                return Err(er);
            },
        };
        if self.check(&Token::LBrace) {
            self.advance();
            let ghost skip_start = self.cur();
            while self.current < self.tokens.len()
                && !same_kind(&self.tokens[self.current].token, &Token::RBrace)
                invariant
                    self.wf(),
                    self.toks_v() == toksv,
                    self.reporter_v() == old(self).reporter_v(),
                    self.errs_v() == old(self).errs_v(),
                    skip_start <= self.cur() <= toksv.len(),
                    crate::parser_spec::p_skip_body(toksv, self.cur())
                        == crate::parser_spec::p_skip_body(toksv, skip_start),
                decreases self.toks_v().len() - self.cur(),
            {
                proof {
                    reveal(crate::parser_spec::p_skip_body);
                }
                self.advance();
            }
            proof {
                reveal(crate::parser_spec::p_skip_body);
            }
            if !self.check(&Token::RBrace) {
                let m = String::from_str("Expected '}' to close shader declaration");
                let sg = String::from_str("Add closing brace: }");
                let msg2 = m.clone();
                self.report_parse_error(m, Some(sg));
                return Err(ParseError { message: msg2 });
            }
            self.advance();
        }
        Ok(ShaderDef { stage, path, is_hot })
    }

    fn parse_resource(&mut self, is_hot: bool) -> (r: Result<ResourceDef, ParseError>)
        requires
            old(self).wf(),
        ensures
            final(self).wf(),
            final(self).toks_v() == old(self).toks_v(),
            final(self).reporter_v() == old(self).reporter_v(),
            old(self).cur() <= final(self).cur() <= final(self).toks_v().len(),
            ({
                let m = ps_resource(old(self).toks_v(), old(self).cur(), is_hot);
                match r {
                    Ok(v) => m matches PRes::Hit { v: mv, pos } && vresourcedef(v) == mv
                        && final(self).cur() == pos && old(self).cur() < pos
                        && final(self).errs_v() == old(self).errs_v(),
                    Err(_) => m is Fail
                        && final(self).errs_v() == old(self).errs_v().push(m->Fail_0),
                }
            }),
        decreases self.toks_v().len() - self.cur(), 38nat,
    {
        proof {
            reveal(crate::parser_spec::p_resource);
        }
        let name = match self.expect_ident() {
            Ok(n) => n,
            Err(er) => {
                return Err(er);
            },
        };
        match self.expect(&Token::Colon) {
            Ok(_) => {},
            Err(er) => {
                return Err(er);
            },
        }
        let resource_type = match self.expect_ident() {
            Ok(n) => n,
            Err(er) => {
                return Err(er);
            },
        };
        match self.expect(&Token::Eq) {
            Ok(_) => {},
            Err(er) => {
                return Err(er);
            },
        }
        let path = match self.parse_string_token(
            "Expected string literal for resource path",
            "Provide a string literal path: resource Name: Type = \"path/to/file\"",
        ) {
            Ok(p) => p,
            Err(er) => {
                return Err(er);
            },
        };
        match self.expect(&Token::Semicolon) {
            Ok(_) => {},
            Err(er) => {
                return Err(er);
            },
        }
        Ok(ResourceDef { name, resource_type, path, is_hot })
    }

    fn parse_struct(&mut self) -> (r: Result<StructDef, ParseError>)
        requires
            old(self).wf(),
        ensures
            final(self).wf(),
            final(self).toks_v() == old(self).toks_v(),
            final(self).reporter_v() == old(self).reporter_v(),
            old(self).cur() <= final(self).cur() <= final(self).toks_v().len(),
            ({
                let m = ps_struct(old(self).toks_v(), old(self).cur());
                match r {
                    Ok(v) => m matches PRes::Hit { v: mv, pos } && vstructdef(v) == mv
                        && final(self).cur() == pos && old(self).cur() < pos
                        && final(self).errs_v() == old(self).errs_v(),
                    Err(_) => m is Fail
                        && final(self).errs_v() == old(self).errs_v().push(m->Fail_0),
                }
            }),
        decreases self.toks_v().len() - self.cur(), 38nat,
    {
        proof {
            reveal(crate::parser_spec::p_struct);
        }
        let name = match self.expect_ident() {
            Ok(n) => n,
            Err(er) => {
                return Err(er);
            },
        };
        match self.expect(&Token::LBrace) {
            Ok(_) => {},
            Err(er) => {
                return Err(er);
            },
        }
        let fields = match self.parse_field_list() {
            Ok(v) => v,
            Err(er) => {
                return Err(er);
            },
        };
        match self.expect(&Token::RBrace) {
            Ok(_) => {},
            Err(er) => {
                return Err(er);
            },
        }
        Ok(StructDef { name, fields })
    }

    fn parse_component(&mut self, is_soa: bool, is_hot: bool) -> (r: Result<ComponentDef, ParseError>)
        requires
            old(self).wf(),
        ensures
            final(self).wf(),
            final(self).toks_v() == old(self).toks_v(),
            final(self).reporter_v() == old(self).reporter_v(),
            old(self).cur() <= final(self).cur() <= final(self).toks_v().len(),
            ({
                let m = ps_component(old(self).toks_v(), old(self).cur(), is_soa, is_hot);
                match r {
                    Ok(v) => m matches PRes::Hit { v: mv, pos } && vcomponentdef(v) == mv
                        && final(self).cur() == pos && old(self).cur() < pos
                        && final(self).errs_v() == old(self).errs_v(),
                    Err(_) => m is Fail
                        && final(self).errs_v() == old(self).errs_v().push(m->Fail_0),
                }
            }),
        decreases self.toks_v().len() - self.cur(), 38nat,
    {
        proof {
            reveal(crate::parser_spec::p_component);
        }
        let name = match self.expect_ident() {
            Ok(n) => n,
            Err(er) => {
                return Err(er);
            },
        };
        match self.expect(&Token::LBrace) {
            Ok(_) => {},
            Err(er) => {
                return Err(er);
            },
        }
        let fields = match self.parse_field_list() {
            Ok(v) => v,
            Err(er) => {
                return Err(er);
            },
        };
        match self.expect(&Token::RBrace) {
            Ok(_) => {},
            Err(er) => {
                return Err(er);
            },
        }
        Ok(ComponentDef { name, fields, is_soa, is_hot, is_cuda: false })
    }

    /// The `fn`-introduced member functions of a system body.
    #[verifier::rlimit(100)]
    #[verifier::spinoff_prover]
    fn parse_fn_list(&mut self) -> (r: Result<Vec<FunctionDef>, ParseError>)
        requires
            old(self).wf(),
        ensures
            final(self).wf(),
            final(self).toks_v() == old(self).toks_v(),
            final(self).reporter_v() == old(self).reporter_v(),
            old(self).cur() <= final(self).cur() <= final(self).toks_v().len(),
            ({
                let m = p_fn_list(old(self).toks_v(), old(self).cur());
                match r {
                    Ok(v) => m matches PRes::Hit { v: mv, pos }
                        && v@.map_values(|f: FunctionDef| vfndef(f)) == mv
                        && final(self).cur() == pos
                        && final(self).errs_v() == old(self).errs_v(),
                    Err(_) => m is Fail
                        && final(self).errs_v() == old(self).errs_v().push(m->Fail_0),
                }
            }),
        decreases self.toks_v().len() - self.cur(), 36nat,
    {
        let ghost toksv = self.toks_v();
        let ghost start = self.cur();
        let mut out: Vec<FunctionDef> = Vec::new();
        proof {
            assert(out@.map_values(|f: FunctionDef| vfndef(f)) =~= Seq::<FunctionDefV>::empty());
        }
        loop
            invariant_except_break
                self.wf(),
                self.toks_v() == toksv,
                toksv == old(self).toks_v(),
                self.reporter_v() == old(self).reporter_v(),
                self.errs_v() == old(self).errs_v(),
                start == old(self).cur(),
                start <= self.cur() <= toksv.len(),
                (match p_fn_list(toksv, self.cur()) {
                    PRes::Hit { v: es, pos: p } => p_fn_list(toksv, start) matches PRes::Hit { v: all, pos: pe }
                        && all == out@.map_values(|f: FunctionDef| vfndef(f)) + es && pe == p,
                    PRes::Fail(d) => p_fn_list(toksv, start) == PRes::<Seq<FunctionDefV>>::Fail(d),
                }),
            ensures
                self.wf(),
                self.toks_v() == toksv,
                self.reporter_v() == old(self).reporter_v(),
                self.errs_v() == old(self).errs_v(),
                start <= self.cur() <= toksv.len(),
                p_fn_list(toksv, start) matches PRes::Hit { v: all, pos: pe }
                    && all == out@.map_values(|f: FunctionDef| vfndef(f)) && pe == self.cur(),
            decreases toksv.len() - self.cur(),
        {
            proof {
                reveal(crate::parser_spec::p_fn_list);
            }
            if self.check(&Token::RBrace) {
                proof {
                    assert(out@.map_values(|f: FunctionDef| vfndef(f)) + Seq::<FunctionDefV>::empty()
                        =~= out@.map_values(|f: FunctionDef| vfndef(f)));
                }
                break;
            }
            if !self.check(&Token::Fn) {
                let m = String::from_str("Expected function in system");
                let sg = String::from_str("Add a function declaration: fn function_name() { ... }");
                let msg2 = m.clone();
                self.report_parse_error(m, Some(sg));
                return Err(ParseError { message: msg2 });
            }
            let ghost prev = out@.map_values(|f: FunctionDef| vfndef(f));
            self.advance();
            let f = match self.parse_function() {
                Ok(v) => v,
                Err(er) => {
                    return Err(er);
                },
            };
            out.push(f);
            proof {
                assert(out@.map_values(|f2: FunctionDef| vfndef(f2))
                    =~= prev.push(vfndef(out@.last())));
                if p_fn_list(toksv, self.cur()) is Hit {
                    let es = p_fn_list(toksv, self.cur())->Hit_v;
                    assert(prev + (seq![vfndef(out@.last())] + es)
                        =~= prev.push(vfndef(out@.last())) + es);
                }
            }
        }
        Ok(out)
    }

    fn parse_system(&mut self, is_hot: bool) -> (r: Result<SystemDef, ParseError>)
        requires
            old(self).wf(),
        ensures
            final(self).wf(),
            final(self).toks_v() == old(self).toks_v(),
            final(self).reporter_v() == old(self).reporter_v(),
            old(self).cur() <= final(self).cur() <= final(self).toks_v().len(),
            ({
                let m = ps_system(old(self).toks_v(), old(self).cur(), is_hot);
                match r {
                    Ok(v) => m matches PRes::Hit { v: mv, pos } && vsystemdef(v) == mv
                        && final(self).cur() == pos && old(self).cur() < pos
                        && final(self).errs_v() == old(self).errs_v(),
                    Err(_) => m is Fail
                        && final(self).errs_v() == old(self).errs_v().push(m->Fail_0),
                }
            }),
        decreases self.toks_v().len() - self.cur(), 38nat,
    {
        proof {
            reveal(crate::parser_spec::p_system);
        }
        let name = match self.expect_ident() {
            Ok(n) => n,
            Err(er) => {
                return Err(er);
            },
        };
        match self.expect(&Token::LBrace) {
            Ok(_) => {},
            Err(er) => {
                return Err(er);
            },
        }
        let functions = match self.parse_fn_list() {
            Ok(v) => v,
            Err(er) => {
                return Err(er);
            },
        };
        match self.expect(&Token::RBrace) {
            Ok(_) => {},
            Err(er) => {
                return Err(er);
            },
        }
        Ok(SystemDef { name, functions, is_hot })
    }

    /// The binding lines of a pipeline layout block.
    #[verifier::rlimit(100)]
    #[verifier::spinoff_prover]
    fn parse_bindings(&mut self) -> (r: Result<Vec<LayoutBinding>, ParseError>)
        requires
            old(self).wf(),
        ensures
            final(self).wf(),
            final(self).toks_v() == old(self).toks_v(),
            final(self).reporter_v() == old(self).reporter_v(),
            old(self).cur() <= final(self).cur() <= final(self).toks_v().len(),
            ({
                let m = p_bindings(old(self).toks_v(), old(self).cur());
                match r {
                    Ok(v) => m matches PRes::Hit { v: mv, pos }
                        && v@.map_values(|b: LayoutBinding| vlayoutbinding(b)) == mv
                        && final(self).cur() == pos
                        && final(self).errs_v() == old(self).errs_v(),
                    Err(_) => m is Fail
                        && final(self).errs_v() == old(self).errs_v().push(m->Fail_0),
                }
            }),
        decreases self.toks_v().len() - self.cur(), 36nat,
    {
        let ghost toksv = self.toks_v();
        let ghost start = self.cur();
        let mut out: Vec<LayoutBinding> = Vec::new();
        proof {
            assert(out@.map_values(|b: LayoutBinding| vlayoutbinding(b))
                =~= Seq::<LayoutBindingV>::empty());
        }
        loop
            invariant_except_break
                self.wf(),
                self.toks_v() == toksv,
                toksv == old(self).toks_v(),
                self.reporter_v() == old(self).reporter_v(),
                self.errs_v() == old(self).errs_v(),
                start == old(self).cur(),
                start <= self.cur() <= toksv.len(),
                (match p_bindings(toksv, self.cur()) {
                    PRes::Hit { v: es, pos: p } => p_bindings(toksv, start) matches PRes::Hit { v: all, pos: pe }
                        && all == out@.map_values(|b: LayoutBinding| vlayoutbinding(b)) + es && pe == p,
                    PRes::Fail(d) => p_bindings(toksv, start) == PRes::<Seq<LayoutBindingV>>::Fail(d),
                }),
            ensures
                self.wf(),
                self.toks_v() == toksv,
                self.reporter_v() == old(self).reporter_v(),
                self.errs_v() == old(self).errs_v(),
                start <= self.cur() <= toksv.len(),
                p_bindings(toksv, start) matches PRes::Hit { v: all, pos: pe }
                    && all == out@.map_values(|b: LayoutBinding| vlayoutbinding(b))
                    && pe == self.cur(),
            decreases toksv.len() - self.cur(),
        {
            proof {
                reveal(crate::parser_spec::p_bindings);
            }
            if self.check(&Token::RBrace) {
                proof {
                    assert(out@.map_values(|b: LayoutBinding| vlayoutbinding(b))
                        + Seq::<LayoutBindingV>::empty()
                        =~= out@.map_values(|b: LayoutBinding| vlayoutbinding(b)));
                }
                break;
            }
            let ghost prev = out@.map_values(|b: LayoutBinding| vlayoutbinding(b));
            match self.expect(&Token::Binding) {
                Ok(_) => {},
                Err(er) => {
                    return Err(er);
                },
            }
            proof {
                if self.current < self.tokens@.len() {
                    lemma_vtok_shape(self.tokens@[self.current as int].token);
                }
            }
            let has_num = self.current < self.tokens.len()
                && matches!(&self.tokens[self.current].token, Token::Int(_));
            if !has_num {
                let m = String::from_str("Expected binding number");
                let sg = String::from_str("Provide a binding number: binding 0: uniform TypeName");
                let msg2 = m.clone();
                self.report_parse_error(m, Some(sg));
                return Err(ParseError { message: msg2 });
            }
            let nval = match &self.tokens[self.current].token {
                Token::Int(n) => *n,
                _ => 0,
            };
            self.advance();
            let binding_num: u32 = nval as u32;
            match self.expect(&Token::Colon) {
                Ok(_) => {},
                Err(er) => {
                    return Err(er);
                },
            }
            let binding_type: BindingType;
            if self.check(&Token::Uniform) {
                self.advance();
                let tyname = match self.expect_ident() {
                    Ok(n) => n,
                    Err(er) => {
                        return Err(er);
                    },
                };
                binding_type = BindingType::Uniform(tyname);
            } else if self.check(&Token::Storage) {
                self.advance();
                let tyname = match self.expect_ident() {
                    Ok(n) => n,
                    Err(er) => {
                        return Err(er);
                    },
                };
                if self.check(&Token::LBracket) {
                    self.advance();
                    match self.expect(&Token::RBracket) {
                        Ok(_) => {},
                        Err(er) => {
                            return Err(er);
                        },
                    }
                }
                binding_type = BindingType::Storage(tyname);
            } else if self.check(&Token::Sampler2D) {
                self.advance();
                if self.check(&Token::LBracket) {
                    self.advance();
                    match self.expect(&Token::RBracket) {
                        Ok(_) => {},
                        Err(er) => {
                            return Err(er);
                        },
                    }
                }
                binding_type = BindingType::Sampler2D;
            } else {
                let m = String::from_str("Expected binding type: uniform, storage, or sampler2D");
                let sg = String::from_str("Use: uniform TypeName, storage TypeName[], or sampler2D");
                let msg2 = m.clone();
                self.report_parse_error(m, Some(sg));
                return Err(ParseError { message: msg2 });
            }
            proof {
                if self.current < self.tokens@.len() {
                    lemma_vtok_shape(self.tokens@[self.current as int].token);
                }
            }
            let resource_name = if self.current < self.tokens.len()
                && matches!(&self.tokens[self.current].token, Token::Ident(_)) {
                let n = match &self.tokens[self.current].token {
                    Token::Ident(n) => n.clone(),
                    _ => String::new(),
                };
                self.advance();
                n
            } else {
                String::new()
            };
            out.push(LayoutBinding { binding: binding_num, binding_type, name: resource_name });
            proof {
                assert(out@.map_values(|b: LayoutBinding| vlayoutbinding(b))
                    =~= prev.push(vlayoutbinding(out@.last())));
            }
            if !self.check(&Token::RBrace) {
                if self.check(&Token::Comma) {
                    self.advance();
                } else if self.check(&Token::Semicolon) {
                    self.advance();
                }
            }
            proof {
                if p_bindings(toksv, self.cur()) is Hit {
                    let es = p_bindings(toksv, self.cur())->Hit_v;
                    assert(prev + (seq![vlayoutbinding(out@.last())] + es)
                        =~= prev.push(vlayoutbinding(out@.last())) + es);
                }
            }
        }
        Ok(out)
    }

    fn parse_pipeline(&mut self) -> (r: Result<PipelineDef, ParseError>)
        requires
            old(self).wf(),
        ensures
            final(self).wf(),
            final(self).toks_v() == old(self).toks_v(),
            final(self).reporter_v() == old(self).reporter_v(),
            old(self).cur() <= final(self).cur() <= final(self).toks_v().len(),
            ({
                let m = ps_pipeline(old(self).toks_v(), old(self).cur());
                match r {
                    Ok(v) => m matches PRes::Hit { v: mv, pos } && vpipelinedef(v) == mv
                        && final(self).cur() == pos && old(self).cur() < pos
                        && final(self).errs_v() == old(self).errs_v(),
                    Err(_) => m is Fail
                        && final(self).errs_v() == old(self).errs_v().push(m->Fail_0),
                }
            }),
        decreases self.toks_v().len() - self.cur(), 38nat,
    {
        proof {
            reveal(crate::parser_spec::p_pipeline);
        }
        let ghost toksv = self.toks_v();
        let name = match self.expect_ident() {
            Ok(n) => n,
            Err(er) => {
                return Err(er);
            },
        };
        match self.expect(&Token::LBrace) {
            Ok(_) => {},
            Err(er) => {
                return Err(er);
            },
        }
        let ghost entries_start = self.cur();
        let mut shaders: Vec<PipelineShader> = Vec::new();
        let mut layout: Option<PipelineLayout> = None;
        proof {
            assert(shaders@.map_values(|sh: PipelineShader| PipelineShaderV {
                stage: sh.stage,
                path: sh.path@,
            }) =~= Seq::<PipelineShaderV>::empty());
        }
        loop
            invariant_except_break
                self.wf(),
                self.toks_v() == toksv,
                toksv == old(self).toks_v(),
                self.reporter_v() == old(self).reporter_v(),
                self.errs_v() == old(self).errs_v(),
                old(self).cur() < entries_start,
                entries_start <= self.cur() <= toksv.len(),
                (ps_ident(toksv, old(self).cur()) matches PRes::Hit { v: nm, pos: p1 }
                    && nm == name@
                    && (p_expect(toksv, p1, TokenV::LBrace) matches PRes::Hit { pos: pl, .. }
                        && pl == entries_start)),
                crate::parser_spec::p_pipe_entries(toksv, self.cur(), name@,
                    shaders@.map_values(|sh: PipelineShader| PipelineShaderV {
                        stage: sh.stage,
                        path: sh.path@,
                    }),
                    match layout {
                        Some(l) => Some(PipelineLayoutV {
                            bindings: l.bindings@.map_values(|b: LayoutBinding| vlayoutbinding(b)),
                        }),
                        None => None,
                    })
                    == crate::parser_spec::p_pipe_entries(toksv, entries_start, name@,
                        Seq::<PipelineShaderV>::empty(), None),
            ensures
                self.wf(),
                self.toks_v() == toksv,
                self.reporter_v() == old(self).reporter_v(),
                self.errs_v() == old(self).errs_v(),
                entries_start <= self.cur() <= toksv.len(),
                crate::parser_spec::p_pipe_entries(toksv, entries_start, name@,
                    Seq::<PipelineShaderV>::empty(), None)
                    matches PRes::Hit { v: sl, pos: pe }
                    && sl.0 == shaders@.map_values(|sh: PipelineShader| PipelineShaderV {
                        stage: sh.stage,
                        path: sh.path@,
                    })
                    && sl.1 == (match layout {
                        Some(l) => Some(PipelineLayoutV {
                            bindings: l.bindings@.map_values(|b: LayoutBinding| vlayoutbinding(b)),
                        }),
                        None => None,
                    })
                    && pe == self.cur(),
            decreases toksv.len() - self.cur(),
        {
            proof {
                reveal(crate::parser_spec::p_pipe_entries);
                reveal(crate::parser_spec::p_pipeline);
            }
            if self.check(&Token::RBrace) {
                break;
            }
            if self.check(&Token::Shader) {
                self.advance();
                let stage = match self.parse_stage() {
                    Ok(st) => st,
                    Err(er) => {
                        return Err(er);
                    },
                };
                let path = match self.parse_string_token(
                    "Expected string literal for shader path",
                    "Provide a string literal path: shader vertex \"path/to/shader.vert\"",
                ) {
                    Ok(p) => p,
                    Err(er) => {
                        return Err(er);
                    },
                };
                let ghost prev = shaders@.map_values(|sh: PipelineShader| PipelineShaderV {
                    stage: sh.stage,
                    path: sh.path@,
                });
                shaders.push(PipelineShader { stage, path });
                proof {
                    assert(shaders@.map_values(|sh: PipelineShader| PipelineShaderV {
                        stage: sh.stage,
                        path: sh.path@,
                    }) =~= prev.push(PipelineShaderV {
                        stage: shaders@.last().stage,
                        path: shaders@.last().path@,
                    }));
                }
            } else if self.check(&Token::Layout) {
                self.advance();
                match self.expect(&Token::LBrace) {
                    Ok(_) => {},
                    Err(er) => {
                        return Err(er);
                    },
                }
                let bindings = match self.parse_bindings() {
                    Ok(v) => v,
                    Err(er) => {
                        return Err(er);
                    },
                };
                match self.expect(&Token::RBrace) {
                    Ok(_) => {},
                    Err(er) => {
                        return Err(er);
                    },
                }
                match self.check_dup_bindings(&bindings, &name) {
                    Ok(_) => {},
                    Err(er) => {
                        return Err(er);
                    },
                }
                layout = Some(PipelineLayout { bindings });
            } else {
                let m = String::from_str("Expected 'shader' or 'layout' in pipeline declaration");
                let sg = String::from_str("Use: shader vertex \"path\" or layout { binding ... }");
                let msg2 = m.clone();
                self.report_parse_error(m, Some(sg));
                return Err(ParseError { message: msg2 });
            }
        }
        match self.expect(&Token::RBrace) {
            Ok(_) => {},
            Err(er) => {
                return Err(er);
            },
        }
        let node = PipelineDef { name, shaders, layout };
        Ok(node)
    }

    /// Rejects a layout block whose binding indices repeat; the diagnostic
    /// names the repeated index and the pipeline.
    #[verifier::rlimit(100)]
    #[verifier::spinoff_prover]
    fn check_dup_bindings(&mut self, bindings: &Vec<LayoutBinding>, name: &String) -> (r: Result<(), ParseError>)
        requires
            old(self).wf(),
        ensures
            final(self).wf(),
            final(self).toks_v() == old(self).toks_v(),
            final(self).reporter_v() == old(self).reporter_v(),
            final(self).cur() == old(self).cur(),
            ({
                let bsv = bindings@.map_values(|b: LayoutBinding| vlayoutbinding(b));
                match r {
                    Ok(_) => crate::parser_spec::first_dup(bsv, 0) is None
                        && final(self).errs_v() == old(self).errs_v(),
                    Err(_) => crate::parser_spec::first_dup(bsv, 0) matches Some(bi)
                        && final(self).errs_v() == old(self).errs_v().push(
                            crate::error::spec_diag(
                                loc_at(old(self).toks_v(), old(self).cur()),
                                crate::parser_spec::pm_dup_binding(bsv[bi].binding as nat, name@),
                                Some(crate::parser_spec::pm_dup_binding_sugg(bsv[bi].binding as nat)))),
                }
            }),
    {
        let ghost bsv = bindings@.map_values(|b: LayoutBinding| vlayoutbinding(b));
        let mut bi: usize = 0;
        while bi < bindings.len()
            invariant
                bi <= bindings@.len(),
                self.wf(),
                self == old(self),
                bsv == bindings@.map_values(|b: LayoutBinding| vlayoutbinding(b)),
                bsv.len() == bindings@.len(),
                crate::parser_spec::first_dup(bsv, bi as int)
                    == crate::parser_spec::first_dup(bsv, 0),
            decreases bindings@.len() - bi,
        {
            let mut bj: usize = 0;
            while bj < bi
                invariant
                    bj <= bi < bindings@.len(),
                    self.wf(),
                    self == old(self),
                    bsv == bindings@.map_values(|b: LayoutBinding| vlayoutbinding(b)),
                    bsv.len() == bindings@.len(),
                    crate::parser_spec::first_dup(bsv, bi as int)
                        == crate::parser_spec::first_dup(bsv, 0),
                    crate::parser_spec::dup_before(bsv, bi as int, bj as int)
                        == crate::parser_spec::dup_before(bsv, bi as int, 0),
                decreases bi - bj,
            {
                if bindings[bj].binding == bindings[bi].binding {
                    proof {
                        assert(crate::parser_spec::dup_before(bsv, bi as int, bj as int));
                        assert(crate::parser_spec::first_dup(bsv, bi as int)
                            == Some(bi as int));
                    }
                    let bn = crate::text::usize_dec(bindings[bi].binding as usize);
                    let mut m = String::from_str("Duplicate binding index ");
                    m.append(bn.as_str());
                    m.append(" in pipeline '");
                    m.append(name.as_str());
                    m.append("' layout");
                    let mut sg = String::from_str("Use a different binding index. Binding ");
                    sg.append(bn.as_str());
                    sg.append(" is already used.");
                    let msg2 = m.clone();
                    self.report_parse_error(m, Some(sg));
                    return Err(ParseError { message: msg2 });
                }
                bj = bj + 1;
            }
            bi = bi + 1;
        }
        Ok(())
    }

    /// Parses the attribute list before an item: `@hot`, `@[name]` or
    /// `@[launch(kernel = name)]`; an unrecognized `@` sequence is put back.
    /// Each attribute is a tag with an optional kernel-name parameter. A
    /// malformed bracketed attribute is a syntax error.
    #[verifier::rlimit(100)]
    #[verifier::spinoff_prover]
    fn parse_attributes(&mut self) -> (r: Result<Vec<(String, Option<String>)>, ParseError>)
        requires
            old(self).wf(),
        ensures
            final(self).wf(),
            final(self).toks_v() == old(self).toks_v(),
            final(self).reporter_v() == old(self).reporter_v(),
            old(self).cur() <= final(self).cur() <= final(self).toks_v().len(),
            ({
                let m = p_attrs(old(self).toks_v(), old(self).cur(),
                    Seq::<(Seq<char>, Option<Seq<char>>)>::empty());
                match r {
                    Ok(v) => m matches PRes::Hit { v: mv, pos }
                        && v@.map_values(|a: (String, Option<String>)| (a.0@, match a.1 {
                            Some(k) => Some(k@),
                            None => None,
                        })) == mv
                        && final(self).cur() == pos
                        && final(self).errs_v() == old(self).errs_v(),
                    Err(_) => m is Fail
                        && final(self).errs_v() == old(self).errs_v().push(m->Fail_0),
                }
            }),
        decreases self.toks_v().len() - self.cur(), 39nat,
    {
        let ghost toksv = self.toks_v();
        let ghost start = self.cur();
        let mut attrs: Vec<(String, Option<String>)> = Vec::new();
        proof {
            assert(attrs@.map_values(|a: (String, Option<String>)| (a.0@, match a.1 {
                Some(k) => Some(k@),
                None => None,
            })) =~= Seq::<(Seq<char>, Option<Seq<char>>)>::empty());
        }
        loop
            invariant_except_break
                self.wf(),
                self.toks_v() == toksv,
                toksv == old(self).toks_v(),
                self.reporter_v() == old(self).reporter_v(),
                self.errs_v() == old(self).errs_v(),
                start == old(self).cur(),
                start <= self.cur() <= toksv.len(),
                p_attrs(toksv, self.cur(), attrs@.map_values(|a: (String, Option<String>)| (a.0@,
                    match a.1 { Some(k) => Some(k@), None => None })))
                    == p_attrs(toksv, start, Seq::<(Seq<char>, Option<Seq<char>>)>::empty()),
            ensures
                self.wf(),
                self.toks_v() == toksv,
                self.reporter_v() == old(self).reporter_v(),
                self.errs_v() == old(self).errs_v(),
                start <= self.cur() <= toksv.len(),
                p_attrs(toksv, start, Seq::<(Seq<char>, Option<Seq<char>>)>::empty())
                    matches PRes::Hit { v: all, pos: pe }
                    && all == attrs@.map_values(|a: (String, Option<String>)| (a.0@,
                        match a.1 { Some(k) => Some(k@), None => None }))
                    && pe == self.cur(),
            decreases toksv.len() - self.cur(),
        {
            proof {
                reveal(crate::parser_spec::p_attrs);
            }
            let ghost prev = attrs@.map_values(|a: (String, Option<String>)| (a.0@,
                match a.1 { Some(k) => Some(k@), None => None }));
            if !self.check(&Token::At) {
                break;
            }
            self.advance();
            if self.check(&Token::LBracket) {
                self.advance();
                proof {
                    if self.current < self.tokens@.len() {
                        lemma_vtok_shape(self.tokens@[self.current as int].token);
                    }
                }
                let has_name = self.current < self.tokens.len()
                    && matches!(&self.tokens[self.current].token, Token::Ident(_));
                if has_name {
                    let attr_name = match &self.tokens[self.current].token {
                        Token::Ident(n) => n.clone(),
                        _ => String::new(),
                    };
                    self.advance();
                    if self.check(&Token::LParen) {
                        self.advance();
                        proof {
                            if self.current < self.tokens@.len() {
                                lemma_vtok_shape(self.tokens@[self.current as int].token);
                            }
                        }
                        let has_param = self.current < self.tokens.len()
                            && matches!(&self.tokens[self.current].token, Token::Ident(_));
                        if has_param {
                            let param = match &self.tokens[self.current].token {
                                Token::Ident(n) => n.clone(),
                                _ => String::new(),
                            };
                            if str_eq(param.as_str(), "kernel") {
                                self.advance();
                                if self.check(&Token::Eq) {
                                    self.advance();
                                    proof {
                                        if self.current < self.tokens@.len() {
                                            lemma_vtok_shape(
                                                self.tokens@[self.current as int].token);
                                        }
                                    }
                                    let has_kernel = self.current < self.tokens.len()
                                        && matches!(&self.tokens[self.current].token, Token::Ident(_));
                                    if has_kernel {
                                        let kernel_name = match &self.tokens[self.current].token {
                                            Token::Ident(n) => n.clone(),
                                            _ => String::new(),
                                        };
                                        self.advance();
                                        attrs.push((String::from_str("launch"), Some(kernel_name)));
                                        proof {
                                            assert(attrs@.map_values(
                                                |a: (String, Option<String>)| (a.0@, match a.1 {
                                                    Some(k) => Some(k@),
                                                    None => None,
                                                }))
                                                =~= prev.push(("launch"@,
                                                    Some(attrs@.last().1->0@))));
                                        }
                                        match self.expect(&Token::RParen) {
                                            Ok(_) => {},
                                            Err(e) => {
                                                return Err(e);
                                            },
                                        }
                                        match self.expect(&Token::RBracket) {
                                            Ok(_) => {},
                                            Err(e) => {
                                                return Err(e);
                                            },
                                        }
                                        continue;
                                    }
                                }
                            }
                        }
                        match self.expect(&Token::RBracket) {
                            Ok(_) => {},
                            Err(e) => {
                                return Err(e);
                            },
                        }
                    } else {
                        attrs.push((attr_name, None));
                        proof {
                            assert(attrs@.map_values(|a: (String, Option<String>)| (a.0@,
                                match a.1 { Some(k) => Some(k@), None => None }))
                                =~= prev.push((attrs@.last().0@, None)));
                        }
                        match self.expect(&Token::RBracket) {
                            Ok(_) => {},
                            Err(e) => {
                                return Err(e);
                            },
                        }
                    }
                }
            } else if self.check(&Token::Hot) {
                self.advance();
                attrs.push((String::from_str("hot"), None));
                proof {
                    assert(attrs@.map_values(|a: (String, Option<String>)| (a.0@,
                        match a.1 { Some(k) => Some(k@), None => None }))
                        =~= prev.push(("hot"@, None)));
                }
            } else {
                // not an attribute: put the '@' back
                self.current = self.current - 1;
                break;
            }
        }
        Ok(attrs)
    }

    /// The declarations an `@hot` marker may introduce.
    #[verifier::rlimit(100)]
    #[verifier::spinoff_prover]
    fn parse_hot_item(&mut self, ghost_pos: Ghost<int>) -> (r: Result<Item, ParseError>)
        requires
            old(self).wf(),
            ghost_pos@ < old(self).cur(),
        ensures
            final(self).wf(),
            final(self).toks_v() == old(self).toks_v(),
            final(self).reporter_v() == old(self).reporter_v(),
            old(self).cur() <= final(self).cur() <= final(self).toks_v().len(),
            ({
                let m = p_hot_item(old(self).toks_v(), ghost_pos@, old(self).cur());
                match r {
                    Ok(v) => m matches PRes::Hit { v: mv, pos } && vitem(v) == mv
                        && final(self).cur() == pos && old(self).cur() <= pos
                        && final(self).errs_v() == old(self).errs_v(),
                    Err(_) => m is Fail
                        && final(self).errs_v() == old(self).errs_v().push(m->Fail_0),
                }
            }),
        decreases self.toks_v().len() - self.cur(), 39nat,
    {
        proof {
            reveal(crate::parser_spec::p_hot_item);
        }
        if self.check(&Token::System) {
            self.advance();
            let name = if self.check(&Token::LParen) {
                self.advance();
                let n = match self.expect_ident() {
                    Ok(n) => n,
                    Err(e) => {
                        return Err(e);
                    },
                };
                match self.expect(&Token::RParen) {
                    Ok(_) => {},
                    Err(e) => {
                        return Err(e);
                    },
                }
                n
            } else {
                match self.expect_ident() {
                    Ok(n) => n,
                    Err(e) => {
                        return Err(e);
                    },
                }
            };
            match self.expect(&Token::LBrace) {
                Ok(_) => {},
                Err(e) => {
                    return Err(e);
                },
            }
            let functions = match self.parse_fn_list() {
                Ok(v) => v,
                Err(e) => {
                    return Err(e);
                },
            };
            match self.expect(&Token::RBrace) {
                Ok(_) => {},
                Err(e) => {
                    return Err(e);
                },
            }
            Ok(Item::System(SystemDef { name, functions, is_hot: true }))
        } else if self.check(&Token::Shader) {
            self.advance();
            match self.parse_shader(true) {
                Ok(s) => Ok(Item::Shader(s)),
                Err(e) => Err(e),
            }
        } else if self.check(&Token::Component) {
            self.advance();
            match self.parse_component(false, true) {
                Ok(c) => Ok(Item::Component(c)),
                Err(e) => Err(e),
            }
        } else if self.check(&Token::ComponentSOA) {
            self.advance();
            match self.parse_component(true, true) {
                Ok(c) => Ok(Item::Component(c)),
                Err(e) => Err(e),
            }
        } else if self.check(&Token::Resource) {
            self.advance();
            match self.parse_resource(true) {
                Ok(rd) => Ok(Item::Resource(rd)),
                Err(e) => Err(e),
            }
        } else {
            let m = String::from_str(
                "Expected 'system', 'shader', 'component', or 'resource' after '@hot'");
            let sg = String::from_str(
                "Use: @hot system Name { ... } or @hot shader vertex \"path\" { }");
            let msg2 = m.clone();
            self.report_parse_error(m, Some(sg));
            Err(ParseError { message: msg2 })
        }
    }

    /// One item: the attributes, then the declaration they modify.
    #[verifier::rlimit(100)]
    #[verifier::spinoff_prover]
    fn parse_item(&mut self) -> (r: Result<Item, ParseError>)
        requires
            old(self).wf(),
        ensures
            final(self).wf(),
            final(self).toks_v() == old(self).toks_v(),
            final(self).reporter_v() == old(self).reporter_v(),
            old(self).cur() <= final(self).cur() <= final(self).toks_v().len(),
            ({
                let m = ps_item(old(self).toks_v(), old(self).cur());
                match r {
                    Ok(v) => m matches PRes::Hit { v: mv, pos } && vitem(v) == mv
                        && final(self).cur() == pos && old(self).cur() < pos
                        && final(self).errs_v() == old(self).errs_v(),
                    Err(_) => m is Fail
                        && final(self).errs_v() == old(self).errs_v().push(m->Fail_0),
                }
            }),
        decreases self.toks_v().len() - self.cur(), 40nat,
    {
        proof {
            reveal(crate::parser_spec::p_item);
        }
        let ghost item_pos = self.cur();
        if self.is_at_end() {
            let token_str = self.peek_desc();
            let mut m = String::from_str("Unexpected token at item level: ");
            m.append(token_str.as_str());
            let sg = String::from_str(
                "Expected: struct, component, system, shader, fn, resource, or pipeline");
            let msg2 = m.clone();
            self.report_parse_error(m, Some(sg));
            return Err(ParseError { message: msg2 });
        }
        let attrs = match self.parse_attributes() {
            Ok(a) => a,
            Err(e) => {
                return Err(e);
            },
        };
        let ghost attrsv = attrs@.map_values(|a: (String, Option<String>)| (a.0@,
            match a.1 { Some(k) => Some(k@), None => None }));
        let mut is_hot = false;
        let mut is_cuda = false;
        let mut cuda_kernel: Option<String> = None;
        let mut ai: usize = 0;
        while ai < attrs.len()
            invariant
                ai <= attrs@.len(),
                attrsv == attrs@.map_values(|a: (String, Option<String>)| (a.0@,
                    match a.1 { Some(k) => Some(k@), None => None })),
                attrsv.len() == attrs@.len(),
                is_hot == attrs_has(attrsv.take(ai as int), "hot"@),
                is_cuda == attrs_has(attrsv.take(ai as int), "cuda"@),
                (match cuda_kernel {
                    Some(k) => Some(k@),
                    None => None,
                }) == attrs_launch(attrsv.take(ai as int)),
            decreases attrs@.len() - ai,
        {
            let ghost pre = attrsv.take(ai as int);
            if str_eq(attrs[ai].0.as_str(), "hot") {
                is_hot = true;
            }
            if str_eq(attrs[ai].0.as_str(), "cuda") {
                is_cuda = true;
            }
            if str_eq(attrs[ai].0.as_str(), "launch") {
                match &attrs[ai].1 {
                    Some(k) => {
                        cuda_kernel = Some(k.clone());
                    },
                    None => {},
                }
            }
            proof {
                assert(attrsv.take(ai + 1 as int) =~= pre.push(attrsv[ai as int]));
                assert(attrsv.take(ai + 1 as int).drop_last() =~= pre);
                assert(attrs_has(attrsv.take(ai + 1 as int), "hot"@)
                    == (attrs_has(pre, "hot"@) || attrsv[ai as int].0 == "hot"@)) by {
                    if attrs_has(pre, "hot"@) {
                        let q = choose|q: int| 0 <= q < pre.len()
                            && (#[trigger] pre[q]).0 == "hot"@;
                        assert(attrsv.take(ai + 1 as int)[q].0 == "hot"@);
                    }
                    if attrsv[ai as int].0 == "hot"@ {
                        assert(attrsv.take(ai + 1 as int)[ai as int].0 == "hot"@);
                    }
                    if attrs_has(attrsv.take(ai + 1 as int), "hot"@) {
                        let q = choose|q: int| 0 <= q < ai + 1
                            && (#[trigger] attrsv.take(ai + 1 as int)[q]).0 == "hot"@;
                        if q < ai {
                            assert(pre[q].0 == "hot"@);
                        }
                    }
                }
                assert(attrs_has(attrsv.take(ai + 1 as int), "cuda"@)
                    == (attrs_has(pre, "cuda"@) || attrsv[ai as int].0 == "cuda"@)) by {
                    if attrs_has(pre, "cuda"@) {
                        let q = choose|q: int| 0 <= q < pre.len()
                            && (#[trigger] pre[q]).0 == "cuda"@;
                        assert(attrsv.take(ai + 1 as int)[q].0 == "cuda"@);
                    }
                    if attrsv[ai as int].0 == "cuda"@ {
                        assert(attrsv.take(ai + 1 as int)[ai as int].0 == "cuda"@);
                    }
                    if attrs_has(attrsv.take(ai + 1 as int), "cuda"@) {
                        let q = choose|q: int| 0 <= q < ai + 1
                            && (#[trigger] attrsv.take(ai + 1 as int)[q]).0 == "cuda"@;
                        if q < ai {
                            assert(pre[q].0 == "cuda"@);
                        }
                    }
                }
            }
            ai = ai + 1;
        }
        proof {
            assert(attrsv.take(attrsv.len() as int) =~= attrsv);
        }
        if self.is_at_end() {
            let token_str = self.peek_desc();
            let mut m = String::from_str("Unexpected token at item level: ");
            m.append(token_str.as_str());
            let sg = String::from_str(
                "Expected: struct, component, system, shader, fn, resource, or pipeline");
            let msg2 = m.clone();
            self.report_parse_error(m, Some(sg));
            return Err(ParseError { message: msg2 });
        }
        if self.check(&Token::Struct) {
            self.advance();
            match self.parse_struct() {
                Ok(s) => Ok(Item::Struct(s)),
                Err(e) => Err(e),
            }
        } else if self.check(&Token::Component) {
            self.advance();
            match self.parse_component(false, is_hot) {
                Ok(mut comp) => {
                    comp.is_cuda = is_cuda;
                    Ok(Item::Component(comp))
                },
                Err(e) => Err(e),
            }
        } else if self.check(&Token::ComponentSOA) {
            self.advance();
            match self.parse_component(true, is_hot) {
                Ok(mut comp) => {
                    comp.is_cuda = is_cuda;
                    Ok(Item::Component(comp))
                },
                Err(e) => Err(e),
            }
        } else if self.check(&Token::System) {
            self.advance();
            match self.parse_system(false) {
                Ok(s) => Ok(Item::System(s)),
                Err(e) => Err(e),
            }
        } else if self.check(&Token::Shader) {
            self.advance();
            match self.parse_shader(false) {
                Ok(s) => Ok(Item::Shader(s)),
                Err(e) => Err(e),
            }
        } else if self.check(&Token::Hot) {
            self.advance();
            match self.parse_hot_item(Ghost(item_pos)) {
                Ok(it) => Ok(it),
                Err(e) => Err(e),
            }
        } else if self.check(&Token::Extern) {
            self.advance();
            match self.parse_extern_function() {
                Ok(x) => Ok(Item::ExternFunction(x)),
                Err(e) => Err(e),
            }
        } else if self.check(&Token::Fn) {
            self.advance();
            match self.parse_function() {
                Ok(mut func) => {
                    func.cuda_kernel = cuda_kernel;
                    Ok(Item::Function(func))
                },
                Err(e) => Err(e),
            }
        } else if self.check(&Token::Resource) {
            self.advance();
            match self.parse_resource(false) {
                Ok(rd) => Ok(Item::Resource(rd)),
                Err(e) => Err(e),
            }
        } else if self.check(&Token::Pipeline) {
            self.advance();
            match self.parse_pipeline() {
                Ok(p) => Ok(Item::Pipeline(p)),
                Err(e) => Err(e),
            }
        } else {
            let token_str = self.peek_desc();
            let mut m = String::from_str("Unexpected token at item level: ");
            m.append(token_str.as_str());
            let sg = String::from_str(
                "Expected: struct, component, system, shader, fn, resource, or pipeline");
            let msg2 = m.clone();
            self.report_parse_error(m, Some(sg));
            Err(ParseError { message: msg2 })
        }
    }

    /// Parses the whole token stream into a program, or fails fast on the
    /// first syntax error, which is recorded as exactly one diagnostic; on
    /// success the entire stream has been consumed, no diagnostic was
    /// recorded, and the program is exactly what the parsing rules give for
    /// this token sequence.
    #[verifier::rlimit(100)]
    #[verifier::spinoff_prover]
    pub fn parse(&mut self) -> (r: Result<Program, ParseError>)
        requires
            old(self).wf(),
        ensures
            final(self).wf(),
            final(self).toks_v() == old(self).toks_v(),
            final(self).reporter_v() == old(self).reporter_v(),
            old(self).cur() <= final(self).cur() <= final(self).toks_v().len(),
            ({
                let m = ps_program(old(self).toks_v());
                old(self).cur() == 0 ==> match r {
                    Ok(v) => m matches PRes::Hit { v: mv, .. } && vprogram(v) == mv
                        && final(self).cur() == final(self).toks_v().len()
                        && final(self).errs_v() == old(self).errs_v(),
                    Err(_) => m is Fail
                        && final(self).errs_v() == old(self).errs_v().push(m->Fail_0),
                }
            }),
            ({
                let m = p_items(old(self).toks_v(), old(self).cur());
                match r {
                    Ok(v) => m matches PRes::Hit { v: mv, .. }
                        && vprogram(v).items == mv
                        && final(self).cur() == final(self).toks_v().len()
                        && final(self).errs_v() == old(self).errs_v(),
                    Err(_) => m is Fail
                        && final(self).errs_v() == old(self).errs_v().push(m->Fail_0),
                }
            }),
        decreases self.toks_v().len() - self.cur(), 41nat,
    {
        proof {
            reveal(crate::parser_spec::p_program);
        }
        let ghost toksv = self.toks_v();
        let ghost start = self.cur();
        let mut items: Vec<Item> = Vec::new();
        proof {
            assert(items@.map_values(|it: Item| vitem(it)) =~= Seq::<ItemV>::empty());
        }
        loop
            invariant_except_break
                self.wf(),
                self.toks_v() == toksv,
                toksv == old(self).toks_v(),
                self.reporter_v() == old(self).reporter_v(),
                self.errs_v() == old(self).errs_v(),
                start == old(self).cur(),
                start <= self.cur() <= toksv.len(),
                (match p_items(toksv, self.cur()) {
                    PRes::Hit { v: es, pos: p } => p_items(toksv, start) matches PRes::Hit { v: all, pos: pe }
                        && all == items@.map_values(|it: Item| vitem(it)) + es && pe == p,
                    PRes::Fail(d) => p_items(toksv, start) == PRes::<Seq<ItemV>>::Fail(d),
                }),
            ensures
                self.wf(),
                self.toks_v() == toksv,
                self.reporter_v() == old(self).reporter_v(),
                self.errs_v() == old(self).errs_v(),
                start <= self.cur() <= toksv.len(),
                self.cur() >= toksv.len(),
                p_items(toksv, start) matches PRes::Hit { v: all, pos: pe }
                    && all == items@.map_values(|it: Item| vitem(it)) && pe == self.cur(),
            decreases toksv.len() - self.cur(),
        {
            proof {
                reveal(crate::parser_spec::p_items);
                reveal(crate::parser_spec::p_program);
            }
            if self.is_at_end() {
                proof {
                    assert(items@.map_values(|it: Item| vitem(it)) + Seq::<ItemV>::empty()
                        =~= items@.map_values(|it: Item| vitem(it)));
                }
                break;
            }
            let ghost prev = items@.map_values(|it: Item| vitem(it));
            let it = match self.parse_item() {
                Ok(v) => v,
                Err(e) => {
                    return Err(e);
                },
            };
            items.push(it);
            proof {
                assert(items@.map_values(|it2: Item| vitem(it2))
                    =~= prev.push(vitem(items@.last())));
                if p_items(toksv, self.cur()) is Hit {
                    let es = p_items(toksv, self.cur())->Hit_v;
                    assert(prev + (seq![vitem(items@.last())] + es)
                        =~= prev.push(vitem(items@.last())) + es);
                }
            }
        }
        let node = Program { items };
        proof {
            assert(vprogram(node).items =~= node.items@.map_values(|it: Item| vitem(it)));
        }
        Ok(node)
    }

}

} // verus!
