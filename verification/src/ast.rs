use vstd::prelude::*;

use crate::error::SourceLocation;

verus! {

// ---------------------------------------------------------------------------
// The abstract syntax tree
// ---------------------------------------------------------------------------

/// The closed union of source-language types. `Error` is the poison type the
/// checker uses internally to mark an expression whose type could not be
/// determined; the parser never constructs it.
#[derive(Debug)]
pub enum Type {
    I32,
    I64,
    F32,
    F64,
    Bool,
    String,
    Array(Box<Type>),
    Optional(Box<Type>),
    Struct(String),
    Component(String),
    Query(Vec<Type>),
    Void,
    // Host resource handle types
    VkInstance,
    VkDevice,
    VkResult,
    VkPhysicalDevice,
    VkQueue,
    VkCommandPool,
    VkCommandBuffer,
    VkSwapchainKHR,
    VkSurfaceKHR,
    VkRenderPass,
    VkPipeline,
    VkFramebuffer,
    VkBuffer,
    VkImage,
    VkImageView,
    VkSemaphore,
    VkFence,
    GLFWwindow,
    GLFWbool,
    Vec2,
    Vec3,
    Vec4,
    Mat4,
    Error,
}

#[derive(Debug)]
pub struct Program {
    pub items: Vec<Item>,
}

#[derive(Debug)]
pub enum Item {
    Struct(StructDef),
    Component(ComponentDef),
    System(SystemDef),
    Shader(ShaderDef),
    Function(FunctionDef),
    ExternFunction(ExternFunctionDef),
    Resource(ResourceDef),
    Pipeline(PipelineDef),
}

#[derive(Debug)]
pub struct StructDef {
    pub name: String,
    pub fields: Vec<Field>,
}

#[derive(Debug)]
pub struct ComponentDef {
    pub name: String,
    pub fields: Vec<Field>,
    pub is_soa: bool,
    pub is_hot: bool,
    pub is_cuda: bool,
}

#[derive(Debug)]
pub struct SystemDef {
    pub name: String,
    pub functions: Vec<FunctionDef>,
    pub is_hot: bool,
}

#[derive(Debug)]
pub struct ShaderDef {
    pub stage: ShaderStage,
    pub path: String,
    pub is_hot: bool,
}

#[derive(Clone, Copy, PartialEq, Eq, Structural, Debug)]
pub enum ShaderStage {
    Vertex,
    Fragment,
    Compute,
    Geometry,
    TessellationControl,
    TessellationEvaluation,
}

#[derive(Debug)]
pub struct Field {
    pub name: String,
    pub ty: Type,
}

#[derive(Debug)]
pub struct Param {
    pub name: String,
    pub ty: Type,
}

#[derive(Debug)]
pub struct FunctionDef {
    pub name: String,
    pub params: Vec<Param>,
    pub return_type: Type,
    pub body: Vec<Statement>,
    pub cuda_kernel: Option<String>,
}

#[derive(Debug)]
pub struct ExternFunctionDef {
    pub name: String,
    pub params: Vec<Param>,
    pub return_type: Type,
    pub library: Option<String>,
}

#[derive(Debug)]
pub struct ResourceDef {
    pub name: String,
    pub resource_type: String,
    pub path: String,
    pub is_hot: bool,
}

#[derive(Debug)]
pub struct PipelineDef {
    pub name: String,
    pub shaders: Vec<PipelineShader>,
    pub layout: Option<PipelineLayout>,
}

#[derive(Debug)]
pub struct PipelineShader {
    pub stage: ShaderStage,
    pub path: String,
}

#[derive(Debug)]
pub struct PipelineLayout {
    pub bindings: Vec<LayoutBinding>,
}

#[derive(Debug)]
pub struct LayoutBinding {
    pub binding: u32,
    pub binding_type: BindingType,
    pub name: String,
}

#[derive(Debug)]
pub enum BindingType {
    Uniform(String),
    Storage(String),
    Sampler2D,
}

#[derive(Debug)]
pub enum Statement {
    Let { name: String, ty: Option<Type>, value: Expression, location: SourceLocation },
    Assign { target: Expression, value: Expression, location: SourceLocation },
    If { condition: Expression, then_block: Vec<Statement>, else_block: Option<Vec<Statement>>, location: SourceLocation },
    While { condition: Expression, body: Vec<Statement>, location: SourceLocation },
    For { iterator: String, collection: Expression, body: Vec<Statement>, location: SourceLocation },
    Loop { body: Vec<Statement>, location: SourceLocation },
    Return(Option<Expression>, SourceLocation),
    Break(SourceLocation),
    Continue(SourceLocation),
    Defer(Box<Expression>, SourceLocation),
    Expression(Expression, SourceLocation),
    Block(Vec<Statement>, SourceLocation),
}

#[derive(Debug)]
pub enum Expression {
    Literal(Literal, SourceLocation),
    Variable(String, SourceLocation),
    BinaryOp { op: BinaryOp, left: Box<Expression>, right: Box<Expression>, location: SourceLocation },
    UnaryOp { op: UnaryOp, expr: Box<Expression>, location: SourceLocation },
    Call { name: String, args: Vec<Expression>, location: SourceLocation },
    MemberAccess { object: Box<Expression>, member: String, location: SourceLocation },
    Index { array: Box<Expression>, index: Box<Expression>, location: SourceLocation },
    ArrayLiteral { elements: Vec<Expression>, location: SourceLocation },
    StringInterpolation { parts: Vec<StringInterpolationPart>, location: SourceLocation },
    Match { expr: Box<Expression>, arms: Vec<MatchArm>, location: SourceLocation },
    StructLiteral { name: String, fields: Vec<(String, Expression)>, location: SourceLocation },
}

#[derive(Debug)]
pub struct MatchArm {
    pub pattern: Pattern,
    pub body: Vec<Statement>,
    pub location: SourceLocation,
}

#[derive(Debug)]
pub enum Pattern {
    Literal(Literal, SourceLocation),
    Variable(String, SourceLocation),
    Wildcard(SourceLocation),
    Ident(String, SourceLocation),
}

#[derive(Debug)]
pub enum StringInterpolationPart {
    Literal(String),
    Variable(String),
}

/// Literal values. A float literal keeps its source spelling: the front end
/// never computes with the value, and the spelling is what later phases need.
#[derive(Debug)]
pub enum Literal {
    Int(i64),
    Float(String),
    Bool(bool),
    String(String),
}

#[derive(Clone, Copy, PartialEq, Eq, Structural, Debug)]
pub enum BinaryOp {
    Add,
    Sub,
    Mul,
    Div,
    Mod,
    Eq,
    Ne,
    Lt,
    Le,
    Gt,
    Ge,
    And,
    Or,
}

#[derive(Clone, Copy, PartialEq, Eq, Structural, Debug)]
pub enum UnaryOp {
    Neg,
    Not,
}

// ---------------------------------------------------------------------------
// Ghost views of the tree
// ---------------------------------------------------------------------------

/// The mathematical counterpart of `Type`, with names as character sequences.
pub ghost enum TyV {
    I32,
    I64,
    F32,
    F64,
    Bool,
    Str,
    Array(Box<TyV>),
    Optional(Box<TyV>),
    Struct(Seq<char>),
    Component(Seq<char>),
    Query(Seq<TyV>),
    Void,
    VkInstance,
    VkDevice,
    VkResult,
    VkPhysicalDevice,
    VkQueue,
    VkCommandPool,
    VkCommandBuffer,
    VkSwapchainKHR,
    VkSurfaceKHR,
    VkRenderPass,
    VkPipeline,
    VkFramebuffer,
    VkBuffer,
    VkImage,
    VkImageView,
    VkSemaphore,
    VkFence,
    GLFWwindow,
    GLFWbool,
    Vec2,
    Vec3,
    Vec4,
    Mat4,
    Error,
}

pub ghost enum LitV {
    Int(i64),
    Float(Seq<char>),
    Bool(bool),
    Str(Seq<char>),
}

pub ghost enum InterpPartV {
    Literal(Seq<char>),
    Variable(Seq<char>),
}

pub ghost enum PatternV {
    Literal(LitV, SourceLocation),
    Variable(Seq<char>, SourceLocation),
    Wildcard(SourceLocation),
    Ident(Seq<char>, SourceLocation),
}

pub ghost enum ExprV {
    Literal(LitV, SourceLocation),
    Variable(Seq<char>, SourceLocation),
    BinaryOp { op: BinaryOp, left: Box<ExprV>, right: Box<ExprV>, location: SourceLocation },
    UnaryOp { op: UnaryOp, expr: Box<ExprV>, location: SourceLocation },
    Call { name: Seq<char>, args: Seq<ExprV>, location: SourceLocation },
    MemberAccess { object: Box<ExprV>, member: Seq<char>, location: SourceLocation },
    Index { array: Box<ExprV>, index: Box<ExprV>, location: SourceLocation },
    ArrayLiteral { elements: Seq<ExprV>, location: SourceLocation },
    StringInterpolation { parts: Seq<InterpPartV>, location: SourceLocation },
    Match { expr: Box<ExprV>, arms: Seq<MatchArmV>, location: SourceLocation },
    StructLiteral { name: Seq<char>, fields: Seq<(Seq<char>, ExprV)>, location: SourceLocation },
}

pub ghost struct MatchArmV {
    pub pattern: PatternV,
    pub body: Seq<StmtV>,
    pub location: SourceLocation,
}

pub ghost enum StmtV {
    Let { name: Seq<char>, ty: Option<TyV>, value: ExprV, location: SourceLocation },
    Assign { target: ExprV, value: ExprV, location: SourceLocation },
    If { condition: ExprV, then_block: Seq<StmtV>, else_block: Option<Seq<StmtV>>, location: SourceLocation },
    While { condition: ExprV, body: Seq<StmtV>, location: SourceLocation },
    For { iterator: Seq<char>, collection: ExprV, body: Seq<StmtV>, location: SourceLocation },
    Loop { body: Seq<StmtV>, location: SourceLocation },
    Return(Option<ExprV>, SourceLocation),
    Break(SourceLocation),
    Continue(SourceLocation),
    Defer(Box<ExprV>, SourceLocation),
    Expression(ExprV, SourceLocation),
    Block(Seq<StmtV>, SourceLocation),
}

pub ghost struct FieldV {
    pub name: Seq<char>,
    pub ty: TyV,
}

pub ghost struct ParamV {
    pub name: Seq<char>,
    pub ty: TyV,
}

pub ghost struct StructDefV {
    pub name: Seq<char>,
    pub fields: Seq<FieldV>,
}

pub ghost struct ComponentDefV {
    pub name: Seq<char>,
    pub fields: Seq<FieldV>,
    pub is_soa: bool,
    pub is_hot: bool,
    pub is_cuda: bool,
}

pub ghost struct FunctionDefV {
    pub name: Seq<char>,
    pub params: Seq<ParamV>,
    pub return_type: TyV,
    pub body: Seq<StmtV>,
    pub cuda_kernel: Option<Seq<char>>,
}

pub ghost struct SystemDefV {
    pub name: Seq<char>,
    pub functions: Seq<FunctionDefV>,
    pub is_hot: bool,
}

pub ghost struct ShaderDefV {
    pub stage: ShaderStage,
    pub path: Seq<char>,
    pub is_hot: bool,
}

pub ghost struct ExternFunctionDefV {
    pub name: Seq<char>,
    pub params: Seq<ParamV>,
    pub return_type: TyV,
    pub library: Option<Seq<char>>,
}

pub ghost struct ResourceDefV {
    pub name: Seq<char>,
    pub resource_type: Seq<char>,
    pub path: Seq<char>,
    pub is_hot: bool,
}

pub ghost enum BindingTypeV {
    Uniform(Seq<char>),
    Storage(Seq<char>),
    Sampler2D,
}

pub ghost struct LayoutBindingV {
    pub binding: u32,
    pub binding_type: BindingTypeV,
    pub name: Seq<char>,
}

pub ghost struct PipelineLayoutV {
    pub bindings: Seq<LayoutBindingV>,
}

pub ghost struct PipelineShaderV {
    pub stage: ShaderStage,
    pub path: Seq<char>,
}

pub ghost struct PipelineDefV {
    pub name: Seq<char>,
    pub shaders: Seq<PipelineShaderV>,
    pub layout: Option<PipelineLayoutV>,
}

pub ghost enum ItemV {
    Struct(StructDefV),
    Component(ComponentDefV),
    System(SystemDefV),
    Shader(ShaderDefV),
    Function(FunctionDefV),
    ExternFunction(ExternFunctionDefV),
    Resource(ResourceDefV),
    Pipeline(PipelineDefV),
}

pub ghost struct ProgramV {
    pub items: Seq<ItemV>,
}

// ---------------------------------------------------------------------------
// View functions
// ---------------------------------------------------------------------------

pub open spec fn vty(t: Type) -> TyV
    decreases t,
{
    match t {
        Type::I32 => TyV::I32,
        Type::I64 => TyV::I64,
        Type::F32 => TyV::F32,
        Type::F64 => TyV::F64,
        Type::Bool => TyV::Bool,
        Type::String => TyV::Str,
        Type::Array(e) => TyV::Array(Box::new(vty(*e))),
        Type::Optional(e) => TyV::Optional(Box::new(vty(*e))),
        Type::Struct(n) => TyV::Struct(n@),
        Type::Component(n) => TyV::Component(n@),
        Type::Query(v) => TyV::Query(vty_vec(v, 0)),
        Type::Void => TyV::Void,
        Type::VkInstance => TyV::VkInstance,
        Type::VkDevice => TyV::VkDevice,
        Type::VkResult => TyV::VkResult,
        Type::VkPhysicalDevice => TyV::VkPhysicalDevice,
        Type::VkQueue => TyV::VkQueue,
        Type::VkCommandPool => TyV::VkCommandPool,
        Type::VkCommandBuffer => TyV::VkCommandBuffer,
        Type::VkSwapchainKHR => TyV::VkSwapchainKHR,
        Type::VkSurfaceKHR => TyV::VkSurfaceKHR,
        Type::VkRenderPass => TyV::VkRenderPass,
        Type::VkPipeline => TyV::VkPipeline,
        Type::VkFramebuffer => TyV::VkFramebuffer,
        Type::VkBuffer => TyV::VkBuffer,
        Type::VkImage => TyV::VkImage,
        Type::VkImageView => TyV::VkImageView,
        Type::VkSemaphore => TyV::VkSemaphore,
        Type::VkFence => TyV::VkFence,
        Type::GLFWwindow => TyV::GLFWwindow,
        Type::GLFWbool => TyV::GLFWbool,
        Type::Vec2 => TyV::Vec2,
        Type::Vec3 => TyV::Vec3,
        Type::Vec4 => TyV::Vec4,
        Type::Mat4 => TyV::Mat4,
        Type::Error => TyV::Error,
    }
}

pub open spec fn vty_vec(v: Vec<Type>, i: int) -> Seq<TyV>
    decreases v, v@.len() - i + 1,
{
    if i < 0 || i >= v@.len() {
        Seq::<TyV>::empty()
    } else {
        seq![vty(v@[i])] + vty_vec(v, i + 1)
    }
}

pub open spec fn vlit(l: Literal) -> LitV {
    match l {
        Literal::Int(n) => LitV::Int(n),
        Literal::Float(s) => LitV::Float(s@),
        Literal::Bool(b) => LitV::Bool(b),
        Literal::String(s) => LitV::Str(s@),
    }
}

pub open spec fn vpart(p: StringInterpolationPart) -> InterpPartV {
    match p {
        StringInterpolationPart::Literal(s) => InterpPartV::Literal(s@),
        StringInterpolationPart::Variable(s) => InterpPartV::Variable(s@),
    }
}

pub open spec fn vpattern(p: Pattern) -> PatternV {
    match p {
        Pattern::Literal(l, loc) => PatternV::Literal(vlit(l), loc),
        Pattern::Variable(n, loc) => PatternV::Variable(n@, loc),
        Pattern::Wildcard(loc) => PatternV::Wildcard(loc),
        Pattern::Ident(n, loc) => PatternV::Ident(n@, loc),
    }
}

pub open spec fn vexpr(e: Expression) -> ExprV
    decreases e, 0nat,
{
    match e {
        Expression::Literal(l, loc) => ExprV::Literal(vlit(l), loc),
        Expression::Variable(n, loc) => ExprV::Variable(n@, loc),
        Expression::BinaryOp { op, left, right, location } => ExprV::BinaryOp {
            op,
            left: Box::new(vexpr(*left)),
            right: Box::new(vexpr(*right)),
            location,
        },
        Expression::UnaryOp { op, expr, location } => ExprV::UnaryOp {
            op,
            expr: Box::new(vexpr(*expr)),
            location,
        },
        Expression::Call { name, args, location } => ExprV::Call {
            name: name@,
            args: vexpr_vec(args, 0),
            location,
        },
        Expression::MemberAccess { object, member, location } => ExprV::MemberAccess {
            object: Box::new(vexpr(*object)),
            member: member@,
            location,
        },
        Expression::Index { array, index, location } => ExprV::Index {
            array: Box::new(vexpr(*array)),
            index: Box::new(vexpr(*index)),
            location,
        },
        Expression::ArrayLiteral { elements, location } => ExprV::ArrayLiteral {
            elements: vexpr_vec(elements, 0),
            location,
        },
        Expression::StringInterpolation { parts, location } => ExprV::StringInterpolation {
            parts: parts@.map_values(|p: StringInterpolationPart| vpart(p)),
            location,
        },
        Expression::Match { expr, arms, location } => ExprV::Match {
            expr: Box::new(vexpr(*expr)),
            arms: varm_vec(arms, 0),
            location,
        },
        Expression::StructLiteral { name, fields, location } => ExprV::StructLiteral {
            name: name@,
            fields: vfieldinit_vec(fields, 0),
            location,
        },
    }
}

pub open spec fn vexpr_vec(v: Vec<Expression>, i: int) -> Seq<ExprV>
    decreases v, v@.len() - i + 1,
{
    if i < 0 || i >= v@.len() {
        Seq::<ExprV>::empty()
    } else {
        seq![vexpr(v@[i])] + vexpr_vec(v, i + 1)
    }
}

pub open spec fn vfieldinit_vec(v: Vec<(String, Expression)>, i: int) -> Seq<(Seq<char>, ExprV)>
    decreases v, v@.len() - i + 1,
{
    if i < 0 || i >= v@.len() {
        Seq::<(Seq<char>, ExprV)>::empty()
    } else {
        seq![(v@[i].0@, vexpr(v@[i].1))] + vfieldinit_vec(v, i + 1)
    }
}

pub open spec fn varm(a: MatchArm) -> MatchArmV
    decreases a, 0nat,
{
    MatchArmV {
        pattern: vpattern(a.pattern),
        body: vstmt_vec(a.body, 0),
        location: a.location,
    }
}

pub open spec fn varm_vec(v: Vec<MatchArm>, i: int) -> Seq<MatchArmV>
    decreases v, v@.len() - i + 1,
{
    if i < 0 || i >= v@.len() {
        Seq::<MatchArmV>::empty()
    } else {
        seq![varm(v@[i])] + varm_vec(v, i + 1)
    }
}

pub open spec fn vstmt(s: Statement) -> StmtV
    decreases s, 0nat,
{
    match s {
        Statement::Let { name, ty, value, location } => StmtV::Let {
            name: name@,
            ty: match ty { Some(t) => Some(vty(t)), None => None },
            value: vexpr(value),
            location,
        },
        Statement::Assign { target, value, location } => StmtV::Assign {
            target: vexpr(target),
            value: vexpr(value),
            location,
        },
        Statement::If { condition, then_block, else_block, location } => StmtV::If {
            condition: vexpr(condition),
            then_block: vstmt_vec(then_block, 0),
            else_block: match else_block { Some(b) => Some(vstmt_vec(b, 0)), None => None },
            location,
        },
        Statement::While { condition, body, location } => StmtV::While {
            condition: vexpr(condition),
            body: vstmt_vec(body, 0),
            location,
        },
        Statement::For { iterator, collection, body, location } => StmtV::For {
            iterator: iterator@,
            collection: vexpr(collection),
            body: vstmt_vec(body, 0),
            location,
        },
        Statement::Loop { body, location } => StmtV::Loop {
            body: vstmt_vec(body, 0),
            location,
        },
        Statement::Return(e, loc) => StmtV::Return(
            match e { Some(e0) => Some(vexpr(e0)), None => None },
            loc,
        ),
        Statement::Break(loc) => StmtV::Break(loc),
        Statement::Continue(loc) => StmtV::Continue(loc),
        Statement::Defer(e, loc) => StmtV::Defer(Box::new(vexpr(*e)), loc),
        Statement::Expression(e, loc) => StmtV::Expression(vexpr(e), loc),
        Statement::Block(b, loc) => StmtV::Block(vstmt_vec(b, 0), loc),
    }
}

pub open spec fn vstmt_vec(v: Vec<Statement>, i: int) -> Seq<StmtV>
    decreases v, v@.len() - i + 1,
{
    if i < 0 || i >= v@.len() {
        Seq::<StmtV>::empty()
    } else {
        seq![vstmt(v@[i])] + vstmt_vec(v, i + 1)
    }
}

pub open spec fn vfield(f: Field) -> FieldV {
    FieldV { name: f.name@, ty: vty(f.ty) }
}

pub open spec fn vparam(p: Param) -> ParamV {
    ParamV { name: p.name@, ty: vty(p.ty) }
}

pub open spec fn vstructdef(s: StructDef) -> StructDefV {
    StructDefV {
        name: s.name@,
        fields: s.fields@.map_values(|f: Field| vfield(f)),
    }
}

pub open spec fn vcomponentdef(c: ComponentDef) -> ComponentDefV {
    ComponentDefV {
        name: c.name@,
        fields: c.fields@.map_values(|f: Field| vfield(f)),
        is_soa: c.is_soa,
        is_hot: c.is_hot,
        is_cuda: c.is_cuda,
    }
}

pub open spec fn vfndef(f: FunctionDef) -> FunctionDefV {
    FunctionDefV {
        name: f.name@,
        params: f.params@.map_values(|p: Param| vparam(p)),
        return_type: vty(f.return_type),
        body: vstmt_vec(f.body, 0),
        cuda_kernel: match f.cuda_kernel { Some(k) => Some(k@), None => None },
    }
}

pub open spec fn vsystemdef(s: SystemDef) -> SystemDefV {
    SystemDefV {
        name: s.name@,
        functions: s.functions@.map_values(|f: FunctionDef| vfndef(f)),
        is_hot: s.is_hot,
    }
}

pub open spec fn vshaderdef(s: ShaderDef) -> ShaderDefV {
    ShaderDefV { stage: s.stage, path: s.path@, is_hot: s.is_hot }
}

pub open spec fn vexterndef(e: ExternFunctionDef) -> ExternFunctionDefV {
    ExternFunctionDefV {
        name: e.name@,
        params: e.params@.map_values(|p: Param| vparam(p)),
        return_type: vty(e.return_type),
        library: match e.library { Some(l) => Some(l@), None => None },
    }
}

pub open spec fn vresourcedef(r: ResourceDef) -> ResourceDefV {
    ResourceDefV {
        name: r.name@,
        resource_type: r.resource_type@,
        path: r.path@,
        is_hot: r.is_hot,
    }
}

pub open spec fn vbindingtype(b: BindingType) -> BindingTypeV {
    match b {
        BindingType::Uniform(n) => BindingTypeV::Uniform(n@),
        BindingType::Storage(n) => BindingTypeV::Storage(n@),
        BindingType::Sampler2D => BindingTypeV::Sampler2D,
    }
}

pub open spec fn vlayoutbinding(b: LayoutBinding) -> LayoutBindingV {
    LayoutBindingV {
        binding: b.binding,
        binding_type: vbindingtype(b.binding_type),
        name: b.name@,
    }
}

pub open spec fn vpipelinedef(p: PipelineDef) -> PipelineDefV {
    PipelineDefV {
        name: p.name@,
        shaders: p.shaders@.map_values(|s: PipelineShader| PipelineShaderV { stage: s.stage, path: s.path@ }),
        layout: match p.layout {
            Some(l) => Some(PipelineLayoutV {
                bindings: l.bindings@.map_values(|b: LayoutBinding| vlayoutbinding(b)),
            }),
            None => None,
        },
    }
}

pub open spec fn vitem(i: Item) -> ItemV {
    match i {
        Item::Struct(s) => ItemV::Struct(vstructdef(s)),
        Item::Component(c) => ItemV::Component(vcomponentdef(c)),
        Item::System(s) => ItemV::System(vsystemdef(s)),
        Item::Shader(s) => ItemV::Shader(vshaderdef(s)),
        Item::Function(f) => ItemV::Function(vfndef(f)),
        Item::ExternFunction(e) => ItemV::ExternFunction(vexterndef(e)),
        Item::Resource(r) => ItemV::Resource(vresourcedef(r)),
        Item::Pipeline(p) => ItemV::Pipeline(vpipelinedef(p)),
    }
}

pub open spec fn vprogram(p: Program) -> ProgramV {
    ProgramV { items: p.items@.map_values(|i: Item| vitem(i)) }
}

// ---------------------------------------------------------------------------
// Facts about the vector views
// ---------------------------------------------------------------------------

pub proof fn lemma_vty_vec(v: Vec<Type>, i: int)
    requires
        0 <= i <= v@.len(),
    ensures
        vty_vec(v, i).len() == v@.len() - i,
        forall|j: int| 0 <= j < v@.len() - i ==> vty_vec(v, i)[j] == vty(v@[i + j]),
    decreases v@.len() - i,
{
    if i < v@.len() {
        lemma_vty_vec(v, i + 1);
    }
}

pub proof fn lemma_vexpr_vec(v: Vec<Expression>, i: int)
    requires
        0 <= i <= v@.len(),
    ensures
        vexpr_vec(v, i).len() == v@.len() - i,
        forall|j: int| 0 <= j < v@.len() - i ==> vexpr_vec(v, i)[j] == vexpr(v@[i + j]),
    decreases v@.len() - i,
{
    if i < v@.len() {
        lemma_vexpr_vec(v, i + 1);
    }
}

pub proof fn lemma_vstmt_vec(v: Vec<Statement>, i: int)
    requires
        0 <= i <= v@.len(),
    ensures
        vstmt_vec(v, i).len() == v@.len() - i,
        forall|j: int| 0 <= j < v@.len() - i ==> vstmt_vec(v, i)[j] == vstmt(v@[i + j]),
    decreases v@.len() - i,
{
    if i < v@.len() {
        lemma_vstmt_vec(v, i + 1);
    }
}

pub proof fn lemma_varm_vec(v: Vec<MatchArm>, i: int)
    requires
        0 <= i <= v@.len(),
    ensures
        varm_vec(v, i).len() == v@.len() - i,
        forall|j: int| 0 <= j < v@.len() - i ==> varm_vec(v, i)[j] == varm(v@[i + j]),
    decreases v@.len() - i,
{
    if i < v@.len() {
        lemma_varm_vec(v, i + 1);
    }
}

pub proof fn lemma_vfieldinit_vec(v: Vec<(String, Expression)>, i: int)
    requires
        0 <= i <= v@.len(),
    ensures
        vfieldinit_vec(v, i).len() == v@.len() - i,
        forall|j: int| 0 <= j < v@.len() - i
            ==> vfieldinit_vec(v, i)[j] == (v@[i + j].0@, vexpr(v@[i + j].1)),
    decreases v@.len() - i,
{
    if i < v@.len() {
        lemma_vfieldinit_vec(v, i + 1);
    }
}

/// The view map keeps the constructor of a type.
pub proof fn lemma_vty_shape(t: Type)
    ensures
        (t is I32) <==> (vty(t) is I32),
        (t is I64) <==> (vty(t) is I64),
        (t is F32) <==> (vty(t) is F32),
        (t is F64) <==> (vty(t) is F64),
        (t is Bool) <==> (vty(t) is Bool),
        (t is String) <==> (vty(t) is Str),
        (t is Void) <==> (vty(t) is Void),
        (t is Error) <==> (vty(t) is Error),
        (t is Array) <==> (vty(t) is Array),
        (t is Optional) <==> (vty(t) is Optional),
        (t is Query) <==> (vty(t) is Query),
        (t is Struct) <==> (vty(t) is Struct),
        (t is Component) <==> (vty(t) is Component),
{
    match t {
        Type::I32 => {},
        Type::I64 => {},
        Type::F32 => {},
        Type::F64 => {},
        Type::Bool => {},
        Type::String => {},
        Type::Array(_) => {},
        Type::Optional(_) => {},
        Type::Struct(_) => {},
        Type::Component(_) => {},
        Type::Query(_) => {},
        Type::Void => {},
        Type::VkInstance => {},
        Type::VkDevice => {},
        Type::VkResult => {},
        Type::VkPhysicalDevice => {},
        Type::VkQueue => {},
        Type::VkCommandPool => {},
        Type::VkCommandBuffer => {},
        Type::VkSwapchainKHR => {},
        Type::VkSurfaceKHR => {},
        Type::VkRenderPass => {},
        Type::VkPipeline => {},
        Type::VkFramebuffer => {},
        Type::VkBuffer => {},
        Type::VkImage => {},
        Type::VkImageView => {},
        Type::VkSemaphore => {},
        Type::VkFence => {},
        Type::GLFWwindow => {},
        Type::GLFWbool => {},
        Type::Vec2 => {},
        Type::Vec3 => {},
        Type::Vec4 => {},
        Type::Mat4 => {},
        Type::Error => {},
    }
}

/// The view map keeps the constructor of a pattern.
pub proof fn lemma_vpattern_is_variable(p: Pattern)
    ensures
        (p is Variable) <==> (vpattern(p) is Variable),
{
    match p {
        Pattern::Literal(..) => {},
        Pattern::Variable(..) => {},
        Pattern::Wildcard(..) => {},
        Pattern::Ident(..) => {},
    }
}

/// The view map keeps the constructor: an expression views to a variable
/// reference exactly when it is one.
pub proof fn lemma_vexpr_is_variable(e: Expression)
    ensures
        (e is Variable) <==> (vexpr(e) is Variable),
{
    match e {
        Expression::Literal(..) => {},
        Expression::Variable(..) => {},
        Expression::BinaryOp { .. } => {},
        Expression::UnaryOp { .. } => {},
        Expression::Call { .. } => {},
        Expression::MemberAccess { .. } => {},
        Expression::Index { .. } => {},
        Expression::ArrayLiteral { .. } => {},
        Expression::StringInterpolation { .. } => {},
        Expression::Match { .. } => {},
        Expression::StructLiteral { .. } => {},
    }
}

// ---------------------------------------------------------------------------
// Locations of nodes
// ---------------------------------------------------------------------------

pub open spec fn spec_stmt_loc(s: StmtV) -> SourceLocation {
    match s {
        StmtV::Let { location, .. } => location,
        StmtV::Assign { location, .. } => location,
        StmtV::If { location, .. } => location,
        StmtV::While { location, .. } => location,
        StmtV::For { location, .. } => location,
        StmtV::Loop { location, .. } => location,
        StmtV::Return(_, location) => location,
        StmtV::Break(location) => location,
        StmtV::Continue(location) => location,
        StmtV::Defer(_, location) => location,
        StmtV::Expression(_, location) => location,
        StmtV::Block(_, location) => location,
    }
}

pub open spec fn spec_expr_loc(e: ExprV) -> SourceLocation {
    match e {
        ExprV::Literal(_, location) => location,
        ExprV::Variable(_, location) => location,
        ExprV::BinaryOp { location, .. } => location,
        ExprV::UnaryOp { location, .. } => location,
        ExprV::Call { location, .. } => location,
        ExprV::MemberAccess { location, .. } => location,
        ExprV::Index { location, .. } => location,
        ExprV::ArrayLiteral { location, .. } => location,
        ExprV::StringInterpolation { location, .. } => location,
        ExprV::Match { location, .. } => location,
        ExprV::StructLiteral { location, .. } => location,
    }
}

impl Statement {
    /// The source location attached to this statement.
    pub fn location(&self) -> (r: SourceLocation)
        ensures
            r == spec_stmt_loc(vstmt(*self)),
    {
        match self {
            Statement::Let { location, .. } => *location,
            Statement::Assign { location, .. } => *location,
            Statement::If { location, .. } => *location,
            Statement::While { location, .. } => *location,
            Statement::For { location, .. } => *location,
            Statement::Loop { location, .. } => *location,
            Statement::Return(_, location) => *location,
            Statement::Break(location) => *location,
            Statement::Continue(location) => *location,
            Statement::Defer(_, location) => *location,
            Statement::Expression(_, location) => *location,
            Statement::Block(_, location) => *location,
        }
    }
}

impl Expression {
    /// The source location attached to this expression.
    pub fn location(&self) -> (r: SourceLocation)
        ensures
            r == spec_expr_loc(vexpr(*self)),
    {
        match self {
            Expression::Literal(_, location) => *location,
            Expression::Variable(_, location) => *location,
            Expression::BinaryOp { location, .. } => *location,
            Expression::UnaryOp { location, .. } => *location,
            Expression::Call { location, .. } => *location,
            Expression::MemberAccess { location, .. } => *location,
            Expression::Index { location, .. } => *location,
            Expression::ArrayLiteral { location, .. } => *location,
            Expression::StringInterpolation { location, .. } => *location,
            Expression::Match { location, .. } => *location,
            Expression::StructLiteral { location, .. } => *location,
        }
    }
}

// ---------------------------------------------------------------------------
// Cloning, preserving the view
// ---------------------------------------------------------------------------

/// Clones a type; the clone has the same view.
pub fn clone_type(t: &Type) -> (r: Type)
    ensures
        vty(r) == vty(*t),
    decreases *t,
{
    match t {
        Type::I32 => Type::I32,
        Type::I64 => Type::I64,
        Type::F32 => Type::F32,
        Type::F64 => Type::F64,
        Type::Bool => Type::Bool,
        Type::String => Type::String,
        Type::Array(e) => Type::Array(Box::new(clone_type(e))),
        Type::Optional(e) => Type::Optional(Box::new(clone_type(e))),
        Type::Struct(n) => Type::Struct(n.clone()),
        Type::Component(n) => Type::Component(n.clone()),
        Type::Query(v) => {
            let mut out: Vec<Type> = Vec::new();
            let mut i: usize = 0;
            proof {
                lemma_vty_vec(*v, 0);
            }
            while i < v.len()
                invariant
                    (decreases_to!(*t => *v)),
                    i <= v@.len(),
                    vty_vec(*v, 0).len() == v@.len(),
                    forall|j: int| 0 <= j < v@.len() ==> vty_vec(*v, 0)[j] == vty(v@[j]),
                    out@.len() == i,
                    forall|j: int| 0 <= j < i ==> vty(out@[j]) == vty(v@[j]),
                decreases v@.len() - i,
            {
                proof {
                    broadcast use vstd::std_specs::vec::axiom_vec_index_decreases;
                    assert(decreases_to!(*v => v@[i as int]));
                }
                let c = clone_type(&v[i]);
                out.push(c);
                i = i + 1;
            }
            proof {
                lemma_vty_vec(out, 0);
                assert(vty_vec(out, 0) =~= vty_vec(*v, 0));
            }
            Type::Query(out)
        },
        Type::Void => Type::Void,
        Type::VkInstance => Type::VkInstance,
        Type::VkDevice => Type::VkDevice,
        Type::VkResult => Type::VkResult,
        Type::VkPhysicalDevice => Type::VkPhysicalDevice,
        Type::VkQueue => Type::VkQueue,
        Type::VkCommandPool => Type::VkCommandPool,
        Type::VkCommandBuffer => Type::VkCommandBuffer,
        Type::VkSwapchainKHR => Type::VkSwapchainKHR,
        Type::VkSurfaceKHR => Type::VkSurfaceKHR,
        Type::VkRenderPass => Type::VkRenderPass,
        Type::VkPipeline => Type::VkPipeline,
        Type::VkFramebuffer => Type::VkFramebuffer,
        Type::VkBuffer => Type::VkBuffer,
        Type::VkImage => Type::VkImage,
        Type::VkImageView => Type::VkImageView,
        Type::VkSemaphore => Type::VkSemaphore,
        Type::VkFence => Type::VkFence,
        Type::GLFWwindow => Type::GLFWwindow,
        Type::GLFWbool => Type::GLFWbool,
        Type::Vec2 => Type::Vec2,
        Type::Vec3 => Type::Vec3,
        Type::Vec4 => Type::Vec4,
        Type::Mat4 => Type::Mat4,
        Type::Error => Type::Error,
    }
}

} // verus!
