pub mod ast;
pub mod checker_spec;
pub mod compat;
pub mod error;
pub mod laws;
pub mod lexer;
pub mod messages;
pub mod parser;
pub mod parser_spec;
pub mod suggest;
pub mod text;
pub mod type_checker;

pub use ast::{
    Type, Program, Item, StructDef, ComponentDef, SystemDef, ShaderDef, ShaderStage, Field,
    Param, FunctionDef, ExternFunctionDef, ResourceDef, PipelineDef, PipelineShader,
    PipelineLayout, LayoutBinding, BindingType, Statement, Expression, MatchArm, Pattern,
    StringInterpolationPart, Literal, BinaryOp, UnaryOp,
};
pub use error::{SourceLocation, ErrorReporter, Diagnostic};
pub use lexer::{Lexer, Token, TokenWithLocation, LexError};
pub use parser::{Parser, ParseError};
pub use suggest::{levenshtein_distance, find_closest_match};
pub use type_checker::{TypeChecker, CheckError, FnSig};
