//! The in-memory form of one parsed source file: an ordered sequence of
//! top-level declarations, each carrying only what the skeleton printer
//! reads — visibility, name, generic parameters, doc comments and the
//! kind-specific payload. Values are built once per file and never mutated.

use vstd::prelude::*;
use vstd::string::StringExecFns;

verus! {

/// Whether a declaration is accessible outside its defining scope.
pub enum Visibility {
    /// Default visibility: no leading token is printed.
    Private,
    /// Fully public: printed as a leading `pub `.
    Public,
    /// Restricted to an enclosing scope; the field holds the verbatim
    /// restriction clause as it appeared in the source, e.g. `pub (crate)`.
    Restricted(String),
}

/// One field of a struct, tuple struct, or enum-variant payload.
/// Positional (tuple-style) fields carry no name.
pub struct FieldDecl {
    pub vis: Visibility,
    pub name: Option<String>,
    pub ty: String,
}

/// The shape of a struct body or of an enum variant's payload.
pub enum StructFields {
    /// No field block at all (`struct Marker;`, payload-free variant).
    Unit,
    /// Brace-style fields, each with a name.
    Named(Vec<FieldDecl>),
    /// Parenthesised positional fields.
    Tuple(Vec<FieldDecl>),
}

/// A method signature inside a trait or impl block: the full signature
/// text with the body omitted, preceded by its own doc comments.
pub struct MethodSig {
    pub docs: Vec<String>,
    pub sig: String,
}

/// One enum variant: its name, its payload shape, and its doc comments.
pub struct VariantDecl {
    pub docs: Vec<String>,
    pub name: String,
    pub fields: StructFields,
}

/// A free function: the full signature text (name, parameters, return
/// type, generic bounds), body excluded.
pub struct FnDecl {
    pub docs: Vec<String>,
    pub vis: Visibility,
    pub sig: String,
}

/// A struct declaration. `generics` holds the parameter list verbatim
/// (empty when absent); `where_clause` the clause verbatim when present.
pub struct StructDecl {
    pub docs: Vec<String>,
    pub vis: Visibility,
    pub name: String,
    pub generics: String,
    pub fields: StructFields,
    pub where_clause: Option<String>,
}

/// An enum declaration with its ordered variants.
pub struct EnumDecl {
    pub docs: Vec<String>,
    pub vis: Visibility,
    pub name: String,
    pub generics: String,
    pub where_clause: Option<String>,
    pub variants: Vec<VariantDecl>,
}

/// A trait declaration: supertraits in source order, then the ordered
/// method signatures.
pub struct TraitDecl {
    pub docs: Vec<String>,
    pub vis: Visibility,
    pub name: String,
    pub generics: String,
    pub supertraits: Vec<String>,
    pub where_clause: Option<String>,
    pub methods: Vec<MethodSig>,
}

/// An implementation block: inherent when `trait_path` is `None`,
/// otherwise `impl TraitPath for SelfTy` (negative when `negative`).
pub struct ImplDecl {
    pub docs: Vec<String>,
    pub is_unsafe: bool,
    pub negative: bool,
    pub generics: String,
    pub trait_path: Option<String>,
    pub self_ty: String,
    pub where_clause: Option<String>,
    pub methods: Vec<MethodSig>,
}

/// One top-level declaration of a source file. `Other` stands for every
/// kind the skeleton does not cover; it renders to nothing.
pub enum Declaration {
    Function(FnDecl),
    Struct(StructDecl),
    Enum(EnumDecl),
    Trait(TraitDecl),
    Impl(ImplDecl),
    Other,
}

/// The parsed representation of one file: its top-level declarations in
/// source order.
pub struct SourceTree {
    pub decls: Vec<Declaration>,
}

/// The two failures that abort a scan, each naming the offending path.
pub enum ScanError {
    /// The file could not be read.
    Read { path: String },
    /// The file's contents were not valid source syntax.
    Parse { path: String },
}

/// The message text of a scan error, naming the offending path.
pub open spec fn spec_message(e: ScanError) -> Seq<char> {
    match e {
        ScanError::Read { path } => "Failed to read "@ + path@,
        ScanError::Parse { path } => "Failed to parse "@ + path@,
    }
}

impl ScanError {
    /// The human-readable message for this error, naming the path.
    pub fn message(&self) -> (r: String)
        ensures
            r@ == spec_message(*self),
    {
        match self {
            ScanError::Read { path } => {
                let mut s = String::new();
                s.append("Failed to read ");
                s.append(path.as_str());
                s
            },
            ScanError::Parse { path } => {
                let mut s = String::new();
                s.append("Failed to parse ");
                s.append(path.as_str());
                s
            },
        }
    }
}

} // verus!
