// These tests drive the renderer with values obtained from a real parse:
// the source text is parsed by syn and the token text of each piece is
// taken from its re-serialization, exactly as a caller of the library
// would obtain it.

use quote::ToTokens;
use skeleton::model::Declaration;
use skeleton::model::EnumDecl;
use skeleton::model::FieldDecl;
use skeleton::model::FnDecl;
use skeleton::model::SourceTree;
use skeleton::model::StructDecl;
use skeleton::model::StructFields;
use skeleton::model::VariantDecl;
use skeleton::model::Visibility;
use skeleton::render::render_file_block;
use skeleton::render::render_tree;

fn vis_of(v: &syn::Visibility) -> Visibility {
    match v {
        syn::Visibility::Public(_) => Visibility::Public,
        syn::Visibility::Restricted(_) => {
            Visibility::Restricted(v.to_token_stream().to_string())
        }
        syn::Visibility::Inherited => Visibility::Private,
    }
}

fn docs_of(attrs: &[syn::Attribute]) -> Vec<String> {
    let mut docs = Vec::new();
    for attr in attrs {
        if !attr.path().is_ident("doc") {
            continue;
        }
        if let syn::Meta::NameValue(nv) = &attr.meta {
            if let syn::Expr::Lit(expr_lit) = &nv.value {
                if let syn::Lit::Str(doc) = &expr_lit.lit {
                    docs.push(doc.value());
                }
            }
        }
    }
    docs
}

fn fields_of(fields: &syn::Fields) -> StructFields {
    let list = |fs: syn::punctuated::Iter<syn::Field>| -> Vec<FieldDecl> {
        fs.map(|f| FieldDecl {
            vis: vis_of(&f.vis),
            name: f.ident.as_ref().map(|i| i.to_string()),
            ty: f.ty.to_token_stream().to_string(),
        })
        .collect()
    };
    match fields {
        syn::Fields::Named(n) => StructFields::Named(list(n.named.iter())),
        syn::Fields::Unnamed(u) => StructFields::Tuple(list(u.unnamed.iter())),
        syn::Fields::Unit => StructFields::Unit,
    }
}

fn tree_of(src: &str) -> SourceTree {
    let file = syn::parse_file(src).expect("fixture parses");
    let mut decls = Vec::new();
    for item in &file.items {
        let decl = match item {
            syn::Item::Fn(f) => Declaration::Function(FnDecl {
                docs: docs_of(&f.attrs),
                vis: vis_of(&f.vis),
                sig: f.sig.to_token_stream().to_string(),
            }),
            syn::Item::Struct(s) => Declaration::Struct(StructDecl {
                docs: docs_of(&s.attrs),
                vis: vis_of(&s.vis),
                name: s.ident.to_string(),
                generics: s.generics.to_token_stream().to_string(),
                fields: fields_of(&s.fields),
                where_clause: s
                    .generics
                    .where_clause
                    .as_ref()
                    .map(|w| w.to_token_stream().to_string()),
            }),
            syn::Item::Enum(e) => Declaration::Enum(EnumDecl {
                docs: docs_of(&e.attrs),
                vis: vis_of(&e.vis),
                name: e.ident.to_string(),
                generics: e.generics.to_token_stream().to_string(),
                where_clause: e
                    .generics
                    .where_clause
                    .as_ref()
                    .map(|w| w.to_token_stream().to_string()),
                variants: e
                    .variants
                    .iter()
                    .map(|v| VariantDecl {
                        docs: docs_of(&v.attrs),
                        name: v.ident.to_string(),
                        fields: fields_of(&v.fields),
                    })
                    .collect(),
            }),
            _ => Declaration::Other,
        };
        decls.push(decl);
    }
    SourceTree { decls }
}

#[test]
fn parsed_public_function_matches_expected_skeleton() {
    let tree = tree_of("pub fn add(a: i32, b: i32) -> i32 { a + b }");
    let lines = render_file_block("src/math.rs", &tree);
    assert_eq!(
        lines,
        vec![
            "// ************* src/math.rs".to_string(),
            "pub fn add (a : i32 , b : i32) -> i32 ;".to_string(),
        ]
    );
}

#[test]
fn parsed_unit_struct_has_no_field_block() {
    let tree = tree_of("struct Marker;");
    assert_eq!(render_tree(&tree), vec!["struct Marker ;".to_string()]);
}

#[test]
fn parsed_enum_keeps_doc_on_its_variant_only() {
    let src = "enum Mode {\n    /// the quiet one\n    Quiet,\n    Loud(u32),\n}\n";
    let tree = tree_of(src);
    assert_eq!(
        render_tree(&tree),
        vec![
            "enum Mode {".to_string(),
            "    ///  the quiet one".to_string(),
            "    Quiet".to_string(),
            "    Loud (u32)".to_string(),
            "}".to_string(),
        ]
    );
}

#[test]
fn parsed_restricted_visibility_is_kept_verbatim() {
    let tree = tree_of("pub(crate) fn helper() {}");
    assert_eq!(
        render_tree(&tree),
        vec!["pub (crate) fn helper () ;".to_string()]
    );
}

#[test]
fn unparseable_source_is_rejected_by_the_parser() {
    assert!(syn::parse_file("fn broken( {").is_err());
}
