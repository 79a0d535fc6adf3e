use skeleton::model::Declaration;
use skeleton::model::FieldDecl;
use skeleton::model::FnDecl;
use skeleton::model::ImplDecl;
use skeleton::model::MethodSig;
use skeleton::model::ScanError;
use skeleton::model::SourceTree;
use skeleton::model::StructDecl;
use skeleton::model::StructFields;
use skeleton::model::TraitDecl;
use skeleton::model::Visibility;
use skeleton::render::field_list_text;
use skeleton::render::field_text;
use skeleton::render::fields_block_text;
use skeleton::render::header_line;
use skeleton::render::indent;
use skeleton::render::render_tree;
use skeleton::render::strip_fn_prefix;
use skeleton::render::visibility_text;

#[test]
fn indent_is_four_spaces_per_level() {
    assert_eq!(indent(0), "");
    assert_eq!(indent(1), "    ");
    assert_eq!(indent(3), "            ");
}

#[test]
fn visibility_tokens() {
    assert_eq!(visibility_text(&Visibility::Private), "");
    assert_eq!(visibility_text(&Visibility::Public), "pub ");
    assert_eq!(
        visibility_text(&Visibility::Restricted("pub (crate)".to_string())),
        "pub (crate) "
    );
}

#[test]
fn strip_fn_prefix_removes_leading_fn_token() {
    assert_eq!(strip_fn_prefix("fn next (& mut self)"), "next (& mut self)");
    assert_eq!(strip_fn_prefix("fn "), "");
    assert_eq!(strip_fn_prefix("fn"), "fn");
    assert_eq!(strip_fn_prefix("const fn f ()"), "const fn f ()");
    assert_eq!(strip_fn_prefix(""), "");
}

#[test]
fn field_text_named_and_positional() {
    let named = FieldDecl {
        vis: Visibility::Public,
        name: Some("i".to_string()),
        ty: "Box < Node >".to_string(),
    };
    assert_eq!(field_text(&named), "pub i : Box < Node >");
    let positional = FieldDecl {
        vis: Visibility::Private,
        name: None,
        ty: "i32".to_string(),
    };
    assert_eq!(field_text(&positional), "i32");
}

fn named_field(name: &str, ty: &str) -> FieldDecl {
    FieldDecl {
        vis: Visibility::Private,
        name: Some(name.to_string()),
        ty: ty.to_string(),
    }
}

#[test]
fn field_lists_join_with_commas() {
    assert_eq!(field_list_text(&Vec::<FieldDecl>::new()), "");
    assert_eq!(field_list_text(&vec![named_field("a", "u8")]), "a : u8");
    assert_eq!(
        field_list_text(&vec![named_field("a", "u8"), named_field("b", "u16")]),
        "a : u8 , b : u16"
    );
}

#[test]
fn fields_blocks() {
    assert_eq!(fields_block_text(&StructFields::Unit), "");
    assert_eq!(fields_block_text(&StructFields::Named(vec![])), "{ }");
    let f = FieldDecl {
        vis: Visibility::Private,
        name: None,
        ty: "String".to_string(),
    };
    assert_eq!(fields_block_text(&StructFields::Tuple(vec![f])), "(String)");
}

#[test]
fn header_line_has_fixed_marker() {
    assert_eq!(header_line("src/lib.rs"), "// ************* src/lib.rs");
    assert_eq!(header_line(""), "// ************* ");
}

#[test]
fn scan_error_messages_name_the_path() {
    let read = ScanError::Read {
        path: "a/b.rs".to_string(),
    };
    assert_eq!(read.message(), "Failed to read a/b.rs");
    let parse = ScanError::Parse {
        path: "c.rs".to_string(),
    };
    assert_eq!(parse.message(), "Failed to parse c.rs");
}

#[test]
fn struct_with_fields_keeps_block_inline() {
    let tree = SourceTree {
        decls: vec![Declaration::Struct(StructDecl {
            docs: vec![],
            vis: Visibility::Public,
            name: "Pair".to_string(),
            generics: "< T >".to_string(),
            fields: StructFields::Named(vec![
                FieldDecl {
                    vis: Visibility::Private,
                    name: Some("a".to_string()),
                    ty: "T".to_string(),
                },
                FieldDecl {
                    vis: Visibility::Private,
                    name: Some("b".to_string()),
                    ty: "T".to_string(),
                },
            ]),
            where_clause: Some("where T : Clone".to_string()),
        })],
    };
    let lines = render_tree(&tree);
    assert_eq!(
        lines,
        vec!["pub struct Pair< T > { a : T , b : T }where T : Clone".to_string()]
    );
}

#[test]
fn unit_struct_where_clause_follows_terminator() {
    let tree = SourceTree {
        decls: vec![Declaration::Struct(StructDecl {
            docs: vec![],
            vis: Visibility::Private,
            name: "Tag".to_string(),
            generics: "< T >".to_string(),
            fields: StructFields::Unit,
            where_clause: Some("where T : Copy".to_string()),
        })],
    };
    let lines = render_tree(&tree);
    assert_eq!(lines, vec!["struct Tag< T > ; where T : Copy".to_string()]);
}

#[test]
fn trait_block_with_supertraits_and_methods() {
    let tree = SourceTree {
        decls: vec![Declaration::Trait(TraitDecl {
            docs: vec![],
            vis: Visibility::Public,
            name: "Shape".to_string(),
            generics: "".to_string(),
            supertraits: vec!["Clone".to_string(), "Debug".to_string()],
            where_clause: None,
            methods: vec![
                MethodSig {
                    docs: vec![" the area".to_string()],
                    sig: "fn area (& self) -> f64".to_string(),
                },
                MethodSig {
                    docs: vec![],
                    sig: "fn name (& self) -> String".to_string(),
                },
            ],
        })],
    };
    let lines = render_tree(&tree);
    assert_eq!(
        lines,
        vec![
            "pub trait Shape: Clone + Debug {".to_string(),
            "    ///  the area".to_string(),
            "    fn area (& self) -> f64 ;".to_string(),
            "    fn name (& self) -> String ;".to_string(),
            "}".to_string(),
        ]
    );
}

#[test]
fn inherent_and_trait_impl_headers() {
    let inherent = SourceTree {
        decls: vec![Declaration::Impl(ImplDecl {
            docs: vec![],
            is_unsafe: false,
            negative: false,
            generics: "< T >".to_string(),
            trait_path: None,
            self_ty: "Stack < T >".to_string(),
            where_clause: None,
            methods: vec![MethodSig {
                docs: vec![],
                sig: "fn pop (& mut self) -> Option < T >".to_string(),
            }],
        })],
    };
    assert_eq!(
        render_tree(&inherent),
        vec![
            "impl< T > Stack < T > {".to_string(),
            "    fn pop (& mut self) -> Option < T > ;".to_string(),
            "}".to_string(),
        ]
    );
    let negative = SourceTree {
        decls: vec![Declaration::Impl(ImplDecl {
            docs: vec![],
            is_unsafe: true,
            negative: true,
            generics: "".to_string(),
            trait_path: Some("Send".to_string()),
            self_ty: "Token".to_string(),
            where_clause: Some("where Token : Sized".to_string()),
            methods: vec![],
        })],
    };
    assert_eq!(
        render_tree(&negative),
        vec![
            "unsafe impl ! Send for Token where Token : Sized {".to_string(),
            "}".to_string(),
        ]
    );
}

#[test]
fn unrecognized_declarations_render_nothing() {
    let tree = SourceTree {
        decls: vec![
            Declaration::Other,
            Declaration::Function(FnDecl {
                docs: vec![],
                vis: Visibility::Private,
                sig: "fn first ()".to_string(),
            }),
            Declaration::Other,
            Declaration::Function(FnDecl {
                docs: vec![],
                vis: Visibility::Private,
                sig: "fn second ()".to_string(),
            }),
            Declaration::Other,
        ],
    };
    let lines = render_tree(&tree);
    assert_eq!(
        lines,
        vec!["fn first () ;".to_string(), "fn second () ;".to_string()]
    );
}
