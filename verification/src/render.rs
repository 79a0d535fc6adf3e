//! The skeleton printer: turns one `SourceTree` into output lines.
//!
//! Every exec function here is specified against a spec-level rendering
//! (`spec_tree_lines` and its helpers), so the text produced for a given
//! tree is pinned down exactly: a line per function/struct declaration, a
//! braced block for enums, traits and impl blocks whose members sit one
//! indentation level (four spaces) deeper, doc-comment lines immediately
//! above the item they document, and no body text anywhere.

use vstd::prelude::*;
use vstd::string::{StrSliceExecFns, StringExecFns};

use crate::model::Declaration;
use crate::model::EnumDecl;
use crate::model::FieldDecl;
use crate::model::FnDecl;
use crate::model::ImplDecl;
use crate::model::MethodSig;
use crate::model::SourceTree;
use crate::model::StructDecl;
use crate::model::StructFields;
use crate::model::TraitDecl;
use crate::model::VariantDecl;
use crate::model::Visibility;

verus! {

/// The views of a sequence of output lines.
pub open spec fn line_views(lines: Seq<String>) -> Seq<Seq<char>> {
    lines.map_values(|s: String| s@)
}

/// `level` indentation blocks of four spaces each.
pub open spec fn spec_indent(level: nat) -> Seq<char>
    decreases level,
{
    if level == 0 {
        Seq::empty()
    } else {
        spec_indent((level - 1) as nat) + "    "@
    }
}

/// The leading visibility token: nothing, `pub `, or the verbatim
/// restriction clause followed by a space.
pub open spec fn spec_vis(v: Visibility) -> Seq<char> {
    match v {
        Visibility::Private => Seq::empty(),
        Visibility::Public => "pub "@,
        Visibility::Restricted(clause) => clause@ + " "@,
    }
}

/// One field: visibility, then `name : ` for named fields, then the type.
pub open spec fn spec_field(f: FieldDecl) -> Seq<char> {
    spec_vis(f.vis) + (match f.name {
        Some(n) => n@ + " : "@,
        None => Seq::empty(),
    }) + f.ty@
}

/// The fields joined by ` , `, in declaration order.
pub open spec fn spec_field_list(fs: Seq<FieldDecl>) -> Seq<char>
    decreases fs.len(),
{
    if fs.len() == 0 {
        Seq::empty()
    } else if fs.len() == 1 {
        spec_field(fs[0])
    } else {
        spec_field_list(fs.drop_last()) + " , "@ + spec_field(fs.last())
    }
}

/// The whole field block: nothing for a unit shape, braces for named
/// fields, parentheses for positional fields.
pub open spec fn spec_fields_block(fs: StructFields) -> Seq<char> {
    match fs {
        StructFields::Unit => Seq::empty(),
        StructFields::Named(v) => if v@.len() == 0 {
            "{ }"@
        } else {
            "{ "@ + spec_field_list(v@) + " }"@
        },
        StructFields::Tuple(v) => "("@ + spec_field_list(v@) + ")"@,
    }
}

/// A signature with a leading `fn ` token removed; anything else is kept
/// as it stands.
pub open spec fn spec_strip_fn(s: Seq<char>) -> Seq<char> {
    if s.len() >= 3 && s.subrange(0, 3) == "fn "@ {
        s.subrange(3, s.len() as int)
    } else {
        s
    }
}

/// A where-clause preceded by one space, or nothing.
pub open spec fn spec_where_spaced(w: Option<String>) -> Seq<char> {
    match w {
        None => Seq::empty(),
        Some(x) => " "@ + x@,
    }
}

/// A where-clause appended verbatim, or nothing.
pub open spec fn spec_where_verbatim(w: Option<String>) -> Seq<char> {
    match w {
        None => Seq::empty(),
        Some(x) => x@,
    }
}

/// One doc-comment line: indentation, the `/// ` marker, the text.
pub open spec fn spec_doc_line(doc: String, level: nat) -> Seq<char> {
    spec_indent(level) + "/// "@ + doc@
}

/// The doc-comment lines of one item, in source order.
pub open spec fn spec_doc_lines(docs: Seq<String>, level: nat) -> Seq<Seq<char>>
    decreases docs.len(),
{
    if docs.len() == 0 {
        Seq::empty()
    } else {
        spec_doc_lines(docs.drop_last(), level).push(spec_doc_line(docs.last(), level))
    }
}

/// The single line of a function declaration: visibility, the full
/// signature, a terminating ` ;`, and never a body.
pub open spec fn spec_fn_line(d: FnDecl, level: nat) -> Seq<char> {
    spec_indent(level) + spec_vis(d.vis) + d.sig@ + " ;"@
}

/// A function declaration: its doc comments, then its one line.
pub open spec fn spec_fn_lines(d: FnDecl, level: nat) -> Seq<Seq<char>> {
    spec_doc_lines(d.docs@, level).push(spec_fn_line(d, level))
}

/// The single line of a struct declaration. A unit struct ends in ` ;`
/// with its where-clause after; a struct with fields carries the whole
/// field block inline, the where-clause appended verbatim.
pub open spec fn spec_struct_line(d: StructDecl, level: nat) -> Seq<char> {
    match d.fields {
        StructFields::Unit => spec_indent(level) + spec_vis(d.vis) + "struct "@ + d.name@
            + d.generics@ + " ;"@ + spec_where_spaced(d.where_clause),
        _ => spec_indent(level) + spec_vis(d.vis) + "struct "@ + d.name@ + d.generics@ + " "@
            + spec_fields_block(d.fields) + spec_where_verbatim(d.where_clause),
    }
}

/// A struct declaration: its doc comments, then its one line.
pub open spec fn spec_struct_lines(d: StructDecl, level: nat) -> Seq<Seq<char>> {
    spec_doc_lines(d.docs@, level).push(spec_struct_line(d, level))
}

/// Supertraits joined by ` + `, in source order.
pub open spec fn spec_supertrait_list(ss: Seq<String>) -> Seq<char>
    decreases ss.len(),
{
    if ss.len() == 0 {
        Seq::empty()
    } else if ss.len() == 1 {
        ss[0]@
    } else {
        spec_supertrait_list(ss.drop_last()) + " + "@ + ss.last()@
    }
}

/// The `: Super1 + Super2` clause, or nothing when there are none.
pub open spec fn spec_supertrait_clause(ss: Seq<String>) -> Seq<char> {
    if ss.len() == 0 {
        Seq::empty()
    } else {
        ": "@ + spec_supertrait_list(ss)
    }
}

/// The closing brace of a block, at the block's own indentation.
pub open spec fn spec_close_line(level: nat) -> Seq<char> {
    spec_indent(level) + "}"@
}

/// The opening line of an enum block.
pub open spec fn spec_enum_header(d: EnumDecl, level: nat) -> Seq<char> {
    spec_indent(level) + spec_vis(d.vis) + "enum "@ + d.name@ + d.generics@
        + spec_where_spaced(d.where_clause) + " {"@
}

/// One variant's own text: its name, then its payload shape.
pub open spec fn spec_variant_text(v: VariantDecl) -> Seq<char> {
    v.name@ + (match v.fields {
        StructFields::Unit => Seq::<char>::empty(),
        _ => " "@ + spec_fields_block(v.fields),
    })
}

/// One variant: its doc comments, then its line, all at `level`.
pub open spec fn spec_variant_lines(v: VariantDecl, level: nat) -> Seq<Seq<char>> {
    spec_doc_lines(v.docs@, level).push(spec_indent(level) + spec_variant_text(v))
}

/// All variants of an enum, in source order.
pub open spec fn spec_variants_lines(vs: Seq<VariantDecl>, level: nat) -> Seq<Seq<char>>
    decreases vs.len(),
{
    if vs.len() == 0 {
        Seq::empty()
    } else {
        spec_variants_lines(vs.drop_last(), level) + spec_variant_lines(vs.last(), level)
    }
}

/// An enum declaration: doc comments, header, each variant one level
/// deeper, closing brace.
pub open spec fn spec_enum_lines(d: EnumDecl, level: nat) -> Seq<Seq<char>> {
    spec_doc_lines(d.docs@, level).push(spec_enum_header(d, level))
        + spec_variants_lines(d.variants@, (level + 1) as nat)
        + seq![spec_close_line(level)]
}

/// One method-signature line: `fn `, the signature with any leading
/// `fn ` token removed, a terminating ` ;`, and never a body.
pub open spec fn spec_method_line(m: MethodSig, level: nat) -> Seq<char> {
    spec_indent(level) + "fn "@ + spec_strip_fn(m.sig@) + " ;"@
}

/// One method: its doc comments, then its signature line.
pub open spec fn spec_method_lines(m: MethodSig, level: nat) -> Seq<Seq<char>> {
    spec_doc_lines(m.docs@, level).push(spec_method_line(m, level))
}

/// All methods of a trait or impl block, in source order.
pub open spec fn spec_methods_lines(ms: Seq<MethodSig>, level: nat) -> Seq<Seq<char>>
    decreases ms.len(),
{
    if ms.len() == 0 {
        Seq::empty()
    } else {
        spec_methods_lines(ms.drop_last(), level) + spec_method_lines(ms.last(), level)
    }
}

/// The opening line of a trait block.
pub open spec fn spec_trait_header(d: TraitDecl, level: nat) -> Seq<char> {
    spec_indent(level) + spec_vis(d.vis) + "trait "@ + d.name@ + d.generics@
        + spec_supertrait_clause(d.supertraits@) + spec_where_spaced(d.where_clause) + " {"@
}

/// A trait declaration: doc comments, header, each method signature one
/// level deeper, closing brace.
pub open spec fn spec_trait_lines(d: TraitDecl, level: nat) -> Seq<Seq<char>> {
    spec_doc_lines(d.docs@, level).push(spec_trait_header(d, level))
        + spec_methods_lines(d.methods@, (level + 1) as nat)
        + seq![spec_close_line(level)]
}

/// The opening line of an impl block: `impl Type` when inherent,
/// `impl TraitPath for Type` otherwise, with a leading `! ` token for a
/// negative implementation and `unsafe ` first when the block is unsafe.
pub open spec fn spec_impl_header(d: ImplDecl, level: nat) -> Seq<char> {
    spec_indent(level) + (if d.is_unsafe {
        "unsafe "@
    } else {
        Seq::<char>::empty()
    }) + "impl"@ + d.generics@ + " "@ + (match d.trait_path {
        Some(p) => (if d.negative {
            "! "@
        } else {
            Seq::<char>::empty()
        }) + p@ + " for "@,
        None => Seq::<char>::empty(),
    }) + d.self_ty@ + spec_where_spaced(d.where_clause) + " {"@
}

/// An impl block: doc comments, header, each method signature one level
/// deeper, closing brace.
pub open spec fn spec_impl_lines(d: ImplDecl, level: nat) -> Seq<Seq<char>> {
    spec_doc_lines(d.docs@, level).push(spec_impl_header(d, level))
        + spec_methods_lines(d.methods@, (level + 1) as nat)
        + seq![spec_close_line(level)]
}

/// The lines of one declaration. Unrecognized kinds render to nothing.
pub open spec fn spec_decl_lines(d: Declaration, level: nat) -> Seq<Seq<char>> {
    match d {
        Declaration::Function(f) => spec_fn_lines(f, level),
        Declaration::Struct(s) => spec_struct_lines(s, level),
        Declaration::Enum(e) => spec_enum_lines(e, level),
        Declaration::Trait(t) => spec_trait_lines(t, level),
        Declaration::Impl(i) => spec_impl_lines(i, level),
        Declaration::Other => Seq::empty(),
    }
}

/// The lines of a sequence of declarations, in source order.
pub open spec fn spec_decls_lines(ds: Seq<Declaration>, level: nat) -> Seq<Seq<char>>
    decreases ds.len(),
{
    if ds.len() == 0 {
        Seq::empty()
    } else {
        spec_decls_lines(ds.drop_last(), level) + spec_decl_lines(ds.last(), level)
    }
}

/// The whole rendering of one parsed file: its top-level declarations at
/// depth zero, in source order.
pub open spec fn spec_tree_lines(t: SourceTree) -> Seq<Seq<char>> {
    spec_decls_lines(t.decls@, 0)
}

/// The header line that opens a file's block of output: the fixed marker
/// followed by the path shown for the file.
pub open spec fn spec_header_line(path: Seq<char>) -> Seq<char> {
    "// ************* "@ + path
}

/// The whole output block of one file: its header line, then its
/// declaration lines.
pub open spec fn spec_file_block(path: Seq<char>, t: SourceTree) -> Seq<Seq<char>> {
    seq![spec_header_line(path)] + spec_tree_lines(t)
}

/// Builds `level` indentation blocks.
pub fn indent(level: usize) -> (r: String)
    ensures
        r@ == spec_indent(level as nat),
{
    let mut s = String::new();
    let mut i: usize = 0;
    while i < level
        invariant
            i <= level,
            s@ == spec_indent(i as nat),
        decreases level - i,
    {
        s.append("    ");
        i = i + 1;
    }
    s
}

/// Builds the leading visibility token for a declaration or field.
pub fn visibility_text(v: &Visibility) -> (r: String)
    ensures
        r@ == spec_vis(*v),
{
    match v {
        Visibility::Private => String::new(),
        Visibility::Public => String::from_str("pub "),
        Visibility::Restricted(clause) => {
            let mut s = String::from_str(clause.as_str());
            s.append(" ");
            s
        },
    }
}

/// Removes a leading `fn ` token from a signature, if present.
pub fn strip_fn_prefix<'a>(s: &'a str) -> (r: &'a str)
    ensures
        r@ == spec_strip_fn(s@),
{
    let n = s.unicode_len();
    if n >= 3 {
        let c0 = s.get_char(0);
        let c1 = s.get_char(1);
        let c2 = s.get_char(2);
        proof {
            reveal_strlit("fn ");
        }
        if c0 == 'f' && c1 == 'n' && c2 == ' ' {
            proof {
                assert(s@.subrange(0, 3) =~= "fn "@);
            }
            return s.substring_char(3, n);
        }
        proof {
            assert(s@.subrange(0, 3)[0] == s@[0]);
            assert(s@.subrange(0, 3)[1] == s@[1]);
            assert(s@.subrange(0, 3)[2] == s@[2]);
            assert(s@.subrange(0, 3) != "fn "@);
        }
    }
    s
}

/// Builds the ` , `-joined field list.
pub fn field_list_text(fs: &Vec<FieldDecl>) -> (r: String)
    ensures
        r@ == spec_field_list(fs@),
{
    let mut s = String::new();
    let mut i: usize = 0;
    while i < fs.len()
        invariant
            i <= fs.len(),
            s@ == spec_field_list(fs@.take(i as int)),
        decreases fs.len() - i,
    {
        if i > 0 {
            s.append(" , ");
        }
        let ft = field_text(&fs[i]);
        s.append(ft.as_str());
        proof {
            assert(fs@.take(i + 1).drop_last() =~= fs@.take(i as int));
            assert(fs@.take(i + 1).last() == fs@[i as int]);
            assert(fs@.take(i + 1)[0] == fs@[0]);
        }
        i = i + 1;
    }
    proof {
        assert(fs@.take(fs@.len() as int) =~= fs@);
    }
    s
}

/// Builds the text of one field.
pub fn field_text(f: &FieldDecl) -> (r: String)
    ensures
        r@ == spec_field(*f),
{
    let mut s = visibility_text(&f.vis);
    match &f.name {
        Some(n) => {
            s.append(n.as_str());
            s.append(" : ");
        },
        None => {},
    }
    s.append(f.ty.as_str());
    s
}

/// Builds the whole field block of a struct or variant payload.
pub fn fields_block_text(fs: &StructFields) -> (r: String)
    ensures
        r@ == spec_fields_block(*fs),
{
    match fs {
        StructFields::Unit => String::new(),
        StructFields::Named(v) => {
            if v.len() == 0 {
                String::from_str("{ }")
            } else {
                let mut s = String::from_str("{ ");
                let list = field_list_text(v);
                s.append(list.as_str());
                s.append(" }");
                s
            }
        },
        StructFields::Tuple(v) => {
            let mut s = String::from_str("(");
            let list = field_list_text(v);
            s.append(list.as_str());
            s.append(")");
            s
        },
    }
}

proof fn lemma_line_views_push(prev: Seq<String>, base: Seq<Seq<char>>, chunk: Seq<Seq<char>>, l: String)
    requires
        line_views(prev) == base + chunk,
    ensures
        line_views(prev.push(l)) == base + chunk.push(l@),
{
    assert(line_views(prev.push(l)) =~~= line_views(prev).push(l@));
    assert((base + chunk).push(l@) =~= base + chunk.push(l@));
}

proof fn lemma_docs_take_snoc(ds: Seq<String>, i: int, level: nat)
    requires
        0 <= i < ds.len(),
    ensures
        spec_doc_lines(ds.take(i + 1), level) == spec_doc_lines(ds.take(i), level).push(
            spec_doc_line(ds[i], level),
        ),
{
    assert(ds.take(i + 1).drop_last() =~= ds.take(i));
}

proof fn lemma_fields_take_snoc(fs: Seq<FieldDecl>, i: int)
    requires
        0 <= i < fs.len(),
    ensures
        i == 0 ==> spec_field_list(fs.take(1)) == spec_field(fs[0]),
        i > 0 ==> spec_field_list(fs.take(i + 1)) == spec_field_list(fs.take(i)) + " , "@
            + spec_field(fs[i]),
{
    assert(fs.take(i + 1).drop_last() =~= fs.take(i));
    assert(fs.take(i + 1)[0] == fs[0]);
}

proof fn lemma_supers_take_snoc(ss: Seq<String>, i: int)
    requires
        0 <= i < ss.len(),
    ensures
        i == 0 ==> spec_supertrait_list(ss.take(1)) == ss[0]@,
        i > 0 ==> spec_supertrait_list(ss.take(i + 1)) == spec_supertrait_list(ss.take(i)) + " + "@
            + ss[i]@,
{
    assert(ss.take(i + 1).drop_last() =~= ss.take(i));
    assert(ss.take(i + 1)[0] == ss[0]);
}

proof fn lemma_variants_take_snoc(vs: Seq<VariantDecl>, i: int, level: nat)
    requires
        0 <= i < vs.len(),
    ensures
        spec_variants_lines(vs.take(i + 1), level) == spec_variants_lines(vs.take(i), level)
            + spec_variant_lines(vs[i], level),
{
    assert(vs.take(i + 1).drop_last() =~= vs.take(i));
}

proof fn lemma_methods_take_snoc(ms: Seq<MethodSig>, i: int, level: nat)
    requires
        0 <= i < ms.len(),
    ensures
        spec_methods_lines(ms.take(i + 1), level) == spec_methods_lines(ms.take(i), level)
            + spec_method_lines(ms[i], level),
{
    assert(ms.take(i + 1).drop_last() =~= ms.take(i));
}

proof fn lemma_decls_take_snoc(ds: Seq<Declaration>, i: int, level: nat)
    requires
        0 <= i < ds.len(),
    ensures
        spec_decls_lines(ds.take(i + 1), level) == spec_decls_lines(ds.take(i), level)
            + spec_decl_lines(ds[i], level),
{
    assert(ds.take(i + 1).drop_last() =~= ds.take(i));
}

/// Appends the doc-comment lines of one item, one line per comment, at
/// the item's own indentation level.
pub fn push_doc_lines(docs: &Vec<String>, level: usize, out: &mut Vec<String>)
    ensures
        line_views(final(out)@) == line_views(old(out)@) + spec_doc_lines(docs@, level as nat),
{
    proof {
        assert(line_views(out@) =~~= line_views(out@) + spec_doc_lines(
            docs@.take(0),
            level as nat,
        ));
    }
    let mut i: usize = 0;
    while i < docs.len()
        invariant
            i <= docs.len(),
            line_views(out@) == line_views(old(out)@) + spec_doc_lines(
                docs@.take(i as int),
                level as nat,
            ),
        decreases docs.len() - i,
    {
        let mut line = indent(level);
        line.append("/// ");
        line.append(docs[i].as_str());
        let ghost lg = line;
        let ghost pre = out@;
        out.push(line);
        proof {
            lemma_docs_take_snoc(docs@, i as int, level as nat);
            lemma_line_views_push(
                pre,
                line_views(old(out)@),
                spec_doc_lines(docs@.take(i as int), level as nat),
                lg,
            );
        }
        i = i + 1;
    }
    proof {
        assert(docs@.take(docs@.len() as int) =~= docs@);
    }
}

/// Appends the rendering of a function declaration: doc comments, then
/// one signature line ending in ` ;`, with the body omitted.
pub fn render_function(d: &FnDecl, level: usize, out: &mut Vec<String>)
    ensures
        line_views(final(out)@) == line_views(old(out)@) + spec_fn_lines(*d, level as nat),
{
    push_doc_lines(&d.docs, level, out);
    let mut line = indent(level);
    let vis = visibility_text(&d.vis);
    line.append(vis.as_str());
    line.append(d.sig.as_str());
    line.append(" ;");
    let ghost lg = line;
    let ghost pre = out@;
    out.push(line);
    proof {
        lemma_line_views_push(
            pre,
            line_views(old(out)@),
            spec_doc_lines(d.docs@, level as nat),
            lg,
        );
    }
}

/// Appends the rendering of a struct declaration: doc comments, then one
/// line holding the header and the whole field block (or ` ;` for a unit
/// struct), with no member lines.
pub fn render_struct(d: &StructDecl, level: usize, out: &mut Vec<String>)
    ensures
        line_views(final(out)@) == line_views(old(out)@) + spec_struct_lines(*d, level as nat),
{
    push_doc_lines(&d.docs, level, out);
    let mut line = indent(level);
    let vis = visibility_text(&d.vis);
    line.append(vis.as_str());
    line.append("struct ");
    line.append(d.name.as_str());
    line.append(d.generics.as_str());
    match &d.fields {
        StructFields::Unit => {
            line.append(" ;");
            match &d.where_clause {
                Some(w) => {
                    line.append(" ");
                    line.append(w.as_str());
                },
                None => {},
            }
        },
        _ => {
            line.append(" ");
            let block = fields_block_text(&d.fields);
            line.append(block.as_str());
            match &d.where_clause {
                Some(w) => {
                    line.append(w.as_str());
                },
                None => {},
            }
        },
    }
    proof {
        assert(line@ =~= spec_struct_line(*d, level as nat));
    }
    let ghost lg = line;
    let ghost pre = out@;
    out.push(line);
    proof {
        lemma_line_views_push(
            pre,
            line_views(old(out)@),
            spec_doc_lines(d.docs@, level as nat),
            lg,
        );
    }
}

/// Appends the rendering of an enum declaration: doc comments, header,
/// one line per variant (each under its own doc comments) one level
/// deeper, then the closing brace.
pub fn render_enum(d: &EnumDecl, level: usize, out: &mut Vec<String>)
    requires
        level < usize::MAX,
    ensures
        line_views(final(out)@) == line_views(old(out)@) + spec_enum_lines(*d, level as nat),
{
    push_doc_lines(&d.docs, level, out);
    let mut line = indent(level);
    let vis = visibility_text(&d.vis);
    line.append(vis.as_str());
    line.append("enum ");
    line.append(d.name.as_str());
    line.append(d.generics.as_str());
    match &d.where_clause {
        Some(w) => {
            line.append(" ");
            line.append(w.as_str());
        },
        None => {},
    }
    line.append(" {");
    proof {
        assert(line@ =~= spec_enum_header(*d, level as nat));
    }
    let ghost lg = line;
    let ghost pre = out@;
    out.push(line);
    let lvl1 = level + 1;
    proof {
        lemma_line_views_push(
            pre,
            line_views(old(out)@),
            spec_doc_lines(d.docs@, level as nat),
            lg,
        );
        assert(line_views(out@) =~= line_views(old(out)@) + spec_doc_lines(
            d.docs@,
            level as nat,
        ).push(spec_enum_header(*d, level as nat)) + spec_variants_lines(
            d.variants@.take(0),
            lvl1 as nat,
        ));
    }
    let mut i: usize = 0;
    while i < d.variants.len()
        invariant
            i <= d.variants.len(),
            lvl1 == level + 1,
            line_views(out@) == line_views(old(out)@) + spec_doc_lines(
                d.docs@,
                level as nat,
            ).push(spec_enum_header(*d, level as nat)) + spec_variants_lines(
                d.variants@.take(i as int),
                lvl1 as nat,
            ),
        decreases d.variants.len() - i,
    {
        let v = &d.variants[i];
        push_doc_lines(&v.docs, lvl1, out);
        let mut vline = indent(lvl1);
        vline.append(v.name.as_str());
        match &v.fields {
            StructFields::Unit => {},
            _ => {
                vline.append(" ");
                let block = fields_block_text(&v.fields);
                vline.append(block.as_str());
            },
        }
        proof {
            assert(vline@ =~= spec_indent(lvl1 as nat) + spec_variant_text(*v));
        }
        let ghost lg = vline;
        let ghost pre = out@;
        out.push(vline);
        proof {
            lemma_variants_take_snoc(d.variants@, i as int, lvl1 as nat);
            lemma_line_views_push(
                pre,
                line_views(old(out)@) + spec_doc_lines(d.docs@, level as nat).push(
                    spec_enum_header(*d, level as nat),
                ) + spec_variants_lines(d.variants@.take(i as int), lvl1 as nat),
                spec_doc_lines(v.docs@, lvl1 as nat),
                lg,
            );
            assert(line_views(out@) =~= line_views(old(out)@) + spec_doc_lines(
                d.docs@,
                level as nat,
            ).push(spec_enum_header(*d, level as nat)) + spec_variants_lines(
                d.variants@.take(i + 1),
                lvl1 as nat,
            ));
        }
        i = i + 1;
    }
    let mut close = indent(level);
    close.append("}");
    let ghost lg = close;
    let ghost pre = out@;
    out.push(close);
    proof {
        assert(d.variants@.take(d.variants@.len() as int) =~= d.variants@);
        lemma_line_views_push(
            pre,
            line_views(old(out)@) + spec_doc_lines(d.docs@, level as nat).push(
                spec_enum_header(*d, level as nat),
            ),
            spec_variants_lines(d.variants@, lvl1 as nat),
            lg,
        );
        assert(line_views(out@) =~= line_views(old(out)@) + spec_enum_lines(*d, level as nat));
    }
}

/// Appends the method-signature lines of a trait or impl block, each
/// under its own doc comments, each ending in ` ;` with the body omitted.
pub fn push_method_lines(ms: &Vec<MethodSig>, level: usize, out: &mut Vec<String>)
    ensures
        line_views(final(out)@) == line_views(old(out)@) + spec_methods_lines(ms@, level as nat),
{
    proof {
        assert(line_views(out@) =~~= line_views(out@) + spec_methods_lines(
            ms@.take(0),
            level as nat,
        ));
    }
    let mut i: usize = 0;
    while i < ms.len()
        invariant
            i <= ms.len(),
            line_views(out@) == line_views(old(out)@) + spec_methods_lines(
                ms@.take(i as int),
                level as nat,
            ),
        decreases ms.len() - i,
    {
        let m = &ms[i];
        push_doc_lines(&m.docs, level, out);
        let mut line = indent(level);
        line.append("fn ");
        let stripped = strip_fn_prefix(m.sig.as_str());
        line.append(stripped);
        line.append(" ;");
        let ghost lg = line;
        let ghost pre = out@;
        out.push(line);
        proof {
            lemma_methods_take_snoc(ms@, i as int, level as nat);
            lemma_line_views_push(
                pre,
                line_views(old(out)@) + spec_methods_lines(ms@.take(i as int), level as nat),
                spec_doc_lines(m.docs@, level as nat),
                lg,
            );
            assert(line_views(out@) =~= line_views(old(out)@) + spec_methods_lines(
                ms@.take(i + 1),
                level as nat,
            ));
        }
        i = i + 1;
    }
    proof {
        assert(ms@.take(ms@.len() as int) =~= ms@);
    }
}

/// Appends the rendering of a trait declaration: doc comments, header
/// with supertraits and where-clause, method signatures one level
/// deeper, closing brace.
pub fn render_trait(d: &TraitDecl, level: usize, out: &mut Vec<String>)
    requires
        level < usize::MAX,
    ensures
        line_views(final(out)@) == line_views(old(out)@) + spec_trait_lines(*d, level as nat),
{
    push_doc_lines(&d.docs, level, out);
    let mut line = indent(level);
    let vis = visibility_text(&d.vis);
    line.append(vis.as_str());
    line.append("trait ");
    line.append(d.name.as_str());
    line.append(d.generics.as_str());
    if d.supertraits.len() > 0 {
        line.append(": ");
        let mut i: usize = 0;
        while i < d.supertraits.len()
            invariant
                i <= d.supertraits.len(),
                line@ == spec_indent(level as nat) + spec_vis(d.vis) + "trait "@ + d.name@
                    + d.generics@ + ": "@ + spec_supertrait_list(d.supertraits@.take(i as int)),
            decreases d.supertraits.len() - i,
        {
            if i > 0 {
                line.append(" + ");
            }
            line.append(d.supertraits[i].as_str());
            proof {
                lemma_supers_take_snoc(d.supertraits@, i as int);
            }
            i = i + 1;
        }
        proof {
            assert(d.supertraits@.take(d.supertraits@.len() as int) =~= d.supertraits@);
        }
    }
    match &d.where_clause {
        Some(w) => {
            line.append(" ");
            line.append(w.as_str());
        },
        None => {},
    }
    line.append(" {");
    proof {
        assert(line@ =~= spec_trait_header(*d, level as nat));
    }
    let ghost lg = line;
    let ghost pre = out@;
    out.push(line);
    proof {
        lemma_line_views_push(
            pre,
            line_views(old(out)@),
            spec_doc_lines(d.docs@, level as nat),
            lg,
        );
    }
    let lvl1 = level + 1;
    push_method_lines(&d.methods, lvl1, out);
    let mut close = indent(level);
    close.append("}");
    let ghost cg = close;
    let ghost pre2 = out@;
    out.push(close);
    proof {
        lemma_line_views_push(
            pre2,
            line_views(old(out)@) + spec_doc_lines(d.docs@, level as nat).push(
                spec_trait_header(*d, level as nat),
            ),
            spec_methods_lines(d.methods@, lvl1 as nat),
            cg,
        );
        assert(line_views(out@) =~= line_views(old(out)@) + spec_trait_lines(*d, level as nat));
    }
}

/// Appends the rendering of an impl block: doc comments, the
/// `impl Type` or `impl TraitPath for Type` header, method signatures
/// one level deeper, closing brace.
pub fn render_impl(d: &ImplDecl, level: usize, out: &mut Vec<String>)
    requires
        level < usize::MAX,
    ensures
        line_views(final(out)@) == line_views(old(out)@) + spec_impl_lines(*d, level as nat),
{
    push_doc_lines(&d.docs, level, out);
    let mut line = indent(level);
    if d.is_unsafe {
        line.append("unsafe ");
    }
    line.append("impl");
    line.append(d.generics.as_str());
    line.append(" ");
    match &d.trait_path {
        Some(p) => {
            if d.negative {
                line.append("! ");
            }
            line.append(p.as_str());
            line.append(" for ");
        },
        None => {},
    }
    line.append(d.self_ty.as_str());
    match &d.where_clause {
        Some(w) => {
            line.append(" ");
            line.append(w.as_str());
        },
        None => {},
    }
    line.append(" {");
    proof {
        assert(line@ =~= spec_impl_header(*d, level as nat));
    }
    let ghost lg = line;
    let ghost pre = out@;
    out.push(line);
    proof {
        lemma_line_views_push(
            pre,
            line_views(old(out)@),
            spec_doc_lines(d.docs@, level as nat),
            lg,
        );
    }
    let lvl1 = level + 1;
    push_method_lines(&d.methods, lvl1, out);
    let mut close = indent(level);
    close.append("}");
    let ghost cg = close;
    let ghost pre2 = out@;
    out.push(close);
    proof {
        lemma_line_views_push(
            pre2,
            line_views(old(out)@) + spec_doc_lines(d.docs@, level as nat).push(
                spec_impl_header(*d, level as nat),
            ),
            spec_methods_lines(d.methods@, lvl1 as nat),
            cg,
        );
        assert(line_views(out@) =~= line_views(old(out)@) + spec_impl_lines(*d, level as nat));
    }
}

/// Appends the rendering of one declaration; unrecognized kinds append
/// nothing at all.
pub fn render_declaration(d: &Declaration, level: usize, out: &mut Vec<String>)
    requires
        level < usize::MAX,
    ensures
        line_views(final(out)@) == line_views(old(out)@) + spec_decl_lines(*d, level as nat),
{
    match d {
        Declaration::Function(f) => render_function(f, level, out),
        Declaration::Struct(s) => render_struct(s, level, out),
        Declaration::Enum(e) => render_enum(e, level, out),
        Declaration::Trait(t) => render_trait(t, level, out),
        Declaration::Impl(i) => render_impl(i, level, out),
        Declaration::Other => {
            proof {
                assert(line_views(out@) =~~= line_views(out@) + spec_decl_lines(
                    *d,
                    level as nat,
                ));
            }
        },
    }
}

/// Appends the renderings of a sequence of declarations, at depth zero,
/// in the order given.
fn render_decls(decls: &Vec<Declaration>, out: &mut Vec<String>)
    ensures
        line_views(final(out)@) == line_views(old(out)@) + spec_decls_lines(decls@, 0),
{
    proof {
        assert(line_views(out@) =~~= line_views(out@) + spec_decls_lines(decls@.take(0), 0));
    }
    let mut i: usize = 0;
    while i < decls.len()
        invariant
            i <= decls.len(),
            line_views(out@) == line_views(old(out)@) + spec_decls_lines(
                decls@.take(i as int),
                0,
            ),
        decreases decls.len() - i,
    {
        render_declaration(&decls[i], 0, out);
        proof {
            lemma_decls_take_snoc(decls@, i as int, 0);
            assert(line_views(out@) =~= line_views(old(out)@) + spec_decls_lines(
                decls@.take(i + 1),
                0,
            ));
        }
        i = i + 1;
    }
    proof {
        assert(decls@.take(decls@.len() as int) =~= decls@);
    }
}

/// Renders one parsed file as output lines: every top-level declaration
/// in source order at depth zero. The result is a function of the tree
/// alone, so rendering the same tree always yields the same lines.
pub fn render_tree(t: &SourceTree) -> (out: Vec<String>)
    ensures
        line_views(out@) == spec_tree_lines(*t),
{
    let mut out: Vec<String> = Vec::new();
    render_decls(&t.decls, &mut out);
    proof {
        assert(line_views(out@) =~~= spec_tree_lines(*t));
    }
    out
}

/// Builds the header line that opens a file's block of output.
pub fn header_line(path: &str) -> (r: String)
    ensures
        r@ == spec_header_line(path@),
{
    let mut s = String::from_str("// ************* ");
    s.append(path);
    s
}

/// Renders the whole output block of one file: the header line naming
/// the path, then the declaration lines in source order.
pub fn render_file_block(path: &str, t: &SourceTree) -> (out: Vec<String>)
    ensures
        line_views(out@) == spec_file_block(path@, *t),
{
    let mut out: Vec<String> = Vec::new();
    let header = header_line(path);
    let ghost hg = header;
    let ghost pre = out@;
    out.push(header);
    proof {
        assert(line_views(pre) =~~= Seq::<Seq<char>>::empty() + line_views(pre));
        lemma_line_views_push(pre, Seq::<Seq<char>>::empty(), line_views(pre), hg);
        assert(line_views(out@) =~= seq![spec_header_line(path@)]);
    }
    render_decls(&t.decls, &mut out);
    proof {
        assert(line_views(out@) =~= spec_file_block(path@, *t));
    }
    out
}

} // verus!
