//! Laws of the skeleton printer, stated and proved once and for all
//! trees: rendering is deterministic, output order equals source order
//! with unrecognized kinds removed, and the members of a block sit
//! exactly one indentation level deeper than the block itself.

use vstd::prelude::*;

use crate::model::Declaration;
use crate::model::EnumDecl;
use crate::model::ImplDecl;
use crate::model::MethodSig;
use crate::model::SourceTree;
use crate::model::TraitDecl;
use crate::model::VariantDecl;
use crate::render::line_views;
use crate::render::spec_close_line;
use crate::render::spec_decl_lines;
use crate::render::spec_decls_lines;
use crate::render::spec_doc_line;
use crate::render::spec_doc_lines;
use crate::render::spec_enum_header;
use crate::render::spec_enum_lines;
use crate::render::spec_impl_header;
use crate::render::spec_impl_lines;
use crate::render::spec_indent;
use crate::render::spec_method_line;
use crate::render::spec_method_lines;
use crate::render::spec_methods_lines;
use crate::render::spec_trait_header;
use crate::render::spec_trait_lines;
use crate::render::spec_tree_lines;
use crate::render::spec_variant_lines;
use crate::render::spec_variant_text;
use crate::render::spec_variants_lines;

verus! {

/// Whether the printer recognizes and renders a declaration kind.
pub open spec fn recognized(d: Declaration) -> bool {
    match d {
        Declaration::Other => false,
        _ => true,
    }
}

/// The recognized declarations of a sequence, in their original order.
pub open spec fn spec_recognized_only(ds: Seq<Declaration>) -> Seq<Declaration>
    decreases ds.len(),
{
    if ds.len() == 0 {
        Seq::empty()
    } else {
        spec_recognized_only(ds.drop_last()) + (if recognized(ds.last()) {
            seq![ds.last()]
        } else {
            Seq::<Declaration>::empty()
        })
    }
}

/// Rendering is deterministic: two runs over the same tree yield the
/// same lines. There is no randomness and no timestamp in the output;
/// the lines are a function of the tree alone.
pub proof fn lemma_render_deterministic(t: SourceTree, a: Seq<String>, b: Seq<String>)
    requires
        line_views(a) == spec_tree_lines(t),
        line_views(b) == spec_tree_lines(t),
    ensures
        line_views(a) == line_views(b),
{
}

/// Output order equals source order: declarations laid end to end render
/// to their renderings laid end to end, so no rendering step reorders or
/// regroups what came before it.
pub proof fn lemma_render_order(a: Seq<Declaration>, b: Seq<Declaration>, level: nat)
    ensures
        spec_decls_lines(a + b, level) == spec_decls_lines(a, level) + spec_decls_lines(b, level),
    decreases b.len(),
{
    if b.len() == 0 {
        assert(a + b =~= a);
        assert(spec_decls_lines(a, level) + spec_decls_lines(b, level) =~= spec_decls_lines(
            a,
            level,
        ));
    } else {
        lemma_render_order(a, b.drop_last(), level);
        assert((a + b).drop_last() =~= a + b.drop_last());
        assert((a + b).last() == b.last());
        assert(spec_decls_lines(a + b, level) =~= spec_decls_lines(a, level) + spec_decls_lines(
            b,
            level,
        ));
    }
}

/// The rendering of one declaration alone.
proof fn lemma_single_decl(d: Declaration, level: nat)
    ensures
        spec_decls_lines(seq![d], level) == spec_decl_lines(d, level),
{
    assert(seq![d].drop_last() =~= Seq::<Declaration>::empty());
    assert(spec_decls_lines(Seq::<Declaration>::empty(), level) == Seq::<Seq<char>>::empty());
    assert(seq![d].last() == d);
    assert(spec_decls_lines(seq![d], level) =~= spec_decl_lines(d, level));
}

/// Unrecognized declaration kinds are removed from the output while the
/// relative order of everything else is unchanged: a sequence of
/// declarations renders exactly as the subsequence of its recognized
/// declarations does. The names appearing in the output are therefore a
/// projection of the input sequence with unrecognized kinds dropped.
pub proof fn lemma_unrecognized_skipped(ds: Seq<Declaration>, level: nat)
    ensures
        spec_decls_lines(ds, level) == spec_decls_lines(spec_recognized_only(ds), level),
    decreases ds.len(),
{
    if ds.len() == 0 {
    } else {
        lemma_unrecognized_skipped(ds.drop_last(), level);
        if recognized(ds.last()) {
            lemma_render_order(spec_recognized_only(ds.drop_last()), seq![ds.last()], level);
            lemma_single_decl(ds.last(), level);
        } else {
            assert(spec_decl_lines(ds.last(), level) == Seq::<Seq<char>>::empty());
            assert(spec_decls_lines(ds, level) =~= spec_decls_lines(ds.drop_last(), level));
            assert(spec_recognized_only(ds) =~= spec_recognized_only(ds.drop_last()));
        }
    }
}

/// Every doc-comment line of an item starts with the item's indentation.
proof fn lemma_doc_lines_indent(docs: Seq<String>, level: nat)
    ensures
        forall|j: int|
            0 <= j < spec_doc_lines(docs, level).len() ==> spec_indent(level).is_prefix_of(
                #[trigger] spec_doc_lines(docs, level)[j],
            ),
    decreases docs.len(),
{
    if docs.len() == 0 {
    } else {
        lemma_doc_lines_indent(docs.drop_last(), level);
        assert(spec_doc_line(docs.last(), level).subrange(0, spec_indent(level).len() as int)
            =~= spec_indent(level));
        let lines = spec_doc_lines(docs, level);
        let prev = spec_doc_lines(docs.drop_last(), level);
        assert forall|j: int| 0 <= j < lines.len() implies spec_indent(level).is_prefix_of(
            lines[j],
        ) by {
            if j < prev.len() {
                assert(lines[j] == prev[j]);
            } else {
                assert(lines[j] == spec_doc_line(docs.last(), level));
            }
        }
    }
}

/// Every line of one variant's rendering starts with the member
/// indentation.
proof fn lemma_variant_lines_indent(v: VariantDecl, level: nat)
    ensures
        forall|j: int|
            0 <= j < spec_variant_lines(v, level).len() ==> spec_indent(level).is_prefix_of(
                #[trigger] spec_variant_lines(v, level)[j],
            ),
{
    lemma_doc_lines_indent(v.docs@, level);
    assert((spec_indent(level) + spec_variant_text(v)).subrange(0, spec_indent(level).len() as int)
        =~= spec_indent(level));
    let lines = spec_variant_lines(v, level);
    let prev = spec_doc_lines(v.docs@, level);
    assert forall|j: int| 0 <= j < lines.len() implies spec_indent(level).is_prefix_of(
        lines[j],
    ) by {
        if j < prev.len() {
            assert(lines[j] == prev[j]);
        } else {
            assert(lines[j] == spec_indent(level) + spec_variant_text(v));
        }
    }
}

/// Every line of an enum's variant block starts with the member
/// indentation.
proof fn lemma_variants_lines_indent(vs: Seq<VariantDecl>, level: nat)
    ensures
        forall|j: int|
            0 <= j < spec_variants_lines(vs, level).len() ==> spec_indent(level).is_prefix_of(
                #[trigger] spec_variants_lines(vs, level)[j],
            ),
    decreases vs.len(),
{
    if vs.len() == 0 {
    } else {
        lemma_variants_lines_indent(vs.drop_last(), level);
        lemma_variant_lines_indent(vs.last(), level);
        let lines = spec_variants_lines(vs, level);
        let prev = spec_variants_lines(vs.drop_last(), level);
        let lastl = spec_variant_lines(vs.last(), level);
        assert forall|j: int| 0 <= j < lines.len() implies spec_indent(level).is_prefix_of(
            lines[j],
        ) by {
            if j < prev.len() {
                assert(lines[j] == prev[j]);
            } else {
                assert(lines[j] == lastl[j - prev.len()]);
            }
        }
    }
}

/// Every line of one method's rendering starts with the member
/// indentation.
proof fn lemma_method_lines_indent(m: MethodSig, level: nat)
    ensures
        forall|j: int|
            0 <= j < spec_method_lines(m, level).len() ==> spec_indent(level).is_prefix_of(
                #[trigger] spec_method_lines(m, level)[j],
            ),
{
    lemma_doc_lines_indent(m.docs@, level);
    assert(spec_method_line(m, level).subrange(0, spec_indent(level).len() as int) =~= spec_indent(
        level,
    ));
    let lines = spec_method_lines(m, level);
    let prev = spec_doc_lines(m.docs@, level);
    assert forall|j: int| 0 <= j < lines.len() implies spec_indent(level).is_prefix_of(
        lines[j],
    ) by {
        if j < prev.len() {
            assert(lines[j] == prev[j]);
        } else {
            assert(lines[j] == spec_method_line(m, level));
        }
    }
}

/// Every line of a trait's or impl block's method block starts with the
/// member indentation.
proof fn lemma_methods_lines_indent(ms: Seq<MethodSig>, level: nat)
    ensures
        forall|j: int|
            0 <= j < spec_methods_lines(ms, level).len() ==> spec_indent(level).is_prefix_of(
                #[trigger] spec_methods_lines(ms, level)[j],
            ),
    decreases ms.len(),
{
    if ms.len() == 0 {
    } else {
        lemma_methods_lines_indent(ms.drop_last(), level);
        lemma_method_lines_indent(ms.last(), level);
        let lines = spec_methods_lines(ms, level);
        let prev = spec_methods_lines(ms.drop_last(), level);
        let lastl = spec_method_lines(ms.last(), level);
        assert forall|j: int| 0 <= j < lines.len() implies spec_indent(level).is_prefix_of(
            lines[j],
        ) by {
            if j < prev.len() {
                assert(lines[j] == prev[j]);
            } else {
                assert(lines[j] == lastl[j - prev.len()]);
            }
        }
    }
}

/// An enum's members are indented exactly one level (one four-space
/// block) deeper than the enum itself: its rendering is the header and
/// closing brace at the enum's own level with every variant line in
/// between carrying the parent indentation plus `    ` as a prefix.
pub proof fn lemma_enum_member_indent(d: EnumDecl, level: nat)
    ensures
        spec_indent(level + 1) == spec_indent(level) + "    "@,
        spec_enum_lines(d, level) == spec_doc_lines(d.docs@, level).push(
            spec_enum_header(d, level),
        ) + spec_variants_lines(d.variants@, level + 1) + seq![spec_close_line(level)],
        forall|j: int|
            0 <= j < spec_variants_lines(d.variants@, level + 1).len() ==> spec_indent(
                level + 1,
            ).is_prefix_of(#[trigger] spec_variants_lines(d.variants@, level + 1)[j]),
{
    lemma_variants_lines_indent(d.variants@, level + 1);
}

/// A trait's method signatures are indented exactly one level deeper
/// than the trait itself.
pub proof fn lemma_trait_member_indent(d: TraitDecl, level: nat)
    ensures
        spec_indent(level + 1) == spec_indent(level) + "    "@,
        spec_trait_lines(d, level) == spec_doc_lines(d.docs@, level).push(
            spec_trait_header(d, level),
        ) + spec_methods_lines(d.methods@, level + 1) + seq![spec_close_line(level)],
        forall|j: int|
            0 <= j < spec_methods_lines(d.methods@, level + 1).len() ==> spec_indent(
                level + 1,
            ).is_prefix_of(#[trigger] spec_methods_lines(d.methods@, level + 1)[j]),
{
    lemma_methods_lines_indent(d.methods@, level + 1);
}

/// An impl block's method signatures are indented exactly one level
/// deeper than the block itself.
pub proof fn lemma_impl_member_indent(d: ImplDecl, level: nat)
    ensures
        spec_indent(level + 1) == spec_indent(level) + "    "@,
        spec_impl_lines(d, level) == spec_doc_lines(d.docs@, level).push(
            spec_impl_header(d, level),
        ) + spec_methods_lines(d.methods@, level + 1) + seq![spec_close_line(level)],
        forall|j: int|
            0 <= j < spec_methods_lines(d.methods@, level + 1).len() ==> spec_indent(
                level + 1,
            ).is_prefix_of(#[trigger] spec_methods_lines(d.methods@, level + 1)[j]),
{
    lemma_methods_lines_indent(d.methods@, level + 1);
}

} // verus!
