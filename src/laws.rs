use vstd::prelude::*;

use crate::alias::first_captures;
use crate::text::{is_last_occurrence, last_occurrence, occurs_at, strip_leading};
use crate::visitor::{
    dynamic_import_literal, literal_after, src_anchor, text_view, CallExpr, ImportDecl,
    NamedExport, PathLiteral, TransformVisitor,
};

verus! {

/// A literal in which the alias pattern finds nothing is left exactly as it was.
pub proof fn unmatched_literal_is_kept(
    visitor: TransformVisitor,
    pattern: Seq<char>,
    before: PathLiteral,
    after: PathLiteral,
)
    requires
        first_captures(pattern, before.value@) is None,
        literal_after(before, after, visitor.rewrite_of(pattern, before.value@)),
    ensures
        after == before,
{
}

/// In a file whose path holds no `src/`, no literal is rewritten, whatever it holds.
pub proof fn no_source_root_no_rewrite(
    visitor: TransformVisitor,
    pattern: Seq<char>,
    literal: Seq<char>,
)
    requires
        forall|i: int| !occurs_at(visitor.filename@, src_anchor(), i),
    ensures
        visitor.rewrite_of(pattern, literal) is None,
{
    let file = visitor.filename@;
    let cwd = visitor.cwd@;
    let rel = strip_leading(file, cwd);
    if last_occurrence(rel, src_anchor()) is Some {
        let c = choose|k: int| is_last_occurrence(rel, src_anchor(), k);
        assert(occurs_at(rel, src_anchor(), c));
        let off: int = if cwd.is_prefix_of(file) {
            cwd.len() as int
        } else {
            0
        };
        assert(rel.subrange(c, c + 4) =~= file.subrange(c + off, c + off + 4));
        assert(occurs_at(file, src_anchor(), c + off));
    }
}

/// Rewriting a literal a second time changes nothing, where the alias pattern finds nothing
/// in what the first rewrite produced.
pub proof fn second_rewrite_changes_nothing(
    visitor: TransformVisitor,
    pattern: Seq<char>,
    first: PathLiteral,
    second: PathLiteral,
    third: PathLiteral,
)
    requires
        literal_after(first, second, visitor.rewrite_of(pattern, first.value@)),
        literal_after(second, third, visitor.rewrite_of(pattern, second.value@)),
        visitor.rewrite_of(pattern, first.value@) is Some ==> first_captures(
            pattern,
            second.value@,
        ) is None,
    ensures
        third == second,
{
}

/// An immediately evaluated `import("...")` of a string literal is rewritten to the same
/// text as a static import of that literal.
pub proof fn dynamic_import_as_static_import(
    visitor: TransformVisitor,
    pattern: Seq<char>,
    call: CallExpr,
    call_after: CallExpr,
    decl: ImportDecl,
    decl_after: ImportDecl,
)
    requires
        dynamic_import_literal(call) == Some(decl.src),
        visitor.call_visited(pattern, call, call_after),
        visitor.import_visited(pattern, decl, decl_after),
    ensures
        call_after.args@[0] is Str,
        (call_after.args@[0]->Str_0).value@ == decl_after.src.value@,
        text_view((call_after.args@[0]->Str_0).raw) == text_view(decl_after.src.raw),
{
}

/// A named export without a source is left exactly as it was.
pub proof fn export_without_source_is_kept(
    visitor: TransformVisitor,
    pattern: Seq<char>,
    before: NamedExport,
    after: NamedExport,
)
    requires
        before.src is None,
        visitor.named_export_visited(pattern, before, after),
    ensures
        after == before,
{
}

} // verus!
