use vstd::prelude::*;
use vstd::string::StrSliceExecFns;
use vstd::string::StringExecFns;

use crate::alias::{first_captures, found_view, AliasMatch, AliasMatcher};
use crate::text::{
    chars_of, find_first, find_last, last_occurrence, occurs_at_index, remove_first,
    strip_leading,
};

verus! {

/// The segment whose last occurrence marks the nearest source root.
pub open spec fn src_anchor() -> Seq<char> {
    seq!['s', 'r', 'c', '/']
}

/// `rel` up to and including its last `src/`, where it has one.
pub open spec fn source_root(rel: Seq<char>) -> Option<Seq<char>> {
    match last_occurrence(rel, src_anchor()) {
        Some(i) => Some(rel.subrange(0, i + 4)),
        None => None,
    }
}

/// The path that `literal` resolves to, given what the alias pattern found in it and the
/// file being transformed; `None` where nothing is to be rewritten. A sub-name that took part
/// in the match, even an empty one, stands in the path followed by `/`.
pub open spec fn resolved_path(
    literal: Seq<char>,
    found: Option<(Seq<char>, Option<Seq<char>>)>,
    filename: Seq<char>,
    cwd: Seq<char>,
) -> Option<Seq<char>> {
    match found {
        None => None,
        Some((span, subname)) => match source_root(strip_leading(filename, cwd)) {
            None => None,
            Some(root) => {
                let payload = remove_first(literal, span);
                match subname {
                    Some(name) => Some(root + name + seq!['/'] + payload),
                    None => Some(root + payload),
                }
            },
        },
    }
}

/// `p` in double quotes.
pub open spec fn quoted(p: Seq<char>) -> Seq<char> {
    seq!['"'] + p + seq!['"']
}

/// The new text of `literal`, in double quotes; `None` where it is to be left as it is.
pub open spec fn rewritten_literal(
    literal: Seq<char>,
    found: Option<(Seq<char>, Option<Seq<char>>)>,
    filename: Seq<char>,
    cwd: Seq<char>,
) -> Option<Seq<char>> {
    match resolved_path(literal, found, filename, cwd) {
        Some(p) => Some(quoted(p)),
        None => None,
    }
}

/// The text of an optional string.
pub open spec fn text_view(t: Option<String>) -> Option<Seq<char>> {
    match t {
        Some(s) => Some(s@),
        None => None,
    }
}

/// A string literal that names a module: its value and its text in the source.
pub struct PathLiteral {
    pub value: String,
    pub raw: Option<String>,
}

/// `after` is `before` rewritten to `r`: both value and source text become `r`. Where `r` is
/// `None`, the literal is left exactly as it was.
pub open spec fn literal_after(before: PathLiteral, after: PathLiteral, r: Option<Seq<char>>) -> bool {
    match r {
        Some(q) => after.value@ == q && text_view(after.raw) == Some(q),
        None => after == before,
    }
}

/// `import { foo } from './foo';`
pub struct ImportDecl {
    pub src: PathLiteral,
}

/// `export { foo } from './foo';`, or `export { foo };` without a source.
pub struct NamedExport {
    pub src: Option<PathLiteral>,
}

/// `export * from './foo';`
pub struct ExportAll {
    pub src: PathLiteral,
}

/// When a dynamic import takes effect.
#[derive(PartialEq, Eq, Structural)]
pub enum ImportPhase {
    Evaluation,
    Source,
    Defer,
}

/// What a call expression calls.
#[derive(PartialEq, Eq, Structural)]
pub enum Callee {
    /// `import(...)`, in the given phase.
    Import(ImportPhase),
    /// `super(...)`, or any expression.
    Other,
}

/// An argument of a call expression.
pub enum Argument {
    /// A plain string literal.
    Str(PathLiteral),
    /// Any other expression, or a spread.
    Other,
}

/// `import('./foo')`, or any other call.
pub struct CallExpr {
    pub callee: Callee,
    pub args: Vec<Argument>,
}

/// The literal of a call that is an immediately evaluated dynamic import whose first
/// argument is a plain string literal.
pub open spec fn dynamic_import_literal(call: CallExpr) -> Option<PathLiteral> {
    if call.callee == Callee::Import(ImportPhase::Evaluation) && call.args@.len() > 0 {
        match call.args@[0] {
            Argument::Str(lit) => Some(lit),
            Argument::Other => None,
        }
    } else {
        None
    }
}

/// `rel` up to and including its last `src/`.
pub fn source_root_of(rel: &str) -> (r: Option<&str>)
    ensures
        match r {
            Some(root) => source_root(rel@) == Some(root@),
            None => source_root(rel@) is None,
        },
{
    let chars = chars_of(rel);
    let anchor_str = "src/";
    proof {
        reveal_strlit("src/");
    }
    let anchor = chars_of(anchor_str);
    assert(anchor@ =~= src_anchor());
    match find_last(&chars, &anchor) {
        Some(i) => Some(rel.substring_char(0, i + 4)),
        None => None,
    }
}

/// `s` with the first occurrence of `t` taken out.
pub fn without_first(s: &str, t: &str) -> (r: String)
    ensures
        r@ == remove_first(s@, t@),
{
    let chars = chars_of(s);
    let part = chars_of(t);
    match find_first(&chars, &part) {
        Some(k) => {
            let mut out = String::from_str(s.substring_char(0, k));
            out.append(s.substring_char(k + part.len(), chars.len()));
            out
        },
        None => String::from_str(s),
    }
}

/// Rewrites the aliased module paths of one file.
pub struct TransformVisitor {
    /// The path of the file being transformed.
    pub filename: String,
    /// The working directory of the build.
    pub cwd: String,
}

impl TransformVisitor {
    /// The new text of `literal` under the alias pattern `pattern`, if it is rewritten.
    pub open spec fn rewrite_of(&self, pattern: Seq<char>, literal: Seq<char>) -> Option<Seq<char>> {
        rewritten_literal(literal, first_captures(pattern, literal), self.filename@, self.cwd@)
    }

    /// `after` is what visiting the import `before` leaves.
    pub open spec fn import_visited(
        &self,
        pattern: Seq<char>,
        before: ImportDecl,
        after: ImportDecl,
    ) -> bool {
        literal_after(before.src, after.src, self.rewrite_of(pattern, before.src.value@))
    }

    /// `after` is what visiting the wildcard re-export `before` leaves.
    pub open spec fn export_all_visited(
        &self,
        pattern: Seq<char>,
        before: ExportAll,
        after: ExportAll,
    ) -> bool {
        literal_after(before.src, after.src, self.rewrite_of(pattern, before.src.value@))
    }

    /// `after` is what visiting the named export `before` leaves: one without a source is
    /// kept as it is.
    pub open spec fn named_export_visited(
        &self,
        pattern: Seq<char>,
        before: NamedExport,
        after: NamedExport,
    ) -> bool {
        match before.src {
            Some(lit) => {
                &&& after.src is Some
                &&& literal_after(lit, after.src->0, self.rewrite_of(pattern, lit.value@))
            },
            None => after == before,
        }
    }

    /// `after` is what visiting the call `before` leaves: only the literal of a dynamic import
    /// may change.
    pub open spec fn call_visited(&self, pattern: Seq<char>, before: CallExpr, after: CallExpr) -> bool {
        match dynamic_import_literal(before) {
            Some(lit) => {
                &&& after.callee == before.callee
                &&& after.args@.len() == before.args@.len()
                &&& forall|i: int| 1 <= i < after.args@.len() ==> after.args@[i] == before.args@[i]
                &&& after.args@[0] is Str
                &&& literal_after(lit, after.args@[0]->Str_0, self.rewrite_of(pattern, lit.value@))
            },
            None => after == before,
        }
    }

    /// A visitor for the file at `filename`, built in the working directory `cwd`.
    pub fn new(filename: String, cwd: String) -> (r: TransformVisitor)
        ensures
            r.filename == filename,
            r.cwd == cwd,
    {
        TransformVisitor { filename, cwd }
    }

    /// The path of the file relative to the working directory: the file's path with the
    /// working directory taken off its front, where it stands there.
    pub fn relative_path(&self) -> (r: &str)
        ensures
            r@ == strip_leading(self.filename@, self.cwd@),
    {
        let file = chars_of(self.filename.as_str());
        let cwd = chars_of(self.cwd.as_str());
        let start: usize = if occurs_at_index(&file, &cwd, 0) {
            cwd.len()
        } else {
            0
        };
        let rel = self.filename.as_str().substring_char(start, file.len());
        assert(rel@ =~= strip_leading(self.filename@, self.cwd@));
        rel
    }

    /// The new text of `literal`, given what the alias pattern found in it.
    pub fn rewrite_matched(&self, literal: &str, found: &Option<AliasMatch>) -> (r: Option<String>)
        ensures
            text_view(r) == rewritten_literal(literal@, found_view(*found), self.filename@, self.cwd@),
    {
        let m = match found {
            Some(m) => m,
            None => return None,
        };
        let root = match source_root_of(self.relative_path()) {
            Some(root) => root,
            None => return None,
        };
        let quote = "\"";
        proof {
            reveal_strlit("\"");
        }
        let mut out = String::from_str(quote);
        out.append(root);
        let ghost head = out@;
        match &m.subname {
            Some(name) => {
                let slash = "/";
                proof {
                    reveal_strlit("/");
                }
                out.append(name.as_str());
                out.append(slash);
            },
            None => {},
        }
        let ghost middle = out@;
        let payload = without_first(literal, m.matched.as_str());
        out.append(payload.as_str());
        out.append(quote);
        proof {
            match m.view().1 {
                Some(n) => assert(middle =~= seq!['"'] + root@ + n + seq!['/']),
                None => assert(middle =~= head),
            }
        }
        assert(out@ =~= quoted(resolved_path(literal@, found_view(*found), self.filename@, self.cwd@)->0));
        Some(out)
    }

    /// Rewrites `target` in place where the alias pattern of `matcher` finds an alias in it
    /// and the file lies under a source root; else leaves it untouched.
    pub fn fix_path(&self, matcher: &AliasMatcher, target: &mut PathLiteral)
        ensures
            literal_after(*old(target), *final(target), self.rewrite_of(matcher.pattern(), old(target).value@)),
    {
        let found = matcher.captures(target.value.as_str());
        match self.rewrite_matched(target.value.as_str(), &found) {
            Some(q) => {
                target.value = q.clone();
                target.raw = Some(q);
            },
            None => {},
        }
    }

    /// `import { foo } from './foo';`
    pub fn visit_mut_import_decl(&self, matcher: &AliasMatcher, n: &mut ImportDecl)
        ensures
            self.import_visited(matcher.pattern(), *old(n), *final(n)),
    {
        self.fix_path(matcher, &mut n.src);
    }

    /// `export * from './foo';`
    pub fn visit_mut_export_all(&self, matcher: &AliasMatcher, n: &mut ExportAll)
        ensures
            self.export_all_visited(matcher.pattern(), *old(n), *final(n)),
    {
        self.fix_path(matcher, &mut n.src);
    }

    /// `export { foo } from './foo';`; an export without a source is left alone.
    pub fn visit_mut_named_export(&self, matcher: &AliasMatcher, n: &mut NamedExport)
        ensures
            self.named_export_visited(matcher.pattern(), *old(n), *final(n)),
    {
        match &mut n.src {
            Some(target) => self.fix_path(matcher, target),
            None => {},
        }
    }

    /// `() => import('./foo')`: only an immediately evaluated dynamic import whose first
    /// argument is a plain string literal is rewritten; any other call is left alone.
    pub fn visit_mut_call_expr(&self, matcher: &AliasMatcher, n: &mut CallExpr)
        ensures
            self.call_visited(matcher.pattern(), *old(n), *final(n)),
    {
        match &n.callee {
            Callee::Import(ImportPhase::Evaluation) => {},
            _ => return,
        }
        if n.args.len() == 0 {
            return;
        }
        let rewritten = match &n.args[0] {
            Argument::Str(lit) => {
                let found = matcher.captures(lit.value.as_str());
                self.rewrite_matched(lit.value.as_str(), &found)
            },
            Argument::Other => return,
        };
        match rewritten {
            Some(q) => {
                let new_lit = PathLiteral { value: q.clone(), raw: Some(q) };
                n.args.set(0, Argument::Str(new_lit));
            },
            None => {},
        }
    }
}

} // verus!
