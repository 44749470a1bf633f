use swc_plugin_root_alias::alias::alias_pattern_text;
use swc_plugin_root_alias::{
    AliasMatch, AliasMatcher, Argument, CallExpr, Callee, Config, ExportAll, ImportDecl,
    ImportPhase, MatcherCache, NamedExport, PathLiteral, TransformVisitor,
};

fn config(prefix: Option<&str>, names: Option<&[&str]>) -> Config {
    Config {
        prefix: prefix.map(|p| p.to_string()),
        allowed_pathnames: names.map(|ns| ns.iter().map(|n| n.to_string()).collect()),
    }
}

fn matcher(c: &Config) -> AliasMatcher {
    AliasMatcher::compile(c).expect("pattern compiles")
}

fn visitor(file: &str, cwd: &str) -> TransformVisitor {
    TransformVisitor::new(file.to_string(), cwd.to_string())
}

fn lit(s: &str) -> PathLiteral {
    PathLiteral { value: s.to_string(), raw: Some(format!("'{}'", s)) }
}

fn import_of(v: &TransformVisitor, m: &AliasMatcher, s: &str) -> PathLiteral {
    let mut decl = ImportDecl { src: lit(s) };
    v.visit_mut_import_decl(m, &mut decl);
    decl.src
}

fn assert_rewritten(l: &PathLiteral, expected: &str) {
    assert_eq!(l.value, expected);
    assert_eq!(l.raw.as_deref(), Some(expected));
}

fn assert_kept(l: &PathLiteral, original: &str) {
    assert_eq!(l.value, original);
    assert_eq!(l.raw, Some(format!("'{}'", original)));
}

#[test]
fn default_prefix_resolves_under_source_root() {
    let v = visitor("/work/proj/src/feature/x.ts", "/work/proj/");
    let m = matcher(&Config::default());
    assert_rewritten(&import_of(&v, &m, "@/a/b"), "\"src/a/b\"");
}

#[test]
fn allowed_subname_is_kept_in_path() {
    let v = visitor("/work/proj/src/feature/x.ts", "/work/proj/");
    let m = matcher(&config(None, Some(&["common"])));
    assert_rewritten(&import_of(&v, &m, "@common/util"), "\"src/common/util\"");
    assert_rewritten(&import_of(&v, &m, "@/util"), "\"src/util\"");
}

#[test]
fn subname_not_allowed_is_not_an_alias() {
    let v = visitor("/work/proj/src/feature/x.ts", "/work/proj/");
    let m = matcher(&config(None, Some(&["common"])));
    assert_kept(&import_of(&v, &m, "@other/util"), "@other/util");
}

#[test]
fn unmatched_literals_are_unchanged() {
    let v = visitor("/work/proj/src/feature/x.ts", "/work/proj/");
    let m = matcher(&Config::default());
    for s in ["./foo", "react", "@scope", "", "src/a"] {
        assert_kept(&import_of(&v, &m, s), s);
    }
}

#[test]
fn file_outside_any_source_root_is_unchanged() {
    let v = visitor("/work/proj/lib/x.ts", "/work/proj/");
    let m = matcher(&config(None, Some(&["common"])));
    assert_kept(&import_of(&v, &m, "@/a/b"), "@/a/b");
    assert_kept(&import_of(&v, &m, "@common/a"), "@common/a");
}

#[test]
fn second_rewrite_changes_nothing() {
    let v = visitor("/work/proj/src/feature/x.ts", "/work/proj/");
    let m = matcher(&Config::default());
    let mut decl = ImportDecl { src: lit("@/a/b") };
    v.visit_mut_import_decl(&m, &mut decl);
    assert_rewritten(&decl.src, "\"src/a/b\"");
    v.visit_mut_import_decl(&m, &mut decl);
    assert_rewritten(&decl.src, "\"src/a/b\"");
}

#[test]
fn alias_left_in_payload_is_rewritten_again() {
    let v = visitor("/work/proj/src/x.ts", "/work/proj/");
    let m = matcher(&Config::default());
    let once = import_of(&v, &m, "@/a/@/b");
    assert_rewritten(&once, "\"src/a/@/b\"");
    let twice = import_of(&v, &m, "src/a/@/b");
    assert_rewritten(&twice, "\"src/src/a/b\"");
}

#[test]
fn dynamic_import_is_rewritten_like_static_import() {
    let v = visitor("/work/proj/src/feature/x.ts", "/work/proj/");
    let m = matcher(&Config::default());
    let mut call = CallExpr {
        callee: Callee::Import(ImportPhase::Evaluation),
        args: vec![Argument::Str(lit("@/a")), Argument::Other],
    };
    v.visit_mut_call_expr(&m, &mut call);
    let stat = import_of(&v, &m, "@/a");
    match &call.args[0] {
        Argument::Str(l) => {
            assert_rewritten(l, "\"src/a\"");
            assert_eq!(l.value, stat.value);
            assert_eq!(l.raw, stat.raw);
        }
        Argument::Other => panic!("first argument lost its literal"),
    }
    assert!(matches!(call.args[1], Argument::Other));
}

#[test]
fn other_calls_are_skipped() {
    let v = visitor("/work/proj/src/feature/x.ts", "/work/proj/");
    let m = matcher(&Config::default());
    let shapes = [
        (Callee::Import(ImportPhase::Source), vec![Argument::Str(lit("@/a"))]),
        (Callee::Import(ImportPhase::Defer), vec![Argument::Str(lit("@/a"))]),
        (Callee::Other, vec![Argument::Str(lit("@/a"))]),
        (Callee::Import(ImportPhase::Evaluation), vec![Argument::Other, Argument::Str(lit("@/a"))]),
        (Callee::Import(ImportPhase::Evaluation), vec![]),
    ];
    for (callee, args) in shapes {
        let n = args.len();
        let mut call = CallExpr { callee, args };
        v.visit_mut_call_expr(&m, &mut call);
        assert_eq!(call.args.len(), n);
        for a in &call.args {
            if let Argument::Str(l) = a {
                assert_kept(l, "@/a");
            }
        }
    }
}

#[test]
fn named_export_without_source_is_kept() {
    let v = visitor("/work/proj/src/feature/x.ts", "/work/proj/");
    let m = matcher(&Config::default());
    let mut e = NamedExport { src: None };
    v.visit_mut_named_export(&m, &mut e);
    assert!(e.src.is_none());
}

#[test]
fn named_export_with_source_is_rewritten() {
    let v = visitor("/work/proj/src/feature/x.ts", "/work/proj/");
    let m = matcher(&Config::default());
    let mut e = NamedExport { src: Some(lit("@/a")) };
    v.visit_mut_named_export(&m, &mut e);
    assert_rewritten(e.src.as_ref().unwrap(), "\"src/a\"");
}

#[test]
fn export_all_is_rewritten() {
    let v = visitor("/work/proj/src/feature/x.ts", "/work/proj/");
    let m = matcher(&config(None, Some(&["lib", "common"])));
    let mut e = ExportAll { src: lit("@common/x") };
    v.visit_mut_export_all(&m, &mut e);
    assert_rewritten(&e.src, "\"src/common/x\"");
}

#[test]
fn last_src_segment_is_the_root() {
    let v = visitor("/work/proj/packages/app/src/pkg/src/x.ts", "/work/proj/");
    let m = matcher(&Config::default());
    assert_rewritten(&import_of(&v, &m, "@/a"), "\"packages/app/src/pkg/src/a\"");
}

#[test]
fn working_directory_not_in_front_is_not_stripped() {
    let v = visitor("/a/src/x.ts", "/b/");
    let m = matcher(&Config::default());
    assert_rewritten(&import_of(&v, &m, "@/y"), "\"/a/src/y\"");
}

#[test]
fn alias_in_the_middle_is_found() {
    let v = visitor("/work/proj/src/x.ts", "/work/proj/");
    let m = matcher(&Config::default());
    assert_rewritten(&import_of(&v, &m, "x@/y"), "\"src/xy\"");
}

#[test]
fn custom_prefix_is_read_literally() {
    let v = visitor("/work/proj/src/x.ts", "/work/proj/");
    let m = matcher(&config(Some("~"), None));
    assert_rewritten(&import_of(&v, &m, "~/a"), "\"src/a\"");
    assert_kept(&import_of(&v, &m, "@/a"), "@/a");
    let dot = matcher(&config(Some("."), None));
    assert_kept(&import_of(&v, &dot, "x/a"), "x/a");
    assert_rewritten(&import_of(&v, &dot, "./a"), "\"src/a\"");
}

#[test]
fn pattern_text_escapes_every_name() {
    assert_eq!(alias_pattern_text(&Config::default()), "@/");
    assert_eq!(alias_pattern_text(&config(Some("$"), None)), "\\$/");
    assert_eq!(
        alias_pattern_text(&config(None, Some(&["a.b", "c"]))),
        "@(a\\.b|c)?/"
    );
    assert_eq!(alias_pattern_text(&config(None, Some(&[]))), "@/");
    assert_eq!(alias_pattern_text(&config(Some("a+"), Some(&["", "x"]))), "a\\+(|x)?/");
}

#[test]
fn cache_compiles_each_pattern_once() {
    let mut cache = MatcherCache::new();
    let a = cache.matcher_for(&Config::default()).unwrap();
    let b = cache.matcher_for(&config(Some("@"), Some(&[]))).unwrap();
    assert_eq!(a, b);
    assert_eq!(cache.len(), 1);
    let c = cache.matcher_for(&config(None, Some(&["common"]))).unwrap();
    assert_eq!(c, 1);
    assert_eq!(cache.len(), 2);
    let v = visitor("/p/src/x.ts", "/p/");
    assert_rewritten(&import_of(&v, cache.get(c), "@common/z"), "\"src/common/z\"");
}

#[test]
fn rewrite_from_given_match() {
    let v = visitor("/work/proj/src/feature/x.ts", "/work/proj/");
    let found = Some(AliasMatch { matched: "@common/".to_string(), subname: Some("common".to_string()) });
    assert_eq!(v.rewrite_matched("@common/util", &found), Some("\"src/common/util\"".to_string()));
    let bare = Some(AliasMatch { matched: "@/".to_string(), subname: None });
    assert_eq!(v.rewrite_matched("@/a/b", &bare), Some("\"src/a/b\"".to_string()));
    let empty = Some(AliasMatch { matched: "@/".to_string(), subname: Some(String::new()) });
    assert_eq!(v.rewrite_matched("@/a/b", &empty), Some("\"src//a/b\"".to_string()));
    assert_eq!(v.rewrite_matched("@/a/b", &None), None);
    let elsewhere = visitor("/work/proj/lib/x.ts", "/work/proj/");
    assert_eq!(elsewhere.rewrite_matched("@/a/b", &bare), None);
}

#[test]
fn captures_report_match_and_group() {
    let m = matcher(&config(None, Some(&["common"])));
    let found = m.captures("x/@common/y").unwrap();
    assert_eq!(found.matched, "@common/");
    assert_eq!(found.subname.as_deref(), Some("common"));
    assert!(m.captures("./y").is_none());
}

#[test]
fn empty_allowed_name_stands_in_path() {
    let v = visitor("/work/proj/src/feature/x.ts", "/work/proj/");
    let m = matcher(&config(None, Some(&["", "x"])));
    assert_rewritten(&import_of(&v, &m, "@/a"), "\"src//a\"");
    assert_rewritten(&import_of(&v, &m, "@x/a"), "\"src/x/a\"");
}

#[test]
fn no_allowed_names_means_no_group() {
    let m = matcher(&Config::default());
    let found = m.captures("@/a").unwrap();
    assert_eq!(found.matched, "@/");
    assert!(found.subname.is_none());
}

#[test]
fn cache_hit_needs_no_compile() {
    let mut cache = MatcherCache::new();
    let first = cache.matcher_for(&config(Some("~"), Some(&["lib"])));
    assert_eq!(first, Ok(0));
    assert_eq!(cache.matcher_for(&config(Some("~"), Some(&["lib"]))), Ok(0));
    assert_eq!(cache.len(), 1);
}
