use umber_lang::preprocessor::{preprocess, IncludeTable, Preprocessed};

fn empty_table() -> IncludeTable {
    IncludeTable { include_paths: vec![], files: vec![] }
}

fn run(text: &str, table: &IncludeTable) -> (Option<Preprocessed>, Vec<String>, Vec<(String, String)>) {
    let mut included: Vec<String> = Vec::new();
    let mut macros: Vec<(String, String)> = Vec::new();
    let r = preprocess("src/main.ub", text, &mut included, &mut macros, table);
    (r, included, macros)
}

fn text_of(r: Option<Preprocessed>) -> String {
    match r {
        Some(Preprocessed::Text(t)) => t,
        other => panic!("unexpected {:?}", other),
    }
}

fn error_of(r: Option<Preprocessed>) -> String {
    match r {
        Some(Preprocessed::Error(e)) => e,
        other => panic!("unexpected {:?}", other),
    }
}

#[test]
fn plain_lines_pass_through_and_comments_vanish() {
    let (r, _, _) = run("# a comment\na\r\nb", &empty_table());
    assert_eq!(text_of(r), "a\nb\n");
}

#[test]
fn a_macro_is_replaced_in_later_lines() {
    let (r, _, macros) = run("x = TWO\n#macro TWO 1 + 1\ny = TWO\n", &empty_table());
    assert_eq!(text_of(r), "x = TWO\ny = (1 + 1)\n");
    assert_eq!(macros, vec![("TWO".to_string(), "(1 + 1)".to_string())]);
}

#[test]
fn a_macro_body_uses_the_macros_before_it() {
    let (r, _, macros) = run("#macro A 1\n#macro B A+A\nB\n#macro A 2\nA B\n", &empty_table());
    assert_eq!(text_of(r), "((1)+(1))\n(2) ((1)+(1))\n");
    assert_eq!(macros.len(), 2);
    assert_eq!(macros[0], ("A".to_string(), "(2)".to_string()));
}

#[test]
fn directive_errors_name_the_line() {
    assert_eq!(error_of(run("a\n#\n", &empty_table()).0), "empty preprocessor directive in line 2");
    assert_eq!(error_of(run("#\t\n", &empty_table()).0), "empty preprocessor directive in line 1");
    assert_eq!(text_of(run("#   \n", &empty_table()).0), "");
    assert_eq!(error_of(run("#macro X\n", &empty_table()).0), "macro directive requires at least 2 arguments in line 1");
    assert_eq!(error_of(run("\n\n#define X 1\n", &empty_table()).0), "unknown preprocessor directive 'define' in line 3");
}

#[test]
fn an_include_looks_next_to_the_file_then_in_the_include_directories() {
    let text = "#include lib.ub\nb\n";
    let mut table = IncludeTable { include_paths: vec!["include".to_string()], files: vec![] };
    match run(text, &table).0 {
        Some(Preprocessed::NeedFile(loc)) => assert_eq!(loc, "src/lib.ub"),
        other => panic!("unexpected {:?}", other),
    }
    table.files.push(("src/lib.ub".to_string(), None));
    match run(text, &table).0 {
        Some(Preprocessed::NeedFile(loc)) => assert_eq!(loc, "include/lib.ub"),
        other => panic!("unexpected {:?}", other),
    }
    table.files.push(("include/lib.ub".to_string(), Some("#macro ONE 1\na\n".to_string())));
    let (r, included, macros) = run(text, &table);
    assert_eq!(text_of(r), "a\n\nb\n");
    assert_eq!(included, vec!["include/lib.ub".to_string()]);
    assert_eq!(macros, vec![("ONE".to_string(), "(1)".to_string())]);
}

#[test]
fn a_file_is_included_once() {
    let table = IncludeTable { include_paths: vec![], files: vec![("src/lib.ub".to_string(), Some("a".to_string()))] };
    let (r, included, _) = run("#include lib.ub\n#include lib.ub\nb\n", &table);
    assert_eq!(text_of(r), "a\n\nb\n");
    assert_eq!(included, vec!["src/lib.ub".to_string()]);
}

#[test]
fn include_errors() {
    let table = IncludeTable {
        include_paths: vec![],
        files: vec![("src/none.ub".to_string(), None), ("src/bad.ub".to_string(), Some("#what\n".to_string()))],
    };
    assert_eq!(error_of(run("#include none.ub\n", &table).0), "could not find included file none.ub");
    assert_eq!(
        error_of(run("#include bad.ub\n", &table).0),
        "error preprocessing included file src/bad.ub: unknown preprocessor directive 'what' in line 1"
    );
}

#[test]
fn an_invalid_pattern_or_a_file_that_includes_itself_gives_nothing() {
    assert!(run("#macro ( 1\nx\n", &empty_table()).0.is_none());
    let table = IncludeTable {
        include_paths: vec![],
        files: vec![("src/a.ub".to_string(), Some("#include a.ub\n".to_string()))],
    };
    assert!(run("#include a.ub\n", &table).0.is_none());
}
