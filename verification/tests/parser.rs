use qlue_ls::syntax_kind::SyntaxKind;
use qlue_ls::syntax_tree::SyntaxTree;
use qlue_ls::{
    determine_operation_type, guess_operation_type, guess_query_type, parse, parse_query,
    parse_update, QueryType, TopEntryPoint,
};

fn root_text(tree: &SyntaxTree) -> String {
    tree.root().text()
}

#[test]
fn parse_tokens_after() {
    let input = "SELECT * WHERE {} hay";
    let (tree, _) = parse_query(input);
    assert!(matches!(
        tree.last_token().unwrap().kind(),
        SyntaxKind::Error
    ));
}

#[test]
fn tests_parse_tokens_after() {
    let input = "SELECT * WHERE {} hay";
    let (tree, _) = parse_query(input);
    assert!(matches!(
        tree.last_token().unwrap().kind(),
        SyntaxKind::Error
    ));
}

#[test]
fn parse_tokens_before() {
    // NOTE: unexpected leading tokens must not produce an empty tree,
    // the entry point always yields a lossless UpdateUnit node
    let input = "dings\nCLEAR <GraphRef>;";
    let (tree, _) = parse_update(input);
    let root = tree.root();
    assert_eq!(root.kind(), SyntaxKind::UpdateUnit);
    assert_eq!(root.text(), input);
}

#[test]
fn recover_select_clause_before_where() {
    // NOTE: the broken SelectClause must not swallow the WHERE token,
    // the WhereClause should still parse completely
    let input = "SELECT WHERE { ?a ?b ?c }";
    let (tree, _) = parse_query(input);
    let root = tree.root();
    let where_clause = root
        .descendants()
        .into_iter()
        .find(|node| node.kind() == SyntaxKind::WhereClause)
        .expect("WhereClause should exist");
    let vars: Vec<_> = where_clause
        .descendants()
        .into_iter()
        .filter(|node| node.kind() == SyntaxKind::Var)
        .collect();
    assert_eq!(vars.len(), 3);
}

fn check_query(input: &str) {
    let (tree, errors) = parse_query(input);
    assert_eq!(root_text(&tree), input, "parse tree is not lossless");
    assert_eq!(tree.root().kind(), SyntaxKind::QueryUnit);
    let _ = errors;
}

fn check_update(input: &str) {
    let (tree, _) = parse_update(input);
    assert_eq!(root_text(&tree), input, "parse tree is not lossless");
    assert_eq!(tree.root().kind(), SyntaxKind::UpdateUnit);
}

fn check_auto(input: &str) {
    let (tree, _) = parse(input);
    assert_eq!(root_text(&tree), input, "parse tree is not lossless");
}

#[test]
fn select_simple() {
    check_query("SELECT * WHERE { ?s ?p ?o }");
}

#[test]
fn select_with_prefix() {
    check_query(
        "PREFIX foaf: <http://xmlns.com/foaf/0.1/>\nSELECT ?name WHERE { ?person foaf:name ?name }",
    );
}

#[test]
fn insert_data() {
    check_update(r#"INSERT DATA { <a> <b> "c" . }"#);
}

#[test]
fn auto_detect_ask() {
    check_auto("ASK { ?s ?p ?o }");
}

#[test]
fn error_recovery_incomplete_select() {
    check_query("SELECT ?s WHERE { ?s");
}

#[test]
fn error_recovery_garbage() {
    check_query("SELECT } WHERE ?? {");
}

#[test]
fn error_recovery_incomplete_select_clause() {
    check_query("SELECT ?a ? WHERE { }");
}

#[test]
fn a_well_formed_query_has_no_errors() {
    let (_, errors) = parse_query("SELECT * WHERE { ?s ?p ?o }");
    assert!(errors.is_empty());
}

#[test]
fn errors_name_what_was_expected() {
    let (_, errors) = parse_query("SELECT ?s WHERE { ?s");
    assert!(!errors.is_empty());
    assert!(errors[0].message.starts_with("Syntax Error: expected "));
    for error in &errors {
        assert!(error.span.start <= error.span.end);
        assert!(error.span.end <= "SELECT ?s WHERE { ?s".len());
    }
}

#[test]
fn an_error_at_the_end_sits_after_the_last_token() {
    let input = "SELECT ?s WHERE { ?s";
    let (_, errors) = parse_query(input);
    let last = errors.last().unwrap();
    assert_eq!(last.span.start, input.len());
    assert_eq!(last.span.end, input.len());
}

#[test]
fn the_tree_is_lossless_for_odd_inputs() {
    for input in [
        "",
        "   ",
        "# only a comment\n",
        "SELECT",
        "}}}{{{",
        "PREFIX : <x> SELECT * { ?s :p 'é' . } # ünïcode",
        "DELETE WHERE { ?a ?b ?c }",
    ] {
        let (query, _) = parse_query(input);
        assert_eq!(root_text(&query), input);
        let (update, _) = parse_update(input);
        assert_eq!(root_text(&update), input);
    }
}

#[test]
fn the_operation_is_guessed_from_the_first_keyword() {
    assert_eq!(guess_operation_type("SELECT * {}"), Some(TopEntryPoint::QueryUnit));
    assert_eq!(guess_operation_type("# c\n INSERT DATA {}"), Some(TopEntryPoint::UpdateUnit));
    assert_eq!(guess_operation_type("PREFIX a: <b> DELETE WHERE {}"), Some(TopEntryPoint::UpdateUnit));
    assert_eq!(guess_operation_type("PREFIX a: <b>"), None);
    assert_eq!(determine_operation_type("ask {}"), "Query");
    assert_eq!(determine_operation_type("CLEAR ALL"), "Update");
    assert_eq!(determine_operation_type("<a> <b> <c>"), "Unknown");
}

#[test]
fn the_query_form_is_guessed_from_the_first_keyword() {
    assert_eq!(guess_query_type("CONSTRUCT {} WHERE {}"), Some(QueryType::ConstructQuery));
    assert_eq!(guess_query_type("describe <x>"), Some(QueryType::DescribeQuery));
    assert_eq!(guess_query_type("ASK {}"), Some(QueryType::AskQuery));
    assert_eq!(guess_query_type("SELECT * {}"), Some(QueryType::SelectQuery));
    assert_eq!(guess_query_type("INSERT DATA {}"), None);
}

#[test]
fn parse_picks_the_entry_rule() {
    let (tree, _) = parse("INSERT DATA { <a> <b> <c> }");
    assert_eq!(tree.root().kind(), SyntaxKind::UpdateUnit);
    let (tree, _) = parse("<a> <b> <c>");
    assert_eq!(tree.root().kind(), SyntaxKind::QueryUnit);
}

#[test]
fn parse_reports_an_error_for_a_missing_where_body() {
    let (tree, errors) = qlue_ls::parse_query("SELECT ?a WHERE");
    assert!(!errors.is_empty());
    assert_eq!(tree.text_of(0), "SELECT ?a WHERE");
}
