use qlue_ls::ast::{
    BlankPropertyList, GroupGraphPattern, Iri, PrefixDeclaration, PrefixedName, QueryUnit, SelectQuery, Triple,
    TriplesBlock, Var, WhereClause,
};
use qlue_ls::lexer::Span;
use qlue_ls::parse_query;
use qlue_ls::syntax_kind::SyntaxKind;
use qlue_ls::syntax_tree::SyntaxNode;

fn walk<'a>(node: SyntaxNode<'a>, mut path: Vec<usize>) -> Option<SyntaxNode<'a>> {
    if path.is_empty() {
        return Some(node);
    }
    let head = path.remove(0);
    if let Some(child) = node.children().into_iter().nth(head) {
        return walk(child, path);
    }
    None
}

#[test]
fn blank_node_property_lists() {
    let input = "SELECT * WHERE { ?s ?p []}";
    let (tree, _) = parse_query(input);
    let node = walk(tree.root(), vec![0, 0, 1, 0, 0, 0, 0, 1, 1, 0, 0, 0, 0]).unwrap();
    assert_eq!(node.kind(), SyntaxKind::BlankNode);
    let ast_node = BlankPropertyList::cast(node).unwrap();
    assert!(ast_node.property_list().is_none());

    let input = "SELECT * WHERE { ?s ?p [?a ]}";
    let (tree, _) = parse_query(input);
    let node = walk(tree.root(), vec![0, 0, 1, 0, 0, 0, 0, 1, 1, 0, 0, 0, 0]).unwrap();
    let ast_node = BlankPropertyList::cast(node).unwrap();
    assert!(ast_node.property_list().is_some());
}

#[test]
fn prologue() {
    let input = "PREFIX a: <dings>\n Prefix b: <foo> SELECT ?a WHERE { ?s ?p ?o}";

    let (tree, _) = parse_query(input);
    let query_unit = QueryUnit::cast(tree.root()).unwrap();
    let prologue = query_unit.prologue().unwrap();
    assert_eq!(prologue.prefix_declarations()[0].prefix().unwrap(), "a");
    assert_eq!(
        prologue.prefix_declarations()[0].uri_prefix().unwrap(),
        "<dings>"
    );

    assert_eq!(prologue.prefix_declarations()[1].prefix().unwrap(), "b");
    assert_eq!(
        prologue.prefix_declarations()[1].uri_prefix().unwrap(),
        "<foo>"
    );

    let (tree2, _) = parse_query("SELECT * {}");
    let query_unit2 = QueryUnit::cast(tree2.root()).unwrap();
    assert!(query_unit2.prologue().is_none());
}

#[test]
fn where_clause() {
    let input = "SELECT ?a WHERE { ?s ?p ?o}";

    let (tree, _) = parse_query(input);
    let node = walk(tree.root(), vec![0, 0, 1]).unwrap();
    let where_clause = WhereClause::cast(node).unwrap();
    assert_eq!(
        where_clause.where_token().unwrap().text_range(),
        Span { start: 10, end: 15 }
    );
    assert_eq!(
        where_clause.group_graph_pattern().unwrap().syntax.text(),
        "{ ?s ?p ?o}"
    );
}

#[test]
fn group_graph_pattern() {
    let input = "SELECT * { ?s ?p ?o . {} ?a  ?b ?c .     ?x ?y  ?z}";
    let (tree, _) = parse_query(input);
    let node = walk(tree.root(), vec![0, 0, 1, 0]).unwrap();
    let ggp = GroupGraphPattern::cast(node).unwrap();
    let triples_blocks = ggp.triple_blocks();
    assert_eq!(triples_blocks.len(), 2);
    assert_eq!(
        triples_blocks[1].group_graph_pattern().unwrap().syntax.text(),
        "{ ?s ?p ?o . {} ?a  ?b ?c .     ?x ?y  ?z}"
    );
    assert_eq!(
        ggp.l_paren_token().unwrap().text_range(),
        Span { start: 9, end: 10 }
    );
    assert_eq!(
        ggp.r_paren_token().unwrap().text_range(),
        Span { start: 50, end: 51 }
    );
}

#[test]
fn tests_triples_block() {
    let input = "SELECT * { ?s ?p ?o . ?a  ?b ?c .     ?x ?y  ?z}";
    let (tree, _) = parse_query(input);
    let node = walk(tree.root(), vec![0, 0, 1, 0, 0, 0]).unwrap();
    let triples_block = TriplesBlock::cast(node).unwrap();
    let triples = triples_block.triples();
    assert_eq!(triples.len(), 3);
    assert_eq!(triples_block.triples()[0].syntax.text(), "?s ?p ?o");
    assert_eq!(triples_block.triples()[1].syntax.text(), "?a  ?b ?c");
    assert_eq!(triples_block.triples()[2].syntax.text(), "?x ?y  ?z");
    assert_eq!(
        triples[2].triples_block().unwrap().syntax().text(),
        "?s ?p ?o . ?a  ?b ?c .     ?x ?y  ?z"
    );
}

#[test]
fn triples_block() {
    let input = "SELECT * { ?s ?p ?o . ?a  ?b ?c .     ?x ?y  ?z}";
    let (tree, _) = parse_query(input);
    let node = walk(tree.root(), vec![0, 0, 1, 0, 0, 0]).unwrap();
    let triples_block = TriplesBlock::cast(node).unwrap();
    let triples = triples_block.triples();
    assert_eq!(triples.len(), 3);
    assert_eq!(triples_block.triples()[0].syntax.text(), "?s ?p ?o");
    assert_eq!(triples_block.triples()[1].syntax.text(), "?a  ?b ?c");
    assert_eq!(triples_block.triples()[2].syntax.text(), "?x ?y  ?z");
    assert_eq!(
        triples[2].triples_block().unwrap().syntax.text(),
        "?s ?p ?o . ?a  ?b ?c .     ?x ?y  ?z"
    );
}

#[test]
fn ast_triple() {
    let input = "SELECT * { ?s ?p ?o ; ?p2 ?o2 ; ?p3 ?o3}";
    let (tree, _) = parse_query(input);
    let node = walk(tree.root(), vec![0, 0, 1, 0, 0, 0, 0]).unwrap();
    let triple = Triple::cast(node).unwrap();
    println!(
        "{:?}",
        triple
            .variables()
            .iter()
            .map(|var| var.syntax().text())
            .collect::<Vec<String>>()
    );
}

#[test]
fn a_triple_lists_its_variables_in_order() {
    let input = "SELECT * { ?s ?p ?o ; ?p2 ?o2 }";
    let (tree, _) = parse_query(input);
    let query = QueryUnit::cast(tree.root()).unwrap().select_query().unwrap();
    let names: Vec<String> = query.variables().iter().map(|v| v.var_name()).collect();
    assert_eq!(names, vec!["s", "p", "o", "p2", "o2"]);
}

#[test]
fn select_clause_and_where_clause() {
    let input = "SELECT ?a $b WHERE { ?a <p> ?b }";
    let (tree, _) = parse_query(input);
    let query = QueryUnit::cast(tree.root()).unwrap().select_query().unwrap();
    let clause = query.select_clause().unwrap();
    let names: Vec<String> = clause.variables().iter().map(|v| v.var_name()).collect();
    assert_eq!(names, vec!["a", "b"]);
    assert!(clause.select_query().is_some());
    assert!(query.where_clause().is_some());
    assert!(SelectQuery::can_cast(SyntaxKind::SubSelect));
    assert!(!SelectQuery::can_cast(SyntaxKind::WhereClause));
}

#[test]
fn variables_know_their_triple() {
    let input = "SELECT * { ?s <p> ?o }";
    let (tree, _) = parse_query(input);
    let vars: Vec<Var> = tree
        .root()
        .descendants()
        .into_iter()
        .filter_map(Var::cast)
        .collect();
    assert_eq!(vars.len(), 2);
    assert_eq!(vars[1].triple().unwrap().syntax.text(), "?s <p> ?o");
}

#[test]
fn iris_and_prefixed_names() {
    let input = "SELECT * { <http://a.org/x> wdt:P31 ?o }";
    let (tree, _) = parse_query(input);
    let iris: Vec<Iri> = tree
        .root()
        .descendants()
        .into_iter()
        .filter_map(Iri::cast)
        .collect();
    assert_eq!(iris.len(), 2);
    assert_eq!(iris[0].raw_iri().unwrap(), "http://a.org/x");
    assert!(iris[0].prefixed_name().is_none());
    assert!(iris[1].raw_iri().is_none());
    let name: PrefixedName = iris[1].prefixed_name().unwrap();
    assert_eq!(name.prefix(), "wdt");
    assert_eq!(name.name(), "P31");
}

fn names(vars: &[Var]) -> Vec<String> {
    vars.iter().map(|v| v.var_name()).collect()
}

#[test]
fn visible_variables_of_a_star_select() {
    let input = "SELECT * WHERE { ?s ?p ?o OPTIONAL { ?s <q> ?x } FILTER(?o > 1) BIND(1 AS ?b) }";
    let (tree, _) = parse_query(input);
    let query = QueryUnit::cast(tree.root()).unwrap();
    assert_eq!(
        names(&query.visible_variables()),
        vec!["s", "p", "o", "s", "x", "o", "b"]
    );
}

#[test]
fn visible_variables_of_a_projection() {
    let input = "SELECT ?o ?s WHERE { ?s ?p ?o }";
    let (tree, _) = parse_query(input);
    let query = QueryUnit::cast(tree.root()).unwrap();
    assert_eq!(names(&query.visible_variables()), vec!["o", "s"]);
}

#[test]
fn visible_variables_of_a_union_and_a_sub_select() {
    let input = "SELECT * { { ?a <p> ?b } UNION { SELECT ?c WHERE { ?c ?d ?e } } }";
    let (tree, _) = parse_query(input);
    let query = QueryUnit::cast(tree.root()).unwrap();
    assert_eq!(names(&query.visible_variables()), vec!["a", "b", "c"]);
}

#[test]
fn group_patterns_other_than_triples() {
    let input = "SELECT * { ?s ?p ?o . OPTIONAL { ?s <q> ?x } MINUS { ?s <r> ?y } }";
    let (tree, _) = parse_query(input);
    let query = QueryUnit::cast(tree.root()).unwrap().select_query().unwrap();
    let ggp = query.where_clause().unwrap().group_graph_pattern().unwrap();
    let patterns = ggp.group_pattern_not_triples();
    assert_eq!(patterns.len(), 2);
    assert!(matches!(patterns[0], qlue_ls::ast::GraphPatternNotTriples::OptionalGraphPattern(_)));
    assert!(matches!(patterns[1], qlue_ls::ast::GraphPatternNotTriples::MinusGraphPattern(_)));
    assert!(!tree.root().has_error());
}

#[test]
fn used_prefixes_in_preorder() {
    let input = "SELECT * { ?s wdt:P31 wd:Q5 ; rdfs:label ?l }";
    let (tree, _) = parse_query(input);
    assert_eq!(
        qlue_ls::ast::used_prefixes(&tree.root()),
        vec!["wdt", "wd", "rdfs"]
    );
}

#[test]
fn errors_are_found_in_the_tree() {
    let (tree, _) = parse_query("SELECT } WHERE ?? {");
    assert!(tree.root().has_error());
}

#[test]
fn filter_pattern_holds_no_group_graph_pattern() {
    let input = "SELECT * { ?s ?p ?o FILTER(?s) }";
    let (tree, _) = parse_query(input);
    let query = QueryUnit::cast(tree.root()).unwrap().select_query().unwrap();
    let ggp = query.where_clause().unwrap().group_graph_pattern().unwrap();
    let patterns = ggp.group_pattern_not_triples();
    assert_eq!(patterns.len(), 1);
    assert!(matches!(patterns[0], qlue_ls::ast::GraphPatternNotTriples::Filter(_)));
    assert!(patterns[0].group_graph_pattern().is_none());
}

#[test]
fn checked_accessors_on_parsed_names() {
    let input = "SELECT ?a WHERE { ?a wdt:P31 ?o }";
    let (tree, _) = parse_query(input);
    let vars: Vec<Var> = tree
        .root()
        .descendants()
        .into_iter()
        .filter_map(Var::cast)
        .collect();
    assert_eq!(vars[0].checked_var_name(), Some("a".to_string()));
    let names: Vec<PrefixedName> = tree
        .root()
        .descendants()
        .into_iter()
        .filter_map(PrefixedName::cast)
        .collect();
    assert_eq!(names.len(), 1);
    assert_eq!(names[0].checked_parts(), Some(("wdt".to_string(), "P31".to_string())));
}

#[test]
fn checked_prefix_of_a_declaration() {
    let input = "PREFIX wdt: <http://www.wikidata.org/prop/direct/>\nSELECT * {}";
    let (tree, _) = parse_query(input);
    let decls: Vec<PrefixDeclaration> = tree
        .root()
        .descendants()
        .into_iter()
        .filter_map(PrefixDeclaration::cast)
        .collect();
    assert_eq!(decls.len(), 1);
    assert_eq!(decls[0].checked_prefix(), Some("wdt".to_string()));
}
