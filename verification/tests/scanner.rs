use struct_box::scan::{scan, Declaration};
use struct_box::token::{Kind, Token};

fn ident(text: &str) -> Token {
    Token::new(Kind::Ident, text)
}

fn group(text: &str) -> Token {
    Token::new(Kind::Group, text)
}

fn punct(text: &str) -> Token {
    Token::new(Kind::Punct, text)
}

fn literal(text: &str) -> Token {
    Token::new(Kind::Literal, text)
}

fn declared(vis: Vec<Token>, name: &str) -> Option<Declaration> {
    Some(Declaration { vis, name: name.to_string() })
}

#[test]
fn token_new_keeps_kind_and_text() {
    let token = Token::new(Kind::Group, "(crate)");
    assert_eq!(token.kind, Kind::Group);
    assert_eq!(token.text, "(crate)");
    assert_eq!(token.clone(), token);
}

#[test]
fn is_word_needs_an_identifier_with_that_text() {
    assert!(ident("pub").is_word("pub"));
    assert!(!ident("public").is_word("pub"));
    assert!(!ident("pu").is_word("pub"));
    assert!(!literal("pub").is_word("pub"));
    assert!(!group("pub").is_word("pub"));
    assert!(!punct("pub").is_word("pub"));
}

#[test]
fn private_struct_has_no_visibility() {
    let tokens = vec![ident("struct"), ident("Secret"), group("{ data : String }")];
    assert_eq!(scan(&tokens), declared(vec![], "Secret"));
}

#[test]
fn public_struct_keeps_pub() {
    let tokens = vec![ident("pub"), ident("struct"), ident("Secret"), punct(";")];
    assert_eq!(scan(&tokens), declared(vec![ident("pub")], "Secret"));
}

#[test]
fn crate_visible_struct_keeps_pub_and_group() {
    let tokens = vec![
        ident("pub"),
        group("(crate)"),
        ident("struct"),
        ident("Secret"),
        group("{ data : String }"),
    ];
    assert_eq!(scan(&tokens), declared(vec![ident("pub"), group("(crate)")], "Secret"));
}

#[test]
fn scoped_visibility_path_is_never_the_name() {
    let tokens = vec![
        ident("pub"),
        group("(in some :: path)"),
        ident("enum"),
        ident("Choice"),
        group("{ Yes , No }"),
    ];
    assert_eq!(
        scan(&tokens),
        declared(vec![ident("pub"), group("(in some :: path)")], "Choice")
    );
}

#[test]
fn generic_parameters_are_never_the_name() {
    let tokens = vec![
        ident("pub"),
        ident("struct"),
        ident("Wrapper"),
        punct("<"),
        ident("T"),
        punct(":"),
        ident("Clone"),
        punct(">"),
        ident("where"),
        ident("T"),
        punct(":"),
        ident("Send"),
        group("{ inner : T }"),
    ];
    assert_eq!(scan(&tokens), declared(vec![ident("pub")], "Wrapper"));
}

#[test]
fn lifetime_parameters_are_never_the_name() {
    let tokens = vec![
        ident("struct"),
        ident("Borrowed"),
        punct("<"),
        punct("'"),
        ident("a"),
        punct(">"),
        group("{ data : & 'a str }"),
    ];
    assert_eq!(scan(&tokens), declared(vec![], "Borrowed"));
}

#[test]
fn attributes_before_the_declaration_are_passed_over() {
    let tokens = vec![
        punct("#"),
        group("[doc = \"A secret.\"]"),
        punct("#"),
        group("[serde (rename_all = \"camelCase\")]"),
        ident("pub"),
        group("(super)"),
        ident("struct"),
        ident("Secret"),
        group("{ data : String }"),
    ];
    assert_eq!(scan(&tokens), declared(vec![ident("pub"), group("(super)")], "Secret"));
}

#[test]
fn attribute_between_visibility_and_kind() {
    // `#` separates the group from `pub`, so the group is not part of the visibility
    let tokens = vec![
        ident("pub"),
        punct("#"),
        group("[repr (C)]"),
        ident("struct"),
        ident("Secret"),
    ];
    assert_eq!(scan(&tokens), declared(vec![ident("pub")], "Secret"));
}

#[test]
fn any_group_directly_after_pub_is_kept() {
    let tokens = vec![ident("pub"), group("[odd]"), ident("struct"), ident("Secret")];
    assert_eq!(scan(&tokens), declared(vec![ident("pub"), group("[odd]")], "Secret"));
}

#[test]
fn group_after_another_token_is_not_kept() {
    let tokens = vec![group("(crate)"), ident("struct"), ident("Secret")];
    assert_eq!(scan(&tokens), declared(vec![], "Secret"));
}

#[test]
fn every_pub_before_the_name_is_kept() {
    let tokens = vec![
        ident("pub"),
        group("(crate)"),
        ident("pub"),
        ident("struct"),
        ident("Secret"),
    ];
    assert_eq!(
        scan(&tokens),
        declared(vec![ident("pub"), group("(crate)"), ident("pub")], "Secret")
    );
}

#[test]
fn only_one_group_after_pub_is_kept() {
    let tokens = vec![
        ident("pub"),
        group("(crate)"),
        group("(super)"),
        ident("struct"),
        ident("Secret"),
    ];
    assert_eq!(scan(&tokens), declared(vec![ident("pub"), group("(crate)")], "Secret"));
}

#[test]
fn pub_after_the_name_is_not_read() {
    let tokens = vec![
        ident("struct"),
        ident("Secret"),
        ident("pub"),
        group("(crate)"),
    ];
    assert_eq!(scan(&tokens), declared(vec![], "Secret"));
}

#[test]
fn first_identifier_is_the_name_without_kind_marker() {
    let tokens = vec![ident("union"), ident("Bits")];
    assert_eq!(scan(&tokens), declared(vec![], "union"));
}

#[test]
fn raw_identifier_is_a_name() {
    let tokens = vec![ident("struct"), ident("r#type")];
    assert_eq!(scan(&tokens), declared(vec![], "r#type"));
}

#[test]
fn literal_with_the_text_of_a_name_is_no_name() {
    let tokens = vec![ident("struct"), literal("Secret"), punct(";")];
    assert_eq!(scan(&tokens), None);
}

#[test]
fn empty_declaration_has_no_name() {
    assert_eq!(scan(&vec![]), None);
}

#[test]
fn keywords_alone_have_no_name() {
    let tokens = vec![ident("pub"), group("(crate)"), ident("struct"), ident("enum")];
    assert_eq!(scan(&tokens), None);
}

#[test]
fn punctuation_and_groups_alone_have_no_name() {
    let tokens = vec![punct("#"), group("[derive (Debug)]"), group("{ Secret }"), punct(";")];
    assert_eq!(scan(&tokens), None);
}

#[test]
fn pub_at_the_very_end_has_no_name() {
    let tokens = vec![ident("struct"), ident("pub")];
    assert_eq!(scan(&tokens), None);
}

#[test]
fn what_follows_the_name_changes_nothing() {
    let head = vec![ident("pub"), group("(crate)"), ident("enum"), ident("Choice")];
    let mut longer = head.clone();
    longer.push(punct("<"));
    longer.push(ident("Other"));
    longer.push(punct(">"));
    longer.push(ident("pub"));
    longer.push(group("(super)"));
    assert_eq!(scan(&longer), scan(&head));
    assert_eq!(scan(&head), declared(vec![ident("pub"), group("(crate)")], "Choice"));
}
