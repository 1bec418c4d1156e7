use blextism::naming::safe_ident;

#[test]
fn reserved_words_become_raw_identifiers() {
    assert_eq!(safe_ident("fn"), "r#fn");
    assert_eq!(safe_ident("use"), "r#use");
    assert_eq!(safe_ident("move"), "r#move");
    assert_eq!(safe_ident("struct"), "r#struct");
    assert_eq!(safe_ident("enum"), "r#enum");
    assert_eq!(safe_ident("union"), "r#union");
    assert_eq!(safe_ident("trait"), "r#trait");
    assert_eq!(safe_ident("type"), "r#type");
    assert_eq!(safe_ident("match"), "r#match");
    assert_eq!(safe_ident("box"), "r#box");
    assert_eq!(safe_ident("impl"), "r#impl");
}

#[test]
fn self_gets_an_underscore() {
    assert_eq!(safe_ident("self"), "_self");
}

#[test]
fn other_names_pass_unchanged() {
    assert_eq!(safe_ident("location"), "location");
    assert_eq!(safe_ident("fn_"), "fn_");
    assert_eq!(safe_ident("Type"), "Type");
    assert_eq!(safe_ident(""), "");
}
