use scrambler::classify::{simple_model, FieldClassifier, InputRule};
use scrambler::naming::{singular_from_camel, singular_type_name};
use scrambler::navigation::InputType;

#[test]
fn plural_table_names_lose_their_s() {
    assert_eq!(singular_type_name("todos".to_string()), "Todo");
    assert_eq!(singular_type_name("teams".to_string()), "Team");
}

#[test]
fn names_without_s_keep_their_form() {
    assert_eq!(singular_type_name("data".to_string()), "Data");
    assert_eq!(singular_type_name("people".to_string()), "People");
}

#[test]
fn naive_rule_on_irregular_plural() {
    assert_eq!(singular_type_name("statuses".to_string()), "Statuse");
    assert_eq!(singular_type_name("user_accounts".to_string()), "UserAccount");
}

#[test]
fn singular_from_given_camel_form() {
    assert_eq!(singular_from_camel("todos", "Todos"), "Todo");
    assert_eq!(singular_from_camel("data", "Data"), "Data");
    assert_eq!(singular_from_camel("s", ""), "");
    assert_eq!(singular_from_camel("", "X"), "X");
}

#[test]
fn classification_examples() {
    assert_eq!(simple_model("title".to_string()), InputType::Input);
    assert_eq!(simple_model("completed".to_string()), InputType::Input);
    assert_eq!(simple_model("quantity_type".to_string()), InputType::Select);
    assert_eq!(simple_model("body".to_string()), InputType::TextArea);
    assert_eq!(simple_model("uuid".to_string()), InputType::Hidden);
    assert_eq!(simple_model("id".to_string()), InputType::Input);
    assert_eq!(simple_model("ident".to_string()), InputType::Input);
    // no rule mentions any part of "description"
    assert_eq!(simple_model("description".to_string()), InputType::Input);
}

#[test]
fn first_matching_rule_wins() {
    // "title" (one-line input) is listed before "type" (select box)
    assert_eq!(simple_model("title_type".to_string()), InputType::Input);
    // "text" (text area) is listed before "number" (select box)
    assert_eq!(simple_model("text_number".to_string()), InputType::TextArea);
    // "uuid" (hidden) is listed first of all
    assert_eq!(simple_model("owner_uuid_name".to_string()), InputType::Hidden);
}

#[test]
fn classification_ignores_case() {
    assert_eq!(simple_model("BODY".to_string()), InputType::TextArea);
    assert_eq!(simple_model("Item_Number".to_string()), InputType::Select);
}

#[test]
fn lowered_names_are_matched_as_given() {
    let c = FieldClassifier::standard();
    assert_eq!(c.classify_lowered("content"), InputType::TextArea);
    assert_eq!(c.classify_lowered("CONTENT"), InputType::Input);
}

#[test]
fn custom_rule_list_is_honoured() {
    let c = FieldClassifier {
        rules: vec![
            InputRule::new("email", true, InputType::Hidden),
            InputRule::new("mail", false, InputType::TextArea),
        ],
    };
    assert_eq!(c.classify("Email"), InputType::Hidden);
    assert_eq!(c.classify("mailbox"), InputType::TextArea);
    assert_eq!(c.classify("title"), InputType::Input);
}
