use serde_json::{Number, Value};
use vent_txt::entry::Entry;
use vent_txt::helpers::{
    each_reverse, each_reverse_items, if_reply, if_reply_action, BlockAction, HelperError,
    EACH_REVERSE, IF_REPLY, INDEX_VARIABLE,
};
use vent_txt::json::{classify, Param};
use vent_txt::walk::ReverseWalk;

fn reply_value(reply: Option<usize>) -> Value {
    match reply {
        Some(position) => Value::Number(Number::from(position)),
        None => Value::Null,
    }
}

fn visits<T: Clone>(items: &Vec<T>) -> Vec<(usize, T)> {
    let mut seen = Vec::new();
    let mut walk = ReverseWalk::begin(items);
    while let Some((index, item)) = walk.visit() {
        seen.push((index, item.clone()));
        walk = walk.resume(Ok::<(), String>(())).unwrap();
    }
    seen
}

#[test]
fn if_reply_renders_for_a_reply_to_the_first_entry() {
    let entry = Entry::parse_entry("2024-01-01 00:00:00 +0000,>>0 hello").unwrap();
    assert_eq!(entry.reply, Some(0));
    let value = reply_value(entry.reply);
    assert_eq!(if_reply(Some(&value), true), Ok(BlockAction::Render));
}

#[test]
fn if_reply_renders_for_every_number() {
    assert_eq!(if_reply(Some(&Value::from(0u64)), true), Ok(BlockAction::Render));
    assert_eq!(if_reply(Some(&Value::from(17u64)), true), Ok(BlockAction::Render));
    assert_eq!(if_reply(Some(&Value::from(-3i64)), true), Ok(BlockAction::Render));
    assert_eq!(if_reply(Some(&Value::from(0.0f64)), true), Ok(BlockAction::Render));
    assert_eq!(if_reply(Some(&Value::from(2.5f64)), true), Ok(BlockAction::Render));
}

#[test]
fn if_reply_renders_nothing_for_null() {
    let entry = Entry::parse_entry("d,hello").unwrap();
    assert_eq!(if_reply(Some(&reply_value(entry.reply)), true), Ok(BlockAction::Skip));
    assert_eq!(if_reply(Some(&Value::Null), false), Ok(BlockAction::Skip));
}

#[test]
fn if_reply_refuses_other_types() {
    let others = vec![
        Value::Bool(false),
        Value::Bool(true),
        Value::String("0".to_string()),
        Value::String(String::new()),
        Value::Array(Vec::new()),
        Value::Array(vec![Value::from(1u64)]),
        Value::Object(serde_json::Map::new()),
    ];
    for value in &others {
        assert_eq!(if_reply(Some(value), true), Err(HelperError::InvalidParamType));
        assert_eq!(if_reply(Some(value), false), Err(HelperError::InvalidParamType));
    }
}

#[test]
fn if_reply_needs_a_parameter_and_for_a_number_a_block() {
    assert_eq!(if_reply(None, true), Err(HelperError::ParamNotFound));
    assert_eq!(if_reply(None, false), Err(HelperError::ParamNotFound));
    assert_eq!(if_reply(Some(&Value::from(0u64)), false), Err(HelperError::TemplateNotFound));
}

#[test]
fn if_reply_action_on_the_sorted_parameter() {
    assert_eq!(if_reply_action(Some(Param::Number), true), Ok(BlockAction::Render));
    assert_eq!(if_reply_action(Some(Param::Number), false), Err(HelperError::TemplateNotFound));
    assert_eq!(if_reply_action(Some(Param::Null), true), Ok(BlockAction::Skip));
    assert_eq!(if_reply_action(Some(Param::Null), false), Ok(BlockAction::Skip));
    assert_eq!(if_reply_action(Some(Param::Other), true), Err(HelperError::InvalidParamType));
    assert_eq!(if_reply_action(Some(Param::Other), false), Err(HelperError::InvalidParamType));
    assert_eq!(if_reply_action(None, true), Err(HelperError::ParamNotFound));
}

#[test]
fn classify_tells_the_json_types_apart() {
    assert_eq!(classify(&Value::from(0u64)), Param::Number);
    assert_eq!(classify(&Value::from(1.5f64)), Param::Number);
    assert_eq!(classify(&Value::Null), Param::Null);
    assert_eq!(classify(&Value::Bool(true)), Param::Other);
    assert_eq!(classify(&Value::String("1".to_string())), Param::Other);
    assert_eq!(classify(&Value::Array(vec![Value::from(1u64)])), Param::Other);
    assert_eq!(classify(&Value::Object(serde_json::Map::new())), Param::Other);
}

#[test]
fn each_reverse_takes_a_sequence() {
    let array = Value::Array(vec![Value::String("e0".to_string()), Value::String("e1".to_string())]);
    let items = each_reverse(Some(&array), true).unwrap();
    assert_eq!(items, &vec![Value::String("e0".to_string()), Value::String("e1".to_string())]);
    let empty = Value::Array(Vec::new());
    assert!(each_reverse(Some(&empty), true).unwrap().is_empty());
}

#[test]
fn each_reverse_refuses_what_is_no_sequence() {
    for value in [Value::Null, Value::from(3u64), Value::Bool(true), Value::String("abc".to_string()), Value::Object(serde_json::Map::new())] {
        assert_eq!(each_reverse(Some(&value), true), Err(HelperError::InvalidParamType));
    }
}

#[test]
fn each_reverse_needs_a_parameter_and_a_block() {
    let array = Value::Array(vec![Value::Null]);
    assert_eq!(each_reverse(None, true), Err(HelperError::ParamNotFound));
    assert_eq!(each_reverse(None, false), Err(HelperError::ParamNotFound));
    assert_eq!(each_reverse(Some(&array), false), Err(HelperError::TemplateNotFound));
    assert_eq!(each_reverse(Some(&Value::Null), false), Err(HelperError::TemplateNotFound));
}

#[test]
fn each_reverse_items_on_what_the_parameter_holds() {
    let items = vec!["a", "b"];
    assert_eq!(each_reverse_items(Some(Some(&items)), true), Ok(&items));
    assert_eq!(each_reverse_items(Some(Some(&items)), false), Err(HelperError::TemplateNotFound));
    assert_eq!(each_reverse_items::<&str>(Some(None), true), Err(HelperError::InvalidParamType));
    assert_eq!(each_reverse_items::<&str>(Some(None), false), Err(HelperError::TemplateNotFound));
    assert_eq!(each_reverse_items::<&str>(None, true), Err(HelperError::ParamNotFound));
    assert_eq!(each_reverse_items::<&str>(None, false), Err(HelperError::ParamNotFound));
}

#[test]
fn walk_visits_last_to_first_under_the_forward_positions() {
    let items = vec!["e0", "e1", "e2"];
    assert_eq!(visits(&items), vec![(2, "e2"), (1, "e1"), (0, "e0")]);
}

#[test]
fn walk_over_one_item_and_over_none() {
    assert_eq!(visits(&vec!['x']), vec![(0, 'x')]);
    assert_eq!(visits(&Vec::<char>::new()), Vec::new());
    let none: Vec<u8> = Vec::new();
    assert_eq!(ReverseWalk::begin(&none).visit(), None);
}

#[test]
fn walk_over_the_items_that_each_reverse_hands_out() {
    let array = Value::Array(vec![Value::from(10u64), Value::from(20u64), Value::from(30u64)]);
    let items = each_reverse(Some(&array), true).unwrap();
    assert_eq!(
        visits(items),
        vec![(2, Value::from(30u64)), (1, Value::from(20u64)), (0, Value::from(10u64))]
    );
}

#[test]
fn walk_ends_with_the_failure_of_a_block() {
    let items = vec!["e0", "e1", "e2"];
    let walk = ReverseWalk::begin(&items);
    assert_eq!(walk.visit(), Some((2, &"e2")));
    let walk = walk.resume(Ok::<(), String>(())).ok().unwrap();
    assert_eq!(walk.visit(), Some((1, &"e1")));
    let ended = walk.resume(Err("block failed".to_string()));
    assert_eq!(ended.err(), Some("block failed".to_string()));
}

#[test]
fn walk_that_has_finished_hands_out_nothing_more() {
    let items = vec![1u8];
    let walk = ReverseWalk::begin(&items).resume(Ok::<(), String>(())).ok().unwrap();
    assert_eq!(walk.visit(), None);
    let walk = walk.resume(Ok::<(), String>(())).ok().unwrap();
    assert_eq!(walk.visit(), None);
    assert_eq!(walk.resume(Err(7u8)).err(), Some(7u8));
}

#[test]
fn helper_errors_name_the_helper() {
    assert_eq!(HelperError::ParamNotFound.message("if_reply"), "Param not found for helper \"if_reply\"");
    assert_eq!(
        HelperError::TemplateNotFound.message("each_reverse"),
        "Template not found for helper \"each_reverse\""
    );
    assert_eq!(
        HelperError::InvalidParamType.message("each_reverse"),
        "Param of invalid type for helper \"each_reverse\""
    );
}

#[test]
fn helper_errors_reach_the_engine_with_their_report() {
    let error = HelperError::ParamNotFound.to_render_error(IF_REPLY);
    assert_eq!(error.desc, "Param not found for helper \"if_reply\"");
    assert_eq!(error.to_string(), "Param not found for helper \"if_reply\"");
    let error = HelperError::InvalidParamType.to_render_error(EACH_REVERSE);
    assert_eq!(error.desc, "Param of invalid type for helper \"each_reverse\"");
    let error = HelperError::TemplateNotFound.to_render_error("");
    assert_eq!(error.desc, "Template not found for helper \"\"");
}

#[test]
fn helpers_are_known_to_the_template_by_their_names() {
    assert_eq!(IF_REPLY, "if_reply");
    assert_eq!(EACH_REVERSE, "each_reverse");
    assert_eq!(INDEX_VARIABLE, "index");
}
