use serde_json::Value;
use todo_api::json::{append_todo, todo_to_json, todos_to_json};
use todo_api::todo::Todo;

fn todo(id: i32, content: &str) -> Todo {
    Todo::new(id, String::from(content))
}

#[test]
fn a_todo_is_an_object_of_id_and_content() {
    assert_eq!(todo_to_json(&todo(1, "buy milk")), r#"{"id":1,"content":"buy milk"}"#);
}

#[test]
fn a_negative_id_is_written_with_its_sign() {
    assert_eq!(todo_to_json(&todo(-5, "x")), r#"{"id":-5,"content":"x"}"#);
}

#[test]
fn an_empty_text_is_an_empty_string() {
    assert_eq!(todo_to_json(&todo(3, "")), r#"{"id":3,"content":""}"#);
}

#[test]
fn quotes_and_backslashes_are_escaped() {
    assert_eq!(
        todo_to_json(&todo(2, "say \"hi\" \\ bye")),
        r#"{"id":2,"content":"say \"hi\" \\ bye"}"#
    );
}

#[test]
fn named_control_characters_get_their_letter() {
    assert_eq!(
        todo_to_json(&todo(4, "a\u{8}b\tc\nd\u{c}e\rf")),
        r#"{"id":4,"content":"a\bb\tc\nd\fe\rf"}"#
    );
}

#[test]
fn other_control_characters_are_written_in_hexadecimal() {
    assert_eq!(
        todo_to_json(&todo(5, "\u{0}\u{1}\u{b}\u{e}\u{1a}\u{1f}")),
        r#"{"id":5,"content":"\u0000\u0001\u000b\u000e\u001a\u001f"}"#
    );
}

#[test]
fn every_character_below_the_space_is_escaped_as_stated() {
    for code in 0u32..0x20 {
        let c = char::from_u32(code).unwrap();
        let expected = match c {
            '\u{8}' => String::from("\\b"),
            '\t' => String::from("\\t"),
            '\n' => String::from("\\n"),
            '\u{c}' => String::from("\\f"),
            '\r' => String::from("\\r"),
            _ => format!("\\u00{:x}{:x}", code / 16, code % 16),
        };
        let json = todo_to_json(&Todo::new(0, c.to_string()));
        assert_eq!(json, format!("{{\"id\":0,\"content\":\"{}\"}}", expected));
    }
}

#[test]
fn printable_characters_stand_for_themselves() {
    for code in 0x20u32..0x80 {
        let c = char::from_u32(code).unwrap();
        if c == '"' || c == '\\' {
            continue;
        }
        let json = todo_to_json(&Todo::new(0, c.to_string()));
        assert_eq!(json, format!("{{\"id\":0,\"content\":\"{}\"}}", c));
    }
}

#[test]
fn text_beyond_ascii_is_kept_as_it_is() {
    assert_eq!(
        todo_to_json(&todo(6, "caf\u{e9} \u{2713} \u{65e5}\u{672c}\u{8a9e} \u{1f600}")),
        "{\"id\":6,\"content\":\"caf\u{e9} \u{2713} \u{65e5}\u{672c}\u{8a9e} \u{1f600}\"}"
    );
}

#[test]
fn the_text_is_quoted_and_not_handed_back_unchanged() {
    let json = todo_to_json(&todo(1, "a\"b"));
    assert_ne!(json, "{\"id\":1,\"content\":a\"b}");
    assert_eq!(json, "{\"id\":1,\"content\":\"a\\\"b\"}");
}

#[test]
fn append_todo_keeps_what_was_there() {
    let mut out = String::from("x=");
    append_todo(&mut out, &todo(9, "nine"));
    assert_eq!(out, r#"x={"id":9,"content":"nine"}"#);
}

#[test]
fn an_empty_list_is_an_empty_array() {
    assert_eq!(todos_to_json(&Vec::new()), "[]");
}

#[test]
fn a_list_of_one() {
    assert_eq!(todos_to_json(&vec![todo(1, "a")]), r#"[{"id":1,"content":"a"}]"#);
}

#[test]
fn a_list_keeps_its_order() {
    let todos = vec![todo(2, "b"), todo(1, "a"), todo(3, "c, d")];
    assert_eq!(
        todos_to_json(&todos),
        r#"[{"id":2,"content":"b"},{"id":1,"content":"a"},{"id":3,"content":"c, d"}]"#
    );
}

#[test]
fn a_reader_of_json_gets_the_todo_back() {
    let texts = ["buy milk", "", "\"", "\\", "a\nb", "\u{0}\u{1f}\u{7f}", "\u{65e5}\u{672c}", "},{\"id\":"];
    for (i, text) in texts.iter().enumerate() {
        let id = i as i32 - 3;
        let parsed: Value = serde_json::from_str(&todo_to_json(&todo(id, text))).unwrap();
        assert_eq!(parsed.get("id").and_then(Value::as_i64), Some(id as i64));
        assert_eq!(parsed.get("content").and_then(Value::as_str), Some(*text));
        assert_eq!(parsed.as_object().map(|members| members.len()), Some(2));
    }
}

#[test]
fn a_reader_of_json_gets_the_list_back() {
    let todos = vec![todo(1, "a\"b"), todo(2, "],["), todo(i32::MAX, "\u{7}")];
    let parsed: Value = serde_json::from_str(&todos_to_json(&todos)).unwrap();
    let items = parsed.as_array().unwrap();
    assert_eq!(items.len(), todos.len());
    for (item, todo) in items.iter().zip(todos.iter()) {
        assert_eq!(item.get("id").and_then(Value::as_i64), Some(todo.id as i64));
        assert_eq!(item.get("content").and_then(Value::as_str), Some(todo.content.as_str()));
    }
}

#[test]
fn different_todos_have_different_objects() {
    let todos = [
        todo(1, "a"),
        todo(1, "A"),
        todo(2, "a"),
        todo(-1, "a"),
        todo(11, ""),
        todo(1, "1"),
        todo(1, "\",\"content\":\""),
        todo(1, "\\"),
        todo(1, "\\\\"),
        todo(1, "\n"),
        todo(1, "\\n"),
        todo(1, "\u{1}"),
        todo(1, "\\u0001"),
        todo(1, "\u{10}"),
        todo(1, "\u{11}"),
    ];
    for (i, a) in todos.iter().enumerate() {
        for b in todos.iter().skip(i + 1) {
            assert_ne!(todo_to_json(a), todo_to_json(b));
        }
    }
}

#[test]
fn different_lists_have_different_arrays() {
    let lists = [
        vec![],
        vec![todo(1, "a")],
        vec![todo(1, "a"), todo(2, "b")],
        vec![todo(2, "b"), todo(1, "a")],
        vec![todo(1, "a\"},{\"id\":2,\"content\":\"b")],
        vec![todo(1, "a"), todo(2, "b"), todo(2, "b")],
        vec![todo(1, "a,b")],
        vec![todo(1, "]")],
    ];
    for (i, a) in lists.iter().enumerate() {
        for b in lists.iter().skip(i + 1) {
            assert_ne!(todos_to_json(a), todos_to_json(b));
        }
    }
}
