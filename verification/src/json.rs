//! Todos written as JSON text, as the responses carry them.
//!
//! A todo is written as an object with the two members `id` and `content`, in
//! that order and without white space; a list of todos as an array of such
//! objects. The text of a todo is escaped by `serde_json`.

use crate::decimal::{
    append_decimal, decimal, digit, lemma_decimal_injective, lemma_decimal_shape,
};
use crate::todo::{views, Todo, TodoView};
use vstd::prelude::*;
use vstd::string::*;

verus! {

/// The character that stands for one hexadecimal digit, in lower case.
pub open spec fn hex_digit(d: int) -> char {
    if d < 10 {
        digit(d)
    } else if d == 10 {
        'a'
    } else if d == 11 {
        'b'
    } else if d == 12 {
        'c'
    } else if d == 13 {
        'd'
    } else if d == 14 {
        'e'
    } else {
        'f'
    }
}

/// Whether a character cannot stand for itself inside a JSON string: the
/// double quote, the backslash and the control characters below the space.
pub open spec fn needs_escape(c: char) -> bool {
    c == '"' || c == '\\' || (c as u32) < 0x20
}

/// One character as it is written inside a JSON string. The double quote and
/// the backslash get a backslash in front; backspace, tab, line feed, form
/// feed and carriage return get their letter; every other control character
/// is written as `\u00` and two hexadecimal digits; any other character
/// stands for itself.
pub open spec fn escape_char(c: char) -> Seq<char> {
    if c == '"' {
        seq!['\\', '"']
    } else if c == '\\' {
        seq!['\\', '\\']
    } else if c == '\u{8}' {
        seq!['\\', 'b']
    } else if c == '\t' {
        seq!['\\', 't']
    } else if c == '\n' {
        seq!['\\', 'n']
    } else if c == '\u{c}' {
        seq!['\\', 'f']
    } else if c == '\r' {
        seq!['\\', 'r']
    } else if (c as u32) < 0x20 {
        seq!['\\', 'u', '0', '0', hex_digit(c as int / 16), hex_digit(c as int % 16)]
    } else {
        seq![c]
    }
}

/// A text with each of its characters escaped.
pub open spec fn escaped(text: Seq<char>) -> Seq<char>
    decreases text.len(),
{
    if text.len() == 0 {
        Seq::empty()
    } else {
        escape_char(text[0]) + escaped(text.skip(1))
    }
}

/// A text as a JSON string: escaped, between double quotes.
pub open spec fn json_string(text: Seq<char>) -> Seq<char> {
    seq!['"'] + escaped(text) + seq!['"']
}

/// A todo as a JSON object.
pub open spec fn todo_json(todo: TodoView) -> Seq<char> {
    "{\"id\":"@ + decimal(todo.id) + ",\"content\":"@ + json_string(todo.content) + "}"@
}

/// The JSON objects of a list of todos, with a comma between neighbours.
pub open spec fn joined(todos: Seq<TodoView>) -> Seq<char>
    decreases todos.len(),
{
    if todos.len() == 0 {
        Seq::empty()
    } else if todos.len() == 1 {
        todo_json(todos[0])
    } else {
        todo_json(todos[0]) + seq![','] + joined(todos.skip(1))
    }
}

/// A list of todos as a JSON array.
pub open spec fn list_json(todos: Seq<TodoView>) -> Seq<char> {
    seq!['['] + joined(todos) + seq![']']
}

/// The JSON string for `text`, made by `serde_json::to_string`.
///
/// The contract states what the serializer of `serde_json` writes for a
/// string slice: a double quote, the text with the escapes of `escape_char`,
/// and a double quote. It also claims that the call succeeds: the serializer
/// writes a string slice into a byte vector in memory, and the only error it
/// can hand on is one of the writer, which a vector never gives. The fallback
/// in the body is therefore never taken.
#[verifier::external_body]
fn quote(text: &str) -> (json: String)
    ensures
        json@ == json_string(text@),
{
    serde_json::to_string(text).unwrap_or_default()
}

/// Appends the JSON object of `todo` to `out`.
pub fn append_todo(out: &mut String, todo: &Todo)
    ensures
        final(out)@ == old(out)@ + todo_json(todo@),
{
    out.append("{\"id\":");
    append_decimal(out, todo.id);
    out.append(",\"content\":");
    let content = quote(todo.content.as_str());
    out.append(content.as_str());
    out.append("}");
}

/// The JSON object of `todo`.
pub fn todo_to_json(todo: &Todo) -> (json: String)
    ensures
        json@ == todo_json(todo@),
{
    let mut out = String::new();
    append_todo(&mut out, todo);
    out
}

/// Adding a todo at the end of a list adds its object at the end of the
/// joined text, after a comma unless it is the first.
pub proof fn lemma_joined_push(todos: Seq<TodoView>, todo: TodoView)
    ensures
        joined(todos.push(todo)) == if todos.len() == 0 {
            todo_json(todo)
        } else {
            joined(todos) + seq![','] + todo_json(todo)
        },
    decreases todos.len(),
{
    if todos.len() > 0 {
        assert(todos.push(todo).skip(1) =~= todos.skip(1).push(todo));
        lemma_joined_push(todos.skip(1), todo);
    }
}

/// The JSON array of `todos`, in the order given.
pub fn todos_to_json(todos: &Vec<Todo>) -> (json: String)
    ensures
        json@ == list_json(views(todos@)),
{
    proof {
        reveal_strlit("[");
        reveal_strlit("]");
    }
    let mut out = String::from_str("[");
    let mut i: usize = 0;
    while i < todos.len()
        invariant
            0 <= i <= todos.len(),
            out@ == seq!['['] + joined(views(todos@).take(i as int)),
        decreases todos.len() - i,
    {
        if i > 0 {
            proof {
                reveal_strlit(",");
            }
            out.append(",");
        }
        append_todo(&mut out, &todos[i]);
        proof {
            let before = views(todos@).take(i as int);
            let todo = todos@[i as int]@;
            assert(views(todos@).take(i + 1) =~= before.push(todo));
            lemma_joined_push(before, todo);
        }
        i = i + 1;
    }
    out.append("]");
    assert(views(todos@).take(i as int) =~= views(todos@));
    out
}

/// Two texts that agree after a common beginning agree.
proof fn lemma_same_prefix(prefix: Seq<char>, a: Seq<char>, b: Seq<char>)
    requires
        prefix + a == prefix + b,
    ensures
        a == b,
{
    assert(a =~= (prefix + a).skip(prefix.len() as int));
    assert(b =~= (prefix + b).skip(prefix.len() as int));
}

/// Two texts that each hold no `stop` and go on with one end at the same
/// place.
proof fn lemma_cut_at_first(
    head_a: Seq<char>,
    rest_a: Seq<char>,
    head_b: Seq<char>,
    rest_b: Seq<char>,
    stop: char,
)
    requires
        head_a + rest_a == head_b + rest_b,
        rest_a.len() > 0,
        rest_b.len() > 0,
        rest_a[0] == stop,
        rest_b[0] == stop,
        forall|i: int| 0 <= i < head_a.len() ==> head_a[i] != stop,
        forall|i: int| 0 <= i < head_b.len() ==> head_b[i] != stop,
    ensures
        head_a == head_b,
        rest_a == rest_b,
{
    let whole = head_a + rest_a;
    // The shorter head is followed by `stop`, which the longer head would
    // hold at that place.
    assert(head_a.len() == head_b.len()) by {
        if head_a.len() < head_b.len() {
            assert(whole[head_a.len() as int] == rest_a[0]);
        } else if head_b.len() < head_a.len() {
            assert(whole[head_b.len() as int] == rest_b[0]);
        }
    }
    assert(head_a =~= whole.take(head_a.len() as int));
    assert(head_b =~= whole.take(head_b.len() as int));
    assert(rest_a =~= whole.skip(head_a.len() as int));
    assert(rest_b =~= whole.skip(head_b.len() as int));
}

/// No escape is the beginning of another: where two texts begin with the
/// escapes of two characters and are equal, the characters are the same and
/// so is what follows.
pub proof fn lemma_escape_char_prefix_free(x: char, y: char, after_x: Seq<char>, after_y: Seq<char>)
    requires
        escape_char(x) + after_x == escape_char(y) + after_y,
    ensures
        x == y,
        after_x == after_y,
{
    let ex = escape_char(x);
    let ey = escape_char(y);
    let whole = ex + after_x;
    // A backslash opens every escape and no character that stands for
    // itself; the letter after it tells the escapes apart, and after `u` the
    // two hexadecimal digits do.
    assert(whole[0] == ex[0] && whole[0] == ey[0]);
    if needs_escape(x) {
        assert(whole[1] == ex[1] && whole[1] == ey[1]);
        if ex[1] == 'u' {
            assert(whole[4] == ex[4] && whole[4] == ey[4]);
            assert(whole[5] == ex[5] && whole[5] == ey[5]);
        }
    }
    assert(x == y);
    assert(after_x =~= whole.skip(ex.len() as int));
    assert(after_y =~= whole.skip(ey.len() as int));
}

/// An escaped text holds no bare double quote: where two escaped texts are
/// each followed by a text that begins with a double quote, and the whole is
/// the same, the two texts are the same and so is what follows.
pub proof fn lemma_escaped_prefix_free(
    a: Seq<char>,
    b: Seq<char>,
    after_a: Seq<char>,
    after_b: Seq<char>,
)
    requires
        escaped(a) + after_a == escaped(b) + after_b,
        after_a.len() > 0,
        after_b.len() > 0,
        after_a[0] == '"',
        after_b[0] == '"',
    ensures
        a == b,
        after_a == after_b,
    decreases a.len(),
{
    let whole = escaped(a) + after_a;
    if a.len() == 0 || b.len() == 0 {
        // An empty text is followed by the double quote at once, and no
        // escape begins with one.
        if a.len() > 0 {
            assert(whole[0] == escape_char(a[0])[0]);
        }
        if b.len() > 0 {
            assert(whole[0] == escape_char(b[0])[0]);
        }
        assert(a =~= b);
        assert(after_a =~= whole);
        assert(after_b =~= whole);
    } else {
        let tail_a = escaped(a.skip(1)) + after_a;
        let tail_b = escaped(b.skip(1)) + after_b;
        assert(whole =~= escape_char(a[0]) + tail_a);
        assert(whole =~= escape_char(b[0]) + tail_b);
        lemma_escape_char_prefix_free(a[0], b[0], tail_a, tail_b);
        lemma_escaped_prefix_free(a.skip(1), b.skip(1), after_a, after_b);
        assert(a =~= seq![a[0]] + a.skip(1));
        assert(b =~= seq![b[0]] + b.skip(1));
    }
}

/// No JSON object of a todo is the beginning of another: where two texts
/// begin with the objects of two todos and are equal, the todos are the same,
/// id and text, and so is what follows.
pub proof fn lemma_todo_json_prefix_free(
    a: TodoView,
    b: TodoView,
    after_a: Seq<char>,
    after_b: Seq<char>,
)
    requires
        todo_json(a) + after_a == todo_json(b) + after_b,
    ensures
        a == b,
        after_a == after_b,
{
    reveal_strlit("{\"id\":");
    reveal_strlit(",\"content\":");
    reveal_strlit("}");
    let open = "{\"id\":"@;
    let key = ",\"content\":"@ + seq!['"'];
    let close = seq!['"'] + "}"@;
    let end_a = close + after_a;
    let end_b = close + after_b;
    let rest_a = key + (escaped(a.content) + end_a);
    let rest_b = key + (escaped(b.content) + end_b);
    assert(todo_json(a) + after_a =~= open + (decimal(a.id) + rest_a));
    assert(todo_json(b) + after_b =~= open + (decimal(b.id) + rest_b));
    lemma_same_prefix(open, decimal(a.id) + rest_a, decimal(b.id) + rest_b);
    lemma_decimal_shape(a.id);
    lemma_decimal_shape(b.id);
    lemma_cut_at_first(decimal(a.id), rest_a, decimal(b.id), rest_b, ',');
    lemma_decimal_injective(a.id, b.id);
    lemma_same_prefix(key, escaped(a.content) + end_a, escaped(b.content) + end_b);
    lemma_escaped_prefix_free(a.content, b.content, end_a, end_b);
    lemma_same_prefix(close, after_a, after_b);
}

/// A JSON object stands for one todo only.
pub proof fn lemma_todo_json_injective(a: TodoView, b: TodoView)
    requires
        todo_json(a) == todo_json(b),
    ensures
        a == b,
{
    lemma_todo_json_prefix_free(a, b, Seq::empty(), Seq::empty());
}

/// Where two joined lists are each followed by a text that begins with a
/// closing bracket, and the whole is the same, the lists are the same, todo
/// by todo, and so is what follows.
pub proof fn lemma_joined_prefix_free(
    a: Seq<TodoView>,
    b: Seq<TodoView>,
    after_a: Seq<char>,
    after_b: Seq<char>,
)
    requires
        joined(a) + after_a == joined(b) + after_b,
        after_a.len() > 0,
        after_b.len() > 0,
        after_a[0] == ']',
        after_b[0] == ']',
    ensures
        a == b,
        after_a == after_b,
    decreases a.len(),
{
    reveal_strlit("{\"id\":");
    let whole = joined(a) + after_a;
    let comma = seq![','];
    // What follows the first object: the closing text, or a comma and the
    // other objects.
    let rest_a = if a.len() <= 1 {
        after_a
    } else {
        comma + (joined(a.skip(1)) + after_a)
    };
    let rest_b = if b.len() <= 1 {
        after_b
    } else {
        comma + (joined(b.skip(1)) + after_b)
    };
    if a.len() > 0 {
        assert(whole =~= todo_json(a[0]) + rest_a);
        assert(whole[0] == '{');
    }
    if b.len() > 0 {
        assert(whole =~= todo_json(b[0]) + rest_b);
        assert(whole[0] == '{');
    }
    if a.len() == 0 || b.len() == 0 {
        assert(a =~= b);
        assert(after_a =~= whole);
        assert(after_b =~= whole);
    } else {
        lemma_todo_json_prefix_free(a[0], b[0], rest_a, rest_b);
        if a.len() == 1 || b.len() == 1 {
            assert(rest_a[0] == ']');
            assert(a =~= b);
        } else {
            lemma_same_prefix(comma, joined(a.skip(1)) + after_a, joined(b.skip(1)) + after_b);
            lemma_joined_prefix_free(a.skip(1), b.skip(1), after_a, after_b);
            assert(a =~= seq![a[0]] + a.skip(1));
            assert(b =~= seq![b[0]] + b.skip(1));
        }
    }
}

/// A JSON array stands for one list of todos only: the same todos in the
/// same order.
pub proof fn lemma_list_json_injective(a: Seq<TodoView>, b: Seq<TodoView>)
    requires
        list_json(a) == list_json(b),
    ensures
        a == b,
{
    let open = seq!['['];
    let close = seq![']'];
    assert(list_json(a) =~= open + (joined(a) + close));
    assert(list_json(b) =~= open + (joined(b) + close));
    lemma_same_prefix(open, joined(a) + close, joined(b) + close);
    lemma_joined_prefix_free(a, b, close, close);
}

} // verus!
