//! Pattern matching: destructuring structs, enums and tuples, guards, ranges
//! and bindings. Each function returns the line that describes which arm was
//! taken.

use crate::text::{
    decimal, join, numeral_value, parse_u8, parsed, push_decimal, push_signed,
    signed_decimal, without_plus,
};
use vstd::prelude::*;
use vstd::string::*;

verus! {

/// A point in the plane.
pub struct Point {
    pub x: i32,
    pub y: i32,
}

/// A message whose variants carry different kinds of data.
pub enum SimpleMessage {
    Quit,
    Move { x: i32, y: i32 },
    Write(String),
    ChangeColor(i32, i32, i32),
}

/// A colour in one of two colour spaces.
pub enum Color {
    Rgb(i32, i32, i32),
    Hsv(i32, i32, i32),
}

/// A message that nests another enum.
pub enum Message {
    Quit,
    Move { x: i32, y: i32 },
    Write(String),
    ChangeColor(Color),
}

/// A point in space.
pub struct Point3d {
    pub x: i32,
    pub y: i32,
    pub z: i32,
}

/// The line for a point: on the x axis when `y` is 0, else on the y axis when
/// `x` is 0, else on neither.
pub open spec fn axis_line(p: Point) -> Seq<char> {
    if p.y == 0 {
        "On the x axis at "@ + signed_decimal(p.x as int)
    } else if p.x == 0 {
        "On the y axis at "@ + signed_decimal(p.y as int)
    } else {
        "On neither axis: ("@ + signed_decimal(p.x as int) + ", "@ + signed_decimal(p.y as int)
            + ")"@
    }
}

/// Says where a point lies, matching on literal field values.
pub fn axis_text(p: &Point) -> (line: String)
    ensures
        line@ == axis_line(*p),
{
    match *p {
        Point { x: value, y: 0 } => {
            let mut line = String::from_str("On the x axis at ");
            push_signed(&mut line, value as i64);
            line
        },
        Point { x: 0, y: value } => {
            let mut line = String::from_str("On the y axis at ");
            push_signed(&mut line, value as i64);
            line
        },
        Point { x, y } => {
            let mut line = String::from_str("On neither axis: (");
            push_signed(&mut line, x as i64);
            line.append(", ");
            push_signed(&mut line, y as i64);
            line.append(")");
            line
        },
    }
}

/// The line for a message, built from the data its variant carries.
pub open spec fn simple_message_line(msg: SimpleMessage) -> Seq<char> {
    match msg {
        SimpleMessage::Quit => "The Quit variant has no data to destructure."@,
        SimpleMessage::Move { x, y } => "Move in the x direction "@ + signed_decimal(x as int)
            + " and in the y direction "@ + signed_decimal(y as int),
        SimpleMessage::Write(text) => "Text message: "@ + text@,
        SimpleMessage::ChangeColor(r, g, b) => "Change the color to red "@ + signed_decimal(
            r as int,
        ) + ", green "@ + signed_decimal(g as int) + ", and blue "@ + signed_decimal(b as int),
    }
}

/// Describes a message by destructuring its variant.
pub fn simple_message_text(msg: &SimpleMessage) -> (line: String)
    ensures
        line@ == simple_message_line(*msg),
{
    match msg {
        SimpleMessage::Quit => String::from_str("The Quit variant has no data to destructure."),
        SimpleMessage::Move { x, y } => {
            let mut line = String::from_str("Move in the x direction ");
            push_signed(&mut line, *x as i64);
            line.append(" and in the y direction ");
            push_signed(&mut line, *y as i64);
            line
        },
        SimpleMessage::Write(text) => join("Text message: ", text.as_str()),
        SimpleMessage::ChangeColor(r, g, b) => {
            let mut line = String::from_str("Change the color to red ");
            push_signed(&mut line, *r as i64);
            line.append(", green ");
            push_signed(&mut line, *g as i64);
            line.append(", and blue ");
            push_signed(&mut line, *b as i64);
            line
        },
    }
}

/// The line for a colour change, by colour space; no line for other messages.
pub open spec fn color_change_line(msg: Message) -> Option<Seq<char>> {
    match msg {
        Message::ChangeColor(Color::Rgb(r, g, b)) => Some(
            "Change color to red "@ + signed_decimal(r as int) + ", green "@ + signed_decimal(
                g as int,
            ) + ", and blue "@ + signed_decimal(b as int),
        ),
        Message::ChangeColor(Color::Hsv(h, s, v)) => Some(
            "Change color to hue "@ + signed_decimal(h as int) + ", saturation "@
                + signed_decimal(s as int) + ", value "@ + signed_decimal(v as int),
        ),
        _ => None,
    }
}

/// Describes a colour change by matching through two levels of enums.
pub fn color_change_text(msg: &Message) -> (line: Option<String>)
    ensures
        line is Some == color_change_line(*msg) is Some,
        line is Some ==> line->0@ == color_change_line(*msg)->0,
{
    match msg {
        Message::ChangeColor(Color::Rgb(r, g, b)) => {
            let mut line = String::from_str("Change color to red ");
            push_signed(&mut line, *r as i64);
            line.append(", green ");
            push_signed(&mut line, *g as i64);
            line.append(", and blue ");
            push_signed(&mut line, *b as i64);
            Some(line)
        },
        Message::ChangeColor(Color::Hsv(h, s, v)) => {
            let mut line = String::from_str("Change color to hue ");
            push_signed(&mut line, *h as i64);
            line.append(", saturation ");
            push_signed(&mut line, *s as i64);
            line.append(", value ");
            push_signed(&mut line, *v as i64);
            Some(line)
        },
        _ => None,
    }
}

/// A setting is replaced unless both the current and the new value are
/// customized.
pub open spec fn merged_setting(setting: Option<i32>, new_setting: Option<i32>) -> Option<i32> {
    if setting is Some && new_setting is Some {
        setting
    } else {
        new_setting
    }
}

/// Takes over the new setting unless that would overwrite a customized one.
/// The second part of the result says whether the overwrite was refused.
pub fn merge_setting(setting: Option<i32>, new_setting: Option<i32>) -> (r: (Option<i32>, bool))
    ensures
        r.0 == merged_setting(setting, new_setting),
        r.1 == (setting is Some && new_setting is Some),
{
    match (setting, new_setting) {
        (Some(_), Some(_)) => (setting, true),
        _ => (new_setting, false),
    }
}

/// The first, third and fifth of five numbers.
pub open spec fn some_numbers_line(numbers: (i32, i32, i32, i32, i32)) -> Seq<char> {
    "Some numbers: "@ + signed_decimal(numbers.0 as int) + ", "@ + signed_decimal(
        numbers.2 as int,
    ) + ", "@ + signed_decimal(numbers.4 as int)
}

/// Names three parts of a tuple and ignores the others.
pub fn some_numbers_text(numbers: (i32, i32, i32, i32, i32)) -> (line: String)
    ensures
        line@ == some_numbers_line(numbers),
{
    match numbers {
        (first, _, third, _, fifth) => {
            let mut line = String::from_str("Some numbers: ");
            push_signed(&mut line, first as i64);
            line.append(", ");
            push_signed(&mut line, third as i64);
            line.append(", ");
            push_signed(&mut line, fifth as i64);
            line
        },
    }
}

/// Reads one field and ignores the remaining ones.
pub fn x_text(origin: &Point3d) -> (line: String)
    ensures
        line@ == "x is "@ + signed_decimal(origin.x as int),
{
    match origin {
        Point3d { x, .. } => {
            let mut line = String::from_str("x is ");
            push_signed(&mut line, *x as i64);
            line
        },
    }
}

/// The line that says whether a number is even or odd.
pub open spec fn parity_line(x: i32) -> Seq<char> {
    if x % 2 == 0 {
        "The number "@ + signed_decimal(x as int) + " is even"@
    } else {
        "The number "@ + signed_decimal(x as int) + " is odd"@
    }
}

/// Uses a match guard to tell even numbers from odd ones.
pub fn parity_text(num: Option<i32>) -> (line: Option<String>)
    ensures
        line is Some == num is Some,
        num is Some ==> line->0@ == parity_line(num->0),
{
    match num {
        Some(x) if x % 2 == 0 => {
            let mut line = String::from_str("The number ");
            push_signed(&mut line, x as i64);
            line.append(" is even");
            Some(line)
        },
        Some(x) => {
            let mut line = String::from_str("The number ");
            push_signed(&mut line, x as i64);
            line.append(" is odd");
            Some(line)
        },
        None => None,
    }
}

/// How an optional number is written for inspection: `Some(5)` or `None`.
pub open spec fn option_debug(x: Option<i32>) -> Seq<char> {
    match x {
        Some(n) => "Some("@ + signed_decimal(n as int) + ")"@,
        None => "None"@,
    }
}

/// Writes an optional number for inspection.
pub fn option_debug_text(x: Option<i32>) -> (s: String)
    ensures
        s@ == option_debug(x),
{
    match x {
        Some(n) => {
            let mut s = String::from_str("Some(");
            push_signed(&mut s, n as i64);
            s.append(")");
            s
        },
        None => String::from_str("None"),
    }
}

/// The line for a value compared with an outer variable in a guard.
pub open spec fn guard_line(x: Option<i32>, y: i32) -> Seq<char> {
    if x == Some(50i32) {
        "Got 50"@
    } else if x is Some && x->0 == y {
        "Matched, n = "@ + signed_decimal(y as int)
    } else {
        "Default case, x = "@ + option_debug(x)
    }
}

/// A guard can test the matched value against a variable of the enclosing
/// scope, which a pattern alone cannot do.
pub fn guard_text(x: Option<i32>, y: i32) -> (line: String)
    ensures
        line@ == guard_line(x, y),
{
    match x {
        Some(50) => String::from_str("Got 50"),
        Some(n) if n == y => {
            let mut line = String::from_str("Matched, n = ");
            push_signed(&mut line, n as i64);
            line
        },
        _ => {
            let shown = option_debug_text(x);
            join("Default case, x = ", shown.as_str())
        },
    }
}

/// A guard after several alternatives applies to all of them.
pub fn yes_or_no(x: i32, y: bool) -> (answer: &'static str)
    ensures
        answer@ == (if (x == 4 || x == 5 || x == 6) && y {
            "yes"@
        } else {
            "no"@
        }),
{
    match x {
        4 | 5 | 6 => if y {
            "yes"
        } else {
            "no"
        },
        _ => "no",
    }
}

/// Runs each form of destructuring once and returns the lines it gives, in
/// order.
pub fn destructuring_structs() -> (lines: Vec<String>)
    ensures
        lines@.len() == 9,
        lines@[0]@ == axis_line(Point { x: 0, y: 7 }),
        lines@[1]@ == simple_message_line(SimpleMessage::ChangeColor(0, 160, 255)),
        lines@[2]@ == color_change_line(Message::ChangeColor(Color::Hsv(0, 160, 255)))->0,
        lines@[3]@ == "Can't overwrite an existing customized value"@,
        lines@[4]@ == some_numbers_line((2, 4, 8, 16, 32)),
        lines@[5]@ == "x is "@ + signed_decimal(0),
        lines@[6]@ == parity_line(4),
        lines@[7]@ == guard_line(Some(5i32), 10),
        lines@[8]@ == "no"@,
{
    let mut lines: Vec<String> = Vec::new();

    let p = Point { x: 0, y: 7 };
    let Point { x: a, y: b } = p;
    assert(a == 0 && b == 7);
    let Point { x, y } = p;
    assert(x == 0 && y == 7);
    lines.push(axis_text(&p));

    let msg = SimpleMessage::ChangeColor(0, 160, 255);
    lines.push(simple_message_text(&msg));

    let msg = Message::ChangeColor(Color::Hsv(0, 160, 255));
    match color_change_text(&msg) {
        Some(line) => lines.push(line),
        None => {},
    }

    let setting_value: Option<i32> = Some(5);
    let new_setting_value: Option<i32> = Some(10);
    let (setting_value, refused) = merge_setting(setting_value, new_setting_value);
    assert(setting_value == Some(5i32));
    if refused {
        lines.push(String::from_str("Can't overwrite an existing customized value"));
    }

    lines.push(some_numbers_text((2, 4, 8, 16, 32)));

    let origin = Point3d { x: 0, y: 0, z: 0 };
    lines.push(x_text(&origin));

    match parity_text(Some(4)) {
        Some(line) => lines.push(line),
        None => {},
    }

    lines.push(guard_text(Some(5), 10));
    lines.push(String::from_str(yes_or_no(4, false)));
    lines
}

/// A greeting that carries an identifier.
pub enum IdMessage {
    Hello { id: i32 },
}

/// The line for an identifier, by the range it falls in.
pub open spec fn id_line(id: i32) -> Seq<char> {
    if 3 <= id <= 7 {
        "Found an id in range: "@ + signed_decimal(id as int)
    } else if 10 <= id <= 12 {
        "Found an id in another range"@
    } else {
        "Found some other id: "@ + signed_decimal(id as int)
    }
}

/// Tests a value against a range and binds it to a name in the same
/// pattern.
pub fn id_text(msg: &IdMessage) -> (line: String)
    ensures
        line@ == id_line(msg->id),
{
    match *msg {
        IdMessage::Hello { id: id_variable @ 3..=7 } => {
            let mut line = String::from_str("Found an id in range: ");
            push_signed(&mut line, id_variable as i64);
            line
        },
        IdMessage::Hello { id: 10..=12 } => String::from_str("Found an id in another range"),
        IdMessage::Hello { id } => {
            let mut line = String::from_str("Found some other id: ");
            push_signed(&mut line, id as i64);
            line
        },
    }
}

/// Describes the greeting with identifier 5.
pub fn at_bindings() -> (line: String)
    ensures
        line@ == "Found an id in range: "@ + signed_decimal(5),
{
    let msg = IdMessage::Hello { id: 5 };
    id_text(&msg)
}

/// One more than the number inside, if there is one. The answer 42 ends the
/// search and is not a valid input.
pub fn plus_one(x: Option<i32>) -> (r: Option<i32>)
    requires
        x != Some(42i32),
        x != Some(i32::MAX),
    ensures
        r == match x {
            Some(i) => Some((i + 1) as i32),
            None => None,
        },
{
    match x {
        None => None,
        Some(i) => Some(i + 1),
    }
}

/// Adds one to `Some(1)`.
pub fn match_arms() -> (r: Option<i32>)
    ensures
        r == Some(2i32),
{
    let x: Option<i32> = Some(1);
    plus_one(x)
}

/// The background colour: the favourite colour if there is one, else green
/// on a Tuesday, else by age (purple over 30, orange up to 30), else blue.
pub open spec fn background_line(
    favorite_color: Option<Seq<char>>,
    is_tuesday: bool,
    age: Option<u8>,
) -> Seq<char> {
    if favorite_color is Some {
        "Using your favorite color, "@ + favorite_color->0 + ", as the background"@
    } else if is_tuesday {
        "Tuesday is green day!"@
    } else if age is Some {
        if age->0 > 30 {
            "Using purple as the background color"@
        } else {
            "Using orange as the background color"@
        }
    } else {
        "Using blue as the background color"@
    }
}

/// Chooses a background colour from conditions that have nothing to do with
/// one another, mixing `if let`, `else if` and `else if let`.
pub fn background_text(favorite_color: Option<&str>, is_tuesday: bool, age: Option<u8>) -> (line:
    String)
    ensures
        line@ == background_line(
            match favorite_color {
                Some(color) => Some(color@),
                None => None,
            },
            is_tuesday,
            age,
        ),
{
    if let Some(color) = favorite_color {
        let mut line = String::from_str("Using your favorite color, ");
        line.append(color);
        line.append(", as the background");
        line
    } else if is_tuesday {
        String::from_str("Tuesday is green day!")
    } else if let Some(age) = age {
        if age > 30 {
            String::from_str("Using purple as the background color")
        } else {
            String::from_str("Using orange as the background color")
        }
    } else {
        String::from_str("Using blue as the background color")
    }
}

/// The text "34" is the number 34.
proof fn lemma_thirty_four()
    ensures
        parsed("34"@, 255) == Some(34nat),
{
    reveal_strlit("34");
    let s = "34"@;
    assert(without_plus(s) == s);
    assert(s.drop_last() =~= seq!['3']);
    assert(s.drop_last().drop_last() =~= Seq::<char>::empty());
    reveal_with_fuel(numeral_value, 3);
    assert(numeral_value(s.drop_last()) == 3);
    assert(numeral_value(s) == 34);
}

/// With no favourite colour, on a day that is not Tuesday, for someone whose
/// age reads "34", the background is purple.
pub fn if_let() -> (line: String)
    ensures
        line@ == "Using purple as the background color"@,
{
    let favorite_color: Option<&str> = None;
    let is_tuesday = false;
    let age = parse_u8("34");
    proof {
        lemma_thirty_four();
    }
    background_text(favorite_color, is_tuesday, age)
}

/// Pops a stack until it is empty and returns one line for each number, the
/// last one pushed first.
pub fn drain_stack(stack: Vec<i32>) -> (lines: Vec<String>)
    ensures
        lines@.len() == stack@.len(),
        forall|i: int|
            0 <= i < lines@.len() ==> (#[trigger] lines@[i])@ == signed_decimal(
                stack@[stack@.len() - 1 - i] as int,
            ),
{
    let mut stack = stack;
    let ghost full = stack@;
    let mut lines: Vec<String> = Vec::new();
    loop
        invariant
            stack@.len() + lines@.len() == full.len(),
            stack@ == full.subrange(0, stack@.len() as int),
            forall|i: int|
                0 <= i < lines@.len() ==> (#[trigger] lines@[i])@ == signed_decimal(
                    full[full.len() - 1 - i] as int,
                ),
        ensures
            lines@.len() == full.len(),
        decreases stack@.len(),
    {
        match stack.pop() {
            Some(top) => {
                let mut line = String::new();
                push_signed(&mut line, top as i64);
                assert(line@ =~= signed_decimal(top as int));
                lines.push(line);
            },
            None => {
                break ;
            },
        }
    }
    lines
}

/// Pushes 1, 2 and 3 and pops them again.
pub fn while_let() -> (lines: Vec<String>)
    ensures
        lines@.len() == 3,
        lines@[0]@ == signed_decimal(3),
        lines@[1]@ == signed_decimal(2),
        lines@[2]@ == signed_decimal(1),
{
    let mut stack: Vec<i32> = Vec::new();
    stack.push(1);
    stack.push(2);
    stack.push(3);
    drain_stack(stack)
}

/// The line for a character and its position.
pub open spec fn index_line(value: char, index: nat) -> Seq<char> {
    seq![value] + " is at index "@ + decimal(index)
}

/// One line for each character, with the position it stands at.
pub fn index_lines(v: &Vec<char>) -> (lines: Vec<String>)
    ensures
        lines@.len() == v@.len(),
        forall|i: int|
            0 <= i < lines@.len() ==> (#[trigger] lines@[i])@ == index_line(v@[i], i as nat),
{
    let mut lines: Vec<String> = Vec::new();
    let mut index: usize = 0;
    while index < v.len()
        invariant
            index <= v@.len(),
            lines@.len() == index,
            forall|i: int|
                0 <= i < lines@.len() ==> (#[trigger] lines@[i])@ == index_line(v@[i], i as nat),
        decreases v@.len() - index,
    {
        let value = v[index];
        let mut line = String::new();
        line.push(value);
        line.append(" is at index ");
        push_decimal(&mut line, index as u128);
        assert(line@ =~= index_line(value, index as nat));
        lines.push(line);
        index = index + 1;
    }
    lines
}

/// Pairs the characters a, b and c with their positions.
pub fn destructuring() -> (lines: Vec<String>)
    ensures
        lines@.len() == 3,
        lines@[0]@ == index_line('a', 0),
        lines@[1]@ == index_line('b', 1),
        lines@[2]@ == index_line('c', 2),
{
    let mut v: Vec<char> = Vec::new();
    v.push('a');
    v.push('b');
    v.push('c');
    index_lines(&v)
}

/// A pattern that can fail to match belongs in `if let`; here it matches and
/// the number inside is returned.
pub fn refutability() -> (r: Option<i32>)
    ensures
        r == Some(1i32),
{
    let value: Option<i32> = Some(1);
    if let Some(x) = value {
        Some(x)
    } else {
        None
    }
}

/// The name of 1, 2 or 3; any other number is "anything".
pub fn matching_literals(x: i32) -> (name: &'static str)
    ensures
        name@ == (if x == 1 {
            "one"@
        } else if x == 2 {
            "two"@
        } else if x == 3 {
            "three"@
        } else {
            "anything"@
        }),
{
    match x {
        1 => "one",
        2 => "two",
        3 => "three",
        _ => "anything",
    }
}

/// The line for a value matched against a pattern that introduces a new
/// variable: the variable takes whatever is inside, and an outer variable of
/// the same name plays no part.
pub open spec fn shadowed_line(x: Option<i32>) -> Seq<char> {
    if x == Some(50i32) {
        "Got 50"@
    } else if x is Some {
        "Matched, y = "@ + signed_decimal(x->0 as int)
    } else {
        "Default case, x = "@ + option_debug(x)
    }
}

/// Matches `x` with an arm that binds a new `y`, then reports both `x` and
/// the outer `y`, which the match has left alone.
pub fn matching_named_variables(x: Option<i32>, y: i32) -> (lines: (String, String))
    ensures
        lines.0@ == shadowed_line(x),
        lines.1@ == "at the end: x = "@ + option_debug(x) + ", y = "@ + signed_decimal(y as int),
{
    let first = match x {
        Some(50) => String::from_str("Got 50"),
        Some(y) => {
            let mut line = String::from_str("Matched, y = ");
            push_signed(&mut line, y as i64);
            line
        },
        _ => {
            let shown = option_debug_text(x);
            join("Default case, x = ", shown.as_str())
        },
    };
    let shown = option_debug_text(x);
    let mut second = String::from_str("at the end: x = ");
    second.append(shown.as_str());
    second.append(", y = ");
    push_signed(&mut second, y as i64);
    (first, second)
}

/// Several patterns can share one arm.
pub fn multiple_patterns(x: i32) -> (name: &'static str)
    ensures
        name@ == (if x == 1 || x == 2 {
            "one or two"@
        } else if x == 3 {
            "three"@
        } else {
            "anything"@
        }),
{
    match x {
        1 | 2 => "one or two",
        3 => "three",
        _ => "anything",
    }
}

/// Whether a number lies in the range from one through five.
pub fn number_range(x: i32) -> (name: &'static str)
    ensures
        name@ == (if 1 <= x <= 5 {
            "one through five (inclusive)"@
        } else {
            "something else"@
        }),
{
    match x {
        1..=5 => "one through five (inclusive)",
        _ => "something else",
    }
}

/// Whether a character is an early or a late lower-case letter.
pub fn letter_range(x: char) -> (name: &'static str)
    ensures
        name@ == (if 'a' as u32 <= x as u32 <= 'j' as u32 {
            "early ASCII letter"@
        } else if 'k' as u32 <= x as u32 <= 'z' as u32 {
            "late ASCII letter"@
        } else {
            "something else"@
        }),
{
    match x {
        'a'..='j' => "early ASCII letter",
        'k'..='z' => "late ASCII letter",
        _ => "something else",
    }
}

/// Classifies the number 5 and the letter c.
pub fn ranges() -> (names: (&'static str, &'static str))
    ensures
        names.0@ == "one through five (inclusive)"@,
        names.1@ == "early ASCII letter"@,
{
    (number_range(5), letter_range('c'))
}

} // verus!
