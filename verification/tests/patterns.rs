use rust_book::patterns::{
    at_bindings, axis_text, background_text, color_change_text, destructuring,
    destructuring_structs, drain_stack, guard_text, id_text, if_let, index_lines, letter_range,
    match_arms, matching_literals, matching_named_variables, merge_setting, multiple_patterns,
    number_range, option_debug_text, parity_text, plus_one, ranges, refutability,
    simple_message_text, some_numbers_text, while_let, x_text, yes_or_no, Color, IdMessage,
    Message, Point, Point3d, SimpleMessage,
};

#[test]
fn point_on_the_y_axis() {
    assert_eq!(axis_text(&Point { x: 0, y: 7 }), "On the y axis at 7");
}

#[test]
fn destructuring_lines() {
    let lines = destructuring_structs();
    assert_eq!(
        lines,
        vec![
            "On the y axis at 7",
            "Change the color to red 0, green 160, and blue 255",
            "Change color to hue 0, saturation 160, value 255",
            "Can't overwrite an existing customized value",
            "Some numbers: 2, 8, 32",
            "x is 0",
            "The number 4 is even",
            "Default case, x = Some(5)",
            "no",
        ]
    );
}

#[test]
fn points_are_placed_by_their_zero_coordinates() {
    assert_eq!(axis_text(&Point { x: 3, y: 0 }), "On the x axis at 3");
    assert_eq!(axis_text(&Point { x: 0, y: 0 }), "On the x axis at 0");
    assert_eq!(axis_text(&Point { x: -2, y: 9 }), "On neither axis: (-2, 9)");
    assert_eq!(x_text(&Point3d { x: -1, y: 2, z: 3 }), "x is -1");
}

#[test]
fn messages_are_described_by_variant() {
    assert_eq!(
        simple_message_text(&SimpleMessage::Quit),
        "The Quit variant has no data to destructure."
    );
    assert_eq!(
        simple_message_text(&SimpleMessage::Move { x: 1, y: -1 }),
        "Move in the x direction 1 and in the y direction -1"
    );
    assert_eq!(
        simple_message_text(&SimpleMessage::Write("hi".to_string())),
        "Text message: hi"
    );
    assert_eq!(
        color_change_text(&Message::ChangeColor(Color::Rgb(1, 2, 3))),
        Some("Change color to red 1, green 2, and blue 3".to_string())
    );
    assert_eq!(color_change_text(&Message::Quit), None);
    assert_eq!(color_change_text(&Message::Move { x: 0, y: 0 }), None);
    assert_eq!(color_change_text(&Message::Write(String::new())), None);
}

#[test]
fn a_customized_setting_is_not_overwritten() {
    assert_eq!(merge_setting(Some(5), Some(10)), (Some(5), true));
    assert_eq!(merge_setting(None, Some(10)), (Some(10), false));
    assert_eq!(merge_setting(Some(5), None), (None, false));
    assert_eq!(merge_setting(None, None), (None, false));
}

#[test]
fn guards_refine_patterns() {
    assert_eq!(some_numbers_text((2, 4, 8, 16, 32)), "Some numbers: 2, 8, 32");
    assert_eq!(parity_text(Some(4)), Some("The number 4 is even".to_string()));
    assert_eq!(parity_text(Some(-3)), Some("The number -3 is odd".to_string()));
    assert_eq!(parity_text(Some(0)), Some("The number 0 is even".to_string()));
    assert_eq!(parity_text(None), None);
    assert_eq!(guard_text(Some(50), 50), "Got 50");
    assert_eq!(guard_text(Some(10), 10), "Matched, n = 10");
    assert_eq!(guard_text(Some(5), 10), "Default case, x = Some(5)");
    assert_eq!(guard_text(None, 10), "Default case, x = None");
    assert_eq!(option_debug_text(Some(-1)), "Some(-1)");
    for x in 3..8 {
        assert_eq!(yes_or_no(x, true), if (4..=6).contains(&x) { "yes" } else { "no" });
        assert_eq!(yes_or_no(x, false), "no");
    }
}

#[test]
fn identifiers_are_sorted_by_range() {
    assert_eq!(at_bindings(), "Found an id in range: 5");
    for (id, line) in [
        (2, "Found some other id: 2"),
        (3, "Found an id in range: 3"),
        (7, "Found an id in range: 7"),
        (8, "Found some other id: 8"),
        (10, "Found an id in another range"),
        (12, "Found an id in another range"),
        (13, "Found some other id: 13"),
        (-4, "Found some other id: -4"),
    ] {
        assert_eq!(id_text(&IdMessage::Hello { id }), line);
    }
}

#[test]
fn plus_one_adds_inside_the_option() {
    assert_eq!(match_arms(), Some(2));
    assert_eq!(plus_one(None), None);
    assert_eq!(plus_one(Some(41)), Some(42));
    assert_eq!(plus_one(Some(-1)), Some(0));
    assert_eq!(refutability(), Some(1));
}

#[test]
fn the_background_is_chosen_in_order() {
    assert_eq!(if_let(), "Using purple as the background color");
    assert_eq!(
        background_text(Some("teal"), true, Some(40)),
        "Using your favorite color, teal, as the background"
    );
    assert_eq!(background_text(None, true, Some(40)), "Tuesday is green day!");
    assert_eq!(background_text(None, false, Some(31)), "Using purple as the background color");
    assert_eq!(background_text(None, false, Some(30)), "Using orange as the background color");
    assert_eq!(background_text(None, false, None), "Using blue as the background color");
}

#[test]
fn a_stack_is_drained_from_the_top() {
    assert_eq!(while_let(), vec!["3", "2", "1"]);
    assert_eq!(drain_stack(vec![-1, 20]), vec!["20", "-1"]);
    assert!(drain_stack(vec![]).is_empty());
    assert_eq!(
        destructuring(),
        vec!["a is at index 0", "b is at index 1", "c is at index 2"]
    );
    assert!(index_lines(&vec![]).is_empty());
}

#[test]
fn literals_alternatives_and_ranges_name_their_arm() {
    let names: Vec<&str> = (0..5).map(matching_literals).collect();
    assert_eq!(names, vec!["anything", "one", "two", "three", "anything"]);
    let names: Vec<&str> = (0..5).map(multiple_patterns).collect();
    assert_eq!(names, vec!["anything", "one or two", "one or two", "three", "anything"]);
    assert_eq!(number_range(0), "something else");
    assert_eq!(number_range(1), "one through five (inclusive)");
    assert_eq!(number_range(5), "one through five (inclusive)");
    assert_eq!(number_range(6), "something else");
    for (c, name) in [
        ('a', "early ASCII letter"),
        ('j', "early ASCII letter"),
        ('k', "late ASCII letter"),
        ('z', "late ASCII letter"),
        ('A', "something else"),
        ('{', "something else"),
        ('`', "something else"),
    ] {
        assert_eq!(letter_range(c), name);
    }
    assert_eq!(ranges(), ("one through five (inclusive)", "early ASCII letter"));
}

#[test]
fn a_binding_in_an_arm_shadows_the_outer_variable() {
    assert_eq!(
        matching_named_variables(Some(5), 10),
        ("Matched, y = 5".to_string(), "at the end: x = Some(5), y = 10".to_string())
    );
    assert_eq!(matching_named_variables(Some(50), 10).0, "Got 50");
    assert_eq!(
        matching_named_variables(None, -1),
        ("Default case, x = None".to_string(), "at the end: x = None, y = -1".to_string())
    );
}
