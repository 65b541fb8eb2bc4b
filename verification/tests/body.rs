use restate_szamlazz::body::{check_json_objects, JsonNode};

fn nested(depth: usize) -> JsonNode {
    let mut node = JsonNode::Scalar;
    for _ in 0..depth {
        node = JsonNode::Array(vec![node]);
    }
    node
}

#[test]
fn a_number_object_is_refused_wherever_it_is() {
    let body = JsonNode::Object(vec![
        ("amount".to_owned(), JsonNode::Scalar),
        (
            "items".to_owned(),
            JsonNode::Array(vec![JsonNode::Object(vec![(
                "$serde_json::private::Number".to_owned(),
                JsonNode::Scalar,
            )])]),
        ),
    ]);
    assert_eq!(
        check_json_objects(&body, 0),
        Err("expected a decimal string or JSON number, not a number object".to_owned())
    );
    assert_eq!(check_json_objects(&JsonNode::Object(vec![("a".to_owned(), JsonNode::Scalar)]), 0), Ok(()));
}

#[test]
fn nesting_is_bounded() {
    assert_eq!(check_json_objects(&nested(127), 0), Ok(()));
    assert_eq!(check_json_objects(&nested(128), 0), Err("request JSON nesting limit exceeded".to_owned()));
}
