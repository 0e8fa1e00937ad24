use aws_publisher::publish::{publish_body, publish_url};

fn through_serde(cost: &str) -> String {
    let mut sensors = serde_json::Map::new();
    sensors.insert("cost".to_string(), serde_json::Value::String(cost.to_string()));
    let mut document = serde_json::Map::new();
    document.insert("reporter".to_string(), serde_json::Value::String("aws-publisher".to_string()));
    document.insert("sensors".to_string(), serde_json::Value::Object(sensors));
    document.insert("topic".to_string(), serde_json::Value::String("sensors".to_string()));
    serde_json::to_string(&serde_json::Value::Object(document)).unwrap()
}

#[test]
fn the_body_carries_the_cost_with_two_decimals() {
    let cost: f32 = 1234.5;
    assert_eq!(
        publish_body(&format!("{:.2}", cost)),
        "{\"reporter\":\"aws-publisher\",\"sensors\":{\"cost\":\"1234.50\"},\"topic\":\"sensors\"}"
    );
}

#[test]
fn the_body_of_the_documented_example() {
    let cost: f32 = 123.45;
    assert_eq!(
        publish_body(&format!("{:.2}", cost)),
        "{\"reporter\":\"aws-publisher\",\"sensors\":{\"cost\":\"123.45\"},\"topic\":\"sensors\"}"
    );
}

#[test]
fn a_fetched_amount_is_published_with_two_decimals() {
    let cost = "57.30".parse::<f32>().unwrap();
    assert_eq!(
        publish_body(&format!("{:.2}", cost)),
        "{\"reporter\":\"aws-publisher\",\"sensors\":{\"cost\":\"57.30\"},\"topic\":\"sensors\"}"
    );
    let cost = "57.3049".parse::<f32>().unwrap();
    assert_eq!(
        publish_body(&format!("{:.2}", cost)),
        "{\"reporter\":\"aws-publisher\",\"sensors\":{\"cost\":\"57.30\"},\"topic\":\"sensors\"}"
    );
    let cost = "0".parse::<f32>().unwrap();
    assert_eq!(
        publish_body(&format!("{:.2}", cost)),
        "{\"reporter\":\"aws-publisher\",\"sensors\":{\"cost\":\"0.00\"},\"topic\":\"sensors\"}"
    );
    let cost = "-3.999".parse::<f32>().unwrap();
    assert_eq!(
        publish_body(&format!("{:.2}", cost)),
        "{\"reporter\":\"aws-publisher\",\"sensors\":{\"cost\":\"-4.00\"},\"topic\":\"sensors\"}"
    );
}

#[test]
fn costs_that_are_no_numbers_are_written_as_text() {
    assert_eq!(
        publish_body(&format!("{:.2}", f32::NAN)),
        "{\"reporter\":\"aws-publisher\",\"sensors\":{\"cost\":\"NaN\"},\"topic\":\"sensors\"}"
    );
    assert_eq!(
        publish_body(&format!("{:.2}", f32::INFINITY)),
        "{\"reporter\":\"aws-publisher\",\"sensors\":{\"cost\":\"inf\"},\"topic\":\"sensors\"}"
    );
}

#[test]
fn quotation_marks_and_backslashes_are_escaped() {
    assert_eq!(
        publish_body("a\"b\\c"),
        "{\"reporter\":\"aws-publisher\",\"sensors\":{\"cost\":\"a\\\"b\\\\c\"},\"topic\":\"sensors\"}"
    );
}

#[test]
fn control_characters_are_escaped() {
    assert_eq!(
        publish_body("\u{8}\t\n\u{c}\r"),
        "{\"reporter\":\"aws-publisher\",\"sensors\":{\"cost\":\"\\b\\t\\n\\f\\r\"},\"topic\":\"sensors\"}"
    );
    assert_eq!(
        publish_body("\u{0}\u{1}\u{b}\u{1f}\u{7f}"),
        "{\"reporter\":\"aws-publisher\",\"sensors\":{\"cost\":\"\\u0000\\u0001\\u000b\\u001f\u{7f}\"},\"topic\":\"sensors\"}"
    );
}

#[test]
fn other_characters_are_kept() {
    assert_eq!(
        publish_body("12,50 \u{20ac} / caf\u{e9}"),
        "{\"reporter\":\"aws-publisher\",\"sensors\":{\"cost\":\"12,50 \u{20ac} / caf\u{e9}\"},\"topic\":\"sensors\"}"
    );
    assert_eq!(
        publish_body(""),
        "{\"reporter\":\"aws-publisher\",\"sensors\":{\"cost\":\"\"},\"topic\":\"sensors\"}"
    );
}

#[test]
fn the_body_is_what_serde_json_writes_for_the_document() {
    for cost in ["1234.50", "0.00", "-4.00", "NaN", "inf", "", "a\"b\\c", "\u{0}\u{1f} \n", "\u{20ac}"] {
        assert_eq!(publish_body(cost), through_serde(cost));
    }
}

#[test]
fn the_body_is_a_json_document_with_three_members() {
    let body = publish_body("1234.50");
    let value: serde_json::Value = serde_json::from_str(&body).unwrap();
    let document = value.as_object().unwrap();
    assert_eq!(document.len(), 3);
    assert_eq!(document["reporter"], serde_json::Value::String("aws-publisher".to_string()));
    assert_eq!(document["topic"], serde_json::Value::String("sensors".to_string()));
    let sensors = document["sensors"].as_object().unwrap();
    assert_eq!(sensors.len(), 1);
    assert_eq!(sensors["cost"], serde_json::Value::String("1234.50".to_string()));
}

#[test]
fn the_relay_has_a_fixed_address() {
    assert_eq!(publish_url(), "http://sensor-relay.int.mindphaser.se/publish");
}
