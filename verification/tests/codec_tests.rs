use haaslib::codec::decode_details;
use haaslib::codec::decode_option;
use haaslib::codec::decode_options;
use haaslib::codec::encode_details;
use haaslib::json::JsonValue;
use haaslib::json::json_to_string;
use haaslib::json::parse_json;
use haaslib::model::UserLabParameterOption;
use haaslib::model::UserLabStatus;

fn details_data_json(status: i64) -> String {
    let config = r#"{"MP":10,"MG":20,"ME":3,"MR":0.5,"AR":0.25}"#;
    let settings = r#"{"botId":"b1","botName":"bot","accountId":"a1","marketTag":"BINANCE_BTC_USDT","positionMode":0,"marginMode":1,"leverage":1.5,"tradeAmount":100.5,"interval":15,"chartStyle":300,"orderTemplate":500,"scriptParameters":{}}"#;
    let parameters = r#"[{"K":"FastLength","T":0,"O":[9,"2"],"I":true,"IS":false}]"#;
    format!(
        r#"{{"C":{},"ST":{},"P":{},"UID":"u1","LID":"lab1","SID":"s1","N":"My Lab","T":0,"S":{},"SB":1,"CB":2,"CA":3,"UA":4,"SA":5,"RS":6,"SU":7,"EU":8,"SE":false,"CM":null}}"#,
        config, settings, parameters, status
    )
}

fn envelope(data: &str) -> String {
    format!(r#"{{"Success":true,"Error":"","Data":{}}}"#, data)
}

#[test]
fn desers_lab_parameters() {
    let parsed = parse_json("[1, \"2\"]").unwrap();
    let actual = match &parsed {
        JsonValue::Arr(items) => decode_options(items).unwrap(),
        other => panic!("expected an array, got {:?}", other),
    };
    assert_eq!(
        actual,
        vec![
            UserLabParameterOption::Digit(1),
            UserLabParameterOption::String("2".to_string())
        ]
    );
}

#[test]
fn option_literals_decode_by_shape() {
    assert_eq!(
        decode_option(&JsonValue::Int(5)),
        Some(UserLabParameterOption::Digit(5))
    );
    assert_eq!(
        decode_option(&JsonValue::Str("true".to_string())),
        Some(UserLabParameterOption::String("true".to_string()))
    );
    assert_eq!(
        decode_option(&JsonValue::Bool(true)),
        Some(UserLabParameterOption::Bool(true))
    );
    assert_eq!(decode_option(&JsonValue::Null), None);
    assert_eq!(decode_option(&JsonValue::Arr(vec![])), None);
}

#[test]
fn lab_details_decode_reads_every_field() {
    let parsed = parse_json(&details_data_json(2)).unwrap();
    let details = decode_details(&parsed).unwrap();
    assert_eq!(details.user_id, "u1");
    assert_eq!(details.lab_id, "lab1");
    assert_eq!(details.script_id, "s1");
    assert_eq!(details.name, "My Lab");
    assert_eq!(details.algorithm, 0);
    assert_eq!(details.status, UserLabStatus::Running);
    assert_eq!(details.scheduled_backtests, 1);
    assert_eq!(details.complete_backtests, 2);
    assert_eq!(details.created_at, 3);
    assert_eq!(details.updated_at, 4);
    assert_eq!(details.started_at, 5);
    assert_eq!(details.running_since, 6);
    assert_eq!(details.start_unix, 7);
    assert_eq!(details.end_unix, 8);
    assert!(!details.send_email);
    assert_eq!(details.cancel_reason, JsonValue::Null);
    assert_eq!(details.user_lab_config.max_population, 10);
    assert_eq!(details.user_lab_config.mix_rate.0, "0.5");
    assert_eq!(details.haas_script_settings.bot_id, "b1");
    assert_eq!(details.haas_script_settings.leverage.0, "1.5");
    assert_eq!(details.haas_script_settings.trade_amount.0, "100.5");
    assert_eq!(details.parameters.len(), 1);
    assert_eq!(details.parameters[0].key, "FastLength");
    assert_eq!(
        details.parameters[0].options,
        vec![
            UserLabParameterOption::Digit(9),
            UserLabParameterOption::String("2".to_string())
        ]
    );
}

#[test]
fn lab_details_round_trip_preserves_fields() {
    let parsed = parse_json(&details_data_json(3)).unwrap();
    let details = decode_details(&parsed).unwrap();
    let encoded = encode_details(&details);
    let text = json_to_string(&encoded);
    let reparsed = parse_json(&text).unwrap();
    let decoded_again = decode_details(&reparsed).unwrap();
    assert_eq!(decoded_again, details);
}

#[test]
fn lab_details_decode_ignores_member_order_and_extras() {
    let data = details_data_json(0);
    // wrap the same members inside an object that also carries an
    // unknown member first
    let reordered = format!(r#"{{"ZZZ":123,{}"#, &data[1..]);
    let details = decode_details(&parse_json(&reordered).unwrap()).unwrap();
    assert_eq!(details.status, UserLabStatus::Created);
}

#[test]
fn lab_details_decode_rejects_missing_field() {
    let data = details_data_json(1).replace(r#""UID":"u1","#, "");
    assert_eq!(decode_details(&parse_json(&data).unwrap()), None);
}

#[test]
fn lab_details_decode_rejects_unknown_status_code() {
    let data = details_data_json(7);
    assert_eq!(decode_details(&parse_json(&data).unwrap()), None);
}

#[test]
fn status_codes_round_trip() {
    let statuses = [
        UserLabStatus::Created,
        UserLabStatus::Queued,
        UserLabStatus::Running,
        UserLabStatus::Completed,
        UserLabStatus::Cancelled,
    ];
    for (i, status) in statuses.iter().enumerate() {
        assert_eq!(status.code(), i as i64);
        assert_eq!(UserLabStatus::from_code(i as i64), Some(*status));
    }
    assert_eq!(UserLabStatus::from_code(5), None);
    assert_eq!(UserLabStatus::from_code(-1), None);
    assert!(UserLabStatus::Completed.is_terminal());
    assert!(UserLabStatus::Cancelled.is_terminal());
    assert!(!UserLabStatus::Running.is_terminal());
    assert!(!UserLabStatus::Queued.is_terminal());
    assert!(!UserLabStatus::Created.is_terminal());
}

#[test]
fn writer_spells_documents_as_json() {
    let doc = parse_json(&envelope(r#"{"A":[1,2.5,"x",true,null]}"#)).unwrap();
    let text = json_to_string(&doc);
    // the parser hands object members back sorted by key
    assert_eq!(
        text,
        r#"{"Data":{"A":[1,2.5,"x",true,null]},"Error":"","Success":true}"#
    );
}

#[test]
fn writer_escapes_string_characters() {
    let doc = JsonValue::Str("a\"b\\c\nd\te\r".to_string());
    assert_eq!(json_to_string(&doc), "\"a\\\"b\\\\c\\nd\\te\\r\"");
    let control = JsonValue::Str("\u{0001}".to_string());
    assert_eq!(json_to_string(&control), "\"\\u0001\"");
}

#[test]
fn writer_and_parser_agree_through_serde() {
    let text = details_data_json(4);
    let doc = parse_json(&text).unwrap();
    let written = json_to_string(&doc);
    // an outside reader accepts the written text and sees the same value
    let ours: serde_json::Value = serde_json::from_str(&written).unwrap();
    let theirs: serde_json::Value = serde_json::from_str(&text).unwrap();
    assert_eq!(ours, theirs);
}

#[test]
fn parse_json_rejects_malformed_text() {
    assert_eq!(parse_json("{\"a\":"), None);
    assert_eq!(parse_json(""), None);
    assert!(parse_json("[]").is_some());
}
