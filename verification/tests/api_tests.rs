use haaslib::api::Authenticated;
use haaslib::api::Executor;
use haaslib::api::Guest;
use haaslib::api::UserCredentials;
use haaslib::api::authenticate;
use haaslib::api::backtest_result_uri;
use haaslib::api::create_lab_uri;
use haaslib::api::generate_interface_key;
use haaslib::api::lab_details_uri;
use haaslib::api::login_credentials_uri;
use haaslib::api::login_one_time_code_uri;
use haaslib::api::market_list_by_pricesource_uri;
use haaslib::api::parse_body;
use haaslib::api::start_lab_execution_uri;
use haaslib::api::update_lab_details_uri;
use haaslib::codec::decode_details;
use haaslib::codec::unwrap_envelope;
use haaslib::error::Error;
use haaslib::json::parse_json;
use haaslib::model::CreateLabRequest;
use haaslib::model::HaasChartPricePlotStyle;
use haaslib::model::StartLabExecutionRequest;

struct ScriptedGuest {
    responses: std::cell::RefCell<Vec<String>>,
    uris: std::cell::RefCell<Vec<String>>,
}

impl ScriptedGuest {
    fn new(mut responses: Vec<String>) -> ScriptedGuest {
        responses.reverse();
        ScriptedGuest {
            responses: std::cell::RefCell::new(responses),
            uris: std::cell::RefCell::new(Vec::new()),
        }
    }
}

impl Executor<Guest> for ScriptedGuest {
    fn execute(&self, uri: &str) -> Result<String, Error> {
        self.uris.borrow_mut().push(uri.to_string());
        match self.responses.borrow_mut().pop() {
            Some(body) => Ok(body),
            None => Err(Error::Http("no scripted response left".to_string())),
        }
    }

    fn wait_before_retry(&self) {}
}

#[test]
fn query_strings_spell_each_operation() {
    assert_eq!(
        market_list_by_pricesource_uri("BINANCE"),
        "PriceAPI.php?channel=MARKETLIST&pricesource=BINANCE"
    );
    assert_eq!(
        lab_details_uri("lab-7"),
        "LabsAPI.php?channel=GET_LAB_DETAILS&labid=lab-7"
    );
    assert_eq!(
        backtest_result_uri("lab-7", 0, 1000000),
        "LabsAPI.php?channel=GET_BACKTEST_RESULT_PAGE&labid=lab-7&nextpageid=0&pagelength=1000000"
    );
    let create = CreateLabRequest {
        script_id: "s1",
        name: "My Lab",
        account_id: "a1",
        market: "BTC_USDT",
        interval: 5,
        style: HaasChartPricePlotStyle::CandleStick,
    };
    assert_eq!(
        create_lab_uri(&create),
        "LabsAPI.php?channel=CREATE_LAB&scriptId=s1&name=My Lab&accountId=a1&market=BTC_USDT&interval=5&style=300"
    );
    let start = StartLabExecutionRequest {
        lab_id: "lab-7",
        start_unix: 100,
        end_unix: 200,
        send_email: true,
    };
    assert_eq!(
        start_lab_execution_uri(&start),
        "LabsAPI.php?channel=START_LAB_EXECUTION&labid=lab-7&startunix=100&endunix=200&sendemail=true"
    );
    assert_eq!(
        login_credentials_uri("a@b.c", "secret", "123456789"),
        "UserAPI.php?channel=LOGIN_WITH_CREDENTIALS&email=a@b.c&password=secret&interfaceKey=123456789"
    );
    assert_eq!(
        login_one_time_code_uri("a@b.c", "123456789"),
        "UserAPI.php?channel=LOGIN_WITH_ONE_TIME_CODE&email=a@b.c&pincode=000000&interfaceKey=123456789"
    );
}

#[test]
fn update_details_query_percent_encodes_the_json() {
    let data = r#"{"C":{"MP":1,"MG":2,"ME":3,"MR":0.5,"AR":0.25},"ST":{"botId":"b","botName":"n","accountId":"a","marketTag":"m","positionMode":0,"marginMode":0,"leverage":1.5,"tradeAmount":2.5,"interval":1,"chartStyle":300,"orderTemplate":500,"scriptParameters":{}},"P":[{"K":"K1","T":0,"O":[1],"I":true,"IS":false}],"UID":"u","LID":"lab1","SID":"s","N":"Name","T":2,"S":0,"SB":0,"CB":0,"CA":0,"UA":0,"SA":0,"RS":0,"SU":0,"EU":0,"SE":false,"CM":null}"#;
    let details = decode_details(&parse_json(data).unwrap()).unwrap();
    let uri = update_lab_details_uri(&details);
    let config_json = r#"{"MP":1,"MG":2,"ME":3,"MR":0.5,"AR":0.25}"#;
    let settings_json = r#"{"botId":"b","botName":"n","accountId":"a","marketTag":"m","positionMode":0,"marginMode":0,"leverage":1.5,"tradeAmount":2.5,"interval":1,"chartStyle":300,"orderTemplate":500,"scriptParameters":{}}"#;
    let parameters_json = r#"[{"K":"K1","T":0,"O":[1],"I":true,"IS":false}]"#;
    let expected = format!(
        "LabsAPI.php?channel=UPDATE_LAB_DETAILS&labid=lab1&name=Name&type=2&config={}&settings={}&parameters={}",
        urlencoding::encode(config_json),
        urlencoding::encode(settings_json),
        urlencoding::encode(parameters_json)
    );
    assert_eq!(uri, expected);
    // the encoding really escaped the JSON punctuation
    assert!(uri.contains("%7B%22MP%22%3A1"));
}

#[test]
fn interface_keys_are_nine_digits() {
    for _ in 0..16 {
        let key = generate_interface_key();
        assert_eq!(key.len(), 9);
        assert!(key.chars().all(|c| c.is_ascii_digit()));
    }
}

#[test]
fn credentials_are_appended_to_queries() {
    let session = Authenticated {
        credentials: UserCredentials {
            user_id: "u-1".to_string(),
            interface_key: "123456789".to_string(),
        },
    };
    assert_eq!(
        session.wrap_with_credentials("PriceAPI.php?channel=MARKETLIST"),
        "PriceAPI.php?channel=MARKETLIST&userid=u-1&interfacekey=123456789"
    );
}

#[test]
fn envelope_success_yields_data() {
    let j = parse_json(r#"{"Success":true,"Error":"","Data":[1,2]}"#).unwrap();
    let data = unwrap_envelope(&j).unwrap();
    assert_eq!(haaslib::json::json_to_string(&data), "[1,2]");
}

#[test]
fn envelope_failure_carries_the_error_text() {
    let j = parse_json(r#"{"Success":false,"Error":"bad key","Data":null}"#).unwrap();
    assert_eq!(
        unwrap_envelope(&j),
        Err(Error::Failure("bad key".to_string()))
    );
}

#[test]
fn envelope_missing_members_is_a_decode_error() {
    let j = parse_json(r#"{"Data":null}"#).unwrap();
    assert!(matches!(unwrap_envelope(&j), Err(Error::Serde(_))));
    let not_object = parse_json("[1]").unwrap();
    assert!(matches!(unwrap_envelope(&not_object), Err(Error::Serde(_))));
}

#[test]
fn parse_body_reports_malformed_text() {
    assert!(matches!(parse_body("{"), Err(Error::Serde(_))));
    assert!(parse_body("{}").is_ok());
}

#[test]
fn authenticate_returns_a_session_with_the_server_user_id() {
    let executor = ScriptedGuest::new(vec![
        r#"{"Success":true,"Error":"","Data":{}}"#.to_string(),
        r#"{"Success":true,"Error":"","Data":{"R":0,"D":{"UserId":"user-9","InterfaceSecret":"sec","LicenseDetails":{}}}}"#.to_string(),
    ]);
    let session = authenticate(&executor, "a@b.c", "secret").unwrap();
    assert_eq!(session.credentials.user_id, "user-9");
    assert_eq!(session.credentials.interface_key.len(), 9);
    let uris = executor.uris.borrow();
    assert_eq!(uris.len(), 2);
    assert!(uris[0].starts_with("UserAPI.php?channel=LOGIN_WITH_CREDENTIALS&email=a@b.c&password=secret&interfaceKey="));
    assert!(uris[1].starts_with("UserAPI.php?channel=LOGIN_WITH_ONE_TIME_CODE&email=a@b.c&pincode=000000&interfaceKey="));
    // the generated key is replayed on both calls
    let key0 = uris[0].rsplit('=').next().unwrap();
    let key1 = uris[1].rsplit('=').next().unwrap();
    assert_eq!(key0, key1);
    assert_eq!(key1, session.credentials.interface_key);
}

#[test]
fn authenticate_with_null_details_is_a_failure() {
    let executor = ScriptedGuest::new(vec![
        r#"{"Success":true,"Error":"","Data":{}}"#.to_string(),
        r#"{"Success":true,"Error":"","Data":null}"#.to_string(),
    ]);
    assert_eq!(
        authenticate(&executor, "a@b.c", "wrong"),
        Err(Error::Failure("login returned no user details".to_string()))
    );
}

#[test]
fn authenticate_passes_envelope_refusals_on() {
    let executor = ScriptedGuest::new(vec![
        r#"{"Success":false,"Error":"no such account","Data":null}"#.to_string(),
    ]);
    assert_eq!(
        authenticate(&executor, "a@b.c", "secret"),
        Err(Error::Failure("no such account".to_string()))
    );
}
