use haaslib::api::Authenticated;
use haaslib::api::Executor;
use haaslib::api::edit_haas_script_source_code;
use haaslib::api::get_accounts;
use haaslib::api::get_all_markets;
use haaslib::api::get_all_script_items;
use haaslib::api::get_lab_details;
use haaslib::api::update_multiple_lab_details;
use haaslib::codec::decode_details;
use haaslib::domain::BacktestPeriod;
use haaslib::error::Error;
use haaslib::json::JsonValue;
use haaslib::json::parse_json;
use haaslib::lab::execute;
use haaslib::lab::wait_for_lab_execution;
use haaslib::lab::wait_for_lab_execution_with_limit;
use haaslib::model::CloudMarket;
use haaslib::model::EditHaasScriptSourceCodeSettings;
use haaslib::model::FloatText;
use haaslib::model::ScriptParameters;

struct ScriptedSession {
    responses: std::cell::RefCell<Vec<String>>,
    calls: std::cell::Cell<usize>,
    waits: std::cell::Cell<usize>,
}

impl ScriptedSession {
    fn new(mut responses: Vec<String>) -> ScriptedSession {
        responses.reverse();
        ScriptedSession {
            responses: std::cell::RefCell::new(responses),
            calls: std::cell::Cell::new(0),
            waits: std::cell::Cell::new(0),
        }
    }
}

impl Executor<Authenticated> for ScriptedSession {
    fn execute(&self, _uri: &str) -> Result<String, Error> {
        self.calls.set(self.calls.get() + 1);
        match self.responses.borrow_mut().pop() {
            Some(body) => Ok(body),
            None => Err(Error::Http("no scripted response left".to_string())),
        }
    }

    fn wait_before_retry(&self) {
        self.waits.set(self.waits.get() + 1);
    }
}

fn details_response(status: i64) -> String {
    let settings = r#"{"botId":"b1","botName":"bot","accountId":"a1","marketTag":"m","positionMode":0,"marginMode":0,"leverage":1.5,"tradeAmount":2.5,"interval":1,"chartStyle":300,"orderTemplate":500,"scriptParameters":{}}"#;
    format!(
        r#"{{"Success":true,"Error":"","Data":{{"C":{{"MP":1,"MG":2,"ME":3,"MR":0.5,"AR":0.25}},"ST":{},"P":[],"UID":"u","LID":"lab1","SID":"s","N":"Name","T":0,"S":{},"SB":0,"CB":0,"CA":0,"UA":0,"SA":0,"RS":0,"SU":0,"EU":0,"SE":false,"CM":null}}}}"#,
        settings, status
    )
}

fn backtest_page_response() -> String {
    let settings = r#"{"botId":"b1","botName":"bot","accountId":"a1","marketTag":"m","positionMode":0,"marginMode":0,"leverage":1.5,"tradeAmount":2.5,"interval":1,"chartStyle":300,"orderTemplate":500,"scriptParameters":{}}"#;
    format!(
        r#"{{"Success":true,"Error":"","Data":{{"I":[{{"RID":7,"UID":"u","LID":"lab1","BID":"bt1","NG":0,"NP":1,"ST":3,"SE":{},"P":{{"FastLength":"9"}},"RT":null,"C":null,"L":null,"S":{{"O":1,"T":2,"P":3,"FC":{{"USDT":1.5}},"RP":{{"USDT":2.5}},"ROI":[0.5,0.75],"CR":{{"Custom Report":null}}}}}}],"NP":-1}}}}"#,
        settings
    )
}

#[test]
fn poll_stops_at_once_on_completed() {
    let executor = ScriptedSession::new(vec![details_response(3)]);
    assert_eq!(wait_for_lab_execution(&executor, "lab1"), Ok(()));
    assert_eq!(executor.calls.get(), 1);
    assert_eq!(executor.waits.get(), 0);
}

#[test]
fn poll_stops_at_once_on_cancelled() {
    let executor = ScriptedSession::new(vec![details_response(4)]);
    assert_eq!(wait_for_lab_execution(&executor, "lab1"), Ok(()));
    assert_eq!(executor.calls.get(), 1);
    assert_eq!(executor.waits.get(), 0);
}

#[test]
fn poll_keeps_going_while_statuses_are_not_terminal() {
    let executor = ScriptedSession::new(vec![
        details_response(0),
        details_response(1),
        details_response(2),
        details_response(3),
    ]);
    assert_eq!(wait_for_lab_execution(&executor, "lab1"), Ok(()));
    assert_eq!(executor.calls.get(), 4);
    assert_eq!(executor.waits.get(), 3);
}

#[test]
fn poll_reports_a_lab_that_never_finishes() {
    let executor = ScriptedSession::new(vec![
        details_response(2),
        details_response(2),
        details_response(2),
    ]);
    assert_eq!(
        wait_for_lab_execution_with_limit(&executor, "lab1", 3),
        Err(Error::Lab(
            "lab lab1 did not reach a terminal status".to_string()
        ))
    );
    assert_eq!(executor.calls.get(), 3);
}

#[test]
fn poll_passes_transport_errors_on() {
    let executor = ScriptedSession::new(vec![]);
    assert_eq!(
        wait_for_lab_execution(&executor, "lab1"),
        Err(Error::Http("no scripted response left".to_string()))
    );
}

#[test]
fn execute_starts_polls_and_fetches_results() {
    let executor = ScriptedSession::new(vec![
        details_response(2),       // start execution acknowledges with details
        details_response(2),       // first poll: still running
        details_response(3),       // second poll: completed
        backtest_page_response(),  // result page
    ]);
    let page = execute::<JsonValue, _>(&executor, "lab1", BacktestPeriod::Day(1)).unwrap();
    assert_eq!(executor.calls.get(), 4);
    assert_eq!(page.next_page_id, -1);
    assert_eq!(page.items.len(), 1);
    let result = &page.items[0];
    assert_eq!(result.record_id, 7);
    assert_eq!(result.backtest_id, "bt1");
    assert_eq!(result.parameters, vec![("FastLength".to_string(), "9".to_string())]);
    assert_eq!(result.summary.o, 1);
    assert_eq!(
        result.summary.fc,
        vec![("USDT".to_string(), FloatText("1.5".to_string()))]
    );
    assert_eq!(
        result.summary.roi,
        vec![FloatText("0.5".to_string()), FloatText("0.75".to_string())]
    );
    assert_eq!(result.summary.custom_report.data, JsonValue::Null);
}

#[test]
fn execute_fails_fast_when_the_start_fails() {
    let executor = ScriptedSession::new(vec![
        r#"{"Success":false,"Error":"no such lab","Data":null}"#.to_string(),
    ]);
    assert_eq!(
        execute::<JsonValue, _>(&executor, "lab1", BacktestPeriod::Day(1)),
        Err(Error::Failure("no such lab".to_string()))
    );
    assert_eq!(executor.calls.get(), 1);
}

#[test]
fn lab_details_fetch_decodes_the_record() {
    let executor = ScriptedSession::new(vec![details_response(1)]);
    let details = get_lab_details(&executor, "lab1").unwrap();
    assert_eq!(details.lab_id, "lab1");
    assert_eq!(details.status.code(), 1);
}

#[test]
fn update_multiple_returns_one_record_per_input() {
    let executor = ScriptedSession::new(vec![details_response(0), details_response(0)]);
    let d1 = decode_details(
        &parse_json(&details_response(0))
            .and_then(|j| match j {
                JsonValue::Obj(ms) => haaslib::json::get_value(&ms, "Data"),
                _ => None,
            })
            .unwrap(),
    )
    .unwrap();
    let d2 = decode_details(
        &parse_json(&details_response(0))
            .and_then(|j| match j {
                JsonValue::Obj(ms) => haaslib::json::get_value(&ms, "Data"),
                _ => None,
            })
            .unwrap(),
    )
    .unwrap();
    let updated = update_multiple_lab_details(&executor, &vec![d1, d2]).unwrap();
    assert_eq!(updated.len(), 2);
    assert_eq!(executor.calls.get(), 2);
}

#[test]
fn markets_accounts_and_scripts_decode() {
    let markets = ScriptedSession::new(vec![
        r#"{"Success":true,"Error":"","Data":[{"C":"SPOT","PS":"BINANCE","P":"BTC","S":"USDT"}]}"#
            .to_string(),
    ]);
    let ms = get_all_markets(&markets).unwrap();
    assert_eq!(
        ms,
        vec![CloudMarket {
            category: "SPOT".to_string(),
            price_source: "BINANCE".to_string(),
            primary: "BTC".to_string(),
            secondary: "USDT".to_string(),
        }]
    );
    assert_eq!(ms[0].as_market_tag(), "BINANCE_BTC_USDT_SPOT");
    assert_eq!(ms[0].label(), "BINANCE BTC/USDT (SPOT)");

    let accounts = ScriptedSession::new(vec![
        r#"{"Success":true,"Error":"","Data":[{"UID":"u","AID":"a1","N":"acc","EC":"BINANCE","ET":0,"S":1,"IS":true,"IT":false,"PA":false,"WL":false,"PM":0,"MS":{},"V":3}]}"#
            .to_string(),
    ]);
    let accs = get_accounts(&accounts).unwrap();
    assert_eq!(accs.len(), 1);
    assert_eq!(accs[0].account_id, "a1");
    assert!(accs[0].is_simulated);

    let scripts = ScriptedSession::new(vec![
        r#"{"Success":true,"Error":"","Data":[{"D":["dep1"],"UID":"u","SID":"s1","SN":"scalper","SD":"","ST":0,"SS":0,"CN":"","IC":false,"IV":true,"CU":1,"UU":2,"FID":0}]}"#
            .to_string(),
    ]);
    let items = get_all_script_items(&scripts).unwrap();
    assert_eq!(items.len(), 1);
    assert_eq!(items[0].script_id, "s1");
    assert_eq!(items[0].dependencies, vec!["dep1".to_string()]);
}

#[test]
fn malformed_list_payload_is_a_decode_error() {
    let executor = ScriptedSession::new(vec![
        r#"{"Success":true,"Error":"","Data":{"not":"an array"}}"#.to_string(),
    ]);
    assert!(matches!(get_all_markets(&executor), Err(Error::Serde(_))));
}

#[test]
fn edit_script_acknowledgement() {
    let executor = ScriptedSession::new(vec![
        r#"{"Success":true,"Error":"","Data":null}"#.to_string(),
    ]);
    let settings = EditHaasScriptSourceCodeSettings {
        market_tag: CloudMarket {
            category: "SPOT".to_string(),
            price_source: "BINANCE".to_string(),
            primary: "BTC".to_string(),
            secondary: "USDT".to_string(),
        },
        leverage: FloatText("1.5".to_string()),
        position_mode: 0,
        trade_amount: FloatText("2.5".to_string()),
        order_template: 500,
        chart_style: 300,
        interval: 5,
        script_parameters: ScriptParameters {},
        bot_name: "bot".to_string(),
        bot_id: "b1".to_string(),
    };
    assert_eq!(
        edit_haas_script_source_code(&executor, "s1", "function main() {}", &settings),
        Ok(())
    );
}
