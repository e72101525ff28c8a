//! The client API: session states, the transport trait, the query
//! string of every remote operation, and the operations themselves.
//!
//! Each operation builds its query string (proved character for
//! character), hands it to the injected [`Executor`], and reads the
//! response body through the verified codecs.  Nothing can be promised
//! of what a transport hands back, so the operations themselves carry
//! no result contracts; the query builders and the response readers
//! beside them do, and an operation is their composition.  Which
//! operations a caller may issue is settled at compile time: the ones
//! that need a login demand an `Executor<Authenticated>`.

use vstd::prelude::*;
use vstd::string::*;
use crate::codec::accounts_json_ok;
use crate::codec::accounts_match;
use crate::codec::backtest_page_matches;
use crate::codec::decode_accounts;
use crate::codec::decode_app_login;
use crate::codec::decode_backtest_page;
use crate::codec::decode_details;
use crate::codec::decode_markets;
use crate::codec::decode_script_items;
use crate::codec::details_json_ok;
use crate::codec::details_matches;
use crate::codec::encode_config;
use crate::codec::encode_edit_settings;
use crate::codec::encode_parameters;
use crate::codec::envelope_json_ok;
use crate::codec::markets_json_ok;
use crate::codec::markets_match;
use crate::codec::script_items_json_ok;
use crate::codec::script_items_match;
use crate::codec::spec_config_json;
use crate::codec::spec_edit_settings_json;
use crate::codec::spec_parameters_json;
use crate::codec::spec_settings_json;
use crate::codec::encode_settings;
use crate::codec::unwrap_envelope;
use crate::error::Error;
use crate::json::JsonData;
use crate::json::JsonValue;
use crate::json::json_string_literal;
use crate::json::json_text;
use crate::json::json_to_string;
use crate::json::lemma_arr_view;
use crate::json::obj_lookup;
use crate::json::parse_json;
use crate::json::string_text;
use crate::model::CloudMarket;
use crate::model::CreateLabRequest;
use crate::model::CustomReport;
use crate::model::EditHaasScriptSourceCodeSettings;
use crate::model::HaasScriptItemWithDependencies;
use crate::model::PaginatedResponse;
use crate::model::StartLabExecutionRequest;
use crate::model::UserAccount;
use crate::model::UserLabBacktestResult;
use crate::model::UserLabDetails;
use crate::model::spec_plot_style_value;
use crate::strutil::bool_rep;
use crate::strutil::dec_rep;
use crate::strutil::dec_rep_signed;
use crate::strutil::digit_char_of;
use crate::strutil::is_digit_char;
use crate::strutil::push_bool;
use crate::strutil::push_i64_dec;
use crate::strutil::push_u64_dec;
use crate::trusted::percent_encode;
use crate::trusted::percent_encoded;
use crate::trusted::push_char;
use crate::trusted::random_byte;

verus! {

/// The credentials of a logged-in session: the server-issued user id,
/// and the client-generated interface key echoed on every call.
#[derive(Debug, PartialEq)]
pub struct UserCredentials {
    pub user_id: String,
    pub interface_key: String,
}

/// The session state of a client that has not logged in.
pub struct Guest;

/// The session state of a logged-in client.
#[derive(Debug, PartialEq)]
pub struct Authenticated {
    pub credentials: UserCredentials,
}

/// Every character of `s` is a decimal digit.
pub open spec fn all_digits(s: Seq<char>) -> bool {
    forall|i: int| 0 <= i < s.len() ==> is_digit_char(#[trigger] s[i])
}

impl Authenticated {
    /// Appends the session's credentials to a query string, the way
    /// the remote service expects them on every authenticated call.
    pub fn wrap_with_credentials(&self, uri: &str) -> (r: String)
        ensures
            r@ == uri@ + "&userid="@ + self.credentials.user_id@ + "&interfacekey="@
                + self.credentials.interface_key@,
    {
        let mut out = String::from_str(uri);
        out.append("&userid=");
        out.append(self.credentials.user_id.as_str());
        out.append("&interfacekey=");
        out.append(self.credentials.interface_key.as_str());
        out
    }
}

/// The transport a session talks through.
///
/// The library builds every query string and reads every response
/// body; an implementation only has to fetch one query — appending the
/// base address, and for an authenticated executor the credentials —
/// and hand the body text back.  `wait_before_retry` separates the
/// attempts of the status poll loop; a real transport pauses there.
/// The state parameter ties an executor to the session kind it serves.
pub trait Executor<S> {
    /// Fetches the response body for one API query.
    fn execute(&self, uri: &str) -> Result<String, Error>;

    /// Waits before the next fetch of a poll loop.
    fn wait_before_retry(&self);
}

/// Parses a response body, or reports the malformed text.
pub fn parse_body(body: &str) -> (r: Result<JsonValue, Error>)
    ensures
        r matches Err(e) ==> e is Serde,
{
    match parse_json(body) {
        Some(j) => Ok(j),
        None => Err(Error::Serde(String::from_str("response body is not JSON"))),
    }
}

/// A fresh interface key: nine random decimal digits.
pub fn generate_interface_key() -> (r: String)
    ensures
        r@.len() == 9,
        all_digits(r@),
{
    let mut out = String::new();
    let mut i: usize = 0;
    while i < 9
        invariant
            i <= 9,
            out@.len() == i,
            all_digits(out@),
        decreases 9 - i,
    {
        let digit = random_byte() % 10;
        push_char(&mut out, digit_char_of(digit as u64));
        i += 1;
    }
    out
}

/// The query that offers credentials in the first login step.
pub fn login_credentials_uri(email: &str, secret_key: &str, interface_key: &str) -> (r: String)
    ensures
        r@ == "UserAPI.php?channel=LOGIN_WITH_CREDENTIALS&email="@ + email@ + "&password="@
            + secret_key@ + "&interfaceKey="@ + interface_key@,
{
    let mut out = String::from_str("UserAPI.php?channel=LOGIN_WITH_CREDENTIALS&email=");
    out.append(email);
    out.append("&password=");
    out.append(secret_key);
    out.append("&interfaceKey=");
    out.append(interface_key);
    out
}

/// The query that confirms the login with the fixed one-time code.
pub fn login_one_time_code_uri(email: &str, interface_key: &str) -> (r: String)
    ensures
        r@ == "UserAPI.php?channel=LOGIN_WITH_ONE_TIME_CODE&email="@ + email@
            + "&pincode=000000&interfaceKey="@ + interface_key@,
{
    let mut out = String::from_str("UserAPI.php?channel=LOGIN_WITH_ONE_TIME_CODE&email=");
    out.append(email);
    out.append("&pincode=000000&interfaceKey=");
    out.append(interface_key);
    out
}

/// Logs a guest session in.
///
/// A fresh nine-digit interface key is generated and replayed through
/// the two-step exchange the service requires: a credential check and
/// a one-time-code confirmation.  A null confirmation payload means
/// the credentials were not accepted and comes back as a `Failure`;
/// transport and decode failures carry their own kinds.  On success
/// the returned session holds the server-issued user id beside the
/// generated key.
pub fn authenticate<E: Executor<Guest>>(executor: &E, email: &str, secret_key: &str) -> (r: Result<
    Authenticated,
    Error,
>)
    ensures
        r matches Ok(session) ==> session.credentials.interface_key@.len() == 9 && all_digits(
            session.credentials.interface_key@,
        ),
{
    let interface_key = generate_interface_key();
    let uri = login_credentials_uri(email, secret_key, interface_key.as_str());
    let body = match executor.execute(uri.as_str()) {
        Ok(b) => b,
        Err(e) => {
            return Err(e);
        },
    };
    let j = match parse_body(body.as_str()) {
        Ok(j) => j,
        Err(e) => {
            return Err(e);
        },
    };
    match unwrap_envelope(&j) {
        Ok(_) => (),
        Err(e) => {
            return Err(e);
        },
    }
    let confirm_uri = login_one_time_code_uri(email, interface_key.as_str());
    let confirm_body = match executor.execute(confirm_uri.as_str()) {
        Ok(b) => b,
        Err(e) => {
            return Err(e);
        },
    };
    let confirm_json = match parse_body(confirm_body.as_str()) {
        Ok(j) => j,
        Err(e) => {
            return Err(e);
        },
    };
    let data = match unwrap_envelope(&confirm_json) {
        Ok(d) => d,
        Err(e) => {
            return Err(e);
        },
    };
    match &data {
        JsonValue::Null => Err(
            Error::Failure(String::from_str("login returned no user details")),
        ),
        _ => match decode_app_login(&data) {
            Some(login) => Ok(
                Authenticated {
                    credentials: UserCredentials { user_id: login.details.user_id, interface_key },
                },
            ),
            None => Err(Error::Serde(String::from_str("malformed login confirmation"))),
        },
    }
}

// ---------------------------------------------------------------------
// Response readers
// ---------------------------------------------------------------------

/// Reads a market-list response body.
pub fn parse_markets_response(j: &JsonValue) -> (r: Result<Vec<CloudMarket>, Error>)
    ensures
        match r {
            Ok(ms) => {
                &&& obj_lookup(j@, "Success"@) == Some(JsonData::Bool(true))
                &&& obj_lookup(j@, "Data"@) matches Some(JsonData::Arr(js)) && markets_match(
                    ms@,
                    js,
                )
            },
            Err(Error::Failure(msg)) => {
                &&& envelope_json_ok(j@)
                &&& obj_lookup(j@, "Success"@) == Some(JsonData::Bool(false))
                &&& obj_lookup(j@, "Error"@) == Some(JsonData::Str(msg@))
            },
            Err(Error::Serde(_)) => !envelope_json_ok(j@) || (obj_lookup(j@, "Data"@) matches Some(
                dj,
            ) && !(dj matches JsonData::Arr(js) && markets_json_ok(js))),
            Err(_) => false,
        },
{
    let data = match unwrap_envelope(j) {
        Ok(d) => d,
        Err(e) => {
            return Err(e);
        },
    };
    match &data {
        JsonValue::Arr(items) => {
            proof {
                lemma_arr_view(data);
            }
            match decode_markets(items) {
                Some(ms) => Ok(ms),
                None => Err(Error::Serde(String::from_str("malformed market record"))),
            }
        },
        _ => Err(Error::Serde(String::from_str("market list is not an array"))),
    }
}

/// Reads a script-item-list response body.
pub fn parse_script_items_response(j: &JsonValue) -> (r: Result<
    Vec<HaasScriptItemWithDependencies>,
    Error,
>)
    ensures
        match r {
            Ok(xs) => {
                &&& obj_lookup(j@, "Success"@) == Some(JsonData::Bool(true))
                &&& obj_lookup(j@, "Data"@) matches Some(JsonData::Arr(js)) && script_items_match(
                    xs@,
                    js,
                )
            },
            Err(Error::Failure(msg)) => {
                &&& envelope_json_ok(j@)
                &&& obj_lookup(j@, "Success"@) == Some(JsonData::Bool(false))
                &&& obj_lookup(j@, "Error"@) == Some(JsonData::Str(msg@))
            },
            Err(Error::Serde(_)) => !envelope_json_ok(j@) || (obj_lookup(j@, "Data"@) matches Some(
                dj,
            ) && !(dj matches JsonData::Arr(js) && script_items_json_ok(js))),
            Err(_) => false,
        },
{
    let data = match unwrap_envelope(j) {
        Ok(d) => d,
        Err(e) => {
            return Err(e);
        },
    };
    match &data {
        JsonValue::Arr(items) => {
            proof {
                lemma_arr_view(data);
            }
            match decode_script_items(items) {
                Some(xs) => Ok(xs),
                None => Err(Error::Serde(String::from_str("malformed script item"))),
            }
        },
        _ => Err(Error::Serde(String::from_str("script item list is not an array"))),
    }
}

/// Reads an account-list response body.
pub fn parse_accounts_response(j: &JsonValue) -> (r: Result<Vec<UserAccount>, Error>)
    ensures
        match r {
            Ok(xs) => {
                &&& obj_lookup(j@, "Success"@) == Some(JsonData::Bool(true))
                &&& obj_lookup(j@, "Data"@) matches Some(JsonData::Arr(js)) && accounts_match(
                    xs@,
                    js,
                )
            },
            Err(Error::Failure(msg)) => {
                &&& envelope_json_ok(j@)
                &&& obj_lookup(j@, "Success"@) == Some(JsonData::Bool(false))
                &&& obj_lookup(j@, "Error"@) == Some(JsonData::Str(msg@))
            },
            Err(Error::Serde(_)) => !envelope_json_ok(j@) || (obj_lookup(j@, "Data"@) matches Some(
                dj,
            ) && !(dj matches JsonData::Arr(js) && accounts_json_ok(js))),
            Err(_) => false,
        },
{
    let data = match unwrap_envelope(j) {
        Ok(d) => d,
        Err(e) => {
            return Err(e);
        },
    };
    match &data {
        JsonValue::Arr(items) => {
            proof {
                lemma_arr_view(data);
            }
            match decode_accounts(items) {
                Some(xs) => Ok(xs),
                None => Err(Error::Serde(String::from_str("malformed account record"))),
            }
        },
        _ => Err(Error::Serde(String::from_str("account list is not an array"))),
    }
}

/// Reads a lab-details response body.
pub fn parse_lab_details_response(j: &JsonValue) -> (r: Result<UserLabDetails, Error>)
    ensures
        match r {
            Ok(d) => {
                &&& obj_lookup(j@, "Success"@) == Some(JsonData::Bool(true))
                &&& obj_lookup(j@, "Data"@) matches Some(dj) && details_matches(d, dj)
            },
            Err(Error::Failure(msg)) => {
                &&& envelope_json_ok(j@)
                &&& obj_lookup(j@, "Success"@) == Some(JsonData::Bool(false))
                &&& obj_lookup(j@, "Error"@) == Some(JsonData::Str(msg@))
            },
            Err(Error::Serde(_)) => !envelope_json_ok(j@) || (obj_lookup(j@, "Data"@) matches Some(
                dj,
            ) && !details_json_ok(dj)),
            Err(_) => false,
        },
{
    let data = match unwrap_envelope(j) {
        Ok(d) => d,
        Err(e) => {
            return Err(e);
        },
    };
    match decode_details(&data) {
        Some(d) => Ok(d),
        None => Err(Error::Serde(String::from_str("malformed lab details"))),
    }
}

/// Reads a backtest-result-page response body.
///
/// Besides a malformed document, reading also fails when the chosen
/// `CustomReport` implementation refuses a report document.
pub fn parse_backtest_page_response<T: CustomReport>(j: &JsonValue) -> (r: Result<
    PaginatedResponse<UserLabBacktestResult<T>>,
    Error,
>)
    ensures
        match r {
            Ok(x) => {
                &&& obj_lookup(j@, "Success"@) == Some(JsonData::Bool(true))
                &&& obj_lookup(j@, "Data"@) matches Some(dj) && backtest_page_matches(x, dj)
            },
            Err(Error::Failure(msg)) => {
                &&& envelope_json_ok(j@)
                &&& obj_lookup(j@, "Success"@) == Some(JsonData::Bool(false))
                &&& obj_lookup(j@, "Error"@) == Some(JsonData::Str(msg@))
            },
            Err(Error::Serde(_)) => true,
            Err(_) => false,
        },
{
    let data = match unwrap_envelope(j) {
        Ok(d) => d,
        Err(e) => {
            return Err(e);
        },
    };
    match decode_backtest_page::<T>(&data) {
        Some(x) => Ok(x),
        None => Err(Error::Serde(String::from_str("malformed backtest result page"))),
    }
}

/// Reads a response body whose payload carries no information.
pub fn parse_ack_response(j: &JsonValue) -> (r: Result<(), Error>)
    ensures
        match r {
            Ok(_) => {
                &&& envelope_json_ok(j@)
                &&& obj_lookup(j@, "Success"@) == Some(JsonData::Bool(true))
            },
            Err(Error::Failure(msg)) => {
                &&& envelope_json_ok(j@)
                &&& obj_lookup(j@, "Success"@) == Some(JsonData::Bool(false))
                &&& obj_lookup(j@, "Error"@) == Some(JsonData::Str(msg@))
            },
            Err(Error::Serde(_)) => !envelope_json_ok(j@),
            Err(_) => false,
        },
{
    match unwrap_envelope(j) {
        Ok(_) => Ok(()),
        Err(e) => Err(e),
    }
}

// ---------------------------------------------------------------------
// Query strings
// ---------------------------------------------------------------------

/// The query that lists the markets of one price source.
pub fn market_list_by_pricesource_uri(price_source: &str) -> (r: String)
    ensures
        r@ == "PriceAPI.php?channel=MARKETLIST&pricesource="@ + price_source@,
{
    let mut out = String::from_str("PriceAPI.php?channel=MARKETLIST&pricesource=");
    out.append(price_source);
    out
}

/// The query that creates a lab from a creation request.
pub fn create_lab_uri(req: &CreateLabRequest) -> (r: String)
    ensures
        r@ == "LabsAPI.php?channel=CREATE_LAB&scriptId="@ + req.script_id@ + "&name="@ + req.name@
            + "&accountId="@ + req.account_id@ + "&market="@ + req.market@ + "&interval="@
            + dec_rep(req.interval as int) + "&style="@ + dec_rep(
            spec_plot_style_value(req.style) as int,
        ),
{
    let mut out = String::from_str("LabsAPI.php?channel=CREATE_LAB&scriptId=");
    out.append(req.script_id);
    out.append("&name=");
    out.append(req.name);
    out.append("&accountId=");
    out.append(req.account_id);
    out.append("&market=");
    out.append(req.market);
    out.append("&interval=");
    push_u64_dec(&mut out, req.interval as u64);
    out.append("&style=");
    push_u64_dec(&mut out, req.style.value() as u64);
    out
}

/// The query that starts a lab execution over a time window.
pub fn start_lab_execution_uri(req: &StartLabExecutionRequest) -> (r: String)
    ensures
        r@ == "LabsAPI.php?channel=START_LAB_EXECUTION&labid="@ + req.lab_id@ + "&startunix="@
            + dec_rep(req.start_unix as int) + "&endunix="@ + dec_rep(req.end_unix as int)
            + "&sendemail="@ + bool_rep(req.send_email),
{
    let mut out = String::from_str("LabsAPI.php?channel=START_LAB_EXECUTION&labid=");
    out.append(req.lab_id);
    out.append("&startunix=");
    push_u64_dec(&mut out, req.start_unix);
    out.append("&endunix=");
    push_u64_dec(&mut out, req.end_unix);
    out.append("&sendemail=");
    push_bool(&mut out, req.send_email);
    out
}

/// The query that fetches a lab's details.
pub fn lab_details_uri(lab_id: &str) -> (r: String)
    ensures
        r@ == "LabsAPI.php?channel=GET_LAB_DETAILS&labid="@ + lab_id@,
{
    let mut out = String::from_str("LabsAPI.php?channel=GET_LAB_DETAILS&labid=");
    out.append(lab_id);
    out
}

/// The query that rewrites a lab's details: the configuration, the
/// settings and the parameters ride along as percent-encoded JSON.
pub fn update_lab_details_uri(details: &UserLabDetails) -> (r: String)
    ensures
        r@ == "LabsAPI.php?channel=UPDATE_LAB_DETAILS&labid="@ + details.lab_id@ + "&name="@
            + details.name@ + "&type="@ + dec_rep_signed(details.algorithm as int) + "&config="@
            + percent_encoded(json_text(spec_config_json(details.user_lab_config))) + "&settings="@
            + percent_encoded(json_text(spec_settings_json(details.haas_script_settings)))
            + "&parameters="@ + percent_encoded(
            json_text(JsonData::Arr(spec_parameters_json(details.parameters@))),
        ),
{
    let mut out = String::from_str("LabsAPI.php?channel=UPDATE_LAB_DETAILS&labid=");
    out.append(details.lab_id.as_str());
    out.append("&name=");
    out.append(details.name.as_str());
    out.append("&type=");
    push_i64_dec(&mut out, details.algorithm);
    out.append("&config=");
    let config_text = json_to_string(&encode_config(&details.user_lab_config));
    let encoded_config = percent_encode(config_text.as_str());
    out.append(encoded_config.as_str());
    out.append("&settings=");
    let settings_text = json_to_string(&encode_settings(&details.haas_script_settings));
    let encoded_settings = percent_encode(settings_text.as_str());
    out.append(encoded_settings.as_str());
    out.append("&parameters=");
    let parameters_value = JsonValue::Arr(encode_parameters(&details.parameters));
    proof {
        lemma_arr_view(parameters_value);
    }
    let parameters_text = json_to_string(&parameters_value);
    let encoded_parameters = percent_encode(parameters_text.as_str());
    out.append(encoded_parameters.as_str());
    out
}

/// The query that fetches one page of a lab's backtest results.
pub fn backtest_result_uri(lab_id: &str, next_page_id: u64, page_length: u32) -> (r: String)
    ensures
        r@ == "LabsAPI.php?channel=GET_BACKTEST_RESULT_PAGE&labid="@ + lab_id@ + "&nextpageid="@
            + dec_rep(next_page_id as int) + "&pagelength="@ + dec_rep(page_length as int),
{
    let mut out = String::from_str("LabsAPI.php?channel=GET_BACKTEST_RESULT_PAGE&labid=");
    out.append(lab_id);
    out.append("&nextpageid=");
    push_u64_dec(&mut out, next_page_id);
    out.append("&pagelength=");
    push_u64_dec(&mut out, page_length as u64);
    out
}

/// The query that replaces a script's source code: the code rides
/// along as a percent-encoded JSON string, the settings as a
/// percent-encoded JSON object.
pub fn edit_script_uri(
    script_id: &str,
    sourcecode: &str,
    settings: &EditHaasScriptSourceCodeSettings,
) -> (r: String)
    ensures
        r@ == "HaasScriptAPI.php?channel=EDIT_SCRIPT_SOURCECODE&scriptid="@ + script_id@
            + "&sourcecode="@ + percent_encoded(string_text(sourcecode@)) + "&settings="@
            + percent_encoded(json_text(spec_edit_settings_json(*settings))),
{
    let mut out = String::from_str("HaasScriptAPI.php?channel=EDIT_SCRIPT_SOURCECODE&scriptid=");
    out.append(script_id);
    out.append("&sourcecode=");
    let code_literal = json_string_literal(sourcecode);
    let encoded_code = percent_encode(code_literal.as_str());
    out.append(encoded_code.as_str());
    out.append("&settings=");
    let settings_text = json_to_string(&encode_edit_settings(settings));
    let encoded_settings = percent_encode(settings_text.as_str());
    out.append(encoded_settings.as_str());
    out
}

// ---------------------------------------------------------------------
// Operations
// ---------------------------------------------------------------------

/// Lists every market the service offers; open to guests.
pub fn get_all_markets<S, E: Executor<S>>(executor: &E) -> Result<Vec<CloudMarket>, Error> {
    let body = match executor.execute("PriceAPI.php?channel=MARKETLIST") {
        Ok(b) => b,
        Err(e) => {
            return Err(e);
        },
    };
    let j = match parse_body(body.as_str()) {
        Ok(j) => j,
        Err(e) => {
            return Err(e);
        },
    };
    parse_markets_response(&j)
}

/// Lists the markets of one price source; open to guests.
pub fn get_all_markets_by_pricesource<S, E: Executor<S>>(executor: &E, price_source: &str)
    -> Result<Vec<CloudMarket>, Error> {
    let uri = market_list_by_pricesource_uri(price_source);
    let body = match executor.execute(uri.as_str()) {
        Ok(b) => b,
        Err(e) => {
            return Err(e);
        },
    };
    let j = match parse_body(body.as_str()) {
        Ok(j) => j,
        Err(e) => {
            return Err(e);
        },
    };
    parse_markets_response(&j)
}

/// Lists the logged-in user's scripts with their dependencies.
pub fn get_all_script_items<E: Executor<Authenticated>>(executor: &E) -> Result<
    Vec<HaasScriptItemWithDependencies>,
    Error,
> {
    let body = match executor.execute("HaasScriptAPI.php?channel=GET_ALL_SCRIPT_ITEMS") {
        Ok(b) => b,
        Err(e) => {
            return Err(e);
        },
    };
    let j = match parse_body(body.as_str()) {
        Ok(j) => j,
        Err(e) => {
            return Err(e);
        },
    };
    parse_script_items_response(&j)
}

/// Lists the logged-in user's trading accounts.
pub fn get_accounts<E: Executor<Authenticated>>(executor: &E) -> Result<Vec<UserAccount>, Error> {
    let body = match executor.execute("AccountAPI.php?channel=GET_ACCOUNTS") {
        Ok(b) => b,
        Err(e) => {
            return Err(e);
        },
    };
    let j = match parse_body(body.as_str()) {
        Ok(j) => j,
        Err(e) => {
            return Err(e);
        },
    };
    parse_accounts_response(&j)
}

/// Creates a new lab and returns its details.
pub fn create_lab<E: Executor<Authenticated>>(executor: &E, req: CreateLabRequest) -> Result<
    UserLabDetails,
    Error,
> {
    let uri = create_lab_uri(&req);
    let body = match executor.execute(uri.as_str()) {
        Ok(b) => b,
        Err(e) => {
            return Err(e);
        },
    };
    let j = match parse_body(body.as_str()) {
        Ok(j) => j,
        Err(e) => {
            return Err(e);
        },
    };
    parse_lab_details_response(&j)
}

/// Starts a lab execution over a time window and returns the lab's
/// details.
pub fn start_lab_execution<E: Executor<Authenticated>>(
    executor: &E,
    req: StartLabExecutionRequest,
) -> Result<UserLabDetails, Error> {
    let uri = start_lab_execution_uri(&req);
    let body = match executor.execute(uri.as_str()) {
        Ok(b) => b,
        Err(e) => {
            return Err(e);
        },
    };
    let j = match parse_body(body.as_str()) {
        Ok(j) => j,
        Err(e) => {
            return Err(e);
        },
    };
    parse_lab_details_response(&j)
}

/// Fetches the details of one lab.
pub fn get_lab_details<E: Executor<Authenticated>>(executor: &E, lab_id: &str) -> Result<
    UserLabDetails,
    Error,
> {
    let uri = lab_details_uri(lab_id);
    let body = match executor.execute(uri.as_str()) {
        Ok(b) => b,
        Err(e) => {
            return Err(e);
        },
    };
    let j = match parse_body(body.as_str()) {
        Ok(j) => j,
        Err(e) => {
            return Err(e);
        },
    };
    parse_lab_details_response(&j)
}

/// Rewrites a lab's details and returns what the service stored.
pub fn update_lab_details<E: Executor<Authenticated>>(
    executor: &E,
    details: &UserLabDetails,
) -> Result<UserLabDetails, Error> {
    let uri = update_lab_details_uri(details);
    let body = match executor.execute(uri.as_str()) {
        Ok(b) => b,
        Err(e) => {
            return Err(e);
        },
    };
    let j = match parse_body(body.as_str()) {
        Ok(j) => j,
        Err(e) => {
            return Err(e);
        },
    };
    parse_lab_details_response(&j)
}

/// Rewrites several labs' details in turn, stopping at the first
/// failure.
pub fn update_multiple_lab_details<E: Executor<Authenticated>>(
    executor: &E,
    details: &Vec<UserLabDetails>,
) -> (r: Result<Vec<UserLabDetails>, Error>)
    ensures
        r matches Ok(updated) ==> updated@.len() == details@.len(),
{
    let mut updated: Vec<UserLabDetails> = Vec::new();
    let mut i: usize = 0;
    while i < details.len()
        invariant
            i <= details@.len(),
            updated@.len() == i,
        decreases details@.len() - i,
    {
        match update_lab_details(executor, &details[i]) {
            Ok(d) => updated.push(d),
            Err(e) => {
                return Err(e);
            },
        }
        i += 1;
    }
    Ok(updated)
}

/// Fetches one page of a lab's backtest results.
pub fn get_backtest_result<T: CustomReport, E: Executor<Authenticated>>(
    executor: &E,
    lab_id: &str,
    next_page_id: u64,
    page_length: u32,
) -> Result<PaginatedResponse<UserLabBacktestResult<T>>, Error> {
    let uri = backtest_result_uri(lab_id, next_page_id, page_length);
    let body = match executor.execute(uri.as_str()) {
        Ok(b) => b,
        Err(e) => {
            return Err(e);
        },
    };
    let j = match parse_body(body.as_str()) {
        Ok(j) => j,
        Err(e) => {
            return Err(e);
        },
    };
    parse_backtest_page_response::<T>(&j)
}

/// Replaces a script's source code.
pub fn edit_haas_script_source_code<E: Executor<Authenticated>>(
    executor: &E,
    script_id: &str,
    sourcecode: &str,
    settings: &EditHaasScriptSourceCodeSettings,
) -> Result<(), Error> {
    let uri = edit_script_uri(script_id, sourcecode, settings);
    let body = match executor.execute(uri.as_str()) {
        Ok(b) => b,
        Err(e) => {
            return Err(e);
        },
    };
    let j = match parse_body(body.as_str()) {
        Ok(j) => j,
        Err(e) => {
            return Err(e);
        },
    };
    parse_ack_response(&j)
}

} // verus!
