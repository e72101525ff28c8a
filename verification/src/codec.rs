//! Codecs between the records of [`crate::model`] and the JSON wire
//! shapes of [`crate::json`].
//!
//! Each record has a spec function giving the document its encoder
//! produces, a `..._matches` predicate saying when a record is a correct
//! reading of a document (object members may come in any order, and
//! unknown members are ignored, so many documents read to the same
//! record), and a `..._json_ok` predicate saying exactly when decoding
//! succeeds.  Decoders are proved complete and sound against these, and
//! the round-trip laws in this module show that decoding an encoded
//! record gives every field back unchanged.

use vstd::prelude::*;
use vstd::string::*;
use crate::json::JsonData;
use crate::json::JsonMember;
use crate::json::JsonMemberData;
use crate::json::JsonValue;
use crate::json::elements_view;
use crate::json::get_bool;
use crate::json::get_float_text;
use crate::json::get_i64;
use crate::json::get_string;
use crate::json::get_value;
use crate::json::json_view;
use crate::json::lemma_arr_view;
use crate::json::lemma_obj_view;
use crate::json::members_view;
use crate::json::obj_get;
use crate::json::obj_lookup;
use crate::error::Error;
use crate::model::ApiResponse;
use crate::model::AppLogin;
use crate::model::CloudMarket;
use crate::model::CustomReport;
use crate::model::EditHaasScriptSourceCodeSettings;
use crate::model::CustomReportWrapper;
use crate::model::HaasScriptItemWithDependencies;
use crate::model::PaginatedResponse;
use crate::model::UserAccount;
use crate::model::UserDetails;
use crate::model::UserLabBacktestResult;
use crate::model::UserLabsBacktestSummary;
use crate::model::FloatText;
use crate::model::HaasScriptSettings;
use crate::model::ScriptParameters;
use crate::model::UserLabConfig;
use crate::model::UserLabDetails;
use crate::model::UserLabParameter;
use crate::model::UserLabParameterOption;
use crate::model::UserLabStatus;
use crate::model::spec_status_code;
use crate::model::spec_status_of_code;

verus! {

broadcast use vstd::string::group_string_axioms;

/// A fresh object member under the given key.
fn member(key: &str, value: JsonValue) -> (r: JsonMember)
    ensures
        r@ == (JsonMemberData { key: key@, value: value@ }),
{
    JsonMember { key: String::from_str(key), value }
}

// ---------------------------------------------------------------------
// Parameter options
// ---------------------------------------------------------------------

/// The wire form of one parameter option.
pub open spec fn spec_option_json(o: UserLabParameterOption) -> JsonData {
    match o {
        UserLabParameterOption::String(s) => JsonData::Str(s@),
        UserLabParameterOption::Digit(n) => JsonData::Int(n),
        UserLabParameterOption::Float(bits) => JsonData::Float(bits.0@),
        UserLabParameterOption::Bool(b) => JsonData::Bool(b),
    }
}

/// Whether a document is a readable parameter option: any scalar
/// literal qualifies, arrays, objects and null do not.
pub open spec fn option_json_ok(j: JsonData) -> bool {
    j is Int || j is Float || j is Bool || j is Str
}

/// The wire form of a run of options.
pub open spec fn spec_options_json(os: Seq<UserLabParameterOption>) -> Seq<JsonData> {
    Seq::new(os.len(), |i: int| spec_option_json(os[i]))
}

/// Whether `os` is the reading of the option documents `js`.
pub open spec fn options_match(os: Seq<UserLabParameterOption>, js: Seq<JsonData>) -> bool {
    os.len() == js.len() && forall|i: int|
        0 <= i < os.len() ==> spec_option_json(#[trigger] os[i]) == js[i]
}

/// Whether every document of `js` is a readable option.
pub open spec fn options_json_ok(js: Seq<JsonData>) -> bool {
    forall|i: int| 0 <= i < js.len() ==> option_json_ok(#[trigger] js[i])
}

/// Reads one parameter option from an untyped wire literal.
///
/// The trials run in a fixed order — integer, then fractional number,
/// then boolean, then string — though the shapes are disjoint, so at
/// most one can fit.
pub fn decode_option(j: &JsonValue) -> (r: Option<UserLabParameterOption>)
    ensures
        match r {
            Some(o) => spec_option_json(o) == j@,
            None => !option_json_ok(j@),
        },
{
    match j {
        JsonValue::Int(n) => Some(UserLabParameterOption::Digit(*n)),
        JsonValue::Float(t) => Some(UserLabParameterOption::Float(FloatText(t.clone()))),
        JsonValue::Bool(b) => Some(UserLabParameterOption::Bool(*b)),
        JsonValue::Str(s) => Some(UserLabParameterOption::String(s.clone())),
        _ => None,
    }
}

/// Writes one parameter option as its wire literal.
pub fn encode_option(o: &UserLabParameterOption) -> (r: JsonValue)
    ensures
        r@ == spec_option_json(*o),
{
    match o {
        UserLabParameterOption::String(s) => JsonValue::Str(s.clone()),
        UserLabParameterOption::Digit(n) => JsonValue::Int(*n),
        UserLabParameterOption::Float(t) => JsonValue::Float(t.0.clone()),
        UserLabParameterOption::Bool(b) => JsonValue::Bool(*b),
    }
}

/// Reads a whole option list; fails if any element is unreadable.
pub fn decode_options(items: &Vec<JsonValue>) -> (r: Option<Vec<UserLabParameterOption>>)
    ensures
        match r {
            Some(os) => options_match(os@, elements_view(items@)),
            None => !options_json_ok(elements_view(items@)),
        },
{
    let mut out: Vec<UserLabParameterOption> = Vec::new();
    let mut i: usize = 0;
    while i < items.len()
        invariant
            i <= items@.len(),
            out@.len() == i,
            forall|k: int|
                0 <= k < i ==> spec_option_json(#[trigger] out@[k]) == elements_view(items@)[k],
        decreases items@.len() - i,
    {
        match decode_option(&items[i]) {
            Some(o) => out.push(o),
            None => {
                proof {
                    assert(!option_json_ok(elements_view(items@)[i as int]));
                }
                return None;
            },
        }
        i += 1;
    }
    Some(out)
}

/// Writes a whole option list.
pub fn encode_options(os: &Vec<UserLabParameterOption>) -> (r: Vec<JsonValue>)
    ensures
        elements_view(r@) == spec_options_json(os@),
{
    let mut out: Vec<JsonValue> = Vec::new();
    let mut i: usize = 0;
    while i < os.len()
        invariant
            i <= os@.len(),
            out@.len() == i,
            forall|k: int| 0 <= k < i ==> json_view(#[trigger] out@[k]) == spec_option_json(os@[k]),
        decreases os@.len() - i,
    {
        out.push(encode_option(&os[i]));
        i += 1;
    }
    proof {
        assert(elements_view(out@) =~= spec_options_json(os@));
    }
    out
}

// ---------------------------------------------------------------------
// Lab parameters
// ---------------------------------------------------------------------

/// The wire form of one lab parameter.
pub open spec fn spec_parameter_json(p: UserLabParameter) -> JsonData {
    JsonData::Obj(
        seq![
            JsonMemberData { key: "K"@, value: JsonData::Str(p.key@) },
            JsonMemberData { key: "T"@, value: JsonData::Int(p.input_field_type) },
            JsonMemberData { key: "O"@, value: JsonData::Arr(spec_options_json(p.options@)) },
            JsonMemberData { key: "I"@, value: JsonData::Bool(p.is_enabled) },
            JsonMemberData { key: "IS"@, value: JsonData::Bool(p.is_specific) },
        ],
    )
}

/// Whether `p` is a reading of the parameter document `j`.
pub open spec fn parameter_matches(p: UserLabParameter, j: JsonData) -> bool {
    &&& obj_lookup(j, "K"@) == Some(JsonData::Str(p.key@))
    &&& obj_lookup(j, "T"@) == Some(JsonData::Int(p.input_field_type))
    &&& obj_lookup(j, "O"@) matches Some(JsonData::Arr(js)) && options_match(p.options@, js)
    &&& obj_lookup(j, "I"@) == Some(JsonData::Bool(p.is_enabled))
    &&& obj_lookup(j, "IS"@) == Some(JsonData::Bool(p.is_specific))
}

/// Exactly when a parameter document decodes.
pub open spec fn parameter_json_ok(j: JsonData) -> bool {
    &&& obj_lookup(j, "K"@) matches Some(JsonData::Str(_))
    &&& obj_lookup(j, "T"@) matches Some(JsonData::Int(_))
    &&& obj_lookup(j, "O"@) matches Some(JsonData::Arr(js)) && options_json_ok(js)
    &&& obj_lookup(j, "I"@) matches Some(JsonData::Bool(_))
    &&& obj_lookup(j, "IS"@) matches Some(JsonData::Bool(_))
}

/// Reads one lab parameter.
pub fn decode_parameter(j: &JsonValue) -> (r: Option<UserLabParameter>)
    ensures
        match r {
            Some(p) => parameter_matches(p, j@),
            None => !parameter_json_ok(j@),
        },
{
    match j {
        JsonValue::Obj(members) => {
            proof {
                lemma_obj_view(*j);
            }
            let key = match get_string(members, "K") {
                Some(s) => s,
                None => {
                    return None;
                },
            };
            let input_field_type = match get_i64(members, "T") {
                Some(n) => n,
                None => {
                    return None;
                },
            };
            let options_value = match obj_get(members, "O") {
                Some(v) => v,
                None => {
                    return None;
                },
            };
            let options = match options_value {
                JsonValue::Arr(items) => {
                    proof {
                        lemma_arr_view(*options_value);
                    }
                    match decode_options(items) {
                        Some(os) => os,
                        None => {
                            return None;
                        },
                    }
                },
                _ => {
                    return None;
                },
            };
            let is_enabled = match get_bool(members, "I") {
                Some(b) => b,
                None => {
                    return None;
                },
            };
            let is_specific = match get_bool(members, "IS") {
                Some(b) => b,
                None => {
                    return None;
                },
            };
            Some(
                UserLabParameter { key, input_field_type, options, is_enabled, is_specific },
            )
        },
        _ => None,
    }
}

/// Writes one lab parameter.
pub fn encode_parameter(p: &UserLabParameter) -> (r: JsonValue)
    ensures
        r@ == spec_parameter_json(*p),
{
    let mut ms: Vec<JsonMember> = Vec::new();
    ms.push(member("K", JsonValue::Str(p.key.clone())));
    ms.push(member("T", JsonValue::Int(p.input_field_type)));
    let options = JsonValue::Arr(encode_options(&p.options));
    proof {
        lemma_arr_view(options);
    }
    ms.push(member("O", options));
    ms.push(member("I", JsonValue::Bool(p.is_enabled)));
    ms.push(member("IS", JsonValue::Bool(p.is_specific)));
    let result = JsonValue::Obj(ms);
    proof {
        lemma_obj_view(result);
        assert(members_view(ms@) =~= spec_parameter_json(*p)->Obj_0);
    }
    result
}

/// The wire form of a run of parameters.
pub open spec fn spec_parameters_json(ps: Seq<UserLabParameter>) -> Seq<JsonData> {
    Seq::new(ps.len(), |i: int| spec_parameter_json(ps[i]))
}

/// Whether `ps` is a reading of the parameter documents `js`.
pub open spec fn parameters_match(ps: Seq<UserLabParameter>, js: Seq<JsonData>) -> bool {
    ps.len() == js.len() && forall|i: int|
        0 <= i < ps.len() ==> parameter_matches(#[trigger] ps[i], js[i])
}

/// Whether every document of `js` is a readable parameter.
pub open spec fn parameters_json_ok(js: Seq<JsonData>) -> bool {
    forall|i: int| 0 <= i < js.len() ==> parameter_json_ok(#[trigger] js[i])
}

/// Reads a whole parameter list; fails if any element is unreadable.
pub fn decode_parameters(items: &Vec<JsonValue>) -> (r: Option<Vec<UserLabParameter>>)
    ensures
        match r {
            Some(ps) => parameters_match(ps@, elements_view(items@)),
            None => !parameters_json_ok(elements_view(items@)),
        },
{
    let mut out: Vec<UserLabParameter> = Vec::new();
    let mut i: usize = 0;
    while i < items.len()
        invariant
            i <= items@.len(),
            out@.len() == i,
            forall|k: int|
                0 <= k < i ==> parameter_matches(#[trigger] out@[k], elements_view(items@)[k]),
        decreases items@.len() - i,
    {
        match decode_parameter(&items[i]) {
            Some(p) => out.push(p),
            None => {
                proof {
                    assert(!parameter_json_ok(elements_view(items@)[i as int]));
                }
                return None;
            },
        }
        i += 1;
    }
    Some(out)
}

/// Writes a whole parameter list.
pub fn encode_parameters(ps: &Vec<UserLabParameter>) -> (r: Vec<JsonValue>)
    ensures
        elements_view(r@) == spec_parameters_json(ps@),
{
    let mut out: Vec<JsonValue> = Vec::new();
    let mut i: usize = 0;
    while i < ps.len()
        invariant
            i <= ps@.len(),
            out@.len() == i,
            forall|k: int|
                0 <= k < i ==> json_view(#[trigger] out@[k]) == spec_parameter_json(ps@[k]),
        decreases ps@.len() - i,
    {
        out.push(encode_parameter(&ps[i]));
        i += 1;
    }
    proof {
        assert(elements_view(out@) =~= spec_parameters_json(ps@));
    }
    out
}

// ---------------------------------------------------------------------
// Lab configuration
// ---------------------------------------------------------------------

/// The wire form of a lab configuration.
pub open spec fn spec_config_json(c: UserLabConfig) -> JsonData {
    JsonData::Obj(
        seq![
            JsonMemberData { key: "MP"@, value: JsonData::Int(c.max_population) },
            JsonMemberData { key: "MG"@, value: JsonData::Int(c.max_generations) },
            JsonMemberData { key: "ME"@, value: JsonData::Int(c.max_elites) },
            JsonMemberData { key: "MR"@, value: JsonData::Float(c.mix_rate.0@) },
            JsonMemberData { key: "AR"@, value: JsonData::Float(c.adjust_rate.0@) },
        ],
    )
}

/// Whether `c` is a reading of the configuration document `j`.
pub open spec fn config_matches(c: UserLabConfig, j: JsonData) -> bool {
    &&& obj_lookup(j, "MP"@) == Some(JsonData::Int(c.max_population))
    &&& obj_lookup(j, "MG"@) == Some(JsonData::Int(c.max_generations))
    &&& obj_lookup(j, "ME"@) == Some(JsonData::Int(c.max_elites))
    &&& obj_lookup(j, "MR"@) == Some(JsonData::Float(c.mix_rate.0@))
    &&& obj_lookup(j, "AR"@) == Some(JsonData::Float(c.adjust_rate.0@))
}

/// Exactly when a configuration document decodes.
pub open spec fn config_json_ok(j: JsonData) -> bool {
    &&& obj_lookup(j, "MP"@) matches Some(JsonData::Int(_))
    &&& obj_lookup(j, "MG"@) matches Some(JsonData::Int(_))
    &&& obj_lookup(j, "ME"@) matches Some(JsonData::Int(_))
    &&& obj_lookup(j, "MR"@) matches Some(JsonData::Float(_))
    &&& obj_lookup(j, "AR"@) matches Some(JsonData::Float(_))
}

/// Reads a lab configuration.
pub fn decode_config(j: &JsonValue) -> (r: Option<UserLabConfig>)
    ensures
        match r {
            Some(c) => config_matches(c, j@),
            None => !config_json_ok(j@),
        },
{
    match j {
        JsonValue::Obj(members) => {
            proof {
                lemma_obj_view(*j);
            }
            let max_population = match get_i64(members, "MP") {
                Some(n) => n,
                None => {
                    return None;
                },
            };
            let max_generations = match get_i64(members, "MG") {
                Some(n) => n,
                None => {
                    return None;
                },
            };
            let max_elites = match get_i64(members, "ME") {
                Some(n) => n,
                None => {
                    return None;
                },
            };
            let mix_rate = match get_float_text(members, "MR") {
                Some(s) => FloatText(s),
                None => {
                    return None;
                },
            };
            let adjust_rate = match get_float_text(members, "AR") {
                Some(s) => FloatText(s),
                None => {
                    return None;
                },
            };
            Some(UserLabConfig { max_population, max_generations, max_elites, mix_rate, adjust_rate })
        },
        _ => None,
    }
}

/// Writes a lab configuration.
pub fn encode_config(c: &UserLabConfig) -> (r: JsonValue)
    ensures
        r@ == spec_config_json(*c),
{
    let mut ms: Vec<JsonMember> = Vec::new();
    ms.push(member("MP", JsonValue::Int(c.max_population)));
    ms.push(member("MG", JsonValue::Int(c.max_generations)));
    ms.push(member("ME", JsonValue::Int(c.max_elites)));
    ms.push(member("MR", JsonValue::Float(c.mix_rate.0.clone())));
    ms.push(member("AR", JsonValue::Float(c.adjust_rate.0.clone())));
    let result = JsonValue::Obj(ms);
    proof {
        lemma_obj_view(result);
        assert(members_view(ms@) =~= spec_config_json(*c)->Obj_0);
    }
    result
}

// ---------------------------------------------------------------------
// Script settings
// ---------------------------------------------------------------------

/// The wire form of the (empty) script parameter object.
pub open spec fn spec_script_parameters_json(p: ScriptParameters) -> JsonData {
    JsonData::Obj(Seq::empty())
}

/// The wire form of a settings record, with its camel-case keys.
pub open spec fn spec_settings_json(s: HaasScriptSettings) -> JsonData {
    JsonData::Obj(
        seq![
            JsonMemberData { key: "botId"@, value: JsonData::Str(s.bot_id@) },
            JsonMemberData { key: "botName"@, value: JsonData::Str(s.bot_name@) },
            JsonMemberData { key: "accountId"@, value: JsonData::Str(s.account_id@) },
            JsonMemberData { key: "marketTag"@, value: JsonData::Str(s.market_tag@) },
            JsonMemberData { key: "positionMode"@, value: JsonData::Int(s.position_mode) },
            JsonMemberData { key: "marginMode"@, value: JsonData::Int(s.margin_mode) },
            JsonMemberData { key: "leverage"@, value: JsonData::Float(s.leverage.0@) },
            JsonMemberData { key: "tradeAmount"@, value: JsonData::Float(s.trade_amount.0@) },
            JsonMemberData { key: "interval"@, value: JsonData::Int(s.interval) },
            JsonMemberData { key: "chartStyle"@, value: JsonData::Int(s.chart_style) },
            JsonMemberData { key: "orderTemplate"@, value: JsonData::Int(s.order_template) },
            JsonMemberData {
                key: "scriptParameters"@,
                value: spec_script_parameters_json(s.script_parameters),
            },
        ],
    )
}

/// Whether `s` is a reading of the settings document `j`.
pub open spec fn settings_matches(s: HaasScriptSettings, j: JsonData) -> bool {
    &&& obj_lookup(j, "botId"@) == Some(JsonData::Str(s.bot_id@))
    &&& obj_lookup(j, "botName"@) == Some(JsonData::Str(s.bot_name@))
    &&& obj_lookup(j, "accountId"@) == Some(JsonData::Str(s.account_id@))
    &&& obj_lookup(j, "marketTag"@) == Some(JsonData::Str(s.market_tag@))
    &&& obj_lookup(j, "positionMode"@) == Some(JsonData::Int(s.position_mode))
    &&& obj_lookup(j, "marginMode"@) == Some(JsonData::Int(s.margin_mode))
    &&& obj_lookup(j, "leverage"@) == Some(JsonData::Float(s.leverage.0@))
    &&& obj_lookup(j, "tradeAmount"@) == Some(JsonData::Float(s.trade_amount.0@))
    &&& obj_lookup(j, "interval"@) == Some(JsonData::Int(s.interval))
    &&& obj_lookup(j, "chartStyle"@) == Some(JsonData::Int(s.chart_style))
    &&& obj_lookup(j, "orderTemplate"@) == Some(JsonData::Int(s.order_template))
    &&& obj_lookup(j, "scriptParameters"@) matches Some(JsonData::Obj(_))
}

/// Exactly when a settings document decodes.
pub open spec fn settings_json_ok(j: JsonData) -> bool {
    &&& obj_lookup(j, "botId"@) matches Some(JsonData::Str(_))
    &&& obj_lookup(j, "botName"@) matches Some(JsonData::Str(_))
    &&& obj_lookup(j, "accountId"@) matches Some(JsonData::Str(_))
    &&& obj_lookup(j, "marketTag"@) matches Some(JsonData::Str(_))
    &&& obj_lookup(j, "positionMode"@) matches Some(JsonData::Int(_))
    &&& obj_lookup(j, "marginMode"@) matches Some(JsonData::Int(_))
    &&& obj_lookup(j, "leverage"@) matches Some(JsonData::Float(_))
    &&& obj_lookup(j, "tradeAmount"@) matches Some(JsonData::Float(_))
    &&& obj_lookup(j, "interval"@) matches Some(JsonData::Int(_))
    &&& obj_lookup(j, "chartStyle"@) matches Some(JsonData::Int(_))
    &&& obj_lookup(j, "orderTemplate"@) matches Some(JsonData::Int(_))
    &&& obj_lookup(j, "scriptParameters"@) matches Some(JsonData::Obj(_))
}

/// Reads a settings record.
pub fn decode_settings(j: &JsonValue) -> (r: Option<HaasScriptSettings>)
    ensures
        match r {
            Some(s) => settings_matches(s, j@),
            None => !settings_json_ok(j@),
        },
{
    match j {
        JsonValue::Obj(members) => {
            proof {
                lemma_obj_view(*j);
            }
            let bot_id = match get_string(members, "botId") {
                Some(s) => s,
                None => {
                    return None;
                },
            };
            let bot_name = match get_string(members, "botName") {
                Some(s) => s,
                None => {
                    return None;
                },
            };
            let account_id = match get_string(members, "accountId") {
                Some(s) => s,
                None => {
                    return None;
                },
            };
            let market_tag = match get_string(members, "marketTag") {
                Some(s) => s,
                None => {
                    return None;
                },
            };
            let position_mode = match get_i64(members, "positionMode") {
                Some(n) => n,
                None => {
                    return None;
                },
            };
            let margin_mode = match get_i64(members, "marginMode") {
                Some(n) => n,
                None => {
                    return None;
                },
            };
            let leverage = match get_float_text(members, "leverage") {
                Some(s) => FloatText(s),
                None => {
                    return None;
                },
            };
            let trade_amount = match get_float_text(members, "tradeAmount") {
                Some(s) => FloatText(s),
                None => {
                    return None;
                },
            };
            let interval = match get_i64(members, "interval") {
                Some(n) => n,
                None => {
                    return None;
                },
            };
            let chart_style = match get_i64(members, "chartStyle") {
                Some(n) => n,
                None => {
                    return None;
                },
            };
            let order_template = match get_i64(members, "orderTemplate") {
                Some(n) => n,
                None => {
                    return None;
                },
            };
            let script_parameters_value = match obj_get(members, "scriptParameters") {
                Some(v) => v,
                None => {
                    return None;
                },
            };
            let script_parameters = match script_parameters_value {
                JsonValue::Obj(_) => ScriptParameters {  },
                _ => {
                    return None;
                },
            };
            Some(
                HaasScriptSettings {
                    bot_id,
                    bot_name,
                    account_id,
                    market_tag,
                    position_mode,
                    margin_mode,
                    leverage,
                    trade_amount,
                    interval,
                    chart_style,
                    order_template,
                    script_parameters,
                },
            )
        },
        _ => None,
    }
}

/// Writes a settings record.
pub fn encode_settings(s: &HaasScriptSettings) -> (r: JsonValue)
    ensures
        r@ == spec_settings_json(*s),
{
    let mut ms: Vec<JsonMember> = Vec::new();
    ms.push(member("botId", JsonValue::Str(s.bot_id.clone())));
    ms.push(member("botName", JsonValue::Str(s.bot_name.clone())));
    ms.push(member("accountId", JsonValue::Str(s.account_id.clone())));
    ms.push(member("marketTag", JsonValue::Str(s.market_tag.clone())));
    ms.push(member("positionMode", JsonValue::Int(s.position_mode)));
    ms.push(member("marginMode", JsonValue::Int(s.margin_mode)));
    ms.push(member("leverage", JsonValue::Float(s.leverage.0.clone())));
    ms.push(member("tradeAmount", JsonValue::Float(s.trade_amount.0.clone())));
    ms.push(member("interval", JsonValue::Int(s.interval)));
    ms.push(member("chartStyle", JsonValue::Int(s.chart_style)));
    ms.push(member("orderTemplate", JsonValue::Int(s.order_template)));
    let empty_parameters = JsonValue::Obj(Vec::new());
    proof {
        lemma_obj_view(empty_parameters);
        assert(members_view(empty_parameters->Obj_0@) =~= Seq::<JsonMemberData>::empty());
    }
    ms.push(member("scriptParameters", empty_parameters));
    let result = JsonValue::Obj(ms);
    proof {
        lemma_obj_view(result);
        assert(members_view(ms@) =~= spec_settings_json(*s)->Obj_0);
    }
    result
}

// ---------------------------------------------------------------------
// Lab details
// ---------------------------------------------------------------------

/// The wire form of a full lab-details record.
pub open spec fn spec_details_json(d: UserLabDetails) -> JsonData {
    JsonData::Obj(
        seq![
            JsonMemberData { key: "C"@, value: spec_config_json(d.user_lab_config) },
            JsonMemberData { key: "ST"@, value: spec_settings_json(d.haas_script_settings) },
            JsonMemberData { key: "P"@, value: JsonData::Arr(spec_parameters_json(d.parameters@)) },
            JsonMemberData { key: "UID"@, value: JsonData::Str(d.user_id@) },
            JsonMemberData { key: "LID"@, value: JsonData::Str(d.lab_id@) },
            JsonMemberData { key: "SID"@, value: JsonData::Str(d.script_id@) },
            JsonMemberData { key: "N"@, value: JsonData::Str(d.name@) },
            JsonMemberData { key: "T"@, value: JsonData::Int(d.algorithm) },
            JsonMemberData { key: "S"@, value: JsonData::Int(spec_status_code(d.status)) },
            JsonMemberData { key: "SB"@, value: JsonData::Int(d.scheduled_backtests) },
            JsonMemberData { key: "CB"@, value: JsonData::Int(d.complete_backtests) },
            JsonMemberData { key: "CA"@, value: JsonData::Int(d.created_at) },
            JsonMemberData { key: "UA"@, value: JsonData::Int(d.updated_at) },
            JsonMemberData { key: "SA"@, value: JsonData::Int(d.started_at) },
            JsonMemberData { key: "RS"@, value: JsonData::Int(d.running_since) },
            JsonMemberData { key: "SU"@, value: JsonData::Int(d.start_unix) },
            JsonMemberData { key: "EU"@, value: JsonData::Int(d.end_unix) },
            JsonMemberData { key: "SE"@, value: JsonData::Bool(d.send_email) },
            JsonMemberData { key: "CM"@, value: d.cancel_reason@ },
        ],
    )
}

/// Whether `d` is a reading of the details document `j`.
pub open spec fn details_matches(d: UserLabDetails, j: JsonData) -> bool {
    &&& obj_lookup(j, "C"@) matches Some(cj) && config_matches(d.user_lab_config, cj)
    &&& obj_lookup(j, "ST"@) matches Some(sj) && settings_matches(d.haas_script_settings, sj)
    &&& obj_lookup(j, "P"@) matches Some(JsonData::Arr(pjs)) && parameters_match(
        d.parameters@,
        pjs,
    )
    &&& obj_lookup(j, "UID"@) == Some(JsonData::Str(d.user_id@))
    &&& obj_lookup(j, "LID"@) == Some(JsonData::Str(d.lab_id@))
    &&& obj_lookup(j, "SID"@) == Some(JsonData::Str(d.script_id@))
    &&& obj_lookup(j, "N"@) == Some(JsonData::Str(d.name@))
    &&& obj_lookup(j, "T"@) == Some(JsonData::Int(d.algorithm))
    &&& obj_lookup(j, "S"@) == Some(JsonData::Int(spec_status_code(d.status)))
    &&& obj_lookup(j, "SB"@) == Some(JsonData::Int(d.scheduled_backtests))
    &&& obj_lookup(j, "CB"@) == Some(JsonData::Int(d.complete_backtests))
    &&& obj_lookup(j, "CA"@) == Some(JsonData::Int(d.created_at))
    &&& obj_lookup(j, "UA"@) == Some(JsonData::Int(d.updated_at))
    &&& obj_lookup(j, "SA"@) == Some(JsonData::Int(d.started_at))
    &&& obj_lookup(j, "RS"@) == Some(JsonData::Int(d.running_since))
    &&& obj_lookup(j, "SU"@) == Some(JsonData::Int(d.start_unix))
    &&& obj_lookup(j, "EU"@) == Some(JsonData::Int(d.end_unix))
    &&& obj_lookup(j, "SE"@) == Some(JsonData::Bool(d.send_email))
    &&& obj_lookup(j, "CM"@) == Some(d.cancel_reason@)
}

/// Exactly when a details document decodes.
pub open spec fn details_json_ok(j: JsonData) -> bool {
    &&& obj_lookup(j, "C"@) matches Some(cj) && config_json_ok(cj)
    &&& obj_lookup(j, "ST"@) matches Some(sj) && settings_json_ok(sj)
    &&& obj_lookup(j, "P"@) matches Some(JsonData::Arr(pjs)) && parameters_json_ok(pjs)
    &&& obj_lookup(j, "UID"@) matches Some(JsonData::Str(_))
    &&& obj_lookup(j, "LID"@) matches Some(JsonData::Str(_))
    &&& obj_lookup(j, "SID"@) matches Some(JsonData::Str(_))
    &&& obj_lookup(j, "N"@) matches Some(JsonData::Str(_))
    &&& obj_lookup(j, "T"@) matches Some(JsonData::Int(_))
    &&& obj_lookup(j, "S"@) matches Some(JsonData::Int(code)) && spec_status_of_code(code) is Some
    &&& obj_lookup(j, "SB"@) matches Some(JsonData::Int(_))
    &&& obj_lookup(j, "CB"@) matches Some(JsonData::Int(_))
    &&& obj_lookup(j, "CA"@) matches Some(JsonData::Int(_))
    &&& obj_lookup(j, "UA"@) matches Some(JsonData::Int(_))
    &&& obj_lookup(j, "SA"@) matches Some(JsonData::Int(_))
    &&& obj_lookup(j, "RS"@) matches Some(JsonData::Int(_))
    &&& obj_lookup(j, "SU"@) matches Some(JsonData::Int(_))
    &&& obj_lookup(j, "EU"@) matches Some(JsonData::Int(_))
    &&& obj_lookup(j, "SE"@) matches Some(JsonData::Bool(_))
    &&& obj_lookup(j, "CM"@) is Some
}

/// Reads a full lab-details record.
pub fn decode_details(j: &JsonValue) -> (r: Option<UserLabDetails>)
    ensures
        match r {
            Some(d) => details_matches(d, j@),
            None => !details_json_ok(j@),
        },
{
    match j {
        JsonValue::Obj(members) => {
            proof {
                lemma_obj_view(*j);
            }
            let config_value = match obj_get(members, "C") {
                Some(v) => v,
                None => {
                    return None;
                },
            };
            let user_lab_config = match decode_config(config_value) {
                Some(c) => c,
                None => {
                    return None;
                },
            };
            let settings_value = match obj_get(members, "ST") {
                Some(v) => v,
                None => {
                    return None;
                },
            };
            let haas_script_settings = match decode_settings(settings_value) {
                Some(s) => s,
                None => {
                    return None;
                },
            };
            let parameters_value = match obj_get(members, "P") {
                Some(v) => v,
                None => {
                    return None;
                },
            };
            let parameters = match parameters_value {
                JsonValue::Arr(items) => {
                    proof {
                        lemma_arr_view(*parameters_value);
                    }
                    match decode_parameters(items) {
                        Some(ps) => ps,
                        None => {
                            return None;
                        },
                    }
                },
                _ => {
                    return None;
                },
            };
            let user_id = match get_string(members, "UID") {
                Some(s) => s,
                None => {
                    return None;
                },
            };
            let lab_id = match get_string(members, "LID") {
                Some(s) => s,
                None => {
                    return None;
                },
            };
            let script_id = match get_string(members, "SID") {
                Some(s) => s,
                None => {
                    return None;
                },
            };
            let name = match get_string(members, "N") {
                Some(s) => s,
                None => {
                    return None;
                },
            };
            let algorithm = match get_i64(members, "T") {
                Some(n) => n,
                None => {
                    return None;
                },
            };
            let status_code = match get_i64(members, "S") {
                Some(n) => n,
                None => {
                    return None;
                },
            };
            let status = match UserLabStatus::from_code(status_code) {
                Some(s) => s,
                None => {
                    return None;
                },
            };
            let scheduled_backtests = match get_i64(members, "SB") {
                Some(n) => n,
                None => {
                    return None;
                },
            };
            let complete_backtests = match get_i64(members, "CB") {
                Some(n) => n,
                None => {
                    return None;
                },
            };
            let created_at = match get_i64(members, "CA") {
                Some(n) => n,
                None => {
                    return None;
                },
            };
            let updated_at = match get_i64(members, "UA") {
                Some(n) => n,
                None => {
                    return None;
                },
            };
            let started_at = match get_i64(members, "SA") {
                Some(n) => n,
                None => {
                    return None;
                },
            };
            let running_since = match get_i64(members, "RS") {
                Some(n) => n,
                None => {
                    return None;
                },
            };
            let start_unix = match get_i64(members, "SU") {
                Some(n) => n,
                None => {
                    return None;
                },
            };
            let end_unix = match get_i64(members, "EU") {
                Some(n) => n,
                None => {
                    return None;
                },
            };
            let send_email = match get_bool(members, "SE") {
                Some(b) => b,
                None => {
                    return None;
                },
            };
            let cancel_reason = match get_value(members, "CM") {
                Some(v) => v,
                None => {
                    return None;
                },
            };
            Some(
                UserLabDetails {
                    user_lab_config,
                    haas_script_settings,
                    parameters,
                    user_id,
                    lab_id,
                    script_id,
                    name,
                    algorithm,
                    status,
                    scheduled_backtests,
                    complete_backtests,
                    created_at,
                    updated_at,
                    started_at,
                    running_since,
                    start_unix,
                    end_unix,
                    send_email,
                    cancel_reason,
                },
            )
        },
        _ => None,
    }
}

/// Writes a full lab-details record.
pub fn encode_details(d: &UserLabDetails) -> (r: JsonValue)
    ensures
        r@ == spec_details_json(*d),
{
    let mut ms: Vec<JsonMember> = Vec::new();
    ms.push(member("C", encode_config(&d.user_lab_config)));
    ms.push(member("ST", encode_settings(&d.haas_script_settings)));
    let parameters = JsonValue::Arr(encode_parameters(&d.parameters));
    proof {
        lemma_arr_view(parameters);
    }
    ms.push(member("P", parameters));
    ms.push(member("UID", JsonValue::Str(d.user_id.clone())));
    ms.push(member("LID", JsonValue::Str(d.lab_id.clone())));
    ms.push(member("SID", JsonValue::Str(d.script_id.clone())));
    ms.push(member("N", JsonValue::Str(d.name.clone())));
    ms.push(member("T", JsonValue::Int(d.algorithm)));
    ms.push(member("S", JsonValue::Int(d.status.code())));
    ms.push(member("SB", JsonValue::Int(d.scheduled_backtests)));
    ms.push(member("CB", JsonValue::Int(d.complete_backtests)));
    ms.push(member("CA", JsonValue::Int(d.created_at)));
    ms.push(member("UA", JsonValue::Int(d.updated_at)));
    ms.push(member("SA", JsonValue::Int(d.started_at)));
    ms.push(member("RS", JsonValue::Int(d.running_since)));
    ms.push(member("SU", JsonValue::Int(d.start_unix)));
    ms.push(member("EU", JsonValue::Int(d.end_unix)));
    ms.push(member("SE", JsonValue::Bool(d.send_email)));
    ms.push(member("CM", crate::json::clone_json(&d.cancel_reason)));
    let result = JsonValue::Obj(ms);
    proof {
        lemma_obj_view(result);
        assert(members_view(ms@) =~= spec_details_json(*d)->Obj_0);
    }
    result
}

// ---------------------------------------------------------------------
// Round-trip laws
// ---------------------------------------------------------------------

/// What each key of an encoded configuration looks up to.
proof fn lemma_config_canonical(c: UserLabConfig)
    ensures
        config_matches(c, spec_config_json(c)),
{
    let ms = spec_config_json(c)->Obj_0;
    assert(ms.len() == 5);
    reveal_strlit("MP");
    reveal_strlit("MG");
    reveal_strlit("ME");
    reveal_strlit("MR");
    reveal_strlit("AR");
    crate::strutil::lemma_str_neq("MP"@, "MG"@, 1);
    crate::strutil::lemma_str_neq("MP"@, "ME"@, 1);
    crate::strutil::lemma_str_neq("MP"@, "MR"@, 1);
    crate::strutil::lemma_str_neq("MP"@, "AR"@, 0);
    crate::strutil::lemma_str_neq("MG"@, "ME"@, 1);
    crate::strutil::lemma_str_neq("MG"@, "MR"@, 1);
    crate::strutil::lemma_str_neq("MG"@, "AR"@, 0);
    crate::strutil::lemma_str_neq("ME"@, "MR"@, 1);
    crate::strutil::lemma_str_neq("ME"@, "AR"@, 0);
    crate::strutil::lemma_str_neq("MR"@, "AR"@, 0);
    crate::json::lemma_lookup_first(ms, "MP"@, 0);
    crate::json::lemma_lookup_first(ms, "MG"@, 1);
    crate::json::lemma_lookup_first(ms, "ME"@, 2);
    crate::json::lemma_lookup_first(ms, "MR"@, 3);
    crate::json::lemma_lookup_first(ms, "AR"@, 4);
}

/// A document with a configuration reading decodes.
pub proof fn lemma_config_matches_ok(c: UserLabConfig, j: JsonData)
    requires
        config_matches(c, j),
    ensures
        config_json_ok(j),
{
}

/// An encoded configuration always decodes.
pub proof fn lemma_config_encode_ok(c: UserLabConfig)
    ensures
        config_json_ok(spec_config_json(c)),
{
    lemma_config_canonical(c);
    lemma_config_matches_ok(c, spec_config_json(c));
}

/// A configuration read back from an encoded configuration carries the
/// same fields: the two canonical documents are equal.
pub proof fn lemma_config_round_trip(c1: UserLabConfig, c2: UserLabConfig)
    requires
        config_matches(c2, spec_config_json(c1)),
    ensures
        spec_config_json(c2) == spec_config_json(c1),
{
    lemma_config_canonical(c1);
    assert(spec_config_json(c2) =~= spec_config_json(c1));
}

/// What each key of an encoded settings record looks up to.
proof fn lemma_settings_canonical(s: HaasScriptSettings)
    ensures
        settings_matches(s, spec_settings_json(s)),
{
    let ms = spec_settings_json(s)->Obj_0;
    assert(ms.len() == 12);
    reveal_strlit("botId");
    reveal_strlit("botName");
    reveal_strlit("accountId");
    reveal_strlit("marketTag");
    reveal_strlit("positionMode");
    reveal_strlit("marginMode");
    reveal_strlit("leverage");
    reveal_strlit("tradeAmount");
    reveal_strlit("interval");
    reveal_strlit("chartStyle");
    reveal_strlit("orderTemplate");
    reveal_strlit("scriptParameters");
    crate::strutil::lemma_str_neq("botId"@, "botName"@, 0);
    crate::strutil::lemma_str_neq("botId"@, "accountId"@, 0);
    crate::strutil::lemma_str_neq("botId"@, "marketTag"@, 0);
    crate::strutil::lemma_str_neq("botId"@, "positionMode"@, 0);
    crate::strutil::lemma_str_neq("botId"@, "marginMode"@, 0);
    crate::strutil::lemma_str_neq("botId"@, "leverage"@, 0);
    crate::strutil::lemma_str_neq("botId"@, "tradeAmount"@, 0);
    crate::strutil::lemma_str_neq("botId"@, "interval"@, 0);
    crate::strutil::lemma_str_neq("botId"@, "chartStyle"@, 0);
    crate::strutil::lemma_str_neq("botId"@, "orderTemplate"@, 0);
    crate::strutil::lemma_str_neq("botId"@, "scriptParameters"@, 0);
    crate::strutil::lemma_str_neq("botName"@, "accountId"@, 0);
    crate::strutil::lemma_str_neq("botName"@, "marketTag"@, 0);
    crate::strutil::lemma_str_neq("botName"@, "positionMode"@, 0);
    crate::strutil::lemma_str_neq("botName"@, "marginMode"@, 0);
    crate::strutil::lemma_str_neq("botName"@, "leverage"@, 0);
    crate::strutil::lemma_str_neq("botName"@, "tradeAmount"@, 0);
    crate::strutil::lemma_str_neq("botName"@, "interval"@, 0);
    crate::strutil::lemma_str_neq("botName"@, "chartStyle"@, 0);
    crate::strutil::lemma_str_neq("botName"@, "orderTemplate"@, 0);
    crate::strutil::lemma_str_neq("botName"@, "scriptParameters"@, 0);
    crate::strutil::lemma_str_neq("accountId"@, "marketTag"@, 0);
    crate::strutil::lemma_str_neq("accountId"@, "positionMode"@, 0);
    crate::strutil::lemma_str_neq("accountId"@, "marginMode"@, 0);
    crate::strutil::lemma_str_neq("accountId"@, "leverage"@, 0);
    crate::strutil::lemma_str_neq("accountId"@, "tradeAmount"@, 0);
    crate::strutil::lemma_str_neq("accountId"@, "interval"@, 0);
    crate::strutil::lemma_str_neq("accountId"@, "chartStyle"@, 0);
    crate::strutil::lemma_str_neq("accountId"@, "orderTemplate"@, 0);
    crate::strutil::lemma_str_neq("accountId"@, "scriptParameters"@, 0);
    crate::strutil::lemma_str_neq("marketTag"@, "positionMode"@, 0);
    crate::strutil::lemma_str_neq("marketTag"@, "marginMode"@, 0);
    crate::strutil::lemma_str_neq("marketTag"@, "leverage"@, 0);
    crate::strutil::lemma_str_neq("marketTag"@, "tradeAmount"@, 0);
    crate::strutil::lemma_str_neq("marketTag"@, "interval"@, 0);
    crate::strutil::lemma_str_neq("marketTag"@, "chartStyle"@, 0);
    crate::strutil::lemma_str_neq("marketTag"@, "orderTemplate"@, 0);
    crate::strutil::lemma_str_neq("marketTag"@, "scriptParameters"@, 0);
    crate::strutil::lemma_str_neq("positionMode"@, "marginMode"@, 0);
    crate::strutil::lemma_str_neq("positionMode"@, "leverage"@, 0);
    crate::strutil::lemma_str_neq("positionMode"@, "tradeAmount"@, 0);
    crate::strutil::lemma_str_neq("positionMode"@, "interval"@, 0);
    crate::strutil::lemma_str_neq("positionMode"@, "chartStyle"@, 0);
    crate::strutil::lemma_str_neq("positionMode"@, "orderTemplate"@, 0);
    crate::strutil::lemma_str_neq("positionMode"@, "scriptParameters"@, 0);
    crate::strutil::lemma_str_neq("marginMode"@, "leverage"@, 0);
    crate::strutil::lemma_str_neq("marginMode"@, "tradeAmount"@, 0);
    crate::strutil::lemma_str_neq("marginMode"@, "interval"@, 0);
    crate::strutil::lemma_str_neq("marginMode"@, "chartStyle"@, 0);
    crate::strutil::lemma_str_neq("marginMode"@, "orderTemplate"@, 0);
    crate::strutil::lemma_str_neq("marginMode"@, "scriptParameters"@, 0);
    crate::strutil::lemma_str_neq("leverage"@, "tradeAmount"@, 0);
    crate::strutil::lemma_str_neq("leverage"@, "interval"@, 0);
    crate::strutil::lemma_str_neq("leverage"@, "chartStyle"@, 0);
    crate::strutil::lemma_str_neq("leverage"@, "orderTemplate"@, 0);
    crate::strutil::lemma_str_neq("leverage"@, "scriptParameters"@, 0);
    crate::strutil::lemma_str_neq("tradeAmount"@, "interval"@, 0);
    crate::strutil::lemma_str_neq("tradeAmount"@, "chartStyle"@, 0);
    crate::strutil::lemma_str_neq("tradeAmount"@, "orderTemplate"@, 0);
    crate::strutil::lemma_str_neq("tradeAmount"@, "scriptParameters"@, 0);
    crate::strutil::lemma_str_neq("interval"@, "chartStyle"@, 0);
    crate::strutil::lemma_str_neq("interval"@, "orderTemplate"@, 0);
    crate::strutil::lemma_str_neq("interval"@, "scriptParameters"@, 0);
    crate::strutil::lemma_str_neq("chartStyle"@, "orderTemplate"@, 0);
    crate::strutil::lemma_str_neq("chartStyle"@, "scriptParameters"@, 0);
    crate::strutil::lemma_str_neq("orderTemplate"@, "scriptParameters"@, 0);
    crate::json::lemma_lookup_first(ms, "botId"@, 0);
    crate::json::lemma_lookup_first(ms, "botName"@, 1);
    crate::json::lemma_lookup_first(ms, "accountId"@, 2);
    crate::json::lemma_lookup_first(ms, "marketTag"@, 3);
    crate::json::lemma_lookup_first(ms, "positionMode"@, 4);
    crate::json::lemma_lookup_first(ms, "marginMode"@, 5);
    crate::json::lemma_lookup_first(ms, "leverage"@, 6);
    crate::json::lemma_lookup_first(ms, "tradeAmount"@, 7);
    crate::json::lemma_lookup_first(ms, "interval"@, 8);
    crate::json::lemma_lookup_first(ms, "chartStyle"@, 9);
    crate::json::lemma_lookup_first(ms, "orderTemplate"@, 10);
    crate::json::lemma_lookup_first(ms, "scriptParameters"@, 11);
}

/// A document with a settings reading decodes.
pub proof fn lemma_settings_matches_ok(s: HaasScriptSettings, j: JsonData)
    requires
        settings_matches(s, j),
    ensures
        settings_json_ok(j),
{
}

/// An encoded settings record always decodes.
pub proof fn lemma_settings_encode_ok(s: HaasScriptSettings)
    ensures
        settings_json_ok(spec_settings_json(s)),
{
    lemma_settings_canonical(s);
    lemma_settings_matches_ok(s, spec_settings_json(s));
}

/// A settings record read back from an encoded one carries the same
/// fields: the two canonical documents are equal.
pub proof fn lemma_settings_round_trip(s1: HaasScriptSettings, s2: HaasScriptSettings)
    requires
        settings_matches(s2, spec_settings_json(s1)),
    ensures
        spec_settings_json(s2) == spec_settings_json(s1),
{
    lemma_settings_canonical(s1);
    assert(spec_settings_json(s2) =~= spec_settings_json(s1));
}

/// An option list read back from an encoded one renders to the same
/// documents.
pub proof fn lemma_options_round_trip(
    os1: Seq<UserLabParameterOption>,
    os2: Seq<UserLabParameterOption>,
)
    requires
        options_match(os2, spec_options_json(os1)),
    ensures
        spec_options_json(os2) == spec_options_json(os1),
{
    assert(spec_options_json(os2) =~= spec_options_json(os1));
}

/// Every document of an encoded option list is a readable option.
pub proof fn lemma_options_encode_ok(os: Seq<UserLabParameterOption>)
    ensures
        options_json_ok(spec_options_json(os)),
{
    assert forall|i: int| 0 <= i < spec_options_json(os).len() implies option_json_ok(
        #[trigger] spec_options_json(os)[i],
    ) by {
        assert(spec_options_json(os)[i] == spec_option_json(os[i]));
    }
}

/// What each key of an encoded parameter looks up to.
proof fn lemma_parameter_canonical(p: UserLabParameter)
    ensures
        parameter_matches(p, spec_parameter_json(p)),
        obj_lookup(spec_parameter_json(p), "O"@) == Some(
            JsonData::Arr(spec_options_json(p.options@)),
        ),
{
    let ms = spec_parameter_json(p)->Obj_0;
    assert(ms.len() == 5);
    reveal_strlit("K");
    reveal_strlit("T");
    reveal_strlit("O");
    reveal_strlit("I");
    reveal_strlit("IS");
    crate::strutil::lemma_str_neq("K"@, "T"@, 0);
    crate::strutil::lemma_str_neq("K"@, "O"@, 0);
    crate::strutil::lemma_str_neq("K"@, "I"@, 0);
    crate::strutil::lemma_str_neq("K"@, "IS"@, 0);
    crate::strutil::lemma_str_neq("T"@, "O"@, 0);
    crate::strutil::lemma_str_neq("T"@, "I"@, 0);
    crate::strutil::lemma_str_neq("T"@, "IS"@, 0);
    crate::strutil::lemma_str_neq("O"@, "I"@, 0);
    crate::strutil::lemma_str_neq("O"@, "IS"@, 0);
    crate::strutil::lemma_str_neq("I"@, "IS"@, 0);
    crate::json::lemma_lookup_first(ms, "K"@, 0);
    crate::json::lemma_lookup_first(ms, "T"@, 1);
    crate::json::lemma_lookup_first(ms, "O"@, 2);
    crate::json::lemma_lookup_first(ms, "I"@, 3);
    crate::json::lemma_lookup_first(ms, "IS"@, 4);
}

/// Option documents with a reading are all readable options.
pub proof fn lemma_options_match_ok(os: Seq<UserLabParameterOption>, js: Seq<JsonData>)
    requires
        options_match(os, js),
    ensures
        options_json_ok(js),
{
    assert forall|i: int| 0 <= i < js.len() implies option_json_ok(#[trigger] js[i]) by {
        assert(spec_option_json(os[i]) == js[i]);
    }
}

/// A document with a parameter reading decodes.
pub proof fn lemma_parameter_matches_ok(p: UserLabParameter, j: JsonData)
    requires
        parameter_matches(p, j),
    ensures
        parameter_json_ok(j),
{
    if let Some(JsonData::Arr(js)) = obj_lookup(j, "O"@) {
        lemma_options_match_ok(p.options@, js);
    }
}

/// An encoded parameter always decodes.
pub proof fn lemma_parameter_encode_ok(p: UserLabParameter)
    ensures
        parameter_json_ok(spec_parameter_json(p)),
{
    lemma_parameter_canonical(p);
    lemma_parameter_matches_ok(p, spec_parameter_json(p));
}

/// A parameter read back from an encoded one carries the same fields:
/// the two canonical documents are equal.
pub proof fn lemma_parameter_round_trip(p1: UserLabParameter, p2: UserLabParameter)
    requires
        parameter_matches(p2, spec_parameter_json(p1)),
    ensures
        spec_parameter_json(p2) == spec_parameter_json(p1),
{
    lemma_parameter_canonical(p1);
    lemma_options_round_trip(p1.options@, p2.options@);
    assert(spec_parameter_json(p2) =~= spec_parameter_json(p1));
}

/// A parameter list read back from an encoded one renders to the same
/// documents.
pub proof fn lemma_parameters_round_trip(ps1: Seq<UserLabParameter>, ps2: Seq<UserLabParameter>)
    requires
        parameters_match(ps2, spec_parameters_json(ps1)),
    ensures
        spec_parameters_json(ps2) == spec_parameters_json(ps1),
{
    assert forall|i: int| 0 <= i < ps2.len() implies #[trigger] spec_parameters_json(ps2)[i]
        == spec_parameters_json(ps1)[i] by {
        lemma_parameter_round_trip(ps1[i], ps2[i]);
    }
    assert(spec_parameters_json(ps2) =~= spec_parameters_json(ps1));
}

/// Parameter documents with a reading are all readable parameters.
pub proof fn lemma_parameters_match_ok(ps: Seq<UserLabParameter>, js: Seq<JsonData>)
    requires
        parameters_match(ps, js),
    ensures
        parameters_json_ok(js),
{
    assert forall|i: int| 0 <= i < js.len() implies parameter_json_ok(#[trigger] js[i]) by {
        lemma_parameter_matches_ok(ps[i], js[i]);
    }
}

/// Every document of an encoded parameter list is a readable parameter.
pub proof fn lemma_parameters_encode_ok(ps: Seq<UserLabParameter>)
    ensures
        parameters_json_ok(spec_parameters_json(ps)),
{
    assert forall|i: int| 0 <= i < ps.len() implies parameter_json_ok(
        #[trigger] spec_parameters_json(ps)[i],
    ) by {
        lemma_parameter_encode_ok(ps[i]);
    }
}

/// What each key of an encoded details record looks up to.
proof fn lemma_details_canonical(d: UserLabDetails)
    ensures
        details_matches(d, spec_details_json(d)),
        obj_lookup(spec_details_json(d), "C"@) == Some(spec_config_json(d.user_lab_config)),
        obj_lookup(spec_details_json(d), "ST"@) == Some(
            spec_settings_json(d.haas_script_settings),
        ),
        obj_lookup(spec_details_json(d), "P"@) == Some(
            JsonData::Arr(spec_parameters_json(d.parameters@)),
        ),
{
    let ms = spec_details_json(d)->Obj_0;
    assert(ms.len() == 19);
    reveal_strlit("C");
    reveal_strlit("ST");
    reveal_strlit("P");
    reveal_strlit("UID");
    reveal_strlit("LID");
    reveal_strlit("SID");
    reveal_strlit("N");
    reveal_strlit("T");
    reveal_strlit("S");
    reveal_strlit("SB");
    reveal_strlit("CB");
    reveal_strlit("CA");
    reveal_strlit("UA");
    reveal_strlit("SA");
    reveal_strlit("RS");
    reveal_strlit("SU");
    reveal_strlit("EU");
    reveal_strlit("SE");
    reveal_strlit("CM");
    crate::strutil::lemma_str_neq("C"@, "ST"@, 0);
    crate::strutil::lemma_str_neq("C"@, "P"@, 0);
    crate::strutil::lemma_str_neq("C"@, "UID"@, 0);
    crate::strutil::lemma_str_neq("C"@, "LID"@, 0);
    crate::strutil::lemma_str_neq("C"@, "SID"@, 0);
    crate::strutil::lemma_str_neq("C"@, "N"@, 0);
    crate::strutil::lemma_str_neq("C"@, "T"@, 0);
    crate::strutil::lemma_str_neq("C"@, "S"@, 0);
    crate::strutil::lemma_str_neq("C"@, "SB"@, 0);
    crate::strutil::lemma_str_neq("C"@, "CB"@, 0);
    crate::strutil::lemma_str_neq("C"@, "CA"@, 0);
    crate::strutil::lemma_str_neq("C"@, "UA"@, 0);
    crate::strutil::lemma_str_neq("C"@, "SA"@, 0);
    crate::strutil::lemma_str_neq("C"@, "RS"@, 0);
    crate::strutil::lemma_str_neq("C"@, "SU"@, 0);
    crate::strutil::lemma_str_neq("C"@, "EU"@, 0);
    crate::strutil::lemma_str_neq("C"@, "SE"@, 0);
    crate::strutil::lemma_str_neq("C"@, "CM"@, 0);
    crate::strutil::lemma_str_neq("ST"@, "P"@, 0);
    crate::strutil::lemma_str_neq("ST"@, "UID"@, 0);
    crate::strutil::lemma_str_neq("ST"@, "LID"@, 0);
    crate::strutil::lemma_str_neq("ST"@, "SID"@, 0);
    crate::strutil::lemma_str_neq("ST"@, "N"@, 0);
    crate::strutil::lemma_str_neq("ST"@, "T"@, 0);
    crate::strutil::lemma_str_neq("ST"@, "S"@, 0);
    crate::strutil::lemma_str_neq("ST"@, "SB"@, 1);
    crate::strutil::lemma_str_neq("ST"@, "CB"@, 0);
    crate::strutil::lemma_str_neq("ST"@, "CA"@, 0);
    crate::strutil::lemma_str_neq("ST"@, "UA"@, 0);
    crate::strutil::lemma_str_neq("ST"@, "SA"@, 1);
    crate::strutil::lemma_str_neq("ST"@, "RS"@, 0);
    crate::strutil::lemma_str_neq("ST"@, "SU"@, 1);
    crate::strutil::lemma_str_neq("ST"@, "EU"@, 0);
    crate::strutil::lemma_str_neq("ST"@, "SE"@, 1);
    crate::strutil::lemma_str_neq("ST"@, "CM"@, 0);
    crate::strutil::lemma_str_neq("P"@, "UID"@, 0);
    crate::strutil::lemma_str_neq("P"@, "LID"@, 0);
    crate::strutil::lemma_str_neq("P"@, "SID"@, 0);
    crate::strutil::lemma_str_neq("P"@, "N"@, 0);
    crate::strutil::lemma_str_neq("P"@, "T"@, 0);
    crate::strutil::lemma_str_neq("P"@, "S"@, 0);
    crate::strutil::lemma_str_neq("P"@, "SB"@, 0);
    crate::strutil::lemma_str_neq("P"@, "CB"@, 0);
    crate::strutil::lemma_str_neq("P"@, "CA"@, 0);
    crate::strutil::lemma_str_neq("P"@, "UA"@, 0);
    crate::strutil::lemma_str_neq("P"@, "SA"@, 0);
    crate::strutil::lemma_str_neq("P"@, "RS"@, 0);
    crate::strutil::lemma_str_neq("P"@, "SU"@, 0);
    crate::strutil::lemma_str_neq("P"@, "EU"@, 0);
    crate::strutil::lemma_str_neq("P"@, "SE"@, 0);
    crate::strutil::lemma_str_neq("P"@, "CM"@, 0);
    crate::strutil::lemma_str_neq("UID"@, "LID"@, 0);
    crate::strutil::lemma_str_neq("UID"@, "SID"@, 0);
    crate::strutil::lemma_str_neq("UID"@, "N"@, 0);
    crate::strutil::lemma_str_neq("UID"@, "T"@, 0);
    crate::strutil::lemma_str_neq("UID"@, "S"@, 0);
    crate::strutil::lemma_str_neq("UID"@, "SB"@, 0);
    crate::strutil::lemma_str_neq("UID"@, "CB"@, 0);
    crate::strutil::lemma_str_neq("UID"@, "CA"@, 0);
    crate::strutil::lemma_str_neq("UID"@, "UA"@, 0);
    crate::strutil::lemma_str_neq("UID"@, "SA"@, 0);
    crate::strutil::lemma_str_neq("UID"@, "RS"@, 0);
    crate::strutil::lemma_str_neq("UID"@, "SU"@, 0);
    crate::strutil::lemma_str_neq("UID"@, "EU"@, 0);
    crate::strutil::lemma_str_neq("UID"@, "SE"@, 0);
    crate::strutil::lemma_str_neq("UID"@, "CM"@, 0);
    crate::strutil::lemma_str_neq("LID"@, "SID"@, 0);
    crate::strutil::lemma_str_neq("LID"@, "N"@, 0);
    crate::strutil::lemma_str_neq("LID"@, "T"@, 0);
    crate::strutil::lemma_str_neq("LID"@, "S"@, 0);
    crate::strutil::lemma_str_neq("LID"@, "SB"@, 0);
    crate::strutil::lemma_str_neq("LID"@, "CB"@, 0);
    crate::strutil::lemma_str_neq("LID"@, "CA"@, 0);
    crate::strutil::lemma_str_neq("LID"@, "UA"@, 0);
    crate::strutil::lemma_str_neq("LID"@, "SA"@, 0);
    crate::strutil::lemma_str_neq("LID"@, "RS"@, 0);
    crate::strutil::lemma_str_neq("LID"@, "SU"@, 0);
    crate::strutil::lemma_str_neq("LID"@, "EU"@, 0);
    crate::strutil::lemma_str_neq("LID"@, "SE"@, 0);
    crate::strutil::lemma_str_neq("LID"@, "CM"@, 0);
    crate::strutil::lemma_str_neq("SID"@, "N"@, 0);
    crate::strutil::lemma_str_neq("SID"@, "T"@, 0);
    crate::strutil::lemma_str_neq("SID"@, "S"@, 0);
    crate::strutil::lemma_str_neq("SID"@, "SB"@, 0);
    crate::strutil::lemma_str_neq("SID"@, "CB"@, 0);
    crate::strutil::lemma_str_neq("SID"@, "CA"@, 0);
    crate::strutil::lemma_str_neq("SID"@, "UA"@, 0);
    crate::strutil::lemma_str_neq("SID"@, "SA"@, 0);
    crate::strutil::lemma_str_neq("SID"@, "RS"@, 0);
    crate::strutil::lemma_str_neq("SID"@, "SU"@, 0);
    crate::strutil::lemma_str_neq("SID"@, "EU"@, 0);
    crate::strutil::lemma_str_neq("SID"@, "SE"@, 0);
    crate::strutil::lemma_str_neq("SID"@, "CM"@, 0);
    crate::strutil::lemma_str_neq("N"@, "T"@, 0);
    crate::strutil::lemma_str_neq("N"@, "S"@, 0);
    crate::strutil::lemma_str_neq("N"@, "SB"@, 0);
    crate::strutil::lemma_str_neq("N"@, "CB"@, 0);
    crate::strutil::lemma_str_neq("N"@, "CA"@, 0);
    crate::strutil::lemma_str_neq("N"@, "UA"@, 0);
    crate::strutil::lemma_str_neq("N"@, "SA"@, 0);
    crate::strutil::lemma_str_neq("N"@, "RS"@, 0);
    crate::strutil::lemma_str_neq("N"@, "SU"@, 0);
    crate::strutil::lemma_str_neq("N"@, "EU"@, 0);
    crate::strutil::lemma_str_neq("N"@, "SE"@, 0);
    crate::strutil::lemma_str_neq("N"@, "CM"@, 0);
    crate::strutil::lemma_str_neq("T"@, "S"@, 0);
    crate::strutil::lemma_str_neq("T"@, "SB"@, 0);
    crate::strutil::lemma_str_neq("T"@, "CB"@, 0);
    crate::strutil::lemma_str_neq("T"@, "CA"@, 0);
    crate::strutil::lemma_str_neq("T"@, "UA"@, 0);
    crate::strutil::lemma_str_neq("T"@, "SA"@, 0);
    crate::strutil::lemma_str_neq("T"@, "RS"@, 0);
    crate::strutil::lemma_str_neq("T"@, "SU"@, 0);
    crate::strutil::lemma_str_neq("T"@, "EU"@, 0);
    crate::strutil::lemma_str_neq("T"@, "SE"@, 0);
    crate::strutil::lemma_str_neq("T"@, "CM"@, 0);
    crate::strutil::lemma_str_neq("S"@, "SB"@, 0);
    crate::strutil::lemma_str_neq("S"@, "CB"@, 0);
    crate::strutil::lemma_str_neq("S"@, "CA"@, 0);
    crate::strutil::lemma_str_neq("S"@, "UA"@, 0);
    crate::strutil::lemma_str_neq("S"@, "SA"@, 0);
    crate::strutil::lemma_str_neq("S"@, "RS"@, 0);
    crate::strutil::lemma_str_neq("S"@, "SU"@, 0);
    crate::strutil::lemma_str_neq("S"@, "EU"@, 0);
    crate::strutil::lemma_str_neq("S"@, "SE"@, 0);
    crate::strutil::lemma_str_neq("S"@, "CM"@, 0);
    crate::strutil::lemma_str_neq("SB"@, "CB"@, 0);
    crate::strutil::lemma_str_neq("SB"@, "CA"@, 0);
    crate::strutil::lemma_str_neq("SB"@, "UA"@, 0);
    crate::strutil::lemma_str_neq("SB"@, "SA"@, 1);
    crate::strutil::lemma_str_neq("SB"@, "RS"@, 0);
    crate::strutil::lemma_str_neq("SB"@, "SU"@, 1);
    crate::strutil::lemma_str_neq("SB"@, "EU"@, 0);
    crate::strutil::lemma_str_neq("SB"@, "SE"@, 1);
    crate::strutil::lemma_str_neq("SB"@, "CM"@, 0);
    crate::strutil::lemma_str_neq("CB"@, "CA"@, 1);
    crate::strutil::lemma_str_neq("CB"@, "UA"@, 0);
    crate::strutil::lemma_str_neq("CB"@, "SA"@, 0);
    crate::strutil::lemma_str_neq("CB"@, "RS"@, 0);
    crate::strutil::lemma_str_neq("CB"@, "SU"@, 0);
    crate::strutil::lemma_str_neq("CB"@, "EU"@, 0);
    crate::strutil::lemma_str_neq("CB"@, "SE"@, 0);
    crate::strutil::lemma_str_neq("CB"@, "CM"@, 1);
    crate::strutil::lemma_str_neq("CA"@, "UA"@, 0);
    crate::strutil::lemma_str_neq("CA"@, "SA"@, 0);
    crate::strutil::lemma_str_neq("CA"@, "RS"@, 0);
    crate::strutil::lemma_str_neq("CA"@, "SU"@, 0);
    crate::strutil::lemma_str_neq("CA"@, "EU"@, 0);
    crate::strutil::lemma_str_neq("CA"@, "SE"@, 0);
    crate::strutil::lemma_str_neq("CA"@, "CM"@, 1);
    crate::strutil::lemma_str_neq("UA"@, "SA"@, 0);
    crate::strutil::lemma_str_neq("UA"@, "RS"@, 0);
    crate::strutil::lemma_str_neq("UA"@, "SU"@, 0);
    crate::strutil::lemma_str_neq("UA"@, "EU"@, 0);
    crate::strutil::lemma_str_neq("UA"@, "SE"@, 0);
    crate::strutil::lemma_str_neq("UA"@, "CM"@, 0);
    crate::strutil::lemma_str_neq("SA"@, "RS"@, 0);
    crate::strutil::lemma_str_neq("SA"@, "SU"@, 1);
    crate::strutil::lemma_str_neq("SA"@, "EU"@, 0);
    crate::strutil::lemma_str_neq("SA"@, "SE"@, 1);
    crate::strutil::lemma_str_neq("SA"@, "CM"@, 0);
    crate::strutil::lemma_str_neq("RS"@, "SU"@, 0);
    crate::strutil::lemma_str_neq("RS"@, "EU"@, 0);
    crate::strutil::lemma_str_neq("RS"@, "SE"@, 0);
    crate::strutil::lemma_str_neq("RS"@, "CM"@, 0);
    crate::strutil::lemma_str_neq("SU"@, "EU"@, 0);
    crate::strutil::lemma_str_neq("SU"@, "SE"@, 1);
    crate::strutil::lemma_str_neq("SU"@, "CM"@, 0);
    crate::strutil::lemma_str_neq("EU"@, "SE"@, 0);
    crate::strutil::lemma_str_neq("EU"@, "CM"@, 0);
    crate::strutil::lemma_str_neq("SE"@, "CM"@, 0);
    crate::json::lemma_lookup_first(ms, "C"@, 0);
    crate::json::lemma_lookup_first(ms, "ST"@, 1);
    crate::json::lemma_lookup_first(ms, "P"@, 2);
    crate::json::lemma_lookup_first(ms, "UID"@, 3);
    crate::json::lemma_lookup_first(ms, "LID"@, 4);
    crate::json::lemma_lookup_first(ms, "SID"@, 5);
    crate::json::lemma_lookup_first(ms, "N"@, 6);
    crate::json::lemma_lookup_first(ms, "T"@, 7);
    crate::json::lemma_lookup_first(ms, "S"@, 8);
    crate::json::lemma_lookup_first(ms, "SB"@, 9);
    crate::json::lemma_lookup_first(ms, "CB"@, 10);
    crate::json::lemma_lookup_first(ms, "CA"@, 11);
    crate::json::lemma_lookup_first(ms, "UA"@, 12);
    crate::json::lemma_lookup_first(ms, "SA"@, 13);
    crate::json::lemma_lookup_first(ms, "RS"@, 14);
    crate::json::lemma_lookup_first(ms, "SU"@, 15);
    crate::json::lemma_lookup_first(ms, "EU"@, 16);
    crate::json::lemma_lookup_first(ms, "SE"@, 17);
    crate::json::lemma_lookup_first(ms, "CM"@, 18);
    lemma_config_canonical(d.user_lab_config);
    lemma_settings_canonical(d.haas_script_settings);
    assert forall|i: int| 0 <= i < d.parameters@.len() implies parameter_matches(
        #[trigger] d.parameters@[i],
        spec_parameters_json(d.parameters@)[i],
    ) by {
        lemma_parameter_canonical(d.parameters@[i]);
    }
}

/// A document with a details reading decodes.
pub proof fn lemma_details_matches_ok(d: UserLabDetails, j: JsonData)
    requires
        details_matches(d, j),
    ensures
        details_json_ok(j),
{
    if let Some(cj) = obj_lookup(j, "C"@) {
        lemma_config_matches_ok(d.user_lab_config, cj);
    }
    if let Some(sj) = obj_lookup(j, "ST"@) {
        lemma_settings_matches_ok(d.haas_script_settings, sj);
    }
    if let Some(JsonData::Arr(pjs)) = obj_lookup(j, "P"@) {
        lemma_parameters_match_ok(d.parameters@, pjs);
    }
    assert(spec_status_of_code(spec_status_code(d.status)) == Some(d.status));
}

/// An encoded details record always decodes.
pub proof fn lemma_details_encode_ok(d: UserLabDetails)
    ensures
        details_json_ok(spec_details_json(d)),
{
    lemma_details_canonical(d);
    lemma_details_matches_ok(d, spec_details_json(d));
}

/// The round-trip law for lab details: a record read back from an
/// encoded record renders to the very same canonical document, so every
/// field — strings as character sequences, integers and booleans
/// exactly, fractional numbers by their bit pattern — is preserved.
pub proof fn lemma_details_round_trip(d1: UserLabDetails, d2: UserLabDetails)
    requires
        details_matches(d2, spec_details_json(d1)),
    ensures
        spec_details_json(d2) == spec_details_json(d1),
{
    lemma_details_canonical(d1);
    lemma_config_round_trip(d1.user_lab_config, d2.user_lab_config);
    lemma_settings_round_trip(d1.haas_script_settings, d2.haas_script_settings);
    lemma_parameters_round_trip(d1.parameters@, d2.parameters@);
    assert(spec_details_json(d2) =~= spec_details_json(d1));
}

// ---------------------------------------------------------------------
// The response envelope
// ---------------------------------------------------------------------

/// Exactly when a document is a readable response envelope.
pub open spec fn envelope_json_ok(j: JsonData) -> bool {
    &&& obj_lookup(j, "Success"@) matches Some(JsonData::Bool(_))
    &&& obj_lookup(j, "Error"@) matches Some(JsonData::Str(_))
    &&& obj_lookup(j, "Data"@) is Some
}

/// Reads the `{Success, Error, Data}` envelope of a response.
pub fn decode_envelope(j: &JsonValue) -> (r: Option<ApiResponse<JsonValue>>)
    ensures
        match r {
            Some(env) => {
                &&& obj_lookup(j@, "Success"@) == Some(JsonData::Bool(env.success))
                &&& obj_lookup(j@, "Error"@) == Some(JsonData::Str(env.error@))
                &&& obj_lookup(j@, "Data"@) == Some(env.data@)
            },
            None => !envelope_json_ok(j@),
        },
{
    match j {
        JsonValue::Obj(members) => {
            proof {
                lemma_obj_view(*j);
            }
            let success = match get_bool(members, "Success") {
                Some(b) => b,
                None => {
                    return None;
                },
            };
            let error = match get_string(members, "Error") {
                Some(s) => s,
                None => {
                    return None;
                },
            };
            let data = match get_value(members, "Data") {
                Some(v) => v,
                None => {
                    return None;
                },
            };
            Some(ApiResponse { success, error, data })
        },
        _ => None,
    }
}

/// The payload of a response envelope.
///
/// Returns the `Data` member when the envelope is well formed and its
/// success flag is set; a `Failure` carrying the envelope's error text
/// when the flag is clear; and a `Serde` error when the document is no
/// envelope at all.
pub fn unwrap_envelope(j: &JsonValue) -> (r: Result<JsonValue, Error>)
    ensures
        match r {
            Ok(data) => {
                &&& envelope_json_ok(j@)
                &&& obj_lookup(j@, "Success"@) == Some(JsonData::Bool(true))
                &&& obj_lookup(j@, "Data"@) == Some(data@)
            },
            Err(Error::Failure(msg)) => {
                &&& envelope_json_ok(j@)
                &&& obj_lookup(j@, "Success"@) == Some(JsonData::Bool(false))
                &&& obj_lookup(j@, "Error"@) == Some(JsonData::Str(msg@))
            },
            Err(Error::Serde(_)) => !envelope_json_ok(j@),
            Err(_) => false,
        },
{
    match decode_envelope(j) {
        Some(env) => {
            if env.success {
                Ok(env.data)
            } else {
                Err(Error::Failure(env.error))
            }
        },
        None => Err(Error::Serde(String::from_str("response is not a service envelope"))),
    }
}


// ---------------------------------------------------------------------
// Markets, accounts, scripts, login
// ---------------------------------------------------------------------

/// Whether `x` is a reading of a market document `j`.
pub open spec fn market_matches(x: CloudMarket, j: JsonData) -> bool {
    &&& obj_lookup(j, "C"@) == Some(JsonData::Str(x.category@))
    &&& obj_lookup(j, "PS"@) == Some(JsonData::Str(x.price_source@))
    &&& obj_lookup(j, "P"@) == Some(JsonData::Str(x.primary@))
    &&& obj_lookup(j, "S"@) == Some(JsonData::Str(x.secondary@))
}

/// Exactly when a market document decodes.
pub open spec fn market_json_ok(j: JsonData) -> bool {
    &&& obj_lookup(j, "C"@) matches Some(JsonData::Str(_))
    &&& obj_lookup(j, "PS"@) matches Some(JsonData::Str(_))
    &&& obj_lookup(j, "P"@) matches Some(JsonData::Str(_))
    &&& obj_lookup(j, "S"@) matches Some(JsonData::Str(_))
}

/// Reads a market record.
pub fn decode_market(j: &JsonValue) -> (r: Option<CloudMarket>)
    ensures
        match r {
            Some(x) => market_matches(x, j@),
            None => !market_json_ok(j@),
        },
{
    match j {
        JsonValue::Obj(members) => {
            proof {
                lemma_obj_view(*j);
            }
            let category = match get_string(members, "C") {
                Some(s) => s,
                None => {
                    return None;
                },
            };
            let price_source = match get_string(members, "PS") {
                Some(s) => s,
                None => {
                    return None;
                },
            };
            let primary = match get_string(members, "P") {
                Some(s) => s,
                None => {
                    return None;
                },
            };
            let secondary = match get_string(members, "S") {
                Some(s) => s,
                None => {
                    return None;
                },
            };
            Some(CloudMarket { category, price_source, primary, secondary })
        },
        _ => None,
    }
}

/// Whether `xs` is the reading of market documents `js`.
pub open spec fn markets_match(xs: Seq<CloudMarket>, js: Seq<JsonData>) -> bool {
    xs.len() == js.len() && forall|i: int|
        0 <= i < xs.len() ==> market_matches(#[trigger] xs[i], js[i])
}

/// Whether every document of `js` is a readable market record.
pub open spec fn markets_json_ok(js: Seq<JsonData>) -> bool {
    forall|i: int| 0 <= i < js.len() ==> market_json_ok(#[trigger] js[i])
}

/// Reads a whole list of market records; fails if any element is
/// unreadable.
pub fn decode_markets(items: &Vec<JsonValue>) -> (r: Option<Vec<CloudMarket>>)
    ensures
        match r {
            Some(xs) => markets_match(xs@, elements_view(items@)),
            None => !markets_json_ok(elements_view(items@)),
        },
{
    let mut out: Vec<CloudMarket> = Vec::new();
    let mut i: usize = 0;
    while i < items.len()
        invariant
            i <= items@.len(),
            out@.len() == i,
            forall|k: int|
                0 <= k < i ==> market_matches(#[trigger] out@[k], elements_view(items@)[k]),
        decreases items@.len() - i,
    {
        match decode_market(&items[i]) {
            Some(x) => out.push(x),
            None => {
                proof {
                    assert(!market_json_ok(elements_view(items@)[i as int]));
                }
                return None;
            },
        }
        i += 1;
    }
    Some(out)
}

/// Whether `x` is a reading of an account document `j`.
pub open spec fn account_matches(x: UserAccount, j: JsonData) -> bool {
    &&& obj_lookup(j, "UID"@) == Some(JsonData::Str(x.user_id@))
    &&& obj_lookup(j, "AID"@) == Some(JsonData::Str(x.account_id@))
    &&& obj_lookup(j, "N"@) == Some(JsonData::Str(x.name@))
    &&& obj_lookup(j, "EC"@) == Some(JsonData::Str(x.exchnage_code@))
    &&& obj_lookup(j, "ET"@) == Some(JsonData::Int(x.exchange_type))
    &&& obj_lookup(j, "S"@) == Some(JsonData::Int(x.status))
    &&& obj_lookup(j, "IS"@) == Some(JsonData::Bool(x.is_simulated))
    &&& obj_lookup(j, "IT"@) == Some(JsonData::Bool(x.is_test_net))
    &&& obj_lookup(j, "PA"@) == Some(JsonData::Bool(x.is_public))
    &&& obj_lookup(j, "WL"@) == Some(JsonData::Bool(x.is_white_label))
    &&& obj_lookup(j, "PM"@) == Some(JsonData::Int(x.position_mode))
    &&& obj_lookup(j, "MS"@) == Some(x.margin_settings@)
    &&& obj_lookup(j, "V"@) == Some(JsonData::Int(x.version))
}

/// Exactly when an account document decodes.
pub open spec fn account_json_ok(j: JsonData) -> bool {
    &&& obj_lookup(j, "UID"@) matches Some(JsonData::Str(_))
    &&& obj_lookup(j, "AID"@) matches Some(JsonData::Str(_))
    &&& obj_lookup(j, "N"@) matches Some(JsonData::Str(_))
    &&& obj_lookup(j, "EC"@) matches Some(JsonData::Str(_))
    &&& obj_lookup(j, "ET"@) matches Some(JsonData::Int(_))
    &&& obj_lookup(j, "S"@) matches Some(JsonData::Int(_))
    &&& obj_lookup(j, "IS"@) matches Some(JsonData::Bool(_))
    &&& obj_lookup(j, "IT"@) matches Some(JsonData::Bool(_))
    &&& obj_lookup(j, "PA"@) matches Some(JsonData::Bool(_))
    &&& obj_lookup(j, "WL"@) matches Some(JsonData::Bool(_))
    &&& obj_lookup(j, "PM"@) matches Some(JsonData::Int(_))
    &&& obj_lookup(j, "MS"@) is Some
    &&& obj_lookup(j, "V"@) matches Some(JsonData::Int(_))
}

/// Reads an account record.
pub fn decode_account(j: &JsonValue) -> (r: Option<UserAccount>)
    ensures
        match r {
            Some(x) => account_matches(x, j@),
            None => !account_json_ok(j@),
        },
{
    match j {
        JsonValue::Obj(members) => {
            proof {
                lemma_obj_view(*j);
            }
            let user_id = match get_string(members, "UID") {
                Some(s) => s,
                None => {
                    return None;
                },
            };
            let account_id = match get_string(members, "AID") {
                Some(s) => s,
                None => {
                    return None;
                },
            };
            let name = match get_string(members, "N") {
                Some(s) => s,
                None => {
                    return None;
                },
            };
            let exchnage_code = match get_string(members, "EC") {
                Some(s) => s,
                None => {
                    return None;
                },
            };
            let exchange_type = match get_i64(members, "ET") {
                Some(n) => n,
                None => {
                    return None;
                },
            };
            let status = match get_i64(members, "S") {
                Some(n) => n,
                None => {
                    return None;
                },
            };
            let is_simulated = match get_bool(members, "IS") {
                Some(b) => b,
                None => {
                    return None;
                },
            };
            let is_test_net = match get_bool(members, "IT") {
                Some(b) => b,
                None => {
                    return None;
                },
            };
            let is_public = match get_bool(members, "PA") {
                Some(b) => b,
                None => {
                    return None;
                },
            };
            let is_white_label = match get_bool(members, "WL") {
                Some(b) => b,
                None => {
                    return None;
                },
            };
            let position_mode = match get_i64(members, "PM") {
                Some(n) => n,
                None => {
                    return None;
                },
            };
            let margin_settings = match get_value(members, "MS") {
                Some(v) => v,
                None => {
                    return None;
                },
            };
            let version = match get_i64(members, "V") {
                Some(n) => n,
                None => {
                    return None;
                },
            };
            Some(UserAccount { user_id, account_id, name, exchnage_code, exchange_type, status, is_simulated, is_test_net, is_public, is_white_label, position_mode, margin_settings, version })
        },
        _ => None,
    }
}

/// Whether `xs` is the reading of account documents `js`.
pub open spec fn accounts_match(xs: Seq<UserAccount>, js: Seq<JsonData>) -> bool {
    xs.len() == js.len() && forall|i: int|
        0 <= i < xs.len() ==> account_matches(#[trigger] xs[i], js[i])
}

/// Whether every document of `js` is a readable account record.
pub open spec fn accounts_json_ok(js: Seq<JsonData>) -> bool {
    forall|i: int| 0 <= i < js.len() ==> account_json_ok(#[trigger] js[i])
}

/// Reads a whole list of account records; fails if any element is
/// unreadable.
pub fn decode_accounts(items: &Vec<JsonValue>) -> (r: Option<Vec<UserAccount>>)
    ensures
        match r {
            Some(xs) => accounts_match(xs@, elements_view(items@)),
            None => !accounts_json_ok(elements_view(items@)),
        },
{
    let mut out: Vec<UserAccount> = Vec::new();
    let mut i: usize = 0;
    while i < items.len()
        invariant
            i <= items@.len(),
            out@.len() == i,
            forall|k: int|
                0 <= k < i ==> account_matches(#[trigger] out@[k], elements_view(items@)[k]),
        decreases items@.len() - i,
    {
        match decode_account(&items[i]) {
            Some(x) => out.push(x),
            None => {
                proof {
                    assert(!account_json_ok(elements_view(items@)[i as int]));
                }
                return None;
            },
        }
        i += 1;
    }
    Some(out)
}

/// Whether `x` is a reading of a login-details document `j`.
pub open spec fn user_details_matches(x: UserDetails, j: JsonData) -> bool {
    &&& obj_lookup(j, "UserId"@) == Some(JsonData::Str(x.user_id@))
    &&& obj_lookup(j, "InterfaceSecret"@) == Some(JsonData::Str(x.interface_secret@))
    &&& obj_lookup(j, "LicenseDetails"@) == Some(x.license_details@)
}

/// Exactly when a login-details document decodes.
pub open spec fn user_details_json_ok(j: JsonData) -> bool {
    &&& obj_lookup(j, "UserId"@) matches Some(JsonData::Str(_))
    &&& obj_lookup(j, "InterfaceSecret"@) matches Some(JsonData::Str(_))
    &&& obj_lookup(j, "LicenseDetails"@) is Some
}

/// Reads a login-details record.
pub fn decode_user_details(j: &JsonValue) -> (r: Option<UserDetails>)
    ensures
        match r {
            Some(x) => user_details_matches(x, j@),
            None => !user_details_json_ok(j@),
        },
{
    match j {
        JsonValue::Obj(members) => {
            proof {
                lemma_obj_view(*j);
            }
            let user_id = match get_string(members, "UserId") {
                Some(s) => s,
                None => {
                    return None;
                },
            };
            let interface_secret = match get_string(members, "InterfaceSecret") {
                Some(s) => s,
                None => {
                    return None;
                },
            };
            let license_details = match get_value(members, "LicenseDetails") {
                Some(v) => v,
                None => {
                    return None;
                },
            };
            Some(UserDetails { user_id, interface_secret, license_details })
        },
        _ => None,
    }
}

/// Whether `ss` is the reading of the string documents `js`.
pub open spec fn strings_match(ss: Seq<String>, js: Seq<JsonData>) -> bool {
    ss.len() == js.len() && forall|i: int|
        0 <= i < ss.len() ==> JsonData::Str((#[trigger] ss[i])@) == js[i]
}

/// Whether every document of `js` is a string.
pub open spec fn strings_json_ok(js: Seq<JsonData>) -> bool {
    forall|i: int| 0 <= i < js.len() ==> (#[trigger] js[i]) is Str
}

/// Reads a list of strings; fails if any element is not a string.
pub fn decode_strings(items: &Vec<JsonValue>) -> (r: Option<Vec<String>>)
    ensures
        match r {
            Some(ss) => strings_match(ss@, elements_view(items@)),
            None => !strings_json_ok(elements_view(items@)),
        },
{
    let mut out: Vec<String> = Vec::new();
    let mut i: usize = 0;
    while i < items.len()
        invariant
            i <= items@.len(),
            out@.len() == i,
            forall|k: int|
                0 <= k < i ==> JsonData::Str((#[trigger] out@[k])@) == elements_view(items@)[k],
        decreases items@.len() - i,
    {
        match &items[i] {
            JsonValue::Str(s) => out.push(s.clone()),
            _ => {
                proof {
                    assert(!(elements_view(items@)[i as int] is Str));
                }
                return None;
            },
        }
        i += 1;
    }
    Some(out)
}

/// Whether `x` is a reading of a script-item document `j`.
pub open spec fn script_item_matches(x: HaasScriptItemWithDependencies, j: JsonData) -> bool {
    &&& obj_lookup(j, "D"@) matches Some(JsonData::Arr(js)) && strings_match(x.dependencies@, js)
    &&& obj_lookup(j, "UID"@) == Some(JsonData::Str(x.user_id@))
    &&& obj_lookup(j, "SID"@) == Some(JsonData::Str(x.script_id@))
    &&& obj_lookup(j, "SN"@) == Some(JsonData::Str(x.script_name@))
    &&& obj_lookup(j, "SD"@) == Some(JsonData::Str(x.script_description@))
    &&& obj_lookup(j, "ST"@) == Some(JsonData::Int(x.script_type))
    &&& obj_lookup(j, "SS"@) == Some(JsonData::Int(x.script_status))
    &&& obj_lookup(j, "CN"@) == Some(JsonData::Str(x.command_name@))
    &&& obj_lookup(j, "IC"@) == Some(JsonData::Bool(x.is_command))
    &&& obj_lookup(j, "IV"@) == Some(JsonData::Bool(x.is_valid))
    &&& obj_lookup(j, "CU"@) == Some(JsonData::Int(x.created_unix))
    &&& obj_lookup(j, "UU"@) == Some(JsonData::Int(x.updated_unix))
    &&& obj_lookup(j, "FID"@) == Some(JsonData::Int(x.folder_id))
}

/// Exactly when a script-item document decodes.
pub open spec fn script_item_json_ok(j: JsonData) -> bool {
    &&& obj_lookup(j, "D"@) matches Some(JsonData::Arr(js)) && strings_json_ok(js)
    &&& obj_lookup(j, "UID"@) matches Some(JsonData::Str(_))
    &&& obj_lookup(j, "SID"@) matches Some(JsonData::Str(_))
    &&& obj_lookup(j, "SN"@) matches Some(JsonData::Str(_))
    &&& obj_lookup(j, "SD"@) matches Some(JsonData::Str(_))
    &&& obj_lookup(j, "ST"@) matches Some(JsonData::Int(_))
    &&& obj_lookup(j, "SS"@) matches Some(JsonData::Int(_))
    &&& obj_lookup(j, "CN"@) matches Some(JsonData::Str(_))
    &&& obj_lookup(j, "IC"@) matches Some(JsonData::Bool(_))
    &&& obj_lookup(j, "IV"@) matches Some(JsonData::Bool(_))
    &&& obj_lookup(j, "CU"@) matches Some(JsonData::Int(_))
    &&& obj_lookup(j, "UU"@) matches Some(JsonData::Int(_))
    &&& obj_lookup(j, "FID"@) matches Some(JsonData::Int(_))
}

/// Reads a script item with its dependency list.
pub fn decode_script_item(j: &JsonValue) -> (r: Option<HaasScriptItemWithDependencies>)
    ensures
        match r {
            Some(x) => script_item_matches(x, j@),
            None => !script_item_json_ok(j@),
        },
{
    match j {
        JsonValue::Obj(members) => {
            proof {
                lemma_obj_view(*j);
            }
            let dependencies_value = match obj_get(members, "D") {
                Some(v) => v,
                None => {
                    return None;
                },
            };
            let dependencies = match dependencies_value {
                JsonValue::Arr(items) => {
                    proof {
                        lemma_arr_view(*dependencies_value);
                    }
                    match decode_strings(items) {
                        Some(ss) => ss,
                        None => {
                            return None;
                        },
                    }
                },
                _ => {
                    return None;
                },
            };
            let user_id = match get_string(members, "UID") {
                Some(s) => s,
                None => {
                    return None;
                },
            };
            let script_id = match get_string(members, "SID") {
                Some(s) => s,
                None => {
                    return None;
                },
            };
            let script_name = match get_string(members, "SN") {
                Some(s) => s,
                None => {
                    return None;
                },
            };
            let script_description = match get_string(members, "SD") {
                Some(s) => s,
                None => {
                    return None;
                },
            };
            let script_type = match get_i64(members, "ST") {
                Some(n) => n,
                None => {
                    return None;
                },
            };
            let script_status = match get_i64(members, "SS") {
                Some(n) => n,
                None => {
                    return None;
                },
            };
            let command_name = match get_string(members, "CN") {
                Some(s) => s,
                None => {
                    return None;
                },
            };
            let is_command = match get_bool(members, "IC") {
                Some(b) => b,
                None => {
                    return None;
                },
            };
            let is_valid = match get_bool(members, "IV") {
                Some(b) => b,
                None => {
                    return None;
                },
            };
            let created_unix = match get_i64(members, "CU") {
                Some(n) => n,
                None => {
                    return None;
                },
            };
            let updated_unix = match get_i64(members, "UU") {
                Some(n) => n,
                None => {
                    return None;
                },
            };
            let folder_id = match get_i64(members, "FID") {
                Some(n) => n,
                None => {
                    return None;
                },
            };
            Some(
                HaasScriptItemWithDependencies {
                    dependencies,
                    user_id,
                    script_id,
                    script_name,
                    script_description,
                    script_type,
                    script_status,
                    command_name,
                    is_command,
                    is_valid,
                    created_unix,
                    updated_unix,
                    folder_id,
                },
            )
        },
        _ => None,
    }
}

/// Whether `x` is a reading of a login-confirmation document `j`.
pub open spec fn app_login_matches(x: AppLogin, j: JsonData) -> bool {
    &&& obj_lookup(j, "R"@) == Some(JsonData::Int(x.error))
    &&& obj_lookup(j, "D"@) matches Some(dj) && user_details_matches(x.details, dj)
}

/// Exactly when a login-confirmation document decodes.
pub open spec fn app_login_json_ok(j: JsonData) -> bool {
    &&& obj_lookup(j, "R"@) matches Some(JsonData::Int(_))
    &&& obj_lookup(j, "D"@) matches Some(dj) && user_details_json_ok(dj)
}

/// Reads a login confirmation.
pub fn decode_app_login(j: &JsonValue) -> (r: Option<AppLogin>)
    ensures
        match r {
            Some(x) => app_login_matches(x, j@),
            None => !app_login_json_ok(j@),
        },
{
    match j {
        JsonValue::Obj(members) => {
            proof {
                lemma_obj_view(*j);
            }
            let error = match get_i64(members, "R") {
                Some(n) => n,
                None => {
                    return None;
                },
            };
            let details_value = match obj_get(members, "D") {
                Some(v) => v,
                None => {
                    return None;
                },
            };
            let details = match decode_user_details(details_value) {
                Some(d) => d,
                None => {
                    return None;
                },
            };
            Some(AppLogin { error, details })
        },
        _ => None,
    }
}

// ---------------------------------------------------------------------
// Backtest results
// ---------------------------------------------------------------------

/// Whether `ps` is the reading of the members `ms` as a map of strings.
pub open spec fn string_pairs_match(ps: Seq<(String, String)>, ms: Seq<JsonMemberData>) -> bool {
    ps.len() == ms.len() && forall|i: int|
        0 <= i < ps.len() ==> (#[trigger] ps[i]).0@ == ms[i].key && JsonData::Str(ps[i].1@)
            == ms[i].value
}

/// Whether every member of `ms` carries a string.
pub open spec fn string_pairs_json_ok(ms: Seq<JsonMemberData>) -> bool {
    forall|i: int| 0 <= i < ms.len() ==> (#[trigger] ms[i]).value is Str
}

/// Reads an object as a list of key/string pairs, in wire order.
pub fn decode_string_pairs(members: &Vec<JsonMember>) -> (r: Option<Vec<(String, String)>>)
    ensures
        match r {
            Some(ps) => string_pairs_match(ps@, members_view(members@)),
            None => !string_pairs_json_ok(members_view(members@)),
        },
{
    let mut out: Vec<(String, String)> = Vec::new();
    let mut i: usize = 0;
    while i < members.len()
        invariant
            i <= members@.len(),
            out@.len() == i,
            forall|k: int|
                0 <= k < i ==> (#[trigger] out@[k]).0@ == members_view(members@)[k].key
                    && JsonData::Str(out@[k].1@) == members_view(members@)[k].value,
        decreases members@.len() - i,
    {
        match &members[i].value {
            JsonValue::Str(s) => out.push((members[i].key.clone(), s.clone())),
            _ => {
                proof {
                    assert(!(members_view(members@)[i as int].value is Str));
                }
                return None;
            },
        }
        i += 1;
    }
    Some(out)
}

/// Whether `ps` is the reading of the members `ms` as a map of numbers.
pub open spec fn float_pairs_match(ps: Seq<(String, FloatText)>, ms: Seq<JsonMemberData>) -> bool {
    ps.len() == ms.len() && forall|i: int|
        0 <= i < ps.len() ==> (#[trigger] ps[i]).0@ == ms[i].key && JsonData::Float(ps[i].1.0@)
            == ms[i].value
}

/// Whether every member of `ms` carries a fractional number.
pub open spec fn float_pairs_json_ok(ms: Seq<JsonMemberData>) -> bool {
    forall|i: int| 0 <= i < ms.len() ==> (#[trigger] ms[i]).value is Float
}

/// Reads an object as a list of key/number pairs, in wire order.
pub fn decode_float_pairs(members: &Vec<JsonMember>) -> (r: Option<Vec<(String, FloatText)>>)
    ensures
        match r {
            Some(ps) => float_pairs_match(ps@, members_view(members@)),
            None => !float_pairs_json_ok(members_view(members@)),
        },
{
    let mut out: Vec<(String, FloatText)> = Vec::new();
    let mut i: usize = 0;
    while i < members.len()
        invariant
            i <= members@.len(),
            out@.len() == i,
            forall|k: int|
                0 <= k < i ==> (#[trigger] out@[k]).0@ == members_view(members@)[k].key
                    && JsonData::Float(out@[k].1.0@) == members_view(members@)[k].value,
        decreases members@.len() - i,
    {
        match &members[i].value {
            JsonValue::Float(ft) => out.push((members[i].key.clone(), FloatText(ft.clone()))),
            _ => {
                proof {
                    assert(!(members_view(members@)[i as int].value is Float));
                }
                return None;
            },
        }
        i += 1;
    }
    Some(out)
}

/// Whether `fs` is the reading of the number documents `js`.
pub open spec fn floats_match(fs: Seq<FloatText>, js: Seq<JsonData>) -> bool {
    fs.len() == js.len() && forall|i: int|
        0 <= i < fs.len() ==> JsonData::Float((#[trigger] fs[i]).0@) == js[i]
}

/// Whether every document of `js` is a fractional number.
pub open spec fn floats_json_ok(js: Seq<JsonData>) -> bool {
    forall|i: int| 0 <= i < js.len() ==> (#[trigger] js[i]) is Float
}

/// Reads a list of fractional numbers.
pub fn decode_floats(items: &Vec<JsonValue>) -> (r: Option<Vec<FloatText>>)
    ensures
        match r {
            Some(fs) => floats_match(fs@, elements_view(items@)),
            None => !floats_json_ok(elements_view(items@)),
        },
{
    let mut out: Vec<FloatText> = Vec::new();
    let mut i: usize = 0;
    while i < items.len()
        invariant
            i <= items@.len(),
            out@.len() == i,
            forall|k: int|
                0 <= k < i ==> JsonData::Float((#[trigger] out@[k]).0@) == elements_view(items@)[k],
        decreases items@.len() - i,
    {
        match &items[i] {
            JsonValue::Float(ft) => out.push(FloatText(ft.clone())),
            _ => {
                proof {
                    assert(!(elements_view(items@)[i as int] is Float));
                }
                return None;
            },
        }
        i += 1;
    }
    Some(out)
}

/// Whether `x` is a reading of a backtest-summary document `j`.  The
/// custom report itself is read by the caller-chosen implementation, of
/// which nothing further can be said here.
pub open spec fn summary_matches<T: CustomReport>(
    x: UserLabsBacktestSummary<T>,
    j: JsonData,
) -> bool {
    &&& obj_lookup(j, "O"@) == Some(JsonData::Int(x.o))
    &&& obj_lookup(j, "T"@) == Some(JsonData::Int(x.t))
    &&& obj_lookup(j, "P"@) == Some(JsonData::Int(x.p))
    &&& obj_lookup(j, "FC"@) matches Some(JsonData::Obj(ms)) && float_pairs_match(x.fc@, ms)
    &&& obj_lookup(j, "RP"@) matches Some(JsonData::Obj(ms)) && float_pairs_match(x.rp@, ms)
    &&& obj_lookup(j, "ROI"@) matches Some(JsonData::Arr(js)) && floats_match(x.roi@, js)
    &&& obj_lookup(j, "CR"@) matches Some(crj) && obj_lookup(crj, "Custom Report"@) is Some
}

/// Reads a backtest summary.
///
/// Besides a malformed document, decoding also fails when the chosen
/// `CustomReport` implementation refuses the report document.
pub fn decode_summary<T: CustomReport>(j: &JsonValue) -> (r: Option<UserLabsBacktestSummary<T>>)
    ensures
        r matches Some(x) ==> summary_matches(x, j@),
{
    match j {
        JsonValue::Obj(members) => {
            proof {
                lemma_obj_view(*j);
            }
            let o = match get_i64(members, "O") {
                Some(n) => n,
                None => {
                    return None;
                },
            };
            let t = match get_i64(members, "T") {
                Some(n) => n,
                None => {
                    return None;
                },
            };
            let p = match get_i64(members, "P") {
                Some(n) => n,
                None => {
                    return None;
                },
            };
            let fc_value = match obj_get(members, "FC") {
                Some(v) => v,
                None => {
                    return None;
                },
            };
            let fc = match fc_value {
                JsonValue::Obj(ms) => {
                    proof {
                        lemma_obj_view(*fc_value);
                    }
                    match decode_float_pairs(ms) {
                        Some(ps) => ps,
                        None => {
                            return None;
                        },
                    }
                },
                _ => {
                    return None;
                },
            };
            let rp_value = match obj_get(members, "RP") {
                Some(v) => v,
                None => {
                    return None;
                },
            };
            let rp = match rp_value {
                JsonValue::Obj(ms) => {
                    proof {
                        lemma_obj_view(*rp_value);
                    }
                    match decode_float_pairs(ms) {
                        Some(ps) => ps,
                        None => {
                            return None;
                        },
                    }
                },
                _ => {
                    return None;
                },
            };
            let roi_value = match obj_get(members, "ROI") {
                Some(v) => v,
                None => {
                    return None;
                },
            };
            let roi = match roi_value {
                JsonValue::Arr(items) => {
                    proof {
                        lemma_arr_view(*roi_value);
                    }
                    match decode_floats(items) {
                        Some(fs) => fs,
                        None => {
                            return None;
                        },
                    }
                },
                _ => {
                    return None;
                },
            };
            let report_value = match obj_get(members, "CR") {
                Some(v) => v,
                None => {
                    return None;
                },
            };
            let report_inner = match report_value {
                JsonValue::Obj(ms) => {
                    proof {
                        lemma_obj_view(*report_value);
                    }
                    match obj_get(ms, "Custom Report") {
                        Some(v) => v,
                        None => {
                            return None;
                        },
                    }
                },
                _ => {
                    return None;
                },
            };
            let data = match T::report_from_json(report_inner) {
                Some(d) => d,
                None => {
                    return None;
                },
            };
            let custom_report = CustomReportWrapper { data };
            Some(UserLabsBacktestSummary { o, t, p, fc, rp, roi, custom_report })
        },
        _ => None,
    }
}

/// Whether `x` is a reading of a backtest-result document `j`.
pub open spec fn backtest_result_matches<T: CustomReport>(
    x: UserLabBacktestResult<T>,
    j: JsonData,
) -> bool {
    &&& obj_lookup(j, "RID"@) == Some(JsonData::Int(x.record_id))
    &&& obj_lookup(j, "UID"@) == Some(JsonData::Str(x.user_id@))
    &&& obj_lookup(j, "LID"@) == Some(JsonData::Str(x.lab_id@))
    &&& obj_lookup(j, "BID"@) == Some(JsonData::Str(x.backtest_id@))
    &&& obj_lookup(j, "NG"@) == Some(JsonData::Int(x.generation_idx))
    &&& obj_lookup(j, "NP"@) == Some(JsonData::Int(x.population_idx))
    &&& obj_lookup(j, "ST"@) == Some(JsonData::Int(x.status))
    &&& obj_lookup(j, "SE"@) matches Some(sj) && settings_matches(x.settings, sj)
    &&& obj_lookup(j, "P"@) matches Some(JsonData::Obj(ms)) && string_pairs_match(
        x.parameters@,
        ms,
    )
    &&& obj_lookup(j, "RT"@) == Some(x.runtime@)
    &&& obj_lookup(j, "C"@) == Some(x.chart@)
    &&& obj_lookup(j, "L"@) == Some(x.logs@)
    &&& obj_lookup(j, "S"@) matches Some(sj) && summary_matches(x.summary, sj)
}

/// Reads one backtest result.
pub fn decode_backtest_result<T: CustomReport>(j: &JsonValue) -> (r: Option<
    UserLabBacktestResult<T>,
>)
    ensures
        r matches Some(x) ==> backtest_result_matches(x, j@),
{
    match j {
        JsonValue::Obj(members) => {
            proof {
                lemma_obj_view(*j);
            }
            let record_id = match get_i64(members, "RID") {
                Some(n) => n,
                None => {
                    return None;
                },
            };
            let user_id = match get_string(members, "UID") {
                Some(s) => s,
                None => {
                    return None;
                },
            };
            let lab_id = match get_string(members, "LID") {
                Some(s) => s,
                None => {
                    return None;
                },
            };
            let backtest_id = match get_string(members, "BID") {
                Some(s) => s,
                None => {
                    return None;
                },
            };
            let generation_idx = match get_i64(members, "NG") {
                Some(n) => n,
                None => {
                    return None;
                },
            };
            let population_idx = match get_i64(members, "NP") {
                Some(n) => n,
                None => {
                    return None;
                },
            };
            let status = match get_i64(members, "ST") {
                Some(n) => n,
                None => {
                    return None;
                },
            };
            let settings_value = match obj_get(members, "SE") {
                Some(v) => v,
                None => {
                    return None;
                },
            };
            let settings = match decode_settings(settings_value) {
                Some(s) => s,
                None => {
                    return None;
                },
            };
            let parameters_value = match obj_get(members, "P") {
                Some(v) => v,
                None => {
                    return None;
                },
            };
            let parameters = match parameters_value {
                JsonValue::Obj(ms) => {
                    proof {
                        lemma_obj_view(*parameters_value);
                    }
                    match decode_string_pairs(ms) {
                        Some(ps) => ps,
                        None => {
                            return None;
                        },
                    }
                },
                _ => {
                    return None;
                },
            };
            let runtime = match get_value(members, "RT") {
                Some(v) => v,
                None => {
                    return None;
                },
            };
            let chart = match get_value(members, "C") {
                Some(v) => v,
                None => {
                    return None;
                },
            };
            let logs = match get_value(members, "L") {
                Some(v) => v,
                None => {
                    return None;
                },
            };
            let summary_value = match obj_get(members, "S") {
                Some(v) => v,
                None => {
                    return None;
                },
            };
            let summary = match decode_summary::<T>(summary_value) {
                Some(s) => s,
                None => {
                    return None;
                },
            };
            Some(
                UserLabBacktestResult {
                    record_id,
                    user_id,
                    lab_id,
                    backtest_id,
                    generation_idx,
                    population_idx,
                    status,
                    settings,
                    parameters,
                    runtime,
                    chart,
                    logs,
                    summary,
                },
            )
        },
        _ => None,
    }
}

/// Whether `xs` is the reading of the backtest-result documents `js`.
pub open spec fn backtest_results_match<T: CustomReport>(
    xs: Seq<UserLabBacktestResult<T>>,
    js: Seq<JsonData>,
) -> bool {
    xs.len() == js.len() && forall|i: int|
        0 <= i < xs.len() ==> backtest_result_matches(#[trigger] xs[i], js[i])
}

/// Whether `x` is a reading of a backtest result page `j`.
pub open spec fn backtest_page_matches<T: CustomReport>(
    x: PaginatedResponse<UserLabBacktestResult<T>>,
    j: JsonData,
) -> bool {
    &&& obj_lookup(j, "I"@) matches Some(JsonData::Arr(js)) && backtest_results_match(x.items@, js)
    &&& obj_lookup(j, "NP"@) == Some(JsonData::Int(x.next_page_id))
}

/// Reads one page of backtest results.
pub fn decode_backtest_page<T: CustomReport>(j: &JsonValue) -> (r: Option<
    PaginatedResponse<UserLabBacktestResult<T>>,
>)
    ensures
        r matches Some(x) ==> backtest_page_matches(x, j@),
{
    match j {
        JsonValue::Obj(members) => {
            proof {
                lemma_obj_view(*j);
            }
            let items_value = match obj_get(members, "I") {
                Some(v) => v,
                None => {
                    return None;
                },
            };
            let items = match items_value {
                JsonValue::Arr(raw_items) => {
                    proof {
                        lemma_arr_view(*items_value);
                    }
                    let mut out: Vec<UserLabBacktestResult<T>> = Vec::new();
                    let mut i: usize = 0;
                    while i < raw_items.len()
                        invariant
                            i <= raw_items@.len(),
                            out@.len() == i,
                            forall|k: int|
                                0 <= k < i ==> backtest_result_matches(
                                    #[trigger] out@[k],
                                    elements_view(raw_items@)[k],
                                ),
                        decreases raw_items@.len() - i,
                    {
                        match decode_backtest_result::<T>(&raw_items[i]) {
                            Some(x) => out.push(x),
                            None => {
                                return None;
                            },
                        }
                        i += 1;
                    }
                    out
                },
                _ => {
                    return None;
                },
            };
            let next_page_id = match get_i64(members, "NP") {
                Some(n) => n,
                None => {
                    return None;
                },
            };
            Some(PaginatedResponse { items, next_page_id })
        },
        _ => None,
    }
}


/// The wire form of a market record.
pub open spec fn spec_market_json(m: CloudMarket) -> JsonData {
    JsonData::Obj(
        seq![
            JsonMemberData { key: "C"@, value: JsonData::Str(m.category@) },
            JsonMemberData { key: "PS"@, value: JsonData::Str(m.price_source@) },
            JsonMemberData { key: "P"@, value: JsonData::Str(m.primary@) },
            JsonMemberData { key: "S"@, value: JsonData::Str(m.secondary@) },
        ],
    )
}

/// Writes a market record.
pub fn encode_market(m: &CloudMarket) -> (r: JsonValue)
    ensures
        r@ == spec_market_json(*m),
{
    let mut ms: Vec<JsonMember> = Vec::new();
    ms.push(member("C", JsonValue::Str(m.category.clone())));
    ms.push(member("PS", JsonValue::Str(m.price_source.clone())));
    ms.push(member("P", JsonValue::Str(m.primary.clone())));
    ms.push(member("S", JsonValue::Str(m.secondary.clone())));
    let result = JsonValue::Obj(ms);
    proof {
        lemma_obj_view(result);
        assert(members_view(ms@) =~= spec_market_json(*m)->Obj_0);
    }
    result
}

/// The wire form of the settings sent along a script source edit.
pub open spec fn spec_edit_settings_json(s: EditHaasScriptSourceCodeSettings) -> JsonData {
    JsonData::Obj(
        seq![
            JsonMemberData { key: "market_tag"@, value: spec_market_json(s.market_tag) },
            JsonMemberData { key: "leverage"@, value: JsonData::Float(s.leverage.0@) },
            JsonMemberData { key: "position_mode"@, value: JsonData::Int(s.position_mode) },
            JsonMemberData { key: "trade_amount"@, value: JsonData::Float(s.trade_amount.0@) },
            JsonMemberData { key: "order_template"@, value: JsonData::Int(s.order_template) },
            JsonMemberData { key: "chart_style"@, value: JsonData::Int(s.chart_style) },
            JsonMemberData { key: "interval"@, value: JsonData::Int(s.interval as i64) },
            JsonMemberData {
                key: "script_parameters"@,
                value: spec_script_parameters_json(s.script_parameters),
            },
            JsonMemberData { key: "bot_name"@, value: JsonData::Str(s.bot_name@) },
            JsonMemberData { key: "bot_id"@, value: JsonData::Str(s.bot_id@) },
        ],
    )
}

/// Writes the settings sent along a script source edit.
pub fn encode_edit_settings(s: &EditHaasScriptSourceCodeSettings) -> (r: JsonValue)
    ensures
        r@ == spec_edit_settings_json(*s),
{
    let mut ms: Vec<JsonMember> = Vec::new();
    ms.push(member("market_tag", encode_market(&s.market_tag)));
    ms.push(member("leverage", JsonValue::Float(s.leverage.0.clone())));
    ms.push(member("position_mode", JsonValue::Int(s.position_mode)));
    ms.push(member("trade_amount", JsonValue::Float(s.trade_amount.0.clone())));
    ms.push(member("order_template", JsonValue::Int(s.order_template)));
    ms.push(member("chart_style", JsonValue::Int(s.chart_style)));
    ms.push(member("interval", JsonValue::Int(s.interval as i64)));
    let empty_parameters = JsonValue::Obj(Vec::new());
    proof {
        lemma_obj_view(empty_parameters);
        assert(members_view(empty_parameters->Obj_0@) =~= Seq::<JsonMemberData>::empty());
    }
    ms.push(member("script_parameters", empty_parameters));
    ms.push(member("bot_name", JsonValue::Str(s.bot_name.clone())));
    ms.push(member("bot_id", JsonValue::Str(s.bot_id.clone())));
    let result = JsonValue::Obj(ms);
    proof {
        lemma_obj_view(result);
        assert(members_view(ms@) =~= spec_edit_settings_json(*s)->Obj_0);
    }
    result
}


/// Whether `xs` is the reading of the script-item documents `js`.
pub open spec fn script_items_match(
    xs: Seq<HaasScriptItemWithDependencies>,
    js: Seq<JsonData>,
) -> bool {
    xs.len() == js.len() && forall|i: int|
        0 <= i < xs.len() ==> script_item_matches(#[trigger] xs[i], js[i])
}

/// Whether every document of `js` is a readable script item.
pub open spec fn script_items_json_ok(js: Seq<JsonData>) -> bool {
    forall|i: int| 0 <= i < js.len() ==> script_item_json_ok(#[trigger] js[i])
}

/// Reads a whole list of script items; fails if any element is
/// unreadable.
pub fn decode_script_items(items: &Vec<JsonValue>) -> (r: Option<
    Vec<HaasScriptItemWithDependencies>,
>)
    ensures
        match r {
            Some(xs) => script_items_match(xs@, elements_view(items@)),
            None => !script_items_json_ok(elements_view(items@)),
        },
{
    let mut out: Vec<HaasScriptItemWithDependencies> = Vec::new();
    let mut i: usize = 0;
    while i < items.len()
        invariant
            i <= items@.len(),
            out@.len() == i,
            forall|k: int|
                0 <= k < i ==> script_item_matches(#[trigger] out@[k], elements_view(items@)[k]),
        decreases items@.len() - i,
    {
        match decode_script_item(&items[i]) {
            Some(x) => out.push(x),
            None => {
                proof {
                    assert(!script_item_json_ok(elements_view(items@)[i as int]));
                }
                return None;
            },
        }
        i += 1;
    }
    Some(out)
}

} // verus!
