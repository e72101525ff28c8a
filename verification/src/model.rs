//! The request and response records exchanged with the remote service.
//!
//! Every record mirrors one JSON shape of the wire protocol; the codecs
//! for these shapes live in [`crate::codec`].  Fractional numbers are
//! carried as their decimal wire text, since the verifier does not
//! reason about floating point.

use vstd::prelude::*;
use vstd::string::*;
use crate::domain::BacktestPeriod;
use crate::domain::spec_period_secs;
use crate::json::JsonValue;
use crate::trusted::unix_now;

verus! {

/// One fractional number, carried as its decimal wire text.
#[derive(Debug, PartialEq)]
pub struct FloatText(pub String);

impl Clone for FloatText {
    fn clone(&self) -> (r: Self)
        ensures
            r == *self,
    {
        FloatText(self.0.clone())
    }
}

/// The envelope wrapped around most responses of the remote service.
#[derive(Debug, PartialEq)]
pub struct ApiResponse<T> {
    pub success: bool,
    pub error: String,
    pub data: T,
}

/// The payload of a successful login confirmation.
#[derive(Debug, PartialEq)]
pub struct AppLogin {
    pub error: i64,
    pub details: UserDetails,
}

/// The account details inside a login confirmation.
#[derive(Debug, PartialEq)]
pub struct UserDetails {
    pub user_id: String,
    pub interface_secret: String,
    pub license_details: JsonValue,
}

/// A bot record of the remote service.
#[derive(Debug)]
pub struct HaasBot {
    pub user_id: String,
    pub bot_id: String,
    pub bot_name: String,
    pub script_id: String,
    pub script_version: i64,
    pub account_id: String,
    pub market: String,
    pub execution_id: String,
    pub is_activated: bool,
    pub is_paused: bool,
    pub is_favorite: bool,
    pub notes: String,
    pub script_note: String,
    pub notes_timestamp: i64,
    pub realized_profit: FloatText,
    pub urealized_profit: FloatText,
    pub return_on_investment: FloatText,
    pub trade_amount_error: bool,
    pub account_error: bool,
    pub script_error: bool,
    pub update_counter: i64,
    pub chart_interval: i64,
    pub chart_style: i64,
    pub chart_volume: bool,
    pub is_white_label: bool,
    pub master_bot_id: String,
    pub followers: i64,
}

/// A script record together with the scripts it depends on.
#[derive(Debug, Clone, PartialEq)]
pub struct HaasScriptItemWithDependencies {
    pub dependencies: Vec<String>,
    pub user_id: String,
    pub script_id: String,
    pub script_name: String,
    pub script_description: String,
    pub script_type: i64,
    pub script_status: i64,
    pub command_name: String,
    pub is_command: bool,
    pub is_valid: bool,
    pub created_unix: i64,
    pub updated_unix: i64,
    pub folder_id: i64,
}

/// What a new lab is created from.
#[derive(Clone, Copy, Debug)]
pub struct CreateLabRequest<'a> {
    pub script_id: &'a str,
    pub name: &'a str,
    pub account_id: &'a str,
    pub market: &'a str,
    pub interval: u32,
    pub style: HaasChartPricePlotStyle,
}

/// How a lab's price chart is plotted.
#[derive(Clone, Copy, Debug, PartialEq, Eq, Structural)]
pub enum HaasChartPricePlotStyle {
    CandleStick,
}

/// The wire code of a plot style.
pub open spec fn spec_plot_style_value(style: HaasChartPricePlotStyle) -> u32 {
    match style {
        HaasChartPricePlotStyle::CandleStick => 300,
    }
}

impl HaasChartPricePlotStyle {
    /// The numeric code the remote service uses for this style.
    pub fn value(&self) -> (r: u32)
        ensures
            r == spec_plot_style_value(*self),
    {
        match self {
            HaasChartPricePlotStyle::CandleStick => 300,
        }
    }
}

/// A trading account of the authenticated user.
#[derive(Debug, PartialEq)]
pub struct UserAccount {
    pub user_id: String,
    pub account_id: String,
    pub name: String,
    pub exchnage_code: String,
    pub exchange_type: i64,
    pub status: i64,
    pub is_simulated: bool,
    pub is_test_net: bool,
    pub is_public: bool,
    pub is_white_label: bool,
    pub position_mode: i64,
    pub margin_settings: JsonValue,
    pub version: i64,
}

/// Everything the remote service reports about one lab.
#[derive(Debug, PartialEq)]
pub struct UserLabDetails {
    pub user_lab_config: UserLabConfig,
    pub haas_script_settings: HaasScriptSettings,
    pub parameters: Vec<UserLabParameter>,
    pub user_id: String,
    pub lab_id: String,
    pub script_id: String,
    pub name: String,
    pub algorithm: i64,
    pub status: UserLabStatus,
    pub scheduled_backtests: i64,
    pub complete_backtests: i64,
    pub created_at: i64,
    pub updated_at: i64,
    pub started_at: i64,
    pub running_since: i64,
    pub start_unix: i64,
    pub end_unix: i64,
    pub send_email: bool,
    pub cancel_reason: JsonValue,
}

/// Where a lab stands in its execution, encoded 0 to 4 on the wire.
#[derive(Clone, Copy, Debug, PartialEq, Eq, Structural)]
pub enum UserLabStatus {
    Created,
    Queued,
    Running,
    Completed,
    Cancelled,
}

/// The wire code of a lab status.
pub open spec fn spec_status_code(s: UserLabStatus) -> i64 {
    match s {
        UserLabStatus::Created => 0,
        UserLabStatus::Queued => 1,
        UserLabStatus::Running => 2,
        UserLabStatus::Completed => 3,
        UserLabStatus::Cancelled => 4,
    }
}

/// The status a wire code stands for, if any.
pub open spec fn spec_status_of_code(code: i64) -> Option<UserLabStatus> {
    if code == 0 {
        Some(UserLabStatus::Created)
    } else if code == 1 {
        Some(UserLabStatus::Queued)
    } else if code == 2 {
        Some(UserLabStatus::Running)
    } else if code == 3 {
        Some(UserLabStatus::Completed)
    } else if code == 4 {
        Some(UserLabStatus::Cancelled)
    } else {
        None
    }
}

/// A lab is done when it has completed or was cancelled; every other
/// status means the run is still in progress.
pub open spec fn spec_is_terminal(s: UserLabStatus) -> bool {
    s == UserLabStatus::Completed || s == UserLabStatus::Cancelled
}

impl UserLabStatus {
    /// The numeric code the remote service uses for this status.
    pub fn code(&self) -> (r: i64)
        ensures
            r == spec_status_code(*self),
            spec_status_of_code(r) == Some(*self),
    {
        match self {
            UserLabStatus::Created => 0,
            UserLabStatus::Queued => 1,
            UserLabStatus::Running => 2,
            UserLabStatus::Completed => 3,
            UserLabStatus::Cancelled => 4,
        }
    }

    /// The status a wire code stands for, if it is a known one.
    pub fn from_code(code: i64) -> (r: Option<UserLabStatus>)
        ensures
            r == spec_status_of_code(code),
    {
        if code == 0 {
            Some(UserLabStatus::Created)
        } else if code == 1 {
            Some(UserLabStatus::Queued)
        } else if code == 2 {
            Some(UserLabStatus::Running)
        } else if code == 3 {
            Some(UserLabStatus::Completed)
        } else if code == 4 {
            Some(UserLabStatus::Cancelled)
        } else {
            None
        }
    }

    /// Whether this status ends the poll loop.
    pub fn is_terminal(&self) -> (r: bool)
        ensures
            r == spec_is_terminal(*self),
    {
        match self {
            UserLabStatus::Completed => true,
            UserLabStatus::Cancelled => true,
            _ => false,
        }
    }
}

/// The genetic-search configuration of a lab.
#[derive(Debug, Clone, PartialEq)]
pub struct UserLabConfig {
    pub max_population: i64,
    pub max_generations: i64,
    pub max_elites: i64,
    pub mix_rate: FloatText,
    pub adjust_rate: FloatText,
}

/// The script settings a lab runs with.
#[derive(Debug, Clone, PartialEq)]
pub struct HaasScriptSettings {
    pub bot_id: String,
    pub bot_name: String,
    pub account_id: String,
    pub market_tag: String,
    pub position_mode: i64,
    pub margin_mode: i64,
    pub leverage: FloatText,
    pub trade_amount: FloatText,
    pub interval: i64,
    pub chart_style: i64,
    pub order_template: i64,
    pub script_parameters: ScriptParameters,
}

/// The (always empty) script parameter object of the wire format.
#[derive(Debug, Clone, Copy, PartialEq, Eq, Structural)]
pub struct ScriptParameters {}

/// One tunable parameter of a lab's script.
#[derive(Debug, PartialEq)]
pub struct UserLabParameter {
    pub key: String,
    pub input_field_type: i64,
    pub options: Vec<UserLabParameterOption>,
    pub is_enabled: bool,
    pub is_specific: bool,
}

/// One value a lab parameter can take.
///
/// An untyped wire literal is tried as an integer first, then as a
/// fractional number, then as a boolean, and as a string last.
#[derive(Debug, PartialEq)]
pub enum UserLabParameterOption {
    String(String),
    Digit(i64),
    Float(FloatText),
    Bool(bool),
}

impl Clone for UserLabParameterOption {
    fn clone(&self) -> (r: Self)
        ensures
            r == *self,
    {
        match self {
            UserLabParameterOption::String(s) => UserLabParameterOption::String(s.clone()),
            UserLabParameterOption::Digit(n) => UserLabParameterOption::Digit(*n),
            UserLabParameterOption::Float(t) => UserLabParameterOption::Float(t.clone()),
            UserLabParameterOption::Bool(b) => UserLabParameterOption::Bool(*b),
        }
    }
}

/// A value-preserving copy of an option list.
pub fn clone_options(options: &Vec<UserLabParameterOption>) -> (r: Vec<UserLabParameterOption>)
    ensures
        r@ == options@,
{
    let mut out: Vec<UserLabParameterOption> = Vec::new();
    let mut i: usize = 0;
    while i < options.len()
        invariant
            i <= options@.len(),
            out@ == options@.subrange(0, i as int),
        decreases options@.len() - i,
    {
        out.push(options[i].clone());
        proof {
            assert(out@ =~= options@.subrange(0, i + 1));
        }
        i += 1;
    }
    proof {
        assert(out@ =~= options@);
    }
    out
}

/// What starting a lab execution sends: the lab and the time window.
#[derive(Clone, Copy, Debug)]
pub struct StartLabExecutionRequest<'a> {
    pub lab_id: &'a str,
    pub start_unix: u64,
    pub end_unix: u64,
    pub send_email: bool,
}

impl<'a> StartLabExecutionRequest<'a> {
    /// The request for a window of the given period that ends 100
    /// seconds before `now`, with both bounds clamped at the epoch.
    pub fn new_at(lab_id: &'a str, now: u64, period: BacktestPeriod, send_email: bool) -> (r:
        StartLabExecutionRequest<'a>)
        requires
            spec_period_secs(period) <= u64::MAX,
        ensures
            r.lab_id@ == lab_id@,
            r.send_email == send_email,
            r.end_unix == if now >= 100 {
                now - 100
            } else {
                0
            },
            r.start_unix == if r.end_unix >= spec_period_secs(period) {
                r.end_unix - spec_period_secs(period)
            } else {
                0
            },
    {
        let end_unix = if now >= 100 {
            now - 100
        } else {
            0
        };
        let secs = period.as_secs();
        let start_unix = if end_unix >= secs {
            end_unix - secs
        } else {
            0
        };
        StartLabExecutionRequest { lab_id, start_unix, end_unix, send_email }
    }

    /// The request for a window of the given period that ends 100
    /// seconds before the clock's present reading.
    pub fn new(lab_id: &'a str, period: BacktestPeriod, send_email: bool) -> (r:
        StartLabExecutionRequest<'a>)
        requires
            spec_period_secs(period) <= u64::MAX,
        ensures
            r.lab_id@ == lab_id@,
            r.send_email == send_email,
            r.start_unix == if r.end_unix >= spec_period_secs(period) {
                r.end_unix - spec_period_secs(period)
            } else {
                0
            },
    {
        let now = unix_now();
        StartLabExecutionRequest::new_at(lab_id, now, period, send_email)
    }
}

/// One market a price source offers.
#[derive(Debug, Clone, PartialEq)]
pub struct CloudMarket {
    pub category: String,
    pub price_source: String,
    pub primary: String,
    pub secondary: String,
}

impl CloudMarket {
    /// The market in the service's tag form:
    /// `pricesource_primary_secondary_category`.
    pub fn as_market_tag(&self) -> (r: String)
        ensures
            r@ == self.price_source@ + "_"@ + self.primary@ + "_"@ + self.secondary@ + "_"@
                + self.category@,
    {
        let mut out = self.price_source.clone();
        out.append("_");
        out.append(self.primary.as_str());
        out.append("_");
        out.append(self.secondary.as_str());
        out.append("_");
        out.append(self.category.as_str());
        out
    }

    /// The market spelled for a reader:
    /// `pricesource primary/secondary (category)`.
    pub fn label(&self) -> (r: String)
        ensures
            r@ == self.price_source@ + " "@ + self.primary@ + "/"@ + self.secondary@ + " ("@
                + self.category@ + ")"@,
    {
        let mut out = self.price_source.clone();
        out.append(" ");
        out.append(self.primary.as_str());
        out.append("/");
        out.append(self.secondary.as_str());
        out.append(" (");
        out.append(self.category.as_str());
        out.append(")");
        out
    }
}

/// One page of a paginated result set.
#[derive(Debug, PartialEq)]
pub struct PaginatedResponse<T> {
    pub items: Vec<T>,
    pub next_page_id: i64,
}

/// One backtest of a lab run, with its settings and summary.
#[derive(Debug, PartialEq)]
pub struct UserLabBacktestResult<T: CustomReport> {
    pub record_id: i64,
    pub user_id: String,
    pub lab_id: String,
    pub backtest_id: String,
    pub generation_idx: i64,
    pub population_idx: i64,
    pub status: i64,
    pub settings: HaasScriptSettings,
    pub parameters: Vec<(String, String)>,
    pub runtime: JsonValue,
    pub chart: JsonValue,
    pub logs: JsonValue,
    pub summary: UserLabsBacktestSummary<T>,
}

/// The summary block of one backtest.
#[derive(Debug, PartialEq)]
pub struct UserLabsBacktestSummary<T: CustomReport> {
    pub o: i64,
    pub t: i64,
    pub p: i64,
    pub fc: Vec<(String, FloatText)>,
    pub rp: Vec<(String, FloatText)>,
    pub roi: Vec<FloatText>,
    pub custom_report: CustomReportWrapper<T>,
}

/// The wrapper object the wire format puts around a custom report.
#[derive(Debug, PartialEq)]
pub struct CustomReportWrapper<T> {
    pub data: T,
}

/// A caller-chosen report carried inside a backtest summary.
///
/// Implementors say how the report reads from its place in the wire
/// document; the raw document itself implements this trivially.
pub trait CustomReport: Sized {
    fn report_from_json(v: &JsonValue) -> Option<Self>;
}

impl CustomReport for JsonValue {
    /// The raw report: the wire document itself.
    fn report_from_json(v: &JsonValue) -> Option<Self> {
        Some(v.clone())
    }
}

/// What editing a script's source code sends along with the code.
#[derive(Debug)]
pub struct EditHaasScriptSourceCodeSettings {
    pub market_tag: CloudMarket,
    pub leverage: FloatText,
    pub position_mode: i64,
    pub trade_amount: FloatText,
    pub order_template: i64,
    pub chart_style: i64,
    pub interval: u32,
    pub script_parameters: ScriptParameters,
    pub bot_name: String,
    pub bot_id: String,
}

} // verus!
