//! Lab orchestration: patching script parameters, starting a backtest,
//! polling until it reaches a terminal status, and fetching its results.

use vstd::prelude::*;
use vstd::string::*;
use crate::api::Authenticated;
use crate::api::Executor;
use crate::api::get_backtest_result;
use crate::api::get_lab_details;
use crate::api::start_lab_execution;
use crate::domain::BacktestPeriod;
use crate::domain::spec_period_secs;
use crate::error::Error;
use crate::model::CustomReport;
use crate::model::PaginatedResponse;
use crate::model::StartLabExecutionRequest;
use crate::model::UserLabBacktestResult;
use crate::model::UserLabParameter;
use crate::model::UserLabParameterOption;
use crate::model::clone_options;
use crate::strutil::bool_rep;
use crate::strutil::dec_rep_signed;
use crate::strutil::is_substring;
use crate::strutil::str_contains;
use crate::strutil::i64_to_string;
use crate::trusted::lower_of;
use crate::trusted::to_lowercase;

verus! {

/// The query-text spelling of one option.
pub open spec fn spec_option_text(o: UserLabParameterOption) -> Seq<char> {
    match o {
        UserLabParameterOption::Digit(n) => dec_rep_signed(n as int),
        UserLabParameterOption::Float(t) => t.0@,
        UserLabParameterOption::Bool(b) => bool_rep(b),
        UserLabParameterOption::String(s) => s@,
    }
}

impl UserLabParameterOption {
    /// The option spelled as plain text: integers and booleans in
    /// their decimal and `true`/`false` forms, fractional numbers by
    /// their wire text, strings as they are.
    pub fn into_text(self) -> (r: String)
        ensures
            r@ == spec_option_text(self),
    {
        match self {
            UserLabParameterOption::Digit(n) => i64_to_string(n),
            UserLabParameterOption::Float(t) => t.0,
            UserLabParameterOption::Bool(b) => {
                let mut out = String::new();
                crate::strutil::push_bool(&mut out, b);
                proof {
                    assert(out@ =~= bool_rep(b));
                }
                out
            },
            UserLabParameterOption::String(s) => s,
        }
    }
}

impl From<i64> for UserLabParameterOption {
    /// An integer literal becomes a `Digit` option.
    fn from(val: i64) -> (r: Self)
        ensures
            r == UserLabParameterOption::Digit(val),
    {
        UserLabParameterOption::Digit(val)
    }
}

impl vstd::std_specs::convert::FromSpecImpl<i64> for UserLabParameterOption {
    open spec fn obeys_from_spec() -> bool {
        true
    }

    open spec fn from_spec(val: i64) -> UserLabParameterOption {
        UserLabParameterOption::Digit(val)
    }
}

impl From<String> for UserLabParameterOption {
    /// A string becomes a `String` option.
    fn from(val: String) -> (r: Self)
        ensures
            r == UserLabParameterOption::String(val),
    {
        UserLabParameterOption::String(val)
    }
}

impl vstd::std_specs::convert::FromSpecImpl<String> for UserLabParameterOption {
    open spec fn obeys_from_spec() -> bool {
        true
    }

    open spec fn from_spec(val: String) -> UserLabParameterOption {
        UserLabParameterOption::String(val)
    }
}

/// A request to replace the option list of one script parameter,
/// naming its target by a case-insensitive fragment of the key.
pub struct ChangeHaasScriptParameterRequest {
    pub name: String,
    pub options: Vec<UserLabParameterOption>,
}

impl ChangeHaasScriptParameterRequest {
    /// A request carrying the given target name and options.
    pub fn new(name: String, options: Vec<UserLabParameterOption>) -> (r:
        ChangeHaasScriptParameterRequest)
        ensures
            r.name == name,
            r.options == options,
    {
        ChangeHaasScriptParameterRequest { name, options }
    }
}

/// Whether a parameter key is a target for a request name: the lowered
/// name occurs inside the lowered key.
pub open spec fn key_is_target(key: Seq<char>, name: Seq<char>) -> bool {
    is_substring(lower_of(name), lower_of(key))
}

/// The mathematical form of a script parameter: its fields, with the
/// option list as a sequence.
pub ghost struct ParamView {
    pub key: String,
    pub input_field_type: i64,
    pub options: Seq<UserLabParameterOption>,
    pub is_enabled: bool,
    pub is_specific: bool,
}

impl View for UserLabParameter {
    type V = ParamView;

    open spec fn view(&self) -> ParamView {
        ParamView {
            key: self.key,
            input_field_type: self.input_field_type,
            options: self.options@,
            is_enabled: self.is_enabled,
            is_specific: self.is_specific,
        }
    }
}

/// The views of a run of parameters.
pub open spec fn param_views(s: Seq<UserLabParameter>) -> Seq<ParamView> {
    Seq::new(s.len(), |i: int| s[i]@)
}

/// Whether any parameter of `settings` is a target for `name`.
pub open spec fn has_target(settings: Seq<ParamView>, name: Seq<char>) -> bool {
    exists|i: int| 0 <= i < settings.len() && key_is_target(#[trigger] settings[i].key@, name)
}

/// The first index of `settings` whose key is a target for `name`.
pub open spec fn first_target(settings: Seq<ParamView>, name: Seq<char>) -> int
    decreases settings.len(),
{
    if settings.len() == 0 {
        0
    } else if key_is_target(settings[0].key@, name) {
        0
    } else {
        1 + first_target(settings.drop_first(), name)
    }
}

/// The parameter `p` with its option list replaced.
pub open spec fn with_options(p: ParamView, options: Seq<UserLabParameterOption>) -> ParamView {
    ParamView {
        key: p.key,
        input_field_type: p.input_field_type,
        options: options,
        is_enabled: p.is_enabled,
        is_specific: p.is_specific,
    }
}

/// One request applied to a parameter list: the first target's options
/// are replaced wholesale, or nothing happens when no key is a target.
pub open spec fn apply_request(
    settings: Seq<ParamView>,
    req: ChangeHaasScriptParameterRequest,
) -> Option<Seq<ParamView>> {
    if has_target(settings, req.name@) {
        let i = first_target(settings, req.name@);
        Some(settings.update(i, with_options(settings[i], req.options@)))
    } else {
        None
    }
}

/// A run of requests applied left to right; the first request without
/// a target stops the run.
pub open spec fn apply_requests(
    settings: Seq<ParamView>,
    reqs: Seq<ChangeHaasScriptParameterRequest>,
) -> Option<Seq<ParamView>>
    decreases reqs.len(),
{
    if reqs.len() == 0 {
        Some(settings)
    } else {
        match apply_request(settings, reqs[0]) {
            Some(patched) => apply_requests(patched, reqs.drop_first()),
            None => None,
        }
    }
}

/// A matching index with no match before it is the first target.
proof fn lemma_first_target(settings: Seq<ParamView>, name: Seq<char>, i: int)
    requires
        0 <= i < settings.len(),
        key_is_target(settings[i].key@, name),
        forall|k: int| 0 <= k < i ==> !key_is_target(#[trigger] settings[k].key@, name),
    ensures
        has_target(settings, name),
        first_target(settings, name) == i,
    decreases i,
{
    if i > 0 {
        lemma_first_target(settings.drop_first(), name, i - 1);
    }
}

/// A failing prefix dooms the whole run of requests.
proof fn lemma_apply_requests_fail(
    settings: Seq<ParamView>,
    reqs: Seq<ChangeHaasScriptParameterRequest>,
    k: int,
)
    requires
        0 <= k < reqs.len(),
        apply_requests(settings, reqs.take(k)) matches Some(patched) && !has_target(
            patched,
            reqs[k].name@,
        ),
    ensures
        apply_requests(settings, reqs) is None,
    decreases k,
{
    reveal_with_fuel(apply_requests, 3);
    if k == 0 {
        assert(reqs.take(0) =~= Seq::empty());
    } else {
        assert(reqs.take(k)[0] == reqs[0]);
        assert(reqs.take(k).drop_first() =~= reqs.drop_first().take(k - 1));
        match apply_request(settings, reqs[0]) {
            Some(patched) => {
                lemma_apply_requests_fail(patched, reqs.drop_first(), k - 1);
            },
            None => {
            },
        }
    }
}

/// Replaces the option lists of the parameters that the requests name.
///
/// For each request in turn, the first parameter whose lowered key
/// contains the lowered request name has its options replaced
/// wholesale; requests are applied in order, and the first request
/// that names no parameter stops the run with a `Lab` error naming it,
/// leaving the earlier replacements in place.
pub fn update_params(
    settings: &mut Vec<UserLabParameter>,
    params: &Vec<ChangeHaasScriptParameterRequest>,
) -> (r: Result<(), Error>)
    ensures
        match r {
            Ok(()) => apply_requests(param_views(old(settings)@), params@) == Some(
                param_views(final(settings)@),
            ),
            Err(Error::Lab(msg)) => {
                &&& apply_requests(param_views(old(settings)@), params@) is None
                &&& exists|k: int|
                    {
                        &&& 0 <= k < params@.len()
                        &&& apply_requests(param_views(old(settings)@), params@.take(k)) == Some(
                            param_views(final(settings)@),
                        )
                        &&& !has_target(param_views(final(settings)@), (#[trigger] params@[k]).name@)
                        &&& msg@ == "Failed to find "@ + params@[k].name@ + " in settings"@
                    }
            },
            Err(_) => false,
        },
{
    let mut p: usize = 0;
    while p < params.len()
        invariant
            p <= params@.len(),
            apply_requests(param_views(old(settings)@), params@.take(p as int)) == Some(
                param_views(settings@),
            ),
        decreases params@.len() - p,
    {
        let request = &params[p];
        let lowered_name = to_lowercase(request.name.as_str());
        let mut i: usize = 0;
        let mut found: Option<usize> = None;
        while i < settings.len() && found.is_none()
            invariant
                i <= settings@.len(),
                lowered_name@ == lower_of(request.name@),
                match found {
                    Some(idx) => {
                        &&& idx < settings@.len()
                        &&& idx == i
                        &&& key_is_target(param_views(settings@)[idx as int].key@, request.name@)
                        &&& forall|k: int|
                            0 <= k < idx ==> !key_is_target(
                                (#[trigger] param_views(settings@)[k]).key@,
                                request.name@,
                            )
                    },
                    None => forall|k: int|
                        0 <= k < i ==> !key_is_target(
                            (#[trigger] param_views(settings@)[k]).key@,
                            request.name@,
                        ),
                },
            decreases settings@.len() - i + (if found is None {
                1int
            } else {
                0int
            }),
        {
            let lowered_key = to_lowercase(settings[i].key.as_str());
            if str_contains(lowered_key.as_str(), lowered_name.as_str()) {
                proof {
                    assert(param_views(settings@)[i as int] == settings@[i as int]@);
                    assert(key_is_target(settings@[i as int].key@, request.name@));
                }
                found = Some(i);
            } else {
                proof {
                    assert(param_views(settings@)[i as int] == settings@[i as int]@);
                    assert(!key_is_target(settings@[i as int].key@, request.name@));
                }
                i += 1;
            }
        }
        match found {
            Some(idx) => {
                proof {
                    lemma_first_target(param_views(settings@), request.name@, idx as int);
                }
                let ghost before = param_views(settings@);
                settings[idx].options = clone_options(&request.options);
                proof {
                    assert(param_views(settings@) =~= before.update(
                        idx as int,
                        with_options(before[idx as int], request.options@),
                    ));
                    assert(params@.take(p + 1).drop_last() =~= params@.take(p as int));
                    assert(params@.take(p + 1).last() == params@[p as int]);
                    lemma_apply_requests_step(param_views(old(settings)@), params@, p as int,
                        param_views(settings@));
                }
            },
            None => {
                proof {
                    assert(!has_target(param_views(settings@), request.name@));
                    lemma_apply_requests_fail_from_prefix(param_views(old(settings)@), params@,
                        p as int, param_views(settings@));
                }
                let mut msg = String::from_str("Failed to find ");
                msg.append(request.name.as_str());
                msg.append(" in settings");
                proof {
                    assert(msg@ =~= "Failed to find "@ + request.name@ + " in settings"@);
                }
                return Err(Error::Lab(msg));
            },
        }
        p += 1;
    }
    proof {
        assert(params@.take(params@.len() as int) =~= params@);
    }
    Ok(())
}

/// Applying one more request extends a successful prefix.
proof fn lemma_apply_requests_step(
    settings: Seq<ParamView>,
    reqs: Seq<ChangeHaasScriptParameterRequest>,
    k: int,
    patched: Seq<ParamView>,
)
    requires
        0 <= k < reqs.len(),
        apply_requests(settings, reqs.take(k)) matches Some(prefix) && apply_request(
            prefix,
            reqs[k],
        ) == Some(patched),
    ensures
        apply_requests(settings, reqs.take(k + 1)) == Some(patched),
    decreases k,
{
    reveal_with_fuel(apply_requests, 3);
    if k == 0 {
        assert(reqs.take(0) =~= Seq::empty());
        assert(reqs.take(1) =~= seq![reqs[0]]);
        assert(reqs.take(1).drop_first() =~= Seq::empty());
    } else {
        assert(reqs.take(k)[0] == reqs[0]);
        assert(reqs.take(k + 1)[0] == reqs[0]);
        assert(reqs.take(k).drop_first() =~= reqs.drop_first().take(k - 1));
        assert(reqs.take(k + 1).drop_first() =~= reqs.drop_first().take(k));
        match apply_request(settings, reqs[0]) {
            Some(next) => {
                lemma_apply_requests_step(next, reqs.drop_first(), k - 1, patched);
            },
            None => {
            },
        }
    }
}

/// A prefix that ends on a request without a target dooms the run.
proof fn lemma_apply_requests_fail_from_prefix(
    settings: Seq<ParamView>,
    reqs: Seq<ChangeHaasScriptParameterRequest>,
    k: int,
    prefix: Seq<ParamView>,
)
    requires
        0 <= k < reqs.len(),
        apply_requests(settings, reqs.take(k)) == Some(prefix),
        !has_target(prefix, reqs[k].name@),
    ensures
        apply_requests(settings, reqs) is None,
{
    lemma_apply_requests_fail(settings, reqs, k);
}

/// Starts a lab execution over the given period, waits for it to reach
/// a terminal status, and fetches up to one million result rows in a
/// single page.
pub fn execute<T: CustomReport, E: Executor<Authenticated>>(
    executor: &E,
    lab_id: &str,
    period: BacktestPeriod,
) -> (r: Result<PaginatedResponse<UserLabBacktestResult<T>>, Error>)
    requires
        spec_period_secs(period) <= u64::MAX,
{
    let req = StartLabExecutionRequest::new(lab_id, period, false);
    if let Err(e) = start_lab_execution(executor, req) {
        return Err(e);
    }
    if let Err(e) = wait_for_lab_execution(executor, lab_id) {
        return Err(e);
    }
    get_backtest_result::<T, E>(executor, lab_id, 0, 1000000)
}

/// Polls a lab's status until it completes or is cancelled.
///
/// Every fetched status other than `Completed` and `Cancelled` keeps
/// the loop going after the executor's waiting pause; only a transport
/// or decode failure ends it early.
pub fn wait_for_lab_execution<E: Executor<Authenticated>>(executor: &E, lab_id: &str) -> (r: Result<
    (),
    Error,
>) {
    wait_for_lab_execution_with_limit(executor, lab_id, u64::MAX)
}

/// Polls a lab's status until it completes or is cancelled, giving up
/// after `max_polls` fetches.
///
/// The limit bounds an otherwise endless wait on a service that never
/// reaches a terminal status; a caller that wants the unbounded
/// behaviour passes `u64::MAX`.  When the limit runs out the lab is
/// reported in a `Lab` error.
pub fn wait_for_lab_execution_with_limit<E: Executor<Authenticated>>(
    executor: &E,
    lab_id: &str,
    max_polls: u64,
) -> (r: Result<(), Error>) {
    let mut polls_left = max_polls;
    while polls_left > 0
        decreases polls_left,
    {
        let details = match get_lab_details(executor, lab_id) {
            Ok(d) => d,
            Err(e) => {
                return Err(e);
            },
        };
        if details.status.is_terminal() {
            return Ok(());
        }
        polls_left -= 1;
        if polls_left > 0 {
            executor.wait_before_retry();
        }
    }
    let mut msg = String::from_str("lab ");
    msg.append(lab_id);
    msg.append(" did not reach a terminal status");
    Err(Error::Lab(msg))
}

} // verus!
