//! What is sent to the service and what is made of its answers: the form of
//! each operation, the retry policy, and the reading of the envelope.

use vstd::prelude::*;
use vstd::arithmetic::power2::{lemma2_to64, pow2};
use vstd::bits::lemma_u64_shl_is_mul;
use crate::constants::{
    API_URL, HEADER_HOST, HEADER_ORIGIN, MAX_RETRIES, RETRY_BASE_MS, SUCCESS_CODE, UA_LIST,
};
use crate::models::{ApiResponse, ApiResponseView, OrderData, OrderDataView};
use crate::utils::{append_integer, plain_decimal};

verus! {

/// The text of candidate `i`.
pub open spec fn user_agent(i: int) -> Seq<char> {
    UA_LIST[i]@
}

/// The headers that every request carries, in the order in which they are set.
pub open spec fn header_table() -> Seq<(Seq<char>, Seq<char>)> {
    seq![
        ("accept"@, "*/*"@),
        ("accept-encoding"@, "gzip, deflate"@),
        ("accept-language"@, "en-US,en;q=0.9,zh-CN;q=0.8,zh;q=0.7"@),
        ("connection"@, "keep-alive"@),
        ("host"@, HEADER_HOST@),
        ("origin"@, HEADER_ORIGIN@),
        ("referer"@, API_URL@),
        ("content-type"@, "application/x-www-form-urlencoded; charset=UTF-8"@),
        ("x-requested-with"@, "XMLHttpRequest"@),
    ]
}

/// The headers that every request carries.
pub fn default_headers() -> (headers: Vec<(&'static str, &'static str)>)
    ensures
        headers.deep_view() == header_table(),
{
    let mut headers: Vec<(&'static str, &'static str)> = Vec::new();
    headers.push(("accept", "*/*"));
    headers.push(("accept-encoding", "gzip, deflate"));
    headers.push(("accept-language", "en-US,en;q=0.9,zh-CN;q=0.8,zh;q=0.7"));
    headers.push(("connection", "keep-alive"));
    headers.push(("host", HEADER_HOST));
    headers.push(("origin", HEADER_ORIGIN));
    headers.push(("referer", API_URL));
    headers.push(("content-type", "application/x-www-form-urlencoded; charset=UTF-8"));
    headers.push(("x-requested-with", "XMLHttpRequest"));
    assert(headers.deep_view() =~= header_table());
    headers
}

/// Calls rand's `IndexedRandom::choose` on the items with the thread's
/// generator, `rand::rng()`. The choice is random: the contract says only
/// that an empty list gives nothing and any other list one of its items.
#[verifier::external_body]
fn choose_text(items: &Vec<&'static str>) -> (chosen: Option<&'static str>)
    ensures
        match chosen {
            Some(text) => exists|i: int| 0 <= i < items.len() && (#[trigger] items[i])@ == text@,
            None => items.len() == 0,
        },
{
    rand::seq::IndexedRandom::choose(items.as_slice(), &mut rand::rng()).copied()
}

/// Picks the user agent of a new client: one of the candidates, at random.
pub fn pick_user_agent() -> (agent: &'static str)
    ensures
        exists|i: int| 0 <= i < 6 && agent@ == #[trigger] user_agent(i),
{
    let mut candidates: Vec<&'static str> = Vec::new();
    let mut i: usize = 0;
    while i < 6
        invariant
            i <= 6,
            candidates.len() == i,
            forall|j: int| 0 <= j < i ==> (#[trigger] candidates[j])@ == user_agent(j),
        decreases 6 - i,
    {
        candidates.push(UA_LIST[i]);
        i = i + 1;
    }
    let chosen = choose_text(&candidates);
    let agent = chosen.unwrap();
    proof {
        let k = choose|k: int| 0 <= k < candidates.len() && (#[trigger] candidates[k])@ == agent@;
        assert(agent@ == user_agent(k));
    }
    agent
}

/// The form of a request, as the characters of its names and values.
pub open spec fn form_of(fields: Vec<(String, String)>) -> Seq<(Seq<char>, Seq<char>)> {
    fields.deep_view()
}

fn field(name: &str, value: &str) -> (pair: (String, String))
    ensures
        pair.0@ == name@,
        pair.1@ == value@,
{
    (String::from_str(name), String::from_str(value))
}

/// The form that asks for an order.
pub fn order_form(order_id: &str) -> (fields: Vec<(String, String)>)
    ensures
        form_of(fields) == seq![("key"@, order_id@)],
{
    let mut fields: Vec<(String, String)> = Vec::new();
    fields.push(field("key", order_id));
    assert(form_of(fields) =~= seq![("key"@, order_id@)]);
    fields
}

fn setting_form(name: &str, value: &str, oid: &str, bnetpwd: &str) -> (fields: Vec<(String, String)>)
    ensures
        form_of(fields) == seq![(name@, value@), ("oid"@, oid@), ("bnetpwd"@, bnetpwd@)],
{
    let mut fields: Vec<(String, String)> = Vec::new();
    fields.push(field(name, value));
    fields.push(field("oid", oid));
    fields.push(field("bnetpwd", bnetpwd));
    assert(form_of(fields) =~= seq![(name@, value@), ("oid"@, oid@), ("bnetpwd"@, bnetpwd@)]);
    fields
}

/// The form that sets the battle mode of an order.
pub fn battle_mode_form(oid: &str, bnetpwd: &str, battlemode: &str) -> (fields: Vec<(String, String)>)
    ensures
        form_of(fields) == seq![("battlemode"@, battlemode@), ("oid"@, oid@), ("bnetpwd"@, bnetpwd@)],
{
    setting_form("battlemode", battlemode, oid, bnetpwd)
}

/// The form that sets the heroes of an order.
pub fn battle_heroes_form(oid: &str, bnetpwd: &str, battleheroes: &str) -> (fields: Vec<(String, String)>)
    ensures
        form_of(fields) == seq![
            ("battleheroes"@, battleheroes@),
            ("oid"@, oid@),
            ("bnetpwd"@, bnetpwd@),
        ],
{
    setting_form("battleheroes", battleheroes, oid, bnetpwd)
}

/// The form that sets whether rewards are claimed automatically.
pub fn auto_claim_form(oid: &str, bnetpwd: &str, auto: &str) -> (fields: Vec<(String, String)>)
    ensures
        form_of(fields) == seq![("auto"@, auto@), ("oid"@, oid@), ("bnetpwd"@, bnetpwd@)],
{
    setting_form("auto", auto, oid, bnetpwd)
}

/// How one attempt at a request ended.
#[derive(Clone, Copy, Debug, PartialEq, Eq)]
pub enum AttemptOutcome {
    /// The service answered with a success status.
    Answered,
    /// The request did not get through.
    TransportFailed,
    /// The service answered with an error status.
    StatusFailed,
}

/// Why a request was given up.
#[derive(Clone, Copy, Debug, PartialEq, Eq)]
pub enum FailureKind {
    Transport,
    Status,
}

/// What follows an attempt.
#[derive(Clone, Copy, Debug, PartialEq, Eq)]
pub enum NextStep {
    /// Read the answer.
    Deliver,
    /// Wait for so many milliseconds, then make the attempt of this number.
    Retry(u64, u32),
    /// Report the failure.
    GiveUp(FailureKind),
}

/// The delay before the retry that follows attempt number `attempt`, in
/// milliseconds: the base delay, doubled with every attempt before.
pub open spec fn backoff_ms(attempt: nat) -> nat {
    (RETRY_BASE_MS * pow2(attempt)) as nat
}

/// What follows attempt number `attempt`, counted from 0: an answer is
/// delivered; a failure is retried after the backoff delay while retries are
/// left, by the attempt of the next number, and reported after the last
/// attempt, without a delay.
pub open spec fn step_after(attempt: u32, outcome: AttemptOutcome) -> NextStep {
    match outcome {
        AttemptOutcome::Answered => NextStep::Deliver,
        AttemptOutcome::TransportFailed => if attempt < MAX_RETRIES {
            NextStep::Retry(backoff_ms(attempt as nat) as u64, (attempt + 1) as u32)
        } else {
            NextStep::GiveUp(FailureKind::Transport)
        },
        AttemptOutcome::StatusFailed => if attempt < MAX_RETRIES {
            NextStep::Retry(backoff_ms(attempt as nat) as u64, (attempt + 1) as u32)
        } else {
            NextStep::GiveUp(FailureKind::Status)
        },
    }
}

fn retry_delay_ms(attempt: u32) -> (ms: u64)
    requires
        attempt < MAX_RETRIES,
    ensures
        ms == backoff_ms(attempt as nat),
{
    proof {
        lemma2_to64();
        lemma_u64_shl_is_mul(1, attempt as u64);
    }
    let factor: u64 = 1u64 << attempt;
    RETRY_BASE_MS * factor
}

/// Decides what follows attempt number `attempt`, counted from 0.
pub fn next_step(attempt: u32, outcome: AttemptOutcome) -> (step: NextStep)
    ensures
        step == step_after(attempt, outcome),
{
    match outcome {
        AttemptOutcome::Answered => NextStep::Deliver,
        AttemptOutcome::TransportFailed => if attempt < MAX_RETRIES {
            NextStep::Retry(retry_delay_ms(attempt), attempt + 1)
        } else {
            NextStep::GiveUp(FailureKind::Transport)
        },
        AttemptOutcome::StatusFailed => if attempt < MAX_RETRIES {
            NextStep::Retry(retry_delay_ms(attempt), attempt + 1)
        } else {
            NextStep::GiveUp(FailureKind::Status)
        },
    }
}

/// Why a request came to nothing.
#[derive(Debug)]
pub enum RequestError {
    /// The request did not get through, retries included.
    Transport(String),
    /// The service kept answering with an error status.
    Status(String),
    /// The body of the answer could not be read.
    Body(String),
    /// The body of the answer is not the expected JSON.
    Decode(String),
}

impl RequestError {
    /// The error for a request that was given up, with the last failure's own words.
    pub fn given_up(kind: FailureKind, detail: String) -> (error: RequestError)
        ensures
            error == match kind {
                FailureKind::Transport => RequestError::Transport(detail),
                FailureKind::Status => RequestError::Status(detail),
            },
    {
        match kind {
            FailureKind::Transport => RequestError::Transport(detail),
            FailureKind::Status => RequestError::Status(detail),
        }
    }

    /// What the error is reported as.
    pub open spec fn message_text(self) -> Seq<char> {
        match self {
            RequestError::Transport(detail) => "网络请求失败: "@ + detail@,
            RequestError::Status(detail) => "请求超过最大重试次数: "@ + detail@,
            RequestError::Body(detail) => "读取响应失败 "@ + detail@,
            RequestError::Decode(detail) => "解析响应 JSON 失败 "@ + detail@,
        }
    }

    /// What the error is reported as.
    pub fn message(&self) -> (text: String)
        ensures
            text@ == self.message_text(),
    {
        match self {
            RequestError::Transport(detail) => {
                let mut text = String::from_str("网络请求失败: ");
                text.append(detail.as_str());
                text
            },
            RequestError::Status(detail) => {
                let mut text = String::from_str("请求超过最大重试次数: ");
                text.append(detail.as_str());
                text
            },
            RequestError::Body(detail) => {
                let mut text = String::from_str("读取响应失败 ");
                text.append(detail.as_str());
                text
            },
            RequestError::Decode(detail) => {
                let mut text = String::from_str("解析响应 JSON 失败 ");
                text.append(detail.as_str());
                text
            },
        }
    }
}

/// Why an answer of the service is no success.
#[derive(Debug)]
pub enum ApiError {
    /// The code of the answer is not the success code; the answer's own
    /// code and words are kept.
    Rejected(i32, String),
    /// The answer reports success but holds no order.
    EmptyData,
}

impl ApiError {
    /// What the error is reported as.
    pub open spec fn message_text(self) -> Seq<char> {
        match self {
            ApiError::Rejected(code, error) => "API错误("@ + plain_decimal(code as int) + "): "@
                + error@,
            ApiError::EmptyData => "API返回空数据"@,
        }
    }

    /// What the error is reported as.
    pub fn message(&self) -> (text: String)
        ensures
            text@ == self.message_text(),
    {
        match self {
            ApiError::Rejected(code, error) => {
                let mut text = String::from_str("API错误(");
                append_integer(&mut text, *code as i128);
                text.append("): ");
                text.append(error.as_str());
                text
            },
            ApiError::EmptyData => String::from_str("API返回空数据"),
        }
    }
}

/// The first order that an answer holds, if it holds any.
pub open spec fn first_order(data: Option<Seq<OrderDataView>>) -> Option<OrderDataView> {
    match data {
        Some(orders) => if orders.len() > 0 {
            Some(orders[0])
        } else {
            None
        },
        None => None,
    }
}

/// What an answer to an order request comes to: the first order for the
/// success code, the answer's code and words for any other code, and an
/// error of its own where the answer reports success but holds no order.
pub open spec fn order_reading(r: Result<OrderData, ApiError>, response: ApiResponseView) -> bool {
    if response.code != SUCCESS_CODE {
        r matches Err(ApiError::Rejected(code, error)) && code == response.code && error@
            == response.error
    } else {
        match first_order(response.data) {
            Some(order) => r matches Ok(taken) && taken@ == order,
            None => r matches Err(ApiError::EmptyData),
        }
    }
}

/// What an answer to a setting request comes to: success for the success
/// code, and the answer's code and words for any other.
pub fn check_response(response: &ApiResponse) -> (r: Result<(), ApiError>)
    ensures
        match r {
            Ok(_) => response.code == SUCCESS_CODE,
            Err(ApiError::Rejected(code, error)) => response.code != SUCCESS_CODE && code
                == response.code && error@ == response.error@,
            Err(ApiError::EmptyData) => false,
        },
{
    if response.code != SUCCESS_CODE {
        Err(ApiError::Rejected(response.code, response.error.clone()))
    } else {
        Ok(())
    }
}

/// Takes the order out of an answer to an order request.
pub fn order_from_response(response: ApiResponse) -> (r: Result<OrderData, ApiError>)
    ensures
        order_reading(r, response@),
{
    if response.code != SUCCESS_CODE {
        return Err(ApiError::Rejected(response.code, response.error));
    }
    match response.data {
        Some(mut orders) => {
            if orders.len() > 0 {
                Ok(orders.remove(0))
            } else {
                Err(ApiError::EmptyData)
            }
        },
        None => Err(ApiError::EmptyData),
    }
}

} // verus!
