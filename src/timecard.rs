use vstd::prelude::*;

verus! {

/// Credentials of the time-card service, as the stored JSON holds them.
#[derive(Clone, Debug)]
pub struct PontoConfig {
    pub employee_id: String,
    pub access_token: String,
    pub client: String,
    pub uid: String,
    pub uuid: String,
}

/// The members that a configuration must hold, in the order they are read.
#[derive(Clone, Copy, Debug, PartialEq, Eq, Structural)]
pub enum ConfigField {
    EmployeeId,
    AccessToken,
    Client,
    Uid,
    Uuid,
}

/// Why a configuration text could not be used.
#[derive(Clone, Debug)]
pub enum ConfigError {
    /// The text is not JSON; the parser's message.
    InvalidJson(String),
    /// A required member is absent or not a string.
    Missing(ConfigField),
}

/// Why records could not be fetched.
#[derive(Clone, Debug)]
pub enum FetchError {
    /// No configuration has been saved yet.
    NotConfigured,
    /// The saved configuration is unusable.
    Config(ConfigError),
    /// The service answered with a status outside 200..=299.
    Api { status: u16, body: String },
    /// A successful answer whose body is not the expected JSON; the decoder's message.
    Decode(String),
}

/// The JSON member name of a field.
pub open spec fn field_key(f: ConfigField) -> Seq<char> {
    match f {
        ConfigField::EmployeeId => "employeeId"@,
        ConfigField::AccessToken => "accessToken"@,
        ConfigField::Client => "client"@,
        ConfigField::Uid => "uid"@,
        ConfigField::Uuid => "uuid"@,
    }
}

/// Position of a field in reading order.
pub open spec fn field_rank(f: ConfigField) -> int {
    match f {
        ConfigField::EmployeeId => 0,
        ConfigField::AccessToken => 1,
        ConfigField::Client => 2,
        ConfigField::Uid => 3,
        ConfigField::Uuid => 4,
    }
}

/// Looking up the string member `key` of the JSON document `text`: `None`
/// when the text is not JSON, `Some(None)` when the member is absent or not
/// a string (or the document is not an object), else the member's text.
pub uninterp spec fn json_string_member(text: Seq<char>, key: Seq<char>) -> Option<Option<Seq<char>>>;

/// Relies on serde_json's `from_str::<Value>`, then indexing the value by
/// `key` and `Value::as_str`: the result depends on text and key alone; a
/// text that does not parse gives the parser's message.
#[verifier::external_body]
fn string_member(text: &str, key: &str) -> (r: Result<Option<String>, String>)
    ensures
        r is Ok <==> json_string_member(text@, key@) is Some,
        r matches Ok(m) ==> (m is Some <==> json_string_member(text@, key@)->0 is Some),
        r matches Ok(m) ==> (m matches Some(s) ==> s@ == json_string_member(text@, key@)->0->0),
{
    serde_json::from_str::<serde_json::Value>(text)
        .map(|v| v[key].as_str().map(|s| s.to_string()))
        .map_err(|e| e.to_string())
}

/// The lookup of a field in a configuration text.
pub open spec fn field_lookup(text: Seq<char>, f: ConfigField) -> Option<Option<Seq<char>>> {
    json_string_member(text, field_key(f))
}

/// The configuration text holds the field as a string.
pub open spec fn field_present(text: Seq<char>, f: ConfigField) -> bool {
    field_lookup(text, f) matches Some(Some(_))
}

/// The value of a present field.
pub open spec fn field_value(text: Seq<char>, f: ConfigField) -> Seq<char> {
    field_lookup(text, f)->0->0
}

fn field_name(f: ConfigField) -> (r: &'static str)
    ensures
        r@ == field_key(f),
{
    match f {
        ConfigField::EmployeeId => "employeeId",
        ConfigField::AccessToken => "accessToken",
        ConfigField::Client => "client",
        ConfigField::Uid => "uid",
        ConfigField::Uuid => "uuid",
    }
}

/// Reads one required field.
fn read_field(text: &str, f: ConfigField) -> (r: Result<String, ConfigError>)
    ensures
        r is Ok <==> field_present(text@, f),
        r matches Ok(s) ==> s@ == field_value(text@, f),
        (r matches Err(ConfigError::InvalidJson(_))) <==> field_lookup(text@, f) is None,
        (r matches Err(ConfigError::Missing(_))) <==> field_lookup(text@, f) == Some(None::<Seq<char>>),
        r matches Err(ConfigError::Missing(g)) ==> g == f,
{
    match string_member(text, field_name(f)) {
        Err(msg) => Err(ConfigError::InvalidJson(msg)),
        Ok(None) => Err(ConfigError::Missing(f)),
        Ok(Some(s)) => Ok(s),
    }
}

/// `e` is the error of the first field, in reading order, that is not
/// present: invalid JSON when the text did not parse, else that field missing.
pub open spec fn first_failure(text: Seq<char>, e: ConfigError) -> bool {
    exists|f: ConfigField| {
        &&& forall|g: ConfigField| field_rank(g) < field_rank(f) ==> #[trigger] field_present(text, g)
        &&& !#[trigger] field_present(text, f)
        &&& (e matches ConfigError::InvalidJson(_) <==> field_lookup(text, f) is None)
        &&& (e matches ConfigError::Missing(g) ==> g == f)
    }
}

/// Reads the five required string members of a configuration text.
pub fn parse_config(text: &str) -> (r: Result<PontoConfig, ConfigError>)
    ensures
        r is Ok <==> {
            &&& field_present(text@, ConfigField::EmployeeId)
            &&& field_present(text@, ConfigField::AccessToken)
            &&& field_present(text@, ConfigField::Client)
            &&& field_present(text@, ConfigField::Uid)
            &&& field_present(text@, ConfigField::Uuid)
        },
        r matches Ok(c) ==> {
            &&& c.employee_id@ == field_value(text@, ConfigField::EmployeeId)
            &&& c.access_token@ == field_value(text@, ConfigField::AccessToken)
            &&& c.client@ == field_value(text@, ConfigField::Client)
            &&& c.uid@ == field_value(text@, ConfigField::Uid)
            &&& c.uuid@ == field_value(text@, ConfigField::Uuid)
        },
        r matches Err(e) ==> first_failure(text@, e),
{
    let employee_id = match read_field(text, ConfigField::EmployeeId) {
        Ok(s) => s,
        Err(e) => {
            assert(first_failure(text@, e)) by {
                assert(!field_present(text@, ConfigField::EmployeeId));
            }
            return Err(e);
        },
    };
    let access_token = match read_field(text, ConfigField::AccessToken) {
        Ok(s) => s,
        Err(e) => {
            assert(first_failure(text@, e)) by {
                assert(!field_present(text@, ConfigField::AccessToken));
            }
            return Err(e);
        },
    };
    let client = match read_field(text, ConfigField::Client) {
        Ok(s) => s,
        Err(e) => {
            assert(first_failure(text@, e)) by {
                assert(!field_present(text@, ConfigField::Client));
            }
            return Err(e);
        },
    };
    let uid = match read_field(text, ConfigField::Uid) {
        Ok(s) => s,
        Err(e) => {
            assert(first_failure(text@, e)) by {
                assert(!field_present(text@, ConfigField::Uid));
            }
            return Err(e);
        },
    };
    let uuid = match read_field(text, ConfigField::Uuid) {
        Ok(s) => s,
        Err(e) => {
            assert(first_failure(text@, e)) by {
                assert(!field_present(text@, ConfigField::Uuid));
            }
            return Err(e);
        },
    };
    Ok(PontoConfig { employee_id, access_token, client, uid, uuid })
}

/// A GET request for one day of time-card records.
#[derive(Clone, Debug)]
pub struct TimeCardRequest {
    pub url: String,
    pub date: String,
    pub headers: Vec<(String, String)>,
}

/// The work-days endpoint for one employee from `date` to `date`.
pub open spec fn work_days_url(employee_id: Seq<char>, date: Seq<char>) -> Seq<char> {
    "https://api.pontomais.com.br/api/time_cards/work_days?employee_id="@ + employee_id
        + "&start_date="@ + date + "&end_date="@ + date + "&attributes=time_cards"@
}

/// Header names and values as text.
pub open spec fn header_views(h: Seq<(String, String)>) -> Seq<(Seq<char>, Seq<char>)> {
    h.map_values(|p: (String, String)| (p.0@, p.1@))
}

/// The headers the service expects: the credentials, the API version, and
/// the browser identification its anti-automation checks ask for.
pub open spec fn request_headers(token: Seq<char>, client: Seq<char>, uid: Seq<char>, uuid: Seq<char>) -> Seq<(Seq<char>, Seq<char>)> {
    seq![
        ("accept"@, "application/json, text/plain, */*"@),
        ("accept-language"@, "en-US,en;q=0.9,pt-BR;q=0.8,pt;q=0.7"@),
        ("access-token"@, token),
        ("api-version"@, "2"@),
        ("client"@, client),
        ("content-type"@, "application/json"@),
        ("dnt"@, "1"@),
        ("origin"@, "https://app2.pontomais.com.br"@),
        ("priority"@, "u=1, i"@),
        ("referer"@, "https://app2.pontomais.com.br/"@),
        ("sec-ch-ua"@, "\"Chromium\";v=\"140\", \"Not=A?Brand\";v=\"24\", \"Google Chrome\";v=\"140\""@),
        ("sec-ch-ua-mobile"@, "?0"@),
        ("sec-ch-ua-platform"@, "\"Windows\""@),
        ("sec-fetch-dest"@, "empty"@),
        ("sec-fetch-mode"@, "cors"@),
        ("sec-fetch-site"@, "same-site"@),
        ("token"@, token),
        ("uid"@, uid),
        ("user-agent"@, "Mozilla/5.0 (Windows NT 10.0; Win64; x64) AppleWebKit/537.36 (KHTML, like Gecko) Chrome/140.0.0.0 Safari/537.36"@),
        ("uuid"@, uuid),
    ]
}

fn push_header(headers: &mut Vec<(String, String)>, name: &str, value: &str)
    ensures
        header_views(final(headers)@) == header_views(old(headers)@).push((name@, value@)),
{
    headers.push((String::from_str(name), String::from_str(value)));
    assert(header_views(final(headers)@) =~= header_views(old(headers)@).push((name@, value@)));
}

/// Builds the request for the records of `date` (`YYYY-MM-DD`).
pub fn build_request(config: &PontoConfig, date: &str) -> (r: TimeCardRequest)
    ensures
        r.url@ == work_days_url(config.employee_id@, date@),
        r.date@ == date@,
        header_views(r.headers@) == request_headers(config.access_token@, config.client@, config.uid@, config.uuid@),
{
    let mut url = String::from_str("https://api.pontomais.com.br/api/time_cards/work_days?employee_id=");
    url.append(config.employee_id.as_str());
    url.append("&start_date=");
    url.append(date);
    url.append("&end_date=");
    url.append(date);
    url.append("&attributes=time_cards");
    let mut h: Vec<(String, String)> = Vec::new();
    push_header(&mut h, "accept", "application/json, text/plain, */*");
    push_header(&mut h, "accept-language", "en-US,en;q=0.9,pt-BR;q=0.8,pt;q=0.7");
    push_header(&mut h, "access-token", config.access_token.as_str());
    push_header(&mut h, "api-version", "2");
    push_header(&mut h, "client", config.client.as_str());
    push_header(&mut h, "content-type", "application/json");
    push_header(&mut h, "dnt", "1");
    push_header(&mut h, "origin", "https://app2.pontomais.com.br");
    push_header(&mut h, "priority", "u=1, i");
    push_header(&mut h, "referer", "https://app2.pontomais.com.br/");
    push_header(&mut h, "sec-ch-ua", "\"Chromium\";v=\"140\", \"Not=A?Brand\";v=\"24\", \"Google Chrome\";v=\"140\"");
    push_header(&mut h, "sec-ch-ua-mobile", "?0");
    push_header(&mut h, "sec-ch-ua-platform", "\"Windows\"");
    push_header(&mut h, "sec-fetch-dest", "empty");
    push_header(&mut h, "sec-fetch-mode", "cors");
    push_header(&mut h, "sec-fetch-site", "same-site");
    push_header(&mut h, "token", config.access_token.as_str());
    push_header(&mut h, "uid", config.uid.as_str());
    push_header(&mut h, "user-agent", "Mozilla/5.0 (Windows NT 10.0; Win64; x64) AppleWebKit/537.36 (KHTML, like Gecko) Chrome/140.0.0.0 Safari/537.36");
    push_header(&mut h, "uuid", config.uuid.as_str());
    assert(header_views(h@) =~= request_headers(config.access_token@, config.client@, config.uid@, config.uuid@));
    assert(url@ =~= work_days_url(config.employee_id@, date@));
    TimeCardRequest { url, date: String::from_str(date), headers: h }
}

/// `r` is the outcome of reading the configuration text `text` and building
/// the request for `date`.
pub open spec fn prepared(text: Seq<char>, date: Seq<char>, r: Result<TimeCardRequest, ConfigError>) -> bool {
    &&& r is Ok <==> {
        &&& field_present(text, ConfigField::EmployeeId)
        &&& field_present(text, ConfigField::AccessToken)
        &&& field_present(text, ConfigField::Client)
        &&& field_present(text, ConfigField::Uid)
        &&& field_present(text, ConfigField::Uuid)
    }
    &&& r matches Ok(q) ==> {
        &&& q.url@ == work_days_url(field_value(text, ConfigField::EmployeeId), date)
        &&& q.date@ == date
        &&& header_views(q.headers@) == request_headers(
            field_value(text, ConfigField::AccessToken),
            field_value(text, ConfigField::Client),
            field_value(text, ConfigField::Uid),
            field_value(text, ConfigField::Uuid),
        )
    }
    &&& r matches Err(e) ==> first_failure(text, e)
}

/// Reads a configuration text and builds the request for `date`.
pub fn prepare_request(config_text: &str, date: &str) -> (r: Result<TimeCardRequest, ConfigError>)
    ensures
        prepared(config_text@, date@, r),
{
    match parse_config(config_text) {
        Ok(c) => Ok(build_request(&c, date)),
        Err(e) => Err(e),
    }
}

/// Prepares a fetch from the saved configuration text: an empty text means
/// that nothing has been configured.
pub fn prepare_fetch(config_text: &str, date: &str) -> (r: Result<TimeCardRequest, FetchError>)
    ensures
        config_text@.len() == 0 <==> r matches Err(FetchError::NotConfigured),
        config_text@.len() != 0 ==> match r {
            Ok(q) => prepared(config_text@, date@, Ok(q)),
            Err(FetchError::Config(e)) => prepared(config_text@, date@, Err(e)),
            _ => false,
        },
{
    if config_text.is_empty() {
        return Err(FetchError::NotConfigured);
    }
    match prepare_request(config_text, date) {
        Ok(q) => Ok(q),
        Err(e) => Err(FetchError::Config(e)),
    }
}

/// Relies on chrono's `Local::now().format("%Y-%m-%d")` for today's local
/// date; its value depends on the clock.
#[verifier::external_body]
fn local_today() -> (r: String) {
    chrono::Local::now().format("%Y-%m-%d").to_string()
}

/// Reads a configuration text and builds the request for today's records.
pub fn prepare_today_request(config_text: &str) -> (r: Result<TimeCardRequest, ConfigError>)
    ensures
        exists|date: Seq<char>| #[trigger] prepared(config_text@, date, r),
        r matches Ok(q) ==> prepared(config_text@, q.date@, r),
{
    let today = local_today();
    let r = prepare_request(config_text, today.as_str());
    assert(prepared(config_text@, today@, r));
    r
}

/// Prepares a fetch of today's records from the saved configuration text.
pub fn prepare_today_fetch(config_text: &str) -> (r: Result<TimeCardRequest, FetchError>)
    ensures
        config_text@.len() == 0 <==> r matches Err(FetchError::NotConfigured),
        config_text@.len() != 0 ==> match r {
            Ok(q) => prepared(config_text@, q.date@, Ok(q)),
            Err(FetchError::Config(e)) => first_failure(config_text@, e),
            _ => false,
        },
{
    let today = local_today();
    prepare_fetch(config_text, today.as_str())
}

/// Accepts an answer of the service only with a status in 200..=299; any
/// other status is an error that carries the status and the body.
pub fn check_response(status: u16, body: String) -> (r: Result<String, FetchError>)
    ensures
        r is Ok <==> 200 <= status <= 299,
        r matches Ok(b) ==> b@ == body@,
        !(200 <= status <= 299) ==> (r matches Err(FetchError::Api { status: s, body: b }) && s == status && b@ == body@),
{
    if 200 <= status && status <= 299 {
        Ok(body)
    } else {
        Err(FetchError::Api { status, body })
    }
}

/// One clock event; its time is kept as the service writes it.
#[derive(Clone, Debug)]
pub struct TimeCard {
    pub time: String,
}

/// The clock events of one work day, in the service's order.
#[derive(Clone, Debug)]
pub struct WorkDay {
    pub time_cards: Vec<TimeCard>,
}

/// The decoded body of a work-days answer.
#[derive(Clone, Debug)]
pub struct TimeCardResponse {
    pub work_days: Vec<WorkDay>,
}

/// The times of the first work day of an answer, in order; none when the
/// answer holds no work day.
pub open spec fn first_day_times(resp: TimeCardResponse) -> Seq<Seq<char>> {
    if resp.work_days@.len() == 0 {
        Seq::empty()
    } else {
        resp.work_days@[0].time_cards@.map_values(|c: TimeCard| c.time@)
    }
}

/// Texts of a list of strings.
pub open spec fn string_views(v: Seq<String>) -> Seq<Seq<char>> {
    v.map_values(|s: String| s@)
}

/// Collects the times of the first work day of an answer.
pub fn record_times(resp: &TimeCardResponse) -> (r: Vec<String>)
    ensures
        string_views(r@) == first_day_times(*resp),
{
    let mut times: Vec<String> = Vec::new();
    if resp.work_days.len() == 0 {
        assert(string_views(times@) =~= first_day_times(*resp));
        return times;
    }
    let cards = &resp.work_days[0].time_cards;
    let mut i: usize = 0;
    while i < cards.len()
        invariant
            i <= cards@.len(),
            cards@ == resp.work_days@[0].time_cards@,
            times@.len() == i,
            forall|j: int| 0 <= j < i ==> #[trigger] times@[j]@ == cards@[j].time@,
        decreases cards@.len() - i,
    {
        let t = cards[i].time.clone();
        times.push(t);
        i = i + 1;
    }
    assert(string_views(times@) =~= first_day_times(*resp));
    times
}

/// The outcome of one fetch, from the answer's status and body and what
/// decoding the body gave: the status is checked first, so an unsuccessful
/// answer never yields records; a successful one yields the times of its
/// first work day, or the decoder's error.
pub fn fetch_outcome(status: u16, body: String, decoded: Result<TimeCardResponse, String>) -> (r: Result<Vec<String>, FetchError>)
    ensures
        !(200 <= status <= 299) ==> (r matches Err(FetchError::Api { status: s, body: b }) && s == status && b@ == body@),
        200 <= status <= 299 ==> match decoded {
            Ok(resp) => r matches Ok(t) && string_views(t@) == first_day_times(resp),
            Err(m) => r matches Err(FetchError::Decode(d)) && d@ == m@,
        },
{
    match check_response(status, body) {
        Err(e) => Err(e),
        Ok(_) => match decoded {
            Ok(resp) => Ok(record_times(&resp)),
            Err(m) => Err(FetchError::Decode(m)),
        },
    }
}

} // verus!
