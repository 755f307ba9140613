use vstd::prelude::*;

use crate::auth::{admitted, verify_api_key};
use crate::error::RelayError;
use crate::extract::{alternatives_of, data_of, extract_translation, Json};
use crate::payload::{build_upstream_body, upstream_body};
use crate::synth::{count_char, get_i_count, get_timestamp, id_of_draw, next_request_id, skewed, ID_SPAN};

verus! {

/// A translation request as the inbound endpoint receives it.
pub struct PayloadFree {
    pub text: String,
    pub source_lang: String,
    pub target_lang: String,
}

/// The source language used when a request names none.
pub fn default_source_text() -> (r: String)
    ensures
        r@ == "AUTO"@,
{
    "AUTO".to_owned()
}

/// The target language used when a request names none.
pub fn default_target_lang() -> (r: String)
    ensures
        r@ == "ZH"@,
{
    "ZH".to_owned()
}

impl PayloadFree {
    /// A request for `text`, with the default codes where none is given.
    pub fn new(text: String, source_lang: Option<String>, target_lang: Option<String>) -> (r: PayloadFree)
        ensures
            r.text == text,
            r.source_lang@ == match source_lang { Some(s) => s@, None => "AUTO"@ },
            r.target_lang@ == match target_lang { Some(s) => s@, None => "ZH"@ },
    {
        let source_lang = match source_lang {
            Some(s) => s,
            None => default_source_text(),
        };
        let target_lang = match target_lang {
            Some(s) => s,
            None => default_target_lang(),
        };
        PayloadFree { text, source_lang, target_lang }
    }
}

/// A request ready to be sent upstream.
pub struct PreparedRequest {
    /// The synthetic JSON-RPC id.
    pub id: u64,
    /// The serialised JSON-RPC body, to be sent verbatim.
    pub body: String,
}

/// The flat reply returned to the caller.
pub struct FlatResponse {
    pub code: u16,
    pub id: u64,
    pub data: String,
    pub alternatives: Vec<String>,
    pub source_lang: String,
    pub target_lang: String,
    pub method: String,
}

/// Whether `body` is the upstream body for `req` with id `id` and some clock reading.
pub open spec fn body_for(req: PayloadFree, id: u64, body: Seq<char>) -> bool {
    exists|now: int|
        0 <= now && body == upstream_body(
            req.text@,
            req.source_lang@,
            req.target_lang@,
            id as nat,
            #[trigger] skewed(now, count_char(req.text@, 'i') as int) as nat,
        )
}

/// Authorises a request and synthesises its upstream call: a fresh id, the
/// skewed timestamp and the body. An unauthorised request stops here, before
/// any outbound call.
pub fn prepare_request(req: &PayloadFree, presented: Option<&String>, api_key: Option<&String>) -> (r: Result<PreparedRequest, RelayError>)
    ensures
        r == Err::<PreparedRequest, RelayError>(RelayError::Unauthorized) <==> !admitted(
            match presented { Some(p) => Some(p@), None => None },
            match api_key { Some(k) => Some(k@), None => None },
        ),
        r is Err ==> r == Err::<PreparedRequest, RelayError>(RelayError::Unauthorized)
            || r == Err::<PreparedRequest, RelayError>(RelayError::Internal),
        r is Ok ==> r->Ok_0.id % 1000 == 1,
        r is Ok ==> exists|d: int| 0 <= d < ID_SPAN && r->Ok_0.id == #[trigger] id_of_draw(d),
        r is Ok ==> body_for(*req, r->Ok_0.id, r->Ok_0.body@),
{
    match verify_api_key(presented, api_key) {
        Err(e) => {
            return Err(e);
        },
        Ok(()) => {},
    }
    let id = next_request_id();
    let i_count = get_i_count(req.text.as_str());
    let timestamp = match get_timestamp(i_count) {
        Ok(t) => t,
        Err(e) => {
            return Err(e);
        },
    };
    let body = build_upstream_body(
        req.text.as_str(),
        req.source_lang.as_str(),
        req.target_lang.as_str(),
        id,
        timestamp,
    );
    Ok(PreparedRequest { id, body })
}

/// Classifies the upstream HTTP status: 429 is a rate limit, any other status
/// outside 200..=299 an upstream failure; only a success lets the body be read.
pub fn classify_status(status: u16) -> (r: Result<(), RelayError>)
    ensures
        status == 429 ==> r == Err::<(), RelayError>(RelayError::RateLimited),
        200 <= status <= 299 ==> r is Ok,
        status != 429 && !(200 <= status <= 299) ==> r == Err::<(), RelayError>(
            RelayError::UpstreamStatus(status),
        ),
{
    if status == 429 {
        Err(RelayError::RateLimited)
    } else if 200 <= status && status <= 299 {
        Ok(())
    } else {
        Err(RelayError::UpstreamStatus(status))
    }
}

/// The flat reply for request `req` with id `id`, from the parsed upstream
/// body; `None` (a body that is not JSON) is a gateway error.
pub fn complete_translation(id: u64, req: &PayloadFree, parsed: Option<&Json>) -> (r: Result<FlatResponse, RelayError>)
    ensures
        parsed is None <==> r == Err::<FlatResponse, RelayError>(RelayError::Gateway),
        parsed is Some <==> r is Ok,
        r is Ok ==> ({
            let f = r->Ok_0;
            &&& f.code == 200
            &&& f.id == id
            &&& f.data@ == data_of(*parsed->Some_0)
            &&& f.alternatives@.map_values(|s: String| s@) == alternatives_of(*parsed->Some_0)
            &&& f.source_lang@ == req.source_lang@
            &&& f.target_lang@ == req.target_lang@
            &&& f.method@ == "Free"@
        }),
{
    match parsed {
        None => Err(RelayError::Gateway),
        Some(body) => {
            let t = extract_translation(body);
            Ok(FlatResponse {
                code: 200,
                id,
                data: t.data,
                alternatives: t.alternatives,
                source_lang: req.source_lang.clone(),
                target_lang: req.target_lang.clone(),
                method: "Free".to_owned(),
            })
        },
    }
}

} // verus!
