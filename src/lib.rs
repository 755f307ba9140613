//! A translation relay core: request authorisation, upstream request
//! synthesis, status classification, client rotation and extraction of the
//! translated text from the upstream reply.
use vstd::prelude::*;

pub mod auth;
pub mod config;
pub mod error;
pub mod extract;
pub mod payload;
pub mod pool;
pub mod relay;
pub mod synth;

verus! {

} // verus!

pub use auth::verify_api_key;
pub use config::{session_cookie, BootArgs, Serve};
pub use error::RelayError;
pub use extract::{extract_translation, Json, Translation};
pub use payload::{build_upstream_body, render_body};
pub use pool::{proxy_plan, ClientPool};
pub use relay::{
    classify_status, complete_translation, default_source_text, default_target_lang,
    prepare_request, FlatResponse, PayloadFree, PreparedRequest,
};
pub use synth::{base_from_draw, get_i_count, request_id_from_draw, timestamp_from_reading, get_random_number, get_timestamp, next_request_id, skew_timestamp};
