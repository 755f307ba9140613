use vstd::prelude::*;

use crate::payload::push_text;

verus! {

/// The startup configuration of the relay.
pub struct BootArgs {
    /// Listening address, as `host:port`.
    pub bind: String,
    /// Egress proxies, one outbound client each.
    pub proxies: Option<Vec<String>>,
    /// Key that callers must present as bearer credential, if any.
    pub api_key: Option<String>,
    /// Session credential presented upstream.
    pub dl_session: String,
    /// TLS certificate file, for serving over TLS.
    pub tls_cert: Option<String>,
    /// TLS private key file, for serving over TLS.
    pub tls_key: Option<String>,
}

/// The relay server, configured once at startup.
pub struct Serve(pub BootArgs);

/// The cookie header value that carries the session credential `session`.
pub open spec fn cookie_of(session: Seq<char>) -> Seq<char> {
    "dl_session="@ + session + ";"@
}

/// The cookie header value that carries the session credential.
pub fn session_cookie(session: &str) -> (r: String)
    ensures
        r@ == cookie_of(session@),
{
    let mut out: Vec<char> = Vec::new();
    push_text(&mut out, "dl_session=");
    push_text(&mut out, session);
    push_text(&mut out, ";");
    assert(out@ =~= cookie_of(session@));
    crate::payload::chars_to_string(&out)
}

} // verus!
