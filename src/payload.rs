use vstd::prelude::*;

verus! {

/// What `serde_json` writes for a string: the quoted, escaped JSON literal.
pub uninterp spec fn json_quoted(s: Seq<char>) -> Seq<char>;

/// What `str::to_uppercase` makes of a string.
pub uninterp spec fn upper_of(s: Seq<char>) -> Seq<char>;

/// Relies on `serde_json::to_string` on a `str`: the JSON string literal for
/// `s` (serialising a `str` does not fail).
#[verifier::external_body]
fn json_quote(s: &str) -> (r: String)
    ensures
        r@ == json_quoted(s@),
{
    match serde_json::to_string(s) {
        Ok(t) => t,
        Err(_) => String::new(),
    }
}

/// Relies on std's `str::to_uppercase`.
#[verifier::external_body]
fn to_upper(s: &str) -> (r: String)
    ensures
        r@ == upper_of(s@),
{
    s.to_uppercase()
}

/// Relies on std's `FromIterator<&char>` for `String`: the characters of `v`.
#[verifier::external_body]
pub(crate) fn chars_to_string(v: &Vec<char>) -> (r: String)
    ensures
        r@ == v@,
{
    v.iter().collect()
}

/// The decimal digit `d`.
pub open spec fn digit_char(d: nat) -> char {
    if d == 0 { '0' } else if d == 1 { '1' } else if d == 2 { '2' } else if d == 3 { '3' }
    else if d == 4 { '4' } else if d == 5 { '5' } else if d == 6 { '6' } else if d == 7 { '7' }
    else if d == 8 { '8' } else { '9' }
}

/// The decimal notation of `n`, without leading zeros.
pub open spec fn decimal(n: nat) -> Seq<char>
    decreases n,
{
    if n < 10 {
        seq![digit_char(n)]
    } else {
        decimal(n / 10).push(digit_char(n % 10))
    }
}

/// `s` with every occurrence of `pat`, taken left to right without overlap,
/// replaced by `rep`.
pub open spec fn replace_all(s: Seq<char>, pat: Seq<char>, rep: Seq<char>) -> Seq<char>
    decreases s.len(),
{
    if s.len() == 0 || pat.len() == 0 {
        s
    } else if pat.is_prefix_of(s) {
        rep + replace_all(s.skip(pat.len() as int), pat, rep)
    } else {
        seq![s[0]] + replace_all(s.skip(1), pat, rep)
    }
}

/// The compact JSON-RPC request, with its members in key order, from the
/// already quoted text and language codes.
pub open spec fn payload_text(
    text_q: Seq<char>,
    source_q: Seq<char>,
    target_q: Seq<char>,
    id: nat,
    timestamp: nat,
) -> Seq<char> {
    "{\"id\":"@ + decimal(id)
        + ",\"jsonrpc\":\"2.0\",\"method\":\"LMT_handle_texts\",\"params\":{\"commonJobParams\":{\"transcribe_as\":\"\",\"wasSpoken\":false},\"lang\":{\"source_lang_user_selected\":"@
        + source_q + ",\"target_lang\":"@ + target_q
        + "},\"splitting\":\"newlines\",\"texts\":[{\"requestAlternatives\":0,\"text\":"@ + text_q
        + "}],\"timestamp\":"@ + decimal(timestamp) + "}}"@
}

/// The text that the serialiser writes before the method name.
pub open spec fn method_key() -> Seq<char> {
    "\"method\":\""@
}

/// Whether request `id` gets a space on both sides of the method's colon.
pub open spec fn spaced_both(id: int) -> bool {
    (id + 5) % 29 == 0 || (id + 3) % 13 == 0
}

/// What the method key is rewritten to for request `id`.
pub open spec fn method_rewrite(id: int) -> Seq<char> {
    if spaced_both(id) {
        "\"method\" : \""@
    } else {
        "\"method\": \""@
    }
}

/// The body sent upstream, from the already quoted text and codes.
pub open spec fn rendered_body(
    text_q: Seq<char>,
    source_q: Seq<char>,
    target_q: Seq<char>,
    id: nat,
    timestamp: nat,
) -> Seq<char> {
    replace_all(payload_text(text_q, source_q, target_q, id, timestamp), method_key(), method_rewrite(id as int))
}

/// The body sent upstream for a request.
pub open spec fn upstream_body(
    text: Seq<char>,
    source_lang: Seq<char>,
    target_lang: Seq<char>,
    id: nat,
    timestamp: nat,
) -> Seq<char> {
    rendered_body(
        json_quoted(text),
        json_quoted(upper_of(source_lang)),
        json_quoted(upper_of(target_lang)),
        id,
        timestamp,
    )
}

/// Appends the characters of `s` to `out`.
pub(crate) fn push_text(out: &mut Vec<char>, s: &str)
    ensures
        final(out)@ == old(out)@ + s@,
{
    let len = s.unicode_len();
    let mut k: usize = 0;
    while k < len
        invariant
            len == s@.len(),
            k <= len,
            out@ == old(out)@ + s@.take(k as int),
        decreases len - k,
    {
        out.push(s.get_char(k));
        k = k + 1;
        assert(out@ =~= old(out)@ + s@.take(k as int));
    }
    assert(s@.take(len as int) =~= s@);
}

/// Appends the characters of `v` to `out`.
fn push_all(out: &mut Vec<char>, v: &Vec<char>)
    ensures
        final(out)@ == old(out)@ + v@,
{
    let mut k: usize = 0;
    while k < v.len()
        invariant
            k <= v@.len(),
            out@ == old(out)@ + v@.take(k as int),
        decreases v@.len() - k,
    {
        out.push(v[k]);
        k = k + 1;
        assert(out@ =~= old(out)@ + v@.take(k as int));
    }
    assert(v@.take(v@.len() as int) =~= v@);
}

/// The decimal digit `d`.
fn digit(d: u128) -> (r: char)
    requires
        d < 10,
    ensures
        r == digit_char(d as nat),
{
    if d == 0 { '0' } else if d == 1 { '1' } else if d == 2 { '2' } else if d == 3 { '3' }
    else if d == 4 { '4' } else if d == 5 { '5' } else if d == 6 { '6' } else if d == 7 { '7' }
    else if d == 8 { '8' } else { '9' }
}

/// Appends the decimal notation of `n` to `out`.
fn push_decimal(out: &mut Vec<char>, n: u128)
    ensures
        final(out)@ == old(out)@ + decimal(n as nat),
    decreases n,
{
    if n >= 10 {
        push_decimal(out, n / 10);
    }
    out.push(digit(n % 10));
    assert(out@ =~= old(out)@ + decimal(n as nat));
}

/// Whether `pat` occurs in `s` at position `i`.
fn occurs_at(s: &Vec<char>, i: usize, pat: &Vec<char>) -> (r: bool)
    requires
        i <= s@.len(),
    ensures
        r == pat@.is_prefix_of(s@.skip(i as int)),
{
    let n = s.len();
    if pat.len() > n - i {
        return false;
    }
    let mut j: usize = 0;
    while j < pat.len()
        invariant
            n == s@.len(),
            i + pat@.len() <= s@.len(),
            j <= pat@.len(),
            forall|t: int| 0 <= t < j ==> pat@[t] == s@[i + t],
        decreases pat@.len() - j,
    {
        if pat[j] != s[i + j] {
            assert(s@.skip(i as int)[j as int] == s@[i + j]);
            return false;
        }
        j = j + 1;
    }
    assert(pat@ =~= s@.skip(i as int).subrange(0, pat@.len() as int));
    true
}

/// `s` with every occurrence of `pat` replaced by `rep`, left to right.
pub fn replace_chars(s: &Vec<char>, pat: &Vec<char>, rep: &Vec<char>) -> (r: Vec<char>)
    ensures
        r@ == replace_all(s@, pat@, rep@),
{
    let mut out: Vec<char> = Vec::new();
    if pat.len() == 0 {
        let mut k: usize = 0;
        while k < s.len()
            invariant
                k <= s@.len(),
                out@ == s@.take(k as int),
            decreases s@.len() - k,
        {
            out.push(s[k]);
            k = k + 1;
            assert(out@ =~= s@.take(k as int));
        }
        assert(s@.take(s@.len() as int) =~= s@);
        return out;
    }
    let mut i: usize = 0;
    assert(s@.skip(0) =~= s@);
    assert(out@ + replace_all(s@, pat@, rep@) =~= replace_all(s@, pat@, rep@));
    while i < s.len()
        invariant
            pat@.len() > 0,
            i <= s@.len(),
            replace_all(s@, pat@, rep@) == out@ + replace_all(s@.skip(i as int), pat@, rep@),
        decreases s@.len() - i,
    {
        let tail = Ghost(s@.skip(i as int));
        if occurs_at(s, i, pat) {
            push_all(&mut out, rep);
            assert(tail@.skip(pat@.len() as int) =~= s@.skip(i + pat@.len()));
            i = i + pat.len();
        } else {
            out.push(s[i]);
            assert(tail@.skip(1) =~= s@.skip(i + 1));
            i = i + 1;
        }
    }
    assert(s@.skip(i as int).len() == 0);
    assert(out@ + seq![] =~= out@);
    out
}

/// The compact JSON-RPC request from the already quoted text and codes.
fn render_payload(text_q: &str, source_q: &str, target_q: &str, id: u64, timestamp: u128) -> (r: Vec<char>)
    ensures
        r@ == payload_text(text_q@, source_q@, target_q@, id as nat, timestamp as nat),
{
    let mut out: Vec<char> = Vec::new();
    push_text(&mut out, "{\"id\":");
    push_decimal(&mut out, id as u128);
    push_text(
        &mut out,
        ",\"jsonrpc\":\"2.0\",\"method\":\"LMT_handle_texts\",\"params\":{\"commonJobParams\":{\"transcribe_as\":\"\",\"wasSpoken\":false},\"lang\":{\"source_lang_user_selected\":",
    );
    push_text(&mut out, source_q);
    push_text(&mut out, ",\"target_lang\":");
    push_text(&mut out, target_q);
    push_text(&mut out, "},\"splitting\":\"newlines\",\"texts\":[{\"requestAlternatives\":0,\"text\":");
    push_text(&mut out, text_q);
    push_text(&mut out, "}],\"timestamp\":");
    push_decimal(&mut out, timestamp);
    push_text(&mut out, "}}");
    assert(out@ =~= payload_text(text_q@, source_q@, target_q@, id as nat, timestamp as nat));
    out
}

/// Whether request `id` gets a space on both sides of the method's colon.
pub fn is_spaced_both(id: u64) -> (r: bool)
    ensures
        r == spaced_both(id as int),
{
    (id as u128 + 5) % 29 == 0 || (id as u128 + 3) % 13 == 0
}

/// Rewrites the method key of serialised request `body` as request `id` calls for.
pub fn respace_method(body: &Vec<char>, id: u64) -> (r: Vec<char>)
    ensures
        r@ == replace_all(body@, method_key(), method_rewrite(id as int)),
{
    let mut pat: Vec<char> = Vec::new();
    push_text(&mut pat, "\"method\":\"");
    let mut rep: Vec<char> = Vec::new();
    if is_spaced_both(id) {
        push_text(&mut rep, "\"method\" : \"");
    } else {
        push_text(&mut rep, "\"method\": \"");
    }
    assert(pat@ =~= method_key());
    assert(rep@ =~= method_rewrite(id as int));
    replace_chars(body, &pat, &rep)
}

/// The body sent upstream, from the JSON literals of the text and of the
/// upper-cased language codes, the request id and the timestamp.
pub fn render_body(text_q: &str, source_q: &str, target_q: &str, id: u64, timestamp: u128) -> (r: String)
    ensures
        r@ == rendered_body(text_q@, source_q@, target_q@, id as nat, timestamp as nat),
{
    let serialized = render_payload(text_q, source_q, target_q, id, timestamp);
    let body = respace_method(&serialized, id);
    chars_to_string(&body)
}

/// The body sent upstream for a request with the given text and language
/// codes, request id and timestamp.
pub fn build_upstream_body(text: &str, source_lang: &str, target_lang: &str, id: u64, timestamp: u128) -> (r: String)
    ensures
        r@ == upstream_body(text@, source_lang@, target_lang@, id as nat, timestamp as nat),
{
    let text_q = json_quote(text);
    let source_upper = to_upper(source_lang);
    let source_q = json_quote(source_upper.as_str());
    let target_upper = to_upper(target_lang);
    let target_q = json_quote(target_upper.as_str());
    render_body(text_q.as_str(), source_q.as_str(), target_q.as_str(), id, timestamp)
}

} // verus!
