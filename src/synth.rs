use vstd::prelude::*;

use crate::error::RelayError;

verus! {

/// Lowest base the upstream's own client draws ids from.
pub const ID_BASE: u64 = 8300000;

/// Number of distinct values added to `ID_BASE`.
pub const ID_SPAN: u64 = 100000;

/// Number of occurrences of `c` in `s`.
pub open spec fn count_char(s: Seq<char>, c: char) -> nat
    decreases s.len(),
{
    if s.len() == 0 {
        0
    } else {
        count_char(s.drop_last(), c) + if s.last() == c { 1nat } else { 0nat }
    }
}

/// The id base built from a draw in `0..ID_SPAN`.
pub open spec fn base_of_draw(draw: int) -> int {
    (draw + ID_BASE) * 1000
}

/// The request id built from a draw in `0..ID_SPAN`.
pub open spec fn id_of_draw(draw: int) -> int {
    base_of_draw(draw) + 1
}

/// The upstream timestamp for a clock reading and a count of `i` characters.
pub open spec fn skewed(now_ms: int, i_count: int) -> int {
    if i_count == 0 {
        now_ms
    } else {
        now_ms - now_ms % i_count + i_count
    }
}

/// Number of lowercase `i` characters in `translate_text`.
pub fn get_i_count(translate_text: &str) -> (r: usize)
    ensures
        r == count_char(translate_text@, 'i'),
{
    let len = translate_text.unicode_len();
    let mut n: usize = 0;
    let mut k: usize = 0;
    while k < len
        invariant
            len == translate_text@.len(),
            k <= len,
            n <= k,
            n == count_char(translate_text@.take(k as int), 'i'),
        decreases len - k,
    {
        let c = translate_text.get_char(k);
        proof {
            assert(translate_text@.take(k + 1).drop_last() =~= translate_text@.take(k as int));
        }
        if c == 'i' {
            n = n + 1;
        }
        k = k + 1;
    }
    proof {
        assert(translate_text@.take(len as int) =~= translate_text@);
    }
    n
}

/// Relies on rand's `thread_rng` and `Rng::gen_range`: a value of `0..bound`
/// (the range is non-empty, so `gen_range` does not panic).
#[verifier::external_body]
fn draw_below(bound: u64) -> (r: u64)
    requires
        bound > 0,
    ensures
        r < bound,
{
    rand::Rng::gen_range(&mut rand::thread_rng(), 0..bound)
}

/// The request id for a draw `draw` in `0..ID_SPAN`.
pub fn request_id_from_draw(draw: u64) -> (r: u64)
    requires
        draw < ID_SPAN,
    ensures
        r == id_of_draw(draw as int),
{
    (draw + ID_BASE) * 1000 + 1
}

/// The id base for a draw `draw` in `0..ID_SPAN`.
pub fn base_from_draw(draw: u64) -> (r: u64)
    requires
        draw < ID_SPAN,
    ensures
        r == base_of_draw(draw as int),
{
    (draw + ID_BASE) * 1000
}

/// The id base: `(draw + ID_BASE) * 1000` for a uniform draw in `0..ID_SPAN`.
pub fn get_random_number() -> (r: u64)
    ensures
        exists|d: int| 0 <= d < ID_SPAN && r == #[trigger] base_of_draw(d),
{
    let draw = draw_below(ID_SPAN);
    base_from_draw(draw)
}

/// A fresh request id, as the upstream's own client makes them.
pub fn next_request_id() -> (r: u64)
    ensures
        exists|d: int| 0 <= d < ID_SPAN && r == #[trigger] id_of_draw(d),
        r % 1000 == 1,
{
    let draw = draw_below(ID_SPAN);
    request_id_from_draw(draw)
}

/// Every generated id leaves 1 when divided by 1000.
pub proof fn lemma_id_mod_thousand(draw: int)
    requires
        0 <= draw < ID_SPAN,
    ensures
        id_of_draw(draw) % 1000 == 1,
{
}

/// The timestamp sent upstream for clock reading `now_ms`.
pub fn skew_timestamp(now_ms: u128, i_count: usize) -> (r: u128)
    requires
        now_ms + i_count <= u128::MAX,
    ensures
        r == skewed(now_ms as int, i_count as int),
        i_count == 0 ==> r == now_ms,
        i_count > 0 ==> (r - i_count) % (i_count as int) == 0,
        i_count > 0 ==> now_ms - i_count < r <= now_ms + i_count,
{
    if i_count == 0 {
        now_ms
    } else {
        let i = i_count as u128;
        proof {
            lemma_skew_bounds(now_ms as int, i as int);
        }
        let m = now_ms % i;
        assert(m <= now_ms) by {
            vstd::arithmetic::div_mod::lemma_mod_decreases(now_ms as nat, i as nat);
        }
        now_ms - m + i
    }
}

/// With no `i` the timestamp is the clock reading; otherwise it lies one step of
/// `i_count` above a multiple of `i_count`, and above `now_ms - i_count`.
pub proof fn lemma_skew_bounds(now_ms: int, i_count: int)
    requires
        now_ms >= 0,
        i_count >= 0,
    ensures
        i_count == 0 ==> skewed(now_ms, i_count) == now_ms,
        i_count > 0 ==> (skewed(now_ms, i_count) - i_count) % i_count == 0,
        i_count > 0 ==> now_ms - i_count < skewed(now_ms, i_count) <= now_ms + i_count,
{
    if i_count > 0 {
        let m = now_ms % i_count;
        assert(0 <= m < i_count);
        assert((now_ms - m) % i_count == 0) by {
            vstd::arithmetic::div_mod::lemma_fundamental_div_mod(now_ms, i_count);
            vstd::arithmetic::div_mod::lemma_mod_multiples_basic(now_ms / i_count, i_count);
            assert(now_ms - m == i_count * (now_ms / i_count));
            vstd::arithmetic::mul::lemma_mul_is_commutative(i_count, now_ms / i_count);
        }
    }
}

/// Relies on std's `SystemTime::now` and `duration_since(UNIX_EPOCH)`:
/// milliseconds since the Unix epoch, or `None` when the clock is before it.
#[verifier::external_body]
fn unix_time_millis() -> (r: Option<u128>)
{
    match std::time::SystemTime::now().duration_since(std::time::UNIX_EPOCH) {
        Ok(d) => Some(d.as_millis()),
        Err(_) => None,
    }
}

/// The timestamp for a clock reading `reading` (`None`: the clock is before
/// the epoch) and a request text holding `i_count` lowercase `i`s.
pub fn timestamp_from_reading(reading: Option<u128>, i_count: usize) -> (r: Result<u128, RelayError>)
    ensures
        reading is None ==> r == Err::<u128, RelayError>(RelayError::Internal),
        reading is Some && reading->Some_0 + i_count > u128::MAX ==> r == Err::<u128, RelayError>(
            RelayError::Internal,
        ),
        reading is Some && reading->Some_0 + i_count <= u128::MAX ==> r == Ok::<u128, RelayError>(
            skewed(reading->Some_0 as int, i_count as int) as u128,
        ),
        reading is Some && r is Ok && i_count > 0 ==> reading->Some_0 - i_count < r->Ok_0
            <= reading->Some_0 + i_count,
{
    match reading {
        Some(now) => {
            if now > u128::MAX - i_count as u128 {
                Err(RelayError::Internal)
            } else {
                Ok(skew_timestamp(now, i_count))
            }
        },
        None => Err(RelayError::Internal),
    }
}

/// The timestamp for a request text holding `i_count` lowercase `i`s, read
/// from the clock now.
pub fn get_timestamp(i_count: usize) -> (r: Result<u128, RelayError>)
    ensures
        r is Err ==> r == Err::<u128, RelayError>(RelayError::Internal),
        r is Ok ==> exists|now: int|
            0 <= now && now + i_count <= u128::MAX && r->Ok_0 == #[trigger] skewed(now, i_count as int),
        r is Ok && i_count > 0 ==> (r->Ok_0 - i_count) % (i_count as int) == 0,
        r is Ok && i_count > 0 ==> r->Ok_0 >= i_count,
        r is Ok && i_count > 0 ==> exists|now: int|
            0 <= now && #[trigger] skewed(now, i_count as int) == r->Ok_0 && now - i_count < r->Ok_0 <= now + i_count,
{
    let reading = unix_time_millis();
    let r = timestamp_from_reading(reading, i_count);
    proof {
        if r is Ok {
            let now = reading->Some_0;
            lemma_skew_bounds(now as int, i_count as int);
            assert(r->Ok_0 == skewed(now as int, i_count as int));
            if i_count > 0 {
                let m = (now as int) % (i_count as int);
                assert(m <= now) by {
                    vstd::arithmetic::div_mod::lemma_mod_decreases(now as nat, i_count as nat);
                }
            }
        }
    }
    r
}

} // verus!
