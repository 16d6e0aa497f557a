//! The per-request admission step: count the request, check the credential,
//! decide on a fault, and give the latency to wait before dispatch.

use vstd::prelude::*;
use vstd::string::*;

use crate::config::{key_accepted, spec_fault, ErrorType, RuntimeState};
use crate::errors::{provider_for_path, provider_from_path, Provider};
use crate::intent::{is_white, white};
use crate::text::chars_of;

verus! {

/// The scheme prefix in front of a bearer credential.
pub open spec fn bearer_prefix() -> Seq<char> {
    seq!['B', 'e', 'a', 'r', 'e', 'r', ' ']
}

/// `s` without every leading repetition of the bearer prefix.
pub open spec fn without_bearer(s: Seq<char>) -> Seq<char>
    decreases s.len(),
{
    if s.len() >= 7 && s.subrange(0, 7) == bearer_prefix() {
        without_bearer(s.subrange(7, s.len() as int))
    } else {
        s
    }
}

/// `s` without its leading white space.
pub open spec fn trim_white_front(s: Seq<char>) -> Seq<char>
    decreases s.len(),
{
    if s.len() > 0 && is_white(s[0]) {
        trim_white_front(s.drop_first())
    } else {
        s
    }
}

/// `s` without its trailing white space.
pub open spec fn trim_white_back(s: Seq<char>) -> Seq<char>
    decreases s.len(),
{
    if s.len() > 0 && is_white(s.last()) {
        trim_white_back(s.drop_last())
    } else {
        s
    }
}

/// `s` without leading and trailing white space.
pub open spec fn whitespace_trimmed(s: Seq<char>) -> Seq<char> {
    trim_white_back(trim_white_front(s))
}

/// `s` without leading and trailing white space.
pub fn trim(s: &str) -> (r: String)
    ensures
        r@ == whitespace_trimmed(s@),
{
    let cs = chars_of(s);
    let n = cs.len();
    let mut i: usize = 0;
    assert(s@.subrange(0, n as int) =~= s@);
    while i < n && white(cs[i])
        invariant
            cs@ == s@,
            n == cs@.len(),
            i <= n,
            trim_white_front(s@) == trim_white_front(s@.subrange(i as int, n as int)),
        decreases n - i,
    {
        assert(s@.subrange(i as int, n as int).drop_first() =~= s@.subrange(i + 1, n as int));
        i = i + 1;
    }
    assert(trim_white_front(s@.subrange(i as int, n as int)) == s@.subrange(i as int, n as int));
    let mut j = n;
    while j > i && white(cs[j - 1])
        invariant
            cs@ == s@,
            n == cs@.len(),
            i <= j <= n,
            trim_white_back(s@.subrange(i as int, n as int)) == trim_white_back(s@.subrange(i as int, j as int)),
        decreases j,
    {
        assert(s@.subrange(i as int, j as int).drop_last() =~= s@.subrange(i as int, j - 1));
        j = j - 1;
    }
    assert(trim_white_back(s@.subrange(i as int, j as int)) == s@.subrange(i as int, j as int));
    String::from_str(s.substring_char(i, j))
}

fn starts_with_bearer(s: &str) -> (r: bool)
    ensures
        r == (s@.len() >= 7 && s@.subrange(0, 7) == bearer_prefix()),
{
    let n = s.unicode_len();
    if n < 7 {
        return false;
    }
    let ok = s.get_char(0) == 'B' && s.get_char(1) == 'e' && s.get_char(2) == 'a' && s.get_char(3)
        == 'r' && s.get_char(4) == 'e' && s.get_char(5) == 'r' && s.get_char(6) == ' ';
    if ok {
        assert(s@.subrange(0, 7) =~= bearer_prefix());
    } else {
        assert(s@.subrange(0, 7) != bearer_prefix()) by {
            if s@.subrange(0, 7) == bearer_prefix() {
                assert(s@[0] == s@.subrange(0, 7)[0]);
                assert(s@[1] == s@.subrange(0, 7)[1]);
                assert(s@[2] == s@.subrange(0, 7)[2]);
                assert(s@[3] == s@.subrange(0, 7)[3]);
                assert(s@[4] == s@.subrange(0, 7)[4]);
                assert(s@[5] == s@.subrange(0, 7)[5]);
                assert(s@[6] == s@.subrange(0, 7)[6]);
            }
        }
    }
    ok
}

/// The credential carried by an Authorization header value: every leading
/// `Bearer ` removed, then the surrounding white space.
pub open spec fn credential_of(header: Seq<char>) -> Seq<char> {
    whitespace_trimmed(without_bearer(header))
}

/// The credential carried by an Authorization header value.
pub fn bearer_credential(header: &str) -> (r: String)
    ensures
        r@ == credential_of(header@),
{
    let mut rest = header;
    while starts_with_bearer(rest)
        invariant
            without_bearer(rest@) == without_bearer(header@),
        decreases rest@.len(),
    {
        let n = rest.unicode_len();
        rest = rest.substring_char(7, n);
    }
    trim(rest)
}

/// Outcome of the admission step.
#[derive(Clone, Copy, Debug, PartialEq, Eq, Structural)]
pub enum Admission {
    /// The request ends here with this fault, in the shape of this provider.
    Reject(ErrorType, Provider),
    /// The request goes on to dispatch after waiting `latency_ms`.
    Proceed { latency_ms: u64 },
}

/// The credential of an optional Authorization header.
pub open spec fn header_credential(header: Option<Seq<char>>) -> Option<Seq<char>> {
    match header {
        Some(h) => Some(credential_of(h)),
        None => None,
    }
}

/// The admission outcome for a request that is the `count`-th one, under the
/// state's configuration and generator state `s`, and the generator state
/// afterwards. An unauthorized request makes no draw.
pub open spec fn spec_gate(
    state: RuntimeState,
    count: u64,
    path: Seq<u8>,
    header: Option<Seq<char>>,
) -> (Admission, u64) {
    let provider = provider_for_path(path);
    if !key_accepted(state.config.auth, header_credential(header)) {
        (Admission::Reject(ErrorType::Unauthorized, provider), state.rng_state)
    } else {
        let (fault, s1) = spec_fault(state.config, count, state.rng_state);
        match fault {
            Some(e) => (Admission::Reject(e, provider), s1),
            None => (Admission::Proceed { latency_ms: state.config.server.latency_ms }, s1),
        }
    }
}

/// The characters of an optional header value.
pub open spec fn header_view(header: Option<&str>) -> Option<Seq<char>> {
    match header {
        Some(h) => Some(h@),
        None => None,
    }
}

/// Runs the admission step for one request on `path` with the Authorization header value
/// `authorization`: counts it, then checks the credential, then asks for a
/// fault; the first failure ends the request.
pub fn gate_request(state: &mut RuntimeState, path: &str, authorization: Option<&str>) -> (r: Admission)
    requires
        old(state).request_count < u64::MAX,
    ensures
        final(state).request_count == old(state).request_count + 1,
        final(state).config == old(state).config,
        (r, final(state).rng_state) == spec_gate(
            *old(state),
            (old(state).request_count + 1) as u64,
            path.spec_bytes(),
            header_view(authorization),
        ),
{
    state.increment_requests();
    let credential = match authorization {
        Some(h) => Some(bearer_credential(h)),
        None => None,
    };
    let key = match &credential {
        Some(c) => Some(c.as_str()),
        None => None,
    };
    assert(header_credential(header_view(authorization)) == crate::config::key_view(key));
    if !state.is_valid_key(key) {
        return Admission::Reject(ErrorType::Unauthorized, provider_from_path(path));
    }
    match state.should_error() {
        Some(e) => Admission::Reject(e, provider_from_path(path)),
        None => Admission::Proceed { latency_ms: state.latency_ms() },
    }
}

/// The state after the admission step has run on each request of
/// `requests` (path bytes, optional Authorization header) in turn.
pub open spec fn after_requests(
    state: RuntimeState,
    requests: Seq<(Seq<u8>, Option<Seq<char>>)>,
) -> RuntimeState
    decreases requests.len(),
{
    if requests.len() == 0 {
        state
    } else {
        let prev = after_requests(state, requests.drop_last());
        let count = (prev.request_count + 1) as u64;
        let (_, s) = spec_gate(prev, count, requests.last().0, requests.last().1);
        RuntimeState { config: prev.config, request_count: count, rng_state: s }
    }
}

/// Every request that reaches the admission step adds exactly one to the
/// counter, whatever its outcome: after `n` requests the count has grown by
/// `n`, and the configuration is untouched.
pub proof fn lemma_counter_counts_requests(state: RuntimeState, requests: Seq<(Seq<u8>, Option<Seq<char>>)>)
    requires
        state.request_count + requests.len() <= u64::MAX,
    ensures
        after_requests(state, requests).request_count == state.request_count + requests.len(),
        after_requests(state, requests).config == state.config,
    decreases requests.len(),
{
    if requests.len() > 0 {
        lemma_counter_counts_requests(state, requests.drop_last());
    }
}

/// Once the count has reached a configured threshold, no later request is
/// admitted: every one gets a fault (a rate-limit fault unless another fault
/// is forced or the credential is refused), and the count only grows, so the
/// threshold stays crossed.
pub proof fn lemma_threshold_stays_crossed(
    state: RuntimeState,
    count: u64,
    later: u64,
    path: Seq<u8>,
    header: Option<Seq<char>>,
)
    requires
        state.config.rate_limit.fail_after_requests > 0,
        count >= state.config.rate_limit.fail_after_requests,
        later >= count,
    ensures
        spec_gate(state, later, path, header).0 is Reject,
        key_accepted(state.config.auth, header_credential(header))
            && state.config.errors.force_error == crate::config::ForceError::Disabled
            ==> spec_gate(state, later, path, header).0 == Admission::Reject(
            ErrorType::RateLimit,
            provider_for_path(path),
        ),
{
}

} // verus!
