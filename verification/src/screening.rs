//! Request screening: reading the `Authorization` header, extracting the
//! bearer token, and mapping every per-request event to its terminal
//! response or to the decision to continue to the downstream handler.
use vstd::prelude::*;
use vstd::string::StringExecFns;

verus! {

/// One byte that `http`'s `HeaderValue::to_str` accepts as visible text:
/// the printable ASCII range plus horizontal tab.
pub open spec fn is_visible_ascii_byte(b: u8) -> bool {
    (32 <= b && b < 127) || b == 9
}

/// A header value is valid text when every byte is visible ASCII.
pub open spec fn is_header_text(s: Seq<u8>) -> bool {
    forall|i: int| 0 <= i < s.len() ==> is_visible_ascii_byte(s[i])
}

/// Whitespace that may surround the token after the scheme prefix; within
/// visible ASCII only space and horizontal tab qualify.
pub open spec fn is_ws_byte(b: u8) -> bool {
    b == 32 || b == 9
}

/// The bytes of the case-sensitive scheme prefix `Bearer ` (trailing space
/// included).
pub open spec fn spec_bearer_prefix() -> Seq<u8> {
    seq![66u8, 101u8, 97u8, 114u8, 101u8, 114u8, 32u8]
}

/// The header value starts with the literal scheme prefix `Bearer `.
pub open spec fn has_bearer_prefix(s: Seq<u8>) -> bool {
    s.len() >= 7 && s.subrange(0, 7) == spec_bearer_prefix()
}

/// The sequence with leading whitespace removed.
pub open spec fn trim_front(s: Seq<u8>) -> Seq<u8>
    decreases s.len(),
{
    if s.len() > 0 && is_ws_byte(s[0]) {
        trim_front(s.subrange(1, s.len() as int))
    } else {
        s
    }
}

/// The sequence with trailing whitespace removed.
pub open spec fn trim_back(s: Seq<u8>) -> Seq<u8>
    decreases s.len(),
{
    if s.len() > 0 && is_ws_byte(s[s.len() - 1]) {
        trim_back(s.subrange(0, s.len() - 1))
    } else {
        s
    }
}

/// The token carried by a header value with the `Bearer ` prefix: what
/// follows the prefix, with surrounding whitespace removed.
pub open spec fn spec_bearer_token(s: Seq<u8>) -> Seq<u8> {
    trim_back(trim_front(s.subrange(7, s.len() as int)))
}

/// Outcome of inspecting the `Authorization` header of one request.
pub enum HeaderScreen {
    /// The request carries no `Authorization` header.
    MissingHeader,
    /// The header value holds bytes that are not visible ASCII text.
    NotText,
    /// The header value does not start with the `Bearer ` scheme.
    WrongScheme,
    /// The bearer token extracted from the header.
    Token(Vec<u8>),
}

/// Exact relation between a header (as bytes, or absent) and the screening
/// outcome returned for it.
pub open spec fn screen_matches(h: Option<Seq<u8>>, r: HeaderScreen) -> bool {
    match r {
        HeaderScreen::MissingHeader => h is None,
        HeaderScreen::NotText => match h {
            Some(s) => !is_header_text(s),
            None => false,
        },
        HeaderScreen::WrongScheme => match h {
            Some(s) => is_header_text(s) && !has_bearer_prefix(s),
            None => false,
        },
        HeaderScreen::Token(t) => match h {
            Some(s) => is_header_text(s) && has_bearer_prefix(s)
                && t@ == spec_bearer_token(s),
            None => false,
        },
    }
}

/// The view of an optional borrowed header value.
pub open spec fn opt_bytes_view(h: Option<&Vec<u8>>) -> Option<Seq<u8>> {
    match h {
        Some(v) => Some(v@),
        None => None,
    }
}

/// Inspect the `Authorization` header of a request: reject an absent,
/// non-text, or wrongly-schemed value, and otherwise extract the bearer
/// token that follows the `Bearer ` prefix, surrounding whitespace dropped.
#[verifier::loop_isolation(false)]
pub fn screen_header(header: Option<&Vec<u8>>) -> (r: HeaderScreen)
    ensures
        screen_matches(opt_bytes_view(header), r),
{
    let h = match header {
        Some(h) => h,
        None => {
            return HeaderScreen::MissingHeader;
        },
    };
    let n = h.len();
    let mut i: usize = 0;
    while i < n
        invariant
            n == h@.len(),
            0 <= i <= n,
            forall|j: int| 0 <= j < i ==> is_visible_ascii_byte(h@[j]),
        decreases n - i,
    {
        let b = h[i];
        if !((32 <= b && b < 127) || b == 9) {
            proof {
                assert(!is_visible_ascii_byte(h@[i as int]));
                assert(!is_header_text(h@));
            }
            return HeaderScreen::NotText;
        }
        i = i + 1;
    }
    assert(is_header_text(h@));
    if n < 7 {
        return HeaderScreen::WrongScheme;
    }
    let prefix: Vec<u8> = vec![66u8, 101u8, 97u8, 114u8, 101u8, 114u8, 32u8];
    assert(prefix@ =~= spec_bearer_prefix());
    let mut k: usize = 0;
    while k < 7
        invariant
            0 <= k <= 7,
            n == h@.len(),
            n >= 7,
            prefix@ =~= spec_bearer_prefix(),
            forall|j: int| 0 <= j < k ==> h@[j] == spec_bearer_prefix()[j],
        decreases 7 - k,
    {
        if h[k] != prefix[k] {
            proof {
                assert(h@[k as int] != spec_bearer_prefix()[k as int]);
                assert(h@.subrange(0, 7)[k as int] == h@[k as int]);
                assert(h@.subrange(0, 7) != spec_bearer_prefix());
                assert(!has_bearer_prefix(h@));
            }
            return HeaderScreen::WrongScheme;
        }
        k = k + 1;
    }
    proof {
        assert(h@.subrange(0, 7) =~= spec_bearer_prefix());
        assert(has_bearer_prefix(h@));
    }
    // Trim leading whitespace after the prefix.
    let ghost tail = h@.subrange(7, n as int);
    let mut lo: usize = 7;
    while lo < n && (h[lo] == 32 || h[lo] == 9)
        invariant
            7 <= lo <= n,
            n == h@.len(),
            tail == h@.subrange(7, n as int),
            trim_front(tail) == trim_front(h@.subrange(lo as int, n as int)),
        decreases n - lo,
    {
        proof {
            let cur = h@.subrange(lo as int, n as int);
            assert(is_ws_byte(cur[0]));
            assert(cur.subrange(1, cur.len() as int)
                =~= h@.subrange(lo as int + 1, n as int));
        }
        lo = lo + 1;
    }
    proof {
        let cur = h@.subrange(lo as int, n as int);
        if lo < n {
            assert(cur.len() > 0 && !is_ws_byte(cur[0]));
        }
        assert(trim_front(tail) == cur);
    }
    // Trim trailing whitespace.
    let mut hi: usize = n;
    while hi > lo && (h[hi - 1] == 32 || h[hi - 1] == 9)
        invariant
            lo <= hi <= n,
            n == h@.len(),
            trim_back(h@.subrange(lo as int, n as int))
                == trim_back(h@.subrange(lo as int, hi as int)),
        decreases hi,
    {
        proof {
            let cur = h@.subrange(lo as int, hi as int);
            assert(is_ws_byte(cur[cur.len() - 1]));
            assert(cur.subrange(0, cur.len() - 1)
                =~= h@.subrange(lo as int, hi as int - 1));
        }
        hi = hi - 1;
    }
    proof {
        let cur = h@.subrange(lo as int, hi as int);
        if hi > lo {
            assert(cur.len() > 0 && !is_ws_byte(cur[cur.len() - 1]));
        }
        assert(trim_back(h@.subrange(lo as int, n as int)) == cur);
        assert(spec_bearer_token(h@) == h@.subrange(lo as int, hi as int));
    }
    let mut token: Vec<u8> = Vec::new();
    let mut p: usize = lo;
    while p < hi
        invariant
            lo <= p <= hi <= n,
            n == h@.len(),
            token@ =~= h@.subrange(lo as int, p as int),
        decreases hi - p,
    {
        token.push(h[p]);
        assert(token@ =~= h@.subrange(lo as int, p as int + 1));
        p = p + 1;
    }
    assert(token@ =~= spec_bearer_token(h@));
    HeaderScreen::Token(token)
}

/// The plain-text body of a terminal response.
#[derive(Copy, Clone, PartialEq, Eq, Structural, Debug)]
pub enum ResponseBody {
    /// An empty body.
    Empty,
    /// The text `Missing 'Authorization' header`.
    MissingHeaderText,
    /// The text `Malformed token`.
    MalformedTokenText,
    /// The text `Token verification unavailable`.
    UnavailableText,
    /// The text `Claims shape mismatch`.
    ClaimsMismatchText,
}

/// The text rendered for a response body.
pub open spec fn spec_body_text(b: ResponseBody) -> Seq<char> {
    match b {
        ResponseBody::Empty => Seq::<char>::empty(),
        ResponseBody::MissingHeaderText => "Missing 'Authorization' header"@,
        ResponseBody::MalformedTokenText => "Malformed token"@,
        ResponseBody::UnavailableText => "Token verification unavailable"@,
        ResponseBody::ClaimsMismatchText => "Claims shape mismatch"@,
    }
}

impl ResponseBody {
    /// Render this body as the text that the response carries.
    pub fn render(&self) -> (r: String)
        ensures
            r@ == spec_body_text(*self),
    {
        match self {
            ResponseBody::Empty => String::new(),
            ResponseBody::MissingHeaderText => {
                String::from_str("Missing 'Authorization' header")
            },
            ResponseBody::MalformedTokenText => String::from_str("Malformed token"),
            ResponseBody::UnavailableText => {
                String::from_str("Token verification unavailable")
            },
            ResponseBody::ClaimsMismatchText => String::from_str("Claims shape mismatch"),
        }
    }
}

/// A terminal response sent by the middleware itself, without the downstream
/// handler.
#[derive(Copy, Clone, PartialEq, Eq, Structural, Debug)]
pub struct AuthResponse {
    /// HTTP status code.
    pub status: u16,
    /// Plain-text body.
    pub body: ResponseBody,
}

/// Exact relation between a screening outcome and the terminal response for
/// it; `None` means the request goes on to token validation.
pub open spec fn screen_response_matches(s: HeaderScreen, r: Option<AuthResponse>) -> bool {
    match s {
        HeaderScreen::MissingHeader => r == Some(AuthResponse {
            status: 400u16,
            body: ResponseBody::MissingHeaderText,
        }),
        HeaderScreen::NotText => r == Some(AuthResponse {
            status: 400u16,
            body: ResponseBody::MalformedTokenText,
        }),
        HeaderScreen::WrongScheme => r == Some(AuthResponse {
            status: 400u16,
            body: ResponseBody::MalformedTokenText,
        }),
        HeaderScreen::Token(_) => r is None,
    }
}

/// The terminal response for a screening outcome, or `None` when the
/// extracted token should be handed to the validator.
pub fn screen_response(s: &HeaderScreen) -> (r: Option<AuthResponse>)
    ensures
        screen_response_matches(*s, r),
{
    match s {
        HeaderScreen::MissingHeader => Some(AuthResponse {
            status: 400,
            body: ResponseBody::MissingHeaderText,
        }),
        HeaderScreen::NotText => Some(AuthResponse {
            status: 400,
            body: ResponseBody::MalformedTokenText,
        }),
        HeaderScreen::WrongScheme => Some(AuthResponse {
            status: 400,
            body: ResponseBody::MalformedTokenText,
        }),
        HeaderScreen::Token(_) => None,
    }
}

/// What one validation attempt on an extracted token came to, as the middleware
/// sees it after the verifier and the claims extractor have run.
#[derive(Copy, Clone, PartialEq, Eq, Structural, Debug)]
pub enum ValidationEvent {
    /// Signature and claim rules passed and the claims deserialized.
    Verified,
    /// The token failed a signature or claim check: an expected, frequent,
    /// client-caused outcome.
    Rejected,
    /// The verifier could not run: key set unreachable or malformed.
    Infrastructure,
    /// Verified claims did not deserialize into the caller's claims shape.
    ShapeMismatch,
}

/// Exact relation between a validation event and the terminal response for
/// it; `None` means the downstream handler is invoked.
///
/// Client-caused failures never reach this map with a 4xx other than the
/// 401 for a rejected credential; the two server-side events get
/// server-class statuses of their own, so an operator can tell a
/// deployment bug from a network fault: an infrastructure fault answers
/// 503, and a claims-shape mismatch — verified claims that do not fit the
/// caller's claims type, a configuration bug, never a client fault —
/// answers 500.
pub open spec fn validation_response_matches(e: ValidationEvent, r: Option<AuthResponse>) -> bool {
    match e {
        ValidationEvent::Verified => r is None,
        ValidationEvent::Rejected => r == Some(AuthResponse {
            status: 401u16,
            body: ResponseBody::Empty,
        }),
        ValidationEvent::Infrastructure => r == Some(AuthResponse {
            status: 503u16,
            body: ResponseBody::UnavailableText,
        }),
        ValidationEvent::ShapeMismatch => r == Some(AuthResponse {
            status: 500u16,
            body: ResponseBody::ClaimsMismatchText,
        }),
    }
}

/// The terminal response for a validation event, or `None` exactly when the
/// token was verified and the downstream handler should run.
pub fn validation_response(e: &ValidationEvent) -> (r: Option<AuthResponse>)
    ensures
        validation_response_matches(*e, r),
{
    match e {
        ValidationEvent::Verified => None,
        ValidationEvent::Rejected => Some(AuthResponse {
            status: 401,
            body: ResponseBody::Empty,
        }),
        ValidationEvent::Infrastructure => Some(AuthResponse {
            status: 503,
            body: ResponseBody::UnavailableText,
        }),
        ValidationEvent::ShapeMismatch => Some(AuthResponse {
            status: 500,
            body: ResponseBody::ClaimsMismatchText,
        }),
    }
}

/// The validation event raised by a validator error: a claims-shape
/// mismatch for a deserialization failure, an infrastructure fault for a
/// key set that could not be built or fetched.
pub fn error_event(e: &crate::AxumCognitoError) -> (r: ValidationEvent)
    ensures
        match *e {
            crate::AxumCognitoError::SerdeJson(_) => r == ValidationEvent::ShapeMismatch,
            crate::AxumCognitoError::JsonwebtokensCognito(_) => r
                == ValidationEvent::Infrastructure,
            crate::AxumCognitoError::Jsonwebtokens(_) => r == ValidationEvent::Infrastructure,
        },
{
    match e {
        crate::AxumCognitoError::SerdeJson(_) => ValidationEvent::ShapeMismatch,
        crate::AxumCognitoError::JsonwebtokensCognito(_) => ValidationEvent::Infrastructure,
        crate::AxumCognitoError::Jsonwebtokens(_) => ValidationEvent::Infrastructure,
    }
}

/// A request without an `Authorization` header is answered 400 with the
/// missing-header text, and never reaches token validation or the
/// downstream handler.
pub proof fn lemma_missing_header_rejected(s: HeaderScreen, r: Option<AuthResponse>)
    requires
        screen_matches(None, s),
        screen_response_matches(s, r),
    ensures
        r == Some(AuthResponse { status: 400u16, body: ResponseBody::MissingHeaderText }),
        !(s matches HeaderScreen::Token(_)),
{
}

/// A request whose header value is not valid text is answered 400, and
/// never reaches token validation or the downstream handler.
pub proof fn lemma_non_text_header_rejected(h: Seq<u8>, s: HeaderScreen, r: Option<AuthResponse>)
    requires
        !is_header_text(h),
        screen_matches(Some(h), s),
        screen_response_matches(s, r),
    ensures
        r matches Some(resp) && resp.status == 400,
        !(s matches HeaderScreen::Token(_)),
{
}

/// A token that fails a signature or claim check is answered 401 with an
/// empty body, and the downstream handler is not invoked.
pub proof fn lemma_rejected_token_unauthorized(r: Option<AuthResponse>)
    requires
        validation_response_matches(ValidationEvent::Rejected, r),
    ensures
        r == Some(AuthResponse { status: 401u16, body: ResponseBody::Empty }),
{
}

/// The downstream handler runs exactly when validation ended `Verified`:
/// every other event produces a terminal response locally.
pub proof fn lemma_downstream_only_when_verified(e: ValidationEvent, r: Option<AuthResponse>)
    requires
        validation_response_matches(e, r),
    ensures
        (r is None) <==> e == ValidationEvent::Verified,
{
}

/// The complete per-request state machine: every screening response is a
/// 400, every terminal validation response is the 401 for a rejected
/// credential or a server-class status, a missing header is always
/// answered 400, and the request reaches the downstream handler exactly
/// when the header carried well-formed text with the `Bearer ` scheme and
/// validation of the extracted token ended `Verified`.
pub proof fn lemma_request_outcomes(
    h: Option<Seq<u8>>,
    s: HeaderScreen,
    sr: Option<AuthResponse>,
    e: ValidationEvent,
    vr: Option<AuthResponse>,
)
    requires
        screen_matches(h, s),
        screen_response_matches(s, sr),
        validation_response_matches(e, vr),
    ensures
        sr matches Some(r1) ==> r1.status == 400,
        vr matches Some(r2) ==> (r2.status == 401 || r2.status >= 500),
        h is None ==> (sr matches Some(r1) && r1.status == 400),
        (sr is None && vr is None) ==> match h {
            Some(hs) => is_header_text(hs) && has_bearer_prefix(hs)
                && e == ValidationEvent::Verified,
            None => false,
        },
{
}

/// Server-side failures are surfaced distinctly: a claims-shape mismatch
/// and an infrastructure fault each answer a server-class status, their
/// two responses differ from each other, and neither is ever a client
/// status such as the 400 or 401 that client-caused failures receive.
pub proof fn lemma_server_faults_distinguished(
    mr: Option<AuthResponse>,
    ir: Option<AuthResponse>,
)
    requires
        validation_response_matches(ValidationEvent::ShapeMismatch, mr),
        validation_response_matches(ValidationEvent::Infrastructure, ir),
    ensures
        mr matches Some(m) && m.status >= 500,
        ir matches Some(i) && i.status >= 500,
        mr != ir,
{
}

} // verus!
