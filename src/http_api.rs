//! Request and response bodies of the HTTP ingress server, and the decisions
//! its handlers make.
use vstd::prelude::*;
use vstd::string::StringExecFns;

verus! {

pub const STATUS_OK: u16 = 200;
pub const STATUS_BAD_REQUEST: u16 = 400;
pub const STATUS_INTERNAL_ERROR: u16 = 500;

/// A request to read a text aloud.
#[derive(Debug)]
pub struct TtsRequest {
    pub text: String,
    pub priority: Option<String>,
}

/// The body answering a read-aloud request.
#[derive(Debug)]
pub struct TtsResponse {
    pub success: bool,
    pub message: String,
}

/// The body answering a health check.
#[derive(Debug)]
pub struct HealthResponse {
    pub status: String,
    pub version: String,
}

/// Whether a character has the Unicode White_Space property.
pub open spec fn is_white_space(c: char) -> bool {
    let u = c as u32;
    (0x9 <= u <= 0xd) || u == 0x20 || u == 0x85 || u == 0xa0 || u == 0x1680 || (0x2000 <= u <= 0x200a)
        || u == 0x2028 || u == 0x2029 || u == 0x202f || u == 0x205f || u == 0x3000
}

/// Whether a text holds nothing but white space.
pub open spec fn all_white_space(s: Seq<char>) -> bool {
    forall|i: int| 0 <= i < s.len() ==> is_white_space(#[trigger] s[i])
}

/// Whether `r` is `s` with its leading and trailing white space removed: a
/// contiguous part of `s` with only white space around it, which neither
/// starts nor ends with white space.
pub open spec fn trims_to(s: Seq<char>, r: Seq<char>) -> bool {
    exists|start: int|
        0 <= start && start + r.len() <= s.len() && r == #[trigger] s.subrange(start, start + r.len())
            && (forall|i: int| 0 <= i < start ==> is_white_space(s[i])) && (forall|i: int|
            start + r.len() <= i < s.len() ==> is_white_space(s[i])) && (r.len() > 0 ==> !is_white_space(r[0])
            && !is_white_space(r.last()))
}

/// Relies on str::trim: removes the leading and trailing characters with the
/// White_Space property (`char::is_whitespace`).
#[verifier::external_body]
fn trim_text(s: &str) -> (r: &str)
    ensures
        trims_to(s@, r@),
{
    s.trim()
}

pub open spec fn empty_text_message() -> Seq<char> {
    "テキストが空です"@
}

pub open spec fn accepted_message() -> Seq<char> {
    "読み上げリクエストを受け付けました"@
}

pub open spec fn failure_prefix() -> Seq<char> {
    "エラーが発生しました: "@
}

/// Whether a text holds nothing but white space.
pub fn is_blank(text: &str) -> (r: bool)
    ensures
        r == all_white_space(text@),
{
    let t = trim_text(text);
    let r = t.is_empty();
    proof {
        let s = text@;
        let start = choose|start: int|
            0 <= start && start + t@.len() <= s.len() && t@ == #[trigger] s.subrange(start, start + t@.len())
                && (forall|i: int| 0 <= i < start ==> is_white_space(s[i])) && (forall|i: int|
                start + t@.len() <= i < s.len() ==> is_white_space(s[i])) && (t@.len() > 0 ==> !is_white_space(t@[0])
                && !is_white_space(t@.last()));
        if t@.len() > 0 {
            assert(s[start] == t@[0]);
            assert(!all_white_space(s));
        } else {
            assert forall|i: int| 0 <= i < s.len() implies is_white_space(#[trigger] s[i]) by {
                if i < start {
                } else {
                }
            }
        }
    }
    r
}

impl TtsRequest {
    /// The reply to a request whose text is blank, or `None` when the
    /// request is to be passed on.
    pub fn rejection(&self) -> (r: Option<(u16, TtsResponse)>)
        ensures
            all_white_space(self.text@) <==> r is Some,
            r matches Some(reply) ==> reply.0 == STATUS_BAD_REQUEST && !reply.1.success
                && reply.1.message@ == empty_text_message(),
    {
        if is_blank(self.text.as_str()) {
            Some(
                (
                    STATUS_BAD_REQUEST,
                    TtsResponse { success: false, message: String::from_str("テキストが空です") },
                ),
            )
        } else {
            None
        }
    }
}

impl TtsResponse {
    /// The reply once a request has been handed on, or has failed to be,
    /// with the failure's description.
    pub fn for_delivery(delivered: Result<(), String>) -> (r: (u16, TtsResponse))
        ensures
            delivered is Ok ==> r.0 == STATUS_OK && r.1.success && r.1.message@ == accepted_message(),
            delivered matches Err(e) ==> r.0 == STATUS_INTERNAL_ERROR && !r.1.success
                && r.1.message@ == failure_prefix() + e@,
    {
        match delivered {
            Ok(()) => (
                STATUS_OK,
                TtsResponse { success: true, message: String::from_str("読み上げリクエストを受け付けました") },
            ),
            Err(e) => (
                STATUS_INTERNAL_ERROR,
                TtsResponse {
                    success: false,
                    message: String::from_str("エラーが発生しました: ").concat(e.as_str()),
                },
            ),
        }
    }
}

impl HealthResponse {
    /// A healthy status report for the given version.
    pub fn ok(version: String) -> (r: HealthResponse)
        ensures
            r.status@ == "ok"@,
            r.version@ == version@,
    {
        HealthResponse { status: String::from_str("ok"), version }
    }
}

} // verus!
