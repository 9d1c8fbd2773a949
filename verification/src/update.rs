//! The answer to the update check: what the server's reply means.
use vstd::prelude::*;
use crate::CURRENT_VERSION;
use crate::json_guard::{json_text_bounded, json_text_is_bounded};

verus! {

/// Whether `p` occurs in `s` at some position.
pub open spec fn has_substring(s: Seq<char>, p: Seq<char>) -> bool {
    exists|i: int| 0 <= i <= s.len() - p.len() && #[trigger] s.subrange(i, i + p.len()) == p
}

/// The characters of `s`, in order.
pub(crate) fn chars_of(s: &str) -> (v: Vec<char>)
    ensures
        v@ == s@,
{
    broadcast use vstd::string::group_string_axioms;
    let mut v: Vec<char> = Vec::new();
    for c in it: s.chars()
        invariant
            v@ == it.seq().take(it.index() as int),
    {
        v.push(c);
    }
    v
}


/// Whether `p` occurs in `s`.
pub fn contains_str(s: &str, p: &str) -> (r: bool)
    ensures
        r == has_substring(s@, p@),
{
    let sv = chars_of(s);
    let pv = chars_of(p);
    let n = sv.len();
    let m = pv.len();
    if m > n {
        return false;
    }
    let mut i: usize = 0;
    while i <= n - m
        invariant
            sv@ == s@,
            pv@ == p@,
            n == sv@.len(),
            m == pv@.len(),
            m <= n,
            i <= n - m + 1,
            forall|k: int| 0 <= k < i ==> #[trigger] s@.subrange(k, k + m) != p@,
        decreases n - m + 1 - i,
    {
        let mut j: usize = 0;
        let mut same = true;
        while j < m
            invariant
                sv@ == s@,
                pv@ == p@,
                n == sv@.len(),
                m == pv@.len(),
                i + m <= n,
                j <= m,
                same == (forall|l: int| 0 <= l < j ==> #[trigger] sv@[i + l] == pv@[l]),
            decreases m - j,
        {
            if sv[i + j] != pv[j] {
                same = false;
            }
            j = j + 1;
        }
        if same {
            assert forall|l: int| 0 <= l < m implies #[trigger] s@.subrange(i as int, i + m)[l]
                == p@[l] by {
                assert(sv@[i + l] == pv@[l]);
            }
            assert(s@.subrange(i as int, i + m) =~= p@);
            return true;
        }
        proof {
            if s@.subrange(i as int, i + m) == p@ {
                assert forall|l: int| 0 <= l < m implies #[trigger] sv@[i + l] == pv@[l] by {
                    assert(s@.subrange(i as int, i + m)[l] == p@[l]);
                }
            }
        }
        i = i + 1;
    }
    false
}

/// What the value of the field `key` is when `text` is read as a JSON object
/// by `rustc_serialize::json::Json::from_str`: the string there, or `None`
/// when the text is no JSON, not an object, or the field is missing or not a
/// string.
pub uninterp spec fn json_string_member(text: Seq<char>, key: Seq<char>) -> Option<Seq<char>>;

/// Reads `text` with `rustc_serialize::json::Json::from_str` and takes the string
/// value of its field `key` with `Json::find` and `Json::as_string`, the way
/// `rustc_serialize::json::decode` fills a string field of a struct. Claimed:
/// the result is `json_string_member` of the text and the key, a function of
/// them alone; nothing is stated of how the text is parsed. The text must keep
/// within the bounds of `json_text_is_bounded`, outside which the parser can
/// panic.
#[verifier::external_body]
fn json_string_field(text: &str, key: &str) -> (r: Option<String>)
    requires
        json_text_is_bounded(text@),
    ensures
        match r {
            Some(v) => json_string_member(text@, key@) == Some(v@),
            None => json_string_member(text@, key@) is None,
        },
{
    match rustc_serialize::json::Json::from_str(text) {
        Ok(json) => match json.find(key) {
            Some(value) => match value.as_string() {
                Some(v) => Some(v.to_string()),
                None => None,
            },
            None => None,
        },
        Err(_) => None,
    }
}

/// What a reply to the update check means.
#[derive(Debug)]
pub enum UpdateCheck {
    /// The server answered with another status than 200 OK.
    BadStatus(u16),
    /// The reply does not mention a version: nothing to do.
    NoVersionInfo,
    /// The reply mentions a version but holds no string field `Version`, or
    /// is beyond the bounds the JSON reader handles.
    Malformed,
    /// The server's version is this one.
    UpToDate,
    /// The server has another version, given here.
    NewVersion(String),
}

/// Whether `r` is what the version field `parsed` of a reply means: no field
/// is a malformed reply, the current version is no news, and any other one is
/// a new version.
pub open spec fn is_version_outcome(parsed: Option<Seq<char>>, r: UpdateCheck) -> bool {
    match parsed {
        None => r is Malformed,
        Some(v) => if v == CURRENT_VERSION@ {
            r is UpToDate
        } else {
            r matches UpdateCheck::NewVersion(w) && w@ == v
        },
    }
}

/// A reply's version is taken for this one only when it equals the current
/// version exactly; any other version, however alike, is announced as it is,
/// and no version field at all is a malformed reply.
pub proof fn lemma_only_the_current_version_is_up_to_date(parsed: Option<Seq<char>>, r: UpdateCheck)
    requires
        is_version_outcome(parsed, r),
    ensures
        r is UpToDate ==> parsed == Some(CURRENT_VERSION@),
        match parsed {
            Some(v) => v != CURRENT_VERSION@ ==> (r matches UpdateCheck::NewVersion(w) && w@ == v),
            None => true,
        },
        parsed is None ==> r is Malformed,
{
}

/// What the version field read from the reply means.
pub fn version_outcome(parsed: Option<String>) -> (r: UpdateCheck)
    ensures
        is_version_outcome(
            match parsed {
                Some(v) => Some(v@),
                None => None,
            },
            r,
        ),
        match parsed {
            Some(v) => {
                &&& v@ != CURRENT_VERSION@ ==> (r matches UpdateCheck::NewVersion(w) && w@ == v@)
                &&& v@ == CURRENT_VERSION@ ==> r is UpToDate
            },
            None => r is Malformed,
        },
{
    match parsed {
        None => UpdateCheck::Malformed,
        Some(v) => {
            let current = CURRENT_VERSION.to_owned();
            if v == current {
                UpdateCheck::UpToDate
            } else {
                UpdateCheck::NewVersion(v)
            }
        },
    }
}

/// What the reply of the update server means, from its HTTP status and body.
/// The body is read as JSON only when it mentions `Version`, and only when it
/// keeps within the bounds the JSON reader handles; a body beyond them is
/// malformed.
pub fn check_update_response(status: u16, content: &str) -> (r: UpdateCheck)
    ensures
        status != 200 ==> r == UpdateCheck::BadStatus(status),
        status == 200 && !has_substring(content@, "Version"@) ==> r is NoVersionInfo,
        status == 200 && has_substring(content@, "Version"@) && !json_text_is_bounded(content@)
            ==> r is Malformed,
        status == 200 && has_substring(content@, "Version"@) && json_text_is_bounded(content@)
            ==> is_version_outcome(
            json_string_member(content@, "Version"@),
            r,
        ),
{
    if status != 200 {
        return UpdateCheck::BadStatus(status);
    }
    if !contains_str(content, "Version") {
        return UpdateCheck::NoVersionInfo;
    }
    if !json_text_bounded(content) {
        return UpdateCheck::Malformed;
    }
    let parsed = json_string_field(content, "Version");
    version_outcome(parsed)
}

/// The text of the notification about a new version: the current version,
/// an arrow, and the new one.
pub fn update_notice(latest: &str) -> (s: String)
    ensures
        s@ == CURRENT_VERSION@ + " -> "@ + latest@,
{
    let mut s = CURRENT_VERSION.to_owned();
    s.append(" -> ");
    s.append(latest);
    s
}

} // verus!
