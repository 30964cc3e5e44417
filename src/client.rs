//! What every request to the model carries besides the transcript.
use vstd::prelude::*;
use vstd::string::{StrSliceExecFns, StringExecFns};

verus! {

/// The most output the model may produce in one response.
pub const MAX_TOKENS: u32 = 8192;

/// The fixed instruction framing the model's role.
pub fn system_prompt() -> (r: String)
    ensures
        r@ == "You are a coding assistant. Use tools to help."@,
{
    "You are a coding assistant. Use tools to help.".to_owned()
}

/// `s` without the slashes at its end.
pub open spec fn trim_slashes(s: Seq<char>) -> Seq<char>
    decreases s.len(),
{
    if s.len() > 0 && s.last() == '/' {
        trim_slashes(s.drop_last())
    } else {
        s
    }
}

/// The messages endpoint under the service's base URL.
pub fn endpoint_url(base: &str) -> (r: String)
    ensures
        r@ == trim_slashes(base@) + "/v1/messages"@,
{
    let mut n = base.unicode_len();
    assert(base@.subrange(0, n as int) =~= base@);
    while n > 0 && base.get_char(n - 1) == '/'
        invariant
            n <= base@.len(),
            trim_slashes(base@) == trim_slashes(base@.subrange(0, n as int)),
        decreases n,
    {
        assert(base@.subrange(0, n as int).drop_last() =~= base@.subrange(0, n - 1));
        n = n - 1;
    }
    assert(trim_slashes(base@.subrange(0, n as int)) == base@.subrange(0, n as int));
    let mut r = base.substring_char(0, n).to_owned();
    r.append("/v1/messages");
    r
}

} // verus!
