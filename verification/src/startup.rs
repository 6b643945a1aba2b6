use vstd::prelude::*;

verus! {

/// The largest JSON body, in bytes, that the service reads.
pub const JSON_PAYLOAD_LIMIT: usize = 4096;

/// The base URL under which the service is reachable, used in links it sends.
pub struct ApplicationBaseUrl(pub String);

/// The secret that signs session cookies.
#[derive(Clone)]
pub struct HmacSecret(pub String);

/// Whether the text `s` holds ` at` from position `k` on.
pub open spec fn at_marker(s: Seq<char>, k: int) -> bool {
    &&& 0 <= k
    &&& k + 3 <= s.len()
    &&& s[k] == ' '
    &&& s[k + 1] == 'a'
    &&& s[k + 2] == 't'
}

/// How a malformed JSON body is answered.
pub struct ApiError;

impl ApiError {
    /// The message given for a malformed JSON body: the parser's error text
    /// up to the first ` at` (where the position of the fault begins). The
    /// error text must hold ` at`.
    pub fn json_error_message(error: &str) -> (r: String)
        requires
            exists|k: int| at_marker(error@, k),
        ensures
            r@ == error@.take(r@.len() as int),
            at_marker(error@, r@.len() as int),
            forall|j: int| 0 <= j < r@.len() ==> !at_marker(error@, j),
    {
        let n = error.unicode_len();
        let mut i: usize = 0;
        while i <= n && n - i >= 3
            invariant
                n == error@.len(),
                i <= n,
                forall|j: int| 0 <= j < i ==> !at_marker(error@, j),
            decreases n - i,
        {
            if error.get_char(i) == ' ' && error.get_char(i + 1) == 'a' && error.get_char(i + 2)
                == 't' {
                let r = error.substring_char(0, i).to_owned();
                return r;
            }
            i = i + 1;
        }
        proof {
            let k = choose|k: int| at_marker(error@, k);
            assert(!at_marker(error@, k));
        }
        error.to_owned()
    }
}

} // verus!
