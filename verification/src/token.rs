//! Continuation-token transform.
//!
//! Tokens extracted from a page response carry trailing padding — the
//! percent-encoded `%3D` sequence or a bare `=` — that must be stripped
//! before the token is reused as a query parameter; the endpoint
//! re-appends the equivalent padding itself. The transform is idempotent,
//! so a token that already went through it round-trips unchanged.

use vstd::prelude::*;
use vstd::string::StrSliceExecFns;

verus! {

/// The sequence ends with the percent-encoded padding `%3D`.
pub open spec fn ends_with_encoded_pad(s: Seq<char>) -> bool {
    s.len() >= 3 && s[s.len() - 3] == '%' && s[s.len() - 2] == '3' && s[s.len() - 1] == 'D'
}

/// The sequence ends with the bare padding character `=`.
pub open spec fn ends_with_plain_pad(s: Seq<char>) -> bool {
    s.len() >= 1 && s[s.len() - 1] == '='
}

/// The token with all trailing padding (`%3D` or `=`) removed.
pub open spec fn strip_padding(s: Seq<char>) -> Seq<char>
    decreases s.len(),
{
    if ends_with_encoded_pad(s) {
        strip_padding(s.subrange(0, s.len() - 3))
    } else if ends_with_plain_pad(s) {
        strip_padding(s.subrange(0, s.len() - 1))
    } else {
        s
    }
}

/// Strips the trailing `%3D` / `=` padding from a continuation token,
/// yielding the form in which the token is resubmitted to the endpoint.
pub fn strip_continuation_padding(token: &str) -> (r: String)
    ensures
        r@ == strip_padding(token@),
{
    let n: usize = token.unicode_len();
    let mut end: usize = n;
    proof {
        assert(token@.subrange(0, n as int) =~= token@);
    }
    loop
        invariant
            end <= n,
            n == token@.len(),
            strip_padding(token@) == strip_padding(token@.subrange(0, end as int)),
        ensures
            end <= token@.len(),
            strip_padding(token@) == token@.subrange(0, end as int),
        decreases end,
    {
        if end >= 3 && token.get_char(end - 3) == '%' && token.get_char(end - 2) == '3'
            && token.get_char(end - 1) == 'D' {
            proof {
                assert(ends_with_encoded_pad(token@.subrange(0, end as int)));
                assert(token@.subrange(0, end as int).subrange(0, end - 3) =~= token@.subrange(
                    0,
                    end - 3,
                ));
            }
            end = end - 3;
        } else if end >= 1 && token.get_char(end - 1) == '=' {
            proof {
                assert(ends_with_plain_pad(token@.subrange(0, end as int)));
                assert(token@.subrange(0, end as int).subrange(0, end - 1) =~= token@.subrange(
                    0,
                    end - 1,
                ));
            }
            end = end - 1;
        } else {
            proof {
                assert(!ends_with_encoded_pad(token@.subrange(0, end as int)));
                assert(!ends_with_plain_pad(token@.subrange(0, end as int)));
            }
            break;
        }
    }
    let stripped = token.substring_char(0, end);
    stripped.to_owned()
}

/// A stripped token carries no padding suffix of either form.
pub proof fn lemma_strip_leaves_no_pad(s: Seq<char>)
    ensures
        !ends_with_encoded_pad(strip_padding(s)),
        !ends_with_plain_pad(strip_padding(s)),
    decreases s.len(),
{
    if ends_with_encoded_pad(s) {
        lemma_strip_leaves_no_pad(s.subrange(0, s.len() - 3));
    } else if ends_with_plain_pad(s) {
        lemma_strip_leaves_no_pad(s.subrange(0, s.len() - 1));
    }
}

/// Law: the padding transform is idempotent. Stripping a token that was
/// already stripped returns it unchanged, so resubmitting a stripped
/// token round-trips to the very token the fetcher used before.
pub proof fn lemma_strip_idempotent(s: Seq<char>)
    ensures
        strip_padding(strip_padding(s)) == strip_padding(s),
{
    lemma_strip_leaves_no_pad(s);
}

} // verus!
