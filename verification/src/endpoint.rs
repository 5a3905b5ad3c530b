//! The address of the models endpoint and the time allowed for a request.

use vstd::prelude::*;
use vstd::string::*;

verus! {

/// Seconds a listing request may take.
pub const LISTING_TIMEOUT_SECS: u64 = 10;

/// Seconds a connectivity probe may take.
pub const PROBE_TIMEOUT_SECS: u64 = 5;

/// `s` without the slashes at its end.
pub open spec fn trim_trailing_slashes(s: Seq<char>) -> Seq<char>
    decreases s.len(),
{
    if s.len() > 0 && s.last() == '/' {
        trim_trailing_slashes(s.drop_last())
    } else {
        s
    }
}

/// The address that is requested for a base URL: the base without its
/// trailing slashes, then the endpoint's path.
pub open spec fn models_url_text(base_url: Seq<char>) -> Seq<char> {
    trim_trailing_slashes(base_url) + "/v1/models"@
}

/// Trimming keeps a beginning of the text, and what it drops is slashes only.
pub proof fn lemma_trim_drops_slashes(s: Seq<char>)
    ensures
        trim_trailing_slashes(s).len() <= s.len(),
        trim_trailing_slashes(s) == s.take(trim_trailing_slashes(s).len() as int),
        forall|i: int| trim_trailing_slashes(s).len() <= i < s.len() ==> s[i] == '/',
    decreases s.len(),
{
    if s.len() > 0 && s.last() == '/' {
        let rest = s.drop_last();
        lemma_trim_drops_slashes(rest);
        let kept = trim_trailing_slashes(rest).len() as int;
        assert(rest.take(kept) =~= s.take(kept));
        assert forall|i: int| kept <= i < s.len() implies s[i] == '/' by {
            if i < rest.len() {
                assert(rest[i] == s[i]);
            }
        }
    } else {
        assert(s.take(s.len() as int) =~= s);
    }
}

/// What trimming leaves does not end in a slash.
pub proof fn lemma_trimmed_has_no_trailing_slash(s: Seq<char>)
    ensures
        trim_trailing_slashes(s).len() == 0 || trim_trailing_slashes(s).last() != '/',
    decreases s.len(),
{
    if s.len() > 0 && s.last() == '/' {
        lemma_trimmed_has_no_trailing_slash(s.drop_last());
    }
}

/// Trimming a second time changes nothing.
pub proof fn lemma_trim_is_idempotent(s: Seq<char>)
    ensures
        trim_trailing_slashes(trim_trailing_slashes(s)) == trim_trailing_slashes(s),
{
    lemma_trimmed_has_no_trailing_slash(s);
}

/// A base URL with one slash more at its end gives the same address.
pub proof fn lemma_trailing_slash_is_ignored(base_url: Seq<char>)
    ensures
        models_url_text(base_url.push('/')) == models_url_text(base_url),
{
    assert(base_url.push('/').drop_last() =~= base_url);
}

/// However many slashes follow a base URL, the address is the same.
pub proof fn lemma_trailing_slashes_are_ignored(base_url: Seq<char>, slashes: Seq<char>)
    requires
        forall|i: int| 0 <= i < slashes.len() ==> slashes[i] == '/',
    ensures
        models_url_text(base_url + slashes) == models_url_text(base_url),
    decreases slashes.len(),
{
    if slashes.len() == 0 {
        assert(base_url + slashes =~= base_url);
    } else {
        let fewer = slashes.drop_last();
        assert((base_url + slashes).drop_last() =~= base_url + fewer);
        assert((base_url + slashes).last() == slashes[slashes.len() - 1]);
        lemma_trailing_slashes_are_ignored(base_url, fewer);
    }
}

/// Builds the address of the models endpoint under `base_url`.
pub fn models_url(base_url: &str) -> (url: String)
    ensures
        url@ == models_url_text(base_url@),
{
    let mut end: usize = base_url.unicode_len();
    assert(base_url@.subrange(0, end as int) =~= base_url@);
    while end > 0 && base_url.get_char(end - 1) == '/'
        invariant
            end <= base_url@.len(),
            trim_trailing_slashes(base_url@) == trim_trailing_slashes(
                base_url@.subrange(0, end as int),
            ),
        decreases end,
    {
        proof {
            let kept = base_url@.subrange(0, end as int);
            assert(kept.drop_last() =~= base_url@.subrange(0, end - 1));
        }
        end = end - 1;
    }
    let trimmed = base_url.substring_char(0, end);
    let url = trimmed.to_owned().concat("/v1/models");
    url
}

} // verus!
