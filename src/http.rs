use vstd::prelude::*;

verus! {

/// A response status in the success class (`200..=299`).
pub open spec fn success_status(code: u16) -> bool {
    200 <= code <= 299
}

/// Whether a response status is in the success class.
pub fn is_success(code: u16) -> (r: bool)
    ensures
        r == success_status(code),
{
    200 <= code && code <= 299
}

/// `s` with every trailing `/` removed.
pub open spec fn without_trailing_slashes(s: Seq<char>) -> Seq<char>
    decreases s.len(),
{
    if s.len() > 0 && s.last() == '/' {
        without_trailing_slashes(s.drop_last())
    } else {
        s
    }
}

/// A base URL with its trailing slashes removed, so that paths can be joined to it.
pub fn trim_base_url(url: &str) -> (r: String)
    ensures
        r@ == without_trailing_slashes(url@),
{
    let mut end: usize = url.unicode_len();
    assert(url@.subrange(0, end as int) =~= url@);
    while end > 0 && url.get_char(end - 1) == '/'
        invariant
            end <= url@.len(),
            without_trailing_slashes(url@) == without_trailing_slashes(url@.subrange(0, end as int)),
        decreases end,
    {
        assert(url@.subrange(0, end as int).drop_last() =~= url@.subrange(0, end - 1));
        end = end - 1;
    }
    let r = url.substring_char(0, end).to_string();
    assert(r@ == without_trailing_slashes(url@.subrange(0, end as int)));
    r
}

} // verus!
