use vstd::prelude::*;

verus! {

/// `header` ends with `token`: the last `token.len()` characters of `header` are `token`.
pub open spec fn ends_with_token(header: Seq<char>, token: Seq<char>) -> bool {
    token.len() <= header.len() && header.subrange(header.len() - token.len(), header.len() as int)
        == token
}

/// The guard of every mutating request: the `Authorization` header passes when it ends with
/// the server's token. This is a suffix match, so `"anything" + token` passes too.
pub fn authorize(authorization: &str, token: &str) -> (r: bool)
    ensures
        r == ends_with_token(authorization@, token@),
{
    let hlen = authorization.unicode_len();
    let tlen = token.unicode_len();
    if tlen > hlen {
        return false;
    }
    let offset: usize = hlen - tlen;
    let mut i: usize = 0;
    while i < tlen
        invariant
            hlen == authorization@.len(),
            tlen == token@.len(),
            offset + tlen == hlen,
            i <= tlen,
            forall|j: int| 0 <= j < i ==> authorization@[offset + j] == token@[j],
        decreases tlen - i,
    {
        if authorization.get_char(offset + i) != token.get_char(i) {
            assert(authorization@.subrange(offset as int, hlen as int)[i as int]
                != token@[i as int]);
            return false;
        }
        i = i + 1;
    }
    assert(authorization@.subrange(offset as int, hlen as int) =~= token@);
    true
}

} // verus!
