use vstd::prelude::*;

verus! {

/// Before a request is handled, builds its cookie jar from the `Cookie`
/// header, signed with the secret token.
#[derive(Debug)]
pub struct CookieDecodeMiddleware {
    secret_token: Vec<u8>,
}

impl View for CookieDecodeMiddleware {
    type V = Seq<u8>;

    /// The secret token that signs the cookies.
    closed spec fn view(&self) -> Seq<u8> {
        self.secret_token@
    }
}

impl CookieDecodeMiddleware {
    /// The secret token that signs the cookies.
    pub fn secret_token(&self) -> (r: &[u8])
        ensures
            r@ == self@,
    {
        self.secret_token.as_slice()
    }
}

/// After a request is handled, writes the request's cookie jar, if any,
/// into the `Set-Cookie` header of the response.
#[derive(Debug)]
pub struct CookieEncodeMiddleware;

/// The pair of cookie middlewares, both for the same secret token.
pub fn new(secret_token: &[u8]) -> (r: (CookieDecodeMiddleware, CookieEncodeMiddleware))
    ensures
        r.0@ == secret_token@,
{
    (CookieDecodeMiddleware { secret_token: vstd::slice::slice_to_vec(secret_token) }, CookieEncodeMiddleware)
}

} // verus!
