//! The request side of the REST backend, short of the transport.
//!
//! The backend is spoken to over plain HTTP: every request is a path under
//! one base address, list pages are selected by a query string, and a
//! response is judged by its status code.  Everything the transport needs
//! decided — which path, which query, what a status means — is built and
//! checked here; performing the request is the application's part.

use vstd::prelude::*;

use crate::num::{dec_digits, dec_string};

verus! {

/// The base address requests go to when none is typed in.
pub const DEFAULT_API: &'static str = "http://localhost:1228/api";

/// A handle on the backend: the base address every request path starts
/// from.
pub struct Client {
    pub api: String,
}

impl Client {
    /// A client for the backend at `api`.
    pub fn new(api: &str) -> (r: Self)
        ensures
            r.api@ == api@,
    {
        Client { api: api.to_owned() }
    }

    /// The path `<api>/<tail>`.
    fn endpoint(&self, tail: &str) -> (r: String)
        ensures
            r@ == self.api@ + "/"@ + tail@,
    {
        let mut s = self.api.clone();
        s.append("/");
        s.append(tail);
        s
    }

    /// The path a login request goes to.
    pub fn login_path(&self) -> (r: String)
        ensures
            r@ == self.api@ + "/auth"@,
    {
        let r = self.endpoint("auth");
        proof {
            reveal_strlit("/");
            reveal_strlit("auth");
            reveal_strlit("/auth");
            assert(r@ =~= self.api@ + "/auth"@);
        }
        r
    }

    /// The path the freezer list is read from.
    pub fn freezers_path(&self) -> (r: String)
        ensures
            r@ == self.api@ + "/freezers"@,
    {
        let r = self.endpoint("freezers");
        proof {
            reveal_strlit("/");
            reveal_strlit("freezers");
            reveal_strlit("/freezers");
            assert(r@ =~= self.api@ + "/freezers"@);
        }
        r
    }

    /// The path the freezer named `id` is read from or deleted at.
    pub fn freezer_path(&self, id: &str) -> (r: String)
        ensures
            r@ == self.api@ + "/freezers/"@ + id@,
    {
        let tail = String::from_str("freezers/").concat(id);
        let r = self.endpoint(tail.as_str());
        proof {
            reveal_strlit("/");
            reveal_strlit("freezers/");
            reveal_strlit("/freezers/");
            assert(r@ =~= self.api@ + "/freezers/"@ + id@);
        }
        r
    }

    /// The path the image of the freezer named `id` is read from.
    pub fn image_path(&self, id: &str) -> (r: String)
        ensures
            r@ == self.api@ + "/freezers/"@ + id@ + "/image"@,
    {
        self.freezer_path(id).concat("/image")
    }

    /// The path an updated freezer record is sent to.
    pub fn update_path(&self) -> (r: String)
        ensures
            r@ == self.api@ + "/freezers/update"@,
    {
        let r = self.endpoint("freezers/update");
        proof {
            reveal_strlit("/");
            reveal_strlit("freezers/update");
            reveal_strlit("/freezers/update");
            assert(r@ =~= self.api@ + "/freezers/update"@);
        }
        r
    }

    /// The path the product named `id` is looked up at.
    pub fn product_path(&self, id: &str) -> (r: String)
        ensures
            r@ == self.api@ + "/products/"@ + id@,
    {
        let tail = String::from_str("products/").concat(id);
        let r = self.endpoint(tail.as_str());
        proof {
            reveal_strlit("/");
            reveal_strlit("products/");
            reveal_strlit("/products/");
            assert(r@ =~= self.api@ + "/products/"@ + id@);
        }
        r
    }
}

/// The query string that selects one page of the freezer list.
pub fn page_query(limit: usize, offset: usize) -> (r: String)
    ensures
        r@ == "limit="@ + dec_digits(limit as nat) + "&offset="@ + dec_digits(offset as nat),
{
    let mut s = String::from_str("limit=");
    let l = dec_string(limit);
    s.append(l.as_str());
    s.append("&offset=");
    let o = dec_string(offset);
    s.append(o.as_str());
    s
}

/// Whether a status code reports success: any code in the 2xx range, as
/// HTTP defines it.
pub fn is_success_status(status: u16) -> (b: bool)
    ensures
        b == (200 <= status && status < 300),
{
    200 <= status && status < 300
}

/// Whether a product lookup found a record: the backend answers 404 for an
/// unknown product and carries a record on every other status.
pub fn product_found(status: u16) -> (b: bool)
    ensures
        b == (status != 404),
{
    status != 404
}

} // verus!
