//! HTTP Basic credentials: the parsed `user`/`pass` pair, and the parser for
//! an `Authorization` header value of the form `Basic <base64(user:pass)>`.

use vstd::prelude::*;
use vstd::utf8::{decode_utf8, valid_utf8};

use crate::encoding::{base64_decode, base64_decode_of, string_from_utf8};
use crate::strutil::{spec_split, split_str, str_eq, views_of};

verus! {

/// A client's credentials as presented in the `Authorization` header.
pub struct AuthorizationToken {
    pub user: String,
    pub pass: String,
}

impl Clone for AuthorizationToken {
    fn clone(&self) -> (r: Self)
        ensures
            r == *self,
    {
        AuthorizationToken { user: self.user.clone(), pass: self.pass.clone() }
    }
}

/// The credentials a well-formed `Basic` header value carries, or `None`
/// when it is malformed. The value must read `Basic <b64>` (extra
/// space-separated parts beyond the second are ignored), `<b64>` must decode
/// to UTF-8 text holding a colon, and the user is the text before the first
/// colon, the password the text between the first and second.
pub open spec fn spec_basic_credentials(header: Seq<char>) -> Option<(Seq<char>, Seq<char>)> {
    let parts = spec_split(header, ' ');
    if parts.len() < 2 || parts[0] != "Basic"@ {
        None
    } else {
        match base64_decode_of(parts[1]) {
            None => None,
            Some(bytes) => if !valid_utf8(bytes) {
                None
            } else {
                let cparts = spec_split(decode_utf8(bytes), ':');
                if cparts.len() < 2 {
                    None
                } else {
                    Some((cparts[0], cparts[1]))
                }
            },
        }
    }
}

impl AuthorizationToken {
    /// Parses an `Authorization` header value; `None` on anything malformed.
    pub fn from_header_value(header: &str) -> (r: Option<AuthorizationToken>)
        ensures
            match r {
                Some(t) => spec_basic_credentials(header@) == Some((t.user@, t.pass@)),
                None => spec_basic_credentials(header@) is None,
            },
    {
        let components = split_str(header, ' ');
        proof {
            assert(views_of(components@).len() == components@.len());
        }
        if components.len() < 2 {
            return None;
        }
        proof {
            assert(views_of(components@)[0] == components@[0]@);
            assert(views_of(components@)[1] == components@[1]@);
        }
        if !str_eq(components[0].as_str(), "Basic") {
            return None;
        }
        let decoded = match base64_decode(components[1].as_str()) {
            Some(d) => d,
            None => {
                return None;
            },
        };
        let creds = match string_from_utf8(decoded) {
            Some(s) => s,
            None => {
                return None;
            },
        };
        let cparts = split_str(creds.as_str(), ':');
        proof {
            assert(views_of(cparts@).len() == cparts@.len());
        }
        if cparts.len() < 2 {
            return None;
        }
        proof {
            assert(views_of(cparts@)[0] == cparts@[0]@);
            assert(views_of(cparts@)[1] == cparts@[1]@);
        }
        Some(AuthorizationToken { user: cparts[0].clone(), pass: cparts[1].clone() })
    }
}

} // verus!
