//! Pluggable authentication: the capability a caller supplies at connection
//! construction, and the two stock implementations — no authentication, and
//! password authentication.

use vstd::prelude::*;
use vstd::utf8::encode_utf8;

verus! {

/// A caller-supplied capability that proves identity to the server using a
/// named scheme and a derived token.
///
/// `scheme()` and `token()` are the capability's mathematical face: the
/// executable methods must return exactly them.
pub trait Authenticator: Sized {
    /// The scheme name this capability answers for, or `None` when the
    /// caller configured no authentication.
    spec fn scheme(&self) -> Option<Seq<char>>;

    /// The token bytes this capability hands to the server.
    spec fn token(&self) -> Seq<u8>;

    /// The scheme name, as the server spells it in its AUTHENTICATE body.
    fn get_cassandra_name(&self) -> (r: Option<String>)
        ensures
            match r {
                Some(s) => self.scheme() == Some(s@),
                None => self.scheme() is None,
            },
    ;

    /// The token sent in an AUTH_RESPONSE request.
    fn get_auth_token(&self) -> (r: Vec<u8>)
        ensures
            r@ == self.token(),
    ;
}

/// The no-authentication capability: it names no scheme, and its token is a
/// single zero byte.
#[derive(Clone, Copy, PartialEq, Eq, Structural, Debug)]
pub struct NoneAuthenticator;

impl Authenticator for NoneAuthenticator {
    open spec fn scheme(&self) -> Option<Seq<char>> {
        None
    }

    open spec fn token(&self) -> Seq<u8> {
        seq![0u8]
    }

    fn get_cassandra_name(&self) -> (r: Option<String>) {
        None
    }

    fn get_auth_token(&self) -> (r: Vec<u8>) {
        let mut token: Vec<u8> = Vec::new();
        token.push(0);
        proof {
            assert(token@ =~= seq![0u8]);
        }
        token
    }
}

/// Password authentication: the scheme is Cassandra's password authenticator
/// and the token is the SASL PLAIN pair `0x00 user 0x00 password`.
#[derive(Clone, PartialEq, Eq, Debug)]
pub struct PasswordAuthenticator {
    pub username: String,
    pub password: String,
}

impl PasswordAuthenticator {
    /// Builds the capability for one username and password.
    pub fn new(username: String, password: String) -> (r: PasswordAuthenticator)
        ensures
            r.username == username,
            r.password == password,
    {
        PasswordAuthenticator { username, password }
    }
}

impl Authenticator for PasswordAuthenticator {
    open spec fn scheme(&self) -> Option<Seq<char>> {
        Some("org.apache.cassandra.auth.PasswordAuthenticator"@)
    }

    open spec fn token(&self) -> Seq<u8> {
        seq![0u8] + encode_utf8(self.username@) + seq![0u8] + encode_utf8(self.password@)
    }

    fn get_cassandra_name(&self) -> (r: Option<String>) {
        Some("org.apache.cassandra.auth.PasswordAuthenticator".to_owned())
    }

    fn get_auth_token(&self) -> (r: Vec<u8>) {
        let mut token: Vec<u8> = Vec::new();
        token.push(0);
        token.extend_from_slice(self.username.as_str().as_bytes());
        token.push(0);
        token.extend_from_slice(self.password.as_str().as_bytes());
        proof {
            assert(token@ =~= self.token());
        }
        token
    }
}

} // verus!
