//! The server's web UI API: who may use it, which clients have used it, and what each
//! endpoint answers.

use vstd::prelude::*;
use vstd::string::*;
use vstd::utf8::*;
use std::collections::HashSet;

verus! {

broadcast use vstd::std_specs::hash::group_hash_axioms;

/// A refusal of the web UI API, answered with the HTTP status of `status_code`.
#[derive(Clone, Copy, Debug, PartialEq, Eq, Structural)]
pub enum ApiError {
    /// The request does not carry the session cookie.
    Unauthorized,
    /// The server did not give the answer the endpoint asks for.
    InternalServerError,
}

impl ApiError {
    /// The HTTP status code of this refusal.
    pub open spec fn spec_status_code(self) -> u16 {
        match self {
            ApiError::Unauthorized => 401,
            ApiError::InternalServerError => 500,
        }
    }

    /// The HTTP status code of this refusal.
    pub fn status_code(&self) -> (r: u16)
        ensures
            r == self.spec_status_code(),
    {
        match self {
            ApiError::Unauthorized => 401,
            ApiError::InternalServerError => 500,
        }
    }
}

/// The name of the cookie that carries the secret token.
pub const X_SECRET_TOKEN: &'static str = "X-Secret-Token";

/// The text of the one cookie header that the API accepts for `secret_token`.
pub open spec fn session_cookie_text(secret_token: Seq<char>) -> Seq<char> {
    X_SECRET_TOKEN@ + "="@ + secret_token
}

/// The bytes of the one cookie header that the API accepts for `secret_token`.
pub open spec fn session_cookie(secret_token: Seq<char>) -> Seq<u8> {
    encode_utf8(session_cookie_text(secret_token))
}

/// The answer to a request for a secret token: admitted exactly when the cookie header is
/// there and is the session cookie, byte for byte.
pub open spec fn admission(cookie: Option<Seq<u8>>, secret_token: Seq<char>) -> Result<(), ApiError> {
    if cookie == Some(session_cookie(secret_token)) {
        Ok(())
    } else {
        Err(ApiError::Unauthorized)
    }
}

/// Each secret token has its own session cookie, and the API admits exactly that one: the
/// cookie of one token is refused for any other token, and a request without a cookie is
/// always refused.
pub proof fn lemma_cookie_admits_only_its_token(token: Seq<char>, other: Seq<char>)
    requires
        token != other,
    ensures
        admission(Some(session_cookie(token)), token) == Ok::<(), ApiError>(()),
        admission(Some(session_cookie(token)), other) == Err::<(), ApiError>(ApiError::Unauthorized),
        admission(None, token) == Err::<(), ApiError>(ApiError::Unauthorized),
{
    let prefix = X_SECRET_TOKEN@ + "="@;
    encode_utf8_decode_utf8(session_cookie_text(token));
    encode_utf8_decode_utf8(session_cookie_text(other));
    if session_cookie(token) == session_cookie(other) {
        assert(session_cookie_text(token) == session_cookie_text(other));
        assert(token =~= session_cookie_text(token).subrange(prefix.len() as int, session_cookie_text(token).len() as int));
        assert(other =~= session_cookie_text(other).subrange(prefix.len() as int, session_cookie_text(other).len() as int));
    }
}

/// Whether two byte strings are the same.
fn bytes_equal(a: &[u8], b: &[u8]) -> (r: bool)
    ensures
        r == (a@ == b@),
{
    if a.len() != b.len() {
        return false;
    }
    let mut i: usize = 0;
    while i < a.len()
        invariant
            a@.len() == b@.len(),
            i <= a@.len(),
            forall|j: int| 0 <= j < i ==> a@[j] == b@[j],
        decreases a@.len() - i,
    {
        if a[i] != b[i] {
            assert(a@[i as int] != b@[i as int]);
            return false;
        }
        i = i + 1;
    }
    assert(a@ =~= b@);
    true
}

/// The secret that a client of the web UI API must present.
pub struct UiApiToken {
    pub secret_token: String,
}

impl UiApiToken {
    /// A token for `secret_token`.
    pub fn new(secret_token: String) -> (r: Self)
        ensures
            r.secret_token@ == secret_token@,
    {
        UiApiToken { secret_token }
    }

    /// Admits a request whose cookie header (`None` where there is none) is exactly
    /// `X-Secret-Token=<secret token>`, and refuses any other as unauthorized.
    pub fn validate_secret(&self, cookie: Option<&[u8]>) -> (r: Result<(), ApiError>)
        ensures
            r == admission(
                match cookie {
                    Some(c) => Some(c@),
                    None => None,
                },
                self.secret_token@,
            ),
    {
        let session_cookie = match cookie {
            Some(c) => c,
            None => return Err(ApiError::Unauthorized),
        };
        let mut expected = String::from_str(X_SECRET_TOKEN);
        expected.append("=");
        expected.append(self.secret_token.as_str());
        if !bytes_equal(session_cookie, expected.as_str().as_bytes()) {
            return Err(ApiError::Unauthorized);
        }
        Ok(())
    }
}

/// The address of a client, by the integer of its IPv4 or IPv6 address.
#[derive(Clone, Copy, Debug, PartialEq, Eq, Structural)]
pub enum ClientAddr {
    V4(u32),
    V6(u128),
}

/// The client addresses in the two sets.
pub open spec fn addr_set(v4: Set<u32>, v6: Set<u128>) -> Set<ClientAddr> {
    Set::new(
        |a: ClientAddr|
            match a {
                ClientAddr::V4(x) => v4.contains(x),
                ClientAddr::V6(y) => v6.contains(y),
            },
    )
}

/// What a first or repeated request from `addr` is logged with, given the addresses `seen`
/// before it: the number of distinct addresses that have used the API, on the first request
/// from an address; nothing on a later one.
pub open spec fn announcement(seen: Set<ClientAddr>, addr: ClientAddr) -> Option<nat> {
    if seen.contains(addr) {
        None
    } else {
        Some(seen.len() + 1)
    }
}

/// A client is logged once: a second request from the same address logs nothing.
pub proof fn lemma_repeat_client_not_logged(seen: Set<ClientAddr>, addr: ClientAddr)
    ensures
        announcement(seen.insert(addr), addr) is None,
{
}

/// New clients are numbered one after another: when two new addresses come in turn, the
/// second is logged with the number of the first plus one.
pub proof fn lemma_new_clients_count_up(seen: Set<ClientAddr>, a: ClientAddr, b: ClientAddr)
    requires
        seen.finite(),
        a != b,
        !seen.contains(a),
        !seen.contains(b),
    ensures
        announcement(seen, a) == Some(seen.len() + 1),
        announcement(seen.insert(a), b) == Some(seen.len() + 2),
{
}

/// The addresses of the clients that have used the web UI API.
pub struct IpAddresses {
    v4: HashSet<u32>,
    v6: HashSet<u128>,
}

impl View for IpAddresses {
    type V = Set<ClientAddr>;

    closed spec fn view(&self) -> Set<ClientAddr> {
        addr_set(self.v4@, self.v6@)
    }
}

/// The client addresses of two finite sets are finitely many, one for each member of either.
proof fn lemma_addr_set_len(v4: Set<u32>, v6: Set<u128>)
    requires
        v4.finite(),
        v6.finite(),
    ensures
        addr_set(v4, v6).finite(),
        addr_set(v4, v6).len() == v4.len() + v6.len(),
    decreases v4.len() + v6.len(),
{
    if v4.len() > 0 {
        let x = v4.choose();
        lemma_addr_set_len(v4.remove(x), v6);
        assert(addr_set(v4, v6) =~= addr_set(v4.remove(x), v6).insert(ClientAddr::V4(x)));
    } else if v6.len() > 0 {
        let y = v6.choose();
        lemma_addr_set_len(v4, v6.remove(y));
        assert(addr_set(v4, v6) =~= addr_set(v4, v6.remove(y)).insert(ClientAddr::V6(y)));
    } else {
        assert(v4 =~= Set::<u32>::empty());
        assert(v6 =~= Set::<u128>::empty());
        assert(addr_set(v4, v6) =~= Set::<ClientAddr>::empty());
    }
}

impl IpAddresses {
    /// The register keeps finitely many addresses.
    #[verifier::type_invariant]
    closed spec fn wf(&self) -> bool {
        &&& self.v4@.finite()
        &&& self.v6@.finite()
    }

    /// A register that has seen no client.
    pub fn new() -> (r: Self)
        ensures
            r@ == Set::<ClientAddr>::empty(),
    {
        let r = IpAddresses { v4: HashSet::new(), v6: HashSet::new() };
        assert(r@ =~= Set::<ClientAddr>::empty());
        r
    }

    /// Whether a request from `addr` has been recorded.
    pub fn contains(&self, addr: ClientAddr) -> (r: bool)
        ensures
            r == self@.contains(addr),
    {
        match addr {
            ClientAddr::V4(x) => self.v4.contains(&x),
            ClientAddr::V6(y) => self.v6.contains(&y),
        }
    }

    /// Records an authenticated request from `addr`. On the first request from an address
    /// it returns the number of distinct addresses seen so far, which the server logs; on a
    /// later one it returns `None`.
    pub fn record(&mut self, addr: ClientAddr) -> (r: Option<u128>)
        ensures
            final(self)@ == old(self)@.insert(addr),
            final(self)@.finite(),
            r is Some <==> announcement(old(self)@, addr) is Some,
            r matches Some(n) ==> announcement(old(self)@, addr) == Some(n as nat),
            r matches Some(n) ==> n == final(self)@.len(),
    {
        proof {
            use_type_invariant(&*self);
            lemma_addr_set_len(self.v4@, self.v6@);
        }
        if self.contains(addr) {
            assert(old(self)@.insert(addr) =~= old(self)@);
            return None;
        }
        match addr {
            ClientAddr::V4(x) => {
                let mut v4: HashSet<u32> = HashSet::new();
                std::mem::swap(&mut v4, &mut self.v4);
                v4.insert(x);
                std::mem::swap(&mut v4, &mut self.v4);
                assert(addr_set(self.v4@, self.v6@) =~= addr_set(old(self).v4@, self.v6@).insert(
                    addr,
                ));
            },
            ClientAddr::V6(y) => {
                let mut v6: HashSet<u128> = HashSet::new();
                std::mem::swap(&mut v6, &mut self.v6);
                v6.insert(y);
                std::mem::swap(&mut v6, &mut self.v6);
                assert(addr_set(self.v4@, self.v6@) =~= addr_set(self.v4@, old(self).v6@).insert(
                    addr,
                ));
            },
        }
        proof {
            lemma_addr_set_len(self.v4@, self.v6@);
        }
        let users_so_far = self.v4.len() as u128 + self.v6.len() as u128;
        Some(users_so_far)
    }
}

/// A request that the web UI API hands to the server.
#[derive(Clone, Copy, Debug, PartialEq, Eq, Structural)]
pub enum Message {
    ListPlayers,
    ListLogs,
}

/// The server's answer to a `Message`.
pub enum MessageReturn {
    Players(Vec<String>),
    Logs(Vec<String>),
}

/// The answer of the `/players` endpoint, given the server's reply to `Message::ListPlayers`
/// (`None` where the reply channel closed without one): the player list, or an internal
/// server error for a missing or mismatched reply.
pub fn players(reply: Option<MessageReturn>) -> (r: Result<Vec<String>, ApiError>)
    ensures
        match reply {
            Some(MessageReturn::Players(list)) => r == Ok::<Vec<String>, ApiError>(list),
            _ => r == Err::<Vec<String>, ApiError>(ApiError::InternalServerError),
        },
{
    match reply {
        Some(MessageReturn::Players(list)) => Ok(list),
        _ => Err(ApiError::InternalServerError),
    }
}

/// The answer of the `/logs` endpoint, given the server's reply to `Message::ListLogs`
/// (`None` where the reply channel closed without one): the log lines, or an internal
/// server error for a missing or mismatched reply.
pub fn logs(reply: Option<MessageReturn>) -> (r: Result<Vec<String>, ApiError>)
    ensures
        match reply {
            Some(MessageReturn::Logs(lines)) => r == Ok::<Vec<String>, ApiError>(lines),
            _ => r == Err::<Vec<String>, ApiError>(ApiError::InternalServerError),
        },
{
    match reply {
        Some(MessageReturn::Logs(lines)) => Ok(lines),
        _ => Err(ApiError::InternalServerError),
    }
}

} // verus!
