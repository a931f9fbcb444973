//! The request signer: turns credentials and one request into the
//! authentication headers of that request.
use vstd::prelude::*;
use crate::api::Method;
use crate::text::{decimal, decimal_string, lemma_decimal_injective};

verus! {

/// HMAC-SHA256 of the UTF-8 bytes of a message under the UTF-8 bytes of a key.
pub uninterp spec fn hmac_sha256_of(key: Seq<char>, msg: Seq<char>) -> Seq<u8>;

/// Base64 text of bytes, standard alphabet, with padding.
pub uninterp spec fn base64_of(bytes: Seq<u8>) -> Seq<char>;

/// A character of the standard base64 alphabet or its padding.
pub open spec fn is_base64_char(c: char) -> bool {
    ('A' <= c <= 'Z') || ('a' <= c <= 'z') || ('0' <= c <= '9') || c == '+' || c == '/' || c == '='
}

/// Relies on hmac's `Mac` for `Hmac<Sha256>`: `new_from_slice`, `update` and
/// `finalize` give the 32-byte HMAC-SHA256 of the message. hmac pads or hashes
/// a key of any length, so `new_from_slice` does not fail.
#[verifier::external_body]
fn hmac_sha256(key: &str, msg: &str) -> (r: Vec<u8>)
    ensures
        r@ == hmac_sha256_of(key@, msg@),
        r@.len() == 32,
{
    let mut mac = <hmac::Hmac<sha2::Sha256> as hmac::Mac>::new_from_slice(key.as_bytes())
        .expect("HMAC takes keys of any length");
    hmac::Mac::update(&mut mac, msg.as_bytes());
    hmac::Mac::finalize(mac).into_bytes().to_vec()
}

/// Relies on base64's `Engine::encode` with the `STANDARD` engine: four
/// characters of the padded standard alphabet for each started group of
/// three bytes. It panics only when that length overflows `usize`.
#[verifier::external_body]
fn base64_encode(bytes: &Vec<u8>) -> (r: String)
    requires
        bytes@.len() <= usize::MAX / 2,
    ensures
        r@ == base64_of(bytes@),
        r@.len() == 4 * ((bytes@.len() + 2) / 3),
        forall|i: int| 0 <= i < r@.len() ==> is_base64_char(#[trigger] r@[i]),
{
    base64::Engine::encode(&base64::engine::general_purpose::STANDARD, bytes)
}

/// The key set of one account: immutable once built. It has no `Debug`, so
/// that it cannot end up in a log.
#[derive(Clone, PartialEq, Eq)]
pub struct Credentials {
    pub api_key: String,
    pub api_secret: String,
    pub passphrase: String,
    /// Version of the key scheme; from 2 on the passphrase is sent digested.
    pub key_version: u32,
}

/// The authentication headers of one request.
#[derive(Clone, Debug, PartialEq, Eq)]
pub struct AuthHeaders {
    pub key: String,
    pub sign: String,
    pub timestamp: String,
    pub passphrase: String,
    pub key_version: String,
}

/// Why credentials cannot sign.
#[derive(Copy, Clone, Debug, PartialEq, Eq, Structural)]
pub enum SignError {
    /// The API key, or a passphrase sent as it is, holds a character that an
    /// HTTP header cannot carry.
    MalformedCredentials,
}

/// A character that an HTTP header value can carry: tab, or anything but
/// the other control characters.
pub open spec fn header_char(c: char) -> bool {
    c == '\t' || (c as u32 >= 32 && c as u32 != 127)
}

/// A text that an HTTP header value can carry.
pub open spec fn header_safe(s: Seq<char>) -> bool {
    forall|i: int| 0 <= i < s.len() ==> header_char(#[trigger] s[i])
}

/// The text that is signed: timestamp, method, endpoint and body, in this order.
pub open spec fn prehash(timestamp: u64, method: Method, endpoint: Seq<char>, body: Seq<char>) -> Seq<char> {
    decimal(timestamp as nat) + method.name() + endpoint + body
}

/// The keyed digest of a text, encoded for transport.
pub open spec fn digest_text(secret: Seq<char>, msg: Seq<char>) -> Seq<char> {
    base64_of(hmac_sha256_of(secret, msg))
}

impl Credentials {
    /// Whether the passphrase is sent digested rather than as it is.
    pub open spec fn digests_passphrase(self) -> bool {
        self.key_version >= 2
    }

    /// The passphrase as it is sent.
    pub open spec fn sent_passphrase(self) -> Seq<char> {
        if self.digests_passphrase() {
            digest_text(self.api_secret@, self.passphrase@)
        } else {
            self.passphrase@
        }
    }

    /// Whether these credentials can sign: every value sent as it is fits
    /// in a header.
    pub open spec fn usable(self) -> bool {
        header_safe(self.api_key@) && (!self.digests_passphrase() ==> header_safe(self.passphrase@))
    }
}

impl AuthHeaders {
    /// Key, signature, timestamp, passphrase and key version, in this order.
    pub open spec fn parts(self) -> (Seq<char>, Seq<char>, Seq<char>, Seq<char>, Seq<char>) {
        (self.key@, self.sign@, self.timestamp@, self.passphrase@, self.key_version@)
    }
}

/// The headers that signing gives for one request.
pub open spec fn headers_of(
    c: Credentials,
    method: Method,
    endpoint: Seq<char>,
    body: Seq<char>,
    timestamp: u64,
) -> (Seq<char>, Seq<char>, Seq<char>, Seq<char>, Seq<char>) {
    (
        c.api_key@,
        digest_text(c.api_secret@, prehash(timestamp, method, endpoint, body)),
        decimal(timestamp as nat),
        c.sent_passphrase(),
        decimal(c.key_version as nat),
    )
}

/// Whether every character of a text fits in a header.
fn check_header_safe(s: &str) -> (r: bool)
    ensures
        r == header_safe(s@),
{
    let n = s.unicode_len();
    let mut i: usize = 0;
    while i < n
        invariant
            n == s@.len(),
            i <= n,
            forall|j: int| 0 <= j < i ==> header_char(#[trigger] s@[j]),
        decreases n - i,
    {
        let c = s.get_char(i);
        if !(c == '\t' || (c as u32 >= 32 && c as u32 != 127)) {
            return false;
        }
        i = i + 1;
    }
    true
}

/// Keyed digest of a text under the secret, base64-encoded.
fn digest(secret: &str, msg: &str) -> (r: String)
    ensures
        r@ == digest_text(secret@, msg@),
{
    let mac = hmac_sha256(secret, msg);
    base64_encode(&mac)
}

/// Signs one request made at `timestamp` (milliseconds since the epoch).
/// `endpoint` is the path with its `?`-prefixed query exactly as sent, and
/// `body` is empty when there is none.
pub fn sign(
    credentials: &Credentials,
    method: Method,
    endpoint: &str,
    body: &str,
    timestamp: u64,
) -> (r: Result<AuthHeaders, SignError>)
    ensures
        r.is_ok() <==> credentials.usable(),
        r matches Ok(h) ==> h.parts() == headers_of(*credentials, method, endpoint@, body@, timestamp),
        r matches Err(e) ==> e == SignError::MalformedCredentials,
{
    if !check_header_safe(credentials.api_key.as_str()) {
        return Err(SignError::MalformedCredentials);
    }
    let digested = credentials.key_version >= 2;
    if !digested && !check_header_safe(credentials.passphrase.as_str()) {
        return Err(SignError::MalformedCredentials);
    }
    let ts = decimal_string(timestamp);
    let mut pre = ts.clone();
    pre.append(method.as_str());
    pre.append(endpoint);
    pre.append(body);
    let sign = digest(credentials.api_secret.as_str(), pre.as_str());
    let passphrase = if digested {
        digest(credentials.api_secret.as_str(), credentials.passphrase.as_str())
    } else {
        credentials.passphrase.clone()
    };
    Ok(AuthHeaders {
        key: credentials.api_key.clone(),
        sign,
        timestamp: ts,
        passphrase,
        key_version: decimal_string(credentials.key_version as u64),
    })
}

proof fn lemma_middle_equal(a: Seq<char>, x: Seq<char>, y: Seq<char>, c: Seq<char>)
    requires
        a + x + c == a + y + c,
    ensures
        x == y,
{
    assert(x.len() == y.len()) by {
        assert((a + x).len() == a.len() + x.len());
        assert((a + y).len() == a.len() + y.len());
        assert((a + x + c).len() == (a + x).len() + c.len());
        assert((a + y + c).len() == (a + y).len() + c.len());
    }
    assert(x =~= (a + x + c).subrange(a.len() as int, (a.len() + x.len()) as int));
    assert(y =~= (a + y + c).subrange(a.len() as int, (a.len() + y.len()) as int));
}

/// Signing is a function of its inputs: the same credentials, method,
/// endpoint, body and timestamp give the same headers. Changing exactly one
/// of method, endpoint, body or timestamp changes the signed text.
pub proof fn lemma_signing_deterministic(
    c: Credentials,
    m1: Method,
    e1: Seq<char>,
    b1: Seq<char>,
    t1: u64,
    m2: Method,
    e2: Seq<char>,
    b2: Seq<char>,
    t2: u64,
)
    ensures
        (m1 == m2 && e1 == e2 && b1 == b2 && t1 == t2) ==> headers_of(c, m1, e1, b1, t1) == headers_of(c, m2, e2, b2, t2),
        (m1 != m2 && e1 == e2 && b1 == b2 && t1 == t2) ==> prehash(t1, m1, e1, b1) != prehash(t2, m2, e2, b2),
        (m1 == m2 && e1 != e2 && b1 == b2 && t1 == t2) ==> prehash(t1, m1, e1, b1) != prehash(t2, m2, e2, b2),
        (m1 == m2 && e1 == e2 && b1 != b2 && t1 == t2) ==> prehash(t1, m1, e1, b1) != prehash(t2, m2, e2, b2),
        (m1 == m2 && e1 == e2 && b1 == b2 && t1 != t2) ==> prehash(t1, m1, e1, b1) != prehash(t2, m2, e2, b2),
{
    let d1 = decimal(t1 as nat);
    let d2 = decimal(t2 as nat);
    if m1 != m2 && e1 == e2 && b1 == b2 && t1 == t2 && prehash(t1, m1, e1, b1) == prehash(t2, m2, e2, b2) {
        assert(d1 + m1.name() + (e1 + b1) =~= prehash(t1, m1, e1, b1));
        assert(d1 + m2.name() + (e1 + b1) =~= prehash(t2, m2, e2, b2));
        lemma_middle_equal(d1, m1.name(), m2.name(), e1 + b1);
        reveal_strlit("GET");
        reveal_strlit("POST");
        reveal_strlit("PUT");
        reveal_strlit("DELETE");
        assert(m1.name()[0] != m2.name()[0] || m1.name().len() != m2.name().len());
    }
    if m1 == m2 && e1 != e2 && b1 == b2 && t1 == t2 && prehash(t1, m1, e1, b1) == prehash(t2, m2, e2, b2) {
        lemma_middle_equal(d1 + m1.name(), e1, e2, b1);
    }
    if m1 == m2 && e1 == e2 && b1 != b2 && t1 == t2 && prehash(t1, m1, e1, b1) == prehash(t2, m2, e2, b2) {
        lemma_middle_equal(d1 + m1.name() + e1, b1, b2, Seq::empty());
        assert(d1 + m1.name() + e1 + b1 + Seq::<char>::empty() =~= prehash(t1, m1, e1, b1));
        assert(d1 + m1.name() + e1 + b2 + Seq::<char>::empty() =~= prehash(t2, m2, e2, b2));
    }
    if m1 == m2 && e1 == e2 && b1 == b2 && t1 != t2 && prehash(t1, m1, e1, b1) == prehash(t2, m2, e2, b2) {
        let rest = m1.name() + e1 + b1;
        assert(d1 + rest =~= prehash(t1, m1, e1, b1));
        assert(d2 + rest =~= prehash(t2, m2, e2, b2));
        assert(d1.len() == d2.len());
        assert(d1 =~= (d1 + rest).subrange(0, d1.len() as int));
        assert(d2 =~= (d2 + rest).subrange(0, d2.len() as int));
        lemma_decimal_injective(t1 as nat, t2 as nat);
    }
}

/// The passphrase that signing sends depends on the credentials alone: two
/// requests that differ in method, endpoint, body or timestamp carry the
/// same passphrase header.
pub proof fn lemma_passphrase_independent(
    c: Credentials,
    m1: Method,
    e1: Seq<char>,
    b1: Seq<char>,
    t1: u64,
    m2: Method,
    e2: Seq<char>,
    b2: Seq<char>,
    t2: u64,
)
    ensures
        headers_of(c, m1, e1, b1, t1).3 == headers_of(c, m2, e2, b2, t2).3,
        headers_of(c, m1, e1, b1, t1).3 == c.sent_passphrase(),
{
}

} // verus!
