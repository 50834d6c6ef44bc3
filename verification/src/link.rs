use vstd::prelude::*;
use base64::Engine;
use hmac::Mac;
use sha2::Digest;
use crate::strmap::StrMap;
use crate::text::{chars_of, push_char, push_chars, split_chars, split_on, string_from_chars, trim, views};
use crate::markdown::strip_lead;

verus! {

// ----- outside computations -----

/// The SHA-256 digest of some bytes.
pub uninterp spec fn sha256(data: Seq<u8>) -> Seq<u8>;

/// The HMAC-SHA-256 tag of a message under a key.
pub uninterp spec fn hmac_sha256(key: Seq<u8>, message: Seq<u8>) -> Seq<u8>;

/// The standard (padded) base64 text of some bytes.
pub uninterp spec fn base64_encode(data: Seq<u8>) -> Seq<char>;

/// The bytes that a standard base64 text stands for, if it is one.
pub uninterp spec fn base64_decode(text: Seq<char>) -> Option<Seq<u8>>;

/// How base64 decoding reports a text that is not standard base64.
pub uninterp spec fn base64_error_text(text: Seq<char>) -> Seq<char>;

/// The X25519 public key of a secret key.
pub uninterp spec fn x25519_public(secret: Seq<u8>) -> Seq<u8>;

/// The X25519 shared secret of a secret key and another party's public key.
pub uninterp spec fn x25519(secret: Seq<u8>, public: Seq<u8>) -> Seq<u8>;

/// SHA-256 of `data` (`sha2::Sha256`); the digest is 32 bytes.
#[verifier::external_body]
fn sha256_digest(data: &[u8]) -> (r: Vec<u8>)
    ensures
        r@ == sha256(data@),
        r@.len() == 32,
{
    let mut hasher = sha2::Sha256::new();
    hasher.update(data);
    hasher.finalize().to_vec()
}

/// HMAC-SHA-256 of `message` under `key` (`hmac::Hmac<Sha256>`, which takes a
/// key of any length).
#[verifier::external_body]
fn hmac_sha256_tag(key: &[u8], message: &[u8]) -> (r: Vec<u8>)
    ensures
        r@ == hmac_sha256(key@, message@),
{
    let mut mac = <hmac::Hmac<sha2::Sha256> as hmac::Mac>::new_from_slice(key).unwrap();
    mac.update(message);
    mac.finalize().into_bytes().to_vec()
}

/// Base64 text of `data` (standard alphabet with padding); it decodes back to
/// `data`.
#[verifier::external_body]
fn base64_encode_bytes(data: &[u8]) -> (r: String)
    ensures
        r@ == base64_encode(data@),
        base64_decode(r@) == Some(data@),
{
    base64::engine::general_purpose::STANDARD.encode(data)
}

/// The bytes of a standard base64 text; decoding refuses non-canonical
/// padding and stray trailing bits, so a text it accepts is the encoding of
/// what it returns.
#[verifier::external_body]
fn base64_decode_text(text: &str) -> (r: Result<Vec<u8>, String>)
    ensures
        match r {
            Ok(v) => base64_decode(text@) == Some(v@) && base64_encode(v@) == text@,
            Err(m) => base64_decode(text@) is None && m@ == base64_error_text(text@),
        },
{
    match base64::engine::general_purpose::STANDARD.decode(text.as_bytes()) {
        Ok(v) => Ok(v),
        Err(e) => Err(e.to_string()),
    }
}

/// The X25519 public key of a 32-byte secret (`PublicKey::from(&StaticSecret)`).
#[verifier::external_body]
fn x25519_public_of(secret: &[u8]) -> (r: Vec<u8>)
    requires
        secret@.len() == 32,
    ensures
        r@ == x25519_public(secret@),
        r@.len() == 32,
{
    let bytes: [u8; 32] = secret.try_into().unwrap();
    let s = x25519_dalek::StaticSecret::from(bytes);
    x25519_dalek::PublicKey::from(&s).as_bytes().to_vec()
}

/// The X25519 shared secret of a 32-byte secret and a 32-byte public key
/// (`StaticSecret::diffie_hellman`). Both parties of an exchange get the same
/// secret.
#[verifier::external_body]
fn x25519_agree(secret: &[u8], public: &[u8]) -> (r: Vec<u8>)
    requires
        secret@.len() == 32,
        public@.len() == 32,
    ensures
        r@ == x25519(secret@, public@),
        r@.len() == 32,
        forall|other: Seq<u8>|
            other.len() == 32 && public@ == #[trigger] x25519_public(other) ==> r@ == x25519(
                other,
                x25519_public(secret@),
            ),
{
    let s: [u8; 32] = secret.try_into().unwrap();
    let p: [u8; 32] = public.try_into().unwrap();
    let shared = x25519_dalek::StaticSecret::from(s).diffie_hellman(&x25519_dalek::PublicKey::from(p));
    shared.as_bytes().to_vec()
}

// ----- protocol values -----

/// The version of the pairing service.
pub const REMOTE_PAIRING_SERVICE_VERSION: i32 = 1;

/// The platform and model of a device.
pub struct RemoteDeviceInfo {
    pub platform: String,
    pub model: String,
}

impl RemoteDeviceInfo {
    /// `platform-model`.
    #[allow(non_snake_case)]
    pub fn displayName(&self) -> (r: String)
        ensures
            r@ == self.platform@ + seq!['-'] + self.model@,
    {
        let mut out = self.platform.clone();
        push_char(&mut out, '-');
        out.append(self.model.as_str());
        out
    }

    /// The same platform and model.
    pub fn duplicate(&self) -> (r: Self)
        ensures
            r.platform@ == self.platform@,
            r.model@ == self.model@,
    {
        RemoteDeviceInfo { platform: self.platform.clone(), model: self.model.clone() }
    }
}

/// An error answered to a link request.
pub struct CoreLinkError {
    pub code: String,
    pub message: String,
}

/// A refusal with its code and message.
pub open spec fn link_error(e: &CoreLinkError, code: Seq<char>, message: Seq<char>) -> bool {
    e.code@ == code && e.message@ == message
}

impl CoreLinkError {
    /// An error with the given code and message.
    pub fn new(code: &str, message: &str) -> (e: Self)
        ensures
            link_error(&e, code@, message@),
    {
        CoreLinkError { code: String::from_str(code), message: String::from_str(message) }
    }
}

// ----- hashing the handshake -----

/// The UTF-8 bytes of a string.
pub open spec fn utf8(s: Seq<char>) -> Seq<u8> {
    vstd::utf8::encode_utf8(s)
}

/// The proof that one side of a pairing knows the shared secret:
/// base64(SHA-256(secret ‖ client nonce ‖ server nonce ‖ role)).
pub open spec fn proof_spec(shared: Seq<u8>, client_nonce: Seq<char>, server_nonce: Seq<char>, role: Seq<char>) -> Seq<char> {
    base64_encode(sha256(shared + utf8(client_nonce) + utf8(server_nonce) + utf8(role)))
}

/// The session secret of a pairing: SHA-256(secret ‖ client nonce ‖ server nonce ‖ "session").
pub open spec fn session_secret_spec(shared: Seq<u8>, client_nonce: Seq<char>, server_nonce: Seq<char>) -> Seq<u8> {
    sha256(shared + utf8(client_nonce) + utf8(server_nonce) + utf8("session"@))
}

/// The signature of a request body: base64(HMAC-SHA-256(session secret, body)).
pub open spec fn sign_spec(secret: Seq<u8>, body: Seq<u8>) -> Seq<char> {
    base64_encode(hmac_sha256(secret, body))
}

fn append_bytes(out: &mut Vec<u8>, data: &[u8])
    ensures
        final(out)@ == old(out)@ + data@,
{
    let ghost o = out@;
    let mut i: usize = 0;
    while i < data.len()
        invariant
            i <= data.len(),
            out@ == o + data@.subrange(0, i as int),
        decreases data.len() - i,
    {
        out.push(data[i]);
        assert(data@.subrange(0, i + 1) == data@.subrange(0, i as int).push(data@[i as int]));
        i = i + 1;
    }
    assert(data@.subrange(0, data.len() as int) == data@);
}

fn handshake_bytes(shared: &[u8], client_nonce: &str, server_nonce: &str, role: &str) -> (r: Vec<u8>)
    ensures
        r@ == shared@ + utf8(client_nonce@) + utf8(server_nonce@) + utf8(role@),
{
    let mut data: Vec<u8> = Vec::new();
    append_bytes(&mut data, shared);
    append_bytes(&mut data, client_nonce.as_bytes());
    append_bytes(&mut data, server_nonce.as_bytes());
    append_bytes(&mut data, role.as_bytes());
    assert(data@ == Seq::<u8>::empty() + shared@ + utf8(client_nonce@) + utf8(server_nonce@) + utf8(role@));
    data
}

/// The proof of one side (`role` is `client` or `core`) of a pairing.
pub fn handshake_proof(shared_secret: &[u8], client_nonce: &str, server_nonce: &str, role: &str) -> (r: String)
    ensures
        r@ == proof_spec(shared_secret@, client_nonce@, server_nonce@, role@),
{
    let data = handshake_bytes(shared_secret, client_nonce, server_nonce, role);
    let digest = sha256_digest(data.as_slice());
    base64_encode_bytes(digest.as_slice())
}

/// The session secret of a pairing.
pub fn session_secret(shared_secret: &[u8], client_nonce: &str, server_nonce: &str) -> (r: Vec<u8>)
    ensures
        r@ == session_secret_spec(shared_secret@, client_nonce@, server_nonce@),
        r@.len() == 32,
{
    proof {
        reveal_strlit("session");
    }
    let data = handshake_bytes(shared_secret, client_nonce, server_nonce, "session");
    sha256_digest(data.as_slice())
}

/// The signature of a request body under a session secret.
pub fn sign(session_secret: &[u8], body: &[u8]) -> (r: String)
    ensures
        r@ == sign_spec(session_secret@, body@),
{
    let tag = hmac_sha256_tag(session_secret, body);
    base64_encode_bytes(tag.as_slice())
}

/// The base64 text of a public key.
pub fn public_key_to_string(key: &[u8]) -> (r: String)
    ensures
        r@ == base64_encode(key@),
{
    base64_encode_bytes(key)
}

/// The 32 bytes of a base64 public key; the decoder's message, or
/// `public key must be 32 bytes`, when it is not one.
pub fn parse_public_key(value: &str) -> (r: Result<Vec<u8>, String>)
    ensures
        match r {
            Ok(k) => base64_decode(value@) == Some(k@) && k@.len() == 32,
            Err(m) => match base64_decode(value@) {
                None => m@ == base64_error_text(value@),
                Some(b) => b.len() != 32 && m@ == "public key must be 32 bytes"@,
            },
        },
{
    match base64_decode_text(value) {
        Ok(bytes) => {
            if bytes.len() != 32 {
                Err(String::from_str("public key must be 32 bytes"))
            } else {
                Ok(bytes)
            }
        },
        Err(m) => Err(m),
    }
}

/// The decimal digits of `n`, at least `width` of them (zeros in front).
pub open spec fn decimal_padded(n: nat, width: nat) -> Seq<char>
    decreases width, n,
{
    if width == 0 && n == 0 {
        Seq::<char>::empty()
    } else if width == 0 {
        decimal_padded(n / 10, 0) + seq![((n % 10) + 48) as char]
    } else {
        decimal_padded(n / 10, (width - 1) as nat) + seq![((n % 10) + 48) as char]
    }
}

/// Ten to the power `6 - k`: what a number of `6 - k` digits stays under.
pub open spec fn digits_bound(k: int) -> int {
    if k <= 0 { 1_000_000 } else if k == 1 { 100_000 } else if k == 2 { 10_000 } else if k == 3 { 1_000 } else if k == 4 { 100 } else if k == 5 { 10 } else { 1 }
}

/// A six-digit pairing code from 128 random bits: the bits modulo a million,
/// written with leading zeros.
pub fn pairing_code_from(bits: u128) -> (r: String)
    ensures
        r@ == decimal_padded((bits % 1_000_000) as nat, 6),
        r@.len() == 6,
{
    let mut n: u32 = (bits % 1_000_000) as u32;
    let mut digits: Vec<char> = Vec::new();
    let mut k: usize = 0;
    let ghost total = (bits % 1_000_000) as nat;
    while k < 6
        invariant
            k <= 6,
            n < digits_bound(k as int),
            digits@.len() == k,
            decimal_padded(total, 6) == decimal_padded(n as nat, (6 - k) as nat) + digits@,
        decreases 6 - k,
    {
        let d = n % 10;
        let c: char = if d == 0 { '0' } else if d == 1 { '1' } else if d == 2 { '2' } else if d == 3 { '3' } else if d == 4 { '4' } else if d == 5 { '5' } else if d == 6 { '6' } else if d == 7 { '7' } else if d == 8 { '8' } else { '9' };
        proof {
            assert(c == ((n % 10) + 48) as char);
            assert(decimal_padded(n as nat, (6 - k) as nat) == decimal_padded((n / 10) as nat, (6 - k - 1) as nat) + seq![c]);
        }
        let mut next: Vec<char> = Vec::new();
        next.push(c);
        let mut j: usize = 0;
        while j < digits.len()
            invariant
                j <= digits.len(),
                next@ == seq![c] + digits@.subrange(0, j as int),
            decreases digits.len() - j,
        {
            next.push(digits[j]);
            j = j + 1;
        }
        assert(digits@.subrange(0, digits.len() as int) == digits@);
        digits = next;
        n = n / 10;
        k = k + 1;
    }
    assert(n == 0);
    assert(decimal_padded(0, 0) == Seq::<char>::empty());
    assert(decimal_padded(total, 6) == digits@);
    string_from_chars(digits.as_slice())
}


// ----- the link server's pairing and session state -----

/// A pairing that has started and waits for its code.
pub struct PendingPairing {
    pub pairingServiceVersion: i32,
    pub clientDeviceId: String,
    pub clientDeviceInfo: RemoteDeviceInfo,
    pub clientPublicKey: String,
    pub pairingCode: String,
    pub serverNonce: String,
    pub clientNonce: String,
    pub sharedSecret: Vec<u8>,
}

/// A paired client that may call the core.
pub struct RemoteSession {
    pub deviceId: String,
    pub deviceInfo: RemoteDeviceInfo,
    pub pairingServiceVersion: i32,
    pub sessionSecret: Vec<u8>,
}

/// A session as the store keeps it, with its secret in base64.
pub struct AcceptedRemoteSessionRecord {
    pub deviceId: String,
    pub deviceInfo: RemoteDeviceInfo,
    pub pairingServiceVersion: i32,
    pub sessionSecret: String,
}

/// A pairing code shown to the user, with what it is for.
pub struct RemotePairingCodeRecord {
    pub pairingId: String,
    pub pairingServiceVersion: i32,
    pub clientDeviceId: String,
    pub clientDeviceInfo: RemoteDeviceInfo,
    pub pairingCode: String,
    pub createdAt: i64,
}

/// The first request of a pairing.
pub struct PairStartRequest {
    pub pairingServiceVersion: i32,
    pub token: String,
    pub clientDeviceId: String,
    pub clientDeviceInfo: RemoteDeviceInfo,
    pub clientPublicKey: String,
    pub clientNonce: String,
}

/// The answer to the first request of a pairing.
pub struct PairStartResponse {
    pub pairingId: String,
    pub pairingServiceVersion: i32,
    pub coreDeviceId: String,
    pub coreDeviceInfo: RemoteDeviceInfo,
    pub corePublicKey: String,
    pub serverNonce: String,
}

/// The second request of a pairing: the code and the client's proof.
pub struct PairFinishRequest {
    pub pairingId: String,
    pub pairingCode: String,
    pub clientProof: String,
}

/// The answer that completes a pairing.
pub struct PairFinishResponse {
    pub sessionId: String,
    pub pairingServiceVersion: i32,
    pub coreProof: String,
}

/// What a client learns before pairing.
pub struct HelloResponse {
    pub protocolVersion: i32,
    pub pairingServiceVersion: i32,
    pub coreDeviceId: String,
    pub coreDeviceInfo: RemoteDeviceInfo,
    pub corePublicKey: String,
    pub transports: Vec<String>,
    pub pairingRequired: bool,
}

/// A signed request for the session's details.
pub struct RemoteSessionInfoEnvelope {
    pub nonce: String,
}

/// The details of a session.
pub struct RemoteSessionInfoResponse {
    pub protocolVersion: i32,
    pub pairingServiceVersion: i32,
    pub coreDeviceId: String,
    pub coreDeviceInfo: RemoteDeviceInfo,
    pub clientDeviceId: String,
    pub clientDeviceInfo: RemoteDeviceInfo,
    pub transports: Vec<String>,
    pub nonce: String,
}

/// A refused request: the HTTP status and the error answered.
pub struct LinkRefusal {
    pub status: u16,
    pub error: CoreLinkError,
}

/// A refusal with this status, code and message.
pub open spec fn refusal(r: &LinkRefusal, status: u16, code: Seq<char>, message: Seq<char>) -> bool {
    r.status == status && link_error(&r.error, code, message)
}

fn unauthorized(message: &str) -> (r: LinkRefusal)
    ensures
        refusal(&r, 401, "UNAUTHORIZED"@, message@),
{
    LinkRefusal { status: 401, error: CoreLinkError::new("UNAUTHORIZED", message) }
}

fn bad_request(message: &str) -> (r: LinkRefusal)
    ensures
        refusal(&r, 400, "BAD_REQUEST"@, message@),
{
    LinkRefusal { status: 400, error: CoreLinkError::new("BAD_REQUEST", message) }
}

/// Whether the link token header is present and equals the token.
pub fn token_matches(token: &str, header: Option<&str>) -> (r: bool)
    ensures
        r == match header {
            Some(h) => h@ == token@,
            None => false,
        },
{
    match header {
        Some(h) => crate::text::str_eq(h, token),
        None => false,
    }
}

/// The transports a core offers.
fn transports() -> (r: Vec<String>)
    ensures
        crate::text::str_views(r@) == seq!["http"@, "ws"@],
{
    let mut v: Vec<String> = Vec::new();
    v.push(String::from_str("http"));
    v.push(String::from_str("ws"));
    assert(crate::text::str_views(v@) == seq!["http"@, "ws"@]);
    v
}

/// The pairing and session state of a link server.
pub struct RemoteLinkServerState {
    token: String,
    keySecret: Vec<u8>,
    keyPublic: String,
    deviceId: String,
    deviceInfo: RemoteDeviceInfo,
    pairings: StrMap<PendingPairing>,
    sessions: StrMap<RemoteSession>,
    acceptedSessionIds: StrMap<bool>,
}

impl RemoteLinkServerState {
    /// The maps keep their keys in order and the secret key has 32 bytes.
    pub closed spec fn wf(&self) -> bool {
        &&& self.keySecret@.len() == 32
        &&& self.pairings.wf()
        &&& self.sessions.wf()
        &&& self.acceptedSessionIds.wf()
    }

    /// The link token.
    pub closed spec fn token_view(&self) -> Seq<char> {
        self.token@
    }

    /// The server's X25519 secret key.
    pub closed spec fn secret_view(&self) -> Seq<u8> {
        self.keySecret@
    }

    /// The server's public key, in base64.
    pub closed spec fn public_view(&self) -> Seq<char> {
        self.keyPublic@
    }

    /// The pending pairing under an id.
    pub closed spec fn pairing(&self, id: Seq<char>) -> Option<PendingPairing> {
        self.pairings.get_spec(id)
    }

    /// The session under an id.
    pub closed spec fn session(&self, id: Seq<char>) -> Option<RemoteSession> {
        self.sessions.get_spec(id)
    }

    /// Whether a session id was accepted through pairing or the store.
    pub closed spec fn accepted(&self, id: Seq<char>) -> bool {
        self.acceptedSessionIds.get_spec(id) is Some
    }

    /// A server with no pairings and no sessions.
    pub fn new(token: String, key_secret: Vec<u8>, device_id: String, device_info: RemoteDeviceInfo) -> (s: Self)
        requires
            key_secret@.len() == 32,
        ensures
            s.wf(),
            s.token_view() == token@,
            s.secret_view() == key_secret@,
            s.public_view() == base64_encode(x25519_public(key_secret@)),
            forall|id: Seq<char>| #[trigger] s.pairing(id) is None,
            forall|id: Seq<char>| #[trigger] s.session(id) is None,
            forall|id: Seq<char>| !#[trigger] s.accepted(id),
    {
        let public = x25519_public_of(key_secret.as_slice());
        let key_public = public_key_to_string(public.as_slice());
        RemoteLinkServerState {
            token,
            keySecret: key_secret,
            keyPublic: key_public,
            deviceId: device_id,
            deviceInfo: device_info,
            pairings: StrMap::new(),
            sessions: StrMap::new(),
            acceptedSessionIds: StrMap::new(),
        }
    }

    /// The answer to `hello`, for a request with the right token.
    pub fn hello(&self, token_header: Option<&str>) -> (r: Result<HelloResponse, LinkRefusal>)
        ensures
            match r {
                Ok(h) => token_header.is_some() && token_header.unwrap()@ == self.token_view()
                    && h.corePublicKey@ == self.public_view() && h.pairingRequired
                    && h.protocolVersion == 1 && h.pairingServiceVersion == REMOTE_PAIRING_SERVICE_VERSION,
                Err(e) => !(token_header.is_some() && token_header.unwrap()@ == self.token_view())
                    && refusal(&e, 401, "UNAUTHORIZED"@, "invalid token"@),
            },
    {
        if !token_matches(self.token.as_str(), token_header) {
            return Err(unauthorized("invalid token"));
        }
        Ok(HelloResponse {
            protocolVersion: 1,
            pairingServiceVersion: REMOTE_PAIRING_SERVICE_VERSION,
            coreDeviceId: self.deviceId.clone(),
            coreDeviceInfo: self.deviceInfo.duplicate(),
            corePublicKey: self.keyPublic.clone(),
            transports: transports(),
            pairingRequired: true,
        })
    }

    /// Checks the first request of a pairing and returns the secret shared with
    /// the client: the token must match and the client key must be 32 bytes of
    /// base64.
    pub fn pair_start_check(&self, request: &PairStartRequest) -> (r: Result<Vec<u8>, LinkRefusal>)
        requires
            self.wf(),
        ensures
            match r {
                Ok(shared) => request.token@ == self.token_view()
                    && base64_decode(request.clientPublicKey@) is Some
                    && base64_decode(request.clientPublicKey@).unwrap().len() == 32
                    && shared@ == x25519(self.secret_view(), base64_decode(request.clientPublicKey@).unwrap()),
                Err(e) => (request.token@ != self.token_view() && refusal(&e, 401, "UNAUTHORIZED"@, "invalid token"@))
                    || (request.token@ == self.token_view() && e.status == 400 && e.error.code@ == "BAD_REQUEST"@
                        && !(base64_decode(request.clientPublicKey@) is Some
                            && base64_decode(request.clientPublicKey@).unwrap().len() == 32)),
            },
    {
        if !crate::text::str_eq(request.token.as_str(), self.token.as_str()) {
            return Err(unauthorized("invalid token"));
        }
        match parse_public_key(request.clientPublicKey.as_str()) {
            Ok(client_public) => Ok(x25519_agree(self.keySecret.as_slice(), client_public.as_slice())),
            Err(m) => Err(LinkRefusal { status: 400, error: CoreLinkError { code: String::from_str("BAD_REQUEST"), message: m } }),
        }
    }

    /// Records a started pairing and answers it.
    pub fn pair_start_commit(
        &mut self,
        request: PairStartRequest,
        shared_secret: Vec<u8>,
        pairing_id: String,
        pairing_code: String,
        server_nonce: String,
    ) -> (r: PairStartResponse)
        requires
            old(self).wf(),
        ensures
            final(self).wf(),
            final(self).token_view() == old(self).token_view(),
            final(self).secret_view() == old(self).secret_view(),
            final(self).public_view() == old(self).public_view(),
            forall|id: Seq<char>| #[trigger] final(self).session(id) == old(self).session(id),
            forall|id: Seq<char>| #[trigger] final(self).accepted(id) == old(self).accepted(id),
            forall|id: Seq<char>| id != pairing_id@ ==> #[trigger] final(self).pairing(id) == old(self).pairing(id),
            final(self).pairing(pairing_id@) is Some,
            final(self).pairing(pairing_id@).unwrap().pairingCode@ == pairing_code@,
            final(self).pairing(pairing_id@).unwrap().sharedSecret@ == shared_secret@,
            final(self).pairing(pairing_id@).unwrap().clientNonce@ == request.clientNonce@,
            final(self).pairing(pairing_id@).unwrap().serverNonce@ == server_nonce@,
            final(self).pairing(pairing_id@).unwrap().clientDeviceId@ == request.clientDeviceId@,
            final(self).pairing(pairing_id@).unwrap().pairingServiceVersion == request.pairingServiceVersion,
            r.pairingId@ == pairing_id@,
            r.serverNonce@ == server_nonce@,
            r.corePublicKey@ == old(self).public_view(),
            r.pairingServiceVersion == REMOTE_PAIRING_SERVICE_VERSION,
    {
        let response = PairStartResponse {
            pairingId: pairing_id.clone(),
            pairingServiceVersion: REMOTE_PAIRING_SERVICE_VERSION,
            coreDeviceId: self.deviceId.clone(),
            coreDeviceInfo: self.deviceInfo.duplicate(),
            corePublicKey: self.keyPublic.clone(),
            serverNonce: server_nonce.clone(),
        };
        let pending = PendingPairing {
            pairingServiceVersion: request.pairingServiceVersion,
            clientDeviceId: request.clientDeviceId,
            clientDeviceInfo: request.clientDeviceInfo,
            clientPublicKey: request.clientPublicKey,
            pairingCode: pairing_code,
            serverNonce: server_nonce,
            clientNonce: request.clientNonce,
            sharedSecret: shared_secret,
        };
        self.pairings.insert(pairing_id, pending);
        response
    }

    /// Checks the second request of a pairing. The pairing is taken out whatever
    /// the outcome; it succeeds when the code (trimmed) and the client's proof
    /// match, and returns the pairing with the new session secret.
    pub fn pair_finish_check(&mut self, request: &PairFinishRequest) -> (r: Result<(PendingPairing, Vec<u8>), LinkRefusal>)
        requires
            old(self).wf(),
        ensures
            final(self).wf(),
            final(self).token_view() == old(self).token_view(),
            final(self).secret_view() == old(self).secret_view(),
            final(self).public_view() == old(self).public_view(),
            forall|id: Seq<char>| #[trigger] final(self).session(id) == old(self).session(id),
            forall|id: Seq<char>| #[trigger] final(self).accepted(id) == old(self).accepted(id),
            forall|id: Seq<char>| #[trigger] final(self).pairing(id) == if id == request.pairingId@ {
                None
            } else {
                old(self).pairing(id)
            },
            match old(self).pairing(request.pairingId@) {
                None => r matches Err(e) && refusal(&e, 400, "BAD_REQUEST"@, "pairing not found"@),
                Some(p) => if p.pairingCode@ != trim(request.pairingCode@) {
                    r matches Err(e) && refusal(&e, 401, "UNAUTHORIZED"@, "invalid pairing code"@)
                } else if request.clientProof@ != proof_spec(p.sharedSecret@, p.clientNonce@, p.serverNonce@, "client"@) {
                    r matches Err(e) && refusal(&e, 401, "UNAUTHORIZED"@, "invalid client proof"@)
                } else {
                    r matches Ok((q, secret)) && q == p
                        && secret@ == session_secret_spec(p.sharedSecret@, p.clientNonce@, p.serverNonce@)
                },
            },
    {
        proof {
            reveal_strlit("client");
        }
        let taken = self.pairings.remove(request.pairingId.as_str());
        let pairing = match taken {
            Some(p) => p,
            None => {
                return Err(bad_request("pairing not found"));
            },
        };
        let code = crate::text::trim_str(request.pairingCode.as_str());
        if !crate::text::str_eq(pairing.pairingCode.as_str(), code.as_str()) {
            return Err(unauthorized("invalid pairing code"));
        }
        let expected = handshake_proof(
            pairing.sharedSecret.as_slice(),
            pairing.clientNonce.as_str(),
            pairing.serverNonce.as_str(),
            "client",
        );
        if !crate::text::str_eq(request.clientProof.as_str(), expected.as_str()) {
            return Err(unauthorized("invalid client proof"));
        }
        let secret = session_secret(pairing.sharedSecret.as_slice(), pairing.clientNonce.as_str(), pairing.serverNonce.as_str());
        Ok((pairing, secret))
    }

    /// The record that the session store keeps for a new session.
    pub fn accepted_record(pairing: &PendingPairing, session_secret: &[u8]) -> (r: AcceptedRemoteSessionRecord)
        ensures
            r.deviceId@ == pairing.clientDeviceId@,
            r.pairingServiceVersion == pairing.pairingServiceVersion,
            r.sessionSecret@ == base64_encode(session_secret@),
    {
        AcceptedRemoteSessionRecord {
            deviceId: pairing.clientDeviceId.clone(),
            deviceInfo: pairing.clientDeviceInfo.duplicate(),
            pairingServiceVersion: pairing.pairingServiceVersion,
            sessionSecret: base64_encode_bytes(session_secret),
        }
    }

    /// Accepts the session of a checked pairing and answers with the core's proof.
    pub fn pair_finish_commit(&mut self, session_id: String, pairing: PendingPairing, session_secret: Vec<u8>) -> (r: PairFinishResponse)
        requires
            old(self).wf(),
        ensures
            final(self).wf(),
            final(self).token_view() == old(self).token_view(),
            final(self).secret_view() == old(self).secret_view(),
            final(self).public_view() == old(self).public_view(),
            forall|id: Seq<char>| #[trigger] final(self).pairing(id) == old(self).pairing(id),
            forall|id: Seq<char>| id != session_id@ ==> #[trigger] final(self).session(id) == old(self).session(id),
            forall|id: Seq<char>| #[trigger] final(self).accepted(id) == (id == session_id@ || old(self).accepted(id)),
            final(self).session(session_id@) is Some,
            final(self).session(session_id@).unwrap().deviceId@ == pairing.clientDeviceId@,
            final(self).session(session_id@).unwrap().sessionSecret@ == session_secret@,
            final(self).session(session_id@).unwrap().pairingServiceVersion == pairing.pairingServiceVersion,
            r.sessionId@ == session_id@,
            r.pairingServiceVersion == pairing.pairingServiceVersion,
            r.coreProof@ == proof_spec(pairing.sharedSecret@, pairing.clientNonce@, pairing.serverNonce@, "core"@),
    {
        proof {
            reveal_strlit("core");
        }
        let core_proof = handshake_proof(
            pairing.sharedSecret.as_slice(),
            pairing.clientNonce.as_str(),
            pairing.serverNonce.as_str(),
            "core",
        );
        self.acceptedSessionIds.insert(session_id.clone(), true);
        let version = pairing.pairingServiceVersion;
        let session = RemoteSession {
            deviceId: pairing.clientDeviceId,
            deviceInfo: pairing.clientDeviceInfo,
            pairingServiceVersion: version,
            sessionSecret: session_secret,
        };
        self.sessions.insert(session_id.clone(), session);
        PairFinishResponse { sessionId: session_id, pairingServiceVersion: version, coreProof: core_proof }
    }

    /// Whether the state accepts a request signed with `signature` for `body`
    /// in session `session_id` from device `device_id`.
    pub open spec fn session_accepts(&self, session_id: Seq<char>, device_id: Seq<char>, signature: Seq<char>, body: Seq<u8>) -> bool {
        &&& self.session(session_id) is Some
        &&& self.session(session_id).unwrap().deviceId@ == device_id
        &&& sign_spec(self.session(session_id).unwrap().sessionSecret@, body) == signature
    }

    /// Whether a signed request comes from a paired client: the session must
    /// exist, belong to the device, and the signature must be that of the body.
    pub fn verify_session_parts(&self, session_id: &str, device_id: &str, signature: &str, body: &[u8]) -> (r: Result<(), CoreLinkError>)
        requires
            self.wf(),
        ensures
            match self.session(session_id@) {
                None => r matches Err(e) && link_error(&e, "UNAUTHORIZED"@, "invalid session"@),
                Some(s) => if s.deviceId@ != device_id@ {
                    r matches Err(e) && link_error(&e, "UNAUTHORIZED"@, "device mismatch"@)
                } else if sign_spec(s.sessionSecret@, body@) != signature@ {
                    r matches Err(e) && link_error(&e, "UNAUTHORIZED"@, "signature mismatch"@)
                } else {
                    r is Ok
                },
            },
            r is Ok <==> self.session_accepts(session_id@, device_id@, signature@, body@),
    {
        let session = match self.sessions.get(session_id) {
            Some(s) => s,
            None => {
                return Err(CoreLinkError::new("UNAUTHORIZED", "invalid session"));
            },
        };
        if !crate::text::str_eq(session.deviceId.as_str(), device_id) {
            return Err(CoreLinkError::new("UNAUTHORIZED", "device mismatch"));
        }
        let expected = sign(session.sessionSecret.as_slice(), body);
        if !crate::text::str_eq(expected.as_str(), signature) {
            return Err(CoreLinkError::new("UNAUTHORIZED", "signature mismatch"));
        }
        Ok(())
    }

    /// Whether a signed HTTP request comes from a paired client: the session,
    /// device and signature headers must be there (else 401 `missing …`), and
    /// the session must accept them (else 401 with the session's error).
    pub fn verify_session(
        &self,
        session_header: Option<&str>,
        device_header: Option<&str>,
        signature_header: Option<&str>,
        body: &[u8],
    ) -> (r: Result<(), LinkRefusal>)
        requires
            self.wf(),
        ensures
            session_header is None ==> (r matches Err(e) && refusal(&e, 401, "UNAUTHORIZED"@, "missing session"@)),
            session_header is Some && device_header is None ==> (r matches Err(e)
                && refusal(&e, 401, "UNAUTHORIZED"@, "missing device"@)),
            session_header is Some && device_header is Some && signature_header is None ==> (r matches Err(e)
                && refusal(&e, 401, "UNAUTHORIZED"@, "missing signature"@)),
            session_header is Some && device_header is Some && signature_header is Some ==> (r is Ok
                <==> self.session_accepts(session_header.unwrap()@, device_header.unwrap()@,
                    signature_header.unwrap()@, body@)),
            r matches Err(e) ==> e.status == 401,
    {
        let session_id = match session_header {
            Some(v) => v,
            None => {
                return Err(unauthorized("missing session"));
            },
        };
        let device_id = match device_header {
            Some(v) => v,
            None => {
                return Err(unauthorized("missing device"));
            },
        };
        let signature = match signature_header {
            Some(v) => v,
            None => {
                return Err(unauthorized("missing signature"));
            },
        };
        match self.verify_session_parts(session_id, device_id, signature, body) {
            Ok(()) => Ok(()),
            Err(error) => Err(LinkRefusal { status: 401, error }),
        }
    }

    /// The details of a session, for a request already verified: the core's
    /// device, the client's, the pairing version, the transports and the
    /// nonce sent.
    pub fn session_info(&self, session_header: Option<&str>, nonce: String) -> (r: Result<RemoteSessionInfoResponse, LinkRefusal>)
        requires
            self.wf(),
        ensures
            match session_header {
                None => (r matches Err(e) && refusal(&e, 401, "UNAUTHORIZED"@, "missing session"@)),
                Some(id) => match self.session(id@) {
                    None => (r matches Err(e) && refusal(&e, 401, "UNAUTHORIZED"@, "invalid session"@)),
                    Some(s) => (r matches Ok(info) && info.protocolVersion == 1
                        && info.pairingServiceVersion == s.pairingServiceVersion
                        && info.clientDeviceId@ == s.deviceId@
                        && info.nonce == nonce
                        && crate::text::str_views(info.transports@) == seq!["http"@, "ws"@]),
                },
            },
    {
        let session_id = match session_header {
            Some(v) => v,
            None => {
                return Err(unauthorized("missing session"));
            },
        };
        let session = match self.sessions.get(session_id) {
            Some(s) => s,
            None => {
                return Err(unauthorized("invalid session"));
            },
        };
        Ok(RemoteSessionInfoResponse {
            protocolVersion: 1,
            pairingServiceVersion: session.pairingServiceVersion,
            coreDeviceId: self.deviceId.clone(),
            coreDeviceInfo: self.deviceInfo.duplicate(),
            clientDeviceId: session.deviceId.clone(),
            clientDeviceInfo: session.deviceInfo.duplicate(),
            transports: transports(),
            nonce,
        })
    }

    /// Whether a session must be looked up again in the store before it is
    /// used: it was accepted through pairing or the store.
    pub fn needs_refresh(&self, session_id: &str) -> (r: bool)
        requires
            self.wf(),
        ensures
            r == self.accepted(session_id@),
    {
        self.acceptedSessionIds.contains_key(session_id)
    }

    /// Takes in what the store holds for an accepted session: nothing to do
    /// without a store (`None`); the store's failure as an internal error;
    /// the session as recorded; or, when the store no longer has it, the
    /// session forgotten.
    pub fn apply_refresh(
        &mut self,
        session_id: &str,
        loaded: Option<Result<Option<AcceptedRemoteSessionRecord>, String>>,
    ) -> (r: Result<(), CoreLinkError>)
        requires
            old(self).wf(),
            old(self).accepted(session_id@),
        ensures
            final(self).wf(),
            final(self).token_view() == old(self).token_view(),
            final(self).secret_view() == old(self).secret_view(),
            final(self).public_view() == old(self).public_view(),
            forall|id: Seq<char>| #[trigger] final(self).pairing(id) == old(self).pairing(id),
            forall|id: Seq<char>| id != session_id@ ==> #[trigger] final(self).session(id) == old(self).session(id)
                && final(self).accepted(id) == old(self).accepted(id),
            match loaded {
                None => r is Ok && final(self).session(session_id@) == old(self).session(session_id@)
                    && final(self).accepted(session_id@),
                Some(Err(m)) => (r matches Err(e) && link_error(&e, "INTERNAL"@, m@))
                    && final(self).session(session_id@) == old(self).session(session_id@),
                Some(Ok(None)) => r is Ok && final(self).session(session_id@) is None && !final(self).accepted(session_id@),
                Some(Ok(Some(record))) => match base64_decode(record.sessionSecret@) {
                    None => (r matches Err(e) && link_error(&e, "INVALID_SESSION_STORE"@, base64_error_text(record.sessionSecret@)))
                        && final(self).session(session_id@) == old(self).session(session_id@),
                    Some(secret) => r is Ok && final(self).accepted(session_id@)
                        && (final(self).session(session_id@) matches Some(s) && s.sessionSecret@ == secret
                        && s.deviceId@ == record.deviceId@ && s.pairingServiceVersion == record.pairingServiceVersion),
                },
            },
    {
        match loaded {
            None => Ok(()),
            Some(Err(message)) => Err(CoreLinkError::new("INTERNAL", message.as_str())),
            Some(Ok(None)) => {
                self.acceptedSessionIds.remove(session_id);
                self.sessions.remove(session_id);
                Ok(())
            },
            Some(Ok(Some(record))) => {
                let session = match accepted_session_from_record(&record) {
                    Ok(s) => s,
                    Err(e) => {
                        return Err(e);
                    },
                };
                self.sessions.insert(String::from_str(session_id), session);
                Ok(())
            },
        }
    }
}


/// Once a pairing is committed, every body that the client signs with the
/// session secret is accepted in that session from that device, and a body
/// signed with anything but its signature is refused.
pub proof fn law_committed_session_accepts_signed_bodies(
    after: RemoteLinkServerState,
    session_id: Seq<char>,
    device_id: Seq<char>,
    secret: Seq<u8>,
    body: Seq<u8>,
    signature: Seq<char>,
)
    requires
        after.session(session_id) is Some,
        after.session(session_id).unwrap().deviceId@ == device_id,
        after.session(session_id).unwrap().sessionSecret@ == secret,
    ensures
        after.session_accepts(session_id, device_id, sign_spec(secret, body), body),
        signature != sign_spec(secret, body) ==> !after.session_accepts(session_id, device_id, signature, body),
{
}

/// The two sides of a pairing agree: when both derive the same shared secret
/// (as X25519 gives them), the proof the client sends is the one the server
/// expects, the proof the server answers is the one the client expects, and
/// both hold the same session secret.
pub proof fn law_pairing_handshake_agrees(
    server_shared: Seq<u8>,
    client_shared: Seq<u8>,
    client_nonce: Seq<char>,
    server_nonce: Seq<char>,
)
    requires
        server_shared == client_shared,
    ensures
        proof_spec(client_shared, client_nonce, server_nonce, "client"@) == proof_spec(server_shared, client_nonce, server_nonce, "client"@),
        proof_spec(server_shared, client_nonce, server_nonce, "core"@) == proof_spec(client_shared, client_nonce, server_nonce, "core"@),
        session_secret_spec(server_shared, client_nonce, server_nonce) == session_secret_spec(client_shared, client_nonce, server_nonce),
{
}

/// What a client keeps between the two requests of a pairing.
pub struct PairStartState {
    pub pairingId: String,
    pub pairingServiceVersion: i32,
    pub clientDeviceId: String,
    pub clientDeviceInfo: RemoteDeviceInfo,
    pub clientPublicKey: String,
    pub coreDeviceInfo: RemoteDeviceInfo,
    pub clientNonce: String,
    pub serverNonce: String,
    pub sharedSecret: Vec<u8>,
}

/// The first request of a pairing from a client with secret key `client_secret`.
pub fn client_pair_start_request(
    token: &str,
    client_secret: &[u8],
    client_device_id: String,
    client_device_info: RemoteDeviceInfo,
    client_nonce: String,
) -> (r: PairStartRequest)
    requires
        client_secret@.len() == 32,
    ensures
        r.token@ == token@,
        r.clientPublicKey@ == base64_encode(x25519_public(client_secret@)),
        base64_decode(r.clientPublicKey@) == Some(x25519_public(client_secret@)),
        r.clientDeviceId@ == client_device_id@,
        r.clientNonce@ == client_nonce@,
        r.pairingServiceVersion == REMOTE_PAIRING_SERVICE_VERSION,
{
    let public = x25519_public_of(client_secret);
    RemoteLinkClientSide::request_from(token, public, client_device_id, client_device_info, client_nonce)
}

/// Builds client requests.
struct RemoteLinkClientSide;

impl RemoteLinkClientSide {
    fn request_from(
        token: &str,
        public: Vec<u8>,
        client_device_id: String,
        client_device_info: RemoteDeviceInfo,
        client_nonce: String,
    ) -> (r: PairStartRequest)
        ensures
            r.token@ == token@,
            r.clientPublicKey@ == base64_encode(public@),
            base64_decode(r.clientPublicKey@) == Some(public@),
            r.clientDeviceId@ == client_device_id@,
            r.clientNonce@ == client_nonce@,
            r.pairingServiceVersion == REMOTE_PAIRING_SERVICE_VERSION,
    {
        PairStartRequest {
            pairingServiceVersion: REMOTE_PAIRING_SERVICE_VERSION,
            token: String::from_str(token),
            clientDeviceId: client_device_id,
            clientDeviceInfo: client_device_info,
            clientPublicKey: public_key_to_string_checked(public.as_slice()),
            clientNonce: client_nonce,
        }
    }
}

fn public_key_to_string_checked(key: &[u8]) -> (r: String)
    ensures
        r@ == base64_encode(key@),
        base64_decode(r@) == Some(key@),
{
    base64_encode_bytes(key)
}

/// What a client keeps after the first answer of a pairing: the secret it
/// shares with the core, from its own secret key and the core's public key.
pub fn client_pair_start_state(
    client_secret: &[u8],
    client_device_id: String,
    client_device_info: RemoteDeviceInfo,
    client_nonce: String,
    response: PairStartResponse,
) -> (r: Result<PairStartState, String>)
    requires
        client_secret@.len() == 32,
    ensures
        match r {
            Ok(st) => base64_decode(response.corePublicKey@) is Some
                && base64_decode(response.corePublicKey@).unwrap().len() == 32
                && st.sharedSecret@ == x25519(client_secret@, base64_decode(response.corePublicKey@).unwrap())
                && st.pairingId@ == response.pairingId@
                && st.serverNonce@ == response.serverNonce@
                && st.clientNonce@ == client_nonce@
                && st.clientDeviceId@ == client_device_id@
                && st.clientPublicKey@ == base64_encode(x25519_public(client_secret@)),
            Err(_) => !(base64_decode(response.corePublicKey@) is Some
                && base64_decode(response.corePublicKey@).unwrap().len() == 32),
        },
{
    let core_public = match parse_public_key(response.corePublicKey.as_str()) {
        Ok(k) => k,
        Err(m) => {
            return Err(m);
        },
    };
    let shared = x25519_agree(client_secret, core_public.as_slice());
    let public = x25519_public_of(client_secret);
    Ok(PairStartState {
        pairingId: response.pairingId,
        pairingServiceVersion: response.pairingServiceVersion,
        clientDeviceId: client_device_id,
        clientDeviceInfo: client_device_info,
        clientPublicKey: public_key_to_string(public.as_slice()),
        coreDeviceInfo: response.coreDeviceInfo,
        clientNonce: client_nonce,
        serverNonce: response.serverNonce,
        sharedSecret: shared,
    })
}

/// The second request of a pairing: the code the user typed (trimmed) and the
/// client's proof.
pub fn client_pair_finish_request(state: &PairStartState, pairing_code: &str) -> (r: PairFinishRequest)
    ensures
        r.pairingId@ == state.pairingId@,
        r.pairingCode@ == trim(pairing_code@),
        r.clientProof@ == proof_spec(state.sharedSecret@, state.clientNonce@, state.serverNonce@, "client"@),
{
    proof {
        reveal_strlit("client");
    }
    PairFinishRequest {
        pairingId: state.pairingId.clone(),
        pairingCode: crate::text::trim_str(pairing_code),
        clientProof: handshake_proof(state.sharedSecret.as_slice(), state.clientNonce.as_str(), state.serverNonce.as_str(), "client"),
    }
}

/// A paired session as a client holds it.
pub struct PairedRemoteSession {
    pub baseUrl: String,
    pub sessionId: String,
    pub deviceId: String,
    pub remoteDeviceInfo: RemoteDeviceInfo,
    pub pairingServiceVersion: i32,
    pub sessionSecret: Vec<u8>,
}

/// A paired session as it is saved.
pub struct PairedRemoteSessionRecord {
    pub baseUrl: String,
    pub sessionId: String,
    pub deviceId: String,
    pub remoteDeviceInfo: RemoteDeviceInfo,
    pub pairingServiceVersion: i32,
    pub sessionSecret: String,
}

/// `s` without the `c` characters at its end.
pub open spec fn strip_end_char(s: Seq<char>, c: char) -> Seq<char> {
    crate::markdown::strip_trail(s, c)
}

fn trim_end_slashes(s: &str) -> (r: String)
    ensures
        r@ == strip_end_char(s@, '/'),
{
    let v = chars_of(s);
    let mut b: usize = v.len();
    assert(v@.subrange(0, v.len() as int) == v@);
    while b > 0 && v[b - 1] == '/'
        invariant
            b <= v.len(),
            crate::markdown::strip_trail(v@, '/') == crate::markdown::strip_trail(v@.subrange(0, b as int), '/'),
        decreases b,
    {
        assert(v@.subrange(0, b as int).drop_last() == v@.subrange(0, b - 1));
        assert(v@.subrange(0, b as int).last() == v@[b - 1]);
        b = b - 1;
    }
    proof {
        let t = v@.subrange(0, b as int);
        if t.len() > 0 {
            assert(t.last() == v@[b - 1]);
        }
    }
    crate::text::string_from_range(v.as_slice(), 0, b)
}

impl PairedRemoteSession {
    /// The session's secret.
    pub open spec fn secret_view(&self) -> Seq<u8> {
        self.sessionSecret@
    }

    /// The base address of the core.
    pub open spec fn base_url_view(&self) -> Seq<char> {
        self.baseUrl@
    }

    /// Completes a pairing: the core's proof must be the one the shared secret
    /// gives, else `core proof mismatch`.
    pub fn complete(base_url: &str, state: &PairStartState, response: PairFinishResponse) -> (r: Result<Self, String>)
        ensures
            match r {
                Ok(s) => response.coreProof@ == proof_spec(state.sharedSecret@, state.clientNonce@, state.serverNonce@, "core"@)
                    && s.sessionId@ == response.sessionId@
                    && s.deviceId@ == state.clientDeviceId@
                    && s.pairingServiceVersion == response.pairingServiceVersion
                    && s.secret_view() == session_secret_spec(state.sharedSecret@, state.clientNonce@, state.serverNonce@)
                    && s.base_url_view() == base_url@,
                Err(m) => response.coreProof@ != proof_spec(state.sharedSecret@, state.clientNonce@, state.serverNonce@, "core"@)
                    && m@ == "core proof mismatch"@,
            },
    {
        proof {
            reveal_strlit("core");
        }
        let expected = handshake_proof(state.sharedSecret.as_slice(), state.clientNonce.as_str(), state.serverNonce.as_str(), "core");
        if !crate::text::str_eq(response.coreProof.as_str(), expected.as_str()) {
            return Err(String::from_str("core proof mismatch"));
        }
        Ok(PairedRemoteSession {
            baseUrl: String::from_str(base_url),
            sessionId: response.sessionId,
            deviceId: state.clientDeviceId.clone(),
            remoteDeviceInfo: state.coreDeviceInfo.duplicate(),
            pairingServiceVersion: response.pairingServiceVersion,
            sessionSecret: session_secret(state.sharedSecret.as_slice(), state.clientNonce.as_str(), state.serverNonce.as_str()),
        })
    }

    /// The record to save; its secret, in base64, decodes back to the session's.
    #[allow(non_snake_case)]
    pub fn exportRecord(&self) -> (r: PairedRemoteSessionRecord)
        ensures
            r.baseUrl@ == self.base_url_view(),
            r.sessionId@ == self.sessionId@,
            r.deviceId@ == self.deviceId@,
            r.pairingServiceVersion == self.pairingServiceVersion,
            r.sessionSecret@ == base64_encode(self.secret_view()),
            base64_decode(r.sessionSecret@) == Some(self.secret_view()),
    {
        PairedRemoteSessionRecord {
            baseUrl: self.baseUrl.clone(),
            sessionId: self.sessionId.clone(),
            deviceId: self.deviceId.clone(),
            remoteDeviceInfo: self.remoteDeviceInfo.duplicate(),
            pairingServiceVersion: self.pairingServiceVersion,
            sessionSecret: base64_encode_bytes(self.sessionSecret.as_slice()),
        }
    }

    /// A session from a saved record; the base address loses its trailing
    /// slashes, and a secret that is not base64 is refused with the decoder's message.
    #[allow(non_snake_case)]
    pub fn fromRecord(record: PairedRemoteSessionRecord) -> (r: Result<Self, String>)
        ensures
            match r {
                Ok(s) => base64_decode(record.sessionSecret@) == Some(s.secret_view())
                    && s.base_url_view() == strip_end_char(record.baseUrl@, '/')
                    && s.sessionId@ == record.sessionId@
                    && s.deviceId@ == record.deviceId@
                    && s.pairingServiceVersion == record.pairingServiceVersion,
                Err(m) => base64_decode(record.sessionSecret@) is None && m@ == base64_error_text(record.sessionSecret@),
            },
            match r {
                Ok(s) => restore_outcome(record.sessionSecret@) == Ok::<Seq<u8>, Seq<char>>(s.secret_view()),
                Err(m) => restore_outcome(record.sessionSecret@) == Err::<Seq<u8>, Seq<char>>(m@),
            },
    {
        let secret = match base64_decode_text(record.sessionSecret.as_str()) {
            Ok(v) => v,
            Err(m) => {
                return Err(m);
            },
        };
        Ok(PairedRemoteSession {
            baseUrl: trim_end_slashes(record.baseUrl.as_str()),
            sessionId: record.sessionId,
            deviceId: record.deviceId,
            remoteDeviceInfo: record.remoteDeviceInfo,
            pairingServiceVersion: record.pairingServiceVersion,
            sessionSecret: secret,
        })
    }

    /// The signature that goes with a request body.
    pub fn sign_body(&self, body: &[u8]) -> (r: String)
        ensures
            r@ == sign_spec(self.secret_view(), body@),
    {
        sign(self.sessionSecret.as_slice(), body)
    }
}

/// What restoring reads from a saved secret: its bytes, or the decoder's
/// complaint.
pub open spec fn restore_outcome(text: Seq<char>) -> Result<Seq<u8>, Seq<char>> {
    match base64_decode(text) {
        Some(b) => Ok(b),
        None => Err(base64_error_text(text)),
    }
}

/// A saved session restores: from text that holds a secret in base64 (as an
/// exported record's does), restoring reads that secret back and fails never.
pub proof fn law_record_restores_secret(secret: Seq<u8>, text: Seq<char>)
    requires
        base64_decode(text) == Some(secret),
    ensures
        restore_outcome(text) == Ok::<Seq<u8>, Seq<char>>(secret),
{
}

/// The session that the store's record describes; a secret that is not
/// base64 is refused as `INVALID_SESSION_STORE`.
pub fn accepted_session_from_record(record: &AcceptedRemoteSessionRecord) -> (r: Result<RemoteSession, CoreLinkError>)
    ensures
        match r {
            Ok(s) => base64_decode(record.sessionSecret@) == Some(s.sessionSecret@)
                && s.deviceId@ == record.deviceId@
                && s.pairingServiceVersion == record.pairingServiceVersion,
            Err(e) => base64_decode(record.sessionSecret@) is None
                && link_error(&e, "INVALID_SESSION_STORE"@, base64_error_text(record.sessionSecret@)),
        },
{
    match base64_decode_text(record.sessionSecret.as_str()) {
        Ok(secret) => Ok(RemoteSession {
            deviceId: record.deviceId.clone(),
            deviceInfo: record.deviceInfo.duplicate(),
            pairingServiceVersion: record.pairingServiceVersion,
            sessionSecret: secret,
        }),
        Err(m) => Err(CoreLinkError { code: String::from_str("INVALID_SESSION_STORE"), message: m }),
    }
}

impl RemoteLinkServerState {
    /// Takes in, at start-up, a session the store had accepted: it becomes an
    /// accepted session; a secret that is not base64 is refused and nothing
    /// changes.
    pub fn restore_accepted_session(&mut self, session_id: String, record: &AcceptedRemoteSessionRecord) -> (r: Result<(), CoreLinkError>)
        requires
            old(self).wf(),
        ensures
            final(self).wf(),
            final(self).token_view() == old(self).token_view(),
            final(self).secret_view() == old(self).secret_view(),
            final(self).public_view() == old(self).public_view(),
            forall|id: Seq<char>| #[trigger] final(self).pairing(id) == old(self).pairing(id),
            forall|id: Seq<char>| id != session_id@ ==> #[trigger] final(self).session(id) == old(self).session(id)
                && final(self).accepted(id) == old(self).accepted(id),
            match r {
                Ok(()) => base64_decode(record.sessionSecret@) is Some && final(self).accepted(session_id@)
                    && final(self).session(session_id@) is Some
                    && final(self).session(session_id@).unwrap().sessionSecret@ == base64_decode(record.sessionSecret@).unwrap()
                    && final(self).session(session_id@).unwrap().deviceId@ == record.deviceId@
                    && final(self).session(session_id@).unwrap().pairingServiceVersion == record.pairingServiceVersion,
                Err(e) => base64_decode(record.sessionSecret@) is None
                    && link_error(&e, "INVALID_SESSION_STORE"@, base64_error_text(record.sessionSecret@))
                    && final(self).session(session_id@) == old(self).session(session_id@)
                    && final(self).accepted(session_id@) == old(self).accepted(session_id@),
            },
    {
        let session = accepted_session_from_record(record)?;
        self.sessions.insert(session_id.clone(), session);
        self.acceptedSessionIds.insert(session_id, true);
        Ok(())
    }
}

/// A link client for a core at a base address.
pub struct RemoteLinkClient {
    baseUrl: String,
}

impl RemoteLinkClient {
    /// A client for `base_url`, without its trailing slashes.
    pub fn new(base_url: &str) -> (r: Self)
        ensures
            r.base_url_view() == strip_end_char(base_url@, '/'),
    {
        RemoteLinkClient { baseUrl: trim_end_slashes(base_url) }
    }

    /// The base address.
    pub closed spec fn base_url_view(&self) -> Seq<char> {
        self.baseUrl@
    }

    /// The address of a route: the base address followed by the path.
    pub fn url(&self, path: &str) -> (r: String)
        ensures
            r@ == self.base_url_view() + path@,
    {
        let mut out = self.baseUrl.clone();
        out.append(path);
        out
    }
}


// ----- web access -----

/// `index.html`.
pub open spec fn index_html() -> Seq<char> {
    "index.html"@
}

/// Whether a relative path (segments split at `/`) names a file inside the
/// web root: no segment is `..`, and the path does not start with a `.`
/// segment (empty and other `.` segments are dropped by the path parser).
pub open spec fn safe_relative_path(p: Seq<char>) -> bool {
    let segs = split_on(p, '/');
    &&& forall|i: int| 0 <= i < segs.len() ==> #[trigger] segs[i] != seq!['.', '.']
    &&& segs[0] != seq!['.']
}

/// The asset a web path asks for: the path without its leading slashes,
/// `index.html` for an empty one, or a refusal for a path that leaves the root.
pub open spec fn web_asset_spec(path: Seq<char>) -> Option<Seq<char>> {
    let normalized = strip_lead(path, '/');
    if normalized.len() == 0 {
        Some(index_html())
    } else if safe_relative_path(normalized) {
        Some(normalized)
    } else {
        None
    }
}

/// The asset path inside the web root for a requested path.
pub fn sanitize_web_asset_path(path: &str) -> (r: Result<String, LinkRefusal>)
    ensures
        match r {
            Ok(p) => web_asset_spec(path@) == Some(p@),
            Err(e) => web_asset_spec(path@) is None && refusal(&e, 400, "BAD_REQUEST"@, "invalid web asset path"@),
        },
{
    proof {
        reveal_strlit("index.html");
    }
    let v = chars_of(path);
    let mut a: usize = 0;
    assert(v@.subrange(0, v.len() as int) == v@);
    while a < v.len() && v[a] == '/'
        invariant
            a <= v.len(),
            strip_lead(v@, '/') == strip_lead(v@.subrange(a as int, v.len() as int), '/'),
        decreases v.len() - a,
    {
        assert(v@.subrange(a as int, v.len() as int).drop_first() == v@.subrange(a + 1, v.len() as int));
        a = a + 1;
    }
    let mut norm: Vec<char> = Vec::new();
    let mut i: usize = a;
    while i < v.len()
        invariant
            a <= i <= v.len(),
            norm@ == v@.subrange(a as int, i as int),
        decreases v.len() - i,
    {
        norm.push(v[i]);
        i = i + 1;
    }
    proof {
        let t = v@.subrange(a as int, v.len() as int);
        if t.len() > 0 {
            assert(t[0] == v@[a as int]);
        }
        assert(strip_lead(t, '/') == t);
    }
    assert(strip_lead(path@, '/') == norm@);
    if norm.len() == 0 {
        return Ok(String::from_str("index.html"));
    }
    let segs = split_chars(norm.as_slice(), '/');
    proof {
        crate::text::lemma_split_on_nonempty(norm@, '/');
    }
    let ghost sv = views(segs@);
    let mut k: usize = 0;
    while k < segs.len()
        invariant
            sv == views(segs@),
            sv == split_on(norm@, '/'),
            strip_lead(path@, '/') == norm@,
            norm@.len() > 0,
            k <= segs.len(),
            forall|j: int| 0 <= j < k ==> #[trigger] sv[j] != seq!['.', '.'],
        decreases segs.len() - k,
    {
        let seg = &segs[k];
        if seg.len() == 2 && seg[0] == '.' && seg[1] == '.' {
            assert(sv[k as int] == seq!['.', '.']);
            return Err(bad_request("invalid web asset path"));
        }
        assert(sv[k as int] != seq!['.', '.']) by {
            if sv[k as int] == seq!['.', '.'] {
                assert(seg@ == seq!['.', '.']);
            }
        }
        k = k + 1;
    }
    let first = &segs[0];
    if first.len() == 1 && first[0] == '.' {
        assert(sv[0] == seq!['.']);
        return Err(bad_request("invalid web asset path"));
    }
    assert(sv[0] != seq!['.']) by {
        if sv[0] == seq!['.'] {
            assert(first@ == seq!['.']);
        }
    }
    Ok(string_from_chars(norm.as_slice()))
}

/// The type of an asset by the extension of its file name.
pub open spec fn content_type_spec(ext: Option<Seq<char>>) -> Seq<char> {
    match ext {
        Some(e) => if e == "html"@ {
            "text/html; charset=utf-8"@
        } else if e == "js"@ {
            "application/javascript; charset=utf-8"@
        } else if e == "css"@ {
            "text/css; charset=utf-8"@
        } else if e == "json"@ {
            "application/json; charset=utf-8"@
        } else if e == "wasm"@ {
            "application/wasm"@
        } else if e == "png"@ {
            "image/png"@
        } else if e == "jpg"@ || e == "jpeg"@ {
            "image/jpeg"@
        } else if e == "svg"@ {
            "image/svg+xml"@
        } else if e == "ico"@ {
            "image/x-icon"@
        } else if e == "woff"@ {
            "font/woff"@
        } else if e == "woff2"@ {
            "font/woff2"@
        } else {
            "application/octet-stream"@
        },
        None => "application/octet-stream"@,
    }
}

/// The content type of an asset whose file name has extension `ext`.
pub fn content_type_for_extension(ext: Option<&str>) -> (r: &'static str)
    ensures
        r@ == content_type_spec(match ext { Some(e) => Some(e@), None => None }),
{
    match ext {
        Some(e) => {
            if crate::text::str_eq(e, "html") {
                "text/html; charset=utf-8"
            } else if crate::text::str_eq(e, "js") {
                "application/javascript; charset=utf-8"
            } else if crate::text::str_eq(e, "css") {
                "text/css; charset=utf-8"
            } else if crate::text::str_eq(e, "json") {
                "application/json; charset=utf-8"
            } else if crate::text::str_eq(e, "wasm") {
                "application/wasm"
            } else if crate::text::str_eq(e, "png") {
                "image/png"
            } else if crate::text::str_eq(e, "jpg") || crate::text::str_eq(e, "jpeg") {
                "image/jpeg"
            } else if crate::text::str_eq(e, "svg") {
                "image/svg+xml"
            } else if crate::text::str_eq(e, "ico") {
                "image/x-icon"
            } else if crate::text::str_eq(e, "woff") {
                "font/woff"
            } else if crate::text::str_eq(e, "woff2") {
                "font/woff2"
            } else {
                "application/octet-stream"
            }
        },
        None => "application/octet-stream",
    }
}

/// The web page with the access settings put before the bridge script.
pub fn inject_web_access_runtime_config(html: &str, config_json: &str) -> (r: String)
    ensures
        r@ == crate::text::replace_spec(
            html@,
            "<script src=\"operit_runtime_bridge.js\"></script>"@,
            "<script>window.__OPERIT_WEB_ACCESS__ = "@ + config_json@ + ";</script>"@ + "\n  <script src=\"operit_runtime_bridge.js\"></script>"@,
        ),
{
    proof {
        reveal_strlit("<script src=\"operit_runtime_bridge.js\"></script>");
    }
    let mut replacement = String::from_str("<script>window.__OPERIT_WEB_ACCESS__ = ");
    replacement.append(config_json);
    replacement.append(";</script>");
    replacement.append("\n  <script src=\"operit_runtime_bridge.js\"></script>");
    crate::text::replace_str(html, "<script src=\"operit_runtime_bridge.js\"></script>", replacement.as_str())
}

// ----- host interactions -----

/// A question the host asks a paired client, with its payload as JSON text.
pub struct RemoteHostInteractionRequest {
    pub requestId: String,
    pub kind: String,
    pub payload: String,
}

/// The questions waiting for an answer, and the answers not yet taken.
pub struct RemoteHostInteractionBrokerState {
    pending: StrMap<RemoteHostInteractionRequest>,
    responses: StrMap<String>,
}

impl RemoteHostInteractionBrokerState {
    /// The question waiting under an id.
    pub closed spec fn pending(&self, id: Seq<char>) -> Option<RemoteHostInteractionRequest> {
        self.pending.get_spec(id)
    }

    /// The answer waiting under an id.
    pub closed spec fn response(&self, id: Seq<char>) -> Option<String> {
        self.responses.get_spec(id)
    }

    /// The ids of the waiting questions, ascending.
    pub closed spec fn pending_ids(&self) -> Seq<Seq<char>> {
        self.pending.keys_view()
    }

    /// The maps keep their keys in order.
    pub closed spec fn wf(&self) -> bool {
        self.pending.wf() && self.responses.wf()
    }

    /// Nothing waiting.
    pub fn new() -> (s: Self)
        ensures
            s.wf(),
            forall|id: Seq<char>| #[trigger] s.pending(id) is None && s.response(id) is None,
            s.pending_ids().len() == 0,
    {
        RemoteHostInteractionBrokerState { pending: StrMap::new(), responses: StrMap::new() }
    }

    /// Records a question.
    pub fn ask(&mut self, request: RemoteHostInteractionRequest)
        requires
            old(self).wf(),
        ensures
            final(self).wf(),
            forall|id: Seq<char>| #[trigger] final(self).pending(id) == if id == request.requestId@ {
                Some(request)
            } else {
                old(self).pending(id)
            },
            forall|id: Seq<char>| #[trigger] final(self).response(id) == old(self).response(id),
    {
        let id = request.requestId.clone();
        self.pending.insert(id, request);
    }

    /// Records an answer; only a question that is waiting can be answered.
    pub fn respond(&mut self, request_id: &str, response: String) -> (r: bool)
        requires
            old(self).wf(),
        ensures
            responded(*old(self), *final(self), request_id@, response, r),
    {
        if !self.pending.contains_key(request_id) {
            return false;
        }
        self.responses.insert(String::from_str(request_id), response);
        true
    }

    /// The waiting question with the smallest id, if any.
    pub fn first_pending(&self) -> (r: Option<&RemoteHostInteractionRequest>)
        requires
            self.wf(),
        ensures
            match r {
                Some(q) => self.pending_ids().len() > 0 && self.pending(self.pending_ids()[0]) == Some(*q),
                None => self.pending_ids().len() == 0,
            },
    {
        if self.pending.len() == 0 {
            return None;
        }
        proof {
            self.pending.lemma_key_present(0);
        }
        let (_k, v) = self.pending.entry_at(0);
        Some(v)
    }

    /// Takes the answer to a question, which then stops waiting.
    pub fn take_response(&mut self, request_id: &str) -> (r: Option<String>)
        requires
            old(self).wf(),
        ensures
            took_response(*old(self), *final(self), request_id@, r),
    {
        let r = self.responses.remove(request_id);
        if r.is_some() {
            self.pending.remove(request_id);
        }
        r
    }

    /// Gives up on a question.
    pub fn expire(&mut self, request_id: &str)
        requires
            old(self).wf(),
        ensures
            final(self).wf(),
            forall|id: Seq<char>| #[trigger] final(self).pending(id) == if id == request_id@ { None } else { old(self).pending(id) },
            forall|id: Seq<char>| #[trigger] final(self).response(id) == old(self).response(id),
    {
        self.pending.remove(request_id);
    }
}

/// What answering question `id` with `response` does: the answer is
/// accepted (`accepted`) exactly when the question waits, the questions stay,
/// and an accepted answer is kept under `id`.
pub open spec fn responded(
    before: RemoteHostInteractionBrokerState,
    after: RemoteHostInteractionBrokerState,
    id: Seq<char>,
    response: String,
    accepted: bool,
) -> bool {
    &&& after.wf()
    &&& accepted == before.pending(id) is Some
    &&& forall|k: Seq<char>| #[trigger] after.pending(k) == before.pending(k)
    &&& forall|k: Seq<char>| #[trigger] after.response(k) == if accepted && k == id {
        Some(response)
    } else {
        before.response(k)
    }
}

/// What taking the answer to question `id` does: it gives the kept answer,
/// forgets it, and a question that had its answer stops waiting.
pub open spec fn took_response(
    before: RemoteHostInteractionBrokerState,
    after: RemoteHostInteractionBrokerState,
    id: Seq<char>,
    taken: Option<String>,
) -> bool {
    &&& after.wf()
    &&& taken == before.response(id)
    &&& forall|k: Seq<char>| #[trigger] after.response(k) == if k == id { None } else { before.response(k) }
    &&& forall|k: Seq<char>| #[trigger] after.pending(k) == if taken is Some && k == id {
        None
    } else {
        before.pending(k)
    }
}

/// Answering a waiting question and then taking its answer gives back that
/// answer, after which the question no longer waits; an answer to a question
/// that does not wait is not kept, so taking gives what was there before.
pub proof fn law_taken_answer_is_the_given_one(
    s0: RemoteHostInteractionBrokerState,
    s1: RemoteHostInteractionBrokerState,
    s2: RemoteHostInteractionBrokerState,
    id: Seq<char>,
    response: String,
    accepted: bool,
    taken: Option<String>,
)
    requires
        responded(s0, s1, id, response, accepted),
        took_response(s1, s2, id, taken),
    ensures
        accepted ==> taken == Some(response) && s2.pending(id) is None,
        !accepted ==> taken == s0.response(id) && s2.response(id) is None,
{
    assert(s1.response(id) == if accepted { Some(response) } else { s0.response(id) });
    assert(s2.pending(id) == if taken is Some { None } else { s1.pending(id) });
}

// ----- requests between a paired client and the server -----

/// A link server of the access point (served by the application).
pub struct RemoteLinkServer;

/// The web access of a link server: its token, the token that shuts it
/// down, and where its files are.
pub struct RemoteWebAccessConfig {
    pub token: String,
    pub shutdownToken: String,
    pub webRoot: String,
}

/// A core call request, as JSON text.
pub struct RemoteCallEnvelope {
    pub request: String,
}

/// A core watch request, as JSON text.
pub struct RemoteWatchEnvelope {
    pub request: String,
}

/// A request for a watch channel's events.
pub struct RemoteWatchChannelEnvelope {
    pub channelId: String,
}

/// A request to add a watch to a channel; the core's request is JSON text.
pub struct RemoteWatchChannelOpenEnvelope {
    pub channelId: String,
    pub subscriptionId: String,
    pub request: String,
}

/// A request to stop one watch of a channel.
pub struct RemoteWatchChannelCloseEnvelope {
    pub channelId: String,
    pub subscriptionId: String,
}

/// The answer to adding a watch.
pub struct RemoteWatchChannelOpenResponse {
    pub subscriptionId: String,
}

/// An event of one watch of a channel; the core's event is JSON text.
pub struct RemoteWatchChannelEvent {
    pub subscriptionId: String,
    pub event: String,
}

/// A request to wait for a host question, at most this long.
pub struct RemoteHostInteractionPollEnvelope {
    pub timeoutMs: u64,
}

/// The host question waited for, if one came.
pub struct RemoteHostInteractionPollResponse {
    pub request: Option<RemoteHostInteractionRequest>,
}

/// The answer to a host question, as JSON text.
pub struct RemoteHostInteractionRespondEnvelope {
    pub requestId: String,
    pub response: String,
}

/// What a signed web socket message asks.
pub enum RemoteWsPayload {
    SessionInfo(RemoteSessionInfoEnvelope),
    Call(RemoteCallEnvelope),
    WatchSnapshot(RemoteWatchEnvelope),
}

/// A signed web socket message: the session, the device, the signature of
/// the payload's JSON, and the payload.
pub struct RemoteWsEnvelope {
    pub sessionId: String,
    pub deviceId: String,
    pub signature: String,
    pub payload: RemoteWsPayload,
}

/// The answer to a web socket message; the core's answers are JSON text.
pub enum RemoteWsResponse {
    SessionInfo(RemoteSessionInfoResponse),
    Call(String),
    WatchSnapshot(String),
    Error(CoreLinkError),
}

/// What to do with a web socket message: answer it, or pass its request on
/// to the core.
pub enum RemoteWsAction {
    Respond(RemoteWsResponse),
    ForwardCall(String),
    ForwardWatchSnapshot(String),
}

impl RemoteLinkServerState {
    /// What to do with a signed web socket message whose payload is
    /// written as `body`: refuse it when the session does not accept the
    /// signature; else answer a session-info request, or pass a call or a
    /// watch snapshot on to the core.
    pub fn handle_ws_envelope(&self, envelope: RemoteWsEnvelope, body: &[u8]) -> (r: RemoteWsAction)
        requires
            self.wf(),
        ensures
            !self.session_accepts(envelope.sessionId@, envelope.deviceId@, envelope.signature@, body@) ==> (r matches RemoteWsAction::Respond(
                RemoteWsResponse::Error(e)) && e.code@ == "UNAUTHORIZED"@),
            self.session_accepts(envelope.sessionId@, envelope.deviceId@, envelope.signature@, body@) ==> match envelope.payload {
                RemoteWsPayload::SessionInfo(req) => (r matches RemoteWsAction::Respond(RemoteWsResponse::SessionInfo(info))
                    && info.nonce == req.nonce && info.protocolVersion == 1
                    && info.clientDeviceId@ == envelope.deviceId@),
                RemoteWsPayload::Call(req) => r == RemoteWsAction::ForwardCall(req.request),
                RemoteWsPayload::WatchSnapshot(req) => r == RemoteWsAction::ForwardWatchSnapshot(req.request),
            },
    {
        match self.verify_session_parts(envelope.sessionId.as_str(), envelope.deviceId.as_str(), envelope.signature.as_str(), body) {
            Err(e) => {
                proof {
                    reveal_strlit("UNAUTHORIZED");
                }
                return RemoteWsAction::Respond(RemoteWsResponse::Error(e));
            },
            Ok(()) => {},
        }
        match envelope.payload {
            RemoteWsPayload::SessionInfo(req) => match self.session_info(Some(envelope.sessionId.as_str()), req.nonce) {
                Ok(info) => RemoteWsAction::Respond(RemoteWsResponse::SessionInfo(info)),
                Err(refused) => RemoteWsAction::Respond(RemoteWsResponse::Error(refused.error)),
            },
            RemoteWsPayload::Call(req) => RemoteWsAction::ForwardCall(req.request),
            RemoteWsPayload::WatchSnapshot(req) => RemoteWsAction::ForwardWatchSnapshot(req.request),
        }
    }
}

} // verus!
