//! Webhook ingress: provider signatures, push payloads, and the decision
//! whether a push redeploys.
use vstd::prelude::*;
use vstd::utf8::encode_utf8;
use hmac::Mac;
use crate::crypto::fill_random;
use crate::ids::new_id;
use crate::models::{Application, Webhook, WebhookDelivery, WebhookDeliveryStatus, WebhookProvider};
use crate::text::{concat2, str_eq, strip_prefix};

verus! {

/// The HMAC-SHA256 tag of `msg` under `key`.
pub uninterp spec fn hmac_sha256_of(key: Seq<u8>, msg: Seq<u8>) -> Seq<u8>;

/// The string at JSON pointer `pointer` in the JSON document `body`, if
/// `body` parses and the pointer reaches a string.
pub uninterp spec fn json_string_at(body: Seq<u8>, pointer: Seq<char>) -> Option<Seq<char>>;

/// Relies on hmac's `Mac::new_from_slice`, `update` and `finalize` for
/// `Hmac<Sha256>`: the tag; the constructor accepts keys of every length.
#[verifier::external_body]
fn hmac_sha256(key: &[u8], msg: &[u8]) -> (r: Option<Vec<u8>>)
    ensures
        r is Some,
        r matches Some(t) ==> t@ == hmac_sha256_of(key@, msg@),
{
    let mut mac = <hmac::Hmac<sha2::Sha256> as Mac>::new_from_slice(key).ok()?;
    mac.update(msg);
    Some(mac.finalize().into_bytes().to_vec())
}

/// Lower-case hexadecimal digit of a value below 16.
pub open spec fn hex_digit(n: u8) -> char {
    if n < 10 {
        (('0' as u8) + n) as char
    } else {
        (('a' as u8) + n - 10) as char
    }
}

/// Two lower-case hexadecimal digits per byte, high nibble first.
pub open spec fn hex_lower(b: Seq<u8>) -> Seq<char>
    decreases b.len(),
{
    if b.len() == 0 {
        seq![]
    } else {
        hex_lower(b.drop_last()) + seq![hex_digit(b.last() / 16), hex_digit(b.last() % 16)]
    }
}

/// Relies on `hex::encode`: two lower-case digits per byte.
#[verifier::external_body]
fn hex_encode(b: &[u8]) -> (r: String)
    ensures
        r@ == hex_lower(b@),
{
    hex::encode(b)
}

/// Relies on serde_json's `from_slice` into a `Value`, `Value::pointer` and
/// `Value::as_str`.
#[verifier::external_body]
fn json_string(body: &[u8], pointer: &str) -> (r: Option<String>)
    ensures
        r matches Some(s) ==> json_string_at(body@, pointer@) == Some(s@),
        r is None ==> json_string_at(body@, pointer@) is None,
{
    let v = serde_json::from_slice::<serde_json::Value>(body).ok()?;
    v.pointer(pointer)?.as_str().map(String::from)
}

/// A fresh webhook secret: 32 random bytes in hexadecimal (256 bits).
pub fn new_webhook_secret() -> (r: String)
    ensures
        r@.len() == 64,
        exists|b: Seq<u8>| b.len() == 32 && r@ == hex_lower(b),
{
    let mut b = [0u8; 32];
    fill_random(&mut b);
    let r = hex_encode(&b);
    proof {
        lemma_hex_len(b@);
    }
    r
}

proof fn lemma_hex_len(b: Seq<u8>)
    ensures
        hex_lower(b).len() == 2 * b.len(),
    decreases b.len(),
{
    if b.len() > 0 {
        lemma_hex_len(b.drop_last());
    }
}

/// Why a delivery failed verification or parsing.
#[derive(Clone, Copy, Debug, PartialEq, Eq, Structural)]
pub enum WebhookError {
    InvalidSignatureFormat,
    InvalidKey,
    SignatureMismatch,
    TokenMismatch,
    InvalidPayload,
}

impl WebhookError {
    pub open spec fn text(self) -> Seq<char> {
        match self {
            WebhookError::InvalidSignatureFormat => "Invalid GitHub signature format"@,
            WebhookError::InvalidKey => "Invalid HMAC key"@,
            WebhookError::SignatureMismatch => "GitHub signature verification failed"@,
            WebhookError::TokenMismatch => "GitLab token verification failed"@,
            WebhookError::InvalidPayload => "Failed to parse push payload"@,
        }
    }

    pub fn message(&self) -> (r: &'static str)
        ensures
            r@ == self.text(),
    {
        match self {
            WebhookError::InvalidSignatureFormat => "Invalid GitHub signature format",
            WebhookError::InvalidKey => "Invalid HMAC key",
            WebhookError::SignatureMismatch => "GitHub signature verification failed",
            WebhookError::TokenMismatch => "GitLab token verification failed",
            WebhookError::InvalidPayload => "Failed to parse push payload",
        }
    }
}

/// The header value GitHub sends for a tag.
pub open spec fn github_header(mac: Seq<u8>) -> Seq<char> {
    "sha256="@ + hex_lower(mac)
}

/// Equality of two strings that reads every character of the longer one,
/// whatever the first difference.
fn constant_time_eq(a: &str, b: &str) -> (r: bool)
    ensures
        r == (a@ == b@),
{
    let n = a.unicode_len();
    let m = b.unicode_len();
    let mut same: bool = n == m;
    let len = if n < m { n } else { m };
    let mut i: usize = 0;
    while i < len
        invariant
            n == a@.len(),
            m == b@.len(),
            len <= n,
            len <= m,
            len == n || len == m,
            0 <= i <= len,
            same == (n == m && forall|j: int| 0 <= j < i ==> a@[j] == b@[j]),
        decreases len - i,
    {
        let eq = a.get_char(i) == b.get_char(i);
        if !eq {
            same = false;
        }
        i = i + 1;
    }
    if same {
        assert(a@ =~= b@);
    }
    same
}

/// Checks a GitHub signature header against an already computed tag.
pub fn check_github_signature(mac: &[u8], signature: &str) -> (r: Result<(), WebhookError>)
    ensures
        r is Ok <==> signature@ == github_header(mac@),
        r matches Err(e) ==> (e == WebhookError::InvalidSignatureFormat <==> !(7 <= signature@.len()
            && signature@.subrange(0, 7) == "sha256="@)),
        r matches Err(e) ==> e == WebhookError::InvalidSignatureFormat || e
            == WebhookError::SignatureMismatch,
{
    proof {
        reveal_strlit("sha256=");
    }
    let expected = match strip_prefix(signature, "sha256=") {
        Some(e) => e,
        None => {
            proof {
                if signature@ == github_header(mac@) {
                    assert(signature@.subrange(0, 7) =~= "sha256="@);
                }
            }
            return Err(WebhookError::InvalidSignatureFormat);
        },
    };
    let computed = hex_encode(mac);
    if constant_time_eq(computed.as_str(), expected.as_str()) {
        assert(signature@ =~= "sha256="@ + hex_lower(mac@));
        Ok(())
    } else {
        assert(signature@ =~= "sha256="@ + expected@);
        proof {
            if signature@ == github_header(mac@) {
                assert(expected@ =~= signature@.subrange(7, signature@.len() as int));
                assert(hex_lower(mac@) =~= github_header(mac@).subrange(7, signature@.len() as int));
            }
        }
        Err(WebhookError::SignatureMismatch)
    }
}

/// Verifies GitHub's `X-Hub-Signature-256` header: `sha256=` and the
/// lower-case hex HMAC-SHA256 of the exact raw body under the secret.
pub fn verify_github_signature(secret: &str, payload: &[u8], signature: &str) -> (r: Result<
    (),
    WebhookError,
>)
    ensures
        r is Ok <==> signature@ == github_header(hmac_sha256_of(encode_utf8(secret@), payload@)),
        r matches Err(e) ==> (e == WebhookError::InvalidSignatureFormat <==> !(7 <= signature@.len()
            && signature@.subrange(0, 7) == "sha256="@)),
{
    let mac = match hmac_sha256(secret.as_bytes(), payload) {
        Some(m) => m,
        None => {
            return Err(WebhookError::InvalidKey);
        },
    };
    check_github_signature(mac.as_slice(), signature)
}

/// Verifies GitLab's `X-Gitlab-Token` header: it equals the secret.
pub fn verify_gitlab_signature(secret: &str, token: &str) -> (r: Result<(), WebhookError>)
    ensures
        r is Ok <==> secret@ == token@,
        r matches Err(e) ==> e == WebhookError::TokenMismatch,
{
    if constant_time_eq(secret, token) {
        Ok(())
    } else {
        Err(WebhookError::TokenMismatch)
    }
}

/// A push normalised across providers.
#[derive(Clone, Debug)]
pub struct WebhookPayload {
    pub branch: String,
    pub commit_sha: String,
    pub commit_message: String,
    pub author: String,
    pub repository_url: String,
}

/// The branch a ref names: `refs/heads/` is dropped, other refs stay whole.
pub open spec fn branch_of(git_ref: Seq<char>) -> Seq<char> {
    if 11 <= git_ref.len() && git_ref.subrange(0, 11) == "refs/heads/"@ {
        git_ref.subrange(11, git_ref.len() as int)
    } else {
        git_ref
    }
}

pub fn branch_from_ref(git_ref: &str) -> (r: String)
    ensures
        r@ == branch_of(git_ref@),
{
    proof {
        reveal_strlit("refs/heads/");
    }
    match strip_prefix(git_ref, "refs/heads/") {
        Some(b) => b,
        None => String::from_str(git_ref),
    }
}

/// Whether five looked-up fields make a push.
pub open spec fn fields_present(
    git_ref: Option<Seq<char>>,
    sha: Option<Seq<char>>,
    message: Option<Seq<char>>,
    author: Option<Seq<char>>,
    url: Option<Seq<char>>,
) -> bool {
    git_ref is Some && sha is Some && message is Some && author is Some && url is Some
}

pub open spec fn opt_view(o: Option<String>) -> Option<Seq<char>> {
    match o {
        Some(s) => Some(s@),
        None => None,
    }
}

/// Builds a push from its looked-up fields: all five must be there.
pub fn payload_from_fields(
    git_ref: Option<String>,
    commit_sha: Option<String>,
    commit_message: Option<String>,
    author: Option<String>,
    repository_url: Option<String>,
) -> (r: Result<WebhookPayload, WebhookError>)
    ensures
        r is Ok <==> fields_present(
            opt_view(git_ref),
            opt_view(commit_sha),
            opt_view(commit_message),
            opt_view(author),
            opt_view(repository_url),
        ),
        r matches Err(e) ==> e == WebhookError::InvalidPayload,
        r matches Ok(p) ==> p.branch@ == branch_of(git_ref.unwrap()@) && p.commit_sha
            == commit_sha.unwrap() && p.commit_message == commit_message.unwrap() && p.author
            == author.unwrap() && p.repository_url == repository_url.unwrap(),
{
    match (git_ref, commit_sha, commit_message, author, repository_url) {
        (Some(g), Some(c), Some(m), Some(a), Some(u)) => Ok(
            WebhookPayload {
                branch: branch_from_ref(g.as_str()),
                commit_sha: c,
                commit_message: m,
                author: a,
                repository_url: u,
            },
        ),
        _ => Err(WebhookError::InvalidPayload),
    }
}

/// What a push body of `provider` normalises to.
pub open spec fn parsed_push(provider: WebhookProvider, body: Seq<u8>) -> Option<
    (Seq<char>, Seq<char>, Seq<char>, Seq<char>, Seq<char>),
> {
    let (r, c, m, a, u) = match provider {
        WebhookProvider::GitHub => (
            json_string_at(body, "/ref"@),
            json_string_at(body, "/head_commit/id"@),
            json_string_at(body, "/head_commit/message"@),
            json_string_at(body, "/head_commit/author/name"@),
            json_string_at(body, "/repository/clone_url"@),
        ),
        WebhookProvider::GitLab => (
            json_string_at(body, "/ref"@),
            json_string_at(body, "/checkout_sha"@),
            json_string_at(body, "/commits/0/message"@),
            json_string_at(body, "/commits/0/author/name"@),
            json_string_at(body, "/repository/git_ssh_url"@),
        ),
    };
    if fields_present(r, c, m, a, u) {
        Some((branch_of(r.unwrap()), c.unwrap(), m.unwrap(), a.unwrap(), u.unwrap()))
    } else {
        None
    }
}

pub open spec fn payload_matches(p: WebhookPayload, f: (Seq<char>, Seq<char>, Seq<char>, Seq<char>, Seq<char>)) -> bool {
    p.branch@ == f.0 && p.commit_sha@ == f.1 && p.commit_message@ == f.2 && p.author@ == f.3
        && p.repository_url@ == f.4
}

/// Parses a GitHub push: `ref`, `head_commit.id`, `head_commit.message`,
/// `head_commit.author.name`, `repository.clone_url`.
pub fn parse_github_push(payload: &[u8]) -> (r: Result<WebhookPayload, WebhookError>)
    ensures
        r is Ok <==> parsed_push(WebhookProvider::GitHub, payload@) is Some,
        r matches Ok(p) ==> payload_matches(p, parsed_push(WebhookProvider::GitHub, payload@).unwrap()),
        r matches Err(e) ==> e == WebhookError::InvalidPayload,
{
    let g = json_string(payload, "/ref");
    let c = json_string(payload, "/head_commit/id");
    let m = json_string(payload, "/head_commit/message");
    let a = json_string(payload, "/head_commit/author/name");
    let u = json_string(payload, "/repository/clone_url");
    payload_from_fields(g, c, m, a, u)
}

/// Parses a GitLab push: `ref`, `checkout_sha`, the message and author name
/// of the first of `commits`, `repository.git_ssh_url`.
pub fn parse_gitlab_push(payload: &[u8]) -> (r: Result<WebhookPayload, WebhookError>)
    ensures
        r is Ok <==> parsed_push(WebhookProvider::GitLab, payload@) is Some,
        r matches Ok(p) ==> payload_matches(p, parsed_push(WebhookProvider::GitLab, payload@).unwrap()),
        r matches Err(e) ==> e == WebhookError::InvalidPayload,
{
    let g = json_string(payload, "/ref");
    let c = json_string(payload, "/checkout_sha");
    let m = json_string(payload, "/commits/0/message");
    let a = json_string(payload, "/commits/0/author/name");
    let u = json_string(payload, "/repository/git_ssh_url");
    payload_from_fields(g, c, m, a, u)
}

/// Why an inbound push is answered with an error status.
#[derive(Clone, Copy, Debug, PartialEq, Eq, Structural)]
pub enum IngressRejection {
    WebhookNotFound,
    WebhookDisabled,
    MissingHeader,
    Unauthorized(WebhookError),
    BadPayload(WebhookError),
    ApplicationNotFound,
}

impl IngressRejection {
    pub open spec fn code(&self) -> u16 {
        match self {
            IngressRejection::WebhookNotFound | IngressRejection::ApplicationNotFound => 404,
            IngressRejection::WebhookDisabled => 403,
            IngressRejection::MissingHeader | IngressRejection::BadPayload(_) => 400,
            IngressRejection::Unauthorized(_) => 401,
        }
    }

    pub fn status_code(&self) -> (r: u16)
        ensures
            r == self.code(),
    {
        match self {
            IngressRejection::WebhookNotFound | IngressRejection::ApplicationNotFound => 404,
            IngressRejection::WebhookDisabled => 403,
            IngressRejection::MissingHeader | IngressRejection::BadPayload(_) => 400,
            IngressRejection::Unauthorized(_) => 401,
        }
    }

    pub fn message(&self) -> (r: &'static str)
        ensures
            *self == IngressRejection::WebhookNotFound ==> r@ == "Webhook not configured"@,
            *self == IngressRejection::WebhookDisabled ==> r@ == "Webhook is disabled"@,
            *self == IngressRejection::MissingHeader ==> r@ == "Missing signature header"@,
            *self == IngressRejection::ApplicationNotFound ==> r@ == "Application not found"@,
            self matches IngressRejection::Unauthorized(e) ==> r@ == e.text(),
            self matches IngressRejection::BadPayload(e) ==> r@ == e.text(),
    {
        match self {
            IngressRejection::WebhookNotFound => "Webhook not configured",
            IngressRejection::WebhookDisabled => "Webhook is disabled",
            IngressRejection::MissingHeader => "Missing signature header",
            IngressRejection::Unauthorized(e) => e.message(),
            IngressRejection::BadPayload(e) => e.message(),
            IngressRejection::ApplicationNotFound => "Application not found",
        }
    }
}

/// Whether `header` authenticates `body` for a webhook with `secret`.
pub open spec fn authenticated(
    provider: WebhookProvider,
    secret: Seq<char>,
    header: Seq<char>,
    body: Seq<u8>,
) -> bool {
    match provider {
        WebhookProvider::GitHub => header == github_header(hmac_sha256_of(encode_utf8(secret), body)),
        WebhookProvider::GitLab => header == secret,
    }
}

/// Admits an inbound push: the webhook must exist and be enabled, the
/// provider's header must be present and authenticate the raw body, and the
/// body must be a push of that provider.
pub fn accept_push(
    provider: WebhookProvider,
    webhook: Option<&Webhook>,
    header: Option<&str>,
    body: &[u8],
) -> (r: Result<WebhookPayload, IngressRejection>)
    ensures
        webhook is None ==> r == Err::<WebhookPayload, IngressRejection>(
            IngressRejection::WebhookNotFound,
        ),
        webhook matches Some(w) ==> (!w.enabled ==> r == Err::<WebhookPayload, IngressRejection>(
            IngressRejection::WebhookDisabled,
        )),
        webhook matches Some(w) ==> (w.enabled && header is None ==> r == Err::<
            WebhookPayload,
            IngressRejection,
        >(IngressRejection::MissingHeader)),
        webhook matches Some(w) ==> (w.enabled && header is Some && !authenticated(
            provider,
            w.secret@,
            header.unwrap()@,
            body@,
        ) ==> r matches Err(IngressRejection::Unauthorized(_))),
        webhook matches Some(w) ==> (w.enabled && header is Some && authenticated(
            provider,
            w.secret@,
            header.unwrap()@,
            body@,
        ) ==> (r is Ok <==> parsed_push(provider, body@) is Some)),
        r matches Ok(p) ==> parsed_push(provider, body@) is Some && payload_matches(
            p,
            parsed_push(provider, body@).unwrap(),
        ),
        r matches Err(IngressRejection::BadPayload(e)) ==> e == WebhookError::InvalidPayload,
{
    let w = match webhook {
        Some(w) => w,
        None => {
            return Err(IngressRejection::WebhookNotFound);
        },
    };
    if !w.enabled {
        return Err(IngressRejection::WebhookDisabled);
    }
    let h = match header {
        Some(h) => h,
        None => {
            return Err(IngressRejection::MissingHeader);
        },
    };
    let parsed = match provider {
        WebhookProvider::GitHub => {
            if let Err(e) = verify_github_signature(w.secret.as_str(), body, h) {
                return Err(IngressRejection::Unauthorized(e));
            }
            parse_github_push(body)
        },
        WebhookProvider::GitLab => {
            if let Err(e) = verify_gitlab_signature(w.secret.as_str(), h) {
                return Err(IngressRejection::Unauthorized(e));
            }
            parse_gitlab_push(body)
        },
    };
    match parsed {
        Ok(p) => Ok(p),
        Err(e) => Err(IngressRejection::BadPayload(e)),
    }
}

/// Whether an admitted push redeploys: the application must exist, and the
/// push must be on its configured branch.
pub fn push_redeploys(application: Option<&Application>, payload: &WebhookPayload) -> (r: Result<
    bool,
    IngressRejection,
>)
    ensures
        application is None ==> r == Err::<bool, IngressRejection>(
            IngressRejection::ApplicationNotFound,
        ),
        application matches Some(a) ==> r == Ok::<bool, IngressRejection>(
            a.git_branch@ == payload.branch@,
        ),
{
    match application {
        Some(a) => Ok(str_eq(a.git_branch.as_str(), payload.branch.as_str())),
        None => Err(IngressRejection::ApplicationNotFound),
    }
}

/// The status recorded for a delivery: skipped when the push does not
/// redeploy, success when the deployment was created, failed otherwise.
pub open spec fn delivery_status_for(redeploy: bool, created: bool) -> WebhookDeliveryStatus {
    if !redeploy {
        WebhookDeliveryStatus::Skipped
    } else if created {
        WebhookDeliveryStatus::Success
    } else {
        WebhookDeliveryStatus::Failed
    }
}

/// The audit record of an admitted push. `deployment_id` is the deployment
/// that the push created, if it redeployed and the trigger succeeded.
pub fn delivery_record(
    webhook: &Webhook,
    provider: WebhookProvider,
    payload: &WebhookPayload,
    redeploy: bool,
    deployment_id: Option<String>,
    now: i64,
) -> (r: WebhookDelivery)
    ensures
        r.status == delivery_status_for(redeploy, deployment_id is Some),
        r.deployment_id == (if redeploy { deployment_id } else { None }),
        r.webhook_id == webhook.id,
        r.application_id == webhook.application_id,
        r.provider == provider,
        r.event_type@ == "push"@,
        r.branch == Some(payload.branch),
        r.commit_sha == Some(payload.commit_sha),
        r.commit_message == Some(payload.commit_message),
        r.author == Some(payload.author),
        r.response_code == Some(200i32),
        r.error_message is None,
        r.delivered_at == now,
{
    let (status, dep) = if !redeploy {
        (WebhookDeliveryStatus::Skipped, None)
    } else {
        match deployment_id {
            Some(id) => (WebhookDeliveryStatus::Success, Some(id)),
            None => (WebhookDeliveryStatus::Failed, None),
        }
    };
    WebhookDelivery {
        id: new_id(),
        webhook_id: webhook.id.clone(),
        application_id: webhook.application_id.clone(),
        provider,
        event_type: String::from_str("push"),
        branch: Some(payload.branch.clone()),
        commit_sha: Some(payload.commit_sha.clone()),
        commit_message: Some(payload.commit_message.clone()),
        author: Some(payload.author.clone()),
        status,
        response_code: Some(200),
        error_message: None,
        deployment_id: dep,
        delivered_at: now,
    }
}

/// The URL a provider posts pushes of application `app_id` to.
pub fn webhook_url(public_url: &str, provider: WebhookProvider, app_id: &str) -> (r: String)
    ensures
        r@ == public_url@ + "/webhooks/"@ + provider.name() + "?app_id="@ + app_id@,
{
    let mut u = concat2(public_url, "/webhooks/");
    u.append(provider.as_str());
    u.append("?app_id=");
    u.append(app_id);
    u
}

} // verus!
