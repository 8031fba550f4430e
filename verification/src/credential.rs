//! The credential value: an immutable snapshot of an access key, its secret,
//! an optional session token, an optional expiration and the label of the
//! source that issued it.

use vstd::prelude::*;
use vstd::string::*;

verus! {

/// What a [`Credential`] holds, as mathematical values. Times are seconds
/// since the Unix epoch.
pub struct CredentialView {
    pub access_key_id: Seq<char>,
    pub secret_access_key: Seq<char>,
    pub session_token: Option<Seq<char>>,
    pub expires_at: Option<nat>,
    pub issuer: Seq<char>,
}

impl CredentialView {
    /// Both halves of the key pair are present, so a request can be signed.
    pub open spec fn signable(self) -> bool {
        self.access_key_id.len() > 0 && self.secret_access_key.len() > 0
    }

    /// The credential may still be handed out at time `now`: it never
    /// expires, or `now` lies more than `safety_margin` before its expiration.
    pub open spec fn fresh_at(self, now: nat, safety_margin: nat) -> bool {
        match self.expires_at {
            None => true,
            Some(t) => now + safety_margin < t,
        }
    }

    /// The rendering for logs. It shows the issuer and a fixed mask in place
    /// of the secret; no other field enters it.
    pub open spec fn redacted(self) -> Seq<char> {
        "Credential { issuer: "@ + self.issuer + ", secret_access_key: ** redacted ** }"@
    }
}

/// A set of access credentials. Once built it never changes; clones are cheap
/// and may be shared freely.
pub struct Credential {
    access_key_id: String,
    secret_access_key: String,
    session_token: Option<String>,
    expires_at: Option<u64>,
    issuer: String,
}

impl View for Credential {
    type V = CredentialView;

    closed spec fn view(&self) -> CredentialView {
        CredentialView {
            access_key_id: self.access_key_id@,
            secret_access_key: self.secret_access_key@,
            session_token: match self.session_token {
                Some(t) => Some(t@),
                None => None,
            },
            expires_at: match self.expires_at {
                Some(t) => Some(t as nat),
                None => None,
            },
            issuer: self.issuer@,
        }
    }
}

impl Credential {
    /// Builds a credential from its five parts. `expires_at` is in seconds
    /// since the Unix epoch; `None` means the credential never expires.
    pub fn new(
        access_key_id: String,
        secret_access_key: String,
        session_token: Option<String>,
        expires_at: Option<u64>,
        issuer: String,
    ) -> (credential: Credential)
        ensures
            credential@.access_key_id == access_key_id@,
            credential@.secret_access_key == secret_access_key@,
            credential@.session_token == match session_token {
                Some(t) => Some(t@),
                None => None::<Seq<char>>,
            },
            credential@.expires_at == match expires_at {
                Some(t) => Some(t as nat),
                None => None::<nat>,
            },
            credential@.issuer == issuer@,
    {
        Credential { access_key_id, secret_access_key, session_token, expires_at, issuer }
    }

    /// The placeholder for unauthenticated use: empty key and secret, no
    /// token, no expiration.
    pub fn anonymous(issuer: String) -> (credential: Credential)
        ensures
            credential@ == (CredentialView {
                access_key_id: Seq::<char>::empty(),
                secret_access_key: Seq::<char>::empty(),
                session_token: None,
                expires_at: None,
                issuer: issuer@,
            }),
            !credential@.signable(),
    {
        Credential {
            access_key_id: String::new(),
            secret_access_key: String::new(),
            session_token: None,
            expires_at: None,
            issuer,
        }
    }

    /// The access key id.
    pub fn access_key_id(&self) -> (id: &str)
        ensures
            id@ == self@.access_key_id,
    {
        self.access_key_id.as_str()
    }

    /// The raw secret. It is meant for signing, never for logs: see
    /// [`Credential::redacted`].
    pub fn secret_access_key(&self) -> (secret: &str)
        ensures
            secret@ == self@.secret_access_key,
    {
        self.secret_access_key.as_str()
    }

    /// The session token, if the credential has one.
    pub fn session_token(&self) -> (token: Option<&str>)
        ensures
            match token {
                Some(t) => self@.session_token == Some(t@),
                None => self@.session_token.is_none(),
            },
    {
        match &self.session_token {
            Some(t) => Some(t.as_str()),
            None => None,
        }
    }

    /// The expiration in seconds since the Unix epoch, if the credential
    /// expires.
    pub fn expires_at(&self) -> (expiry: Option<u64>)
        ensures
            match expiry {
                Some(t) => self@.expires_at == Some(t as nat),
                None => self@.expires_at.is_none(),
            },
    {
        self.expires_at
    }

    /// The label of the source that issued the credential.
    pub fn issuer(&self) -> (label: &str)
        ensures
            label@ == self@.issuer,
    {
        self.issuer.as_str()
    }

    /// Whether this is a placeholder that cannot sign: the key or the secret
    /// is empty. Callers check this before they use the credential.
    pub fn is_anonymous(&self) -> (anonymous: bool)
        ensures
            anonymous == !self@.signable(),
    {
        self.access_key_id.as_str().is_empty() || self.secret_access_key.as_str().is_empty()
    }

    /// Whether the credential may still be handed out at `now`, keeping
    /// `safety_margin` seconds clear of its expiration.
    pub fn is_fresh(&self, now: u64, safety_margin: u64) -> (fresh: bool)
        ensures
            fresh == self@.fresh_at(now as nat, safety_margin as nat),
    {
        match self.expires_at {
            None => true,
            Some(t) => match t.checked_sub(safety_margin) {
                Some(limit) => now < limit,
                None => false,
            },
        }
    }

    /// The text for logs: the issuer and a mask where the secret would be.
    pub fn redacted(&self) -> (text: String)
        ensures
            text@ == self@.redacted(),
    {
        let mut text = String::from_str("Credential { issuer: ");
        text.append(self.issuer.as_str());
        text.append(", secret_access_key: ** redacted ** }");
        text
    }
}

impl Clone for Credential {
    fn clone(&self) -> (copy: Credential)
        ensures
            copy@ == self@,
    {
        Credential {
            access_key_id: self.access_key_id.clone(),
            secret_access_key: self.secret_access_key.clone(),
            session_token: match &self.session_token {
                Some(t) => Some(t.clone()),
                None => None,
            },
            expires_at: self.expires_at,
            issuer: self.issuer.clone(),
        }
    }
}

/// The state of one formatting run of `core::fmt`.
#[verifier::external_type_specification]
#[verifier::external_body]
pub struct ExFormatter<'a>(core::fmt::Formatter<'a>);

/// The error of `core::fmt`: the sink refused what was written.
#[verifier::external_type_specification]
#[verifier::external_body]
pub struct ExFmtError(core::fmt::Error);

/// The text written so far to the buffer that a formatter holds.
pub uninterp spec fn written(formatter: core::fmt::Formatter<'_>) -> Seq<char>;

/// `core::fmt::Formatter::write_str` writes `data` to the buffer of the
/// formatter: where it succeeds, the buffer holds what it held before,
/// followed by `data`. Nothing is claimed where it fails.
pub assume_specification<'a>[ core::fmt::Formatter::<'a>::write_str ](
    formatter: &mut core::fmt::Formatter<'a>,
    data: &str,
) -> (done: Result<(), core::fmt::Error>)
    ensures
        done is Ok ==> written(*final(formatter)) == written(*old(formatter)) + data@,
;

impl core::fmt::Debug for Credential {
    /// Writes the redacted rendering and nothing else: a credential never
    /// shows its secret where it is printed for debugging.
    fn fmt(&self, formatter: &mut core::fmt::Formatter<'_>) -> (done: Result<(), core::fmt::Error>)
        ensures
            done is Ok ==> written(*final(formatter)) == written(*old(formatter))
                + self@.redacted(),
    {
        let text = self.redacted();
        formatter.write_str(text.as_str())
    }
}

impl PartialEq for Credential {
    fn eq(&self, other: &Credential) -> (equal: bool) {
        let tokens_equal = match (&self.session_token, &other.session_token) {
            (Some(a), Some(b)) => *a == *b,
            (None, None) => true,
            _ => false,
        };
        let expirations_equal = match (self.expires_at, other.expires_at) {
            (Some(a), Some(b)) => a == b,
            (None, None) => true,
            _ => false,
        };
        self.access_key_id == other.access_key_id
            && self.secret_access_key == other.secret_access_key
            && tokens_equal
            && expirations_equal
            && self.issuer == other.issuer
    }
}

impl Eq for Credential {}

impl vstd::std_specs::cmp::PartialEqSpecImpl for Credential {
    open spec fn obeys_eq_spec() -> bool {
        true
    }

    open spec fn eq_spec(&self, other: &Credential) -> bool {
        self@ == other@
    }
}

/// Two credentials from the same issuer render alike for logs, whatever their
/// keys, secrets, tokens and expirations are: the rendering cannot leak them.
pub proof fn lemma_redaction_hides_all_but_issuer(a: CredentialView, b: CredentialView)
    requires
        a.issuer == b.issuer,
    ensures
        a.redacted() == b.redacted(),
{
}

} // verus!
