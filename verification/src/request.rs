//! What a client asks of the leader, what the leader asks of the signer
//! nodes, and the rule by which an identity authorizes a request.

use vstd::prelude::*;
use vstd::string::StringExecFns;
use crate::keys::copy_bytes;
use vstd::utf8::encode_utf8;

verus! {

/// What the identity verifier said of an identity assertion.
#[derive(Debug, Clone)]
pub enum IdentityAnswer {
    /// The assertion is good and speaks for this subject.
    Subject(String),
    /// The assertion is not good.
    Invalid,
}

/// The identity verifier's answer as a value.
pub enum Answer {
    Subject(Seq<char>),
    Invalid,
}

impl View for IdentityAnswer {
    type V = Answer;

    open spec fn view(&self) -> Answer {
        match self {
            IdentityAnswer::Subject(subject) => Answer::Subject(subject@),
            IdentityAnswer::Invalid => Answer::Invalid,
        }
    }
}

/// An account, the subject that was verified for it and the public key that
/// is to be bound to it.
#[derive(Debug, Clone)]
pub struct KeyBinding {
    pub account_id: String,
    pub subject: String,
    pub public_key: String,
}

/// A key binding as a value.
pub struct Binding {
    pub account_id: Seq<char>,
    pub subject: Seq<char>,
    pub public_key: Seq<char>,
}

impl View for KeyBinding {
    type V = Binding;

    open spec fn view(&self) -> Binding {
        Binding { account_id: self.account_id@, subject: self.subject@, public_key: self.public_key@ }
    }
}

/// What the leader asks every signer node to sign.
#[derive(Debug, Clone)]
pub struct SigningRequest {
    /// Names the request; the same id is the same request.
    pub request_id: u64,
    /// The bytes to sign.
    pub payload: Vec<u8>,
    /// The key-derivation path, where the client gave one.
    pub path: Option<String>,
    /// The binding that the payload stands for, where the request makes one.
    pub binding: Option<KeyBinding>,
    /// The identity assertion that came with the request.
    pub assertion: String,
}

/// A signing request as a value.
pub struct Signing {
    pub request_id: u64,
    pub payload: Seq<u8>,
    pub path: Option<Seq<char>>,
    pub binding: Option<Binding>,
    pub assertion: Seq<char>,
}

impl View for SigningRequest {
    type V = Signing;

    open spec fn view(&self) -> Signing {
        Signing {
            request_id: self.request_id,
            payload: self.payload@,
            path: match self.path {
                Some(path) => Some(path@),
                None => None,
            },
            binding: match self.binding {
                Some(binding) => Some(binding@),
                None => None,
            },
            assertion: self.assertion@,
        }
    }
}

/// What is done to an account on the strength of an identity.
#[derive(Clone, Copy, Debug, PartialEq, Eq, Structural)]
pub enum AccountAction {
    /// The account is created, bound to a public key.
    NewAccount,
    /// One more public key is bound to the account.
    AddKey,
}

/// What a client asks of the leader.
#[derive(Debug, Clone)]
pub enum ClientRequest {
    /// Sign an opaque payload.
    Sign { payload: Vec<u8>, path: String, key_version: u32 },
    /// Create an account bound to a public key.
    NewAccount { account_id: String, identity_token: String, public_key: String },
    /// Bind one more public key to an account.
    AddKey { account_id: String, identity_token: String, public_key: String },
}

/// A client's request as a value.
pub enum Request {
    Sign { payload: Seq<u8>, path: Seq<char>, key_version: u32 },
    NewAccount { account_id: Seq<char>, identity_token: Seq<char>, public_key: Seq<char> },
    AddKey { account_id: Seq<char>, identity_token: Seq<char>, public_key: Seq<char> },
}

impl View for ClientRequest {
    type V = Request;

    open spec fn view(&self) -> Request {
        match self {
            ClientRequest::Sign { payload, path, key_version } => Request::Sign {
                payload: payload@,
                path: path@,
                key_version: *key_version,
            },
            ClientRequest::NewAccount { account_id, identity_token, public_key } => Request::NewAccount {
                account_id: account_id@,
                identity_token: identity_token@,
                public_key: public_key@,
            },
            ClientRequest::AddKey { account_id, identity_token, public_key } => Request::AddKey {
                account_id: account_id@,
                identity_token: identity_token@,
                public_key: public_key@,
            },
        }
    }
}

/// Whether `c` separates the parts of an account identifier.
pub open spec fn is_separator(c: char) -> bool {
    c == '-' || c == '_' || c == '.'
}

/// Whether `c` is a lower-case letter or a digit.
pub open spec fn is_plain(c: char) -> bool {
    ('a' <= c && c <= 'z') || ('0' <= c && c <= '9')
}

/// Whether `id` is a well-formed account identifier: 2 to 64 characters,
/// lower-case letters, digits and the separators `-`, `_` and `.`, no
/// separator first, last or next to another.
pub open spec fn well_formed_account(id: Seq<char>) -> bool {
    &&& 2 <= id.len() <= 64
    &&& forall|i: int| 0 <= i < id.len() ==> is_plain(#[trigger] id[i]) || is_separator(id[i])
    &&& !is_separator(id[0])
    &&& !is_separator(id[id.len() - 1])
    &&& forall|i: int, j: int|
        0 <= i && j == i + 1 && j < id.len() ==> !(is_separator(#[trigger] id[i]) && is_separator(
            #[trigger] id[j],
        ))
}

/// Validates an account identifier with `near_account_id::AccountId::validate`,
/// which accepts exactly the identifiers that `well_formed_account` describes.
#[verifier::external_body]
fn account_id_valid(id: &str) -> (r: bool)
    ensures
        r == well_formed_account(id@),
{
    near_account_id::AccountId::validate(id).is_ok()
}

impl Request {
    /// Whether the request is made on the strength of an identity assertion.
    pub open spec fn gated(self) -> bool {
        !(self is Sign)
    }

    /// What the request does to an account, where it does anything to one.
    pub open spec fn account_action(self) -> Option<AccountAction> {
        match self {
            Request::Sign { .. } => None,
            Request::NewAccount { .. } => Some(AccountAction::NewAccount),
            Request::AddKey { .. } => Some(AccountAction::AddKey),
        }
    }

    /// Whether the request has the shape that the leader accepts: a payload
    /// that is not empty, or a well-formed account identifier.
    pub open spec fn well_shaped(self) -> bool {
        match self {
            Request::Sign { payload, .. } => payload.len() > 0,
            Request::NewAccount { account_id, .. } => well_formed_account(account_id),
            Request::AddKey { account_id, .. } => well_formed_account(account_id),
        }
    }

    /// The identity assertion that came with the request; empty where the
    /// request needs none.
    pub open spec fn token(self) -> Seq<char> {
        match self {
            Request::Sign { .. } => Seq::empty(),
            Request::NewAccount { identity_token, .. } => identity_token,
            Request::AddKey { identity_token, .. } => identity_token,
        }
    }

    /// The binding that the request makes once `subject` is verified for it.
    pub open spec fn binding(self, subject: Seq<char>) -> Option<Binding> {
        match self {
            Request::Sign { .. } => None,
            Request::NewAccount { account_id, public_key, .. } => Some(
                Binding { account_id, subject, public_key },
            ),
            Request::AddKey { account_id, public_key, .. } => Some(
                Binding { account_id, subject, public_key },
            ),
        }
    }

    /// Whether `signing` asks the nodes for what the request `request_id`
    /// wants: the payload as the client gave it, or the payload that stands
    /// for the binding of the request's account and public key.
    pub open spec fn carried_by(self, request_id: u64, signing: Signing) -> bool {
        &&& signing.request_id == request_id
        &&& match self {
            Request::Sign { payload, path, .. } => {
                &&& signing.payload == payload
                &&& signing.path == Some(path)
                &&& signing.binding is None
            },
            Request::NewAccount { account_id, identity_token, public_key } => {
                &&& signing.binding matches Some(b)
                &&& b.account_id == account_id
                &&& b.public_key == public_key
                &&& signing.payload == binding_payload(b)
                &&& signing.assertion == identity_token
            },
            Request::AddKey { account_id, identity_token, public_key } => {
                &&& signing.binding matches Some(b)
                &&& b.account_id == account_id
                &&& b.public_key == public_key
                &&& signing.payload == binding_payload(b)
                &&& signing.assertion == identity_token
            },
        }
    }

    /// What the nodes are asked to sign for the request `request_id`, the
    /// subject `subject` verified where the request is gated: the payload as
    /// given, or the payload that stands for the binding.
    pub open spec fn signing(self, request_id: u64, subject: Seq<char>) -> Signing {
        match self {
            Request::Sign { payload, path, .. } => Signing {
                request_id,
                payload,
                path: Some(path),
                binding: None,
                assertion: Seq::empty(),
            },
            _ => Signing {
                request_id,
                payload: binding_payload(self.binding(subject).unwrap()),
                path: None,
                binding: self.binding(subject),
                assertion: self.token(),
            },
        }
    }
}

/// The eight bytes of `n`, most significant first.
pub open spec fn be64(n: nat) -> Seq<u8> {
    seq![
        ((n / 0x100_0000_0000_0000) % 256) as u8,
        ((n / 0x1_0000_0000_0000) % 256) as u8,
        ((n / 0x100_0000_0000) % 256) as u8,
        ((n / 0x1_0000_0000) % 256) as u8,
        ((n / 0x100_0000) % 256) as u8,
        ((n / 0x1_0000) % 256) as u8,
        ((n / 0x100) % 256) as u8,
        (n % 256) as u8,
    ]
}

/// A text framed for signing: the length of its UTF-8 form in eight bytes,
/// then that form.
pub open spec fn framed(text: Seq<char>) -> Seq<u8> {
    be64(encode_utf8(text).len()) + encode_utf8(text)
}

/// The payload that stands for a binding: the account identifier, the subject
/// and the public key, each framed, in this order.
pub open spec fn binding_payload(binding: Binding) -> Seq<u8> {
    framed(binding.account_id) + framed(binding.subject) + framed(binding.public_key)
}

/// Whether the identity verifier's answer authorizes signing for `binding`:
/// a request that makes no binding needs no identity; one that makes a binding
/// needs a good assertion that speaks for the binding's subject.
pub open spec fn authorizes(answer: Answer, binding: Option<Binding>) -> bool {
    match binding {
        None => true,
        Some(b) => answer == Answer::Subject(b.subject),
    }
}

/// Appends `text`, framed, to `out`.
fn push_framed(out: &mut Vec<u8>, text: &str)
    ensures
        final(out)@ == old(out)@ + framed(text@),
{
    let bytes = text.as_bytes();
    let n: u64 = bytes.len() as u64;
    out.push(((n / 0x100_0000_0000_0000) % 256) as u8);
    out.push(((n / 0x1_0000_0000_0000) % 256) as u8);
    out.push(((n / 0x100_0000_0000) % 256) as u8);
    out.push(((n / 0x1_0000_0000) % 256) as u8);
    out.push(((n / 0x100_0000) % 256) as u8);
    out.push(((n / 0x1_0000) % 256) as u8);
    out.push(((n / 0x100) % 256) as u8);
    out.push((n % 256) as u8);
    assert(out@ == old(out)@ + be64(bytes@.len()));
    let mut i: usize = 0;
    while i < bytes.len()
        invariant
            i <= bytes.len(),
            out@ == old(out)@ + be64(bytes@.len()) + bytes@.take(i as int),
        decreases bytes.len() - i,
    {
        out.push(bytes[i]);
        assert(bytes@.take(i + 1) == bytes@.take(i as int).push(bytes@[i as int]));
        i = i + 1;
    }
    assert(bytes@.take(bytes@.len() as int) == bytes@);
}

impl KeyBinding {
    /// The payload that the nodes sign for this binding.
    pub fn payload(&self) -> (r: Vec<u8>)
        ensures
            r@ == binding_payload(self@),
    {
        let mut out: Vec<u8> = Vec::new();
        push_framed(&mut out, self.account_id.as_str());
        push_framed(&mut out, self.subject.as_str());
        push_framed(&mut out, self.public_key.as_str());
        out
    }

    /// A copy of the binding.
    pub fn copy(&self) -> (r: KeyBinding)
        ensures
            r@ == self@,
    {
        KeyBinding {
            account_id: self.account_id.clone(),
            subject: self.subject.clone(),
            public_key: self.public_key.clone(),
        }
    }
}

/// Whether the identity verifier's answer authorizes signing for `binding`.
pub fn authorized(answer: &IdentityAnswer, binding: &Option<KeyBinding>) -> (r: bool)
    ensures
        r == authorizes(
            answer@,
            match binding {
                Some(b) => Some(b@),
                None => None,
            },
        ),
{
    match binding {
        None => true,
        Some(b) => match answer {
            IdentityAnswer::Subject(subject) => *subject == b.subject,
            IdentityAnswer::Invalid => false,
        },
    }
}

impl ClientRequest {
    /// Whether the request is made on the strength of an identity assertion.
    pub fn is_gated(&self) -> (r: bool)
        ensures
            r == self@.gated(),
    {
        match self {
            ClientRequest::Sign { .. } => false,
            _ => true,
        }
    }

    /// What the request does to an account, where it does anything to one.
    pub fn account_action(&self) -> (r: Option<AccountAction>)
        ensures
            r == self@.account_action(),
    {
        match self {
            ClientRequest::Sign { .. } => None,
            ClientRequest::NewAccount { .. } => Some(AccountAction::NewAccount),
            ClientRequest::AddKey { .. } => Some(AccountAction::AddKey),
        }
    }

    /// Whether the request has the shape that the leader accepts.
    pub fn is_well_shaped(&self) -> (r: bool)
        ensures
            r == self@.well_shaped(),
    {
        match self {
            ClientRequest::Sign { payload, .. } => payload.len() > 0,
            ClientRequest::NewAccount { account_id, .. } => account_id_valid(account_id.as_str()),
            ClientRequest::AddKey { account_id, .. } => account_id_valid(account_id.as_str()),
        }
    }
}

/// A copy of a text that may be absent.
fn copy_text(text: &Option<String>) -> (r: Option<String>)
    ensures
        r.is_some() == text.is_some(),
        r matches Some(t) ==> t@ == text.unwrap()@,
{
    match text {
        Some(t) => Some(t.clone()),
        None => None,
    }
}

impl SigningRequest {
    /// A copy of the request.
    pub fn copy(&self) -> (r: SigningRequest)
        ensures
            r@ == self@,
    {
        SigningRequest {
            request_id: self.request_id,
            payload: copy_bytes(&self.payload),
            path: copy_text(&self.path),
            binding: match &self.binding {
                Some(binding) => Some(binding.copy()),
                None => None,
            },
            assertion: self.assertion.clone(),
        }
    }
}

impl ClientRequest {
    /// The identity assertion that came with the request; empty where the
    /// request needs none.
    pub fn token(&self) -> (r: String)
        ensures
            r@ == self@.token(),
    {
        match self {
            ClientRequest::Sign { .. } => String::new(),
            ClientRequest::NewAccount { identity_token, .. } => identity_token.clone(),
            ClientRequest::AddKey { identity_token, .. } => identity_token.clone(),
        }
    }

    /// The binding that the request makes once `subject` is verified for it.
    pub fn binding(&self, subject: &str) -> (r: Option<KeyBinding>)
        ensures
            r.is_some() == self@.gated(),
            self@.binding(subject@) == (match r {
                Some(b) => Some(b@),
                None => None,
            }),
    {
        match self {
            ClientRequest::Sign { .. } => None,
            ClientRequest::NewAccount { account_id, public_key, .. } => Some(
                KeyBinding {
                    account_id: account_id.clone(),
                    subject: String::from_str(subject),
                    public_key: public_key.clone(),
                },
            ),
            ClientRequest::AddKey { account_id, public_key, .. } => Some(
                KeyBinding {
                    account_id: account_id.clone(),
                    subject: String::from_str(subject),
                    public_key: public_key.clone(),
                },
            ),
        }
    }

    /// What the nodes are asked to sign for the request `request_id`, the
    /// subject `subject` verified where the request is gated.
    pub fn signing(&self, request_id: u64, subject: &str) -> (r: SigningRequest)
        ensures
            r@ == self@.signing(request_id, subject@),
    {
        match self {
            ClientRequest::Sign { payload, path, .. } => SigningRequest {
                request_id,
                payload: copy_bytes(payload),
                path: Some(path.clone()),
                binding: None,
                assertion: String::new(),
            },
            _ => {
                let binding = self.binding(subject);
                let payload = match &binding {
                    Some(b) => b.payload(),
                    None => Vec::new(),
                };
                SigningRequest { request_id, payload, path: None, binding, assertion: self.token() }
            },
        }
    }
}

} // verus!
