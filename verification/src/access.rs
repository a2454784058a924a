//! Daemon authentication administration: principals, display-once
//! credentials, token and attestation metadata, their borrowed C views, and
//! validation of administration requests before they are dispatched.

use vstd::prelude::*;
use vstd::utf8::encode_utf8;

use crate::input::{
    arg_bytes, array_arg, read_owned_str, read_str_array, required_str_outcome, str_array_outcome,
    strings_view,
};
use crate::status::{error_status, Diagnostics, Error, LastError, LuminateStatus};
use crate::time::{optional_expiry, optional_expiry_outcome, system_time_unix_ms, unix_millis_outcome, UnixTime};

verus! {

/// An authenticated identity: an opaque authority and an authority-local
/// subject, both non-empty.
#[derive(Debug, Clone)]
pub struct PrincipalId {
    authority: String,
    subject: String,
}

impl PrincipalId {
    pub closed spec fn spec_authority(self) -> Seq<char> {
        self.authority@
    }

    pub closed spec fn spec_subject(self) -> Seq<char> {
        self.subject@
    }

    /// Creates a principal; an empty authority or subject is rejected.
    /// Assumed rule: `luminate_core`'s model is taken to reject exactly this
    /// case; its source is not available here, so the rule follows the
    /// behaviour observed at the C surface.
    pub fn new(authority: &str, subject: &str) -> (result: Result<PrincipalId, LuminateStatus>)
        ensures
            match result {
                Ok(principal) => principal.spec_authority() == authority@
                    && principal.spec_subject() == subject@
                    && authority@.len() > 0 && subject@.len() > 0,
                Err(status) => status == LuminateStatus::InvalidArgument
                    && (authority@.len() == 0 || subject@.len() == 0),
            },
    {
        if authority.is_empty() || subject.is_empty() {
            return Err(LuminateStatus::InvalidArgument);
        }
        Ok(PrincipalId { authority: authority.to_owned(), subject: subject.to_owned() })
    }

    /// Creates a principal from owned strings, with the rules of `new`.
    pub fn from_strings(authority: String, subject: String) -> (result: Result<PrincipalId, LuminateStatus>)
        ensures
            match result {
                Ok(principal) => principal.spec_authority() == authority@
                    && principal.spec_subject() == subject@
                    && authority@.len() > 0 && subject@.len() > 0,
                Err(status) => status == LuminateStatus::InvalidArgument
                    && (authority@.len() == 0 || subject@.len() == 0),
            },
    {
        if authority.as_str().is_empty() || subject.as_str().is_empty() {
            return Err(LuminateStatus::InvalidArgument);
        }
        Ok(PrincipalId { authority, subject })
    }

    pub fn authority(&self) -> (text: &str)
        ensures
            text@ == self.spec_authority(),
    {
        self.authority.as_str()
    }

    pub fn subject(&self) -> (text: &str)
        ensures
            text@ == self.spec_subject(),
    {
        self.subject.as_str()
    }
}

/// A display-once secret, held as its UTF-8 bytes; never empty until
/// erased.
pub struct Credential {
    secret: Vec<u8>,
}

impl Credential {
    pub closed spec fn spec_secret(self) -> Seq<u8> {
        self.secret@
    }

    /// Wraps a secret; an empty secret is rejected.
    /// Assumed rule: `luminate_core`'s model is taken to reject exactly this
    /// case; its source is not available here, so the rule follows the
    /// behaviour observed at the C surface.
    pub fn new(secret: &str) -> (result: Result<Credential, LuminateStatus>)
        ensures
            match result {
                Ok(credential) => credential.spec_secret() == encode_utf8(secret@),
                Err(status) => status == LuminateStatus::InvalidArgument && secret@.len() == 0,
            },
    {
        if secret.is_empty() {
            return Err(LuminateStatus::InvalidArgument);
        }
        let source = secret.as_bytes();
        let mut bytes: Vec<u8> = Vec::new();
        let mut i: usize = 0;
        while i < source.len()
            invariant
                0 <= i <= source@.len(),
                bytes@ == source@.take(i as int),
            decreases source@.len() - i,
        {
            bytes.push(source[i]);
            assert(bytes@ =~= source@.take(i + 1));
            i = i + 1;
        }
        assert(source@.take(source@.len() as int) =~= source@);
        Ok(Credential { secret: bytes })
    }

    /// The secret's UTF-8 bytes.
    pub fn expose(&self) -> (bytes: &[u8])
        ensures
            bytes@ == self.spec_secret(),
    {
        self.secret.as_slice()
    }

    /// Overwrites every byte of the secret with zero.
    pub fn erase(&mut self)
        ensures
            final(self).spec_secret().len() == old(self).spec_secret().len(),
            forall|i: int| 0 <= i < final(self).spec_secret().len() ==> #[trigger] final(self).spec_secret()[i] == 0,
    {
        let n = self.secret.len();
        let mut i: usize = 0;
        while i < n
            invariant
                n == self.secret@.len(),
                n == old(self).secret@.len(),
                0 <= i <= n,
                forall|j: int| 0 <= j < i ==> #[trigger] self.secret@[j] == 0,
            decreases n - i,
        {
            self.secret.set(i, 0);
            i = i + 1;
        }
    }
}

} // verus!

verus! {

/// The view of an optional borrowed string.
pub open spec fn opt_text(value: Option<&str>) -> Option<Seq<char>> {
    match value {
        Some(text) => Some(text@),
        None => None,
    }
}

/// `buffer` after the leading bytes of `secret` were copied into it, as many
/// as fit.
pub open spec fn copied_prefix(buffer: Seq<u8>, secret: Seq<u8>) -> Seq<u8> {
    Seq::new(buffer.len(), |i: int| if i < secret.len() { secret[i] } else { buffer[i] })
}

/// Copies as many leading bytes of `secret` as fit into `buffer` and returns
/// the secret's full length, so that a zero-length buffer sizes the copy.
pub fn copy_secret(secret: &[u8], buffer: &mut [u8]) -> (len: usize)
    ensures
        len == secret@.len(),
        final(buffer)@ == copied_prefix(old(buffer)@, secret@),
{
    let n = if secret.len() < buffer.len() { secret.len() } else { buffer.len() };
    let mut i: usize = 0;
    while i < n
        invariant
            n <= secret@.len(),
            n <= buffer@.len(),
            buffer@.len() == old(buffer)@.len(),
            0 <= i <= n,
            n == secret@.len() || n == buffer@.len(),
            forall|j: int| 0 <= j < i ==> buffer@[j] == secret@[j],
            forall|j: int| i <= j < buffer@.len() ==> buffer@[j] == old(buffer)@[j],
        decreases n - i,
    {
        buffer[i] = secret[i];
        i = i + 1;
    }
    assert(buffer@ =~= copied_prefix(old(buffer)@, secret@));
    secret.len()
}

/// Sanitized metadata of a daemon bearer token, borrowed from a token list.
#[derive(Debug, Clone)]
pub struct LuminateToken {
    pub id: String,
    pub subject: PrincipalId,
    pub expires_at: Option<UnixTime>,
    pub revoked: bool,
}

/// Token metadata as reported by the daemon.
pub type TokenMetadata = LuminateToken;

/// Owned list of token metadata.
pub struct LuminateTokenList(pub Vec<TokenMetadata>);

/// A created or rotated token: its metadata and display-once secret.
pub struct LuminateCreatedToken {
    pub metadata: TokenMetadata,
    pub secret: Credential,
}

/// Metadata of an actor-bound attestation, borrowed from an attestation
/// list.
#[derive(Debug, Clone)]
pub struct LuminateAttestation {
    pub name: String,
    pub subject: PrincipalId,
    pub verified_groups: Vec<String>,
    pub credential_id: String,
    pub expires_at: Option<UnixTime>,
}

/// Attestation metadata as reported by the daemon.
pub type AttestationMetadata = LuminateAttestation;

/// Owned list of attestation metadata.
pub struct LuminateAttestationList(pub Vec<AttestationMetadata>);

/// A created attestation: its metadata and display-once secret.
pub struct LuminateCreatedAttestation {
    pub metadata: AttestationMetadata,
    pub secret: Credential,
}

/// A sample principal: subject "alice" of the "local" authority.
pub fn principal() -> (p: PrincipalId)
    ensures
        p.spec_authority() == "local"@,
        p.spec_subject() == "alice"@,
{
    PrincipalId { authority: "local".to_owned(), subject: "alice".to_owned() }
}

/// Milliseconds of an optional expiry, when present and representable.
pub open spec fn expiry_millis(expires_at: Option<UnixTime>) -> Option<u64> {
    match expires_at {
        Some(t) => unix_millis_outcome(t),
        None => None,
    }
}

/// Every stored instant is well-formed.
pub open spec fn expiry_valid(expires_at: Option<UnixTime>) -> bool {
    expires_at matches Some(t) ==> t.valid()
}

fn optional_unix_ms(expires_at: Option<UnixTime>) -> (ms: Option<u64>)
    requires
        expiry_valid(expires_at),
    ensures
        ms == expiry_millis(expires_at),
{
    match expires_at {
        Some(t) => system_time_unix_ms(t),
        None => None,
    }
}

/// A token's expiry in Unix milliseconds: absent when the token never
/// expires or the instant is not representable.
pub fn expiry_unix_ms(metadata: &TokenMetadata) -> (ms: Option<u64>)
    requires
        expiry_valid(metadata.expires_at),
    ensures
        ms == expiry_millis(metadata.expires_at),
{
    optional_unix_ms(metadata.expires_at)
}

/// Writes an expiry through an optional out-pointer; reports whether it wrote.
fn write_expiry(ms: Option<u64>, out_expiry: Option<&mut u64>) -> (written: bool)
    ensures
        written == (ms is Some && out_expiry is Some),
        out_expiry matches Some(r) ==> (if written { *final(r) == ms->0 } else { *final(r) == *r }),
{
    match (ms, out_expiry) {
        (Some(value), Some(out)) => {
            *out = value;
            true
        },
        _ => false,
    }
}

impl LuminateTokenList {
    pub open spec fn wf(&self) -> bool {
        forall|i: int| 0 <= i < self.0@.len() ==> expiry_valid(#[trigger] self.0@[i].expires_at)
    }
}

/// Copies a created token's secret; see `copy_secret`. A null token copies
/// nothing and reports zero.
pub fn luminate_created_token_secret(token: Option<&LuminateCreatedToken>, buffer: &mut [u8]) -> (len: usize)
    ensures
        match token {
            None => len == 0 && final(buffer)@ == old(buffer)@,
            Some(token) => len == token.secret.spec_secret().len()
                && final(buffer)@ == copied_prefix(old(buffer)@, token.secret.spec_secret()),
        },
{
    match token {
        None => 0,
        Some(token) => copy_secret(token.secret.expose(), buffer),
    }
}

pub fn luminate_created_token_id(token: Option<&LuminateCreatedToken>) -> (view: Option<&str>)
    ensures
        opt_text(view) == match token { Some(t) => Some(t.metadata.id@), None => None::<Seq<char>> },
{
    match token {
        Some(token) => Some(token.metadata.id.as_str()),
        None => None,
    }
}

pub fn luminate_created_token_authority(token: Option<&LuminateCreatedToken>) -> (view: Option<&str>)
    ensures
        opt_text(view) == match token { Some(t) => Some(t.metadata.subject.spec_authority()), None => None::<Seq<char>> },
{
    match token {
        Some(token) => Some(token.metadata.subject.authority()),
        None => None,
    }
}

pub fn luminate_created_token_subject(token: Option<&LuminateCreatedToken>) -> (view: Option<&str>)
    ensures
        opt_text(view) == match token { Some(t) => Some(t.metadata.subject.spec_subject()), None => None::<Seq<char>> },
{
    match token {
        Some(token) => Some(token.metadata.subject.subject()),
        None => None,
    }
}

/// Writes a created token's expiry in Unix milliseconds; false when either
/// pointer is null or the token has no representable expiry.
pub fn luminate_created_token_expires_at_unix_ms(token: Option<&LuminateCreatedToken>, out_expiry: Option<&mut u64>) -> (written: bool)
    requires
        token matches Some(t) ==> expiry_valid(t.metadata.expires_at),
    ensures
        written == (token is Some && out_expiry is Some && expiry_millis(token->0.metadata.expires_at) is Some),
        out_expiry matches Some(r) ==> (if written { *final(r) == expiry_millis(token->0.metadata.expires_at)->0 } else { *final(r) == *r }),
{
    match token {
        None => false,
        Some(token) => write_expiry(expiry_unix_ms(&token.metadata), out_expiry),
    }
}

pub fn luminate_token_list_count(tokens: Option<&LuminateTokenList>) -> (count: usize)
    ensures
        count == match tokens { Some(t) => t.0@.len(), None => 0 },
{
    match tokens {
        Some(tokens) => tokens.0.len(),
        None => 0,
    }
}

/// Borrowed token at `index`, or null when out of range.
pub fn luminate_token_list_at(tokens: Option<&LuminateTokenList>, index: usize) -> (token: Option<&LuminateToken>)
    ensures
        match tokens {
            Some(t) => if index < t.0@.len() { token == Some(&t.0@[index as int]) } else { token is None },
            None => token is None,
        },
{
    match tokens {
        Some(tokens) => if index < tokens.0.len() { Some(&tokens.0[index]) } else { None },
        None => None,
    }
}

pub fn luminate_token_id(token: Option<&LuminateToken>) -> (view: Option<&str>)
    ensures
        opt_text(view) == match token { Some(t) => Some(t.id@), None => None::<Seq<char>> },
{
    match token {
        Some(token) => Some(token.id.as_str()),
        None => None,
    }
}

pub fn luminate_token_authority(token: Option<&LuminateToken>) -> (view: Option<&str>)
    ensures
        opt_text(view) == match token { Some(t) => Some(t.subject.spec_authority()), None => None::<Seq<char>> },
{
    match token {
        Some(token) => Some(token.subject.authority()),
        None => None,
    }
}

pub fn luminate_token_subject(token: Option<&LuminateToken>) -> (view: Option<&str>)
    ensures
        opt_text(view) == match token { Some(t) => Some(t.subject.spec_subject()), None => None::<Seq<char>> },
{
    match token {
        Some(token) => Some(token.subject.subject()),
        None => None,
    }
}

/// Whether the token is revoked; false for a null token.
pub fn luminate_token_revoked(token: Option<&LuminateToken>) -> (revoked: bool)
    ensures
        revoked == (token matches Some(t) && t.revoked),
{
    match token {
        Some(token) => token.revoked,
        None => false,
    }
}

pub fn luminate_token_expires_at_unix_ms(token: Option<&LuminateToken>, out_expiry: Option<&mut u64>) -> (written: bool)
    requires
        token matches Some(t) ==> expiry_valid(t.expires_at),
    ensures
        written == (token is Some && out_expiry is Some && expiry_millis(token->0.expires_at) is Some),
        out_expiry matches Some(r) ==> (if written { *final(r) == expiry_millis(token->0.expires_at)->0 } else { *final(r) == *r }),
{
    match token {
        None => false,
        Some(token) => write_expiry(expiry_unix_ms(token), out_expiry),
    }
}

} // verus!

verus! {

/// Copies a created attestation's secret; see `copy_secret`.
pub fn luminate_created_attestation_secret(attestation: Option<&LuminateCreatedAttestation>, buffer: &mut [u8]) -> (len: usize)
    ensures
        match attestation {
            None => len == 0 && final(buffer)@ == old(buffer)@,
            Some(a) => len == a.secret.spec_secret().len()
                && final(buffer)@ == copied_prefix(old(buffer)@, a.secret.spec_secret()),
        },
{
    match attestation {
        None => 0,
        Some(attestation) => copy_secret(attestation.secret.expose(), buffer),
    }
}

/// The group at `index` of a group list, or absent when out of range.
pub open spec fn group_at_view(groups: Seq<String>, index: usize) -> Option<Seq<char>> {
    if index < groups.len() { Some(groups[index as int]@) } else { None }
}

fn group_at(groups: &Vec<String>, index: usize) -> (view: Option<&str>)
    ensures
        opt_text(view) == group_at_view(groups@, index),
{
    if index < groups.len() { Some(groups[index].as_str()) } else { None }
}

fn attestation_name(record: &AttestationMetadata) -> (view: &str)
    ensures view@ == record.name@,
{
    record.name.as_str()
}

pub fn luminate_created_attestation_name(attestation: Option<&LuminateCreatedAttestation>) -> (view: Option<&str>)
    ensures
        opt_text(view) == match attestation { Some(a) => Some(a.metadata.name@), None => None::<Seq<char>> },
{
    match attestation {
        Some(a) => Some(attestation_name(&a.metadata)),
        None => None,
    }
}

pub fn luminate_created_attestation_authority(attestation: Option<&LuminateCreatedAttestation>) -> (view: Option<&str>)
    ensures
        opt_text(view) == match attestation { Some(a) => Some(a.metadata.subject.spec_authority()), None => None::<Seq<char>> },
{
    match attestation {
        Some(a) => Some(a.metadata.subject.authority()),
        None => None,
    }
}

pub fn luminate_created_attestation_subject(attestation: Option<&LuminateCreatedAttestation>) -> (view: Option<&str>)
    ensures
        opt_text(view) == match attestation { Some(a) => Some(a.metadata.subject.spec_subject()), None => None::<Seq<char>> },
{
    match attestation {
        Some(a) => Some(a.metadata.subject.subject()),
        None => None,
    }
}

pub fn luminate_created_attestation_group_count(attestation: Option<&LuminateCreatedAttestation>) -> (count: usize)
    ensures
        count == match attestation { Some(a) => a.metadata.verified_groups@.len(), None => 0 },
{
    match attestation {
        Some(a) => a.metadata.verified_groups.len(),
        None => 0,
    }
}

pub fn luminate_created_attestation_group_at(attestation: Option<&LuminateCreatedAttestation>, index: usize) -> (view: Option<&str>)
    ensures
        opt_text(view) == match attestation {
            Some(a) => group_at_view(a.metadata.verified_groups@, index),
            None => None::<Seq<char>>,
        },
{
    match attestation {
        Some(a) => group_at(&a.metadata.verified_groups, index),
        None => None,
    }
}

pub fn luminate_created_attestation_credential_id(attestation: Option<&LuminateCreatedAttestation>) -> (view: Option<&str>)
    ensures
        opt_text(view) == match attestation { Some(a) => Some(a.metadata.credential_id@), None => None::<Seq<char>> },
{
    match attestation {
        Some(a) => Some(a.metadata.credential_id.as_str()),
        None => None,
    }
}

pub fn luminate_created_attestation_expires_at_unix_ms(attestation: Option<&LuminateCreatedAttestation>, out_expiry: Option<&mut u64>) -> (written: bool)
    requires
        attestation matches Some(a) ==> expiry_valid(a.metadata.expires_at),
    ensures
        written == (attestation is Some && out_expiry is Some && expiry_millis(attestation->0.metadata.expires_at) is Some),
        out_expiry matches Some(r) ==> (if written { *final(r) == expiry_millis(attestation->0.metadata.expires_at)->0 } else { *final(r) == *r }),
{
    match attestation {
        None => false,
        Some(a) => write_expiry(optional_unix_ms(a.metadata.expires_at), out_expiry),
    }
}

pub fn luminate_attestation_list_count(attestations: Option<&LuminateAttestationList>) -> (count: usize)
    ensures
        count == match attestations { Some(l) => l.0@.len(), None => 0 },
{
    match attestations {
        Some(list) => list.0.len(),
        None => 0,
    }
}

/// Borrowed attestation at `index`, or null when out of range.
pub fn luminate_attestation_list_at(attestations: Option<&LuminateAttestationList>, index: usize) -> (record: Option<&LuminateAttestation>)
    ensures
        match attestations {
            Some(l) => if index < l.0@.len() { record == Some(&l.0@[index as int]) } else { record is None },
            None => record is None,
        },
{
    match attestations {
        Some(list) => if index < list.0.len() { Some(&list.0[index]) } else { None },
        None => None,
    }
}

pub fn luminate_attestation_name(attestation: Option<&LuminateAttestation>) -> (view: Option<&str>)
    ensures
        opt_text(view) == match attestation { Some(a) => Some(a.name@), None => None::<Seq<char>> },
{
    match attestation {
        Some(a) => Some(attestation_name(a)),
        None => None,
    }
}

pub fn luminate_attestation_authority(attestation: Option<&LuminateAttestation>) -> (view: Option<&str>)
    ensures
        opt_text(view) == match attestation { Some(a) => Some(a.subject.spec_authority()), None => None::<Seq<char>> },
{
    match attestation {
        Some(a) => Some(a.subject.authority()),
        None => None,
    }
}

pub fn luminate_attestation_subject(attestation: Option<&LuminateAttestation>) -> (view: Option<&str>)
    ensures
        opt_text(view) == match attestation { Some(a) => Some(a.subject.spec_subject()), None => None::<Seq<char>> },
{
    match attestation {
        Some(a) => Some(a.subject.subject()),
        None => None,
    }
}

pub fn luminate_attestation_group_count(attestation: Option<&LuminateAttestation>) -> (count: usize)
    ensures
        count == match attestation { Some(a) => a.verified_groups@.len(), None => 0 },
{
    match attestation {
        Some(a) => a.verified_groups.len(),
        None => 0,
    }
}

pub fn luminate_attestation_group_at(attestation: Option<&LuminateAttestation>, index: usize) -> (view: Option<&str>)
    ensures
        opt_text(view) == match attestation { Some(a) => group_at_view(a.verified_groups@, index), None => None::<Seq<char>> },
{
    match attestation {
        Some(a) => group_at(&a.verified_groups, index),
        None => None,
    }
}

pub fn luminate_attestation_credential_id(attestation: Option<&LuminateAttestation>) -> (view: Option<&str>)
    ensures
        opt_text(view) == match attestation { Some(a) => Some(a.credential_id@), None => None::<Seq<char>> },
{
    match attestation {
        Some(a) => Some(a.credential_id.as_str()),
        None => None,
    }
}

pub fn luminate_attestation_expires_at_unix_ms(attestation: Option<&LuminateAttestation>, out_expiry: Option<&mut u64>) -> (written: bool)
    requires
        attestation matches Some(a) ==> expiry_valid(a.expires_at),
    ensures
        written == (attestation is Some && out_expiry is Some && expiry_millis(attestation->0.expires_at) is Some),
        out_expiry matches Some(r) ==> (if written { *final(r) == expiry_millis(attestation->0.expires_at)->0 } else { *final(r) == *r }),
{
    match attestation {
        None => false,
        Some(a) => write_expiry(optional_unix_ms(a.expires_at), out_expiry),
    }
}

} // verus!

verus! {

/// Outcome of reading a principal from C strings: string errors first, then
/// the principal's own validation.
pub open spec fn principal_outcome(authority: Option<Seq<u8>>, subject: Option<Seq<u8>>) -> Result<(Seq<char>, Seq<char>), LuminateStatus> {
    match required_str_outcome(authority) {
        Err(status) => Err(status),
        Ok(a) => match required_str_outcome(subject) {
            Err(status) => Err(status),
            Ok(s) => if a.len() == 0 || s.len() == 0 {
                Err(LuminateStatus::InvalidArgument)
            } else {
                Ok((a, s))
            },
        },
    }
}

fn read_principal(authority: Option<&[u8]>, subject: Option<&[u8]>) -> (result: Result<PrincipalId, LuminateStatus>)
    ensures
        match result {
            Ok(p) => principal_outcome(arg_bytes(authority), arg_bytes(subject))
                == Ok::<(Seq<char>, Seq<char>), LuminateStatus>((p.spec_authority(), p.spec_subject())),
            Err(status) => principal_outcome(arg_bytes(authority), arg_bytes(subject))
                == Err::<(Seq<char>, Seq<char>), LuminateStatus>(status),
        },
{
    let authority = read_owned_str(authority)?;
    let subject = read_owned_str(subject)?;
    PrincipalId::from_strings(authority, subject)
}

/// A validated request to create an attestation.
pub struct AttestationRequest {
    pub name: String,
    pub subject: PrincipalId,
    pub verified_groups: Vec<String>,
    pub expires_at: Option<UnixTime>,
}

/// The plain contents of an attestation request.
pub struct AttestationRequestView {
    pub name: Seq<char>,
    pub authority: Seq<char>,
    pub subject: Seq<char>,
    pub verified_groups: Seq<Seq<char>>,
    pub expires_at: Option<UnixTime>,
}

impl AttestationRequest {
    pub open spec fn view(&self) -> AttestationRequestView {
        AttestationRequestView {
            name: self.name@,
            authority: self.subject.spec_authority(),
            subject: self.subject.spec_subject(),
            verified_groups: strings_view(self.verified_groups@),
            expires_at: self.expires_at,
        }
    }
}

/// Decision for `luminate_client_create_principal_attestation`: null client
/// and null output are rejected first, then the name, authority and subject
/// strings, the principal, the verified groups and finally the expiry.
pub open spec fn attestation_request_outcome(
    client_present: bool,
    out_present: bool,
    name: Option<Seq<u8>>,
    authority: Option<Seq<u8>>,
    subject: Option<Seq<u8>>,
    groups: Option<Seq<Option<Seq<u8>>>>,
    group_count: nat,
    has_expiry: bool,
    expires_at_unix_ms: u64,
) -> Result<AttestationRequestView, LuminateStatus> {
    if !client_present || !out_present {
        Err(LuminateStatus::NullPointer)
    } else {
        match required_str_outcome(name) {
            Err(status) => Err(status),
            Ok(n) => match principal_outcome(authority, subject) {
                Err(status) => Err(status),
                Ok((a, s)) => match str_array_outcome(groups, group_count) {
                    Err(status) => Err(status),
                    Ok(g) => match optional_expiry_outcome(has_expiry, expires_at_unix_ms) {
                        Err(status) => Err(status),
                        Ok(expires_at) => Ok(AttestationRequestView {
                            name: n,
                            authority: a,
                            subject: s,
                            verified_groups: g,
                            expires_at,
                        }),
                    },
                },
            },
        }
    }
}

/// Validates and deep-copies every input of a principal attestation request
/// before it is dispatched to the daemon.
pub fn create_principal_attestation_request(
    client_present: bool,
    out_present: bool,
    name: Option<&[u8]>,
    authority: Option<&[u8]>,
    subject: Option<&[u8]>,
    verified_groups: Option<&[Option<&[u8]>]>,
    verified_group_count: usize,
    has_expiry: bool,
    expires_at_unix_ms: u64,
) -> (result: Result<AttestationRequest, LuminateStatus>)
    requires
        verified_groups matches Some(items) ==> items@.len() == verified_group_count,
    ensures
        match result {
            Ok(request) => attestation_request_outcome(client_present, out_present, arg_bytes(name),
                arg_bytes(authority), arg_bytes(subject), array_arg(verified_groups), verified_group_count as nat,
                has_expiry, expires_at_unix_ms) == Ok::<AttestationRequestView, LuminateStatus>(request.view()),
            Err(status) => attestation_request_outcome(client_present, out_present, arg_bytes(name),
                arg_bytes(authority), arg_bytes(subject), array_arg(verified_groups), verified_group_count as nat,
                has_expiry, expires_at_unix_ms) == Err::<AttestationRequestView, LuminateStatus>(status),
        },
{
    if !client_present || !out_present {
        return Err(LuminateStatus::NullPointer);
    }
    let name = read_owned_str(name)?;
    let subject = read_principal(authority, subject)?;
    let verified_groups = read_str_array(verified_groups, verified_group_count)?;
    let expires_at = optional_expiry(has_expiry, expires_at_unix_ms)?;
    Ok(AttestationRequest { name, subject, verified_groups, expires_at })
}

/// `luminate_client_create_attestation`: an identity-only attestation, that
/// is a principal attestation without verified groups.
pub fn create_attestation_request(
    client_present: bool,
    out_present: bool,
    name: Option<&[u8]>,
    authority: Option<&[u8]>,
    subject: Option<&[u8]>,
    has_expiry: bool,
    expires_at_unix_ms: u64,
) -> (result: Result<AttestationRequest, LuminateStatus>)
    ensures
        match result {
            Ok(request) => attestation_request_outcome(client_present, out_present, arg_bytes(name),
                arg_bytes(authority), arg_bytes(subject), None, 0, has_expiry, expires_at_unix_ms)
                == Ok::<AttestationRequestView, LuminateStatus>(request.view()),
            Err(status) => attestation_request_outcome(client_present, out_present, arg_bytes(name),
                arg_bytes(authority), arg_bytes(subject), None, 0, has_expiry, expires_at_unix_ms)
                == Err::<AttestationRequestView, LuminateStatus>(status),
        },
{
    create_principal_attestation_request(client_present, out_present, name, authority, subject, None, 0,
        has_expiry, expires_at_unix_ms)
}

/// A validated request to create a bearer token.
pub struct TokenRequest {
    pub id: String,
    pub subject: PrincipalId,
    pub expires_at: Option<UnixTime>,
}

/// Decision for `luminate_client_create_token`: client, output, token ID,
/// principal, expiry.
pub open spec fn token_request_outcome(
    client_present: bool,
    out_present: bool,
    id: Option<Seq<u8>>,
    authority: Option<Seq<u8>>,
    subject: Option<Seq<u8>>,
    has_expiry: bool,
    expires_at_unix_ms: u64,
) -> Result<(Seq<char>, Seq<char>, Seq<char>, Option<UnixTime>), LuminateStatus> {
    if !client_present || !out_present {
        Err(LuminateStatus::NullPointer)
    } else {
        match required_str_outcome(id) {
            Err(status) => Err(status),
            Ok(i) => match principal_outcome(authority, subject) {
                Err(status) => Err(status),
                Ok((a, s)) => match optional_expiry_outcome(has_expiry, expires_at_unix_ms) {
                    Err(status) => Err(status),
                    Ok(expires_at) => Ok((i, a, s, expires_at)),
                },
            },
        }
    }
}

/// Validates and copies the inputs of a token-creation request.
pub fn create_token_request(
    client_present: bool,
    out_present: bool,
    id: Option<&[u8]>,
    authority: Option<&[u8]>,
    subject: Option<&[u8]>,
    has_expiry: bool,
    expires_at_unix_ms: u64,
) -> (result: Result<TokenRequest, LuminateStatus>)
    ensures
        match result {
            Ok(r) => token_request_outcome(client_present, out_present, arg_bytes(id), arg_bytes(authority),
                arg_bytes(subject), has_expiry, expires_at_unix_ms)
                == Ok::<(Seq<char>, Seq<char>, Seq<char>, Option<UnixTime>), LuminateStatus>(
                    (r.id@, r.subject.spec_authority(), r.subject.spec_subject(), r.expires_at)),
            Err(status) => token_request_outcome(client_present, out_present, arg_bytes(id), arg_bytes(authority),
                arg_bytes(subject), has_expiry, expires_at_unix_ms)
                == Err::<(Seq<char>, Seq<char>, Seq<char>, Option<UnixTime>), LuminateStatus>(status),
        },
{
    if !client_present || !out_present {
        return Err(LuminateStatus::NullPointer);
    }
    let id = read_owned_str(id)?;
    let subject = read_principal(authority, subject)?;
    let expires_at = optional_expiry(has_expiry, expires_at_unix_ms)?;
    Ok(TokenRequest { id, subject, expires_at })
}

/// Decision for `luminate_client_rotate_token`: client, output, token ID,
/// expiry.
pub open spec fn rotate_request_outcome(
    client_present: bool,
    out_present: bool,
    id: Option<Seq<u8>>,
    has_expiry: bool,
    expires_at_unix_ms: u64,
) -> Result<(Seq<char>, Option<UnixTime>), LuminateStatus> {
    if !client_present || !out_present {
        Err(LuminateStatus::NullPointer)
    } else {
        match required_str_outcome(id) {
            Err(status) => Err(status),
            Ok(i) => match optional_expiry_outcome(has_expiry, expires_at_unix_ms) {
                Err(status) => Err(status),
                Ok(expires_at) => Ok((i, expires_at)),
            },
        }
    }
}

/// Validates the inputs of a token rotation; returns the token ID and the
/// replacement's expiry.
pub fn rotate_token_request(
    client_present: bool,
    out_present: bool,
    id: Option<&[u8]>,
    has_expiry: bool,
    expires_at_unix_ms: u64,
) -> (result: Result<(String, Option<UnixTime>), LuminateStatus>)
    ensures
        match result {
            Ok((i, e)) => rotate_request_outcome(client_present, out_present, arg_bytes(id), has_expiry,
                expires_at_unix_ms) == Ok::<(Seq<char>, Option<UnixTime>), LuminateStatus>((i@, e)),
            Err(status) => rotate_request_outcome(client_present, out_present, arg_bytes(id), has_expiry,
                expires_at_unix_ms) == Err::<(Seq<char>, Option<UnixTime>), LuminateStatus>(status),
        },
{
    if !client_present || !out_present {
        return Err(LuminateStatus::NullPointer);
    }
    let id = read_owned_str(id)?;
    let expires_at = optional_expiry(has_expiry, expires_at_unix_ms)?;
    Ok((id, expires_at))
}

/// Decision for operations that take a client and one required name (revoke
/// a token or an attestation): a null client first, then the name string.
pub open spec fn named_request_outcome(client_present: bool, name: Option<Seq<u8>>) -> Result<Seq<char>, LuminateStatus> {
    if !client_present {
        Err(LuminateStatus::NullPointer)
    } else {
        required_str_outcome(name)
    }
}

/// Validates the inputs of `luminate_client_revoke_token` and
/// `luminate_client_revoke_attestation`.
pub fn revoke_request(client_present: bool, name: Option<&[u8]>) -> (result: Result<String, LuminateStatus>)
    ensures
        match result {
            Ok(n) => named_request_outcome(client_present, arg_bytes(name)) == Ok::<Seq<char>, LuminateStatus>(n@),
            Err(status) => named_request_outcome(client_present, arg_bytes(name)) == Err::<Seq<char>, LuminateStatus>(status),
        },
{
    if !client_present {
        return Err(LuminateStatus::NullPointer);
    }
    read_owned_str(name)
}

/// Validates the pointers of a list request (tokens, attestations, access
/// policy): the client, then the output.
pub fn list_request(client_present: bool, out_present: bool) -> (result: Result<(), LuminateStatus>)
    ensures
        result is Ok <==> client_present && out_present,
        result is Err ==> result == Err::<(), LuminateStatus>(LuminateStatus::NullPointer),
{
    if !client_present || !out_present {
        Err(LuminateStatus::NullPointer)
    } else {
        Ok(())
    }
}

/// The status a completed daemon call reports: success keeps the value, a
/// failure reports the status of its error category and records the error.
pub fn complete_call<T>(reply: Result<T, Error>, diagnostics: &mut Diagnostics) -> (result: Result<T, LuminateStatus>)
    ensures
        match reply {
            Ok(value) => result == Ok::<T, LuminateStatus>(value) && *final(diagnostics) == *old(diagnostics),
            Err(error) => result == Err::<T, LuminateStatus>(error_status(error))
                && final(diagnostics).last == Some(LastError::Failure(error)),
        },
{
    match reply {
        Ok(value) => Ok(value),
        Err(error) => Err(diagnostics.record_error(error)),
    }
}

/// Releases a daemon token list. Null is a no-op.
pub fn luminate_token_list_free(value: Option<Box<LuminateTokenList>>) {
    crate::policy::drop_value(value);
}

/// Releases an attestation list. Null is a no-op.
pub fn luminate_attestation_list_free(value: Option<Box<LuminateAttestationList>>) {
    crate::policy::drop_value(value);
}

/// Releases a display-once created token, overwriting its secret's bytes
/// with zeros first. Null is a no-op.
pub fn luminate_created_token_free(value: Option<Box<LuminateCreatedToken>>) {
    if let Some(mut token) = value {
        token.secret.erase();
    }
}

/// Releases a display-once created attestation, overwriting its secret's
/// bytes with zeros first. Null is a no-op.
pub fn luminate_created_attestation_free(value: Option<Box<LuminateCreatedAttestation>>) {
    if let Some(mut attestation) = value {
        attestation.secret.erase();
    }
}

} // verus!
