//! Client connection configuration: the client builder (socket path,
//! authentication method, requested scope) and the session-scope builder
//! whose grants restrict what an authenticated session may do.
//!
//! Opening the connection itself is I/O and is performed by the caller with
//! the configuration validated here.

use vstd::prelude::*;

use crate::input::{arg_bytes, read_owned_str, required_str_outcome};
use crate::policy::{
    codes_arg, codes_of, constraints_outcome, operation_code, operation_from_u32, operations_outcome,
    read_operations, read_resource_constraints, ConstraintsView, LuminateResourceConstraintsInput,
    Operation, OperationSet, ResourceConstraints, OPERATION_COUNT,
};
use crate::status::LuminateStatus;

verus! {

/// How the client authenticates to the daemon.
pub enum Authentication {
    /// Operating-system peer credentials.
    Peer,
    /// A daemon bearer token.
    Bearer { credential: Vec<u8> },
    /// A named actor-bound attestation.
    Attestation { name: String, credential: Vec<u8> },
    /// A credential issued by a named external identity source.
    External { source: String, credential: Vec<u8> },
}

/// One grant of a session scope: operations, optionally restricted to
/// constrained resources.
pub struct ScopeGrant {
    pub operations: OperationSet,
    pub resources: Option<ResourceConstraints>,
}

/// A mutable session-scope builder.
pub struct LuminateSessionScopeBuilder {
    pub grants: Vec<ScopeGrant>,
}

/// A mutable client builder.
pub struct LuminateClientBuilder {
    pub path: Option<String>,
    pub authentication: Authentication,
    pub scope_operations: Vec<Operation>,
    pub scope: Option<Vec<ScopeGrant>>,
}

/// Creates a client builder with the default socket path and peer
/// authentication, writing it through `out`.
pub fn luminate_client_builder_new(out: Option<&mut Option<LuminateClientBuilder>>) -> (status: LuminateStatus)
    ensures
        out is None ==> status == LuminateStatus::NullPointer,
        out matches Some(o) ==> status == LuminateStatus::Success && (*final(o) matches Some(b)
            && b.path is None && b.authentication is Peer && b.scope_operations@.len() == 0 && b.scope is None),
{
    match out {
        None => LuminateStatus::NullPointer,
        Some(o) => {
            *o = Some(LuminateClientBuilder {
                path: None,
                authentication: Authentication::Peer,
                scope_operations: Vec::new(),
                scope: None,
            });
            LuminateStatus::Success
        },
    }
}

/// Sets an explicit daemon socket path.
pub fn luminate_client_builder_set_path(builder: Option<&mut LuminateClientBuilder>, path: Option<&[u8]>) -> (status: LuminateStatus)
    ensures
        builder is None ==> status == LuminateStatus::NullPointer,
        builder matches Some(b) ==> match required_str_outcome(arg_bytes(path)) {
            Ok(p) => status == LuminateStatus::Success && (final(b).path matches Some(q) && q@ == p)
                && final(b).authentication == b.authentication && final(b).scope_operations == b.scope_operations,
            Err(s) => status == s && *final(b) == *b,
        },
{
    let b = match builder {
        None => return LuminateStatus::NullPointer,
        Some(b) => b,
    };
    match read_owned_str(path) {
        Ok(p) => {
            b.path = Some(p);
            LuminateStatus::Success
        },
        Err(status) => status,
    }
}

/// Copies a credential byte buffer; a null buffer is rejected.
fn read_credential(credential: Option<&[u8]>) -> (result: Result<Vec<u8>, LuminateStatus>)
    ensures
        match credential {
            None => result == Err::<Vec<u8>, LuminateStatus>(LuminateStatus::NullPointer),
            Some(bytes) => result matches Ok(v) && v@ == bytes@,
        },
{
    match credential {
        None => Err(LuminateStatus::NullPointer),
        Some(bytes) => {
            let mut copy: Vec<u8> = Vec::new();
            let mut i: usize = 0;
            while i < bytes.len()
                invariant
                    0 <= i <= bytes@.len(),
                    copy@ == bytes@.take(i as int),
                decreases bytes@.len() - i,
            {
                copy.push(bytes[i]);
                assert(copy@ =~= bytes@.take(i + 1));
                i = i + 1;
            }
            assert(bytes@.take(i as int) =~= bytes@);
            Ok(copy)
        },
    }
}

/// Selects bearer-token authentication with a copy of `credential`.
pub fn luminate_client_builder_authenticate_bearer(builder: Option<&mut LuminateClientBuilder>, credential: Option<&[u8]>) -> (status: LuminateStatus)
    ensures
        builder is None ==> status == LuminateStatus::NullPointer,
        builder matches Some(b) ==> match credential {
            None => status == LuminateStatus::NullPointer && *final(b) == *b,
            Some(c) => status == LuminateStatus::Success
                && (final(b).authentication matches Authentication::Bearer { credential: v } && v@ == c@),
        },
{
    let b = match builder {
        None => return LuminateStatus::NullPointer,
        Some(b) => b,
    };
    match read_credential(credential) {
        Ok(credential) => {
            b.authentication = Authentication::Bearer { credential };
            LuminateStatus::Success
        },
        Err(status) => status,
    }
}

/// Outcome of reading a named credential: the name string first, then the
/// credential buffer.
pub open spec fn named_credential_outcome(name: Option<Seq<u8>>, credential: Option<Seq<u8>>) -> Result<(Seq<char>, Seq<u8>), LuminateStatus> {
    match required_str_outcome(name) {
        Err(s) => Err(s),
        Ok(n) => match credential {
            None => Err(LuminateStatus::NullPointer),
            Some(c) => Ok((n, c)),
        },
    }
}

/// The view of an optional byte buffer.
pub open spec fn bytes_arg(value: Option<&[u8]>) -> Option<Seq<u8>> {
    match value {
        Some(b) => Some(b@),
        None => None,
    }
}

fn read_named_credential(name: Option<&[u8]>, credential: Option<&[u8]>) -> (result: Result<(String, Vec<u8>), LuminateStatus>)
    ensures
        match result {
            Ok((n, c)) => named_credential_outcome(arg_bytes(name), bytes_arg(credential)) == Ok::<(Seq<char>, Seq<u8>), LuminateStatus>((n@, c@)),
            Err(s) => named_credential_outcome(arg_bytes(name), bytes_arg(credential)) == Err::<(Seq<char>, Seq<u8>), LuminateStatus>(s),
        },
{
    let name = read_owned_str(name)?;
    let credential = read_credential(credential)?;
    Ok((name, credential))
}

/// Selects attestation authentication with a named attestation secret.
pub fn luminate_client_builder_authenticate_attestation(builder: Option<&mut LuminateClientBuilder>, name: Option<&[u8]>, credential: Option<&[u8]>) -> (status: LuminateStatus)
    ensures
        builder is None ==> status == LuminateStatus::NullPointer,
        builder matches Some(b) ==> match named_credential_outcome(arg_bytes(name), bytes_arg(credential)) {
            Ok((n, c)) => status == LuminateStatus::Success
                && (final(b).authentication matches Authentication::Attestation { name: fname, credential: fc } && fname@ == n && fc@ == c),
            Err(s) => status == s && *final(b) == *b,
        },
{
    let b = match builder {
        None => return LuminateStatus::NullPointer,
        Some(b) => b,
    };
    match read_named_credential(name, credential) {
        Ok((name, credential)) => {
            b.authentication = Authentication::Attestation { name, credential };
            LuminateStatus::Success
        },
        Err(status) => status,
    }
}

/// Selects authentication by an external identity source.
pub fn luminate_client_builder_authenticate_external(builder: Option<&mut LuminateClientBuilder>, source: Option<&[u8]>, credential: Option<&[u8]>) -> (status: LuminateStatus)
    ensures
        builder is None ==> status == LuminateStatus::NullPointer,
        builder matches Some(b) ==> match named_credential_outcome(arg_bytes(source), bytes_arg(credential)) {
            Ok((n, c)) => status == LuminateStatus::Success
                && (final(b).authentication matches Authentication::External { source: fname, credential: fc } && fname@ == n && fc@ == c),
            Err(s) => status == s && *final(b) == *b,
        },
{
    let b = match builder {
        None => return LuminateStatus::NullPointer,
        Some(b) => b,
    };
    match read_named_credential(source, credential) {
        Ok((source, credential)) => {
            b.authentication = Authentication::External { source, credential };
            LuminateStatus::Success
        },
        Err(status) => status,
    }
}

/// Selects operating-system peer authentication.
pub fn luminate_client_builder_authenticate_peer(builder: Option<&mut LuminateClientBuilder>) -> (status: LuminateStatus)
    ensures
        builder is None ==> status == LuminateStatus::NullPointer,
        builder matches Some(b) ==> status == LuminateStatus::Success && final(b).authentication is Peer,
{
    match builder {
        None => LuminateStatus::NullPointer,
        Some(b) => {
            b.authentication = Authentication::Peer;
            LuminateStatus::Success
        },
    }
}

/// Requests one more operation for the session; an unknown code is
/// `InvalidArgument`.
pub fn luminate_client_builder_add_scope_operation(builder: Option<&mut LuminateClientBuilder>, operation: u32) -> (status: LuminateStatus)
    ensures
        builder is None ==> status == LuminateStatus::NullPointer,
        builder matches Some(b) ==> if operation < OPERATION_COUNT {
            status == LuminateStatus::Success
                && codes_of(final(b).scope_operations@) == codes_of(b.scope_operations@).push(operation)
        } else {
            status == LuminateStatus::InvalidArgument && *final(b) == *b
        },
{
    let b = match builder {
        None => return LuminateStatus::NullPointer,
        Some(b) => b,
    };
    match operation_from_u32(operation) {
        Ok(op) => {
            let ghost before = b.scope_operations@;
            b.scope_operations.push(op);
            assert(codes_of(b.scope_operations@) =~= codes_of(before).push(operation));
            LuminateStatus::Success
        },
        Err(status) => status,
    }
}

/// Creates an empty session-scope builder, writing it through `out`.
pub fn luminate_session_scope_builder_new(out: Option<&mut Option<LuminateSessionScopeBuilder>>) -> (status: LuminateStatus)
    ensures
        out is None ==> status == LuminateStatus::NullPointer,
        out matches Some(o) ==> status == LuminateStatus::Success && (*final(o) matches Some(s) && s.grants@.len() == 0),
{
    match out {
        None => LuminateStatus::NullPointer,
        Some(o) => {
            *o = Some(LuminateSessionScopeBuilder { grants: Vec::new() });
            LuminateStatus::Success
        },
    }
}

/// Outcome of reading a grant's operations: at least one operation is
/// required, then the codes are decoded.
pub open spec fn grant_operations_outcome(operations: Option<Seq<u32>>, count: nat) -> Result<Set<u32>, LuminateStatus> {
    if count == 0 {
        Err(LuminateStatus::InvalidArgument)
    } else {
        operations_outcome(operations, count)
    }
}

/// The operation codes of a grant.
pub open spec fn grant_codes(grant: ScopeGrant) -> Set<u32> {
    codes_of(grant.operations.spec_members()).to_set()
}

/// Adds an unconstrained grant of the given operations.
pub fn luminate_session_scope_builder_add_grant(scope: Option<&mut LuminateSessionScopeBuilder>, operations: Option<&[u32]>, count: usize) -> (status: LuminateStatus)
    requires
        operations matches Some(v) ==> v@.len() == count,
    ensures
        scope is None ==> status == LuminateStatus::NullPointer,
        scope matches Some(s) ==> match grant_operations_outcome(codes_arg(operations), count as nat) {
            Ok(codes) => status == LuminateStatus::Success
                && final(s).grants@.len() == s.grants@.len() + 1
                && final(s).grants@.take(s.grants@.len() as int) == s.grants@
                && grant_codes(final(s).grants@.last()) == codes
                && final(s).grants@.last().resources is None,
            Err(e) => status == e && *final(s) == *s,
        },
{
    let s = match scope {
        None => return LuminateStatus::NullPointer,
        Some(s) => s,
    };
    if count == 0 {
        return LuminateStatus::InvalidArgument;
    }
    match read_operations(operations, count) {
        Ok(ops) => {
            let ghost before = s.grants@;
            s.grants.push(ScopeGrant { operations: ops, resources: None });
            assert(s.grants@.take(before.len() as int) =~= before);
            LuminateStatus::Success
        },
        Err(status) => status,
    }
}

/// Adds a grant of the given operations restricted to constrained resources.
pub fn luminate_session_scope_builder_add_constrained_grant(
    scope: Option<&mut LuminateSessionScopeBuilder>,
    operations: Option<&[u32]>,
    count: usize,
    resources: Option<&LuminateResourceConstraintsInput>,
) -> (status: LuminateStatus)
    requires
        operations matches Some(v) ==> v@.len() == count,
        resources matches Some(r) ==> r.wf(),
    ensures
        scope is None ==> status == LuminateStatus::NullPointer,
        scope matches Some(s) ==> match grant_operations_outcome(codes_arg(operations), count as nat) {
            Err(e) => status == e && *final(s) == *s,
            Ok(codes) => match resources {
                None => status == LuminateStatus::NullPointer && *final(s) == *s,
                Some(r) => match constraints_outcome(*r) {
                    Err(e) => status == e && *final(s) == *s,
                    Ok(c) => status == LuminateStatus::Success
                        && final(s).grants@.len() == s.grants@.len() + 1
                        && final(s).grants@.take(s.grants@.len() as int) == s.grants@
                        && grant_codes(final(s).grants@.last()) == codes
                        && (final(s).grants@.last().resources matches Some(fr) && fr.view() == c),
                },
            },
        },
{
    let s = match scope {
        None => return LuminateStatus::NullPointer,
        Some(s) => s,
    };
    if count == 0 {
        return LuminateStatus::InvalidArgument;
    }
    let ops = match read_operations(operations, count) {
        Ok(ops) => ops,
        Err(status) => return status,
    };
    let input = match resources {
        None => return LuminateStatus::NullPointer,
        Some(r) => r,
    };
    let constraints = match read_resource_constraints(input) {
        Ok(c) => c,
        Err(status) => return status,
    };
    let ghost before = s.grants@;
    s.grants.push(ScopeGrant { operations: ops, resources: Some(constraints) });
    assert(s.grants@.take(before.len() as int) =~= before);
    LuminateStatus::Success
}

fn duplicate_grant(grant: &ScopeGrant) -> (copy: ScopeGrant)
    ensures
        copy.operations.spec_members() == grant.operations.spec_members(),
        match (copy.resources, grant.resources) {
            (Some(a), Some(b)) => a.view() == b.view(),
            (None, None) => true,
            _ => false,
        },
{
    let resources = match &grant.resources {
        Some(r) => Some(ResourceConstraints {
            device_ids: r.device_ids.duplicate(),
            provider_instances: r.provider_instances.duplicate(),
            host_attached: r.host_attached,
            collections: r.collections.duplicate(),
        }),
        None => None,
    };
    ScopeGrant { operations: grant.operations.duplicate(), resources }
}

/// Two grant lists with the same contents.
pub open spec fn same_grants(a: Seq<ScopeGrant>, b: Seq<ScopeGrant>) -> bool {
    &&& a.len() == b.len()
    &&& forall|i: int| 0 <= i < a.len() ==> grant_codes(#[trigger] a[i]) == grant_codes(b[i])
        && match (a[i].resources, b[i].resources) {
            (Some(x), Some(y)) => x.view() == y.view(),
            (None, None) => true,
            _ => false,
        }
}

/// Copies a session scope into the builder's configuration.
pub fn luminate_client_builder_set_scope(builder: Option<&mut LuminateClientBuilder>, scope: Option<&LuminateSessionScopeBuilder>) -> (status: LuminateStatus)
    ensures
        builder is None ==> status == LuminateStatus::NullPointer,
        builder matches Some(b) ==> match scope {
            None => status == LuminateStatus::NullPointer && *final(b) == *b,
            Some(s) => status == LuminateStatus::Success && (final(b).scope matches Some(g) && same_grants(g@, s.grants@)),
        },
{
    let b = match builder {
        None => return LuminateStatus::NullPointer,
        Some(b) => b,
    };
    let s = match scope {
        None => return LuminateStatus::NullPointer,
        Some(s) => s,
    };
    let mut grants: Vec<ScopeGrant> = Vec::new();
    let mut i: usize = 0;
    while i < s.grants.len()
        invariant
            0 <= i <= s.grants@.len(),
            same_grants(grants@, s.grants@.take(i as int)),
        decreases s.grants@.len() - i,
    {
        let copy = duplicate_grant(&s.grants[i]);
        grants.push(copy);
        i = i + 1;
    }
    assert(s.grants@.take(i as int) =~= s.grants@);
    b.scope = Some(grants);
    LuminateStatus::Success
}

/// Validates a connection request: a non-null builder and output.
pub fn luminate_client_builder_connect(builder: Option<&LuminateClientBuilder>, out_present: bool) -> (result: Result<&LuminateClientBuilder, LuminateStatus>)
    ensures
        match builder {
            None => result == Err::<&LuminateClientBuilder, LuminateStatus>(LuminateStatus::NullPointer),
            Some(b) => if out_present { result == Ok::<&LuminateClientBuilder, LuminateStatus>(b) } else {
                result == Err::<&LuminateClientBuilder, LuminateStatus>(LuminateStatus::NullPointer)
            },
        },
{
    match builder {
        None => Err(LuminateStatus::NullPointer),
        Some(b) => if out_present { Ok(b) } else { Err(LuminateStatus::NullPointer) },
    }
}

/// Releases a client builder. Null is a no-op.
pub fn luminate_client_builder_free(builder: Option<Box<LuminateClientBuilder>>) {
}

/// Releases a session-scope builder. Null is a no-op.
pub fn luminate_session_scope_builder_free(scope: Option<Box<LuminateSessionScopeBuilder>>) {
}

} // verus!
