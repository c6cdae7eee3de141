//! The permission subsystem at the admission core's boundary: grants keyed by
//! (nullifier, application), revocation, and an append-only access log. Plain
//! create/update/append records; the core only supplies the nullifier the
//! grants are keyed by.

use vstd::prelude::*;
use vstd::utf8::encode_utf8;

use crate::errors::VeiledError;

verus! {

/// Most capability tags one grant may hold.
pub const MAX_PERMISSIONS: usize = 10;

/// Longest metadata a log entry may carry, in bytes.
pub const MAX_METADATA_LEN: usize = 100;

/// A capability tag an application can be granted.
#[derive(Clone, Copy, Debug, PartialEq, Eq, Structural)]
pub enum Permission {
    /// Reveal the actual wallet address.
    RevealWalletAddress,
    /// Reveal the exact balance.
    RevealExactBalance,
    /// Reveal exact token balances.
    RevealTokenBalances,
    /// Reveal the complete token collection list.
    RevealNFTList,
    /// Reveal the transaction history.
    RevealTransactionHistory,
    /// Reveal staking positions.
    RevealStakingPositions,
    /// Reveal lending and exchange positions.
    RevealDeFiPositions,
    /// Sign transactions on the user's behalf.
    SignTransactions,
}

/// What an application was granted, by whom, and until when.
pub struct PermissionGrant {
    /// The user's nullifier (anonymous identifier).
    pub nullifier: Vec<u8>,
    /// The application the grant was made to.
    pub app_id: Vec<u8>,
    /// The granted capability tags.
    pub permissions: Vec<Permission>,
    /// When the grant was made.
    pub granted_at: i64,
    /// When the grant expires.
    pub expires_at: i64,
    /// Set once the user revokes the grant.
    pub revoked: bool,
    /// Address derivation bump of the grant's storage slot.
    pub bump: u8,
}

/// One audit-log entry: a permission was actually exercised.
pub struct PermissionAccess {
    /// Key of the grant this access was made under.
    pub permission_grant: Vec<u8>,
    /// When the permission was exercised.
    pub accessed_at: i64,
    /// Which permission was exercised.
    pub permission_used: Permission,
    /// What data was accessed, at most `MAX_METADATA_LEN` bytes.
    pub metadata: String,
}

/// Notification payload for a fresh grant.
pub struct PermissionGrantedEvent {
    pub nullifier: Vec<u8>,
    pub app_id: Vec<u8>,
    pub permissions: Vec<Permission>,
    pub granted_at: i64,
    pub expires_at: i64,
}

/// Notification payload for a revocation.
pub struct PermissionRevokedEvent {
    pub nullifier: Vec<u8>,
    pub app_id: Vec<u8>,
    pub revoked_at: i64,
}

/// Notification payload for one exercised permission.
pub struct PermissionAccessedEvent {
    pub nullifier: Vec<u8>,
    pub app_id: Vec<u8>,
    pub permission: Permission,
    pub accessed_at: i64,
}

/// True when `v` holds `p`.
pub fn permissions_contain(v: &Vec<Permission>, p: Permission) -> (r: bool)
    ensures
        r == v@.contains(p),
{
    let n = v.len();
    let mut i: usize = 0;
    while i < n
        invariant
            i <= n,
            v@.len() == n,
            forall|j: int| 0 <= j < i ==> v@[j] != p,
        decreases n - i,
    {
        if v[i] == p {
            assert(v@[i as int] == p);
            return true;
        }
        i = i + 1;
    }
    assert(forall|j: int| 0 <= j < v@.len() ==> v@[j] != p);
    false
}

/// Creates a permission grant for an application, capped at
/// `MAX_PERMISSIONS` capability tags, valid for `expires_in` seconds from
/// `now`; returns the grant and its notification payload.
pub fn handle_grant_permissions(
    nullifier: Vec<u8>,
    app_id: Vec<u8>,
    permissions: Vec<Permission>,
    expires_in: i64,
    now: i64,
    bump: u8,
) -> (r: Result<(PermissionGrant, PermissionGrantedEvent), VeiledError>)
    requires
        i64::MIN <= now + expires_in <= i64::MAX,
    ensures
        r is Err <==> permissions@.len() > MAX_PERMISSIONS,
        r matches Err(e) ==> e == VeiledError::TooManyPermissions,
        r matches Ok(g) ==> ({
            &&& g.0.nullifier@ == nullifier@
            &&& g.0.app_id@ == app_id@
            &&& g.0.permissions@ == permissions@
            &&& g.0.granted_at == now
            &&& g.0.expires_at == now + expires_in
            &&& !g.0.revoked
            &&& g.0.bump == bump
            &&& g.1.nullifier@ == nullifier@
            &&& g.1.app_id@ == app_id@
            &&& g.1.permissions@ == permissions@
            &&& g.1.granted_at == now
            &&& g.1.expires_at == now + expires_in
        }),
{
    if permissions.len() > MAX_PERMISSIONS {
        return Err(VeiledError::TooManyPermissions);
    }
    let expires_at = now + expires_in;
    let event = PermissionGrantedEvent {
        nullifier: nullifier.clone(),
        app_id: app_id.clone(),
        permissions: permissions.clone(),
        granted_at: now,
        expires_at,
    };
    let grant = PermissionGrant {
        nullifier,
        app_id,
        permissions,
        granted_at: now,
        expires_at,
        revoked: false,
        bump,
    };
    Ok((grant, event))
}

/// Marks a grant revoked, touching nothing else; returns the notification
/// payload.
pub fn handle_revoke_permissions(grant: &mut PermissionGrant, now: i64) -> (ev:
    PermissionRevokedEvent)
    ensures
        final(grant).revoked,
        final(grant).nullifier@ == old(grant).nullifier@,
        final(grant).app_id@ == old(grant).app_id@,
        final(grant).permissions@ == old(grant).permissions@,
        final(grant).granted_at == old(grant).granted_at,
        final(grant).expires_at == old(grant).expires_at,
        final(grant).bump == old(grant).bump,
        ev.nullifier@ == old(grant).nullifier@,
        ev.app_id@ == old(grant).app_id@,
        ev.revoked_at == now,
{
    grant.revoked = true;
    PermissionRevokedEvent {
        nullifier: grant.nullifier.clone(),
        app_id: grant.app_id.clone(),
        revoked_at: now,
    }
}

/// Verifies that a grant is live, unexpired and covers the used permission,
/// and that the metadata is short enough; returns the audit-log entry and its
/// notification payload. The grant's storage key is supplied by the caller.
pub fn handle_log_permission_access(
    grant: &PermissionGrant,
    grant_key: Vec<u8>,
    permission_used: Permission,
    metadata: String,
    now: i64,
) -> (r: Result<(PermissionAccess, PermissionAccessedEvent), VeiledError>)
    requires
        encode_utf8(metadata@).len() <= usize::MAX,
    ensures
        grant.revoked ==> (r matches Err(e) && e == VeiledError::PermissionRevoked),
        !grant.revoked && grant.expires_at <= now ==> (r matches Err(e) && e
            == VeiledError::PermissionExpired),
        !grant.revoked && grant.expires_at > now && !grant.permissions@.contains(permission_used)
            ==> (r matches Err(e) && e == VeiledError::PermissionNotGranted),
        !grant.revoked && grant.expires_at > now && grant.permissions@.contains(permission_used)
            && encode_utf8(metadata@).len() > MAX_METADATA_LEN ==> (r matches Err(e) && e
            == VeiledError::DomainTooLong),
        r is Ok <==> (!grant.revoked && grant.expires_at > now && grant.permissions@.contains(
            permission_used,
        ) && encode_utf8(metadata@).len() <= MAX_METADATA_LEN),
        r matches Ok(a) ==> ({
            &&& a.0.permission_grant@ == grant_key@
            &&& a.0.accessed_at == now
            &&& a.0.permission_used == permission_used
            &&& a.0.metadata@ == metadata@
            &&& a.1.nullifier@ == grant.nullifier@
            &&& a.1.app_id@ == grant.app_id@
            &&& a.1.permission == permission_used
            &&& a.1.accessed_at == now
        }),
{
    if grant.revoked {
        return Err(VeiledError::PermissionRevoked);
    }
    if grant.expires_at <= now {
        return Err(VeiledError::PermissionExpired);
    }
    if !permissions_contain(&grant.permissions, permission_used) {
        return Err(VeiledError::PermissionNotGranted);
    }
    if metadata.as_str().len() > MAX_METADATA_LEN {
        return Err(VeiledError::DomainTooLong);
    }
    let event = PermissionAccessedEvent {
        nullifier: grant.nullifier.clone(),
        app_id: grant.app_id.clone(),
        permission: permission_used,
        accessed_at: now,
    };
    let access = PermissionAccess {
        permission_grant: grant_key,
        accessed_at: now,
        permission_used,
        metadata,
    };
    Ok((access, event))
}

} // verus!
