//! What an installation settles once for every request.

use vstd::prelude::*;

verus! {

/// The seconds by which a revocation marker outlives the snapshots that it
/// may have to revoke.
pub const REVOCATION_MARGIN_SECONDS: u64 = 300;

/// The settings of authentication.
#[derive(Debug, Clone, PartialEq, Eq)]
pub struct AuthConfig {
    /// The issuer that a session token must name.
    pub jwt_issuer: String,
    /// The audience that a session token must list.
    pub jwt_audience: String,
    /// How long after its issue a session token is taken, in nanoseconds.
    pub session_validity: i128,
    /// How long a cached snapshot of grants is kept, in seconds.
    pub cached_permissions_validity: u64,
    /// The server-wide secret that enters every hash of an API token's secret.
    pub password_pepper: String,
}

impl AuthConfig {
    /// Whether a marker's time to live can be counted: the validity of a
    /// snapshot and the margin together fit in 64 bits.
    pub open spec fn wf(&self) -> bool {
        self.cached_permissions_validity + REVOCATION_MARGIN_SECONDS <= u64::MAX
    }

    /// Whether a marker's time to live can be counted.
    pub fn is_wf(&self) -> (ok: bool)
        ensures
            ok == self.wf(),
    {
        self.cached_permissions_validity <= u64::MAX - REVOCATION_MARGIN_SECONDS
    }

    /// The seconds for which a snapshot is stored.
    pub fn snapshot_ttl(&self) -> (seconds: u64)
        ensures
            seconds == self.cached_permissions_validity,
    {
        self.cached_permissions_validity
    }

    /// The seconds for which a revocation marker is stored: longer than any
    /// snapshot made before it can live.
    pub fn marker_ttl(&self) -> (seconds: u64)
        requires
            self.wf(),
        ensures
            seconds == self.cached_permissions_validity + REVOCATION_MARGIN_SECONDS,
            seconds > self.cached_permissions_validity,
    {
        self.cached_permissions_validity + REVOCATION_MARGIN_SECONDS
    }
}

/// A marker outlives every snapshot that it may have to revoke: a snapshot
/// stored no later than the marker expires before the marker does, with
/// the margin to spare.
pub proof fn lemma_marker_outlives_older_snapshots(
    config: AuthConfig,
    stored_at: int,
    marked_at: int,
)
    requires
        config.wf(),
        stored_at <= marked_at,
    ensures
        stored_at + config.cached_permissions_validity + REVOCATION_MARGIN_SECONDS <= marked_at
            + (config.cached_permissions_validity + REVOCATION_MARGIN_SECONDS),
{
}

} // verus!
