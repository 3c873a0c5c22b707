//! What the dashboard pages decide before anything is drawn: which body the
//! runner dashboard shows for a listing, and which routes the workspace
//! pages register.

use crate::error::ErrorType;
use vstd::prelude::*;

verus! {

/// What the runner dashboard shows below its head.
#[derive(Debug, Clone, PartialEq, Eq)]
pub enum DashboardBody {
    /// The listing has not arrived: a placeholder card.
    Skeleton,
    /// The listing failed: nothing.
    Nothing,
    /// One card per runner, in the order of the listing.
    Cards(Vec<u128>),
}

/// One page route.
#[derive(Debug, Clone, PartialEq, Eq)]
pub struct AppRoute {
    pub path: String,
    pub requires_login: bool,
}

/// The body of the runner dashboard for what the listing of runners has
/// given so far: a placeholder while it is awaited, nothing where it
/// failed, and otherwise a card for each runner, keyed by its id, in the
/// order listed.
#[allow(non_snake_case)]
pub fn RunnerDashboard(listing: Option<Result<Vec<u128>, ErrorType>>) -> (body: DashboardBody)
    ensures
        body == match listing {
            None => DashboardBody::Skeleton,
            Some(Err(_)) => DashboardBody::Nothing,
            Some(Ok(runners)) => DashboardBody::Cards(runners),
        },
{
    match listing {
        None => DashboardBody::Skeleton,
        Some(Err(_)) => DashboardBody::Nothing,
        Some(Ok(runners)) => DashboardBody::Cards(runners),
    }
}

/// The routes of the workspace pages: the page that creates a workspace,
/// which asks for a login.
#[allow(non_snake_case)]
pub fn WorkspaceRoutes() -> (routes: Vec<AppRoute>)
    ensures
        routes@.len() == 1,
        routes@[0].path@ == "/workspace/create"@,
        routes@[0].requires_login,
{
    let mut routes: Vec<AppRoute> = Vec::new();
    routes.push(AppRoute { path: "/workspace/create".to_string(), requires_login: true });
    routes
}

} // verus!
