//! The session behind the views: the token (absent until a login succeeds),
//! the last vehicle list, where the start view leads, and when the vehicle
//! list is fetched.
use vstd::prelude::*;
use crate::vehicle::{CallFailed, VehicleSummary};

verus! {

/// The views of the panel.
#[derive(Clone, Debug, PartialEq, Eq)]
pub enum Route {
    Home,
    Login,
    Vehicles,
    Vehicle { id: String },
}

/// The view of an optional string, as a sequence of characters.
pub open spec fn token_view(t: Option<String>) -> Option<Seq<char>> {
    match t {
        Some(s) => Some(s@),
        None => None,
    }
}

/// Whether a token seen after `last` starts a vehicle fetch: it must be
/// present and differ from the one seen before.
pub open spec fn fetch_fires(last: Option<Seq<char>>, token: Option<Seq<char>>) -> bool {
    token is Some && token != last
}

/// How many fetches a run of observed tokens starts, from `last`.
pub open spec fn fetch_count(last: Option<Seq<char>>, tokens: Seq<Option<Seq<char>>>) -> nat
    decreases tokens.len(),
{
    if tokens.len() == 0 {
        0
    } else {
        (if fetch_fires(last, tokens[0]) {
            1nat
        } else {
            0nat
        }) + fetch_count(tokens[0], tokens.drop_first())
    }
}

/// Over the tokens none, `a`, `a`, `b` with `a` and `b` distinct, two
/// fetches start: when `a` appears and when `b` replaces it, not when `a` is
/// seen again.
pub proof fn fetch_on_change_only(a: Seq<char>, b: Seq<char>)
    requires
        a != b,
    ensures
        fetch_count(None, seq![None, Some(a), Some(a), Some(b)]) == 2,
{
    let s = seq![None, Some(a), Some(a), Some(b)];
    assert(s.drop_first() =~= seq![Some(a), Some(a), Some(b)]);
    assert(s.drop_first().drop_first() =~= seq![Some(a), Some(b)]);
    assert(s.drop_first().drop_first().drop_first() =~= seq![Some(b)]);
    assert(s.drop_first().drop_first().drop_first().drop_first() =~= Seq::<Option<Seq<char>>>::empty());
    reveal_with_fuel(fetch_count, 5);
}

/// Watches the session token and says when the vehicle list must be fetched:
/// once each time the token takes a new present value.
pub struct FetchTrigger {
    pub last: Option<String>,
}

impl FetchTrigger {
    /// A trigger that has seen no token yet.
    pub fn new() -> (t: FetchTrigger)
        ensures
            t.last is None,
    {
        FetchTrigger { last: None }
    }

    /// Sees the current token. Returns the token to fetch the vehicles with
    /// when it is present and differs from the token seen before, and `None`
    /// otherwise.
    pub fn observe(&mut self, token: &Option<String>) -> (r: Option<String>)
        ensures
            token_view(final(self).last) == token_view(*token),
            r is Some <==> fetch_fires(token_view(old(self).last), token_view(*token)),
            r is Some ==> token_view(r) == token_view(*token),
    {
        let fires = match (token, &self.last) {
            (Some(t), Some(l)) => *t != *l,
            (Some(_), None) => true,
            (None, _) => false,
        };
        self.last = token.clone();
        if fires {
            token.clone()
        } else {
            None
        }
    }
}

/// The state that the views share.
#[derive(Clone, Debug)]
pub struct Session {
    pub token: Option<String>,
    pub vehicles: Option<Vec<VehicleSummary>>,
}

impl Session {
    /// The session at startup: logged out, nothing fetched.
    pub fn new() -> (s: Session)
        ensures
            s.token is None,
            s.vehicles is None,
    {
        Session { token: None, vehicles: None }
    }

    /// Where the start view leads: to the login form when logged out, to the
    /// vehicle list otherwise.
    pub fn home_route(&self) -> (r: Route)
        ensures
            self.token is None ==> r == Route::Login,
            self.token is Some ==> r == Route::Vehicles,
    {
        match self.token {
            None => Route::Login,
            Some(_) => Route::Vehicles,
        }
    }

    /// The end of a login. On success the token is kept and the vehicle list
    /// is next; on failure nothing changes, the login form stays and the
    /// failure is handed back.
    pub fn on_login(&mut self, outcome: Result<String, CallFailed>) -> (r: Result<Route, CallFailed>)
        ensures
            match outcome {
                Ok(t) => final(self).token == Some(t) && r == Ok::<Route, CallFailed>(Route::Vehicles),
                Err(e) => final(self).token == old(self).token && r == Err::<Route, CallFailed>(e),
            },
            final(self).vehicles == old(self).vehicles,
    {
        match outcome {
            Ok(t) => {
                self.token = Some(t);
                Ok(Route::Vehicles)
            },
            Err(e) => Err(e),
        }
    }

    /// The end of a vehicle fetch: a list that came back replaces the one
    /// kept; on failure the kept list stays and the failure is handed back.
    pub fn on_vehicles(&mut self, outcome: Result<Vec<VehicleSummary>, CallFailed>) -> (r: Result<(), CallFailed>)
        ensures
            match outcome {
                Ok(v) => final(self).vehicles == Some(v) && r is Ok,
                Err(e) => final(self).vehicles == old(self).vehicles && r == Err::<(), CallFailed>(e),
            },
            final(self).token == old(self).token,
    {
        match outcome {
            Ok(v) => {
                self.vehicles = Some(v);
                Ok(())
            },
            Err(e) => Err(e),
        }
    }
}

} // verus!
