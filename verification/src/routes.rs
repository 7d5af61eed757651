//! The name server's routes and the addresses that clients send requests to.
use vstd::prelude::*;
use vstd::string::StringExecFns;

verus! {

/// The routes that the name server answers.
#[derive(Clone, Copy, Debug, PartialEq, Eq)]
pub enum Route {
    Register,
    GetKey,
    Auth,
    StartAuth,
    ChangeName,
}

/// The path of `route` on the server.
pub open spec fn route_path(route: Route) -> Seq<char> {
    match route {
        Route::Register => "/register"@,
        Route::GetKey => "/getkey"@,
        Route::Auth => "/auth"@,
        Route::StartAuth => "/start_auth"@,
        Route::ChangeName => "/change_name"@,
    }
}

impl Route {
    /// The path of this route on the server.
    pub fn path(&self) -> (p: &'static str)
        ensures
            p@ == route_path(*self),
    {
        match self {
            Route::Register => "/register",
            Route::GetKey => "/getkey",
            Route::Auth => "/auth",
            Route::StartAuth => "/start_auth",
            Route::ChangeName => "/change_name",
        }
    }
}

/// The address of `route` on the server at `base`.
pub fn route_url(base: &str, route: Route) -> (url: String)
    ensures
        url@ == base@ + route_path(route),
{
    let mut url = base.to_owned();
    url.append(route.path());
    url
}

} // verus!
