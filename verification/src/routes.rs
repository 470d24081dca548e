//! The table of routes: which handler answers where, and which routes stand
//! behind the guard.
use vstd::prelude::*;

verus! {

/// The request methods in use.
#[derive(Debug, Clone, Copy, PartialEq, Eq)]
pub enum Method {
    Get,
    Post,
}

/// The handlers that routes lead to.
#[derive(Debug, Clone, Copy, PartialEq, Eq)]
pub enum Handler {
    CreatePost,
    MyPosts,
    AllPosts,
    SinglePost,
}

/// One route: a method and a path pattern, the handler behind them, and
/// whether the guard stands in front.
#[derive(Debug, Clone, Copy, PartialEq, Eq)]
pub struct Route {
    pub method: Method,
    pub path: &'static str,
    pub secured: bool,
    pub handler: Handler,
}

/// The mathematical content of a [`Route`].
pub struct RouteView {
    pub method: Method,
    pub path: Seq<char>,
    pub secured: bool,
    pub handler: Handler,
}

impl View for Route {
    type V = RouteView;

    open spec fn view(&self) -> RouteView {
        RouteView {
            method: self.method,
            path: self.path@,
            secured: self.secured,
            handler: self.handler,
        }
    }
}

/// The routes of the service. Creating a post and listing one's own posts need
/// a credential; reading does not.
pub open spec fn route_table() -> Seq<RouteView> {
    seq![
        RouteView {
            method: Method::Post,
            path: "/secure/post/create"@,
            secured: true,
            handler: Handler::CreatePost,
        },
        RouteView {
            method: Method::Get,
            path: "/secure/post/my-posts"@,
            secured: true,
            handler: Handler::MyPosts,
        },
        RouteView {
            method: Method::Get,
            path: "/post/all-posts"@,
            secured: false,
            handler: Handler::AllPosts,
        },
        RouteView {
            method: Method::Get,
            path: "/post/post/{post_uuid}"@,
            secured: false,
            handler: Handler::SinglePost,
        },
    ]
}

/// The content of each route, in order.
pub open spec fn route_views(routes: Seq<Route>) -> Seq<RouteView> {
    Seq::new(routes.len(), |i: int| routes[i]@)
}

/// Lists the routes of the service.
pub fn config() -> (routes: Vec<Route>)
    ensures
        route_views(routes@) == route_table(),
{
    let mut routes: Vec<Route> = Vec::new();
    routes.push(
        Route {
            method: Method::Post,
            path: "/secure/post/create",
            secured: true,
            handler: Handler::CreatePost,
        },
    );
    routes.push(
        Route {
            method: Method::Get,
            path: "/secure/post/my-posts",
            secured: true,
            handler: Handler::MyPosts,
        },
    );
    routes.push(
        Route {
            method: Method::Get,
            path: "/post/all-posts",
            secured: false,
            handler: Handler::AllPosts,
        },
    );
    routes.push(
        Route {
            method: Method::Get,
            path: "/post/post/{post_uuid}",
            secured: false,
            handler: Handler::SinglePost,
        },
    );
    assert(route_views(routes@) =~= route_table());
    routes
}

} // verus!
