//! A whole service: the `impl` block as written, the server's route table and
//! the client's stubs.

use vstd::prelude::*;
use crate::error::{CompileError, ImplRule, ServiceError};
use crate::route::client::{ClientRoute, stub};
use crate::route::server::{ServerRoute, server_code};
use crate::route::{Route, RouteView, described};
use crate::syntax::{ImplItem, ImplItemView, ItemImpl, ItemImplView, item_views};
use crate::text::terminated;

verus! {

/// The views of a sequence of routes, one for one.
pub open spec fn route_views(routes: Seq<Route>) -> Seq<RouteView> {
    routes.map_values(|r: Route| r@)
}

/// The views of a sequence of server routes, one for one.
pub open spec fn server_route_views(routes: Seq<ServerRoute>) -> Seq<RouteView> {
    routes.map_values(|r: ServerRoute| r@)
}

/// The views of a sequence of client routes, one for one.
pub open spec fn client_route_views(routes: Seq<ClientRoute>) -> Seq<RouteView> {
    routes.map_values(|r: ClientRoute| r@)
}

/// The first rule that the header of an `impl` block breaks.
pub open spec fn impl_violation(block: ItemImplView) -> Option<ImplRule> {
    if block.defaultness {
        Some(ImplRule::DefaultImpl)
    } else if block.generics > 0 {
        Some(ImplRule::Generic)
    } else {
        None
    }
}

/// Whether the header of an `impl` block has the shape of a service: not
/// `default` and not generic.
pub fn validate_impl(parsed_impl: &ItemImpl) -> (r: Result<(), CompileError>)
    ensures
        r == match impl_violation(parsed_impl@) {
            Some(rule) => Err::<(), CompileError>(CompileError::UnsupportedImplShape(rule)),
            None => Ok(()),
        },
{
    if parsed_impl.defaultness {
        return Err(CompileError::UnsupportedImplShape(ImplRule::DefaultImpl));
    }
    if parsed_impl.generics > 0 {
        return Err(CompileError::UnsupportedImplShape(ImplRule::Generic));
    }
    Ok(())
}

/// The routes of the items of a block, in order, or the first error with the
/// index of its item: every method must describe a route, an associated type
/// is an error, any other item is passed over.
pub open spec fn routes_of(items: Seq<ImplItemView>, server_type: Seq<char>) -> Result<
    Seq<RouteView>,
    ServiceError,
>
    decreases items.len(),
{
    if items.len() == 0 {
        Ok(Seq::empty())
    } else {
        match routes_of(items.drop_last(), server_type) {
            Err(e) => Err(e),
            Ok(routes) => {
                let item = Some((items.len() - 1) as usize);
                match items.last() {
                    ImplItemView::Method(m) => match described(m, server_type) {
                        Ok(route) => Ok(routes.push(route)),
                        Err(error) => Err(ServiceError { item, error }),
                    },
                    ImplItemView::Type => Err(
                        ServiceError {
                            item,
                            error: CompileError::UnsupportedImplShape(ImplRule::AssociatedType),
                        },
                    ),
                    ImplItemView::Other => Ok(routes),
                }
            },
        }
    }
}

/// An error among the first items is the error of all items.
pub proof fn lemma_first_error_stands(items: Seq<ImplItemView>, server_type: Seq<char>, n: int)
    requires
        0 <= n <= items.len(),
        routes_of(items.take(n), server_type) is Err,
    ensures
        routes_of(items, server_type) == routes_of(items.take(n), server_type),
    decreases items.len(),
{
    if n == items.len() {
        assert(items.take(n) =~= items);
    } else {
        assert(items.drop_last().take(n) =~= items.take(n));
        lemma_first_error_stands(items.drop_last(), server_type, n);
    }
}

/// The view of the routes of a block or an error.
pub open spec fn routes_result(r: Result<Vec<Route>, ServiceError>) -> Result<
    Seq<RouteView>,
    ServiceError,
> {
    match r {
        Ok(routes) => Ok(route_views(routes@)),
        Err(e) => Err(e),
    }
}

/// Makes the route of every method of a service block.
pub fn parse_routes(parsed_impl: &ItemImpl) -> (r: Result<Vec<Route>, ServiceError>)
    ensures
        routes_result(r) == routes_of(parsed_impl@.items, parsed_impl@.self_ty),
{
    let ghost items = parsed_impl@.items;
    let ghost server = parsed_impl@.self_ty;
    let mut routes: Vec<Route> = Vec::new();
    let mut i: usize = 0;
    proof {
        assert(items.take(0) =~= Seq::<ImplItemView>::empty());
        assert(route_views(routes@) =~= Seq::<RouteView>::empty());
    }
    while i < parsed_impl.items.len()
        invariant
            i <= parsed_impl.items.len(),
            items == parsed_impl@.items,
            server == parsed_impl@.self_ty,
            routes_of(items.take(i as int), server) == Ok::<Seq<RouteView>, ServiceError>(
                route_views(routes@),
            ),
        decreases parsed_impl.items.len() - i,
    {
        proof {
            assert(items.take(i + 1).drop_last() =~= items.take(i as int));
            assert(items.take(i + 1).last() == parsed_impl.items@[i as int]@);
        }
        match &parsed_impl.items[i] {
            ImplItem::Method(method) => match Route::new(method, parsed_impl.self_ty.as_str()) {
                Ok(route) => {
                    let ghost before = routes@;
                    routes.push(route);
                    assert(route_views(routes@) =~= route_views(before).push(route@));
                },
                Err(error) => {
                    proof {
                        lemma_first_error_stands(items, server, i + 1);
                    }
                    return Err(ServiceError { item: Some(i), error });
                },
            },
            ImplItem::Type => {
                proof {
                    lemma_first_error_stands(items, server, i + 1);
                }
                return Err(
                    ServiceError {
                        item: Some(i),
                        error: CompileError::UnsupportedImplShape(ImplRule::AssociatedType),
                    },
                );
            },
            ImplItem::Other => {},
        }
        i += 1;
    }
    assert(items.take(i as int) =~= items);
    Ok(routes)
}

/// The client side of a service: the client type and the stubs to give it.
#[derive(Debug, PartialEq, Eq)]
pub struct ClientService {
    pub ty: String,
    pub routes: Vec<ClientRoute>,
}

/// The server side of a service: the service type and its routes.
#[derive(Debug, PartialEq, Eq)]
pub struct ServerService {
    pub routes: Vec<ServerRoute>,
    pub server_type: String,
}

/// A single service.
#[derive(Debug, PartialEq, Eq)]
pub struct Service {
    pub server: ServerService,
    pub client: ClientService,
    pub parsed_impl: ItemImpl,
}

/// The view of a service: both sides with their routes, and the whole block
/// that the service was made of.
pub struct ServiceView {
    pub server_type: Seq<char>,
    pub server_routes: Seq<RouteView>,
    pub client_type: Seq<char>,
    pub client_routes: Seq<RouteView>,
    pub parsed_impl: ItemImplView,
}

impl View for Service {
    type V = ServiceView;

    open spec fn view(&self) -> ServiceView {
        ServiceView {
            server_type: self.server.server_type@,
            server_routes: server_route_views(self.server.routes@),
            client_type: self.client.ty@,
            client_routes: client_route_views(self.client.routes@),
            parsed_impl: self.parsed_impl@,
        }
    }
}

/// The code of all routes, one after the other.
pub open spec fn all_code(routes: Seq<RouteView>, code: spec_fn(RouteView) -> Seq<char>) -> Seq<
    char,
> {
    terminated(routes.map_values(code), Seq::empty())
}

/// The server's route table: the one operation that registers every route
/// of the service type.
pub open spec fn mount(server_type: Seq<char>, routes: Seq<RouteView>) -> Seq<char> {
    "impl phalanx::server::PhalanxServer for "@ + server_type + " {\n"@
        + "fn mount(__config: &mut phalanx::reexports::web::ServiceConfig) {\n"@ + all_code(
        routes,
        |r: RouteView| server_code(r),
    ) + "}\n}\n"@
}

/// The client's stubs, as methods of the client type.
pub open spec fn stubs(client_type: Seq<char>, routes: Seq<RouteView>) -> Seq<char> {
    "impl "@ + client_type + " {\n"@ + all_code(routes, |r: RouteView| stub(r)) + "}\n"@
}

/// The code of a service: the block as written, then the route table, then
/// the stubs.
pub open spec fn service_code(s: ServiceView) -> Seq<char> {
    s.parsed_impl.tokens + "\n"@ + mount(s.server_type, s.server_routes) + stubs(
        s.client_type,
        s.client_routes,
    )
}

/// The service of a block and a client type, or the first error: the header
/// of the block is checked first, then its items, then the client type.
pub open spec fn serviced(client_type: Option<Seq<char>>, block: ItemImplView) -> Result<
    ServiceView,
    ServiceError,
> {
    match impl_violation(block) {
        Some(rule) => Err(
            ServiceError { item: None, error: CompileError::UnsupportedImplShape(rule) },
        ),
        None => match routes_of(block.items, block.self_ty) {
            Err(e) => Err(e),
            Ok(routes) => match client_type {
                None => Err(
                    ServiceError { item: None, error: CompileError::MissingClientTypeArgument },
                ),
                Some(ty) => Ok(
                    ServiceView {
                        server_type: block.self_ty,
                        server_routes: routes,
                        client_type: ty,
                        client_routes: routes,
                        parsed_impl: block,
                    },
                ),
            },
        },
    }
}

/// Both sides of a service are made of the same routes, in the same order;
/// these are the routes of the block's methods, and the service keeps the
/// block as it was given.
pub proof fn lemma_both_sides_share_the_routes(client_type: Option<Seq<char>>, block: ItemImplView)
    ensures
        serviced(client_type, block) matches Ok(s) ==> s.server_routes == s.client_routes
            && routes_of(block.items, block.self_ty) == Ok::<Seq<RouteView>, ServiceError>(
            s.server_routes,
        ) && s.parsed_impl == block && s.server_type == block.self_ty,
{
}

/// The code generated for a block and a client type, or the first error.
pub open spec fn generated(client_type: Option<Seq<char>>, block: ItemImplView) -> Result<
    Seq<char>,
    ServiceError,
> {
    match serviced(client_type, block) {
        Ok(s) => Ok(service_code(s)),
        Err(e) => Err(e),
    }
}

/// The view of an optional text.
pub open spec fn text_view(text: Option<String>) -> Option<Seq<char>> {
    match text {
        Some(t) => Some(t@),
        None => None,
    }
}

impl ClientService {
    /// The client side of a service. `attr` is the argument of the service
    /// attribute where it is a type, the client type; a service without one
    /// is an error.
    pub fn from_attr(attr: Option<String>, client_routes: Vec<ClientRoute>) -> (r: Result<
        ClientService,
        CompileError,
    >)
        ensures
            match attr {
                Some(ty) => r matches Ok(client) && client.ty == ty && client.routes
                    == client_routes,
                None => r matches Err(e) && e == CompileError::MissingClientTypeArgument,
            },
    {
        match attr {
            Some(ty) => Ok(ClientService { ty, routes: client_routes }),
            None => Err(CompileError::MissingClientTypeArgument),
        }
    }

    /// Appends the stubs of the service to `tokens`.
    pub fn to_tokens(&self, tokens: &mut String)
        ensures
            final(tokens)@ == old(tokens)@ + stubs(self.ty@, client_route_views(self.routes@)),
    {
        let ghost routes = client_route_views(self.routes@);
        let ghost texts = routes.map_values(|r: RouteView| stub(r));
        let mut piece = String::new();
        piece.append("impl ");
        piece.append(self.ty.as_str());
        piece.append(" {\n");
        let ghost start = piece@;
        let mut i: usize = 0;
        proof {
            assert(texts.take(0) =~= Seq::<Seq<char>>::empty());
            assert(piece@ =~= start + terminated(texts.take(0), Seq::empty()));
        }
        while i < self.routes.len()
            invariant
                i <= self.routes.len(),
                routes == client_route_views(self.routes@),
                texts == routes.map_values(|r: RouteView| stub(r)),
                piece@ == start + terminated(texts.take(i as int), Seq::empty()),
            decreases self.routes.len() - i,
        {
            proof {
                assert(texts.take(i + 1).drop_last() =~= texts.take(i as int));
                assert(texts.take(i + 1).last() == stub(self.routes@[i as int]@));
            }
            self.routes[i].to_tokens(&mut piece);
            assert(piece@ =~= start + terminated(texts.take(i + 1), Seq::empty()));
            i += 1;
        }
        assert(texts.take(i as int) =~= texts);
        piece.append("}\n");
        assert(piece@ =~= stubs(self.ty@, routes));
        tokens.append(piece.as_str());
    }
}

impl ServerService {
    pub fn new(server_routes: Vec<ServerRoute>, server_type: String) -> (r: ServerService)
        ensures
            r.routes == server_routes,
            r.server_type == server_type,
    {
        ServerService { routes: server_routes, server_type }
    }

    /// Appends the route table of the service to `tokens`.
    pub fn to_tokens(&self, tokens: &mut String)
        ensures
            final(tokens)@ == old(tokens)@ + mount(
                self.server_type@,
                server_route_views(self.routes@),
            ),
    {
        let ghost routes = server_route_views(self.routes@);
        let ghost texts = routes.map_values(|r: RouteView| server_code(r));
        let mut piece = String::new();
        piece.append("impl phalanx::server::PhalanxServer for ");
        piece.append(self.server_type.as_str());
        piece.append(" {\n");
        piece.append("fn mount(__config: &mut phalanx::reexports::web::ServiceConfig) {\n");
        let ghost start = piece@;
        let mut i: usize = 0;
        proof {
            assert(texts.take(0) =~= Seq::<Seq<char>>::empty());
            assert(piece@ =~= start + terminated(texts.take(0), Seq::empty()));
        }
        while i < self.routes.len()
            invariant
                i <= self.routes.len(),
                routes == server_route_views(self.routes@),
                texts == routes.map_values(|r: RouteView| server_code(r)),
                piece@ == start + terminated(texts.take(i as int), Seq::empty()),
            decreases self.routes.len() - i,
        {
            proof {
                assert(texts.take(i + 1).drop_last() =~= texts.take(i as int));
                assert(texts.take(i + 1).last() == server_code(self.routes@[i as int]@));
            }
            self.routes[i].to_tokens(&mut piece);
            assert(piece@ =~= start + terminated(texts.take(i + 1), Seq::empty()));
            i += 1;
        }
        assert(texts.take(i as int) =~= texts);
        piece.append("}\n}\n");
        assert(piece@ =~= mount(self.server_type@, routes));
        tokens.append(piece.as_str());
    }
}

fn client_routes_of(routes: &Vec<Route>) -> (r: Vec<ClientRoute>)
    ensures
        client_route_views(r@) == route_views(routes@),
{
    let mut out: Vec<ClientRoute> = Vec::new();
    let mut i: usize = 0;
    while i < routes.len()
        invariant
            i <= routes.len(),
            out.len() == i,
            forall|j: int| 0 <= j < i ==> out@[j]@ == routes@[j]@,
        decreases routes.len() - i,
    {
        out.push(ClientRoute::from(routes[i].clone()));
        i += 1;
    }
    assert(client_route_views(out@) =~= route_views(routes@));
    out
}

fn server_routes_of(routes: &Vec<Route>) -> (r: Vec<ServerRoute>)
    ensures
        server_route_views(r@) == route_views(routes@),
{
    let mut out: Vec<ServerRoute> = Vec::new();
    let mut i: usize = 0;
    while i < routes.len()
        invariant
            i <= routes.len(),
            out.len() == i,
            forall|j: int| 0 <= j < i ==> out@[j]@ == routes@[j]@,
        decreases routes.len() - i,
    {
        out.push(ServerRoute::from(routes[i].clone()));
        i += 1;
    }
    assert(server_route_views(out@) =~= route_views(routes@));
    out
}

/// The view of a service or an error.
pub open spec fn service_result(r: Result<Service, ServiceError>) -> Result<
    ServiceView,
    ServiceError,
> {
    match r {
        Ok(s) => Ok(s@),
        Err(e) => Err(e),
    }
}

/// The view of generated code or an error.
pub open spec fn generated_result(r: Result<String, ServiceError>) -> Result<
    Seq<char>,
    ServiceError,
> {
    match r {
        Ok(code) => Ok(code@),
        Err(e) => Err(e),
    }
}

impl Service {
    /// Compiles a service block. `attr` is the argument of the service
    /// attribute where it is a type, `input` the block. The result is the
    /// code to put in place of the block, or the one error to report.
    pub fn from_tokens(attr: Option<String>, input: ItemImpl) -> (r: Result<String, ServiceError>)
        ensures
            generated_result(r) == generated(text_view(attr), input@),
    {
        match Service::new(attr, input) {
            Err(e) => Err(e),
            Ok(service) => {
                let mut output = String::new();
                service.to_tokens(&mut output);
                assert(output@ =~= service_code(service@));
                Ok(output)
            },
        }
    }

    /// Makes the service of a block: both sides get the same routes, and the
    /// block is kept as it was given.
    pub fn new(attr: Option<String>, parsed_impl: ItemImpl) -> (r: Result<Service, ServiceError>)
        ensures
            service_result(r) == serviced(text_view(attr), parsed_impl@),
            r matches Ok(service) ==> service.parsed_impl == parsed_impl,
    {
        match validate_impl(&parsed_impl) {
            Err(error) => {
                return Err(ServiceError { item: None, error });
            },
            Ok(_) => {},
        }
        let routes = match parse_routes(&parsed_impl) {
            Err(e) => {
                return Err(e);
            },
            Ok(routes) => routes,
        };
        let client_routes = client_routes_of(&routes);
        let server_routes = server_routes_of(&routes);
        let server_type = parsed_impl.self_ty.clone();
        match ClientService::from_attr(attr, client_routes) {
            Err(error) => Err(ServiceError { item: None, error }),
            Ok(client) => Ok(
                Service {
                    server: ServerService::new(server_routes, server_type),
                    client,
                    parsed_impl,
                },
            ),
        }
    }

    /// Appends the code of the service to `tokens`.
    pub fn to_tokens(&self, tokens: &mut String)
        ensures
            final(tokens)@ == old(tokens)@ + service_code(self@),
    {
        let mut piece = String::new();
        piece.append(self.parsed_impl.tokens.as_str());
        piece.append("\n");
        self.server.to_tokens(&mut piece);
        self.client.to_tokens(&mut piece);
        assert(piece@ =~= service_code(self@));
        tokens.append(piece.as_str());
    }
}

} // verus!
