//! The server side of a route: a request handler and its registration.

use vstd::prelude::*;
use crate::syntax::ParameterView;
use crate::text::{joined, push_joined, push_terminated, terminated};
use super::{Route, RouteView, param_names, param_types, split_args};

verus! {

/// A route, to be rendered as server code.
#[derive(Debug, PartialEq, Eq)]
pub struct ServerRoute(pub Route);

impl View for ServerRoute {
    type V = RouteView;

    open spec fn view(&self) -> RouteView {
        self.0@
    }
}

impl From<Route> for ServerRoute {
    fn from(route: Route) -> (r: ServerRoute) {
        ServerRoute(route)
    }
}

impl vstd::std_specs::convert::FromSpecImpl<Route> for ServerRoute {
    open spec fn obeys_from_spec() -> bool {
        true
    }

    open spec fn from_spec(route: Route) -> ServerRoute {
        ServerRoute(route)
    }
}

/// The extractor for the path parameters: nothing where there are none, else
/// one tuple pattern of their names against one tuple of their types.
pub open spec fn path_extractor(path_args: Seq<ParameterView>) -> Seq<char> {
    if path_args.len() == 0 {
        Seq::empty()
    } else {
        "phalanx::reexports::web::Path(("@ + joined(param_names(path_args), ", "@)
            + ")): phalanx::reexports::web::Path<("@ + joined(param_types(path_args), ", "@)
            + ")>, "@
    }
}

/// The payload parameter as declared, or nothing.
pub open spec fn payload_declaration(payload_arg: Option<ParameterView>) -> Seq<char> {
    match payload_arg {
        Some(p) => p.name + ": "@ + p.ty,
        None => Seq::empty(),
    }
}

/// The type that the handler returns: the method's own, or the unit
/// responder where the method returns nothing.
pub open spec fn response_type(ret_type: Option<Seq<char>>) -> Seq<char> {
    match ret_type {
        Some(ty) => ty,
        None => "phalanx::server::UnitResponder"@,
    }
}

/// The value that the handler returns: the method's result, or the unit
/// responder whatever the method gave.
pub open spec fn response_value(ret_type: Option<Seq<char>>) -> Seq<char> {
    match ret_type {
        Some(_) => "res"@,
        None => "phalanx::server::UnitResponder"@,
    }
}

/// The handler: it takes the service, the path parameters and the payload,
/// calls the method with all parameters in declared order and returns the
/// response.
pub open spec fn handler(r: RouteView) -> Seq<char> {
    terminated(r.attrs, "\n"@) + "async fn "@ + r.ident
        + "(server: phalanx::reexports::web::Data<"@ + r.server_type + ">, "@ + path_extractor(
        r.path_args,
    ) + payload_declaration(r.payload_arg) + ") -> "@ + response_type(r.ret_type) + " {\n"@
        + "    let res = server.into_inner()."@ + r.ident + "("@ + joined(
        param_names(r.args),
        ", "@,
    ) + ").await;\n"@ + "    "@ + response_value(r.ret_type) + "\n}\n"@
}

/// The registration: a resource at the path template, named after the
/// method, guarded by the verb and served by the handler.
pub open spec fn registration(r: RouteView) -> Seq<char> {
    "let __resource = phalanx::reexports::Resource::new("@ + r.route_attr.route.token + ")\n"@
        + "    .name(\""@ + r.ident + "\")\n"@ + "    .guard(phalanx::reexports::guard::"@
        + r.route_attr.method.name() + "())\n"@ + "    .to("@ + r.ident + ");\n"@
        + "__config.service(__resource);\n"@
}

/// The server code of a route.
pub open spec fn server_code(r: RouteView) -> Seq<char> {
    handler(r) + registration(r)
}

impl ServerRoute {
    /// The name of the handler, which is the name of the method.
    pub fn fn_name(&self) -> (name: &String)
        ensures
            name@ == self@.ident,
    {
        &self.0.ident
    }

    fn push_path_extractor(&self, tokens: &mut String)
        ensures
            final(tokens)@ == old(tokens)@ + path_extractor(self@.path_args),
    {
        if self.0.path_args.len() > 0 {
            let (names, types) = split_args(&self.0.path_args);
            let mut piece = String::new();
            piece.append("phalanx::reexports::web::Path((");
            push_joined(&mut piece, &names, ", ");
            piece.append(")): phalanx::reexports::web::Path<(");
            push_joined(&mut piece, &types, ", ");
            piece.append(")>, ");
            assert(piece@ =~= path_extractor(self@.path_args));
            tokens.append(piece.as_str());
        } else {
            assert(tokens@ =~= tokens@ + path_extractor(self@.path_args));
        }
    }

    fn push_handler(&self, tokens: &mut String)
        ensures
            final(tokens)@ == old(tokens)@ + handler(self@),
    {
        let route = &self.0;
        let mut piece = String::new();
        push_terminated(&mut piece, &route.attrs, "\n");
        piece.append("async fn ");
        piece.append(route.ident.as_str());
        piece.append("(server: phalanx::reexports::web::Data<");
        piece.append(route.server_type.as_str());
        piece.append(">, ");
        self.push_path_extractor(&mut piece);
        match &route.payload_arg {
            Some(p) => {
                let mut declaration = String::new();
                declaration.append(p.name.as_str());
                declaration.append(": ");
                declaration.append(p.ty.as_str());
                assert(declaration@ =~= payload_declaration(self@.payload_arg));
                piece.append(declaration.as_str());
            },
            None => {
                assert(piece@ =~= piece@ + payload_declaration(self@.payload_arg));
            },
        }
        piece.append(") -> ");
        match &route.ret_type {
            Some(ty) => piece.append(ty.as_str()),
            None => piece.append("phalanx::server::UnitResponder"),
        }
        piece.append(" {\n");
        piece.append("    let res = server.into_inner().");
        piece.append(route.ident.as_str());
        piece.append("(");
        let (names, _types) = split_args(&route.args);
        push_joined(&mut piece, &names, ", ");
        piece.append(").await;\n");
        piece.append("    ");
        match &route.ret_type {
            Some(_) => piece.append("res"),
            None => piece.append("phalanx::server::UnitResponder"),
        }
        piece.append("\n}\n");
        assert(piece@ =~= handler(self@));
        tokens.append(piece.as_str());
    }

    fn push_registration(&self, tokens: &mut String)
        ensures
            final(tokens)@ == old(tokens)@ + registration(self@),
    {
        let route = &self.0;
        let mut piece = String::new();
        piece.append("let __resource = phalanx::reexports::Resource::new(");
        piece.append(route.route_attr.route.token.as_str());
        piece.append(")\n");
        piece.append("    .name(\"");
        piece.append(route.ident.as_str());
        piece.append("\")\n");
        piece.append("    .guard(phalanx::reexports::guard::");
        piece.append(route.route_attr.method.as_str());
        piece.append("())\n");
        piece.append("    .to(");
        piece.append(route.ident.as_str());
        piece.append(");\n");
        piece.append("__config.service(__resource);\n");
        assert(piece@ =~= registration(self@));
        tokens.append(piece.as_str());
    }

    /// Appends the server code of the route to `tokens`.
    pub fn to_tokens(&self, tokens: &mut String)
        ensures
            final(tokens)@ == old(tokens)@ + server_code(self@),
    {
        let mut piece = String::new();
        self.push_handler(&mut piece);
        self.push_registration(&mut piece);
        assert(piece@ =~= server_code(self@));
        tokens.append(piece.as_str());
    }
}

} // verus!
