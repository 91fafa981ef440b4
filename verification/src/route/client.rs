//! The client side of a route: a stub that builds the request, sends it and
//! decodes the response.

use vstd::prelude::*;
use crate::client::{Client, ContentType, Payload, PhalanxRequest, format_path, substituted};
use crate::syntax::{Parameter, ParameterView, parameter_views};
use crate::text::{joined, push_joined, push_terminated, terminated, views};
use super::{Route, RouteView, param_names, split_args};

verus! {

/// A route, to be rendered as client code.
#[derive(Debug, PartialEq, Eq)]
pub struct ClientRoute(pub Route);

impl View for ClientRoute {
    type V = RouteView;

    open spec fn view(&self) -> RouteView {
        self.0@
    }
}

impl From<Route> for ClientRoute {
    fn from(route: Route) -> (r: ClientRoute) {
        ClientRoute(route)
    }
}

impl vstd::std_specs::convert::FromSpecImpl<Route> for ClientRoute {
    open spec fn obeys_from_spec() -> bool {
        true
    }

    open spec fn from_spec(route: Route) -> ClientRoute {
        ClientRoute(route)
    }
}

/// Each parameter as declared: its name, a colon, its type.
pub open spec fn declarations(params: Seq<ParameterView>) -> Seq<Seq<char>> {
    params.map_values(|p: ParameterView| p.name + ": "@ + p.ty)
}

/// Each parameter bound to the placeholder of its own name.
pub open spec fn bindings(params: Seq<ParameterView>) -> Seq<Seq<char>> {
    params.map_values(|p: ParameterView| p.name + " = "@ + p.name)
}

/// The path of the request: the template itself where no parameter travels
/// in the path, else the template with the path parameters formatted into
/// their placeholders.
pub open spec fn request_path(template: Seq<char>, path_args: Seq<ParameterView>) -> Seq<char> {
    if path_args.len() == 0 {
        template
    } else {
        "&format!("@ + template + ", "@ + joined(bindings(path_args), ", "@) + ")"@
    }
}

/// The type of a stub's value: the method's own, or the unit type where the
/// method returns nothing.
pub open spec fn value_type(ret_type: Option<Seq<char>>) -> Seq<char> {
    match ret_type {
        Some(ty) => ty,
        None => "()"@,
    }
}

/// The choice of the content type, made where there is a payload.
pub open spec fn content_type_choice(payload_arg: Option<ParameterView>) -> Seq<char> {
    match payload_arg {
        Some(p) => "    let __content_type = phalanx::client::ContentType::from(&"@ + p.name
            + ");\n"@,
        None => Seq::empty(),
    }
}

/// The header and the body of the request, set where there is a payload.
pub open spec fn body_chain(payload_arg: Option<ParameterView>) -> Seq<char> {
    match payload_arg {
        Some(p) => "\n        .header(\"content-type\", __content_type.header_value())"@
            + "\n        .body({\n"@
            + "            let body: phalanx::reexports::Body = std::convert::TryFrom::try_from("@
            + p.name + ")?;\n            body\n        })"@,
        None => Seq::empty(),
    }
}

/// The stub: a method of the client type that takes the route's parameters
/// in declared order, sends one request and decodes the response as the
/// method's return type.
pub open spec fn stub(r: RouteView) -> Seq<char> {
    terminated(r.attrs, "\n"@) + "pub async fn "@ + r.ident + "(&self, "@ + terminated(
        declarations(r.args),
        ", "@,
    ) + ") -> Result<"@ + value_type(r.ret_type) + ", Box<dyn std::error::Error>> {\n"@
        + "    let __client = phalanx::client::PhalanxClient::client(self);\n"@
        + content_type_choice(r.payload_arg) + "    let __req = __client.client."@
        + r.route_attr.method.lower_name() + "(&__client.format_url("@ + request_path(
        r.route_attr.route.token,
        r.path_args,
    ) + "))"@ + body_chain(r.payload_arg) + ";\n"@
        + "    let __res = phalanx::client::PhalanxResponse::from(__req.send().await?);\n"@
        + "    Ok(<"@ + value_type(r.ret_type)
        + " as phalanx::util::AsyncTryFrom<phalanx::client::PhalanxResponse>>::try_from(__res).await?)\n}\n"@
}

fn declarations_of(params: &Vec<Parameter>) -> (r: Vec<String>)
    ensures
        views(r@) == declarations(parameter_views(params@)),
{
    let mut out: Vec<String> = Vec::new();
    let mut i: usize = 0;
    while i < params.len()
        invariant
            i <= params.len(),
            out.len() == i,
            forall|j: int| 0 <= j < i ==> out@[j]@ == params@[j].name@ + ": "@ + params@[j].ty@,
        decreases params.len() - i,
    {
        let mut text = params[i].name.clone();
        text.append(": ");
        text.append(params[i].ty.as_str());
        out.push(text);
        i += 1;
    }
    assert(views(out@) =~= declarations(parameter_views(params@)));
    out
}

fn bindings_of(params: &Vec<Parameter>) -> (r: Vec<String>)
    ensures
        views(r@) == bindings(parameter_views(params@)),
{
    let mut out: Vec<String> = Vec::new();
    let mut i: usize = 0;
    while i < params.len()
        invariant
            i <= params.len(),
            out.len() == i,
            forall|j: int| 0 <= j < i ==> out@[j]@ == params@[j].name@ + " = "@ + params@[j].name@,
        decreases params.len() - i,
    {
        let mut text = params[i].name.clone();
        text.append(" = ");
        text.append(params[i].name.as_str());
        out.push(text);
        i += 1;
    }
    assert(views(out@) =~= bindings(parameter_views(params@)));
    out
}

impl ClientRoute {
    fn push_request_path(&self, tokens: &mut String)
        ensures
            final(tokens)@ == old(tokens)@ + request_path(
                self@.route_attr.route.token,
                self@.path_args,
            ),
    {
        let route = &self.0;
        if route.path_args.len() > 0 {
            let mut piece = String::new();
            piece.append("&format!(");
            piece.append(route.route_attr.route.token.as_str());
            piece.append(", ");
            let bound = bindings_of(&route.path_args);
            push_joined(&mut piece, &bound, ", ");
            piece.append(")");
            assert(piece@ =~= request_path(self@.route_attr.route.token, self@.path_args));
            tokens.append(piece.as_str());
        } else {
            tokens.append(route.route_attr.route.token.as_str());
        }
    }

    fn push_body_chain(&self, tokens: &mut String)
        ensures
            final(tokens)@ == old(tokens)@ + body_chain(self@.payload_arg),
    {
        match &self.0.payload_arg {
            Some(p) => {
                let mut piece = String::new();
                piece.append("\n        .header(\"content-type\", __content_type.header_value())");
                piece.append("\n        .body({\n");
                piece.append(
                    "            let body: phalanx::reexports::Body = std::convert::TryFrom::try_from(",
                );
                piece.append(p.name.as_str());
                piece.append(")?;\n            body\n        })");
                assert(piece@ =~= body_chain(self@.payload_arg));
                tokens.append(piece.as_str());
            },
            None => {
                assert(tokens@ =~= tokens@ + body_chain(self@.payload_arg));
            },
        }
    }

    fn push_content_type_choice(&self, tokens: &mut String)
        ensures
            final(tokens)@ == old(tokens)@ + content_type_choice(self@.payload_arg),
    {
        match &self.0.payload_arg {
            Some(p) => {
                let mut piece = String::new();
                piece.append("    let __content_type = phalanx::client::ContentType::from(&");
                piece.append(p.name.as_str());
                piece.append(");\n");
                assert(piece@ =~= content_type_choice(self@.payload_arg));
                tokens.append(piece.as_str());
            },
            None => {
                assert(tokens@ =~= tokens@ + content_type_choice(self@.payload_arg));
            },
        }
    }

    fn push_value_type(&self, tokens: &mut String)
        ensures
            final(tokens)@ == old(tokens)@ + value_type(self@.ret_type),
    {
        match &self.0.ret_type {
            Some(ty) => tokens.append(ty.as_str()),
            None => tokens.append("()"),
        }
    }

    /// Appends the client code of the route to `tokens`.
    pub fn to_tokens(&self, tokens: &mut String)
        ensures
            final(tokens)@ == old(tokens)@ + stub(self@),
    {
        let route = &self.0;
        let mut piece = String::new();
        push_terminated(&mut piece, &route.attrs, "\n");
        piece.append("pub async fn ");
        piece.append(route.ident.as_str());
        piece.append("(&self, ");
        let declared = declarations_of(&route.args);
        push_terminated(&mut piece, &declared, ", ");
        piece.append(") -> Result<");
        self.push_value_type(&mut piece);
        piece.append(", Box<dyn std::error::Error>> {\n");
        piece.append("    let __client = phalanx::client::PhalanxClient::client(self);\n");
        self.push_content_type_choice(&mut piece);
        piece.append("    let __req = __client.client.");
        piece.append(route.route_attr.method.as_lower_str());
        piece.append("(&__client.format_url(");
        self.push_request_path(&mut piece);
        piece.append("))");
        self.push_body_chain(&mut piece);
        piece.append(";\n");
        piece.append(
            "    let __res = phalanx::client::PhalanxResponse::from(__req.send().await?);\n",
        );
        piece.append("    Ok(<");
        self.push_value_type(&mut piece);
        piece.append(
            " as phalanx::util::AsyncTryFrom<phalanx::client::PhalanxResponse>>::try_from(__res).await?)\n}\n",
        );
        assert(piece@ =~= stub(self@));
        tokens.append(piece.as_str());
    }

    /// The request that the stub sends when it is called: the route's verb,
    /// the client's base address followed by the path template with each
    /// path parameter's value in place of its placeholder, and the payload
    /// with the content type of its kind where the route has a payload.
    /// `values` are the path parameters' values as text, in declared order.
    /// `None` where the values or the payload do not fit the route.
    pub fn request(&self, client: &Client, values: &Vec<String>, payload: Option<Payload>) -> (r:
        Option<PhalanxRequest>)
        ensures
            r is Some <==> values.len() == self@.path_args.len() && (payload is Some
                <==> self@.payload_arg is Some),
            r matches Some(req) ==> {
                &&& req.method == self@.route_attr.method
                &&& req.url@ == client@ + substituted(
                    self@.route_attr.route.value,
                    param_names(self@.path_args),
                    views(values@),
                )
                &&& req.content_type == match payload {
                    Some(p) => Some(p.spec_content_type()),
                    None => None,
                }
                &&& match req.body {
                    Some(bytes) => payload is Some && bytes@ == payload->0.spec_bytes(),
                    None => payload is None,
                }
            },
    {
        let route = &self.0;
        if payload.is_some() != route.payload_arg.is_some() {
            return None;
        }
        let (names, _types) = split_args(&route.path_args);
        proof {
            assert(names.len() == views(names@).len());
            assert(self@.path_args.len() == param_names(self@.path_args).len());
        }
        match format_path(route.route_attr.route.value.as_str(), &names, values) {
            None => None,
            Some(path) => {
                let url = client.format_url(path.as_str());
                let (content_type, body) = match payload {
                    Some(p) => {
                        let content_type: ContentType = p.content_type();
                        (Some(content_type), Some(p.into_bytes()))
                    },
                    None => (None, None),
                };
                Some(PhalanxRequest { method: route.route_attr.method, url, content_type, body })
            },
        }
    }
}

} // verus!
