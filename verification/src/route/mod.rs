//! Route descriptors: one per annotated service method.
//!
//! A descriptor is made once from a method, and read by both emitters. It
//! holds the verb and the path template, the method's parameters, and their
//! partition into those that travel in the path and the one, if any, that
//! travels in the body.

use vstd::prelude::*;
use crate::error::{CompileError, ShapeRule};
use crate::syntax::{
    Attribute, AttributeView, Method, MethodView, Parameter, ParameterView, Receiver,
    attribute_views, parameter_views,
};
use crate::text::{contains_text, views};
use path::{placeholder_names, scan_template};
use route_attr::{RouteAttr, RouteAttrError, RouteAttrView, route_attr_of};


pub mod client;
pub mod path;
pub mod route_attr;
pub mod server;


verus! {

/// The positions at which `flags` holds `true`, ascending.
pub open spec fn positions(flags: Seq<bool>) -> Seq<int>
    decreases flags.len(),
{
    if flags.len() == 0 {
        Seq::empty()
    } else {
        let rest = positions(flags.drop_last());
        if flags.last() {
            rest.push(flags.len() - 1)
        } else {
            rest
        }
    }
}

/// Every position is within `flags` and holds `true` there.
pub proof fn lemma_positions_hold(flags: Seq<bool>)
    ensures
        positions(flags).len() <= flags.len(),
        forall|k: int|
            0 <= k < positions(flags).len() ==> 0 <= #[trigger] positions(flags)[k] < flags.len()
                && flags[positions(flags)[k]],
    decreases flags.len(),
{
    if flags.len() > 0 {
        lemma_positions_hold(flags.drop_last());
    }
}

/// The positions within a prefix of `flags` open the positions within `flags`.
pub proof fn lemma_positions_of_prefix(flags: Seq<bool>, n: int)
    requires
        0 <= n <= flags.len(),
    ensures
        positions(flags.take(n)).len() <= positions(flags).len(),
        positions(flags).take(positions(flags.take(n)).len() as int) == positions(flags.take(n)),
    decreases flags.len(),
{
    if n == flags.len() {
        assert(flags.take(n) =~= flags);
    } else {
        assert(flags.drop_last().take(n) =~= flags.take(n));
        lemma_positions_of_prefix(flags.drop_last(), n);
        let inner = positions(flags.drop_last());
        let short = positions(flags.take(n));
        assert(positions(flags).take(short.len() as int) =~= inner.take(short.len() as int));
    }
}

/// The first rule that a method breaks, in the order in which the rules are
/// checked.
pub open spec fn shape_violation(m: MethodView) -> Option<ShapeRule> {
    if m.defaultness {
        Some(ShapeRule::DefaultMethod)
    } else if m.receiver == Receiver::Absent {
        Some(ShapeRule::MissingReceiver)
    } else if m.receiver == Receiver::Typed {
        Some(ShapeRule::TypedReceiver)
    } else if m.receiver == Receiver::Value {
        Some(ShapeRule::ValueReceiver)
    } else if !m.asyncness {
        Some(ShapeRule::NotAsync)
    } else if m.unsafety {
        Some(ShapeRule::Unsafe)
    } else if m.abi {
        Some(ShapeRule::ForeignAbi)
    } else if m.variadic {
        Some(ShapeRule::Variadic)
    } else if m.generics > 0 {
        Some(ShapeRule::Generic)
    } else {
        None
    }
}

/// Whether a method has the one shape that a route can be made of: not
/// `default`, taking `self` by reference, `async`, safe, with the native
/// calling convention, not variadic and not generic.
pub fn validate_method(method: &Method) -> (r: Result<(), CompileError>)
    ensures
        r == match shape_violation(method@) {
            Some(rule) => Err::<(), CompileError>(CompileError::UnsupportedMethodShape(rule)),
            None => Ok(()),
        },
{
    if method.defaultness {
        return Err(CompileError::UnsupportedMethodShape(ShapeRule::DefaultMethod));
    }
    match method.receiver {
        Receiver::Absent => {
            return Err(CompileError::UnsupportedMethodShape(ShapeRule::MissingReceiver));
        },
        Receiver::Typed => {
            return Err(CompileError::UnsupportedMethodShape(ShapeRule::TypedReceiver));
        },
        Receiver::Value => {
            return Err(CompileError::UnsupportedMethodShape(ShapeRule::ValueReceiver));
        },
        Receiver::Reference => {},
    }
    if !method.asyncness {
        return Err(CompileError::UnsupportedMethodShape(ShapeRule::NotAsync));
    }
    if method.unsafety {
        return Err(CompileError::UnsupportedMethodShape(ShapeRule::Unsafe));
    }
    if method.abi {
        return Err(CompileError::UnsupportedMethodShape(ShapeRule::ForeignAbi));
    }
    if method.variadic {
        return Err(CompileError::UnsupportedMethodShape(ShapeRule::Variadic));
    }
    if method.generics > 0 {
        return Err(CompileError::UnsupportedMethodShape(ShapeRule::Generic));
    }
    Ok(())
}

/// The names of `params`, in order.
pub open spec fn param_names(params: Seq<ParameterView>) -> Seq<Seq<char>> {
    params.map_values(|p: ParameterView| p.name)
}

/// The types of `params`, in order.
pub open spec fn param_types(params: Seq<ParameterView>) -> Seq<Seq<char>> {
    params.map_values(|p: ParameterView| p.ty)
}

/// Splits parameters into their names and their types, both in order.
pub fn split_args(args: &Vec<Parameter>) -> (r: (Vec<String>, Vec<String>))
    ensures
        views(r.0@) == param_names(parameter_views(args@)),
        views(r.1@) == param_types(parameter_views(args@)),
{
    let mut names: Vec<String> = Vec::new();
    let mut types: Vec<String> = Vec::new();
    let mut i: usize = 0;
    while i < args.len()
        invariant
            i <= args.len(),
            names.len() == i,
            types.len() == i,
            forall|j: int| 0 <= j < i ==> names@[j]@ == args@[j].name@,
            forall|j: int| 0 <= j < i ==> types@[j]@ == args@[j].ty@,
        decreases args.len() - i,
    {
        names.push(args[i].name.clone());
        types.push(args[i].ty.clone());
        i += 1;
    }
    assert(views(names@) =~= param_names(parameter_views(args@)));
    assert(views(types@) =~= param_types(parameter_views(args@)));
    (names, types)
}

/// The parameters that a placeholder names, in the order of their
/// declaration.
pub open spec fn path_params(params: Seq<ParameterView>, names: Seq<Seq<char>>) -> Seq<
    ParameterView,
> {
    params.filter(|p: ParameterView| names.contains(p.name))
}

/// The positions of the parameters that no placeholder names.
pub open spec fn unmatched(params: Seq<ParameterView>, names: Seq<Seq<char>>) -> Seq<int> {
    positions(params.map_values(|p: ParameterView| !names.contains(p.name)))
}

/// The parameters at the given positions.
pub open spec fn selected(params: Seq<ParameterView>, at: Seq<int>) -> Seq<ParameterView> {
    at.map_values(|i: int| params[i])
}

/// The partition of a method's parameters.
#[derive(Debug, PartialEq, Eq)]
pub struct Classification {
    pub path_args: Vec<Parameter>,
    pub payload_arg: Option<Parameter>,
}

pub struct ClassificationView {
    pub path_args: Seq<ParameterView>,
    pub payload_arg: Option<ParameterView>,
}

impl View for Classification {
    type V = ClassificationView;

    open spec fn view(&self) -> ClassificationView {
        ClassificationView {
            path_args: parameter_views(self.path_args@),
            payload_arg: match self.payload_arg {
                Some(p) => Some(p@),
                None => None,
            },
        }
    }
}

/// The partition of `params` by the placeholder names: a parameter that a
/// placeholder names travels in the path; the one parameter that none names
/// is the payload; a second such parameter is an error.
pub open spec fn classified(params: Seq<ParameterView>, names: Seq<Seq<char>>) -> Result<
    ClassificationView,
    CompileError,
> {
    let rest = unmatched(params, names);
    if rest.len() >= 2 {
        Err(CompileError::AmbiguousPayload { parameter: rest[1] as usize })
    } else {
        Ok(
            ClassificationView {
                path_args: path_params(params, names),
                payload_arg: if rest.len() == 1 {
                    Some(params[rest[0]])
                } else {
                    None
                },
            },
        )
    }
}

/// The view of what `classify` returns.
pub open spec fn classification_result(r: Result<Classification, CompileError>) -> Result<
    ClassificationView,
    CompileError,
> {
    match r {
        Ok(c) => Ok(c@),
        Err(e) => Err(e),
    }
}

/// Partitions the parameters of a method by the placeholder names of its path
/// template.
pub fn classify(args: &Vec<Parameter>, names: &Vec<String>) -> (r: Result<Classification, CompileError>)
    ensures
        classification_result(r) == classified(parameter_views(args@), views(names@)),
{
    let ghost params = parameter_views(args@);
    let ghost known = views(names@);
    let ghost flags = params.map_values(|p: ParameterView| !known.contains(p.name));
    let mut path_args: Vec<Parameter> = Vec::new();
    let mut payload_arg: Option<Parameter> = None;
    let mut i: usize = 0;
    proof {
        reveal(Seq::filter);
        assert(params.take(0) =~= Seq::<ParameterView>::empty());
        assert(flags.take(0) =~= Seq::<bool>::empty());
    }
    while i < args.len()
        invariant
            i <= args.len(),
            params == parameter_views(args@),
            known == views(names@),
            flags == params.map_values(|p: ParameterView| !known.contains(p.name)),
            parameter_views(path_args@) == path_params(params.take(i as int), known),
            positions(flags.take(i as int)).len() <= 1,
            payload_arg is Some <==> positions(flags.take(i as int)).len() == 1,
            payload_arg matches Some(p) ==> p@ == params[positions(flags.take(i as int))[0]],
        decreases args.len() - i,
    {
        let arg = &args[i];
        proof {
            reveal(Seq::filter);
            assert(params.take(i + 1).drop_last() =~= params.take(i as int));
            assert(flags.take(i + 1).drop_last() =~= flags.take(i as int));
            assert(params.take(i + 1).last() == arg@);
            assert(flags.take(i + 1).last() == !known.contains(arg@.name));
        }
        if contains_text(names, arg.name.as_str()) {
            let ghost before = path_args@;
            path_args.push(arg.clone());
            assert(parameter_views(path_args@) =~= parameter_views(before).push(arg@));
        } else {
            if payload_arg.is_some() {
                proof {
                    lemma_positions_of_prefix(flags, i + 1);
                    let short = positions(flags.take(i + 1));
                    assert(short.len() == 2);
                    assert(short[1] == i);
                    assert(positions(flags).take(2)[1] == short[1]);
                }
                return Err(CompileError::AmbiguousPayload { parameter: i });
            }
            payload_arg = Some(arg.clone());
        }
        i += 1;
    }
    proof {
        assert(params.take(i as int) =~= params);
        assert(flags.take(i as int) =~= flags);
    }
    Ok(Classification { path_args, payload_arg })
}

/// The partition covers the parameters and its parts are disjoint: taken as
/// multisets, the path parameters and the payload together are the
/// parameters; every path parameter is named by a placeholder, the payload by
/// none; and an error is given exactly when two or more parameters are named
/// by none.
pub proof fn lemma_partition_is_disjoint_cover(params: Seq<ParameterView>, names: Seq<Seq<char>>)
    ensures
        classified(params, names) is Err <==> unmatched(params, names).len() >= 2,
        path_params(params, names).to_multiset().add(
            selected(params, unmatched(params, names)).to_multiset(),
        ) == params.to_multiset(),
        path_params(params, names).len() + unmatched(params, names).len() == params.len(),
        forall|i: int|
            0 <= i < path_params(params, names).len() ==> names.contains(
                #[trigger] path_params(params, names)[i].name,
            ),
        forall|k: int|
            0 <= k < unmatched(params, names).len() ==> !names.contains(
                #[trigger] selected(params, unmatched(params, names))[k].name,
            ),
        classified(params, names) matches Ok(c) ==> c.path_args == path_params(params, names) && (
        match c.payload_arg {
            Some(p) => selected(params, unmatched(params, names)) == seq![p],
            None => selected(params, unmatched(params, names)).len() == 0,
        }),
    decreases params.len(),
{
    broadcast use vstd::seq_lib::group_to_multiset_ensures;

    reveal(Seq::filter);
    let flags = params.map_values(|p: ParameterView| !names.contains(p.name));
    let rest = unmatched(params, names);
    let path = path_params(params, names);
    lemma_positions_hold(flags);
    if params.len() == 0 {
        assert(selected(params, rest) =~= Seq::<ParameterView>::empty());
        assert(path.to_multiset().add(selected(params, rest).to_multiset()) =~= params.to_multiset());
    } else {
        let init = params.drop_last();
        let last = params.last();
        lemma_partition_is_disjoint_cover(init, names);
        let init_flags = init.map_values(|p: ParameterView| !names.contains(p.name));
        assert(flags.drop_last() =~= init_flags);
        lemma_positions_hold(init_flags);
        let init_rest = unmatched(init, names);
        let init_path = path_params(init, names);
        assert(selected(init, init_rest) =~= selected(params, init_rest));
        assert(params =~= init.push(last));
        if names.contains(last.name) {
            assert(path == init_path.push(last));
            assert(rest == init_rest);
            assert(path.to_multiset().add(selected(params, rest).to_multiset())
                =~= params.to_multiset());
        } else {
            assert(path == init_path);
            assert(rest == init_rest.push(params.len() - 1));
            assert(selected(params, rest) =~= selected(params, init_rest).push(last));
            assert(path.to_multiset().add(selected(params, rest).to_multiset())
                =~= params.to_multiset());
        }
    }
    match classified(params, names) {
        Ok(c) => {
            match c.payload_arg {
                Some(p) => {
                    assert(selected(params, rest) =~= seq![p]);
                },
                None => {},
            }
        },
        Err(_) => {},
    }
}

/// The descriptor of one route.
///
/// `args` are the method's parameters after the receiver. `path_args` and
/// `payload_arg` are their partition. `attrs` holds, as written, the
/// attributes of the method that are no route attribute: they are handed on
/// to the generated code.
#[derive(Debug, PartialEq, Eq)]
pub struct Route {
    pub server_type: String,
    pub ident: String,
    pub args: Vec<Parameter>,
    pub path_args: Vec<Parameter>,
    pub payload_arg: Option<Parameter>,
    pub ret_type: Option<String>,
    pub attrs: Vec<String>,
    pub route_attr: RouteAttr,
}

pub struct RouteView {
    pub server_type: Seq<char>,
    pub ident: Seq<char>,
    pub args: Seq<ParameterView>,
    pub path_args: Seq<ParameterView>,
    pub payload_arg: Option<ParameterView>,
    pub ret_type: Option<Seq<char>>,
    pub attrs: Seq<Seq<char>>,
    pub route_attr: RouteAttrView,
}

impl View for Route {
    type V = RouteView;

    open spec fn view(&self) -> RouteView {
        RouteView {
            server_type: self.server_type@,
            ident: self.ident@,
            args: parameter_views(self.args@),
            path_args: parameter_views(self.path_args@),
            payload_arg: match self.payload_arg {
                Some(p) => Some(p@),
                None => None,
            },
            ret_type: match self.ret_type {
                Some(ty) => Some(ty@),
                None => None,
            },
            attrs: views(self.attrs@),
            route_attr: self.route_attr@,
        }
    }
}

/// A copy of each parameter, in order.
pub fn clone_params(params: &Vec<Parameter>) -> (r: Vec<Parameter>)
    ensures
        parameter_views(r@) == parameter_views(params@),
{
    let mut out: Vec<Parameter> = Vec::new();
    let mut i: usize = 0;
    while i < params.len()
        invariant
            i <= params.len(),
            out.len() == i,
            forall|j: int| 0 <= j < i ==> out@[j]@ == params@[j]@,
        decreases params.len() - i,
    {
        out.push(params[i].clone());
        i += 1;
    }
    assert(parameter_views(out@) =~= parameter_views(params@));
    out
}

impl Clone for Route {
    fn clone(&self) -> (r: Self)
        ensures
            r@ == self@,
    {
        Route {
            server_type: self.server_type.clone(),
            ident: self.ident.clone(),
            args: clone_params(&self.args),
            path_args: clone_params(&self.path_args),
            payload_arg: match &self.payload_arg {
                Some(p) => Some(p.clone()),
                None => None,
            },
            ret_type: match &self.ret_type {
                Some(ty) => Some(ty.clone()),
                None => None,
            },
            attrs: crate::text::clone_texts(&self.attrs),
            route_attr: self.route_attr.clone(),
        }
    }
}

/// The positions of the route attributes among `attrs`.
pub open spec fn route_positions(attrs: Seq<AttributeView>) -> Seq<int> {
    positions(attrs.map_values(|a: AttributeView| route_attr_of(a) is Ok))
}

/// The attributes that are no route attribute, as written and in order.
pub open spec fn passthrough(attrs: Seq<AttributeView>) -> Seq<Seq<char>> {
    attrs.filter(|a: AttributeView| route_attr_of(a) is Err).map_values(
        |a: AttributeView| a.tokens,
    )
}

/// The descriptor of a method whose route attribute and placeholder names are
/// known, or the error in the partition of its parameters.
pub open spec fn assembled(
    m: MethodView,
    server_type: Seq<char>,
    route_attr: RouteAttrView,
    names: Seq<Seq<char>>,
) -> Result<RouteView, CompileError> {
    match classified(m.inputs, names) {
        Err(e) => Err(e),
        Ok(c) => Ok(
            RouteView {
                server_type,
                ident: m.ident,
                args: m.inputs,
                path_args: c.path_args,
                payload_arg: c.payload_arg,
                ret_type: m.output,
                attrs: passthrough(m.attrs),
                route_attr,
            },
        ),
    }
}

/// The one route attribute of a method and the attributes to hand on.
#[derive(Debug, PartialEq, Eq)]
pub struct Attributes {
    pub route_attr: RouteAttr,
    pub passthrough: Vec<String>,
}

pub struct AttributesView {
    pub route_attr: RouteAttrView,
    pub passthrough: Seq<Seq<char>>,
}

impl View for Attributes {
    type V = AttributesView;

    open spec fn view(&self) -> AttributesView {
        AttributesView { route_attr: self.route_attr@, passthrough: views(self.passthrough@) }
    }
}

/// The one route attribute among `attrs` and the attributes to hand on. No
/// route attribute is an error, and so is a second one, which the error
/// points at.
pub open spec fn searched(attrs: Seq<AttributeView>) -> Result<AttributesView, CompileError> {
    let found = route_positions(attrs);
    if found.len() >= 2 {
        Err(CompileError::MultipleRouteAttributes { attribute: found[1] as usize })
    } else if found.len() == 0 {
        Err(CompileError::MissingRouteAttribute)
    } else {
        Ok(
            AttributesView {
                route_attr: route_attr_of(attrs[found[0]])->Ok_0,
                passthrough: passthrough(attrs),
            },
        )
    }
}

/// The view of what a search of the attributes gives.
pub open spec fn attributes_result(r: Result<Attributes, CompileError>) -> Result<
    AttributesView,
    CompileError,
> {
    match r {
        Ok(found) => Ok(found@),
        Err(e) => Err(e),
    }
}

/// The descriptor of a method, or the first error met: the method's shape is
/// checked first, then its attributes are searched for exactly one route
/// attribute, then its parameters are partitioned by the placeholders of the
/// path template.
pub open spec fn described(m: MethodView, server_type: Seq<char>) -> Result<RouteView, CompileError> {
    match shape_violation(m) {
        Some(rule) => Err(CompileError::UnsupportedMethodShape(rule)),
        None => match searched(m.attrs) {
            Err(e) => Err(e),
            Ok(found) => match placeholder_names(found.route_attr.route.value) {
                None => Err(CompileError::TemplateScan),
                Some(names) => assembled(m, server_type, found.route_attr, names),
            },
        },
    }
}

/// The parameters of a payload, as a sequence of none or one.
pub open spec fn payload_params(payload_arg: Option<ParameterView>) -> Seq<ParameterView> {
    match payload_arg {
        Some(p) => seq![p],
        None => Seq::empty(),
    }
}

/// In every descriptor the path parameters and the payload are a disjoint
/// cover of the method's parameters: taken as multisets, together they are
/// the parameters, and there are as many of them as parameters. The path
/// parameters are those named by a placeholder of the path template, the
/// payload is named by none.
pub proof fn lemma_route_partitions_its_parameters(m: MethodView, server_type: Seq<char>)
    ensures
        described(m, server_type) matches Ok(route) ==> {
            &&& route.args == m.inputs
            &&& route.path_args.to_multiset().add(payload_params(route.payload_arg).to_multiset())
                == route.args.to_multiset()
            &&& route.path_args.len() + payload_params(route.payload_arg).len()
                == route.args.len()
            &&& placeholder_names(route.route_attr.route.value) matches Some(names) && (
            forall|i: int|
                0 <= i < route.path_args.len() ==> names.contains(
                    #[trigger] route.path_args[i].name,
                )) && (route.payload_arg matches Some(p) ==> !names.contains(p.name))
        },
{
    if let Ok(route) = described(m, server_type) {
        let route_attr = searched(m.attrs)->Ok_0.route_attr;
        let names = placeholder_names(route_attr.route.value)->0;
        lemma_partition_is_disjoint_cover(m.inputs, names);
        let rest = selected(m.inputs, unmatched(m.inputs, names));
        assert(rest =~= payload_params(route.payload_arg));
        if let Some(p) = route.payload_arg {
            assert(rest[0] == p);
        }
    }
}

/// The view of a descriptor or an error.
pub open spec fn route_result(r: Result<Route, CompileError>) -> Result<RouteView, CompileError> {
    match r {
        Ok(route) => Ok(route@),
        Err(e) => Err(e),
    }
}

impl Route {
    /// Makes the descriptor of `method`, a method of the service type
    /// `server_type`.
    pub fn new(method: &Method, server_type: &str) -> (r: Result<Route, CompileError>)
        ensures
            route_result(r) == described(method@, server_type@),
    {
        match validate_method(method) {
            Err(e) => {
                return Err(e);
            },
            Ok(_) => {},
        }
        let attributes = match Route::attributes(&method.attrs) {
            Err(e) => {
                return Err(e);
            },
            Ok(attributes) => attributes,
        };
        match scan_template(attributes.route_attr.route.value.as_str()) {
            None => Err(CompileError::TemplateScan),
            Some(names) => Route::with_names(
                method,
                server_type,
                attributes.route_attr,
                attributes.passthrough,
                &names,
            ),
        }
    }

    /// Searches the attributes of a method for its one route attribute. Every
    /// attribute that is none is kept, as written, to be handed on.
    pub fn attributes(attrs: &Vec<Attribute>) -> (r: Result<Attributes, CompileError>)
        ensures
            attributes_result(r) == searched(attribute_views(attrs@)),
    {
        let ghost all = attribute_views(attrs@);
        let ghost flags = all.map_values(|a: AttributeView| route_attr_of(a) is Ok);
        let mut route_attr: Option<RouteAttr> = None;
        let mut kept: Vec<String> = Vec::new();
        let mut i: usize = 0;
        proof {
            reveal(Seq::filter);
            assert(all.take(0) =~= Seq::<AttributeView>::empty());
            assert(flags.take(0) =~= Seq::<bool>::empty());
            assert(views(kept@) =~= passthrough(all.take(0)));
        }
        while i < attrs.len()
            invariant
                i <= attrs.len(),
                all == attribute_views(attrs@),
                flags == all.map_values(|a: AttributeView| route_attr_of(a) is Ok),
                views(kept@) == passthrough(all.take(i as int)),
                positions(flags.take(i as int)).len() <= 1,
                route_attr is Some <==> positions(flags.take(i as int)).len() == 1,
                route_attr matches Some(found) ==> {
                    let at = positions(flags.take(i as int))[0];
                    0 <= at < i && route_attr_of(all[at]) == Ok::<
                        RouteAttrView,
                        RouteAttrError,
                    >(found@)
                },
            decreases attrs.len() - i,
        {
            let attr = &attrs[i];
            proof {
                reveal(Seq::filter);
                assert(all.take(i + 1).drop_last() =~= all.take(i as int));
                assert(flags.take(i + 1).drop_last() =~= flags.take(i as int));
                assert(all.take(i + 1).last() == attr@);
                assert(flags.take(i + 1).last() == (route_attr_of(attr@) is Ok));
            }
            match RouteAttr::try_from(attr) {
                Ok(parsed) => {
                    if route_attr.is_some() {
                        proof {
                            lemma_positions_of_prefix(flags, i + 1);
                            let short = positions(flags.take(i + 1));
                            assert(short.len() == 2);
                            assert(short[1] == i);
                            assert(positions(flags).take(2)[1] == short[1]);
                        }
                        return Err(CompileError::MultipleRouteAttributes { attribute: i });
                    }
                    route_attr = Some(parsed);
                },
                Err(_) => {
                    let ghost before = kept@;
                    kept.push(attr.tokens.clone());
                    proof {
                        let f = |a: AttributeView| route_attr_of(a) is Err;
                        assert(all.take(i + 1).filter(f) == all.take(i as int).filter(f).push(
                            attr@,
                        ));
                        assert(views(kept@) =~= views(before).push(attr@.tokens));
                        assert(views(kept@) =~= passthrough(all.take(i + 1)));
                    }
                },
            }
            i += 1;
        }
        proof {
            assert(all.take(i as int) =~= all);
            assert(flags.take(i as int) =~= flags);
        }
        match route_attr {
            None => Err(CompileError::MissingRouteAttribute),
            Some(found) => Ok(Attributes { route_attr: found, passthrough: kept }),
        }
    }

    /// Makes the descriptor of a method from its route attribute, the
    /// attributes to hand on and the placeholder names of its path template.
    pub fn with_names(
        method: &Method,
        server_type: &str,
        route_attr: RouteAttr,
        attrs: Vec<String>,
        names: &Vec<String>,
    ) -> (r: Result<Route, CompileError>)
        ensures
            match classified(method@.inputs, views(names@)) {
                Err(e) => r == Err::<Route, CompileError>(e),
                Ok(c) => r is Ok && r->Ok_0@ == (RouteView {
                    server_type: server_type@,
                    ident: method@.ident,
                    args: method@.inputs,
                    path_args: c.path_args,
                    payload_arg: c.payload_arg,
                    ret_type: method@.output,
                    attrs: views(attrs@),
                    route_attr: route_attr@,
                }),
            },
    {
        match classify(&method.inputs, names) {
            Err(e) => Err(e),
            Ok(c) => Ok(
                Route {
                    server_type: server_type.to_owned(),
                    ident: method.ident.clone(),
                    args: clone_params(&method.inputs),
                    path_args: c.path_args,
                    payload_arg: c.payload_arg,
                    ret_type: match &method.output {
                        Some(ty) => Some(ty.clone()),
                        None => None,
                    },
                    attrs,
                    route_attr,
                },
            ),
        }
    }
}

} // verus!
