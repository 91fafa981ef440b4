//! The verb attribute of a route.

use vstd::prelude::*;
use crate::syntax::{Attribute, AttributeView, LitStr, LitStrView};
use crate::text::same_text;

verus! {

/// The nine HTTP verbs a route attribute can name.
#[derive(Debug, PartialEq, Eq, Hash, Clone, Copy, Structural)]
pub enum MethodType {
    Get,
    Post,
    Put,
    Delete,
    Head,
    Connect,
    Options,
    Trace,
    Patch,
}

impl MethodType {
    /// The verb's guard name, capitalised.
    pub open spec fn name(self) -> Seq<char> {
        match self {
            MethodType::Get => "Get"@,
            MethodType::Post => "Post"@,
            MethodType::Put => "Put"@,
            MethodType::Delete => "Delete"@,
            MethodType::Head => "Head"@,
            MethodType::Connect => "Connect"@,
            MethodType::Options => "Options"@,
            MethodType::Trace => "Trace"@,
            MethodType::Patch => "Patch"@,
        }
    }

    /// The verb's attribute name, in lower case.
    pub open spec fn lower_name(self) -> Seq<char> {
        match self {
            MethodType::Get => "get"@,
            MethodType::Post => "post"@,
            MethodType::Put => "put"@,
            MethodType::Delete => "delete"@,
            MethodType::Head => "head"@,
            MethodType::Connect => "connect"@,
            MethodType::Options => "options"@,
            MethodType::Trace => "trace"@,
            MethodType::Patch => "patch"@,
        }
    }

    /// The verb that an attribute name stands for, if any.
    pub open spec fn named(name: Seq<char>) -> Option<MethodType> {
        if name == "get"@ {
            Some(MethodType::Get)
        } else if name == "post"@ {
            Some(MethodType::Post)
        } else if name == "put"@ {
            Some(MethodType::Put)
        } else if name == "delete"@ {
            Some(MethodType::Delete)
        } else if name == "head"@ {
            Some(MethodType::Head)
        } else if name == "connect"@ {
            Some(MethodType::Connect)
        } else if name == "options"@ {
            Some(MethodType::Options)
        } else if name == "trace"@ {
            Some(MethodType::Trace)
        } else if name == "patch"@ {
            Some(MethodType::Patch)
        } else {
            None
        }
    }

    pub fn as_str(&self) -> (s: &'static str)
        ensures
            s@ == self.name(),
    {
        match self {
            MethodType::Get => "Get",
            MethodType::Post => "Post",
            MethodType::Put => "Put",
            MethodType::Delete => "Delete",
            MethodType::Head => "Head",
            MethodType::Connect => "Connect",
            MethodType::Options => "Options",
            MethodType::Trace => "Trace",
            MethodType::Patch => "Patch",
        }
    }

    pub fn as_lower_str(&self) -> (s: &'static str)
        ensures
            s@ == self.lower_name(),
    {
        match self {
            MethodType::Get => "get",
            MethodType::Post => "post",
            MethodType::Put => "put",
            MethodType::Delete => "delete",
            MethodType::Head => "head",
            MethodType::Connect => "connect",
            MethodType::Options => "options",
            MethodType::Trace => "trace",
            MethodType::Patch => "patch",
        }
    }

    /// Reads a verb from its attribute name; `None` for any other name.
    pub fn parse(method: &str) -> (r: Option<MethodType>)
        ensures
            r == MethodType::named(method@),
    {
        if same_text(method, "get") {
            Some(MethodType::Get)
        } else if same_text(method, "post") {
            Some(MethodType::Post)
        } else if same_text(method, "put") {
            Some(MethodType::Put)
        } else if same_text(method, "delete") {
            Some(MethodType::Delete)
        } else if same_text(method, "head") {
            Some(MethodType::Head)
        } else if same_text(method, "connect") {
            Some(MethodType::Connect)
        } else if same_text(method, "options") {
            Some(MethodType::Options)
        } else if same_text(method, "trace") {
            Some(MethodType::Trace)
        } else if same_text(method, "patch") {
            Some(MethodType::Patch)
        } else {
            None
        }
    }
}

/// A route attribute: the verb that the attribute names and the path template
/// that it carries.
#[derive(Debug, PartialEq, Eq)]
pub struct RouteAttr {
    pub method: MethodType,
    pub route: LitStr,
}

pub struct RouteAttrView {
    pub method: MethodType,
    pub route: LitStrView,
}

impl View for RouteAttr {
    type V = RouteAttrView;

    open spec fn view(&self) -> RouteAttrView {
        RouteAttrView { method: self.method, route: self.route@ }
    }
}

impl Clone for RouteAttr {
    fn clone(&self) -> (r: Self)
        ensures
            r@ == self@,
    {
        RouteAttr { method: self.method, route: self.route.clone() }
    }
}

/// Why an attribute is no route attribute.
#[derive(Debug, PartialEq, Eq, Clone, Copy, Structural)]
pub enum RouteAttrError {
    /// The last segment of the attribute's name is none of the nine verbs.
    UnexpectedMethod,
    /// The attribute's argument list is not a single string literal.
    ExpectedStringLiteral,
}

/// The route attribute that an attribute stands for, or why it stands for
/// none: the last segment of its name must be a verb in lower case, and its
/// argument list a single string literal.
pub open spec fn route_attr_of(attr: AttributeView) -> Result<RouteAttrView, RouteAttrError> {
    if attr.path.len() == 0 {
        Err(RouteAttrError::UnexpectedMethod)
    } else {
        match MethodType::named(attr.path.last()) {
            None => Err(RouteAttrError::UnexpectedMethod),
            Some(method) => match attr.lit {
                None => Err(RouteAttrError::ExpectedStringLiteral),
                Some(route) => Ok(RouteAttrView { method, route }),
            },
        }
    }
}

/// The view of what `RouteAttr::try_from` returns.
pub open spec fn route_attr_result(r: Result<RouteAttr, RouteAttrError>) -> Result<
    RouteAttrView,
    RouteAttrError,
> {
    match r {
        Ok(attr) => Ok(attr@),
        Err(e) => Err(e),
    }
}

impl RouteAttr {
    /// Reads an attribute as a route attribute.
    pub fn try_from(attr: &Attribute) -> (r: Result<RouteAttr, RouteAttrError>)
        ensures
            route_attr_result(r) == route_attr_of(attr@),
    {
        if attr.path.len() == 0 {
            return Err(RouteAttrError::UnexpectedMethod);
        }
        let last = &attr.path[attr.path.len() - 1];
        assert(attr@.path.last() == last@);
        match MethodType::parse(last.as_str()) {
            None => Err(RouteAttrError::UnexpectedMethod),
            Some(method) => match &attr.lit {
                None => Err(RouteAttrError::ExpectedStringLiteral),
                Some(lit) => Ok(RouteAttr { method, route: lit.clone() }),
            },
        }
    }

    /// The name of the server-side guard for this verb.
    pub fn method_ident(&self) -> (s: String)
        ensures
            s@ == self.method.name(),
    {
        self.method.as_str().to_owned()
    }

    /// The name of the client-side request builder for this verb.
    pub fn method_ident_lower(&self) -> (s: String)
        ensures
            s@ == self.method.lower_name(),
    {
        self.method.as_lower_str().to_owned()
    }
}

impl RouteAttrError {
    pub open spec fn text(self, name: Seq<char>) -> Seq<char> {
        match self {
            RouteAttrError::UnexpectedMethod => "Unexpected HTTP method: `"@ + name + "`"@,
            RouteAttrError::ExpectedStringLiteral => "expected string literal"@,
        }
    }

    /// The error in words; `name` is the attribute's name as it was read.
    pub fn message(&self, name: &str) -> (s: String)
        ensures
            s@ == self.text(name@),
    {
        match self {
            RouteAttrError::UnexpectedMethod => {
                let mut s = "Unexpected HTTP method: `".to_owned();
                s.append(name);
                s.append("`");
                s
            },
            RouteAttrError::ExpectedStringLiteral => "expected string literal".to_owned(),
        }
    }
}

/// Every verb is read back from its attribute name.
pub proof fn lemma_lower_name_is_read_back(method: MethodType)
    ensures
        MethodType::named(method.lower_name()) == Some(method),
{
    reveal_strlit("get");
    reveal_strlit("post");
    reveal_strlit("put");
    reveal_strlit("delete");
    reveal_strlit("head");
    reveal_strlit("connect");
    reveal_strlit("options");
    reveal_strlit("trace");
    reveal_strlit("patch");
    let name = method.lower_name();
    assert("get"@[0] == 'g' && "post"@[1] == 'o' && "put"@[1] == 'u' && "delete"@[0] == 'd'
        && "head"@[0] == 'h' && "connect"@[0] == 'c' && "options"@[0] == 'o' && "trace"@[0]
        == 't' && "patch"@[1] == 'a');
}

} // verus!
