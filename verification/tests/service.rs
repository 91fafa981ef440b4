use phalanx::error::{CompileError, ImplRule, ServiceError, ShapeRule};
use phalanx::route::client::ClientRoute;
use phalanx::service::{parse_routes, validate_impl, ClientService, ServerService, Service};
use phalanx::syntax::{Attribute, ImplItem, ItemImpl, LitStr, Method, Parameter, Receiver};

fn service_method(name: &str, verb: Option<&str>, template: &str, inputs: Vec<Parameter>) -> Method {
    let attrs = match verb {
        Some(verb) => vec![Attribute {
            path: vec![verb.to_string()],
            lit: Some(LitStr { token: format!("\"{}\"", template), value: template.to_string() }),
            tokens: format!("#[{}(\"{}\")]", verb, template),
        }],
        None => vec![],
    };
    Method {
        attrs,
        defaultness: false,
        receiver: Receiver::Reference,
        asyncness: true,
        unsafety: false,
        abi: false,
        variadic: false,
        generics: 0,
        ident: name.to_string(),
        inputs,
        output: Some("String".to_string()),
    }
}

fn block(items: Vec<ImplItem>) -> ItemImpl {
    ItemImpl {
        defaultness: false,
        generics: 0,
        self_ty: "SimpleServer".to_string(),
        items,
        tokens: "impl SimpleServer { }".to_string(),
    }
}

fn name_param() -> Parameter {
    Parameter { name: "name".to_string(), ty: "String".to_string() }
}

fn hello_items() -> Vec<ImplItem> {
    vec![
        ImplItem::Method(service_method(
            "index",
            Some("get"),
            "/{name}/index.html",
            vec![name_param()],
        )),
        ImplItem::Other,
        ImplItem::Method(service_method("foo", Some("post"), "/foo", vec![name_param()])),
    ]
}

#[test]
fn plain_block_is_valid() {
    assert_eq!(validate_impl(&block(vec![])), Ok(()));
}

#[test]
fn default_or_generic_block_is_refused() {
    let mut b = block(vec![]);
    b.generics = 1;
    assert_eq!(validate_impl(&b), Err(CompileError::UnsupportedImplShape(ImplRule::Generic)));
    b.defaultness = true;
    assert_eq!(validate_impl(&b), Err(CompileError::UnsupportedImplShape(ImplRule::DefaultImpl)));
}

#[test]
fn routes_come_in_the_order_of_the_methods() {
    let routes = parse_routes(&block(hello_items())).unwrap();
    assert_eq!(routes.len(), 2);
    assert_eq!(routes[0].ident, "index");
    assert_eq!(routes[0].server_type, "SimpleServer");
    assert_eq!(routes[0].path_args, vec![name_param()]);
    assert_eq!(routes[1].ident, "foo");
    assert_eq!(routes[1].payload_arg, Some(name_param()));
    assert_eq!(parse_routes(&block(vec![])), Ok(vec![]));
}

#[test]
fn first_bad_item_is_reported_with_its_index() {
    let mut items = hello_items();
    items.push(ImplItem::Method(service_method("bare", None, "", vec![])));
    items.push(ImplItem::Type);
    assert_eq!(
        parse_routes(&block(items)),
        Err(ServiceError { item: Some(3), error: CompileError::MissingRouteAttribute })
    );
    let mut items = hello_items();
    items.insert(1, ImplItem::Type);
    items.push(ImplItem::Method(service_method("bare", None, "", vec![])));
    assert_eq!(
        parse_routes(&block(items)),
        Err(ServiceError {
            item: Some(1),
            error: CompileError::UnsupportedImplShape(ImplRule::AssociatedType)
        })
    );
}

#[test]
fn service_gives_both_sides_the_same_routes() {
    let service = Service::new(Some("SimpleClient".to_string()), block(hello_items())).unwrap();
    assert_eq!(service.server.server_type, "SimpleServer");
    assert_eq!(service.client.ty, "SimpleClient");
    assert_eq!(service.server.routes.len(), 2);
    assert_eq!(service.client.routes.len(), 2);
    for i in 0..2 {
        assert_eq!(service.server.routes[i].0, service.client.routes[i].0);
    }
    assert_eq!(service.parsed_impl, block(hello_items()));
}

#[test]
fn service_errors_come_in_order() {
    let mut b = block(vec![ImplItem::Type]);
    b.generics = 1;
    assert_eq!(
        Service::new(None, b),
        Err(ServiceError {
            item: None,
            error: CompileError::UnsupportedImplShape(ImplRule::Generic)
        })
    );
    let mut bad = service_method("index", Some("get"), "/", vec![]);
    bad.unsafety = true;
    assert_eq!(
        Service::new(None, block(vec![ImplItem::Other, ImplItem::Method(bad)])),
        Err(ServiceError {
            item: Some(1),
            error: CompileError::UnsupportedMethodShape(ShapeRule::Unsafe)
        })
    );
    assert_eq!(
        Service::new(None, block(hello_items())),
        Err(ServiceError { item: None, error: CompileError::MissingClientTypeArgument })
    );
}

#[test]
fn client_service_needs_a_client_type() {
    assert_eq!(
        ClientService::from_attr(None, vec![]),
        Err(CompileError::MissingClientTypeArgument)
    );
    let routes = parse_routes(&block(hello_items())).unwrap();
    let stubs: Vec<ClientRoute> = routes.into_iter().map(ClientRoute::from).collect();
    let client = ClientService::from_attr(Some("C".to_string()), stubs).unwrap();
    assert_eq!(client.ty, "C");
    assert_eq!(client.routes.len(), 2);
}

#[test]
fn service_code_of_an_empty_block() {
    let code = Service::from_tokens(Some("C".to_string()), block(vec![])).unwrap();
    let expected = "\
impl SimpleServer { }
impl phalanx::server::PhalanxServer for SimpleServer {
fn mount(__config: &mut phalanx::reexports::web::ServiceConfig) {
}
}
impl C {
}
";
    assert_eq!(code, expected);
}

#[test]
fn service_code_holds_block_then_table_then_stubs() {
    let code = Service::from_tokens(Some("SimpleClient".to_string()), block(hello_items())).unwrap();
    let expected = "\
impl SimpleServer { }
impl phalanx::server::PhalanxServer for SimpleServer {
fn mount(__config: &mut phalanx::reexports::web::ServiceConfig) {
async fn index(server: phalanx::reexports::web::Data<SimpleServer>, phalanx::reexports::web::Path((name)): phalanx::reexports::web::Path<(String)>, ) -> String {
    let res = server.into_inner().index(name).await;
    res
}
let __resource = phalanx::reexports::Resource::new(\"/{name}/index.html\")
    .name(\"index\")
    .guard(phalanx::reexports::guard::Get())
    .to(index);
__config.service(__resource);
async fn foo(server: phalanx::reexports::web::Data<SimpleServer>, name: String) -> String {
    let res = server.into_inner().foo(name).await;
    res
}
let __resource = phalanx::reexports::Resource::new(\"/foo\")
    .name(\"foo\")
    .guard(phalanx::reexports::guard::Post())
    .to(foo);
__config.service(__resource);
}
}
impl SimpleClient {
pub async fn index(&self, name: String, ) -> Result<String, Box<dyn std::error::Error>> {
    let __client = phalanx::client::PhalanxClient::client(self);
    let __req = __client.client.get(&__client.format_url(&format!(\"/{name}/index.html\", name = name)));
    let __res = phalanx::client::PhalanxResponse::from(__req.send().await?);
    Ok(<String as phalanx::util::AsyncTryFrom<phalanx::client::PhalanxResponse>>::try_from(__res).await?)
}
pub async fn foo(&self, name: String, ) -> Result<String, Box<dyn std::error::Error>> {
    let __client = phalanx::client::PhalanxClient::client(self);
    let __content_type = phalanx::client::ContentType::from(&name);
    let __req = __client.client.post(&__client.format_url(\"/foo\"))
        .header(\"content-type\", __content_type.header_value())
        .body({
            let body: phalanx::reexports::Body = std::convert::TryFrom::try_from(name)?;
            body
        });
    let __res = phalanx::client::PhalanxResponse::from(__req.send().await?);
    Ok(<String as phalanx::util::AsyncTryFrom<phalanx::client::PhalanxResponse>>::try_from(__res).await?)
}
}
";
    assert_eq!(code, expected);
}

#[test]
fn service_code_is_appended() {
    let service = Service::new(Some("C".to_string()), block(vec![])).unwrap();
    let mut code = "// head\n".to_string();
    service.to_tokens(&mut code);
    assert!(code.starts_with("// head\nimpl SimpleServer { }\nimpl phalanx::server::"));
    let mut table = String::new();
    ServerService::new(vec![], "T".to_string()).to_tokens(&mut table);
    assert_eq!(
        table,
        "impl phalanx::server::PhalanxServer for T {\nfn mount(__config: &mut phalanx::reexports::web::ServiceConfig) {\n}\n}\n"
    );
}

#[test]
fn failed_service_gives_no_code() {
    assert_eq!(
        Service::from_tokens(None, block(hello_items())),
        Err(ServiceError { item: None, error: CompileError::MissingClientTypeArgument })
    );
}

#[test]
fn impl_errors_in_words() {
    assert_eq!(
        CompileError::UnsupportedImplShape(ImplRule::DefaultImpl).message(),
        "Default impls are not currently supported by phalanx_server."
    );
    assert_eq!(
        CompileError::UnsupportedImplShape(ImplRule::Generic).message(),
        "Generics are not supported by phalanx_server."
    );
    assert_eq!(
        CompileError::UnsupportedImplShape(ImplRule::AssociatedType).message(),
        "Associated Types are not currently supported by phalanx_server."
    );
}

#[test]
fn service_keeps_the_block_as_given() {
    let mut given = block(hello_items());
    given.tokens = "impl SimpleServer { /* as written */ }".to_string();
    let service = Service::new(Some("C".to_string()), block_copy(&given)).unwrap();
    assert_eq!(service.parsed_impl, given);
    assert_eq!(service.parsed_impl.items.len(), 3);
    assert_eq!(service.parsed_impl.defaultness, false);
    assert_eq!(service.parsed_impl.generics, 0);
    assert_eq!(service.parsed_impl.self_ty, "SimpleServer");
}

fn block_copy(given: &ItemImpl) -> ItemImpl {
    let mut copy = block(hello_items());
    copy.tokens = given.tokens.clone();
    copy
}
