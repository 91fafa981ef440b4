use phalanx::client::{Client, ContentType, Payload};
use phalanx::route::client::ClientRoute;
use phalanx::route::route_attr::MethodType;
use phalanx::route::server::ServerRoute;
use phalanx::route::Route;
use phalanx::syntax::{Attribute, LitStr, Method, Parameter, Receiver};

fn emit_param(name: &str, ty: &str) -> Parameter {
    Parameter { name: name.to_string(), ty: ty.to_string() }
}

fn emit_route(
    verb: &str,
    template: &str,
    extra: &[&str],
    inputs: Vec<Parameter>,
    output: Option<&str>,
    server: &str,
) -> Route {
    let mut attrs = vec![Attribute {
        path: vec![verb.to_string()],
        lit: Some(LitStr { token: format!("\"{}\"", template), value: template.to_string() }),
        tokens: format!("#[{}(\"{}\")]", verb, template),
    }];
    for name in extra {
        attrs.push(Attribute {
            path: vec![name.to_string()],
            lit: None,
            tokens: format!("#[{}]", name),
        });
    }
    let method = Method {
        attrs,
        defaultness: false,
        receiver: Receiver::Reference,
        asyncness: true,
        unsafety: false,
        abi: false,
        variadic: false,
        generics: 0,
        ident: "index".to_string(),
        inputs,
        output: output.map(|s| s.to_string()),
    };
    Route::new(&method, server).unwrap()
}

fn json_route() -> Route {
    emit_route(
        "post",
        "/{path}",
        &[],
        vec![emit_param("path", "i32"), emit_param("payload", "web::Json<SimpleData>")],
        Some("web::Json<SimpleData>"),
        "JsonServer",
    )
}

#[test]
fn server_handler_decodes_and_calls_in_declared_order() {
    let server = ServerRoute::from(json_route());
    let mut code = String::new();
    server.to_tokens(&mut code);
    let expected = "\
async fn index(server: phalanx::reexports::web::Data<JsonServer>, phalanx::reexports::web::Path((path)): phalanx::reexports::web::Path<(i32)>, payload: web::Json<SimpleData>) -> web::Json<SimpleData> {
    let res = server.into_inner().index(path, payload).await;
    res
}
let __resource = phalanx::reexports::Resource::new(\"/{path}\")
    .name(\"index\")
    .guard(phalanx::reexports::guard::Post())
    .to(index);
__config.service(__resource);
";
    assert_eq!(code, expected);
}

#[test]
fn server_handler_of_a_method_that_returns_nothing() {
    let route = emit_route("get", "/", &[], vec![], None, "PayloadServer");
    let server = ServerRoute::from(route);
    assert_eq!(server.fn_name(), "index");
    let mut code = String::new();
    server.to_tokens(&mut code);
    let expected = "\
async fn index(server: phalanx::reexports::web::Data<PayloadServer>, ) -> phalanx::server::UnitResponder {
    let res = server.into_inner().index().await;
    phalanx::server::UnitResponder
}
let __resource = phalanx::reexports::Resource::new(\"/\")
    .name(\"index\")
    .guard(phalanx::reexports::guard::Get())
    .to(index);
__config.service(__resource);
";
    assert_eq!(code, expected);
}

#[test]
fn server_handler_with_two_path_parameters() {
    let route = emit_route(
        "get",
        "/{id}/{name}/index.html",
        &["inline"],
        vec![emit_param("id", "u32"), emit_param("name", "String")],
        Some("String"),
        "SimpleServer",
    );
    let mut code = "// before\n".to_string();
    ServerRoute::from(route).to_tokens(&mut code);
    let expected = "\
// before
#[inline]
async fn index(server: phalanx::reexports::web::Data<SimpleServer>, phalanx::reexports::web::Path((id, name)): phalanx::reexports::web::Path<(u32, String)>, ) -> String {
    let res = server.into_inner().index(id, name).await;
    res
}
let __resource = phalanx::reexports::Resource::new(\"/{id}/{name}/index.html\")
    .name(\"index\")
    .guard(phalanx::reexports::guard::Get())
    .to(index);
__config.service(__resource);
";
    assert_eq!(code, expected);
}

#[test]
fn client_stub_with_path_and_payload() {
    let client = ClientRoute::from(json_route());
    let mut code = String::new();
    client.to_tokens(&mut code);
    let expected = "\
pub async fn index(&self, path: i32, payload: web::Json<SimpleData>, ) -> Result<web::Json<SimpleData>, Box<dyn std::error::Error>> {
    let __client = phalanx::client::PhalanxClient::client(self);
    let __content_type = phalanx::client::ContentType::from(&payload);
    let __req = __client.client.post(&__client.format_url(&format!(\"/{path}\", path = path)))
        .header(\"content-type\", __content_type.header_value())
        .body({
            let body: phalanx::reexports::Body = std::convert::TryFrom::try_from(payload)?;
            body
        });
    let __res = phalanx::client::PhalanxResponse::from(__req.send().await?);
    Ok(<web::Json<SimpleData> as phalanx::util::AsyncTryFrom<phalanx::client::PhalanxResponse>>::try_from(__res).await?)
}
";
    assert_eq!(code, expected);
}

#[test]
fn client_stub_without_arguments() {
    let route = emit_route("get", "/", &["inline"], vec![], None, "PayloadServer");
    let mut code = String::new();
    ClientRoute::from(route).to_tokens(&mut code);
    let expected = "\
#[inline]
pub async fn index(&self, ) -> Result<(), Box<dyn std::error::Error>> {
    let __client = phalanx::client::PhalanxClient::client(self);
    let __req = __client.client.get(&__client.format_url(\"/\"));
    let __res = phalanx::client::PhalanxResponse::from(__req.send().await?);
    Ok(<() as phalanx::util::AsyncTryFrom<phalanx::client::PhalanxResponse>>::try_from(__res).await?)
}
";
    assert_eq!(code, expected);
}

#[test]
fn client_stub_formats_each_path_parameter_by_name() {
    let route = emit_route(
        "delete",
        "/{id}/{name}",
        &[],
        vec![emit_param("name", "String"), emit_param("id", "u32")],
        Some("String"),
        "S",
    );
    let mut code = String::new();
    ClientRoute::from(route).to_tokens(&mut code);
    assert!(code.contains(
        "__client.client.delete(&__client.format_url(&format!(\"/{id}/{name}\", name = name, id = id)));"
    ));
    assert!(code.starts_with("pub async fn index(&self, name: String, id: u32, ) -> Result<String, "));
}

#[test]
fn stub_call_with_one_path_parameter_and_no_payload() {
    let route = emit_route("get", "/{path}", &[], vec![emit_param("path", "i32")], None, "S");
    let stub = ClientRoute::from(route);
    let client = Client::url("http://localhost:8080");
    let request = stub.request(&client, &vec!["7".to_string()], None).unwrap();
    assert_eq!(request.method, MethodType::Get);
    assert_eq!(request.url, "http://localhost:8080/7");
    assert_eq!(request.content_type, None);
    assert_eq!(request.body, None);
}

#[test]
fn stub_call_with_text_payload() {
    let route = emit_route(
        "post",
        "/{path}",
        &[],
        vec![emit_param("path", "i32"), emit_param("payload", "String")],
        None,
        "S",
    );
    let stub = ClientRoute::from(route);
    let client = Client::url("http://h");
    let request = stub
        .request(&client, &vec!["0".to_string()], Some(Payload::Text("héllo".to_string())))
        .unwrap();
    assert_eq!(request.method, MethodType::Post);
    assert_eq!(request.url, "http://h/0");
    assert_eq!(request.content_type, Some(ContentType::TEXT_PLAIN));
    assert_eq!(request.body, Some("héllo".as_bytes().to_vec()));
}

#[test]
fn stub_call_with_json_payload() {
    let stub = ClientRoute::from(json_route());
    let client = Client::url("http://h");
    let body = b"{\"data\":5}".to_vec();
    let request =
        stub.request(&client, &vec!["3".to_string()], Some(Payload::Json(body.clone()))).unwrap();
    assert_eq!(request.url, "http://h/3");
    assert_eq!(request.content_type, Some(ContentType::APPLICATION_JSON));
    assert_eq!(request.body, Some(body));
}

#[test]
fn stub_call_puts_values_by_declaration_order() {
    let route = emit_route(
        "get",
        "/{id}/{name}/index.html",
        &[],
        vec![emit_param("name", "String"), emit_param("id", "u32")],
        None,
        "S",
    );
    let stub = ClientRoute::from(route);
    let client = Client::url("http://h");
    let request =
        stub.request(&client, &vec!["World".to_string(), "42".to_string()], None).unwrap();
    assert_eq!(request.url, "http://h/42/World/index.html");
}

#[test]
fn stub_call_that_does_not_fit_the_route() {
    let stub = ClientRoute::from(json_route());
    let client = Client::url("http://h");
    assert_eq!(stub.request(&client, &vec![], Some(Payload::Json(vec![]))), None);
    assert_eq!(stub.request(&client, &vec!["1".to_string()], None), None);
    assert_eq!(
        stub.request(
            &client,
            &vec!["1".to_string(), "2".to_string()],
            Some(Payload::Json(vec![]))
        ),
        None
    );
    let route = emit_route("get", "/", &[], vec![], None, "S");
    let stub = ClientRoute::from(route);
    assert_eq!(stub.request(&client, &vec![], Some(Payload::Text(String::new()))), None);
}

#[test]
fn both_sides_agree_on_verb_and_template() {
    let route = json_route();
    let mut server = String::new();
    ServerRoute::from(route.clone()).to_tokens(&mut server);
    let mut client = String::new();
    ClientRoute::from(route).to_tokens(&mut client);
    assert!(server.contains("Resource::new(\"/{path}\")"));
    assert!(server.contains("guard::Post()"));
    assert!(client.contains(".post(&__client.format_url(&format!(\"/{path}\","));
}
