//! The client side at run time: where a request goes, what it carries, and
//! how a response becomes a typed value.
//!
//! Nothing here performs I/O. A request is described, to be sent by the
//! caller; a response is decoded from the status and the body that the caller
//! has received.

use vstd::prelude::*;
use vstd::utf8::{decode_utf8, encode_utf8, valid_utf8};
use crate::route::route_attr::MethodType;
use crate::text::{chars_of, views};

verus! {

/// The base address of a service.
#[derive(Debug, PartialEq, Eq)]
pub struct Client {
    pub url: String,
}

impl View for Client {
    type V = Seq<char>;

    open spec fn view(&self) -> Seq<char> {
        self.url@
    }
}

impl Client {
    pub fn new(url: String) -> (client: Client)
        ensures
            client == (Client { url }),
    {
        Client { url }
    }

    pub fn url(url: &str) -> (client: Client)
        ensures
            client@ == url@,
    {
        Client::new(url.to_owned())
    }

    /// The address of a path below the base address: the two texts joined,
    /// with nothing between them.
    pub fn format_url(&self, relative_url: &str) -> (url: String)
        ensures
            url@ == self@ + relative_url@,
    {
        let mut url = self.url.clone();
        url.append(relative_url);
        url
    }
}

impl From<String> for Client {
    fn from(url: String) -> (client: Client) {
        Client::new(url)
    }
}

impl vstd::std_specs::convert::FromSpecImpl<String> for Client {
    open spec fn obeys_from_spec() -> bool {
        true
    }

    open spec fn from_spec(url: String) -> Client {
        Client { url }
    }
}

/// A type that holds the client of a service: the generated stubs are its
/// methods and reach the client through this trait.
pub trait PhalanxClient {
    fn client(&self) -> &Client;
}

/// The content type of a request body.
#[allow(non_camel_case_types)]
#[derive(Debug, PartialEq, Eq, Clone, Copy, Structural)]
pub enum ContentType {
    TEXT_PLAIN,
    APPLICATION_JSON,
}

impl ContentType {
    pub open spec fn header_text(self) -> Seq<char> {
        match self {
            ContentType::TEXT_PLAIN => "text/plain"@,
            ContentType::APPLICATION_JSON => "application/json"@,
        }
    }

    /// The value of the `content-type` header.
    pub fn header_value(self) -> (value: &'static str)
        ensures
            value@ == self.header_text(),
    {
        match self {
            ContentType::TEXT_PLAIN => "text/plain",
            ContentType::APPLICATION_JSON => "application/json",
        }
    }
}

impl From<&String> for ContentType {
    fn from(_text: &String) -> (content_type: ContentType) {
        ContentType::TEXT_PLAIN
    }
}

impl vstd::std_specs::convert::FromSpecImpl<&String> for ContentType {
    open spec fn obeys_from_spec() -> bool {
        true
    }

    open spec fn from_spec(_text: &String) -> ContentType {
        ContentType::TEXT_PLAIN
    }
}

/// What a request carries in its body: raw text, or a structured value
/// already encoded as JSON.
#[derive(Debug, PartialEq, Eq)]
pub enum Payload {
    Text(String),
    Json(Vec<u8>),
}

impl Payload {
    /// The content type by the kind of payload: `text/plain` for raw text,
    /// `application/json` for a structured value.
    pub open spec fn spec_content_type(self) -> ContentType {
        match self {
            Payload::Text(_) => ContentType::TEXT_PLAIN,
            Payload::Json(_) => ContentType::APPLICATION_JSON,
        }
    }

    /// The bytes of the body: the UTF-8 encoding of raw text, the JSON bytes
    /// as they are.
    pub open spec fn spec_bytes(self) -> Seq<u8> {
        match self {
            Payload::Text(text) => encode_utf8(text@),
            Payload::Json(bytes) => bytes@,
        }
    }

    pub fn content_type(&self) -> (content_type: ContentType)
        ensures
            content_type == self.spec_content_type(),
    {
        match self {
            Payload::Text(_) => ContentType::TEXT_PLAIN,
            Payload::Json(_) => ContentType::APPLICATION_JSON,
        }
    }

    pub fn into_bytes(self) -> (bytes: Vec<u8>)
        ensures
            bytes@ == self.spec_bytes(),
    {
        match self {
            Payload::Text(text) => text.as_str().as_bytes_vec(),
            Payload::Json(bytes) => bytes,
        }
    }
}

/// Whether `template` holds the placeholder of `name` at position `at`: an
/// opening brace, the name, a closing brace.
pub open spec fn placeholder_at(template: Seq<char>, at: int, name: Seq<char>) -> bool {
    &&& 0 <= at
    &&& at + name.len() + 2 <= template.len()
    &&& template[at] == '{'
    &&& template.subrange(at + 1, at + 1 + name.len()) == name
    &&& template[at + 1 + name.len()] == '}'
}

/// The first of `names` whose placeholder `template` holds at `at`.
pub open spec fn binding_at(template: Seq<char>, at: int, names: Seq<Seq<char>>) -> Option<int>
    decreases names.len(),
{
    if names.len() == 0 {
        None
    } else {
        match binding_at(template, at, names.drop_last()) {
            Some(k) => Some(k),
            None => if placeholder_at(template, at, names.last()) {
                Some(names.len() - 1)
            } else {
                None
            },
        }
    }
}

/// The rest of `template` from `at` on, with each placeholder of one of
/// `names` replaced by the value of that name. The template is read once from
/// left to right; what a value holds is never read as a placeholder, and any
/// other text is kept as it is.
pub open spec fn substituted_from(
    template: Seq<char>,
    at: int,
    names: Seq<Seq<char>>,
    values: Seq<Seq<char>>,
) -> Seq<char>
    decreases template.len() - at,
{
    if at < 0 || at >= template.len() {
        Seq::empty()
    } else {
        proof {
            lemma_binding_at(template, at, names);
        }
        match binding_at(template, at, names) {
            Some(k) => values[k] + substituted_from(
                template,
                at + names[k].len() + 2,
                names,
                values,
            ),
            None => seq![template[at]] + substituted_from(template, at + 1, names, values),
        }
    }
}

/// `template` with each placeholder of one of `names` replaced by the value
/// of that name.
pub open spec fn substituted(
    template: Seq<char>,
    names: Seq<Seq<char>>,
    values: Seq<Seq<char>>,
) -> Seq<char> {
    substituted_from(template, 0, names, values)
}

/// A binding, where there is one, is one of the names and its placeholder
/// stands at the position.
pub proof fn lemma_binding_at(template: Seq<char>, at: int, names: Seq<Seq<char>>)
    ensures
        binding_at(template, at, names) matches Some(k) ==> 0 <= k < names.len() && placeholder_at(
            template,
            at,
            names[k],
        ),
        binding_at(template, at, names) is None ==> forall|k: int|
            0 <= k < names.len() ==> !placeholder_at(template, at, #[trigger] names[k]),
    decreases names.len(),
{
    if names.len() > 0 {
        lemma_binding_at(template, at, names.drop_last());
        if binding_at(template, at, names.drop_last()) is None {
            assert forall|k: int| 0 <= k < names.len() && binding_at(template, at, names)
                is None implies !placeholder_at(template, at, #[trigger] names[k]) by {
                if k < names.len() - 1 {
                    assert(names[k] == names.drop_last()[k]);
                }
            }
        } else {
            let k = binding_at(template, at, names.drop_last())->0;
            assert(names[k] == names.drop_last()[k]);
        }
    }
}

/// A template that is one placeholder becomes the value of its name.
pub proof fn lemma_placeholder_alone_is_replaced(name: Seq<char>, value: Seq<char>)
    ensures
        substituted(seq!['{'] + name + seq!['}'], seq![name], seq![value]) == value,
{
    let template = seq!['{'] + name + seq!['}'];
    let names = seq![name];
    let values = seq![value];
    assert(template.subrange(1, 1 + name.len() as int) =~= name);
    assert(placeholder_at(template, 0, name));
    assert(names.drop_last() =~= Seq::<Seq<char>>::empty());
    assert(binding_at(template, 0, names.drop_last()) is None);
    assert(binding_at(template, 0, names) == Some(0int));
    assert(substituted_from(template, template.len() as int, names, values) =~= Seq::<char>::empty());
    assert(substituted(template, names, values) =~= value);
}

/// A template without an opening brace is left as it is.
pub proof fn lemma_plain_template_is_kept(
    template: Seq<char>,
    at: int,
    names: Seq<Seq<char>>,
    values: Seq<Seq<char>>,
)
    requires
        0 <= at <= template.len(),
        forall|i: int| at <= i < template.len() ==> template[i] != '{',
    ensures
        substituted_from(template, at, names, values) == template.subrange(
            at,
            template.len() as int,
        ),
    decreases template.len() - at,
{
    if at < template.len() {
        lemma_binding_at(template, at, names);
        lemma_plain_template_is_kept(template, at + 1, names, values);
        assert(template.subrange(at, template.len() as int) =~= seq![template[at]]
            + template.subrange(at + 1, template.len() as int));
    } else {
        assert(template.subrange(at, template.len() as int) =~= Seq::<char>::empty());
    }
}

fn holds_placeholder(template: &Vec<char>, at: usize, name: &Vec<char>) -> (r: bool)
    requires
        at < template.len(),
    ensures
        r == placeholder_at(template@, at as int, name@),
{
    if name.len() > template.len() || template.len() - name.len() < 2 || at > template.len()
        - name.len() - 2 {
        return false;
    }
    if template[at] != '{' || template[at + 1 + name.len()] != '}' {
        return false;
    }
    let mut i: usize = 0;
    while i < name.len()
        invariant
            i <= name.len(),
            at + name.len() + 2 <= template.len(),
            forall|j: int| 0 <= j < i ==> template@[at + 1 + j] == name@[j],
        decreases name.len() - i,
    {
        if template[at + 1 + i] != name[i] {
            assert(template@.subrange(at + 1, at + 1 + name.len())[i as int] != name@[i as int]);
            return false;
        }
        i += 1;
    }
    assert(template@.subrange(at + 1, at + 1 + name.len()) =~= name@);
    true
}

/// The view of a list of names given as characters.
pub open spec fn char_views(names: Seq<Vec<char>>) -> Seq<Seq<char>> {
    names.map_values(|n: Vec<char>| n@)
}

fn find_binding(template: &Vec<char>, at: usize, names: &Vec<Vec<char>>) -> (r: Option<usize>)
    requires
        at < template.len(),
    ensures
        match r {
            Some(k) => binding_at(template@, at as int, char_views(names@)) == Some(k as int),
            None => binding_at(template@, at as int, char_views(names@)) is None,
        },
{
    let ghost all = char_views(names@);
    let mut k: usize = 0;
    assert(all.take(0) =~= Seq::<Seq<char>>::empty());
    while k < names.len()
        invariant
            k <= names.len(),
            at < template.len(),
            all == char_views(names@),
            binding_at(template@, at as int, all.take(k as int)) is None,
        decreases names.len() - k,
    {
        proof {
            assert(all.take(k + 1).drop_last() =~= all.take(k as int));
            assert(all.take(k + 1).last() == names@[k as int]@);
        }
        if holds_placeholder(template, at, &names[k]) {
            proof {
                lemma_binding_prefix(template@, at as int, all, k + 1);
            }
            return Some(k);
        }
        k += 1;
    }
    assert(all.take(k as int) =~= all);
    None
}

/// A binding among the first names is the binding among all names.
pub proof fn lemma_binding_prefix(template: Seq<char>, at: int, names: Seq<Seq<char>>, n: int)
    requires
        0 <= n <= names.len(),
        binding_at(template, at, names.take(n)) is Some,
    ensures
        binding_at(template, at, names) == binding_at(template, at, names.take(n)),
    decreases names.len(),
{
    if n == names.len() {
        assert(names.take(n) =~= names);
    } else {
        assert(names.drop_last().take(n) =~= names.take(n));
        lemma_binding_prefix(template, at, names.drop_last(), n);
    }
}

fn all_chars(texts: &Vec<String>) -> (r: Vec<Vec<char>>)
    ensures
        char_views(r@) == views(texts@),
{
    let mut out: Vec<Vec<char>> = Vec::new();
    let mut i: usize = 0;
    while i < texts.len()
        invariant
            i <= texts.len(),
            out.len() == i,
            forall|j: int| 0 <= j < i ==> out@[j]@ == texts@[j]@,
        decreases texts.len() - i,
    {
        out.push(chars_of(texts[i].as_str()));
        i += 1;
    }
    assert(char_views(out@) =~= views(texts@));
    out
}

/// Builds a path from a template: each placeholder of one of `names` is
/// replaced by the value at the same position in `values`. `None` where the
/// two lists differ in length.
pub fn format_path(template: &str, names: &Vec<String>, values: &Vec<String>) -> (r: Option<
    String,
>)
    ensures
        r is Some <==> names.len() == values.len(),
        r matches Some(path) ==> path@ == substituted(template@, views(names@), views(values@)),
{
    if names.len() != values.len() {
        return None;
    }
    let chars = chars_of(template);
    let keys = all_chars(names);
    let ghost t = template@;
    let ghost ns = views(names@);
    let ghost vs = views(values@);
    let mut out = String::new();
    let mut run: usize = 0;
    let mut at: usize = 0;
    assert(t.subrange(0, 0) =~= Seq::<char>::empty());
    while at < chars.len()
        invariant
            run <= at <= chars.len(),
            chars@ == t,
            t == template@,
            ns == views(names@),
            vs == views(values@),
            char_views(keys@) == ns,
            names.len() == values.len(),
            out@ + t.subrange(run as int, at as int) + substituted_from(t, at as int, ns, vs)
                == substituted(t, ns, vs),
        decreases chars.len() - at,
    {
        proof {
            lemma_binding_at(t, at as int, ns);
        }
        match find_binding(&chars, at, &keys) {
            Some(k) => {
                let ghost before = out@;
                assert(keys@[k as int]@ == ns[k as int]);
                out.append(template.substring_char(run, at));
                out.append(values[k].as_str());
                let next = at + keys[k].len() + 2;
                proof {
                    assert(vs[k as int] == values@[k as int]@);
                    assert(out@ + t.subrange(next as int, next as int) + substituted_from(
                        t,
                        next as int,
                        ns,
                        vs,
                    ) =~= before + t.subrange(run as int, at as int) + substituted_from(
                        t,
                        at as int,
                        ns,
                        vs,
                    ));
                }
                at = next;
                run = next;
            },
            None => {
                proof {
                    assert(t.subrange(run as int, at + 1) =~= t.subrange(run as int, at as int)
                        + seq![t[at as int]]);
                    assert(out@ + t.subrange(run as int, at + 1) + substituted_from(
                        t,
                        at + 1,
                        ns,
                        vs,
                    ) =~= out@ + t.subrange(run as int, at as int) + substituted_from(
                        t,
                        at as int,
                        ns,
                        vs,
                    ));
                }
                at += 1;
            },
        }
    }
    out.append(template.substring_char(run, at));
    assert(out@ =~= substituted(t, ns, vs));
    Some(out)
}

/// The description of one request: the verb, the full address, and the body
/// with its content type where the request carries one.
#[derive(Debug, PartialEq, Eq)]
pub struct PhalanxRequest {
    pub method: MethodType,
    pub url: String,
    pub content_type: Option<ContentType>,
    pub body: Option<Vec<u8>>,
}

/// What was received: the status code and the bytes of the body.
#[derive(Debug, PartialEq, Eq)]
pub struct PhalanxResponse {
    pub status: u16,
    pub body: Vec<u8>,
}

/// Whether a status code reports an error of the client or of the server.
pub open spec fn is_error_status(status: u16) -> bool {
    400 <= status < 600
}

/// `std::string::FromUtf8Error`, carried as the cause of an error and never
/// looked into.
#[verifier::external_type_specification]
#[verifier::external_body]
pub struct ExFromUtf8Error(std::string::FromUtf8Error);

/// `serde_json::Error`, carried as the cause of an error and never looked
/// into.
#[verifier::external_type_specification]
#[verifier::external_body]
pub struct ExSerdeJsonError(serde_json::Error);

/// Why a call of a client stub gave no value.
#[derive(Debug)]
pub enum PhalanxClientError {
    /// The request could not be sent, or no response came back.
    TransportError,
    /// The server answered with this status, which reports an error.
    Status(u16),
    /// The body of the response is not UTF-8.
    ParseError(std::string::FromUtf8Error),
    /// The body of the response is not the JSON of the declared type.
    SerdeJsonError(serde_json::Error),
}

impl From<std::string::FromUtf8Error> for PhalanxClientError {
    fn from(cause: std::string::FromUtf8Error) -> (e: PhalanxClientError) {
        PhalanxClientError::ParseError(cause)
    }
}

impl vstd::std_specs::convert::FromSpecImpl<std::string::FromUtf8Error> for PhalanxClientError {
    open spec fn obeys_from_spec() -> bool {
        true
    }

    open spec fn from_spec(cause: std::string::FromUtf8Error) -> PhalanxClientError {
        PhalanxClientError::ParseError(cause)
    }
}

impl From<serde_json::Error> for PhalanxClientError {
    fn from(cause: serde_json::Error) -> (e: PhalanxClientError) {
        PhalanxClientError::SerdeJsonError(cause)
    }
}

impl vstd::std_specs::convert::FromSpecImpl<serde_json::Error> for PhalanxClientError {
    open spec fn obeys_from_spec() -> bool {
        true
    }

    open spec fn from_spec(cause: serde_json::Error) -> PhalanxClientError {
        PhalanxClientError::SerdeJsonError(cause)
    }
}

/// The kinds of error of a call, without their causes.
#[derive(Debug, PartialEq, Eq, Clone, Copy, Structural)]
pub enum ErrorKind {
    /// The request could not be sent, or no response came back.
    Transport,
    /// The server answered with this status, which reports an error.
    Status(u16),
    /// The body of the response could not be decoded.
    Parse,
}

/// What a response is decoded to where the method returns nothing: the
/// status alone decides.
pub open spec fn unit_decoded(res: PhalanxResponse) -> Result<(), ErrorKind> {
    if is_error_status(res.status) {
        Err(ErrorKind::Status(res.status))
    } else {
        Ok(())
    }
}

/// What a response is decoded to as raw text: the status decides first, then
/// the body is read as UTF-8.
pub open spec fn text_decoded(res: PhalanxResponse) -> Result<Seq<char>, ErrorKind> {
    if is_error_status(res.status) {
        Err(ErrorKind::Status(res.status))
    } else if valid_utf8(res.body@) {
        Ok(decode_utf8(res.body@))
    } else {
        Err(ErrorKind::Parse)
    }
}

/// What a response is decoded to as a structured value, given what the JSON
/// codec made of its body: the status decides first.
pub open spec fn json_decoded<T>(status: u16, parsed: Result<T, serde_json::Error>) -> Result<
    T,
    ErrorKind,
> {
    if is_error_status(status) {
        Err(ErrorKind::Status(status))
    } else {
        match parsed {
            Ok(value) => Ok(value),
            Err(_) => Err(ErrorKind::Parse),
        }
    }
}

/// The outcome of decoding as nothing, with the kind of its error.
pub open spec fn unit_outcome(r: Result<(), PhalanxClientError>) -> Result<(), ErrorKind> {
    match r {
        Ok(_) => Ok(()),
        Err(e) => Err(e.spec_kind()),
    }
}

/// The outcome of decoding as text, with the kind of its error.
pub open spec fn text_outcome(r: Result<String, PhalanxClientError>) -> Result<
    Seq<char>,
    ErrorKind,
> {
    match r {
        Ok(text) => Ok(text@),
        Err(e) => Err(e.spec_kind()),
    }
}

/// A response whose status reports an error of the client or of the server,
/// such as 500, is decoded as that status error and as nothing else: never as
/// a value and never as a parse error, whatever kind of value is asked for,
/// whatever the body holds and whatever the codec made of it.
pub proof fn lemma_error_status_is_never_a_value<T>(
    res: PhalanxResponse,
    parsed: Result<T, serde_json::Error>,
)
    requires
        is_error_status(res.status),
    ensures
        unit_decoded(res) == Err::<(), ErrorKind>(ErrorKind::Status(res.status)),
        text_decoded(res) == Err::<Seq<char>, ErrorKind>(ErrorKind::Status(res.status)),
        json_decoded(res.status, parsed) == Err::<T, ErrorKind>(ErrorKind::Status(res.status)),
{
}

/// A server error is an error status: every status from 500 to 599 is
/// decoded as a status error.
pub proof fn lemma_server_error_is_a_status_error(res: PhalanxResponse)
    requires
        500 <= res.status < 600,
    ensures
        unit_decoded(res) == Err::<(), ErrorKind>(ErrorKind::Status(res.status)),
        text_decoded(res) == Err::<Seq<char>, ErrorKind>(ErrorKind::Status(res.status)),
{
}

impl PhalanxClientError {
    pub open spec fn spec_kind(self) -> ErrorKind {
        match self {
            PhalanxClientError::TransportError => ErrorKind::Transport,
            PhalanxClientError::Status(status) => ErrorKind::Status(status),
            PhalanxClientError::ParseError(_) => ErrorKind::Parse,
            PhalanxClientError::SerdeJsonError(_) => ErrorKind::Parse,
        }
    }

    /// The kind of the error, without its cause.
    pub fn kind(&self) -> (kind: ErrorKind)
        ensures
            kind == self.spec_kind(),
    {
        match self {
            PhalanxClientError::TransportError => ErrorKind::Transport,
            PhalanxClientError::Status(status) => ErrorKind::Status(*status),
            PhalanxClientError::ParseError(_) => ErrorKind::Parse,
            PhalanxClientError::SerdeJsonError(_) => ErrorKind::Parse,
        }
    }

    pub open spec fn text(self) -> Seq<char> {
        match self {
            PhalanxClientError::TransportError => "error making request"@,
            PhalanxClientError::Status(_) => "error making request"@,
            PhalanxClientError::ParseError(_) => "error parsing request"@,
            PhalanxClientError::SerdeJsonError(_) => "error parsing request"@,
        }
    }

    /// The error in words.
    pub fn message(&self) -> (s: &'static str)
        ensures
            s@ == self.text(),
    {
        match self {
            PhalanxClientError::TransportError => "error making request",
            PhalanxClientError::Status(_) => "error making request",
            PhalanxClientError::ParseError(_) => "error parsing request",
            PhalanxClientError::SerdeJsonError(_) => "error parsing request",
        }
    }
}

/// `String::from_utf8` of std: the bytes become a string exactly when they
/// are valid UTF-8, and the string then has those bytes as its encoding.
#[verifier::external_body]
fn string_from_utf8(bytes: Vec<u8>) -> (r: Result<String, std::string::FromUtf8Error>)
    ensures
        r is Ok <==> valid_utf8(bytes@),
        r matches Ok(text) ==> encode_utf8(text@) == bytes@,
{
    String::from_utf8(bytes)
}

impl PhalanxResponse {
    /// Turns a response whose status reports an error into that error.
    pub fn error_for_status(self) -> (r: Result<PhalanxResponse, PhalanxClientError>)
        ensures
            is_error_status(self.status) ==> (r matches Err(PhalanxClientError::Status(status))
                && status == self.status),
            !is_error_status(self.status) ==> (r matches Ok(res) && res == self),
    {
        if 400 <= self.status && self.status < 600 {
            Err(PhalanxClientError::Status(self.status))
        } else {
            Ok(self)
        }
    }

    /// Decodes a response for a method that returns nothing: any status that
    /// reports no error is a success, whatever the body holds.
    pub fn into_unit(self) -> (r: Result<(), PhalanxClientError>)
        ensures
            unit_outcome(r) == unit_decoded(self),
            is_error_status(self.status) ==> r == Err::<(), PhalanxClientError>(
                PhalanxClientError::Status(self.status),
            ),
    {
        match self.error_for_status() {
            Err(e) => Err(e),
            Ok(_) => Ok(()),
        }
    }

    /// Decodes a response as raw text: the status is checked first, then the
    /// body is read as UTF-8.
    pub fn into_text(self) -> (r: Result<String, PhalanxClientError>)
        ensures
            text_outcome(r) == text_decoded(self),
            is_error_status(self.status) ==> r == Err::<String, PhalanxClientError>(
                PhalanxClientError::Status(self.status),
            ),
            r matches Ok(text) ==> encode_utf8(text@) == self.body@,
            r matches Err(e) ==> !is_error_status(self.status) ==> e is ParseError,
    {
        match self.error_for_status() {
            Err(e) => Err(e),
            Ok(res) => match string_from_utf8(res.body) {
                Ok(text) => {
                    proof {
                        vstd::utf8::encode_utf8_decode_utf8(text@);
                    }
                    Ok(text)
                },
                Err(cause) => Err(PhalanxClientError::from(cause)),
            },
        }
    }
}

} // verus!
