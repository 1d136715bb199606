use server_fn::callable::{
    execute_on_server, finish_on_client, finish_on_server, respond, run_on_client, run_on_server,
    ServerFn,
};
use server_fn::client::{reached, Client};
use server_fn::codec::{arguments, results, FromReq, FromRes, IntoReq, IntoRes, Json, PostUrl};
use server_fn::error::ServerFnError;
use server_fn::registry::{handle_server_fn, register_explicit, Registry};
use server_fn::request::{Method, Request};
use server_fn::response::Response;

fn json_encode<T: serde::Serialize>(value: &T) -> Result<String, String> {
    serde_json::to_string(value).map_err(|e| e.to_string())
}

fn json_decode<T: serde::de::DeserializeOwned>(text: &str) -> Result<T, String> {
    serde_json::from_str(text).map_err(|e| e.to_string())
}

/// Divides `a` by `b`.
#[derive(Debug, PartialEq)]
struct Divide {
    a: i64,
    b: i64,
}

#[derive(Debug, PartialEq)]
struct Quotient(i64);

impl IntoReq<Json> for Divide {
    fn into_req(self, path: &str) -> Result<Request, ServerFnError> {
        Json::into_req(json_encode(&(self.a, self.b)), path)
    }
}

impl FromReq<Json> for Divide {
    fn from_req(req: Request) -> Result<Self, ServerFnError> {
        let text = Json::from_req(req)?;
        let (a, b): (i64, i64) = arguments(json_decode(&text))?;
        Ok(Divide { a, b })
    }
}

impl IntoRes<Json> for Quotient {
    fn into_res(self) -> Result<Response, ServerFnError> {
        Json::into_res(json_encode(&self.0))
    }
}

impl FromRes<Json> for Quotient {
    fn from_res(res: Response) -> Result<Self, ServerFnError> {
        let text = Json::from_res(res)?;
        Ok(Quotient(results(json_decode(&text))?))
    }
}

/// Hands each request straight to the server side of `Divide`.
struct Loopback;

impl Client for Loopback {
    fn send(req: Request) -> Result<Response, ServerFnError> {
        Ok(run_on_server::<Divide>(req))
    }
}

impl ServerFn for Divide {
    const PATH: &'static str = "/api/divide";
    type Client = Loopback;
    type Output = Quotient;
    type InputEncoding = Json;
    type OutputEncoding = Json;

    fn run_body(self) -> Result<Quotient, ServerFnError> {
        if self.b == 0 {
            Err(ServerFnError::ServerError("division by zero".to_string()))
        } else {
            Ok(Quotient(self.a / self.b))
        }
    }
}

fn post(text: &str) -> Request {
    Request::try_new_post("/api/divide", "application/json", text.to_string()).unwrap()
}

#[test]
fn url_is_the_path() {
    assert_eq!(Divide::url(), "/api/divide");
    assert_eq!(Divide::PATH, "/api/divide");
}

#[test]
fn call_is_executed_on_the_server() {
    let res = execute_on_server::<Divide>(post("[7,2]")).unwrap();
    assert_eq!(
        res,
        Response {
            status: 200,
            content_type: Some("application/json".to_string()),
            body: vec![b"3".to_vec()],
        }
    );
    assert_eq!(run_on_server::<Divide>(post("[7,2]")), res);
}

#[test]
fn truncated_arguments_are_answered_with_an_internal_error() {
    let res = run_on_server::<Divide>(post("{\"foo\":"));
    assert_eq!(res.status, 500);
    let text = res.try_into_string().unwrap();
    assert!(text.contains("deserializing"));
    assert!(text.starts_with("error deserializing server function arguments: "));
}

#[test]
fn arguments_that_cannot_be_decoded_end_the_call() {
    let outcome = execute_on_server::<Divide>(post("[7]"));
    assert!(matches!(outcome, Err(ServerFnError::Args(_))));
    let outcome = execute_on_server::<Divide>(
        Request::try_new_post_bytes("/api/divide", "application/json", vec![0xff]).unwrap(),
    );
    assert!(matches!(outcome, Err(ServerFnError::Deserialization(_))));
}

#[test]
fn failed_body_is_answered_with_an_internal_error() {
    let outcome = execute_on_server::<Divide>(post("[1,0]"));
    assert!(matches!(
        outcome,
        Err(ServerFnError::ServerError(ref text)) if text == "division by zero"
    ));
    let res = run_on_server::<Divide>(post("[1,0]"));
    assert_eq!(res.status, 500);
    assert_eq!(res.content_type, None);
    assert_eq!(
        res.try_into_string().unwrap(),
        "error running server function: division by zero"
    );
}

#[test]
fn outcome_is_answered_either_way() {
    let done = Response::plain(200, "done".to_string());
    assert_eq!(respond(Ok(done.clone())), done);
    let res = respond(Err(ServerFnError::Serialization("nan".to_string())));
    assert_eq!(res.status, 500);
    assert_eq!(
        res.try_into_string().unwrap(),
        "error serializing server function arguments: nan"
    );
}

#[test]
fn result_of_the_body_is_encoded_and_answered() {
    let res = finish_on_server::<Quotient, Json>(Ok(Quotient(-4)));
    assert_eq!(res.status, 200);
    assert_eq!(res.try_into_string().unwrap(), "-4");
    let res = finish_on_server::<Quotient, Json>(Err(ServerFnError::ServerError("x".to_string())));
    assert_eq!(res.status, 500);
    assert_eq!(res.try_into_string().unwrap(), "error running server function: x");
}

#[test]
fn call_from_the_client_gives_the_result() {
    assert_eq!(run_on_client(Divide { a: 7, b: 2 }).unwrap(), Quotient(3));
    assert_eq!(
        run_on_client(Divide { a: i64::MIN, b: 1 }).unwrap(),
        Quotient(i64::MIN)
    );
}

#[test]
fn failure_on_the_server_reaches_the_caller_as_an_error() {
    let output = run_on_client(Divide { a: 1, b: 0 });
    assert!(matches!(output, Err(ServerFnError::Deserialization(_))));
}

#[test]
fn answer_of_the_transport_is_decoded() {
    let res = Response::try_from_string("application/json", "12".to_string()).unwrap();
    assert_eq!(finish_on_client::<Quotient, Json>(Ok(res)).unwrap(), Quotient(12));
    let output = finish_on_client::<Quotient, Json>(Err(ServerFnError::Request("offline".to_string())));
    assert!(matches!(output, Err(ServerFnError::Request(ref text)) if text == "offline"));
    let res = Response::try_from_string("application/json", "\"twelve\"".to_string()).unwrap();
    assert!(matches!(
        finish_on_client::<Quotient, Json>(Ok(res)),
        Err(ServerFnError::Deserialization(_))
    ));
}

#[test]
fn transport_failure_is_a_request_failure() {
    assert!(matches!(
        reached(Err("connection refused".to_string())),
        Err(ServerFnError::Request(ref text)) if text == "connection refused"
    ));
    let res = Response::plain(200, "x".to_string());
    assert_eq!(reached(Ok(res.clone())).unwrap(), res);
}

/// Greets by name; its transport never reaches a server.
struct Greet {
    name: String,
}

struct Greeting(String);

struct Offline;

impl Client for Offline {
    fn send(req: Request) -> Result<Response, ServerFnError> {
        assert_eq!(req.method, Method::Post);
        assert_eq!(req.path, "/api/greet");
        reached(Err("offline".to_string()))
    }
}

impl IntoReq<PostUrl> for Greet {
    fn into_req(self, path: &str) -> Result<Request, ServerFnError> {
        if self.name.is_empty() {
            PostUrl::into_req(Err("empty name".to_string()), path)
        } else {
            PostUrl::into_req(Ok(format!("name={}", self.name)), path)
        }
    }
}

impl FromReq<PostUrl> for Greet {
    fn from_req(req: Request) -> Result<Self, ServerFnError> {
        let text = PostUrl::from_req(req)?;
        match text.strip_prefix("name=") {
            Some(name) => Ok(Greet { name: name.to_string() }),
            None => Err(ServerFnError::MissingArg("name".to_string())),
        }
    }
}

impl IntoRes<Json> for Greeting {
    fn into_res(self) -> Result<Response, ServerFnError> {
        Json::into_res(json_encode(&self.0))
    }
}

impl FromRes<Json> for Greeting {
    fn from_res(res: Response) -> Result<Self, ServerFnError> {
        Ok(Greeting(results(json_decode(&Json::from_res(res)?))?))
    }
}

impl ServerFn for Greet {
    const PATH: &'static str = "/api/greet";
    type Client = Offline;
    type Output = Greeting;
    type InputEncoding = PostUrl;
    type OutputEncoding = Json;

    fn run_body(self) -> Result<Greeting, ServerFnError> {
        Ok(Greeting(format!("Hello, {}!", self.name)))
    }
}

#[test]
fn unreachable_server_is_reported_to_the_caller() {
    let output = run_on_client(Greet { name: "Ada".to_string() });
    assert!(matches!(output, Err(ServerFnError::Request(ref text)) if text == "offline"));
}

#[test]
fn arguments_that_cannot_be_encoded_are_not_sent() {
    let output = run_on_client(Greet { name: String::new() });
    assert!(matches!(
        output,
        Err(ServerFnError::Serialization(ref text)) if text == "empty name"
    ));
}

#[test]
fn input_and_output_formats_may_differ() {
    let req = Request::try_new_post("/api/greet", "text/plain", "name=Ada".to_string()).unwrap();
    let res = run_on_server::<Greet>(req);
    assert_eq!(res.status, 200);
    assert_eq!(res.content_type.as_deref(), Some("application/json"));
    assert_eq!(res.try_into_string().unwrap(), "\"Hello, Ada!\"");
}

#[test]
fn missing_argument_is_answered_with_an_internal_error() {
    let req = Request::try_new_post("/api/greet", "text/plain", "who=Ada".to_string()).unwrap();
    let res = run_on_server::<Greet>(req);
    assert_eq!(res.status, 500);
    assert_eq!(res.try_into_string().unwrap(), "missing argument name");
}

#[test]
fn registered_callables_are_served_by_path() {
    let mut registry: Registry<fn(Request) -> Response> = Registry::new();
    register_explicit::<Divide, _>(&mut registry, run_on_server::<Divide>);
    register_explicit::<Greet, _>(&mut registry, run_on_server::<Greet>);
    assert_eq!(registry.get("/api/divide").unwrap().path(), "/api/divide");
    assert_eq!(registry.get("/api/greet").unwrap().path(), "/api/greet");
    let res = handle_server_fn(&registry, post("[9,3]"));
    assert_eq!(res.try_into_string().unwrap(), "3");
    let req = Request::try_new_post("/api/greet", "text/plain", "name=Bo".to_string()).unwrap();
    let res = handle_server_fn(&registry, req);
    assert_eq!(res.try_into_string().unwrap(), "\"Hello, Bo!\"");
    let req = Request::try_new_post("/api/none", "text/plain", "name=Bo".to_string()).unwrap();
    assert_eq!(handle_server_fn(&registry, req).status, 400);
}
