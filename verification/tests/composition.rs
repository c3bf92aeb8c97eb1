use std::cell::Cell;

use middleware_core::{
    make, CombineMiddleware, EitherEndpoint, EitherMiddleware, Endpoint, EndpointExt, FnMiddleware,
    Middleware, MiddlewareExt,
};

/// A request as the handlers of these tests see it.
#[derive(Debug, Clone, PartialEq, Eq, Default)]
struct Request {
    path: String,
    data: Option<i32>,
    trace: Vec<String>,
}

impl Request {
    fn get(path: &str) -> Request {
        Request { path: path.to_string(), data: None, trace: Vec::new() }
    }
}

#[derive(Debug, Clone, PartialEq, Eq)]
struct Response {
    status: u16,
    headers: Vec<(String, String)>,
    body: String,
}

impl Response {
    fn text(body: &str) -> Response {
        Response { status: 200, headers: Vec::new(), body: body.to_string() }
    }

    fn header(&self, name: &str) -> Option<&str> {
        self.headers.iter().find(|(n, _)| n == name).map(|(_, v)| v.as_str())
    }

    fn header_values(&self, name: &str) -> Vec<&str> {
        self.headers.iter().filter(|(n, _)| n == name).map(|(_, v)| v.as_str()).collect()
    }
}

#[derive(Debug, Clone, PartialEq, Eq)]
struct Failure(String);

/// Answers every request with the same text.
#[derive(Debug, Clone, PartialEq, Eq)]
struct Text(&'static str);

impl Endpoint for Text {
    type Request = Request;
    type Output = Response;
    type Error = Failure;

    fn call(&self, _req: Request) -> Result<Response, Failure> {
        Ok(Response::text(self.0))
    }
}

/// Answers with the number that a layer put into the request.
#[derive(Debug, Clone, PartialEq, Eq)]
struct ShowData;

impl Endpoint for ShowData {
    type Request = Request;
    type Output = Response;
    type Error = Failure;

    fn call(&self, req: Request) -> Result<Response, Failure> {
        match req.data {
            Some(n) => Ok(Response::text(&n.to_string())),
            None => Err(Failure("no data".to_string())),
        }
    }
}

/// Answers with the path, and fails on the path `/fail`.
#[derive(Debug, Clone, PartialEq, Eq)]
struct EchoPath;

impl Endpoint for EchoPath {
    type Request = Request;
    type Output = Response;
    type Error = Failure;

    fn call(&self, req: Request) -> Result<Response, Failure> {
        if req.path == "/fail" {
            Err(Failure(format!("cannot serve {}", req.path)))
        } else {
            Ok(Response::text(&format!("{}|{}", req.path, req.trace.join(","))))
        }
    }
}

#[derive(Debug, Clone, PartialEq, Eq)]
struct AddHeader<E> {
    ep: E,
    header: String,
    value: String,
}

impl<E> Endpoint for AddHeader<E>
where
    E: Endpoint<Request = Request, Output = Response, Error = Failure>,
{
    type Request = Request;
    type Output = Response;
    type Error = Failure;

    fn call(&self, req: Request) -> Result<Response, Failure> {
        let mut resp = self.ep.call(req)?;
        resp.headers.retain(|(n, _)| n != &self.header);
        resp.headers.push((self.header.clone(), self.value.clone()));
        Ok(resp)
    }
}

/// Appends one header to the response, after the inner endpoint has answered.
#[derive(Debug, Clone, PartialEq, Eq)]
struct Appending {
    name: String,
    value: String,
}

impl Appending {
    fn new(name: &str, value: &str) -> Appending {
        Appending { name: name.to_string(), value: value.to_string() }
    }
}

#[derive(Debug, Clone, PartialEq, Eq)]
struct AppendingEndpoint<E> {
    inner: E,
    name: String,
    value: String,
}

impl<E> Endpoint for AppendingEndpoint<E>
where
    E: Endpoint<Request = Request, Output = Response, Error = Failure>,
{
    type Request = Request;
    type Output = Response;
    type Error = Failure;

    fn call(&self, mut req: Request) -> Result<Response, Failure> {
        req.trace.push(self.value.clone());
        let mut resp = self.inner.call(req)?;
        resp.headers.push((self.name.clone(), self.value.clone()));
        Ok(resp)
    }
}

impl<E> Middleware<E> for Appending
where
    E: Endpoint<Request = Request, Output = Response, Error = Failure>,
{
    type Output = AppendingEndpoint<E>;

    fn transform(&self, ep: E) -> AppendingEndpoint<E> {
        AppendingEndpoint { inner: ep, name: self.name.clone(), value: self.value.clone() }
    }
}

/// Puts a number into the request before the inner endpoint sees it.
#[derive(Debug, Clone, PartialEq, Eq)]
struct AddData(i32);

impl AddData {
    fn new(value: i32) -> AddData {
        AddData(value)
    }
}

#[derive(Debug, Clone, PartialEq, Eq)]
struct AddDataEndpoint<E> {
    inner: E,
    value: i32,
}

impl<E> Endpoint for AddDataEndpoint<E>
where
    E: Endpoint<Request = Request, Output = Response, Error = Failure>,
{
    type Request = Request;
    type Output = Response;
    type Error = Failure;

    fn call(&self, mut req: Request) -> Result<Response, Failure> {
        req.data = Some(self.value);
        self.inner.call(req)
    }
}

impl<E> Middleware<E> for AddData
where
    E: Endpoint<Request = Request, Output = Response, Error = Failure>,
{
    type Output = AddDataEndpoint<E>;

    fn transform(&self, ep: E) -> AddDataEndpoint<E> {
        AddDataEndpoint { inner: ep, value: self.0 }
    }
}

fn first_branch<A, B>(either: EitherEndpoint<A, B>) -> A {
    match either {
        EitherEndpoint::A(a) => a,
        EitherEndpoint::B(_) => panic!("the second branch was taken"),
    }
}

fn second_branch<A, B>(either: EitherEndpoint<A, B>) -> B {
    match either {
        EitherEndpoint::A(_) => panic!("the first branch was taken"),
        EitherEndpoint::B(b) => b,
    }
}

fn requests() -> Vec<Request> {
    vec![
        Request::get("/"),
        Request::get("/users/7"),
        Request::get("/fail"),
        Request { path: "/data".to_string(), data: Some(3), trace: vec!["seen".to_string()] },
    ]
}

#[test]
fn test_make() {
    let index = Text("abc");

    let ep = index.with(make(|ep| AddHeader {
        ep,
        header: "hello".to_string(),
        value: "world".to_string(),
    }));

    let resp = ep.call(Request::get("/")).unwrap();
    assert_eq!(resp.header("hello"), Some("world"));
    assert_eq!(resp.body, "abc");
}

#[test]
fn test_with_multiple_middlewares() {
    let index = ShowData;

    let ep = index.with((
        AddData::new(10),
        Appending::new("myheader-1", "a"),
        Appending::new("myheader-2", "b"),
    ));

    let resp = ep.call(Request::get("/")).unwrap();
    assert_eq!(resp.status, 200);
    assert_eq!(resp.header("myheader-1"), Some("a"));
    assert_eq!(resp.header("myheader-2"), Some("b"));
    assert_eq!(resp.body, "10");
}

#[test]
fn combine_applies_first_then_second() {
    let ep = Text("hello")
        .with(Appending::new("myheader", "a").combine(Appending::new("myheader", "b")));

    assert_eq!(
        ep,
        AppendingEndpoint {
            inner: AppendingEndpoint {
                inner: Text("hello"),
                name: "myheader".to_string(),
                value: "a".to_string(),
            },
            name: "myheader".to_string(),
            value: "b".to_string(),
        }
    );
    let resp = ep.call(Request::get("/")).unwrap();
    assert_eq!(resp.header_values("myheader"), vec!["a", "b"]);
}

#[test]
fn combine_second_is_entered_first() {
    let ep = EchoPath.with(Appending::new("x", "inner").combine(Appending::new("x", "outer")));

    let resp = ep.call(Request::get("/p")).unwrap();
    assert_eq!(resp.body, "/p|outer,inner");
    assert_eq!(resp.header_values("x"), vec!["inner", "outer"]);
}

#[test]
fn combine_is_associative() {
    let a = || Appending::new("m", "a");
    let b = || Appending::new("m", "b");
    let c = || AddData::new(5);

    let left = a().combine(b()).combine(c()).transform(EchoPath);
    let right = a().combine(b().combine(c())).transform(EchoPath);

    assert_eq!(left, right);
    for req in requests() {
        assert_eq!(left.call(req.clone()), right.call(req));
    }
    let resp = left.call(Request::get("/z")).unwrap();
    assert_eq!(resp.body, "/z|b,a");
    assert_eq!(resp.header_values("m"), vec!["a", "b"]);
}

#[test]
fn combine_if_false_is_the_first_alone() {
    let conditional = Text("hello")
        .with(Appending::new("myheader", "a").combine_if(false, Appending::new("myheader", "b")));
    let alone = Text("hello").with(Appending::new("myheader", "a"));

    for req in requests() {
        assert_eq!(conditional.call(req.clone()), alone.call(req));
    }
    let resp = conditional.call(Request::get("/")).unwrap();
    assert_eq!(resp.header_values("myheader"), vec!["a"]);
    assert_eq!(first_branch(conditional), alone);
}

#[test]
fn combine_if_true_is_combine() {
    let conditional = Text("hello")
        .with(Appending::new("myheader", "a").combine_if(true, Appending::new("myheader", "b")));
    let combined =
        Text("hello").with(Appending::new("myheader", "a").combine(Appending::new("myheader", "b")));

    for req in requests() {
        assert_eq!(conditional.call(req.clone()), combined.call(req));
    }
    let resp = conditional.call(Request::get("/")).unwrap();
    assert_eq!(resp.header_values("myheader"), vec!["a", "b"]);
    assert_eq!(second_branch(conditional), combined);
}

#[test]
fn combine_if_picks_its_branch() {
    let off = Appending::new("h", "a").combine_if(false, AddData::new(1));
    let on = Appending::new("h", "a").combine_if(true, AddData::new(1));
    let off: EitherMiddleware<Appending, CombineMiddleware<Appending, AddData, EchoPath>, EchoPath> =
        off;
    assert!(matches!(off, EitherMiddleware::A(_, _)));
    assert!(matches!(on, EitherMiddleware::B(_, _)));
    assert!(matches!(on.transform(EchoPath), EitherEndpoint::B(_)));
}

#[test]
fn identity_hands_the_endpoint_back() {
    assert_eq!(().transform(Text("abc")), Text("abc"));
    assert_eq!(EchoPath.with(()), EchoPath);
}

#[test]
fn identity_is_neutral_in_combine() {
    let m = || Appending::new("h", "v");

    let plain = m().transform(EchoPath);
    let before = ().combine(m()).transform(EchoPath);
    let after = m().combine(()).transform(EchoPath);

    assert_eq!(before, plain);
    assert_eq!(after, plain);
    for req in requests() {
        assert_eq!(before.call(req.clone()), plain.call(req.clone()));
        assert_eq!(after.call(req.clone()), plain.call(req));
    }
}

#[test]
fn borrowed_middleware_wraps_as_owned() {
    let m = Appending::new("h", "v");

    let by_ref = (&m).transform(Text("abc"));
    let by_ref_twice = Text("abc").with(&&m);
    let owned = m.transform(Text("abc"));

    assert_eq!(by_ref, owned);
    assert_eq!(by_ref_twice, owned);
}

#[test]
fn borrowed_middleware_combines() {
    let a = Appending::new("h", "a");
    let b = Appending::new("h", "b");

    let ep = (&a).combine(&b).transform(Text("abc"));

    assert_eq!(ep, a.combine(b).transform(Text("abc")));
}

#[test]
fn make_wraps_as_the_function_does() {
    let f = |ep: EchoPath| AddHeader { ep, header: "via".to_string(), value: "f".to_string() };

    let made: FnMiddleware<_> = make(f);

    assert_eq!(made.transform(EchoPath), f(EchoPath));
    assert_eq!(
        made.transform(EchoPath),
        AddHeader { ep: EchoPath, header: "via".to_string(), value: "f".to_string() }
    );
}

fn shout(ep: Text) -> AppendingEndpoint<Text> {
    AppendingEndpoint { inner: ep, name: "loud".to_string(), value: "yes".to_string() }
}

#[test]
fn make_with_a_named_function() {
    let ep = Text("abc").with(make(shout));

    assert_eq!(ep, shout(Text("abc")));
    assert_eq!(ep.call(Request::get("/")).unwrap().header("loud"), Some("yes"));
}

#[test]
fn either_left_behaves_as_its_middleware() {
    let either: EitherMiddleware<Appending, AddData, EchoPath> =
        EitherMiddleware::left(Appending::new("h", "l"));
    let plain = Appending::new("h", "l").transform(EchoPath);

    let ep = either.transform(EchoPath);

    for req in requests() {
        assert_eq!(ep.call(req.clone()), plain.call(req));
    }
    assert_eq!(first_branch(ep), plain);
}

#[test]
fn either_right_behaves_as_its_middleware() {
    let either: EitherMiddleware<Appending, AddData, ShowData> =
        EitherMiddleware::right(AddData::new(42));
    let plain = AddData::new(42).transform(ShowData);

    let ep = either.transform(ShowData);

    for req in requests() {
        assert_eq!(ep.call(req.clone()), plain.call(req));
    }
    assert_eq!(ep.call(Request::get("/")).unwrap().body, "42");
    assert_eq!(second_branch(ep), plain);
}

#[test]
fn either_endpoint_passes_failures_through() {
    let a: EitherEndpoint<EchoPath, ShowData> = EitherEndpoint::A(EchoPath);
    let b: EitherEndpoint<EchoPath, ShowData> = EitherEndpoint::B(ShowData);

    assert_eq!(a.call(Request::get("/fail")), Err(Failure("cannot serve /fail".to_string())));
    assert_eq!(b.call(Request::get("/fail")), Err(Failure("no data".to_string())));
    assert_eq!(a.call(Request::get("/ok")), Ok(Response::text("/ok|")));
}

#[test]
fn layers_pass_failures_through() {
    let ep = EchoPath.with((Appending::new("h", "a"), Appending::new("h", "b")));

    assert_eq!(ep.call(Request::get("/fail")), Err(Failure("cannot serve /fail".to_string())));
}

#[test]
fn triple_is_combine_in_order() {
    let p = || AddData::new(10);
    let q = || Appending::new("h1", "a");
    let r = || Appending::new("h2", "b");

    let tuple = (p(), q(), r()).transform(ShowData);
    let combined = p().combine(q()).combine(r()).transform(ShowData);

    assert_eq!(tuple, combined);
    for req in requests() {
        assert_eq!(tuple.call(req.clone()), combined.call(req));
    }
}

#[test]
fn pair_is_combine() {
    let pair = (Appending::new("h", "a"), Appending::new("h", "b")).transform(EchoPath);
    let combined = Appending::new("h", "a").combine(Appending::new("h", "b")).transform(EchoPath);

    assert_eq!(pair, combined);
}

#[test]
fn two_headers_on_a_text() {
    let p = make(|ep| AddHeader { ep, header: "h1".to_string(), value: "a".to_string() });
    let q = make(|ep| AddHeader { ep, header: "h2".to_string(), value: "b".to_string() });

    let ep = Text("abc").with(p.combine(q));

    for req in requests() {
        let resp = ep.call(req).unwrap();
        assert_eq!(resp.body, "abc");
        assert_eq!(resp.header("h1"), Some("a"));
        assert_eq!(resp.header("h2"), Some("b"));
    }
}

#[test]
fn with_is_transform() {
    let m = Appending::new("h", "v");

    assert_eq!(Text("abc").with(&m), m.transform(Text("abc")));
}

/// Counts how often it wraps.
struct Counting<'a>(&'a Cell<u32>);

impl<'a, E: Endpoint> Middleware<E> for Counting<'a> {
    type Output = E;

    fn transform(&self, ep: E) -> E {
        self.0.set(self.0.get() + 1);
        ep
    }
}

#[test]
fn wrapping_happens_once_per_attachment() {
    let wrapped = Cell::new(0);
    let ep = Text("abc").with(Counting(&wrapped).combine(Counting(&wrapped)));
    assert_eq!(wrapped.get(), 2);

    for req in requests() {
        assert_eq!(ep.call(req).unwrap().body, "abc");
    }
    assert_eq!(wrapped.get(), 2);
}
