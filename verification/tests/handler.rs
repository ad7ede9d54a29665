use hyper::header::{HeaderMap, HeaderName, HeaderValue};
use rpc_router::config::Config;
use rpc_router::discover::{merge_discovered, parse_discover_response};
use rpc_router::forward::{
    backend_headers, forward_request, forward_to, ForwardError, ForwardRequest, RequestHead,
};
use rpc_router::handler::{handler, on_reply, Action, Event, Phase};
use rpc_router::response::{add_cors_headers, HttpVersion, Response};
use rpc_router::routing::{has_method, route, Route, RpcRequest};
use rpc_router::schema::Z3Schema;
use rpc_router::RouterError;
use serde_json::Value;

const ZEBRA: &str = "http://127.0.0.1:18232";
const ZALLET: &str = "http://127.0.0.1:28232";

fn config() -> Config {
    Config {
        zebra_url: ZEBRA.to_string(),
        zallet_url: ZALLET.to_string(),
        _zaino_url: "http://127.0.0.1:8237".to_string(),
        listen_port: 0,
        rpc_user: "zebra".to_string(),
        rpc_password: "zebra".to_string(),
        cors_origin: "*".to_string(),
    }
}

fn z3() -> Z3Schema {
    let zebra = parse_discover_response(
        r#"{
            "jsonrpc": "2.0", "id": 1,
            "result": {
                "openrpc": "1.2.6",
                "info": { "title": "Zebra", "version": "1.0.0" },
                "methods": [
                    { "name": "getblock",  "params": [] },
                    { "name": "getinfo",   "params": [] }
                ],
                "components": { "schemas": { "BlockHash": { "type": "string" } } }
            }
        }"#,
    )
    .unwrap();
    let zallet = parse_discover_response(
        r#"{
            "jsonrpc": "2.0", "id": 1,
            "result": {
                "openrpc": "1.2.6",
                "info": { "title": "Zallet", "version": "1.0.0" },
                "methods": [
                    { "name": "getwalletinfo", "params": [] },
                    { "name": "z_sendmany",    "params": [] }
                ],
                "components": { "schemas": { "WalletInfo": { "type": "object" } } }
            }
        }"#,
    )
    .unwrap();
    merge_discovered(&zebra, &zallet).unwrap()
}

fn head(method: &str, path: &str) -> RequestHead {
    RequestHead {
        method: method.to_string(),
        path: path.to_string(),
        path_and_query: Some(path.to_string()),
        version: HttpVersion::Http11,
        headers: HeaderMap::new(),
    }
}

/// Plays the part of the network: the body and the backends' replies.
fn serve(head: RequestHead, body: &str) -> Response {
    let (config, z3) = (config(), z3());
    let (mut phase, mut action) =
        handler(Phase::Request, Event::Request(head), &config, &z3).unwrap();
    loop {
        let event = match action {
            Action::Respond(response) => return response,
            Action::ReadBody => Event::Body {
                bytes: body.as_bytes().to_vec(),
                request: rpc_request(body),
            },
            Action::Forward(out) => Event::Reply(Ok(backend(out))),
        };
        (phase, action) = handler(phase, event, &config, &z3).unwrap();
    }
}

fn rpc_request(body: &str) -> Option<RpcRequest> {
    let value: Value = serde_json::from_str(body).ok()?;
    Some(RpcRequest {
        method: value["method"].as_str()?.to_string(),
    })
}

fn backend(out: ForwardRequest) -> Response {
    let uri = out.uri.to_string();
    let result = if uri.starts_with(ZEBRA) {
        "zebra-response"
    } else if uri.starts_with(ZALLET) {
        "zallet-response"
    } else {
        "lost"
    };
    Response {
        status: 200,
        version: HttpVersion::Http11,
        headers: HeaderMap::new(),
        body: format!(r#"{{ "jsonrpc": "2.0", "id": 1, "result": "{}" }}"#, result).into_bytes(),
    }
}

fn call(method: &str) -> Response {
    let body = format!(
        r#"{{ "jsonrpc": "2.0", "id": 1, "method": "{}", "params": [] }}"#,
        method
    );
    serve(head("POST", "/"), &body)
}

fn body_of(response: &Response) -> Value {
    serde_json::from_slice(&response.body).unwrap()
}

fn text_of(response: &Response) -> String {
    String::from_utf8(response.body.clone()).unwrap()
}

#[test]
fn test_health_check() {
    let resp = serve(head("GET", "/health"), "");
    assert_eq!(resp.status, 200);
    assert_eq!(text_of(&resp), "OK");
}

#[test]
fn test_health_check_takes_any_method() {
    for method in ["POST", "OPTIONS", "DELETE"] {
        let resp = serve(head(method, "/health"), "");
        assert_eq!(resp.status, 200);
        assert_eq!(text_of(&resp), "OK");
        assert!(resp.headers.is_empty());
    }
}

#[test]
fn test_non_post_returns_405() {
    let resp = serve(head("GET", "/"), "");
    assert_eq!(resp.status, 405);
}

#[test]
fn test_non_post_body_and_headers() {
    for method in ["GET", "PUT", "DELETE", "post", "PATCH"] {
        let resp = serve(head(method, "/health/"), "");
        assert_eq!(resp.status, 405);
        assert_eq!(text_of(&resp), "Method Not Allowed");
        assert!(resp.headers.is_empty());
        assert_eq!(resp.version, HttpVersion::Http11);
    }
}

#[test]
fn test_cors_preflight_returns_204_with_headers() {
    let resp = serve(head("OPTIONS", "/"), "");
    assert_eq!(resp.status, 204);
    assert!(resp.headers.contains_key("access-control-allow-origin"));
    assert!(resp.headers.contains_key("access-control-allow-methods"));
}

#[test]
fn test_cors_preflight_exact() {
    let resp = serve(head("OPTIONS", "/any"), "");
    assert!(resp.body.is_empty());
    assert_eq!(resp.headers.len(), 4);
    assert_eq!(resp.headers["access-control-allow-origin"], "*");
    assert_eq!(resp.headers["access-control-allow-methods"], "POST, OPTIONS");
    assert_eq!(resp.headers["access-control-allow-headers"], "Content-Type");
    assert_eq!(resp.headers["access-control-max-age"], "86400");
}

#[test]
fn test_rpc_discover_returns_merged_schema() {
    let resp = call("rpc.discover");
    assert_eq!(resp.status, 200);

    let body: Value = body_of(&resp);
    let methods = body["methods"].as_array().unwrap();
    let names: Vec<&str> = methods
        .iter()
        .map(|m| m["name"].as_str().unwrap())
        .collect();

    assert!(names.contains(&"getblock"));
    assert!(names.contains(&"getinfo"));
    assert!(names.contains(&"getwalletinfo"));
    assert!(names.contains(&"z_sendmany"));
}

#[test]
fn test_rpc_discover_headers_and_document() {
    let resp = call("rpc.discover");
    assert_eq!(resp.headers.len(), 5);
    assert_eq!(resp.headers["content-type"], "application/json");
    assert_eq!(resp.headers["access-control-allow-origin"], "*");
    assert_eq!(body_of(&resp), z3().merged);
}

#[test]
fn test_zebra_method_routing() {
    let resp = call("getblock");
    assert_eq!(resp.status, 200);
    assert_eq!(body_of(&resp)["result"], "zebra-response");
}

#[test]
fn test_zallet_method_routing() {
    let resp = call("getwalletinfo");
    assert_eq!(resp.status, 200);
    assert_eq!(body_of(&resp)["result"], "zallet-response");
}

#[test]
fn test_unknown_method_falls_back_to_zebra() {
    let resp = call("z_getaddressforaccount");
    assert_eq!(resp.status, 200);
    assert_eq!(body_of(&resp)["result"], "zebra-response");
}

#[test]
fn test_unreadable_body_falls_back_to_zebra() {
    let resp = serve(head("POST", "/"), "not json");
    assert_eq!(body_of(&resp)["result"], "zebra-response");
    assert_eq!(resp.headers["access-control-allow-origin"], "*");
}

#[test]
fn test_route_of_each_kind_of_method() {
    let z3 = z3();
    let to = |method: &str| {
        route(
            &Some(RpcRequest {
                method: method.to_string(),
            }),
            &z3,
        )
    };
    assert_eq!(to("rpc.discover"), Route::Discover);
    assert_eq!(to("getinfo"), Route::Zebra);
    assert_eq!(to("z_sendmany"), Route::Zallet);
    assert_eq!(to("GETINFO"), Route::Zebra);
    assert_eq!(to(""), Route::Zebra);
    assert_eq!(route(&None, &z3), Route::Zebra);
    assert!(has_method(&z3.zallet_methods, &"z_sendmany".to_string()));
    assert!(!has_method(&z3.zebra_methods, &"z_sendmany".to_string()));
}

#[test]
fn test_route_prefers_zebra_and_keeps_discover() {
    let zebra = parse_discover_response(
        r#"{ "result": { "methods": [ "both", { "name": 7 }, { "name": "both" }, { "name": "rpc.discover" } ] } }"#,
    )
    .unwrap();
    let zallet = parse_discover_response(
        r#"{ "result": { "methods": [ { "name": "both" }, { "name": "one" } ] } }"#,
    )
    .unwrap();
    let z3 = merge_discovered(&zebra, &zallet).unwrap();
    let to = |method: &str| {
        route(
            &Some(RpcRequest {
                method: method.to_string(),
            }),
            &z3,
        )
    };
    assert_eq!(to("both"), Route::Zebra);
    assert_eq!(to("one"), Route::Zallet);
    assert_eq!(to("rpc.discover"), Route::Discover);
    assert_eq!(to("7"), Route::Zebra);
}

#[test]
fn test_merged_schema_names_the_route() {
    let z3 = z3();
    for method in z3.merged["methods"].as_array().unwrap() {
        let name = method["name"].as_str().unwrap().to_string();
        let server = match route(&Some(RpcRequest { method: name }), &z3) {
            Route::Zallet => "zallet",
            _ => "zebra",
        };
        assert_eq!(method["x-server"], server);
    }
}

#[test]
fn test_first_entry_of_the_merged_schema_names_the_route() {
    let zebra = parse_discover_response(
        r#"{ "result": { "methods": [ { "name": "a" }, { "name": "both" }, { "name": "a" } ] } }"#,
    )
    .unwrap();
    let zallet = parse_discover_response(
        r#"{ "result": { "methods": [ { "name": "both" }, { "name": "b" }, { "name": "b" } ] } }"#,
    )
    .unwrap();
    let z3 = merge_discovered(&zebra, &zallet).unwrap();
    let methods = z3.merged["methods"].as_array().unwrap();
    for (name, to, server) in [
        ("a", Route::Zebra, "zebra"),
        ("both", Route::Zebra, "zebra"),
        ("b", Route::Zallet, "zallet"),
    ] {
        let request = Some(RpcRequest {
            method: name.to_string(),
        });
        assert_eq!(route(&request, &z3), to);
        let first = methods.iter().find(|m| m["name"] == name).unwrap();
        assert_eq!(first["x-server"], server);
    }
    // A later entry names the route too, unless it is Zallet's and Zebra lists the method.
    assert_eq!(methods[2]["x-server"], "zebra");
    assert_eq!(methods[3]["name"], "both");
    assert_eq!(methods[3]["x-server"], "zallet");
    assert_eq!(methods[5]["x-server"], "zallet");
}

// --- forwarding ---

#[test]
fn test_forward_request_exact() {
    let mut headers = HeaderMap::new();
    headers.append("content-type", HeaderValue::from_static("application/json"));
    headers.append("x-twice", HeaderValue::from_static("first"));
    headers.append("x-twice", HeaderValue::from_static("second"));
    let head = RequestHead {
        method: "POST".to_string(),
        path: "/a".to_string(),
        path_and_query: Some("/a?b=c".to_string()),
        version: HttpVersion::Http10,
        headers,
    };
    let out = forward_request(head, b"body".to_vec(), "http://zebra:8232", "zebra", "zebra")
        .ok()
        .unwrap();
    assert_eq!(out.method, "POST");
    assert_eq!(out.uri.to_string(), "http://zebra:8232/a?b=c");
    assert_eq!(out.version, HttpVersion::Http10);
    assert_eq!(out.body, b"body");
    assert_eq!(out.headers.len(), 3);
    assert_eq!(out.headers["authorization"], "Basic emVicmE6emVicmE=");
    assert_eq!(out.headers["content-type"], "application/json");
    assert_eq!(out.headers["x-twice"], "first");
    assert_eq!(out.headers.get_all("x-twice").iter().count(), 1);
}

#[test]
fn test_forward_request_url_with_trailing_slash() {
    let out = forward_request(head("POST", "/"), Vec::new(), "http://zebra:8232/", "u", "p")
        .ok()
        .unwrap();
    assert_eq!(out.uri.to_string(), "http://zebra:8232//");
}

#[test]
fn test_forward_request_without_path() {
    let head = RequestHead {
        path_and_query: None,
        ..head("POST", "")
    };
    let out = forward_request(head, Vec::new(), "http://zebra:8232", "u", "p")
        .ok()
        .unwrap();
    assert_eq!(out.uri.to_string(), "http://zebra:8232/");
}

#[test]
fn test_forward_request_keeps_incoming_authorization_second() {
    let mut head = head("POST", "/");
    head.headers
        .append("authorization", HeaderValue::from_static("Basic Zm9v"));
    head.headers
        .append("authorization", HeaderValue::from_static("Basic YmFy"));
    let out = forward_request(head, Vec::new(), ZEBRA, "alice", "s3cr3t")
        .ok()
        .unwrap();
    let values: Vec<&str> = out
        .headers
        .get_all("authorization")
        .iter()
        .map(|v| v.to_str().unwrap())
        .collect();
    assert_eq!(values, ["Basic YWxpY2U6czNjcjN0", "Basic Zm9v"]);
}

#[test]
fn test_forward_request_takes_any_credentials() {
    let out = forward_request(head("POST", "/"), Vec::new(), ZEBRA, "\n", "\u{e9}")
        .ok()
        .unwrap();
    assert_eq!(out.headers["authorization"], "Basic CjrDqQ==");
}

#[test]
fn test_forward_request_to_no_uri() {
    let error = forward_request(head("POST", "/"), Vec::new(), "http://ze bra", "u", "p")
        .err()
        .unwrap();
    assert!(matches!(error, ForwardError::InvalidUri(_)));
    assert_eq!(error.message(), "invalid uri character");
}

#[test]
fn test_forward_to_a_given_uri() {
    let out = forward_to(
        "http://zebra:8232/".parse(),
        head("POST", "/"),
        vec![1, 2, 3],
        "zebra",
        "zebra",
    )
    .ok()
    .unwrap();
    assert_eq!(out.uri.to_string(), "http://zebra:8232/");
    assert_eq!(out.headers["authorization"], "Basic emVicmE6emVicmE=");
    assert_eq!(out.body, [1, 2, 3]);
    let error = forward_to("".parse(), head("POST", "/"), Vec::new(), "u", "p")
        .err()
        .unwrap();
    assert_eq!(error.message(), "empty string");
}

#[test]
fn test_backend_headers_that_do_not_fit() {
    let mut headers = HeaderMap::new();
    let mut i = 0;
    while let Ok(name) = HeaderName::from_bytes(format!("x-{}", i).as_bytes()) {
        if headers.try_append(name, HeaderValue::from_static("v")).is_err() {
            break;
        }
        i += 1;
    }
    let error = backend_headers(headers, "u", "p").err().unwrap();
    assert!(matches!(error, ForwardError::TooManyHeaders));
    assert_eq!(error.message(), "max size reached");
}

#[test]
fn test_backend_headers_up_to_the_bound() {
    let mut headers = HeaderMap::new();
    for i in 0..6553 {
        let name = HeaderName::from_bytes(format!("x-{}", i).as_bytes()).unwrap();
        headers.insert(name, HeaderValue::from_static("v"));
    }
    let out = backend_headers(headers, "a", "b").ok().unwrap();
    assert_eq!(out.keys_len(), 6554);
    assert_eq!(out["authorization"], "Basic YTpi");
    assert_eq!(out["x-6552"], "v");
}

#[test]
fn test_uri_that_cannot_be_made_is_a_bad_gateway() {
    let config = Config {
        zebra_url: "http://ze bra".to_string(),
        ..config()
    };
    let (phase, action) = handler(
        Phase::Body(head("POST", "/")),
        Event::Body {
            bytes: Vec::new(),
            request: None,
        },
        &config,
        &z3(),
    )
    .unwrap();
    assert!(matches!(phase, Phase::Done));
    match action {
        Action::Respond(resp) => {
            assert_eq!(resp.status, 502);
            assert_eq!(text_of(&resp), "Bad Gateway: invalid uri character");
            assert!(resp.headers.is_empty());
        }
        _ => panic!("no response"),
    }
}

#[test]
fn test_backend_out_of_reach_is_a_bad_gateway() {
    let resp = on_reply(Err("client error (Connect)".to_string()), &config()).unwrap();
    assert_eq!(resp.status, 502);
    assert_eq!(text_of(&resp), "Bad Gateway: client error (Connect)");
    assert!(resp.headers.is_empty());
    assert_eq!(resp.version, HttpVersion::Http11);
}

// --- CORS headers ---

fn reply() -> Response {
    let mut headers = HeaderMap::new();
    headers.append("content-type", HeaderValue::from_static("application/json"));
    headers.append(
        "access-control-allow-origin",
        HeaderValue::from_static("https://a.example"),
    );
    headers.append(
        "access-control-allow-origin",
        HeaderValue::from_static("https://b.example"),
    );
    headers.append("set-cookie", HeaderValue::from_static("a=1"));
    headers.append("set-cookie", HeaderValue::from_static("b=2"));
    Response {
        status: 418,
        version: HttpVersion::Http10,
        headers,
        body: b"body".to_vec(),
    }
}

#[test]
fn test_add_cors_headers_replaces_and_keeps() {
    let resp = add_cors_headers(reply(), "https://myapp.example.com");
    assert_eq!(resp.status, 418);
    assert_eq!(resp.version, HttpVersion::Http10);
    assert_eq!(resp.body, b"body");
    assert_eq!(resp.headers.keys_len(), 6);
    assert_eq!(
        resp.headers
            .get_all("access-control-allow-origin")
            .iter()
            .collect::<Vec<_>>(),
        ["https://myapp.example.com"]
    );
    assert_eq!(resp.headers["content-type"], "application/json");
    assert_eq!(
        resp.headers.get_all("set-cookie").iter().collect::<Vec<_>>(),
        ["a=1", "b=2"]
    );
}

#[test]
fn test_add_cors_headers_again_replaces_the_origin() {
    let twice = add_cors_headers(add_cors_headers(reply(), "https://a"), "https://b");
    let once = add_cors_headers(reply(), "https://b");
    assert_eq!(twice.headers, once.headers);
}

#[test]
fn test_add_cors_headers_with_an_origin_that_is_no_header_value() {
    for origin in ["a\nb", "\u{7f}", "\0"] {
        let resp = add_cors_headers(reply(), origin);
        assert_eq!(resp.headers["access-control-allow-origin"], "*");
    }
    let resp = add_cors_headers(reply(), "\tcaf\u{e9}");
    assert_eq!(
        resp.headers["access-control-allow-origin"].as_bytes(),
        "\tcaf\u{e9}".as_bytes()
    );
}

#[test]
fn test_reply_with_too_many_headers_is_refused() {
    let mut headers = HeaderMap::new();
    let mut i = 0;
    while let Ok(name) = HeaderName::from_bytes(format!("x-{}", i).as_bytes()) {
        if headers.try_append(name, HeaderValue::from_static("v")).is_err() {
            break;
        }
        i += 1;
    }
    let reply = Response {
        headers,
        ..reply()
    };
    let step = handler(Phase::Reply, Event::Reply(Ok(reply)), &config(), &z3());
    assert!(matches!(step, Err(RouterError::TooManyHeaders)));
}

#[test]
fn test_add_cors_headers_up_to_the_bound() {
    let mut headers = HeaderMap::new();
    for i in 0..6550 {
        let name = HeaderName::from_bytes(format!("x-{}", i).as_bytes()).unwrap();
        headers.insert(name, HeaderValue::from_static("v"));
    }
    let resp = add_cors_headers(
        Response {
            headers,
            ..reply()
        },
        "*",
    );
    assert_eq!(resp.headers.keys_len(), 6554);
    assert_eq!(resp.headers["access-control-max-age"], "86400");
}

#[test]
fn test_reply_is_passed_back_with_cors_headers() {
    let (phase, action) =
        handler(Phase::Reply, Event::Reply(Ok(reply())), &config(), &z3()).ok().unwrap();
    assert!(matches!(phase, Phase::Done));
    match action {
        Action::Respond(resp) => {
            assert_eq!(resp.status, 418);
            assert_eq!(resp.headers["access-control-allow-origin"], "*");
            assert_eq!(resp.body, b"body");
        }
        _ => panic!("no response"),
    }
}
