use portfolio::content::{shelves, sites};
use portfolio::render::render_page;
use portfolio::router::{asset_response, handle, root, route, Action, AssetLookup, Method, Route};
use portfolio::transport::{
    bind_address, select_transport, ConfigError, OnFailure, StartupStep, Transport,
};

#[test]
fn port_alone_selects_tcp() {
    assert_eq!(select_transport(Some(8080), None), Ok(Transport::Tcp { port: 8080 }));
    assert_eq!(select_transport(Some(0), None), Ok(Transport::Tcp { port: 0 }));
}

#[test]
fn socket_path_alone_selects_the_socket() {
    assert_eq!(
        select_transport(None, Some(String::from("/run/site/site.sock"))),
        Ok(Transport::Unix { path: String::from("/run/site/site.sock") })
    );
}

#[test]
fn neither_is_a_configuration_error() {
    assert_eq!(select_transport(None, None), Err(ConfigError::NothingGiven));
}

#[test]
fn both_is_a_configuration_error() {
    assert_eq!(
        select_transport(Some(80), Some(String::from("/tmp/s.sock"))),
        Err(ConfigError::BothGiven)
    );
}

#[test]
fn configuration_errors_in_words() {
    assert_eq!(
        ConfigError::NothingGiven.describe(),
        "one of a port and a socket path is required"
    );
    assert_eq!(
        ConfigError::BothGiven.describe(),
        "a port and a socket path cannot be used together"
    );
}

#[test]
fn tcp_is_bound_in_one_step() {
    assert_eq!(Transport::Tcp { port: 80 }.startup_plan(), vec![StartupStep::BindTcp]);
}

#[test]
fn stale_socket_is_removed_before_the_socket_is_bound() {
    let plan = Transport::Unix { path: String::from("/tmp/site.sock") }.startup_plan();
    assert_eq!(
        plan,
        vec![
            StartupStep::CreateParentDirectory,
            StartupStep::RemoveStaleSocket,
            StartupStep::BindUnix,
        ]
    );
}

#[test]
fn only_the_removal_of_a_stale_socket_may_fail() {
    assert_eq!(StartupStep::RemoveStaleSocket.on_failure(), OnFailure::Continue);
    assert_eq!(StartupStep::CreateParentDirectory.on_failure(), OnFailure::Abort);
    assert_eq!(StartupStep::BindUnix.on_failure(), OnFailure::Abort);
    assert_eq!(StartupStep::BindTcp.on_failure(), OnFailure::Abort);
}

#[test]
fn bind_addresses() {
    assert_eq!(bind_address(8080), "0.0.0.0:8080");
    assert_eq!(bind_address(0), "0.0.0.0:0");
    assert_eq!(bind_address(7), "0.0.0.0:7");
    assert_eq!(bind_address(10), "0.0.0.0:10");
    assert_eq!(bind_address(443), "0.0.0.0:443");
    assert_eq!(bind_address(65535), "0.0.0.0:65535");
    for port in [1u16, 9, 99, 100, 1000, 9999, 10000, 54321] {
        assert_eq!(bind_address(port), format!("0.0.0.0:{}", port));
    }
}

#[test]
fn routes() {
    assert_eq!(route(Method::Get, "/"), Route::Page);
    assert_eq!(route(Method::Head, "/"), Route::Page);
    assert_eq!(route(Method::Get, "/styles.css"), Route::Asset);
    assert_eq!(route(Method::Get, "/does-not-exist.xyz"), Route::Asset);
    assert_eq!(route(Method::Get, ""), Route::Asset);
    assert_eq!(route(Method::Get, "//"), Route::Asset);
    assert_eq!(route(Method::Get, "/\u{e9}"), Route::Asset);
    assert_eq!(route(Method::Get, "\u{e9}"), Route::Asset);
    assert_eq!(route(Method::Other, "/"), Route::NotAllowed);
    assert_eq!(route(Method::Other, "/styles.css"), Route::NotAllowed);
}

#[test]
fn root_answers_with_the_page() {
    let response = root();
    assert_eq!(response.status, 200);
    let content_type = response.content_type.unwrap();
    assert!(content_type.starts_with("text/html"));
    assert_eq!(content_type, "text/html; charset=utf-8");
    let page = render_page(&shelves(), &sites()).into_string();
    assert_eq!(response.body, page.into_bytes());
}

#[test]
fn found_file_is_answered_byte_for_byte() {
    let content = vec![0u8, 159, 146, 150, b'b', b'o', b'd', b'y'];
    let response = asset_response(AssetLookup::Found {
        content_type: Some(String::from("text/css")),
        content: content.clone(),
    });
    assert_eq!(response.status, 200);
    assert_eq!(response.content_type, Some(String::from("text/css")));
    assert_eq!(response.body, content);
}

#[test]
fn missing_file_is_not_found() {
    let response = asset_response(AssetLookup::Missing);
    assert_eq!(response.status, 404);
    assert_eq!(response.content_type, None);
    assert!(response.body.is_empty());
}

#[test]
fn unreadable_file_is_a_server_error() {
    let response = asset_response(AssetLookup::Failed);
    assert_eq!(response.status, 500);
    assert_eq!(response.content_type, None);
    assert!(response.body.is_empty());
}

#[test]
fn requests_are_handled_by_route() {
    assert_eq!(handle(Method::Get, "/"), Action::Reply(root()));
    assert_eq!(handle(Method::Get, "/styles.css"), Action::LookUp);
    match handle(Method::Other, "/") {
        Action::Reply(response) => {
            assert_eq!(response.status, 405);
            assert!(response.body.is_empty());
        }
        Action::LookUp => panic!("a method that is not served was looked up"),
    }
}
