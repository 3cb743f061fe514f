use gqlforum::client::{
    error_messages, logout_outcome, posting_outcome, PostingOutcome, post_author_text, post_body_text, posts_offset, user_label,
    user_link, GraphQLClient, GraphQLError, LogoutOutcome,
};
use gqlforum::configuration::{SQLite3Settings, Settings};
use gqlforum::text::str_eq;

#[test]
fn query_is_put_on_one_line() {
    let q = "\n    query {\n        session {\n            user {\n                id\n            }\n        }\n    }\n    ";
    assert_eq!(
        GraphQLClient::minimize_query_string(q),
        " query { session { user { id } } } "
    );
}

#[test]
fn minimize_edge_cases() {
    assert_eq!(GraphQLClient::minimize_query_string(""), "");
    assert_eq!(GraphQLClient::minimize_query_string("\n"), "");
    assert_eq!(GraphQLClient::minimize_query_string("a\n"), "a");
    assert_eq!(GraphQLClient::minimize_query_string("a\n\nb"), "a  b");
    assert_eq!(GraphQLClient::minimize_query_string("  a  \r\n\tb\t"), "a b");
    assert_eq!(GraphQLClient::minimize_query_string("\u{3000}x\u{3000}"), "x");
    assert_eq!(GraphQLClient::minimize_query_string("mutation { logout }"), "mutation { logout }");
}

#[test]
fn minimize_agrees_with_std() {
    for q in ["a\nb\n", "  x \n y \n\n z", "\r\n\r\n", "é \n ü"] {
        let lines: Vec<_> = q.lines().map(|l| l.trim()).collect();
        assert_eq!(GraphQLClient::minimize_query_string(q), lines.join(" "));
    }
}

#[test]
fn client_new() {
    let _c = GraphQLClient::new("/graphql");
}

fn error(message: &str) -> GraphQLError {
    GraphQLError { message: message.to_string(), locations: None, path: None }
}

#[test]
fn logout_page_outcomes() {
    let errs = Some(vec![error("Already logged out"), error("second")]);
    match logout_outcome(&errs, Some(Some(true))) {
        LogoutOutcome::Errors(m) => assert_eq!(m, vec!["Already logged out".to_string(), "second".to_string()]),
        _ => panic!("errors come first"),
    }
    assert!(matches!(logout_outcome(&None, Some(Some(true))), LogoutOutcome::LoggedOut));
    assert!(matches!(logout_outcome(&None, Some(Some(false))), LogoutOutcome::AuthenticationError));
    assert!(matches!(logout_outcome(&None, Some(None)), LogoutOutcome::AuthenticationError));
    assert!(matches!(logout_outcome(&None, None), LogoutOutcome::InternalServerError));
    assert!(error_messages(&Vec::new()).is_empty());
}

#[test]
fn topic_page_texts() {
    assert_eq!(posts_offset(1), 0);
    assert_eq!(posts_offset(3), 20);
    assert_eq!(posts_offset(0), -10);
    assert_eq!(post_body_text(Some("hi".to_string())), "hi");
    assert_eq!(post_body_text(None), "[DELETED]");
    assert_eq!(post_author_text(Some("dan".to_string())), "dan");
    assert_eq!(post_author_text(None), "[REDACTED]");
}

#[test]
fn navigation_texts() {
    assert_eq!(user_link(42), "/user/42");
    assert_eq!(user_link(0), "/user/0");
    assert_eq!(user_link(-7), "/user/-7");
    assert_eq!(user_link(i64::MIN), "/user/-9223372036854775808");
    assert_eq!(user_link(i64::MAX), "/user/9223372036854775807");
    assert_eq!(user_label("alice", "ADMINISTRATOR"), "alice (ADMINISTRATOR)");
}

fn settings(port: u16) -> Settings {
    Settings {
        hmac_secret: "k".to_string(),
        session_cookie_name: "s".to_string(),
        database: SQLite3Settings { connection: "sqlite://forum.db".to_string() },
        listen: "127.0.0.1".to_string(),
        port,
        dist: "dist".to_string(),
    }
}

#[test]
fn settings_derived_values() {
    assert_eq!(settings(8080).listen_address(), "127.0.0.1:8080");
    assert_eq!(settings(0).listen_address(), "127.0.0.1:0");
    assert_eq!(settings(65535).listen_address(), "127.0.0.1:65535");
    assert_eq!(settings(80).index_path(), "dist/index.html");
}

#[test]
fn string_equality() {
    assert!(str_eq("", ""));
    assert!(str_eq("héllo", "héllo"));
    assert!(!str_eq("hello", "hellO"));
    assert!(!str_eq("a", "ab"));
}

#[test]
fn new_post_form_outcomes() {
    let errs = Some(vec![error("Unimplemented")]);
    match posting_outcome(&errs, true) {
        PostingOutcome::Errors(m) => assert_eq!(m, vec!["Unimplemented".to_string()]),
        _ => panic!("errors come first"),
    }
    assert!(matches!(posting_outcome(&None, true), PostingOutcome::Posted));
    assert!(matches!(posting_outcome(&None, false), PostingOutcome::InternalServerError));
}
