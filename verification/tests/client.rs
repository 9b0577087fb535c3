use csshd::client::{
    classify_response, comments_path, error_detail, find_ticket_id, list_error, not_found_message,
    poll_error, poll_status, query_params, request_error, ticket_path, ticket_ref, Client,
    PartyRef, PollStatus, ResponseStatus, TicketQuery, TicketRef, TicketSummary,
};
use csshd::time::Timestamp;

fn summary(id: &str, number: &str) -> TicketSummary {
    TicketSummary {
        id: id.to_string(),
        ticket_number: number.to_string(),
        title: "t".to_string(),
        status: "OPEN".to_string(),
        priority: "LOW".to_string(),
        source: None,
        created_at: Timestamp::new(0, 0),
        updated_at: Timestamp::new(0, 0),
        requester: PartyRef { id: None, name: None, email: None },
        assigned_agent: None,
        site: None,
    }
}

#[test]
fn urls_and_headers() {
    let c = Client::new("https://h.example.com".to_string(), Some("tok".to_string()));
    assert_eq!(c.url("/api/v1/cli/whoami"), "https://h.example.com/api/v1/cli/whoami");
    assert_eq!(c.authorization().unwrap(), "Bearer tok");
    let anon = Client::new("https://h.example.com".to_string(), None);
    assert_eq!(anon.authorization(), None);
    assert_eq!(ticket_path("abc"), "/api/v1/tickets/abc");
    assert_eq!(comments_path("abc"), "/api/v1/tickets/abc/comments");
}

#[test]
fn query_params_in_order_and_only_when_set() {
    let q = TicketQuery {
        status: Some("OPEN".to_string()),
        assignee: None,
        search: Some("printer".to_string()),
        page: Some(1),
        page_size: Some(50),
    };
    let ps = query_params(&q);
    let got: Vec<(&str, &str)> = ps.iter().map(|(k, v)| (k.as_str(), v.as_str())).collect();
    assert_eq!(got, vec![("status", "OPEN"), ("q", "printer"), ("page", "1"), ("pageSize", "50")]);
    assert!(query_params(&TicketQuery::default()).is_empty());
}

#[test]
fn response_statuses() {
    assert_eq!(classify_response(200), ResponseStatus::Success);
    assert_eq!(classify_response(302), ResponseStatus::Success);
    assert_eq!(classify_response(401), ResponseStatus::Unauthorized);
    assert_eq!(classify_response(404), ResponseStatus::Failed);
    assert_eq!(classify_response(503), ResponseStatus::Failed);
}

#[test]
fn error_detail_prefers_message_then_error_then_body() {
    assert_eq!(error_detail(r#"{"message":"nope","error":"x"}"#), "nope");
    assert_eq!(error_detail(r#"{"message":5,"error":"bad"}"#), "bad");
    assert_eq!(error_detail("plain"), "plain");
    let long = "y".repeat(250);
    assert_eq!(error_detail(&long), "y".repeat(200));
    assert_eq!(
        request_error("PATCH", "/api/v1/tickets/a", "404 Not Found", r#"{"error":"gone"}"#),
        "PATCH /api/v1/tickets/a (404 Not Found): gone"
    );
    assert_eq!(list_error("500 Internal Server Error", "boom"), "GET /api/v1/tickets (500 Internal Server Error): boom");
}

#[test]
fn poll_outcomes() {
    assert_eq!(poll_status(200), PollStatus::Approved);
    assert_eq!(poll_status(428), PollStatus::Pending);
    assert_eq!(poll_status(408), PollStatus::Unexpected);
    assert_eq!(poll_status(410), PollStatus::Expired);
    assert_eq!(poll_status(403), PollStatus::Denied);
    assert_eq!(poll_status(400), PollStatus::Invalid);
    assert_eq!(poll_error(428, "428 Precondition Required"), None);
    assert_eq!(poll_error(410, "410 Gone").unwrap(), "Login session expired — run `csshd login` again.");
    assert_eq!(poll_error(403, "403 Forbidden").unwrap(), "Login was denied in the browser.");
    assert_eq!(
        poll_error(400, "400 Bad Request").unwrap(),
        "This login session is invalid — run `csshd login` again."
    );
    assert_eq!(poll_error(408, "408 Request Timeout").unwrap(), "auth poll: unexpected status 408 Request Timeout");
}

#[test]
fn ticket_numbers_are_normalised() {
    assert_eq!(ticket_ref("CSS-04234"), TicketRef::Number("CSS-04234".to_string()));
    assert_eq!(ticket_ref(" css-4234 "), TicketRef::Number("CSS-04234".to_string()));
    assert_eq!(ticket_ref("4234"), TicketRef::Number("CSS-04234".to_string()));
    assert_eq!(ticket_ref("123456"), TicketRef::Number("CSS-123456".to_string()));
    assert_eq!(ticket_ref("clx9abc"), TicketRef::Id("clx9abc".to_string()));
    assert_eq!(ticket_ref("CSS-000"), TicketRef::Id("CSS-000".to_string()));
    for arg in ["CSS-04234", "css-04234", "04234", "css-4234"] {
        assert_eq!(ticket_ref(arg), TicketRef::Number("CSS-04234".to_string()), "{arg}");
    }
}

#[test]
fn first_ticket_with_the_number_wins() {
    let ts = vec![summary("a", "CSS-00001"), summary("b", "CSS-00002"), summary("c", "CSS-00002")];
    assert_eq!(find_ticket_id(&ts, "CSS-00002"), Some("b".to_string()));
    assert_eq!(find_ticket_id(&ts, "CSS-00009"), None);
    assert_eq!(not_found_message("CSS-00009"), "Ticket CSS-00009 not found");
}

#[test]
fn ticket_changes_as_fields() {
    assert_eq!(
        csshd::client::TicketPatch::Claim { agent_id: "u1".to_string() }.fields(),
        vec![
            ("assignedAgentId".to_string(), "u1".to_string()),
            ("status".to_string(), "IN_PROGRESS".to_string()),
        ]
    );
    assert_eq!(csshd::client::TicketPatch::Close.fields(), vec![("status".to_string(), "CLOSED".to_string())]);
}

#[test]
fn detail_is_chosen_message_then_error_then_body() {
    assert_eq!(csshd::client::choose_detail(Some("m".to_string()), Some("e".to_string()), "b"), "m");
    assert_eq!(csshd::client::choose_detail(None, Some("e".to_string()), "b"), "e");
    assert_eq!(csshd::client::choose_detail(None, None, "b"), "b");
    assert_eq!(csshd::client::choose_detail(None, None, &"z".repeat(300)), "z".repeat(200));
}
