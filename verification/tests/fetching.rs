use gitlab_todo::gitlab::{
    FetchError, Field, GitLabClient, GitLabResponse, TodoRequest, REQUEST_TIMEOUT_SECS,
};

fn client() -> GitLabClient {
    GitLabClient::new("https://gitlab.example.com".to_string(), "glpat-abc".to_string())
}

fn field(name: &str, value: &str) -> Field {
    Field { name: name.to_string(), value: value.to_string() }
}

fn response(status: u16, x_total: Option<&[u8]>) -> Result<GitLabResponse, String> {
    Ok(GitLabResponse { status, x_total: x_total.map(|bytes| bytes.to_vec()) })
}

#[test]
fn request_asks_for_one_pending_todo() {
    let wanted = TodoRequest {
        url: "https://gitlab.example.com/api/v4/todos".to_string(),
        headers: vec![
            field("Authorization", "Bearer glpat-abc"),
            field("Content-Type", "application/json"),
        ],
        query: vec![field("state", "pending"), field("per_page", "1")],
        timeout_secs: 10,
    };
    assert_eq!(client().todos_request(), wanted);
    assert_eq!(REQUEST_TIMEOUT_SECS, 10);
}

#[test]
fn request_keeps_the_base_url_as_it_is() {
    let client = GitLabClient::new("http://host:8080/gitlab/".to_string(), "t".to_string());
    assert_eq!(client.todos_request().url, "http://host:8080/gitlab//api/v4/todos");
    assert_eq!(client.get_todos_url(), "http://host:8080/gitlab//dashboard/todos");
}

#[test]
fn todos_url_is_the_dashboard_page() {
    assert_eq!(client().get_todos_url(), "https://gitlab.example.com/dashboard/todos");
}

#[test]
fn fetch_reads_the_total_from_the_header() {
    assert_eq!(client().fetch_todo_count(response(200, Some(b"7"))), Ok(7));
    assert_eq!(client().fetch_todo_count(response(200, Some(b"0"))), Ok(0));
    assert_eq!(client().fetch_todo_count(response(204, Some(b"123456"))), Ok(123_456));
    assert_eq!(client().fetch_todo_count(response(299, Some(b"4294967295"))), Ok(u32::MAX));
}

#[test]
fn fetch_counts_zero_without_the_header() {
    assert_eq!(client().fetch_todo_count(response(200, None)), Ok(0));
}

#[test]
fn fetch_counts_zero_for_a_header_that_is_no_number() {
    for value in [&b""[..], b"many", b"-3", b"7 ", b"4294967296", b"3.5", &[0xff, 0xfe]] {
        assert_eq!(client().fetch_todo_count(response(200, Some(value))), Ok(0));
    }
}

#[test]
fn fetch_fails_on_401() {
    let result = client().fetch_todo_count(response(401, Some(b"7")));
    assert_eq!(
        result,
        Err(FetchError::RequestFailed { status: 401, reason: "Unauthorized".to_string() })
    );
}

#[test]
fn fetch_fails_outside_200_to_299() {
    for status in [100u16, 199, 300, 304, 404, 500, 503] {
        let result = client().fetch_todo_count(response(status, Some(b"7")));
        assert!(
            matches!(result, Err(FetchError::RequestFailed { status: s, .. }) if s == status),
            "{}",
            status
        );
    }
    for status in [200u16, 201, 250, 299] {
        assert_eq!(client().fetch_todo_count(response(status, Some(b"7"))), Ok(7));
    }
}

#[test]
fn fetch_names_the_standard_reason() {
    for (status, reason) in
        [(404u16, "Not Found"), (500, "Internal Server Error"), (302, "Found"), (418, "I'm a teapot")]
    {
        assert_eq!(
            client().fetch_todo_count(response(status, None)),
            Err(FetchError::RequestFailed { status, reason: reason.to_string() })
        );
    }
}

#[test]
fn fetch_agrees_with_the_status_code_table() {
    for status in 100u16..1000 {
        if (200..300).contains(&status) {
            continue;
        }
        let code = reqwest::StatusCode::from_u16(status).unwrap();
        let reason = code.canonical_reason().unwrap_or("Unknown error").to_string();
        assert_eq!(
            client().fetch_todo_count(response(status, None)),
            Err(FetchError::RequestFailed { status, reason })
        );
    }
}

#[test]
fn fetch_reports_an_unknown_reason() {
    for status in [0u16, 99, 599, 799, 1000, u16::MAX] {
        assert_eq!(
            client().fetch_todo_count(response(status, None)),
            Err(FetchError::RequestFailed { status, reason: "Unknown error".to_string() })
        );
    }
}

#[test]
fn fetch_passes_a_transport_failure_on() {
    let result = client().fetch_todo_count(Err("connection refused".to_string()));
    assert_eq!(
        result,
        Err(FetchError::TransportError { message: "connection refused".to_string() })
    );
}

#[test]
fn request_failed_takes_the_phrase_or_the_fixed_text() {
    assert_eq!(
        FetchError::request_failed(404, Some("Not Found".to_string())),
        FetchError::RequestFailed { status: 404, reason: "Not Found".to_string() }
    );
    assert_eq!(
        FetchError::request_failed(799, None),
        FetchError::RequestFailed { status: 799, reason: "Unknown error".to_string() }
    );
}

#[test]
fn request_failed_text_prints_status_and_reason() {
    assert_eq!(
        FetchError::request_failed_text(404, Some("Not Found".to_string()), "Not Found"),
        "GitLab API request failed with status: 404 Not Found - Not Found"
    );
    assert_eq!(
        FetchError::request_failed_text(799, None, "Unknown error"),
        "GitLab API request failed with status: 799 <unknown status code> - Unknown error"
    );
}

#[test]
fn errors_are_described() {
    let failed = FetchError::RequestFailed { status: 401, reason: "Unauthorized".to_string() };
    assert_eq!(
        failed.describe(),
        "GitLab API request failed with status: 401 Unauthorized - Unauthorized"
    );
    let odd = FetchError::RequestFailed { status: 599, reason: "Unknown error".to_string() };
    assert_eq!(
        odd.describe(),
        "GitLab API request failed with status: 599 <unknown status code> - Unknown error"
    );
    let transport = FetchError::TransportError { message: "dns error".to_string() };
    assert_eq!(transport.describe(), "Failed to send request to GitLab API");
}

#[test]
fn description_prints_the_status_as_the_status_code_does() {
    for status in [301u16, 400, 403, 429, 502, 599, 999] {
        let code = reqwest::StatusCode::from_u16(status).unwrap();
        let reason = code.canonical_reason().unwrap_or("Unknown error");
        let error = FetchError::RequestFailed { status, reason: reason.to_string() };
        assert_eq!(
            error.describe(),
            format!("GitLab API request failed with status: {} - {}", code, reason)
        );
    }
}

#[test]
fn report_is_the_count_or_the_description() {
    assert_eq!(client().fetch_report(response(200, Some(b"12"))), Ok(12));
    assert_eq!(client().fetch_report(response(200, None)), Ok(0));
    assert_eq!(
        client().fetch_report(response(403, None)),
        Err("GitLab API request failed with status: 403 Forbidden - Forbidden".to_string())
    );
    assert_eq!(
        client().fetch_report(Err("timed out".to_string())),
        Err("Failed to send request to GitLab API".to_string())
    );
}

#[test]
fn response_total_and_success() {
    let ok = GitLabResponse { status: 200, x_total: Some(b"+9".to_vec()) };
    assert!(ok.is_success());
    assert_eq!(ok.total(), 9);
    let redirect = GitLabResponse { status: 300, x_total: None };
    assert!(!redirect.is_success());
    assert_eq!(redirect.total(), 0);
    assert!(!GitLabResponse { status: 199, x_total: None }.is_success());
    assert!(GitLabResponse { status: 299, x_total: None }.is_success());
}
