use gexbot::web::{
    begin_request, finish_request, format_commit_line, github_relay, internal_error, last_path_segment, message_relay,
    AuthorOrRepo, Body, Commit, Github, RequestStep, CID_GITHUB,
};

fn body(content: &str, channel_id: u64) -> Body {
    Body { activity: String::new(), content: content.to_string(), channel_id }
}

#[test]
fn wrong_token_is_forbidden() {
    let step = begin_request(&"abc".to_string(), false, &"secret".to_string(), b"content=hi");
    match step {
        RequestStep::Respond(r) => {
            assert_eq!(r.status, 403);
            assert_eq!(r.body, "Invalid token abc");
        }
        _ => panic!("a wrong token must be refused"),
    }
}

#[test]
fn body_that_is_not_utf8_fails() {
    let step = begin_request(&"secret".to_string(), true, &"secret".to_string(), &[0xff, 0xfe]);
    match step {
        RequestStep::Respond(r) => {
            assert_eq!(r.status, 500);
            assert_eq!(r.body, "Internal error");
        }
        _ => panic!("invalid UTF-8 must fail"),
    }
}

#[test]
fn good_request_goes_on_to_parsing() {
    match begin_request(&"secret".to_string(), true, &"secret".to_string(), "{\"x\":1}".as_bytes()) {
        RequestStep::ParseGithub(text) => assert_eq!(text, "{\"x\":1}"),
        _ => panic!("expected a push event to parse"),
    }
    match begin_request(&"secret".to_string(), false, &"secret".to_string(), "content=h\u{e9}".as_bytes()) {
        RequestStep::ParseQuery(text) => assert_eq!(text, "content=h\u{e9}"),
        _ => panic!("expected form fields to parse"),
    }
}

#[test]
fn last_path_segment_like_split_last() {
    for s in ["refs/heads/main", "main", "a/", "", "/x", "refs/tags/v1.0"] {
        assert_eq!(last_path_segment(s), s.split('/').last().unwrap());
    }
}

#[test]
fn commit_line_cuts_id() {
    assert_eq!(
        format_commit_line("0123456789abcdef", "bob", "fix\n bug"),
        "$Commit #0123456 by bob\n fix\n bug\n\n"
    );
}

#[test]
fn push_summary_replaces_first_line_break() {
    let push = Github {
        git_ref: "refs/heads/master".to_string(),
        repository: AuthorOrRepo { name: "gex".to_string() },
        commits: vec![
            Commit {
                id: "abcdef0123456789".to_string(),
                message: "line one\nline two\nline three".to_string(),
                author: AuthorOrRepo { name: "ann".to_string() },
            },
            Commit {
                id: "1234567".to_string(),
                message: "one\r\ntwo".to_string(),
                author: AuthorOrRepo { name: "ben".to_string() },
            },
        ],
    };
    let relay = github_relay(&push).ok().expect("the pattern compiles");
    assert_eq!(relay.channel_id, CID_GITHUB);
    assert_eq!(relay.on_success.status, 200);
    assert_eq!(relay.on_success.body, "");
    assert_eq!(
        relay.content,
        "```md\n2 new commit(s) of gex:master\n $Commit #abcdef0 by ann\n line one\n line two\nline three\n\n$Commit #1234567 by ben\n one\n two\n\n ```"
    );
}

#[test]
fn empty_push_summary() {
    let push = Github {
        git_ref: "main".to_string(),
        repository: AuthorOrRepo { name: "r".to_string() },
        commits: Vec::new(),
    };
    let relay = github_relay(&push).ok().expect("the pattern compiles");
    assert_eq!(relay.content, "```md\n0 new commit(s) of r:main\n  ```");
}

#[test]
fn relay_checks_content_size() {
    let relay = message_relay(&body("hello", 77)).ok().expect("valid size");
    assert_eq!(relay.channel_id, 77);
    assert_eq!(relay.content, "hello");
    assert_eq!(relay.on_success.status, 200);
    assert_eq!(relay.on_success.body, "Successfully passed message");

    let full = "a".repeat(2000);
    assert!(message_relay(&body(&full, 1)).is_ok());

    for bad in [String::new(), "a".repeat(2001), "\u{e9}".repeat(1001)] {
        match message_relay(&body(&bad, 1)) {
            Err(r) => {
                assert_eq!(r.status, 500);
                assert_eq!(r.body, "Content size is invalid");
            }
            Ok(_) => panic!("size must be refused"),
        }
    }
}

#[test]
fn internal_error_response() {
    let r = internal_error();
    assert_eq!(r.status, 500);
    assert_eq!(r.body, "Internal error");
}

#[test]
fn request_answer_after_posting() {
    let relay = message_relay(&body("hello", 77)).ok().expect("valid size");
    let answer = finish_request(relay, true);
    assert_eq!(answer.status, 200);
    assert_eq!(answer.body, "Successfully passed message");
    let relay = message_relay(&body("hello", 77)).ok().expect("valid size");
    let answer = finish_request(relay, false);
    assert_eq!(answer.status, 500);
    assert_eq!(answer.body, "Internal error");
}
