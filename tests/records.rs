use claude_projects_viewer::parser::{FileCandidate, ProjectParser};
use claude_projects_viewer::types::{
    Content, ProjectFile, SessionMessage, ToolResultContent, UserContent,
};

fn user_line(uuid: &str, text: &str) -> String {
    format!(
        "{{\"type\":\"user\",\"parentUuid\":null,\"isSidechain\":false,\"userType\":\"external\",\"cwd\":\"/tmp\",\"sessionId\":\"s1\",\"version\":\"1.0.0\",\"uuid\":\"{}\",\"timestamp\":\"2025-01-01T00:00:00Z\",\"message\":{{\"role\":\"user\",\"content\":\"{}\"}}}}",
        uuid, text
    )
}

fn assistant_line() -> String {
    "{\"type\":\"assistant\",\"parentUuid\":\"u1\",\"isSidechain\":false,\"userType\":\"external\",\"cwd\":\"/tmp\",\"sessionId\":\"s1\",\"version\":\"1.0.0\",\"uuid\":\"a1\",\"timestamp\":\"2025-01-01T00:00:01Z\",\"requestId\":\"req_1\",\"message\":{\"id\":\"msg_1\",\"type\":\"message\",\"role\":\"assistant\",\"model\":\"m\",\"content\":[{\"type\":\"text\",\"text\":\"Hi there\"},{\"type\":\"tool_use\",\"id\":\"t1\",\"name\":\"Read\",\"input\":{\"path\":\"/x\"}},{\"type\":\"text\",\"text\":\"Done\"}],\"stop_reason\":null,\"stop_sequence\":null,\"usage\":{\"input_tokens\":1,\"cache_creation_input_tokens\":0,\"cache_read_input_tokens\":0,\"output_tokens\":2,\"service_tier\":\"standard\",\"server_tool_use\":{\"web_search_requests\":3}}}}".to_string()
}

fn user_blocks_line(blocks: &str) -> String {
    format!(
        "{{\"type\":\"user\",\"parentUuid\":null,\"isSidechain\":false,\"userType\":\"external\",\"cwd\":\"/tmp\",\"sessionId\":\"s1\",\"version\":\"1.0.0\",\"uuid\":\"u2\",\"timestamp\":\"2025-01-01T00:00:02Z\",\"message\":{{\"role\":\"user\",\"content\":[{}]}}}}",
        blocks
    )
}

fn texts(m: &SessionMessage) -> Vec<String> {
    m.get_text_content()
}

#[test]
fn blank_lines_are_skipped() {
    assert!(ProjectParser::parse_line("").is_none());
    assert!(ProjectParser::parse_line("   ").is_none());
    assert!(ProjectParser::parse_line("\t\n").is_none());
}

#[test]
fn malformed_json_is_skipped() {
    assert!(ProjectParser::parse_line("{\"type\":\"assistant\"").is_none());
    assert!(ProjectParser::parse_line("not json").is_none());
    assert!(ProjectParser::parse_line("[1, 2").is_none());
}

#[test]
fn unknown_or_incomplete_records_are_skipped() {
    assert!(ProjectParser::parse_line("{\"type\":\"other\",\"summary\":\"x\",\"leafUuid\":\"l\"}").is_none());
    assert!(ProjectParser::parse_line("{\"summary\":\"x\",\"leafUuid\":\"l\"}").is_none());
    assert!(ProjectParser::parse_line("{\"type\":\"summary\",\"summary\":\"x\"}").is_none());
    assert!(ProjectParser::parse_line("42").is_none());
    let no_stamp = user_line("u1", "hi").replace("2025-01-01T00:00:00Z", "");
    assert!(ProjectParser::parse_line(&no_stamp).is_none());
    let bad_flag = user_line("u1", "hi").replace("\"isSidechain\":false", "\"isSidechain\":\"no\"");
    assert!(ProjectParser::parse_line(&bad_flag).is_none());
}

#[test]
fn summary_record_decodes() {
    let m = ProjectParser::parse_line("{\"type\":\"summary\",\"summary\":\"Fix bug\",\"leafUuid\":\"l1\",\"extra\":1}").unwrap();
    assert_eq!(m.get_type(), "summary");
    assert_eq!(m.get_timestamp(), None);
    assert_eq!(texts(&m), vec!["Fix bug".to_string()]);
    match m {
        SessionMessage::Summary { summary, leaf_uuid } => {
            assert_eq!(summary, "Fix bug");
            assert_eq!(leaf_uuid, "l1");
        }
        _ => panic!("not a summary"),
    }
}

#[test]
fn system_record_decodes() {
    let line = "{\"type\":\"system\",\"parentUuid\":\"p\",\"isSidechain\":true,\"userType\":\"external\",\"cwd\":\"/w\",\"sessionId\":\"s\",\"version\":\"1\",\"uuid\":\"x\",\"timestamp\":\"T\",\"content\":\"Compacted\",\"isMeta\":false,\"level\":\"info\"}";
    let m = ProjectParser::parse_line(line).unwrap();
    assert_eq!(m.get_type(), "system");
    assert_eq!(m.get_timestamp(), Some("T"));
    assert_eq!(texts(&m), vec!["Compacted".to_string()]);
    match m {
        SessionMessage::System { base, is_meta, level, tool_use_id, .. } => {
            assert_eq!(base.parent_uuid, Some("p".to_string()));
            assert!(base.is_sidechain);
            assert!(!is_meta);
            assert_eq!(level, Some("info".to_string()));
            assert_eq!(tool_use_id, None);
        }
        _ => panic!("not a system record"),
    }
}

#[test]
fn assistant_record_decodes() {
    let m = ProjectParser::parse_line(&assistant_line()).unwrap();
    assert_eq!(m.get_type(), "assistant");
    assert_eq!(m.get_timestamp(), Some("2025-01-01T00:00:01Z"));
    assert_eq!(texts(&m), vec!["Hi there".to_string(), "Done".to_string()]);
    match m {
        SessionMessage::Assistant { message, request_id, .. } => {
            assert_eq!(request_id, Some("req_1".to_string()));
            assert_eq!(message.usage.output_tokens, 2);
            assert_eq!(message.usage.service_tier, Some("standard".to_string()));
            assert_eq!(message.usage.server_tool_use.unwrap().web_search_requests, 3);
            assert_eq!(message.content.len(), 3);
            match &message.content[1] {
                Content::ToolUse { name, input, .. } => {
                    assert_eq!(name, "Read");
                    assert_eq!(input.len(), 1);
                    assert_eq!(input[0].0, "path");
                }
                _ => panic!("not a tool use"),
            }
        }
        _ => panic!("not an assistant record"),
    }
}

#[test]
fn negative_token_count_is_skipped() {
    let line = assistant_line().replace("\"output_tokens\":2", "\"output_tokens\":-2");
    assert!(ProjectParser::parse_line(&line).is_none());
}

#[test]
fn assistant_with_only_tool_use_has_no_texts() {
    let line = assistant_line()
        .replace("{\"type\":\"text\",\"text\":\"Hi there\"},", "")
        .replace(",{\"type\":\"text\",\"text\":\"Done\"}", "");
    let m = ProjectParser::parse_line(&line).unwrap();
    assert!(texts(&m).is_empty());
}

#[test]
fn user_record_decodes_plain_string() {
    let m = ProjectParser::parse_line(&user_line("u1", "hello world")).unwrap();
    assert_eq!(m.get_type(), "user");
    assert_eq!(texts(&m), vec!["hello world".to_string()]);
}

#[test]
fn tool_result_payload_shapes() {
    let plain = user_blocks_line("{\"type\":\"tool_result\",\"tool_use_id\":\"t1\",\"content\":\"file body\"}");
    let array = user_blocks_line("{\"type\":\"tool_result\",\"tool_use_id\":\"t1\",\"content\":[{\"type\":\"text\",\"text\":\"file body\"}],\"is_error\":false}");
    let images = user_blocks_line("{\"type\":\"tool_result\",\"tool_use_id\":\"t1\",\"content\":[{\"type\":\"image\",\"source\":{\"type\":\"base64\",\"data\":\"AAA\",\"media_type\":\"image/png\"}}]}");
    let payload = |line: &str| match ProjectParser::parse_line(line).unwrap() {
        SessionMessage::User { message, .. } => match message.content {
            UserContent::Array(mut blocks) => match blocks.remove(0) {
                Content::ToolResult { content, .. } => content,
                _ => panic!("not a tool result"),
            },
            _ => panic!("not blocks"),
        },
        _ => panic!("not a user record"),
    };
    assert!(matches!(payload(&plain), Some(ToolResultContent::String(ref s)) if s == "file body"));
    match payload(&array) {
        Some(ToolResultContent::TextArray(items)) => {
            assert_eq!(items.len(), 1);
            assert_eq!(items[0].text, "file body");
            assert_eq!(items[0].content_type, "text");
        }
        _ => panic!("not a text array"),
    }
    match payload(&images) {
        Some(ToolResultContent::ImageArray(items)) => {
            assert_eq!(items[0].source.media_type, Some("image/png".to_string()));
        }
        _ => panic!("not an image array"),
    }
}

#[test]
fn user_blocks_keep_only_text() {
    let line = user_blocks_line("{\"type\":\"text\",\"text\":\"one\"},{\"type\":\"thinking\",\"thinking\":\"hmm\",\"signature\":\"sig\"},{\"type\":\"text\",\"text\":\"two\"}");
    let m = ProjectParser::parse_line(&line).unwrap();
    assert_eq!(texts(&m), vec!["one".to_string(), "two".to_string()]);
}

#[test]
fn truncated_trailing_line_is_dropped() {
    let lines = vec![assistant_line(), "{\"type\":\"assistant\"".to_string()];
    let p = ProjectParser::load_project_file("/h/logs/projects/P/s.jsonl".to_string(), &lines);
    assert_eq!(p.messages.len(), 1);
    assert_eq!(p.project_name, "P");
    assert_eq!(p.path, "/h/logs/projects/P/s.jsonl");
}

#[test]
fn records_keep_file_order() {
    let lines = vec![user_line("u1", "first"), String::new(), user_line("u2", "second")];
    let p = ProjectParser::load_project_file("a/b.jsonl".to_string(), &lines);
    assert_eq!(p.messages.len(), 2);
    assert_eq!(texts(&p.messages[0]), vec!["first".to_string()]);
    assert_eq!(texts(&p.messages[1]), vec!["second".to_string()]);
}

#[test]
fn project_names_from_paths() {
    assert_eq!(ProjectFile::extract_project_name("/Users/x/logs/projects/-Users-x-src/abc.jsonl"), "-Users-x-src");
    assert_eq!(ProjectFile::extract_project_name("A/x.jsonl"), "A");
    assert_eq!(ProjectFile::extract_project_name("x.jsonl"), "unknown");
    assert_eq!(ProjectFile::extract_project_name("/x.jsonl"), "");
    let p = ProjectFile::new("dir/f.jsonl".to_string());
    assert_eq!(p.project_name, "dir");
    assert!(p.messages.is_empty());
}

fn candidate(path: &str, modified: Option<u128>) -> FileCandidate {
    FileCandidate { path: path.to_string(), modified }
}

#[test]
fn selection_is_newest_first_and_bounded() {
    let c = vec![
        candidate("a", Some(5)),
        candidate("b", None),
        candidate("c", Some(9)),
        candidate("d", Some(5)),
        candidate("e", Some(1)),
    ];
    assert_eq!(ProjectParser::select_recent(&c, 10), vec![2, 0, 3, 4, 1]);
    assert_eq!(ProjectParser::select_recent(&c, 2), vec![2, 0]);
    assert!(ProjectParser::select_recent(&c, 0).is_empty());
    assert!(ProjectParser::select_recent(&Vec::new(), 30).is_empty());
}

#[test]
fn two_projects_newest_first_then_search() {
    let candidates = vec![candidate("B/y.jsonl", Some(100)), candidate("A/x.jsonl", Some(200))];
    let order = ProjectParser::select_recent(&candidates, 10);
    assert_eq!(order, vec![1, 0]);
    let lines = vec![user_line("u1", "hello world")];
    let projects: Vec<ProjectFile> = order
        .iter()
        .map(|&i| ProjectParser::load_project_file(candidates[i].path.clone(), &lines))
        .collect();
    assert_eq!(projects[0].project_name, "A");
    assert_eq!(projects[1].project_name, "B");
    let found = ProjectParser::search_messages(&projects, "world");
    assert_eq!(found.len(), 2);
    assert_eq!(found[0].0, "A");
    assert_eq!(found[1].0, "B");
    assert_eq!(found[0].1.len(), 1);
    assert_eq!(texts(&found[0].1[0]), vec!["hello world".to_string()]);
    assert_eq!(texts(&found[1].1[0]), vec!["hello world".to_string()]);
}

#[test]
fn search_ignores_case_and_drops_empty_groups() {
    let alpha = ProjectParser::load_project_file(
        "alpha/a.jsonl".to_string(),
        &vec![user_line("u1", "Hello World"), user_line("u2", "other")],
    );
    let beta = ProjectParser::load_project_file("beta/b.jsonl".to_string(), &vec![user_line("u3", "nothing")]);
    let projects = vec![alpha, beta];
    let found = ProjectParser::search_messages(&projects, "WORLD");
    assert_eq!(found.len(), 1);
    assert_eq!(found[0].0, "alpha");
    assert_eq!(found[0].1.len(), 1);
    assert!(ProjectParser::search_messages(&projects, "absent").is_empty());
}

#[test]
fn empty_query_matches_every_record_with_text() {
    let alpha = ProjectParser::load_project_file(
        "alpha/a.jsonl".to_string(),
        &vec![user_line("u1", "one"), user_line("u2", "two")],
    );
    let beta = ProjectParser::load_project_file("beta/b.jsonl".to_string(), &vec![]);
    let gamma = ProjectParser::load_project_file("gamma/c.jsonl".to_string(), &vec![assistant_line()]);
    let projects = vec![alpha, beta, gamma];
    let found = ProjectParser::search_messages(&projects, "");
    assert_eq!(found.len(), 2);
    assert_eq!(found[0].0, "alpha");
    assert_eq!(found[0].1.len(), 2);
    assert_eq!(found[1].0, "gamma");
}
