use mytool::repo_index::{column_of, topics_from_column, topics_to_column};

fn strings(list: &[&str]) -> Vec<String> {
    list.iter().map(|s| s.to_string()).collect()
}

#[test]
fn topics_are_written_as_a_json_array() {
    assert_eq!(topics_to_column(&strings(&[])), "[]");
    assert_eq!(topics_to_column(&strings(&["nix", "mcp \"x\""])), "[\"nix\",\"mcp \\\"x\\\"\"]");
}

#[test]
fn topics_are_read_back() {
    let topics = strings(&["nix", "terraform", "caf\u{e9}"]);
    assert_eq!(topics_from_column(&topics_to_column(&topics)), topics);
    assert_eq!(topics_from_column(" [ \"a\" , \"b\" ] "), strings(&["a", "b"]));
}

#[test]
fn a_column_that_holds_no_topics_reads_as_none() {
    assert_eq!(topics_from_column(""), strings(&[]));
    assert_eq!(topics_from_column("nix,mcp"), strings(&[]));
    assert_eq!(topics_from_column("{\"a\":1}"), strings(&[]));
    assert_eq!(topics_from_column("[\"a\", 1]"), strings(&[]));
}

#[test]
fn column_of_is_the_text_or_empty() {
    assert_eq!(column_of(Ok(b"[\"a\"]".to_vec())), "[\"a\"]");
    assert_eq!(column_of(Ok(vec![0xff])), "");
    let error = serde_json::from_str::<Vec<String>>("x").unwrap_err();
    assert_eq!(column_of(Err(error)), "");
}
