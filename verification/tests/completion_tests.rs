use sloppy::completion::ChatCompletion;
use sloppy::completion::Choice;
use sloppy::completion::Delta;
use sloppy::completion::Usage;
use sloppy::completion::collect_answer;

fn choice(content: &str) -> Choice {
    Choice {
        index: 0,
        finish_reason: None,
        delta: Delta {
            role: String::from("assistant"),
            content: String::from(content),
            reasoning_content: None,
            tool_calls: None,
        },
        nostr_notes: None,
    }
}

fn chunk(contents: &[&str]) -> ChatCompletion {
    ChatCompletion {
        id: String::from("chatcmpl-1"),
        object: String::from("chat.completion.chunk"),
        created: 1700000000,
        model: String::from("test-model"),
        choices: contents.iter().map(|c| choice(c)).collect(),
        usage: Usage { prompt_tokens: 1, completion_tokens: 1, total_tokens: 2 },
    }
}

#[test]
fn answer_of_no_chunks_is_empty() {
    assert_eq!(collect_answer(&Vec::new()), "");
}

#[test]
fn answer_concatenates_chunk_contents_in_order() {
    let completions = vec![chunk(&["Hi, "]), chunk(&["Sloppy "]), chunk(&["here."])];
    assert_eq!(collect_answer(&completions), "Hi, Sloppy here.");
}

#[test]
fn answer_flattens_choices_of_one_chunk() {
    let completions = vec![chunk(&["a", "b"]), chunk(&[]), chunk(&["c"])];
    assert_eq!(collect_answer(&completions), "abc");
}

#[test]
fn answer_keeps_empty_contents_invisible() {
    let completions = vec![chunk(&[""]), chunk(&["x", ""])];
    assert_eq!(collect_answer(&completions), "x");
}
