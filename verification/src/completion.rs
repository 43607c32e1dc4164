//! Records of a streamed chat completion and the assembly of the final
//! answer text: every parsed chunk contributes the `content` of each of its
//! choices, concatenated in order.

use vstd::prelude::*;
use vstd::string::StringExecFns;

verus! {

/// One incremental message fragment of a streamed completion.
pub struct Delta {
    pub role: String,
    pub content: String,
    pub reasoning_content: Option<String>,
    pub tool_calls: Option<String>,
}

/// One alternative continuation inside a completion chunk.
pub struct Choice {
    pub index: u32,
    pub finish_reason: Option<String>,
    pub delta: Delta,
    pub nostr_notes: Option<String>,
}

/// Token accounting reported with a completion chunk.
pub struct Usage {
    pub prompt_tokens: u32,
    pub completion_tokens: u32,
    pub total_tokens: u32,
}

/// One parsed chunk of a streamed chat completion.
pub struct ChatCompletion {
    pub id: String,
    pub object: String,
    pub created: u64,
    pub model: String,
    pub choices: Vec<Choice>,
    pub usage: Usage,
}

/// A drafted campaign together with the questions sent back to the
/// developers.
pub struct CampaignResponse {
    pub campaign_text: String,
    pub developer_questions: String,
}

/// The text contributed by a sequence of choices: their delta contents,
/// concatenated in order.
pub open spec fn choices_text(cs: Seq<Choice>) -> Seq<char>
    decreases cs.len(),
{
    if cs.len() == 0 {
        Seq::empty()
    } else {
        choices_text(cs.drop_last()) + cs.last().delta.content@
    }
}

/// The text contributed by a sequence of completion chunks: the text of
/// each chunk's choices, concatenated in order.
pub open spec fn completions_text(cs: Seq<ChatCompletion>) -> Seq<char>
    decreases cs.len(),
{
    if cs.len() == 0 {
        Seq::empty()
    } else {
        completions_text(cs.drop_last()) + choices_text(cs.last().choices@)
    }
}

/// Concatenate the delta contents of every choice of every chunk, in order:
/// the plain text of the streamed answer.
pub fn collect_answer(completions: &Vec<ChatCompletion>) -> (answer: String)
    ensures
        answer@ == completions_text(completions@),
{
    let mut answer = String::new();
    let mut i: usize = 0;
    proof {
        assert(completions@.subrange(0, 0) =~= Seq::<ChatCompletion>::empty());
        assert(answer@ =~= completions_text(completions@.subrange(0, 0)));
    }
    while i < completions.len()
        invariant
            i <= completions@.len(),
            answer@ == completions_text(completions@.subrange(0, i as int)),
        decreases completions@.len() - i,
    {
        let ghost done = completions@.subrange(0, i as int);
        let ghost next = completions@.subrange(0, i as int + 1);
        proof {
            assert(next.drop_last() =~= done);
            assert(next.last() == completions@[i as int]);
        }
        let chunk = &completions[i];
        let mut j: usize = 0;
        proof {
            assert(chunk.choices@.subrange(0, 0) =~= Seq::<Choice>::empty());
            assert(answer@ + choices_text(chunk.choices@.subrange(0, 0)) =~= answer@);
        }
        while j < chunk.choices.len()
            invariant
                j <= chunk.choices@.len(),
                answer@ == completions_text(done) + choices_text(
                    chunk.choices@.subrange(0, j as int),
                ),
            decreases chunk.choices@.len() - j,
        {
            let ghost done_choices = chunk.choices@.subrange(0, j as int);
            let ghost next_choices = chunk.choices@.subrange(0, j as int + 1);
            proof {
                assert(next_choices.drop_last() =~= done_choices);
                assert(next_choices.last() == chunk.choices@[j as int]);
            }
            answer.append(chunk.choices[j].delta.content.as_str());
            proof {
                assert(answer@ =~= completions_text(done) + choices_text(next_choices));
            }
            j = j + 1;
        }
        proof {
            assert(chunk.choices@.subrange(0, chunk.choices@.len() as int) =~= chunk.choices@);
            assert(answer@ =~= completions_text(next));
        }
        i = i + 1;
    }
    proof {
        assert(completions@.subrange(0, completions@.len() as int) =~= completions@);
    }
    answer
}

} // verus!
