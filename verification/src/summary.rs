//! The summarisation boundary: the request handed to the summariser and
//! the deterministic prompt built for it.

use vstd::prelude::*;
use vstd::string::StringExecFns;

verus! {

/// What the summariser is asked to summarise.
pub struct SummaryRequest<'a> {
    /// Title of the meeting.
    pub title: &'a str,
    /// The flattened transcript text.
    pub transcript: &'a str,
}

/// Build the summary prompt: a fixed instruction header, the title, the
/// fixed section and rule text, and the transcript, in that order.
pub fn build_summary_prompt(title: &str, transcript: &str) -> (r: String)
    ensures
        r@ == "You are an assistant that writes concise, factual meeting summaries.\nMeeting title: "@
            + title@
            + "\n\nReturn Markdown with exactly these sections:\n1. ## Summary (3-6 bullets)\n2. ## Decisions\n3. ## Action Items\n4. ## Open Questions\n\nRules:\n- Use only information present in the transcript.\n- If a section has no content, write 'None'.\n- Keep each bullet short and concrete.\n\nTranscript:\n"@
            + transcript@,
{
    let mut s = String::new();
    s.append(
        "You are an assistant that writes concise, factual meeting summaries.\nMeeting title: ",
    );
    s.append(title);
    s.append(
        "\n\nReturn Markdown with exactly these sections:\n1. ## Summary (3-6 bullets)\n2. ## Decisions\n3. ## Action Items\n4. ## Open Questions\n\nRules:\n- Use only information present in the transcript.\n- If a section has no content, write 'None'.\n- Keep each bullet short and concrete.\n\nTranscript:\n",
    );
    s.append(transcript);
    s
}

} // verus!
