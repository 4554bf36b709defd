use vstd::prelude::*;

verus! {

/// Transcript text handed to a prompt is cut to at most this many bytes.
pub const TRANSCRIPT_BYTE_LIMIT: usize = 3000;

/// Output-token budget of a summary request.
pub const SUMMARY_MAX_TOKENS: u32 = 512;

/// Output-token budget of a follow-up-email request.
pub const EMAIL_MAX_TOKENS: u32 = 512;

/// Output-token budget of a lecture-notes request.
pub const LECTURE_NOTES_MAX_TOKENS: u32 = 600;

/// How many bytes one character occupies in UTF-8.
pub open spec fn char_utf8_len(c: char) -> nat {
    if (c as u32) < 0x80 {
        1
    } else if (c as u32) < 0x800 {
        2
    } else if (c as u32) < 0x10000 {
        3
    } else {
        4
    }
}

/// The UTF-8 byte length of a character sequence.
pub open spec fn utf8_len(s: Seq<char>) -> nat
    decreases s.len(),
{
    if s.len() == 0 {
        0
    } else {
        char_utf8_len(s[0]) + utf8_len(s.drop_first())
    }
}

/// How many leading characters of `s` fit in a budget of `max` bytes: the
/// length of the longest prefix whose UTF-8 byte length is at most `max`.
pub open spec fn byte_prefix_len(s: Seq<char>, max: nat) -> nat
    decreases s.len(),
{
    if s.len() == 0 || char_utf8_len(s[0]) > max {
        0
    } else {
        1 + byte_prefix_len(s.drop_first(), (max - char_utf8_len(s[0])) as nat)
    }
}

/// The longest prefix of `s` whose UTF-8 byte length is at most `max`: a
/// byte-budget cut that never splits a character.
pub open spec fn truncated(s: Seq<char>, max: nat) -> Seq<char> {
    s.take(byte_prefix_len(s, max) as int)
}

/// The byte-budget cut takes as much as fits and no more: it never exceeds
/// the budget, and whenever it drops anything, taking one more character
/// would exceed it.
proof fn lemma_byte_prefix(s: Seq<char>, max: nat)
    ensures
        byte_prefix_len(s, max) <= s.len(),
        utf8_len(s.take(byte_prefix_len(s, max) as int)) <= max,
        byte_prefix_len(s, max) < s.len() ==> utf8_len(
            s.take(byte_prefix_len(s, max) as int + 1),
        ) > max,
    decreases s.len(),
{
    let k = byte_prefix_len(s, max) as int;
    if s.len() == 0 {
        assert(s.take(0) =~= Seq::<char>::empty());
    } else if char_utf8_len(s[0]) > max {
        assert(s.take(0) =~= Seq::<char>::empty());
        assert(s.take(1) =~= seq![s[0]]);
        assert(seq![s[0]].drop_first() =~= Seq::<char>::empty());
    } else {
        let c0 = char_utf8_len(s[0]);
        let rest = byte_prefix_len(s.drop_first(), (max - c0) as nat) as int;
        lemma_byte_prefix(s.drop_first(), (max - c0) as nat);
        assert(s.take(k)[0] == s[0]);
        assert(s.take(k).drop_first() =~= s.drop_first().take(rest));
        if k < s.len() {
            assert(s.take(k + 1)[0] == s[0]);
            assert(s.take(k + 1).drop_first() =~= s.drop_first().take(rest + 1));
        }
    }
}

fn char_len(c: char) -> (n: usize)
    ensures
        n == char_utf8_len(c),
{
    let v = c as u32;
    if v < 0x80 {
        1
    } else if v < 0x800 {
        2
    } else if v < 0x10000 {
        3
    } else {
        4
    }
}

fn fit_count(text: &str, from: usize, budget: usize) -> (k: usize)
    requires
        from <= text@.len(),
    ensures
        k == byte_prefix_len(text@.skip(from as int), budget as nat),
        from + k <= text@.len(),
    decreases text@.len() - from,
{
    let n = text.unicode_len();
    if from == n {
        proof {
            assert(text@.skip(from as int) =~= Seq::<char>::empty());
        }
        return 0;
    }
    let c = text.get_char(from);
    let cl = char_len(c);
    proof {
        assert(text@.skip(from as int)[0] == text@[from as int]);
    }
    if cl > budget {
        0
    } else {
        let rest = fit_count(text, from + 1, budget - cl);
        proof {
            assert(text@.skip(from as int).drop_first() =~= text@.skip(from as int + 1));
        }
        rest + 1
    }
}

/// Cuts `text` to the longest prefix that fits in `max_len` bytes of
/// UTF-8.  The cut never splits a character: where the budget lands inside
/// one, the cut rounds down to the previous character boundary.
pub fn truncate<'a>(text: &'a str, max_len: usize) -> (r: &'a str)
    ensures
        r@ == truncated(text@, max_len as nat),
        r@ == text@.take(r@.len() as int),
        utf8_len(r@) <= max_len,
        r@.len() < text@.len() ==> utf8_len(text@.take(r@.len() as int + 1)) > max_len,
{
    let k = fit_count(text, 0, max_len);
    proof {
        assert(text@.skip(0) =~= text@);
        lemma_byte_prefix(text@, max_len as nat);
    }
    let r = text.substring_char(0, k);
    proof {
        assert(r@ =~= truncated(text@, max_len as nat));
        assert(r@ =~= text@.take(r@.len() as int));
    }
    r
}

/// The summary prompt: the template line, then the truncated transcript.
pub open spec fn summary_prompt_spec(transcript: Seq<char>) -> Seq<char> {
    "Summarize the following transcript:\n"@ + truncated(
        transcript,
        TRANSCRIPT_BYTE_LIMIT as nat,
    )
}

/// The follow-up-email prompt: the template line, then the truncated
/// transcript.
pub open spec fn email_prompt_spec(transcript: Seq<char>) -> Seq<char> {
    "Write a professional follow-up email based on this meeting:\n"@ + truncated(
        transcript,
        TRANSCRIPT_BYTE_LIMIT as nat,
    )
}

/// The lecture-notes prompt: the template line, then the truncated
/// transcript.
pub open spec fn lecture_notes_prompt_spec(transcript: Seq<char>) -> Seq<char> {
    "Write clear and concise lecture notes with bullet points and sections from this transcript:\n"@
        + truncated(transcript, TRANSCRIPT_BYTE_LIMIT as nat)
}

/// Builds the summary prompt for a transcript.
pub fn summary_prompt(transcript: &str) -> (r: String)
    ensures
        r@ == summary_prompt_spec(transcript@),
{
    let mut p = String::from_str("Summarize the following transcript:\n");
    p.append(truncate(transcript, TRANSCRIPT_BYTE_LIMIT));
    p
}

/// Builds the follow-up-email prompt for a transcript.
pub fn email_prompt(transcript: &str) -> (r: String)
    ensures
        r@ == email_prompt_spec(transcript@),
{
    let mut p = String::from_str("Write a professional follow-up email based on this meeting:\n");
    p.append(truncate(transcript, TRANSCRIPT_BYTE_LIMIT));
    p
}

/// Builds the lecture-notes prompt for a transcript.
pub fn lecture_notes_prompt(transcript: &str) -> (r: String)
    ensures
        r@ == lecture_notes_prompt_spec(transcript@),
{
    let mut p = String::from_str(
        "Write clear and concise lecture notes with bullet points and sections from this transcript:\n",
    );
    p.append(truncate(transcript, TRANSCRIPT_BYTE_LIMIT));
    p
}

} // verus!
