//! The decisions of the chat tasks: when a line that the user typed ends the
//! chat, what text goes to the model, and which failures end a chat.

use vstd::prelude::*;
use vstd::string::*;

verus! {

/// Whether a character is white space in Unicode (`char::is_whitespace`).
pub open spec fn is_whitespace(c: char) -> bool {
    ||| ('\t' <= c && c <= '\r')
    ||| c == ' '
    ||| c == '\u{85}'
    ||| c == '\u{a0}'
    ||| c == '\u{1680}'
    ||| ('\u{2000}' <= c && c <= '\u{200a}')
    ||| c == '\u{2028}'
    ||| c == '\u{2029}'
    ||| c == '\u{202f}'
    ||| c == '\u{205f}'
    ||| c == '\u{3000}'
}

fn is_whitespace_char(c: char) -> (r: bool)
    ensures
        r == is_whitespace(c),
{
    ('\t' <= c && c <= '\r') || c == ' ' || c == '\u{85}' || c == '\u{a0}' || c == '\u{1680}' || (
    '\u{2000}' <= c && c <= '\u{200a}') || c == '\u{2028}' || c == '\u{2029}' || c == '\u{202f}'
        || c == '\u{205f}' || c == '\u{3000}'
}

/// A character with its ASCII upper-case letters made lower-case.
pub open spec fn ascii_lower(c: char) -> int {
    if 'A' <= c && c <= 'Z' {
        c as int + 32
    } else {
        c as int
    }
}

/// The word that ends a chat.
pub open spec fn quit_word() -> Seq<char> {
    seq!['q', 'u', 'i', 't']
}

/// Whether `a..b` are the ends of a text trimmed of white space at both ends.
pub open spec fn trim_bounds(s: Seq<char>, a: int, b: int) -> bool {
    &&& 0 <= a <= b <= s.len()
    &&& forall|i: int| 0 <= i < a ==> is_whitespace(#[trigger] s[i])
    &&& forall|i: int| b <= i < s.len() ==> is_whitespace(#[trigger] s[i])
    &&& a < b ==> !is_whitespace(s[a]) && !is_whitespace(s[b - 1])
}

/// Whether the text is `quit`, in any ASCII case, at position `a`, with only
/// white space around it.
pub open spec fn quit_at(s: Seq<char>, a: int) -> bool {
    &&& 0 <= a && a + 4 <= s.len()
    &&& forall|i: int| 0 <= i < a ==> is_whitespace(#[trigger] s[i])
    &&& forall|i: int| a + 4 <= i < s.len() ==> is_whitespace(#[trigger] s[i])
    &&& forall|k: int| 0 <= k < 4 ==> ascii_lower(#[trigger] s[a + k]) == quit_word()[k] as int
}

/// Whether a line, trimmed of white space, is `quit` in any ASCII case.
pub open spec fn is_quit_line(s: Seq<char>) -> bool {
    exists|a: int| quit_at(s, a)
}

/// What a line typed by the user asks of a chat task.
#[derive(Debug, PartialEq, Eq)]
pub enum ChatInput {
    /// End the chat.
    Quit,
    /// Send this text, the line trimmed of white space, to the model.
    Prompt(String),
}

/// Reads a line typed by the user: `Quit` exactly when the line, trimmed of
/// white space, is `quit` in any ASCII case; otherwise the trimmed line.
pub fn read_chat_line(line: &str) -> (r: ChatInput)
    ensures
        (r is Quit) == is_quit_line(line@),
        r matches ChatInput::Prompt(t) ==> exists|a: int, b: int|
            trim_bounds(line@, a, b) && t@ == line@.subrange(a, b),
{
    let ghost s = line@;
    let n = line.unicode_len();
    let mut a: usize = 0;
    while a < n && is_whitespace_char(line.get_char(a))
        invariant
            n == s.len(),
            s == line@,
            a <= n,
            forall|i: int| 0 <= i < a ==> is_whitespace(#[trigger] s[i]),
        decreases n - a,
    {
        a = a + 1;
    }
    let mut b: usize = n;
    while b > a && is_whitespace_char(line.get_char(b - 1))
        invariant
            n == s.len(),
            s == line@,
            a <= b <= n,
            forall|i: int| b <= i < n ==> is_whitespace(#[trigger] s[i]),
        decreases b - a,
    {
        b = b - 1;
    }
    assert(trim_bounds(s, a as int, b as int));
    let mut quit = b - a == 4;
    let mut k: usize = 0;
    while quit && k < 4
        invariant
            s == line@,
            trim_bounds(s, a as int, b as int),
            quit ==> b - a == 4,
            k <= 4,
            quit ==> forall|j: int| 0 <= j < k ==> ascii_lower(#[trigger] s[a + j]) == quit_word()[j] as int,
            !quit ==> (b - a != 4 || exists|j: int|
                0 <= j < 4 && ascii_lower(#[trigger] s[a + j]) != quit_word()[j] as int),
        decreases 4 - k,
    {
        let c = line.get_char(a + k);
        let want: char = if k == 0 {
            'q'
        } else if k == 1 {
            'u'
        } else if k == 2 {
            'i'
        } else {
            't'
        };
        assert(want == quit_word()[k as int]);
        let lower_ok = c == want || ('A' <= c && c <= 'Z' && (c as u32) + 32 == (want as u32));
        assert(lower_ok == (ascii_lower(s[a + k]) == quit_word()[k as int] as int));
        if !lower_ok {
            quit = false;
        }
        k = k + 1;
    }
    proof {
        if quit {
            assert(quit_at(s, a as int));
        } else {
            if is_quit_line(s) {
                let w = choose|w: int| quit_at(s, w);
                assert(ascii_lower(s[w + 0]) == quit_word()[0] as int);
                assert(ascii_lower(s[w + 3]) == quit_word()[3] as int);
                assert(!is_whitespace(s[w]));
                assert(!is_whitespace(s[w + 3]));
                assert(a == w);
                assert(b == w + 4);
                assert forall|j: int| 0 <= j < 4 implies ascii_lower(#[trigger] s[a + j])
                    == quit_word()[j] as int by {
                    assert(s[a + j] == s[w + j]);
                }
            }
        }
    }
    if quit {
        ChatInput::Quit
    } else {
        ChatInput::Prompt(String::from_str(line.substring_char(a, b)))
    }
}

/// How the reply to a prompt ends a turn of a chat.
#[derive(Debug, PartialEq, Eq)]
pub enum TurnEnd {
    /// Show (and, in the audio chat, speak) the reply.
    ShowReply(String),
    /// Report that no text was generated, and go on to the next line.
    ReportAndContinue,
}

/// The turn's end for the service's reply: a reply is shown; a failed
/// generation is reported and the chat goes on, never ended by it.
pub fn end_turn(reply: Result<String, String>) -> (r: TurnEnd)
    ensures
        match reply {
            Ok(t) => r == TurnEnd::ShowReply(t),
            Err(_) => r == TurnEnd::ReportAndContinue,
        },
{
    match reply {
        Ok(t) => TurnEnd::ShowReply(t),
        Err(_) => TurnEnd::ReportAndContinue,
    }
}

/// A failure of a step of the audio chat.
#[derive(Debug, Clone, Copy, PartialEq, Eq, Structural)]
pub enum AudioFailure {
    /// Reading the line or writing the prompt failed.
    Io,
    /// Recording the user's voice failed.
    Recording,
    /// Turning the recording into text failed.
    SpeechToText,
    /// Turning the reply into speech failed.
    TextToSpeech,
    /// Playing the spoken reply failed.
    Playback,
}

/// Whether a failure ends the audio chat with an error. Only a failed
/// playback is reported and passed over; every other failure ends the chat.
pub fn failure_ends_chat(f: AudioFailure) -> (r: bool)
    ensures
        r == (f != AudioFailure::Playback),
{
    match f {
        AudioFailure::Playback => false,
        _ => true,
    }
}

} // verus!
