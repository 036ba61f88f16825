//! What the window is told, and the scripts that tell it.
//!
//! A status line is plain text. It reaches the page as a script that sets the
//! text of the element `#status`; the text stands in that script between
//! single quotes, written so that no backslash and no quote of the text ends
//! the quoted string early. Nothing else of the text is changed: a line break
//! in it stays a line break, and a reader of scripts refuses a string that
//! holds one, so what is said here of how a script is read is said of texts
//! without line breaks.
//!
//! A line that tells of a failure ends with what the user can do about it.
//! Handing the script to the window is the caller's work, and a window that
//! is gone or refuses the script is no error to anyone.

use vstd::prelude::*;
use vstd::std_specs::iter::IteratorSpec;
use vstd::string::StringExecFns;
use crate::launch::error_message;
use crate::launch::LaunchError;
use crate::text::decimal;
use crate::text::is_digit;
use crate::text::lemma_decimal_reads_back;
use crate::text::push_decimal;

verus! {

/// What one character of a message becomes between single quotes: a
/// backslash is doubled, a single quote gets a backslash before it, and every
/// other character stays.
pub open spec fn escaped_char(c: char) -> Seq<char> {
    if c == '\\' {
        seq!['\\', '\\']
    } else if c == '\'' {
        seq!['\\', '\'']
    } else {
        seq![c]
    }
}

/// A message as it is written between single quotes: its characters in
/// order, each as `escaped_char` gives it.
pub open spec fn escaped(text: Seq<char>) -> Seq<char>
    decreases text.len(),
{
    if text.len() == 0 {
        Seq::empty()
    } else {
        escaped(text.drop_last()) + escaped_char(text.last())
    }
}

/// Whether `c` ends a line in a script: line feed, carriage return, line
/// separator or paragraph separator.
pub open spec fn is_line_break(c: char) -> bool {
    c == '\n' || c == '\r' || c == '\u{2028}' || c == '\u{2029}'
}

/// Whether `text` holds no line break.
pub open spec fn single_line(text: Seq<char>) -> bool {
    forall|i: int| 0 <= i < text.len() ==> !is_line_break(#[trigger] text[i])
}

/// Whether `text` ends with `tail`.
pub open spec fn ends_with(text: Seq<char>, tail: Seq<char>) -> bool {
    text.len() >= tail.len() && text.skip(text.len() - tail.len()) == tail
}

/// What a reader of scripts takes for the content of a string on one line,
/// from the characters that follow its opening single quote: it reads up to
/// the first single quote that no backslash stands before, and takes a
/// backslash together with the character after it for that character.
///
/// This says how a backslash and a quote are read, and no more. A line break
/// is passed like any other character here, whereas a reader of scripts
/// refuses a string with a line break in it: of such a string this function
/// says nothing that holds of that reader.
pub open spec fn quoted_content(after_quote: Seq<char>) -> Seq<char>
    decreases after_quote.len(),
{
    if after_quote.len() == 0 || after_quote[0] == '\'' {
        Seq::empty()
    } else if after_quote[0] == '\\' && after_quote.len() >= 2 {
        seq![after_quote[1]] + quoted_content(after_quote.skip(2))
    } else {
        seq![after_quote[0]] + quoted_content(after_quote.skip(1))
    }
}

/// How many characters that reader passes before the closing quote of a
/// string on one line. As `quoted_content`, it passes a line break like any
/// other character.
pub open spec fn quoted_len(after_quote: Seq<char>) -> int
    decreases after_quote.len(),
{
    if after_quote.len() == 0 || after_quote[0] == '\'' {
        0
    } else if after_quote[0] == '\\' && after_quote.len() >= 2 {
        2 + quoted_len(after_quote.skip(2))
    } else {
        1 + quoted_len(after_quote.skip(1))
    }
}

/// The script that shows `text` in the page.
pub open spec fn status_script_text(text: Seq<char>) -> Seq<char> {
    "var s=document.querySelector('#status'); if(s) s.innerText='"@ + escaped(text) + "';"@
}

/// The address of the backend on this machine.
pub open spec fn backend_url_text(port: u16) -> Seq<char> {
    "http://127.0.0.1:"@ + decimal(port as nat) + "/"@
}

/// The script that sends the page to `url`.
pub open spec fn navigate_script_text(url: Seq<char>) -> Seq<char> {
    "window.location.replace('"@ + escaped(url) + "');"@
}

/// The status line shown while the backend is being started.
pub open spec fn starting_text(port: u16) -> Seq<char> {
    "Starting Mini Git Server on port "@ + decimal(port as nat) + " ..."@
}

/// The status line shown once the port has answered.
pub open spec fn ready_text() -> Seq<char> {
    "Backend is ready, opening..."@
}

/// What the user can do about a failure, as every line that tells of one
/// ends: try again, or open the backend in a browser of their own.
pub open spec fn remedy_text() -> Seq<char> {
    ", please try again or open in external browser."@
}

/// The status line shown when the port has not answered in time: what
/// happened, and the remedy.
pub open spec fn probe_timeout_text() -> Seq<char> {
    "Backend did not respond"@ + remedy_text()
}

/// The status line shown when the backend could not be started: a fixed
/// opening, what the error says as it says it, and the remedy.
pub open spec fn launch_failure_text(reason: Seq<char>) -> Seq<char> {
    "Failed to start backend: "@ + reason + remedy_text()
}

/// Escaping goes character by character: a text in two parts is escaped
/// part by part.
pub proof fn lemma_escaped_concat(front: Seq<char>, back: Seq<char>)
    ensures
        escaped(front + back) == escaped(front) + escaped(back),
    decreases back.len(),
{
    if back.len() > 0 {
        assert((front + back).drop_last() =~= front + back.drop_last());
        lemma_escaped_concat(front, back.drop_last());
    }
}

/// A text without backslash and single quote is escaped to itself.
pub proof fn lemma_escaped_plain(text: Seq<char>)
    requires
        forall|i: int| 0 <= i < text.len() ==> text[i] != '\\' && text[i] != '\'',
    ensures
        escaped(text) == text,
    decreases text.len(),
{
    if text.len() > 0 {
        lemma_escaped_plain(text.drop_last());
    }
}

/// No message on one line ends the quoted string early, and none is changed
/// by it: whatever such a message holds and whatever follows the closing
/// quote, a reader of the script finds the string's end at the quote that
/// was written after the escaped message, and finds the message as its
/// content. Nothing is said of a message with a line break in it.
pub proof fn lemma_escaped_reads_back(text: Seq<char>, rest: Seq<char>)
    requires
        single_line(text),
    ensures
        quoted_len(escaped(text) + seq!['\''] + rest) == escaped(text).len(),
        quoted_content(escaped(text) + seq!['\''] + rest) == text,
    decreases text.len(),
{
    let written = escaped(text) + seq!['\''] + rest;
    if text.len() > 0 {
        let c = text[0];
        let tail = text.skip(1);
        let tail_written = escaped(tail) + seq!['\''] + rest;
        assert(text =~= seq![c] + tail);
        assert forall|i: int| 0 <= i < tail.len() implies !is_line_break(#[trigger] tail[i]) by {
            assert(tail[i] == text[i + 1]);
        }
        lemma_escaped_concat(seq![c], tail);
        assert(escaped(seq![c]) =~= escaped_char(c)) by {
            assert(seq![c].drop_last() =~= Seq::<char>::empty());
            assert(escaped(Seq::<char>::empty()) =~= Seq::<char>::empty());
        }
        lemma_escaped_reads_back(tail, rest);
        if c == '\\' || c == '\'' {
            assert(written.skip(2) =~= tail_written);
        } else {
            assert(written.skip(1) =~= tail_written);
        }
    }
}

/// The status script shows the message, whatever a message on one line
/// holds: a reader of the script finds, after the quote that opens the
/// assigned string, the message as the string's content, and after the
/// string nothing but the end of the statement. Nothing is said of a message
/// with a line break in it.
pub proof fn lemma_status_script_carries_text(text: Seq<char>)
    requires
        single_line(text),
    ensures
        ({
            let opening = "var s=document.querySelector('#status'); if(s) s.innerText='"@;
            let after_quote = status_script_text(text).skip(opening.len() as int);
            &&& quoted_content(after_quote) == text
            &&& quoted_len(after_quote) == escaped(text).len()
            &&& after_quote.skip(escaped(text).len() as int) == "';"@
        }),
{
    reveal_strlit("';");
    let opening = "var s=document.querySelector('#status'); if(s) s.innerText='"@;
    let after_quote = status_script_text(text).skip(opening.len() as int);
    assert(after_quote =~= escaped(text) + seq!['\''] + seq![';']);
    lemma_escaped_reads_back(text, seq![';']);
}

/// The address of the backend holds neither a backslash nor a single quote
/// nor a line break, so it stands between single quotes as it is.
pub proof fn lemma_backend_url_is_plain(port: u16)
    ensures
        escaped(backend_url_text(port)) == backend_url_text(port),
        single_line(backend_url_text(port)),
{
    reveal_strlit("http://127.0.0.1:");
    reveal_strlit("/");
    lemma_decimal_reads_back(port as nat);
    let url = backend_url_text(port);
    assert forall|i: int| 0 <= i < url.len() implies url[i] != '\\' && url[i] != '\''
        && !is_line_break(#[trigger] url[i]) by {
        let head = "http://127.0.0.1:"@;
        if head.len() <= i < head.len() + decimal(port as nat).len() {
            assert(is_digit(decimal(port as nat)[i - head.len()]));
        }
    }
    lemma_escaped_plain(url);
}

/// The script that sends the page somewhere names that address and nothing
/// else, whatever an address on one line holds: a reader of the script finds
/// the address as the content of the string that the script hands over, and
/// after the string nothing but the end of the call. Nothing is said of an
/// address with a line break in it.
pub proof fn lemma_navigate_script_carries_url(url: Seq<char>)
    requires
        single_line(url),
    ensures
        ({
            let opening = "window.location.replace('"@;
            let after_quote = navigate_script_text(url).skip(opening.len() as int);
            &&& quoted_content(after_quote) == url
            &&& quoted_len(after_quote) == escaped(url).len()
            &&& after_quote.skip(escaped(url).len() as int) == "');"@
        }),
{
    reveal_strlit("');");
    let opening = "window.location.replace('"@;
    let after_quote = navigate_script_text(url).skip(opening.len() as int);
    assert(after_quote =~= escaped(url) + seq!['\''] + seq![')', ';']);
    lemma_escaped_reads_back(url, seq![')', ';']);
}

/// In the script that sends the page to the backend, the backend's address
/// stands as it is, and a reader of the script finds it as the content of
/// the string that the script hands over.
pub proof fn lemma_navigate_script_to_backend(port: u16)
    ensures
        navigate_script_text(backend_url_text(port)) == "window.location.replace('"@
            + backend_url_text(port) + "');"@,
        quoted_content(
            navigate_script_text(backend_url_text(port)).skip(
                "window.location.replace('"@.len() as int,
            ),
        ) == backend_url_text(port),
{
    lemma_backend_url_is_plain(port);
    lemma_navigate_script_carries_url(backend_url_text(port));
}

/// Every line that tells of a failure ends with the remedy, and the line for
/// a failed launch holds what the error says, unchanged, between its opening
/// and the remedy.
pub proof fn lemma_failure_lines_end_with_remedy(reason: Seq<char>)
    ensures
        ends_with(probe_timeout_text(), remedy_text()),
        ends_with(launch_failure_text(reason), remedy_text()),
        launch_failure_text(reason).subrange(
            "Failed to start backend: "@.len() as int,
            ("Failed to start backend: "@.len() + reason.len()) as int,
        ) == reason,
{
    let timeout = probe_timeout_text();
    let failure = launch_failure_text(reason);
    assert(timeout.skip(timeout.len() - remedy_text().len()) =~= remedy_text());
    assert(failure.skip(failure.len() - remedy_text().len()) =~= remedy_text());
}


/// Writes `text` so that it can stand between single quotes in a script:
/// a backslash is doubled, a single quote gets a backslash, and all else
/// stays, a line break too.
pub fn escape(text: &str) -> (out: String)
    ensures
        out@ == escaped(text@),
{
    let mut out = String::new();
    for c in it: text.chars()
        invariant
            it.seq() == text@,
            out@ == escaped(text@.take(it.index() as int)),
    {
        proof {
            let i = it.index() as int;
            assert(text@.take(i + 1).drop_last() == text@.take(i));
        }
        if c == '\\' {
            out.push('\\');
            out.push('\\');
        } else if c == '\'' {
            out.push('\\');
            out.push('\'');
        } else {
            out.push(c);
        }
    }
    proof {
        assert(text@.take(text@.len() as int) == text@);
    }
    out
}

/// Writes the script that shows `text` in the page.
pub fn status_script(text: &str) -> (script: String)
    ensures
        script@ == status_script_text(text@),
{
    let mut script = String::from_str(
        "var s=document.querySelector('#status'); if(s) s.innerText='",
    );
    let body = escape(text);
    script.append(body.as_str());
    script.append("';");
    script
}

/// Writes the address of the backend on this machine.
pub fn backend_url(port: u16) -> (url: String)
    ensures
        url@ == backend_url_text(port),
{
    let mut url = String::from_str("http://127.0.0.1:");
    push_decimal(&mut url, port);
    url.append("/");
    url
}

/// Writes the script that sends the page to `url`.
pub fn navigate_script(url: &str) -> (script: String)
    ensures
        script@ == navigate_script_text(url@),
{
    let mut script = String::from_str("window.location.replace('");
    let address = escape(url);
    script.append(address.as_str());
    script.append("');");
    script
}

/// Writes the status line shown while the backend is being started.
pub fn starting_message(port: u16) -> (text: String)
    ensures
        text@ == starting_text(port),
{
    let mut text = String::from_str("Starting Mini Git Server on port ");
    push_decimal(&mut text, port);
    text.append(" ...");
    text
}

/// Writes the status line shown once the port has answered.
pub fn ready_message() -> (text: String)
    ensures
        text@ == ready_text(),
{
    String::from_str("Backend is ready, opening...")
}

/// What the user can do about a failure.
pub fn remedy() -> (text: &'static str)
    ensures
        text@ == remedy_text(),
{
    ", please try again or open in external browser."
}

/// Writes the status line shown when the port has not answered in time.
pub fn probe_timeout_message() -> (text: String)
    ensures
        text@ == probe_timeout_text(),
{
    let mut text = String::from_str("Backend did not respond");
    text.append(remedy());
    text
}

/// Writes the status line shown when the backend could not be started: a
/// fixed opening, what the error says, and the remedy.
pub fn launch_failure_message(error: &LaunchError) -> (text: String)
    ensures
        text@ == launch_failure_text(error_message(error@)),
{
    let mut text = String::from_str("Failed to start backend: ");
    let reason = error.message();
    text.append(reason.as_str());
    text.append(remedy());
    text
}

} // verus!
