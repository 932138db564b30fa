use vstd::prelude::*;

verus! {

/// A line of interest, together with the file path extracted from it.
pub struct FileLine {
    pub file: String,
    pub line: String,
}

/// The text of an optional captured string.
pub open spec fn opt_text(o: Option<String>) -> Option<Seq<char>> {
    match o {
        Some(s) => Some(s@),
        None => None,
    }
}

/// The text that capture group 2 of `pattern`'s first match in `line` spans:
/// `None` when the pattern is invalid, does not match `line`, or group 2 did
/// not participate in the match. A function of the two texts alone; only
/// named here, since stating it would mean writing out the regex engine.
pub uninterp spec fn capture_two(pattern: Seq<char>, line: Seq<char>) -> Option<Seq<char>>;

/// Relies on `regex::Regex::new`, `Regex::captures` and `Captures::get`:
/// compiles `pattern`, finds its leftmost match in `line`, and hands back the
/// text of capture group 2. Compilation and matching are deterministic in the
/// two texts, so the outcome is a function of them alone.
#[verifier::external_body]
fn capture_second_group(pattern: &str, line: &str) -> (r: Option<String>)
    ensures
        opt_text(r) == capture_two(pattern@, line@),
{
    let re = match regex::Regex::new(pattern) {
        Ok(re) => re,
        Err(_) => return None,
    };
    let caps = match re.captures(line) {
        Some(caps) => caps,
        None => return None,
    };
    match caps.get(2) {
        Some(found) => Some(found.as_str().to_owned()),
        None => None,
    }
}

/// Builds the emitted record from a line and the path captured in it, if
/// any: the capture becomes the file path, the line is kept whole.
pub fn file_line_of_capture(line: &str, captured: Option<String>) -> (r: Option<FileLine>)
    ensures
        match captured {
            Some(path) => r is Some && r.unwrap().file@ == path@ && r.unwrap().line@ == line@,
            None => r is None,
        },
{
    match captured {
        Some(path) => Some(FileLine { file: path, line: line.to_owned() }),
        None => None,
    }
}

/// Scans one line with `pattern`: emits the line together with the captured
/// file path when the pattern's second capture group matches, and nothing
/// otherwise.
pub fn process_line(line: &str, pattern: &str) -> (r: Option<FileLine>)
    ensures
        match capture_two(pattern@, line@) {
            Some(path) => r is Some && r.unwrap().file@ == path && r.unwrap().line@ == line@,
            None => r is None,
        },
{
    let captured = capture_second_group(pattern, line);
    file_line_of_capture(line, captured)
}

} // verus!
