use vstd::prelude::*;

use crate::text::{
    find_text, first_occurrence, is_last_char, last_char, last_char_before, lemma_first_occurrence_is,
    lemma_last_char_is, lemma_no_occurrence, occurs_at, trim_text, trimmed,
};

verus! {

/// The latest known state of a running download.
pub struct DownloadProgress {
    /// Bit pattern of the percentage as an IEEE-754 single-precision number.
    pub percentage_bits: u32,
    /// Human-readable transfer rate; empty until known.
    pub speed: String,
    /// Human-readable remaining time; empty until known.
    pub eta: String,
    /// Name of the file being written; empty until known.
    pub filename: String,
}

/// Mathematical view of a [`DownloadProgress`].
pub struct ProgressView {
    pub percentage_bits: u32,
    pub speed: Seq<char>,
    pub eta: Seq<char>,
    pub filename: Seq<char>,
}

impl View for DownloadProgress {
    type V = ProgressView;

    open spec fn view(&self) -> ProgressView {
        ProgressView {
            percentage_bits: self.percentage_bits,
            speed: self.speed@,
            eta: self.eta@,
            filename: self.filename@,
        }
    }
}

/// The characters of an optional text.
pub open spec fn text_opt(o: Option<String>) -> Option<Seq<char>> {
    match o {
        Some(s) => Some(s@),
        None => None,
    }
}

/// The marker that the download tool puts on its progress lines.
pub open spec fn progress_marker() -> Seq<char> {
    "[download]"@
}

/// The tag that precedes the name of the file being written.
pub open spec fn destination_tag() -> Seq<char> {
    "Destination:"@
}

pub open spec fn is_progress_line(line: Seq<char>) -> bool {
    first_occurrence(line, progress_marker()) is Some
}

/// The token that ends just before the first `%`, back to the nearest space.
pub open spec fn percent_token_of(line: Seq<char>) -> Option<Seq<char>> {
    match first_occurrence(line, "%"@) {
        Some(i) => if i > 1 {
            match last_char(line.subrange(0, i), ' ') {
                Some(j) => Some(line.subrange(j + 1, i)),
                None => None,
            }
        } else {
            None
        },
        None => None,
    }
}

/// The trimmed text between the first `open` and the next `close` after it.
pub open spec fn text_between(line: Seq<char>, open: Seq<char>, close: Seq<char>) -> Option<
    Seq<char>,
> {
    match first_occurrence(line, open) {
        Some(i) => {
            let rest = line.subrange(i + open.len(), line.len() as int);
            match first_occurrence(rest, close) {
                Some(j) => Some(trimmed(rest.subrange(0, j))),
                None => None,
            }
        },
        None => None,
    }
}

pub open spec fn speed_of(line: Seq<char>) -> Option<Seq<char>> {
    text_between(line, "at "@, "/"@)
}

pub open spec fn eta_of(line: Seq<char>) -> Option<Seq<char>> {
    text_between(line, "ETA "@, "]"@)
}

/// Everything after the destination tag, trimmed.
pub open spec fn filename_of(line: Seq<char>) -> Option<Seq<char>> {
    match first_occurrence(line, destination_tag()) {
        Some(i) => Some(trimmed(line.subrange(i + destination_tag().len(), line.len() as int))),
        None => None,
    }
}

/// Bit pattern of the single-precision value 100.0. Among the bit patterns
/// with the sign bit clear, those up to this one are exactly the values in
/// [0, 100]; every NaN, infinity and negative value lies outside.
pub const PERCENT_MAX_BITS: u32 = 0x42C8_0000;

/// A percentage was given, and it lies in [0, 100].
pub open spec fn percent_in_range(percentage: Option<u32>) -> bool {
    percentage is Some && percentage->0 <= PERCENT_MAX_BITS
}

/// Snapshot after a progress line whose percentage token parsed to `percentage`.
pub open spec fn after_progress(p: ProgressView, line: Seq<char>, percentage: Option<u32>) -> ProgressView {
    if is_progress_line(line) && percent_in_range(percentage) {
        ProgressView {
            percentage_bits: percentage->0,
            speed: match speed_of(line) {
                Some(v) => v,
                None => p.speed,
            },
            eta: match eta_of(line) {
                Some(v) => v,
                None => p.eta,
            },
            filename: p.filename,
        }
    } else {
        p
    }
}

/// Snapshot after a line that may name the destination file.
pub open spec fn after_destination(p: ProgressView, line: Seq<char>) -> ProgressView {
    match filename_of(line) {
        Some(f) => ProgressView { filename: f, ..p },
        None => p,
    }
}

/// Snapshot after one output line of the download tool.
pub open spec fn after_line(p: ProgressView, line: Seq<char>, percentage: Option<u32>) -> ProgressView {
    after_destination(after_progress(p, line, percentage), line)
}

/// Whether one output line changes the snapshot (and so is pushed to observers).
pub open spec fn line_updates(line: Seq<char>, percentage: Option<u32>) -> bool {
    (is_progress_line(line) && percent_in_range(percentage)) || filename_of(line) is Some
}

/// The percentage token of a progress line: the text that ends just before
/// the first `%` and starts after the nearest space before it.
pub fn percent_token(line: &str) -> (r: Option<String>)
    ensures
        text_opt(r) == percent_token_of(line@),
{
    match find_text(line, "%") {
        Some(i) => {
            if i > 1 {
                match last_char_before(line, ' ', i) {
                    Some(j) => Some(line.substring_char(j + 1, i).to_owned()),
                    None => None,
                }
            } else {
                None
            }
        },
        None => None,
    }
}

/// The trimmed text between the first `open` and the next `close` after it.
fn text_between_exec(line: &str, open: &str, close: &str) -> (r: Option<String>)
    ensures
        text_opt(r) == text_between(line@, open@, close@),
{
    match find_text(line, open) {
        Some(i) => {
            let n = line.unicode_len();
            let k = open.unicode_len();
            let rest = line.substring_char(i + k, n);
            match find_text(rest, close) {
                Some(j) => Some(trim_text(rest.substring_char(0, j))),
                None => None,
            }
        },
        None => None,
    }
}

/// The transfer rate of a progress line: the text between `at ` and the next `/`.
pub fn speed_field(line: &str) -> (r: Option<String>)
    ensures
        text_opt(r) == speed_of(line@),
{
    text_between_exec(line, "at ", "/")
}

/// The remaining time of a progress line: the text between `ETA ` and the next `]`.
pub fn eta_field(line: &str) -> (r: Option<String>)
    ensures
        text_opt(r) == eta_of(line@),
{
    text_between_exec(line, "ETA ", "]")
}

/// The file name of a destination line: everything after `Destination:`.
pub fn filename_field(line: &str) -> (r: Option<String>)
    ensures
        text_opt(r) == filename_of(line@),
{
    match find_text(line, "Destination:") {
        Some(i) => {
            let n = line.unicode_len();
            let k = "Destination:".unicode_len();
            Some(trim_text(line.substring_char(i + k, n)))
        },
        None => None,
    }
}

/// Whether the line carries the download tool's progress marker.
pub fn is_progress(line: &str) -> (r: bool)
    ensures
        r == is_progress_line(line@),
{
    find_text(line, "[download]").is_some()
}

impl DownloadProgress {
    /// A snapshot with zero percentage and every text empty.
    pub fn new() -> (r: DownloadProgress)
        ensures
            r@ == (ProgressView {
                percentage_bits: 0,
                speed: Seq::empty(),
                eta: Seq::empty(),
                filename: Seq::empty(),
            }),
    {
        DownloadProgress {
            percentage_bits: 0,
            speed: String::new(),
            eta: String::new(),
            filename: String::new(),
        }
    }

    /// A copy with the same fields.
    pub fn snapshot(&self) -> (r: DownloadProgress)
        ensures
            r@ == self@,
    {
        DownloadProgress {
            percentage_bits: self.percentage_bits,
            speed: self.speed.clone(),
            eta: self.eta.clone(),
            filename: self.filename.clone(),
        }
    }

    /// Takes in a progress line. `percentage` is the value that the line's
    /// percentage token parsed to, as single-precision bits, or `None` where
    /// the line has no such token or it did not parse. A value outside
    /// [0, 100] (a NaN, an infinity, a negative value) is refused: nothing
    /// changes. Fields that the line does not give keep their values.
    pub fn parse_progress(&mut self, line: &str, percentage: Option<u32>) -> (updated: bool)
        ensures
            final(self)@ == after_progress(old(self)@, line@, percentage),
            updated == (is_progress_line(line@) && percent_in_range(percentage)),
    {
        if !is_progress(line) {
            return false;
        }
        let bits = match percentage {
            Some(b) => b,
            None => {
                return false;
            },
        };
        if bits > PERCENT_MAX_BITS {
            return false;
        }
        self.percentage_bits = bits;
        match speed_field(line) {
            Some(v) => {
                self.speed = v;
            },
            None => {},
        }
        match eta_field(line) {
            Some(v) => {
                self.eta = v;
            },
            None => {},
        }
        true
    }

    /// Takes in a destination line: the file name becomes what follows the tag.
    pub fn parse_filename(&mut self, line: &str) -> (updated: bool)
        ensures
            final(self)@ == after_destination(old(self)@, line@),
            updated == filename_of(line@) is Some,
    {
        match filename_field(line) {
            Some(f) => {
                self.filename = f;
                true
            },
            None => false,
        }
    }

    /// Takes in one output line of the download tool; see [`Self::parse_progress`]
    /// for `percentage`. Returns whether the snapshot was updated.
    pub fn apply_line(&mut self, line: &str, percentage: Option<u32>) -> (updated: bool)
        ensures
            final(self)@ == after_line(old(self)@, line@, percentage),
            updated == line_updates(line@, percentage),
    {
        let a = self.parse_progress(line, percentage);
        let b = self.parse_filename(line);
        a || b
    }
}

/// A number written right before a `%`, after a space, in a line whose text
/// before it holds the progress marker and no `%`, is exactly the line's
/// percentage token, whatever follows.
pub proof fn lemma_percent_token_exact(prefix: Seq<char>, number: Seq<char>, rest: Seq<char>)
    requires
        exists|i: int| occurs_at(prefix, progress_marker(), i),
        forall|k: int| 0 <= k < prefix.len() ==> prefix[k] != '%',
        forall|k: int| 0 <= k < number.len() ==> number[k] != '%' && number[k] != ' ',
    ensures
        percent_token_of(prefix + seq![' '] + number + "%"@ + rest) == Some(number),
{
    reveal_strlit("%");
    reveal_strlit("[download]");
    let line = prefix + seq![' '] + number + "%"@ + rest;
    let p: int = prefix.len() + 1 + number.len() as int;
    let q: int = prefix.len() as int;
    assert(prefix.len() >= 10);
    assert(line.subrange(p, p + 1) =~= "%"@);
    assert forall|j: int| 0 <= j < p implies !occurs_at(line, "%"@, j) by {
        assert(line.subrange(j, j + 1)[0] == line[j]);
        if j < prefix.len() {
            assert(line[j] == prefix[j]);
        } else if j > prefix.len() {
            assert(line[j] == number[j - prefix.len() - 1]);
        }
    }
    lemma_first_occurrence_is(line, "%"@, p);
    let head = line.subrange(0, p);
    assert forall|k: int| prefix.len() < k < head.len() implies head[k] != ' ' by {
        assert(head[k] == number[k - prefix.len() - 1]);
    }
    assert(is_last_char(head, ' ', prefix.len() as int));
    lemma_last_char_is(head, ' ', prefix.len() as int);
    assert(line.subrange(q + 1, p) =~= number);
}

/// A line without `%` has no percentage token, leaves percentage, speed and
/// remaining time as they were, and leaves the whole snapshot as it was
/// unless it names a destination file.
pub proof fn lemma_no_percent_no_change(p: ProgressView, line: Seq<char>)
    requires
        forall|k: int| 0 <= k < line.len() ==> line[k] != '%',
    ensures
        percent_token_of(line) is None,
        after_progress(p, line, None) == p,
        filename_of(line) is None ==> after_line(p, line, None) == p,
{
    reveal_strlit("%");
    assert forall|j: int| !occurs_at(line, "%"@, j) by {
        if occurs_at(line, "%"@, j) {
            assert(line.subrange(j, j + 1)[0] == line[j]);
        }
    }
    lemma_no_occurrence(line, "%"@);
}

} // verus!
