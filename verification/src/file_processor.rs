//! Measurement file processing: line-by-line filtering of a text file's
//! content into normalized hex measurements.
//!
//! A line is either blank, a comment (`#` prefix) or a candidate hex
//! string (hex digits with optional embedded spaces). Non-qualifying
//! lines are silently dropped; qualifying lines are normalized to
//! exactly 64 hex characters by left-padding with zeros.

use vstd::prelude::*;
use vstd::string::*;
use crate::text::{
    all_hex, char_is_hex, char_is_space, is_hex_char, is_space_char, left_pad_zeros,
    lemma_strip_spaces_id, lemma_strip_spaces_no_spaces, push_char, remove_spaces, strip_spaces,
    trim_spec, trim_str,
};

verus! {

/// A hex measurement is acceptable when, after removing embedded
/// spaces, at most 64 characters remain and all of them are hex digits.
pub open spec fn validate_ok(s: Seq<char>) -> bool {
    strip_spaces(s).len() <= 64 && all_hex(strip_spaces(s))
}

/// The normalized form of an acceptable measurement: the space-free
/// digits, left-padded with `'0'` to exactly 64 characters.
pub open spec fn validated_hex(s: Seq<char>) -> Seq<char> {
    left_pad_zeros(strip_spaces(s), 64)
}

/// What one file line contributes: `None` for a blank line, a comment,
/// or anything that is not an acceptable hex string; otherwise the
/// normalized 64-character measurement.
pub open spec fn line_measurement(line: Seq<char>) -> Option<Seq<char>> {
    let t = trim_spec(line);
    if t.len() == 0 {
        None
    } else if t[0] == '#' {
        None
    } else if forall|i: int| 0 <= i < t.len() ==> is_hex_char(#[trigger] t[i]) || is_space_char(
        t[i],
    ) {
        let h = strip_spaces(t);
        if h.len() == 0 {
            None
        } else if h.len() <= 64 && all_hex(h) {
            Some(left_pad_zeros(h, 64))
        } else {
            None
        }
    } else {
        None
    }
}

/// The measurements parsed out of a file's lines, in file order, with
/// every non-qualifying line silently dropped.
pub open spec fn parse_lines_spec(lines: Seq<Seq<char>>) -> Seq<Seq<char>>
    decreases lines.len(),
{
    if lines.len() == 0 {
        Seq::empty()
    } else {
        let rest = parse_lines_spec(lines.drop_last());
        if line_measurement(lines.last()) is Some {
            rest.push(line_measurement(lines.last())->0)
        } else {
            rest
        }
    }
}

fn line_is_candidate(t: &str) -> (r: bool)
    ensures
        r == (forall|i: int| 0 <= i < t@.len() ==> is_hex_char(#[trigger] t@[i]) || is_space_char(
            t@[i],
        )),
{
    let n = t.unicode_len();
    let mut i: usize = 0;
    while i < n
        invariant
            n == t@.len(),
            0 <= i <= n,
            forall|j: int| 0 <= j < i ==> is_hex_char(#[trigger] t@[j]) || is_space_char(t@[j]),
        decreases n - i,
    {
        let c = t.get_char(i);
        if !char_is_hex(c) && !char_is_space(c) {
            return false;
        }
        i = i + 1;
    }
    true
}

/// Reads measurement files' content line by line and keeps the
/// qualifying measurements, normalized; a read failure is recorded as an
/// error message instead.
pub struct MeasurementFileProcessor {
    pub file_path: Option<String>,
    pub file_content: Vec<String>,
    pub parsed_measurements: Vec<String>,
    pub error: Option<String>,
}

impl MeasurementFileProcessor {
    /// A fresh processor with nothing loaded.
    pub fn new() -> (r: Self)
        ensures
            r.file_path is None,
            r.file_content@.len() == 0,
            r.parsed_measurements@.len() == 0,
            r.error is None,
    {
        Self {
            file_path: None,
            file_content: Vec::new(),
            parsed_measurements: Vec::new(),
            error: None,
        }
    }

    /// Takes a successfully read file: remembers its path and lines,
    /// clears any earlier error, and parses the measurements.
    pub fn load_content(&mut self, path: String, content: Vec<String>)
        ensures
            final(self).file_path == Some(path),
            final(self).file_content == content,
            final(self).error is None,
            final(self).parsed_measurements.deep_view() == parse_lines_spec(content.deep_view()),
    {
        self.file_path = Some(path);
        self.file_content = content;
        self.error = None;
        self.parse_measurements();
    }

    /// Records a failed file read: the error message is kept and any
    /// earlier content and measurements are discarded; the remembered
    /// path is unchanged.
    pub fn record_read_error(&mut self, message: String)
        ensures
            final(self).file_path == old(self).file_path,
            final(self).file_content@.len() == 0,
            final(self).parsed_measurements@.len() == 0,
            final(self).error == Some(message),
    {
        self.file_content = Vec::new();
        self.parsed_measurements = Vec::new();
        self.error = Some(message);
    }

    /// Re-derives the parsed measurements from the stored file content.
    pub fn parse_measurements(&mut self)
        ensures
            final(self).file_path == old(self).file_path,
            final(self).file_content == old(self).file_content,
            final(self).error == old(self).error,
            final(self).parsed_measurements.deep_view() == parse_lines_spec(
                old(self).file_content.deep_view(),
            ),
    {
        let ghost lines = self.file_content.deep_view();
        let mut out: Vec<String> = Vec::new();
        let n = self.file_content.len();
        let mut i: usize = 0;
        while i < n
            invariant
                lines == self.file_content.deep_view(),
                n == lines.len(),
                0 <= i <= n,
                out.deep_view() == parse_lines_spec(lines.take(i as int)),
                self == old(self),
            decreases n - i,
        {
            proof {
                let t = lines.take(i as int + 1);
                assert(t.drop_last() =~= lines.take(i as int));
                assert(t.last() == lines[i as int]);
                assert(lines[i as int] == self.file_content@[i as int]@);
            }
            let trimmed = trim_str(self.file_content[i].as_str());
            let keep: Option<String> = if trimmed.unicode_len() == 0 {
                None
            } else if trimmed.get_char(0) == '#' {
                None
            } else if !line_is_candidate(trimmed) {
                None
            } else {
                let cleaned = remove_spaces(trimmed);
                proof {
                    lemma_strip_spaces_no_spaces(trimmed@);
                    lemma_strip_spaces_id(cleaned@);
                }
                if cleaned.as_str().unicode_len() == 0 {
                    None
                } else {
                    match self.validate_hex(cleaned.as_str()) {
                        Ok(v) => Some(v),
                        Err(_) => None,
                    }
                }
            };
            match keep {
                Some(v) => {
                    proof {
                        assert(out.deep_view().push(v@) =~= parse_lines_spec(
                            lines.take(i as int + 1),
                        ));
                    }
                    out.push(v);
                    proof {
                        assert(out.deep_view() =~= parse_lines_spec(lines.take(i as int + 1)));
                    }
                },
                None => {},
            }
            i = i + 1;
        }
        proof {
            assert(lines.take(n as int) =~= lines);
        }
        self.parsed_measurements = out;
    }

    /// Validates one hex measurement: removes embedded spaces, rejects
    /// more than 64 characters or any non-hex character, and left-pads
    /// shorter inputs with zeros to exactly 64 characters.
    pub fn validate_hex(&self, hex: &str) -> (r: Result<String, &'static str>)
        ensures
            r is Ok <==> validate_ok(hex@),
            r matches Ok(p) ==> p@ == validated_hex(hex@),
            r is Err && strip_spaces(hex@).len() > 64 ==> r->Err_0@
                == "Measurement must be at most 64 hex characters"@,
            r is Err && strip_spaces(hex@).len() <= 64 ==> r->Err_0@ == "Invalid hex characters"@,
    {
        let cleaned = remove_spaces(hex);
        let n = cleaned.as_str().unicode_len();
        if n > 64 {
            return Err("Measurement must be at most 64 hex characters");
        }
        let mut i: usize = 0;
        while i < n
            invariant
                cleaned@ == strip_spaces(hex@),
                n == cleaned@.len(),
                n <= 64,
                0 <= i <= n,
                forall|j: int| 0 <= j < i ==> is_hex_char(#[trigger] cleaned@[j]),
            decreases n - i,
        {
            if !char_is_hex(cleaned.as_str().get_char(i)) {
                proof {
                    assert(strip_spaces(hex@).len() <= 64);
                }
                return Err("Invalid hex characters");
            }
            i = i + 1;
        }
        let mut padded = String::new();
        let mut k: usize = 64 - n;
        while k > 0
            invariant
                n <= 64,
                k <= 64 - n,
                padded@ =~= Seq::new((64 - n - k) as nat, |j: int| '0'),
            decreases k,
    {
            push_char(&mut padded, '0');
            proof {
                assert(padded@ =~= Seq::new((64 - n - (k - 1)) as nat, |j: int| '0'));
            }
            k = k - 1;
        }
        padded.append(cleaned.as_str());
        proof {
            assert(padded@ =~= validated_hex(hex@));
        }
        Ok(padded)
    }

    /// The path of the last file handed over, if any.
    pub fn get_file_path(&self) -> (r: Option<String>)
        ensures
            r is Some <==> self.file_path is Some,
            r matches Some(p) ==> p@ == self.file_path->0@,
    {
        match &self.file_path {
            None => None,
            Some(p) => Some(p.clone()),
        }
    }

    /// The stored file content, line by line.
    pub fn get_file_content(&self) -> (r: &[String])
        ensures
            r@ == self.file_content@,
    {
        self.file_content.as_slice()
    }

    /// The measurements parsed from the stored content, in file order.
    pub fn get_parsed_measurements(&self) -> (r: &[String])
        ensures
            r@ == self.parsed_measurements@,
    {
        self.parsed_measurements.as_slice()
    }

    /// The recorded read error, if any.
    pub fn get_error(&self) -> (r: Option<&str>)
        ensures
            r is Some <==> self.error is Some,
            r matches Some(m) ==> m@ == self.error->0@,
    {
        match &self.error {
            None => None,
            Some(m) => Some(m.as_str()),
        }
    }
}

} // verus!
