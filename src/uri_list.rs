use vstd::prelude::*;

use crate::drop_target::DropHandler;

verus! {

/// Why the payload of a drop could not be used.
#[derive(Debug, Clone, PartialEq, Eq)]
pub enum DndDataParseError {
    /// The peer sent no bytes.
    EmptyData,
    /// The percent-decoded bytes are not UTF-8.
    InvalidUtf8,
    /// A `file://` URI names a host; what follows the scheme is kept.
    HostnameSpecified(String),
    /// A URI with a scheme other than `file://`.
    UnexpectedProtocol(String),
    /// A path that the file system could not resolve.
    UnresolvablePath(String),
}

/// Whether `c` is a hexadecimal digit.
pub open spec fn is_hex_digit(c: u8) -> bool {
    (48 <= c <= 57) || (65 <= c <= 70) || (97 <= c <= 102)
}

/// The value of the hexadecimal digit `c`.
pub open spec fn hex_value(c: u8) -> u8 {
    if c <= 57 {
        (c - 48) as u8
    } else if c <= 70 {
        (c - 55) as u8
    } else {
        (c - 87) as u8
    }
}

/// Percent-decoding: `%` followed by two hexadecimal digits stands for the
/// byte they spell; every other byte, a lone `%` included, stands for itself.
pub open spec fn percent_decoded(s: Seq<u8>) -> Seq<u8>
    decreases s.len(),
{
    if s.len() == 0 {
        s
    } else if s[0] == 37 && s.len() >= 3 && is_hex_digit(s[1]) && is_hex_digit(s[2]) {
        seq![(hex_value(s[1]) * 16 + hex_value(s[2])) as u8] + percent_decoded(s.skip(3))
    } else {
        seq![s[0]] + percent_decoded(s.drop_first())
    }
}

/// `s` cut at every occurrence of `sep`, scanning left to right; `cur` is
/// the piece gathered so far.
pub open spec fn split_from(s: Seq<char>, sep: Seq<char>, cur: Seq<char>) -> Seq<Seq<char>>
    decreases s.len(),
{
    if s.len() == 0 {
        seq![cur]
    } else if sep.len() > 0 && sep.is_prefix_of(s) {
        seq![cur] + split_from(s.skip(sep.len() as int), sep, seq![])
    } else {
        split_from(s.drop_first(), sep, cur.push(s[0]))
    }
}

/// The pieces of `s` between occurrences of the non-empty `sep`.
pub open spec fn split_on(s: Seq<char>, sep: Seq<char>) -> Seq<Seq<char>> {
    split_from(s, sep, seq![])
}

/// `s` with every occurrence of `pat` taken out, scanning left to right.
pub open spec fn remove_all(s: Seq<char>, pat: Seq<char>) -> Seq<char>
    decreases s.len(),
{
    if s.len() == 0 {
        s
    } else if pat.len() > 0 && pat.is_prefix_of(s) {
        remove_all(s.skip(pat.len() as int), pat)
    } else {
        seq![s[0]] + remove_all(s.drop_first(), pat)
    }
}

/// `"\r\n"`, which ends each line of a URI list.
pub open spec fn crlf() -> Seq<char> {
    seq!['\r', '\n']
}

/// `"file://"`, the only scheme a dropped URI may have.
pub open spec fn file_scheme_chars() -> Seq<char> {
    seq!['f', 'i', 'l', 'e', ':', '/', '/']
}

/// `"/"`.
pub open spec fn slash() -> Seq<char> {
    seq!['/']
}

/// What a URI list says, line by line.
pub enum UriLines {
    /// Every line is a local path; these are the paths.
    Paths(Seq<Seq<char>>),
    /// The first offending line names a host; this is what follows the scheme.
    Hostname(Seq<char>),
    /// The first offending line has another scheme; this is the line.
    Protocol(Seq<char>),
}

/// The outcome of reading the lines of a URI list: empty lines are skipped,
/// every other line must be `file://` followed by an absolute path.
pub open spec fn uri_lines(lines: Seq<Seq<char>>) -> UriLines
    decreases lines.len(),
{
    if lines.len() == 0 {
        UriLines::Paths(seq![])
    } else {
        let l = lines[0];
        if l.len() == 0 {
            uri_lines(lines.drop_first())
        } else if !file_scheme_chars().is_prefix_of(l) {
            UriLines::Protocol(l)
        } else {
            let p = remove_all(l, file_scheme_chars());
            if !slash().is_prefix_of(p) {
                UriLines::Hostname(p)
            } else {
                match uri_lines(lines.drop_first()) {
                    UriLines::Paths(ps) => UriLines::Paths(seq![p] + ps),
                    other => other,
                }
            }
        }
    }
}

/// `found` preceded by the paths `ps`.
pub open spec fn after_paths(ps: Seq<Seq<char>>, found: UriLines) -> UriLines {
    match found {
        UriLines::Paths(qs) => UriLines::Paths(ps + qs),
        other => other,
    }
}

/// Whether `r` reports the outcome `u`.
pub open spec fn reports(r: Result<Vec<String>, DndDataParseError>, u: UriLines) -> bool {
    match (r, u) {
        (Ok(v), UriLines::Paths(ps)) => v@.map_values(|s: String| s@) == ps,
        (Err(DndDataParseError::HostnameSpecified(s)), UriLines::Hostname(p)) => s@ == p,
        (Err(DndDataParseError::UnexpectedProtocol(s)), UriLines::Protocol(l)) => s@ == l,
        _ => false,
    }
}

/// The lines of the text that the bytes `data` of a URI list decode to.
pub open spec fn text_lines(data: Seq<u8>) -> Seq<Seq<char>> {
    split_on(vstd::utf8::decode_utf8(percent_decoded(data)), crlf())
}

/// Relies on `percent_encoding::percent_decode`: it yields the decoded bytes
/// one by one as `percent_decoded` describes.
#[verifier::external_body]
fn percent_decode(data: &[u8]) -> (r: Vec<u8>)
    ensures
        r@ == percent_decoded(data@),
{
    percent_encoding::percent_decode(data).collect()
}

/// Relies on `std::str::from_utf8`: it succeeds exactly on valid UTF-8 and
/// then reads the characters the bytes encode.
#[verifier::external_body]
fn utf8_text(bytes: &[u8]) -> (r: Option<String>)
    ensures
        r.is_some() == vstd::utf8::valid_utf8(bytes@),
        r matches Some(s) ==> s@ == vstd::utf8::decode_utf8(bytes@),
{
    match std::str::from_utf8(bytes) {
        Ok(s) => Some(s.to_owned()),
        Err(_) => None,
    }
}

/// Relies on `str::split`: the pieces between occurrences of `sep`, in
/// order, empty ones included.
#[verifier::external_body]
fn split_str(s: &str, sep: &str) -> (r: Vec<String>)
    requires
        sep@.len() > 0,
    ensures
        r@.map_values(|p: String| p@) == split_on(s@, sep@),
{
    s.split(sep).map(String::from).collect()
}

/// Relies on `str::starts_with`: whether `pat` is a prefix of `s`.
#[verifier::external_body]
fn starts_with(s: &str, pat: &str) -> (r: bool)
    ensures
        r == pat@.is_prefix_of(s@),
{
    s.starts_with(pat)
}

/// Relies on `str::replace` with an empty replacement: every occurrence of
/// `pat`, found left to right, is taken out.
#[verifier::external_body]
fn remove_str(s: &str, pat: &str) -> (r: String)
    requires
        pat@.len() > 0,
    ensures
        r@ == remove_all(s@, pat@),
{
    s.replace(pat, "")
}

/// Reads the lines of a URI list.
pub fn parse_lines(lines: &Vec<String>) -> (r: Result<Vec<String>, DndDataParseError>)
    ensures
        reports(r, uri_lines(lines@.map_values(|s: String| s@))),
{
    let ghost all = lines@.map_values(|s: String| s@);
    let scheme = "file://";
    let root = "/";
    proof {
        reveal_strlit("file://");
        reveal_strlit("/");
        assert(scheme@ =~= file_scheme_chars());
        assert(root@ =~= slash());
    }
    let mut paths: Vec<String> = Vec::new();
    let mut i: usize = 0;
    assert(all.skip(0) =~= all);
    while i < lines.len()
        invariant
            0 <= i <= lines@.len(),
            all == lines@.map_values(|s: String| s@),
            scheme@ == file_scheme_chars(),
            root@ == slash(),
            uri_lines(all) == after_paths(
                paths@.map_values(|s: String| s@),
                uri_lines(all.skip(i as int)),
            ),
        decreases lines@.len() - i,
    {
        let line = &lines[i];
        let ghost rest = all.skip(i as int);
        assert(rest[0] == line@);
        assert(rest.drop_first() =~= all.skip(i + 1));
        if line.as_str().is_empty() {
        } else if !starts_with(line.as_str(), scheme) {
            return Err(DndDataParseError::UnexpectedProtocol(line.clone()));
        } else {
            let path = remove_str(line.as_str(), scheme);
            if !starts_with(path.as_str(), root) {
                return Err(DndDataParseError::HostnameSpecified(path));
            }
            let ghost before = paths@.map_values(|s: String| s@);
            paths.push(path);
            proof {
                let after = paths@.map_values(|s: String| s@);
                assert(after =~= before.push(path@));
                match uri_lines(all.skip(i + 1)) {
                    UriLines::Paths(qs) => {
                        assert(before + (seq![path@] + qs) =~= after + qs);
                    },
                    _ => {},
                }
            }
        }
        i = i + 1;
    }
    proof {
        assert(all.skip(i as int) =~= Seq::<Seq<char>>::empty());
        let v = paths@.map_values(|s: String| s@);
        assert(v + Seq::<Seq<char>>::empty() =~= v);
    }
    Ok(paths)
}

impl DropHandler {
    /// Reads the bytes of a URI list, as a peer sends them for a drop: they are
    /// percent-decoded, must then be UTF-8, and every non-empty line must be a
    /// `file://` URI of an absolute path.
    pub fn parse_data(&self, data: &[u8]) -> (r: Result<Vec<String>, DndDataParseError>)
        ensures
            data@.len() == 0 ==> r == Err::<Vec<String>, DndDataParseError>(
                DndDataParseError::EmptyData,
            ),
            data@.len() > 0 && !vstd::utf8::valid_utf8(percent_decoded(data@)) ==> r == Err::<
                Vec<String>,
                DndDataParseError,
            >(DndDataParseError::InvalidUtf8),
            data@.len() > 0 && vstd::utf8::valid_utf8(percent_decoded(data@)) ==> reports(
                r,
                uri_lines(text_lines(data@)),
            ),
    {
        if data.len() == 0 {
            return Err(DndDataParseError::EmptyData);
        }
        let decoded = percent_decode(data);
        let text = match utf8_text(decoded.as_slice()) {
            Some(t) => t,
            None => return Err(DndDataParseError::InvalidUtf8),
        };
        let sep = "\r\n";
        proof {
            reveal_strlit("\r\n");
            assert(sep@ =~= crlf());
        }
        let lines = split_str(text.as_str(), sep);
        parse_lines(&lines)
    }
}

} // verus!
