//! `file://` URIs and their conversion from and to file-system paths.

use vstd::prelude::*;
use vstd::utf8::*;
use std::borrow::Cow;
use percent_encoding::{percent_decode, percent_encode_byte};
use vstd::std_specs::cmp::PartialEqSpecImpl;
use vstd::std_specs::cmp::PartialEqSpec;
use crate::text::{push_char, str_eq};

verus! {

/// A URI, held as its text.
#[derive(Debug, Clone, Eq, Hash)]
pub struct Uri(pub String);

impl Uri {
    /// The URI's text.
    pub fn to_string(&self) -> (r: String)
        ensures
            r@ == self.0@,
    {
        self.0.clone()
    }
}

impl Default for Uri {
    /// The empty URI.
    fn default() -> (r: Uri)
        ensures
            r.0@ == Seq::<char>::empty(),
    {
        Uri(String::new())
    }
}

impl PartialEq for Uri {
    fn eq(&self, other: &Uri) -> (r: bool)
        ensures
            r == (self.0@ == other.0@),
    {
        self.0 == other.0
    }
}

impl PartialEqSpecImpl for Uri {
    open spec fn obeys_eq_spec() -> bool {
        true
    }

    open spec fn eq_spec(&self, other: &Uri) -> bool {
        self.0@ == other.0@
    }
}

impl PartialEq<str> for Uri {
    fn eq(&self, other: &str) -> (r: bool)
        ensures
            r == (self.0@ == other@),
    {
        str_eq(self.0.as_str(), other)
    }
}

impl PartialEqSpecImpl<str> for Uri {
    open spec fn obeys_eq_spec() -> bool {
        true
    }

    open spec fn eq_spec(&self, other: &str) -> bool {
        self.0@ == other@
    }
}

impl<'a> PartialEq<&'a str> for Uri {
    fn eq(&self, other: &&'a str) -> (r: bool)
        ensures
            r == (self.0@ == (*other)@),
    {
        str_eq(self.0.as_str(), *other)
    }
}

impl<'a> PartialEqSpecImpl<&'a str> for Uri {
    open spec fn obeys_eq_spec() -> bool {
        true
    }

    open spec fn eq_spec(&self, other: &&'a str) -> bool {
        self.0@ == (*other)@
    }
}

/// Two URIs are equal exactly when their texts are the same, and a URI
/// equals a text exactly when its own text is that text.
pub proof fn lemma_uri_equality(a: Uri, b: Uri, s: &str)
    ensures
        <Uri as PartialEqSpec>::eq_spec(&a, &b) == (a.0@ == b.0@),
        <Uri as PartialEqSpec>::eq_spec(&a, &b) ==> a.0@.len() == b.0@.len(),
        <Uri as PartialEqSpec<str>>::eq_spec(&a, s) == (a.0@ == s@),
        <Uri as PartialEqSpec<&str>>::eq_spec(&a, &s) == (a.0@ == s@),
{
}

// ---------------------------------------------------------------------
// Percent-encoding of paths
// ---------------------------------------------------------------------

/// The digit for `v` (`0 <= v < 16`) in upper-case hexadecimal.
pub open spec fn upper_hex_digit(v: int) -> char {
    if v < 10 {
        ('0' as int + v) as char
    } else {
        ('A' as int + v - 10) as char
    }
}

/// `%` followed by the byte in two upper-case hexadecimal digits.
pub open spec fn percent_escape_of(b: u8) -> Seq<char> {
    seq!['%', upper_hex_digit(b as int / 16), upper_hex_digit(b as int % 16)]
}

/// The bytes a path segment escapes besides the non-ASCII ones: the C0
/// controls, DEL, and ` `, `#`, `?`, `%`, `[`, `]`, `/`.
pub open spec fn in_path_escape_set(b: u8) -> bool {
    ||| b < 0x20
    ||| b == 0x7f
    ||| b == ' ' as u8
    ||| b == '#' as u8
    ||| b == '?' as u8
    ||| b == '%' as u8
    ||| b == '[' as u8
    ||| b == ']' as u8
    ||| b == '/' as u8
}

/// Whether a byte of a path segment is written as an escape.
pub open spec fn escapes(b: u8) -> bool {
    b >= 0x80 || in_path_escape_set(b)
}

/// What a byte of a path segment becomes in the URI.
pub open spec fn encode_byte(b: u8) -> Seq<char> {
    if escapes(b) {
        percent_escape_of(b)
    } else {
        seq![b as char]
    }
}

/// The URI text of a path's bytes: each `/` stays, each other byte is
/// encoded as a byte of a segment.
pub open spec fn encode_path(b: Seq<u8>) -> Seq<char>
    decreases b.len(),
{
    if b.len() == 0 {
        seq![]
    } else {
        encode_path(b.drop_last()) + if b.last() == '/' as u8 {
            seq!['/']
        } else {
            encode_byte(b.last())
        }
    }
}

/// The bytes with every leading `/` removed.
pub open spec fn strip_leading_slashes(b: Seq<u8>) -> Seq<u8>
    decreases b.len(),
{
    if b.len() > 0 && b[0] == '/' as u8 {
        strip_leading_slashes(b.drop_first())
    } else {
        b
    }
}

/// The text with every leading `/` removed.
pub open spec fn trim_leading_slashes(p: Seq<char>) -> Seq<char>
    decreases p.len(),
{
    if p.len() > 0 && p[0] == '/' {
        trim_leading_slashes(p.drop_first())
    } else {
        p
    }
}

/// `file:///`
pub open spec fn file_scheme() -> Seq<char> {
    seq!['f', 'i', 'l', 'e', ':', '/', '/', '/']
}

/// The URI text of the path `p`.
pub open spec fn file_uri_of(p: Seq<char>) -> Seq<char> {
    file_scheme() + encode_path(strip_leading_slashes(encode_utf8(p)))
}

/// `percent_encoding::percent_encode_byte`: the byte as `%` and two
/// upper-case hexadecimal digits.
#[verifier::external_body]
fn percent_escape(byte: u8) -> (r: &'static str)
    ensures
        r@ == percent_escape_of(byte),
{
    percent_encode_byte(byte)
}

fn byte_escapes(b: u8) -> (r: bool)
    ensures
        r == escapes(b),
{
    b >= 0x80 || b < 0x20 || b == 0x7f || b == ' ' as u8 || b == '#' as u8 || b == '?' as u8 || b == '%' as u8
        || b == '[' as u8 || b == ']' as u8 || b == '/' as u8
}

// ---------------------------------------------------------------------
// Percent-decoding and path assembly
// ---------------------------------------------------------------------

/// A hexadecimal digit, in either case.
pub open spec fn is_hex_digit(b: u8) -> bool {
    ||| '0' as u8 <= b <= '9' as u8
    ||| 'a' as u8 <= b <= 'f' as u8
    ||| 'A' as u8 <= b <= 'F' as u8
}

/// The value of a hexadecimal digit.
pub open spec fn hex_value(b: u8) -> int {
    if b <= '9' as u8 {
        b - '0' as u8
    } else if b <= 'F' as u8 {
        b - 'A' as u8 + 10
    } else {
        b - 'a' as u8 + 10
    }
}

/// Percent-decoding: each `%` followed by two hexadecimal digits becomes the
/// byte they spell; every other byte stays as it is.
pub open spec fn percent_decoded(b: Seq<u8>) -> Seq<u8>
    decreases b.len(),
{
    if b.len() == 0 {
        seq![]
    } else if b[0] == '%' as u8 && b.len() >= 3 && is_hex_digit(b[1]) && is_hex_digit(b[2]) {
        seq![(hex_value(b[1]) * 16 + hex_value(b[2])) as u8] + percent_decoded(b.skip(3))
    } else {
        seq![b[0]] + percent_decoded(b.skip(1))
    }
}

/// What `String::from_utf8_lossy` makes of the bytes.
pub uninterp spec fn utf8_lossy(bytes: Seq<u8>) -> Seq<char>;

/// `percent_encoding::percent_decode`, collected into a vector.
#[verifier::external_body]
fn percent_decode_bytes(bytes: &[u8]) -> (r: Vec<u8>)
    ensures
        r@ == percent_decoded(bytes@),
{
    Cow::from(percent_decode(bytes)).into_owned()
}

/// `String::from_utf8_lossy`, owned. The contract names the result; of it,
/// it states only that valid UTF-8 is decoded as it is. How invalid
/// sequences are replaced is left unsaid.
#[verifier::external_body]
fn decode_utf8_lossy(bytes: &[u8]) -> (r: String)
    ensures
        r@ == utf8_lossy(bytes@),
        valid_utf8(bytes@) ==> r@ == decode_utf8(bytes@),
{
    String::from_utf8_lossy(bytes).into_owned()
}

/// The pieces of `b` between its `/` bytes, as `split('/')` yields them:
/// always at least one, and an empty one wherever two `/` meet or `b` starts
/// or ends with `/`.
pub open spec fn split_slash(b: Seq<u8>) -> Seq<Seq<u8>>
    decreases b.len(),
{
    if b.len() == 0 {
        seq![seq![]]
    } else {
        let pieces = split_slash(b.drop_last());
        if b.last() == '/' as u8 {
            pieces.push(seq![])
        } else {
            pieces.update(pieces.len() - 1, pieces.last().push(b.last()))
        }
    }
}

/// `split_slash` yields at least one piece.
pub proof fn lemma_split_slash_len(b: Seq<u8>)
    ensures
        split_slash(b).len() >= 1,
    decreases b.len(),
{
    if b.len() > 0 {
        lemma_split_slash_len(b.drop_last());
    }
}

/// The text of a path segment: percent-decoded, then read as UTF-8, with
/// invalid sequences replaced as `String::from_utf8_lossy` does.
pub open spec fn segment_text(seg: Seq<u8>) -> Seq<char> {
    let bytes = percent_decoded(seg);
    if valid_utf8(bytes) {
        decode_utf8(bytes)
    } else {
        utf8_lossy(bytes)
    }
}

/// Appending `s` to the path `buf`: a path that starts with `/` replaces
/// `buf`; otherwise a `/` separates the two unless `buf` is empty or already
/// ends with one.
pub open spec fn path_push(buf: Seq<char>, s: Seq<char>) -> Seq<char> {
    if s.len() > 0 && s[0] == '/' {
        s
    } else if buf.len() > 0 && buf.last() != '/' {
        buf + seq!['/'] + s
    } else {
        buf + s
    }
}

/// The path `buf` with the texts of `segs` appended in order.
pub open spec fn push_segments(buf: Seq<char>, segs: Seq<Seq<u8>>) -> Seq<char>
    decreases segs.len(),
{
    if segs.len() == 0 {
        buf
    } else {
        path_push(push_segments(buf, segs.drop_last()), segment_text(segs.last()))
    }
}

/// The bytes of `file:///`.
pub open spec fn file_scheme_bytes() -> Seq<u8> {
    seq!['f' as u8, 'i' as u8, 'l' as u8, 'e' as u8, ':' as u8, '/' as u8, '/' as u8, '/' as u8]
}

/// An ASCII letter.
pub open spec fn is_ascii_letter(b: u8) -> bool {
    ('a' as u8 <= b <= 'z' as u8) || ('A' as u8 <= b <= 'Z' as u8)
}

/// The path starts with a drive prefix: a letter, `:` and `/`.
pub open spec fn has_drive_prefix(p: Seq<u8>) -> bool {
    p.len() >= 3 && is_ascii_letter(p[0]) && p[1] == ':' as u8 && p[2] == '/' as u8
}

/// The path a URI's bytes stand for: defined for `file:///` URIs only. After
/// the scheme, a drive prefix such as `C:/` starts the path; otherwise it
/// starts at `/`. Each `/`-separated segment then follows, percent-decoded.
pub open spec fn file_path_of(u: Seq<u8>) -> Option<Seq<char>> {
    if file_scheme_bytes().is_prefix_of(u) {
        let path = u.skip(8);
        if has_drive_prefix(path) {
            Some(push_segments(seq![path[0] as char, ':', '/'], split_slash(path.skip(3))))
        } else {
            Some(push_segments(seq!['/'], split_slash(path)))
        }
    } else {
        None
    }
}

impl Uri {
    /// The `file:///` URI of a path. Leading `/`s of the path are dropped, so
    /// a relative path becomes absolute; each `/` of the rest is kept and each
    /// segment between them is percent-encoded byte by byte: non-ASCII bytes,
    /// C0 controls, DEL and ` #?%[]` become `%XY`.
    pub fn from_file_path(p: &str) -> (uri: Uri)
        ensures
            uri.0@ == file_uri_of(p@),
    {
        let bytes = p.as_bytes();
        let ghost all = bytes@;
        assert(all == encode_utf8(p@));
        let mut start: usize = 0;
        assert(all.skip(0) =~= all);
        while start < bytes.len() && bytes[start] == '/' as u8
            invariant
                bytes@ == all,
                start <= all.len(),
                strip_leading_slashes(all.skip(start as int)) == strip_leading_slashes(all),
            decreases all.len() - start,
        {
            assert(all.skip(start as int).drop_first() =~= all.skip(start + 1));
            start = start + 1;
        }
        let ghost rest = all.skip(start as int);
        assert(strip_leading_slashes(rest) == rest);
        let mut buf = String::from_str("file:///");
        proof {
            reveal_strlit("file:///");
            assert(buf@ =~= file_scheme());
        }
        let mut i: usize = start;
        while i < bytes.len()
            invariant
                bytes@ == all,
                start <= i <= all.len(),
                rest == all.skip(start as int),
                buf@ == file_scheme() + encode_path(all.subrange(start as int, i as int)),
            decreases all.len() - i,
        {
            let b = bytes[i];
            let ghost done = all.subrange(start as int, i as int);
            assert(all.subrange(start as int, i + 1).drop_last() =~= done);
            if b == '/' as u8 {
                push_char(&mut buf, '/');
            } else if byte_escapes(b) {
                buf.append(percent_escape(b));
            } else {
                push_char(&mut buf, b as char);
            }
            i = i + 1;
            assert(buf@ =~= file_scheme() + encode_path(all.subrange(start as int, i as int)));
        }
        assert(all.subrange(start as int, all.len() as int) =~= rest);
        Uri(buf)
    }
}

/// Appends the text of one segment to the path in `buf`, as `path_push`
/// says. `ends_slash` tells whether `buf` ends with `/`; the result tells the
/// same of the new path.
fn push_segment(buf: &mut String, ends_slash: bool, seg: &[u8]) -> (now_ends_slash: bool)
    requires
        old(buf)@.len() > 0,
        ends_slash == (old(buf)@.last() == '/'),
    ensures
        final(buf)@ == path_push(old(buf)@, segment_text(seg@)),
        final(buf)@.len() > 0,
        now_ends_slash == (final(buf)@.last() == '/'),
{
    let decoded = percent_decode_bytes(seg);
    let text = decode_utf8_lossy(decoded.as_slice());
    let s = text.as_str();
    let n = s.unicode_len();
    if n > 0 && s.get_char(0) == '/' {
        let last = s.get_char(n - 1);
        *buf = text;
        last == '/'
    } else {
        if !ends_slash {
            push_char(buf, '/');
        }
        buf.append(s);
        if n > 0 {
            s.get_char(n - 1) == '/'
        } else {
            true
        }
    }
}

fn is_ascii_letter_byte(b: u8) -> (r: bool)
    ensures
        r == is_ascii_letter(b),
{
    ('a' as u8 <= b && b <= 'z' as u8) || ('A' as u8 <= b && b <= 'Z' as u8)
}

/// Whether `u` starts with `file:///`.
fn has_file_scheme(u: &[u8]) -> (r: bool)
    ensures
        r == file_scheme_bytes().is_prefix_of(u@),
{
    let scheme: [u8; 8] = ['f' as u8, 'i' as u8, 'l' as u8, 'e' as u8, ':' as u8, '/' as u8, '/' as u8, '/' as u8];
    assert(scheme@ =~= file_scheme_bytes());
    if u.len() < 8 {
        return false;
    }
    let mut i: usize = 0;
    while i < 8
        invariant
            i <= 8 <= u@.len(),
            scheme@ == file_scheme_bytes(),
            forall|j: int| 0 <= j < i ==> u@[j] == scheme@[j],
        decreases 8 - i,
    {
        if u[i] != scheme[i] {
            return false;
        }
        i = i + 1;
    }
    true
}

impl Uri {
    /// The path of a `file:///` URI; `None` for any other URI. A drive prefix
    /// such as `C:/` right after the scheme starts the path, otherwise it
    /// starts at `/`; each `/`-separated segment is then percent-decoded, read
    /// as UTF-8 (invalid sequences replaced) and appended as a path component.
    pub fn to_file_path(&self) -> (r: Option<String>)
        ensures
            match r {
                Some(path) => file_path_of(encode_utf8(self.0@)) == Some(path@),
                None => file_path_of(encode_utf8(self.0@)) is None,
            },
    {
        let u = self.0.as_str().as_bytes();
        let ghost all = u@;
        assert(all == encode_utf8(self.0@));
        if !has_file_scheme(u) {
            return None;
        }
        let ghost path = all.skip(8);
        let mut buf = String::new();
        let mut start: usize = 8;
        if u.len() >= 11 && is_ascii_letter_byte(u[8]) && u[9] == ':' as u8 && u[10] == '/' as u8 {
            push_char(&mut buf, u[8] as char);
            push_char(&mut buf, ':');
            push_char(&mut buf, '/');
            start = 11;
        } else {
            push_char(&mut buf, '/');
        }
        let ghost init = buf@;
        assert(has_drive_prefix(path) ==> start == 11 && init =~= seq![path[0] as char, ':', '/']);
        assert(!has_drive_prefix(path) ==> start == 8 && init =~= seq!['/']);
        let mut ends_slash = true;
        let mut seg: Vec<u8> = Vec::new();
        let mut i: usize = start;
        assert(all.subrange(start as int, start as int) =~= Seq::<u8>::empty());
        while i < u.len()
            invariant
                u@ == all,
                8 <= start <= i <= all.len(),
                buf@.len() > 0,
                ends_slash == (buf@.last() == '/'),
                buf@ == push_segments(init, split_slash(all.subrange(start as int, i as int)).drop_last()),
                seg@ == split_slash(all.subrange(start as int, i as int)).last(),
            decreases all.len() - i,
        {
            let b = u[i];
            let ghost done = all.subrange(start as int, i as int);
            let ghost next = all.subrange(start as int, i + 1);
            assert(next.drop_last() =~= done);
            proof {
                lemma_split_slash_len(done);
            }
            if b == '/' as u8 {
                ends_slash = push_segment(&mut buf, ends_slash, seg.as_slice());
                seg = Vec::new();
                assert(split_slash(next).drop_last() =~= split_slash(done));
            } else {
                seg.push(b);
                assert(split_slash(next).drop_last() =~= split_slash(done).drop_last());
            }
            i = i + 1;
        }
        push_segment(&mut buf, ends_slash, seg.as_slice());
        proof {
            let pieces = split_slash(all.subrange(start as int, all.len() as int));
            lemma_split_slash_len(all.subrange(start as int, all.len() as int));
            assert(pieces.drop_last().push(pieces.last()) =~= pieces);
            if has_drive_prefix(path) {
                assert(all.subrange(11, all.len() as int) =~= path.skip(3));
            } else {
                assert(all.subrange(8, all.len() as int) =~= path);
            }
        }
        Some(buf)
    }
}

} // verus!
