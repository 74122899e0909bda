//! What `Uri::to_file_path` gives back of what `Uri::from_file_path` wrote.

use vstd::prelude::*;
use vstd::utf8::*;
use crate::uri::{
    percent_escape_of,
    encode_byte, encode_path, has_drive_prefix, is_ascii_letter, lemma_split_slash_len, split_slash,
    strip_leading_slashes, segment_text, path_push, push_segments, file_path_of, file_uri_of,
    file_scheme, file_scheme_bytes, trim_leading_slashes, escapes, hex_value, is_hex_digit, percent_decoded, upper_hex_digit,
};

verus! {

broadcast use vstd::seq::group_seq_axioms;

// ---------------------------------------------------------------------
// The URI text of a path, as bytes
// ---------------------------------------------------------------------

/// The byte of the upper-case hexadecimal digit for `v` (`0 <= v < 16`).
spec fn hex_digit_byte(v: int) -> u8 {
    if v < 10 {
        (0x30 + v) as u8
    } else {
        (0x37 + v) as u8
    }
}

/// The bytes a path's byte becomes in the URI.
spec fn byte_piece(x: u8) -> Seq<u8> {
    if x == '/' as u8 {
        seq![x]
    } else if escapes(x) {
        seq!['%' as u8, hex_digit_byte(x as int / 16), hex_digit_byte(x as int % 16)]
    } else {
        seq![x]
    }
}

/// The bytes of the URI text of a path's bytes.
spec fn encoded_bytes(b: Seq<u8>) -> Seq<u8>
    decreases b.len(),
{
    if b.len() == 0 {
        seq![]
    } else {
        encoded_bytes(b.drop_last()) + byte_piece(b.last())
    }
}

proof fn lemma_encode_utf8_concat(a: Seq<char>, b: Seq<char>)
    ensures
        encode_utf8(a + b) == encode_utf8(a) + encode_utf8(b),
    decreases a.len(),
{
    if a.len() == 0 {
        assert(a + b =~= b);
    } else {
        assert((a + b).drop_first() =~= a.drop_first() + b);
        lemma_encode_utf8_concat(a.drop_first(), b);
        assert(encode_utf8(a + b) =~= encode_utf8(a) + encode_utf8(b));
    }
}

proof fn lemma_ascii_encoding(s: Seq<char>)
    requires
        is_ascii_chars(s),
    ensures
        encode_utf8(s) =~= Seq::new(s.len(), |i: int| s[i] as u8),
{
    is_ascii_chars_encode_utf8(s);
}

proof fn lemma_hex_digit(v: int)
    requires
        0 <= v < 16,
    ensures
        upper_hex_digit(v) as u8 == hex_digit_byte(v),
        '\0' <= upper_hex_digit(v) <= '\u{7f}',
        is_hex_digit(hex_digit_byte(v)),
        hex_value(hex_digit_byte(v)) == v,
        hex_digit_byte(v) != '/' as u8,
        hex_digit_byte(v) != '%' as u8,
{
}

proof fn lemma_piece_bytes(x: u8)
    ensures
        encode_utf8(if x == '/' as u8 {
            seq!['/']
        } else {
            encode_byte(x)
        }) == byte_piece(x),
{
    let s = if x == '/' as u8 {
        seq!['/']
    } else {
        encode_byte(x)
    };
    if x != '/' as u8 && escapes(x) {
        lemma_hex_digit(x as int / 16);
        lemma_hex_digit(x as int % 16);
    }
    assert(is_ascii_chars(s));
    lemma_ascii_encoding(s);
    assert(encode_utf8(s) =~= byte_piece(x));
}

/// The bytes of the URI text are `encoded_bytes`.
proof fn lemma_encode_path_bytes(b: Seq<u8>)
    ensures
        encode_utf8(encode_path(b)) == encoded_bytes(b),
    decreases b.len(),
{
    if b.len() > 0 {
        lemma_encode_path_bytes(b.drop_last());
        let piece = if b.last() == '/' as u8 {
            seq!['/']
        } else {
            encode_byte(b.last())
        };
        lemma_encode_utf8_concat(encode_path(b.drop_last()), piece);
        lemma_piece_bytes(b.last());
    }
}

proof fn lemma_encoded_bytes_concat(a: Seq<u8>, b: Seq<u8>)
    ensures
        encoded_bytes(a + b) == encoded_bytes(a) + encoded_bytes(b),
    decreases b.len(),
{
    if b.len() == 0 {
        assert(a + b =~= a);
        assert(encoded_bytes(a) + encoded_bytes(b) =~= encoded_bytes(a));
    } else {
        assert((a + b).drop_last() =~= a + b.drop_last());
        lemma_encoded_bytes_concat(a, b.drop_last());
        assert(encoded_bytes(a + b) =~= encoded_bytes(a) + encoded_bytes(b));
    }
}

proof fn lemma_encoded_bytes_front(b: Seq<u8>)
    requires
        b.len() > 0,
    ensures
        encoded_bytes(b) == byte_piece(b[0]) + encoded_bytes(b.skip(1)),
{
    assert(b =~= seq![b[0]] + b.skip(1));
    lemma_encoded_bytes_concat(seq![b[0]], b.skip(1));
    assert(seq![b[0]].drop_last() =~= Seq::<u8>::empty());
    assert(encoded_bytes(seq![b[0]].drop_last()) =~= Seq::<u8>::empty());
    assert(encoded_bytes(seq![b[0]]) =~= byte_piece(b[0]));
}

/// Percent-decoding undoes the encoding.
proof fn lemma_decode_encoded(b: Seq<u8>)
    ensures
        percent_decoded(encoded_bytes(b)) == b,
    decreases b.len(),
{
    if b.len() == 0 {
    } else {
        let x = b[0];
        let rest = encoded_bytes(b.skip(1));
        let e = encoded_bytes(b);
        lemma_encoded_bytes_front(b);
        lemma_decode_encoded(b.skip(1));
        if x != '/' as u8 && escapes(x) {
            lemma_hex_digit(x as int / 16);
            lemma_hex_digit(x as int % 16);
            assert(e.skip(3) =~= rest);
            assert(percent_decoded(e) =~= seq![x] + b.skip(1));
        } else {
            assert(e.skip(1) =~= rest);
            assert(percent_decoded(e) =~= seq![x] + b.skip(1));
        }
        assert(seq![x] + b.skip(1) =~= b);
    }
}

// ---------------------------------------------------------------------
// Splitting at `/`
// ---------------------------------------------------------------------

/// No byte of `b` is `/`.
spec fn slash_free(b: Seq<u8>) -> bool {
    forall|i: int| 0 <= i < b.len() ==> b[i] != '/' as u8
}

/// Bytes without `/` extend the last piece.
proof fn lemma_split_extend(x: Seq<u8>, y: Seq<u8>)
    requires
        slash_free(y),
    ensures
        split_slash(x + y) == split_slash(x).update(
            split_slash(x).len() - 1,
            split_slash(x).last() + y,
        ),
    decreases y.len(),
{
    lemma_split_slash_len(x);
    let sx = split_slash(x);
    if y.len() == 0 {
        assert(x + y =~= x);
        assert(sx.last() + y =~= sx.last());
        assert(sx.update(sx.len() - 1, sx.last() + y) =~= sx);
    } else {
        assert((x + y).drop_last() =~= x + y.drop_last());
        lemma_split_extend(x, y.drop_last());
        let last = y[y.len() - 1];
        assert(last != '/' as u8);
        assert((x + y).last() == last);
        let m = split_slash(x + y.drop_last());
        assert(m.len() == sx.len());
        assert(m.last() == sx.last() + y.drop_last());
        assert((sx.last() + y.drop_last()).push(last) =~= sx.last() + y);
        assert(split_slash(x + y) == m.update(m.len() - 1, m.last().push(last)));
        assert(split_slash(x + y) =~= sx.update(sx.len() - 1, sx.last() + y));
    }
}

/// A `/` starts a new piece, and bytes without `/` fill it.
proof fn lemma_split_at_slash(x: Seq<u8>, y: Seq<u8>)
    requires
        slash_free(y),
    ensures
        split_slash(x + seq!['/' as u8] + y) == split_slash(x).push(y),
{
    let xs = x + seq!['/' as u8];
    assert(xs.drop_last() =~= x);
    lemma_split_slash_len(x);
    lemma_split_extend(xs, y);
    let s = split_slash(xs);
    assert(s.last() + y =~= y);
    assert(s.update(s.len() - 1, s.last() + y) =~= split_slash(x).push(y));
}

/// Bytes without `/` form one piece.
proof fn lemma_split_slash_free(y: Seq<u8>)
    requires
        slash_free(y),
    ensures
        split_slash(y) == seq![y],
{
    lemma_split_extend(Seq::empty(), y);
    assert(Seq::<u8>::empty() + y =~= y);
    assert(split_slash(Seq::<u8>::empty()) =~= seq![Seq::<u8>::empty()]);
    assert(seq![Seq::<u8>::empty()].update(0, Seq::<u8>::empty() + y) =~= seq![y]);
}

/// `x` joined with `sep` between its pieces.
pub open spec fn join_with<A>(x: Seq<Seq<A>>, sep: A) -> Seq<A>
    decreases x.len(),
{
    if x.len() == 0 {
        seq![]
    } else if x.len() == 1 {
        x[0]
    } else {
        join_with(x.drop_last(), sep) + seq![sep] + x.last()
    }
}

/// Joining the pieces with `/` gives the bytes back.
proof fn lemma_join_split(b: Seq<u8>)
    ensures
        join_with(split_slash(b), '/' as u8) == b,
    decreases b.len(),
{
    if b.len() > 0 {
        let d = b.drop_last();
        let s = split_slash(d);
        lemma_split_slash_len(d);
        lemma_join_split(d);
        let t = split_slash(b);
        let x = b.last();
        assert(d.push(x) =~= b);
        if x == '/' as u8 {
            assert(t.drop_last() =~= s);
            assert(join_with(t, '/' as u8) == join_with(s, '/' as u8) + seq!['/' as u8] + t.last());
            assert(join_with(t, '/' as u8) =~= b);
        } else {
            assert(t.drop_last() =~= s.drop_last());
            if s.len() == 1 {
                assert(join_with(t, '/' as u8) == t[0]);
                assert(join_with(t, '/' as u8) =~= b);
            } else {
                assert(join_with(t, '/' as u8) == join_with(s.drop_last(), '/' as u8) + seq!['/' as u8]
                    + s.last().push(x));
                assert(join_with(s, '/' as u8) == join_with(s.drop_last(), '/' as u8) + seq!['/' as u8]
                    + s.last());
                assert(join_with(t, '/' as u8) =~= b);
            }
        }
    }
}

proof fn lemma_piece_slash_free(x: u8)
    requires
        x != '/' as u8,
    ensures
        slash_free(byte_piece(x)),
{
    if escapes(x) {
        lemma_hex_digit(x as int / 16);
        lemma_hex_digit(x as int % 16);
    }
}

/// The pieces of the URI text are the encoded pieces of the path.
proof fn lemma_split_encoded(b: Seq<u8>)
    ensures
        split_slash(encoded_bytes(b)) == split_slash(b).map_values(|s: Seq<u8>| encoded_bytes(s)),
    decreases b.len(),
{
    if b.len() == 0 {
        assert(split_slash(b).map_values(|s: Seq<u8>| encoded_bytes(s)) =~= seq![Seq::<u8>::empty()]);
        assert(encoded_bytes(b) =~= Seq::<u8>::empty());
    } else {
        let d = b.drop_last();
        let x = b.last();
        let e = encoded_bytes(d);
        lemma_split_encoded(d);
        lemma_split_slash_len(d);
        let sd = split_slash(d);
        if x == '/' as u8 {
            assert((e + seq![x]).drop_last() =~= e);
            assert(encoded_bytes(Seq::<u8>::empty()) =~= Seq::<u8>::empty());
            assert(split_slash(encoded_bytes(b)) =~= split_slash(b).map_values(
                |s: Seq<u8>| encoded_bytes(s),
            ));
        } else {
            lemma_piece_slash_free(x);
            lemma_split_extend(e, byte_piece(x));
            assert(sd.last().push(x).drop_last() =~= sd.last());
            assert(split_slash(encoded_bytes(b)) =~= split_slash(b).map_values(
                |s: Seq<u8>| encoded_bytes(s),
            ));
        }
    }
}

// ---------------------------------------------------------------------
// Drive prefixes
// ---------------------------------------------------------------------

proof fn lemma_piece_shape(x: u8)
    ensures
        byte_piece(x).len() >= 1,
        (x != '/' as u8 && escapes(x)) ==> byte_piece(x)[0] == '%' as u8,
        !(x != '/' as u8 && escapes(x)) ==> byte_piece(x) == seq![x],
        is_ascii_letter(x) || x == ':' as u8 ==> !escapes(x),
{
}

/// A drive prefix survives the encoding, and nothing else looks like one.
proof fn lemma_drive_encoded(q: Seq<u8>)
    ensures
        has_drive_prefix(encoded_bytes(q)) == has_drive_prefix(q),
        has_drive_prefix(q) ==> encoded_bytes(q)[0] == q[0] && encoded_bytes(q).skip(3)
            == encoded_bytes(q.skip(3)),
{
    let e = encoded_bytes(q);
    if q.len() == 0 {
        assert(e.len() == 0);
    } else {
        lemma_encoded_bytes_front(q);
        lemma_piece_shape(q[0]);
        let q1 = q.skip(1);
        let e1 = encoded_bytes(q1);
        if q[0] != '/' as u8 && escapes(q[0]) {
            assert(e[0] == '%' as u8);
        } else if is_ascii_letter(q[0]) {
            assert(e =~= seq![q[0]] + e1);
            if q1.len() == 0 {
                assert(e.len() == 1);
            } else {
                lemma_encoded_bytes_front(q1);
                lemma_piece_shape(q1[0]);
                let q2 = q1.skip(1);
                let e2 = encoded_bytes(q2);
                assert(q1[0] == q[1]);
                if q1[0] != '/' as u8 && escapes(q1[0]) {
                    assert(e[1] == '%' as u8);
                } else if q1[0] == ':' as u8 {
                    assert(e =~= seq![q[0], ':' as u8] + e2);
                    if q2.len() == 0 {
                        assert(e.len() == 2);
                    } else {
                        lemma_encoded_bytes_front(q2);
                        lemma_piece_shape(q2[0]);
                        assert(q2[0] == q[2]);
                        let q3 = q2.skip(1);
                        assert(q3 =~= q.skip(3));
                        if q2[0] != '/' as u8 && escapes(q2[0]) {
                            assert(e[2] == '%' as u8);
                        } else {
                            assert(e =~= seq![q[0], ':' as u8, q2[0]] + encoded_bytes(q3));
                            assert(e.skip(3) =~= encoded_bytes(q3));
                        }
                    }
                } else {
                    assert(e[1] == q[1]);
                }
            }
        } else {
            assert(e[0] == q[0]);
        }
    }
}

// ---------------------------------------------------------------------
// UTF-8 of the pieces
// ---------------------------------------------------------------------

/// Dropping a leading ASCII byte keeps UTF-8 valid.
proof fn lemma_valid_drop_ascii(b: Seq<u8>)
    requires
        valid_utf8(b),
        b.len() > 0,
        b[0] < 0x80,
    ensures
        valid_utf8(b.drop_first()),
{
    assert(pop_first_scalar(b) =~= b.drop_first());
}

proof fn lemma_strip_valid(b: Seq<u8>)
    requires
        valid_utf8(b),
    ensures
        valid_utf8(strip_leading_slashes(b)),
    decreases b.len(),
{
    if b.len() > 0 && b[0] == '/' as u8 {
        lemma_valid_drop_ascii(b);
        lemma_strip_valid(b.drop_first());
    }
}

/// The index of the last `/` in `b`, or `-1`.
spec fn last_slash(b: Seq<u8>) -> int
    decreases b.len(),
{
    if b.len() == 0 {
        -1
    } else if b.last() == '/' as u8 {
        b.len() - 1
    } else {
        last_slash(b.drop_last())
    }
}

proof fn lemma_last_slash(b: Seq<u8>)
    ensures
        -1 <= last_slash(b) < b.len(),
        last_slash(b) >= 0 ==> b[last_slash(b)] == '/' as u8,
        slash_free(b.skip(last_slash(b) + 1)),
    decreases b.len(),
{
    if b.len() > 0 {
        lemma_last_slash(b.drop_last());
        let k = last_slash(b);
        if b.last() != '/' as u8 {
            let d = b.drop_last();
            let tail = b.skip(k + 1);
            assert forall|i: int| 0 <= i < tail.len() implies #[trigger] tail[i] != '/' as u8 by {
                if i < tail.len() - 1 {
                    assert(tail[i] == d.skip(k + 1)[i]);
                }
            }
        }
    }
}

/// Every piece of valid UTF-8 split at `/` is valid UTF-8.
proof fn lemma_split_valid(b: Seq<u8>)
    requires
        valid_utf8(b),
    ensures
        forall|i: int| 0 <= i < split_slash(b).len() ==> valid_utf8(#[trigger] split_slash(b)[i]),
    decreases b.len(),
{
    lemma_last_slash(b);
    let k = last_slash(b);
    if k < 0 {
        assert(b.skip(0) =~= b);
        lemma_split_slash_free(b);
    } else {
        let x = b.subrange(0, k);
        let y = b.skip(k + 1);
        assert(b =~= x + seq!['/' as u8] + y);
        lemma_split_at_slash(x, y);
        is_char_boundary_iff_is_leading_byte(b, k);
        valid_utf8_split(b, k);
        let z = b.subrange(k, b.len() as int);
        lemma_valid_drop_ascii(z);
        assert(z.drop_first() =~= y);
        lemma_split_valid(x);
        let s = split_slash(b);
        assert forall|i: int| 0 <= i < s.len() implies valid_utf8(#[trigger] s[i]) by {
            if i < s.len() - 1 {
                assert(s[i] == split_slash(x)[i]);
            }
        }
    }
}

/// No piece holds a `/`.
proof fn lemma_split_slash_free_pieces(b: Seq<u8>)
    ensures
        forall|i: int| 0 <= i < split_slash(b).len() ==> slash_free(#[trigger] split_slash(b)[i]),
    decreases b.len(),
{
    if b.len() > 0 {
        lemma_split_slash_free_pieces(b.drop_last());
        lemma_split_slash_len(b.drop_last());
        let s = split_slash(b.drop_last());
        let t = split_slash(b);
        assert forall|i: int| 0 <= i < t.len() implies slash_free(#[trigger] t[i]) by {
            if i < s.len() - 1 {
                assert(t[i] == s[i]);
            } else if b.last() != '/' as u8 && i == s.len() - 1 {
                assert(slash_free(s[i]));
                assert(t[i] =~= s[i].push(b.last()));
            }
        }
    }
}

/// Decoding valid UTF-8 without `/` gives text without `/`, empty only for
/// empty bytes.
proof fn lemma_decoded_slash_free(s: Seq<u8>)
    requires
        valid_utf8(s),
        slash_free(s),
    ensures
        forall|j: int| 0 <= j < decode_utf8(s).len() ==> #[trigger] decode_utf8(s)[j] != '/',
        s.len() > 0 ==> decode_utf8(s).len() > 0,
        encode_utf8(decode_utf8(s)) == s,
{
    let t = decode_utf8(s);
    decode_utf8_encode_utf8(s);
    assert forall|j: int| 0 <= j < t.len() implies #[trigger] t[j] != '/' by {
        if t[j] == '/' {
            let a = t.take(j);
            let c = t.skip(j + 1);
            assert(t =~= a + seq!['/'] + c);
            lemma_encode_utf8_concat(a + seq!['/'], c);
            lemma_encode_utf8_concat(a, seq!['/']);
            lemma_ascii_encoding(seq!['/']);
            assert(s[encode_utf8(a).len() as int] == '/' as u8);
        }
    }
    if t.len() == 0 {
        assert(encode_utf8(t).len() == 0);
    }
}

// ---------------------------------------------------------------------
// Assembling the path
// ---------------------------------------------------------------------

/// The bytes with each run of `/` merged into one.
pub open spec fn collapse_slashes(b: Seq<u8>) -> Seq<u8>
    decreases b.len(),
{
    if b.len() == 0 {
        seq![]
    } else if b.last() == '/' as u8 && b.len() >= 2 && b[b.len() - 2] == '/' as u8 {
        collapse_slashes(b.drop_last())
    } else {
        collapse_slashes(b.drop_last()).push(b.last())
    }
}

/// Bytes without `/` are appended as they are.
proof fn lemma_collapse_append(y: Seq<u8>, s: Seq<u8>)
    requires
        slash_free(s),
    ensures
        collapse_slashes(y + s) == collapse_slashes(y) + s,
    decreases s.len(),
{
    if s.len() == 0 {
        assert(y + s =~= y);
        assert(collapse_slashes(y) + s =~= collapse_slashes(y));
    } else {
        lemma_collapse_append(y, s.drop_last());
        assert((y + s).drop_last() =~= y + s.drop_last());
        assert(s[s.len() - 1] != '/' as u8);
        assert(collapse_slashes(y + s) =~= collapse_slashes(y) + s);
    }
}

/// Merging runs of `/` keeps the last byte.
proof fn lemma_collapse_last(y: Seq<u8>)
    requires
        y.len() > 0,
    ensures
        collapse_slashes(y).len() > 0,
        collapse_slashes(y).last() == y.last(),
    decreases y.len(),
{
    if y.last() == '/' as u8 && y.len() >= 2 && y[y.len() - 2] == '/' as u8 {
        lemma_collapse_last(y.drop_last());
    }
}

/// A second `/` at the front merges with the first.
proof fn lemma_collapse_double_front(z: Seq<u8>)
    ensures
        collapse_slashes(seq!['/' as u8, '/' as u8] + z) == collapse_slashes(seq!['/' as u8] + z),
    decreases z.len(),
{
    let a = seq!['/' as u8, '/' as u8] + z;
    let b = seq!['/' as u8] + z;
    if z.len() == 0 {
        assert(a.drop_last() =~= b);
        assert(b.drop_last() =~= Seq::<u8>::empty());
        assert(a =~= seq!['/' as u8, '/' as u8]);
        assert(b =~= seq!['/' as u8]);
    } else {
        lemma_collapse_double_front(z.drop_last());
        assert(a.drop_last() =~= seq!['/' as u8, '/' as u8] + z.drop_last());
        assert(b.drop_last() =~= seq!['/' as u8] + z.drop_last());
        assert(a[a.len() - 2] == b[b.len() - 2]);
    }
}

/// The leading `/`s of a path that starts with one merge into a single `/`.
proof fn lemma_collapse_leading(b: Seq<u8>)
    requires
        b.len() > 0,
        b[0] == '/' as u8,
    ensures
        collapse_slashes(seq!['/' as u8] + strip_leading_slashes(b)) == collapse_slashes(b),
    decreases b.len(),
{
    let d = b.drop_first();
    if d.len() > 0 && d[0] == '/' as u8 {
        lemma_collapse_leading(d);
        assert(strip_leading_slashes(b) == strip_leading_slashes(d));
        assert(b =~= seq!['/' as u8, '/' as u8] + d.drop_first());
        assert(d =~= seq!['/' as u8] + d.drop_first());
        lemma_collapse_double_front(d.drop_first());
    } else {
        assert(strip_leading_slashes(b) == strip_leading_slashes(d));
        assert(strip_leading_slashes(d) == d);
        assert(seq!['/' as u8] + d =~= b);
    }
}

/// Joined pieces without `/` after a root that ends with `/` end with `/`
/// exactly when the last piece is empty.
proof fn lemma_join_last_byte(ib: Seq<u8>, ps: Seq<Seq<u8>>)
    requires
        ib.len() > 0,
        ib.last() == '/' as u8,
        ps.len() >= 1,
        forall|i: int| 0 <= i < ps.len() ==> slash_free(#[trigger] ps[i]),
    ensures
        (ib + join_with(ps, '/' as u8)).len() > 0,
        ((ib + join_with(ps, '/' as u8)).last() == '/' as u8) == (ps.last().len() == 0),
{
    let j = join_with(ps, '/' as u8);
    let s = ps.last();
    assert(slash_free(s));
    if ps.len() == 1 {
        assert(j == ps[0]);
    } else {
        assert(j == join_with(ps.drop_last(), '/' as u8) + seq!['/' as u8] + s);
    }
    if s.len() > 0 {
        assert(s[s.len() - 1] != '/' as u8);
    }
}

/// Appending the segments' texts one by one, as paths are appended, writes
/// the UTF-8 of the root and the pieces joined by `/`, with each run of `/`
/// merged into one: an empty segment adds at most a `/`.
proof fn lemma_push_segments(init: Seq<char>, segs: Seq<Seq<u8>>, pieces: Seq<Seq<u8>>)
    requires
        init.len() > 0,
        init.last() == '/',
        collapse_slashes(encode_utf8(init)) == encode_utf8(init),
        encode_utf8(init).len() > 0,
        encode_utf8(init).last() == '/' as u8,
        segs.len() >= 1,
        pieces.len() == segs.len(),
        forall|i: int| 0 <= i < segs.len() ==> encode_utf8(#[trigger] segment_text(segs[i])) == pieces[i],
        forall|i: int| 0 <= i < segs.len() ==> slash_free(#[trigger] pieces[i]),
        forall|i: int| 0 <= i < segs.len() ==> ((#[trigger] segment_text(segs[i])).len() == 0) == (
        pieces[i].len() == 0),
        forall|i: int, j: int|
            0 <= i < segs.len() && 0 <= j < segment_text(segs[i]).len() ==> #[trigger] segment_text(
                segs[i],
            )[j] != '/',
    ensures
        encode_utf8(push_segments(init, segs)) == collapse_slashes(
            encode_utf8(init) + join_with(pieces, '/' as u8),
        ),
        push_segments(init, segs).len() > 0,
        (push_segments(init, segs).last() == '/') == (pieces.last().len() == 0),
    decreases segs.len(),
{
    let n = segs.len();
    let ib = encode_utf8(init);
    let t = segment_text(segs[n - 1]);
    let s = pieces[n - 1];
    assert(encode_utf8(t) == s);
    assert(slash_free(s));
    assert(t.len() > 0 ==> t[0] != '/' && t[t.len() - 1] != '/');
    if n == 1 {
        assert(segs.drop_last() =~= Seq::<Seq<u8>>::empty());
        assert(push_segments(init, segs.drop_last()) == init);
        let r = push_segments(init, segs);
        assert(r == init + t);
        lemma_encode_utf8_concat(init, t);
        assert(join_with(pieces, '/' as u8) == s);
        lemma_collapse_append(ib, s);
        if t.len() > 0 {
            assert(r.last() == t.last());
        }
    } else {
        let ds = segs.drop_last();
        let dp = pieces.drop_last();
        assert forall|i: int| 0 <= i < ds.len() implies encode_utf8(#[trigger] segment_text(ds[i]))
            == dp[i] by {
            assert(ds[i] == segs[i]);
        }
        assert forall|i: int| 0 <= i < ds.len() implies slash_free(#[trigger] dp[i]) by {
            assert(dp[i] == pieces[i]);
        }
        assert forall|i: int| 0 <= i < ds.len() implies ((#[trigger] segment_text(ds[i])).len()
            == 0) == (dp[i].len() == 0) by {
            assert(ds[i] == segs[i]);
        }
        assert forall|i: int, j: int|
            0 <= i < ds.len() && 0 <= j < segment_text(ds[i]).len() implies #[trigger] segment_text(
                ds[i],
            )[j] != '/' by {
            assert(ds[i] == segs[i]);
        }
        lemma_push_segments(init, ds, dp);
        let p = push_segments(init, ds);
        let x = ib + join_with(dp, '/' as u8);
        assert forall|i: int| 0 <= i < dp.len() implies slash_free(#[trigger] dp[i]) by {
            assert(dp[i] == pieces[i]);
        }
        lemma_join_last_byte(ib, dp);
        assert(join_with(pieces, '/' as u8) == join_with(dp, '/' as u8) + seq!['/' as u8] + s);
        assert(ib + join_with(pieces, '/' as u8) =~= (x + seq!['/' as u8]) + s);
        lemma_collapse_append(x + seq!['/' as u8], s);
        assert((x + seq!['/' as u8]).drop_last() =~= x);
        let r = push_segments(init, segs);
        assert(r == path_push(p, t));
        if p.last() == '/' {
            assert(collapse_slashes(x + seq!['/' as u8]) == collapse_slashes(x));
            assert(r == p + t);
            lemma_encode_utf8_concat(p, t);
        } else {
            assert(collapse_slashes(x + seq!['/' as u8]) == collapse_slashes(x).push('/' as u8));
            assert(r == p + seq!['/'] + t);
            lemma_encode_utf8_concat(p + seq!['/'], t);
            lemma_encode_utf8_concat(p, seq!['/']);
            lemma_ascii_encoding(seq!['/']);
            assert(encode_utf8(seq!['/']) =~= seq!['/' as u8]);
        }
        if t.len() > 0 {
            assert(r.last() == t.last());
        }
    }
}

// ---------------------------------------------------------------------
// The round trip
// ---------------------------------------------------------------------

/// The part of a path's bytes that is split into segments when it is read
/// back: all of it, or what follows a drive prefix.
pub open spec fn path_tail(q: Seq<u8>) -> Seq<u8> {
    if has_drive_prefix(q) {
        q.skip(3)
    } else {
        q
    }
}

/// The path's bytes as they are read back: under a leading `/`, unless they
/// start with a drive prefix.
pub open spec fn rooted(q: Seq<u8>) -> Seq<u8> {
    if has_drive_prefix(q) {
        q
    } else {
        seq!['/' as u8] + q
    }
}

/// Reading back the URI of any path gives the path: its text without
/// leading `/`s, under a leading `/` unless it starts with a drive prefix
/// such as `C:/`, and with each run of `/` merged into one (an empty segment
/// is not kept).
#[verifier::spinoff_prover]
#[verifier::rlimit(60)]
pub proof fn lemma_file_path_round_trip(p: Seq<char>)
    ensures
        file_path_of(encode_utf8(file_uri_of(p))) == Some(
            decode_utf8(collapse_slashes(rooted(strip_leading_slashes(encode_utf8(p))))),
        ),
{
    let b = encode_utf8(p);
    let q = strip_leading_slashes(b);
    encode_utf8_valid_utf8(p);
    lemma_strip_valid(b);
    let e = encoded_bytes(q);
    // The URI's bytes: the scheme, then the encoded path.
    lemma_encode_utf8_concat(file_scheme(), encode_path(q));
    lemma_encode_path_bytes(q);
    lemma_ascii_encoding(file_scheme());
    assert(encode_utf8(file_scheme()) =~= file_scheme_bytes());
    let u = encode_utf8(file_uri_of(p));
    assert(u == file_scheme_bytes() + e);
    assert(u.subrange(0, 8) =~= file_scheme_bytes());
    assert(file_scheme_bytes().is_prefix_of(u));
    assert(u.skip(8) =~= e);
    lemma_drive_encoded(q);
    let t = path_tail(q);
    let init: Seq<char> = if has_drive_prefix(q) {
        seq![q[0] as char, ':', '/']
    } else {
        seq!['/']
    };
    lemma_ascii_encoding(init);
    let ib = encode_utf8(init);
    if has_drive_prefix(q) {
        lemma_valid_drop_ascii(q);
        lemma_valid_drop_ascii(q.drop_first());
        lemma_valid_drop_ascii(q.drop_first().drop_first());
        assert(q.drop_first().drop_first().drop_first() =~= t);
        assert(e.skip(3) == encoded_bytes(t));
        assert(seq![e[0] as char, ':', '/'] == init);
        assert(ib =~= seq![q[0], ':' as u8, '/' as u8]);
        let c0 = Seq::<u8>::empty();
        let c1 = seq![q[0]];
        let c2 = seq![q[0], ':' as u8];
        assert(collapse_slashes(c0) == c0);
        assert(c1.drop_last() =~= c0);
        assert(collapse_slashes(c1) =~= c1);
        assert(c2.drop_last() =~= c1);
        assert(collapse_slashes(c2) =~= c2);
        assert(ib.drop_last() =~= c2);
        assert(collapse_slashes(ib) =~= ib);
        assert(ib + t =~= q);
    } else {
        assert(ib =~= seq!['/' as u8]);
        assert(ib.drop_last() =~= Seq::<u8>::empty());
        assert(collapse_slashes(Seq::<u8>::empty()) == Seq::<u8>::empty());
        assert(collapse_slashes(ib) =~= ib);
    }
    assert(valid_utf8(t));
    // The segments are the encoded pieces of the path's tail.
    let pieces = split_slash(t);
    lemma_split_encoded(t);
    lemma_split_valid(t);
    lemma_split_slash_free_pieces(t);
    lemma_split_slash_len(t);
    let segs = split_slash(encoded_bytes(t));
    assert(segs == pieces.map_values(|s: Seq<u8>| encoded_bytes(s)));
    assert forall|i: int| 0 <= i < segs.len() implies {
        &&& #[trigger] segment_text(segs[i]) == decode_utf8(pieces[i])
        &&& forall|j: int| 0 <= j < segment_text(segs[i]).len() ==> segment_text(segs[i])[j] != '/'
        &&& encode_utf8(segment_text(segs[i])) == pieces[i]
        &&& (segment_text(segs[i]).len() == 0) == (pieces[i].len() == 0)
        &&& slash_free(pieces[i])
    } by {
        lemma_decode_encoded(pieces[i]);
        assert(valid_utf8(pieces[i]));
        assert(slash_free(pieces[i]));
        lemma_decoded_slash_free(pieces[i]);
        if pieces[i].len() == 0 {
            assert(decode_utf8(pieces[i]) =~= Seq::<char>::empty());
        }
    }
    lemma_push_segments(init, segs, pieces);
    let r = push_segments(init, segs);
    assert(file_path_of(u) == Some(r));
    lemma_join_split(t);
    assert(ib + t =~= rooted(q));
    encode_utf8_decode_utf8(r);
}

/// A path that starts with `/` and has no drive prefix after its leading
/// `/`s is read back as itself, with each run of `/` merged into one.
pub proof fn lemma_absolute_path_round_trip(p: Seq<char>)
    requires
        p.len() > 0,
        p[0] == '/',
        !has_drive_prefix(strip_leading_slashes(encode_utf8(p))),
    ensures
        file_path_of(encode_utf8(file_uri_of(p))) == Some(decode_utf8(collapse_slashes(encode_utf8(p)))),
{
    lemma_file_path_round_trip(p);
    let b = encode_utf8(p);
    assert(p =~= seq![p[0]] + p.drop_first());
    lemma_encode_utf8_concat(seq![p[0]], p.drop_first());
    lemma_ascii_encoding(seq!['/']);
    assert(b[0] == '/' as u8);
    lemma_collapse_leading(b);
}

/// Every URI made from a path is read back as some path.
pub proof fn lemma_file_uri_has_path(p: Seq<char>)
    ensures
        file_path_of(encode_utf8(file_uri_of(p))) is Some,
{
    let q = strip_leading_slashes(encode_utf8(p));
    lemma_encode_utf8_concat(file_scheme(), encode_path(q));
    lemma_ascii_encoding(file_scheme());
    let u = encode_utf8(file_uri_of(p));
    assert(u.subrange(0, 8) =~= file_scheme_bytes());
}

/// The URI of a path is ASCII text.
pub proof fn lemma_file_uri_ascii(p: Seq<char>)
    ensures
        is_ascii_chars(file_uri_of(p)),
{
    lemma_encode_path_ascii(strip_leading_slashes(encode_utf8(p)));
}

proof fn lemma_encode_path_ascii(b: Seq<u8>)
    ensures
        is_ascii_chars(encode_path(b)),
    decreases b.len(),
{
    if b.len() > 0 {
        lemma_encode_path_ascii(b.drop_last());
        let x = b.last();
        if x != '/' as u8 && escapes(x) {
            lemma_hex_digit(x as int / 16);
            lemma_hex_digit(x as int % 16);
        }
        let piece = if x == '/' as u8 {
            seq!['/']
        } else {
            encode_byte(x)
        };
        assert(is_ascii_chars(piece));
        assert forall|i: int| 0 <= i < encode_path(b).len() implies '\0' <= #[trigger] encode_path(b)[i] <= '\u{7f}' by {
            let d = encode_path(b.drop_last());
            if i >= d.len() {
                assert(encode_path(b)[i] == piece[i - d.len()]);
            } else {
                assert(encode_path(b)[i] == d[i]);
            }
        }
    }
}

/// A leading `/` makes no difference to a path's URI: relative paths are
/// made absolute.
pub proof fn lemma_leading_slash_ignored(p: Seq<char>)
    ensures
        file_uri_of(seq!['/'] + p) == file_uri_of(p),
{
    lemma_encode_utf8_concat(seq!['/'], p);
    lemma_ascii_encoding(seq!['/']);
    let b = encode_utf8(seq!['/'] + p);
    assert(b.drop_first() =~= encode_utf8(p));
}

/// Removing leading `/`s commutes with UTF-8 encoding.
proof fn lemma_trim_encoded(p: Seq<char>)
    ensures
        encode_utf8(trim_leading_slashes(p)) == strip_leading_slashes(encode_utf8(p)),
    decreases p.len(),
{
    if p.len() > 0 {
        let b = encode_utf8(p);
        assert(p =~= seq![p[0]] + p.drop_first());
        lemma_encode_utf8_concat(seq![p[0]], p.drop_first());
        if p[0] == '/' {
            lemma_ascii_encoding(seq!['/']);
            assert(b.drop_first() =~= encode_utf8(p.drop_first()));
            lemma_trim_encoded(p.drop_first());
        } else {
            encode_utf8_first_scalar(p);
            encode_utf8_valid_utf8(p);
            assert(b.len() > 0);
            if b[0] == '/' as u8 {
                assert((0x2Fu8 & 0x7Fu8) as u32 == 0x2Fu32) by (bit_vector);
                assert(decode_first_scalar(b) == 0x2Fu32);
                char_u32_cast(p[0], 0x2Fu32);
                assert(false);
            }
            assert(strip_leading_slashes(b) == b);
        }
    }
}

/// Two paths have the same URI exactly when they are the same text once
/// their leading `/`s are removed.
pub proof fn lemma_file_uri_injective(p1: Seq<char>, p2: Seq<char>)
    ensures
        (file_uri_of(p1) == file_uri_of(p2)) == (trim_leading_slashes(p1) == trim_leading_slashes(
            p2,
        )),
{
    lemma_trim_encoded(p1);
    lemma_trim_encoded(p2);
    let q1 = strip_leading_slashes(encode_utf8(p1));
    let q2 = strip_leading_slashes(encode_utf8(p2));
    if file_uri_of(p1) == file_uri_of(p2) {
        assert(encode_path(q1) =~= file_uri_of(p1).skip(8));
        assert(encode_path(q2) =~= file_uri_of(p2).skip(8));
        lemma_encode_path_bytes(q1);
        lemma_encode_path_bytes(q2);
        lemma_decode_encoded(q1);
        lemma_decode_encoded(q2);
        encode_utf8_decode_utf8(trim_leading_slashes(p1));
        encode_utf8_decode_utf8(trim_leading_slashes(p2));
    }
}

/// How a byte of a path segment is written: as `%XY` exactly when it is a
/// C0 control, DEL, a non-ASCII byte or one of ` #?%[]`; otherwise as the
/// character itself.
pub proof fn lemma_escaped_bytes(b: u8)
    requires
        b != '/' as u8,
    ensures
        (b < 0x20 || b == 0x7f || b >= 0x80 || b == ' ' as u8 || b == '#' as u8 || b == '?' as u8
            || b == '%' as u8 || b == '[' as u8 || b == ']' as u8) ==> encode_byte(b)
            == percent_escape_of(b),
        !(b < 0x20 || b == 0x7f || b >= 0x80 || b == ' ' as u8 || b == '#' as u8 || b == '?' as u8
            || b == '%' as u8 || b == '[' as u8 || b == ']' as u8) ==> encode_byte(b) == seq![
            b as char,
        ],
{
}

/// A character that a path may hold without any of it being escaped.
pub open spec fn is_plain_path_char(c: char) -> bool {
    ||| 'a' <= c <= 'z'
    ||| 'A' <= c <= 'Z'
    ||| '0' <= c <= '9'
    ||| c == '-'
    ||| c == '.'
    ||| c == '_'
    ||| c == '~'
    ||| c == ':'
    ||| c == '/'
}

proof fn lemma_plain_encode_path(t: Seq<char>)
    requires
        forall|i: int| 0 <= i < t.len() ==> is_plain_path_char(#[trigger] t[i]),
    ensures
        encode_path(encode_utf8(t)) == t,
    decreases t.len(),
{
    if t.len() > 0 {
        let d = t.drop_last();
        assert(is_ascii_chars(t));
        assert(is_ascii_chars(d));
        lemma_ascii_encoding(t);
        lemma_ascii_encoding(d);
        lemma_plain_encode_path(d);
        let b = encode_utf8(t);
        assert(b.drop_last() =~= encode_utf8(d));
        let c = t[t.len() - 1];
        assert(is_plain_path_char(c));
        assert(b.last() == c as u8);
        if c != '/' {
            lemma_escaped_bytes(c as u8);
        }
        assert(encode_path(b) =~= t);
    }
}

/// A path made only of ASCII letters, digits and `-._~:/` is written as it
/// is, after `file:///` and without its leading `/`s.
pub proof fn lemma_plain_path_unchanged(p: Seq<char>)
    requires
        forall|i: int| 0 <= i < p.len() ==> is_plain_path_char(#[trigger] p[i]),
    ensures
        file_uri_of(p) == file_scheme() + trim_leading_slashes(p),
{
    lemma_trim_encoded(p);
    lemma_trim_suffix(p);
    lemma_plain_encode_path(trim_leading_slashes(p));
}

/// Removing leading `/`s leaves a suffix.
proof fn lemma_trim_suffix(p: Seq<char>)
    ensures
        exists|k: int| 0 <= k <= p.len() && trim_leading_slashes(p) == p.skip(k),
    decreases p.len(),
{
    if p.len() > 0 && p[0] == '/' {
        lemma_trim_suffix(p.drop_first());
        let k = choose|k: int| 0 <= k <= p.drop_first().len() && trim_leading_slashes(p.drop_first()) == p.drop_first().skip(k);
        assert(p.drop_first().skip(k) =~= p.skip(k + 1));
    } else {
        assert(p.skip(0) =~= p);
    }
}

/// An ASCII letter, as a byte.
pub open spec fn is_letter_byte(x: u8) -> bool {
    ('a' as u8 <= x <= 'z' as u8) || ('A' as u8 <= x <= 'Z' as u8)
}

/// A `file:///` URI whose path starts with a letter, `:` and `/` (in either
/// case) is read back under that drive prefix rather than under `/`.
pub proof fn lemma_drive_root(x: u8, r: Seq<u8>)
    requires
        is_letter_byte(x),
    ensures
        file_path_of(file_scheme_bytes() + seq![x, ':' as u8, '/' as u8] + r) == Some(
            push_segments(seq![x as char, ':', '/'], split_slash(r)),
        ),
{
    let u = file_scheme_bytes() + seq![x, ':' as u8, '/' as u8] + r;
    assert(u.subrange(0, 8) =~= file_scheme_bytes());
    let path = u.skip(8);
    assert(path =~= seq![x, ':' as u8, '/' as u8] + r);
    assert(path.skip(3) =~= r);
}

/// Bytes without `%` are their own percent-decoding.
proof fn lemma_decode_plain(b: Seq<u8>)
    requires
        forall|i: int| 0 <= i < b.len() ==> b[i] != '%' as u8,
    ensures
        percent_decoded(b) == b,
    decreases b.len(),
{
    if b.len() > 0 {
        lemma_decode_plain(b.skip(1));
        assert(seq![b[0]] + b.skip(1) =~= b);
    }
}

/// Appending texts that do not start with `/` keeps what was there.
proof fn lemma_push_keeps_prefix(init: Seq<char>, segs: Seq<Seq<u8>>)
    requires
        forall|i: int|
            0 <= i < segs.len() && (#[trigger] segment_text(segs[i])).len() > 0 ==> segment_text(
                segs[i],
            )[0] != '/',
    ensures
        init.is_prefix_of(push_segments(init, segs)),
    decreases segs.len(),
{
    if segs.len() > 0 {
        let d = segs.drop_last();
        assert forall|i: int|
            0 <= i < d.len() && (#[trigger] segment_text(d[i])).len() > 0 implies segment_text(
                d[i],
            )[0] != '/' by {
            assert(d[i] == segs[i]);
        }
        lemma_push_keeps_prefix(init, d);
        let t = segment_text(segs[segs.len() - 1]);
        let p = push_segments(init, d);
        let r = push_segments(init, segs);
        assert(r == path_push(p, t));
        assert forall|i: int| 0 <= i < init.len() implies r[i] == init[i] by {
            assert(p.subrange(0, init.len() as int)[i] == init[i]);
        }
        assert(r.subrange(0, init.len() as int) =~= init);
    }
}

/// When the rest of the path is UTF-8 without `%`, the path read back starts
/// with the drive prefix itself, in the case it was written.
pub proof fn lemma_drive_prefix_kept(x: u8, r: Seq<u8>)
    requires
        is_letter_byte(x),
        valid_utf8(r),
        forall|i: int| 0 <= i < r.len() ==> r[i] != '%' as u8,
    ensures
        file_path_of(file_scheme_bytes() + seq![x, ':' as u8, '/' as u8] + r) matches Some(path)
            && path.len() >= 3 && path.take(3) == seq![x as char, ':', '/'],
{
    lemma_drive_root(x, r);
    let pieces = split_slash(r);
    lemma_split_valid(r);
    lemma_split_slash_free_pieces(r);
    lemma_split_slash_pieces_from(r);
    assert forall|i: int|
        0 <= i < pieces.len() && (#[trigger] segment_text(pieces[i])).len() > 0 implies segment_text(
            pieces[i],
        )[0] != '/' by {
        lemma_decode_plain(pieces[i]);
        lemma_decoded_slash_free(pieces[i]);
    }
    let init = seq![x as char, ':', '/'];
    lemma_push_keeps_prefix(init, pieces);
    let path = push_segments(init, pieces);
    assert(path.take(3) =~= path.subrange(0, 3));
}

/// Every byte of every piece of `r` is a byte of `r`.
proof fn lemma_split_slash_pieces_from(r: Seq<u8>)
    ensures
        forall|i: int, j: int|
            0 <= i < split_slash(r).len() && 0 <= j < split_slash(r)[i].len() ==> exists|k: int|
                0 <= k < r.len() && r[k] == #[trigger] split_slash(r)[i][j],
    decreases r.len(),
{
    if r.len() > 0 {
        let d = r.drop_last();
        lemma_split_slash_pieces_from(d);
        lemma_split_slash_len(d);
        let s = split_slash(d);
        let t = split_slash(r);
        assert forall|i: int, j: int| 0 <= i < t.len() && 0 <= j < t[i].len() implies exists|k: int|
            0 <= k < r.len() && r[k] == #[trigger] t[i][j] by {
            if i < s.len() - 1 || (i == s.len() - 1 && r.last() == '/' as u8) {
                assert(t[i] == s[i]);
                let k = choose|k: int| 0 <= k < d.len() && d[k] == s[i][j];
                assert(r[k] == d[k]);
            } else if i == s.len() - 1 {
                if j < s[i].len() {
                    assert(t[i][j] == s[i][j]);
                    let k = choose|k: int| 0 <= k < d.len() && d[k] == s[i][j];
                    assert(r[k] == d[k]);
                } else {
                    assert(t[i][j] == r[r.len() - 1]);
                }
            } else {
                assert(t[i].len() == 0);
            }
        }
    }
}

/// An escape is `%` and the byte's value in two upper-case hexadecimal
/// digits, high digit first.
pub proof fn lemma_escape_digits(b: u8)
    ensures
        percent_escape_of(b).len() == 3,
        percent_escape_of(b)[0] == '%',
        forall|i: int|
            1 <= i < 3 ==> ('0' <= #[trigger] percent_escape_of(b)[i] <= '9' || 'A'
                <= percent_escape_of(b)[i] <= 'F'),
        hex_value(percent_escape_of(b)[1] as u8) * 16 + hex_value(percent_escape_of(b)[2] as u8)
            == b,
{
    lemma_hex_digit(b as int / 16);
    lemma_hex_digit(b as int % 16);
}

} // verus!
