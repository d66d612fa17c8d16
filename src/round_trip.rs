use vstd::prelude::*;

use vstd::utf8::{
    decode_utf8, encode_scalar, encode_utf8, encode_utf8_decode_utf8, encode_utf8_valid_utf8,
    has_width_1_encoding, has_width_2_encoding, has_width_3_encoding, is_ascii_chars,
    is_ascii_chars_encode_utf8, valid_utf8,
};

use crate::drag_source::{file_scheme, file_uri};
use crate::drop_target::drop_events;
use crate::event::{Data, WindowEvent};
use crate::uri_list::{
    crlf, file_scheme_chars, percent_decoded, remove_all, reports, slash, split_from, split_on,
    text_lines, uri_lines, DndDataParseError, UriLines,
};

verus! {

/// Whether `pat` occurs nowhere in `s`.
pub open spec fn lacks(s: Seq<char>, pat: Seq<char>) -> bool {
    forall|i: int| 0 <= i < s.len() ==> !pat.is_prefix_of(#[trigger] s.skip(i))
}

proof fn lemma_lacks_rest(s: Seq<char>, pat: Seq<char>)
    requires
        s.len() > 0,
        lacks(s, pat),
    ensures
        lacks(s.drop_first(), pat),
        !pat.is_prefix_of(s),
{
    assert(s.skip(0) =~= s);
    assert forall|i: int| 0 <= i < s.drop_first().len() implies !pat.is_prefix_of(
        #[trigger] s.drop_first().skip(i),
    ) by {
        assert(s.drop_first().skip(i) =~= s.skip(i + 1));
    }
}

proof fn lemma_percent_plain(s: Seq<u8>)
    requires
        forall|i: int| 0 <= i < s.len() ==> s[i] != 37,
    ensures
        percent_decoded(s) == s,
    decreases s.len(),
{
    if s.len() > 0 {
        lemma_percent_plain(s.drop_first());
        assert(seq![s[0]] + s.drop_first() =~= s);
    }
}

proof fn lemma_scalar_not_percent(c: char)
    requires
        c != '%',
    ensures
        forall|i: int|
            0 <= i < encode_scalar(c as u32).len() ==> #[trigger] encode_scalar(c as u32)[i] != 37,
{
    let v = c as u32;
    assert(forall|x: u8| #![trigger (0x80u8 | x)] (0x80u8 | x) != 37u8) by (bit_vector);
    assert(forall|x: u8| #![trigger (0xC0u8 | x)] (0xC0u8 | x) != 37u8) by (bit_vector);
    assert(forall|x: u8| #![trigger (0xE0u8 | x)] (0xE0u8 | x) != 37u8) by (bit_vector);
    assert(forall|x: u8| #![trigger (0xF0u8 | x)] (0xF0u8 | x) != 37u8) by (bit_vector);
    if has_width_1_encoding(v) {
        assert(v != 37u32);
        assert((v & 0x7Fu32) as u8 != 37u8) by (bit_vector)
            requires
                v <= 0x7Fu32,
                v != 37u32,
        ;
    }
}

proof fn lemma_encode_not_percent(p: Seq<char>)
    requires
        forall|j: int| 0 <= j < p.len() ==> p[j] != '%',
    ensures
        forall|i: int| 0 <= i < encode_utf8(p).len() ==> #[trigger] encode_utf8(p)[i] != 37,
    decreases p.len(),
{
    if p.len() > 0 {
        lemma_scalar_not_percent(p[0]);
        let rest = p.drop_first();
        assert forall|j: int| 0 <= j < rest.len() implies rest[j] != '%' by {
            assert(rest[j] == p[j + 1]);
        }
        lemma_encode_not_percent(rest);
        let head = encode_scalar(p[0] as u32);
        assert forall|i: int| 0 <= i < encode_utf8(p).len() implies #[trigger] encode_utf8(p)[i]
            != 37 by {
            if i < head.len() {
                assert(encode_utf8(p)[i] == head[i]);
            } else {
                assert(encode_utf8(p)[i] == encode_utf8(rest)[i - head.len()]);
            }
        }
    }
}

proof fn lemma_encode_concat(a: Seq<char>, b: Seq<char>)
    ensures
        encode_utf8(a + b) == encode_utf8(a) + encode_utf8(b),
    decreases a.len(),
{
    if a.len() == 0 {
        assert(a + b =~= b);
        assert(encode_utf8(a) + encode_utf8(b) =~= encode_utf8(b));
    } else {
        assert((a + b).drop_first() =~= a.drop_first() + b);
        assert((a + b)[0] == a[0]);
        lemma_encode_concat(a.drop_first(), b);
        assert(encode_utf8(a + b) =~= encode_utf8(a) + encode_utf8(b));
    }
}

proof fn lemma_scheme_bytes()
    ensures
        encode_utf8(file_scheme_chars()) == file_scheme(),
{
    let c = file_scheme_chars();
    assert(is_ascii_chars(c));
    is_ascii_chars_encode_utf8(c);
    assert(encode_utf8(c) =~= file_scheme());
}

proof fn lemma_split_whole(s: Seq<char>, sep: Seq<char>, cur: Seq<char>)
    requires
        sep.len() > 0,
        lacks(s, sep),
    ensures
        split_from(s, sep, cur) == seq![cur + s],
    decreases s.len(),
{
    if s.len() == 0 {
        assert(cur + s =~= cur);
    } else {
        lemma_lacks_rest(s, sep);
        lemma_split_whole(s.drop_first(), sep, cur.push(s[0]));
        assert(cur.push(s[0]) + s.drop_first() =~= cur + s);
    }
}

proof fn lemma_remove_absent(s: Seq<char>, pat: Seq<char>)
    requires
        pat.len() > 0,
        lacks(s, pat),
    ensures
        remove_all(s, pat) == s,
    decreases s.len(),
{
    if s.len() > 0 {
        lemma_lacks_rest(s, pat);
        lemma_remove_absent(s.drop_first(), pat);
        assert(seq![s[0]] + s.drop_first() =~= s);
    }
}

/// Whether the path `p` survives being sent as a one-line URI list: it is
/// absolute, and holds no `%`, no line break `"\r\n"` and no `"file://"`.
pub open spec fn plain_absolute_path(p: Seq<char>) -> bool {
    &&& slash().is_prefix_of(p)
    &&& forall|j: int| 0 <= j < p.len() ==> p[j] != '%'
    &&& lacks(p, crlf())
    &&& lacks(p, file_scheme_chars())
}

/// A path that a drag source offers comes out of a drop target unchanged:
/// the source's answer to the payload request parses to that one path, and
/// once that outcome is the target's fetch result, the drop yields exactly
/// one `Drop` of it and no `DragLeave`.
pub proof fn lemma_path_round_trip(p: Seq<char>)
    requires
        plain_absolute_path(p),
    ensures
        file_uri(p).len() > 0,
        valid_utf8(percent_decoded(file_uri(p))),
        uri_lines(text_lines(file_uri(p))) == UriLines::Paths(seq![p]),
        forall|r: Result<Vec<String>, DndDataParseError>|
            #[trigger] reports(r, UriLines::Paths(seq![p])) ==> (r matches Ok(v) && v@.len() == 1
                && v@[0]@ == p && drop_events(Some(r)) == seq![
                WindowEvent::Drop(Data::Filepath(v@[0])),
            ]),
{
    let scheme = file_scheme_chars();
    let text = scheme + p;
    lemma_scheme_bytes();
    lemma_encode_concat(scheme, p);
    assert(file_uri(p) == encode_utf8(text));
    assert(file_uri(p).len() >= 7);
    assert forall|j: int| 0 <= j < text.len() implies text[j] != '%' by {
        if j >= 7 {
            assert(text[j] == p[j - 7]);
        }
    }
    lemma_encode_not_percent(text);
    lemma_percent_plain(file_uri(p));
    encode_utf8_valid_utf8(text);
    encode_utf8_decode_utf8(text);
    assert(decode_utf8(percent_decoded(file_uri(p))) == text);
    assert(lacks(text, crlf())) by {
        assert forall|i: int| 0 <= i < text.len() implies !crlf().is_prefix_of(
            #[trigger] text.skip(i),
        ) by {
            if i >= 7 {
                assert(text.skip(i) =~= p.skip(i - 7));
            } else {
                assert(text.skip(i)[0] == text[i]);
            }
        }
    }
    lemma_split_whole(text, crlf(), seq![]);
    assert(Seq::<char>::empty() + text =~= text);
    let lines = text_lines(file_uri(p));
    assert(lines == seq![text]);
    assert(text.len() > 0);
    assert(scheme.is_prefix_of(text)) by {
        assert(text.subrange(0, 7) =~= scheme);
    }
    assert(text.skip(7) =~= p);
    lemma_remove_absent(p, scheme);
    assert(remove_all(text, scheme) == p);
    assert(lines.drop_first() =~= Seq::<Seq<char>>::empty());
    assert(uri_lines(lines.drop_first()) == UriLines::Paths(Seq::<Seq<char>>::empty()));
    assert(seq![p] + Seq::<Seq<char>>::empty() =~= seq![p]);
    assert forall|r: Result<Vec<String>, DndDataParseError>|
        #[trigger] reports(r, UriLines::Paths(seq![p])) implies (r matches Ok(v) && v@.len() == 1
            && v@[0]@ == p && drop_events(Some(r)) == seq![
            WindowEvent::Drop(Data::Filepath(v@[0])),
        ]) by {
        if let Ok(v) = r {
            assert(v@.map_values(|s: String| s@).len() == 1);
            assert(v@.map_values(|s: String| s@)[0] == v@[0]@);
            assert(drop_events(Some(r)) =~= seq![WindowEvent::Drop(Data::Filepath(v@[0]))]);
        }
    }
}

} // verus!
