//! Prompt-detection output scanner.
//!
//! A remote shell gives no message framing: the end of a command's output can
//! only be inferred by watching the byte stream for a match of the prompt
//! pattern.  The scanner consumes the stream one byte at a time, decodes
//! complete UTF-8 characters as they arrive (holding incomplete multi-byte
//! sequences until the rest arrives, and dropping invalid sequences), and
//! after each decoded character looks for the leftmost match of the prompt in
//! the accumulated text.  On a match it returns the text between a
//! caller-supplied start offset — used to skip the echoed command — and the
//! start of the match, or the end of the text when the caller asked to keep
//! the prompt.
//!
//! The scan is prefix-online: it never looks ahead of the bytes it was given,
//! so feeding the stream byte by byte and feeding it in one piece return the
//! same output ([`lemma_scan_split`]).

use vstd::prelude::*;
use vstd::pervasive::unreached;
use vstd::utf8::{
    char_is_scalar, char_u32_cast, codepoint_width_1, decode_first_codepoint, encode_scalar,
    encode_utf8, encode_utf8_first_scalar, has_width_1_encoding, has_width_2_encoding,
    has_width_3_encoding, is_continuation_byte, is_leading_byte_width_1, is_leading_byte_width_2,
    is_leading_byte_width_3, is_leading_byte_width_4, is_scalar, last_continuation_byte,
    leading_byte_width_1, leading_byte_width_2, leading_byte_width_3, leading_byte_width_4,
    not_overlong_encoding, second_last_continuation_byte, third_last_continuation_byte,
};
use crate::prompt::{regex_match, Prompt};
use crate::text::chars_to_string;

verus! {

/// Relies on `char::from_u32`: `Some` exactly for Unicode scalar values (at
/// most 0x10FFFF and not a surrogate), returning the character with that code
/// point.
pub assume_specification[ char::from_u32 ](v: u32) -> (r: Option<char>)
    ensures
        r is Some <==> is_scalar(v),
        r matches Some(c) ==> c as u32 == v,
;

/// Width in bytes of the UTF-8 encoding that lead byte `b` begins, or 0 when
/// `b` cannot begin an encoding (a continuation byte, or out of range).
pub open spec fn lead_width(b: u8) -> int {
    if is_leading_byte_width_1(b) {
        1
    } else if is_leading_byte_width_2(b) {
        2
    } else if is_leading_byte_width_3(b) {
        3
    } else if is_leading_byte_width_4(b) {
        4
    } else {
        0
    }
}

/// The character encoded by the complete sequence `p` (a multi-byte lead byte
/// followed by its continuation bytes), or `None` for an invalid encoding
/// (overlong, a surrogate, or beyond the Unicode range).
pub open spec fn finish_scalar(p: Seq<u8>) -> Option<char> {
    let cp = decode_first_codepoint(p);
    if not_overlong_encoding(cp, p.len() as int) && is_scalar(cp) {
        Some(cp as char)
    } else {
        None
    }
}

/// One decoding step on an empty buffer: an ASCII byte decodes at once, a
/// multi-byte lead byte is buffered, anything else is dropped.
pub open spec fn start_byte(b: u8) -> (Seq<u8>, Option<char>) {
    if lead_width(b) == 1 {
        (Seq::empty(), Some(codepoint_width_1(b) as char))
    } else if lead_width(b) >= 2 {
        (seq![b], None)
    } else {
        (Seq::empty(), None)
    }
}

/// One step of tolerant incremental UTF-8 decoding: `pending` holds the
/// bytes of an incomplete encoding, `b` is the next byte of the stream.
/// Returns the new buffer and the character completed by `b`, if any.  A
/// non-continuation byte abandons the buffered bytes and starts afresh.
pub open spec fn decode_step(pending: Seq<u8>, b: u8) -> (Seq<u8>, Option<char>) {
    if pending.len() == 0 {
        start_byte(b)
    } else if is_continuation_byte(b) {
        let p = pending.push(b);
        if p.len() == lead_width(p[0]) {
            (Seq::empty(), finish_scalar(p))
        } else {
            (p, None)
        }
    } else {
        start_byte(b)
    }
}

/// The decoder state — accumulated text and pending bytes — after consuming
/// all of `bytes`.
pub open spec fn decode_all(text: Seq<char>, pending: Seq<u8>, bytes: Seq<u8>) -> (Seq<char>, Seq<
    u8,
>)
    decreases bytes.len(),
{
    if bytes.len() == 0 {
        (text, pending)
    } else {
        let (p2, c) = decode_step(pending, bytes[0]);
        match c {
            Some(ch) => decode_all(text.push(ch), p2, bytes.drop_first()),
            None => decode_all(text, p2, bytes.drop_first()),
        }
    }
}

/// The output extracted once the prompt matched starting at character `s` of
/// `text`: everything after the first `skip` characters, up to the start of
/// the match (`with_prompt` false) or to the end of the text (`with_prompt`
/// true); empty when `skip` lies beyond that cut.
pub open spec fn extract_output(text: Seq<char>, skip: int, s: int, with_prompt: bool) -> Seq<
    char,
> {
    let end = if with_prompt {
        text.len() as int
    } else {
        s
    };
    if 0 <= skip <= end {
        text.subrange(skip, end)
    } else {
        Seq::empty()
    }
}

/// The result of scanning: starting from decoder state `(text, pending)`,
/// consume `bytes` one at a time; after each decoded character, if the
/// pattern matches the accumulated text, the scan ends with the extracted
/// output.  `None` when the pattern never matches along `bytes`.
pub open spec fn scan_from(
    pattern: Seq<char>,
    text: Seq<char>,
    pending: Seq<u8>,
    bytes: Seq<u8>,
    skip: int,
    with_prompt: bool,
) -> Option<Seq<char>>
    decreases bytes.len(),
{
    if bytes.len() == 0 {
        None
    } else {
        let (p2, c) = decode_step(pending, bytes[0]);
        match c {
            Some(ch) => {
                let t2 = text.push(ch);
                match regex_match(pattern, t2) {
                    Some(m) => Some(extract_output(t2, skip, m.0 as int, with_prompt)),
                    None => scan_from(pattern, t2, p2, bytes.drop_first(), skip, with_prompt),
                }
            },
            None => scan_from(pattern, text, p2, bytes.drop_first(), skip, with_prompt),
        }
    }
}

/// Incremental scanner state: the text decoded so far and the bytes of an
/// incomplete UTF-8 encoding still waiting for their continuation.
pub struct OutputScanner {
    pub text: Vec<char>,
    pub pending: Vec<u8>,
}

impl OutputScanner {
    /// A fresh scanner with nothing consumed.
    pub fn new() -> (s: OutputScanner)
        ensures
            s.text@ == Seq::<char>::empty(),
            s.pending@ == Seq::<u8>::empty(),
    {
        OutputScanner { text: Vec::new(), pending: Vec::new() }
    }

    /// Consumes one byte of the stream.  Decodes per [`decode_step`]; when a
    /// character is completed and the prompt then matches the accumulated
    /// text, returns the extracted output per [`extract_output`].
    pub fn feed(&mut self, prompt: &Prompt, b: u8, skip: usize, with_prompt: bool) -> (r: Option<
        String,
    >)
        ensures
            final(self).pending@ == decode_step(old(self).pending@, b).0,
            decode_step(old(self).pending@, b).1 matches Some(ch) ==> {
                let t2 = old(self).text@.push(ch);
                &&& final(self).text@ == t2
                &&& (regex_match(prompt@, t2) matches Some(m) ==> r matches Some(out) && out@
                    == extract_output(t2, skip as int, m.0 as int, with_prompt))
                &&& (regex_match(prompt@, t2) is None ==> r is None)
            },
            decode_step(old(self).pending@, b).1 is None ==> final(self).text@ == old(self).text@
                && r is None,
    {
        let c = self.push_byte(b);
        match c {
            Some(ch) => {
                self.text.push(ch);
                match prompt.find(&self.text) {
                    Some(m) => Some(Self::extract(&self.text, skip, m.0, with_prompt)),
                    None => None,
                }
            },
            None => None,
        }
    }

    /// Consumes bytes in order until the prompt matches, returning the
    /// extracted output then, or `None` — with every byte consumed — when the
    /// pattern never matches along the way.  Feeding a stream in one piece
    /// like this and feeding it byte by byte through [`OutputScanner::feed`]
    /// return the same output (see [`lemma_scan_split`]).
    pub fn feed_bytes(&mut self, prompt: &Prompt, bytes: &[u8], skip: usize, with_prompt: bool) -> (r:
        Option<String>)
        ensures
            scan_from(prompt@, old(self).text@, old(self).pending@, bytes@, skip as int, with_prompt)
                matches Some(o) ==> r matches Some(out) && out@ == o,
            scan_from(prompt@, old(self).text@, old(self).pending@, bytes@, skip as int, with_prompt)
                is None ==> r is None && (final(self).text@, final(self).pending@) == decode_all(
                old(self).text@,
                old(self).pending@,
                bytes@,
            ),
    {
        let ghost t0 = self.text@;
        let ghost p0 = self.pending@;
        let ghost target = scan_from(prompt@, t0, p0, bytes@, skip as int, with_prompt);
        proof {
            assert(bytes@.skip(0) =~= bytes@);
            assert(bytes@.take(0) =~= Seq::<u8>::empty());
        }
        let mut i: usize = 0;
        while i < bytes.len()
            invariant
                i <= bytes@.len(),
                t0 == old(self).text@,
                p0 == old(self).pending@,
                target == scan_from(prompt@, t0, p0, bytes@, skip as int, with_prompt),
                target == scan_from(
                    prompt@,
                    self.text@,
                    self.pending@,
                    bytes@.skip(i as int),
                    skip as int,
                    with_prompt,
                ),
                (self.text@, self.pending@) == decode_all(t0, p0, bytes@.take(i as int)),
            decreases bytes@.len() - i,
        {
            let b = bytes[i];
            let ghost pre_text = self.text@;
            let ghost pre_pending = self.pending@;
            let out = self.feed(prompt, b, skip, with_prompt);
            proof {
                let rest = bytes@.skip(i as int);
                assert(rest[0] == b);
                assert(rest.drop_first() =~= bytes@.skip(i as int + 1));
                assert(bytes@.take(i as int + 1) =~= bytes@.take(i as int).push(b));
                lemma_decode_all_snoc(t0, p0, bytes@.take(i as int), b);
            }
            match out {
                Some(o) => {
                    proof {
                        let rest = bytes@.skip(i as int);
                        let step = decode_step(pre_pending, b);
                        assert(step.1 is Some);
                        let ch = step.1->Some_0;
                        let t2 = pre_text.push(ch);
                        assert(regex_match(prompt@, t2) is Some);
                        let m = regex_match(prompt@, t2)->Some_0;
                        assert(o@ == extract_output(t2, skip as int, m.0 as int, with_prompt));
                        assert(rest.len() > 0);
                        assert(scan_from(prompt@, pre_text, pre_pending, rest, skip as int, with_prompt)
                            == Some(extract_output(t2, skip as int, m.0 as int, with_prompt)));
                        assert(target == Some(o@));
                    }
                    return Some(o);
                },
                None => {
                },
            }
            i = i + 1;
        }
        proof {
            assert(bytes@.skip(bytes@.len() as int) =~= Seq::<u8>::empty());
            assert(bytes@.take(bytes@.len() as int) =~= bytes@);
        }
        None
    }

    /// One decoding step on the pending buffer, per [`decode_step`].
    fn push_byte(&mut self, b: u8) -> (c: Option<char>)
        ensures
            final(self).text == old(self).text,
            final(self).pending@ == decode_step(old(self).pending@, b).0,
            c == decode_step(old(self).pending@, b).1,
    {
        if self.pending.len() == 0 {
            self.begin_byte(b)
        } else if 0x80 <= b && b <= 0xbf {
            self.pending.push(b);
            let w = lead_width_exec(self.pending[0]);
            if self.pending.len() == w {
                let c = finish_scalar_exec(&self.pending);
                self.pending.clear();
                c
            } else {
                None
            }
        } else {
            self.pending.clear();
            self.begin_byte(b)
        }
    }

    /// One decoding step on an empty buffer, per [`start_byte`].
    fn begin_byte(&mut self, b: u8) -> (c: Option<char>)
        requires
            old(self).pending@.len() == 0,
        ensures
            final(self).text == old(self).text,
            final(self).pending@ == start_byte(b).0,
            c == start_byte(b).1,
    {
        let w = lead_width_exec(b);
        if w == 1 {
            proof {
                assert(b & 0x7f == b) by (bit_vector)
                    requires
                        b <= 0x7f,
                ;
            }
            match char::from_u32(b as u32) {
                Some(c) => {
                    proof {
                        char_u32_cast(c, b as u32);
                    }
                    Some(c)
                },
                None => unreached(),
            }
        } else if w >= 2 {
            self.pending.push(b);
            proof {
                assert(final(self).pending@ =~= seq![b]);
            }
            None
        } else {
            None
        }
    }

    /// The extracted output per [`extract_output`], as a string.
    fn extract(text: &Vec<char>, skip: usize, s: usize, with_prompt: bool) -> (out: String)
        requires
            s <= text@.len(),
        ensures
            out@ == extract_output(text@, skip as int, s as int, with_prompt),
    {
        let end = if with_prompt {
            text.len()
        } else {
            s
        };
        let mut chunk: Vec<char> = Vec::new();
        if skip <= end {
            let mut i: usize = skip;
            while i < end
                invariant
                    skip <= i <= end,
                    end <= text@.len(),
                    chunk@ =~= text@.subrange(skip as int, i as int),
                decreases end - i,
            {
                chunk.push(text[i]);
                i = i + 1;
            }
            proof {
                assert(chunk@ =~= extract_output(text@, skip as int, s as int, with_prompt));
            }
        }
        chars_to_string(&chunk)
    }
}

/// Width in bytes of the UTF-8 encoding that `b` begins, per [`lead_width`].
fn lead_width_exec(b: u8) -> (w: usize)
    ensures
        w as int == lead_width(b),
{
    if b <= 0x7f {
        1
    } else if 0xc0 <= b && b <= 0xdf {
        2
    } else if 0xe0 <= b && b <= 0xef {
        3
    } else if 0xf0 <= b && b <= 0xf7 {
        4
    } else {
        0
    }
}

/// The character completed by the buffered bytes `p`, per [`finish_scalar`].
fn finish_scalar_exec(p: &Vec<u8>) -> (c: Option<char>)
    requires
        2 <= p@.len() <= 4,
        p@.len() == lead_width(p@[0]),
    ensures
        c == finish_scalar(p@),
{
    let w = p.len();
    let b0 = p[0];
    let cp: u32 = if w == 2 {
        (((b0 & 0x1f) as u32) << 6u32) | ((p[1] & 0x3f) as u32)
    } else if w == 3 {
        (((b0 & 0x0f) as u32) << 12u32) | (((p[1] & 0x3f) as u32) << 6u32) | ((p[2] & 0x3f) as u32)
    } else {
        (((b0 & 0x07) as u32) << 18u32) | (((p[1] & 0x3f) as u32) << 12u32) | (((p[2] & 0x3f)
            as u32) << 6u32) | ((p[3] & 0x3f) as u32)
    };
    proof {
        assert(cp == decode_first_codepoint(p@));
    }
    let ok = if w == 2 {
        cp >= 0x80
    } else if w == 3 {
        cp >= 0x800
    } else {
        0x10000 <= cp && cp <= 0x10ffff
    };
    if ok {
        match char::from_u32(cp) {
            Some(c) => {
                proof {
                    char_u32_cast(c, cp);
                }
                Some(c)
            },
            None => None,
        }
    } else {
        None
    }
}

/// Appending one byte to the input extends the decoder state by exactly one
/// decoding step.
pub proof fn lemma_decode_all_snoc(text: Seq<char>, pending: Seq<u8>, bytes: Seq<u8>, b: u8)
    ensures
        decode_all(text, pending, bytes.push(b)) == {
            let (t1, p1) = decode_all(text, pending, bytes);
            let (p2, c) = decode_step(p1, b);
            match c {
                Some(ch) => (t1.push(ch), p2),
                None => (t1, p2),
            }
        },
    decreases bytes.len(),
{
    let s1 = bytes.push(b);
    if bytes.len() == 0 {
        assert(s1[0] == b);
        assert(s1.drop_first() =~= Seq::<u8>::empty());
        assert(decode_all(text, pending, bytes) == (text, pending));
        let (p2, c) = decode_step(pending, b);
        match c {
            Some(ch) => {
                assert(decode_all(text.push(ch), p2, s1.drop_first()) == (text.push(ch), p2));
                assert(decode_all(text, pending, s1) == (text.push(ch), p2));
            },
            None => {
                assert(decode_all(text, p2, s1.drop_first()) == (text, p2));
                assert(decode_all(text, pending, s1) == (text, p2));
            },
        }
    } else {
        assert(s1[0] == bytes[0]);
        assert(s1.drop_first() =~= bytes.drop_first().push(b));
        let (p2, c) = decode_step(pending, bytes[0]);
        match c {
            Some(ch) => {
                lemma_decode_all_snoc(text.push(ch), p2, bytes.drop_first(), b);
                assert(decode_all(text, pending, s1) == decode_all(
                    text.push(ch),
                    p2,
                    bytes.drop_first().push(b),
                ));
                assert(decode_all(text, pending, bytes) == decode_all(
                    text.push(ch),
                    p2,
                    bytes.drop_first(),
                ));
            },
            None => {
                lemma_decode_all_snoc(text, p2, bytes.drop_first(), b);
                assert(decode_all(text, pending, s1) == decode_all(
                    text,
                    p2,
                    bytes.drop_first().push(b),
                ));
                assert(decode_all(text, pending, bytes) == decode_all(
                    text,
                    p2,
                    bytes.drop_first(),
                ));
            },
        }
    }
}

/// Streaming invariance: the byte stream may be split anywhere and fed in two
/// parts.  A match found in the first part is final, and otherwise scanning
/// continues from the decoder state the first part left behind — so feeding
/// byte by byte and feeding all at once extract the same output.
pub proof fn lemma_scan_split(
    pattern: Seq<char>,
    text: Seq<char>,
    pending: Seq<u8>,
    bytes1: Seq<u8>,
    bytes2: Seq<u8>,
    skip: int,
    with_prompt: bool,
)
    ensures
        scan_from(pattern, text, pending, bytes1 + bytes2, skip, with_prompt) == match scan_from(
            pattern,
            text,
            pending,
            bytes1,
            skip,
            with_prompt,
        ) {
            Some(o) => Some(o),
            None => scan_from(
                pattern,
                decode_all(text, pending, bytes1).0,
                decode_all(text, pending, bytes1).1,
                bytes2,
                skip,
                with_prompt,
            ),
        },
    decreases bytes1.len(),
{
    if bytes1.len() == 0 {
        assert(bytes1 + bytes2 =~= bytes2);
    } else {
        let whole = bytes1 + bytes2;
        assert(whole[0] == bytes1[0]);
        assert(whole.drop_first() =~= bytes1.drop_first() + bytes2);
        let (p2, c) = decode_step(pending, bytes1[0]);
        match c {
            Some(ch) => {
                let t2 = text.push(ch);
                match regex_match(pattern, t2) {
                    Some(m) => {
                    },
                    None => {
                        lemma_scan_split(
                            pattern,
                            t2,
                            p2,
                            bytes1.drop_first(),
                            bytes2,
                            skip,
                            with_prompt,
                        );
                    },
                }
            },
            None => {
                lemma_scan_split(pattern, text, p2, bytes1.drop_first(), bytes2, skip, with_prompt);
            },
        }
    }
}

/// Decoding distributes over any split of the byte stream.
pub proof fn lemma_decode_all_append(text: Seq<char>, pending: Seq<u8>, a: Seq<u8>, b: Seq<u8>)
    ensures
        decode_all(text, pending, a + b) == {
            let (t1, p1) = decode_all(text, pending, a);
            decode_all(t1, p1, b)
        },
    decreases a.len(),
{
    if a.len() == 0 {
        assert(a + b =~= b);
    } else {
        assert((a + b)[0] == a[0]);
        assert((a + b).drop_first() =~= a.drop_first() + b);
        let (p2, c) = decode_step(pending, a[0]);
        match c {
            Some(ch) => lemma_decode_all_append(text.push(ch), p2, a.drop_first(), b),
            None => lemma_decode_all_append(text, p2, a.drop_first(), b),
        }
    }
}

/// Every byte the standard encoding produces has the bit shape its position
/// asks for: a lead byte of its width, or a continuation byte.
proof fn lemma_encode_byte_shapes(s: u32)
    ensures
        is_leading_byte_width_1(leading_byte_width_1(s)),
        is_leading_byte_width_2(leading_byte_width_2(s)),
        is_leading_byte_width_3(leading_byte_width_3(s)),
        is_leading_byte_width_4(leading_byte_width_4(s)),
        is_continuation_byte(last_continuation_byte(s)),
        is_continuation_byte(second_last_continuation_byte(s)),
        is_continuation_byte(third_last_continuation_byte(s)),
{
    assert(((s & 0x7F) as u8) <= 0x7f) by (bit_vector);
    assert(0xc0 <= (0xC0u8 | (((s >> 6) & 0x1F) as u8)) <= 0xdf) by (bit_vector);
    assert(0xe0 <= (0xE0u8 | (((s >> 12) & 0x0F) as u8)) <= 0xef) by (bit_vector);
    assert(0xf0 <= (0xF0u8 | (((s >> 18) & 0x7) as u8)) <= 0xf7) by (bit_vector);
    assert(0x80 <= (0x80u8 | ((s & 0x3F) as u8)) <= 0xbf) by (bit_vector);
    assert(0x80 <= (0x80u8 | (((s >> 6) & 0x3F) as u8)) <= 0xbf) by (bit_vector);
    assert(0x80 <= (0x80u8 | (((s >> 12) & 0x3F) as u8)) <= 0xbf) by (bit_vector);
}

/// Feeding the UTF-8 encoding of one character to a clean decoder emits
/// exactly that character and leaves the buffer empty again.
pub proof fn lemma_decode_one_scalar(text: Seq<char>, c: char)
    ensures
        decode_all(text, Seq::empty(), encode_scalar(c as u32)) == (
            text.push(c),
            Seq::<u8>::empty(),
        ),
{
    char_is_scalar(c);
    let s = c as u32;
    let bs = encode_scalar(s);
    assert(seq![c].drop_first() =~= Seq::<char>::empty());
    assert(seq![c][0] == c);
    assert(encode_utf8(Seq::<char>::empty()) =~= Seq::<u8>::empty());
    assert(encode_utf8(seq![c]) == encode_scalar(seq![c][0] as u32) + encode_utf8(
        seq![c].drop_first(),
    ));
    assert(encode_utf8(seq![c]) =~= bs);
    encode_utf8_first_scalar(seq![c]);
    char_u32_cast(c, s);
    lemma_encode_byte_shapes(s);
    let e = Seq::<u8>::empty();
    if has_width_1_encoding(s) {
        let b0 = leading_byte_width_1(s);
        assert(bs =~= seq![b0]);
        assert(decode_first_codepoint(bs) == codepoint_width_1(b0));
        assert(decode_step(e, b0) == (e, Some(c)));
        assert(seq![b0].drop_first() =~= e);
        assert(decode_all(text.push(c), e, e) == (text.push(c), e));
    } else if has_width_2_encoding(s) {
        let b0 = leading_byte_width_2(s);
        let b1 = last_continuation_byte(s);
        assert(bs =~= seq![b0, b1]);
        assert(lead_width(b0) == 2);
        assert(decode_step(e, b0) == (seq![b0], None::<char>));
        assert(bs.drop_first() =~= seq![b1]);
        assert(decode_all(text, e, bs) == decode_all(text, seq![b0], seq![b1]));
        let p = seq![b0].push(b1);
        assert(p =~= bs);
        assert(finish_scalar(bs) == Some(c));
        assert(decode_step(seq![b0], b1) == (e, Some(c)));
        assert(seq![b1].drop_first() =~= e);
        assert(decode_all(text, seq![b0], seq![b1]) == decode_all(text.push(c), e, e));
        assert(decode_all(text.push(c), e, e) == (text.push(c), e));
    } else if has_width_3_encoding(s) {
        let b0 = leading_byte_width_3(s);
        let b1 = second_last_continuation_byte(s);
        let b2 = last_continuation_byte(s);
        assert(bs =~= seq![b0, b1, b2]);
        assert(lead_width(b0) == 3);
        assert(decode_step(e, b0) == (seq![b0], None::<char>));
        assert(bs.drop_first() =~= seq![b1, b2]);
        assert(decode_all(text, e, bs) == decode_all(text, seq![b0], seq![b1, b2]));
        let p1 = seq![b0].push(b1);
        assert(p1 =~= seq![b0, b1]);
        assert(decode_step(seq![b0], b1) == (seq![b0, b1], None::<char>));
        assert(seq![b1, b2].drop_first() =~= seq![b2]);
        assert(decode_all(text, seq![b0], seq![b1, b2]) == decode_all(
            text,
            seq![b0, b1],
            seq![b2],
        ));
        let p2 = seq![b0, b1].push(b2);
        assert(p2 =~= bs);
        assert(finish_scalar(bs) == Some(c));
        assert(decode_step(seq![b0, b1], b2) == (e, Some(c)));
        assert(seq![b2].drop_first() =~= e);
        assert(decode_all(text, seq![b0, b1], seq![b2]) == decode_all(text.push(c), e, e));
        assert(decode_all(text.push(c), e, e) == (text.push(c), e));
    } else {
        let b0 = leading_byte_width_4(s);
        let b1 = third_last_continuation_byte(s);
        let b2 = second_last_continuation_byte(s);
        let b3 = last_continuation_byte(s);
        assert(bs =~= seq![b0, b1, b2, b3]);
        assert(lead_width(b0) == 4);
        assert(decode_step(e, b0) == (seq![b0], None::<char>));
        assert(bs.drop_first() =~= seq![b1, b2, b3]);
        assert(decode_all(text, e, bs) == decode_all(text, seq![b0], seq![b1, b2, b3]));
        let p1 = seq![b0].push(b1);
        assert(p1 =~= seq![b0, b1]);
        assert(decode_step(seq![b0], b1) == (seq![b0, b1], None::<char>));
        assert(seq![b1, b2, b3].drop_first() =~= seq![b2, b3]);
        assert(decode_all(text, seq![b0], seq![b1, b2, b3]) == decode_all(
            text,
            seq![b0, b1],
            seq![b2, b3],
        ));
        let p2 = seq![b0, b1].push(b2);
        assert(p2 =~= seq![b0, b1, b2]);
        assert(decode_step(seq![b0, b1], b2) == (seq![b0, b1, b2], None::<char>));
        assert(seq![b2, b3].drop_first() =~= seq![b3]);
        assert(decode_all(text, seq![b0, b1], seq![b2, b3]) == decode_all(
            text,
            seq![b0, b1, b2],
            seq![b3],
        ));
        let p3 = seq![b0, b1, b2].push(b3);
        assert(p3 =~= bs);
        assert(finish_scalar(bs) == Some(c));
        assert(decode_step(seq![b0, b1, b2], b3) == (e, Some(c)));
        assert(seq![b3].drop_first() =~= e);
        assert(decode_all(text, seq![b0, b1, b2], seq![b3]) == decode_all(text.push(c), e, e));
        assert(decode_all(text.push(c), e, e) == (text.push(c), e));
    }
}

/// The incremental decoder is UTF-8: fed the standard encoding of any
/// character sequence from a clean state — however the bytes are split, by
/// [`lemma_decode_all_append`] — it emits exactly those characters and ends
/// with an empty buffer.  In particular a character whose bytes span a
/// decode boundary is still produced once its last byte arrives.
pub proof fn lemma_decoder_decodes_utf8(chars: Seq<char>)
    ensures
        decode_all(Seq::empty(), Seq::empty(), encode_utf8(chars)) == (chars, Seq::<u8>::empty()),
    decreases chars.len(),
{
    lemma_decode_all_encode(Seq::empty(), chars);
    assert(Seq::empty() + chars =~= chars);
}

/// Decoding the encoding of `chars` after any already-decoded `text` appends
/// exactly `chars`.
proof fn lemma_decode_all_encode(text: Seq<char>, chars: Seq<char>)
    ensures
        decode_all(text, Seq::empty(), encode_utf8(chars)) == (text + chars, Seq::<u8>::empty()),
    decreases chars.len(),
{
    let e = Seq::<u8>::empty();
    if chars.len() == 0 {
        assert(encode_utf8(chars) =~= e);
        assert(decode_all(text, e, e) == (text, e));
        assert(text + chars =~= text);
    } else {
        let c = chars[0];
        let head = encode_scalar(c as u32);
        let tail = encode_utf8(chars.drop_first());
        assert(encode_utf8(chars) == head + tail);
        lemma_decode_all_append(text, e, head, tail);
        lemma_decode_one_scalar(text, c);
        lemma_decode_all_encode(text.push(c), chars.drop_first());
        assert(text.push(c) + chars.drop_first() =~= text + chars);
    }
}

/// With the prompt excluded from the output, the extracted output lies
/// strictly between the skipped echo and the prompt match: character `i` of
/// the output is character `skip + i` of the accumulated text, and every such
/// position comes before the start of the match.  The output therefore
/// contains neither the echoed command (the first `skip` characters) nor any
/// part of the prompt match itself.
pub proof fn lemma_output_excludes_echo_and_match(text: Seq<char>, skip: int, s: int)
    requires
        0 <= skip,
        0 <= s <= text.len(),
    ensures
        ({
            let out = extract_output(text, skip, s, false);
            forall|i: int|
                0 <= i < out.len() ==> out[i] == text[skip + i] && skip + i < s
        }),
{
}

} // verus!
