//! Text output through the BIOS teletype service.
use vstd::prelude::*;
use vstd::utf8::{encode_utf8, is_ascii_chars, is_ascii_chars_encode_utf8, is_ascii_chars_nat_bound};

verus! {

/// The bytes the BIOS teletype service is given for one character: a
/// carriage return before each line feed, and otherwise the low byte of the
/// character's code point.
pub open spec fn char_bytes(c: char) -> Seq<u8> {
    if c == '\n' {
        seq![13u8, 10u8]
    } else {
        seq![c as u8]
    }
}

/// The bytes the BIOS teletype service is given for a text.
pub open spec fn console_bytes(text: Seq<char>) -> Seq<u8>
    decreases text.len(),
{
    if text.len() == 0 {
        Seq::empty()
    } else {
        console_bytes(text.drop_last()) + char_bytes(text.last())
    }
}

/// An ASCII character goes out as its code.
proof fn lemma_ascii_char_byte(c: char)
    requires
        '\0' <= c <= '\u{7f}',
    ensures
        c as u8 == c as nat,
{
    assert(is_ascii_chars(seq![c]));
    is_ascii_chars_nat_bound(seq![c]);
    assert(seq![c][0] == c);
}

/// The prefix of an ASCII text is ASCII.
proof fn lemma_ascii_prefix(text: Seq<char>)
    requires
        is_ascii_chars(text),
        text.len() > 0,
    ensures
        is_ascii_chars(text.drop_last()),
{
    assert forall|i: int| 0 <= i < text.drop_last().len() implies '\0' <= #[trigger] text.drop_last()[i]
        <= '\u{7f}' by {
        assert(text.drop_last()[i] == text[i]);
    }
}

/// In the output of an ASCII text every line feed comes right after a
/// carriage return.
pub proof fn lemma_line_feed_after_carriage_return(text: Seq<char>)
    requires
        is_ascii_chars(text),
    ensures
        forall|j: int|
            0 <= j < console_bytes(text).len() && #[trigger] console_bytes(text)[j] == 10u8 ==> j
                > 0 && console_bytes(text)[j - 1] == 13u8,
    decreases text.len(),
{
    if text.len() > 0 {
        let prefix = text.drop_last();
        let c = text.last();
        lemma_ascii_prefix(text);
        lemma_line_feed_after_carriage_return(prefix);
        assert('\0' <= text[text.len() - 1] <= '\u{7f}');
        lemma_ascii_char_byte(c);
        let out = console_bytes(text);
        let head = console_bytes(prefix);
        assert(out == head + char_bytes(c));
        assert forall|j: int| 0 <= j < out.len() && #[trigger] out[j] == 10u8 implies j > 0 && out[j
            - 1] == 13u8 by {
            if j < head.len() {
                assert(out[j] == head[j]);
                assert(out[j - 1] == head[j - 1]);
            }
        }
    }
}

/// An ASCII text without line feeds goes out as its UTF-8 bytes, one byte
/// per character.
pub proof fn lemma_plain_ascii_text(text: Seq<char>)
    requires
        is_ascii_chars(text),
        !text.contains('\n'),
    ensures
        console_bytes(text) == encode_utf8(text),
    decreases text.len(),
{
    is_ascii_chars_encode_utf8(text);
    if text.len() > 0 {
        let prefix = text.drop_last();
        lemma_ascii_prefix(text);
        assert(!prefix.contains('\n')) by {
            if prefix.contains('\n') {
                let k = choose|k: int| 0 <= k < prefix.len() && prefix[k] == '\n';
                assert(text[k] == '\n');
            }
        }
        lemma_plain_ascii_text(prefix);
        is_ascii_chars_encode_utf8(prefix);
        let c = text.last();
        assert('\0' <= text[text.len() - 1] <= '\u{7f}');
        assert(c != '\n');
        lemma_ascii_char_byte(c);
        assert forall|i: int| 0 <= i < text.len() implies console_bytes(text)[i]
            == encode_utf8(text)[i] by {
            assert(text[i] as u8 == encode_utf8(text)[i]);
            if i < prefix.len() {
                assert(text[i] == prefix[i]);
                assert(prefix[i] as u8 == encode_utf8(prefix)[i]);
            }
        }
        assert(console_bytes(text) =~= encode_utf8(text));
    }
}

/// The output of a text is the output of its first part followed by the
/// output of the rest: characters go out one by one, each independently of
/// its neighbours.
pub proof fn lemma_console_bytes_append(a: Seq<char>, b: Seq<char>)
    ensures
        console_bytes(a + b) == console_bytes(a) + console_bytes(b),
    decreases b.len(),
{
    if b.len() == 0 {
        assert(a + b =~= a);
        assert(console_bytes(a) + console_bytes(b) =~= console_bytes(a));
    } else {
        lemma_console_bytes_append(a, b.drop_last());
        assert((a + b).drop_last() =~= a + b.drop_last());
        assert((a + b).last() == b.last());
        assert(console_bytes(a + b) =~= console_bytes(a) + console_bytes(b));
    }
}

/// A single line feed goes out as carriage return then line feed; any other
/// single character goes out as the low byte of its code point.
pub proof fn lemma_console_bytes_single(c: char)
    ensures
        c == '\n' ==> console_bytes(seq![c]) == seq![13u8, 10u8],
        c != '\n' ==> console_bytes(seq![c]) == seq![c as u8],
{
    assert(seq![c].drop_last() =~= Seq::<char>::empty());
    assert(seq![c].last() == c);
    assert(console_bytes(Seq::<char>::empty()) =~= Seq::<u8>::empty());
    assert(console_bytes(seq![c]) == console_bytes(Seq::<char>::empty()) + char_bytes(c));
    assert(console_bytes(seq![c]) =~= char_bytes(c));
}

/// The output is one byte per character plus one carriage return per line
/// feed.
pub proof fn lemma_console_bytes_len(text: Seq<char>)
    ensures
        console_bytes(text).len() == text.len() + text.filter(|c: char| c == '\n').len(),
    decreases text.len(),
{
    reveal(Seq::filter);
    if text.len() > 0 {
        lemma_console_bytes_len(text.drop_last());
    }
}

/// The value of `AX` for `INT 10h` teletype output of a byte: function `0Eh`
/// in `AH`, the byte in `AL`.
pub fn teletype_ax(c: u8) -> (ax: u16)
    ensures
        ax == 0x0e00 + c,
{
    0x0e00u16 + c as u16
}

/// The console: text written to it goes to the BIOS teletype service.
pub struct Printer;

impl Printer {
    /// The bytes to hand to the teletype service, in order, to write `s`.
    pub fn write_str(&mut self, s: &str) -> (bytes: Vec<u8>)
        ensures
            bytes@ == console_bytes(s@),
            bytes@.len() == s@.len() + s@.filter(|c: char| c == '\n').len(),
    {
        broadcast use vstd::string::axiom_spec_iter;

        let mut bytes: Vec<u8> = Vec::new();
        for c in it: s.chars()
            invariant
                it.seq() == s@,
                bytes@ == console_bytes(it.seq().take(it.index() as int)),
        {
            proof {
                assert(it.seq().take(it.index() + 1).drop_last() =~= it.seq().take(
                    it.index() as int,
                ));
            }
            if c == '\n' {
                bytes.push(13u8);
            }
            bytes.push(c as u8);
        }
        assert(s@.take(s@.len() as int) =~= s@);
        proof {
            lemma_console_bytes_len(s@);
        }
        bytes
    }
}

} // verus!
