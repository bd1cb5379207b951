//! What the engine hands to the synthesis process: its command line, and one
//! line on its input stream for each request.

use vstd::prelude::*;
use vstd::string::*;
use vstd::utf8::{char_is_scalar, char_u32_cast, encode_scalar, encode_utf8, is_scalar};

verus! {

/// The byte that ends a request on the input stream.
pub const LINE_TERMINATOR: u8 = 0x0a;

/// No byte of `bytes` is the line terminator.
pub open spec fn terminator_free(bytes: Seq<u8>) -> bool {
    forall|i: int| 0 <= i < bytes.len() ==> bytes[i] != LINE_TERMINATOR
}

/// The bytes of a text can be sent as one request: there is at least one, and
/// none is the line terminator, which would end the request early.
pub open spec fn single_line(text: Seq<u8>) -> bool {
    &&& text.len() > 0
    &&& terminator_free(text)
}

/// A text can be sent as one request: it is not empty and holds no newline.
pub open spec fn one_line_text(text: Seq<char>) -> bool {
    &&& text.len() > 0
    &&& forall|i: int| 0 <= i < text.len() ==> text[i] != '\n'
}

/// The bytes of one request: the text, then the line terminator.
pub open spec fn framed(text: Seq<u8>) -> Seq<u8> {
    text.push(LINE_TERMINATOR)
}

/// The command line of the synthesis process: three flags, each followed by
/// its path.
pub open spec fn command_line(model_path: Seq<char>, config_path: Seq<char>, output_path: Seq<char>) -> Seq<Seq<char>> {
    seq!["-m"@, model_path, "-c"@, config_path, "-f"@, output_path]
}

/// The arguments of a command line, each as the characters it holds.
pub open spec fn arg_views(args: &Vec<String>) -> Seq<Seq<char>> {
    Seq::new(args@.len(), |i: int| args@[i]@)
}

/// In the encoding of one character the line terminator occurs only as the
/// encoding of the newline itself.
proof fn lemma_scalar_terminator(scalar: u32)
    requires
        is_scalar(scalar),
    ensures
        1 <= encode_scalar(scalar).len() <= 4,
        forall|k: int|
            0 <= k < encode_scalar(scalar).len() ==> (encode_scalar(scalar)[k] == LINE_TERMINATOR
                <==> scalar == 0x0a),
{
    assert(scalar <= 0x7f ==> ((scalar & 0x7f) as u8 == 0x0au8 <==> scalar == 0x0au32))
        by (bit_vector);
    assert((0xc0u8 | ((scalar >> 6) & 0x1f) as u8) != 0x0au8) by (bit_vector);
    assert((0xe0u8 | ((scalar >> 12) & 0x0f) as u8) != 0x0au8) by (bit_vector);
    assert((0xf0u8 | ((scalar >> 18) & 0x7) as u8) != 0x0au8) by (bit_vector);
    assert((0x80u8 | (scalar & 0x3f) as u8) != 0x0au8) by (bit_vector);
    assert((0x80u8 | ((scalar >> 6) & 0x3f) as u8) != 0x0au8) by (bit_vector);
    assert((0x80u8 | ((scalar >> 12) & 0x3f) as u8) != 0x0au8) by (bit_vector);
}

/// The encoding of a text is free of the line terminator exactly when the
/// text holds no newline, and is empty exactly when the text is.
pub proof fn lemma_encoding_terminators(text: Seq<char>)
    ensures
        terminator_free(encode_utf8(text)) <==> forall|i: int|
            0 <= i < text.len() ==> text[i] != '\n',
        encode_utf8(text).len() == 0 <==> text.len() == 0,
    decreases text.len(),
{
    if text.len() > 0 {
        let head = encode_scalar(text[0] as u32);
        let rest = text.drop_first();
        let tail = encode_utf8(rest);
        let bytes = encode_utf8(text);
        char_is_scalar(text[0]);
        lemma_scalar_terminator(text[0] as u32);
        assert(text[0] == '\n' <==> text[0] as u32 == 0x0a) by {
            char_u32_cast(text[0], text[0] as u32);
        }
        lemma_encoding_terminators(rest);
        assert(bytes == head + tail);
        if terminator_free(bytes) {
            assert(bytes[0] == head[0]);
            assert(text[0] != '\n');
            assert forall|i: int| 0 <= i < tail.len() implies tail[i] != LINE_TERMINATOR by {
                assert(bytes[head.len() + i] == tail[i]);
            }
            assert forall|i: int| 0 <= i < text.len() implies text[i] != '\n' by {
                if i > 0 {
                    assert(rest[i - 1] == text[i]);
                }
            }
        }
        if forall|i: int| 0 <= i < text.len() ==> text[i] != '\n' {
            assert(text[0] != '\n');
            assert forall|i: int| 0 <= i < rest.len() implies rest[i] != '\n' by {
                assert(rest[i] == text[i + 1]);
            }
            assert forall|i: int| 0 <= i < bytes.len() implies bytes[i] != LINE_TERMINATOR by {
                if i < head.len() {
                    assert(bytes[i] == head[i]);
                } else {
                    assert(bytes[i] == tail[i - head.len()]);
                }
            }
        }
    }
}

/// A text fits on one line as characters exactly when its encoding does as
/// bytes.
pub proof fn lemma_one_line_text(text: Seq<char>)
    ensures
        single_line(encode_utf8(text)) <==> one_line_text(text),
{
    lemma_encoding_terminators(text);
}

/// A frame ends with the line terminator, and holds no other exactly when the
/// text holds none: one request is one line on the input stream.
pub proof fn lemma_frame_is_one_line(text: Seq<u8>)
    ensures
        framed(text).len() == text.len() + 1,
        framed(text).last() == LINE_TERMINATOR,
        framed(text).drop_last() == text,
        terminator_free(text) <==> forall|i: int|
            0 <= i < framed(text).len() - 1 ==> framed(text)[i] != LINE_TERMINATOR,
{
    assert(framed(text).drop_last() =~= text);
    if terminator_free(text) {
        assert forall|i: int| 0 <= i < framed(text).len() - 1 implies framed(text)[i]
            != LINE_TERMINATOR by {
            assert(framed(text)[i] == text[i]);
        }
    }
    if forall|i: int| 0 <= i < framed(text).len() - 1 ==> framed(text)[i] != LINE_TERMINATOR {
        assert forall|i: int| 0 <= i < text.len() implies text[i] != LINE_TERMINATOR by {
            assert(framed(text)[i] == text[i]);
        }
    }
}

/// Tells whether `text` can be sent as one request.
pub fn is_single_line(text: &str) -> (ok: bool)
    ensures
        ok == one_line_text(text@),
        ok == single_line(text.spec_bytes()),
{
    proof {
        lemma_one_line_text(text@);
    }
    let bytes = text.as_bytes();
    let len: usize = bytes.len();
    if len == 0 {
        return false;
    }
    let mut i: usize = 0;
    while i < len
        invariant
            i <= len,
            len == bytes@.len(),
            bytes@ == text.spec_bytes(),
            single_line(text.spec_bytes()) <==> one_line_text(text@),
            forall|j: int| 0 <= j < i ==> bytes@[j] != LINE_TERMINATOR,
        decreases len - i,
    {
        if bytes[i] == LINE_TERMINATOR {
            return false;
        }
        i += 1;
    }
    true
}

/// Frames `text` as one request for the input stream.
pub fn frame_request(text: &str) -> (frame: Vec<u8>)
    ensures
        frame@ == framed(text.spec_bytes()),
{
    let mut frame = text.as_bytes_vec();
    frame.push(LINE_TERMINATOR);
    frame
}

/// Builds the arguments that the synthesis process is started with.
pub fn command_args(model_path: &str, config_path: &str, output_path: &str) -> (args: Vec<String>)
    ensures
        arg_views(&args) == command_line(model_path@, config_path@, output_path@),
{
    let mut args: Vec<String> = Vec::new();
    args.push("-m".to_owned());
    args.push(model_path.to_owned());
    args.push("-c".to_owned());
    args.push(config_path.to_owned());
    args.push("-f".to_owned());
    args.push(output_path.to_owned());
    assert(arg_views(&args) =~= command_line(model_path@, config_path@, output_path@));
    args
}

} // verus!
