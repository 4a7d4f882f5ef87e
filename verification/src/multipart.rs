//! The multipart/form-data encoding of an argument set: the exact bytes a
//! connection sends as the body of a submission request.
//!
//! Every serialized request part becomes one multipart part between boundary
//! lines: a scalar argument as a form-data field, a file attachment as a
//! form-data field with a file name and the file's raw bytes. The encoding is
//! stated byte for byte, over the UTF-8 bytes of the names and values.

use vstd::prelude::*;
use vstd::utf8::encode_utf8;

use crate::args::ApiArguments;
use crate::args::ApiArgumentsView;
use crate::args::ArgValue;
use crate::args::ArgValueView;
use crate::args::RequestPart;
use crate::args::RequestPartView;
use crate::args::parts_view;
use crate::args::serialized_parts;

verus! {

/// The bytes of a scalar argument's value in the request body: a string as
/// its UTF-8 bytes, a boolean as the word the remote service expects.
pub open spec fn scalar_value_bytes(value: ArgValueView) -> Seq<u8> {
    match value {
        ArgValueView::Str(s) => encode_utf8(s),
        ArgValueView::Flag(b) => if b {
            encode_utf8("yes"@)
        } else {
            encode_utf8("no"@)
        },
    }
}

/// The bytes of one multipart part: its leading boundary line, its form-data
/// header, its payload, and its trailing line break.
pub open spec fn part_bytes(boundary: Seq<char>, part: RequestPartView) -> Seq<u8> {
    encode_utf8("--"@) + encode_utf8(boundary) + encode_utf8("\r\n"@) + (match part {
        RequestPartView::Scalar(name, value) => encode_utf8(
            "Content-Disposition: form-data; name=\""@,
        ) + encode_utf8(name) + encode_utf8("\"\r\n\r\n"@) + scalar_value_bytes(value),
        RequestPartView::FileAttachment(name, file) => encode_utf8(
            "Content-Disposition: form-data; name=\""@,
        ) + encode_utf8(name) + encode_utf8("\"; filename=\""@) + encode_utf8(file.name)
            + encode_utf8("\"\r\nContent-Type: application/octet-stream\r\n\r\n"@) + file.content,
    }) + encode_utf8("\r\n"@)
}

/// The bytes of the first `n` request parts, in order.
pub open spec fn parts_bytes_up_to(
    boundary: Seq<char>,
    parts: Seq<RequestPartView>,
    n: int,
) -> Seq<u8>
    decreases n,
{
    if n <= 0 {
        Seq::empty()
    } else {
        parts_bytes_up_to(boundary, parts, n - 1) + part_bytes(boundary, parts[n - 1])
    }
}

/// The closing boundary line of a multipart body.
pub open spec fn closing_bytes(boundary: Seq<char>) -> Seq<u8> {
    encode_utf8("--"@) + encode_utf8(boundary) + encode_utf8("--\r\n"@)
}

/// The whole multipart/form-data body of an argument set under a boundary:
/// every serialized part in order, then the closing boundary line.
pub open spec fn multipart_encoding(boundary: Seq<char>, v: ApiArgumentsView) -> Seq<u8> {
    parts_bytes_up_to(boundary, serialized_parts(v), serialized_parts(v).len() as int)
        + closing_bytes(boundary)
}

/// Appends the bytes of a slice to a vector.
fn append_bytes(dst: &mut Vec<u8>, src: &[u8])
    ensures
        final(dst)@ == old(dst)@ + src@,
{
    let ghost d0 = dst@;
    dst.extend_from_slice(src);
    proof {
        assert forall|i: int| d0.len() <= i < dst@.len() implies dst@[i] == src@[i - d0.len()] by {
            assert(cloned::<u8>(src@[i - d0.len()], dst@[i]));
        }
        assert(dst@ =~= d0 + src@);
    }
}

/// Appends the UTF-8 bytes of a string to a vector.
fn append_str(dst: &mut Vec<u8>, src: &str)
    ensures
        final(dst)@ == old(dst)@ + encode_utf8(src@),
{
    append_bytes(dst, src.as_bytes());
}

/// Encodes the argument set as a multipart/form-data body under the given
/// boundary.
#[verifier::loop_isolation(false)]
#[verifier::rlimit(100)]
pub fn encode_multipart(args: &ApiArguments, boundary: &str) -> (r: Vec<u8>)
    ensures
        r@ == multipart_encoding(boundary@, args@),
{
    let parts: Vec<RequestPart> = args.to_parts();
    let mut body: Vec<u8> = Vec::new();
    let mut i: usize = 0;
    while i < parts.len()
        invariant
            i <= parts@.len(),
            body@ == parts_bytes_up_to(boundary@, parts_view(parts@), i as int),
        decreases parts@.len() - i,
    {
        let ghost b0 = body@;
        append_str(&mut body, "--");
        append_str(&mut body, boundary);
        append_str(&mut body, "\r\n");
        match &parts[i] {
            RequestPart::Scalar(name, value) => {
                append_str(&mut body, "Content-Disposition: form-data; name=\"");
                append_str(&mut body, name.as_str());
                append_str(&mut body, "\"\r\n\r\n");
                match value {
                    ArgValue::Str(s) => {
                        append_str(&mut body, s.as_str());
                    },
                    ArgValue::Flag(b) => {
                        if *b {
                            append_str(&mut body, "yes");
                        } else {
                            append_str(&mut body, "no");
                        }
                    },
                }
            },
            RequestPart::FileAttachment(name, file) => {
                append_str(&mut body, "Content-Disposition: form-data; name=\"");
                append_str(&mut body, name.as_str());
                append_str(&mut body, "\"; filename=\"");
                append_str(&mut body, file.name.as_str());
                append_str(&mut body, "\"\r\nContent-Type: application/octet-stream\r\n\r\n");
                append_bytes(&mut body, file.content.as_slice());
            },
        }
        append_str(&mut body, "\r\n");
        i = i + 1;
        proof {
            assert(body@ =~= b0 + part_bytes(boundary@, parts_view(parts@)[i - 1]));
        }
    }
    append_str(&mut body, "--");
    append_str(&mut body, boundary);
    append_str(&mut body, "--\r\n");
    proof {
        assert(body@ =~= multipart_encoding(boundary@, args@));
    }
    body
}

} // verus!
