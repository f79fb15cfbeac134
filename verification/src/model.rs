//! The byte-level model of the multipart/form-data wire format.
//!
//! Every contract of the encoder is stated against the functions here: a
//! field is a record of the byte runs that frame it, and the finished body
//! is a function of the boundary bytes and the sequence of fields added.

use vstd::prelude::*;

verus! {

use vstd::string::StringSliceAdditionalSpecFns;
use vstd::utf8::encode_utf8;

/// Length, in characters, of the random boundary token.
pub const BOUNDARY_LEN: usize = 29;

/// One field as the encoder records it. A text field carries no filename
/// and no content type; a stream field always carries a content type.
pub struct Field {
    pub name: Seq<u8>,
    pub filename: Option<Seq<u8>>,
    pub content_type: Option<Seq<u8>>,
    pub content: Seq<u8>,
}

/// The CRLF line terminator.
pub open spec fn crlf() -> Seq<u8> {
    "\r\n".spec_bytes()
}

/// The doubled hyphen that marks the closing boundary line, and that turns
/// the header's boundary parameter into a body delimiter.
pub open spec fn double_dash() -> Seq<u8> {
    "--".spec_bytes()
}

/// The hyphen run that pads the boundary token inside the header value.
pub open spec fn header_dashes() -> Seq<char> {
    "---------------------------"@
}

/// The hyphen run that opens every boundary line inside the body: two more
/// hyphens than the header's run, so that each body line reads `--`
/// followed by the header's boundary parameter.
pub open spec fn dash_run() -> Seq<u8> {
    double_dash() + encode_utf8(header_dashes())
}

pub open spec fn quote() -> Seq<u8> {
    "\"".spec_bytes()
}

pub open spec fn disposition_prefix() -> Seq<u8> {
    "Content-Disposition: form-data; name=\"".spec_bytes()
}

pub open spec fn filename_prefix() -> Seq<u8> {
    "; filename=\"".spec_bytes()
}

pub open spec fn content_type_prefix() -> Seq<u8> {
    "Content-Type: ".spec_bytes()
}

/// The generic binary content type, used when a stream field names none.
pub open spec fn octet_stream() -> Seq<u8> {
    "application/octet-stream".spec_bytes()
}

/// The fixed part of the `Content-Type` header value; the boundary
/// parameter follows it directly.
pub open spec fn header_prefix() -> Seq<char> {
    "multipart/form-data; boundary="@
}

/// The boundary parameter of the header value: the hyphen padding followed
/// by the boundary token.
pub open spec fn header_param(bnd: Seq<char>) -> Seq<char> {
    header_dashes() + bnd
}

/// The header value returned together with the finished body.
pub open spec fn header_of(bnd: Seq<char>) -> Seq<char> {
    header_prefix() + header_param(bnd)
}

/// A well-formed boundary token: a run of decimal digits of the fixed length.
pub open spec fn boundary_ok(bnd: Seq<char>) -> bool {
    &&& bnd.len() == BOUNDARY_LEN as nat
    &&& forall|i: int| 0 <= i < bnd.len() ==> '0' <= #[trigger] bnd[i] && bnd[i] <= '9'
}

/// The boundary token as it appears inside the body.
pub open spec fn boundary_bytes(bnd: Seq<char>) -> Seq<u8> {
    encode_utf8(bnd)
}

pub open spec fn opt_bytes(o: Option<&str>) -> Option<Seq<u8>> {
    match o {
        Some(s) => Some(s.spec_bytes()),
        None => None,
    }
}

/// The header block of one field: the `Content-Disposition` line, the
/// optional `Content-Type` line, and the blank line that ends the headers.
pub open spec fn header_bytes(
    name: Seq<u8>,
    filename: Option<Seq<u8>>,
    content_type: Option<Seq<u8>>,
) -> Seq<u8> {
    disposition_prefix() + name + quote() + (match filename {
        Some(f) => filename_prefix() + f + quote(),
        None => Seq::<u8>::empty(),
    }) + (match content_type {
        Some(ct) => crlf() + content_type_prefix() + ct,
        None => Seq::<u8>::empty(),
    }) + crlf() + crlf()
}

/// One field's block: its headers followed by its raw content bytes.
pub open spec fn field_block(f: Field) -> Seq<u8> {
    header_bytes(f.name, f.filename, f.content_type) + f.content
}

/// The boundary delimiter line that opens a field.
pub open spec fn delim_line(b: Seq<u8>) -> Seq<u8> {
    dash_run() + b + crlf()
}

/// The closing boundary line that terminates the whole body.
pub open spec fn close_line(b: Seq<u8>) -> Seq<u8> {
    dash_run() + b + double_dash() + crlf()
}

/// The field recorded by an add-text operation.
pub open spec fn text_field(name: Seq<u8>, text: Seq<u8>) -> Field {
    Field { name, filename: None, content_type: None, content: text }
}

/// The field recorded by an add-stream operation.
pub open spec fn stream_field(
    name: Seq<u8>,
    filename: Option<Seq<u8>>,
    content_type: Seq<u8>,
    content: Seq<u8>,
) -> Field {
    Field { name, filename, content_type: Some(content_type), content }
}

/// The buffer contents after the fields `fs` have been framed. The last
/// field's content is not yet terminated: the CRLF that closes it is
/// deferred until the next field or the closing boundary is written.
pub open spec fn partial_body(b: Seq<u8>, fs: Seq<Field>) -> Seq<u8>
    decreases fs.len(),
{
    if fs.len() == 0 {
        Seq::<u8>::empty()
    } else if fs.len() == 1 {
        delim_line(b) + field_block(fs[0])
    } else {
        partial_body(b, fs.drop_last()) + crlf() + delim_line(b) + field_block(fs.last())
    }
}

/// The finished body: the framed fields, the deferred terminator of the
/// last field, and the closing boundary line. With zero fields the body is
/// the closing line alone.
pub open spec fn body_of(b: Seq<u8>, fs: Seq<Field>) -> Seq<u8> {
    if fs.len() == 0 {
        close_line(b)
    } else {
        partial_body(b, fs) + crlf() + close_line(b)
    }
}

/// One field's slice of the finished body: the delimiter line that opens
/// it, its block, and the terminator that closes its content.
pub open spec fn chunk(b: Seq<u8>, f: Field) -> Seq<u8> {
    delim_line(b) + field_block(f) + crlf()
}

/// The chunks of all fields in `fs`, concatenated in order.
pub open spec fn chunk_seq(b: Seq<u8>, fs: Seq<Field>) -> Seq<u8>
    decreases fs.len(),
{
    if fs.len() == 0 {
        Seq::<u8>::empty()
    } else {
        chunk_seq(b, fs.drop_last()) + chunk(b, fs.last())
    }
}

/// Framing one more field appends the deferred terminator (when a field was
/// already written), a fresh delimiter line, and the new field's block.
pub proof fn lemma_partial_body_push(b: Seq<u8>, fs: Seq<Field>, f: Field)
    ensures
        partial_body(b, fs.push(f)) == partial_body(b, fs) + (if fs.len() > 0 {
            crlf()
        } else {
            Seq::<u8>::empty()
        }) + delim_line(b) + field_block(f),
{
    if fs.len() == 0 {
        assert(partial_body(b, fs.push(f)) =~= delim_line(b) + field_block(f));
        assert(partial_body(b, fs.push(f)) =~= partial_body(b, fs) + Seq::<u8>::empty()
            + delim_line(b) + field_block(f));
    } else {
        assert(fs.push(f).drop_last() =~= fs);
        assert(fs.push(f).last() == f);
        assert(partial_body(b, fs.push(f)) =~= partial_body(b, fs) + crlf() + delim_line(b)
            + field_block(f));
    }
}

} // verus!
