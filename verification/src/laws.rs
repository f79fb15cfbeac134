//! The laws of the encoding: what holds of every finished body, stated
//! over the model and proved once and for all.

use vstd::prelude::*;

verus! {

use vstd::utf8::encode_utf8;
use vstd::utf8::is_ascii_chars;
use vstd::utf8::is_ascii_chars_encode_utf8;
use crate::model::Field;
use crate::model::body_of;
use crate::model::boundary_bytes;
use crate::model::boundary_ok;
use crate::model::chunk;
use crate::model::chunk_seq;
use crate::model::close_line;
use crate::model::crlf;
use crate::model::dash_run;
use crate::model::delim_line;
use crate::model::double_dash;
use crate::model::field_block;
use crate::model::header_bytes;
use crate::model::header_of;
use crate::model::header_param;
use crate::model::header_prefix;
use crate::model::partial_body;

/// Every finished body splits into exactly one delimiter-led chunk per
/// field, in the order the fields were added, followed by exactly one
/// closing boundary line: the delimiter count equals the field count, and
/// each delimiter stands immediately before its field's headers.
pub proof fn lemma_body_structure(b: Seq<u8>, fs: Seq<Field>)
    ensures
        body_of(b, fs) == chunk_seq(b, fs) + close_line(b),
        forall|i: int| 0 <= i < fs.len() ==> chunk(b, #[trigger] fs[i]) == delim_line(b)
            + field_block(fs[i]) + crlf(),
    decreases fs.len(),
{
    if fs.len() == 0 {
        assert(body_of(b, fs) =~= chunk_seq(b, fs) + close_line(b));
    } else {
        lemma_partial_chunks(b, fs);
        assert(body_of(b, fs) =~= chunk_seq(b, fs) + close_line(b));
    }
}

/// The buffer of a builder that holds at least one field, once its last
/// field is terminated, is the concatenation of the fields' chunks.
proof fn lemma_partial_chunks(b: Seq<u8>, fs: Seq<Field>)
    requires
        fs.len() > 0,
    ensures
        partial_body(b, fs) + crlf() == chunk_seq(b, fs),
    decreases fs.len(),
{
    if fs.len() == 1 {
        reveal_with_fuel(chunk_seq, 2);
        assert(fs.drop_last().len() == 0);
        assert(fs.last() == fs[0]);
        assert(partial_body(b, fs) + crlf() =~= chunk_seq(b, fs));
    } else {
        lemma_partial_chunks(b, fs.drop_last());
        assert(partial_body(b, fs) + crlf() =~= (partial_body(b, fs.drop_last()) + crlf()) + (
        delim_line(b) + field_block(fs.last()) + crlf()));
        assert(partial_body(b, fs) + crlf() =~= chunk_seq(b, fs));
    }
}

/// The UTF-8 encoding of a concatenation is the concatenation of the
/// encodings.
proof fn lemma_encode_utf8_concat(a: Seq<char>, b: Seq<char>)
    ensures
        encode_utf8(a + b) == encode_utf8(a) + encode_utf8(b),
    decreases a.len(),
{
    if a.len() == 0 {
        assert(a + b =~= b);
        assert(encode_utf8(a + b) =~= encode_utf8(a) + encode_utf8(b));
    } else {
        assert((a + b)[0] == a[0]);
        assert((a + b).drop_first() =~= a.drop_first() + b);
        lemma_encode_utf8_concat(a.drop_first(), b);
        assert(encode_utf8(a + b) =~= encode_utf8(a) + encode_utf8(b));
    }
}

/// The boundary of the header value is byte-identical to every boundary
/// occurrence inside the body: each delimiter line is the doubled hyphen
/// followed by the byte encoding of the header's whole boundary parameter,
/// the closing line adds the doubled-hyphen suffix, and the boundary token
/// itself maps to the body's bytes character for character.
pub proof fn lemma_boundary_consistency(bnd: Seq<char>)
    requires
        boundary_ok(bnd),
    ensures
        boundary_bytes(bnd).len() == bnd.len(),
        forall|i: int| 0 <= i < bnd.len() ==> boundary_bytes(bnd)[i] == #[trigger] bnd[i] as u8,
        header_of(bnd) == header_prefix() + header_param(bnd),
        header_of(bnd).subrange(
            header_prefix().len() as int,
            header_of(bnd).len() as int,
        ) == header_param(bnd),
        delim_line(boundary_bytes(bnd)) == double_dash() + encode_utf8(header_param(bnd))
            + crlf(),
        close_line(boundary_bytes(bnd)) == double_dash() + encode_utf8(header_param(bnd))
            + double_dash() + crlf(),
        delim_line(boundary_bytes(bnd)) == dash_run() + boundary_bytes(bnd) + crlf(),
        close_line(boundary_bytes(bnd)) == dash_run() + boundary_bytes(bnd) + double_dash()
            + crlf(),
{
    assert(is_ascii_chars(bnd));
    is_ascii_chars_encode_utf8(bnd);
    lemma_encode_utf8_concat("---------------------------"@, bnd);
    assert(header_of(bnd).subrange(header_prefix().len() as int, header_of(bnd).len() as int)
        =~= header_param(bnd));
    assert(delim_line(boundary_bytes(bnd)) =~= double_dash() + encode_utf8(header_param(bnd))
        + crlf());
    assert(close_line(boundary_bytes(bnd)) =~= double_dash() + encode_utf8(header_param(bnd))
        + double_dash() + crlf());
}

/// Finishing with zero fields added yields a body that is the closing
/// boundary line alone, under a well-formed header value.
pub proof fn lemma_empty_body(bnd: Seq<char>)
    requires
        boundary_ok(bnd),
    ensures
        body_of(boundary_bytes(bnd), Seq::<Field>::empty()) == close_line(boundary_bytes(bnd)),
        close_line(boundary_bytes(bnd)) == dash_run() + boundary_bytes(bnd) + double_dash()
            + crlf(),
        header_of(bnd) == header_prefix() + header_param(bnd),
{
    lemma_boundary_consistency(bnd);
}

/// The chunks of `fs` split around any one field: what precedes it, its
/// own chunk, and what follows it.
proof fn lemma_chunk_seq_split(b: Seq<u8>, fs: Seq<Field>, i: int)
    requires
        0 <= i < fs.len(),
    ensures
        chunk_seq(b, fs) == chunk_seq(b, fs.take(i)) + chunk(b, fs[i]) + chunk_seq(
            b,
            fs.skip(i + 1),
        ),
    decreases fs.len(),
{
    let dl = fs.drop_last();
    if i == fs.len() - 1 {
        assert(dl =~= fs.take(i));
        assert(fs.skip(i + 1).len() == 0);
        assert(chunk_seq(b, fs) =~= chunk_seq(b, fs.take(i)) + chunk(b, fs[i]) + chunk_seq(
            b,
            fs.skip(i + 1),
        ));
    } else {
        lemma_chunk_seq_split(b, dl, i);
        assert(dl.take(i) =~= fs.take(i));
        let tail = dl.skip(i + 1);
        assert(tail.push(fs.last()) =~= fs.skip(i + 1));
        assert(tail.push(fs.last()).drop_last() =~= tail);
        assert(chunk_seq(b, fs.skip(i + 1)) == chunk_seq(b, tail) + chunk(b, fs.last()));
        assert(chunk_seq(b, fs) =~= chunk_seq(b, fs.take(i)) + chunk(b, fs[i]) + chunk_seq(
            b,
            fs.skip(i + 1),
        ));
    }
}

/// Each field's content stands in the body as one contiguous byte run,
/// immediately after the blank line that ends that field's headers (the
/// headers end with two CRLF runs, the second being the blank line) and
/// immediately before the terminator that closes the field.
#[verifier::rlimit(50)]
pub proof fn lemma_field_content_placement(b: Seq<u8>, fs: Seq<Field>, i: int)
    requires
        0 <= i < fs.len(),
    ensures
        body_of(b, fs) == chunk_seq(b, fs.take(i)) + delim_line(b) + header_bytes(
            fs[i].name,
            fs[i].filename,
            fs[i].content_type,
        ) + fs[i].content + crlf() + chunk_seq(b, fs.skip(i + 1)) + close_line(b),
{
    lemma_body_structure(b, fs);
    lemma_chunk_seq_split(b, fs, i);
    assert(chunk(b, fs[i]) =~= delim_line(b) + header_bytes(
        fs[i].name,
        fs[i].filename,
        fs[i].content_type,
    ) + fs[i].content + crlf());
    assert(body_of(b, fs) =~= chunk_seq(b, fs.take(i)) + delim_line(b) + header_bytes(
        fs[i].name,
        fs[i].filename,
        fs[i].content_type,
    ) + fs[i].content + crlf() + chunk_seq(b, fs.skip(i + 1)) + close_line(b));
}

} // verus!
