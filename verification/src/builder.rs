//! The multipart body encoder.

use vstd::prelude::*;

verus! {

use vstd::string::StringSliceAdditionalSpecFns;
use vstd::string::StringExecFns;
use crate::model::BOUNDARY_LEN;
use crate::model::Field;
use crate::model::body_of;
use crate::model::boundary_bytes;
use crate::model::boundary_ok;
use crate::model::crlf;
use crate::model::delim_line;
use crate::model::header_bytes;
use crate::model::header_of;
use crate::model::lemma_partial_body_push;
use crate::model::octet_stream;
use crate::model::opt_bytes;
use crate::model::partial_body;
use crate::model::stream_field;
use crate::model::text_field;
use crate::paths::filename_of_path;
use crate::paths::mime_filename;
use crate::trusted::mime_of;
use crate::trusted::random_alphanumeric;
use vstd::utf8::encode_utf8;

/// Appends every byte of `src` to `dst`.
pub(crate) fn append_bytes(dst: &mut Vec<u8>, src: &[u8])
    ensures
        final(dst)@ == old(dst)@ + src@,
{
    let mut i: usize = 0;
    while i < src.len()
        invariant
            0 <= i <= src@.len(),
            dst@ == old(dst)@ + src@.take(i as int),
        decreases src@.len() - i,
    {
        dst.push(src[i]);
        i = i + 1;
        proof {
            assert(dst@ =~= old(dst)@ + src@.take(i as int));
        }
    }
    proof {
        assert(dst@ =~= old(dst)@ + src@);
    }
}

/// Appends the UTF-8 bytes of `s` to `dst`.
pub(crate) fn append_str(dst: &mut Vec<u8>, s: &str)
    ensures
        final(dst)@ == old(dst)@ + s.spec_bytes(),
{
    append_bytes(dst, s.as_bytes());
}

/// What the encoder's contracts see of it: the boundary token and the
/// fields added so far, in order.
pub struct EncoderView {
    pub boundary: Seq<char>,
    pub fields: Seq<Field>,
}

/// Builds a multipart/form-data body. Construction draws a fresh random
/// boundary; each add operation frames one field into the owned buffer;
/// `finish` consumes the builder and yields the header value and the body.
pub struct MultipartBuilder {
    boundary: String,
    inner: Vec<u8>,
    data_written: bool,
    fields: Ghost<Seq<Field>>,
}

impl View for MultipartBuilder {
    type V = EncoderView;

    closed spec fn view(&self) -> EncoderView {
        EncoderView { boundary: self.boundary@, fields: self.fields@ }
    }
}

impl MultipartBuilder {
    /// The builder's invariant: the boundary is a digit run of the fixed
    /// length, the flag records whether any field was written, and the
    /// buffer holds exactly the framing of the fields added so far.
    pub closed spec fn wf(self) -> bool {
        &&& boundary_ok(self.boundary@)
        &&& self.data_written == (self.fields@.len() > 0)
        &&& self.inner@ == partial_body(boundary_bytes(self.boundary@), self.fields@)
    }

    pub fn new() -> (r: Self)
        ensures
            r.wf(),
            r@.fields == Seq::<Field>::empty(),
            boundary_ok(r@.boundary),
    {
        let r = MultipartBuilder {
            boundary: random_alphanumeric(BOUNDARY_LEN),
            inner: Vec::new(),
            data_written: false,
            fields: Ghost(Seq::empty()),
        };
        proof {
            assert(r.inner@ =~= partial_body(boundary_bytes(r.boundary@), r.fields@));
        }
        r
    }

    /// Writes the deferred terminator of the previous field, if any, then a
    /// fresh boundary delimiter line.
    fn write_boundary(&mut self)
        ensures
            final(self).boundary == old(self).boundary,
            final(self).data_written == old(self).data_written,
            final(self).fields@ == old(self).fields@,
            final(self).inner@ == old(self).inner@ + (if old(self).data_written {
                crlf()
            } else {
                Seq::<u8>::empty()
            }) + delim_line(boundary_bytes(old(self).boundary@)),
    {
        if self.data_written {
            append_str(&mut self.inner, "\r\n");
        }
        append_str(&mut self.inner, "--");
        append_str(&mut self.inner, "---------------------------");
        let bnd: &str = self.boundary.as_str();
        append_str(&mut self.inner, bnd);
        append_str(&mut self.inner, "\r\n");
        proof {
            assert(self.inner@ =~= old(self).inner@ + (if old(self).data_written {
                crlf()
            } else {
                Seq::<u8>::empty()
            }) + delim_line(boundary_bytes(old(self).boundary@)));
        }
    }

    /// Writes the boundary delimiter and the header block of one field.
    #[verifier::rlimit(50)]
    fn write_field_headers(&mut self, name: &str, filename: Option<&str>, content_type: Option<&str>)
        ensures
            final(self).boundary == old(self).boundary,
            final(self).data_written,
            final(self).fields@ == old(self).fields@,
            final(self).inner@ == old(self).inner@ + (if old(self).data_written {
                crlf()
            } else {
                Seq::<u8>::empty()
            }) + delim_line(boundary_bytes(old(self).boundary@)) + header_bytes(
                name.spec_bytes(),
                opt_bytes(filename),
                opt_bytes(content_type),
            ),
    {
        self.write_boundary();
        if !self.data_written {
            self.data_written = true;
        }
        append_str(&mut self.inner, "Content-Disposition: form-data; name=\"");
        append_str(&mut self.inner, name);
        append_str(&mut self.inner, "\"");
        if let Some(fname) = filename {
            append_str(&mut self.inner, "; filename=\"");
            append_str(&mut self.inner, fname);
            append_str(&mut self.inner, "\"");
        }
        if let Some(ct) = content_type {
            append_str(&mut self.inner, "\r\n");
            append_str(&mut self.inner, "Content-Type: ");
            append_str(&mut self.inner, ct);
        }
        append_str(&mut self.inner, "\r\n");
        append_str(&mut self.inner, "\r\n");
        proof {
            assert(self.inner@ =~= old(self).inner@ + (if old(self).data_written {
                crlf()
            } else {
                Seq::<u8>::empty()
            }) + delim_line(boundary_bytes(old(self).boundary@)) + header_bytes(
                name.spec_bytes(),
                opt_bytes(filename),
                opt_bytes(content_type),
            ));
        }
    }

    /// Adds a text field: a `Content-Disposition` header block followed by
    /// the raw UTF-8 bytes of `text`.
    pub fn add_text(self, name: &str, text: &str) -> (r: Result<Self, std::io::Error>)
        requires
            self.wf(),
        ensures
            r is Ok,
            r->Ok_0.wf(),
            r->Ok_0@.boundary == self@.boundary,
            r->Ok_0@.fields == self@.fields.push(
                text_field(name.spec_bytes(), text.spec_bytes()),
            ),
    {
        let mut s = self;
        s.write_field_headers(name, None, None);
        append_str(&mut s.inner, text);
        proof {
            lemma_partial_body_push(
                boundary_bytes(s.boundary@),
                s.fields@,
                text_field(name.spec_bytes(), text.spec_bytes()),
            );
        }
        s.fields = Ghost(s.fields@.push(text_field(name.spec_bytes(), text.spec_bytes())));
        proof {
            assert(s.inner@ =~= partial_body(boundary_bytes(s.boundary@), s.fields@));
        }
        Ok(s)
    }

    /// Adds a stream field from bytes already in memory: the header block
    /// always carries a `Content-Type` line, defaulting to the generic
    /// binary type when none is supplied, so that receiving servers treat
    /// the part as a file; the content bytes are copied in verbatim.
    pub fn add_stream(
        self,
        content: &[u8],
        name: &str,
        filename: Option<&str>,
        content_type: Option<&str>,
    ) -> (r: Result<Self, std::io::Error>)
        requires
            self.wf(),
        ensures
            r is Ok,
            r->Ok_0.wf(),
            r->Ok_0@.boundary == self@.boundary,
            r->Ok_0@.fields == self@.fields.push(
                stream_field(
                    name.spec_bytes(),
                    opt_bytes(filename),
                    (match content_type {
                        Some(ct) => ct.spec_bytes(),
                        None => octet_stream(),
                    }),
                    content@,
                ),
            ),
    {
        let mut s = self;
        let ct: &str = match content_type {
            Some(c) => c,
            None => "application/octet-stream",
        };
        s.write_field_headers(name, filename, Some(ct));
        append_bytes(&mut s.inner, content);
        proof {
            lemma_partial_body_push(
                boundary_bytes(s.boundary@),
                s.fields@,
                stream_field(name.spec_bytes(), opt_bytes(filename), ct.spec_bytes(), content@),
            );
        }
        s.fields = Ghost(
            s.fields@.push(
                stream_field(name.spec_bytes(), opt_bytes(filename), ct.spec_bytes(), content@),
            ),
        );
        proof {
            assert(s.inner@ =~= partial_body(boundary_bytes(s.boundary@), s.fields@));
        }
        Ok(s)
    }

    /// Adds a file's contents, already read into memory, under the given
    /// field name: the content type is inferred from the path's extension
    /// and the filename attribute is the path's final component, omitted
    /// when the path has none.
    pub fn add_file_bytes(self, name: &str, path: &str, content: &[u8]) -> (r: Result<
        Self,
        std::io::Error,
    >)
        requires
            self.wf(),
        ensures
            r is Ok,
            r->Ok_0.wf(),
            r->Ok_0@.boundary == self@.boundary,
            r->Ok_0@.fields == self@.fields.push(
                (Field {
                    name: name.spec_bytes(),
                    filename: (match filename_of_path(path@) {
                        Some(f) => Some(encode_utf8(f)),
                        None => None,
                    }),
                    content_type: Some(encode_utf8(mime_of(path@))),
                    content: content@,
                }),
            ),
    {
        let (content_type, filename) = mime_filename(path);
        let fname: Option<&str> = match &filename {
            Some(s) => Some(s.as_str()),
            None => None,
        };
        self.add_stream(content, name, fname, Some(content_type.as_str()))
    }

    /// Terminates the last field, if any, writes the closing boundary line
    /// — present even when zero fields were added — and returns the header
    /// value together with the finished body.
    pub fn finish(self) -> (r: Result<(String, Vec<u8>), std::io::Error>)
        requires
            self.wf(),
        ensures
            r is Ok,
            r->Ok_0.0@ == header_of(self@.boundary),
            r->Ok_0.1@ == body_of(boundary_bytes(self@.boundary), self@.fields),
    {
        let MultipartBuilder { boundary, mut inner, data_written, fields } = self;
        if data_written {
            append_str(&mut inner, "\r\n");
        }
        append_str(&mut inner, "--");
        append_str(&mut inner, "---------------------------");
        append_str(&mut inner, boundary.as_str());
        append_str(&mut inner, "--");
        append_str(&mut inner, "\r\n");
        let mut header = String::new();
        header.append("multipart/form-data; boundary=");
        header.append("---------------------------");
        header.append(boundary.as_str());
        proof {
            assert(header@ =~= header_of(boundary@));
            assert(inner@ =~= body_of(boundary_bytes(boundary@), fields@));
        }
        Ok((header, inner))
    }
}

impl Default for MultipartBuilder {
    fn default() -> (r: Self)
        ensures
            r.wf(),
            r@.fields == Seq::<Field>::empty(),
            boundary_ok(r@.boundary),
    {
        Self::new()
    }
}

} // verus!
