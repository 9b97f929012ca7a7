//! The diagnostic error model: one tagged union with six kinds, a
//! construction contract that attaches the whole source text as the
//! implicated span, and a rendering contract with a stable label and
//! code per kind.

use vstd::prelude::*;
use vstd::string::*;

verus! {

/// Number of bytes of the UTF-8 encoding of a text. Spans into a source
/// text are measured in this unit, the same unit `str::len` reports and
/// byte-slicing uses.
pub open spec fn byte_len(s: Seq<char>) -> nat {
    vstd::utf8::encode_utf8(s).len()
}

/// The category of a failure: one per pipeline stage. Fixed at
/// construction; determines the diagnostic label and code.
#[derive(Clone, Copy, Debug, PartialEq, Eq, Structural)]
pub enum ErrorKind {
    Config,
    Domain,
    Document,
    FileSystem,
    Input,
    Url,
}

/// The fixed human-readable label of a kind; every rendered summary of
/// an error of that kind begins with it.
pub open spec fn label_of(k: ErrorKind) -> Seq<char> {
    match k {
        ErrorKind::Config => "Configuration error"@,
        ErrorKind::Domain => "Domain error"@,
        ErrorKind::Document => "DID document error"@,
        ErrorKind::FileSystem => "Filesystem error"@,
        ErrorKind::Input => "Input error"@,
        ErrorKind::Url => "URL parse error"@,
    }
}

/// The stable machine-readable code of a kind, a dotted identifier
/// unique per kind.
pub open spec fn code_of(k: ErrorKind) -> Seq<char> {
    match k {
        ErrorKind::Config => "didweb::config"@,
        ErrorKind::Domain => "didweb::domain"@,
        ErrorKind::Document => "didweb::document"@,
        ErrorKind::FileSystem => "didweb::fs"@,
        ErrorKind::Input => "didweb::input"@,
        ErrorKind::Url => "didweb::url"@,
    }
}

/// One pipeline failure: the source text being processed, a half-open
/// byte span `[err_span.0, err_span.1)` into it, and a message. The
/// variant is the failure's kind.
#[derive(Debug)]
pub enum SetupError {
    Config { src: String, err_span: (usize, usize), msg: String },
    Domain { src: String, err_span: (usize, usize), msg: String },
    Document { src: String, err_span: (usize, usize), msg: String },
    FileSystem { src: String, err_span: (usize, usize), msg: String },
    Input { src: String, err_span: (usize, usize), msg: String },
    Url { src: String, err_span: (usize, usize), msg: String },
}

/// The pipeline's standard failure channel: every stage normalizes its
/// failures into `SetupError`.
pub type SetupResult<T> = Result<T, SetupError>;

impl SetupError {
    /// The kind of this error.
    pub open spec fn spec_kind(self) -> ErrorKind {
        match self {
            SetupError::Config { .. } => ErrorKind::Config,
            SetupError::Domain { .. } => ErrorKind::Domain,
            SetupError::Document { .. } => ErrorKind::Document,
            SetupError::FileSystem { .. } => ErrorKind::FileSystem,
            SetupError::Input { .. } => ErrorKind::Input,
            SetupError::Url { .. } => ErrorKind::Url,
        }
    }

    /// The stored message.
    pub open spec fn spec_message(self) -> Seq<char> {
        match self {
            SetupError::Config { msg, .. } => msg@,
            SetupError::Domain { msg, .. } => msg@,
            SetupError::Document { msg, .. } => msg@,
            SetupError::FileSystem { msg, .. } => msg@,
            SetupError::Input { msg, .. } => msg@,
            SetupError::Url { msg, .. } => msg@,
        }
    }

    /// The stored source text.
    pub open spec fn spec_source(self) -> Seq<char> {
        match self {
            SetupError::Config { src, .. } => src@,
            SetupError::Domain { src, .. } => src@,
            SetupError::Document { src, .. } => src@,
            SetupError::FileSystem { src, .. } => src@,
            SetupError::Input { src, .. } => src@,
            SetupError::Url { src, .. } => src@,
        }
    }

    /// The stored byte span into the source text.
    pub open spec fn spec_span(self) -> (usize, usize) {
        match self {
            SetupError::Config { err_span, .. } => err_span,
            SetupError::Domain { err_span, .. } => err_span,
            SetupError::Document { err_span, .. } => err_span,
            SetupError::FileSystem { err_span, .. } => err_span,
            SetupError::Input { err_span, .. } => err_span,
            SetupError::Url { err_span, .. } => err_span,
        }
    }

    /// The span is a valid half-open byte range into the source text.
    pub open spec fn span_valid(self) -> bool {
        self.spec_span().0 <= self.spec_span().1
            && self.spec_span().1 <= byte_len(self.spec_source())
    }

    /// The span implicates the whole source text: the default every
    /// constructor establishes.
    pub open spec fn has_whole_span(self) -> bool {
        self.spec_span().0 == 0 && self.spec_span().1 == byte_len(self.spec_source())
    }

    /// The one-line summary: the kind's label, a colon and a space, and
    /// the message.
    pub open spec fn spec_summary(self) -> Seq<char> {
        label_of(self.spec_kind()) + ": "@ + self.spec_message()
    }
}

/// The byte span `[0, len)` that implicates the whole of `src`.
fn whole_span_of(src: &str) -> (r: (usize, usize))
    ensures
        r.0 == 0,
        r.1 == byte_len(src@),
{
    let bytes: &[u8] = src.as_bytes();
    (0, bytes.len())
}

impl SetupError {
    /// Builds a configuration-stage error implicating the whole of `src`.
    pub fn config(msg: &str, src: &str) -> (e: SetupError)
        ensures
            e.spec_kind() == ErrorKind::Config,
            e.spec_message() == msg@,
            e.spec_source() == src@,
            e.spec_span().0 == 0,
            e.spec_span().1 == byte_len(src@),
            e.has_whole_span(),
            e.span_valid(),
    {
        let err_span = whole_span_of(src);
        SetupError::Config { src: src.to_owned(), err_span, msg: msg.to_owned() }
    }

    /// Builds a domain-validation error implicating the whole of `src`.
    pub fn domain(msg: &str, src: &str) -> (e: SetupError)
        ensures
            e.spec_kind() == ErrorKind::Domain,
            e.spec_message() == msg@,
            e.spec_source() == src@,
            e.spec_span().0 == 0,
            e.spec_span().1 == byte_len(src@),
            e.has_whole_span(),
            e.span_valid(),
    {
        let err_span = whole_span_of(src);
        SetupError::Domain { src: src.to_owned(), err_span, msg: msg.to_owned() }
    }

    /// Builds a DID-document error implicating the whole of `src`.
    pub fn document(msg: &str, src: &str) -> (e: SetupError)
        ensures
            e.spec_kind() == ErrorKind::Document,
            e.spec_message() == msg@,
            e.spec_source() == src@,
            e.spec_span().0 == 0,
            e.spec_span().1 == byte_len(src@),
            e.has_whole_span(),
            e.span_valid(),
    {
        let err_span = whole_span_of(src);
        SetupError::Document { src: src.to_owned(), err_span, msg: msg.to_owned() }
    }

    /// Builds a filesystem-stage error implicating the whole of `src`.
    pub fn fs(msg: &str, src: &str) -> (e: SetupError)
        ensures
            e.spec_kind() == ErrorKind::FileSystem,
            e.spec_message() == msg@,
            e.spec_source() == src@,
            e.spec_span().0 == 0,
            e.spec_span().1 == byte_len(src@),
            e.has_whole_span(),
            e.span_valid(),
    {
        let err_span = whole_span_of(src);
        SetupError::FileSystem { src: src.to_owned(), err_span, msg: msg.to_owned() }
    }

    /// Builds a user-input error implicating the whole of `src`.
    pub fn input(msg: &str, src: &str) -> (e: SetupError)
        ensures
            e.spec_kind() == ErrorKind::Input,
            e.spec_message() == msg@,
            e.spec_source() == src@,
            e.spec_span().0 == 0,
            e.spec_span().1 == byte_len(src@),
            e.has_whole_span(),
            e.span_valid(),
    {
        let err_span = whole_span_of(src);
        SetupError::Input { src: src.to_owned(), err_span, msg: msg.to_owned() }
    }

    /// Builds a URL-parsing error implicating the whole of `src`.
    pub fn url(msg: &str, src: &str) -> (e: SetupError)
        ensures
            e.spec_kind() == ErrorKind::Url,
            e.spec_message() == msg@,
            e.spec_source() == src@,
            e.spec_span().0 == 0,
            e.spec_span().1 == byte_len(src@),
            e.has_whole_span(),
            e.span_valid(),
    {
        let err_span = whole_span_of(src);
        SetupError::Url { src: src.to_owned(), err_span, msg: msg.to_owned() }
    }

    /// The kind of this error.
    pub fn kind(&self) -> (k: ErrorKind)
        ensures
            k == self.spec_kind(),
    {
        match self {
            SetupError::Config { .. } => ErrorKind::Config,
            SetupError::Domain { .. } => ErrorKind::Domain,
            SetupError::Document { .. } => ErrorKind::Document,
            SetupError::FileSystem { .. } => ErrorKind::FileSystem,
            SetupError::Input { .. } => ErrorKind::Input,
            SetupError::Url { .. } => ErrorKind::Url,
        }
    }

    /// The stored message.
    pub fn message(&self) -> (r: &str)
        ensures
            r@ == self.spec_message(),
    {
        match self {
            SetupError::Config { msg, .. } => msg.as_str(),
            SetupError::Domain { msg, .. } => msg.as_str(),
            SetupError::Document { msg, .. } => msg.as_str(),
            SetupError::FileSystem { msg, .. } => msg.as_str(),
            SetupError::Input { msg, .. } => msg.as_str(),
            SetupError::Url { msg, .. } => msg.as_str(),
        }
    }

    /// The stored source text.
    pub fn source_text(&self) -> (r: &str)
        ensures
            r@ == self.spec_source(),
    {
        match self {
            SetupError::Config { src, .. } => src.as_str(),
            SetupError::Domain { src, .. } => src.as_str(),
            SetupError::Document { src, .. } => src.as_str(),
            SetupError::FileSystem { src, .. } => src.as_str(),
            SetupError::Input { src, .. } => src.as_str(),
            SetupError::Url { src, .. } => src.as_str(),
        }
    }

    /// The stored byte span into the source text.
    pub fn span(&self) -> (r: (usize, usize))
        ensures
            r == self.spec_span(),
    {
        match self {
            SetupError::Config { err_span, .. } => *err_span,
            SetupError::Domain { err_span, .. } => *err_span,
            SetupError::Document { err_span, .. } => *err_span,
            SetupError::FileSystem { err_span, .. } => *err_span,
            SetupError::Input { err_span, .. } => *err_span,
            SetupError::Url { err_span, .. } => *err_span,
        }
    }

    /// The fixed label of this error's kind.
    pub fn label(&self) -> (r: &'static str)
        ensures
            r@ == label_of(self.spec_kind()),
    {
        match self {
            SetupError::Config { .. } => "Configuration error",
            SetupError::Domain { .. } => "Domain error",
            SetupError::Document { .. } => "DID document error",
            SetupError::FileSystem { .. } => "Filesystem error",
            SetupError::Input { .. } => "Input error",
            SetupError::Url { .. } => "URL parse error",
        }
    }

    /// The stable machine-readable code of this error's kind.
    pub fn code(&self) -> (r: &'static str)
        ensures
            r@ == code_of(self.spec_kind()),
    {
        match self {
            SetupError::Config { .. } => "didweb::config",
            SetupError::Domain { .. } => "didweb::domain",
            SetupError::Document { .. } => "didweb::document",
            SetupError::FileSystem { .. } => "didweb::fs",
            SetupError::Input { .. } => "didweb::input",
            SetupError::Url { .. } => "didweb::url",
        }
    }

    /// Renders the one-line summary `"<label>: <message>"`. A pure
    /// function of the stored fields: byte-identical across calls.
    pub fn render_summary(&self) -> (r: String)
        ensures
            r@ == self.spec_summary(),
    {
        let mut out = String::from_str(self.label());
        out.append(": ");
        out.append(self.message());
        out
    }

    /// Hands the full structured payload — source text, span, label,
    /// message — to an external diagnostic renderer.
    pub fn render_diagnostic(&self) -> (r: (String, (usize, usize), String, String))
        ensures
            r.0@ == self.spec_source(),
            r.1 == self.spec_span(),
            r.2@ == label_of(self.spec_kind()),
            r.3@ == self.spec_message(),
    {
        (
            String::from_str(self.source_text()),
            self.span(),
            String::from_str(self.label()),
            String::from_str(self.message()),
        )
    }
}

/// A span that implicates the whole source text is a valid half-open
/// byte range into it, for every source text including the empty one.
pub proof fn lemma_whole_span_valid(e: SetupError)
    requires
        e.has_whole_span(),
    ensures
        e.span_valid(),
{
}

/// Distinct kinds carry distinct labels and distinct codes.
pub proof fn lemma_label_code_injective(k1: ErrorKind, k2: ErrorKind)
    requires
        k1 != k2,
    ensures
        label_of(k1) != label_of(k2),
        code_of(k1) != code_of(k2),
{
    reveal_strlit("Configuration error");
    reveal_strlit("Domain error");
    reveal_strlit("DID document error");
    reveal_strlit("Filesystem error");
    reveal_strlit("Input error");
    reveal_strlit("URL parse error");
    assert(label_of(ErrorKind::Config).len() == 19);
    assert(label_of(ErrorKind::Domain).len() == 12);
    assert(label_of(ErrorKind::Document).len() == 18);
    assert(label_of(ErrorKind::FileSystem).len() == 16);
    assert(label_of(ErrorKind::Input).len() == 11);
    assert(label_of(ErrorKind::Url).len() == 15);
    reveal_strlit("didweb::config");
    reveal_strlit("didweb::domain");
    reveal_strlit("didweb::document");
    reveal_strlit("didweb::fs");
    reveal_strlit("didweb::input");
    reveal_strlit("didweb::url");
    assert(code_of(ErrorKind::Config).len() == 14);
    assert(code_of(ErrorKind::Domain).len() == 14);
    assert(code_of(ErrorKind::Document).len() == 16);
    assert(code_of(ErrorKind::FileSystem).len() == 10);
    assert(code_of(ErrorKind::Input).len() == 13);
    assert(code_of(ErrorKind::Url).len() == 11);
    assert(code_of(ErrorKind::Config)[8] == 'c');
    assert(code_of(ErrorKind::Domain)[8] == 'd');
}

/// Every summary begins with the label fixed by the error's kind,
/// whatever the message and source text hold.
pub proof fn lemma_summary_begins_with_label(e: SetupError)
    ensures
        e.spec_summary().len() >= label_of(e.spec_kind()).len(),
        e.spec_summary().subrange(0, label_of(e.spec_kind()).len() as int) == label_of(
            e.spec_kind(),
        ),
{
    let label = label_of(e.spec_kind());
    assert(e.spec_summary().subrange(0, label.len() as int) =~= label);
}

/// Building the same message and source text through two different
/// kinds yields different labels and codes but the same stored
/// message, source and span.
pub proof fn lemma_kind_isolation(a: SetupError, b: SetupError)
    requires
        a.spec_kind() != b.spec_kind(),
        a.spec_message() == b.spec_message(),
        a.spec_source() == b.spec_source(),
        a.has_whole_span(),
        b.has_whole_span(),
    ensures
        label_of(a.spec_kind()) != label_of(b.spec_kind()),
        code_of(a.spec_kind()) != code_of(b.spec_kind()),
        a.spec_span().0 == b.spec_span().0,
        a.spec_span().1 == b.spec_span().1,
{
    lemma_label_code_injective(a.spec_kind(), b.spec_kind());
}

} // verus!
