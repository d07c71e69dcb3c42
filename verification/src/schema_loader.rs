//! Which schema a document declares, and how the bytes of a schema are
//! brought in.

use crate::error::{IoFailure, IoKind, LibXml2Error, ValidationError};
use crate::paths::{directory, directory_of, join, joined};
use crate::pattern::{regex_accepts, regex_capture, regex_error_text, regex_first_group, regex_new, regex_source};
use crate::text::{
    chars_of, concat2, contains_text, has_prefix, has_text, starts_with, string_of, trim_start,
    trimmed_start,
};
use regex::Regex;
use vstd::prelude::*;
use vstd::utf8::{decode_utf8, valid_utf8};

verus! {

/// Where a schema is to be had from.
#[derive(Clone, Debug, PartialEq, Eq)]
pub enum SchemaSourceType {
    /// A file on this machine.
    Local(String),
    /// A document on the web.
    Remote(String),
}

/// Where a schema is to be had from, as text.
pub enum SchemaSource {
    Local(Seq<char>),
    Remote(Seq<char>),
}

impl View for SchemaSourceType {
    type V = SchemaSource;

    open spec fn view(&self) -> SchemaSource {
        match self {
            SchemaSourceType::Local(p) => SchemaSource::Local(p@),
            SchemaSourceType::Remote(u) => SchemaSource::Remote(u@),
        }
    }
}

/// A schema as a document declares it, and where that leads.
#[derive(Clone, Debug, PartialEq, Eq)]
pub struct SchemaReference {
    pub url: String,
    pub source_type: SchemaSourceType,
}

/// Whether a schema location names a document on the web: it begins with
/// `http://` or `https://`.
pub open spec fn is_remote(url: Seq<char>) -> bool {
    starts_with(url, "http://"@) || starts_with(url, "https://"@)
}

/// Where the schema location `url`, declared in the file `xml_file_path`,
/// leads: to the web where its scheme says so, else to a local file, which
/// is looked for in the directory of the declaring file unless the location
/// starts at the root.
pub open spec fn source_of(url: Seq<char>, xml_file_path: Seq<char>) -> SchemaSource {
    if is_remote(url) {
        SchemaSource::Remote(url)
    } else if url.len() > 0 && url[0] == '/' {
        SchemaSource::Local(url)
    } else {
        SchemaSource::Local(join(directory_of(xml_file_path), url))
    }
}

/// The pattern of a namespace-qualified declaration: the attribute holds a
/// namespace, white space, and the schema location, which is captured.
pub open spec fn schema_location_pattern() -> Seq<char> {
    r#"xsi:schemaLocation="\S+\s+(.+?)""#@
}

/// The pattern of a declaration without a namespace: the attribute holds the
/// schema location, which is captured.
pub open spec fn no_namespace_pattern() -> Seq<char> {
    r#"xsi:noNamespaceSchemaLocation="(.+?)""#@
}

/// The schema locations that one line declares: what the namespace-qualified
/// pattern captures, then what the pattern without a namespace captures.
pub open spec fn line_urls(line: Seq<char>) -> Seq<Seq<char>> {
    (match regex_first_group(schema_location_pattern(), line) {
        Some(u) => seq![u],
        None => Seq::<Seq<char>>::empty(),
    }) + (match regex_first_group(no_namespace_pattern(), line) {
        Some(u) => seq![u],
        None => Seq::<Seq<char>>::empty(),
    })
}

/// Whether a line ends the scan: after its leading white space it begins
/// with `</`, so the root element's opening tag lies behind.
pub open spec fn closes_element(line: Seq<char>) -> bool {
    starts_with(trim_start(line), "</"@)
}

/// The schema locations that a document declares: those of its lines, in
/// order, up to and including the first line that closes an element.
pub open spec fn declared_urls(lines: Seq<Seq<char>>) -> Seq<Seq<char>>
    decreases lines.len(),
{
    if lines.len() == 0 {
        Seq::<Seq<char>>::empty()
    } else if closes_element(lines[0]) {
        line_urls(lines[0])
    } else {
        line_urls(lines[0]) + declared_urls(lines.skip(1))
    }
}

/// Whether `refs` are the references to the schema locations `urls`, as
/// declared in the file `xml_file_path`.
pub open spec fn refers_to(
    refs: Seq<SchemaReference>,
    urls: Seq<Seq<char>>,
    xml_file_path: Seq<char>,
) -> bool {
    &&& refs.len() == urls.len()
    &&& forall|i: int|
        0 <= i < refs.len() ==> (#[trigger] refs[i]).url@ == urls[i] && refs[i].source_type@
            == source_of(urls[i], xml_file_path)
}

/// What the scan of one line found.
pub struct LineScan {
    /// The references that the line declares.
    pub references: Vec<SchemaReference>,
    /// Whether the scan ends with this line.
    pub last: bool,
}

/// The scanner for schema declarations. It does not parse XML: it looks at a
/// document line by line, which suffices because the declarations are
/// attributes of the root element.
#[derive(Clone, Debug)]
pub struct SchemaExtractor {
    schema_location: Regex,
    no_namespace: Regex,
}

impl SchemaExtractor {
    /// Whether the two expressions are the ones compiled from the two
    /// patterns.
    pub closed spec fn well_formed(&self) -> bool {
        &&& regex_source(self.schema_location) == schema_location_pattern()
        &&& regex_source(self.no_namespace) == no_namespace_pattern()
    }

    /// Compiles the two patterns. The scanner is made exactly when the
    /// `regex` crate accepts both.
    pub fn new() -> (r: Result<SchemaExtractor, ValidationError>)
        ensures
            r is Ok <==> regex_accepts(schema_location_pattern()) && regex_accepts(
                no_namespace_pattern(),
            ),
            r matches Ok(e) ==> e.well_formed(),
            r matches Err(e) ==> e is Config,
    {
        let schema_location = match regex_new(r#"xsi:schemaLocation="\S+\s+(.+?)""#) {
            Ok(re) => re,
            Err(e) => {
                let why = regex_error_text(&e);
                return Err(
                    ValidationError::Config(
                        concat2("Failed to compile schemaLocation regex: ", why.as_str()),
                    ),
                );
            },
        };
        let no_namespace = match regex_new(r#"xsi:noNamespaceSchemaLocation="(.+?)""#) {
            Ok(re) => re,
            Err(e) => {
                let why = regex_error_text(&e);
                return Err(
                    ValidationError::Config(
                        concat2(
                            "Failed to compile noNamespaceSchemaLocation regex: ",
                            why.as_str(),
                        ),
                    ),
                );
            },
        };
        Ok(SchemaExtractor { schema_location, no_namespace })
    }

    /// Where the schema location `url`, declared in the file
    /// `xml_file_path`, leads.
    pub fn determine_source_type(url: &str, xml_file_path: &str) -> (r: SchemaSourceType)
        ensures
            r@ == source_of(url@, xml_file_path@),
    {
        let u = chars_of(url);
        let http = chars_of("http://");
        let https = chars_of("https://");
        if has_prefix(&u, &http) || has_prefix(&u, &https) {
            SchemaSourceType::Remote(url.to_owned())
        } else if u.len() > 0 && u[0] == '/' {
            SchemaSourceType::Local(url.to_owned())
        } else {
            let file = chars_of(xml_file_path);
            let dir = directory(&file);
            SchemaSourceType::Local(string_of(&joined(&dir, &u)))
        }
    }

    /// Scans one line of the file `xml_file_path`.
    pub fn scan_line(&self, line: &str, xml_file_path: &str) -> (r: LineScan)
        requires
            self.well_formed(),
        ensures
            refers_to(r.references@, line_urls(line@), xml_file_path@),
            r.last == closes_element(line@),
    {
        let mut references: Vec<SchemaReference> = Vec::new();
        match regex_capture(&self.schema_location, line) {
            Some(url) => {
                let source_type = Self::determine_source_type(url.as_str(), xml_file_path);
                references.push(SchemaReference { url, source_type });
            },
            None => {},
        }
        match regex_capture(&self.no_namespace, line) {
            Some(url) => {
                let source_type = Self::determine_source_type(url.as_str(), xml_file_path);
                references.push(SchemaReference { url, source_type });
            },
            None => {},
        }
        let rest = trimmed_start(&chars_of(line));
        let closing = chars_of("</");
        let last = has_prefix(&rest, &closing);
        LineScan { references, last }
    }

    /// The references that the lines `lines` of the file `xml_file_path`
    /// declare, in order; none is no failure here.
    pub fn extract_from_lines(&self, lines: &Vec<String>, xml_file_path: &str) -> (r: Vec<
        SchemaReference,
    >)
        requires
            self.well_formed(),
        ensures
            refers_to(r@, declared_urls(lines.deep_view()), xml_file_path@),
    {
        let ghost all = lines.deep_view();
        let mut found: Vec<SchemaReference> = Vec::new();
        let mut i: usize = 0;
        let ghost mut urls: Seq<Seq<char>> = Seq::empty();
        assert(all.skip(0) =~= all);
        assert(urls + declared_urls(all.skip(0)) =~= declared_urls(all));
        while i < lines.len()
            invariant
                i <= lines.len(),
                self.well_formed(),
                all == lines.deep_view(),
                refers_to(found@, urls, xml_file_path@),
                declared_urls(all) == urls + declared_urls(all.skip(i as int)),
            decreases lines.len() - i,
        {
            let ghost rest = all.skip(i as int);
            assert(rest[0] == lines@[i as int]@);
            assert(rest.skip(1) =~= all.skip(i + 1));
            let scan = self.scan_line(lines[i].as_str(), xml_file_path);
            let ghost before = found@;
            let ghost urls_before = urls;
            let mut references = scan.references;
            let ghost added = references@;
            found.append(&mut references);
            proof {
                urls = urls + line_urls(rest[0]);
                assert(found@ =~= before + added);
                assert forall|k: int| 0 <= k < found@.len() implies (#[trigger] found@[k]).url@
                    == urls[k] && found@[k].source_type@ == source_of(urls[k], xml_file_path@) by {
                    if k < before.len() {
                        assert(found@[k] == before[k]);
                    } else {
                        assert(found@[k] == added[k - before.len()]);
                    }
                }
            }
            if scan.last {
                assert(urls_before + line_urls(rest[0]) + Seq::<Seq<char>>::empty() =~= urls);
                return found;
            }
            assert(urls_before + (line_urls(rest[0]) + declared_urls(rest.skip(1))) =~= urls
                + declared_urls(all.skip(i + 1)));
            i = i + 1;
        }
        assert(urls + Seq::<Seq<char>>::empty() =~= urls);
        found
    }

    /// The references that the lines `lines` of the file `file_path`
    /// declare; that there is none is the failure `SchemaUrlNotFound`.
    pub fn extract_schema_urls(&self, lines: &Vec<String>, file_path: &str) -> (r: Result<
        Vec<SchemaReference>,
        ValidationError,
    >)
        requires
            self.well_formed(),
        ensures
            match r {
                Ok(refs) => refs@.len() > 0 && refers_to(
                    refs@,
                    declared_urls(lines.deep_view()),
                    file_path@,
                ),
                Err(e) => declared_urls(lines.deep_view()).len() == 0 && (
                e matches ValidationError::SchemaUrlNotFound { file } && file@ == file_path@),
            },
    {
        let refs = self.extract_from_lines(lines, file_path);
        if refs.len() == 0 {
            Err(ValidationError::SchemaUrlNotFound { file: file_path.to_owned() })
        } else {
            Ok(refs)
        }
    }
}

// ---------------------------------------------------------------------------
// A document as it lies on disk
// ---------------------------------------------------------------------------

/// How many bytes stand before the first line feed of `data`; all of them
/// where it holds none.
pub open spec fn first_line_len(data: Seq<u8>) -> nat
    decreases data.len(),
{
    if data.len() == 0 || data[0] == 10 {
        0
    } else {
        1 + first_line_len(data.skip(1))
    }
}

/// The first line of `data`: what stands before its first line feed,
/// without the carriage return that may stand directly before it.
pub open spec fn first_line(data: Seq<u8>) -> Seq<u8> {
    let n = first_line_len(data);
    if n < data.len() && n > 0 && data[n - 1] == 13 {
        data.take(n - 1)
    } else {
        data.take(n as int)
    }
}

/// What follows the first line of `data` and its line feed.
pub open spec fn after_first_line(data: Seq<u8>) -> Seq<u8> {
    let n = first_line_len(data);
    if n < data.len() {
        data.skip(n + 1 as int)
    } else {
        Seq::<u8>::empty()
    }
}

/// The schema locations that the document `data` declares: those of its
/// lines, in order, up to and including the first line that closes an
/// element; or nothing at all where one of these lines is no UTF-8. What
/// follows the line that ends the scan is not looked at.
pub open spec fn declared_in(data: Seq<u8>) -> Option<Seq<Seq<char>>>
    decreases data.len(),
{
    if data.len() == 0 {
        Some(Seq::<Seq<char>>::empty())
    } else if !valid_utf8(first_line(data)) {
        None
    } else {
        let line = decode_utf8(first_line(data));
        if closes_element(line) {
            Some(line_urls(line))
        } else {
            match declared_in(after_first_line(data)) {
                Some(more) => Some(line_urls(line) + more),
                None => None,
            }
        }
    }
}

/// The text of a line that is no UTF-8, as the failure says it.
pub open spec fn invalid_line_message() -> Seq<char> {
    "stream did not contain valid UTF-8"@
}

/// The index of the first line feed of `data` at or after `from`, or the
/// length of `data`.
fn line_end(data: &[u8], from: usize) -> (end: usize)
    requires
        from <= data@.len(),
    ensures
        from <= end <= data@.len(),
        end - from == first_line_len(data@.skip(from as int)),
{
    let mut i: usize = from;
    while i < data.len() && data[i] != 10
        invariant
            from <= i <= data@.len(),
            first_line_len(data@.skip(from as int)) == (i - from) + first_line_len(
                data@.skip(i as int),
            ),
        decreases data@.len() - i,
    {
        assert(data@.skip(i as int).skip(1) =~= data@.skip(i + 1));
        i = i + 1;
    }
    i
}

impl SchemaExtractor {
    /// The references that the document `data`, which is the content of the
    /// file `file_path`, declares. That there is none is the failure
    /// `SchemaUrlNotFound`; a line that is no UTF-8 is the failure `Io`.
    /// The document is scanned line by line, and no further than to the
    /// first line that closes an element.
    pub fn extract_from_bytes(&self, data: &[u8], file_path: &str) -> (r: Result<
        Vec<SchemaReference>,
        ValidationError,
    >)
        requires
            self.well_formed(),
        ensures
            match declared_in(data@) {
                Some(urls) => if urls.len() == 0 {
                    r matches Err(ValidationError::SchemaUrlNotFound { file }) && file@
                        == file_path@
                } else {
                    r matches Ok(refs) && refers_to(refs@, urls, file_path@)
                },
                None => r matches Err(ValidationError::Io(failure)) && failure.kind
                    == IoKind::Other && failure.message@ == invalid_line_message(),
            },
    {
        let mut found: Vec<SchemaReference> = Vec::new();
        let ghost mut urls: Seq<Seq<char>> = Seq::empty();
        let mut at: usize = 0;
        assert(data@.skip(0) =~= data@);
        while at < data.len()
            invariant
                at <= data@.len(),
                self.well_formed(),
                refers_to(found@, urls, file_path@),
                declared_in(data@) == (match declared_in(data@.skip(at as int)) {
                    Some(more) => Some(urls + more),
                    None => None,
                }),
            ensures
                at == data@.len(),
            decreases data@.len() - at,
        {
            let ghost rest = data@.skip(at as int);
            let end = line_end(data, at);
            let stop: usize = if end < data.len() && end > at && data[end - 1] == 13 {
                end - 1
            } else {
                end
            };
            let line = vstd::slice::slice_subrange(data, at, stop);
            proof {
                assert(rest.len() > 0);
                assert(line@ =~= first_line(rest));
                if end < data@.len() {
                    assert(rest.skip(end - at + 1) =~= data@.skip(end + 1));
                } else {
                    assert(data@.skip(data@.len() as int) =~= Seq::<u8>::empty());
                }
            }
            let text = match utf8_text(line) {
                Some(text) => text,
                None => {
                    return Err(
                        ValidationError::Io(
                            IoFailure {
                                kind: IoKind::Other,
                                message: "stream did not contain valid UTF-8".to_owned(),
                            },
                        ),
                    );
                },
            };
            let scan = self.scan_line(text, file_path);
            let ghost before = found@;
            let ghost urls_before = urls;
            let mut references = scan.references;
            let ghost added = references@;
            found.append(&mut references);
            proof {
                urls = urls + line_urls(text@);
                assert(found@ =~= before + added);
                assert forall|k: int| 0 <= k < found@.len() implies (#[trigger] found@[k]).url@
                    == urls[k] && found@[k].source_type@ == source_of(urls[k], file_path@) by {
                    if k < before.len() {
                        assert(found@[k] == before[k]);
                    } else {
                        assert(found@[k] == added[k - before.len()]);
                    }
                }
            }
            if scan.last {
                proof {
                    assert(declared_in(data@) == Some(urls_before + line_urls(text@)));
                }
                at = data.len();
                assert(data@.skip(data@.len() as int) =~= Seq::<u8>::empty());
                assert(urls + Seq::<Seq<char>>::empty() =~= urls);
                break ;
            }
            proof {
                match declared_in(after_first_line(rest)) {
                    Some(more) => {
                        assert(urls_before + (line_urls(text@) + more) =~= urls + more);
                    },
                    None => {},
                }
            }
            at = if end < data.len() {
                end + 1
            } else {
                end
            };
        }
        proof {
            assert(data@.skip(data@.len() as int) =~= Seq::<u8>::empty());
            assert(urls + Seq::<Seq<char>>::empty() =~= urls);
        }
        if found.len() == 0 {
            Err(ValidationError::SchemaUrlNotFound { file: file_path.to_owned() })
        } else {
            Ok(found)
        }
    }
}

/// The first schema location that the lines `lines` of the file `path`
/// declare; that there is none is the failure `SchemaUrlNotFound`, and that
/// the scanner cannot be made is the failure `Config`.
pub fn extract_schema_url(lines: &Vec<String>, path: &str) -> (r: Result<String, ValidationError>)
    ensures
        match r {
            Ok(url) => declared_urls(lines.deep_view()).len() > 0 && url@ == declared_urls(
                lines.deep_view(),
            )[0],
            Err(e) => e is Config || (declared_urls(lines.deep_view()).len() == 0 && (
            e matches ValidationError::SchemaUrlNotFound { file } && file@ == path@)),
        },
{
    let extractor = match SchemaExtractor::new() {
        Ok(e) => e,
        Err(e) => {
            return Err(e);
        },
    };
    match extractor.extract_schema_urls(lines, path) {
        Ok(mut refs) => {
            let first = refs.swap_remove(0);
            Ok(first.url)
        },
        Err(e) => Err(e),
    }
}

// ---------------------------------------------------------------------------
// A look at the content
// ---------------------------------------------------------------------------

/// `std::str::from_utf8` on `data`: the text that the bytes encode, where
/// they are well-formed UTF-8.
#[verifier::external_body]
fn utf8_text<'a>(data: &'a [u8]) -> (r: Option<&'a str>)
    ensures
        r is Some <==> valid_utf8(data@),
        r matches Some(s) ==> s@ == decode_utf8(data@),
{
    std::str::from_utf8(data).ok()
}

/// Whether a text names the root element of a schema: it holds `<xs:schema`,
/// `<xsd:schema` or `<schema`.
pub open spec fn names_schema_element(text: Seq<char>) -> bool {
    contains_text(text, "<xs:schema"@) || contains_text(text, "<xsd:schema"@) || contains_text(
        text,
        "<schema"@,
    )
}

/// What keeps the bytes `data` from being taken for a schema, if anything:
/// they are no UTF-8; or the text does not begin, after white space, with
/// `<`, as every XML document and every XML declaration does; or it names no
/// schema element.
pub open spec fn content_defect(data: Seq<u8>) -> Option<Seq<char>> {
    if !valid_utf8(data) {
        Some("Schema content is not valid UTF-8"@)
    } else if !starts_with(trim_start(decode_utf8(data)), "<"@) {
        Some("Schema content does not appear to be XML"@)
    } else if !names_schema_element(decode_utf8(data)) {
        Some("Content does not appear to be an XML Schema (XSD)"@)
    } else {
        None
    }
}

/// A look at the bytes `data`, had from `source`, before they are handed to
/// the engine: what cannot be a schema is refused as `SchemaParsing`, with
/// the source and the defect.
pub fn validate_schema_content(data: &[u8], source: &str) -> (r: Result<(), ValidationError>)
    ensures
        match r {
            Ok(_) => content_defect(data@) is None,
            Err(e) => e matches ValidationError::SchemaParsing { url, details } && url@
                == source@ && content_defect(data@) == Some(details@),
        },
{
    let text = match utf8_text(data) {
        Some(t) => t,
        None => {
            return Err(
                ValidationError::SchemaParsing {
                    url: source.to_owned(),
                    details: "Schema content is not valid UTF-8".to_owned(),
                },
            );
        },
    };
    let content = chars_of(text);
    let body = trimmed_start(&content);
    if !has_prefix(&body, &chars_of("<")) {
        return Err(
            ValidationError::SchemaParsing {
                url: source.to_owned(),
                details: "Schema content does not appear to be XML".to_owned(),
            },
        );
    }
    if !has_text(&content, &chars_of("<xs:schema")) && !has_text(&content, &chars_of("<xsd:schema"))
        && !has_text(&content, &chars_of("<schema")) {
        return Err(
            ValidationError::SchemaParsing {
                url: source.to_owned(),
                details: "Content does not appear to be an XML Schema (XSD)".to_owned(),
            },
        );
    }
    Ok(())
}

// ---------------------------------------------------------------------------
// Bringing the bytes in
// ---------------------------------------------------------------------------

/// The name under which the bytes of a schema are kept in memory: the
/// location of a remote schema, and `local:` before the path of a local one.
pub open spec fn cache_name(source: SchemaSource) -> Seq<char> {
    match source {
        SchemaSource::Remote(url) => url,
        SchemaSource::Local(path) => "local:"@ + path,
    }
}

/// The name under which the bytes of the schema are kept in memory.
pub fn cache_name_of(source_type: &SchemaSourceType) -> (r: String)
    ensures
        r@ == cache_name(source_type@),
{
    match source_type {
        SchemaSourceType::Remote(url) => url.clone(),
        SchemaSourceType::Local(path) => concat2("local:", path.as_str()),
    }
}

/// How far the loading of a schema's bytes has come.
#[derive(Clone, Copy, Debug, PartialEq, Eq, Structural)]
pub enum LoadState {
    /// Nothing has been asked yet.
    Start,
    /// The memory tier has been asked.
    MemoryAsked,
    /// The local file is being read.
    FileAsked,
    /// The disk tier has been asked.
    DiskAsked,
    /// The download is under way.
    FetchAsked,
    /// The downloaded bytes are being written to the disk tier.
    DiskStoring,
    /// The bytes were delivered, or the loading failed.
    Finished,
}

/// What the loader asks for next.
#[derive(Debug, PartialEq, Eq)]
pub enum LoadAction {
    /// Ask the memory tier for the bytes kept under `name`.
    LookupMemory { name: String },
    /// Read the local file `path`.
    ReadFile { path: String },
    /// Ask the disk tier for the bytes of `url`.
    LookupDisk { url: String },
    /// Download `url`.
    Fetch { url: String },
    /// Write the bytes of `url` to the disk tier, and hand them back.
    StoreDisk { url: String, data: Vec<u8> },
    /// The bytes are there. Where `fresh`, they did not come from the
    /// memory tier and are to be put there under `name`.
    Deliver { name: String, data: Vec<u8>, fresh: bool },
    /// The loading failed.
    Fail(ValidationError),
}

/// What the loader is told.
#[derive(Debug, PartialEq, Eq)]
pub enum LoadEvent {
    /// The loading is to begin.
    Begin,
    /// The memory tier answered: the bytes, or a miss.
    MemoryAnswer(Option<Vec<u8>>),
    /// The file was read, or could not be.
    FileAnswer(Result<Vec<u8>, IoFailure>),
    /// The disk tier answered: the bytes, or a miss. A disk tier that
    /// cannot be read counts as a miss.
    DiskAnswer(Option<Vec<u8>>),
    /// The download ended.
    FetchAnswer(Result<Vec<u8>, ValidationError>),
    /// The disk tier was written, or could not be, which is no failure of
    /// the loading; the bytes come back.
    DiskStored(Vec<u8>),
}

/// Whether the event `event` is the answer that the state `state` waits for.
pub open spec fn awaited(state: LoadState, event: LoadEvent, source: SchemaSource) -> bool {
    match (state, event) {
        (LoadState::Start, LoadEvent::Begin) => true,
        (LoadState::MemoryAsked, LoadEvent::MemoryAnswer(_)) => true,
        (LoadState::FileAsked, LoadEvent::FileAnswer(_)) => source is Local,
        (LoadState::DiskAsked, LoadEvent::DiskAnswer(_)) => source is Remote,
        (LoadState::FetchAsked, LoadEvent::FetchAnswer(_)) => source is Remote,
        (LoadState::DiskStoring, LoadEvent::DiskStored(_)) => source is Remote,
        _ => false,
    }
}

/// Whether `action` ends the loading of `data`, had from `origin` and to be
/// kept under `name`: the bytes are delivered as fresh where nothing speaks
/// against them, and refused with their defect otherwise.
pub open spec fn concludes(
    action: LoadAction,
    data: Seq<u8>,
    origin: Seq<char>,
    name: Seq<char>,
) -> bool {
    match content_defect(data) {
        None => action matches LoadAction::Deliver { name: n, data: d, fresh } && n@ == name
            && d@ == data && fresh,
        Some(defect) => action matches LoadAction::Fail(
            ValidationError::SchemaParsing { url, details },
        ) && url@ == origin && details@ == defect,
    }
}

/// The loader's answer to the bytes `data`, had from `origin`.
fn conclude(data: Vec<u8>, origin: &str, name: String) -> (action: LoadAction)
    ensures
        concludes(action, data@, origin@, name@),
{
    match validate_schema_content(data.as_slice(), origin) {
        Ok(_) => LoadAction::Deliver { name, data, fresh: true },
        Err(e) => LoadAction::Fail(e),
    }
}

/// Whether `next` and `action` are the loader's answer to `event` in the
/// state `state`, for a schema that is to be had from `source`.
pub open spec fn load_result(
    source: SchemaSourceType,
    state: LoadState,
    event: LoadEvent,
    next: LoadState,
    action: LoadAction,
) -> bool {
    let name = cache_name(source@);
    if !awaited(state, event, source@) {
        &&& next == LoadState::Finished
        &&& action matches LoadAction::Fail(e)
        &&& e is Concurrency
    } else {
        match (event, source) {
            (LoadEvent::Begin, _) => {
                &&& next == LoadState::MemoryAsked
                &&& action matches LoadAction::LookupMemory { name: n }
                &&& n@ == name
            },
            (LoadEvent::MemoryAnswer(Some(data)), _) => {
                &&& next == LoadState::Finished
                &&& action matches LoadAction::Deliver { name: n, data: d, fresh }
                &&& n@ == name
                &&& d == data
                &&& !fresh
            },
            (LoadEvent::MemoryAnswer(None), SchemaSourceType::Local(path)) => {
                &&& next == LoadState::FileAsked
                &&& action matches LoadAction::ReadFile { path: p }
                &&& p@ == path@
            },
            (LoadEvent::MemoryAnswer(None), SchemaSourceType::Remote(url)) => {
                &&& next == LoadState::DiskAsked
                &&& action matches LoadAction::LookupDisk { url: u }
                &&& u@ == url@
            },
            (LoadEvent::FileAnswer(Ok(data)), SchemaSourceType::Local(path)) => {
                &&& next == LoadState::Finished
                &&& concludes(action, data@, path@, name)
            },
            (LoadEvent::FileAnswer(Err(io)), SchemaSourceType::Local(path)) => {
                &&& next == LoadState::Finished
                &&& if io.kind == IoKind::NotFound {
                    action matches LoadAction::Fail(ValidationError::SchemaNotFound { url })
                        && url@ == path@
                } else {
                    action == LoadAction::Fail(ValidationError::Io(io))
                }
            },
            (LoadEvent::DiskAnswer(Some(data)), SchemaSourceType::Remote(url)) => {
                &&& next == LoadState::Finished
                &&& concludes(action, data@, url@, name)
            },
            (LoadEvent::DiskAnswer(None), SchemaSourceType::Remote(url)) => {
                &&& next == LoadState::FetchAsked
                &&& action matches LoadAction::Fetch { url: u }
                &&& u@ == url@
            },
            (LoadEvent::FetchAnswer(Ok(data)), SchemaSourceType::Remote(url)) => {
                &&& next == LoadState::DiskStoring
                &&& action matches LoadAction::StoreDisk { url: u, data: d }
                &&& u@ == url@
                &&& d == data
            },
            (LoadEvent::FetchAnswer(Err(e)), SchemaSourceType::Remote(url)) => {
                &&& next == LoadState::Finished
                &&& action == LoadAction::Fail(e)
            },
            (LoadEvent::DiskStored(data), SchemaSourceType::Remote(url)) => {
                &&& next == LoadState::Finished
                &&& concludes(action, data@, url@, name)
            },
            // The state waits for no other event.
            _ => true,
        }
    }
}

/// One step of loading the bytes of the schema that `reference` names. The
/// memory tier is asked first; a hit is delivered as it is. A local schema
/// is then read from its file, a missing file being the failure
/// `SchemaNotFound`. A remote schema is looked for in the disk tier and
/// downloaded only if it is not there; a download is written to the disk
/// tier before anything else. Bytes that come from a file, the disk or the
/// web are looked at before they are delivered. An event that the state did
/// not wait for ends the loading with the failure `Concurrency`.
pub fn load_step(reference: &SchemaReference, state: LoadState, event: LoadEvent) -> (r: (
    LoadState,
    LoadAction,
))
    ensures
        load_result(reference.source_type, state, event, r.0, r.1),
{
    let unexpected = (
        LoadState::Finished,
        LoadAction::Fail(
            ValidationError::Concurrency {
                details: "the schema loader was told what it did not ask for".to_owned(),
            },
        ),
    );
    match (state, event) {
        (LoadState::Start, LoadEvent::Begin) => (
            LoadState::MemoryAsked,
            LoadAction::LookupMemory { name: cache_name_of(&reference.source_type) },
        ),
        (LoadState::MemoryAsked, LoadEvent::MemoryAnswer(answer)) => match answer {
            Some(data) => (
                LoadState::Finished,
                LoadAction::Deliver {
                    name: cache_name_of(&reference.source_type),
                    data,
                    fresh: false,
                },
            ),
            None => match &reference.source_type {
                SchemaSourceType::Local(path) => (
                    LoadState::FileAsked,
                    LoadAction::ReadFile { path: path.clone() },
                ),
                SchemaSourceType::Remote(url) => (
                    LoadState::DiskAsked,
                    LoadAction::LookupDisk { url: url.clone() },
                ),
            },
        },
        (LoadState::FileAsked, LoadEvent::FileAnswer(answer)) => match &reference.source_type {
            SchemaSourceType::Local(path) => match answer {
                Ok(data) => (
                    LoadState::Finished,
                    conclude(data, path.as_str(), cache_name_of(&reference.source_type)),
                ),
                Err(io) => match io.kind {
                    IoKind::NotFound => (
                        LoadState::Finished,
                        LoadAction::Fail(ValidationError::SchemaNotFound { url: path.clone() }),
                    ),
                    _ => (LoadState::Finished, LoadAction::Fail(ValidationError::Io(io))),
                },
            },
            SchemaSourceType::Remote(_) => unexpected,
        },
        (LoadState::DiskAsked, LoadEvent::DiskAnswer(answer)) => match &reference.source_type {
            SchemaSourceType::Remote(url) => match answer {
                Some(data) => (
                    LoadState::Finished,
                    conclude(data, url.as_str(), cache_name_of(&reference.source_type)),
                ),
                None => (LoadState::FetchAsked, LoadAction::Fetch { url: url.clone() }),
            },
            SchemaSourceType::Local(_) => unexpected,
        },
        (LoadState::FetchAsked, LoadEvent::FetchAnswer(answer)) => match &reference.source_type {
            SchemaSourceType::Remote(url) => match answer {
                Ok(data) => (
                    LoadState::DiskStoring,
                    LoadAction::StoreDisk { url: url.clone(), data },
                ),
                Err(e) => (LoadState::Finished, LoadAction::Fail(e)),
            },
            SchemaSourceType::Local(_) => unexpected,
        },
        (LoadState::DiskStoring, LoadEvent::DiskStored(data)) => match &reference.source_type {
            SchemaSourceType::Remote(url) => (
                LoadState::Finished,
                conclude(data, url.as_str(), cache_name_of(&reference.source_type)),
            ),
            SchemaSourceType::Local(_) => unexpected,
        },
        _ => unexpected,
    }
}

// ---------------------------------------------------------------------------
// From a reference to a compiled schema
// ---------------------------------------------------------------------------

/// How far the resolution of a reference has come.
#[derive(Clone, Copy, Debug, PartialEq, Eq, Structural)]
pub enum ResolveState {
    /// Nothing has been asked yet.
    Start,
    /// The cache of compiled schemas has been asked.
    CompiledAsked,
    /// The bytes are being loaded.
    Loading { load: LoadState },
    /// The engine parses the bytes.
    Parsing,
    /// The schema is compiled, or the resolution failed.
    Finished,
}

/// What the resolver is told.
#[derive(Debug, PartialEq, Eq)]
pub enum ResolveEvent {
    /// The resolution is to begin.
    Begin,
    /// The cache of compiled schemas answered: whether it holds the schema.
    CompiledAnswer(bool),
    /// The loading of the bytes got an answer.
    Loaded(LoadEvent),
    /// The engine parsed the bytes, or refused them.
    Parsed(Result<(), LibXml2Error>),
}

/// What the resolver asks for next.
#[derive(Debug, PartialEq, Eq)]
pub enum ResolveAction {
    /// Ask the cache of compiled schemas for `name`.
    LookupCompiled { name: String },
    /// Go on with the loading of the bytes.
    Load(LoadAction),
    /// Have the engine parse `data`, and keep the compiled schema under
    /// `name`. Where `fresh`, the bytes are first put into the memory tier.
    Parse { name: String, data: Vec<u8>, fresh: bool },
    /// The compiled schema is in the cache under `name`.
    Use { name: String },
    /// The resolution failed.
    Fail(ValidationError),
}

/// Whether `event` is what `state` waits for.
pub open spec fn resolve_awaited(state: ResolveState, event: ResolveEvent, source: SchemaSource) -> bool {
    match (state, event) {
        (ResolveState::Start, ResolveEvent::Begin) => true,
        (ResolveState::CompiledAsked, ResolveEvent::CompiledAnswer(_)) => true,
        (ResolveState::Loading { load }, ResolveEvent::Loaded(e)) => awaited(load, e, source),
        (ResolveState::Parsing, ResolveEvent::Parsed(_)) => true,
        _ => false,
    }
}

/// Whether an action of the loader asks for something outside: it neither
/// delivers nor fails.
pub open spec fn asks(action: LoadAction) -> bool {
    !(action is Deliver) && !(action is Fail)
}

/// Whether the resolver passes the loader's answer on as it should: what
/// the loader delivers is parsed, what fails the loading fails the
/// resolution, and what the loader asks for is asked for.
pub open spec fn passed_on(
    next: LoadState,
    action: LoadAction,
    state: ResolveState,
    step: ResolveAction,
) -> bool {
    match action {
        LoadAction::Deliver { name, data, fresh } => state is Parsing && step == (
        ResolveAction::Parse { name, data, fresh }),
        LoadAction::Fail(e) => state is Finished && step == ResolveAction::Fail(e),
        _ => state == (ResolveState::Loading { load: next }) && step == ResolveAction::Load(action),
    }
}

/// The resolver's part after a step of the loader.
fn after_load(next: LoadState, action: LoadAction) -> (r: (ResolveState, ResolveAction))
    ensures
        passed_on(next, action, r.0, r.1),
{
    match action {
        LoadAction::Deliver { name, data, fresh } => (
            ResolveState::Parsing,
            ResolveAction::Parse { name, data, fresh },
        ),
        LoadAction::Fail(e) => (ResolveState::Finished, ResolveAction::Fail(e)),
        other => (ResolveState::Loading { load: next }, ResolveAction::Load(other)),
    }
}

/// Whether `next` and `step` are the resolver's answer to `event` in the
/// state `state`, for the reference `reference`.
pub open spec fn resolve_result(
    reference: SchemaReference,
    state: ResolveState,
    event: ResolveEvent,
    next: ResolveState,
    step: ResolveAction,
) -> bool {
    let name = cache_name(reference.source_type@);
    if !resolve_awaited(state, event, reference.source_type@) {
        &&& next is Finished
        &&& step matches ResolveAction::Fail(e)
        &&& e is Concurrency
    } else {
        match event {
            ResolveEvent::Begin => {
                &&& next is CompiledAsked
                &&& step matches ResolveAction::LookupCompiled { name: n }
                &&& n@ == name
            },
            ResolveEvent::CompiledAnswer(true) => {
                &&& next is Finished
                &&& step matches ResolveAction::Use { name: n }
                &&& n@ == name
            },
            ResolveEvent::CompiledAnswer(false) => {
                &&& next == (ResolveState::Loading { load: LoadState::MemoryAsked })
                &&& step matches ResolveAction::Load(LoadAction::LookupMemory { name: n })
                &&& n@ == name
            },
            ResolveEvent::Loaded(e) => exists|load: LoadState, action: LoadAction| #[trigger]
                load_result(reference.source_type, state->load, e, load, action) && passed_on(
                    load,
                    action,
                    next,
                    step,
                ),
            ResolveEvent::Parsed(Ok(_)) => {
                &&& next is Finished
                &&& step matches ResolveAction::Use { name: n }
                &&& n@ == name
            },
            ResolveEvent::Parsed(Err(e)) => {
                &&& next is Finished
                &&& step matches ResolveAction::Fail(ValidationError::SchemaParsing { url, details })
                &&& url@ == reference.url@
                &&& details@ == e.display()
            },
        }
    }
}

/// One step of the resolution of `reference` into a compiled schema.
///
/// The cache of compiled schemas is asked first. A schema that is there is
/// used as it is: nothing is loaded and nothing is parsed. Else the bytes
/// are loaded as `load_step` says, and what it delivers is parsed. Bytes
/// that the engine refuses are the failure `SchemaParsing`, with the
/// engine's reason. An event that the state did not wait for ends the
/// resolution with the failure `Concurrency`.
pub fn resolve_step(reference: &SchemaReference, state: ResolveState, event: ResolveEvent) -> (r: (
    ResolveState,
    ResolveAction,
))
    ensures
        resolve_result(*reference, state, event, r.0, r.1),
        r.1 matches ResolveAction::Load(action) ==> asks(action) && r.0 is Loading,
        r.1 is Parse ==> r.0 is Parsing,
        (r.1 is Use || r.1 is Fail) <==> r.0 is Finished,
{
    match (state, event) {
        (ResolveState::Start, ResolveEvent::Begin) => (
            ResolveState::CompiledAsked,
            ResolveAction::LookupCompiled { name: cache_name_of(&reference.source_type) },
        ),
        (ResolveState::CompiledAsked, ResolveEvent::CompiledAnswer(hit)) => {
            if hit {
                (
                    ResolveState::Finished,
                    ResolveAction::Use { name: cache_name_of(&reference.source_type) },
                )
            } else {
                let (next, action) = load_step(reference, LoadState::Start, LoadEvent::Begin);
                after_load(next, action)
            }
        },
        (ResolveState::Loading { load }, ResolveEvent::Loaded(e)) => {
            let (next, action) = load_step(reference, load, e);
            after_load(next, action)
        },
        (ResolveState::Parsing, ResolveEvent::Parsed(answer)) => match answer {
            Ok(_) => (
                ResolveState::Finished,
                ResolveAction::Use { name: cache_name_of(&reference.source_type) },
            ),
            Err(e) => (
                ResolveState::Finished,
                ResolveAction::Fail(
                    ValidationError::SchemaParsing {
                        url: reference.url.clone(),
                        details: e.to_string(),
                    },
                ),
            ),
        },
        _ => (
            ResolveState::Finished,
            ResolveAction::Fail(
                ValidationError::Concurrency {
                    details: "the schema resolver was told what it did not ask for".to_owned(),
                },
            ),
        ),
    }
}

// ---------------------------------------------------------------------------
// The course of a resolution
// ---------------------------------------------------------------------------

/// How far along the loading of a schema's bytes the state `state` lies.
pub open spec fn load_stage(state: LoadState) -> nat {
    match state {
        LoadState::Start => 0,
        LoadState::MemoryAsked => 1,
        LoadState::FileAsked => 2,
        LoadState::DiskAsked => 2,
        LoadState::FetchAsked => 3,
        LoadState::DiskStoring => 4,
        LoadState::Finished => 5,
    }
}

/// How far along the resolution of a reference the state `state` lies.
pub open spec fn resolve_stage(state: ResolveState) -> nat {
    match state {
        ResolveState::Start => 0,
        ResolveState::CompiledAsked => 1,
        ResolveState::Loading { load } => 2 + load_stage(load),
        ResolveState::Parsing => 8,
        ResolveState::Finished => 9,
    }
}

/// Whether a step of the resolver asks for a download.
pub open spec fn fetches(step: ResolveAction) -> bool {
    step matches ResolveAction::Load(action) && action is Fetch
}

/// A step of the loader never goes back, and it asks for a download only
/// when the disk tier has answered that it does not hold the schema.
pub proof fn lemma_load_step_advances(
    source: SchemaSourceType,
    state: LoadState,
    event: LoadEvent,
    next: LoadState,
    action: LoadAction,
)
    requires
        load_result(source, state, event, next, action),
    ensures
        load_stage(state) <= load_stage(next),
        action is Deliver || action is Fail <==> next is Finished,
        action is Fetch ==> state is DiskAsked && next is FetchAsked && event
            == LoadEvent::DiskAnswer(None),
{
}

/// A step of the resolver never goes back; it has the engine parse only on
/// leaving the loading, and asks for a download only when the disk tier has
/// answered that it does not hold the schema.
pub proof fn lemma_resolve_step_advances(
    reference: SchemaReference,
    state: ResolveState,
    event: ResolveEvent,
    next: ResolveState,
    step: ResolveAction,
)
    requires
        resolve_result(reference, state, event, next, step),
    ensures
        resolve_stage(state) <= resolve_stage(next),
        step is Parse ==> state is Loading && next is Parsing,
        fetches(step) ==> state == (ResolveState::Loading { load: LoadState::DiskAsked }) && next
            == (ResolveState::Loading { load: LoadState::FetchAsked }) && event
            == ResolveEvent::Loaded(LoadEvent::DiskAnswer(None)),
        step is Use || step is Fail ==> next is Finished,
{
    if resolve_awaited(state, event, reference.source_type@) {
        match event {
            ResolveEvent::Loaded(e) => {
                let (load, action) = choose|load: LoadState, action: LoadAction| #[trigger]
                    load_result(reference.source_type, state->load, e, load, action) && passed_on(
                        load,
                        action,
                        next,
                        step,
                    );
                lemma_load_step_advances(reference.source_type, state->load, e, load, action);
            },
            _ => {},
        }
    }
}

/// Whether step `i` of a resolution is the resolver's answer: in the state
/// `states[i]` it was told `events[i]`, went on to the state that follows
/// in `states`, and asked for `steps[i]`.
pub open spec fn resolution_step(
    reference: SchemaReference,
    states: Seq<ResolveState>,
    events: Seq<ResolveEvent>,
    steps: Seq<ResolveAction>,
    i: int,
) -> bool {
    resolve_result(reference, states[i], events[i], states[i + 1], steps[i])
}

/// Whether `states`, `events` and `steps` are the course of a resolution
/// of `reference`: it begins at the start, and every step is the resolver's
/// answer to what it was told.
pub open spec fn is_resolution(
    reference: SchemaReference,
    states: Seq<ResolveState>,
    events: Seq<ResolveEvent>,
    steps: Seq<ResolveAction>,
) -> bool {
    &&& states.len() == events.len() + 1
    &&& steps.len() == events.len()
    &&& states[0] is Start
    &&& forall|i: int|
        0 <= i < events.len() ==> #[trigger] resolution_step(reference, states, events, steps, i)
}

/// In the course of a resolution the states never go back.
pub proof fn lemma_resolution_advances(
    reference: SchemaReference,
    states: Seq<ResolveState>,
    events: Seq<ResolveEvent>,
    steps: Seq<ResolveAction>,
    i: int,
    j: int,
)
    requires
        is_resolution(reference, states, events, steps),
        0 <= i <= j <= events.len(),
    ensures
        resolve_stage(states[i]) <= resolve_stage(states[j]),
    decreases j - i,
{
    if i < j {
        lemma_resolution_advances(reference, states, events, steps, i, j - 1);
        assert(resolution_step(reference, states, events, steps, j - 1));
        lemma_resolve_step_advances(
            reference,
            states[j - 1],
            events[j - 1],
            states[j],
            steps[j - 1],
        );
    }
}

/// One parse and one download for a resolution: in its course the engine
/// is asked to parse at most once, and a download is asked for at most
/// once.
pub proof fn lemma_one_parse_one_download(
    reference: SchemaReference,
    states: Seq<ResolveState>,
    events: Seq<ResolveEvent>,
    steps: Seq<ResolveAction>,
    i: int,
    j: int,
)
    requires
        is_resolution(reference, states, events, steps),
        0 <= i < events.len(),
        0 <= j < events.len(),
        (steps[i] is Parse && steps[j] is Parse) || (fetches(steps[i]) && fetches(steps[j])),
    ensures
        i == j,
{
    assert(resolution_step(reference, states, events, steps, i));
    assert(resolution_step(reference, states, events, steps, j));
    lemma_resolve_step_advances(reference, states[i], events[i], states[i + 1], steps[i]);
    lemma_resolve_step_advances(reference, states[j], events[j], states[j + 1], steps[j]);
    if i < j {
        lemma_resolution_advances(reference, states, events, steps, i + 1, j);
    }
    if j < i {
        lemma_resolution_advances(reference, states, events, steps, j + 1, i);
    }
}

/// A compiled schema is used as it is: a resolution whose look into the
/// cache of compiled schemas finds the schema asks for no parse and for no
/// download, at any step.
pub proof fn lemma_hit_asks_for_nothing(
    reference: SchemaReference,
    states: Seq<ResolveState>,
    events: Seq<ResolveEvent>,
    steps: Seq<ResolveAction>,
    k: int,
    i: int,
)
    requires
        is_resolution(reference, states, events, steps),
        0 <= k < events.len(),
        states[k] is CompiledAsked,
        events[k] == ResolveEvent::CompiledAnswer(true),
        0 <= i < events.len(),
    ensures
        !(steps[i] is Parse),
        !fetches(steps[i]),
        steps[k] is Use,
{
    assert(resolution_step(reference, states, events, steps, k));
    assert(resolution_step(reference, states, events, steps, i));
    lemma_resolve_step_advances(reference, states[i], events[i], states[i + 1], steps[i]);
    if i < k {
        lemma_resolution_advances(reference, states, events, steps, i + 1, k);
    }
    if k < i {
        lemma_resolution_advances(reference, states, events, steps, k + 1, i);
    }
}

/// What the disk tier holds is not downloaded again: a resolution whose
/// look into the disk tier finds the schema's bytes asks for no download,
/// at any step.
pub proof fn lemma_disk_hit_downloads_nothing(
    reference: SchemaReference,
    states: Seq<ResolveState>,
    events: Seq<ResolveEvent>,
    steps: Seq<ResolveAction>,
    k: int,
    i: int,
)
    requires
        is_resolution(reference, states, events, steps),
        0 <= k < events.len(),
        states[k] == (ResolveState::Loading { load: LoadState::DiskAsked }),
        events[k] matches ResolveEvent::Loaded(LoadEvent::DiskAnswer(Some(_))),
        0 <= i < events.len(),
    ensures
        !fetches(steps[i]),
{
    assert(resolution_step(reference, states, events, steps, k));
    assert(resolution_step(reference, states, events, steps, i));
    lemma_resolve_step_advances(reference, states[i], events[i], states[i + 1], steps[i]);
    lemma_resolve_step_advances(reference, states[k], events[k], states[k + 1], steps[k]);
    if resolve_awaited(states[k], events[k], reference.source_type@) {
        let e = events[k]->Loaded_0;
        let (load, action) = choose|load: LoadState, action: LoadAction| #[trigger]
            load_result(reference.source_type, states[k]->load, e, load, action) && passed_on(
                load,
                action,
                states[k + 1],
                steps[k],
            );
        lemma_load_step_advances(reference.source_type, states[k]->load, e, load, action);
        assert(load is Finished);
    }
    assert(resolve_stage(states[k + 1]) >= 8);
    if i < k {
        lemma_resolution_advances(reference, states, events, steps, i + 1, k);
    }
    if k < i {
        lemma_resolution_advances(reference, states, events, steps, k + 1, i);
    }
}

} // verus!
