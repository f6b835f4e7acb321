//! Parsing, typed access and error annotation for napkin YAML documents.

use crate::text::{
    chars_of, find, find_line_end, find_nth_break, first_from, lemma_first_from_bounded, line_end,
    nth_break, splice, splice_at,
};
use chrono::DateTime;
use vstd::prelude::*;
use vstd::string::*;
use yaml_rust2::scanner::Marker;
use yaml_rust2::{ScanError, Yaml, YamlLoader};

verus! {

/// A parsed YAML node, holding as plain values what the library reads.
///
/// Mappings keep their entries in document order.
#[derive(Debug)]
pub enum Node {
    /// A float, kept as its source text.
    Real(String),
    Integer(i64),
    Str(String),
    Boolean(bool),
    Array(Vec<Node>),
    Hash(Vec<(Node, Node)>),
    Alias(usize),
    Null,
    BadValue,
}

/// The kind of value a typed getter asks for.
#[derive(Debug, Clone, Copy, PartialEq, Eq, Structural)]
pub enum Kind {
    String,
    Boolean,
    Integer,
    List,
}

impl Kind {
    pub open spec fn spec_name(self) -> Seq<char> {
        match self {
            Kind::String => "string"@,
            Kind::Boolean => "boolean"@,
            Kind::Integer => "integer"@,
            Kind::List => "list"@,
        }
    }

    /// The word used for this kind in error messages.
    pub fn name(&self) -> (r: &'static str)
        ensures
            r@ == self.spec_name(),
    {
        match self {
            Kind::String => "string",
            Kind::Boolean => "boolean",
            Kind::Integer => "integer",
            Kind::List => "list",
        }
    }
}

/// Why a document or one of its fields was rejected.
#[derive(Debug, Clone, PartialEq)]
pub enum Error {
    /// The text is not valid YAML; `line` is 1-indexed.
    InvalidYaml { line: usize, info: String },
    MissingKey(String),
    WrongKeyType { key: String, expected_type: Kind },
    EmptyYaml,
    NonHashMapDoc,
    MultipleYamlDocs,
    InvalidDate(String),
}

/// The mathematical model of an [`Error`].
pub enum Fault {
    InvalidYaml { line: nat, info: Seq<char> },
    MissingKey(Seq<char>),
    WrongKeyType { key: Seq<char>, expected_type: Kind },
    EmptyYaml,
    NonHashMapDoc,
    MultipleYamlDocs,
    InvalidDate(Seq<char>),
}

impl View for Error {
    type V = Fault;

    open spec fn view(&self) -> Fault {
        match self {
            Error::InvalidYaml { line, info } => Fault::InvalidYaml { line: *line as nat, info: info@ },
            Error::MissingKey(k) => Fault::MissingKey(k@),
            Error::WrongKeyType { key, expected_type } => Fault::WrongKeyType {
                key: key@,
                expected_type: *expected_type,
            },
            Error::EmptyYaml => Fault::EmptyYaml,
            Error::NonHashMapDoc => Fault::NonHashMapDoc,
            Error::MultipleYamlDocs => Fault::MultipleYamlDocs,
            Error::InvalidDate(k) => Fault::InvalidDate(k@),
        }
    }
}

/// The outcome of the root-shape check on the documents of a YAML stream.
pub open spec fn root_shape(docs: Seq<Node>) -> Result<Node, Fault> {
    if docs.len() > 1 {
        Err(Fault::MultipleYamlDocs)
    } else if docs.len() == 0 {
        Err(Fault::EmptyYaml)
    } else if !(docs[0] is Hash) {
        Err(Fault::NonHashMapDoc)
    } else {
        Ok(docs[0])
    }
}

/// Checks that a YAML stream holds exactly one document and that it is a mapping.
pub fn check_docs(docs: Vec<Node>) -> (r: Result<Node, Error>)
    ensures
        match r {
            Ok(d) => root_shape(docs@) == Ok::<Node, Fault>(d),
            Err(e) => root_shape(docs@) == Err::<Node, Fault>(e@),
        },
{
    let mut docs = docs;
    if docs.len() > 1 {
        return Err(Error::MultipleYamlDocs);
    }
    if docs.len() == 0 {
        return Err(Error::EmptyYaml);
    }
    let root = docs.remove(0);
    match root {
        Node::Hash(_) => Ok(root),
        _ => Err(Error::NonHashMapDoc),
    }
}

/// A point in time with the UTC offset it was written with.
#[derive(Debug, Clone, Copy, PartialEq, Eq, Structural)]
pub struct Timestamp {
    /// Seconds since the Unix epoch.
    pub secs: i64,
    /// Nanoseconds past `secs`.
    pub nanos: u32,
    /// Offset from UTC in seconds.
    pub offset: i32,
}

#[verifier::external_type_specification]
#[verifier::external_body]
pub struct ExScanError(ScanError);

#[verifier::external_type_specification]
#[verifier::external_body]
pub struct ExMarker(Marker);

#[verifier::external_type_specification]
#[verifier::external_body]
pub struct ExYaml(Yaml);

/// Relies on yaml_rust2's `ScanError::marker`: where the scan failed.
pub assume_specification<'a>[ ScanError::marker ](e: &'a ScanError) -> &'a Marker;

/// Relies on yaml_rust2's `Marker::line`: the 1-indexed line of a position.
pub assume_specification[ Marker::line ](m: &Marker) -> usize;

/// Relies on yaml_rust2's `ScanError::info`: the human-readable description.
pub assume_specification<'a>[ ScanError::info ](e: &'a ScanError) -> &'a str;

/// The documents that yaml_rust2 reads from a text, or `None` where it
/// rejects the text.
pub uninterp spec fn yaml_docs(text: Seq<char>) -> Option<Seq<Node>>;

/// Relies on yaml_rust2's `YamlLoader::load_from_str`: the documents of a
/// YAML stream, which depend on the text alone.
#[verifier::external_body]
fn load_yaml(text: &str) -> (r: Result<Vec<Node>, ScanError>)
    ensures
        match r {
            Ok(docs) => yaml_docs(text@) == Some(docs@),
            Err(_) => yaml_docs(text@) is None,
        },
{
    match YamlLoader::load_from_str(text) {
        Ok(docs) => Ok(docs.into_iter().map(node_of).collect()),
        Err(e) => Err(e),
    }
}

/// Relies on the variants of yaml_rust2's `Yaml`: converts a node one
/// variant for one, keeping the order of mapping entries.
#[verifier::external_body]
fn node_of(y: Yaml) -> Node {
    match y {
        Yaml::Real(s) => Node::Real(s),
        Yaml::Integer(i) => Node::Integer(i),
        Yaml::String(s) => Node::Str(s),
        Yaml::Boolean(b) => Node::Boolean(b),
        Yaml::Array(a) => Node::Array(a.into_iter().map(node_of).collect()),
        Yaml::Hash(h) => Node::Hash(h.into_iter().map(|(k, v)| (node_of(k), node_of(v))).collect()),
        Yaml::Alias(n) => Node::Alias(n),
        Yaml::Null => Node::Null,
        Yaml::BadValue => Node::BadValue,
    }
}

/// Parses a YAML text that must hold exactly one document, a mapping.
///
/// Where the reader rejects the text the error is `InvalidYaml`; otherwise the
/// result is the root-shape check of the documents read.
pub fn parse_yaml(yaml: &str) -> (r: Result<Node, Error>)
    ensures
        match yaml_docs(yaml@) {
            None => r matches Err(e) && e@ is InvalidYaml,
            Some(docs) => match r {
                Ok(d) => root_shape(docs) == Ok::<Node, Fault>(d),
                Err(e) => root_shape(docs) == Err::<Node, Fault>(e@),
            },
        },
{
    match load_yaml(yaml) {
        Ok(docs) => check_docs(docs),
        Err(e) => {
            let line = e.marker().line();
            let info = e.info().to_owned();
            Err(Error::InvalidYaml { line, info })
        },
    }
}

/// Whether a node is the string `key`.
pub open spec fn key_is(n: Node, key: Seq<char>) -> bool {
    n matches Node::Str(s) && s@ == key
}

/// The value of the first entry whose key is the string `key`.
pub open spec fn entry_value(entries: Seq<(Node, Node)>, key: Seq<char>) -> Option<Node>
    decreases entries.len(),
{
    if entries.len() == 0 {
        None
    } else if key_is(entries[0].0, key) {
        Some(entries[0].1)
    } else {
        entry_value(entries.drop_first(), key)
    }
}

/// The value under `key` in a mapping; `None` where `doc` is no mapping or
/// lacks the key.
pub open spec fn field_of(doc: Node, key: Seq<char>) -> Option<Node> {
    match doc {
        Node::Hash(entries) => entry_value(entries@, key),
        _ => None,
    }
}

/// Looks `key` up in a mapping node.
fn field<'a>(doc: &'a Node, key: &str) -> (r: Option<&'a Node>)
    ensures
        match r {
            Some(v) => field_of(*doc, key@) == Some(*v),
            None => field_of(*doc, key@) is None,
        },
{
    match doc {
        Node::Hash(entries) => find_entry(entries, key),
        _ => None,
    }
}

/// Finds the value of the first entry whose key is the string `key`.
fn find_entry<'a>(entries: &'a Vec<(Node, Node)>, key: &str) -> (r: Option<&'a Node>)
    ensures
        match r {
            Some(v) => entry_value(entries@, key@) == Some(*v),
            None => entry_value(entries@, key@) is None,
        },
{
    let wanted = key.to_string();
    let mut i: usize = 0;
    assert(entries@.subrange(0, entries.len() as int) =~= entries@);
    while i < entries.len()
        invariant
            i <= entries.len(),
            wanted@ == key@,
            entry_value(entries@, key@) == entry_value(
                entries@.subrange(i as int, entries.len() as int),
                key@,
            ),
        decreases entries.len() - i,
    {
        let entry = &entries[i];
        assert(entries@.subrange(i as int, entries.len() as int).drop_first() =~= entries@.subrange(
            i + 1,
            entries.len() as int,
        ));
        assert(entries@.subrange(i as int, entries.len() as int)[0] == entries@[i as int]);
        if let Node::Str(s) = &entry.0 {
            if s.eq(&wanted) {
                return Some(&entry.1);
            }
        }
        i += 1;
    }
    None
}

/// Whether a node is of the kind a getter asks for.
pub open spec fn has_kind(n: Node, kind: Kind) -> bool {
    match kind {
        Kind::String => n is Str,
        Kind::Boolean => n is Boolean,
        Kind::Integer => n is Integer,
        Kind::List => n is Array,
    }
}

/// What a typed getter finds under `key`: the value where it is of the
/// asked kind, else the first failure that applies.
pub open spec fn fetch(doc: Node, key: Seq<char>, kind: Kind) -> Result<Node, Fault> {
    match field_of(doc, key) {
        None => Err(Fault::MissingKey(key)),
        Some(v) => if has_kind(v, kind) {
            Ok(v)
        } else {
            Err(Fault::WrongKeyType { key, expected_type: kind })
        },
    }
}

/// The error for a field that is absent or of another kind than asked.
fn field_error(key: &str, found: Option<&Node>, kind: Kind) -> (e: Error)
    ensures
        found is None ==> e@ == Fault::MissingKey(key@),
        found is Some ==> e@ == (Fault::WrongKeyType { key: key@, expected_type: kind }),
{
    match found {
        None => Error::MissingKey(key.to_string()),
        Some(_) => Error::WrongKeyType { key: key.to_string(), expected_type: kind },
    }
}

/// Reads the string under `key`.
pub fn yaml_get_str(key: &str, yaml: &Node) -> (r: Result<String, Error>)
    ensures
        match r {
            Ok(s) => fetch(*yaml, key@, Kind::String) == Ok::<Node, Fault>(Node::Str(s)),
            Err(e) => fetch(*yaml, key@, Kind::String) == Err::<Node, Fault>(e@),
        },
{
    let found = field(yaml, key);
    match found {
        Some(Node::Str(s)) => Ok(s.clone()),
        _ => Err(field_error(key, found, Kind::String)),
    }
}

/// Reads the boolean under `key`.
pub fn yaml_get_bool(key: &str, yaml: &Node) -> (r: Result<bool, Error>)
    ensures
        match r {
            Ok(b) => fetch(*yaml, key@, Kind::Boolean) == Ok::<Node, Fault>(Node::Boolean(b)),
            Err(e) => fetch(*yaml, key@, Kind::Boolean) == Err::<Node, Fault>(e@),
        },
{
    let found = field(yaml, key);
    match found {
        Some(Node::Boolean(b)) => Ok(*b),
        _ => Err(field_error(key, found, Kind::Boolean)),
    }
}

/// Reads the integer under `key`.
pub fn yaml_get_int(key: &str, yaml: &Node) -> (r: Result<i64, Error>)
    ensures
        match r {
            Ok(i) => fetch(*yaml, key@, Kind::Integer) == Ok::<Node, Fault>(Node::Integer(i)),
            Err(e) => fetch(*yaml, key@, Kind::Integer) == Err::<Node, Fault>(e@),
        },
{
    let found = field(yaml, key);
    match found {
        Some(Node::Integer(i)) => Ok(*i),
        _ => Err(field_error(key, found, Kind::Integer)),
    }
}

/// Reads the list under `key`, borrowed from the document.
pub fn yaml_get_list<'a>(key: &str, yaml: &'a Node) -> (r: Result<&'a Vec<Node>, Error>)
    ensures
        match r {
            Ok(items) => fetch(*yaml, key@, Kind::List) == Ok::<Node, Fault>(Node::Array(*items)),
            Err(e) => fetch(*yaml, key@, Kind::List) == Err::<Node, Fault>(e@),
        },
{
    let found = field(yaml, key);
    match found {
        Some(Node::Array(items)) => Ok(items),
        _ => Err(field_error(key, found, Kind::List)),
    }
}

/// What chrono's RFC 3339 parser reads from a text: seconds since the epoch,
/// nanoseconds and UTC offset in seconds, or `None` where it rejects it.
pub uninterp spec fn rfc3339_of(s: Seq<char>) -> Option<(i64, u32, i32)>;

/// The timestamp that a parse result stands for.
pub open spec fn timestamp_of(t: (i64, u32, i32)) -> Timestamp {
    Timestamp { secs: t.0, nanos: t.1, offset: t.2 }
}

/// Relies on chrono's `DateTime::parse_from_rfc3339`, which depends on the
/// text alone, and on `timestamp`, `timestamp_subsec_nanos` and
/// `local_minus_utc` to take the parsed value apart.
#[verifier::external_body]
fn parse_rfc3339(s: &str) -> (r: Option<Timestamp>)
    ensures
        match rfc3339_of(s@) {
            Some(t) => r == Some(timestamp_of(t)),
            None => r is None,
        },
{
    match DateTime::parse_from_rfc3339(s) {
        Ok(d) => Some(
            Timestamp {
                secs: d.timestamp(),
                nanos: d.timestamp_subsec_nanos(),
                offset: d.offset().local_minus_utc(),
            },
        ),
        Err(_) => None,
    }
}

/// What the timestamp getter yields: the string under `key` read as an
/// RFC 3339 date-time with an explicit offset.
pub open spec fn fetch_date(doc: Node, key: Seq<char>) -> Result<Timestamp, Fault> {
    match fetch(doc, key, Kind::String) {
        Ok(Node::Str(s)) => match rfc3339_of(s@) {
            Some(t) => Ok(timestamp_of(t)),
            None => Err(Fault::InvalidDate(key)),
        },
        Ok(_) => Err(Fault::WrongKeyType { key, expected_type: Kind::String }),
        Err(f) => Err(f),
    }
}

/// Reads the RFC 3339 date-time under `key`.
pub fn yaml_get_date(key: &str, yaml: &Node) -> (r: Result<Timestamp, Error>)
    ensures
        match r {
            Ok(t) => fetch_date(*yaml, key@) == Ok::<Timestamp, Fault>(t),
            Err(e) => fetch_date(*yaml, key@) == Err::<Timestamp, Fault>(e@),
        },
{
    let found = field(yaml, key);
    match found {
        Some(Node::Str(s)) => match parse_rfc3339(s.as_str()) {
            Some(t) => Ok(t),
            None => Err(Error::InvalidDate(key.to_string())),
        },
        _ => Err(field_error(key, found, Kind::String)),
    }
}

/// Every typed getter reports an absent key as missing, and a key whose value
/// is of another kind as being of the wrong type, naming the kind it asked for.
pub proof fn lemma_getter_failures(doc: Node, key: Seq<char>, kind: Kind)
    ensures
        field_of(doc, key) is None ==> fetch(doc, key, kind) == Err::<Node, Fault>(
            Fault::MissingKey(key),
        ),
        field_of(doc, key) is None ==> fetch_date(doc, key) == Err::<Timestamp, Fault>(
            Fault::MissingKey(key),
        ),
        field_of(doc, key) matches Some(v) && !has_kind(v, kind) ==> fetch(doc, key, kind)
            == Err::<Node, Fault>(Fault::WrongKeyType { key, expected_type: kind }),
        field_of(doc, key) matches Some(v) && !(v is Str) ==> fetch_date(doc, key) == Err::<
            Timestamp,
            Fault,
        >(Fault::WrongKeyType { key, expected_type: Kind::String }),
{
}

/// Where a key is taken to stand: its first occurrence followed by `:`,
/// else its first bare occurrence.
pub open spec fn key_position(src: Seq<char>, key: Seq<char>) -> Option<int> {
    match first_from(src, key + seq![':'], 0) {
        Some(i) => Some(i),
        None => first_from(src, key, 0),
    }
}

/// A comment line `message` placed at the start of `src`.
pub open spec fn comment_first(src: Seq<char>, message: Seq<char>) -> Seq<char> {
    message + "\n"@ + src
}

/// `message` placed as a trailing comment on the line where `key` stands,
/// or as a first line where the key does not occur.
pub open spec fn comment_at_key(src: Seq<char>, key: Seq<char>, message: Seq<char>) -> Seq<char> {
    match key_position(src, key) {
        Some(i) => splice(src, line_end(src, i), " "@ + message),
        None => comment_first(src, message),
    }
}

/// `src` with a comment that describes `e` inserted where it can be found.
pub open spec fn annotated(src: Seq<char>, e: Fault) -> Seq<char> {
    match e {
        Fault::InvalidYaml { line, info } => {
            let message = "## ERROR: Invalid Yaml: "@ + info;
            match if line >= 2 {
                nth_break(src, 0, (line - 2) as nat)
            } else {
                None
            } {
                Some(p) => splice(src, p, " "@ + message),
                None => comment_first(src, message),
            }
        },
        Fault::EmptyYaml => comment_first(src, "## ERROR: Expected some YAML here..."@),
        Fault::NonHashMapDoc => comment_first(src, "## ERROR: Expected a hashmap YAML doc instead"@),
        Fault::MultipleYamlDocs => comment_first(src, "## ERROR: Multiple YAML docs found"@),
        Fault::MissingKey(key) => comment_first(src, "## ERROR: Missing key '"@ + key + "'\n"@),
        Fault::WrongKeyType { key, expected_type } => comment_at_key(
            src,
            key,
            "## ERROR: Key of wrong type: expected '"@ + key + "' to be a "@
                + expected_type.spec_name(),
        ),
        Fault::InvalidDate(key) => comment_at_key(src, key, "## ERROR: Invalid Date"@),
    }
}

/// Places the comment line `message` at the start of `src`.
fn put_first(src: &str, message: String) -> (r: String)
    ensures
        r@ == comment_first(src@, message@),
{
    let mut r = message;
    r.append("\n");
    r.append(src);
    r
}

/// Places `message` on the line where `key` stands.
fn put_at_key(src: &str, key: &str, message: String) -> (r: String)
    ensures
        r@ == comment_at_key(src@, key@, message@),
{
    let text = chars_of(src);
    let mut with_colon = chars_of(key);
    with_colon.push(':');
    assert(with_colon@ =~= key@ + seq![':']);
    let bare = chars_of(key);
    let pos = match find(&text, &with_colon) {
        Some(i) => Some(i),
        None => find(&text, &bare),
    };
    match pos {
        Some(i) => {
            let end = find_line_end(&text, i);
            proof {
                lemma_line_end(text@, i as int);
            }
            let mut note = String::from_str(" ");
            note.append(message.as_str());
            splice_at(src, end, note.as_str())
        },
        None => put_first(src, message),
    }
}

proof fn lemma_nth_break_bounded(s: Seq<char>, from: int, n: nat)
    ensures
        nth_break(s, from, n) matches Some(p) ==> p < s.len(),
    decreases s.len() - from,
{
    if 0 <= from < s.len() {
        if s[from] == '\n' {
            if n > 0 {
                lemma_nth_break_bounded(s, from + 1, (n - 1) as nat);
            }
        } else {
            lemma_nth_break_bounded(s, from + 1, n);
        }
    }
}

/// Inserts into `src` a one-line YAML comment that describes `error`.
///
/// A syntax error is noted at the end of the line before the offending one; a
/// field error at the end of the line where the key first stands; the other
/// errors, and those whose place cannot be found, on a new first line. The
/// text of `src` is kept.
pub fn yaml_annotate(src: &str, error: Error) -> (r: String)
    ensures
        r@ == annotated(src@, error@),
{
    match error {
        Error::InvalidYaml { line, info } => {
            let mut message = String::from_str("## ERROR: Invalid Yaml: ");
            message.append(info.as_str());
            let text = chars_of(src);
            let at = if line >= 2 {
                find_nth_break(&text, line - 2)
            } else {
                None
            };
            match at {
                Some(p) => {
                    proof {
                        lemma_nth_break_bounded(src@, 0, (line - 2) as nat);
                    }
                    let mut note = String::from_str(" ");
                    note.append(message.as_str());
                    splice_at(src, p, note.as_str())
                },
                None => put_first(src, message),
            }
        },
        Error::EmptyYaml => put_first(src, String::from_str("## ERROR: Expected some YAML here...")),
        Error::NonHashMapDoc => put_first(
            src,
            String::from_str("## ERROR: Expected a hashmap YAML doc instead"),
        ),
        Error::MultipleYamlDocs => put_first(src, String::from_str("## ERROR: Multiple YAML docs found")),
        Error::MissingKey(key) => {
            let mut message = String::from_str("## ERROR: Missing key '");
            message.append(key.as_str());
            message.append("'\n");
            put_first(src, message)
        },
        Error::WrongKeyType { key, expected_type } => {
            let mut message = String::from_str("## ERROR: Key of wrong type: expected '");
            message.append(key.as_str());
            message.append("' to be a ");
            message.append(expected_type.name());
            put_at_key(src, key.as_str(), message)
        },
        Error::InvalidDate(key) => put_at_key(
            src,
            key.as_str(),
            String::from_str("## ERROR: Invalid Date"),
        ),
    }
}

/// A stream with no document is empty, one with several documents is
/// rejected as such, and a single document that is not a mapping is rejected
/// as not being one.
pub proof fn lemma_root_shape(docs: Seq<Node>)
    ensures
        docs.len() == 0 ==> root_shape(docs) == Err::<Node, Fault>(Fault::EmptyYaml),
        docs.len() > 1 ==> root_shape(docs) == Err::<Node, Fault>(Fault::MultipleYamlDocs),
        docs.len() == 1 && !(docs[0] is Hash) ==> root_shape(docs) == Err::<Node, Fault>(
            Fault::NonHashMapDoc,
        ),
        docs.len() == 1 && docs[0] is Hash ==> root_shape(docs) == Ok::<Node, Fault>(docs[0]),
{
}

/// A missing key is reported on a new first line that names the key, and
/// the whole of the original text follows it unchanged.
pub proof fn lemma_missing_key_note(src: Seq<char>, key: Seq<char>)
    ensures
        annotated(src, Fault::MissingKey(key)) == "## ERROR: Missing key '"@ + key + "'\n\n"@
            + src,
        annotated(src, Fault::MissingKey(key)).subrange(23, 23 + key.len() as int) == key,
        annotated(src, Fault::MissingKey(key)).skip(
            annotated(src, Fault::MissingKey(key)).len() - src.len(),
        ) == src,
{
    reveal_strlit("## ERROR: Missing key '");
    reveal_strlit("'\n");
    reveal_strlit("\n");
    reveal_strlit("'\n\n");
    let a = annotated(src, Fault::MissingKey(key));
    assert(a =~= "## ERROR: Missing key '"@ + key + "'\n\n"@ + src);
    assert(a.subrange(23, 23 + key.len() as int) =~= key);
    assert(a.skip(a.len() - src.len()) =~= src);
}

/// The end of a line lies within the text, and no line break stands between
/// a position and the end of its line.
proof fn lemma_line_end(s: Seq<char>, i: int)
    ensures
        line_end(s, i) <= s.len(),
        0 <= i <= s.len() ==> i <= line_end(s, i),
        forall|j: int| 0 <= i <= j < line_end(s, i) ==> s[j] != '\n',
    decreases s.len() - i,
{
    if 0 <= i < s.len() && s[i] != '\n' {
        lemma_line_end(s, i + 1);
    }
}

/// A field of the wrong type is reported by a comment appended to the line
/// where its key first stands: the text before the end of that line is kept,
/// then comes the comment, which holds no line break, then the rest of the
/// text.
pub proof fn lemma_wrong_type_note(src: Seq<char>, key: Seq<char>, kind: Kind)
    requires
        first_from(src, key, 0) is Some,
        !key.contains('\n'),
    ensures
        ({
            let i = key_position(src, key)->0;
            let e = line_end(src, i);
            let note = " ## ERROR: Key of wrong type: expected '"@ + key + "' to be a "@
                + kind.spec_name();
            &&& 0 <= i <= e <= src.len()
            &&& forall|j: int| i <= j < e ==> src[j] != '\n'
            &&& !note.contains('\n')
            &&& annotated(src, Fault::WrongKeyType { key, expected_type: kind }) == src.take(e)
                + note + src.skip(e)
        }),
{
    let i = key_position(src, key)->0;
    lemma_first_from_bounded(src, key + seq![':'], 0);
    lemma_first_from_bounded(src, key, 0);
    lemma_line_end(src, i);
    reveal_strlit(" ");
    reveal_strlit("## ERROR: Key of wrong type: expected '");
    reveal_strlit(" ## ERROR: Key of wrong type: expected '");
    reveal_strlit("' to be a ");
    reveal_strlit("string");
    reveal_strlit("boolean");
    reveal_strlit("integer");
    reveal_strlit("list");
    let message = "## ERROR: Key of wrong type: expected '"@ + key + "' to be a "@ + kind.spec_name();
    let note = " ## ERROR: Key of wrong type: expected '"@ + key + "' to be a "@ + kind.spec_name();
    assert(" "@ + message =~= note);
    assert forall|j: int| 0 <= j < note.len() implies note[j] != '\n' by {
        if 40 <= j < 40 + key.len() {
            assert(note[j] == key[j - 40]);
        }
    }
}

} // verus!
