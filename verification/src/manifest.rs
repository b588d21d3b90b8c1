//! Plugin manifests: locating the manifest file among a directory's
//! entries and decoding its TOML contents into `Metadata`.

use vstd::prelude::*;
use vstd::string::*;

use crate::version::{ParseVersionError, Version, spec_parse_version, spec_version_text};

verus! {

/// Metadata describing a plugin: its name, its authors, and its version.
#[derive(Debug)]
pub struct Metadata {
    pub name: String,
    pub authors: Vec<String>,
    pub version: Version,
}

/// Why a manifest text does not decode into `Metadata`.
#[derive(Debug)]
pub enum ManifestDefect {
    /// The text is not a well-formed TOML document; carries the parser's
    /// diagnostic.
    Unparsable(String),
    /// There is no top-level `name` string field.
    MissingName,
    /// There is no top-level `authors` array field.
    MissingAuthors,
    /// An entry of the `authors` array is not a string.
    NonStringAuthor,
    /// The `authors` array is empty.
    EmptyAuthors,
    /// There is no top-level `version` string field.
    MissingVersion,
    /// The `version` field is not a well-formed dotted version.
    BadVersion(ParseVersionError),
}

/// Error from locating and decoding a plugin manifest.
#[derive(Debug)]
pub enum FetchMetadataError {
    /// The plugin directory holds no recognized manifest file.
    ManifestNotFound,
    /// The manifest file cannot be read; carries the I/O diagnostic.
    ManifestUnreadable(String),
    /// The manifest file's contents do not decode; says why.
    ManifestMalformed(ManifestDefect),
}

/// What the TOML parser reports for a text: `None` when the text is a
/// well-formed document, the parser's diagnostic otherwise.
pub uninterp spec fn spec_toml_parse_error(text: Seq<char>) -> Option<Seq<char>>;

/// The string value at a top-level key of a TOML document: `None` when the
/// text does not parse, the key is absent, or the value is not a string.
pub uninterp spec fn spec_toml_str_field(text: Seq<char>, key: Seq<char>) -> Option<Seq<char>>;

/// The array value at a top-level key of a TOML document, each element
/// replaced by its string value where it has one: `None` when the text
/// does not parse, the key is absent, or the value is not an array.
pub uninterp spec fn spec_toml_str_array_field(text: Seq<char>, key: Seq<char>) -> Option<
    Seq<Option<Seq<char>>>,
>;

/// Relies on `toml::Table`'s `FromStr`: whether a text parses as a TOML
/// document, and the diagnostic when it does not, depend on the text alone.
#[verifier::external_body]
fn toml_parse_error(text: &str) -> (r: Option<String>)
    ensures
        r.deep_view() == spec_toml_parse_error(text@),
{
    match text.parse::<toml::Table>() {
        Ok(_) => None,
        Err(e) => Some(e.to_string()),
    }
}

/// Relies on `toml::Table`'s `FromStr`, `toml::map::Map::get` and
/// `toml::Value::as_str`: the string at a top-level key of a TOML
/// document, a function of the text and the key alone.
#[verifier::external_body]
fn toml_str_field(text: &str, key: &str) -> (r: Option<String>)
    ensures
        r.deep_view() == spec_toml_str_field(text@, key@),
{
    let table: toml::Table = match text.parse() {
        Ok(t) => t,
        Err(_) => return None,
    };
    table.get(key).and_then(|v| v.as_str()).map(|s| s.to_owned())
}

/// Relies on `toml::Table`'s `FromStr`, `toml::map::Map::get`,
/// `toml::Value::as_array` and `toml::Value::as_str`: the array at a
/// top-level key of a TOML document, element by element, a function of the
/// text and the key alone.
#[verifier::external_body]
fn toml_str_array_field(text: &str, key: &str) -> (r: Option<Vec<Option<String>>>)
    ensures
        r.deep_view() == spec_toml_str_array_field(text@, key@),
{
    let table: toml::Table = match text.parse() {
        Ok(t) => t,
        Err(_) => return None,
    };
    let arr = match table.get(key).and_then(|v| v.as_array()) {
        Some(a) => a,
        None => return None,
    };
    Some(arr.iter().map(|v| v.as_str().map(|s| s.to_owned())).collect())
}

/// The author list is present, and every entry of it is a string.
pub open spec fn spec_authors_present(a: Option<Seq<Option<Seq<char>>>>) -> bool {
    a matches Some(list) && forall|i: int| 0 <= i < list.len() ==> list[i] is Some
}

/// The string values of an author list whose entries are all strings.
pub open spec fn spec_author_strings(list: Seq<Option<Seq<char>>>) -> Seq<Seq<char>> {
    list.map_values(|o: Option<Seq<char>>| o->0)
}

/// A manifest text decodes: it parses, has a string `name`, a non-empty
/// all-string `authors` array, and a `version` string that parses.
pub open spec fn spec_manifest_decodes(text: Seq<char>) -> bool {
    &&& spec_toml_parse_error(text) is None
    &&& spec_toml_str_field(text, "name"@) is Some
    &&& spec_authors_present(spec_toml_str_array_field(text, "authors"@))
    &&& spec_toml_str_array_field(text, "authors"@)->0.len() > 0
    &&& spec_toml_str_field(text, "version"@) is Some
    &&& spec_parse_version(spec_toml_str_field(text, "version"@)->0) is Ok
}

impl Metadata {
    /// Decodes a manifest text: requires a string `name`, a non-empty
    /// array of string `authors`, and a string `version` holding a dotted
    /// version. Every other shape is rejected as malformed, with the first
    /// defect in that order reported.
    #[verifier::loop_isolation(false)]
    pub fn from_toml(text: &str) -> (r: Result<Metadata, FetchMetadataError>)
        ensures
            r is Ok <==> spec_manifest_decodes(text@),
            r matches Ok(m) ==> {
                &&& Some(m.name@) == spec_toml_str_field(text@, "name"@)
                &&& m.authors.deep_view() == spec_author_strings(
                    spec_toml_str_array_field(text@, "authors"@)->0,
                )
                &&& Ok::<Version, ParseVersionError>(m.version) == spec_parse_version(
                    spec_toml_str_field(text@, "version"@)->0,
                )
            },
            r matches Err(e) ==> e matches FetchMetadataError::ManifestMalformed(_),
            spec_toml_parse_error(text@) matches Some(msg) ==> r matches Err(
                FetchMetadataError::ManifestMalformed(ManifestDefect::Unparsable(m)),
            ) && m@ == msg,
            spec_toml_parse_error(text@) is None && spec_toml_str_field(text@, "name"@) is None
                ==> r matches Err(
                FetchMetadataError::ManifestMalformed(ManifestDefect::MissingName),
            ),
            spec_toml_parse_error(text@) is None && spec_toml_str_field(text@, "name"@) is Some
                && spec_toml_str_array_field(text@, "authors"@) is None ==> r matches Err(
                FetchMetadataError::ManifestMalformed(ManifestDefect::MissingAuthors),
            ),
    {
        if let Some(msg) = toml_parse_error(text) {
            return Err(FetchMetadataError::ManifestMalformed(ManifestDefect::Unparsable(msg)));
        }
        let name = match toml_str_field(text, "name") {
            Some(n) => n,
            None => {
                return Err(FetchMetadataError::ManifestMalformed(ManifestDefect::MissingName));
            },
        };
        let raw_authors = match toml_str_array_field(text, "authors") {
            Some(a) => a,
            None => {
                return Err(FetchMetadataError::ManifestMalformed(ManifestDefect::MissingAuthors));
            },
        };
        let ghost raw_dv = raw_authors.deep_view();
        let mut authors: Vec<String> = Vec::new();
        let mut i: usize = 0;
        while i < raw_authors.len()
            invariant
                0 <= i <= raw_authors.len(),
                raw_dv == raw_authors.deep_view(),
                forall|j: int| 0 <= j < i ==> raw_dv[j] is Some,
                authors.deep_view() =~= spec_author_strings(raw_dv.take(i as int)),
            decreases raw_authors.len() - i,
        {
            match &raw_authors[i] {
                Some(s) => {
                    authors.push(s.clone());
                    proof {
                        assert(raw_dv.take(i + 1).map_values(|o: Option<Seq<char>>| o->0)
                            =~= raw_dv.take(i as int).map_values(|o: Option<Seq<char>>| o->0).push(
                            raw_dv[i as int]->0,
                        ));
                    }
                },
                None => {
                    return Err(
                        FetchMetadataError::ManifestMalformed(ManifestDefect::NonStringAuthor),
                    );
                },
            }
            i += 1;
        }
        proof {
            assert(raw_dv.take(raw_dv.len() as int) =~= raw_dv);
        }
        if authors.len() == 0 {
            return Err(FetchMetadataError::ManifestMalformed(ManifestDefect::EmptyAuthors));
        }
        let version_text = match toml_str_field(text, "version") {
            Some(v) => v,
            None => {
                return Err(FetchMetadataError::ManifestMalformed(ManifestDefect::MissingVersion));
            },
        };
        let version = match Version::parse(version_text.as_str()) {
            Ok(v) => v,
            Err(e) => {
                return Err(FetchMetadataError::ManifestMalformed(ManifestDefect::BadVersion(e)));
            },
        };
        Ok(Metadata { name, authors, version })
    }

    /// Renders the record for display: the name, one line per author,
    /// and the version.
    #[verifier::loop_isolation(false)]
    pub fn describe(&self) -> (s: String)
        ensures
            s@ == spec_metadata_text(*self),
    {
        let ghost authors_dv = self.authors.deep_view();
        let mut s = String::from_str("Name: ");
        s.append(self.name.as_str());
        s.append("\nAuthors:\n");
        let mut i: usize = 0;
        while i < self.authors.len()
            invariant
                0 <= i <= self.authors.len(),
                s@ == "Name: "@ + self.name@ + "\nAuthors:\n"@ + spec_author_block(
                    authors_dv.take(i as int),
                ),
            decreases self.authors.len() - i,
        {
            s.append(" - ");
            s.append(self.authors[i].as_str());
            s.append("\n");
            proof {
                lemma_author_block_snoc(authors_dv.take(i as int), authors_dv[i as int]);
                assert(authors_dv.take(i + 1) =~= authors_dv.take(i as int).push(
                    authors_dv[i as int],
                ));
                assert(s@ =~= "Name: "@ + self.name@ + "\nAuthors:\n"@ + spec_author_block(
                    authors_dv.take(i + 1),
                ));
            }
            i += 1;
        }
        proof {
            assert(authors_dv.take(authors_dv.len() as int) =~= authors_dv);
        }
        s.append("Version ");
        let version_text = self.version.to_string();
        s.append(version_text.as_str());
        proof {
            assert(s@ =~= spec_metadata_text(*self));
        }
        s
    }
}

/// One line of the rendered author list.
pub open spec fn spec_author_line(author: Seq<char>) -> Seq<char> {
    " - "@ + author + "\n"@
}

/// The rendered author list, one line per author.
pub open spec fn spec_author_block(authors: Seq<Seq<char>>) -> Seq<char>
    decreases authors.len(),
{
    if authors.len() == 0 {
        Seq::<char>::empty()
    } else {
        spec_author_line(authors[0]) + spec_author_block(authors.drop_first())
    }
}

/// The rendered form of a metadata record.
pub open spec fn spec_metadata_text(m: Metadata) -> Seq<char> {
    "Name: "@ + m.name@ + "\nAuthors:\n"@ + spec_author_block(m.authors.deep_view()) + "Version "@
        + spec_version_text(m.version)
}

proof fn lemma_author_block_snoc(authors: Seq<Seq<char>>, author: Seq<char>)
    ensures
        spec_author_block(authors.push(author)) == spec_author_block(authors) + spec_author_line(
            author,
        ),
    decreases authors.len(),
{
    if authors.len() == 0 {
        reveal_with_fuel(spec_author_block, 2);
        assert(authors.push(author)[0] == author);
        assert(authors.push(author).drop_first() =~= Seq::<Seq<char>>::empty());
        assert(spec_author_block(authors.push(author)) =~= spec_author_block(authors)
            + spec_author_line(author));
    } else {
        lemma_author_block_snoc(authors.drop_first(), author);
        let p = authors.push(author);
        assert(p.len() == authors.len() + 1);
        assert(p[0] == authors[0]);
        assert(p.drop_first() =~= authors.drop_first().push(author));
        assert(spec_author_block(p) == spec_author_line(p[0]) + spec_author_block(p.drop_first()));
        assert(spec_author_block(authors) == spec_author_line(authors[0]) + spec_author_block(
            authors.drop_first(),
        ));
        assert(spec_author_block(p) =~= spec_author_block(authors) + spec_author_line(author));
    }
}

/// An ASCII letter's lower-case code; any other character's code unchanged.
pub open spec fn fold_code(c: char) -> u32 {
    if 'A' <= c && c <= 'Z' {
        ((c as u32) + 32) as u32
    } else {
        c as u32
    }
}

/// Equality up to ASCII case, as `str::eq_ignore_ascii_case` decides it.
pub open spec fn ascii_eq_ignore_case(a: Seq<char>, b: Seq<char>) -> bool {
    a.len() == b.len() && forall|i: int| 0 <= i < a.len() ==> fold_code(a[i]) == fold_code(b[i])
}

/// Compares two texts for equality up to ASCII case.
pub fn eq_ignore_ascii_case_str(a: &str, b: &str) -> (r: bool)
    ensures
        r == ascii_eq_ignore_case(a@, b@),
{
    let n = a.unicode_len();
    if n != b.unicode_len() {
        return false;
    }
    let mut i: usize = 0;
    while i < n
        invariant
            0 <= i <= n,
            n == a@.len(),
            n == b@.len(),
            forall|j: int| 0 <= j < i ==> fold_code(a@[j]) == fold_code(b@[j]),
        decreases n - i,
    {
        let ca = a.get_char(i) as u32;
        let cb = b.get_char(i) as u32;
        let fa = if ca >= 65 && ca <= 90 {
            ca + 32
        } else {
            ca
        };
        let fb = if cb >= 65 && cb <= 90 {
            cb + 32
        } else {
            cb
        };
        if fa != fb {
            return false;
        }
        i += 1;
    }
    true
}

/// A file name the metadata loader recognizes as a manifest.
pub open spec fn is_manifest_name(s: Seq<char>) -> bool {
    ||| ascii_eq_ignore_case(s, "metadata.toml"@)
    ||| ascii_eq_ignore_case(s, "meta.toml"@)
    ||| ascii_eq_ignore_case(s, "data.toml"@)
}

/// Checks one file name against the recognized manifest names.
pub fn is_manifest_file_name(name: &str) -> (r: bool)
    ensures
        r == is_manifest_name(name@),
{
    eq_ignore_ascii_case_str(name, "metadata.toml") || eq_ignore_ascii_case_str(name, "meta.toml")
        || eq_ignore_ascii_case_str(name, "data.toml")
}

/// The first directory entry holding a recognized manifest file name, or
/// `ManifestNotFound` when no entry matches.
pub fn manifest_entry_index(entries: &Vec<String>) -> (r: Result<usize, FetchMetadataError>)
    ensures
        r matches Ok(i) ==> i < entries.len() && is_manifest_name(entries[i as int]@) && (forall|
            j: int,
        |
            0 <= j < i ==> !is_manifest_name(entries[j]@)),
        r matches Err(e) ==> e is ManifestNotFound && (forall|j: int|
            0 <= j < entries.len() ==> !is_manifest_name(entries[j]@)),
{
    let mut i: usize = 0;
    while i < entries.len()
        invariant
            0 <= i <= entries.len(),
            forall|j: int| 0 <= j < i ==> !is_manifest_name(entries[j]@),
        decreases entries.len() - i,
    {
        if is_manifest_file_name(entries[i].as_str()) {
            return Ok(i);
        }
        i += 1;
    }
    Err(FetchMetadataError::ManifestNotFound)
}

} // verus!
