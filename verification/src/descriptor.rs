//! Reading a crate's name, version and license out of its `Cargo.toml`.
//!
//! The document is parsed by the `toml` crate. What this module knows of a
//! parsed table it knows through [`table_entries`]; the rules on which keys
//! must be there are its own.

use crate::manifest::{CargoToml, CargoTomlView};
use vstd::prelude::*;

verus! {

/// `toml::map::Map`, the table type of the `toml` crate.
#[verifier::external_type_specification]
#[verifier::external_body]
#[verifier::reject_recursive_types(K)]
#[verifier::reject_recursive_types(V)]
pub struct ExTomlMap<K, V>(toml::map::Map<K, V>);

/// `toml::Value`, any value of a TOML document: what a table maps its keys
/// to.
#[verifier::external_type_specification]
#[verifier::external_body]
pub struct ExTomlValue(toml::Value);

/// `toml::de::Error`, why a text is not a TOML document.
#[verifier::external_type_specification]
#[verifier::external_body]
pub struct ExTomlError(toml::de::Error);

/// What a table holds under one key, as far as a descriptor is read: a
/// string, another table, or a value of any other kind.
#[derive(Debug)]
pub enum Entry {
    Text(String),
    Section(toml::Table),
    Other,
}

/// The mathematical value of an [`Entry`].
pub ghost enum EntryView {
    Text(Seq<char>),
    Section(Map<Seq<char>, EntryView>),
    Other,
}

/// The entries of a parsed table, by key.
pub uninterp spec fn table_entries(table: toml::Table) -> Map<Seq<char>, EntryView>;

/// The entries of the root table of a TOML document, or `None` where the
/// text is not a TOML document.
pub uninterp spec fn parsed_document(text: Seq<char>) -> Option<Map<Seq<char>, EntryView>>;

impl View for Entry {
    type V = EntryView;

    open spec fn view(&self) -> EntryView {
        match self {
            Entry::Text(text) => EntryView::Text(text@),
            Entry::Section(table) => EntryView::Section(table_entries(*table)),
            Entry::Other => EntryView::Other,
        }
    }
}

/// Parses a TOML document with `toml::Table`'s `FromStr`. The claim: the
/// outcome depends on the text alone, and the table that comes back holds
/// the entries of the document.
#[verifier::external_body]
fn parse_table(text: &str) -> (parsed: Result<toml::Table, toml::de::Error>)
    ensures
        match parsed {
            Ok(table) => parsed_document(text@) == Some(table_entries(table)),
            Err(_) => parsed_document(text@) is None,
        },
{
    text.parse::<toml::Table>()
}

/// Looks a key up with `toml::map::Map::get` and copies what is found. The
/// claim: the entry is there exactly if the table has the key, and it is the
/// table's entry of that key.
#[verifier::external_body]
fn table_get(table: &toml::Table, key: &str) -> (entry: Option<Entry>)
    ensures
        entry is Some <==> table_entries(*table).dom().contains(key@),
        entry matches Some(found) ==> found@ == table_entries(*table)[key@],
{
    match table.get(key) {
        None => None,
        Some(toml::Value::String(text)) => Some(Entry::Text(text.clone())),
        Some(toml::Value::Table(section)) => Some(Entry::Section(section.clone())),
        Some(toml::Value::Integer(_)) => Some(Entry::Other),
        Some(toml::Value::Float(_)) => Some(Entry::Other),
        Some(toml::Value::Boolean(_)) => Some(Entry::Other),
        Some(toml::Value::Datetime(_)) => Some(Entry::Other),
        Some(toml::Value::Array(_)) => Some(Entry::Other),
    }
}

/// Why a `Cargo.toml` does not describe a package.
#[derive(Clone, Copy, Debug, PartialEq, Eq, Structural)]
pub enum DescriptorError {
    /// The text is not a TOML document.
    Malformed,
    /// The document has no `package` table.
    NoPackage,
    /// The package has no name, or one that is not a string.
    Name,
    /// The package has no version, or one that is not a string.
    Version,
    /// The package has a license that is not a string.
    License,
}

/// The package of a descriptor, and whether its license had to be made up.
#[derive(Clone, Debug, PartialEq, Eq)]
pub struct Described {
    pub package: CargoToml,
    pub license_defaulted: bool,
}

/// The mathematical value of a [`Described`].
pub ghost struct DescribedView {
    pub package: CargoTomlView,
    pub license_defaulted: bool,
}

impl View for Described {
    type V = DescribedView;

    open spec fn view(&self) -> DescribedView {
        DescribedView { package: self.package@, license_defaulted: self.license_defaulted }
    }
}

/// The license of a package that names none.
pub open spec fn unknown_license() -> Seq<char> {
    "Unknown"@
}

/// The entry of `key` in `entries`, if there is one.
pub open spec fn lookup(entries: Map<Seq<char>, EntryView>, key: Seq<char>) -> Option<EntryView> {
    if entries.dom().contains(key) {
        Some(entries[key])
    } else {
        None
    }
}

/// The package that the three entries describe. The name and the version
/// must be strings. A license that is there must be a string; one that is
/// not there is [`unknown_license`], and the outcome says so.
pub open spec fn package_of(
    name: Option<EntryView>,
    version: Option<EntryView>,
    license: Option<EntryView>,
) -> Result<DescribedView, DescriptorError> {
    if !(name matches Some(EntryView::Text(_))) {
        Err(DescriptorError::Name)
    } else if !(version matches Some(EntryView::Text(_))) {
        Err(DescriptorError::Version)
    } else if license is Some && !(license matches Some(EntryView::Text(_))) {
        Err(DescriptorError::License)
    } else {
        Ok(
            DescribedView {
                package: CargoTomlView {
                    version: version->0->Text_0,
                    name: name->0->Text_0,
                    license: match license {
                        Some(EntryView::Text(text)) => text,
                        _ => unknown_license(),
                    },
                },
                license_defaulted: license is None,
            },
        )
    }
}

/// The package that a root table describes: the one of the entries `name`,
/// `version` and `license` of its `package` table.
pub open spec fn package_in(
    root: Map<Seq<char>, EntryView>,
) -> Result<DescribedView, DescriptorError> {
    match lookup(root, "package"@) {
        Some(EntryView::Section(package)) => package_of(
            lookup(package, "name"@),
            lookup(package, "version"@),
            lookup(package, "license"@),
        ),
        _ => Err(DescriptorError::NoPackage),
    }
}

/// The package that a document describes, if it is one.
pub open spec fn described(
    document: Option<Map<Seq<char>, EntryView>>,
) -> Result<DescribedView, DescriptorError> {
    match document {
        None => Err(DescriptorError::Malformed),
        Some(root) => package_in(root),
    }
}

/// The value of an entry that may be missing.
pub open spec fn entry_view(entry: Option<Entry>) -> Option<EntryView> {
    match entry {
        Some(entry) => Some(entry@),
        None => None,
    }
}

/// Whether an outcome is the one that the model gives.
pub open spec fn agrees(
    outcome: Result<Described, DescriptorError>,
    model: Result<DescribedView, DescriptorError>,
) -> bool {
    match outcome {
        Ok(described) => model == Ok::<DescribedView, DescriptorError>(described@),
        Err(error) => model == Err::<DescribedView, DescriptorError>(error),
    }
}

impl DescriptorError {
    /// The one-line cause, as the operator reads it.
    pub fn message(&self) -> (text: String)
        ensures
            text@ == match *self {
                DescriptorError::Malformed => "Could not parse Cargo.toml. Please check if Cargo.toml is correct."@,
                DescriptorError::NoPackage => "Could not find package section. Please check if Cargo.toml is correct."@,
                DescriptorError::Name => "Could not parse project name. Please check if Cargo.toml is correct."@,
                DescriptorError::Version => "Could not parse project version. Please check if Cargo.toml is correct."@,
                DescriptorError::License => "Could not parse project license. Please check if Cargo.toml is correct."@,
            },
    {
        match self {
            DescriptorError::Malformed => "Could not parse Cargo.toml. Please check if Cargo.toml is correct.".to_owned(),
            DescriptorError::NoPackage => "Could not find package section. Please check if Cargo.toml is correct.".to_owned(),
            DescriptorError::Name => "Could not parse project name. Please check if Cargo.toml is correct.".to_owned(),
            DescriptorError::Version => "Could not parse project version. Please check if Cargo.toml is correct.".to_owned(),
            DescriptorError::License => "Could not parse project license. Please check if Cargo.toml is correct.".to_owned(),
        }
    }
}

/// Makes the package out of the three entries of a package table.
pub fn package_from_entries(
    name: Option<Entry>,
    version: Option<Entry>,
    license: Option<Entry>,
) -> (outcome: Result<Described, DescriptorError>)
    ensures
        agrees(outcome, package_of(entry_view(name), entry_view(version), entry_view(license))),
{
    let name = match name {
        Some(Entry::Text(text)) => text,
        _ => { return Err(DescriptorError::Name); },
    };
    let version = match version {
        Some(Entry::Text(text)) => text,
        _ => { return Err(DescriptorError::Version); },
    };
    let (license, license_defaulted) = match license {
        Some(Entry::Text(text)) => (text, false),
        Some(_) => { return Err(DescriptorError::License); },
        None => ("Unknown".to_owned(), true),
    };
    Ok(Described { package: CargoToml { version, name, license }, license_defaulted })
}

/// Finds the package that the root table of a document describes.
pub fn package_from_table(root: &toml::Table) -> (outcome: Result<Described, DescriptorError>)
    ensures
        agrees(outcome, package_in(table_entries(*root))),
{
    let package = match table_get(root, "package") {
        Some(Entry::Section(table)) => table,
        _ => { return Err(DescriptorError::NoPackage); },
    };
    package_from_entries(
        table_get(&package, "name"),
        table_get(&package, "version"),
        table_get(&package, "license"),
    )
}

/// Reads the package that the text of a `Cargo.toml` describes.
pub fn read_package(text: &str) -> (outcome: Result<Described, DescriptorError>)
    ensures
        agrees(outcome, described(parsed_document(text@))),
{
    match parse_table(text) {
        Ok(root) => package_from_table(&root),
        Err(_) => Err(DescriptorError::Malformed),
    }
}

} // verus!
