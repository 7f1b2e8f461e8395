//! Package records as an inventory reader hands them over, and the component
//! that each record becomes.

use crate::cyclonedx::{Component, ComponentModel, ExternalReference, ExternalReferenceModel};
use crate::cyclonedx::{License, LicenseChoice, REFERENCE_WEBSITE, TYPE_LIBRARY};
use crate::purl::{lemma_purl_round_trip, package_url, parsed_purl, purl_text, PackageUrlModel};
use crate::text::{all_tokens, join_with, lemma_tokens_of_joined, split_tokens, tokens};
use vstd::prelude::*;

verus! {

/// Model of a [`PackageRecord`].
pub struct PackageRecordModel {
    pub category: Seq<char>,
    pub name: Seq<char>,
    pub version: Seq<char>,
    pub description: Seq<char>,
    pub license: Seq<char>,
    pub homepage: Seq<char>,
    pub installed: Option<bool>,
    pub repository: Option<Seq<char>>,
}

impl PackageRecordModel {
    /// A record is valid if it names a package and a version.
    pub open spec fn is_valid(self) -> bool {
        self.name.len() > 0 && self.version.len() > 0
    }

    /// Whether the record enters the component list: every record does,
    /// unless its source reports it as not installed.
    pub open spec fn qualifies(self) -> bool {
        self.installed != Some(false)
    }
}

/// One package in one version, in the shape that every inventory source is
/// brought to.
#[derive(Debug)]
pub struct PackageRecord {
    /// The category (namespace) of the package; may be empty.
    pub category: String,
    /// The name of the package.
    pub name: String,
    /// The version; any text, not necessarily a semantic version.
    pub version: String,
    /// A description; may be empty.
    pub description: String,
    /// License names, separated by single spaces; may be empty.
    pub license: String,
    /// Homepage URLs, separated by single spaces; may be empty.
    pub homepage: String,
    /// Whether this version is installed. `None` where the source has no
    /// such notion; the record then counts as installed.
    pub installed: Option<bool>,
    /// The repository that the package came from, where the source knows it.
    pub repository: Option<String>,
}

impl View for PackageRecord {
    type V = PackageRecordModel;

    open spec fn view(&self) -> PackageRecordModel {
        PackageRecordModel {
            category: self.category@,
            name: self.name@,
            version: self.version@,
            description: self.description@,
            license: self.license@,
            homepage: self.homepage@,
            installed: self.installed,
            repository: self.repository.deep_view(),
        }
    }
}

impl DeepView for PackageRecord {
    type V = PackageRecordModel;

    open spec fn deep_view(&self) -> PackageRecordModel {
        self@
    }
}

impl PackageRecord {
    /// Whether the record names a package and a version.
    pub fn is_valid(&self) -> (valid: bool)
        ensures
            valid == self@.is_valid(),
    {
        !self.name.as_str().is_empty() && !self.version.as_str().is_empty()
    }

    /// Whether the record enters the component list.
    pub fn qualifies(&self) -> (listed: bool)
        ensures
            listed == self@.qualifies(),
    {
        match self.installed {
            Some(installed) => installed,
            None => true,
        }
    }
}

/// The reference that a homepage URL becomes: one of kind "website".
pub open spec fn website_reference(url: Seq<char>) -> ExternalReferenceModel {
    ExternalReferenceModel { reference_type: REFERENCE_WEBSITE@, url }
}

/// The references of a homepage field: one per token, in order.
pub open spec fn website_references(homepage: Seq<char>) -> Seq<ExternalReferenceModel> {
    tokens(homepage).map_values(|url: Seq<char>| website_reference(url))
}

/// The component that stands for a record: a library with the record's
/// category as group, one license entry per license token, one website
/// reference per homepage token and the record's package URL.
pub open spec fn component_of(record: PackageRecordModel) -> ComponentModel {
    ComponentModel {
        component_type: TYPE_LIBRARY@,
        group: record.category,
        name: record.name,
        version: record.version,
        description: record.description,
        licenses: tokens(record.license),
        purl: purl_text(record.category, record.name, record.version, record.repository),
        external_references: website_references(record.homepage),
    }
}

/// A record whose license field was written as `n` tokens with single spaces
/// between them gives a component with `n` license entries, each named by
/// its token as it was written.
pub proof fn lemma_license_entries(record: PackageRecordModel, names: Seq<Seq<char>>)
    requires
        all_tokens(names),
        record.license == join_with(names, ' '),
    ensures
        component_of(record).licenses == names,
{
    lemma_tokens_of_joined(names);
}

/// Reading the package URL of a record's component gives the record's
/// category, name, version and repository back, where no `/` stands in the
/// category, no `@` in the name and no `?` in the version.
pub proof fn lemma_record_purl_round_trip(record: PackageRecordModel)
    requires
        !record.category.contains('/'),
        !record.name.contains('@'),
        !record.version.contains('?'),
    ensures
        parsed_purl(component_of(record).purl) == Some(
            PackageUrlModel {
                category: record.category,
                name: record.name,
                version: record.version,
                repository: record.repository,
            },
        ),
{
    lemma_purl_round_trip(record.category, record.name, record.version, record.repository);
}

/// Reads a license field: one entry per token, each named by its token.
pub fn parse_licenses(license: &str) -> (entries: Vec<LicenseChoice>)
    ensures
        entries.deep_view() == tokens(license@),
{
    let names = split_tokens(license);
    let mut entries: Vec<LicenseChoice> = Vec::new();
    let mut i: usize = 0;
    while i < names.len()
        invariant
            i <= names.len(),
            entries.len() == i,
            forall|k: int| 0 <= k < i ==> (#[trigger] entries[k])@ == names[k]@,
        decreases names.len() - i,
    {
        entries.push(LicenseChoice { license: License { name: names[i].clone() } });
        i = i + 1;
    }
    entries
}

/// Reads a homepage field: one website reference per token.
pub fn parse_homepages(homepage: &str) -> (references: Vec<ExternalReference>)
    ensures
        references.deep_view() == website_references(homepage@),
{
    let urls = split_tokens(homepage);
    let mut references: Vec<ExternalReference> = Vec::new();
    let mut i: usize = 0;
    while i < urls.len()
        invariant
            i <= urls.len(),
            references.len() == i,
            forall|k: int| 0 <= k < i ==> (#[trigger] references[k])@ == website_reference(urls[k]@),
        decreases urls.len() - i,
    {
        references.push(
            ExternalReference {
                reference_type: String::from_str(REFERENCE_WEBSITE),
                url: urls[i].clone(),
            },
        );
        i = i + 1;
    }
    references
}

/// Builds the component that stands for a record.
pub fn component_from_record(record: &PackageRecord) -> (component: Component)
    ensures
        component@ == component_of(record@),
{
    let repository = match &record.repository {
        Some(r) => Some(r.as_str()),
        None => None,
    };
    Component {
        component_type: String::from_str(TYPE_LIBRARY),
        group: record.category.clone(),
        name: record.name.clone(),
        version: record.version.clone(),
        description: record.description.clone(),
        licenses: parse_licenses(record.license.as_str()),
        purl: package_url(
            record.category.as_str(),
            record.name.as_str(),
            record.version.as_str(),
            repository,
        ),
        external_references: parse_homepages(record.homepage.as_str()),
    }
}

} // verus!
