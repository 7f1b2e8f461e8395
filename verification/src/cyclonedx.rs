//! The CycloneDX document model: the bill of materials, its metadata and its
//! components, each with the mathematical model that the contracts speak of.

use crate::stamp::{current_timestamp, fresh_serial_id, is_utc_timestamp, is_uuid_v4_text};
use crate::text::has_prefix;
use vstd::prelude::*;

verus! {

/// The marker of the schema family, written to `bomFormat`.
pub const BOM_FORMAT: &'static str = "CycloneDX";

/// The schema revision that every document of this library follows.
pub const SPEC_VERSION: &'static str = "1.7";

/// What stands before the identity in a serial number.
pub const SERIAL_PREFIX: &'static str = "urn:uuid:";

/// Vendor and name under which this generator lists itself as a tool.
pub const GENERATOR_NAME: &'static str = "cyclonedx-gentoo";

/// The generator's own version, listed when the caller names no other.
pub const GENERATOR_VERSION: &'static str = "0.8.15";

/// Type of the component that a document describes.
pub const TYPE_APPLICATION: &'static str = "application";

/// Type of every component that stands for an inventory entry.
pub const TYPE_LIBRARY: &'static str = "library";

/// Kind of an external reference that was taken from a homepage field.
pub const REFERENCE_WEBSITE: &'static str = "website";

/// Details about a license.
#[derive(Debug)]
pub struct License {
    /// The name of the license.
    pub name: String,
}

impl View for License {
    type V = Seq<char>;

    /// A license is modelled by its name.
    open spec fn view(&self) -> Seq<char> {
        self.name@
    }
}

impl DeepView for License {
    type V = Seq<char>;

    open spec fn deep_view(&self) -> Seq<char> {
        self@
    }
}

/// A choice of license for a component.
#[derive(Debug)]
pub struct LicenseChoice {
    /// The license details.
    pub license: License,
}

impl View for LicenseChoice {
    type V = Seq<char>;

    /// A license entry is modelled by the name of its license.
    open spec fn view(&self) -> Seq<char> {
        self.license@
    }
}

impl DeepView for LicenseChoice {
    type V = Seq<char>;

    open spec fn deep_view(&self) -> Seq<char> {
        self@
    }
}

/// Model of an [`ExternalReference`].
pub struct ExternalReferenceModel {
    pub reference_type: Seq<char>,
    pub url: Seq<char>,
}

/// A pointer from a component to a resource outside the document.
#[derive(Debug)]
pub struct ExternalReference {
    /// The kind of resource, such as "website".
    pub reference_type: String,
    /// Where the resource is found.
    pub url: String,
}

impl View for ExternalReference {
    type V = ExternalReferenceModel;

    open spec fn view(&self) -> ExternalReferenceModel {
        ExternalReferenceModel { reference_type: self.reference_type@, url: self.url@ }
    }
}

impl DeepView for ExternalReference {
    type V = ExternalReferenceModel;

    open spec fn deep_view(&self) -> ExternalReferenceModel {
        self@
    }
}

/// Model of a [`Component`].
pub struct ComponentModel {
    pub component_type: Seq<char>,
    pub group: Seq<char>,
    pub name: Seq<char>,
    pub version: Seq<char>,
    pub description: Seq<char>,
    /// The names of the license entries, in order.
    pub licenses: Seq<Seq<char>>,
    pub purl: Seq<char>,
    pub external_references: Seq<ExternalReferenceModel>,
}

impl ComponentModel {
    /// Whether the component stands for an inventory entry.
    pub open spec fn is_library(self) -> bool {
        self.component_type == TYPE_LIBRARY@
    }

    /// Whether the component is of the type that a document describes.
    pub open spec fn is_application(self) -> bool {
        self.component_type == TYPE_APPLICATION@
    }
}

/// Represents a component (e.g., a package or application) in the BOM.
///
/// A field without content holds the empty string or the empty list; the
/// model has no separate "absent" state for it.
#[derive(Debug)]
pub struct Component {
    /// The type of the component (e.g., "application", "library").
    pub component_type: String,
    /// The group or namespace of the component.
    pub group: String,
    /// The name of the component.
    pub name: String,
    /// The version of the component.
    pub version: String,
    /// A brief description of the component.
    pub description: String,
    /// The licenses associated with the component.
    pub licenses: Vec<LicenseChoice>,
    /// The Package URL (purl) for the component.
    pub purl: String,
    /// Resources outside the document that belong to the component.
    pub external_references: Vec<ExternalReference>,
}

impl View for Component {
    type V = ComponentModel;

    open spec fn view(&self) -> ComponentModel {
        ComponentModel {
            component_type: self.component_type@,
            group: self.group@,
            name: self.name@,
            version: self.version@,
            description: self.description@,
            licenses: self.licenses.deep_view(),
            purl: self.purl@,
            external_references: self.external_references.deep_view(),
        }
    }
}

impl DeepView for Component {
    type V = ComponentModel;

    open spec fn deep_view(&self) -> ComponentModel {
        self@
    }
}

/// Model of a [`Tool`].
pub struct ToolModel {
    pub vendor: Seq<char>,
    pub name: Seq<char>,
    pub version: Seq<char>,
}

/// Information about a tool used to generate the BOM.
#[derive(Debug)]
pub struct Tool {
    /// The vendor of the tool.
    pub vendor: String,
    /// The name of the tool.
    pub name: String,
    /// The version of the tool.
    pub version: String,
}

impl View for Tool {
    type V = ToolModel;

    open spec fn view(&self) -> ToolModel {
        ToolModel { vendor: self.vendor@, name: self.name@, version: self.version@ }
    }
}

impl DeepView for Tool {
    type V = ToolModel;

    open spec fn deep_view(&self) -> ToolModel {
        self@
    }
}

/// Model of a [`Metadata`] section.
pub struct MetadataModel {
    pub timestamp: Seq<char>,
    pub tools: Seq<ToolModel>,
    pub component: Option<ComponentModel>,
}

/// Metadata about the Bill of Materials.
#[derive(Debug)]
pub struct Metadata {
    /// The timestamp when the BOM was created.
    pub timestamp: String,
    /// The tools used to generate the BOM.
    pub tools: Vec<Tool>,
    /// The main component that this BOM describes.
    pub component: Option<Component>,
}

impl View for Metadata {
    type V = MetadataModel;

    open spec fn view(&self) -> MetadataModel {
        MetadataModel {
            timestamp: self.timestamp@,
            tools: self.tools.deep_view(),
            component: self.component.deep_view(),
        }
    }
}

impl DeepView for Metadata {
    type V = MetadataModel;

    open spec fn deep_view(&self) -> MetadataModel {
        self@
    }
}

/// Model of a [`Bom`].
pub struct BomModel {
    pub bom_format: Seq<char>,
    pub spec_version: Seq<char>,
    pub serial_number: Seq<char>,
    pub version: u32,
    pub metadata: MetadataModel,
    pub components: Seq<ComponentModel>,
}

impl BomModel {
    /// What holds of every document that this library creates and fills: the
    /// two constants, a serial number with its prefix, the document version
    /// 1, at least one tool, an application as the described component, if
    /// there is one, and libraries only in the component list.
    pub open spec fn well_formed(self) -> bool {
        &&& self.bom_format == BOM_FORMAT@
        &&& self.spec_version == SPEC_VERSION@
        &&& has_prefix(self.serial_number, SERIAL_PREFIX@)
        &&& self.version == 1
        &&& self.metadata.tools.len() >= 1
        &&& match self.metadata.component {
            Some(component) => component.is_application(),
            None => true,
        }
        &&& forall|i: int|
            0 <= i < self.components.len() ==> (#[trigger] self.components[i]).is_library()
    }
}

/// Represents the top-level CycloneDX Bill of Materials (BOM) structure.
#[derive(Debug)]
pub struct Bom {
    /// The format of the BOM, usually "CycloneDX".
    pub bom_format: String,
    /// The version of the CycloneDX specification.
    pub spec_version: String,
    /// A unique serial number for the BOM.
    pub serial_number: String,
    /// The version of this specific BOM instance.
    pub version: u32,
    /// Metadata about the BOM, including creation time and tools used.
    pub metadata: Metadata,
    /// A list of components included in the BOM.
    pub components: Vec<Component>,
}

impl View for Bom {
    type V = BomModel;

    open spec fn view(&self) -> BomModel {
        BomModel {
            bom_format: self.bom_format@,
            spec_version: self.spec_version@,
            serial_number: self.serial_number@,
            version: self.version,
            metadata: self.metadata@,
            components: self.components.deep_view(),
        }
    }
}

impl DeepView for Bom {
    type V = BomModel;

    open spec fn deep_view(&self) -> BomModel {
        self@
    }
}

/// The document as it stands right after creation: the constants, the given
/// identity and creation time, this generator as the only tool, no described
/// component and no components.
pub open spec fn new_document(
    serial_id: Seq<char>,
    timestamp: Seq<char>,
    tool_version: Seq<char>,
) -> BomModel {
    BomModel {
        bom_format: BOM_FORMAT@,
        spec_version: SPEC_VERSION@,
        serial_number: SERIAL_PREFIX@ + serial_id,
        version: 1,
        metadata: MetadataModel {
            timestamp,
            tools: seq![
                ToolModel { vendor: GENERATOR_NAME@, name: GENERATOR_NAME@, version: tool_version },
            ],
            component: None,
        },
        components: Seq::empty(),
    }
}

/// The identity in a document's serial number: what follows the prefix.
pub open spec fn serial_id_of(bom: BomModel) -> Seq<char> {
    bom.serial_number.skip(SERIAL_PREFIX@.len() as int)
}

/// Whether `bom` is a newly created document that lists `tool_version`:
/// it carries some version 4 UUID as its identity and some UTC time, and
/// everything else about it is fixed.
pub open spec fn is_new_document(bom: BomModel, tool_version: Seq<char>) -> bool {
    &&& is_uuid_v4_text(serial_id_of(bom))
    &&& is_utc_timestamp(bom.metadata.timestamp)
    &&& bom == new_document(serial_id_of(bom), bom.metadata.timestamp, tool_version)
}

/// A document is well formed right after creation, whatever its identity.
pub proof fn lemma_new_document_well_formed(
    serial_id: Seq<char>,
    timestamp: Seq<char>,
    tool_version: Seq<char>,
)
    ensures
        new_document(serial_id, timestamp, tool_version).well_formed(),
{
    let bom = new_document(serial_id, timestamp, tool_version);
    assert(bom.serial_number.take(SERIAL_PREFIX@.len() as int) =~= SERIAL_PREFIX@);
}

/// Any two documents of this library, such as the results of two successive
/// builds, agree in the format marker, the schema version and the document
/// version, whatever their identities, creation times and contents are.
pub proof fn lemma_documents_share_constants(first: BomModel, second: BomModel)
    requires
        first.well_formed(),
        second.well_formed(),
    ensures
        first.bom_format == second.bom_format,
        first.spec_version == second.spec_version,
        first.version == second.version,
{
}

impl Bom {
    /// Creates a new `Bom` with default metadata, including a unique serial
    /// number and the current timestamp. It lists the generator's own version.
    pub fn new() -> (bom: Bom)
        ensures
            is_new_document(bom@, GENERATOR_VERSION@),
            bom@.well_formed(),
    {
        Bom::with_tool_version(String::from_str(GENERATOR_VERSION))
    }

    /// Creates a new `Bom` with a specific tool version.
    ///
    /// Identity and timestamp are taken anew on every call, so two calls give
    /// documents that agree in everything but these two.
    pub fn with_tool_version(tool_version: String) -> (bom: Bom)
        ensures
            is_new_document(bom@, tool_version@),
            bom@.well_formed(),
    {
        let serial_id = fresh_serial_id();
        let timestamp = current_timestamp();
        let bom = Bom::with_identity(serial_id.as_str(), timestamp, tool_version);
        assert(serial_id_of(bom@) =~= serial_id@);
        bom
    }

    /// Creates the document for a given identity and creation time.
    ///
    /// Nothing here depends on chance or on the clock: the same arguments
    /// give the same document.
    pub fn with_identity(serial_id: &str, timestamp: String, tool_version: String) -> (bom: Bom)
        ensures
            bom@ == new_document(serial_id@, timestamp@, tool_version@),
            bom@.well_formed(),
    {
        proof {
            lemma_new_document_well_formed(serial_id@, timestamp@, tool_version@);
        }
        let mut serial_number = String::from_str(SERIAL_PREFIX);
        serial_number.append(serial_id);
        let mut tools: Vec<Tool> = Vec::new();
        tools.push(
            Tool {
                vendor: String::from_str(GENERATOR_NAME),
                name: String::from_str(GENERATOR_NAME),
                version: tool_version,
            },
        );
        let bom = Bom {
            bom_format: String::from_str(BOM_FORMAT),
            spec_version: String::from_str(SPEC_VERSION),
            serial_number,
            version: 1,
            metadata: Metadata { timestamp, tools, component: None },
            components: Vec::new(),
        };
        assert(bom@.metadata.tools =~= new_document(
            serial_id@,
            timestamp@,
            tool_version@,
        ).metadata.tools);
        assert(bom@.components =~= Seq::empty());
        bom
    }
}

} // verus!
