//! The assembly pipeline: the described component of a document, the
//! component list that a sequence of records becomes, and the two together.

use crate::cyclonedx::{new_document, serial_id_of};
use crate::cyclonedx::{Bom, BomModel, Component, ComponentModel, MetadataModel};
use crate::cyclonedx::{GENERATOR_VERSION, TYPE_APPLICATION};
use crate::record::{component_from_record, component_of, PackageRecord, PackageRecordModel};
use crate::stamp::{is_utc_timestamp, is_uuid_v4_text};
use vstd::prelude::*;

verus! {

/// The given text, or the empty text where none is given.
pub open spec fn text_or_empty(text: Option<Seq<char>>) -> Seq<char> {
    match text {
        Some(t) => t,
        None => Seq::empty(),
    }
}

/// The component that a document describes. There is one as soon as a group,
/// a name or a version is given: an application with the given fields, an
/// empty text for each field that is not given, and nothing else.
pub open spec fn top_level_component(
    group: Option<Seq<char>>,
    name: Option<Seq<char>>,
    version: Option<Seq<char>>,
) -> Option<ComponentModel> {
    if group is None && name is None && version is None {
        None
    } else {
        Some(
            ComponentModel {
                component_type: TYPE_APPLICATION@,
                group: text_or_empty(group),
                name: text_or_empty(name),
                version: text_or_empty(version),
                description: Seq::empty(),
                licenses: Seq::empty(),
                purl: Seq::empty(),
                external_references: Seq::empty(),
            },
        )
    }
}

/// The document with its described component set from the given fields; the
/// document itself where none is given.
pub open spec fn with_top_level(
    bom: BomModel,
    group: Option<Seq<char>>,
    name: Option<Seq<char>>,
    version: Option<Seq<char>>,
) -> BomModel {
    match top_level_component(group, name, version) {
        Some(component) => BomModel {
            metadata: MetadataModel { component: Some(component), ..bom.metadata },
            ..bom
        },
        None => bom,
    }
}

/// The predicate that keeps the records that enter the component list.
pub open spec fn qualifying() -> spec_fn(PackageRecordModel) -> bool {
    |record: PackageRecordModel| record.qualifies()
}

/// The components that a sequence of records becomes: one for each record
/// that qualifies, in the order of the records.
pub open spec fn listed(records: Seq<PackageRecordModel>) -> Seq<ComponentModel> {
    records.filter(qualifying()).map_values(|record: PackageRecordModel| component_of(record))
}

/// The document after assembly: unchanged where only the described component
/// is wanted, else with the listed components appended.
pub open spec fn assembled(
    bom: BomModel,
    records: Seq<PackageRecordModel>,
    only_top_level: bool,
) -> BomModel {
    if only_top_level {
        bom
    } else {
        BomModel { components: bom.components + listed(records), ..bom }
    }
}

/// The tool version that a document lists: the given one, or the
/// generator's own where none is given.
pub open spec fn listed_tool_version(tool_version: Option<Seq<char>>) -> Seq<char> {
    match tool_version {
        Some(v) => v,
        None => GENERATOR_VERSION@,
    }
}

/// The whole document for given identity, time, tool version, described
/// component and records.
pub open spec fn document_of(
    serial_id: Seq<char>,
    timestamp: Seq<char>,
    tool_version: Seq<char>,
    group: Option<Seq<char>>,
    name: Option<Seq<char>>,
    version: Option<Seq<char>>,
    records: Seq<PackageRecordModel>,
    only_top_level: bool,
) -> BomModel {
    assembled(
        with_top_level(new_document(serial_id, timestamp, tool_version), group, name, version),
        records,
        only_top_level,
    )
}

/// Listing one record more appends its component if the record qualifies
/// and changes nothing if it does not.
pub proof fn lemma_listed_push(records: Seq<PackageRecordModel>, record: PackageRecordModel)
    ensures
        listed(records.push(record)) == if record.qualifies() {
            listed(records).push(component_of(record))
        } else {
            listed(records)
        },
{
    reveal(Seq::filter);
    assert(records.push(record).drop_last() =~= records);
}

/// Order is kept: the components of two runs of records, one after the
/// other, are the components of the first run followed by those of the
/// second.
pub proof fn lemma_listed_concat(first: Seq<PackageRecordModel>, second: Seq<PackageRecordModel>)
    ensures
        listed(first + second) == listed(first) + listed(second),
{
    Seq::filter_distributes_over_add(first, second, qualifying());
}

/// Every listed component is a library.
pub proof fn lemma_listed_are_libraries(records: Seq<PackageRecordModel>)
    ensures
        forall|i: int|
            0 <= i < listed(records).len() ==> (#[trigger] listed(records)[i]).is_library(),
{
}

/// Where every record qualifies, the list holds one component per record,
/// the component at each position standing for the record at that position.
pub proof fn lemma_listed_all(records: Seq<PackageRecordModel>)
    requires
        forall|i: int| 0 <= i < records.len() ==> (#[trigger] records[i]).qualifies(),
    ensures
        listed(records).len() == records.len(),
        forall|i: int| 0 <= i < records.len() ==> listed(records)[i] == component_of(records[i]),
    decreases records.len(),
{
    if records.len() > 0 {
        let before = records.drop_last();
        lemma_listed_all(before);
        lemma_listed_push(before, records.last());
        assert(before.push(records.last()) =~= records);
    } else {
        lemma_listed_none(records);
    }
}

/// Where no record qualifies, the list is empty.
pub proof fn lemma_listed_none(records: Seq<PackageRecordModel>)
    requires
        forall|i: int| 0 <= i < records.len() ==> !(#[trigger] records[i]).qualifies(),
    ensures
        listed(records) == Seq::<ComponentModel>::empty(),
    decreases records.len(),
{
    if records.len() > 0 {
        let before = records.drop_last();
        lemma_listed_none(before);
        lemma_listed_push(before, records.last());
        assert(before.push(records.last()) =~= records);
    }
}

fn text_or_default(text: Option<String>) -> (out: String)
    ensures
        out@ == text_or_empty(text.deep_view()),
{
    match text {
        Some(t) => t,
        None => String::new(),
    }
}

/// Sets the component that the document describes. Where a group, a name or
/// a version is given, the document gets an application component with the
/// given fields, empty texts for the others and no license, identifier or
/// reference. Where none is given, the document stays as it is.
pub fn attach_top_level_component(
    bom: &mut Bom,
    group: Option<String>,
    name: Option<String>,
    version: Option<String>,
)
    ensures
        final(bom)@ == with_top_level(
            old(bom)@,
            group.deep_view(),
            name.deep_view(),
            version.deep_view(),
        ),
        old(bom)@.well_formed() ==> final(bom)@.well_formed(),
{
    if group.is_some() || name.is_some() || version.is_some() {
        let component = Component {
            component_type: String::from_str(TYPE_APPLICATION),
            group: text_or_default(group),
            name: text_or_default(name),
            version: text_or_default(version),
            description: String::new(),
            licenses: Vec::new(),
            purl: String::new(),
            external_references: Vec::new(),
        };
        assert(component@.licenses =~= Seq::empty());
        assert(component@.external_references =~= Seq::empty());
        bom.metadata.component = Some(component);
    }
}

/// Appends one component for each qualifying record to the document's
/// component list, in the order of the records. With `only_top_level` set the
/// records are not looked at and the document comes back unchanged.
pub fn assemble(bom: Bom, records: &Vec<PackageRecord>, only_top_level: bool) -> (out: Bom)
    ensures
        out@ == assembled(bom@, records.deep_view(), only_top_level),
        only_top_level ==> out@ == bom@,
        bom@.well_formed() ==> out@.well_formed(),
{
    if only_top_level {
        return bom;
    }
    let ghost start = bom@;
    let ghost all = records.deep_view();
    let mut out = bom;
    let mut i: usize = 0;
    proof {
        lemma_listed_none(all.take(0));
    }
    while i < records.len()
        invariant
            i <= records.len(),
            all == records.deep_view(),
            out@ == (BomModel { components: start.components + listed(all.take(i as int)), ..start }),
        decreases records.len() - i,
    {
        proof {
            lemma_listed_push(all.take(i as int), all[i as int]);
            assert(all.take(i + 1) =~= all.take(i as int).push(all[i as int]));
        }
        if records[i].qualifies() {
            let ghost before = out.components.deep_view();
            let component = component_from_record(&records[i]);
            out.components.push(component);
            assert(out.components.deep_view() =~= before.push(component@));
        }
        i = i + 1;
    }
    proof {
        assert(all.take(i as int) =~= all);
        lemma_listed_are_libraries(all);
    }
    out
}

/// Builds the whole document: a new document that lists `tool_version` (the
/// generator's own version where none is given), the described component
/// from `group`, `name` and `version`, and the components of `records`.
///
/// Identity and timestamp are new with every call; everything else is fixed
/// by the arguments. With `only_top_level` set the component list is empty.
pub fn generate_bom(
    records: &Vec<PackageRecord>,
    group: Option<String>,
    name: Option<String>,
    version: Option<String>,
    only_top_level: bool,
    tool_version: Option<String>,
) -> (bom: Bom)
    ensures
        is_uuid_v4_text(serial_id_of(bom@)),
        is_utc_timestamp(bom@.metadata.timestamp),
        bom@ == document_of(
            serial_id_of(bom@),
            bom@.metadata.timestamp,
            listed_tool_version(tool_version.deep_view()),
            group.deep_view(),
            name.deep_view(),
            version.deep_view(),
            records.deep_view(),
            only_top_level,
        ),
        only_top_level ==> bom@.components == Seq::<ComponentModel>::empty(),
        bom@.well_formed(),
{
    let mut bom = match tool_version {
        Some(v) => Bom::with_tool_version(v),
        None => Bom::new(),
    };
    attach_top_level_component(&mut bom, group, name, version);
    assemble(bom, records, only_top_level)
}

} // verus!
