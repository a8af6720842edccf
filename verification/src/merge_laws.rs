//! What holds of merging, whatever the sources.

use vstd::prelude::*;
use crate::slots::{first_of, first_present, merged, ConfigSlots, Field};

verus! {

/// Whether the source at `index` is the first of `sources` in which the slot
/// of `field` is present.
pub open spec fn is_first_with(sources: Seq<ConfigSlots>, field: Field, index: int) -> bool {
    &&& 0 <= index < sources.len()
    &&& sources[index].slot(field) is Some
    &&& forall|before: int| 0 <= before < index ==> sources[before].slot(field) is None
}

/// A field that is present in some source is resolved to its value in the
/// first such source.
pub proof fn first_present_at(sources: Seq<ConfigSlots>, field: Field, index: int)
    requires
        is_first_with(sources, field, index),
    ensures
        first_present(sources, field) == sources[index].slot(field),
    decreases sources.len(),
{
    if index > 0 {
        assert(sources[0].slot(field) is None);
        let rest = sources.drop_first();
        assert forall|before: int| 0 <= before < index - 1 implies rest[before].slot(
            field,
        ) is None by {
            assert(rest[before] == sources[before + 1]);
        }
        first_present_at(rest, field, index - 1);
    }
}

/// A field is resolved to a value only where a source has it: there is then
/// a first source in which it is present.
pub proof fn first_present_has_source(sources: Seq<ConfigSlots>, field: Field) -> (index: int)
    requires
        first_present(sources, field) is Some,
    ensures
        is_first_with(sources, field, index),
    decreases sources.len(),
{
    if sources[0].slot(field) is Some {
        0
    } else {
        let rest = sources.drop_first();
        let index = first_present_has_source(rest, field);
        assert forall|before: int| 0 <= before < index + 1 implies sources[before].slot(
            field,
        ) is None by {
            if before > 0 {
                assert(sources[before] == rest[before - 1]);
            }
        }
        index + 1
    }
}

/// A field is resolved to absent exactly where it is absent in every source.
pub proof fn first_present_absent(sources: Seq<ConfigSlots>, field: Field)
    ensures
        first_present(sources, field) is None <==> forall|index: int|
            0 <= index < sources.len() ==> sources[index].slot(field) is None,
    decreases sources.len(),
{
    if first_present(sources, field) is Some {
        first_present_has_source(sources, field);
    } else if sources.len() > 0 {
        let rest = sources.drop_first();
        first_present_absent(rest, field);
        assert forall|index: int| 0 <= index < sources.len() implies sources[index].slot(
            field,
        ) is None by {
            if index > 0 {
                assert(sources[index] == rest[index - 1]);
            }
        }
    }
}

/// Two records with the same slot for every field are the same record.
pub proof fn slots_determine_record(a: ConfigSlots, b: ConfigSlots)
    requires
        forall|field: Field| a.slot(field) == b.slot(field),
    ensures
        a == b,
{
    assert(a.slot(Field::Storage) == b.slot(Field::Storage));
    assert(a.slot(Field::Transport) == b.slot(Field::Transport));
    assert(a.slot(Field::CertDir) == b.slot(Field::CertDir));
    assert(a.slot(Field::CaCerts) == b.slot(Field::CaCerts));
    assert(a.slot(Field::ClientCert) == b.slot(Field::ClientCert));
    assert(a.slot(Field::ClientKey) == b.slot(Field::ClientKey));
    assert(a.slot(Field::ServerCert) == b.slot(Field::ServerCert));
    assert(a.slot(Field::ServerKey) == b.slot(Field::ServerKey));
    assert(a.slot(Field::ServiceEndpoint) == b.slot(Field::ServiceEndpoint));
    assert(a.slot(Field::NetworkEndpoint) == b.slot(Field::NetworkEndpoint));
    assert(a.slot(Field::Peers) == b.slot(Field::Peers));
    assert(a.slot(Field::NodeId) == b.slot(Field::NodeId));
    assert(a.slot(Field::Bind) == b.slot(Field::Bind));
    assert(a.slot(Field::Database) == b.slot(Field::Database));
    assert(a.slot(Field::RegistryBackend) == b.slot(Field::RegistryBackend));
    assert(a.slot(Field::RegistryFile) == b.slot(Field::RegistryFile));
    assert(a.slot(Field::HeartbeatInterval) == b.slot(Field::HeartbeatInterval));
    assert(a.slot(Field::AdminServiceCoordinatorTimeout) == b.slot(
        Field::AdminServiceCoordinatorTimeout,
    ));
    assert(a.slot(Field::StateDir) == b.slot(Field::StateDir));
}

/// A slot of an overlay is the upper record's where it is present there, and
/// the lower record's otherwise.
pub proof fn overlay_slot(upper: ConfigSlots, lower: ConfigSlots, field: Field)
    ensures
        upper.overlay(lower).slot(field) == first_of(upper.slot(field), lower.slot(field)),
{
}

/// Laying a record over the record that says nothing, or that record over
/// it, leaves the record.
pub proof fn overlay_absent(record: ConfigSlots)
    ensures
        record.overlay(ConfigSlots::absent()) == record,
        ConfigSlots::absent().overlay(record) == record,
{
}

/// Overlaying is associative.
pub proof fn overlay_associative(top: ConfigSlots, middle: ConfigSlots, bottom: ConfigSlots)
    ensures
        top.overlay(middle).overlay(bottom) == top.overlay(middle.overlay(bottom)),
{
}

/// Every field of a merge is resolved by itself: its slot is that of the
/// first source in which it is present, and absent where it is present in
/// none.
pub proof fn merged_slot(sources: Seq<ConfigSlots>, field: Field)
    ensures
        merged(sources).slot(field) == first_present(sources, field),
    decreases sources.len(),
{
    if sources.len() > 0 {
        merged_slot(sources.drop_first(), field);
        overlay_slot(sources[0], merged(sources.drop_first()), field);
    }
}

/// For every field and every list of sources, the merge has the value that
/// the field has in the first source in which it is present, and has the
/// field absent where no source has it.
pub proof fn merge_takes_first_present(sources: Seq<ConfigSlots>, field: Field)
    ensures
        forall|index: int|
            is_first_with(sources, field, index) ==> merged(sources).slot(field)
                == sources[index].slot(field),
        (forall|index: int| 0 <= index < sources.len() ==> sources[index].slot(field) is None)
            ==> merged(sources).slot(field) is None,
{
    merged_slot(sources, field);
    first_present_absent(sources, field);
    assert forall|index: int| is_first_with(sources, field, index) implies merged(sources).slot(
        field,
    ) == sources[index].slot(field) by {
        first_present_at(sources, field, index);
    }
}

/// A field is present in a merge exactly where a source has it.
pub proof fn merged_present(sources: Seq<ConfigSlots>, field: Field)
    ensures
        merged(sources).slot(field) is Some <==> exists|index: int|
            0 <= index < sources.len() && sources[index].slot(field) is Some,
{
    merged_slot(sources, field);
    first_present_absent(sources, field);
}

/// A further source of lowest precedence fills the slots that are still
/// absent, and changes no other.
pub proof fn merged_push(sources: Seq<ConfigSlots>, lowest: ConfigSlots)
    ensures
        merged(sources.push(lowest)) == merged(sources).overlay(lowest),
    decreases sources.len(),
{
    let extended = sources.push(lowest);
    if sources.len() == 0 {
        assert(extended.drop_first() =~= sources);
        overlay_absent(lowest);
    } else {
        let rest = sources.drop_first();
        assert(extended.drop_first() =~= rest.push(lowest));
        merged_push(rest, lowest);
        overlay_associative(sources[0], merged(rest), lowest);
    }
}

/// Merging no source gives the record in which every field is absent.
pub proof fn merge_of_nothing()
    ensures
        merged(Seq::<ConfigSlots>::empty()) == ConfigSlots::absent(),
{
}

/// Merging a single source gives that source, field for field.
pub proof fn merge_of_one(source: ConfigSlots)
    ensures
        merged(seq![source]) == source,
{
    assert(seq![source].drop_first() =~= Seq::<ConfigSlots>::empty());
    assert(merged(seq![source].drop_first()) == ConfigSlots::absent());
    overlay_absent(source);
}

/// Merging is idempotent: a source given twice counts once.
pub proof fn merge_is_idempotent(source: ConfigSlots)
    ensures
        merged(seq![source, source]) == merged(seq![source]),
{
    merge_of_one(source);
    assert(seq![source, source].drop_first() =~= seq![source]);
}

/// Merging is sensitive to order: where two sources set a field to different
/// values, each merge has the value of the source that stands first, and so
/// the two merges differ.
pub proof fn merge_is_order_sensitive(a: ConfigSlots, b: ConfigSlots, field: Field)
    requires
        a.slot(field) is Some,
        b.slot(field) is Some,
        a.slot(field) != b.slot(field),
    ensures
        merged(seq![a, b]).slot(field) == a.slot(field),
        merged(seq![b, a]).slot(field) == b.slot(field),
        merged(seq![a, b]) != merged(seq![b, a]),
{
    merged_slot(seq![a, b], field);
    merged_slot(seq![b, a], field);
}

} // verus!
