use vstd::prelude::*;
use crate::field::Field;
use crate::container::{cycle, history_of_text, history_text, reads_as_written};
use crate::json::{array_text, joined, lookup, member_text, object_text, payload_fits};
use crate::systeminfo::{
    info_members, info_of_members, info_text, read_payload, reading_of, reading_payload,
    readings_view,
    written_payload, Readings, SystemInfoView,
};

verus! {

/// The place of a field in the written order.
pub open spec fn place(field: Field) -> int {
    match field {
        Field::RecordDateTime => 0,
        Field::BatteryLife => 1,
        Field::BlockDeviceStats => 2,
        Field::BootTime => 3,
        Field::CpuTemp => 4,
        Field::LoadAvg => 5,
        Field::Memory => 6,
        Field::Mounts => 7,
        Field::Networks => 8,
        Field::OnAcPower => 9,
        Field::SocketStats => 10,
        Field::Swap => 11,
        Field::Uptime => 12,
        Field::CpuLoad => 13,
        Field::CpuLoadAggregate => 14,
    }
}

/// No two fields have the same name.
pub proof fn lemma_keys_differ(a: Field, b: Field)
    requires
        a != b,
    ensures
        a.key() != b.key(),
{
    reveal_strlit("record_date_time");
    reveal_strlit("battery_life");
    reveal_strlit("block_device_stats");
    reveal_strlit("boot_time");
    reveal_strlit("cpu_temp");
    reveal_strlit("load_avg");
    reveal_strlit("memory");
    reveal_strlit("mounts");
    reveal_strlit("networks");
    reveal_strlit("on_ac_power");
    reveal_strlit("socket_stats");
    reveal_strlit("swap");
    reveal_strlit("uptime");
    reveal_strlit("cpu_load");
    reveal_strlit("cpu_load_aggregate");
    if a.key().len() == b.key().len() {
        assert(a.key()[0] != b.key()[0] || a.key()[1] != b.key()[1] || a.key()[4] != b.key()[4]);
    }
}

/// A member whose name no earlier member has is the one that is found under its name.
proof fn lemma_lookup_at(members: Seq<(Seq<char>, Seq<char>)>, i: int)
    requires
        0 <= i < members.len(),
        forall|j: int| 0 <= j < i ==> (#[trigger] members[j]).0 != members[i].0,
    ensures
        lookup(members, members[i].0) == Some(members[i].1),
    decreases i,
{
    if i > 0 {
        let rest = members.drop_first();
        assert(rest[i - 1] == members[i]);
        assert forall|j: int| 0 <= j < i - 1 implies (#[trigger] rest[j]).0 != rest[i - 1].0 by {
            assert(rest[j] == members[j + 1]);
        }
        lemma_lookup_at(rest, i - 1);
    }
}

/// Among the members written for a measurement each field stands under its own name,
/// with its value, or with `null` where it is absent.
pub proof fn lemma_written_member(info: SystemInfoView, field: Field)
    ensures
        lookup(info_members(info), field.key()) == Some(written_payload(info.payload(field))),
{
    let members = info_members(info);
    let i = place(field);
    assert(Field::all()[i] == field);
    assert(members[i] == (field.key(), written_payload(info.payload(field))));
    assert forall|j: int| 0 <= j < i implies (#[trigger] members[j]).0 != members[i].0 by {
        let other = Field::all()[j];
        assert(place(other) == j);
        lemma_keys_differ(other, field);
    }
    lemma_lookup_at(members, i);
}

/// Round trip of the members: the members written for a measurement that can be read
/// back stand for that measurement, field for field.
pub proof fn lemma_members_round_trip(info: SystemInfoView)
    requires
        info.loadable(),
    ensures
        info_of_members(info_members(info)) == Some(info),
{
    let members = info_members(info);
    assert forall|field: Field| read_payload(members, field) == Some(info.payload(field)) by {
        lemma_written_member(info, field);
        if field != Field::RecordDateTime {
            assert(info.payload(field) is Some ==> info.payload(field)->Some_0 != "null"@);
        }
    }
}

/// What is read is fit to be read again: a measurement read from the members of an
/// object can be read back once written.
pub proof fn lemma_read_is_loadable(members: Seq<(Seq<char>, Seq<char>)>)
    requires
        info_of_members(members) is Some,
    ensures
        info_of_members(members)->Some_0.loadable(),
{
    let info = info_of_members(members)->Some_0;
    assert(read_payload(members, Field::RecordDateTime) is Some);
    assert forall|field: Field| field != Field::RecordDateTime implies match #[trigger] info.payload(field) {
        Some(text) => text != "null"@ && payload_fits(field, text),
        None => true,
    } by {
        assert(read_payload(members, field) is Some);
        assert(info.payload(field) == read_payload(members, field)->Some_0);
    }
}

/// Each field goes by its own query alone: what a measurement holds for a field is
/// what the reading rule makes of what that field's query gave, whatever the other
/// queries gave. So a value that was given stands unchanged in its own field, and a
/// failed query leaves its field absent and the others alone.
pub proof fn lemma_reading_decides_its_field(date: Seq<char>, readings: Readings, field: Field)
    requires
        reading_of(readings, field) is Some,
    ensures
        readings_view(date, readings).payload(field) == reading_payload(
            reading_of(readings, field)->Some_0,
        ),
{
}

/// Absence is written as absence: a field whose query failed is written as `null`,
/// under its own name, whatever the other queries gave, and it reads back as absent.
pub proof fn lemma_failed_query_is_written_null(date: Seq<char>, readings: Readings, field: Field)
    requires
        reading_of(readings, field) matches Some(reading) && reading is Err,
    ensures
        readings_view(date, readings).payload(field) is None,
        lookup(info_members(readings_view(date, readings)), field.key()) == Some("null"@),
        read_payload(info_members(readings_view(date, readings)), field) == Some(None::<Seq<char>>),
{
    lemma_written_member(readings_view(date, readings), field);
}

/// A joined text begins with its first part.
proof fn lemma_joined_begins(items: Seq<Seq<char>>)
    requires
        items.len() >= 1,
    ensures
        items[0].is_prefix_of(joined(items)),
    decreases items.len(),
{
    if items.len() > 1 {
        lemma_joined_begins(items.drop_last());
        assert(items.drop_last()[0] == items[0]);
    }
}

/// The text of an object with members begins with a brace, a double quote and the
/// name of its first member.
proof fn lemma_object_begins(members: Seq<(Seq<char>, Seq<char>)>)
    requires
        members.len() >= 1,
        members[0].0.len() >= 1,
    ensures
        object_text(members).len() >= 3,
        object_text(members)[0] == '{',
        object_text(members)[1] == '"',
        object_text(members)[2] == members[0].0[0],
{
    let parts = members.map_values(|m: (Seq<char>, Seq<char>)| member_text(m));
    lemma_joined_begins(parts);
    assert(parts[0] == member_text(members[0]));
    assert(joined(parts)[0] == parts[0][0]);
    assert(joined(parts)[1] == parts[0][1]);
}

/// A measurement written alone is never written as a sequence: its text is not the
/// text of any sequence of measurements.
pub proof fn lemma_single_is_not_wrapped(info: SystemInfoView, history: Seq<SystemInfoView>)
    ensures
        info_text(info) != history_text(history),
{
    reveal_strlit("record_date_time");
    reveal_strlit("data");
    let wrapped = seq![("data"@, array_text(history.map_values(|i: SystemInfoView| info_text(i))))];
    lemma_object_begins(info_members(info));
    lemma_object_begins(wrapped);
    assert(info_text(info)[2] == 'r');
    assert(history_text(history)[2] == 'd');
}

/// The measurements one gets by adding `infos`, one after the other, at the end of
/// `history`.
pub open spec fn appended(history: Seq<SystemInfoView>, infos: Seq<SystemInfoView>) -> Seq<SystemInfoView>
    decreases infos.len(),
{
    if infos.len() == 0 {
        history
    } else {
        appended(history, infos.drop_last()).push(infos.last())
    }
}

/// Adding measurements one after the other to an empty sequence gives exactly those
/// measurements: as many as were added, each at the place at which it was taken.
pub proof fn lemma_appends_keep_order(infos: Seq<SystemInfoView>)
    ensures
        appended(Seq::empty(), infos) == infos,
        appended(Seq::empty(), infos).len() == infos.len(),
        forall|i: int| 0 <= i < infos.len() ==> appended(Seq::empty(), infos)[i] == infos[i],
    decreases infos.len(),
{
    if infos.len() > 0 {
        lemma_appends_keep_order(infos.drop_last());
        assert(infos.drop_last().push(infos.last()) =~= infos);
    } else {
        assert(infos =~= Seq::empty());
    }
}

/// The text of the file after one cycle for each of `infos`, in their order, starting
/// without a file. `None` where no cycle was made, or where one of them failed.
pub open spec fn after_cycles(infos: Seq<SystemInfoView>) -> Option<Seq<char>>
    decreases infos.len(),
{
    if infos.len() == 0 {
        None
    } else if infos.len() == 1 {
        cycle(None, infos[0])
    } else {
        match after_cycles(infos.drop_last()) {
            Some(text) => cycle(Some(text), infos.last()),
            None => None,
        }
    }
}

/// Cycles keep every measurement, in order: where the text written at each cycle is
/// read as it was written, the file after one cycle for each of `infos` holds exactly
/// `infos`, as many and in the order in which they were taken.
pub proof fn lemma_cycles_keep_order(infos: Seq<SystemInfoView>)
    requires
        infos.len() >= 1,
        forall|n: int| 1 <= n <= infos.len() ==> reads_as_written(#[trigger] infos.take(n)),
    ensures
        after_cycles(infos) == Some(history_text(infos)),
        history_of_text(history_text(infos)) == Some(infos),
    decreases infos.len(),
{
    assert(infos.take(infos.len() as int) =~= infos);
    if infos.len() == 1 {
        assert(seq![infos[0]] =~= infos);
    } else {
        let earlier = infos.drop_last();
        assert forall|n: int| 1 <= n <= earlier.len() implies reads_as_written(#[trigger] earlier.take(n)) by {
            assert(earlier.take(n) =~= infos.take(n));
        }
        lemma_cycles_keep_order(earlier);
        assert(earlier.push(infos.last()) =~= infos);
    }
}

} // verus!
