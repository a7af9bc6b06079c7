use vstd::prelude::*;
use vstd::string::StringExecFns;
use crate::field::Field;

verus! {

/// The members of the JSON object that `text` holds, each as its name and the text of
/// its value, or `None` where `text` is not one JSON object.
pub uninterp spec fn object_members(text: Seq<char>) -> Option<Seq<(Seq<char>, Seq<char>)>>;

/// The elements of the JSON array that `text` holds, each as its text, or `None` where
/// `text` is not one JSON array.
pub uninterp spec fn array_items(text: Seq<char>) -> Option<Seq<Seq<char>>>;

/// Whether `text` is JSON that reads as a value of the type that `field` holds: the
/// verdict of serde_json on the text. Some of these types are laid out by systemstat for
/// the platform at hand; for them it is the verdict of the library as it was built.
pub uninterp spec fn payload_fits(field: Field, text: Seq<char>) -> bool;

/// The views of a list of name and value pairs.
pub open spec fn members_view(members: Seq<(String, String)>) -> Seq<(Seq<char>, Seq<char>)> {
    members.map_values(|m: (String, String)| (m.0@, m.1@))
}

/// The views of a list of texts.
pub open spec fn texts_view(texts: Seq<String>) -> Seq<Seq<char>> {
    texts.map_values(|t: String| t@)
}

/// `serde_json::from_str` with a `BTreeMap` from names to raw values as its target: reads
/// the text as one JSON object and hands out each member's name and the text of its
/// value, as it stands in `text`. Of two members of one name the map keeps the later.
/// Claimed: what it returns depends on the text alone, and `object_members` is the
/// name of that result.
#[verifier::external_body]
pub(crate) fn split_object(text: &str) -> (members: Result<Vec<(String, String)>, serde_json::Error>)
    ensures
        members is Ok <==> object_members(text@) is Some,
        members is Ok ==> members_view(members->Ok_0@) == object_members(text@)->Some_0,
{
    let map = serde_json::from_str::<std::collections::BTreeMap<String, Box<serde_json::value::RawValue>>>(text)?;
    Ok(map.into_iter().map(|(name, value)| (name, value.get().to_owned())).collect())
}

/// `serde_json::from_str` with a `Vec` of raw values as its target: reads the text as one
/// JSON array and hands out the text of each element, as it stands in `text`, in order.
/// Claimed: what it returns depends on the text alone, and `array_items` is the name of
/// that result.
#[verifier::external_body]
pub(crate) fn split_array(text: &str) -> (items: Result<Vec<String>, serde_json::Error>)
    ensures
        items is Ok <==> array_items(text@) is Some,
        items is Ok ==> texts_view(items->Ok_0@) == array_items(text@)->Some_0,
{
    let list = serde_json::from_str::<Vec<Box<serde_json::value::RawValue>>>(text)?;
    Ok(list.into_iter().map(|value| value.get().to_owned()).collect())
}

/// `serde_json::from_str` with `chrono::NaiveDate` as its target: reads the text as
/// a calendar date and drops the value. Claimed: whether it succeeds depends on the text alone,
/// and `payload_fits` is the name of that verdict.
#[verifier::external_body]
pub(crate) fn check_record_date_time(text: &str) -> (checked: Result<(), serde_json::Error>)
    ensures
        checked is Ok <==> payload_fits(Field::RecordDateTime, text@),
{
    serde_json::from_str::<chrono::NaiveDate>(text).map(|_| ())
}

/// `serde_json::from_str` with `systemstat::BatteryLife` as its target: reads the text as
/// a battery reading and drops the value. Claimed: whether it succeeds depends on the text alone,
/// and `payload_fits` is the name of that verdict.
#[verifier::external_body]
pub(crate) fn check_battery_life(text: &str) -> (checked: Result<(), serde_json::Error>)
    ensures
        checked is Ok <==> payload_fits(Field::BatteryLife, text@),
{
    serde_json::from_str::<systemstat::BatteryLife>(text).map(|_| ())
}

/// `serde_json::from_str` with `std::collections::BTreeMap<String, systemstat::BlockDeviceStats>` as its target: reads the text as
/// block device counters by device name and drops the value. Claimed: whether it succeeds depends on the text alone,
/// and `payload_fits` is the name of that verdict.
#[verifier::external_body]
pub(crate) fn check_block_device_stats(text: &str) -> (checked: Result<(), serde_json::Error>)
    ensures
        checked is Ok <==> payload_fits(Field::BlockDeviceStats, text@),
{
    serde_json::from_str::<std::collections::BTreeMap<String, systemstat::BlockDeviceStats>>(text).map(|_| ())
}

/// `serde_json::from_str` with `systemstat::OffsetDateTime` as its target: reads the text as
/// a point in time and drops the value. Claimed: whether it succeeds depends on the text alone,
/// and `payload_fits` is the name of that verdict.
#[verifier::external_body]
pub(crate) fn check_boot_time(text: &str) -> (checked: Result<(), serde_json::Error>)
    ensures
        checked is Ok <==> payload_fits(Field::BootTime, text@),
{
    serde_json::from_str::<systemstat::OffsetDateTime>(text).map(|_| ())
}

/// `serde_json::from_str` with `serde_json::Number` as its target: reads the text as
/// a JSON number and drops the value. Claimed: whether it succeeds depends on the text alone,
/// and `payload_fits` is the name of that verdict.
#[verifier::external_body]
pub(crate) fn check_cpu_temp(text: &str) -> (checked: Result<(), serde_json::Error>)
    ensures
        checked is Ok <==> payload_fits(Field::CpuTemp, text@),
{
    serde_json::from_str::<serde_json::Number>(text).map(|_| ())
}

/// `serde_json::from_str` with `systemstat::LoadAverage` as its target: reads the text as
/// load averages and drops the value. Claimed: whether it succeeds depends on the text alone,
/// and `payload_fits` is the name of that verdict.
#[verifier::external_body]
pub(crate) fn check_load_avg(text: &str) -> (checked: Result<(), serde_json::Error>)
    ensures
        checked is Ok <==> payload_fits(Field::LoadAvg, text@),
{
    serde_json::from_str::<systemstat::LoadAverage>(text).map(|_| ())
}

/// `serde_json::from_str` with `systemstat::Memory` as its target: reads the text as
/// memory totals and drops the value. Claimed: whether it succeeds depends on the text alone,
/// and `payload_fits` is the name of that verdict.
#[verifier::external_body]
pub(crate) fn check_memory(text: &str) -> (checked: Result<(), serde_json::Error>)
    ensures
        checked is Ok <==> payload_fits(Field::Memory, text@),
{
    serde_json::from_str::<systemstat::Memory>(text).map(|_| ())
}

/// `serde_json::from_str` with `Vec<systemstat::Filesystem>` as its target: reads the text as
/// a list of mounted filesystems and drops the value. Claimed: whether it succeeds depends on the text alone,
/// and `payload_fits` is the name of that verdict.
#[verifier::external_body]
pub(crate) fn check_mounts(text: &str) -> (checked: Result<(), serde_json::Error>)
    ensures
        checked is Ok <==> payload_fits(Field::Mounts, text@),
{
    serde_json::from_str::<Vec<systemstat::Filesystem>>(text).map(|_| ())
}

/// `serde_json::from_str` with `std::collections::BTreeMap<String, systemstat::Network>` as its target: reads the text as
/// network interfaces by name and drops the value. Claimed: whether it succeeds depends on the text alone,
/// and `payload_fits` is the name of that verdict.
#[verifier::external_body]
pub(crate) fn check_networks(text: &str) -> (checked: Result<(), serde_json::Error>)
    ensures
        checked is Ok <==> payload_fits(Field::Networks, text@),
{
    serde_json::from_str::<std::collections::BTreeMap<String, systemstat::Network>>(text).map(|_| ())
}

/// Whether `c` is white space to JSON: a space, a line feed, a tab or a carriage
/// return.
pub open spec fn is_json_space(c: char) -> bool {
    c == ' ' || c == '\n' || c == '\t' || c == '\r'
}

/// The text without the JSON white space at its start and at its end.
pub open spec fn trimmed(text: Seq<char>) -> Seq<char>
    decreases text.len(),
{
    if text.len() > 0 && is_json_space(text[0]) {
        trimmed(text.drop_first())
    } else if text.len() > 0 && is_json_space(text.last()) {
        trimmed(text.drop_last())
    } else {
        text
    }
}

/// Whether `text` is the JSON text of a truth value: `true` or `false`, with nothing
/// but white space around it.
pub open spec fn reads_as_bool(text: Seq<char>) -> bool {
    trimmed(text) == "true"@ || trimmed(text) == "false"@
}

/// `serde_json::from_str` with `bool` as its target: reads the text as a truth value
/// and drops the value. Claimed: it succeeds exactly on `true` and on `false`, with
/// nothing but JSON white space before and after; and `payload_fits` is the name of
/// that verdict.
#[verifier::external_body]
pub(crate) fn check_on_ac_power(text: &str) -> (checked: Result<(), serde_json::Error>)
    ensures
        checked is Ok <==> payload_fits(Field::OnAcPower, text@),
        checked is Ok <==> reads_as_bool(text@),
{
    serde_json::from_str::<bool>(text).map(|_| ())
}

/// `serde_json::from_str` with `systemstat::SocketStats` as its target: reads the text as
/// socket counts and drops the value. Claimed: whether it succeeds depends on the text alone,
/// and `payload_fits` is the name of that verdict.
#[verifier::external_body]
pub(crate) fn check_socket_stats(text: &str) -> (checked: Result<(), serde_json::Error>)
    ensures
        checked is Ok <==> payload_fits(Field::SocketStats, text@),
{
    serde_json::from_str::<systemstat::SocketStats>(text).map(|_| ())
}

/// `serde_json::from_str` with `systemstat::Swap` as its target: reads the text as
/// swap totals and drops the value. Claimed: whether it succeeds depends on the text alone,
/// and `payload_fits` is the name of that verdict.
#[verifier::external_body]
pub(crate) fn check_swap(text: &str) -> (checked: Result<(), serde_json::Error>)
    ensures
        checked is Ok <==> payload_fits(Field::Swap, text@),
{
    serde_json::from_str::<systemstat::Swap>(text).map(|_| ())
}

/// `serde_json::from_str` with `std::time::Duration` as its target: reads the text as
/// a duration and drops the value. Claimed: whether it succeeds depends on the text alone,
/// and `payload_fits` is the name of that verdict.
#[verifier::external_body]
pub(crate) fn check_uptime(text: &str) -> (checked: Result<(), serde_json::Error>)
    ensures
        checked is Ok <==> payload_fits(Field::Uptime, text@),
{
    serde_json::from_str::<std::time::Duration>(text).map(|_| ())
}

/// `serde_json::from_str` with `Vec<systemstat::CPULoad>` as its target: reads the text as
/// a list of processor loads and drops the value. Claimed: whether it succeeds depends on the text alone,
/// and `payload_fits` is the name of that verdict.
#[verifier::external_body]
pub(crate) fn check_cpu_load(text: &str) -> (checked: Result<(), serde_json::Error>)
    ensures
        checked is Ok <==> payload_fits(Field::CpuLoad, text@),
{
    serde_json::from_str::<Vec<systemstat::CPULoad>>(text).map(|_| ())
}

/// `serde_json::from_str` with `systemstat::CPULoad` as its target: reads the text as
/// a processor load and drops the value. Claimed: whether it succeeds depends on the text alone,
/// and `payload_fits` is the name of that verdict.
#[verifier::external_body]
pub(crate) fn check_cpu_load_aggregate(text: &str) -> (checked: Result<(), serde_json::Error>)
    ensures
        checked is Ok <==> payload_fits(Field::CpuLoadAggregate, text@),
{
    serde_json::from_str::<systemstat::CPULoad>(text).map(|_| ())
}

/// Reads `text` as a value of the type that `field` holds, and reports whether it is
/// one. For the mains power flag that is so exactly where the text is a truth value.
pub fn check_payload(field: Field, text: &str) -> (checked: Result<(), serde_json::Error>)
    ensures
        checked is Ok <==> payload_fits(field, text@),
        field == Field::OnAcPower ==> (checked is Ok <==> reads_as_bool(text@)),
{
    match field {
        Field::RecordDateTime => check_record_date_time(text),
        Field::BatteryLife => check_battery_life(text),
        Field::BlockDeviceStats => check_block_device_stats(text),
        Field::BootTime => check_boot_time(text),
        Field::CpuTemp => check_cpu_temp(text),
        Field::LoadAvg => check_load_avg(text),
        Field::Memory => check_memory(text),
        Field::Mounts => check_mounts(text),
        Field::Networks => check_networks(text),
        Field::OnAcPower => check_on_ac_power(text),
        Field::SocketStats => check_socket_stats(text),
        Field::Swap => check_swap(text),
        Field::Uptime => check_uptime(text),
        Field::CpuLoad => check_cpu_load(text),
        Field::CpuLoadAggregate => check_cpu_load_aggregate(text),
    }
}

/// The texts one after another, with a comma between each two.
pub open spec fn joined(items: Seq<Seq<char>>) -> Seq<char>
    decreases items.len(),
{
    if items.len() == 0 {
        Seq::empty()
    } else if items.len() == 1 {
        items[0]
    } else {
        joined(items.drop_last()) + seq![','] + items.last()
    }
}

/// The JSON text of an array whose elements have the texts `items`.
pub open spec fn array_text(items: Seq<Seq<char>>) -> Seq<char> {
    seq!['['] + joined(items) + seq![']']
}

/// The JSON text of one member of an object: the name between double quotes, a colon,
/// and the text of the value. The name is written as it is.
pub open spec fn member_text(member: (Seq<char>, Seq<char>)) -> Seq<char> {
    seq!['"'] + member.0 + seq!['"', ':'] + member.1
}

/// The JSON text of an object with the members `members`, in their order.
pub open spec fn object_text(members: Seq<(Seq<char>, Seq<char>)>) -> Seq<char> {
    seq!['{'] + joined(members.map_values(|m: (Seq<char>, Seq<char>)| member_text(m))) + seq!['}']
}

/// Writes the texts one after another, with a comma between each two.
fn write_joined(items: &Vec<String>) -> (text: String)
    ensures
        text@ == joined(texts_view(items@)),
{
    let mut text = String::new();
    let mut i: usize = 0;
    while i < items.len()
        invariant
            i <= items.len(),
            text@ == joined(texts_view(items@).take(i as int)),
        decreases items.len() - i,
    {
        proof {
            let before = texts_view(items@).take(i as int);
            let after = texts_view(items@).take(i + 1);
            assert(after.drop_last() =~= before);
            assert(after.last() == items@[i as int]@);
            reveal_strlit(",");
            assert(","@ =~= seq![',']);
        }
        if i > 0 {
            text.append(",");
        }
        text.append(items[i].as_str());
        i += 1;
    }
    proof {
        assert(texts_view(items@).take(items.len() as int) =~= texts_view(items@));
    }
    text
}

/// Writes an array whose elements have the texts `items`.
pub fn write_array(items: &Vec<String>) -> (text: String)
    ensures
        text@ == array_text(texts_view(items@)),
{
    let mut text = String::from_str("[");
    let inner = write_joined(items);
    text.append(inner.as_str());
    text.append("]");
    proof {
        reveal_strlit("[");
        reveal_strlit("]");
        assert(text@ =~= array_text(texts_view(items@)));
    }
    text
}

/// Writes an object with the members `members`, in their order.
pub fn write_object(members: &Vec<(String, String)>) -> (text: String)
    ensures
        text@ == object_text(members_view(members@)),
{
    let mut parts: Vec<String> = Vec::new();
    let mut i: usize = 0;
    while i < members.len()
        invariant
            i <= members.len(),
            parts@.len() == i,
            forall|k: int| 0 <= k < i ==> #[trigger] parts@[k]@ == member_text(members_view(members@)[k]),
        decreases members.len() - i,
    {
        let mut part = String::from_str("\"");
        part.append(members[i].0.as_str());
        part.append("\":");
        part.append(members[i].1.as_str());
        proof {
            reveal_strlit("\"");
            reveal_strlit("\":");
            assert("\":"@ =~= seq!['"', ':']);
            assert(part@ =~= member_text(members_view(members@)[i as int]));
        }
        parts.push(part);
        i += 1;
    }
    let mut text = String::from_str("{");
    let inner = write_joined(&parts);
    text.append(inner.as_str());
    text.append("}");
    proof {
        reveal_strlit("{");
        reveal_strlit("}");
        assert(texts_view(parts@) =~= members_view(members@).map_values(
            |m: (Seq<char>, Seq<char>)| member_text(m),
        ));
        assert(text@ =~= object_text(members_view(members@)));
    }
    text
}

/// The value that stands under the name `key` among `members`: that of the first
/// member of that name, or `None` where there is none.
pub open spec fn lookup(members: Seq<(Seq<char>, Seq<char>)>, key: Seq<char>) -> Option<Seq<char>>
    decreases members.len(),
{
    if members.len() == 0 {
        None
    } else if members[0].0 == key {
        Some(members[0].1)
    } else {
        lookup(members.drop_first(), key)
    }
}

/// Finds the value that stands under the name `key` among `members`.
pub fn find_member(members: &Vec<(String, String)>, key: &str) -> (value: Option<String>)
    ensures
        value is Some <==> lookup(members_view(members@), key@) is Some,
        value is Some ==> value->Some_0@ == lookup(members_view(members@), key@)->Some_0,
{
    let wanted = String::from_str(key);
    let mut i: usize = 0;
    proof {
        assert(members_view(members@).skip(0) =~= members_view(members@));
    }
    while i < members.len()
        invariant
            i <= members.len(),
            wanted@ == key@,
            lookup(members_view(members@), key@) == lookup(members_view(members@).skip(i as int), key@),
        decreases members.len() - i,
    {
        proof {
            let rest = members_view(members@).skip(i as int);
            assert(rest[0] == members_view(members@)[i as int]);
            assert(rest.drop_first() =~= members_view(members@).skip(i + 1));
        }
        if members[i].0 == wanted {
            return Some(members[i].1.clone());
        }
        i += 1;
    }
    None
}

/// `serde::de::Error::missing_field` for `serde_json::Error`: makes the error that says
/// that a record lacks the member `name`. Nothing is claimed of the error.
#[verifier::external_body]
pub(crate) fn missing_field(name: &'static str) -> (error: serde_json::Error)
{
    serde::de::Error::missing_field(name)
}

} // verus!
