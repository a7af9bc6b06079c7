use vstd::prelude::*;
use vstd::string::StringExecFns;
use crate::field::Field;
use crate::json::{
    check_payload, find_member, lookup, members_view, missing_field, object_members,
    object_text, payload_fits, split_object, write_object,
};

verus! {

/// What one query gave: the value as JSON text, or why the host gave none.
pub type Reading = Result<String, std::io::Error>;

/// One measurement of the host. Each field holds its value as JSON text. The date is
/// always there; every other field is absent where its query failed.
#[derive(Debug)]
pub struct SystemInfo {
    record_date_time: String,
    battery_life: Option<String>,
    block_device_stats: Option<String>,
    boot_time: Option<String>,
    cpu_temp: Option<String>,
    load_avg: Option<String>,
    memory: Option<String>,
    mounts: Option<String>,
    networks: Option<String>,
    on_ac_power: Option<String>,
    socket_stats: Option<String>,
    swap: Option<String>,
    uptime: Option<String>,
    cpu_load: Option<String>,
    cpu_load_aggregate: Option<String>,
}

/// A measurement as a mathematical value.
pub struct SystemInfoView {
    pub record_date_time: Seq<char>,
    pub battery_life: Option<Seq<char>>,
    pub block_device_stats: Option<Seq<char>>,
    pub boot_time: Option<Seq<char>>,
    pub cpu_temp: Option<Seq<char>>,
    pub load_avg: Option<Seq<char>>,
    pub memory: Option<Seq<char>>,
    pub mounts: Option<Seq<char>>,
    pub networks: Option<Seq<char>>,
    pub on_ac_power: Option<Seq<char>>,
    pub socket_stats: Option<Seq<char>>,
    pub swap: Option<Seq<char>>,
    pub uptime: Option<Seq<char>>,
    pub cpu_load: Option<Seq<char>>,
    pub cpu_load_aggregate: Option<Seq<char>>,
}

/// The view of a text that may be absent.
pub open spec fn text_view(text: Option<String>) -> Option<Seq<char>> {
    match text {
        Some(t) => Some(t@),
        None => None,
    }
}

impl SystemInfoView {
    /// What the measurement holds for `field`; `None` where the field is absent.
    pub open spec fn payload(self, field: Field) -> Option<Seq<char>> {
        match field {
            Field::RecordDateTime => Some(self.record_date_time),
            Field::BatteryLife => self.battery_life,
            Field::BlockDeviceStats => self.block_device_stats,
            Field::BootTime => self.boot_time,
            Field::CpuTemp => self.cpu_temp,
            Field::LoadAvg => self.load_avg,
            Field::Memory => self.memory,
            Field::Mounts => self.mounts,
            Field::Networks => self.networks,
            Field::OnAcPower => self.on_ac_power,
            Field::SocketStats => self.socket_stats,
            Field::Swap => self.swap,
            Field::Uptime => self.uptime,
            Field::CpuLoad => self.cpu_load,
            Field::CpuLoadAggregate => self.cpu_load_aggregate,
        }
    }
}

impl View for SystemInfo {
    type V = SystemInfoView;

    closed spec fn view(&self) -> SystemInfoView {
        SystemInfoView {
            record_date_time: self.record_date_time@,
            battery_life: text_view(self.battery_life),
            block_device_stats: text_view(self.block_device_stats),
            boot_time: text_view(self.boot_time),
            cpu_temp: text_view(self.cpu_temp),
            load_avg: text_view(self.load_avg),
            memory: text_view(self.memory),
            mounts: text_view(self.mounts),
            networks: text_view(self.networks),
            on_ac_power: text_view(self.on_ac_power),
            socket_stats: text_view(self.socket_stats),
            swap: text_view(self.swap),
            uptime: text_view(self.uptime),
            cpu_load: text_view(self.cpu_load),
            cpu_load_aggregate: text_view(self.cpu_load_aggregate),
        }
    }
}

/// What a field holds after a query that gave `reading`: the text of the value, and
/// nothing where the query failed or where the value was written as `null`.
pub open spec fn reading_payload(reading: Reading) -> Option<Seq<char>> {
    match reading {
        Ok(text) => if text@ == "null"@ { None } else { Some(text@) },
        Err(_) => None,
    }
}

/// Turns what a query gave into what the field holds.
pub fn interpret(reading: Reading) -> (payload: Option<String>)
    ensures
        text_view(payload) == reading_payload(reading),
{
    match reading {
        Ok(text) => {
            let null = String::from_str("null");
            if text == null {
                None
            } else {
                Some(text)
            }
        },
        Err(_) => None,
    }
}

/// What the fourteen queries of one measurement gave.
pub struct Readings {
    pub battery_life: Reading,
    pub block_device_stats: Reading,
    pub boot_time: Reading,
    pub cpu_temp: Reading,
    pub load_avg: Reading,
    pub memory: Reading,
    pub mounts: Reading,
    pub networks: Reading,
    pub on_ac_power: Reading,
    pub socket_stats: Reading,
    pub swap: Reading,
    pub uptime: Reading,
    pub cpu_load: Reading,
    pub cpu_load_aggregate: Reading,
}

/// What the query for `field` gave; `None` for the date, which comes from no query.
pub open spec fn reading_of(readings: Readings, field: Field) -> Option<Reading> {
    match field {
        Field::RecordDateTime => None,
        Field::BatteryLife => Some(readings.battery_life),
        Field::BlockDeviceStats => Some(readings.block_device_stats),
        Field::BootTime => Some(readings.boot_time),
        Field::CpuTemp => Some(readings.cpu_temp),
        Field::LoadAvg => Some(readings.load_avg),
        Field::Memory => Some(readings.memory),
        Field::Mounts => Some(readings.mounts),
        Field::Networks => Some(readings.networks),
        Field::OnAcPower => Some(readings.on_ac_power),
        Field::SocketStats => Some(readings.socket_stats),
        Field::Swap => Some(readings.swap),
        Field::Uptime => Some(readings.uptime),
        Field::CpuLoad => Some(readings.cpu_load),
        Field::CpuLoadAggregate => Some(readings.cpu_load_aggregate),
    }
}

/// A date's text between double quotes: the JSON text of a date.
pub open spec fn quoted(date: Seq<char>) -> Seq<char> {
    seq!['"'] + date + seq!['"']
}

/// The calendar day of a measurement, held as the JSON text of the date. Only text
/// that reads as a date is ever held.
#[derive(Debug)]
pub struct RecordDate {
    text: String,
}

impl View for RecordDate {
    type V = Seq<char>;

    closed spec fn view(&self) -> Seq<char> {
        self.text@
    }
}

impl RecordDate {
    #[verifier::type_invariant]
    spec fn reads_as_a_date(&self) -> bool {
        payload_fits(Field::RecordDateTime, self.text@)
    }

    /// Makes the day from the text of a date, such as `2024-05-17`. Text that, put
    /// between double quotes, does not read as a date is refused.
    pub fn new(date: &str) -> (day: Result<RecordDate, serde_json::Error>)
        ensures
            day is Ok <==> payload_fits(Field::RecordDateTime, quoted(date@)),
            day is Ok ==> day->Ok_0@ == quoted(date@),
    {
        let text = String::from_str("\"").concat(date).concat("\"");
        proof {
            reveal_strlit("\"");
            assert(text@ =~= quoted(date@));
        }
        match check_payload(Field::RecordDateTime, text.as_str()) {
            Ok(()) => Ok(RecordDate { text }),
            Err(error) => Err(error),
        }
    }
}

/// The measurement that is made of a date, given as its JSON text, and of what the
/// queries gave.
pub open spec fn readings_view(date: Seq<char>, readings: Readings) -> SystemInfoView {
    SystemInfoView {
        record_date_time: date,
        battery_life: reading_payload(readings.battery_life),
        block_device_stats: reading_payload(readings.block_device_stats),
        boot_time: reading_payload(readings.boot_time),
        cpu_temp: reading_payload(readings.cpu_temp),
        load_avg: reading_payload(readings.load_avg),
        memory: reading_payload(readings.memory),
        mounts: reading_payload(readings.mounts),
        networks: reading_payload(readings.networks),
        on_ac_power: reading_payload(readings.on_ac_power),
        socket_stats: reading_payload(readings.socket_stats),
        swap: reading_payload(readings.swap),
        uptime: reading_payload(readings.uptime),
        cpu_load: reading_payload(readings.cpu_load),
        cpu_load_aggregate: reading_payload(readings.cpu_load_aggregate),
    }
}

impl SystemInfo {
    /// Builds the measurement of the day `date` from what the queries gave. It never
    /// fails: a field whose query failed is absent, whatever the others gave, and every
    /// other field holds the text that its own query gave, unchanged; only a value
    /// written as `null` counts as absent.
    pub fn from_readings(date: RecordDate, readings: Readings) -> (info: SystemInfo)
        ensures
            info@ == readings_view(date@, readings),
            payload_fits(Field::RecordDateTime, info@.record_date_time),
    {
        proof {
            use_type_invariant(&date);
        }
        let record_date_time = date.text;
        SystemInfo {
            record_date_time,
            battery_life: interpret(readings.battery_life),
            block_device_stats: interpret(readings.block_device_stats),
            boot_time: interpret(readings.boot_time),
            cpu_temp: interpret(readings.cpu_temp),
            load_avg: interpret(readings.load_avg),
            memory: interpret(readings.memory),
            mounts: interpret(readings.mounts),
            networks: interpret(readings.networks),
            on_ac_power: interpret(readings.on_ac_power),
            socket_stats: interpret(readings.socket_stats),
            swap: interpret(readings.swap),
            uptime: interpret(readings.uptime),
            cpu_load: interpret(readings.cpu_load),
            cpu_load_aggregate: interpret(readings.cpu_load_aggregate),
        }
    }
}

/// How long a measurement has to rest between the first and the second sample of a
/// rate, in seconds: the time over which the host's processor load is taken.
pub const SETTLE_SECONDS: u64 = 1;

impl Field {
    /// Every field, in the order in which a record is written.
    pub open spec fn all() -> Seq<Field> {
        seq![
            Field::RecordDateTime,
            Field::BatteryLife,
            Field::BlockDeviceStats,
            Field::BootTime,
            Field::CpuTemp,
            Field::LoadAvg,
            Field::Memory,
            Field::Mounts,
            Field::Networks,
            Field::OnAcPower,
            Field::SocketStats,
            Field::Swap,
            Field::Uptime,
            Field::CpuLoad,
            Field::CpuLoadAggregate,
        ]
    }
}

/// The text that is written for a field: its value, or `null` where it is absent.
pub open spec fn written_payload(payload: Option<Seq<char>>) -> Seq<char> {
    match payload {
        Some(text) => text,
        None => "null"@,
    }
}

/// The members of the JSON object that is written for a measurement: one for each
/// field, in the order of `Field::all`.
pub open spec fn info_members(info: SystemInfoView) -> Seq<(Seq<char>, Seq<char>)> {
    Field::all().map_values(|field: Field| (field.key(), written_payload(info.payload(field))))
}

/// The JSON text that is written for a measurement alone: one object, whose members
/// are the fields.
pub open spec fn info_text(info: SystemInfoView) -> Seq<char> {
    object_text(info_members(info))
}

/// What is read for `field` from the members of a written measurement. The outer
/// `None` says that the members are no measurement: the date is missing, or a value
/// does not fit its field. An inner `None` says that the field is absent: it is
/// missing, or it is `null`.
pub open spec fn read_payload(members: Seq<(Seq<char>, Seq<char>)>, field: Field) -> Option<Option<Seq<char>>> {
    match lookup(members, field.key()) {
        None => if field == Field::RecordDateTime { None } else { Some(None) },
        Some(text) => if field != Field::RecordDateTime && text == "null"@ {
            Some(None)
        } else if payload_fits(field, text) {
            Some(Some(text))
        } else {
            None
        },
    }
}

/// The measurement that the members of a JSON object stand for, or `None` where they
/// stand for none. Members of other names are passed over.
pub open spec fn info_of_members(members: Seq<(Seq<char>, Seq<char>)>) -> Option<SystemInfoView> {
    if forall|field: Field| read_payload(members, field) is Some {
        Some(SystemInfoView {
            record_date_time: read_payload(members, Field::RecordDateTime)->Some_0->Some_0,
            battery_life: read_payload(members, Field::BatteryLife)->Some_0,
            block_device_stats: read_payload(members, Field::BlockDeviceStats)->Some_0,
            boot_time: read_payload(members, Field::BootTime)->Some_0,
            cpu_temp: read_payload(members, Field::CpuTemp)->Some_0,
            load_avg: read_payload(members, Field::LoadAvg)->Some_0,
            memory: read_payload(members, Field::Memory)->Some_0,
            mounts: read_payload(members, Field::Mounts)->Some_0,
            networks: read_payload(members, Field::Networks)->Some_0,
            on_ac_power: read_payload(members, Field::OnAcPower)->Some_0,
            socket_stats: read_payload(members, Field::SocketStats)->Some_0,
            swap: read_payload(members, Field::Swap)->Some_0,
            uptime: read_payload(members, Field::Uptime)->Some_0,
            cpu_load: read_payload(members, Field::CpuLoad)->Some_0,
            cpu_load_aggregate: read_payload(members, Field::CpuLoadAggregate)->Some_0,
        })
    } else {
        None
    }
}

/// The measurement that a JSON text stands for, or `None` where it stands for none.
pub open spec fn info_of_text(text: Seq<char>) -> Option<SystemInfoView> {
    match object_members(text) {
        Some(members) => info_of_members(members),
        None => None,
    }
}

/// Makes the member that is written for `field`.
fn member(field: Field, payload: &Option<String>) -> (member: (String, String))
    ensures
        member.0@ == field.key(),
        member.1@ == written_payload(text_view(*payload)),
{
    let value = match payload {
        Some(text) => text.clone(),
        None => String::from_str("null"),
    };
    (String::from_str(field.name()), value)
}

/// Reads the value of `field` from the members of a written measurement.
fn read_field(members: &Vec<(String, String)>, field: Field) -> (payload: Result<Option<String>, serde_json::Error>)
    ensures
        payload is Ok <==> read_payload(members_view(members@), field) is Some,
        payload is Ok ==> text_view(payload->Ok_0) == read_payload(members_view(members@), field)->Some_0,
{
    match find_member(members, field.name()) {
        None => match field {
            Field::RecordDateTime => Err(missing_field(field.name())),
            _ => Ok(None),
        },
        Some(text) => {
            let null = String::from_str("null");
            let absent = match field {
                Field::RecordDateTime => false,
                _ => text == null,
            };
            if absent {
                Ok(None)
            } else {
                match check_payload(field, text.as_str()) {
                    Ok(()) => Ok(Some(text)),
                    Err(error) => Err(error),
                }
            }
        },
    }
}

impl SystemInfo {
    /// Writes the measurement alone, as one JSON object whose members are the fields:
    /// the text of a file that holds a single measurement. An absent field is written
    /// as `null`.
    pub fn save(&self) -> (text: String)
        ensures
            text@ == info_text(self@),
    {
        let mut members: Vec<(String, String)> = Vec::new();
        members.push(member(Field::RecordDateTime, &Some(self.record_date_time.clone())));
        members.push(member(Field::BatteryLife, &self.battery_life));
        members.push(member(Field::BlockDeviceStats, &self.block_device_stats));
        members.push(member(Field::BootTime, &self.boot_time));
        members.push(member(Field::CpuTemp, &self.cpu_temp));
        members.push(member(Field::LoadAvg, &self.load_avg));
        members.push(member(Field::Memory, &self.memory));
        members.push(member(Field::Mounts, &self.mounts));
        members.push(member(Field::Networks, &self.networks));
        members.push(member(Field::OnAcPower, &self.on_ac_power));
        members.push(member(Field::SocketStats, &self.socket_stats));
        members.push(member(Field::Swap, &self.swap));
        members.push(member(Field::Uptime, &self.uptime));
        members.push(member(Field::CpuLoad, &self.cpu_load));
        members.push(member(Field::CpuLoadAggregate, &self.cpu_load_aggregate));
        proof {
            assert(members_view(members@) =~= info_members(self@));
        }
        write_object(&members)
    }

    /// Reads a measurement from the members of a JSON object.
    pub fn from_members(members: &Vec<(String, String)>) -> (info: Result<SystemInfo, serde_json::Error>)
        ensures
            info is Ok <==> info_of_members(members_view(members@)) is Some,
            info is Ok ==> info->Ok_0@ == info_of_members(members_view(members@))->Some_0,
    {
        let record_date_time = match read_field(members, Field::RecordDateTime) {
            Ok(Some(text)) => text,
            Ok(None) => return Err(missing_field(Field::RecordDateTime.name())),
            Err(error) => return Err(error),
        };
        let battery_life = match read_field(members, Field::BatteryLife) {
            Ok(payload) => payload,
            Err(error) => return Err(error),
        };
        let block_device_stats = match read_field(members, Field::BlockDeviceStats) {
            Ok(payload) => payload,
            Err(error) => return Err(error),
        };
        let boot_time = match read_field(members, Field::BootTime) {
            Ok(payload) => payload,
            Err(error) => return Err(error),
        };
        let cpu_temp = match read_field(members, Field::CpuTemp) {
            Ok(payload) => payload,
            Err(error) => return Err(error),
        };
        let load_avg = match read_field(members, Field::LoadAvg) {
            Ok(payload) => payload,
            Err(error) => return Err(error),
        };
        let memory = match read_field(members, Field::Memory) {
            Ok(payload) => payload,
            Err(error) => return Err(error),
        };
        let mounts = match read_field(members, Field::Mounts) {
            Ok(payload) => payload,
            Err(error) => return Err(error),
        };
        let networks = match read_field(members, Field::Networks) {
            Ok(payload) => payload,
            Err(error) => return Err(error),
        };
        let on_ac_power = match read_field(members, Field::OnAcPower) {
            Ok(payload) => payload,
            Err(error) => return Err(error),
        };
        let socket_stats = match read_field(members, Field::SocketStats) {
            Ok(payload) => payload,
            Err(error) => return Err(error),
        };
        let swap = match read_field(members, Field::Swap) {
            Ok(payload) => payload,
            Err(error) => return Err(error),
        };
        let uptime = match read_field(members, Field::Uptime) {
            Ok(payload) => payload,
            Err(error) => return Err(error),
        };
        let cpu_load = match read_field(members, Field::CpuLoad) {
            Ok(payload) => payload,
            Err(error) => return Err(error),
        };
        let cpu_load_aggregate = match read_field(members, Field::CpuLoadAggregate) {
            Ok(payload) => payload,
            Err(error) => return Err(error),
        };
        Ok(SystemInfo {
            record_date_time,
            battery_life,
            block_device_stats,
            boot_time,
            cpu_temp,
            load_avg,
            memory,
            mounts,
            networks,
            on_ac_power,
            socket_stats,
            swap,
            uptime,
            cpu_load,
            cpu_load_aggregate,
        })
    }

    /// Reads a measurement from the JSON text of one object.
    pub fn parse(text: &str) -> (info: Result<SystemInfo, serde_json::Error>)
        ensures
            info is Ok <==> info_of_text(text@) is Some,
            info is Ok ==> info->Ok_0@ == info_of_text(text@)->Some_0,
    {
        match split_object(text) {
            Ok(members) => SystemInfo::from_members(&members),
            Err(error) => Err(error),
        }
    }
}

/// Copies a text that may be absent.
fn clone_text(text: &Option<String>) -> (copy: Option<String>)
    ensures
        text_view(copy) == text_view(*text),
{
    match text {
        Some(t) => Some(t.clone()),
        None => None,
    }
}

impl Clone for SystemInfo {
    fn clone(&self) -> (copy: Self)
        ensures
            copy@ == self@,
    {
        SystemInfo {
            record_date_time: self.record_date_time.clone(),
            battery_life: clone_text(&self.battery_life),
            block_device_stats: clone_text(&self.block_device_stats),
            boot_time: clone_text(&self.boot_time),
            cpu_temp: clone_text(&self.cpu_temp),
            load_avg: clone_text(&self.load_avg),
            memory: clone_text(&self.memory),
            mounts: clone_text(&self.mounts),
            networks: clone_text(&self.networks),
            on_ac_power: clone_text(&self.on_ac_power),
            socket_stats: clone_text(&self.socket_stats),
            swap: clone_text(&self.swap),
            uptime: clone_text(&self.uptime),
            cpu_load: clone_text(&self.cpu_load),
            cpu_load_aggregate: clone_text(&self.cpu_load_aggregate),
        }
    }
}

impl SystemInfo {
    /// What the measurement holds for `field`, as JSON text; `None` where the field is
    /// absent.
    pub fn payload(&self, field: Field) -> (payload: Option<String>)
        ensures
            text_view(payload) == self@.payload(field),
    {
        match field {
            Field::RecordDateTime => Some(self.record_date_time.clone()),
            Field::BatteryLife => clone_text(&self.battery_life),
            Field::BlockDeviceStats => clone_text(&self.block_device_stats),
            Field::BootTime => clone_text(&self.boot_time),
            Field::CpuTemp => clone_text(&self.cpu_temp),
            Field::LoadAvg => clone_text(&self.load_avg),
            Field::Memory => clone_text(&self.memory),
            Field::Mounts => clone_text(&self.mounts),
            Field::Networks => clone_text(&self.networks),
            Field::OnAcPower => clone_text(&self.on_ac_power),
            Field::SocketStats => clone_text(&self.socket_stats),
            Field::Swap => clone_text(&self.swap),
            Field::Uptime => clone_text(&self.uptime),
            Field::CpuLoad => clone_text(&self.cpu_load),
            Field::CpuLoadAggregate => clone_text(&self.cpu_load_aggregate),
        }
    }
}


impl SystemInfoView {
    /// Whether the measurement can be read back once written: the date fits its field,
    /// and every value that is present fits its field and is not written as `null`.
    pub open spec fn loadable(self) -> bool {
        &&& payload_fits(Field::RecordDateTime, self.record_date_time)
        &&& forall|field: Field|
            field != Field::RecordDateTime ==> match #[trigger] self.payload(field) {
                Some(text) => text != "null"@ && payload_fits(field, text),
                None => true,
            }
    }
}

/// Whether two texts that may be absent are the same.
fn same_text(a: &Option<String>, b: &Option<String>) -> (same: bool)
    ensures
        same == (text_view(*a) == text_view(*b)),
{
    match (a, b) {
        (Some(x), Some(y)) => *x == *y,
        (None, None) => true,
        _ => false,
    }
}

/// Whether a value that may be absent can be read back as the value of `field`.
fn fits_or_absent(field: Field, payload: &Option<String>) -> (fits: bool)
    ensures
        fits == match text_view(*payload) {
            Some(text) => text != "null"@ && payload_fits(field, text),
            None => true,
        },
{
    match payload {
        Some(text) => {
            let null = String::from_str("null");
            if *text == null {
                false
            } else {
                check_payload(field, text.as_str()).is_ok()
            }
        },
        None => true,
    }
}

impl SystemInfo {
    /// Whether the two measurements hold the same, field for field.
    pub fn same_as(&self, other: &SystemInfo) -> (same: bool)
        ensures
            same == (self@ == other@),
    {
        self.record_date_time == other.record_date_time
            && same_text(&self.battery_life, &other.battery_life)
            && same_text(&self.block_device_stats, &other.block_device_stats)
            && same_text(&self.boot_time, &other.boot_time)
            && same_text(&self.cpu_temp, &other.cpu_temp)
            && same_text(&self.load_avg, &other.load_avg)
            && same_text(&self.memory, &other.memory)
            && same_text(&self.mounts, &other.mounts)
            && same_text(&self.networks, &other.networks)
            && same_text(&self.on_ac_power, &other.on_ac_power)
            && same_text(&self.socket_stats, &other.socket_stats)
            && same_text(&self.swap, &other.swap)
            && same_text(&self.uptime, &other.uptime)
            && same_text(&self.cpu_load, &other.cpu_load)
            && same_text(&self.cpu_load_aggregate, &other.cpu_load_aggregate)
    }

    /// Whether the measurement can be read back once written.
    pub fn is_loadable(&self) -> (loadable: bool)
        ensures
            loadable == self@.loadable(),
    {
        if check_payload(Field::RecordDateTime, self.record_date_time.as_str()).is_err() {
            return false;
        }
        if !fits_or_absent(Field::BatteryLife, &self.battery_life) {
            assert(self@.payload(Field::BatteryLife) == text_view(self.battery_life));
            return false;
        }
        if !fits_or_absent(Field::BlockDeviceStats, &self.block_device_stats) {
            assert(self@.payload(Field::BlockDeviceStats) == text_view(self.block_device_stats));
            return false;
        }
        if !fits_or_absent(Field::BootTime, &self.boot_time) {
            assert(self@.payload(Field::BootTime) == text_view(self.boot_time));
            return false;
        }
        if !fits_or_absent(Field::CpuTemp, &self.cpu_temp) {
            assert(self@.payload(Field::CpuTemp) == text_view(self.cpu_temp));
            return false;
        }
        if !fits_or_absent(Field::LoadAvg, &self.load_avg) {
            assert(self@.payload(Field::LoadAvg) == text_view(self.load_avg));
            return false;
        }
        if !fits_or_absent(Field::Memory, &self.memory) {
            assert(self@.payload(Field::Memory) == text_view(self.memory));
            return false;
        }
        if !fits_or_absent(Field::Mounts, &self.mounts) {
            assert(self@.payload(Field::Mounts) == text_view(self.mounts));
            return false;
        }
        if !fits_or_absent(Field::Networks, &self.networks) {
            assert(self@.payload(Field::Networks) == text_view(self.networks));
            return false;
        }
        if !fits_or_absent(Field::OnAcPower, &self.on_ac_power) {
            assert(self@.payload(Field::OnAcPower) == text_view(self.on_ac_power));
            return false;
        }
        if !fits_or_absent(Field::SocketStats, &self.socket_stats) {
            assert(self@.payload(Field::SocketStats) == text_view(self.socket_stats));
            return false;
        }
        if !fits_or_absent(Field::Swap, &self.swap) {
            assert(self@.payload(Field::Swap) == text_view(self.swap));
            return false;
        }
        if !fits_or_absent(Field::Uptime, &self.uptime) {
            assert(self@.payload(Field::Uptime) == text_view(self.uptime));
            return false;
        }
        if !fits_or_absent(Field::CpuLoad, &self.cpu_load) {
            assert(self@.payload(Field::CpuLoad) == text_view(self.cpu_load));
            return false;
        }
        if !fits_or_absent(Field::CpuLoadAggregate, &self.cpu_load_aggregate) {
            assert(self@.payload(Field::CpuLoadAggregate) == text_view(self.cpu_load_aggregate));
            return false;
        }
        true
    }
}

} // verus!
