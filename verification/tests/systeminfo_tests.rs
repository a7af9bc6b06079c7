use std::collections::BTreeMap;
use std::io;
use std::time::Duration;

use sysinfo_collector::field::Field;
use sysinfo_collector::systeminfo::{
    interpret, Reading, Readings, RecordDate, SystemInfo, SETTLE_SECONDS,
};
use systemstat::{ByteSize, Memory, Platform, PlatformMemory, System};

fn failed() -> Reading {
    Err(io::Error::new(io::ErrorKind::Other, "no such sensor"))
}

fn given(text: &str) -> Reading {
    Ok(text.to_string())
}

fn day(date: &str) -> RecordDate {
    RecordDate::new(date).unwrap()
}

fn all_failing() -> Readings {
    Readings {
        battery_life: failed(),
        block_device_stats: failed(),
        boot_time: failed(),
        cpu_temp: failed(),
        load_avg: failed(),
        memory: failed(),
        mounts: failed(),
        networks: failed(),
        on_ac_power: failed(),
        socket_stats: failed(),
        swap: failed(),
        uptime: failed(),
        cpu_load: failed(),
        cpu_load_aggregate: failed(),
    }
}

const METRICS: [Field; 14] = [
    Field::BatteryLife,
    Field::BlockDeviceStats,
    Field::BootTime,
    Field::CpuTemp,
    Field::LoadAvg,
    Field::Memory,
    Field::Mounts,
    Field::Networks,
    Field::OnAcPower,
    Field::SocketStats,
    Field::Swap,
    Field::Uptime,
    Field::CpuLoad,
    Field::CpuLoadAggregate,
];

#[test]
fn interpret_keeps_the_text_of_a_good_reading() {
    assert_eq!(interpret(given("true")), Some("true".to_string()));
}

#[test]
fn interpret_drops_a_failed_query() {
    assert_eq!(interpret(failed()), None);
}

#[test]
fn interpret_drops_a_value_written_as_null() {
    let not_a_number = serde_json::to_string(&f32::NAN).unwrap();
    assert_eq!(not_a_number, "null");
    assert_eq!(interpret(Ok(not_a_number)), None);
}

#[test]
fn mock_provider_with_memory_and_uptime_only() {
    let memory = Memory {
        total: ByteSize(8192),
        free: ByteSize(8192 - 4096),
        platform_memory: PlatformMemory { meminfo: BTreeMap::new() },
    };
    let uptime = Duration::from_secs(3600);
    let mut readings = all_failing();
    readings.memory = Ok(serde_json::to_string(&memory).unwrap());
    readings.uptime = Ok(serde_json::to_string(&uptime).unwrap());
    let info = SystemInfo::from_readings(day("2024-05-17"), readings);

    assert_eq!(
        info.payload(Field::Memory),
        Some(serde_json::to_string(&memory).unwrap())
    );
    assert_eq!(
        info.payload(Field::Uptime),
        Some("{\"secs\":3600,\"nanos\":0}".to_string())
    );
    assert_eq!(
        info.payload(Field::RecordDateTime),
        Some("\"2024-05-17\"".to_string())
    );
    for field in METRICS {
        if field != Field::Memory && field != Field::Uptime {
            assert_eq!(info.payload(field), None, "{:?}", field);
        }
    }
}

#[test]
fn a_failed_query_leaves_the_other_fields_alone() {
    for (i, missing) in METRICS.iter().enumerate() {
        let mut readings = Readings {
            battery_life: given("1"),
            block_device_stats: given("2"),
            boot_time: given("3"),
            cpu_temp: given("4"),
            load_avg: given("5"),
            memory: given("6"),
            mounts: given("7"),
            networks: given("8"),
            on_ac_power: given("9"),
            socket_stats: given("10"),
            swap: given("11"),
            uptime: given("12"),
            cpu_load: given("13"),
            cpu_load_aggregate: given("14"),
        };
        match missing {
            Field::BatteryLife => readings.battery_life = failed(),
            Field::BlockDeviceStats => readings.block_device_stats = failed(),
            Field::BootTime => readings.boot_time = failed(),
            Field::CpuTemp => readings.cpu_temp = failed(),
            Field::LoadAvg => readings.load_avg = failed(),
            Field::Memory => readings.memory = failed(),
            Field::Mounts => readings.mounts = failed(),
            Field::Networks => readings.networks = failed(),
            Field::OnAcPower => readings.on_ac_power = failed(),
            Field::SocketStats => readings.socket_stats = failed(),
            Field::Swap => readings.swap = failed(),
            Field::Uptime => readings.uptime = failed(),
            Field::CpuLoad => readings.cpu_load = failed(),
            Field::CpuLoadAggregate => readings.cpu_load_aggregate = failed(),
            Field::RecordDateTime => unreachable!(),
        }
        let info = SystemInfo::from_readings(day("2024-05-17"), readings);
        for (j, field) in METRICS.iter().enumerate() {
            let expected = if i == j { None } else { Some(format!("{}", j + 1)) };
            assert_eq!(info.payload(*field), expected);
        }
    }
}

#[test]
fn a_record_without_values_is_written_with_null_for_each() {
    let info = SystemInfo::from_readings(day("2024-05-17"), all_failing());
    assert_eq!(
        info.save(),
        "{\"record_date_time\":\"2024-05-17\",\"battery_life\":null,\
         \"block_device_stats\":null,\"boot_time\":null,\"cpu_temp\":null,\
         \"load_avg\":null,\"memory\":null,\"mounts\":null,\"networks\":null,\
         \"on_ac_power\":null,\"socket_stats\":null,\"swap\":null,\"uptime\":null,\
         \"cpu_load\":null,\"cpu_load_aggregate\":null}"
    );
}

#[test]
fn a_failing_query_is_written_as_null_every_time() {
    for _ in 0..3 {
        let mut readings = all_failing();
        readings.on_ac_power = given("true");
        readings.cpu_temp = failed();
        let text = SystemInfo::from_readings(day("2024-05-17"), readings).save();
        let value: serde_json::Value = serde_json::from_str(&text).unwrap();
        assert!(value["cpu_temp"].is_null());
        assert_eq!(value["on_ac_power"], serde_json::Value::Bool(true));
        assert!(text.contains("\"cpu_temp\":null"));
        assert!(!text.contains("\"cpu_temp\":0"));
    }
}

#[test]
fn a_written_record_is_json_with_the_fields_in_order() {
    let mut readings = all_failing();
    readings.on_ac_power = given("false");
    readings.swap = given("{\"total\":\"1.0 KB\"}");
    let text = SystemInfo::from_readings(day("2024-05-17"), readings).save();
    let value: serde_json::Value = serde_json::from_str(&text).unwrap();
    let object = value.as_object().unwrap();
    assert_eq!(object.len(), 15);
    assert_eq!(object["record_date_time"], serde_json::Value::String("2024-05-17".to_string()));
    assert_eq!(object["on_ac_power"], serde_json::Value::Bool(false));
    assert_eq!(object["swap"]["total"], serde_json::Value::String("1.0 KB".to_string()));
    let mut at = 0;
    for field in [Field::RecordDateTime].iter().chain(METRICS.iter()) {
        let key = format!("\"{}\":", field.name());
        let found = text[at..].find(&key).unwrap();
        at += found + key.len();
    }
}

#[test]
fn a_single_record_is_not_wrapped_in_a_sequence() {
    let text = SystemInfo::from_readings(day("2024-05-17"), all_failing()).save();
    let value: serde_json::Value = serde_json::from_str(&text).unwrap();
    assert!(value.is_object());
    assert!(value.get("data").is_none());
    assert!(text.starts_with("{\"record_date_time\":"));
}

#[test]
fn parse_reads_back_what_save_wrote() {
    let mut readings = all_failing();
    readings.on_ac_power = given("true");
    readings.uptime = Ok(serde_json::to_string(&Duration::from_secs(3600)).unwrap());
    let info = SystemInfo::from_readings(day("2024-05-17"), readings);
    let back = SystemInfo::parse(&info.save()).unwrap();
    for field in [Field::RecordDateTime].iter().chain(METRICS.iter()) {
        assert_eq!(back.payload(*field), info.payload(*field));
    }
    assert_eq!(back.save(), info.save());
}

#[test]
fn parse_needs_the_date() {
    assert!(SystemInfo::parse("{\"on_ac_power\":true}").is_err());
    assert!(SystemInfo::parse("{\"record_date_time\":null}").is_err());
    assert!(SystemInfo::parse("{\"record_date_time\":\"2024-13-01\"}").is_err());
    assert!(SystemInfo::parse("{\"record_date_time\":\"2024-05-17\"}").is_ok());
}

#[test]
fn parse_takes_a_missing_field_for_absent() {
    let info = SystemInfo::parse("{\"record_date_time\":\"2024-05-17\",\"on_ac_power\":true}").unwrap();
    assert_eq!(info.payload(Field::OnAcPower), Some("true".to_string()));
    assert_eq!(info.payload(Field::Memory), None);
}

#[test]
fn parse_passes_over_members_it_does_not_know() {
    let info = SystemInfo::parse(" { \"extra\" : [1, 2] , \"record_date_time\" : \"2024-05-17\" } ").unwrap();
    assert_eq!(info.payload(Field::RecordDateTime), Some("\"2024-05-17\"".to_string()));
}

#[test]
fn parse_refuses_what_is_no_object() {
    assert!(SystemInfo::parse("").is_err());
    assert!(SystemInfo::parse("[]").is_err());
    assert!(SystemInfo::parse("{\"record_date_time\":\"2024-05-17\"").is_err());
    assert!(SystemInfo::parse("{\"record_date_time\":\"2024-05-17\"} x").is_err());
}

#[test]
fn from_members_reads_the_fields_by_name() {
    let members = vec![
        ("uptime".to_string(), "{\"secs\":5,\"nanos\":0}".to_string()),
        ("record_date_time".to_string(), "\"2024-05-17\"".to_string()),
        ("memory".to_string(), "null".to_string()),
    ];
    let info = SystemInfo::from_members(&members).unwrap();
    assert_eq!(info.payload(Field::Uptime), Some("{\"secs\":5,\"nanos\":0}".to_string()));
    assert_eq!(info.payload(Field::Memory), None);
    assert!(SystemInfo::from_members(&members[..1].to_vec()).is_err());
}

#[test]
fn clone_keeps_every_field() {
    let mut readings = all_failing();
    readings.on_ac_power = given("true");
    let info = SystemInfo::from_readings(day("2024-05-17"), readings);
    let copy = info.clone();
    assert_eq!(copy.save(), info.save());
}

#[test]
fn settle_time_is_one_second() {
    assert_eq!(SETTLE_SECONDS, 1);
}

#[test]
fn field_names_are_those_of_the_written_record() {
    assert_eq!(Field::RecordDateTime.name(), "record_date_time");
    assert_eq!(Field::BlockDeviceStats.name(), "block_device_stats");
    assert_eq!(Field::LoadAvg.name(), "load_avg");
    assert_eq!(Field::CpuLoadAggregate.name(), "cpu_load_aggregate");
}

#[test]
fn a_record_date_is_a_calendar_date() {
    assert!(RecordDate::new("2024-02-29").is_ok());
    assert!(RecordDate::new("1999-12-31").is_ok());
    assert!(RecordDate::new("2023-02-29").is_err());
    assert!(RecordDate::new("2024-13-01").is_err());
    assert!(RecordDate::new("").is_err());
    assert!(RecordDate::new("today").is_err());
    assert!(RecordDate::new("2024-05-17\",\"x\":\"").is_err());
}

#[test]
fn a_record_date_is_written_between_quotes() {
    let info = SystemInfo::from_readings(day("2024-05-17"), all_failing());
    assert_eq!(info.payload(Field::RecordDateTime), Some("\"2024-05-17\"".to_string()));
}

#[test]
fn every_query_failing_leaves_only_the_date() {
    let info = SystemInfo::from_readings(day("2024-05-17"), all_failing());
    for field in METRICS {
        assert_eq!(info.payload(field), None, "{:?}", field);
    }
    assert!(info.payload(Field::RecordDateTime).is_some());
}

#[test]
fn each_rate_goes_by_its_own_reading() {
    let mut readings = all_failing();
    readings.cpu_load = given("[]");
    let info = SystemInfo::from_readings(day("2024-05-17"), readings);
    assert_eq!(info.payload(Field::CpuLoad), Some("[]".to_string()));
    assert_eq!(info.payload(Field::CpuLoadAggregate), None);

    let mut readings = all_failing();
    readings.cpu_load_aggregate = given("{}");
    let info = SystemInfo::from_readings(day("2024-05-17"), readings);
    assert_eq!(info.payload(Field::CpuLoad), None);
    assert_eq!(info.payload(Field::CpuLoadAggregate), Some("{}".to_string()));
}

#[test]
fn same_as_compares_field_for_field() {
    let mut readings = all_failing();
    readings.on_ac_power = given("true");
    let a = SystemInfo::from_readings(day("2024-05-17"), readings);
    let mut readings = all_failing();
    readings.on_ac_power = given("true");
    let b = SystemInfo::from_readings(day("2024-05-17"), readings);
    let mut readings = all_failing();
    readings.on_ac_power = given("false");
    let c = SystemInfo::from_readings(day("2024-05-17"), readings);
    let d = SystemInfo::from_readings(day("2024-05-18"), all_failing());
    let mut readings = all_failing();
    readings.swap = given("true");
    let e = SystemInfo::from_readings(day("2024-05-17"), readings);
    assert!(a.same_as(&b));
    assert!(a.same_as(&a.clone()));
    assert!(!a.same_as(&c));
    assert!(!a.same_as(&d));
    assert!(!a.same_as(&e));
}

#[test]
fn is_loadable_holds_each_value_to_its_field() {
    let mut readings = all_failing();
    readings.on_ac_power = given("true");
    readings.uptime = given("{\"secs\":1,\"nanos\":0}");
    assert!(SystemInfo::from_readings(day("2024-05-17"), readings).is_loadable());
    assert!(SystemInfo::from_readings(day("2024-05-17"), all_failing()).is_loadable());

    let mut readings = all_failing();
    readings.on_ac_power = given("1");
    assert!(!SystemInfo::from_readings(day("2024-05-17"), readings).is_loadable());
    let mut readings = all_failing();
    readings.cpu_load_aggregate = given("[]");
    assert!(!SystemInfo::from_readings(day("2024-05-17"), readings).is_loadable());
}

#[test]
fn save_checked_gives_the_text_that_reads_back() {
    let mut readings = all_failing();
    readings.on_ac_power = given("true");
    let info = SystemInfo::from_readings(day("2024-05-17"), readings);
    assert_eq!(info.save_checked(), Some(info.save()));
}

#[test]
fn save_checked_holds_back_what_does_not_read_back() {
    let mut readings = all_failing();
    readings.memory = given("5");
    let info = SystemInfo::from_readings(day("2024-05-17"), readings);
    assert_eq!(info.save_checked(), None);

    let mut readings = all_failing();
    readings.on_ac_power = given("true,\"swap\":1");
    let info = SystemInfo::from_readings(day("2024-05-17"), readings);
    assert_eq!(info.save_checked(), None);
}

#[test]
fn readings_from_the_host_make_a_record() {
    let system = System::new();
    let memory = system.memory();
    let uptime = system.uptime();
    let load = system.cpu_load_aggregate();
    let load = load.and_then(|pending| pending.done());
    let mut readings = all_failing();
    let memory_present = memory.is_ok();
    readings.memory = memory.map(|value| serde_json::to_string(&value).unwrap());
    readings.uptime = uptime.map(|value| serde_json::to_string(&value).unwrap());
    readings.cpu_load_aggregate = load.map(|value| serde_json::to_string(&value).unwrap());
    let today = chrono::Utc::now().date_naive().to_string();
    let info = SystemInfo::from_readings(day(&today), readings);
    assert_eq!(info.payload(Field::Memory).is_some(), memory_present);
    assert_eq!(info.payload(Field::Swap), None);
    let value: serde_json::Value = serde_json::from_str(&info.save()).unwrap();
    assert_eq!(value.as_object().unwrap().len(), 15);
    assert_eq!(value["record_date_time"], serde_json::Value::String(today));
}
