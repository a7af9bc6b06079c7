use vstd::prelude::*;

verus! {

/// The fields of one record, in the order in which they are written.
#[derive(Clone, Copy, Debug, PartialEq, Eq, Structural)]
pub enum Field {
    RecordDateTime,
    BatteryLife,
    BlockDeviceStats,
    BootTime,
    CpuTemp,
    LoadAvg,
    Memory,
    Mounts,
    Networks,
    OnAcPower,
    SocketStats,
    Swap,
    Uptime,
    CpuLoad,
    CpuLoadAggregate,
}

impl Field {
    /// The name under which the field stands in a written record.
    pub open spec fn key(self) -> Seq<char> {
        match self {
            Field::RecordDateTime => "record_date_time"@,
            Field::BatteryLife => "battery_life"@,
            Field::BlockDeviceStats => "block_device_stats"@,
            Field::BootTime => "boot_time"@,
            Field::CpuTemp => "cpu_temp"@,
            Field::LoadAvg => "load_avg"@,
            Field::Memory => "memory"@,
            Field::Mounts => "mounts"@,
            Field::Networks => "networks"@,
            Field::OnAcPower => "on_ac_power"@,
            Field::SocketStats => "socket_stats"@,
            Field::Swap => "swap"@,
            Field::Uptime => "uptime"@,
            Field::CpuLoad => "cpu_load"@,
            Field::CpuLoadAggregate => "cpu_load_aggregate"@,
        }
    }

    /// The field's name as text.
    pub fn name(self) -> (name: &'static str)
        ensures
            name@ == self.key(),
    {
        match self {
            Field::RecordDateTime => "record_date_time",
            Field::BatteryLife => "battery_life",
            Field::BlockDeviceStats => "block_device_stats",
            Field::BootTime => "boot_time",
            Field::CpuTemp => "cpu_temp",
            Field::LoadAvg => "load_avg",
            Field::Memory => "memory",
            Field::Mounts => "mounts",
            Field::Networks => "networks",
            Field::OnAcPower => "on_ac_power",
            Field::SocketStats => "socket_stats",
            Field::Swap => "swap",
            Field::Uptime => "uptime",
            Field::CpuLoad => "cpu_load",
            Field::CpuLoadAggregate => "cpu_load_aggregate",
        }
    }
}

} // verus!
