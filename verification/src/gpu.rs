//! What is known of a device at one tick.

use crate::decimal::{push_decimal, signed_decimal};
use vstd::prelude::*;
use vstd::string::StringExecFns;

verus! {

/// Who made the device.
#[derive(Debug, Clone, Copy, PartialEq, Eq, Structural)]
pub enum GpuVendor {
    Nvidia,
    Amd,
    Intel,
    Unknown,
}

impl GpuVendor {
    pub open spec fn spec_name(self) -> Seq<char> {
        match self {
            GpuVendor::Nvidia => "Nvidia"@,
            GpuVendor::Amd => "Amd"@,
            GpuVendor::Intel => "Intel"@,
            GpuVendor::Unknown => "Unknown"@,
        }
    }

    /// The maker's name.
    pub fn name(&self) -> (name: &'static str)
        ensures
            name@ == self.spec_name(),
    {
        match self {
            GpuVendor::Nvidia => "Nvidia",
            GpuVendor::Amd => "Amd",
            GpuVendor::Intel => "Intel",
            GpuVendor::Unknown => "Unknown",
        }
    }
}

/// A device and its readings at one tick. Fractions are held in
/// thousandths of the unit.
#[derive(Debug, Clone, PartialEq, Eq)]
pub struct GpuInfo {
    pub index: usize,
    pub name: String,
    pub driver_version: String,
    pub cuda_version: Option<String>,
    /// Thousandths of a percent.
    pub utilization: u32,
    /// Bytes.
    pub memory_used: u64,
    /// Bytes.
    pub memory_total: u64,
    /// Thousandths of a degree Celsius.
    pub temperature: i32,
    /// Thousandths of a percent.
    pub fan_speed: Option<u32>,
    /// Milliwatts.
    pub power_draw: Option<u32>,
    /// Megahertz.
    pub gpu_clock: Option<u32>,
    /// Megahertz.
    pub memory_clock: Option<u32>,
    pub throttled: bool,
    pub vendor: GpuVendor,
}

/// A device with its texts as sequences of characters.
pub struct GpuInfoView {
    pub index: usize,
    pub name: Seq<char>,
    pub driver_version: Seq<char>,
    pub cuda_version: Option<Seq<char>>,
    pub utilization: u32,
    pub memory_used: u64,
    pub memory_total: u64,
    pub temperature: i32,
    pub fan_speed: Option<u32>,
    pub power_draw: Option<u32>,
    pub gpu_clock: Option<u32>,
    pub memory_clock: Option<u32>,
    pub throttled: bool,
    pub vendor: GpuVendor,
}

impl View for GpuInfo {
    type V = GpuInfoView;

    open spec fn view(&self) -> GpuInfoView {
        GpuInfoView {
            index: self.index,
            name: self.name@,
            driver_version: self.driver_version@,
            cuda_version: match self.cuda_version {
                Some(v) => Some(v@),
                None => None,
            },
            utilization: self.utilization,
            memory_used: self.memory_used,
            memory_total: self.memory_total,
            temperature: self.temperature,
            fan_speed: self.fan_speed,
            power_draw: self.power_draw,
            gpu_clock: self.gpu_clock,
            memory_clock: self.memory_clock,
            throttled: self.throttled,
            vendor: self.vendor,
        }
    }
}

/// The views of a run of devices, in order.
pub open spec fn gpu_views(gpus: Seq<GpuInfo>) -> Seq<GpuInfoView> {
    gpus.map_values(|g: GpuInfo| g@)
}

/// The device shown where none is detected.
pub open spec fn mock_gpu() -> GpuInfoView {
    GpuInfoView {
        index: 0,
        name: "Mock GPU"@,
        driver_version: "1.0.0"@,
        cuda_version: None,
        utilization: 45_000,
        memory_used: 2_147_483_648,
        memory_total: 8_589_934_592,
        temperature: 65_000,
        fan_speed: Some(60_000u32),
        power_draw: Some(150_000u32),
        gpu_clock: Some(1500u32),
        memory_clock: Some(7000u32),
        throttled: false,
        vendor: GpuVendor::Unknown,
    }
}

/// The devices to show: those detected, or the mock device where none is.
pub open spec fn with_fallback(detected: Seq<GpuInfoView>) -> Seq<GpuInfoView> {
    if detected.len() == 0 {
        seq![mock_gpu()]
    } else {
        detected
    }
}

/// What the driver reports of one device, in the driver's units.
#[derive(Debug, Clone, PartialEq, Eq)]
pub struct NvidiaReadings {
    pub index: u32,
    pub name: String,
    pub driver_version: String,
    /// The version of the CUDA driver as one number, 1000 for each major
    /// and 10 for each minor version.
    pub cuda_driver_version: Option<i32>,
    /// Percent.
    pub utilization: u32,
    /// Bytes.
    pub memory_used: u64,
    /// Bytes.
    pub memory_total: u64,
    /// Degrees Celsius.
    pub temperature: u32,
    /// Percent.
    pub fan_speed: Option<u32>,
    /// Milliwatts.
    pub power_usage: Option<u32>,
    /// Megahertz.
    pub gpu_clock: Option<u32>,
    /// Megahertz.
    pub memory_clock: Option<u32>,
}

/// What the driver reports, with its texts as sequences of characters.
pub struct NvidiaReadingsView {
    pub index: u32,
    pub name: Seq<char>,
    pub driver_version: Seq<char>,
    pub cuda_driver_version: Option<i32>,
    pub utilization: u32,
    pub memory_used: u64,
    pub memory_total: u64,
    pub temperature: u32,
    pub fan_speed: Option<u32>,
    pub power_usage: Option<u32>,
    pub gpu_clock: Option<u32>,
    pub memory_clock: Option<u32>,
}

impl View for NvidiaReadings {
    type V = NvidiaReadingsView;

    open spec fn view(&self) -> NvidiaReadingsView {
        NvidiaReadingsView {
            index: self.index,
            name: self.name@,
            driver_version: self.driver_version@,
            cuda_driver_version: self.cuda_driver_version,
            utilization: self.utilization,
            memory_used: self.memory_used,
            memory_total: self.memory_total,
            temperature: self.temperature,
            fan_speed: self.fan_speed,
            power_usage: self.power_usage,
            gpu_clock: self.gpu_clock,
            memory_clock: self.memory_clock,
        }
    }
}

/// The views of a run of readings, in order.
pub open spec fn readings_views(readings: Seq<NvidiaReadings>) -> Seq<NvidiaReadingsView> {
    readings.map_values(|r: NvidiaReadings| r@)
}

/// A whole number of units in thousandths, as far as a `u32` reaches.
pub open spec fn in_thousandths(units: u32) -> u32 {
    if units * 1000 > u32::MAX {
        u32::MAX
    } else {
        (units * 1000) as u32
    }
}

/// Whole degrees in thousandths of a degree, as far as an `i32` reaches.
pub open spec fn degrees_in_thousandths(degrees: u32) -> i32 {
    if degrees * 1000 > i32::MAX {
        i32::MAX
    } else {
        (degrees * 1000) as i32
    }
}

/// The size of a number, whatever its sign.
pub open spec fn magnitude(v: int) -> nat {
    if v < 0 {
        (-v) as nat
    } else {
        v as nat
    }
}

/// The version of CUDA as major and minor number with a point between:
/// the thousands of the driver's number and the tens of the rest. Of a
/// negative number each part that is not zero is negative.
pub open spec fn cuda_version_text(version: i32) -> Seq<char> {
    let size = magnitude(version as int);
    let major = (size / 1000) as int;
    let minor = ((size % 1000) / 10) as int;
    if version < 0 {
        signed_decimal(-major) + "."@ + signed_decimal(-minor)
    } else {
        signed_decimal(major) + "."@ + signed_decimal(minor)
    }
}

/// The device as the session holds it, made of what the driver reports.
pub open spec fn nvidia_gpu(readings: NvidiaReadingsView) -> GpuInfoView {
    GpuInfoView {
        index: readings.index as usize,
        name: readings.name,
        driver_version: readings.driver_version,
        cuda_version: match readings.cuda_driver_version {
            Some(v) => Some(cuda_version_text(v)),
            None => None,
        },
        utilization: in_thousandths(readings.utilization),
        memory_used: readings.memory_used,
        memory_total: readings.memory_total,
        temperature: degrees_in_thousandths(readings.temperature),
        fan_speed: match readings.fan_speed {
            Some(f) => Some(in_thousandths(f)),
            None => None,
        },
        power_draw: readings.power_usage,
        gpu_clock: readings.gpu_clock,
        memory_clock: readings.memory_clock,
        throttled: false,
        vendor: GpuVendor::Nvidia,
    }
}

/// The devices to show for what the driver reports, where there is a
/// driver: its devices in its order, or the mock device where it has none.
pub open spec fn gpu_infos(readings: Option<Seq<NvidiaReadingsView>>) -> Seq<GpuInfoView> {
    with_fallback(
        match readings {
            Some(r) => r.map_values(|d: NvidiaReadingsView| nvidia_gpu(d)),
            None => Seq::empty(),
        },
    )
}

fn thousandths(units: u32) -> (scaled: u32)
    ensures
        scaled == in_thousandths(units),
{
    if units > u32::MAX / 1000 {
        u32::MAX
    } else {
        units * 1000
    }
}

/// Finds the devices and what is known of them.
pub struct GpuManager;

impl GpuManager {
    /// Writes the version of CUDA that the driver reports as one number.
    pub fn cuda_version(version: i32) -> (text: String)
        ensures
            text@ == cuda_version_text(version),
    {
        let size: u64 = if version < 0 {
            (-(version as i64)) as u64
        } else {
            version as u64
        };
        let major = size / 1000;
        let minor = (size % 1000) / 10;
        let mut text = String::new();
        if version < 0 && major > 0 {
            text.push('-');
        }
        push_decimal(&mut text, major as u128);
        text.append(".");
        if version < 0 && minor > 0 {
            text.push('-');
        }
        push_decimal(&mut text, minor as u128);
        assert(text@ =~= cuda_version_text(version));
        text
    }

    /// The devices as the session holds them, made of what the driver
    /// reports of each.
    pub fn get_nvidia_info(readings: &Vec<NvidiaReadings>) -> (gpus: Vec<GpuInfo>)
        ensures
            gpu_views(gpus@) == readings_views(readings@).map_values(
                |d: NvidiaReadingsView| nvidia_gpu(d),
            ),
    {
        let mut gpus: Vec<GpuInfo> = Vec::new();
        let mut i: usize = 0;
        while i < readings.len()
            invariant
                i <= readings@.len(),
                gpus@.len() == i,
                forall|j: int| 0 <= j < i ==> (#[trigger] gpus@[j])@ == nvidia_gpu(readings@[j]@),
            decreases readings@.len() - i,
        {
            let device = &readings[i];
            let gpu = GpuInfo {
                index: device.index as usize,
                name: device.name.clone(),
                driver_version: device.driver_version.clone(),
                cuda_version: match device.cuda_driver_version {
                    Some(v) => Some(Self::cuda_version(v)),
                    None => None,
                },
                utilization: thousandths(device.utilization),
                memory_used: device.memory_used,
                memory_total: device.memory_total,
                temperature: if device.temperature > 2_147_483 {
                    i32::MAX
                } else {
                    (device.temperature * 1000) as i32
                },
                fan_speed: match device.fan_speed {
                    Some(f) => Some(thousandths(f)),
                    None => None,
                },
                power_draw: device.power_usage,
                gpu_clock: device.gpu_clock,
                memory_clock: device.memory_clock,
                throttled: false,
                vendor: GpuVendor::Nvidia,
            };
            gpus.push(gpu);
            i += 1;
        }
        assert(gpu_views(gpus@) =~= readings_views(readings@).map_values(
            |d: NvidiaReadingsView| nvidia_gpu(d),
        ));
        gpus
    }

    /// Adds the mock device where no device has been detected.
    pub fn get_fallback_info(gpus: &mut Vec<GpuInfo>)
        ensures
            gpu_views(final(gpus)@) == with_fallback(gpu_views(old(gpus)@)),
    {
        if gpus.len() == 0 {
            gpus.push(
                GpuInfo {
                    index: 0,
                    name: String::from_str("Mock GPU"),
                    driver_version: String::from_str("1.0.0"),
                    cuda_version: None,
                    utilization: 45_000,
                    memory_used: 2_147_483_648,
                    memory_total: 8_589_934_592,
                    temperature: 65_000,
                    fan_speed: Some(60_000),
                    power_draw: Some(150_000),
                    gpu_clock: Some(1500),
                    memory_clock: Some(7000),
                    throttled: false,
                    vendor: GpuVendor::Unknown,
                },
            );
            assert(gpu_views(gpus@) =~= seq![mock_gpu()]);
        }
        assert(gpu_views(gpus@) =~= with_fallback(gpu_views(old(gpus)@)));
    }

    /// The devices to show: those that the driver reports, where there is a
    /// driver, or the mock device where there is none to show.
    pub fn get_gpu_info(readings: Option<&Vec<NvidiaReadings>>) -> (gpus: Vec<GpuInfo>)
        ensures
            gpu_views(gpus@) == gpu_infos(
                match readings {
                    Some(r) => Some(readings_views(r@)),
                    None => None,
                },
            ),
            gpus@.len() > 0,
    {
        let mut gpus = match readings {
            Some(r) => Self::get_nvidia_info(r),
            None => {
                let none: Vec<GpuInfo> = Vec::new();
                assert(gpu_views(none@) =~= Seq::<GpuInfoView>::empty());
                none
            },
        };
        Self::get_fallback_info(&mut gpus);
        assert(gpu_views(gpus@).len() == gpus@.len());
        gpus
    }
}

} // verus!
