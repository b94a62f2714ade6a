//! CPU usage counters and CPU descriptions.
use crate::result::{is_other, Error, SigarResult};
use crate::session::extract_list;
use crate::util::{bytes_of, chars_to_string, text_of, INVALID_TEXT};
use vstd::prelude::*;
use vstd::utf8::{decode_utf8, valid_utf8};

verus! {

/// The native CPU counter record (`sigar_cpu_t`).
#[derive(Clone, Copy, Debug, PartialEq, Eq, Structural)]
pub struct RawCpu {
    pub user: u64,
    pub sys: u64,
    pub nice: u64,
    pub idle: u64,
    pub wait: u64,
    pub irq: u64,
    pub soft_irq: u64,
    pub stolen: u64,
    pub total: u64,
}

/// CPU usage
#[derive(Clone, Copy, Debug, PartialEq, Eq, Structural)]
pub struct CPUUsage {
    pub user: u64,
    pub sys: u64,
    pub nice: u64,
    pub idle: u64,
    pub wait: u64,
    pub irq: u64,
    pub soft_irq: u64,
    pub stolen: u64,
    pub total: u64,
}

/// CPU usage list
pub type CPUUsageList = Vec<CPUUsage>;

impl CPUUsage {
    /// The usage that a native record gives: every counter copied as it is.
    pub open spec fn spec_from_raw(raw: RawCpu) -> CPUUsage {
        CPUUsage {
            user: raw.user,
            sys: raw.sys,
            nice: raw.nice,
            idle: raw.idle,
            wait: raw.wait,
            irq: raw.irq,
            soft_irq: raw.soft_irq,
            stolen: raw.stolen,
            total: raw.total,
        }
    }

    /// Converts a native record.
    pub fn from_raw(raw: &RawCpu) -> (r: CPUUsage)
        ensures
            r == Self::spec_from_raw(*raw),
    {
        CPUUsage {
            user: raw.user,
            sys: raw.sys,
            nice: raw.nice,
            idle: raw.idle,
            wait: raw.wait,
            irq: raw.irq,
            soft_irq: raw.soft_irq,
            stolen: raw.stolen,
            total: raw.total,
        }
    }

    /// The native record holding these counters.
    pub fn to_raw(&self) -> (r: RawCpu)
        ensures
            Self::spec_from_raw(r) == *self,
    {
        RawCpu {
            user: self.user,
            sys: self.sys,
            nice: self.nice,
            idle: self.idle,
            wait: self.wait,
            irq: self.irq,
            soft_irq: self.soft_irq,
            stolen: self.stolen,
            total: self.total,
        }
    }
}

/// Returns cpu usage, from the outcome of the native CPU query.
pub fn get(fetched: SigarResult<RawCpu>) -> (r: SigarResult<CPUUsage>)
    ensures
        match fetched {
            Ok(raw) => r == Ok::<CPUUsage, Error>(CPUUsage::spec_from_raw(raw)),
            Err(e) => r == Err::<CPUUsage, Error>(e),
        },
{
    match fetched {
        Ok(raw) => Ok(CPUUsage::from_raw(&raw)),
        Err(e) => Err(e),
    }
}

/// Returns cpu usage list, from the outcome of the native CPU list query.
pub fn list(fetched: SigarResult<Vec<RawCpu>>) -> (r: SigarResult<CPUUsageList>)
    ensures
        match fetched {
            Ok(raw) => r matches Ok(v) && v@ == raw@.map_values(
                |c: RawCpu| CPUUsage::spec_from_raw(c),
            ),
            Err(e) => r == Err::<CPUUsageList, Error>(e),
        },
{
    match fetched {
        Ok(raw) => {
            let v = extract_list(&raw, CPUUsage::from_raw);
            assert(v@ =~= raw@.map_values(|c: RawCpu| CPUUsage::spec_from_raw(c)));
            Ok(v)
        },
        Err(e) => Err(e),
    }
}

/// The native CPU description record (`sigar_cpu_info_t`).
#[derive(Debug)]
pub struct RawCpuInfo {
    pub vendor: Vec<i8>,
    pub model: Vec<i8>,
    pub mhz: i32,
    pub mhz_max: i32,
    pub mhz_min: i32,
    pub cache_size: u64,
    pub total_sockets: i32,
    pub total_cores: i32,
    pub cores_per_socket: i32,
}

/// CPU informations
#[derive(Debug)]
pub struct CPUInfo {
    pub vendor: String,
    pub model: String,
    pub mhz: i32,
    pub mhz_max: i32,
    pub mhz_min: i32,
    pub cache_size: u64,
    pub total_sockets: i32,
    pub total_cores: i32,
    pub cores_per_socket: i32,
}

/// CPU info list
pub type CPUInfoList = Vec<CPUInfo>;

impl RawCpuInfo {
    /// The vendor and model fields both hold UTF-8 text.
    pub open spec fn has_text(&self) -> bool {
        &&& valid_utf8(text_of(bytes_of(self.vendor@)))
        &&& valid_utf8(text_of(bytes_of(self.model@)))
    }
}

impl CPUInfo {
    /// `self` is what the native record `raw` describes: the text of its
    /// vendor and model fields, and its numbers as they are.
    pub open spec fn from_raw_is(self, raw: RawCpuInfo) -> bool {
        &&& self.vendor@ == decode_utf8(text_of(bytes_of(raw.vendor@)))
        &&& self.model@ == decode_utf8(text_of(bytes_of(raw.model@)))
        &&& self.mhz == raw.mhz
        &&& self.mhz_max == raw.mhz_max
        &&& self.mhz_min == raw.mhz_min
        &&& self.cache_size == raw.cache_size
        &&& self.total_sockets == raw.total_sockets
        &&& self.total_cores == raw.total_cores
        &&& self.cores_per_socket == raw.cores_per_socket
    }

    /// Converts a native record; fails where a text field is not UTF-8.
    pub fn from_raw(raw: &RawCpuInfo) -> (r: SigarResult<CPUInfo>)
        ensures
            match r {
                Ok(info) => raw.has_text() && info.from_raw_is(*raw),
                Err(e) => !raw.has_text() && is_other(e, INVALID_TEXT@),
            },
    {
        let vendor = match chars_to_string(raw.vendor.as_slice()) {
            Ok(s) => s,
            Err(e) => return Err(e),
        };
        let model = match chars_to_string(raw.model.as_slice()) {
            Ok(s) => s,
            Err(e) => return Err(e),
        };
        Ok(CPUInfo {
            vendor,
            model,
            mhz: raw.mhz,
            mhz_max: raw.mhz_max,
            mhz_min: raw.mhz_min,
            cache_size: raw.cache_size,
            total_sockets: raw.total_sockets,
            total_cores: raw.total_cores,
            cores_per_socket: raw.cores_per_socket,
        })
    }
}

/// Converts each record of a native description list, in order; fails as a
/// whole where one record has a text field that is not UTF-8.
fn infos_from_raw(raw: &Vec<RawCpuInfo>) -> (r: SigarResult<CPUInfoList>)
    ensures
        match r {
            Ok(v) => {
                &&& forall|i: int| 0 <= i < raw@.len() ==> (#[trigger] raw@[i]).has_text()
                &&& v@.len() == raw@.len()
                &&& forall|i: int| 0 <= i < raw@.len() ==> (#[trigger] v@[i]).from_raw_is(raw@[i])
            },
            Err(e) => {
                &&& exists|i: int| 0 <= i < raw@.len() && !(#[trigger] raw@[i]).has_text()
                &&& is_other(e, INVALID_TEXT@)
            },
        },
{
    let mut out: Vec<CPUInfo> = Vec::with_capacity(raw.len());
    let mut i: usize = 0;
    while i < raw.len()
        invariant
            i <= raw@.len(),
            out@.len() == i,
            forall|j: int| 0 <= j < i ==> (#[trigger] raw@[j]).has_text(),
            forall|j: int| 0 <= j < i ==> (#[trigger] out@[j]).from_raw_is(raw@[j]),
        decreases raw@.len() - i,
    {
        match CPUInfo::from_raw(&raw[i]) {
            Ok(info) => out.push(info),
            Err(e) => {
                assert(!raw@[i as int].has_text());
                return Err(e);
            },
        }
        i += 1;
    }
    Ok(out)
}

/// Returns cpu info list, from the outcome of the native CPU description
/// list query; fails as a whole where one record has a text field that is
/// not UTF-8.
pub fn info_list(fetched: SigarResult<Vec<RawCpuInfo>>) -> (r: SigarResult<CPUInfoList>)
    ensures
        match fetched {
            Ok(raw) => match r {
                Ok(v) => {
                    &&& forall|i: int| 0 <= i < raw@.len() ==> (#[trigger] raw@[i]).has_text()
                    &&& v@.len() == raw@.len()
                    &&& forall|i: int| 0 <= i < raw@.len() ==> (#[trigger] v@[i]).from_raw_is(raw@[i])
                },
                Err(e) => {
                    &&& exists|i: int| 0 <= i < raw@.len() && !(#[trigger] raw@[i]).has_text()
                    &&& is_other(e, INVALID_TEXT@)
                },
            },
            Err(e) => r == Err::<CPUInfoList, Error>(e),
        },
{
    match fetched {
        Ok(raw) => infos_from_raw(&raw),
        Err(e) => Err(e),
    }
}

} // verus!
