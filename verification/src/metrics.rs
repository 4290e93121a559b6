use vstd::prelude::*;
use vstd::string::StringExecFns;

use crate::numtext::{parse_u32, parse_u64, spec_parse_u32, spec_parse_u64};
use crate::text::{spec_split, spec_trim, split_on, trim_blanks};

verus! {

/// One GPU's telemetry sample, as reported by the vendor tool.
#[derive(Debug, Clone)]
pub struct GpuMetrics {
    pub name: String,
    /// Utilization in percent.
    pub util: u32,
    /// Memory in use, in the tool's units.
    pub mem_used: u64,
    pub mem_total: u64,
}

/// A numeral's value, or zero where it is no numeral.
pub open spec fn u32_or_zero(o: Option<u32>) -> u32 {
    match o {
        Some(v) => v,
        None => 0,
    }
}

/// A numeral's value, or zero where it is no numeral.
pub open spec fn u64_or_zero(o: Option<u64>) -> u64 {
    match o {
        Some(v) => v,
        None => 0,
    }
}

/// Parse one line of the vendor tool's CSV telemetry:
/// name, utilization, memory used, memory total. Lines with fewer
/// than four fields are no sample; fields are trimmed, and a numeric
/// field that is no plain numeral counts as zero.
pub fn parse_gpu_line(line: &str) -> (r: Option<GpuMetrics>)
    ensures
        ({
            let fields = spec_split(line@, ',');
            match r {
                None => fields.len() < 4,
                Some(g) => {
                    &&& fields.len() >= 4
                    &&& g.name@ == spec_trim(fields[0])
                    &&& g.util == u32_or_zero(spec_parse_u32(spec_trim(fields[1])))
                    &&& g.mem_used == u64_or_zero(spec_parse_u64(spec_trim(fields[2])))
                    &&& g.mem_total == u64_or_zero(spec_parse_u64(spec_trim(fields[3])))
                },
            }
        }),
{
    let fields = split_on(line, ',');
    if fields.len() < 4 {
        return None;
    }
    assert(fields.deep_view()[0] == fields@[0]@);
    assert(fields.deep_view()[1] == fields@[1]@);
    assert(fields.deep_view()[2] == fields@[2]@);
    assert(fields.deep_view()[3] == fields@[3]@);
    let name = trim_blanks(fields[0].as_str());
    let util_text = trim_blanks(fields[1].as_str());
    let used_text = trim_blanks(fields[2].as_str());
    let total_text = trim_blanks(fields[3].as_str());
    let util = match parse_u32(util_text.as_str()) {
        Some(v) => v,
        None => 0,
    };
    let mem_used = match parse_u64(used_text.as_str()) {
        Some(v) => v,
        None => 0,
    };
    let mem_total = match parse_u64(total_text.as_str()) {
        Some(v) => v,
        None => 0,
    };
    Some(GpuMetrics { name, util, mem_used, mem_total })
}

} // verus!
