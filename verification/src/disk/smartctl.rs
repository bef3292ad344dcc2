//! Reading `smartctl` output: its JSON report (once parsed into plain
//! values) and its text report.

use vstd::prelude::*;
use crate::disk::SmartData;
use crate::text::{
    chars_of, contains_seq, lines, lines_of, parse_u64_spec, str_contains, str_parse_u64, str_starts_with, str_trim,
    string_of_range, sviews, trim, words, words_of,
};

verus! {

/// Index of the first `c` in `s`, or -1.
pub open spec fn first_index(s: Seq<char>, c: char) -> int
    decreases s.len(),
{
    if s.len() == 0 {
        -1
    } else if s[0] == c {
        0
    } else {
        let k = first_index(s.skip(1), c);
        if k < 0 { -1 } else { k + 1 }
    }
}

/// The whole disk of a partition (`/dev/disk0s2` gives `/dev/disk0`): a
/// `/dev/disk...` device is cut before the first `s` that follows the disk
/// number, that is the first `s` after the `/dev/disk` prefix when at least
/// one character lies between them; any other device stays as it is.
pub open spec fn base_device_spec(device: Seq<char>) -> Seq<char> {
    if "/dev/disk"@.is_prefix_of(device) && first_index(device.skip(9), 's') > 0 {
        device.take(9 + first_index(device.skip(9), 's'))
    } else {
        device
    }
}

/// The device `smartctl` is asked about for `device`.
pub fn get_base_device(device: &str) -> (r: String)
    ensures
        r@ == base_device_spec(device@),
{
    let v = chars_of(device);
    proof {
        reveal_strlit("/dev/disk");
    }
    if str_starts_with(device, "/dev/disk") {
        let mut i: usize = 9;
        while i < v.len() && v[i] != 's'
            invariant
                9 <= i <= v@.len(),
                v@ == device@,
                forall|j: int| 9 <= j < i ==> v@[j] != 's',
            decreases v@.len() - i,
        {
            i = i + 1;
        }
        proof {
            let t = v@.skip(9);
            assert forall|j: int| 0 <= j < i - 9 implies t[j] != 's' by {
                assert(t[j] == v@[j + 9]);
            }
            if i < v.len() {
                assert(t[i - 9] == v@[i as int]);
            }
            lemma_first_index(t, 's', i - 9);
        }
        if i < v.len() && i > 9 {
            let r = string_of_range(&v, 0, i);
            assert(v@.subrange(0, i as int) =~= device@.take(i as int));
            return r;
        }
    }
    String::from_str(device)
}

proof fn lemma_first_index(s: Seq<char>, c: char, i: int)
    requires
        0 <= i <= s.len(),
        forall|j: int| 0 <= j < i ==> s[j] != c,
        i < s.len() ==> s[i] == c,
    ensures
        first_index(s, c) == if i < s.len() { i } else { -1 },
    decreases s.len(),
{
    if s.len() > 0 && i > 0 {
        assert forall|j: int| 0 <= j < i - 1 implies s.skip(1)[j] != c by {
            assert(s.skip(1)[j] == s[j + 1]);
        }
        if i < s.len() {
            assert(s.skip(1)[i - 1] == s[i]);
        }
        lemma_first_index(s.skip(1), c, i - 1);
    }
}

/// `s` without every trailing `c`.
pub open spec fn trim_end_char(s: Seq<char>, c: char) -> Seq<char>
    decreases s.len(),
{
    if s.len() > 0 && s.last() == c { trim_end_char(s.drop_last(), c) } else { s }
}

/// A word read as a number once trailing `%` and then trailing `C` are cut.
pub open spec fn unit_number(w: Seq<char>) -> Option<u64> {
    parse_u64_spec(trim_end_char(trim_end_char(w, '%'), 'C'))
}

/// The first word of `ws` that reads as a number, with its unit cut.
pub open spec fn first_number(ws: Seq<Seq<char>>) -> Option<u64>
    decreases ws.len(),
{
    if ws.len() == 0 {
        None
    } else {
        match unit_number(ws[0]) {
            Some(n) => Some(n),
            None => first_number(ws.skip(1)),
        }
    }
}

/// The last word of `ws` that reads as a number.
pub open spec fn last_number(ws: Seq<Seq<char>>) -> Option<u64>
    decreases ws.len(),
{
    if ws.len() == 0 {
        None
    } else {
        match parse_u64_spec(ws.last()) {
            Some(n) => Some(n),
            None => last_number(ws.drop_last()),
        }
    }
}

fn trim_end_char_exec(w: &str, c: char) -> (r: String)
    ensures
        r@ == trim_end_char(w@, c),
{
    let v = chars_of(w);
    let mut n = v.len();
    assert(v@.take(n as int) =~= v@);
    while n > 0 && v[n - 1] == c
        invariant
            n <= v@.len(),
            trim_end_char(w@, c) == trim_end_char(v@.take(n as int), c),
            v@ == w@,
        decreases n,
    {
        assert(v@.take(n as int).drop_last() =~= v@.take(n - 1));
        n = n - 1;
    }
    let r = string_of_range(&v, 0, n);
    assert(v@.subrange(0, n as int) =~= v@.take(n as int));
    r
}

/// The first number in a line (a temperature of `42 C`, a `10%`...).
pub fn extract_number(s: &str) -> (r: Option<u64>)
    ensures
        r == first_number(words(s@)),
{
    let ws = words_of(s);
    let mut i: usize = 0;
    assert(sviews(ws@).skip(0) =~= sviews(ws@));
    while i < ws.len()
        invariant
            i <= ws@.len(),
            sviews(ws@) == words(s@),
            first_number(words(s@)) == first_number(sviews(ws@).skip(i as int)),
        decreases ws@.len() - i,
    {
        proof {
            assert(sviews(ws@).skip(i as int)[0] == ws@[i as int]@);
            assert(sviews(ws@).skip(i as int).skip(1) =~= sviews(ws@).skip(i + 1));
        }
        let a = trim_end_char_exec(ws[i].as_str(), '%');
        let b = trim_end_char_exec(a.as_str(), 'C');
        match str_parse_u64(b.as_str()) {
            Some(n) => {
                return Some(n);
            },
            None => {},
        }
        i = i + 1;
    }
    None
}

/// The last number in a line (the raw value of an ATA attribute).
pub fn extract_last_number(s: &str) -> (r: Option<u64>)
    ensures
        r == last_number(words(s@)),
{
    let ws = words_of(s);
    let mut i: usize = ws.len();
    assert(sviews(ws@).take(ws@.len() as int) =~= sviews(ws@));
    while i > 0
        invariant
            i <= ws@.len(),
            sviews(ws@) == words(s@),
            last_number(words(s@)) == last_number(sviews(ws@).take(i as int)),
        decreases i,
    {
        proof {
            assert(sviews(ws@).take(i as int).last() == ws@[i - 1]@);
            assert(sviews(ws@).take(i as int).drop_last() =~= sviews(ws@).take(i - 1));
        }
        match str_parse_u64(ws[i - 1].as_str()) {
            Some(n) => {
                return Some(n);
            },
            None => {},
        }
        i = i - 1;
    }
    None
}

/// What a trimmed line of the text report changes of the data read so far.
/// An ATA attribute row (`Temperature_Celsius`, `Power_On_Hours`,
/// `Power_Cycle_Count`, `Reallocated_Sector...`) gives its raw value, the
/// last number of the row; the `Key: value` lines of an NVMe report give
/// their first number.
pub open spec fn text_line_update(d: SmartData, l: Seq<char>) -> SmartData {
    let n = first_number(words(l));
    let last = last_number(words(l));
    let temp = if contains_seq(l, "Temperature_Celsius"@) { last } else { n };
    let d1 = if (contains_seq(l, "Temperature:"@) || contains_seq(l, "Temperature_Celsius"@)) && temp is Some {
        SmartData { temperature_celsius: Some(temp->0 as u32), ..d }
    } else {
        d
    };
    let hours = if contains_seq(l, "Power_On_Hours"@) { last } else { n };
    let d2 = if (contains_seq(l, "Power_On_Hours"@) || contains_seq(l, "Power On Hours:"@)) && hours is Some {
        SmartData { power_on_hours: hours, ..d1 }
    } else {
        d1
    };
    let cycles = if contains_seq(l, "Power_Cycle_Count"@) { last } else { n };
    let d3 = if (contains_seq(l, "Power_Cycle_Count"@) || contains_seq(l, "Power Cycles:"@)) && cycles is Some {
        SmartData { power_cycles: cycles, ..d2 }
    } else {
        d2
    };
    let d4 = if contains_seq(l, "Percentage Used:"@) && n is Some {
        SmartData { percentage_used: Some(n->0 as u8), ..d3 }
    } else {
        d3
    };
    let d5 = if contains_seq(l, "Available Spare:"@) && n is Some {
        SmartData { available_spare: Some(n->0 as u8), ..d4 }
    } else {
        d4
    };
    let d6 = if contains_seq(l, "Reallocated_Sector"@) && last is Some {
        SmartData { reallocated_sectors: last, ..d5 }
    } else {
        d5
    };
    let d7 = if contains_seq(l, "Unsafe Shutdowns:"@) && n is Some {
        SmartData { unsafe_shutdowns: n, ..d6 }
    } else {
        d6
    };
    if contains_seq(l, "Media and Data Integrity Errors:"@) && n is Some {
        SmartData { media_errors: n, ..d7 }
    } else {
        d7
    }
}

/// The data read from the lines of the text report, line after line.
pub open spec fn text_report(ls: Seq<Seq<char>>) -> SmartData
    decreases ls.len(),
{
    if ls.len() == 0 {
        SmartData {
            temperature_celsius: None,
            power_on_hours: None,
            power_cycles: None,
            percentage_used: None,
            available_spare: None,
            read_error_rate: None,
            write_error_rate: None,
            reallocated_sectors: None,
            pending_sectors: None,
            uncorrectable_sectors: None,
            data_units_read: None,
            data_units_written: None,
            unsafe_shutdowns: None,
            media_errors: None,
        }
    } else {
        text_line_update(text_report(ls.drop_last()), trim(ls.last()))
    }
}

/// Read the text report of `smartctl -a`.
pub fn parse_text_output(text: &str) -> (r: Result<SmartData, String>)
    ensures
        r matches Ok(d) && d == text_report(lines(text@)),
{
    let ls = lines_of(text);
    let mut d = SmartData::default();
    let mut i: usize = 0;
    while i < ls.len()
        invariant
            i <= ls@.len(),
            d == text_report(sviews(ls@).take(i as int)),
        decreases ls@.len() - i,
    {
        proof {
            assert(sviews(ls@).take(i + 1).drop_last() =~= sviews(ls@).take(i as int));
            assert(sviews(ls@).take(i + 1).last() == ls@[i as int]@);
        }
        let l = str_trim(ls[i].as_str());
        let ls_ = l.as_str();
        let n = extract_number(ls_);
        let last = extract_last_number(ls_);
        let temp = if str_contains(ls_, "Temperature_Celsius") { last } else { n };
        if (str_contains(ls_, "Temperature:") || str_contains(ls_, "Temperature_Celsius")) && temp.is_some() {
            d.temperature_celsius = Some(temp.unwrap() as u32);
        }
        let hours = if str_contains(ls_, "Power_On_Hours") { last } else { n };
        if (str_contains(ls_, "Power_On_Hours") || str_contains(ls_, "Power On Hours:")) && hours.is_some() {
            d.power_on_hours = hours;
        }
        let cycles = if str_contains(ls_, "Power_Cycle_Count") { last } else { n };
        if (str_contains(ls_, "Power_Cycle_Count") || str_contains(ls_, "Power Cycles:")) && cycles.is_some() {
            d.power_cycles = cycles;
        }
        if str_contains(ls_, "Percentage Used:") && n.is_some() {
            d.percentage_used = Some(n.unwrap() as u8);
        }
        if str_contains(ls_, "Available Spare:") && n.is_some() {
            d.available_spare = Some(n.unwrap() as u8);
        }
        if str_contains(ls_, "Reallocated_Sector") && last.is_some() {
            d.reallocated_sectors = last;
        }
        if str_contains(ls_, "Unsafe Shutdowns:") && n.is_some() {
            d.unsafe_shutdowns = n;
        }
        if str_contains(ls_, "Media and Data Integrity Errors:") && n.is_some() {
            d.media_errors = n;
        }
        i = i + 1;
    }
    assert(sviews(ls@).take(ls@.len() as int) =~= sviews(ls@));
    Ok(d)
}

/// The NVMe health log of a JSON report, its values read as numbers
/// (`None` where a value is missing or no unsigned number).
#[derive(Debug, Clone)]
pub struct NvmeLog {
    pub percentage_used: Option<u64>,
    pub available_spare: Option<u64>,
    pub data_units_read: Option<u64>,
    pub data_units_written: Option<u64>,
    pub unsafe_shutdowns: Option<u64>,
    pub media_errors: Option<u64>,
}

/// An ATA attribute of a JSON report: its id and raw value.
#[derive(Debug, Clone)]
pub struct AtaAttribute {
    pub id: Option<u64>,
    pub raw_value: Option<u64>,
}

/// What the JSON report of `smartctl` holds, as plain values.
#[derive(Debug, Clone)]
pub struct SmartJson {
    /// `temperature.current`.
    pub temperature: Option<u64>,
    /// `power_on_time.hours`.
    pub power_on_hours: Option<u64>,
    /// `power_cycle_count`.
    pub power_cycle_count: Option<u64>,
    /// `nvme_smart_health_information_log`, when present.
    pub nvme: Option<NvmeLog>,
    /// `ata_smart_attributes.table`, when present and an array.
    pub ata_table: Option<Vec<AtaAttribute>>,
}

/// What an ATA attribute changes of the data read so far (attributes 1, 5,
/// 9, 12, 190/194, 197 and 198).
pub open spec fn ata_update(d: SmartData, a: AtaAttribute) -> SmartData {
    let id = match a.id {
        Some(i) => i,
        None => 0,
    };
    let raw = match a.raw_value {
        Some(v) => v,
        None => 0,
    };
    if id == 1 {
        SmartData { read_error_rate: Some(raw), ..d }
    } else if id == 5 {
        SmartData { reallocated_sectors: Some(raw), ..d }
    } else if id == 9 {
        SmartData { power_on_hours: Some(raw), ..d }
    } else if id == 12 {
        SmartData { power_cycles: Some(raw), ..d }
    } else if id == 194 || id == 190 {
        SmartData { temperature_celsius: Some(raw as u32), ..d }
    } else if id == 197 {
        SmartData { pending_sectors: Some(raw), ..d }
    } else if id == 198 {
        SmartData { uncorrectable_sectors: Some(raw), ..d }
    } else {
        d
    }
}

pub open spec fn ata_fold(d: SmartData, attrs: Seq<AtaAttribute>) -> SmartData
    decreases attrs.len(),
{
    if attrs.len() == 0 { d } else { ata_update(ata_fold(d, attrs.drop_last()), attrs.last()) }
}

pub open spec fn cut_u32(v: Option<u64>) -> Option<u32> {
    match v {
        Some(x) => Some(x as u32),
        None => None,
    }
}

pub open spec fn cut_u8(v: Option<u64>) -> Option<u8> {
    match v {
        Some(x) => Some(x as u8),
        None => None,
    }
}

/// The data of a JSON report: the temperature, power-on hours and power
/// cycles; then the NVMe log when present; then the ATA attributes in
/// order, each overriding what came before.
pub open spec fn json_report(j: SmartJson) -> SmartData {
    let d0 = SmartData {
        temperature_celsius: cut_u32(j.temperature),
        power_on_hours: j.power_on_hours,
        power_cycles: j.power_cycle_count,
        percentage_used: None,
        available_spare: None,
        read_error_rate: None,
        write_error_rate: None,
        reallocated_sectors: None,
        pending_sectors: None,
        uncorrectable_sectors: None,
        data_units_read: None,
        data_units_written: None,
        unsafe_shutdowns: None,
        media_errors: None,
    };
    let d1 = match j.nvme {
        Some(n) => SmartData {
            percentage_used: cut_u8(n.percentage_used),
            available_spare: cut_u8(n.available_spare),
            data_units_read: n.data_units_read,
            data_units_written: n.data_units_written,
            unsafe_shutdowns: n.unsafe_shutdowns,
            media_errors: n.media_errors,
            ..d0
        },
        None => d0,
    };
    match j.ata_table {
        Some(t) => ata_fold(d1, t@),
        None => d1,
    }
}

/// The SMART data of a JSON report.
pub fn parse_json_report(j: &SmartJson) -> (r: SmartData)
    ensures
        r == json_report(*j),
{
    let mut d = SmartData::default();
    d.temperature_celsius = match j.temperature {
        Some(t) => Some(t as u32),
        None => None,
    };
    d.power_on_hours = j.power_on_hours;
    d.power_cycles = j.power_cycle_count;
    match &j.nvme {
        Some(n) => {
            d.percentage_used = match n.percentage_used {
                Some(v) => Some(v as u8),
                None => None,
            };
            d.available_spare = match n.available_spare {
                Some(v) => Some(v as u8),
                None => None,
            };
            d.data_units_read = n.data_units_read;
            d.data_units_written = n.data_units_written;
            d.unsafe_shutdowns = n.unsafe_shutdowns;
            d.media_errors = n.media_errors;
        },
        None => {},
    }
    match &j.ata_table {
        Some(t) => {
            let ghost d1 = d;
            let mut i: usize = 0;
            while i < t.len()
                invariant
                    i <= t@.len(),
                    d == ata_fold(d1, t@.take(i as int)),
                decreases t@.len() - i,
            {
                proof {
                    assert(t@.take(i + 1).drop_last() =~= t@.take(i as int));
                }
                let a = &t[i];
                let id = match a.id {
                    Some(x) => x,
                    None => 0,
                };
                let raw = match a.raw_value {
                    Some(v) => v,
                    None => 0,
                };
                if id == 1 {
                    d.read_error_rate = Some(raw);
                } else if id == 5 {
                    d.reallocated_sectors = Some(raw);
                } else if id == 9 {
                    d.power_on_hours = Some(raw);
                } else if id == 12 {
                    d.power_cycles = Some(raw);
                } else if id == 194 || id == 190 {
                    d.temperature_celsius = Some(raw as u32);
                } else if id == 197 {
                    d.pending_sectors = Some(raw);
                } else if id == 198 {
                    d.uncorrectable_sectors = Some(raw);
                }
                i = i + 1;
            }
            assert(t@.take(t@.len() as int) =~= t@);
        },
        None => {},
    }
    d
}


proof fn lemma_last_pending(d: SmartData, attrs: Seq<AtaAttribute>, k: int)
    requires
        0 <= k < attrs.len(),
        attrs[k].id == Some(197u64),
        forall|m: int| k < m < attrs.len() ==> (#[trigger] attrs[m]).id != Some(197u64),
    ensures
        ata_fold(d, attrs).pending_sectors == Some(match attrs[k].raw_value {
            Some(v) => v,
            None => 0u64,
        }),
    decreases attrs.len(),
{
    if k < attrs.len() - 1 {
        let w = attrs.drop_last();
        assert forall|m: int| k < m < w.len() implies (#[trigger] w[m]).id != Some(197u64) by {
            assert(w[m] == attrs[m]);
        }
        assert(w[k] == attrs[k]);
        lemma_last_pending(d, w, k);
        assert(attrs.last().id != Some(197u64));
    }
}

proof fn lemma_none_pending(d: SmartData, attrs: Seq<AtaAttribute>)
    requires
        forall|m: int| 0 <= m < attrs.len() ==> (#[trigger] attrs[m]).id != Some(197u64),
    ensures
        ata_fold(d, attrs).pending_sectors == d.pending_sectors,
    decreases attrs.len(),
{
    if attrs.len() > 0 {
        let w = attrs.drop_last();
        assert forall|m: int| 0 <= m < w.len() implies (#[trigger] w[m]).id != Some(197u64) by {
            assert(w[m] == attrs[m]);
        }
        lemma_none_pending(d, w);
        assert(attrs.last().id != Some(197u64));
    }
}

proof fn lemma_last_uncorrectable(d: SmartData, attrs: Seq<AtaAttribute>, k: int)
    requires
        0 <= k < attrs.len(),
        attrs[k].id == Some(198u64),
        forall|m: int| k < m < attrs.len() ==> (#[trigger] attrs[m]).id != Some(198u64),
    ensures
        ata_fold(d, attrs).uncorrectable_sectors == Some(match attrs[k].raw_value {
            Some(v) => v,
            None => 0u64,
        }),
    decreases attrs.len(),
{
    if k < attrs.len() - 1 {
        let w = attrs.drop_last();
        assert forall|m: int| k < m < w.len() implies (#[trigger] w[m]).id != Some(198u64) by {
            assert(w[m] == attrs[m]);
        }
        assert(w[k] == attrs[k]);
        lemma_last_uncorrectable(d, w, k);
        assert(attrs.last().id != Some(198u64));
    }
}

proof fn lemma_none_uncorrectable(d: SmartData, attrs: Seq<AtaAttribute>)
    requires
        forall|m: int| 0 <= m < attrs.len() ==> (#[trigger] attrs[m]).id != Some(198u64),
    ensures
        ata_fold(d, attrs).uncorrectable_sectors == d.uncorrectable_sectors,
    decreases attrs.len(),
{
    if attrs.len() > 0 {
        let w = attrs.drop_last();
        assert forall|m: int| 0 <= m < w.len() implies (#[trigger] w[m]).id != Some(198u64) by {
            assert(w[m] == attrs[m]);
        }
        lemma_none_uncorrectable(d, w);
        assert(attrs.last().id != Some(198u64));
    }
}

/// In a JSON report, ATA attribute 197 (current pending sectors) gives the
/// pending sectors and attribute 198 (offline uncorrectable) the
/// uncorrectable sectors, each its raw value (the last such attribute in
/// the table); without attribute 197 there is no pending count and without
/// 198 no uncorrectable count, whatever else the table holds.
pub proof fn law_sector_counts_come_from_their_attributes(j: SmartJson, k: int)
    requires
        j.ata_table is Some,
    ensures
        ({
            let t = j.ata_table->0@;
            &&& (0 <= k < t.len() && t[k].id == Some(197u64) && (forall|m: int| k < m < t.len() ==> (#[trigger] t[m]).id != Some(197u64)))
                ==> json_report(j).pending_sectors == Some(match t[k].raw_value {
                    Some(v) => v,
                    None => 0u64,
                })
            &&& (0 <= k < t.len() && t[k].id == Some(198u64) && (forall|m: int| k < m < t.len() ==> (#[trigger] t[m]).id != Some(198u64)))
                ==> json_report(j).uncorrectable_sectors == Some(match t[k].raw_value {
                    Some(v) => v,
                    None => 0u64,
                })
            &&& (forall|m: int| 0 <= m < t.len() ==> (#[trigger] t[m]).id != Some(197u64)) ==> json_report(j).pending_sectors is None
            &&& (forall|m: int| 0 <= m < t.len() ==> (#[trigger] t[m]).id != Some(198u64)) ==> json_report(j).uncorrectable_sectors is None
        }),
{
    let t = j.ata_table->0@;
    let d0 = SmartData {
        temperature_celsius: cut_u32(j.temperature),
        power_on_hours: j.power_on_hours,
        power_cycles: j.power_cycle_count,
        percentage_used: None,
        available_spare: None,
        read_error_rate: None,
        write_error_rate: None,
        reallocated_sectors: None,
        pending_sectors: None,
        uncorrectable_sectors: None,
        data_units_read: None,
        data_units_written: None,
        unsafe_shutdowns: None,
        media_errors: None,
    };
    let d1 = match j.nvme {
        Some(n) => SmartData {
            percentage_used: cut_u8(n.percentage_used),
            available_spare: cut_u8(n.available_spare),
            data_units_read: n.data_units_read,
            data_units_written: n.data_units_written,
            unsafe_shutdowns: n.unsafe_shutdowns,
            media_errors: n.media_errors,
            ..d0
        },
        None => d0,
    };
    assert(json_report(j) == ata_fold(d1, t));
    if 0 <= k < t.len() && t[k].id == Some(197u64) && (forall|m: int| k < m < t.len() ==> (#[trigger] t[m]).id != Some(197u64)) {
        lemma_last_pending(d1, t, k);
    }
    if 0 <= k < t.len() && t[k].id == Some(198u64) && (forall|m: int| k < m < t.len() ==> (#[trigger] t[m]).id != Some(198u64)) {
        lemma_last_uncorrectable(d1, t, k);
    }
    if forall|m: int| 0 <= m < t.len() ==> (#[trigger] t[m]).id != Some(197u64) {
        lemma_none_pending(d1, t);
    }
    if forall|m: int| 0 <= m < t.len() ==> (#[trigger] t[m]).id != Some(198u64) {
        lemma_none_uncorrectable(d1, t);
    }
}


proof fn lemma_last_read(d: SmartData, attrs: Seq<AtaAttribute>, k: int)
    requires
        0 <= k < attrs.len(),
        (attrs[k].id == Some(1u64)),
        forall|m: int| k < m < attrs.len() ==> !((#[trigger] attrs[m]).id == Some(1u64)),
    ensures
        ata_fold(d, attrs).read_error_rate == Some(match attrs[k].raw_value {
            Some(v) => v,
            None => 0u64,
        }),
    decreases attrs.len(),
{
    if k < attrs.len() - 1 {
        let w = attrs.drop_last();
        assert forall|m: int| k < m < w.len() implies !((#[trigger] w[m]).id == Some(1u64)) by {
            assert(w[m] == attrs[m]);
        }
        assert(w[k] == attrs[k]);
        lemma_last_read(d, w, k);
        assert(!(attrs.last().id == Some(1u64)));
    }
}

proof fn lemma_none_read(d: SmartData, attrs: Seq<AtaAttribute>)
    requires
        forall|m: int| 0 <= m < attrs.len() ==> !((#[trigger] attrs[m]).id == Some(1u64)),
    ensures
        ata_fold(d, attrs).read_error_rate == d.read_error_rate,
    decreases attrs.len(),
{
    if attrs.len() > 0 {
        let w = attrs.drop_last();
        assert forall|m: int| 0 <= m < w.len() implies !((#[trigger] w[m]).id == Some(1u64)) by {
            assert(w[m] == attrs[m]);
        }
        lemma_none_read(d, w);
        assert(!(attrs.last().id == Some(1u64)));
    }
}

proof fn lemma_last_realloc(d: SmartData, attrs: Seq<AtaAttribute>, k: int)
    requires
        0 <= k < attrs.len(),
        (attrs[k].id == Some(5u64)),
        forall|m: int| k < m < attrs.len() ==> !((#[trigger] attrs[m]).id == Some(5u64)),
    ensures
        ata_fold(d, attrs).reallocated_sectors == Some(match attrs[k].raw_value {
            Some(v) => v,
            None => 0u64,
        }),
    decreases attrs.len(),
{
    if k < attrs.len() - 1 {
        let w = attrs.drop_last();
        assert forall|m: int| k < m < w.len() implies !((#[trigger] w[m]).id == Some(5u64)) by {
            assert(w[m] == attrs[m]);
        }
        assert(w[k] == attrs[k]);
        lemma_last_realloc(d, w, k);
        assert(!(attrs.last().id == Some(5u64)));
    }
}

proof fn lemma_none_realloc(d: SmartData, attrs: Seq<AtaAttribute>)
    requires
        forall|m: int| 0 <= m < attrs.len() ==> !((#[trigger] attrs[m]).id == Some(5u64)),
    ensures
        ata_fold(d, attrs).reallocated_sectors == d.reallocated_sectors,
    decreases attrs.len(),
{
    if attrs.len() > 0 {
        let w = attrs.drop_last();
        assert forall|m: int| 0 <= m < w.len() implies !((#[trigger] w[m]).id == Some(5u64)) by {
            assert(w[m] == attrs[m]);
        }
        lemma_none_realloc(d, w);
        assert(!(attrs.last().id == Some(5u64)));
    }
}

proof fn lemma_last_hours(d: SmartData, attrs: Seq<AtaAttribute>, k: int)
    requires
        0 <= k < attrs.len(),
        (attrs[k].id == Some(9u64)),
        forall|m: int| k < m < attrs.len() ==> !((#[trigger] attrs[m]).id == Some(9u64)),
    ensures
        ata_fold(d, attrs).power_on_hours == Some(match attrs[k].raw_value {
            Some(v) => v,
            None => 0u64,
        }),
    decreases attrs.len(),
{
    if k < attrs.len() - 1 {
        let w = attrs.drop_last();
        assert forall|m: int| k < m < w.len() implies !((#[trigger] w[m]).id == Some(9u64)) by {
            assert(w[m] == attrs[m]);
        }
        assert(w[k] == attrs[k]);
        lemma_last_hours(d, w, k);
        assert(!(attrs.last().id == Some(9u64)));
    }
}

proof fn lemma_none_hours(d: SmartData, attrs: Seq<AtaAttribute>)
    requires
        forall|m: int| 0 <= m < attrs.len() ==> !((#[trigger] attrs[m]).id == Some(9u64)),
    ensures
        ata_fold(d, attrs).power_on_hours == d.power_on_hours,
    decreases attrs.len(),
{
    if attrs.len() > 0 {
        let w = attrs.drop_last();
        assert forall|m: int| 0 <= m < w.len() implies !((#[trigger] w[m]).id == Some(9u64)) by {
            assert(w[m] == attrs[m]);
        }
        lemma_none_hours(d, w);
        assert(!(attrs.last().id == Some(9u64)));
    }
}

proof fn lemma_last_cycles(d: SmartData, attrs: Seq<AtaAttribute>, k: int)
    requires
        0 <= k < attrs.len(),
        (attrs[k].id == Some(12u64)),
        forall|m: int| k < m < attrs.len() ==> !((#[trigger] attrs[m]).id == Some(12u64)),
    ensures
        ata_fold(d, attrs).power_cycles == Some(match attrs[k].raw_value {
            Some(v) => v,
            None => 0u64,
        }),
    decreases attrs.len(),
{
    if k < attrs.len() - 1 {
        let w = attrs.drop_last();
        assert forall|m: int| k < m < w.len() implies !((#[trigger] w[m]).id == Some(12u64)) by {
            assert(w[m] == attrs[m]);
        }
        assert(w[k] == attrs[k]);
        lemma_last_cycles(d, w, k);
        assert(!(attrs.last().id == Some(12u64)));
    }
}

proof fn lemma_none_cycles(d: SmartData, attrs: Seq<AtaAttribute>)
    requires
        forall|m: int| 0 <= m < attrs.len() ==> !((#[trigger] attrs[m]).id == Some(12u64)),
    ensures
        ata_fold(d, attrs).power_cycles == d.power_cycles,
    decreases attrs.len(),
{
    if attrs.len() > 0 {
        let w = attrs.drop_last();
        assert forall|m: int| 0 <= m < w.len() implies !((#[trigger] w[m]).id == Some(12u64)) by {
            assert(w[m] == attrs[m]);
        }
        lemma_none_cycles(d, w);
        assert(!(attrs.last().id == Some(12u64)));
    }
}

proof fn lemma_last_temp(d: SmartData, attrs: Seq<AtaAttribute>, k: int)
    requires
        0 <= k < attrs.len(),
        (attrs[k].id == Some(194u64) || attrs[k].id == Some(190u64)),
        forall|m: int| k < m < attrs.len() ==> !((#[trigger] attrs[m]).id == Some(194u64) || (#[trigger] attrs[m]).id == Some(190u64)),
    ensures
        ata_fold(d, attrs).temperature_celsius == Some((match attrs[k].raw_value {
            Some(v) => v,
            None => 0u64,
        }) as u32),
    decreases attrs.len(),
{
    if k < attrs.len() - 1 {
        let w = attrs.drop_last();
        assert forall|m: int| k < m < w.len() implies !((#[trigger] w[m]).id == Some(194u64) || (#[trigger] w[m]).id == Some(190u64)) by {
            assert(w[m] == attrs[m]);
        }
        assert(w[k] == attrs[k]);
        lemma_last_temp(d, w, k);
        assert(!(attrs.last().id == Some(194u64) || attrs.last().id == Some(190u64)));
    }
}

proof fn lemma_none_temp(d: SmartData, attrs: Seq<AtaAttribute>)
    requires
        forall|m: int| 0 <= m < attrs.len() ==> !((#[trigger] attrs[m]).id == Some(194u64) || (#[trigger] attrs[m]).id == Some(190u64)),
    ensures
        ata_fold(d, attrs).temperature_celsius == d.temperature_celsius,
    decreases attrs.len(),
{
    if attrs.len() > 0 {
        let w = attrs.drop_last();
        assert forall|m: int| 0 <= m < w.len() implies !((#[trigger] w[m]).id == Some(194u64) || (#[trigger] w[m]).id == Some(190u64)) by {
            assert(w[m] == attrs[m]);
        }
        lemma_none_temp(d, w);
        assert(!(attrs.last().id == Some(194u64) || attrs.last().id == Some(190u64)));
    }
}

/// In a JSON report each ATA attribute gives its field its raw value (the
/// last such attribute in the table wins): 1 the read error rate, 5 the
/// reallocated sectors, 9 the power-on hours, 12 the power cycles, 194 or
/// 190 the temperature. Without such an attribute the field keeps what the
/// report's top level gives: the temperature, power-on hours and power
/// cycles read there, and no read error rate or reallocated count.
pub proof fn law_ata_attributes_set_their_fields(j: SmartJson, k: int)
    requires
        j.ata_table is Some,
    ensures
        ({
            let t = j.ata_table->0@;
            &&& (0 <= k < t.len() && (t[k].id == Some(1u64)) && (forall|m: int| k < m < t.len() ==> !((#[trigger] t[m]).id == Some(1u64)))) ==> json_report(j).read_error_rate == Some(match t[k].raw_value {
                Some(v) => v,
                None => 0u64,
            })
            &&& (forall|m: int| 0 <= m < t.len() ==> !((#[trigger] t[m]).id == Some(1u64))) ==> json_report(j).read_error_rate is None
            &&& (0 <= k < t.len() && (t[k].id == Some(5u64)) && (forall|m: int| k < m < t.len() ==> !((#[trigger] t[m]).id == Some(5u64)))) ==> json_report(j).reallocated_sectors == Some(match t[k].raw_value {
                Some(v) => v,
                None => 0u64,
            })
            &&& (forall|m: int| 0 <= m < t.len() ==> !((#[trigger] t[m]).id == Some(5u64))) ==> json_report(j).reallocated_sectors is None
            &&& (0 <= k < t.len() && (t[k].id == Some(9u64)) && (forall|m: int| k < m < t.len() ==> !((#[trigger] t[m]).id == Some(9u64)))) ==> json_report(j).power_on_hours == Some(match t[k].raw_value {
                Some(v) => v,
                None => 0u64,
            })
            &&& (forall|m: int| 0 <= m < t.len() ==> !((#[trigger] t[m]).id == Some(9u64))) ==> json_report(j).power_on_hours == j.power_on_hours
            &&& (0 <= k < t.len() && (t[k].id == Some(12u64)) && (forall|m: int| k < m < t.len() ==> !((#[trigger] t[m]).id == Some(12u64)))) ==> json_report(j).power_cycles == Some(match t[k].raw_value {
                Some(v) => v,
                None => 0u64,
            })
            &&& (forall|m: int| 0 <= m < t.len() ==> !((#[trigger] t[m]).id == Some(12u64))) ==> json_report(j).power_cycles == j.power_cycle_count
            &&& (0 <= k < t.len() && (t[k].id == Some(194u64) || t[k].id == Some(190u64)) && (forall|m: int| k < m < t.len() ==> !((#[trigger] t[m]).id == Some(194u64) || (#[trigger] t[m]).id == Some(190u64)))) ==> json_report(j).temperature_celsius == Some((match t[k].raw_value {
                Some(v) => v,
                None => 0u64,
            }) as u32)
            &&& (forall|m: int| 0 <= m < t.len() ==> !((#[trigger] t[m]).id == Some(194u64) || (#[trigger] t[m]).id == Some(190u64))) ==> json_report(j).temperature_celsius == match j.temperature { Some(v) => Some(v as u32), None => None }
        }),
{
    let t = j.ata_table->0@;
    let d0 = SmartData {
        temperature_celsius: cut_u32(j.temperature),
        power_on_hours: j.power_on_hours,
        power_cycles: j.power_cycle_count,
        percentage_used: None,
        available_spare: None,
        read_error_rate: None,
        write_error_rate: None,
        reallocated_sectors: None,
        pending_sectors: None,
        uncorrectable_sectors: None,
        data_units_read: None,
        data_units_written: None,
        unsafe_shutdowns: None,
        media_errors: None,
    };
    let d1 = match j.nvme {
        Some(n) => SmartData {
            percentage_used: cut_u8(n.percentage_used),
            available_spare: cut_u8(n.available_spare),
            data_units_read: n.data_units_read,
            data_units_written: n.data_units_written,
            unsafe_shutdowns: n.unsafe_shutdowns,
            media_errors: n.media_errors,
            ..d0
        },
        None => d0,
    };
    assert(json_report(j) == ata_fold(d1, t));
    if 0 <= k < t.len() && (t[k].id == Some(1u64)) && (forall|m: int| k < m < t.len() ==> !((#[trigger] t[m]).id == Some(1u64))) {
        lemma_last_read(d1, t, k);
    }
    if (forall|m: int| 0 <= m < t.len() ==> !((#[trigger] t[m]).id == Some(1u64))) {
        lemma_none_read(d1, t);
    }
    if 0 <= k < t.len() && (t[k].id == Some(5u64)) && (forall|m: int| k < m < t.len() ==> !((#[trigger] t[m]).id == Some(5u64))) {
        lemma_last_realloc(d1, t, k);
    }
    if (forall|m: int| 0 <= m < t.len() ==> !((#[trigger] t[m]).id == Some(5u64))) {
        lemma_none_realloc(d1, t);
    }
    if 0 <= k < t.len() && (t[k].id == Some(9u64)) && (forall|m: int| k < m < t.len() ==> !((#[trigger] t[m]).id == Some(9u64))) {
        lemma_last_hours(d1, t, k);
    }
    if (forall|m: int| 0 <= m < t.len() ==> !((#[trigger] t[m]).id == Some(9u64))) {
        lemma_none_hours(d1, t);
    }
    if 0 <= k < t.len() && (t[k].id == Some(12u64)) && (forall|m: int| k < m < t.len() ==> !((#[trigger] t[m]).id == Some(12u64))) {
        lemma_last_cycles(d1, t, k);
    }
    if (forall|m: int| 0 <= m < t.len() ==> !((#[trigger] t[m]).id == Some(12u64))) {
        lemma_none_cycles(d1, t);
    }
    if 0 <= k < t.len() && (t[k].id == Some(194u64) || t[k].id == Some(190u64)) && (forall|m: int| k < m < t.len() ==> !((#[trigger] t[m]).id == Some(194u64) || (#[trigger] t[m]).id == Some(190u64))) {
        lemma_last_temp(d1, t, k);
    }
    if (forall|m: int| 0 <= m < t.len() ==> !((#[trigger] t[m]).id == Some(194u64) || (#[trigger] t[m]).id == Some(190u64))) {
        lemma_none_temp(d1, t);
    }
}

proof fn lemma_fold_keeps_nvme(d: SmartData, attrs: Seq<AtaAttribute>)
    ensures
        ata_fold(d, attrs).percentage_used == d.percentage_used,
        ata_fold(d, attrs).available_spare == d.available_spare,
        ata_fold(d, attrs).data_units_read == d.data_units_read,
        ata_fold(d, attrs).data_units_written == d.data_units_written,
        ata_fold(d, attrs).unsafe_shutdowns == d.unsafe_shutdowns,
        ata_fold(d, attrs).media_errors == d.media_errors,
        ata_fold(d, attrs).write_error_rate == d.write_error_rate,
    decreases attrs.len(),
{
    if attrs.len() > 0 {
        lemma_fold_keeps_nvme(d, attrs.drop_last());
    }
}

/// The NVMe health log of a JSON report gives the percentage used and the
/// available spare (as bytes), the data units read and written, the unsafe
/// shutdowns and the media errors, whatever ATA attributes follow; without
/// the log there are none of these, and there is never a write error rate.
pub proof fn law_nvme_log_gives_its_fields(j: SmartJson)
    ensures
        json_report(j).write_error_rate is None,
        match j.nvme {
            Some(n) => {
                &&& json_report(j).percentage_used == match n.percentage_used { Some(v) => Some(v as u8), None => None }
                &&& json_report(j).available_spare == match n.available_spare { Some(v) => Some(v as u8), None => None }
                &&& json_report(j).data_units_read == n.data_units_read
                &&& json_report(j).data_units_written == n.data_units_written
                &&& json_report(j).unsafe_shutdowns == n.unsafe_shutdowns
                &&& json_report(j).media_errors == n.media_errors
            },
            None => {
                &&& json_report(j).percentage_used is None
                &&& json_report(j).available_spare is None
                &&& json_report(j).data_units_read is None
                &&& json_report(j).data_units_written is None
                &&& json_report(j).unsafe_shutdowns is None
                &&& json_report(j).media_errors is None
            },
        },
{
    let d0 = SmartData {
        temperature_celsius: cut_u32(j.temperature),
        power_on_hours: j.power_on_hours,
        power_cycles: j.power_cycle_count,
        percentage_used: None,
        available_spare: None,
        read_error_rate: None,
        write_error_rate: None,
        reallocated_sectors: None,
        pending_sectors: None,
        uncorrectable_sectors: None,
        data_units_read: None,
        data_units_written: None,
        unsafe_shutdowns: None,
        media_errors: None,
    };
    let d1 = match j.nvme {
        Some(n) => SmartData {
            percentage_used: cut_u8(n.percentage_used),
            available_spare: cut_u8(n.available_spare),
            data_units_read: n.data_units_read,
            data_units_written: n.data_units_written,
            unsafe_shutdowns: n.unsafe_shutdowns,
            media_errors: n.media_errors,
            ..d0
        },
        None => d0,
    };
    match j.ata_table {
        Some(t) => lemma_fold_keeps_nvme(d1, t@),
        None => {},
    }
}


/// Without an ATA table, a JSON report gives the temperature, power-on
/// hours and power cycles of its top level, and no sector counts or error
/// rates.
pub proof fn law_report_without_ata_table(j: SmartJson)
    requires
        j.ata_table is None,
    ensures
        json_report(j).temperature_celsius == match j.temperature { Some(v) => Some(v as u32), None => None },
        json_report(j).power_on_hours == j.power_on_hours,
        json_report(j).power_cycles == j.power_cycle_count,
        json_report(j).read_error_rate is None,
        json_report(j).reallocated_sectors is None,
        json_report(j).pending_sectors is None,
        json_report(j).uncorrectable_sectors is None,
{
}

} // verus!
