//! The rules of the drive listing: which drive letters a drive mask names,
//! how drive types are reported, and what is reported of a drive's space.

use vstd::prelude::*;
use crate::types::DriveInfo;

verus! {

/// The root path of drive number `i` (0 for `A`): the letter, `:` and `\`.
pub open spec fn drive_root(i: u32) -> Seq<char> {
    seq![((65 + i) as u32) as char, ':', '\\']
}

/// The drive numbers whose bit is set in a logical-drive mask, ascending.
pub open spec fn drives_in_mask(mask: u32, below: u32) -> Seq<u32>
    decreases below,
{
    if below == 0 {
        Seq::empty()
    } else {
        let i = (below - 1) as u32;
        drives_in_mask(mask, i) + if (mask >> i) & 1 == 1 { seq![i] } else { Seq::<u32>::empty() }
    }
}

fn letter(i: u32) -> (c: char)
    requires
        i < 26,
    ensures
        c == ((65 + i) as u32) as char,
{
    let cs: [char; 26] = [
        'A', 'B', 'C', 'D', 'E', 'F', 'G', 'H', 'I', 'J', 'K', 'L', 'M', 'N', 'O', 'P', 'Q', 'R',
        'S', 'T', 'U', 'V', 'W', 'X', 'Y', 'Z',
    ];
    let c = cs[i as usize];
    assert(c == ((65 + i) as u32) as char) by {
        assert(cs@[i as int] == ((65 + i) as u32) as char);
    }
    c
}

/// The root paths of the drives a logical-drive mask names, in letter
/// order.
pub fn drive_roots(mask: u32) -> (r: Vec<String>)
    ensures
        r@.len() == drives_in_mask(mask, 26).len(),
        forall|k: int| 0 <= k < r@.len() ==> (#[trigger] r@[k])@ == drive_root(drives_in_mask(mask, 26)[k]),
{
    let mut out: Vec<String> = Vec::new();
    let mut i: u32 = 0;
    while i < 26
        invariant
            i <= 26,
            out@.len() == drives_in_mask(mask, i).len(),
            forall|k: int| 0 <= k < out@.len() ==> (#[trigger] out@[k])@ == drive_root(drives_in_mask(mask, i)[k]),
        decreases 26 - i,
    {
        let bit = (mask >> i) & 1;
        let ghost before = drives_in_mask(mask, i);
        if bit == 1 {
            let mut v: Vec<char> = Vec::new();
            v.push(letter(i));
            v.push(':');
            v.push('\\');
            assert(v@ =~= drive_root(i));
            out.push(crate::text::string_of(&v));
        }
        i += 1;
        assert(drives_in_mask(mask, i) == before + if bit == 1 { seq![(i - 1) as u32] } else { Seq::<u32>::empty() });
    }
    out
}

/// How a drive type code is reported: unknown (0) and invalid (1) drives
/// are not listed; 2 removable, 3 fixed, 4 network, 5 cdrom, 6 ramdisk,
/// anything else other. The flag says whether it is a network drive.
pub fn drive_type_name(code: u32) -> (r: Option<(String, bool)>)
    ensures
        code == 0 || code == 1 ==> r is None,
        code == 2 ==> (r matches Some((n, net)) && n@ == "removable"@ && !net),
        code == 3 ==> (r matches Some((n, net)) && n@ == "fixed"@ && !net),
        code == 4 ==> (r matches Some((n, net)) && n@ == "network"@ && net),
        code == 5 ==> (r matches Some((n, net)) && n@ == "cdrom"@ && !net),
        code == 6 ==> (r matches Some((n, net)) && n@ == "ramdisk"@ && !net),
        code > 6 ==> (r matches Some((n, net)) && n@ == "other"@ && !net),
{
    if code == 0 || code == 1 {
        None
    } else if code == 2 {
        Some((String::from_str("removable"), false))
    } else if code == 3 {
        Some((String::from_str("fixed"), false))
    } else if code == 4 {
        Some((String::from_str("network"), true))
    } else if code == 5 {
        Some((String::from_str("cdrom"), false))
    } else if code == 6 {
        Some((String::from_str("ramdisk"), false))
    } else {
        Some((String::from_str("other"), false))
    }
}

/// The entry of a drive: `space` is what the system reports as (free to
/// the caller, total, total free); the entry carries the total and the total
/// free space.
pub fn drive_entry(path: String, drive_type: String, space: (u64, u64, u64)) -> (r: DriveInfo)
    ensures
        r.path == path,
        r.drive_type == drive_type,
        r.total_bytes == space.1,
        r.free_bytes == space.2,
{
    DriveInfo { path, drive_type, total_bytes: space.1, free_bytes: space.2 }
}

/// How long a network drive may take to report its space, in
/// milliseconds: the configured value (1000 unless set) within 100..=5000.
pub fn network_drive_timeout_ms(configured: Option<u64>) -> (r: u64)
    ensures
        r == ({
            let c: u64 = match configured { Some(v) => v, None => 1000 };
            if c < 100 { 100 } else if c > 5000 { 5000 } else { c }
        }),
{
    let c: u64 = match configured {
        Some(v) => v,
        None => 1000,
    };
    if c < 100 { 100 } else if c > 5000 { 5000 } else { c }
}

} // verus!
