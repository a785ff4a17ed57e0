use vstd::prelude::*;

use crate::error::Error;
use crate::util::text::{
    contents, find, lossy, parse_decimal, parse_hex, pieces, position,
    spec_parse_decimal, spec_parse_hex, split, text_of, Separator,
};

verus! {

/// One region of the target's address space, as its `maps` file lists it.
#[derive(Debug, Clone, PartialEq, Eq)]
pub struct MemoryMap {
    pub start: u64,
    pub end: u64,
    pub permissions: String,
    pub offset: u64,
    pub device: String,
}

/// A region with its texts as sequences of characters.
pub struct MemoryMapView {
    pub start: u64,
    pub end: u64,
    pub permissions: Seq<char>,
    pub offset: u64,
    pub device: Seq<char>,
}

impl View for MemoryMap {
    type V = MemoryMapView;

    open spec fn view(&self) -> MemoryMapView {
        MemoryMapView {
            start: self.start,
            end: self.end,
            permissions: self.permissions@,
            offset: self.offset,
            device: self.device@,
        }
    }
}

/// The number that a field stands for in hexadecimal, or zero if it stands
/// for none.
pub open spec fn hex_or_zero(field: Seq<u8>) -> u64 {
    match spec_parse_hex(field) {
        Some(value) => value,
        None => 0,
    }
}

/// The two ends of an address range `start-end`: the text before and the
/// text after the hyphen. A field without a hyphen, or with more than one,
/// is no range.
pub open spec fn range_ends(field: Seq<u8>) -> Option<(Seq<u8>, Seq<u8>)> {
    let hyphen = position(field, 0x2d);
    let after = field.subrange(hyphen as int + 1, field.len() as int);
    if hyphen < field.len() && position(after, 0x2d) == after.len() {
        Some((field.subrange(0, hyphen as int), after))
    } else {
        None
    }
}

/// The region that a line of a `maps` file describes.
///
/// The line is a sequence of fields with white space between them: the
/// address range, the permissions, the offset, the device, the inode and
/// the path. A line with fewer than six fields describes no region, nor
/// does one whose first field is not of the form `start-end`. The numbers
/// are hexadecimal, and one that cannot be read counts as zero.
pub open spec fn spec_parse_line(line: Seq<u8>) -> Option<MemoryMapView> {
    let fields = pieces(line, Separator::Space);
    if fields.len() < 6 {
        None
    } else {
        match range_ends(fields[0]) {
            Some((start, end)) => Some(
                MemoryMapView {
                    start: hex_or_zero(start),
                    end: hex_or_zero(end),
                    permissions: text_of(fields[1]),
                    offset: hex_or_zero(fields[2]),
                    device: text_of(fields[3]),
                },
            ),
            None => None,
        }
    }
}

/// The regions that the first `n` of `lines` describe, in their order.
pub open spec fn regions(lines: Seq<Seq<u8>>, n: nat) -> Seq<MemoryMapView>
    decreases n,
{
    if n == 0 {
        Seq::empty()
    } else {
        match spec_parse_line(lines[n - 1]) {
            Some(region) => regions(lines, (n - 1) as nat).push(region),
            None => regions(lines, (n - 1) as nat),
        }
    }
}

/// The regions that the content of a `maps` file describes, line by line.
pub open spec fn spec_parse_maps(content: Seq<u8>) -> Seq<MemoryMapView> {
    regions(pieces(content, Separator::Newline), pieces(content, Separator::Newline).len())
}

/// The regions as values.
pub open spec fn views(maps: Seq<MemoryMap>) -> Seq<MemoryMapView> {
    maps.map_values(|map: MemoryMap| map@)
}

/// Tells whether `address` lies in the region: at or after its start and
/// before its end.
pub open spec fn holds(map: MemoryMapView, address: u64) -> bool {
    map.start <= address < map.end
}

fn number(field: &[u8]) -> (value: u64)
    ensures
        value == hex_or_zero(field@),
{
    match parse_hex(field) {
        Some(value) => value,
        None => 0,
    }
}

impl MemoryMap {
    /// Reads one line of a `maps` file.
    pub fn parse_line(line: &[u8]) -> (r: Option<MemoryMap>)
        ensures
            r is Some == spec_parse_line(line@) is Some,
            r matches Some(map) ==> map@ == spec_parse_line(line@)->Some_0,
    {
        let fields = split(line, Separator::Space);
        if fields.len() < 6 {
            return None;
        }
        assert(contents(fields@)[0] == fields@[0]@);
        assert(contents(fields@)[1] == fields@[1]@);
        assert(contents(fields@)[2] == fields@[2]@);
        assert(contents(fields@)[3] == fields@[3]@);
        let range = fields[0].as_slice();
        let hyphen = find(range, 0x2d);
        if hyphen >= range.len() {
            return None;
        }
        let after = vstd::slice::slice_subrange(range, hyphen + 1, range.len());
        if find(after, 0x2d) < after.len() {
            return None;
        }
        let before = vstd::slice::slice_subrange(range, 0, hyphen);
        Some(
            MemoryMap {
                start: number(before),
                end: number(after),
                permissions: lossy(fields[1].as_slice()),
                offset: number(fields[2].as_slice()),
                device: lossy(fields[3].as_slice()),
            },
        )
    }

    /// Reads the content of a `maps` file: the regions that its lines
    /// describe, in the order of the lines. Lines that describe no region
    /// are passed over.
    pub fn parse_maps(content: &[u8]) -> (maps: Vec<MemoryMap>)
        ensures
            views(maps@) == spec_parse_maps(content@),
    {
        let lines = split(content, Separator::Newline);
        let mut maps: Vec<MemoryMap> = Vec::new();
        let mut i: usize = 0;
        while i < lines.len()
            invariant
                i <= lines@.len(),
                views(maps@) == regions(contents(lines@), i as nat),
            decreases lines@.len() - i,
        {
            assert(contents(lines@)[i as int] == lines@[i as int]@);
            match MemoryMap::parse_line(lines[i].as_slice()) {
                Some(map) => {
                    let ghost before = maps@;
                    maps.push(map);
                    assert(views(maps@) == views(before).push(map@));
                },
                None => {},
            }
            i += 1;
        }
        maps
    }

    /// Tells whether `address` lies in the region.
    pub fn contains(&self, address: u64) -> (inside: bool)
        ensures
            inside == holds(self@, address),
    {
        self.start <= address && address < self.end
    }
}

/// Resolves an address to a region: the index of the first of `maps` that
/// holds it, if any does. The address is the script's integer taken as
/// unsigned.
pub fn map_entry(maps: &Vec<MemoryMap>, address: i64) -> (found: Option<usize>)
    ensures
        found matches Some(index) ==> index < maps@.len() && holds(
            maps@[index as int]@,
            address as u64,
        ) && forall|i: int| 0 <= i < index ==> !holds(maps@[i]@, address as u64),
        found is None ==> forall|i: int| 0 <= i < maps@.len() ==> !holds(maps@[i]@, address as u64),
{
    let mut i: usize = 0;
    while i < maps.len()
        invariant
            i <= maps@.len(),
            forall|j: int| 0 <= j < i ==> !holds(maps@[j]@, address as u64),
        decreases maps@.len() - i,
    {
        if maps[i].contains(address as u64) {
            return Some(i);
        }
        i += 1;
    }
    None
}

/// The task id that an entry of a `task` directory names: the name read as
/// a decimal number, if it is one that fits in 32 bits.
pub open spec fn task_id(name: Seq<u8>) -> Option<u32> {
    match spec_parse_decimal(name) {
        Some(id) => if id <= u32::MAX {
            Some(id as u32)
        } else {
            None
        },
        None => None,
    }
}

/// The task ids of a target, given the names of the entries of its `task`
/// directory, in their order. The target cannot be attached if a name is no
/// task id.
pub fn get_tasks(names: &Vec<Vec<u8>>) -> (r: Result<Vec<u32>, Error>)
    ensures
        r is Ok <==> forall|i: int| 0 <= i < names@.len() ==> task_id(#[trigger] names@[i]@) is Some,
        r is Err ==> r == Err::<Vec<u32>, Error>(Error::AttachFailed),
        r matches Ok(tasks) ==> tasks@.len() == names@.len() && forall|i: int|
            0 <= i < names@.len() ==> task_id(names@[i]@) == Some(#[trigger] tasks@[i]),
{
    let mut tasks: Vec<u32> = Vec::new();
    let mut i: usize = 0;
    while i < names.len()
        invariant
            i <= names@.len(),
            tasks@.len() == i,
            forall|j: int| 0 <= j < i ==> task_id(names@[j]@) == Some(#[trigger] tasks@[j]),
            forall|j: int| 0 <= j < i ==> task_id(#[trigger] names@[j]@) is Some,
        decreases names@.len() - i,
    {
        match parse_decimal(names[i].as_slice()) {
            Some(id) => {
                if id > u32::MAX as u64 {
                    return Err(Error::AttachFailed);
                }
                tasks.push(id as u32);
            },
            None => {
                return Err(Error::AttachFailed);
            },
        }
        i += 1;
    }
    Ok(tasks)
}

} // verus!
