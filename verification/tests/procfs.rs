use tracer_core::error::Error;
use tracer_core::util::procfs::{get_tasks, map_entry, MemoryMap};
use tracer_core::util::text::{find, parse_decimal, parse_hex, split, Separator};

const MAPS: &str = "\
00400000-00401000 r--p 00000000 08:01 1048602                            /usr/bin/target
00401000-00402000 r-xp 00001000 08:01 1048602                            /usr/bin/target
7f1c2a000000-7f1c2a021000 rw-p 00000000 00:00 0
7ffd1c5e4000-7ffd1c605000 rw-p 00000000 00:00 0                          [stack]
ffffffffff600000-ffffffffff601000 --xp 00000000 00:00 0                  [vsyscall]
";

fn region(start: u64, end: u64, permissions: &str, offset: u64, device: &str) -> MemoryMap {
    MemoryMap {
        start,
        end,
        permissions: permissions.to_string(),
        offset,
        device: device.to_string(),
    }
}

#[test]
fn parse_line_reads_the_five_fields() {
    let line = b"00401000-00402000 r-xp 00001000 08:01 1048602      /usr/bin/target";
    assert_eq!(
        MemoryMap::parse_line(line),
        Some(region(0x401000, 0x402000, "r-xp", 0x1000, "08:01"))
    );
}

#[test]
fn parse_line_passes_over_a_line_with_fewer_than_six_fields() {
    assert_eq!(MemoryMap::parse_line(b"7f1c2a000000-7f1c2a021000 rw-p 00000000 00:00 0"), None);
    assert_eq!(MemoryMap::parse_line(b""), None);
    assert_eq!(MemoryMap::parse_line(b"   \t "), None);
}

#[test]
fn parse_line_passes_over_a_range_without_exactly_one_hyphen() {
    assert_eq!(MemoryMap::parse_line(b"00401000 r-xp 0 08:01 1 /bin/x"), None);
    assert_eq!(MemoryMap::parse_line(b"1-2-3 r-xp 0 08:01 1 /bin/x"), None);
}

#[test]
fn parse_line_counts_an_unreadable_number_as_zero() {
    assert_eq!(
        MemoryMap::parse_line(b"xyz-00402000 r-xp 1g 08:01 1 /bin/x"),
        Some(region(0, 0x402000, "r-xp", 0, "08:01"))
    );
    assert_eq!(
        MemoryMap::parse_line(b"-1ffffffffffffffff r-xp 10 08:01 1 /bin/x"),
        Some(region(0, 0, "r-xp", 0x10, "08:01"))
    );
}

#[test]
fn parse_line_takes_any_white_space_between_fields() {
    assert_eq!(
        MemoryMap::parse_line(b"\t1000-2000\trw-p  0\x0b00:00\x0c0 \r [heap]\r"),
        Some(region(0x1000, 0x2000, "rw-p", 0, "00:00"))
    );
}

#[test]
fn parse_maps_reads_the_lines_that_describe_a_region() {
    let maps = MemoryMap::parse_maps(MAPS.as_bytes());
    assert_eq!(
        maps,
        vec![
            region(0x400000, 0x401000, "r--p", 0, "08:01"),
            region(0x401000, 0x402000, "r-xp", 0x1000, "08:01"),
            region(0x7ffd_1c5e_4000, 0x7ffd_1c60_5000, "rw-p", 0, "00:00"),
            region(0xffff_ffff_ff60_0000, 0xffff_ffff_ff60_1000, "--xp", 0, "00:00"),
        ]
    );
}

#[test]
fn parse_maps_reads_a_last_line_without_a_line_feed() {
    let maps = MemoryMap::parse_maps(b"\n\n1000-2000 rw-p 0 00:00 0 [heap]");
    assert_eq!(maps, vec![region(0x1000, 0x2000, "rw-p", 0, "00:00")]);
    assert_eq!(MemoryMap::parse_maps(b""), Vec::new());
}

#[test]
fn map_entry_finds_the_first_region_that_holds_the_address() {
    let maps = MemoryMap::parse_maps(MAPS.as_bytes());
    assert_eq!(map_entry(&maps, 0x400000), Some(0));
    assert_eq!(map_entry(&maps, 0x400fff), Some(0));
    assert_eq!(map_entry(&maps, 0x401000), Some(1));
    assert_eq!(map_entry(&maps, 0x402000), None);
    assert_eq!(map_entry(&maps, 0x7ffd_1c5e_4008), Some(2));
    assert_eq!(map_entry(&maps, 0), None);
}

#[test]
fn map_entry_takes_the_address_as_unsigned() {
    let maps = MemoryMap::parse_maps(MAPS.as_bytes());
    assert_eq!(map_entry(&maps, 0xffff_ffff_ff60_0010u64 as i64), Some(3));
    assert_eq!(map_entry(&maps, -1), None);
}

#[test]
fn a_region_holds_its_start_and_not_its_end() {
    let map = region(0x1000, 0x2000, "rw-p", 0, "00:00");
    assert!(map.contains(0x1000));
    assert!(map.contains(0x1fff));
    assert!(!map.contains(0x2000));
    assert!(!map.contains(0xfff));
}

#[test]
fn split_at_white_space_gives_the_words() {
    assert_eq!(
        split(b"  one two\t\tthree \n", Separator::Space),
        vec![b"one".to_vec(), b"two".to_vec(), b"three".to_vec()]
    );
    assert_eq!(split(b" \n ", Separator::Space), Vec::<Vec<u8>>::new());
}

#[test]
fn split_at_line_feeds_gives_the_lines() {
    assert_eq!(
        split(b"one\n\ntwo three\n", Separator::Newline),
        vec![b"one".to_vec(), b"".to_vec(), b"two three".to_vec()]
    );
    assert_eq!(split(b"one\ntwo", Separator::Newline), vec![b"one".to_vec(), b"two".to_vec()]);
}

#[test]
fn find_gives_the_first_position_or_the_length() {
    assert_eq!(find(b"a-b-c", b'-'), 1);
    assert_eq!(find(b"abc", b'-'), 3);
    assert_eq!(find(b"", b'-'), 0);
}

#[test]
fn parse_hex_reads_digits_of_both_cases() {
    assert_eq!(parse_hex(b"0"), Some(0));
    assert_eq!(parse_hex(b"7fFd1C5e4000"), Some(0x7ffd_1c5e_4000));
    assert_eq!(parse_hex(b"+10"), Some(16));
    assert_eq!(parse_hex(b"ffffffffffffffff"), Some(u64::MAX));
    assert_eq!(parse_hex(b"0000000000000000000001"), Some(1));
}

#[test]
fn parse_hex_refuses_what_is_no_number() {
    assert_eq!(parse_hex(b""), None);
    assert_eq!(parse_hex(b"+"), None);
    assert_eq!(parse_hex(b"-1"), None);
    assert_eq!(parse_hex(b"0x10"), None);
    assert_eq!(parse_hex(b"12g"), None);
    assert_eq!(parse_hex(b"1 "), None);
    assert_eq!(parse_hex(b"10000000000000000"), None);
    assert_eq!(parse_hex(b"fffffffffffffffff"), None);
}

#[test]
fn parse_hex_agrees_with_the_standard_library() {
    for text in ["0", "1f", "+a", "AbC", "", "+", "-", "zz", "ffffffffffffffff", "1ffffffffffffffff"]
    {
        assert_eq!(parse_hex(text.as_bytes()), u64::from_str_radix(text, 16).ok());
    }
}

#[test]
fn parse_decimal_reads_digits_only() {
    assert_eq!(parse_decimal(b"0"), Some(0));
    assert_eq!(parse_decimal(b"4242"), Some(4242));
    assert_eq!(parse_decimal(b"+7"), Some(7));
    assert_eq!(parse_decimal(b"18446744073709551615"), Some(u64::MAX));
    assert_eq!(parse_decimal(b"18446744073709551616"), None);
    assert_eq!(parse_decimal(b"1a"), None);
    assert_eq!(parse_decimal(b"a"), None);
    assert_eq!(parse_decimal(b""), None);
    assert_eq!(parse_decimal(b"-1"), None);
    assert_eq!(parse_decimal(b" 1"), None);
}

#[test]
fn parse_decimal_agrees_with_the_standard_library() {
    for text in ["0", "10", "+10", "007", "", "+", "1_0", "99999999999999999999", "12x"] {
        assert_eq!(parse_decimal(text.as_bytes()), text.parse::<u64>().ok());
    }
}

#[test]
fn get_tasks_reads_the_names_as_task_ids() {
    let names = vec![b"4242".to_vec(), b"4243".to_vec(), b"4294967295".to_vec()];
    assert_eq!(get_tasks(&names), Ok(vec![4242, 4243, u32::MAX]));
    assert_eq!(get_tasks(&Vec::new()), Ok(Vec::new()));
}

#[test]
fn get_tasks_refuses_a_name_that_is_no_task_id() {
    assert_eq!(get_tasks(&vec![b"4242".to_vec(), b"self".to_vec()]), Err(Error::AttachFailed));
    assert_eq!(get_tasks(&vec![b"4294967296".to_vec()]), Err(Error::AttachFailed));
    assert_eq!(get_tasks(&vec![b"".to_vec()]), Err(Error::AttachFailed));
}
