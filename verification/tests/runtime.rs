use tracer_core::registers::Registers;
use tracer_core::runtime::flow::jump;
use tracer_core::runtime::io::{dynamic_to_bytes, unsigned_shl, unsigned_shr, ScriptValue};
use tracer_core::runtime::mem::{
    address, chain_address, hexdump, length, read_string, stack_address, DEFAULT_LENGTH,
    MAX_BYTES, MAX_STRING,
};
use tracer_core::runtime::regs::{xmm_index, RhaiRegisters};
use tracer_core::runtime::thread::RhaiThread;
use tracer_core::thread::Thread;
use tracer_core::util::mem;
use tracer_core::util::mem::check_transfer;
use tracer_core::error::Error;

fn registers() -> Registers {
    Registers {
        r15: 15,
        r14: 14,
        r13: 13,
        r12: 12,
        rbp: 0x7ffd_0000_1000,
        rbx: 2,
        r11: 11,
        r10: 10,
        r9: 9,
        r8: 8,
        rax: u64::MAX,
        rcx: 3,
        rdx: 4,
        rsi: 5,
        rdi: 6,
        orig_rax: 0xffff_ffff_ffff_fff0,
        rip: 0x401146,
        cs: 0x33,
        eflags: 0x246,
        rsp: 0x7ffd_0000_0ff0,
        ss: 0x2b,
        fs_base: 0x7f00_0000_0000,
        gs_base: 0,
        ds: 0,
        es: 0,
        fs: 0,
        gs: 0x8000_0000_0000_0000,
    }
}

#[test]
fn a_thread_is_seen_by_its_pid_and_name() {
    let thread = Thread::new(4242, "worker\n");
    let seen = RhaiThread::from(&thread);
    assert_eq!(seen, RhaiThread::new(4242, "worker".to_string()));
    assert_eq!(seen.duplicate(), seen);
}

#[test]
fn registers_are_seen_as_signed_integers_of_the_same_bits() {
    let seen = RhaiRegisters::from(&registers());
    assert_eq!(seen.rax, -1);
    assert_eq!(seen.orig_rax, -16);
    assert_eq!(seen.rip, 0x401146);
    assert_eq!(seen.gs, i64::MIN);
    assert_eq!(seen.r15, 15);
}

#[test]
fn registers_come_back_from_a_script_unchanged() {
    let snapshot = registers();
    let seen = RhaiRegisters::from(&snapshot);
    assert_eq!(Registers::from(&seen), snapshot);
}

#[test]
fn jump_replaces_the_instruction_pointer_only() {
    let snapshot = registers();
    let redirected = jump(snapshot, 0x401200);
    assert_eq!(redirected.rip, 0x401200);
    assert_eq!(Registers { rip: snapshot.rip, ..redirected }, snapshot);
    assert_eq!(jump(snapshot, -2).rip, 0xffff_ffff_ffff_fffe);
}

#[test]
fn xmm_lanes_are_numbered_four_to_a_register() {
    assert_eq!(xmm_index(0, 0), Some(0));
    assert_eq!(xmm_index(0, 3), Some(3));
    assert_eq!(xmm_index(1, 0), Some(4));
    assert_eq!(xmm_index(15, 3), Some(63));
}

#[test]
fn xmm_lanes_outside_the_file_have_no_index() {
    assert_eq!(xmm_index(16, 0), None);
    assert_eq!(xmm_index(-1, 0), None);
    assert_eq!(xmm_index(0, 4), None);
    assert_eq!(xmm_index(0, -1), None);
    assert_eq!(xmm_index(i64::MAX, i64::MAX), None);
}

#[test]
fn a_negative_or_missing_address_names_nothing() {
    assert_eq!(address(Some(0)), Some(0));
    assert_eq!(address(Some(0x401000)), Some(0x401000));
    assert_eq!(address(Some(i64::MAX)), Some(i64::MAX as u64));
    assert_eq!(address(Some(-1)), None);
    assert_eq!(address(None), None);
}

#[test]
fn lengths_default_and_are_capped() {
    assert_eq!(DEFAULT_LENGTH, 256);
    assert_eq!(MAX_STRING, 32767);
    assert_eq!(MAX_BYTES, 32_767_000);
    assert_eq!(length(None, MAX_STRING), Some(256));
    assert_eq!(length(Some(16), MAX_STRING), Some(16));
    assert_eq!(length(Some(0), MAX_STRING), Some(0));
    assert_eq!(length(Some(32768), MAX_STRING), Some(32767));
    assert_eq!(length(Some(i64::MAX), MAX_BYTES), Some(32_767_000));
    assert_eq!(length(None, 100), Some(100));
}

#[test]
fn a_negative_length_cannot_be_read() {
    assert_eq!(length(Some(-1), MAX_STRING), None);
    assert_eq!(length(Some(i64::MIN), MAX_BYTES), None);
}

#[test]
fn a_string_ends_at_the_first_zero_byte() {
    assert_eq!(read_string(b"hello\0world\0"), "hello");
    assert_eq!(read_string(b"hello"), "hello");
    assert_eq!(read_string(b"\0hello"), "");
    assert_eq!(read_string(b""), "");
}

#[test]
fn bytes_that_are_no_text_are_replaced() {
    assert_eq!(read_string(&[b'a', 0xff, b'b', 0, b'c']), "a\u{fffd}b");
    assert_eq!(read_string("gr\u{fc}n\0".as_bytes()), "gr\u{fc}n");
}

#[test]
fn pointer_chains_wrap_around() {
    assert_eq!(chain_address(0x1000, 0x10), 0x1010);
    assert_eq!(chain_address(0x1000, -0x10), 0xff0);
    assert_eq!(chain_address(u64::MAX, 1), 0);
    assert_eq!(chain_address(0, -1), u64::MAX);
    assert_eq!(chain_address(5, i64::MIN), 0x8000_0000_0000_0005);
}

#[test]
fn stack_slots_lie_below_the_stack_pointer() {
    assert_eq!(stack_address(0x7ffd_0000_1000, 8), 0x7ffd_0000_0ff8);
    assert_eq!(stack_address(0x7ffd_0000_1000, -8), 0x7ffd_0000_1008);
    assert_eq!(stack_address(0, 1), u64::MAX);
}

#[test]
fn a_short_transfer_is_a_failure() {
    assert_eq!(check_transfer(8, 8), Ok(()));
    assert_eq!(check_transfer(0, 0), Ok(()));
    assert_eq!(check_transfer(8, 4), Err(Error::MemoryAccessFailed));
    assert_eq!(check_transfer(8, -1), Err(Error::MemoryAccessFailed));
    assert_eq!(check_transfer(8, 9), Err(Error::MemoryAccessFailed));
}

#[test]
fn integers_are_read_little_end_first() {
    assert_eq!(mem::read(&[0x7f], true), Some(127));
    assert_eq!(mem::read(&[0x80], true), Some(-128));
    assert_eq!(mem::read(&[0x80], false), Some(128));
    assert_eq!(mem::read(&[0x34, 0x12], true), Some(0x1234));
    assert_eq!(mem::read(&[0xff, 0xff], true), Some(-1));
    assert_eq!(mem::read(&[0xff, 0xff], false), Some(0xffff));
    assert_eq!(mem::read(&[0xef, 0xbe, 0xad, 0xde], true), Some(0xdead_beefu32 as i32 as i64));
    assert_eq!(mem::read(&[0xef, 0xbe, 0xad, 0xde], false), Some(0xdead_beef));
    assert_eq!(mem::read(&[1, 0, 0, 0, 0, 0, 0, 0x80], true), Some(i64::MIN + 1));
    assert_eq!(mem::read(&[1, 0, 0, 0, 0, 0, 0, 0x80], false), Some(i64::MIN + 1));
}

#[test]
fn only_whole_integers_are_read() {
    assert_eq!(mem::read(&[], true), None);
    assert_eq!(mem::read(&[1, 2, 3], true), None);
    assert_eq!(mem::read(&[0; 16], false), None);
}

#[test]
fn integers_are_written_with_their_low_bytes() {
    assert_eq!(mem::write(-2, 1), Some(vec![0xfe]));
    assert_eq!(mem::write(0x1234, 2), Some(vec![0x34, 0x12]));
    assert_eq!(mem::write(0xdead_beef, 4), Some(vec![0xef, 0xbe, 0xad, 0xde]));
    assert_eq!(mem::write(0x1_0000_0001, 4), Some(vec![1, 0, 0, 0]));
    assert_eq!(mem::write(-1, 8), Some(vec![0xff; 8]));
    assert_eq!(mem::write(1, 3), None);
    assert_eq!(mem::write(1, 0), None);
}

#[test]
fn an_integer_that_fits_is_read_back_as_written() {
    for (value, width) in [
        (-128i64, 1usize),
        (127, 1),
        (-32768, 2),
        (32767, 2),
        (i32::MIN as i64, 4),
        (i32::MAX as i64, 4),
        (i64::MIN, 8),
        (i64::MAX, 8),
        (0, 1),
        (-1, 4),
    ] {
        let bytes = mem::write(value, width).unwrap();
        assert_eq!(bytes.len(), width);
        assert_eq!(mem::read(&bytes, true), Some(value));
    }
}

fn formatted(location: u64, data: &[u8]) -> String {
    let mut out = String::new();
    for (row, chunk) in data.chunks(16).enumerate() {
        out.push_str(&format!("{:016x}  ", location.wrapping_add(16 * row as u64)));
        for i in 0..16 {
            match chunk.get(i) {
                Some(byte) => out.push_str(&format!("{:02x} ", byte)),
                None => out.push_str("   "),
            }
            if i == 7 {
                out.push(' ');
            }
        }
        out.push(' ');
        for byte in chunk {
            out.push(if byte.is_ascii_graphic() { *byte as char } else { '.' });
        }
        out.push('\n');
    }
    out.trim().to_string()
}

#[test]
fn a_dump_of_one_row() {
    assert_eq!(
        String::from_utf8(hexdump(0x401000, b"Hello, world!\n\0\x7f")).unwrap(),
        "0000000000401000  48 65 6c 6c 6f 2c 20 77  6f 72 6c 64 21 0a 00 7f  Hello,.world!..."
    );
}

#[test]
fn a_dump_pads_its_last_row() {
    assert_eq!(
        String::from_utf8(hexdump(0xffff_ffff_ffff_fff0, b"0123456789abcdefXYZ")).unwrap(),
        "fffffffffffffff0  30 31 32 33 34 35 36 37  38 39 61 62 63 64 65 66  0123456789abcdef\n\
         0000000000000000  58 59 5a                                          XYZ"
    );
}

#[test]
fn a_dump_of_nothing_is_empty() {
    assert_eq!(hexdump(0x1000, b""), Vec::<u8>::new());
}

#[test]
fn a_dump_is_what_the_format_says() {
    let data: Vec<u8> = (0..=255u8).chain(0..77u8).collect();
    for len in [1usize, 7, 8, 9, 15, 16, 17, 31, 32, 33, 255, 256, 333] {
        for location in [0u64, 0x7ffd_1c5e_4008, u64::MAX - 20] {
            assert_eq!(
                String::from_utf8(hexdump(location, &data[..len])).unwrap(),
                formatted(location, &data[..len])
            );
        }
    }
}

fn text(value: &str) -> ScriptValue {
    ScriptValue::Bytes(value.as_bytes().to_vec())
}

#[test]
fn values_are_written_as_the_script_prints_them() {
    assert_eq!(dynamic_to_bytes(&text("hello")), b"hello".to_vec());
    assert_eq!(dynamic_to_bytes(&ScriptValue::Bytes(vec![0, 0xff, 7])), vec![0, 0xff, 7]);
    assert_eq!(dynamic_to_bytes(&ScriptValue::Bool(true)), b"true".to_vec());
    assert_eq!(dynamic_to_bytes(&ScriptValue::Bool(false)), b"false".to_vec());
}

#[test]
fn integers_are_written_in_decimal() {
    for number in [0i64, 7, 10, 42, 100, 1_000_000, -1, -10, -12345, i64::MAX, i64::MIN] {
        assert_eq!(
            dynamic_to_bytes(&ScriptValue::Int(number)),
            number.to_string().into_bytes()
        );
    }
}

#[test]
fn arrays_are_written_with_a_comma_after_each_element() {
    assert_eq!(dynamic_to_bytes(&ScriptValue::Array(Vec::new())), b"[]".to_vec());
    let array = ScriptValue::Array(vec![
        ScriptValue::Int(1),
        text("two"),
        ScriptValue::Array(vec![ScriptValue::Bool(true), ScriptValue::Array(Vec::new())]),
        ScriptValue::Int(-4),
    ]);
    assert_eq!(dynamic_to_bytes(&array), b"[1,two,[true,[],],-4,]".to_vec());
}

#[test]
fn unsigned_shifts_bring_in_zeros() {
    assert_eq!(unsigned_shr(-1, 0), -1);
    assert_eq!(unsigned_shr(-1, 1), i64::MAX);
    assert_eq!(unsigned_shr(-1, 63), 1);
    assert_eq!(unsigned_shr(i64::MIN, 60), 8);
    assert_eq!(unsigned_shr(0x1000, 4), 0x100);
    assert_eq!(unsigned_shl(1, 63), i64::MIN);
    assert_eq!(unsigned_shl(-1, 4), -16);
    assert_eq!(unsigned_shl(0x4000_0000_0000_0001, 2), 4);
    assert_eq!(unsigned_shl(3, 0), 3);
}
