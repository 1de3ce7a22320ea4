//! The object-program loader.
//!
//! An object program is line-oriented ASCII: one `H` record (`H`, six
//! characters of program name, six hex digits of start address, six
//! hex digits of program length), any number of `T` records (`T`, six
//! hex digits of record address, two hex digits of byte count, then
//! hex digit pairs, one pair per byte), and exactly one `E` record
//! (`E` and the first-instruction address in hex).  Text records are
//! placed relative to the header's start address; the `E` record sets
//! `PC`.  The whole parse is specified by [`spec_load`], and
//! [`load_object`] realizes it.

use vstd::prelude::*;
use crate::errors::LoaderError;
use crate::machine::{initial_view, Machine, MachineView, MAX_ADDRESS};
use crate::register::Register;

verus! {

/// ASCII `H`.
pub const CH_H: u8 = 72;

/// ASCII `T`.
pub const CH_T: u8 = 84;

/// ASCII `E`.
pub const CH_E: u8 = 69;

/// ASCII line feed.
pub const CH_NL: u8 = 10;

/// ASCII carriage return.
pub const CH_CR: u8 = 13;

/// Whether a byte is an ASCII hex digit, either case.
pub open spec fn is_hex(c: u8) -> bool {
    (48 <= c && c <= 57) || (65 <= c && c <= 70) || (97 <= c && c <= 102)
}

/// The value of a hex digit (zero for a byte that is none).
pub open spec fn hex_val(c: u8) -> nat {
    if 48 <= c && c <= 57 {
        (c - 48) as nat
    } else if 65 <= c && c <= 70 {
        (c - 55) as nat
    } else if 97 <= c && c <= 102 {
        (c - 87) as nat
    } else {
        0
    }
}

/// Whether every byte of a sequence is a hex digit.
pub open spec fn hex_seq_ok(s: Seq<u8>) -> bool {
    forall|k: int| 0 <= k < s.len() ==> is_hex(#[trigger] s[k])
}

/// The number a sequence of hex digits denotes, most significant
/// digit first.
pub open spec fn hex_seq_val(s: Seq<u8>) -> nat
    decreases s.len(),
{
    if s.len() == 0 {
        0
    } else {
        hex_seq_val(s.drop_last()) * 16 + hex_val(s.last())
    }
}

/// Sixteen to the `n`th power.
pub open spec fn pow16(n: nat) -> nat
    decreases n,
{
    if n == 0 {
        1nat
    } else {
        16 * pow16((n - 1) as nat)
    }
}

/// A sequence of `n` hex digits denotes a value below `16^n`.
pub proof fn lemma_hex_seq_val_bound(s: Seq<u8>)
    ensures
        hex_seq_val(s) < pow16(s.len()),
    decreases s.len(),
{
    if s.len() == 0 {
    } else {
        lemma_hex_seq_val_bound(s.drop_last());
        assert(hex_val(s.last()) <= 15);
    }
}

/// The powers of sixteen a six-digit field can involve.
pub proof fn lemma_pow16_small()
    ensures
        pow16(0) == 1,
        pow16(1) == 16,
        pow16(2) == 0x100,
        pow16(3) == 0x1000,
        pow16(4) == 0x1_0000,
        pow16(5) == 0x10_0000,
        pow16(6) == 0x100_0000,
{
    assert(pow16(0) == 1);
    assert(pow16(1) == 16 * pow16(0));
    assert(pow16(2) == 16 * pow16(1));
    assert(pow16(3) == 16 * pow16(2));
    assert(pow16(4) == 16 * pow16(3));
    assert(pow16(5) == 16 * pow16(4));
    assert(pow16(6) == 16 * pow16(5));
}

/// The index of the first line feed at or after `i`, or the length of
/// the sequence if there is none.
pub open spec fn find_nl(s: Seq<u8>, i: int) -> int
    decreases s.len() - i,
{
    if i >= s.len() {
        i
    } else if s[i] == CH_NL {
        i
    } else {
        find_nl(s, i + 1)
    }
}

/// `find_nl` never answers before the position it was asked from.
pub proof fn lemma_find_nl_ge(s: Seq<u8>, i: int)
    ensures
        find_nl(s, i) >= i,
        find_nl(s, i) <= s.len() || find_nl(s, i) == i,
    decreases s.len() - i,
{
    if i >= s.len() {
    } else if s[i] == CH_NL {
    } else {
        lemma_find_nl_ge(s, i + 1);
    }
}

/// A line with its trailing carriage return, if any, removed.
pub open spec fn trim_cr(line: Seq<u8>) -> Seq<u8> {
    if line.len() > 0 && line.last() == CH_CR {
        line.drop_last()
    } else {
        line
    }
}

/// The memory writes of a `T` record's data, consumed two hex digits
/// (one byte) at a time from position `j` of the line, written at
/// ascending addresses from `waddr`.  A trailing lone digit counts as
/// one byte.  Returns the memory as far as it got, and the first
/// failure if one arose.
pub open spec fn t_data(mem: Map<u32, u8>, waddr: int, line: Seq<u8>, j: int) -> (
    Map<u32, u8>,
    Result<(), LoaderError>,
)
    decreases line.len() + 2 - j,
{
    if j >= line.len() {
        (mem, Ok(()))
    } else if !is_hex(line[j]) || (j + 1 < line.len() && !is_hex(line[j + 1])) {
        (mem, Err(LoaderError::BadTextData))
    } else {
        let v = if j + 1 < line.len() {
            (hex_val(line[j]) * 16 + hex_val(line[j + 1])) as u8
        } else {
            hex_val(line[j]) as u8
        };
        if waddr > MAX_ADDRESS {
            (mem, Err(LoaderError::AddressOutOfBounds))
        } else {
            t_data(mem.insert(waddr as u32, v), waddr + 1, line, j + 2)
        }
    }
}

/// The record lines from position `i` on, folded over the memory
/// written so far, the header's start address, and the `E` record
/// seen so far.  Returns the memory as far as the parse got, and the
/// `E` record's address or the first failure.
pub open spec fn spec_records(
    s: Seq<u8>,
    i: int,
    mem: Map<u32, u8>,
    start: u32,
    end: Option<u32>,
) -> (Map<u32, u8>, Result<u32, LoaderError>)
    decreases s.len() + 1 - i,
    when i >= 0
    via spec_records_decreases
{
    if i >= s.len() {
        (
            mem,
            match end {
                Some(e) => Ok(e),
                None => Err(LoaderError::MissingEndRecord),
            },
        )
    } else {
        let line = trim_cr(s.subrange(i, find_nl(s, i)));
        let next = find_nl(s, i) + 1;
        if line.len() == 0 {
            spec_records(s, next, mem, start, end)
        } else if line[0] == CH_T {
            if line.len() < 9 {
                (mem, Err(LoaderError::TruncatedTextRecord))
            } else if !hex_seq_ok(line.subrange(1, 7)) {
                (mem, Err(LoaderError::BadTextAddress))
            } else {
                let base = start + hex_seq_val(line.subrange(1, 7));
                let written = t_data(mem, base, line, 9);
                match written.1 {
                    Err(e) => (written.0, Err(e)),
                    Ok(_) => spec_records(s, next, written.0, start, end),
                }
            }
        } else if line[0] == CH_E {
            if end is Some {
                (mem, Err(LoaderError::DuplicateEndRecord))
            } else if line.len() < 2 || line.len() > 7 || !hex_seq_ok(
                line.subrange(1, line.len() as int),
            ) {
                (mem, Err(LoaderError::BadEndAddress))
            } else {
                spec_records(
                    s,
                    next,
                    mem,
                    start,
                    Some(hex_seq_val(line.subrange(1, line.len() as int)) as u32),
                )
            }
        } else {
            spec_records(s, next, mem, start, end)
        }
    }
}

#[via_fn]
proof fn spec_records_decreases(
    s: Seq<u8>,
    i: int,
    mem: Map<u32, u8>,
    start: u32,
    end: Option<u32>,
) {
    lemma_find_nl_ge(s, i);
}

/// What loading an object program does: the memory image and the
/// start address, or the memory as far as the parse got and the first
/// failure.
pub open spec fn spec_load(s: Seq<u8>) -> (Map<u32, u8>, Result<u32, LoaderError>) {
    if s.len() == 0 || s[0] != CH_H {
        (Map::empty(), Err(LoaderError::MissingHeader))
    } else if s.len() < 19 {
        (Map::empty(), Err(LoaderError::TruncatedHeader))
    } else if !hex_seq_ok(s.subrange(7, 13)) {
        (Map::empty(), Err(LoaderError::BadHeaderAddress))
    } else if !hex_seq_ok(s.subrange(13, 19)) {
        (Map::empty(), Err(LoaderError::BadHeaderLength))
    } else {
        spec_records(s, 19, Map::empty(), (hex_seq_val(s.subrange(7, 13)) as u32), None)
    }
}

/// The `PC` a load leaves behind: the `E` record's address on
/// success, and the reset value on a failure.
pub open spec fn spec_load_pc(r: Result<u32, LoaderError>) -> u32 {
    match r {
        Ok(e) => e,
        Err(_) => 0,
    }
}

/// The value of a hex digit, or `None` for any other byte.
fn hex_digit(c: u8) -> (r: Option<u8>)
    ensures
        match r {
            Some(v) => is_hex(c) && v == hex_val(c),
            None => !is_hex(c),
        },
{
    if 48 <= c && c <= 57 {
        Some(c - 48)
    } else if 65 <= c && c <= 70 {
        Some(c - 55)
    } else if 97 <= c && c <= 102 {
        Some(c - 87)
    } else {
        None
    }
}


/// A field of at most six hex digits denotes a value below `2^24`.
pub proof fn lemma_pow16_at_most_six(n: nat)
    requires
        n <= 6,
    ensures
        pow16(n) <= 0x100_0000,
{
    lemma_pow16_small();
    if n == 0 {
    } else if n == 1 {
    } else if n == 2 {
    } else if n == 3 {
    } else if n == 4 {
    } else if n == 5 {
    } else {
        assert(n == 6);
    }
}

/// Parses a fixed-width field of up to six hex digits.
#[verifier::loop_isolation(false)]
fn hex_field(data: &[u8], start: usize, len: usize) -> (r: Option<u32>)
    requires
        start + len <= data@.len(),
        len <= 6,
    ensures
        match r {
            Some(v) => hex_seq_ok(data@.subrange(start as int, start + len)) && v == hex_seq_val(
                data@.subrange(start as int, start + len),
            ),
            None => !hex_seq_ok(data@.subrange(start as int, start + len)),
        },
{
    let n = data.len();
    let ghost whole = data@.subrange(start as int, start + len);
    let mut acc: u32 = 0;
    let mut k: usize = 0;
    while k < len
        invariant
            k <= len,
            hex_seq_ok(data@.subrange(start as int, start + k)),
            acc == hex_seq_val(data@.subrange(start as int, start + k)),
            acc < pow16(k as nat),
        decreases len - k,
    {
        let c = data[start + k];
        let d = match hex_digit(c) {
            Some(d) => d,
            None => {
                proof {
                    assert(whole[k as int] == c);
                }
                return None;
            },
        };
        proof {
            lemma_pow16_at_most_six(k as nat);
            assert(hex_val(c) <= 15);
        }
        let next_acc: u32 = acc * 16 + (d as u32);
        proof {
            let prefix = data@.subrange(start as int, start + k);
            let extended = data@.subrange(start as int, start + k + 1);
            assert(extended.drop_last() =~= prefix);
            assert(extended.last() == c);
            assert(next_acc == hex_seq_val(extended));
            assert(hex_seq_ok(extended));
        }
        acc = next_acc;
        k = k + 1;
    }
    proof {
        assert(data@.subrange(start as int, start + k) =~= whole);
    }
    Some(acc)
}

/// Loads an object program into a machine: resets it, verifies the
/// header, writes every `T` record's bytes relative to the header's
/// start address, and points `PC` at the address the `E` record
/// names.  On a failure the machine keeps the reset registers and the
/// bytes written before the failure, exactly as [`spec_load`] says.
#[verifier::loop_isolation(false)]
#[verifier::rlimit(50)]
pub fn load_object(machine: &mut Machine, data: &[u8]) -> (result: Result<(), LoaderError>)
    ensures
        final(machine)@ == (MachineView {
            mem: spec_load(data@).0,
            pc: spec_load_pc(spec_load(data@).1),
            ..initial_view()
        }),
        match spec_load(data@).1 {
            Ok(_) => result == Ok::<(), LoaderError>(()),
            Err(e) => result == Err::<(), LoaderError>(e),
        },
{
    machine.reset();
    let n = data.len();
    if n == 0 {
        return Err(LoaderError::MissingHeader);
    }
    if data[0] != CH_H {
        return Err(LoaderError::MissingHeader);
    }
    if n < 19 {
        return Err(LoaderError::TruncatedHeader);
    }
    let start = match hex_field(data, 7, 6) {
        Some(v) => v,
        None => {
            return Err(LoaderError::BadHeaderAddress);
        },
    };
    if hex_field(data, 13, 6).is_none() {
        return Err(LoaderError::BadHeaderLength);
    }
    proof {
        lemma_hex_seq_val_bound(data@.subrange(7, 13));
        lemma_pow16_small();
        assert(start == (hex_seq_val(data@.subrange(7, 13)) as u32));
        assert(start < 0x100_0000);
    }
    let ghost outcome = spec_records(data@, 19, Map::empty(), start, None);
    proof {
        assert(outcome == spec_load(data@));
    }
    let mut i: usize = 19;
    let mut end_rec: Option<u32> = None;
    while i < n
        invariant
            19 <= i <= n,
            machine@ == (MachineView { mem: machine@.mem, ..initial_view() }),
            spec_records(data@, i as int, machine@.mem, start, end_rec) == outcome,
        decreases n - i,
    {
        // Find the end of the current line.
        let mut j: usize = i;
        while j < n && data[j] != CH_NL
            invariant
                i <= j <= n,
                find_nl(data@, i as int) == find_nl(data@, j as int),
            decreases n - j,
        {
            proof {
                assert(find_nl(data@, j as int) == find_nl(data@, j + 1));
            }
            j = j + 1;
        }
        proof {
            assert(find_nl(data@, j as int) == j);
        }
        let line_end = if j > i && data[j - 1] == CH_CR {
            j - 1
        } else {
            j
        };
        let ghost line = trim_cr(data@.subrange(i as int, j as int));
        proof {
            assert(line =~= data@.subrange(i as int, line_end as int));
        }
        let line_len = line_end - i;
        let ghost mem_at_line = machine@.mem;
        if line_len == 0 {
            // An empty line carries no record.
        } else if data[i] == CH_T {
            if line_len < 9 {
                return Err(LoaderError::TruncatedTextRecord);
            }
            let taddr = match hex_field(data, i + 1, 6) {
                Some(v) => v,
                None => {
                    proof {
                        assert(data@.subrange(i + 1, i + 7) =~= line.subrange(1, 7));
                    }
                    return Err(LoaderError::BadTextAddress);
                },
            };
            proof {
                assert(data@.subrange(i + 1, i + 7) =~= line.subrange(1, 7));
                lemma_hex_seq_val_bound(line.subrange(1, 7));
                lemma_pow16_small();
            }
            let ghost base = (start + hex_seq_val(line.subrange(1, 7))) as int;
            let mut waddr: u64 = (start as u64) + (taddr as u64);
            let mut k: usize = 9;
            while k < line_len
                invariant
                    9 <= k,
                    waddr <= 0x01FF_FFFE + (k as int),
                    machine@ == (MachineView { mem: machine@.mem, ..initial_view() }),
                    t_data(machine@.mem, waddr as int, line, k as int) == t_data(
                        mem_at_line,
                        base,
                        line,
                        9,
                    ),
                decreases line_len + 1 - k,
            {
                let c0 = data[i + k];
                proof {
                    assert(line[k as int] == c0);
                }
                let h0 = match hex_digit(c0) {
                    Some(h) => h,
                    None => {
                        return Err(LoaderError::BadTextData);
                    },
                };
                let v: u8;
                if k + 1 < line_len {
                    let c1 = data[i + k + 1];
                    proof {
                        assert(line[k + 1] == c1);
                        assert(hex_val(c0) <= 15 && hex_val(c1) <= 15);
                    }
                    let h1 = match hex_digit(c1) {
                        Some(h) => h,
                        None => {
                            return Err(LoaderError::BadTextData);
                        },
                    };
                    v = h0 * 16 + h1;
                } else {
                    v = h0;
                }
                if waddr > MAX_ADDRESS as u64 {
                    return Err(LoaderError::AddressOutOfBounds);
                }
                machine.write_byte(waddr as u32, v);
                proof {
                    assert(machine@ =~= (MachineView { mem: machine@.mem, ..initial_view() }));
                }
                waddr = waddr + 1;
                k = k + 2;
            }
            proof {
                assert(t_data(machine@.mem, waddr as int, line, k as int) == (
                    machine@.mem,
                    Ok::<(), LoaderError>(()),
                ));
            }
        } else if data[i] == CH_E {
            if end_rec.is_some() {
                return Err(LoaderError::DuplicateEndRecord);
            }
            if line_len < 2 || line_len > 7 {
                return Err(LoaderError::BadEndAddress);
            }
            let e = match hex_field(data, i + 1, line_len - 1) {
                Some(v) => v,
                None => {
                    proof {
                        assert(data@.subrange(i + 1, i + line_len) =~= line.subrange(
                            1,
                            line.len() as int,
                        ));
                    }
                    return Err(LoaderError::BadEndAddress);
                },
            };
            proof {
                assert(data@.subrange(i + 1, i + line_len) =~= line.subrange(
                    1,
                    line.len() as int,
                ));
                lemma_hex_seq_val_bound(line.subrange(1, line.len() as int));
                lemma_pow16_at_most_six((line.len() - 1) as nat);
                assert(e == (hex_seq_val(line.subrange(1, line.len() as int)) as u32));
            }
            end_rec = Some(e);
        } else {
            // A line that is no record is passed over.
        }
        proof {
            if j == n {
                assert(spec_records(data@, j as int, machine@.mem, start, end_rec)
                    == spec_records(data@, j + 1, machine@.mem, start, end_rec));
            }
        }
        i = j;
        if i < n {
            i = i + 1;
        }
    }
    match end_rec {
        Some(e) => {
            machine.set_reg(&Register::PC, e);
            proof {
                assert(machine@ =~= (MachineView {
                    mem: spec_load(data@).0,
                    pc: spec_load_pc(spec_load(data@).1),
                    ..initial_view()
                }));
            }
            Ok(())
        },
        None => Err(LoaderError::MissingEndRecord),
    }
}

} // verus!
