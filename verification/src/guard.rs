//! Which class files the decoder reads without overflowing its 32-bit arithmetic.
//!
//! The decoder computes the size of a `tableswitch` as `high - low + 1`, sizes a
//! `lookupswitch` from its pair count, and adds every 32-bit branch displacement to the
//! 16-bit offset of its instruction, all in 32-bit arithmetic. The checks below walk the
//! class file as the decoder does and find each of these in every `Code` attribute.

use vstd::prelude::*;

use crate::input::{be_u16, be_u32};

verus! {

/// The big-endian signed 32-bit value stored at `at` through `at + 3`.
pub open spec fn be_i32(s: Seq<u8>, at: int) -> int {
    if be_u32(s, at) >= 0x8000_0000 {
        be_u32(s, at) - 0x1_0000_0000
    } else {
        be_u32(s, at)
    }
}

/// The largest displacement that can be added to the offset `rel` of an instruction: the
/// decoder keeps instruction offsets in 16 bits and adds in 32 bits.
pub open spec fn jump_limit(rel: int) -> int {
    0x7FFF_FFFF - rel % 0x1_0000
}

/// The length of an instruction of fixed length with opcode `op`; 0 for switches, `wide`
/// and opcodes the decoder refuses.
pub open spec fn fixed_length(op: u8) -> int {
    if op <= 15 || (26 <= op <= 131) || (133 <= op <= 152) || (172 <= op <= 177) || op == 190
        || op == 191 || op == 194 || op == 195 || op == 202 || op >= 254 {
        1
    } else if op == 16 || op == 18 || (21 <= op <= 25) || (54 <= op <= 58) || op == 169 || op
        == 188 {
        2
    } else if op == 17 || op == 19 || op == 20 || op == 132 || (153 <= op <= 168) || (178 <= op
        <= 184) || op == 187 || op == 189 || op == 192 || op == 193 || op == 198 || op == 199 {
        3
    } else if op == 197 {
        4
    } else if op == 185 || op == 186 || op == 200 || op == 201 {
        5
    } else {
        0
    }
}

/// Every 4-byte target of a table starting at `first` with `count` entries that lies before
/// `end` stays within `limit`.
pub open spec fn table_targets_in_range(s: Seq<u8>, first: int, count: int, end: int, limit: int) -> bool {
    forall|i: int|
        0 <= i < count && first + 4 * i + 4 <= end ==> #[trigger] be_i32(s, first + 4 * i) <= limit
}

/// Every target of a table of `count` key-target pairs starting at `first` that lies before
/// `end` stays within `limit`.
pub open spec fn pair_targets_in_range(s: Seq<u8>, first: int, count: int, end: int, limit: int) -> bool {
    forall|i: int|
        0 <= i < count && first + 8 * i + 8 <= end ==> #[trigger] be_i32(s, first + 8 * i + 4)
            <= limit
}

/// One step of the walk over the code in `start..end` at `pos`: whether the instruction there
/// stays within the decoder's arithmetic, and where the next one starts (negative where the
/// decoder stops reading).
pub open spec fn code_step(s: Seq<u8>, start: int, end: int, pos: int) -> (bool, int) {
    let rel = pos - start;
    let op = s[pos];
    let limit = jump_limit(rel);
    if op == 170 {
        let q = pos + 1 + (4 - (rel + 1) % 4) % 4;
        if q + 12 > end {
            (true, -1)
        } else {
            let low = be_i32(s, q + 4);
            let high = be_i32(s, q + 8);
            if high >= low && high - low >= 0x7FFF_FFFF {
                (false, -1)
            } else {
                let count = if high < low { 0 } else { high - low + 1 };
                (
                    be_i32(s, q) <= limit && table_targets_in_range(s, q + 12, count, end, limit),
                    q + 12 + 4 * count,
                )
            }
        }
    } else if op == 171 {
        let q = pos + 1 + (4 - (rel + 1) % 4) % 4;
        if q + 8 > end {
            (true, -1)
        } else {
            let count = be_i32(s, q + 4);
            if count < 0 {
                (false, -1)
            } else {
                (
                    be_i32(s, q) <= limit && pair_targets_in_range(s, q + 8, count, end, limit),
                    q + 8 + 8 * count,
                )
            }
        }
    } else if op == 196 {
        if pos + 2 > end {
            (true, -1)
        } else {
            let widened = s[pos + 1];
            if (21 <= widened <= 25) || (54 <= widened <= 58) || widened == 169 {
                (true, pos + 4)
            } else if widened == 132 {
                (true, pos + 6)
            } else {
                (true, -1)
            }
        }
    } else if fixed_length(op) == 0 {
        (true, -1)
    } else {
        (
            !(op == 200 || op == 201) || pos + 5 > end || be_i32(s, pos + 1) <= limit,
            pos + fixed_length(op),
        )
    }
}

/// The instructions of the code in `start..end`, from `pos` on, stay within the decoder's
/// arithmetic, up to where the decoder stops reading.
pub open spec fn code_in_range(s: Seq<u8>, start: int, end: int, pos: int) -> bool
    decreases end - pos,
{
    if pos < start || end > s.len() || pos >= end {
        true
    } else {
        let step = code_step(s, start, end, pos);
        step.0 && (step.1 <= pos || step.1 > end || code_in_range(s, start, end, step.1))
    }
}

fn u16_at(s: &[u8], at: usize) -> (value: u16)
    requires
        at + 2 <= s@.len(),
    ensures
        value == be_u16(s@, at as int),
{
    s[at] as u16 * 256 + s[at + 1] as u16
}

fn u32_at(s: &[u8], at: usize) -> (value: u32)
    requires
        at + 4 <= s@.len(),
    ensures
        value == be_u32(s@, at as int),
{
    let length = s.len();
    assert(at + 2 <= length);
    let high = u16_at(s, at);
    let low = u16_at(s, at + 2);
    high as u32 * 65536 + low as u32
}

fn i32_at(s: &[u8], at: usize) -> (value: i64)
    requires
        at + 4 <= s@.len(),
    ensures
        value == be_i32(s@, at as int),
{
    let raw = u32_at(s, at);
    if raw >= 0x8000_0000 {
        raw as i64 - 0x1_0000_0000
    } else {
        raw as i64
    }
}

fn fixed_length_of(op: u8) -> (length: usize)
    ensures
        length == fixed_length(op),
{
    if op <= 15 || (26 <= op && op <= 131) || (133 <= op && op <= 152) || (172 <= op && op <= 177)
        || op == 190 || op == 191 || op == 194 || op == 195 || op == 202 || op >= 254 {
        1
    } else if op == 16 || op == 18 || (21 <= op && op <= 25) || (54 <= op && op <= 58) || op == 169
        || op == 188 {
        2
    } else if op == 17 || op == 19 || op == 20 || op == 132 || (153 <= op && op <= 168) || (178
        <= op && op <= 184) || op == 187 || op == 189 || op == 192 || op == 193 || op == 198 || op
        == 199 {
        3
    } else if op == 197 {
        4
    } else if op == 185 || op == 186 || op == 200 || op == 201 {
        5
    } else {
        0
    }
}

fn table_targets_ok(s: &[u8], first: usize, count: u64, end: usize, limit: i64) -> (ok: bool)
    requires
        first <= end <= s@.len(),
    ensures
        ok == table_targets_in_range(s@, first as int, count as int, end as int, limit as int),
{
    let mut i: u64 = 0;
    let mut at: usize = first;
    while i < count && end - at >= 4
        invariant
            first <= at <= end <= s@.len(),
            at == first + 4 * i,
            i <= count,
            forall|j: int|
                0 <= j < i ==> #[trigger] be_i32(s@, first + 4 * j) <= limit,
        decreases count - i,
    {
        if i32_at(s, at) > limit {
            assert(be_i32(s@, first + 4 * (i as int)) > limit);
            return false;
        }
        at = at + 4;
        i = i + 1;
    }
    true
}

fn pair_targets_ok(s: &[u8], first: usize, count: u64, end: usize, limit: i64) -> (ok: bool)
    requires
        first <= end <= s@.len(),
    ensures
        ok == pair_targets_in_range(s@, first as int, count as int, end as int, limit as int),
{
    let mut i: u64 = 0;
    let mut at: usize = first;
    while i < count && end - at >= 8
        invariant
            first <= at <= end <= s@.len(),
            at == first + 8 * i,
            i <= count,
            forall|j: int|
                0 <= j < i ==> #[trigger] be_i32(s@, first + 8 * j + 4) <= limit,
        decreases count - i,
    {
        if i32_at(s, at + 4) > limit {
            assert(be_i32(s@, first + 8 * (i as int) + 4) > limit);
            return false;
        }
        at = at + 8;
        i = i + 1;
    }
    true
}

/// The next position of a step, where the walk goes on: inside the code and past `pos`.
pub open spec fn next_of(step: (bool, int), pos: int, end: int) -> Option<int> {
    if step.1 <= pos || step.1 > end {
        None
    } else {
        Some(step.1)
    }
}

fn code_step_at(s: &[u8], start: usize, end: usize, pos: usize) -> (step: (bool, Option<usize>))
    requires
        start <= pos < end <= s@.len(),
    ensures
        step.0 == code_step(s@, start as int, end as int, pos as int).0,
        step.1 matches Some(n) ==> next_of(code_step(s@, start as int, end as int, pos as int), pos as int, end as int) == Some(n as int),
        step.1 is None ==> next_of(code_step(s@, start as int, end as int, pos as int), pos as int, end as int) is None,
{
    let rel = pos - start;
    let op = s[pos];
    let limit: i64 = 0x7FFF_FFFF - (rel % 0x1_0000) as i64;
    if op == 170 || op == 171 {
        let pad = (4 - (rel + 1) % 4) % 4;
        let header: usize = if op == 170 { 12 } else { 8 };
        if end - (pos + 1) < pad + header {
            return (true, None);
        }
        let q = pos + 1 + pad;
        let default_ok = i32_at(s, q) <= limit;
        if op == 170 {
            let low = i32_at(s, q + 4);
            let high = i32_at(s, q + 8);
            if high >= low && high - low >= 0x7FFF_FFFF {
                return (false, None);
            }
            let count: u64 = if high < low { 0 } else { (high - low + 1) as u64 };
            let ok = default_ok && table_targets_ok(s, q + 12, count, end, limit);
            if (count as u128) * 4 > (end - (q + 12)) as u128 {
                (ok, None)
            } else {
                (ok, Some(q + 12 + (count as usize) * 4))
            }
        } else {
            let count = i32_at(s, q + 4);
            if count < 0 {
                return (false, None);
            }
            let ok = default_ok && pair_targets_ok(s, q + 8, count as u64, end, limit);
            if (count as u128) * 8 > (end - (q + 8)) as u128 {
                (ok, None)
            } else {
                (ok, Some(q + 8 + (count as usize) * 8))
            }
        }
    } else if op == 196 {
        if end - pos < 2 {
            return (true, None);
        }
        let widened = s[pos + 1];
        let size: usize = if (21 <= widened && widened <= 25) || (54 <= widened && widened <= 58)
            || widened == 169 {
            4
        } else if widened == 132 {
            6
        } else {
            return (true, None);
        };
        if end - pos < size {
            (true, None)
        } else {
            (true, Some(pos + size))
        }
    } else {
        let size = fixed_length_of(op);
        if size == 0 {
            return (true, None);
        }
        let ok = !(op == 200 || op == 201) || end - pos < 5 || i32_at(s, pos + 1) <= limit;
        if end - pos < size {
            (ok, None)
        } else {
            (ok, Some(pos + size))
        }
    }
}

/// Checks [`code_in_range`] over the whole code in `start..end`.
fn code_ok(s: &[u8], start: usize, end: usize) -> (ok: bool)
    requires
        start <= end <= s@.len(),
    ensures
        ok == code_in_range(s@, start as int, end as int, start as int),
{
    let mut pos = start;
    while pos < end
        invariant
            start <= pos <= end <= s@.len(),
            code_in_range(s@, start as int, end as int, start as int) == code_in_range(
                s@,
                start as int,
                end as int,
                pos as int,
            ),
        decreases end - pos,
    {
        let step = code_step_at(s, start, end, pos);
        if !step.0 {
            return false;
        }
        match step.1 {
            None => {
                return true;
            },
            Some(next) => {
                pos = next;
            },
        }
    }
    true
}

/// The size of the constant-pool entry at `pos`, as the decoder reads it; 0 where it refuses
/// the tag or the entry is cut short.
pub open spec fn cp_entry_size(s: Seq<u8>, pos: int) -> int {
    let tag = s[pos];
    if tag == 1 {
        if pos + 3 <= s.len() {
            3 + be_u16(s, pos + 1)
        } else {
            0
        }
    } else if tag == 3 || tag == 4 {
        5
    } else if tag == 5 || tag == 6 {
        9
    } else if tag == 7 || tag == 8 || tag == 16 || tag == 19 || tag == 20 {
        3
    } else if tag == 9 || tag == 10 || tag == 11 || tag == 12 || tag == 17 || tag == 18 {
        5
    } else if tag == 15 {
        4
    } else {
        0
    }
}

/// Walks the constant pool from the entry at `pos`, which holds slot `index`, until slot
/// `stop` is reached: where the walk ended and at which slot; position -1 where the decoder
/// stops reading. Longs and doubles take two slots.
pub open spec fn cp_scan(s: Seq<u8>, pos: int, index: int, stop: int) -> (int, int)
    decreases if index < stop {
        stop - index
    } else {
        0
    },
{
    if index >= stop {
        (pos, index)
    } else if pos < 0 || pos >= s.len() || cp_entry_size(s, pos) == 0 || pos + cp_entry_size(
        s,
        pos,
    ) > s.len() {
        (-1, index)
    } else {
        cp_scan(
            s,
            pos + cp_entry_size(s, pos),
            index + if s[pos] == 5 || s[pos] == 6 {
                2int
            } else {
                1int
            },
            stop,
        )
    }
}

/// The modified UTF-8 in `pos..end`, from character `k` of `name` on, decodes to the rest of
/// the ASCII `name`, as the decoder decodes it.
pub open spec fn decodes_to(s: Seq<u8>, pos: int, end: int, name: Seq<u8>, k: int) -> bool
    decreases end - pos,
{
    if pos >= end {
        k == name.len()
    } else if k < 0 || k >= name.len() {
        false
    } else if s[pos] < 0x80 {
        s[pos] == name[k] && decodes_to(s, pos + 1, end, name, k + 1)
    } else if 0xC0 <= s[pos] < 0xE0 {
        pos + 2 <= end && 0x80 <= s[pos + 1] < 0xC0 && (s[pos] - 0xC0) * 64 + (s[pos + 1] - 0x80)
            == name[k] && decodes_to(s, pos + 2, end, name, k + 1)
    } else if 0xE0 <= s[pos] < 0xF0 {
        pos + 3 <= end && 0x80 <= s[pos + 1] < 0xC0 && 0x80 <= s[pos + 2] < 0xC0 && (s[pos] - 0xE0)
            * 4096 + (s[pos + 1] - 0x80) * 64 + (s[pos + 2] - 0x80) == name[k] && decodes_to(
            s,
            pos + 3,
            end,
            name,
            k + 1,
        )
    } else {
        false
    }
}

/// Constant-pool slot `index` is a UTF-8 entry whose text is the ASCII `name`.
pub open spec fn slot_names(s: Seq<u8>, index: int, name: Seq<u8>) -> bool {
    let found = cp_scan(s, 2, 1, index);
    let pos = found.0;
    &&& 2 <= s.len()
    &&& 1 <= index < be_u16(s, 0)
    &&& 0 <= pos
    &&& found.1 == index
    &&& pos + 3 <= s.len()
    &&& s[pos] == 1
    &&& pos + 3 + be_u16(s, pos + 1) <= s.len()
    &&& decodes_to(s, pos + 3, pos + 3 + be_u16(s, pos + 1), name, 0)
}

/// Constant-pool slot `index` is a UTF-8 entry: the decoder goes on reading an attribute
/// named there.
pub open spec fn slot_is_text(s: Seq<u8>, index: int) -> bool {
    let found = cp_scan(s, 2, 1, index);
    let pos = found.0;
    &&& 2 <= s.len()
    &&& 1 <= index < be_u16(s, 0)
    &&& 0 <= pos
    &&& found.1 == index
    &&& pos + 3 <= s.len()
    &&& s[pos] == 1
}

pub open spec fn code_name() -> Seq<u8> {
    seq![67u8, 111u8, 100u8, 101u8]
}

pub open spec fn record_name() -> Seq<u8> {
    seq![82u8, 101u8, 99u8, 111u8, 114u8, 100u8]
}

/// The `count` attributes from `pos` on, inside a region ending at `limit`, keep every `Code`
/// attribute within the decoder's arithmetic, also those nested in `Code` and `Record`
/// attributes, and claim no length whose end the decoder cannot hold in a `usize`; and where
/// the table ends (-1 where the decoder stops reading). The decoder reads the table from a
/// buffer in which `pos` lies at `pos + 8 - origin`: the whole file for `origin` 0, an
/// attribute body starting at `start` for `origin` `start + 8`.
pub open spec fn attributes_in_range(s: Seq<u8>, origin: int, pos: int, limit: int, count: int) -> (bool, int)
    decreases limit - pos,
{
    if count <= 0 {
        (true, pos)
    } else if pos < 0 || limit > s.len() || pos + 6 > limit {
        (true, -1)
    } else {
        let body = pos + 6;
        let body_end = body + be_u32(s, pos + 2);
        let name = be_u16(s, pos);
        if !slot_is_text(s, name) {
            (true, -1)
        } else if pos + 8 - origin + 6 + be_u32(s, pos + 2) > usize::MAX {
            (false, -1)
        } else if body_end > limit {
            (true, -1)
        } else {
            let here = if slot_names(s, name, code_name()) {
                code_attribute_in_range(s, body, body_end)
            } else if slot_names(s, name, record_name()) {
                record_in_range(s, body, body_end)
            } else {
                true
            };
            let rest = attributes_in_range(s, origin, body_end, limit, count - 1);
            (here && rest.0, rest.1)
        }
    }
}

/// The body of a `Code` attribute in `start..end` keeps its instructions, and the attributes
/// nested in it, within the decoder's arithmetic, and claims no code length whose end the
/// decoder cannot hold in a `usize`.
pub open spec fn code_attribute_in_range(s: Seq<u8>, start: int, end: int) -> bool
    decreases end - start,
{
    if start < 0 || end > s.len() || start + 8 > end {
        true
    } else {
        let code_end = start + 8 + be_u32(s, start + 4);
        if 8 + be_u32(s, start + 4) > usize::MAX {
            false
        } else if code_end > end {
            true
        } else {
            let instructions = code_in_range(s, start + 8, code_end, start + 8);
            let table_end = code_end + 2 + 8 * be_u16(s, code_end);
            if code_end + 2 > end || table_end + 2 > end {
                instructions
            } else {
                instructions && attributes_in_range(s, start + 8, table_end + 2, end, be_u16(s, table_end)).0
            }
        }
    }
}

/// The body of a `Record` attribute in `start..end` keeps the attributes of its components
/// within the decoder's arithmetic.
pub open spec fn record_in_range(s: Seq<u8>, start: int, end: int) -> bool
    decreases end - start,
{
    if start < 0 || end > s.len() || start + 2 > end {
        true
    } else {
        components_in_range(s, start + 8, start + 2, end, be_u16(s, start)).0
    }
}

/// The `count` record components from `pos` on keep their attributes within the decoder's
/// arithmetic; and where they end (-1 where the decoder stops reading).
pub open spec fn components_in_range(s: Seq<u8>, origin: int, pos: int, limit: int, count: int) -> (bool, int)
    decreases limit - pos,
{
    if count <= 0 {
        (true, pos)
    } else if pos < 0 || limit > s.len() || pos + 6 > limit {
        (true, -1)
    } else {
        let attributes = attributes_in_range(s, origin, pos + 6, limit, be_u16(s, pos + 4));
        if attributes.1 <= pos || attributes.1 > limit {
            (attributes.0, -1)
        } else {
            let rest = components_in_range(s, origin, attributes.1, limit, count - 1);
            (attributes.0 && rest.0, rest.1)
        }
    }
}

/// The `count` fields or methods from `pos` on keep their attributes within the decoder's
/// arithmetic; and where they end (-1 where the decoder stops reading).
pub open spec fn members_in_range(s: Seq<u8>, pos: int, count: int) -> (bool, int)
    decreases count,
{
    if count <= 0 {
        (true, pos)
    } else if pos < 0 || pos + 8 > s.len() {
        (true, -1)
    } else {
        let attributes = attributes_in_range(s, 0, pos + 8, s.len() as int, be_u16(s, pos + 6));
        if attributes.1 < 0 {
            (attributes.0, -1)
        } else {
            let rest = members_in_range(s, attributes.1, count - 1);
            (attributes.0 && rest.0, rest.1)
        }
    }
}

/// The class file after its magic number and versions, `s`, keeps every `Code` attribute
/// within the decoder's arithmetic.
pub open spec fn class_body_in_range(s: Seq<u8>) -> bool {
    if s.len() < 2 {
        true
    } else {
        let pool_end = cp_scan(s, 2, 1, be_u16(s, 0)).0;
        if pool_end < 0 || pool_end + 8 > s.len() {
            true
        } else {
            let fields_at = pool_end + 8 + 2 * be_u16(s, pool_end + 6);
            if fields_at + 2 > s.len() {
                true
            } else {
                let fields = members_in_range(s, fields_at + 2, be_u16(s, fields_at));
                if fields.1 < 0 || fields.1 + 2 > s.len() {
                    fields.0
                } else {
                    let methods = members_in_range(s, fields.1 + 2, be_u16(s, fields.1));
                    if methods.1 < 0 || methods.1 + 2 > s.len() {
                        fields.0 && methods.0
                    } else {
                        fields.0 && methods.0 && attributes_in_range(
                            s,
                            0,
                            methods.1 + 2,
                            s.len() as int,
                            be_u16(s, methods.1),
                        ).0
                    }
                }
            }
        }
    }
}

/// The decoder reads `bytes` without overflowing its arithmetic: no attribute or code length
/// ends past what a `usize` holds, and no `Code` attribute holds a `tableswitch` whose range
/// overflows, a `lookupswitch` with a negative pair count,
/// or a 32-bit branch target that overflows when added to its instruction's offset.
pub open spec fn decodes_in_range(bytes: Seq<u8>) -> bool {
    bytes.len() < 8 || class_body_in_range(bytes.subrange(8, bytes.len() as int))
}

fn cp_entry_size_at(s: &[u8], pos: usize) -> (size: usize)
    requires
        pos < s@.len(),
    ensures
        size == cp_entry_size(s@, pos as int),
{
    let tag = s[pos];
    if tag == 1 {
        if s.len() - pos >= 3 {
            3 + u16_at(s, pos + 1) as usize
        } else {
            0
        }
    } else if tag == 3 || tag == 4 {
        5
    } else if tag == 5 || tag == 6 {
        9
    } else if tag == 7 || tag == 8 || tag == 16 || tag == 19 || tag == 20 {
        3
    } else if tag == 9 || tag == 10 || tag == 11 || tag == 12 || tag == 17 || tag == 18 {
        5
    } else if tag == 15 {
        4
    } else {
        0
    }
}

/// Runs [`cp_scan`] from the first entry to slot `stop`.
fn cp_scan_to(s: &[u8], stop: u16) -> (found: (Option<usize>, u32))
    ensures
        found.0 matches Some(p) ==> cp_scan(s@, 2, 1, stop as int).0 == p,
        found.0 is None ==> cp_scan(s@, 2, 1, stop as int).0 < 0,
        found.1 == cp_scan(s@, 2, 1, stop as int).1,
{
    let mut pos: usize = 2;
    let mut index: u32 = 1;
    while index < stop as u32
        invariant
            cp_scan(s@, 2, 1, stop as int) == cp_scan(s@, pos as int, index as int, stop as int),
            index <= stop as u32 + 1,
            pos >= 2,
        decreases if index < stop as u32 {
            stop as u32 - index
        } else {
            0
        },
    {
        if pos >= s.len() {
            return (None, index);
        }
        let size = cp_entry_size_at(s, pos);
        if size == 0 || s.len() - pos < size {
            return (None, index);
        }
        let step: u32 = if s[pos] == 5 || s[pos] == 6 { 2 } else { 1 };
        pos = pos + size;
        index = index + step;
    }
    (Some(pos), index)
}

/// Checks [`decodes_to`] for the text in `start..end`.
fn decodes_to_name(s: &[u8], start: usize, end: usize, name: &[u8]) -> (ok: bool)
    requires
        start <= end <= s@.len(),
    ensures
        ok == decodes_to(s@, start as int, end as int, name@, 0),
{
    let mut pos = start;
    let mut k: usize = 0;
    while pos < end
        invariant
            start <= pos <= end <= s@.len(),
            k <= name@.len(),
            decodes_to(s@, start as int, end as int, name@, 0) == decodes_to(
                s@,
                pos as int,
                end as int,
                name@,
                k as int,
            ),
        decreases end - pos,
    {
        if k >= name.len() {
            return false;
        }
        let b = s[pos];
        if b < 0x80 {
            if b != name[k] {
                return false;
            }
            pos = pos + 1;
        } else if 0xC0 <= b && b < 0xE0 {
            if end - pos < 2 {
                return false;
            }
            let b1 = s[pos + 1];
            if !(0x80 <= b1 && b1 < 0xC0) || (b as u32 - 0xC0) * 64 + (b1 as u32 - 0x80) != name[k] as u32 {
                return false;
            }
            pos = pos + 2;
        } else if 0xE0 <= b && b < 0xF0 {
            if end - pos < 3 {
                return false;
            }
            let b1 = s[pos + 1];
            let b2 = s[pos + 2];
            if !(0x80 <= b1 && b1 < 0xC0) || !(0x80 <= b2 && b2 < 0xC0) || (b as u32 - 0xE0) * 4096 + (b1
                as u32 - 0x80) * 64 + (b2 as u32 - 0x80) != name[k] as u32 {
                return false;
            }
            pos = pos + 3;
        } else {
            return false;
        }
        k = k + 1;
    }
    k == name.len()
}

/// Whether constant-pool slot `index` is text, names a `Code` attribute, names a `Record`
/// attribute.
fn slot_kind(s: &[u8], index: u16) -> (kind: (bool, bool, bool))
    ensures
        kind.0 == slot_is_text(s@, index as int),
        kind.1 == slot_names(s@, index as int, code_name()),
        kind.2 == slot_names(s@, index as int, record_name()),
{
    if s.len() < 2 {
        return (false, false, false);
    }
    let count = u16_at(s, 0);
    if index < 1 || index >= count {
        return (false, false, false);
    }
    let found = cp_scan_to(s, index);
    let pos = match found.0 {
        Some(pos) => pos,
        None => {
            return (false, false, false);
        },
    };
    if found.1 != index as u32 || pos >= s.len() || s.len() - pos < 3 || s[pos] != 1 {
        return (false, false, false);
    }
    let length = u16_at(s, pos + 1) as usize;
    if s.len() - (pos + 3) < length {
        return (true, false, false);
    }
    let code: Vec<u8> = vec![67u8, 111u8, 100u8, 101u8];
    let record: Vec<u8> = vec![82u8, 101u8, 99u8, 111u8, 114u8, 100u8];
    assert(code@ =~= code_name());
    assert(record@ =~= record_name());
    let is_code = decodes_to_name(s, pos + 3, pos + 3 + length, code.as_slice());
    let is_record = decodes_to_name(s, pos + 3, pos + 3 + length, record.as_slice());
    (true, is_code, is_record)
}

/// Checks [`attributes_in_range`].
fn attributes_ok(s: &[u8], origin: u128, pos: usize, limit: usize, count: u16) -> (r: (bool, Option<usize>))
    requires
        pos <= limit <= s@.len(),
        origin <= pos + 8,
    ensures
        r.0 == attributes_in_range(s@, origin as int, pos as int, limit as int, count as int).0,
        r.1 matches Some(e) ==> attributes_in_range(s@, origin as int, pos as int, limit as int, count as int).1
            == e && e <= limit,
        r.1 is None ==> attributes_in_range(s@, origin as int, pos as int, limit as int, count as int).1 < 0,
    decreases limit - pos,
{
    let mut ok = true;
    let mut at = pos;
    let mut left = count;
    while left > 0
        invariant
            pos <= at <= limit <= s@.len(),
            origin <= pos + 8,
            attributes_in_range(s@, origin as int, pos as int, limit as int, count as int).0 == (ok
                && attributes_in_range(s@, origin as int, at as int, limit as int, left as int).0),
            attributes_in_range(s@, origin as int, pos as int, limit as int, count as int).1
                == attributes_in_range(s@, origin as int, at as int, limit as int, left as int).1,
        decreases left,
    {
        if limit - at < 6 {
            return (ok, None);
        }
        let name = u16_at(s, at);
        let length = u32_at(s, at + 2);
        let kind = slot_kind(s, name);
        if !kind.0 {
            return (ok, None);
        }
        if at as u128 + 8 - origin + 6 + length as u128 > usize::MAX as u128 {
            return (false, None);
        }
        if length as u64 > (limit - at - 6) as u64 {
            return (ok, None);
        }
        let body = at + 6;
        let body_end = body + length as usize;
        let here = if kind.1 {
            code_attribute_ok(s, body, body_end)
        } else if kind.2 {
            record_ok(s, body, body_end)
        } else {
            true
        };
        ok = ok && here;
        at = body_end;
        left = left - 1;
    }
    (ok, Some(at))
}

/// Checks [`code_attribute_in_range`].
fn code_attribute_ok(s: &[u8], start: usize, end: usize) -> (ok: bool)
    requires
        start <= end <= s@.len(),
    ensures
        ok == code_attribute_in_range(s@, start as int, end as int),
    decreases end - start,
{
    if end - start < 8 {
        return true;
    }
    let code_length = u32_at(s, start + 4);
    if 8 + code_length as u128 > usize::MAX as u128 {
        return false;
    }
    if code_length as u64 > (end - start - 8) as u64 {
        return true;
    }
    let code_end = start + 8 + code_length as usize;
    let instructions = code_ok(s, start + 8, code_end);
    if end - code_end < 2 {
        return instructions;
    }
    let handlers = u16_at(s, code_end);
    if (handlers as u64) * 8 + 4 > (end - code_end) as u64 {
        return instructions;
    }
    let table_end = code_end + 2 + 8 * handlers as usize;
    if !instructions {
        return false;
    }
    let count = u16_at(s, table_end);
    attributes_ok(s, start as u128 + 8, table_end + 2, end, count).0
}

/// Checks [`record_in_range`].
fn record_ok(s: &[u8], start: usize, end: usize) -> (ok: bool)
    requires
        start <= end <= s@.len(),
    ensures
        ok == record_in_range(s@, start as int, end as int),
    decreases end - start,
{
    if end - start < 2 {
        return true;
    }
    let count = u16_at(s, start);
    components_ok(s, start as u128 + 8, start + 2, end, count).0
}

/// Checks [`components_in_range`].
fn components_ok(s: &[u8], origin: u128, pos: usize, limit: usize, count: u16) -> (r: (bool, Option<usize>))
    requires
        pos <= limit <= s@.len(),
        origin <= pos + 8,
    ensures
        r.0 == components_in_range(s@, origin as int, pos as int, limit as int, count as int).0,
    decreases limit - pos,
{
    let mut ok = true;
    let mut at = pos;
    let mut left = count;
    while left > 0
        invariant
            pos <= at <= limit <= s@.len(),
            origin <= pos + 8,
            components_in_range(s@, origin as int, pos as int, limit as int, count as int).0 == (ok
                && components_in_range(s@, origin as int, at as int, limit as int, left as int).0),
        decreases left,
    {
        if limit - at < 6 {
            return (ok, None);
        }
        let nested = u16_at(s, at + 4);
        let attributes = attributes_ok(s, origin, at + 6, limit, nested);
        match attributes.1 {
            Some(e) => {
                if e <= at {
                    return (ok && attributes.0, None);
                }
                ok = ok && attributes.0;
                at = e;
            },
            None => {
                return (ok && attributes.0, None);
            },
        }
        left = left - 1;
    }
    (ok, Some(at))
}

/// Checks [`members_in_range`].
fn members_ok(s: &[u8], pos: usize, count: u16) -> (r: (bool, Option<usize>))
    requires
        pos <= s@.len(),
    ensures
        r.0 == members_in_range(s@, pos as int, count as int).0,
        r.1 matches Some(e) ==> members_in_range(s@, pos as int, count as int).1 == e && e
            <= s@.len(),
        r.1 is None ==> members_in_range(s@, pos as int, count as int).1 < 0,
{
    let mut ok = true;
    let mut at = pos;
    let mut left = count;
    while left > 0
        invariant
            at <= s@.len(),
            members_in_range(s@, pos as int, count as int).0 == (ok && members_in_range(
                s@,
                at as int,
                left as int,
            ).0),
            members_in_range(s@, pos as int, count as int).1 == members_in_range(
                s@,
                at as int,
                left as int,
            ).1,
        decreases left,
    {
        if s.len() - at < 8 {
            return (ok, None);
        }
        let nested = u16_at(s, at + 6);
        let attributes = attributes_ok(s, 0, at + 8, s.len(), nested);
        match attributes.1 {
            Some(e) => {
                ok = ok && attributes.0;
                at = e;
            },
            None => {
                return (ok && attributes.0, None);
            },
        }
        left = left - 1;
    }
    (ok, Some(at))
}

/// Checks [`class_body_in_range`].
fn class_body_ok(s: &[u8]) -> (ok: bool)
    ensures
        ok == class_body_in_range(s@),
{
    if s.len() < 2 {
        return true;
    }
    let pool = cp_scan_to(s, u16_at(s, 0));
    let pool_end = match pool.0 {
        Some(p) => p,
        None => {
            return true;
        },
    };
    if pool_end > s.len() || s.len() - pool_end < 8 {
        return true;
    }
    let interfaces = u16_at(s, pool_end + 6);
    if (interfaces as u64) * 2 + 10 > (s.len() - pool_end) as u64 {
        return true;
    }
    let fields_at = pool_end + 8 + 2 * interfaces as usize;
    let fields = members_ok(s, fields_at + 2, u16_at(s, fields_at));
    let fields_end = match fields.1 {
        Some(e) => e,
        None => {
            return fields.0;
        },
    };
    if s.len() - fields_end < 2 {
        return fields.0;
    }
    let methods = members_ok(s, fields_end + 2, u16_at(s, fields_end));
    let methods_end = match methods.1 {
        Some(e) => e,
        None => {
            return fields.0 && methods.0;
        },
    };
    if s.len() - methods_end < 2 {
        return fields.0 && methods.0;
    }
    if !(fields.0 && methods.0) {
        return false;
    }
    attributes_ok(s, 0, methods_end + 2, s.len(), u16_at(s, methods_end)).0
}

/// Checks [`decodes_in_range`]: whether the decoder can read `bytes` without overflowing
/// its 32-bit arithmetic.
pub fn decodes_within_range(bytes: &[u8]) -> (ok: bool)
    ensures
        ok == decodes_in_range(bytes@),
{
    if bytes.len() < 8 {
        return true;
    }
    let body = vstd::slice::slice_subrange(bytes, 8, bytes.len());
    class_body_ok(body)
}

} // verus!
