//! A structural check of a binary NBT document, run before the document is
//! handed to the outside NBT reader.
//!
//! The reader skips fields it was not asked for by walking their structure,
//! and that skip treats one shape as impossible: a list whose element tag is
//! the end marker but whose stored count is positive.  On such a document the
//! reader aborts instead of returning an error.  This module walks the same
//! structure in verified code and accepts a document only when every tag is
//! one the reader defines, every stored length stays inside the document,
//! and no positive-count list of end markers occurs anywhere -- so a
//! document that passes is one the reader's walk traverses without reaching
//! its impossible cases.  The check is deliberately strict: rejecting a
//! document only makes the owning chunk load empty, exactly as a reader
//! error would.

use vstd::prelude::*;

verus! {

/// Largest document the walk examines; a bigger one is rejected outright.
pub const NBT_DOC_LIMIT: usize = 0x0800_0000;

/// The big-endian 16-bit value stored at `p`.
pub open spec fn be16(doc: Seq<u8>, p: int) -> int {
    doc[p] * 0x100 + doc[p + 1]
}

/// The big-endian 32-bit value stored at `p`, unsigned; stored counts of
/// `0x8000_0000` and above are the reader's negative values.
pub open spec fn be32(doc: Seq<u8>, p: int) -> int {
    doc[p] * 0x1000000 + doc[p + 1] * 0x10000 + doc[p + 2] * 0x100 + doc[p + 3]
}

/// Whether a stored list count reads as zero or negative, which the reader
/// treats as a list with no elements.
pub open spec fn count_nonpositive(n: int) -> bool {
    n == 0 || n >= 0x8000_0000
}

/// Where the payload of a tag-`t` value starting at `p` ends, or -1 when
/// the document is not well formed there (an unknown tag, a length past the
/// end, a positive-count list of end markers, or a walk deeper than the
/// fuel, which a document within the size limit never exhausts).
pub open spec fn payload_end(doc: Seq<u8>, t: u8, p: int, fuel: nat) -> int
    decreases fuel,
{
    if fuel == 0 {
        -1
    } else if t == 1 {
        bounded_end(doc, p + 1)
    } else if t == 2 {
        bounded_end(doc, p + 2)
    } else if t == 3 || t == 5 {
        bounded_end(doc, p + 4)
    } else if t == 4 || t == 6 {
        bounded_end(doc, p + 8)
    } else if t == 7 || t == 11 || t == 12 {
        if p + 4 <= doc.len() {
            let n = be32(doc, p);
            let w: int = if t == 7 {
                1
            } else if t == 11 {
                4
            } else {
                8
            };
            if n < 0x8000_0000 {
                bounded_end(doc, p + 4 + n * w)
            } else {
                -1
            }
        } else {
            -1
        }
    } else if t == 8 {
        if p + 2 <= doc.len() {
            bounded_end(doc, p + 2 + be16(doc, p))
        } else {
            -1
        }
    } else if t == 9 {
        if p + 5 <= doc.len() {
            let e = doc[p];
            let n = be32(doc, p + 1);
            if count_nonpositive(n) {
                p + 5
            } else if 1 <= e <= 12 {
                elems_end(doc, e, p + 5, n, (fuel - 1) as nat)
            } else {
                -1
            }
        } else {
            -1
        }
    } else if t == 10 {
        fields_end(doc, p, (fuel - 1) as nat)
    } else {
        -1
    }
}

/// Where `n` consecutive tag-`e` payloads starting at `p` end, or -1.
pub open spec fn elems_end(doc: Seq<u8>, e: u8, p: int, n: int, fuel: nat) -> int
    decreases fuel,
{
    if fuel == 0 {
        -1
    } else if n <= 0 {
        p
    } else {
        let q = payload_end(doc, e, p, (fuel - 1) as nat);
        if q < 0 {
            -1
        } else {
            elems_end(doc, e, q, n - 1, (fuel - 1) as nat)
        }
    }
}

/// Where a run of named compound fields starting at `p` ends, just past its
/// end marker, or -1.
pub open spec fn fields_end(doc: Seq<u8>, p: int, fuel: nat) -> int
    decreases fuel,
{
    if fuel == 0 {
        -1
    } else if p + 1 > doc.len() {
        -1
    } else if doc[p] == 0 {
        p + 1
    } else if 1 <= doc[p] <= 12 {
        if p + 3 <= doc.len() {
            let q0 = p + 3 + be16(doc, p + 1);
            if q0 <= doc.len() {
                let q = payload_end(doc, doc[p], q0, (fuel - 1) as nat);
                if q < 0 {
                    -1
                } else {
                    fields_end(doc, q, (fuel - 1) as nat)
                }
            } else {
                -1
            }
        } else {
            -1
        }
    } else {
        -1
    }
}

/// A position past the end of the document marks the value ill-formed.
pub open spec fn bounded_end(doc: Seq<u8>, e: int) -> int {
    if e <= doc.len() {
        e
    } else {
        -1
    }
}

/// Fuel for the walk: every step of the walk either descends or moves
/// forward past at least one byte every few steps, so this bound is never
/// the reason a document within the size limit is rejected.
pub open spec fn walk_fuel(doc: Seq<u8>) -> nat {
    (4 * doc.len() + 16) as nat
}

/// A document the reader's walk traverses without reaching its impossible
/// cases: within the size limit, rooted in a named compound, and well
/// formed under the structural walk.
pub open spec fn nbt_doc_ok(doc: Seq<u8>) -> bool {
    &&& doc.len() <= NBT_DOC_LIMIT
    &&& doc.len() >= 3
    &&& doc[0] == 10
    &&& 3 + be16(doc, 1) <= doc.len()
    &&& fields_end(doc, 3 + be16(doc, 1), walk_fuel(doc)) >= 0
}

/// Where the payload of a tag-`t` value starting at `p` ends, or -1.
fn payload_end_x(doc: &Vec<u8>, t: u8, p: u64, fuel: u64) -> (r: i64)
    requires
        doc@.len() <= NBT_DOC_LIMIT,
        p <= doc@.len(),
    ensures
        r == payload_end(doc@, t, p as int, fuel as nat),
        r >= 0 ==> p <= r <= doc@.len(),
    decreases fuel,
{
    if fuel == 0 {
        return -1;
    }
    let n64: u64 = doc.len() as u64;
    if t == 1 {
        bounded_end_x(doc, p + 1)
    } else if t == 2 {
        bounded_end_x(doc, p + 2)
    } else if t == 3 || t == 5 {
        bounded_end_x(doc, p + 4)
    } else if t == 4 || t == 6 {
        bounded_end_x(doc, p + 8)
    } else if t == 7 || t == 11 || t == 12 {
        if p + 4 <= n64 {
            let n: u64 = read_be32(doc, p);
            let w: u64 = if t == 7 {
                1
            } else if t == 11 {
                4
            } else {
                8
            };
            if n < 0x8000_0000 {
                bounded_end_x(doc, p + 4 + n * w)
            } else {
                -1
            }
        } else {
            -1
        }
    } else if t == 8 {
        if p + 2 <= n64 {
            bounded_end_x(doc, p + 2 + read_be16(doc, p))
        } else {
            -1
        }
    } else if t == 9 {
        if p + 5 <= n64 {
            let e: u8 = doc[p as usize];
            let n: u64 = read_be32(doc, p + 1);
            if n == 0 || n >= 0x8000_0000 {
                (p + 5) as i64
            } else if 1 <= e && e <= 12 {
                elems_end_x(doc, e, p + 5, n, fuel - 1)
            } else {
                -1
            }
        } else {
            -1
        }
    } else if t == 10 {
        fields_end_x(doc, p, fuel - 1)
    } else {
        -1
    }
}

/// Where `n` consecutive tag-`e` payloads starting at `p` end, or -1.
fn elems_end_x(doc: &Vec<u8>, e: u8, p: u64, n: u64, fuel: u64) -> (r: i64)
    requires
        doc@.len() <= NBT_DOC_LIMIT,
        p <= doc@.len(),
    ensures
        r == elems_end(doc@, e, p as int, n as int, fuel as nat),
        r >= 0 ==> p <= r <= doc@.len(),
    decreases fuel,
{
    if fuel == 0 {
        return -1;
    }
    if n == 0 {
        return p as i64;
    }
    let q = payload_end_x(doc, e, p, fuel - 1);
    if q < 0 {
        -1
    } else {
        elems_end_x(doc, e, q as u64, n - 1, fuel - 1)
    }
}

/// Where a run of named compound fields starting at `p` ends, or -1.
fn fields_end_x(doc: &Vec<u8>, p: u64, fuel: u64) -> (r: i64)
    requires
        doc@.len() <= NBT_DOC_LIMIT,
        p <= doc@.len(),
    ensures
        r == fields_end(doc@, p as int, fuel as nat),
        r >= 0 ==> p <= r <= doc@.len(),
    decreases fuel,
{
    if fuel == 0 {
        return -1;
    }
    let n64: u64 = doc.len() as u64;
    if p + 1 > n64 {
        return -1;
    }
    let t: u8 = doc[p as usize];
    if t == 0 {
        return (p + 1) as i64;
    }
    if !(1 <= t && t <= 12) {
        return -1;
    }
    if p + 3 > n64 {
        return -1;
    }
    let q0: u64 = p + 3 + read_be16(doc, p + 1);
    if q0 > n64 {
        return -1;
    }
    let q = payload_end_x(doc, t, q0, fuel - 1);
    if q < 0 {
        -1
    } else {
        fields_end_x(doc, q as u64, fuel - 1)
    }
}

/// Turn a would-be end position into the walk's result.
fn bounded_end_x(doc: &Vec<u8>, e: u64) -> (r: i64)
    requires
        doc@.len() <= NBT_DOC_LIMIT,
        e <= 0x10_0000_0000u64,
    ensures
        r == bounded_end(doc@, e as int),
        r >= 0 ==> r == e <= doc@.len(),
{
    if e <= doc.len() as u64 {
        e as i64
    } else {
        -1
    }
}

/// The big-endian 16-bit value stored at `p`.
fn read_be16(doc: &Vec<u8>, p: u64) -> (r: u64)
    requires
        doc@.len() <= NBT_DOC_LIMIT,
        p + 2 <= doc@.len(),
    ensures
        r == be16(doc@, p as int),
{
    (doc[p as usize] as u64) * 0x100 + (doc[p as usize + 1] as u64)
}

/// The big-endian 32-bit value stored at `p`.
fn read_be32(doc: &Vec<u8>, p: u64) -> (r: u64)
    requires
        doc@.len() <= NBT_DOC_LIMIT,
        p + 4 <= doc@.len(),
    ensures
        r == be32(doc@, p as int),
{
    (doc[p as usize] as u64) * 0x1000000 + (doc[p as usize + 1] as u64) * 0x10000 + (doc[p as usize
        + 2] as u64) * 0x100 + (doc[p as usize + 3] as u64)
}

/// Decide whether a document is one the reader's walk traverses without
/// reaching its impossible cases.
pub fn check_nbt(doc: &Vec<u8>) -> (b: bool)
    ensures
        b == nbt_doc_ok(doc@),
{
    if doc.len() > NBT_DOC_LIMIT {
        return false;
    }
    if doc.len() < 3 {
        return false;
    }
    if doc[0] != 10 {
        return false;
    }
    let q0: u64 = 3 + read_be16(doc, 1);
    let n64: u64 = doc.len() as u64;
    if q0 > n64 {
        return false;
    }
    let fuel: u64 = 4 * n64 + 16;
    fields_end_x(doc, q0, fuel) >= 0
}

} // verus!
