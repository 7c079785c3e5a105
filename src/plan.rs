use crate::error::UploadError;
use crate::handle::MAX_PARTS;
use vstd::prelude::*;

verus! {

/// The byte range `[start, end)` of the source that part `part_number` carries.
#[derive(Debug, Clone, Copy, PartialEq, Eq, Structural)]
pub struct PartRange {
    pub part_number: u32,
    pub start: u64,
    pub end: u64,
}

/// Whether `parts` splits `len` bytes into parts of `part_size` bytes: parts
/// numbered 1, 2, 3, ..., none empty, each starting where the one before it
/// ended, the first at byte 0 and the last ending at `len`; every part but
/// the last holds exactly `part_size` bytes, the last at most that many.
pub open spec fn is_part_plan(parts: Seq<PartRange>, len: nat, part_size: nat) -> bool {
    &&& (parts.len() == 0 <==> len == 0)
    &&& parts.len() > 0 ==> parts[0].start == 0 && parts.last().end == len
    &&& forall|i: int|
        0 <= i < parts.len() ==> {
            &&& (#[trigger] parts[i]).part_number == i + 1
            &&& parts[i].start < parts[i].end
            &&& parts[i].end - parts[i].start <= part_size
            &&& i + 1 < parts.len() ==> parts[i].end - parts[i].start == part_size
                && parts[i].end == parts[i + 1].start
        }
}

/// Splits `content_length` bytes into consecutive parts of `part_size` bytes
/// (the last may be shorter), numbered from 1. A part size of zero is
/// refused, and so is an object that would need more than `MAX_PARTS` parts.
pub fn plan_parts(content_length: u64, part_size: u64) -> (r: Result<Vec<PartRange>, UploadError>)
    ensures
        part_size == 0 ==> r == Err::<Vec<PartRange>, UploadError>(UploadError::InvalidPartSize),
        part_size > 0 && content_length > MAX_PARTS * part_size ==> r == Err::<
            Vec<PartRange>,
            UploadError,
        >(UploadError::TooManyParts),
        part_size > 0 && content_length <= MAX_PARTS * part_size ==> {
            &&& r is Ok
            &&& is_part_plan(r->Ok_0@, content_length as nat, part_size as nat)
        },
{
    if part_size == 0 {
        return Err(UploadError::InvalidPartSize);
    }
    match part_size.checked_mul(MAX_PARTS as u64) {
        Some(most) => {
            if content_length > most {
                return Err(UploadError::TooManyParts);
            }
        },
        None => {},
    }
    let mut parts: Vec<PartRange> = Vec::new();
    let mut start: u64 = 0;
    let mut i: usize = 0;
    while start < content_length
        invariant
            part_size > 0,
            start as int == i * part_size,
            start <= content_length,
            parts@.len() == i,
            i <= MAX_PARTS,
            content_length <= MAX_PARTS * part_size,
            i == 0 <==> start == 0,
            i > 0 ==> parts@.last().end == start,
            parts@.len() > 0 ==> parts@[0].start == 0,
            forall|j: int|
                0 <= j < parts@.len() ==> {
                    &&& (#[trigger] parts@[j]).part_number == j + 1
                    &&& parts@[j].start < parts@[j].end
                    &&& parts@[j].end - parts@[j].start == part_size
                    &&& j + 1 < parts@.len() ==> parts@[j].end == parts@[j + 1].start
                },
        decreases content_length - start,
    {
        assert(i < MAX_PARTS) by (nonlinear_arith)
            requires
                start as int == i * part_size,
                start < content_length,
                content_length <= MAX_PARTS * part_size,
                part_size > 0,
        ;
        let last = content_length - start <= part_size;
        let end = if last {
            content_length
        } else {
            start + part_size
        };
        parts.push(PartRange { part_number: (i + 1) as u32, start, end });
        if last {
            assert((i + 1) * part_size <= MAX_PARTS * part_size) by (nonlinear_arith)
                requires
                    i + 1 <= MAX_PARTS,
                    part_size > 0,
            ;
            assert((i + 1) * part_size == i * part_size + part_size) by (nonlinear_arith);
            return Ok(parts);
        }
        proof {
            assert((i + 1) * part_size == i * part_size + part_size) by (nonlinear_arith);
        }
        start = end;
        i = i + 1;
    }
    proof {
        assert(i * part_size <= MAX_PARTS * part_size) by (nonlinear_arith)
            requires
                i <= MAX_PARTS,
                part_size > 0,
        ;
    }
    Ok(parts)
}

} // verus!
