//! How deeply the elements of a DER-encoded body are nested, as far as a
//! decoder goes into them.
//!
//! An SWZ container is a DER structure. Its decoder calls itself for the
//! body of every element that it takes for a container of further elements,
//! without counting how deep it has come, so a body has to be measured
//! before it is handed over.

use vstd::prelude::*;

verus! {

/// How many levels below the outermost one a body may be nested.
pub const MAX_NESTING: u32 = 64;

/// A tag number as far as it matters here: the number itself up to 255, and
/// 256 for every number above.
pub open spec fn capped(number: nat) -> nat {
    if number > 255 {
        256
    } else {
        number
    }
}

/// Reads a tag number in its long form, from `index` on and no further than
/// `end`: seven bits a byte, the high bit set on all bytes but the last.
/// Gives the number, capped, and how many bytes it took, or `None` where
/// the bytes run out first.
pub open spec fn long_tag(data: Seq<u8>, index: int, end: int, number: nat) -> Option<(nat, nat)>
    decreases end - index,
{
    if index < 0 || index >= end {
        None
    } else {
        let byte = data[index] as nat;
        let next = capped(number * 128 + byte % 128);
        if byte < 128 {
            Some((next, 1nat))
        } else {
            match long_tag(data, index + 1, end, next) {
                Some((last, bytes)) => Some((last, bytes + 1)),
                None => None,
            }
        }
    }
}

/// The big-endian number that `count` bytes from `index` on add to
/// `number`.
pub open spec fn big_endian(data: Seq<u8>, index: int, count: nat, number: nat) -> nat
    decreases count,
{
    if count == 0 {
        number
    } else {
        big_endian(data, index + 1, (count - 1) as nat, number * 256 + data[index] as nat)
    }
}

/// One element of an encoding: where its body starts and ends, and whether
/// a decoder goes into the body.
pub struct Element {
    pub body_start: int,
    pub body_end: int,
    pub descends: bool,
}

/// Reads the element that starts at `index`, no further than `end`, or
/// gives `None` where a decoder stops: the bytes run out within the tag or
/// the length, the length takes more bytes than a `usize` has, or the body
/// would reach beyond `end`.
///
/// The first byte holds the class in its two high bits, the mark of a
/// constructed element in the next, and the tag number in the low five,
/// where 31 stands for a number in the long form. The length is the next
/// byte itself below 128, else that byte less 128 says how many bytes of
/// big-endian length follow. A decoder goes into the body of every
/// constructed element outside the universal class, and into every
/// universal element with the number 16 (a sequence) or 17 (a set).
pub open spec fn element_at(data: Seq<u8>, index: int, end: int) -> Option<Element> {
    if index < 0 || index >= end {
        None
    } else {
        let first = data[index] as nat;
        let universal = first / 64 == 0;
        let constructed = (first / 32) % 2 == 1;
        let tag: Option<(nat, nat)> = if first % 32 == 31 {
            long_tag(data, index + 1, end, 0)
        } else {
            Some((first % 32, 0nat))
        };
        match tag {
            None => None,
            Some((number, tag_bytes)) => {
                let at = index + 1 + tag_bytes;
                if at >= end {
                    None
                } else {
                    let second = data[at] as nat;
                    let length_bytes: nat = if second < 128 {
                        0
                    } else {
                        (second - 128) as nat
                    };
                    let body_start = at + 1 + length_bytes;
                    if length_bytes > usize::BITS / 8 || body_start > end {
                        None
                    } else {
                        let length = if second < 128 {
                            second
                        } else {
                            big_endian(data, at + 1, length_bytes, 0)
                        };
                        if body_start + length > end {
                            None
                        } else {
                            Some(
                                Element {
                                    body_start,
                                    body_end: body_start + length,
                                    descends: if universal {
                                        number == 16 || number == 17
                                    } else {
                                        constructed
                                    },
                                },
                            )
                        }
                    }
                }
            },
        }
    }
}

/// Whether a decoder that reads the elements from `index` to `end`, one
/// after the other, goes at most `levels` levels down from where it is.
///
/// The walk goes on past an element whose content a decoder would reject,
/// where the decoder would stop: it may count levels that the decoder never
/// reaches, and never misses one that it does.
pub open spec fn nesting_fits(data: Seq<u8>, index: int, end: int, levels: nat) -> bool
    decreases levels, end - index,
{
    match element_at(data, index, end) {
        None => true,
        Some(element) => {
            &&& element.descends ==> levels > 0 && nesting_fits(
                data,
                element.body_start,
                element.body_end,
                (levels - 1) as nat,
            )
            &&& nesting_fits(data, element.body_end, end, levels)
        },
    }
}

/// Whether a body is nested no deeper than `MAX_NESTING` levels below its
/// outermost elements.
pub open spec fn within_nesting(data: Seq<u8>) -> bool {
    nesting_fits(data, 0, data.len() as int, MAX_NESTING as nat)
}

/// A big-endian number is at least what it started from.
proof fn lemma_big_endian_at_least(data: Seq<u8>, index: int, count: nat, number: nat)
    ensures
        big_endian(data, index, count, number) >= number,
    decreases count,
{
    if count > 0 {
        lemma_big_endian_at_least(
            data,
            index + 1,
            (count - 1) as nat,
            number * 256 + data[index] as nat,
        );
    }
}

/// Executable form of `long_tag`, started at zero.
fn read_long_tag(data: &[u8], start: usize, end: usize) -> (r: Option<(u16, usize)>)
    requires
        start <= end <= data.len(),
    ensures
        match long_tag(data@, start as int, end as int, 0) {
            Some((number, bytes)) => r == Some((number as u16, bytes as usize)) && bytes <= end
                - start && number <= 256,
            None => r.is_none(),
        },
{
    let mut index: usize = start;
    let mut number: u16 = 0;
    loop
        invariant
            start <= index <= end <= data.len(),
            number <= 256,
            long_tag(data@, start as int, end as int, 0) == (match long_tag(
                data@,
                index as int,
                end as int,
                number as nat,
            ) {
                Some((last, bytes)) => Some((last, bytes + (index - start) as nat)),
                None => None,
            }),
        decreases end - index,
    {
        if index >= end {
            return None;
        }
        let byte = data[index];
        let sum: u32 = number as u32 * 128 + (byte % 128) as u32;
        let next: u16 = if sum > 255 {
            256
        } else {
            sum as u16
        };
        if byte < 128 {
            return Some((next, index - start + 1));
        }
        index += 1;
        number = next;
    }
}

/// Executable form of `big_endian`, started at zero, for a number that is
/// of use only up to `limit`: `None` stands for any number above.
fn read_big_endian(data: &[u8], start: usize, count: usize, limit: usize) -> (r: Option<usize>)
    requires
        start + count <= data.len(),
    ensures
        match r {
            Some(number) => number == big_endian(data@, start as int, count as nat, 0) && number
                <= limit,
            None => big_endian(data@, start as int, count as nat, 0) > limit,
        },
{
    let mut k: usize = 0;
    let mut number: usize = 0;
    while k < count
        invariant
            k <= count,
            start + count <= data.len(),
            number <= limit,
            big_endian(data@, start as int, count as nat, 0) == big_endian(
                data@,
                start + k,
                (count - k) as nat,
                number as nat,
            ),
        decreases count - k,
    {
        let wide: u128 = number as u128 * 256 + data[start + k] as u128;
        if wide > limit as u128 {
            proof {
                lemma_big_endian_at_least(
                    data@,
                    start + k + 1,
                    (count - k - 1) as nat,
                    wide as nat,
                );
            }
            return None;
        }
        number = wide as usize;
        k += 1;
    }
    Some(number)
}

/// Executable form of `element_at`: the start and the end of the body, and
/// whether a decoder goes into it.
fn read_element(data: &[u8], index: usize, end: usize) -> (r: Option<(usize, usize, bool)>)
    requires
        index <= end <= data.len(),
    ensures
        match element_at(data@, index as int, end as int) {
            Some(element) => {
                &&& r == Some(
                    (element.body_start as usize, element.body_end as usize, element.descends),
                )
                &&& index < element.body_start <= element.body_end <= end
            },
            None => r.is_none(),
        },
{
    if index >= end {
        return None;
    }
    let first = data[index];
    let universal = first / 64 == 0;
    let constructed = (first / 32) % 2 == 1;
    let (number, tag_bytes): (u16, usize) = if first % 32 == 31 {
        match read_long_tag(data, index + 1, end) {
            Some(tag) => tag,
            None => {
                return None;
            },
        }
    } else {
        ((first % 32) as u16, 0)
    };
    let at = index + 1 + tag_bytes;
    if at >= end {
        return None;
    }
    let second = data[at];
    let length_bytes: usize = if second < 128 {
        0
    } else {
        (second - 128) as usize
    };
    if length_bytes > (usize::BITS / 8) as usize || length_bytes > end - at - 1 {
        return None;
    }
    let body_start = at + 1 + length_bytes;
    let length: usize = if second < 128 {
        second as usize
    } else {
        match read_big_endian(data, at + 1, length_bytes, end) {
            Some(length) => length,
            None => {
                return None;
            },
        }
    };
    if length > end - body_start {
        return None;
    }
    let descends = if universal {
        number == 16 || number == 17
    } else {
        constructed
    };
    Some((body_start, body_start + length, descends))
}

/// Executable form of `nesting_fits`.
fn fits(data: &[u8], start: usize, end: usize, levels: u32) -> (r: bool)
    requires
        start <= end <= data.len(),
    ensures
        r == nesting_fits(data@, start as int, end as int, levels as nat),
    decreases levels,
{
    let mut index: usize = start;
    loop
        invariant
            start <= index <= end <= data.len(),
            nesting_fits(data@, start as int, end as int, levels as nat) == nesting_fits(
                data@,
                index as int,
                end as int,
                levels as nat,
            ),
        decreases end - index,
    {
        match read_element(data, index, end) {
            None => {
                return true;
            },
            Some((body_start, body_end, descends)) => {
                if descends {
                    if levels == 0 {
                        return false;
                    }
                    if !fits(data, body_start, body_end, levels - 1) {
                        return false;
                    }
                }
                index = body_end;
            },
        }
    }
}

/// Whether a body is nested no deeper than `MAX_NESTING` levels below its
/// outermost elements.
pub fn is_within_nesting(data: &[u8]) -> (r: bool)
    ensures
        r == within_nesting(data@),
{
    fits(data, 0, data.len(), MAX_NESTING)
}

} // verus!
