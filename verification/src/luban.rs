//! Decoder for the compiled binary table bundle.
//!
//! Each table arrives as one byte blob: a record count followed by that many
//! records, each record its fields in schema order.  Integers use the
//! length-prefixed variable-width encoding of the byte-buffer reader that
//! the data pipeline links against (one to five bytes, chosen by the first
//! byte); strings are a length followed by UTF-8 bytes; lists are a count
//! followed by their elements; enumerations are their integer codes.  Any
//! structural mismatch — truncated data, an unused enumeration code, invalid
//! UTF-8, trailing bytes — is a hard failure for the whole blob: the caller
//! treats a failed load as no data available.

use vstd::prelude::*;
use crate::bean::{Etip, ERaceType, tip_from_code_spec, race_from_code_spec, tip_from_code,
    race_from_code};

verus! {

/// How many bytes the variable-width encoding uses, by its first byte.
pub open spec fn uint_width(h: u8) -> int {
    if h < 0x80 {
        1
    } else if h < 0xc0 {
        2
    } else if h < 0xe0 {
        3
    } else if h < 0xf0 {
        4
    } else {
        5
    }
}

/// The unsigned value encoded at `i`, assuming its bytes are present.
pub open spec fn uint_val_at(b: Seq<u8>, i: int) -> u32 {
    let h = b[i];
    if h < 0x80 {
        h as u32
    } else if h < 0xc0 {
        (((h & 0x3f) as u32) << 8) | (b[i + 1] as u32)
    } else if h < 0xe0 {
        (((h & 0x1f) as u32) << 16) | ((b[i + 1] as u32) << 8) | (b[i + 2] as u32)
    } else if h < 0xf0 {
        (((h & 0x0f) as u32) << 24) | ((b[i + 1] as u32) << 16) | ((b[i + 2] as u32) << 8) | (b[i
            + 3] as u32)
    } else {
        ((b[i + 1] as u32) << 24) | ((b[i + 2] as u32) << 16) | ((b[i + 3] as u32) << 8) | (b[i
            + 4] as u32)
    }
}

/// Read an unsigned integer at `i`.
pub open spec fn bd_uint(b: Seq<u8>, i: int) -> Option<(u32, int)> {
    if 0 <= i && i < b.len() && i + uint_width(b[i]) <= b.len() {
        Some((uint_val_at(b, i), i + uint_width(b[i])))
    } else {
        None
    }
}

/// Read a signed integer at `i`: the unsigned value reinterpreted.
pub open spec fn bd_int(b: Seq<u8>, i: int) -> Option<(i32, int)> {
    match bd_uint(b, i) {
        Some((v, j)) => Some((v as i32, j)),
        None => None,
    }
}

/// Read a boolean at `i`: one byte, nonzero meaning true.
pub open spec fn bd_bool(b: Seq<u8>, i: int) -> Option<(bool, int)> {
    if 0 <= i && i < b.len() {
        Some((b[i] != 0, i + 1))
    } else {
        None
    }
}

/// Read a string at `i`: a length, then that many UTF-8 bytes.
pub open spec fn bd_str(b: Seq<u8>, i: int) -> Option<(Seq<char>, int)> {
    match bd_uint(b, i) {
        Some((n, j)) => if j + n <= b.len() && vstd::utf8::valid_utf8(b.subrange(j, j + n)) {
            Some((vstd::utf8::decode_utf8(b.subrange(j, j + n)), j + n))
        } else {
            None
        },
        None => None,
    }
}

/// Read `n` signed integers at `i`.
pub open spec fn bd_ints(b: Seq<u8>, i: int, n: nat) -> Option<(Seq<i32>, int)>
    decreases n,
{
    if n == 0 {
        Some((Seq::empty(), i))
    } else {
        match bd_int(b, i) {
            Some((v, j)) => match bd_ints(b, j, (n - 1) as nat) {
                Some((rest, e)) => Some((seq![v] + rest, e)),
                None => None,
            },
            None => None,
        }
    }
}

/// Read a list of signed integers at `i`: a count, then the elements.
pub open spec fn bd_int_list(b: Seq<u8>, i: int) -> Option<(Seq<i32>, int)> {
    match bd_uint(b, i) {
        Some((n, j)) => bd_ints(b, j, n as nat),
        None => None,
    }
}

/// Read an unsigned integer at `i`, exactly as [`bd_uint`] does.
pub fn read_uint(b: &Vec<u8>, i: usize) -> (r: Option<(u32, usize)>)
    ensures
        match r {
            Some((v, j)) => bd_uint(b@, i as int) == Some((v, j as int)) && i < j <= b@.len(),
            None => bd_uint(b@, i as int) is None,
        },
{
    if i >= b.len() {
        return None;
    }
    let h = b[i];
    if h < 0x80 {
        Some((h as u32, i + 1))
    } else if h < 0xc0 {
        if b.len() - i < 2 {
            return None;
        }
        Some(((((h & 0x3f) as u32) << 8) | (b[i + 1] as u32), i + 2))
    } else if h < 0xe0 {
        if b.len() - i < 3 {
            return None;
        }
        Some(((((h & 0x1f) as u32) << 16) | ((b[i + 1] as u32) << 8) | (b[i + 2] as u32), i + 3))
    } else if h < 0xf0 {
        if b.len() - i < 4 {
            return None;
        }
        Some(
            (
                (((h & 0x0f) as u32) << 24) | ((b[i + 1] as u32) << 16) | ((b[i + 2] as u32) << 8)
                    | (b[i + 3] as u32),
                i + 4,
            ),
        )
    } else {
        if b.len() - i < 5 {
            return None;
        }
        Some(
            (
                ((b[i + 1] as u32) << 24) | ((b[i + 2] as u32) << 16) | ((b[i + 3] as u32) << 8) | (
                b[i + 4] as u32),
                i + 5,
            ),
        )
    }
}

/// Read a signed integer at `i`, exactly as [`bd_int`] does.
pub fn read_int(b: &Vec<u8>, i: usize) -> (r: Option<(i32, usize)>)
    ensures
        match r {
            Some((v, j)) => bd_int(b@, i as int) == Some((v, j as int)) && i < j <= b@.len(),
            None => bd_int(b@, i as int) is None,
        },
{
    match read_uint(b, i) {
        Some((v, j)) => Some((v as i32, j)),
        None => None,
    }
}

/// Read a boolean at `i`, exactly as [`bd_bool`] does.
pub fn read_bool(b: &Vec<u8>, i: usize) -> (r: Option<(bool, usize)>)
    ensures
        match r {
            Some((v, j)) => bd_bool(b@, i as int) == Some((v, j as int)) && i < j <= b@.len(),
            None => bd_bool(b@, i as int) is None,
        },
{
    if i < b.len() {
        Some((b[i] != 0, i + 1))
    } else {
        None
    }
}

/// Read a string at `i`, exactly as [`bd_str`] does.
pub fn read_string(b: &Vec<u8>, i: usize) -> (r: Option<(String, usize)>)
    ensures
        match r {
            Some((v, j)) => bd_str(b@, i as int) == Some((v@, j as int)) && i < j <= b@.len(),
            None => bd_str(b@, i as int) is None,
        },
{
    let (n, j) = match read_uint(b, i) {
        Some(x) => x,
        None => {
            return None;
        },
    };
    if n as usize > b.len() - j {
        return None;
    }
    let n = n as usize;
    let mut bytes: Vec<u8> = Vec::new();
    let mut k: usize = 0;
    while k < n
        invariant
            0 <= k <= n,
            j + n <= b@.len(),
            j + n <= usize::MAX,
            bytes@ == b@.subrange(j as int, j + k as int),
        decreases n - k,
    {
        bytes.push(b[j + k]);
        proof {
            assert(b@.subrange(j as int, j + k + 1 as int) =~= b@.subrange(
                j as int,
                j + k as int,
            ).push(b@[j + k]));
        }
        k += 1;
    }
    match crate::text::utf8_string(bytes.as_slice()) {
        Some(s) => Some((s, j + n)),
        None => None,
    }
}

/// Read `n` signed integers at `i`, exactly as [`bd_ints`] does.
pub fn read_ints(b: &Vec<u8>, i: usize, n: u32) -> (r: Option<(Vec<i32>, usize)>)
    requires
        i <= b@.len(),
    ensures
        match r {
            Some((v, j)) => bd_ints(b@, i as int, n as nat) == Some((v@, j as int)) && i <= j
                <= b@.len(),
            None => bd_ints(b@, i as int, n as nat) is None,
        },
{
    let mut acc: Vec<i32> = Vec::new();
    let mut j: usize = i;
    let mut rem: u32 = n;
    while rem > 0
        invariant
            i <= j <= b@.len(),
            bd_ints(b@, i as int, n as nat) == (match bd_ints(b@, j as int, rem as nat) {
                Some((rest, e)) => Some((acc@ + rest, e)),
                None => None,
            }),
        decreases rem,
    {
        let ghost old_acc = acc@;
        match read_int(b, j) {
            Some((v, j2)) => {
                acc.push(v);
                proof {
                    if bd_ints(b@, j2 as int, (rem - 1) as nat) is Some {
                        let (rest, e) = bd_ints(b@, j2 as int, (rem - 1) as nat)->Some_0;
                        assert(old_acc + (seq![v] + rest) =~= acc@ + rest);
                    }
                }
                j = j2;
                rem = rem - 1;
            },
            None => {
                return None;
            },
        }
    }
    proof {
        assert(bd_ints(b@, j as int, 0) == Some((Seq::<i32>::empty(), j as int)));
        assert(acc@ + Seq::<i32>::empty() =~= acc@);
    }
    Some((acc, j))
}

/// Read a list of signed integers at `i`, exactly as [`bd_int_list`] does.
pub fn read_int_list(b: &Vec<u8>, i: usize) -> (r: Option<(Vec<i32>, usize)>)
    ensures
        match r {
            Some((v, j)) => bd_int_list(b@, i as int) == Some((v@, j as int)) && i <= j
                <= b@.len(),
            None => bd_int_list(b@, i as int) is None,
        },
{
    match read_uint(b, i) {
        Some((n, j)) => read_ints(b, j, n),
        None => None,
    }
}


/// Read a description tip at `i`: its integer code.
pub open spec fn bd_tip(b: Seq<u8>, i: int) -> Option<(Etip, int)> {
    match bd_int(b, i) {
        Some((c, j)) => match tip_from_code_spec(c) {
            Some(t) => Some((t, j)),
            None => None,
        },
        None => None,
    }
}

/// Read a race at `i`: its integer code.
pub open spec fn bd_race(b: Seq<u8>, i: int) -> Option<(ERaceType, int)> {
    match bd_int(b, i) {
        Some((c, j)) => match race_from_code_spec(c) {
            Some(t) => Some((t, j)),
            None => None,
        },
        None => None,
    }
}

/// Read an attribute pair at `i`: its id, then its value.
pub open spec fn bd_attr(b: Seq<u8>, i: int) -> Option<(crate::bean::ElementAttribute, int)> {
    match bd_int(b, i) {
        Some((id, j)) => match bd_int(b, j) {
            Some((value, k)) => Some((crate::bean::ElementAttribute { id: id, value: value }, k)),
            None => None,
        },
        None => None,
    }
}

/// Read a trigger-value group at `i`: a list of integers.
pub open spec fn bd_tval(b: Seq<u8>, i: int) -> Option<(crate::bean::TriggerValueV, int)> {
    match bd_int_list(b, i) {
        Some((vs, j)) => Some((crate::bean::TriggerValueV { value: vs }, j)),
        None => None,
    }
}

/// Read `n` description tips at `i`.
pub open spec fn bd_tips(b: Seq<u8>, i: int, n: nat) -> Option<(Seq<Etip>, int)>
    decreases n,
{
    if n == 0 {
        Some((Seq::empty(), i))
    } else {
        match bd_tip(b, i) {
            Some((v, j)) => match bd_tips(b, j, (n - 1) as nat) {
                Some((rest, e)) => Some((seq![v] + rest, e)),
                None => None,
            },
            None => None,
        }
    }
}

/// Read a list of description tips at `i`: a count, then the elements.
pub open spec fn bd_tip_list(b: Seq<u8>, i: int) -> Option<(Seq<Etip>, int)> {
    match bd_uint(b, i) {
        Some((n, j)) => bd_tips(b, j, n as nat),
        None => None,
    }
}

/// Read `n` attribute pairs at `i`.
pub open spec fn bd_attrs(b: Seq<u8>, i: int, n: nat) -> Option<
    (Seq<crate::bean::ElementAttribute>, int),
>
    decreases n,
{
    if n == 0 {
        Some((Seq::empty(), i))
    } else {
        match bd_attr(b, i) {
            Some((v, j)) => match bd_attrs(b, j, (n - 1) as nat) {
                Some((rest, e)) => Some((seq![v] + rest, e)),
                None => None,
            },
            None => None,
        }
    }
}

/// Read a list of attribute pairs at `i`: a count, then the elements.
pub open spec fn bd_attr_list(b: Seq<u8>, i: int) -> Option<
    (Seq<crate::bean::ElementAttribute>, int),
> {
    match bd_uint(b, i) {
        Some((n, j)) => bd_attrs(b, j, n as nat),
        None => None,
    }
}

/// Read `n` trigger-value groups at `i`.
pub open spec fn bd_tvals(b: Seq<u8>, i: int, n: nat) -> Option<
    (Seq<crate::bean::TriggerValueV>, int),
>
    decreases n,
{
    if n == 0 {
        Some((Seq::empty(), i))
    } else {
        match bd_tval(b, i) {
            Some((v, j)) => match bd_tvals(b, j, (n - 1) as nat) {
                Some((rest, e)) => Some((seq![v] + rest, e)),
                None => None,
            },
            None => None,
        }
    }
}

/// Read a list of trigger-value groups at `i`: a count, then the elements.
pub open spec fn bd_tval_list(b: Seq<u8>, i: int) -> Option<
    (Seq<crate::bean::TriggerValueV>, int),
> {
    match bd_uint(b, i) {
        Some((n, j)) => bd_tvals(b, j, n as nat),
        None => None,
    }
}

/// Read a description tip at `i`, exactly as [`bd_tip`] does.
pub fn read_tip(b: &Vec<u8>, i: usize) -> (r: Option<(Etip, usize)>)
    ensures
        match r {
            Some((v, j)) => bd_tip(b@, i as int) == Some((v, j as int)) && i < j <= b@.len(),
            None => bd_tip(b@, i as int) is None,
        },
{
    match read_int(b, i) {
        Some((c, j)) => match tip_from_code(c) {
            Some(t) => Some((t, j)),
            None => None,
        },
        None => None,
    }
}

/// Read a race at `i`, exactly as [`bd_race`] does.
pub fn read_race(b: &Vec<u8>, i: usize) -> (r: Option<(ERaceType, usize)>)
    ensures
        match r {
            Some((v, j)) => bd_race(b@, i as int) == Some((v, j as int)) && i < j <= b@.len(),
            None => bd_race(b@, i as int) is None,
        },
{
    match read_int(b, i) {
        Some((c, j)) => match race_from_code(c) {
            Some(t) => Some((t, j)),
            None => None,
        },
        None => None,
    }
}

/// Read an attribute pair at `i`, exactly as [`bd_attr`] does.
pub fn read_attr(b: &Vec<u8>, i: usize) -> (r: Option<(crate::bean::ElementAttribute, usize)>)
    ensures
        match r {
            Some((v, j)) => bd_attr(b@, i as int) == Some((v, j as int)) && i < j <= b@.len(),
            None => bd_attr(b@, i as int) is None,
        },
{
    match read_int(b, i) {
        Some((id, j)) => match read_int(b, j) {
            Some((value, k)) => Some((crate::bean::ElementAttribute { id, value }, k)),
            None => None,
        },
        None => None,
    }
}

/// Read a trigger-value group at `i`, exactly as [`bd_tval`] does.
pub fn read_tval(b: &Vec<u8>, i: usize) -> (r: Option<(crate::bean::ElementTriggerValue, usize)>)
    ensures
        match r {
            Some((v, j)) => bd_tval(b@, i as int) == Some((v@, j as int)) && i <= j <= b@.len(),
            None => bd_tval(b@, i as int) is None,
        },
{
    match read_int_list(b, i) {
        Some((vs, j)) => Some((crate::bean::ElementTriggerValue { value: vs }, j)),
        None => None,
    }
}

/// Read a list of description tips at `i`, exactly as [`bd_tip_list`] does.
pub fn read_tip_list(b: &Vec<u8>, i: usize) -> (r: Option<(Vec<Etip>, usize)>)
    ensures
        match r {
            Some((v, j)) => bd_tip_list(b@, i as int) == Some((v@, j as int)) && i <= j
                <= b@.len(),
            None => bd_tip_list(b@, i as int) is None,
        },
{
    let (n, j0) = match read_uint(b, i) {
        Some(x) => x,
        None => {
            return None;
        },
    };
    let mut acc: Vec<Etip> = Vec::new();
    let mut j: usize = j0;
    let mut rem: u32 = n;
    while rem > 0
        invariant
            j <= b@.len(),
            i <= j,
            bd_uint(b@, i as int) == Some((n, j0 as int)),
            bd_tips(b@, j0 as int, n as nat) == (match bd_tips(b@, j as int, rem as nat) {
                Some((rest, e)) => Some((acc@ + rest, e)),
                None => None,
            }),
        decreases rem,
    {
        let ghost old_acc = acc@;
        match read_tip(b, j) {
            Some((v, j2)) => {
                acc.push(v);
                proof {
                    if bd_tips(b@, j2 as int, (rem - 1) as nat) is Some {
                        let (rest, e) = bd_tips(b@, j2 as int, (rem - 1) as nat)->Some_0;
                        assert(old_acc + (seq![v] + rest) =~= acc@ + rest);
                    }
                }
                j = j2;
                rem = rem - 1;
            },
            None => {
                return None;
            },
        }
    }
    proof {
        assert(bd_tips(b@, j as int, 0) == Some((Seq::<Etip>::empty(), j as int)));
        assert(acc@ + Seq::<Etip>::empty() =~= acc@);
    }
    Some((acc, j))
}

/// Read a list of attribute pairs at `i`, exactly as [`bd_attr_list`] does.
pub fn read_attr_list(b: &Vec<u8>, i: usize) -> (r: Option<
    (Vec<crate::bean::ElementAttribute>, usize),
>)
    ensures
        match r {
            Some((v, j)) => bd_attr_list(b@, i as int) == Some((v@, j as int)) && i <= j
                <= b@.len(),
            None => bd_attr_list(b@, i as int) is None,
        },
{
    let (n, j0) = match read_uint(b, i) {
        Some(x) => x,
        None => {
            return None;
        },
    };
    let mut acc: Vec<crate::bean::ElementAttribute> = Vec::new();
    let mut j: usize = j0;
    let mut rem: u32 = n;
    while rem > 0
        invariant
            j <= b@.len(),
            i <= j,
            bd_uint(b@, i as int) == Some((n, j0 as int)),
            bd_attrs(b@, j0 as int, n as nat) == (match bd_attrs(b@, j as int, rem as nat) {
                Some((rest, e)) => Some((acc@ + rest, e)),
                None => None,
            }),
        decreases rem,
    {
        let ghost old_acc = acc@;
        match read_attr(b, j) {
            Some((v, j2)) => {
                acc.push(v);
                proof {
                    if bd_attrs(b@, j2 as int, (rem - 1) as nat) is Some {
                        let (rest, e) = bd_attrs(b@, j2 as int, (rem - 1) as nat)->Some_0;
                        assert(old_acc + (seq![v] + rest) =~= acc@ + rest);
                    }
                }
                j = j2;
                rem = rem - 1;
            },
            None => {
                return None;
            },
        }
    }
    proof {
        assert(bd_attrs(b@, j as int, 0) == Some(
            (Seq::<crate::bean::ElementAttribute>::empty(), j as int),
        ));
        assert(acc@ + Seq::<crate::bean::ElementAttribute>::empty() =~= acc@);
    }
    Some((acc, j))
}

/// Read a list of trigger-value groups at `i`, exactly as [`bd_tval_list`]
/// does.
pub fn read_tval_list(b: &Vec<u8>, i: usize) -> (r: Option<
    (Vec<crate::bean::ElementTriggerValue>, usize),
>)
    ensures
        match r {
            Some((v, j)) => bd_tval_list(b@, i as int) == Some(
                (crate::codec::views_of(v@), j as int),
            ) && i <= j <= b@.len(),
            None => bd_tval_list(b@, i as int) is None,
        },
{
    let (n, j0) = match read_uint(b, i) {
        Some(x) => x,
        None => {
            return None;
        },
    };
    let mut acc: Vec<crate::bean::ElementTriggerValue> = Vec::new();
    let mut j: usize = j0;
    let mut rem: u32 = n;
    proof {
        assert(crate::codec::views_of(acc@) =~= Seq::<crate::bean::TriggerValueV>::empty());
    }
    while rem > 0
        invariant
            j <= b@.len(),
            i <= j,
            bd_uint(b@, i as int) == Some((n, j0 as int)),
            bd_tvals(b@, j0 as int, n as nat) == (match bd_tvals(b@, j as int, rem as nat) {
                Some((rest, e)) => Some((crate::codec::views_of(acc@) + rest, e)),
                None => None,
            }),
        decreases rem,
    {
        let ghost old_acc = acc@;
        match read_tval(b, j) {
            Some((v, j2)) => {
                acc.push(v);
                proof {
                    assert(crate::codec::views_of(acc@) =~= crate::codec::views_of(
                        old_acc,
                    ).push(v@));
                    if bd_tvals(b@, j2 as int, (rem - 1) as nat) is Some {
                        let (rest, e) = bd_tvals(b@, j2 as int, (rem - 1) as nat)->Some_0;
                        assert(crate::codec::views_of(old_acc) + (seq![v@] + rest)
                            =~= crate::codec::views_of(acc@) + rest);
                    }
                }
                j = j2;
                rem = rem - 1;
            },
            None => {
                return None;
            },
        }
    }
    proof {
        assert(bd_tvals(b@, j as int, 0) == Some(
            (Seq::<crate::bean::TriggerValueV>::empty(), j as int),
        ));
        assert(crate::codec::views_of(acc@) + Seq::<crate::bean::TriggerValueV>::empty()
            =~= crate::codec::views_of(acc@));
    }
    Some((acc, j))
}


/// Read one relics row at `i`: its fields in schema order.
pub open spec fn bd_relics_row(b: Seq<u8>, i: int) -> Option<(crate::bean::RelicsV, int)> {
    match bd_int(b, i) {
        None => None,
        Some((x1, p1)) =>
        match bd_int(b, p1) {
            None => None,
            Some((x2, p2)) =>
            match bd_int(b, p2) {
                None => None,
                Some((x3, p3)) =>
                match bd_int(b, p3) {
                    None => None,
                    Some((x4, p4)) =>
                    match bd_int(b, p4) {
                        None => None,
                        Some((x5, p5)) =>
                        match bd_str(b, p5) {
                            None => None,
                            Some((x6, p6)) =>
                            match bd_str(b, p6) {
                                None => None,
                                Some((x7, p7)) =>
                                match bd_int(b, p7) {
                                    None => None,
                                    Some((x8, p8)) =>
                                    match bd_int(b, p8) {
                                        None => None,
                                        Some((x9, p9)) =>
                                        match bd_int(b, p9) {
                                            None => None,
                                            Some((x10, p10)) =>
                                            match bd_tip_list(b, p10) {
                                                None => None,
                                                Some((x11, p11)) =>
                                                match bd_int(b, p11) {
                                                    None => None,
                                                    Some((x12, p12)) =>
                                                    match bd_int_list(b, p12) {
                                                        None => None,
                                                        Some((x13, p13)) =>
                                                        match bd_int(b, p13) {
                                                            None => None,
                                                            Some((x14, p14)) =>
                                                            match bd_int_list(b, p14) {
                                                                None => None,
                                                                Some((x15, p15)) =>
                                                                match bd_int(b, p15) {
                                                                    None => None,
                                                                    Some((x16, p16)) =>
                                                                    match bd_int(b, p16) {
                                                                        None => None,
                                                                        Some((x17, p17)) =>
                                                                        match bd_int_list(b, p17) {
                                                                            None => None,
                                                                            Some((x18, p18)) =>
                                                                            match bd_int_list(b, p18) {
                                                                                None => None,
                                                                                Some((x19, p19)) =>
                                                                                Some((crate::bean::RelicsV { id: x1, enable: x2, lock: x3, role: x4, tutorial: x5, icon: x6, small_icon: x7, name_id: x8, desc_id: x9, other_desc_id: x10, desc_tip: x11, rare: x12, passive: x13, trigger_type: x14, trigger_param: x15, event_tip: x16, trigger_action: x17, trigger_value: x18, other_value: x19 }, p19)),
                                                                            },
                                                                        },
                                                                    },
                                                                },
                                                            },
                                                        },
                                                    },
                                                },
                                            },
                                        },
                                    },
                                },
                            },
                        },
                    },
                },
            },
        },
    }
}

/// Read one relics row at `i`, exactly as [`bd_relics_row`] does.
#[verifier::spinoff_prover]
#[verifier::rlimit(100)]
pub fn read_relics_row(b: &Vec<u8>, i: usize) -> (r: Option<(crate::bean::Relics, usize)>)
    ensures
        match r {
            Some((v, j)) => bd_relics_row(b@, i as int) == Some((v@, j as int)) && i <= j
                <= b@.len(),
            None => bd_relics_row(b@, i as int) is None,
        },
{
        let (x1, p1) = match read_int(b, i) {
            None => {
                return None;
            },
            Some(x) => x,
        };
        let (x2, p2) = match read_int(b, p1) {
            None => {
                return None;
            },
            Some(x) => x,
        };
        let (x3, p3) = match read_int(b, p2) {
            None => {
                return None;
            },
            Some(x) => x,
        };
        let (x4, p4) = match read_int(b, p3) {
            None => {
                return None;
            },
            Some(x) => x,
        };
        let (x5, p5) = match read_int(b, p4) {
            None => {
                return None;
            },
            Some(x) => x,
        };
        let (x6, p6) = match read_string(b, p5) {
            None => {
                return None;
            },
            Some(x) => x,
        };
        let (x7, p7) = match read_string(b, p6) {
            None => {
                return None;
            },
            Some(x) => x,
        };
        let (x8, p8) = match read_int(b, p7) {
            None => {
                return None;
            },
            Some(x) => x,
        };
        let (x9, p9) = match read_int(b, p8) {
            None => {
                return None;
            },
            Some(x) => x,
        };
        let (x10, p10) = match read_int(b, p9) {
            None => {
                return None;
            },
            Some(x) => x,
        };
        let (x11, p11) = match read_tip_list(b, p10) {
            None => {
                return None;
            },
            Some(x) => x,
        };
        let (x12, p12) = match read_int(b, p11) {
            None => {
                return None;
            },
            Some(x) => x,
        };
        let (x13, p13) = match read_int_list(b, p12) {
            None => {
                return None;
            },
            Some(x) => x,
        };
        let (x14, p14) = match read_int(b, p13) {
            None => {
                return None;
            },
            Some(x) => x,
        };
        let (x15, p15) = match read_int_list(b, p14) {
            None => {
                return None;
            },
            Some(x) => x,
        };
        let (x16, p16) = match read_int(b, p15) {
            None => {
                return None;
            },
            Some(x) => x,
        };
        let (x17, p17) = match read_int(b, p16) {
            None => {
                return None;
            },
            Some(x) => x,
        };
        let (x18, p18) = match read_int_list(b, p17) {
            None => {
                return None;
            },
            Some(x) => x,
        };
        let (x19, p19) = match read_int_list(b, p18) {
            None => {
                return None;
            },
            Some(x) => x,
        };
        let rec = crate::bean::Relics { id: x1, enable: x2, lock: x3, role: x4, tutorial: x5, icon: x6, small_icon: x7, name_id: x8, desc_id: x9, other_desc_id: x10, desc_tip: x11, rare: x12, passive: x13, trigger_type: x14, trigger_param: x15, event_tip: x16, trigger_action: x17, trigger_value: x18, other_value: x19 };
        proof {
            assert(bd_relics_row(b@, i as int) == Some((rec@, p19 as int)));
        }
        Some((rec, p19))
}

/// Read `n` relics rows at `i`.
pub open spec fn bd_relics_rows(b: Seq<u8>, i: int, n: nat) -> Option<(Seq<crate::bean::RelicsV>, int)>
    decreases n,
{
    if n == 0 {
        Some((Seq::empty(), i))
    } else {
        match bd_relics_row(b, i) {
            Some((v, j)) => match bd_relics_rows(b, j, (n - 1) as nat) {
                Some((rest, e)) => Some((seq![v] + rest, e)),
                None => None,
            },
            None => None,
        }
    }
}

/// The relics rows of a whole blob: a count, the rows, nothing after.
pub open spec fn bd_relics_table(b: Seq<u8>) -> Option<Seq<crate::bean::RelicsV>> {
    match bd_uint(b, 0) {
        Some((n, j)) => match bd_relics_rows(b, j, n as nat) {
            Some((rows, e)) => if e == b.len() {
                Some(rows)
            } else {
                None
            },
            None => None,
        },
        None => None,
    }
}

/// Decode a whole relics blob, exactly as [`bd_relics_table`] does.
pub fn read_relics_table(b: &Vec<u8>) -> (r: Option<Vec<crate::bean::Relics>>)
    ensures
        match r {
            Some(v) => bd_relics_table(b@) == Some(crate::codec::views_of(v@)),
            None => bd_relics_table(b@) is None,
        },
{
    let (n, j0) = match read_uint(b, 0) {
        Some(x) => x,
        None => {
            return None;
        },
    };
    let mut acc: Vec<crate::bean::Relics> = Vec::new();
    let mut j: usize = j0;
    let mut rem: u32 = n;
    proof {
        assert(crate::codec::views_of(acc@) =~= Seq::<crate::bean::RelicsV>::empty());
    }
    while rem > 0
        invariant
            j <= b@.len(),
            bd_uint(b@, 0) == Some((n, j0 as int)),
            bd_relics_rows(b@, j0 as int, n as nat) == (match bd_relics_rows(b@, j as int, rem as nat) {
                Some((rest, e)) => Some((crate::codec::views_of(acc@) + rest, e)),
                None => None,
            }),
        decreases rem,
    {
        let ghost old_acc = acc@;
        match read_relics_row(b, j) {
            Some((v, j2)) => {
                acc.push(v);
                proof {
                    assert(crate::codec::views_of(acc@) =~= crate::codec::views_of(
                        old_acc,
                    ).push(v@));
                    if bd_relics_rows(b@, j2 as int, (rem - 1) as nat) is Some {
                        let (rest, e) = bd_relics_rows(b@, j2 as int, (rem - 1) as nat)->Some_0;
                        assert(crate::codec::views_of(old_acc) + (seq![v@] + rest)
                            =~= crate::codec::views_of(acc@) + rest);
                    }
                }
                j = j2;
                rem = rem - 1;
            },
            None => {
                return None;
            },
        }
    }
    proof {
        assert(bd_relics_rows(b@, j as int, 0) == Some((Seq::<crate::bean::RelicsV>::empty(), j as int)));
        assert(crate::codec::views_of(acc@) + Seq::<crate::bean::RelicsV>::empty()
            =~= crate::codec::views_of(acc@));
    }
    if j == b.len() {
        Some(acc)
    } else {
        None
    }
}

/// Read one unit row at `i`: its fields in schema order.
pub open spec fn bd_element_row(b: Seq<u8>, i: int) -> Option<(crate::bean::ElementV, int)> {
    match bd_int(b, i) {
        None => None,
        Some((x1, p1)) =>
        match bd_int(b, p1) {
            None => None,
            Some((x2, p2)) =>
            match bd_int(b, p2) {
                None => None,
                Some((x3, p3)) =>
                match bd_int(b, p3) {
                    None => None,
                    Some((x4, p4)) =>
                    match bd_int(b, p4) {
                        None => None,
                        Some((x5, p5)) =>
                        match bd_int(b, p5) {
                            None => None,
                            Some((x6, p6)) =>
                            match bd_tip_list(b, p6) {
                                None => None,
                                Some((x7, p7)) =>
                                match bd_int_list(b, p7) {
                                    None => None,
                                    Some((x8, p8)) =>
                                    match bd_str(b, p8) {
                                        None => None,
                                        Some((x9, p9)) =>
                                        match bd_int(b, p9) {
                                            None => None,
                                            Some((x10, p10)) =>
                                            match bd_race(b, p10) {
                                                None => None,
                                                Some((x11, p11)) =>
                                                match bd_race(b, p11) {
                                                    None => None,
                                                    Some((x12, p12)) =>
                                                    match bd_attr_list(b, p12) {
                                                        None => None,
                                                        Some((x13, p13)) =>
                                                        match bd_int(b, p13) {
                                                            None => None,
                                                            Some((x14, p14)) =>
                                                            match bd_int_list(b, p14) {
                                                                None => None,
                                                                Some((x15, p15)) =>
                                                                match bd_int(b, p15) {
                                                                    None => None,
                                                                    Some((x16, p16)) =>
                                                                    match bd_int(b, p16) {
                                                                        None => None,
                                                                        Some((x17, p17)) =>
                                                                        match bd_tval_list(b, p17) {
                                                                            None => None,
                                                                            Some((x18, p18)) =>
                                                                            match bd_int_list(b, p18) {
                                                                                None => None,
                                                                                Some((x19, p19)) =>
                                                                                match bd_int(b, p19) {
                                                                                    None => None,
                                                                                    Some((x20, p20)) =>
                                                                                    match bd_int(b, p20) {
                                                                                        None => None,
                                                                                        Some((x21, p21)) =>
                                                                                        match bd_int(b, p21) {
                                                                                            None => None,
                                                                                            Some((x22, p22)) =>
                                                                                            Some((crate::bean::ElementV { id: x1, lock: x2, enable: x3, role: x4, name_id: x5, desc_id: x6, desctip: x7, desc_attribute: x8, icon: x9, rare: x10, race_type: x11, other_race: x12, attribute: x13, trigger_type: x14, trigger_param: x15, event_tip: x16, trigger_action: x17, trigger_value: x18, other_value: x19, attack_sound: x20, select_sound: x21, attack_particle: x22 }, p22)),
                                                                                        },
                                                                                    },
                                                                                },
                                                                            },
                                                                        },
                                                                    },
                                                                },
                                                            },
                                                        },
                                                    },
                                                },
                                            },
                                        },
                                    },
                                },
                            },
                        },
                    },
                },
            },
        },
    }
}

/// Read one unit row at `i`, exactly as [`bd_element_row`] does.
#[verifier::spinoff_prover]
#[verifier::rlimit(100)]
pub fn read_element_row(b: &Vec<u8>, i: usize) -> (r: Option<(crate::bean::Element, usize)>)
    ensures
        match r {
            Some((v, j)) => bd_element_row(b@, i as int) == Some((v@, j as int)) && i <= j
                <= b@.len(),
            None => bd_element_row(b@, i as int) is None,
        },
{
        let (x1, p1) = match read_int(b, i) {
            None => {
                return None;
            },
            Some(x) => x,
        };
        let (x2, p2) = match read_int(b, p1) {
            None => {
                return None;
            },
            Some(x) => x,
        };
        let (x3, p3) = match read_int(b, p2) {
            None => {
                return None;
            },
            Some(x) => x,
        };
        let (x4, p4) = match read_int(b, p3) {
            None => {
                return None;
            },
            Some(x) => x,
        };
        let (x5, p5) = match read_int(b, p4) {
            None => {
                return None;
            },
            Some(x) => x,
        };
        let (x6, p6) = match read_int(b, p5) {
            None => {
                return None;
            },
            Some(x) => x,
        };
        let (x7, p7) = match read_tip_list(b, p6) {
            None => {
                return None;
            },
            Some(x) => x,
        };
        let (x8, p8) = match read_int_list(b, p7) {
            None => {
                return None;
            },
            Some(x) => x,
        };
        let (x9, p9) = match read_string(b, p8) {
            None => {
                return None;
            },
            Some(x) => x,
        };
        let (x10, p10) = match read_int(b, p9) {
            None => {
                return None;
            },
            Some(x) => x,
        };
        let (x11, p11) = match read_race(b, p10) {
            None => {
                return None;
            },
            Some(x) => x,
        };
        let (x12, p12) = match read_race(b, p11) {
            None => {
                return None;
            },
            Some(x) => x,
        };
        let (x13, p13) = match read_attr_list(b, p12) {
            None => {
                return None;
            },
            Some(x) => x,
        };
        let (x14, p14) = match read_int(b, p13) {
            None => {
                return None;
            },
            Some(x) => x,
        };
        let (x15, p15) = match read_int_list(b, p14) {
            None => {
                return None;
            },
            Some(x) => x,
        };
        let (x16, p16) = match read_int(b, p15) {
            None => {
                return None;
            },
            Some(x) => x,
        };
        let (x17, p17) = match read_int(b, p16) {
            None => {
                return None;
            },
            Some(x) => x,
        };
        let (x18, p18) = match read_tval_list(b, p17) {
            None => {
                return None;
            },
            Some(x) => x,
        };
        let (x19, p19) = match read_int_list(b, p18) {
            None => {
                return None;
            },
            Some(x) => x,
        };
        let (x20, p20) = match read_int(b, p19) {
            None => {
                return None;
            },
            Some(x) => x,
        };
        let (x21, p21) = match read_int(b, p20) {
            None => {
                return None;
            },
            Some(x) => x,
        };
        let (x22, p22) = match read_int(b, p21) {
            None => {
                return None;
            },
            Some(x) => x,
        };
        let rec = crate::bean::Element { id: x1, lock: x2, enable: x3, role: x4, name_id: x5, desc_id: x6, desctip: x7, desc_attribute: x8, icon: x9, rare: x10, race_type: x11, other_race: x12, attribute: x13, trigger_type: x14, trigger_param: x15, event_tip: x16, trigger_action: x17, trigger_value: x18, other_value: x19, attack_sound: x20, select_sound: x21, attack_particle: x22 };
        proof {
            assert(crate::codec::views_of(x18@) =~= rec@.trigger_value);
            assert(bd_element_row(b@, i as int) == Some((rec@, p22 as int)));
        }
        Some((rec, p22))
}

/// Read `n` element rows at `i`.
pub open spec fn bd_element_rows(b: Seq<u8>, i: int, n: nat) -> Option<(Seq<crate::bean::ElementV>, int)>
    decreases n,
{
    if n == 0 {
        Some((Seq::empty(), i))
    } else {
        match bd_element_row(b, i) {
            Some((v, j)) => match bd_element_rows(b, j, (n - 1) as nat) {
                Some((rest, e)) => Some((seq![v] + rest, e)),
                None => None,
            },
            None => None,
        }
    }
}

/// The element rows of a whole blob: a count, the rows, nothing after.
pub open spec fn bd_element_table(b: Seq<u8>) -> Option<Seq<crate::bean::ElementV>> {
    match bd_uint(b, 0) {
        Some((n, j)) => match bd_element_rows(b, j, n as nat) {
            Some((rows, e)) => if e == b.len() {
                Some(rows)
            } else {
                None
            },
            None => None,
        },
        None => None,
    }
}

/// Decode a whole element blob, exactly as [`bd_element_table`] does.
pub fn read_element_table(b: &Vec<u8>) -> (r: Option<Vec<crate::bean::Element>>)
    ensures
        match r {
            Some(v) => bd_element_table(b@) == Some(crate::codec::views_of(v@)),
            None => bd_element_table(b@) is None,
        },
{
    let (n, j0) = match read_uint(b, 0) {
        Some(x) => x,
        None => {
            return None;
        },
    };
    let mut acc: Vec<crate::bean::Element> = Vec::new();
    let mut j: usize = j0;
    let mut rem: u32 = n;
    proof {
        assert(crate::codec::views_of(acc@) =~= Seq::<crate::bean::ElementV>::empty());
    }
    while rem > 0
        invariant
            j <= b@.len(),
            bd_uint(b@, 0) == Some((n, j0 as int)),
            bd_element_rows(b@, j0 as int, n as nat) == (match bd_element_rows(b@, j as int, rem as nat) {
                Some((rest, e)) => Some((crate::codec::views_of(acc@) + rest, e)),
                None => None,
            }),
        decreases rem,
    {
        let ghost old_acc = acc@;
        match read_element_row(b, j) {
            Some((v, j2)) => {
                acc.push(v);
                proof {
                    assert(crate::codec::views_of(acc@) =~= crate::codec::views_of(
                        old_acc,
                    ).push(v@));
                    if bd_element_rows(b@, j2 as int, (rem - 1) as nat) is Some {
                        let (rest, e) = bd_element_rows(b@, j2 as int, (rem - 1) as nat)->Some_0;
                        assert(crate::codec::views_of(old_acc) + (seq![v@] + rest)
                            =~= crate::codec::views_of(acc@) + rest);
                    }
                }
                j = j2;
                rem = rem - 1;
            },
            None => {
                return None;
            },
        }
    }
    proof {
        assert(bd_element_rows(b@, j as int, 0) == Some((Seq::<crate::bean::ElementV>::empty(), j as int)));
        assert(crate::codec::views_of(acc@) + Seq::<crate::bean::ElementV>::empty()
            =~= crate::codec::views_of(acc@));
    }
    if j == b.len() {
        Some(acc)
    } else {
        None
    }
}

/// Read one enemy row at `i`: its fields in schema order.
pub open spec fn bd_enemy_row(b: Seq<u8>, i: int) -> Option<(crate::bean::EnemyV, int)> {
    match bd_int(b, i) {
        None => None,
        Some((x1, p1)) =>
        match bd_str(b, p1) {
            None => None,
            Some((x2, p2)) =>
            match bd_int(b, p2) {
                None => None,
                Some((x3, p3)) =>
                match bd_int(b, p3) {
                    None => None,
                    Some((x4, p4)) =>
                    match bd_int(b, p4) {
                        None => None,
                        Some((x5, p5)) =>
                        match bd_int(b, p5) {
                            None => None,
                            Some((x6, p6)) =>
                            match bd_int(b, p6) {
                                None => None,
                                Some((x7, p7)) =>
                                match bd_int(b, p7) {
                                    None => None,
                                    Some((x8, p8)) =>
                                    match bd_int(b, p8) {
                                        None => None,
                                        Some((x9, p9)) =>
                                        match bd_int(b, p9) {
                                            None => None,
                                            Some((x10, p10)) =>
                                            match bd_int(b, p10) {
                                                None => None,
                                                Some((x11, p11)) =>
                                                match bd_int(b, p11) {
                                                    None => None,
                                                    Some((x12, p12)) =>
                                                    match bd_int(b, p12) {
                                                        None => None,
                                                        Some((x13, p13)) =>
                                                        match bd_int(b, p13) {
                                                            None => None,
                                                            Some((x14, p14)) =>
                                                            match bd_int(b, p14) {
                                                                None => None,
                                                                Some((x15, p15)) =>
                                                                match bd_int(b, p15) {
                                                                    None => None,
                                                                    Some((x16, p16)) =>
                                                                    match bd_int(b, p16) {
                                                                        None => None,
                                                                        Some((x17, p17)) =>
                                                                        Some((crate::bean::EnemyV { id: x1, icon: x2, name_id: x3, desc_id: x4, map: x5, level: x6, boss: x7, hp: x8, attack: x9, upgrade_attack: x10, endless_hp: x11, endless_attack: x12, endless_upgrade: x13, gold: x14, gold_max: x15, attack_sound: x16, show_sound: x17 }, p17)),
                                                                    },
                                                                },
                                                            },
                                                        },
                                                    },
                                                },
                                            },
                                        },
                                    },
                                },
                            },
                        },
                    },
                },
            },
        },
    }
}

/// Read one enemy row at `i`, exactly as [`bd_enemy_row`] does.
#[verifier::spinoff_prover]
#[verifier::rlimit(100)]
pub fn read_enemy_row(b: &Vec<u8>, i: usize) -> (r: Option<(crate::bean::Enemy, usize)>)
    ensures
        match r {
            Some((v, j)) => bd_enemy_row(b@, i as int) == Some((v@, j as int)) && i <= j
                <= b@.len(),
            None => bd_enemy_row(b@, i as int) is None,
        },
{
        let (x1, p1) = match read_int(b, i) {
            None => {
                return None;
            },
            Some(x) => x,
        };
        let (x2, p2) = match read_string(b, p1) {
            None => {
                return None;
            },
            Some(x) => x,
        };
        let (x3, p3) = match read_int(b, p2) {
            None => {
                return None;
            },
            Some(x) => x,
        };
        let (x4, p4) = match read_int(b, p3) {
            None => {
                return None;
            },
            Some(x) => x,
        };
        let (x5, p5) = match read_int(b, p4) {
            None => {
                return None;
            },
            Some(x) => x,
        };
        let (x6, p6) = match read_int(b, p5) {
            None => {
                return None;
            },
            Some(x) => x,
        };
        let (x7, p7) = match read_int(b, p6) {
            None => {
                return None;
            },
            Some(x) => x,
        };
        let (x8, p8) = match read_int(b, p7) {
            None => {
                return None;
            },
            Some(x) => x,
        };
        let (x9, p9) = match read_int(b, p8) {
            None => {
                return None;
            },
            Some(x) => x,
        };
        let (x10, p10) = match read_int(b, p9) {
            None => {
                return None;
            },
            Some(x) => x,
        };
        let (x11, p11) = match read_int(b, p10) {
            None => {
                return None;
            },
            Some(x) => x,
        };
        let (x12, p12) = match read_int(b, p11) {
            None => {
                return None;
            },
            Some(x) => x,
        };
        let (x13, p13) = match read_int(b, p12) {
            None => {
                return None;
            },
            Some(x) => x,
        };
        let (x14, p14) = match read_int(b, p13) {
            None => {
                return None;
            },
            Some(x) => x,
        };
        let (x15, p15) = match read_int(b, p14) {
            None => {
                return None;
            },
            Some(x) => x,
        };
        let (x16, p16) = match read_int(b, p15) {
            None => {
                return None;
            },
            Some(x) => x,
        };
        let (x17, p17) = match read_int(b, p16) {
            None => {
                return None;
            },
            Some(x) => x,
        };
        let rec = crate::bean::Enemy { id: x1, icon: x2, name_id: x3, desc_id: x4, map: x5, level: x6, boss: x7, hp: x8, attack: x9, upgrade_attack: x10, endless_hp: x11, endless_attack: x12, endless_upgrade: x13, gold: x14, gold_max: x15, attack_sound: x16, show_sound: x17 };
        proof {
            assert(bd_enemy_row(b@, i as int) == Some((rec@, p17 as int)));
        }
        Some((rec, p17))
}

/// Read `n` enemy rows at `i`.
pub open spec fn bd_enemy_rows(b: Seq<u8>, i: int, n: nat) -> Option<(Seq<crate::bean::EnemyV>, int)>
    decreases n,
{
    if n == 0 {
        Some((Seq::empty(), i))
    } else {
        match bd_enemy_row(b, i) {
            Some((v, j)) => match bd_enemy_rows(b, j, (n - 1) as nat) {
                Some((rest, e)) => Some((seq![v] + rest, e)),
                None => None,
            },
            None => None,
        }
    }
}

/// The enemy rows of a whole blob: a count, the rows, nothing after.
pub open spec fn bd_enemy_table(b: Seq<u8>) -> Option<Seq<crate::bean::EnemyV>> {
    match bd_uint(b, 0) {
        Some((n, j)) => match bd_enemy_rows(b, j, n as nat) {
            Some((rows, e)) => if e == b.len() {
                Some(rows)
            } else {
                None
            },
            None => None,
        },
        None => None,
    }
}

/// Decode a whole enemy blob, exactly as [`bd_enemy_table`] does.
pub fn read_enemy_table(b: &Vec<u8>) -> (r: Option<Vec<crate::bean::Enemy>>)
    ensures
        match r {
            Some(v) => bd_enemy_table(b@) == Some(crate::codec::views_of(v@)),
            None => bd_enemy_table(b@) is None,
        },
{
    let (n, j0) = match read_uint(b, 0) {
        Some(x) => x,
        None => {
            return None;
        },
    };
    let mut acc: Vec<crate::bean::Enemy> = Vec::new();
    let mut j: usize = j0;
    let mut rem: u32 = n;
    proof {
        assert(crate::codec::views_of(acc@) =~= Seq::<crate::bean::EnemyV>::empty());
    }
    while rem > 0
        invariant
            j <= b@.len(),
            bd_uint(b@, 0) == Some((n, j0 as int)),
            bd_enemy_rows(b@, j0 as int, n as nat) == (match bd_enemy_rows(b@, j as int, rem as nat) {
                Some((rest, e)) => Some((crate::codec::views_of(acc@) + rest, e)),
                None => None,
            }),
        decreases rem,
    {
        let ghost old_acc = acc@;
        match read_enemy_row(b, j) {
            Some((v, j2)) => {
                acc.push(v);
                proof {
                    assert(crate::codec::views_of(acc@) =~= crate::codec::views_of(
                        old_acc,
                    ).push(v@));
                    if bd_enemy_rows(b@, j2 as int, (rem - 1) as nat) is Some {
                        let (rest, e) = bd_enemy_rows(b@, j2 as int, (rem - 1) as nat)->Some_0;
                        assert(crate::codec::views_of(old_acc) + (seq![v@] + rest)
                            =~= crate::codec::views_of(acc@) + rest);
                    }
                }
                j = j2;
                rem = rem - 1;
            },
            None => {
                return None;
            },
        }
    }
    proof {
        assert(bd_enemy_rows(b@, j as int, 0) == Some((Seq::<crate::bean::EnemyV>::empty(), j as int)));
        assert(crate::codec::views_of(acc@) + Seq::<crate::bean::EnemyV>::empty()
            =~= crate::codec::views_of(acc@));
    }
    if j == b.len() {
        Some(acc)
    } else {
        None
    }
}

/// Read one race-attribute row at `i`: its fields in schema order.
pub open spec fn bd_raceattribute_row(b: Seq<u8>, i: int) -> Option<(crate::bean::RaceAttributeV, int)> {
    match bd_int(b, i) {
        None => None,
        Some((x1, p1)) =>
        match bd_str(b, p1) {
            None => None,
            Some((x2, p2)) =>
            match bd_int(b, p2) {
                None => None,
                Some((x3, p3)) =>
                match bd_int(b, p3) {
                    None => None,
                    Some((x4, p4)) =>
                    Some((crate::bean::RaceAttributeV { id: x1, icon: x2, name_id: x3, desc_id: x4 }, p4)),
                },
            },
        },
    }
}

/// Read one race-attribute row at `i`, exactly as [`bd_raceattribute_row`] does.
#[verifier::spinoff_prover]
#[verifier::rlimit(100)]
pub fn read_raceattribute_row(b: &Vec<u8>, i: usize) -> (r: Option<(crate::bean::RaceAttribute, usize)>)
    ensures
        match r {
            Some((v, j)) => bd_raceattribute_row(b@, i as int) == Some((v@, j as int)) && i <= j
                <= b@.len(),
            None => bd_raceattribute_row(b@, i as int) is None,
        },
{
        let (x1, p1) = match read_int(b, i) {
            None => {
                return None;
            },
            Some(x) => x,
        };
        let (x2, p2) = match read_string(b, p1) {
            None => {
                return None;
            },
            Some(x) => x,
        };
        let (x3, p3) = match read_int(b, p2) {
            None => {
                return None;
            },
            Some(x) => x,
        };
        let (x4, p4) = match read_int(b, p3) {
            None => {
                return None;
            },
            Some(x) => x,
        };
        let rec = crate::bean::RaceAttribute { id: x1, icon: x2, name_id: x3, desc_id: x4 };
        proof {
            assert(bd_raceattribute_row(b@, i as int) == Some((rec@, p4 as int)));
        }
        Some((rec, p4))
}

/// Read `n` race-attribute rows at `i`.
pub open spec fn bd_raceattribute_rows(b: Seq<u8>, i: int, n: nat) -> Option<(Seq<crate::bean::RaceAttributeV>, int)>
    decreases n,
{
    if n == 0 {
        Some((Seq::empty(), i))
    } else {
        match bd_raceattribute_row(b, i) {
            Some((v, j)) => match bd_raceattribute_rows(b, j, (n - 1) as nat) {
                Some((rest, e)) => Some((seq![v] + rest, e)),
                None => None,
            },
            None => None,
        }
    }
}

/// The race-attribute rows of a whole blob: a count, the rows, nothing after.
pub open spec fn bd_raceattribute_table(b: Seq<u8>) -> Option<Seq<crate::bean::RaceAttributeV>> {
    match bd_uint(b, 0) {
        Some((n, j)) => match bd_raceattribute_rows(b, j, n as nat) {
            Some((rows, e)) => if e == b.len() {
                Some(rows)
            } else {
                None
            },
            None => None,
        },
        None => None,
    }
}

/// Decode a whole race-attribute blob, exactly as [`bd_raceattribute_table`] does.
pub fn read_raceattribute_table(b: &Vec<u8>) -> (r: Option<Vec<crate::bean::RaceAttribute>>)
    ensures
        match r {
            Some(v) => bd_raceattribute_table(b@) == Some(crate::codec::views_of(v@)),
            None => bd_raceattribute_table(b@) is None,
        },
{
    let (n, j0) = match read_uint(b, 0) {
        Some(x) => x,
        None => {
            return None;
        },
    };
    let mut acc: Vec<crate::bean::RaceAttribute> = Vec::new();
    let mut j: usize = j0;
    let mut rem: u32 = n;
    proof {
        assert(crate::codec::views_of(acc@) =~= Seq::<crate::bean::RaceAttributeV>::empty());
    }
    while rem > 0
        invariant
            j <= b@.len(),
            bd_uint(b@, 0) == Some((n, j0 as int)),
            bd_raceattribute_rows(b@, j0 as int, n as nat) == (match bd_raceattribute_rows(b@, j as int, rem as nat) {
                Some((rest, e)) => Some((crate::codec::views_of(acc@) + rest, e)),
                None => None,
            }),
        decreases rem,
    {
        let ghost old_acc = acc@;
        match read_raceattribute_row(b, j) {
            Some((v, j2)) => {
                acc.push(v);
                proof {
                    assert(crate::codec::views_of(acc@) =~= crate::codec::views_of(
                        old_acc,
                    ).push(v@));
                    if bd_raceattribute_rows(b@, j2 as int, (rem - 1) as nat) is Some {
                        let (rest, e) = bd_raceattribute_rows(b@, j2 as int, (rem - 1) as nat)->Some_0;
                        assert(crate::codec::views_of(old_acc) + (seq![v@] + rest)
                            =~= crate::codec::views_of(acc@) + rest);
                    }
                }
                j = j2;
                rem = rem - 1;
            },
            None => {
                return None;
            },
        }
    }
    proof {
        assert(bd_raceattribute_rows(b@, j as int, 0) == Some((Seq::<crate::bean::RaceAttributeV>::empty(), j as int)));
        assert(crate::codec::views_of(acc@) + Seq::<crate::bean::RaceAttributeV>::empty()
            =~= crate::codec::views_of(acc@));
    }
    if j == b.len() {
        Some(acc)
    } else {
        None
    }
}

/// Read one localization row at `i`: its fields in schema order.
pub open spec fn bd_localization_row(b: Seq<u8>, i: int) -> Option<(crate::bean::LocalizationV, int)> {
    match bd_int(b, i) {
        None => None,
        Some((x1, p1)) =>
        match bd_str(b, p1) {
            None => None,
            Some((x2, p2)) =>
            match bd_str(b, p2) {
                None => None,
                Some((x3, p3)) =>
                match bd_str(b, p3) {
                    None => None,
                    Some((x4, p4)) =>
                    match bd_str(b, p4) {
                        None => None,
                        Some((x5, p5)) =>
                        Some((crate::bean::LocalizationV { id: x1, cn: x2, en: x3, jp: x4, cnt: x5 }, p5)),
                    },
                },
            },
        },
    }
}

/// Read one localization row at `i`, exactly as [`bd_localization_row`] does.
#[verifier::spinoff_prover]
#[verifier::rlimit(100)]
pub fn read_localization_row(b: &Vec<u8>, i: usize) -> (r: Option<(crate::bean::Localization, usize)>)
    ensures
        match r {
            Some((v, j)) => bd_localization_row(b@, i as int) == Some((v@, j as int)) && i <= j
                <= b@.len(),
            None => bd_localization_row(b@, i as int) is None,
        },
{
        let (x1, p1) = match read_int(b, i) {
            None => {
                return None;
            },
            Some(x) => x,
        };
        let (x2, p2) = match read_string(b, p1) {
            None => {
                return None;
            },
            Some(x) => x,
        };
        let (x3, p3) = match read_string(b, p2) {
            None => {
                return None;
            },
            Some(x) => x,
        };
        let (x4, p4) = match read_string(b, p3) {
            None => {
                return None;
            },
            Some(x) => x,
        };
        let (x5, p5) = match read_string(b, p4) {
            None => {
                return None;
            },
            Some(x) => x,
        };
        let rec = crate::bean::Localization { id: x1, cn: x2, en: x3, jp: x4, cnt: x5 };
        proof {
            assert(bd_localization_row(b@, i as int) == Some((rec@, p5 as int)));
        }
        Some((rec, p5))
}

/// Read `n` localization rows at `i`.
pub open spec fn bd_localization_rows(b: Seq<u8>, i: int, n: nat) -> Option<(Seq<crate::bean::LocalizationV>, int)>
    decreases n,
{
    if n == 0 {
        Some((Seq::empty(), i))
    } else {
        match bd_localization_row(b, i) {
            Some((v, j)) => match bd_localization_rows(b, j, (n - 1) as nat) {
                Some((rest, e)) => Some((seq![v] + rest, e)),
                None => None,
            },
            None => None,
        }
    }
}

/// The localization rows of a whole blob: a count, the rows, nothing after.
pub open spec fn bd_localization_table(b: Seq<u8>) -> Option<Seq<crate::bean::LocalizationV>> {
    match bd_uint(b, 0) {
        Some((n, j)) => match bd_localization_rows(b, j, n as nat) {
            Some((rows, e)) => if e == b.len() {
                Some(rows)
            } else {
                None
            },
            None => None,
        },
        None => None,
    }
}

/// Decode a whole localization blob, exactly as [`bd_localization_table`] does.
pub fn read_localization_table(b: &Vec<u8>) -> (r: Option<Vec<crate::bean::Localization>>)
    ensures
        match r {
            Some(v) => bd_localization_table(b@) == Some(crate::codec::views_of(v@)),
            None => bd_localization_table(b@) is None,
        },
{
    let (n, j0) = match read_uint(b, 0) {
        Some(x) => x,
        None => {
            return None;
        },
    };
    let mut acc: Vec<crate::bean::Localization> = Vec::new();
    let mut j: usize = j0;
    let mut rem: u32 = n;
    proof {
        assert(crate::codec::views_of(acc@) =~= Seq::<crate::bean::LocalizationV>::empty());
    }
    while rem > 0
        invariant
            j <= b@.len(),
            bd_uint(b@, 0) == Some((n, j0 as int)),
            bd_localization_rows(b@, j0 as int, n as nat) == (match bd_localization_rows(b@, j as int, rem as nat) {
                Some((rest, e)) => Some((crate::codec::views_of(acc@) + rest, e)),
                None => None,
            }),
        decreases rem,
    {
        let ghost old_acc = acc@;
        match read_localization_row(b, j) {
            Some((v, j2)) => {
                acc.push(v);
                proof {
                    assert(crate::codec::views_of(acc@) =~= crate::codec::views_of(
                        old_acc,
                    ).push(v@));
                    if bd_localization_rows(b@, j2 as int, (rem - 1) as nat) is Some {
                        let (rest, e) = bd_localization_rows(b@, j2 as int, (rem - 1) as nat)->Some_0;
                        assert(crate::codec::views_of(old_acc) + (seq![v@] + rest)
                            =~= crate::codec::views_of(acc@) + rest);
                    }
                }
                j = j2;
                rem = rem - 1;
            },
            None => {
                return None;
            },
        }
    }
    proof {
        assert(bd_localization_rows(b@, j as int, 0) == Some((Seq::<crate::bean::LocalizationV>::empty(), j as int)));
        assert(crate::codec::views_of(acc@) + Seq::<crate::bean::LocalizationV>::empty()
            =~= crate::codec::views_of(acc@));
    }
    if j == b.len() {
        Some(acc)
    } else {
        None
    }
}


/// The five per-table byte blobs of one compiled bundle, each named by its
/// table.
pub struct LubanBlobs {
    pub tbrelics: Vec<u8>,
    pub tbelement: Vec<u8>,
    pub tbenemy: Vec<u8>,
    pub tbraceattribute: Vec<u8>,
    pub tblocalization: Vec<u8>,
}

/// Decode a whole compiled bundle into a fresh table collection.
///
/// A single missing or malformed blob fails the whole load: the caller then
/// keeps its previous in-memory state and treats the bundle as no data.
pub fn read_luban_bytes(blobs: &LubanBlobs) -> (r: Option<crate::data::TableData>)
    ensures
        r is Some <==> (bd_relics_table(blobs.tbrelics@) is Some && bd_element_table(
            blobs.tbelement@,
        ) is Some && bd_enemy_table(blobs.tbenemy@) is Some && bd_raceattribute_table(
            blobs.tbraceattribute@,
        ) is Some && bd_localization_table(blobs.tblocalization@) is Some),
        r matches Some(td) ==> {
            &&& Some(td@.relics) == bd_relics_table(blobs.tbrelics@)
            &&& Some(td@.elements) == bd_element_table(blobs.tbelement@)
            &&& Some(td@.enemies) == bd_enemy_table(blobs.tbenemy@)
            &&& Some(td@.race_attributes) == bd_raceattribute_table(blobs.tbraceattribute@)
            &&& Some(td@.l10n) == bd_localization_table(blobs.tblocalization@)
        },
{
    let relics = match read_relics_table(&blobs.tbrelics) {
        Some(v) => v,
        None => {
            return None;
        },
    };
    let elements = match read_element_table(&blobs.tbelement) {
        Some(v) => v,
        None => {
            return None;
        },
    };
    let enemies = match read_enemy_table(&blobs.tbenemy) {
        Some(v) => v,
        None => {
            return None;
        },
    };
    let race_attributes = match read_raceattribute_table(&blobs.tbraceattribute) {
        Some(v) => v,
        None => {
            return None;
        },
    };
    let l10n = match read_localization_table(&blobs.tblocalization) {
        Some(v) => v,
        None => {
            return None;
        },
    };
    Some(crate::data::TableData { relics, elements, enemies, l10n, race_attributes })
}

} // verus!
