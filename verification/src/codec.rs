//! Wire forms of the table records.
//!
//! Every value that can stand in a table file has a wire form: a canonical
//! character sequence ([`WireSpec`]) and an executable writer/parser pair
//! ([`WireExec`]) proved to match it.  Lists and record members are handled
//! once, generically; each record kind supplies its member chain.

use vstd::prelude::*;
use crate::json::{
    ser_i32, parse_i32_spec, lemma_parse_ser_i32, ser_str, parse_str_spec, lemma_parse_ser_str,
    ser_bool, parse_bool_spec, lemma_parse_ser_bool, expect_lit, lemma_subrange_index, write_i32,
    parse_i32, write_str, parse_str, write_bool, parse_bool, match_lit,
};

verus! {

/// A value with a canonical wire form.
///
/// `lemma_wire_roundtrip` is the contract that parsing inverts serialization
/// wherever the wire text is followed by a separator, a closing bracket or
/// brace, or the end of the text.
pub trait WireSpec: Sized {
    /// Canonical text of the value.
    spec fn wire_ser(self) -> Seq<char>;

    /// Parse a value at `i`.
    spec fn wire_parse(s: Seq<char>, i: int) -> Option<(Self, int)>;

    /// Parsing reads back exactly the canonical text.
    proof fn lemma_wire_roundtrip(v: Self, s: Seq<char>, i: int)
        requires
            0 <= i,
            i + v.wire_ser().len() <= s.len(),
            s.subrange(i, i + v.wire_ser().len()) == v.wire_ser(),
            i + v.wire_ser().len() == s.len() || s[i + v.wire_ser().len()] == ','
                || s[i + v.wire_ser().len()] == ']' || s[i + v.wire_ser().len()] == '}'
                || s[i + v.wire_ser().len()] == '\n',
        ensures
            Self::wire_parse(s, i) == Some((v, i + v.wire_ser().len())),
            v.wire_ser().len() >= 1,
            v.wire_ser()[0] != ']',
    ;
}

impl WireSpec for i32 {
    open spec fn wire_ser(self) -> Seq<char> {
        ser_i32(self)
    }

    open spec fn wire_parse(s: Seq<char>, i: int) -> Option<(i32, int)> {
        parse_i32_spec(s, i)
    }

    proof fn lemma_wire_roundtrip(v: i32, s: Seq<char>, i: int) {
        lemma_parse_ser_i32(v, s, i);
        if v >= 0 {
            crate::json::lemma_dec_digits(v as nat);
        }
    }
}

impl WireSpec for bool {
    open spec fn wire_ser(self) -> Seq<char> {
        ser_bool(self)
    }

    open spec fn wire_parse(s: Seq<char>, i: int) -> Option<(bool, int)> {
        parse_bool_spec(s, i)
    }

    proof fn lemma_wire_roundtrip(v: bool, s: Seq<char>, i: int) {
        lemma_parse_ser_bool(v, s, i);
    }
}

impl WireSpec for Seq<char> {
    open spec fn wire_ser(self) -> Seq<char> {
        ser_str(self)
    }

    open spec fn wire_parse(s: Seq<char>, i: int) -> Option<(Seq<char>, int)> {
        parse_str_spec(s, i)
    }

    proof fn lemma_wire_roundtrip(v: Seq<char>, s: Seq<char>, i: int) {
        lemma_parse_ser_str(v, s, i);
    }
}

impl WireSpec for crate::bean::Etip {
    open spec fn wire_ser(self) -> Seq<char> {
        ser_i32(crate::bean::tip_code_spec(self))
    }

    open spec fn wire_parse(s: Seq<char>, i: int) -> Option<(crate::bean::Etip, int)> {
        match parse_i32_spec(s, i) {
            Some((c, j)) => match crate::bean::tip_from_code_spec(c) {
                Some(t) => Some((t, j)),
                None => None,
            },
            None => None,
        }
    }

    proof fn lemma_wire_roundtrip(v: crate::bean::Etip, s: Seq<char>, i: int) {
        let c = crate::bean::tip_code_spec(v);
        lemma_parse_ser_i32(c, s, i);
        crate::bean::lemma_tip_code_roundtrip(v);
        crate::json::lemma_dec_digits(c as nat);
    }
}

impl WireSpec for crate::bean::ERaceType {
    open spec fn wire_ser(self) -> Seq<char> {
        ser_i32(crate::bean::race_code_spec(self))
    }

    open spec fn wire_parse(s: Seq<char>, i: int) -> Option<(crate::bean::ERaceType, int)> {
        match parse_i32_spec(s, i) {
            Some((c, j)) => match crate::bean::race_from_code_spec(c) {
                Some(t) => Some((t, j)),
                None => None,
            },
            None => None,
        }
    }

    proof fn lemma_wire_roundtrip(v: crate::bean::ERaceType, s: Seq<char>, i: int) {
        let c = crate::bean::race_code_spec(v);
        lemma_parse_ser_i32(c, s, i);
        crate::bean::lemma_race_code_roundtrip(v);
        crate::json::lemma_dec_digits(c as nat);
    }
}

// ------------------------------------------------------------------
// lists
// ------------------------------------------------------------------

/// The separator between the elements of an inner list.
pub open spec fn sep_comma() -> Seq<char> {
    seq![',']
}

/// The separator between the records of a table file: one record per line.
pub open spec fn sep_record() -> Seq<char> {
    seq![',', '\n']
}

/// Canonical text of list elements, separated by `sep`.
pub open spec fn ser_items<E: WireSpec>(sep: Seq<char>, rows: Seq<E>) -> Seq<char>
    decreases rows.len(),
{
    if rows.len() == 0 {
        Seq::empty()
    } else if rows.len() == 1 {
        rows[0].wire_ser()
    } else {
        rows[0].wire_ser() + sep + ser_items(sep, rows.drop_first())
    }
}

/// Canonical text of a whole list.
pub open spec fn ser_list<E: WireSpec>(sep: Seq<char>, rows: Seq<E>) -> Seq<char> {
    seq!['['] + ser_items(sep, rows) + seq![']']
}

/// Parse one or more `sep`-separated elements followed by the closing
/// bracket, which is consumed.
pub open spec fn parse_items<E: WireSpec>(sep: Seq<char>, s: Seq<char>, i: int) -> Option<
    (Seq<E>, int),
>
    decreases s.len() - i,
{
    match E::wire_parse(s, i) {
        None => None,
        Some((a, j)) => {
            if !(i < j <= s.len()) {
                None
            } else {
                match expect_lit(s, j, sep) {
                    Some(j2) => if j2 <= j {
                        None
                    } else {
                        match parse_items::<E>(sep, s, j2) {
                            Some((rest, e)) => Some((seq![a] + rest, e)),
                            None => None,
                        }
                    },
                    None => if j < s.len() && s[j] == ']' {
                        Some((seq![a], j + 1))
                    } else {
                        None
                    },
                }
            }
        },
    }
}

/// Parse a whole list at `i`.
pub open spec fn parse_list<E: WireSpec>(sep: Seq<char>, s: Seq<char>, i: int) -> Option<
    (Seq<E>, int),
> {
    if 0 <= i && i < s.len() && s[i] == '[' {
        if i + 1 < s.len() && s[i + 1] == ']' {
            Some((Seq::empty(), i + 2))
        } else {
            parse_items::<E>(sep, s, i + 1)
        }
    } else {
        None
    }
}

/// The items parser reads back exactly the separated canonical texts
/// followed by the closing bracket.
proof fn lemma_parse_ser_items<E: WireSpec>(sep: Seq<char>, rows: Seq<E>, s: Seq<char>, i: int)
    requires
        sep.len() >= 1,
        sep[0] == ',',
        rows.len() >= 1,
        0 <= i,
        i + ser_items(sep, rows).len() + 1 <= s.len(),
        s.subrange(i, i + ser_items(sep, rows).len() + 1) == ser_items(sep, rows) + seq![']'],
    ensures
        parse_items::<E>(sep, s, i) == Some((rows, i + ser_items(sep, rows).len() + 1)),
        s[i] != ']',
    decreases rows.len(),
{
    let u = ser_items(sep, rows) + seq![']'];
    let a = rows[0];
    let al = a.wire_ser().len() as int;
    if rows.len() == 1 {
        assert(ser_items(sep, rows) == a.wire_ser());
        assert forall|k: int| 0 <= k < al implies s.subrange(i, i + al)[k]
            == a.wire_ser()[k] by {
            lemma_subrange_index(s, i, u, k);
        }
        assert(s.subrange(i, i + al) =~= a.wire_ser());
        lemma_subrange_index(s, i, u, al);
        assert(s[i + al] == ']');
        E::lemma_wire_roundtrip(a, s, i);
        assert(s.subrange(i, i + al)[0] == s[i]);
        let j = i + al;
        // the separator cannot match at the closing bracket
        if expect_lit(s, j, sep) is Some {
            assert(s.subrange(j, j + sep.len())[0] == s[j]);
            assert(false);
        }
        assert(seq![a] =~= rows);
    } else {
        let rest = rows.drop_first();
        let restl = ser_items(sep, rest).len() as int;
        assert(ser_items(sep, rows) == a.wire_ser() + sep + ser_items(sep, rest));
        assert forall|k: int| 0 <= k < u.len() implies s[i + k] == u[k] by {
            lemma_subrange_index(s, i, u, k);
        }
        assert forall|k: int| 0 <= k < al implies s.subrange(i, i + al)[k]
            == a.wire_ser()[k] by {
            assert(s.subrange(i, i + al)[k] == s[i + k]);
            assert(u[k] == (a.wire_ser() + sep + ser_items(sep, rest))[k]);
        }
        assert(s.subrange(i, i + al) =~= a.wire_ser());
        assert(s[i + al] == sep[0]) by {
            assert(u[al] == (a.wire_ser() + sep + ser_items(sep, rest))[al]);
        }
        E::lemma_wire_roundtrip(a, s, i);
        assert(s.subrange(i, i + al)[0] == s[i]);
        let j = i + al;
        assert forall|k: int| 0 <= k < sep.len() implies s.subrange(j, j + sep.len())[k]
            == sep[k] by {
            assert(s.subrange(j, j + sep.len())[k] == s[i + (al + k)]);
            assert(u[al + k] == (a.wire_ser() + sep + ser_items(sep, rest))[al + k]);
        }
        assert(s.subrange(j, j + sep.len()) =~= sep);
        assert(expect_lit(s, j, sep) == Some(j + sep.len()));
        let j2 = j + sep.len();
        assert forall|k: int| 0 <= k < restl + 1 implies s.subrange(j2, j2 + restl + 1)[k]
            == (ser_items(sep, rest) + seq![']'])[k] by {
            assert(s.subrange(j2, j2 + restl + 1)[k] == s[i + (al + sep.len() + k)]);
            if k < restl {
                assert(u[al + sep.len() + k] == (a.wire_ser() + sep + ser_items(sep, rest))[al
                    + sep.len() + k]);
            } else {
                assert(u[u.len() - 1] == ']');
            }
        }
        assert(s.subrange(j2, j2 + restl + 1) =~= ser_items(sep, rest) + seq![']']);
        lemma_parse_ser_items::<E>(sep, rest, s, j2);
        assert(seq![a] + rest =~= rows);
    }
}

/// Parsing reads back exactly the canonical text of any list.
pub proof fn lemma_parse_ser_list<E: WireSpec>(sep: Seq<char>, rows: Seq<E>, s: Seq<char>, i: int)
    requires
        sep.len() >= 1,
        sep[0] == ',',
        0 <= i,
        i + ser_list(sep, rows).len() <= s.len(),
        s.subrange(i, i + ser_list(sep, rows).len()) == ser_list(sep, rows),
    ensures
        parse_list::<E>(sep, s, i) == Some((rows, i + ser_list(sep, rows).len())),
        ser_list(sep, rows).len() >= 2,
        ser_list(sep, rows)[0] != ']',
{
    let u = ser_list(sep, rows);
    let il = ser_items(sep, rows).len() as int;
    lemma_subrange_index(s, i, u, 0);
    assert(u[0] == '[');
    assert(s[i] == '[');
    if rows.len() == 0 {
        assert(ser_items(sep, rows) == Seq::<char>::empty());
        lemma_subrange_index(s, i, u, 1);
        assert(u[1] == (seq!['['] + Seq::<char>::empty() + seq![']'])[1]);
        assert(s[i + 1] == ']');
    } else {
        // the record list is not empty, so the first element starts right
        // after the opening bracket and does not itself start with a
        // closing bracket
        assert forall|k: int| 0 <= k < il + 1 implies s.subrange(i + 1, i + 1 + il + 1)[k]
            == (ser_items(sep, rows) + seq![']'])[k] by {
            assert(s.subrange(i + 1, i + 1 + il + 1)[k] == s[i + 1 + k]);
            lemma_subrange_index(s, i, u, 1 + k);
        }
        assert(s.subrange(i + 1, i + 1 + il + 1) =~= ser_items(sep, rows) + seq![']']);
        lemma_parse_ser_items::<E>(sep, rows, s, i + 1);
    }
}


// ------------------------------------------------------------------
// record members
// ------------------------------------------------------------------

/// The `"Key":` prefix of a record member.
pub open spec fn key_lit(key: Seq<char>) -> Seq<char> {
    seq!['"'] + key + seq!['"', ':']
}

/// Canonical text of one member: key, value, and the following separator
/// (a comma, or the closing brace after the last member).
pub open spec fn ser_mem<E: WireSpec>(key: Seq<char>, v: E, term: char) -> Seq<char> {
    key_lit(key) + v.wire_ser() + seq![term]
}

/// Parse one member at `i`: its key, its value, and its separator.
pub open spec fn parse_mem<E: WireSpec>(key: Seq<char>, term: char, s: Seq<char>, i: int) -> Option<
    (E, int),
> {
    match expect_lit(s, i, key_lit(key)) {
        Some(j) => match E::wire_parse(s, j) {
            Some((v, k)) => if k < s.len() && s[k] == term {
                Some((v, k + 1))
            } else {
                None
            },
            None => None,
        },
        None => None,
    }
}

/// Parsing reads back exactly the canonical text of a member.
pub proof fn lemma_parse_ser_mem<E: WireSpec>(key: Seq<char>, v: E, term: char, s: Seq<char>, i: int)
    requires
        term == ',' || term == '}',
        0 <= i,
        i + ser_mem(key, v, term).len() <= s.len(),
        s.subrange(i, i + ser_mem(key, v, term).len()) == ser_mem(key, v, term),
    ensures
        parse_mem::<E>(key, term, s, i) == Some((v, i + ser_mem(key, v, term).len())),
        ser_mem(key, v, term).len() >= key_lit(key).len() + 2,
{
    let u = ser_mem(key, v, term);
    let kl = key_lit(key).len() as int;
    let vl = v.wire_ser().len() as int;
    assert forall|k: int| 0 <= k < u.len() implies s[i + k] == u[k] by {
        lemma_subrange_index(s, i, u, k);
    }
    assert forall|k: int| 0 <= k < kl implies s.subrange(i, i + kl)[k] == key_lit(key)[k] by {
        assert(s.subrange(i, i + kl)[k] == s[i + k]);
        assert(u[k] == (key_lit(key) + v.wire_ser() + seq![term])[k]);
    }
    assert(s.subrange(i, i + kl) =~= key_lit(key));
    assert(expect_lit(s, i, key_lit(key)) == Some(i + kl));
    let j = i + kl;
    assert forall|k: int| 0 <= k < vl implies s.subrange(j, j + vl)[k] == v.wire_ser()[k] by {
        assert(s.subrange(j, j + vl)[k] == s[i + (kl + k)]);
        assert(u[kl + k] == (key_lit(key) + v.wire_ser() + seq![term])[kl + k]);
    }
    assert(s.subrange(j, j + vl) =~= v.wire_ser());
    assert(s[j + vl] == term) by {
        assert(u[kl + vl] == (key_lit(key) + v.wire_ser() + seq![term])[kl + vl]);
    }
    E::lemma_wire_roundtrip(v, s, j);
}

/// Canonical text of one member whose value is a list.
pub open spec fn ser_mem_list<E: WireSpec>(key: Seq<char>, rows: Seq<E>, term: char) -> Seq<char> {
    key_lit(key) + ser_list(sep_comma(), rows) + seq![term]
}

/// Parse one member whose value is a list.
pub open spec fn parse_mem_list<E: WireSpec>(
    key: Seq<char>,
    term: char,
    s: Seq<char>,
    i: int,
) -> Option<(Seq<E>, int)> {
    match expect_lit(s, i, key_lit(key)) {
        Some(j) => match parse_list::<E>(sep_comma(), s, j) {
            Some((v, k)) => if k < s.len() && s[k] == term {
                Some((v, k + 1))
            } else {
                None
            },
            None => None,
        },
        None => None,
    }
}

/// Parsing reads back exactly the canonical text of a list member.
pub proof fn lemma_parse_ser_mem_list<E: WireSpec>(
    key: Seq<char>,
    rows: Seq<E>,
    term: char,
    s: Seq<char>,
    i: int,
)
    requires
        term == ',' || term == '}',
        0 <= i,
        i + ser_mem_list(key, rows, term).len() <= s.len(),
        s.subrange(i, i + ser_mem_list(key, rows, term).len()) == ser_mem_list(key, rows, term),
    ensures
        parse_mem_list::<E>(key, term, s, i) == Some((rows, i + ser_mem_list(key, rows, term).len())),
{
    let u = ser_mem_list(key, rows, term);
    let kl = key_lit(key).len() as int;
    let vl = ser_list(sep_comma(), rows).len() as int;
    assert forall|k: int| 0 <= k < u.len() implies s[i + k] == u[k] by {
        lemma_subrange_index(s, i, u, k);
    }
    assert forall|k: int| 0 <= k < kl implies s.subrange(i, i + kl)[k] == key_lit(key)[k] by {
        assert(s.subrange(i, i + kl)[k] == s[i + k]);
        assert(u[k] == (key_lit(key) + ser_list(sep_comma(), rows) + seq![term])[k]);
    }
    assert(s.subrange(i, i + kl) =~= key_lit(key));
    assert(expect_lit(s, i, key_lit(key)) == Some(i + kl));
    let j = i + kl;
    assert forall|k: int| 0 <= k < vl implies s.subrange(j, j + vl)[k] == ser_list(
        sep_comma(),
        rows,
    )[k] by {
        assert(s.subrange(j, j + vl)[k] == s[i + (kl + k)]);
        assert(u[kl + k] == (key_lit(key) + ser_list(sep_comma(), rows) + seq![term])[kl + k]);
    }
    assert(s.subrange(j, j + vl) =~= ser_list(sep_comma(), rows));
    assert(s[j + vl] == term) by {
        assert(u[kl + vl] == (key_lit(key) + ser_list(sep_comma(), rows) + seq![term])[kl + vl]);
    }
    lemma_parse_ser_list::<E>(sep_comma(), rows, s, j);
}

// ------------------------------------------------------------------
// executable wire forms
// ------------------------------------------------------------------

/// The views of the elements of a vector, in order.
pub open spec fn views_of<T: View>(v: Seq<T>) -> Seq<T::V> {
    v.map_values(|t: T| t@)
}

/// A value whose wire form can be written and parsed in executable code,
/// proved to match the canonical form of its view.
pub trait WireExec: View + Sized where <Self as View>::V: WireSpec {
    /// Append the canonical text of this value.
    fn wire_write(&self, out: &mut Vec<char>)
        ensures
            final(out)@ == old(out)@ + self@.wire_ser(),
    ;

    /// Parse a value at `i`, exactly as the view's `wire_parse` does.
    fn wire_parse_exec(s: &Vec<char>, i: usize) -> (r: Option<(Self, usize)>)
        requires
            i <= s@.len(),
        ensures
            match r {
                Some((v, j)) => <Self as View>::V::wire_parse(s@, i as int) == Some(
                    (v@, j as int),
                ) && i < j <= s@.len(),
                None => <Self as View>::V::wire_parse(s@, i as int) is None,
            },
    ;
}

impl WireExec for i32 {
    fn wire_write(&self, out: &mut Vec<char>) {
        write_i32(out, *self);
    }

    fn wire_parse_exec(s: &Vec<char>, i: usize) -> (r: Option<(i32, usize)>) {
        parse_i32(s, i)
    }
}

impl WireExec for bool {
    fn wire_write(&self, out: &mut Vec<char>) {
        write_bool(out, *self);
    }

    fn wire_parse_exec(s: &Vec<char>, i: usize) -> (r: Option<(bool, usize)>) {
        parse_bool(s, i)
    }
}

impl WireExec for String {
    fn wire_write(&self, out: &mut Vec<char>) {
        let cs = crate::text::chars_of(self.as_str());
        write_str(out, &cs);
    }

    fn wire_parse_exec(s: &Vec<char>, i: usize) -> (r: Option<(String, usize)>) {
        match parse_str(s, i) {
            Some((t, j)) => Some((crate::text::string_of(&t), j)),
            None => None,
        }
    }
}

impl WireExec for crate::bean::Etip {
    fn wire_write(&self, out: &mut Vec<char>) {
        write_i32(out, crate::bean::tip_code(*self));
    }

    fn wire_parse_exec(s: &Vec<char>, i: usize) -> (r: Option<(crate::bean::Etip, usize)>) {
        match parse_i32(s, i) {
            Some((c, j)) => match crate::bean::tip_from_code(c) {
                Some(t) => Some((t, j)),
                None => None,
            },
            None => None,
        }
    }
}

impl WireExec for crate::bean::ERaceType {
    fn wire_write(&self, out: &mut Vec<char>) {
        write_i32(out, crate::bean::race_code(*self));
    }

    fn wire_parse_exec(s: &Vec<char>, i: usize) -> (r: Option<(crate::bean::ERaceType, usize)>) {
        match parse_i32(s, i) {
            Some((c, j)) => match crate::bean::race_from_code(c) {
                Some(t) => Some((t, j)),
                None => None,
            },
            None => None,
        }
    }
}

/// Append a copy of `src`.
pub(crate) fn append_copy(out: &mut Vec<char>, src: &Vec<char>)
    ensures
        final(out)@ == old(out)@ + src@,
{
    let mut k: usize = 0;
    while k < src.len()
        invariant
            0 <= k <= src@.len(),
            out@ == old(out)@ + src@.subrange(0, k as int),
        decreases src@.len() - k,
    {
        out.push(src[k]);
        proof {
            assert(old(out)@ + src@.subrange(0, k + 1 as int) =~= (old(out)@ + src@.subrange(
                0,
                k as int,
            )).push(src@[k as int]));
        }
        k += 1;
    }
    proof {
        assert(src@.subrange(0, src@.len() as int) =~= src@);
    }
}

/// Appending an element extends the separated items text at the end.
proof fn lemma_ser_items_snoc<E: WireSpec>(sep: Seq<char>, rows: Seq<E>, v: E)
    ensures
        ser_items(sep, rows.push(v)) == if rows.len() == 0 {
            v.wire_ser()
        } else {
            ser_items(sep, rows) + sep + v.wire_ser()
        },
    decreases rows.len(),
{
    let w = rows.push(v);
    if rows.len() == 0 {
        assert(w.len() == 1);
        assert(w[0] == v);
    } else {
        assert(w[0] == rows[0]);
        assert(w.drop_first() =~= rows.drop_first().push(v));
        lemma_ser_items_snoc(sep, rows.drop_first(), v);
        if rows.len() == 1 {
            assert(rows.drop_first().len() == 0);
            assert(ser_items(sep, rows) == rows[0].wire_ser());
            assert(ser_items(sep, w) == w[0].wire_ser() + sep + ser_items(sep, w.drop_first()));
        } else {
            assert(ser_items(sep, rows) == rows[0].wire_ser() + sep + ser_items(
                sep,
                rows.drop_first(),
            ));
            assert((rows[0].wire_ser() + sep + (ser_items(sep, rows.drop_first()) + sep
                + v.wire_ser())) =~= (rows[0].wire_ser() + sep + ser_items(sep, rows.drop_first()))
                + sep + v.wire_ser());
        }
    }
}

/// Append the canonical text of a whole list of values.
pub(crate) fn write_list_exec<E: WireExec>(out: &mut Vec<char>, items: &Vec<E>, sep: &Vec<char>) where
    <E as View>::V: WireSpec
    ensures
        final(out)@ == old(out)@ + ser_list(sep@, views_of(items@)),
{
    out.push('[');
    let mut k: usize = 0;
    while k < items.len()
        invariant
            0 <= k <= items@.len(),
            out@ == old(out)@ + seq!['['] + ser_items(sep@, views_of(items@).subrange(0, k as int)),
        decreases items@.len() - k,
    {
        let ghost pre = views_of(items@).subrange(0, k as int);
        if k > 0 {
            append_copy(out, sep);
        }
        items[k].wire_write(out);
        proof {
            assert(views_of(items@).subrange(0, k + 1 as int) =~= pre.push(items@[k as int]@));
            lemma_ser_items_snoc(sep@, pre, items@[k as int]@);
            if k == 0 {
                assert(pre.len() == 0);
                assert(out@ =~= old(out)@ + seq!['['] + ser_items(
                    sep@,
                    views_of(items@).subrange(0, k + 1 as int),
                ));
            } else {
                assert(out@ =~= old(out)@ + seq!['['] + (ser_items(sep@, pre) + sep@
                    + items@[k as int]@.wire_ser()));
                assert(out@ =~= old(out)@ + seq!['['] + ser_items(
                    sep@,
                    views_of(items@).subrange(0, k + 1 as int),
                ));
            }
        }
        k += 1;
    }
    out.push(']');
    proof {
        assert(views_of(items@).subrange(0, items@.len() as int) =~= views_of(items@));
        assert(out@ =~= old(out)@ + ser_list(sep@, views_of(items@)));
    }
}

/// Parse a whole list of values at `i`, exactly as [`parse_list`] does.
pub(crate) fn parse_list_exec<E: WireExec>(s: &Vec<char>, i: usize, sep: &Vec<char>) -> (r: Option<
    (Vec<E>, usize),
>) where <E as View>::V: WireSpec
    requires
        i <= s@.len(),
        sep@.len() >= 1,
    ensures
        match r {
            Some((v, j)) => parse_list::<<E as View>::V>(sep@, s@, i as int) == Some(
                (views_of(v@), j as int),
            ) && i < j <= s@.len(),
            None => parse_list::<<E as View>::V>(sep@, s@, i as int) is None,
        },
{
    let ghost gs = s@;
    if i >= s.len() || s[i] != '[' {
        return None;
    }
    if i + 1 < s.len() && s[i + 1] == ']' {
        let acc: Vec<E> = Vec::new();
        proof {
            assert(views_of(acc@) =~= Seq::<<E as View>::V>::empty());
        }
        return Some((acc, i + 2));
    }
    let mut acc: Vec<E> = Vec::new();
    let mut j: usize = i + 1;
    loop
        invariant
            i + 1 <= j <= gs.len(),
            gs == s@,
            sep@.len() >= 1,
            i < gs.len(),
            gs[i as int] == '[',
            !(i + 1 < gs.len() && gs[i + 1] == ']'),
            parse_items::<<E as View>::V>(sep@, gs, i + 1) == (match parse_items::<
                <E as View>::V,
            >(sep@, gs, j as int) {
                Some((rest, e)) => Some((views_of(acc@) + rest, e)),
                None => None,
            }),
        decreases gs.len() - j,
    {
        let ghost old_acc = acc@;
        match E::wire_parse_exec(s, j) {
            None => {
                return None;
            },
            Some((v, j2)) => {
                acc.push(v);
                proof {
                    assert(views_of(acc@) =~= views_of(old_acc).push(v@));
                }
                match match_lit(s, j2, sep) {
                    Some(j3) => {
                        proof {
                            if parse_items::<<E as View>::V>(sep@, gs, j3 as int) is Some {
                                let (rest, e) = parse_items::<<E as View>::V>(
                                    sep@,
                                    gs,
                                    j3 as int,
                                )->Some_0;
                                assert(views_of(old_acc) + (seq![v@] + rest) =~= views_of(acc@)
                                    + rest);
                            }
                        }
                        j = j3;
                    },
                    None => {
                        if j2 < s.len() && s[j2] == ']' {
                            proof {
                                assert(views_of(old_acc) + seq![v@] =~= views_of(acc@));
                            }
                            return Some((acc, j2 + 1));
                        } else {
                            return None;
                        }
                    },
                }
            },
        }
    }
}


// ------------------------------------------------------------------
// embedded concatenations and executable members
// ------------------------------------------------------------------

/// An embedded concatenation embeds each part.
pub proof fn lemma_embed_split(s: Seq<char>, i: int, a: Seq<char>, b: Seq<char>)
    requires
        0 <= i,
        i + a.len() + b.len() <= s.len(),
        s.subrange(i, i + a.len() + b.len()) == a + b,
    ensures
        s.subrange(i, i + a.len()) =~= a,
        s.subrange(i + a.len(), i + a.len() + b.len()) =~= b,
{
    let u = a + b;
    assert forall|k: int| 0 <= k < a.len() implies s.subrange(i, i + a.len())[k] == a[k] by {
        assert(s.subrange(i, i + a.len())[k] == s[i + k]);
        lemma_subrange_index(s, i, u, k);
    }
    assert forall|k: int| 0 <= k < b.len() implies s.subrange(
        i + a.len(),
        i + a.len() + b.len(),
    )[k] == b[k] by {
        assert(s.subrange(i + a.len(), i + a.len() + b.len())[k] == s[i + a.len() + k]);
        lemma_subrange_index(s, i, u, a.len() + k);
    }
}

/// Append one member: key, value, separator.
pub(crate) fn write_mem_exec<E: WireExec>(
    out: &mut Vec<char>,
    kq: &Vec<char>,
    Ghost(key): Ghost<Seq<char>>,
    v: &E,
    term: char,
) where <E as View>::V: WireSpec
    requires
        kq@ == key_lit(key),
    ensures
        final(out)@ == old(out)@ + ser_mem(key, v@, term),
{
    append_copy(out, kq);
    v.wire_write(out);
    out.push(term);
    proof {
        assert(out@ =~= old(out)@ + ser_mem(key, v@, term));
    }
}

/// Parse one member at `i`, exactly as [`parse_mem`] does.
pub(crate) fn parse_mem_exec<E: WireExec>(
    s: &Vec<char>,
    i: usize,
    kq: &Vec<char>,
    Ghost(key): Ghost<Seq<char>>,
    term: char,
) -> (r: Option<(E, usize)>) where <E as View>::V: WireSpec
    requires
        i <= s@.len(),
        kq@ == key_lit(key),
    ensures
        match r {
            Some((v, j)) => parse_mem::<<E as View>::V>(key, term, s@, i as int) == Some(
                (v@, j as int),
            ) && i < j <= s@.len(),
            None => parse_mem::<<E as View>::V>(key, term, s@, i as int) is None,
        },
{
    match match_lit(s, i, kq) {
        None => None,
        Some(j) => match E::wire_parse_exec(s, j) {
            None => None,
            Some((v, k)) => {
                if k < s.len() && s[k] == term {
                    Some((v, k + 1))
                } else {
                    None
                }
            },
        },
    }
}

/// The characters of the inner-list separator.
fn comma_chars() -> (r: Vec<char>)
    ensures
        r@ == sep_comma(),
{
    let mut v: Vec<char> = Vec::new();
    v.push(',');
    proof {
        assert(v@ =~= sep_comma());
    }
    v
}

/// Append one member whose value is a list.
pub(crate) fn write_mem_list_exec<E: WireExec>(
    out: &mut Vec<char>,
    kq: &Vec<char>,
    Ghost(key): Ghost<Seq<char>>,
    items: &Vec<E>,
    term: char,
) where <E as View>::V: WireSpec
    requires
        kq@ == key_lit(key),
    ensures
        final(out)@ == old(out)@ + ser_mem_list(key, views_of(items@), term),
{
    append_copy(out, kq);
    let sep = comma_chars();
    write_list_exec(out, items, &sep);
    out.push(term);
    proof {
        assert(out@ =~= old(out)@ + ser_mem_list(key, views_of(items@), term));
    }
}

/// Parse one list member at `i`, exactly as [`parse_mem_list`] does.
pub(crate) fn parse_mem_list_exec<E: WireExec>(
    s: &Vec<char>,
    i: usize,
    kq: &Vec<char>,
    Ghost(key): Ghost<Seq<char>>,
    term: char,
) -> (r: Option<(Vec<E>, usize)>) where <E as View>::V: WireSpec
    requires
        i <= s@.len(),
        kq@ == key_lit(key),
    ensures
        match r {
            Some((v, j)) => parse_mem_list::<<E as View>::V>(key, term, s@, i as int) == Some(
                (views_of(v@), j as int),
            ) && i < j <= s@.len(),
            None => parse_mem_list::<<E as View>::V>(key, term, s@, i as int) is None,
        },
{
    match match_lit(s, i, kq) {
        None => None,
        Some(j) => {
            let sep = comma_chars();
            match parse_list_exec::<E>(s, j, &sep) {
                None => None,
                Some((v, k)) => {
                    if k < s.len() && s[k] == term {
                        Some((v, k + 1))
                    } else {
                        None
                    }
                },
            }
        },
    }
}


// ------------------------------------------------------------------
// record wire forms
// ------------------------------------------------------------------

impl WireSpec for crate::bean::RaceAttributeV {
    open spec fn wire_ser(self) -> Seq<char> {
        seq!['{'] + (ser_mem("Id"@, self.id, ',') + (ser_mem("Icon"@, self.icon, ',') + (ser_mem("NameID"@, self.name_id, ',') + (ser_mem("DescID"@, self.desc_id, '}')))))
    }

    open spec fn wire_parse(s: Seq<char>, i: int) -> Option<(crate::bean::RaceAttributeV, int)> {
        if !(0 <= i && i < s.len() && s[i] == '{') {
            None
        } else {
            match parse_mem::<i32>("Id"@, ',', s, i + 1) {
                None => None,
                Some((x1, p1)) =>
                match parse_mem::<Seq<char>>("Icon"@, ',', s, p1) {
                    None => None,
                    Some((x2, p2)) =>
                    match parse_mem::<i32>("NameID"@, ',', s, p2) {
                        None => None,
                        Some((x3, p3)) =>
                        match parse_mem::<i32>("DescID"@, '}', s, p3) {
                            None => None,
                            Some((x4, p4)) =>
                            Some((crate::bean::RaceAttributeV { id: x1, icon: x2, name_id: x3, desc_id: x4 }, p4)),
                        },
                    },
                },
            }
        }
    }

    proof fn lemma_wire_roundtrip(v: crate::bean::RaceAttributeV, s: Seq<char>, i: int) {
        let u = v.wire_ser();
        let m1 = ser_mem("Id"@, v.id, ',');
        let m2 = ser_mem("Icon"@, v.icon, ',');
        let m3 = ser_mem("NameID"@, v.name_id, ',');
        let m4 = ser_mem("DescID"@, v.desc_id, '}');
        let t4 = m4;
        let t3 = m3 + t4;
        let t2 = m2 + t3;
        let t1 = m1 + t2;
        assert(u == seq!['{'] + t1);
        lemma_subrange_index(s, i, u, 0);
        assert(u[0] == '{');
        lemma_embed_split(s, i, seq!['{'], t1);
        let p0 = i + 1;
        lemma_embed_split(s, p0, m1, t2);
        lemma_parse_ser_mem::<i32>("Id"@, v.id, ',', s, p0);
        let p1 = p0 + m1.len();
        lemma_embed_split(s, p1, m2, t3);
        lemma_parse_ser_mem::<Seq<char>>("Icon"@, v.icon, ',', s, p1);
        let p2 = p1 + m2.len();
        lemma_embed_split(s, p2, m3, t4);
        lemma_parse_ser_mem::<i32>("NameID"@, v.name_id, ',', s, p2);
        let p3 = p2 + m3.len();
        lemma_parse_ser_mem::<i32>("DescID"@, v.desc_id, '}', s, p3);
        let p4 = p3 + m4.len();
        assert(p4 == i + u.len());
        assert(v == (crate::bean::RaceAttributeV { id: v.id, icon: v.icon, name_id: v.name_id, desc_id: v.desc_id }));
    }
}

impl WireExec for crate::bean::RaceAttribute {
    fn wire_write(&self, out: &mut Vec<char>) {
        out.push('{');
        let kq1 = crate::text::chars_of("\"Id\":");
        proof {
            reveal_strlit("\"Id\":");
            reveal_strlit("Id");
            assert(kq1@ =~= key_lit("Id"@));
        }
        write_mem_exec(out, &kq1, Ghost("Id"@), &self.id, ',');
        let kq2 = crate::text::chars_of("\"Icon\":");
        proof {
            reveal_strlit("\"Icon\":");
            reveal_strlit("Icon");
            assert(kq2@ =~= key_lit("Icon"@));
        }
        write_mem_exec(out, &kq2, Ghost("Icon"@), &self.icon, ',');
        let kq3 = crate::text::chars_of("\"NameID\":");
        proof {
            reveal_strlit("\"NameID\":");
            reveal_strlit("NameID");
            assert(kq3@ =~= key_lit("NameID"@));
        }
        write_mem_exec(out, &kq3, Ghost("NameID"@), &self.name_id, ',');
        let kq4 = crate::text::chars_of("\"DescID\":");
        proof {
            reveal_strlit("\"DescID\":");
            reveal_strlit("DescID");
            assert(kq4@ =~= key_lit("DescID"@));
        }
        write_mem_exec(out, &kq4, Ghost("DescID"@), &self.desc_id, '}');
        proof {
            assert(out@ =~= old(out)@ + self@.wire_ser());
        }
    }

    fn wire_parse_exec(s: &Vec<char>, i: usize) -> (r: Option<(crate::bean::RaceAttribute, usize)>) {
        if i >= s.len() || s[i] != '{' {
            return None;
        }
        let kq1 = crate::text::chars_of("\"Id\":");
        proof {
            reveal_strlit("\"Id\":");
            reveal_strlit("Id");
            assert(kq1@ =~= key_lit("Id"@));
        }
        let (x1, p1) = match parse_mem_exec::<i32>(s, i + 1, &kq1, Ghost("Id"@), ',') {
            None => {
                return None;
            },
            Some(x) => x,
        };
        let kq2 = crate::text::chars_of("\"Icon\":");
        proof {
            reveal_strlit("\"Icon\":");
            reveal_strlit("Icon");
            assert(kq2@ =~= key_lit("Icon"@));
        }
        let (x2, p2) = match parse_mem_exec::<String>(s, p1, &kq2, Ghost("Icon"@), ',') {
            None => {
                return None;
            },
            Some(x) => x,
        };
        let kq3 = crate::text::chars_of("\"NameID\":");
        proof {
            reveal_strlit("\"NameID\":");
            reveal_strlit("NameID");
            assert(kq3@ =~= key_lit("NameID"@));
        }
        let (x3, p3) = match parse_mem_exec::<i32>(s, p2, &kq3, Ghost("NameID"@), ',') {
            None => {
                return None;
            },
            Some(x) => x,
        };
        let kq4 = crate::text::chars_of("\"DescID\":");
        proof {
            reveal_strlit("\"DescID\":");
            reveal_strlit("DescID");
            assert(kq4@ =~= key_lit("DescID"@));
        }
        let (x4, p4) = match parse_mem_exec::<i32>(s, p3, &kq4, Ghost("DescID"@), '}') {
            None => {
                return None;
            },
            Some(x) => x,
        };
        let rec = crate::bean::RaceAttribute { id: x1, icon: x2, name_id: x3, desc_id: x4 };
        proof {
            assert(<crate::bean::RaceAttribute as View>::V::wire_parse(s@, i as int) == Some((rec@, p4 as int)));
        }
        Some((rec, p4))
    }
}

impl WireSpec for crate::bean::ElementAttribute {
    open spec fn wire_ser(self) -> Seq<char> {
        seq!['{'] + (ser_mem("Id"@, self.id, ',') + (ser_mem("Value"@, self.value, '}')))
    }

    open spec fn wire_parse(s: Seq<char>, i: int) -> Option<(crate::bean::ElementAttribute, int)> {
        if !(0 <= i && i < s.len() && s[i] == '{') {
            None
        } else {
            match parse_mem::<i32>("Id"@, ',', s, i + 1) {
                None => None,
                Some((x1, p1)) =>
                match parse_mem::<i32>("Value"@, '}', s, p1) {
                    None => None,
                    Some((x2, p2)) =>
                    Some((crate::bean::ElementAttribute { id: x1, value: x2 }, p2)),
                },
            }
        }
    }

    proof fn lemma_wire_roundtrip(v: crate::bean::ElementAttribute, s: Seq<char>, i: int) {
        let u = v.wire_ser();
        let m1 = ser_mem("Id"@, v.id, ',');
        let m2 = ser_mem("Value"@, v.value, '}');
        let t2 = m2;
        let t1 = m1 + t2;
        assert(u == seq!['{'] + t1);
        lemma_subrange_index(s, i, u, 0);
        assert(u[0] == '{');
        lemma_embed_split(s, i, seq!['{'], t1);
        let p0 = i + 1;
        lemma_embed_split(s, p0, m1, t2);
        lemma_parse_ser_mem::<i32>("Id"@, v.id, ',', s, p0);
        let p1 = p0 + m1.len();
        lemma_parse_ser_mem::<i32>("Value"@, v.value, '}', s, p1);
        let p2 = p1 + m2.len();
        assert(p2 == i + u.len());
        assert(v == (crate::bean::ElementAttribute { id: v.id, value: v.value }));
    }
}

impl WireExec for crate::bean::ElementAttribute {
    fn wire_write(&self, out: &mut Vec<char>) {
        out.push('{');
        let kq1 = crate::text::chars_of("\"Id\":");
        proof {
            reveal_strlit("\"Id\":");
            reveal_strlit("Id");
            assert(kq1@ =~= key_lit("Id"@));
        }
        write_mem_exec(out, &kq1, Ghost("Id"@), &self.id, ',');
        let kq2 = crate::text::chars_of("\"Value\":");
        proof {
            reveal_strlit("\"Value\":");
            reveal_strlit("Value");
            assert(kq2@ =~= key_lit("Value"@));
        }
        write_mem_exec(out, &kq2, Ghost("Value"@), &self.value, '}');
        proof {
            assert(out@ =~= old(out)@ + self@.wire_ser());
        }
    }

    fn wire_parse_exec(s: &Vec<char>, i: usize) -> (r: Option<(crate::bean::ElementAttribute, usize)>) {
        if i >= s.len() || s[i] != '{' {
            return None;
        }
        let kq1 = crate::text::chars_of("\"Id\":");
        proof {
            reveal_strlit("\"Id\":");
            reveal_strlit("Id");
            assert(kq1@ =~= key_lit("Id"@));
        }
        let (x1, p1) = match parse_mem_exec::<i32>(s, i + 1, &kq1, Ghost("Id"@), ',') {
            None => {
                return None;
            },
            Some(x) => x,
        };
        let kq2 = crate::text::chars_of("\"Value\":");
        proof {
            reveal_strlit("\"Value\":");
            reveal_strlit("Value");
            assert(kq2@ =~= key_lit("Value"@));
        }
        let (x2, p2) = match parse_mem_exec::<i32>(s, p1, &kq2, Ghost("Value"@), '}') {
            None => {
                return None;
            },
            Some(x) => x,
        };
        let rec = crate::bean::ElementAttribute { id: x1, value: x2 };
        proof {
            assert(<crate::bean::ElementAttribute as View>::V::wire_parse(s@, i as int) == Some((rec@, p2 as int)));
        }
        Some((rec, p2))
    }
}

impl WireSpec for crate::bean::TriggerValueV {
    open spec fn wire_ser(self) -> Seq<char> {
        seq!['{'] + (ser_mem_list("Value"@, self.value, '}'))
    }

    open spec fn wire_parse(s: Seq<char>, i: int) -> Option<(crate::bean::TriggerValueV, int)> {
        if !(0 <= i && i < s.len() && s[i] == '{') {
            None
        } else {
            match parse_mem_list::<i32>("Value"@, '}', s, i + 1) {
                None => None,
                Some((x1, p1)) =>
                Some((crate::bean::TriggerValueV { value: x1 }, p1)),
            }
        }
    }

    proof fn lemma_wire_roundtrip(v: crate::bean::TriggerValueV, s: Seq<char>, i: int) {
        let u = v.wire_ser();
        let m1 = ser_mem_list("Value"@, v.value, '}');
        let t1 = m1;
        assert(u == seq!['{'] + t1);
        lemma_subrange_index(s, i, u, 0);
        assert(u[0] == '{');
        lemma_embed_split(s, i, seq!['{'], t1);
        let p0 = i + 1;
        lemma_parse_ser_mem_list::<i32>("Value"@, v.value, '}', s, p0);
        let p1 = p0 + m1.len();
        assert(p1 == i + u.len());
        assert(v == (crate::bean::TriggerValueV { value: v.value }));
    }
}

impl WireExec for crate::bean::ElementTriggerValue {
    fn wire_write(&self, out: &mut Vec<char>) {
        out.push('{');
        let kq1 = crate::text::chars_of("\"Value\":");
        proof {
            reveal_strlit("\"Value\":");
            reveal_strlit("Value");
            assert(kq1@ =~= key_lit("Value"@));
        }
        write_mem_list_exec(out, &kq1, Ghost("Value"@), &self.value, '}');
        proof {
            assert(views_of(self.value@) =~= self@.value);
            assert(out@ =~= old(out)@ + self@.wire_ser());
        }
    }

    fn wire_parse_exec(s: &Vec<char>, i: usize) -> (r: Option<(crate::bean::ElementTriggerValue, usize)>) {
        if i >= s.len() || s[i] != '{' {
            return None;
        }
        let kq1 = crate::text::chars_of("\"Value\":");
        proof {
            reveal_strlit("\"Value\":");
            reveal_strlit("Value");
            assert(kq1@ =~= key_lit("Value"@));
        }
        let (x1, p1) = match parse_mem_list_exec::<i32>(s, i + 1, &kq1, Ghost("Value"@), '}') {
            None => {
                return None;
            },
            Some(x) => x,
        };
        let rec = crate::bean::ElementTriggerValue { value: x1 };
        proof {
            assert(views_of(x1@) =~= rec@.value);
            assert(<crate::bean::ElementTriggerValue as View>::V::wire_parse(s@, i as int) == Some((rec@, p1 as int)));
        }
        Some((rec, p1))
    }
}

impl WireSpec for crate::bean::LocalizationV {
    open spec fn wire_ser(self) -> Seq<char> {
        seq!['{'] + (ser_mem("Id"@, self.id, ',') + (ser_mem("Cn"@, self.cn, ',') + (ser_mem("En"@, self.en, ',') + (ser_mem("Jp"@, self.jp, ',') + (ser_mem("Cnt"@, self.cnt, '}'))))))
    }

    open spec fn wire_parse(s: Seq<char>, i: int) -> Option<(crate::bean::LocalizationV, int)> {
        if !(0 <= i && i < s.len() && s[i] == '{') {
            None
        } else {
            match parse_mem::<i32>("Id"@, ',', s, i + 1) {
                None => None,
                Some((x1, p1)) =>
                match parse_mem::<Seq<char>>("Cn"@, ',', s, p1) {
                    None => None,
                    Some((x2, p2)) =>
                    match parse_mem::<Seq<char>>("En"@, ',', s, p2) {
                        None => None,
                        Some((x3, p3)) =>
                        match parse_mem::<Seq<char>>("Jp"@, ',', s, p3) {
                            None => None,
                            Some((x4, p4)) =>
                            match parse_mem::<Seq<char>>("Cnt"@, '}', s, p4) {
                                None => None,
                                Some((x5, p5)) =>
                                Some((crate::bean::LocalizationV { id: x1, cn: x2, en: x3, jp: x4, cnt: x5 }, p5)),
                            },
                        },
                    },
                },
            }
        }
    }

    #[verifier::spinoff_prover]
    #[verifier::rlimit(100)]
    proof fn lemma_wire_roundtrip(v: crate::bean::LocalizationV, s: Seq<char>, i: int) {
        let u = v.wire_ser();
        let m1 = ser_mem("Id"@, v.id, ',');
        let m2 = ser_mem("Cn"@, v.cn, ',');
        let m3 = ser_mem("En"@, v.en, ',');
        let m4 = ser_mem("Jp"@, v.jp, ',');
        let m5 = ser_mem("Cnt"@, v.cnt, '}');
        let t5 = m5;
        let t4 = m4 + t5;
        let t3 = m3 + t4;
        let t2 = m2 + t3;
        let t1 = m1 + t2;
        assert(u == seq!['{'] + t1);
        lemma_subrange_index(s, i, u, 0);
        assert(u[0] == '{');
        lemma_embed_split(s, i, seq!['{'], t1);
        let p0 = i + 1;
        lemma_embed_split(s, p0, m1, t2);
        lemma_parse_ser_mem::<i32>("Id"@, v.id, ',', s, p0);
        let p1 = p0 + m1.len();
        lemma_embed_split(s, p1, m2, t3);
        lemma_parse_ser_mem::<Seq<char>>("Cn"@, v.cn, ',', s, p1);
        let p2 = p1 + m2.len();
        lemma_embed_split(s, p2, m3, t4);
        lemma_parse_ser_mem::<Seq<char>>("En"@, v.en, ',', s, p2);
        let p3 = p2 + m3.len();
        lemma_embed_split(s, p3, m4, t5);
        lemma_parse_ser_mem::<Seq<char>>("Jp"@, v.jp, ',', s, p3);
        let p4 = p3 + m4.len();
        lemma_parse_ser_mem::<Seq<char>>("Cnt"@, v.cnt, '}', s, p4);
        let p5 = p4 + m5.len();
        assert(p5 == i + u.len());
        assert(v == (crate::bean::LocalizationV { id: v.id, cn: v.cn, en: v.en, jp: v.jp, cnt: v.cnt }));
    }
}

impl WireExec for crate::bean::Localization {
    #[verifier::spinoff_prover]
    #[verifier::rlimit(100)]
    fn wire_write(&self, out: &mut Vec<char>) {
        out.push('{');
        let kq1 = crate::text::chars_of("\"Id\":");
        proof {
            reveal_strlit("\"Id\":");
            reveal_strlit("Id");
            assert(kq1@ =~= key_lit("Id"@));
        }
        write_mem_exec(out, &kq1, Ghost("Id"@), &self.id, ',');
        let kq2 = crate::text::chars_of("\"Cn\":");
        proof {
            reveal_strlit("\"Cn\":");
            reveal_strlit("Cn");
            assert(kq2@ =~= key_lit("Cn"@));
        }
        write_mem_exec(out, &kq2, Ghost("Cn"@), &self.cn, ',');
        let kq3 = crate::text::chars_of("\"En\":");
        proof {
            reveal_strlit("\"En\":");
            reveal_strlit("En");
            assert(kq3@ =~= key_lit("En"@));
        }
        write_mem_exec(out, &kq3, Ghost("En"@), &self.en, ',');
        let kq4 = crate::text::chars_of("\"Jp\":");
        proof {
            reveal_strlit("\"Jp\":");
            reveal_strlit("Jp");
            assert(kq4@ =~= key_lit("Jp"@));
        }
        write_mem_exec(out, &kq4, Ghost("Jp"@), &self.jp, ',');
        let kq5 = crate::text::chars_of("\"Cnt\":");
        proof {
            reveal_strlit("\"Cnt\":");
            reveal_strlit("Cnt");
            assert(kq5@ =~= key_lit("Cnt"@));
        }
        write_mem_exec(out, &kq5, Ghost("Cnt"@), &self.cnt, '}');
        proof {
            assert(out@ =~= old(out)@ + self@.wire_ser());
        }
    }

    #[verifier::spinoff_prover]
    #[verifier::rlimit(100)]
    fn wire_parse_exec(s: &Vec<char>, i: usize) -> (r: Option<(crate::bean::Localization, usize)>) {
        if i >= s.len() || s[i] != '{' {
            return None;
        }
        let kq1 = crate::text::chars_of("\"Id\":");
        proof {
            reveal_strlit("\"Id\":");
            reveal_strlit("Id");
            assert(kq1@ =~= key_lit("Id"@));
        }
        let (x1, p1) = match parse_mem_exec::<i32>(s, i + 1, &kq1, Ghost("Id"@), ',') {
            None => {
                return None;
            },
            Some(x) => x,
        };
        let kq2 = crate::text::chars_of("\"Cn\":");
        proof {
            reveal_strlit("\"Cn\":");
            reveal_strlit("Cn");
            assert(kq2@ =~= key_lit("Cn"@));
        }
        let (x2, p2) = match parse_mem_exec::<String>(s, p1, &kq2, Ghost("Cn"@), ',') {
            None => {
                return None;
            },
            Some(x) => x,
        };
        let kq3 = crate::text::chars_of("\"En\":");
        proof {
            reveal_strlit("\"En\":");
            reveal_strlit("En");
            assert(kq3@ =~= key_lit("En"@));
        }
        let (x3, p3) = match parse_mem_exec::<String>(s, p2, &kq3, Ghost("En"@), ',') {
            None => {
                return None;
            },
            Some(x) => x,
        };
        let kq4 = crate::text::chars_of("\"Jp\":");
        proof {
            reveal_strlit("\"Jp\":");
            reveal_strlit("Jp");
            assert(kq4@ =~= key_lit("Jp"@));
        }
        let (x4, p4) = match parse_mem_exec::<String>(s, p3, &kq4, Ghost("Jp"@), ',') {
            None => {
                return None;
            },
            Some(x) => x,
        };
        let kq5 = crate::text::chars_of("\"Cnt\":");
        proof {
            reveal_strlit("\"Cnt\":");
            reveal_strlit("Cnt");
            assert(kq5@ =~= key_lit("Cnt"@));
        }
        let (x5, p5) = match parse_mem_exec::<String>(s, p4, &kq5, Ghost("Cnt"@), '}') {
            None => {
                return None;
            },
            Some(x) => x,
        };
        let rec = crate::bean::Localization { id: x1, cn: x2, en: x3, jp: x4, cnt: x5 };
        proof {
            assert(<crate::bean::Localization as View>::V::wire_parse(s@, i as int) == Some((rec@, p5 as int)));
        }
        Some((rec, p5))
    }
}

impl WireSpec for crate::bean::ModDataV {
    open spec fn wire_ser(self) -> Seq<char> {
        seq!['{'] + (ser_mem("ModName"@, self.name, ',') + (ser_mem("ModDesc"@, self.desc, ',') + (ser_mem("EntityMod"@, self.entity, ',') + (ser_mem("EnemyMod"@, self.enemy, ',') + (ser_mem("Version"@, self.version, ',') + (ser_mem("CardMod"@, self.card, '}')))))))
    }

    open spec fn wire_parse(s: Seq<char>, i: int) -> Option<(crate::bean::ModDataV, int)> {
        if !(0 <= i && i < s.len() && s[i] == '{') {
            None
        } else {
            match parse_mem::<Seq<char>>("ModName"@, ',', s, i + 1) {
                None => None,
                Some((x1, p1)) =>
                match parse_mem::<Seq<char>>("ModDesc"@, ',', s, p1) {
                    None => None,
                    Some((x2, p2)) =>
                    match parse_mem::<bool>("EntityMod"@, ',', s, p2) {
                        None => None,
                        Some((x3, p3)) =>
                        match parse_mem::<bool>("EnemyMod"@, ',', s, p3) {
                            None => None,
                            Some((x4, p4)) =>
                            match parse_mem::<Seq<char>>("Version"@, ',', s, p4) {
                                None => None,
                                Some((x5, p5)) =>
                                match parse_mem::<bool>("CardMod"@, '}', s, p5) {
                                    None => None,
                                    Some((x6, p6)) =>
                                    Some((crate::bean::ModDataV { name: x1, desc: x2, entity: x3, enemy: x4, version: x5, card: x6 }, p6)),
                                },
                            },
                        },
                    },
                },
            }
        }
    }

    #[verifier::spinoff_prover]
    #[verifier::rlimit(100)]
    proof fn lemma_wire_roundtrip(v: crate::bean::ModDataV, s: Seq<char>, i: int) {
        let u = v.wire_ser();
        let m1 = ser_mem("ModName"@, v.name, ',');
        let m2 = ser_mem("ModDesc"@, v.desc, ',');
        let m3 = ser_mem("EntityMod"@, v.entity, ',');
        let m4 = ser_mem("EnemyMod"@, v.enemy, ',');
        let m5 = ser_mem("Version"@, v.version, ',');
        let m6 = ser_mem("CardMod"@, v.card, '}');
        let t6 = m6;
        let t5 = m5 + t6;
        let t4 = m4 + t5;
        let t3 = m3 + t4;
        let t2 = m2 + t3;
        let t1 = m1 + t2;
        assert(u == seq!['{'] + t1);
        lemma_subrange_index(s, i, u, 0);
        assert(u[0] == '{');
        lemma_embed_split(s, i, seq!['{'], t1);
        let p0 = i + 1;
        lemma_embed_split(s, p0, m1, t2);
        lemma_parse_ser_mem::<Seq<char>>("ModName"@, v.name, ',', s, p0);
        let p1 = p0 + m1.len();
        lemma_embed_split(s, p1, m2, t3);
        lemma_parse_ser_mem::<Seq<char>>("ModDesc"@, v.desc, ',', s, p1);
        let p2 = p1 + m2.len();
        lemma_embed_split(s, p2, m3, t4);
        lemma_parse_ser_mem::<bool>("EntityMod"@, v.entity, ',', s, p2);
        let p3 = p2 + m3.len();
        lemma_embed_split(s, p3, m4, t5);
        lemma_parse_ser_mem::<bool>("EnemyMod"@, v.enemy, ',', s, p3);
        let p4 = p3 + m4.len();
        lemma_embed_split(s, p4, m5, t6);
        lemma_parse_ser_mem::<Seq<char>>("Version"@, v.version, ',', s, p4);
        let p5 = p4 + m5.len();
        lemma_parse_ser_mem::<bool>("CardMod"@, v.card, '}', s, p5);
        let p6 = p5 + m6.len();
        assert(p6 == i + u.len());
        assert(v == (crate::bean::ModDataV { name: v.name, desc: v.desc, entity: v.entity, enemy: v.enemy, version: v.version, card: v.card }));
    }
}

impl WireExec for crate::bean::ModData {
    #[verifier::spinoff_prover]
    #[verifier::rlimit(100)]
    fn wire_write(&self, out: &mut Vec<char>) {
        out.push('{');
        let kq1 = crate::text::chars_of("\"ModName\":");
        proof {
            reveal_strlit("\"ModName\":");
            reveal_strlit("ModName");
            assert(kq1@ =~= key_lit("ModName"@));
        }
        write_mem_exec(out, &kq1, Ghost("ModName"@), &self.name, ',');
        let kq2 = crate::text::chars_of("\"ModDesc\":");
        proof {
            reveal_strlit("\"ModDesc\":");
            reveal_strlit("ModDesc");
            assert(kq2@ =~= key_lit("ModDesc"@));
        }
        write_mem_exec(out, &kq2, Ghost("ModDesc"@), &self.desc, ',');
        let kq3 = crate::text::chars_of("\"EntityMod\":");
        proof {
            reveal_strlit("\"EntityMod\":");
            reveal_strlit("EntityMod");
            assert(kq3@ =~= key_lit("EntityMod"@));
        }
        write_mem_exec(out, &kq3, Ghost("EntityMod"@), &self.entity, ',');
        let kq4 = crate::text::chars_of("\"EnemyMod\":");
        proof {
            reveal_strlit("\"EnemyMod\":");
            reveal_strlit("EnemyMod");
            assert(kq4@ =~= key_lit("EnemyMod"@));
        }
        write_mem_exec(out, &kq4, Ghost("EnemyMod"@), &self.enemy, ',');
        let kq5 = crate::text::chars_of("\"Version\":");
        proof {
            reveal_strlit("\"Version\":");
            reveal_strlit("Version");
            assert(kq5@ =~= key_lit("Version"@));
        }
        write_mem_exec(out, &kq5, Ghost("Version"@), &self.version, ',');
        let kq6 = crate::text::chars_of("\"CardMod\":");
        proof {
            reveal_strlit("\"CardMod\":");
            reveal_strlit("CardMod");
            assert(kq6@ =~= key_lit("CardMod"@));
        }
        write_mem_exec(out, &kq6, Ghost("CardMod"@), &self.card, '}');
        proof {
            assert(out@ =~= old(out)@ + self@.wire_ser());
        }
    }

    #[verifier::spinoff_prover]
    #[verifier::rlimit(100)]
    fn wire_parse_exec(s: &Vec<char>, i: usize) -> (r: Option<(crate::bean::ModData, usize)>) {
        if i >= s.len() || s[i] != '{' {
            return None;
        }
        let kq1 = crate::text::chars_of("\"ModName\":");
        proof {
            reveal_strlit("\"ModName\":");
            reveal_strlit("ModName");
            assert(kq1@ =~= key_lit("ModName"@));
        }
        let (x1, p1) = match parse_mem_exec::<String>(s, i + 1, &kq1, Ghost("ModName"@), ',') {
            None => {
                return None;
            },
            Some(x) => x,
        };
        let kq2 = crate::text::chars_of("\"ModDesc\":");
        proof {
            reveal_strlit("\"ModDesc\":");
            reveal_strlit("ModDesc");
            assert(kq2@ =~= key_lit("ModDesc"@));
        }
        let (x2, p2) = match parse_mem_exec::<String>(s, p1, &kq2, Ghost("ModDesc"@), ',') {
            None => {
                return None;
            },
            Some(x) => x,
        };
        let kq3 = crate::text::chars_of("\"EntityMod\":");
        proof {
            reveal_strlit("\"EntityMod\":");
            reveal_strlit("EntityMod");
            assert(kq3@ =~= key_lit("EntityMod"@));
        }
        let (x3, p3) = match parse_mem_exec::<bool>(s, p2, &kq3, Ghost("EntityMod"@), ',') {
            None => {
                return None;
            },
            Some(x) => x,
        };
        let kq4 = crate::text::chars_of("\"EnemyMod\":");
        proof {
            reveal_strlit("\"EnemyMod\":");
            reveal_strlit("EnemyMod");
            assert(kq4@ =~= key_lit("EnemyMod"@));
        }
        let (x4, p4) = match parse_mem_exec::<bool>(s, p3, &kq4, Ghost("EnemyMod"@), ',') {
            None => {
                return None;
            },
            Some(x) => x,
        };
        let kq5 = crate::text::chars_of("\"Version\":");
        proof {
            reveal_strlit("\"Version\":");
            reveal_strlit("Version");
            assert(kq5@ =~= key_lit("Version"@));
        }
        let (x5, p5) = match parse_mem_exec::<String>(s, p4, &kq5, Ghost("Version"@), ',') {
            None => {
                return None;
            },
            Some(x) => x,
        };
        let kq6 = crate::text::chars_of("\"CardMod\":");
        proof {
            reveal_strlit("\"CardMod\":");
            reveal_strlit("CardMod");
            assert(kq6@ =~= key_lit("CardMod"@));
        }
        let (x6, p6) = match parse_mem_exec::<bool>(s, p5, &kq6, Ghost("CardMod"@), '}') {
            None => {
                return None;
            },
            Some(x) => x,
        };
        let rec = crate::bean::ModData { name: x1, desc: x2, entity: x3, enemy: x4, version: x5, card: x6 };
        proof {
            assert(<crate::bean::ModData as View>::V::wire_parse(s@, i as int) == Some((rec@, p6 as int)));
        }
        Some((rec, p6))
    }
}

/// Parse members of an enemy record (part 1).
pub open spec fn parse_enemy_part1(s: Seq<char>, i: int) -> Option<((i32, Seq<char>, i32, i32, i32, i32), int)> {
    match parse_mem::<i32>("Id"@, ',', s, i) {
        None => None,
        Some((x1, p1)) =>
        match parse_mem::<Seq<char>>("Icon"@, ',', s, p1) {
            None => None,
            Some((x2, p2)) =>
            match parse_mem::<i32>("NameId"@, ',', s, p2) {
                None => None,
                Some((x3, p3)) =>
                match parse_mem::<i32>("DescId"@, ',', s, p3) {
                    None => None,
                    Some((x4, p4)) =>
                    match parse_mem::<i32>("Map"@, ',', s, p4) {
                        None => None,
                        Some((x5, p5)) =>
                        match parse_mem::<i32>("Level"@, ',', s, p5) {
                            None => None,
                            Some((x6, p6)) =>
                            Some(((x1, x2, x3, x4, x5, x6), p6)),
                        },
                    },
                },
            },
        },
    }
}

/// Parse members of an enemy record (part 2).
pub open spec fn parse_enemy_part2(s: Seq<char>, i: int) -> Option<((i32, i32, i32, i32, i32, i32), int)> {
    match parse_mem::<i32>("Boss"@, ',', s, i) {
        None => None,
        Some((x1, p1)) =>
        match parse_mem::<i32>("Hp"@, ',', s, p1) {
            None => None,
            Some((x2, p2)) =>
            match parse_mem::<i32>("Attack"@, ',', s, p2) {
                None => None,
                Some((x3, p3)) =>
                match parse_mem::<i32>("UpgradeAttack"@, ',', s, p3) {
                    None => None,
                    Some((x4, p4)) =>
                    match parse_mem::<i32>("EndlessHp"@, ',', s, p4) {
                        None => None,
                        Some((x5, p5)) =>
                        match parse_mem::<i32>("EndlessAttack"@, ',', s, p5) {
                            None => None,
                            Some((x6, p6)) =>
                            Some(((x1, x2, x3, x4, x5, x6), p6)),
                        },
                    },
                },
            },
        },
    }
}

/// Parse members of an enemy record (part 3).
pub open spec fn parse_enemy_part3(s: Seq<char>, i: int) -> Option<((i32, i32, i32, i32, i32), int)> {
    match parse_mem::<i32>("EndlessUpgrade"@, ',', s, i) {
        None => None,
        Some((x1, p1)) =>
        match parse_mem::<i32>("Gold"@, ',', s, p1) {
            None => None,
            Some((x2, p2)) =>
            match parse_mem::<i32>("GoldMax"@, ',', s, p2) {
                None => None,
                Some((x3, p3)) =>
                match parse_mem::<i32>("AttackSound"@, ',', s, p3) {
                    None => None,
                    Some((x4, p4)) =>
                    match parse_mem::<i32>("ShowSound"@, '}', s, p4) {
                        None => None,
                        Some((x5, p5)) =>
                        Some(((x1, x2, x3, x4, x5), p5)),
                    },
                },
            },
        },
    }
}

/// Part 1 of the enemy record reads back its canonical text.
#[verifier::spinoff_prover]
#[verifier::rlimit(100)]
proof fn lemma_enemy_part1(v: crate::bean::EnemyV, s: Seq<char>, p: int)
    requires
        0 <= p,
        p + (ser_mem("Id"@, v.id, ',') + (ser_mem("Icon"@, v.icon, ',') + (ser_mem("NameId"@, v.name_id, ',') + (ser_mem("DescId"@, v.desc_id, ',') + (ser_mem("Map"@, v.map, ',') + (ser_mem("Level"@, v.level, ','))))))).len() <= s.len(),
        s.subrange(p, p + (ser_mem("Id"@, v.id, ',') + (ser_mem("Icon"@, v.icon, ',') + (ser_mem("NameId"@, v.name_id, ',') + (ser_mem("DescId"@, v.desc_id, ',') + (ser_mem("Map"@, v.map, ',') + (ser_mem("Level"@, v.level, ','))))))).len()) == ser_mem("Id"@, v.id, ',') + (ser_mem("Icon"@, v.icon, ',') + (ser_mem("NameId"@, v.name_id, ',') + (ser_mem("DescId"@, v.desc_id, ',') + (ser_mem("Map"@, v.map, ',') + (ser_mem("Level"@, v.level, ',')))))),
    ensures
        parse_enemy_part1(s, p) == Some(((v.id, v.icon, v.name_id, v.desc_id, v.map, v.level), p + (ser_mem("Id"@, v.id, ',') + (ser_mem("Icon"@, v.icon, ',') + (ser_mem("NameId"@, v.name_id, ',') + (ser_mem("DescId"@, v.desc_id, ',') + (ser_mem("Map"@, v.map, ',') + (ser_mem("Level"@, v.level, ','))))))).len())),
{
        let m1 = ser_mem("Id"@, v.id, ',');
        let m2 = ser_mem("Icon"@, v.icon, ',');
        let m3 = ser_mem("NameId"@, v.name_id, ',');
        let m4 = ser_mem("DescId"@, v.desc_id, ',');
        let m5 = ser_mem("Map"@, v.map, ',');
        let m6 = ser_mem("Level"@, v.level, ',');
        let t6 = m6;
        let t5 = m5 + t6;
        let t4 = m4 + t5;
        let t3 = m3 + t4;
        let t2 = m2 + t3;
        let t1 = m1 + t2;
        let p0 = p;
        lemma_embed_split(s, p0, m1, t2);
        lemma_parse_ser_mem::<i32>("Id"@, v.id, ',', s, p0);
        let p1 = p0 + m1.len();
        lemma_embed_split(s, p1, m2, t3);
        lemma_parse_ser_mem::<Seq<char>>("Icon"@, v.icon, ',', s, p1);
        let p2 = p1 + m2.len();
        lemma_embed_split(s, p2, m3, t4);
        lemma_parse_ser_mem::<i32>("NameId"@, v.name_id, ',', s, p2);
        let p3 = p2 + m3.len();
        lemma_embed_split(s, p3, m4, t5);
        lemma_parse_ser_mem::<i32>("DescId"@, v.desc_id, ',', s, p3);
        let p4 = p3 + m4.len();
        lemma_embed_split(s, p4, m5, t6);
        lemma_parse_ser_mem::<i32>("Map"@, v.map, ',', s, p4);
        let p5 = p4 + m5.len();
        lemma_parse_ser_mem::<i32>("Level"@, v.level, ',', s, p5);
        let p6 = p5 + m6.len();
}

/// Part 2 of the enemy record reads back its canonical text.
#[verifier::spinoff_prover]
#[verifier::rlimit(100)]
proof fn lemma_enemy_part2(v: crate::bean::EnemyV, s: Seq<char>, p: int)
    requires
        0 <= p,
        p + (ser_mem("Boss"@, v.boss, ',') + (ser_mem("Hp"@, v.hp, ',') + (ser_mem("Attack"@, v.attack, ',') + (ser_mem("UpgradeAttack"@, v.upgrade_attack, ',') + (ser_mem("EndlessHp"@, v.endless_hp, ',') + (ser_mem("EndlessAttack"@, v.endless_attack, ','))))))).len() <= s.len(),
        s.subrange(p, p + (ser_mem("Boss"@, v.boss, ',') + (ser_mem("Hp"@, v.hp, ',') + (ser_mem("Attack"@, v.attack, ',') + (ser_mem("UpgradeAttack"@, v.upgrade_attack, ',') + (ser_mem("EndlessHp"@, v.endless_hp, ',') + (ser_mem("EndlessAttack"@, v.endless_attack, ','))))))).len()) == ser_mem("Boss"@, v.boss, ',') + (ser_mem("Hp"@, v.hp, ',') + (ser_mem("Attack"@, v.attack, ',') + (ser_mem("UpgradeAttack"@, v.upgrade_attack, ',') + (ser_mem("EndlessHp"@, v.endless_hp, ',') + (ser_mem("EndlessAttack"@, v.endless_attack, ',')))))),
    ensures
        parse_enemy_part2(s, p) == Some(((v.boss, v.hp, v.attack, v.upgrade_attack, v.endless_hp, v.endless_attack), p + (ser_mem("Boss"@, v.boss, ',') + (ser_mem("Hp"@, v.hp, ',') + (ser_mem("Attack"@, v.attack, ',') + (ser_mem("UpgradeAttack"@, v.upgrade_attack, ',') + (ser_mem("EndlessHp"@, v.endless_hp, ',') + (ser_mem("EndlessAttack"@, v.endless_attack, ','))))))).len())),
{
        let m1 = ser_mem("Boss"@, v.boss, ',');
        let m2 = ser_mem("Hp"@, v.hp, ',');
        let m3 = ser_mem("Attack"@, v.attack, ',');
        let m4 = ser_mem("UpgradeAttack"@, v.upgrade_attack, ',');
        let m5 = ser_mem("EndlessHp"@, v.endless_hp, ',');
        let m6 = ser_mem("EndlessAttack"@, v.endless_attack, ',');
        let t6 = m6;
        let t5 = m5 + t6;
        let t4 = m4 + t5;
        let t3 = m3 + t4;
        let t2 = m2 + t3;
        let t1 = m1 + t2;
        let p0 = p;
        lemma_embed_split(s, p0, m1, t2);
        lemma_parse_ser_mem::<i32>("Boss"@, v.boss, ',', s, p0);
        let p1 = p0 + m1.len();
        lemma_embed_split(s, p1, m2, t3);
        lemma_parse_ser_mem::<i32>("Hp"@, v.hp, ',', s, p1);
        let p2 = p1 + m2.len();
        lemma_embed_split(s, p2, m3, t4);
        lemma_parse_ser_mem::<i32>("Attack"@, v.attack, ',', s, p2);
        let p3 = p2 + m3.len();
        lemma_embed_split(s, p3, m4, t5);
        lemma_parse_ser_mem::<i32>("UpgradeAttack"@, v.upgrade_attack, ',', s, p3);
        let p4 = p3 + m4.len();
        lemma_embed_split(s, p4, m5, t6);
        lemma_parse_ser_mem::<i32>("EndlessHp"@, v.endless_hp, ',', s, p4);
        let p5 = p4 + m5.len();
        lemma_parse_ser_mem::<i32>("EndlessAttack"@, v.endless_attack, ',', s, p5);
        let p6 = p5 + m6.len();
}

/// Part 3 of the enemy record reads back its canonical text.
#[verifier::spinoff_prover]
#[verifier::rlimit(100)]
proof fn lemma_enemy_part3(v: crate::bean::EnemyV, s: Seq<char>, p: int)
    requires
        0 <= p,
        p + (ser_mem("EndlessUpgrade"@, v.endless_upgrade, ',') + (ser_mem("Gold"@, v.gold, ',') + (ser_mem("GoldMax"@, v.gold_max, ',') + (ser_mem("AttackSound"@, v.attack_sound, ',') + (ser_mem("ShowSound"@, v.show_sound, '}')))))).len() <= s.len(),
        s.subrange(p, p + (ser_mem("EndlessUpgrade"@, v.endless_upgrade, ',') + (ser_mem("Gold"@, v.gold, ',') + (ser_mem("GoldMax"@, v.gold_max, ',') + (ser_mem("AttackSound"@, v.attack_sound, ',') + (ser_mem("ShowSound"@, v.show_sound, '}')))))).len()) == ser_mem("EndlessUpgrade"@, v.endless_upgrade, ',') + (ser_mem("Gold"@, v.gold, ',') + (ser_mem("GoldMax"@, v.gold_max, ',') + (ser_mem("AttackSound"@, v.attack_sound, ',') + (ser_mem("ShowSound"@, v.show_sound, '}'))))),
    ensures
        parse_enemy_part3(s, p) == Some(((v.endless_upgrade, v.gold, v.gold_max, v.attack_sound, v.show_sound), p + (ser_mem("EndlessUpgrade"@, v.endless_upgrade, ',') + (ser_mem("Gold"@, v.gold, ',') + (ser_mem("GoldMax"@, v.gold_max, ',') + (ser_mem("AttackSound"@, v.attack_sound, ',') + (ser_mem("ShowSound"@, v.show_sound, '}')))))).len())),
{
        let m1 = ser_mem("EndlessUpgrade"@, v.endless_upgrade, ',');
        let m2 = ser_mem("Gold"@, v.gold, ',');
        let m3 = ser_mem("GoldMax"@, v.gold_max, ',');
        let m4 = ser_mem("AttackSound"@, v.attack_sound, ',');
        let m5 = ser_mem("ShowSound"@, v.show_sound, '}');
        let t5 = m5;
        let t4 = m4 + t5;
        let t3 = m3 + t4;
        let t2 = m2 + t3;
        let t1 = m1 + t2;
        let p0 = p;
        lemma_embed_split(s, p0, m1, t2);
        lemma_parse_ser_mem::<i32>("EndlessUpgrade"@, v.endless_upgrade, ',', s, p0);
        let p1 = p0 + m1.len();
        lemma_embed_split(s, p1, m2, t3);
        lemma_parse_ser_mem::<i32>("Gold"@, v.gold, ',', s, p1);
        let p2 = p1 + m2.len();
        lemma_embed_split(s, p2, m3, t4);
        lemma_parse_ser_mem::<i32>("GoldMax"@, v.gold_max, ',', s, p2);
        let p3 = p2 + m3.len();
        lemma_embed_split(s, p3, m4, t5);
        lemma_parse_ser_mem::<i32>("AttackSound"@, v.attack_sound, ',', s, p3);
        let p4 = p3 + m4.len();
        lemma_parse_ser_mem::<i32>("ShowSound"@, v.show_sound, '}', s, p4);
        let p5 = p4 + m5.len();
}

impl WireSpec for crate::bean::EnemyV {
    open spec fn wire_ser(self) -> Seq<char> {
        seq!['{'] + (ser_mem("Id"@, self.id, ',') + (ser_mem("Icon"@, self.icon, ',') + (ser_mem("NameId"@, self.name_id, ',') + (ser_mem("DescId"@, self.desc_id, ',') + (ser_mem("Map"@, self.map, ',') + (ser_mem("Level"@, self.level, ',')))))) + (ser_mem("Boss"@, self.boss, ',') + (ser_mem("Hp"@, self.hp, ',') + (ser_mem("Attack"@, self.attack, ',') + (ser_mem("UpgradeAttack"@, self.upgrade_attack, ',') + (ser_mem("EndlessHp"@, self.endless_hp, ',') + (ser_mem("EndlessAttack"@, self.endless_attack, ',')))))) + (ser_mem("EndlessUpgrade"@, self.endless_upgrade, ',') + (ser_mem("Gold"@, self.gold, ',') + (ser_mem("GoldMax"@, self.gold_max, ',') + (ser_mem("AttackSound"@, self.attack_sound, ',') + (ser_mem("ShowSound"@, self.show_sound, '}'))))))))
    }

    open spec fn wire_parse(s: Seq<char>, i: int) -> Option<(crate::bean::EnemyV, int)> {
        if !(0 <= i && i < s.len() && s[i] == '{') {
            None
        } else {
            match parse_enemy_part1(s, i + 1) {
                None => None,
                Some(((x0_1, x0_2, x0_3, x0_4, x0_5, x0_6), q1)) =>
                match parse_enemy_part2(s, q1) {
                    None => None,
                    Some(((x1_1, x1_2, x1_3, x1_4, x1_5, x1_6), q2)) =>
                    match parse_enemy_part3(s, q2) {
                        None => None,
                        Some(((x2_1, x2_2, x2_3, x2_4, x2_5), q3)) =>
                        Some((crate::bean::EnemyV { id: x0_1, icon: x0_2, name_id: x0_3, desc_id: x0_4, map: x0_5, level: x0_6, boss: x1_1, hp: x1_2, attack: x1_3, upgrade_attack: x1_4, endless_hp: x1_5, endless_attack: x1_6, endless_upgrade: x2_1, gold: x2_2, gold_max: x2_3, attack_sound: x2_4, show_sound: x2_5 }, q3)),
                    },
                },
            }
        }
    }

    #[verifier::spinoff_prover]
    #[verifier::rlimit(100)]
    proof fn lemma_wire_roundtrip(v: crate::bean::EnemyV, s: Seq<char>, i: int) {
        let u = v.wire_ser();
        let w1 = ser_mem("Id"@, v.id, ',') + (ser_mem("Icon"@, v.icon, ',') + (ser_mem("NameId"@, v.name_id, ',') + (ser_mem("DescId"@, v.desc_id, ',') + (ser_mem("Map"@, v.map, ',') + (ser_mem("Level"@, v.level, ','))))));
        let w2 = ser_mem("Boss"@, v.boss, ',') + (ser_mem("Hp"@, v.hp, ',') + (ser_mem("Attack"@, v.attack, ',') + (ser_mem("UpgradeAttack"@, v.upgrade_attack, ',') + (ser_mem("EndlessHp"@, v.endless_hp, ',') + (ser_mem("EndlessAttack"@, v.endless_attack, ','))))));
        let w3 = ser_mem("EndlessUpgrade"@, v.endless_upgrade, ',') + (ser_mem("Gold"@, v.gold, ',') + (ser_mem("GoldMax"@, v.gold_max, ',') + (ser_mem("AttackSound"@, v.attack_sound, ',') + (ser_mem("ShowSound"@, v.show_sound, '}')))));
        let t3 = w3;
        let t2 = w2 + t3;
        let t1 = w1 + t2;
        assert(u == seq!['{'] + t1);
        lemma_subrange_index(s, i, u, 0);
        assert(u[0] == '{');
        lemma_embed_split(s, i, seq!['{'], t1);
        let q0 = i + 1;
        lemma_embed_split(s, q0, w1, t2);
        lemma_enemy_part1(v, s, q0);
        let q1 = q0 + w1.len();
        lemma_embed_split(s, q1, w2, t3);
        lemma_enemy_part2(v, s, q1);
        let q2 = q1 + w2.len();
        lemma_enemy_part3(v, s, q2);
        let q3 = q2 + w3.len();
        assert(q3 == i + u.len());
        assert(v == (crate::bean::EnemyV { id: v.id, icon: v.icon, name_id: v.name_id, desc_id: v.desc_id, map: v.map, level: v.level, boss: v.boss, hp: v.hp, attack: v.attack, upgrade_attack: v.upgrade_attack, endless_hp: v.endless_hp, endless_attack: v.endless_attack, endless_upgrade: v.endless_upgrade, gold: v.gold, gold_max: v.gold_max, attack_sound: v.attack_sound, show_sound: v.show_sound }));
    }
}

/// Append members of an enemy record (part 1).
#[verifier::spinoff_prover]
#[verifier::rlimit(100)]
fn write_enemy_part1(rec: &crate::bean::Enemy, out: &mut Vec<char>)
    ensures
        final(out)@ == old(out)@ + (ser_mem("Id"@, rec@.id, ',') + (ser_mem("Icon"@, rec@.icon, ',') + (ser_mem("NameId"@, rec@.name_id, ',') + (ser_mem("DescId"@, rec@.desc_id, ',') + (ser_mem("Map"@, rec@.map, ',') + (ser_mem("Level"@, rec@.level, ','))))))),
{
        let kq1 = crate::text::chars_of("\"Id\":");
        proof {
            reveal_strlit("\"Id\":");
            reveal_strlit("Id");
            assert(kq1@ =~= key_lit("Id"@));
        }
        write_mem_exec(out, &kq1, Ghost("Id"@), &rec.id, ',');
        let kq2 = crate::text::chars_of("\"Icon\":");
        proof {
            reveal_strlit("\"Icon\":");
            reveal_strlit("Icon");
            assert(kq2@ =~= key_lit("Icon"@));
        }
        write_mem_exec(out, &kq2, Ghost("Icon"@), &rec.icon, ',');
        let kq3 = crate::text::chars_of("\"NameId\":");
        proof {
            reveal_strlit("\"NameId\":");
            reveal_strlit("NameId");
            assert(kq3@ =~= key_lit("NameId"@));
        }
        write_mem_exec(out, &kq3, Ghost("NameId"@), &rec.name_id, ',');
        let kq4 = crate::text::chars_of("\"DescId\":");
        proof {
            reveal_strlit("\"DescId\":");
            reveal_strlit("DescId");
            assert(kq4@ =~= key_lit("DescId"@));
        }
        write_mem_exec(out, &kq4, Ghost("DescId"@), &rec.desc_id, ',');
        let kq5 = crate::text::chars_of("\"Map\":");
        proof {
            reveal_strlit("\"Map\":");
            reveal_strlit("Map");
            assert(kq5@ =~= key_lit("Map"@));
        }
        write_mem_exec(out, &kq5, Ghost("Map"@), &rec.map, ',');
        let kq6 = crate::text::chars_of("\"Level\":");
        proof {
            reveal_strlit("\"Level\":");
            reveal_strlit("Level");
            assert(kq6@ =~= key_lit("Level"@));
        }
        write_mem_exec(out, &kq6, Ghost("Level"@), &rec.level, ',');
        proof {
            assert(out@ =~= old(out)@ + (ser_mem("Id"@, rec@.id, ',') + (ser_mem("Icon"@, rec@.icon, ',') + (ser_mem("NameId"@, rec@.name_id, ',') + (ser_mem("DescId"@, rec@.desc_id, ',') + (ser_mem("Map"@, rec@.map, ',') + (ser_mem("Level"@, rec@.level, ','))))))));
        }
}

/// Parse members of an enemy record (part 1), as the spec does.
#[verifier::spinoff_prover]
#[verifier::rlimit(100)]
fn parse_enemy_part1_exec(s: &Vec<char>, i: usize) -> (r: Option<((i32, String, i32, i32, i32, i32), usize)>)
    requires
        i <= s@.len(),
    ensures
        match r {
            Some(((x1, x2, x3, x4, x5, x6), j)) => parse_enemy_part1(s@, i as int) == Some(
                ((x1@, x2@, x3@, x4@, x5@, x6@), j as int),
            ) && i < j <= s@.len(),
            None => parse_enemy_part1(s@, i as int) is None,
        },
{
        let kq1 = crate::text::chars_of("\"Id\":");
        proof {
            reveal_strlit("\"Id\":");
            reveal_strlit("Id");
            assert(kq1@ =~= key_lit("Id"@));
        }
        let (x1, p1) = match parse_mem_exec::<i32>(s, i, &kq1, Ghost("Id"@), ',') {
            None => {
                return None;
            },
            Some(x) => x,
        };
        let kq2 = crate::text::chars_of("\"Icon\":");
        proof {
            reveal_strlit("\"Icon\":");
            reveal_strlit("Icon");
            assert(kq2@ =~= key_lit("Icon"@));
        }
        let (x2, p2) = match parse_mem_exec::<String>(s, p1, &kq2, Ghost("Icon"@), ',') {
            None => {
                return None;
            },
            Some(x) => x,
        };
        let kq3 = crate::text::chars_of("\"NameId\":");
        proof {
            reveal_strlit("\"NameId\":");
            reveal_strlit("NameId");
            assert(kq3@ =~= key_lit("NameId"@));
        }
        let (x3, p3) = match parse_mem_exec::<i32>(s, p2, &kq3, Ghost("NameId"@), ',') {
            None => {
                return None;
            },
            Some(x) => x,
        };
        let kq4 = crate::text::chars_of("\"DescId\":");
        proof {
            reveal_strlit("\"DescId\":");
            reveal_strlit("DescId");
            assert(kq4@ =~= key_lit("DescId"@));
        }
        let (x4, p4) = match parse_mem_exec::<i32>(s, p3, &kq4, Ghost("DescId"@), ',') {
            None => {
                return None;
            },
            Some(x) => x,
        };
        let kq5 = crate::text::chars_of("\"Map\":");
        proof {
            reveal_strlit("\"Map\":");
            reveal_strlit("Map");
            assert(kq5@ =~= key_lit("Map"@));
        }
        let (x5, p5) = match parse_mem_exec::<i32>(s, p4, &kq5, Ghost("Map"@), ',') {
            None => {
                return None;
            },
            Some(x) => x,
        };
        let kq6 = crate::text::chars_of("\"Level\":");
        proof {
            reveal_strlit("\"Level\":");
            reveal_strlit("Level");
            assert(kq6@ =~= key_lit("Level"@));
        }
        let (x6, p6) = match parse_mem_exec::<i32>(s, p5, &kq6, Ghost("Level"@), ',') {
            None => {
                return None;
            },
            Some(x) => x,
        };
        Some(((x1, x2, x3, x4, x5, x6), p6))
}

/// Append members of an enemy record (part 2).
#[verifier::spinoff_prover]
#[verifier::rlimit(100)]
fn write_enemy_part2(rec: &crate::bean::Enemy, out: &mut Vec<char>)
    ensures
        final(out)@ == old(out)@ + (ser_mem("Boss"@, rec@.boss, ',') + (ser_mem("Hp"@, rec@.hp, ',') + (ser_mem("Attack"@, rec@.attack, ',') + (ser_mem("UpgradeAttack"@, rec@.upgrade_attack, ',') + (ser_mem("EndlessHp"@, rec@.endless_hp, ',') + (ser_mem("EndlessAttack"@, rec@.endless_attack, ','))))))),
{
        let kq1 = crate::text::chars_of("\"Boss\":");
        proof {
            reveal_strlit("\"Boss\":");
            reveal_strlit("Boss");
            assert(kq1@ =~= key_lit("Boss"@));
        }
        write_mem_exec(out, &kq1, Ghost("Boss"@), &rec.boss, ',');
        let kq2 = crate::text::chars_of("\"Hp\":");
        proof {
            reveal_strlit("\"Hp\":");
            reveal_strlit("Hp");
            assert(kq2@ =~= key_lit("Hp"@));
        }
        write_mem_exec(out, &kq2, Ghost("Hp"@), &rec.hp, ',');
        let kq3 = crate::text::chars_of("\"Attack\":");
        proof {
            reveal_strlit("\"Attack\":");
            reveal_strlit("Attack");
            assert(kq3@ =~= key_lit("Attack"@));
        }
        write_mem_exec(out, &kq3, Ghost("Attack"@), &rec.attack, ',');
        let kq4 = crate::text::chars_of("\"UpgradeAttack\":");
        proof {
            reveal_strlit("\"UpgradeAttack\":");
            reveal_strlit("UpgradeAttack");
            assert(kq4@ =~= key_lit("UpgradeAttack"@));
        }
        write_mem_exec(out, &kq4, Ghost("UpgradeAttack"@), &rec.upgrade_attack, ',');
        let kq5 = crate::text::chars_of("\"EndlessHp\":");
        proof {
            reveal_strlit("\"EndlessHp\":");
            reveal_strlit("EndlessHp");
            assert(kq5@ =~= key_lit("EndlessHp"@));
        }
        write_mem_exec(out, &kq5, Ghost("EndlessHp"@), &rec.endless_hp, ',');
        let kq6 = crate::text::chars_of("\"EndlessAttack\":");
        proof {
            reveal_strlit("\"EndlessAttack\":");
            reveal_strlit("EndlessAttack");
            assert(kq6@ =~= key_lit("EndlessAttack"@));
        }
        write_mem_exec(out, &kq6, Ghost("EndlessAttack"@), &rec.endless_attack, ',');
        proof {
            assert(out@ =~= old(out)@ + (ser_mem("Boss"@, rec@.boss, ',') + (ser_mem("Hp"@, rec@.hp, ',') + (ser_mem("Attack"@, rec@.attack, ',') + (ser_mem("UpgradeAttack"@, rec@.upgrade_attack, ',') + (ser_mem("EndlessHp"@, rec@.endless_hp, ',') + (ser_mem("EndlessAttack"@, rec@.endless_attack, ','))))))));
        }
}

/// Parse members of an enemy record (part 2), as the spec does.
#[verifier::spinoff_prover]
#[verifier::rlimit(100)]
fn parse_enemy_part2_exec(s: &Vec<char>, i: usize) -> (r: Option<((i32, i32, i32, i32, i32, i32), usize)>)
    requires
        i <= s@.len(),
    ensures
        match r {
            Some(((x1, x2, x3, x4, x5, x6), j)) => parse_enemy_part2(s@, i as int) == Some(
                ((x1@, x2@, x3@, x4@, x5@, x6@), j as int),
            ) && i < j <= s@.len(),
            None => parse_enemy_part2(s@, i as int) is None,
        },
{
        let kq1 = crate::text::chars_of("\"Boss\":");
        proof {
            reveal_strlit("\"Boss\":");
            reveal_strlit("Boss");
            assert(kq1@ =~= key_lit("Boss"@));
        }
        let (x1, p1) = match parse_mem_exec::<i32>(s, i, &kq1, Ghost("Boss"@), ',') {
            None => {
                return None;
            },
            Some(x) => x,
        };
        let kq2 = crate::text::chars_of("\"Hp\":");
        proof {
            reveal_strlit("\"Hp\":");
            reveal_strlit("Hp");
            assert(kq2@ =~= key_lit("Hp"@));
        }
        let (x2, p2) = match parse_mem_exec::<i32>(s, p1, &kq2, Ghost("Hp"@), ',') {
            None => {
                return None;
            },
            Some(x) => x,
        };
        let kq3 = crate::text::chars_of("\"Attack\":");
        proof {
            reveal_strlit("\"Attack\":");
            reveal_strlit("Attack");
            assert(kq3@ =~= key_lit("Attack"@));
        }
        let (x3, p3) = match parse_mem_exec::<i32>(s, p2, &kq3, Ghost("Attack"@), ',') {
            None => {
                return None;
            },
            Some(x) => x,
        };
        let kq4 = crate::text::chars_of("\"UpgradeAttack\":");
        proof {
            reveal_strlit("\"UpgradeAttack\":");
            reveal_strlit("UpgradeAttack");
            assert(kq4@ =~= key_lit("UpgradeAttack"@));
        }
        let (x4, p4) = match parse_mem_exec::<i32>(s, p3, &kq4, Ghost("UpgradeAttack"@), ',') {
            None => {
                return None;
            },
            Some(x) => x,
        };
        let kq5 = crate::text::chars_of("\"EndlessHp\":");
        proof {
            reveal_strlit("\"EndlessHp\":");
            reveal_strlit("EndlessHp");
            assert(kq5@ =~= key_lit("EndlessHp"@));
        }
        let (x5, p5) = match parse_mem_exec::<i32>(s, p4, &kq5, Ghost("EndlessHp"@), ',') {
            None => {
                return None;
            },
            Some(x) => x,
        };
        let kq6 = crate::text::chars_of("\"EndlessAttack\":");
        proof {
            reveal_strlit("\"EndlessAttack\":");
            reveal_strlit("EndlessAttack");
            assert(kq6@ =~= key_lit("EndlessAttack"@));
        }
        let (x6, p6) = match parse_mem_exec::<i32>(s, p5, &kq6, Ghost("EndlessAttack"@), ',') {
            None => {
                return None;
            },
            Some(x) => x,
        };
        Some(((x1, x2, x3, x4, x5, x6), p6))
}

/// Append members of an enemy record (part 3).
#[verifier::spinoff_prover]
#[verifier::rlimit(100)]
fn write_enemy_part3(rec: &crate::bean::Enemy, out: &mut Vec<char>)
    ensures
        final(out)@ == old(out)@ + (ser_mem("EndlessUpgrade"@, rec@.endless_upgrade, ',') + (ser_mem("Gold"@, rec@.gold, ',') + (ser_mem("GoldMax"@, rec@.gold_max, ',') + (ser_mem("AttackSound"@, rec@.attack_sound, ',') + (ser_mem("ShowSound"@, rec@.show_sound, '}')))))),
{
        let kq1 = crate::text::chars_of("\"EndlessUpgrade\":");
        proof {
            reveal_strlit("\"EndlessUpgrade\":");
            reveal_strlit("EndlessUpgrade");
            assert(kq1@ =~= key_lit("EndlessUpgrade"@));
        }
        write_mem_exec(out, &kq1, Ghost("EndlessUpgrade"@), &rec.endless_upgrade, ',');
        let kq2 = crate::text::chars_of("\"Gold\":");
        proof {
            reveal_strlit("\"Gold\":");
            reveal_strlit("Gold");
            assert(kq2@ =~= key_lit("Gold"@));
        }
        write_mem_exec(out, &kq2, Ghost("Gold"@), &rec.gold, ',');
        let kq3 = crate::text::chars_of("\"GoldMax\":");
        proof {
            reveal_strlit("\"GoldMax\":");
            reveal_strlit("GoldMax");
            assert(kq3@ =~= key_lit("GoldMax"@));
        }
        write_mem_exec(out, &kq3, Ghost("GoldMax"@), &rec.gold_max, ',');
        let kq4 = crate::text::chars_of("\"AttackSound\":");
        proof {
            reveal_strlit("\"AttackSound\":");
            reveal_strlit("AttackSound");
            assert(kq4@ =~= key_lit("AttackSound"@));
        }
        write_mem_exec(out, &kq4, Ghost("AttackSound"@), &rec.attack_sound, ',');
        let kq5 = crate::text::chars_of("\"ShowSound\":");
        proof {
            reveal_strlit("\"ShowSound\":");
            reveal_strlit("ShowSound");
            assert(kq5@ =~= key_lit("ShowSound"@));
        }
        write_mem_exec(out, &kq5, Ghost("ShowSound"@), &rec.show_sound, '}');
        proof {
            assert(out@ =~= old(out)@ + (ser_mem("EndlessUpgrade"@, rec@.endless_upgrade, ',') + (ser_mem("Gold"@, rec@.gold, ',') + (ser_mem("GoldMax"@, rec@.gold_max, ',') + (ser_mem("AttackSound"@, rec@.attack_sound, ',') + (ser_mem("ShowSound"@, rec@.show_sound, '}')))))));
        }
}

/// Parse members of an enemy record (part 3), as the spec does.
#[verifier::spinoff_prover]
#[verifier::rlimit(100)]
fn parse_enemy_part3_exec(s: &Vec<char>, i: usize) -> (r: Option<((i32, i32, i32, i32, i32), usize)>)
    requires
        i <= s@.len(),
    ensures
        match r {
            Some(((x1, x2, x3, x4, x5), j)) => parse_enemy_part3(s@, i as int) == Some(
                ((x1@, x2@, x3@, x4@, x5@), j as int),
            ) && i < j <= s@.len(),
            None => parse_enemy_part3(s@, i as int) is None,
        },
{
        let kq1 = crate::text::chars_of("\"EndlessUpgrade\":");
        proof {
            reveal_strlit("\"EndlessUpgrade\":");
            reveal_strlit("EndlessUpgrade");
            assert(kq1@ =~= key_lit("EndlessUpgrade"@));
        }
        let (x1, p1) = match parse_mem_exec::<i32>(s, i, &kq1, Ghost("EndlessUpgrade"@), ',') {
            None => {
                return None;
            },
            Some(x) => x,
        };
        let kq2 = crate::text::chars_of("\"Gold\":");
        proof {
            reveal_strlit("\"Gold\":");
            reveal_strlit("Gold");
            assert(kq2@ =~= key_lit("Gold"@));
        }
        let (x2, p2) = match parse_mem_exec::<i32>(s, p1, &kq2, Ghost("Gold"@), ',') {
            None => {
                return None;
            },
            Some(x) => x,
        };
        let kq3 = crate::text::chars_of("\"GoldMax\":");
        proof {
            reveal_strlit("\"GoldMax\":");
            reveal_strlit("GoldMax");
            assert(kq3@ =~= key_lit("GoldMax"@));
        }
        let (x3, p3) = match parse_mem_exec::<i32>(s, p2, &kq3, Ghost("GoldMax"@), ',') {
            None => {
                return None;
            },
            Some(x) => x,
        };
        let kq4 = crate::text::chars_of("\"AttackSound\":");
        proof {
            reveal_strlit("\"AttackSound\":");
            reveal_strlit("AttackSound");
            assert(kq4@ =~= key_lit("AttackSound"@));
        }
        let (x4, p4) = match parse_mem_exec::<i32>(s, p3, &kq4, Ghost("AttackSound"@), ',') {
            None => {
                return None;
            },
            Some(x) => x,
        };
        let kq5 = crate::text::chars_of("\"ShowSound\":");
        proof {
            reveal_strlit("\"ShowSound\":");
            reveal_strlit("ShowSound");
            assert(kq5@ =~= key_lit("ShowSound"@));
        }
        let (x5, p5) = match parse_mem_exec::<i32>(s, p4, &kq5, Ghost("ShowSound"@), '}') {
            None => {
                return None;
            },
            Some(x) => x,
        };
        Some(((x1, x2, x3, x4, x5), p5))
}

impl WireExec for crate::bean::Enemy {
    #[verifier::spinoff_prover]
    #[verifier::rlimit(100)]
    fn wire_write(&self, out: &mut Vec<char>) {
        out.push('{');
        write_enemy_part1(self, out);
        write_enemy_part2(self, out);
        write_enemy_part3(self, out);
        proof {
            assert(out@ =~= old(out)@ + self@.wire_ser());
        }
    }

    #[verifier::spinoff_prover]
    #[verifier::rlimit(100)]
    fn wire_parse_exec(s: &Vec<char>, i: usize) -> (r: Option<(crate::bean::Enemy, usize)>) {
        if i >= s.len() || s[i] != '{' {
            return None;
        }
        let ((x0_1, x0_2, x0_3, x0_4, x0_5, x0_6), q1) = match parse_enemy_part1_exec(s, i + 1) {
            None => {
                return None;
            },
            Some(x) => x,
        };
        let ((x1_1, x1_2, x1_3, x1_4, x1_5, x1_6), q2) = match parse_enemy_part2_exec(s, q1) {
            None => {
                return None;
            },
            Some(x) => x,
        };
        let ((x2_1, x2_2, x2_3, x2_4, x2_5), q3) = match parse_enemy_part3_exec(s, q2) {
            None => {
                return None;
            },
            Some(x) => x,
        };
        let rec = crate::bean::Enemy { id: x0_1, icon: x0_2, name_id: x0_3, desc_id: x0_4, map: x0_5, level: x0_6, boss: x1_1, hp: x1_2, attack: x1_3, upgrade_attack: x1_4, endless_hp: x1_5, endless_attack: x1_6, endless_upgrade: x2_1, gold: x2_2, gold_max: x2_3, attack_sound: x2_4, show_sound: x2_5 };
        proof {
            assert(<crate::bean::Enemy as View>::V::wire_parse(s@, i as int) == Some((rec@, q3 as int)));
        }
        Some((rec, q3))
    }
}

/// Parse members of a relics record (part 1).
pub open spec fn parse_relics_part1(s: Seq<char>, i: int) -> Option<((i32, i32, i32, i32, i32, Seq<char>), int)> {
    match parse_mem::<i32>("Id"@, ',', s, i) {
        None => None,
        Some((x1, p1)) =>
        match parse_mem::<i32>("Enable"@, ',', s, p1) {
            None => None,
            Some((x2, p2)) =>
            match parse_mem::<i32>("Lock"@, ',', s, p2) {
                None => None,
                Some((x3, p3)) =>
                match parse_mem::<i32>("Role"@, ',', s, p3) {
                    None => None,
                    Some((x4, p4)) =>
                    match parse_mem::<i32>("Tutorial"@, ',', s, p4) {
                        None => None,
                        Some((x5, p5)) =>
                        match parse_mem::<Seq<char>>("Icon"@, ',', s, p5) {
                            None => None,
                            Some((x6, p6)) =>
                            Some(((x1, x2, x3, x4, x5, x6), p6)),
                        },
                    },
                },
            },
        },
    }
}

/// Parse members of a relics record (part 2).
pub open spec fn parse_relics_part2(s: Seq<char>, i: int) -> Option<((Seq<char>, i32, i32, i32, Seq<crate::bean::Etip>, i32), int)> {
    match parse_mem::<Seq<char>>("SmallIcon"@, ',', s, i) {
        None => None,
        Some((x1, p1)) =>
        match parse_mem::<i32>("NameId"@, ',', s, p1) {
            None => None,
            Some((x2, p2)) =>
            match parse_mem::<i32>("DescId"@, ',', s, p2) {
                None => None,
                Some((x3, p3)) =>
                match parse_mem::<i32>("OtherDescId"@, ',', s, p3) {
                    None => None,
                    Some((x4, p4)) =>
                    match parse_mem_list::<crate::bean::Etip>("DescTip"@, ',', s, p4) {
                        None => None,
                        Some((x5, p5)) =>
                        match parse_mem::<i32>("Rare"@, ',', s, p5) {
                            None => None,
                            Some((x6, p6)) =>
                            Some(((x1, x2, x3, x4, x5, x6), p6)),
                        },
                    },
                },
            },
        },
    }
}

/// Parse members of a relics record (part 3).
pub open spec fn parse_relics_part3(s: Seq<char>, i: int) -> Option<((Seq<i32>, i32, Seq<i32>, i32, i32, Seq<i32>), int)> {
    match parse_mem_list::<i32>("Passive"@, ',', s, i) {
        None => None,
        Some((x1, p1)) =>
        match parse_mem::<i32>("TriggerType"@, ',', s, p1) {
            None => None,
            Some((x2, p2)) =>
            match parse_mem_list::<i32>("TriggerParam"@, ',', s, p2) {
                None => None,
                Some((x3, p3)) =>
                match parse_mem::<i32>("EventTip"@, ',', s, p3) {
                    None => None,
                    Some((x4, p4)) =>
                    match parse_mem::<i32>("TriggerAction"@, ',', s, p4) {
                        None => None,
                        Some((x5, p5)) =>
                        match parse_mem_list::<i32>("TriggerValue"@, ',', s, p5) {
                            None => None,
                            Some((x6, p6)) =>
                            Some(((x1, x2, x3, x4, x5, x6), p6)),
                        },
                    },
                },
            },
        },
    }
}

/// Parse members of a relics record (part 4).
pub open spec fn parse_relics_part4(s: Seq<char>, i: int) -> Option<((Seq<i32>), int)> {
    match parse_mem_list::<i32>("OtherValue"@, '}', s, i) {
        None => None,
        Some((x1, p1)) =>
        Some(((x1), p1)),
    }
}

/// Part 1 of the relics record reads back its canonical text.
#[verifier::spinoff_prover]
#[verifier::rlimit(100)]
proof fn lemma_relics_part1(v: crate::bean::RelicsV, s: Seq<char>, p: int)
    requires
        0 <= p,
        p + (ser_mem("Id"@, v.id, ',') + (ser_mem("Enable"@, v.enable, ',') + (ser_mem("Lock"@, v.lock, ',') + (ser_mem("Role"@, v.role, ',') + (ser_mem("Tutorial"@, v.tutorial, ',') + (ser_mem("Icon"@, v.icon, ','))))))).len() <= s.len(),
        s.subrange(p, p + (ser_mem("Id"@, v.id, ',') + (ser_mem("Enable"@, v.enable, ',') + (ser_mem("Lock"@, v.lock, ',') + (ser_mem("Role"@, v.role, ',') + (ser_mem("Tutorial"@, v.tutorial, ',') + (ser_mem("Icon"@, v.icon, ','))))))).len()) == ser_mem("Id"@, v.id, ',') + (ser_mem("Enable"@, v.enable, ',') + (ser_mem("Lock"@, v.lock, ',') + (ser_mem("Role"@, v.role, ',') + (ser_mem("Tutorial"@, v.tutorial, ',') + (ser_mem("Icon"@, v.icon, ',')))))),
    ensures
        parse_relics_part1(s, p) == Some(((v.id, v.enable, v.lock, v.role, v.tutorial, v.icon), p + (ser_mem("Id"@, v.id, ',') + (ser_mem("Enable"@, v.enable, ',') + (ser_mem("Lock"@, v.lock, ',') + (ser_mem("Role"@, v.role, ',') + (ser_mem("Tutorial"@, v.tutorial, ',') + (ser_mem("Icon"@, v.icon, ','))))))).len())),
{
        let m1 = ser_mem("Id"@, v.id, ',');
        let m2 = ser_mem("Enable"@, v.enable, ',');
        let m3 = ser_mem("Lock"@, v.lock, ',');
        let m4 = ser_mem("Role"@, v.role, ',');
        let m5 = ser_mem("Tutorial"@, v.tutorial, ',');
        let m6 = ser_mem("Icon"@, v.icon, ',');
        let t6 = m6;
        let t5 = m5 + t6;
        let t4 = m4 + t5;
        let t3 = m3 + t4;
        let t2 = m2 + t3;
        let t1 = m1 + t2;
        let p0 = p;
        lemma_embed_split(s, p0, m1, t2);
        lemma_parse_ser_mem::<i32>("Id"@, v.id, ',', s, p0);
        let p1 = p0 + m1.len();
        lemma_embed_split(s, p1, m2, t3);
        lemma_parse_ser_mem::<i32>("Enable"@, v.enable, ',', s, p1);
        let p2 = p1 + m2.len();
        lemma_embed_split(s, p2, m3, t4);
        lemma_parse_ser_mem::<i32>("Lock"@, v.lock, ',', s, p2);
        let p3 = p2 + m3.len();
        lemma_embed_split(s, p3, m4, t5);
        lemma_parse_ser_mem::<i32>("Role"@, v.role, ',', s, p3);
        let p4 = p3 + m4.len();
        lemma_embed_split(s, p4, m5, t6);
        lemma_parse_ser_mem::<i32>("Tutorial"@, v.tutorial, ',', s, p4);
        let p5 = p4 + m5.len();
        lemma_parse_ser_mem::<Seq<char>>("Icon"@, v.icon, ',', s, p5);
        let p6 = p5 + m6.len();
}

/// Part 2 of the relics record reads back its canonical text.
#[verifier::spinoff_prover]
#[verifier::rlimit(100)]
proof fn lemma_relics_part2(v: crate::bean::RelicsV, s: Seq<char>, p: int)
    requires
        0 <= p,
        p + (ser_mem("SmallIcon"@, v.small_icon, ',') + (ser_mem("NameId"@, v.name_id, ',') + (ser_mem("DescId"@, v.desc_id, ',') + (ser_mem("OtherDescId"@, v.other_desc_id, ',') + (ser_mem_list("DescTip"@, v.desc_tip, ',') + (ser_mem("Rare"@, v.rare, ','))))))).len() <= s.len(),
        s.subrange(p, p + (ser_mem("SmallIcon"@, v.small_icon, ',') + (ser_mem("NameId"@, v.name_id, ',') + (ser_mem("DescId"@, v.desc_id, ',') + (ser_mem("OtherDescId"@, v.other_desc_id, ',') + (ser_mem_list("DescTip"@, v.desc_tip, ',') + (ser_mem("Rare"@, v.rare, ','))))))).len()) == ser_mem("SmallIcon"@, v.small_icon, ',') + (ser_mem("NameId"@, v.name_id, ',') + (ser_mem("DescId"@, v.desc_id, ',') + (ser_mem("OtherDescId"@, v.other_desc_id, ',') + (ser_mem_list("DescTip"@, v.desc_tip, ',') + (ser_mem("Rare"@, v.rare, ',')))))),
    ensures
        parse_relics_part2(s, p) == Some(((v.small_icon, v.name_id, v.desc_id, v.other_desc_id, v.desc_tip, v.rare), p + (ser_mem("SmallIcon"@, v.small_icon, ',') + (ser_mem("NameId"@, v.name_id, ',') + (ser_mem("DescId"@, v.desc_id, ',') + (ser_mem("OtherDescId"@, v.other_desc_id, ',') + (ser_mem_list("DescTip"@, v.desc_tip, ',') + (ser_mem("Rare"@, v.rare, ','))))))).len())),
{
        let m1 = ser_mem("SmallIcon"@, v.small_icon, ',');
        let m2 = ser_mem("NameId"@, v.name_id, ',');
        let m3 = ser_mem("DescId"@, v.desc_id, ',');
        let m4 = ser_mem("OtherDescId"@, v.other_desc_id, ',');
        let m5 = ser_mem_list("DescTip"@, v.desc_tip, ',');
        let m6 = ser_mem("Rare"@, v.rare, ',');
        let t6 = m6;
        let t5 = m5 + t6;
        let t4 = m4 + t5;
        let t3 = m3 + t4;
        let t2 = m2 + t3;
        let t1 = m1 + t2;
        let p0 = p;
        lemma_embed_split(s, p0, m1, t2);
        lemma_parse_ser_mem::<Seq<char>>("SmallIcon"@, v.small_icon, ',', s, p0);
        let p1 = p0 + m1.len();
        lemma_embed_split(s, p1, m2, t3);
        lemma_parse_ser_mem::<i32>("NameId"@, v.name_id, ',', s, p1);
        let p2 = p1 + m2.len();
        lemma_embed_split(s, p2, m3, t4);
        lemma_parse_ser_mem::<i32>("DescId"@, v.desc_id, ',', s, p2);
        let p3 = p2 + m3.len();
        lemma_embed_split(s, p3, m4, t5);
        lemma_parse_ser_mem::<i32>("OtherDescId"@, v.other_desc_id, ',', s, p3);
        let p4 = p3 + m4.len();
        lemma_embed_split(s, p4, m5, t6);
        lemma_parse_ser_mem_list::<crate::bean::Etip>("DescTip"@, v.desc_tip, ',', s, p4);
        let p5 = p4 + m5.len();
        lemma_parse_ser_mem::<i32>("Rare"@, v.rare, ',', s, p5);
        let p6 = p5 + m6.len();
}

/// Part 3 of the relics record reads back its canonical text.
#[verifier::spinoff_prover]
#[verifier::rlimit(100)]
proof fn lemma_relics_part3(v: crate::bean::RelicsV, s: Seq<char>, p: int)
    requires
        0 <= p,
        p + (ser_mem_list("Passive"@, v.passive, ',') + (ser_mem("TriggerType"@, v.trigger_type, ',') + (ser_mem_list("TriggerParam"@, v.trigger_param, ',') + (ser_mem("EventTip"@, v.event_tip, ',') + (ser_mem("TriggerAction"@, v.trigger_action, ',') + (ser_mem_list("TriggerValue"@, v.trigger_value, ','))))))).len() <= s.len(),
        s.subrange(p, p + (ser_mem_list("Passive"@, v.passive, ',') + (ser_mem("TriggerType"@, v.trigger_type, ',') + (ser_mem_list("TriggerParam"@, v.trigger_param, ',') + (ser_mem("EventTip"@, v.event_tip, ',') + (ser_mem("TriggerAction"@, v.trigger_action, ',') + (ser_mem_list("TriggerValue"@, v.trigger_value, ','))))))).len()) == ser_mem_list("Passive"@, v.passive, ',') + (ser_mem("TriggerType"@, v.trigger_type, ',') + (ser_mem_list("TriggerParam"@, v.trigger_param, ',') + (ser_mem("EventTip"@, v.event_tip, ',') + (ser_mem("TriggerAction"@, v.trigger_action, ',') + (ser_mem_list("TriggerValue"@, v.trigger_value, ',')))))),
    ensures
        parse_relics_part3(s, p) == Some(((v.passive, v.trigger_type, v.trigger_param, v.event_tip, v.trigger_action, v.trigger_value), p + (ser_mem_list("Passive"@, v.passive, ',') + (ser_mem("TriggerType"@, v.trigger_type, ',') + (ser_mem_list("TriggerParam"@, v.trigger_param, ',') + (ser_mem("EventTip"@, v.event_tip, ',') + (ser_mem("TriggerAction"@, v.trigger_action, ',') + (ser_mem_list("TriggerValue"@, v.trigger_value, ','))))))).len())),
{
        let m1 = ser_mem_list("Passive"@, v.passive, ',');
        let m2 = ser_mem("TriggerType"@, v.trigger_type, ',');
        let m3 = ser_mem_list("TriggerParam"@, v.trigger_param, ',');
        let m4 = ser_mem("EventTip"@, v.event_tip, ',');
        let m5 = ser_mem("TriggerAction"@, v.trigger_action, ',');
        let m6 = ser_mem_list("TriggerValue"@, v.trigger_value, ',');
        let t6 = m6;
        let t5 = m5 + t6;
        let t4 = m4 + t5;
        let t3 = m3 + t4;
        let t2 = m2 + t3;
        let t1 = m1 + t2;
        let p0 = p;
        lemma_embed_split(s, p0, m1, t2);
        lemma_parse_ser_mem_list::<i32>("Passive"@, v.passive, ',', s, p0);
        let p1 = p0 + m1.len();
        lemma_embed_split(s, p1, m2, t3);
        lemma_parse_ser_mem::<i32>("TriggerType"@, v.trigger_type, ',', s, p1);
        let p2 = p1 + m2.len();
        lemma_embed_split(s, p2, m3, t4);
        lemma_parse_ser_mem_list::<i32>("TriggerParam"@, v.trigger_param, ',', s, p2);
        let p3 = p2 + m3.len();
        lemma_embed_split(s, p3, m4, t5);
        lemma_parse_ser_mem::<i32>("EventTip"@, v.event_tip, ',', s, p3);
        let p4 = p3 + m4.len();
        lemma_embed_split(s, p4, m5, t6);
        lemma_parse_ser_mem::<i32>("TriggerAction"@, v.trigger_action, ',', s, p4);
        let p5 = p4 + m5.len();
        lemma_parse_ser_mem_list::<i32>("TriggerValue"@, v.trigger_value, ',', s, p5);
        let p6 = p5 + m6.len();
}

/// Part 4 of the relics record reads back its canonical text.
#[verifier::spinoff_prover]
#[verifier::rlimit(100)]
proof fn lemma_relics_part4(v: crate::bean::RelicsV, s: Seq<char>, p: int)
    requires
        0 <= p,
        p + (ser_mem_list("OtherValue"@, v.other_value, '}')).len() <= s.len(),
        s.subrange(p, p + (ser_mem_list("OtherValue"@, v.other_value, '}')).len()) == ser_mem_list("OtherValue"@, v.other_value, '}'),
    ensures
        parse_relics_part4(s, p) == Some(((v.other_value), p + (ser_mem_list("OtherValue"@, v.other_value, '}')).len())),
{
        let m1 = ser_mem_list("OtherValue"@, v.other_value, '}');
        let t1 = m1;
        let p0 = p;
        lemma_parse_ser_mem_list::<i32>("OtherValue"@, v.other_value, '}', s, p0);
        let p1 = p0 + m1.len();
}

impl WireSpec for crate::bean::RelicsV {
    open spec fn wire_ser(self) -> Seq<char> {
        seq!['{'] + (ser_mem("Id"@, self.id, ',') + (ser_mem("Enable"@, self.enable, ',') + (ser_mem("Lock"@, self.lock, ',') + (ser_mem("Role"@, self.role, ',') + (ser_mem("Tutorial"@, self.tutorial, ',') + (ser_mem("Icon"@, self.icon, ',')))))) + (ser_mem("SmallIcon"@, self.small_icon, ',') + (ser_mem("NameId"@, self.name_id, ',') + (ser_mem("DescId"@, self.desc_id, ',') + (ser_mem("OtherDescId"@, self.other_desc_id, ',') + (ser_mem_list("DescTip"@, self.desc_tip, ',') + (ser_mem("Rare"@, self.rare, ',')))))) + (ser_mem_list("Passive"@, self.passive, ',') + (ser_mem("TriggerType"@, self.trigger_type, ',') + (ser_mem_list("TriggerParam"@, self.trigger_param, ',') + (ser_mem("EventTip"@, self.event_tip, ',') + (ser_mem("TriggerAction"@, self.trigger_action, ',') + (ser_mem_list("TriggerValue"@, self.trigger_value, ',')))))) + (ser_mem_list("OtherValue"@, self.other_value, '}')))))
    }

    open spec fn wire_parse(s: Seq<char>, i: int) -> Option<(crate::bean::RelicsV, int)> {
        if !(0 <= i && i < s.len() && s[i] == '{') {
            None
        } else {
            match parse_relics_part1(s, i + 1) {
                None => None,
                Some(((x0_1, x0_2, x0_3, x0_4, x0_5, x0_6), q1)) =>
                match parse_relics_part2(s, q1) {
                    None => None,
                    Some(((x1_1, x1_2, x1_3, x1_4, x1_5, x1_6), q2)) =>
                    match parse_relics_part3(s, q2) {
                        None => None,
                        Some(((x2_1, x2_2, x2_3, x2_4, x2_5, x2_6), q3)) =>
                        match parse_relics_part4(s, q3) {
                            None => None,
                            Some(((x3_1), q4)) =>
                            Some((crate::bean::RelicsV { id: x0_1, enable: x0_2, lock: x0_3, role: x0_4, tutorial: x0_5, icon: x0_6, small_icon: x1_1, name_id: x1_2, desc_id: x1_3, other_desc_id: x1_4, desc_tip: x1_5, rare: x1_6, passive: x2_1, trigger_type: x2_2, trigger_param: x2_3, event_tip: x2_4, trigger_action: x2_5, trigger_value: x2_6, other_value: x3_1 }, q4)),
                        },
                    },
                },
            }
        }
    }

    #[verifier::spinoff_prover]
    #[verifier::rlimit(100)]
    proof fn lemma_wire_roundtrip(v: crate::bean::RelicsV, s: Seq<char>, i: int) {
        let u = v.wire_ser();
        let w1 = ser_mem("Id"@, v.id, ',') + (ser_mem("Enable"@, v.enable, ',') + (ser_mem("Lock"@, v.lock, ',') + (ser_mem("Role"@, v.role, ',') + (ser_mem("Tutorial"@, v.tutorial, ',') + (ser_mem("Icon"@, v.icon, ','))))));
        let w2 = ser_mem("SmallIcon"@, v.small_icon, ',') + (ser_mem("NameId"@, v.name_id, ',') + (ser_mem("DescId"@, v.desc_id, ',') + (ser_mem("OtherDescId"@, v.other_desc_id, ',') + (ser_mem_list("DescTip"@, v.desc_tip, ',') + (ser_mem("Rare"@, v.rare, ','))))));
        let w3 = ser_mem_list("Passive"@, v.passive, ',') + (ser_mem("TriggerType"@, v.trigger_type, ',') + (ser_mem_list("TriggerParam"@, v.trigger_param, ',') + (ser_mem("EventTip"@, v.event_tip, ',') + (ser_mem("TriggerAction"@, v.trigger_action, ',') + (ser_mem_list("TriggerValue"@, v.trigger_value, ','))))));
        let w4 = ser_mem_list("OtherValue"@, v.other_value, '}');
        let t4 = w4;
        let t3 = w3 + t4;
        let t2 = w2 + t3;
        let t1 = w1 + t2;
        assert(u == seq!['{'] + t1);
        lemma_subrange_index(s, i, u, 0);
        assert(u[0] == '{');
        lemma_embed_split(s, i, seq!['{'], t1);
        let q0 = i + 1;
        lemma_embed_split(s, q0, w1, t2);
        lemma_relics_part1(v, s, q0);
        let q1 = q0 + w1.len();
        lemma_embed_split(s, q1, w2, t3);
        lemma_relics_part2(v, s, q1);
        let q2 = q1 + w2.len();
        lemma_embed_split(s, q2, w3, t4);
        lemma_relics_part3(v, s, q2);
        let q3 = q2 + w3.len();
        lemma_relics_part4(v, s, q3);
        let q4 = q3 + w4.len();
        assert(q4 == i + u.len());
        assert(v == (crate::bean::RelicsV { id: v.id, enable: v.enable, lock: v.lock, role: v.role, tutorial: v.tutorial, icon: v.icon, small_icon: v.small_icon, name_id: v.name_id, desc_id: v.desc_id, other_desc_id: v.other_desc_id, desc_tip: v.desc_tip, rare: v.rare, passive: v.passive, trigger_type: v.trigger_type, trigger_param: v.trigger_param, event_tip: v.event_tip, trigger_action: v.trigger_action, trigger_value: v.trigger_value, other_value: v.other_value }));
    }
}

/// Append members of a relics record (part 1).
#[verifier::spinoff_prover]
#[verifier::rlimit(100)]
fn write_relics_part1(rec: &crate::bean::Relics, out: &mut Vec<char>)
    ensures
        final(out)@ == old(out)@ + (ser_mem("Id"@, rec@.id, ',') + (ser_mem("Enable"@, rec@.enable, ',') + (ser_mem("Lock"@, rec@.lock, ',') + (ser_mem("Role"@, rec@.role, ',') + (ser_mem("Tutorial"@, rec@.tutorial, ',') + (ser_mem("Icon"@, rec@.icon, ','))))))),
{
        let kq1 = crate::text::chars_of("\"Id\":");
        proof {
            reveal_strlit("\"Id\":");
            reveal_strlit("Id");
            assert(kq1@ =~= key_lit("Id"@));
        }
        write_mem_exec(out, &kq1, Ghost("Id"@), &rec.id, ',');
        let kq2 = crate::text::chars_of("\"Enable\":");
        proof {
            reveal_strlit("\"Enable\":");
            reveal_strlit("Enable");
            assert(kq2@ =~= key_lit("Enable"@));
        }
        write_mem_exec(out, &kq2, Ghost("Enable"@), &rec.enable, ',');
        let kq3 = crate::text::chars_of("\"Lock\":");
        proof {
            reveal_strlit("\"Lock\":");
            reveal_strlit("Lock");
            assert(kq3@ =~= key_lit("Lock"@));
        }
        write_mem_exec(out, &kq3, Ghost("Lock"@), &rec.lock, ',');
        let kq4 = crate::text::chars_of("\"Role\":");
        proof {
            reveal_strlit("\"Role\":");
            reveal_strlit("Role");
            assert(kq4@ =~= key_lit("Role"@));
        }
        write_mem_exec(out, &kq4, Ghost("Role"@), &rec.role, ',');
        let kq5 = crate::text::chars_of("\"Tutorial\":");
        proof {
            reveal_strlit("\"Tutorial\":");
            reveal_strlit("Tutorial");
            assert(kq5@ =~= key_lit("Tutorial"@));
        }
        write_mem_exec(out, &kq5, Ghost("Tutorial"@), &rec.tutorial, ',');
        let kq6 = crate::text::chars_of("\"Icon\":");
        proof {
            reveal_strlit("\"Icon\":");
            reveal_strlit("Icon");
            assert(kq6@ =~= key_lit("Icon"@));
        }
        write_mem_exec(out, &kq6, Ghost("Icon"@), &rec.icon, ',');
        proof {
            assert(out@ =~= old(out)@ + (ser_mem("Id"@, rec@.id, ',') + (ser_mem("Enable"@, rec@.enable, ',') + (ser_mem("Lock"@, rec@.lock, ',') + (ser_mem("Role"@, rec@.role, ',') + (ser_mem("Tutorial"@, rec@.tutorial, ',') + (ser_mem("Icon"@, rec@.icon, ','))))))));
        }
}

/// Parse members of a relics record (part 1), as the spec does.
#[verifier::spinoff_prover]
#[verifier::rlimit(100)]
fn parse_relics_part1_exec(s: &Vec<char>, i: usize) -> (r: Option<((i32, i32, i32, i32, i32, String), usize)>)
    requires
        i <= s@.len(),
    ensures
        match r {
            Some(((x1, x2, x3, x4, x5, x6), j)) => parse_relics_part1(s@, i as int) == Some(
                ((x1@, x2@, x3@, x4@, x5@, x6@), j as int),
            ) && i < j <= s@.len(),
            None => parse_relics_part1(s@, i as int) is None,
        },
{
        let kq1 = crate::text::chars_of("\"Id\":");
        proof {
            reveal_strlit("\"Id\":");
            reveal_strlit("Id");
            assert(kq1@ =~= key_lit("Id"@));
        }
        let (x1, p1) = match parse_mem_exec::<i32>(s, i, &kq1, Ghost("Id"@), ',') {
            None => {
                return None;
            },
            Some(x) => x,
        };
        let kq2 = crate::text::chars_of("\"Enable\":");
        proof {
            reveal_strlit("\"Enable\":");
            reveal_strlit("Enable");
            assert(kq2@ =~= key_lit("Enable"@));
        }
        let (x2, p2) = match parse_mem_exec::<i32>(s, p1, &kq2, Ghost("Enable"@), ',') {
            None => {
                return None;
            },
            Some(x) => x,
        };
        let kq3 = crate::text::chars_of("\"Lock\":");
        proof {
            reveal_strlit("\"Lock\":");
            reveal_strlit("Lock");
            assert(kq3@ =~= key_lit("Lock"@));
        }
        let (x3, p3) = match parse_mem_exec::<i32>(s, p2, &kq3, Ghost("Lock"@), ',') {
            None => {
                return None;
            },
            Some(x) => x,
        };
        let kq4 = crate::text::chars_of("\"Role\":");
        proof {
            reveal_strlit("\"Role\":");
            reveal_strlit("Role");
            assert(kq4@ =~= key_lit("Role"@));
        }
        let (x4, p4) = match parse_mem_exec::<i32>(s, p3, &kq4, Ghost("Role"@), ',') {
            None => {
                return None;
            },
            Some(x) => x,
        };
        let kq5 = crate::text::chars_of("\"Tutorial\":");
        proof {
            reveal_strlit("\"Tutorial\":");
            reveal_strlit("Tutorial");
            assert(kq5@ =~= key_lit("Tutorial"@));
        }
        let (x5, p5) = match parse_mem_exec::<i32>(s, p4, &kq5, Ghost("Tutorial"@), ',') {
            None => {
                return None;
            },
            Some(x) => x,
        };
        let kq6 = crate::text::chars_of("\"Icon\":");
        proof {
            reveal_strlit("\"Icon\":");
            reveal_strlit("Icon");
            assert(kq6@ =~= key_lit("Icon"@));
        }
        let (x6, p6) = match parse_mem_exec::<String>(s, p5, &kq6, Ghost("Icon"@), ',') {
            None => {
                return None;
            },
            Some(x) => x,
        };
        Some(((x1, x2, x3, x4, x5, x6), p6))
}

/// Append members of a relics record (part 2).
#[verifier::spinoff_prover]
#[verifier::rlimit(100)]
fn write_relics_part2(rec: &crate::bean::Relics, out: &mut Vec<char>)
    ensures
        final(out)@ == old(out)@ + (ser_mem("SmallIcon"@, rec@.small_icon, ',') + (ser_mem("NameId"@, rec@.name_id, ',') + (ser_mem("DescId"@, rec@.desc_id, ',') + (ser_mem("OtherDescId"@, rec@.other_desc_id, ',') + (ser_mem_list("DescTip"@, rec@.desc_tip, ',') + (ser_mem("Rare"@, rec@.rare, ','))))))),
{
        let kq1 = crate::text::chars_of("\"SmallIcon\":");
        proof {
            reveal_strlit("\"SmallIcon\":");
            reveal_strlit("SmallIcon");
            assert(kq1@ =~= key_lit("SmallIcon"@));
        }
        write_mem_exec(out, &kq1, Ghost("SmallIcon"@), &rec.small_icon, ',');
        let kq2 = crate::text::chars_of("\"NameId\":");
        proof {
            reveal_strlit("\"NameId\":");
            reveal_strlit("NameId");
            assert(kq2@ =~= key_lit("NameId"@));
        }
        write_mem_exec(out, &kq2, Ghost("NameId"@), &rec.name_id, ',');
        let kq3 = crate::text::chars_of("\"DescId\":");
        proof {
            reveal_strlit("\"DescId\":");
            reveal_strlit("DescId");
            assert(kq3@ =~= key_lit("DescId"@));
        }
        write_mem_exec(out, &kq3, Ghost("DescId"@), &rec.desc_id, ',');
        let kq4 = crate::text::chars_of("\"OtherDescId\":");
        proof {
            reveal_strlit("\"OtherDescId\":");
            reveal_strlit("OtherDescId");
            assert(kq4@ =~= key_lit("OtherDescId"@));
        }
        write_mem_exec(out, &kq4, Ghost("OtherDescId"@), &rec.other_desc_id, ',');
        let kq5 = crate::text::chars_of("\"DescTip\":");
        proof {
            reveal_strlit("\"DescTip\":");
            reveal_strlit("DescTip");
            assert(kq5@ =~= key_lit("DescTip"@));
        }
        write_mem_list_exec(out, &kq5, Ghost("DescTip"@), &rec.desc_tip, ',');
        let kq6 = crate::text::chars_of("\"Rare\":");
        proof {
            reveal_strlit("\"Rare\":");
            reveal_strlit("Rare");
            assert(kq6@ =~= key_lit("Rare"@));
        }
        write_mem_exec(out, &kq6, Ghost("Rare"@), &rec.rare, ',');
        proof {
            assert(views_of(rec.desc_tip@) =~= rec@.desc_tip);
            assert(out@ =~= old(out)@ + (ser_mem("SmallIcon"@, rec@.small_icon, ',') + (ser_mem("NameId"@, rec@.name_id, ',') + (ser_mem("DescId"@, rec@.desc_id, ',') + (ser_mem("OtherDescId"@, rec@.other_desc_id, ',') + (ser_mem_list("DescTip"@, rec@.desc_tip, ',') + (ser_mem("Rare"@, rec@.rare, ','))))))));
        }
}

/// Parse members of a relics record (part 2), as the spec does.
#[verifier::spinoff_prover]
#[verifier::rlimit(100)]
fn parse_relics_part2_exec(s: &Vec<char>, i: usize) -> (r: Option<((String, i32, i32, i32, Vec<crate::bean::Etip>, i32), usize)>)
    requires
        i <= s@.len(),
    ensures
        match r {
            Some(((x1, x2, x3, x4, x5, x6), j)) => parse_relics_part2(s@, i as int) == Some(
                ((x1@, x2@, x3@, x4@, views_of(x5@), x6@), j as int),
            ) && i < j <= s@.len(),
            None => parse_relics_part2(s@, i as int) is None,
        },
{
        let kq1 = crate::text::chars_of("\"SmallIcon\":");
        proof {
            reveal_strlit("\"SmallIcon\":");
            reveal_strlit("SmallIcon");
            assert(kq1@ =~= key_lit("SmallIcon"@));
        }
        let (x1, p1) = match parse_mem_exec::<String>(s, i, &kq1, Ghost("SmallIcon"@), ',') {
            None => {
                return None;
            },
            Some(x) => x,
        };
        let kq2 = crate::text::chars_of("\"NameId\":");
        proof {
            reveal_strlit("\"NameId\":");
            reveal_strlit("NameId");
            assert(kq2@ =~= key_lit("NameId"@));
        }
        let (x2, p2) = match parse_mem_exec::<i32>(s, p1, &kq2, Ghost("NameId"@), ',') {
            None => {
                return None;
            },
            Some(x) => x,
        };
        let kq3 = crate::text::chars_of("\"DescId\":");
        proof {
            reveal_strlit("\"DescId\":");
            reveal_strlit("DescId");
            assert(kq3@ =~= key_lit("DescId"@));
        }
        let (x3, p3) = match parse_mem_exec::<i32>(s, p2, &kq3, Ghost("DescId"@), ',') {
            None => {
                return None;
            },
            Some(x) => x,
        };
        let kq4 = crate::text::chars_of("\"OtherDescId\":");
        proof {
            reveal_strlit("\"OtherDescId\":");
            reveal_strlit("OtherDescId");
            assert(kq4@ =~= key_lit("OtherDescId"@));
        }
        let (x4, p4) = match parse_mem_exec::<i32>(s, p3, &kq4, Ghost("OtherDescId"@), ',') {
            None => {
                return None;
            },
            Some(x) => x,
        };
        let kq5 = crate::text::chars_of("\"DescTip\":");
        proof {
            reveal_strlit("\"DescTip\":");
            reveal_strlit("DescTip");
            assert(kq5@ =~= key_lit("DescTip"@));
        }
        let (x5, p5) = match parse_mem_list_exec::<crate::bean::Etip>(s, p4, &kq5, Ghost("DescTip"@), ',') {
            None => {
                return None;
            },
            Some(x) => x,
        };
        let kq6 = crate::text::chars_of("\"Rare\":");
        proof {
            reveal_strlit("\"Rare\":");
            reveal_strlit("Rare");
            assert(kq6@ =~= key_lit("Rare"@));
        }
        let (x6, p6) = match parse_mem_exec::<i32>(s, p5, &kq6, Ghost("Rare"@), ',') {
            None => {
                return None;
            },
            Some(x) => x,
        };
        Some(((x1, x2, x3, x4, x5, x6), p6))
}

/// Append members of a relics record (part 3).
#[verifier::spinoff_prover]
#[verifier::rlimit(100)]
fn write_relics_part3(rec: &crate::bean::Relics, out: &mut Vec<char>)
    ensures
        final(out)@ == old(out)@ + (ser_mem_list("Passive"@, rec@.passive, ',') + (ser_mem("TriggerType"@, rec@.trigger_type, ',') + (ser_mem_list("TriggerParam"@, rec@.trigger_param, ',') + (ser_mem("EventTip"@, rec@.event_tip, ',') + (ser_mem("TriggerAction"@, rec@.trigger_action, ',') + (ser_mem_list("TriggerValue"@, rec@.trigger_value, ','))))))),
{
        let kq1 = crate::text::chars_of("\"Passive\":");
        proof {
            reveal_strlit("\"Passive\":");
            reveal_strlit("Passive");
            assert(kq1@ =~= key_lit("Passive"@));
        }
        write_mem_list_exec(out, &kq1, Ghost("Passive"@), &rec.passive, ',');
        let kq2 = crate::text::chars_of("\"TriggerType\":");
        proof {
            reveal_strlit("\"TriggerType\":");
            reveal_strlit("TriggerType");
            assert(kq2@ =~= key_lit("TriggerType"@));
        }
        write_mem_exec(out, &kq2, Ghost("TriggerType"@), &rec.trigger_type, ',');
        let kq3 = crate::text::chars_of("\"TriggerParam\":");
        proof {
            reveal_strlit("\"TriggerParam\":");
            reveal_strlit("TriggerParam");
            assert(kq3@ =~= key_lit("TriggerParam"@));
        }
        write_mem_list_exec(out, &kq3, Ghost("TriggerParam"@), &rec.trigger_param, ',');
        let kq4 = crate::text::chars_of("\"EventTip\":");
        proof {
            reveal_strlit("\"EventTip\":");
            reveal_strlit("EventTip");
            assert(kq4@ =~= key_lit("EventTip"@));
        }
        write_mem_exec(out, &kq4, Ghost("EventTip"@), &rec.event_tip, ',');
        let kq5 = crate::text::chars_of("\"TriggerAction\":");
        proof {
            reveal_strlit("\"TriggerAction\":");
            reveal_strlit("TriggerAction");
            assert(kq5@ =~= key_lit("TriggerAction"@));
        }
        write_mem_exec(out, &kq5, Ghost("TriggerAction"@), &rec.trigger_action, ',');
        let kq6 = crate::text::chars_of("\"TriggerValue\":");
        proof {
            reveal_strlit("\"TriggerValue\":");
            reveal_strlit("TriggerValue");
            assert(kq6@ =~= key_lit("TriggerValue"@));
        }
        write_mem_list_exec(out, &kq6, Ghost("TriggerValue"@), &rec.trigger_value, ',');
        proof {
            assert(views_of(rec.passive@) =~= rec@.passive);
            assert(views_of(rec.trigger_param@) =~= rec@.trigger_param);
            assert(views_of(rec.trigger_value@) =~= rec@.trigger_value);
            assert(out@ =~= old(out)@ + (ser_mem_list("Passive"@, rec@.passive, ',') + (ser_mem("TriggerType"@, rec@.trigger_type, ',') + (ser_mem_list("TriggerParam"@, rec@.trigger_param, ',') + (ser_mem("EventTip"@, rec@.event_tip, ',') + (ser_mem("TriggerAction"@, rec@.trigger_action, ',') + (ser_mem_list("TriggerValue"@, rec@.trigger_value, ','))))))));
        }
}

/// Parse members of a relics record (part 3), as the spec does.
#[verifier::spinoff_prover]
#[verifier::rlimit(100)]
fn parse_relics_part3_exec(s: &Vec<char>, i: usize) -> (r: Option<((Vec<i32>, i32, Vec<i32>, i32, i32, Vec<i32>), usize)>)
    requires
        i <= s@.len(),
    ensures
        match r {
            Some(((x1, x2, x3, x4, x5, x6), j)) => parse_relics_part3(s@, i as int) == Some(
                ((views_of(x1@), x2@, views_of(x3@), x4@, x5@, views_of(x6@)), j as int),
            ) && i < j <= s@.len(),
            None => parse_relics_part3(s@, i as int) is None,
        },
{
        let kq1 = crate::text::chars_of("\"Passive\":");
        proof {
            reveal_strlit("\"Passive\":");
            reveal_strlit("Passive");
            assert(kq1@ =~= key_lit("Passive"@));
        }
        let (x1, p1) = match parse_mem_list_exec::<i32>(s, i, &kq1, Ghost("Passive"@), ',') {
            None => {
                return None;
            },
            Some(x) => x,
        };
        let kq2 = crate::text::chars_of("\"TriggerType\":");
        proof {
            reveal_strlit("\"TriggerType\":");
            reveal_strlit("TriggerType");
            assert(kq2@ =~= key_lit("TriggerType"@));
        }
        let (x2, p2) = match parse_mem_exec::<i32>(s, p1, &kq2, Ghost("TriggerType"@), ',') {
            None => {
                return None;
            },
            Some(x) => x,
        };
        let kq3 = crate::text::chars_of("\"TriggerParam\":");
        proof {
            reveal_strlit("\"TriggerParam\":");
            reveal_strlit("TriggerParam");
            assert(kq3@ =~= key_lit("TriggerParam"@));
        }
        let (x3, p3) = match parse_mem_list_exec::<i32>(s, p2, &kq3, Ghost("TriggerParam"@), ',') {
            None => {
                return None;
            },
            Some(x) => x,
        };
        let kq4 = crate::text::chars_of("\"EventTip\":");
        proof {
            reveal_strlit("\"EventTip\":");
            reveal_strlit("EventTip");
            assert(kq4@ =~= key_lit("EventTip"@));
        }
        let (x4, p4) = match parse_mem_exec::<i32>(s, p3, &kq4, Ghost("EventTip"@), ',') {
            None => {
                return None;
            },
            Some(x) => x,
        };
        let kq5 = crate::text::chars_of("\"TriggerAction\":");
        proof {
            reveal_strlit("\"TriggerAction\":");
            reveal_strlit("TriggerAction");
            assert(kq5@ =~= key_lit("TriggerAction"@));
        }
        let (x5, p5) = match parse_mem_exec::<i32>(s, p4, &kq5, Ghost("TriggerAction"@), ',') {
            None => {
                return None;
            },
            Some(x) => x,
        };
        let kq6 = crate::text::chars_of("\"TriggerValue\":");
        proof {
            reveal_strlit("\"TriggerValue\":");
            reveal_strlit("TriggerValue");
            assert(kq6@ =~= key_lit("TriggerValue"@));
        }
        let (x6, p6) = match parse_mem_list_exec::<i32>(s, p5, &kq6, Ghost("TriggerValue"@), ',') {
            None => {
                return None;
            },
            Some(x) => x,
        };
        Some(((x1, x2, x3, x4, x5, x6), p6))
}

/// Append members of a relics record (part 4).
#[verifier::spinoff_prover]
#[verifier::rlimit(100)]
fn write_relics_part4(rec: &crate::bean::Relics, out: &mut Vec<char>)
    ensures
        final(out)@ == old(out)@ + (ser_mem_list("OtherValue"@, rec@.other_value, '}')),
{
        let kq1 = crate::text::chars_of("\"OtherValue\":");
        proof {
            reveal_strlit("\"OtherValue\":");
            reveal_strlit("OtherValue");
            assert(kq1@ =~= key_lit("OtherValue"@));
        }
        write_mem_list_exec(out, &kq1, Ghost("OtherValue"@), &rec.other_value, '}');
        proof {
            assert(views_of(rec.other_value@) =~= rec@.other_value);
            assert(out@ =~= old(out)@ + (ser_mem_list("OtherValue"@, rec@.other_value, '}')));
        }
}

/// Parse members of a relics record (part 4), as the spec does.
#[verifier::spinoff_prover]
#[verifier::rlimit(100)]
fn parse_relics_part4_exec(s: &Vec<char>, i: usize) -> (r: Option<((Vec<i32>), usize)>)
    requires
        i <= s@.len(),
    ensures
        match r {
            Some(((x1), j)) => parse_relics_part4(s@, i as int) == Some(
                ((views_of(x1@)), j as int),
            ) && i < j <= s@.len(),
            None => parse_relics_part4(s@, i as int) is None,
        },
{
        let kq1 = crate::text::chars_of("\"OtherValue\":");
        proof {
            reveal_strlit("\"OtherValue\":");
            reveal_strlit("OtherValue");
            assert(kq1@ =~= key_lit("OtherValue"@));
        }
        let (x1, p1) = match parse_mem_list_exec::<i32>(s, i, &kq1, Ghost("OtherValue"@), '}') {
            None => {
                return None;
            },
            Some(x) => x,
        };
        Some(((x1), p1))
}

impl WireExec for crate::bean::Relics {
    #[verifier::spinoff_prover]
    #[verifier::rlimit(100)]
    fn wire_write(&self, out: &mut Vec<char>) {
        out.push('{');
        write_relics_part1(self, out);
        write_relics_part2(self, out);
        write_relics_part3(self, out);
        write_relics_part4(self, out);
        proof {
            assert(out@ =~= old(out)@ + self@.wire_ser());
        }
    }

    #[verifier::spinoff_prover]
    #[verifier::rlimit(100)]
    fn wire_parse_exec(s: &Vec<char>, i: usize) -> (r: Option<(crate::bean::Relics, usize)>) {
        if i >= s.len() || s[i] != '{' {
            return None;
        }
        let ((x0_1, x0_2, x0_3, x0_4, x0_5, x0_6), q1) = match parse_relics_part1_exec(s, i + 1) {
            None => {
                return None;
            },
            Some(x) => x,
        };
        let ((x1_1, x1_2, x1_3, x1_4, x1_5, x1_6), q2) = match parse_relics_part2_exec(s, q1) {
            None => {
                return None;
            },
            Some(x) => x,
        };
        let ((x2_1, x2_2, x2_3, x2_4, x2_5, x2_6), q3) = match parse_relics_part3_exec(s, q2) {
            None => {
                return None;
            },
            Some(x) => x,
        };
        let ((x3_1), q4) = match parse_relics_part4_exec(s, q3) {
            None => {
                return None;
            },
            Some(x) => x,
        };
        let rec = crate::bean::Relics { id: x0_1, enable: x0_2, lock: x0_3, role: x0_4, tutorial: x0_5, icon: x0_6, small_icon: x1_1, name_id: x1_2, desc_id: x1_3, other_desc_id: x1_4, desc_tip: x1_5, rare: x1_6, passive: x2_1, trigger_type: x2_2, trigger_param: x2_3, event_tip: x2_4, trigger_action: x2_5, trigger_value: x2_6, other_value: x3_1 };
        proof {
            assert(views_of(x1_5@) =~= rec@.desc_tip);
            assert(views_of(x2_1@) =~= rec@.passive);
            assert(views_of(x2_3@) =~= rec@.trigger_param);
            assert(views_of(x2_6@) =~= rec@.trigger_value);
            assert(views_of(x3_1@) =~= rec@.other_value);
            assert(<crate::bean::Relics as View>::V::wire_parse(s@, i as int) == Some((rec@, q4 as int)));
        }
        Some((rec, q4))
    }
}

/// Parse members of an element record (part 1).
pub open spec fn parse_element_part1(s: Seq<char>, i: int) -> Option<((i32, i32, i32, i32, i32, i32), int)> {
    match parse_mem::<i32>("Id"@, ',', s, i) {
        None => None,
        Some((x1, p1)) =>
        match parse_mem::<i32>("Lock"@, ',', s, p1) {
            None => None,
            Some((x2, p2)) =>
            match parse_mem::<i32>("Enable"@, ',', s, p2) {
                None => None,
                Some((x3, p3)) =>
                match parse_mem::<i32>("Role"@, ',', s, p3) {
                    None => None,
                    Some((x4, p4)) =>
                    match parse_mem::<i32>("NameId"@, ',', s, p4) {
                        None => None,
                        Some((x5, p5)) =>
                        match parse_mem::<i32>("DescId"@, ',', s, p5) {
                            None => None,
                            Some((x6, p6)) =>
                            Some(((x1, x2, x3, x4, x5, x6), p6)),
                        },
                    },
                },
            },
        },
    }
}

/// Parse members of an element record (part 2).
pub open spec fn parse_element_part2(s: Seq<char>, i: int) -> Option<((Seq<crate::bean::Etip>, Seq<i32>, Seq<char>, i32, crate::bean::ERaceType, crate::bean::ERaceType), int)> {
    match parse_mem_list::<crate::bean::Etip>("Desctip"@, ',', s, i) {
        None => None,
        Some((x1, p1)) =>
        match parse_mem_list::<i32>("DescAttribute"@, ',', s, p1) {
            None => None,
            Some((x2, p2)) =>
            match parse_mem::<Seq<char>>("Icon"@, ',', s, p2) {
                None => None,
                Some((x3, p3)) =>
                match parse_mem::<i32>("Rare"@, ',', s, p3) {
                    None => None,
                    Some((x4, p4)) =>
                    match parse_mem::<crate::bean::ERaceType>("RaceType"@, ',', s, p4) {
                        None => None,
                        Some((x5, p5)) =>
                        match parse_mem::<crate::bean::ERaceType>("OtherRace"@, ',', s, p5) {
                            None => None,
                            Some((x6, p6)) =>
                            Some(((x1, x2, x3, x4, x5, x6), p6)),
                        },
                    },
                },
            },
        },
    }
}

/// Parse members of an element record (part 3).
pub open spec fn parse_element_part3(s: Seq<char>, i: int) -> Option<((Seq<crate::bean::ElementAttribute>, i32, Seq<i32>, i32, i32, Seq<crate::bean::TriggerValueV>), int)> {
    match parse_mem_list::<crate::bean::ElementAttribute>("Attribute"@, ',', s, i) {
        None => None,
        Some((x1, p1)) =>
        match parse_mem::<i32>("TriggerType"@, ',', s, p1) {
            None => None,
            Some((x2, p2)) =>
            match parse_mem_list::<i32>("TriggerParam"@, ',', s, p2) {
                None => None,
                Some((x3, p3)) =>
                match parse_mem::<i32>("EventTip"@, ',', s, p3) {
                    None => None,
                    Some((x4, p4)) =>
                    match parse_mem::<i32>("TriggerAction"@, ',', s, p4) {
                        None => None,
                        Some((x5, p5)) =>
                        match parse_mem_list::<crate::bean::TriggerValueV>("TriggerValue"@, ',', s, p5) {
                            None => None,
                            Some((x6, p6)) =>
                            Some(((x1, x2, x3, x4, x5, x6), p6)),
                        },
                    },
                },
            },
        },
    }
}

/// Parse members of an element record (part 4).
pub open spec fn parse_element_part4(s: Seq<char>, i: int) -> Option<((Seq<i32>, i32, i32, i32), int)> {
    match parse_mem_list::<i32>("OtherValue"@, ',', s, i) {
        None => None,
        Some((x1, p1)) =>
        match parse_mem::<i32>("AttackSound"@, ',', s, p1) {
            None => None,
            Some((x2, p2)) =>
            match parse_mem::<i32>("SelectSound"@, ',', s, p2) {
                None => None,
                Some((x3, p3)) =>
                match parse_mem::<i32>("AttackParticle"@, '}', s, p3) {
                    None => None,
                    Some((x4, p4)) =>
                    Some(((x1, x2, x3, x4), p4)),
                },
            },
        },
    }
}

/// Part 1 of the element record reads back its canonical text.
#[verifier::spinoff_prover]
#[verifier::rlimit(100)]
proof fn lemma_element_part1(v: crate::bean::ElementV, s: Seq<char>, p: int)
    requires
        0 <= p,
        p + (ser_mem("Id"@, v.id, ',') + (ser_mem("Lock"@, v.lock, ',') + (ser_mem("Enable"@, v.enable, ',') + (ser_mem("Role"@, v.role, ',') + (ser_mem("NameId"@, v.name_id, ',') + (ser_mem("DescId"@, v.desc_id, ','))))))).len() <= s.len(),
        s.subrange(p, p + (ser_mem("Id"@, v.id, ',') + (ser_mem("Lock"@, v.lock, ',') + (ser_mem("Enable"@, v.enable, ',') + (ser_mem("Role"@, v.role, ',') + (ser_mem("NameId"@, v.name_id, ',') + (ser_mem("DescId"@, v.desc_id, ','))))))).len()) == ser_mem("Id"@, v.id, ',') + (ser_mem("Lock"@, v.lock, ',') + (ser_mem("Enable"@, v.enable, ',') + (ser_mem("Role"@, v.role, ',') + (ser_mem("NameId"@, v.name_id, ',') + (ser_mem("DescId"@, v.desc_id, ',')))))),
    ensures
        parse_element_part1(s, p) == Some(((v.id, v.lock, v.enable, v.role, v.name_id, v.desc_id), p + (ser_mem("Id"@, v.id, ',') + (ser_mem("Lock"@, v.lock, ',') + (ser_mem("Enable"@, v.enable, ',') + (ser_mem("Role"@, v.role, ',') + (ser_mem("NameId"@, v.name_id, ',') + (ser_mem("DescId"@, v.desc_id, ','))))))).len())),
{
        let m1 = ser_mem("Id"@, v.id, ',');
        let m2 = ser_mem("Lock"@, v.lock, ',');
        let m3 = ser_mem("Enable"@, v.enable, ',');
        let m4 = ser_mem("Role"@, v.role, ',');
        let m5 = ser_mem("NameId"@, v.name_id, ',');
        let m6 = ser_mem("DescId"@, v.desc_id, ',');
        let t6 = m6;
        let t5 = m5 + t6;
        let t4 = m4 + t5;
        let t3 = m3 + t4;
        let t2 = m2 + t3;
        let t1 = m1 + t2;
        let p0 = p;
        lemma_embed_split(s, p0, m1, t2);
        lemma_parse_ser_mem::<i32>("Id"@, v.id, ',', s, p0);
        let p1 = p0 + m1.len();
        lemma_embed_split(s, p1, m2, t3);
        lemma_parse_ser_mem::<i32>("Lock"@, v.lock, ',', s, p1);
        let p2 = p1 + m2.len();
        lemma_embed_split(s, p2, m3, t4);
        lemma_parse_ser_mem::<i32>("Enable"@, v.enable, ',', s, p2);
        let p3 = p2 + m3.len();
        lemma_embed_split(s, p3, m4, t5);
        lemma_parse_ser_mem::<i32>("Role"@, v.role, ',', s, p3);
        let p4 = p3 + m4.len();
        lemma_embed_split(s, p4, m5, t6);
        lemma_parse_ser_mem::<i32>("NameId"@, v.name_id, ',', s, p4);
        let p5 = p4 + m5.len();
        lemma_parse_ser_mem::<i32>("DescId"@, v.desc_id, ',', s, p5);
        let p6 = p5 + m6.len();
}

/// Part 2 of the element record reads back its canonical text.
#[verifier::spinoff_prover]
#[verifier::rlimit(100)]
proof fn lemma_element_part2(v: crate::bean::ElementV, s: Seq<char>, p: int)
    requires
        0 <= p,
        p + (ser_mem_list("Desctip"@, v.desctip, ',') + (ser_mem_list("DescAttribute"@, v.desc_attribute, ',') + (ser_mem("Icon"@, v.icon, ',') + (ser_mem("Rare"@, v.rare, ',') + (ser_mem("RaceType"@, v.race_type, ',') + (ser_mem("OtherRace"@, v.other_race, ','))))))).len() <= s.len(),
        s.subrange(p, p + (ser_mem_list("Desctip"@, v.desctip, ',') + (ser_mem_list("DescAttribute"@, v.desc_attribute, ',') + (ser_mem("Icon"@, v.icon, ',') + (ser_mem("Rare"@, v.rare, ',') + (ser_mem("RaceType"@, v.race_type, ',') + (ser_mem("OtherRace"@, v.other_race, ','))))))).len()) == ser_mem_list("Desctip"@, v.desctip, ',') + (ser_mem_list("DescAttribute"@, v.desc_attribute, ',') + (ser_mem("Icon"@, v.icon, ',') + (ser_mem("Rare"@, v.rare, ',') + (ser_mem("RaceType"@, v.race_type, ',') + (ser_mem("OtherRace"@, v.other_race, ',')))))),
    ensures
        parse_element_part2(s, p) == Some(((v.desctip, v.desc_attribute, v.icon, v.rare, v.race_type, v.other_race), p + (ser_mem_list("Desctip"@, v.desctip, ',') + (ser_mem_list("DescAttribute"@, v.desc_attribute, ',') + (ser_mem("Icon"@, v.icon, ',') + (ser_mem("Rare"@, v.rare, ',') + (ser_mem("RaceType"@, v.race_type, ',') + (ser_mem("OtherRace"@, v.other_race, ','))))))).len())),
{
        let m1 = ser_mem_list("Desctip"@, v.desctip, ',');
        let m2 = ser_mem_list("DescAttribute"@, v.desc_attribute, ',');
        let m3 = ser_mem("Icon"@, v.icon, ',');
        let m4 = ser_mem("Rare"@, v.rare, ',');
        let m5 = ser_mem("RaceType"@, v.race_type, ',');
        let m6 = ser_mem("OtherRace"@, v.other_race, ',');
        let t6 = m6;
        let t5 = m5 + t6;
        let t4 = m4 + t5;
        let t3 = m3 + t4;
        let t2 = m2 + t3;
        let t1 = m1 + t2;
        let p0 = p;
        lemma_embed_split(s, p0, m1, t2);
        lemma_parse_ser_mem_list::<crate::bean::Etip>("Desctip"@, v.desctip, ',', s, p0);
        let p1 = p0 + m1.len();
        lemma_embed_split(s, p1, m2, t3);
        lemma_parse_ser_mem_list::<i32>("DescAttribute"@, v.desc_attribute, ',', s, p1);
        let p2 = p1 + m2.len();
        lemma_embed_split(s, p2, m3, t4);
        lemma_parse_ser_mem::<Seq<char>>("Icon"@, v.icon, ',', s, p2);
        let p3 = p2 + m3.len();
        lemma_embed_split(s, p3, m4, t5);
        lemma_parse_ser_mem::<i32>("Rare"@, v.rare, ',', s, p3);
        let p4 = p3 + m4.len();
        lemma_embed_split(s, p4, m5, t6);
        lemma_parse_ser_mem::<crate::bean::ERaceType>("RaceType"@, v.race_type, ',', s, p4);
        let p5 = p4 + m5.len();
        lemma_parse_ser_mem::<crate::bean::ERaceType>("OtherRace"@, v.other_race, ',', s, p5);
        let p6 = p5 + m6.len();
}

/// Part 3 of the element record reads back its canonical text.
#[verifier::spinoff_prover]
#[verifier::rlimit(100)]
proof fn lemma_element_part3(v: crate::bean::ElementV, s: Seq<char>, p: int)
    requires
        0 <= p,
        p + (ser_mem_list("Attribute"@, v.attribute, ',') + (ser_mem("TriggerType"@, v.trigger_type, ',') + (ser_mem_list("TriggerParam"@, v.trigger_param, ',') + (ser_mem("EventTip"@, v.event_tip, ',') + (ser_mem("TriggerAction"@, v.trigger_action, ',') + (ser_mem_list("TriggerValue"@, v.trigger_value, ','))))))).len() <= s.len(),
        s.subrange(p, p + (ser_mem_list("Attribute"@, v.attribute, ',') + (ser_mem("TriggerType"@, v.trigger_type, ',') + (ser_mem_list("TriggerParam"@, v.trigger_param, ',') + (ser_mem("EventTip"@, v.event_tip, ',') + (ser_mem("TriggerAction"@, v.trigger_action, ',') + (ser_mem_list("TriggerValue"@, v.trigger_value, ','))))))).len()) == ser_mem_list("Attribute"@, v.attribute, ',') + (ser_mem("TriggerType"@, v.trigger_type, ',') + (ser_mem_list("TriggerParam"@, v.trigger_param, ',') + (ser_mem("EventTip"@, v.event_tip, ',') + (ser_mem("TriggerAction"@, v.trigger_action, ',') + (ser_mem_list("TriggerValue"@, v.trigger_value, ',')))))),
    ensures
        parse_element_part3(s, p) == Some(((v.attribute, v.trigger_type, v.trigger_param, v.event_tip, v.trigger_action, v.trigger_value), p + (ser_mem_list("Attribute"@, v.attribute, ',') + (ser_mem("TriggerType"@, v.trigger_type, ',') + (ser_mem_list("TriggerParam"@, v.trigger_param, ',') + (ser_mem("EventTip"@, v.event_tip, ',') + (ser_mem("TriggerAction"@, v.trigger_action, ',') + (ser_mem_list("TriggerValue"@, v.trigger_value, ','))))))).len())),
{
        let m1 = ser_mem_list("Attribute"@, v.attribute, ',');
        let m2 = ser_mem("TriggerType"@, v.trigger_type, ',');
        let m3 = ser_mem_list("TriggerParam"@, v.trigger_param, ',');
        let m4 = ser_mem("EventTip"@, v.event_tip, ',');
        let m5 = ser_mem("TriggerAction"@, v.trigger_action, ',');
        let m6 = ser_mem_list("TriggerValue"@, v.trigger_value, ',');
        let t6 = m6;
        let t5 = m5 + t6;
        let t4 = m4 + t5;
        let t3 = m3 + t4;
        let t2 = m2 + t3;
        let t1 = m1 + t2;
        let p0 = p;
        lemma_embed_split(s, p0, m1, t2);
        lemma_parse_ser_mem_list::<crate::bean::ElementAttribute>("Attribute"@, v.attribute, ',', s, p0);
        let p1 = p0 + m1.len();
        lemma_embed_split(s, p1, m2, t3);
        lemma_parse_ser_mem::<i32>("TriggerType"@, v.trigger_type, ',', s, p1);
        let p2 = p1 + m2.len();
        lemma_embed_split(s, p2, m3, t4);
        lemma_parse_ser_mem_list::<i32>("TriggerParam"@, v.trigger_param, ',', s, p2);
        let p3 = p2 + m3.len();
        lemma_embed_split(s, p3, m4, t5);
        lemma_parse_ser_mem::<i32>("EventTip"@, v.event_tip, ',', s, p3);
        let p4 = p3 + m4.len();
        lemma_embed_split(s, p4, m5, t6);
        lemma_parse_ser_mem::<i32>("TriggerAction"@, v.trigger_action, ',', s, p4);
        let p5 = p4 + m5.len();
        lemma_parse_ser_mem_list::<crate::bean::TriggerValueV>("TriggerValue"@, v.trigger_value, ',', s, p5);
        let p6 = p5 + m6.len();
}

/// Part 4 of the element record reads back its canonical text.
#[verifier::spinoff_prover]
#[verifier::rlimit(100)]
proof fn lemma_element_part4(v: crate::bean::ElementV, s: Seq<char>, p: int)
    requires
        0 <= p,
        p + (ser_mem_list("OtherValue"@, v.other_value, ',') + (ser_mem("AttackSound"@, v.attack_sound, ',') + (ser_mem("SelectSound"@, v.select_sound, ',') + (ser_mem("AttackParticle"@, v.attack_particle, '}'))))).len() <= s.len(),
        s.subrange(p, p + (ser_mem_list("OtherValue"@, v.other_value, ',') + (ser_mem("AttackSound"@, v.attack_sound, ',') + (ser_mem("SelectSound"@, v.select_sound, ',') + (ser_mem("AttackParticle"@, v.attack_particle, '}'))))).len()) == ser_mem_list("OtherValue"@, v.other_value, ',') + (ser_mem("AttackSound"@, v.attack_sound, ',') + (ser_mem("SelectSound"@, v.select_sound, ',') + (ser_mem("AttackParticle"@, v.attack_particle, '}')))),
    ensures
        parse_element_part4(s, p) == Some(((v.other_value, v.attack_sound, v.select_sound, v.attack_particle), p + (ser_mem_list("OtherValue"@, v.other_value, ',') + (ser_mem("AttackSound"@, v.attack_sound, ',') + (ser_mem("SelectSound"@, v.select_sound, ',') + (ser_mem("AttackParticle"@, v.attack_particle, '}'))))).len())),
{
        let m1 = ser_mem_list("OtherValue"@, v.other_value, ',');
        let m2 = ser_mem("AttackSound"@, v.attack_sound, ',');
        let m3 = ser_mem("SelectSound"@, v.select_sound, ',');
        let m4 = ser_mem("AttackParticle"@, v.attack_particle, '}');
        let t4 = m4;
        let t3 = m3 + t4;
        let t2 = m2 + t3;
        let t1 = m1 + t2;
        let p0 = p;
        lemma_embed_split(s, p0, m1, t2);
        lemma_parse_ser_mem_list::<i32>("OtherValue"@, v.other_value, ',', s, p0);
        let p1 = p0 + m1.len();
        lemma_embed_split(s, p1, m2, t3);
        lemma_parse_ser_mem::<i32>("AttackSound"@, v.attack_sound, ',', s, p1);
        let p2 = p1 + m2.len();
        lemma_embed_split(s, p2, m3, t4);
        lemma_parse_ser_mem::<i32>("SelectSound"@, v.select_sound, ',', s, p2);
        let p3 = p2 + m3.len();
        lemma_parse_ser_mem::<i32>("AttackParticle"@, v.attack_particle, '}', s, p3);
        let p4 = p3 + m4.len();
}

impl WireSpec for crate::bean::ElementV {
    open spec fn wire_ser(self) -> Seq<char> {
        seq!['{'] + (ser_mem("Id"@, self.id, ',') + (ser_mem("Lock"@, self.lock, ',') + (ser_mem("Enable"@, self.enable, ',') + (ser_mem("Role"@, self.role, ',') + (ser_mem("NameId"@, self.name_id, ',') + (ser_mem("DescId"@, self.desc_id, ',')))))) + (ser_mem_list("Desctip"@, self.desctip, ',') + (ser_mem_list("DescAttribute"@, self.desc_attribute, ',') + (ser_mem("Icon"@, self.icon, ',') + (ser_mem("Rare"@, self.rare, ',') + (ser_mem("RaceType"@, self.race_type, ',') + (ser_mem("OtherRace"@, self.other_race, ',')))))) + (ser_mem_list("Attribute"@, self.attribute, ',') + (ser_mem("TriggerType"@, self.trigger_type, ',') + (ser_mem_list("TriggerParam"@, self.trigger_param, ',') + (ser_mem("EventTip"@, self.event_tip, ',') + (ser_mem("TriggerAction"@, self.trigger_action, ',') + (ser_mem_list("TriggerValue"@, self.trigger_value, ',')))))) + (ser_mem_list("OtherValue"@, self.other_value, ',') + (ser_mem("AttackSound"@, self.attack_sound, ',') + (ser_mem("SelectSound"@, self.select_sound, ',') + (ser_mem("AttackParticle"@, self.attack_particle, '}'))))))))
    }

    open spec fn wire_parse(s: Seq<char>, i: int) -> Option<(crate::bean::ElementV, int)> {
        if !(0 <= i && i < s.len() && s[i] == '{') {
            None
        } else {
            match parse_element_part1(s, i + 1) {
                None => None,
                Some(((x0_1, x0_2, x0_3, x0_4, x0_5, x0_6), q1)) =>
                match parse_element_part2(s, q1) {
                    None => None,
                    Some(((x1_1, x1_2, x1_3, x1_4, x1_5, x1_6), q2)) =>
                    match parse_element_part3(s, q2) {
                        None => None,
                        Some(((x2_1, x2_2, x2_3, x2_4, x2_5, x2_6), q3)) =>
                        match parse_element_part4(s, q3) {
                            None => None,
                            Some(((x3_1, x3_2, x3_3, x3_4), q4)) =>
                            Some((crate::bean::ElementV { id: x0_1, lock: x0_2, enable: x0_3, role: x0_4, name_id: x0_5, desc_id: x0_6, desctip: x1_1, desc_attribute: x1_2, icon: x1_3, rare: x1_4, race_type: x1_5, other_race: x1_6, attribute: x2_1, trigger_type: x2_2, trigger_param: x2_3, event_tip: x2_4, trigger_action: x2_5, trigger_value: x2_6, other_value: x3_1, attack_sound: x3_2, select_sound: x3_3, attack_particle: x3_4 }, q4)),
                        },
                    },
                },
            }
        }
    }

    #[verifier::spinoff_prover]
    #[verifier::rlimit(100)]
    proof fn lemma_wire_roundtrip(v: crate::bean::ElementV, s: Seq<char>, i: int) {
        let u = v.wire_ser();
        let w1 = ser_mem("Id"@, v.id, ',') + (ser_mem("Lock"@, v.lock, ',') + (ser_mem("Enable"@, v.enable, ',') + (ser_mem("Role"@, v.role, ',') + (ser_mem("NameId"@, v.name_id, ',') + (ser_mem("DescId"@, v.desc_id, ','))))));
        let w2 = ser_mem_list("Desctip"@, v.desctip, ',') + (ser_mem_list("DescAttribute"@, v.desc_attribute, ',') + (ser_mem("Icon"@, v.icon, ',') + (ser_mem("Rare"@, v.rare, ',') + (ser_mem("RaceType"@, v.race_type, ',') + (ser_mem("OtherRace"@, v.other_race, ','))))));
        let w3 = ser_mem_list("Attribute"@, v.attribute, ',') + (ser_mem("TriggerType"@, v.trigger_type, ',') + (ser_mem_list("TriggerParam"@, v.trigger_param, ',') + (ser_mem("EventTip"@, v.event_tip, ',') + (ser_mem("TriggerAction"@, v.trigger_action, ',') + (ser_mem_list("TriggerValue"@, v.trigger_value, ','))))));
        let w4 = ser_mem_list("OtherValue"@, v.other_value, ',') + (ser_mem("AttackSound"@, v.attack_sound, ',') + (ser_mem("SelectSound"@, v.select_sound, ',') + (ser_mem("AttackParticle"@, v.attack_particle, '}'))));
        let t4 = w4;
        let t3 = w3 + t4;
        let t2 = w2 + t3;
        let t1 = w1 + t2;
        assert(u == seq!['{'] + t1);
        lemma_subrange_index(s, i, u, 0);
        assert(u[0] == '{');
        lemma_embed_split(s, i, seq!['{'], t1);
        let q0 = i + 1;
        lemma_embed_split(s, q0, w1, t2);
        lemma_element_part1(v, s, q0);
        let q1 = q0 + w1.len();
        lemma_embed_split(s, q1, w2, t3);
        lemma_element_part2(v, s, q1);
        let q2 = q1 + w2.len();
        lemma_embed_split(s, q2, w3, t4);
        lemma_element_part3(v, s, q2);
        let q3 = q2 + w3.len();
        lemma_element_part4(v, s, q3);
        let q4 = q3 + w4.len();
        assert(q4 == i + u.len());
        assert(v == (crate::bean::ElementV { id: v.id, lock: v.lock, enable: v.enable, role: v.role, name_id: v.name_id, desc_id: v.desc_id, desctip: v.desctip, desc_attribute: v.desc_attribute, icon: v.icon, rare: v.rare, race_type: v.race_type, other_race: v.other_race, attribute: v.attribute, trigger_type: v.trigger_type, trigger_param: v.trigger_param, event_tip: v.event_tip, trigger_action: v.trigger_action, trigger_value: v.trigger_value, other_value: v.other_value, attack_sound: v.attack_sound, select_sound: v.select_sound, attack_particle: v.attack_particle }));
    }
}

/// Append members of an element record (part 1).
#[verifier::spinoff_prover]
#[verifier::rlimit(100)]
fn write_element_part1(rec: &crate::bean::Element, out: &mut Vec<char>)
    ensures
        final(out)@ == old(out)@ + (ser_mem("Id"@, rec@.id, ',') + (ser_mem("Lock"@, rec@.lock, ',') + (ser_mem("Enable"@, rec@.enable, ',') + (ser_mem("Role"@, rec@.role, ',') + (ser_mem("NameId"@, rec@.name_id, ',') + (ser_mem("DescId"@, rec@.desc_id, ','))))))),
{
        let kq1 = crate::text::chars_of("\"Id\":");
        proof {
            reveal_strlit("\"Id\":");
            reveal_strlit("Id");
            assert(kq1@ =~= key_lit("Id"@));
        }
        write_mem_exec(out, &kq1, Ghost("Id"@), &rec.id, ',');
        let kq2 = crate::text::chars_of("\"Lock\":");
        proof {
            reveal_strlit("\"Lock\":");
            reveal_strlit("Lock");
            assert(kq2@ =~= key_lit("Lock"@));
        }
        write_mem_exec(out, &kq2, Ghost("Lock"@), &rec.lock, ',');
        let kq3 = crate::text::chars_of("\"Enable\":");
        proof {
            reveal_strlit("\"Enable\":");
            reveal_strlit("Enable");
            assert(kq3@ =~= key_lit("Enable"@));
        }
        write_mem_exec(out, &kq3, Ghost("Enable"@), &rec.enable, ',');
        let kq4 = crate::text::chars_of("\"Role\":");
        proof {
            reveal_strlit("\"Role\":");
            reveal_strlit("Role");
            assert(kq4@ =~= key_lit("Role"@));
        }
        write_mem_exec(out, &kq4, Ghost("Role"@), &rec.role, ',');
        let kq5 = crate::text::chars_of("\"NameId\":");
        proof {
            reveal_strlit("\"NameId\":");
            reveal_strlit("NameId");
            assert(kq5@ =~= key_lit("NameId"@));
        }
        write_mem_exec(out, &kq5, Ghost("NameId"@), &rec.name_id, ',');
        let kq6 = crate::text::chars_of("\"DescId\":");
        proof {
            reveal_strlit("\"DescId\":");
            reveal_strlit("DescId");
            assert(kq6@ =~= key_lit("DescId"@));
        }
        write_mem_exec(out, &kq6, Ghost("DescId"@), &rec.desc_id, ',');
        proof {
            assert(out@ =~= old(out)@ + (ser_mem("Id"@, rec@.id, ',') + (ser_mem("Lock"@, rec@.lock, ',') + (ser_mem("Enable"@, rec@.enable, ',') + (ser_mem("Role"@, rec@.role, ',') + (ser_mem("NameId"@, rec@.name_id, ',') + (ser_mem("DescId"@, rec@.desc_id, ','))))))));
        }
}

/// Parse members of an element record (part 1), as the spec does.
#[verifier::spinoff_prover]
#[verifier::rlimit(100)]
fn parse_element_part1_exec(s: &Vec<char>, i: usize) -> (r: Option<((i32, i32, i32, i32, i32, i32), usize)>)
    requires
        i <= s@.len(),
    ensures
        match r {
            Some(((x1, x2, x3, x4, x5, x6), j)) => parse_element_part1(s@, i as int) == Some(
                ((x1@, x2@, x3@, x4@, x5@, x6@), j as int),
            ) && i < j <= s@.len(),
            None => parse_element_part1(s@, i as int) is None,
        },
{
        let kq1 = crate::text::chars_of("\"Id\":");
        proof {
            reveal_strlit("\"Id\":");
            reveal_strlit("Id");
            assert(kq1@ =~= key_lit("Id"@));
        }
        let (x1, p1) = match parse_mem_exec::<i32>(s, i, &kq1, Ghost("Id"@), ',') {
            None => {
                return None;
            },
            Some(x) => x,
        };
        let kq2 = crate::text::chars_of("\"Lock\":");
        proof {
            reveal_strlit("\"Lock\":");
            reveal_strlit("Lock");
            assert(kq2@ =~= key_lit("Lock"@));
        }
        let (x2, p2) = match parse_mem_exec::<i32>(s, p1, &kq2, Ghost("Lock"@), ',') {
            None => {
                return None;
            },
            Some(x) => x,
        };
        let kq3 = crate::text::chars_of("\"Enable\":");
        proof {
            reveal_strlit("\"Enable\":");
            reveal_strlit("Enable");
            assert(kq3@ =~= key_lit("Enable"@));
        }
        let (x3, p3) = match parse_mem_exec::<i32>(s, p2, &kq3, Ghost("Enable"@), ',') {
            None => {
                return None;
            },
            Some(x) => x,
        };
        let kq4 = crate::text::chars_of("\"Role\":");
        proof {
            reveal_strlit("\"Role\":");
            reveal_strlit("Role");
            assert(kq4@ =~= key_lit("Role"@));
        }
        let (x4, p4) = match parse_mem_exec::<i32>(s, p3, &kq4, Ghost("Role"@), ',') {
            None => {
                return None;
            },
            Some(x) => x,
        };
        let kq5 = crate::text::chars_of("\"NameId\":");
        proof {
            reveal_strlit("\"NameId\":");
            reveal_strlit("NameId");
            assert(kq5@ =~= key_lit("NameId"@));
        }
        let (x5, p5) = match parse_mem_exec::<i32>(s, p4, &kq5, Ghost("NameId"@), ',') {
            None => {
                return None;
            },
            Some(x) => x,
        };
        let kq6 = crate::text::chars_of("\"DescId\":");
        proof {
            reveal_strlit("\"DescId\":");
            reveal_strlit("DescId");
            assert(kq6@ =~= key_lit("DescId"@));
        }
        let (x6, p6) = match parse_mem_exec::<i32>(s, p5, &kq6, Ghost("DescId"@), ',') {
            None => {
                return None;
            },
            Some(x) => x,
        };
        Some(((x1, x2, x3, x4, x5, x6), p6))
}

/// Append members of an element record (part 2).
#[verifier::spinoff_prover]
#[verifier::rlimit(100)]
fn write_element_part2(rec: &crate::bean::Element, out: &mut Vec<char>)
    ensures
        final(out)@ == old(out)@ + (ser_mem_list("Desctip"@, rec@.desctip, ',') + (ser_mem_list("DescAttribute"@, rec@.desc_attribute, ',') + (ser_mem("Icon"@, rec@.icon, ',') + (ser_mem("Rare"@, rec@.rare, ',') + (ser_mem("RaceType"@, rec@.race_type, ',') + (ser_mem("OtherRace"@, rec@.other_race, ','))))))),
{
        let kq1 = crate::text::chars_of("\"Desctip\":");
        proof {
            reveal_strlit("\"Desctip\":");
            reveal_strlit("Desctip");
            assert(kq1@ =~= key_lit("Desctip"@));
        }
        write_mem_list_exec(out, &kq1, Ghost("Desctip"@), &rec.desctip, ',');
        let kq2 = crate::text::chars_of("\"DescAttribute\":");
        proof {
            reveal_strlit("\"DescAttribute\":");
            reveal_strlit("DescAttribute");
            assert(kq2@ =~= key_lit("DescAttribute"@));
        }
        write_mem_list_exec(out, &kq2, Ghost("DescAttribute"@), &rec.desc_attribute, ',');
        let kq3 = crate::text::chars_of("\"Icon\":");
        proof {
            reveal_strlit("\"Icon\":");
            reveal_strlit("Icon");
            assert(kq3@ =~= key_lit("Icon"@));
        }
        write_mem_exec(out, &kq3, Ghost("Icon"@), &rec.icon, ',');
        let kq4 = crate::text::chars_of("\"Rare\":");
        proof {
            reveal_strlit("\"Rare\":");
            reveal_strlit("Rare");
            assert(kq4@ =~= key_lit("Rare"@));
        }
        write_mem_exec(out, &kq4, Ghost("Rare"@), &rec.rare, ',');
        let kq5 = crate::text::chars_of("\"RaceType\":");
        proof {
            reveal_strlit("\"RaceType\":");
            reveal_strlit("RaceType");
            assert(kq5@ =~= key_lit("RaceType"@));
        }
        write_mem_exec(out, &kq5, Ghost("RaceType"@), &rec.race_type, ',');
        let kq6 = crate::text::chars_of("\"OtherRace\":");
        proof {
            reveal_strlit("\"OtherRace\":");
            reveal_strlit("OtherRace");
            assert(kq6@ =~= key_lit("OtherRace"@));
        }
        write_mem_exec(out, &kq6, Ghost("OtherRace"@), &rec.other_race, ',');
        proof {
            assert(views_of(rec.desctip@) =~= rec@.desctip);
            assert(views_of(rec.desc_attribute@) =~= rec@.desc_attribute);
            assert(out@ =~= old(out)@ + (ser_mem_list("Desctip"@, rec@.desctip, ',') + (ser_mem_list("DescAttribute"@, rec@.desc_attribute, ',') + (ser_mem("Icon"@, rec@.icon, ',') + (ser_mem("Rare"@, rec@.rare, ',') + (ser_mem("RaceType"@, rec@.race_type, ',') + (ser_mem("OtherRace"@, rec@.other_race, ','))))))));
        }
}

/// Parse members of an element record (part 2), as the spec does.
#[verifier::spinoff_prover]
#[verifier::rlimit(100)]
fn parse_element_part2_exec(s: &Vec<char>, i: usize) -> (r: Option<((Vec<crate::bean::Etip>, Vec<i32>, String, i32, crate::bean::ERaceType, crate::bean::ERaceType), usize)>)
    requires
        i <= s@.len(),
    ensures
        match r {
            Some(((x1, x2, x3, x4, x5, x6), j)) => parse_element_part2(s@, i as int) == Some(
                ((views_of(x1@), views_of(x2@), x3@, x4@, x5@, x6@), j as int),
            ) && i < j <= s@.len(),
            None => parse_element_part2(s@, i as int) is None,
        },
{
        let kq1 = crate::text::chars_of("\"Desctip\":");
        proof {
            reveal_strlit("\"Desctip\":");
            reveal_strlit("Desctip");
            assert(kq1@ =~= key_lit("Desctip"@));
        }
        let (x1, p1) = match parse_mem_list_exec::<crate::bean::Etip>(s, i, &kq1, Ghost("Desctip"@), ',') {
            None => {
                return None;
            },
            Some(x) => x,
        };
        let kq2 = crate::text::chars_of("\"DescAttribute\":");
        proof {
            reveal_strlit("\"DescAttribute\":");
            reveal_strlit("DescAttribute");
            assert(kq2@ =~= key_lit("DescAttribute"@));
        }
        let (x2, p2) = match parse_mem_list_exec::<i32>(s, p1, &kq2, Ghost("DescAttribute"@), ',') {
            None => {
                return None;
            },
            Some(x) => x,
        };
        let kq3 = crate::text::chars_of("\"Icon\":");
        proof {
            reveal_strlit("\"Icon\":");
            reveal_strlit("Icon");
            assert(kq3@ =~= key_lit("Icon"@));
        }
        let (x3, p3) = match parse_mem_exec::<String>(s, p2, &kq3, Ghost("Icon"@), ',') {
            None => {
                return None;
            },
            Some(x) => x,
        };
        let kq4 = crate::text::chars_of("\"Rare\":");
        proof {
            reveal_strlit("\"Rare\":");
            reveal_strlit("Rare");
            assert(kq4@ =~= key_lit("Rare"@));
        }
        let (x4, p4) = match parse_mem_exec::<i32>(s, p3, &kq4, Ghost("Rare"@), ',') {
            None => {
                return None;
            },
            Some(x) => x,
        };
        let kq5 = crate::text::chars_of("\"RaceType\":");
        proof {
            reveal_strlit("\"RaceType\":");
            reveal_strlit("RaceType");
            assert(kq5@ =~= key_lit("RaceType"@));
        }
        let (x5, p5) = match parse_mem_exec::<crate::bean::ERaceType>(s, p4, &kq5, Ghost("RaceType"@), ',') {
            None => {
                return None;
            },
            Some(x) => x,
        };
        let kq6 = crate::text::chars_of("\"OtherRace\":");
        proof {
            reveal_strlit("\"OtherRace\":");
            reveal_strlit("OtherRace");
            assert(kq6@ =~= key_lit("OtherRace"@));
        }
        let (x6, p6) = match parse_mem_exec::<crate::bean::ERaceType>(s, p5, &kq6, Ghost("OtherRace"@), ',') {
            None => {
                return None;
            },
            Some(x) => x,
        };
        Some(((x1, x2, x3, x4, x5, x6), p6))
}

/// Append members of an element record (part 3).
#[verifier::spinoff_prover]
#[verifier::rlimit(100)]
fn write_element_part3(rec: &crate::bean::Element, out: &mut Vec<char>)
    ensures
        final(out)@ == old(out)@ + (ser_mem_list("Attribute"@, rec@.attribute, ',') + (ser_mem("TriggerType"@, rec@.trigger_type, ',') + (ser_mem_list("TriggerParam"@, rec@.trigger_param, ',') + (ser_mem("EventTip"@, rec@.event_tip, ',') + (ser_mem("TriggerAction"@, rec@.trigger_action, ',') + (ser_mem_list("TriggerValue"@, rec@.trigger_value, ','))))))),
{
        let kq1 = crate::text::chars_of("\"Attribute\":");
        proof {
            reveal_strlit("\"Attribute\":");
            reveal_strlit("Attribute");
            assert(kq1@ =~= key_lit("Attribute"@));
        }
        write_mem_list_exec(out, &kq1, Ghost("Attribute"@), &rec.attribute, ',');
        let kq2 = crate::text::chars_of("\"TriggerType\":");
        proof {
            reveal_strlit("\"TriggerType\":");
            reveal_strlit("TriggerType");
            assert(kq2@ =~= key_lit("TriggerType"@));
        }
        write_mem_exec(out, &kq2, Ghost("TriggerType"@), &rec.trigger_type, ',');
        let kq3 = crate::text::chars_of("\"TriggerParam\":");
        proof {
            reveal_strlit("\"TriggerParam\":");
            reveal_strlit("TriggerParam");
            assert(kq3@ =~= key_lit("TriggerParam"@));
        }
        write_mem_list_exec(out, &kq3, Ghost("TriggerParam"@), &rec.trigger_param, ',');
        let kq4 = crate::text::chars_of("\"EventTip\":");
        proof {
            reveal_strlit("\"EventTip\":");
            reveal_strlit("EventTip");
            assert(kq4@ =~= key_lit("EventTip"@));
        }
        write_mem_exec(out, &kq4, Ghost("EventTip"@), &rec.event_tip, ',');
        let kq5 = crate::text::chars_of("\"TriggerAction\":");
        proof {
            reveal_strlit("\"TriggerAction\":");
            reveal_strlit("TriggerAction");
            assert(kq5@ =~= key_lit("TriggerAction"@));
        }
        write_mem_exec(out, &kq5, Ghost("TriggerAction"@), &rec.trigger_action, ',');
        let kq6 = crate::text::chars_of("\"TriggerValue\":");
        proof {
            reveal_strlit("\"TriggerValue\":");
            reveal_strlit("TriggerValue");
            assert(kq6@ =~= key_lit("TriggerValue"@));
        }
        write_mem_list_exec(out, &kq6, Ghost("TriggerValue"@), &rec.trigger_value, ',');
        proof {
            assert(views_of(rec.attribute@) =~= rec@.attribute);
            assert(views_of(rec.trigger_param@) =~= rec@.trigger_param);
            assert(views_of(rec.trigger_value@) =~= rec@.trigger_value);
            assert(out@ =~= old(out)@ + (ser_mem_list("Attribute"@, rec@.attribute, ',') + (ser_mem("TriggerType"@, rec@.trigger_type, ',') + (ser_mem_list("TriggerParam"@, rec@.trigger_param, ',') + (ser_mem("EventTip"@, rec@.event_tip, ',') + (ser_mem("TriggerAction"@, rec@.trigger_action, ',') + (ser_mem_list("TriggerValue"@, rec@.trigger_value, ','))))))));
        }
}

/// Parse members of an element record (part 3), as the spec does.
#[verifier::spinoff_prover]
#[verifier::rlimit(100)]
fn parse_element_part3_exec(s: &Vec<char>, i: usize) -> (r: Option<((Vec<crate::bean::ElementAttribute>, i32, Vec<i32>, i32, i32, Vec<crate::bean::ElementTriggerValue>), usize)>)
    requires
        i <= s@.len(),
    ensures
        match r {
            Some(((x1, x2, x3, x4, x5, x6), j)) => parse_element_part3(s@, i as int) == Some(
                ((views_of(x1@), x2@, views_of(x3@), x4@, x5@, views_of(x6@)), j as int),
            ) && i < j <= s@.len(),
            None => parse_element_part3(s@, i as int) is None,
        },
{
        let kq1 = crate::text::chars_of("\"Attribute\":");
        proof {
            reveal_strlit("\"Attribute\":");
            reveal_strlit("Attribute");
            assert(kq1@ =~= key_lit("Attribute"@));
        }
        let (x1, p1) = match parse_mem_list_exec::<crate::bean::ElementAttribute>(s, i, &kq1, Ghost("Attribute"@), ',') {
            None => {
                return None;
            },
            Some(x) => x,
        };
        let kq2 = crate::text::chars_of("\"TriggerType\":");
        proof {
            reveal_strlit("\"TriggerType\":");
            reveal_strlit("TriggerType");
            assert(kq2@ =~= key_lit("TriggerType"@));
        }
        let (x2, p2) = match parse_mem_exec::<i32>(s, p1, &kq2, Ghost("TriggerType"@), ',') {
            None => {
                return None;
            },
            Some(x) => x,
        };
        let kq3 = crate::text::chars_of("\"TriggerParam\":");
        proof {
            reveal_strlit("\"TriggerParam\":");
            reveal_strlit("TriggerParam");
            assert(kq3@ =~= key_lit("TriggerParam"@));
        }
        let (x3, p3) = match parse_mem_list_exec::<i32>(s, p2, &kq3, Ghost("TriggerParam"@), ',') {
            None => {
                return None;
            },
            Some(x) => x,
        };
        let kq4 = crate::text::chars_of("\"EventTip\":");
        proof {
            reveal_strlit("\"EventTip\":");
            reveal_strlit("EventTip");
            assert(kq4@ =~= key_lit("EventTip"@));
        }
        let (x4, p4) = match parse_mem_exec::<i32>(s, p3, &kq4, Ghost("EventTip"@), ',') {
            None => {
                return None;
            },
            Some(x) => x,
        };
        let kq5 = crate::text::chars_of("\"TriggerAction\":");
        proof {
            reveal_strlit("\"TriggerAction\":");
            reveal_strlit("TriggerAction");
            assert(kq5@ =~= key_lit("TriggerAction"@));
        }
        let (x5, p5) = match parse_mem_exec::<i32>(s, p4, &kq5, Ghost("TriggerAction"@), ',') {
            None => {
                return None;
            },
            Some(x) => x,
        };
        let kq6 = crate::text::chars_of("\"TriggerValue\":");
        proof {
            reveal_strlit("\"TriggerValue\":");
            reveal_strlit("TriggerValue");
            assert(kq6@ =~= key_lit("TriggerValue"@));
        }
        let (x6, p6) = match parse_mem_list_exec::<crate::bean::ElementTriggerValue>(s, p5, &kq6, Ghost("TriggerValue"@), ',') {
            None => {
                return None;
            },
            Some(x) => x,
        };
        Some(((x1, x2, x3, x4, x5, x6), p6))
}

/// Append members of an element record (part 4).
#[verifier::spinoff_prover]
#[verifier::rlimit(100)]
fn write_element_part4(rec: &crate::bean::Element, out: &mut Vec<char>)
    ensures
        final(out)@ == old(out)@ + (ser_mem_list("OtherValue"@, rec@.other_value, ',') + (ser_mem("AttackSound"@, rec@.attack_sound, ',') + (ser_mem("SelectSound"@, rec@.select_sound, ',') + (ser_mem("AttackParticle"@, rec@.attack_particle, '}'))))),
{
        let kq1 = crate::text::chars_of("\"OtherValue\":");
        proof {
            reveal_strlit("\"OtherValue\":");
            reveal_strlit("OtherValue");
            assert(kq1@ =~= key_lit("OtherValue"@));
        }
        write_mem_list_exec(out, &kq1, Ghost("OtherValue"@), &rec.other_value, ',');
        let kq2 = crate::text::chars_of("\"AttackSound\":");
        proof {
            reveal_strlit("\"AttackSound\":");
            reveal_strlit("AttackSound");
            assert(kq2@ =~= key_lit("AttackSound"@));
        }
        write_mem_exec(out, &kq2, Ghost("AttackSound"@), &rec.attack_sound, ',');
        let kq3 = crate::text::chars_of("\"SelectSound\":");
        proof {
            reveal_strlit("\"SelectSound\":");
            reveal_strlit("SelectSound");
            assert(kq3@ =~= key_lit("SelectSound"@));
        }
        write_mem_exec(out, &kq3, Ghost("SelectSound"@), &rec.select_sound, ',');
        let kq4 = crate::text::chars_of("\"AttackParticle\":");
        proof {
            reveal_strlit("\"AttackParticle\":");
            reveal_strlit("AttackParticle");
            assert(kq4@ =~= key_lit("AttackParticle"@));
        }
        write_mem_exec(out, &kq4, Ghost("AttackParticle"@), &rec.attack_particle, '}');
        proof {
            assert(views_of(rec.other_value@) =~= rec@.other_value);
            assert(out@ =~= old(out)@ + (ser_mem_list("OtherValue"@, rec@.other_value, ',') + (ser_mem("AttackSound"@, rec@.attack_sound, ',') + (ser_mem("SelectSound"@, rec@.select_sound, ',') + (ser_mem("AttackParticle"@, rec@.attack_particle, '}'))))));
        }
}

/// Parse members of an element record (part 4), as the spec does.
#[verifier::spinoff_prover]
#[verifier::rlimit(100)]
fn parse_element_part4_exec(s: &Vec<char>, i: usize) -> (r: Option<((Vec<i32>, i32, i32, i32), usize)>)
    requires
        i <= s@.len(),
    ensures
        match r {
            Some(((x1, x2, x3, x4), j)) => parse_element_part4(s@, i as int) == Some(
                ((views_of(x1@), x2@, x3@, x4@), j as int),
            ) && i < j <= s@.len(),
            None => parse_element_part4(s@, i as int) is None,
        },
{
        let kq1 = crate::text::chars_of("\"OtherValue\":");
        proof {
            reveal_strlit("\"OtherValue\":");
            reveal_strlit("OtherValue");
            assert(kq1@ =~= key_lit("OtherValue"@));
        }
        let (x1, p1) = match parse_mem_list_exec::<i32>(s, i, &kq1, Ghost("OtherValue"@), ',') {
            None => {
                return None;
            },
            Some(x) => x,
        };
        let kq2 = crate::text::chars_of("\"AttackSound\":");
        proof {
            reveal_strlit("\"AttackSound\":");
            reveal_strlit("AttackSound");
            assert(kq2@ =~= key_lit("AttackSound"@));
        }
        let (x2, p2) = match parse_mem_exec::<i32>(s, p1, &kq2, Ghost("AttackSound"@), ',') {
            None => {
                return None;
            },
            Some(x) => x,
        };
        let kq3 = crate::text::chars_of("\"SelectSound\":");
        proof {
            reveal_strlit("\"SelectSound\":");
            reveal_strlit("SelectSound");
            assert(kq3@ =~= key_lit("SelectSound"@));
        }
        let (x3, p3) = match parse_mem_exec::<i32>(s, p2, &kq3, Ghost("SelectSound"@), ',') {
            None => {
                return None;
            },
            Some(x) => x,
        };
        let kq4 = crate::text::chars_of("\"AttackParticle\":");
        proof {
            reveal_strlit("\"AttackParticle\":");
            reveal_strlit("AttackParticle");
            assert(kq4@ =~= key_lit("AttackParticle"@));
        }
        let (x4, p4) = match parse_mem_exec::<i32>(s, p3, &kq4, Ghost("AttackParticle"@), '}') {
            None => {
                return None;
            },
            Some(x) => x,
        };
        Some(((x1, x2, x3, x4), p4))
}

impl WireExec for crate::bean::Element {
    #[verifier::spinoff_prover]
    #[verifier::rlimit(100)]
    fn wire_write(&self, out: &mut Vec<char>) {
        out.push('{');
        write_element_part1(self, out);
        write_element_part2(self, out);
        write_element_part3(self, out);
        write_element_part4(self, out);
        proof {
            assert(out@ =~= old(out)@ + self@.wire_ser());
        }
    }

    #[verifier::spinoff_prover]
    #[verifier::rlimit(100)]
    fn wire_parse_exec(s: &Vec<char>, i: usize) -> (r: Option<(crate::bean::Element, usize)>) {
        if i >= s.len() || s[i] != '{' {
            return None;
        }
        let ((x0_1, x0_2, x0_3, x0_4, x0_5, x0_6), q1) = match parse_element_part1_exec(s, i + 1) {
            None => {
                return None;
            },
            Some(x) => x,
        };
        let ((x1_1, x1_2, x1_3, x1_4, x1_5, x1_6), q2) = match parse_element_part2_exec(s, q1) {
            None => {
                return None;
            },
            Some(x) => x,
        };
        let ((x2_1, x2_2, x2_3, x2_4, x2_5, x2_6), q3) = match parse_element_part3_exec(s, q2) {
            None => {
                return None;
            },
            Some(x) => x,
        };
        let ((x3_1, x3_2, x3_3, x3_4), q4) = match parse_element_part4_exec(s, q3) {
            None => {
                return None;
            },
            Some(x) => x,
        };
        let rec = crate::bean::Element { id: x0_1, lock: x0_2, enable: x0_3, role: x0_4, name_id: x0_5, desc_id: x0_6, desctip: x1_1, desc_attribute: x1_2, icon: x1_3, rare: x1_4, race_type: x1_5, other_race: x1_6, attribute: x2_1, trigger_type: x2_2, trigger_param: x2_3, event_tip: x2_4, trigger_action: x2_5, trigger_value: x2_6, other_value: x3_1, attack_sound: x3_2, select_sound: x3_3, attack_particle: x3_4 };
        proof {
            assert(views_of(x1_1@) =~= rec@.desctip);
            assert(views_of(x1_2@) =~= rec@.desc_attribute);
            assert(views_of(x2_1@) =~= rec@.attribute);
            assert(views_of(x2_3@) =~= rec@.trigger_param);
            assert(views_of(x2_6@) =~= rec@.trigger_value);
            assert(views_of(x3_1@) =~= rec@.other_value);
            assert(<crate::bean::Element as View>::V::wire_parse(s@, i as int) == Some((rec@, q4 as int)));
        }
        Some((rec, q4))
    }
}



// ------------------------------------------------------------------
// whole table files
// ------------------------------------------------------------------

/// Canonical text of a whole table file: the records, one per line.
pub open spec fn table_text<V: WireSpec>(rows: Seq<V>) -> Seq<char> {
    ser_list(sep_record(), rows)
}

/// The rows denoted by a table file, if the text is exactly canonical.
pub open spec fn parse_table_text<V: WireSpec>(s: Seq<char>) -> Option<Seq<V>> {
    match parse_list::<V>(sep_record(), s, 0) {
        Some((rows, e)) => if e == s.len() {
            Some(rows)
        } else {
            None
        },
        None => None,
    }
}

/// Serializing any rows to a table file and parsing it back yields exactly
/// those rows, for every record kind.
pub proof fn lemma_table_roundtrip<V: WireSpec>(rows: Seq<V>)
    ensures
        parse_table_text::<V>(table_text(rows)) == Some(rows),
{
    let s = table_text(rows);
    assert(s.subrange(0, s.len() as int) =~= s);
    lemma_parse_ser_list::<V>(sep_record(), rows, s, 0);
}

/// The characters of the record separator.
fn record_sep_chars() -> (r: Vec<char>)
    ensures
        r@ == sep_record(),
{
    let mut v: Vec<char> = Vec::new();
    v.push(',');
    v.push('\n');
    proof {
        assert(v@ =~= sep_record());
    }
    v
}

/// Write a whole table to its canonical file text.
pub fn write_table<T: WireExec>(rows: &Vec<T>) -> (out: Vec<char>) where <T as View>::V: WireSpec
    ensures
        out@ == table_text::<<T as View>::V>(views_of(rows@)),
{
    let sep = record_sep_chars();
    let mut out: Vec<char> = Vec::new();
    write_list_exec(&mut out, rows, &sep);
    proof {
        assert(out@ =~= table_text::<<T as View>::V>(views_of(rows@)));
    }
    out
}

/// Parse a whole table file, exactly as [`parse_table_text`] does.
pub fn parse_table<T: WireExec>(s: &Vec<char>) -> (r: Option<Vec<T>>) where <T as View>::V: WireSpec
    ensures
        match r {
            Some(v) => parse_table_text::<<T as View>::V>(s@) == Some(views_of(v@)),
            None => parse_table_text::<<T as View>::V>(s@) is None,
        },
{
    let sep = record_sep_chars();
    match parse_list_exec::<T>(s, 0, &sep) {
        Some((v, j)) => {
            if j == s.len() {
                Some(v)
            } else {
                None
            }
        },
        None => None,
    }
}

} // verus!
