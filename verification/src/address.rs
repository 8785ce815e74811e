//! The six-byte hardware radio address. The canonical textual form is six
//! colon-separated uppercase hex octets, most significant octet first; the
//! bytes are stored in the reversed (socket) order, so formatting prints the
//! stored bytes last-to-first. Parsing is more lenient than the canonical
//! form: the text splits on colons, and each of the six groups is read the
//! way `u8::from_str_radix(_, 16)` reads it. Formatting the parse of a
//! canonical text gives that text back unchanged.

use vstd::prelude::*;

verus! {

/// A six-byte radio address, stored least significant octet first as the
/// socket address structure wants it.
#[derive(Debug, Clone, Copy, PartialEq, Eq)]
pub struct Address(pub [u8; 6]);

/// ASCII code of a hex digit, either case.
pub open spec fn is_hex_digit(c: u8) -> bool {
    (48 <= c <= 57) || (65 <= c <= 70) || (97 <= c <= 102)
}

/// ASCII code of an uppercase hex digit or a decimal digit.
pub open spec fn is_upper_hex_digit(c: u8) -> bool {
    (48 <= c <= 57) || (65 <= c <= 70)
}

/// Value of a hex digit's ASCII code.
pub open spec fn hex_val(c: u8) -> int {
    if 48 <= c <= 57 {
        c - 48
    } else if 65 <= c <= 70 {
        c - 55
    } else {
        c - 87
    }
}

/// ASCII code of the uppercase hex digit for a value below 16.
pub open spec fn upper_hex_char(v: int) -> u8 {
    if v < 10 {
        (48 + v) as u8
    } else {
        (55 + v) as u8
    }
}

/// What must stand at position `i` of a canonical address text: a colon
/// after every octet but the last, hex digits everywhere else.
pub open spec fn addr_char_ok(t: Seq<u8>, i: int) -> bool {
    if i % 3 == 2 {
        t[i] == 58
    } else {
        is_hex_digit(t[i])
    }
}

/// A canonically shaped address text: six colon-separated two-digit hex
/// octets, either case.
pub open spec fn is_addr_text(t: Seq<u8>) -> bool {
    t.len() == 17 && (forall|i: int| 0 <= i < 17 ==> #[trigger] addr_char_ok(t, i))
}

/// A canonically shaped address text whose hex digits are all uppercase:
/// exactly what formatting produces.
pub open spec fn is_upper_addr_text(t: Seq<u8>) -> bool {
    is_addr_text(t) && (forall|i: int| 0 <= i < 17 && i % 3 != 2 ==> is_upper_hex_digit(#[trigger] t[i]))
}

/// Value of the `k`-th octet (0 = most significant, leftmost) of a
/// canonical text.
pub open spec fn text_octet(t: Seq<u8>, k: int) -> int {
    hex_val(t[3 * k]) * 16 + hex_val(t[3 * k + 1])
}

/// The canonical text of six stored bytes, printed last-to-first.
pub open spec fn format_spec(b: Seq<u8>) -> Seq<u8> {
    Seq::new(
        17,
        |i: int|
            if i % 3 == 2 {
                58u8
            } else if i % 3 == 0 {
                upper_hex_char(b[5 - i / 3] as int / 16)
            } else {
                upper_hex_char(b[5 - i / 3] as int % 16)
            },
    )
}

/// The position of the next colon at or after `from`, or the text's length
/// when none is left.
pub open spec fn find_colon(t: Seq<u8>, from: int) -> int
    decreases t.len() - from,
{
    if from >= t.len() {
        t.len() as int
    } else if t[from] == 58 {
        from
    } else {
        find_colon(t, from + 1)
    }
}

/// Where a group's digits begin: `u8::from_str_radix` admits one leading
/// plus sign (ASCII 43).
pub open spec fn digit_start(t: Seq<u8>, from: int, end: int) -> int {
    if from < end && t[from] == 43 {
        from + 1
    } else {
        from
    }
}

pub open spec fn all_hex_digits(t: Seq<u8>, from: int, end: int) -> bool {
    forall|i: int| from <= i < end ==> is_hex_digit(#[trigger] t[i])
}

/// Value of the hex digits of `t` in `[from, upto)`, leftmost digit most
/// significant.
pub open spec fn hex_prefix_val(t: Seq<u8>, from: int, upto: int) -> int
    decreases upto - from,
{
    if upto <= from {
        0
    } else {
        hex_prefix_val(t, from, upto - 1) * 16 + hex_val(t[upto - 1])
    }
}

/// Does `t[from..end)` read as one octet, the way
/// `u8::from_str_radix(_, 16)` reads it: an optional plus sign, then at
/// least one hex digit, either case, with a value that fits in a byte.
pub open spec fn group_ok(t: Seq<u8>, from: int, end: int) -> bool {
    let ds = digit_start(t, from, end);
    ds < end && all_hex_digits(t, ds, end) && hex_prefix_val(t, ds, end) <= 255
}

/// The value of the group at `[from, end)`.
pub open spec fn group_val(t: Seq<u8>, from: int, end: int) -> int {
    hex_prefix_val(t, digit_start(t, from, end), end)
}

/// The octet values of `remaining` colon-separated groups starting at
/// `from`, in textual order; `None` when the text from `from` on does not
/// split into exactly that many well-formed groups.
pub open spec fn parse_from(t: Seq<u8>, from: int, remaining: nat) -> Option<Seq<u8>>
    decreases remaining,
{
    if remaining == 0 {
        None
    } else {
        let end = find_colon(t, from);
        if remaining == 1 {
            if end == t.len() && group_ok(t, from, end) {
                Some(seq![group_val(t, from, end) as u8])
            } else {
                None
            }
        } else {
            if end < t.len() && group_ok(t, from, end) {
                match parse_from(t, end + 1, (remaining - 1) as nat) {
                    Some(rest) => Some(rest.insert(0, group_val(t, from, end) as u8)),
                    None => None,
                }
            } else {
                None
            }
        }
    }
}

/// What parsing an address text yields: the six octet values in textual
/// order, most significant first, exactly when the text splits on colons
/// into six groups that each read as a hex octet.
pub open spec fn parse_spec(t: Seq<u8>) -> Option<Seq<u8>> {
    parse_from(t, 0, 6)
}

/// Value of a hex digit's ASCII code.
fn hex_val_exec(c: u8) -> (r: u8)
    requires
        is_hex_digit(c),
    ensures
        r as int == hex_val(c),
        r < 16,
{
    if 48 <= c && c <= 57 {
        c - 48
    } else if 65 <= c && c <= 70 {
        c - 55
    } else {
        c - 87
    }
}

fn is_hex_digit_exec(c: u8) -> (r: bool)
    ensures
        r == is_hex_digit(c),
{
    (48 <= c && c <= 57) || (65 <= c && c <= 70) || (97 <= c && c <= 102)
}

/// ASCII code of the uppercase hex digit for a value below 16.
fn upper_hex_char_exec(v: u8) -> (r: u8)
    requires
        v < 16,
    ensures
        r == upper_hex_char(v as int),
{
    if v < 10 {
        48 + v
    } else {
        55 + v
    }
}

/// Read one group, exactly as `group_ok` and `group_val` describe it.
fn parse_group(text: &[u8], from: usize, end: usize) -> (r: Option<u8>)
    requires
        from <= end <= text@.len(),
    ensures
        match r {
            Some(v) => group_ok(text@, from as int, end as int) && v as int == group_val(
                text@,
                from as int,
                end as int,
            ),
            None => !group_ok(text@, from as int, end as int),
        },
{
    let mut i: usize = from;
    if i < end && text[i] == 43 {
        i = i + 1;
    }
    let ghost ds: int = i as int;
    proof {
        assert(ds == digit_start(text@, from as int, end as int));
    }
    if i == end {
        return None;
    }
    let mut val: u32 = 0;
    let mut too_big: bool = false;
    while i < end
        invariant
            ds <= i <= end <= text@.len(),
            ds < end,
            ds == digit_start(text@, from as int, end as int),
            all_hex_digits(text@, ds, i as int),
            !too_big ==> val == hex_prefix_val(text@, ds, i as int) && val <= 255,
            too_big ==> hex_prefix_val(text@, ds, i as int) > 255,
        decreases end - i,
    {
        let c = text[i];
        if !is_hex_digit_exec(c) {
            proof {
                assert(!all_hex_digits(text@, ds, end as int));
            }
            return None;
        }
        let d = hex_val_exec(c);
        proof {
            assert(hex_prefix_val(text@, ds, i as int + 1) == hex_prefix_val(text@, ds, i as int)
                * 16 + hex_val(text@[i as int]));
        }
        if too_big {
        } else {
            let nv: u32 = val * 16 + (d as u32);
            if nv > 255 {
                too_big = true;
            } else {
                val = nv;
            }
        }
        i = i + 1;
        proof {
            assert forall|k: int| ds <= k < i as int implies is_hex_digit(#[trigger] text@[k]) by {
                if k < i - 1 {
                } else {
                    assert(text@[k] == c);
                }
            }
        }
    }
    if too_big {
        None
    } else {
        Some(val as u8)
    }
}

/// Read `remaining` colon-separated groups from `from`, exactly as
/// `parse_from` describes them.
fn parse_groups(text: &[u8], from: usize, remaining: u8) -> (r: Option<Vec<u8>>)
    requires
        from <= text@.len(),
        remaining >= 1,
    ensures
        match r {
            Some(v) => parse_from(text@, from as int, remaining as nat) == Some(v@),
            None => parse_from(text@, from as int, remaining as nat) is None,
        },
    decreases remaining,
{
    let mut end: usize = from;
    while end < text.len() && text[end] != 58
        invariant
            from <= end <= text@.len(),
            forall|i: int| from <= i < end ==> text@[i] != 58,
        decreases text@.len() - end,
    {
        end = end + 1;
    }
    proof {
        lemma_find_colon_at(text@, from as int, end as int);
    }
    if remaining == 1 {
        if end != text.len() {
            return None;
        }
        match parse_group(text, from, end) {
            None => None,
            Some(v) => {
                let r: Vec<u8> = vec![v];
                proof {
                    assert(r@ =~= seq![group_val(text@, from as int, end as int) as u8]);
                }
                Some(r)
            },
        }
    } else {
        if end == text.len() {
            return None;
        }
        match parse_group(text, from, end) {
            None => None,
            Some(v) => {
                match parse_groups(text, end + 1, remaining - 1) {
                    None => None,
                    Some(mut rest) => {
                        rest.insert(0, v);
                        Some(rest)
                    },
                }
            },
        }
    }
}

/// `find_colon` lands on the first colon, or on the end when none is left.
proof fn lemma_find_colon_at(t: Seq<u8>, from: int, end: int)
    requires
        0 <= from <= end <= t.len(),
        forall|i: int| from <= i < end ==> t[i] != 58,
        end == t.len() || t[end] == 58,
    ensures
        find_colon(t, from) == end,
    decreases end - from,
{
    if from < end {
        lemma_find_colon_at(t, from + 1, end);
    }
}

/// A parse that succeeds yields one value per group asked for.
proof fn lemma_parse_from_len(t: Seq<u8>, from: int, remaining: nat)
    ensures
        parse_from(t, from, remaining) matches Some(v) ==> v.len() == remaining,
    decreases remaining,
{
    if remaining > 1 {
        lemma_parse_from_len(t, find_colon(t, from) + 1, (remaining - 1) as nat);
    }
}

impl Address {
    /// The six bytes in wire order, most significant octet first: the
    /// reverse of the stored order.
    pub fn into_inner(self) -> (r: [u8; 6])
        ensures
            forall|j: int| 0 <= j < 6 ==> r@[j] == self.0@[5 - j],
    {
        [self.0[5], self.0[4], self.0[3], self.0[2], self.0[1], self.0[0]]
    }

    /// Parse an address text: six colon-separated groups, each read as one
    /// hex octet; any other text is rejected. The parsed octets are stored
    /// in reversed order.
    pub fn parse(text: &[u8]) -> (r: Option<Address>)
        ensures
            match r {
                Some(a) => parse_spec(text@) matches Some(vals) && vals.len() == 6 && (forall|
                    j: int,
                |
                    0 <= j < 6 ==> a.0@[j] == vals[5 - j]),
                None => parse_spec(text@) is None,
            },
    {
        match parse_groups(text, 0, 6) {
            None => None,
            Some(vals) => {
                proof {
                    lemma_parse_from_len(text@, 0, 6);
                }
                let bytes: [u8; 6] = [vals[5], vals[4], vals[3], vals[2], vals[1], vals[0]];
                Some(Address(bytes))
            },
        }
    }

    /// The canonical text: six uppercase two-digit hex octets separated by
    /// colons, most significant octet first.
    pub fn format(&self) -> (r: Vec<u8>)
        ensures
            r@ == format_spec(self.0@),
            is_upper_addr_text(r@),
    {
        let mut r: Vec<u8> = Vec::new();
        let mut k: usize = 0;
        while k < 6
            invariant
                k <= 6,
                r@.len() == if k == 6 { 17int } else { 3 * k as int },
                forall|i: int| 0 <= i < r@.len() ==> r@[i] == format_spec(self.0@)[i],
            decreases 6 - k,
        {
            let b = self.0[5 - k];
            r.push(upper_hex_char_exec(b / 16));
            r.push(upper_hex_char_exec(b % 16));
            if k < 5 {
                r.push(58);
            }
            k = k + 1;
        }
        proof {
            assert(r@ =~= format_spec(self.0@));
            assert forall|i: int| 0 <= i < 17 implies #[trigger] addr_char_ok(r@, i) by {
                if i % 3 != 2 {
                    assert(is_hex_digit(upper_hex_char(self.0@[5 - i / 3] as int / 16)));
                    assert(is_hex_digit(upper_hex_char(self.0@[5 - i / 3] as int % 16)));
                }
            }
            assert forall|i: int| 0 <= i < 17 && i % 3 != 2 implies is_upper_hex_digit(
                #[trigger] r@[i],
            ) by {}
        }
        r
    }
}

/// A canonically shaped text parses, and each parsed value is the value of
/// its two-digit textual octet.
pub proof fn lemma_addr_text_parses(t: Seq<u8>)
    requires
        is_addr_text(t),
    ensures
        parse_spec(t) matches Some(vals) && vals.len() == 6 && (forall|k: int|
            0 <= k < 6 ==> vals[k] == text_octet(t, k)),
{
    assert forall|k: int| 0 <= k < 6 implies find_colon(t, 3 * k) == 3 * k + 2 && group_ok(
        t,
        3 * k,
        3 * k + 2,
    ) && group_val(t, 3 * k, 3 * k + 2) == text_octet(t, k) && 0 <= text_octet(t, k) <= 255 by {
        let end = 3 * k + 2;
        assert(addr_char_ok(t, 3 * k));
        assert(addr_char_ok(t, 3 * k + 1));
        if k < 5 {
            assert(addr_char_ok(t, 3 * k + 2));
        }
        assert forall|i: int| 3 * k <= i < end implies t[i] != 58 by {
            assert(i == 3 * k || i == 3 * k + 1);
        }
        lemma_find_colon_at(t, 3 * k, end);
        assert(digit_start(t, 3 * k, end) == 3 * k);
        assert forall|i: int| 3 * k <= i < end implies is_hex_digit(#[trigger] t[i]) by {
            assert(i == 3 * k || i == 3 * k + 1);
        }
        assert(hex_prefix_val(t, 3 * k, 3 * k) == 0);
        assert(hex_prefix_val(t, 3 * k, 3 * k + 1) == hex_val(t[3 * k]));
        assert(hex_prefix_val(t, 3 * k, 3 * k + 2) == hex_val(t[3 * k]) * 16 + hex_val(
            t[3 * k + 1],
        ));
    }
    let o0 = text_octet(t, 0) as u8;
    let o1 = text_octet(t, 1) as u8;
    let o2 = text_octet(t, 2) as u8;
    let o3 = text_octet(t, 3) as u8;
    let o4 = text_octet(t, 4) as u8;
    let o5 = text_octet(t, 5) as u8;
    assert(parse_from(t, 15, 1) == Some(seq![o5]));
    assert(seq![o5].insert(0, o4) =~= seq![o4, o5]);
    assert(parse_from(t, 12, 2) == Some(seq![o4, o5]));
    assert(seq![o4, o5].insert(0, o3) =~= seq![o3, o4, o5]);
    assert(parse_from(t, 9, 3) == Some(seq![o3, o4, o5]));
    assert(seq![o3, o4, o5].insert(0, o2) =~= seq![o2, o3, o4, o5]);
    assert(parse_from(t, 6, 4) == Some(seq![o2, o3, o4, o5]));
    assert(seq![o2, o3, o4, o5].insert(0, o1) =~= seq![o1, o2, o3, o4, o5]);
    assert(parse_from(t, 3, 5) == Some(seq![o1, o2, o3, o4, o5]));
    assert(seq![o1, o2, o3, o4, o5].insert(0, o0) =~= seq![o0, o1, o2, o3, o4, o5]);
    assert(parse_from(t, 0, 6) == Some(seq![o0, o1, o2, o3, o4, o5]));
    let vals = seq![o0, o1, o2, o3, o4, o5];
    assert(vals[0] == o0 && vals[1] == o1 && vals[2] == o2 && vals[3] == o3 && vals[4] == o4
        && vals[5] == o5);
    assert forall|k: int| 0 <= k < 6 implies vals[k] == text_octet(t, k) by {
        assert(k == 0 || k == 1 || k == 2 || k == 3 || k == 4 || k == 5);
    }
}

/// Formatting the six octets parsed from a well-formed six-octet colon-hex
/// uppercase text yields exactly that text back: parsing and formatting are
/// inverses over the canonical printable form.
pub proof fn lemma_format_parse_roundtrip(t: Seq<u8>)
    requires
        is_upper_addr_text(t),
    ensures
        parse_spec(t) matches Some(vals) && format_spec(
            Seq::new(6, |j: int| vals[5 - j]),
        ) == t,
{
    lemma_addr_text_parses(t);
    let vals = parse_spec(t)->Some_0;
    let b = Seq::new(6, |j: int| vals[5 - j]);
    assert forall|i: int| 0 <= i < 17 implies format_spec(b)[i] == t[i] by {
        assert(addr_char_ok(t, i));
        if i % 3 == 2 {
        } else {
            let k = i / 3;
            let hi = t[3 * k];
            let lo = t[3 * k + 1];
            assert(addr_char_ok(t, 3 * k));
            assert(addr_char_ok(t, 3 * k + 1));
            assert(is_upper_hex_digit(t[3 * k]));
            assert(is_upper_hex_digit(t[3 * k + 1]));
            assert(b[5 - k] == vals[k]);
            assert(vals[k] == text_octet(t, k));
            assert(0 <= hex_val(lo) < 16);
            assert((hex_val(hi) * 16 + hex_val(lo)) / 16 == hex_val(hi)) by (nonlinear_arith)
                requires
                    0 <= hex_val(lo) < 16,
                    0 <= hex_val(hi) < 16,
            ;
            assert((hex_val(hi) * 16 + hex_val(lo)) % 16 == hex_val(lo)) by (nonlinear_arith)
                requires
                    0 <= hex_val(lo) < 16,
                    0 <= hex_val(hi) < 16,
            ;
            assert(upper_hex_char(hex_val(hi)) == hi);
            assert(upper_hex_char(hex_val(lo)) == lo);
        }
    }
    assert(format_spec(b) =~= t);
}

} // verus!
