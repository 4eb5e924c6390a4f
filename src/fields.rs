use vstd::arithmetic::div_mod::lemma_fundamental_div_mod_converse;
use vstd::prelude::*;

verus! {

/// The byte that separates the fields of a reply.
pub const FIELD_SEPARATOR: u8 = 32;

/// The fields of `s`, split at every separator byte: a left fold over the
/// bytes that starts with one empty field, opens a new field at each
/// separator, and appends every other byte to the last field.
pub open spec fn fields_of(s: Seq<u8>) -> Seq<Seq<u8>>
    decreases s.len(),
{
    if s.len() == 0 {
        seq![Seq::<u8>::empty()]
    } else {
        let prev = fields_of(s.drop_last());
        if s.last() == FIELD_SEPARATOR {
            prev.push(Seq::<u8>::empty())
        } else {
            prev.update(prev.len() - 1, prev.last().push(s.last()))
        }
    }
}

/// The views of a vector of byte vectors.
pub open spec fn views_of(v: Seq<Vec<u8>>) -> Seq<Seq<u8>> {
    v.map_values(|f: Vec<u8>| f@)
}

pub open spec fn is_digit(b: u8) -> bool {
    48 <= b <= 57
}

/// A non-empty run of ASCII decimal digits.
pub open spec fn is_digits(f: Seq<u8>) -> bool {
    f.len() > 0 && forall|i: int| 0 <= i < f.len() ==> is_digit(#[trigger] f[i])
}

/// The value of a string of decimal digits, most significant first.
pub open spec fn digits_value(f: Seq<u8>) -> nat
    decreases f.len(),
{
    if f.len() == 0 {
        0
    } else {
        digits_value(f.drop_last()) * 10 + (f.last() - 48) as nat
    }
}

/// The value of a run of digits, where it fits in `u32`.
pub open spec fn digits_field_value(d: Seq<u8>) -> Option<u32> {
    if is_digits(d) && digits_value(d) <= u32::MAX {
        Some(digits_value(d) as u32)
    } else {
        None
    }
}

/// The value of a field, where it is a decimal number, with an optional
/// leading `+`, that fits in `u32`.
pub open spec fn field_value(f: Seq<u8>) -> Option<u32> {
    if f.len() > 0 && f[0] == PLUS {
        digits_field_value(f.skip(1))
    } else {
        digits_field_value(f)
    }
}

/// The sign byte `+`.
pub const PLUS: u8 = 43;

pub proof fn lemma_fields_nonempty(s: Seq<u8>)
    ensures
        fields_of(s).len() >= 1,
    decreases s.len(),
{
    if s.len() > 0 {
        lemma_fields_nonempty(s.drop_last());
    }
}

/// Appending a digit never makes the value smaller.
proof fn lemma_digits_value_grows(f: Seq<u8>, i: int)
    requires
        0 <= i <= f.len(),
        forall|k: int| 0 <= k < f.len() ==> is_digit(#[trigger] f[k]),
    ensures
        digits_value(f.take(i)) <= digits_value(f),
    decreases f.len() - i,
{
    if i < f.len() {
        lemma_digits_value_grows(f, i + 1);
        assert(f.take(i + 1).drop_last() =~= f.take(i));
    } else {
        assert(f.take(i) =~= f);
    }
}

/// Splits `s` at every separator byte.
pub fn split_fields(s: &[u8]) -> (r: Vec<Vec<u8>>)
    ensures
        views_of(r@) == fields_of(s@),
{
    let mut r: Vec<Vec<u8>> = Vec::new();
    let mut cur: Vec<u8> = Vec::new();
    let mut i: usize = 0;
    proof {
        assert(s@.take(0) =~= Seq::<u8>::empty());
        assert(views_of(r@).push(cur@) =~= fields_of(s@.take(0)));
    }
    while i < s.len()
        invariant
            0 <= i <= s.len(),
            views_of(r@).push(cur@) == fields_of(s@.take(i as int)),
        decreases s.len() - i,
    {
        let b = s[i];
        proof {
            assert(s@.take(i + 1).drop_last() =~= s@.take(i as int));
            assert(s@.take(i + 1).last() == b);
        }
        if b == FIELD_SEPARATOR {
            let ghost old_r = r@;
            let ghost done = cur@;
            r.push(cur);
            cur = Vec::new();
            proof {
                assert(views_of(r@) =~= views_of(old_r).push(done));
                assert(views_of(r@).push(cur@) =~= fields_of(s@.take(i + 1)));
            }
        } else {
            let ghost old_cur = cur@;
            cur.push(b);
            proof {
                assert(views_of(r@).push(cur@) =~= views_of(r@).push(old_cur).update(
                    views_of(r@).len() as int,
                    old_cur.push(b),
                ));
            }
        }
        i = i + 1;
    }
    proof {
        assert(s@.take(s.len() as int) =~= s@);
    }
    let ghost before = r@;
    r.push(cur);
    proof {
        assert(views_of(r@) =~= views_of(before).push(cur@));
    }
    r
}

/// Reads a field as a decimal `u32`, with an optional leading `+`: `None`
/// where the digits are missing, a byte is not a digit, or the value is too
/// large.
pub fn parse_u32_field(f: &[u8]) -> (r: Option<u32>)
    ensures
        r == field_value(f@),
{
    let start: usize = if f.len() > 0 && f[0] == PLUS {
        1
    } else {
        0
    };
    let ghost d = f@.skip(start as int);
    proof {
        if start == 0 {
            assert(d =~= f@);
        }
        assert(field_value(f@) == digits_field_value(d));
    }
    if f.len() == start {
        assert(d.len() == 0);
        return None;
    }
    let mut acc: u64 = 0;
    let mut i: usize = start;
    while i < f.len()
        invariant
            start <= i <= f.len(),
            start < f.len(),
            d == f@.skip(start as int),
            field_value(f@) == digits_field_value(d),
            forall|k: int| 0 <= k < i - start ==> is_digit(#[trigger] d[k]),
            acc == digits_value(d.take(i - start)),
            acc <= u32::MAX,
        decreases f.len() - i,
    {
        let b = f[i];
        assert(d[i - start] == b);
        if b < 48u8 || b > 57u8 {
            assert(!is_digits(d));
            return None;
        }
        proof {
            assert(d.take(i - start + 1).drop_last() =~= d.take(i - start));
        }
        acc = acc * 10 + (b - 48u8) as u64;
        if acc > 0xffff_ffffu64 {
            proof {
                if is_digits(d) {
                    lemma_digits_value_grows(d, i - start + 1);
                }
            }
            return None;
        }
        i = i + 1;
    }
    proof {
        assert(d.take(d.len() as int) =~= d);
    }
    Some(acc as u32)
}

/// The fields joined back with single separators.
pub open spec fn join_fields(fs: Seq<Seq<u8>>) -> Seq<u8>
    decreases fs.len(),
{
    if fs.len() == 0 {
        Seq::empty()
    } else if fs.len() == 1 {
        fs[0]
    } else {
        join_fields(fs.drop_last()).push(FIELD_SEPARATOR) + fs.last()
    }
}

/// Splitting at the separators and joining again gives the bytes back.
pub proof fn lemma_join_split(s: Seq<u8>)
    ensures
        join_fields(fields_of(s)) == s,
    decreases s.len(),
{
    if s.len() == 0 {
        assert(join_fields(fields_of(s)) =~= s);
    } else {
        let prev = fields_of(s.drop_last());
        lemma_join_split(s.drop_last());
        lemma_fields_nonempty(s.drop_last());
        assert(s =~= s.drop_last().push(s.last()));
        if s.last() == FIELD_SEPARATOR {
            let fs = prev.push(Seq::<u8>::empty());
            assert(fs.drop_last() =~= prev);
            assert(join_fields(fs) =~= s);
        } else {
            let fs = prev.update(prev.len() - 1, prev.last().push(s.last()));
            if prev.len() == 1 {
                assert(join_fields(fs) =~= s);
            } else {
                assert(fs.drop_last() =~= prev.drop_last());
                assert(join_fields(prev) == join_fields(prev.drop_last()).push(FIELD_SEPARATOR)
                    + prev.last());
                assert(join_fields(fs) =~= s);
            }
        }
    }
}

/// `v` as five decimal digits, zero-padded.
pub open spec fn render5(v: u32) -> Seq<u8> {
    seq![
        (48 + v / 10000) as u8,
        (48 + (v / 1000) % 10) as u8,
        (48 + (v / 100) % 10) as u8,
        (48 + (v / 10) % 10) as u8,
        (48 + v % 10) as u8,
    ]
}

/// A field as the wire writes it: five decimal digits.
pub open spec fn is_canonical_field(f: Seq<u8>) -> bool {
    f.len() == 5 && is_digits(f)
}

/// A reply as the wire writes it: 25 canonical fields.
pub open spec fn is_canonical_reply(s: Seq<u8>) -> bool {
    &&& fields_of(s).len() == 25
    &&& forall|i: int| 0 <= i < 25 ==> is_canonical_field(#[trigger] fields_of(s)[i])
}

/// The numbers of a reply's fields, where every field is one.
pub open spec fn reply_values(s: Seq<u8>) -> Option<Seq<u32>> {
    let fs = fields_of(s);
    if forall|i: int| 0 <= i < fs.len() ==> (#[trigger] field_value(fs[i])) is Some {
        Some(fs.map_values(|f: Seq<u8>| field_value(f).unwrap()))
    } else {
        None
    }
}

/// The reply that writes `vs` as canonical fields.
pub open spec fn render_reply_spec(vs: Seq<u32>) -> Seq<u8> {
    join_fields(vs.map_values(|v: u32| render5(v)))
}

proof fn lemma_render5_of_field(f: Seq<u8>)
    requires
        is_canonical_field(f),
    ensures
        digits_value(f) < 100000,
        field_value(f) == Some(digits_value(f) as u32),
        render5(digits_value(f) as u32) == f,
{
    let a = f[0] - 48;
    let b = f[1] - 48;
    let c = f[2] - 48;
    let d = f[3] - 48;
    let e = f[4] - 48;
    assert(is_digit(f[0]) && is_digit(f[1]) && is_digit(f[2]) && is_digit(f[3]) && is_digit(
        f[4],
    ));
    let f4 = f.drop_last();
    let f3 = f4.drop_last();
    let f2 = f3.drop_last();
    let f1 = f2.drop_last();
    let f0 = f1.drop_last();
    assert(f0.len() == 0);
    assert(digits_value(f0) == 0);
    assert(f1.last() == f[0] && f2.last() == f[1] && f3.last() == f[2] && f4.last() == f[3]);
    assert(digits_value(f1) == a);
    assert(digits_value(f2) == a * 10 + b);
    assert(digits_value(f3) == (a * 10 + b) * 10 + c);
    assert(digits_value(f4) == ((a * 10 + b) * 10 + c) * 10 + d);
    let v = digits_value(f) as int;
    assert(v == (((a * 10 + b) * 10 + c) * 10 + d) * 10 + e);
    lemma_fundamental_div_mod_converse(v, 10000, a, b * 1000 + c * 100 + d * 10 + e);
    lemma_fundamental_div_mod_converse(v, 1000, a * 10 + b, c * 100 + d * 10 + e);
    lemma_fundamental_div_mod_converse(a * 10 + b, 10, a, b);
    lemma_fundamental_div_mod_converse(v, 100, a * 100 + b * 10 + c, d * 10 + e);
    lemma_fundamental_div_mod_converse(a * 100 + b * 10 + c, 10, a * 10 + b, c);
    lemma_fundamental_div_mod_converse(v, 10, a * 1000 + b * 100 + c * 10 + d, e);
    lemma_fundamental_div_mod_converse(a * 1000 + b * 100 + c * 10 + d, 10, a * 100 + b * 10 + c, d);
    assert(render5(v as u32) =~= f);
}

/// Reading the fields of a canonical reply as numbers and writing the
/// numbers back as five-digit fields gives the same bytes.
pub proof fn lemma_canonical_round_trip(s: Seq<u8>)
    requires
        is_canonical_reply(s),
    ensures
        reply_values(s) is Some,
        forall|i: int| 0 <= i < 25 ==> (#[trigger] reply_values(s).unwrap()[i]) < 100000,
        render_reply_spec(reply_values(s).unwrap()) == s,
{
    let fs = fields_of(s);
    assert forall|i: int| 0 <= i < fs.len() implies (#[trigger] field_value(fs[i])) is Some by {
        lemma_render5_of_field(fs[i]);
    }
    let vs = reply_values(s).unwrap();
    assert forall|i: int| 0 <= i < 25 implies (#[trigger] vs[i]) < 100000 && render5(vs[i])
        == fs[i] by {
        lemma_render5_of_field(fs[i]);
    }
    assert(vs.map_values(|v: u32| render5(v)) =~= fs);
    lemma_join_split(s);
}

/// Reads every field of a reply as a decimal `u32`.
pub fn reply_values_of(s: &[u8]) -> (r: Option<Vec<u32>>)
    ensures
        r is Some <==> reply_values(s@) is Some,
        r matches Some(v) ==> Some(v@) == reply_values(s@),
{
    let fs = split_fields(s);
    let mut out: Vec<u32> = Vec::new();
    let mut i: usize = 0;
    let ghost g = fields_of(s@);
    assert(views_of(fs@).len() == fs@.len());
    while i < fs.len()
        invariant
            0 <= i <= fs@.len(),
            g == views_of(fs@),
            g == fields_of(s@),
            g.len() == fs@.len(),
            out@.len() == i,
            forall|k: int| 0 <= k < i ==> #[trigger] field_value(g[k]) == Some(out@[k]),
        decreases fs.len() - i,
    {
        assert(g[i as int] == fs@[i as int]@);
        match parse_u32_field(fs[i].as_slice()) {
            Some(v) => {
                out.push(v);
            },
            None => {
                assert(field_value(g[i as int]) is None);
                assert(!(forall|k: int| 0 <= k < g.len() ==> (#[trigger] field_value(g[k])) is Some));
                return None;
            },
        }
        i = i + 1;
    }
    assert(out@ =~= g.map_values(|f: Seq<u8>| field_value(f).unwrap()));
    Some(out)
}

fn push_digit(out: &mut Vec<u8>, d: u32)
    requires
        d < 10,
    ensures
        final(out)@ == old(out)@.push((48 + d) as u8),
{
    out.push(48u8 + d as u8);
}

/// Writes numbers below 100000 as five-digit fields separated by single spaces.
pub fn render_reply(values: &Vec<u32>) -> (r: Vec<u8>)
    requires
        forall|i: int| 0 <= i < values@.len() ==> #[trigger] values@[i] < 100000,
    ensures
        r@ == render_reply_spec(values@),
{
    let mut out: Vec<u8> = Vec::new();
    let mut i: usize = 0;
    while i < values.len()
        invariant
            0 <= i <= values@.len(),
            forall|k: int| 0 <= k < values@.len() ==> #[trigger] values@[k] < 100000,
            out@ == render_reply_spec(values@.take(i as int)),
        decreases values.len() - i,
    {
        let ghost before = out@;
        let v = values[i];
        if i > 0 {
            out.push(FIELD_SEPARATOR);
        }
        push_digit(&mut out, v / 10000);
        push_digit(&mut out, (v / 1000) % 10);
        push_digit(&mut out, (v / 100) % 10);
        push_digit(&mut out, (v / 10) % 10);
        push_digit(&mut out, v % 10);
        proof {
            let t = values@.take(i + 1);
            let m = t.map_values(|x: u32| render5(x));
            assert(t.drop_last() =~= values@.take(i as int));
            assert(m.drop_last() =~= values@.take(i as int).map_values(|x: u32| render5(x)));
            assert(m.last() == render5(v));
            if i > 0 {
                assert(out@ =~= before.push(FIELD_SEPARATOR) + render5(v));
            } else {
                assert(out@ =~= render5(v));
            }
        }
        i = i + 1;
    }
    proof {
        assert(values@.take(values@.len() as int) =~= values@);
    }
    out
}

} // verus!
