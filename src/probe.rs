use vstd::prelude::*;

verus! {

pub const NEWLINE: u8 = 10;

/// The key that introduces the duration line in the probe's report.
pub open spec fn duration_key() -> Seq<u8> {
    seq![100u8, 117u8, 114u8, 97u8, 116u8, 105u8, 111u8, 110u8, 61u8]
}

/// End of the line that starts at `s`: the next newline, or the end of the text.
pub open spec fn line_end(out: Seq<u8>, s: int) -> int
    decreases out.len() - s,
{
    if s >= out.len() {
        out.len() as int
    } else if out[s] == NEWLINE {
        s
    } else {
        line_end(out, s + 1)
    }
}

/// The line `out[s..e]` begins with the duration key.
pub open spec fn starts_with_key(out: Seq<u8>, s: int, e: int) -> bool {
    e - s >= duration_key().len() && out.subrange(s, s + duration_key().len() as int)
        == duration_key()
}

/// The value of the first line, at or after the line that starts at `s`,
/// that begins with the duration key.
pub open spec fn duration_field_from(out: Seq<u8>, s: int) -> Option<Seq<u8>>
    decreases out.len() + 1 - s,
{
    if s < 0 || s > out.len() {
        None
    } else {
        let e = line_end(out, s);
        if starts_with_key(out, s, e) {
            Some(out.subrange(s + duration_key().len() as int, e))
        } else if e >= out.len() || e < s {
            None
        } else {
            duration_field_from(out, e + 1)
        }
    }
}

proof fn lemma_line_end_bounds(out: Seq<u8>, s: int)
    requires
        0 <= s <= out.len(),
    ensures
        s <= line_end(out, s) <= out.len(),
        line_end(out, s) < out.len() ==> out[line_end(out, s)] == NEWLINE,
    decreases out.len() - s,
{
    if s < out.len() && out[s] != NEWLINE {
        lemma_line_end_bounds(out, s + 1);
    }
}

fn find_line_end(out: &[u8], s: usize) -> (e: usize)
    requires
        s <= out@.len(),
    ensures
        e as int == line_end(out@, s as int),
{
    let len = out.len();
    let mut e: usize = s;
    while e < len && out[e] != NEWLINE
        invariant
            len == out@.len(),
            s <= e <= len,
            line_end(out@, s as int) == line_end(out@, e as int),
        decreases len - e,
    {
        e = e + 1;
    }
    e
}

fn key_at(out: &[u8], s: usize, e: usize) -> (r: bool)
    requires
        s <= e <= out@.len(),
    ensures
        r == starts_with_key(out@, s as int, e as int),
{
    let key: Vec<u8> = vec![100u8, 117u8, 114u8, 97u8, 116u8, 105u8, 111u8, 110u8, 61u8];
    assert(key@ == duration_key());
    if e - s < key.len() {
        return false;
    }
    let mut i: usize = 0;
    while i < key.len()
        invariant
            key@ == duration_key(),
            s + key@.len() <= e <= out@.len(),
            0 <= i <= key@.len(),
            forall|j: int| 0 <= j < i ==> out@[s + j] == key@[j],
        decreases key@.len() - i,
    {
        if out[s + i] != key[i] {
            assert(out@.subrange(s as int, s + key@.len())[i as int] != duration_key()[i as int]);
            return false;
        }
        i = i + 1;
    }
    assert(out@.subrange(s as int, s + key@.len()) =~= duration_key());
    true
}

fn copy_range(out: &[u8], a: usize, b: usize) -> (r: Vec<u8>)
    requires
        a <= b <= out@.len(),
    ensures
        r@ == out@.subrange(a as int, b as int),
{
    let mut r: Vec<u8> = Vec::new();
    let mut i: usize = a;
    while i < b
        invariant
            a <= i <= b <= out@.len(),
            r@ == out@.subrange(a as int, i as int),
        decreases b - i,
    {
        r.push(out[i]);
        assert(r@ =~= out@.subrange(a as int, i + 1));
        i = i + 1;
    }
    r
}

/// Finds the value of the first `duration=` line of a probe report, the
/// text after the key up to the end of that line.
pub fn duration_field(out: &[u8]) -> (r: Option<Vec<u8>>)
    ensures
        r.is_some() == duration_field_from(out@, 0).is_some(),
        r.is_some() ==> r.unwrap()@ == duration_field_from(out@, 0).unwrap(),
{
    let len = out.len();
    let mut s: usize = 0;
    loop
        invariant
            len == out@.len(),
            s <= len,
            duration_field_from(out@, 0) == duration_field_from(out@, s as int),
        decreases len - s,
    {
        let e = find_line_end(out, s);
        proof {
            lemma_line_end_bounds(out@, s as int);
        }
        if key_at(out, s, e) {
            return Some(copy_range(out, s + 9, e));
        }
        if e >= len {
            return None;
        }
        s = e + 1;
    }
}

} // verus!
