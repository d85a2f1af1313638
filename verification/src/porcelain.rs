//! The list of changed files that git writes with `status --porcelain -z`.

use vstd::prelude::*;
use vstd::slice::slice_subrange;

verus! {

/// The fields of `s`: each ends with a zero byte; what stands behind the last one is no
/// field where it is empty.
pub open spec fn fields(s: Seq<u8>) -> Seq<Seq<u8>>
    decreases s.len(),
{
    if s.len() == 0 {
        seq![]
    } else {
        let n = field_len(s);
        if n >= s.len() {
            seq![s]
        } else {
            seq![s.take(n as int)] + fields(s.skip((n + 1) as int))
        }
    }
}

/// The bytes before the first zero byte.
pub open spec fn field_len(s: Seq<u8>) -> nat
    decreases s.len(),
{
    if s.len() == 0 || s[0] == 0 {
        0
    } else {
        1 + field_len(s.skip(1))
    }
}

/// Whether an entry is about a file that was renamed or copied. The next field is then
/// the file's new name.
pub open spec fn renamed(entry: Seq<u8>) -> bool {
    entry[0] == 82 || entry[1] == 82 || entry[0] == 67 || entry[1] == 67
}

/// Whether an entry is about a file that is gone.
pub open spec fn deleted(entry: Seq<u8>) -> bool {
    entry[0] == 68 || entry[1] == 68
}

/// The files that were changed and are still there. An entry is two letters, a space
/// and a path.
pub open spec fn changed_paths(fields: Seq<Seq<u8>>) -> Seq<Seq<u8>>
    decreases fields.len(),
{
    if fields.len() == 0 {
        seq![]
    } else {
        let entry = fields[0];
        let rest = fields.drop_first();
        if entry.len() < 4 {
            changed_paths(rest)
        } else if renamed(entry) {
            if rest.len() == 0 {
                seq![]
            } else if deleted(entry) {
                changed_paths(rest.drop_first())
            } else {
                seq![rest[0]] + changed_paths(rest.drop_first())
            }
        } else if deleted(entry) {
            changed_paths(rest)
        } else {
            seq![entry.skip(3)] + changed_paths(rest)
        }
    }
}

/// The contents of a list of byte rows.
pub open spec fn byte_rows(v: Seq<Vec<u8>>) -> Seq<Seq<u8>> {
    Seq::new(v.len(), |i: int| v[i]@)
}

fn copied(s: &[u8]) -> (r: Vec<u8>)
    ensures
        r@ == s@,
{
    let mut out: Vec<u8> = Vec::new();
    let mut i: usize = 0;
    while i < s.len()
        invariant
            i <= s.len(),
            out@ == s@.take(i as int),
        decreases s.len() - i,
    {
        assert(s@.take(i + 1) == s@.take(i as int).push(s@[i as int]));
        out.push(s[i]);
        i += 1;
    }
    assert(s@.take(i as int) == s@);
    out
}

fn zero_at(s: &[u8], from: usize) -> (r: usize)
    requires
        from <= s@.len(),
    ensures
        from <= r <= s@.len(),
        r - from == field_len(s@.skip(from as int)),
{
    let mut n: usize = from;
    while n < s.len() && s[n] != 0
        invariant
            from <= n <= s.len(),
            field_len(s@.skip(from as int)) == (n - from) + field_len(s@.skip(n as int)),
        decreases s.len() - n,
    {
        assert(s@.skip(n as int).skip(1) == s@.skip(n + 1));
        n += 1;
    }
    n
}

fn field_list(s: &[u8]) -> (r: Vec<Vec<u8>>)
    ensures
        byte_rows(r@) == fields(s@),
{
    let mut out: Vec<Vec<u8>> = Vec::new();
    let mut i: usize = 0;
    assert(s@.skip(0) == s@);
    assert(byte_rows(out@) + fields(s@) == fields(s@));
    while i < s.len()
        invariant
            i <= s.len(),
            byte_rows(out@) + fields(s@.skip(i as int)) == fields(s@),
        decreases s.len() - i,
    {
        let ghost rest = s@.skip(i as int);
        let ghost before = byte_rows(out@);
        let end: usize = zero_at(s, i);
        let piece = slice_subrange(s, i, end);
        assert(piece@ == rest.take(end - i));
        out.push(copied(piece));
        assert(byte_rows(out@) == before.push(piece@));
        if end < s.len() {
            assert(rest.skip(end - i + 1) == s@.skip(end + 1));
            assert(before + (seq![piece@] + fields(s@.skip(end + 1))) == before.push(piece@)
                + fields(s@.skip(end + 1)));
            i = end + 1;
        } else {
            assert(piece@ == rest);
            assert(s@.skip(end as int) == Seq::<u8>::empty());
            assert(before + seq![piece@] == before.push(piece@) + Seq::<Seq<u8>>::empty());
            i = end;
        }
    }
    assert(s@.skip(i as int) == Seq::<u8>::empty());
    assert(byte_rows(out@) + Seq::<Seq<u8>>::empty() == byte_rows(out@));
    out
}

/// The files that were changed and are still there; of a renamed file, its new name.
pub fn parse_porcelain_z_paths(raw: &[u8]) -> (r: Vec<Vec<u8>>)
    ensures
        byte_rows(r@) == changed_paths(fields(raw@)),
{
    let entries = field_list(raw);
    let ghost all = fields(raw@);
    let mut out: Vec<Vec<u8>> = Vec::new();
    let mut i: usize = 0;
    assert(all.skip(0) == all);
    assert(byte_rows(out@) + changed_paths(all) == changed_paths(all));
    while i < entries.len()
        invariant
            i <= entries.len(),
            all == byte_rows(entries@),
            byte_rows(out@) + changed_paths(all.skip(i as int)) == changed_paths(all),
        decreases entries.len() - i,
    {
        let total: usize = entries.len();
        let entry = &entries[i];
        let ghost rest = all.skip(i as int);
        let ghost before = byte_rows(out@);
        assert(rest[0] == entry@);
        assert(rest.drop_first() == all.skip(i + 1));
        if entry.len() < 4 {
            i += 1;
            continue ;
        }
        let is_renamed = entry[0] == 82 || entry[1] == 82 || entry[0] == 67 || entry[1] == 67;
        let is_deleted = entry[0] == 68 || entry[1] == 68;
        if is_renamed {
            if i + 1 >= total {
                i += 1;
                assert(all.skip(i as int) == Seq::<Seq<u8>>::empty());
                continue ;
            }
            assert(rest.drop_first()[0] == entries@[i + 1]@);
            assert(rest.drop_first().drop_first() == all.skip(i + 2));
            if !is_deleted {
                out.push(copied(entries[i + 1].as_slice()));
                assert(byte_rows(out@) == before.push(entries@[i + 1]@));
                assert(before + (seq![entries@[i + 1]@] + changed_paths(all.skip(i + 2)))
                    == before.push(entries@[i + 1]@) + changed_paths(all.skip(i + 2)));
            }
            i += 2;
            continue ;
        }
        if !is_deleted {
            let path = slice_subrange(entry.as_slice(), 3, entry.len());
            assert(path@ == entry@.skip(3));
            out.push(copied(path));
            assert(byte_rows(out@) == before.push(path@));
            assert(before + (seq![path@] + changed_paths(all.skip(i + 1))) == before.push(path@)
                + changed_paths(all.skip(i + 1)));
        }
        i += 1;
    }
    assert(all.skip(i as int) == Seq::<Seq<u8>>::empty());
    assert(byte_rows(out@) + Seq::<Seq<u8>>::empty() == byte_rows(out@));
    out
}

/// A field ends at its zero byte, and what stands behind that is read by itself; what has no
/// zero byte is one field, and nothing is none.
pub proof fn law_field_ends_at_its_zero_byte(field: Seq<u8>, rest: Seq<u8>)
    requires
        forall|i: int| 0 <= i < field.len() ==> #[trigger] field[i] != 0,
    ensures
        fields(field + seq![0u8] + rest) == seq![field] + fields(rest),
        field.len() > 0 ==> fields(field) == seq![field],
        field.len() == 0 ==> fields(field).len() == 0,
{
    let s = field + seq![0u8] + rest;
    lemma_field_len(field, seq![0u8] + rest);
    lemma_field_len(field, seq![]);
    assert(field + (seq![0u8] + rest) == s);
    assert(field + Seq::<u8>::empty() == field);
    assert(s.take(field.len() as int) == field);
    assert(s.skip(field.len() as int + 1) == rest);
}

proof fn lemma_field_len(field: Seq<u8>, after: Seq<u8>)
    requires
        forall|i: int| 0 <= i < field.len() ==> #[trigger] field[i] != 0,
        after.len() > 0 ==> after[0] == 0,
    ensures
        field_len(field + after) == field.len(),
    decreases field.len(),
{
    let s = field + after;
    if field.len() > 0 {
        let less = field.skip(1);
        assert(s[0] == field[0]);
        assert(s.skip(1) == less + after);
        assert forall|i: int| 0 <= i < less.len() implies #[trigger] less[i] != 0 by {
            assert(less[i] == field[i + 1]);
        }
        lemma_field_len(less, after);
    } else if after.len() > 0 {
        assert(s[0] == after[0]);
    }
}

/// Every entry is read by its two letters: a file that was changed is listed by its path, one
/// that was renamed or copied by the name in the next field, and one that is gone not at all.
pub proof fn law_entries_are_read_by_their_letters(
    x: u8,
    y: u8,
    path: Seq<u8>,
    new: Seq<u8>,
    rest: Seq<Seq<u8>>,
)
    requires
        path.len() > 0,
    ensures
        ({
            let entry = seq![x, y, 32u8] + path;
            let moved = x == 'R' as u8 || y == 'R' as u8 || x == 'C' as u8 || y == 'C' as u8;
            let gone = x == 'D' as u8 || y == 'D' as u8;
            &&& !moved && !gone ==> changed_paths(seq![entry] + rest) == seq![path]
                + changed_paths(rest)
            &&& !moved && gone ==> changed_paths(seq![entry] + rest) == changed_paths(rest)
            &&& moved && !gone ==> changed_paths(seq![entry, new] + rest) == seq![new]
                + changed_paths(rest)
            &&& moved && gone ==> changed_paths(seq![entry, new] + rest) == changed_paths(rest)
        }),
{
    let entry = seq![x, y, 32u8] + path;
    let one = seq![entry] + rest;
    let two = seq![entry, new] + rest;
    assert(one[0] == entry && two[0] == entry);
    assert(one.drop_first() == rest);
    assert(two.drop_first()[0] == new);
    assert(two.drop_first().drop_first() == rest);
    assert(entry.skip(3) == path);
    assert(entry[0] == x && entry[1] == y);
}

/// A field that is too short to be an entry is passed over.
pub proof fn law_short_fields_are_passed_over(entry: Seq<u8>, rest: Seq<Seq<u8>>)
    requires
        entry.len() <= 3,
    ensures
        changed_paths(seq![entry] + rest) == changed_paths(rest),
        changed_paths(seq![]).len() == 0,
{
    let all = seq![entry] + rest;
    assert(all[0] == entry);
    assert(all.drop_first() == rest);
}

/// Rows of bytes are seen as they are, in their order.
pub proof fn law_rows_are_seen_in_order(v: Seq<Vec<u8>>, i: int)
    ensures
        byte_rows(v).len() == v.len(),
        0 <= i < v.len() ==> byte_rows(v)[i] == v[i]@,
{
}

} // verus!
