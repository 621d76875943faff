//! Splitting a received line into its space-separated fields.
use vstd::prelude::*;

verus! {

/// The fields of `s` separated by single spaces, as `str::split(' ')` yields
/// them: empty fields are kept, and the empty line has one empty field.
pub open spec fn fields_of(s: Seq<char>) -> Seq<Seq<char>>
    decreases s.len(),
{
    if s.len() == 0 {
        seq![Seq::<char>::empty()]
    } else {
        let before = fields_of(s.drop_last());
        if s.last() == ' ' {
            before.push(Seq::<char>::empty())
        } else {
            before.update(before.len() - 1, before.last().push(s.last()))
        }
    }
}

/// The fields of `fs` put back together with one space between each two.
pub open spec fn joined(fs: Seq<Seq<char>>) -> Seq<char>
    decreases fs.len(),
{
    if fs.len() == 0 {
        Seq::<char>::empty()
    } else if fs.len() == 1 {
        fs[0]
    } else {
        joined(fs.drop_last()).push(' ') + fs.last()
    }
}

/// The number of spaces in `s`.
pub open spec fn space_count(s: Seq<char>) -> nat
    decreases s.len(),
{
    if s.len() == 0 {
        0
    } else {
        space_count(s.drop_last()) + if s.last() == ' ' { 1nat } else { 0nat }
    }
}

/// The contents of a vector of character vectors, as sequences.
pub open spec fn views(v: Seq<Vec<char>>) -> Seq<Seq<char>> {
    v.map_values(|f: Vec<char>| f@)
}

/// A line always has at least one field, and there is one more field than
/// there are spaces.
pub proof fn lemma_field_count(s: Seq<char>)
    ensures
        fields_of(s).len() == space_count(s) + 1,
    decreases s.len(),
{
    if s.len() > 0 {
        lemma_field_count(s.drop_last());
    }
}

/// No field holds a space, and the fields joined with single spaces give
/// back the line they came from.
pub proof fn lemma_fields_rejoin(s: Seq<char>)
    ensures
        forall|i: int, j: int|
            0 <= i < fields_of(s).len() && 0 <= j < fields_of(s)[i].len() ==> fields_of(s)[i][j]
                != ' ',
        joined(fields_of(s)) == s,
    decreases s.len(),
{
    lemma_field_count(s);
    if s.len() > 0 {
        let t = s.drop_last();
        lemma_fields_rejoin(t);
        lemma_field_count(t);
        let before = fields_of(t);
        if s.last() == ' ' {
            let after = before.push(Seq::<char>::empty());
            assert(after.drop_last() =~= before);
            assert(joined(after) =~= joined(before).push(' ') + Seq::<char>::empty());
            assert(s =~= t.push(' '));
        } else {
            let n: int = before.len() as int;
            let after = before.update(n - 1, before.last().push(s.last()));
            assert(s =~= t.push(s.last()));
            if n == 1 {
                assert(joined(before) == before[0]);
                assert(joined(after) == after[0]);
                assert(joined(after) =~= s);
            } else {
                assert(after.drop_last() =~= before.drop_last());
                assert(joined(before) =~= joined(before.drop_last()).push(' ') + before.last());
                assert(joined(after) =~= joined(before.drop_last()).push(' ') + before.last().push(
                    s.last(),
                ));
                assert(joined(after) =~= s);
            }
        }
    }
}

/// Splits `line` at every space, keeping empty fields, as
/// `line.split(' ')` does on the string the characters make up.
pub fn split_fields(line: &Vec<char>) -> (r: Vec<Vec<char>>)
    ensures
        views(r@) == fields_of(line@),
{
    let mut done: Vec<Vec<char>> = Vec::new();
    let mut cur: Vec<char> = Vec::new();
    let mut i: usize = 0;
    while i < line.len()
        invariant
            i <= line.len(),
            views(done@).push(cur@) == fields_of(line@.take(i as int)),
        decreases line.len() - i,
    {
        let c = line[i];
        let ghost pre = line@.take(i as int);
        assert(line@.take(i + 1).drop_last() =~= pre);
        if c == ' ' {
            let ghost old_done = done@;
            let ghost old_cur = cur@;
            done.push(cur);
            cur = Vec::new();
            assert(views(done@) =~= views(old_done).push(old_cur));
        } else {
            cur.push(c);
        }
        i = i + 1;
    }
    assert(line@.take(line.len() as int) =~= line@);
    done.push(cur);
    done
}

/// Whether the characters `a` spell out the text `w`.
pub fn spells(a: &Vec<char>, w: &str) -> (r: bool)
    ensures
        r == (a@ == w@),
{
    let n: usize = w.unicode_len();
    if a.len() != n {
        return false;
    }
    let mut i: usize = 0;
    while i < n
        invariant
            n == w@.len(),
            a.len() == n,
            i <= n,
            forall|j: int| 0 <= j < i ==> a@[j] == w@[j],
        decreases n - i,
    {
        if a[i] != w.get_char(i) {
            return false;
        }
        i = i + 1;
    }
    assert(a@ =~= w@);
    true
}

/// Whether the texts `a` and `b` hold the same characters.
pub fn same_text(a: &str, b: &str) -> (r: bool)
    ensures
        r == (a@ == b@),
{
    let n: usize = a.unicode_len();
    if b.unicode_len() != n {
        return false;
    }
    let mut i: usize = 0;
    while i < n
        invariant
            n == a@.len(),
            n == b@.len(),
            i <= n,
            forall|j: int| 0 <= j < i ==> a@[j] == b@[j],
        decreases n - i,
    {
        if a.get_char(i) != b.get_char(i) {
            return false;
        }
        i = i + 1;
    }
    assert(a@ =~= b@);
    true
}

} // verus!
