//! Splitting the text of a directory listing (one name per line) into entries.

use vstd::prelude::*;

verus! {

/// Reading `s` left to right: the lines closed by a newline so far, and the
/// characters after the last newline.
pub open spec fn spec_scan(s: Seq<char>) -> (Seq<Seq<char>>, Seq<char>)
    decreases s.len(),
{
    if s.len() == 0 {
        (Seq::empty(), Seq::empty())
    } else {
        let (done, cur) = spec_scan(s.drop_last());
        if s.last() == '\n' {
            (done.push(cur), Seq::empty())
        } else {
            (done, cur.push(s.last()))
        }
    }
}

/// The entries of a listing: the pieces between newlines, without the piece
/// after the last newline (empty when the listing ends with a newline).
pub open spec fn spec_entries(s: Seq<char>) -> Seq<Seq<char>> {
    spec_scan(s).0
}

/// The characters of `s`, in order.
pub(crate) fn chars_of(s: &str) -> (v: Vec<char>)
    ensures
        v@ == s@,
{
    let mut v: Vec<char> = Vec::new();
    for c in it: s.chars()
        invariant
            v@ == it.seq().take(it.index() as int),
            it.seq() == s@,
    {
        v.push(c);
    }
    v
}


/// How many newlines `s` holds.
pub open spec fn newline_count(s: Seq<char>) -> nat
    decreases s.len(),
{
    if s.len() == 0 {
        0
    } else {
        newline_count(s.drop_last()) + if s.last() == '\n' { 1nat } else { 0nat }
    }
}

/// The entries written back one per line, each followed by a newline.
pub open spec fn spec_joined(entries: Seq<Seq<char>>) -> Seq<char>
    decreases entries.len(),
{
    if entries.len() == 0 {
        Seq::empty()
    } else {
        spec_joined(entries.drop_last()) + entries.last() + seq!['\n']
    }
}

/// Text without newlines, appended to `s`, only extends the text after the
/// last newline.
pub proof fn lemma_scan_append_plain(s: Seq<char>, t: Seq<char>)
    requires
        forall|j: int| 0 <= j < t.len() ==> t[j] != '\n',
    ensures
        spec_scan(s + t) == (spec_scan(s).0, spec_scan(s).1 + t),
    decreases t.len(),
{
    if t.len() == 0 {
        assert(s + t =~= s);
        assert(spec_scan(s).1 + t =~= spec_scan(s).1);
    } else {
        let u = t.drop_last();
        lemma_scan_append_plain(s, u);
        assert((s + t).drop_last() =~= s + u);
        assert((s + t).last() == t.last());
        assert(spec_scan(s).1 + u.push(t.last()) =~= spec_scan(s).1 + t);
        assert((spec_scan(s).1 + u).push(t.last()) =~= spec_scan(s).1 + t);
    }
}

/// A listing has exactly one entry per newline, no entry holds a newline, and
/// the entries written one per line, followed by the text after the last
/// newline, give back the listing.
pub proof fn lemma_entries_partition_listing(s: Seq<char>)
    ensures
        spec_entries(s).len() == newline_count(s),
        forall|k: int, j: int|
            0 <= k < spec_entries(s).len() && 0 <= j < spec_entries(s)[k].len()
                ==> spec_entries(s)[k][j] != '\n',
        spec_joined(spec_entries(s)) + spec_scan(s).1 == s,
        forall|j: int| 0 <= j < spec_scan(s).1.len() ==> spec_scan(s).1[j] != '\n',
    decreases s.len(),
{
    if s.len() > 0 {
        let t = s.drop_last();
        lemma_entries_partition_listing(t);
        let (done, cur) = spec_scan(t);
        if s.last() == '\n' {
            assert(done.push(cur).drop_last() =~= done);
            assert(spec_joined(done.push(cur)) =~= spec_joined(done) + cur + seq!['\n']);
            assert(spec_joined(done.push(cur)) + Seq::<char>::empty() =~= s);
        } else {
            assert(s =~= t.push(s.last()));
            assert(spec_joined(done) + cur.push(s.last()) =~= (spec_joined(done) + cur).push(s.last()));
        }
    } else {
        assert(spec_joined(Seq::<Seq<char>>::empty()) + Seq::<char>::empty() =~= s);
    }
}

/// A listing that is empty or ends with a newline (as `ls` prints it) is
/// exactly its entries written one per line.
pub proof fn lemma_entries_rejoin(s: Seq<char>)
    requires
        s.len() == 0 || s.last() == '\n',
    ensures
        spec_joined(spec_entries(s)) == s,
{
    lemma_entries_partition_listing(s);
    if s.len() > 0 {
        assert(spec_scan(s).1 =~= Seq::<char>::empty());
    }
    assert(spec_joined(spec_entries(s)) + spec_scan(s).1 =~= spec_joined(spec_entries(s)));
}

/// The entries of a directory listing, in order: the text is cut at each
/// newline and the piece after the last newline is dropped.
pub fn preview_entries(listing: &str) -> (entries: Vec<String>)
    ensures
        entries.deep_view() == spec_entries(listing@),
{
    let chars = chars_of(listing);
    let mut entries: Vec<String> = Vec::new();
    let mut start: usize = 0;
    let mut i: usize = 0;
    while i < chars.len()
        invariant
            chars@ == listing@,
            start <= i <= chars.len(),
            spec_scan(listing@.take(i as int)) == (entries.deep_view(), listing@.subrange(start as int, i as int)),
        decreases chars.len() - i,
    {
        let ghost prev = entries.deep_view();
        assert(listing@.take(i + 1).drop_last() =~= listing@.take(i as int));
        assert(listing@.take(i + 1).last() == listing@[i as int]);
        if chars[i] == '\n' {
            let piece = listing.substring_char(start, i).to_owned();
            entries.push(piece);
            assert(entries.deep_view() =~= prev.push(listing@.subrange(start as int, i as int)));
            start = i + 1;
            assert(listing@.subrange(start as int, i + 1) =~= Seq::<char>::empty());
        } else {
            assert(listing@.subrange(start as int, i + 1) =~= listing@.subrange(start as int, i as int).push(listing@[i as int]));
        }
        i = i + 1;
    }
    assert(listing@.take(chars.len() as int) =~= listing@);
    entries
}

} // verus!
