use vstd::prelude::*;
use itertools::Itertools;
use crate::names::{FileNameAttr, FileRecordEntry, best_name_index};

verus! {

/// A record of a directory listing with the name it is shown under.
pub struct ListedFile {
    pub name: FileNameAttr,
    pub record: FileRecordEntry,
}

/// Some record of `s` has number `rn`.
pub open spec fn seen(s: Seq<FileRecordEntry>, rn: u64) -> bool {
    exists|j: int| 0 <= j < s.len() && (#[trigger] s[j]).record_number == rn
}

/// `s` with every record dropped whose number occurred before it: the first
/// record of each number stays, in the order of first occurrence.
pub open spec fn unique_by_number(s: Seq<FileRecordEntry>) -> Seq<FileRecordEntry>
    decreases s.len(),
{
    if s.len() == 0 {
        s
    } else if seen(s.drop_last(), s.last().record_number) {
        unique_by_number(s.drop_last())
    } else {
        unique_by_number(s.drop_last()).push(s.last())
    }
}

/// The records of `s` that have a name in directory `dir`, each with that name.
pub open spec fn named_records(dir: u64, s: Seq<FileRecordEntry>) -> Seq<ListedFile>
    decreases s.len(),
{
    if s.len() == 0 {
        Seq::empty()
    } else {
        let rest = named_records(dir, s.drop_last());
        match best_name_index(s.last().names@, dir) {
            Some(i) => rest.push(ListedFile { name: s.last().names@[i], record: s.last() }),
            None => rest,
        }
    }
}

/// What listing directory `dir` yields from its index entries `entries`.
pub open spec fn listing_of(dir: u64, entries: Seq<FileRecordEntry>) -> Seq<ListedFile> {
    named_records(dir, unique_by_number(entries))
}

/// The numbers of the records reachable from `entries` that get a name in
/// `dir`, each judged by its first entry.
pub open spec fn resolvable_numbers(dir: u64, entries: Seq<FileRecordEntry>) -> Set<u64> {
    Set::new(
        |rn: u64|
            exists|i: int|
                0 <= i < entries.len() && (#[trigger] entries[i]).record_number == rn && !seen(
                    entries.subrange(0, i),
                    rn,
                ) && best_name_index(entries[i].names@, dir) is Some,
    )
}

/// Relies on itertools' `unique_by`: keeps, in order, each item whose key was
/// not produced by an earlier item.
#[verifier::external_body]
fn unique_records(entries: Vec<FileRecordEntry>) -> (r: Vec<FileRecordEntry>)
    ensures
        r@ == unique_by_number(entries@),
{
    entries.into_iter().unique_by(|e| e.record_number).collect_vec()
}

/// The listing of directory `dir` from its index entries, as the volume gave
/// them: one item per record number, in order of first occurrence, each
/// under its best name in `dir`; records without a name there are left out.
pub fn list_directory(dir: u64, entries: Vec<FileRecordEntry>) -> (r: Vec<ListedFile>)
    ensures
        r@ == listing_of(dir, entries@),
{
    let ghost all = unique_by_number(entries@);
    let mut rest = unique_records(entries);
    let mut out: Vec<ListedFile> = Vec::new();
    let ghost mut i: int = 0;
    while rest.len() > 0
        invariant
            0 <= i <= all.len(),
            rest@ == all.subrange(i, all.len() as int),
            out@ == named_records(dir, all.subrange(0, i)),
        decreases rest.len(),
    {
        let rec = rest.remove(0);
        proof {
            assert(rec == all[i]);
            assert(all.subrange(0, i + 1).drop_last() =~= all.subrange(0, i));
            assert(all.subrange(0, i + 1).last() == rec);
        }
        match rec.resolve_best_name(dir) {
            Ok(name) => {
                out.push(ListedFile { name, record: rec });
            },
            Err(_) => {},
        }
        proof {
            i = i + 1;
            assert(rest@ =~= all.subrange(i, all.len() as int));
        }
    }
    assert(all.subrange(0, i) =~= all);
    out
}

/// Numbers of the records of `s` that get a name in `dir`, judged by the
/// first record of each number.
pub open spec fn resolvable_set(dir: u64, s: Seq<FileRecordEntry>) -> Set<u64>
    decreases s.len(),
{
    if s.len() == 0 {
        Set::empty()
    } else {
        let rest = resolvable_set(dir, s.drop_last());
        if !seen(s.drop_last(), s.last().record_number) && best_name_index(
            s.last().names@,
            dir,
        ) is Some {
            rest.insert(s.last().record_number)
        } else {
            rest
        }
    }
}

proof fn lemma_resolvable_set(dir: u64, s: Seq<FileRecordEntry>)
    ensures
        resolvable_set(dir, s).finite(),
        resolvable_set(dir, s) == resolvable_numbers(dir, s),
        forall|rn: u64| resolvable_set(dir, s).contains(rn) ==> seen(s, rn),
        named_records(dir, unique_by_number(s)).len() == resolvable_set(dir, s).len(),
    decreases s.len(),
{
    if s.len() > 0 {
        let p = s.drop_last();
        let x = s.last();
        lemma_resolvable_set(dir, p);
        assert forall|rn: u64| resolvable_set(dir, s).contains(rn) implies seen(s, rn) by {
            if resolvable_set(dir, p).contains(rn) {
                let j = choose|j: int| 0 <= j < p.len() && (#[trigger] p[j]).record_number == rn;
                assert(s[j] == p[j]);
            } else {
                assert(s[s.len() - 1] == x);
            }
        }
        assert forall|rn: u64| resolvable_numbers(dir, s).contains(rn) <==> #[trigger] resolvable_set(dir, s).contains(rn) by {
            if resolvable_numbers(dir, s).contains(rn) {
                let i = choose|i: int|
                    0 <= i < s.len() && (#[trigger] s[i]).record_number == rn && !seen(
                        s.subrange(0, i),
                        rn,
                    ) && best_name_index(s[i].names@, dir) is Some;
                if i < s.len() - 1 {
                    assert(p[i] == s[i]);
                    assert(p.subrange(0, i) =~= s.subrange(0, i));
                    assert(resolvable_numbers(dir, p).contains(rn));
                } else {
                    assert(s.subrange(0, i) =~= p);
                }
            }
            if resolvable_set(dir, s).contains(rn) {
                if resolvable_set(dir, p).contains(rn) {
                    assert(resolvable_numbers(dir, p).contains(rn));
                    let i = choose|i: int|
                        0 <= i < p.len() && (#[trigger] p[i]).record_number == rn && !seen(
                            p.subrange(0, i),
                            rn,
                        ) && best_name_index(p[i].names@, dir) is Some;
                    assert(p.subrange(0, i) =~= s.subrange(0, i));
                    assert(s[i] == p[i]);
                } else {
                    let i = s.len() - 1;
                    assert(s.subrange(0, i) =~= p);
                    assert(s[i] == x);
                }
            }
        }
        assert(resolvable_set(dir, s) =~= resolvable_numbers(dir, s));
        let u = unique_by_number(p);
        if !seen(p, x.record_number) {
            assert(u.push(x).drop_last() =~= u);
            assert(!resolvable_set(dir, p).contains(x.record_number));
        }
    }
}

/// A directory's listing holds as many items as there are distinct record
/// numbers among its index entries whose record gets a name in the directory.
pub proof fn law_listing_counts_resolvable_records(dir: u64, entries: Seq<FileRecordEntry>)
    ensures
        resolvable_numbers(dir, entries).finite(),
        listing_of(dir, entries).len() == resolvable_numbers(dir, entries).len(),
{
    lemma_resolvable_set(dir, entries);
}

} // verus!
