use vstd::prelude::*;
use crate::names::{FileNameAttr, FileRecordEntry, Namespace, first_match, find_name};

verus! {

/// The segment that ends a path whose ancestor chain could not be followed.
pub const PLACEHOLDER: &'static str = "[[no file name found]]";

/// The path separator of the volume.
pub const SEPARATOR: &'static str = "\\";

/// Where a hard-link walk stands.
pub struct WalkState {
    /// Namespace of the link whose path is being rebuilt.
    pub ns: Namespace,
    /// Names collected so far, leaf first.
    pub segs: Seq<Seq<char>>,
    /// Record number of the ancestor to fetch next.
    pub next: u64,
    /// Record numbers reached so far, the linked file's own first.
    pub seen: Seq<u64>,
    pub finished: bool,
}

/// Index of the name an ancestor directory is shown under: its first name of
/// the link's namespace, else its first name of any namespace.
pub open spec fn ancestor_name_index(names: Seq<FileNameAttr>, ns: Namespace) -> Option<int> {
    match first_match(names, Some(ns), None) {
        Some(i) => Some(i),
        None => first_match(names, None, None),
    }
}

/// The walk cut short: the placeholder ends the path.
pub open spec fn cut_short(w: WalkState) -> WalkState {
    WalkState { segs: w.segs.push(PLACEHOLDER@), finished: true, ..w }
}

/// One step of a walk, given what fetching `w.next` gave: nothing, or a record.
/// A missing record, one of another number, or one without a name cuts the
/// walk short. Otherwise its name is added and the walk goes on to its parent;
/// it ends when that parent is the record itself (the root), and is cut short
/// when that parent was reached before (a cycle).
pub open spec fn walk_step(w: WalkState, fetched: Option<FileRecordEntry>) -> WalkState {
    match fetched {
        None => cut_short(w),
        Some(rec) => if rec.record_number != w.next {
            cut_short(w)
        } else {
            match ancestor_name_index(rec.names@, w.ns) {
                None => cut_short(w),
                Some(i) => {
                    let n = rec.names@[i];
                    let grown = WalkState {
                        segs: w.segs.push(n.name@),
                        seen: w.seen.push(rec.record_number),
                        next: n.parent,
                        ..w
                    };
                    if n.parent == rec.record_number {
                        WalkState { finished: true, ..grown }
                    } else if w.seen.contains(n.parent) {
                        cut_short(grown)
                    } else {
                        grown
                    }
                },
            }
        },
    }
}

/// When the ancestor just fetched names as its parent a record the walk
/// reached before, the walk stops there, its path ending in the placeholder.
pub proof fn law_cycle_ends_walk(w: WalkState, rec: FileRecordEntry)
    requires
        rec.record_number == w.next,
        ancestor_name_index(rec.names@, w.ns) matches Some(i) && rec.names@[i].parent
            != rec.record_number && w.seen.contains(rec.names@[i].parent),
    ensures
        walk_step(w, Some(rec)).finished,
        walk_step(w, Some(rec)).segs.last() == PLACEHOLDER@,
{
}

/// Every step that does not end the walk reaches a record number the walk
/// had not reached; every step that ends it short ends the path in the
/// placeholder.
pub proof fn law_walk_progress(w: WalkState, fetched: Option<FileRecordEntry>)
    requires
        !w.finished,
        !w.seen.contains(w.next),
    ensures
        !walk_step(w, fetched).finished ==> walk_step(w, fetched).seen == w.seen.push(w.next)
            && !walk_step(w, fetched).seen.drop_last().contains(w.next),
        walk_step(w, fetched).finished ==> walk_step(w, fetched).segs.last() == PLACEHOLDER@
            || walk_step(w, fetched).next == walk_step(w, fetched).seen.last(),
{
    assert(w.seen.push(w.next).drop_last() =~= w.seen);
}

/// `segs` joined with the separator, in the order given.
pub open spec fn joined(segs: Seq<Seq<char>>) -> Seq<char>
    decreases segs.len(),
{
    if segs.len() == 0 {
        Seq::empty()
    } else if segs.len() == 1 {
        segs[0]
    } else {
        joined(segs.drop_last()) + SEPARATOR@ + segs.last()
    }
}

/// `segs` in reverse order.
pub open spec fn reversed(segs: Seq<Seq<char>>) -> Seq<Seq<char>> {
    Seq::new(segs.len(), |k: int| segs[segs.len() - 1 - k])
}

/// The rebuilding of the full path of a hard link, one ancestor at a time:
/// the caller fetches the record that `pending` names and hands it to
/// `advance`, until `pending` gives nothing.
pub struct LinkWalk {
    ns: Namespace,
    segments: Vec<String>,
    next: u64,
    visited: Vec<u64>,
    finished: bool,
}

impl LinkWalk {
    pub closed spec fn view(&self) -> WalkState {
        WalkState {
            ns: self.ns,
            segs: self.segments@.map_values(|s: String| s@),
            next: self.next,
            seen: self.visited@,
            finished: self.finished,
        }
    }

    /// A walk still going has not reached its next ancestor before.
    pub open spec fn wf(&self) -> bool {
        !self.view().finished ==> !self.view().seen.contains(self.view().next)
    }

    /// The walk for link `link` of the record numbered `own`.
    pub fn start(own: u64, link: &FileNameAttr) -> (r: LinkWalk)
        ensures
            r.wf(),
            r.view() == (WalkState {
                ns: link.namespace,
                segs: seq![link.name@],
                next: link.parent,
                seen: seq![own],
                finished: link.parent == own,
            }),
    {
        let r = LinkWalk {
            ns: link.namespace,
            segments: vec![link.name.clone()],
            next: link.parent,
            visited: vec![own],
            finished: link.parent == own,
        };
        assert(r.view().segs =~= seq![link.name@]);
        assert(r.view().seen =~= seq![own]);
        r
    }

    /// The record number of the ancestor to fetch next, or nothing once the
    /// walk is over.
    pub fn pending(&self) -> (r: Option<u64>)
        ensures
            r == (if self.view().finished {
                None
            } else {
                Some(self.view().next)
            }),
    {
        if self.finished {
            None
        } else {
            Some(self.next)
        }
    }

    fn cut(&mut self)
        ensures
            final(self).view() == cut_short(old(self).view()),
    {
        self.segments.push(String::from_str(PLACEHOLDER));
        self.finished = true;
        assert(final(self).view().segs =~= cut_short(old(self).view()).segs);
    }

    /// Takes in what fetching the pending ancestor gave. Either the walk ends
    /// here, or it has reached one record number more, never reached before:
    /// on a volume of finitely many records every walk ends.
    pub fn advance(&mut self, fetched: Option<FileRecordEntry>)
        requires
            old(self).wf(),
            !old(self).view().finished,
        ensures
            final(self).wf(),
            final(self).view() == walk_step(old(self).view(), fetched),
            final(self).view().finished || (final(self).view().seen == old(
                self,
            ).view().seen.push(old(self).view().next) && !old(self).view().seen.contains(
                old(self).view().next,
            )),
    {
        match fetched {
            None => self.cut(),
            Some(rec) => {
                if rec.record_number != self.next {
                    self.cut();
                } else {
                    let found = match find_name(&rec.names, Some(self.ns), None) {
                        Some(i) => Some(i),
                        None => find_name(&rec.names, None, None),
                    };
                    match found {
                        None => self.cut(),
                        Some(i) => {
                            let n = &rec.names[i];
                            let ghost before = self.view();
                            let reached_before = contains(&self.visited, n.parent);
                            self.segments.push(n.name.clone());
                            self.visited.push(rec.record_number);
                            self.next = n.parent;
                            assert(self.view().segs =~= before.segs.push(n.name@));
                            if n.parent == rec.record_number {
                                self.finished = true;
                            } else if reached_before {
                                self.cut();
                            } else {
                                assert(!self.view().seen.contains(self.view().next)) by {
                                    assert(self.view().seen =~= before.seen.push(rec.record_number));
                                    if self.view().seen.contains(self.view().next) {
                                        let k = choose|k: int| 0 <= k < self.view().seen.len() && self.view().seen[k] == self.view().next;
                                        if k < before.seen.len() {
                                            assert(before.seen[k] == n.parent);
                                        }
                                    }
                                }
                            }
                        },
                    }
                }
            },
        }
    }

    /// The path of the link, root first, joined with the separator.
    pub fn path(&self) -> (r: String)
        ensures
            r@ == joined(reversed(self.view().segs)),
    {
        let ghost rs = reversed(self.view().segs);
        let n = self.segments.len();
        let mut out = String::new();
        let mut k: usize = 0;
        while k < n
            invariant
                0 <= k <= n,
                n == self.segments.len(),
                rs == reversed(self.view().segs),
                out@ == joined(rs.subrange(0, k as int)),
            decreases n - k,
        {
            let seg = &self.segments[n - 1 - k];
            assert(rs.subrange(0, k + 1).drop_last() =~= rs.subrange(0, k as int));
            assert(rs.subrange(0, k + 1).last() == seg@);
            if k == 0 {
                out.append(seg.as_str());
                assert(out@ =~= seg@);
            } else {
                out.append(SEPARATOR);
                out.append(seg.as_str());
            }
            k = k + 1;
        }
        assert(rs.subrange(0, n as int) =~= rs);
        out
    }
}

/// Whether `v` holds `x`.
pub fn contains(v: &Vec<u64>, x: u64) -> (r: bool)
    ensures
        r == v@.contains(x),
{
    let mut i: usize = 0;
    while i < v.len()
        invariant
            0 <= i <= v.len(),
            forall|j: int| 0 <= j < i ==> v@[j] != x,
        decreases v.len() - i,
    {
        if v[i] == x {
            return true;
        }
        i = i + 1;
    }
    false
}

} // verus!
