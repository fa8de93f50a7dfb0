use vstd::prelude::*;
use crate::names::FileNameAttr;
use crate::listing::ListedFile;
use crate::display::{
    Lines, PropertySection, entry, labelled, labelled_section, name_sections, section_is,
    sections_are, size_text,
};

verus! {

/// The four timestamps of a StandardInformation attribute, each a count of
/// 100-nanosecond intervals since 1601-01-01.
#[derive(PartialEq, Eq, Structural, Clone, Copy, Debug)]
pub struct StandardTimes {
    pub creation: u64,
    pub access: u64,
    pub modification: u64,
    pub mft_modification: u64,
}

/// A decoded attribute of a file record.
pub enum Attribute {
    StandardInformation(StandardTimes),
    FileName(FileNameAttr),
    /// An object identifier, as text.
    ObjectId(String),
    /// Any other attribute type, by its type code; it is skipped.
    Unsupported(u32),
}

/// The attributes of one record sorted by what they are used for.
pub struct Classified {
    pub times: Vec<StandardTimes>,
    /// Names that live in the directory being listed.
    pub local_names: Vec<FileNameAttr>,
    /// Names that live in other directories: hard links.
    pub hard_links: Vec<FileNameAttr>,
    pub object_ids: Vec<String>,
}

pub open spec fn times_of(s: Seq<Attribute>) -> Seq<StandardTimes>
    decreases s.len(),
{
    if s.len() == 0 {
        Seq::empty()
    } else {
        match s.last() {
            Attribute::StandardInformation(t) => times_of(s.drop_last()).push(t),
            _ => times_of(s.drop_last()),
        }
    }
}

/// The FileName attributes of `s` that live in `dir` (`local`) or elsewhere.
pub open spec fn names_of(s: Seq<Attribute>, dir: u64, local: bool) -> Seq<FileNameAttr>
    decreases s.len(),
{
    if s.len() == 0 {
        Seq::empty()
    } else {
        match s.last() {
            Attribute::FileName(n) => if (n.parent == dir) == local {
                names_of(s.drop_last(), dir, local).push(n)
            } else {
                names_of(s.drop_last(), dir, local)
            },
            _ => names_of(s.drop_last(), dir, local),
        }
    }
}

pub open spec fn object_ids_of(s: Seq<Attribute>) -> Seq<String>
    decreases s.len(),
{
    if s.len() == 0 {
        Seq::empty()
    } else {
        match s.last() {
            Attribute::ObjectId(o) => object_ids_of(s.drop_last()).push(o),
            _ => object_ids_of(s.drop_last()),
        }
    }
}

/// Sorts the attributes of a record listed in directory `dir`, keeping
/// their order; unsupported types are skipped.
pub fn classify_attributes(dir: u64, attrs: Vec<Attribute>) -> (r: Classified)
    ensures
        r.times@ == times_of(attrs@),
        r.local_names@ == names_of(attrs@, dir, true),
        r.hard_links@ == names_of(attrs@, dir, false),
        r.object_ids@ == object_ids_of(attrs@),
{
    let ghost all = attrs@;
    let mut rest = attrs;
    let mut r = Classified {
        times: Vec::new(),
        local_names: Vec::new(),
        hard_links: Vec::new(),
        object_ids: Vec::new(),
    };
    let ghost mut i: int = 0;
    while rest.len() > 0
        invariant
            0 <= i <= all.len(),
            rest@ == all.subrange(i, all.len() as int),
            r.times@ == times_of(all.subrange(0, i)),
            r.local_names@ == names_of(all.subrange(0, i), dir, true),
            r.hard_links@ == names_of(all.subrange(0, i), dir, false),
            r.object_ids@ == object_ids_of(all.subrange(0, i)),
        decreases rest.len(),
    {
        let a = rest.remove(0);
        proof {
            assert(a == all[i]);
            assert(all.subrange(0, i + 1).drop_last() =~= all.subrange(0, i));
            assert(all.subrange(0, i + 1).last() == a);
        }
        match a {
            Attribute::StandardInformation(t) => r.times.push(t),
            Attribute::FileName(n) => {
                if n.parent == dir {
                    r.local_names.push(n);
                } else {
                    r.hard_links.push(n);
                }
            },
            Attribute::ObjectId(o) => r.object_ids.push(o),
            Attribute::Unsupported(_) => {},
        }
        proof {
            i = i + 1;
            assert(rest@ =~= all.subrange(i, all.len() as int));
        }
    }
    assert(all.subrange(0, i) =~= all);
    r
}

/// Calendar text (UTC) of an NTFS timestamp, as chrono prints the date ntfs
/// converts it to.
pub uninterp spec fn time_text(ticks: u64) -> Seq<char>;

/// Relies on ntfs's `From<NtfsTime> for DateTime<Utc>` and chrono's
/// `Display for DateTime`: the text depends on the timestamp alone. Every
/// `u64` timestamp falls before the year 60057, inside chrono's range.
#[verifier::external_body]
fn format_time(ticks: u64) -> (r: String)
    ensures
        r@ == time_text(ticks),
{
    chrono::DateTime::<chrono::Utc>::from(ntfs::NtfsTime::from(ticks)).to_string()
}

/// The lines of the four timestamps of a StandardInformation attribute.
pub open spec fn time_lines(t: StandardTimes) -> Lines {
    seq![
        ("Creation"@, time_text(t.creation)),
        ("Last Access"@, time_text(t.access)),
        ("Modification"@, time_text(t.modification)),
        ("MFT Record Modification"@, time_text(t.mft_modification)),
    ]
}

/// The sections shown for a listed file once its attributes are known: its
/// name and size, a section of timestamps per StandardInformation attribute,
/// then, where there are any, the full paths of its hard links and its
/// object identifiers.
pub open spec fn detail_view(
    f: ListedFile,
    times: Seq<StandardTimes>,
    paths: Seq<String>,
    ids: Seq<String>,
) -> Seq<(Seq<char>, Lines)> {
    seq![("General"@, seq![("Filename"@, f.name.name@), ("Size"@, size_text(f.record.data_size))])]
        + Seq::new(times.len(), |k: int| ("Timestamps"@, time_lines(times[k]))) + (if paths.len()
        > 0 {
        seq![("Hard Links"@, labelled("Path"@, paths))]
    } else {
        Seq::empty()
    }) + (if ids.len() > 0 {
        seq![("Object IDs"@, labelled("Object ID"@, ids))]
    } else {
        Seq::empty()
    })
}

/// The timestamp section of one StandardInformation attribute.
pub fn time_section(t: StandardTimes) -> (r: PropertySection)
    ensures
        section_is(r, "Timestamps"@, time_lines(t)),
{
    let values = vec![
        entry("Creation", format_time(t.creation)),
        entry("Last Access", format_time(t.access)),
        entry("Modification", format_time(t.modification)),
        entry("MFT Record Modification", format_time(t.mft_modification)),
    ];
    PropertySection { headline: String::from_str("Timestamps"), values }
}

/// The second-wave sections of a listed file, from its sorted attributes and
/// the paths rebuilt for its hard links.
pub fn detail_sections(f: &ListedFile, c: &Classified, link_paths: &Vec<String>) -> (r: Vec<
    PropertySection,
>)
    ensures
        sections_are(r@, detail_view(*f, c.times@, link_paths@, c.object_ids@)),
{
    let ghost e = detail_view(*f, c.times@, link_paths@, c.object_ids@);
    let mut out = name_sections(f);
    let mut i: usize = 0;
    while i < c.times.len()
        invariant
            0 <= i <= c.times.len(),
            e == detail_view(*f, c.times@, link_paths@, c.object_ids@),
            sections_are(out@, e.subrange(0, 1 + i)),
        decreases c.times.len() - i,
    {
        out.push(time_section(c.times[i]));
        i = i + 1;
    }
    if link_paths.len() > 0 {
        out.push(labelled_section("Hard Links", "Path", link_paths));
    }
    if c.object_ids.len() > 0 {
        out.push(labelled_section("Object IDs", "Object ID", &c.object_ids));
    }
    assert(e.subrange(0, out.len() as int) =~= e);
    out
}

} // verus!
