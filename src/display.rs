use vstd::prelude::*;
use crate::listing::ListedFile;

verus! {

/// One `name: value` line of a property section.
pub struct PropertyEntry {
    pub name: String,
    pub value: String,
}

/// A headed group of property lines shown for a listed file.
pub struct PropertySection {
    pub headline: String,
    pub values: Vec<PropertyEntry>,
}

/// One row of a directory listing; `stable_id` is the row's position and is
/// what later detail batches are matched against.
pub struct ListingItem {
    pub stable_id: usize,
    pub display_name: String,
    pub attribute_summary: String,
    pub size_summary: String,
    pub is_directory: bool,
}

/// Human-readable text of a byte count, as bytesize renders it.
pub uninterp spec fn size_text(bytes: u64) -> Seq<char>;

/// Text of a set of file attribute flags, as ntfs's flag type prints it.
pub uninterp spec fn flags_text(bits: u32) -> Seq<char>;

/// Relies on bytesize's `Display for ByteSize`: the text depends on the byte
/// count alone.
#[verifier::external_body]
fn format_size(bytes: u64) -> (r: String)
    ensures
        r@ == size_text(bytes),
{
    bytesize::ByteSize(bytes).to_string()
}

/// Relies on ntfs's `NtfsFileAttributeFlags::from_bits_truncate` and the
/// `Debug` impl that bitflags generates for it: the text depends on the flag
/// bits alone.
#[verifier::external_body]
fn format_flags(bits: u32) -> (r: String)
    ensures
        r@ == flags_text(bits),
{
    format!("{:?}", ntfs::structured_values::NtfsFileAttributeFlags::from_bits_truncate(bits))
}

/// `s` is headed `headline` and holds exactly the lines `lines`, in order.
pub open spec fn section_is(
    s: PropertySection,
    headline: Seq<char>,
    lines: Seq<(Seq<char>, Seq<char>)>,
) -> bool {
    &&& s.headline@ == headline
    &&& s.values.len() == lines.len()
    &&& forall|k: int|
        0 <= k < lines.len() ==> (#[trigger] s.values@[k]).name@ == lines[k].0
            && s.values@[k].value@ == lines[k].1
}

/// The lines of a section: pairs of name and value texts.
pub type Lines = Seq<(Seq<char>, Seq<char>)>;

/// `r` are the sections `e`, each given by its headline and lines.
pub open spec fn sections_are(r: Seq<PropertySection>, e: Seq<(Seq<char>, Lines)>) -> bool {
    &&& r.len() == e.len()
    &&& forall|i: int| 0 <= i < r.len() ==> section_is(#[trigger] r[i], e[i].0, e[i].1)
}

/// A line per text, each named `label`.
pub open spec fn labelled(label: Seq<char>, texts: Seq<String>) -> Lines {
    Seq::new(texts.len(), |k: int| (label, texts[k]@))
}

/// A section headed `headline` with a line named `label` for each text.
pub fn labelled_section(headline: &str, label: &str, texts: &Vec<String>) -> (r: PropertySection)
    ensures
        section_is(r, headline@, labelled(label@, texts@)),
{
    let mut values: Vec<PropertyEntry> = Vec::new();
    let mut i: usize = 0;
    while i < texts.len()
        invariant
            0 <= i <= texts.len(),
            values.len() == i,
            forall|k: int|
                0 <= k < i ==> (#[trigger] values@[k]).name@ == label@ && values@[k].value@
                    == texts@[k]@,
        decreases texts.len() - i,
    {
        values.push(entry(label, texts[i].clone()));
        i = i + 1;
    }
    PropertySection { headline: String::from_str(headline), values }
}

/// `item` is row `i` of a listing, showing `f`.
pub open spec fn item_shows(item: ListingItem, i: int, f: ListedFile) -> bool {
    &&& item.stable_id == i
    &&& item.display_name@ == f.name.name@
    &&& item.attribute_summary@ == flags_text(f.record.attribute_flags)
    &&& item.size_summary@ == size_text(f.record.data_size)
    &&& item.is_directory == f.name.is_directory
}

/// The rows of a listing, one per listed file, numbered by position.
pub fn listing_items(listed: &Vec<ListedFile>) -> (r: Vec<ListingItem>)
    ensures
        r.len() == listed.len(),
        forall|i: int| 0 <= i < r.len() ==> item_shows(#[trigger] r@[i], i, listed@[i]),
{
    let mut out: Vec<ListingItem> = Vec::new();
    let mut i: usize = 0;
    while i < listed.len()
        invariant
            0 <= i <= listed.len(),
            out.len() == i,
            forall|j: int| 0 <= j < i ==> item_shows(#[trigger] out@[j], j, listed@[j]),
        decreases listed.len() - i,
    {
        let f = &listed[i];
        out.push(
            ListingItem {
                stable_id: i,
                display_name: f.name.name.clone(),
                attribute_summary: format_flags(f.record.attribute_flags),
                size_summary: format_size(f.record.data_size),
                is_directory: f.name.is_directory,
            },
        );
        i = i + 1;
    }
    out
}

/// A property line from two texts.
pub fn entry(name: &str, value: String) -> (r: PropertyEntry)
    ensures
        r.name@ == name@,
        r.value@ == value@,
{
    PropertyEntry { name: String::from_str(name), value }
}

/// The sections shown for a listed file before its details are known: its
/// name and the size of its data.
pub fn name_sections(f: &ListedFile) -> (r: Vec<PropertySection>)
    ensures
        r.len() == 1,
        section_is(
            r@[0],
            "General"@,
            seq![("Filename"@, f.name.name@), ("Size"@, size_text(f.record.data_size))],
        ),
{
    let values = vec![
        entry("Filename", f.name.name.clone()),
        entry("Size", format_size(f.record.data_size)),
    ];
    let s = PropertySection { headline: String::from_str("General"), values };
    assert(s.values@[0].name@ == "Filename"@);
    vec![s]
}

/// The first-wave sections of a listing, one sequence per listed file.
pub fn listing_sections(listed: &Vec<ListedFile>) -> (r: Vec<Vec<PropertySection>>)
    ensures
        r.len() == listed.len(),
        forall|i: int|
            0 <= i < r.len() ==> (#[trigger] r@[i]).len() == 1 && section_is(
                r@[i]@[0],
                "General"@,
                seq![("Filename"@, listed@[i].name.name@), ("Size"@, size_text(listed@[i].record.data_size))],
            ),
{
    let mut out: Vec<Vec<PropertySection>> = Vec::new();
    let mut i: usize = 0;
    while i < listed.len()
        invariant
            0 <= i <= listed.len(),
            out.len() == i,
            forall|j: int|
                0 <= j < i ==> (#[trigger] out@[j]).len() == 1 && section_is(
                    out@[j]@[0],
                    "General"@,
                    seq![("Filename"@, listed@[j].name.name@), ("Size"@, size_text(listed@[j].record.data_size))],
                ),
        decreases listed.len() - i,
    {
        out.push(name_sections(&listed[i]));
        i = i + 1;
    }
    out
}

} // verus!
