use vstd::prelude::*;
use vstd::slice::slice_subrange;
use vstd::string::StringExecFns;

use crate::error::TruncError;
use crate::text::{spec_dec, u64_to_string};

verus! {

/// One section-header record of a PE image: the declared name and the
/// half-open byte range `[start, end)` that the section occupies in the file.
pub struct Section {
    pub name: String,
    pub start: u32,
    pub end: u32,
}

/// Mathematical model of a [`Section`].
pub struct SectionModel {
    pub name: Seq<char>,
    pub start: int,
    pub end: int,
}

impl View for Section {
    type V = SectionModel;

    open spec fn view(&self) -> SectionModel {
        SectionModel { name: self.name@, start: self.start as int, end: self.end as int }
    }
}

/// The models of a sequence of section records.
pub open spec fn section_models(ss: Seq<Section>) -> Seq<SectionModel> {
    ss.map_values(|s: Section| s@)
}

/// The largest end offset declared by any section, or 0 when there are no
/// sections.
pub open spec fn spec_max_end(ss: Seq<SectionModel>) -> int
    decreases ss.len(),
{
    if ss.len() == 0 {
        0
    } else {
        let rest = spec_max_end(ss.drop_last());
        if ss.last().end > rest {
            ss.last().end
        } else {
            rest
        }
    }
}

/// What the truncator returns for a given image and section table: the
/// trailing-junk prefix `[0, max_end + 1)` when the real size exceeds the
/// declared end, and a distinct error otherwise.
pub open spec fn spec_truncate(image: Seq<u8>, ss: Seq<SectionModel>) -> Result<
    Seq<u8>,
    TruncError,
> {
    if ss.len() == 0 {
        Err(TruncError::EmptySectionTable)
    } else {
        let max_end = spec_max_end(ss);
        if image.len() > max_end {
            Ok(image.subrange(0, max_end + 1))
        } else if image.len() == max_end {
            Err(TruncError::NoJunkFound)
        } else {
            Err(TruncError::InconsistentSectionTable)
        }
    }
}

/// Computes the largest end offset declared by any of the given sections
/// (0 when the table is empty).
pub fn max_section_end(sections: &Vec<Section>) -> (r: u32)
    ensures
        r as int == spec_max_end(section_models(sections@)),
{
    let ghost models = section_models(sections@);
    let mut max_end: u32 = 0;
    let mut i: usize = 0;
    while i < sections.len()
        invariant
            i <= sections.len(),
            models == section_models(sections@),
            models.len() == sections@.len(),
            forall|j: int| 0 <= j < models.len() ==> models[j] == sections@[j]@,
            max_end as int == spec_max_end(models.take(i as int)),
        decreases sections.len() - i,
    {
        let sec_end: u32 = sections[i].end;
        if sec_end > max_end {
            max_end = sec_end;
        }
        proof {
            assert(models.take(i + 1).drop_last() =~= models.take(i as int));
            assert(models.take(i + 1).last() == models[i as int]);
        }
        i += 1;
    }
    proof {
        assert(models.take(sections@.len() as int) =~= models);
    }
    max_end
}

/// Trailing-data truncation over an already-parsed section table.
///
/// Returns the prefix of `image` up to and including the largest declared
/// section end offset when the image is longer than that offset; otherwise
/// reports why nothing was stripped.
pub fn truncate_sections<'a>(image: &'a [u8], sections: &Vec<Section>) -> (r: Result<
    &'a [u8],
    TruncError,
>)
    ensures
        (match r {
            Ok(out) => spec_truncate(image@, section_models(sections@)) == Ok::<
                Seq<u8>,
                TruncError,
            >(out@),
            Err(e) => spec_truncate(image@, section_models(sections@)) == Err::<
                Seq<u8>,
                TruncError,
            >(e),
        }),
{
    if sections.len() == 0 {
        return Err(TruncError::EmptySectionTable);
    }
    let max_end = max_section_end(sections);
    proof {
        lemma_max_end_nonneg(section_models(sections@));
    }
    let file_size_real: usize = image.len();
    if file_size_real > max_end as usize {
        let cutoff: usize = max_end as usize + 1;
        let out = slice_subrange(image, 0, cutoff);
        Ok(out)
    } else if file_size_real == max_end as usize {
        Err(TruncError::NoJunkFound)
    } else {
        Err(TruncError::InconsistentSectionTable)
    }
}

/// The diagnostic line reported for one section record.
pub open spec fn spec_section_line(m: SectionModel) -> Seq<char> {
    m.name + " ends at "@ + spec_dec(m.end as nat)
}

/// One diagnostic line per section record, in declared order, each naming
/// the section and its declared end offset.
pub fn section_report(sections: &Vec<Section>) -> (r: Vec<String>)
    ensures
        r@.len() == sections@.len(),
        forall|i: int| 0 <= i < sections@.len() ==> r@[i]@ == spec_section_line(
            #[trigger] sections@[i]@,
        ),
{
    let mut out: Vec<String> = Vec::new();
    let mut i: usize = 0;
    while i < sections.len()
        invariant
            i <= sections@.len(),
            out@.len() == i,
            forall|j: int| 0 <= j < i ==> out@[j]@ == spec_section_line(#[trigger] sections@[j]@),
        decreases sections@.len() - i,
    {
        let mut line = sections[i].name.clone();
        line.append(" ends at ");
        let rendered_end = u64_to_string(sections[i].end as u64);
        line.append(rendered_end.as_str());
        out.push(line);
        i += 1;
    }
    out
}

/// The first section record whose name matches, in declared order.
pub open spec fn spec_find_named(ss: Seq<SectionModel>, name: Seq<char>) -> Option<SectionModel>
    decreases ss.len(),
{
    if ss.len() == 0 {
        None
    } else if ss[0].name == name {
        Some(ss[0])
    } else {
        spec_find_named(ss.drop_first(), name)
    }
}

/// While no record of the prefix matches, the search outcome is decided by
/// the remainder alone.
proof fn lemma_find_named_skip(ss: Seq<SectionModel>, name: Seq<char>, i: int)
    requires
        0 <= i <= ss.len(),
        forall|j: int| 0 <= j < i ==> ss[j].name != name,
    ensures
        spec_find_named(ss, name) == spec_find_named(ss.skip(i), name),
    decreases i,
{
    if i > 0 {
        lemma_find_named_skip(ss, name, i - 1);
        assert(ss.skip(i - 1).drop_first() =~= ss.skip(i));
        assert(ss.skip(i - 1)[0] == ss[i - 1]);
        assert(ss[i - 1].name != name);
        assert(ss.skip(i - 1).len() > 0);
        assert(spec_find_named(ss.skip(i - 1), name) == spec_find_named(
            ss.skip(i - 1).drop_first(),
            name,
        ));
    } else {
        assert(ss.skip(0) =~= ss);
    }
}

/// Looks up the file range declared by the section named `.rsrc`, the section
/// that customarily holds the resource-directory tree.
pub fn find_rsrc_section(sections: &Vec<Section>) -> (r: Option<(u32, u32)>)
    ensures
        (match spec_find_named(section_models(sections@), ".rsrc"@) {
            Some(m) => r matches Some(p) && p.0 as int == m.start && p.1 as int == m.end,
            None => r is None,
        }),
{
    let ghost models = section_models(sections@);
    let target: String = ".rsrc".to_owned();
    let mut i: usize = 0;
    while i < sections.len()
        invariant
            models == section_models(sections@),
            models.len() == sections@.len(),
            forall|j: int| 0 <= j < models.len() ==> models[j] == sections@[j]@,
            i <= sections@.len(),
            target@ == ".rsrc"@,
            forall|j: int| 0 <= j < i ==> models[j].name != ".rsrc"@,
        decreases sections@.len() - i,
    {
        if sections[i].name == target {
            proof {
                lemma_find_named_skip(models, ".rsrc"@, i as int);
                assert(models.skip(i as int)[0] == models[i as int]);
            }
            return Some((sections[i].start, sections[i].end));
        }
        i += 1;
    }
    proof {
        lemma_find_named_skip(models, ".rsrc"@, models.len() as int);
        assert(models.skip(models.len() as int) =~= Seq::<SectionModel>::empty());
    }
    None
}

/// Every section's end offset is bounded by the computed maximum.
pub proof fn lemma_max_end_ge(ss: Seq<SectionModel>, i: int)
    requires
        0 <= i < ss.len(),
    ensures
        ss[i].end <= spec_max_end(ss),
    decreases ss.len(),
{
    if i < ss.len() - 1 {
        lemma_max_end_ge(ss.drop_last(), i);
    }
}

/// The computed maximum end offset is never negative.
pub proof fn lemma_max_end_nonneg(ss: Seq<SectionModel>)
    ensures
        spec_max_end(ss) >= 0,
    decreases ss.len(),
{
    if ss.len() > 0 {
        lemma_max_end_nonneg(ss.drop_last());
    }
}

/// The computed maximum is either the default 0 or the end offset of some
/// section.
pub proof fn lemma_max_end_attained(ss: Seq<SectionModel>)
    ensures
        spec_max_end(ss) == 0 || exists|i: int|
            0 <= i < ss.len() && ss[i].end == spec_max_end(ss),
    decreases ss.len(),
{
    if ss.len() > 0 {
        let rest = spec_max_end(ss.drop_last());
        if ss.last().end > rest {
            assert(ss[ss.len() - 1].end == spec_max_end(ss));
        } else {
            lemma_max_end_attained(ss.drop_last());
            if rest != 0 {
                let i = choose|i: int|
                    0 <= i < ss.drop_last().len() && ss.drop_last()[i].end == rest;
                assert(ss[i].end == spec_max_end(ss));
            }
        }
    }
}

/// Permuting the section records does not change the computed maximum end
/// offset: the maximum depends only on the multiset of records.
pub proof fn lemma_max_end_order_independent(s1: Seq<SectionModel>, s2: Seq<SectionModel>)
    requires
        s1.to_multiset() == s2.to_multiset(),
    ensures
        spec_max_end(s1) == spec_max_end(s2),
{
    lemma_max_end_le_of_multiset(s1, s2);
    lemma_max_end_le_of_multiset(s2, s1);
}

/// Half of the order-independence argument: whatever maximum one ordering
/// attains, any reordering attains at least as much.
proof fn lemma_max_end_le_of_multiset(s1: Seq<SectionModel>, s2: Seq<SectionModel>)
    requires
        s1.to_multiset() == s2.to_multiset(),
    ensures
        spec_max_end(s1) <= spec_max_end(s2),
{
    broadcast use vstd::seq_lib::group_to_multiset_ensures;

    lemma_max_end_nonneg(s2);
    lemma_max_end_attained(s1);
    if spec_max_end(s1) != 0 {
        let i = choose|i: int| 0 <= i < s1.len() && s1[i].end == spec_max_end(s1);
        assert(s1.contains(s1[i]));
        assert(s1.to_multiset().count(s1[i]) > 0);
        assert(s2.to_multiset().count(s1[i]) > 0);
        assert(s2.contains(s1[i]));
        let j = choose|j: int| 0 <= j < s2.len() && s2[j] == s1[i];
        lemma_max_end_ge(s2, j);
    }
}

/// Permuting the section records does not change the truncation outcome:
/// the same slice is returned, or the same error.
pub proof fn lemma_truncate_order_independent(
    image: Seq<u8>,
    s1: Seq<SectionModel>,
    s2: Seq<SectionModel>,
)
    requires
        s1.to_multiset() == s2.to_multiset(),
    ensures
        spec_truncate(image, s1) == spec_truncate(image, s2),
{
    broadcast use vstd::seq_lib::group_to_multiset_ensures;

    assert(s1.len() == s1.to_multiset().len());
    assert(s2.len() == s2.to_multiset().len());
    lemma_max_end_order_independent(s1, s2);
}

/// An image whose real size equals its declared end is reported as having no
/// junk to strip, never silently copied.
pub proof fn lemma_noop_is_reported(image: Seq<u8>, ss: Seq<SectionModel>)
    requires
        ss.len() > 0,
        image.len() == spec_max_end(ss),
    ensures
        spec_truncate(image, ss) == Err::<Seq<u8>, TruncError>(TruncError::NoJunkFound),
{
}

/// Successful truncation never widens the buffer: the output is exactly
/// `max_end + 1` bytes long, which is at most the input length.
pub proof fn lemma_truncate_shrinks(image: Seq<u8>, ss: Seq<SectionModel>)
    ensures
        spec_truncate(image, ss) matches Ok(out) ==> {
            &&& out.len() <= image.len()
            &&& out.len() == spec_max_end(ss) + 1
        },
{
    lemma_max_end_nonneg(ss);
}

} // verus!
