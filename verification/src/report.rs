//! The summary of a scan: how many files were found and how many bytes they
//! hold, in all and for each category.

use vstd::prelude::*;
use crate::category::CacheCategory;
use crate::descriptor::{descriptors, CacheFile, Descriptor};

verus! {

/// The sum of the sizes of `files`.
pub open spec fn total_size(files: Seq<Descriptor>) -> nat
    decreases files.len(),
{
    if files.len() == 0 {
        0
    } else {
        total_size(files.drop_last()) + files.last().size as nat
    }
}

/// The number of `files` that belong to `category`.
pub open spec fn count_in(files: Seq<Descriptor>, category: CacheCategory) -> nat
    decreases files.len(),
{
    if files.len() == 0 {
        0
    } else if files.last().category == category {
        count_in(files.drop_last(), category) + 1
    } else {
        count_in(files.drop_last(), category)
    }
}

/// The sum of the sizes of those of `files` that belong to `category`.
pub open spec fn size_in(files: Seq<Descriptor>, category: CacheCategory) -> nat
    decreases files.len(),
{
    if files.len() == 0 {
        0
    } else if files.last().category == category {
        size_in(files.drop_last(), category) + files.last().size as nat
    } else {
        size_in(files.drop_last(), category)
    }
}

/// The count and the size of the files of one category.
#[derive(Debug, Clone, Copy, PartialEq, Eq, Structural)]
pub struct CategoryTotal {
    pub category: CacheCategory,
    /// How many files belong to the category.
    pub count: usize,
    /// The sum of their sizes in bytes.
    pub size: u128,
}

/// The summary of a scan.
#[derive(Debug)]
pub struct Summary {
    /// How many files were found.
    pub count: usize,
    /// The sum of their sizes in bytes.
    pub size: u128,
    /// The totals of the categories to which at least one file belongs,
    /// in the order in which `CacheCategory` lists them.
    pub categories: Vec<CategoryTotal>,
}

/// The categories in the order in which a summary lists them.
pub open spec fn all_categories() -> Seq<CacheCategory> {
    seq![
        CacheCategory::Browser,
        CacheCategory::System,
        CacheCategory::Application,
        CacheCategory::Log,
        CacheCategory::Temporary,
        CacheCategory::Backup,
        CacheCategory::Other,
    ]
}

/// The count and the size of those of `files` that belong to `category`.
pub open spec fn total_of(files: Seq<Descriptor>, category: CacheCategory) -> CategoryTotal {
    CategoryTotal {
        category,
        count: count_in(files, category) as usize,
        size: size_in(files, category) as u128,
    }
}

/// The totals of those of `categories`, in their order, to which at least
/// one of `files` belongs.
pub open spec fn totals_of(files: Seq<Descriptor>, categories: Seq<CacheCategory>) -> Seq<
    CategoryTotal,
>
    decreases categories.len(),
{
    if categories.len() == 0 {
        Seq::empty()
    } else {
        let before = totals_of(files, categories.drop_last());
        if count_in(files, categories.last()) > 0 {
            before.push(total_of(files, categories.last()))
        } else {
            before
        }
    }
}

/// Whether `summary` is the summary of `files`.
pub open spec fn summarizes(summary: Summary, files: Seq<Descriptor>) -> bool {
    &&& summary.count == files.len()
    &&& summary.size == total_size(files)
    &&& summary.categories@ == totals_of(files, all_categories())
}

/// The sum of the counts of `totals`.
pub open spec fn sum_of_counts(totals: Seq<CategoryTotal>) -> nat
    decreases totals.len(),
{
    if totals.len() == 0 {
        0
    } else {
        sum_of_counts(totals.drop_last()) + totals.last().count as nat
    }
}

/// The sum of the sizes of `totals`.
pub open spec fn sum_of_sizes(totals: Seq<CategoryTotal>) -> nat
    decreases totals.len(),
{
    if totals.len() == 0 {
        0
    } else {
        sum_of_sizes(totals.drop_last()) + totals.last().size as nat
    }
}

/// The largest sum that the sizes of `count` files can have.
pub open spec fn size_limit(count: nat) -> nat {
    count * 0xffff_ffff_ffff_ffff
}

/// Counts and sizes are bounded by the number of files, so that the sizes
/// of as many files as a collection can hold sum up within 128 bits.
pub proof fn lemma_totals_are_bounded(files: Seq<Descriptor>, category: CacheCategory)
    ensures
        count_in(files, category) <= files.len(),
        size_in(files, category) <= total_size(files) <= size_limit(files.len()),
        files.len() <= usize::MAX ==> size_limit(files.len()) <= u128::MAX,
    decreases files.len(),
{
    if files.len() > 0 {
        lemma_totals_are_bounded(files.drop_last(), category);
        assert(size_limit(files.len()) == size_limit(files.drop_last().len())
            + 0xffff_ffff_ffff_ffff) by (nonlinear_arith)
            requires
                files.len() == files.drop_last().len() + 1,
        ;
    }
    if files.len() <= usize::MAX {
        assert(files.len() * 0xffff_ffff_ffff_ffff <= u128::MAX) by (nonlinear_arith)
            requires
                files.len() <= 0xffff_ffff_ffff_ffff,
        ;
    }
}

/// Counts the files of one category and sums up their sizes.
fn tally_category(files: &Vec<CacheFile>, category: CacheCategory) -> (total: CategoryTotal)
    ensures
        total == total_of(descriptors(files@), category),
        total.count == count_in(descriptors(files@), category),
        total.size == size_in(descriptors(files@), category),
{
    let ghost all = descriptors(files@);
    let mut count: usize = 0;
    let mut size: u128 = 0;
    let mut i: usize = 0;
    while i < files.len()
        invariant
            i <= files@.len(),
            all == descriptors(files@),
            count == count_in(all.take(i as int), category),
            size == size_in(all.take(i as int), category),
        decreases files@.len() - i,
    {
        proof {
            assert(all.take(i + 1).drop_last() =~= all.take(i as int));
            lemma_totals_are_bounded(all.take(i + 1), category);
        }
        if files[i].category() == category {
            count += 1;
            size += files[i].size() as u128;
        }
        i += 1;
    }
    assert(all.take(i as int) =~= all);
    CategoryTotal { category, count, size }
}

/// Sums up the sizes of all files.
fn sum_sizes(files: &Vec<CacheFile>) -> (size: u128)
    ensures
        size == total_size(descriptors(files@)),
{
    let ghost all = descriptors(files@);
    let mut size: u128 = 0;
    let mut i: usize = 0;
    while i < files.len()
        invariant
            i <= files@.len(),
            all == descriptors(files@),
            size == total_size(all.take(i as int)),
        decreases files@.len() - i,
    {
        proof {
            assert(all.take(i + 1).drop_last() =~= all.take(i as int));
            lemma_totals_are_bounded(all.take(i + 1), CacheCategory::Other);
        }
        size += files[i].size() as u128;
        i += 1;
    }
    assert(all.take(i as int) =~= all);
    size
}

/// Builds the summary of `files`: the number of files and the sum of their
/// sizes, and the same for each category to which a file belongs.
pub fn summarize(files: &Vec<CacheFile>) -> (summary: Summary)
    ensures
        summarizes(summary, descriptors(files@)),
{
    let order: [CacheCategory; 7] = [
        CacheCategory::Browser,
        CacheCategory::System,
        CacheCategory::Application,
        CacheCategory::Log,
        CacheCategory::Temporary,
        CacheCategory::Backup,
        CacheCategory::Other,
    ];
    assert(order@ =~= all_categories());
    let ghost all = descriptors(files@);
    let mut categories: Vec<CategoryTotal> = Vec::new();
    let mut i: usize = 0;
    while i < 7
        invariant
            i <= 7,
            order@ == all_categories(),
            all == descriptors(files@),
            categories@ == totals_of(all, all_categories().take(i as int)),
        decreases 7 - i,
    {
        assert(all_categories().take(i + 1).drop_last() =~= all_categories().take(i as int));
        let total = tally_category(files, order[i]);
        if total.count > 0 {
            categories.push(total);
        }
        i += 1;
    }
    assert(all_categories().take(7) =~= all_categories());
    Summary { count: files.len(), size: sum_sizes(files), categories }
}

/// Every file belongs to exactly one category: the counts of the seven
/// categories add up to the number of files, and their sizes to the sum of
/// all sizes.
pub proof fn lemma_categories_partition(files: Seq<Descriptor>)
    ensures
        count_in(files, CacheCategory::Browser) + count_in(files, CacheCategory::System)
            + count_in(files, CacheCategory::Application) + count_in(files, CacheCategory::Log)
            + count_in(files, CacheCategory::Temporary) + count_in(files, CacheCategory::Backup)
            + count_in(files, CacheCategory::Other) == files.len(),
        size_in(files, CacheCategory::Browser) + size_in(files, CacheCategory::System) + size_in(
            files,
            CacheCategory::Application,
        ) + size_in(files, CacheCategory::Log) + size_in(files, CacheCategory::Temporary)
            + size_in(files, CacheCategory::Backup) + size_in(files, CacheCategory::Other)
            == total_size(files),
    decreases files.len(),
{
    if files.len() > 0 {
        lemma_categories_partition(files.drop_last());
    }
}

/// What the totals of `categories` add up to: the counts and sizes of
/// those categories, whether a file belongs to them or not.
proof fn lemma_sums_of_totals(files: Seq<Descriptor>, categories: Seq<CacheCategory>)
    requires
        files.len() <= usize::MAX,
    ensures
        categories.len() == 0 ==> sum_of_counts(totals_of(files, categories)) == 0 && sum_of_sizes(
            totals_of(files, categories),
        ) == 0,
        categories.len() > 0 ==> sum_of_counts(totals_of(files, categories)) == sum_of_counts(
            totals_of(files, categories.drop_last()),
        ) + count_in(files, categories.last()),
        categories.len() > 0 ==> sum_of_sizes(totals_of(files, categories)) == sum_of_sizes(
            totals_of(files, categories.drop_last()),
        ) + size_in(files, categories.last()),
{
    if categories.len() > 0 {
        let category = categories.last();
        let before = totals_of(files, categories.drop_last());
        lemma_totals_are_bounded(files, category);
        if count_in(files, category) > 0 {
            assert(before.push(total_of(files, category)).drop_last() =~= before);
        } else {
            lemma_empty_category_has_no_size(files, category);
        }
    }
}

/// A category to which no file belongs holds no bytes.
proof fn lemma_empty_category_has_no_size(files: Seq<Descriptor>, category: CacheCategory)
    requires
        count_in(files, category) == 0,
    ensures
        size_in(files, category) == 0,
    decreases files.len(),
{
    if files.len() > 0 {
        lemma_empty_category_has_no_size(files.drop_last(), category);
    }
}

/// The parts of a summary add up to the whole: the counts of the
/// categories it lists add up to the number of files, and their sizes to
/// the sum of all sizes.
pub proof fn lemma_summary_adds_up(summary: Summary, files: Seq<Descriptor>)
    requires
        summarizes(summary, files),
    ensures
        sum_of_counts(summary.categories@) == summary.count,
        sum_of_sizes(summary.categories@) == summary.size,
        summary.size == total_size(files),
{
    let order = all_categories();
    lemma_categories_partition(files);
    lemma_sums_of_totals(files, order.take(0));
    lemma_sums_of_totals(files, order.take(1));
    lemma_sums_of_totals(files, order.take(2));
    lemma_sums_of_totals(files, order.take(3));
    lemma_sums_of_totals(files, order.take(4));
    lemma_sums_of_totals(files, order.take(5));
    lemma_sums_of_totals(files, order.take(6));
    lemma_sums_of_totals(files, order.take(7));
    assert(order.take(1).drop_last() =~= order.take(0));
    assert(order.take(2).drop_last() =~= order.take(1));
    assert(order.take(3).drop_last() =~= order.take(2));
    assert(order.take(4).drop_last() =~= order.take(3));
    assert(order.take(5).drop_last() =~= order.take(4));
    assert(order.take(6).drop_last() =~= order.take(5));
    assert(order.take(7).drop_last() =~= order.take(6));
    assert(order.take(7) =~= order);
}

} // verus!
