//! What holds of every folder listing.
//!
//! A listing holds exactly the files that the entries list, each once, in
//! the order of their names. Listing a listing again changes nothing, and
//! the names come out in the same order in whatever order the folder was
//! walked.

use crate::folder::{
    collected, entry_outcome, in_name_order, insertion_point, is_in_name_order, worth_resolving,
    EntryOutcome, FolderEntryView, ListedFile,
};
use crate::order::{
    lemma_name_before_chains, lemma_name_before_irreflexive, lemma_name_before_total, name_before,
};
use crate::paths::path_file_name;
use crate::target::{is_markdown, ResolvedPathView};
use vstd::multiset::Multiset;
use vstd::prelude::*;
use vstd::relations::{sorted_by, total_ordering};
use vstd::seq_lib::{
    commutative_foldl, lemma_fold_left_permutation, lemma_sorted_unique, to_multiset_build,
    to_multiset_insert,
};

verus! {

/// The names of the files of a listing, in the order of the listing.
pub open spec fn names_of(listing: Seq<ListedFile>) -> Seq<Seq<char>> {
    Seq::new(listing.len(), |i: int| listing[i].file_name)
}

/// Whether the name `left` comes no later than the name `right`.
pub open spec fn comes_no_later() -> spec_fn(Seq<char>, Seq<char>) -> bool {
    |left: Seq<char>, right: Seq<char>| !name_before(right, left)
}

/// A file that is listed is a regular file with an extension of the
/// allow-list, under the name that its canonical path ends in.
pub open spec fn is_listable(file: ListedFile) -> bool {
    is_markdown(file.file_path) && path_file_name(file.file_path) == Some(file.file_name)
}

/// The insertion point lies inside the listing or at its end; no file in
/// front of it has a name that comes after the new one, and the file at it
/// has.
pub proof fn lemma_insertion_point(listing: Seq<ListedFile>, file: ListedFile)
    ensures
        0 <= insertion_point(listing, file) <= listing.len(),
        forall|k: int|
            0 <= k < insertion_point(listing, file) ==> !name_before(
                file.file_name,
                (#[trigger] listing[k]).file_name,
            ),
        insertion_point(listing, file) < listing.len() ==> name_before(
            file.file_name,
            listing[insertion_point(listing, file)].file_name,
        ),
    decreases listing.len(),
{
    if listing.len() > 0 && !name_before(file.file_name, listing.first().file_name) {
        let rest = listing.drop_first();
        lemma_insertion_point(rest, file);
        let point = insertion_point(listing, file);
        assert forall|k: int| 0 <= k < point implies !name_before(
            file.file_name,
            (#[trigger] listing[k]).file_name,
        ) by {
            if k > 0 {
                assert(listing[k] == rest[k - 1]);
            }
        }
        if point < listing.len() {
            assert(listing[point] == rest[point - 1]);
        }
    }
}

/// A place in a listing is the insertion point of a file if no file in front
/// of it has a name that comes after the new one and the file at it has.
pub proof fn lemma_insertion_point_is_first(listing: Seq<ListedFile>, file: ListedFile, point: int)
    requires
        0 <= point <= listing.len(),
        forall|k: int|
            0 <= k < point ==> !name_before(file.file_name, (#[trigger] listing[k]).file_name),
        point < listing.len() ==> name_before(file.file_name, listing[point].file_name),
    ensures
        insertion_point(listing, file) == point,
    decreases listing.len(),
{
    if point > 0 {
        let rest = listing.drop_first();
        assert(!name_before(file.file_name, listing[0].file_name));
        assert forall|k: int| 0 <= k < point - 1 implies !name_before(
            file.file_name,
            (#[trigger] rest[k]).file_name,
        ) by {
            assert(rest[k] == listing[k + 1]);
        }
        if point < listing.len() {
            assert(rest[point - 1] == listing[point]);
        }
        lemma_insertion_point_is_first(rest, file, point - 1);
    }
}

/// Putting a file at its insertion point keeps a listing in order.
pub proof fn lemma_insertion_keeps_order(listing: Seq<ListedFile>, file: ListedFile)
    requires
        is_in_name_order(listing),
    ensures
        is_in_name_order(listing.insert(insertion_point(listing, file), file)),
{
    let point = insertion_point(listing, file);
    let longer = listing.insert(point, file);
    lemma_insertion_point(listing, file);
    assert forall|i: int, j: int| 0 <= i < j < longer.len() implies !name_before(
        (#[trigger] longer[j]).file_name,
        (#[trigger] longer[i]).file_name,
    ) by {
        if j == point {
            assert(longer[i] == listing[i]);
            lemma_name_before_total(file.file_name, listing[i].file_name);
        } else if i == point {
            assert(longer[j] == listing[j - 1]);
            lemma_name_before_chains(
                file.file_name,
                listing[point].file_name,
                listing[j - 1].file_name,
            );
            if j - 1 > point {
                assert(!name_before(listing[j - 1].file_name, listing[point].file_name));
            } else {
                assert(listing[j - 1] == listing[point]);
                lemma_name_before_irreflexive(listing[point].file_name);
            }
            lemma_name_before_total(file.file_name, listing[j - 1].file_name);
        } else {
            let from = if i < point {
                i
            } else {
                i - 1
            };
            let to = if j < point {
                j
            } else {
                j - 1
            };
            assert(longer[i] == listing[from]);
            assert(longer[j] == listing[to]);
        }
    }
}

/// A listing is in the order of its names.
pub proof fn lemma_listing_is_in_order(files: Seq<ListedFile>)
    ensures
        is_in_name_order(in_name_order(files)),
    decreases files.len(),
{
    if files.len() > 0 {
        lemma_listing_is_in_order(files.drop_last());
        lemma_insertion_keeps_order(in_name_order(files.drop_last()), files.last());
    }
}

/// A listing holds the files it was made of, each as often as it came: none
/// is lost, none is added, none is doubled.
pub proof fn lemma_listing_keeps_files(files: Seq<ListedFile>)
    ensures
        in_name_order(files).to_multiset() == files.to_multiset(),
        in_name_order(files).len() == files.len(),
    decreases files.len(),
{
    if files.len() > 0 {
        let head = files.drop_last();
        let earlier = in_name_order(head);
        lemma_listing_keeps_files(head);
        lemma_insertion_point(earlier, files.last());
        to_multiset_insert(earlier, insertion_point(earlier, files.last()), files.last());
        to_multiset_build(head, files.last());
        assert(head.push(files.last()) =~= files);
    } else {
        assert(files =~= Seq::empty());
    }
}

/// Files that are in the order of their names already are listed as they
/// stand.
pub proof fn lemma_ordered_files_stay(files: Seq<ListedFile>)
    requires
        is_in_name_order(files),
    ensures
        in_name_order(files) == files,
    decreases files.len(),
{
    if files.len() > 0 {
        let head = files.drop_last();
        let last = files.last();
        assert forall|i: int, j: int| 0 <= i < j < head.len() implies !name_before(
            (#[trigger] head[j]).file_name,
            (#[trigger] head[i]).file_name,
        ) by {
            assert(head[i] == files[i]);
            assert(head[j] == files[j]);
        }
        lemma_ordered_files_stay(head);
        lemma_insertion_point(head, last);
        let point = insertion_point(head, last);
        if point < head.len() {
            assert(head[point] == files[point]);
            assert(!name_before(files[files.len() - 1].file_name, files[point].file_name));
        }
        assert(head.insert(point, last) =~= files);
    }
}

/// Listing is idempotent: putting a listing in order again gives the same
/// listing.
pub proof fn lemma_listing_is_idempotent(files: Seq<ListedFile>)
    ensures
        in_name_order(in_name_order(files)) == in_name_order(files),
{
    lemma_listing_is_in_order(files);
    lemma_ordered_files_stay(in_name_order(files));
}

/// The files of a run that carry the name `name`, in the order of the run.
pub open spec fn files_named(files: Seq<ListedFile>, name: Seq<char>) -> Seq<ListedFile>
    decreases files.len(),
{
    if files.len() == 0 {
        Seq::empty()
    } else {
        let earlier = files_named(files.drop_last(), name);
        if files.last().file_name == name {
            earlier.push(files.last())
        } else {
            earlier
        }
    }
}

/// The files of a name in two runs put end to end are those of the first
/// run followed by those of the second.
proof fn lemma_files_named_of_joined(first: Seq<ListedFile>, second: Seq<ListedFile>, name: Seq<char>)
    ensures
        files_named(first + second, name) == files_named(first, name) + files_named(second, name),
    decreases second.len(),
{
    if second.len() == 0 {
        assert(first + second =~= first);
        assert(files_named(first, name) + Seq::<ListedFile>::empty() =~= files_named(first, name));
    } else {
        let joined = first + second;
        assert(joined.drop_last() =~= first + second.drop_last());
        assert(joined.last() == second.last());
        lemma_files_named_of_joined(first, second.drop_last(), name);
        let head = files_named(first, name);
        let tail = files_named(second.drop_last(), name);
        if second.last().file_name == name {
            assert((head + tail).push(second.last()) =~= head + tail.push(second.last()));
        }
    }
}

/// A run in which no file carries the name holds no file of that name.
proof fn lemma_no_file_named(files: Seq<ListedFile>, name: Seq<char>)
    requires
        forall|i: int| 0 <= i < files.len() ==> (#[trigger] files[i]).file_name != name,
    ensures
        files_named(files, name) == Seq::<ListedFile>::empty(),
    decreases files.len(),
{
    if files.len() > 0 {
        let head = files.drop_last();
        assert forall|i: int| 0 <= i < head.len() implies (#[trigger] head[i]).file_name
            != name by {
            assert(head[i] == files[i]);
        }
        lemma_no_file_named(head, name);
        assert(files.last() == files[files.len() - 1]);
    }
}

/// Files of one name keep the order in which they came: among the files of
/// any one name, a listing has the order of the run it was made of.
pub proof fn lemma_equal_names_keep_their_order(files: Seq<ListedFile>, name: Seq<char>)
    ensures
        files_named(in_name_order(files), name) == files_named(files, name),
    decreases files.len(),
{
    if files.len() > 0 {
        let head = files.drop_last();
        let last = files.last();
        let earlier = in_name_order(head);
        let point = insertion_point(earlier, last);
        lemma_equal_names_keep_their_order(head, name);
        lemma_listing_is_in_order(head);
        lemma_insertion_point(earlier, last);
        let front = earlier.take(point);
        let back = earlier.skip(point);
        assert(earlier =~= front + back);
        assert(earlier.insert(point, last) =~= front.push(last) + back);
        lemma_files_named_of_joined(front, back, name);
        lemma_files_named_of_joined(front.push(last), back, name);
        assert(front.push(last).drop_last() =~= front);
        if last.file_name == name {
            assert forall|i: int| 0 <= i < back.len() implies (#[trigger] back[i]).file_name
                != name by {
                assert(back[i] == earlier[point + i]);
                if i > 0 {
                    assert(!name_before(earlier[point + i].file_name, earlier[point].file_name));
                }
                lemma_name_before_chains(
                    last.file_name,
                    earlier[point].file_name,
                    earlier[point + i].file_name,
                );
                lemma_name_before_irreflexive(name);
            }
            lemma_no_file_named(back, name);
            assert(files_named(front, name).push(last) + Seq::<ListedFile>::empty()
                =~= files_named(front, name).push(last));
            assert(files_named(front, name) + Seq::<ListedFile>::empty() =~= files_named(
                front,
                name,
            ));
        }
    }
}

/// The operator that adds one file's name to a multiset of names.
pub open spec fn with_name() -> spec_fn(Multiset<Seq<char>>, ListedFile) -> Multiset<Seq<char>> {
    |names: Multiset<Seq<char>>, file: ListedFile| names.insert(file.file_name)
}

/// The names of a run of files, as a multiset, are the names added one by
/// one.
proof fn lemma_names_add_up(files: Seq<ListedFile>)
    ensures
        names_of(files).to_multiset() == files.fold_left(Multiset::empty(), with_name()),
    decreases files.len(),
{
    if files.len() == 0 {
        assert(names_of(files) =~= Seq::empty());
        assert(names_of(files).to_multiset() =~= Multiset::empty()) by {
            broadcast use vstd::seq_lib::group_to_multiset_ensures;

        }
    } else {
        let head = files.drop_last();
        lemma_names_add_up(head);
        assert(names_of(files) =~= names_of(head).push(files.last().file_name));
        to_multiset_build(names_of(head), files.last().file_name);
    }
}

/// Files that are the same up to their order have the same names up to
/// their order.
proof fn lemma_same_files_same_names(first: Seq<ListedFile>, second: Seq<ListedFile>)
    requires
        first.to_multiset() == second.to_multiset(),
    ensures
        names_of(first).to_multiset() == names_of(second).to_multiset(),
{
    assert forall|x: ListedFile, y: ListedFile, names: Multiset<Seq<char>>| #[trigger]
        with_name()(with_name()(names, x), y) == with_name()(with_name()(names, y), x) by {
        assert(names.insert(x.file_name).insert(y.file_name) =~= names.insert(y.file_name).insert(
            x.file_name,
        ));
    }
    assert(commutative_foldl(with_name()));
    lemma_fold_left_permutation(first, second, with_name(), Multiset::empty());
    lemma_names_add_up(first);
    lemma_names_add_up(second);
}

/// The order of names leaves no two names tied.
pub proof fn lemma_names_are_totally_ordered()
    ensures
        total_ordering(comes_no_later()),
{
    let leq = comes_no_later();
    assert forall|x: Seq<char>| #[trigger] leq(x, x) by {
        lemma_name_before_irreflexive(x);
    }
    assert forall|x: Seq<char>, y: Seq<char>| #[trigger] leq(x, y) && #[trigger] leq(y, x) implies x
        == y by {
        lemma_name_before_total(x, y);
    }
    assert forall|x: Seq<char>, y: Seq<char>, z: Seq<char>| #[trigger] leq(x, y) && #[trigger] leq(
        y,
        z,
    ) implies leq(x, z) by {
        lemma_name_before_chains(z, x, y);
    }
    assert forall|x: Seq<char>, y: Seq<char>| #[trigger] leq(x, y) || #[trigger] leq(y, x) by {
        lemma_name_before_total(x, y);
    }
}

/// The order of a listing does not depend on the order in which the folder
/// was walked: two runs of the same files are listed with the same names at
/// the same places.
pub proof fn lemma_listing_order_is_stable(first: Seq<ListedFile>, second: Seq<ListedFile>)
    requires
        first.to_multiset() == second.to_multiset(),
    ensures
        names_of(in_name_order(first)) == names_of(in_name_order(second)),
{
    let one = in_name_order(first);
    let other = in_name_order(second);
    lemma_listing_keeps_files(first);
    lemma_listing_keeps_files(second);
    lemma_same_files_same_names(one, other);
    lemma_listing_is_in_order(first);
    lemma_listing_is_in_order(second);
    lemma_names_are_totally_ordered();
    assert(sorted_by(names_of(one), comes_no_later())) by {
        assert forall|i: int, j: int| 0 <= i < j < names_of(one).len() implies #[trigger] comes_no_later()(
            names_of(one)[i],
            names_of(one)[j],
        ) by {
            assert(!name_before(one[j].file_name, one[i].file_name));
        }
    }
    assert(sorted_by(names_of(other), comes_no_later())) by {
        assert forall|i: int, j: int| 0 <= i < j < names_of(other).len() implies #[trigger] comes_no_later()(
            names_of(other)[i],
            names_of(other)[j],
        ) by {
            assert(!name_before(other[j].file_name, other[i].file_name));
        }
    }
    lemma_sorted_unique(names_of(one), names_of(other), comes_no_later());
}

/// An entry that is not worth resolving is passed over, whatever resolving
/// it would have found.
pub proof fn lemma_unresolved_entries_are_passed_over(
    path: Seq<char>,
    is_file: bool,
    resolved: Option<ResolvedPathView>,
)
    requires
        !worth_resolving(path, is_file),
    ensures
        entry_outcome(FolderEntryView::Found { path, is_file, resolved }) == EntryOutcome::Skipped,
{
}

/// Only a failed inspection ends a listing: where every entry could be read
/// and typed, the entries are collected, whatever else is wrong with any of
/// them.
pub proof fn lemma_only_inspection_failures_end_a_listing(entries: Seq<FolderEntryView>)
    requires
        forall|i: int| 0 <= i < entries.len() ==> (#[trigger] entries[i]) is Found,
    ensures
        collected(entries) is Ok,
    decreases entries.len(),
{
    if entries.len() > 0 {
        let head = entries.drop_last();
        assert forall|i: int| 0 <= i < head.len() implies (#[trigger] head[i]) is Found by {
            assert(head[i] == entries[i]);
        }
        lemma_only_inspection_failures_end_a_listing(head);
        assert(entries.last() == entries[entries.len() - 1]);
    }
}

/// Whatever the entries list is a regular file with an extension of the
/// allow-list: an entry of any other kind is never listed.
pub proof fn lemma_only_markdown_is_listed(entries: Seq<FolderEntryView>)
    ensures
        collected(entries) matches Ok(files) ==> forall|i: int|
            0 <= i < files.len() ==> is_listable(#[trigger] files[i]),
    decreases entries.len(),
{
    if entries.len() > 0 {
        lemma_only_markdown_is_listed(entries.drop_last());
        match collected(entries) {
            Ok(files) => {
                let earlier = collected(entries.drop_last())->Ok_0;
                assert forall|i: int| 0 <= i < files.len() implies is_listable(
                    #[trigger] files[i],
                ) by {
                    if i < earlier.len() {
                        assert(files[i] == earlier[i]);
                    }
                }
            },
            Err(_) => {},
        }
    }
}

} // verus!
