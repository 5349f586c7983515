//! Which entries of the download directory a sweep removes.

use vstd::prelude::*;

verus! {

/// What an entry of the download directory is.
#[derive(Clone, Copy, Debug, PartialEq, Eq)]
pub enum EntryKind {
    /// A regular file.
    RegularFile,
    /// A directory, or anything else that is no regular file.
    Other,
}

/// What a sweep leaves of a directory: every entry that is no regular file,
/// in the order of the listing.
pub open spec fn swept(entries: Seq<EntryKind>) -> Seq<EntryKind>
    decreases entries.len(),
{
    if entries.len() == 0 {
        Seq::empty()
    } else if entries.last() == EntryKind::RegularFile {
        swept(entries.drop_last())
    } else {
        swept(entries.drop_last()).push(entries.last())
    }
}

/// The positions that a sweep removes from a listing: those of the regular
/// files, in rising order.
pub open spec fn sweep_targets(entries: Seq<EntryKind>) -> Seq<usize>
    decreases entries.len(),
{
    if entries.len() == 0 {
        Seq::empty()
    } else if entries.last() == EntryKind::RegularFile {
        sweep_targets(entries.drop_last()).push((entries.len() - 1) as usize)
    } else {
        sweep_targets(entries.drop_last())
    }
}

/// A sweep removes exactly the regular files: a position is among the
/// targets if and only if a regular file stands there, and the targets
/// rise.
pub proof fn lemma_sweep_targets_are_the_files(entries: Seq<EntryKind>)
    requires
        entries.len() <= usize::MAX,
    ensures
        forall|k: int|
            0 <= k < sweep_targets(entries).len() ==> {
                &&& (#[trigger] sweep_targets(entries)[k]) < entries.len()
                &&& entries[sweep_targets(entries)[k] as int] == EntryKind::RegularFile
            },
        forall|j: int, k: int|
            0 <= j < k < sweep_targets(entries).len() ==> sweep_targets(entries)[j]
                < sweep_targets(entries)[k],
        forall|i: int|
            0 <= i < entries.len() && entries[i] == EntryKind::RegularFile ==> sweep_targets(
                entries,
            ).contains(i as usize),
    decreases entries.len(),
{
    if entries.len() > 0 {
        let front = entries.drop_last();
        lemma_sweep_targets_are_the_files(front);
        let targets = sweep_targets(entries);
        if entries.last() == EntryKind::RegularFile {
            let end = (entries.len() - 1) as usize;
            assert(targets == sweep_targets(front).push(end));
            assert(targets[targets.len() - 1] == end);
            assert forall|i: int|
                0 <= i < entries.len() && entries[i] == EntryKind::RegularFile implies targets.contains(
                i as usize,
            ) by {
                if i < front.len() {
                    assert(front[i] == entries[i]);
                    let k = choose|k: int|
                        0 <= k < sweep_targets(front).len() && sweep_targets(front)[k]
                            == i as usize;
                    assert(targets[k] == i as usize);
                } else {
                    assert(targets[targets.len() - 1] == i as usize);
                }
            }
        } else {
            assert forall|i: int|
                0 <= i < entries.len() && entries[i] == EntryKind::RegularFile implies targets.contains(
                i as usize,
            ) by {
                assert(front[i] == entries[i]);
            }
        }
    }
}

/// After a sweep no regular file is left, and a second sweep finds nothing
/// to remove. A directory without regular files, the empty one among them,
/// is left as it is.
pub proof fn lemma_sweep_leaves_no_files(entries: Seq<EntryKind>)
    ensures
        forall|i: int|
            0 <= i < swept(entries).len() ==> #[trigger] swept(entries)[i]
                != EntryKind::RegularFile,
        sweep_targets(swept(entries)).len() == 0,
        swept(swept(entries)) == swept(entries),
        sweep_targets(entries).len() == 0 ==> swept(entries) == entries,
        swept(entries).len() + sweep_targets(entries).len() == entries.len(),
    decreases entries.len(),
{
    if entries.len() > 0 {
        let front = entries.drop_last();
        lemma_sweep_leaves_no_files(front);
        if entries.last() != EntryKind::RegularFile {
            let kept = swept(front).push(entries.last());
            assert(kept.drop_last() =~= swept(front));
            assert(swept(entries) == kept);
            if sweep_targets(entries).len() == 0 {
                assert(swept(entries) =~= entries);
            }
        }
    }
}

/// Picks from a listing of the download directory the entries that a sweep
/// removes: every regular file, whoever put it there.
pub fn plan_sweep(entries: &Vec<EntryKind>) -> (targets: Vec<usize>)
    ensures
        targets@ == sweep_targets(entries@),
{
    let mut targets: Vec<usize> = Vec::new();
    let mut i: usize = 0;
    while i < entries.len()
        invariant
            i <= entries.len(),
            targets@ == sweep_targets(entries@.take(i as int)),
        decreases entries.len() - i,
    {
        proof {
            assert(entries@.take(i as int + 1).drop_last() =~= entries@.take(i as int));
            assert(entries@.take(i as int + 1).last() == entries@[i as int]);
        }
        match entries[i] {
            EntryKind::RegularFile => {
                targets.push(i);
            },
            EntryKind::Other => {},
        }
        i = i + 1;
    }
    assert(entries@.take(entries.len() as int) =~= entries@);
    targets
}

} // verus!
