//! Finding the blocks that collide.
//!
//! Only blocks marked as collidable take part. Their solved extents go into
//! two interval indexes, one for each axis: across (`start..end`) and down
//! (`top..bottom`). An extent that is empty or reversed is left out. Two
//! blocks collide where their extents overlap in both axes, unless both were
//! made for the same item of the moment spine: a stem touches its own
//! notehead on purpose.
//!
//! An index holds every block that was entered, also where several blocks
//! have the very same extent in an axis.

use vstd::prelude::*;
use vstd::multiset::Multiset;
use crate::block::Block;
use crate::layout::LayoutSystem;
use crate::units::{BlockIndex, StaveSpaces};

verus! {

/// An index from intervals `low..high` to blocks: an `iset::IntervalMap`
/// with 64-bit node indices, which may hold several blocks under one
/// interval.
#[verifier::external_body]
pub struct IntervalIndex {
    map: iset::IntervalMap<StaveSpaces, BlockIndex, u64>,
}

/// What an interval index holds: its entries, each the low end and the high
/// end of an interval with the block stored under it, as often as it was
/// entered.
pub uninterp spec fn interval_entries(index: IntervalIndex) -> Multiset<(StaveSpaces, StaveSpaces, BlockIndex)>;

/// `Default::default` of `iset::IntervalMap` makes a map without entries.
#[verifier::external_body]
fn new_interval_index() -> (index: IntervalIndex)
    ensures
        interval_entries(index).len() == 0,
        forall |entry: (StaveSpaces, StaveSpaces, BlockIndex)| interval_entries(index).count(entry) == 0,
{
    IntervalIndex { map: iset::IntervalMap::default() }
}

/// `iset::IntervalMap::force_insert` adds an entry for the block under the
/// interval `low..high`, whatever the map holds already, and leaves every
/// other entry alone. It panics on an empty interval, and where the map
/// already holds as many entries as its node index can count.
#[verifier::external_body]
fn interval_index_insert(index: &mut IntervalIndex, low: StaveSpaces, high: StaveSpaces, block: BlockIndex)
    requires
        low < high,
        interval_entries(*old(index)).len() < u64::MAX,
    ensures
        interval_entries(*final(index)) == interval_entries(*old(index)).insert((low, high, block)),
{
    index.map.force_insert(low..high, block);
}

/// `iset::IntervalMap::iter` over the query `low..high` yields the entries
/// whose interval overlaps the query, each as often as the map holds it,
/// sorted by interval (by the low end, then by the high end); entries with
/// the same interval come in no particular order. An interval `a..b`
/// overlaps the query where `a < high` and `b > low`. It panics on an empty
/// query.
#[verifier::external_body]
fn interval_index_overlapping(index: &IntervalIndex, low: StaveSpaces, high: StaveSpaces) -> (found: Vec<
    (StaveSpaces, StaveSpaces, BlockIndex),
>)
    requires
        low < high,
    ensures
        forall |entry: (StaveSpaces, StaveSpaces, BlockIndex)|
            entry.0 < high && entry.1 > low ==> #[trigger] found@.to_multiset().count(entry) == interval_entries(
                *index,
            ).count(entry),
        forall |entry: (StaveSpaces, StaveSpaces, BlockIndex)|
            !(entry.0 < high && entry.1 > low) ==> #[trigger] found@.to_multiset().count(entry) == 0,
        forall |i: int, j: int|
            0 <= i < j < found@.len() ==> !before((#[trigger] found@[j].0, found@[j].1), (
                #[trigger] found@[i].0,
                found@[i].1,
            )),
{
    index.map.iter(low..high).map(|(interval, block)| (interval.start, interval.end, *block)).collect()
}

/// Whether the first interval sorts before the second: by the low end,
/// then by the high end.
pub open spec fn before(first: (StaveSpaces, StaveSpaces), second: (StaveSpaces, StaveSpaces)) -> bool {
    first.0 < second.0 || (first.0 == second.0 && first.1 < second.1)
}

/// The solved extents of all blocks, edge by edge.
pub struct Extents {
    pub tops: Seq<StaveSpaces>,
    pub bottoms: Seq<StaveSpaces>,
    pub starts: Seq<StaveSpaces>,
    pub ends: Seq<StaveSpaces>,
}

impl Extents {
    /// Whether there are four edges for each of `count` blocks.
    pub open spec fn fits(self, count: nat) -> bool {
        &&& self.tops.len() == count
        &&& self.bottoms.len() == count
        &&& self.starts.len() == count
        &&& self.ends.len() == count
    }
}

/// The extent across under which each block enters the index across, if it
/// enters it: a collidable block whose end lies after its start.
pub open spec fn ranges_across(blocks: Seq<Block>, extents: Extents) -> Seq<Option<(StaveSpaces, StaveSpaces)>> {
    Seq::new(
        blocks.len(),
        |i: int|
            if blocks[i].collidable && extents.starts[i] < extents.ends[i] {
                Some((extents.starts[i], extents.ends[i]))
            } else {
                None
            },
    )
}

/// The extent down under which each block enters the index down, if it
/// enters it: a block of the index across whose bottom lies below its top.
pub open spec fn ranges_down(blocks: Seq<Block>, extents: Extents) -> Seq<Option<(StaveSpaces, StaveSpaces)>> {
    Seq::new(
        blocks.len(),
        |i: int|
            if blocks[i].collidable && extents.starts[i] < extents.ends[i] && extents.tops[i] < extents.bottoms[i] {
                Some((extents.tops[i], extents.bottoms[i]))
            } else {
                None
            },
    )
}

/// The entries of the index that results from entering the first `count`
/// blocks, each under its range if it has one.
pub open spec fn index_of(ranges: Seq<Option<(StaveSpaces, StaveSpaces)>>, count: nat) -> Multiset<
    (StaveSpaces, StaveSpaces, BlockIndex),
>
    decreases count,
{
    if count == 0 {
        Multiset::empty()
    } else {
        let earlier = index_of(ranges, (count - 1) as nat);
        match ranges[count - 1] {
            Some(range) => earlier.insert((range.0, range.1, (count - 1) as usize)),
            None => earlier,
        }
    }
}

/// Whether the range overlaps the interval `low..high`.
pub open spec fn overlaps(range: Option<(StaveSpaces, StaveSpaces)>, low: int, high: int) -> bool {
    range matches Some(interval) && interval.0 < high && interval.1 > low
}

/// Whether the block `first` is found to collide with the block `second`.
///
/// Both blocks are collidable and have a proper extent in both axes, their
/// extents overlap in both axes, and they were made for different spine
/// items.
pub open spec fn collides(blocks: Seq<Block>, extents: Extents, first: int, second: int) -> bool {
    &&& 0 <= first < blocks.len()
    &&& 0 <= second < blocks.len()
    &&& first != second
    &&& blocks[first].collidable
    &&& extents.starts[first] < extents.ends[first]
    &&& extents.tops[first] < extents.bottoms[first]
    &&& overlaps(
        ranges_across(blocks, extents)[second],
        extents.starts[first] as int,
        extents.ends[first] as int,
    )
    &&& overlaps(ranges_down(blocks, extents)[second], extents.tops[first] as int, extents.bottoms[first] as int)
    &&& blocks[first].source.moment_spine_item != blocks[second].source.moment_spine_item
}

/// Whether the pairs come in the order of a scan: by the first block, and
/// for one first block by the range of the second. Pairs of one first block
/// whose second blocks have the same range come in no particular order.
pub open spec fn in_scan_order(
    pairs: Seq<(BlockIndex, BlockIndex)>,
    ranges: Seq<Option<(StaveSpaces, StaveSpaces)>>,
) -> bool {
    forall |i: int, j: int|
        0 <= i < j < pairs.len() ==> (#[trigger] pairs[i]).0 < (#[trigger] pairs[j]).0 || (pairs[i].0 == pairs[j].0
            && ranges[pairs[i].1 as int] is Some && ranges[pairs[j].1 as int] is Some && !before(
            ranges[pairs[j].1 as int]->0,
            ranges[pairs[i].1 as int]->0,
        ))
}

/// What the index of the first `count` ranges holds: one entry for each of
/// these blocks that has a range, under that range, and nothing else.
pub proof fn index_holds_each_once(ranges: Seq<Option<(StaveSpaces, StaveSpaces)>>, count: nat)
    requires
        count <= ranges.len() <= usize::MAX,
    ensures
        index_of(ranges, count).len() <= count,
        forall |entry: (StaveSpaces, StaveSpaces, BlockIndex)| #[trigger]
            index_of(ranges, count).count(entry) == (if entry.2 < count && ranges[entry.2 as int] == Some(
                (entry.0, entry.1),
            ) {
                1nat
            } else {
                0nat
            }),
    decreases count,
{
    broadcast use vstd::multiset::group_multiset_axioms;

    if count > 0 {
        index_holds_each_once(ranges, (count - 1) as nat);
    }
}

/// What a query of the index of all the ranges finds: the blocks whose
/// range overlaps the query, each once and with its range.
pub proof fn found_are_the_overlapping(
    found: Seq<(StaveSpaces, StaveSpaces, BlockIndex)>,
    ranges: Seq<Option<(StaveSpaces, StaveSpaces)>>,
    low: StaveSpaces,
    high: StaveSpaces,
)
    requires
        ranges.len() <= usize::MAX,
        forall |entry: (StaveSpaces, StaveSpaces, BlockIndex)|
            entry.0 < high && entry.1 > low ==> #[trigger] found.to_multiset().count(entry) == index_of(
                ranges,
                ranges.len(),
            ).count(entry),
        forall |entry: (StaveSpaces, StaveSpaces, BlockIndex)|
            !(entry.0 < high && entry.1 > low) ==> #[trigger] found.to_multiset().count(entry) == 0,
    ensures
        forall |i: int|
            0 <= i < found.len() ==> (#[trigger] found[i]).2 < ranges.len() && ranges[found[i].2 as int] == Some(
                (found[i].0, found[i].1),
            ) && overlaps(ranges[found[i].2 as int], low as int, high as int),
        forall |block: int|
            0 <= block < ranges.len() && overlaps(#[trigger] ranges[block], low as int, high as int) ==> exists |i: int|
                0 <= i < found.len() && (#[trigger] found[i]).2 == block,
        forall |i: int, j: int|
            0 <= i < found.len() && 0 <= j < found.len() && i != j ==> (#[trigger] found[i]).2 != (
            #[trigger] found[j]).2,
{
    broadcast use vstd::seq_lib::group_to_multiset_ensures;

    index_holds_each_once(ranges, ranges.len());
    let held = index_of(ranges, ranges.len());
    assert forall |i: int| 0 <= i < found.len() implies (#[trigger] found[i]).2 < ranges.len() && ranges[found[i].2 as int]
        == Some((found[i].0, found[i].1)) && overlaps(ranges[found[i].2 as int], low as int, high as int) by {
        let entry = found[i];
        assert(found.contains(entry));
        assert(found.to_multiset().count(entry) > 0);
        assert(held.count(entry) > 0);
    }
    assert forall |block: int|
        0 <= block < ranges.len() && overlaps(#[trigger] ranges[block], low as int, high as int) implies exists |i: int|
        0 <= i < found.len() && (#[trigger] found[i]).2 == block by {
        let range = ranges[block]->0;
        let entry = (range.0, range.1, block as usize);
        assert(held.count(entry) == 1);
        assert(found.to_multiset().count(entry) > 0);
        assert(found.contains(entry));
        let i = choose |i: int| 0 <= i < found.len() && found[i] == entry;
        assert(found[i].2 == block);
    }
    assert forall |entry: (StaveSpaces, StaveSpaces, BlockIndex)| found.to_multiset().contains(entry) implies found.to_multiset().count(
        entry,
    ) == 1 by {
        assert(held.count(entry) <= 1);
    }
    found.lemma_multiset_has_no_duplicates_conv();
    assert forall |i: int, j: int| 0 <= i < found.len() && 0 <= j < found.len() && i != j implies (#[trigger] found[i]).2
        != (#[trigger] found[j]).2 by {
        if found[i].2 == found[j].2 {
            assert(found[i] == found[j]);
        }
    }
}

/// Whether the block `first`, asked about in one plane and then in the
/// other, is found to collide with the block `second`.
pub open spec fn hits(
    blocks: Seq<Block>,
    scanned: Seq<Option<(StaveSpaces, StaveSpaces)>>,
    confirmed: Seq<Option<(StaveSpaces, StaveSpaces)>>,
    scanned_lows: Seq<StaveSpaces>,
    scanned_highs: Seq<StaveSpaces>,
    confirmed_lows: Seq<StaveSpaces>,
    confirmed_highs: Seq<StaveSpaces>,
    first: int,
    second: int,
) -> bool {
    &&& 0 <= first < blocks.len()
    &&& 0 <= second < blocks.len()
    &&& first != second
    &&& blocks[first].collidable
    &&& scanned_lows[first] < scanned_highs[first]
    &&& confirmed_lows[first] < confirmed_highs[first]
    &&& overlaps(scanned[second], scanned_lows[first] as int, scanned_highs[first] as int)
    &&& overlaps(confirmed[second], confirmed_lows[first] as int, confirmed_highs[first] as int)
    &&& blocks[first].source.moment_spine_item != blocks[second].source.moment_spine_item
}

/// Whether one of the entries found is the block.
fn found_block(found: &Vec<(StaveSpaces, StaveSpaces, BlockIndex)>, block: BlockIndex) -> (among: bool)
    ensures
        among <==> exists |i: int| 0 <= i < found@.len() && (#[trigger] found@[i]).2 == block,
{
    let mut i: usize = 0;
    while i < found.len()
        invariant
            i <= found.len(),
            forall |j: int| 0 <= j < i ==> (#[trigger] found@[j]).2 != block,
        decreases found.len() - i,
    {
        if found[i].2 == block {
            return true;
        }
        i += 1;
    }
    false
}

/// Scans one plane for the blocks that overlap each collidable block there,
/// and confirms each in the other plane.
fn scan_planes(
    blocks: &[Block],
    scanned_plane: &IntervalIndex,
    confirmed_plane: &IntervalIndex,
    scanned_lows: &[StaveSpaces],
    scanned_highs: &[StaveSpaces],
    confirmed_lows: &[StaveSpaces],
    confirmed_highs: &[StaveSpaces],
    Ghost(scanned): Ghost<Seq<Option<(StaveSpaces, StaveSpaces)>>>,
    Ghost(confirmed): Ghost<Seq<Option<(StaveSpaces, StaveSpaces)>>>,
) -> (collisions: Vec<(BlockIndex, BlockIndex)>)
    requires
        scanned.len() == blocks@.len(),
        confirmed.len() == blocks@.len(),
        scanned_lows@.len() == blocks@.len(),
        scanned_highs@.len() == blocks@.len(),
        confirmed_lows@.len() == blocks@.len(),
        confirmed_highs@.len() == blocks@.len(),
        interval_entries(*scanned_plane) == index_of(scanned, scanned.len()),
        interval_entries(*confirmed_plane) == index_of(confirmed, confirmed.len()),
    ensures
        forall |first: BlockIndex, second: BlockIndex|
            collisions@.contains((first, second)) <==> hits(
                blocks@,
                scanned,
                confirmed,
                scanned_lows@,
                scanned_highs@,
                confirmed_lows@,
                confirmed_highs@,
                first as int,
                second as int,
            ),
        in_scan_order(collisions@, scanned),
        collisions@.no_duplicates(),
{
    let mut collisions: Vec<(BlockIndex, BlockIndex)> = Vec::new();
    let count = blocks.len();
    let mut first: usize = 0;
    while first < count
        invariant
            first <= count == blocks@.len(),
            scanned.len() == blocks@.len(),
            confirmed.len() == blocks@.len(),
            scanned_lows@.len() == blocks@.len(),
            scanned_highs@.len() == blocks@.len(),
            confirmed_lows@.len() == blocks@.len(),
            confirmed_highs@.len() == blocks@.len(),
            interval_entries(*scanned_plane) == index_of(scanned, scanned.len()),
            interval_entries(*confirmed_plane) == index_of(confirmed, confirmed.len()),
            forall |i: int|
                0 <= i < collisions@.len() ==> (#[trigger] collisions@[i]).0 < first && hits(
                    blocks@,
                    scanned,
                    confirmed,
                    scanned_lows@,
                    scanned_highs@,
                    confirmed_lows@,
                    confirmed_highs@,
                    collisions@[i].0 as int,
                    collisions@[i].1 as int,
                ),
            forall |one: BlockIndex, other: BlockIndex|
                one < first && hits(
                    blocks@,
                    scanned,
                    confirmed,
                    scanned_lows@,
                    scanned_highs@,
                    confirmed_lows@,
                    confirmed_highs@,
                    one as int,
                    other as int,
                ) ==> collisions@.contains((one, other)),
            in_scan_order(collisions@, scanned),
            collisions@.no_duplicates(),
        decreases count - first,
    {
        if blocks[first].is_collidable() && scanned_lows[first] < scanned_highs[first] && confirmed_lows[first]
            < confirmed_highs[first] {
            let candidates = interval_index_overlapping(scanned_plane, scanned_lows[first], scanned_highs[first]);
            let confirming = interval_index_overlapping(
                confirmed_plane,
                confirmed_lows[first],
                confirmed_highs[first],
            );
            proof {
                found_are_the_overlapping(candidates@, scanned, scanned_lows@[first as int], scanned_highs@[first as int]);
                found_are_the_overlapping(
                    confirming@,
                    confirmed,
                    confirmed_lows@[first as int],
                    confirmed_highs@[first as int],
                );
            }
            let ghost settled = collisions@;
            let mut at: usize = 0;
            while at < candidates.len()
                invariant
                    at <= candidates@.len(),
                    first < count == blocks@.len(),
                    blocks@[first as int].collidable,
                    scanned_lows@[first as int] < scanned_highs@[first as int],
                    confirmed_lows@[first as int] < confirmed_highs@[first as int],
                    scanned.len() == blocks@.len(),
                    confirmed.len() == blocks@.len(),
                    scanned_lows@.len() == blocks@.len(),
                    scanned_highs@.len() == blocks@.len(),
                    confirmed_lows@.len() == blocks@.len(),
                    confirmed_highs@.len() == blocks@.len(),
                    forall |i: int|
                        0 <= i < candidates@.len() ==> (#[trigger] candidates@[i]).2 < scanned.len()
                            && scanned[candidates@[i].2 as int] == Some((candidates@[i].0, candidates@[i].1))
                            && overlaps(
                            scanned[candidates@[i].2 as int],
                            scanned_lows@[first as int] as int,
                            scanned_highs@[first as int] as int,
                        ),
                    forall |i: int, j: int|
                        0 <= i < candidates@.len() && 0 <= j < candidates@.len() && i != j ==> (
                        #[trigger] candidates@[i]).2 != (#[trigger] candidates@[j]).2,
                    forall |i: int, j: int|
                        0 <= i < j < candidates@.len() ==> !before(
                            (#[trigger] candidates@[j].0, candidates@[j].1),
                            (#[trigger] candidates@[i].0, candidates@[i].1),
                        ),
                    forall |i: int|
                        0 <= i < confirming@.len() ==> (#[trigger] confirming@[i]).2 < confirmed.len()
                            && confirmed[confirming@[i].2 as int] == Some((confirming@[i].0, confirming@[i].1))
                            && overlaps(
                            confirmed[confirming@[i].2 as int],
                            confirmed_lows@[first as int] as int,
                            confirmed_highs@[first as int] as int,
                        ),
                    forall |block: int|
                        0 <= block < confirmed.len() && overlaps(
                            #[trigger] confirmed[block],
                            confirmed_lows@[first as int] as int,
                            confirmed_highs@[first as int] as int,
                        ) ==> exists |i: int| 0 <= i < confirming@.len() && (#[trigger] confirming@[i]).2 == block,
                    settled.len() <= collisions@.len(),
                    forall |i: int| 0 <= i < settled.len() ==> collisions@[i] == settled[i],
                    forall |i: int| 0 <= i < settled.len() ==> (#[trigger] settled[i]).0 < first,
                    forall |i: int|
                        0 <= i < collisions@.len() ==> hits(
                            blocks@,
                            scanned,
                            confirmed,
                            scanned_lows@,
                            scanned_highs@,
                            confirmed_lows@,
                            confirmed_highs@,
                            (#[trigger] collisions@[i]).0 as int,
                            collisions@[i].1 as int,
                        ),
                    forall |i: int|
                        settled.len() <= i < collisions@.len() ==> (#[trigger] collisions@[i]).0 == first && exists |j: int|
                            0 <= j < at && (#[trigger] candidates@[j]).2 == collisions@[i].1,
                    forall |j: int|
                        0 <= j < at && hits(
                            blocks@,
                            scanned,
                            confirmed,
                            scanned_lows@,
                            scanned_highs@,
                            confirmed_lows@,
                            confirmed_highs@,
                            first as int,
                            (#[trigger] candidates@[j]).2 as int,
                        ) ==> collisions@.contains((first, candidates@[j].2)),
                    forall |one: BlockIndex, other: BlockIndex|
                        one < first && hits(
                            blocks@,
                            scanned,
                            confirmed,
                            scanned_lows@,
                            scanned_highs@,
                            confirmed_lows@,
                            confirmed_highs@,
                            one as int,
                            other as int,
                        ) ==> collisions@.contains((one, other)),
                    in_scan_order(collisions@, scanned),
                    collisions@.no_duplicates(),
                decreases candidates@.len() - at,
            {
                let candidate = candidates[at].2;
                let ghost key = (candidates@[at as int].0, candidates@[at as int].1);
                // A block overlaps itself, and blocks made for the same spine
                // item overlap on purpose.
                let mut collided = false;
                if candidate != first && !blocks[first].get_source().same_spine_item(&blocks[candidate].get_source()) {
                    collided = found_block(&confirming, candidate);
                }
                proof {
                    assert(collided <==> hits(
                        blocks@,
                        scanned,
                        confirmed,
                        scanned_lows@,
                        scanned_highs@,
                        confirmed_lows@,
                        confirmed_highs@,
                        first as int,
                        candidate as int,
                    ));
                }
                if collided {
                    let ghost earlier = collisions@;
                    collisions.push((first, candidate));
                    proof {
                        assert forall |i: int| settled.len() <= i < earlier.len() implies (#[trigger] earlier[i]).1
                            != candidate && scanned[earlier[i].1 as int] is Some && !before(
                            key,
                            scanned[earlier[i].1 as int]->0,
                        ) by {
                            let from = choose |from: int|
                                0 <= from < at && (#[trigger] candidates@[from]).2 == earlier[i].1;
                            assert(candidates@[from].2 != candidates@[at as int].2);
                            assert(!before(
                                (candidates@[at as int].0, candidates@[at as int].1),
                                (candidates@[from].0, candidates@[from].1),
                            ));
                        }
                        assert forall |i: int, j: int| 0 <= i < j < collisions@.len() implies (#[trigger] collisions@[i]).0
                            < (#[trigger] collisions@[j]).0 || (collisions@[i].0 == collisions@[j].0
                            && scanned[collisions@[i].1 as int] is Some && scanned[collisions@[j].1 as int] is Some
                            && !before(scanned[collisions@[j].1 as int]->0, scanned[collisions@[i].1 as int]->0)) by {
                            assert(collisions@[i] == earlier[i]);
                            if j == earlier.len() {
                                if i < settled.len() {
                                    assert(collisions@[i] == settled[i]);
                                }
                            } else {
                                assert(collisions@[j] == earlier[j]);
                            }
                        }
                        assert forall |i: int, j: int|
                            0 <= i < collisions@.len() && 0 <= j < collisions@.len() && i != j implies collisions@[i]
                            != collisions@[j] by {
                            if i < earlier.len() && j < earlier.len() {
                                assert(collisions@[i] == earlier[i] && collisions@[j] == earlier[j]);
                            } else {
                                let other = if i < earlier.len() {
                                    i
                                } else {
                                    j
                                };
                                assert(collisions@[other] == earlier[other]);
                                if other < settled.len() {
                                    assert(earlier[other] == settled[other]);
                                }
                            }
                        }
                        assert forall |j: int|
                            0 <= j < at + 1 && hits(
                                blocks@,
                                scanned,
                                confirmed,
                                scanned_lows@,
                                scanned_highs@,
                                confirmed_lows@,
                                confirmed_highs@,
                                first as int,
                                (#[trigger] candidates@[j]).2 as int,
                            ) implies collisions@.contains((first, candidates@[j].2)) by {
                            if j < at {
                                assert(earlier.contains((first, candidates@[j].2)));
                                let i = choose |i: int| 0 <= i < earlier.len() && earlier[i] == (first, candidates@[j].2);
                                assert(collisions@[i] == (first, candidates@[j].2));
                            } else {
                                assert(collisions@[earlier.len() as int] == (first, candidate));
                            }
                        }
                        assert forall |one: BlockIndex, other: BlockIndex|
                            one < first && hits(
                                blocks@,
                                scanned,
                                confirmed,
                                scanned_lows@,
                                scanned_highs@,
                                confirmed_lows@,
                                confirmed_highs@,
                                one as int,
                                other as int,
                            ) implies collisions@.contains((one, other)) by {
                            assert(earlier.contains((one, other)));
                            let i = choose |i: int| 0 <= i < earlier.len() && earlier[i] == (one, other);
                            assert(collisions@[i] == (one, other));
                        }
                        assert forall |i: int| settled.len() <= i < collisions@.len() implies (#[trigger] collisions@[i]).0
                            == first && exists |j: int|
                            0 <= j < at + 1 && (#[trigger] candidates@[j]).2 == collisions@[i].1 by {
                            if i < earlier.len() {
                                assert(collisions@[i] == earlier[i]);
                                let from = choose |from: int|
                                    0 <= from < at && (#[trigger] candidates@[from]).2 == earlier[i].1;
                                assert(candidates@[from].2 == collisions@[i].1);
                            } else {
                                assert(candidates@[at as int].2 == collisions@[i].1);
                            }
                        }
                    }
                }
                at += 1;
            }
            proof {
                assert forall |i: int| 0 <= i < collisions@.len() implies (#[trigger] collisions@[i]).0 < first + 1 by {
                    if i < settled.len() {
                        assert(collisions@[i] == settled[i]);
                    }
                }
                assert forall |one: BlockIndex, other: BlockIndex|
                    one < first + 1 && hits(
                        blocks@,
                        scanned,
                        confirmed,
                        scanned_lows@,
                        scanned_highs@,
                        confirmed_lows@,
                        confirmed_highs@,
                        one as int,
                        other as int,
                    ) implies collisions@.contains((one, other)) by {
                    if one == first {
                        let j = choose |j: int| 0 <= j < candidates@.len() && (#[trigger] candidates@[j]).2 == other;
                        assert(candidates@[j].2 == other);
                    }
                }
            }
        }
        first += 1;
    }
    proof {
        assert forall |one: BlockIndex, other: BlockIndex|
            collisions@.contains((one, other)) implies hits(
            blocks@,
            scanned,
            confirmed,
            scanned_lows@,
            scanned_highs@,
            confirmed_lows@,
            confirmed_highs@,
            one as int,
            other as int,
        ) by {
            let i = choose |i: int| 0 <= i < collisions@.len() && collisions@[i] == (one, other);
            assert(collisions@[i].0 == one && collisions@[i].1 == other);
        }
    }
    collisions
}

impl LayoutSystem {
    /// Finds the colliding blocks by asking the index across first and
    /// confirming what it finds in the index down.
    pub(crate) fn detect_colliding_blocks_horizontally(
        blocks: &[Block],
        x_plane_intervals: IntervalIndex,
        y_plane_intervals: IntervalIndex,
        tops: &[StaveSpaces],
        bottoms: &[StaveSpaces],
        starts: &[StaveSpaces],
        ends: &[StaveSpaces],
    ) -> (collisions: Vec<(BlockIndex, BlockIndex)>)
        requires
            (Extents { tops: tops@, bottoms: bottoms@, starts: starts@, ends: ends@ }).fits(blocks@.len()),
            interval_entries(x_plane_intervals) == index_of(
                ranges_across(blocks@, Extents { tops: tops@, bottoms: bottoms@, starts: starts@, ends: ends@ }),
                blocks@.len(),
            ),
            interval_entries(y_plane_intervals) == index_of(
                ranges_down(blocks@, Extents { tops: tops@, bottoms: bottoms@, starts: starts@, ends: ends@ }),
                blocks@.len(),
            ),
        ensures
            forall |first: BlockIndex, second: BlockIndex|
                collisions@.contains((first, second)) <==> collides(
                    blocks@,
                    Extents { tops: tops@, bottoms: bottoms@, starts: starts@, ends: ends@ },
                    first as int,
                    second as int,
                ),
            in_scan_order(
                collisions@,
                ranges_across(blocks@, Extents { tops: tops@, bottoms: bottoms@, starts: starts@, ends: ends@ }),
            ),
            collisions@.no_duplicates(),
    {
        let ghost extents = Extents { tops: tops@, bottoms: bottoms@, starts: starts@, ends: ends@ };
        let collisions = scan_planes(
            blocks,
            &x_plane_intervals,
            &y_plane_intervals,
            starts,
            ends,
            tops,
            bottoms,
            Ghost(ranges_across(blocks@, extents)),
            Ghost(ranges_down(blocks@, extents)),
        );
        proof {
            assert forall |first: BlockIndex, second: BlockIndex|
                collisions@.contains((first, second)) <==> collides(
                    blocks@,
                    extents,
                    first as int,
                    second as int,
                ) by {
                assert(collides(blocks@, extents, first as int, second as int) <==> hits(
                    blocks@,
                    ranges_across(blocks@, extents),
                    ranges_down(blocks@, extents),
                    starts@,
                    ends@,
                    tops@,
                    bottoms@,
                    first as int,
                    second as int,
                ));
            }
        }
        collisions
    }

    /// Finds the colliding blocks by asking the index down first and
    /// confirming what it finds in the index across.
    pub(crate) fn detect_colliding_blocks_vertically(
        blocks: &[Block],
        x_plane_intervals: IntervalIndex,
        y_plane_intervals: IntervalIndex,
        tops: &[StaveSpaces],
        bottoms: &[StaveSpaces],
        starts: &[StaveSpaces],
        ends: &[StaveSpaces],
    ) -> (collisions: Vec<(BlockIndex, BlockIndex)>)
        requires
            (Extents { tops: tops@, bottoms: bottoms@, starts: starts@, ends: ends@ }).fits(blocks@.len()),
            interval_entries(x_plane_intervals) == index_of(
                ranges_across(blocks@, Extents { tops: tops@, bottoms: bottoms@, starts: starts@, ends: ends@ }),
                blocks@.len(),
            ),
            interval_entries(y_plane_intervals) == index_of(
                ranges_down(blocks@, Extents { tops: tops@, bottoms: bottoms@, starts: starts@, ends: ends@ }),
                blocks@.len(),
            ),
        ensures
            forall |first: BlockIndex, second: BlockIndex|
                collisions@.contains((first, second)) <==> collides(
                    blocks@,
                    Extents { tops: tops@, bottoms: bottoms@, starts: starts@, ends: ends@ },
                    first as int,
                    second as int,
                ),
            in_scan_order(
                collisions@,
                ranges_down(blocks@, Extents { tops: tops@, bottoms: bottoms@, starts: starts@, ends: ends@ }),
            ),
            collisions@.no_duplicates(),
    {
        let ghost extents = Extents { tops: tops@, bottoms: bottoms@, starts: starts@, ends: ends@ };
        let collisions = scan_planes(
            blocks,
            &y_plane_intervals,
            &x_plane_intervals,
            tops,
            bottoms,
            starts,
            ends,
            Ghost(ranges_down(blocks@, extents)),
            Ghost(ranges_across(blocks@, extents)),
        );
        proof {
            assert forall |first: BlockIndex, second: BlockIndex|
                collisions@.contains((first, second)) <==> collides(
                    blocks@,
                    extents,
                    first as int,
                    second as int,
                ) by {
                assert(collides(blocks@, extents, first as int, second as int) <==> hits(
                    blocks@,
                    ranges_down(blocks@, extents),
                    ranges_across(blocks@, extents),
                    tops@,
                    bottoms@,
                    starts@,
                    ends@,
                    first as int,
                    second as int,
                ));
            }
        }
        collisions
    }

    /// Finds the pairs of blocks that collide, given the solved edges of
    /// all blocks.
    ///
    /// Every collidable block with a proper extent in both axes is asked
    /// about in turn, in the order of the system's list. The plane of the
    /// axis with more grid lines is the one that is scanned, since more
    /// blocks are told apart there; the other plane confirms. Which plane is
    /// scanned changes the order in which the pairs of one block are
    /// reported, never the pairs themselves. No pair is reported twice.
    pub fn detect_colliding_blocks(
        blocks: &[Block],
        horizontal_grid_lines_count: usize,
        vertical_grid_lines_count: usize,
        tops: &[StaveSpaces],
        bottoms: &[StaveSpaces],
        starts: &[StaveSpaces],
        ends: &[StaveSpaces],
    ) -> (collisions: Vec<(BlockIndex, BlockIndex)>)
        requires
            (Extents { tops: tops@, bottoms: bottoms@, starts: starts@, ends: ends@ }).fits(blocks@.len()),
        ensures
            forall |first: BlockIndex, second: BlockIndex|
                collisions@.contains((first, second)) <==> collides(
                    blocks@,
                    Extents { tops: tops@, bottoms: bottoms@, starts: starts@, ends: ends@ },
                    first as int,
                    second as int,
                ),
            in_scan_order(
                collisions@,
                if horizontal_grid_lines_count > vertical_grid_lines_count {
                    ranges_across(blocks@, Extents { tops: tops@, bottoms: bottoms@, starts: starts@, ends: ends@ })
                } else {
                    ranges_down(blocks@, Extents { tops: tops@, bottoms: bottoms@, starts: starts@, ends: ends@ })
                },
            ),
            collisions@.no_duplicates(),
            forall |i: int|
                0 <= i < collisions@.len() ==> (#[trigger] collisions@[i]).0 < blocks@.len() && collisions@[i].1
                    < blocks@.len() && blocks@[collisions@[i].0 as int].source.moment_spine_item
                    != blocks@[collisions@[i].1 as int].source.moment_spine_item,
            forall |i: int|
                0 <= i < collisions@.len() ==> blocks@[(#[trigger] collisions@[i]).0 as int].collidable
                    && blocks@[collisions@[i].1 as int].collidable,
    {
        let ghost extents = Extents { tops: tops@, bottoms: bottoms@, starts: starts@, ends: ends@ };
        let ghost across = ranges_across(blocks@, extents);
        let ghost down = ranges_down(blocks@, extents);
        let mut x_plane_intervals = new_interval_index();
        let mut y_plane_intervals = new_interval_index();
        assert(interval_entries(x_plane_intervals) =~= index_of(across, 0));
        assert(interval_entries(y_plane_intervals) =~= index_of(down, 0));
        let count = blocks.len();
        let mut index: usize = 0;
        while index < count
            invariant
                index <= count == blocks@.len(),
                extents == (Extents { tops: tops@, bottoms: bottoms@, starts: starts@, ends: ends@ }),
                extents.fits(blocks@.len()),
                across == ranges_across(blocks@, extents),
                down == ranges_down(blocks@, extents),
                interval_entries(x_plane_intervals) == index_of(across, index as nat),
                interval_entries(y_plane_intervals) == index_of(down, index as nat),
            decreases count - index,
        {
            proof {
                index_holds_each_once(across, index as nat);
                index_holds_each_once(down, index as nat);
            }
            if blocks[index].is_collidable() {
                let start_position = starts[index];
                let end_position = ends[index];
                if end_position > start_position {
                    interval_index_insert(&mut x_plane_intervals, start_position, end_position, index);
                    let top_position = tops[index];
                    let bottom_position = bottoms[index];
                    if bottom_position > top_position {
                        interval_index_insert(&mut y_plane_intervals, top_position, bottom_position, index);
                    }
                }
            }
            index += 1;
        }
        let collisions = if horizontal_grid_lines_count > vertical_grid_lines_count {
            Self::detect_colliding_blocks_horizontally(
                blocks,
                x_plane_intervals,
                y_plane_intervals,
                tops,
                bottoms,
                starts,
                ends,
            )
        } else {
            Self::detect_colliding_blocks_vertically(
                blocks,
                x_plane_intervals,
                y_plane_intervals,
                tops,
                bottoms,
                starts,
                ends,
            )
        };
        proof {
            assert forall |i: int| 0 <= i < collisions@.len() implies (#[trigger] collisions@[i]).0 < blocks@.len()
                && collisions@[i].1 < blocks@.len() && blocks@[collisions@[i].0 as int].source.moment_spine_item
                != blocks@[collisions@[i].1 as int].source.moment_spine_item && blocks@[collisions@[i].0 as int].collidable
                && blocks@[collisions@[i].1 as int].collidable by {
                let pair = collisions@[i];
                assert(collisions@.contains((pair.0, pair.1)));
                assert(collides(blocks@, extents, pair.0 as int, pair.1 as int));
            }
        }
        collisions
    }
}

/// Two lists that hold exactly the colliding pairs hold the same pairs,
/// whichever plane each was scanned from.
pub proof fn scans_agree(
    blocks: Seq<Block>,
    extents: Extents,
    scanned_across: Seq<(BlockIndex, BlockIndex)>,
    scanned_down: Seq<(BlockIndex, BlockIndex)>,
)
    requires
        forall |first: BlockIndex, second: BlockIndex|
            scanned_across.contains((first, second)) <==> collides(blocks, extents, first as int, second as int),
        forall |first: BlockIndex, second: BlockIndex|
            scanned_down.contains((first, second)) <==> collides(blocks, extents, first as int, second as int),
    ensures
        scanned_across.to_set() == scanned_down.to_set(),
{
    assert forall |pair: (BlockIndex, BlockIndex)| scanned_across.to_set().contains(pair) <==> scanned_down.to_set().contains(
        pair,
    ) by {
        assert(pair == (pair.0, pair.1));
        assert(scanned_across.contains((pair.0, pair.1)) <==> collides(
            blocks,
            extents,
            pair.0 as int,
            pair.1 as int,
        ));
        assert(scanned_down.contains((pair.0, pair.1)) <==> collides(blocks, extents, pair.0 as int, pair.1 as int));
    }
    assert(scanned_across.to_set() =~= scanned_down.to_set());
}

/// Two collidable blocks made for the same spine item never appear
/// together among the colliding pairs, however their extents lie.
pub proof fn same_origin_never_collides(blocks: Seq<Block>, extents: Extents, first: int, second: int)
    requires
        0 <= first < blocks.len(),
        0 <= second < blocks.len(),
        blocks[first].source.moment_spine_item == blocks[second].source.moment_spine_item,
    ensures
        !collides(blocks, extents, first, second),
        !collides(blocks, extents, second, first),
{
}

/// Blocks collide with each other: where one is found to collide with
/// another, the other is found to collide with it.
pub proof fn collisions_go_both_ways(blocks: Seq<Block>, extents: Extents, first: int, second: int)
    requires
        extents.fits(blocks.len()),
    ensures
        collides(blocks, extents, first, second) <==> collides(blocks, extents, second, first),
{
}

} // verus!
