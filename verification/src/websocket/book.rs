//! Which levels of a gateway bid/ask snapshot enter a quote, a depth snapshot
//! or a delta batch.
//!
//! A bid/ask side arrives as parallel price and volume arrays; a snapshot
//! whose arrays differ in length on either side is refused. A level enters
//! only with a positive volume; prices are converted by the caller for the
//! chosen positions, in order.
use vstd::prelude::*;

verus! {

/// The number of levels per side of a depth snapshot.
pub const DEPTH10_LEN: usize = 10usize;

/// Why a bid/ask snapshot yields no book data.
#[derive(Clone, Copy, Debug, PartialEq, Eq, Structural)]
pub enum BookError {
    /// A price (or, for a quote, a volume) array is empty.
    EmptyLevels,
    /// The top level of a side has no positive volume.
    NoTopOfBook,
    /// No level of either side has a positive volume.
    NoValidLevels,
    /// A side's price and volume arrays differ in length.
    LengthMismatch,
}

/// Whether each side's price and volume arrays have the same length.
pub open spec fn sides_paired(
    bid_prices: usize,
    bid_volumes: Seq<i64>,
    ask_prices: usize,
    ask_volumes: Seq<i64>,
) -> bool {
    bid_prices == bid_volumes.len() && ask_prices == ask_volumes.len()
}

/// The positions among the first `n` whose volume is positive, in order,
/// keeping at most `cap` of them.
pub open spec fn book_levels(volumes: Seq<i64>, n: int, cap: int) -> Seq<usize>
    decreases n,
{
    if n <= 0 {
        Seq::empty()
    } else {
        let prev = book_levels(volumes, n - 1, cap);
        if volumes[n - 1] > 0 && prev.len() < cap {
            prev.push((n - 1) as usize)
        } else {
            prev
        }
    }
}

/// The number of positions present in both the price and the volume array.
pub open spec fn paired_len(num_prices: usize, volumes: Seq<i64>) -> int {
    if num_prices < volumes.len() {
        num_prices as int
    } else {
        volumes.len() as int
    }
}

/// The levels of a side: positive-volume positions present in both arrays,
/// in order, at most `cap`.
pub open spec fn side_levels(num_prices: usize, volumes: Seq<i64>, cap: int) -> Seq<usize> {
    book_levels(volumes, paired_len(num_prices, volumes), cap)
}

/// Selects the levels of one side of a bid/ask snapshot.
pub fn select_levels(num_prices: usize, volumes: &[i64], cap: usize) -> (r: Vec<usize>)
    ensures
        r@ == side_levels(num_prices, volumes@, cap as int),
{
    let n = if num_prices < volumes.len() { num_prices } else { volumes.len() };
    let mut out: Vec<usize> = Vec::new();
    let mut i: usize = 0;
    while i < n
        invariant
            n as int == paired_len(num_prices, volumes@),
            n <= volumes@.len(),
            i <= n,
            out@ == book_levels(volumes@, i as int, cap as int),
        decreases n - i,
    {
        if volumes[i] > 0 && out.len() < cap {
            out.push(i);
        }
        i = i + 1;
    }
    out
}

/// Every chosen level lies in both arrays, has a positive volume, and comes
/// after the one before it; no more than `cap` are chosen.
pub proof fn lemma_book_levels_sound(volumes: Seq<i64>, n: int, cap: int)
    requires
        0 <= n <= volumes.len(),
        n <= usize::MAX,
    ensures
        book_levels(volumes, n, cap).len() <= n,
        cap >= 0 ==> book_levels(volumes, n, cap).len() <= cap,
        forall|k: int| 0 <= k < book_levels(volumes, n, cap).len() ==> {
            let p = #[trigger] book_levels(volumes, n, cap)[k];
            &&& p < n
            &&& volumes[p as int] > 0
        },
        forall|k: int, l: int| 0 <= k < l < book_levels(volumes, n, cap).len()
            ==> book_levels(volumes, n, cap)[k] < book_levels(volumes, n, cap)[l],
    decreases n,
{
    if n > 0 {
        lemma_book_levels_sound(volumes, n - 1, cap);
    }
}

/// While fewer than `cap` levels are chosen, every positive-volume position is
/// chosen.
pub proof fn lemma_book_levels_complete(volumes: Seq<i64>, n: int, cap: int)
    requires
        0 <= n <= volumes.len(),
        n <= usize::MAX,
        book_levels(volumes, n, cap).len() < cap,
    ensures
        forall|p: int| 0 <= p < n && volumes[p] > 0
            ==> book_levels(volumes, n, cap).contains(p as usize),
    decreases n,
{
    if n > 0 {
        let prev = book_levels(volumes, n - 1, cap);
        assert(prev.len() <= book_levels(volumes, n, cap).len());
        lemma_book_levels_complete(volumes, n - 1, cap);
        assert forall|p: int| 0 <= p < n && volumes[p] > 0
            implies book_levels(volumes, n, cap).contains(p as usize) by {
            if p < n - 1 {
                let k = choose|k: int| 0 <= k < prev.len() && prev[k] == p as usize;
                assert(book_levels(volumes, n, cap)[k] == p as usize);
            } else {
                assert(book_levels(volumes, n, cap).last() == p as usize);
            }
        }
    }
}

/// Whether a snapshot has a top of book: all four arrays non-empty, each
/// side's arrays of one length, and both top volumes positive.
pub open spec fn top_of_book_spec(
    bid_prices: usize,
    bid_volumes: Seq<i64>,
    ask_prices: usize,
    ask_volumes: Seq<i64>,
) -> Result<(), BookError> {
    if bid_prices == 0 || ask_prices == 0 || bid_volumes.len() == 0 || ask_volumes.len() == 0 {
        Err(BookError::EmptyLevels)
    } else if !sides_paired(bid_prices, bid_volumes, ask_prices, ask_volumes) {
        Err(BookError::LengthMismatch)
    } else if bid_volumes[0] <= 0 || ask_volumes[0] <= 0 {
        Err(BookError::NoTopOfBook)
    } else {
        Ok(())
    }
}

/// Checks that a snapshot has a top of book; the quote then takes the first
/// price and volume of each side.
pub fn check_top_of_book(
    bid_prices: usize,
    bid_volumes: &[i64],
    ask_prices: usize,
    ask_volumes: &[i64],
) -> (r: Result<(), BookError>)
    ensures
        r == top_of_book_spec(bid_prices, bid_volumes@, ask_prices, ask_volumes@),
{
    if bid_prices == 0 || ask_prices == 0 || bid_volumes.len() == 0 || ask_volumes.len() == 0 {
        Err(BookError::EmptyLevels)
    } else if bid_prices != bid_volumes.len() || ask_prices != ask_volumes.len() {
        Err(BookError::LengthMismatch)
    } else if bid_volumes[0] <= 0 || ask_volumes[0] <= 0 {
        Err(BookError::NoTopOfBook)
    } else {
        Ok(())
    }
}

/// The levels of a depth snapshot: at most ten per side; refused when a
/// price array is empty, when a side's arrays differ in length, or when
/// neither side has a level.
pub open spec fn depth_levels_spec(
    bid_prices: usize,
    bid_volumes: Seq<i64>,
    ask_prices: usize,
    ask_volumes: Seq<i64>,
) -> Result<(Seq<usize>, Seq<usize>), BookError> {
    if bid_prices == 0 || ask_prices == 0 {
        Err(BookError::EmptyLevels)
    } else if !sides_paired(bid_prices, bid_volumes, ask_prices, ask_volumes) {
        Err(BookError::LengthMismatch)
    } else {
        let bids = side_levels(bid_prices, bid_volumes, DEPTH10_LEN as int);
        let asks = side_levels(ask_prices, ask_volumes, DEPTH10_LEN as int);
        if bids.len() == 0 && asks.len() == 0 {
            Err(BookError::NoValidLevels)
        } else {
            Ok((bids, asks))
        }
    }
}

/// Selects the bid and ask levels of a depth snapshot; the remaining slots of
/// each side stay empty.
pub fn depth_levels(
    bid_prices: usize,
    bid_volumes: &[i64],
    ask_prices: usize,
    ask_volumes: &[i64],
) -> (r: Result<(Vec<usize>, Vec<usize>), BookError>)
    ensures
        match (r, depth_levels_spec(bid_prices, bid_volumes@, ask_prices, ask_volumes@)) {
            (Ok((b, a)), Ok((sb, sa))) => b@ == sb && a@ == sa,
            (Err(e), Err(se)) => e == se,
            _ => false,
        },
{
    if bid_prices == 0 || ask_prices == 0 {
        return Err(BookError::EmptyLevels);
    }
    if bid_prices != bid_volumes.len() || ask_prices != ask_volumes.len() {
        return Err(BookError::LengthMismatch);
    }
    let bids = select_levels(bid_prices, bid_volumes, DEPTH10_LEN);
    let asks = select_levels(ask_prices, ask_volumes, DEPTH10_LEN);
    if bids.len() == 0 && asks.len() == 0 {
        Err(BookError::NoValidLevels)
    } else {
        Ok((bids, asks))
    }
}

/// The levels of a delta batch (after its leading clear): every level of
/// each side; refused when a price array is empty or a side's arrays differ
/// in length.
pub open spec fn delta_levels_spec(
    bid_prices: usize,
    bid_volumes: Seq<i64>,
    ask_prices: usize,
    ask_volumes: Seq<i64>,
) -> Result<(Seq<usize>, Seq<usize>), BookError> {
    if bid_prices == 0 || ask_prices == 0 {
        Err(BookError::EmptyLevels)
    } else if !sides_paired(bid_prices, bid_volumes, ask_prices, ask_volumes) {
        Err(BookError::LengthMismatch)
    } else {
        Ok((
            side_levels(bid_prices, bid_volumes, usize::MAX as int),
            side_levels(ask_prices, ask_volumes, usize::MAX as int),
        ))
    }
}

/// Selects the bid and ask levels of a delta batch.
pub fn delta_levels(
    bid_prices: usize,
    bid_volumes: &[i64],
    ask_prices: usize,
    ask_volumes: &[i64],
) -> (r: Result<(Vec<usize>, Vec<usize>), BookError>)
    ensures
        match (r, delta_levels_spec(bid_prices, bid_volumes@, ask_prices, ask_volumes@)) {
            (Ok((b, a)), Ok((sb, sa))) => b@ == sb && a@ == sa,
            (Err(e), Err(se)) => e == se,
            _ => false,
        },
{
    if bid_prices == 0 || ask_prices == 0 {
        return Err(BookError::EmptyLevels);
    }
    if bid_prices != bid_volumes.len() || ask_prices != ask_volumes.len() {
        return Err(BookError::LengthMismatch);
    }
    let bids = select_levels(bid_prices, bid_volumes, usize::MAX);
    let asks = select_levels(ask_prices, ask_volumes, usize::MAX);
    Ok((bids, asks))
}

/// A delta batch carries every positive-volume level present in both arrays
/// of a side, in order, and nothing else.
pub proof fn lemma_delta_levels_exact(num_prices: usize, volumes: Seq<i64>)
    requires
        volumes.len() < usize::MAX,
    ensures
        ({
            let lv = side_levels(num_prices, volumes, usize::MAX as int);
            &&& forall|p: int| 0 <= p < paired_len(num_prices, volumes) && volumes[p] > 0
                ==> lv.contains(p as usize)
            &&& forall|k: int| 0 <= k < lv.len() ==> {
                let p = #[trigger] lv[k];
                &&& p < paired_len(num_prices, volumes)
                &&& volumes[p as int] > 0
            }
            &&& forall|k: int, l: int| 0 <= k < l < lv.len() ==> lv[k] < lv[l]
        }),
{
    let n = paired_len(num_prices, volumes);
    lemma_book_levels_sound(volumes, n, usize::MAX as int);
    lemma_book_levels_complete(volumes, n, usize::MAX as int);
}

/// A depth snapshot never holds more than ten levels per side, each with a
/// positive volume, in the order of the gateway arrays; while a side has
/// fewer than ten, it holds all of that side's positive-volume levels.
pub proof fn lemma_depth_levels_bounded(num_prices: usize, volumes: Seq<i64>)
    ensures
        ({
            let lv = side_levels(num_prices, volumes, DEPTH10_LEN as int);
            &&& lv.len() <= DEPTH10_LEN
            &&& forall|k: int| 0 <= k < lv.len() ==> volumes[#[trigger] lv[k] as int] > 0
            &&& forall|k: int, l: int| 0 <= k < l < lv.len() ==> lv[k] < lv[l]
            &&& lv.len() < DEPTH10_LEN ==> forall|p: int|
                0 <= p < paired_len(num_prices, volumes) && volumes[p] > 0
                ==> lv.contains(p as usize)
        }),
{
    let n = paired_len(num_prices, volumes);
    lemma_book_levels_sound(volumes, n, DEPTH10_LEN as int);
    if side_levels(num_prices, volumes, DEPTH10_LEN as int).len() < DEPTH10_LEN {
        lemma_book_levels_complete(volumes, n, DEPTH10_LEN as int);
    }
}

/// A snapshot whose price and volume arrays differ in length on either side
/// is refused as such by the quote, the depth snapshot and the delta batch
/// (unless an array is empty, which is refused first); every accepted
/// snapshot has paired arrays.
pub proof fn lemma_unpaired_snapshots_refused(
    bid_prices: usize,
    bid_volumes: Seq<i64>,
    ask_prices: usize,
    ask_volumes: Seq<i64>,
)
    ensures
        bid_prices > 0 && ask_prices > 0 && !sides_paired(bid_prices, bid_volumes, ask_prices, ask_volumes) ==> {
            &&& depth_levels_spec(bid_prices, bid_volumes, ask_prices, ask_volumes)
                == Err::<(Seq<usize>, Seq<usize>), BookError>(BookError::LengthMismatch)
            &&& delta_levels_spec(bid_prices, bid_volumes, ask_prices, ask_volumes)
                == Err::<(Seq<usize>, Seq<usize>), BookError>(BookError::LengthMismatch)
            &&& (bid_volumes.len() > 0 && ask_volumes.len() > 0 ==>
                top_of_book_spec(bid_prices, bid_volumes, ask_prices, ask_volumes)
                    == Err::<(), BookError>(BookError::LengthMismatch))
        },
        top_of_book_spec(bid_prices, bid_volumes, ask_prices, ask_volumes) is Ok
            ==> sides_paired(bid_prices, bid_volumes, ask_prices, ask_volumes),
        depth_levels_spec(bid_prices, bid_volumes, ask_prices, ask_volumes) is Ok
            ==> sides_paired(bid_prices, bid_volumes, ask_prices, ask_volumes),
        delta_levels_spec(bid_prices, bid_volumes, ask_prices, ask_volumes) is Ok
            ==> sides_paired(bid_prices, bid_volumes, ask_prices, ask_volumes),
{
}

/// When no more than `cap` positions are read, the cap never binds: every
/// positive-volume position among them is chosen.
proof fn lemma_book_levels_all(volumes: Seq<i64>, n: int, cap: int)
    requires
        0 <= n <= volumes.len(),
        n <= usize::MAX,
        n <= cap,
    ensures
        forall|p: int| 0 <= p < n && volumes[p] > 0
            ==> book_levels(volumes, n, cap).contains(p as usize),
    decreases n,
{
    if n > 0 {
        let prev = book_levels(volumes, n - 1, cap);
        lemma_book_levels_sound(volumes, n - 1, cap);
        lemma_book_levels_all(volumes, n - 1, cap);
        assert forall|p: int| 0 <= p < n && volumes[p] > 0
            implies book_levels(volumes, n, cap).contains(p as usize) by {
            if p < n - 1 {
                let k = choose|k: int| 0 <= k < prev.len() && prev[k] == p as usize;
                assert(book_levels(volumes, n, cap)[k] == p as usize);
            } else {
                assert(book_levels(volumes, n, cap).last() == p as usize);
            }
        }
    }
}

/// Whether `levels` lists positions of `volumes` with a positive volume, each
/// inside the array, in strictly increasing order.
pub open spec fn lists_positive_positions(levels: Seq<usize>, volumes: Seq<i64>) -> bool {
    &&& forall|k: int| 0 <= k < levels.len() ==> {
        let p = #[trigger] levels[k];
        &&& (p as int) < volumes.len()
        &&& volumes[p as int] > 0
    }
    &&& forall|k: int, l: int| 0 <= k < l < levels.len() ==> levels[k] < levels[l]
}

/// Whether `levels` holds every position of `volumes` with a positive volume.
pub open spec fn holds_every_positive_position(levels: Seq<usize>, volumes: Seq<i64>) -> bool {
    forall|p: int| 0 <= p < volumes.len() && volumes[p] > 0 ==> levels.contains(p as usize)
}

/// A delta batch is accepted exactly when both price arrays are non-empty and
/// each side's arrays have one length; then each side's levels are exactly
/// that side's positive-volume positions, in order, chosen by that side's own
/// volumes alone.
pub proof fn lemma_delta_batch_takes_each_side_whole(
    bid_prices: usize,
    bid_volumes: Seq<i64>,
    ask_prices: usize,
    ask_volumes: Seq<i64>,
)
    ensures
        (delta_levels_spec(bid_prices, bid_volumes, ask_prices, ask_volumes) is Ok) <==> (bid_prices > 0
            && ask_prices > 0 && bid_prices == bid_volumes.len() && ask_prices == ask_volumes.len()),
        delta_levels_spec(bid_prices, bid_volumes, ask_prices, ask_volumes) matches Ok((bids, asks)) ==> {
            &&& lists_positive_positions(bids, bid_volumes)
            &&& holds_every_positive_position(bids, bid_volumes)
            &&& lists_positive_positions(asks, ask_volumes)
            &&& holds_every_positive_position(asks, ask_volumes)
        },
{
    if bid_prices > 0 && ask_prices > 0 && bid_prices == bid_volumes.len() && ask_prices == ask_volumes.len() {
        let nb = bid_volumes.len() as int;
        let na = ask_volumes.len() as int;
        assert(paired_len(bid_prices, bid_volumes) == nb);
        assert(paired_len(ask_prices, ask_volumes) == na);
        lemma_book_levels_sound(bid_volumes, nb, usize::MAX as int);
        lemma_book_levels_all(bid_volumes, nb, usize::MAX as int);
        lemma_book_levels_sound(ask_volumes, na, usize::MAX as int);
        lemma_book_levels_all(ask_volumes, na, usize::MAX as int);
    }
}

/// A paired depth snapshot with non-empty price arrays is refused as having
/// no levels exactly when neither side has a positive volume; otherwise each
/// side holds its positive-volume positions in order, at most ten, and all
/// of them when it has fewer than ten. A one-sided book is accepted.
pub proof fn lemma_depth_snapshot_levels(
    bid_prices: usize,
    bid_volumes: Seq<i64>,
    ask_prices: usize,
    ask_volumes: Seq<i64>,
)
    requires
        bid_prices > 0,
        ask_prices > 0,
        bid_prices == bid_volumes.len(),
        ask_prices == ask_volumes.len(),
    ensures
        (depth_levels_spec(bid_prices, bid_volumes, ask_prices, ask_volumes)
            == Err::<(Seq<usize>, Seq<usize>), BookError>(BookError::NoValidLevels))
            <==> (forall|p: int| 0 <= p < bid_volumes.len() ==> bid_volumes[p] <= 0)
                && (forall|p: int| 0 <= p < ask_volumes.len() ==> ask_volumes[p] <= 0),
        depth_levels_spec(bid_prices, bid_volumes, ask_prices, ask_volumes) is Ok
            || depth_levels_spec(bid_prices, bid_volumes, ask_prices, ask_volumes)
                == Err::<(Seq<usize>, Seq<usize>), BookError>(BookError::NoValidLevels),
        depth_levels_spec(bid_prices, bid_volumes, ask_prices, ask_volumes) matches Ok((bids, asks)) ==> {
            &&& lists_positive_positions(bids, bid_volumes)
            &&& lists_positive_positions(asks, ask_volumes)
            &&& bids.len() <= DEPTH10_LEN
            &&& asks.len() <= DEPTH10_LEN
            &&& (bids.len() < DEPTH10_LEN ==> holds_every_positive_position(bids, bid_volumes))
            &&& (asks.len() < DEPTH10_LEN ==> holds_every_positive_position(asks, ask_volumes))
        },
{
    let nb = bid_volumes.len() as int;
    let na = ask_volumes.len() as int;
    let bids = side_levels(bid_prices, bid_volumes, DEPTH10_LEN as int);
    let asks = side_levels(ask_prices, ask_volumes, DEPTH10_LEN as int);
    assert(paired_len(bid_prices, bid_volumes) == nb);
    assert(paired_len(ask_prices, ask_volumes) == na);
    lemma_book_levels_sound(bid_volumes, nb, DEPTH10_LEN as int);
    lemma_book_levels_sound(ask_volumes, na, DEPTH10_LEN as int);
    if bids.len() < DEPTH10_LEN {
        lemma_book_levels_complete(bid_volumes, nb, DEPTH10_LEN as int);
    }
    if asks.len() < DEPTH10_LEN {
        lemma_book_levels_complete(ask_volumes, na, DEPTH10_LEN as int);
    }
    if bids.len() == 0 && asks.len() == 0 {
        assert forall|p: int| 0 <= p < bid_volumes.len() implies bid_volumes[p] <= 0 by {
            if bid_volumes[p] > 0 {
                assert(bids.contains(p as usize));
            }
        }
        assert forall|p: int| 0 <= p < ask_volumes.len() implies ask_volumes[p] <= 0 by {
            if ask_volumes[p] > 0 {
                assert(asks.contains(p as usize));
            }
        }
    } else if bids.len() > 0 {
        let p = bids[0];
        assert(bid_volumes[p as int] > 0);
    } else {
        let p = asks[0];
        assert(ask_volumes[p as int] > 0);
    }
}

/// A quote is built exactly from a snapshot whose four arrays are non-empty,
/// whose sides are each of one length, and whose top bid and top ask both
/// have a positive volume; a paired snapshot with a non-positive top volume
/// on either side has no top of book.
pub proof fn lemma_top_of_book_needs_both_sides(
    bid_prices: usize,
    bid_volumes: Seq<i64>,
    ask_prices: usize,
    ask_volumes: Seq<i64>,
)
    ensures
        (top_of_book_spec(bid_prices, bid_volumes, ask_prices, ask_volumes) is Ok) <==> {
            &&& bid_prices > 0 && ask_prices > 0
            &&& bid_volumes.len() == bid_prices && ask_volumes.len() == ask_prices
            &&& bid_volumes[0] > 0 && ask_volumes[0] > 0
        },
        bid_prices > 0 && ask_prices > 0 && bid_volumes.len() == bid_prices && ask_volumes.len() == ask_prices
            && (bid_volumes[0] <= 0 || ask_volumes[0] <= 0)
            ==> top_of_book_spec(bid_prices, bid_volumes, ask_prices, ask_volumes)
                == Err::<(), BookError>(BookError::NoTopOfBook),
{
}

} // verus!
