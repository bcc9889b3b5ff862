//! The choice of the monitor that shows most of a window.

use crate::monitor::Monitor;
use crate::rectangle::{
    lemma_overlap_bounds, lemma_overlap_grows_with_rectangle, lemma_overlap_is_symmetric,
    lemma_overlap_of_inner, Rectangle,
};
use vstd::prelude::*;

verus! {

/// Whether any of `monitors` has a video mode.
pub open spec fn any_usable(monitors: Seq<Monitor>) -> bool {
    exists|i: int| 0 <= i < monitors.len() && (#[trigger] monitors[i])@ is Some
}

/// Whether `monitors[i]` is the dominant monitor of `window`: it has a video
/// mode, no monitor with a video mode shows more of the window, and every
/// such monitor before it shows less.
pub open spec fn is_dominant(window: Rectangle, monitors: Seq<Monitor>, i: int) -> bool {
    &&& 0 <= i < monitors.len()
    &&& monitors[i]@ is Some
    &&& forall|j: int|
        0 <= j < monitors.len() && (#[trigger] monitors[j])@ is Some ==> monitors[j].overlap(window)
            <= monitors[i].overlap(window)
    &&& forall|j: int|
        0 <= j < i && (#[trigger] monitors[j])@ is Some ==> monitors[j].overlap(window)
            < monitors[i].overlap(window)
}

/// The place in `monitors` of the dominant monitor of `window`; none where no
/// monitor is dominant.
pub open spec fn dominant(window: Rectangle, monitors: Seq<Monitor>) -> Option<int> {
    if exists|i: int| is_dominant(window, monitors, i) {
        Some(choose|i: int| is_dominant(window, monitors, i))
    } else {
        None
    }
}

/// Picks the monitor that shows most of `window`, by its place in `monitors`.
///
/// Monitors without a video mode are passed over. Among monitors that show
/// equally much, the first one is picked. Nothing is picked where no monitor
/// has a video mode.
///
/// Which monitor `dominant` names follows from `is_dominant` by
/// `lemma_dominant_names_the_dominant`.
pub fn select_dominant(window: &Rectangle, monitors: &[Monitor]) -> (selected: Option<usize>)
    ensures
        selected is None <==> !any_usable(monitors@),
        match selected {
            Some(i) => dominant(*window, monitors@) == Some(i as int),
            None => dominant(*window, monitors@) is None,
        },
{
    let mut selected: Option<usize> = None;
    let mut largest: u64 = 0;
    let mut next: usize = 0;
    while next < monitors.len()
        invariant
            next <= monitors@.len(),
            selected is None ==> forall|j: int| 0 <= j < next ==> (#[trigger] monitors@[j])@ is None,
            selected matches Some(i) ==> {
                &&& i < next
                &&& monitors@[i as int]@ is Some
                &&& largest == monitors@[i as int].overlap(*window)
                &&& forall|j: int|
                    0 <= j < next && (#[trigger] monitors@[j])@ is Some ==> monitors@[j].overlap(
                        *window,
                    ) <= largest
                &&& forall|j: int|
                    0 <= j < i && (#[trigger] monitors@[j])@ is Some ==> monitors@[j].overlap(
                        *window,
                    ) < largest
            },
        decreases monitors@.len() - next,
    {
        if let Some(shown) = monitors[next].rectangle() {
            let area = window.overlap_area(&shown);
            if selected.is_none() || area > largest {
                selected = Some(next);
                largest = area;
            }
        }
        next += 1;
    }
    proof {
        lemma_dominant_names_the_dominant(*window, monitors@);
    }
    selected
}

/// At most one monitor is dominant.
pub proof fn lemma_dominant_is_unique(window: Rectangle, monitors: Seq<Monitor>, i: int, j: int)
    requires
        is_dominant(window, monitors, i),
        is_dominant(window, monitors, j),
    ensures
        i == j,
{
}

/// Where some monitor has a video mode, one of the monitors is dominant.
pub proof fn lemma_dominant_exists(window: Rectangle, monitors: Seq<Monitor>) -> (i: int)
    requires
        any_usable(monitors),
    ensures
        is_dominant(window, monitors, i),
    decreases monitors.len(),
{
    let last = monitors.len() - 1;
    let front = monitors.drop_last();
    assert(forall|j: int| 0 <= j < last ==> front[j] == monitors[j]);
    if any_usable(front) {
        let before = lemma_dominant_exists(window, front);
        if monitors[last]@ is Some && monitors[last].overlap(window) > monitors[before].overlap(
            window,
        ) {
            last
        } else {
            before
        }
    } else {
        last
    }
}

/// `dominant` names a monitor exactly where that monitor is dominant, and
/// names none exactly where no monitor has a video mode.
pub proof fn lemma_dominant_names_the_dominant(window: Rectangle, monitors: Seq<Monitor>)
    ensures
        forall|i: int|
            dominant(window, monitors) == Some(i) <==> #[trigger] is_dominant(window, monitors, i),
        dominant(window, monitors) is None <==> !any_usable(monitors),
{
    if any_usable(monitors) {
        lemma_dominant_exists(window, monitors);
    }
    assert forall|i: int| #[trigger] is_dominant(window, monitors, i) implies dominant(
        window,
        monitors,
    ) == Some(i) by {
        lemma_dominant_is_unique(
            window,
            monitors,
            i,
            choose|k: int| is_dominant(window, monitors, k),
        );
    }
}

/// Whether no two of `monitors` that have a video mode show a common pixel.
pub open spec fn pairwise_disjoint(monitors: Seq<Monitor>) -> bool {
    forall|a: int, b: int|
        #![trigger monitors[a], monitors[b]]
        0 <= a < b < monitors.len() && monitors[a]@ is Some && monitors[b]@ is Some
            ==> monitors[a]@->0.disjoint(monitors[b]@->0)
}

/// Whether `monitors[i]` has a video mode and shows more of `window` than
/// any other monitor that has one.
pub open spec fn shows_most(window: Rectangle, monitors: Seq<Monitor>, i: int) -> bool {
    &&& 0 <= i < monitors.len()
    &&& monitors[i]@ is Some
    &&& forall|j: int|
        0 <= j < monitors.len() && j != i && (#[trigger] monitors[j])@ is Some
            ==> monitors[j].overlap(window) < monitors[i].overlap(window)
}

/// Whether `order` lists each of the places `0`, .., `order.len() - 1`
/// once.
pub open spec fn is_reordering(order: Seq<int>) -> bool {
    &&& forall|k: int| 0 <= k < order.len() ==> 0 <= #[trigger] order[k] < order.len()
    &&& forall|j: int, k: int|
        0 <= j < k < order.len() ==> #[trigger] order[j] != #[trigger] order[k]
}

/// A window of at least one pixel that lies entirely within one of several
/// monitors, no two of which show a common pixel, has that monitor as its
/// dominant monitor.
pub proof fn lemma_monitor_around_window_is_dominant(
    window: Rectangle,
    monitors: Seq<Monitor>,
    m: int,
)
    requires
        pairwise_disjoint(monitors),
        0 <= m < monitors.len(),
        monitors[m]@ matches Some(shown) && window.within(shown),
        window.area() > 0,
    ensures
        dominant(window, monitors) == Some(m),
{
    let around = monitors[m]@->0;
    lemma_overlap_of_inner(window, around);
    assert forall|j: int|
        0 <= j < monitors.len() && j != m && (#[trigger] monitors[j])@ is Some implies monitors[j].overlap(
        window,
    ) == 0 by {
        let other = monitors[j]@->0;
        if j < m {
            lemma_overlap_is_symmetric(other, around);
        }
        lemma_overlap_grows_with_rectangle(window, around, other);
        lemma_overlap_bounds(window, other);
    }
    lemma_showing_most_is_dominant(window, monitors, m);
}

/// The monitor that shows more of the window than any other is the dominant
/// one, wherever it stands among the monitors.
pub proof fn lemma_showing_most_is_dominant(window: Rectangle, monitors: Seq<Monitor>, a: int)
    requires
        shows_most(window, monitors, a),
    ensures
        dominant(window, monitors) == Some(a),
{
    lemma_dominant_names_the_dominant(window, monitors);
}

/// The monitor that shows more of the window than any other stays the
/// dominant one when the monitors are listed in another order: with
/// `reordered[k]` being `monitors[order[k]]`, the dominant monitor of
/// `reordered` stands where `order` names the dominant monitor of
/// `monitors`.
pub proof fn lemma_showing_most_is_dominant_in_any_order(
    window: Rectangle,
    monitors: Seq<Monitor>,
    a: int,
    order: Seq<int>,
    reordered: Seq<Monitor>,
)
    requires
        shows_most(window, monitors, a),
        is_reordering(order),
        order.len() == monitors.len(),
        reordered.len() == monitors.len(),
        forall|k: int| 0 <= k < reordered.len() ==> #[trigger] reordered[k] == monitors[order[k]],
    ensures
        dominant(window, monitors) == Some(a),
        dominant(window, reordered) matches Some(b) && order[b] == a,
{
    lemma_showing_most_is_dominant(window, monitors, a);
    let b = lemma_reordering_reaches(order, a);
    lemma_showing_most_is_dominant(window, reordered, b);
}

/// A reordering names every place.
proof fn lemma_reordering_reaches(order: Seq<int>, place: int) -> (k: int)
    requires
        is_reordering(order),
        0 <= place < order.len(),
    ensures
        0 <= k < order.len(),
        order[k] == place,
{
    let places = Set::new(|p: int| 0 <= p < order.len());
    let named = order.to_set();
    assert(named.subset_of(places));
    vstd::set_lib::lemma_int_range(0, order.len() as int);
    assert(places =~= vstd::set_lib::set_int_range(0, order.len() as int));
    order.unique_seq_to_set();
    vstd::set_lib::lemma_subset_equality(named, places);
    assert(named.contains(place));
    choose|k: int| 0 <= k < order.len() && order[k] == place
}

/// Among monitors that show equally much of the window, and no other shows
/// more, the first is the dominant one.
pub proof fn lemma_first_of_equals_is_dominant(
    window: Rectangle,
    monitors: Seq<Monitor>,
    first: int,
    second: int,
)
    requires
        0 <= first < second < monitors.len(),
        monitors[first]@ is Some,
        monitors[second]@ is Some,
        monitors[first].overlap(window) == monitors[second].overlap(window),
        forall|j: int|
            0 <= j < monitors.len() && (#[trigger] monitors[j])@ is Some ==> monitors[j].overlap(
                window,
            ) <= monitors[first].overlap(window),
        forall|j: int|
            0 <= j < first && (#[trigger] monitors[j])@ is Some ==> monitors[j].overlap(window)
                < monitors[first].overlap(window),
    ensures
        dominant(window, monitors) == Some(first),
{
    lemma_dominant_names_the_dominant(window, monitors);
}

/// Whether `b` begins where `a` ends along one axis, the two being of the
/// same size and in line along the other axis, and the middle of `window`
/// lies on the line between them.
pub open spec fn centered_between(window: Rectangle, a: Rectangle, b: Rectangle) -> bool {
    &&& a.width == b.width
    &&& a.height == b.height
    &&& {
        ||| a.y == b.y && a.max_x() == b.min_x() && window.min_x() + window.max_x() == 2
            * a.max_x()
        ||| a.x == b.x && a.max_y() == b.min_y() && window.min_y() + window.max_y() == 2
            * a.max_y()
    }
}

/// A window whose middle lies on the line between two monitors of the same
/// size shows equally much on both, and the one listed first is its
/// dominant monitor, whichever side that one is on.
pub proof fn lemma_window_between_monitors_goes_to_first(
    window: Rectangle,
    first: Monitor,
    second: Monitor,
)
    requires
        first@ is Some,
        second@ is Some,
        centered_between(window, first@->0, second@->0) || centered_between(
            window,
            second@->0,
            first@->0,
        ),
    ensures
        first.overlap(window) == second.overlap(window),
        dominant(window, seq![first, second]) == Some(0int),
{
    let monitors = seq![first, second];
    lemma_dominant_names_the_dominant(window, monitors);
}

/// No monitor is dominant where none has a video mode, as in an empty list
/// of monitors.
pub proof fn lemma_no_dominant_without_video_mode(window: Rectangle, monitors: Seq<Monitor>)
    requires
        forall|j: int| 0 <= j < monitors.len() ==> (#[trigger] monitors[j])@ is None,
    ensures
        dominant(window, monitors) is None,
{
}

} // verus!
