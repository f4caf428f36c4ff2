//! The navigation strip: which page buttons to show for a given position.

use vstd::prelude::*;

verus! {

/// One control of the navigation strip: a page button, or a gap.
#[derive(Clone, Copy, Debug, PartialEq, Eq, Structural)]
pub enum PageMarker {
    Page(u32),
    Ellipsis,
}

/// First page of the neighbourhood around `current`: two before it, never below 2.
pub open spec fn neighborhood_start(current: u32) -> int {
    if current - 2 > 2 {
        current - 2
    } else {
        2
    }
}

/// Last page of the neighbourhood: two after `current`, capped at `total`,
/// and never below the neighbourhood's start.
pub open spec fn neighborhood_end(current: u32, total: u32) -> int {
    let capped = if current + 2 < total {
        current + 2
    } else {
        total as int
    };
    if capped < neighborhood_start(current) {
        neighborhood_start(current)
    } else {
        capped
    }
}

/// The pages of the neighbourhood, in ascending order.
pub open spec fn neighborhood(current: u32, total: u32) -> Seq<PageMarker> {
    let start = neighborhood_start(current);
    let end = neighborhood_end(current, total);
    Seq::new((end - start + 1) as nat, |i: int| PageMarker::Page((start + i) as u32))
}

/// The strip up to, but not including, the closing last-page button.
pub open spec fn window_body(current: u32, total: u32) -> Seq<PageMarker> {
    let before = if neighborhood_start(current) > 2 {
        seq![PageMarker::Ellipsis]
    } else {
        Seq::empty()
    };
    let after = if neighborhood_end(current, total) < total - 1 {
        seq![PageMarker::Ellipsis]
    } else {
        Seq::empty()
    };
    seq![PageMarker::Page(1)] + before + neighborhood(current, total) + after
}

/// The navigation strip for page `current` out of `total` pages.
pub open spec fn window(current: u32, total: u32) -> Seq<PageMarker> {
    if total == 0 {
        Seq::empty()
    } else {
        let body = window_body(current, total);
        if total > 1 && !body.contains(PageMarker::Page(total)) {
            body.push(PageMarker::Page(total))
        } else {
            body
        }
    }
}

/// The number that stands for a marker where a strip is handed out as plain
/// numbers: the page itself, and 0 for a gap.
pub open spec fn marker_code(marker: PageMarker) -> u32 {
    match marker {
        PageMarker::Page(n) => n,
        PageMarker::Ellipsis => 0,
    }
}

/// The last page is already in the body exactly when it lies in the neighbourhood.
pub proof fn lemma_body_holds_last_page(current: u32, total: u32)
    requires
        total > 1,
    ensures
        window_body(current, total).contains(PageMarker::Page(total)) <==> (neighborhood_start(
            current,
        ) <= total <= neighborhood_end(current, total)),
{
    let start = neighborhood_start(current);
    let end = neighborhood_end(current, total);
    let body = window_body(current, total);
    let lead: int = if start > 2 { 2 } else { 1 };
    assert(body.len() >= lead + (end - start + 1));
    if start <= total <= end {
        let at = lead + (total - start);
        assert(body[at] == PageMarker::Page(total));
    }
    if body.contains(PageMarker::Page(total)) {
        let at = choose|i: int| 0 <= i < body.len() && body[i] == PageMarker::Page(total);
        assert(lead <= at < lead + (end - start + 1));
        assert(body[at] == PageMarker::Page((start + (at - lead)) as u32));
    }
}

/// Builds the navigation strip for page `current` out of `total` pages.
pub fn build_window(current: u32, total: u32) -> (markers: Vec<PageMarker>)
    ensures
        markers@ == window(current, total),
{
    let mut markers: Vec<PageMarker> = Vec::new();
    if total == 0 {
        return markers;
    }
    markers.push(PageMarker::Page(1));
    let start: u32 = if current > 4 {
        current - 2
    } else {
        2
    };
    let capped: u32 = if current < total && total - current > 2 {
        current + 2
    } else {
        total
    };
    let end: u32 = if capped < start {
        start
    } else {
        capped
    };
    if start > 2 {
        markers.push(PageMarker::Ellipsis);
    }
    let ghost lead = markers@;
    let count: u32 = end - start + 1;
    let mut k: u32 = 0;
    while k < count
        invariant
            start == neighborhood_start(current),
            end == neighborhood_end(current, total),
            count == end - start + 1,
            k <= count,
            markers@ == lead + neighborhood(current, total).take(k as int),
        decreases count - k,
    {
        markers.push(PageMarker::Page(start + k));
        k = k + 1;
    }
    assert(neighborhood(current, total).take(count as int) == neighborhood(current, total));
    if end < total - 1 {
        markers.push(PageMarker::Ellipsis);
    }
    assert(markers@ == window_body(current, total));
    proof {
        if total > 1 {
            lemma_body_holds_last_page(current, total);
        }
    }
    if total > 1 && !(start <= total && total <= end) {
        markers.push(PageMarker::Page(total));
    }
    markers
}

/// Builds the strip as plain numbers: each page by its number, each gap as 0.
pub fn get_pagination_buttons(current: u32, total: u32) -> (buttons: Vec<u32>)
    ensures
        buttons@ == window(current, total).map_values(|m: PageMarker| marker_code(m)),
{
    let markers = build_window(current, total);
    let mut buttons: Vec<u32> = Vec::new();
    let mut i: usize = 0;
    while i < markers.len()
        invariant
            i <= markers@.len(),
            buttons@ == markers@.take(i as int).map_values(|m: PageMarker| marker_code(m)),
        decreases markers@.len() - i,
    {
        let code: u32 = match markers[i] {
            PageMarker::Page(n) => n,
            PageMarker::Ellipsis => 0,
        };
        buttons.push(code);
        i = i + 1;
        assert(buttons@ =~= markers@.take(i as int).map_values(|m: PageMarker| marker_code(m)));
    }
    assert(markers@.take(i as int) == markers@);
    buttons
}

/// With no pages there is nothing to navigate: the strip is empty.
pub proof fn lemma_window_empty_without_pages(current: u32)
    ensures
        window(current, 0) == Seq::<PageMarker>::empty(),
{
}

/// A strip over at least one page opens with the first page, and over more
/// than one page it closes with the last.
pub proof fn lemma_window_ends(current: u32, total: u32)
    requires
        total >= 1,
    ensures
        window(current, total).first() == PageMarker::Page(1),
        total > 1 ==> window(current, total).last() == PageMarker::Page(total),
{
    let start = neighborhood_start(current);
    let end = neighborhood_end(current, total);
    let body = window_body(current, total);
    let lead: int = if start > 2 { 2 } else { 1 };
    assert(body[0] == PageMarker::Page(1));
    if total > 1 {
        lemma_body_holds_last_page(current, total);
        if start <= total <= end {
            assert(end == total);
            assert(body.len() == lead + (end - start + 1));
            assert(body[lead + (end - start)] == PageMarker::Page(total));
        }
    }
}

/// Gaps stand only between page buttons: never first, never last, never two
/// in a row.
pub proof fn lemma_window_gaps_are_inner(current: u32, total: u32)
    ensures
        forall|i: int|
            0 <= i < window(current, total).len() && #[trigger] window(current, total)[i]
                == PageMarker::Ellipsis ==> {
                &&& 0 < i < window(current, total).len() - 1
                &&& window(current, total)[i - 1] != PageMarker::Ellipsis
                &&& window(current, total)[i + 1] != PageMarker::Ellipsis
            },
{
    if total >= 1 {
        let start = neighborhood_start(current);
        let end = neighborhood_end(current, total);
        let body = window_body(current, total);
        let w = window(current, total);
        let lead: int = if start > 2 { 2 } else { 1 };
        let pages = end - start + 1;
        lemma_window_ends(current, total);
        if total > 1 {
            lemma_body_holds_last_page(current, total);
        }
        assert forall|i: int| 0 <= i < w.len() && #[trigger] w[i] == PageMarker::Ellipsis implies {
            &&& 0 < i < w.len() - 1
            &&& w[i - 1] != PageMarker::Ellipsis
            &&& w[i + 1] != PageMarker::Ellipsis
        } by {
            assert(body[0] == PageMarker::Page(1));
            assert(forall|j: int|
                lead <= j < lead + pages ==> body[j] == PageMarker::Page((start + (j - lead)) as u32));
            if i == 1 {
                assert(lead == 2);
                assert(w[2] == body[2]);
            } else {
                assert(i == lead + pages);
                assert(end < total - 1);
                assert(w[i - 1] == body[i - 1]);
                assert(w.len() == body.len() + 1);
                assert(w[i + 1] == PageMarker::Page(total));
            }
        }
    }
}

/// The strip stays short however many pages there are, and every button on
/// it names a page from 1 up.
pub proof fn lemma_window_bounded(current: u32, total: u32)
    ensures
        window(current, total).len() <= 9,
        forall|i: int|
            0 <= i < window(current, total).len() ==> (#[trigger] marker_code(
                window(current, total)[i],
            ) == 0 <==> window(current, total)[i] == PageMarker::Ellipsis),
{
    if total >= 1 {
        let start = neighborhood_start(current);
        let end = neighborhood_end(current, total);
        let body = window_body(current, total);
        let w = window(current, total);
        let lead: int = if start > 2 { 2 } else { 1 };
        let pages = end - start + 1;
        assert(pages <= 5);
        assert forall|i: int| 0 <= i < w.len() implies (#[trigger] marker_code(w[i]) == 0
            <==> w[i] == PageMarker::Ellipsis) by {
            assert(body[0] == PageMarker::Page(1));
            if lead <= i < lead + pages {
                assert(body[i] == PageMarker::Page((start + (i - lead)) as u32));
            }
        }
    }
}

} // verus!
