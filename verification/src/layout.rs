//! How much of a form or of the section tabs fits on screen, and which part
//! is shown. Sizes are terminal cells; the drawing itself is the front end's.
use vstd::prelude::*;
use crate::blueprint::{Field, FieldType, FieldView, Section};
use crate::form::sat_sub;
use crate::text;

verus! {

/// The sum of the first `k` sizes.
pub open spec fn prefix_sum(h: Seq<u32>, k: int) -> int
    decreases k,
{
    if k <= 0 || h.len() == 0 {
        0
    } else if k > h.len() {
        prefix_sum(h, h.len() as int)
    } else {
        prefix_sum(h, k - 1) + h[k - 1]
    }
}

/// `k` items fit greedily: at most `max` of them, their sizes summing to at
/// most `room`, and the next one (if any, and if `max` allows) would not fit.
pub open spec fn greedy_fit(h: Seq<u32>, room: int, max: int, k: int) -> bool {
    &&& 0 <= k <= h.len()
    &&& k <= max
    &&& prefix_sum(h, k) <= room
    &&& (k == h.len() || k == max || prefix_sum(h, k + 1) > room)
}

proof fn lemma_prefix_step(h: Seq<u32>, k: int)
    requires
        0 <= k < h.len(),
    ensures
        prefix_sum(h, k + 1) == prefix_sum(h, k) + h[k],
{
}

/// How many of `sizes`, taken in order, fit in `room` (at most `max`).
pub fn fit_count(sizes: &Vec<u32>, room: u32, max: usize) -> (r: usize)
    ensures
        greedy_fit(sizes@, room as int, max as int, r as int),
{
    let mut used: u64 = 0;
    let mut k: usize = 0;
    while k < sizes.len() && k < max
        invariant
            k <= sizes@.len(),
            k <= max,
            used as int == prefix_sum(sizes@, k as int),
            used <= room,
        decreases sizes.len() - k,
    {
        proof {
            lemma_prefix_step(sizes@, k as int);
        }
        let next = used + sizes[k] as u64;
        if next > room as u64 {
            return k;
        }
        used = next;
        k = k + 1;
    }
    k
}

/// The rows a field takes when the form is laid out to count what fits:
/// a multiselect takes a row per option plus its frame (at least three).
pub open spec fn fit_height(f: FieldView) -> u32 {
    match f.field_type {
        FieldType::Checkbox => 3,
        FieldType::Textarea => 6,
        FieldType::CrateInput => 3,
        FieldType::ListBuilder => 10,
        FieldType::CrateSearch => 8,
        FieldType::ActionButton => 5,
        FieldType::Multiselect => {
            let n = ((f.options.len() as u16) as u32 + 2) as u32;
            if n > 3 {
                n
            } else {
                3
            }
        },
        _ => 3,
    }
}

/// The rows a field takes when the form is drawn.
pub open spec fn draw_height(f: FieldView) -> u32 {
    match f.field_type {
        FieldType::CrateInput => 5,
        FieldType::ListBuilder => 12,
        FieldType::CrateSearch => 12,
        _ => fit_height(f),
    }
}

fn multiselect_height(f: &Field) -> (r: u32)
    ensures
        r == ({
            let n = ((f@.options.len() as u16) as u32 + 2) as u32;
            if n > 3 {
                n
            } else {
                3
            }
        }),
{
    let n = (f.options.len() as u16) as u32 + 2;
    if n > 3 {
        n
    } else {
        3
    }
}

/// The rows `f` takes when counting what fits.
pub fn field_fit_height(f: &Field) -> (r: u32)
    ensures
        r == fit_height(f@),
{
    match f.field_type {
        FieldType::Checkbox => 3,
        FieldType::Textarea => 6,
        FieldType::CrateInput => 3,
        FieldType::ListBuilder => 10,
        FieldType::CrateSearch => 8,
        FieldType::ActionButton => 5,
        FieldType::Multiselect => multiselect_height(f),
        _ => 3,
    }
}

/// The rows `f` takes when drawn.
pub fn field_draw_height(f: &Field) -> (r: u32)
    ensures
        r == draw_height(f@),
{
    match f.field_type {
        FieldType::CrateInput => 5,
        FieldType::ListBuilder => 12,
        FieldType::CrateSearch => 12,
        _ => field_fit_height(f),
    }
}

/// The heights of the editable fields of a section, measured by `draw`.
pub open spec fn editable_heights(fs: Seq<FieldView>, draw: bool) -> Seq<u32>
    decreases fs.len(),
{
    if fs.len() == 0 {
        Seq::empty()
    } else {
        let rest = editable_heights(fs.drop_last(), draw);
        if crate::form::editable(fs.last()) {
            rest.push(
                if draw {
                    draw_height(fs.last())
                } else {
                    fit_height(fs.last())
                },
            )
        } else {
            rest
        }
    }
}

/// The heights of the editable fields of `section`.
pub fn section_heights(section: &Section, draw: bool) -> (r: Vec<u32>)
    ensures
        r@ == editable_heights(section@.fields, draw),
{
    let fields = &section.fields;
    let ghost fv = section@.fields;
    let mut r: Vec<u32> = Vec::new();
    let mut i: usize = 0;
    while i < fields.len()
        invariant
            fv == fields@.map_values(|f: Field| f@),
            i <= fields@.len(),
            r@ == editable_heights(fv.subrange(0, i as int), draw),
        decreases fields.len() - i,
    {
        assert(fv.subrange(0, i + 1).drop_last() =~= fv.subrange(0, i as int));
        assert(fv.subrange(0, i + 1).last() == fields@[i as int]@);
        if fields[i].is_editable() {
            let h = if draw {
                field_draw_height(&fields[i])
            } else {
                field_fit_height(&fields[i])
            };
            r.push(h);
        }
        i = i + 1;
    }
    assert(fv.subrange(0, fv.len() as int) =~= fv);
    r
}

/// How many fields of `section` fit on a terminal of `terminal_height` rows
/// (eight rows go to the frame, tabs and status; at least one field counts).
pub fn visible_field_count(section: &Section, terminal_height: u16) -> (r: usize)
    ensures
        ({
            let h = editable_heights(section@.fields, false);
            let room = sat_sub(terminal_height as int, 8);
            exists|k: int| greedy_fit(h, room, usize::MAX as int, k) && r == (if k >= 1 {
                k
            } else {
                1
            })
        }),
{
    let heights = section_heights(section, false);
    let room = terminal_height.saturating_sub(8) as u32;
    assert(room as int == sat_sub(terminal_height as int, 8));
    let k = fit_count(&heights, room, usize::MAX);
    assert(greedy_fit(heights@, room as int, usize::MAX as int, k as int));
    if k >= 1 {
        k
    } else {
        1
    }
}

/// The first shown of `total` items so that item `selected` (clamped to the
/// last) is among `visible` shown, starting from `scroll`, not past the end.
pub open spec fn window_start(selected: int, scroll: int, visible: int, total: int) -> int {
    let sel = if selected < sat_sub(total, 1) {
        selected
    } else {
        sat_sub(total, 1)
    };
    let s = if sel < scroll {
        sel
    } else if sel >= scroll + visible {
        sat_sub(sel, visible - 1)
    } else {
        scroll
    };
    let max_scroll = sat_sub(total, visible);
    if s < max_scroll {
        s
    } else {
        max_scroll
    }
}

/// The first shown item (see `window_start`).
pub fn window_offset(selected: usize, scroll: usize, visible: usize, total: usize) -> (r: usize)
    requires
        visible >= 1,
        scroll + visible <= usize::MAX,
    ensures
        r == window_start(selected as int, scroll as int, visible as int, total as int),
{
    let last = total.saturating_sub(1);
    let sel = if selected < last {
        selected
    } else {
        last
    };
    let s = if sel < scroll {
        sel
    } else if sel >= scroll + visible {
        sel.saturating_sub(visible - 1)
    } else {
        scroll
    };
    let max_scroll = total.saturating_sub(visible);
    if s < max_scroll {
        s
    } else {
        max_scroll
    }
}

/// Which fields of the current section are drawn.
pub struct FormWindow {
    /// The first drawn field (among the editable ones).
    pub first: usize,
    /// How many fields the window has room for.
    pub visible: usize,
    /// How many fields are drawn from `first` on.
    pub drawn: usize,
}

/// The prefix sums never decrease.
pub proof fn lemma_prefix_monotone(h: Seq<u32>, i: int, j: int)
    requires
        0 <= i <= j <= h.len(),
    ensures
        prefix_sum(h, i) <= prefix_sum(h, j),
    decreases j - i,
{
    if i < j {
        lemma_prefix_monotone(h, i, j - 1);
        lemma_prefix_step(h, j - 1);
    }
}

/// Counting from `k` items on: the greedy count of items that fit.
pub open spec fn fit_from(h: Seq<u32>, room: int, max: int, k: int) -> int
    decreases h.len() - k,
{
    if 0 <= k < h.len() && k < max && prefix_sum(h, k + 1) <= room {
        fit_from(h, room, max, k + 1)
    } else {
        k
    }
}

/// How many of the sizes `h`, taken in order, fit in `room` (at most `max`).
pub open spec fn fit_len(h: Seq<u32>, room: int, max: int) -> int {
    fit_from(h, room, max, 0)
}

proof fn lemma_fit_from(h: Seq<u32>, room: int, max: int, k: int)
    requires
        0 <= k <= h.len(),
        k <= max,
        prefix_sum(h, k) <= room,
    ensures
        greedy_fit(h, room, max, fit_from(h, room, max, k)),
        k <= fit_from(h, room, max, k),
    decreases h.len() - k,
{
    if k < h.len() && k < max && prefix_sum(h, k + 1) <= room {
        lemma_fit_from(h, room, max, k + 1);
    }
}

/// Only one count fits greedily.
pub proof fn lemma_greedy_fit_unique(h: Seq<u32>, room: int, max: int, k1: int, k2: int)
    requires
        greedy_fit(h, room, max, k1),
        greedy_fit(h, room, max, k2),
    ensures
        k1 == k2,
{
    if k1 < k2 {
        lemma_prefix_monotone(h, k1 + 1, k2);
    } else if k2 < k1 {
        lemma_prefix_monotone(h, k2 + 1, k1);
    }
}

/// `fit_len` is the greedy count.
pub proof fn lemma_fit_len(h: Seq<u32>, room: int, max: int)
    requires
        room >= 0,
        max >= 0,
    ensures
        greedy_fit(h, room, max, fit_len(h, room, max)),
{
    lemma_fit_from(h, room, max, 0);
}

/// The selected item among `total`, clamped to the last one.
pub open spec fn clamped_selection(selected: int, total: int) -> int {
    if selected < sat_sub(total, 1) {
        selected
    } else {
        sat_sub(total, 1)
    }
}

/// The first item from `f` on such that drawing what fits from there (at
/// most `max` items in `room`) reaches item `sel`; `f` itself once it has
/// reached `sel` or the end.
pub open spec fn shown_start(h: Seq<u32>, room: int, max: int, f: int, sel: int) -> int
    decreases sel - f,
{
    if f >= sel || f >= h.len() || f < 0 || sel < f + fit_len(h.skip(f), room, max) {
        f
    } else {
        shown_start(h, room, max, f + 1, sel)
    }
}

proof fn lemma_shown_start(h: Seq<u32>, room: int, max: int, f: int, sel: int)
    requires
        0 <= f <= sel < h.len(),
        h[sel] <= room,
        max >= 1,
    ensures
        f <= shown_start(h, room, max, f, sel) <= sel,
        sel < shown_start(h, room, max, f, sel) + fit_len(h.skip(shown_start(h, room, max, f, sel)), room, max),
    decreases sel - f,
{
    if sel < f + fit_len(h.skip(f), room, max) {
    } else if f == sel {
        let t = h.skip(sel);
        assert(prefix_sum(t, 1) == t[0]) by {
            lemma_prefix_step(t, 0);
        }
        lemma_fit_from(t, room, max, 1);
        assert(fit_len(t, room, max) >= 1);
    } else {
        lemma_shown_start(h, room, max, f + 1, sel);
    }
}

/// The first shown item never lies past the end.
proof fn lemma_window_start_bound(selected: int, scroll: int, visible: int, total: int)
    requires
        selected >= 0,
        scroll >= 0,
        visible >= 1,
        total >= 0,
    ensures
        0 <= window_start(selected, scroll, visible, total) <= total,
        total > 0 ==> window_start(selected, scroll, visible, total) <= clamped_selection(selected, total),
{
}

/// `h` from index `f` on.
fn tail(h: &Vec<u32>, f: usize) -> (r: Vec<u32>)
    requires
        f <= h@.len(),
    ensures
        r@ == h@.skip(f as int),
{
    let mut r: Vec<u32> = Vec::new();
    let mut i: usize = f;
    while i < h.len()
        invariant
            f <= i <= h@.len(),
            r@ == h@.subrange(f as int, i as int),
        decreases h.len() - i,
    {
        r.push(h[i]);
        i = i + 1;
    }
    assert(r@ =~= h@.skip(f as int));
    r
}

/// The fields of a section drawn in `room` rows: at most twenty fit, and
/// from the first shown field on as many are drawn as fit. The first field
/// follows `scroll` and is moved so that the selected field (clamped to the
/// last) is always among the drawn ones when it fits in `room` at all.
pub fn form_window(heights: &Vec<u32>, room: u16, selected: usize, scroll: usize) -> (r: FormWindow)
    requires
        scroll + 20 <= usize::MAX,
    ensures
        exists|k: int| {
            &&& greedy_fit(heights@, room as int, 20, k)
            &&& r.visible == if k >= 1 {
                k
            } else {
                1
            }
        },
        r.first == shown_start(
            heights@,
            room as int,
            r.visible as int,
            window_start(selected as int, scroll as int, r.visible as int, heights@.len() as int),
            clamped_selection(selected as int, heights@.len() as int),
        ),
        r.first <= heights@.len(),
        r.drawn == fit_len(heights@.skip(r.first as int), room as int, r.visible as int),
        greedy_fit(heights@.skip(r.first as int), room as int, r.visible as int, r.drawn as int),
        ({
            let sel = clamped_selection(selected as int, heights@.len() as int);
            heights@.len() > 0 && heights@[sel] <= room ==> r.first <= sel < r.first + r.drawn
        }),
{
    let k = fit_count(heights, room as u32, 20);
    assert(greedy_fit(heights@, room as int, 20, k as int));
    let visible = if k >= 1 {
        k
    } else {
        1
    };
    let len = heights.len();
    let first0 = window_offset(selected, scroll, visible, len);
    let sel: usize = if selected < len.saturating_sub(1) {
        selected
    } else {
        len.saturating_sub(1)
    };
    let ghost h = heights@;
    let ghost vis = visible as int;
    proof {
        lemma_window_start_bound(selected as int, scroll as int, vis, len as int);
    }
    let mut f = first0;
    let drawn;
    loop
        invariant_except_break
            first0 <= f <= len,
            len == h.len(),
            h == heights@,
            vis == visible,
            visible >= 1,
            sel == clamped_selection(selected as int, len as int),
            shown_start(h, room as int, vis, first0 as int, sel as int) == shown_start(
                h,
                room as int,
                vis,
                f as int,
                sel as int,
            ),
        ensures
            f <= len,
            shown_start(h, room as int, vis, first0 as int, sel as int) == f,
            drawn == fit_len(h.skip(f as int), room as int, vis),
        decreases len - f,
    {
        let rest = tail(heights, f);
        let d = fit_count(&rest, room as u32, visible);
        proof {
            lemma_fit_len(h.skip(f as int), room as int, vis);
            lemma_greedy_fit_unique(h.skip(f as int), room as int, vis, d as int, fit_len(h.skip(f as int), room as int, vis));
        }
        if f >= sel || f >= len || d > sel - f {
            drawn = d;
            break;
        }
        f = f + 1;
    }
    proof {
        lemma_fit_len(h.skip(f as int), room as int, vis);
        if len > 0 && h[sel as int] <= room {
            lemma_shown_start(h, room as int, vis, first0 as int, sel as int);
        }
    }
    FormWindow { first: f, visible, drawn }
}

/// Where a modal box of at most `width` by `height` cells goes in the area
/// at (`x`, `y`) of `w` by `h` cells: it leaves two cells of border on each
/// side and is centred, as (x, y, width, height).
pub open spec fn modal_box(x: int, y: int, w: int, h: int, width: int, height: int) -> (int, int, int, int) {
    let bw = if width < sat_sub(w, 4) {
        width
    } else {
        sat_sub(w, 4)
    };
    let bh = if height < sat_sub(h, 4) {
        height
    } else {
        sat_sub(h, 4)
    };
    (x + (w - bw) / 2, y + (h - bh) / 2, bw, bh)
}

/// The box of a modal (see `modal_box`).
pub fn modal_area(x: u16, y: u16, w: u16, h: u16, width: u16, height: u16) -> (r: (u16, u16, u16, u16))
    requires
        x + w <= u16::MAX,
        y + h <= u16::MAX,
    ensures
        (r.0 as int, r.1 as int, r.2 as int, r.3 as int) == modal_box(
            x as int,
            y as int,
            w as int,
            h as int,
            width as int,
            height as int,
        ),
{
    let room_w = w.saturating_sub(4);
    let room_h = h.saturating_sub(4);
    let bw = if width < room_w {
        width
    } else {
        room_w
    };
    let bh = if height < room_h {
        height
    } else {
        room_h
    };
    (x + (w - bw) / 2, y + (h - bh) / 2, bw, bh)
}

/// The height of the error box: its message lines (at least one), its
/// detail lines, four rows of padding and six of frame and hints, at most
/// twenty.
pub open spec fn error_box_height(message_lines: int, detail_lines: int) -> int {
    let content = (if message_lines < 1 {
        1
    } else {
        message_lines
    }) + detail_lines + 4;
    if content + 6 < 20 {
        content + 6
    } else {
        20
    }
}

/// The height of the error box (see `error_box_height`).
pub fn error_modal_height(message_lines: usize, detail_lines: usize) -> (r: u16)
    ensures
        r as int == error_box_height(message_lines as int, detail_lines as int),
{
    if message_lines >= 10 || detail_lines >= 10 {
        20
    } else {
        let m: u16 = if message_lines < 1 {
            1
        } else {
            message_lines as u16
        };
        let total = m + detail_lines as u16 + 10;
        if total < 20 {
            total
        } else {
            20
        }
    }
}

/// The title of the form panel: `"📋 <title> (Section <n>/<total>)"`, counting from 1.
pub fn form_title(title: &str, current_section: usize, total_sections: usize) -> (r: String)
    requires
        current_section < usize::MAX,
    ensures
        r@ == "📋 "@ + title@ + " (Section "@ + text::decimal((current_section + 1) as nat) + "/"@
            + text::decimal(total_sections as nat) + ")"@,
{
    let mut r = text::concat3("📋 ", title, " (Section ");
    let a = text::decimal_string(current_section + 1);
    r.append(a.as_str());
    r.append("/");
    let b = text::decimal_string(total_sections);
    r.append(b.as_str());
    r.append(")");
    r
}

/// The scroll indicator: `" <first>-<last> of <total> "`, counting from 1.
pub fn scroll_indicator(first: usize, drawn: usize, total: usize) -> (r: String)
    requires
        first + drawn < usize::MAX,
    ensures
        r@ == " "@ + text::decimal((first + 1) as nat) + "-"@ + text::decimal(
            (if first + drawn < total {
                first + drawn
            } else {
                total as int
            }) as nat,
        ) + " of "@ + text::decimal(total as nat) + " "@,
{
    let end = if first + drawn < total {
        first + drawn
    } else {
        total
    };
    let mut r = text::owned(" ");
    let a = text::decimal_string(first + 1);
    r.append(a.as_str());
    r.append("-");
    let b = text::decimal_string(end);
    r.append(b.as_str());
    r.append(" of ");
    let c = text::decimal_string(total);
    r.append(c.as_str());
    r.append(" ");
    r
}

/// The width of a section tab: its icon, a space and its title, plus four cells.
pub open spec fn tab_width(s: crate::blueprint::SectionView) -> int {
    s.icon.len() + 1 + s.title.len() + 4int
}

/// Which section tabs are shown.
pub struct TabWindow {
    pub first: usize,
    pub visible: usize,
}

/// The tabs shown in a navbar `available_width` cells wide: as many as fit
/// (at least one), scrolled from `scroll` so that the current section shows.
pub fn tab_window(sections: &Vec<Section>, available_width: u32, current: usize, scroll: usize) -> (r: TabWindow)
    requires
        scroll + sections@.len() < usize::MAX,
        forall|i: int| 0 <= i < sections@.len() ==> tab_width(#[trigger] sections@[i]@) <= u32::MAX,
    ensures
        exists|widths: Seq<u32>, k: int| {
            &&& widths.len() == sections@.len()
            &&& (forall|i: int| 0 <= i < widths.len() ==> widths[i] == tab_width(#[trigger] sections@[i]@))
            &&& greedy_fit(widths, available_width as int, usize::MAX as int, k)
            &&& r.visible == if k >= 1 {
                k
            } else {
                1
            }
        },
        r.first == window_start(current as int, scroll as int, r.visible as int, sections@.len() as int),
{
    let mut widths: Vec<u32> = Vec::new();
    let mut i: usize = 0;
    while i < sections.len()
        invariant
            i <= sections@.len(),
            widths@.len() == i,
            forall|j: int| 0 <= j < sections@.len() ==> tab_width(#[trigger] sections@[j]@) <= u32::MAX,
            forall|j: int| 0 <= j < i ==> widths@[j] == tab_width(#[trigger] sections@[j]@),
        decreases sections.len() - i,
    {
        let s = &sections[i];
        assert(tab_width(sections@[i as int]@) <= u32::MAX);
        assert(sections@[i as int]@.icon == s.icon@ && sections@[i as int]@.title == s.title@);
        let w = s.icon.as_str().unicode_len() as u64 + 1 + s.title.as_str().unicode_len() as u64 + 4;
        assert(w == tab_width(sections@[i as int]@));
        widths.push(w as u32);
        i = i + 1;
    }
    let k = fit_count(&widths, available_width, usize::MAX);
    assert(greedy_fit(widths@, available_width as int, usize::MAX as int, k as int));
    let visible = if k >= 1 {
        k
    } else {
        1
    };
    let first = window_offset(current, scroll, visible, sections.len());
    TabWindow { first, visible }
}

/// The navbar title: the blueprint name, with arrows where more tabs hide.
pub open spec fn navbar_title_of(name: Seq<char>, total: int, first: int, visible: int) -> Seq<char> {
    if total > visible {
        (if first > 0 {
            "◀ "@
        } else {
            "  "@
        }) + "📝 "@ + name + (if first + visible < total {
            " ▶"@
        } else {
            "  "@
        })
    } else {
        "📝 "@ + name
    }
}

/// The navbar title for a window of tabs.
pub fn navbar_title(name: &str, total: usize, first: usize, visible: usize) -> (r: String)
    requires
        first + visible <= usize::MAX,
    ensures
        r@ == navbar_title_of(name@, total as int, first as int, visible as int),
{
    if total > visible {
        let mut r = if first > 0 {
            text::owned("◀ ")
        } else {
            text::owned("  ")
        };
        r.append("📝 ");
        r.append(name);
        if first + visible < total {
            r.append(" ▶");
        } else {
            r.append("  ");
        }
        r
    } else {
        text::concat("📝 ", name)
    }
}

} // verus!
