//! Laying the plot area out as a CSS grid.
//!
//! Each function gives the change of the page that it stands for; the program around
//! the library carries the changes out in the browser, in order.

use vstd::prelude::*;
use crate::tdv_msg::grid::{GridElement, GridElementView, GridLayout, GridLayoutView};
use crate::text::{decimal, decimal_value, is_digit, law_decimal_writes_n, push_decimal};

verus! {

/// A change of the page.
#[derive(Debug)]
pub enum GridDomAction {
    /// Remove every child of the element `tdv_plot_area`.
    RemoveAllGrids,
    /// Delete every rule of the style sheet `tdv_style`.
    RemoveAllGridStyles,
    /// Insert these rules into the style sheet `tdv_style`, the first at position 0.
    InsertStyleRules(Vec<String>),
    /// Append to `tdv_plot_area` one empty `div` per id, with that id, in order.
    AddGrids(Vec<String>),
}

/// The style rule of the grid container for `n_columns` columns.
pub open spec fn wrapper_css(n_columns: u32) -> Seq<char> {
    "#tdv_plot_area { display: grid; grid-template-columns: repeat("@ + decimal(n_columns as nat)
        + ", 1fr); grid-template-rows: repeat(2, 1fr); grid-gap: 10px; grid-auto-rows: minmax(100px, auto); }"@
}

/// A span `start..=end` in CSS: the start alone when `end` is 0, else `start / end + 1`.
pub open spec fn span_css(start: u32, end: u32) -> Seq<char> {
    if end == 0 {
        decimal(start as nat)
    } else {
        decimal(start as nat) + " / "@ + decimal((end + 1) as nat)
    }
}

/// The style rule that places the element `e` in the grid.
pub open spec fn element_css(e: GridElementView) -> Seq<char> {
    "#"@ + e.id + " { grid-row: "@ + span_css(e.row, e.row_max) + "; grid-column: "@
        + span_css(e.col, e.col_max) + "; }"@
}

/// The ends of the element's spans can be written one past themselves.
pub open spec fn spans_fit(e: GridElementView) -> bool {
    e.row_max < u32::MAX && e.col_max < u32::MAX
}

/// Every element of the layout has spans that fit.
pub open spec fn layout_spans_fit(gl: GridLayoutView) -> bool {
    forall|i: int| 0 <= i < gl.elements.len() ==> spans_fit(#[trigger] gl.elements[i])
}

/// The style rules of a layout: the container's, then one per element in order.
pub open spec fn style_rules(gl: GridLayoutView) -> Seq<Seq<char>> {
    seq![wrapper_css(gl.columns)] + gl.elements.map_values(|e: GridElementView| element_css(e))
}

/// The ids of the layout's elements, in order.
pub open spec fn grid_ids(gl: GridLayoutView) -> Seq<Seq<char>> {
    gl.elements.map_values(|e: GridElementView| e.id)
}

/// `actions` show the layout `gl`: empty the plot area, clear the grid's styles,
/// insert the layout's style rules, and create its elements, in that order.
pub open spec fn shows_layout(actions: Seq<GridDomAction>, gl: GridLayoutView) -> bool {
    &&& actions.len() == 4
    &&& actions[0] is RemoveAllGrids
    &&& actions[1] is RemoveAllGridStyles
    &&& actions[2] matches GridDomAction::InsertStyleRules(rules) && rules.deep_view() == style_rules(gl)
    &&& actions[3] matches GridDomAction::AddGrids(ids) && ids.deep_view() == grid_ids(gl)
}

/// What the grid changes of the page: the ids of the `div`s in `tdv_plot_area`, and the
/// rules of the style sheet `tdv_style`, each in order.
pub struct Page {
    pub grids: Seq<Seq<char>>,
    pub style_rules: Seq<Seq<char>>,
}

/// The page after the change `a`. Inserting rule `i` of `rules` at position `i`, for each
/// `i` in turn, puts `rules` in front of the rules already there.
pub open spec fn apply_action(page: Page, a: GridDomAction) -> Page {
    match a {
        GridDomAction::RemoveAllGrids => Page { grids: Seq::empty(), style_rules: page.style_rules },
        GridDomAction::RemoveAllGridStyles => Page { grids: page.grids, style_rules: Seq::empty() },
        GridDomAction::InsertStyleRules(rules) => Page {
            grids: page.grids,
            style_rules: rules.deep_view() + page.style_rules,
        },
        GridDomAction::AddGrids(ids) => Page { grids: page.grids + ids.deep_view(), style_rules: page.style_rules },
    }
}

/// The page after the changes `actions`, in order.
pub open spec fn apply_actions(page: Page, actions: Seq<GridDomAction>) -> Page
    decreases actions.len(),
{
    if actions.len() == 0 {
        page
    } else {
        apply_actions(apply_action(page, actions[0]), actions.drop_first())
    }
}

/// The page that shows the layout `gl`: one `div` per element and its style rules.
pub open spec fn layout_page(gl: GridLayoutView) -> Page {
    Page { grids: grid_ids(gl), style_rules: style_rules(gl) }
}

/// Whatever the page held before, the changes of `set_grid_layout` leave exactly the layout's
/// `div`s and style rules: nothing of an earlier layout survives.
pub proof fn law_layout_replaces_page(page: Page, actions: Seq<GridDomAction>, gl: GridLayoutView)
    requires
        shows_layout(actions, gl),
    ensures
        apply_actions(page, actions) == layout_page(gl),
{
    let p1 = apply_action(page, actions[0]);
    let p2 = apply_action(p1, actions[1]);
    let p3 = apply_action(p2, actions[2]);
    let p4 = apply_action(p3, actions[3]);
    let rest1 = actions.drop_first();
    let rest2 = rest1.drop_first();
    let rest3 = rest2.drop_first();
    let rest4 = rest3.drop_first();
    assert(rest1[0] == actions[1]);
    assert(rest2[0] == actions[2]);
    assert(rest3[0] == actions[3]);
    assert(rest4.len() == 0);
    assert(apply_actions(p4, rest4) == p4);
    assert(apply_actions(p3, rest3) == p4);
    assert(apply_actions(p2, rest2) == p4);
    assert(apply_actions(p1, rest1) == p4);
    assert(p4.grids =~= grid_ids(gl));
    assert(p4.style_rules =~= style_rules(gl));
}

/// Showing a layout and then a second one, or the same one again, leaves the page as showing
/// the second alone does: no `div` or rule is doubled, and nothing of the first survives.
pub proof fn law_second_layout_wins(
    page: Page,
    first: Seq<GridDomAction>,
    gl1: GridLayoutView,
    second: Seq<GridDomAction>,
    gl2: GridLayoutView,
)
    requires
        shows_layout(first, gl1),
        shows_layout(second, gl2),
    ensures
        apply_actions(apply_actions(page, first), second) == apply_actions(page, second),
{
    law_layout_replaces_page(page, first, gl1);
    law_layout_replaces_page(apply_actions(page, first), second, gl2);
    law_layout_replaces_page(page, second, gl2);
}

/// The container rule declares exactly `n_columns` columns: it is the fixed text up to
/// `repeat(`, then a decimal numeral without a leading zero whose value is `n_columns`, then
/// the fixed text from `, 1fr)` on.
pub proof fn law_wrapper_declares_n_columns(n_columns: u32)
    ensures
        ({
            let before = "#tdv_plot_area { display: grid; grid-template-columns: repeat("@;
            let after = ", 1fr); grid-template-rows: repeat(2, 1fr); grid-gap: 10px; grid-auto-rows: minmax(100px, auto); }"@;
            let r = wrapper_css(n_columns);
            let digits = r.subrange(before.len() as int, r.len() - after.len());
            &&& r.len() > before.len() + after.len()
            &&& r.subrange(0, before.len() as int) == before
            &&& r.subrange(r.len() - after.len(), r.len() as int) == after
            &&& forall|i: int| 0 <= i < digits.len() ==> is_digit(#[trigger] digits[i])
            &&& decimal_value(digits) == n_columns
            &&& (digits[0] == '0' ==> n_columns == 0)
        }),
{
    let before = "#tdv_plot_area { display: grid; grid-template-columns: repeat("@;
    let after = ", 1fr); grid-template-rows: repeat(2, 1fr); grid-gap: 10px; grid-auto-rows: minmax(100px, auto); }"@;
    let d = decimal(n_columns as nat);
    law_decimal_writes_n(n_columns as nat);
    let r = wrapper_css(n_columns);
    assert(r == before + d + after);
    assert(r.subrange(before.len() as int, r.len() - after.len()) =~= d);
    assert(r.subrange(0, before.len() as int) =~= before);
    assert(r.subrange(r.len() - after.len(), r.len() as int) =~= after);
}

/// A span names its start line, and, when it has an end, `" / "` and the line after the end:
/// each number a decimal numeral of that value.
pub proof fn law_span_names_its_lines(start: u32, end: u32)
    requires
        end < u32::MAX,
    ensures
        ({
            let s = span_css(start, end);
            let l = decimal(start as nat).len() as int;
            &&& 0 < l <= s.len()
            &&& forall|i: int| 0 <= i < l ==> is_digit(#[trigger] s[i])
            &&& decimal_value(s.subrange(0, l)) == start
            &&& end == 0 ==> s.len() == l
            &&& end != 0 ==> {
                &&& s.subrange(l, l + 3) == seq![' ', '/', ' ']
                &&& l + 3 < s.len()
                &&& forall|i: int| l + 3 <= i < s.len() ==> is_digit(#[trigger] s[i])
                &&& decimal_value(s.subrange(l + 3, s.len() as int)) == end + 1
            }
        }),
{
    law_decimal_writes_n(start as nat);
    law_decimal_writes_n((end + 1) as nat);
    reveal_strlit(" / ");
    let s = span_css(start, end);
    let d1 = decimal(start as nat);
    let l = d1.len() as int;
    if end == 0 {
        assert(s.subrange(0, l) =~= d1);
    } else {
        let d2 = decimal((end + 1) as nat);
        assert(s == d1 + " / "@ + d2);
        assert(s.subrange(0, l) =~= d1);
        assert(s.subrange(l, l + 3) =~= seq![' ', '/', ' ']);
        assert(s.subrange(l + 3, s.len() as int) =~= d2);
        assert forall|i: int| l + 3 <= i < s.len() implies is_digit(#[trigger] s[i]) by {
            assert(s[i] == d2[i - l - 3]);
        }
    }
    assert forall|i: int| 0 <= i < l implies is_digit(#[trigger] s[i]) by {
        assert(s[i] == d1[i]);
    }
}

/// The rule of an element selects the element by its id and gives its row span, then its
/// column span.
pub proof fn law_element_rule_parts(e: GridElementView)
    ensures
        element_css(e) == seq!['#'] + e.id + " { grid-row: "@ + span_css(e.row, e.row_max)
            + "; grid-column: "@ + span_css(e.col, e.col_max) + "; }"@,
{
    reveal_strlit("#");
}

/// The rules of a layout are the container's rule for its number of columns, then one rule per
/// element, in the order of the elements; the ids are the elements' ids, in the same order.
pub proof fn law_one_rule_per_element(gl: GridLayoutView)
    ensures
        style_rules(gl).len() == gl.elements.len() + 1,
        style_rules(gl)[0] == wrapper_css(gl.columns),
        forall|i: int| 0 <= i < gl.elements.len() ==> style_rules(gl)[i + 1] == element_css(#[trigger] gl.elements[i]),
        grid_ids(gl).len() == gl.elements.len(),
        forall|i: int| 0 <= i < gl.elements.len() ==> grid_ids(gl)[i] == (#[trigger] gl.elements[i]).id,
{
}

/// The style rule of the grid container for `n_columns` columns.
pub fn wrapper(n_columns: u32) -> (r: String)
    ensures
        r@ == wrapper_css(n_columns),
{
    let mut s = String::from_str("#tdv_plot_area { display: grid; grid-template-columns: repeat(");
    push_decimal(&mut s, n_columns);
    s.append(
        ", 1fr); grid-template-rows: repeat(2, 1fr); grid-gap: 10px; grid-auto-rows: minmax(100px, auto); }",
    );
    s
}

fn push_span(s: &mut String, start: u32, end: u32)
    requires
        end < u32::MAX,
    ensures
        final(s)@ == old(s)@ + span_css(start, end),
{
    let ghost before = s@;
    push_decimal(s, start);
    if end != 0 {
        s.append(" / ");
        push_decimal(s, end + 1);
    }
    proof {
        assert(s@ =~= before + span_css(start, end));
    }
}

/// The style rule that places `e` in the grid.
pub fn element(e: &GridElement) -> (r: String)
    requires
        spans_fit(e@),
    ensures
        r@ == element_css(e@),
{
    let mut s = String::from_str("#");
    s.append(e.id().as_str());
    s.append(" { grid-row: ");
    push_span(&mut s, e.row(), e.row_max());
    s.append("; grid-column: ");
    push_span(&mut s, e.col(), e.col_max());
    s.append("; }");
    proof {
        assert(s@ =~= element_css(e@));
    }
    s
}

/// Whether every element of the layout has spans that fit.
pub fn spans_fit_all(gl: &GridLayout) -> (r: bool)
    ensures
        r == layout_spans_fit(gl@),
{
    let elements = gl.elements();
    let ghost views = elements@.map_values(|e: GridElement| e@);
    let mut i: usize = 0;
    while i < elements.len()
        invariant
            i <= elements.len(),
            views == gl@.elements,
            views == elements@.map_values(|e: GridElement| e@),
            forall|j: int| 0 <= j < i ==> spans_fit(#[trigger] views[j]),
        decreases elements.len() - i,
    {
        if elements[i].row_max() == u32::MAX || elements[i].col_max() == u32::MAX {
            assert(!spans_fit(views[i as int]));
            return false;
        }
        i = i + 1;
    }
    true
}

/// Empty the plot area.
pub fn remove_all_grids() -> (r: GridDomAction)
    ensures
        r is RemoveAllGrids,
{
    GridDomAction::RemoveAllGrids
}

/// Clear the style sheet of the grid.
pub fn remove_all_grid_styles() -> (r: GridDomAction)
    ensures
        r is RemoveAllGridStyles,
{
    GridDomAction::RemoveAllGridStyles
}

/// Insert the style rules of the layout.
pub fn add_grid_styles(gl: &GridLayout) -> (r: GridDomAction)
    requires
        layout_spans_fit(gl@),
    ensures
        r matches GridDomAction::InsertStyleRules(rules) && rules.deep_view() == style_rules(gl@),
{
    let mut rules: Vec<String> = Vec::new();
    rules.push(wrapper(gl.columns()));
    let elements = gl.elements();
    let ghost views = elements@.map_values(|e: GridElement| e@);
    let mut i: usize = 0;
    while i < elements.len()
        invariant
            i <= elements.len(),
            views == gl@.elements,
            views == elements@.map_values(|e: GridElement| e@),
            layout_spans_fit(gl@),
            rules.deep_view() =~= seq![wrapper_css(gl@.columns)] + views.take(i as int).map_values(
                |e: GridElementView| element_css(e),
            ),
        decreases elements.len() - i,
    {
        assert(spans_fit(views[i as int]));
        let rule = element(&elements[i]);
        let ghost before = rules.deep_view();
        let ghost rule_view = rule@;
        rules.push(rule);
        proof {
            assert(rules.deep_view() =~= before.push(rule_view));
            assert(views.take(i + 1) =~= views.take(i as int).push(views[i as int]));
            assert(views.take(i + 1).map_values(|e: GridElementView| element_css(e))
                =~= views.take(i as int).map_values(|e: GridElementView| element_css(e)).push(
                element_css(views[i as int]),
            ));
        }
        i = i + 1;
    }
    proof {
        assert(views.take(i as int) =~= views);
    }
    GridDomAction::InsertStyleRules(rules)
}

/// Create one `div` per element of the layout.
pub fn add_grids(gl: &GridLayout) -> (r: GridDomAction)
    ensures
        r matches GridDomAction::AddGrids(ids) && ids.deep_view() == grid_ids(gl@),
{
    let mut divs: Vec<String> = Vec::new();
    let elements = gl.elements();
    let ghost views = elements@.map_values(|e: GridElement| e@);
    let mut i: usize = 0;
    while i < elements.len()
        invariant
            i <= elements.len(),
            views == gl@.elements,
            views == elements@.map_values(|e: GridElement| e@),
            divs.deep_view() =~= views.take(i as int).map_values(|e: GridElementView| e.id),
        decreases elements.len() - i,
    {
        let id = elements[i].id().clone();
        let ghost before = divs.deep_view();
        let ghost id_view = id@;
        divs.push(id);
        proof {
            assert(divs.deep_view() =~= before.push(id_view));
            assert(views.take(i + 1) =~= views.take(i as int).push(views[i as int]));
            assert(views.take(i + 1).map_values(|e: GridElementView| e.id) =~= views.take(
                i as int,
            ).map_values(|e: GridElementView| e.id).push(views[i as int].id));
        }
        i = i + 1;
    }
    proof {
        assert(views.take(i as int) =~= views);
    }
    GridDomAction::AddGrids(divs)
}

/// The changes that show the layout `gl`: empty the plot area, clear the grid's
/// styles, insert the layout's style rules, and create its elements.
pub fn set_grid_layout(gl: &GridLayout) -> (r: Vec<GridDomAction>)
    requires
        layout_spans_fit(gl@),
    ensures
        shows_layout(r@, gl@),
{
    let mut actions: Vec<GridDomAction> = Vec::new();
    actions.push(remove_all_grids());
    actions.push(remove_all_grid_styles());
    actions.push(add_grid_styles(gl));
    actions.push(add_grids(gl));
    actions
}

} // verus!
