use vstd::prelude::*;

use crate::decimal::{decimal, numbered, numbered_string, push_decimal};
use crate::state::App;

verus! {

/// One row of the list panel: a marker, then the item's label.
pub struct ListRow {
    /// `"> "` on the selected row, two spaces on the others.
    pub marker: String,
    pub label: String,
    /// Whether the row is the selected one, drawn highlighted.
    pub highlighted: bool,
}

/// The marker in front of a row.
pub open spec fn row_marker(highlighted: bool) -> Seq<char> {
    if highlighted { "> "@ } else { "  "@ }
}

/// The rows of the list panel, one per item in list order. Only a row at the
/// selected position is highlighted, so an empty list, or a selection beyond
/// its end, gives no highlighted row.
pub fn list_rows(app: &App) -> (rows: Vec<ListRow>)
    ensures
        rows.len() == app@.items.len(),
        forall|i: int|
            0 <= i < rows.len() ==> {
                &&& (#[trigger] rows[i]).highlighted == (i == app@.selected_index)
                &&& rows[i].label@ == app@.items[i]
                &&& rows[i].marker@ == row_marker(rows[i].highlighted)
            },
{
    let items = app.items();
    let selected = app.selected_index();
    let mut rows: Vec<ListRow> = Vec::new();
    let mut i: usize = 0;
    while i < items.len()
        invariant
            items.deep_view() == app@.items,
            selected as nat == app@.selected_index,
            i <= items.len(),
            rows.len() == i,
            forall|j: int|
                0 <= j < i ==> {
                    &&& (#[trigger] rows[j]).highlighted == (j == app@.selected_index)
                    &&& rows[j].label@ == app@.items[j]
                    &&& rows[j].marker@ == row_marker(rows[j].highlighted)
                },
        decreases items.len() - i,
    {
        let highlighted = i == selected;
        let marker = if highlighted {
            String::from_str("> ")
        } else {
            String::from_str("  ")
        };
        let label = items[i].clone();
        assert(label@ == app@.items[i as int]);
        rows.push(ListRow { marker, label, highlighted });
        i = i + 1;
    }
    rows
}

/// The lines of the info panel: the counter, the selected position and the
/// number of items, each after its caption.
pub fn info_lines(app: &App) -> (lines: Vec<String>)
    ensures
        lines.deep_view() == seq![
            numbered("Counter: "@, app@.counter as nat),
            numbered("Selected: "@, app@.selected_index),
            numbered("Items: "@, app@.items.len()),
        ],
{
    let mut lines: Vec<String> = Vec::new();
    lines.push(numbered_string("Counter: ", app.counter() as usize));
    lines.push(numbered_string("Selected: ", app.selected_index()));
    lines.push(numbered_string("Items: ", app.items().len()));
    assert(lines.deep_view() =~= seq![
        numbered("Counter: "@, app@.counter as nat),
        numbered("Selected: "@, app@.selected_index),
        numbered("Items: "@, app@.items.len()),
    ]);
    lines
}

/// The largest fill of the progress gauge, in percent.
pub const GAUGE_FULL: u16 = 100;

/// The fill of the progress gauge in percent: the counter, shown full above 100.
pub open spec fn gauge_percent_spec(counter: u8) -> u16 {
    if counter <= GAUGE_FULL { counter as u16 } else { GAUGE_FULL }
}

/// Computes `gauge_percent_spec`.
pub fn gauge_percent(counter: u8) -> (r: u16)
    ensures
        r == gauge_percent_spec(counter),
{
    if (counter as u16) <= GAUGE_FULL {
        counter as u16
    } else {
        GAUGE_FULL
    }
}

/// The text on the progress gauge: its fill in percent, then `%`.
pub fn gauge_label(counter: u8) -> (r: String)
    ensures
        r@ == decimal(gauge_percent_spec(counter) as nat) + "%"@,
{
    let mut s = String::new();
    push_decimal(&mut s, gauge_percent(counter) as usize);
    s.append("%");
    s
}

} // verus!
