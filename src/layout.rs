use vstd::prelude::*;
use vstd::string::*;

use crate::config::Config;
use crate::message::ChatMessage;
use crate::text::{align_text, aligned};

verus! {

/// Width rule of one table column.
#[derive(Clone, Copy, Debug, PartialEq, Eq, Structural)]
pub enum ColumnWidth {
    /// A fixed number of cells.
    Length(u16),
    /// A share of the available width.
    Percentage(u16),
}

/// Largest value a `u16` holds.
pub const MAX_WIDTH: u16 = 65535;

/// Title of the username column.
pub open spec fn username_title(cfg: Config) -> Seq<char> {
    aligned("Username"@, cfg.username_alignment, cfg.maximum_username_length as nat)
}

/// Titles of the message table: an optional time column, the username and
/// the message content.
pub open spec fn titles_for(cfg: Config) -> Seq<Seq<char>> {
    let base = seq![username_title(cfg), "Message content"@];
    if cfg.date_shown {
        seq!["Time"@] + base
    } else {
        base
    }
}

/// Width rules of the message table; the time column is as wide as a sample
/// timestamp of `time_width` characters, capped at the largest `u16`.
pub open spec fn widths_for(cfg: Config, time_width: nat) -> Seq<ColumnWidth> {
    let base = seq![
        ColumnWidth::Length(cfg.maximum_username_length),
        ColumnWidth::Percentage(100),
    ];
    if cfg.date_shown {
        let w: u16 = if time_width > MAX_WIDTH as nat { MAX_WIDTH } else { time_width as u16 };
        seq![ColumnWidth::Length(w)] + base
    } else {
        base
    }
}

/// The views of a sequence of strings.
pub open spec fn string_views(v: Seq<String>) -> Seq<Seq<char>> {
    v.map_values(|s: String| s@)
}

/// Computes the column titles of the message table.
pub fn column_titles(cfg: &Config) -> (r: Vec<String>)
    ensures
        string_views(r@) == titles_for(*cfg),
{
    let username = align_text("Username", cfg.username_alignment, cfg.maximum_username_length);
    let mut titles: Vec<String> = Vec::new();
    if cfg.date_shown {
        titles.push(String::from_str("Time"));
    }
    titles.push(username);
    titles.push(String::from_str("Message content"));
    assert(string_views(titles@) =~= titles_for(*cfg));
    titles
}

/// Computes the column width rules of the message table.
pub fn column_widths(cfg: &Config, time_width: usize) -> (r: Vec<ColumnWidth>)
    ensures
        r@ == widths_for(*cfg, time_width as nat),
{
    let mut widths: Vec<ColumnWidth> = Vec::new();
    if cfg.date_shown {
        let w: u16 = if time_width > MAX_WIDTH as usize { MAX_WIDTH } else { time_width as u16 };
        widths.push(ColumnWidth::Length(w));
    }
    widths.push(ColumnWidth::Length(cfg.maximum_username_length));
    widths.push(ColumnWidth::Percentage(100));
    assert(widths@ =~= widths_for(*cfg, time_width as nat));
    widths
}

/// The cells of one table row: the timestamp when the time column is shown,
/// then the author and the content.
pub open spec fn cells_for(m: ChatMessage, date_shown: bool) -> Seq<Seq<char>> {
    let base = seq![m.author@, m.content@];
    if date_shown {
        seq![m.timestamp@] + base
    } else {
        base
    }
}

/// Builds the cells of the table row that shows `m`.
pub fn message_cells(m: &ChatMessage, date_shown: bool) -> (r: Vec<String>)
    ensures
        string_views(r@) == cells_for(*m, date_shown),
{
    let mut cells: Vec<String> = Vec::new();
    if date_shown {
        cells.push(m.timestamp.clone());
    }
    cells.push(m.author.clone());
    cells.push(m.content.clone());
    assert(string_views(cells@) =~= cells_for(*m, date_shown));
    cells
}

} // verus!
