//! What the screen shows for a given state: a one-line footer of help text
//! under a main area, and in the entry modes a fixed-height entry panel above
//! the list of counters.
use crate::controller::{App, ModeModel, Sign};
use crate::field::field_value;
use crate::store::Counter;
use ratatui::layout::{Constraint, Layout, Rect};
use vstd::prelude::*;
use vstd::string::StringExecFns;

verus! {

/// A rectangle of terminal cells.
#[derive(PartialEq, Eq, Structural, Clone, Copy, Debug)]
pub struct Region {
    pub x: u16,
    pub y: u16,
    pub width: u16,
    pub height: u16,
}

/// How tall a row of a vertical split is: a fixed number of lines, or a
/// share of what the fixed rows leave.
#[derive(PartialEq, Eq, Structural, Clone, Copy, Debug)]
pub enum Extent {
    Length(u16),
    Fill(u16),
}

/// The two rows that ratatui's layout solver makes of `area`.
pub uninterp spec fn stacked(area: Region, top: Extent, bottom: Extent) -> (Region, Region);

/// One of the two splits that the screen makes: a filled main area over a
/// one-line footer, or a three-line entry panel over a filled list.
pub open spec fn screen_split(top: Extent, bottom: Extent) -> bool {
    (top == Extent::Fill(1) && bottom == Extent::Length(1)) || (top == Extent::Length(3) && bottom
        == Extent::Fill(1))
}

/// `area` cut at `rows` lines from its top: the part above and the part below.
pub open spec fn cut(area: Region, rows: int) -> (Region, Region) {
    (
        Region { x: area.x, y: area.y, width: area.width, height: rows as u16 },
        Region {
            x: area.x,
            y: (area.y + rows) as u16,
            width: area.width,
            height: (area.height - rows) as u16,
        },
    )
}

/// Relies on ratatui's `Layout::vertical(..).areas`: the two rows, top first,
/// into which the solver splits `area` under the two extents. With no margin
/// and no spacing, the rows span the area's width, and a fixed row gets its
/// length where the area is at least that tall.
#[verifier::external_body]
fn split_rows(area: Region, top: Extent, bottom: Extent) -> (r: (Region, Region))
    requires
        screen_split(top, bottom),
    ensures
        r == stacked(area, top, bottom),
        area.y + area.height <= u16::MAX ==> {
            &&& (top == Extent::Fill(1) && area.height >= 1) ==> r == cut(area, area.height - 1)
            &&& (top == Extent::Length(3) && area.height >= 3) ==> r == cut(area, 3)
        },
{
    let rect = Rect { x: area.x, y: area.y, width: area.width, height: area.height };
    let rows = [top, bottom].map(|e| match e {
        Extent::Length(n) => Constraint::Length(n),
        Extent::Fill(n) => Constraint::Fill(n),
    });
    let [a, b] = Layout::vertical(rows).areas(rect);
    let region = |r: Rect| Region { x: r.x, y: r.y, width: r.width, height: r.height };
    (region(a), region(b))
}

pub open spec fn digit_char(d: nat) -> char {
    seq!['0', '1', '2', '3', '4', '5', '6', '7', '8', '9'][d as int]
}

/// The decimal digits of `n`, most significant first, without leading zeros.
pub open spec fn digits_of(n: nat) -> Seq<char>
    decreases n,
{
    if n < 10 {
        seq![digit_char(n)]
    } else {
        digits_of(n / 10).push(digit_char(n % 10))
    }
}

/// `n` written in decimal, with a leading `-` where it is negative.
pub open spec fn decimal_text(n: int) -> Seq<char> {
    if n < 0 {
        seq!['-'] + digits_of((-n) as nat)
    } else {
        digits_of(n as nat)
    }
}

/// How a counter shows in the list: its count, a colon, and its name.
pub open spec fn line_text(c: (Seq<char>, int)) -> Seq<char> {
    decimal_text(c.1) + seq![':', ' '] + c.0
}

/// The character for one decimal digit.
fn digit_str(d: u64) -> (r: &'static str)
    requires
        d < 10,
    ensures
        r@ == seq![digit_char(d as nat)],
{
    proof {
        reveal_strlit("0");
        reveal_strlit("1");
        reveal_strlit("2");
        reveal_strlit("3");
        reveal_strlit("4");
        reveal_strlit("5");
        reveal_strlit("6");
        reveal_strlit("7");
        reveal_strlit("8");
        reveal_strlit("9");
    }
    match d {
        0 => "0",
        1 => "1",
        2 => "2",
        3 => "3",
        4 => "4",
        5 => "5",
        6 => "6",
        7 => "7",
        8 => "8",
        _ => "9",
    }
}

/// Appends the decimal digits of `m` to `s`.
fn write_digits(s: &mut String, m: u64)
    ensures
        final(s)@ == old(s)@ + digits_of(m as nat),
    decreases m,
{
    if m >= 10 {
        write_digits(s, m / 10);
    }
    s.append(digit_str(m % 10));
    proof {
        if m >= 10 {
            assert(old(s)@ + digits_of((m / 10) as nat) + seq![digit_char((m % 10) as nat)]
                =~= old(s)@ + digits_of(m as nat));
        } else {
            assert(old(s)@ + seq![digit_char(m as nat)] =~= old(s)@ + digits_of(m as nat));
        }
    }
}

/// The line for one counter: its count in decimal, then `": "`, then its name.
fn format_line(count: i64, name: &str) -> (r: String)
    ensures
        r@ == decimal_text(count as int) + seq![':', ' '] + name@,
{
    let mut s = String::new();
    if count < 0 {
        s.append("-");
        proof {
            reveal_strlit("-");
        }
        write_digits(&mut s, (-(count as i128)) as u64);
    } else {
        write_digits(&mut s, count as u64);
    }
    assert(s@ =~= decimal_text(count as int));
    s.append(": ");
    proof {
        reveal_strlit(": ");
    }
    s.append(name);
    assert(s@ =~= decimal_text(count as int) + seq![':', ' '] + name@);
    s
}

/// The help text under the main area, by mode; normal mode with no counters
/// shows only how to make one and how to leave.
pub open spec fn footer_text(mode: ModeModel, no_counters: bool) -> Seq<char> {
    match mode {
        ModeModel::Normal => if no_counters {
            "Use n to make a new counter, and q to exit."@
        } else {
            "Use ↓↑/jk to move, d to delete, ←→/l; to change the counter, n to make a new counter, and q to exit."@
        },
        ModeModel::EnteringName(_, _) => "Type a new counter name. Use enter to add and esc to return."@,
        ModeModel::EnteringAmount(_, _, Sign::Increase) =>
            "Use ↓↑/jk to move, Type numbers, then enter to add and esc to return"@,
        ModeModel::EnteringAmount(_, _, Sign::Decrease) =>
            "Use ↓↑/jk to move, Type numbers, then enter to subtract and esc to return"@,
    }
}

/// The title of the entry panel, by mode.
pub open spec fn entry_title(mode: ModeModel) -> Seq<char> {
    match mode {
        ModeModel::Normal => Seq::empty(),
        ModeModel::EnteringName(_, _) => "New Counter"@,
        ModeModel::EnteringAmount(_, _, Sign::Increase) => "Adding"@,
        ModeModel::EnteringAmount(_, _, Sign::Decrease) => "Subtracting"@,
    }
}

/// A bordered panel with a title and a body of text.
pub struct Panel {
    pub region: Region,
    pub title: String,
    pub text: String,
}

/// The list of counters, one line each, and the row to mark.
pub struct ListPanel {
    pub region: Region,
    pub title: String,
    pub lines: Vec<String>,
    pub selected: Option<usize>,
}

/// Everything that one frame shows.
pub struct Screen {
    pub list: ListPanel,
    pub entry: Option<Panel>,
    pub footer: Region,
    pub help: String,
}

/// The lines of the list, one per counter, in display order.
fn list_lines(counters: &Vec<Counter>) -> (r: Vec<String>)
    ensures
        r@.len() == counters@.len(),
        forall|i: int| 0 <= i < r@.len() ==> #[trigger] r@[i]@ == line_text(counters@[i]@),
{
    let mut lines: Vec<String> = Vec::new();
    let mut i: usize = 0;
    while i < counters.len()
        invariant
            i <= counters@.len(),
            lines@.len() == i,
            forall|k: int| 0 <= k < i ==> #[trigger] lines@[k]@ == line_text(counters@[k]@),
        decreases counters@.len() - i,
    {
        let c = &counters[i];
        lines.push(format_line(c.count, c.name.as_str()));
        i = i + 1;
    }
    lines
}

/// The help text for the footer.
fn help_text(app: &App) -> (r: String)
    ensures
        r@ == footer_text(app.view().mode, app.view().list.counters.len() == 0),
{
    let no_counters = app.list().len() == 0;
    let s: &str = match app.mode() {
        crate::controller::Mode::Normal => if no_counters {
            "Use n to make a new counter, and q to exit."
        } else {
            "Use ↓↑/jk to move, d to delete, ←→/l; to change the counter, n to make a new counter, and q to exit."
        },
        crate::controller::Mode::EnteringName(_) => "Type a new counter name. Use enter to add and esc to return.",
        crate::controller::Mode::EnteringAmount(_, Sign::Increase) =>
            "Use ↓↑/jk to move, Type numbers, then enter to add and esc to return",
        crate::controller::Mode::EnteringAmount(_, Sign::Decrease) =>
            "Use ↓↑/jk to move, Type numbers, then enter to subtract and esc to return",
    };
    s.to_owned()
}

/// Composes the frame for `app` in `area`: the footer is the bottom row of a
/// split into a filled main area and one line; in normal mode the list takes
/// the whole main area, and in the entry modes the main area is split again
/// into a three-line entry panel above the list.
pub fn compose(app: &App, area: Region) -> (r: Screen)
    requires
        app.wf(),
    ensures
        ({
            let (main, foot) = stacked(area, Extent::Fill(1), Extent::Length(1));
            let (top, rest) = stacked(main, Extent::Length(3), Extent::Fill(1));
            let counters = app.view().list.counters;
            &&& r.footer == foot
            &&& (area.y + area.height <= u16::MAX && area.height >= 1) ==> r.footer == Region {
                x: area.x,
                y: (area.y + area.height - 1) as u16,
                width: area.width,
                height: 1,
            }
            &&& r.help@ == footer_text(app.view().mode, counters.len() == 0)
            &&& r.list.title@ == "Counters"@
            &&& r.list.lines@.len() == counters.len()
            &&& forall|i: int| 0 <= i < counters.len() ==> #[trigger] r.list.lines@[i]@ == line_text(counters[i])
            &&& r.list.selected == match app.view().list.selected {
                Some(j) => Some(j as usize),
                None => None::<usize>,
            }
            &&& match app.view().mode {
                ModeModel::Normal => r.entry is None && r.list.region == main,
                ModeModel::EnteringName(t, _) => r.entry is Some && r.list.region == rest
                    && r.entry->0.region == top && r.entry->0.title@ == entry_title(app.view().mode)
                    && r.entry->0.text@ == t,
                ModeModel::EnteringAmount(t, _, _) => r.entry is Some && r.list.region == rest
                    && r.entry->0.region == top && r.entry->0.title@ == entry_title(app.view().mode)
                    && r.entry->0.text@ == t,
            }
        }),
{
    let (main, foot) = split_rows(area, Extent::Fill(1), Extent::Length(1));
    let list = app.list();
    let lines = list_lines(list.counters());
    let selected = list.selected();
    let (entry, list_region) = match app.mode() {
        crate::controller::Mode::Normal => (None, main),
        crate::controller::Mode::EnteringName(f) => {
            let (top, rest) = split_rows(main, Extent::Length(3), Extent::Fill(1));
            (Some(Panel { region: top, title: "New Counter".to_owned(), text: field_value(f) }), rest)
        },
        crate::controller::Mode::EnteringAmount(f, sign) => {
            let (top, rest) = split_rows(main, Extent::Length(3), Extent::Fill(1));
            let title: &str = match sign {
                Sign::Increase => "Adding",
                Sign::Decrease => "Subtracting",
            };
            (Some(Panel { region: top, title: title.to_owned(), text: field_value(f) }), rest)
        },
    };
    Screen {
        list: ListPanel { region: list_region, title: "Counters".to_owned(), lines, selected },
        entry,
        footer: foot,
        help: help_text(app),
    }
}

} // verus!
