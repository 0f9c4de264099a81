//! The interaction controller: the input mode, and what each key press does
//! to the mode and to the counter store.
use crate::amount::{amount_of, parse_amount};
use crate::field::{
    edited, field_clone, field_cursor, field_edit, field_new, field_ok, field_reset, field_text, field_value,
};
use crate::keys::{Key, KeyCode, KeyInfo, KeyKind};
use crate::store::{adjusted, after_removal, step_next, step_previous, Counter, CounterList, ListModel};
use tui_input::Input;
use vstd::prelude::*;

verus! {

/// Whether a typed amount is added to the selected count or taken from it.
#[derive(PartialEq, Eq, Structural, Clone, Copy, Debug)]
pub enum Sign {
    Increase,
    Decrease,
}

/// The input mode: exactly one is active, and the entry modes carry their
/// text field.
pub enum Mode {
    Normal,
    EnteringName(Input),
    EnteringAmount(Input, Sign),
}

/// A mode with its text field read as the text it holds and the position of
/// its cursor.
pub enum ModeModel {
    Normal,
    EnteringName(Seq<char>, nat),
    EnteringAmount(Seq<char>, nat, Sign),
}

pub open spec fn mode_model(m: &Mode) -> ModeModel {
    match m {
        Mode::Normal => ModeModel::Normal,
        Mode::EnteringName(f) => ModeModel::EnteringName(field_text(*f), field_cursor(*f)),
        Mode::EnteringAmount(f, s) => ModeModel::EnteringAmount(field_text(*f), field_cursor(*f), *s),
    }
}

/// What the controller holds: the counters, the mode and the exit flag.
pub struct AppModel {
    pub list: ListModel,
    pub mode: ModeModel,
    pub exit: bool,
}

pub open spec fn with_list(a: AppModel, l: ListModel) -> AppModel {
    AppModel { list: l, mode: a.mode, exit: a.exit }
}

pub open spec fn with_mode(a: AppModel, m: ModeModel) -> AppModel {
    AppModel { list: a.list, mode: m, exit: a.exit }
}

pub open spec fn moved_up(l: ListModel) -> ListModel {
    ListModel { counters: l.counters, selected: step_previous(l.selected, l.counters.len() as int) }
}

pub open spec fn moved_down(l: ListModel) -> ListModel {
    ListModel { counters: l.counters, selected: step_next(l.selected, l.counters.len() as int) }
}

/// The list after `delta` was added to the selected count, where that fits.
pub open spec fn bumped(l: ListModel, delta: int) -> ListModel {
    ListModel { counters: adjusted(l.counters, l.selected, delta), selected: l.selected }
}

/// The list without its selected counter, with the selection repaired.
pub open spec fn removed(l: ListModel) -> ListModel {
    match l.selected {
        Some(i) => ListModel {
            counters: l.counters.remove(i),
            selected: after_removal(i, l.counters.len() - 1),
        },
        None => l,
    }
}

/// The signed change that the text `t` asks for, where it is an amount.
pub open spec fn signed_amount(t: Seq<char>, sign: Sign) -> Option<int> {
    match amount_of(t) {
        Some(v) => Some(if sign == Sign::Increase { v as int } else { -(v as int) }),
        None => None,
    }
}

/// What a press does in normal mode.
pub open spec fn normal_step(a: AppModel, code: KeyCode) -> AppModel {
    match code {
        KeyCode::Up | KeyCode::Char('k') => with_list(a, moved_up(a.list)),
        KeyCode::Down | KeyCode::Char('j') => with_list(a, moved_down(a.list)),
        KeyCode::Right | KeyCode::Char('l') => with_list(a, bumped(a.list, 1)),
        KeyCode::Left | KeyCode::Char(';') => with_list(a, bumped(a.list, -1)),
        KeyCode::Char('q') => AppModel { list: a.list, mode: a.mode, exit: true },
        KeyCode::Char('n') => with_mode(a, ModeModel::EnteringName(Seq::empty(), 0)),
        KeyCode::Char('d') => with_list(a, removed(a.list)),
        KeyCode::Esc => with_list(a, ListModel { counters: a.list.counters, selected: None }),
        KeyCode::Char('a') => with_mode(a, ModeModel::EnteringAmount(Seq::empty(), 0, Sign::Increase)),
        KeyCode::Char('s') => with_mode(a, ModeModel::EnteringAmount(Seq::empty(), 0, Sign::Decrease)),
        _ => a,
    }
}

/// What Enter does while entering an amount: with a selection, the typed
/// amount is applied where it is one and the sum fits; either way the text is
/// cleared and the sign kept.
pub open spec fn amount_submitted(a: AppModel, t: Seq<char>, sign: Sign) -> AppModel {
    AppModel {
        list: match (a.list.selected, signed_amount(t, sign)) {
            (Some(_), Some(d)) => bumped(a.list, d),
            _ => a.list,
        },
        mode: ModeModel::EnteringAmount(Seq::empty(), 0, sign),
        exit: a.exit,
    }
}

/// Keys handed to the text field while entering an amount: digits and the
/// cursor and deletion keys.
pub open spec fn amount_edit_key(code: KeyCode) -> bool {
    match code {
        KeyCode::Char(c) => '0' <= c && c <= '9',
        KeyCode::Left | KeyCode::Right | KeyCode::Backspace => true,
        _ => false,
    }
}

/// How the state after a key relates to the state before. Only presses act.
/// Where a key goes to the text field, the field holds what `edited` says
/// where that is known, and otherwise what the field made of it.
///
/// Enter while naming adds the counter, whatever the name (an empty one
/// included), clears the field and stays in name entry, so that several
/// counters can be named in a row; Esc returns to normal mode.
pub open spec fn key_outcome(a: AppModel, b: AppModel, k: KeyInfo) -> bool {
    let code = k.code;
    if k.kind != KeyKind::Press {
        b == a
    } else {
        match a.mode {
            ModeModel::Normal => b == normal_step(a, code),
            ModeModel::EnteringName(t, cur) => match code {
                KeyCode::Esc => b == with_mode(a, ModeModel::Normal),
                KeyCode::Enter => b == AppModel {
                    list: ListModel { counters: a.list.counters.push((t, 0int)), selected: a.list.selected },
                    mode: ModeModel::EnteringName(Seq::empty(), 0),
                    exit: a.exit,
                },
                _ => b.list == a.list && b.exit == a.exit && b.mode is EnteringName && match edited(t, cur, k) {
                    Some(p) => b.mode == ModeModel::EnteringName(p.0, p.1),
                    None => true,
                },
            },
            ModeModel::EnteringAmount(t, cur, sign) => match code {
                KeyCode::Up | KeyCode::Char('k') => b == with_list(a, moved_up(a.list)),
                KeyCode::Down | KeyCode::Char('j') => b == with_list(a, moved_down(a.list)),
                KeyCode::Esc => b == with_mode(a, ModeModel::Normal),
                KeyCode::Enter => b == amount_submitted(a, t, sign),
                KeyCode::Char('a') => b == with_mode(a, ModeModel::EnteringAmount(t, cur, Sign::Increase)),
                KeyCode::Char('s') => b == with_mode(a, ModeModel::EnteringAmount(t, cur, Sign::Decrease)),
                _ => if amount_edit_key(code) {
                    b.list == a.list && b.exit == a.exit && (b.mode matches ModeModel::EnteringAmount(_, _, s) && s == sign)
                        && match edited(t, cur, k) {
                        Some(p) => b.mode == ModeModel::EnteringAmount(p.0, p.1, sign),
                        None => true,
                    }
                } else {
                    b == a
                },
            },
        }
    }
}

/// Esc in either entry mode returns to normal mode, drops the typed text,
/// and leaves the counters, the selection and the exit flag as they were.
pub proof fn lemma_esc_leaves_entry(a: AppModel, b: AppModel, k: KeyInfo)
    requires
        !(a.mode is Normal),
        k.code == KeyCode::Esc,
        k.kind == KeyKind::Press,
        key_outcome(a, b, k),
    ensures
        b.mode == ModeModel::Normal,
        b.list == a.list,
        b.exit == a.exit,
{
}

/// Enter while naming adds exactly one counter, at zero, with the typed name,
/// after the others, and leaves the counters before it as they were.
pub proof fn lemma_name_submit_appends_one(a: AppModel, b: AppModel, t: Seq<char>, cur: nat, k: KeyInfo)
    requires
        a.mode == ModeModel::EnteringName(t, cur),
        k.code == KeyCode::Enter,
        k.kind == KeyKind::Press,
        key_outcome(a, b, k),
    ensures
        b.list.counters.len() == a.list.counters.len() + 1,
        b.list.counters.last() == (t, 0int),
        b.list.counters.take(a.list.counters.len() as int) == a.list.counters,
{
    assert(b.list.counters.take(a.list.counters.len() as int) =~= a.list.counters);
}

/// Only `q` pressed in normal mode ends the loop: no key in an entry mode
/// sets the exit flag, and in normal mode no other key does.
pub proof fn lemma_only_q_exits(a: AppModel, b: AppModel, k: KeyInfo)
    requires
        key_outcome(a, b, k),
    ensures
        !(a.mode is Normal) ==> b.exit == a.exit,
        (!a.exit && b.exit) ==> (a.mode is Normal && k.kind == KeyKind::Press && k.code == KeyCode::Char('q')),
{
}

/// Every count is an `i64`, the selection designates an existing counter,
/// if any, and an entry field's cursor stands within its text.
pub open spec fn app_wf(a: AppModel) -> bool {
    &&& forall|i: int| 0 <= i < a.list.counters.len() ==> i64::MIN <= #[trigger] a.list.counters[i].1 <= i64::MAX
    &&& match a.list.selected {
        Some(i) => 0 <= i < a.list.counters.len(),
        None => true,
    }
    &&& match a.mode {
        ModeModel::Normal => true,
        ModeModel::EnteringName(t, cur) => cur <= t.len(),
        ModeModel::EnteringAmount(t, cur, _) => cur <= t.len(),
    }
}

/// Pressing Right and then Left in normal mode gives back the counts and the
/// selection that the list had, where the selected count is below `i64::MAX`.
pub proof fn lemma_bump_round_trip(a: AppModel, b: AppModel, c: AppModel, p: KeyInfo, q: KeyInfo)
    requires
        app_wf(a),
        a.mode == ModeModel::Normal,
        a.list.selected is Some,
        a.list.counters[a.list.selected->0].1 < i64::MAX,
        p.code == KeyCode::Right,
        p.kind == KeyKind::Press,
        q.code == KeyCode::Left,
        q.kind == KeyKind::Press,
        key_outcome(a, b, p),
        key_outcome(b, c, q),
    ensures
        c.list == a.list,
        c.mode == ModeModel::Normal,
{
    let i = a.list.selected->0;
    assert(b.list.counters[i].1 == a.list.counters[i].1 + 1);
    assert(c.list.counters =~= a.list.counters);
}

/// The controller: the counter store, the input mode, and whether the loop
/// should end.
pub struct App {
    list: CounterList,
    mode: Mode,
    should_exit: bool,
}

impl App {
    pub closed spec fn view(&self) -> AppModel {
        AppModel { list: self.list.view(), mode: mode_model(&self.mode), exit: self.should_exit }
    }

    /// Every count is an `i64`, the selection designates an existing
    /// counter, if any, and an entry field's cursor stands within its text.
    pub open spec fn wf(&self) -> bool {
        &&& app_wf(self.view())
    }

    /// An empty list in normal mode.
    pub fn new() -> (r: App)
        ensures
            r.wf(),
            r.view().list.counters == Seq::<(Seq<char>, int)>::empty(),
            r.view().list.selected is None,
            r.view().mode == ModeModel::Normal,
            !r.view().exit,
    {
        App { list: CounterList::new(), mode: Mode::Normal, should_exit: false }
    }

    /// The given counters in normal mode, with nothing selected.
    pub fn with_counters(counters: Vec<Counter>) -> (r: App)
        ensures
            r.wf(),
            r.view().list.counters == counters@.map_values(|c: Counter| c@),
            r.view().list.selected is None,
            r.view().mode == ModeModel::Normal,
            !r.view().exit,
    {
        App { list: CounterList::from_counters(counters), mode: Mode::Normal, should_exit: false }
    }

    /// The counter store.
    pub fn list(&self) -> (r: &CounterList)
        ensures
            r.view() == self.view().list,
            self.wf() ==> r.wf(),
    {
        &self.list
    }

    /// The input mode.
    pub fn mode(&self) -> (r: &Mode)
        ensures
            mode_model(r) == self.view().mode,
    {
        &self.mode
    }

    /// Whether the loop should end.
    pub fn should_exit(&self) -> (r: bool)
        ensures
            r == self.view().exit,
    {
        self.should_exit
    }

    /// The text of the active entry field, if an entry mode is active.
    pub fn entry_text(&self) -> (r: Option<String>)
        ensures
            match self.view().mode {
                ModeModel::Normal => r is None,
                ModeModel::EnteringName(t, _) => r is Some && r->0@ == t,
                ModeModel::EnteringAmount(t, _, _) => r is Some && r->0@ == t,
            },
    {
        match &self.mode {
            Mode::Normal => None,
            Mode::EnteringName(f) => Some(field_value(f)),
            Mode::EnteringAmount(f, _) => Some(field_value(f)),
        }
    }

    /// Dispatches one key event. Only presses act; what a press does depends
    /// on the mode, as `key_outcome` states.
    pub fn handle_key(&mut self, key: &Key)
        requires
            old(self).wf(),
        ensures
            final(self).wf(),
            key_outcome(old(self).view(), final(self).view(), key.view()),
    {
        let k = key.info();
        if !(k.kind == KeyKind::Press) {
            return;
        }
        let mut mode = Mode::Normal;
        std::mem::swap(&mut mode, &mut self.mode);
        match mode {
            Mode::Normal => self.normal_key(k.code),
            Mode::EnteringName(mut f) => match k.code {
                KeyCode::Esc => {},
                KeyCode::Enter => {
                    let name = field_value(&f);
                    self.list.append(name.as_str());
                    field_reset(&mut f);
                    self.mode = Mode::EnteringName(f);
                },
                _ => {
                    field_edit(&mut f, key.event());
                    self.mode = Mode::EnteringName(f);
                },
            },
            Mode::EnteringAmount(mut f, sign) => {
                let ghost t = field_text(f);
                match k.code {
                    KeyCode::Up | KeyCode::Char('k') => {
                        self.list.select_previous();
                        self.mode = Mode::EnteringAmount(f, sign);
                    },
                    KeyCode::Down | KeyCode::Char('j') => {
                        self.list.select_next();
                        self.mode = Mode::EnteringAmount(f, sign);
                    },
                    KeyCode::Esc => {},
                    KeyCode::Enter => {
                        self.submit_amount(&mut f, sign);
                        self.mode = Mode::EnteringAmount(f, sign);
                    },
                    KeyCode::Char('a') => {
                        let g = field_clone(&f);
                        self.mode = Mode::EnteringAmount(g, Sign::Increase);
                    },
                    KeyCode::Char('s') => {
                        let g = field_clone(&f);
                        self.mode = Mode::EnteringAmount(g, Sign::Decrease);
                    },
                    KeyCode::Char(c) => {
                        if '0' <= c && c <= '9' {
                            field_edit(&mut f, key.event());
                        }
                        self.mode = Mode::EnteringAmount(f, sign);
                    },
                    KeyCode::Left | KeyCode::Right | KeyCode::Backspace => {
                        field_edit(&mut f, key.event());
                        self.mode = Mode::EnteringAmount(f, sign);
                    },
                    _ => {
                        self.mode = Mode::EnteringAmount(f, sign);
                    },
                }
            },
        }
    }

    fn normal_key(&mut self, code: KeyCode)
        requires
            old(self).wf(),
            old(self).mode is Normal,
        ensures
            final(self).wf(),
            final(self).view() == normal_step(old(self).view(), code),
    {
        match code {
            KeyCode::Up | KeyCode::Char('k') => self.list.select_previous(),
            KeyCode::Down | KeyCode::Char('j') => self.list.select_next(),
            KeyCode::Right | KeyCode::Char('l') => {
                let sel = self.list.selected();
                self.list.adjust(sel, 1);
            },
            KeyCode::Left | KeyCode::Char(';') => {
                let sel = self.list.selected();
                self.list.adjust(sel, -1);
            },
            KeyCode::Char('q') => self.should_exit = true,
            KeyCode::Char('n') => self.mode = Mode::EnteringName(field_new()),
            KeyCode::Char('d') => self.list.remove_selected(),
            KeyCode::Esc => self.list.clear_selection(),
            KeyCode::Char('a') => self.mode = Mode::EnteringAmount(field_new(), Sign::Increase),
            KeyCode::Char('s') => self.mode = Mode::EnteringAmount(field_new(), Sign::Decrease),
            _ => {},
        }
    }

    fn submit_amount(&mut self, f: &mut Input, sign: Sign)
        requires
            old(self).wf(),
        ensures
            final(self).wf(),
            final(self).mode == old(self).mode,
            final(self).should_exit == old(self).should_exit,
            field_text(*final(f)) == Seq::<char>::empty(),
            field_cursor(*final(f)) == 0,
            final(self).list.view() == match (old(self).list.view().selected, signed_amount(field_text(*old(f)), sign)) {
                (Some(_), Some(d)) => bumped(old(self).list.view(), d),
                _ => old(self).list.view(),
            },
    {
        let sel = self.list.selected();
        if sel.is_some() {
            let text = field_value(f);
            match parse_amount(text.as_str()) {
                Some(v) => {
                    let delta: i128 = if sign == Sign::Increase { v as i128 } else { -(v as i128) };
                    self.list.adjust(sel, delta);
                },
                None => {},
            }
        }
        field_reset(f);
    }
}

} // verus!
