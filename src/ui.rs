//! The conversation model: an ordered set of tabs, each with an input buffer
//! and a history of lines, and the user-interface state around it.
use vstd::prelude::*;
use std::collections::VecDeque;
use crate::client::{client_index_from, client_views, find_client, Client, ClientView, QueueError, ServInfo};
use crate::command::{interpret, parse_input, Cmd, CmdSpec};
use crate::config::Config;
use crate::protocol::{encoding, target_name, ClientCmdView, MsgTarget, TargetView};
use crate::text::views;

verus! {

/// Identifies a tab: the diagnostic tab, a server, a channel or a private query.
#[derive(Debug)]
pub enum TabKind {
    Debug,
    Serv { serv: String },
    Chan { serv: String, chan: String },
    Query { serv: String, nick: String },
}

pub enum TabId {
    Debug,
    Serv(Seq<char>),
    Chan(Seq<char>, Seq<char>),
    Query(Seq<char>, Seq<char>),
}

impl View for TabKind {
    type V = TabId;

    open spec fn view(&self) -> TabId {
        match self {
            TabKind::Debug => TabId::Debug,
            TabKind::Serv { serv } => TabId::Serv(serv@),
            TabKind::Chan { serv, chan } => TabId::Chan(serv@, chan@),
            TabKind::Query { serv, nick } => TabId::Query(serv@, nick@),
        }
    }
}

impl PartialEq for TabKind {
    fn eq(&self, o: &TabKind) -> (r: bool) {
        match self {
            TabKind::Debug => matches!(o, TabKind::Debug),
            TabKind::Serv { serv: a } => match o {
                TabKind::Serv { serv: b } => same(a, b),
                _ => false,
            },
            TabKind::Chan { serv: a, chan: c } => match o {
                TabKind::Chan { serv: b, chan: d } => same(a, b) && same(c, d),
                _ => false,
            },
            TabKind::Query { serv: a, nick: c } => match o {
                TabKind::Query { serv: b, nick: d } => same(a, b) && same(c, d),
                _ => false,
            },
        }
    }
}

fn same(a: &String, b: &String) -> (r: bool)
    ensures
        r == (a@ == b@),
{
    *a == *b
}

impl vstd::std_specs::cmp::PartialEqSpecImpl for TabKind {
    open spec fn obeys_eq_spec() -> bool {
        true
    }

    open spec fn eq_spec(&self, o: &TabKind) -> bool {
        self@ == o@
    }
}

/// The text shown for a tab in the tab bar.
pub open spec fn label_of(id: TabId) -> Seq<char> {
    match id {
        TabId::Debug => "__debug__"@,
        TabId::Serv(serv) => serv,
        TabId::Chan(_, chan) => chan,
        TabId::Query(_, nick) => nick,
    }
}

impl TabKind {
    /// The text shown for this tab in the tab bar.
    pub fn label(&self) -> (r: String)
        ensures
            r@ == label_of(self@),
    {
        match self {
            TabKind::Debug => String::from_str("__debug__"),
            TabKind::Serv { serv } => serv.clone(),
            TabKind::Chan { chan, .. } => chan.clone(),
            TabKind::Query { nick, .. } => nick.clone(),
        }
    }
}

/// One conversation context.
pub struct Tab {
    /// Identifier for the tab
    pub id: TabKind,
    /// Content of the input buffer associated with this tab
    pub input: String,
    /// Lines of output associated with this tab
    pub lines: VecDeque<String>,
}

pub struct TabView {
    pub id: TabId,
    pub input: Seq<char>,
    pub lines: Seq<Seq<char>>,
}

impl View for Tab {
    type V = TabView;

    open spec fn view(&self) -> TabView {
        TabView { id: self.id@, input: self.input@, lines: views(self.lines@) }
    }
}

impl Tab {
    pub fn new(id: TabKind) -> (r: Tab)
        ensures
            r@ == (TabView { id: id@, input: seq![], lines: seq![] }),
    {
        let r = Tab { id, input: String::new(), lines: VecDeque::new() };
        assert(views(r.lines@) =~= seq![]);
        r
    }

    pub fn add_line(&mut self, line: String)
        ensures
            final(self)@ == (TabView { lines: old(self)@.lines.push(line@), ..old(self)@ }),
    {
        self.lines.push_back(line);
        assert(views(self.lines@) =~= views(old(self).lines@).push(line@));
    }
}


pub struct ModelView {
    pub cur_tab: int,
    pub tabs: Seq<TabView>,
}

/// The model's invariant: the diagnostic tab comes first, the current index
/// is valid, and no two tabs share an id.
pub open spec fn model_wf(m: ModelView) -> bool {
    &&& m.tabs.len() > 0
    &&& 0 <= m.cur_tab < m.tabs.len()
    &&& m.tabs[0].id == TabId::Debug
    &&& forall|i: int, j: int|
        0 <= i < j < m.tabs.len() ==> #[trigger] m.tabs[i].id != #[trigger] m.tabs[j].id
}

/// The index of the first tab at or after `k` with the given id, or -1.
pub open spec fn tab_index_from(tabs: Seq<TabView>, id: TabId, k: int) -> int
    decreases tabs.len() - k,
{
    if 0 <= k < tabs.len() {
        if tabs[k].id == id {
            k
        } else {
            tab_index_from(tabs, id, k + 1)
        }
    } else {
        -1
    }
}

/// The index of the tab with the given id, or -1.
pub open spec fn tab_index(tabs: Seq<TabView>, id: TabId) -> int {
    tab_index_from(tabs, id, 0)
}

/// The model with `line` appended to the history of tab `k`.
pub open spec fn with_line(m: ModelView, k: int, line: Seq<char>) -> ModelView {
    ModelView {
        tabs: m.tabs.update(k, TabView { lines: m.tabs[k].lines.push(line), ..m.tabs[k] }),
        ..m
    }
}

/// The tab that a message target on server `serv` belongs in.
pub open spec fn target_tab(serv: Seq<char>, t: TargetView) -> TabId {
    match t {
        TargetView::Chan(chan) => TabId::Chan(serv, chan),
        TargetView::User(nick) => TabId::Query(serv, nick),
        TargetView::Serv(name) => TabId::Serv(name),
    }
}

/// A target as the diagnostic tab shows it, such as `Chan("#rust")`.
pub open spec fn target_text(t: TargetView) -> Seq<char> {
    match t {
        TargetView::Chan(s) => "Chan(\""@ + s + "\")"@,
        TargetView::User(s) => "User(\""@ + s + "\")"@,
        TargetView::Serv(s) => "Serv(\""@ + s + "\")"@,
    }
}

/// The diagnostic line for a message whose tab does not exist.
pub open spec fn miss_text(serv: Seq<char>, t: TargetView, msg: Seq<char>) -> Seq<char> {
    "["@ + serv + "] No tab found "@ + target_text(t) + " ("@ + msg + ")"@
}

/// Routing: the line goes to the target's tab; when there is none, one
/// diagnostic line goes to the first tab instead.
pub open spec fn routed(m: ModelView, serv: Seq<char>, t: TargetView, msg: Seq<char>) -> ModelView {
    let k = tab_index(m.tabs, target_tab(serv, t));
    if k >= 0 {
        with_line(m, k, msg)
    } else {
        with_line(m, 0, miss_text(serv, t, msg))
    }
}

/// The model with a fresh tab appended.
pub open spec fn with_tab(m: ModelView, id: TabId) -> ModelView {
    ModelView { tabs: m.tabs.push(TabView { id, input: seq![], lines: seq![] }), ..m }
}

/// The model with the current tab's input buffer replaced.
pub open spec fn with_input(m: ModelView, input: Seq<char>) -> ModelView {
    ModelView {
        tabs: m.tabs.update(m.cur_tab, TabView { input, ..m.tabs[m.cur_tab] }),
        ..m
    }
}

/// The current tab's input buffer.
pub open spec fn cur_input(m: ModelView) -> Seq<char> {
    m.tabs[m.cur_tab].input
}

proof fn lemma_tab_index_from(tabs: Seq<TabView>, id: TabId, k: int)
    requires
        0 <= k <= tabs.len(),
    ensures
        tab_index_from(tabs, id, k) == -1 || (k <= tab_index_from(tabs, id, k) < tabs.len()
            && tabs[tab_index_from(tabs, id, k)].id == id),
        tab_index_from(tabs, id, k) == -1 ==> forall|j: int|
            k <= j < tabs.len() ==> #[trigger] tabs[j].id != id,
    decreases tabs.len() - k,
{
    if k < tabs.len() && tabs[k].id != id {
        lemma_tab_index_from(tabs, id, k + 1);
    }
}

/// `tab_index` finds the tab with the id when there is one, and says -1 only
/// when there is none.
pub proof fn lemma_tab_index(tabs: Seq<TabView>, id: TabId)
    ensures
        tab_index(tabs, id) == -1 || (0 <= tab_index(tabs, id) < tabs.len() && tabs[tab_index(
            tabs,
            id,
        )].id == id),
        tab_index(tabs, id) == -1 <==> forall|j: int| 0 <= j < tabs.len() ==> #[trigger] tabs[j].id != id,
{
    lemma_tab_index_from(tabs, id, 0);
}

/// The model after one advance to the next tab, wrapping after the last.
pub open spec fn advanced(m: ModelView) -> ModelView {
    ModelView { cur_tab: (m.cur_tab + 1) % (m.tabs.len() as int), ..m }
}

/// The model after `k` advances.
pub open spec fn advanced_n(m: ModelView, k: nat) -> ModelView
    decreases k,
{
    if k == 0 {
        m
    } else {
        advanced(advanced_n(m, (k - 1) as nat))
    }
}

proof fn lemma_advanced_n(m: ModelView, k: nat)
    requires
        model_wf(m),
    ensures
        advanced_n(m, k) == (ModelView { cur_tab: (m.cur_tab + k) % (m.tabs.len() as int), ..m }),
    decreases k,
{
    let n = m.tabs.len() as int;
    if k == 0 {
        vstd::arithmetic::div_mod::lemma_small_mod(m.cur_tab as nat, n as nat);
    } else {
        lemma_advanced_n(m, (k - 1) as nat);
        vstd::arithmetic::div_mod::lemma_add_mod_noop_right(1, m.cur_tab + k - 1, n);
    }
}

/// Advancing through the tabs as many times as there are tabs comes back to
/// the tab one started from, and a single advance always moves to another tab
/// when there is more than one.
pub proof fn lemma_tab_cycle(m: ModelView)
    requires
        model_wf(m),
    ensures
        advanced_n(m, m.tabs.len()) == m,
        m.tabs.len() > 1 ==> advanced(m).cur_tab != m.cur_tab,
{
    let n = m.tabs.len() as int;
    lemma_advanced_n(m, m.tabs.len());
    vstd::arithmetic::div_mod::lemma_mod_add_multiples_vanish(m.cur_tab, n);
    vstd::arithmetic::div_mod::lemma_small_mod(m.cur_tab as nat, n as nat);
    if m.cur_tab + 1 < n {
        vstd::arithmetic::div_mod::lemma_small_mod((m.cur_tab + 1) as nat, n as nat);
    } else {
        vstd::arithmetic::div_mod::lemma_mod_self_0(n);
    }
}

/// The conversation model.
pub struct InnerUI {
    cur_tab: usize,
    tabs: Vec<Tab>,
}

impl View for InnerUI {
    type V = ModelView;

    closed spec fn view(&self) -> ModelView {
        ModelView { cur_tab: self.cur_tab as int, tabs: self.tabs@.map_values(|t: Tab| t@) }
    }
}

impl InnerUI {
    /// The model's invariant holds.
    pub open spec fn wf(&self) -> bool {
        model_wf(self@)
    }

    /// A model with the diagnostic tab alone.
    pub fn new() -> (r: InnerUI)
        ensures
            r.wf(),
            r@ == (ModelView {
                cur_tab: 0,
                tabs: seq![TabView { id: TabId::Debug, input: seq![], lines: seq![] }],
            }),
    {
        let mut tabs: Vec<Tab> = Vec::new();
        tabs.push(Tab::new(TabKind::Debug));
        let r = InnerUI { cur_tab: 0, tabs };
        assert(r@.tabs =~= seq![TabView { id: TabId::Debug, input: seq![], lines: seq![] }]);
        r
    }

    /// The tabs, in order.
    pub fn tabs(&self) -> (r: &Vec<Tab>)
        ensures
            r@.map_values(|t: Tab| t@) == self@.tabs,
    {
        &self.tabs
    }

    /// The index of the current tab.
    pub fn cur_tab(&self) -> (r: usize)
        ensures
            r == self@.cur_tab,
    {
        self.cur_tab
    }

    /// Appends a line to the history of tab `k`.
    fn add_line_at(&mut self, k: usize, line: String)
        requires
            old(self).wf(),
            k < old(self)@.tabs.len(),
        ensures
            final(self).wf(),
            final(self)@ == with_line(old(self)@, k as int, line@),
    {
        let ghost m = self@;
        let mut tab = self.tabs.remove(k);
        tab.add_line(line);
        self.tabs.insert(k, tab);
        assert(self@.tabs =~= with_line(m, k as int, line@).tabs);
    }

    pub fn dbg(&mut self, msg: &str)
        requires
            old(self).wf(),
        ensures
            final(self).wf(),
            final(self)@ == with_line(old(self)@, 0, msg@),
    {
        self.add_line_at(0, String::from_str(msg));
    }

    fn tab_position(&self, id: &TabKind) -> (r: Option<usize>)
        ensures
            tab_index(self@.tabs, id@) == -1 ==> r is None,
            tab_index(self@.tabs, id@) != -1 ==> r is Some && r->0 as int == tab_index(
                self@.tabs,
                id@,
            ),
    {
        let mut k: usize = 0;
        while k < self.tabs.len()
            invariant
                k <= self.tabs.len(),
                tab_index_from(self@.tabs, id@, k as int) == tab_index(self@.tabs, id@),
            decreases self.tabs.len() - k,
        {
            if self.tabs[k].id == *id {
                return Some(k);
            }
            k = k + 1;
        }
        None
    }

    /// Appends `msg` to the tab of `target` on server `serv_name`, or a
    /// diagnostic line to the first tab when that tab does not exist.
    pub fn add_msg(&mut self, serv_name: &str, target: MsgTarget, msg: &str)
        requires
            old(self).wf(),
        ensures
            final(self).wf(),
            final(self)@ == routed(old(self)@, serv_name@, target@, msg@),
    {
        let tab_id = match &target {
            MsgTarget::Chan(chan) => TabKind::Chan {
                serv: String::from_str(serv_name),
                chan: chan.clone(),
            },
            MsgTarget::User(nick) => TabKind::Query {
                serv: String::from_str(serv_name),
                nick: nick.clone(),
            },
            MsgTarget::Serv(serv) => TabKind::Serv { serv: serv.clone() },
        };
        proof {
            lemma_tab_index(self@.tabs, tab_id@);
        }
        match self.tab_position(&tab_id) {
            Some(k) => self.add_line_at(k, String::from_str(msg)),
            None => {
                let line = miss_line(serv_name, &target, msg);
                self.add_line_at(0, line);
            },
        }
    }

    /// Appends a tab; the id must not be taken.
    pub fn add_tab(&mut self, id: TabKind)
        requires
            old(self).wf(),
            tab_index(old(self)@.tabs, id@) == -1,
        ensures
            final(self).wf(),
            final(self)@ == with_tab(old(self)@, id@),
    {
        proof {
            lemma_tab_index(self@.tabs, id@);
        }
        let ghost m = self@;
        self.tabs.push(Tab::new(id));
        assert(self@.tabs =~= with_tab(m, id@).tabs);
    }

    /// Makes the tab with the given id current; false when there is none.
    pub fn change_to_tab(&mut self, id: &TabKind) -> (r: bool)
        requires
            old(self).wf(),
        ensures
            final(self).wf(),
            r == (tab_index(old(self)@.tabs, id@) != -1),
            r ==> final(self)@ == (ModelView {
                cur_tab: tab_index(old(self)@.tabs, id@),
                ..old(self)@
            }),
            !r ==> final(self)@ == old(self)@,
    {
        proof {
            lemma_tab_index(self@.tabs, id@);
        }
        let ghost m = self@;
        if let Some(pos) = self.tab_position(id) {
            self.cur_tab = pos;
            assert(self@.tabs == m.tabs);
            true
        } else {
            false
        }
    }

    /// Advances to the next tab, wrapping around after the last.
    pub fn next_tab(&mut self)
        requires
            old(self).wf(),
        ensures
            final(self).wf(),
            final(self)@ == advanced(old(self)@),
    {
        let n = self.tabs.len();
        assert(n == self@.tabs.len());
        self.cur_tab = (self.cur_tab + 1) % n;
    }

    /// Appends a character to the current tab's input buffer.
    pub fn push_input(&mut self, c: char)
        requires
            old(self).wf(),
        ensures
            final(self).wf(),
            final(self)@ == with_input(old(self)@, cur_input(old(self)@).push(c)),
    {
        let ghost m = self@;
        let k = self.cur_tab;
        let mut tab = self.tabs.remove(k);
        tab.input.push(c);
        self.tabs.insert(k, tab);
        assert(self@.tabs =~= with_input(m, cur_input(m).push(c)).tabs);
    }

    /// Removes the last character of the current tab's input buffer, if any.
    pub fn pop_input(&mut self)
        requires
            old(self).wf(),
        ensures
            final(self).wf(),
            cur_input(old(self)@).len() == 0 ==> final(self)@ == old(self)@,
            cur_input(old(self)@).len() > 0 ==> final(self)@ == with_input(
                old(self)@,
                cur_input(old(self)@).drop_last(),
            ),
    {
        let ghost m = self@;
        let k = self.cur_tab;
        let mut tab = self.tabs.remove(k);
        let _ = tab.input.pop();
        self.tabs.insert(k, tab);
        proof {
            if cur_input(m).len() == 0 {
                assert(self@.tabs =~= m.tabs);
            } else {
                assert(self@.tabs =~= with_input(m, cur_input(m).drop_last()).tabs);
            }
        }
    }

    /// Empties the current tab's input buffer and returns what it held.
    pub fn take_input(&mut self) -> (r: String)
        requires
            old(self).wf(),
        ensures
            final(self).wf(),
            r@ == cur_input(old(self)@),
            final(self)@ == with_input(old(self)@, seq![]),
    {
        let ghost m = self@;
        let k = self.cur_tab;
        let mut tab = self.tabs.remove(k);
        let mut taken = String::new();
        std::mem::swap(&mut taken, &mut tab.input);
        self.tabs.insert(k, tab);
        assert(self@.tabs =~= with_input(m, seq![]).tabs);
        taken
    }
}


/// A target as the diagnostic tab shows it.
fn target_string(t: &MsgTarget) -> (r: String)
    ensures
        r@ == target_text(t@),
{
    let (mut r, name) = match t {
        MsgTarget::Chan(s) => (String::from_str("Chan(\""), s),
        MsgTarget::User(s) => (String::from_str("User(\""), s),
        MsgTarget::Serv(s) => (String::from_str("Serv(\""), s),
    };
    r.append(name.as_str());
    r.append("\")");
    r
}

fn miss_line(serv: &str, t: &MsgTarget, msg: &str) -> (r: String)
    ensures
        r@ == miss_text(serv@, t@, msg@),
{
    let mut r = String::from_str("[");
    r.append(serv);
    r.append("] No tab found ");
    let ts = target_string(t);
    r.append(ts.as_str());
    r.append(" (");
    r.append(msg);
    r.append(")");
    r
}


/// A key press, as the input task reports it.
#[derive(Debug, Clone, Copy, PartialEq, Eq)]
pub enum Key {
    Esc,
    Char(char),
    Enter,
    Backspace,
    Tab,
    Other,
}

/// What the caller must do after a key press.
#[derive(Debug)]
pub enum KeyOutcome {
    Continue,
    /// Leave the program.
    Exit,
    /// Start a session with these parameters, and keep its client.
    Connect(ServInfo),
}

/// The user-interface state: the conversation model and the identity used
/// for new connections.
pub struct UI {
    inner: InnerUI,
    config: Config,
}

impl View for UI {
    type V = ModelView;

    closed spec fn view(&self) -> ModelView {
        self.inner@
    }
}

impl UI {
    /// The model's invariant holds.
    pub closed spec fn wf(&self) -> bool {
        self.inner.wf()
    }

    /// The model's invariant, in terms of the view.
    pub proof fn lemma_wf(&self)
        requires
            self.wf(),
        ensures
            model_wf(self@),
    {
    }

    pub fn new(config: Config) -> (r: UI)
        ensures
            r.wf(),
            r@ == (ModelView {
                cur_tab: 0,
                tabs: seq![TabView { id: TabId::Debug, input: seq![], lines: seq![] }],
            }),
            r.identity() == config,
    {
        UI { inner: InnerUI::new(), config }
    }

    /// The conversation model, for display.
    pub fn model(&self) -> (r: &InnerUI)
        ensures
            r@ == self@,
    {
        &self.inner
    }

    /// The identity used for new connections.
    pub closed spec fn identity(&self) -> Config {
        self.config
    }

    /// The identity used for new connections.
    pub fn config(&self) -> (r: &Config)
        ensures
            *r == self.identity(),
    {
        &self.config
    }

    /// Appends a line to the diagnostic tab.
    pub fn dbg(&mut self, msg: &str)
        requires
            old(self).wf(),
        ensures
            final(self).wf(),
            final(self)@ == with_line(old(self)@, 0, msg@),
    {
        self.inner.dbg(msg);
    }

    pub fn add_msg(&mut self, serv_name: &str, target: MsgTarget, msg: &str)
        requires
            old(self).wf(),
        ensures
            final(self).wf(),
            final(self)@ == routed(old(self)@, serv_name@, target@, msg@),
    {
        self.inner.add_msg(serv_name, target, msg);
    }

    /// Appends a line to the server tab of `serv_name`.
    pub fn add_serv_msg(&mut self, serv_name: &str, msg: &str)
        requires
            old(self).wf(),
        ensures
            final(self).wf(),
            final(self)@ == routed(old(self)@, serv_name@, TargetView::Serv(serv_name@), msg@),
    {
        self.add_msg(serv_name, MsgTarget::Serv(String::from_str(serv_name)), msg);
    }

    pub fn add_tab(&mut self, id: TabKind)
        requires
            old(self).wf(),
            tab_index(old(self)@.tabs, id@) == -1,
        ensures
            final(self).wf(),
            final(self)@ == with_tab(old(self)@, id@),
    {
        self.inner.add_tab(id);
    }

    /// The current tab.
    pub fn current_tab(&self) -> (r: &Tab)
        requires
            self.wf(),
        ensures
            r@ == self@.tabs[self@.cur_tab],
    {
        let k = self.inner.cur_tab();
        let tabs = self.inner.tabs();
        assert(tabs@.map_values(|t: Tab| t@)[k as int] == tabs@[k as int]@);
        &tabs[k]
    }

    pub fn next_tab(&mut self)
        requires
            old(self).wf(),
        ensures
            final(self).wf(),
            final(self)@ == advanced(old(self)@),
    {
        self.inner.next_tab();
    }

    /// Makes the tab with the given id current, or notes on the diagnostic
    /// tab that there is none.
    pub fn change_to_tab(&mut self, id: &TabKind)
        requires
            old(self).wf(),
        ensures
            final(self).wf(),
            tab_index(old(self)@.tabs, id@) != -1 ==> final(self)@ == (ModelView {
                cur_tab: tab_index(old(self)@.tabs, id@),
                ..old(self)@
            }),
            tab_index(old(self)@.tabs, id@) == -1 ==> final(self)@ == with_line(
                old(self)@,
                0,
                "change_to_tab: No tab found for "@ + label_of(id@),
            ),
    {
        if !self.inner.change_to_tab(id) {
            let mut line = String::from_str("change_to_tab: No tab found for ");
            let label = id.label();
            line.append(label.as_str());
            self.inner.dbg(line.as_str());
        }
    }

    pub fn push_input(&mut self, c: char)
        requires
            old(self).wf(),
        ensures
            final(self).wf(),
            final(self)@ == with_input(old(self)@, cur_input(old(self)@).push(c)),
    {
        self.inner.push_input(c);
    }

    pub fn pop_input(&mut self)
        requires
            old(self).wf(),
        ensures
            final(self).wf(),
            cur_input(old(self)@).len() == 0 ==> final(self)@ == old(self)@,
            cur_input(old(self)@).len() > 0 ==> final(self)@ == with_input(
                old(self)@,
                cur_input(old(self)@).drop_last(),
            ),
    {
        self.inner.pop_input();
    }

    pub fn take_input(&mut self) -> (r: String)
        requires
            old(self).wf(),
        ensures
            final(self).wf(),
            r@ == cur_input(old(self)@),
            final(self)@ == with_input(old(self)@, seq![]),
    {
        self.inner.take_input()
    }

    /// Applies one key press.  Escape asks to leave; Enter commits the
    /// input; Backspace, Tab and characters edit the input or move between
    /// tabs; other keys do nothing.
    pub fn handle_key(&mut self, key: Key, clients: &mut Vec<Client>) -> (r: KeyOutcome)
        requires
            old(self).wf(),
        ensures
            final(self).wf(),
            match key {
                Key::Enter => (exists|res: Result<(), QueueError>|
                    (final(self)@, client_views(final(clients)@)) == #[trigger] committed(
                        old(self)@,
                        client_views(old(clients)@),
                        res,
                    )) && (r is Connect <==> connect_addr(old(self)@, client_views(old(clients)@)) is Some) && (r is Connect
                    ==> r->Connect_0.addr@ == connect_addr(old(self)@, client_views(old(clients)@))->0),
                _ => final(clients)@ == old(clients)@ && match key {
                    Key::Esc => r is Exit && final(self)@ == old(self)@,
                    Key::Char(c) => r is Continue && final(self)@ == with_input(
                        old(self)@,
                        cur_input(old(self)@).push(c),
                    ),
                    Key::Backspace => r is Continue && (cur_input(old(self)@).len() == 0
                        ==> final(self)@ == old(self)@) && (cur_input(old(self)@).len() > 0
                        ==> final(self)@ == with_input(
                        old(self)@,
                        cur_input(old(self)@).drop_last(),
                    )),
                    Key::Tab => r is Continue && final(self)@ == advanced(old(self)@),
                    _ => r is Continue && final(self)@ == old(self)@,
                },
            },
    {
        match key {
            Key::Esc => KeyOutcome::Exit,
            Key::Char(c) => {
                self.push_input(c);
                KeyOutcome::Continue
            },
            Key::Enter => match self.commit_input(clients) {
                Some(info) => KeyOutcome::Connect(info),
                None => KeyOutcome::Continue,
            },
            Key::Backspace => {
                self.pop_input();
                KeyOutcome::Continue
            },
            Key::Tab => {
                self.next_tab();
                KeyOutcome::Continue
            },
            Key::Other => KeyOutcome::Continue,
        }
    }

    /// Notes a failed queueing on the diagnostic tab.
    fn note_queue(&mut self, serv: &str, res: Result<(), QueueError>)
        requires
            old(self).wf(),
        ensures
            final(self).wf(),
            final(self)@ == after_queue(old(self)@, serv@, res),
    {
        if let Err(e) = res {
            let mut line = String::from_str("[");
            line.append(serv);
            line.append("] command not sent: ");
            match e {
                QueueError::Full => line.append("queue full"),
                QueueError::Closed => line.append("session closed"),
            }
            self.dbg(line.as_str());
        }
    }

    /// Appends `a` followed by `b` to the diagnostic tab.
    fn dbg2(&mut self, a: &str, b: &str)
        requires
            old(self).wf(),
        ensures
            final(self).wf(),
            final(self)@ == with_line(old(self)@, 0, a@ + b@),
    {
        let mut line = String::from_str(a);
        line.append(b);
        self.dbg(line.as_str());
    }

    /// Takes the current input and carries out the command it holds; see
    /// `committed`.  Queued commands go to the client of the current tab's
    /// server.  A `/connect` adds and shows the server's tab and returns the
    /// parameters of the session that the caller must start.
    pub fn commit_input(&mut self, clients: &mut Vec<Client>) -> (r: Option<ServInfo>)
        requires
            old(self).wf(),
        ensures
            final(self).wf(),
            exists|res: Result<(), QueueError>|
                (final(self)@, client_views(final(clients)@)) == #[trigger] committed(
                    old(self)@,
                    client_views(old(clients)@),
                    res,
                ),
            match connect_addr(old(self)@, client_views(old(clients)@)) {
                Some(addr) => r is Some && r->0.addr@ == addr && r->0.port == 6667
                    && r->0.nick@ == old(self).identity().nick@ && r->0.user@ == old(
                    self,
                ).identity().user@ && r->0.realname@ == old(self).identity().realname@,
                None => r is None,
            },
    {
        let ghost m0 = self@;
        let ghost cs0 = client_views(clients@);
        let nick = self.config.nick.clone();
        let user = self.config.user.clone();
        let realname = self.config.realname.clone();
        let id = copy_id(&self.current_tab().id);
        let input = self.take_input();
        let ghost m1 = self@;
        let parsed = parse_input(input.as_str());
        let cmd = match parsed {
            Err(e) => {
                self.dbg2("Command parse error: ", e);
                assert(committed(m0, cs0, Ok(())).0 == self@);
                return None;
            },
            Ok(cmd) => cmd,
        };
        match cmd {
            Cmd::Connect(addr) => {
                self.dbg2("Connecting to ", addr.as_str());
                let tab_id = TabKind::Serv { serv: addr.clone() };
                let ghost m2 = self@;
                proof {
                    lemma_tab_index(m2.tabs, TabId::Serv(addr@));
                    lemma_tab_index(m0.tabs, TabId::Serv(addr@));
                    assert forall|j: int| 0 <= j < m0.tabs.len() implies m2.tabs[j].id
                        == m0.tabs[j].id by {}
                }
                if self.inner.tab_position(&tab_id).is_some() {
                    if find_client(clients, addr.as_str()).is_some() {
                        self.dbg2("Already connected to ", addr.as_str());
                        assert(committed(m0, cs0, Ok(())).0 == self@);
                        return None;
                    }
                } else {
                    self.add_tab(tab_id);
                    proof {
                        lemma_tab_index(self@.tabs, TabId::Serv(addr@));
                        assert(self@.tabs[m2.tabs.len() as int].id == TabId::Serv(addr@));
                    }
                }
                self.change_to_tab(&TabKind::Serv { serv: addr.clone() });
                assert(committed(m0, cs0, Ok(())).0 == self@);
                return Some(
                    ServInfo {
                        addr,
                        port: 6667,
                        nick,
                        user,
                        realname,
                    },
                );
            },
            Cmd::Unsupported { cmd, rest } => {
                let mut line = String::from_str("Unsupported command: ");
                line.append(cmd.as_str());
                line.append(" ");
                line.append(rest.as_str());
                self.dbg(line.as_str());
                assert(committed(m0, cs0, Ok(())).0 == self@);
                None
            },
            Cmd::Join(chan) => {
                let serv = match &id {
                    TabKind::Serv { serv } => serv,
                    _ => {
                        self.dbg("Join command outside a server tab");
                        assert(committed(m0, cs0, Ok(())).0 == self@);
                        return None;
                    },
                };
                let mut line = String::from_str("Joining ");
                line.append(chan.as_str());
                line.append(" on ");
                line.append(serv.as_str());
                self.dbg(line.as_str());
                let ghost m2 = self@;
                match find_client(clients, serv.as_str()) {
                    None => {
                        self.dbg2("No client found for server ", serv.as_str());
                        assert(committed(m0, cs0, Ok(())).0 == self@);
                    },
                    Some(k) => {
                        let res = clients[k].join(chan.as_str());
                        assert(client_views(clients@) =~= queued(
                            cs0,
                            k as int,
                            encoding(ClientCmdView::Join(chan@)),
                            res,
                        ));
                        if res.is_ok() {
                            let tab_id = TabKind::Chan { serv: serv.clone(), chan: chan.clone() };
                            if self.inner.tab_position(&tab_id).is_none() {
                                self.add_tab(tab_id);
                            }
                            proof {
                                lemma_tab_index(self@.tabs, TabId::Chan(serv@, chan@));
                                lemma_tab_index(m2.tabs, TabId::Chan(serv@, chan@));
                                if tab_index(m2.tabs, TabId::Chan(serv@, chan@)) == -1 {
                                    assert(self@.tabs[m2.tabs.len() as int].id == TabId::Chan(
                                        serv@,
                                        chan@,
                                    ));
                                }
                            }
                            self.change_to_tab(&TabKind::Chan { serv: serv.clone(), chan });
                        } else {
                            self.note_queue(serv.as_str(), res);
                        }
                        assert(committed(m0, cs0, res) == (self@, client_views(clients@)));
                    },
                }
                None
            },
            Cmd::Quit(msg) => {
                let serv = match server_of(&id) {
                    None => {
                        self.dbg("Quit command on debug tab");
                        assert(committed(m0, cs0, Ok(())).0 == self@);
                        return None;
                    },
                    Some(serv) => serv,
                };
                match find_client(clients, serv.as_str()) {
                    None => {
                        self.dbg2("No client found for server ", serv.as_str());
                        assert(committed(m0, cs0, Ok(())).0 == self@);
                    },
                    Some(k) => {
                        let res = clients[k].quit(msg.as_str());
                        assert(client_views(clients@) =~= queued(
                            cs0,
                            k as int,
                            encoding(ClientCmdView::Quit(msg@)),
                            res,
                        ));
                        self.note_queue(serv.as_str(), res);
                        assert(committed(m0, cs0, res) == (self@, client_views(clients@)));
                    },
                }
                None
            },
            Cmd::Nick(nick) => {
                let serv = match server_of(&id) {
                    None => {
                        self.dbg("Nick command on debug tab");
                        assert(committed(m0, cs0, Ok(())).0 == self@);
                        return None;
                    },
                    Some(serv) => serv,
                };
                match find_client(clients, serv.as_str()) {
                    None => {
                        self.dbg2("No client found for server ", serv.as_str());
                        assert(committed(m0, cs0, Ok(())).0 == self@);
                    },
                    Some(k) => {
                        let res = clients[k].nick(nick.as_str());
                        proof {
                            let cs2 = queued(cs0, k as int, encoding(ClientCmdView::Nick(nick@)), res);
                            assert(client_views(clients@) =~= cs2.update(
                                k as int,
                                ClientView { cur_nick: nick@, ..cs2[k as int] },
                            ));
                        }
                        self.note_queue(serv.as_str(), res);
                        assert(committed(m0, cs0, res) == (self@, client_views(clients@)));
                    },
                }
                None
            },
            Cmd::Msg(msg) => {
                let (serv, target) = match &id {
                    TabKind::Debug => {
                        self.dbg("Message command on debug tab");
                        assert(committed(m0, cs0, Ok(())).0 == self@);
                        return None;
                    },
                    TabKind::Serv { .. } => {
                        self.dbg2("Message sent on server tab: ", msg.as_str());
                        assert(committed(m0, cs0, Ok(())).0 == self@);
                        return None;
                    },
                    TabKind::Chan { serv, chan } => {
                        let mut line = String::from_str("Sending message to ");
                        line.append(chan.as_str());
                        line.append(" on ");
                        line.append(serv.as_str());
                        line.append(": ");
                        line.append(msg.as_str());
                        self.dbg(line.as_str());
                        (serv, MsgTarget::Chan(chan.clone()))
                    },
                    TabKind::Query { serv, nick } => {
                        let mut line = String::from_str("Sending message to ");
                        line.append(nick.as_str());
                        line.append(" on ");
                        line.append(serv.as_str());
                        line.append(": ");
                        line.append(msg.as_str());
                        self.dbg(line.as_str());
                        (serv, MsgTarget::User(nick.clone()))
                    },
                };
                match find_client(clients, serv.as_str()) {
                    None => {
                        self.dbg2("No client found for server ", serv.as_str());
                        assert(committed(m0, cs0, Ok(())).0 == self@);
                    },
                    Some(k) => {
                        let res = clients[k].privmsg(target.target(), msg.as_str());
                        assert(client_views(clients@) =~= queued(
                            cs0,
                            k as int,
                            encoding(
                                ClientCmdView::PrivMsg { target: target_name_of(id@), msg: msg@ },
                            ),
                            res,
                        ));
                        if res.is_ok() {
                            let mut line = String::from_str("<");
                            line.append(clients[k].cur_nick());
                            line.append("> ");
                            line.append(msg.as_str());
                            let name = String::from_str(clients[k].name());
                            self.add_msg(name.as_str(), target, line.as_str());
                        } else {
                            self.note_queue(serv.as_str(), res);
                        }
                        assert(committed(m0, cs0, res) == (self@, client_views(clients@)));
                    },
                }
                None
            },
        }
    }
}


/// The server that a tab belongs to; none for the diagnostic tab.
pub open spec fn tab_server(id: TabId) -> Option<Seq<char>> {
    match id {
        TabId::Debug => None,
        TabId::Serv(s) => Some(s),
        TabId::Chan(s, _) => Some(s),
        TabId::Query(s, _) => Some(s),
    }
}

/// The line noting that a command could not be queued.
pub open spec fn queue_error_text(serv: Seq<char>, e: QueueError) -> Seq<char> {
    "["@ + serv + "] command not sent: "@ + match e {
        QueueError::Full => "queue full"@,
        QueueError::Closed => "session closed"@,
    }
}

/// The model after the queue's answer: unchanged on success, one
/// diagnostic line on failure.
pub open spec fn after_queue(m: ModelView, serv: Seq<char>, res: Result<(), QueueError>) -> ModelView {
    match res {
        Ok(()) => m,
        Err(e) => with_line(m, 0, queue_error_text(serv, e)),
    }
}

/// Client `k` after the queue's answer to `line`.
pub open spec fn queued(cs: Seq<ClientView>, k: int, line: Seq<char>, res: Result<(), QueueError>) -> Seq<ClientView> {
    match res {
        Ok(()) => cs.update(k, ClientView { sent: cs[k].sent.push(line), ..cs[k] }),
        Err(_) => cs,
    }
}

/// The model with the tab of the given id current (it must exist).
pub open spec fn switched(m: ModelView, id: TabId) -> ModelView {
    ModelView { cur_tab: tab_index(m.tabs, id), ..m }
}

/// The model with a tab of the given id, added at the end when missing.
pub open spec fn ensured(m: ModelView, id: TabId) -> ModelView {
    if tab_index(m.tabs, id) == -1 {
        with_tab(m, id)
    } else {
        m
    }
}

/// The line shown when a message is sent from the tab `id`.
pub open spec fn sending_text(id: TabId, msg: Seq<char>) -> Seq<char> {
    match id {
        TabId::Chan(serv, chan) => "Sending message to "@ + chan + " on "@ + serv + ": "@ + msg,
        TabId::Query(serv, nick) => "Sending message to "@ + nick + " on "@ + serv + ": "@ + msg,
        _ => seq![],
    }
}

/// The message target of a channel or query tab.
pub open spec fn tab_target(id: TabId) -> TargetView {
    match id {
        TabId::Chan(_, chan) => TargetView::Chan(chan),
        TabId::Query(_, nick) => TargetView::User(nick),
        TabId::Serv(s) => TargetView::Serv(s),
        TabId::Debug => TargetView::Serv(seq![]),
    }
}

/// What committing the current input does to the model and the clients,
/// given the queue's answer `res` to the command it queues, if any.
/// The input buffer is emptied first, whatever follows.
pub open spec fn committed(m0: ModelView, cs: Seq<ClientView>, res: Result<(), QueueError>) -> (ModelView, Seq<ClientView>) {
    let m1 = with_input(m0, seq![]);
    let id = m0.tabs[m0.cur_tab].id;
    match interpret(cur_input(m0)) {
        Err(e) => (with_line(m1, 0, "Command parse error: "@ + e), cs),
        Ok(CmdSpec::Connect(addr)) => {
            let m2 = with_line(m1, 0, "Connecting to "@ + addr);
            if tab_index(m2.tabs, TabId::Serv(addr)) == -1 {
                (switched(with_tab(m2, TabId::Serv(addr)), TabId::Serv(addr)), cs)
            } else if client_index_from(cs, addr, 0) != -1 {
                (with_line(m2, 0, "Already connected to "@ + addr), cs)
            } else {
                (switched(m2, TabId::Serv(addr)), cs)
            }
        },
        Ok(CmdSpec::Join(chan)) => match id {
            TabId::Serv(serv) => {
                let m2 = with_line(m1, 0, "Joining "@ + chan + " on "@ + serv);
                let k = client_index_from(cs, serv, 0);
                if k == -1 {
                    (with_line(m2, 0, "No client found for server "@ + serv), cs)
                } else {
                    let cs2 = queued(cs, k, encoding(ClientCmdView::Join(chan)), res);
                    match res {
                        Ok(()) => (
                            switched(
                                ensured(m2, TabId::Chan(serv, chan)),
                                TabId::Chan(serv, chan),
                            ),
                            cs2,
                        ),
                        Err(_) => (after_queue(m2, serv, res), cs2),
                    }
                }
            },
            _ => (with_line(m1, 0, "Join command outside a server tab"@), cs),
        },
        Ok(CmdSpec::Quit(msg)) => match tab_server(id) {
            None => (with_line(m1, 0, "Quit command on debug tab"@), cs),
            Some(serv) => {
                let k = client_index_from(cs, serv, 0);
                if k == -1 {
                    (with_line(m1, 0, "No client found for server "@ + serv), cs)
                } else {
                    (
                        after_queue(m1, serv, res),
                        queued(cs, k, encoding(ClientCmdView::Quit(msg)), res),
                    )
                }
            },
        },
        Ok(CmdSpec::Nick(nick)) => match tab_server(id) {
            None => (with_line(m1, 0, "Nick command on debug tab"@), cs),
            Some(serv) => {
                let k = client_index_from(cs, serv, 0);
                if k == -1 {
                    (with_line(m1, 0, "No client found for server "@ + serv), cs)
                } else {
                    let cs2 = queued(cs, k, encoding(ClientCmdView::Nick(nick)), res);
                    (
                        after_queue(m1, serv, res),
                        cs2.update(k, ClientView { cur_nick: nick, ..cs2[k] }),
                    )
                }
            },
        },
        Ok(CmdSpec::Msg(msg)) => match id {
            TabId::Debug => (with_line(m1, 0, "Message command on debug tab"@), cs),
            TabId::Serv(_) => (with_line(m1, 0, "Message sent on server tab: "@ + msg), cs),
            _ => {
                let serv = tab_server(id)->0;
                let m2 = with_line(m1, 0, sending_text(id, msg));
                let k = client_index_from(cs, serv, 0);
                if k == -1 {
                    (with_line(m2, 0, "No client found for server "@ + serv), cs)
                } else {
                    let line = encoding(
                        ClientCmdView::PrivMsg { target: target_name_of(id), msg },
                    );
                    let cs2 = queued(cs, k, line, res);
                    match res {
                        Ok(()) => (
                            routed(m2, cs[k].name, tab_target(id), "<"@ + cs[k].cur_nick + "> "@ + msg),
                            cs2,
                        ),
                        Err(_) => (after_queue(m2, serv, res), cs2),
                    }
                }
            },
        },
        Ok(CmdSpec::Unsupported { cmd, rest }) => (
            with_line(m1, 0, "Unsupported command: "@ + cmd + " "@ + rest),
            cs,
        ),
    }
}

/// The channel or nick that a tab's messages go to.
pub open spec fn target_name_of(id: TabId) -> Seq<char> {
    target_name(tab_target(id))
}

/// The address of a connection that committing the current input opens:
/// one to a server that has no session among `cs`.
pub open spec fn connect_addr(m0: ModelView, cs: Seq<ClientView>) -> Option<Seq<char>> {
    match interpret(cur_input(m0)) {
        Ok(CmdSpec::Connect(addr)) => if tab_index(m0.tabs, TabId::Serv(addr)) == -1
            || client_index_from(cs, addr, 0) == -1 {
            Some(addr)
        } else {
            None
        },
        _ => None,
    }
}


/// A copy of a tab id.
fn copy_id(id: &TabKind) -> (r: TabKind)
    ensures
        r@ == id@,
{
    match id {
        TabKind::Debug => TabKind::Debug,
        TabKind::Serv { serv } => TabKind::Serv { serv: serv.clone() },
        TabKind::Chan { serv, chan } => TabKind::Chan { serv: serv.clone(), chan: chan.clone() },
        TabKind::Query { serv, nick } => TabKind::Query { serv: serv.clone(), nick: nick.clone() },
    }
}

/// The server that a tab belongs to; none for the diagnostic tab.
fn server_of(id: &TabKind) -> (r: Option<String>)
    ensures
        match tab_server(id@) {
            Some(s) => r is Some && r->0@ == s,
            None => r is None,
        },
{
    match id {
        TabKind::Debug => None,
        TabKind::Serv { serv } => Some(serv.clone()),
        TabKind::Chan { serv, .. } => Some(serv.clone()),
        TabKind::Query { serv, .. } => Some(serv.clone()),
    }
}

} // verus!
