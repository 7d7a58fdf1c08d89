//! RPC endpoint management.
//!
//! Endpoints can be added, selected and deleted, and are used for the
//! underlying blockchain calls. This module holds the management
//! state machine and its views as renderer-independent widget trees;
//! drawing them is a rendering concern outside the library.

use vstd::prelude::*;
use vstd::string::StringExecFns;
use crate::forms::{spec_label_is, Widget};
use crate::text;
use crate::text::{spec_digits, spec_digits_num, spec_is_digit_seq};

verus! {

/// One RPC endpoint: a label, the chain it serves, and its address.
#[derive(Clone, Debug, PartialEq)]
pub struct RPCValue {
    pub name: String,
    pub chain_id: u64,
    pub url: String,
}

/// The stored endpoints.
#[derive(Clone, Debug, PartialEq)]
pub struct RPCList {
    pub rpcs: Vec<RPCValue>,
}

/// The stored endpoints with every record named `name` removed.
pub open spec fn spec_remove_named(s: Seq<RPCValue>, name: Seq<char>) -> Seq<RPCValue>
    decreases s.len(),
{
    if s.len() == 0 {
        Seq::empty()
    } else {
        let rest = spec_remove_named(s.drop_last(), name);
        if s.last().name@ == name {
            rest
        } else {
            rest.push(s.last())
        }
    }
}

impl RPCList {
    pub fn new() -> (r: RPCList)
        ensures
            r.rpcs@ == Seq::<RPCValue>::empty(),
    {
        RPCList { rpcs: Vec::new() }
    }

    /// Every stored endpoint, in storage order.
    pub fn list(&self) -> (r: &Vec<RPCValue>)
        ensures
            r == &self.rpcs,
    {
        &self.rpcs
    }

    /// Append an endpoint.
    pub fn add(&mut self, value: RPCValue)
        ensures
            final(self).rpcs@ == old(self).rpcs@.push(value),
    {
        self.rpcs.push(value);
    }

    /// Remove every endpoint carrying this name, keeping the rest in
    /// order.
    pub fn remove(&mut self, name: &String)
        ensures
            final(self).rpcs@ == spec_remove_named(old(self).rpcs@, name@),
    {
        let n: usize = self.rpcs.len();
        let mut kept: Vec<RPCValue> = Vec::new();
        let mut i: usize = 0;
        while i < n
            invariant
                i <= n,
                n == self.rpcs@.len(),
                self.rpcs == old(self).rpcs,
                kept@ == spec_remove_named(self.rpcs@.take(i as int), name@),
            decreases n - i,
        {
            proof {
                assert(self.rpcs@.take(i as int + 1).drop_last() =~= self.rpcs@.take(i as int));
                assert(self.rpcs@.take(i as int + 1).last() == self.rpcs@[i as int]);
            }
            let record: &RPCValue = &self.rpcs[i];
            if !record.name.eq(name) {
                kept.push(
                    RPCValue {
                        name: record.name.clone(),
                        chain_id: record.chain_id,
                        url: record.url.clone(),
                    },
                );
                proof {
                    assert(kept@.last() == self.rpcs@[i as int]);
                }
            }
            i = i + 1;
        }
        proof {
            assert(self.rpcs@.take(n as int) =~= self.rpcs@);
        }
        self.rpcs = kept;
    }
}

/// What a finished background action reports back to the form.
#[derive(Debug, Clone, PartialEq)]
pub enum Feedback {
    Success(String),
    Error(String),
}

/// Everything the management screen reacts to.
#[derive(Debug, Clone, PartialEq)]
pub enum Message {
    Empty,
    AddRpc,
    ChangeName(Option<String>),
    ChangeChainId(Option<String>),
    ChangeUrl(Option<String>),
    SelectedRPC(bool, Option<String>),
    Sync(RPCList),
    Feedback(Feedback),
    Delete,
    Submit,
    Reset,
}

/// The add-endpoint form's raw entries.
#[derive(Debug, Clone, PartialEq)]
pub struct Form {
    pub name: Option<String>,
    pub chain_id: Option<String>,
    pub url: Option<String>,
}

impl Default for Form {
    fn default() -> (r: Self)
        ensures
            r.name is None,
            r.chain_id is None,
            r.url is None,
    {
        Form { name: None, chain_id: None, url: None }
    }
}

/// All three entries of the form are filled in.
pub open spec fn spec_form_complete(f: Form) -> bool {
    f.name is Some && f.chain_id is Some && f.url is Some
}

/// The selection list without any entry keyed `name`.
pub open spec fn spec_sel_remove(s: Seq<(String, bool)>, name: Seq<char>) -> Seq<(String, bool)>
    decreases s.len(),
{
    if s.len() == 0 {
        Seq::empty()
    } else {
        let rest = spec_sel_remove(s.drop_last(), name);
        if s.last().0@ == name {
            rest
        } else {
            rest.push(s.last())
        }
    }
}

/// The tick recorded for `name`, if any.
pub open spec fn spec_sel_get(s: Seq<(String, bool)>, name: Seq<char>) -> Option<bool>
    decreases s.len(),
{
    if s.len() == 0 {
        None
    } else if s[0].0@ == name {
        Some(s[0].1)
    } else {
        spec_sel_get(s.drop_first(), name)
    }
}

/// The stored endpoints after deleting every name ticked in the
/// selection list.
pub open spec fn spec_delete_selected(
    storage: Seq<RPCValue>,
    sel: Seq<(String, bool)>,
) -> Seq<RPCValue>
    decreases sel.len(),
{
    if sel.len() == 0 {
        storage
    } else {
        let rest = spec_delete_selected(storage, sel.drop_last());
        if sel.last().1 {
            spec_remove_named(rest, sel.last().0@)
        } else {
            rest
        }
    }
}

/// The management screen: the stored endpoints, the add-endpoint form
/// when it is open, which endpoints are ticked for deletion, and the
/// last feedback shown.
#[derive(Debug, Clone, PartialEq)]
pub struct RpcManagement {
    pub storage: RPCList,
    pub chain_packet: Option<Form>,
    pub selected_rpcs: Vec<(String, bool)>,
    pub form_feedback: Option<Feedback>,
}

impl RpcManagement {
    pub fn new(storage: RPCList) -> (r: RpcManagement)
        ensures
            r.storage == storage,
            r.chain_packet is None,
            r.selected_rpcs@ == Seq::<(String, bool)>::empty(),
            r.form_feedback is None,
    {
        RpcManagement {
            storage,
            chain_packet: None,
            selected_rpcs: Vec::new(),
            form_feedback: None,
        }
    }

    /// Close the form, untick everything, clear the feedback; the
    /// stored endpoints stay.
    pub fn reset(&mut self)
        ensures
            final(self).storage == old(self).storage,
            final(self).chain_packet is None,
            final(self).selected_rpcs@ == Seq::<(String, bool)>::empty(),
            final(self).form_feedback is None,
    {
        self.chain_packet = None;
        self.selected_rpcs = Vec::new();
        self.form_feedback = None;
    }

    /// Convert the form entries into an endpoint record. Fails when no
    /// form is open or an entry is missing, and when the chain id is
    /// not a number — a bare run of decimal digits; a signed or padded
    /// entry is deliberately rejected.
    pub fn get_chain_packet(&self) -> (r: Result<RPCValue, String>)
        ensures
            r is Ok <==> (self.chain_packet matches Some(f) && spec_form_complete(f)
                && spec_is_digit_seq(f.chain_id->Some_0@) && spec_digits_num(f.chain_id->Some_0@)
                <= u64::MAX as int),
            r matches Ok(v) ==> ({
                let f = self.chain_packet->Some_0;
                &&& v.name@ == f.name->Some_0@
                &&& v.chain_id as int == spec_digits_num(f.chain_id->Some_0@)
                &&& v.url@ == f.url->Some_0@
            }),
            r matches Err(e) ==> ({
                if self.chain_packet matches Some(f) && spec_form_complete(f) {
                    e@ == "Chain ID must be a number!"@
                } else {
                    e@ == "No form fields updated!"@
                }
            }),
    {
        match &self.chain_packet {
            Some(chain_packet) => {
                match (&chain_packet.name, &chain_packet.chain_id, &chain_packet.url) {
                    (Some(name), Some(chain_id), Some(url)) => {
                        match text::parse_u64(chain_id.as_str()) {
                            Some(id) => Ok(
                                RPCValue { name: name.clone(), chain_id: id, url: url.clone() },
                            ),
                            None => Err(String::from_str("Chain ID must be a number!")),
                        }
                    },
                    _ => Err(String::from_str("No form fields updated!")),
                }
            },
            None => Err(String::from_str("No form fields updated!")),
        }
    }

    /// React to one message: sync the storage, edit the open form,
    /// tick or untick an endpoint, open the form, submit it, delete
    /// the ticked endpoints, or show feedback. Any other message
    /// changes nothing.
    pub fn update(&mut self, message: Message)
        ensures
            message matches Message::Sync(storage) ==> *final(self) == (RpcManagement {
                storage: storage,
                ..*old(self)
            }),
            message matches Message::ChangeName(name) ==> *final(self) == (RpcManagement {
                chain_packet: match old(self).chain_packet {
                    Some(f) => Some(Form { name: name, ..f }),
                    None => None,
                },
                ..*old(self)
            }),
            message matches Message::ChangeChainId(chain_id) ==> *final(self) == (RpcManagement {
                chain_packet: match old(self).chain_packet {
                    Some(f) => Some(Form { chain_id: chain_id, ..f }),
                    None => None,
                },
                ..*old(self)
            }),
            message matches Message::ChangeUrl(url) ==> *final(self) == (RpcManagement {
                chain_packet: match old(self).chain_packet {
                    Some(f) => Some(Form { url: url, ..f }),
                    None => None,
                },
                ..*old(self)
            }),
            message matches Message::SelectedRPC(selected, name_opt) ==> ({
                &&& final(self).storage == old(self).storage
                &&& final(self).chain_packet == old(self).chain_packet
                &&& final(self).form_feedback == old(self).form_feedback
                &&& match name_opt {
                    Some(name) => {
                        if selected {
                            final(self).selected_rpcs@ == spec_sel_remove(
                                old(self).selected_rpcs@,
                                name@,
                            ).push((name, true))
                        } else {
                            final(self).selected_rpcs@ == spec_sel_remove(
                                old(self).selected_rpcs@,
                                name@,
                            )
                        }
                    },
                    None => final(self).selected_rpcs == old(self).selected_rpcs,
                }
            }),
            message is AddRpc ==> ({
                &&& final(self).storage == old(self).storage
                &&& final(self).selected_rpcs == old(self).selected_rpcs
                &&& (final(self).chain_packet matches Some(f) && f.name is None && f.chain_id
                    is None && f.url is None)
                &&& final(self).form_feedback is None
            }),
            message is Submit ==> ({
                &&& final(self).storage == old(self).storage
                &&& final(self).chain_packet is None
                &&& final(self).selected_rpcs@ == Seq::<(String, bool)>::empty()
                &&& final(self).form_feedback is None
            }),
            message is Delete ==> ({
                &&& final(self).storage.rpcs@ == spec_delete_selected(
                    old(self).storage.rpcs@,
                    old(self).selected_rpcs@,
                )
                &&& final(self).chain_packet == old(self).chain_packet
                &&& final(self).selected_rpcs@ == Seq::<(String, bool)>::empty()
                &&& (final(self).form_feedback matches Some(f) && f matches Feedback::Success(m)
                    && m@ == "Deleted RPCs!"@)
            }),
            message matches Message::Feedback(feedback) ==> *final(self) == (RpcManagement {
                form_feedback: Some(feedback),
                ..*old(self)
            }),
            message is Empty || message is Reset ==> *final(self) == *old(self),
    {
        match message {
            Message::Sync(storage) => {
                self.storage = storage;
            },
            Message::ChangeName(name) => {
                match &mut self.chain_packet {
                    Some(chain_packet) => {
                        chain_packet.name = name;
                    },
                    None => (),
                }
            },
            Message::ChangeChainId(chain_id) => {
                match &mut self.chain_packet {
                    Some(chain_packet) => {
                        chain_packet.chain_id = chain_id;
                    },
                    None => (),
                }
            },
            Message::ChangeUrl(url) => {
                match &mut self.chain_packet {
                    Some(chain_packet) => {
                        chain_packet.url = url;
                    },
                    None => (),
                }
            },
            Message::SelectedRPC(selected, name_opt) => {
                match name_opt {
                    Some(name) => {
                        let mut kept: Vec<(String, bool)> = Vec::new();
                        let n: usize = self.selected_rpcs.len();
                        let mut i: usize = 0;
                        while i < n
                            invariant
                                i <= n,
                                n == self.selected_rpcs@.len(),
                                self.selected_rpcs == old(self).selected_rpcs,
                                kept@ == spec_sel_remove(
                                    self.selected_rpcs@.take(i as int),
                                    name@,
                                ),
                            decreases n - i,
                        {
                            proof {
                                assert(self.selected_rpcs@.take(i as int + 1).drop_last()
                                    =~= self.selected_rpcs@.take(i as int));
                                assert(self.selected_rpcs@.take(i as int + 1).last()
                                    == self.selected_rpcs@[i as int]);
                            }
                            let entry: &(String, bool) = &self.selected_rpcs[i];
                            if !entry.0.eq(&name) {
                                kept.push((entry.0.clone(), entry.1));
                                proof {
                                    assert((entry.0, entry.1) == self.selected_rpcs@[i as int]);
                                }
                            }
                            i = i + 1;
                        }
                        proof {
                            assert(self.selected_rpcs@.take(n as int) =~= self.selected_rpcs@);
                        }
                        if selected {
                            kept.push((name, true));
                        }
                        self.selected_rpcs = kept;
                    },
                    None => (),
                }
            },
            Message::AddRpc => {
                self.chain_packet = Some(Form::default());
                self.form_feedback = None;
            },
            Message::Submit => {
                self.reset();
            },
            Message::Delete => {
                let marked: Vec<(String, bool)> = take_entries(&mut self.selected_rpcs);
                let n: usize = marked.len();
                let mut i: usize = 0;
                while i < n
                    invariant
                        i <= n,
                        n == marked@.len(),
                        self.storage.rpcs@ == spec_delete_selected(
                            old(self).storage.rpcs@,
                            marked@.take(i as int),
                        ),
                        self.chain_packet == old(self).chain_packet,
                        self.selected_rpcs@ == Seq::<(String, bool)>::empty(),
                        self.form_feedback == old(self).form_feedback,
                    decreases n - i,
                {
                    proof {
                        assert(marked@.take(i as int + 1).drop_last() =~= marked@.take(i as int));
                        assert(marked@.take(i as int + 1).last() == marked@[i as int]);
                    }
                    let entry: &(String, bool) = &marked[i];
                    if entry.1 {
                        self.storage.remove(&entry.0);
                    }
                    i = i + 1;
                }
                proof {
                    assert(marked@.take(n as int) =~= marked@);
                }
                self.form_feedback = Some(Feedback::Success(String::from_str("Deleted RPCs!")));
            },
            Message::Feedback(feedback) => {
                self.form_feedback = Some(feedback);
            },
            _ => (),
        }
    }
}

/// A table of endpoints: column headers and one row of cells per
/// stored endpoint.
#[derive(Debug)]
pub struct RpcTable {
    pub headers: Vec<String>,
    pub cells: Vec<Vec<Widget>>,
}

/// `cells` is one endpoint's table row: name, chain id, address, and
/// its deletion tick.
pub open spec fn spec_table_row_ok(
    cells: Seq<Widget>,
    rpc: RPCValue,
    sel: Seq<(String, bool)>,
) -> bool {
    &&& cells.len() == 4
    &&& spec_label_is(cells[0], rpc.name@)
    &&& spec_label_is(cells[1], spec_digits(rpc.chain_id as nat))
    &&& spec_label_is(cells[2], rpc.url@)
    &&& (cells[3] matches Widget::Checkbox(c) && c == spec_sel_get(sel, rpc.name@))
}

/// `w` is one endpoint's plain listing row: name, chain id, address.
pub open spec fn spec_rpc_row_ok(w: Widget, rpc: RPCValue) -> bool {
    &&& w matches Widget::Row(cells)
    &&& cells@.len() == 3
    &&& spec_label_is(cells@[0], rpc.name@)
    &&& spec_label_is(cells@[1], spec_digits(rpc.chain_id as nat))
    &&& spec_label_is(cells@[2], rpc.url@)
}

/// `w` is the table's header row.
pub open spec fn spec_header_row_ok(w: Widget) -> bool {
    &&& w matches Widget::Row(cells)
    &&& cells@.len() == 4
    &&& spec_label_is(cells@[0], "Name"@)
    &&& spec_label_is(cells@[1], "Chain ID"@)
    &&& spec_label_is(cells@[2], "URL"@)
    &&& spec_label_is(cells@[3], "Select"@)
}

/// `w` is a titled form element holding an input.
pub open spec fn spec_item_input_ok(
    w: Widget,
    title: Seq<char>,
    placeholder: Seq<char>,
    value: Option<String>,
) -> bool {
    &&& w matches Widget::Column(items)
    &&& items@.len() == 2
    &&& spec_label_is(items@[0], title)
    &&& (items@[1] matches Widget::Input { placeholder: p, value: v } && p@ == placeholder && v
        == value)
}

/// `w` is the add-endpoint form over the given entries.
pub open spec fn spec_rpc_form_ok(w: Widget, f: Form) -> bool {
    &&& w matches Widget::Column(rows)
    &&& rows@.len() == 2
    &&& (rows@[0] matches Widget::Row(r1) && r1@.len() == 2 && spec_item_input_ok(
        r1@[0],
        "Name"@,
        "Choose a label"@,
        f.name,
    ) && spec_item_input_ok(r1@[1], "Chain ID"@, "Choose a chain id"@, f.chain_id))
    &&& (rows@[1] matches Widget::Row(r2) && r2@.len() == 2 && spec_item_input_ok(
        r2@[0],
        "URL"@,
        "Choose a url"@,
        f.url,
    ) && (r2@[1] matches Widget::Column(sub) && sub@.len() == 2 && spec_label_is(
        sub@[0],
        "Submit"@,
    ) && (sub@[1] matches Widget::Button { caption, enabled } && caption@ == "Add RPC to list"@
        && enabled)))
}

/// `w` shows a feedback message.
pub open spec fn spec_feedback_ok(w: Widget, fb: Feedback) -> bool {
    match fb {
        Feedback::Success(m) => spec_label_is(w, m@),
        Feedback::Error(m) => spec_label_is(w, m@),
    }
}

/// `w` is the screen's upper half: the title, the add and delete
/// actions, and the endpoint table.
pub open spec fn spec_upper_ok(w: Widget, rpcs: Seq<RPCValue>, sel: Seq<(String, bool)>) -> bool {
    &&& w matches Widget::Column(items)
    &&& items@.len() == 3
    &&& spec_label_is(items@[0], "Manage RPC Settings"@)
    &&& (items@[1] matches Widget::Row(actions) && actions@.len() == 2 && (
    actions@[0] matches Widget::Button { caption, enabled } && caption@ == "Add RPC"@ && enabled)
        && (actions@[1] matches Widget::Button { caption, enabled } && caption@ == "Delete RPCs"@
        && enabled == (sel.len() > 0)))
    &&& (items@[2] matches Widget::Column(trows) && trows@.len() == rpcs.len() + 1
        && spec_header_row_ok(trows@[0]) && (forall|i: int|
        1 <= i < trows@.len() ==> ((#[trigger] trows@[i]) matches Widget::Row(cells)
            && spec_table_row_ok(cells@, rpcs[i - 1], sel))))
}

/// `w` is the screen's lower half: the open form, if any, then any
/// feedback.
pub open spec fn spec_lower_ok(
    w: Widget,
    packet: Option<Form>,
    feedback: Option<Feedback>,
) -> bool {
    &&& w matches Widget::Column(items)
    &&& match (packet, feedback) {
        (None, None) => items@.len() == 0,
        (Some(f), None) => items@.len() == 1 && spec_rpc_form_ok(items@[0], f),
        (None, Some(fb)) => items@.len() == 1 && spec_feedback_ok(items@[0], fb),
        (Some(f), Some(fb)) => items@.len() == 2 && spec_rpc_form_ok(items@[0], f)
            && spec_feedback_ok(items@[1], fb),
    }
}

impl RpcManagement {
    /// List every stored endpoint as a row of labels.
    pub fn view_rpcs(&self) -> (r: Widget)
        ensures
            r matches Widget::Column(rows) && rows@.len() == self.storage.rpcs@.len() && (forall|
                i: int,
            |
                0 <= i < rows@.len() ==> spec_rpc_row_ok(
                    #[trigger] rows@[i],
                    self.storage.rpcs@[i],
                )),
    {
        let n: usize = self.storage.rpcs.len();
        let mut rows: Vec<Widget> = Vec::new();
        let mut i: usize = 0;
        while i < n
            invariant
                i <= n,
                n == self.storage.rpcs@.len(),
                rows@.len() == i,
                forall|j: int|
                    0 <= j < i ==> spec_rpc_row_ok(#[trigger] rows@[j], self.storage.rpcs@[j]),
            decreases n - i,
        {
            let rpc: &RPCValue = &self.storage.rpcs[i];
            let mut cells: Vec<Widget> = Vec::new();
            cells.push(Widget::Label(rpc.name.clone()));
            cells.push(Widget::Label(text::u64_to_string(rpc.chain_id)));
            cells.push(Widget::Label(rpc.url.clone()));
            rows.push(Widget::Row(cells));
            i = i + 1;
        }
        Widget::Column(rows)
    }

    /// The endpoint table: headers, and per endpoint its fields and
    /// its deletion tick.
    pub fn rpc_table(&self) -> (r: RpcTable)
        ensures
            r.headers@.len() == 4,
            r.headers@[0]@ == "Name"@,
            r.headers@[1]@ == "Chain ID"@,
            r.headers@[2]@ == "URL"@,
            r.headers@[3]@ == "Select"@,
            r.cells@.len() == self.storage.rpcs@.len(),
            forall|i: int|
                0 <= i < r.cells@.len() ==> spec_table_row_ok(
                    (#[trigger] r.cells@[i])@,
                    self.storage.rpcs@[i],
                    self.selected_rpcs@,
                ),
    {
        let mut headers: Vec<String> = Vec::new();
        headers.push(String::from_str("Name"));
        headers.push(String::from_str("Chain ID"));
        headers.push(String::from_str("URL"));
        headers.push(String::from_str("Select"));
        let n: usize = self.storage.rpcs.len();
        let mut cells: Vec<Vec<Widget>> = Vec::new();
        let mut i: usize = 0;
        while i < n
            invariant
                i <= n,
                n == self.storage.rpcs@.len(),
                cells@.len() == i,
                forall|j: int|
                    0 <= j < i ==> spec_table_row_ok(
                        (#[trigger] cells@[j])@,
                        self.storage.rpcs@[j],
                        self.selected_rpcs@,
                    ),
            decreases n - i,
        {
            let rpc: &RPCValue = &self.storage.rpcs[i];
            let tick: Option<bool> = self.selected_tick(&rpc.name);
            let mut row: Vec<Widget> = Vec::new();
            row.push(Widget::Label(rpc.name.clone()));
            row.push(Widget::Label(text::u64_to_string(rpc.chain_id)));
            row.push(Widget::Label(rpc.url.clone()));
            row.push(Widget::Checkbox(tick));
            cells.push(row);
            i = i + 1;
        }
        RpcTable { headers, cells }
    }

    /// The deletion tick recorded for `name`, if any.
    fn selected_tick(&self, name: &String) -> (r: Option<bool>)
        ensures
            r == spec_sel_get(self.selected_rpcs@, name@),
    {
        let n: usize = self.selected_rpcs.len();
        let mut i: usize = 0;
        proof {
            assert(self.selected_rpcs@.skip(0) =~= self.selected_rpcs@);
        }
        while i < n
            invariant
                i <= n,
                n == self.selected_rpcs@.len(),
                spec_sel_get(self.selected_rpcs@, name@) == spec_sel_get(
                    self.selected_rpcs@.skip(i as int),
                    name@,
                ),
            decreases n - i,
        {
            let entry: &(String, bool) = &self.selected_rpcs[i];
            proof {
                assert(self.selected_rpcs@.skip(i as int)[0] == self.selected_rpcs@[i as int]);
                assert(self.selected_rpcs@.skip(i as int).drop_first()
                    =~= self.selected_rpcs@.skip(i as int + 1));
            }
            if entry.0.eq(name) {
                return Some(entry.1);
            }
            i = i + 1;
        }
        None
    }

    /// One titled form element.
    pub fn form_item(title: String, content: Widget) -> (r: Widget)
        ensures
            r matches Widget::Column(items) && items@ == seq![Widget::Label(title), content],
    {
        crate::forms::FormView::form_item(title, content)
    }

    /// The whole management screen: title, actions and table above, the
    /// open form and any feedback below.
    pub fn view(&self) -> (r: Widget)
        ensures
            r matches Widget::Column(halves) && halves@.len() == 2 && spec_upper_ok(
                halves@[0],
                self.storage.rpcs@,
                self.selected_rpcs@,
            ) && spec_lower_ok(halves@[1], self.chain_packet, self.form_feedback),
    {
        let table: RpcTable = self.rpc_table();
        let mut trows: Vec<Widget> = Vec::new();
        let mut header_cells: Vec<Widget> = Vec::new();
        header_cells.push(Widget::Label(String::from_str("Name")));
        header_cells.push(Widget::Label(String::from_str("Chain ID")));
        header_cells.push(Widget::Label(String::from_str("URL")));
        header_cells.push(Widget::Label(String::from_str("Select")));
        trows.push(Widget::Row(header_cells));
        let mut cells: Vec<Vec<Widget>> = table.cells;
        let n: usize = cells.len();
        let ghost cells0: Seq<Vec<Widget>> = cells@;
        let mut i: usize = 0;
        while i < n
            invariant
                i <= n,
                n == cells0.len(),
                cells@ == cells0.skip(i as int),
                n == self.storage.rpcs@.len(),
                forall|j: int|
                    0 <= j < n ==> spec_table_row_ok(
                        (#[trigger] cells0[j])@,
                        self.storage.rpcs@[j],
                        self.selected_rpcs@,
                    ),
                trows@.len() == i + 1,
                spec_header_row_ok(trows@[0]),
                forall|j: int|
                    1 <= j < trows@.len() ==> ((#[trigger] trows@[j]) matches Widget::Row(
                    row_cells) && spec_table_row_ok(
                        row_cells@,
                        self.storage.rpcs@[j - 1],
                        self.selected_rpcs@,
                    )),
            decreases n - i,
        {
            let row: Vec<Widget> = cells.remove(0);
            proof {
                assert(cells0.skip(i as int)[0] == cells0[i as int]);
                assert(cells0.skip(i as int).drop_first() =~= cells0.skip(i as int + 1));
            }
            trows.push(Widget::Row(row));
            i = i + 1;
        }
        let delete_enabled: bool = self.selected_rpcs.len() > 0;
        let mut actions: Vec<Widget> = Vec::new();
        actions.push(Widget::Button { caption: String::from_str("Add RPC"), enabled: true });
        actions.push(
            Widget::Button { caption: String::from_str("Delete RPCs"), enabled: delete_enabled },
        );
        let mut upper: Vec<Widget> = Vec::new();
        upper.push(Widget::Label(String::from_str("Manage RPC Settings")));
        upper.push(Widget::Row(actions));
        upper.push(Widget::Column(trows));
        let mut lower: Vec<Widget> = Vec::new();
        match &self.chain_packet {
            Some(f) => {
                let name_item: Widget = Self::form_item(
                    String::from_str("Name"),
                    Widget::Input {
                        placeholder: String::from_str("Choose a label"),
                        value: clone_opt(&f.name),
                    },
                );
                let chain_item: Widget = Self::form_item(
                    String::from_str("Chain ID"),
                    Widget::Input {
                        placeholder: String::from_str("Choose a chain id"),
                        value: clone_opt(&f.chain_id),
                    },
                );
                let url_item: Widget = Self::form_item(
                    String::from_str("URL"),
                    Widget::Input {
                        placeholder: String::from_str("Choose a url"),
                        value: clone_opt(&f.url),
                    },
                );
                let mut submit_col: Vec<Widget> = Vec::new();
                submit_col.push(Widget::Label(String::from_str("Submit")));
                submit_col.push(
                    Widget::Button { caption: String::from_str("Add RPC to list"), enabled: true },
                );
                let mut r1: Vec<Widget> = Vec::new();
                r1.push(name_item);
                r1.push(chain_item);
                let mut r2: Vec<Widget> = Vec::new();
                r2.push(url_item);
                r2.push(Widget::Column(submit_col));
                let mut form_rows: Vec<Widget> = Vec::new();
                form_rows.push(Widget::Row(r1));
                form_rows.push(Widget::Row(r2));
                lower.push(Widget::Column(form_rows));
            },
            None => (),
        }
        match &self.form_feedback {
            Some(fb) => {
                let message: String = match fb {
                    Feedback::Success(m) => m.clone(),
                    Feedback::Error(m) => m.clone(),
                };
                lower.push(Widget::Label(message));
            },
            None => (),
        }
        let mut halves: Vec<Widget> = Vec::new();
        halves.push(Widget::Column(upper));
        halves.push(Widget::Column(lower));
        Widget::Column(halves)
    }
}

/// Copy an optional string.
fn clone_opt(v: &Option<String>) -> (r: Option<String>)
    ensures
        r == *v,
{
    match v {
        Some(s) => Some(s.clone()),
        None => None,
    }
}

/// Take a vector's entries out, leaving it empty.
fn take_entries(v: &mut Vec<(String, bool)>) -> (r: Vec<(String, bool)>)
    ensures
        r@ == old(v)@,
        final(v)@ == Seq::<(String, bool)>::empty(),
{
    let mut drained: Vec<(String, bool)> = Vec::new();
    std::mem::swap(&mut drained, v);
    drained
}

} // verus!
