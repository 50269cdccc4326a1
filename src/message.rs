//! The response envelope: one per request, built by successive `with_`
//! steps that each return a new value, and written out as JSON.
use vstd::prelude::*;
use crate::ids::{Uuid, uuid_text_of};
use crate::json::{
    colon, enclosed, json_quote, json_string_literal, push_newline_indent, render_enclosed,
    views_of,
};
use crate::text::{decimal_of, decimal_text};

verus! {

/// Whether the request's effect took place.
#[derive(Clone, Copy, PartialEq, Eq, Structural, Debug)]
pub enum ServerApiStatus {
    Success,
    PartialSuccess,
    Failed,
}

/// The response envelope. `is_pretty` chooses the layout of the JSON text and
/// is not part of it.
pub struct ServerMessage {
    pub api: String,
    pub status: ServerApiStatus,
    pub error: Option<Vec<(String, String)>>,
    pub library: Option<Uuid>,
    pub media: Option<u64>,
    pub format: Option<String>,
    pub result: Option<String>,
    pub data: Vec<(String, String)>,
    pub is_pretty: bool,
}

/// What an envelope holds, with texts as character sequences.
pub struct MessageView {
    pub api: Seq<char>,
    pub status: ServerApiStatus,
    pub error: Option<Seq<(Seq<char>, Seq<char>)>>,
    pub library: Option<Uuid>,
    pub media: Option<u64>,
    pub format: Option<Seq<char>>,
    pub result: Option<Seq<char>>,
    pub data: Seq<(Seq<char>, Seq<char>)>,
    pub is_pretty: bool,
}

pub open spec fn pairs_view(v: Seq<(String, String)>) -> Seq<(Seq<char>, Seq<char>)> {
    v.map_values(|p: (String, String)| (p.0@, p.1@))
}

pub open spec fn text_option_view(o: Option<String>) -> Option<Seq<char>> {
    match o {
        Some(s) => Some(s@),
        None => None,
    }
}

impl View for ServerMessage {
    type V = MessageView;

    open spec fn view(&self) -> MessageView {
        MessageView {
            api: self.api@,
            status: self.status,
            error: match self.error {
                Some(v) => Some(pairs_view(v@)),
                None => None,
            },
            library: self.library,
            media: self.media,
            format: text_option_view(self.format),
            result: text_option_view(self.result),
            data: pairs_view(self.data@),
            is_pretty: self.is_pretty,
        }
    }
}

/// Each key of a data map stands once.
pub open spec fn keys_unique(d: Seq<(Seq<char>, Seq<char>)>) -> bool {
    forall|i: int, j: int| 0 <= i < j < d.len() ==> #[trigger] d[i].0 != #[trigger] d[j].0
}

/// What an envelope must keep: the keys of its data map are unique, and an
/// error list is only there when the status is not `Success`.
pub open spec fn well_formed(m: MessageView) -> bool {
    &&& keys_unique(m.data)
    &&& (m.status == ServerApiStatus::Success ==> m.error is None)
}

/// The data map with `key` set to `value`: in place when the key is there,
/// else appended.
pub open spec fn data_insert(d: Seq<(Seq<char>, Seq<char>)>, key: Seq<char>, value: Seq<char>) -> Seq<
    (Seq<char>, Seq<char>),
> {
    if exists|i: int| 0 <= i < d.len() && #[trigger] d[i].0 == key {
        let i = choose|i: int| 0 <= i < d.len() && #[trigger] d[i].0 == key;
        d.update(i, (key, value))
    } else {
        d.push((key, value))
    }
}

/// The envelope that every request starts from: status `Success`, nothing
/// else set, pretty layout.
pub open spec fn default_view() -> MessageView {
    MessageView {
        api: seq![],
        status: ServerApiStatus::Success,
        error: None,
        library: None,
        media: None,
        format: None,
        result: None,
        data: seq![],
        is_pretty: true,
    }
}

/// `key: value`, with the key already quoted.
pub open spec fn member(key: Seq<char>, value: Seq<char>, pretty: bool) -> Seq<char> {
    key + colon(pretty) + value
}

pub open spec fn status_json(s: ServerApiStatus) -> Seq<char> {
    match s {
        ServerApiStatus::Success => "\"Success\""@,
        ServerApiStatus::PartialSuccess => "\"PartialSuccess\""@,
        ServerApiStatus::Failed => "\"Failed\""@,
    }
}

/// A (location, detail) pair: an array of two strings.
pub open spec fn error_pair_json(p: (Seq<char>, Seq<char>), pretty: bool) -> Seq<char> {
    enclosed(
        "["@,
        "]"@,
        seq![json_string_literal(p.0), json_string_literal(p.1)],
        pretty,
        2,
    )
}

pub open spec fn errors_json(e: Seq<(Seq<char>, Seq<char>)>, pretty: bool) -> Seq<char> {
    enclosed("["@, "]"@, e.map_values(|p: (Seq<char>, Seq<char>)| error_pair_json(p, pretty)), pretty, 1)
}

pub open spec fn data_json(d: Seq<(Seq<char>, Seq<char>)>, pretty: bool) -> Seq<char> {
    enclosed(
        "{"@,
        "}"@,
        d.map_values(
            |p: (Seq<char>, Seq<char>)|
                member(json_string_literal(p.0), json_string_literal(p.1), pretty),
        ),
        pretty,
        1,
    )
}

pub open spec fn error_part(m: MessageView) -> Seq<Seq<char>> {
    match m.error {
        Some(e) => seq![member("\"error\""@, errors_json(e, m.is_pretty), m.is_pretty)],
        None => seq![],
    }
}

pub open spec fn library_part(m: MessageView) -> Seq<Seq<char>> {
    match m.library {
        Some(id) => seq![
            member("\"library\""@, json_string_literal(uuid_text_of(id.value)), m.is_pretty),
        ],
        None => seq![],
    }
}

pub open spec fn media_part(m: MessageView) -> Seq<Seq<char>> {
    match m.media {
        Some(n) => seq![member("\"media\""@, decimal_of(n as nat), m.is_pretty)],
        None => seq![],
    }
}

pub open spec fn format_part(m: MessageView) -> Seq<Seq<char>> {
    match m.format {
        Some(f) => seq![member("\"format\""@, json_string_literal(f), m.is_pretty)],
        None => seq![],
    }
}

pub open spec fn result_part(m: MessageView) -> Seq<Seq<char>> {
    match m.result {
        Some(r) => seq![member("\"result\""@, json_string_literal(r), m.is_pretty)],
        None => seq![],
    }
}

pub open spec fn data_part(m: MessageView) -> Seq<Seq<char>> {
    if m.data.len() > 0 {
        seq![member("\"data\""@, data_json(m.data, m.is_pretty), m.is_pretty)]
    } else {
        seq![]
    }
}

/// The members that the JSON object of an envelope has, in order; absent
/// options and an empty data map are left out.
pub open spec fn message_members(m: MessageView) -> Seq<Seq<char>> {
    seq![
        member("\"api\""@, json_string_literal(m.api), m.is_pretty),
        member("\"status\""@, status_json(m.status), m.is_pretty),
    ] + error_part(m) + library_part(m) + media_part(m) + format_part(m) + result_part(m)
        + data_part(m)
}

/// The text of an envelope: its JSON object and a final line break.
pub open spec fn message_json(m: MessageView) -> Seq<char> {
    enclosed("{"@, "}"@, message_members(m), m.is_pretty, 0) + "\n"@
}

fn render_member(key: &str, value: &str, pretty: bool) -> (r: String)
    ensures
        r@ == member(key@, value@, pretty),
{
    let mut s = String::from_str(key);
    if pretty {
        s.append(": ");
    } else {
        s.append(":");
    }
    s.append(value);
    s
}

fn status_text(s: ServerApiStatus) -> (r: &'static str)
    ensures
        r@ == status_json(s),
{
    match s {
        ServerApiStatus::Success => "\"Success\"",
        ServerApiStatus::PartialSuccess => "\"PartialSuccess\"",
        ServerApiStatus::Failed => "\"Failed\"",
    }
}

fn render_error_pair(a: &String, b: &String, pretty: bool) -> (r: String)
    ensures
        r@ == error_pair_json((a@, b@), pretty),
{
    let mut items: Vec<String> = Vec::new();
    items.push(json_quote(a.as_str()));
    items.push(json_quote(b.as_str()));
    assert(views_of(items@) =~= seq![json_string_literal(a@), json_string_literal(b@)]);
    render_enclosed("[", "]", &items, pretty, 2)
}

fn render_errors(e: &Vec<(String, String)>, pretty: bool) -> (r: String)
    ensures
        r@ == errors_json(pairs_view(e@), pretty),
{
    let ghost all = pairs_view(e@).map_values(
        |p: (Seq<char>, Seq<char>)| error_pair_json(p, pretty),
    );
    let mut items: Vec<String> = Vec::new();
    let mut i: usize = 0;
    while i < e.len()
        invariant
            i <= e@.len(),
            all == pairs_view(e@).map_values(
                |p: (Seq<char>, Seq<char>)| error_pair_json(p, pretty),
            ),
            views_of(items@) == all.take(i as int),
        decreases e.len() - i,
    {
        let t = render_error_pair(&e[i].0, &e[i].1, pretty);
        assert(pairs_view(e@)[i as int] == (e@[i as int].0@, e@[i as int].1@));
        assert(all[i as int] == t@);
        let ghost before = items@;
        items.push(t);
        assert(views_of(items@) =~= views_of(before).push(t@));
        assert(all.take(i as int + 1) =~= all.take(i as int).push(all[i as int]));
        i = i + 1;
        assert(views_of(items@) =~= all.take(i as int));
    }
    assert(all.take(e@.len() as int) =~= all);
    render_enclosed("[", "]", &items, pretty, 1)
}

fn render_data(d: &Vec<(String, String)>, pretty: bool) -> (r: String)
    ensures
        r@ == data_json(pairs_view(d@), pretty),
{
    let ghost all = pairs_view(d@).map_values(
        |p: (Seq<char>, Seq<char>)|
            member(json_string_literal(p.0), json_string_literal(p.1), pretty),
    );
    let mut items: Vec<String> = Vec::new();
    let mut i: usize = 0;
    while i < d.len()
        invariant
            i <= d@.len(),
            all == pairs_view(d@).map_values(
                |p: (Seq<char>, Seq<char>)|
                    member(json_string_literal(p.0), json_string_literal(p.1), pretty),
            ),
            views_of(items@) == all.take(i as int),
        decreases d.len() - i,
    {
        let k = json_quote(d[i].0.as_str());
        let v = json_quote(d[i].1.as_str());
        let t = render_member(k.as_str(), v.as_str(), pretty);
        assert(pairs_view(d@)[i as int] == (d@[i as int].0@, d@[i as int].1@));
        assert(all[i as int] == t@);
        let ghost before = items@;
        items.push(t);
        assert(views_of(items@) =~= views_of(before).push(t@));
        assert(all.take(i as int + 1) =~= all.take(i as int).push(all[i as int]));
        i = i + 1;
        assert(views_of(items@) =~= all.take(i as int));
    }
    assert(all.take(d@.len() as int) =~= all);
    render_enclosed("{", "}", &items, pretty, 1)
}

/// Where `key` stands in a data map, if it is there.
fn find_key(data: &Vec<(String, String)>, key: &str) -> (r: Option<usize>)
    ensures
        match r {
            Some(i) => i < data@.len() && pairs_view(data@)[i as int].0 == key@,
            None => !exists|j: int|
                0 <= j < data@.len() && #[trigger] pairs_view(data@)[j].0 == key@,
        },
{
    let ghost d = pairs_view(data@);
    let k = String::from_str(key);
    let mut i: usize = 0;
    while i < data.len()
        invariant
            i <= data@.len(),
            d == pairs_view(data@),
            k@ == key@,
            forall|j: int| 0 <= j < i ==> (#[trigger] d[j]).0 != key@,
        decreases data.len() - i,
    {
        assert(d[i as int] == (data@[i as int].0@, data@[i as int].1@));
        if data[i].0 == k {
            return Some(i);
        }
        i = i + 1;
    }
    None
}

fn copy_pairs(v: &Vec<(String, String)>) -> (r: Vec<(String, String)>)
    ensures
        r@ == v@,
{
    let mut out: Vec<(String, String)> = Vec::new();
    let mut i: usize = 0;
    while i < v.len()
        invariant
            i <= v@.len(),
            out@ == v@.take(i as int),
        decreases v.len() - i,
    {
        let a = v[i].0.clone();
        let b = v[i].1.clone();
        out.push((a, b));
        i = i + 1;
        assert(out@ =~= v@.take(i as int));
    }
    assert(v@.take(v@.len() as int) =~= v@);
    out
}

fn copy_text_option(o: &Option<String>) -> (r: Option<String>)
    ensures
        r == *o,
{
    match o {
        Some(s) => Some(s.clone()),
        None => None,
    }
}

impl Default for ServerMessage {
    fn default() -> (r: ServerMessage)
        ensures
            r@ == default_view(),
            well_formed(r@),
    {
        let r = ServerMessage {
            api: String::new(),
            status: ServerApiStatus::Success,
            error: None,
            library: None,
            media: None,
            format: None,
            result: None,
            data: Vec::new(),
            is_pretty: true,
        };
        assert(r@.data =~= seq![]);
        assert(r@.api =~= seq![]);
        r
    }
}

impl ServerMessage {
    /// A fresh envelope with the same contents.
    pub fn duplicate(&self) -> (r: ServerMessage)
        ensures
            r@ == self@,
    {
        let error = match &self.error {
            Some(v) => Some(copy_pairs(v)),
            None => None,
        };
        ServerMessage {
            api: self.api.clone(),
            status: self.status,
            error,
            library: self.library,
            media: self.media,
            format: copy_text_option(&self.format),
            result: copy_text_option(&self.result),
            data: copy_pairs(&self.data),
            is_pretty: self.is_pretty,
        }
    }

    fn single_error(at: &str, detail: &str) -> (r: Vec<(String, String)>)
        ensures
            pairs_view(r@) == seq![(at@, detail@)],
    {
        let mut v: Vec<(String, String)> = Vec::new();
        v.push((String::from_str(at), String::from_str(detail)));
        assert(pairs_view(v@) =~= seq![(at@, detail@)]);
        v
    }

    /// A failed envelope carrying one (location, detail) pair.
    pub fn from_single_error(
        at: &str,
        detail: &str,
        library: Option<Uuid>,
        media: Option<u64>,
    ) -> (r: ServerMessage)
        ensures
            r@ == (MessageView {
                status: ServerApiStatus::Failed,
                error: Some(seq![(at@, detail@)]),
                library,
                media,
                ..default_view()
            }),
    {
        let base = ServerMessage::default();
        base.with_single_error(at, detail, library, media)
    }

    /// This envelope, failed, with its error list replaced by one pair and
    /// its identifiers set to the ones given.
    pub fn with_single_error(
        self,
        at: &str,
        detail: &str,
        library: Option<Uuid>,
        media: Option<u64>,
    ) -> (r: ServerMessage)
        ensures
            r@ == (MessageView {
                status: ServerApiStatus::Failed,
                error: Some(seq![(at@, detail@)]),
                library,
                media,
                ..self@
            }),
    {
        ServerMessage {
            status: ServerApiStatus::Failed,
            error: Some(ServerMessage::single_error(at, detail)),
            library,
            media,
            ..self
        }
    }

    /// As `with_single_error`, for a request whose main effect took place
    /// while a secondary step failed: the status is `PartialSuccess`.
    pub fn with_single_error_but_partial_success(
        self,
        at: &str,
        detail: &str,
        library: Option<Uuid>,
        media: Option<u64>,
    ) -> (r: ServerMessage)
        ensures
            r@ == (MessageView {
                status: ServerApiStatus::PartialSuccess,
                error: Some(seq![(at@, detail@)]),
                library,
                media,
                ..self@
            }),
    {
        ServerMessage {
            status: ServerApiStatus::PartialSuccess,
            error: Some(ServerMessage::single_error(at, detail)),
            library,
            media,
            ..self
        }
    }

    /// The JSON text of the envelope, pretty or compact as the envelope says,
    /// ending in a line break.
    pub fn to_json_string(&self) -> (r: String)
        ensures
            r@ == message_json(self@),
    {
        let p = self.is_pretty;
        let ghost m = self@;
        let mut members: Vec<String> = Vec::new();
        let q = json_quote(self.api.as_str());
        members.push(render_member("\"api\"", q.as_str(), p));
        members.push(render_member("\"status\"", status_text(self.status), p));
        let ghost head = seq![
            member("\"api\""@, json_string_literal(m.api), p),
            member("\"status\""@, status_json(m.status), p),
        ];
        assert(views_of(members@) =~= head);
        if let Some(e) = &self.error {
            let t = render_errors(e, p);
            members.push(render_member("\"error\"", t.as_str(), p));
        }
        assert(views_of(members@) =~= head + error_part(m));
        if let Some(id) = &self.library {
            let t = json_quote(id.to_text().as_str());
            members.push(render_member("\"library\"", t.as_str(), p));
        }
        assert(views_of(members@) =~= head + error_part(m) + library_part(m));
        if let Some(n) = self.media {
            let t = decimal_text(n);
            members.push(render_member("\"media\"", t.as_str(), p));
        }
        assert(views_of(members@) =~= head + error_part(m) + library_part(m) + media_part(m));
        if let Some(f) = &self.format {
            let t = json_quote(f.as_str());
            members.push(render_member("\"format\"", t.as_str(), p));
        }
        assert(views_of(members@) =~= head + error_part(m) + library_part(m) + media_part(m)
            + format_part(m));
        if let Some(res) = &self.result {
            let t = json_quote(res.as_str());
            members.push(render_member("\"result\"", t.as_str(), p));
        }
        assert(views_of(members@) =~= head + error_part(m) + library_part(m) + media_part(m)
            + format_part(m) + result_part(m));
        if self.data.len() > 0 {
            let t = render_data(&self.data, p);
            members.push(render_member("\"data\"", t.as_str(), p));
        }
        assert(views_of(members@) =~= message_members(m));
        let mut out = render_enclosed("{", "}", &members, p, 0);
        out.append("\n");
        out
    }

    /// Sets `key` to `value` in the data map, keeping each key once.
    pub fn with_data(self, key: &str, value: &str) -> (r: ServerMessage)
        requires
            keys_unique(self@.data),
        ensures
            r@ == (MessageView { data: data_insert(self@.data, key@, value@), ..self@ }),
            keys_unique(r@.data),
    {
        let ghost d = self@.data;
        let found = find_key(&self.data, key);
        let mut data = self.data;
        match found {
            Some(i) => {
                data.set(i, (String::from_str(key), String::from_str(value)));
                proof {
                    let c = choose|c: int| 0 <= c < d.len() && #[trigger] d[c].0 == key@;
                    if c < i as int {
                        assert(d[c].0 != d[i as int].0);
                    } else if c > i as int {
                        assert(d[i as int].0 != d[c].0);
                    }
                    assert(data_insert(d, key@, value@) == d.update(i as int, (key@, value@)));
                    assert(pairs_view(data@) =~= d.update(i as int, (key@, value@)));
                    assert forall|a: int, b: int|
                        0 <= a < b < pairs_view(data@).len() implies #[trigger] pairs_view(
                        data@,
                    )[a].0 != #[trigger] pairs_view(data@)[b].0 by {
                        if a != i as int && b != i as int {
                            assert(d[a].0 != d[b].0);
                        } else if a == i as int {
                            assert(d[b].0 != d[a].0);
                        } else {
                            assert(d[a].0 != d[b].0);
                        }
                    }
                }
            },
            None => {
                data.push((String::from_str(key), String::from_str(value)));
                assert(pairs_view(data@) =~= d.push((key@, value@)));
            },
        }
        ServerMessage { data, ..self }
    }

    pub fn with_pretty_json(self) -> (r: ServerMessage)
        ensures
            r@ == (MessageView { is_pretty: true, ..self@ }),
    {
        ServerMessage { is_pretty: true, ..self }
    }

    pub fn without_pretty_json(self) -> (r: ServerMessage)
        ensures
            r@ == (MessageView { is_pretty: false, ..self@ }),
    {
        ServerMessage { is_pretty: false, ..self }
    }

    pub fn with_api(self, api: &str) -> (r: ServerMessage)
        ensures
            r@ == (MessageView { api: api@, ..self@ }),
    {
        ServerMessage { api: String::from_str(api), ..self }
    }

    pub fn with_library(self, library: Uuid) -> (r: ServerMessage)
        ensures
            r@ == (MessageView { library: Some(library), ..self@ }),
    {
        ServerMessage { library: Some(library), ..self }
    }

    pub fn with_media(self, media: u64) -> (r: ServerMessage)
        ensures
            r@ == (MessageView { media: Some(media), ..self@ }),
    {
        ServerMessage { media: Some(media), ..self }
    }

    pub fn with_result(self, result: String) -> (r: ServerMessage)
        ensures
            r@ == (MessageView { result: Some(result@), ..self@ }),
    {
        ServerMessage { result: Some(result), ..self }
    }

    pub fn with_format(self, format: &str) -> (r: ServerMessage)
        ensures
            r@ == (MessageView { format: Some(format@), ..self@ }),
    {
        ServerMessage { format: Some(String::from_str(format)), ..self }
    }
}

} // verus!
