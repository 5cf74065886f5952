//! The database behind the bridge: queries, errors, and the collections it needs. Only ids, mappings
//! and the encrypted session are stored there, never message text.

use crate::json::{
    object, put, put_flag, put_item, put_opt_text, put_text, shows, shows_items, shows_members, Doc,
    Json,
};
use crate::numbers::{decimal, decimal_int, show_i64, show_u64};
use crate::text::{first_chars, take_chars};
use vstd::prelude::*;

verus! {

/// One condition of a query.
#[derive(Debug)]
pub struct Filter {
    pub field: String,
    pub op: &'static str,
    pub value: String,
}

impl Filter {
    /// A field equals a text.
    pub fn eq(field: &str, value: &str) -> (r: Self)
        ensures
            r.field@ == field@,
            r.op@ == "_eq"@,
            r.value@ == value@,
    {
        Filter { field: field.to_owned(), op: "_eq", value: value.to_owned() }
    }

    /// A field equals a number.
    pub fn eq_number(field: &str, value: i64) -> (r: Self)
        ensures
            r.field@ == field@,
            r.op@ == "_eq"@,
            r.value@ == decimal_int(value as int),
    {
        Filter { field: field.to_owned(), op: "_eq", value: show_i64(value) }
    }
}

/// The query parameter of a condition.
pub open spec fn filter_param(f: Filter) -> (Seq<char>, Seq<char>) {
    ("filter["@ + f.field@ + "]["@ + f.op@ + "]"@, f.value@)
}

/// Query parameters as texts.
pub open spec fn param_texts(q: Seq<(String, String)>) -> Seq<(Seq<char>, Seq<char>)> {
    Seq::new(q.len(), |i: int| (q[i].0@, q[i].1@))
}

/// The parameters of a list query: the conditions, the limit (none is `-1`), the order.
pub open spec fn list_params(
    filters: Seq<Filter>,
    limit: Option<u32>,
    sort: Option<Seq<char>>,
) -> Seq<(Seq<char>, Seq<char>)> {
    Seq::new(filters.len(), |i: int| filter_param(filters[i])).push(
        (
            "limit"@,
            match limit {
                Some(l) => decimal(l as nat),
                None => "-1"@,
            },
        ),
    ) + (match sort {
        Some(s) => seq![("sort"@, s)],
        None => seq![],
    })
}

/// The parameters of a list query.
pub fn list_query(filters: &Vec<Filter>, limit: Option<u32>, sort: Option<&str>) -> (r: Vec<
    (String, String),
>)
    ensures
        param_texts(r@) == list_params(
            filters@,
            limit,
            match sort {
                Some(s) => Some(s@),
                None => None,
            },
        ),
{
    let mut q: Vec<(String, String)> = Vec::new();
    let mut i: usize = 0;
    while i < filters.len()
        invariant
            i <= filters.len(),
            q@.len() == i,
            forall|k: int|
                0 <= k < i ==> ((#[trigger] q@[k]).0@, q@[k].1@) == filter_param(filters@[k]),
        decreases filters.len() - i,
    {
        let f = &filters[i];
        q.push(
            (
                "filter[".to_owned().concat(f.field.as_str()).concat("][").concat(f.op).concat("]"),
                f.value.clone(),
            ),
        );
        i += 1;
    }
    q.push(
        (
            "limit".to_owned(),
            match limit {
                Some(l) => show_u64(l as u64),
                None => "-1".to_owned(),
            },
        ),
    );
    match sort {
        Some(s) => {
            q.push(("sort".to_owned(), s.to_owned()));
        },
        None => {},
    }
    assert(param_texts(q@) =~= list_params(
        filters@,
        limit,
        match sort {
            Some(s) => Some(s@),
            None => None,
        },
    ));
    q
}

/// A refused request.
#[derive(Debug)]
pub struct DirectusError {
    pub status: u16,
    /// The status with its reason, such as `404 Not Found`.
    pub status_text: String,
    pub message: String,
    pub path: String,
}

impl DirectusError {
    /// The error of a refusal: the message the reply names, else the beginning of its text.
    pub fn from_reply(
        status: u16,
        status_text: String,
        path: &str,
        named: Option<String>,
        text: &str,
    ) -> (r: Self)
        ensures
            r.status == status,
            r.status_text == status_text,
            r.path@ == path@,
            r.message@ == (match named {
                Some(m) => m@,
                None => first_chars(text@, 300),
            }),
    {
        let message = match named {
            Some(m) => m,
            None => take_chars(text, 300),
        };
        DirectusError { status, status_text, message, path: path.to_owned() }
    }

    /// What the error says to a reader.
    pub fn message(&self) -> (r: String)
        ensures
            r@ == "directus "@ + self.status_text@ + " on "@ + self.path@ + ": "@ + self.message@,
    {
        "directus ".to_owned().concat(self.status_text.as_str()).concat(" on ").concat(
            self.path.as_str(),
        ).concat(": ").concat(self.message.as_str())
    }

    /// A row or collection that is missing or hidden counts as absent.
    pub fn is_absent(&self) -> (r: bool)
        ensures
            r == (self.status == 403 || self.status == 404),
    {
        self.status == 403 || self.status == 404
    }

    /// A reachable server that only refuses the token is still an error.
    pub fn fails_ping(&self) -> (r: bool)
        ensures
            r == (self.status == 401),
    {
        self.status == 401
    }
}

/// Kinds of columns.
#[derive(Debug, Clone, Copy, PartialEq, Eq, Structural)]
pub enum FieldKind {
    Line,
    Text,
    BigInt,
    Boolean,
    Timestamp,
    Data,
    Reference,
}

/// A column.
#[derive(Debug, Clone, Copy)]
pub struct FieldSpec {
    pub name: &'static str,
    pub kind: FieldKind,
    pub unique: bool,
}

/// A reference to another collection.
#[derive(Debug)]
pub struct RelationSpec {
    pub field: &'static str,
    pub related: String,
}

/// A collection.
#[derive(Debug)]
pub struct CollectionSpec {
    pub name: String,
    pub note: &'static str,
    pub fields: Vec<FieldSpec>,
    pub relations: Vec<RelationSpec>,
}

/// Database type of a kind of column.
pub open spec fn kind_type(k: FieldKind) -> Seq<char> {
    match k {
        FieldKind::Line => "string"@,
        FieldKind::Text => "text"@,
        FieldKind::BigInt => "bigInteger"@,
        FieldKind::Boolean => "boolean"@,
        FieldKind::Timestamp => "timestamp"@,
        FieldKind::Data => "json"@,
        FieldKind::Reference => "integer"@,
    }
}

/// Form element of a kind of column.
pub open spec fn kind_interface(k: FieldKind) -> Seq<char> {
    match k {
        FieldKind::Line => "input"@,
        FieldKind::Text => "input-multiline"@,
        FieldKind::BigInt => "input"@,
        FieldKind::Boolean => "boolean"@,
        FieldKind::Timestamp => "datetime"@,
        FieldKind::Data => "input-code"@,
        FieldKind::Reference => "select-dropdown-m2o"@,
    }
}

/// Presentation of a column.
pub open spec fn meta_doc(k: FieldKind) -> Doc {
    let base = ("interface"@, Doc::Text(kind_interface(k)));
    Doc::Record(
        match k {
            FieldKind::Data => seq![
                base,
                ("options"@, Doc::Record(seq![("language"@, Doc::Text("json"@))])),
            ],
            FieldKind::Reference => seq![base, ("special"@, Doc::List(seq![Doc::Text("m2o"@)]))],
            _ => seq![base],
        },
    )
}

/// Constraints of a column.
pub open spec fn schema_doc(f: FieldSpec) -> Doc {
    Doc::Record(
        (if f.kind == FieldKind::Boolean {
            seq![("default_value"@, Doc::Flag(false))]
        } else {
            seq![]
        }) + (if f.unique {
            seq![("is_unique"@, Doc::Flag(true))]
        } else {
            seq![]
        }),
    )
}

/// A column as it is created.
pub open spec fn field_doc(f: FieldSpec) -> Doc {
    Doc::Record(
        seq![
            ("field"@, Doc::Text(f.name@)),
            ("type"@, Doc::Text(kind_type(f.kind))),
            ("meta"@, meta_doc(f.kind)),
            ("schema"@, schema_doc(f)),
        ],
    )
}

/// The key column of every collection.
pub open spec fn id_doc() -> Doc {
    Doc::Record(
        seq![
            ("field"@, Doc::Text("id"@)),
            ("type"@, Doc::Text("integer"@)),
            (
                "meta"@,
                Doc::Record(
                    seq![
                        ("hidden"@, Doc::Flag(true)),
                        ("interface"@, Doc::Text("input"@)),
                        ("readonly"@, Doc::Flag(true)),
                    ],
                ),
            ),
            (
                "schema"@,
                Doc::Record(
                    seq![
                        ("is_primary_key"@, Doc::Flag(true)),
                        ("has_auto_increment"@, Doc::Flag(true)),
                    ],
                ),
            ),
        ],
    )
}

/// The columns as they are created.
pub open spec fn fields_doc(f: Seq<FieldSpec>) -> Seq<Doc> {
    seq![id_doc()] + Seq::new(f.len(), |i: int| field_doc(f[i]))
}

/// A collection as it is created.
pub open spec fn collection_doc(c: CollectionSpec) -> Doc {
    Doc::Record(
        seq![
            ("collection"@, Doc::Text(c.name@)),
            (
                "meta"@,
                Doc::Record(
                    seq![
                        ("note"@, Doc::Text(c.note@)),
                        ("hidden"@, Doc::Flag(false)),
                        ("singleton"@, Doc::Flag(false)),
                        ("icon"@, Doc::Text("hub"@)),
                    ],
                ),
            ),
            ("schema"@, Doc::Record(seq![])),
            ("fields"@, Doc::List(fields_doc(c.fields@))),
        ],
    )
}

impl FieldKind {
    fn column_type(self) -> (r: &'static str)
        ensures
            r@ == kind_type(self),
    {
        match self {
            FieldKind::Line => "string",
            FieldKind::Text => "text",
            FieldKind::BigInt => "bigInteger",
            FieldKind::Boolean => "boolean",
            FieldKind::Timestamp => "timestamp",
            FieldKind::Data => "json",
            FieldKind::Reference => "integer",
        }
    }

    fn interface(self) -> (r: &'static str)
        ensures
            r@ == kind_interface(self),
    {
        match self {
            FieldKind::Line => "input",
            FieldKind::Text => "input-multiline",
            FieldKind::BigInt => "input",
            FieldKind::Boolean => "boolean",
            FieldKind::Timestamp => "datetime",
            FieldKind::Data => "input-code",
            FieldKind::Reference => "select-dropdown-m2o",
        }
    }

    fn meta(self) -> (r: Json)
        ensures
            shows(r, meta_doc(self)),
    {
        let ghost none: Seq<(Seq<char>, Doc)> = seq![];
        let mut o: Vec<(String, Json)> = Vec::new();
        assert(shows_members(o@, none));
        put_text(&mut o, "interface", self.interface());
        let ghost base = none.push(("interface"@, Doc::Text(kind_interface(self))));
        assert(shows_members(o@, base));
        match self {
            FieldKind::Data => {
                let mut options: Vec<(String, Json)> = Vec::new();
                assert(shows_members(options@, none));
                put_text(&mut options, "language", "json");
                let inner = object(options);
                let ghost lang = none.push(("language"@, Doc::Text("json"@)));
                assert(shows(inner, Doc::Record(lang)));
                put(&mut o, "options", inner);
                let r = object(o);
                let ghost all = base.push(("options"@, Doc::Record(lang)));
                assert(shows(r, Doc::Record(all)));
                assert(lang =~= seq![("language"@, Doc::Text("json"@))]);
                assert(meta_doc(self)->Record_0 =~= all);
                r
            },
            FieldKind::Reference => {
                let ghost no_items: Seq<Doc> = seq![];
                let mut list: Vec<Json> = Vec::new();
                assert(shows_items(list@, no_items));
                let item = Json::Str("m2o".to_owned());
                assert(shows(item, Doc::Text("m2o"@)));
                put_item(&mut list, item);
                let inner = Json::Arr(list);
                let ghost items = no_items.push(Doc::Text("m2o"@));
                assert(shows_items(list@, items));
                assert(shows(inner, Doc::List(items)));
                put(&mut o, "special", inner);
                let r = object(o);
                let ghost all = base.push(("special"@, Doc::List(items)));
                assert(shows(r, Doc::Record(all)));
                assert(items =~= seq![Doc::Text("m2o"@)]);
                assert(meta_doc(self)->Record_0 =~= all);
                r
            },
            _ => {
                let r = object(o);
                assert(meta_doc(self)->Record_0 =~= base);
                r
            },
        }
    }
}

impl FieldSpec {
    /// The column as it is created.
    pub fn to_json(&self) -> (r: Json)
        ensures
            shows(r, field_doc(*self)),
    {
        let ghost none: Seq<(Seq<char>, Doc)> = seq![];
        let mut limits: Vec<(String, Json)> = Vec::new();
        assert(shows_members(limits@, none));
        let ghost mut ds = none;
        if self.kind == FieldKind::Boolean {
            put_flag(&mut limits, "default_value", false);
            proof {
                ds = ds.push(("default_value"@, Doc::Flag(false)));
            }
        }
        if self.unique {
            put_flag(&mut limits, "is_unique", true);
            proof {
                ds = ds.push(("is_unique"@, Doc::Flag(true)));
            }
        }
        assert(shows_members(limits@, ds));
        assert(schema_doc(*self)->Record_0 =~= ds);
        let limits = object(limits);
        assert(shows(limits, schema_doc(*self)));
        let meta = self.kind.meta();
        let mut o: Vec<(String, Json)> = Vec::new();
        assert(shows_members(o@, none));
        put_text(&mut o, "field", self.name);
        put_text(&mut o, "type", self.kind.column_type());
        put(&mut o, "meta", meta);
        put(&mut o, "schema", limits);
        let ghost all = none.push(("field"@, Doc::Text(self.name@))).push(
            ("type"@, Doc::Text(kind_type(self.kind))),
        ).push(("meta"@, meta_doc(self.kind))).push(("schema"@, schema_doc(*self)));
        assert(shows_members(o@, all));
        assert(field_doc(*self)->Record_0 =~= all);
        object(o)
    }
}

fn id_field() -> (r: Json)
    ensures
        shows(r, id_doc()),
{
    let ghost none: Seq<(Seq<char>, Doc)> = seq![];
    let mut meta: Vec<(String, Json)> = Vec::new();
    assert(shows_members(meta@, none));
    put_flag(&mut meta, "hidden", true);
    put_text(&mut meta, "interface", "input");
    put_flag(&mut meta, "readonly", true);
    let ghost md = none.push(("hidden"@, Doc::Flag(true))).push(
        ("interface"@, Doc::Text("input"@)),
    ).push(("readonly"@, Doc::Flag(true)));
    assert(shows_members(meta@, md));
    let meta = object(meta);
    assert(shows(meta, Doc::Record(md)));
    let mut limits: Vec<(String, Json)> = Vec::new();
    assert(shows_members(limits@, none));
    put_flag(&mut limits, "is_primary_key", true);
    put_flag(&mut limits, "has_auto_increment", true);
    let ghost ld = none.push(("is_primary_key"@, Doc::Flag(true))).push(
        ("has_auto_increment"@, Doc::Flag(true)),
    );
    assert(shows_members(limits@, ld));
    let limits = object(limits);
    assert(shows(limits, Doc::Record(ld)));
    let mut o: Vec<(String, Json)> = Vec::new();
    assert(shows_members(o@, none));
    put_text(&mut o, "field", "id");
    put_text(&mut o, "type", "integer");
    put(&mut o, "meta", meta);
    put(&mut o, "schema", limits);
    let ghost all = none.push(("field"@, Doc::Text("id"@))).push(
        ("type"@, Doc::Text("integer"@)),
    ).push(("meta"@, Doc::Record(md))).push(("schema"@, Doc::Record(ld)));
    assert(shows_members(o@, all));
    assert(md =~= seq![
        ("hidden"@, Doc::Flag(true)),
        ("interface"@, Doc::Text("input"@)),
        ("readonly"@, Doc::Flag(true)),
    ]);
    assert(ld =~= seq![
        ("is_primary_key"@, Doc::Flag(true)),
        ("has_auto_increment"@, Doc::Flag(true)),
    ]);
    assert(id_doc()->Record_0 =~= all);
    object(o)
}

impl CollectionSpec {
    /// The collection as it is created.
    pub fn to_create_payload(&self) -> (r: Json)
        ensures
            shows(r, collection_doc(*self)),
    {
        let ghost none: Seq<(Seq<char>, Doc)> = seq![];
        let ghost no_items: Seq<Doc> = seq![];
        let mut list: Vec<Json> = Vec::new();
        assert(shows_items(list@, no_items));
        let id = id_field();
        put_item(&mut list, id);
        assert(shows_items(list@, no_items.push(id_doc())));
        assert(no_items.push(id_doc()) =~= fields_doc(self.fields@.take(0)));
        let mut i: usize = 0;
        while i < self.fields.len()
            invariant
                i <= self.fields.len(),
                shows_items(list@, fields_doc(self.fields@.take(i as int))),
            decreases self.fields.len() - i,
        {
            let ghost before = fields_doc(self.fields@.take(i as int));
            let f = self.fields[i].to_json();
            put_item(&mut list, f);
            assert(shows_items(list@, before.push(field_doc(self.fields@[i as int]))));
            assert(before.push(field_doc(self.fields@[i as int])) =~= fields_doc(
                self.fields@.take(i + 1),
            ));
            i += 1;
        }
        assert(self.fields@.take(i as int) =~= self.fields@);
        let fields = Json::Arr(list);
        assert(shows(fields, Doc::List(fields_doc(self.fields@))));
        let mut meta: Vec<(String, Json)> = Vec::new();
        assert(shows_members(meta@, none));
        put_text(&mut meta, "note", self.note);
        put_flag(&mut meta, "hidden", false);
        put_flag(&mut meta, "singleton", false);
        put_text(&mut meta, "icon", "hub");
        let ghost md = none.push(("note"@, Doc::Text(self.note@))).push(
            ("hidden"@, Doc::Flag(false)),
        ).push(("singleton"@, Doc::Flag(false))).push(("icon"@, Doc::Text("hub"@)));
        assert(shows_members(meta@, md));
        let meta = object(meta);
        assert(shows(meta, Doc::Record(md)));
        let empty: Vec<(String, Json)> = Vec::new();
        assert(shows_members(empty@, none));
        let empty = object(empty);
        assert(shows(empty, Doc::Record(none)));
        let mut o: Vec<(String, Json)> = Vec::new();
        assert(shows_members(o@, none));
        put_text(&mut o, "collection", self.name.as_str());
        put(&mut o, "meta", meta);
        put(&mut o, "schema", empty);
        put(&mut o, "fields", fields);
        let ghost all = none.push(("collection"@, Doc::Text(self.name@))).push(
            ("meta"@, Doc::Record(md)),
        ).push(("schema"@, Doc::Record(none))).push(
            ("fields"@, Doc::List(fields_doc(self.fields@))),
        );
        assert(shows_members(o@, all));
        assert(md =~= seq![
            ("note"@, Doc::Text(self.note@)),
            ("hidden"@, Doc::Flag(false)),
            ("singleton"@, Doc::Flag(false)),
            ("icon"@, Doc::Text("hub"@)),
        ]);
        assert(collection_doc(*self)->Record_0 =~= all);
        object(o)
    }
}

/// A relation as it is created: rows go with what they refer to.
pub open spec fn relation_doc(collection: Seq<char>, field: Seq<char>, related: Seq<char>) -> Doc {
    Doc::Record(
        seq![
            ("collection"@, Doc::Text(collection)),
            ("field"@, Doc::Text(field)),
            ("related_collection"@, Doc::Text(related)),
            ("schema"@, Doc::Record(seq![("on_delete"@, Doc::Text("CASCADE"@))])),
            ("meta"@, Doc::Record(seq![("one_field"@, Doc::Null)])),
        ],
    )
}

/// A relation as it is created.
pub fn relation_payload(collection: &str, rel: &RelationSpec) -> (r: Json)
    ensures
        shows(r, relation_doc(collection@, rel.field@, rel.related@)),
{
    let ghost none: Seq<(Seq<char>, Doc)> = seq![];
    let mut rule: Vec<(String, Json)> = Vec::new();
    assert(shows_members(rule@, none));
    put_text(&mut rule, "on_delete", "CASCADE");
    let ghost rd = none.push(("on_delete"@, Doc::Text("CASCADE"@)));
    let rule = object(rule);
    assert(shows(rule, Doc::Record(rd)));
    let mut meta: Vec<(String, Json)> = Vec::new();
    assert(shows_members(meta@, none));
    put_opt_text(&mut meta, "one_field", None);
    let ghost md = none.push(("one_field"@, Doc::Null));
    assert(shows_members(meta@, md));
    let meta = object(meta);
    assert(shows(meta, Doc::Record(md)));
    let mut o: Vec<(String, Json)> = Vec::new();
    assert(shows_members(o@, none));
    put_text(&mut o, "collection", collection);
    put_text(&mut o, "field", rel.field);
    put_text(&mut o, "related_collection", rel.related.as_str());
    put(&mut o, "schema", rule);
    put(&mut o, "meta", meta);
    let ghost all = none.push(("collection"@, Doc::Text(collection@))).push(
        ("field"@, Doc::Text(rel.field@)),
    ).push(("related_collection"@, Doc::Text(rel.related@))).push(("schema"@, Doc::Record(rd))).push(
        ("meta"@, Doc::Record(md)),
    );
    assert(shows_members(o@, all));
    assert(rd =~= seq![("on_delete"@, Doc::Text("CASCADE"@))]);
    assert(md =~= seq![("one_field"@, Doc::Null)]);
    assert(relation_doc(collection@, rel.field@, rel.related@)->Record_0 =~= all);
    object(o)
}

/// The names of the collections.
#[derive(Debug)]
pub struct Names {
    pub users: String,
    pub accounts: String,
    pub conversations: String,
    pub messages: String,
}

/// The names of the collections under a prefix.
pub fn collection_names(prefix: &str) -> (r: Names)
    ensures
        r.users@ == prefix@ + "users"@,
        r.accounts@ == prefix@ + "accounts"@,
        r.conversations@ == prefix@ + "conversations"@,
        r.messages@ == prefix@ + "messages"@,
{
    Names {
        users: prefix.to_owned().concat("users"),
        accounts: prefix.to_owned().concat("accounts"),
        conversations: prefix.to_owned().concat("conversations"),
        messages: prefix.to_owned().concat("messages"),
    }
}

/// A column of a kind.
pub open spec fn column(name: &'static str, kind: FieldKind) -> FieldSpec {
    FieldSpec { name, kind, unique: false }
}

fn col(name: &'static str, kind: FieldKind) -> (r: FieldSpec)
    ensures
        r == column(name, kind),
{
    FieldSpec { name, kind, unique: false }
}

/// A collection is the expected one: its name, its columns, and what it refers to.
pub open spec fn collection_is(
    c: CollectionSpec,
    name: Seq<char>,
    note: Seq<char>,
    fields: Seq<FieldSpec>,
    refers: Option<(Seq<char>, Seq<char>)>,
) -> bool {
    &&& c.name@ == name
    &&& c.note@ == note
    &&& c.fields@ == fields
    &&& match refers {
        Some(x) => c.relations@.len() == 1 && c.relations@[0].field@ == x.0
            && c.relations@[0].related@ == x.1,
        None => c.relations@.len() == 0,
    }
}

/// Columns of the users.
pub open spec fn user_columns() -> Seq<FieldSpec> {
    seq![
        FieldSpec { name: "telegram_user_id", kind: FieldKind::Line, unique: true },
        column("telegram_username", FieldKind::Line),
        column("telegram_first_name", FieldKind::Line),
        column("settings", FieldKind::Data),
        column("created_at", FieldKind::Timestamp),
        column("updated_at", FieldKind::Timestamp),
    ]
}

/// Columns of the connected accounts.
pub open spec fn account_columns() -> Seq<FieldSpec> {
    seq![
        column("user", FieldKind::Reference),
        column("tzibbur_user_id", FieldKind::Line),
        column("phone_e164", FieldKind::Line),
        column("display_name", FieldKind::Line),
        column("device_id", FieldKind::Line),
        column("encrypted_session", FieldKind::Text),
        column("status", FieldKind::Line),
        column("settings", FieldKind::Data),
        column("connected_at", FieldKind::Timestamp),
        column("updated_at", FieldKind::Timestamp),
    ]
}

/// Columns of the conversations.
pub open spec fn conversation_columns() -> Seq<FieldSpec> {
    seq![
        column("account", FieldKind::Reference),
        column("group_id", FieldKind::Line),
        column("telegram_chat_id", FieldKind::Line),
        column("telegram_topic_id", FieldKind::Line),
        column("name", FieldKind::Line),
        column("kind", FieldKind::Line),
        column("last_forwarded_seq", FieldKind::BigInt),
        column("closed", FieldKind::Boolean),
        column("created_at", FieldKind::Timestamp),
        column("updated_at", FieldKind::Timestamp),
    ]
}

/// Columns of the message mappings.
pub open spec fn message_columns() -> Seq<FieldSpec> {
    seq![
        column("conversation", FieldKind::Reference),
        column("tzibbur_message_id", FieldKind::Line),
        column("client_message_id", FieldKind::Line),
        column("seq", FieldKind::BigInt),
        column("telegram_message_id", FieldKind::Line),
        column("direction", FieldKind::Line),
        column("created_at", FieldKind::Timestamp),
    ]
}

fn collection(
    name: &String,
    note: &'static str,
    fields: Vec<FieldSpec>,
    refers: Option<(&'static str, &String)>,
) -> (r: CollectionSpec)
    ensures
        collection_is(
            r,
            name@,
            note@,
            fields@,
            match refers {
                Some(x) => Some((x.0@, x.1@)),
                None => None,
            },
        ),
{
    let mut relations: Vec<RelationSpec> = Vec::new();
    match refers {
        Some((field, related)) => {
            relations.push(RelationSpec { field, related: related.clone() });
        },
        None => {},
    }
    CollectionSpec { name: name.clone(), note, fields, relations }
}

fn user_fields() -> (v: Vec<FieldSpec>)
    ensures
        v@ == user_columns(),
{
    let mut v: Vec<FieldSpec> = Vec::new();
    v.push(FieldSpec { name: "telegram_user_id", kind: FieldKind::Line, unique: true });
    v.push(col("telegram_username", FieldKind::Line));
    v.push(col("telegram_first_name", FieldKind::Line));
    v.push(col("settings", FieldKind::Data));
    v.push(col("created_at", FieldKind::Timestamp));
    v.push(col("updated_at", FieldKind::Timestamp));
    assert(v@ =~= user_columns());
    v
}

fn account_fields() -> (v: Vec<FieldSpec>)
    ensures
        v@ == account_columns(),
{
    let mut v: Vec<FieldSpec> = Vec::new();
    v.push(col("user", FieldKind::Reference));
    v.push(col("tzibbur_user_id", FieldKind::Line));
    v.push(col("phone_e164", FieldKind::Line));
    v.push(col("display_name", FieldKind::Line));
    v.push(col("device_id", FieldKind::Line));
    v.push(col("encrypted_session", FieldKind::Text));
    v.push(col("status", FieldKind::Line));
    v.push(col("settings", FieldKind::Data));
    v.push(col("connected_at", FieldKind::Timestamp));
    v.push(col("updated_at", FieldKind::Timestamp));
    assert(v@ =~= account_columns());
    v
}

fn conversation_fields() -> (v: Vec<FieldSpec>)
    ensures
        v@ == conversation_columns(),
{
    let mut v: Vec<FieldSpec> = Vec::new();
    v.push(col("account", FieldKind::Reference));
    v.push(col("group_id", FieldKind::Line));
    v.push(col("telegram_chat_id", FieldKind::Line));
    v.push(col("telegram_topic_id", FieldKind::Line));
    v.push(col("name", FieldKind::Line));
    v.push(col("kind", FieldKind::Line));
    v.push(col("last_forwarded_seq", FieldKind::BigInt));
    v.push(col("closed", FieldKind::Boolean));
    v.push(col("created_at", FieldKind::Timestamp));
    v.push(col("updated_at", FieldKind::Timestamp));
    assert(v@ =~= conversation_columns());
    v
}

fn message_fields() -> (v: Vec<FieldSpec>)
    ensures
        v@ == message_columns(),
{
    let mut v: Vec<FieldSpec> = Vec::new();
    v.push(col("conversation", FieldKind::Reference));
    v.push(col("tzibbur_message_id", FieldKind::Line));
    v.push(col("client_message_id", FieldKind::Line));
    v.push(col("seq", FieldKind::BigInt));
    v.push(col("telegram_message_id", FieldKind::Line));
    v.push(col("direction", FieldKind::Line));
    v.push(col("created_at", FieldKind::Timestamp));
    assert(v@ =~= message_columns());
    v
}

/// The collections the bridge needs, in the order in which they refer to each other.
pub fn schema(prefix: &str) -> (r: Vec<CollectionSpec>)
    ensures
        r@.len() == 4,
        collection_is(
            r@[0],
            prefix@ + "users"@,
            "Telegram users who have talked to the bridge bot"@,
            user_columns(),
            None,
        ),
        collection_is(
            r@[1],
            prefix@ + "accounts"@,
            "Connected Tzibbur accounts (session token encrypted with BRIDGE_MASTER_KEY)"@,
            account_columns(),
            Some(("user"@, prefix@ + "users"@)),
        ),
        collection_is(
            r@[2],
            prefix@ + "conversations"@,
            "Tzibbur group Telegram topic mapping (one per account × group)"@,
            conversation_columns(),
            Some(("account"@, prefix@ + "accounts"@)),
        ),
        collection_is(
            r@[3],
            prefix@ + "messages"@,
            "Message-id mapping for replies and idempotency (no bodies stored)"@,
            message_columns(),
            Some(("conversation"@, prefix@ + "conversations"@)),
        ),
{
    let n = collection_names(prefix);
    let mut v: Vec<CollectionSpec> = Vec::new();
    v.push(
        collection(
            &n.users,
            "Telegram users who have talked to the bridge bot",
            user_fields(),
            None,
        ),
    );
    v.push(
        collection(
            &n.accounts,
            "Connected Tzibbur accounts (session token encrypted with BRIDGE_MASTER_KEY)",
            account_fields(),
            Some(("user", &n.users)),
        ),
    );
    v.push(
        collection(
            &n.conversations,
            "Tzibbur group Telegram topic mapping (one per account × group)",
            conversation_fields(),
            Some(("account", &n.accounts)),
        ),
    );
    v.push(
        collection(
            &n.messages,
            "Message-id mapping for replies and idempotency (no bodies stored)",
            message_fields(),
            Some(("conversation", &n.conversations)),
        ),
    );
    v
}

} // verus!
