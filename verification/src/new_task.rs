//! The task-creation payload: a required `content` field, a set of
//! optional fields, and the mutually exclusive due-date variants, together
//! with a verified serializer producing the exact wire representation.

use vstd::prelude::*;
use vstd::string::StringExecFns;

verus! {

/// Used to define the creation of a new task.
///
/// `content` must be specified in the creation of a new task, but all
/// other fields are optional: an unset field is omitted from the
/// serialized output entirely, never emitted as null.
///
/// No field is validated beyond its type: the remote service expects
/// `priority` in the range 1 to 4 and `duration_unit` to be `minute` or
/// `day`, but neither convention is enforced here, matching the remote
/// API's own contract of performing that validation server-side.
pub struct NewTask {
    pub content: String,
    pub description: Option<String>,
    pub project_id: Option<String>,
    pub section_id: Option<String>,
    pub parent_id: Option<String>,
    pub order: Option<i32>,
    pub labels: Option<Vec<String>>,
    pub priority: Option<u8>,
    pub due: Option<NewDue>,
    pub assignee_id: Option<String>,
    pub duration: Option<u32>,
    pub duration_unit: Option<String>,
}

/// Represents the new due date of a task. The API allows one of:
/// * a due string and, optionally, a corresponding language (the remote
///   service defaults to English when the language is absent),
/// * a date in the format `YYYY-MM-DD`, relative to the user's timezone,
/// * a datetime in RFC3339 format, in UTC.
///
/// These options are mutually exclusive: a value of this type can only
/// ever serialize as its own variant's field set, so no payload can carry
/// fields from two variants at once.
pub enum NewDue {
    String { due_string: String, due_lang: Option<String> },
    Date { due_date: String },
    Datetime { due_datetime: String },
}

/// One serialized field: the quoted key, a colon, and the rendered value.
pub open spec fn spec_field(key: Seq<char>, value: Seq<char>) -> Seq<char> {
    seq!['"'] + key + seq!['"', ':'] + value
}

/// The comma-separated body of a serialized object.
pub open spec fn spec_join_fields(fields: Seq<(Seq<char>, Seq<char>)>) -> Seq<char>
    decreases fields.len(),
{
    if fields.len() == 0 {
        Seq::empty()
    } else if fields.len() == 1 {
        spec_field(fields[0].0, fields[0].1)
    } else {
        spec_join_fields(fields.drop_last()) + seq![','] + spec_field(
            fields.last().0,
            fields.last().1,
        )
    }
}

/// The rendering of fields that follow an earlier field: each one is
/// preceded by a comma.
pub open spec fn spec_tail_fields(fields: Seq<(Seq<char>, Seq<char>)>) -> Seq<char>
    decreases fields.len(),
{
    if fields.len() == 0 {
        Seq::empty()
    } else {
        spec_tail_fields(fields.drop_last()) + seq![','] + spec_field(
            fields.last().0,
            fields.last().1,
        )
    }
}

/// The contribution of an optional text field: nothing when the field is
/// unset, one key with a JSON string value when it is set.
pub open spec fn spec_opt_text_field(key: Seq<char>, value: Option<String>) -> Seq<
    (Seq<char>, Seq<char>),
> {
    match value {
        Some(s) => seq![(key, crate::json::spec_json_string(s@))],
        None => Seq::empty(),
    }
}

/// The contribution of the display-order field.
pub open spec fn spec_order_fields(value: Option<i32>) -> Seq<(Seq<char>, Seq<char>)> {
    match value {
        Some(v) => seq![(("order")@, crate::json::spec_signed_decimal(v as int))],
        None => Seq::empty(),
    }
}

/// The contribution of the labels field. A set field always contributes
/// its key, so labels set to an empty list appear as `[]` rather than
/// being dropped.
pub open spec fn spec_labels_fields(value: Option<Vec<String>>) -> Seq<(Seq<char>, Seq<char>)> {
    match value {
        Some(ls) => seq![(("labels")@, crate::json::spec_string_array(ls.deep_view()))],
        None => Seq::empty(),
    }
}

/// The contribution of the priority field.
pub open spec fn spec_priority_fields(value: Option<u8>) -> Seq<(Seq<char>, Seq<char>)> {
    match value {
        Some(p) => seq![(("priority")@, crate::json::spec_decimal(p as nat))],
        None => Seq::empty(),
    }
}

/// The contribution of the duration field.
pub open spec fn spec_duration_fields(value: Option<u32>) -> Seq<(Seq<char>, Seq<char>)> {
    match value {
        Some(n) => seq![(("duration")@, crate::json::spec_decimal(n as nat))],
        None => Seq::empty(),
    }
}

/// The fields a due-date specification contributes: only the active
/// variant's keys, flattened into the payload's own key space.
pub open spec fn spec_due_fields(due: NewDue) -> Seq<(Seq<char>, Seq<char>)> {
    match due {
        NewDue::String { due_string, due_lang } => seq![
            (("due_string")@, crate::json::spec_json_string(due_string@)),
        ] + spec_opt_text_field(("due_lang")@, due_lang),
        NewDue::Date { due_date } => seq![
            (("due_date")@, crate::json::spec_json_string(due_date@)),
        ],
        NewDue::Datetime { due_datetime } => seq![
            (("due_datetime")@, crate::json::spec_json_string(due_datetime@)),
        ],
    }
}

/// The contribution of the optional due-date specification.
pub open spec fn spec_due_opt_fields(value: Option<NewDue>) -> Seq<(Seq<char>, Seq<char>)> {
    match value {
        Some(d) => spec_due_fields(d),
        None => Seq::empty(),
    }
}

/// Every field of the serialized payload, in wire order: `content` first,
/// then each optional field that is set, with the due-date variant's
/// fields flattened between `priority` and `assignee_id`. An unset field
/// contributes nothing.
pub open spec fn spec_fields(task: NewTask) -> Seq<(Seq<char>, Seq<char>)> {
    seq![(("content")@, crate::json::spec_json_string(task.content@))]
        + spec_opt_text_field(("description")@, task.description)
        + spec_opt_text_field(("project_id")@, task.project_id)
        + spec_opt_text_field(("section_id")@, task.section_id)
        + spec_opt_text_field(("parent_id")@, task.parent_id)
        + spec_order_fields(task.order)
        + spec_labels_fields(task.labels)
        + spec_priority_fields(task.priority)
        + spec_due_opt_fields(task.due)
        + spec_opt_text_field(("assignee_id")@, task.assignee_id)
        + spec_duration_fields(task.duration)
        + spec_opt_text_field(("duration_unit")@, task.duration_unit)
}

/// The keys of the serialized payload, in wire order.
pub open spec fn spec_keys(task: NewTask) -> Seq<Seq<char>> {
    spec_fields(task).map_values(|f: (Seq<char>, Seq<char>)| f.0)
}

/// The full wire representation: the fields between braces.
pub open spec fn spec_serialize(task: NewTask) -> Seq<char> {
    seq!['{'] + spec_join_fields(spec_fields(task)) + seq!['}']
}

/// A nonempty object body followed by trailing fields renders as the body
/// followed by the trailing fields' rendering.
pub proof fn lemma_join_fields_concat(
    a: Seq<(Seq<char>, Seq<char>)>,
    b: Seq<(Seq<char>, Seq<char>)>,
)
    requires
        a.len() > 0,
    ensures
        spec_join_fields(a + b) == spec_join_fields(a) + spec_tail_fields(b),
    decreases b.len(),
{
    if b.len() == 0 {
        assert(a + b =~= a);
        assert(spec_join_fields(a) + spec_tail_fields(b) =~= spec_join_fields(a));
    } else {
        assert((a + b).drop_last() =~= a + b.drop_last());
        assert((a + b).last() == b.last());
        lemma_join_fields_concat(a, b.drop_last());
        assert(spec_join_fields(a + b) =~= spec_join_fields(a) + spec_tail_fields(b));
    }
}

/// Appends `,"key":value` to a partly built object body.
fn push_field(out: &mut String, key: &str, value: &str)
    ensures
        final(out)@ == old(out)@ + seq![','] + spec_field(key@, value@),
{
    out.append(",\"");
    out.append(key);
    out.append("\":");
    out.append(value);
    proof {
        reveal_strlit(",\"");
        reveal_strlit("\":");
        assert(out@ =~= old(out)@ + seq![','] + spec_field(key@, value@));
    }
}

/// Appends an optional text field's rendering: nothing when unset.
fn append_text_field(out: &mut String, key: &str, value: &Option<String>)
    ensures
        final(out)@ == old(out)@ + spec_tail_fields(spec_opt_text_field(key@, *value)),
{
    if let Some(s) = value {
        let quoted = crate::json::json_quote(s.as_str());
        push_field(out, key, quoted.as_str());
        proof {
            reveal_with_fuel(spec_tail_fields, 2);
            let fields = spec_opt_text_field(key@, *value);
            assert(fields.drop_last() =~= Seq::<(Seq<char>, Seq<char>)>::empty());
            assert(out@ =~= old(out)@ + spec_tail_fields(fields));
        }
    } else {
        proof {
            assert(out@ =~= old(out)@ + spec_tail_fields(spec_opt_text_field(key@, *value)));
        }
    }
}

/// Appends the display-order field's rendering: nothing when unset.
fn append_order_field(out: &mut String, value: &Option<i32>)
    ensures
        final(out)@ == old(out)@ + spec_tail_fields(spec_order_fields(*value)),
{
    if let Some(v) = value {
        let rendered = crate::json::i32_decimal(*v);
        push_field(out, "order", rendered.as_str());
        proof {
            reveal_with_fuel(spec_tail_fields, 2);
            let fields = spec_order_fields(*value);
            assert(fields.drop_last() =~= Seq::<(Seq<char>, Seq<char>)>::empty());
            assert(out@ =~= old(out)@ + spec_tail_fields(fields));
        }
    } else {
        proof {
            assert(out@ =~= old(out)@ + spec_tail_fields(spec_order_fields(*value)));
        }
    }
}

/// Appends the labels field's rendering: an array with one string per
/// label when set (an empty array for an empty list), nothing when unset.
fn append_labels_field(out: &mut String, value: &Option<Vec<String>>)
    ensures
        final(out)@ == old(out)@ + spec_tail_fields(spec_labels_fields(*value)),
{
    if let Some(ls) = value {
        let rendered = crate::json::string_array(ls);
        push_field(out, "labels", rendered.as_str());
        proof {
            reveal_with_fuel(spec_tail_fields, 2);
            let fields = spec_labels_fields(*value);
            assert(fields.drop_last() =~= Seq::<(Seq<char>, Seq<char>)>::empty());
            assert(out@ =~= old(out)@ + spec_tail_fields(fields));
        }
    } else {
        proof {
            assert(out@ =~= old(out)@ + spec_tail_fields(spec_labels_fields(*value)));
        }
    }
}

/// Appends the priority field's rendering: nothing when unset.
fn append_priority_field(out: &mut String, value: &Option<u8>)
    ensures
        final(out)@ == old(out)@ + spec_tail_fields(spec_priority_fields(*value)),
{
    if let Some(p) = value {
        let rendered = crate::json::u64_decimal(*p as u64);
        push_field(out, "priority", rendered.as_str());
        proof {
            reveal_with_fuel(spec_tail_fields, 2);
            let fields = spec_priority_fields(*value);
            assert(fields.drop_last() =~= Seq::<(Seq<char>, Seq<char>)>::empty());
            assert(out@ =~= old(out)@ + spec_tail_fields(fields));
        }
    } else {
        proof {
            assert(out@ =~= old(out)@ + spec_tail_fields(spec_priority_fields(*value)));
        }
    }
}

/// Appends the duration field's rendering: nothing when unset.
fn append_duration_field(out: &mut String, value: &Option<u32>)
    ensures
        final(out)@ == old(out)@ + spec_tail_fields(spec_duration_fields(*value)),
{
    if let Some(n) = value {
        let rendered = crate::json::u64_decimal(*n as u64);
        push_field(out, "duration", rendered.as_str());
        proof {
            reveal_with_fuel(spec_tail_fields, 2);
            let fields = spec_duration_fields(*value);
            assert(fields.drop_last() =~= Seq::<(Seq<char>, Seq<char>)>::empty());
            assert(out@ =~= old(out)@ + spec_tail_fields(fields));
        }
    } else {
        proof {
            assert(out@ =~= old(out)@ + spec_tail_fields(spec_duration_fields(*value)));
        }
    }
}

/// Appends the active due-date variant's fields: only that variant's keys
/// ever appear, and nothing when no due date is set.
fn append_due_fields(out: &mut String, value: &Option<NewDue>)
    ensures
        final(out)@ == old(out)@ + spec_tail_fields(spec_due_opt_fields(*value)),
{
    if let Some(due) = value {
        match due {
            NewDue::String { due_string, due_lang } => {
                let quoted = crate::json::json_quote(due_string.as_str());
                push_field(out, "due_string", quoted.as_str());
                if let Some(lang) = due_lang {
                    let quoted_lang = crate::json::json_quote(lang.as_str());
                    push_field(out, "due_lang", quoted_lang.as_str());
                }
                proof {
                    reveal_with_fuel(spec_tail_fields, 3);
                    let fields = spec_due_opt_fields(*value);
                    if due_lang is Some {
                        assert(fields.drop_last().drop_last() =~= Seq::<
                            (Seq<char>, Seq<char>),
                        >::empty());
                        assert(fields.drop_last() =~= seq![
                            (("due_string")@, crate::json::spec_json_string(due_string@)),
                        ]);
                    } else {
                        assert(fields.drop_last() =~= Seq::<(Seq<char>, Seq<char>)>::empty());
                    }
                    assert(out@ =~= old(out)@ + spec_tail_fields(fields));
                }
            },
            NewDue::Date { due_date } => {
                let quoted = crate::json::json_quote(due_date.as_str());
                push_field(out, "due_date", quoted.as_str());
                proof {
                    reveal_with_fuel(spec_tail_fields, 3);
                    let fields = spec_due_opt_fields(*value);
                    assert(fields.drop_last() =~= Seq::<(Seq<char>, Seq<char>)>::empty());
                    assert(out@ =~= old(out)@ + spec_tail_fields(fields));
                }
            },
            NewDue::Datetime { due_datetime } => {
                let quoted = crate::json::json_quote(due_datetime.as_str());
                push_field(out, "due_datetime", quoted.as_str());
                proof {
                    reveal_with_fuel(spec_tail_fields, 3);
                    let fields = spec_due_opt_fields(*value);
                    assert(fields.drop_last() =~= Seq::<(Seq<char>, Seq<char>)>::empty());
                    assert(out@ =~= old(out)@ + spec_tail_fields(fields));
                }
            },
        }
    } else {
        proof {
            assert(out@ =~= old(out)@ + spec_tail_fields(spec_due_opt_fields(*value)));
        }
    }
}

/// The serialized payload, spelled out segment by segment: the opening
/// brace, the content field, each optional field's trailing rendering in
/// wire order, and the closing brace.
#[verifier::rlimit(100)]
#[verifier::spinoff_prover]
pub proof fn lemma_serialize_unfold(task: NewTask)
    ensures
        spec_serialize(task) == seq!['{'] + spec_field(
            ("content")@,
            crate::json::spec_json_string(task.content@),
        ) + spec_tail_fields(spec_opt_text_field(("description")@, task.description))
            + spec_tail_fields(spec_opt_text_field(("project_id")@, task.project_id))
            + spec_tail_fields(spec_opt_text_field(("section_id")@, task.section_id))
            + spec_tail_fields(spec_opt_text_field(("parent_id")@, task.parent_id))
            + spec_tail_fields(spec_order_fields(task.order)) + spec_tail_fields(
            spec_labels_fields(task.labels),
        ) + spec_tail_fields(spec_priority_fields(task.priority)) + spec_tail_fields(
            spec_due_opt_fields(task.due),
        ) + spec_tail_fields(spec_opt_text_field(("assignee_id")@, task.assignee_id))
            + spec_tail_fields(spec_duration_fields(task.duration)) + spec_tail_fields(
            spec_opt_text_field(("duration_unit")@, task.duration_unit),
        ) + seq!['}'],
{
    let content = seq![(("content")@, crate::json::spec_json_string(task.content@))];
    let s1 = spec_opt_text_field(("description")@, task.description);
    let s2 = spec_opt_text_field(("project_id")@, task.project_id);
    let s3 = spec_opt_text_field(("section_id")@, task.section_id);
    let s4 = spec_opt_text_field(("parent_id")@, task.parent_id);
    let s5 = spec_order_fields(task.order);
    let s6 = spec_labels_fields(task.labels);
    let s7 = spec_priority_fields(task.priority);
    let s8 = spec_due_opt_fields(task.due);
    let s9 = spec_opt_text_field(("assignee_id")@, task.assignee_id);
    let s10 = spec_duration_fields(task.duration);
    let s11 = spec_opt_text_field(("duration_unit")@, task.duration_unit);
    lemma_join_fields_concat(content + s1 + s2 + s3 + s4 + s5 + s6 + s7 + s8 + s9 + s10, s11);
    lemma_join_fields_concat(content + s1 + s2 + s3 + s4 + s5 + s6 + s7 + s8 + s9, s10);
    lemma_join_fields_concat(content + s1 + s2 + s3 + s4 + s5 + s6 + s7 + s8, s9);
    lemma_join_fields_concat(content + s1 + s2 + s3 + s4 + s5 + s6 + s7, s8);
    lemma_join_fields_concat(content + s1 + s2 + s3 + s4 + s5 + s6, s7);
    lemma_join_fields_concat(content + s1 + s2 + s3 + s4 + s5, s6);
    lemma_join_fields_concat(content + s1 + s2 + s3 + s4, s5);
    lemma_join_fields_concat(content + s1 + s2 + s3, s4);
    lemma_join_fields_concat(content + s1 + s2, s3);
    lemma_join_fields_concat(content + s1, s2);
    lemma_join_fields_concat(content, s1);
    assert(spec_serialize(task) =~= seq!['{'] + spec_field(
        ("content")@,
        crate::json::spec_json_string(task.content@),
    ) + spec_tail_fields(s1) + spec_tail_fields(s2) + spec_tail_fields(s3) + spec_tail_fields(s4)
        + spec_tail_fields(s5) + spec_tail_fields(s6) + spec_tail_fields(s7) + spec_tail_fields(s8)
        + spec_tail_fields(s9) + spec_tail_fields(s10) + spec_tail_fields(s11) + seq!['}']);
}

impl NewTask {
    /// Create a new `NewTask` with the given content, and all other
    /// fields set to `None`.
    pub fn new(content: &str) -> (task: NewTask)
        ensures
            task.content@ == content@,
            task.description is None,
            task.project_id is None,
            task.section_id is None,
            task.parent_id is None,
            task.order is None,
            task.labels is None,
            task.priority is None,
            task.due is None,
            task.assignee_id is None,
            task.duration is None,
            task.duration_unit is None,
    {
        NewTask {
            content: String::from_str(content),
            description: None,
            project_id: None,
            section_id: None,
            parent_id: None,
            order: None,
            labels: None,
            priority: None,
            due: None,
            assignee_id: None,
            duration: None,
            duration_unit: None,
        }
    }

    /// Produces the wire representation of this payload: a JSON object
    /// that always carries `content`, carries each optional field exactly
    /// when it is set, and flattens the active due-date variant's fields
    /// into the top level. Serialization reads the payload only, so the
    /// same unmodified payload always yields the same output.
    pub fn to_json(&self) -> (r: String)
        ensures
            r@ == spec_serialize(*self),
    {
        let mut out = String::new();
        out.append("{\"content\":");
        let quoted_content = crate::json::json_quote(self.content.as_str());
        out.append(quoted_content.as_str());
        proof {
            reveal_strlit("{\"content\":");
            reveal_strlit("content");
            assert(out@ =~= seq!['{'] + spec_field(
                ("content")@,
                crate::json::spec_json_string(self.content@),
            ));
        }
        append_text_field(&mut out, "description", &self.description);
        append_text_field(&mut out, "project_id", &self.project_id);
        append_text_field(&mut out, "section_id", &self.section_id);
        append_text_field(&mut out, "parent_id", &self.parent_id);
        append_order_field(&mut out, &self.order);
        append_labels_field(&mut out, &self.labels);
        append_priority_field(&mut out, &self.priority);
        append_due_fields(&mut out, &self.due);
        append_text_field(&mut out, "assignee_id", &self.assignee_id);
        append_duration_field(&mut out, &self.duration);
        append_text_field(&mut out, "duration_unit", &self.duration_unit);
        out.append("}");
        proof {
            reveal_strlit("}");
            lemma_serialize_unfold(*self);
            assert(out@ =~= spec_serialize(*self));
        }
        out
    }
}


/// Law: a payload with no optional field set serializes to exactly the
/// `content` key with its value, and no other keys.
pub proof fn lemma_serialize_content_only(task: NewTask)
    requires
        (task.description is None),
        (task.project_id is None),
        (task.section_id is None),
        (task.parent_id is None),
        (task.order is None),
        (task.labels is None),
        (task.priority is None),
        (task.due is None),
        (task.assignee_id is None),
        (task.duration is None),
        (task.duration_unit is None),
    ensures
        spec_fields(task) == (seq![
            (("content")@, crate::json::spec_json_string(task.content@)),
        ]),
        spec_keys(task) == (seq![("content")@]),
        spec_serialize(task) == seq!['{'] + spec_field(
            ("content")@,
            crate::json::spec_json_string(task.content@),
        ) + seq!['}'],
{
    assert(spec_fields(task) =~= seq![
        (("content")@, crate::json::spec_json_string(task.content@)),
    ]);
    assert(spec_keys(task) =~= seq![("content")@]);
}

/// Law: setting only the description yields exactly the keys `content`
/// and `description`, with the description's set value.
pub proof fn lemma_serialize_only_description(task: NewTask)
    requires
        (task.description is Some),
        (task.project_id is None),
        (task.section_id is None),
        (task.parent_id is None),
        (task.order is None),
        (task.labels is None),
        (task.priority is None),
        (task.due is None),
        (task.assignee_id is None),
        (task.duration is None),
        (task.duration_unit is None),
    ensures
        spec_fields(task) == (seq![
            (("content")@, crate::json::spec_json_string(task.content@)),
            (("description")@, crate::json::spec_json_string(task.description->0@)),
        ]),
        spec_keys(task) == (seq![("content")@, ("description")@]),
{
    assert(spec_fields(task) =~= seq![
        (("content")@, crate::json::spec_json_string(task.content@)),
        (("description")@, crate::json::spec_json_string(task.description->0@)),
    ]);
    assert(spec_keys(task) =~= seq![("content")@, ("description")@]);
}


/// Law: setting only `project_id` yields exactly the two keys `content` and
/// `project_id`, with the field's set value.
pub proof fn lemma_serialize_only_project_id(task: NewTask)
    requires
        (task.description is None),
        (task.project_id is Some),
        (task.section_id is None),
        (task.parent_id is None),
        (task.order is None),
        (task.labels is None),
        (task.priority is None),
        (task.due is None),
        (task.assignee_id is None),
        (task.duration is None),
        (task.duration_unit is None),
    ensures
        spec_fields(task) == (seq![
            (("content")@, crate::json::spec_json_string(task.content@)),
            (("project_id")@, crate::json::spec_json_string(task.project_id->0@)),
        ]),
        spec_keys(task) == (seq![("content")@, ("project_id")@]),
{
    assert(spec_fields(task) =~= seq![
        (("content")@, crate::json::spec_json_string(task.content@)),
        (("project_id")@, crate::json::spec_json_string(task.project_id->0@)),
    ]);
    assert(spec_keys(task) =~= seq![("content")@, ("project_id")@]);
}

/// Law: setting only `section_id` yields exactly the two keys `content` and
/// `section_id`, with the field's set value.
pub proof fn lemma_serialize_only_section_id(task: NewTask)
    requires
        (task.description is None),
        (task.project_id is None),
        (task.section_id is Some),
        (task.parent_id is None),
        (task.order is None),
        (task.labels is None),
        (task.priority is None),
        (task.due is None),
        (task.assignee_id is None),
        (task.duration is None),
        (task.duration_unit is None),
    ensures
        spec_fields(task) == (seq![
            (("content")@, crate::json::spec_json_string(task.content@)),
            (("section_id")@, crate::json::spec_json_string(task.section_id->0@)),
        ]),
        spec_keys(task) == (seq![("content")@, ("section_id")@]),
{
    assert(spec_fields(task) =~= seq![
        (("content")@, crate::json::spec_json_string(task.content@)),
        (("section_id")@, crate::json::spec_json_string(task.section_id->0@)),
    ]);
    assert(spec_keys(task) =~= seq![("content")@, ("section_id")@]);
}

/// Law: setting only `parent_id` yields exactly the two keys `content` and
/// `parent_id`, with the field's set value.
pub proof fn lemma_serialize_only_parent_id(task: NewTask)
    requires
        (task.description is None),
        (task.project_id is None),
        (task.section_id is None),
        (task.parent_id is Some),
        (task.order is None),
        (task.labels is None),
        (task.priority is None),
        (task.due is None),
        (task.assignee_id is None),
        (task.duration is None),
        (task.duration_unit is None),
    ensures
        spec_fields(task) == (seq![
            (("content")@, crate::json::spec_json_string(task.content@)),
            (("parent_id")@, crate::json::spec_json_string(task.parent_id->0@)),
        ]),
        spec_keys(task) == (seq![("content")@, ("parent_id")@]),
{
    assert(spec_fields(task) =~= seq![
        (("content")@, crate::json::spec_json_string(task.content@)),
        (("parent_id")@, crate::json::spec_json_string(task.parent_id->0@)),
    ]);
    assert(spec_keys(task) =~= seq![("content")@, ("parent_id")@]);
}

/// Law: setting only `order` yields exactly the two keys `content` and
/// `order`, with the field's set value.
pub proof fn lemma_serialize_only_order(task: NewTask)
    requires
        (task.description is None),
        (task.project_id is None),
        (task.section_id is None),
        (task.parent_id is None),
        (task.order is Some),
        (task.labels is None),
        (task.priority is None),
        (task.due is None),
        (task.assignee_id is None),
        (task.duration is None),
        (task.duration_unit is None),
    ensures
        spec_fields(task) == (seq![
            (("content")@, crate::json::spec_json_string(task.content@)),
            (("order")@, crate::json::spec_signed_decimal(task.order->0 as int)),
        ]),
        spec_keys(task) == (seq![("content")@, ("order")@]),
{
    assert(spec_fields(task) =~= seq![
        (("content")@, crate::json::spec_json_string(task.content@)),
        (("order")@, crate::json::spec_signed_decimal(task.order->0 as int)),
    ]);
    assert(spec_keys(task) =~= seq![("content")@, ("order")@]);
}

/// Law: setting only `labels` yields exactly the two keys `content` and
/// `labels`, with the field's set value.
pub proof fn lemma_serialize_only_labels(task: NewTask)
    requires
        (task.description is None),
        (task.project_id is None),
        (task.section_id is None),
        (task.parent_id is None),
        (task.order is None),
        (task.labels is Some),
        (task.priority is None),
        (task.due is None),
        (task.assignee_id is None),
        (task.duration is None),
        (task.duration_unit is None),
    ensures
        spec_fields(task) == (seq![
            (("content")@, crate::json::spec_json_string(task.content@)),
            (("labels")@, crate::json::spec_string_array(task.labels->0.deep_view())),
        ]),
        spec_keys(task) == (seq![("content")@, ("labels")@]),
{
    assert(spec_fields(task) =~= seq![
        (("content")@, crate::json::spec_json_string(task.content@)),
        (("labels")@, crate::json::spec_string_array(task.labels->0.deep_view())),
    ]);
    assert(spec_keys(task) =~= seq![("content")@, ("labels")@]);
}

/// Law: setting only `priority` yields exactly the two keys `content` and
/// `priority`, with the field's set value.
pub proof fn lemma_serialize_only_priority(task: NewTask)
    requires
        (task.description is None),
        (task.project_id is None),
        (task.section_id is None),
        (task.parent_id is None),
        (task.order is None),
        (task.labels is None),
        (task.priority is Some),
        (task.due is None),
        (task.assignee_id is None),
        (task.duration is None),
        (task.duration_unit is None),
    ensures
        spec_fields(task) == (seq![
            (("content")@, crate::json::spec_json_string(task.content@)),
            (("priority")@, crate::json::spec_decimal(task.priority->0 as nat)),
        ]),
        spec_keys(task) == (seq![("content")@, ("priority")@]),
{
    assert(spec_fields(task) =~= seq![
        (("content")@, crate::json::spec_json_string(task.content@)),
        (("priority")@, crate::json::spec_decimal(task.priority->0 as nat)),
    ]);
    assert(spec_keys(task) =~= seq![("content")@, ("priority")@]);
}

/// Law: setting only `assignee_id` yields exactly the two keys `content` and
/// `assignee_id`, with the field's set value.
pub proof fn lemma_serialize_only_assignee_id(task: NewTask)
    requires
        (task.description is None),
        (task.project_id is None),
        (task.section_id is None),
        (task.parent_id is None),
        (task.order is None),
        (task.labels is None),
        (task.priority is None),
        (task.due is None),
        (task.assignee_id is Some),
        (task.duration is None),
        (task.duration_unit is None),
    ensures
        spec_fields(task) == (seq![
            (("content")@, crate::json::spec_json_string(task.content@)),
            (("assignee_id")@, crate::json::spec_json_string(task.assignee_id->0@)),
        ]),
        spec_keys(task) == (seq![("content")@, ("assignee_id")@]),
{
    assert(spec_fields(task) =~= seq![
        (("content")@, crate::json::spec_json_string(task.content@)),
        (("assignee_id")@, crate::json::spec_json_string(task.assignee_id->0@)),
    ]);
    assert(spec_keys(task) =~= seq![("content")@, ("assignee_id")@]);
}

/// Law: setting only `duration` yields exactly the two keys `content` and
/// `duration`, with the field's set value.
pub proof fn lemma_serialize_only_duration(task: NewTask)
    requires
        (task.description is None),
        (task.project_id is None),
        (task.section_id is None),
        (task.parent_id is None),
        (task.order is None),
        (task.labels is None),
        (task.priority is None),
        (task.due is None),
        (task.assignee_id is None),
        (task.duration is Some),
        (task.duration_unit is None),
    ensures
        spec_fields(task) == (seq![
            (("content")@, crate::json::spec_json_string(task.content@)),
            (("duration")@, crate::json::spec_decimal(task.duration->0 as nat)),
        ]),
        spec_keys(task) == (seq![("content")@, ("duration")@]),
{
    assert(spec_fields(task) =~= seq![
        (("content")@, crate::json::spec_json_string(task.content@)),
        (("duration")@, crate::json::spec_decimal(task.duration->0 as nat)),
    ]);
    assert(spec_keys(task) =~= seq![("content")@, ("duration")@]);
}

/// Law: setting only `duration_unit` yields exactly the two keys `content` and
/// `duration_unit`, with the field's set value.
pub proof fn lemma_serialize_only_duration_unit(task: NewTask)
    requires
        (task.description is None),
        (task.project_id is None),
        (task.section_id is None),
        (task.parent_id is None),
        (task.order is None),
        (task.labels is None),
        (task.priority is None),
        (task.due is None),
        (task.assignee_id is None),
        (task.duration is None),
        (task.duration_unit is Some),
    ensures
        spec_fields(task) == (seq![
            (("content")@, crate::json::spec_json_string(task.content@)),
            (("duration_unit")@, crate::json::spec_json_string(task.duration_unit->0@)),
        ]),
        spec_keys(task) == (seq![("content")@, ("duration_unit")@]),
{
    assert(spec_fields(task) =~= seq![
        (("content")@, crate::json::spec_json_string(task.content@)),
        (("duration_unit")@, crate::json::spec_json_string(task.duration_unit->0@)),
    ]);
    assert(spec_keys(task) =~= seq![("content")@, ("duration_unit")@]);
}

/// Law: a due-date specification contributes exactly its own variant's
/// key set: `due_string` (with `due_lang` only when a language is set),
/// or `due_date`, or `due_datetime`, and never a key of another variant.
pub proof fn lemma_due_variant_fields(due: NewDue)
    ensures
        (due matches NewDue::String { due_string, due_lang: None } ==> spec_due_fields(due) == (
        seq![(("due_string")@, crate::json::spec_json_string(due_string@))])),
        (due matches NewDue::String { due_string, due_lang: Some(lang) } ==> spec_due_fields(due)
            == (seq![
            (("due_string")@, crate::json::spec_json_string(due_string@)),
            (("due_lang")@, crate::json::spec_json_string(lang@)),
        ])),
        (due matches NewDue::Date { due_date } ==> spec_due_fields(due) == (seq![
            (("due_date")@, crate::json::spec_json_string(due_date@)),
        ])),
        (due matches NewDue::Datetime { due_datetime } ==> spec_due_fields(due) == (seq![
            (("due_datetime")@, crate::json::spec_json_string(due_datetime@)),
        ])),
{
    match due {
        NewDue::String { due_string, due_lang } => {
            match due_lang {
                Some(lang) => {
                    assert(spec_due_fields(due) =~= seq![
                        (("due_string")@, crate::json::spec_json_string(due_string@)),
                        (("due_lang")@, crate::json::spec_json_string(lang@)),
                    ]);
                },
                None => {
                    assert(spec_due_fields(due) =~= seq![
                        (("due_string")@, crate::json::spec_json_string(due_string@)),
                    ]);
                },
            }
        },
        NewDue::Date { due_date } => {
            assert(spec_due_fields(due) =~= seq![
                (("due_date")@, crate::json::spec_json_string(due_date@)),
            ]);
        },
        NewDue::Datetime { due_datetime } => {
            assert(spec_due_fields(due) =~= seq![
                (("due_datetime")@, crate::json::spec_json_string(due_datetime@)),
            ]);
        },
    }
}

/// Law: with only a due date set, the payload serializes to `content`
/// followed by the active variant's keys alone; keys of the two inactive
/// variants never appear.
pub proof fn lemma_serialize_only_due(task: NewTask)
    requires
        (task.description is None),
        (task.project_id is None),
        (task.section_id is None),
        (task.parent_id is None),
        (task.order is None),
        (task.labels is None),
        (task.priority is None),
        (task.due is Some),
        (task.assignee_id is None),
        (task.duration is None),
        (task.duration_unit is None),
    ensures
        spec_fields(task) == (seq![
            (("content")@, crate::json::spec_json_string(task.content@)),
        ] + spec_due_fields(task.due->0)),
        (task.due->0 matches NewDue::String { due_lang: None, .. } ==> spec_keys(task) == (seq![
            ("content")@,
            ("due_string")@,
        ])),
        (task.due->0 matches NewDue::String { due_lang: Some(_), .. } ==> spec_keys(task) == (
        seq![("content")@, ("due_string")@, ("due_lang")@])),
        (task.due->0 matches NewDue::Date { .. } ==> spec_keys(task) == (seq![
            ("content")@,
            ("due_date")@,
        ])),
        (task.due->0 matches NewDue::Datetime { .. } ==> spec_keys(task) == (seq![
            ("content")@,
            ("due_datetime")@,
        ])),
{
    let content = seq![(("content")@, crate::json::spec_json_string(task.content@))];
    assert(spec_fields(task) =~= content + spec_due_fields(task.due->0));
    lemma_due_variant_fields(task.due->0);
    match task.due->0 {
        NewDue::String { due_string, due_lang } => {
            match due_lang {
                Some(lang) => {
                    assert(spec_keys(task) =~= seq![("content")@, ("due_string")@, ("due_lang")@]);
                },
                None => {
                    assert(spec_keys(task) =~= seq![("content")@, ("due_string")@]);
                },
            }
        },
        NewDue::Date { due_date } => {
            assert(spec_keys(task) =~= seq![("content")@, ("due_date")@]);
        },
        NewDue::Datetime { due_datetime } => {
            assert(spec_keys(task) =~= seq![("content")@, ("due_datetime")@]);
        },
    }
}

/// Law: the wire representation is a function of the payload value
/// alone, so serializing the same unmodified payload twice yields the
/// same output both times.
pub proof fn lemma_serialize_repeatable(task: NewTask, first: Seq<char>, second: Seq<char>)
    requires
        first == spec_serialize(task),
        second == spec_serialize(task),
    ensures
        first == second,
{
}


/// At every position of the field list, a due-date key can only come
/// from the due segment, so it ties the position to the active variant.
#[verifier::rlimit(100)]
#[verifier::spinoff_prover]
proof fn lemma_field_key_cases(task: NewTask, i: int)
    requires
        0 <= i < spec_fields(task).len(),
    ensures
        (spec_fields(task)[i].0 == ("due_string")@ ==> (task.due matches Some(
            NewDue::String { .. },
        ))),
        (spec_fields(task)[i].0 == ("due_lang")@ ==> (task.due matches Some(NewDue::String {
            due_lang: Some(_),
            ..
        }))),
        (spec_fields(task)[i].0 == ("due_date")@ ==> (task.due matches Some(NewDue::Date { .. }))),
        (spec_fields(task)[i].0 == ("due_datetime")@ ==> (task.due matches Some(
            NewDue::Datetime { .. },
        ))),
{
    reveal_strlit("content");
    reveal_strlit("description");
    reveal_strlit("project_id");
    reveal_strlit("section_id");
    reveal_strlit("parent_id");
    reveal_strlit("order");
    reveal_strlit("labels");
    reveal_strlit("priority");
    reveal_strlit("due_string");
    reveal_strlit("due_lang");
    reveal_strlit("due_date");
    reveal_strlit("due_datetime");
    reveal_strlit("assignee_id");
    reveal_strlit("duration");
    reveal_strlit("duration_unit");
    assert(("content")@ =~= seq!['c', 'o', 'n', 't', 'e', 'n', 't']);
    assert(("description")@ =~= seq!['d', 'e', 's', 'c', 'r', 'i', 'p', 't', 'i', 'o', 'n']);
    assert(("project_id")@ =~= seq!['p', 'r', 'o', 'j', 'e', 'c', 't', '_', 'i', 'd']);
    assert(("section_id")@ =~= seq!['s', 'e', 'c', 't', 'i', 'o', 'n', '_', 'i', 'd']);
    assert(("parent_id")@ =~= seq!['p', 'a', 'r', 'e', 'n', 't', '_', 'i', 'd']);
    assert(("order")@ =~= seq!['o', 'r', 'd', 'e', 'r']);
    assert(("labels")@ =~= seq!['l', 'a', 'b', 'e', 'l', 's']);
    assert(("priority")@ =~= seq!['p', 'r', 'i', 'o', 'r', 'i', 't', 'y']);
    assert(("due_string")@ =~= seq!['d', 'u', 'e', '_', 's', 't', 'r', 'i', 'n', 'g']);
    assert(("due_lang")@ =~= seq!['d', 'u', 'e', '_', 'l', 'a', 'n', 'g']);
    assert(("due_date")@ =~= seq!['d', 'u', 'e', '_', 'd', 'a', 't', 'e']);
    assert(("due_datetime")@ =~= seq!['d', 'u', 'e', '_', 'd', 'a', 't', 'e', 't', 'i', 'm', 'e']);
    assert(("assignee_id")@ =~= seq!['a', 's', 's', 'i', 'g', 'n', 'e', 'e', '_', 'i', 'd']);
    assert(("duration")@ =~= seq!['d', 'u', 'r', 'a', 't', 'i', 'o', 'n']);
    assert(("duration_unit")@ =~= seq!['d', 'u', 'r', 'a', 't', 'i', 'o', 'n', '_', 'u', 'n', 'i', 't']);
    let f = spec_fields(task);
    let c0 = seq![(("content")@, crate::json::spec_json_string(task.content@))];
    let s1 = spec_opt_text_field(("description")@, task.description);
    let s2 = spec_opt_text_field(("project_id")@, task.project_id);
    let s3 = spec_opt_text_field(("section_id")@, task.section_id);
    let s4 = spec_opt_text_field(("parent_id")@, task.parent_id);
    let s5 = spec_order_fields(task.order);
    let s6 = spec_labels_fields(task.labels);
    let s7 = spec_priority_fields(task.priority);
    let s8 = spec_due_opt_fields(task.due);
    let s9 = spec_opt_text_field(("assignee_id")@, task.assignee_id);
    let s10 = spec_duration_fields(task.duration);
    let s11 = spec_opt_text_field(("duration_unit")@, task.duration_unit);
    let n1 = 1 + s1.len();
    let n2 = n1 + s2.len();
    let n3 = n2 + s3.len();
    let n4 = n3 + s4.len();
    let n5 = n4 + s5.len();
    let n6 = n5 + s6.len();
    let n7 = n6 + s7.len();
    let n8 = n7 + s8.len();
    let n9 = n8 + s9.len();
    let n10 = n9 + s10.len();
    if i < 1 {
        assert(f[i] == c0[i]);
    } else if i < n1 {
        assert(f[i] == s1[i - 1]);
    } else if i < n2 {
        assert(f[i] == s2[i - n1]);
    } else if i < n3 {
        assert(f[i] == s3[i - n2]);
    } else if i < n4 {
        assert(f[i] == s4[i - n3]);
    } else if i < n5 {
        assert(f[i] == s5[i - n4]);
    } else if i < n6 {
        assert(f[i] == s6[i - n5]);
    } else if i < n7 {
        assert(f[i] == s7[i - n6]);
    } else if i < n8 {
        assert(f[i] == s8[i - n7]);
        match task.due {
            Some(d) => {
                match d {
                    NewDue::String { due_string, due_lang } => {
                        if i - n7 == 0 {
                            assert(s8[0].0 == ("due_string")@);
                        } else {
                            assert(due_lang is Some);
                            assert(s8[i - n7].0 == ("due_lang")@);
                        }
                    },
                    NewDue::Date { due_date } => {
                        assert(s8[i - n7].0 == ("due_date")@);
                    },
                    NewDue::Datetime { due_datetime } => {
                        assert(s8[i - n7].0 == ("due_datetime")@);
                    },
                }
            },
            None => {
            },
        }
    } else if i < n9 {
        assert(f[i] == s9[i - n8]);
    } else if i < n10 {
        assert(f[i] == s10[i - n9]);
    } else {
        assert(f[i] == s11[i - n10]);
    }
}

/// Law: whatever else is set on the payload, a due-date key appears in
/// the serialized output exactly when the active variant owns it:
/// `due_string` only for the string form (`due_lang` only when its
/// language is set), `due_date` only for the date form, `due_datetime`
/// only for the datetime form.
#[verifier::rlimit(100)]
#[verifier::spinoff_prover]
pub proof fn lemma_due_keys_exclusive(task: NewTask)
    requires
        (task.due is Some),
    ensures
        (spec_keys(task).contains(("due_string")@) <==> task.due->0 is String),
        (spec_keys(task).contains(("due_lang")@) <==> (task.due->0 matches NewDue::String {
            due_lang: Some(_),
            ..
        })),
        (spec_keys(task).contains(("due_date")@) <==> task.due->0 is Date),
        (spec_keys(task).contains(("due_datetime")@) <==> task.due->0 is Datetime),
{
    reveal_strlit("content");
    reveal_strlit("description");
    reveal_strlit("project_id");
    reveal_strlit("section_id");
    reveal_strlit("parent_id");
    reveal_strlit("order");
    reveal_strlit("labels");
    reveal_strlit("priority");
    reveal_strlit("due_string");
    reveal_strlit("due_lang");
    reveal_strlit("due_date");
    reveal_strlit("due_datetime");
    reveal_strlit("assignee_id");
    reveal_strlit("duration");
    reveal_strlit("duration_unit");
    let f = spec_fields(task);
    let k = spec_keys(task);
    assert(k.len() == f.len());
    assert(forall|i: int| 0 <= i < f.len() ==> k[i] == #[trigger] f[i].0);
    let pre = 1 + spec_opt_text_field(("description")@, task.description).len()
        + spec_opt_text_field(("project_id")@, task.project_id).len() + spec_opt_text_field(
        ("section_id")@,
        task.section_id,
    ).len() + spec_opt_text_field(("parent_id")@, task.parent_id).len() + spec_order_fields(
        task.order,
    ).len() + spec_labels_fields(task.labels).len() + spec_priority_fields(task.priority).len();
    match task.due->0 {
        NewDue::String { due_string, due_lang } => {
            assert(f[pre as int].0 == ("due_string")@);
            assert(k.contains(("due_string")@));
            if due_lang is Some {
                assert(f[pre as int + 1].0 == ("due_lang")@);
                assert(k.contains(("due_lang")@));
            } else {
                assert forall|i: int| 0 <= i < k.len() implies #[trigger] k[i] != ("due_lang")@ by {
                    lemma_field_key_cases(task, i);
                }
            }
            assert forall|i: int| 0 <= i < k.len() implies #[trigger] k[i] != ("due_date")@ by {
                lemma_field_key_cases(task, i);
            }
            assert forall|i: int| 0 <= i < k.len() implies #[trigger] k[i] != ("due_datetime")@ by {
                lemma_field_key_cases(task, i);
            }
        },
        NewDue::Date { due_date } => {
            assert(f[pre as int].0 == ("due_date")@);
            assert(k.contains(("due_date")@));
            assert forall|i: int| 0 <= i < k.len() implies #[trigger] k[i] != ("due_string")@ by {
                lemma_field_key_cases(task, i);
            }
            assert forall|i: int| 0 <= i < k.len() implies #[trigger] k[i] != ("due_lang")@ by {
                lemma_field_key_cases(task, i);
            }
            assert forall|i: int| 0 <= i < k.len() implies #[trigger] k[i] != ("due_datetime")@ by {
                lemma_field_key_cases(task, i);
            }
        },
        NewDue::Datetime { due_datetime } => {
            assert(f[pre as int].0 == ("due_datetime")@);
            assert(k.contains(("due_datetime")@));
            assert forall|i: int| 0 <= i < k.len() implies #[trigger] k[i] != ("due_string")@ by {
                lemma_field_key_cases(task, i);
            }
            assert forall|i: int| 0 <= i < k.len() implies #[trigger] k[i] != ("due_lang")@ by {
                lemma_field_key_cases(task, i);
            }
            assert forall|i: int| 0 <= i < k.len() implies #[trigger] k[i] != ("due_date")@ by {
                lemma_field_key_cases(task, i);
            }
        },
    }
}

} // verus!
