//! How a Phase Output body is stored: an object with the name of the variant
//! under `phase` and one field for each field of the variant.

use vstd::prelude::*;

use crate::contracts::{
    PhaseOutputBody, PlanningSelection, RejectedPlanningCandidate, ReviewFinding,
};
use crate::json::{Json, JsonDocument};
#[allow(unused_imports)]
use crate::json::{
    field, field_models, field_of, item_models, json_compact, lemma_item_models, text_field,
    JsonModel,
};
#[allow(unused_imports)]
use crate::text::opt_view;
use crate::text::same_text;

verus! {

/// What a list of values holds.
pub open spec fn models<T: View>(items: Seq<T>) -> Seq<T::V> {
    items.map_values(|item: T| item@)
}

/// What a [`PlanningSelection`] holds.
pub struct SelectionModel {
    pub source_issue_id: Seq<char>,
    pub title: Seq<char>,
    pub branch: Seq<char>,
    pub selection_summary: Seq<char>,
}

/// What a [`RejectedPlanningCandidate`] holds.
pub struct RejectionModel {
    pub source_issue_id: Seq<char>,
    pub reason: Seq<char>,
}

/// What a [`ReviewFinding`] holds.
pub struct FindingModel {
    pub location: Option<Seq<char>>,
    pub message: Seq<char>,
}

/// What a [`PhaseOutputBody`] holds.
pub enum BodyModel {
    Planning {
        selections: Seq<SelectionModel>,
        summary: Seq<char>,
        rejected_candidates: Seq<RejectionModel>,
    },
    Implementation {
        commits: Seq<Seq<char>>,
        verification: Seq<Seq<char>>,
        gaps: Seq<Seq<char>>,
        summary: Seq<char>,
    },
    Review {
        findings: Seq<FindingModel>,
        verification: Seq<Seq<char>>,
        gaps: Seq<Seq<char>>,
        summary: Seq<char>,
    },
    Merge {
        merged_source_ids: Seq<Seq<char>>,
        verification: Seq<Seq<char>>,
        gaps: Seq<Seq<char>>,
        summary: Seq<char>,
        block_reason: Option<Seq<char>>,
    },
    Push { stderr: Seq<char>, fast_forward: bool, attempt: u32 },
    Failed { error: Seq<char>, problem_type: Option<Seq<char>> },
}

impl View for PlanningSelection {
    type V = SelectionModel;

    open spec fn view(&self) -> SelectionModel {
        SelectionModel {
            source_issue_id: self.source_issue_id@,
            title: self.title@,
            branch: self.branch@,
            selection_summary: self.selection_summary@,
        }
    }
}

impl View for RejectedPlanningCandidate {
    type V = RejectionModel;

    open spec fn view(&self) -> RejectionModel {
        RejectionModel { source_issue_id: self.source_issue_id@, reason: self.reason@ }
    }
}

impl View for ReviewFinding {
    type V = FindingModel;

    open spec fn view(&self) -> FindingModel {
        FindingModel { location: opt_view(self.location), message: self.message@ }
    }
}

impl View for PhaseOutputBody {
    type V = BodyModel;

    open spec fn view(&self) -> BodyModel {
        match *self {
            PhaseOutputBody::Planning { selections, summary, rejected_candidates } =>
                BodyModel::Planning {
                selections: models(selections@),
                summary: summary@,
                rejected_candidates: models(rejected_candidates@),
            },
            PhaseOutputBody::Implementation { commits, verification, gaps, summary } =>
                BodyModel::Implementation {
                commits: models(commits@),
                verification: models(verification@),
                gaps: models(gaps@),
                summary: summary@,
            },
            PhaseOutputBody::Review { findings, verification, gaps, summary } =>
                BodyModel::Review {
                findings: models(findings@),
                verification: models(verification@),
                gaps: models(gaps@),
                summary: summary@,
            },
            PhaseOutputBody::Merge {
                merged_source_ids,
                verification,
                gaps,
                summary,
                block_reason,
            } => BodyModel::Merge {
                merged_source_ids: models(merged_source_ids@),
                verification: models(verification@),
                gaps: models(gaps@),
                summary: summary@,
                block_reason: opt_view(block_reason),
            },
            PhaseOutputBody::Push { stderr, fast_forward, attempt } => BodyModel::Push {
                stderr: stderr@,
                fast_forward,
                attempt,
            },
            PhaseOutputBody::Failed { error, problem_type } => BodyModel::Failed {
                error: error@,
                problem_type: opt_view(problem_type),
            },
        }
    }
}

/// The field of a stored record: by its name in an object, by its position in
/// an array.
pub open spec fn member(json: JsonModel, key: Seq<char>, position: int) -> Option<JsonModel> {
    match json {
        JsonModel::Object(fields) => field_of(fields, key),
        JsonModel::Array(items) => if 0 <= position < items.len() {
            Some(items[position])
        } else {
            None
        },
        _ => None,
    }
}

/// Whether a value can be a record of `count` fields. An object may hold more,
/// which are passed over; an array may not.
pub open spec fn is_record(json: JsonModel, count: int) -> bool {
    match json {
        JsonModel::Object(fields) => true,
        JsonModel::Array(items) => items.len() <= count,
        _ => false,
    }
}

/// A text that has to be there.
pub open spec fn required_text(slot: Option<JsonModel>) -> Option<Seq<char>> {
    match slot {
        Some(JsonModel::Text(text)) => Some(text),
        _ => None,
    }
}

/// A text that is empty where it is left out.
pub open spec fn default_text(slot: Option<JsonModel>) -> Option<Seq<char>> {
    match slot {
        None => Some(seq![]),
        Some(JsonModel::Text(text)) => Some(text),
        Some(_) => None,
    }
}

/// A text that may be left out or null.
pub open spec fn optional_text(slot: Option<JsonModel>) -> Option<Option<Seq<char>>> {
    match slot {
        None => Some(None),
        Some(JsonModel::Null) => Some(None),
        Some(JsonModel::Text(text)) => Some(Some(text)),
        Some(_) => None,
    }
}

/// A flag that is down where it is left out.
pub open spec fn default_flag(slot: Option<JsonModel>) -> Option<bool> {
    match slot {
        None => Some(false),
        Some(JsonModel::Bool(flag)) => Some(flag),
        Some(_) => None,
    }
}

/// A number that is zero where it is left out.
pub open spec fn default_count(slot: Option<JsonModel>) -> Option<u32> {
    match slot {
        None => Some(0u32),
        Some(JsonModel::Unsigned(number)) => if number <= u32::MAX {
            Some(number as u32)
        } else {
            None
        },
        Some(_) => None,
    }
}

/// A value that is stored as JSON.
pub trait Stored: View + Sized {
    /// What a stored value reads as; nothing where it is not accepted.
    spec fn reads(json: JsonModel) -> Option<Self::V>;

    /// How a value is stored.
    spec fn writes(value: Self::V) -> JsonModel;

    /// Read a stored value.
    fn from_json(json: &Json) -> (value: Option<Self>)
        ensures
            match value {
                Some(value) => Self::reads(json@) == Some(value@),
                None => Self::reads(json@) is None,
            },
    ;

    /// The stored form of the value.
    fn to_json(&self) -> (json: Json)
        ensures
            json@ == Self::writes(self@),
    ;

    /// What is stored reads as what was written.
    proof fn reads_back(value: Self::V)
        ensures
            Self::reads(Self::writes(value)) == Some(value),
    ;
}

/// A list that is empty where it is left out.
pub open spec fn default_list<T: Stored>(slot: Option<JsonModel>) -> Option<Seq<T::V>> {
    match slot {
        None => Some(seq![]),
        Some(JsonModel::Array(items)) => if forall|i: int|
            0 <= i < items.len() ==> T::reads(#[trigger] items[i]) is Some {
            Some(items.map_values(|item: JsonModel| T::reads(item)->0))
        } else {
            None
        },
        Some(_) => None,
    }
}

/// How a list is stored.
pub open spec fn list_written<T: Stored>(values: Seq<T::V>) -> JsonModel {
    JsonModel::Array(values.map_values(|value: T::V| T::writes(value)))
}

/// A stored list reads as what was written.
pub proof fn lemma_list_reads_back<T: Stored>(values: Seq<T::V>)
    ensures
        default_list::<T>(Some(list_written::<T>(values))) == Some(values),
{
    let items = values.map_values(|value: T::V| T::writes(value));
    assert forall|i: int| 0 <= i < items.len() implies T::reads(#[trigger] items[i]) == Some(
        values[i],
    ) by {
        T::reads_back(values[i]);
    }
    assert(items.map_values(|item: JsonModel| T::reads(item)->0) =~= values);
}

/// A field is found by its name where no earlier field has it.
pub proof fn lemma_field_at(fields: Seq<(Seq<char>, JsonModel)>, key: Seq<char>, at: int)
    requires
        0 <= at < fields.len(),
        fields[at].0 == key,
        forall|i: int| 0 <= i < at ==> (#[trigger] fields[i]).0 != key,
    ensures
        field_of(fields, key) == Some(fields[at].1),
    decreases at,
{
    if at > 0 {
        assert(fields[0].0 != key);
        let rest = fields.skip(1);
        assert forall|i: int| 0 <= i < at - 1 implies (#[trigger] rest[i]).0 != key by {
            assert(fields[i + 1].0 != key);
        }
        lemma_field_at(rest, key, at - 1);
    }
}

/// A name that no field has is not found.
pub proof fn lemma_no_field(fields: Seq<(Seq<char>, JsonModel)>, key: Seq<char>)
    requires
        forall|i: int| 0 <= i < fields.len() ==> (#[trigger] fields[i]).0 != key,
    ensures
        field_of(fields, key) is None,
    decreases fields.len(),
{
    if fields.len() > 0 {
        assert(fields[0].0 != key);
        let rest = fields.skip(1);
        assert forall|i: int| 0 <= i < rest.len() implies (#[trigger] rest[i]).0 != key by {
            assert(fields[i + 1].0 != key);
        }
        lemma_no_field(rest, key);
    }
}

/// The field of a record.
fn member_at<'a>(json: &'a Json, key: &str, position: usize) -> (slot: Option<&'a Json>)
    ensures
        match slot {
            Some(value) => member(json@, key@, position as int) == Some(value@),
            None => member(json@, key@, position as int) is None,
        },
{
    match json {
        Json::Array(items) => {
            proof {
                lemma_item_models(items@);
            }
            if position < items.len() {
                Some(&items[position])
            } else {
                None
            }
        },
        _ => json.get(key),
    }
}

/// Whether a value can be a record of `count` fields.
fn can_be_record(json: &Json, count: usize) -> (yes: bool)
    ensures
        yes == is_record(json@, count as int),
{
    match json {
        Json::Object(_) => true,
        Json::Array(items) => {
            proof {
                lemma_item_models(items@);
            }
            items.len() <= count
        },
        _ => false,
    }
}

/// What a slot of a record holds.
pub open spec fn slot_model(slot: Option<&Json>) -> Option<JsonModel> {
    match slot {
        Some(value) => Some(value@),
        None => None,
    }
}

/// A text that has to be there.
fn take_required_text(slot: Option<&Json>) -> (text: Option<String>)
    ensures
        opt_view(text) == required_text(slot_model(slot)),
{
    match slot {
        Some(Json::Text(text)) => Some(text.clone()),
        _ => None,
    }
}

/// A text that is empty where it is left out.
fn take_default_text(slot: Option<&Json>) -> (text: Option<String>)
    ensures
        opt_view(text) == default_text(slot_model(slot)),
{
    match slot {
        None => {
            let empty = String::new();
            assert(empty@ =~= seq![]);
            Some(empty)
        },
        Some(Json::Text(text)) => Some(text.clone()),
        Some(_) => None,
    }
}

/// A text that may be left out or null.
fn take_optional_text(slot: Option<&Json>) -> (text: Option<Option<String>>)
    ensures
        match text {
            Some(text) => optional_text(slot_model(slot)) == Some(opt_view(text)),
            None => optional_text(slot_model(slot)) is None,
        },
{
    match slot {
        None => Some(None),
        Some(Json::Null) => Some(None),
        Some(Json::Text(text)) => Some(Some(text.clone())),
        Some(_) => None,
    }
}

/// A flag that is down where it is left out.
fn take_default_flag(slot: Option<&Json>) -> (flag: Option<bool>)
    ensures
        flag == default_flag(slot_model(slot)),
{
    match slot {
        None => Some(false),
        Some(Json::Bool(flag)) => Some(*flag),
        Some(_) => None,
    }
}

/// A number that is zero where it is left out.
fn take_default_count(slot: Option<&Json>) -> (count: Option<u32>)
    ensures
        count == default_count(slot_model(slot)),
{
    match slot {
        None => Some(0),
        Some(Json::Unsigned(number)) => {
            if *number <= u32::MAX as u64 {
                Some(*number as u32)
            } else {
                None
            }
        },
        Some(_) => None,
    }
}

/// A list that is empty where it is left out.
fn take_default_list<T: Stored>(slot: Option<&Json>) -> (list: Option<Vec<T>>)
    ensures
        match list {
            Some(list) => default_list::<T>(slot_model(slot)) == Some(models(list@)),
            None => default_list::<T>(slot_model(slot)) is None,
        },
{
    match slot {
        None => {
            let empty: Vec<T> = Vec::new();
            assert(models(empty@) =~= seq![]);
            Some(empty)
        },
        Some(Json::Array(items)) => {
            proof {
                lemma_item_models(items@);
            }
            let ghost stored = item_models(items@);
            let mut list: Vec<T> = Vec::new();
            let mut i: usize = 0;
            while i < items.len()
                invariant
                    i <= items.len(),
                    list.len() == i,
                    stored == item_models(items@),
                    stored.len() == items.len(),
                    slot_model(slot) == Some(JsonModel::Array(stored)),
                    forall|k: int|
                        0 <= k < items.len() ==> #[trigger] stored[k] == items@[k]@,
                    forall|k: int|
                        0 <= k < i ==> T::reads(stored[k]) == Some((#[trigger] list@[k])@),
                decreases items.len() - i,
            {
                assert(stored[i as int] == items@[i as int]@);
                match T::from_json(&items[i]) {
                    Some(value) => {
                        list.push(value);
                    },
                    None => {
                        return None;
                    },
                }
                i += 1;
            }
            proof {
                assert forall|k: int| 0 <= k < stored.len() implies T::reads(
                    #[trigger] stored[k],
                ) is Some by {
                    assert(T::reads(stored[k]) == Some(list@[k]@));
                }
                assert(stored.map_values(|item: JsonModel| T::reads(item)->0) =~= models(list@));
            }
            Some(list)
        },
        Some(_) => None,
    }
}

/// The stored form of a list.
fn list_json<T: Stored>(list: &Vec<T>) -> (json: Json)
    ensures
        json@ == list_written::<T>(models(list@)),
{
    let ghost written = models(list@).map_values(|value: T::V| T::writes(value));
    let mut items: Vec<Json> = Vec::new();
    let mut i: usize = 0;
    while i < list.len()
        invariant
            i <= list.len(),
            items.len() == i,
            written == models(list@).map_values(|value: T::V| T::writes(value)),
            written.len() == list.len(),
            forall|k: int| 0 <= k < i ==> (#[trigger] items@[k])@ == written[k],
        decreases list.len() - i,
    {
        items.push(list[i].to_json());
        assert(models(list@)[i as int] == list@[i as int]@);
        i += 1;
    }
    proof {
        lemma_item_models(items@);
        assert(item_models(items@) =~= written);
    }
    Json::Array(items)
}

/// The fields with one more at the end.
fn with_field(fields: Vec<(String, Json)>, key: &str, value: Json) -> (more: Vec<(String, Json)>)
    ensures
        field_models(more@) == field_models(fields@).push((key@, value@)),
{
    let mut more = fields;
    more.push((key.to_owned(), value));
    assert(more@.drop_last() =~= fields@);
    more
}

/// The fields with one more at the end where there is a text for it.
pub open spec fn and_optional(
    fields: Seq<(Seq<char>, JsonModel)>,
    key: Seq<char>,
    text: Option<Seq<char>>,
) -> Seq<(Seq<char>, JsonModel)> {
    match text {
        Some(text) => fields.push((key, JsonModel::Text(text))),
        None => fields,
    }
}

/// The fields with one more at the end where there is a text for it.
fn with_optional(fields: Vec<(String, Json)>, key: &str, text: &Option<String>) -> (more: Vec<
    (String, Json),
>)
    ensures
        field_models(more@) == and_optional(field_models(fields@), key@, opt_view(*text)),
{
    match text {
        Some(text) => with_field(fields, key, Json::Text(text.clone())),
        None => fields,
    }
}

impl Stored for String {
    open spec fn reads(json: JsonModel) -> Option<Seq<char>> {
        required_text(Some(json))
    }

    open spec fn writes(value: Seq<char>) -> JsonModel {
        JsonModel::Text(value)
    }

    fn from_json(json: &Json) -> (value: Option<String>) {
        take_required_text(Some(json))
    }

    fn to_json(&self) -> (json: Json) {
        Json::Text(self.clone())
    }

    proof fn reads_back(value: Seq<char>) {
    }
}

impl Stored for PlanningSelection {
    open spec fn reads(json: JsonModel) -> Option<SelectionModel> {
        if is_record(json, 4) {
            match (
                required_text(member(json, "source_issue_id"@, 0)),
                required_text(member(json, "title"@, 1)),
                required_text(member(json, "branch"@, 2)),
                default_text(member(json, "selection_summary"@, 3)),
            ) {
                (Some(source_issue_id), Some(title), Some(branch), Some(selection_summary)) => Some(
                    SelectionModel { source_issue_id, title, branch, selection_summary },
                ),
                _ => None,
            }
        } else {
            None
        }
    }

    open spec fn writes(value: SelectionModel) -> JsonModel {
        JsonModel::Object(
            seq![
                ("source_issue_id"@, JsonModel::Text(value.source_issue_id)),
                ("title"@, JsonModel::Text(value.title)),
                ("branch"@, JsonModel::Text(value.branch)),
                ("selection_summary"@, JsonModel::Text(value.selection_summary)),
            ],
        )
    }

    fn from_json(json: &Json) -> (value: Option<PlanningSelection>) {
        if !can_be_record(json, 4) {
            return None;
        }
        match (
            take_required_text(member_at(json, "source_issue_id", 0)),
            take_required_text(member_at(json, "title", 1)),
            take_required_text(member_at(json, "branch", 2)),
            take_default_text(member_at(json, "selection_summary", 3)),
        ) {
            (Some(source_issue_id), Some(title), Some(branch), Some(selection_summary)) => Some(
                PlanningSelection { source_issue_id, title, branch, selection_summary },
            ),
            _ => None,
        }
    }

    fn to_json(&self) -> (json: Json) {
        let fields: Vec<(String, Json)> = Vec::new();
        let fields = with_field(
            fields,
            "source_issue_id",
            Json::Text(self.source_issue_id.clone()),
        );
        let fields = with_field(fields, "title", Json::Text(self.title.clone()));
        let fields = with_field(fields, "branch", Json::Text(self.branch.clone()));
        let fields = with_field(
            fields,
            "selection_summary",
            Json::Text(self.selection_summary.clone()),
        );
        let json = Json::Object(fields);
        assert(json@->Object_0 =~= Self::writes(self@)->Object_0);
        json
    }

    proof fn reads_back(value: SelectionModel) {
        reveal_strlit("source_issue_id");
        reveal_strlit("title");
        reveal_strlit("branch");
        reveal_strlit("selection_summary");
        let fields = Self::writes(value)->Object_0;
        assert("source_issue_id"@.len() == 15 && "title"@.len() == 5 && "branch"@.len() == 6);
        assert("selection_summary"@.len() == 17);
        lemma_field_at(fields, "source_issue_id"@, 0);
        lemma_field_at(fields, "title"@, 1);
        lemma_field_at(fields, "branch"@, 2);
        lemma_field_at(fields, "selection_summary"@, 3);
    }
}

impl Stored for RejectedPlanningCandidate {
    open spec fn reads(json: JsonModel) -> Option<RejectionModel> {
        if is_record(json, 2) {
            match (
                required_text(member(json, "source_issue_id"@, 0)),
                required_text(member(json, "reason"@, 1)),
            ) {
                (Some(source_issue_id), Some(reason)) => Some(
                    RejectionModel { source_issue_id, reason },
                ),
                _ => None,
            }
        } else {
            None
        }
    }

    open spec fn writes(value: RejectionModel) -> JsonModel {
        JsonModel::Object(
            seq![
                ("source_issue_id"@, JsonModel::Text(value.source_issue_id)),
                ("reason"@, JsonModel::Text(value.reason)),
            ],
        )
    }

    fn from_json(json: &Json) -> (value: Option<RejectedPlanningCandidate>) {
        if !can_be_record(json, 2) {
            return None;
        }
        match (
            take_required_text(member_at(json, "source_issue_id", 0)),
            take_required_text(member_at(json, "reason", 1)),
        ) {
            (Some(source_issue_id), Some(reason)) => Some(
                RejectedPlanningCandidate { source_issue_id, reason },
            ),
            _ => None,
        }
    }

    fn to_json(&self) -> (json: Json) {
        let fields: Vec<(String, Json)> = Vec::new();
        let fields = with_field(
            fields,
            "source_issue_id",
            Json::Text(self.source_issue_id.clone()),
        );
        let fields = with_field(fields, "reason", Json::Text(self.reason.clone()));
        let json = Json::Object(fields);
        assert(json@->Object_0 =~= Self::writes(self@)->Object_0);
        json
    }

    proof fn reads_back(value: RejectionModel) {
        reveal_strlit("source_issue_id");
        reveal_strlit("reason");
        let fields = Self::writes(value)->Object_0;
        assert("source_issue_id"@.len() == 15 && "reason"@.len() == 6);
        lemma_field_at(fields, "source_issue_id"@, 0);
        lemma_field_at(fields, "reason"@, 1);
    }
}

impl Stored for ReviewFinding {
    /// A bare text is a message without a location.
    open spec fn reads(json: JsonModel) -> Option<FindingModel> {
        match json {
            JsonModel::Text(message) => Some(FindingModel { location: None, message }),
            JsonModel::Object(fields) => match (
                optional_text(field_of(fields, "location"@)),
                required_text(field_of(fields, "message"@)),
            ) {
                (Some(location), Some(message)) => Some(FindingModel { location, message }),
                _ => None,
            },
            _ => None,
        }
    }

    open spec fn writes(value: FindingModel) -> JsonModel {
        JsonModel::Object(
            and_optional(seq![], "location"@, value.location).push(
                ("message"@, JsonModel::Text(value.message)),
            ),
        )
    }

    fn from_json(json: &Json) -> (value: Option<ReviewFinding>) {
        match json {
            Json::Text(message) => Some(ReviewFinding { location: None, message: message.clone() }),
            Json::Object(_) => match (
                take_optional_text(json.get("location")),
                take_required_text(json.get("message")),
            ) {
                (Some(location), Some(message)) => Some(ReviewFinding { location, message }),
                _ => None,
            },
            _ => None,
        }
    }

    fn to_json(&self) -> (json: Json) {
        let fields: Vec<(String, Json)> = Vec::new();
        assert(field_models(fields@) =~= seq![]);
        let fields = with_optional(fields, "location", &self.location);
        let fields = with_field(fields, "message", Json::Text(self.message.clone()));
        Json::Object(fields)
    }

    proof fn reads_back(value: FindingModel) {
        reveal_strlit("location");
        reveal_strlit("message");
        let fields = Self::writes(value)->Object_0;
        assert("location"@.len() == 8 && "message"@.len() == 7);
        if value.location is Some {
            lemma_field_at(fields, "location"@, 0);
            lemma_field_at(fields, "message"@, 1);
        } else {
            lemma_no_field(fields, "location"@);
            lemma_field_at(fields, "message"@, 0);
        }
    }
}

/// A planning body that is stored with its tag ahead of its fields.
pub open spec fn planning_read(json: JsonModel) -> Option<BodyModel> {
    if is_record(json, 4) {
        match (
            default_list::<PlanningSelection>(member(json, "selections"@, 1)),
            default_text(member(json, "summary"@, 2)),
            default_list::<RejectedPlanningCandidate>(member(json, "rejected_candidates"@, 3)),
        ) {
            (Some(selections), Some(summary), Some(rejected_candidates)) => Some(
                BodyModel::Planning { selections, summary, rejected_candidates },
            ),
            _ => None,
        }
    } else {
        None
    }
}

/// An implementation body that is stored with its tag ahead of its fields.
pub open spec fn implementation_read(json: JsonModel) -> Option<BodyModel> {
    if is_record(json, 5) {
        match (
            default_list::<String>(member(json, "commits"@, 1)),
            default_list::<String>(member(json, "verification"@, 2)),
            default_list::<String>(member(json, "gaps"@, 3)),
            default_text(member(json, "summary"@, 4)),
        ) {
            (Some(commits), Some(verification), Some(gaps), Some(summary)) => Some(
                BodyModel::Implementation { commits, verification, gaps, summary },
            ),
            _ => None,
        }
    } else {
        None
    }
}

/// A review body that is stored with its tag ahead of its fields.
pub open spec fn review_read(json: JsonModel) -> Option<BodyModel> {
    if is_record(json, 5) {
        match (
            default_list::<ReviewFinding>(member(json, "findings"@, 1)),
            default_list::<String>(member(json, "verification"@, 2)),
            default_list::<String>(member(json, "gaps"@, 3)),
            default_text(member(json, "summary"@, 4)),
        ) {
            (Some(findings), Some(verification), Some(gaps), Some(summary)) => Some(
                BodyModel::Review { findings, verification, gaps, summary },
            ),
            _ => None,
        }
    } else {
        None
    }
}

/// A merge body that is stored with its tag ahead of its fields.
pub open spec fn merge_read(json: JsonModel) -> Option<BodyModel> {
    if is_record(json, 6) {
        match (
            default_list::<String>(member(json, "merged_source_ids"@, 1)),
            default_list::<String>(member(json, "verification"@, 2)),
            default_list::<String>(member(json, "gaps"@, 3)),
            default_text(member(json, "summary"@, 4)),
            optional_text(member(json, "block_reason"@, 5)),
        ) {
            (
                Some(merged_source_ids),
                Some(verification),
                Some(gaps),
                Some(summary),
                Some(block_reason),
            ) => Some(
                BodyModel::Merge { merged_source_ids, verification, gaps, summary, block_reason },
            ),
            _ => None,
        }
    } else {
        None
    }
}

/// A push body that is stored with its tag ahead of its fields.
pub open spec fn push_read(json: JsonModel) -> Option<BodyModel> {
    if is_record(json, 4) {
        match (
            default_text(member(json, "stderr"@, 1)),
            default_flag(member(json, "fast_forward"@, 2)),
            default_count(member(json, "attempt"@, 3)),
        ) {
            (Some(stderr), Some(fast_forward), Some(attempt)) => Some(
                BodyModel::Push { stderr, fast_forward, attempt },
            ),
            _ => None,
        }
    } else {
        None
    }
}

/// A failure body that is stored with its tag ahead of its fields.
pub open spec fn failed_read(json: JsonModel) -> Option<BodyModel> {
    if is_record(json, 3) {
        match (
            required_text(member(json, "error"@, 1)),
            optional_text(member(json, "problem_type"@, 2)),
        ) {
            (Some(error), Some(problem_type)) => Some(BodyModel::Failed { error, problem_type }),
            _ => None,
        }
    } else {
        None
    }
}

/// Read a stored body with the tag of its variant.
fn read_planning(json: &Json) -> (body: Option<PhaseOutputBody>)
    ensures
        match body {
            Some(body) => planning_read(json@) == Some(body@),
            None => planning_read(json@) is None,
        },
{
    if !can_be_record(json, 4) {
        return None;
    }
    match (
        take_default_list::<PlanningSelection>(member_at(json, "selections", 1)),
        take_default_text(member_at(json, "summary", 2)),
        take_default_list::<RejectedPlanningCandidate>(member_at(json, "rejected_candidates", 3)),
    ) {
        (Some(selections), Some(summary), Some(rejected_candidates)) => Some(
            PhaseOutputBody::Planning { selections, summary, rejected_candidates },
        ),
        _ => None,
    }
}

/// Read a stored body with the tag of its variant.
fn read_implementation(json: &Json) -> (body: Option<PhaseOutputBody>)
    ensures
        match body {
            Some(body) => implementation_read(json@) == Some(body@),
            None => implementation_read(json@) is None,
        },
{
    if !can_be_record(json, 5) {
        return None;
    }
    match (
        take_default_list::<String>(member_at(json, "commits", 1)),
        take_default_list::<String>(member_at(json, "verification", 2)),
        take_default_list::<String>(member_at(json, "gaps", 3)),
        take_default_text(member_at(json, "summary", 4)),
    ) {
        (Some(commits), Some(verification), Some(gaps), Some(summary)) => Some(
            PhaseOutputBody::Implementation { commits, verification, gaps, summary },
        ),
        _ => None,
    }
}

/// Read a stored body with the tag of its variant.
fn read_review(json: &Json) -> (body: Option<PhaseOutputBody>)
    ensures
        match body {
            Some(body) => review_read(json@) == Some(body@),
            None => review_read(json@) is None,
        },
{
    if !can_be_record(json, 5) {
        return None;
    }
    match (
        take_default_list::<ReviewFinding>(member_at(json, "findings", 1)),
        take_default_list::<String>(member_at(json, "verification", 2)),
        take_default_list::<String>(member_at(json, "gaps", 3)),
        take_default_text(member_at(json, "summary", 4)),
    ) {
        (Some(findings), Some(verification), Some(gaps), Some(summary)) => Some(
            PhaseOutputBody::Review { findings, verification, gaps, summary },
        ),
        _ => None,
    }
}

/// Read a stored body with the tag of its variant.
fn read_merge(json: &Json) -> (body: Option<PhaseOutputBody>)
    ensures
        match body {
            Some(body) => merge_read(json@) == Some(body@),
            None => merge_read(json@) is None,
        },
{
    if !can_be_record(json, 6) {
        return None;
    }
    match (
        take_default_list::<String>(member_at(json, "merged_source_ids", 1)),
        take_default_list::<String>(member_at(json, "verification", 2)),
        take_default_list::<String>(member_at(json, "gaps", 3)),
        take_default_text(member_at(json, "summary", 4)),
        take_optional_text(member_at(json, "block_reason", 5)),
    ) {
        (
            Some(merged_source_ids),
            Some(verification),
            Some(gaps),
            Some(summary),
            Some(block_reason),
        ) => Some(
            PhaseOutputBody::Merge { merged_source_ids, verification, gaps, summary, block_reason },
        ),
        _ => None,
    }
}

/// Read a stored body with the tag of its variant.
fn read_push(json: &Json) -> (body: Option<PhaseOutputBody>)
    ensures
        match body {
            Some(body) => push_read(json@) == Some(body@),
            None => push_read(json@) is None,
        },
{
    if !can_be_record(json, 4) {
        return None;
    }
    match (
        take_default_text(member_at(json, "stderr", 1)),
        take_default_flag(member_at(json, "fast_forward", 2)),
        take_default_count(member_at(json, "attempt", 3)),
    ) {
        (Some(stderr), Some(fast_forward), Some(attempt)) => Some(
            PhaseOutputBody::Push { stderr, fast_forward, attempt },
        ),
        _ => None,
    }
}

/// Read a stored body with the tag of its variant.
fn read_failed(json: &Json) -> (body: Option<PhaseOutputBody>)
    ensures
        match body {
            Some(body) => failed_read(json@) == Some(body@),
            None => failed_read(json@) is None,
        },
{
    if !can_be_record(json, 3) {
        return None;
    }
    match (
        take_required_text(member_at(json, "error", 1)),
        take_optional_text(member_at(json, "problem_type", 2)),
    ) {
        (Some(error), Some(problem_type)) => Some(PhaseOutputBody::Failed { error, problem_type }),
        _ => None,
    }
}

/// The name of a variant.
pub open spec fn model_tag(body: BodyModel) -> Seq<char> {
    match body {
        BodyModel::Planning { .. } => "planning"@,
        BodyModel::Implementation { .. } => "implementation"@,
        BodyModel::Review { .. } => "review"@,
        BodyModel::Merge { .. } => "merge"@,
        BodyModel::Push { .. } => "push"@,
        BodyModel::Failed { .. } => "failed"@,
    }
}

/// The fields of a stored body.
pub open spec fn body_fields(body: BodyModel) -> Seq<(Seq<char>, JsonModel)> {
    let tag = ("phase"@, JsonModel::Text(model_tag(body)));
    match body {
        BodyModel::Planning { selections, summary, rejected_candidates } => seq![
                tag,
                ("selections"@, list_written::<PlanningSelection>(selections)),
                ("summary"@, JsonModel::Text(summary)),
                (
                    "rejected_candidates"@,
                    list_written::<RejectedPlanningCandidate>(rejected_candidates),
                ),
            ],
        BodyModel::Implementation { commits, verification, gaps, summary } => seq![
                tag,
                ("commits"@, list_written::<String>(commits)),
                ("verification"@, list_written::<String>(verification)),
                ("gaps"@, list_written::<String>(gaps)),
                ("summary"@, JsonModel::Text(summary)),
            ],
        BodyModel::Review { findings, verification, gaps, summary } => seq![
                tag,
                ("findings"@, list_written::<ReviewFinding>(findings)),
                ("verification"@, list_written::<String>(verification)),
                ("gaps"@, list_written::<String>(gaps)),
                ("summary"@, JsonModel::Text(summary)),
            ],
        BodyModel::Merge { merged_source_ids, verification, gaps, summary, block_reason } => and_optional(seq![
                tag,
                ("merged_source_ids"@, list_written::<String>(merged_source_ids)),
                ("verification"@, list_written::<String>(verification)),
                ("gaps"@, list_written::<String>(gaps)),
                ("summary"@, JsonModel::Text(summary)),
            ], "block_reason"@, block_reason),
        BodyModel::Push { stderr, fast_forward, attempt } => seq![
                tag,
                ("stderr"@, JsonModel::Text(stderr)),
                ("fast_forward"@, JsonModel::Bool(fast_forward)),
                ("attempt"@, JsonModel::Unsigned(attempt as u64)),
            ],
        BodyModel::Failed { error, problem_type } => and_optional(seq![
                tag,
                ("error"@, JsonModel::Text(error)),
            ], "problem_type"@, problem_type),
    }
}

impl Stored for PhaseOutputBody {
    open spec fn reads(json: JsonModel) -> Option<BodyModel> {
        match required_text(member(json, "phase"@, 0)) {
            Some(tag) => if tag == "planning"@ {
                planning_read(json)
            } else if tag == "implementation"@ {
                implementation_read(json)
            } else if tag == "review"@ {
                review_read(json)
            } else if tag == "merge"@ {
                merge_read(json)
            } else if tag == "push"@ {
                push_read(json)
            } else if tag == "failed"@ {
                failed_read(json)
            } else {
                None
            },
            None => None,
        }
    }

    open spec fn writes(value: BodyModel) -> JsonModel {
        JsonModel::Object(body_fields(value))
    }

    fn from_json(json: &Json) -> (value: Option<PhaseOutputBody>) {
        match take_required_text(member_at(json, "phase", 0)) {
            Some(tag) => {
                if same_text(tag.as_str(), "planning") {
                    read_planning(json)
                } else if same_text(tag.as_str(), "implementation") {
                    read_implementation(json)
                } else if same_text(tag.as_str(), "review") {
                    read_review(json)
                } else if same_text(tag.as_str(), "merge") {
                    read_merge(json)
                } else if same_text(tag.as_str(), "push") {
                    read_push(json)
                } else if same_text(tag.as_str(), "failed") {
                    read_failed(json)
                } else {
                    None
                }
            },
            None => None,
        }
    }

    fn to_json(&self) -> (json: Json) {
        let fields: Vec<(String, Json)> = Vec::new();
        let fields = with_field(fields, "phase", Json::Text(self.phase_tag().to_owned()));
        let fields = match self {
            PhaseOutputBody::Planning { selections, summary, rejected_candidates } => {
                let fields = with_field(fields, "selections", list_json(selections));
                let fields = with_field(fields, "summary", Json::Text(summary.clone()));
                with_field(fields, "rejected_candidates", list_json(rejected_candidates))
            },
            PhaseOutputBody::Implementation { commits, verification, gaps, summary } => {
                let fields = with_field(fields, "commits", list_json(commits));
                let fields = with_field(fields, "verification", list_json(verification));
                let fields = with_field(fields, "gaps", list_json(gaps));
                with_field(fields, "summary", Json::Text(summary.clone()))
            },
            PhaseOutputBody::Review { findings, verification, gaps, summary } => {
                let fields = with_field(fields, "findings", list_json(findings));
                let fields = with_field(fields, "verification", list_json(verification));
                let fields = with_field(fields, "gaps", list_json(gaps));
                with_field(fields, "summary", Json::Text(summary.clone()))
            },
            PhaseOutputBody::Merge { merged_source_ids, verification, gaps, summary, block_reason } => {
                let fields = with_field(fields, "merged_source_ids", list_json(merged_source_ids));
                let fields = with_field(fields, "verification", list_json(verification));
                let fields = with_field(fields, "gaps", list_json(gaps));
                let fields = with_field(fields, "summary", Json::Text(summary.clone()));
                with_optional(fields, "block_reason", block_reason)
            },
            PhaseOutputBody::Push { stderr, fast_forward, attempt } => {
                let fields = with_field(fields, "stderr", Json::Text(stderr.clone()));
                let fields = with_field(fields, "fast_forward", Json::Bool(*fast_forward));
                with_field(fields, "attempt", Json::Unsigned(*attempt as u64))
            },
            PhaseOutputBody::Failed { error, problem_type } => {
                let fields = with_field(fields, "error", Json::Text(error.clone()));
                with_optional(fields, "problem_type", problem_type)
            },
        };
        assert(field_models(fields@) =~= body_fields(self@));
        Json::Object(fields)
    }

    proof fn reads_back(value: BodyModel) {
        lemma_tags_differ();
        lemma_names_differ();
        let fields = body_fields(value);
        lemma_field_at(fields, "phase"@, 0);
        match value {
            BodyModel::Planning { selections, summary, rejected_candidates } => {
                lemma_field_at(fields, "selections"@, 1);
                lemma_list_reads_back::<PlanningSelection>(selections);
                lemma_field_at(fields, "summary"@, 2);
                lemma_field_at(fields, "rejected_candidates"@, 3);
                lemma_list_reads_back::<RejectedPlanningCandidate>(rejected_candidates);
            },
            BodyModel::Implementation { commits, verification, gaps, summary } => {
                lemma_field_at(fields, "commits"@, 1);
                lemma_list_reads_back::<String>(commits);
                lemma_field_at(fields, "verification"@, 2);
                lemma_list_reads_back::<String>(verification);
                lemma_field_at(fields, "gaps"@, 3);
                lemma_list_reads_back::<String>(gaps);
                lemma_field_at(fields, "summary"@, 4);
            },
            BodyModel::Review { findings, verification, gaps, summary } => {
                lemma_field_at(fields, "findings"@, 1);
                lemma_list_reads_back::<ReviewFinding>(findings);
                lemma_field_at(fields, "verification"@, 2);
                lemma_list_reads_back::<String>(verification);
                lemma_field_at(fields, "gaps"@, 3);
                lemma_list_reads_back::<String>(gaps);
                lemma_field_at(fields, "summary"@, 4);
            },
            BodyModel::Merge { merged_source_ids, verification, gaps, summary, block_reason } => {
                lemma_field_at(fields, "merged_source_ids"@, 1);
                lemma_list_reads_back::<String>(merged_source_ids);
                lemma_field_at(fields, "verification"@, 2);
                lemma_list_reads_back::<String>(verification);
                lemma_field_at(fields, "gaps"@, 3);
                lemma_list_reads_back::<String>(gaps);
                lemma_field_at(fields, "summary"@, 4);
                if block_reason is Some {
                    lemma_field_at(fields, "block_reason"@, 5);
                } else {
                    lemma_no_field(fields, "block_reason"@);
                }
            },
            BodyModel::Push { stderr, fast_forward, attempt } => {
                lemma_field_at(fields, "stderr"@, 1);
                lemma_field_at(fields, "fast_forward"@, 2);
                lemma_field_at(fields, "attempt"@, 3);
            },
            BodyModel::Failed { error, problem_type } => {
                lemma_field_at(fields, "error"@, 1);
                if problem_type is Some {
                    lemma_field_at(fields, "problem_type"@, 2);
                } else {
                    lemma_no_field(fields, "problem_type"@);
                }
            },
        }
    }
}

/// The names of the variants are different texts.
proof fn lemma_tags_differ()
    ensures
        "planning"@ != "implementation"@,
        "planning"@ != "review"@,
        "planning"@ != "merge"@,
        "planning"@ != "push"@,
        "planning"@ != "failed"@,
        "implementation"@ != "review"@,
        "implementation"@ != "merge"@,
        "implementation"@ != "push"@,
        "implementation"@ != "failed"@,
        "review"@ != "merge"@,
        "review"@ != "push"@,
        "review"@ != "failed"@,
        "merge"@ != "push"@,
        "merge"@ != "failed"@,
        "push"@ != "failed"@,
{
    reveal_strlit("planning");
    reveal_strlit("implementation");
    reveal_strlit("review");
    reveal_strlit("merge");
    reveal_strlit("push");
    reveal_strlit("failed");
    assert("planning"@.len() == 8);
    assert("implementation"@.len() == 14);
    assert("review"@.len() == 6);
    assert("merge"@.len() == 5);
    assert("push"@.len() == 4);
    assert("failed"@.len() == 6);
    assert("review"@[0] != "failed"@[0]);
}

/// The names of the fields of a variant are different texts.
proof fn lemma_names_differ()
    ensures
        "commits"@ != "gaps"@,
        "commits"@ != "summary"@,
        "commits"@ != "verification"@,
        "error"@ != "problem_type"@,
        "fast_forward"@ != "attempt"@,
        "findings"@ != "gaps"@,
        "findings"@ != "summary"@,
        "findings"@ != "verification"@,
        "gaps"@ != "block_reason"@,
        "gaps"@ != "summary"@,
        "merged_source_ids"@ != "block_reason"@,
        "merged_source_ids"@ != "gaps"@,
        "merged_source_ids"@ != "summary"@,
        "merged_source_ids"@ != "verification"@,
        "phase"@ != "attempt"@,
        "phase"@ != "block_reason"@,
        "phase"@ != "commits"@,
        "phase"@ != "error"@,
        "phase"@ != "fast_forward"@,
        "phase"@ != "findings"@,
        "phase"@ != "gaps"@,
        "phase"@ != "merged_source_ids"@,
        "phase"@ != "problem_type"@,
        "phase"@ != "rejected_candidates"@,
        "phase"@ != "selections"@,
        "phase"@ != "stderr"@,
        "phase"@ != "summary"@,
        "phase"@ != "verification"@,
        "selections"@ != "rejected_candidates"@,
        "selections"@ != "summary"@,
        "stderr"@ != "attempt"@,
        "stderr"@ != "fast_forward"@,
        "summary"@ != "block_reason"@,
        "summary"@ != "rejected_candidates"@,
        "verification"@ != "block_reason"@,
        "verification"@ != "gaps"@,
        "verification"@ != "summary"@,
{
    reveal_strlit("attempt");
    reveal_strlit("block_reason");
    reveal_strlit("commits");
    reveal_strlit("error");
    reveal_strlit("fast_forward");
    reveal_strlit("findings");
    reveal_strlit("gaps");
    reveal_strlit("merged_source_ids");
    reveal_strlit("phase");
    reveal_strlit("problem_type");
    reveal_strlit("rejected_candidates");
    reveal_strlit("selections");
    reveal_strlit("stderr");
    reveal_strlit("summary");
    reveal_strlit("verification");
    assert("attempt"@.len() == 7);
    assert("block_reason"@.len() == 12);
    assert("commits"@.len() == 7);
    assert("error"@.len() == 5);
    assert("fast_forward"@.len() == 12);
    assert("findings"@.len() == 8);
    assert("gaps"@.len() == 4);
    assert("merged_source_ids"@.len() == 17);
    assert("phase"@.len() == 5);
    assert("problem_type"@.len() == 12);
    assert("rejected_candidates"@.len() == 19);
    assert("selections"@.len() == 10);
    assert("stderr"@.len() == 6);
    assert("summary"@.len() == 7);
    assert("verification"@.len() == 12);
    assert("commits"@[0] != "summary"@[0]);
    assert("phase"@[0] != "error"@[0]);
    assert("verification"@[0] != "block_reason"@[0]);
}

/// A stored body reads as the body that was written.
pub proof fn law_stored_body_reads_back(body: PhaseOutputBody)
    ensures
        PhaseOutputBody::reads(PhaseOutputBody::writes(body@)) == Some(body@),
{
    PhaseOutputBody::reads_back(body@);
}

/// What a row of unknown age says: the body where the row has the stored form,
/// and otherwise a failure with the row's `error` text, or with the whole row
/// where it has none.
pub open spec fn legacy_body(text: Seq<char>, json: JsonModel) -> BodyModel {
    match PhaseOutputBody::reads(json) {
        Some(body) => body,
        None => BodyModel::Failed {
            error: match text_field(json, "error"@) {
                Some(error) => error,
                None => json_compact(text),
            },
            problem_type: text_field(json, "problem_type"@),
        },
    }
}

impl PhaseOutputBody {
    /// The body of a row of unknown age.
    pub fn from_legacy_value(value: &JsonDocument) -> (body: PhaseOutputBody)
        ensures
            body@ == legacy_body(value.text@, value.value@),
    {
        match PhaseOutputBody::from_json(&value.value) {
            Some(typed) => typed,
            None => {
                let error = match value.value.text_at("error") {
                    Some(error) => error.clone(),
                    None => value.compact(),
                };
                let problem_type = match value.value.text_at("problem_type") {
                    Some(problem_type) => Some(problem_type.clone()),
                    None => None,
                };
                PhaseOutputBody::Failed { error, problem_type }
            },
        }
    }
}

/// A row that was stored reads as its body, whatever its text.
pub proof fn law_legacy_reading_keeps_stored_bodies(text: Seq<char>, body: PhaseOutputBody)
    ensures
        legacy_body(text, PhaseOutputBody::writes(body@)) == body@,
{
    PhaseOutputBody::reads_back(body@);
}

} // verus!
