//! The values that the service answers with, and how they are read from
//! JSON.
use crate::json::{
    bool_field, items_view, member_of, nat_field, opt_nat_field, opt_text_field, read_bool,
    read_opt_text, read_text, read_u64, text_field, Json, JsonView,
};
use crate::number::{i64_from_text, parse_int};
use crate::param::{opt_count_view, opt_text_view, read_count, read_opt_count};
use vstd::prelude::*;

verus! {

/// Whether `chrono::DateTime::from_timestamp_secs` has a date and time for
/// a number of seconds since the start of 1970.
pub uninterp spec fn is_timestamp(secs: int) -> bool;

/// Asks `chrono::DateTime::from_timestamp_secs` whether the number of
/// seconds is in the range of dates that it can represent. The range holds
/// every second of the years 1970 to 9999.
#[verifier::external_body]
fn timestamp_exists(secs: i64) -> (ok: bool)
    ensures
        ok == is_timestamp(secs as int),
        0 <= secs <= 253_402_300_799 ==> ok,
{
    chrono::DateTime::from_timestamp_secs(secs).is_some()
}

/// A number of seconds since the start of 1970 stands for a date: every
/// second of the years 1970 to 9999 does, and beyond them what `chrono` has
/// a date for.
pub open spec fn has_date(secs: int) -> bool {
    0 <= secs <= 253_402_300_799 || is_timestamp(secs)
}

/// Whether a number of seconds since the start of 1970 stands for a date.
pub fn check_timestamp(secs: i64) -> (ok: bool)
    ensures
        ok == has_date(secs as int),
{
    timestamp_exists(secs)
}

/// The time under the key `created`, in seconds since the start of 1970.
/// The member must be there; it holds `null` or a whole number of seconds
/// that stands for a date. The outer `Option` says whether the member is
/// acceptable.
pub open spec fn created_field(tree: JsonView) -> Option<Option<int>> {
    match member_of(tree, "created"@) {
        Some(JsonView::Null) => Some(None),
        Some(JsonView::Number(t)) => match parse_int(t) {
            Some(v) => if i64::MIN <= v <= i64::MAX && has_date(v) {
                Some(Some(v))
            } else {
                None
            },
            None => None,
        },
        _ => None,
    }
}

/// Reads the time under the key `created`.
pub fn read_created(json: &Json) -> (r: Option<Option<i64>>)
    ensures
        match created_field(json@) {
            Some(Some(v)) => r == Some(Some(v as i64)),
            Some(None) => r == Some(None::<i64>),
            None => r is None,
        },
{
    match json.get("created") {
        Some(Json::Null) => Some(None),
        Some(Json::Number(t)) => match i64_from_text(t.as_str()) {
            Some(v) => if check_timestamp(v) {
                Some(Some(v))
            } else {
                None
            },
            None => None,
        },
        _ => None,
    }
}

/// The view of a time that may be missing.
pub open spec fn opt_time_view(o: Option<i64>) -> Option<int> {
    match o {
        Some(v) => Some(v as int),
        None => None,
    }
}

/// The token counts of a completion.
#[derive(Debug, Clone, Copy, PartialEq, Eq, Structural)]
pub struct Usage {
    pub prompt_tokens: u16,
    pub completion_tokens: u16,
    pub total_tokens: u16,
}

/// The token counts that a JSON object holds.
pub open spec fn decode_usage(tree: JsonView) -> Option<Usage> {
    let prompt_tokens = nat_field(tree, "prompt_tokens"@, u16::MAX as nat);
    let completion_tokens = nat_field(tree, "completion_tokens"@, u16::MAX as nat);
    let total_tokens = nat_field(tree, "total_tokens"@, u16::MAX as nat);
    if prompt_tokens is Some && completion_tokens is Some && total_tokens is Some {
        Some(
            Usage {
                prompt_tokens: prompt_tokens->0 as u16,
                completion_tokens: completion_tokens->0 as u16,
                total_tokens: total_tokens->0 as u16,
            },
        )
    } else {
        None
    }
}

impl Usage {
    /// Reads the token counts from a JSON object.
    pub fn from_json(json: &Json) -> (r: Option<Usage>)
        ensures
            r == decode_usage(json@),
    {
        let prompt_tokens = read_u64(json, "prompt_tokens", 65535)? as u16;
        let completion_tokens = read_u64(json, "completion_tokens", 65535)? as u16;
        let total_tokens = read_u64(json, "total_tokens", 65535)? as u16;
        Some(Usage { prompt_tokens, completion_tokens, total_tokens })
    }
}

/// One generated text of a completion.
#[derive(Debug, Clone)]
pub struct Choice {
    pub text: String,
    pub index: usize,
    pub logprobs: Option<usize>,
    pub finish_reason: String,
}

pub struct ChoiceView {
    pub text: Seq<char>,
    pub index: nat,
    pub logprobs: Option<nat>,
    pub finish_reason: Seq<char>,
}

impl View for Choice {
    type V = ChoiceView;

    open spec fn view(&self) -> ChoiceView {
        ChoiceView {
            text: self.text@,
            index: self.index as nat,
            logprobs: opt_count_view(self.logprobs),
            finish_reason: self.finish_reason@,
        }
    }
}

/// The choice that a JSON object holds.
pub open spec fn decode_choice(tree: JsonView) -> Option<ChoiceView> {
    let text = text_field(tree, "text"@);
    let index = nat_field(tree, "index"@, usize::MAX as nat);
    let logprobs = opt_nat_field(tree, "logprobs"@, usize::MAX as nat);
    let finish_reason = text_field(tree, "finish_reason"@);
    if text is Some && index is Some && logprobs is Some && finish_reason is Some {
        Some(
            ChoiceView {
                text: text->0,
                index: index->0,
                logprobs: logprobs->0,
                finish_reason: finish_reason->0,
            },
        )
    } else {
        None
    }
}

impl Choice {
    /// Reads a choice from a JSON object.
    pub fn from_json(json: &Json) -> (r: Option<Choice>)
        ensures
            match decode_choice(json@) {
                Some(v) => r matches Some(c) && c@ == v,
                None => r is None,
            },
    {
        let text = read_text(json, "text")?;
        let index = read_count(json, "index")?;
        let logprobs = read_opt_count(json, "logprobs")?;
        let finish_reason = read_text(json, "finish_reason")?;
        Some(Choice { text, index, logprobs, finish_reason })
    }
}

/// The choices that the items of a JSON array hold; `None` where an item
/// is no choice.
pub open spec fn decode_choices(items: Seq<JsonView>) -> Option<Seq<ChoiceView>> {
    if forall|i: int| 0 <= i < items.len() ==> (#[trigger] decode_choice(items[i])) is Some {
        Some(items.map_values(|j: JsonView| decode_choice(j)->0))
    } else {
        None
    }
}

/// Reads the choices under the key `choices`.
fn read_choices(json: &Json) -> (r: Option<Vec<Choice>>)
    ensures
        match choices_field(json@) {
            Some(v) => r matches Some(c) && c@.map_values(|x: Choice| x@) == v,
            None => r is None,
        },
{
    let items = match json.get("choices") {
        Some(found) => found.items()?,
        None => {
            return None;
        },
    };
    let ghost views = items_view(items@);
    let mut choices: Vec<Choice> = Vec::new();
    let mut i: usize = 0;
    while i < items.len()
        invariant
            i <= items.len(),
            views == items_view(items@),
            member_of(json@, "choices"@) == Some(JsonView::Array(views)),
            choices@.len() == i,
            forall|j: int| 0 <= j < i ==> decode_choice(views[j]) == Some((#[trigger] choices@[j])@),
        decreases items.len() - i,
    {
        match Choice::from_json(&items[i]) {
            Some(c) => {
                choices.push(c);
            },
            None => {
                assert(decode_choice(views[i as int]) is None);
                return None;
            },
        }
        i = i + 1;
    }
    proof {
        assert(views.len() == choices@.len());
        assert forall|j: int| 0 <= j < views.len() implies (#[trigger] decode_choice(views[j]))
            == Some(choices@[j]@) by {}
        assert(decode_choices(views)->0 =~= choices@.map_values(|x: Choice| x@));
    }
    Some(choices)
}

/// The choices under the key `choices`, which must hold an array.
pub open spec fn choices_field(tree: JsonView) -> Option<Seq<ChoiceView>> {
    match member_of(tree, "choices"@) {
        Some(JsonView::Array(items)) => decode_choices(items),
        _ => None,
    }
}

/// The answer to a completion request.
#[derive(Debug, Clone)]
pub struct Completion {
    pub id: String,
    pub object: String,
    /// Seconds since the start of 1970.
    pub created: Option<i64>,
    pub model: String,
    pub choices: Vec<Choice>,
    pub usage: Usage,
}

pub struct CompletionView {
    pub id: Seq<char>,
    pub object: Seq<char>,
    pub created: Option<int>,
    pub model: Seq<char>,
    pub choices: Seq<ChoiceView>,
    pub usage: Usage,
}

impl View for Completion {
    type V = CompletionView;

    open spec fn view(&self) -> CompletionView {
        CompletionView {
            id: self.id@,
            object: self.object@,
            created: opt_time_view(self.created),
            model: self.model@,
            choices: self.choices@.map_values(|c: Choice| c@),
            usage: self.usage,
        }
    }
}

/// The completion that a JSON object holds: every member must be there,
/// `created` may hold `null`, and a member that this type does not know is
/// passed over.
pub open spec fn decode_completion(tree: JsonView) -> Option<CompletionView> {
    let id = text_field(tree, "id"@);
    let object = text_field(tree, "object"@);
    let created = created_field(tree);
    let model = text_field(tree, "model"@);
    let choices = choices_field(tree);
    let usage = match member_of(tree, "usage"@) {
        Some(u) => decode_usage(u),
        None => None,
    };
    if id is Some && object is Some && created is Some && model is Some && choices is Some
        && usage is Some {
        Some(
            CompletionView {
                id: id->0,
                object: object->0,
                created: created->0,
                model: model->0,
                choices: choices->0,
                usage: usage->0,
            },
        )
    } else {
        None
    }
}

impl Completion {
    /// Reads a completion from a JSON object.
    pub fn from_json(json: &Json) -> (r: Option<Completion>)
        ensures
            match decode_completion(json@) {
                Some(v) => r matches Some(c) && c@ == v,
                None => r is None,
            },
    {
        let id = read_text(json, "id")?;
        let object = read_text(json, "object")?;
        let created = read_created(json)?;
        let model = read_text(json, "model")?;
        let choices = read_choices(json)?;
        let usage = match json.get("usage") {
            Some(u) => Usage::from_json(u)?,
            None => {
                return None;
            },
        };
        Some(Completion { id, object, created, model, choices, usage })
    }
}

/// The answer to a chat request. The service's schema for it is not
/// modelled: the value has no fields.
#[derive(Debug, Clone, Copy, PartialEq, Eq, Structural)]
pub struct ChatCompletion {}

/// The answer to an edit request. The service's schema for it is not
/// modelled: the value has no fields.
#[derive(Debug, Clone, Copy, PartialEq, Eq, Structural)]
pub struct EditedPrompt {}

impl ChatCompletion {
    /// Reads the answer to a chat request: any JSON object will do.
    pub fn from_json(json: &Json) -> (r: Option<ChatCompletion>)
        ensures
            r is Some <==> json@ is Object,
    {
        match json {
            Json::Object(_) => Some(ChatCompletion {  }),
            _ => None,
        }
    }
}

impl EditedPrompt {
    /// Reads the answer to an edit request: any JSON object will do.
    pub fn from_json(json: &Json) -> (r: Option<EditedPrompt>)
        ensures
            r is Some <==> json@ is Object,
    {
        match json {
            Json::Object(_) => Some(EditedPrompt {  }),
            _ => None,
        }
    }
}

/// One permission record of a model.
#[derive(Debug, Clone)]
pub struct Permission {
    pub id: String,
    pub object: String,
    /// Seconds since the start of 1970.
    pub created: Option<i64>,
    pub allow_create_engine: bool,
    pub allow_sampling: bool,
    pub allow_logprobs: bool,
    pub allow_search_indices: bool,
    pub allow_view: bool,
    pub allow_fine_tuning: bool,
    pub organization: String,
    pub group: Option<String>,
    pub is_blocking: bool,
}

pub struct PermissionView {
    pub id: Seq<char>,
    pub object: Seq<char>,
    pub created: Option<int>,
    pub allow_create_engine: bool,
    pub allow_sampling: bool,
    pub allow_logprobs: bool,
    pub allow_search_indices: bool,
    pub allow_view: bool,
    pub allow_fine_tuning: bool,
    pub organization: Seq<char>,
    pub group: Option<Seq<char>>,
    pub is_blocking: bool,
}

impl View for Permission {
    type V = PermissionView;

    open spec fn view(&self) -> PermissionView {
        PermissionView {
            id: self.id@,
            object: self.object@,
            created: opt_time_view(self.created),
            allow_create_engine: self.allow_create_engine,
            allow_sampling: self.allow_sampling,
            allow_logprobs: self.allow_logprobs,
            allow_search_indices: self.allow_search_indices,
            allow_view: self.allow_view,
            allow_fine_tuning: self.allow_fine_tuning,
            organization: self.organization@,
            group: opt_text_view(self.group),
            is_blocking: self.is_blocking,
        }
    }
}

/// The permission record that a JSON object holds.
pub open spec fn decode_permission(tree: JsonView) -> Option<PermissionView> {
    let id = text_field(tree, "id"@);
    let object = text_field(tree, "object"@);
    let created = created_field(tree);
    let allow_create_engine = bool_field(tree, "allow_create_engine"@);
    let allow_sampling = bool_field(tree, "allow_sampling"@);
    let allow_logprobs = bool_field(tree, "allow_logprobs"@);
    let allow_search_indices = bool_field(tree, "allow_search_indices"@);
    let allow_view = bool_field(tree, "allow_view"@);
    let allow_fine_tuning = bool_field(tree, "allow_fine_tuning"@);
    let organization = text_field(tree, "organization"@);
    let group = opt_text_field(tree, "group"@);
    let is_blocking = bool_field(tree, "is_blocking"@);
    if id is Some && object is Some && created is Some && allow_create_engine is Some
        && allow_sampling is Some && allow_logprobs is Some && allow_search_indices is Some
        && allow_view is Some && allow_fine_tuning is Some && organization is Some
        && group is Some && is_blocking is Some {
        Some(
            PermissionView {
                id: id->0,
                object: object->0,
                created: created->0,
                allow_create_engine: allow_create_engine->0,
                allow_sampling: allow_sampling->0,
                allow_logprobs: allow_logprobs->0,
                allow_search_indices: allow_search_indices->0,
                allow_view: allow_view->0,
                allow_fine_tuning: allow_fine_tuning->0,
                organization: organization->0,
                group: group->0,
                is_blocking: is_blocking->0,
            },
        )
    } else {
        None
    }
}

impl Permission {
    /// Reads a permission record from a JSON object.
    pub fn from_json(json: &Json) -> (r: Option<Permission>)
        ensures
            match decode_permission(json@) {
                Some(v) => r matches Some(p) && p@ == v,
                None => r is None,
            },
    {
        let id = read_text(json, "id")?;
        let object = read_text(json, "object")?;
        let created = read_created(json)?;
        let allow_create_engine = read_bool(json, "allow_create_engine")?;
        let allow_sampling = read_bool(json, "allow_sampling")?;
        let allow_logprobs = read_bool(json, "allow_logprobs")?;
        let allow_search_indices = read_bool(json, "allow_search_indices")?;
        let allow_view = read_bool(json, "allow_view")?;
        let allow_fine_tuning = read_bool(json, "allow_fine_tuning")?;
        let organization = read_text(json, "organization")?;
        let group = read_opt_text(json, "group")?;
        let is_blocking = read_bool(json, "is_blocking")?;
        Some(
            Permission {
                id,
                object,
                created,
                allow_create_engine,
                allow_sampling,
                allow_logprobs,
                allow_search_indices,
                allow_view,
                allow_fine_tuning,
                organization,
                group,
                is_blocking,
            },
        )
    }
}

/// The permission records that the items of a JSON array hold; `None`
/// where an item is no permission record.
pub open spec fn decode_permissions(items: Seq<JsonView>) -> Option<Seq<PermissionView>> {
    if forall|i: int| 0 <= i < items.len() ==> (#[trigger] decode_permission(items[i])) is Some {
        Some(items.map_values(|j: JsonView| decode_permission(j)->0))
    } else {
        None
    }
}

/// The records under the key `permission`, which must hold an array. The
/// records keep the order of the array.
pub open spec fn permission_field(tree: JsonView) -> Option<Seq<PermissionView>> {
    match member_of(tree, "permission"@) {
        Some(JsonView::Array(items)) => decode_permissions(items),
        _ => None,
    }
}

/// Reads the records under the key `permission`.
fn read_permissions(json: &Json) -> (r: Option<Vec<Permission>>)
    ensures
        match permission_field(json@) {
            Some(v) => r matches Some(p) && p@.map_values(|x: Permission| x@) == v,
            None => r is None,
        },
{
    let items = match json.get("permission") {
        Some(found) => found.items()?,
        None => {
            return None;
        },
    };
    let ghost views = items_view(items@);
    let mut records: Vec<Permission> = Vec::new();
    let mut i: usize = 0;
    while i < items.len()
        invariant
            i <= items.len(),
            views == items_view(items@),
            member_of(json@, "permission"@) == Some(JsonView::Array(views)),
            records@.len() == i,
            forall|j: int|
                0 <= j < i ==> decode_permission(views[j]) == Some((#[trigger] records@[j])@),
        decreases items.len() - i,
    {
        match Permission::from_json(&items[i]) {
            Some(p) => {
                records.push(p);
            },
            None => {
                assert(decode_permission(views[i as int]) is None);
                return None;
            },
        }
        i = i + 1;
    }
    proof {
        assert(views.len() == records@.len());
        assert forall|j: int| 0 <= j < views.len() implies (#[trigger] decode_permission(
            views[j],
        )) == Some(records@[j]@) by {}
        assert(decode_permissions(views)->0 =~= records@.map_values(|x: Permission| x@));
    }
    Some(records)
}

/// A model of the service.
#[derive(Debug, Clone)]
pub struct Model {
    pub id: String,
    pub object: String,
    /// Seconds since the start of 1970.
    pub created: Option<i64>,
    pub owned_by: String,
    pub permission: Vec<Permission>,
    pub root: String,
    pub parent: Option<String>,
}

pub struct ModelView {
    pub id: Seq<char>,
    pub object: Seq<char>,
    pub created: Option<int>,
    pub owned_by: Seq<char>,
    pub permission: Seq<PermissionView>,
    pub root: Seq<char>,
    pub parent: Option<Seq<char>>,
}

impl View for Model {
    type V = ModelView;

    open spec fn view(&self) -> ModelView {
        ModelView {
            id: self.id@,
            object: self.object@,
            created: opt_time_view(self.created),
            owned_by: self.owned_by@,
            permission: self.permission@.map_values(|p: Permission| p@),
            root: self.root@,
            parent: opt_text_view(self.parent),
        }
    }
}

/// The model that a JSON object holds.
pub open spec fn decode_model(tree: JsonView) -> Option<ModelView> {
    let id = text_field(tree, "id"@);
    let object = text_field(tree, "object"@);
    let created = created_field(tree);
    let owned_by = text_field(tree, "owned_by"@);
    let permission = permission_field(tree);
    let root = text_field(tree, "root"@);
    let parent = opt_text_field(tree, "parent"@);
    if id is Some && object is Some && created is Some && owned_by is Some && permission is Some
        && root is Some && parent is Some {
        Some(
            ModelView {
                id: id->0,
                object: object->0,
                created: created->0,
                owned_by: owned_by->0,
                permission: permission->0,
                root: root->0,
                parent: parent->0,
            },
        )
    } else {
        None
    }
}

impl Model {
    /// Reads a model from a JSON object.
    pub fn from_json(json: &Json) -> (r: Option<Model>)
        ensures
            match decode_model(json@) {
                Some(v) => r matches Some(m) && m@ == v,
                None => r is None,
            },
    {
        let id = read_text(json, "id")?;
        let object = read_text(json, "object")?;
        let created = read_created(json)?;
        let owned_by = read_text(json, "owned_by")?;
        let permission = read_permissions(json)?;
        let root = read_text(json, "root")?;
        let parent = read_opt_text(json, "parent")?;
        Some(Model { id, object, created, owned_by, permission, root, parent })
    }
}

/// The models that the items of a JSON array hold; `None` where an item is
/// no model.
pub open spec fn decode_models(items: Seq<JsonView>) -> Option<Seq<ModelView>> {
    if forall|i: int| 0 <= i < items.len() ==> (#[trigger] decode_model(items[i])) is Some {
        Some(items.map_values(|j: JsonView| decode_model(j)->0))
    } else {
        None
    }
}

/// The list of the models of the service.
#[derive(Debug, Clone)]
pub struct ModelList {
    pub data: Vec<Model>,
    pub object: String,
}

pub struct ModelListView {
    pub data: Seq<ModelView>,
    pub object: Seq<char>,
}

impl View for ModelList {
    type V = ModelListView;

    open spec fn view(&self) -> ModelListView {
        ModelListView { data: self.data@.map_values(|m: Model| m@), object: self.object@ }
    }
}

/// The list of models that a JSON object holds: one model for each item of
/// the array under `data`, in the array's order.
pub open spec fn decode_model_list(tree: JsonView) -> Option<ModelListView> {
    let data = match member_of(tree, "data"@) {
        Some(JsonView::Array(items)) => decode_models(items),
        _ => None,
    };
    let object = text_field(tree, "object"@);
    if data is Some && object is Some {
        Some(ModelListView { data: data->0, object: object->0 })
    } else {
        None
    }
}

impl ModelList {
    /// Reads a list of models from a JSON object.
    pub fn from_json(json: &Json) -> (r: Option<ModelList>)
        ensures
            match decode_model_list(json@) {
                Some(v) => r matches Some(l) && l@ == v,
                None => r is None,
            },
    {
        let items = match json.get("data") {
            Some(found) => found.items()?,
            None => {
                return None;
            },
        };
        let ghost views = items_view(items@);
        let mut data: Vec<Model> = Vec::new();
        let mut i: usize = 0;
        while i < items.len()
            invariant
                i <= items.len(),
                views == items_view(items@),
                member_of(json@, "data"@) == Some(JsonView::Array(views)),
                data@.len() == i,
                forall|j: int| 0 <= j < i ==> decode_model(views[j]) == Some((#[trigger] data@[j])@),
            decreases items.len() - i,
        {
            match Model::from_json(&items[i]) {
                Some(m) => {
                    data.push(m);
                },
                None => {
                    assert(decode_model(views[i as int]) is None);
                    return None;
                },
            }
            i = i + 1;
        }
        proof {
            assert(views.len() == data@.len());
            assert forall|j: int| 0 <= j < views.len() implies (#[trigger] decode_model(views[j]))
                == Some(data@[j]@) by {}
            assert(decode_models(views)->0 =~= data@.map_values(|m: Model| m@));
        }
        let object = read_text(json, "object")?;
        Some(ModelList { data, object })
    }
}

} // verus!
