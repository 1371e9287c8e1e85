//! What routing reads and writes of a client's messages.
use vstd::prelude::*;

use crate::bytes::copy_bytes;

verus! {

/// One parameter of a requested model.
#[derive(Debug, PartialEq, Eq)]
pub struct ModelParameterValue {
    pub id: String,
    pub value: String,
    /// How many tokens the value stands for, where it is a token count.
    pub token_count: Option<u64>,
}

/// The value of a [`ModelParameterValue`].
pub struct ParameterView {
    pub id: Seq<char>,
    pub value: Seq<char>,
    pub token_count: Option<u64>,
}

impl View for ModelParameterValue {
    type V = ParameterView;

    open spec fn view(&self) -> ParameterView {
        ParameterView { id: self.id@, value: self.value@, token_count: self.token_count }
    }
}

impl Clone for ModelParameterValue {
    fn clone(&self) -> (r: Self)
        ensures
            r@ == self@,
    {
        ModelParameterValue {
            id: self.id.clone(),
            value: self.value.clone(),
            token_count: self.token_count,
        }
    }
}

/// The values of a list of parameters.
pub open spec fn parameter_views(parameters: Seq<ModelParameterValue>) -> Seq<ParameterView> {
    Seq::new(parameters.len(), |i: int| parameters[i]@)
}

/// The same parameters in memory of their own.
pub fn copy_parameters(parameters: &Vec<ModelParameterValue>) -> (r: Vec<ModelParameterValue>)
    ensures
        parameter_views(r@) == parameter_views(parameters@),
{
    let mut copy: Vec<ModelParameterValue> = Vec::new();
    let mut i: usize = 0;
    while i < parameters.len()
        invariant
            i <= parameters.len(),
            copy@.len() == i,
            forall|j: int| 0 <= j < i ==> (#[trigger] copy@[j])@ == parameters@[j]@,
        decreases parameters.len() - i,
    {
        copy.push(parameters[i].clone());
        i += 1;
    }
    proof {
        assert(parameter_views(copy@) =~= parameter_views(parameters@));
    }
    copy
}

/// The model that a run asks for.
#[derive(Debug, Default, PartialEq, Eq)]
pub struct RequestedModel {
    pub model_id: String,
    pub max_mode: bool,
    pub parameters: Vec<ModelParameterValue>,
    /// The fields that routing does not read, in their encoded form.
    pub other: Vec<u8>,
}

/// The value of a [`RequestedModel`].
pub struct RequestedView {
    pub model_id: Seq<char>,
    pub max_mode: bool,
    pub parameters: Seq<ParameterView>,
    pub other: Seq<u8>,
}

impl View for RequestedModel {
    type V = RequestedView;

    open spec fn view(&self) -> RequestedView {
        RequestedView {
            model_id: self.model_id@,
            max_mode: self.max_mode,
            parameters: parameter_views(self.parameters@),
            other: self.other@,
        }
    }
}

impl Clone for RequestedModel {
    fn clone(&self) -> (r: Self)
        ensures
            r@ == self@,
    {
        RequestedModel {
            model_id: self.model_id.clone(),
            max_mode: self.max_mode,
            parameters: copy_parameters(&self.parameters),
            other: copy_bytes(self.other.as_slice()),
        }
    }
}

impl RequestedView {
    /// The request for a model with given parameters and nothing else.
    pub open spec fn fresh(model_id: Seq<char>, parameters: Seq<ParameterView>) -> RequestedView {
        RequestedView { model_id, max_mode: false, parameters, other: seq![] }
    }
}

/// What a client says about a model besides its identifier.
#[derive(Debug, Default, PartialEq, Eq)]
pub struct ModelDetails {
    pub model_id: String,
    pub display_name: String,
    /// Whether the details say anything of how the model thinks.
    pub thinking_details: bool,
    /// The fields that routing does not read, in their encoded form.
    pub other: Vec<u8>,
}

/// The value of a [`ModelDetails`].
pub struct DetailsView {
    pub model_id: Seq<char>,
    pub display_name: Seq<char>,
    pub thinking_details: bool,
    pub other: Seq<u8>,
}

impl View for ModelDetails {
    type V = DetailsView;

    open spec fn view(&self) -> DetailsView {
        DetailsView {
            model_id: self.model_id@,
            display_name: self.display_name@,
            thinking_details: self.thinking_details,
            other: self.other@,
        }
    }
}

/// What a client selects for one type of subagent.
#[derive(Debug, PartialEq, Eq)]
pub enum Selection {
    Model(RequestedModel),
    Inherit(bool),
    Disabled(bool),
}

/// The value of a [`Selection`].
pub enum SelectionView {
    Model(RequestedView),
    Inherit(bool),
    Disabled(bool),
}

impl View for Selection {
    type V = SelectionView;

    open spec fn view(&self) -> SelectionView {
        match self {
            Selection::Model(model) => SelectionView::Model(model@),
            Selection::Inherit(active) => SelectionView::Inherit(*active),
            Selection::Disabled(active) => SelectionView::Disabled(*active),
        }
    }
}

/// The selection for one type of subagent.
#[derive(Debug, PartialEq, Eq)]
pub struct SubagentModelOverride {
    pub subagent_type: String,
    pub selection: Option<Selection>,
}

/// The value of a [`SubagentModelOverride`].
pub struct OverrideView {
    pub subagent_type: Seq<char>,
    pub selection: Option<SelectionView>,
}

impl View for SubagentModelOverride {
    type V = OverrideView;

    open spec fn view(&self) -> OverrideView {
        OverrideView {
            subagent_type: self.subagent_type@,
            selection: match self.selection {
                Some(selection) => Some(selection@),
                None => None,
            },
        }
    }
}

/// The values of a list of selections.
pub open spec fn override_views(overrides: Seq<SubagentModelOverride>) -> Seq<OverrideView> {
    Seq::new(overrides.len(), |i: int| overrides[i]@)
}

/// A client's request to run an agent.
#[derive(Debug, Default, PartialEq, Eq)]
pub struct AgentRunRequest {
    pub requested_model: Option<RequestedModel>,
    pub model_details: Option<ModelDetails>,
    /// The type of subagent that runs; absent or empty for a primary agent.
    pub subagent_type_name: Option<String>,
    pub subagent_model_overrides: Vec<SubagentModelOverride>,
}

/// The value of an [`AgentRunRequest`].
pub struct RequestView {
    pub requested_model: Option<RequestedView>,
    pub model_details: Option<DetailsView>,
    pub subagent_type_name: Option<Seq<char>>,
    pub subagent_model_overrides: Seq<OverrideView>,
}

impl View for AgentRunRequest {
    type V = RequestView;

    open spec fn view(&self) -> RequestView {
        RequestView {
            requested_model: match self.requested_model {
                Some(model) => Some(model@),
                None => None,
            },
            model_details: match self.model_details {
                Some(details) => Some(details@),
                None => None,
            },
            subagent_type_name: crate::policy::optional_text(self.subagent_type_name),
            subagent_model_overrides: override_views(self.subagent_model_overrides@),
        }
    }
}

impl RequestView {
    /// The model that the request selects: the requested one, else the one that the details
    /// name.
    pub open spec fn model_id(self) -> Option<Seq<char>> {
        if self.requested_model is Some {
            Some(self.requested_model->0.model_id)
        } else if self.model_details is Some && self.model_details->0.model_id.len() > 0 {
            Some(self.model_details->0.model_id)
        } else {
            None
        }
    }

    /// The type of subagent that runs, for the run of a subagent.
    pub open spec fn kind(self) -> Option<Seq<char>> {
        if self.subagent_type_name is Some && self.subagent_type_name->0.len() > 0 {
            self.subagent_type_name
        } else {
            None
        }
    }
}

impl AgentRunRequest {
    /// The model that the request selects: the requested one, else the one that the details
    /// name.
    pub fn model_id(&self) -> (r: Option<&str>)
        ensures
            match r {
                Some(model) => self@.model_id() == Some(model@),
                None => self@.model_id() is None,
            },
    {
        if let Some(requested) = &self.requested_model {
            return Some(requested.model_id.as_str());
        }
        match &self.model_details {
            Some(details) => {
                if details.model_id.as_str().is_empty() {
                    None
                } else {
                    Some(details.model_id.as_str())
                }
            },
            None => None,
        }
    }

    /// The type of subagent that runs, for the run of a subagent.
    pub fn kind(&self) -> (r: Option<&str>)
        ensures
            match r {
                Some(kind) => self@.kind() == Some(kind@),
                None => self@.kind() is None,
            },
    {
        match &self.subagent_type_name {
            Some(kind) => {
                if kind.as_str().is_empty() {
                    None
                } else {
                    Some(kind.as_str())
                }
            },
            None => None,
        }
    }
}

/// What a client's message is.
#[derive(Debug, PartialEq, Eq)]
pub enum ClientMessage {
    /// The request to run an agent.
    RunRequest(AgentRunRequest),
    /// Anything that belongs to a run that was requested before.
    Other,
}

/// The value of a [`ClientMessage`].
pub enum MessageView {
    RunRequest(RequestView),
    Other,
}

impl View for ClientMessage {
    type V = MessageView;

    open spec fn view(&self) -> MessageView {
        match self {
            ClientMessage::RunRequest(request) => MessageView::RunRequest(request@),
            ClientMessage::Other => MessageView::Other,
        }
    }
}

/// One message that a client appends to a run.
#[derive(Debug, PartialEq, Eq)]
pub struct DecodedAppend {
    pub request_id: String,
    pub seqno: i64,
    pub message: ClientMessage,
}

/// The value of a [`DecodedAppend`].
pub struct AppendView {
    pub request_id: Seq<char>,
    pub seqno: i64,
    pub message: MessageView,
}

impl View for DecodedAppend {
    type V = AppendView;

    open spec fn view(&self) -> AppendView {
        AppendView { request_id: self.request_id@, seqno: self.seqno, message: self.message@ }
    }
}

impl AppendView {
    /// The model that the message selects, where it requests a run.
    pub open spec fn model_id(self) -> Option<Seq<char>> {
        match self.message {
            MessageView::RunRequest(request) => request.model_id(),
            MessageView::Other => None,
        }
    }
}

impl DecodedAppend {
    /// The model that the message selects, where it requests a run.
    pub fn model_id(&self) -> (r: Option<&str>)
        ensures
            match r {
                Some(model) => self@.model_id() == Some(model@),
                None => self@.model_id() is None,
            },
    {
        match &self.message {
            ClientMessage::RunRequest(request) => request.model_id(),
            ClientMessage::Other => None,
        }
    }
}

/// The model that a request names itself goes before the one that its details name; an empty one
/// of the details is none.
pub proof fn law_request_names_its_model(request: RequestView)
    ensures
        request.requested_model matches Some(requested) ==> request.model_id() == Some(
            requested.model_id,
        ),
        request.requested_model is None && request.model_details is Some
            && request.model_details->0.model_id.len() > 0 ==> request.model_id() == Some(
            request.model_details->0.model_id,
        ),
        request.requested_model is None && (request.model_details is None
            || request.model_details->0.model_id.len() == 0) ==> request.model_id() is None,
{
}

/// A request is that of a subagent exactly where it names a type that is not empty.
pub proof fn law_subagents_name_their_type(request: RequestView)
    ensures
        request.subagent_type_name matches Some(name) ==> request.kind() == if name.len() > 0 {
            Some(name)
        } else {
            None
        },
        request.subagent_type_name is None ==> request.kind() is None,
{
}

/// Only a message that requests a run selects a model, and it selects the one that its request
/// names.
pub proof fn law_only_run_requests_select_models(message: AppendView, request: RequestView)
    ensures
        message.message == MessageView::RunRequest(request) ==> message.model_id()
            == request.model_id(),
        message.message == MessageView::Other ==> message.model_id() is None,
{
}

} // verus!
