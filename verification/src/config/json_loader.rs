//! The configuration loader: reads a document that describes a pipeline and
//! builds the pipeline, with its local steps from a registry and its remote
//! steps as HTTP calls.

use crate::assoc::distinct_keys;
use crate::assoc::put;
use crate::engine::pipeline::Pipeline;
use crate::engine::pipeline::PipelineView;
use crate::engine::pipeline::RegisteredAction;
use crate::engine::pipeline::RegisteredActionKind;
use crate::engine::pipeline::RegisteredActionView;
use crate::engine::pipeline::UnaryOperator;
use crate::engine::pipeline::share;
use crate::engine::registry::PipelineRegistry;
use crate::engine::registry::PipelineRegistryView;
use crate::json::get_member;
use crate::json::get_member_str;
use crate::json::get_member_u64;
use crate::json::member;
use crate::json::member_str;
use crate::json::member_u64;
use crate::json::parse_document;
use crate::json::parsed_document;
use crate::json::JsonValue;
use crate::remote::http_step::copy_headers;
use crate::remote::http_step::headers_view;
use crate::remote::http_step::resolved_endpoint;
use crate::remote::http_step::Headers;
use crate::remote::http_step::HttpTransport;
use crate::remote::http_step::RemoteDefaults;
use crate::remote::http_step::RemoteDefaultsView;
use crate::remote::http_step::RemoteSpec;
use crate::remote::http_step::RemoteSpecView;
use crate::remote::http_step::RemoteStep;
use crate::text::concat2;
use crate::text::lemma_empty_literal;
use crate::text::str_eq;
use std::sync::Arc;
use vstd::prelude::*;
use vstd::string::*;

verus! {

/// A unary step of a loaded pipeline: an action of the registry, or an HTTP
/// call.
pub enum LoadedStep<U, T> {
    Local(Arc<U>),
    Remote(RemoteStep<T>),
}

impl<U: UnaryOperator<String>, T: HttpTransport> UnaryOperator<String> for LoadedStep<U, T> {
    /// A local step does what the action of the registry does, a remote step
    /// what its call does.
    open spec fn produces(&self, input: String, outcome: Result<String, String>) -> bool {
        match self {
            LoadedStep::Local(action) => action.produces(input, outcome),
            LoadedStep::Remote(step) => step.produces(input, outcome),
        }
    }

    fn apply(&self, input: String) -> (outcome: Result<String, String>) {
        match self {
            LoadedStep::Local(action) => action.apply(input),
            LoadedStep::Remote(step) => step.apply(input),
        }
    }
}

/// Where a step of a document comes from.
pub enum StepSource<U, K> {
    /// A unary action of the registry.
    Unary(Arc<U>),
    /// A controlled action of the registry.
    Controlled(Arc<K>),
    /// An HTTP call.
    Remote(RemoteSpecView),
}

/// What a document says of one step.
pub struct StepModel<U, K> {
    pub name: Seq<char>,
    pub source: StepSource<U, K>,
}

/// What a document says of a pipeline.
pub struct DocumentModel<U, K> {
    pub name: Seq<char>,
    pub short_circuit_on_exception: bool,
    pub pre: Seq<StepModel<U, K>>,
    pub main: Seq<StepModel<U, K>>,
    pub post: Seq<StepModel<U, K>>,
}

/// The string under `first` or, where there is none, the string under
/// `second`.
pub open spec fn either_str(
    members: Seq<(String, JsonValue)>,
    first: Seq<char>,
    second: Seq<char>,
) -> Option<Seq<char>> {
    match member_str(members, first) {
        Some(text) => Some(text),
        None => member_str(members, second),
    }
}

/// The `u64` under `first` or, where there is none, the `u64` under `second`.
pub open spec fn either_u64(
    members: Seq<(String, JsonValue)>,
    first: Seq<char>,
    second: Seq<char>,
) -> Option<u64> {
    match member_u64(members, first) {
        Some(number) => Some(number),
        None => member_u64(members, second),
    }
}

fn get_either_str<'a>(members: &'a Vec<(String, JsonValue)>, first: &str, second: &str) -> (found:
    Option<&'a str>)
    ensures
        match found {
            Some(text) => either_str(members@, first@, second@) == Some(text@),
            None => either_str(members@, first@, second@) is None,
        },
{
    match get_member_str(members, first) {
        Some(text) => Some(text),
        None => get_member_str(members, second),
    }
}

fn get_either_u64(members: &Vec<(String, JsonValue)>, first: &str, second: &str) -> (found: Option<
    u64,
>)
    ensures
        found == either_u64(members@, first@, second@),
{
    match get_member_u64(members, first) {
        Some(number) => Some(number),
        None => get_member_u64(members, second),
    }
}

/// The failure policy that a document asks for: the boolean under
/// `shortCircuitOnException` or, where the document has no such member, the
/// one under `shortCircuit`; `true` where the member found is no boolean, and
/// where the document has neither.
pub open spec fn short_circuit_model(members: Seq<(String, JsonValue)>) -> bool {
    match member(members, "shortCircuitOnException"@) {
        Some(value) => match value.spec_as_bool() {
            Some(flag) => flag,
            None => true,
        },
        None => match member(members, "shortCircuit"@) {
            Some(value) => match value.spec_as_bool() {
                Some(flag) => flag,
                None => true,
            },
            None => true,
        },
    }
}

fn parse_short_circuit_on_exception(spec_object: &Vec<(String, JsonValue)>) -> (flag: bool)
    ensures
        flag == short_circuit_model(spec_object@),
{
    match get_member(spec_object, "shortCircuitOnException") {
        Some(value) => {
            return match value.as_bool() {
                Some(flag) => flag,
                None => true,
            };
        },
        None => {},
    }
    match get_member(spec_object, "shortCircuit") {
        Some(value) => match value.as_bool() {
            Some(flag) => flag,
            None => true,
        },
        None => true,
    }
}

/// The headers `base` with the first `count` of `members` laid over them:
/// every member that holds a string gives the header of its name that value.
pub open spec fn merged_headers(
    base: Map<Seq<char>, Seq<char>>,
    members: Seq<(String, JsonValue)>,
    count: int,
) -> Map<Seq<char>, Seq<char>>
    decreases count,
{
    if count <= 0 {
        base
    } else {
        let before = merged_headers(base, members, count - 1);
        match members[count - 1].1.spec_as_str() {
            Some(value) => before.insert(members[count - 1].0@, value),
            None => before,
        }
    }
}

/// Lays the members that hold a string over `headers`.
fn merge_headers(headers: &mut Headers, members: &Vec<(String, JsonValue)>)
    requires
        distinct_keys(old(headers)@),
    ensures
        distinct_keys(final(headers)@),
        headers_view(final(headers)@) == merged_headers(
            headers_view(old(headers)@),
            members@,
            members.len() as int,
        ),
{
    let mut position: usize = 0;
    while position < members.len()
        invariant
            position <= members.len(),
            distinct_keys(headers@),
            headers_view(headers@) == merged_headers(
                headers_view(old(headers)@),
                members@,
                position as int,
            ),
        decreases members.len() - position,
    {
        match members[position].1.as_str() {
            Some(value_string) => {
                let ghost before = headers@;
                let name = members[position].0.clone();
                let value = String::from_str(value_string);
                put(headers, name, value);
                assert(headers_view(headers@) =~= headers_view(before).insert(name@, value@));
            },
            None => {},
        }
        position += 1;
    }
}

/// The message for defaults that are no object.
pub open spec fn defaults_not_object() -> Seq<char> {
    "remoteDefaults must be a JSON object"@
}

/// The message for headers of the defaults that are no object.
pub open spec fn defaults_headers_not_object() -> Seq<char> {
    "remoteDefaults.headers must be an object"@
}

/// The defaults `base` with the plain fields that `members` give laid over
/// them: the base URL under `baseUrl` or `endpointBase`, the timeout under
/// `timeoutMillis` or `timeout_millis`, the retries under `retries`, the
/// method under `method`.
pub open spec fn defaults_fields(members: Seq<(String, JsonValue)>, base: RemoteDefaultsView) -> RemoteDefaultsView {
    RemoteDefaultsView {
        base_url: match either_str(members, "baseUrl"@, "endpointBase"@) {
            Some(text) => text,
            None => base.base_url,
        },
        timeout_millis: match either_u64(members, "timeoutMillis"@, "timeout_millis"@) {
            Some(number) => number,
            None => base.timeout_millis,
        },
        retries: match member_u64(members, "retries"@) {
            Some(number) => number as usize,
            None => base.retries,
        },
        method: match member_str(members, "method"@) {
            Some(text) => text,
            None => base.method,
        },
        headers: base.headers,
    }
}

/// The defaults that `node` describes over `base`: each field that the node
/// gives replaces the one of `base`; headers, where the node gives any, are
/// those of the node alone.
pub open spec fn remote_defaults_model(node: JsonValue, base: RemoteDefaultsView) -> Result<
    RemoteDefaultsView,
    Seq<char>,
> {
    match node.spec_as_object() {
        None => Err(defaults_not_object()),
        Some(members) => match member(members, "headers"@) {
            None => Ok(defaults_fields(members, base)),
            Some(headers) => match headers.spec_as_object() {
                None => Err(defaults_headers_not_object()),
                Some(header_members) => Ok(
                    RemoteDefaultsView {
                        headers: Some(
                            merged_headers(
                                Map::empty(),
                                header_members,
                                header_members.len() as int,
                            ),
                        ),
                        ..defaults_fields(members, base)
                    },
                ),
            },
        },
    }
}

fn parse_remote_defaults(node: &JsonValue, base: RemoteDefaults) -> (parsed: Result<
    RemoteDefaults,
    String,
>)
    requires
        base.wf(),
    ensures
        match parsed {
            Ok(defaults) => defaults.wf() && remote_defaults_model(*node, base@) == Ok::<
                RemoteDefaultsView,
                Seq<char>,
            >(defaults@),
            Err(message) => remote_defaults_model(*node, base@) == Err::<
                RemoteDefaultsView,
                Seq<char>,
            >(message@),
        },
{
    let defaults_object = match node.as_object() {
        Some(members) => members,
        None => {
            return Err(String::from_str("remoteDefaults must be a JSON object"));
        },
    };
    let mut defaults = base;
    match get_either_str(defaults_object, "baseUrl", "endpointBase") {
        Some(base_url_value) => {
            defaults.base_url = String::from_str(base_url_value);
        },
        None => {},
    }
    match get_either_u64(defaults_object, "timeoutMillis", "timeout_millis") {
        Some(timeout_value) => {
            defaults.timeout_millis = timeout_value;
        },
        None => {},
    }
    match get_member_u64(defaults_object, "retries") {
        Some(retries_value) => {
            defaults.retries = retries_value as usize;
        },
        None => {},
    }
    match get_member_str(defaults_object, "method") {
        Some(method_value) => {
            defaults.method = String::from_str(method_value);
        },
        None => {},
    }
    match get_member(defaults_object, "headers") {
        Some(headers_value) => {
            let headers_object = match headers_value.as_object() {
                Some(members) => members,
                None => {
                    return Err(String::from_str("remoteDefaults.headers must be an object"));
                },
            };
            let mut headers_map: Headers = Vec::new();
            assert(headers_view(headers_map@) =~= Map::<Seq<char>, Seq<char>>::empty());
            merge_headers(&mut headers_map, headers_object);
            defaults.headers = Some(headers_map);
        },
        None => {},
    }
    Ok(defaults)
}

/// The message for a remote step that is neither a string nor an object.
pub open spec fn remote_not_string_or_object() -> Seq<char> {
    "$remote must be a string or an object"@
}

/// The message for a remote step without an endpoint.
pub open spec fn remote_endpoint_missing() -> Seq<char> {
    "Missing required $remote field: endpoint|path"@
}

/// The message for headers of a remote step that are no object.
pub open spec fn remote_headers_not_object() -> Seq<char> {
    "$remote.headers must be an object"@
}

/// The call to `endpoint_or_path` that `defaults` describe.
pub open spec fn default_spec(defaults: RemoteDefaultsView, endpoint_or_path: Seq<char>) -> RemoteSpecView {
    RemoteSpecView {
        endpoint: resolved_endpoint(defaults.base_url, endpoint_or_path),
        timeout_millis: defaults.timeout_millis,
        retries: defaults.retries,
        method: defaults.method,
        headers: defaults.headers,
    }
}

/// The call `base` with the plain fields that `members` give laid over it:
/// the timeout under `timeoutMillis` or `timeout_millis`, the retries under
/// `retries`, the method under `method`.
pub open spec fn spec_fields(members: Seq<(String, JsonValue)>, base: RemoteSpecView) -> RemoteSpecView {
    RemoteSpecView {
        endpoint: base.endpoint,
        timeout_millis: match either_u64(members, "timeoutMillis"@, "timeout_millis"@) {
            Some(number) => number,
            None => base.timeout_millis,
        },
        retries: match member_u64(members, "retries"@) {
            Some(number) => number as usize,
            None => base.retries,
        },
        method: match member_str(members, "method"@) {
            Some(text) => text,
            None => base.method,
        },
        headers: base.headers,
    }
}

/// The call that the node of a remote step describes under `defaults`: a
/// string is the endpoint of the call that the defaults describe; an object
/// gives the endpoint under `endpoint` or `path`, and each field it gives
/// replaces the one of the defaults; its headers are laid over those of the
/// defaults, name by name.
pub open spec fn remote_spec_model(node: JsonValue, defaults: RemoteDefaultsView) -> Result<
    RemoteSpecView,
    Seq<char>,
> {
    match node.spec_as_str() {
        Some(endpoint) => Ok(default_spec(defaults, endpoint)),
        None => match node.spec_as_object() {
            None => Err(remote_not_string_or_object()),
            Some(members) => match either_str(members, "endpoint"@, "path"@) {
                None => Err(remote_endpoint_missing()),
                Some(endpoint) => {
                    let plain = spec_fields(members, default_spec(defaults, endpoint));
                    match member(members, "headers"@) {
                        None => Ok(plain),
                        Some(headers) => match headers.spec_as_object() {
                            None => Err(remote_headers_not_object()),
                            Some(header_members) => Ok(
                                RemoteSpecView {
                                    headers: Some(
                                        merged_headers(
                                            match plain.headers {
                                                Some(base) => base,
                                                None => Map::empty(),
                                            },
                                            header_members,
                                            header_members.len() as int,
                                        ),
                                    ),
                                    ..plain
                                },
                            ),
                        },
                    }
                },
            },
        },
    }
}

fn parse_remote_spec(remote_node: &JsonValue, remote_defaults: &RemoteDefaults) -> (parsed: Result<
    RemoteSpec,
    String,
>)
    requires
        remote_defaults.wf(),
    ensures
        match parsed {
            Ok(spec) => spec.wf() && remote_spec_model(*remote_node, remote_defaults@) == Ok::<
                RemoteSpecView,
                Seq<char>,
            >(spec@),
            Err(message) => remote_spec_model(*remote_node, remote_defaults@) == Err::<
                RemoteSpecView,
                Seq<char>,
            >(message@),
        },
{
    match remote_node.as_str() {
        Some(endpoint_value) => {
            return Ok(remote_defaults.to_spec(endpoint_value));
        },
        None => {},
    }
    let remote_object = match remote_node.as_object() {
        Some(members) => members,
        None => {
            return Err(String::from_str("$remote must be a string or an object"));
        },
    };
    let endpoint_value = match get_either_str(remote_object, "endpoint", "path") {
        Some(text) => text,
        None => {
            return Err(String::from_str("Missing required $remote field: endpoint|path"));
        },
    };
    let mut remote_spec = remote_defaults.to_spec(endpoint_value);
    match get_either_u64(remote_object, "timeoutMillis", "timeout_millis") {
        Some(timeout_value) => {
            remote_spec.timeout_millis = timeout_value;
        },
        None => {},
    }
    match get_member_u64(remote_object, "retries") {
        Some(retries_value) => {
            remote_spec.retries = retries_value as usize;
        },
        None => {},
    }
    match get_member_str(remote_object, "method") {
        Some(method_value) => {
            remote_spec.method = String::from_str(method_value);
        },
        None => {},
    }
    match get_member(remote_object, "headers") {
        Some(headers_value) => {
            let headers_object = match headers_value.as_object() {
                Some(members) => members,
                None => {
                    return Err(String::from_str("$remote.headers must be an object"));
                },
            };
            let mut merged_headers: Headers = match &remote_spec.headers {
                Some(base_headers) => copy_headers(base_headers),
                None => Vec::new(),
            };
            assert(remote_spec.headers is None ==> headers_view(merged_headers@) =~= Map::<
                Seq<char>,
                Seq<char>,
            >::empty());
            merge_headers(&mut merged_headers, headers_object);
            remote_spec.headers = Some(merged_headers);
        },
        None => {},
    }
    Ok(remote_spec)
}

/// The name that a step is displayed under: the string under `name` or,
/// where there is none, the one under `label`; the empty name where there is
/// neither.
pub open spec fn display_name_model(members: Seq<(String, JsonValue)>) -> Seq<char> {
    match either_str(members, "name"@, "label"@) {
        Some(text) => text,
        None => Seq::empty(),
    }
}

/// The message for a local step whose name the registry lacks.
pub open spec fn unknown_local_message(local_ref: Seq<char>) -> Seq<char> {
    "Unknown $local reference: "@ + local_ref
}

/// The message for a step that is no object.
pub open spec fn step_not_object() -> Seq<char> {
    "Each action must be a JSON object"@
}

/// The message for a local step whose reference is no string.
pub open spec fn local_not_string() -> Seq<char> {
    "$local must be a string"@
}

/// The message for a step that is neither local nor remote.
pub open spec fn unsupported_step() -> Seq<char> {
    "Unsupported action: expected '$local' or '$remote'"@
}

/// The message for a document that is no object.
pub open spec fn document_not_object() -> Seq<char> {
    "Pipeline spec must be a JSON object"@
}

/// The message for a document of another type than `unary`.
pub open spec fn unsupported_type() -> Seq<char> {
    "Only 'unary' pipelines are supported by this loader"@
}

/// The message for a text that is no JSON.
pub open spec fn invalid_json_message(error: Seq<char>) -> Seq<char> {
    "Invalid JSON: "@ + error
}

/// The local step that refers to `local_ref`: the unary action of that name
/// if the registry has one, else the controlled action of that name.
pub open spec fn local_model<U, K>(
    local_ref: Seq<char>,
    name: Seq<char>,
    registry: PipelineRegistryView<U, K>,
) -> Result<StepModel<U, K>, Seq<char>> {
    if registry.unary_actions.dom().contains(local_ref) {
        Ok(StepModel { name, source: StepSource::Unary(registry.unary_actions[local_ref]) })
    } else if registry.step_actions.dom().contains(local_ref) {
        Ok(StepModel { name, source: StepSource::Controlled(registry.step_actions[local_ref]) })
    } else {
        Err(unknown_local_message(local_ref))
    }
}

/// The step that `node` describes: an object with a member `$local`, which
/// names an action of the registry, or else with a member `$remote`, which
/// describes an HTTP call.
pub open spec fn step_model<U, K>(
    node: JsonValue,
    registry: PipelineRegistryView<U, K>,
    defaults: RemoteDefaultsView,
) -> Result<StepModel<U, K>, Seq<char>> {
    match node.spec_as_object() {
        None => Err(step_not_object()),
        Some(members) => match member(members, "$local"@) {
            Some(local) => match local.spec_as_str() {
                None => Err(local_not_string()),
                Some(local_ref) => local_model(local_ref, display_name_model(members), registry),
            },
            None => match member(members, "$remote"@) {
                Some(remote) => match remote_spec_model(remote, defaults) {
                    Err(message) => Err(message),
                    Ok(spec) => Ok(
                        StepModel {
                            name: display_name_model(members),
                            source: StepSource::Remote(spec),
                        },
                    ),
                },
                None => Err(unsupported_step()),
            },
        },
    }
}

/// The steps that the first `count` of `nodes` describe, in order, or the
/// message of the first of them that describes none.
pub open spec fn steps_model<U, K>(
    nodes: Seq<JsonValue>,
    count: int,
    registry: PipelineRegistryView<U, K>,
    defaults: RemoteDefaultsView,
) -> Result<Seq<StepModel<U, K>>, Seq<char>>
    decreases count,
{
    if count <= 0 {
        Ok(Seq::empty())
    } else {
        match steps_model(nodes, count - 1, registry, defaults) {
            Err(message) => Err(message),
            Ok(steps) => match step_model(nodes[count - 1], registry, defaults) {
                Err(message) => Err(message),
                Ok(step) => Ok(steps.push(step)),
            },
        }
    }
}

/// The steps of the section `section_name` of a document: those of the array
/// under that name; none where there is no such member or it is no array.
pub open spec fn section_model<U, K>(
    members: Seq<(String, JsonValue)>,
    section_name: Seq<char>,
    registry: PipelineRegistryView<U, K>,
    defaults: RemoteDefaultsView,
) -> Result<Seq<StepModel<U, K>>, Seq<char>> {
    match member(members, section_name) {
        None => Ok(Seq::empty()),
        Some(value) => match value.spec_as_array() {
            None => Ok(Seq::empty()),
            Some(nodes) => steps_model(nodes, nodes.len() as int, registry, defaults),
        },
    }
}

/// The section that gives the main phase: `actions` where the document has
/// such a member, else `steps`.
pub open spec fn main_section_name(members: Seq<(String, JsonValue)>) -> Seq<char> {
    if member(members, "actions"@) is Some {
        "actions"@
    } else {
        "steps"@
    }
}

/// The defaults with which a document starts.
pub open spec fn initial_defaults() -> RemoteDefaultsView {
    RemoteDefaultsView {
        base_url: Seq::empty(),
        timeout_millis: 1000,
        retries: 0,
        method: "POST"@,
        headers: None,
    }
}

/// The defaults of a document: those under `remoteDefaults`, laid over the
/// initial ones.
pub open spec fn document_defaults(members: Seq<(String, JsonValue)>) -> Result<
    RemoteDefaultsView,
    Seq<char>,
> {
    match member(members, "remoteDefaults"@) {
        Some(node) => remote_defaults_model(node, initial_defaults()),
        None => Ok(initial_defaults()),
    }
}

/// Whether a document asks for a pipeline of the one type that is
/// supported: it has no member `type`, or that member is the string `unary`.
pub open spec fn type_supported(members: Seq<(String, JsonValue)>) -> bool {
    match member(members, "type"@) {
        Some(value) => value.spec_as_str() == Some("unary"@),
        None => true,
    }
}

/// What the document `doc` says of a pipeline, or the message of the first
/// thing that is wrong with it: the document is an object; its type, if it
/// names one, is the string `unary`; its defaults are read; then its sections, `pre`, the main one and
/// `post`, each step in the order of its array.
pub open spec fn document_model<U, K>(doc: JsonValue, registry: PipelineRegistryView<U, K>) -> Result<
    DocumentModel<U, K>,
    Seq<char>,
> {
    match doc.spec_as_object() {
        None => Err(document_not_object()),
        Some(members) => if !type_supported(members) {
            Err(unsupported_type())
        } else {
            match document_defaults(members) {
                Err(message) => Err(message),
                Ok(defaults) => match section_model(members, "pre"@, registry, defaults) {
                    Err(message) => Err(message),
                    Ok(pre) => match section_model(
                        members,
                        main_section_name(members),
                        registry,
                        defaults,
                    ) {
                        Err(message) => Err(message),
                        Ok(main) => match section_model(members, "post"@, registry, defaults) {
                            Err(message) => Err(message),
                            Ok(post) => Ok(
                                DocumentModel {
                                    name: match member_str(members, "pipeline"@) {
                                        Some(text) => text,
                                        None => "pipeline"@,
                                    },
                                    short_circuit_on_exception: short_circuit_model(members),
                                    pre,
                                    main,
                                    post,
                                },
                            ),
                        },
                    },
                },
            }
        },
    }
}

/// Whether `action` is the step that `step` describes: it has its name; a
/// local step is the action of the registry itself; a remote step is the
/// call described, sent by `transport`.
pub open spec fn realizes_step<U, K, T>(
    action: RegisteredActionView<LoadedStep<U, T>, K>,
    step: StepModel<U, K>,
    transport: Arc<T>,
) -> bool {
    &&& action.name == step.name
    &&& match step.source {
        StepSource::Unary(unary) => action.kind matches RegisteredActionKind::Unary(loaded)
            && *loaded == LoadedStep::<U, T>::Local(unary),
        StepSource::Controlled(controlled) => action.kind == RegisteredActionKind::<
            LoadedStep<U, T>,
            K,
        >::StepAction(controlled),
        StepSource::Remote(spec) => {
            &&& action.kind matches RegisteredActionKind::Unary(loaded)
            &&& *loaded matches LoadedStep::Remote(remote)
            &&& remote.spec@ == spec
            &&& remote.spec.wf()
            &&& remote.transport == transport
        },
    }
}

/// Whether the actions are the steps described, one for one.
pub open spec fn realizes_steps<U, K, T>(
    actions: Seq<RegisteredActionView<LoadedStep<U, T>, K>>,
    steps: Seq<StepModel<U, K>>,
    transport: Arc<T>,
) -> bool {
    &&& actions.len() == steps.len()
    &&& forall|i: int|
        0 <= i < steps.len() ==> realizes_step(#[trigger] actions[i], steps[i], transport)
}

/// Whether `pipeline` is the pipeline that `model` describes: it has its
/// name and its policy, the default failure handler, and in each phase the
/// steps described.
pub open spec fn realizes<U, K, H, T>(
    pipeline: PipelineView<LoadedStep<U, T>, K, H>,
    model: DocumentModel<U, K>,
    transport: Arc<T>,
) -> bool {
    &&& pipeline.name == model.name
    &&& pipeline.short_circuit_on_exception == model.short_circuit_on_exception
    &&& pipeline.on_error is None
    &&& realizes_steps(pipeline.pre_actions, model.pre, transport)
    &&& realizes_steps(pipeline.actions, model.main, transport)
    &&& realizes_steps(pipeline.post_actions, model.post, transport)
}

/// The actions of the phase that `section` names.
pub open spec fn section_actions<U, K, H>(pipeline: PipelineView<U, K, H>, section: Seq<char>) -> Seq<
    RegisteredActionView<U, K>,
> {
    if section == "pre"@ {
        pipeline.pre_actions
    } else if section == "post"@ {
        pipeline.post_actions
    } else {
        pipeline.actions
    }
}

/// The pipeline with `actions` as the actions of the phase that `section`
/// names.
pub open spec fn with_section<U, K, H>(
    pipeline: PipelineView<U, K, H>,
    section: Seq<char>,
    actions: Seq<RegisteredActionView<U, K>>,
) -> PipelineView<U, K, H> {
    if section == "pre"@ {
        PipelineView { pre_actions: actions, ..pipeline }
    } else if section == "post"@ {
        PipelineView { post_actions: actions, ..pipeline }
    } else {
        PipelineView { actions, ..pipeline }
    }
}

/// Whether `after` is `before` with the steps described added, in order, to
/// the end of the phase that `section` names.
pub open spec fn extended<U, K, H, T>(
    before: PipelineView<LoadedStep<U, T>, K, H>,
    section: Seq<char>,
    steps: Seq<StepModel<U, K>>,
    transport: Arc<T>,
    after: PipelineView<LoadedStep<U, T>, K, H>,
) -> bool {
    let old_actions = section_actions(before, section);
    let new_actions = section_actions(after, section);
    &&& after == with_section(before, section, new_actions)
    &&& new_actions.len() == old_actions.len() + steps.len()
    &&& new_actions.subrange(0, old_actions.len() as int) == old_actions
    &&& forall|i: int|
        0 <= i < steps.len() ==> realizes_step(
            #[trigger] new_actions[old_actions.len() + i],
            steps[i],
            transport,
        )
}

/// Adds the local step that refers to `local_ref` to the phase that
/// `section_name` names.
fn add_local<U, K, H, T>(
    local_ref: &str,
    display_name: &str,
    section_name: &str,
    pipeline: &mut Pipeline<LoadedStep<U, T>, K, H>,
    registry: &PipelineRegistry<U, K>,
    transport: &Arc<T>,
) -> (added: Result<(), String>)
    requires
        registry.wf(),
    ensures
        match added {
            Ok(_) => local_model(local_ref@, display_name@, registry@) matches Ok(step)
                && extended(old(pipeline)@, section_name@, seq![step], *transport, final(pipeline)@),
            Err(message) => local_model(local_ref@, display_name@, registry@) == Err::<
                StepModel<U, K>,
                Seq<char>,
            >(message@),
        },
{
    if registry.has_unary(local_ref) {
        let unary_action = match registry.get_unary(local_ref) {
            Ok(action) => action,
            Err(message) => {
                return Err(message);
            },
        };
        let action = RegisteredAction {
            name: String::from_str(display_name),
            kind: RegisteredActionKind::Unary(Arc::new(LoadedStep::Local(unary_action))),
        };
        pipeline.add_registered(section_name, action);
        proof {
            lemma_extended_by_one(
                old(pipeline)@,
                section_name@,
                action@,
                StepModel { name: display_name@, source: StepSource::Unary(unary_action) },
                *transport,
                pipeline@,
            );
        }
        return Ok(());
    }
    if registry.has_action(local_ref) {
        let step_action = match registry.get_action(local_ref) {
            Ok(action) => action,
            Err(message) => {
                return Err(message);
            },
        };
        let action = RegisteredAction {
            name: String::from_str(display_name),
            kind: RegisteredActionKind::StepAction(step_action),
        };
        pipeline.add_registered(section_name, action);
        proof {
            lemma_extended_by_one(
                old(pipeline)@,
                section_name@,
                action@,
                StepModel { name: display_name@, source: StepSource::Controlled(step_action) },
                *transport,
                pipeline@,
            );
        }
        return Ok(());
    }
    Err(concat2("Unknown $local reference: ", local_ref))
}

/// Adding one action that is the step described extends the pipeline by
/// that step.
proof fn lemma_extended_by_one<U, K, H, T>(
    before: PipelineView<LoadedStep<U, T>, K, H>,
    section: Seq<char>,
    action: RegisteredActionView<LoadedStep<U, T>, K>,
    step: StepModel<U, K>,
    transport: Arc<T>,
    after: PipelineView<LoadedStep<U, T>, K, H>,
)
    requires
        after == before.with_action(section, action),
        realizes_step(action, step, transport),
    ensures
        extended(before, section, seq![step], transport, after),
{
    let old_actions = section_actions(before, section);
    let new_actions = section_actions(after, section);
    assert(new_actions == old_actions.push(action));
    assert(new_actions.subrange(0, old_actions.len() as int) =~= old_actions);
    assert(after == with_section(before, section, new_actions));
}

/// Adds the remote step that makes the call `spec` to the phase that
/// `section_name` names.
fn add_remote<U, K, H, T>(
    spec: RemoteSpec,
    display_name: &str,
    section_name: &str,
    pipeline: &mut Pipeline<LoadedStep<U, T>, K, H>,
    transport: &Arc<T>,
)
    requires
        spec.wf(),
    ensures
        extended(
            old(pipeline)@,
            section_name@,
            seq![StepModel::<U, K> { name: display_name@, source: StepSource::Remote(spec@) }],
            *transport,
            final(pipeline)@,
        ),
{
    let step = RemoteStep { spec, transport: share(transport) };
    let action = RegisteredAction {
        name: String::from_str(display_name),
        kind: RegisteredActionKind::Unary(Arc::new(LoadedStep::Remote(step))),
    };
    pipeline.add_registered(section_name, action);
    proof {
        lemma_extended_by_one(
            old(pipeline)@,
            section_name@,
            action@,
            StepModel::<U, K> { name: display_name@, source: StepSource::Remote(spec@) },
            *transport,
            pipeline@,
        );
    }
}

/// Adds the step that `node` describes to the phase that `section_name`
/// names.
fn add_step<U, K, H, T>(
    node: &JsonValue,
    section_name: &str,
    pipeline: &mut Pipeline<LoadedStep<U, T>, K, H>,
    registry: &PipelineRegistry<U, K>,
    remote_defaults: &RemoteDefaults,
    transport: &Arc<T>,
) -> (added: Result<(), String>)
    requires
        registry.wf(),
        remote_defaults.wf(),
    ensures
        match added {
            Ok(_) => step_model(*node, registry@, remote_defaults@) matches Ok(step) && extended(
                old(pipeline)@,
                section_name@,
                seq![step],
                *transport,
                final(pipeline)@,
            ),
            Err(message) => step_model(*node, registry@, remote_defaults@) == Err::<
                StepModel<U, K>,
                Seq<char>,
            >(message@),
        },
{
    let node_object = match node.as_object() {
        Some(members) => members,
        None => {
            return Err(String::from_str("Each action must be a JSON object"));
        },
    };
    proof {
        lemma_empty_literal();
    }
    let display_name = match get_either_str(node_object, "name", "label") {
        Some(text) => text,
        None => "",
    };
    match get_member(node_object, "$local") {
        Some(local_ref_value) => {
            let local_ref = match local_ref_value.as_str() {
                Some(text) => text,
                None => {
                    return Err(String::from_str("$local must be a string"));
                },
            };
            return add_local(local_ref, display_name, section_name, pipeline, registry, transport);
        },
        None => {},
    }
    match get_member(node_object, "$remote") {
        Some(remote_node) => {
            let remote_spec = match parse_remote_spec(remote_node, remote_defaults) {
                Ok(spec) => spec,
                Err(message) => {
                    return Err(message);
                },
            };
            add_remote(remote_spec, display_name, section_name, pipeline, transport);
            return Ok(());
        },
        None => {},
    }
    Err(String::from_str("Unsupported action: expected '$local' or '$remote'"))
}

/// Extending by some steps and then by one more extends by all of them.
proof fn lemma_extended_further<U, K, H, T>(
    before: PipelineView<LoadedStep<U, T>, K, H>,
    section: Seq<char>,
    steps: Seq<StepModel<U, K>>,
    step: StepModel<U, K>,
    transport: Arc<T>,
    middle: PipelineView<LoadedStep<U, T>, K, H>,
    after: PipelineView<LoadedStep<U, T>, K, H>,
)
    requires
        extended(before, section, steps, transport, middle),
        extended(middle, section, seq![step], transport, after),
    ensures
        extended(before, section, steps.push(step), transport, after),
{
    let old_actions = section_actions(before, section);
    let middle_actions = section_actions(middle, section);
    let new_actions = section_actions(after, section);
    assert(new_actions.subrange(0, old_actions.len() as int) =~= middle_actions.subrange(
        0,
        old_actions.len() as int,
    ));
    assert forall|i: int| 0 <= i < steps.push(step).len() implies realizes_step(
        #[trigger] new_actions[old_actions.len() + i],
        steps.push(step)[i],
        transport,
    ) by {
        if i < steps.len() {
            assert(new_actions[old_actions.len() + i] == middle_actions.subrange(
                0,
                middle_actions.len() as int,
            )[old_actions.len() + i]);
            assert(realizes_step(middle_actions[old_actions.len() + i], steps[i], transport));
        } else {
            assert(seq![step][0] == step);
            assert(realizes_step(new_actions[middle_actions.len() + 0int], seq![step][0], transport));
        }
    }
}

/// Adds the steps of the section `section_name` of a document to the phase
/// that the section's name stands for.
fn add_section<U, K, H, T>(
    spec_object: &Vec<(String, JsonValue)>,
    section_name: &str,
    pipeline: &mut Pipeline<LoadedStep<U, T>, K, H>,
    registry: &PipelineRegistry<U, K>,
    remote_defaults: &RemoteDefaults,
    transport: &Arc<T>,
) -> (added: Result<(), String>)
    requires
        registry.wf(),
        remote_defaults.wf(),
    ensures
        match added {
            Ok(_) => section_model(spec_object@, section_name@, registry@, remote_defaults@)
                matches Ok(steps) && extended(
                old(pipeline)@,
                section_name@,
                steps,
                *transport,
                final(pipeline)@,
            ),
            Err(message) => section_model(
                spec_object@,
                section_name@,
                registry@,
                remote_defaults@,
            ) == Err::<Seq<StepModel<U, K>>, Seq<char>>(message@),
        },
{
    proof {
        let here = section_actions(pipeline@, section_name@);
        assert(here.subrange(0, here.len() as int) =~= here);
    }
    let nodes = match get_member(spec_object, section_name) {
        Some(value) => match value.as_array() {
            Some(items) => items,
            None => {
                return Ok(());
            },
        },
        None => {
            return Ok(());
        },
    };
    let mut position: usize = 0;
    while position < nodes.len()
        invariant
            position <= nodes.len(),
            registry.wf(),
            remote_defaults.wf(),
            member(spec_object@, section_name@) matches Some(value) && value.spec_as_array()
                == Some(nodes@),
            steps_model(nodes@, position as int, registry@, remote_defaults@) matches Ok(steps)
                && extended(old(pipeline)@, section_name@, steps, *transport, pipeline@),
        decreases nodes.len() - position,
    {
        let ghost middle = pipeline@;
        let ghost steps = steps_model(nodes@, position as int, registry@, remote_defaults@)->Ok_0;
        match add_step(
            &nodes[position],
            section_name,
            pipeline,
            registry,
            remote_defaults,
            transport,
        ) {
            Ok(_) => {
                proof {
                    let step = step_model(nodes@[position as int], registry@, remote_defaults@)->Ok_0;
                    lemma_extended_further(
                        old(pipeline)@,
                        section_name@,
                        steps,
                        step,
                        *transport,
                        middle,
                        pipeline@,
                    );
                }
            },
            Err(message) => {
                proof {
                    assert(steps_model(
                        nodes@,
                        position as int + 1,
                        registry@,
                        remote_defaults@,
                    ) == Err::<Seq<StepModel<U, K>>, Seq<char>>(message@));
                    lemma_steps_model_fails(
                        nodes@,
                        position as int,
                        nodes.len() as int,
                        registry@,
                        remote_defaults@,
                    );
                }
                return Err(message);
            },
        }
        position += 1;
    }
    Ok(())
}

/// Where the steps up to and with the one at `at` fail, all the steps fail,
/// with the same message.
proof fn lemma_steps_model_fails<U, K>(
    nodes: Seq<JsonValue>,
    at: int,
    count: int,
    registry: PipelineRegistryView<U, K>,
    defaults: RemoteDefaultsView,
)
    requires
        0 <= at < count <= nodes.len(),
        steps_model(nodes, at + 1, registry, defaults) is Err,
    ensures
        steps_model(nodes, count, registry, defaults) == steps_model(
            nodes,
            at + 1,
            registry,
            defaults,
        ),
    decreases count,
{
    if count > at + 1 {
        lemma_steps_model_fails(nodes, at, count - 1, registry, defaults);
    }
}

/// A pipeline that was extended from a phase without actions has in that
/// phase the steps described, one for one.
proof fn lemma_extended_from_empty<U, K, H, T>(
    before: PipelineView<LoadedStep<U, T>, K, H>,
    section: Seq<char>,
    steps: Seq<StepModel<U, K>>,
    transport: Arc<T>,
    after: PipelineView<LoadedStep<U, T>, K, H>,
)
    requires
        extended(before, section, steps, transport, after),
        section_actions(before, section).len() == 0,
    ensures
        realizes_steps(section_actions(after, section), steps, transport),
{
    let old_actions = section_actions(before, section);
    let new_actions = section_actions(after, section);
    assert forall|i: int| 0 <= i < steps.len() implies realizes_step(
        #[trigger] new_actions[i],
        steps[i],
        transport,
    ) by {
        assert(realizes_step(new_actions[old_actions.len() + i], steps[i], transport));
    }
}

/// The names of the sections are four names: `actions` and `steps` are
/// neither `pre` nor `post`.
pub proof fn lemma_section_names()
    ensures
        "pre"@ != "post"@,
        "actions"@ != "pre"@,
        "actions"@ != "post"@,
        "steps"@ != "pre"@,
        "steps"@ != "post"@,
        "actions"@ != "steps"@,
{
    reveal_strlit("pre");
    reveal_strlit("post");
    reveal_strlit("actions");
    reveal_strlit("steps");
    assert("pre"@.len() == 3);
    assert("post"@.len() == 4);
    assert("actions"@.len() == 7);
    assert("steps"@.len() == 5);
}

/// A document gives its main phase under `actions` or under `steps`, and it
/// makes no difference under which: where one document has under `actions`
/// what another has under `steps`, the other has no `actions`, and the two
/// agree on every other member, they describe the same pipeline or fail with
/// the same message.
pub proof fn lemma_actions_and_steps_are_interchangeable<U, K>(
    with_actions: JsonValue,
    with_steps: JsonValue,
    registry: PipelineRegistryView<U, K>,
)
    requires
        with_actions.spec_as_object() is Some,
        with_steps.spec_as_object() is Some,
        member(with_actions.spec_as_object()->0, "actions"@) is Some,
        member(with_steps.spec_as_object()->0, "actions"@) is None,
        member(with_steps.spec_as_object()->0, "steps"@) == member(
            with_actions.spec_as_object()->0,
            "actions"@,
        ),
        forall|key: Seq<char>|
            key != "actions"@ && key != "steps"@ ==> #[trigger] member(
                with_actions.spec_as_object()->0,
                key,
            ) == member(with_steps.spec_as_object()->0, key),
    ensures
        document_model(with_actions, registry) == document_model(with_steps, registry),
{
    let a = with_actions.spec_as_object()->0;
    let b = with_steps.spec_as_object()->0;
    reveal_strlit("actions");
    reveal_strlit("steps");
    reveal_strlit("pipeline");
    reveal_strlit("type");
    reveal_strlit("shortCircuitOnException");
    reveal_strlit("shortCircuit");
    reveal_strlit("remoteDefaults");
    reveal_strlit("pre");
    reveal_strlit("post");
    assert("actions"@.len() == 7);
    assert("steps"@.len() == 5);
    assert("pipeline"@.len() == 8);
    assert("type"@.len() == 4);
    assert("shortCircuitOnException"@.len() == 23);
    assert("shortCircuit"@.len() == 12);
    assert("remoteDefaults"@.len() == 14);
    assert("pre"@.len() == 3);
    assert("post"@.len() == 4);
    assert(member(a, "pipeline"@) == member(b, "pipeline"@));
    assert(member(a, "type"@) == member(b, "type"@));
    assert(member(a, "shortCircuitOnException"@) == member(b, "shortCircuitOnException"@));
    assert(member(a, "shortCircuit"@) == member(b, "shortCircuit"@));
    assert(member(a, "remoteDefaults"@) == member(b, "remoteDefaults"@));
    assert(member(a, "pre"@) == member(b, "pre"@));
    assert(member(a, "post"@) == member(b, "post"@));
    assert(main_section_name(a) == "actions"@);
    assert(main_section_name(b) == "steps"@);
}

/// Where a document has both `actions` and `steps`, `actions` gives the main
/// phase.
pub proof fn lemma_actions_take_precedence(members: Seq<(String, JsonValue)>)
    requires
        member(members, "actions"@) is Some,
    ensures
        main_section_name(members) == "actions"@,
{
}

/// The loader of pipelines from configuration documents.
pub struct PipelineJsonLoader;

impl PipelineJsonLoader {
    pub fn new() -> Self {
        PipelineJsonLoader
    }

    /// Builds the pipeline that the text describes, or says what is wrong
    /// with the text.
    pub fn load_str<U, K, H, T>(
        &self,
        json_text: &str,
        registry: &PipelineRegistry<U, K>,
        transport: &Arc<T>,
    ) -> (loaded: Result<Pipeline<LoadedStep<U, T>, K, H>, String>)
        requires
            registry.wf(),
        ensures
            match loaded {
                Ok(pipeline) => parsed_document(json_text@) matches Ok(doc) && document_model(
                    doc,
                    registry@,
                ) matches Ok(model) && realizes(pipeline@, model, *transport),
                Err(message) => match parsed_document(json_text@) {
                    Ok(doc) => document_model(doc, registry@) == Err::<
                        DocumentModel<U, K>,
                        Seq<char>,
                    >(message@),
                    Err(error) => message@ == invalid_json_message(error),
                },
            },
    {
        let spec = match parse_document(json_text) {
            Ok(value) => value,
            Err(error) => {
                return Err(concat2("Invalid JSON: ", error.as_str()));
            },
        };
        self.build_from_spec(&spec, registry, transport)
    }

    /// Builds the pipeline that the document describes, or says what is
    /// wrong with the document. A pipeline that is returned is whole: the
    /// first thing found wrong ends the work.
    pub fn build_from_spec<U, K, H, T>(
        &self,
        spec: &JsonValue,
        registry: &PipelineRegistry<U, K>,
        transport: &Arc<T>,
    ) -> (loaded: Result<Pipeline<LoadedStep<U, T>, K, H>, String>)
        requires
            registry.wf(),
        ensures
            match loaded {
                Ok(pipeline) => document_model(*spec, registry@) matches Ok(model) && realizes(
                    pipeline@,
                    model,
                    *transport,
                ),
                Err(message) => document_model(*spec, registry@) == Err::<
                    DocumentModel<U, K>,
                    Seq<char>,
                >(message@),
            },
    {
        let spec_object = match spec.as_object() {
            Some(members) => members,
            None => {
                return Err(String::from_str("Pipeline spec must be a JSON object"));
            },
        };
        let pipeline_name = match get_member_str(spec_object, "pipeline") {
            Some(text) => text,
            None => "pipeline",
        };
        let type_supported = match get_member(spec_object, "type") {
            Some(value) => match value.as_str() {
                Some(pipeline_type) => str_eq(pipeline_type, "unary"),
                None => false,
            },
            None => true,
        };
        if !type_supported {
            return Err(String::from_str("Only 'unary' pipelines are supported by this loader"));
        }
        let short_circuit_on_exception = parse_short_circuit_on_exception(spec_object);
        let mut pipeline: Pipeline<LoadedStep<U, T>, K, H> = Pipeline::new(
            pipeline_name,
            short_circuit_on_exception,
        );

        let mut remote_defaults = RemoteDefaults::default();
        assert(remote_defaults@ == initial_defaults());
        match get_member(spec_object, "remoteDefaults") {
            Some(defaults_node) => {
                remote_defaults = match parse_remote_defaults(defaults_node, remote_defaults) {
                    Ok(defaults) => defaults,
                    Err(message) => {
                        return Err(message);
                    },
                };
            },
            None => {},
        }
        proof {
            lemma_section_names();
        }
        let ghost empty = pipeline@;
        match add_section(spec_object, "pre", &mut pipeline, registry, &remote_defaults, transport) {
            Ok(_) => {},
            Err(message) => {
                return Err(message);
            },
        }
        let ghost with_pre = pipeline@;
        let main_section = if get_member(spec_object, "actions").is_some() {
            "actions"
        } else {
            "steps"
        };
        match add_section(
            spec_object,
            main_section,
            &mut pipeline,
            registry,
            &remote_defaults,
            transport,
        ) {
            Ok(_) => {},
            Err(message) => {
                return Err(message);
            },
        }
        let ghost with_main = pipeline@;
        match add_section(spec_object, "post", &mut pipeline, registry, &remote_defaults, transport) {
            Ok(_) => {},
            Err(message) => {
                return Err(message);
            },
        }
        proof {
            let model = document_model(*spec, registry@)->Ok_0;
            lemma_extended_from_empty(empty, "pre"@, model.pre, *transport, with_pre);
            lemma_extended_from_empty(with_pre, main_section@, model.main, *transport, with_main);
            lemma_extended_from_empty(with_main, "post"@, model.post, *transport, pipeline@);
        }
        Ok(pipeline)
    }
}

impl Default for PipelineJsonLoader {
    fn default() -> Self {
        Self::new()
    }
}

} // verus!
