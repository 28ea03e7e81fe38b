use vstd::prelude::*;
use crate::api::{StatusInfo, StatusInfoView, StatusType};
use crate::text::{join, joined};

verus! {

/// The body of a request that may name a version: the version, or the reason
/// why the body is no such request.
pub type VersionRequest = Result<Option<String>, String>;

/// A `VersionRequest` as a mathematical value.
pub open spec fn request_view(request: VersionRequest) -> Result<Option<Seq<char>>, Seq<char>> {
    match request {
        Ok(version) => Ok(version.deep_view()),
        Err(reason) => Err(reason@),
    }
}

/// What the JSON reader makes of `payload` as the body of a get request.
pub uninterp spec fn get_request_of(payload: Seq<u8>) -> Result<Option<Seq<char>>, Seq<char>>;

/// What the JSON reader makes of `payload` as the body of a delete request.
pub uninterp spec fn delete_request_of(payload: Seq<u8>) -> Result<Option<Seq<char>>, Seq<char>>;

/// What the JSON reader makes of `payload` as the body of a deploy request.
pub uninterp spec fn deploy_request_of(payload: Seq<u8>) -> Result<Option<Seq<char>>, Seq<char>>;

/// What the JSON reader makes of `payload` as the body of an undeploy
/// request: nothing, or the reason why the body is no such request.
pub uninterp spec fn undeploy_request_of(payload: Seq<u8>) -> Option<Seq<char>>;

/// The bytes that `text` stands for in standard base64 with padding, where it
/// is such an encoding.
pub uninterp spec fn base64_decoded(text: Seq<char>) -> Option<Seq<u8>>;

/// The status entry that the JSON reader makes of `bytes`, where they hold
/// one.
pub uninterp spec fn status_info_of(bytes: Seq<u8>) -> Option<StatusInfoView>;

/// The JSON object with the members `members`, each a name and a string, as
/// bytes.
pub uninterp spec fn json_object_of(members: Seq<(Seq<char>, Seq<char>)>) -> Seq<u8>;

/// `text` as Rust's debug formatting writes a string: quoted and escaped.
pub uninterp spec fn debug_text_of(text: Seq<char>) -> Seq<char>;

/// `text` without the white space at its two ends.
pub uninterp spec fn trimmed_of(text: Seq<char>) -> Seq<char>;

/// Calls `serde_json::from_reader` for a `wadm_types::api::GetModelRequest`
/// and hands out the version it holds, or the error in debug formatting. The
/// contract only names the outcome, as a function of the payload.
#[verifier::external_body]
pub(crate) fn decode_get_request(payload: &[u8]) -> (res: VersionRequest)
    ensures
        request_view(res) == get_request_of(payload@),
{
    match serde_json::from_reader::<_, wadm_types::api::GetModelRequest>(
        std::io::Cursor::new(payload),
    ) {
        Ok(request) => Ok(request.version),
        Err(e) => Err(format!("{e:?}")),
    }
}

/// Calls `serde_json::from_reader` for a `wadm_types::api::DeleteModelRequest`
/// and hands out the version it holds, or the error in debug formatting. The
/// contract only names the outcome, as a function of the payload.
#[verifier::external_body]
pub(crate) fn decode_delete_request(payload: &[u8]) -> (res: VersionRequest)
    ensures
        request_view(res) == delete_request_of(payload@),
{
    match serde_json::from_reader::<_, wadm_types::api::DeleteModelRequest>(
        std::io::Cursor::new(payload),
    ) {
        Ok(request) => Ok(request.version),
        Err(e) => Err(format!("{e:?}")),
    }
}

/// Calls `serde_json::from_reader` for a `wadm_types::api::DeployModelRequest`
/// and hands out the version it holds, or the error in debug formatting. The
/// contract only names the outcome, as a function of the payload.
#[verifier::external_body]
pub(crate) fn decode_deploy_request(payload: &[u8]) -> (res: VersionRequest)
    ensures
        request_view(res) == deploy_request_of(payload@),
{
    match serde_json::from_reader::<_, wadm_types::api::DeployModelRequest>(
        std::io::Cursor::new(payload),
    ) {
        Ok(request) => Ok(request.version),
        Err(e) => Err(format!("{e:?}")),
    }
}

/// Calls `serde_json::from_reader` for a
/// `wadm_types::api::UndeployModelRequest`, which holds nothing, and hands
/// out the error in debug formatting where there is one. The contract only
/// names the outcome, as a function of the payload.
#[verifier::external_body]
pub(crate) fn decode_undeploy_request(payload: &[u8]) -> (res: Option<String>)
    ensures
        res.deep_view() == undeploy_request_of(payload@),
{
    match serde_json::from_reader::<_, wadm_types::api::UndeployModelRequest>(
        std::io::Cursor::new(payload),
    ) {
        Ok(_) => None,
        Err(e) => Some(format!("{e:?}")),
    }
}

/// Calls `decode` of base64's `STANDARD` engine. The contract only names the
/// bytes, as a function of the text, and says that there are none where the
/// engine reports an error.
#[verifier::external_body]
pub(crate) fn base64_decode(text: &str) -> (res: Option<Vec<u8>>)
    ensures
        match res {
            Some(bytes) => base64_decoded(text@) == Some(bytes@),
            None => base64_decoded(text@) is None,
        },
{
    base64::Engine::decode(&base64::engine::general_purpose::STANDARD, text).ok()
}

/// Calls `serde_json::from_slice` for a `wadm_types::api::StatusInfo` and
/// copies what it holds. The contract only names the entry, as a function of
/// the bytes, and says that there is none where the reader reports an error.
#[verifier::external_body]
pub(crate) fn status_info_from_json(bytes: &[u8]) -> (res: Option<StatusInfo>)
    ensures
        res.deep_view() == status_info_of(bytes@),
{
    let info = serde_json::from_slice::<wadm_types::api::StatusInfo>(bytes).ok()?;
    let status_type = match info.status_type {
        wadm_types::api::StatusType::Waiting => StatusType::Waiting,
        wadm_types::api::StatusType::Undeployed => StatusType::Undeployed,
        wadm_types::api::StatusType::Reconciling => StatusType::Reconciling,
        wadm_types::api::StatusType::Deployed => StatusType::Deployed,
        wadm_types::api::StatusType::Failed => StatusType::Failed,
        wadm_types::api::StatusType::Unhealthy => StatusType::Unhealthy,
    };
    Some(StatusInfo { status_type, message: info.message })
}

/// Collects `members` into a `serde_json::Map`, each value as a
/// `serde_json::Value::String`, and calls `serde_json::to_vec` on the object;
/// where that fails the bytes are empty. The contract only names the bytes,
/// as a function of the members.
#[verifier::external_body]
pub(crate) fn json_object(members: &Vec<(String, String)>) -> (res: Vec<u8>)
    ensures
        res@ == json_object_of(members.deep_view()),
{
    let object: serde_json::Map<String, serde_json::Value> = members.iter().map(
        |(name, value)| (name.clone(), serde_json::Value::String(value.clone())),
    ).collect();
    serde_json::to_vec(&serde_json::Value::Object(object)).unwrap_or_default()
}

/// Formats `text` with `{:#?}`. The contract only names the outcome.
#[verifier::external_body]
pub(crate) fn debug_text(text: &str) -> (res: String)
    ensures
        res@ == debug_text_of(text@),
{
    format!("{:#?}", text)
}

/// Calls `str::trim`. The contract only names the outcome.
#[verifier::external_body]
pub(crate) fn trimmed(text: &str) -> (res: String)
    ensures
        res@ == trimmed_of(text@),
{
    text.trim().to_string()
}

/// The debug texts of `items`, in their order.
pub open spec fn debug_texts(items: Seq<Seq<char>>) -> Seq<Seq<char>> {
    items.map_values(|item: Seq<char>| debug_text_of(item))
}

/// `items` as a list in debug formatting: in brackets, each item quoted and
/// escaped, with a comma and a space between each two.
pub open spec fn debug_list_of(items: Seq<Seq<char>>) -> Seq<char> {
    "["@ + joined(debug_texts(items), ", "@) + "]"@
}

/// Writes `items` as a list in debug formatting.
pub fn debug_list(items: &Vec<String>) -> (res: String)
    ensures
        res@ == debug_list_of(items.deep_view()),
{
    let mut texts: Vec<String> = Vec::new();
    let mut i: usize = 0;
    while i < items.len()
        invariant
            i <= items.len(),
            texts.len() == i,
            forall|k: int| 0 <= k < i ==> (#[trigger] texts[k])@ == debug_text_of(items[k]@),
        decreases items.len() - i,
    {
        texts.push(debug_text(items[i].as_str()));
        i += 1;
    }
    assert(texts.deep_view() =~= debug_texts(items.deep_view()));
    let mut out = String::from_str("[");
    out.append(join(&texts, ", ").as_str());
    out.append("]");
    out
}

/// The status entry in `payload`, which is the base64 text of its JSON form.
/// There is none where the payload is no base64 or the bytes are no entry.
pub open spec fn decoded_status(payload: Seq<char>) -> Option<StatusInfoView> {
    match base64_decoded(payload) {
        Some(bytes) => status_info_of(bytes),
        None => None,
    }
}

/// Reads a status entry from the payload of a message of the status log.
pub fn decode_status(payload: &str) -> (res: Option<StatusInfo>)
    ensures
        res.deep_view() == decoded_status(payload@),
{
    match base64_decode(payload) {
        Some(bytes) => status_info_from_json(bytes.as_slice()),
        None => None,
    }
}

} // verus!
