//! The page's side of the REST surface: which requests it makes, how it
//! reads what comes back, and what it shows afterwards.

use crate::protocol::BackendEvent;
use crate::resources::Resource;
use crate::text::{decimal, join, render};
use crate::ui::ToastType;
use vstd::prelude::*;
use vstd::string::StringExecFns;

verus! {

/// The address of the service.
pub const API_BASE: &'static str = "http://localhost:3000";

/// A request to the service.
#[derive(Clone, Debug, PartialEq, Eq)]
pub struct ApiRequest {
    pub url: String,
    pub method: &'static str,
    pub body: Option<String>,
}

/// A message to show and the kind of toast to show it in.
#[derive(Clone, Debug, PartialEq, Eq)]
pub struct Notification {
    pub message: String,
    pub kind: ToastType,
}

/// The request for the list of resources.
pub fn list_request() -> (request: ApiRequest)
    ensures
        request.url@ == API_BASE@ + "/api/v1/resources"@,
        request.method@ == "GET"@,
        request.body is None,
{
    ApiRequest { url: join(API_BASE, "/api/v1/resources"), method: "GET", body: None }
}

/// The request that creates the resource whose creation request is written
/// in `body`.
pub fn create_request(body: String) -> (request: ApiRequest)
    ensures
        request.url@ == API_BASE@ + "/api/v1/resources"@,
        request.method@ == "POST"@,
        request.body == Some(body),
{
    ApiRequest { url: join(API_BASE, "/api/v1/resources"), method: "POST", body: Some(body) }
}

/// The request that deletes the resource with the identifier `id`.
pub fn delete_request(id: &str) -> (request: ApiRequest)
    ensures
        request.url@ == API_BASE@ + "/api/v1/resources/"@ + id@,
        request.method@ == "DELETE"@,
        request.body is None,
{
    let mut url = join(API_BASE, "/api/v1/resources/");
    url.append(id);
    ApiRequest { url, method: "DELETE", body: None }
}

/// What a response is read as: its text where the service reported success
/// and the body is text, else a description of what went wrong.
pub fn response_text(ok: bool, status: u16, text: Option<String>) -> (r: Result<String, String>)
    ensures
        match r {
            Ok(body) => ok && text == Some(body),
            Err(error) => if !ok {
                error@ == "HTTP "@ + decimal(status as nat)
            } else {
                text is None && error@ == "Response not a string"@
            },
        },
{
    if !ok {
        let number = render(status as u64, 10);
        return Err(join("HTTP ", number.as_str()));
    }
    match text {
        Some(body) => Ok(body),
        None => Err(String::from_str("Response not a string")),
    }
}

/// Whether a name that was typed asks for a resource: an empty one does not.
pub fn should_create(name: &str) -> (create: bool)
    ensures
        create == (name@.len() > 0),
{
    name.unicode_len() > 0
}

/// What is shown after a resource was created.
pub fn created_notification(name: &str) -> (notification: Notification)
    ensures
        notification.message@ == "Created "@ + name@,
        notification.kind == ToastType::Success,
{
    Notification { message: join("Created ", name), kind: ToastType::Success }
}

/// What is shown after a resource was deleted.
pub fn deleted_notification(name: &str) -> (notification: Notification)
    ensures
        notification.message@ == "Deleted "@ + name@,
        notification.kind == ToastType::Success,
{
    Notification { message: join("Deleted ", name), kind: ToastType::Success }
}

/// What is shown after a request failed.
pub fn error_notification(error: &str) -> (notification: Notification)
    ensures
        notification.message@ == "Error: "@ + error@,
        notification.kind == ToastType::Error,
{
    Notification { message: join("Error: ", error), kind: ToastType::Error }
}

/// The state of the list as the page words it.
pub fn status_text(status: &str) -> (text: String)
    ensures
        text@ == (if status@.len() == 0 {
            "Not loaded"@
        } else {
            status@
        }),
{
    if status.unicode_len() == 0 {
        String::from_str("Not loaded")
    } else {
        String::from_str(status)
    }
}

/// Puts a resource that was created at the head of the list that is shown.
pub fn show_created(list: &mut Vec<Resource>, resource: Resource)
    ensures
        final(list)@ == old(list)@.insert(0, resource),
{
    list.insert(0, resource);
}

/// Takes the resources with the identifier `id` out of the list that is
/// shown; the others keep their order.
pub fn hide_deleted(list: &mut Vec<Resource>, id: &str)
    ensures
        final(list)@ == old(list)@.filter(|resource: Resource| resource.id@ != id@),
{
    let ghost kept = |resource: Resource| resource.id@ != id@;
    let ghost done: int = 0;
    let wanted = String::from_str(id);
    let mut index: usize = 0;
    proof {
        reveal(Seq::filter);
        assert(old(list)@.take(0).filter(kept) =~= list@.take(0));
        assert(list@.skip(0) =~= old(list)@.skip(0));
    }
    while index < list.len()
        invariant
            wanted@ == id@,
            kept == (|resource: Resource| resource.id@ != id@),
            0 <= done <= old(list)@.len(),
            index <= list@.len(),
            list@.take(index as int) == old(list)@.take(done).filter(kept),
            list@.skip(index as int) == old(list)@.skip(done),
        decreases list@.len() - index,
    {
        let ghost before = list@;
        proof {
            reveal(Seq::filter);
            assert(before.skip(index as int).len() == before.len() - index);
            assert(old(list)@.skip(done).len() == old(list)@.len() - done);
            assert(before[index as int] == before.skip(index as int)[0]);
            assert(old(list)@[done] == old(list)@.skip(done)[0]);
            assert(old(list)@.take(done + 1).drop_last() =~= old(list)@.take(done));
            assert(old(list)@.take(done + 1).last() == old(list)@[done]);
        }
        if list[index].id == wanted {
            let _ = list.remove(index);
            proof {
                assert(list@.take(index as int) =~= before.take(index as int));
                assert(list@.skip(index as int) =~= before.skip(index as int).skip(1));
                assert(old(list)@.skip(done).skip(1) =~= old(list)@.skip(done + 1));
                done = done + 1;
            }
        } else {
            index = index + 1;
            proof {
                assert(list@.take(index as int) =~= before.take(index - 1).push(before[index - 1]));
                assert(list@.skip(index as int) =~= before.skip(index - 1).skip(1));
                assert(old(list)@.skip(done).skip(1) =~= old(list)@.skip(done + 1));
                done = done + 1;
            }
        }
    }
    proof {
        assert(list@.skip(index as int).len() == 0);
        assert(old(list)@.take(done) =~= old(list)@);
        assert(list@.take(index as int) =~= list@);
    }
}

/// The line that the log of the page gets for an event of the host.
pub open spec fn log_line(event: BackendEvent) -> Seq<char> {
    match event {
        BackendEvent::Connected => "Backend connected"@,
        BackendEvent::RandomNumber { request_id, value } => "Request #"@ + decimal(
            request_id as nat,
        ) + ": "@ + decimal(value as nat),
    }
}

/// The line that the log of the page gets for an event of the host.
pub fn log_entry(event: BackendEvent) -> (line: String)
    ensures
        line@ == log_line(event),
{
    match event {
        BackendEvent::Connected => String::from_str("Backend connected"),
        BackendEvent::RandomNumber { request_id, value } => {
            let number = render(request_id as u64, 10);
            let mut line = join("Request #", number.as_str());
            line.append(": ");
            let number = render(value as u64, 10);
            line.append(number.as_str());
            line
        },
    }
}

/// How the page words the state of the bridge.
pub fn connection_label(connected: bool) -> (label: &'static str)
    ensures
        label@ == (if connected {
            "Connected"@
        } else {
            "Disconnected"@
        }),
{
    if connected {
        "Connected"
    } else {
        "Disconnected"
    }
}

} // verus!
