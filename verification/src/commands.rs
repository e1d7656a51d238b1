//! The four commands that the user interface invokes. A command that speaks to the
//! remote service comes in two parts: one gives the request to make, the other judges
//! what came of it. In between the caller makes the request, holding nothing.

use crate::gateway::{
    fetch_outcome, fetch_request, submit_outcome, submit_request, GatewayErrorView, HttpReply,
    HttpRequest, HttpRequestView,
};
use crate::record::{AutofillData, RequestedAutofillFields};
use crate::startup::{Handoff, LoadAnswer, Phase};
use vstd::prelude::*;

verus! {

/// The current record, as a copy of its own.
pub fn load_data_from_store(app: &Handoff) -> (r: AutofillData)
    requires
        app@.served() is Some,
    ensures
        r@ == app@.served()->0.value,
{
    app.cell().unwrap().snapshot().clone()
}

/// The current record, for a command that may come at any time: the record once the
/// cell is installed; before that the word to wait, and after startup was given up the
/// word that there will be none.
pub fn try_load_data_from_store(app: &Handoff) -> (r: LoadAnswer)
    ensures
        r@ == app@.load_answer(),
{
    if app.is_serving() {
        LoadAnswer::Ready(load_data_from_store(app))
    } else {
        match app.phase() {
            Phase::Failed => LoadAnswer::Never,
            _ => LoadAnswer::NotYet,
        }
    }
}

/// Puts `data` in the place of the current record. Storage follows later, through the
/// loop; nothing waits for it here.
pub fn store_data_to_store(app: &mut Handoff, data: AutofillData)
    requires
        old(app)@.can_publish(),
    ensures
        final(app)@ == old(app)@.published(data@),
{
    let _ = app.publish(data);
}

/// The request that asks the remote service which fields the request with this code
/// wants; or, in words, why the code gives no address.
pub fn fetch_request_info(code: &str) -> (r: Result<HttpRequest, String>)
    ensures
        match r {
            Ok(request) => fetch_request(code@) == Ok::<HttpRequestView, GatewayErrorView>(
                request@,
            ),
            Err(message) => fetch_request(code@) is Err && message@ == fetch_request(
                code@,
            )->Err_0.message(),
        },
{
    match HttpRequest::fetch(code) {
        Ok(request) => Ok(request),
        Err(e) => Err(e.message()),
    }
}

/// The mask that the remote service answered with; or, in words, why there is none: no
/// answer came, its status is no success, or its body is no mask.
pub fn fetch_request_info_reply(reply: HttpReply) -> (r: Result<RequestedAutofillFields, String>)
    ensures
        match r {
            Ok(mask) => fetch_outcome(reply@) == Ok::<RequestedAutofillFields, GatewayErrorView>(
                mask,
            ),
            Err(message) => fetch_outcome(reply@) is Err && message@ == fetch_outcome(
                reply@,
            )->Err_0.message(),
        },
{
    match reply.into_mask() {
        Ok(mask) => Ok(mask),
        Err(e) => Err(e.message()),
    }
}

/// The request that hands the remote service the fields of the current record that
/// `filter` asks for, and no other; or, in words, why the code gives no address.
pub fn confirm_request(app: &Handoff, code: &str, filter: RequestedAutofillFields) -> (r: Result<
    HttpRequest,
    String,
>)
    requires
        app@.served() is Some,
    ensures
        match r {
            Ok(request) => submit_request(code@, app@.served()->0.value.disclosed(filter)) == Ok::<
                HttpRequestView,
                GatewayErrorView,
            >(request@),
            Err(message) => submit_request(code@, app@.served()->0.value.disclosed(filter)) is Err
                && message@ == submit_request(
                code@,
                app@.served()->0.value.disclosed(filter),
            )->Err_0.message(),
        },
{
    let disclosed = app.cell().unwrap().snapshot().disclose(filter);
    match HttpRequest::submit(code, &disclosed) {
        Ok(request) => Ok(request),
        Err(e) => Err(e.message()),
    }
}

/// Whether the submission is done: it is exactly when an answer came and its status is
/// a success; otherwise, in words, why not.
pub fn confirm_request_reply(reply: HttpReply) -> (r: Result<(), String>)
    ensures
        match r {
            Ok(_) => submit_outcome(reply@) == Ok::<(), GatewayErrorView>(()),
            Err(message) => submit_outcome(reply@) is Err && message@ == submit_outcome(
                reply@,
            )->Err_0.message(),
        },
{
    match reply.into_done() {
        Ok(_) => Ok(()),
        Err(e) => Err(e.message()),
    }
}

} // verus!
