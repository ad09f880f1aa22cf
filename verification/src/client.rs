//! The Splinter backend adapter: request construction for batch submission
//! and status polling, and the mapping of transport outcomes to results.
//!
//! The adapter holds only the node's base URL and the authorization value; it
//! is immutable after construction. Each operation is a single
//! request/response cycle: the adapter prepares the request (path, query,
//! body, link), the caller performs the HTTP exchange, and the adapter maps
//! the outcome back. No retry is attempted.

use vstd::prelude::*;
use vstd::string::StringExecFns;
use crate::address::SplinterService;
use crate::address::circuit_of;
use crate::address::resolve_err_empty;
use crate::address::resolve_err_unqualified;
use crate::address::resolve_ok;
use crate::address::service_of;
use crate::error::BackendClientError;
use crate::error::is_bad_request_with;
use crate::error::is_internal_with;
use crate::strutil::dec_str;
use crate::strutil::join_commas;
use crate::strutil::join_csv;
use crate::strutil::u64_to_dec_string;

verus! {

/// The adapter's view of an opaque serializable batch list: each batch's
/// header signature, in the list's order, and the list's binary wire
/// encoding — or the encoder's error text where encoding failed. The binary
/// encoding itself is an external collaborator: callers produce both parts
/// with their message library.
pub struct BatchList {
    pub header_signatures: Vec<String>,
    pub encoded: Result<Vec<u8>, String>,
}

/// A request to submit a batch list.
///
/// `service_id` is declared optional but is required at call time.
/// `response_url` is the caller-followable URL under which the submitted
/// batches can later be polled, without a query component; the adapter
/// appends the `id` query parameter to it.
pub struct SubmitBatches {
    pub service_id: Option<String>,
    pub batch_list: BatchList,
    pub response_url: String,
}

/// A request to poll the statuses of previously submitted batches.
///
/// `service_id` is declared optional but is required at call time. `wait` is
/// an optional server-side wait, in seconds.
pub struct BatchStatuses {
    pub service_id: Option<String>,
    pub batch_ids: Vec<String>,
    pub wait: Option<u64>,
}

/// The link returned to a submission's caller: a URL encoding the set of
/// batch ids just submitted, for later polling.
pub struct BatchStatusLink {
    pub link: String,
}

/// A fully constructed submission: where to POST, the binary body, the
/// authorization value to send, and the link owed to the caller whatever the
/// transport outcome.
pub struct PreparedSubmission {
    pub url: String,
    pub body: Vec<u8>,
    pub link: String,
    pub authorization: String,
}

/// A fully constructed status query: where to GET and the authorization value
/// to send.
pub struct PreparedStatusQuery {
    pub url: String,
    pub authorization: String,
}

/// The protocol version sent with every request, as the value of the
/// `GridProtocolVersion` header.
pub fn protocol_version() -> (r: &'static str)
    ensures
        r@ == "1"@,
{
    "1"
}

/// The content type of a submission body, sent as the value of the
/// `Content-Type` header.
pub fn submission_content_type() -> (r: &'static str)
    ensures
        r@ == "octet-stream"@,
{
    "octet-stream"
}

/// The service id a request carries; meaningful only when one is present.
pub open spec fn carried_service_id(service_id: Option<String>) -> Seq<char> {
    service_id->Some_0@
}

/// The submission path: `{base}/scabbard/{circuit}/{service}/batches`.
pub open spec fn submit_url_spec(base: Seq<char>, circuit: Seq<char>, service: Seq<char>) -> Seq<
    char,
> {
    base + "/scabbard/"@ + circuit + "/"@ + service + "/batches"@
}

/// The link for a submission: the response URL with the comma-joined batch
/// header signatures as its `id` query parameter.
pub open spec fn link_spec(response_url: Seq<char>, signatures: Seq<Seq<char>>) -> Seq<char> {
    response_url + "?id="@ + join_csv(signatures)
}

/// The status-query URL:
/// `{base}/scabbard/{circuit}/{service}/batch_statuses?[wait={n}&]ids={csv}`;
/// the `wait` segment is present exactly when a wait was asked for.
pub open spec fn status_url_spec(
    base: Seq<char>,
    circuit: Seq<char>,
    service: Seq<char>,
    wait: Option<u64>,
    batch_ids: Seq<Seq<char>>,
) -> Seq<char> {
    base + "/scabbard/"@ + circuit + "/"@ + service + "/batch_statuses?"@ + (match wait {
        Some(w) => "wait="@ + dec_str(w as nat) + "&"@,
        None => Seq::<char>::empty(),
    }) + "ids="@ + join_csv(batch_ids)
}

/// A client of one Splinter node's scabbard REST surface, addressed by the
/// node's base URL and carrying the authorization value sent verbatim with
/// every request.
#[derive(Clone)]
pub struct SplinterBackendClient {
    pub node_url: String,
    pub authorization: String,
}

impl SplinterBackendClient {
    /// Constructs a new splinter backend client, using the given url for the
    /// node's REST API and the given authorization value.
    pub fn new(node_url: String, authorization: String) -> (r: Self)
        ensures
            r.node_url == node_url,
            r.authorization == authorization,
    {
        Self { node_url, authorization }
    }

    /// Prepares a batch submission.
    ///
    /// Requires a service id, resolves it, and constructs the POST target,
    /// the binary body, and the status link owed to the caller. The link is
    /// derived from the request alone, so it is fixed here, before any
    /// transport work. A missing service id, a malformed one, and a batch
    /// list that did not encode are each rejected with `BadRequestError`.
    pub fn submit_batches(&self, msg: SubmitBatches) -> (r: Result<
        PreparedSubmission,
        BackendClientError,
    >)
        ensures
            r is Ok <==> (msg.service_id is Some && resolve_ok(carried_service_id(msg.service_id))
                && msg.batch_list.encoded is Ok),
            msg.service_id is None ==> (r matches Err(e) && is_bad_request_with(
                e,
                "A service id must be provided"@,
            )),
            msg.service_id is Some && resolve_err_empty(carried_service_id(msg.service_id)) ==> (
            r matches Err(e) && is_bad_request_with(e, "Empty service_id parameter provided"@)),
            msg.service_id is Some && resolve_err_unqualified(carried_service_id(msg.service_id))
                ==> (r matches Err(e) && is_bad_request_with(
                e,
                "Must provide a fully-qualified service_id: <circuit_id>::<service_id>"@,
            )),
            msg.service_id is Some && resolve_ok(carried_service_id(msg.service_id))
                && msg.batch_list.encoded is Err ==> (r matches Err(e) && is_bad_request_with(
                e,
                "Malformed batch list: "@ + msg.batch_list.encoded->Err_0@,
            )),
            msg.service_id is Some && resolve_ok(carried_service_id(msg.service_id))
                && msg.batch_list.encoded is Ok ==> (r matches Ok(p) && p.url@ == submit_url_spec(
                self.node_url@,
                circuit_of(carried_service_id(msg.service_id)),
                service_of(carried_service_id(msg.service_id)),
            ) && p.body@ == msg.batch_list.encoded->Ok_0@ && p.link@ == link_spec(
                msg.response_url@,
                msg.batch_list.header_signatures.deep_view(),
            ) && p.authorization@ == self.authorization@),
    {
        let SubmitBatches { service_id, batch_list, response_url } = msg;
        let sid = match service_id {
            Some(s) => s,
            None => {
                return Err(
                    BackendClientError::BadRequestError(
                        String::from_str("A service id must be provided"),
                    ),
                );
            },
        };
        let service_info = match SplinterService::from_str(sid.as_str()) {
            Ok(v) => v,
            Err(e) => {
                return Err(e);
            },
        };
        let mut url = self.node_url.clone();
        url.append("/scabbard/");
        url.append(service_info.circuit_id.as_str());
        url.append("/");
        url.append(service_info.service_id.as_str());
        url.append("/batches");
        let body = match batch_list.encoded {
            Ok(b) => b,
            Err(em) => {
                let mut m = String::from_str("Malformed batch list: ");
                m.append(em.as_str());
                return Err(BackendClientError::BadRequestError(m));
            },
        };
        let signatures_csv = join_commas(&batch_list.header_signatures);
        let mut link = response_url;
        link.append("?id=");
        link.append(signatures_csv.as_str());
        proof {
            assert(url@ =~= submit_url_spec(
                self.node_url@,
                circuit_of(sid@),
                service_of(sid@),
            ));
            assert(link@ =~= link_spec(
                msg.response_url@,
                msg.batch_list.header_signatures.deep_view(),
            ));
        }
        Ok(
            PreparedSubmission {
                url,
                body,
                link,
                authorization: self.authorization.clone(),
            },
        )
    }

    /// Prepares a status query.
    ///
    /// Requires a service id, resolves it, and constructs the GET target:
    /// the batch-statuses path with the optional `wait` parameter followed by
    /// the comma-joined batch ids. A missing or malformed service id is
    /// rejected with `BadRequestError`.
    pub fn batch_status(&self, msg: BatchStatuses) -> (r: Result<
        PreparedStatusQuery,
        BackendClientError,
    >)
        ensures
            r is Ok <==> (msg.service_id is Some && resolve_ok(
                carried_service_id(msg.service_id),
            )),
            msg.service_id is None ==> (r matches Err(e) && is_bad_request_with(
                e,
                "A service id must be provided"@,
            )),
            msg.service_id is Some && resolve_err_empty(carried_service_id(msg.service_id)) ==> (
            r matches Err(e) && is_bad_request_with(e, "Empty service_id parameter provided"@)),
            msg.service_id is Some && resolve_err_unqualified(carried_service_id(msg.service_id))
                ==> (r matches Err(e) && is_bad_request_with(
                e,
                "Must provide a fully-qualified service_id: <circuit_id>::<service_id>"@,
            )),
            msg.service_id is Some && resolve_ok(carried_service_id(msg.service_id)) ==> (
            r matches Ok(p) && p.url@ == status_url_spec(
                self.node_url@,
                circuit_of(carried_service_id(msg.service_id)),
                service_of(carried_service_id(msg.service_id)),
                msg.wait,
                msg.batch_ids.deep_view(),
            ) && p.authorization@ == self.authorization@),
    {
        let BatchStatuses { service_id, batch_ids, wait } = msg;
        let sid = match service_id {
            Some(s) => s,
            None => {
                return Err(
                    BackendClientError::BadRequestError(
                        String::from_str("A service id must be provided"),
                    ),
                );
            },
        };
        let service_info = match SplinterService::from_str(sid.as_str()) {
            Ok(v) => v,
            Err(e) => {
                return Err(e);
            },
        };
        let mut url = self.node_url.clone();
        url.append("/scabbard/");
        url.append(service_info.circuit_id.as_str());
        url.append("/");
        url.append(service_info.service_id.as_str());
        url.append("/batch_statuses?");
        match wait {
            Some(wait_time) => {
                url.append("wait=");
                let rendered = u64_to_dec_string(wait_time);
                url.append(rendered.as_str());
                url.append("&");
            },
            None => {},
        }
        url.append("ids=");
        let ids_csv = join_commas(&batch_ids);
        url.append(ids_csv.as_str());
        proof {
            assert(url@ =~= status_url_spec(
                self.node_url@,
                circuit_of(sid@),
                service_of(sid@),
                msg.wait,
                msg.batch_ids.deep_view(),
            ));
        }
        Ok(PreparedStatusQuery { url, authorization: self.authorization.clone() })
    }
}

/// Maps a submission's transport outcome to the adapter's result: any
/// transport-level success yields the link fixed at preparation time — the
/// response's HTTP status is not inspected — and a transport failure surfaces
/// as `InternalError` carrying the underlying error text.
pub fn submission_outcome(link: String, transport: Result<(), String>) -> (r: Result<
    BatchStatusLink,
    BackendClientError,
>)
    ensures
        transport is Ok ==> (r matches Ok(l) && l.link@ == link@),
        transport matches Err(e) ==> (r matches Err(err) && is_internal_with(
            err,
            "Unable to submit batch: "@ + e@,
        )),
{
    match transport {
        Ok(_) => Ok(BatchStatusLink { link }),
        Err(e) => {
            let mut m = String::from_str("Unable to submit batch: ");
            m.append(e.as_str());
            Err(BackendClientError::InternalError(m))
        },
    }
}

} // verus!
