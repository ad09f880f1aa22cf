//! The remote batch-status payload and its normalization.
//!
//! A status query returns, for each batch, a wire record holding the batch id,
//! a status label, and a list of per-transaction messages. Normalization keeps
//! a message as an invalid transaction only when both its error text and its
//! error data are present — a message with only one of the two is silently
//! dropped — and renders the error data as base64.

use vstd::prelude::*;
use vstd::string::StringExecFns;
use crate::error::BackendClientError;
use crate::error::is_internal_with;

verus! {

/// What `base64::encode` returns for the given bytes; the encoding is a
/// function of the bytes alone.
pub uninterp spec fn base64_of(bytes: Seq<u8>) -> Seq<char>;

/// Relies on `base64::encode`, which encodes the bytes with the standard
/// base64 alphabet and padding; the result depends on the bytes alone.
#[verifier::external_body]
fn encode_base64(bytes: &Vec<u8>) -> (r: String)
    ensures
        r@ == base64_of(bytes@),
{
    base64::encode(bytes)
}

/// One per-transaction message of a remote batch status.
pub struct ErrorMessage {
    pub transaction_id: String,
    pub error_message: Option<String>,
    pub error_data: Option<Vec<u8>>,
}

/// The mathematical shape of an `ErrorMessage`.
pub ghost struct ErrorMessageView {
    pub transaction_id: Seq<char>,
    pub error_message: Option<Seq<char>>,
    pub error_data: Option<Seq<u8>>,
}

impl View for ErrorMessage {
    type V = ErrorMessageView;

    open spec fn view(&self) -> ErrorMessageView {
        ErrorMessageView {
            transaction_id: self.transaction_id@,
            error_message: match self.error_message {
                Some(m) => Some(m@),
                None => None,
            },
            error_data: match self.error_data {
                Some(d) => Some(d@),
                None => None,
            },
        }
    }
}

impl DeepView for ErrorMessage {
    type V = ErrorMessageView;

    open spec fn deep_view(&self) -> ErrorMessageView {
        self.view()
    }
}

/// The status part of a remote batch status: a label and the per-transaction
/// messages, in the order the node sent them.
pub struct Status {
    pub status_type: String,
    pub message: Vec<ErrorMessage>,
}

/// The mathematical shape of a `Status`.
pub ghost struct StatusView {
    pub status_type: Seq<char>,
    pub message: Seq<ErrorMessageView>,
}

impl View for Status {
    type V = StatusView;

    open spec fn view(&self) -> StatusView {
        StatusView { status_type: self.status_type@, message: self.message.deep_view() }
    }
}

impl DeepView for Status {
    type V = StatusView;

    open spec fn deep_view(&self) -> StatusView {
        self.view()
    }
}

/// One remote batch status, as the node reports it.
pub struct SplinterBatchStatus {
    pub id: String,
    pub status: Status,
}

/// The mathematical shape of a `SplinterBatchStatus`.
pub ghost struct SplinterBatchStatusView {
    pub id: Seq<char>,
    pub status: StatusView,
}

impl View for SplinterBatchStatus {
    type V = SplinterBatchStatusView;

    open spec fn view(&self) -> SplinterBatchStatusView {
        SplinterBatchStatusView { id: self.id@, status: self.status@ }
    }
}

impl DeepView for SplinterBatchStatus {
    type V = SplinterBatchStatusView;

    open spec fn deep_view(&self) -> SplinterBatchStatusView {
        self.view()
    }
}

/// One invalid transaction of a normalized batch status.
pub struct InvalidTransaction {
    pub id: String,
    pub message: String,
    pub extended_data: String,
}

/// The mathematical shape of an `InvalidTransaction`.
pub ghost struct InvalidTransactionView {
    pub id: Seq<char>,
    pub message: Seq<char>,
    pub extended_data: Seq<char>,
}

impl View for InvalidTransaction {
    type V = InvalidTransactionView;

    open spec fn view(&self) -> InvalidTransactionView {
        InvalidTransactionView {
            id: self.id@,
            message: self.message@,
            extended_data: self.extended_data@,
        }
    }
}

impl DeepView for InvalidTransaction {
    type V = InvalidTransactionView;

    open spec fn deep_view(&self) -> InvalidTransactionView {
        self.view()
    }
}

/// A normalized batch status: the batch id, the status label taken verbatim,
/// and the invalid transactions kept by the normalization rule.
pub struct BatchStatus {
    pub id: String,
    pub status: String,
    pub invalid_transactions: Vec<InvalidTransaction>,
}

/// The mathematical shape of a `BatchStatus`.
pub ghost struct BatchStatusView {
    pub id: Seq<char>,
    pub status: Seq<char>,
    pub invalid_transactions: Seq<InvalidTransactionView>,
}

impl View for BatchStatus {
    type V = BatchStatusView;

    open spec fn view(&self) -> BatchStatusView {
        BatchStatusView {
            id: self.id@,
            status: self.status@,
            invalid_transactions: self.invalid_transactions.deep_view(),
        }
    }
}

impl DeepView for BatchStatus {
    type V = BatchStatusView;

    open spec fn deep_view(&self) -> BatchStatusView {
        self.view()
    }
}

/// A message is kept only when both its error text and its error data are
/// present.
pub open spec fn keeps(m: ErrorMessageView) -> bool {
    m.error_message is Some && m.error_data is Some
}

/// The invalid transaction a kept message contributes: the transaction id and
/// error text verbatim, the error data rendered as base64.
pub open spec fn invalid_txn_of(m: ErrorMessageView) -> InvalidTransactionView {
    InvalidTransactionView {
        id: m.transaction_id,
        message: m.error_message->Some_0,
        extended_data: base64_of(m.error_data->Some_0),
    }
}

/// The invalid transactions of a message list: the kept messages, in order,
/// each mapped by `invalid_txn_of`.
pub open spec fn invalid_txns_of(msgs: Seq<ErrorMessageView>) -> Seq<InvalidTransactionView>
    decreases msgs.len(),
{
    if msgs.len() == 0 {
        Seq::empty()
    } else if keeps(msgs.last()) {
        invalid_txns_of(msgs.drop_last()).push(invalid_txn_of(msgs.last()))
    } else {
        invalid_txns_of(msgs.drop_last())
    }
}

/// The normalization of one remote batch status.
pub open spec fn normalize_spec(s: SplinterBatchStatusView) -> BatchStatusView {
    BatchStatusView {
        id: s.id,
        status: s.status.status_type,
        invalid_transactions: invalid_txns_of(s.status.message),
    }
}

/// The normalization of a sequence of remote batch statuses, in order.
pub open spec fn normalize_all(ss: Seq<SplinterBatchStatusView>) -> Seq<BatchStatusView> {
    ss.map_values(|s: SplinterBatchStatusView| normalize_spec(s))
}

impl BatchStatus {
    /// Normalizes one remote batch status, read through a reference.
    pub fn from_ref(status: &SplinterBatchStatus) -> (r: BatchStatus)
        ensures
            r@ == normalize_spec(status@),
    {
        let mut invalid: Vec<InvalidTransaction> = Vec::new();
        let mut i: usize = 0;
        while i < status.status.message.len()
            invariant
                i <= status.status.message.len(),
                invalid.deep_view() == invalid_txns_of(status.status.message.deep_view().take(i as int)),
            decreases status.status.message.len() - i,
        {
            let m = &status.status.message[i];
            let ghost ms = status.status.message.deep_view();
            match (&m.error_message, &m.error_data) {
                (Some(em), Some(ed)) => {
                    let txn = InvalidTransaction {
                        id: m.transaction_id.clone(),
                        message: em.clone(),
                        extended_data: encode_base64(ed),
                    };
                    proof {
                        assert(ms.take(i + 1).drop_last() =~= ms.take(i as int));
                        assert(ms.take(i + 1).last() == ms[i as int]);
                        assert(txn@ == invalid_txn_of(ms[i as int]));
                    }
                    invalid.push(txn);
                    proof {
                        assert(invalid.deep_view() =~= invalid_txns_of(ms.take(i + 1)));
                    }
                },
                _ => {
                    proof {
                        assert(ms.take(i + 1).drop_last() =~= ms.take(i as int));
                        assert(ms.take(i + 1).last() == ms[i as int]);
                        assert(!keeps(ms[i as int]));
                    }
                },
            }
            i = i + 1;
        }
        proof {
            let ms = status.status.message.deep_view();
            assert(ms.take(status.status.message.len() as int) =~= ms);
        }
        let r = BatchStatus {
            id: status.id.clone(),
            status: status.status.status_type.clone(),
            invalid_transactions: invalid,
        };
        r
    }

    /// Normalizes one remote batch status.
    pub fn from(status: SplinterBatchStatus) -> (r: BatchStatus)
        ensures
            r@ == normalize_spec(status@),
    {
        BatchStatus::from_ref(&status)
    }
}

/// Maps a status query's transport-and-parse outcome to the adapter's result:
/// a parsed response is normalized record by record, in order; a failure — a
/// transport error or an unparsable body — surfaces as `InternalError`
/// carrying the underlying error text.
pub fn status_outcome(response: Result<Vec<SplinterBatchStatus>, String>) -> (r: Result<
    Vec<BatchStatus>,
    BackendClientError,
>)
    ensures
        response matches Ok(stats) ==> (r matches Ok(out) && out.deep_view() == normalize_all(
            stats.deep_view(),
        )),
        response matches Err(e) ==> (r matches Err(err) && is_internal_with(
            err,
            "Unable to retrieve batch statuses: "@ + e@,
        )),
{
    match response {
        Ok(stats) => {
            let mut out: Vec<BatchStatus> = Vec::new();
            let mut i: usize = 0;
            while i < stats.len()
                invariant
                    i <= stats.len(),
                    out.deep_view() == normalize_all(stats.deep_view().take(i as int)),
                decreases stats.len() - i,
            {
                let b = BatchStatus::from_ref(&stats[i]);
                out.push(b);
                proof {
                    let sv = stats.deep_view();
                    assert(sv.take(i + 1).drop_last() =~= sv.take(i as int));
                    assert(sv.take(i + 1).last() == sv[i as int]);
                    assert(normalize_all(sv.take(i + 1)) =~= normalize_all(
                        sv.take(i as int),
                    ).push(normalize_spec(sv[i as int])));
                    assert(out.deep_view() =~= normalize_all(sv.take(i + 1)));
                }
                i = i + 1;
            }
            proof {
                assert(stats.deep_view().take(stats.len() as int) =~= stats.deep_view());
            }
            Ok(out)
        },
        Err(e) => {
            let mut m = String::from_str("Unable to retrieve batch statuses: ");
            m.append(e.as_str());
            Err(BackendClientError::InternalError(m))
        },
    }
}

} // verus!
