//! Paying an LNURL: the amount, the decoded address, and the order in which
//! the steps of the payment follow each other.
//!
//! The requests to the LNURL service and the payment itself are made by the
//! caller. After each of them it reports what happened as a [`PayEvent`] to
//! [`pay_step`], which answers with the next thing to do.

use vstd::prelude::*;

use crate::amount::{
    is_u64_text, msat_of, parse_u64, sat_to_msat, u64_text_value, DEFAULT_AMOUNT_SAT,
};
use crate::decode::{
    decode_bech32, decode_message, decode_result, result_view, text_of_bech32, DecodeError,
    DecodeErrorView,
};
use crate::invoice::{is_payable_invoice, is_valid_invoice};

verus! {

/// Where a payment stands.
#[derive(Clone, Copy, Debug, PartialEq, Eq, Structural)]
pub enum PayState {
    /// The LNURL service was asked what it offers.
    AwaitingResponse { amount_msat: u64 },
    /// The service was asked for an invoice.
    AwaitingInvoice,
    /// The node was told to pay the invoice.
    AwaitingPayment,
    /// Nothing is left to do.
    Finished,
}

/// What an LNURL service offers.
#[derive(Clone, Copy, Debug, PartialEq, Eq, Structural)]
pub enum ResponseKind {
    /// It takes payments.
    Pay,
    /// It pays out.
    Withdraw,
    /// It opens channels.
    Channel,
}

/// What happened to the last thing that the caller was told to do.
#[derive(Clone, Debug, PartialEq, Eq)]
pub enum PayEvent {
    /// The service answered the request.
    Response(ResponseKind),
    /// The service sent this invoice.
    Invoice(String),
    /// The node took the payment.
    PaymentSent,
    /// The request or the payment failed.
    Failed,
}

/// Why a payment was given up.
#[derive(Clone, Debug, PartialEq, Eq)]
pub enum PayError {
    /// The amount is no number of satoshis.
    InvalidAmount,
    /// The amount in millisatoshis does not fit in 64 bits.
    AmountOverflow,
    /// The LNURL could not be decoded.
    Decode(DecodeError),
    /// The service did not answer the request.
    RequestFailed,
    /// The service did not send an invoice.
    InvoiceFetchFailed,
    /// What the service sent is no valid invoice.
    InvalidInvoice,
    /// The node did not take the payment.
    PaymentFailed,
    /// An event was reported that the state of the payment does not expect.
    OutOfTurn,
}

/// A `PayError` as a mathematical value.
pub enum PayErrorView {
    InvalidAmount,
    AmountOverflow,
    Decode(DecodeErrorView),
    RequestFailed,
    InvoiceFetchFailed,
    InvalidInvoice,
    PaymentFailed,
    OutOfTurn,
}

impl View for PayError {
    type V = PayErrorView;

    open spec fn view(&self) -> PayErrorView {
        match self {
            PayError::InvalidAmount => PayErrorView::InvalidAmount,
            PayError::AmountOverflow => PayErrorView::AmountOverflow,
            PayError::Decode(e) => PayErrorView::Decode(e@),
            PayError::RequestFailed => PayErrorView::RequestFailed,
            PayError::InvoiceFetchFailed => PayErrorView::InvoiceFetchFailed,
            PayError::InvalidInvoice => PayErrorView::InvalidInvoice,
            PayError::PaymentFailed => PayErrorView::PaymentFailed,
            PayError::OutOfTurn => PayErrorView::OutOfTurn,
        }
    }
}

/// The message that reports the error `e`.
pub open spec fn pay_error_message(e: PayErrorView) -> Seq<char> {
    match e {
        PayErrorView::InvalidAmount => "Invalid amount: not a number of satoshis"@,
        PayErrorView::AmountOverflow => "Invalid amount: too many satoshis"@,
        PayErrorView::Decode(e) => decode_message(e),
        PayErrorView::RequestFailed => "The LNURL request failed"@,
        PayErrorView::InvoiceFetchFailed => "The invoice could not be fetched"@,
        PayErrorView::InvalidInvoice => "The invoice is not valid"@,
        PayErrorView::PaymentFailed => "The payment failed"@,
        PayErrorView::OutOfTurn => "The payment was reported an event out of turn"@,
    }
}

impl PayError {
    /// The message that reports this error.
    pub fn message(&self) -> (r: String)
        ensures
            r@ == pay_error_message(self@),
    {
        match self {
            PayError::InvalidAmount => "Invalid amount: not a number of satoshis".to_owned(),
            PayError::AmountOverflow => "Invalid amount: too many satoshis".to_owned(),
            PayError::Decode(e) => e.message(),
            PayError::RequestFailed => "The LNURL request failed".to_owned(),
            PayError::InvoiceFetchFailed => "The invoice could not be fetched".to_owned(),
            PayError::InvalidInvoice => "The invoice is not valid".to_owned(),
            PayError::PaymentFailed => "The payment failed".to_owned(),
            PayError::OutOfTurn => "The payment was reported an event out of turn".to_owned(),
        }
    }
}

/// What the caller is to do next.
#[derive(Clone, Debug, PartialEq, Eq)]
pub enum PayAction {
    /// Ask the LNURL service at `url` what it offers.
    MakeRequest { url: String },
    /// Ask the service for an invoice over `amount_msat` millisatoshis.
    GetInvoice { amount_msat: u64 },
    /// Tell the node to pay the invoice that the text `invoice` writes.
    SendPayment { invoice: String },
    /// Go back to the prompt.
    Finish,
    /// Give up with this error.
    Abort(PayError),
}

/// A `PayAction` as a mathematical value.
pub enum PayActionView {
    MakeRequest { url: Seq<char> },
    GetInvoice { amount_msat: u64 },
    SendPayment { invoice: Seq<char> },
    Finish,
    Abort(PayErrorView),
}

impl View for PayAction {
    type V = PayActionView;

    open spec fn view(&self) -> PayActionView {
        match self {
            PayAction::MakeRequest { url } => PayActionView::MakeRequest { url: url@ },
            PayAction::GetInvoice { amount_msat } => PayActionView::GetInvoice {
                amount_msat: *amount_msat,
            },
            PayAction::SendPayment { invoice } => PayActionView::SendPayment { invoice: invoice@ },
            PayAction::Finish => PayActionView::Finish,
            PayAction::Abort(e) => PayActionView::Abort(e@),
        }
    }
}

/// The view of an optional text.
pub open spec fn text_view(text: Option<&str>) -> Option<Seq<char>> {
    match text {
        Some(t) => Some(t@),
        None => None,
    }
}

/// The amount in millisatoshis that the argument `amount` asks for: that of
/// the number of satoshis it writes, or of one satoshi where there is none.
pub open spec fn amount_msat_of(amount: Option<Seq<char>>) -> Result<u64, PayErrorView> {
    let sat: Option<u64> = match amount {
        None => Some(DEFAULT_AMOUNT_SAT),
        Some(text) => if is_u64_text(text) {
            Some(u64_text_value(text) as u64)
        } else {
            None
        },
    };
    match sat {
        None => Err(PayErrorView::InvalidAmount),
        Some(sat) => match msat_of(sat) {
            Some(msat) => Ok(msat),
            None => Err(PayErrorView::AmountOverflow),
        },
    }
}

/// How a payment starts where the amount is `amount` and decoding the LNURL
/// gave `decoded`: with a request to the decoded address, or not at all.
pub open spec fn payment_start(
    amount: Result<u64, PayErrorView>,
    decoded: Result<Seq<char>, DecodeErrorView>,
) -> (PayState, PayActionView) {
    match amount {
        Err(e) => (PayState::Finished, PayActionView::Abort(e)),
        Ok(amount_msat) => match decoded {
            Err(e) => (PayState::Finished, PayActionView::Abort(PayErrorView::Decode(e))),
            Ok(url) => (
                PayState::AwaitingResponse { amount_msat },
                PayActionView::MakeRequest { url },
            ),
        },
    }
}

/// The amount in millisatoshis of a payment, from the argument of the
/// command: a number of satoshis, one satoshi where none is given.
pub fn pay_amount(amount: Option<&str>) -> (r: Result<u64, PayError>)
    ensures
        match amount_msat_of(text_view(amount)) {
            Ok(msat) => r == Ok::<u64, PayError>(msat),
            Err(e) => r matches Err(err) && err@ == e,
        },
        amount is None ==> r == Ok::<u64, PayError>(1000),
{
    let sat: u64 = match amount {
        None => DEFAULT_AMOUNT_SAT,
        Some(text) => match parse_u64(text) {
            Some(sat) => sat,
            None => {
                return Err(PayError::InvalidAmount);
            },
        },
    };
    match sat_to_msat(sat) {
        Some(msat) => Ok(msat),
        None => Err(PayError::AmountOverflow),
    }
}

/// Starts a payment over the amount that `amount` asks for, given what
/// decoding the LNURL gave.
pub fn start_payment(amount: Option<&str>, decoded: Result<String, DecodeError>) -> (r: (
    PayState,
    PayAction,
))
    ensures
        (r.0, r.1@) == payment_start(amount_msat_of(text_view(amount)), result_view(decoded)),
{
    let amount_msat: u64 = match pay_amount(amount) {
        Ok(msat) => msat,
        Err(e) => {
            return (PayState::Finished, PayAction::Abort(e));
        },
    };
    match decoded {
        Ok(url) => (PayState::AwaitingResponse { amount_msat }, PayAction::MakeRequest { url }),
        Err(e) => (PayState::Finished, PayAction::Abort(PayError::Decode(e))),
    }
}

/// Starts the payment of the LNURL `payload` over the amount that `amount`
/// asks for.
///
/// The payment starts with a request to the address that `payload` decodes
/// to. It is given up at once where `amount` is no number of satoshis, where
/// the amount in millisatoshis does not fit in 64 bits, and where `payload`
/// cannot be decoded.
pub fn lnurlp(amount: Option<&str>, payload: &str) -> (r: (PayState, PayAction))
    ensures
        (r.0, r.1@) == payment_start(
            amount_msat_of(text_view(amount)),
            decode_result(payload@, text_of_bech32(payload@)),
        ),
{
    start_payment(amount, decode_bech32(payload))
}

/// What follows the event `event` in the state `state`: the next state and
/// what the caller is to do.
///
/// A service that takes payments is asked for an invoice over the amount
/// that the payment started with; one that offers something else ends the
/// payment. An invoice that is valid and whose amount is in range is paid;
/// anything else ends the payment with an error. Once the payment is finished nothing follows.
pub open spec fn pay_next(state: PayState, event: PayEvent) -> (PayState, PayActionView) {
    match state {
        PayState::AwaitingResponse { amount_msat } => match event {
            PayEvent::Response(ResponseKind::Pay) => (
                PayState::AwaitingInvoice,
                PayActionView::GetInvoice { amount_msat },
            ),
            PayEvent::Response(_) => (PayState::Finished, PayActionView::Finish),
            PayEvent::Failed => gives_up(PayErrorView::RequestFailed),
            _ => gives_up(PayErrorView::OutOfTurn),
        },
        PayState::AwaitingInvoice => match event {
            PayEvent::Invoice(text) => invoice_next(
                if is_payable_invoice(text@) {
                    Some(text@)
                } else {
                    None
                },
            ),
            PayEvent::Failed => gives_up(PayErrorView::InvoiceFetchFailed),
            _ => gives_up(PayErrorView::OutOfTurn),
        },
        PayState::AwaitingPayment => match event {
            PayEvent::PaymentSent => (PayState::Finished, PayActionView::Finish),
            PayEvent::Failed => gives_up(PayErrorView::PaymentFailed),
            _ => gives_up(PayErrorView::OutOfTurn),
        },
        PayState::Finished => (PayState::Finished, PayActionView::Finish),
    }
}

/// The amount that a payment starts with is the amount that the invoice is
/// asked for once the service has answered that it takes payments. Where
/// the command has no argument, that amount is 1000 millisatoshis.
pub proof fn lemma_amount_is_forwarded(amount: Option<Seq<char>>, url: Seq<char>)
    ensures
        amount_msat_of(amount) matches Ok(msat) ==> {
            let start = payment_start(amount_msat_of(amount), Ok(url));
            &&& start == (
                PayState::AwaitingResponse { amount_msat: msat },
                PayActionView::MakeRequest { url },
            )
            &&& pay_next(start.0, PayEvent::Response(ResponseKind::Pay)) == (
                PayState::AwaitingInvoice,
                PayActionView::GetInvoice { amount_msat: msat },
            )
        },
        amount_msat_of(None) == Ok::<u64, PayErrorView>(1000),
{
}

/// The node is told to pay only what the service sent as an invoice and was
/// found valid, the text as it was sent.
pub proof fn lemma_only_valid_invoices_are_paid(state: PayState, event: PayEvent)
    ensures
        pay_next(state, event).1 matches PayActionView::SendPayment { invoice } ==> {
            &&& state == PayState::AwaitingInvoice
            &&& is_payable_invoice(invoice)
            &&& event matches PayEvent::Invoice(text)
            &&& text@ == invoice
        },
{
}

/// No step is taken twice: whatever is reported, a payment is finished
/// after three events at the latest, and a finished payment stays finished.
pub proof fn lemma_payment_ends(state: PayState, first: PayEvent, second: PayEvent, third: PayEvent)
    ensures
        pay_next(pay_next(pay_next(state, first).0, second).0, third).0 == PayState::Finished,
        pay_next(PayState::Finished, first) == (PayState::Finished, PayActionView::Finish),
{
}

/// The end of a payment with the error `e`.
pub open spec fn gives_up(e: PayErrorView) -> (PayState, PayActionView) {
    (PayState::Finished, PayActionView::Abort(e))
}

/// What follows the reading of an invoice: the payment of the invoice that
/// was read, or the end of the payment where none was.
pub open spec fn invoice_next(invoice: Option<Seq<char>>) -> (PayState, PayActionView) {
    match invoice {
        Some(invoice) => (PayState::AwaitingPayment, PayActionView::SendPayment { invoice }),
        None => gives_up(PayErrorView::InvalidInvoice),
    }
}

/// Decides what follows the arrival of the text `text` as an invoice, given
/// whether it was found valid.
pub fn on_invoice(text: &str, valid: bool) -> (r: (PayState, PayAction))
    ensures
        (r.0, r.1@) == invoice_next(
            if valid {
                Some(text@)
            } else {
                None
            },
        ),
{
    if valid {
        (PayState::AwaitingPayment, PayAction::SendPayment { invoice: text.to_owned() })
    } else {
        (PayState::Finished, PayAction::Abort(PayError::InvalidInvoice))
    }
}

/// Decides what follows the event `event` in the state `state`.
pub fn pay_step(state: PayState, event: &PayEvent) -> (r: (PayState, PayAction))
    ensures
        (r.0, r.1@) == pay_next(state, *event),
{
    match state {
        PayState::AwaitingResponse { amount_msat } => match event {
            PayEvent::Response(ResponseKind::Pay) => (
                PayState::AwaitingInvoice,
                PayAction::GetInvoice { amount_msat },
            ),
            PayEvent::Response(_) => (PayState::Finished, PayAction::Finish),
            PayEvent::Failed => (PayState::Finished, PayAction::Abort(PayError::RequestFailed)),
            _ => (PayState::Finished, PayAction::Abort(PayError::OutOfTurn)),
        },
        PayState::AwaitingInvoice => match event {
            PayEvent::Invoice(text) => on_invoice(text.as_str(), is_valid_invoice(text.as_str())),
            PayEvent::Failed => (
                PayState::Finished,
                PayAction::Abort(PayError::InvoiceFetchFailed),
            ),
            _ => (PayState::Finished, PayAction::Abort(PayError::OutOfTurn)),
        },
        PayState::AwaitingPayment => match event {
            PayEvent::PaymentSent => (PayState::Finished, PayAction::Finish),
            PayEvent::Failed => (PayState::Finished, PayAction::Abort(PayError::PaymentFailed)),
            _ => (PayState::Finished, PayAction::Abort(PayError::OutOfTurn)),
        },
        PayState::Finished => (PayState::Finished, PayAction::Finish),
    }
}

} // verus!
